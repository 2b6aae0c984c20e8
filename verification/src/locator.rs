use vstd::prelude::*;
use vstd::string::StringExecFns;

verus! {

/// The mapping a sequence of path/locator pairs denotes, later pairs
/// overriding earlier ones.
pub open spec fn map_of(s: Seq<(String, String)>) -> Map<Seq<char>, Seq<char>>
    decreases s.len(),
{
    if s.len() == 0 {
        Map::empty()
    } else {
        map_of(s.drop_last()).insert(s.last().0@, s.last().1@)
    }
}

/// A key is bound exactly when some pair carries it.
proof fn lemma_map_of_contains(s: Seq<(String, String)>, k: Seq<char>)
    ensures
        map_of(s).contains_key(k) <==> exists|i: int| 0 <= i < s.len() && (#[trigger] s[i]).0@ == k,
    decreases s.len(),
{
    if s.len() > 0 {
        lemma_map_of_contains(s.drop_last(), k);
        if s.last().0@ == k {
            assert(s[s.len() - 1].0@ == k);
        } else if map_of(s).contains_key(k) {
            let i = choose|i: int| 0 <= i < s.len() - 1 && (#[trigger] s.drop_last()[i]).0@ == k;
            assert(s[i].0@ == k);
        } else {
            assert(forall|i: int|
                0 <= i < s.len() - 1 ==> (#[trigger] s[i]).0@ == s.drop_last()[i].0@);
        }
    }
}

/// When no pair past `i` repeats the key of the pair at `i`, the map
/// binds that key to the value at `i`.
proof fn lemma_map_of_get(s: Seq<(String, String)>, i: int)
    requires
        0 <= i < s.len(),
        forall|j: int| i < j < s.len() ==> (#[trigger] s[j]).0@ != s[i].0@,
    ensures
        map_of(s).contains_key(s[i].0@),
        map_of(s)[s[i].0@] == s[i].1@,
    decreases s.len(),
{
    if i < s.len() - 1 {
        assert(forall|j: int|
            i < j < s.len() - 1 ==> (#[trigger] s.drop_last()[j]).0@ == s[j].0@);
        lemma_map_of_get(s.drop_last(), i);
        assert(s.drop_last()[i] == s[i]);
        assert(s[s.len() - 1].0@ != s[i].0@);
    }
}

/// Removing the pair at `i` removes exactly its key from the denoted
/// map, provided no two pairs share a key.
proof fn lemma_map_of_remove(s: Seq<(String, String)>, i: int)
    requires
        0 <= i < s.len(),
        forall|j: int, l: int|
            0 <= j < l < s.len() ==> (#[trigger] s[j]).0@ != (#[trigger] s[l]).0@,
    ensures
        map_of(s.remove(i)) == map_of(s).remove(s[i].0@),
    decreases s.len(),
{
    let k = s[i].0@;
    if i == s.len() - 1 {
        assert(s.remove(i) =~= s.drop_last());
        assert(forall|j: int| 0 <= j < s.len() - 1 ==> (#[trigger] s.drop_last()[j]).0@ != k);
        lemma_map_of_contains(s.drop_last(), k);
        assert(map_of(s.drop_last()).insert(k, s[i].1@).remove(k) =~= map_of(s.drop_last()));
    } else {
        let t = s.drop_last();
        assert(forall|j: int| 0 <= j < t.len() ==> (#[trigger] t[j]).0@ == s[j].0@);
        lemma_map_of_remove(t, i);
        assert(s.remove(i).drop_last() =~= t.remove(i));
        assert(s.remove(i).last() == s.last());
        assert(map_of(s.remove(i)) == map_of(t.remove(i)).insert(s.last().0@, s.last().1@));
        assert(s.last().0@ != k);
        assert(map_of(t).remove(k).insert(s.last().0@, s.last().1@) =~= map_of(t).insert(
            s.last().0@,
            s.last().1@,
        ).remove(k));
    }
}

/// The path-to-locator cache: for each filesystem path, the download
/// locator most recently observed for it. Recording a path that is
/// already present replaces its locator.
pub struct LocatorCache {
    entries: Vec<(String, String)>,
}

impl LocatorCache {
    /// The mapping the cache holds, from path to locator.
    pub closed spec fn view(&self) -> Map<Seq<char>, Seq<char>> {
        map_of(self.entries@)
    }

    /// Each path occurs in at most one pair.
    pub closed spec fn wf(&self) -> bool {
        forall|i: int, j: int|
            0 <= i < j < self.entries@.len() ==> (#[trigger] self.entries@[i]).0@
                != (#[trigger] self.entries@[j]).0@
    }

    /// An empty cache.
    pub fn new() -> (r: Self)
        ensures
            r.wf(),
            r.view() == Map::<Seq<char>, Seq<char>>::empty(),
    {
        LocatorCache { entries: Vec::new() }
    }

    /// The index of the entry carrying `path`, if any.
    fn find(&self, path: &String) -> (r: Option<usize>)
        ensures
            match r {
                Some(i) => i < self.entries@.len() && self.entries@[i as int].0@ == path@
                    && (forall|j: int|
                    0 <= j < i ==> (#[trigger] self.entries@[j]).0@ != path@),
                None => forall|j: int|
                    0 <= j < self.entries@.len() ==> (#[trigger] self.entries@[j]).0@ != path@,
            },
    {
        let n = self.entries.len();
        let mut i: usize = 0;
        while i < n
            invariant
                0 <= i <= n,
                n == self.entries@.len(),
                forall|j: int| 0 <= j < i ==> (#[trigger] self.entries@[j]).0@ != path@,
            decreases n - i,
        {
            if self.entries[i].0 == *path {
                return Some(i);
            }
            i = i + 1;
        }
        None
    }

    /// The locator recorded for `path`, or `None` when the cache holds
    /// no entry for it.
    pub fn get(&self, path: &str) -> (r: Option<&String>)
        requires
            self.wf(),
        ensures
            r is Some <==> self.view().contains_key(path@),
            r is Some ==> r->0@ == self.view()[path@],
    {
        let key = String::from_str(path);
        match self.find(&key) {
            Some(i) => {
                proof {
                    lemma_map_of_get(self.entries@, i as int);
                }
                Some(&self.entries[i].1)
            },
            None => {
                proof {
                    lemma_map_of_contains(self.entries@, path@);
                }
                None
            },
        }
    }

    /// Records `locator` for `path`, replacing any earlier entry for the
    /// same path.
    pub fn record(&mut self, path: String, locator: String)
        requires
            old(self).wf(),
        ensures
            final(self).wf(),
            final(self).view() == old(self).view().insert(path@, locator@),
    {
        let ghost pre = self.entries@;
        match self.find(&path) {
            Some(i) => {
                self.entries.remove(i);
                proof {
                    lemma_map_of_remove(pre, i as int);
                    assert(forall|j: int, l: int|
                        0 <= j < l < self.entries@.len()
                            ==> (#[trigger] self.entries@[j]).0@
                            != (#[trigger] self.entries@[l]).0@) by {
                        assert(forall|j: int|
                            0 <= j < i ==> (#[trigger] self.entries@[j]) == pre[j]);
                        assert(forall|j: int|
                            i <= j < self.entries@.len()
                                ==> (#[trigger] self.entries@[j]) == pre[j + 1]);
                    }
                    assert(forall|j: int|
                        0 <= j < self.entries@.len()
                            ==> (#[trigger] self.entries@[j]).0@ != path@) by {
                        assert(forall|j: int|
                            0 <= j < i ==> (#[trigger] self.entries@[j]) == pre[j]);
                        assert(forall|j: int|
                            i <= j < self.entries@.len()
                                ==> (#[trigger] self.entries@[j]) == pre[j + 1]);
                    }
                }
            },
            None => {},
        }
        let ghost mid = self.entries@;
        let ghost pk = path@;
        let ghost lv = locator@;
        proof {
            lemma_map_of_contains(mid, pk);
            assert(!map_of(mid).contains_key(pk));
        }
        self.entries.push((path, locator));
        proof {
            assert(self.entries@.drop_last() =~= mid);
            assert(self.entries@.last().0@ == pk && self.entries@.last().1@ == lv);
            assert(map_of(self.entries@) == map_of(mid).insert(pk, lv));
            assert(map_of(mid).insert(pk, lv) =~= map_of(pre).insert(pk, lv));
            assert(forall|j: int|
                0 <= j < mid.len() ==> (#[trigger] self.entries@[j]) == mid[j]);
        }
    }
}

} // verus!
