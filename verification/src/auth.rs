use vstd::prelude::*;
use vstd::string::StrSliceExecFns;
use vstd::string::StringExecFns;
use vstd::string::StringSliceAdditionalSpecFns;
use vstd::utf8::encode_utf8;

verus! {

/// The standard, padded base64 encoding of a byte sequence.
pub uninterp spec fn base64_of(bytes: Seq<u8>) -> Seq<char>;

/// Relies on base64::encode: the standard-alphabet, padded base64
/// encoding of the input bytes, a pure function of them.
#[verifier::external_body]
fn base64_encode(bytes: &Vec<u8>) -> (r: String)
    ensures
        r@ == base64_of(bytes@),
{
    base64::encode(bytes)
}

/// The `user:token` compound the authorization scheme encodes.
pub open spec fn auth_compound(user: Seq<char>, token: Seq<char>) -> Seq<char> {
    user + seq![':'] + token
}

/// The authorization header value for a user/token pair: the word
/// `Basic`, a space, and the base64 encoding of the UTF-8 bytes of
/// `user:token`.
pub open spec fn basic_auth_spec(user: Seq<char>, token: Seq<char>) -> Seq<char> {
    seq!['B', 'a', 's', 'i', 'c', ' '] + base64_of(encode_utf8(auth_compound(user, token)))
}

/// Builds the authorization header value the remote client sends with
/// every request on behalf of a user/token pair.
pub fn basic_auth_header(user: &str, token: &str) -> (r: String)
    ensures
        r@ == basic_auth_spec(user@, token@),
{
    let mut compound = String::from_str(user);
    compound.append(":");
    compound.append(token);
    proof {
        reveal_strlit(":");
        assert((":")@ =~= seq![':']);
        assert(compound@ =~= auth_compound(user@, token@));
    }
    let bytes = compound.as_str().as_bytes_vec();
    let encoded = base64_encode(&bytes);
    let mut out = String::from_str("Basic ");
    proof {
        reveal_strlit("Basic ");
        assert(("Basic ")@ =~= seq!['B', 'a', 's', 'i', 'c', ' ']);
    }
    out.append(encoded.as_str());
    proof {
        assert(out@ =~= basic_auth_spec(user@, token@));
    }
    out
}

} // verus!
