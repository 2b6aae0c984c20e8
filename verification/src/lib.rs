//! A read-only filesystem view of a remote, HTTP-accessible artifact store.
//!
//! The library holds the verified core of the adapter: translating paths
//! into remote queries, projecting remote listings into POSIX attribute
//! records, handing out and retiring numeric handles, listing directory
//! children, and resolving cached download locators for ranged reads.
//! The remote round trips themselves (HTTP, JSON decoding) happen outside
//! the library; every operation that needs a remote answer takes it as an
//! argument.

pub mod adapter;
pub mod auth;
pub mod errors;
pub mod listing;
pub mod locator;
pub mod num;
pub mod timestamp;

pub use adapter::Attr;
pub use adapter::ChildEntry;
pub use adapter::RtFS;
pub use errors::FileType;
pub use errors::FsError;
