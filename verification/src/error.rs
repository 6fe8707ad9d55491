//! Errors surfaced by address derivation and search.

use vstd::prelude::*;

verus! {

/// Everything that can go wrong while building paths, deriving addresses,
/// resolving the network prefix, or searching a range.
#[derive(Clone, Copy, PartialEq, Eq, Structural, Debug)]
pub enum Error {
    /// The account index cannot be encoded as a hardened path segment.
    InvalidAccountIndex { account_index: usize },
    /// The seed rejected a constructed derivation path.
    KeyDerivationFailed,
    /// Neither an explicit network prefix nor a client to resolve one from
    /// was supplied.
    MissingPrefixSource,
    /// The client could not obtain the network prefix from its node.
    ConnectionFailed,
    /// A search exhausted its index range without finding the address.
    AddressNotFound { start: usize, end: usize },
}

} // verus!
