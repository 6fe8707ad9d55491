//! Hardened derivation paths.
//!
//! A path is an ordered sequence of 32-bit segments whose top bit marks a
//! hardened derivation step; every segment this module pushes is hardened.
//! Paths follow a fixed purpose / coin-type / account template, to which a
//! chain-type segment and an address-index segment are appended (and later
//! removed) for each derived address.

use vstd::prelude::*;

use crate::error::Error;

verus! {

/// Top bit of a segment: set on every hardened derivation step.
pub const HARDENED: u32 = 0x8000_0000;

/// Purpose segment of the fixed path template, before hardening.
pub const PURPOSE: u32 = 44;

/// Coin-type segment of the fixed path template, before hardening.
pub const COIN_TYPE: u32 = 4218;

/// Classifies a derived address within an account: externally shareable
/// receiving addresses against internal change addresses.
#[derive(Clone, Copy, PartialEq, Eq, Structural, Debug)]
pub enum AddressChainType {
    External,
    Internal,
}

impl AddressChainType {
    /// The raw (unhardened) value of the chain-type path segment.
    pub open spec fn spec_segment(self) -> u32 {
        match self {
            AddressChainType::External => 0,
            AddressChainType::Internal => 1,
        }
    }

    /// The raw (unhardened) value of the chain-type path segment.
    pub fn segment(self) -> (r: u32)
        ensures
            r == self.spec_segment(),
    {
        match self {
            AddressChainType::External => 0,
            AddressChainType::Internal => 1,
        }
    }
}

/// A raw value turned into a hardened segment.
pub open spec fn hardened(value: int) -> u32 {
    (HARDENED + value) as u32
}

/// The hardened template path of one account:
/// purpose, coin type and account index, all hardened.
pub open spec fn account_template(account_index: usize) -> Seq<u32> {
    seq![
        hardened(PURPOSE as int),
        hardened(COIN_TYPE as int),
        hardened(account_index as int),
    ]
}

/// The full path of one derived address: the account template followed by
/// the hardened chain-type and address-index segments.
pub open spec fn full_path(
    account_index: usize,
    chain_type: AddressChainType,
    index: usize,
) -> Seq<u32> {
    account_template(account_index)
        .push(hardened(chain_type.spec_segment() as int))
        .push(hardened(index as int))
}

/// True when every segment of `s` carries the hardened mark.
pub open spec fn all_hardened(s: Seq<u32>) -> bool {
    forall|i: int| 0 <= i < s.len() ==> s[i] >= HARDENED
}

/// An ordered sequence of hardened 32-bit derivation segments.
pub struct DerivationPath {
    segments: Vec<u32>,
}

impl View for DerivationPath {
    type V = Seq<u32>;

    closed spec fn view(&self) -> Seq<u32> {
        self.segments@
    }
}

impl DerivationPath {
    /// Build the hardened template path for `account_index`.
    ///
    /// Fails when the account index cannot be represented as a hardened
    /// segment, that is when it collides with the hardened bit.
    pub fn build(account_index: usize) -> (r: Result<DerivationPath, Error>)
        ensures
            account_index < HARDENED ==> (r matches Ok(p)
                && p@ == account_template(account_index)),
            account_index >= HARDENED ==> r == Err::<DerivationPath, Error>(
                Error::InvalidAccountIndex { account_index },
            ),
    {
        if account_index >= HARDENED as usize {
            return Err(Error::InvalidAccountIndex { account_index });
        }
        let mut segments: Vec<u32> = Vec::new();
        segments.push(PURPOSE + HARDENED);
        segments.push(COIN_TYPE + HARDENED);
        segments.push(account_index as u32 + HARDENED);
        let path = DerivationPath { segments };
        proof {
            assert(path@ =~= account_template(account_index));
        }
        Ok(path)
    }

    /// The raw segment values, in order.
    pub(crate) fn raw_segments(&self) -> (r: &Vec<u32>)
        ensures
            r@ == self@,
    {
        &self.segments
    }

    /// How many segments the path currently holds.
    pub fn segment_count(&self) -> (r: usize)
        ensures
            r == self@.len(),
    {
        self.segments.len()
    }

    /// Append the hardened chain-type segment, then the hardened
    /// address-index segment. The caller removes exactly these two segments
    /// with `pop_chain_and_index` before reusing the path.
    pub fn push_chain_and_index(&mut self, chain_type: AddressChainType, index: usize)
        requires
            index < HARDENED,
        ensures
            final(self)@ == old(self)@
                .push(hardened(chain_type.spec_segment() as int))
                .push(hardened(index as int)),
    {
        self.segments.push(chain_type.segment() + HARDENED);
        self.segments.push(index as u32 + HARDENED);
    }

    /// Remove the chain-type and address-index segments appended by
    /// `push_chain_and_index`, restoring the path to its previous state.
    pub fn pop_chain_and_index(&mut self)
        requires
            old(self)@.len() >= 2,
        ensures
            final(self)@ == old(self)@.subrange(0, old(self)@.len() - 2),
    {
        self.segments.pop();
        self.segments.pop();
        proof {
            assert(self@ =~= old(self)@.subrange(0, old(self)@.len() - 2));
        }
    }
}

/// Pushing the two per-address segments and popping them again is balanced:
/// the two operations compose to the identity on any path value.
pub proof fn lemma_push_pop_balanced(
    s: Seq<u32>,
    chain_type: AddressChainType,
    index: usize,
)
    ensures
        s.push(hardened(chain_type.spec_segment() as int))
            .push(hardened(index as int))
            .subrange(0, s.len() as int) =~= s,
{
}

} // verus!
