//! Generating the addresses of an index range, and searching one.
//!
//! The builder collects a seed, an account index, an index range and an
//! optional network prefix, and produces every (address, chain type) pair of
//! the range in a fixed order: ascending index, external before internal.
//! Searching re-derives the same range and scans it in generation order.

use vstd::prelude::*;

use core::ops::Range;

use crate::derive::{derived_address, generate_address, Seed};
use crate::encode::{bech32_of, valid_hrp, Bech32Address};
use crate::error::Error;
use crate::path::{
    account_template, all_hardened, full_path, AddressChainType, DerivationPath, HARDENED,
};

verus! {

/// A connected node handle, reduced to what address generation reads from
/// it: the network prefix its node reports, absent when the node could not
/// be reached.
pub struct Client {
    bech32_hrp: Option<String>,
}

impl View for Client {
    type V = Option<Seq<char>>;

    closed spec fn view(&self) -> Option<Seq<char>> {
        match self.bech32_hrp {
            Some(h) => Some(h@),
            None => None,
        }
    }
}

impl Client {
    /// Record what a node reported as its network prefix, or `None` when
    /// the node could not be reached.
    pub fn new(bech32_hrp: Option<String>) -> (r: Client)
        ensures
            r@ == match bech32_hrp {
                Some(h) => Some(h@),
                None => None::<Seq<char>>,
            },
    {
        Client { bech32_hrp }
    }

    /// The network prefix of this client's node; fails when the node never
    /// reported one.
    pub fn get_bech32_hrp(&self) -> (r: Result<String, Error>)
        ensures
            match r {
                Ok(h) => self@ == Some(h@),
                Err(e) => e == Error::ConnectionFailed && self@ is None,
            },
    {
        match &self.bech32_hrp {
            Some(h) => Ok(h.clone()),
            None => Err(Error::ConnectionFailed),
        }
    }
}

/// How many indices the half-open range `[start, end)` holds.
pub open spec fn range_len(start: usize, end: usize) -> int {
    if start <= end {
        end - start
    } else {
        0
    }
}

/// The chain type of position `j` in the generated list: external on even
/// positions, internal on odd ones.
pub open spec fn chain_of(j: int) -> AddressChainType {
    if j % 2 == 0 {
        AddressChainType::External
    } else {
        AddressChainType::Internal
    }
}

/// The encoded address at position `j` of the list generated for a seed, an
/// account index, a range starting at `start` and a prefix: position `j`
/// covers derivation index `start + j / 2` and the chain type of `j`.
pub open spec fn encoded_at(
    seed: Seq<u8>,
    account_index: usize,
    start: usize,
    hrp: Seq<char>,
    j: int,
) -> Seq<char> {
    bech32_of(
        derived_address(
            seed,
            full_path(account_index, chain_of(j), (start + j / 2) as usize),
        ),
        hrp,
    )
}

/// Builder of one address-generation request.
pub struct GetAddressesBuilder<'a> {
    /// Client to resolve the network prefix from when none is set.
    pub client: Option<&'a Client>,
    /// The seed addresses are derived from.
    pub seed: Option<&'a Seed>,
    /// The account whose addresses are generated.
    pub account_index: usize,
    /// First derivation index of the range.
    pub start: usize,
    /// One past the last derivation index of the range.
    pub end: usize,
    /// Explicit network prefix; when absent it is resolved via the client.
    pub bech32_hrp: Option<String>,
}

impl<'a> Default for GetAddressesBuilder<'a> {
    /// The default request: no seed or client yet, account 0, range `0..20`,
    /// no explicit prefix.
    fn default() -> (r: GetAddressesBuilder<'a>)
        ensures
            r.client is None,
            r.seed is None,
            r.account_index == 0,
            r.start == 0,
            r.end == 20,
            r.bech32_hrp is None,
    {
        GetAddressesBuilder {
            client: None,
            seed: None,
            account_index: 0,
            start: 0,
            end: 20,
            bech32_hrp: None,
        }
    }
}

impl<'a> GetAddressesBuilder<'a> {
    /// The network prefix generation will encode with: the explicit one if
    /// set, else whatever the client reports.
    pub open spec fn spec_hrp(&self) -> Option<Seq<char>> {
        match self.bech32_hrp {
            Some(h) => Some(h@),
            None => match self.client {
                Some(c) => c@,
                None => None,
            },
        }
    }

    /// Create a builder for addresses of `seed`, over the default account 0
    /// and the default range `0..20`.
    pub fn new(seed: &'a Seed) -> (r: GetAddressesBuilder<'a>)
        ensures
            r.seed == Some(seed),
            r.client is None,
            r.account_index == 0,
            r.start == 0,
            r.end == 20,
            r.bech32_hrp is None,
    {
        GetAddressesBuilder {
            client: None,
            seed: Some(seed),
            account_index: 0,
            start: 0,
            end: 20,
            bech32_hrp: None,
        }
    }

    /// Provide a client to resolve the network prefix from.
    pub fn with_client(self, client: &'a Client) -> (r: GetAddressesBuilder<'a>)
        ensures
            r == (GetAddressesBuilder { client: Some(client), ..self }),
    {
        GetAddressesBuilder { client: Some(client), ..self }
    }

    /// Set the account index.
    pub fn with_account_index(self, account_index: usize) -> (r: GetAddressesBuilder<'a>)
        ensures
            r == (GetAddressesBuilder { account_index, ..self }),
    {
        GetAddressesBuilder { account_index, ..self }
    }

    /// Set the derivation index range.
    pub fn with_range(self, range: Range<usize>) -> (r: GetAddressesBuilder<'a>)
        ensures
            r == (GetAddressesBuilder { start: range.start, end: range.end, ..self }),
    {
        GetAddressesBuilder { start: range.start, end: range.end, ..self }
    }

    /// Set the network prefix (the bech32 human-readable part) explicitly.
    pub fn with_bech32_hrp(self, bech32_hrp: String) -> (r: GetAddressesBuilder<'a>)
        ensures
            r == (GetAddressesBuilder { bech32_hrp: Some(bech32_hrp), ..self }),
    {
        GetAddressesBuilder { bech32_hrp: Some(bech32_hrp), ..self }
    }

    /// Consume the builder and generate every (address, chain type) pair of
    /// the range: for each index in ascending order the external address,
    /// then the internal one.
    ///
    /// The network prefix is resolved before any derivation: the explicit
    /// prefix if set, else the client's; with neither, the request fails
    /// with `MissingPrefixSource`.
    pub fn get_all(self) -> (r: Result<Vec<(Bech32Address, AddressChainType)>, Error>)
        requires
            self.seed matches Some(_),
            self.end <= HARDENED,
            self.spec_hrp() matches Some(h) ==> valid_hrp(h),
        ensures
            match r {
                Ok(v) => {
                    &&& self.account_index < HARDENED
                    &&& self.spec_hrp() matches Some(hrp) && {
                        &&& v@.len() == 2 * range_len(self.start, self.end)
                        &&& forall|j: int| 0 <= j < v@.len() ==> {
                            &&& (#[trigger] v@[j]).0@ == encoded_at(
                                self.seed.unwrap()@,
                                self.account_index,
                                self.start,
                                hrp,
                                j,
                            )
                            &&& v@[j].1 == chain_of(j)
                        }
                    }
                },
                Err(e) => {
                    ||| (e == (Error::InvalidAccountIndex { account_index: self.account_index })
                        && self.account_index >= HARDENED)
                    ||| (e == Error::MissingPrefixSource
                        && self.account_index < HARDENED
                        && self.bech32_hrp is None
                        && self.client is None)
                    ||| (e == Error::ConnectionFailed
                        && self.account_index < HARDENED
                        && self.bech32_hrp is None
                        && (self.client matches Some(c) && c@ is None))
                },
            },
    {
        let account_index = self.account_index;
        let mut path = match DerivationPath::build(account_index) {
            Ok(p) => p,
            Err(e) => {
                return Err(e);
            },
        };
        let bech32_hrp: String = match self.bech32_hrp {
            Some(h) => h,
            None => match self.client {
                Some(c) => match c.get_bech32_hrp() {
                    Ok(h) => h,
                    Err(e) => {
                        return Err(e);
                    },
                },
                None => {
                    return Err(Error::MissingPrefixSource);
                },
            },
        };
        let seed = self.seed.unwrap();
        proof {
            assert(all_hardened(account_template(account_index)));
        }
        let ghost hrp: Seq<char> = bech32_hrp@;
        let mut addresses: Vec<(Bech32Address, AddressChainType)> = Vec::new();
        let mut i: usize = self.start;
        while i < self.end
            invariant
                self.start <= i,
                self.start <= self.end ==> i <= self.end,
                self.start > self.end ==> i == self.start,
                self.end <= HARDENED,
                path@ == account_template(account_index),
                all_hardened(path@),
                account_index < HARDENED,
                seed == self.seed.unwrap(),
                hrp == bech32_hrp@,
                valid_hrp(hrp),
                addresses@.len() == 2 * (i - self.start),
                forall|j: int| 0 <= j < addresses@.len() ==> {
                    &&& (#[trigger] addresses@[j]).0@ == encoded_at(
                        self.seed.unwrap()@,
                        account_index,
                        self.start,
                        hrp,
                        j,
                    )
                    &&& addresses@[j].1 == chain_of(j)
                },
            decreases self.end - i,
        {
            let external = match generate_address(seed, &mut path, i, AddressChainType::External) {
                Ok(a) => a,
                Err(_) => {
                    proof {
                        assert(false);
                    }
                    vstd::pervasive::unreached()
                },
            };
            let internal = match generate_address(seed, &mut path, i, AddressChainType::Internal) {
                Ok(a) => a,
                Err(_) => {
                    proof {
                        assert(false);
                    }
                    vstd::pervasive::unreached()
                },
            };
            let encoded_external = Bech32Address::encode(&external, bech32_hrp.as_str());
            let encoded_internal = Bech32Address::encode(&internal, bech32_hrp.as_str());
            addresses.push((encoded_external, AddressChainType::External));
            addresses.push((encoded_internal, AddressChainType::Internal));
            proof {
                let k = i - self.start;
                assert(addresses@[2 * k].0@ == encoded_at(
                    self.seed.unwrap()@,
                    account_index,
                    self.start,
                    hrp,
                    2 * k,
                )) by {
                    assert((2 * k) % 2 == 0);
                    assert((2 * k) / 2 == k);
                }
                assert(addresses@[2 * k + 1].0@ == encoded_at(
                    self.seed.unwrap()@,
                    account_index,
                    self.start,
                    hrp,
                    2 * k + 1,
                )) by {
                    assert((2 * k + 1) % 2 == 1);
                    assert((2 * k + 1) / 2 == k);
                }
            }
            i = i + 1;
        }
        Ok(addresses)
    }

    /// Consume the builder and generate only the external addresses of the
    /// range, in ascending index order.
    pub fn finish(self) -> (r: Result<Vec<Bech32Address>, Error>)
        requires
            self.seed matches Some(_),
            self.end <= HARDENED,
            self.spec_hrp() matches Some(h) ==> valid_hrp(h),
        ensures
            match r {
                Ok(v) => {
                    &&& self.account_index < HARDENED
                    &&& self.spec_hrp() matches Some(hrp) && {
                        &&& v@.len() == range_len(self.start, self.end)
                        &&& forall|k: int| 0 <= k < v@.len() ==> (#[trigger] v@[k])@
                            == encoded_at(
                                self.seed.unwrap()@,
                                self.account_index,
                                self.start,
                                hrp,
                                2 * k,
                            )
                    }
                },
                Err(e) => {
                    ||| (e == (Error::InvalidAccountIndex { account_index: self.account_index })
                        && self.account_index >= HARDENED)
                    ||| (e == Error::MissingPrefixSource
                        && self.account_index < HARDENED
                        && self.bech32_hrp is None
                        && self.client is None)
                    ||| (e == Error::ConnectionFailed
                        && self.account_index < HARDENED
                        && self.bech32_hrp is None
                        && (self.client matches Some(c) && c@ is None))
                },
            },
    {
        let ghost this = self;
        let all = match self.get_all() {
            Ok(v) => v,
            Err(e) => {
                return Err(e);
            },
        };
        let mut externals: Vec<Bech32Address> = Vec::new();
        let mut k: usize = 0;
        while k < all.len()
            invariant
                k <= all@.len(),
                k % 2 == 0,
                all@.len() % 2 == 0,
                externals@.len() == k / 2,
                forall|m: int| 0 <= m < all@.len() ==> (#[trigger] all@[m]).1 == chain_of(m),
                forall|m: int| 0 <= m < externals@.len() ==> (#[trigger] externals@[m])@
                    == all@[2 * m].0@,
            decreases all@.len() - k,
        {
            let entry = &all[k];
            externals.push(Bech32Address((entry.0).0.clone()));
            proof {
                assert(externals@[k as int / 2]@ == all@[2 * (k as int / 2)].0@);
            }
            k = k + 2;
        }
        Ok(externals)
    }
}

/// Find the derivation coordinates of an encoded address: regenerate the
/// range's addresses and scan them in generation order. On the first entry
/// equal to `address`, return how many external addresses were seen before
/// or at it, together with the entry's chain type; when no entry matches,
/// fail with `AddressNotFound` carrying the searched range.
#[verifier::loop_isolation(false)]
pub fn search_address(
    seed: &Seed,
    bech32_hrp: String,
    account_index: usize,
    range: Range<usize>,
    address: &Bech32Address,
) -> (r: Result<(usize, AddressChainType), Error>)
    requires
        range.end <= HARDENED,
        valid_hrp(bech32_hrp@),
    ensures
        match r {
            Ok((count, chain_type)) => {
                &&& account_index < HARDENED
                &&& exists|p: int| {
                    &&& 0 <= p < 2 * range_len(range.start, range.end)
                    &&& #[trigger] encoded_at(seed@, account_index, range.start, bech32_hrp@, p)
                        == address@
                    &&& forall|q: int| 0 <= q < p
                        ==> encoded_at(seed@, account_index, range.start, bech32_hrp@, q)
                            != address@
                    &&& chain_type == chain_of(p)
                    &&& count == (p + 1) / 2
                }
            },
            Err(e) => {
                ||| (e == (Error::InvalidAccountIndex { account_index })
                    && account_index >= HARDENED)
                ||| (e == (Error::AddressNotFound { start: range.start, end: range.end })
                    && account_index < HARDENED
                    && forall|q: int| 0 <= q < 2 * range_len(range.start, range.end)
                        ==> encoded_at(seed@, account_index, range.start, bech32_hrp@, q)
                            != address@)
            },
        },
{
    let ghost start = range.start;
    let ghost end = range.end;
    let ghost hrp: Seq<char> = bech32_hrp@;
    let range_start = range.start;
    let range_end = range.end;
    let addresses = match GetAddressesBuilder::new(seed)
        .with_bech32_hrp(bech32_hrp)
        .with_account_index(account_index)
        .with_range(range)
        .get_all() {
        Ok(v) => v,
        Err(e) => {
            return Err(e);
        },
    };
    let mut index_counter: usize = 0;
    let mut pos: usize = 0;
    while pos < addresses.len()
        invariant
            pos <= addresses@.len(),
            addresses@.len() == 2 * range_len(start, end),
            index_counter == (pos + 1) / 2,
            forall|j: int| 0 <= j < addresses@.len() ==> {
                &&& (#[trigger] addresses@[j]).0@ == encoded_at(seed@, account_index, start, hrp, j)
                &&& addresses@[j].1 == chain_of(j)
            },
            forall|q: int| 0 <= q < pos
                ==> encoded_at(seed@, account_index, start, hrp, q) != address@,
        decreases addresses@.len() - pos,
    {
        let entry = &addresses[pos];
        if (entry.0).0 == address.0 {
            proof {
                let p = pos as int;
                assert(encoded_at(seed@, account_index, start, hrp, p) == address@);
                assert(entry.1 == chain_of(p));
                assert(exists|w: int| {
                    &&& 0 <= w < 2 * range_len(start, end)
                    &&& #[trigger] encoded_at(seed@, account_index, start, hrp, w) == address@
                    &&& forall|q: int| 0 <= q < w
                        ==> encoded_at(seed@, account_index, start, hrp, q) != address@
                    &&& entry.1 == chain_of(w)
                    &&& index_counter == (w + 1) / 2
                });
            }
            return Ok((index_counter, entry.1));
        }
        match entry.1 {
            AddressChainType::External => {
                index_counter = index_counter + 1;
            },
            AddressChainType::Internal => {},
        }
        pos = pos + 1;
    }
    Err(Error::AddressNotFound { start: range_start, end: range_end })
}

} // verus!
