//! The human-readable address encoding.
//!
//! A raw address together with a network prefix (the human-readable part)
//! is encoded into a checksum-bearing text form; decoding inverts the
//! encoding, so third parties can validate addresses independently.

use vstd::prelude::*;

use crate::derive::RawAddress;

verus! {

/// The text encoding of a 32-byte address payload under a human-readable
/// part. The string is a function of the payload bytes and the prefix alone.
pub uninterp spec fn bech32_of(address: Seq<u8>, hrp: Seq<char>) -> Seq<char>;

/// A human-readable part the encoding accepts: one to 83 characters, each a
/// printable ASCII character outside the upper-case range, so that encoding
/// cannot reject or re-case the prefix.
pub open spec fn valid_hrp(hrp: Seq<char>) -> bool {
    &&& 1 <= hrp.len() <= 83
    &&& forall|i: int|
        0 <= i < hrp.len() ==> {
            &&& 33 <= #[trigger] hrp[i] as int <= 126
            &&& !(65 <= hrp[i] as int <= 90)
        }
}

/// The encoded, human-readable string form of a raw address under a network
/// prefix.
#[derive(Debug)]
pub struct Bech32Address(pub String);

impl View for Bech32Address {
    type V = Seq<char>;

    open spec fn view(&self) -> Seq<char> {
        self.0@
    }
}

/// Relies on the address type's bech32 encoding in bee_message: the encoded
/// string is a deterministic function of the address payload bytes and the
/// human-readable part alone.
#[verifier::external_body]
fn encode_bech32(address: &RawAddress, hrp: &str) -> (r: String)
    requires
        address.wf(),
        valid_hrp(hrp@),
    ensures
        r@ == bech32_of(address@, hrp@),
{
    let mut payload = [0u8; 32];
    payload.copy_from_slice(address.bytes().as_slice());
    let ed25519 = bee_message::prelude::Ed25519Address::new(payload);
    bee_message::prelude::Address::Ed25519(ed25519).to_bech32(hrp)
}

/// Relies on the bech32 decoding of addresses in bee_message: it accepts
/// every string some (payload, prefix) pair encodes to and then returns
/// exactly that pair, the payload 32 bytes and the prefix valid.
#[verifier::external_body]
fn decode_bech32(encoded: &str) -> (r: Option<(RawAddress, String)>)
    ensures
        match r {
            Some(p) => p.0.wf() && valid_hrp(p.1@),
            None => forall|address: Seq<u8>, hrp: Seq<char>|
                address.len() == 32 && valid_hrp(hrp)
                    ==> encoded@ != #[trigger] bech32_of(address, hrp),
        },
        r matches Some(p) ==> forall|address: Seq<u8>, hrp: Seq<char>|
            address.len() == 32 && valid_hrp(hrp) && encoded@ == #[trigger] bech32_of(address, hrp)
                ==> p.0@ == address && p.1@ == hrp,
{
    let address = match bee_message::prelude::Address::try_from_bech32(encoded) {
        Ok(a) => a,
        Err(_) => return None,
    };
    let hrp = match bech32::decode(encoded) {
        Ok((hrp, _, _)) => hrp,
        Err(_) => return None,
    };
    let bee_message::prelude::Address::Ed25519(ed25519) = address;
    Some((RawAddress::Ed25519 { bytes: ed25519.as_ref().to_vec() }, hrp))
}

impl Bech32Address {
    /// Encode a raw address under a network prefix.
    pub fn encode(address: &RawAddress, hrp: &str) -> (r: Bech32Address)
        requires
            address.wf(),
            valid_hrp(hrp@),
        ensures
            r@ == bech32_of(address@, hrp@),
    {
        Bech32Address(encode_bech32(address, hrp))
    }

    /// Decode an encoded address back into its raw payload and prefix.
    ///
    /// Returns `None` exactly on strings that no well-formed raw address and
    /// valid prefix encode to.
    pub fn decode(&self) -> (r: Option<(RawAddress, String)>)
        ensures
            match r {
                Some(p) => p.0.wf() && valid_hrp(p.1@) && self@ == bech32_of(p.0@, p.1@),
                None => forall|address: Seq<u8>, hrp: Seq<char>|
                    address.len() == 32 && valid_hrp(hrp)
                        ==> self@ != #[trigger] bech32_of(address, hrp),
            },
            r matches Some(p) ==> forall|address: Seq<u8>, hrp: Seq<char>|
                address.len() == 32 && valid_hrp(hrp) && self@ == #[trigger] bech32_of(address, hrp)
                    ==> p.0@ == address && p.1@ == hrp,
    {
        let candidate = match decode_bech32(self.0.as_str()) {
            Some(p) => p,
            None => {
                return None;
            },
        };
        let reencoded = encode_bech32(&candidate.0, candidate.1.as_str());
        if reencoded == self.0 {
            Some(candidate)
        } else {
            proof {
                assert forall|address: Seq<u8>, hrp: Seq<char>|
                    address.len() == 32 && valid_hrp(hrp)
                        implies self@ != #[trigger] bech32_of(address, hrp) by {
                    if self@ == bech32_of(address, hrp) {
                        assert(candidate.0@ == address && candidate.1@ == hrp);
                        assert(reencoded@ == self@);
                    }
                }
            }
            None
        }
    }

    /// The encoded string.
    pub fn as_string(&self) -> (r: &String)
        ensures
            r@ == self@,
    {
        &self.0
    }
}

/// Law: decoding inverts encoding. For every well-formed raw address and
/// valid prefix, encoding and then decoding returns exactly the same
/// address payload and the same prefix.
pub fn encode_decode_roundtrip(address: &RawAddress, hrp: &str) -> (r: (RawAddress, String))
    requires
        address.wf(),
        valid_hrp(hrp@),
    ensures
        r.0@ == address@,
        r.1@ == hrp@,
{
    let encoded = Bech32Address::encode(address, hrp);
    let decoded = encoded.decode();
    match decoded {
        Some(p) => p,
        None => {
            proof {
                assert(encoded@ == bech32_of(address@, hrp@));
                assert(false);
            }
            vstd::pervasive::unreached()
        },
    }
}

} // verus!
