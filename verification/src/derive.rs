//! Deriving one raw address from a seed and a path.
//!
//! The seed hands out a private key for a full hardened path; the compressed
//! public key of that private key is hashed into the 32-byte raw address.

use vstd::prelude::*;

use blake2::digest::{Update, VariableOutput};
use blake2::VarBlake2b;

use crate::error::Error;
use crate::path::{all_hardened, AddressChainType, DerivationPath, HARDENED};

verus! {

/// The compressed public-key bytes of the private key that the seed yields
/// for a path. The value is a function of the seed bytes and the path
/// segments alone; nothing further is assumed of it.
pub uninterp spec fn public_key_of(seed: Seq<u8>, path: Seq<u32>) -> Seq<u8>;

/// The 32-byte variable-output digest of a byte string, as the hash used for
/// addresses computes it. The value is a function of the input bytes alone.
pub uninterp spec fn address_digest_of(data: Seq<u8>) -> Seq<u8>;

/// The raw address derived from a seed along a path: the address digest of
/// the compressed public key for that path.
pub open spec fn derived_address(seed: Seq<u8>, path: Seq<u32>) -> Seq<u8> {
    address_digest_of(public_key_of(seed, path))
}

/// Opaque secret material from which private keys are derived. The seed is
/// only ever read; it is never mutated and no derived key is cached.
pub struct Seed {
    bytes: Vec<u8>,
}

impl View for Seed {
    type V = Seq<u8>;

    closed spec fn view(&self) -> Seq<u8> {
        self.bytes@
    }
}

impl Seed {
    /// Wrap master seed bytes.
    pub fn from_bytes(bytes: Vec<u8>) -> (r: Seed)
        ensures
            r@ == bytes@,
    {
        Seed { bytes }
    }
}

/// A 32-byte address payload, tagged with the signature scheme whose public
/// key it hashes.
pub enum RawAddress {
    /// Digest of an Ed25519 public key.
    Ed25519 { bytes: Vec<u8> },
}

impl View for RawAddress {
    type V = Seq<u8>;

    closed spec fn view(&self) -> Seq<u8> {
        match self {
            RawAddress::Ed25519 { bytes } => bytes@,
        }
    }
}

impl RawAddress {
    /// A raw address is well formed when its payload is exactly 32 bytes.
    pub open spec fn wf(&self) -> bool {
        self@.len() == 32
    }

    /// Wrap a 32-byte payload as an Ed25519-derived raw address.
    pub fn new_ed25519(bytes: Vec<u8>) -> (r: RawAddress)
        requires
            bytes@.len() == 32,
        ensures
            r@ == bytes@,
            r.wf(),
            r is Ed25519,
    {
        RawAddress::Ed25519 { bytes }
    }

    /// The address payload bytes.
    pub fn bytes(&self) -> (r: &Vec<u8>)
        ensures
            r@ == self@,
    {
        match self {
            RawAddress::Ed25519 { bytes } => bytes,
        }
    }
}

/// Relies on slip10::derive_key_from_path over the Ed25519 curve and
/// slip10::Key::public_key: the key derived for a path of hardened segments,
/// and hence its public key, is a deterministic function of the seed bytes
/// and the path segments; derivation succeeds whenever every segment is
/// hardened, and fails only on a path with a non-hardened segment.
#[verifier::external_body]
fn derive_public_key_bytes(seed: &Seed, path: &DerivationPath) -> (r: Result<Vec<u8>, Error>)
    ensures
        match r {
            Ok(pk) => pk@ == public_key_of(seed@, path@),
            Err(e) => e == Error::KeyDerivationFailed,
        },
        all_hardened(path@) ==> r is Ok,
{
    let bip32_path = slip10::BIP32Path::from(path.raw_segments().clone());
    match slip10::derive_key_from_path(seed.bytes.as_slice(), slip10::Curve::Ed25519, &bip32_path) {
        Ok(key) => Ok(key.public_key().to_vec()),
        Err(_) => Err(Error::KeyDerivationFailed),
    }
}

/// Relies on blake2::VarBlake2b with its output length set to 32 bytes: the
/// digest is a deterministic function of the input bytes and is exactly 32
/// bytes long.
#[verifier::external_body]
fn blake2b_256(data: &Vec<u8>) -> (r: Vec<u8>)
    ensures
        r@ == address_digest_of(data@),
        r@.len() == 32,
{
    let mut hasher = VarBlake2b::new(32).expect("32 bytes is a valid output size");
    hasher.update(data.as_slice());
    let mut digest: Vec<u8> = Vec::new();
    hasher.finalize_variable(|output| digest.extend_from_slice(output));
    digest
}

/// Derive the raw address for one (chain type, index) pair on top of the
/// template path: push the two hardened segments, turn the seed's public key
/// for the full path into the 32-byte address digest, and pop the two
/// segments again, so the path leaves exactly as it came.
pub fn generate_address(
    seed: &Seed,
    path: &mut DerivationPath,
    index: usize,
    chain_type: AddressChainType,
) -> (r: Result<RawAddress, Error>)
    requires
        index < HARDENED,
    ensures
        final(path)@ == old(path)@,
        match r {
            Ok(a) => {
                &&& a@ == derived_address(
                    seed@,
                    old(path)@
                        .push(crate::path::hardened(chain_type.spec_segment() as int))
                        .push(crate::path::hardened(index as int)),
                )
                &&& a.wf()
                &&& a is Ed25519
            },
            Err(e) => e == Error::KeyDerivationFailed,
        },
        all_hardened(old(path)@) ==> r is Ok,
{
    path.push_chain_and_index(chain_type, index);
    let derived = derive_public_key_bytes(seed, path);
    let result = match derived {
        Ok(public_key) => {
            let digest = blake2b_256(&public_key);
            Ok(RawAddress::new_ed25519(digest))
        },
        Err(e) => Err(e),
    };
    path.pop_chain_and_index();
    proof {
        assert(path@ =~= old(path)@);
    }
    result
}

/// Derivation is deterministic: two raw addresses derived from the same seed
/// along the same path are byte-for-byte identical.
pub proof fn lemma_derive_deterministic(
    seed: Seq<u8>,
    path: Seq<u32>,
    first: Seq<u8>,
    second: Seq<u8>,
)
    requires
        first == derived_address(seed, path),
        second == derived_address(seed, path),
    ensures
        first == second,
{
}

} // verus!
