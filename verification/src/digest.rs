//! The hash functions the kernel offers, behind trusted wrappers.
//!
//! Each digest is a pure function of the input bytes; its value is given a
//! name that contracts can share, and its length is the one the hash
//! function documents.

use vstd::prelude::*;

verus! {

/// The multihash code of sha2-256.
pub const SHA2_256: u64 = 0x12;

/// The multihash code of keccak-256.
pub const KECCAK_256: u64 = 0x1b;

/// The multihash code of ripemd-160.
pub const RIPEMD_160: u64 = 0x1053;

/// The multihash code of 32-byte blake2b.
pub const BLAKE2B_256_CODE: u64 = 0xb220;

/// The multihash code of 64-byte blake2b.
pub const BLAKE2B_512_CODE: u64 = 0xb240;

/// The 32-byte blake2b digest of a byte string.
pub uninterp spec fn spec_blake2b_256(data: Seq<u8>) -> Seq<u8>;

/// The 64-byte blake2b digest of a byte string.
pub uninterp spec fn spec_blake2b_512(data: Seq<u8>) -> Seq<u8>;

/// The sha2-256 digest of a byte string.
pub uninterp spec fn spec_sha2_256(data: Seq<u8>) -> Seq<u8>;

/// The keccak-256 digest of a byte string.
pub uninterp spec fn spec_keccak_256(data: Seq<u8>) -> Seq<u8>;

/// The ripemd-160 digest of a byte string.
pub uninterp spec fn spec_ripemd_160(data: Seq<u8>) -> Seq<u8>;

/// Relies on blake2b_simd with a 32-byte output parameter: the digest
/// depends on the input bytes alone and is 32 bytes long.
#[verifier::external_body]
pub(crate) fn blake2b_256(data: &[u8]) -> (r: Vec<u8>)
    ensures
        r@ == spec_blake2b_256(data@),
        r@.len() == 32,
{
    blake2b_simd::Params::new().hash_length(32).hash(data).as_bytes().to_vec()
}

/// Relies on blake2b_simd with a 64-byte output parameter: the digest
/// depends on the input bytes alone and is 64 bytes long.
#[verifier::external_body]
pub(crate) fn blake2b_512(data: &[u8]) -> (r: Vec<u8>)
    ensures
        r@ == spec_blake2b_512(data@),
        r@.len() == 64,
{
    blake2b_simd::Params::new().hash_length(64).hash(data).as_bytes().to_vec()
}

/// Relies on sha2::Sha256: the digest depends on the input bytes alone and
/// is 32 bytes long.
#[verifier::external_body]
pub(crate) fn sha2_256(data: &[u8]) -> (r: Vec<u8>)
    ensures
        r@ == spec_sha2_256(data@),
        r@.len() == 32,
{
    <sha2::Sha256 as sha2::Digest>::digest(data).to_vec()
}

/// Relies on sha3::Keccak256: the digest depends on the input bytes alone
/// and is 32 bytes long.
#[verifier::external_body]
pub(crate) fn keccak_256(data: &[u8]) -> (r: Vec<u8>)
    ensures
        r@ == spec_keccak_256(data@),
        r@.len() == 32,
{
    <sha3::Keccak256 as sha3::Digest>::digest(data).to_vec()
}

/// Relies on ripemd::Ripemd160: the digest depends on the input bytes alone
/// and is 20 bytes long.
#[verifier::external_body]
pub(crate) fn ripemd_160(data: &[u8]) -> (r: Vec<u8>)
    ensures
        r@ == spec_ripemd_160(data@),
        r@.len() == 20,
{
    <ripemd::Ripemd160 as ripemd::Digest>::digest(data).to_vec()
}

/// A multihash: a hash-function code and the digest it produced.
#[derive(Debug, PartialEq, Eq)]
pub struct Multihash {
    pub code: u64,
    pub digest: Vec<u8>,
}

/// Whether a multihash code is one the kernel hashes under.
pub open spec fn spec_digest_supported(code: u64) -> bool {
    code == SHA2_256 || code == KECCAK_256 || code == RIPEMD_160 || code == BLAKE2B_256_CODE
        || code == BLAKE2B_512_CODE
}

/// Tests whether a multihash code is supported.
pub(crate) fn digest_code_supported(code: u64) -> (r: bool)
    ensures
        r == spec_digest_supported(code),
{
    code == SHA2_256 || code == KECCAK_256 || code == RIPEMD_160 || code == BLAKE2B_256_CODE
        || code == BLAKE2B_512_CODE
}

/// The digest the kernel's `hash` operation produces for a supported code,
/// or `None` for an unsupported one.
pub open spec fn spec_digest_of(code: u64, data: Seq<u8>) -> Option<Seq<u8>> {
    if code == SHA2_256 {
        Some(spec_sha2_256(data))
    } else if code == KECCAK_256 {
        Some(spec_keccak_256(data))
    } else if code == RIPEMD_160 {
        Some(spec_ripemd_160(data))
    } else if code == BLAKE2B_256_CODE {
        Some(spec_blake2b_256(data))
    } else if code == BLAKE2B_512_CODE {
        Some(spec_blake2b_512(data))
    } else {
        None
    }
}

/// Computes the digest for a supported hash code.
pub(crate) fn digest_of(code: u64, data: &[u8]) -> (r: Option<Vec<u8>>)
    ensures
        match r {
            Some(d) => spec_digest_of(code, data@) == Some(d@) && d@.len() <= 64,
            None => spec_digest_of(code, data@) == None::<Seq<u8>>,
        },
{
    if code == SHA2_256 {
        Some(sha2_256(data))
    } else if code == KECCAK_256 {
        Some(keccak_256(data))
    } else if code == RIPEMD_160 {
        Some(ripemd_160(data))
    } else if code == BLAKE2B_256_CODE {
        Some(blake2b_256(data))
    } else if code == BLAKE2B_512_CODE {
        Some(blake2b_512(data))
    } else {
        None
    }
}

} // verus!
