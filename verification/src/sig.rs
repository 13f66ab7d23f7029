//! BLS aggregate verification and secp256k1 public-key recovery, behind
//! trusted wrappers.
//!
//! Both outcomes are pure functions of the raw bytes handed in, so each is
//! given a name that contracts share. Parse failures inside the BLS check
//! surface as "not valid" rather than as errors: aggregate verification is
//! a total boolean function of its inputs.

use vstd::prelude::*;

use crate::bytes::bytes_of_range;
use crate::error::ErrorNumber;

verus! {

/// A BLS signature is 96 bytes.
pub const BLS_SIG_LEN: usize = 96;

/// A BLS public key is 48 bytes.
pub const BLS_PUB_LEN: usize = 48;

/// A secp256k1 message hash is 32 bytes.
pub const SECP_SIG_MESSAGE_HASH_SIZE: usize = 32;

/// A secp256k1 recoverable signature is 65 bytes.
pub const SECP_SIG_LEN: usize = 65;

/// A serialized uncompressed secp256k1 public key is 65 bytes.
pub const SECP_PUB_LEN: usize = 65;

/// Whether the aggregate signature is valid for the given public keys and
/// messages, pairwise. False whenever the signature or a key fails to
/// parse.
pub uninterp spec fn spec_bls_aggregate_valid(
    sig: Seq<u8>,
    keys: Seq<Seq<u8>>,
    msgs: Seq<Seq<u8>>,
) -> bool;

/// The uncompressed public key recovered from a message hash and a
/// recoverable signature, or `None` when recovery fails.
pub uninterp spec fn spec_secp_recover(hash: Seq<u8>, sig: Seq<u8>) -> Option<Seq<u8>>;

/// Slices the concatenated plaintext buffer from position `i` of the
/// length list on, with `off` bytes already consumed: the spans must lie in
/// bounds and exactly exhaust the buffer.
pub open spec fn spec_split_from(concat: Seq<u8>, lens: Seq<u32>, i: int, off: int) -> Option<
    Seq<Seq<u8>>,
>
    decreases lens.len() - i when 0 <= i <= lens.len()
{
    if i >= lens.len() {
        if off == concat.len() {
            Some(Seq::empty())
        } else {
            None
        }
    } else {
        if off + lens[i] > concat.len() {
            None
        } else {
            match spec_split_from(concat, lens, i + 1, off + lens[i]) {
                Some(rest) => Some(seq![concat.subrange(off, off + lens[i])] + rest),
                None => None,
            }
        }
    }
}

/// The plaintext spans cut out of the concatenated buffer, or `None` when
/// the lengths run out of bounds or fail to cover the buffer exactly.
pub open spec fn spec_split_plaintexts(concat: Seq<u8>, lens: Seq<u32>) -> Option<Seq<Seq<u8>>> {
    spec_split_from(concat, lens, 0, 0)
}

/// Cuts the concatenated plaintext buffer into spans of the given lengths,
/// checking bounds with integer overflow discipline; the spans must exactly
/// cover the buffer.
pub fn split_plaintexts(concat: &[u8], lens: &[u32]) -> (r: Result<Vec<Vec<u8>>, ErrorNumber>)
    ensures
        (match r {
            Ok(parts) => spec_split_plaintexts(concat@, lens@) == Some(
                parts@.map_values(|p: Vec<u8>| p@),
            ),
            Err(e) => spec_split_plaintexts(concat@, lens@) is None && e
                == ErrorNumber::IllegalArgument,
        }),
{
    let n = lens.len();
    let mut parts: Vec<Vec<u8>> = Vec::new();
    let mut off: usize = 0;
    let mut i: usize = 0;
    while i < n
        invariant
            i <= n == lens@.len(),
            off <= concat@.len(),
            parts@.len() == i,
            spec_split_from(concat@, lens@, 0, 0) == (match spec_split_from(
                concat@,
                lens@,
                i as int,
                off as int,
            ) {
                Some(rest) => Some(parts@.map_values(|p: Vec<u8>| p@) + rest),
                None => None::<Seq<Seq<u8>>>,
            }),
        decreases n - i,
    {
        if (lens[i] as usize) > concat.len() - off {
            return Err(ErrorNumber::IllegalArgument);
        }
        let ghost pm_old = parts@.map_values(|p: Vec<u8>| p@);
        let ghost off0 = off as int;
        let part = bytes_of_range(concat, off, off + lens[i] as usize);
        parts.push(part);
        off += lens[i] as usize;
        i += 1;
        proof {
            let pm = parts@.map_values(|p: Vec<u8>| p@);
            let span = concat@.subrange(off0, off0 + lens@[i - 1]);
            assert(pm =~= pm_old.push(span));
            let res = spec_split_from(concat@, lens@, i as int, off as int);
            if res is Some {
                let rest = res->Some_0;
                assert(pm_old + (seq![span] + rest) =~= pm + rest);
            }
        }
    }
    if off != concat.len() {
        return Err(ErrorNumber::IllegalArgument);
    }
    proof {
        let pm = parts@.map_values(|p: Vec<u8>| p@);
        assert(pm + Seq::<Seq<u8>>::empty() =~= pm);
    }
    Ok(parts)
}

/// Relies on bls_signatures: Signature::from_bytes, PublicKey::from_bytes
/// and verify_messages. The outcome depends on the raw bytes alone; a parse
/// failure verifies as false, mirroring how aggregate verification is a
/// total boolean function.
#[verifier::external_body]
pub(crate) fn bls_aggregate_verify(sig: &[u8], keys: &Vec<Vec<u8>>, msgs: &Vec<Vec<u8>>) -> (r:
    bool)
    ensures
        r == spec_bls_aggregate_valid(
            sig@,
            keys@.map_values(|k: Vec<u8>| k@),
            msgs@.map_values(|m: Vec<u8>| m@),
        ),
{
    let s = match bls_signatures::Serialize::from_bytes(sig) { Ok(s) => s, Err(_) => return false };
    let parsed: Result<Vec<bls_signatures::PublicKey>, _> =
        keys.iter().map(|k| bls_signatures::Serialize::from_bytes(k.as_slice())).collect();
    let pks = match parsed { Ok(p) => p, Err(_) => return false };
    let msg_refs: Vec<&[u8]> = msgs.iter().map(|m| m.as_slice()).collect();
    bls_signatures::verify_messages(&s, &msg_refs, &pks)
}

/// Relies on libsecp256k1: Message::parse_slice, Signature::
/// parse_standard_slice, RecoveryId::parse and recover. The result depends
/// on the hash and signature bytes alone.
#[verifier::external_body]
pub(crate) fn secp_recover_public_key(hash: &[u8], sig: &[u8]) -> (r: Option<Vec<u8>>)
    requires
        hash@.len() == SECP_SIG_MESSAGE_HASH_SIZE,
        sig@.len() == SECP_SIG_LEN,
    ensures
        (match r {
            Some(k) => spec_secp_recover(hash@, sig@) == Some(k@) && k@.len() == SECP_PUB_LEN,
            None => spec_secp_recover(hash@, sig@) is None,
        }),
{
    let rec_id = match libsecp256k1::RecoveryId::parse(sig[64]) { Ok(i) => i, Err(_) => return None };
    let signature = match libsecp256k1::Signature::parse_standard_slice(&sig[..64]) {
        Ok(s) => s,
        Err(_) => return None,
    };
    let message = match libsecp256k1::Message::parse_slice(hash) { Ok(m) => m, Err(_) => return None };
    match libsecp256k1::recover(&message, &signature, &rec_id) {
        Ok(pubkey) => Some(pubkey.serialize().to_vec()),
        Err(_) => None,
    }
}

} // verus!
