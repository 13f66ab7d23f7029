//! Commitment CIDs, prover IDs, and the sector padding calculation.
//!
//! A sector is filled with binary-tree zero-piece commitments so that every
//! piece lands at an offset aligned to its own (power-of-two) size. The
//! padding needed in front of a piece is read off the set bits of
//! `(-placed) mod piece_size`: one pad per set bit, emitted in ascending
//! size order.

use vstd::prelude::*;

use crate::address::{spec_varint, varint_u64};
use crate::bytes::{bytes_clone, to_bytes_32, spec_bytes_32};
use crate::cid::{Cid, CidView};
use crate::error::ErrorNumber;
use crate::sector::{
    check_valid_proof_type, spec_check_valid_proof_type, AggregateSealVerifyProofAndInfos,
    PaddedPieceSize, PieceInfo, RegisteredAggregateProof, RegisteredPoStProof,
    RegisteredSealProof, RegisteredUpdateProof, ReplicaUpdateInfo, SealVerifyInfo, SectorInfo,
    WindowPoStVerifyInfo,
};

verus! {

/// The IPLD codec of unsealed-data commitments.
pub const FIL_COMMITMENT_UNSEALED: u64 = 0xf101;

/// The IPLD codec of sealed-replica commitments.
pub const FIL_COMMITMENT_SEALED: u64 = 0xf102;

/// The multihash code of truncated, padded sha2-256 as used by data
/// commitments.
pub const SHA2_256_TRUNC254_PADDED: u64 = 0x1012;

/// The multihash code of the Poseidon hash used by replica commitments.
pub const POSEIDON_BLS12_381_A2_FC1: u64 = 0xb401;

/// The number of ones in the binary representation of `x`.
pub open spec fn spec_popcount(x: nat) -> nat
    decreases x,
{
    if x == 0 {
        0
    } else {
        x % 2 + spec_popcount(x / 2)
    }
}

/// The lowest set bit of `x`.
pub open spec fn spec_lowbit(x: u64) -> u64 {
    x & !((x - 1) as u64)
}

/// The sum of the first `i` pad sizes.
pub open spec fn spec_pad_prefix(pads: Seq<PaddedPieceSize>, i: int) -> int
    decreases i,
{
    if i <= 0 {
        0
    } else {
        spec_pad_prefix(pads, i - 1) + pads[i - 1].0
    }
}

/// The sum of a sequence of pad sizes.
pub open spec fn spec_pad_sum(pads: Seq<PaddedPieceSize>) -> int {
    spec_pad_prefix(pads, pads.len() as int)
}

/// A prefix sum ignores appended elements.
pub proof fn lemma_pad_prefix_push(pads: Seq<PaddedPieceSize>, t: PaddedPieceSize, i: int)
    requires
        0 <= i <= pads.len(),
    ensures
        spec_pad_prefix(pads.push(t), i) == spec_pad_prefix(pads, i),
    decreases i,
{
    if i > 0 {
        lemma_pad_prefix_push(pads, t, i - 1);
    }
}

/// Prefix sums of pad sizes grow with the prefix.
pub proof fn lemma_pad_prefix_mono(pads: Seq<PaddedPieceSize>, i: int, j: int)
    requires
        0 <= i <= j <= pads.len(),
    ensures
        spec_pad_prefix(pads, i) <= spec_pad_prefix(pads, j),
    decreases j - i,
{
    if i < j {
        lemma_pad_prefix_mono(pads, i, j - 1);
    }
}

/// The amount of padding owed before a piece of size `p` when `placed`
/// bytes are already in the sector: `(-placed) mod p`.
pub open spec fn spec_required_residue(placed: u64, p: u64) -> int {
    (p - placed % p) % (p as int)
}

/// Removing the lowest set bit lowers the popcount by exactly one.
proof fn lemma_popcount_lowbit(x: u64)
    requires
        x != 0,
    ensures
        spec_lowbit(x) != 0,
        spec_popcount((x - spec_lowbit(x)) as nat) + 1 == spec_popcount(x as nat),
    decreases x,
{
    let l = spec_lowbit(x);
    assert(l == (x & !((x - 1) as u64)));
    assert(x != 0 ==> (x & !((x - 1) as u64)) != 0) by (bit_vector);
    if x & 1 == 1 {
        assert((x & !((x - 1) as u64)) == 1) by (bit_vector)
            requires
                x & 1 == 1,
        ;
        assert(x % 2 == 1 && ((x - 1) as u64) % 2 == 0 && ((x - 1) as u64) / 2 == x / 2) by (bit_vector)
            requires
                x & 1 == 1,
        ;
        assert(spec_popcount(((x - 1) as u64) as nat) == spec_popcount((((x - 1) as u64)
            / 2) as nat));
        assert(spec_popcount(x as nat) == 1 + spec_popcount((x / 2) as nat));
        assert((x - l) as u64 == (x - 1) as u64);
    } else {
        assert(x & 1 == 0) by (bit_vector)
            requires
                x & 1 != 1,
        ;
        let h = (x / 2) as u64;
        assert(h != 0 && h < x && x % 2 == 0) by (bit_vector)
            requires
                x & 1 == 0 && x != 0 && h == (x / 2) as u64,
        ;
        lemma_popcount_lowbit(h);
        let lh = spec_lowbit(h);
        let xl = (x - l) as u64;
        let hl = (h - lh) as u64;
        assert((h & !((h - 1) as u64)) <= h) by (bit_vector);
        assert(l == 2 * (h & !((h - 1) as u64)) && xl % 2 == 0 && xl / 2 == hl) by (bit_vector)
            requires
                x & 1 == 0 && x != 0 && h == (x / 2) as u64 && l == (x & !((x - 1) as u64)) && xl
                    == (x - l) as u64 && hl == (h - ((h & !((h - 1) as u64)))) as u64,
        ;
        assert(spec_popcount(xl as nat) == spec_popcount(hl as nat));
        assert(spec_popcount(x as nat) == spec_popcount(h as nat));
    }
}

/// Computes the pads owed before a piece: one pad per set bit of
/// `(-placed) mod piece`, in strictly ascending order of size, each a power
/// of two, together summing to that residue. Also returns the total.
pub fn get_required_padding(old_length: PaddedPieceSize, new_piece_length: PaddedPieceSize) -> (r:
    (Vec<PaddedPieceSize>, PaddedPieceSize))
    requires
        new_piece_length.0 > 0,
    ensures
        spec_pad_sum(r.0@) == spec_required_residue(old_length.0, new_piece_length.0),
        r.1.0 == spec_required_residue(old_length.0, new_piece_length.0),
        r.1.0 < new_piece_length.0,
        r.0@.len() == spec_popcount(spec_required_residue(old_length.0, new_piece_length.0) as nat),
        forall|k: int|
            0 <= k < r.0@.len() ==> (#[trigger] r.0@[k].0) != 0 && (r.0@[k].0 & ((r.0@[k].0
                - 1) as u64)) == 0,
        forall|k1: int, k2: int| 0 <= k1 < k2 < r.0@.len() ==> r.0@[k1].0 < r.0@[k2].0,
    {
    let rem = old_length.0 % new_piece_length.0;
    let residue: u64 = if rem == 0 {
        0
    } else {
        new_piece_length.0 - rem
    };
    proof {
        let p = new_piece_length.0;
        if rem == 0 {
            vstd::arithmetic::div_mod::lemma_mod_self_0(p as int);
            assert(spec_required_residue(old_length.0, p) == 0);
        } else {
            vstd::arithmetic::div_mod::lemma_small_mod((p - rem) as nat, p as nat);
            assert(spec_required_residue(old_length.0, p) == p - rem);
        }
    }
    let mut to_fill = residue;
    let mut pads: Vec<PaddedPieceSize> = Vec::new();
    let mut sum: u64 = 0;
    while to_fill != 0
        invariant
            sum + to_fill == residue,
            spec_pad_sum(pads@) == sum,
            pads@.len() + spec_popcount(to_fill as nat) == spec_popcount(residue as nat),
            forall|k: int|
                0 <= k < pads@.len() ==> (#[trigger] pads@[k].0) != 0 && (pads@[k].0 & ((pads@[k].0
                    - 1) as u64)) == 0,
            forall|k1: int, k2: int| 0 <= k1 < k2 < pads@.len() ==> pads@[k1].0 < pads@[k2].0,
            to_fill != 0 && pads@.len() > 0 ==> pads@.last().0 < spec_lowbit(to_fill),
        decreases to_fill,
    {
        let low = to_fill & !(to_fill - 1);
        proof {
            lemma_popcount_lowbit(to_fill);
            assert(low == spec_lowbit(to_fill));
            assert(low != 0 && low <= to_fill && (low & ((low - 1) as u64)) == 0) by (bit_vector)
                requires
                    to_fill != 0 && low == (to_fill & !((to_fill - 1) as u64)),
            ;
            assert((to_fill ^ low) == (to_fill - low) as u64) by (bit_vector)
                requires
                    to_fill != 0 && low == (to_fill & !((to_fill - 1) as u64)),
            ;
            let next = (to_fill - low) as u64;
            assert(next != 0 ==> low < (next & !((next - 1) as u64))) by (bit_vector)
                requires
                    to_fill != 0 && low == (to_fill & !((to_fill - 1) as u64)) && next == (to_fill
                        - low) as u64,
            ;
            assert(next != 0 ==> low < spec_lowbit(next));
        }
        let ghost prev_pads = pads@;
        pads.push(PaddedPieceSize(low));
        proof {
            lemma_pad_prefix_push(prev_pads, PaddedPieceSize(low), prev_pads.len() as int);
        }
        sum = sum + low;
        to_fill = to_fill - low;
    }
    (pads, PaddedPieceSize(sum))
}

/// The prover ID derived from a miner's actor ID: the ID address payload
/// (an unsigned varint) zero-extended to 32 bytes.
pub fn prover_id_from_u64(id: u64) -> (r: Vec<u8>)
    ensures
        r@.len() == 32,
        r@.subrange(0, spec_varint(id as nat).len() as int) == spec_varint(id as nat),
        forall|j: int| spec_varint(id as nat).len() <= j < 32 ==> r@[j] == 0u8,
{
    let mut r = varint_u64(id);
    let ghost encoded = r@;
    while r.len() < 32
        invariant
            r@.len() >= encoded.len(),
            r@.subrange(0, encoded.len() as int) == encoded,
            forall|j: int| encoded.len() <= j < r@.len() ==> r@[j] == 0u8,
            r@.len() <= 32,
        decreases 32 - r@.len(),
    {
        r.push(0);
        proof {
            assert(r@.subrange(0, encoded.len() as int) =~= encoded);
        }
    }
    r
}

/// Extracts the 32-byte replica commitment from a sealed-replica CID:
/// the codec must be the sealed-commitment codec and the multihash the
/// 32-byte Poseidon hash.
pub fn cid_to_replica_commitment_v1(c: &Cid) -> (r: Result<Vec<u8>, ErrorNumber>)
    ensures
        (c@.codec == FIL_COMMITMENT_SEALED && c@.hash_code == POSEIDON_BLS12_381_A2_FC1
            && c@.hash.len() == 32) ==> (r matches Ok(v) && v@ == c@.hash),
        !(c@.codec == FIL_COMMITMENT_SEALED && c@.hash_code == POSEIDON_BLS12_381_A2_FC1
            && c@.hash.len() == 32) ==> r == Err::<Vec<u8>, ErrorNumber>(
            ErrorNumber::IllegalArgument,
        ),
{
    if c.codec == FIL_COMMITMENT_SEALED && c.hash_code == POSEIDON_BLS12_381_A2_FC1
        && c.hash.len() == 32 {
        Ok(bytes_clone(&c.hash))
    } else {
        Err(ErrorNumber::IllegalArgument)
    }
}

/// Extracts the 32-byte data commitment from an unsealed-data CID: the
/// codec must be the unsealed-commitment codec and the multihash the
/// truncated, padded sha2-256.
pub fn cid_to_data_commitment_v1(c: &Cid) -> (r: Result<Vec<u8>, ErrorNumber>)
    ensures
        (c@.codec == FIL_COMMITMENT_UNSEALED && c@.hash_code == SHA2_256_TRUNC254_PADDED
            && c@.hash.len() == 32) ==> (r matches Ok(v) && v@ == c@.hash),
        !(c@.codec == FIL_COMMITMENT_UNSEALED && c@.hash_code == SHA2_256_TRUNC254_PADDED
            && c@.hash.len() == 32) ==> r == Err::<Vec<u8>, ErrorNumber>(
            ErrorNumber::IllegalArgument,
        ),
{
    if c.codec == FIL_COMMITMENT_UNSEALED && c.hash_code == SHA2_256_TRUNC254_PADDED
        && c.hash.len() == 32 {
        Ok(bytes_clone(&c.hash))
    } else {
        Err(ErrorNumber::IllegalArgument)
    }
}

/// Wraps a 32-byte data commitment in its canonical CID.
pub fn data_commitment_v1_to_cid(comm: &Vec<u8>) -> (r: Cid)
    requires
        comm@.len() == 32,
    ensures
        r@ == (CidView {
            version: 1,
            codec: FIL_COMMITMENT_UNSEALED,
            hash_code: SHA2_256_TRUNC254_PADDED,
            hash: comm@,
        }),
{
    Cid {
        version: 1,
        codec: FIL_COMMITMENT_UNSEALED,
        hash_code: SHA2_256_TRUNC254_PADDED,
        hash: bytes_clone(comm),
    }
}

/// A sealed replica ready for the proof backend: its sector number, its
/// proof type and its 32-byte replica commitment.
pub struct PublicReplicaSummary {
    pub sector_number: u64,
    pub post_proof: RegisteredPoStProof,
    pub comm_r: Vec<u8>,
}

/// Everything the proof backend needs to check one seal proof, as plain
/// bytes.
pub struct SealInputs {
    pub registered_proof: RegisteredSealProof,
    pub comm_r: Vec<u8>,
    pub comm_d: Vec<u8>,
    pub prover_id: Vec<u8>,
    pub sector_number: u64,
    pub ticket: Vec<u8>,
    pub seed: Vec<u8>,
    pub proof: Vec<u8>,
}

/// One converted PoSt proof.
pub struct PoStProofInput {
    pub post_proof: RegisteredPoStProof,
    pub proof_bytes: Vec<u8>,
}

/// Everything the proof backend needs to check a window PoSt.
pub struct WindowPoStInputs {
    pub randomness: Vec<u8>,
    pub proofs: Vec<PoStProofInput>,
    pub replicas: Vec<PublicReplicaSummary>,
    pub prover_id: Vec<u8>,
}

/// One seal inside an aggregate, as plain bytes.
pub struct AggregateSealInput {
    pub comm_r: Vec<u8>,
    pub comm_d: Vec<u8>,
    pub sector_number: u64,
    pub ticket: Vec<u8>,
    pub seed: Vec<u8>,
}

/// Everything the proof backend needs to check an aggregate seal proof.
pub struct AggregateSealInputs {
    pub seal_proof: RegisteredSealProof,
    pub aggregate_proof: RegisteredAggregateProof,
    pub prover_id: Vec<u8>,
    pub proof: Vec<u8>,
    pub inputs: Vec<AggregateSealInput>,
}

/// Everything the proof backend needs to check a replica update.
pub struct ReplicaUpdateInputs {
    pub update_proof_type: RegisteredUpdateProof,
    pub comm_r_old: Vec<u8>,
    pub comm_r_new: Vec<u8>,
    pub comm_d: Vec<u8>,
    pub proof: Vec<u8>,
}

/// A seal record whose CIDs carry the commitments marshaling needs.
pub open spec fn spec_seal_info_ok(vi: SealVerifyInfo) -> bool {
    &&& vi.sealed_cid@.codec == FIL_COMMITMENT_SEALED
    &&& vi.sealed_cid@.hash_code == POSEIDON_BLS12_381_A2_FC1
    &&& vi.sealed_cid@.hash.len() == 32
    &&& vi.unsealed_cid@.codec == FIL_COMMITMENT_UNSEALED
    &&& vi.unsealed_cid@.hash_code == SHA2_256_TRUNC254_PADDED
    &&& vi.unsealed_cid@.hash.len() == 32
}

/// A window-PoSt record marshaling accepts: 32 bytes of randomness, at
/// least one proof, one proof type throughout, and challenged sectors whose
/// sealed CIDs carry replica commitments under a matching seal type.
pub open spec fn spec_post_info_ok(info: WindowPoStVerifyInfo) -> bool {
    &&& info.randomness.0@.len() == 32
    &&& info.proofs@.len() >= 1
    &&& forall|i: int|
        0 <= i < info.proofs@.len() ==> (#[trigger] info.proofs@[i]).post_proof
            == info.proofs@[0].post_proof
    &&& forall|i: int|
        0 <= i < info.challenged_sectors@.len() ==> {
            &&& (#[trigger] info.challenged_sectors@[i]).sealed_cid@.codec
                == FIL_COMMITMENT_SEALED
            &&& info.challenged_sectors@[i].sealed_cid@.hash_code == POSEIDON_BLS12_381_A2_FC1
            &&& info.challenged_sectors@[i].sealed_cid@.hash.len() == 32
            &&& spec_check_valid_proof_type(
                info.proofs@[0].post_proof,
                info.challenged_sectors@[i].proof,
            )
        }
}

/// An aggregate-seal record marshaling accepts: at least one seal, each
/// with commitment-carrying CIDs.
pub open spec fn spec_aggregate_ok(aggregate: AggregateSealVerifyProofAndInfos) -> bool {
    &&& aggregate.infos@.len() >= 1
    &&& forall|i: int|
        0 <= i < aggregate.infos@.len() ==> {
            &&& (#[trigger] aggregate.infos@[i]).sealed_cid@.codec == FIL_COMMITMENT_SEALED
            &&& aggregate.infos@[i].sealed_cid@.hash_code == POSEIDON_BLS12_381_A2_FC1
            &&& aggregate.infos@[i].sealed_cid@.hash.len() == 32
            &&& aggregate.infos@[i].unsealed_cid@.codec == FIL_COMMITMENT_UNSEALED
            &&& aggregate.infos@[i].unsealed_cid@.hash_code == SHA2_256_TRUNC254_PADDED
            &&& aggregate.infos@[i].unsealed_cid@.hash.len() == 32
        }
}

/// A replica-update record marshaling accepts: commitment-carrying CIDs on
/// all three sides.
pub open spec fn spec_replica_ok(replica: ReplicaUpdateInfo) -> bool {
    &&& replica.old_sealed_cid@.codec == FIL_COMMITMENT_SEALED
    &&& replica.old_sealed_cid@.hash_code == POSEIDON_BLS12_381_A2_FC1
    &&& replica.old_sealed_cid@.hash.len() == 32
    &&& replica.new_sealed_cid@.codec == FIL_COMMITMENT_SEALED
    &&& replica.new_sealed_cid@.hash_code == POSEIDON_BLS12_381_A2_FC1
    &&& replica.new_sealed_cid@.hash.len() == 32
    &&& replica.new_unsealed_cid@.codec == FIL_COMMITMENT_UNSEALED
    &&& replica.new_unsealed_cid@.hash_code == SHA2_256_TRUNC254_PADDED
    &&& replica.new_unsealed_cid@.hash.len() == 32
}

/// Converts challenged sectors into the replicas the proof backend keys by
/// sector number: each sector's sealed CID must carry a replica commitment
/// and its seal type must answer to the given PoSt type. Replicas are
/// emitted in input order; the backend's map keys them by sector number, so
/// a repeated sector number is the backend's to collapse.
pub fn to_fil_public_replica_infos(src: &[SectorInfo], typ: RegisteredPoStProof) -> (r: Result<
    Vec<PublicReplicaSummary>,
    ErrorNumber,
>)
    ensures
        (match r {
            Ok(out) => {
                &&& out@.len() == src@.len()
                &&& forall|i: int|
                    0 <= i < src@.len() ==> {
                        &&& (#[trigger] out@[i]).sector_number == src@[i].sector_number
                        &&& out@[i].post_proof == typ
                        &&& out@[i].comm_r@ == src@[i].sealed_cid@.hash
                        &&& spec_check_valid_proof_type(typ, src@[i].proof)
                        &&& src@[i].sealed_cid@.codec == FIL_COMMITMENT_SEALED
                        &&& src@[i].sealed_cid@.hash_code == POSEIDON_BLS12_381_A2_FC1
                        &&& src@[i].sealed_cid@.hash.len() == 32
                    }
            },
            Err(e) => e == ErrorNumber::IllegalArgument,
        }),
        (forall|i: int|
            0 <= i < src@.len() ==> (#[trigger] src@[i]).sealed_cid@.codec == FIL_COMMITMENT_SEALED
                && src@[i].sealed_cid@.hash_code == POSEIDON_BLS12_381_A2_FC1
                && src@[i].sealed_cid@.hash.len() == 32 && spec_check_valid_proof_type(
                typ,
                src@[i].proof,
            )) ==> r is Ok,
{
    let n = src.len();
    let mut out: Vec<PublicReplicaSummary> = Vec::new();
    let mut i: usize = 0;
    while i < n
        invariant
            i <= n == src@.len(),
            out@.len() == i,
            forall|k: int|
                0 <= k < i ==> {
                    &&& (#[trigger] out@[k]).sector_number == src@[k].sector_number
                    &&& out@[k].post_proof == typ
                    &&& out@[k].comm_r@ == src@[k].sealed_cid@.hash
                    &&& spec_check_valid_proof_type(typ, src@[k].proof)
                    &&& src@[k].sealed_cid@.codec == FIL_COMMITMENT_SEALED
                    &&& src@[k].sealed_cid@.hash_code == POSEIDON_BLS12_381_A2_FC1
                    &&& src@[k].sealed_cid@.hash.len() == 32
                },
        decreases n - i,
    {
        let comm_r = match cid_to_replica_commitment_v1(&src[i].sealed_cid) {
            Ok(c) => c,
            Err(e) => {
                return Err(e);
            },
        };
        if !check_valid_proof_type(typ, src[i].proof) {
            return Err(ErrorNumber::IllegalArgument);
        }
        out.push(
            PublicReplicaSummary { sector_number: src[i].sector_number, post_proof: typ, comm_r },
        );
        i += 1;
    }
    Ok(out)
}

/// How the marshaled seal inputs relate to the record they came from.
pub open spec fn spec_seal_prepared(vi: SealVerifyInfo, inp: SealInputs) -> bool {
    &&& inp.registered_proof == vi.registered_proof
    &&& inp.comm_r@ == vi.sealed_cid@.hash
    &&& inp.comm_d@ == vi.unsealed_cid@.hash
    &&& inp.prover_id@.len() == 32
    &&& inp.prover_id@.subrange(0, spec_varint(vi.sector_id.miner as nat).len() as int)
        == spec_varint(vi.sector_id.miner as nat)
    &&& inp.sector_number == vi.sector_id.number
    &&& inp.ticket@ == spec_bytes_32(vi.randomness.0@)
    &&& inp.seed@ == spec_bytes_32(vi.interactive_randomness.0@)
    &&& inp.proof@ == vi.proof@
}

/// How the marshaled window-PoSt inputs relate to the record they came
/// from.
pub open spec fn spec_post_prepared(info: WindowPoStVerifyInfo, out: WindowPoStInputs) -> bool {
    &&& info.randomness.0@.len() == 32
    &&& info.proofs@.len() >= 1
    &&& out.randomness@.len() == 32
    &&& out.randomness@ == info.randomness.0@.update(31, (info.randomness.0@[31] & 0x3f) as u8)
    &&& out.proofs@.len() == info.proofs@.len()
    &&& forall|i: int|
        0 <= i < info.proofs@.len() ==> (#[trigger] out.proofs@[i]).post_proof
            == info.proofs@[0].post_proof && out.proofs@[i].proof_bytes@
            == info.proofs@[i].proof_bytes@
    &&& forall|i: int|
        0 <= i < info.proofs@.len() ==> (#[trigger] info.proofs@[i]).post_proof
            == info.proofs@[0].post_proof
    &&& out.replicas@.len() == info.challenged_sectors@.len()
    &&& forall|i: int|
        0 <= i < info.challenged_sectors@.len() ==> (#[trigger] out.replicas@[i]).sector_number
            == info.challenged_sectors@[i].sector_number && out.replicas@[i].comm_r@
            == info.challenged_sectors@[i].sealed_cid@.hash
    &&& out.prover_id@.len() == 32
    &&& out.prover_id@.subrange(0, spec_varint(info.prover as nat).len() as int) == spec_varint(
        info.prover as nat,
    )
}

/// How the marshaled aggregate-seal inputs relate to the record they came
/// from.
pub open spec fn spec_aggregate_prepared(
    aggregate: AggregateSealVerifyProofAndInfos,
    out: AggregateSealInputs,
) -> bool {
    &&& aggregate.infos@.len() >= 1
    &&& out.seal_proof == aggregate.seal_proof
    &&& out.aggregate_proof == aggregate.aggregate_proof
    &&& out.proof@ == aggregate.proof@
    &&& out.prover_id@.len() == 32
    &&& out.prover_id@.subrange(0, spec_varint(aggregate.miner as nat).len() as int)
        == spec_varint(aggregate.miner as nat)
    &&& out.inputs@.len() == aggregate.infos@.len()
    &&& forall|i: int|
        0 <= i < aggregate.infos@.len() ==> {
            &&& (#[trigger] out.inputs@[i]).comm_r@ == aggregate.infos@[i].sealed_cid@.hash
            &&& out.inputs@[i].comm_d@ == aggregate.infos@[i].unsealed_cid@.hash
            &&& out.inputs@[i].sector_number == aggregate.infos@[i].sector_number
            &&& out.inputs@[i].ticket@ == spec_bytes_32(aggregate.infos@[i].randomness.0@)
            &&& out.inputs@[i].seed@ == spec_bytes_32(
                aggregate.infos@[i].interactive_randomness.0@,
            )
        }
}

/// How the marshaled replica-update inputs relate to the record they came
/// from.
pub open spec fn spec_replica_prepared(replica: ReplicaUpdateInfo, out: ReplicaUpdateInputs) -> bool {
    &&& out.update_proof_type == replica.update_proof_type
    &&& out.comm_r_old@ == replica.old_sealed_cid@.hash
    &&& out.comm_r_new@ == replica.new_sealed_cid@.hash
    &&& out.comm_d@ == replica.new_unsealed_cid@.hash
    &&& out.proof@ == replica.proof@
}

/// Converts one seal-verification record into the plain inputs the proof
/// backend takes: commitments extracted from the CIDs, the prover ID
/// derived from the miner, and the randomness fields clamped to 32 bytes.
pub fn verify_seal_prepare(vi: &SealVerifyInfo) -> (r: Result<SealInputs, ErrorNumber>)
    ensures
        (match r {
            Ok(inp) => spec_seal_prepared(*vi, inp),
            Err(e) => e == ErrorNumber::IllegalArgument,
        }),
        r is Ok <==> spec_seal_info_ok(*vi),
{
    let comm_r = match cid_to_replica_commitment_v1(&vi.sealed_cid) {
        Ok(c) => c,
        Err(e) => {
            return Err(e);
        },
    };
    let comm_d = match cid_to_data_commitment_v1(&vi.unsealed_cid) {
        Ok(c) => c,
        Err(e) => {
            return Err(e);
        },
    };
    Ok(
        SealInputs {
            registered_proof: vi.registered_proof,
            comm_r,
            comm_d,
            prover_id: prover_id_from_u64(vi.sector_id.miner),
            sector_number: vi.sector_id.number,
            ticket: to_bytes_32(vi.randomness.0.as_slice()),
            seed: to_bytes_32(vi.interactive_randomness.0.as_slice()),
            proof: bytes_clone(&vi.proof),
        },
    )
}

/// Converts a window-PoSt record into the plain inputs the proof backend
/// takes. The randomness must be 32 bytes; its final byte is masked to stay
/// a valid field element. All proofs must share one proof type, and every
/// challenged sector must convert.
pub fn verify_post_prepare(info: &WindowPoStVerifyInfo) -> (r: Result<
    WindowPoStInputs,
    ErrorNumber,
>)
    ensures
        (match r {
            Ok(out) => spec_post_prepared(*info, out),
            Err(e) => e == ErrorNumber::IllegalArgument,
        }),
        r is Ok <==> spec_post_info_ok(*info),
{
    if info.randomness.0.len() != 32 {
        return Err(ErrorNumber::IllegalArgument);
    }
    if info.proofs.len() == 0 {
        return Err(ErrorNumber::IllegalArgument);
    }
    let mut randomness = bytes_clone(&info.randomness.0);
    let masked = randomness[31] & 0x3f;
    randomness[31] = masked;
    let proof_type = info.proofs[0].post_proof;
    let n = info.proofs.len();
    let mut proofs: Vec<PoStProofInput> = Vec::new();
    let mut i: usize = 0;
    while i < n
        invariant
            i <= n == info.proofs@.len(),
            n >= 1,
            proof_type == info.proofs@[0].post_proof,
            proofs@.len() == i,
            forall|k: int|
                0 <= k < i ==> (#[trigger] proofs@[k]).post_proof == proof_type
                    && proofs@[k].proof_bytes@ == info.proofs@[k].proof_bytes@,
            forall|k: int| 0 <= k < i ==> (#[trigger] info.proofs@[k]).post_proof == proof_type,
        decreases n - i,
    {
        if !(info.proofs[i].post_proof == proof_type) {
            return Err(ErrorNumber::IllegalArgument);
        }
        proofs.push(
            PoStProofInput {
                post_proof: info.proofs[i].post_proof,
                proof_bytes: bytes_clone(&info.proofs[i].proof_bytes),
            },
        );
        i += 1;
    }
    let replicas = match to_fil_public_replica_infos(info.challenged_sectors.as_slice(), proof_type) {
        Ok(rs) => rs,
        Err(e) => {
            return Err(e);
        },
    };
    proof {
        assert forall|i: int| 0 <= i < info.challenged_sectors@.len() implies {
            &&& (#[trigger] info.challenged_sectors@[i]).sealed_cid@.codec
                == FIL_COMMITMENT_SEALED
            &&& info.challenged_sectors@[i].sealed_cid@.hash_code == POSEIDON_BLS12_381_A2_FC1
            &&& info.challenged_sectors@[i].sealed_cid@.hash.len() == 32
            &&& spec_check_valid_proof_type(
                info.proofs@[0].post_proof,
                info.challenged_sectors@[i].proof,
            )
        } by {
            assert(replicas@[i].comm_r@ == info.challenged_sectors@[i].sealed_cid@.hash);
        }
    }
    Ok(
        WindowPoStInputs {
            randomness,
            proofs,
            replicas,
            prover_id: prover_id_from_u64(info.prover),
        },
    )
}

/// Converts an aggregate-seal record into the plain inputs the proof
/// backend takes. An empty aggregate is `IllegalArgument`; every seal's
/// CIDs must carry commitments.
pub fn verify_aggregate_seals_prepare(aggregate: &AggregateSealVerifyProofAndInfos) -> (r: Result<
    AggregateSealInputs,
    ErrorNumber,
>)
    ensures
        aggregate.infos@.len() == 0 ==> r == Err::<AggregateSealInputs, ErrorNumber>(
            ErrorNumber::IllegalArgument,
        ),
        (match r {
            Ok(out) => spec_aggregate_prepared(*aggregate, out),
            Err(e) => e == ErrorNumber::IllegalArgument,
        }),
        r is Ok <==> spec_aggregate_ok(*aggregate),
{
    if info_count(aggregate) == 0 {
        return Err(ErrorNumber::IllegalArgument);
    }
    let n = aggregate.infos.len();
    let mut inputs: Vec<AggregateSealInput> = Vec::new();
    let mut i: usize = 0;
    while i < n
        invariant
            i <= n == aggregate.infos@.len(),
            inputs@.len() == i,
            forall|k: int|
                0 <= k < i ==> {
                    &&& (#[trigger] aggregate.infos@[k]).sealed_cid@.codec
                        == FIL_COMMITMENT_SEALED
                    &&& aggregate.infos@[k].sealed_cid@.hash_code == POSEIDON_BLS12_381_A2_FC1
                    &&& aggregate.infos@[k].sealed_cid@.hash.len() == 32
                    &&& aggregate.infos@[k].unsealed_cid@.codec == FIL_COMMITMENT_UNSEALED
                    &&& aggregate.infos@[k].unsealed_cid@.hash_code == SHA2_256_TRUNC254_PADDED
                    &&& aggregate.infos@[k].unsealed_cid@.hash.len() == 32
                },
            forall|k: int|
                0 <= k < i ==> {
                    &&& (#[trigger] inputs@[k]).comm_r@ == aggregate.infos@[k].sealed_cid@.hash
                    &&& inputs@[k].comm_d@ == aggregate.infos@[k].unsealed_cid@.hash
                    &&& inputs@[k].sector_number == aggregate.infos@[k].sector_number
                    &&& inputs@[k].ticket@ == spec_bytes_32(aggregate.infos@[k].randomness.0@)
                    &&& inputs@[k].seed@ == spec_bytes_32(
                        aggregate.infos@[k].interactive_randomness.0@,
                    )
                },
        decreases n - i,
    {
        let comm_r = match cid_to_replica_commitment_v1(&aggregate.infos[i].sealed_cid) {
            Ok(c) => c,
            Err(e) => {
                return Err(e);
            },
        };
        let comm_d = match cid_to_data_commitment_v1(&aggregate.infos[i].unsealed_cid) {
            Ok(c) => c,
            Err(e) => {
                return Err(e);
            },
        };
        inputs.push(
            AggregateSealInput {
                comm_r,
                comm_d,
                sector_number: aggregate.infos[i].sector_number,
                ticket: to_bytes_32(aggregate.infos[i].randomness.0.as_slice()),
                seed: to_bytes_32(aggregate.infos[i].interactive_randomness.0.as_slice()),
            },
        );
        i += 1;
    }
    Ok(
        AggregateSealInputs {
            seal_proof: aggregate.seal_proof,
            aggregate_proof: aggregate.aggregate_proof,
            prover_id: prover_id_from_u64(aggregate.miner),
            proof: bytes_clone(&aggregate.proof),
            inputs,
        },
    )
}

/// The number of seals in an aggregate.
fn info_count(aggregate: &AggregateSealVerifyProofAndInfos) -> (r: usize)
    ensures
        r == aggregate.infos@.len(),
{
    aggregate.infos.len()
}

/// Converts a replica-update record into the plain inputs the proof
/// backend takes: the old and new replica commitments and the new data
/// commitment.
pub fn verify_replica_update_prepare(replica: &ReplicaUpdateInfo) -> (r: Result<
    ReplicaUpdateInputs,
    ErrorNumber,
>)
    ensures
        (match r {
            Ok(out) => spec_replica_prepared(*replica, out),
            Err(e) => e == ErrorNumber::IllegalArgument,
        }),
        r is Ok <==> spec_replica_ok(*replica),
{
    let comm_r_old = match cid_to_replica_commitment_v1(&replica.old_sealed_cid) {
        Ok(c) => c,
        Err(e) => {
            return Err(e);
        },
    };
    let comm_r_new = match cid_to_replica_commitment_v1(&replica.new_sealed_cid) {
        Ok(c) => c,
        Err(e) => {
            return Err(e);
        },
    };
    let comm_d = match cid_to_data_commitment_v1(&replica.new_unsealed_cid) {
        Ok(c) => c,
        Err(e) => {
            return Err(e);
        },
    };
    Ok(
        ReplicaUpdateInputs {
            update_proof_type: replica.update_proof_type,
            comm_r_old,
            comm_r_new,
            comm_d,
            proof: bytes_clone(&replica.proof),
        },
    )
}

/// What fills one slot of a sector: a zero-piece commitment of the slot's
/// size, or a caller piece's 32-byte data commitment.
#[derive(Debug, PartialEq, Eq)]
pub enum PieceCommitment {
    Zero,
    Comm(Vec<u8>),
}

/// One slot of the unsealed sector layout.
#[derive(Debug, PartialEq, Eq)]
pub struct SectorPiece {
    pub size: PaddedPieceSize,
    pub commitment: PieceCommitment,
}

/// The sum of the first `i` slot sizes.
pub open spec fn spec_layout_prefix(s: Seq<SectorPiece>, i: int) -> int
    decreases i,
{
    if i <= 0 {
        0
    } else {
        spec_layout_prefix(s, i - 1) + s[i - 1].size.0
    }
}

/// The total size of a layout.
pub open spec fn spec_layout_total(s: Seq<SectorPiece>) -> int {
    spec_layout_prefix(s, s.len() as int)
}

/// A layout prefix sum ignores appended slots.
pub proof fn lemma_layout_prefix_push(s: Seq<SectorPiece>, t: SectorPiece, i: int)
    requires
        0 <= i <= s.len(),
    ensures
        spec_layout_prefix(s.push(t), i) == spec_layout_prefix(s, i),
    decreases i,
{
    if i > 0 {
        lemma_layout_prefix_push(s, t, i - 1);
    }
}

/// The caller pieces of a layout, in order: the slots that carry a data
/// commitment.
pub open spec fn spec_comm_entries(s: Seq<SectorPiece>) -> Seq<SectorPiece>
    decreases s.len(),
{
    if s.len() == 0 {
        Seq::empty()
    } else if s.last().commitment is Comm {
        spec_comm_entries(s.drop_last()).push(s.last())
    } else {
        spec_comm_entries(s.drop_last())
    }
}

/// A piece the layout accepts: a valid power-of-two padded size and a CID
/// carrying a data commitment.
pub open spec fn spec_piece_ok(p: PieceInfo) -> bool {
    &&& p.size.spec_valid()
    &&& p.cid@.codec == FIL_COMMITMENT_UNSEALED
    &&& p.cid@.hash_code == SHA2_256_TRUNC254_PADDED
    &&& p.cid@.hash.len() == 32
}

/// The sum of the first `i` input piece sizes.
pub open spec fn spec_input_prefix(ps: Seq<PieceInfo>, i: int) -> int
    decreases i,
{
    if i <= 0 {
        0
    } else {
        spec_input_prefix(ps, i - 1) + ps[i - 1].size.0
    }
}

/// Input prefix sums grow with the prefix.
proof fn lemma_input_prefix_mono(ps: Seq<PieceInfo>, i: int, j: int)
    requires
        0 <= i <= j <= ps.len(),
    ensures
        spec_input_prefix(ps, i) <= spec_input_prefix(ps, j),
    decreases j - i,
{
    if i < j {
        lemma_input_prefix_mono(ps, i, j - 1);
    }
}

/// Filling the owed padding aligns the running total to the piece size.
proof fn lemma_pad_alignment(sum: u64, p: u64)
    requires
        p > 0,
    ensures
        (sum + spec_required_residue(sum, p)) % (p as int) == 0,
{
    let rem = sum % p;
    let q = sum as int / p as int;
    vstd::arithmetic::div_mod::lemma_fundamental_div_mod(sum as int, p as int);
    if rem == 0 {
        vstd::arithmetic::div_mod::lemma_mod_self_0(p as int);
        assert(spec_required_residue(sum, p) == 0);
    } else {
        vstd::arithmetic::div_mod::lemma_small_mod((p - rem) as nat, p as nat);
        assert(spec_required_residue(sum, p) == p - rem);
        vstd::arithmetic::div_mod::lemma_mod_multiples_basic(q + 1, p as int);
        assert(sum + (p - rem) == (q + 1) * (p as int)) by (nonlinear_arith)
            requires
                sum as int == (p as int) * q + (rem as int) && p > 0,
        ;
        assert((sum + (p - rem)) % (p as int) == 0);
    }
}

/// Lays out an unsealed sector: zero pads before every piece so that each
/// piece starts at an offset divisible by its own size, then zero pads to a
/// multiple of the sector size. An empty piece list yields one zero piece
/// filling the whole sector. Invalid piece sizes, CIDs that carry no data
/// commitment, and totals past the integer range are `IllegalArgument`.
pub fn compute_unsealed_sector_layout(
    proof_type: RegisteredSealProof,
    pieces: &[PieceInfo],
) -> (r: Result<Vec<SectorPiece>, ErrorNumber>)
    ensures
        pieces@.len() == 0 ==> (r matches Ok(out) && out@.len() == 1 && out@[0].size.0
            == proof_type.spec_sector_size() && out@[0].commitment is Zero),
        (match r {
            Ok(out) => {
                &&& forall|j: int|
                    0 <= j < out@.len() && (#[trigger] out@[j].commitment) is Zero ==> out@[j].size.0
                        != 0 && (out@[j].size.0 & ((out@[j].size.0 - 1) as u64)) == 0
                &&& forall|j: int|
                    0 <= j < out@.len() && (#[trigger] out@[j].commitment) is Comm ==> out@[j].size.spec_valid()
                        && spec_layout_prefix(out@, j) % (out@[j].size.0 as int) == 0
                &&& spec_layout_total(out@) % (proof_type.spec_sector_size() as int) == 0
                &&& spec_comm_entries(out@).len() == pieces@.len()
                &&& forall|i: int|
                    0 <= i < pieces@.len() ==> (#[trigger] spec_comm_entries(out@)[i]).size
                        == pieces@[i].size && (match spec_comm_entries(out@)[i].commitment {
                        PieceCommitment::Comm(c) => c@ == pieces@[i].cid@.hash,
                        PieceCommitment::Zero => false,
                    })
            },
            Err(e) => e == ErrorNumber::IllegalArgument,
        }),
        (forall|i: int| 0 <= i < pieces@.len() ==> spec_piece_ok(#[trigger] pieces@[i])) && 2
            * spec_input_prefix(pieces@, pieces@.len() as int) + proof_type.spec_sector_size()
            <= u64::MAX ==> r is Ok,
{
    let ssize = proof_type.sector_size();
    if pieces.len() == 0 {
        let mut out: Vec<SectorPiece> = Vec::new();
        out.push(SectorPiece { size: PaddedPieceSize(ssize), commitment: PieceCommitment::Zero });
        proof {
            assert(spec_layout_prefix(out@, 0) == 0);
            assert(spec_layout_prefix(out@, 1) == ssize);
            vstd::arithmetic::div_mod::lemma_mod_self_0(ssize as int);
            assert(out@.drop_last() =~= Seq::<SectorPiece>::empty());
            assert(spec_comm_entries(out@.drop_last()) =~= Seq::<SectorPiece>::empty());
            assert(spec_comm_entries(out@) =~= Seq::<SectorPiece>::empty());
            assert(ssize != 0 && (ssize & ((ssize - 1) as u64)) == 0) by (bit_vector)
                requires
                    ssize == 2048 || ssize == 8388608 || ssize == 536870912 || ssize
                        == 34359738368 || ssize == 68719476736,
            ;
        }
        return Ok(out);
    }
    let n = pieces.len();
    let mut out: Vec<SectorPiece> = Vec::new();
    let mut sum: u64 = 0;
    let mut k: usize = 0;
    while k < n
        invariant
            k <= n == pieces@.len(),
            sum == spec_layout_total(out@),
            sum <= 2 * spec_input_prefix(pieces@, k as int),
            forall|j: int|
                0 <= j < out@.len() && (#[trigger] out@[j].commitment) is Zero ==> out@[j].size.0
                    != 0 && (out@[j].size.0 & ((out@[j].size.0 - 1) as u64)) == 0,
            forall|j: int|
                0 <= j < out@.len() && (#[trigger] out@[j].commitment) is Comm ==> out@[j].size.spec_valid()
                    && spec_layout_prefix(out@, j) % (out@[j].size.0 as int) == 0,
            spec_comm_entries(out@).len() == k,
            forall|i: int|
                0 <= i < k ==> (#[trigger] spec_comm_entries(out@)[i]).size == pieces@[i].size && (
                match spec_comm_entries(out@)[i].commitment {
                    PieceCommitment::Comm(c) => c@ == pieces@[i].cid@.hash,
                    PieceCommitment::Zero => false,
                }),
            forall|i: int| 0 <= i < k ==> spec_piece_ok(#[trigger] pieces@[i]),
        decreases n - k,
    {
        if !pieces[k].size.validate() {
            proof {
                assert(!spec_piece_ok(pieces@[k as int]));
            }
            return Err(ErrorNumber::IllegalArgument);
        }
        let comm = match cid_to_data_commitment_v1(&pieces[k].cid) {
            Ok(c) => c,
            Err(e) => {
                proof {
                    assert(!spec_piece_ok(pieces@[k as int]));
                }
                return Err(e);
            },
        };
        let psize = pieces[k].size;
        let (pads, pad_total) = get_required_padding(PaddedPieceSize(sum), psize);
        let after_pads = match sum.checked_add(pad_total.0) {
            Some(s) => s,
            None => {
                proof {
                    assert(spec_input_prefix(pieces@, k + 1) == spec_input_prefix(
                        pieces@,
                        k as int,
                    ) + psize.0);
                    lemma_input_prefix_mono(pieces@, k + 1, pieces@.len() as int);
                }
                return Err(ErrorNumber::IllegalArgument);
            },
        };
        let after_piece = match after_pads.checked_add(psize.0) {
            Some(s) => s,
            None => {
                proof {
                    assert(spec_input_prefix(pieces@, k + 1) == spec_input_prefix(
                        pieces@,
                        k as int,
                    ) + psize.0);
                    lemma_input_prefix_mono(pieces@, k + 1, pieces@.len() as int);
                }
                return Err(ErrorNumber::IllegalArgument);
            },
        };
        sum = push_zero_pads(&mut out, &pads, sum);
        proof {
            lemma_pad_alignment((after_pads - pad_total.0) as u64, psize.0);
        }
        let ghost prev = out@;
        out.push(SectorPiece { size: psize, commitment: PieceCommitment::Comm(comm) });
        proof {
            assert(out@.drop_last() =~= prev);
            assert forall|j: int| 0 <= j <= prev.len() implies spec_layout_prefix(out@, j)
                == spec_layout_prefix(prev, j) by {
                lemma_layout_prefix_push(prev, out@.last(), j);
            }
            assert(spec_layout_prefix(out@, prev.len() as int) == sum);
            assert(spec_comm_entries(out@) =~= spec_comm_entries(prev).push(out@.last()));
        }
        sum = after_piece;
        proof {
            assert(spec_input_prefix(pieces@, k + 1) == spec_input_prefix(pieces@, k as int)
                + psize.0);
        }
        k += 1;
    }
    let (pads, pad_total) = get_required_padding(PaddedPieceSize(sum), PaddedPieceSize(ssize));
    proof {
        assert(ssize >= 128) by {
            assert(proof_type.spec_sector_size() >= 2048);
        }
    }
    let final_sum = match sum.checked_add(pad_total.0) {
        Some(s) => s,
        None => {
            return Err(ErrorNumber::IllegalArgument);
        },
    };
    let ghost before_final = sum;
    sum = push_zero_pads(&mut out, &pads, sum);
    proof {
        lemma_pad_alignment(before_final, ssize);
    }
    Ok(out)
}

/// Appends one zero slot per pad, returning the new running total.
fn push_zero_pads(out: &mut Vec<SectorPiece>, pads: &Vec<PaddedPieceSize>, sum: u64) -> (r: u64)
    requires
        sum == spec_layout_total(old(out)@),
        sum + spec_pad_sum(pads@) <= u64::MAX,
        forall|k: int|
            0 <= k < pads@.len() ==> (#[trigger] pads@[k].0) != 0 && (pads@[k].0 & ((pads@[k].0
                - 1) as u64)) == 0,
    ensures
        r == sum + spec_pad_sum(pads@),
        r == spec_layout_total(final(out)@),
        final(out)@.len() == old(out)@.len() + pads@.len(),
        forall|j: int| 0 <= j < old(out)@.len() ==> final(out)@[j] == old(out)@[j],
        forall|j: int|
            old(out)@.len() <= j < final(out)@.len() ==> (#[trigger] final(out)@[j]).commitment
                is Zero && final(out)@[j].size == pads@[j - old(out)@.len()],
        forall|j: int|
            0 <= j <= old(out)@.len() ==> spec_layout_prefix(final(out)@, j) == spec_layout_prefix(
                old(out)@,
                j,
            ),
        spec_comm_entries(final(out)@) == spec_comm_entries(old(out)@),
{
    let m = pads.len();
    let mut i: usize = 0;
    let mut acc: u64 = sum;
    while i < m
        invariant
            i <= m == pads@.len(),
            acc == sum + spec_pad_prefix(pads@, i as int),
            acc == spec_layout_total(out@),
            sum + spec_pad_sum(pads@) <= u64::MAX,
            forall|k: int|
                0 <= k < pads@.len() ==> (#[trigger] pads@[k].0) != 0 && (pads@[k].0 & ((pads@[k].0
                    - 1) as u64)) == 0,
            out@.len() == old(out)@.len() + i,
            forall|j: int| 0 <= j < old(out)@.len() ==> out@[j] == old(out)@[j],
            forall|j: int|
                old(out)@.len() <= j < out@.len() ==> (#[trigger] out@[j]).commitment is Zero
                    && out@[j].size == pads@[j - old(out)@.len()],
            forall|j: int|
                0 <= j <= old(out)@.len() ==> spec_layout_prefix(out@, j) == spec_layout_prefix(
                    old(out)@,
                    j,
                ),
            spec_comm_entries(out@) == spec_comm_entries(old(out)@),
        decreases m - i,
    {
        proof {
            lemma_pad_prefix_mono(pads@, i + 1, pads@.len() as int);
        }
        let ghost prev = out@;
        out.push(SectorPiece { size: pads[i], commitment: PieceCommitment::Zero });
        proof {
            assert(out@.drop_last() =~= prev);
            assert forall|j: int| 0 <= j <= prev.len() implies spec_layout_prefix(out@, j)
                == spec_layout_prefix(prev, j) by {
                lemma_layout_prefix_push(prev, out@.last(), j);
            }
            assert(spec_layout_prefix(out@, out@.len() as int) == spec_layout_prefix(
                prev,
                prev.len() as int,
            ) + pads@[i as int].0);
        }
        acc = acc + pads[i].0;
        i += 1;
    }
    acc
}

} // verus!
