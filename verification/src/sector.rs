//! Sector proof registry types and proof-of-spacetime records.
//!
//! Proof types are identified structurally by sector size and version; the
//! registry here covers the sizes the machine accepts. Conversions between
//! seal and window-post proof types, sector sizes and piece sizes are total
//! functions of these enums.

use vstd::prelude::*;

use crate::cid::Cid;

verus! {

/// A registered seal proof type.
#[derive(Clone, Copy, PartialEq, Eq, Structural, Debug)]
pub enum RegisteredSealProof {
    StackedDrg2KiBV1,
    StackedDrg8MiBV1,
    StackedDrg512MiBV1,
    StackedDrg32GiBV1,
    StackedDrg64GiBV1,
    StackedDrg2KiBV1P1,
    StackedDrg8MiBV1P1,
    StackedDrg512MiBV1P1,
    StackedDrg32GiBV1P1,
    StackedDrg64GiBV1P1,
}

/// A registered proof-of-spacetime type.
#[derive(Clone, Copy, PartialEq, Eq, Structural, Debug)]
pub enum RegisteredPoStProof {
    StackedDrgWinning2KiBV1,
    StackedDrgWinning8MiBV1,
    StackedDrgWinning512MiBV1,
    StackedDrgWinning32GiBV1,
    StackedDrgWinning64GiBV1,
    StackedDrgWindow2KiBV1,
    StackedDrgWindow8MiBV1,
    StackedDrgWindow512MiBV1,
    StackedDrgWindow32GiBV1,
    StackedDrgWindow64GiBV1,
}

/// A registered seal-aggregation proof type.
#[derive(Clone, Copy, PartialEq, Eq, Structural, Debug)]
pub enum RegisteredAggregateProof {
    SnarkPackV1,
    SnarkPackV2,
}

/// A registered replica-update proof type.
#[derive(Clone, Copy, PartialEq, Eq, Structural, Debug)]
pub enum RegisteredUpdateProof {
    StackedDrg2KiBV1,
    StackedDrg8MiBV1,
    StackedDrg512MiBV1,
    StackedDrg32GiBV1,
    StackedDrg64GiBV1,
}

impl RegisteredSealProof {
    /// The sector size this proof type seals.
    pub open spec fn spec_sector_size(self) -> u64 {
        match self {
            RegisteredSealProof::StackedDrg2KiBV1 => 2048,
            RegisteredSealProof::StackedDrg8MiBV1 => 8388608,
            RegisteredSealProof::StackedDrg512MiBV1 => 536870912,
            RegisteredSealProof::StackedDrg32GiBV1 => 34359738368,
            RegisteredSealProof::StackedDrg64GiBV1 => 68719476736,
            RegisteredSealProof::StackedDrg2KiBV1P1 => 2048,
            RegisteredSealProof::StackedDrg8MiBV1P1 => 8388608,
            RegisteredSealProof::StackedDrg512MiBV1P1 => 536870912,
            RegisteredSealProof::StackedDrg32GiBV1P1 => 34359738368,
            RegisteredSealProof::StackedDrg64GiBV1P1 => 68719476736,
        }
    }

    pub fn sector_size(self) -> (r: u64)
        ensures
            r == self.spec_sector_size(),
    {
        match self {
            RegisteredSealProof::StackedDrg2KiBV1 => 2048,
            RegisteredSealProof::StackedDrg8MiBV1 => 8388608,
            RegisteredSealProof::StackedDrg512MiBV1 => 536870912,
            RegisteredSealProof::StackedDrg32GiBV1 => 34359738368,
            RegisteredSealProof::StackedDrg64GiBV1 => 68719476736,
            RegisteredSealProof::StackedDrg2KiBV1P1 => 2048,
            RegisteredSealProof::StackedDrg8MiBV1P1 => 8388608,
            RegisteredSealProof::StackedDrg512MiBV1P1 => 536870912,
            RegisteredSealProof::StackedDrg32GiBV1P1 => 34359738368,
            RegisteredSealProof::StackedDrg64GiBV1P1 => 68719476736,
        }
    }

    /// The window-post proof type proofs of this seal type answer to.
    pub open spec fn spec_registered_window_post_proof(self) -> RegisteredPoStProof {
        match self {
            RegisteredSealProof::StackedDrg2KiBV1 => RegisteredPoStProof::StackedDrgWindow2KiBV1,
            RegisteredSealProof::StackedDrg8MiBV1 => RegisteredPoStProof::StackedDrgWindow8MiBV1,
            RegisteredSealProof::StackedDrg512MiBV1 => RegisteredPoStProof::StackedDrgWindow512MiBV1,
            RegisteredSealProof::StackedDrg32GiBV1 => RegisteredPoStProof::StackedDrgWindow32GiBV1,
            RegisteredSealProof::StackedDrg64GiBV1 => RegisteredPoStProof::StackedDrgWindow64GiBV1,
            RegisteredSealProof::StackedDrg2KiBV1P1 => RegisteredPoStProof::StackedDrgWindow2KiBV1,
            RegisteredSealProof::StackedDrg8MiBV1P1 => RegisteredPoStProof::StackedDrgWindow8MiBV1,
            RegisteredSealProof::StackedDrg512MiBV1P1 => RegisteredPoStProof::StackedDrgWindow512MiBV1,
            RegisteredSealProof::StackedDrg32GiBV1P1 => RegisteredPoStProof::StackedDrgWindow32GiBV1,
            RegisteredSealProof::StackedDrg64GiBV1P1 => RegisteredPoStProof::StackedDrgWindow64GiBV1,
        }
    }

    pub fn registered_window_post_proof(self) -> (r: RegisteredPoStProof)
        ensures
            r == self.spec_registered_window_post_proof(),
    {
        match self {
            RegisteredSealProof::StackedDrg2KiBV1 => RegisteredPoStProof::StackedDrgWindow2KiBV1,
            RegisteredSealProof::StackedDrg8MiBV1 => RegisteredPoStProof::StackedDrgWindow8MiBV1,
            RegisteredSealProof::StackedDrg512MiBV1 => RegisteredPoStProof::StackedDrgWindow512MiBV1,
            RegisteredSealProof::StackedDrg32GiBV1 => RegisteredPoStProof::StackedDrgWindow32GiBV1,
            RegisteredSealProof::StackedDrg64GiBV1 => RegisteredPoStProof::StackedDrgWindow64GiBV1,
            RegisteredSealProof::StackedDrg2KiBV1P1 => RegisteredPoStProof::StackedDrgWindow2KiBV1,
            RegisteredSealProof::StackedDrg8MiBV1P1 => RegisteredPoStProof::StackedDrgWindow8MiBV1,
            RegisteredSealProof::StackedDrg512MiBV1P1 => RegisteredPoStProof::StackedDrgWindow512MiBV1,
            RegisteredSealProof::StackedDrg32GiBV1P1 => RegisteredPoStProof::StackedDrgWindow32GiBV1,
            RegisteredSealProof::StackedDrg64GiBV1P1 => RegisteredPoStProof::StackedDrgWindow64GiBV1,
        }
    }
}

/// Randomness used in proofs, 32 bytes by convention.
pub struct Randomness(pub Vec<u8>);

/// The size a piece occupies in a sector after padding, in bytes.
#[derive(Clone, Copy, PartialEq, Eq, Structural, Debug)]
pub struct PaddedPieceSize(pub u64);

impl PaddedPieceSize {
    /// A valid padded size: a power of two of at least 128 bytes.
    pub open spec fn spec_valid(self) -> bool {
        self.0 >= 128 && (self.0 & ((self.0 - 1) as u64)) == 0
    }

    pub fn validate(self) -> (r: bool)
        ensures
            r == self.spec_valid(),
    {
        self.0 >= 128 && (self.0 & (self.0 - 1)) == 0
    }

    /// The number of data bytes this padded size carries: padding is one
    /// byte in every 128.
    pub fn unpadded(self) -> (r: u64)
        ensures
            r == self.0 - self.0 / 128,
    {
        self.0 - self.0 / 128
    }
}

/// A piece of sector data: its padded size and its commitment CID.
pub struct PieceInfo {
    pub size: PaddedPieceSize,
    pub cid: Cid,
}

/// A sector's identity: the miner that seals it and its number.
#[derive(Clone, Copy, PartialEq, Eq, Structural, Debug)]
pub struct SectorId {
    pub miner: u64,
    pub number: u64,
}

/// Information about a sector necessary for PoSt verification.
pub struct SectorInfo {
    /// Used when sealing; mapped to a window-post proof type when used to
    /// verify a PoSt.
    pub proof: RegisteredSealProof,
    pub sector_number: u64,
    pub sealed_cid: Cid,
}

/// Proof of spacetime data stored on chain.
pub struct PoStProof {
    pub post_proof: RegisteredPoStProof,
    pub proof_bytes: Vec<u8>,
}

/// Information needed to verify a winning PoSt attached to a block header.
pub struct WinningPoStVerifyInfo {
    pub randomness: Randomness,
    pub proofs: Vec<PoStProof>,
    pub challenge_sectors: Vec<SectorInfo>,
    /// Used to derive the 32-byte prover ID.
    pub prover: u64,
}

/// Information needed to verify a window PoSt submitted to a miner actor.
pub struct WindowPoStVerifyInfo {
    pub randomness: Randomness,
    pub proofs: Vec<PoStProof>,
    pub challenged_sectors: Vec<SectorInfo>,
    pub prover: u64,
}

/// Information submitted by a miner to provide a window PoSt.
pub struct OnChainWindowPoStVerifyInfo {
    pub proofs: Vec<PoStProof>,
}

/// Everything needed to verify one seal proof.
pub struct SealVerifyInfo {
    pub registered_proof: RegisteredSealProof,
    pub sector_id: SectorId,
    pub deal_ids: Vec<u64>,
    pub randomness: Randomness,
    pub interactive_randomness: Randomness,
    pub proof: Vec<u8>,
    pub sealed_cid: Cid,
    pub unsealed_cid: Cid,
}

/// One seal in an aggregate.
pub struct AggregateSealVerifyInfo {
    pub sector_number: u64,
    pub randomness: Randomness,
    pub interactive_randomness: Randomness,
    pub sealed_cid: Cid,
    pub unsealed_cid: Cid,
}

/// An aggregate seal proof and the seals it covers.
pub struct AggregateSealVerifyProofAndInfos {
    pub miner: u64,
    pub seal_proof: RegisteredSealProof,
    pub aggregate_proof: RegisteredAggregateProof,
    pub proof: Vec<u8>,
    pub infos: Vec<AggregateSealVerifyInfo>,
}

/// Everything needed to verify one replica update proof.
pub struct ReplicaUpdateInfo {
    pub update_proof_type: RegisteredUpdateProof,
    pub old_sealed_cid: Cid,
    pub new_sealed_cid: Cid,
    pub new_unsealed_cid: Cid,
    pub proof: Vec<u8>,
}

/// Whether a PoSt of the given type answers for a sector sealed with the
/// given seal type.
pub open spec fn spec_check_valid_proof_type(
    post_type: RegisteredPoStProof,
    seal_type: RegisteredSealProof,
) -> bool {
    seal_type.spec_registered_window_post_proof() == post_type
}

/// Checks that a seal type's window-post proof type matches.
pub fn check_valid_proof_type(post_type: RegisteredPoStProof, seal_type: RegisteredSealProof) -> (r:
    bool)
    ensures
        r == spec_check_valid_proof_type(post_type, seal_type),
{
    let expected = seal_type.registered_window_post_proof();
    expected == post_type
}

} // verus!
