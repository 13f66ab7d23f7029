//! Padding, layout, digest and signature scenarios.

use fvm_kernel::blocks::BlockRegistry;
use fvm_kernel::call_manager::{CallManager, MachineContext, NetworkConfig};
use fvm_kernel::cid::Cid;
use fvm_kernel::crypto::{
    compute_unsealed_sector_layout, get_required_padding, prover_id_from_u64, PieceCommitment,
    FIL_COMMITMENT_SEALED, FIL_COMMITMENT_UNSEALED, POSEIDON_BLS12_381_A2_FC1,
    SHA2_256_TRUNC254_PADDED,
};
use fvm_kernel::error::{ErrorNumber, KernelError};
use fvm_kernel::gas::PriceList;
use fvm_kernel::kernel::{
    batch_verify_seals_collect, DefaultKernel, SealCheck, SealOutcome,
};
use fvm_kernel::sector::{
    AggregateSealVerifyInfo, AggregateSealVerifyProofAndInfos, OnChainWindowPoStVerifyInfo,
    PaddedPieceSize, PieceInfo, PoStProof, Randomness, RegisteredAggregateProof,
    RegisteredPoStProof, RegisteredSealProof, RegisteredUpdateProof, ReplicaUpdateInfo,
    SealVerifyInfo, SectorId, SectorInfo, WindowPoStVerifyInfo, WinningPoStVerifyInfo,
};
use bls_signatures::Serialize as BlsSerialize;

fn price_list() -> PriceList {
    PriceList {
        on_get_root: 2,
        on_set_root: 2,
        on_self_balance: 1,
        on_delete_actor: 3,
        on_block_open_base: 10,
        on_block_open_per_byte: 1,
        on_block_open_per_link: 5,
        on_block_create_base: 7,
        on_block_create_per_byte: 1,
        on_block_create_per_link: 5,
        on_block_link_base: 11,
        on_block_link_per_byte: 1,
        on_block_read_base: 4,
        on_block_read_per_byte: 1,
        on_block_stat: 1,
        on_ipld_link: 6,
        on_message_context: 1,
        on_network_context: 1,
        on_tipset_cid_base: 3,
        on_tipset_cid_per_epoch: 1,
        on_get_randomness_base: 3,
        on_get_randomness_per_epoch: 1,
        on_verify_aggregate_signature_base: 5,
        on_verify_aggregate_signature_per_signer: 2,
        on_verify_aggregate_signature_per_byte: 1,
        on_recover_secp_public_key: 9,
        on_hashing_base: 2,
        on_hashing_per_byte: 1,
        on_compute_unsealed_sector_cid: 8,
        on_verify_post: 8,
        on_verify_consensus_fault: 8,
        on_verify_seal: 8,
        on_verify_aggregate_seals: 8,
        on_verify_replica_update: 8,
        on_resolve_address: 2,
        on_get_actor_code_cid: 2,
        on_create_actor: 4,
        on_actor_event_base: 3,
        on_actor_event_per_entry: 1,
        on_actor_event_per_byte: 1,
        on_get_builtin_actor_type: 1,
        on_get_code_cid_for_type: 1,
        on_balance_of: 1,
        on_lookup_delegated_address: 1,
    }
}

fn kernel() -> DefaultKernel {
    let context = MachineContext {
        epoch: 100,
        timestamp: 1_700_000_000,
        base_fee: 100,
        circ_supply: 2_000_000_000,
        max_block_size: 1 << 20,
        network: NetworkConfig { chain_id: 314, network_version: 21, actor_debugging: false },
    };
    let cm = CallManager::new(context, price_list(), 1_000_000_000);
    DefaultKernel::new(cm, BlockRegistry::new(), 100, 101, 1, 0, false)
}

fn hex(bytes: &[u8]) -> String {
    let mut s = String::new();
    for b in bytes {
        s.push_str(&format!("{:02x}", b));
    }
    s
}

#[test]
fn padding_law_exact_values() {
    // 1000 bytes placed; the next piece is 1024 bytes. The residue is
    // (-1000) mod 1024 = 24 = 8 + 16: two pads, ascending.
    let (pads, total) = get_required_padding(PaddedPieceSize(1000), PaddedPieceSize(1024));
    assert_eq!(total.0, 24);
    assert_eq!(pads.len(), 2);
    assert_eq!(pads[0].0, 8);
    assert_eq!(pads[1].0, 16);
}

#[test]
fn padding_aligned_start_needs_nothing() {
    let (pads, total) = get_required_padding(PaddedPieceSize(2048), PaddedPieceSize(1024));
    assert_eq!(total.0, 0);
    assert!(pads.is_empty());
}

#[test]
fn padding_popcount_matches_pad_count() {
    // Residue 0b101011 = 43... residue of (-981) mod 1024 is 43.
    let (pads, total) = get_required_padding(PaddedPieceSize(981), PaddedPieceSize(1024));
    assert_eq!(total.0, 43);
    assert_eq!(pads.len(), 43u64.count_ones() as usize);
    let sum: u64 = pads.iter().map(|p| p.0).sum();
    assert_eq!(sum, 43);
}

fn piece_cid(bytes: [u8; 32]) -> Cid {
    Cid {
        version: 1,
        codec: FIL_COMMITMENT_UNSEALED,
        hash_code: SHA2_256_TRUNC254_PADDED,
        hash: bytes.to_vec(),
    }
}

#[test]
fn unsealed_layout_of_empty_sector() {
    let out = compute_unsealed_sector_layout(RegisteredSealProof::StackedDrg2KiBV1, &[]).unwrap();
    assert_eq!(out.len(), 1);
    assert_eq!(out[0].size.0, 2048);
    assert!(matches!(out[0].commitment, PieceCommitment::Zero));
}

#[test]
fn unsealed_layout_pads_to_sector_size() {
    let pieces = vec![PieceInfo { size: PaddedPieceSize(256), cid: piece_cid([7; 32]) }];
    let out =
        compute_unsealed_sector_layout(RegisteredSealProof::StackedDrg2KiBV1, &pieces).unwrap();
    // The piece sits at offset zero; zero pads of 256, 512 and 1024 bytes
    // fill the sector.
    assert_eq!(out.len(), 4);
    assert!(matches!(&out[0].commitment, PieceCommitment::Comm(c) if c == &vec![7u8; 32]));
    assert_eq!(out[0].size.0, 256);
    assert_eq!(out[1].size.0, 256);
    assert_eq!(out[2].size.0, 512);
    assert_eq!(out[3].size.0, 1024);
    let total: u64 = out.iter().map(|p| p.size.0).sum();
    assert_eq!(total, 2048);
}

#[test]
fn unsealed_layout_aligns_second_piece() {
    let pieces = vec![
        PieceInfo { size: PaddedPieceSize(128), cid: piece_cid([1; 32]) },
        PieceInfo { size: PaddedPieceSize(512), cid: piece_cid([2; 32]) },
    ];
    let out =
        compute_unsealed_sector_layout(RegisteredSealProof::StackedDrg2KiBV1, &pieces).unwrap();
    // 128 placed, then pads 128 and 256 align the 512-byte piece to 512.
    let mut offset = 0u64;
    for piece in &out {
        if let PieceCommitment::Comm(_) = piece.commitment {
            assert_eq!(offset % piece.size.0, 0);
        }
        offset += piece.size.0;
    }
    assert_eq!(offset, 2048);
}

#[test]
fn unsealed_layout_rejects_invalid_piece_size() {
    let pieces = vec![PieceInfo { size: PaddedPieceSize(100), cid: piece_cid([1; 32]) }];
    assert_eq!(
        compute_unsealed_sector_layout(RegisteredSealProof::StackedDrg2KiBV1, &pieces),
        Err(ErrorNumber::IllegalArgument)
    );
}

#[test]
fn prover_id_is_padded_varint() {
    let id = prover_id_from_u64(1000);
    assert_eq!(id.len(), 32);
    // 1000 = 0x3e8: varint e8 07.
    assert_eq!(id[0], 0xe8);
    assert_eq!(id[1], 0x07);
    assert!(id[2..].iter().all(|b| *b == 0));
}

#[test]
fn hash_blake2b_256_known_value() {
    let mut k = kernel();
    let mh = k.hash(0xb220, b"").unwrap();
    assert_eq!(mh.code, 0xb220);
    assert_eq!(
        hex(&mh.digest),
        "0e5751c026e543b2e8ab2eb06099daa1d1e5df47778f7787faab45cdf12fe3a8"
    );
}

#[test]
fn hash_sha2_256_known_value() {
    let mut k = kernel();
    let mh = k.hash(0x12, b"abc").unwrap();
    assert_eq!(
        hex(&mh.digest),
        "ba7816bf8f01cfea414140de5dae2223b00361a396177a9cb410ff61f20015ad"
    );
}

#[test]
fn hash_keccak_256_known_value() {
    let mut k = kernel();
    let mh = k.hash(0x1b, b"").unwrap();
    assert_eq!(
        hex(&mh.digest),
        "c5d2460186f7233c927e7db2dcc703c0e500b653ca82273b7bfad8045d85a470"
    );
}

#[test]
fn hash_ripemd_160_known_value() {
    let mut k = kernel();
    let mh = k.hash(0x1053, b"").unwrap();
    assert_eq!(hex(&mh.digest), "9c1185a5c5e9fc54612808977ee8f548b2258d31");
}

#[test]
fn hash_rejects_unknown_code() {
    let mut k = kernel();
    assert_eq!(
        k.hash(0x9999, b"abc"),
        Err(KernelError::Syscall(ErrorNumber::IllegalArgument))
    );
}

#[test]
fn secp_recovery_round_trip() {
    let seckey = libsecp256k1::SecretKey::parse(&[0x42; 32]).unwrap();
    let pubkey = libsecp256k1::PublicKey::from_secret_key(&seckey);
    let digest = [0x17; 32];
    let message = libsecp256k1::Message::parse(&digest);
    let (sig, rec_id) = libsecp256k1::sign(&message, &seckey);
    let mut wire = [0u8; 65];
    wire[..64].copy_from_slice(&sig.serialize());
    wire[64] = rec_id.serialize();
    let mut k = kernel();
    let recovered = k.recover_secp_public_key(&digest, &wire).unwrap();
    assert_eq!(recovered, pubkey.serialize().to_vec());
}

#[test]
fn secp_recovery_rejects_bad_recovery_id() {
    let mut k = kernel();
    let mut wire = [1u8; 65];
    wire[64] = 9;
    assert_eq!(
        k.recover_secp_public_key(&[0x17; 32], &wire),
        Err(KernelError::Syscall(ErrorNumber::IllegalArgument))
    );
}

#[test]
fn bls_aggregate_valid_signature() {
    let mut seed = [0u8; 32];
    seed[0] = 1;
    let sk = bls_signatures::PrivateKey::from_bytes(&seed).unwrap();
    let message = b"the message";
    let sig = sk.sign(message);
    let pk = sk.public_key();
    let mut k = kernel();
    let r = k
        .verify_bls_aggregate(
            &sig.as_bytes(),
            &vec![pk.as_bytes()],
            message,
            &[message.len() as u32],
        )
        .unwrap();
    assert!(r);
}

#[test]
fn bls_aggregate_wrong_message_fails() {
    let mut seed = [0u8; 32];
    seed[0] = 1;
    let sk = bls_signatures::PrivateKey::from_bytes(&seed).unwrap();
    let sig = sk.sign(b"the message");
    let pk = sk.public_key();
    let other = b"another message";
    let mut k = kernel();
    let r = k
        .verify_bls_aggregate(&sig.as_bytes(), &vec![pk.as_bytes()], other, &[other.len() as u32])
        .unwrap();
    assert!(!r);
}

#[test]
fn bls_aggregate_mismatched_lengths() {
    let mut k = kernel();
    let r = k.verify_bls_aggregate(&[0u8; 96], &vec![vec![0u8; 48]], b"ab", &[1, 1]);
    assert_eq!(r, Err(KernelError::Syscall(ErrorNumber::IllegalArgument)));
}

#[test]
fn bls_aggregate_spans_must_cover_buffer() {
    let mut k = kernel();
    let r = k.verify_bls_aggregate(&[0u8; 96], &vec![vec![0u8; 48]], b"abc", &[2]);
    assert_eq!(r, Err(KernelError::Syscall(ErrorNumber::IllegalArgument)));
}

#[test]
fn bls_garbage_signature_is_not_valid() {
    let mut k = kernel();
    let r = k.verify_bls_aggregate(&[3u8; 96], &vec![vec![5u8; 48]], b"ab", &[2]).unwrap();
    assert!(!r);
}

fn seal_info(sealed_ok: bool) -> SealVerifyInfo {
    let sealed_cid = if sealed_ok {
        Cid {
            version: 1,
            codec: FIL_COMMITMENT_SEALED,
            hash_code: POSEIDON_BLS12_381_A2_FC1,
            hash: vec![3; 32],
        }
    } else {
        Cid { version: 1, codec: 0x55, hash_code: 0x12, hash: vec![3; 32] }
    };
    SealVerifyInfo {
        registered_proof: RegisteredSealProof::StackedDrg2KiBV1,
        sector_id: SectorId { miner: 1000, number: 5 },
        deal_ids: vec![],
        randomness: Randomness(vec![1; 32]),
        interactive_randomness: Randomness(vec![2; 32]),
        proof: vec![0xaa],
        sealed_cid,
        unsealed_cid: piece_cid([4; 32]),
    }
}

#[test]
fn batch_verify_seals_panic_isolation() {
    let mut k = kernel();
    let vis = vec![seal_info(true), seal_info(true), seal_info(true)];
    let checks = k.batch_verify_seals_prepare(&vis).unwrap();
    assert_eq!(checks.len(), 3);
    // The backend verified the first, panicked on the second (contained by
    // the embedder's barrier), and answered false on the third.
    let outcomes = vec![
        SealOutcome::Verified(true),
        SealOutcome::Panicked,
        SealOutcome::Verified(false),
    ];
    let verdicts = batch_verify_seals_collect(&checks, &outcomes);
    assert_eq!(verdicts, vec![true, false, false]);
}

#[test]
fn batch_verify_seals_invalid_item_is_false() {
    let mut k = kernel();
    let vis = vec![seal_info(false), seal_info(true)];
    let checks = k.batch_verify_seals_prepare(&vis).unwrap();
    assert!(matches!(checks[0], SealCheck::Invalid));
    let outcomes = vec![SealOutcome::Verified(true), SealOutcome::Verified(true)];
    let verdicts = batch_verify_seals_collect(&checks, &outcomes);
    assert_eq!(verdicts, vec![false, true]);
}

#[test]
fn batch_verify_seals_precharges_gas() {
    let mut k = kernel();
    let vis = vec![seal_info(true), seal_info(true)];
    let before = k.gas_used();
    k.batch_verify_seals_prepare(&vis).unwrap();
    assert_eq!(k.gas_used(), before + 2 * price_list().on_verify_seal);
}

#[test]
fn window_post_prepare_masks_randomness() {
    let sealed = Cid {
        version: 1,
        codec: FIL_COMMITMENT_SEALED,
        hash_code: POSEIDON_BLS12_381_A2_FC1,
        hash: vec![3; 32],
    };
    let info = WindowPoStVerifyInfo {
        randomness: Randomness(vec![0xff; 32]),
        proofs: vec![PoStProof {
            post_proof: RegisteredPoStProof::StackedDrgWindow2KiBV1,
            proof_bytes: vec![1, 2],
        }],
        challenged_sectors: vec![SectorInfo {
            proof: RegisteredSealProof::StackedDrg2KiBV1,
            sector_number: 4,
            sealed_cid: sealed,
        }],
        prover: 1000,
    };
    let mut k = kernel();
    let inputs = k.verify_post_prepare(&info).unwrap();
    // The last randomness byte is masked into the field-element range.
    assert_eq!(inputs.randomness[31], 0x3f);
    assert_eq!(inputs.randomness[..31], [0xff; 31]);
    assert_eq!(inputs.replicas.len(), 1);
    assert_eq!(inputs.replicas[0].sector_number, 4);
    assert_eq!(inputs.replicas[0].comm_r, vec![3; 32]);
    assert_eq!(inputs.proofs.len(), 1);
    assert_eq!(inputs.prover_id[0], 0xe8);
}

#[test]
fn window_post_prepare_rejects_mixed_proof_types() {
    let info = WindowPoStVerifyInfo {
        randomness: Randomness(vec![0; 32]),
        proofs: vec![
            PoStProof {
                post_proof: RegisteredPoStProof::StackedDrgWindow2KiBV1,
                proof_bytes: vec![],
            },
            PoStProof {
                post_proof: RegisteredPoStProof::StackedDrgWindow8MiBV1,
                proof_bytes: vec![],
            },
        ],
        challenged_sectors: vec![],
        prover: 1,
    };
    let mut k = kernel();
    assert!(matches!(
        k.verify_post_prepare(&info),
        Err(KernelError::Syscall(ErrorNumber::IllegalArgument))
    ));
}

#[test]
fn aggregate_seals_prepare_rejects_empty() {
    let aggregate = AggregateSealVerifyProofAndInfos {
        miner: 1,
        seal_proof: RegisteredSealProof::StackedDrg32GiBV1,
        aggregate_proof: RegisteredAggregateProof::SnarkPackV2,
        proof: vec![],
        infos: vec![],
    };
    let mut k = kernel();
    assert!(matches!(
        k.verify_aggregate_seals_prepare(&aggregate),
        Err(KernelError::Syscall(ErrorNumber::IllegalArgument))
    ));
}

#[test]
fn aggregate_seals_prepare_extracts_commitments() {
    let sealed = Cid {
        version: 1,
        codec: FIL_COMMITMENT_SEALED,
        hash_code: POSEIDON_BLS12_381_A2_FC1,
        hash: vec![6; 32],
    };
    let aggregate = AggregateSealVerifyProofAndInfos {
        miner: 1000,
        seal_proof: RegisteredSealProof::StackedDrg32GiBV1,
        aggregate_proof: RegisteredAggregateProof::SnarkPackV2,
        proof: vec![0xbb],
        infos: vec![AggregateSealVerifyInfo {
            sector_number: 12,
            randomness: Randomness(vec![1; 32]),
            interactive_randomness: Randomness(vec![2; 32]),
            sealed_cid: sealed,
            unsealed_cid: piece_cid([5; 32]),
        }],
    };
    let mut k = kernel();
    let inputs = k.verify_aggregate_seals_prepare(&aggregate).unwrap();
    assert_eq!(inputs.inputs.len(), 1);
    assert_eq!(inputs.inputs[0].comm_r, vec![6; 32]);
    assert_eq!(inputs.inputs[0].comm_d, vec![5; 32]);
    assert_eq!(inputs.inputs[0].sector_number, 12);
    assert_eq!(inputs.inputs[0].ticket, vec![1; 32]);
}

#[test]
fn replica_update_prepare_extracts_commitments() {
    let old_sealed = Cid {
        version: 1,
        codec: FIL_COMMITMENT_SEALED,
        hash_code: POSEIDON_BLS12_381_A2_FC1,
        hash: vec![1; 32],
    };
    let new_sealed = Cid {
        version: 1,
        codec: FIL_COMMITMENT_SEALED,
        hash_code: POSEIDON_BLS12_381_A2_FC1,
        hash: vec![2; 32],
    };
    let replica = ReplicaUpdateInfo {
        update_proof_type: RegisteredUpdateProof::StackedDrg32GiBV1,
        old_sealed_cid: old_sealed,
        new_sealed_cid: new_sealed,
        new_unsealed_cid: piece_cid([3; 32]),
        proof: vec![0xcc],
    };
    let mut k = kernel();
    let inputs = k.verify_replica_update_prepare(&replica).unwrap();
    assert_eq!(inputs.comm_r_old, vec![1; 32]);
    assert_eq!(inputs.comm_r_new, vec![2; 32]);
    assert_eq!(inputs.comm_d, vec![3; 32]);
}

#[test]
fn kernel_layout_charges_and_computes() {
    let mut k = kernel();
    let before = k.gas_used();
    let pieces = vec![PieceInfo { size: PaddedPieceSize(512), cid: piece_cid([9; 32]) }];
    let out = k
        .compute_unsealed_sector_pieces(RegisteredSealProof::StackedDrg2KiBV1, &pieces)
        .unwrap();
    assert_eq!(k.gas_used(), before + price_list().on_compute_unsealed_sector_cid);
    let total: u64 = out.iter().map(|p| p.size.0).sum();
    assert_eq!(total, 2048);
}

#[test]
fn post_records_hold_their_fields() {
    let winning = WinningPoStVerifyInfo {
        randomness: Randomness(vec![0; 32]),
        proofs: vec![PoStProof {
            post_proof: RegisteredPoStProof::StackedDrgWinning2KiBV1,
            proof_bytes: vec![7],
        }],
        challenge_sectors: vec![SectorInfo {
            proof: RegisteredSealProof::StackedDrg2KiBV1,
            sector_number: 3,
            sealed_cid: piece_cid([1; 32]),
        }],
        prover: 9,
    };
    assert_eq!(winning.proofs[0].proof_bytes, vec![7]);
    assert_eq!(winning.challenge_sectors[0].sector_number, 3);
    let on_chain = OnChainWindowPoStVerifyInfo { proofs: winning.proofs };
    assert_eq!(on_chain.proofs.len(), 1);
}
