//! End-to-end scenarios for the kernel's block, send, upgrade and event
//! operations.

use fvm_kernel::blocks::{BlockRegistry, NO_DATA_BLOCK_ID};
use fvm_kernel::call_manager::{
    CallManager, EntryKind, Frame, MachineContext, NetworkConfig, ScriptedOutcome,
};
use fvm_kernel::cid::{Cid, BLAKE2B_256};
use fvm_kernel::error::{ErrorNumber, KernelError};
use fvm_kernel::event::EventEntry;
use fvm_kernel::gas::PriceList;
use fvm_kernel::kernel::{DefaultKernel, SendFlags};
use fvm_kernel::state_tree::ActorState;

fn price_list() -> PriceList {
    PriceList {
        on_get_root: 2,
        on_set_root: 2,
        on_self_balance: 1,
        on_delete_actor: 3,
        on_block_open_base: 10,
        on_block_open_per_byte: 1,
        on_block_open_per_link: 5,
        on_block_create_base: 7,
        on_block_create_per_byte: 1,
        on_block_create_per_link: 5,
        on_block_link_base: 11,
        on_block_link_per_byte: 1,
        on_block_read_base: 4,
        on_block_read_per_byte: 1,
        on_block_stat: 1,
        on_ipld_link: 6,
        on_message_context: 1,
        on_network_context: 1,
        on_tipset_cid_base: 3,
        on_tipset_cid_per_epoch: 1,
        on_get_randomness_base: 3,
        on_get_randomness_per_epoch: 1,
        on_verify_aggregate_signature_base: 5,
        on_verify_aggregate_signature_per_signer: 2,
        on_verify_aggregate_signature_per_byte: 1,
        on_recover_secp_public_key: 9,
        on_hashing_base: 2,
        on_hashing_per_byte: 1,
        on_compute_unsealed_sector_cid: 8,
        on_verify_post: 8,
        on_verify_consensus_fault: 8,
        on_verify_seal: 8,
        on_verify_aggregate_seals: 8,
        on_verify_replica_update: 8,
        on_resolve_address: 2,
        on_get_actor_code_cid: 2,
        on_create_actor: 4,
        on_actor_event_base: 3,
        on_actor_event_per_entry: 1,
        on_actor_event_per_byte: 1,
        on_get_builtin_actor_type: 1,
        on_get_code_cid_for_type: 1,
        on_balance_of: 1,
        on_lookup_delegated_address: 1,
    }
}

fn machine_context() -> MachineContext {
    MachineContext {
        epoch: 100,
        timestamp: 1_700_000_000,
        base_fee: 100,
        circ_supply: 2_000_000_000,
        max_block_size: 1 << 20,
        network: NetworkConfig { chain_id: 314, network_version: 21, actor_debugging: true },
    }
}

const CALLER: u64 = 100;
const RECEIVER: u64 = 101;

fn kernel(read_only: bool) -> DefaultKernel {
    let cm = CallManager::new(machine_context(), price_list(), 1_000_000_000);
    DefaultKernel::new(cm, BlockRegistry::new(), CALLER, RECEIVER, 1, 0, read_only)
}

fn cid(codec: u64, hash_code: u64, hash: Vec<u8>) -> Cid {
    Cid { version: 1, codec, hash_code, hash }
}

fn receiver_state() -> ActorState {
    ActorState::new(
        cid(0x55, 0x12, vec![1; 32]),
        cid(0x71, BLAKE2B_256, vec![2; 32]),
        500,
        7,
        None,
    )
}

/// A dag-cbor block holding exactly one link to the given CIDv1
/// (sha2-256, 32-byte digest) CID.
fn dag_cbor_link(hash: &[u8; 32]) -> Vec<u8> {
    let mut data = vec![0xd8, 0x2a, 0x58, 0x25, 0x00, 0x01, 0x71, 0x12, 0x20];
    data.extend_from_slice(hash);
    data
}

#[test]
fn read_only_send_blocks_value_transfer() {
    let mut k = kernel(true);
    let recipient = fvm_kernel::address::Address::new_id(1);
    let r = k.send(&recipient, 1, NO_DATA_BLOCK_ID, 1, None, SendFlags(0));
    assert_eq!(r, Err(KernelError::Syscall(ErrorNumber::ReadOnly)));
    assert_eq!(k.call_manager.calls.len(), 0);
}

#[test]
fn send_records_read_only_propagation() {
    let mut k = kernel(true);
    let recipient = fvm_kernel::address::Address::new_id(1);
    let r = k.send(&recipient, 7, NO_DATA_BLOCK_ID, 0, None, SendFlags(0));
    assert!(r.is_ok());
    assert_eq!(k.call_manager.calls.len(), 1);
    assert!(k.call_manager.calls[0].read_only);
}

#[test]
fn send_returns_scripted_block() {
    let mut k = kernel(false);
    k.call_manager.engine_script.push(ScriptedOutcome {
        gas: 25,
        exit_code: 0,
        value: Some(fvm_kernel::blocks::Block::new(0x55, vec![9, 9, 9], Vec::new())),
    });
    let gas_before = k.gas_used();
    let recipient = fvm_kernel::address::Address::new_id(1);
    let r = k.send(&recipient, 7, NO_DATA_BLOCK_ID, 0, None, SendFlags(0)).unwrap();
    assert_eq!(r.exit_code, 0);
    assert_eq!(r.block_id, 1);
    assert_eq!(r.block_stat.codec, 0x55);
    assert_eq!(r.block_stat.size, 3);
    assert!(k.gas_used() >= gas_before + 25);
}

#[test]
fn block_create_rejects_unreachable_children() {
    let mut k = kernel(false);
    let data = dag_cbor_link(&[0xab; 32]);
    let r = k.block_create(0x71, &data);
    assert_eq!(r, Err(KernelError::Syscall(ErrorNumber::NotFound)));
}

#[test]
fn block_create_accepts_reachable_children() {
    let mut k = kernel(false);
    let child = cid(0x71, 0x12, vec![0xab; 32]);
    k.blocks.mark_reachable(&child);
    let data = dag_cbor_link(&[0xab; 32]);
    let id = k.block_create(0x71, &data).unwrap();
    assert_eq!(id, 1);
}

#[test]
fn block_open_of_unreachable_cid() {
    let mut k = kernel(false);
    let missing = cid(0x71, BLAKE2B_256, vec![3; 32]);
    let r = k.block_open(&missing);
    assert_eq!(r, Err(KernelError::Syscall(ErrorNumber::NotFound)));
    // The base cost was charged; the finalize cost was not.
    assert_eq!(k.gas_used(), price_list().on_block_open_base);
}

#[test]
fn block_link_round_trip() {
    let mut k = kernel(false);
    let bytes = vec![5u8, 6, 7, 8];
    let id = k.block_create(0x55, &bytes).unwrap();
    let linked = k.block_link(id, BLAKE2B_256, 32).unwrap();
    assert_eq!(linked.codec, 0x55);
    assert_eq!(linked.hash_code, BLAKE2B_256);
    assert_eq!(linked.hash.len(), 32);
    // The digest is a real hash, not the input handed back.
    assert_ne!(linked.hash, bytes);
    let (handle, stat) = k.block_open(&linked).unwrap();
    assert_eq!(stat.codec, 0x55);
    assert_eq!(stat.size, bytes.len() as u32);
    let mut buf = vec![0u8; 4];
    let rest = k.block_read(handle, 0, &mut buf).unwrap();
    assert_eq!(rest, 0);
    assert_eq!(buf, bytes);
}

#[test]
fn block_link_rejects_other_hashes() {
    let mut k = kernel(false);
    let id = k.block_create(0x55, &[1, 2, 3]).unwrap();
    assert_eq!(
        k.block_link(id, 0x12, 32),
        Err(KernelError::Syscall(ErrorNumber::IllegalCid))
    );
    assert_eq!(
        k.block_link(id, BLAKE2B_256, 20),
        Err(KernelError::Syscall(ErrorNumber::IllegalCid))
    );
}

#[test]
fn block_read_past_end() {
    let mut k = kernel(false);
    let id = k.block_create(0x55, &[7u8; 10]).unwrap();
    let mut buf = vec![0xee; 4];
    let r = k.block_read(id, 20, &mut buf).unwrap();
    assert_eq!(r, 10 - 24);
    assert_eq!(buf, vec![0xee; 4]);
}

#[test]
fn block_read_partial_window() {
    let mut k = kernel(false);
    let id = k.block_create(0x55, &[1, 2, 3, 4, 5, 6, 7, 8, 9, 10]).unwrap();
    let mut buf = vec![0u8; 4];
    let r = k.block_read(id, 8, &mut buf).unwrap();
    assert_eq!(r, 10 - 12);
    assert_eq!(buf, vec![9, 10, 0, 0]);
}

#[test]
fn block_read_window_overflow() {
    let mut k = kernel(false);
    let id = k.block_create(0x55, &[1, 2, 3]).unwrap();
    let mut buf = vec![0u8; 4];
    let r = k.block_read(id, u32::MAX, &mut buf);
    assert_eq!(r, Err(KernelError::Syscall(ErrorNumber::IllegalArgument)));
}

#[test]
fn block_create_rejects_unknown_codec() {
    let mut k = kernel(false);
    assert_eq!(
        k.block_create(0x99, &[1, 2, 3]),
        Err(KernelError::Syscall(ErrorNumber::IllegalCodec))
    );
}

#[test]
fn block_create_rejects_oversized_block() {
    let mut k = kernel(false);
    let data = vec![0u8; (1 << 20) + 1];
    assert_eq!(
        k.block_create(0x55, &data),
        Err(KernelError::Syscall(ErrorNumber::LimitExceeded))
    );
}

#[test]
fn block_create_rejects_malformed_dag_cbor() {
    let mut k = kernel(false);
    // A truncated array head: claims two items, holds none.
    let r = k.block_create(0x71, &[0x82]);
    assert_eq!(r, Err(KernelError::Syscall(ErrorNumber::Serialization)));
}

#[test]
fn block_stat_reports_codec_and_size() {
    let mut k = kernel(false);
    let id = k.block_create(0x55, &[1, 2, 3, 4, 5]).unwrap();
    let stat = k.block_stat(id).unwrap();
    assert_eq!(stat.codec, 0x55);
    assert_eq!(stat.size, 5);
}

#[test]
fn set_root_requires_reachability() {
    let mut k = kernel(false);
    k.call_manager.state_tree.set_actor(RECEIVER, receiver_state());
    let unseen = cid(0x71, BLAKE2B_256, vec![9; 32]);
    assert_eq!(
        k.set_root(unseen),
        Err(KernelError::Syscall(ErrorNumber::NotFound))
    );
}

#[test]
fn root_then_set_root_round_trip() {
    let mut k = kernel(false);
    k.call_manager.state_tree.set_actor(RECEIVER, receiver_state());
    let root = k.root().unwrap();
    assert_eq!(root.hash, vec![2; 32]);
    // The root it returned is reachable, so it can be set back.
    assert!(k.set_root(root).is_ok());
}

#[test]
fn set_root_read_only() {
    let mut k = kernel(true);
    let c = cid(0x71, BLAKE2B_256, vec![2; 32]);
    assert_eq!(k.set_root(c), Err(KernelError::Syscall(ErrorNumber::ReadOnly)));
}

#[test]
fn root_after_deletion_is_illegal_operation() {
    let mut k = kernel(false);
    assert_eq!(k.root(), Err(KernelError::Syscall(ErrorNumber::IllegalOperation)));
}

#[test]
fn self_destruct_with_unspent_funds() {
    let mut k = kernel(false);
    k.call_manager.state_tree.set_actor(RECEIVER, receiver_state());
    assert_eq!(
        k.self_destruct(false),
        Err(KernelError::Syscall(ErrorNumber::IllegalOperation))
    );
    // The actor survives a refused self-destruct.
    assert!(k.get_self().is_some());
}

#[test]
fn self_destruct_burns_residue() {
    let mut k = kernel(false);
    k.call_manager.state_tree.set_actor(RECEIVER, receiver_state());
    let burnt = ActorState::new(cid(0x55, 0x12, vec![4; 32]), cid(0x55, 0x12, vec![5; 32]), 0, 0, None);
    k.call_manager
        .state_tree
        .set_actor(fvm_kernel::call_manager::BURNT_FUNDS_ACTOR_ID, burnt);
    assert!(k.self_destruct(true).is_ok());
    assert!(k.get_self().is_none());
    let burnt_after = k
        .call_manager
        .state_tree
        .get_actor(fvm_kernel::call_manager::BURNT_FUNDS_ACTOR_ID)
        .unwrap();
    assert_eq!(burnt_after.balance, 500);
}

#[test]
fn upgrade_forbidden_under_unrelated_reentry() {
    let mut k = kernel(false);
    k.call_manager.state_tree.set_actor(RECEIVER, receiver_state());
    k.call_manager.call_stack.push(Frame { actor: RECEIVER, entry: EntryKind::Invoke });
    k.call_manager.call_stack.push(Frame { actor: 55, entry: EntryKind::Invoke });
    k.call_manager.call_stack.push(Frame { actor: RECEIVER, entry: EntryKind::Invoke });
    let new_code = cid(0x55, 0x12, vec![8; 32]);
    assert_eq!(
        k.upgrade_actor(new_code, NO_DATA_BLOCK_ID),
        Err(KernelError::Syscall(ErrorNumber::Forbidden))
    );
}

#[test]
fn upgrade_permitted_for_recursive_upgrade_chain() {
    let mut k = kernel(false);
    k.call_manager.state_tree.set_actor(RECEIVER, receiver_state());
    k.call_manager.call_stack.push(Frame { actor: 55, entry: EntryKind::Invoke });
    k.call_manager.call_stack.push(Frame { actor: RECEIVER, entry: EntryKind::Invoke });
    k.call_manager.call_stack.push(Frame { actor: RECEIVER, entry: EntryKind::Upgrade });
    let new_code = cid(0x55, 0x12, vec![8; 32]);
    let r = k.upgrade_actor(new_code, NO_DATA_BLOCK_ID).unwrap();
    assert_eq!(r.exit_code, 0);
    // The code swap committed and cleared the delegated address.
    let st = k.call_manager.state_tree.get_actor(RECEIVER).unwrap();
    assert_eq!(st.code.hash, vec![8; 32]);
    assert!(st.delegated_address.is_none());
    // The upgrade entrypoint ran as the original caller, not read-only,
    // with no value.
    let call = &k.call_manager.calls[0];
    assert_eq!(call.from, CALLER);
    assert!(!call.read_only);
    assert_eq!(call.value, 0);
}

#[test]
fn upgrade_read_only_refused() {
    let mut k = kernel(true);
    let new_code = cid(0x55, 0x12, vec![8; 32]);
    assert_eq!(
        k.upgrade_actor(new_code, NO_DATA_BLOCK_ID),
        Err(KernelError::Syscall(ErrorNumber::ReadOnly))
    );
}

#[test]
fn upgrade_rolls_back_on_failed_call() {
    let mut k = kernel(false);
    k.call_manager.state_tree.set_actor(RECEIVER, receiver_state());
    // The child consumes more gas than remains: the call fails and the
    // code swap must roll back.
    k.call_manager.engine_script.push(ScriptedOutcome {
        gas: u64::MAX,
        exit_code: 0,
        value: None,
    });
    let new_code = cid(0x55, 0x12, vec![8; 32]);
    let r = k.upgrade_actor(new_code, NO_DATA_BLOCK_ID);
    assert_eq!(r, Err(KernelError::OutOfGas));
    let st = k.call_manager.state_tree.get_actor(RECEIVER).unwrap();
    assert_eq!(st.code.hash, vec![1; 32]);
}

fn header(flags: u64, key_len: u32, val_len: u32) -> EventEntry {
    EventEntry { flags, codec: 0x55, key_len, val_len }
}

#[test]
fn emit_event_appends_stamped_event() {
    let mut k = kernel(false);
    let headers = vec![header(3, 3, 2), header(1, 2, 0)];
    let keys = b"keyok";
    let values = [9u8, 8];
    assert!(k.emit_event(&headers, keys, &values).is_ok());
    assert_eq!(k.call_manager.events.len(), 1);
    let ev = &k.call_manager.events[0];
    assert_eq!(ev.emitter, RECEIVER);
    assert_eq!(ev.entries.len(), 2);
    assert_eq!(ev.entries[0].key, b"key".to_vec());
    assert_eq!(ev.entries[0].value, vec![9, 8]);
    assert_eq!(ev.entries[1].key, b"ok".to_vec());
    assert_eq!(ev.entries[1].value, Vec::<u8>::new());
}

#[test]
fn emit_event_read_only() {
    let mut k = kernel(true);
    let headers = vec![header(1, 1, 0)];
    assert_eq!(
        k.emit_event(&headers, b"a", &[]),
        Err(KernelError::Syscall(ErrorNumber::ReadOnly))
    );
}

#[test]
fn event_limit_too_many_entries() {
    let mut k = kernel(false);
    let headers = vec![header(0, 0, 0); 256];
    assert_eq!(
        k.emit_event(&headers, b"", &[]),
        Err(KernelError::Syscall(ErrorNumber::LimitExceeded))
    );
}

#[test]
fn event_limit_key_too_long() {
    let mut k = kernel(false);
    let mut headers = vec![header(0, 0, 0); 254];
    headers.push(header(0, 32, 0));
    let keys = vec![b'a'; 32];
    assert_eq!(
        k.emit_event(&headers, &keys, &[]),
        Err(KernelError::Syscall(ErrorNumber::LimitExceeded))
    );
}

#[test]
fn event_limit_values_too_large() {
    let mut k = kernel(false);
    let headers = vec![header(0, 0, 8193)];
    let values = vec![0u8; 8193];
    assert_eq!(
        k.emit_event(&headers, b"", &values),
        Err(KernelError::Syscall(ErrorNumber::LimitExceeded))
    );
}

#[test]
fn event_rejects_unknown_flags() {
    let mut k = kernel(false);
    let headers = vec![header(4, 1, 0)];
    assert_eq!(
        k.emit_event(&headers, b"a", &[]),
        Err(KernelError::Syscall(ErrorNumber::IllegalArgument))
    );
}

#[test]
fn event_rejects_non_raw_codec() {
    let mut k = kernel(false);
    let headers = vec![EventEntry { flags: 0, codec: 0x71, key_len: 1, val_len: 0 }];
    assert_eq!(
        k.emit_event(&headers, b"a", &[]),
        Err(KernelError::Syscall(ErrorNumber::IllegalCodec))
    );
}

#[test]
fn event_rejects_invalid_utf8_keys() {
    let mut k = kernel(false);
    let headers = vec![header(0, 2, 0)];
    assert_eq!(
        k.emit_event(&headers, &[0xff, 0xfe], &[]),
        Err(KernelError::Syscall(ErrorNumber::IllegalArgument))
    );
}

#[test]
fn event_requires_exact_exhaustion() {
    let mut k = kernel(false);
    let headers = vec![header(0, 1, 0)];
    assert_eq!(
        k.emit_event(&headers, b"ab", &[]),
        Err(KernelError::Syscall(ErrorNumber::IllegalArgument))
    );
}

#[test]
fn out_of_gas_consumes_whole_budget() {
    let cm = CallManager::new(machine_context(), price_list(), 5);
    let mut k = DefaultKernel::new(cm, BlockRegistry::new(), CALLER, RECEIVER, 1, 0, false);
    let r = k.block_open(&cid(0x55, 0x12, vec![1; 32]));
    assert_eq!(r, Err(KernelError::OutOfGas));
    assert_eq!(k.gas_used(), 5);
    assert_eq!(k.gas_available(), 0);
}

#[test]
fn scan_finds_links_in_nested_structures() {
    let mut k = kernel(false);
    let a = cid(0x71, 0x12, vec![0x11; 32]);
    let b = cid(0x71, 0x12, vec![0x22; 32]);
    k.blocks.mark_reachable(&a);
    k.blocks.mark_reachable(&b);
    // A map { 1: [link_a], 2: link_b }.
    let mut data = vec![0xa2, 0x01, 0x81];
    data.extend_from_slice(&dag_cbor_link(&[0x11; 32]));
    data.push(0x02);
    data.extend_from_slice(&dag_cbor_link(&[0x22; 32]));
    assert!(k.block_create(0x71, &data).is_ok());
}

#[test]
fn scan_rejects_missing_link_in_nested_structure() {
    let mut k = kernel(false);
    let a = cid(0x71, 0x12, vec![0x11; 32]);
    k.blocks.mark_reachable(&a);
    let mut data = vec![0x82];
    data.extend_from_slice(&dag_cbor_link(&[0x11; 32]));
    data.extend_from_slice(&dag_cbor_link(&[0x33; 32]));
    assert_eq!(
        k.block_create(0x71, &data),
        Err(KernelError::Syscall(ErrorNumber::NotFound))
    );
}

#[test]
fn scan_handles_version_zero_links() {
    let mut k = kernel(false);
    // A version 0 CID: an implicit dag-pb sha2-256 multihash.
    let v0 = Cid { version: 0, codec: 0x70, hash_code: 0x12, hash: vec![0x44; 32] };
    k.blocks.mark_reachable(&v0);
    let mut data = vec![0xd8, 0x2a, 0x58, 0x23, 0x00, 0x12, 0x20];
    data.extend_from_slice(&[0x44; 32]);
    assert!(k.block_create(0x71, &data).is_ok());
}

#[test]
fn scan_rejects_indefinite_lengths() {
    let mut k = kernel(false);
    // An indefinite-length array, which dag-cbor forbids.
    assert_eq!(
        k.block_create(0x71, &[0x9f, 0x01, 0xff]),
        Err(KernelError::Syscall(ErrorNumber::Serialization))
    );
}

#[test]
fn scan_rejects_trailing_bytes() {
    let mut k = kernel(false);
    assert_eq!(
        k.block_create(0x71, &[0x01, 0x02]),
        Err(KernelError::Syscall(ErrorNumber::Serialization))
    );
}

#[test]
fn plain_cbor_blocks_carry_no_links() {
    let mut k = kernel(false);
    // Under the plain CBOR codec, tag 42 is not scanned for links, so no
    // reachability check applies.
    let data = dag_cbor_link(&[0x55; 32]);
    assert!(k.block_create(0x51, &data).is_ok());
}

#[test]
fn event_accepts_multibyte_utf8_keys() {
    let mut k = kernel(false);
    // "é" (two bytes) and a four-byte emoji.
    let keys = ["é".as_bytes(), "💡".as_bytes()].concat();
    let headers = vec![header(0, 2, 0), header(0, 4, 0)];
    assert!(k.emit_event(&headers, &keys, &[]).is_ok());
}

#[test]
fn event_rejects_overlong_utf8() {
    let mut k = kernel(false);
    // 0xC0 0x80 is an overlong encoding of NUL.
    let headers = vec![header(0, 2, 0)];
    assert_eq!(
        k.emit_event(&headers, &[0xc0, 0x80], &[]),
        Err(KernelError::Syscall(ErrorNumber::IllegalArgument))
    );
}

#[test]
fn event_rejects_truncated_utf8() {
    let mut k = kernel(false);
    let headers = vec![header(0, 1, 0)];
    assert_eq!(
        k.emit_event(&headers, &[0xc3], &[]),
        Err(KernelError::Syscall(ErrorNumber::IllegalArgument))
    );
}

#[test]
fn send_with_invalid_params_handle() {
    let mut k = kernel(false);
    let recipient = fvm_kernel::address::Address::new_id(1);
    let r = k.send(&recipient, 1, 42, 0, None, SendFlags(0));
    assert_eq!(r, Err(KernelError::Syscall(ErrorNumber::IllegalArgument)));
}

#[test]
fn send_passes_params_block_to_engine() {
    let mut k = kernel(false);
    let params_id = k.block_create(0x55, &[0xde, 0xad]).unwrap();
    let recipient = fvm_kernel::address::Address::new_id(1);
    assert!(k.send(&recipient, 1, params_id, 0, None, SendFlags(0)).is_ok());
    let recorded = k.call_manager.calls[0].params.as_ref().unwrap();
    assert_eq!(recorded.data, vec![0xde, 0xad]);
}

#[test]
fn upgrade_returns_scripted_outcome() {
    let mut k = kernel(false);
    k.call_manager.state_tree.set_actor(RECEIVER, receiver_state());
    k.call_manager.engine_script.push(ScriptedOutcome {
        gas: 11,
        exit_code: 21,
        value: Some(fvm_kernel::blocks::Block::new(0x55, vec![4, 4], Vec::new())),
    });
    let new_code = cid(0x55, 0x12, vec![8; 32]);
    let r = k.upgrade_actor(new_code, NO_DATA_BLOCK_ID).unwrap();
    // The upgrade entrypoint ran: its exit code and return block came back.
    assert_eq!(r.exit_code, 21);
    assert_eq!(r.block_id, 1);
    assert_eq!(r.block_stat.codec, 0x55);
    assert_eq!(r.block_stat.size, 2);
    assert_eq!(k.call_manager.calls.len(), 1);
}
