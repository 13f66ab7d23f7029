//! Context, randomness, actor and debugging scenarios.

use fvm_kernel::address::Address;
use fvm_kernel::blocks::BlockRegistry;
use fvm_kernel::call_manager::{
    AddressBinding, BuiltinActor, CallManager, MachineContext, NetworkConfig, INIT_ACTOR_ID,
};
use fvm_kernel::cid::Cid;
use fvm_kernel::error::{ErrorNumber, KernelError};
use fvm_kernel::externs::{ConsensusFault, ConsensusFaultType, FaultVerdict, RandEntry, TipsetEntry};
use fvm_kernel::gas::PriceList;
use fvm_kernel::kernel::DefaultKernel;
use fvm_kernel::state_tree::ActorState;
use fvm_kernel::validation::{
    validate_immediate_caller_accept_any, validate_immediate_caller_addr_one_of,
    validate_immediate_caller_type_one_of,
};

fn price_list() -> PriceList {
    PriceList {
        on_get_root: 2,
        on_set_root: 2,
        on_self_balance: 1,
        on_delete_actor: 3,
        on_block_open_base: 10,
        on_block_open_per_byte: 1,
        on_block_open_per_link: 5,
        on_block_create_base: 7,
        on_block_create_per_byte: 1,
        on_block_create_per_link: 5,
        on_block_link_base: 11,
        on_block_link_per_byte: 1,
        on_block_read_base: 4,
        on_block_read_per_byte: 1,
        on_block_stat: 1,
        on_ipld_link: 6,
        on_message_context: 1,
        on_network_context: 1,
        on_tipset_cid_base: 3,
        on_tipset_cid_per_epoch: 1,
        on_get_randomness_base: 3,
        on_get_randomness_per_epoch: 1,
        on_verify_aggregate_signature_base: 5,
        on_verify_aggregate_signature_per_signer: 2,
        on_verify_aggregate_signature_per_byte: 1,
        on_recover_secp_public_key: 9,
        on_hashing_base: 2,
        on_hashing_per_byte: 1,
        on_compute_unsealed_sector_cid: 8,
        on_verify_post: 8,
        on_verify_consensus_fault: 8,
        on_verify_seal: 8,
        on_verify_aggregate_seals: 8,
        on_verify_replica_update: 8,
        on_resolve_address: 2,
        on_get_actor_code_cid: 2,
        on_create_actor: 4,
        on_actor_event_base: 3,
        on_actor_event_per_entry: 1,
        on_actor_event_per_byte: 1,
        on_get_builtin_actor_type: 1,
        on_get_code_cid_for_type: 1,
        on_balance_of: 1,
        on_lookup_delegated_address: 1,
    }
}

const CALLER: u64 = 100;
const RECEIVER: u64 = 101;

fn kernel_as(caller: u64, receiver: u64) -> DefaultKernel {
    let context = MachineContext {
        epoch: 100,
        timestamp: 1_700_000_000,
        base_fee: 55,
        circ_supply: 2_000_000_000,
        max_block_size: 1 << 20,
        network: NetworkConfig { chain_id: 314, network_version: 21, actor_debugging: true },
    };
    let mut cm = CallManager::new(context, price_list(), 1_000_000_000);
    cm.origin = 42;
    cm.nonce = 9;
    cm.gas_premium = 3;
    DefaultKernel::new(cm, BlockRegistry::new(), caller, receiver, 77, 1234, false)
}

fn kernel() -> DefaultKernel {
    kernel_as(CALLER, RECEIVER)
}

fn cid(bytes: [u8; 32]) -> Cid {
    Cid { version: 1, codec: 0x55, hash_code: 0x12, hash: bytes.to_vec() }
}

#[test]
fn msg_context_reports_call_fields() {
    let mut k = kernel();
    let ctx = k.msg_context().unwrap();
    assert_eq!(ctx.caller, CALLER);
    assert_eq!(ctx.receiver, RECEIVER);
    assert_eq!(ctx.origin, 42);
    assert_eq!(ctx.method_number, 77);
    assert_eq!(ctx.value_received, 1234);
    assert_eq!(ctx.gas_premium, 3);
    assert_eq!(ctx.nonce, 9);
    assert!(!ctx.read_only);
}

#[test]
fn network_context_reports_machine_fields() {
    let mut k = kernel();
    let ctx = k.network_context().unwrap();
    assert_eq!(ctx.chain_id, 314);
    assert_eq!(ctx.epoch, 100);
    assert_eq!(ctx.network_version, 21);
    assert_eq!(ctx.timestamp, 1_700_000_000);
    assert_eq!(ctx.base_fee, 55);
}

#[test]
fn circ_supply_is_static() {
    let k = kernel();
    assert_eq!(k.total_fil_circ_supply(), 2_000_000_000);
}

#[test]
fn tipset_cid_of_past_epoch() {
    let mut k = kernel();
    k.call_manager.externs.tipsets.push(TipsetEntry { epoch: 90, cid: cid([6; 32]) });
    let c = k.tipset_cid(90).unwrap();
    assert_eq!(c.hash, vec![6; 32]);
}

#[test]
fn tipset_cid_rejects_bad_epochs() {
    let mut k = kernel();
    assert_eq!(
        k.tipset_cid(-1),
        Err(KernelError::Syscall(ErrorNumber::IllegalArgument))
    );
    assert_eq!(
        k.tipset_cid(100),
        Err(KernelError::Syscall(ErrorNumber::IllegalArgument))
    );
    assert_eq!(
        k.tipset_cid(101),
        Err(KernelError::Syscall(ErrorNumber::IllegalArgument))
    );
}

#[test]
fn tipset_cid_missing_entry_is_fatal() {
    let mut k = kernel();
    assert_eq!(k.tipset_cid(90), Err(KernelError::Fatal));
}

#[test]
fn randomness_from_tickets() {
    let mut k = kernel();
    k.call_manager.externs.chain_rand.push(RandEntry { epoch: 95, value: vec![8; 32] });
    let v = k.get_randomness_from_tickets(95).unwrap();
    assert_eq!(v, vec![8; 32]);
}

#[test]
fn randomness_future_epoch_rejected() {
    let mut k = kernel();
    assert_eq!(
        k.get_randomness_from_tickets(101),
        Err(KernelError::Syscall(ErrorNumber::IllegalArgument))
    );
}

#[test]
fn randomness_extern_miss_is_illegal_argument() {
    let mut k = kernel();
    assert_eq!(
        k.get_randomness_from_beacon(95),
        Err(KernelError::Syscall(ErrorNumber::IllegalArgument))
    );
}

#[test]
fn randomness_from_beacon() {
    let mut k = kernel();
    k.call_manager.externs.beacon_rand.push(RandEntry { epoch: 80, value: vec![4; 32] });
    let v = k.get_randomness_from_beacon(80).unwrap();
    assert_eq!(v, vec![4; 32]);
}

#[test]
fn consensus_fault_verdicts_consumed_in_order() {
    let mut k = kernel();
    let fault = ConsensusFault {
        target: 7,
        epoch: 50,
        fault_type: ConsensusFaultType::DoubleForkMining,
    };
    k.call_manager.externs.fault_verdicts.push(FaultVerdict::Checked(Some(fault)));
    k.call_manager.externs.fault_verdicts.push(FaultVerdict::Checked(None));
    k.call_manager.externs.fault_verdicts.push(FaultVerdict::Invalid);
    assert_eq!(k.verify_consensus_fault(b"h1", b"h2", b"").unwrap(), Some(fault));
    assert_eq!(k.verify_consensus_fault(b"h1", b"h2", b"").unwrap(), None);
    assert_eq!(
        k.verify_consensus_fault(b"h1", b"h2", b""),
        Err(KernelError::Syscall(ErrorNumber::IllegalArgument))
    );
}

#[test]
fn resolve_address_through_bindings() {
    let mut k = kernel();
    let addr = Address { protocol: 1, payload: vec![0xaa; 20] };
    k.call_manager.address_bindings.push(AddressBinding { address: addr, id: 4242 });
    let probe = Address { protocol: 1, payload: vec![0xaa; 20] };
    assert_eq!(k.resolve_address(&probe).unwrap(), 4242);
    let unknown = Address { protocol: 1, payload: vec![0xbb; 20] };
    assert_eq!(
        k.resolve_address(&unknown),
        Err(KernelError::Syscall(ErrorNumber::NotFound))
    );
}

#[test]
fn actor_code_balance_and_delegated_lookup() {
    let mut k = kernel();
    let delegated = Address { protocol: 4, payload: vec![1, 2, 3] };
    let st = ActorState::new(cid([1; 32]), cid([2; 32]), 900, 0, Some(delegated));
    k.call_manager.state_tree.set_actor(500, st);
    assert_eq!(k.get_actor_code_cid(500).unwrap().hash, vec![1; 32]);
    assert_eq!(k.balance_of(500).unwrap(), 900);
    assert_eq!(k.lookup_delegated_address(500).unwrap().unwrap().payload, vec![1, 2, 3]);
    assert_eq!(
        k.get_actor_code_cid(501),
        Err(KernelError::Syscall(ErrorNumber::NotFound))
    );
    assert_eq!(k.balance_of(501), Err(KernelError::Syscall(ErrorNumber::NotFound)));
    assert_eq!(
        k.lookup_delegated_address(501),
        Err(KernelError::Syscall(ErrorNumber::NotFound))
    );
}

#[test]
fn create_actor_restricted_to_init() {
    let mut k = kernel();
    assert_eq!(
        k.create_actor(cid([1; 32]), 777, None),
        Err(KernelError::Syscall(ErrorNumber::Forbidden))
    );
}

#[test]
fn create_actor_from_init() {
    let mut k = kernel_as(1, INIT_ACTOR_ID);
    assert!(k.create_actor(cid([1; 32]), 777, None).is_ok());
    let created = k.call_manager.state_tree.get_actor(777).unwrap();
    assert_eq!(created.code.hash, vec![1; 32]);
    assert_eq!(created.balance, 0);
    assert_eq!(created.sequence, 0);
}

#[test]
fn builtin_actor_registry_lookups() {
    let mut k = kernel();
    k.call_manager.builtin_actors.push(BuiltinActor { id: 4, code: cid([9; 32]) });
    assert_eq!(k.get_builtin_actor_type(&cid([9; 32])).unwrap(), 4);
    // An unknown code is type zero, not an error.
    assert_eq!(k.get_builtin_actor_type(&cid([8; 32])).unwrap(), 0);
    assert_eq!(k.get_code_cid_for_type(4).unwrap().hash, vec![9; 32]);
    assert_eq!(
        k.get_code_cid_for_type(5),
        Err(KernelError::Syscall(ErrorNumber::IllegalArgument))
    );
}

#[test]
fn gas_accounting_is_monotone() {
    let mut k = kernel();
    let used0 = k.gas_used();
    k.charge_gas("step-one", 100).unwrap();
    let used1 = k.gas_used();
    assert_eq!(used1, used0 + 100);
    let _ = k.msg_context();
    assert!(k.gas_used() >= used1);
    assert_eq!(k.gas_available(), 1_000_000_000 - k.gas_used());
}

#[test]
fn debug_enabled_reflects_config() {
    let k = kernel();
    assert!(k.debug_enabled());
}

#[test]
fn store_artifact_records_named_artifact() {
    let mut k = kernel();
    assert!(k.store_artifact(b"trace.bin", &[1, 2, 3]).is_ok());
    assert_eq!(k.call_manager.artifacts.len(), 1);
    assert_eq!(k.call_manager.artifacts[0].name, b"trace.bin".to_vec());
    assert_eq!(k.call_manager.artifacts[0].data, vec![1, 2, 3]);
}

#[test]
fn store_artifact_rejects_bad_names() {
    let mut k = kernel();
    let bad = Err(KernelError::Syscall(ErrorNumber::IllegalArgument));
    assert_eq!(k.store_artifact(b"", &[]), bad);
    assert_eq!(k.store_artifact(b".hidden", &[]), bad);
    assert_eq!(k.store_artifact(b"a/b", &[]), bad);
    assert_eq!(k.store_artifact(&[b'a'; 257], &[]), bad);
    assert_eq!(k.store_artifact(&[0xff, 0xfe], &[]), bad);
    assert_eq!(k.call_manager.artifacts.len(), 0);
}

#[test]
fn caller_validation_accept_any() {
    let mut k = kernel();
    assert!(validate_immediate_caller_accept_any(&mut k).is_ok());
}

#[test]
fn caller_validation_by_address() {
    let mut k = kernel();
    let addr = Address { protocol: 1, payload: vec![0xcc; 20] };
    k.call_manager.address_bindings.push(AddressBinding { address: addr, id: CALLER });
    let good = Address { protocol: 1, payload: vec![0xcc; 20] };
    let bad = Address { protocol: 1, payload: vec![0xdd; 20] };
    assert!(validate_immediate_caller_addr_one_of(&k, &[good]).is_ok());
    assert_eq!(
        validate_immediate_caller_addr_one_of(&k, &[bad]),
        Err(KernelError::Syscall(ErrorNumber::Forbidden))
    );
}

#[test]
fn caller_validation_by_type() {
    let mut k = kernel();
    let st = ActorState::new(cid([7; 32]), cid([2; 32]), 0, 0, None);
    k.call_manager.state_tree.set_actor(CALLER, st);
    assert!(validate_immediate_caller_type_one_of(&k, &[cid([7; 32])]).is_ok());
    assert_eq!(
        validate_immediate_caller_type_one_of(&k, &[cid([6; 32])]),
        Err(KernelError::Syscall(ErrorNumber::Forbidden))
    );
}

#[test]
fn next_actor_address_is_preset() {
    let mut k = kernel();
    k.call_manager.next_address = Address { protocol: 2, payload: vec![5; 20] };
    let a = k.next_actor_address();
    assert_eq!(a.protocol, 2);
    assert_eq!(a.payload, vec![5; 20]);
}

#[test]
fn resolve_id_address_decodes_directly() {
    let mut k = kernel();
    // An ID address resolves to its own actor ID without any binding.
    let addr = Address::new_id(123456789);
    assert_eq!(k.resolve_address(&addr).unwrap(), 123456789);
}

#[test]
fn caller_validation_accepts_caller_id_address() {
    let k = kernel();
    assert!(validate_immediate_caller_addr_one_of(&k, &[Address::new_id(CALLER)]).is_ok());
    assert_eq!(
        validate_immediate_caller_addr_one_of(&k, &[Address::new_id(CALLER + 1)]),
        Err(KernelError::Syscall(ErrorNumber::Forbidden))
    );
}

#[test]
fn consensus_fault_records_queries() {
    let mut k = kernel();
    k.call_manager.externs.fault_verdicts.push(FaultVerdict::Checked(None));
    k.verify_consensus_fault(b"first", b"second", b"extra").unwrap();
    assert_eq!(k.call_manager.externs.fault_queries.len(), 1);
    let q = &k.call_manager.externs.fault_queries[0];
    assert_eq!(q.h1, b"first".to_vec());
    assert_eq!(q.h2, b"second".to_vec());
    assert_eq!(q.extra, b"extra".to_vec());
}
