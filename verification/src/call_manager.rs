//! The call manager: the cross-actor machinery one kernel borrows for the
//! duration of its invocation.
//!
//! It owns the gas tracker, the state tree, the block store, the chain
//! externs, the ancestor call stack and the event log. Cross-actor calls are
//! synchronous re-entrant calls through the execution engine; the engine is
//! out of scope here, so its outcomes (exit code, optional return block, gas
//! consumed by the child) are supplied by the embedder as a queue consumed
//! in call order, and every call is recorded. The kernel's behaviour is
//! thereby verified for every possible sequence of child outcomes.

use vstd::prelude::*;

use crate::address::{Address, AddressView};
use crate::blocks::{Block, BlockView};
use crate::cid::{Cid, CidView};
use crate::error::{KernelError, SyscallResult};
use crate::event::StampedEvent;
use crate::externs::Externs;
use crate::gas::{GasTracker, PriceList};
use crate::state_tree::{ActorState, ActorStateView, StateTree};
use crate::store::BlockStore;

verus! {

/// The well-known ID of the Init actor, the only actor allowed to create
/// others.
pub const INIT_ACTOR_ID: u64 = 1;

/// The well-known ID of the burnt-funds actor.
pub const BURNT_FUNDS_ACTOR_ID: u64 = 99;

/// Network-wide configuration reported to actors.
pub struct NetworkConfig {
    pub chain_id: u64,
    pub network_version: u32,
    pub actor_debugging: bool,
}

/// Per-epoch machine context.
pub struct MachineContext {
    pub epoch: i64,
    pub timestamp: u64,
    pub base_fee: u128,
    pub circ_supply: u128,
    pub max_block_size: usize,
    pub network: NetworkConfig,
}

impl MachineContext {
    /// Epochs are non-negative and blocks fit a 32-bit signed length.
    pub open spec fn wf(self) -> bool {
        self.epoch >= 0 && self.max_block_size <= 0x7fff_ffff
    }
}

/// The entrypoint names recorded in call-stack frames.
#[derive(Clone, Copy, PartialEq, Eq, Structural, Debug)]
pub enum EntryKind {
    Invoke,
    Upgrade,
}

/// One ancestor frame: which actor is executing, and through which
/// entrypoint it was entered.
#[derive(Clone, Copy, PartialEq, Eq, Structural, Debug)]
pub struct Frame {
    pub actor: u64,
    pub entry: EntryKind,
}

/// The entrypoint of a cross-actor call: an ordinary method invocation, or
/// the upgrade entrypoint carrying the old code CID.
pub enum Entrypoint {
    Invoke(u64),
    Upgrade(Cid),
}

/// Mathematical value of an entrypoint.
pub enum EntrypointView {
    Invoke(u64),
    Upgrade(CidView),
}

impl View for Entrypoint {
    type V = EntrypointView;

    open spec fn view(&self) -> EntrypointView {
        match self {
            Entrypoint::Invoke(m) => EntrypointView::Invoke(*m),
            Entrypoint::Upgrade(c) => EntrypointView::Upgrade(c@),
        }
    }
}

/// What a cross-actor call produced: the exit code and an optional return
/// block.
pub struct InvocationResult {
    pub exit_code: u32,
    pub value: Option<Block>,
}

/// One scripted engine outcome: the gas the child consumed, its exit code,
/// and its return block.
pub struct ScriptedOutcome {
    pub gas: u64,
    pub exit_code: u32,
    pub value: Option<Block>,
}

/// A record of one cross-actor call handed to the engine.
pub struct CallRecord {
    pub from: u64,
    pub to: Address,
    pub entrypoint: Entrypoint,
    pub params: Option<Block>,
    pub value: u128,
    pub gas_limit: Option<u64>,
    pub read_only: bool,
}

/// Mathematical value of a call record.
pub struct CallRecordView {
    pub from: u64,
    pub to: AddressView,
    pub entrypoint: EntrypointView,
    pub params: Option<BlockView>,
    pub value: u128,
    pub gas_limit: Option<u64>,
    pub read_only: bool,
}

impl View for CallRecord {
    type V = CallRecordView;

    open spec fn view(&self) -> CallRecordView {
        CallRecordView {
            from: self.from,
            to: self.to@,
            entrypoint: self.entrypoint@,
            params: match &self.params {
                Some(b) => Some(b@),
                None => None,
            },
            value: self.value,
            gas_limit: self.gas_limit,
            read_only: self.read_only,
        }
    }
}

/// A binding of an address to the actor ID it resolves to.
pub struct AddressBinding {
    pub address: Address,
    pub id: u64,
}

/// A registered builtin actor: its type number and its code CID.
pub struct BuiltinActor {
    pub id: u32,
    pub code: Cid,
}

/// A debugging artifact recorded by the kernel.
pub struct Artifact {
    pub name: Vec<u8>,
    pub data: Vec<u8>,
}

/// What an address resolves to: an ID address decodes directly to its own
/// actor ID; any other protocol goes through the bindings the embedder
/// loaded from the state tree.
pub open spec fn spec_resolve_address(bindings: Seq<AddressBinding>, a: AddressView) -> Option<
    u64,
> {
    if a.protocol == crate::address::PROTOCOL_ID {
        match crate::address::spec_varint_value(a.payload) {
            Some(v) => if v <= u64::MAX {
                Some(v as u64)
            } else {
                None
            },
            None => None,
        }
    } else {
        spec_resolve(bindings, a)
    }
}

/// An actor's own ID address always resolves to that actor, whatever the
/// bindings hold: decoding inverts the varint encoding `Address::new_id`
/// writes.
pub proof fn lemma_id_address_resolves(bindings: Seq<AddressBinding>, id: u64)
    ensures
        spec_resolve_address(
            bindings,
            AddressView {
                protocol: crate::address::PROTOCOL_ID,
                payload: crate::address::spec_varint(id as nat),
            },
        ) == Some(id),
{
    crate::address::lemma_varint_roundtrip(id as nat);
}

/// The first actor ID bound to an address.
pub open spec fn spec_resolve(bindings: Seq<AddressBinding>, a: AddressView) -> Option<u64>
    decreases bindings.len(),
{
    if bindings.len() == 0 {
        None
    } else if bindings[0].address@ == a {
        Some(bindings[0].id)
    } else {
        spec_resolve(bindings.drop_first(), a)
    }
}

/// The type number registered for a builtin code CID, or zero.
pub open spec fn spec_builtin_id_by_code(actors: Seq<BuiltinActor>, code: CidView) -> u32
    decreases actors.len(),
{
    if actors.len() == 0 {
        0
    } else if actors[0].code@ == code {
        actors[0].id
    } else {
        spec_builtin_id_by_code(actors.drop_first(), code)
    }
}

/// The code CID registered for a builtin type number.
pub open spec fn spec_builtin_code_by_id(actors: Seq<BuiltinActor>, id: u32) -> Option<CidView>
    decreases actors.len(),
{
    if actors.len() == 0 {
        None
    } else if actors[0].id == id {
        Some(actors[0].code@)
    } else {
        spec_builtin_code_by_id(actors.drop_first(), id)
    }
}

/// The call manager for one call stack.
pub struct CallManager {
    pub context: MachineContext,
    pub price_list: PriceList,
    pub gas: GasTracker,
    pub state_tree: StateTree,
    pub store: BlockStore,
    pub externs: Externs,
    pub call_stack: Vec<Frame>,
    pub events: Vec<StampedEvent>,
    pub calls: Vec<CallRecord>,
    pub engine_script: Vec<ScriptedOutcome>,
    pub engine_next: usize,
    pub address_bindings: Vec<AddressBinding>,
    pub builtin_actors: Vec<BuiltinActor>,
    pub artifacts: Vec<Artifact>,
    pub origin: u64,
    pub nonce: u64,
    pub gas_premium: u128,
    pub next_address: Address,
    pub invocation_count: u64,
}

impl CallManager {
    /// Well-formedness of the whole machinery.
    pub open spec fn inv(self) -> bool {
        &&& self.context.wf()
        &&& self.gas.wf()
        &&& self.state_tree.inv()
        &&& self.store.inv()
        &&& self.externs.inv()
        &&& self.engine_next <= self.engine_script@.len()
        &&& forall|i: int|
            0 <= i < self.engine_script@.len() ==> (match #[trigger] self.engine_script@[i].value {
                Some(b) => b@.wf(),
                None => true,
            })
    }

    /// A fresh call manager over empty machinery.
    pub fn new(context: MachineContext, price_list: PriceList, gas_limit: u64) -> (r: CallManager)
        requires
            context.wf(),
        ensures
            r.inv(),
            r.context == context,
            r.price_list == price_list,
            r.gas.used == 0,
            r.gas.limit == gas_limit,
            r.call_stack@.len() == 0,
            r.events@.len() == 0,
            r.calls@.len() == 0,
            forall|id: u64| r.state_tree.spec_get(id) == None::<ActorStateView>,
            forall|c: CidView| r.store.spec_get(c) == None::<Seq<u8>>,
    {
        CallManager {
            context,
            price_list,
            gas: GasTracker::new(gas_limit),
            state_tree: StateTree::new(),
            store: BlockStore::new(),
            externs: Externs::new(),
            call_stack: Vec::new(),
            events: Vec::new(),
            calls: Vec::new(),
            engine_script: Vec::new(),
            engine_next: 0,
            address_bindings: Vec::new(),
            builtin_actors: Vec::new(),
            artifacts: Vec::new(),
            origin: 0,
            nonce: 0,
            gas_premium: 0,
            next_address: Address { protocol: 0, payload: Vec::new() },
            invocation_count: 0,
        }
    }

    /// Charges gas against the shared tracker.
    pub fn charge_gas(&mut self, amount: u64) -> (r: SyscallResult<()>)
        requires
            old(self).inv(),
        ensures
            final(self).inv(),
            *final(self) == (CallManager { gas: final(self).gas, ..*old(self) }),
            final(self).gas.limit == old(self).gas.limit,
            final(self).gas.used >= old(self).gas.used,
            r is Ok <==> old(self).gas.fits(amount),
            r is Ok ==> final(self).gas.used == old(self).gas.used + amount,
            r is Err ==> r == Err::<(), KernelError>(KernelError::OutOfGas)
                && final(self).gas.used == old(self).gas.limit,
    {
        self.gas.charge(amount)
    }

    /// Resolves an address: an ID address decodes to its own actor ID,
    /// anything else is looked up in the bindings.
    pub fn resolve_address(&self, a: &Address) -> (r: Option<u64>)
        ensures
            r == spec_resolve_address(self.address_bindings@, a@),
    {
        if a.protocol == crate::address::PROTOCOL_ID {
            return crate::address::varint_decode_u64(a.payload.as_slice());
        }
        let n = self.address_bindings.len();
        let mut i: usize = 0;
        proof {
            assert(self.address_bindings@.skip(0) =~= self.address_bindings@);
        }
        while i < n
            invariant
                i <= n == self.address_bindings@.len(),
                a@.protocol != crate::address::PROTOCOL_ID,
                spec_resolve(self.address_bindings@, a@) == spec_resolve(
                    self.address_bindings@.skip(i as int),
                    a@,
                ),
            decreases n - i,
        {
            proof {
                assert(self.address_bindings@.skip(i as int).drop_first()
                    =~= self.address_bindings@.skip(i + 1));
                assert(self.address_bindings@.skip(i as int)[0]
                    == self.address_bindings@[i as int]);
            }
            if self.address_bindings[i].address.eq_address(a) {
                return Some(self.address_bindings[i].id);
            }
            i += 1;
        }
        None
    }

    /// The builtin type number for a code CID; zero when unknown.
    pub fn builtin_id_by_code(&self, code: &Cid) -> (r: u32)
        ensures
            r == spec_builtin_id_by_code(self.builtin_actors@, code@),
    {
        let n = self.builtin_actors.len();
        let mut i: usize = 0;
        proof {
            assert(self.builtin_actors@.skip(0) =~= self.builtin_actors@);
        }
        while i < n
            invariant
                i <= n == self.builtin_actors@.len(),
                spec_builtin_id_by_code(self.builtin_actors@, code@) == spec_builtin_id_by_code(
                    self.builtin_actors@.skip(i as int),
                    code@,
                ),
            decreases n - i,
        {
            proof {
                assert(self.builtin_actors@.skip(i as int).drop_first()
                    =~= self.builtin_actors@.skip(i + 1));
                assert(self.builtin_actors@.skip(i as int)[0] == self.builtin_actors@[i as int]);
            }
            if self.builtin_actors[i].code.eq_cid(code) {
                return self.builtin_actors[i].id;
            }
            i += 1;
        }
        0
    }

    /// The code CID for a builtin type number, if registered.
    pub fn builtin_code_by_id(&self, id: u32) -> (r: Option<Cid>)
        ensures
            match r {
                Some(c) => spec_builtin_code_by_id(self.builtin_actors@, id) == Some(c@),
                None => spec_builtin_code_by_id(self.builtin_actors@, id) == None::<CidView>,
            },
    {
        let n = self.builtin_actors.len();
        let mut i: usize = 0;
        proof {
            assert(self.builtin_actors@.skip(0) =~= self.builtin_actors@);
        }
        while i < n
            invariant
                i <= n == self.builtin_actors@.len(),
                spec_builtin_code_by_id(self.builtin_actors@, id) == spec_builtin_code_by_id(
                    self.builtin_actors@.skip(i as int),
                    id,
                ),
            decreases n - i,
        {
            proof {
                assert(self.builtin_actors@.skip(i as int).drop_first()
                    =~= self.builtin_actors@.skip(i + 1));
                assert(self.builtin_actors@.skip(i as int)[0] == self.builtin_actors@[i as int]);
            }
            if self.builtin_actors[i].id == id {
                return Some(self.builtin_actors[i].code.duplicate());
            }
            i += 1;
        }
        None
    }

    /// Moves tokens between two existing actors. Failures here are fatal:
    /// the kernel only transfers amounts it has already checked.
    pub fn transfer(&mut self, from: u64, to: u64, amount: u128) -> (r: SyscallResult<()>)
        requires
            old(self).inv(),
        ensures
            final(self).inv(),
            *final(self) == (CallManager { state_tree: final(self).state_tree, ..*old(self) }),
            r is Err ==> r == Err::<(), KernelError>(KernelError::Fatal),
            from == to ==> r is Ok,
            from != to && (match (
                old(self).state_tree.spec_get(from),
                old(self).state_tree.spec_get(to),
            ) {
                (Some(f), Some(t)) => amount <= f.balance && t.balance + amount <= u128::MAX,
                _ => false,
            }) ==> r is Ok,
            r is Ok && from != to ==> {
                &&& old(self).state_tree.spec_get(from) is Some
                &&& old(self).state_tree.spec_get(to) is Some
                &&& amount <= old(self).state_tree.spec_get(from)->Some_0.balance
                &&& old(self).state_tree.spec_get(to)->Some_0.balance + amount <= u128::MAX
                &&& final(self).state_tree.spec_get(from) == Some(
                    ActorStateView {
                        balance: (old(self).state_tree.spec_get(from)->Some_0.balance
                            - amount) as u128,
                        ..old(self).state_tree.spec_get(from)->Some_0
                    },
                )
                &&& final(self).state_tree.spec_get(to) == Some(
                    ActorStateView {
                        balance: (old(self).state_tree.spec_get(to)->Some_0.balance
                            + amount) as u128,
                        ..old(self).state_tree.spec_get(to)->Some_0
                    },
                )
                &&& forall|x: u64|
                    x != from && x != to ==> final(self).state_tree.spec_get(x) == old(
                        self,
                    ).state_tree.spec_get(x)
            },
            r is Ok && from == to ==> final(self).state_tree == old(self).state_tree,
    {
        if from == to {
            return Ok(());
        }
        let from_state = match self.state_tree.get_actor(from) {
            Some(s) => s,
            None => {
                return Err(KernelError::Fatal);
            },
        };
        let to_state = match self.state_tree.get_actor(to) {
            Some(s) => s,
            None => {
                return Err(KernelError::Fatal);
            },
        };
        let new_from_balance = match from_state.balance.checked_sub(amount) {
            Some(b) => b,
            None => {
                return Err(KernelError::Fatal);
            },
        };
        let new_to_balance = match to_state.balance.checked_add(amount) {
            Some(b) => b,
            None => {
                return Err(KernelError::Fatal);
            },
        };
        let new_from = ActorState { balance: new_from_balance, ..from_state };
        let new_to = ActorState { balance: new_to_balance, ..to_state };
        self.state_tree.set_actor(from, new_from);
        self.state_tree.set_actor(to, new_to);
        Ok(())
    }

    /// Appends a stamped event to the log.
    pub fn append_event(&mut self, e: StampedEvent)
        requires
            old(self).inv(),
        ensures
            final(self).inv(),
            *final(self) == (CallManager { events: final(self).events, ..*old(self) }),
            final(self).events@.len() == old(self).events@.len() + 1,
            final(self).events@.last()@ == e@,
            forall|i: int|
                0 <= i < old(self).events@.len() ==> final(self).events@[i] == old(
                    self,
                ).events@[i],
    {
        self.events.push(e);
    }

    /// Hands a call to the execution engine: records it, consumes the next
    /// scripted outcome, and charges the gas the child consumed. Past the
    /// end of the script the child is taken to succeed with no return value
    /// and no gas. State-tree effects of the child are summarised by the
    /// outcome; they are not replayed here.
    pub fn call_actor(
        &mut self,
        from: u64,
        to: Address,
        entrypoint: Entrypoint,
        params: Option<Block>,
        value: u128,
        gas_limit: Option<u64>,
        read_only: bool,
    ) -> (r: SyscallResult<InvocationResult>)
        requires
            old(self).inv(),
        ensures
            final(self).inv(),
            *final(self) == (CallManager {
                calls: final(self).calls,
                gas: final(self).gas,
                engine_next: final(self).engine_next,
                ..*old(self)
            }),
            final(self).gas.limit == old(self).gas.limit,
            final(self).gas.used >= old(self).gas.used,
            final(self).calls@.len() == old(self).calls@.len() + 1,
            forall|i: int|
                0 <= i < old(self).calls@.len() ==> final(self).calls@[i] == old(self).calls@[i],
            final(self).calls@.last()@.from == from,
            final(self).calls@.last()@.to == to@,
            final(self).calls@.last()@.entrypoint == entrypoint@,
            final(self).calls@.last()@.params == (match params {
                Some(b) => Some(b@),
                None => None::<BlockView>,
            }),
            final(self).calls@.last()@.value == value,
            final(self).calls@.last()@.gas_limit == gas_limit,
            final(self).calls@.last()@.read_only == read_only,
            r is Err ==> r == Err::<InvocationResult, KernelError>(KernelError::OutOfGas),
            r is Ok ==> (match r->Ok_0.value {
                Some(b) => b@.wf(),
                None => true,
            }),
            old(self).engine_next < old(self).engine_script@.len() && old(self).gas.fits(
                old(self).engine_script@[old(self).engine_next as int].gas,
            ) ==> r is Ok,
            old(self).engine_next < old(self).engine_script@.len() ==> {
                &&& final(self).engine_next == old(self).engine_next + 1
                &&& r is Ok ==> r->Ok_0.exit_code == old(self).engine_script@[old(
                    self,
                ).engine_next as int].exit_code
                &&& r is Ok ==> (match (
                    &r->Ok_0.value,
                    &old(self).engine_script@[old(self).engine_next as int].value,
                ) {
                    (Some(b), Some(s)) => b@ == s@,
                    (None, None) => true,
                    _ => false,
                })
            },
            old(self).engine_next >= old(self).engine_script@.len() ==> {
                &&& final(self).engine_next == old(self).engine_next
                &&& r == Ok::<InvocationResult, KernelError>(
                    InvocationResult { exit_code: 0, value: None },
                )
            },
    {
        self.calls.push(
            CallRecord { from, to, entrypoint, params, value, gas_limit, read_only },
        );
        if self.engine_next < self.engine_script.len() {
            let idx = self.engine_next;
            self.engine_next = idx + 1;
            let gas_spent = self.engine_script[idx].gas;
            let exit_code = self.engine_script[idx].exit_code;
            let value_block = match &self.engine_script[idx].value {
                Some(b) => Some(b.duplicate()),
                None => None,
            };
            self.charge_gas(gas_spent)?;
            Ok(InvocationResult { exit_code, value: value_block })
        } else {
            Ok(InvocationResult { exit_code: 0, value: None })
        }
    }
}

} // verus!
