//! The kernel: the per-invocation syscall façade.
//!
//! One kernel exists per actor invocation. It holds the call context
//! (caller, receiver, method, value, read-only flag), borrows the call
//! manager for the duration of the call, and owns the block registry.
//! Every operation charges gas through the call manager and classifies
//! every failure; used gas never decreases across any operation.

use vstd::prelude::*;

use crate::address::{Address, AddressView};
use crate::blocks::{Block, BlockRegistry, BlockStat, BlockView, NO_DATA_BLOCK_ID};
use crate::call_manager::{
    CallManager, EntryKind, Entrypoint, EntrypointView, Frame, InvocationResult, MachineContext,
    BURNT_FUNDS_ACTOR_ID, INIT_ACTOR_ID,
};
use crate::cid::{Cid, CidView, BLAKE2B_256};
use crate::error::{is_err, ErrorNumber, KernelError, SyscallResult};
use crate::ipld::{codec_allowed, scan_for_reachable_links, spec_codec_allowed, spec_scan_links, DAG_CBOR};
use crate::crypto::{
    compute_unsealed_sector_layout, spec_aggregate_ok, spec_aggregate_prepared, spec_input_prefix,
    spec_piece_ok, spec_post_info_ok, spec_post_prepared, spec_replica_ok, spec_replica_prepared,
    spec_seal_info_ok, spec_seal_prepared, verify_aggregate_seals_prepare, verify_post_prepare,
    verify_replica_update_prepare, verify_seal_prepare, AggregateSealInputs, ReplicaUpdateInputs,
    SealInputs, SectorPiece, WindowPoStInputs,
};
use crate::digest::{blake2b_256, digest_of, spec_blake2b_256, spec_digest_of, Multihash};
use crate::event::{validate_event, spec_validate_event, EventEntry, StampedEvent, StampedEventView};
use crate::externs::{spec_rand_lookup, spec_tipset_lookup, ConsensusFault, FaultVerdict};
use crate::sector::{
    AggregateSealVerifyProofAndInfos, PieceInfo, RegisteredSealProof, ReplicaUpdateInfo,
    SealVerifyInfo, WindowPoStVerifyInfo,
};
use crate::sig::{
    bls_aggregate_verify, secp_recover_public_key, spec_bls_aggregate_valid, spec_secp_recover,
    spec_split_plaintexts, split_plaintexts, BLS_PUB_LEN, BLS_SIG_LEN, SECP_PUB_LEN,
    SECP_SIG_LEN, SECP_SIG_MESSAGE_HASH_SIZE,
};
use crate::state_tree::{ActorState, ActorStateView};
use crate::utf8::{spec_utf8_valid, utf8_valid};

verus! {

/// Per-call context reported to the actor.
pub struct MessageContext {
    pub caller: u64,
    pub origin: u64,
    pub receiver: u64,
    pub method_number: u64,
    pub value_received: u128,
    pub gas_premium: u128,
    pub read_only: bool,
    pub nonce: u64,
}

/// Network-wide context reported to the actor.
pub struct NetworkContext {
    pub chain_id: u64,
    pub epoch: i64,
    pub network_version: u32,
    pub timestamp: u64,
    pub base_fee: u128,
}

/// What a send or upgrade returned: the handle of the return block (zero if
/// none), its stat, and the exit code.
#[derive(Clone, Copy, PartialEq, Eq, Structural, Debug)]
pub struct CallResult {
    pub block_id: u32,
    pub block_stat: BlockStat,
    pub exit_code: u32,
}

/// Flags on a send: bit 0 requests a read-only child call.
#[derive(Clone, Copy, PartialEq, Eq, Structural, Debug)]
pub struct SendFlags(pub u64);

impl SendFlags {
    pub open spec fn spec_read_only(self) -> bool {
        self.0 & 1 == 1
    }

    pub fn read_only(self) -> (r: bool)
        ensures
            r == self.spec_read_only(),
    {
        self.0 & 1 == 1
    }
}

/// The kernel of one actor invocation.
pub struct DefaultKernel {
    pub caller: u64,
    pub actor_id: u64,
    pub method: u64,
    pub value_received: u128,
    pub read_only: bool,
    pub call_manager: CallManager,
    pub blocks: BlockRegistry,
}

impl DefaultKernel {
    /// Well-formedness of the kernel and everything it borrows.
    pub open spec fn inv(self) -> bool {
        self.call_manager.inv() && self.blocks.inv()
    }

    /// The invocation identity: fields fixed for the kernel's lifetime.
    pub open spec fn same_call(pre: DefaultKernel, post: DefaultKernel) -> bool {
        &&& post.caller == pre.caller
        &&& post.actor_id == pre.actor_id
        &&& post.method == pre.method
        &&& post.value_received == pre.value_received
        &&& post.read_only == pre.read_only
    }

    /// Gas is never refunded: the tracker only moves forward.
    pub open spec fn gas_monotone(pre: DefaultKernel, post: DefaultKernel) -> bool {
        post.call_manager.gas.limit == pre.call_manager.gas.limit
            && post.call_manager.gas.used >= pre.call_manager.gas.used
    }

    pub fn new(
        call_manager: CallManager,
        blocks: BlockRegistry,
        caller: u64,
        actor_id: u64,
        method: u64,
        value_received: u128,
        read_only: bool,
    ) -> (r: DefaultKernel)
        requires
            call_manager.inv(),
            blocks.inv(),
        ensures
            r.inv(),
            r == (DefaultKernel {
                caller,
                actor_id,
                method,
                value_received,
                read_only,
                call_manager: r.call_manager,
                blocks: r.blocks,
            }),
            r.call_manager == call_manager,
            r.blocks == blocks,
    {
        DefaultKernel { caller, actor_id, method, value_received, read_only, call_manager, blocks }
    }

    /// Destructures the kernel back into the call manager and the registry
    /// when the invocation ends.
    pub fn into_inner(self) -> (r: (CallManager, BlockRegistry))
        ensures
            r.0 == self.call_manager,
            r.1 == self.blocks,
    {
        (self.call_manager, self.blocks)
    }

    /// The machine context.
    pub fn machine_context(&self) -> (r: &MachineContext)
        ensures
            r == self.call_manager.context,
    {
        &self.call_manager.context
    }

    /// The invoked actor's state, or `None` if it has been deleted.
    pub fn get_self(&self) -> (r: Option<ActorState>)
        requires
            self.inv(),
        ensures
            match r {
                Some(st) => self.call_manager.state_tree.spec_get(self.actor_id) == Some(st@),
                None => self.call_manager.state_tree.spec_get(self.actor_id)
                    == None::<ActorStateView>,
            },
    {
        self.call_manager.state_tree.get_actor(self.actor_id)
    }

    /// Returns the invoked actor's state root and marks it reachable.
    /// `IllegalOperation` if the actor has been deleted.
    pub fn root(&mut self) -> (r: SyscallResult<Cid>)
        requires
            old(self).inv(),
        ensures
            final(self).inv(),
            Self::same_call(*old(self), *final(self)),
            Self::gas_monotone(*old(self), *final(self)),
            final(self).call_manager == (CallManager {
                gas: final(self).call_manager.gas,
                ..old(self).call_manager
            }),
            !old(self).call_manager.gas.fits(old(self).call_manager.price_list.on_get_root) ==> r
                == Err::<Cid, KernelError>(KernelError::OutOfGas) && final(self).blocks == old(self).blocks,
            old(self).call_manager.gas.fits(old(self).call_manager.price_list.on_get_root) ==> {
                &&& old(self).call_manager.state_tree.spec_get(old(self).actor_id) is None
                    ==> is_err(r, ErrorNumber::IllegalOperation) && final(self).blocks == old(self).blocks
                &&& old(self).call_manager.state_tree.spec_get(old(self).actor_id) matches Some(
                    st,
                ) ==> {
                    &&& r is Ok && r->Ok_0@ == st.state
                    &&& final(self).blocks.spec_reachable(st.state)
                    &&& final(self).blocks.blocks_view() == old(self).blocks.blocks_view()
                    &&& forall|x: CidView|
                        old(self).blocks.spec_reachable(x) ==> final(self).blocks.spec_reachable(
                            x,
                        )
                    &&& forall|x: CidView|
                        final(self).blocks.spec_reachable(x) ==> old(self).blocks.spec_reachable(x) || x == st.state
                }
            },
    {
        let price = self.call_manager.price_list.on_get_root;
        self.call_manager.charge_gas(price)?;
        let state = match self.get_self() {
            Some(st) => st,
            None => {
                return Err(KernelError::Syscall(ErrorNumber::IllegalOperation));
            },
        };
        self.blocks.mark_reachable(&state.state);
        Ok(state.state)
    }

    /// Replaces the invoked actor's state root. Fails `ReadOnly` in a
    /// read-only invocation, `NotFound` if the new root is not reachable,
    /// and `IllegalOperation` if the actor has been deleted.
    pub fn set_root(&mut self, new: Cid) -> (r: SyscallResult<()>)
        requires
            old(self).inv(),
        ensures
            final(self).inv(),
            Self::same_call(*old(self), *final(self)),
            Self::gas_monotone(*old(self), *final(self)),
            final(self).blocks == old(self).blocks,
            final(self).call_manager == (CallManager {
                gas: final(self).call_manager.gas,
                state_tree: final(self).call_manager.state_tree,
                ..old(self).call_manager
            }),
            old(self).read_only ==> is_err(r, ErrorNumber::ReadOnly) && *final(self) == *old(self),
            !old(self).read_only && !old(self).call_manager.gas.fits(
                old(self).call_manager.price_list.on_set_root,
            ) ==> r == Err::<(), KernelError>(KernelError::OutOfGas)
                && final(self).call_manager.state_tree == old(self).call_manager.state_tree,
            !old(self).read_only && old(self).call_manager.gas.fits(
                old(self).call_manager.price_list.on_set_root,
            ) ==> {
                &&& !old(self).blocks.spec_reachable(new@) ==> is_err(r, ErrorNumber::NotFound)
                    && final(self).call_manager.state_tree == old(self).call_manager.state_tree
                &&& old(self).blocks.spec_reachable(new@) ==> {
                    &&& old(self).call_manager.state_tree.spec_get(old(self).actor_id) is None
                        ==> is_err(r, ErrorNumber::IllegalOperation)
                        && final(self).call_manager.state_tree == old(self).call_manager.state_tree
                    &&& old(self).call_manager.state_tree.spec_get(
                        old(self).actor_id,
                    ) matches Some(st) ==> {
                        &&& r is Ok
                        &&& final(self).call_manager.state_tree.spec_get(old(self).actor_id)
                            == Some(ActorStateView { state: new@, ..st })
                        &&& forall|x: u64|
                            x != old(self).actor_id ==> final(self).call_manager.state_tree.spec_get(x) == old(self).call_manager.state_tree.spec_get(x)
                    }
                }
            },
    {
        if self.read_only {
            return Err(KernelError::Syscall(ErrorNumber::ReadOnly));
        }
        let price = self.call_manager.price_list.on_set_root;
        self.call_manager.charge_gas(price)?;
        if !self.blocks.is_reachable(&new) {
            return Err(KernelError::Syscall(ErrorNumber::NotFound));
        }
        let mut state = match self.get_self() {
            Some(st) => st,
            None => {
                return Err(KernelError::Syscall(ErrorNumber::IllegalOperation));
            },
        };
        state.state = new;
        self.call_manager.state_tree.set_actor(self.actor_id, state);
        Ok(())
    }

    /// The invoked actor's balance; zero if the actor does not exist.
    pub fn current_balance(&mut self) -> (r: SyscallResult<u128>)
        requires
            old(self).inv(),
        ensures
            final(self).inv(),
            Self::same_call(*old(self), *final(self)),
            Self::gas_monotone(*old(self), *final(self)),
            final(self).blocks == old(self).blocks,
            final(self).call_manager == (CallManager {
                gas: final(self).call_manager.gas,
                ..old(self).call_manager
            }),
            !old(self).call_manager.gas.fits(old(self).call_manager.price_list.on_self_balance)
                ==> r == Err::<u128, KernelError>(KernelError::OutOfGas),
            old(self).call_manager.gas.fits(old(self).call_manager.price_list.on_self_balance)
                ==> r == Ok::<u128, KernelError>(
                match old(self).call_manager.state_tree.spec_get(old(self).actor_id) {
                    Some(st) => st.balance,
                    None => 0,
                },
            ),
    {
        let price = self.call_manager.price_list.on_self_balance;
        self.call_manager.charge_gas(price)?;
        match self.get_self() {
            Some(st) => Ok(st.balance),
            None => Ok(0),
        }
    }

    /// Deletes the invoked actor. Fails `ReadOnly` when read-only; with a
    /// non-zero remaining balance, fails `IllegalOperation` unless
    /// `burn_unspent` is set, in which case the residue moves to the
    /// burnt-funds actor. Idempotent if the actor is already gone.
    pub fn self_destruct(&mut self, burn_unspent: bool) -> (r: SyscallResult<()>)
        requires
            old(self).inv(),
        ensures
            final(self).inv(),
            Self::same_call(*old(self), *final(self)),
            Self::gas_monotone(*old(self), *final(self)),
            final(self).blocks == old(self).blocks,
            final(self).call_manager == (CallManager {
                gas: final(self).call_manager.gas,
                state_tree: final(self).call_manager.state_tree,
                ..old(self).call_manager
            }),
            old(self).read_only ==> is_err(r, ErrorNumber::ReadOnly) && *final(self) == *old(self),
            !old(self).read_only && old(self).call_manager.gas.used + old(self).call_manager.price_list.on_delete_actor + old(self).call_manager.price_list.on_self_balance <= old(self).call_manager.gas.limit
                && (match old(self).call_manager.state_tree.spec_get(old(self).actor_id) {
                Some(st) => st.balance == 0 || (burn_unspent && old(self).actor_id
                    != BURNT_FUNDS_ACTOR_ID && (
                match old(self).call_manager.state_tree.spec_get(BURNT_FUNDS_ACTOR_ID) {
                    Some(bf) => st.balance + bf.balance <= u128::MAX,
                    None => false,
                })),
                None => true,
            }) ==> r is Ok,
            !old(self).read_only && old(self).call_manager.gas.used + old(self).call_manager.price_list.on_delete_actor + old(self).call_manager.price_list.on_self_balance <= old(self).call_manager.gas.limit
                && !burn_unspent && (match old(self).call_manager.state_tree.spec_get(
                old(self).actor_id,
            ) {
                Some(st) => st.balance > 0,
                None => false,
            }) ==> is_err(r, ErrorNumber::IllegalOperation),
            r is Ok ==> final(self).call_manager.state_tree.spec_get(old(self).actor_id)
                == None::<ActorStateView>,
            r is Ok && old(self).actor_id != BURNT_FUNDS_ACTOR_ID ==> (match old(self).call_manager.state_tree.spec_get(old(self).actor_id) {
                Some(st) => st.balance == 0 ==> final(self).call_manager.state_tree.spec_get(
                    BURNT_FUNDS_ACTOR_ID,
                ) == old(self).call_manager.state_tree.spec_get(BURNT_FUNDS_ACTOR_ID),
                None => final(self).call_manager.state_tree.spec_get(BURNT_FUNDS_ACTOR_ID)
                    == old(self).call_manager.state_tree.spec_get(BURNT_FUNDS_ACTOR_ID),
            }),
            r is Ok && old(self).actor_id != BURNT_FUNDS_ACTOR_ID ==> (match old(self).call_manager.state_tree.spec_get(old(self).actor_id) {
                Some(st) => st.balance > 0 ==> (match (
                    old(self).call_manager.state_tree.spec_get(BURNT_FUNDS_ACTOR_ID),
                    final(self).call_manager.state_tree.spec_get(BURNT_FUNDS_ACTOR_ID),
                ) {
                    (Some(bf), Some(bf2)) => bf2.balance == bf.balance + st.balance,
                    _ => false,
                }),
                None => true,
            }),
            r is Ok ==> forall|x: u64|
                x != old(self).actor_id && x != BURNT_FUNDS_ACTOR_ID ==> final(self).call_manager.state_tree.spec_get(x) == old(self).call_manager.state_tree.spec_get(
                    x,
                ),
            is_err(r, ErrorNumber::IllegalOperation) ==> !burn_unspent && (match old(self).call_manager.state_tree.spec_get(old(self).actor_id) {
                Some(st) => st.balance > 0,
                None => false,
            }) && final(self).call_manager.state_tree == old(self).call_manager.state_tree,
    {
        if self.read_only {
            return Err(KernelError::Syscall(ErrorNumber::ReadOnly));
        }
        let price = self.call_manager.price_list.on_delete_actor;
        self.call_manager.charge_gas(price)?;
        let balance = self.current_balance()?;
        if balance != 0 {
            if !burn_unspent {
                return Err(KernelError::Syscall(ErrorNumber::IllegalOperation));
            }
            let from = self.actor_id;
            self.call_manager.transfer(from, BURNT_FUNDS_ACTOR_ID, balance)?;
        }
        let id = self.actor_id;
        self.call_manager.state_tree.delete_actor(id);
        Ok(())
    }
}

/// The CID `block_link` derives for a block: CIDv1 under the block's own
/// codec, addressing the 32-byte blake2b digest of its data.
pub open spec fn spec_link_cid(codec: u64, data: Seq<u8>) -> CidView {
    CidView { version: 1, codec, hash_code: BLAKE2B_256, hash: spec_blake2b_256(data) }
}

/// The stat `block_open` reports for a block loaded from the store.
pub open spec fn spec_open_stat(cid: CidView, data: Seq<u8>) -> BlockStat {
    BlockStat { codec: cid.codec, size: data.len() as u32 }
}

/// What the caller's buffer holds after `block_read`: the copied bytes
/// followed by the untouched tail.
pub open spec fn spec_read_result(data: Seq<u8>, offset: nat, buf: Seq<u8>) -> Seq<u8> {
    let tr = spec_to_read(data.len(), offset, buf.len());
    if tr == 0 {
        buf
    } else {
        data.subrange(offset as int, (offset + tr) as int) + buf.skip(tr as int)
    }
}

/// How many bytes `block_read` copies: what is left of the data past the
/// offset, capped by the buffer length.
pub open spec fn spec_to_read(data_len: nat, offset: nat, buflen: nat) -> nat {
    if data_len >= offset {
        if data_len - offset <= buflen {
            (data_len - offset) as nat
        } else {
            buflen
        }
    } else {
        0
    }
}

impl DefaultKernel {
    /// Opens a reachable block: loads it from the store, scans it for
    /// links (which become reachable), registers it, and returns the new
    /// handle with the block's stat. `NotFound` for unreachable CIDs; a
    /// missing reachable block is fatal (store corruption).
    pub fn block_open(&mut self, cid: &Cid) -> (r: SyscallResult<(u32, BlockStat)>)
        requires
            old(self).inv(),
        ensures
            final(self).inv(),
            Self::same_call(*old(self), *final(self)),
            Self::gas_monotone(*old(self), *final(self)),
            final(self).call_manager == (CallManager {
                gas: final(self).call_manager.gas,
                ..old(self).call_manager
            }),
            forall|x: CidView|
                old(self).blocks.spec_reachable(x) ==> final(self).blocks.spec_reachable(x),
            !old(self).call_manager.gas.fits(
                old(self).call_manager.price_list.on_block_open_base,
            ) ==> r == Err::<(u32, BlockStat), KernelError>(KernelError::OutOfGas) && final(self).blocks == old(self).blocks,
            old(self).call_manager.gas.fits(old(self).call_manager.price_list.on_block_open_base)
                && !old(self).blocks.spec_reachable(cid@) ==> is_err(r, ErrorNumber::NotFound)
                && final(self).blocks == old(self).blocks && final(self).call_manager.gas.used
                == old(self).call_manager.gas.used + old(self).call_manager.price_list.on_block_open_base,
            old(self).call_manager.gas.fits(old(self).call_manager.price_list.on_block_open_base)
                && old(self).blocks.spec_reachable(cid@) && old(self).call_manager.store.spec_get(
                cid@,
            ) is None ==> r == Err::<(u32, BlockStat), KernelError>(KernelError::Fatal),
            old(self).blocks.spec_reachable(cid@) && (old(self).call_manager.store.spec_get(
                cid@,
            ) matches Some(data) && (cid@.codec == crate::ipld::CBOR || cid@.codec
                == crate::ipld::IPLD_RAW) && old(self).call_manager.gas.used + old(self).call_manager.price_list.on_block_open_base + old(self).call_manager.price_list.spec_block_open(data.len(), 0) <= old(self).call_manager.gas.limit) && !old(self).blocks.spec_is_full() ==> r is Ok,
            r is Ok ==> (old(self).call_manager.store.spec_get(cid@) matches Some(data) && {
                &&& r->Ok_0.1 == spec_open_stat(cid@, data)
                &&& r->Ok_0.0 == old(self).blocks.spec_len() + 1
                &&& final(self).blocks.blocks_view() == old(self).blocks.blocks_view().push(
                    final(self).blocks.blocks_view().last(),
                )
                &&& final(self).blocks.blocks_view().last().codec == cid@.codec
                &&& final(self).blocks.blocks_view().last().data == data
                &&& cid@.codec == DAG_CBOR ==> (spec_scan_links(data) matches Some(ls) && final(self).blocks.blocks_view().last().children == ls)
                &&& cid@.codec != DAG_CBOR ==> final(self).blocks.blocks_view().last().children
                    == Seq::<CidView>::empty()
            }),
            r is Err ==> final(self).blocks.blocks_view() == old(self).blocks.blocks_view(),
    {
        let price = self.call_manager.price_list.on_block_open_base;
        self.call_manager.charge_gas(price)?;
        if !self.blocks.is_reachable(cid) {
            return Err(KernelError::Syscall(ErrorNumber::NotFound));
        }
        let data = match self.call_manager.store.get(cid) {
            Some(d) => d,
            None => {
                // A reachable block missing from the store means the store
                // is corrupted: abort the whole message.
                return Err(KernelError::Fatal);
            },
        };
        let children = scan_for_reachable_links(
            cid.codec,
            data.as_slice(),
            &self.call_manager.price_list,
            &mut self.call_manager.gas,
        )?;
        let finalize = self.call_manager.price_list.block_open_cost(data.len(), children.len());
        self.call_manager.charge_gas(finalize)?;
        let block = Block::new(cid.codec, data, children);
        let stat = block.stat();
        let id = self.blocks.put_reachable(block)?;
        Ok((id, stat))
    }

    /// Creates a block from caller bytes. `LimitExceeded` past the machine's
    /// maximum block size, `IllegalCodec` outside the codec allow-list, and
    /// `NotFound` if any link in the data is not already reachable.
    pub fn block_create(&mut self, codec: u64, data: &[u8]) -> (r: SyscallResult<u32>)
        requires
            old(self).inv(),
        ensures
            final(self).inv(),
            Self::same_call(*old(self), *final(self)),
            Self::gas_monotone(*old(self), *final(self)),
            final(self).call_manager == (CallManager {
                gas: final(self).call_manager.gas,
                ..old(self).call_manager
            }),
            forall|x: CidView|
                final(self).blocks.spec_reachable(x) == old(self).blocks.spec_reachable(x),
            data@.len() > old(self).call_manager.context.max_block_size ==> is_err(
                r,
                ErrorNumber::LimitExceeded,
            ) && *final(self) == *old(self),
            data@.len() <= old(self).call_manager.context.max_block_size && !spec_codec_allowed(
                codec,
            ) ==> is_err(r, ErrorNumber::IllegalCodec) && *final(self) == *old(self),
            (codec == crate::ipld::CBOR || codec == crate::ipld::IPLD_RAW) && data@.len() <= old(self).call_manager.context.max_block_size && old(self).call_manager.gas.fits(
                old(self).call_manager.price_list.spec_block_create(data@.len(), 0),
            ) && !old(self).blocks.spec_is_full() ==> r is Ok,
            codec == DAG_CBOR && data@.len() <= old(self).call_manager.context.max_block_size
                && (match spec_scan_links(data@) {
                Some(ls) => exists|j: int|
                    0 <= j < ls.len() && !old(self).blocks.spec_reachable(#[trigger] ls[j]),
                None => false,
            }) ==> is_err(r, ErrorNumber::NotFound) || r == Err::<u32, KernelError>(
                KernelError::OutOfGas,
            ),
            codec == DAG_CBOR && data@.len() <= old(self).call_manager.context.max_block_size
                && spec_scan_links(data@) is None ==> is_err(r, ErrorNumber::Serialization) || r
                == Err::<u32, KernelError>(KernelError::OutOfGas),
            r is Ok && codec == DAG_CBOR ==> (spec_scan_links(data@) matches Some(ls) && final(self).blocks.blocks_view().last().children == ls && forall|j: int|
                0 <= j < ls.len() ==> old(self).blocks.spec_reachable(#[trigger] ls[j])),
            r is Ok && codec != DAG_CBOR ==> final(self).blocks.blocks_view().last().children
                == Seq::<CidView>::empty(),
            r is Ok ==> {
                &&& spec_codec_allowed(codec)
                &&& data@.len() <= old(self).call_manager.context.max_block_size
                &&& r->Ok_0 == old(self).blocks.spec_len() + 1
                &&& final(self).blocks.blocks_view() == old(self).blocks.blocks_view().push(
                    final(self).blocks.blocks_view().last(),
                )
                &&& final(self).blocks.blocks_view().last().codec == codec
                &&& final(self).blocks.blocks_view().last().data == data@
            },
            r is Err ==> final(self).blocks.blocks_view() == old(self).blocks.blocks_view(),
    {
        if data.len() > self.call_manager.context.max_block_size {
            return Err(KernelError::Syscall(ErrorNumber::LimitExceeded));
        }
        if !codec_allowed(codec) {
            return Err(KernelError::Syscall(ErrorNumber::IllegalCodec));
        }
        let children = scan_for_reachable_links(
            codec,
            data,
            &self.call_manager.price_list,
            &mut self.call_manager.gas,
        )?;
        let create = self.call_manager.price_list.block_create_cost(data.len(), children.len());
        self.call_manager.charge_gas(create)?;
        let block = Block::new(codec, crate::bytes::bytes_of_range(data, 0, data.len()), children);
        proof {
            assert(block@.data =~= data@);
        }
        self.blocks.put_check_reachable(block)
    }

    /// Computes the block's CID under 32-byte blake2b, persists the block
    /// in the store, and marks the CID reachable. Only `(blake2b-256, 32)`
    /// hash parameters are accepted: anything else is `IllegalCid`.
    pub fn block_link(&mut self, id: u32, hash_fun: u64, hash_len: u32) -> (r: SyscallResult<Cid>)
        requires
            old(self).inv(),
        ensures
            final(self).inv(),
            Self::same_call(*old(self), *final(self)),
            Self::gas_monotone(*old(self), *final(self)),
            final(self).blocks.blocks_view() == old(self).blocks.blocks_view(),
            final(self).call_manager == (CallManager {
                gas: final(self).call_manager.gas,
                store: final(self).call_manager.store,
                ..old(self).call_manager
            }),
            hash_fun != BLAKE2B_256 || hash_len != 32 ==> is_err(r, ErrorNumber::IllegalCid)
                && *final(self) == *old(self),
            hash_fun == BLAKE2B_256 && hash_len == 32 && !old(self).blocks.spec_is_valid_handle(
                id,
            ) ==> is_err(r, ErrorNumber::IllegalArgument) && *final(self) == *old(self),
            hash_fun == BLAKE2B_256 && hash_len == 32 && old(self).blocks.spec_is_valid_handle(id)
                ==> {
                &&& r is Ok <==> old(self).call_manager.gas.fits(
                    old(self).call_manager.price_list.spec_block_link(
                        old(self).blocks.spec_get(id).data.len(),
                    ),
                )
                &&& r is Err ==> r == Err::<Cid, KernelError>(KernelError::OutOfGas)
            },
            r is Ok ==> {
                &&& r->Ok_0@ == spec_link_cid(
                    old(self).blocks.spec_get(id).codec,
                    old(self).blocks.spec_get(id).data,
                )
                &&& final(self).call_manager.store.spec_get(r->Ok_0@) == Some(
                    old(self).blocks.spec_get(id).data,
                )
                &&& forall|x: CidView|
                    x != r->Ok_0@ ==> final(self).call_manager.store.spec_get(x) == old(self).call_manager.store.spec_get(x)
                &&& final(self).blocks.spec_reachable(r->Ok_0@)
                &&& forall|x: CidView|
                    old(self).blocks.spec_reachable(x) ==> final(self).blocks.spec_reachable(x)
                &&& forall|x: CidView|
                    final(self).blocks.spec_reachable(x) ==> old(self).blocks.spec_reachable(x)
                        || x == r->Ok_0@
            },
            r is Err ==> final(self).call_manager.store == old(self).call_manager.store && final(self).blocks == old(self).blocks,
    {
        if hash_fun != BLAKE2B_256 || hash_len != 32 {
            return Err(KernelError::Syscall(ErrorNumber::IllegalCid));
        }
        let block = match self.blocks.get(id) {
            Ok(b) => b,
            Err(e) => {
                return Err(e);
            },
        };
        let price = self.call_manager.price_list.block_link_cost(block.data.len());
        self.call_manager.charge_gas(price)?;
        let hash = blake2b_256(block.data.as_slice());
        let k = Cid::new_v1(block.codec, BLAKE2B_256, hash);
        self.call_manager.store.put_keyed(&k, block.data.as_slice());
        self.blocks.mark_reachable(&k);
        Ok(k)
    }

    /// Copies block bytes from `offset` into `buf` and reports how the end
    /// of the block relates to the end of the read window: the result is
    /// `len(data) - (offset + len(buf))`, which may be negative. Exactly
    /// `min(len(data) - offset, len(buf))` bytes (zero when the offset is
    /// past the end) are copied. `IllegalArgument` if the window end does
    /// not fit a 32-bit signed integer.
    pub fn block_read(&mut self, id: u32, offset: u32, buf: &mut Vec<u8>) -> (r: SyscallResult<
        i32,
    >)
        requires
            old(self).inv(),
        ensures
            final(self).inv(),
            Self::same_call(*old(self), *final(self)),
            Self::gas_monotone(*old(self), *final(self)),
            final(self).blocks == old(self).blocks,
            final(self).call_manager == (CallManager {
                gas: final(self).call_manager.gas,
                ..old(self).call_manager
            }),
            final(buf)@.len() == old(buf)@.len(),
            offset + old(buf)@.len() > 0x7fff_ffff ==> is_err(r, ErrorNumber::IllegalArgument)
                && final(buf)@ == old(buf)@ && *final(self) == *old(self),
            offset + old(buf)@.len() <= 0x7fff_ffff && !old(self).blocks.spec_is_valid_handle(id)
                ==> is_err(r, ErrorNumber::IllegalArgument) && final(buf)@ == old(buf)@ && *final(self) == *old(self),
            offset + old(buf)@.len() <= 0x7fff_ffff && old(self).blocks.spec_is_valid_handle(id)
                ==> {
                &&& old(self).call_manager.gas.fits(
                    old(self).call_manager.price_list.spec_block_read(
                        spec_to_read(
                            old(self).blocks.spec_get(id).data.len(),
                            offset as nat,
                            old(buf)@.len(),
                        ),
                    ),
                ) ==> r is Ok
                &&& r is Err ==> r == Err::<i32, KernelError>(KernelError::OutOfGas) && final(buf)@ == old(buf)@
                &&& r is Ok ==> {
                    &&& r->Ok_0 == old(self).blocks.spec_get(id).data.len() - (offset + old(buf)@.len())
                    &&& final(buf)@ == spec_read_result(
                        old(self).blocks.spec_get(id).data,
                        offset as nat,
                        old(buf)@,
                    )
                }
            },
    {
        if buf.len() > 0x7fff_ffff as usize || offset as u64 + buf.len() as u64 > 0x7fff_ffff {
            return Err(KernelError::Syscall(ErrorNumber::IllegalArgument));
        }
        let block = match self.blocks.get(id) {
            Ok(b) => b,
            Err(e) => {
                return Err(e);
            },
        };
        let data_len = block.data.len();
        let start = offset as usize;
        let to_read = if data_len >= start {
            if data_len - start <= buf.len() {
                data_len - start
            } else {
                buf.len()
            }
        } else {
            0
        };
        let price = self.call_manager.price_list.block_read_cost(to_read);
        self.call_manager.charge_gas(price)?;
        let mut j: usize = 0;
        while j < to_read
            invariant
                j <= to_read,
                to_read <= buf@.len(),
                data_len == block.data@.len(),
                to_read > 0 ==> start + to_read <= data_len,
                buf@.len() == old(buf)@.len(),
                forall|t: int| 0 <= t < j ==> buf@[t] == block.data@[start + t],
                forall|t: int| j <= t < buf@.len() ==> buf@[t] == old(buf)@[t],
            decreases to_read - j,
        {
            let b = block.data[start + j];
            buf[j] = b;
            j += 1;
        }
        let end = offset as i32 + buf.len() as i32;
        proof {
            if to_read > 0 {
                assert(buf@ =~= block.data@.subrange(start as int, start + to_read)
                    + old(buf)@.skip(to_read as int));
            } else {
                assert(buf@ =~= old(buf)@);
            }
        }
        Ok(data_len as i32 - end)
    }

    /// The stat record of a registered block.
    pub fn block_stat(&mut self, id: u32) -> (r: SyscallResult<BlockStat>)
        requires
            old(self).inv(),
        ensures
            final(self).inv(),
            Self::same_call(*old(self), *final(self)),
            Self::gas_monotone(*old(self), *final(self)),
            final(self).blocks == old(self).blocks,
            final(self).call_manager == (CallManager {
                gas: final(self).call_manager.gas,
                ..old(self).call_manager
            }),
            !old(self).call_manager.gas.fits(old(self).call_manager.price_list.on_block_stat)
                ==> r == Err::<BlockStat, KernelError>(KernelError::OutOfGas),
            old(self).call_manager.gas.fits(old(self).call_manager.price_list.on_block_stat)
                ==> {
                &&& old(self).blocks.spec_is_valid_handle(id) ==> r == Ok::<
                    BlockStat,
                    KernelError,
                >(spec_open_stat_of(old(self).blocks.spec_get(id)))
                &&& !old(self).blocks.spec_is_valid_handle(id) ==> is_err(
                    r,
                    ErrorNumber::IllegalArgument,
                )
            },
    {
        let price = self.call_manager.price_list.on_block_stat;
        self.call_manager.charge_gas(price)?;
        self.blocks.stat(id)
    }
}

/// The stat of a registered block.
pub open spec fn spec_open_stat_of(b: BlockView) -> BlockStat {
    BlockStat { codec: b.codec, size: b.data.len() as u32 }
}

/// The upgrade re-entry rule over the ancestor call stack: wherever the
/// invoked actor already appears through the invoke entrypoint, every frame
/// above it must be the same actor's upgrade entrypoint. Recursive-upgrade
/// chains are permitted; upgrading through an unrelated re-entry is not.
pub open spec fn spec_upgrade_permitted(stack: Seq<Frame>, actor: u64) -> bool {
    forall|i: int, j: int|
        0 <= i < j < stack.len() && (#[trigger] stack[i]) == (Frame {
            actor,
            entry: EntryKind::Invoke,
        }) ==> (#[trigger] stack[j]) == (Frame { actor, entry: EntryKind::Upgrade })
}

/// Checks the upgrade re-entry rule.
fn upgrade_stack_permitted(stack: &Vec<Frame>, actor: u64) -> (r: bool)
    ensures
        r == spec_upgrade_permitted(stack@, actor),
{
    let n = stack.len();
    let mut i: usize = 0;
    let mut first: Option<usize> = None;
    while i < n
        invariant
            i <= n == stack@.len(),
            first is Some ==> i == n,
            first is None ==> forall|t: int|
                0 <= t < i ==> (#[trigger] stack@[t]) != (Frame {
                    actor,
                    entry: EntryKind::Invoke,
                }),
            first matches Some(f) ==> f < i && stack@[f as int] == (Frame {
                actor,
                entry: EntryKind::Invoke,
            }) && forall|t: int|
                0 <= t < f ==> (#[trigger] stack@[t]) != (Frame {
                    actor,
                    entry: EntryKind::Invoke,
                }),
        decreases n - i,
    {
        if stack[i].actor == actor && matches!(stack[i].entry, EntryKind::Invoke) {
            first = Some(i);
            i = n;
        } else {
            i += 1;
        }
    }
    let f = match first {
        Some(f) => f,
        None => {
            return true;
        },
    };
    let mut j: usize = f + 1;
    while j < n
        invariant
            f < j <= n == stack@.len(),
            stack@[f as int] == (Frame { actor, entry: EntryKind::Invoke }),
            forall|t: int|
                f < t < j ==> (#[trigger] stack@[t]) == (Frame {
                    actor,
                    entry: EntryKind::Upgrade,
                }),
        decreases n - j,
    {
        if !(stack[j].actor == actor && matches!(stack[j].entry, EntryKind::Upgrade)) {
            proof {
                let a = f as int;
                let b = j as int;
                assert(stack@[a] == (Frame { actor, entry: EntryKind::Invoke }));
                assert(stack@[b] != (Frame { actor, entry: EntryKind::Upgrade }));
                assert(!spec_upgrade_permitted(stack@, actor));
            }
            return false;
        }
        j += 1;
    }
    proof {
        assert forall|a: int, b: int|
            0 <= a < b < stack@.len() && (#[trigger] stack@[a]) == (Frame {
                actor,
                entry: EntryKind::Invoke,
            }) implies (#[trigger] stack@[b]) == (Frame { actor, entry: EntryKind::Upgrade }) by {
            assert(a >= f);
        }
    }
    true
}

impl DefaultKernel {
    /// The kernel's outward call primitive. The effective read-only flag is
    /// the kernel's own joined with the caller-requested one; transferring
    /// value under read-only fails `ReadOnly` before anything else. The call
    /// is handed to the engine and the returned block, if any, is placed in
    /// this kernel's registry as reachable.
    pub fn send(
        &mut self,
        recipient: &Address,
        method: u64,
        params_id: u32,
        value: u128,
        gas_limit: Option<u64>,
        flags: SendFlags,
    ) -> (r: SyscallResult<CallResult>)
        requires
            old(self).inv(),
        ensures
            final(self).inv(),
            Self::same_call(*old(self), *final(self)),
            Self::gas_monotone(*old(self), *final(self)),
            final(self).call_manager == (CallManager {
                gas: final(self).call_manager.gas,
                calls: final(self).call_manager.calls,
                engine_next: final(self).call_manager.engine_next,
                ..old(self).call_manager
            }),
            forall|x: CidView|
                old(self).blocks.spec_reachable(x) ==> final(self).blocks.spec_reachable(x),
            (old(self).read_only || flags.spec_read_only()) && value != 0 ==> is_err(
                r,
                ErrorNumber::ReadOnly,
            ) && *final(self) == *old(self),
            !((old(self).read_only || flags.spec_read_only()) && value != 0) && params_id
                != NO_DATA_BLOCK_ID && !old(self).blocks.spec_is_valid_handle(params_id) ==> is_err(
                r,
                ErrorNumber::IllegalArgument,
            ) && *final(self) == *old(self),
            !((old(self).read_only || flags.spec_read_only()) && value != 0) && (params_id
                == NO_DATA_BLOCK_ID || old(self).blocks.spec_is_valid_handle(params_id)) && old(self).blocks.spec_is_full() ==> is_err(r, ErrorNumber::LimitExceeded) && *final(self)
                == *old(self),
            !((old(self).read_only || flags.spec_read_only()) && value != 0) && (params_id
                == NO_DATA_BLOCK_ID || old(self).blocks.spec_is_valid_handle(params_id)) && !old(self).blocks.spec_is_full() && (old(self).call_manager.engine_next < old(self).call_manager.engine_script@.len() ==> old(self).call_manager.gas.fits(
                old(self).call_manager.engine_script@[old(self).call_manager.engine_next as int].gas,
            )) ==> r is Ok,
            final(self).call_manager.calls@.len() > old(self).call_manager.calls@.len() ==> {
                &&& final(self).call_manager.calls@.len() == old(self).call_manager.calls@.len()
                    + 1
                &&& final(self).call_manager.calls@.last()@.from == old(self).actor_id
                &&& final(self).call_manager.calls@.last()@.to == recipient@
                &&& final(self).call_manager.calls@.last()@.entrypoint
                    == EntrypointView::Invoke(method)
                &&& final(self).call_manager.calls@.last()@.value == value
                &&& final(self).call_manager.calls@.last()@.gas_limit == gas_limit
                &&& final(self).call_manager.calls@.last()@.read_only == (old(self).read_only
                    || flags.spec_read_only())
                &&& params_id == NO_DATA_BLOCK_ID ==> final(self).call_manager.calls@.last()@.params is None
                &&& params_id != NO_DATA_BLOCK_ID ==> final(self).call_manager.calls@.last()@.params == Some(old(self).blocks.spec_get(params_id))
            },
            r is Ok ==> final(self).call_manager.calls@.len() == old(self).call_manager.calls@.len() + 1,
            r is Ok && old(self).call_manager.engine_next < old(self).call_manager.engine_script@.len() ==> {
                &&& r->Ok_0.exit_code == old(self).call_manager.engine_script@[old(self).call_manager.engine_next as int].exit_code
                &&& (match old(self).call_manager.engine_script@[old(self).call_manager.engine_next as int].value {
                    Some(b) => r->Ok_0.block_id == old(self).blocks.spec_len() + 1
                        && r->Ok_0.block_stat == spec_open_stat_of(b@) && final(self).blocks.blocks_view() == old(self).blocks.blocks_view().push(
                        final(self).blocks.blocks_view().last(),
                    ),
                    None => r->Ok_0.block_id == NO_DATA_BLOCK_ID && r->Ok_0.block_stat
                        == (BlockStat { codec: 0, size: 0 }) && final(self).blocks.blocks_view()
                        == old(self).blocks.blocks_view(),
                })
            },
            r is Ok && old(self).call_manager.engine_next >= old(self).call_manager.engine_script@.len() ==> r->Ok_0 == (CallResult {
                block_id: NO_DATA_BLOCK_ID,
                block_stat: BlockStat { codec: 0, size: 0 },
                exit_code: 0,
            }),
    {
        let read_only = self.read_only || flags.read_only();
        if read_only && value != 0 {
            return Err(KernelError::Syscall(ErrorNumber::ReadOnly));
        }
        let params = if params_id == NO_DATA_BLOCK_ID {
            None
        } else {
            let b = match self.blocks.get(params_id) {
                Ok(b) => b,
                Err(e) => {
                    return Err(e);
                },
            };
            Some(b.duplicate())
        };
        if self.blocks.is_full() {
            return Err(KernelError::Syscall(ErrorNumber::LimitExceeded));
        }
        let from = self.actor_id;
        let result = self.call_manager.call_actor(
            from,
            recipient.duplicate(),
            Entrypoint::Invoke(method),
            params,
            value,
            gas_limit,
            read_only,
        )?;
        match result {
            InvocationResult { exit_code, value: Some(blk) } => {
                let block_stat = blk.stat();
                // This cannot fail: room for the return block was checked
                // above and the engine did not touch the registry.
                let block_id = match self.blocks.put_reachable(blk) {
                    Ok(id) => id,
                    Err(_) => {
                        return Err(KernelError::Fatal);
                    },
                };
                Ok(CallResult { block_id, block_stat, exit_code })
            },
            InvocationResult { exit_code, value: None } => Ok(
                CallResult {
                    block_id: NO_DATA_BLOCK_ID,
                    block_stat: BlockStat { codec: 0, size: 0 },
                    exit_code,
                },
            ),
        }
    }

    /// Replaces the invoked actor's code and runs its upgrade entrypoint,
    /// inside a transaction that rolls the swap back if the call fails.
    /// Permitted only when every ancestor appearance of this actor above
    /// its first invoke frame is a recursive upgrade (`Forbidden`
    /// otherwise). The new code observes its own CID: the swap happens
    /// before the entrypoint runs, and clears any delegated address.
    pub fn upgrade_actor(&mut self, new_code_cid: Cid, params_id: u32) -> (r: SyscallResult<
        CallResult,
    >)
        requires
            old(self).inv(),
        ensures
            final(self).inv(),
            Self::same_call(*old(self), *final(self)),
            Self::gas_monotone(*old(self), *final(self)),
            final(self).call_manager == (CallManager {
                gas: final(self).call_manager.gas,
                calls: final(self).call_manager.calls,
                engine_next: final(self).call_manager.engine_next,
                state_tree: final(self).call_manager.state_tree,
                ..old(self).call_manager
            }),
            old(self).read_only ==> is_err(r, ErrorNumber::ReadOnly) && *final(self) == *old(self),
            !old(self).read_only && !spec_upgrade_permitted(
                old(self).call_manager.call_stack@,
                old(self).actor_id,
            ) ==> is_err(r, ErrorNumber::Forbidden) && *final(self) == *old(self),
            !old(self).read_only && spec_upgrade_permitted(
                old(self).call_manager.call_stack@,
                old(self).actor_id,
            ) && params_id != NO_DATA_BLOCK_ID && !old(self).blocks.spec_is_valid_handle(
                params_id,
            ) ==> is_err(r, ErrorNumber::IllegalArgument) && *final(self) == *old(self),
            !old(self).read_only && spec_upgrade_permitted(
                old(self).call_manager.call_stack@,
                old(self).actor_id,
            ) && (params_id == NO_DATA_BLOCK_ID || old(self).blocks.spec_is_valid_handle(
                params_id,
            )) && old(self).blocks.spec_is_full() ==> is_err(r, ErrorNumber::LimitExceeded)
                && *final(self) == *old(self),
            !old(self).read_only && spec_upgrade_permitted(
                old(self).call_manager.call_stack@,
                old(self).actor_id,
            ) && (params_id == NO_DATA_BLOCK_ID || old(self).blocks.spec_is_valid_handle(
                params_id,
            )) && !old(self).blocks.spec_is_full() && old(self).call_manager.state_tree.spec_get(
                old(self).actor_id,
            ) is Some && (old(self).call_manager.engine_next < old(self).call_manager.engine_script@.len() ==> old(self).call_manager.gas.fits(
                old(self).call_manager.engine_script@[old(self).call_manager.engine_next as int].gas,
            )) ==> r is Ok,
            r is Err ==> forall|x: u64|
                final(self).call_manager.state_tree.spec_get(x) == old(self).call_manager.state_tree.spec_get(x),
            r is Err ==> final(self).blocks == old(self).blocks,
            is_err(r, ErrorNumber::Forbidden) ==> !spec_upgrade_permitted(
                old(self).call_manager.call_stack@,
                old(self).actor_id,
            ),
            !old(self).read_only && spec_upgrade_permitted(
                old(self).call_manager.call_stack@,
                old(self).actor_id,
            ) && (params_id == NO_DATA_BLOCK_ID || old(self).blocks.spec_is_valid_handle(
                params_id,
            )) && !old(self).blocks.spec_is_full() && old(self).call_manager.state_tree.spec_get(
                old(self).actor_id,
            ) is None ==> is_err(r, ErrorNumber::IllegalOperation),
            r is Ok ==> final(self).call_manager.calls@.len() == old(self).call_manager.calls@.len() + 1,
            r is Ok && old(self).call_manager.engine_next < old(self).call_manager.engine_script@.len() ==> {
                &&& r->Ok_0.exit_code == old(self).call_manager.engine_script@[old(self).call_manager.engine_next as int].exit_code
                &&& (match old(self).call_manager.engine_script@[old(self).call_manager.engine_next as int].value {
                    Some(b) => r->Ok_0.block_id == old(self).blocks.spec_len() + 1
                        && r->Ok_0.block_stat == spec_open_stat_of(b@) && final(self).blocks.blocks_view() == old(self).blocks.blocks_view().push(
                        final(self).blocks.blocks_view().last(),
                    ),
                    None => r->Ok_0.block_id == NO_DATA_BLOCK_ID && r->Ok_0.block_stat
                        == (BlockStat { codec: 0, size: 0 }) && final(self).blocks.blocks_view()
                        == old(self).blocks.blocks_view(),
                })
            },
            r is Ok && old(self).call_manager.engine_next >= old(self).call_manager.engine_script@.len() ==> r->Ok_0 == (CallResult {
                block_id: NO_DATA_BLOCK_ID,
                block_stat: BlockStat { codec: 0, size: 0 },
                exit_code: 0,
            }) && final(self).blocks.blocks_view() == old(self).blocks.blocks_view(),
            final(self).call_manager.calls@.len() > old(self).call_manager.calls@.len() ==> {
                &&& final(self).call_manager.calls@.len() == old(self).call_manager.calls@.len()
                    + 1
                &&& final(self).call_manager.calls@.last()@.from == old(self).caller
                &&& final(self).call_manager.calls@.last()@.to.protocol == 0
                &&& final(self).call_manager.calls@.last()@.entrypoint
                    == EntrypointView::Upgrade(
                    old(self).call_manager.state_tree.spec_get(old(self).actor_id)->Some_0.code,
                )
                &&& final(self).call_manager.calls@.last()@.value == 0
                &&& final(self).call_manager.calls@.last()@.gas_limit == None::<u64>
                &&& final(self).call_manager.calls@.last()@.read_only == false
            },
            r is Ok ==> {
                &&& old(self).call_manager.state_tree.spec_get(old(self).actor_id) matches Some(
                    st,
                ) && final(self).call_manager.state_tree.spec_get(old(self).actor_id) == Some(
                    ActorStateView {
                        code: new_code_cid@,
                        state: st.state,
                        balance: st.balance,
                        sequence: st.sequence,
                        delegated_address: None,
                    },
                )
                &&& forall|x: u64|
                    x != old(self).actor_id ==> final(self).call_manager.state_tree.spec_get(x)
                        == old(self).call_manager.state_tree.spec_get(x)
            },
    {
        if self.read_only {
            return Err(KernelError::Syscall(ErrorNumber::ReadOnly));
        }
        if !upgrade_stack_permitted(&self.call_manager.call_stack, self.actor_id) {
            return Err(KernelError::Syscall(ErrorNumber::Forbidden));
        }
        let params = if params_id == NO_DATA_BLOCK_ID {
            None
        } else {
            let b = match self.blocks.get(params_id) {
                Ok(b) => b,
                Err(e) => {
                    return Err(e);
                },
            };
            Some(b.duplicate())
        };
        if self.blocks.is_full() {
            return Err(KernelError::Syscall(ErrorNumber::LimitExceeded));
        }
        // The transaction: swap the code CID, run the upgrade entrypoint,
        // and roll the swap back if the call fails.
        let state = match self.call_manager.state_tree.get_actor(self.actor_id) {
            Some(st) => st,
            None => {
                return Err(KernelError::Syscall(ErrorNumber::IllegalOperation));
            },
        };
        let saved = state.duplicate();
        let old_code = state.code.duplicate();
        let swapped = ActorState::new(new_code_cid, state.state, state.balance, state.sequence, None);
        let id = self.actor_id;
        self.call_manager.state_tree.set_actor(id, swapped);
        let to = Address::new_id(id);
        let caller = self.caller;
        let result = self.call_manager.call_actor(
            caller,
            to,
            Entrypoint::Upgrade(old_code),
            params,
            0,
            None,
            false,
        );
        let invocation = match result {
            Ok(inv) => inv,
            Err(err) => {
                // Roll the code swap back: the transaction failed.
                self.call_manager.state_tree.set_actor(id, saved);
                return Err(err);
            },
        };
        match invocation {
            InvocationResult { exit_code, value: Some(blk) } => {
                let block_stat = blk.stat();
                let block_id = match self.blocks.put_reachable(blk) {
                    Ok(bid) => bid,
                    Err(_) => {
                        return Err(KernelError::Fatal);
                    },
                };
                Ok(CallResult { block_id, block_stat, exit_code })
            },
            InvocationResult { exit_code, value: None } => Ok(
                CallResult {
                    block_id: NO_DATA_BLOCK_ID,
                    block_stat: BlockStat { codec: 0, size: 0 },
                    exit_code,
                },
            ),
        }
    }
}

/// A valid debugging-artifact name: between 1 and 256 bytes of well-formed
/// UTF-8, holding no path separator and not starting with a dot.
pub open spec fn spec_artifact_name_ok(name: Seq<u8>) -> bool {
    &&& 1 <= name.len() <= 256
    &&& spec_utf8_valid(name)
    &&& forall|i: int| 0 <= i < name.len() ==> name[i] != 0x2f
    &&& name[0] != 0x2e
}

impl DefaultKernel {
    /// The per-call message context.
    pub fn msg_context(&mut self) -> (r: SyscallResult<MessageContext>)
        requires
            old(self).inv(),
        ensures
            final(self).inv(),
            Self::same_call(*old(self), *final(self)),
            Self::gas_monotone(*old(self), *final(self)),
            final(self).blocks == old(self).blocks,
            final(self).call_manager == (CallManager {
                gas: final(self).call_manager.gas,
                ..old(self).call_manager
            }),
            !old(self).call_manager.gas.fits(old(self).call_manager.price_list.on_message_context)
                ==> r == Err::<MessageContext, KernelError>(KernelError::OutOfGas),
            old(self).call_manager.gas.fits(old(self).call_manager.price_list.on_message_context)
                ==> r == Ok::<MessageContext, KernelError>(
                MessageContext {
                    caller: old(self).caller,
                    origin: old(self).call_manager.origin,
                    receiver: old(self).actor_id,
                    method_number: old(self).method,
                    value_received: old(self).value_received,
                    gas_premium: old(self).call_manager.gas_premium,
                    read_only: old(self).read_only,
                    nonce: old(self).call_manager.nonce,
                },
            ),
    {
        let price = self.call_manager.price_list.on_message_context;
        self.call_manager.charge_gas(price)?;
        Ok(
            MessageContext {
                caller: self.caller,
                origin: self.call_manager.origin,
                receiver: self.actor_id,
                method_number: self.method,
                value_received: self.value_received,
                gas_premium: self.call_manager.gas_premium,
                read_only: self.read_only,
                nonce: self.call_manager.nonce,
            },
        )
    }

    /// The network-wide context.
    pub fn network_context(&mut self) -> (r: SyscallResult<NetworkContext>)
        requires
            old(self).inv(),
        ensures
            final(self).inv(),
            Self::same_call(*old(self), *final(self)),
            Self::gas_monotone(*old(self), *final(self)),
            final(self).blocks == old(self).blocks,
            final(self).call_manager == (CallManager {
                gas: final(self).call_manager.gas,
                ..old(self).call_manager
            }),
            !old(self).call_manager.gas.fits(old(self).call_manager.price_list.on_network_context)
                ==> r == Err::<NetworkContext, KernelError>(KernelError::OutOfGas),
            old(self).call_manager.gas.fits(old(self).call_manager.price_list.on_network_context)
                ==> r == Ok::<NetworkContext, KernelError>(
                NetworkContext {
                    chain_id: old(self).call_manager.context.network.chain_id,
                    epoch: old(self).call_manager.context.epoch,
                    network_version: old(self).call_manager.context.network.network_version,
                    timestamp: old(self).call_manager.context.timestamp,
                    base_fee: old(self).call_manager.context.base_fee,
                },
            ),
    {
        let price = self.call_manager.price_list.on_network_context;
        self.call_manager.charge_gas(price)?;
        Ok(
            NetworkContext {
                chain_id: self.call_manager.context.network.chain_id,
                epoch: self.call_manager.context.epoch,
                network_version: self.call_manager.context.network.network_version,
                timestamp: self.call_manager.context.timestamp,
                base_fee: self.call_manager.context.base_fee,
            },
        )
    }

    /// The static circulating supply.
    pub fn total_fil_circ_supply(&self) -> (r: u128)
        ensures
            r == self.call_manager.context.circ_supply,
    {
        self.call_manager.context.circ_supply
    }

    /// The tipset CID of a past epoch. Negative epochs, the current epoch
    /// and future epochs are `IllegalArgument`; a missing table entry for a
    /// valid epoch is fatal (it implies chain inconsistency).
    pub fn tipset_cid(&mut self, epoch: i64) -> (r: SyscallResult<Cid>)
        requires
            old(self).inv(),
        ensures
            final(self).inv(),
            Self::same_call(*old(self), *final(self)),
            Self::gas_monotone(*old(self), *final(self)),
            final(self).blocks == old(self).blocks,
            final(self).call_manager == (CallManager {
                gas: final(self).call_manager.gas,
                ..old(self).call_manager
            }),
            epoch < 0 || epoch >= old(self).call_manager.context.epoch ==> is_err(
                r,
                ErrorNumber::IllegalArgument,
            ) && *final(self) == *old(self),
            0 <= epoch < old(self).call_manager.context.epoch && !old(self).call_manager.gas.fits(
                old(self).call_manager.price_list.spec_tipset_cid(
                    (old(self).call_manager.context.epoch - epoch) as nat,
                ),
            ) ==> r == Err::<Cid, KernelError>(KernelError::OutOfGas),
            0 <= epoch < old(self).call_manager.context.epoch && old(self).call_manager.gas.fits(
                old(self).call_manager.price_list.spec_tipset_cid(
                    (old(self).call_manager.context.epoch - epoch) as nat,
                ),
            ) ==> final(self).call_manager.gas.used == old(self).call_manager.gas.used + old(self).call_manager.price_list.spec_tipset_cid(
                (old(self).call_manager.context.epoch - epoch) as nat,
            ) && (match spec_tipset_lookup(old(self).call_manager.externs.tipsets@, epoch) {
                Some(c) => r is Ok && r->Ok_0@ == c,
                None => r == Err::<Cid, KernelError>(KernelError::Fatal),
            }),
    {
        if epoch < 0 {
            return Err(KernelError::Syscall(ErrorNumber::IllegalArgument));
        }
        let current = self.call_manager.context.epoch;
        if epoch >= current {
            return Err(KernelError::Syscall(ErrorNumber::IllegalArgument));
        }
        let offset = current - epoch;
        let price = self.call_manager.price_list.tipset_cid_cost(offset as u64);
        self.call_manager.charge_gas(price)?;
        match self.call_manager.externs.get_tipset_cid(epoch) {
            Some(c) => Ok(c),
            None => Err(KernelError::Fatal),
        }
    }

    /// Randomness drawn from the chain tickets at a past epoch. A future
    /// epoch and an extern failure are `IllegalArgument`.
    pub fn get_randomness_from_tickets(&mut self, rand_epoch: i64) -> (r: SyscallResult<Vec<u8>>)
        requires
            old(self).inv(),
        ensures
            final(self).inv(),
            Self::same_call(*old(self), *final(self)),
            Self::gas_monotone(*old(self), *final(self)),
            final(self).blocks == old(self).blocks,
            final(self).call_manager == (CallManager {
                gas: final(self).call_manager.gas,
                ..old(self).call_manager
            }),
            rand_epoch > old(self).call_manager.context.epoch || old(self).call_manager.context.epoch - rand_epoch > i64::MAX ==> is_err(
                r,
                ErrorNumber::IllegalArgument,
            ) && *final(self) == *old(self),
            rand_epoch <= old(self).call_manager.context.epoch && old(self).call_manager.context.epoch - rand_epoch <= i64::MAX && old(self).call_manager.gas.fits(
                old(self).call_manager.price_list.spec_get_randomness(
                    (old(self).call_manager.context.epoch - rand_epoch) as nat,
                ),
            ) ==> (match spec_rand_lookup(
                old(self).call_manager.externs.chain_rand@,
                rand_epoch,
            ) {
                Some(v) => r is Ok && r->Ok_0@ == v,
                None => is_err(r, ErrorNumber::IllegalArgument),
            }),
    {
        let current = self.call_manager.context.epoch;
        let lookback = match current.checked_sub(rand_epoch) {
            Some(l) => l,
            None => {
                return Err(KernelError::Syscall(ErrorNumber::IllegalArgument));
            },
        };
        if lookback < 0 {
            return Err(KernelError::Syscall(ErrorNumber::IllegalArgument));
        }
        let price = self.call_manager.price_list.get_randomness_cost(lookback as u64);
        self.call_manager.charge_gas(price)?;
        match self.call_manager.externs.get_chain_randomness(rand_epoch) {
            Some(v) => Ok(v),
            None => Err(KernelError::Syscall(ErrorNumber::IllegalArgument)),
        }
    }

    /// Randomness drawn from the beacon at a past epoch. A future epoch and
    /// an extern failure are `IllegalArgument`.
    pub fn get_randomness_from_beacon(&mut self, rand_epoch: i64) -> (r: SyscallResult<Vec<u8>>)
        requires
            old(self).inv(),
        ensures
            final(self).inv(),
            Self::same_call(*old(self), *final(self)),
            Self::gas_monotone(*old(self), *final(self)),
            final(self).blocks == old(self).blocks,
            final(self).call_manager == (CallManager {
                gas: final(self).call_manager.gas,
                ..old(self).call_manager
            }),
            rand_epoch > old(self).call_manager.context.epoch || old(self).call_manager.context.epoch - rand_epoch > i64::MAX ==> is_err(
                r,
                ErrorNumber::IllegalArgument,
            ) && *final(self) == *old(self),
            rand_epoch <= old(self).call_manager.context.epoch && old(self).call_manager.context.epoch - rand_epoch <= i64::MAX && old(self).call_manager.gas.fits(
                old(self).call_manager.price_list.spec_get_randomness(
                    (old(self).call_manager.context.epoch - rand_epoch) as nat,
                ),
            ) ==> (match spec_rand_lookup(
                old(self).call_manager.externs.beacon_rand@,
                rand_epoch,
            ) {
                Some(v) => r is Ok && r->Ok_0@ == v,
                None => is_err(r, ErrorNumber::IllegalArgument),
            }),
    {
        let current = self.call_manager.context.epoch;
        let lookback = match current.checked_sub(rand_epoch) {
            Some(l) => l,
            None => {
                return Err(KernelError::Syscall(ErrorNumber::IllegalArgument));
            },
        };
        if lookback < 0 {
            return Err(KernelError::Syscall(ErrorNumber::IllegalArgument));
        }
        let price = self.call_manager.price_list.get_randomness_cost(lookback as u64);
        self.call_manager.charge_gas(price)?;
        match self.call_manager.externs.get_beacon_randomness(rand_epoch) {
            Some(v) => Ok(v),
            None => Err(KernelError::Syscall(ErrorNumber::IllegalArgument)),
        }
    }

    /// Asks the chain externs whether the two headers prove a consensus
    /// fault. An extern-level failure is `IllegalArgument`.
    pub fn verify_consensus_fault(&mut self, h1: &[u8], h2: &[u8], extra: &[u8]) -> (r:
        SyscallResult<Option<ConsensusFault>>)
        requires
            old(self).inv(),
        ensures
            final(self).inv(),
            Self::same_call(*old(self), *final(self)),
            Self::gas_monotone(*old(self), *final(self)),
            final(self).blocks == old(self).blocks,
            final(self).call_manager == (CallManager {
                gas: final(self).call_manager.gas,
                externs: final(self).call_manager.externs,
                ..old(self).call_manager
            }),
            !old(self).call_manager.gas.fits(
                old(self).call_manager.price_list.on_verify_consensus_fault,
            ) ==> r == Err::<Option<ConsensusFault>, KernelError>(KernelError::OutOfGas),
            old(self).call_manager.gas.fits(
                old(self).call_manager.price_list.on_verify_consensus_fault,
            ) && old(self).call_manager.externs.fault_next < old(self).call_manager.externs.fault_verdicts@.len() ==> (match old(self).call_manager.externs.fault_verdicts@[old(self).call_manager.externs.fault_next as int] {
                FaultVerdict::Invalid => is_err(r, ErrorNumber::IllegalArgument),
                FaultVerdict::Checked(f) => r == Ok::<Option<ConsensusFault>, KernelError>(f),
            }),
            old(self).call_manager.gas.fits(
                old(self).call_manager.price_list.on_verify_consensus_fault,
            ) ==> {
                &&& final(self).call_manager.externs.fault_queries@.len() == old(self).call_manager.externs.fault_queries@.len() + 1
                &&& final(self).call_manager.externs.fault_queries@.last().h1@ == h1@
                &&& final(self).call_manager.externs.fault_queries@.last().h2@ == h2@
                &&& final(self).call_manager.externs.fault_queries@.last().extra@ == extra@
            },
    {
        let price = self.call_manager.price_list.on_verify_consensus_fault;
        self.call_manager.charge_gas(price)?;
        match self.call_manager.externs.verify_consensus_fault(h1, h2, extra) {
            FaultVerdict::Invalid => Err(KernelError::Syscall(ErrorNumber::IllegalArgument)),
            FaultVerdict::Checked(f) => Ok(f),
        }
    }

    /// Gas consumed so far by this message.
    pub fn gas_used(&self) -> (r: u64)
        ensures
            r == self.call_manager.gas.used,
    {
        self.call_manager.gas.gas_used()
    }

    /// Gas still available to this message.
    pub fn gas_available(&self) -> (r: u64)
        requires
            self.inv(),
        ensures
            r == self.call_manager.gas.limit - self.call_manager.gas.used,
    {
        self.call_manager.gas.gas_available()
    }

    /// Charges an explicit amount of gas on behalf of the actor. The name
    /// only labels traces; it does not affect consensus.
    pub fn charge_gas(&mut self, _name: &str, compute: u64) -> (r: SyscallResult<()>)
        requires
            old(self).inv(),
        ensures
            final(self).inv(),
            Self::same_call(*old(self), *final(self)),
            Self::gas_monotone(*old(self), *final(self)),
            final(self).blocks == old(self).blocks,
            final(self).call_manager == (CallManager {
                gas: final(self).call_manager.gas,
                ..old(self).call_manager
            }),
            r is Ok <==> old(self).call_manager.gas.fits(compute),
            r is Ok ==> final(self).call_manager.gas.used == old(self).call_manager.gas.used
                + compute,
            r is Err ==> r == Err::<(), KernelError>(KernelError::OutOfGas),
    {
        self.call_manager.charge_gas(compute)
    }

    /// Resolves an address to an actor ID; `NotFound` when nothing is bound
    /// to it.
    pub fn resolve_address(&mut self, address: &Address) -> (r: SyscallResult<u64>)
        requires
            old(self).inv(),
        ensures
            final(self).inv(),
            Self::same_call(*old(self), *final(self)),
            Self::gas_monotone(*old(self), *final(self)),
            final(self).blocks == old(self).blocks,
            final(self).call_manager == (CallManager {
                gas: final(self).call_manager.gas,
                ..old(self).call_manager
            }),
            !old(self).call_manager.gas.fits(old(self).call_manager.price_list.on_resolve_address)
                ==> r == Err::<u64, KernelError>(KernelError::OutOfGas),
            old(self).call_manager.gas.fits(old(self).call_manager.price_list.on_resolve_address)
                ==> (match spec_resolve_of(old(self).call_manager, address@) {
                Some(id) => r == Ok::<u64, KernelError>(id),
                None => is_err(r, ErrorNumber::NotFound),
            }),
    {
        let price = self.call_manager.price_list.on_resolve_address;
        self.call_manager.charge_gas(price)?;
        match self.call_manager.resolve_address(address) {
            Some(id) => Ok(id),
            None => Err(KernelError::Syscall(ErrorNumber::NotFound)),
        }
    }

    /// The code CID of an actor; `NotFound` when the actor does not exist.
    pub fn get_actor_code_cid(&mut self, id: u64) -> (r: SyscallResult<Cid>)
        requires
            old(self).inv(),
        ensures
            final(self).inv(),
            Self::same_call(*old(self), *final(self)),
            Self::gas_monotone(*old(self), *final(self)),
            final(self).blocks == old(self).blocks,
            final(self).call_manager == (CallManager {
                gas: final(self).call_manager.gas,
                ..old(self).call_manager
            }),
            !old(self).call_manager.gas.fits(
                old(self).call_manager.price_list.on_get_actor_code_cid,
            ) ==> r == Err::<Cid, KernelError>(KernelError::OutOfGas),
            old(self).call_manager.gas.fits(
                old(self).call_manager.price_list.on_get_actor_code_cid,
            ) ==> (match old(self).call_manager.state_tree.spec_get(id) {
                Some(st) => r is Ok && r->Ok_0@ == st.code,
                None => is_err(r, ErrorNumber::NotFound),
            }),
    {
        let price = self.call_manager.price_list.on_get_actor_code_cid;
        self.call_manager.charge_gas(price)?;
        match self.call_manager.state_tree.get_actor(id) {
            Some(st) => Ok(st.code),
            None => Err(KernelError::Syscall(ErrorNumber::NotFound)),
        }
    }

    /// The address the next created actor will get. Pure: no gas.
    pub fn next_actor_address(&self) -> (r: Address)
        ensures
            r@ == self.call_manager.next_address@,
    {
        self.call_manager.next_address.duplicate()
    }

    /// Creates an actor. Restricted to the Init actor (`Forbidden`
    /// otherwise) and refused in a read-only invocation.
    pub fn create_actor(
        &mut self,
        code_id: Cid,
        actor_id: u64,
        delegated_address: Option<Address>,
    ) -> (r: SyscallResult<()>)
        requires
            old(self).inv(),
        ensures
            final(self).inv(),
            Self::same_call(*old(self), *final(self)),
            Self::gas_monotone(*old(self), *final(self)),
            final(self).blocks == old(self).blocks,
            final(self).call_manager == (CallManager {
                gas: final(self).call_manager.gas,
                state_tree: final(self).call_manager.state_tree,
                ..old(self).call_manager
            }),
            old(self).actor_id != INIT_ACTOR_ID ==> is_err(r, ErrorNumber::Forbidden) && *final(self)
                == *old(self),
            old(self).actor_id == INIT_ACTOR_ID && old(self).read_only ==> is_err(
                r,
                ErrorNumber::ReadOnly,
            ) && *final(self) == *old(self),
            r is Err ==> forall|x: u64|
                final(self).call_manager.state_tree.spec_get(x) == old(self).call_manager.state_tree.spec_get(x),
            old(self).actor_id == INIT_ACTOR_ID && !old(self).read_only && old(self).call_manager.gas.fits(old(self).call_manager.price_list.on_create_actor) && old(self).call_manager.state_tree.spec_get(actor_id) is None ==> r is Ok,
            r is Ok ==> {
                &&& old(self).call_manager.state_tree.spec_get(actor_id) is None
                &&& final(self).call_manager.state_tree.spec_get(actor_id) == Some(
                    ActorStateView {
                        code: code_id@,
                        state: spec_empty_state_cid(),
                        balance: 0,
                        sequence: 0,
                        delegated_address: (match delegated_address {
                            Some(a) => Some(a@),
                            None => None::<AddressView>,
                        }),
                    },
                )
                &&& forall|x: u64|
                    x != actor_id ==> final(self).call_manager.state_tree.spec_get(x) == old(self).call_manager.state_tree.spec_get(x)
            },
    {
        if self.actor_id != INIT_ACTOR_ID {
            return Err(KernelError::Syscall(ErrorNumber::Forbidden));
        }
        if self.read_only {
            return Err(KernelError::Syscall(ErrorNumber::ReadOnly));
        }
        let price = self.call_manager.price_list.on_create_actor;
        self.call_manager.charge_gas(price)?;
        match self.call_manager.state_tree.get_actor(actor_id) {
            Some(_) => Err(KernelError::Syscall(ErrorNumber::Forbidden)),
            None => {
                let state = ActorState::new(code_id, empty_state_cid(), 0, 0, delegated_address);
                self.call_manager.state_tree.set_actor(actor_id, state);
                Ok(())
            },
        }
    }

    /// The builtin-actor type number for a code CID; zero when the code is
    /// not a builtin actor.
    pub fn get_builtin_actor_type(&mut self, code_cid: &Cid) -> (r: SyscallResult<u32>)
        requires
            old(self).inv(),
        ensures
            final(self).inv(),
            Self::same_call(*old(self), *final(self)),
            Self::gas_monotone(*old(self), *final(self)),
            final(self).blocks == old(self).blocks,
            final(self).call_manager == (CallManager {
                gas: final(self).call_manager.gas,
                ..old(self).call_manager
            }),
            !old(self).call_manager.gas.fits(
                old(self).call_manager.price_list.on_get_builtin_actor_type,
            ) ==> r == Err::<u32, KernelError>(KernelError::OutOfGas),
            old(self).call_manager.gas.fits(
                old(self).call_manager.price_list.on_get_builtin_actor_type,
            ) ==> r == Ok::<u32, KernelError>(
                crate::call_manager::spec_builtin_id_by_code(
                    old(self).call_manager.builtin_actors@,
                    code_cid@,
                ),
            ),
    {
        let price = self.call_manager.price_list.on_get_builtin_actor_type;
        self.call_manager.charge_gas(price)?;
        Ok(self.call_manager.builtin_id_by_code(code_cid))
    }

    /// The code CID for a builtin-actor type number; `IllegalArgument` when
    /// the type is unknown.
    pub fn get_code_cid_for_type(&mut self, typ: u32) -> (r: SyscallResult<Cid>)
        requires
            old(self).inv(),
        ensures
            final(self).inv(),
            Self::same_call(*old(self), *final(self)),
            Self::gas_monotone(*old(self), *final(self)),
            final(self).blocks == old(self).blocks,
            final(self).call_manager == (CallManager {
                gas: final(self).call_manager.gas,
                ..old(self).call_manager
            }),
            !old(self).call_manager.gas.fits(
                old(self).call_manager.price_list.on_get_code_cid_for_type,
            ) ==> r == Err::<Cid, KernelError>(KernelError::OutOfGas),
            old(self).call_manager.gas.fits(
                old(self).call_manager.price_list.on_get_code_cid_for_type,
            ) ==> (match crate::call_manager::spec_builtin_code_by_id(
                old(self).call_manager.builtin_actors@,
                typ,
            ) {
                Some(c) => r is Ok && r->Ok_0@ == c,
                None => is_err(r, ErrorNumber::IllegalArgument),
            }),
    {
        let price = self.call_manager.price_list.on_get_code_cid_for_type;
        self.call_manager.charge_gas(price)?;
        match self.call_manager.builtin_code_by_id(typ) {
            Some(c) => Ok(c),
            None => Err(KernelError::Syscall(ErrorNumber::IllegalArgument)),
        }
    }

    /// The balance of an actor; `NotFound` when it does not exist.
    pub fn balance_of(&mut self, actor_id: u64) -> (r: SyscallResult<u128>)
        requires
            old(self).inv(),
        ensures
            final(self).inv(),
            Self::same_call(*old(self), *final(self)),
            Self::gas_monotone(*old(self), *final(self)),
            final(self).blocks == old(self).blocks,
            final(self).call_manager == (CallManager {
                gas: final(self).call_manager.gas,
                ..old(self).call_manager
            }),
            !old(self).call_manager.gas.fits(old(self).call_manager.price_list.on_balance_of)
                ==> r == Err::<u128, KernelError>(KernelError::OutOfGas),
            old(self).call_manager.gas.fits(old(self).call_manager.price_list.on_balance_of)
                ==> (match old(self).call_manager.state_tree.spec_get(actor_id) {
                Some(st) => r == Ok::<u128, KernelError>(st.balance),
                None => is_err(r, ErrorNumber::NotFound),
            }),
    {
        let price = self.call_manager.price_list.on_balance_of;
        self.call_manager.charge_gas(price)?;
        match self.call_manager.state_tree.get_actor(actor_id) {
            Some(st) => Ok(st.balance),
            None => Err(KernelError::Syscall(ErrorNumber::NotFound)),
        }
    }

    /// The delegated address of an actor; `NotFound` when it does not
    /// exist.
    pub fn lookup_delegated_address(&mut self, actor_id: u64) -> (r: SyscallResult<
        Option<Address>,
    >)
        requires
            old(self).inv(),
        ensures
            final(self).inv(),
            Self::same_call(*old(self), *final(self)),
            Self::gas_monotone(*old(self), *final(self)),
            final(self).blocks == old(self).blocks,
            final(self).call_manager == (CallManager {
                gas: final(self).call_manager.gas,
                ..old(self).call_manager
            }),
            !old(self).call_manager.gas.fits(
                old(self).call_manager.price_list.on_lookup_delegated_address,
            ) ==> r == Err::<Option<Address>, KernelError>(KernelError::OutOfGas),
            old(self).call_manager.gas.fits(
                old(self).call_manager.price_list.on_lookup_delegated_address,
            ) ==> (match old(self).call_manager.state_tree.spec_get(actor_id) {
                Some(st) => r is Ok && (match r->Ok_0 {
                    Some(a) => st.delegated_address == Some(a@),
                    None => st.delegated_address is None,
                }),
                None => is_err(r, ErrorNumber::NotFound),
            }),
    {
        let price = self.call_manager.price_list.on_lookup_delegated_address;
        self.call_manager.charge_gas(price)?;
        match self.call_manager.state_tree.get_actor(actor_id) {
            Some(st) => Ok(st.delegated_address),
            None => Err(KernelError::Syscall(ErrorNumber::NotFound)),
        }
    }

    /// Validates an event serialization and appends it to the event log,
    /// stamped with the emitting actor. Read-only invocations cannot emit;
    /// the charge covers validation and is taken before the limits are
    /// checked.
    pub fn emit_event(
        &mut self,
        event_headers: &[EventEntry],
        event_keys: &[u8],
        event_values: &[u8],
    ) -> (r: SyscallResult<()>)
        requires
            old(self).inv(),
        ensures
            final(self).inv(),
            Self::same_call(*old(self), *final(self)),
            Self::gas_monotone(*old(self), *final(self)),
            final(self).blocks == old(self).blocks,
            final(self).call_manager == (CallManager {
                gas: final(self).call_manager.gas,
                events: final(self).call_manager.events,
                ..old(self).call_manager
            }),
            old(self).read_only ==> is_err(r, ErrorNumber::ReadOnly) && *final(self) == *old(self),
            !old(self).read_only && !old(self).call_manager.gas.fits(
                old(self).call_manager.price_list.spec_actor_event(
                    event_headers@.len(),
                    event_keys@.len(),
                    event_values@.len(),
                ),
            ) ==> r == Err::<(), KernelError>(KernelError::OutOfGas) && final(self).call_manager.events@ == old(self).call_manager.events@,
            !old(self).read_only && old(self).call_manager.gas.fits(
                old(self).call_manager.price_list.spec_actor_event(
                    event_headers@.len(),
                    event_keys@.len(),
                    event_values@.len(),
                ),
            ) ==> (match spec_validate_event(event_headers@, event_keys@, event_values@) {
                Ok(entries) => {
                    &&& r is Ok
                    &&& final(self).call_manager.events@.len() == old(self).call_manager.events@.len() + 1
                    &&& final(self).call_manager.events@.last()@ == (StampedEventView {
                        emitter: old(self).actor_id,
                        entries,
                    })
                    &&& forall|i: int|
                        0 <= i < old(self).call_manager.events@.len() ==> final(self).call_manager.events@[i] == old(self).call_manager.events@[i]
                },
                Err(n) => is_err(r, n) && final(self).call_manager.events@ == old(self).call_manager.events@,
            }),
    {
        if self.read_only {
            return Err(KernelError::Syscall(ErrorNumber::ReadOnly));
        }
        let price = self.call_manager.price_list.actor_event_cost(
            event_headers.len(),
            event_keys.len(),
            event_values.len(),
        );
        self.call_manager.charge_gas(price)?;
        let entries = match validate_event(event_headers, event_keys, event_values) {
            Ok(es) => es,
            Err(n) => {
                return Err(KernelError::Syscall(n));
            },
        };
        let stamped = StampedEvent { emitter: self.actor_id, entries };
        self.call_manager.append_event(stamped);
        Ok(())
    }

    /// Whether actor debugging is enabled for this machine.
    pub fn debug_enabled(&self) -> (r: bool)
        ensures
            r == self.call_manager.context.network.actor_debugging,
    {
        self.call_manager.context.network.actor_debugging
    }

    /// Records a debugging artifact under a validated name. The name must
    /// be 1 to 256 bytes of UTF-8 with no path separator and no leading
    /// dot; anything else is `IllegalArgument`. Writing recorded artifacts
    /// out is the embedder's business and does not affect consensus.
    pub fn store_artifact(&mut self, name: &[u8], data: &[u8]) -> (r: SyscallResult<()>)
        requires
            old(self).inv(),
        ensures
            final(self).inv(),
            Self::same_call(*old(self), *final(self)),
            Self::gas_monotone(*old(self), *final(self)),
            final(self).blocks == old(self).blocks,
            final(self).call_manager == (CallManager {
                artifacts: final(self).call_manager.artifacts,
                ..old(self).call_manager
            }),
            !spec_artifact_name_ok(name@) ==> is_err(r, ErrorNumber::IllegalArgument) && *final(self)
                == *old(self),
            spec_artifact_name_ok(name@) ==> {
                &&& r is Ok
                &&& final(self).call_manager.artifacts@.len() == old(self).call_manager.artifacts@.len() + 1
                &&& final(self).call_manager.artifacts@.last().name@ == name@
                &&& final(self).call_manager.artifacts@.last().data@ == data@
                &&& forall|i: int|
                    0 <= i < old(self).call_manager.artifacts@.len() ==> final(self).call_manager.artifacts@[i] == old(self).call_manager.artifacts@[i]
            },
    {
        if name.len() < 1 || name.len() > 256 {
            return Err(KernelError::Syscall(ErrorNumber::IllegalArgument));
        }
        if !utf8_valid(name) {
            return Err(KernelError::Syscall(ErrorNumber::IllegalArgument));
        }
        let n = name.len();
        let mut i: usize = 0;
        while i < n
            invariant
                *self == *old(self),
                self.inv(),
                i <= n == name@.len(),
                forall|t: int| 0 <= t < i ==> name@[t] != 0x2f,
            decreases n - i,
        {
            if name[i] == 0x2f {
                return Err(KernelError::Syscall(ErrorNumber::IllegalArgument));
            }
            i += 1;
        }
        if name[0] == 0x2e {
            return Err(KernelError::Syscall(ErrorNumber::IllegalArgument));
        }
        let artifact = crate::call_manager::Artifact {
            name: crate::bytes::bytes_of_range(name, 0, name.len()),
            data: crate::bytes::bytes_of_range(data, 0, data.len()),
        };
        proof {
            assert(artifact.name@ =~= name@);
            assert(artifact.data@ =~= data@);
        }
        self.call_manager.artifacts.push(artifact);
        Ok(())
    }
}

/// The state CID a freshly created actor starts from: the canonical empty
/// state.
pub open spec fn spec_empty_state_cid() -> CidView {
    CidView { version: 1, codec: crate::ipld::CBOR, hash_code: 0, hash: Seq::empty() }
}

/// Builds the empty-state CID.
pub fn empty_state_cid() -> (r: Cid)
    ensures
        r@ == spec_empty_state_cid(),
{
    let r = Cid { version: 1, codec: crate::ipld::CBOR, hash_code: 0, hash: Vec::new() };
    proof {
        assert(r@.hash =~= Seq::<u8>::empty());
    }
    r
}

/// What an address resolves to under the call manager's bindings.
pub open spec fn spec_resolve_of(cm: CallManager, a: AddressView) -> Option<u64> {
    crate::call_manager::spec_resolve_address(cm.address_bindings@, a)
}

/// Block link round trip: linking a block of a given codec and data yields
/// the CID addressing that data's 32-byte blake2b digest under the same
/// codec, and the stat a later `block_open` of that CID reports is exactly
/// the block's codec and size. (That the store returns the same data, and
/// that the CID is reachable afterwards, stand in the `ensures` of
/// `block_link` and `block_open`.)
pub proof fn lemma_block_link_round_trip(codec: u64, data: Seq<u8>)
    requires
        data.len() <= 0x7fff_ffff,
    ensures
        spec_link_cid(codec, data).codec == codec,
        spec_open_stat(spec_link_cid(codec, data), data) == (BlockStat {
            codec,
            size: data.len() as u32,
        }),
{
}

/// The permissive side of the upgrade stack rule: a stack whose first
/// invoke frame of the upgrading actor is followed only by that actor's
/// recursive upgrade frames permits an upgrade, whatever stands below it.
pub proof fn lemma_upgrade_permitted_pattern(stack: Seq<Frame>, actor: u64, p: int)
    requires
        0 <= p < stack.len(),
        stack[p] == (Frame { actor, entry: EntryKind::Invoke }),
        forall|t: int|
            0 <= t < p ==> (#[trigger] stack[t]) != (Frame { actor, entry: EntryKind::Invoke }),
        forall|t: int|
            p < t < stack.len() ==> (#[trigger] stack[t]) == (Frame {
                actor,
                entry: EntryKind::Upgrade,
            }),
    ensures
        spec_upgrade_permitted(stack, actor),
{
    assert forall|a: int, b: int|
        0 <= a < b < stack.len() && (#[trigger] stack[a]) == (Frame {
            actor,
            entry: EntryKind::Invoke,
        }) implies (#[trigger] stack[b]) == (Frame { actor, entry: EntryKind::Upgrade }) by {
        assert(a >= p);
    }
}

/// The forbidding side of the upgrade stack rule: any frame above an
/// invoke frame of the upgrading actor that is not that actor's upgrade
/// frame forbids the upgrade.
pub proof fn lemma_upgrade_forbidden_reentry(stack: Seq<Frame>, actor: u64, p: int, j: int)
    requires
        0 <= p < j < stack.len(),
        stack[p] == (Frame { actor, entry: EntryKind::Invoke }),
        stack[j] != (Frame { actor, entry: EntryKind::Upgrade }),
    ensures
        !spec_upgrade_permitted(stack, actor),
{
}

/// One batch item after marshaling: ready for the proof backend, or
/// already known invalid (it will verify as false).
pub enum SealCheck {
    Ready(SealInputs),
    Invalid,
}

/// What came back from the proof backend for one ready batch item: a
/// verdict, a backend failure, or a contained panic. A failure or a panic
/// verifies as false; it never aborts the batch.
#[derive(Clone, Copy, PartialEq, Eq, Structural, Debug)]
pub enum SealOutcome {
    Verified(bool),
    BackendError,
    Panicked,
}

/// The verdict one batch slot ends with: true only when the item was well
/// formed and the backend verified it.
pub open spec fn spec_seal_verdict(check: &SealCheck, outcome: SealOutcome) -> bool {
    match check {
        SealCheck::Invalid => false,
        SealCheck::Ready(_) => outcome == SealOutcome::Verified(true),
    }
}

/// Folds backend outcomes over the marshaled batch, in input order: a slot
/// is true exactly when its item marshaled and the backend said valid. A
/// panicking or failing item yields false at its own index and nothing
/// else.
pub fn batch_verify_seals_collect(checks: &Vec<SealCheck>, outcomes: &Vec<SealOutcome>) -> (r: Vec<
    bool,
>)
    requires
        checks@.len() == outcomes@.len(),
    ensures
        r@.len() == checks@.len(),
        forall|i: int|
            0 <= i < checks@.len() ==> r@[i] == spec_seal_verdict(
                &checks@[i],
                #[trigger] outcomes@[i],
            ),
{
    let n = checks.len();
    let mut r: Vec<bool> = Vec::new();
    let mut i: usize = 0;
    while i < n
        invariant
            i <= n == checks@.len() == outcomes@.len(),
            r@.len() == i,
            forall|k: int|
                0 <= k < i ==> r@[k] == spec_seal_verdict(&checks@[k], #[trigger] outcomes@[k]),
        decreases n - i,
    {
        let v = match &checks[i] {
            SealCheck::Invalid => false,
            SealCheck::Ready(_) => match outcomes[i] {
                SealOutcome::Verified(b) => b,
                SealOutcome::BackendError => false,
                SealOutcome::Panicked => false,
            },
        };
        r.push(v);
        i += 1;
    }
    r
}

impl DefaultKernel {
    /// Hashes bytes under a supported multihash code; unsupported codes
    /// are `IllegalArgument` and charge nothing.
    pub fn hash(&mut self, code: u64, data: &[u8]) -> (r: SyscallResult<Multihash>)
        requires
            old(self).inv(),
        ensures
            final(self).inv(),
            Self::same_call(*old(self), *final(self)),
            Self::gas_monotone(*old(self), *final(self)),
            final(self).blocks == old(self).blocks,
            final(self).call_manager == (CallManager {
                gas: final(self).call_manager.gas,
                ..old(self).call_manager
            }),
            spec_digest_of(code, data@) is None ==> is_err(r, ErrorNumber::IllegalArgument)
                && *final(self) == *old(self),
            spec_digest_of(code, data@) is Some && !old(self).call_manager.gas.fits(
                old(self).call_manager.price_list.spec_hashing(data@.len()),
            ) ==> r == Err::<Multihash, KernelError>(KernelError::OutOfGas),
            spec_digest_of(code, data@) is Some && old(self).call_manager.gas.fits(
                old(self).call_manager.price_list.spec_hashing(data@.len()),
            ) ==> (r matches Ok(mh) && mh.code == code && Some(mh.digest@) == spec_digest_of(
                code,
                data@,
            )),
    {
        // An unsupported code is rejected before anything is charged.
        if !crate::digest::digest_code_supported(code) {
            return Err(KernelError::Syscall(ErrorNumber::IllegalArgument));
        }
        let price = self.call_manager.price_list.hashing_cost(data.len());
        self.call_manager.charge_gas(price)?;
        match digest_of(code, data) {
            Some(digest) => Ok(Multihash { code, digest }),
            None => Err(KernelError::Syscall(ErrorNumber::AssertionFailed)),
        }
    }

    /// Verifies a BLS aggregate signature over per-signer plaintexts cut
    /// from one concatenated buffer. Mismatched list lengths and spans that
    /// fail to cover the buffer exactly are `IllegalArgument`; a signature
    /// that fails to parse verifies as false rather than erroring.
    pub fn verify_bls_aggregate(
        &mut self,
        aggregate_sig: &[u8],
        pub_keys: &Vec<Vec<u8>>,
        plaintexts_concat: &[u8],
        plaintext_lens: &[u32],
    ) -> (r: SyscallResult<bool>)
        requires
            old(self).inv(),
            aggregate_sig@.len() == BLS_SIG_LEN,
            forall|i: int| 0 <= i < pub_keys@.len() ==> (#[trigger] pub_keys@[i]@).len() == BLS_PUB_LEN,
        ensures
            final(self).inv(),
            Self::same_call(*old(self), *final(self)),
            Self::gas_monotone(*old(self), *final(self)),
            final(self).blocks == old(self).blocks,
            final(self).call_manager == (CallManager {
                gas: final(self).call_manager.gas,
                ..old(self).call_manager
            }),
            pub_keys@.len() != plaintext_lens@.len() ==> is_err(r, ErrorNumber::IllegalArgument)
                && *final(self) == *old(self),
            pub_keys@.len() == plaintext_lens@.len() && !old(self).call_manager.gas.fits(
                old(self).call_manager.price_list.spec_verify_aggregate_signature(
                    pub_keys@.len(),
                    plaintexts_concat@.len(),
                ),
            ) ==> r == Err::<bool, KernelError>(KernelError::OutOfGas),
            pub_keys@.len() == plaintext_lens@.len() && old(self).call_manager.gas.fits(
                old(self).call_manager.price_list.spec_verify_aggregate_signature(
                    pub_keys@.len(),
                    plaintexts_concat@.len(),
                ),
            ) ==> (match spec_split_plaintexts(plaintexts_concat@, plaintext_lens@) {
                Some(msgs) => r == Ok::<bool, KernelError>(
                    spec_bls_aggregate_valid(
                        aggregate_sig@,
                        pub_keys@.map_values(|k: Vec<u8>| k@),
                        msgs,
                    ),
                ),
                None => is_err(r, ErrorNumber::IllegalArgument),
            }),
    {
        if pub_keys.len() != plaintext_lens.len() {
            return Err(KernelError::Syscall(ErrorNumber::IllegalArgument));
        }
        let price = self.call_manager.price_list.verify_aggregate_signature_cost(
            pub_keys.len(),
            plaintexts_concat.len(),
        );
        self.call_manager.charge_gas(price)?;
        let plaintexts = match split_plaintexts(plaintexts_concat, plaintext_lens) {
            Ok(p) => p,
            Err(n) => {
                return Err(KernelError::Syscall(n));
            },
        };
        Ok(bls_aggregate_verify(aggregate_sig, pub_keys, &plaintexts))
    }

    /// Recovers the uncompressed secp256k1 public key that signed a message
    /// hash; recovery failure is `IllegalArgument`.
    pub fn recover_secp_public_key(&mut self, hash: &[u8], signature: &[u8]) -> (r: SyscallResult<
        Vec<u8>,
    >)
        requires
            old(self).inv(),
            hash@.len() == SECP_SIG_MESSAGE_HASH_SIZE,
            signature@.len() == SECP_SIG_LEN,
        ensures
            final(self).inv(),
            Self::same_call(*old(self), *final(self)),
            Self::gas_monotone(*old(self), *final(self)),
            final(self).blocks == old(self).blocks,
            final(self).call_manager == (CallManager {
                gas: final(self).call_manager.gas,
                ..old(self).call_manager
            }),
            !old(self).call_manager.gas.fits(
                old(self).call_manager.price_list.on_recover_secp_public_key,
            ) ==> r == Err::<Vec<u8>, KernelError>(KernelError::OutOfGas),
            old(self).call_manager.gas.fits(
                old(self).call_manager.price_list.on_recover_secp_public_key,
            ) ==> (match spec_secp_recover(hash@, signature@) {
                Some(k) => r matches Ok(v) && v@ == k && v@.len() == SECP_PUB_LEN,
                None => is_err(r, ErrorNumber::IllegalArgument),
            }),
    {
        let price = self.call_manager.price_list.on_recover_secp_public_key;
        self.call_manager.charge_gas(price)?;
        match secp_recover_public_key(hash, signature) {
            Some(k) => Ok(k),
            None => Err(KernelError::Syscall(ErrorNumber::IllegalArgument)),
        }
    }

    /// Computes the zero-padded piece layout of an unsealed sector; the
    /// proof backend derives the sector CID from it.
    pub fn compute_unsealed_sector_pieces(
        &mut self,
        proof_type: RegisteredSealProof,
        pieces: &[PieceInfo],
    ) -> (r: SyscallResult<Vec<SectorPiece>>)
        requires
            old(self).inv(),
        ensures
            final(self).inv(),
            Self::same_call(*old(self), *final(self)),
            Self::gas_monotone(*old(self), *final(self)),
            final(self).blocks == old(self).blocks,
            final(self).call_manager == (CallManager {
                gas: final(self).call_manager.gas,
                ..old(self).call_manager
            }),
            !old(self).call_manager.gas.fits(
                old(self).call_manager.price_list.on_compute_unsealed_sector_cid,
            ) ==> r == Err::<Vec<SectorPiece>, KernelError>(KernelError::OutOfGas),
            r is Ok ==> {
                &&& crate::crypto::spec_comm_entries(r->Ok_0@).len() == pieces@.len()
                &&& crate::crypto::spec_layout_total(r->Ok_0@) % (
                proof_type.spec_sector_size() as int) == 0
            },
            old(self).call_manager.gas.fits(
                old(self).call_manager.price_list.on_compute_unsealed_sector_cid,
            ) && (forall|i: int| 0 <= i < pieces@.len() ==> spec_piece_ok(#[trigger] pieces@[i]))
                && 2 * spec_input_prefix(pieces@, pieces@.len() as int)
                + proof_type.spec_sector_size() <= u64::MAX ==> r is Ok,
    {
        let price = self.call_manager.price_list.on_compute_unsealed_sector_cid;
        self.call_manager.charge_gas(price)?;
        match compute_unsealed_sector_layout(proof_type, pieces) {
            Ok(out) => Ok(out),
            Err(n) => Err(KernelError::Syscall(n)),
        }
    }

    /// Charges for a window PoSt and marshals it for the proof backend.
    pub fn verify_post_prepare(&mut self, verify_info: &WindowPoStVerifyInfo) -> (r: SyscallResult<
        WindowPoStInputs,
    >)
        requires
            old(self).inv(),
        ensures
            final(self).inv(),
            Self::same_call(*old(self), *final(self)),
            Self::gas_monotone(*old(self), *final(self)),
            final(self).blocks == old(self).blocks,
            final(self).call_manager == (CallManager {
                gas: final(self).call_manager.gas,
                ..old(self).call_manager
            }),
            !old(self).call_manager.gas.fits(old(self).call_manager.price_list.on_verify_post)
                ==> r == Err::<WindowPoStInputs, KernelError>(KernelError::OutOfGas),
            old(self).call_manager.gas.fits(old(self).call_manager.price_list.on_verify_post)
                ==> (if spec_post_info_ok(*verify_info) {
                r is Ok
            } else {
                is_err(r, ErrorNumber::IllegalArgument)
            }),
            r is Ok ==> spec_post_prepared(*verify_info, r->Ok_0),
    {
        let price = self.call_manager.price_list.on_verify_post;
        self.call_manager.charge_gas(price)?;
        match verify_post_prepare(verify_info) {
            Ok(out) => Ok(out),
            Err(n) => Err(KernelError::Syscall(n)),
        }
    }

    /// Charges for an aggregate seal proof and marshals it for the proof
    /// backend.
    pub fn verify_aggregate_seals_prepare(
        &mut self,
        aggregate: &AggregateSealVerifyProofAndInfos,
    ) -> (r: SyscallResult<AggregateSealInputs>)
        requires
            old(self).inv(),
        ensures
            final(self).inv(),
            Self::same_call(*old(self), *final(self)),
            Self::gas_monotone(*old(self), *final(self)),
            final(self).blocks == old(self).blocks,
            final(self).call_manager == (CallManager {
                gas: final(self).call_manager.gas,
                ..old(self).call_manager
            }),
            !old(self).call_manager.gas.fits(
                old(self).call_manager.price_list.on_verify_aggregate_seals,
            ) ==> r == Err::<AggregateSealInputs, KernelError>(KernelError::OutOfGas),
            old(self).call_manager.gas.fits(
                old(self).call_manager.price_list.on_verify_aggregate_seals,
            ) ==> (if spec_aggregate_ok(*aggregate) {
                r is Ok
            } else {
                is_err(r, ErrorNumber::IllegalArgument)
            }),
            r is Ok ==> spec_aggregate_prepared(*aggregate, r->Ok_0),
    {
        let price = self.call_manager.price_list.on_verify_aggregate_seals;
        self.call_manager.charge_gas(price)?;
        match verify_aggregate_seals_prepare(aggregate) {
            Ok(out) => Ok(out),
            Err(n) => Err(KernelError::Syscall(n)),
        }
    }

    /// Charges for a replica update proof and marshals it for the proof
    /// backend.
    pub fn verify_replica_update_prepare(&mut self, replica: &ReplicaUpdateInfo) -> (r:
        SyscallResult<ReplicaUpdateInputs>)
        requires
            old(self).inv(),
        ensures
            final(self).inv(),
            Self::same_call(*old(self), *final(self)),
            Self::gas_monotone(*old(self), *final(self)),
            final(self).blocks == old(self).blocks,
            final(self).call_manager == (CallManager {
                gas: final(self).call_manager.gas,
                ..old(self).call_manager
            }),
            !old(self).call_manager.gas.fits(
                old(self).call_manager.price_list.on_verify_replica_update,
            ) ==> r == Err::<ReplicaUpdateInputs, KernelError>(KernelError::OutOfGas),
            old(self).call_manager.gas.fits(
                old(self).call_manager.price_list.on_verify_replica_update,
            ) ==> (if spec_replica_ok(*replica) {
                r is Ok
            } else {
                is_err(r, ErrorNumber::IllegalArgument)
            }),
            r is Ok ==> spec_replica_prepared(*replica, r->Ok_0),
    {
        let price = self.call_manager.price_list.on_verify_replica_update;
        self.call_manager.charge_gas(price)?;
        match verify_replica_update_prepare(replica) {
            Ok(out) => Ok(out),
            Err(n) => Err(KernelError::Syscall(n)),
        }
    }

    /// Pre-charges the whole batch and marshals every item. Gas is charged
    /// per entry before any verification work begins: either the whole
    /// batch is affordable, or nothing runs. An item whose commitments do
    /// not marshal becomes `Invalid` and will verify as false; it never
    /// fails the batch.
    pub fn batch_verify_seals_prepare(&mut self, vis: &[SealVerifyInfo]) -> (r: SyscallResult<
        Vec<SealCheck>,
    >)
        requires
            old(self).inv(),
        ensures
            final(self).inv(),
            Self::same_call(*old(self), *final(self)),
            Self::gas_monotone(*old(self), *final(self)),
            final(self).blocks == old(self).blocks,
            final(self).call_manager == (CallManager {
                gas: final(self).call_manager.gas,
                ..old(self).call_manager
            }),
            r is Err ==> r == Err::<Vec<SealCheck>, KernelError>(KernelError::OutOfGas),
            old(self).call_manager.gas.used + vis@.len()
                * old(self).call_manager.price_list.on_verify_seal <= old(self).call_manager.gas.limit ==> r is Ok,
            r is Ok ==> r->Ok_0@.len() == vis@.len(),
            r is Ok ==> forall|i: int|
                0 <= i < vis@.len() ==> ((#[trigger] r->Ok_0@[i]) is Ready <==> spec_seal_info_ok(
                    vis@[i],
                )),
            r is Ok ==> forall|i: int|
                0 <= i < vis@.len() ==> (match #[trigger] r->Ok_0@[i] {
                    SealCheck::Ready(inp) => spec_seal_prepared(vis@[i], inp),
                    SealCheck::Invalid => true,
                }),
    {
        let n = vis.len();
        let mut i: usize = 0;
        while i < n
            invariant
                i <= n == vis@.len(),
                self.inv(),
                Self::same_call(*old(self), *self),
                Self::gas_monotone(*old(self), *self),
                self.blocks == old(self).blocks,
                self.call_manager == (CallManager {
                    gas: self.call_manager.gas,
                    ..old(self).call_manager
                }),
                self.call_manager.gas.used <= old(self).call_manager.gas.used + i * old(self).call_manager.price_list.on_verify_seal,
            decreases n - i,
        {
            let price = self.call_manager.price_list.on_verify_seal;
            proof {
                assert((i + 1) * price <= (n as int) * price) by (nonlinear_arith)
                    requires
                        0 <= i + 1 <= n && price >= 0,
                ;
                assert((i + 1) * price == i * price + price) by (nonlinear_arith);
            }
            self.call_manager.charge_gas(price)?;
            i += 1;
        }
        let mut checks: Vec<SealCheck> = Vec::new();
        let mut k: usize = 0;
        while k < n
            invariant
                k <= n == vis@.len(),
                checks@.len() == k,
                forall|i: int|
                    0 <= i < k ==> ((#[trigger] checks@[i]) is Ready <==> spec_seal_info_ok(
                        vis@[i],
                    )),
                forall|i: int|
                    0 <= i < k ==> (match #[trigger] checks@[i] {
                        SealCheck::Ready(inp) => spec_seal_prepared(vis@[i], inp),
                        SealCheck::Invalid => true,
                    }),
            decreases n - k,
        {
            let check = match verify_seal_prepare(&vis[k]) {
                Ok(inputs) => SealCheck::Ready(inputs),
                Err(_) => SealCheck::Invalid,
            };
            checks.push(check);
            k += 1;
        }
        Ok(checks)
    }
}

} // verus!
