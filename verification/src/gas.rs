//! Gas metering: the tracker shared by a call stack, and the price list
//! supplied by the network.
//!
//! Every observable kernel action is charged before (or, where the amount
//! depends on work discovered on the way, as soon as it is known). A charge
//! either fits within the limit and raises the used amount, or exhausts the
//! budget: the used amount then jumps to the limit and the charge fails.
//! Used gas never decreases.

use vstd::prelude::*;

use crate::error::{KernelError, SyscallResult};

verus! {

/// Tracks gas for one message execution. Shared down the call stack: a
/// child's consumption reduces the parent's remaining budget.
pub struct GasTracker {
    pub used: u64,
    pub limit: u64,
}

impl GasTracker {
    pub open spec fn wf(self) -> bool {
        self.used <= self.limit
    }

    /// Whether a charge of `amount` fits in the remaining budget.
    pub open spec fn fits(self, amount: u64) -> bool {
        self.used + amount <= self.limit
    }

    pub fn new(limit: u64) -> (r: GasTracker)
        ensures
            r.wf(),
            r.used == 0,
            r.limit == limit,
    {
        GasTracker { used: 0, limit }
    }

    /// Applies a charge. On exhaustion the whole budget is consumed and the
    /// charge fails; either way used gas does not decrease.
    pub fn charge(&mut self, amount: u64) -> (r: SyscallResult<()>)
        requires
            old(self).wf(),
        ensures
            final(self).wf(),
            final(self).limit == old(self).limit,
            final(self).used >= old(self).used,
            r is Ok <==> old(self).fits(amount),
            r is Ok ==> final(self).used == old(self).used + amount,
            r is Err ==> r == Err::<(), KernelError>(KernelError::OutOfGas) && final(self).used
                == old(self).limit,
    {
        match self.used.checked_add(amount) {
            Some(next) if next <= self.limit => {
                self.used = next;
                Ok(())
            },
            _ => {
                self.used = self.limit;
                Err(KernelError::OutOfGas)
            },
        }
    }

    pub fn gas_used(&self) -> (r: u64)
        ensures
            r == self.used,
    {
        self.used
    }

    pub fn gas_available(&self) -> (r: u64)
        requires
            self.wf(),
        ensures
            r == self.limit - self.used,
    {
        self.limit - self.used
    }
}

/// A quantity capped at the top of the gas range.
pub open spec fn spec_sat_u64(n: nat) -> u64 {
    if n <= u64::MAX {
        n as u64
    } else {
        u64::MAX
    }
}

/// A linear cost `base + per * n`, saturating at the top of the gas range.
pub open spec fn spec_linear_cost(base: u64, per: u64, n: nat) -> u64 {
    if base + per * n <= u64::MAX {
        (base + per * n) as u64
    } else {
        u64::MAX
    }
}

/// Evaluates a linear cost with saturation.
pub fn linear_cost(base: u64, per: u64, n: u64) -> (r: u64)
    ensures
        r == spec_linear_cost(base, per, n as nat),
{
    match per.checked_mul(n) {
        Some(m) => base.saturating_add(m),
        None => {
            proof {
                assert(per * n > u64::MAX);
            }
            u64::MAX
        },
    }
}

/// The network's price table: closed-form costs for every priced operation.
/// The values are supplied by the embedder; the kernel only evaluates them.
pub struct PriceList {
    pub on_get_root: u64,
    pub on_set_root: u64,
    pub on_self_balance: u64,
    pub on_delete_actor: u64,
    pub on_block_open_base: u64,
    pub on_block_open_per_byte: u64,
    pub on_block_open_per_link: u64,
    pub on_block_create_base: u64,
    pub on_block_create_per_byte: u64,
    pub on_block_create_per_link: u64,
    pub on_block_link_base: u64,
    pub on_block_link_per_byte: u64,
    pub on_block_read_base: u64,
    pub on_block_read_per_byte: u64,
    pub on_block_stat: u64,
    pub on_ipld_link: u64,
    pub on_message_context: u64,
    pub on_network_context: u64,
    pub on_tipset_cid_base: u64,
    pub on_tipset_cid_per_epoch: u64,
    pub on_get_randomness_base: u64,
    pub on_get_randomness_per_epoch: u64,
    pub on_verify_aggregate_signature_base: u64,
    pub on_verify_aggregate_signature_per_signer: u64,
    pub on_verify_aggregate_signature_per_byte: u64,
    pub on_recover_secp_public_key: u64,
    pub on_hashing_base: u64,
    pub on_hashing_per_byte: u64,
    pub on_compute_unsealed_sector_cid: u64,
    pub on_verify_post: u64,
    pub on_verify_consensus_fault: u64,
    pub on_verify_seal: u64,
    pub on_verify_aggregate_seals: u64,
    pub on_verify_replica_update: u64,
    pub on_resolve_address: u64,
    pub on_get_actor_code_cid: u64,
    pub on_create_actor: u64,
    pub on_actor_event_base: u64,
    pub on_actor_event_per_entry: u64,
    pub on_actor_event_per_byte: u64,
    pub on_get_builtin_actor_type: u64,
    pub on_get_code_cid_for_type: u64,
    pub on_balance_of: u64,
    pub on_lookup_delegated_address: u64,
}

impl PriceList {
    /// Cost of finalising `block_open`: proportional to bytes loaded and
    /// links scanned.
    pub open spec fn spec_block_open(self, size: nat, links: nat) -> u64 {
        spec_linear_cost(
            spec_linear_cost(self.on_block_open_base, self.on_block_open_per_byte, size),
            self.on_block_open_per_link,
            links,
        )
    }

    pub fn block_open_cost(&self, size: usize, links: usize) -> (r: u64)
        ensures
            r == self.spec_block_open(size as nat, links as nat),
    {
        linear_cost(
            linear_cost(self.on_block_open_base, self.on_block_open_per_byte, size as u64),
            self.on_block_open_per_link,
            links as u64,
        )
    }

    pub open spec fn spec_block_create(self, size: nat, links: nat) -> u64 {
        spec_linear_cost(
            spec_linear_cost(self.on_block_create_base, self.on_block_create_per_byte, size),
            self.on_block_create_per_link,
            links,
        )
    }

    pub fn block_create_cost(&self, size: usize, links: usize) -> (r: u64)
        ensures
            r == self.spec_block_create(size as nat, links as nat),
    {
        linear_cost(
            linear_cost(self.on_block_create_base, self.on_block_create_per_byte, size as u64),
            self.on_block_create_per_link,
            links as u64,
        )
    }

    pub open spec fn spec_block_link(self, size: nat) -> u64 {
        spec_linear_cost(self.on_block_link_base, self.on_block_link_per_byte, size)
    }

    pub fn block_link_cost(&self, size: usize) -> (r: u64)
        ensures
            r == self.spec_block_link(size as nat),
    {
        linear_cost(self.on_block_link_base, self.on_block_link_per_byte, size as u64)
    }

    pub open spec fn spec_block_read(self, size: nat) -> u64 {
        spec_linear_cost(self.on_block_read_base, self.on_block_read_per_byte, size)
    }

    pub fn block_read_cost(&self, size: usize) -> (r: u64)
        ensures
            r == self.spec_block_read(size as nat),
    {
        linear_cost(self.on_block_read_base, self.on_block_read_per_byte, size as u64)
    }

    pub open spec fn spec_tipset_cid(self, offset: nat) -> u64 {
        spec_linear_cost(self.on_tipset_cid_base, self.on_tipset_cid_per_epoch, offset)
    }

    pub fn tipset_cid_cost(&self, offset: u64) -> (r: u64)
        ensures
            r == self.spec_tipset_cid(offset as nat),
    {
        linear_cost(self.on_tipset_cid_base, self.on_tipset_cid_per_epoch, offset)
    }

    pub open spec fn spec_get_randomness(self, lookback: nat) -> u64 {
        spec_linear_cost(
            self.on_get_randomness_base,
            self.on_get_randomness_per_epoch,
            lookback,
        )
    }

    pub fn get_randomness_cost(&self, lookback: u64) -> (r: u64)
        ensures
            r == self.spec_get_randomness(lookback as nat),
    {
        linear_cost(self.on_get_randomness_base, self.on_get_randomness_per_epoch, lookback)
    }

    pub open spec fn spec_verify_aggregate_signature(self, signers: nat, bytes: nat) -> u64 {
        spec_linear_cost(
            spec_linear_cost(
                self.on_verify_aggregate_signature_base,
                self.on_verify_aggregate_signature_per_signer,
                signers,
            ),
            self.on_verify_aggregate_signature_per_byte,
            bytes,
        )
    }

    pub fn verify_aggregate_signature_cost(&self, signers: usize, bytes: usize) -> (r: u64)
        ensures
            r == self.spec_verify_aggregate_signature(signers as nat, bytes as nat),
    {
        linear_cost(
            linear_cost(
                self.on_verify_aggregate_signature_base,
                self.on_verify_aggregate_signature_per_signer,
                signers as u64,
            ),
            self.on_verify_aggregate_signature_per_byte,
            bytes as u64,
        )
    }

    pub open spec fn spec_hashing(self, size: nat) -> u64 {
        spec_linear_cost(self.on_hashing_base, self.on_hashing_per_byte, size)
    }

    pub fn hashing_cost(&self, size: usize) -> (r: u64)
        ensures
            r == self.spec_hashing(size as nat),
    {
        linear_cost(self.on_hashing_base, self.on_hashing_per_byte, size as u64)
    }

    /// Cost of validating and emitting an actor event.
    pub open spec fn spec_actor_event(self, entries: nat, keys: nat, values: nat) -> u64 {
        spec_linear_cost(
            spec_linear_cost(self.on_actor_event_base, self.on_actor_event_per_entry, entries),
            self.on_actor_event_per_byte,
            spec_sat_u64(keys + values) as nat,
        )
    }

    pub fn actor_event_cost(&self, entries: usize, keys: usize, values: usize) -> (r: u64)
        ensures
            r == self.spec_actor_event(entries as nat, keys as nat, values as nat),
    {
        linear_cost(
            linear_cost(self.on_actor_event_base, self.on_actor_event_per_entry, entries as u64),
            self.on_actor_event_per_byte,
            (keys as u64).saturating_add(values as u64),
        )
    }
}

} // verus!
