//! The actor state tree, modelled as a flat table.
//!
//! Each actor ID appears at most once. Deletion leaves a tombstone so that
//! positions are stable, which keeps every operation an in-place update or
//! an append; the tombstone is invisible through the public interface.

use vstd::prelude::*;

use crate::address::{Address, AddressView};
use crate::cid::{Cid, CidView};

verus! {

/// The stored state of one actor.
pub struct ActorState {
    pub code: Cid,
    pub state: Cid,
    pub balance: u128,
    pub sequence: u64,
    pub delegated_address: Option<Address>,
}

/// Mathematical value of an actor's state.
pub struct ActorStateView {
    pub code: CidView,
    pub state: CidView,
    pub balance: u128,
    pub sequence: u64,
    pub delegated_address: Option<AddressView>,
}

impl View for ActorState {
    type V = ActorStateView;

    open spec fn view(&self) -> ActorStateView {
        ActorStateView {
            code: self.code@,
            state: self.state@,
            balance: self.balance,
            sequence: self.sequence,
            delegated_address: match self.delegated_address {
                Some(a) => Some(a@),
                None => None,
            },
        }
    }
}

impl ActorState {
    pub fn new(
        code: Cid,
        state: Cid,
        balance: u128,
        sequence: u64,
        delegated_address: Option<Address>,
    ) -> (r: ActorState)
        ensures
            r@.code == code@,
            r@.state == state@,
            r@.balance == balance,
            r@.sequence == sequence,
            r@.delegated_address == (match delegated_address {
                Some(a) => Some(a@),
                None => None::<AddressView>,
            }),
    {
        ActorState { code, state, balance, sequence, delegated_address }
    }

    /// An identical copy.
    pub fn duplicate(&self) -> (r: ActorState)
        ensures
            r@ == self@,
    {
        ActorState {
            code: self.code.duplicate(),
            state: self.state.duplicate(),
            balance: self.balance,
            sequence: self.sequence,
            delegated_address: match &self.delegated_address {
                Some(a) => Some(a.duplicate()),
                None => None,
            },
        }
    }
}

struct ActorSlot {
    id: u64,
    present: bool,
    state: ActorState,
}

/// The state tree: a map from actor ID to actor state.
pub struct StateTree {
    slots: Vec<ActorSlot>,
}

impl StateTree {
    /// Each actor ID occupies at most one slot.
    pub closed spec fn inv(self) -> bool {
        forall|i: int, j: int|
            0 <= i < self.slots@.len() && 0 <= j < self.slots@.len() && self.slots@[i].id
                == self.slots@[j].id ==> i == j
    }

    /// Whether an actor exists.
    pub closed spec fn spec_contains(self, id: u64) -> bool {
        exists|i: int| 0 <= i < self.slots@.len() && self.slots@[i].id == id && self.slots@[i].present
    }

    /// The state of an actor, if it exists.
    pub closed spec fn spec_get(self, id: u64) -> Option<ActorStateView> {
        if self.spec_contains(id) {
            let i = choose|i: int|
                0 <= i < self.slots@.len() && self.slots@[i].id == id && self.slots@[i].present;
            Some(self.slots@[i].state@)
        } else {
            None
        }
    }

    pub fn new() -> (r: StateTree)
        ensures
            r.inv(),
            forall|id: u64| r.spec_get(id) == None::<ActorStateView>,
    {
        StateTree { slots: Vec::new() }
    }

    /// The slot index holding `id`, present or not.
    fn find(&self, id: u64) -> (r: Option<usize>)
        requires
            self.inv(),
        ensures
            match r {
                Some(i) => i < self.slots@.len() && self.slots@[i as int].id == id,
                None => forall|i: int| 0 <= i < self.slots@.len() ==> self.slots@[i].id != id,
            },
    {
        let n = self.slots.len();
        let mut i: usize = 0;
        while i < n
            invariant
                i <= n == self.slots@.len(),
                forall|j: int| 0 <= j < i ==> self.slots@[j].id != id,
            decreases n - i,
        {
            if self.slots[i].id == id {
                return Some(i);
            }
            i += 1;
        }
        None
    }

    /// The actor's state, or `None` if it does not exist.
    pub fn get_actor(&self, id: u64) -> (r: Option<ActorState>)
        requires
            self.inv(),
        ensures
            match r {
                Some(st) => self.spec_get(id) == Some(st@),
                None => self.spec_get(id) == None::<ActorStateView>,
            },
    {
        match self.find(id) {
            Some(i) => {
                if self.slots[i].present {
                    proof {
                        let w = choose|w: int|
                            0 <= w < self.slots@.len() && self.slots@[w].id == id
                                && self.slots@[w].present;
                        assert(w == i);
                    }
                    Some(self.slots[i].state.duplicate())
                } else {
                    proof {
                        if self.spec_contains(id) {
                            let w = choose|w: int|
                                0 <= w < self.slots@.len() && self.slots@[w].id == id
                                    && self.slots@[w].present;
                            assert(w == i as int);
                        }
                    }
                    None
                }
            },
            None => None,
        }
    }

    /// Creates or replaces the actor's state.
    pub fn set_actor(&mut self, id: u64, state: ActorState)
        requires
            old(self).inv(),
        ensures
            final(self).inv(),
            final(self).spec_get(id) == Some(state@),
            forall|x: u64| x != id ==> final(self).spec_get(x) == old(self).spec_get(x),
    {
        let ghost pre = *self;
        let ghost stv = state@;
        match self.find(id) {
            Some(i) => {
                self.slots[i] = ActorSlot { id, present: true, state };
                proof {
                    lemma_slot_update(pre, *self, i as int, id, stv);
                }
            },
            None => {
                self.slots.push(ActorSlot { id, present: true, state });
                proof {
                    lemma_slot_push(pre, *self, id, stv);
                }
            },
        }
    }

    /// Removes the actor if it exists; a no-op otherwise.
    pub fn delete_actor(&mut self, id: u64)
        requires
            old(self).inv(),
        ensures
            final(self).inv(),
            final(self).spec_get(id) == None::<ActorStateView>,
            forall|x: u64| x != id ==> final(self).spec_get(x) == old(self).spec_get(x),
    {
        let ghost pre = *self;
        match self.find(id) {
            Some(i) => {
                let state = self.slots[i].state.duplicate();
                self.slots[i] = ActorSlot { id, present: false, state };
                proof {
                    lemma_slot_tombstone(pre, *self, i as int, id);
                }
            },
            None => {},
        }
    }
}

/// Replacing slot `i` (which holds `id`) with a present state affects only
/// `id`.
proof fn lemma_slot_update(pre: StateTree, post: StateTree, i: int, id: u64, stv: ActorStateView)
    requires
        pre.inv(),
        0 <= i < pre.slots@.len(),
        pre.slots@[i].id == id,
        post.slots@.len() == pre.slots@.len(),
        post.slots@[i].id == id,
        post.slots@[i].present,
        post.slots@[i].state@ == stv,
        forall|j: int| 0 <= j < pre.slots@.len() && j != i ==> post.slots@[j] == pre.slots@[j],
    ensures
        post.inv(),
        post.spec_get(id) == Some(stv),
        forall|x: u64| x != id ==> post.spec_get(x) == pre.spec_get(x),
{
    assert forall|a: int, b: int|
        0 <= a < post.slots@.len() && 0 <= b < post.slots@.len() && post.slots@[a].id
            == post.slots@[b].id implies a == b by {
        assert(post.slots@[a].id == pre.slots@[a].id);
        assert(post.slots@[b].id == pre.slots@[b].id);
    }
    assert(post.spec_contains(id));
    proof_get_witness(post, id, i);
    assert forall|x: u64| x != id implies post.spec_get(x) == pre.spec_get(x) by {
        if pre.spec_contains(x) {
            let w = choose|w: int|
                0 <= w < pre.slots@.len() && pre.slots@[w].id == x && pre.slots@[w].present;
            assert(w != i);
            assert(post.slots@[w] == pre.slots@[w]);
            proof_get_witness(post, x, w);
            proof_get_witness(pre, x, w);
        } else {
            if post.spec_contains(x) {
                let w = choose|w: int|
                    0 <= w < post.slots@.len() && post.slots@[w].id == x && post.slots@[w].present;
                assert(w != i);
                assert(pre.slots@[w] == post.slots@[w]);
            }
        }
    }
}

/// Appending a fresh slot for `id` (no slot holds `id` yet) affects only
/// `id`.
proof fn lemma_slot_push(pre: StateTree, post: StateTree, id: u64, stv: ActorStateView)
    requires
        pre.inv(),
        forall|j: int| 0 <= j < pre.slots@.len() ==> pre.slots@[j].id != id,
        post.slots@.len() == pre.slots@.len() + 1,
        post.slots@.last().id == id,
        post.slots@.last().present,
        post.slots@.last().state@ == stv,
        forall|j: int| 0 <= j < pre.slots@.len() ==> post.slots@[j] == pre.slots@[j],
    ensures
        post.inv(),
        post.spec_get(id) == Some(stv),
        forall|x: u64| x != id ==> post.spec_get(x) == pre.spec_get(x),
{
    let n = pre.slots@.len() as int;
    assert forall|a: int, b: int|
        0 <= a < post.slots@.len() && 0 <= b < post.slots@.len() && post.slots@[a].id
            == post.slots@[b].id implies a == b by {
        if a < n && b < n {
            assert(pre.slots@[a].id == pre.slots@[b].id);
        }
    }
    assert(post.slots@[n].id == id && post.slots@[n].present);
    assert(post.spec_contains(id));
    proof_get_witness(post, id, n);
    assert forall|x: u64| x != id implies post.spec_get(x) == pre.spec_get(x) by {
        if pre.spec_contains(x) {
            let w = choose|w: int|
                0 <= w < pre.slots@.len() && pre.slots@[w].id == x && pre.slots@[w].present;
            proof_get_witness(post, x, w);
            proof_get_witness(pre, x, w);
        } else {
            if post.spec_contains(x) {
                let w = choose|w: int|
                    0 <= w < post.slots@.len() && post.slots@[w].id == x && post.slots@[w].present;
                assert(w < n);
            }
        }
    }
}

/// Tombstoning slot `i` (which holds `id`) affects only `id`.
proof fn lemma_slot_tombstone(pre: StateTree, post: StateTree, i: int, id: u64)
    requires
        pre.inv(),
        0 <= i < pre.slots@.len(),
        pre.slots@[i].id == id,
        post.slots@.len() == pre.slots@.len(),
        post.slots@[i].id == id,
        !post.slots@[i].present,
        forall|j: int| 0 <= j < pre.slots@.len() && j != i ==> post.slots@[j] == pre.slots@[j],
    ensures
        post.inv(),
        post.spec_get(id) == None::<ActorStateView>,
        forall|x: u64| x != id ==> post.spec_get(x) == pre.spec_get(x),
{
    assert forall|a: int, b: int|
        0 <= a < post.slots@.len() && 0 <= b < post.slots@.len() && post.slots@[a].id
            == post.slots@[b].id implies a == b by {
        assert(post.slots@[a].id == pre.slots@[a].id);
        assert(post.slots@[b].id == pre.slots@[b].id);
    }
    if post.spec_contains(id) {
        let w = choose|w: int|
            0 <= w < post.slots@.len() && post.slots@[w].id == id && post.slots@[w].present;
        assert(pre.slots@[w].id == id);
        assert(w == i);
    }
    assert forall|x: u64| x != id implies post.spec_get(x) == pre.spec_get(x) by {
        if pre.spec_contains(x) {
            let w = choose|w: int|
                0 <= w < pre.slots@.len() && pre.slots@[w].id == x && pre.slots@[w].present;
            assert(w != i);
            proof_get_witness(post, x, w);
            proof_get_witness(pre, x, w);
        } else {
            if post.spec_contains(x) {
                let w = choose|w: int|
                    0 <= w < post.slots@.len() && post.slots@[w].id == x && post.slots@[w].present;
                assert(w != i);
                assert(pre.slots@[w] == post.slots@[w]);
            }
        }
    }
}

/// In a well-formed tree, any present slot holding `id` is the slot
/// `spec_get` reads.
proof fn proof_get_witness(t: StateTree, id: u64, i: int)
    requires
        t.inv(),
        0 <= i < t.slots@.len(),
        t.slots@[i].id == id,
        t.slots@[i].present,
    ensures
        t.spec_get(id) == Some(t.slots@[i].state@),
{
    assert(t.spec_contains(id));
    let w = choose|w: int|
        0 <= w < t.slots@.len() && t.slots@[w].id == id && t.slots@[w].present;
    assert(w == i);
}

} // verus!
