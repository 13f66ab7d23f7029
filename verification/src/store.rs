//! The persistent block store, modelled as a flat table from CID to bytes.
//!
//! The store is shared by the whole machine; the kernel reads blocks that
//! are reachable and persists blocks on `block_link`. Every stored block
//! fits a 32-bit signed length, which `put_keyed` preserves.

use vstd::prelude::*;

use crate::bytes::{bytes_clone, bytes_of_range};
use crate::cid::{Cid, CidView};

verus! {

struct StoreSlot {
    key: Cid,
    data: Vec<u8>,
}

/// A content-addressed block store.
pub struct BlockStore {
    slots: Vec<StoreSlot>,
}

impl BlockStore {
    /// Keys are unique and every stored block fits a 32-bit signed length.
    pub closed spec fn inv(self) -> bool {
        &&& forall|i: int, j: int|
            0 <= i < self.slots@.len() && 0 <= j < self.slots@.len() && self.slots@[i].key@
                == self.slots@[j].key@ ==> i == j
        &&& forall|i: int|
            0 <= i < self.slots@.len() ==> (#[trigger] self.slots@[i].data@).len() <= 0x7fff_ffff
    }

    /// Whether the store holds a block under this CID.
    pub closed spec fn spec_contains(self, c: CidView) -> bool {
        exists|i: int| 0 <= i < self.slots@.len() && self.slots@[i].key@ == c
    }

    /// The bytes stored under a CID, if any.
    pub closed spec fn spec_get(self, c: CidView) -> Option<Seq<u8>> {
        if self.spec_contains(c) {
            let i = choose|i: int| 0 <= i < self.slots@.len() && self.slots@[i].key@ == c;
            Some(self.slots@[i].data@)
        } else {
            None
        }
    }

    pub fn new() -> (r: BlockStore)
        ensures
            r.inv(),
            forall|c: CidView| r.spec_get(c) == None::<Seq<u8>>,
    {
        BlockStore { slots: Vec::new() }
    }

    fn find(&self, c: &Cid) -> (r: Option<usize>)
        requires
            self.inv(),
        ensures
            match r {
                Some(i) => i < self.slots@.len() && self.slots@[i as int].key@ == c@,
                None => forall|i: int| 0 <= i < self.slots@.len() ==> self.slots@[i].key@ != c@,
            },
    {
        let n = self.slots.len();
        let mut i: usize = 0;
        while i < n
            invariant
                i <= n == self.slots@.len(),
                forall|j: int| 0 <= j < i ==> self.slots@[j].key@ != c@,
            decreases n - i,
        {
            if self.slots[i].key.eq_cid(c) {
                return Some(i);
            }
            i += 1;
        }
        None
    }

    /// The bytes stored under a CID, or `None`.
    pub fn get(&self, c: &Cid) -> (r: Option<Vec<u8>>)
        requires
            self.inv(),
        ensures
            match r {
                Some(d) => self.spec_get(c@) == Some(d@) && d@.len() <= 0x7fff_ffff,
                None => self.spec_get(c@) == None::<Seq<u8>>,
            },
    {
        match self.find(c) {
            Some(i) => {
                proof {
                    let w = choose|w: int|
                        0 <= w < self.slots@.len() && self.slots@[w].key@ == c@;
                    assert(w == i);
                }
                Some(bytes_clone(&self.slots[i].data))
            },
            None => None,
        }
    }

    /// Stores bytes under a CID, replacing any previous block under it.
    pub fn put_keyed(&mut self, c: &Cid, data: &[u8])
        requires
            old(self).inv(),
            data@.len() <= 0x7fff_ffff,
        ensures
            final(self).inv(),
            final(self).spec_get(c@) == Some(data@),
            forall|x: CidView| x != c@ ==> final(self).spec_get(x) == old(self).spec_get(x),
    {
        let ghost pre = *self;
        let stored = bytes_of_range(data, 0, data.len());
        proof {
            assert(stored@ =~= data@);
        }
        match self.find(c) {
            Some(i) => {
                self.slots[i] = StoreSlot { key: c.duplicate(), data: stored };
                proof {
                    lemma_store_update(pre, *self, i as int, c@, data@);
                }
            },
            None => {
                self.slots.push(StoreSlot { key: c.duplicate(), data: stored });
                proof {
                    lemma_store_push(pre, *self, c@, data@);
                }
            },
        }
    }
}

/// Replacing slot `i` (which holds `c`) affects only `c`.
proof fn lemma_store_update(pre: BlockStore, post: BlockStore, i: int, c: CidView, d: Seq<u8>)
    requires
        pre.inv(),
        0 <= i < pre.slots@.len(),
        pre.slots@[i].key@ == c,
        d.len() <= 0x7fff_ffff,
        post.slots@.len() == pre.slots@.len(),
        post.slots@[i].key@ == c,
        post.slots@[i].data@ == d,
        forall|j: int| 0 <= j < pre.slots@.len() && j != i ==> post.slots@[j] == pre.slots@[j],
    ensures
        post.inv(),
        post.spec_get(c) == Some(d),
        forall|x: CidView| x != c ==> post.spec_get(x) == pre.spec_get(x),
{
    assert forall|a: int, b: int|
        0 <= a < post.slots@.len() && 0 <= b < post.slots@.len() && post.slots@[a].key@
            == post.slots@[b].key@ implies a == b by {
        assert(post.slots@[a].key@ == pre.slots@[a].key@);
        assert(post.slots@[b].key@ == pre.slots@[b].key@);
    }
    assert(post.spec_contains(c));
    store_get_witness(post, c, i);
    assert forall|x: CidView| x != c implies post.spec_get(x) == pre.spec_get(x) by {
        if pre.spec_contains(x) {
            let w = choose|w: int| 0 <= w < pre.slots@.len() && pre.slots@[w].key@ == x;
            assert(w != i);
            assert(post.slots@[w] == pre.slots@[w]);
            store_get_witness(post, x, w);
            store_get_witness(pre, x, w);
        } else {
            if post.spec_contains(x) {
                let w = choose|w: int| 0 <= w < post.slots@.len() && post.slots@[w].key@ == x;
                assert(w != i);
                assert(pre.slots@[w] == post.slots@[w]);
            }
        }
    }
}

/// Appending a fresh slot for `c` (no slot holds `c` yet) affects only `c`.
proof fn lemma_store_push(pre: BlockStore, post: BlockStore, c: CidView, d: Seq<u8>)
    requires
        pre.inv(),
        forall|j: int| 0 <= j < pre.slots@.len() ==> pre.slots@[j].key@ != c,
        d.len() <= 0x7fff_ffff,
        post.slots@.len() == pre.slots@.len() + 1,
        post.slots@.last().key@ == c,
        post.slots@.last().data@ == d,
        forall|j: int| 0 <= j < pre.slots@.len() ==> post.slots@[j] == pre.slots@[j],
    ensures
        post.inv(),
        post.spec_get(c) == Some(d),
        forall|x: CidView| x != c ==> post.spec_get(x) == pre.spec_get(x),
{
    let n = pre.slots@.len() as int;
    assert forall|a: int, b: int|
        0 <= a < post.slots@.len() && 0 <= b < post.slots@.len() && post.slots@[a].key@
            == post.slots@[b].key@ implies a == b by {
        if a < n && b < n {
            assert(pre.slots@[a].key@ == pre.slots@[b].key@);
        }
    }
    assert(post.slots@[n].key@ == c);
    assert(post.spec_contains(c));
    store_get_witness(post, c, n);
    assert forall|x: CidView| x != c implies post.spec_get(x) == pre.spec_get(x) by {
        if pre.spec_contains(x) {
            let w = choose|w: int| 0 <= w < pre.slots@.len() && pre.slots@[w].key@ == x;
            store_get_witness(post, x, w);
            store_get_witness(pre, x, w);
        } else {
            if post.spec_contains(x) {
                let w = choose|w: int| 0 <= w < post.slots@.len() && post.slots@[w].key@ == x;
                assert(w < n);
            }
        }
    }
}

/// Any slot holding `c` is the slot `spec_get` reads.
proof fn store_get_witness(s: BlockStore, c: CidView, i: int)
    requires
        s.inv(),
        0 <= i < s.slots@.len(),
        s.slots@[i].key@ == c,
    ensures
        s.spec_get(c) == Some(s.slots@[i].data@),
{
    assert(s.spec_contains(c));
    let w = choose|w: int| 0 <= w < s.slots@.len() && s.slots@[w].key@ == c;
    assert(w == i);
}

} // verus!
