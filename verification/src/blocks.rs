//! The per-invocation block registry.
//!
//! The registry maps small non-zero handles to blocks and maintains the set
//! of CIDs the invocation may reach. Its central invariant: every child CID
//! of every registered block is reachable, and the reachable set only grows
//! for the lifetime of the kernel. Handles are stable; blocks are never
//! evicted. Child kernels start with an empty registry.

use vstd::prelude::*;

use crate::bytes::bytes_clone;
use crate::cid::{Cid, CidView};
use crate::error::{is_err, ErrorNumber, KernelError, SyscallResult};

verus! {

/// The handle value reserved to mean "no block".
pub const NO_DATA_BLOCK_ID: u32 = 0;

/// Handles are 32-bit non-negative identifiers; the registry is full once
/// this many blocks are registered.
pub const MAX_BLOCKS: u32 = 0x7fff_ffff;

/// An immutable content-addressed block: a codec, the data, and the CIDs its
/// IPLD links reference.
pub struct Block {
    pub codec: u64,
    pub data: Vec<u8>,
    pub children: Vec<Cid>,
}

/// Mathematical value of a block.
pub struct BlockView {
    pub codec: u64,
    pub data: Seq<u8>,
    pub children: Seq<CidView>,
}

impl View for Block {
    type V = BlockView;

    open spec fn view(&self) -> BlockView {
        BlockView {
            codec: self.codec,
            data: self.data@,
            children: self.children@.map_values(|c: Cid| c@),
        }
    }
}

impl BlockView {
    /// Block data always fits a 32-bit signed length, so `block_read`'s
    /// return arithmetic is meaningful.
    pub open spec fn wf(self) -> bool {
        self.data.len() <= 0x7fff_ffff
    }
}

/// A block's stat record: its codec and its size in bytes.
#[derive(Clone, Copy, PartialEq, Eq, Structural, Debug)]
pub struct BlockStat {
    pub codec: u64,
    pub size: u32,
}

impl Block {
    pub fn new(codec: u64, data: Vec<u8>, children: Vec<Cid>) -> (r: Block)
        ensures
            r@.codec == codec,
            r@.data == data@,
            r@.children == children@.map_values(|c: Cid| c@),
    {
        Block { codec, data, children }
    }

    pub fn stat(&self) -> (r: BlockStat)
        requires
            self@.wf(),
        ensures
            r.codec == self@.codec,
            r.size == self@.data.len(),
    {
        BlockStat { codec: self.codec, size: self.data.len() as u32 }
    }

    /// An identical copy.
    pub fn duplicate(&self) -> (r: Block)
        ensures
            r@ == self@,
    {
        let mut children: Vec<Cid> = Vec::new();
        let n = self.children.len();
        let mut i: usize = 0;
        while i < n
            invariant
                i <= n == self.children@.len(),
                children@.len() == i,
                forall|j: int| 0 <= j < i ==> children@[j]@ == self.children@[j]@,
            decreases n - i,
        {
            children.push(self.children[i].duplicate());
            i += 1;
        }
        let r = Block { codec: self.codec, data: bytes_clone(&self.data), children };
        proof {
            assert(r@.children =~= self@.children);
        }
        r
    }
}

/// Tracks block data and organises it through handles, together with the set
/// of CIDs this invocation is allowed to open or link to.
pub struct BlockRegistry {
    blocks: Vec<Block>,
    reachable: Vec<Cid>,
}

impl BlockRegistry {
    /// The registered blocks, in handle order: handle `h` is block `h - 1`.
    pub closed spec fn blocks_view(self) -> Seq<BlockView> {
        self.blocks@.map_values(|b: Block| b@)
    }

    /// Whether a CID is in the reachable set.
    pub closed spec fn spec_reachable(self, c: CidView) -> bool {
        exists|i: int| 0 <= i < self.reachable@.len() && self.reachable@[i]@ == c
    }

    /// Block reachability closure: every child CID of every registered block
    /// is reachable, and every block is well formed.
    pub closed spec fn inv(self) -> bool {
        &&& forall|i: int|
            0 <= i < self.blocks_view().len() ==> (#[trigger] self.blocks_view()[i]).wf()
        &&& forall|i: int, j: int|
            0 <= i < self.blocks_view().len() && 0 <= j < self.blocks_view()[i].children.len()
                ==> self.spec_reachable(#[trigger] self.blocks_view()[i].children[j])
    }

    /// A valid handle: non-zero and previously returned by a `put`.
    pub open spec fn spec_is_valid_handle(self, id: u32) -> bool {
        1 <= id <= self.blocks_view().len()
    }

    /// The block a valid handle refers to.
    pub open spec fn spec_get(self, id: u32) -> BlockView {
        self.blocks_view()[id - 1]
    }

    pub closed spec fn spec_len(self) -> nat {
        self.blocks@.len()
    }

    pub closed spec fn spec_is_full(self) -> bool {
        self.blocks@.len() >= MAX_BLOCKS
    }

    pub fn new() -> (r: BlockRegistry)
        ensures
            r.inv(),
            r.blocks_view() == Seq::<BlockView>::empty(),
            r.spec_len() == 0,
            !r.spec_is_full(),
            forall|c: CidView| !r.spec_reachable(c),
    {
        let r = BlockRegistry { blocks: Vec::new(), reachable: Vec::new() };
        proof {
            assert(r.blocks_view() =~= Seq::<BlockView>::empty());
        }
        r
    }

    /// Adds a CID to the reachable set.
    pub fn mark_reachable(&mut self, c: &Cid)
        requires
            old(self).inv(),
        ensures
            final(self).inv(),
            final(self).blocks_view() == old(self).blocks_view(),
            final(self).spec_len() == old(self).spec_len(),
            final(self).spec_reachable(c@),
            forall|x: CidView| old(self).spec_reachable(x) ==> final(self).spec_reachable(x),
            forall|x: CidView|
                final(self).spec_reachable(x) ==> old(self).spec_reachable(x) || x == c@,
    {
        let ghost pre = *self;
        self.reachable.push(c.duplicate());
        proof {
            assert(self.blocks_view() =~= pre.blocks_view());
            assert forall|x: CidView| pre.spec_reachable(x) implies self.spec_reachable(x) by {
                let i = choose|i: int|
                    0 <= i < pre.reachable@.len() && pre.reachable@[i]@ == x;
                assert(self.reachable@[i]@ == x);
            }
            assert(self.reachable@[pre.reachable@.len() as int]@ == c@);
        }
    }

    /// Whether a CID is reachable.
    pub fn is_reachable(&self, c: &Cid) -> (r: bool)
        ensures
            r == self.spec_reachable(c@),
    {
        let n = self.reachable.len();
        let mut i: usize = 0;
        while i < n
            invariant
                i <= n == self.reachable@.len(),
                forall|j: int| 0 <= j < i ==> self.reachable@[j]@ != c@,
            decreases n - i,
        {
            if self.reachable[i].eq_cid(c) {
                return true;
            }
            i += 1;
        }
        false
    }

    pub fn is_full(&self) -> (r: bool)
        ensures
            r == self.spec_is_full(),
    {
        self.blocks.len() >= MAX_BLOCKS as usize
    }

    pub fn len(&self) -> (r: usize)
        ensures
            r == self.spec_len(),
    {
        self.blocks.len()
    }

    /// Registers a block whose children are already known reachable.
    /// Fails with `LimitExceeded` when the registry is at capacity;
    /// otherwise returns the new handle, `len` after insertion.
    fn put(&mut self, block: Block) -> (r: SyscallResult<u32>)
        requires
            old(self).inv(),
            block@.wf(),
            forall|j: int|
                0 <= j < block@.children.len() ==> old(self).spec_reachable(
                    #[trigger] block@.children[j],
                ),
        ensures
            final(self).inv(),
            forall|x: CidView| old(self).spec_reachable(x) == final(self).spec_reachable(x),
            old(self).spec_is_full() ==> r == Err::<u32, KernelError>(
                KernelError::Syscall(ErrorNumber::LimitExceeded),
            ) && *final(self) == *old(self),
            !old(self).spec_is_full() ==> r is Ok && r->Ok_0 == old(self).spec_len() + 1
                && final(self).blocks_view() == old(self).blocks_view().push(block@),
    {
        if self.blocks.len() >= MAX_BLOCKS as usize {
            return Err(KernelError::Syscall(ErrorNumber::LimitExceeded));
        }
        let ghost pre = *self;
        let ghost bv = block@;
        self.blocks.push(block);
        proof {
            assert(self.reachable@ == pre.reachable@);
            assert forall|x: CidView| pre.spec_reachable(x) == self.spec_reachable(x) by {
                if pre.spec_reachable(x) {
                    let i = choose|i: int|
                        0 <= i < pre.reachable@.len() && pre.reachable@[i]@ == x;
                    assert(self.reachable@[i]@ == x);
                }
                if self.spec_reachable(x) {
                    let i = choose|i: int|
                        0 <= i < self.reachable@.len() && self.reachable@[i]@ == x;
                    assert(pre.reachable@[i]@ == x);
                }
            }
            assert(self.blocks_view() =~= pre.blocks_view().push(bv));
            assert forall|i: int|
                0 <= i < self.blocks_view().len() implies (
            #[trigger] self.blocks_view()[i]).wf() by {
                if i < pre.blocks_view().len() {
                    assert(pre.blocks_view()[i].wf());
                } else {
                    assert(self.blocks_view()[i] == bv);
                }
            }
            assert forall|i: int, j: int|
                0 <= i < self.blocks_view().len() && 0 <= j
                    < self.blocks_view()[i].children.len() implies self.spec_reachable(
                #[trigger] self.blocks_view()[i].children[j],
            ) by {
                if i < pre.blocks_view().len() {
                    assert(pre.spec_reachable(pre.blocks_view()[i].children[j]));
                } else {
                    assert(self.blocks_view()[i] == bv);
                    assert(pre.spec_reachable(bv.children[j]));
                }
            }
        }
        Ok(self.blocks.len() as u32)
    }

    /// Registers a block from a trusted source (the block store, or a value
    /// returned by a child kernel): its children become reachable.
    pub fn put_reachable(&mut self, block: Block) -> (r: SyscallResult<u32>)
        requires
            old(self).inv(),
            block@.wf(),
        ensures
            final(self).inv(),
            forall|x: CidView|
                old(self).spec_reachable(x) ==> final(self).spec_reachable(x),
            forall|x: CidView|
                final(self).spec_reachable(x) ==> old(self).spec_reachable(x)
                    || block@.children.contains(x),
            old(self).spec_is_full() ==> is_err(r, ErrorNumber::LimitExceeded)
                && final(self).blocks_view() == old(self).blocks_view(),
            !old(self).spec_is_full() ==> r is Ok && r->Ok_0 == old(self).spec_len() + 1
                && final(self).blocks_view() == old(self).blocks_view().push(block@),
    {
        let n = block.children.len();
        let mut i: usize = 0;
        while i < n
            invariant
                self.inv(),
                i <= n == block.children@.len(),
                block@.children == block.children@.map_values(|c: Cid| c@),
                self.blocks_view() == old(self).blocks_view(),
                self.spec_len() == old(self).spec_len(),
                forall|x: CidView| old(self).spec_reachable(x) ==> self.spec_reachable(x),
                forall|x: CidView|
                    self.spec_reachable(x) ==> old(self).spec_reachable(x)
                        || block@.children.contains(x),
                forall|j: int| 0 <= j < i ==> self.spec_reachable(#[trigger] block@.children[j]),
            decreases n - i,
        {
            self.mark_reachable(&block.children[i]);
            proof {
                assert(block@.children[i as int] == block.children@[i as int]@);
                assert(block@.children.contains(block@.children[i as int]));
            }
            i += 1;
        }
        self.put(block)
    }

    /// Registers a caller-created block under the stricter rule that every
    /// child must already be reachable; fails with `NotFound` otherwise.
    pub fn put_check_reachable(&mut self, block: Block) -> (r: SyscallResult<u32>)
        requires
            old(self).inv(),
            block@.wf(),
        ensures
            final(self).inv(),
            forall|x: CidView| old(self).spec_reachable(x) == final(self).spec_reachable(x),
            (exists|j: int|
                0 <= j < block@.children.len() && !old(self).spec_reachable(
                    #[trigger] block@.children[j],
                )) ==> is_err(r, ErrorNumber::NotFound) && *final(self) == *old(self),
            (forall|j: int|
                0 <= j < block@.children.len() ==> old(self).spec_reachable(
                    #[trigger] block@.children[j],
                )) ==> {
                &&& old(self).spec_is_full() ==> is_err(r, ErrorNumber::LimitExceeded)
                    && *final(self) == *old(self)
                &&& !old(self).spec_is_full() ==> r is Ok && r->Ok_0 == old(self).spec_len()
                    + 1 && final(self).blocks_view() == old(self).blocks_view().push(block@)
            },
    {
        let n = block.children.len();
        let mut i: usize = 0;
        while i < n
            invariant
                *self == *old(self),
                self.inv(),
                i <= n == block.children@.len(),
                block@.children == block.children@.map_values(|c: Cid| c@),
                forall|j: int| 0 <= j < i ==> self.spec_reachable(#[trigger] block@.children[j]),
            decreases n - i,
        {
            if !self.is_reachable(&block.children[i]) {
                proof {
                    assert(!self.spec_reachable(block@.children[i as int]));
                }
                return Err(KernelError::Syscall(ErrorNumber::NotFound));
            }
            i += 1;
        }
        self.put(block)
    }

    /// The block behind a handle; `IllegalArgument` for the reserved zero
    /// handle and for handles never issued.
    pub fn get(&self, id: u32) -> (r: SyscallResult<&Block>)
        ensures
            self.spec_is_valid_handle(id) ==> r is Ok && r->Ok_0@ == self.spec_get(id),
            !self.spec_is_valid_handle(id) ==> is_err(r, ErrorNumber::IllegalArgument),
            r is Ok ==> self.spec_is_valid_handle(id),
            r is Ok && self.inv() ==> r->Ok_0@.wf(),
    {
        if id >= 1 && (id as usize) <= self.blocks.len() {
            proof {
                if self.inv() {
                    assert(self.blocks_view()[id - 1].wf());
                }
            }
            Ok(&self.blocks[(id - 1) as usize])
        } else {
            Err(KernelError::Syscall(ErrorNumber::IllegalArgument))
        }
    }

    /// The stat record of the block behind a handle.
    pub fn stat(&self, id: u32) -> (r: SyscallResult<BlockStat>)
        requires
            self.inv(),
        ensures
            self.spec_is_valid_handle(id) ==> r == Ok::<BlockStat, KernelError>(
                BlockStat {
                    codec: self.spec_get(id).codec,
                    size: self.spec_get(id).data.len() as u32,
                },
            ),
            !self.spec_is_valid_handle(id) ==> is_err(r, ErrorNumber::IllegalArgument),
    {
        match self.get(id) {
            Ok(b) => {
                proof {
                    assert(self.blocks_view()[id - 1].wf());
                }
                Ok(b.stat())
            },
            Err(e) => Err(e),
        }
    }
}

/// The handle space and the registered blocks are the same thing seen two
/// ways: the registry holds exactly `blocks_view()` entries, handle `h`
/// names entry `h - 1`, and the registry is full exactly when that count
/// reaches the 32-bit handle bound.
pub proof fn lemma_registry_size(reg: BlockRegistry)
    ensures
        reg.spec_len() == reg.blocks_view().len(),
        reg.spec_is_full() <==> reg.blocks_view().len() >= MAX_BLOCKS,
{
}

/// Block reachability closure: after any sequence of registry operations,
/// every child CID of every registered block is in the reachable set. This is
/// exactly the registry invariant, which every operation above preserves.
pub proof fn lemma_reachability_closure(reg: BlockRegistry, id: u32, j: int)
    requires
        reg.inv(),
        reg.spec_is_valid_handle(id),
        0 <= j < reg.spec_get(id).children.len(),
    ensures
        reg.spec_reachable(reg.spec_get(id).children[j]),
{
}

} // verus!
