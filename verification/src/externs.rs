//! The chain externs: randomness, tipset CIDs and consensus-fault
//! verification.
//!
//! These cross the node boundary; the kernel only consumes them. They are
//! modelled as data supplied by the embedder: per-epoch lookup tables for
//! randomness and tipset CIDs, and a queue of consensus-fault verdicts
//! consumed in call order. The kernel's behaviour is verified for every
//! content of these tables.

use vstd::prelude::*;

use crate::bytes::bytes_clone;
use crate::cid::{Cid, CidView};

verus! {

/// Randomness values are 32 bytes.
pub const RANDOMNESS_LENGTH: usize = 32;

/// One epoch's randomness.
pub struct RandEntry {
    pub epoch: i64,
    pub value: Vec<u8>,
}

/// One epoch's tipset CID.
pub struct TipsetEntry {
    pub epoch: i64,
    pub cid: Cid,
}

/// The classified kinds of consensus fault.
#[derive(Clone, Copy, PartialEq, Eq, Structural, Debug)]
pub enum ConsensusFaultType {
    DoubleForkMining,
    ParentGrinding,
    TimeOffsetMining,
}

/// A proven consensus fault.
#[derive(Clone, Copy, PartialEq, Eq, Structural, Debug)]
pub struct ConsensusFault {
    pub target: u64,
    pub epoch: i64,
    pub fault_type: ConsensusFaultType,
}

/// One verdict of the consensus-fault extern: either a decode failure
/// (surfaced as a syscall error) or an answer.
#[derive(Clone, Copy, PartialEq, Eq, Structural, Debug)]
pub enum FaultVerdict {
    Invalid,
    Checked(Option<ConsensusFault>),
}

/// One consensus-fault question put to the externs: the two block headers
/// and the extra header.
pub struct FaultQuery {
    pub h1: Vec<u8>,
    pub h2: Vec<u8>,
    pub extra: Vec<u8>,
}

/// The first randomness value recorded for an epoch.
pub open spec fn spec_rand_lookup(entries: Seq<RandEntry>, epoch: i64) -> Option<Seq<u8>>
    decreases entries.len(),
{
    if entries.len() == 0 {
        None
    } else if entries[0].epoch == epoch {
        Some(entries[0].value@)
    } else {
        spec_rand_lookup(entries.drop_first(), epoch)
    }
}

/// The first tipset CID recorded for an epoch.
pub open spec fn spec_tipset_lookup(entries: Seq<TipsetEntry>, epoch: i64) -> Option<CidView>
    decreases entries.len(),
{
    if entries.len() == 0 {
        None
    } else if entries[0].epoch == epoch {
        Some(entries[0].cid@)
    } else {
        spec_tipset_lookup(entries.drop_first(), epoch)
    }
}

/// The chain externs, as preloaded data.
pub struct Externs {
    pub chain_rand: Vec<RandEntry>,
    pub beacon_rand: Vec<RandEntry>,
    pub tipsets: Vec<TipsetEntry>,
    pub fault_verdicts: Vec<FaultVerdict>,
    pub fault_next: usize,
    pub fault_queries: Vec<FaultQuery>,
}

impl Externs {
    /// Every randomness value is 32 bytes, and the verdict cursor is in
    /// range.
    pub open spec fn inv(self) -> bool {
        &&& forall|i: int|
            0 <= i < self.chain_rand@.len() ==> (#[trigger] self.chain_rand@[i].value@).len()
                == RANDOMNESS_LENGTH
        &&& forall|i: int|
            0 <= i < self.beacon_rand@.len() ==> (#[trigger] self.beacon_rand@[i].value@).len()
                == RANDOMNESS_LENGTH
        &&& self.fault_next <= self.fault_verdicts@.len()
    }

    pub fn new() -> (r: Externs)
        ensures
            r.inv(),
            r.chain_rand@.len() == 0,
            r.beacon_rand@.len() == 0,
            r.tipsets@.len() == 0,
            r.fault_verdicts@.len() == 0,
    {
        Externs {
            chain_rand: Vec::new(),
            beacon_rand: Vec::new(),
            tipsets: Vec::new(),
            fault_verdicts: Vec::new(),
            fault_next: 0,
            fault_queries: Vec::new(),
        }
    }

    /// Draws randomness from the chain (ticket) table.
    pub fn get_chain_randomness(&self, epoch: i64) -> (r: Option<Vec<u8>>)
        requires
            self.inv(),
        ensures
            match r {
                Some(v) => spec_rand_lookup(self.chain_rand@, epoch) == Some(v@) && v@.len()
                    == RANDOMNESS_LENGTH,
                None => spec_rand_lookup(self.chain_rand@, epoch) == None::<Seq<u8>>,
            },
    {
        rand_lookup(&self.chain_rand, epoch)
    }

    /// Draws randomness from the beacon table.
    pub fn get_beacon_randomness(&self, epoch: i64) -> (r: Option<Vec<u8>>)
        requires
            self.inv(),
        ensures
            match r {
                Some(v) => spec_rand_lookup(self.beacon_rand@, epoch) == Some(v@) && v@.len()
                    == RANDOMNESS_LENGTH,
                None => spec_rand_lookup(self.beacon_rand@, epoch) == None::<Seq<u8>>,
            },
    {
        rand_lookup(&self.beacon_rand, epoch)
    }

    /// Looks up the tipset CID recorded for an epoch.
    pub fn get_tipset_cid(&self, epoch: i64) -> (r: Option<Cid>)
        ensures
            match r {
                Some(c) => spec_tipset_lookup(self.tipsets@, epoch) == Some(c@),
                None => spec_tipset_lookup(self.tipsets@, epoch) == None::<CidView>,
            },
    {
        let n = self.tipsets.len();
        let mut i: usize = 0;
        proof {
            assert(self.tipsets@.skip(0) =~= self.tipsets@);
        }
        while i < n
            invariant
                i <= n == self.tipsets@.len(),
                spec_tipset_lookup(self.tipsets@, epoch) == spec_tipset_lookup(
                    self.tipsets@.skip(i as int),
                    epoch,
                ),
            decreases n - i,
        {
            proof {
                assert(self.tipsets@.skip(i as int).drop_first() =~= self.tipsets@.skip(i + 1));
                assert(self.tipsets@.skip(i as int)[0] == self.tipsets@[i as int]);
            }
            if self.tipsets[i].epoch == epoch {
                return Some(self.tipsets[i].cid.duplicate());
            }
            i += 1;
        }
        None
    }

    /// Records the question and consumes the next consensus-fault verdict,
    /// so each verdict is tied to the headers it was asked about.
    pub fn verify_consensus_fault(&mut self, h1: &[u8], h2: &[u8], extra: &[u8]) -> (r:
        FaultVerdict)
        requires
            old(self).inv(),
        ensures
            final(self).inv(),
            final(self).chain_rand@ == old(self).chain_rand@,
            final(self).beacon_rand@ == old(self).beacon_rand@,
            final(self).tipsets@ == old(self).tipsets@,
            final(self).fault_verdicts@ == old(self).fault_verdicts@,
            final(self).fault_queries@.len() == old(self).fault_queries@.len() + 1,
            forall|i: int|
                0 <= i < old(self).fault_queries@.len() ==> final(self).fault_queries@[i] == old(
                    self,
                ).fault_queries@[i],
            final(self).fault_queries@.last().h1@ == h1@,
            final(self).fault_queries@.last().h2@ == h2@,
            final(self).fault_queries@.last().extra@ == extra@,
            old(self).fault_next < old(self).fault_verdicts@.len() ==> r == old(
                self,
            ).fault_verdicts@[old(self).fault_next as int] && final(self).fault_next == old(
                self,
            ).fault_next + 1,
            old(self).fault_next >= old(self).fault_verdicts@.len() ==> r
                == FaultVerdict::Invalid && final(self).fault_next == old(self).fault_next,
    {
        let query = FaultQuery {
            h1: bytes_clone_slice(h1),
            h2: bytes_clone_slice(h2),
            extra: bytes_clone_slice(extra),
        };
        self.fault_queries.push(query);
        if self.fault_next < self.fault_verdicts.len() {
            let v = self.fault_verdicts[self.fault_next];
            self.fault_next += 1;
            v
        } else {
            FaultVerdict::Invalid
        }
    }
}

/// Copies a byte slice into an owned vector.
fn bytes_clone_slice(b: &[u8]) -> (r: Vec<u8>)
    ensures
        r@ == b@,
{
    let r = crate::bytes::bytes_of_range(b, 0, b.len());
    proof {
        assert(b@.subrange(0, b@.len() as int) =~= b@);
    }
    r
}

/// First-match lookup in a randomness table.
fn rand_lookup(entries: &Vec<RandEntry>, epoch: i64) -> (r: Option<Vec<u8>>)
    requires
        forall|i: int|
            0 <= i < entries@.len() ==> (#[trigger] entries@[i].value@).len() == RANDOMNESS_LENGTH,
    ensures
        match r {
            Some(v) => spec_rand_lookup(entries@, epoch) == Some(v@) && v@.len()
                == RANDOMNESS_LENGTH,
            None => spec_rand_lookup(entries@, epoch) == None::<Seq<u8>>,
        },
{
    let n = entries.len();
    let mut i: usize = 0;
    proof {
        assert(entries@.skip(0) =~= entries@);
    }
    while i < n
        invariant
            i <= n == entries@.len(),
            forall|j: int|
                0 <= j < entries@.len() ==> (#[trigger] entries@[j].value@).len()
                    == RANDOMNESS_LENGTH,
            spec_rand_lookup(entries@, epoch) == spec_rand_lookup(entries@.skip(i as int), epoch),
        decreases n - i,
    {
        proof {
            assert(entries@.skip(i as int).drop_first() =~= entries@.skip(i + 1));
            assert(entries@.skip(i as int)[0] == entries@[i as int]);
        }
        if entries[i].epoch == epoch {
            return Some(bytes_clone(&entries[i].value));
        }
        i += 1;
    }
    None
}

} // verus!
