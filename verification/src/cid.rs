//! Content identifiers, modelled as plain values.
//!
//! A CID is a version, a content codec, and a multihash (a hash-function code
//! together with the digest bytes). Equality is field-wise; the digest is at
//! most 64 bytes.

use vstd::prelude::*;

use crate::bytes::{bytes_clone, bytes_eq};

verus! {

/// The multihash code of 32-byte blake2b, the only hash under which blocks
/// may be linked.
pub const BLAKE2B_256: u64 = 0xb220;

/// Mathematical value of a CID.
pub struct CidView {
    pub version: u64,
    pub codec: u64,
    pub hash_code: u64,
    pub hash: Seq<u8>,
}

/// A content identifier: a hash-addressed reference to a block.
#[derive(Debug, PartialEq, Eq)]
pub struct Cid {
    pub version: u64,
    pub codec: u64,
    pub hash_code: u64,
    pub hash: Vec<u8>,
}

impl View for Cid {
    type V = CidView;

    open spec fn view(&self) -> CidView {
        CidView {
            version: self.version,
            codec: self.codec,
            hash_code: self.hash_code,
            hash: self.hash@,
        }
    }
}

impl CidView {
    /// Digests never exceed 64 bytes.
    pub open spec fn wf(self) -> bool {
        self.hash.len() <= 64
    }
}

impl Cid {
    /// A CIDv1 under the given content codec, addressing the digest by the
    /// given hash function.
    pub fn new_v1(codec: u64, hash_code: u64, hash: Vec<u8>) -> (r: Cid)
        ensures
            r@ == (CidView { version: 1, codec, hash_code, hash: hash@ }),
    {
        Cid { version: 1, codec, hash_code, hash }
    }

    /// Field-wise equality.
    pub fn eq_cid(&self, other: &Cid) -> (r: bool)
        ensures
            r == (self@ == other@),
    {
        let r = self.version == other.version && self.codec == other.codec
            && self.hash_code == other.hash_code
            && bytes_eq(self.hash.as_slice(), other.hash.as_slice());
        proof {
            if r {
                assert(self@ =~= other@);
            }
        }
        r
    }

    /// An identical copy.
    pub fn duplicate(&self) -> (r: Cid)
        ensures
            r@ == self@,
    {
        Cid {
            version: self.version,
            codec: self.codec,
            hash_code: self.hash_code,
            hash: bytes_clone(&self.hash),
        }
    }
}

} // verus!
