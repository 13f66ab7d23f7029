//! Small verified helpers over byte slices.

use vstd::prelude::*;

verus! {

/// Byte-wise equality of two slices.
pub fn bytes_eq(a: &[u8], b: &[u8]) -> (r: bool)
    ensures
        r == (a@ == b@),
{
    if a.len() != b.len() {
        assert(a@ != b@) by {
            assert(a@.len() != b@.len());
        }
        return false;
    }
    let n = a.len();
    let mut i: usize = 0;
    while i < n
        invariant
            n == a@.len() == b@.len(),
            i <= n,
            forall|j: int| 0 <= j < i ==> a@[j] == b@[j],
        decreases n - i,
    {
        if a[i] != b[i] {
            return false;
        }
        i += 1;
    }
    proof {
        assert(a@ =~= b@);
    }
    true
}

/// Copies `buf[start .. end]` into a fresh vector.
pub fn bytes_of_range(buf: &[u8], start: usize, end: usize) -> (r: Vec<u8>)
    requires
        start <= end <= buf@.len(),
    ensures
        r@ == buf@.subrange(start as int, end as int),
{
    let mut out: Vec<u8> = Vec::new();
    let mut i: usize = start;
    while i < end
        invariant
            start <= i <= end <= buf@.len(),
            out@ == buf@.subrange(start as int, i as int),
        decreases end - i,
    {
        out.push(buf[i]);
        assert(out@ =~= buf@.subrange(start as int, i + 1));
        i += 1;
    }
    out
}

/// Copies a vector of bytes.
pub fn bytes_clone(v: &Vec<u8>) -> (r: Vec<u8>)
    ensures
        r@ == v@,
{
    let r = bytes_of_range(v.as_slice(), 0, v.len());
    assert(v@.subrange(0, v@.len() as int) =~= v@);
    r
}

/// What a byte buffer looks like after being truncated or zero-extended to
/// exactly 32 bytes.
pub open spec fn spec_bytes_32(src: Seq<u8>) -> Seq<u8> {
    Seq::new(32, |j: int| if j < src.len() { src[j] } else { 0u8 })
}

/// Truncates or zero-extends the input to exactly 32 bytes: the first
/// `min(32, |src|)` bytes are copied, the rest are zero.
pub fn to_bytes_32(src: &[u8]) -> (r: Vec<u8>)
    ensures
        r@ == spec_bytes_32(src@),
{
    let n = if src.len() < 32 {
        src.len()
    } else {
        32
    };
    let mut out: Vec<u8> = Vec::new();
    let mut i: usize = 0;
    while i < n
        invariant
            i <= n <= 32,
            n <= src@.len(),
            out@.len() == i,
            forall|j: int| 0 <= j < i ==> out@[j] == src@[j],
        decreases n - i,
    {
        out.push(src[i]);
        i += 1;
    }
    while i < 32
        invariant
            n <= i <= 32,
            n <= src@.len(),
            n == (if src@.len() < 32 { src@.len() as int } else { 32int }),
            out@.len() == i,
            forall|j: int| 0 <= j < n ==> out@[j] == src@[j],
            forall|j: int| n <= j < i ==> out@[j] == 0u8,
        decreases 32 - i,
    {
        out.push(0);
        i += 1;
    }
    proof {
        assert(out@ =~= spec_bytes_32(src@));
    }
    out
}

} // verus!
