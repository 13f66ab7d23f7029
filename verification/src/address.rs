//! Actor addresses, modelled as plain values.
//!
//! An address is a protocol byte and a payload. The kernel only constructs ID
//! addresses itself (protocol 0, payload = unsigned varint of the 64-bit
//! actor ID); other protocols pass through it opaquely.

use vstd::prelude::*;

use crate::bytes::{bytes_clone, bytes_eq};

verus! {

/// Address protocol: an ID address.
pub const PROTOCOL_ID: u8 = 0;

/// Mathematical value of an address.
pub struct AddressView {
    pub protocol: u8,
    pub payload: Seq<u8>,
}

/// An actor address.
#[derive(Debug, PartialEq, Eq)]
pub struct Address {
    pub protocol: u8,
    pub payload: Vec<u8>,
}

impl View for Address {
    type V = AddressView;

    open spec fn view(&self) -> AddressView {
        AddressView { protocol: self.protocol, payload: self.payload@ }
    }
}

/// The unsigned LEB128 encoding of `n`: seven bits per byte, least
/// significant group first, high bit set on every byte but the last.
pub open spec fn spec_varint(n: nat) -> Seq<u8>
    decreases n,
{
    if n < 128 {
        seq![n as u8]
    } else {
        seq![(n % 128 + 128) as u8] + spec_varint(n / 128)
    }
}

/// Encodes `n` as an unsigned LEB128 varint.
pub fn varint_u64(n: u64) -> (r: Vec<u8>)
    ensures
        r@ == spec_varint(n as nat),
        1 <= r@.len() <= 10,
{
    proof {
        lemma_varint_len(n as nat);
    }
    let mut out: Vec<u8> = Vec::new();
    let mut rest: u64 = n;
    while rest >= 128
        invariant
            spec_varint(n as nat) == out@ + spec_varint(rest as nat),
        decreases rest,
    {
        proof {
            lemma_varint_len(rest as nat);
            assert(spec_varint(rest as nat) == seq![(rest % 128 + 128) as u8] + spec_varint(
                rest as nat / 128,
            ));
            assert(out@ + spec_varint(rest as nat) =~= (out@ + seq![(rest % 128 + 128) as u8])
                + spec_varint(rest as nat / 128));
        }
        out.push((rest % 128 + 128) as u8);
        rest = rest / 128;
    }
    assert(spec_varint(rest as nat) == seq![rest as u8]);
    out.push(rest as u8);
    assert(out@ =~= spec_varint(n as nat));
    out
}

/// The varint of a 64-bit value takes at most ten bytes, and the encoding of
/// a value below `128^k` takes at most `k` bytes.
proof fn lemma_varint_len(n: nat)
    ensures
        1 <= spec_varint(n).len(),
        n < 0x1_0000_0000_0000_0000 ==> spec_varint(n).len() <= 10,
        forall|k: nat| n < pow128(k) && k >= 1 ==> spec_varint(n).len() <= k,
    decreases n,
{
    if n >= 128 {
        lemma_varint_len(n / 128);
        assert forall|k: nat| n < pow128(k) && k >= 1 implies spec_varint(n).len() <= k by {
            assert(k >= 2) by {
                if k == 1 {
                    assert(pow128(1) == 128 * pow128(0));
                }
            }
            assert(pow128(k) == 128 * pow128((k - 1) as nat));
            assert(n / 128 < pow128((k - 1) as nat));
            assert(spec_varint(n / 128).len() <= (k - 1) as nat);
        }
        assert(n < 0x1_0000_0000_0000_0000 ==> spec_varint(n).len() <= 10) by {
            if n < 0x1_0000_0000_0000_0000 {
                assert(pow128(10) == 0x40_0000_0000_0000_0000) by {
                    reveal_with_fuel(pow128, 11);
                }
                assert(spec_varint(n).len() <= 10);
            }
        }
    }
}

/// `128^k`.
pub open spec fn pow128(k: nat) -> nat
    decreases k,
{
    if k == 0 {
        1
    } else {
        128 * pow128((k - 1) as nat)
    }
}

/// The value of a byte string read as exactly one unsigned LEB128 varint,
/// without a length cap.
pub open spec fn spec_varint_value_rec(s: Seq<u8>) -> Option<nat>
    decreases s.len(),
{
    if s.len() == 0 {
        None
    } else if s[0] < 128 {
        if s.len() == 1 {
            Some(s[0] as nat)
        } else {
            None
        }
    } else {
        match spec_varint_value_rec(s.drop_first()) {
            Some(v) => Some((s[0] - 128) as nat + 128 * v),
            None => None,
        }
    }
}

/// The value of a byte string read as exactly one unsigned LEB128 varint of
/// at most ten bytes, the longest encoding of a 64-bit value.
pub open spec fn spec_varint_value(s: Seq<u8>) -> Option<nat> {
    if s.len() > 10 {
        None
    } else {
        spec_varint_value_rec(s)
    }
}

proof fn lemma_pow128_pos(k: nat)
    ensures
        pow128(k) >= 1,
    decreases k,
{
    if k > 0 {
        lemma_pow128_pos((k - 1) as nat);
    }
}

proof fn lemma_pow128_mono(i: nat, j: nat)
    requires
        i <= j,
    ensures
        pow128(i) <= pow128(j),
    decreases j,
{
    if i < j {
        lemma_pow128_mono(i, (j - 1) as nat);
        lemma_pow128_pos((j - 1) as nat);
    }
}

/// For up to ten groups, `128^k` stays within `2^70`.
pub proof fn lemma_pow128_le_ten(k: nat)
    requires
        k <= 10,
    ensures
        pow128(k) <= 0x40_0000_0000_0000_0000,
{
    lemma_pow128_mono(k, 10);
    assert(pow128(10) == 0x40_0000_0000_0000_0000) by {
        reveal_with_fuel(pow128, 11);
    }
}

/// Decoding inverts encoding: the varint of any 64-bit value reads back as
/// that value.
pub proof fn lemma_varint_roundtrip(n: nat)
    requires
        n < 0x1_0000_0000_0000_0000,
    ensures
        spec_varint_value(spec_varint(n)) == Some(n),
{
    lemma_varint_len(n);
    lemma_varint_roundtrip_rec(n);
}

proof fn lemma_varint_roundtrip_rec(n: nat)
    ensures
        spec_varint_value_rec(spec_varint(n)) == Some(n),
    decreases n,
{
    if n < 128 {
    } else {
        lemma_varint_roundtrip_rec(n / 128);
        assert(spec_varint(n).drop_first() =~= spec_varint(n / 128));
        vstd::arithmetic::div_mod::lemma_fundamental_div_mod(n as int, 128);
    }
}

/// Reads a byte string as exactly one unsigned LEB128 varint holding a
/// 64-bit value; anything else (empty, trailing bytes, more than ten bytes,
/// or a value past the 64-bit range) is `None`.
pub fn varint_decode_u64(data: &[u8]) -> (r: Option<u64>)
    ensures
        r == (match spec_varint_value(data@) {
            Some(v) => if v <= u64::MAX {
                Some(v as u64)
            } else {
                None::<u64>
            },
            None => None::<u64>,
        }),
{
    let n = data.len();
    if n > 10 {
        return None;
    }
    let mut acc: u128 = 0;
    let mut pw: u128 = 1;
    let mut k: usize = 0;
    proof {
        assert(data@.skip(0) =~= data@);
    }
    while k < n
        invariant
            k <= n == data@.len() <= 10,
            pw == pow128(k as nat),
            acc < pw,
            spec_varint_value_rec(data@) == (match spec_varint_value_rec(data@.skip(k as int)) {
                Some(v) => Some((acc as nat) + pow128(k as nat) * v),
                None => None::<nat>,
            }),
        decreases n - k,
    {
        proof {
            lemma_pow128_mono(k as nat, 10);
            assert(pow128(10) == 0x40_0000_0000_0000_0000) by {
                reveal_with_fuel(pow128, 11);
            }
            assert(data@.skip(k as int).drop_first() =~= data@.skip(k + 1));
            assert(data@.skip(k as int)[0] == data@[k as int]);
        }
        let b = data[k];
        let low = (b & 0x7f) as u128;
        proof {
            assert((b & 0x7f) <= 0x7f) by (bit_vector);
            assert(b < 128 ==> (b & 0x7f) == b) by (bit_vector);
            assert(acc + low * pw < 128 * pw) by (nonlinear_arith)
                requires
                    acc < pw && low <= 127 && pw >= 1,
            ;
        }
        if b < 0x80 {
            if k + 1 == n {
                let value = acc + low * pw;
                proof {
                    assert(data@.skip(k as int).len() == 1);
                    assert(spec_varint_value_rec(data@.skip(k as int)) == Some(b as nat));
                    assert(low * pw == pow128(k as nat) * (b as nat)) by (nonlinear_arith)
                        requires
                            low == b && pw == pow128(k as nat),
                    ;
                }
                if value <= u64::MAX as u128 {
                    return Some(value as u64);
                } else {
                    return None;
                }
            } else {
                return None;
            }
        }
        acc = acc + low * pw;
        proof {
            assert(b >= 128 ==> (b & 0x7f) == (b - 128) as u8) by (bit_vector);
            let bb = (b - 128) as nat;
            assert(bb == low);
            let res_next = spec_varint_value_rec(data@.skip(k + 1));
            if res_next is Some {
                let v = res_next->Some_0;
                assert(pow128(k as nat) * (bb + 128 * v) == bb * pow128(k as nat) + (128 * pow128(
                    k as nat,
                )) * v) by (nonlinear_arith);
            }
        }
        pw = pw * 128;
        k += 1;
    }
    proof {
        assert(data@.skip(n as int) =~= Seq::<u8>::empty());
    }
    None
}

impl Address {
    /// The ID address of the given actor: protocol 0, varint payload.
    pub fn new_id(id: u64) -> (r: Address)
        ensures
            r@.protocol == PROTOCOL_ID,
            r@.payload == spec_varint(id as nat),
            r@.payload.len() <= 10,
    {
        Address { protocol: PROTOCOL_ID, payload: varint_u64(id) }
    }

    /// Field-wise equality.
    pub fn eq_address(&self, other: &Address) -> (r: bool)
        ensures
            r == (self@ == other@),
    {
        let r = self.protocol == other.protocol && bytes_eq(
            self.payload.as_slice(),
            other.payload.as_slice(),
        );
        proof {
            if r {
                assert(self@ =~= other@);
            }
        }
        r
    }

    /// An identical copy.
    pub fn duplicate(&self) -> (r: Address)
        ensures
            r@ == self@,
    {
        Address { protocol: self.protocol, payload: bytes_clone(&self.payload) }
    }
}

} // verus!
