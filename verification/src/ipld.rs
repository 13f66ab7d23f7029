//! Scanning block data for IPLD links.
//!
//! Blocks under the dag-cbor codec may reference other blocks: a link is a
//! CBOR tag 42 wrapping a byte string that holds a multibase identity prefix
//! followed by the binary CID. The scanner walks the CBOR item structure
//! without building it, charges gas per link found, and rejects malformed
//! data (truncated items, indefinite lengths, reserved head values, bad
//! link payloads) with a `Serialization` error.
//!
//! `spec_scan_links` is the mathematical account of that walk: it says
//! exactly which links well-formed data holds, in order, and which data is
//! malformed. The executable scanner is verified to agree with it wherever
//! gas does not run out. Blocks under the other allowed codecs carry no
//! links.

use vstd::prelude::*;

use crate::address::pow128;
use crate::bytes::bytes_of_range;
use crate::cid::{Cid, CidView};
use crate::error::{ErrorNumber, KernelError, SyscallResult};
use crate::gas::{GasTracker, PriceList};

verus! {

/// The plain CBOR codec.
pub const CBOR: u64 = 0x51;

/// The raw-bytes codec: no links.
pub const IPLD_RAW: u64 = 0x55;

/// The dag-cbor codec: CBOR whose tag 42 items are links.
pub const DAG_CBOR: u64 = 0x71;

/// The dag-pb codec (only ever seen inside version 0 CIDs).
pub const DAG_PB: u64 = 0x70;

/// The codec allow-list for caller-created blocks.
pub open spec fn spec_codec_allowed(codec: u64) -> bool {
    codec == CBOR || codec == IPLD_RAW || codec == DAG_CBOR
}

/// Whether caller-created blocks may use this codec.
pub fn codec_allowed(codec: u64) -> (r: bool)
    ensures
        r == spec_codec_allowed(codec),
{
    codec == CBOR || codec == IPLD_RAW || codec == DAG_CBOR
}

/// `256^n`.
pub open spec fn pow256(n: nat) -> nat
    decreases n,
{
    if n == 0 {
        1
    } else {
        256 * pow256((n - 1) as nat)
    }
}

/// The value of `n` big-endian bytes at `pos`.
pub open spec fn spec_be(s: Seq<u8>, pos: int, n: nat) -> nat
    decreases n,
{
    if n == 0 {
        0
    } else {
        (spec_be(s, pos, (n - 1) as nat) * 256 + s[pos + n - 1]) as nat
    }
}

/// The argument and end position of the CBOR item head at `pos`: the
/// additional-information field selects an immediate value or a 1-, 2-, 4-
/// or 8-byte big-endian argument; indefinite lengths and reserved values
/// are malformed.
pub open spec fn spec_head(s: Seq<u8>, pos: int) -> Option<(u64, int)> {
    if pos < 0 || pos >= s.len() {
        None
    } else {
        let info = s[pos] & 0x1f;
        if info < 24 {
            Some((info as u64, pos + 1))
        } else if info == 24 && pos + 2 <= s.len() {
            Some((spec_be(s, pos + 1, 1) as u64, pos + 2))
        } else if info == 25 && pos + 3 <= s.len() {
            Some((spec_be(s, pos + 1, 2) as u64, pos + 3))
        } else if info == 26 && pos + 5 <= s.len() {
            Some((spec_be(s, pos + 1, 4) as u64, pos + 5))
        } else if info == 27 && pos + 9 <= s.len() {
            Some((spec_be(s, pos + 1, 8) as u64, pos + 9))
        } else {
            None
        }
    }
}

/// The value and end position of the unsigned LEB128 varint at `pos`, when
/// a terminating byte appears within `fuel` bytes.
pub open spec fn spec_uvarint_at(s: Seq<u8>, pos: int, fuel: nat) -> Option<(nat, int)>
    decreases fuel,
{
    if fuel == 0 || pos < 0 || pos >= s.len() {
        None
    } else if s[pos] < 128 {
        Some((s[pos] as nat, pos + 1))
    } else {
        match spec_uvarint_at(s, pos + 1, (fuel - 1) as nat) {
            Some((v, e)) => Some(((s[pos] - 128) as nat + 128 * v, e)),
            None => None,
        }
    }
}

/// The varint at `pos` read as a 64-bit value: at most ten bytes, and the
/// value must fit.
pub open spec fn spec_uvarint64(s: Seq<u8>, pos: int) -> Option<(u64, int)> {
    match spec_uvarint_at(s, pos, 10) {
        Some((v, e)) => if v < 0x1_0000_0000_0000_0000 {
            Some((v as u64, e))
        } else {
            None
        },
        None => None,
    }
}

/// The CID a binary link payload denotes: either the implicit version 0
/// form (a 34-byte sha2-256 multihash under dag-pb), or a version 1 varint
/// header followed by a multihash whose digest is at most 64 bytes and
/// exactly fills the rest.
pub open spec fn spec_parse_cid(s: Seq<u8>) -> Option<CidView> {
    if s.len() == 34 && s[0] == 0x12 && s[1] == 0x20 {
        Some(CidView { version: 0, codec: DAG_PB, hash_code: 0x12, hash: s.subrange(2, 34) })
    } else {
        match spec_uvarint64(s, 0) {
            None => None,
            Some((version, p1)) => if version != 1 {
                None
            } else {
                match spec_uvarint64(s, p1) {
                    None => None,
                    Some((codec, p2)) => match spec_uvarint64(s, p2) {
                        None => None,
                        Some((hash_code, p3)) => match spec_uvarint64(s, p3) {
                            None => None,
                            Some((hash_len, p4)) => if hash_len > 64 || s.len() - p4
                                != hash_len {
                                None
                            } else {
                                Some(
                                    CidView {
                                        version: 1,
                                        codec,
                                        hash_code,
                                        hash: s.subrange(p4, s.len() as int),
                                    },
                                )
                            },
                        },
                    },
                }
            },
        }
    }
}

/// Walks `pending` consecutive CBOR items starting at `pos` and collects
/// their links in order; the items must end exactly at the end of the data.
/// Containers enqueue their members (each item occupies at least one byte,
/// so the walk always advances); a worklist past the 64-bit range is
/// malformed, as such data could never supply one byte per item.
pub open spec fn spec_scan_from(s: Seq<u8>, pos: int, pending: nat) -> Option<Seq<CidView>>
    decreases s.len() - pos when 0 <= pos <= s.len()
{
    if pending == 0 {
        if pos == s.len() {
            Some(Seq::empty())
        } else {
            None
        }
    } else if pos >= s.len() {
        None
    } else {
        let major = s[pos] >> 5;
        match spec_head(s, pos) {
            None => None,
            Some((arg, next)) => if !(pos < next <= s.len()) {
                None
            } else if major == 0 || major == 1 || major == 7 {
                spec_scan_from(s, next, (pending - 1) as nat)
            } else if major == 2 || major == 3 {
                if arg > s.len() - next {
                    None
                } else {
                    spec_scan_from(s, next + arg, (pending - 1) as nat)
                }
            } else if major == 4 {
                if (pending - 1) + arg > u64::MAX {
                    None
                } else {
                    spec_scan_from(s, next, ((pending - 1) + arg) as nat)
                }
            } else if major == 5 {
                if 2 * arg > u64::MAX || (pending - 1) + 2 * arg > u64::MAX {
                    None
                } else {
                    spec_scan_from(s, next, ((pending - 1) + 2 * arg) as nat)
                }
            } else if major == 6 && arg == 42 {
                if next >= s.len() || (s[next] >> 5) != 2 {
                    None
                } else {
                    match spec_head(s, next) {
                        None => None,
                        Some((blen, bstart)) => if !(next < bstart <= s.len()) || blen < 2
                            || blen > s.len() - bstart || s[bstart] != 0 {
                            None
                        } else {
                            match spec_parse_cid(s.subrange(bstart + 1, bstart + blen)) {
                                None => None,
                                Some(cv) => match spec_scan_from(
                                    s,
                                    bstart + blen,
                                    (pending - 1) as nat,
                                ) {
                                    Some(rest) => Some(seq![cv] + rest),
                                    None => None,
                                },
                            }
                        },
                    }
                }
            } else if major == 6 {
                spec_scan_from(s, next, pending)
            } else {
                None
            },
        }
    }
}

/// The links a dag-cbor block holds, in order; `None` when the data is not
/// exactly one well-formed item.
pub open spec fn spec_scan_links(s: Seq<u8>) -> Option<Seq<CidView>> {
    spec_scan_from(s, 0, 1)
}

/// Reads `n` big-endian bytes at `pos` as an unsigned value.
fn read_be(data: &[u8], pos: usize, n: usize) -> (r: Option<(u64, usize)>)
    requires
        n <= 8,
    ensures
        pos + n <= data@.len() ==> (r matches Some(x) && x.0 == spec_be(
            data@,
            pos as int,
            n as nat,
        ) && x.1 == pos + n),
        pos + n > data@.len() ==> r is None,
{
    if n > data.len() || pos > data.len() - n {
        return None;
    }
    let mut v: u64 = 0;
    let mut k: usize = 0;
    while k < n
        invariant
            k <= n <= 8,
            pos + n <= data@.len(),
            pos + n <= usize::MAX,
            v == spec_be(data@, pos as int, k as nat),
            v < pow256(k as nat),
        decreases n - k,
    {
        let b = data[pos + k];
        proof {
            assert(pow256(7) == 0x100_0000_0000_0000) by {
                reveal_with_fuel(pow256, 8);
            }
            lemma_pow256_mono(k as nat, 7);
            assert(((v << 8) | (b as u64)) == v * 256 + b) by (bit_vector)
                requires
                    v < 0x100_0000_0000_0000,
            ;
            assert(v * 256 + b < pow256((k + 1) as nat)) by (nonlinear_arith)
                requires
                    v < pow256(k as nat) && 0 <= b < 256 && pow256((k + 1) as nat) == 256
                        * pow256(k as nat),
            ;
        }
        v = (v << 8) | (b as u64);
        k += 1;
    }
    Some((v, pos + n))
}

proof fn lemma_pow256_mono(i: nat, j: nat)
    requires
        i <= j,
    ensures
        pow256(i) <= pow256(j),
    decreases j,
{
    if i < j {
        lemma_pow256_mono(i, (j - 1) as nat);
        assert(pow256(j) == 256 * pow256((j - 1) as nat));
        assert(pow256((j - 1) as nat) >= 1) by {
            lemma_pow256_pos((j - 1) as nat);
        }
    }
}

proof fn lemma_pow256_pos(n: nat)
    ensures
        pow256(n) >= 1,
    decreases n,
{
    if n > 0 {
        lemma_pow256_pos((n - 1) as nat);
    }
}

/// Reads a CBOR item head at `pos`: returns the argument value and the
/// position just past the head. Rejects indefinite lengths and reserved
/// additional-information values.
fn read_head(data: &[u8], pos: usize) -> (r: Option<(u64, usize)>)
    requires
        pos < data@.len(),
    ensures
        (match spec_head(data@, pos as int) {
            Some((a, e)) => r matches Some(x) && x.0 == a && x.1 == e,
            None => r is None,
        }),
        r matches Some(x) ==> pos < x.1 <= data@.len(),
{
    let info = data[pos] & 0x1f;
    if info < 24 {
        Some(((info as u64), pos + 1))
    } else if info == 24 {
        read_be(data, pos + 1, 1)
    } else if info == 25 {
        read_be(data, pos + 1, 2)
    } else if info == 26 {
        read_be(data, pos + 1, 4)
    } else if info == 27 {
        read_be(data, pos + 1, 8)
    } else {
        None
    }
}

/// Reads an unsigned LEB128 varint at `pos`; at most ten bytes, rejecting
/// encodings that overflow 64 bits.
fn read_uvarint(data: &[u8], pos: usize) -> (r: Option<(u64, usize)>)
    ensures
        (match spec_uvarint64(data@, pos as int) {
            Some((v, e)) => r matches Some(x) && x.0 == v && x.1 == e,
            None => r is None,
        }),
        r matches Some(x) ==> pos < x.1 <= data@.len(),
{
    let mut acc: u128 = 0;
    let mut pw: u128 = 1;
    let mut k: usize = 0;
    while k < 10
        invariant
            k <= 10,
            pw == pow128(k as nat),
            acc < pw,
            pos + k <= pos + 10,
            spec_uvarint_at(data@, pos as int, 10) == (match spec_uvarint_at(
                data@,
                pos + k,
                (10 - k) as nat,
            ) {
                Some((v, e)) => Some(((acc as nat) + pow128(k as nat) * v, e)),
                None => None::<(nat, int)>,
            }),
        decreases 10 - k,
    {
        proof {
            crate::address::lemma_pow128_le_ten(k as nat);
        }
        if pos >= data.len() || k >= data.len() - pos {
            return None;
        }
        let b = data[pos + k];
        let low = (b & 0x7f) as u128;
        proof {
            assert((b & 0x7f) <= 0x7f) by (bit_vector);
            assert(b < 128 ==> (b & 0x7f) == b) by (bit_vector);
            assert(acc + low * pw < 128 * pw) by (nonlinear_arith)
                requires
                    acc < pw && low <= 127 && pw >= 1,
            ;
        }
        if b < 0x80 {
            let value = acc + low * pw;
            proof {
                assert(spec_uvarint_at(data@, pos + k, (10 - k) as nat) == Some(
                    ((b as nat), pos + k + 1),
                ));
                assert(low * pw == pow128(k as nat) * (b as nat)) by (nonlinear_arith)
                    requires
                        low == b && pw == pow128(k as nat),
                ;
            }
            if value <= u64::MAX as u128 {
                return Some((value as u64, pos + k + 1));
            } else {
                return None;
            }
        }
        acc = acc + low * pw;
        proof {
            assert(b >= 128 ==> (b & 0x7f) == (b - 128) as u8) by (bit_vector);
            let bb = (b - 128) as nat;
            assert(bb == low);
            let res_next = spec_uvarint_at(data@, pos + k + 1, (10 - (k + 1)) as nat);
            if res_next is Some {
                let v = res_next->Some_0.0;
                assert(pow128(k as nat) * (bb + 128 * v) == bb * pow128(k as nat) + (128 * pow128(
                    k as nat,
                )) * v) by (nonlinear_arith);
            }
        }
        pw = pw * 128;
        k += 1;
    }
    None
}

/// Parses a binary CID, as `spec_parse_cid` lays it out.
pub fn parse_cid_bytes(data: &[u8]) -> (r: Option<Cid>)
    ensures
        (match spec_parse_cid(data@) {
            Some(cv) => r matches Some(c) && c@ == cv,
            None => r is None,
        }),
        r matches Some(c) ==> c@.wf(),
{
    if data.len() == 34 && data[0] == 0x12 && data[1] == 0x20 {
        let hash = bytes_of_range(data, 2, 34);
        return Some(Cid { version: 0, codec: DAG_PB, hash_code: 0x12, hash });
    }
    let (version, p1) = match read_uvarint(data, 0) {
        Some(x) => x,
        None => {
            return None;
        },
    };
    if version != 1 {
        return None;
    }
    let (codec, p2) = match read_uvarint(data, p1) {
        Some(x) => x,
        None => {
            return None;
        },
    };
    let (hash_code, p3) = match read_uvarint(data, p2) {
        Some(x) => x,
        None => {
            return None;
        },
    };
    let (hash_len, p4) = match read_uvarint(data, p3) {
        Some(x) => x,
        None => {
            return None;
        },
    };
    if hash_len > 64 {
        return None;
    }
    if (data.len() - p4) as u64 != hash_len {
        return None;
    }
    let hash = bytes_of_range(data, p4, data.len());
    Some(Cid { version: 1, codec, hash_code, hash })
}

/// Walks the single CBOR item that `data` must hold and collects the CIDs
/// of its tag 42 links, charging link gas for each. Non-link-bearing codecs
/// yield no links and charge nothing. Where gas does not run out the result
/// agrees with `spec_scan_links`: the links of well-formed data, in order,
/// or a `Serialization` error.
pub fn scan_for_reachable_links(
    codec: u64,
    data: &[u8],
    price: &PriceList,
    gas: &mut GasTracker,
) -> (r: SyscallResult<Vec<Cid>>)
    requires
        old(gas).wf(),
    ensures
        final(gas).wf(),
        final(gas).limit == old(gas).limit,
        final(gas).used >= old(gas).used,
        codec != DAG_CBOR ==> *final(gas) == *old(gas) && r is Ok && r->Ok_0@.len() == 0,
        codec == DAG_CBOR && r is Ok ==> spec_scan_links(data@) == Some(
            r->Ok_0@.map_values(|c: Cid| c@),
        ),
        codec == DAG_CBOR && is_serialization_err(r) ==> spec_scan_links(data@) is None,
        r is Ok ==> forall|j: int| 0 <= j < r->Ok_0@.len() ==> (#[trigger] r->Ok_0@[j]@).wf(),
        r is Err ==> r->Err_0 == KernelError::Syscall(ErrorNumber::Serialization) || r->Err_0
            == KernelError::OutOfGas,
{
    let mut links: Vec<Cid> = Vec::new();
    if codec != DAG_CBOR {
        return Ok(links);
    }
    let mut pos: usize = 0;
    let mut pending: u64 = 1;
    proof {
        assert(links@.map_values(|c: Cid| c@) =~= Seq::<CidView>::empty());
    }
    while pending > 0
        invariant
            codec == DAG_CBOR,
            gas.wf(),
            gas.limit == old(gas).limit,
            gas.used >= old(gas).used,
            pos <= data@.len(),
            forall|j: int| 0 <= j < links@.len() ==> (#[trigger] links@[j]@).wf(),
            spec_scan_links(data@) == (match spec_scan_from(data@, pos as int, pending as nat) {
                Some(rest) => Some(links@.map_values(|c: Cid| c@) + rest),
                None => None::<Seq<CidView>>,
            }),
        decreases data@.len() - pos,
    {
        if pos >= data.len() {
            return Err(KernelError::Syscall(ErrorNumber::Serialization));
        }
        let major = data[pos] >> 5;
        let ghost pos0 = pos as int;
        let ghost pending0 = pending as nat;
        pending = pending - 1;
        let (arg, next) = match read_head(data, pos) {
            Some(x) => x,
            None => {
                return Err(KernelError::Syscall(ErrorNumber::Serialization));
            },
        };
        if major == 0 || major == 1 || major == 7 {
            pos = next;
        } else if major == 2 || major == 3 {
            if arg > (data.len() - next) as u64 {
                return Err(KernelError::Syscall(ErrorNumber::Serialization));
            }
            pos = next + (arg as usize);
        } else if major == 4 {
            pending = match pending.checked_add(arg) {
                Some(p) => p,
                None => {
                    return Err(KernelError::Syscall(ErrorNumber::Serialization));
                },
            };
            pos = next;
        } else if major == 5 {
            let pairs = match arg.checked_mul(2) {
                Some(p) => p,
                None => {
                    return Err(KernelError::Syscall(ErrorNumber::Serialization));
                },
            };
            pending = match pending.checked_add(pairs) {
                Some(p) => p,
                None => {
                    return Err(KernelError::Syscall(ErrorNumber::Serialization));
                },
            };
            pos = next;
        } else if major == 6 && arg == 42 {
            // A link: the tagged item must be a byte string holding the
            // multibase identity prefix and the binary CID.
            if next >= data.len() || (data[next] >> 5) != 2 {
                return Err(KernelError::Syscall(ErrorNumber::Serialization));
            }
            let (blen, bstart) = match read_head(data, next) {
                Some(x) => x,
                None => {
                    return Err(KernelError::Syscall(ErrorNumber::Serialization));
                },
            };
            if blen < 2 || blen > (data.len() - bstart) as u64 {
                return Err(KernelError::Syscall(ErrorNumber::Serialization));
            }
            if data[bstart] != 0 {
                return Err(KernelError::Syscall(ErrorNumber::Serialization));
            }
            let payload = bytes_of_range(data, bstart + 1, bstart + (blen as usize));
            let c = match parse_cid_bytes(payload.as_slice()) {
                Some(c) => c,
                None => {
                    return Err(KernelError::Syscall(ErrorNumber::Serialization));
                },
            };
            gas.charge(price.on_ipld_link)?;
            let ghost lm_old = links@.map_values(|c: Cid| c@);
            let ghost cv = c@;
            links.push(c);
            pos = bstart + (blen as usize);
            proof {
                assert(links@.map_values(|c: Cid| c@) =~= lm_old.push(cv));
                let res = spec_scan_from(data@, pos as int, pending as nat);
                if res is Some {
                    let rest = res->Some_0;
                    assert(lm_old + (seq![cv] + rest) =~= lm_old.push(cv) + rest);
                }
            }
        } else if major == 6 {
            pending = match pending.checked_add(1) {
                Some(p) => p,
                None => {
                    return Err(KernelError::Syscall(ErrorNumber::Serialization));
                },
            };
            pos = next;
        } else {
            return Err(KernelError::Syscall(ErrorNumber::Serialization));
        }
    }
    if pos != data.len() {
        return Err(KernelError::Syscall(ErrorNumber::Serialization));
    }
    proof {
        let lm = links@.map_values(|c: Cid| c@);
        assert(lm + Seq::<CidView>::empty() =~= lm);
    }
    Ok(links)
}

/// Whether a scan result is the malformed-data error.
pub open spec fn is_serialization_err(r: SyscallResult<Vec<Cid>>) -> bool {
    r == Err::<Vec<Cid>, KernelError>(KernelError::Syscall(ErrorNumber::Serialization))
}

} // verus!
