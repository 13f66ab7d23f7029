//! UTF-8 validation of event key buffers.
//!
//! The predicate follows the byte-level table of well-formed UTF-8: one-byte
//! sequences below 0x80; two-byte sequences with a lead in 0xC2..=0xDF;
//! three-byte sequences whose continuation ranges exclude overlong forms and
//! surrogates; four-byte sequences whose ranges exclude overlong forms and
//! code points above 0x10FFFF.

use vstd::prelude::*;

verus! {

/// A UTF-8 continuation byte.
pub open spec fn spec_is_cont(b: u8) -> bool {
    0x80 <= b <= 0xbf
}

/// Whether `s` is well-formed UTF-8 from position `i` on.
pub open spec fn spec_utf8_valid_from(s: Seq<u8>, i: int) -> bool
    decreases s.len() - i when 0 <= i <= s.len()
{
    if i >= s.len() {
        true
    } else {
        let b0 = s[i];
        if b0 < 0x80 {
            spec_utf8_valid_from(s, i + 1)
        } else if 0xc2 <= b0 <= 0xdf {
            i + 2 <= s.len() && spec_is_cont(s[i + 1]) && spec_utf8_valid_from(s, i + 2)
        } else if b0 == 0xe0 {
            i + 3 <= s.len() && 0xa0 <= s[i + 1] <= 0xbf && spec_is_cont(s[i + 2])
                && spec_utf8_valid_from(s, i + 3)
        } else if 0xe1 <= b0 <= 0xec || 0xee <= b0 <= 0xef {
            i + 3 <= s.len() && spec_is_cont(s[i + 1]) && spec_is_cont(s[i + 2])
                && spec_utf8_valid_from(s, i + 3)
        } else if b0 == 0xed {
            i + 3 <= s.len() && 0x80 <= s[i + 1] <= 0x9f && spec_is_cont(s[i + 2])
                && spec_utf8_valid_from(s, i + 3)
        } else if b0 == 0xf0 {
            i + 4 <= s.len() && 0x90 <= s[i + 1] <= 0xbf && spec_is_cont(s[i + 2]) && spec_is_cont(
                s[i + 3],
            ) && spec_utf8_valid_from(s, i + 4)
        } else if 0xf1 <= b0 <= 0xf3 {
            i + 4 <= s.len() && spec_is_cont(s[i + 1]) && spec_is_cont(s[i + 2]) && spec_is_cont(
                s[i + 3],
            ) && spec_utf8_valid_from(s, i + 4)
        } else if b0 == 0xf4 {
            i + 4 <= s.len() && 0x80 <= s[i + 1] <= 0x8f && spec_is_cont(s[i + 2]) && spec_is_cont(
                s[i + 3],
            ) && spec_utf8_valid_from(s, i + 4)
        } else {
            false
        }
    }
}

/// Whether `s` is well-formed UTF-8.
pub open spec fn spec_utf8_valid(s: Seq<u8>) -> bool {
    spec_utf8_valid_from(s, 0)
}

/// Validates that the whole buffer is well-formed UTF-8.
pub fn utf8_valid(s: &[u8]) -> (r: bool)
    ensures
        r == spec_utf8_valid(s@),
{
    let n = s.len();
    let mut i: usize = 0;
    while i < n
        invariant
            i <= n == s@.len(),
            spec_utf8_valid(s@) == spec_utf8_valid_from(s@, i as int),
        decreases n - i,
    {
        let b0 = s[i];
        if b0 < 0x80 {
            i += 1;
        } else if 0xc2 <= b0 && b0 <= 0xdf {
            if n - i < 2 || !is_cont(s[i + 1]) {
                return false;
            }
            i += 2;
        } else if b0 == 0xe0 {
            if n - i < 3 || !(0xa0 <= s[i + 1] && s[i + 1] <= 0xbf) || !is_cont(s[i + 2]) {
                return false;
            }
            i += 3;
        } else if (0xe1 <= b0 && b0 <= 0xec) || (0xee <= b0 && b0 <= 0xef) {
            if n - i < 3 || !is_cont(s[i + 1]) || !is_cont(s[i + 2]) {
                return false;
            }
            i += 3;
        } else if b0 == 0xed {
            if n - i < 3 || !(0x80 <= s[i + 1] && s[i + 1] <= 0x9f) || !is_cont(s[i + 2]) {
                return false;
            }
            i += 3;
        } else if b0 == 0xf0 {
            if n - i < 4 || !(0x90 <= s[i + 1] && s[i + 1] <= 0xbf) || !is_cont(s[i + 2])
                || !is_cont(s[i + 3]) {
                return false;
            }
            i += 4;
        } else if 0xf1 <= b0 && b0 <= 0xf3 {
            if n - i < 4 || !is_cont(s[i + 1]) || !is_cont(s[i + 2]) || !is_cont(s[i + 3]) {
                return false;
            }
            i += 4;
        } else if b0 == 0xf4 {
            if n - i < 4 || !(0x80 <= s[i + 1] && s[i + 1] <= 0x8f) || !is_cont(s[i + 2])
                || !is_cont(s[i + 3]) {
                return false;
            }
            i += 4;
        } else {
            return false;
        }
    }
    true
}

/// Tests for a continuation byte.
fn is_cont(b: u8) -> (r: bool)
    ensures
        r == spec_is_cont(b),
{
    0x80 <= b && b <= 0xbf
}

} // verus!
