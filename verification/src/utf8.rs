//! UTF-8 validity of import and module names.
//!
//! Import resolution decodes every name as text; a name that is not valid
//! UTF-8 aborts the operation. Validity is stated here directly over the
//! byte sequence, following the well-formed byte patterns of UTF-8: one to
//! four bytes per scalar value, continuation bytes in `0x80..=0xBF`, no
//! overlong encodings, no surrogates, nothing above `U+10FFFF`.

use vstd::prelude::*;

verus! {

/// `b` is a continuation byte.
pub open spec fn is_cont(b: u8) -> bool {
    0x80 <= b && b <= 0xBF
}

/// The bytes of `s` from position `i` on are a well-formed sequence of
/// UTF-8 encoded scalar values.
pub open spec fn valid_utf8_from(s: Seq<u8>, i: int) -> bool
    recommends
        0 <= i <= s.len(),
    decreases s.len() - i,
{
    if i < 0 || i >= s.len() {
        true
    } else {
        let b0 = s[i];
        if b0 < 0x80 {
            valid_utf8_from(s, i + 1)
        } else if 0xC2 <= b0 && b0 <= 0xDF {
            i + 2 <= s.len() && is_cont(s[i + 1]) && valid_utf8_from(s, i + 2)
        } else if b0 == 0xE0 {
            i + 3 <= s.len() && 0xA0 <= s[i + 1] && s[i + 1] <= 0xBF && is_cont(s[i + 2])
                && valid_utf8_from(s, i + 3)
        } else if b0 == 0xED {
            i + 3 <= s.len() && 0x80 <= s[i + 1] && s[i + 1] <= 0x9F && is_cont(s[i + 2])
                && valid_utf8_from(s, i + 3)
        } else if 0xE1 <= b0 && b0 <= 0xEF {
            i + 3 <= s.len() && is_cont(s[i + 1]) && is_cont(s[i + 2]) && valid_utf8_from(s, i + 3)
        } else if b0 == 0xF0 {
            i + 4 <= s.len() && 0x90 <= s[i + 1] && s[i + 1] <= 0xBF && is_cont(s[i + 2]) && is_cont(
                s[i + 3],
            ) && valid_utf8_from(s, i + 4)
        } else if 0xF1 <= b0 && b0 <= 0xF3 {
            i + 4 <= s.len() && is_cont(s[i + 1]) && is_cont(s[i + 2]) && is_cont(s[i + 3])
                && valid_utf8_from(s, i + 4)
        } else if b0 == 0xF4 {
            i + 4 <= s.len() && 0x80 <= s[i + 1] && s[i + 1] <= 0x8F && is_cont(s[i + 2]) && is_cont(
                s[i + 3],
            ) && valid_utf8_from(s, i + 4)
        } else {
            false
        }
    }
}

/// `s` is a well-formed UTF-8 byte sequence.
pub open spec fn valid_utf8(s: Seq<u8>) -> bool {
    valid_utf8_from(s, 0)
}

/// Decide UTF-8 validity of a byte string.
pub fn validate_utf8(s: &Vec<u8>) -> (r: bool)
    ensures
        r == valid_utf8(s@),
{
    let n = s.len();
    let mut i: usize = 0;
    loop
        invariant
            i <= n,
            n == s@.len(),
            valid_utf8(s@) == valid_utf8_from(s@, i as int),
        decreases n - i,
    {
        if i >= n {
            return true;
        }
        let b0 = s[i];
        let left = n - i;
        if b0 < 0x80 {
            i = i + 1;
        } else if 0xC2 <= b0 && b0 <= 0xDF {
            if left >= 2 && is_cont_byte(s[i + 1]) {
                i = i + 2;
            } else {
                return false;
            }
        } else if b0 == 0xE0 {
            if left >= 3 && 0xA0 <= s[i + 1] && s[i + 1] <= 0xBF && is_cont_byte(s[i + 2]) {
                i = i + 3;
            } else {
                return false;
            }
        } else if b0 == 0xED {
            if left >= 3 && 0x80 <= s[i + 1] && s[i + 1] <= 0x9F && is_cont_byte(s[i + 2]) {
                i = i + 3;
            } else {
                return false;
            }
        } else if 0xE1 <= b0 && b0 <= 0xEF {
            if left >= 3 && is_cont_byte(s[i + 1]) && is_cont_byte(s[i + 2]) {
                i = i + 3;
            } else {
                return false;
            }
        } else if b0 == 0xF0 {
            if left >= 4 && 0x90 <= s[i + 1] && s[i + 1] <= 0xBF && is_cont_byte(s[i + 2])
                && is_cont_byte(s[i + 3]) {
                i = i + 4;
            } else {
                return false;
            }
        } else if 0xF1 <= b0 && b0 <= 0xF3 {
            if left >= 4 && is_cont_byte(s[i + 1]) && is_cont_byte(s[i + 2]) && is_cont_byte(
                s[i + 3],
            ) {
                i = i + 4;
            } else {
                return false;
            }
        } else if b0 == 0xF4 {
            if left >= 4 && 0x80 <= s[i + 1] && s[i + 1] <= 0x8F && is_cont_byte(s[i + 2])
                && is_cont_byte(s[i + 3]) {
                i = i + 4;
            } else {
                return false;
            }
        } else {
            return false;
        }
    }
}

/// Decide whether `b` is a continuation byte.
fn is_cont_byte(b: u8) -> (r: bool)
    ensures
        r == is_cont(b),
{
    0x80 <= b && b <= 0xBF
}

} // verus!
