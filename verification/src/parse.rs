//! Parsing of textual rectangle specifications.
//!
//! Two formats pre-seed a selection: the slurp style `"{x},{y} {w}x{h}"`
//! and the xrectsel style `"{w}x{h}+{x}+{y}"`. Both are prefix matches
//! (trailing text is ignored), each number is a maximal run of at least
//! one decimal digit, and a number too large for an `i32` rejects the
//! input instead of succeeding with a wrapped value.

use vstd::prelude::*;
use vstd::string::StrSliceExecFns;

use crate::errors::{NotSlurpStyleError, NotXRectSelStyleError, UnparseableRectError};
use crate::rect::Rect;

verus! {

/// A decimal digit.
pub open spec fn is_digit(c: char) -> bool {
    '0' <= c <= '9'
}

/// The numeric value of a decimal digit.
pub open spec fn digit_val(c: char) -> int {
    c as int - '0' as int
}

/// The end of the maximal run of digits starting at `i`: the first index
/// at or after `i` holding no digit (or the end of the string).
pub open spec fn digits_end(s: Seq<char>, i: int) -> int
    decreases s.len() - i,
{
    if i < s.len() && is_digit(s[i]) {
        digits_end(s, i + 1)
    } else {
        i
    }
}

/// The value of the decimal digits `s[i..j]`, most significant first.
pub open spec fn num_val(s: Seq<char>, i: int, j: int) -> int
    decreases j - i,
{
    if i < j {
        num_val(s, i, j - 1) * 10 + digit_val(s[j - 1])
    } else {
        0
    }
}

/// The slurp style `"{x},{y} {w}x{h}"` matches a prefix of `s`.
pub open spec fn slurp_ok(s: Seq<char>) -> bool {
    let e1 = digits_end(s, 0);
    let e2 = digits_end(s, e1 + 1);
    let e3 = digits_end(s, e2 + 1);
    let e4 = digits_end(s, e3 + 1);
    &&& e1 > 0
    &&& e1 < s.len()
    &&& s[e1] == ','
    &&& e2 > e1 + 1
    &&& e2 < s.len()
    &&& s[e2] == ' '
    &&& e3 > e2 + 1
    &&& e3 < s.len()
    &&& s[e3] == 'x'
    &&& e4 > e3 + 1
}

/// The rectangle a slurp-style prefix of `s` denotes, `None` when the
/// format does not match or a number exceeds `i32::MAX`.
pub open spec fn slurp_result(s: Seq<char>) -> Option<Rect> {
    let e1 = digits_end(s, 0);
    let e2 = digits_end(s, e1 + 1);
    let e3 = digits_end(s, e2 + 1);
    let e4 = digits_end(s, e3 + 1);
    let x = num_val(s, 0, e1);
    let y = num_val(s, e1 + 1, e2);
    let w = num_val(s, e2 + 1, e3);
    let h = num_val(s, e3 + 1, e4);
    if slurp_ok(s) && x <= 0x7FFF_FFFF && y <= 0x7FFF_FFFF && w <= 0x7FFF_FFFF && h
        <= 0x7FFF_FFFF {
        Some(Rect { x: x as i32, y: y as i32, width: w as i32, height: h as i32 })
    } else {
        None
    }
}

/// The xrectsel style `"{w}x{h}+{x}+{y}"` matches a prefix of `s`.
pub open spec fn xrectsel_ok(s: Seq<char>) -> bool {
    let e1 = digits_end(s, 0);
    let e2 = digits_end(s, e1 + 1);
    let e3 = digits_end(s, e2 + 1);
    let e4 = digits_end(s, e3 + 1);
    &&& e1 > 0
    &&& e1 < s.len()
    &&& s[e1] == 'x'
    &&& e2 > e1 + 1
    &&& e2 < s.len()
    &&& s[e2] == '+'
    &&& e3 > e2 + 1
    &&& e3 < s.len()
    &&& s[e3] == '+'
    &&& e4 > e3 + 1
}

/// The rectangle an xrectsel-style prefix of `s` denotes, `None` when the
/// format does not match or a number exceeds `i32::MAX`.
pub open spec fn xrectsel_result(s: Seq<char>) -> Option<Rect> {
    let e1 = digits_end(s, 0);
    let e2 = digits_end(s, e1 + 1);
    let e3 = digits_end(s, e2 + 1);
    let e4 = digits_end(s, e3 + 1);
    let w = num_val(s, 0, e1);
    let h = num_val(s, e1 + 1, e2);
    let x = num_val(s, e2 + 1, e3);
    let y = num_val(s, e3 + 1, e4);
    if xrectsel_ok(s) && x <= 0x7FFF_FFFF && y <= 0x7FFF_FFFF && w <= 0x7FFF_FFFF && h
        <= 0x7FFF_FFFF {
        Some(Rect { x: x as i32, y: y as i32, width: w as i32, height: h as i32 })
    } else {
        None
    }
}

/// Whether the character at index `i` is a decimal digit.
fn digit_at(s: &str, i: usize) -> (r: bool)
    requires
        i < s@.len(),
    ensures
        r == is_digit(s@[i as int]),
{
    let c = s.get_char(i);
    c >= '0' && c <= '9'
}

/// Scans the maximal digit run of `s` starting at `start`: returns its
/// end and the number it denotes, or `None` in place of a number that
/// exceeds `i32::MAX`.
fn scan_number(s: &str, start: usize) -> (r: (usize, Option<i32>))
    requires
        start <= s@.len(),
    ensures
        start <= r.0 <= s@.len(),
        r.0 == digits_end(s@, start as int),
        match r.1 {
            Some(v) => v >= 0 && v == num_val(s@, start as int, r.0 as int),
            None => num_val(s@, start as int, r.0 as int) > 0x7FFF_FFFF,
        },
{
    let len = s.unicode_len();
    let mut i: usize = start;
    let mut val: i64 = 0;
    while i < len && digit_at(s, i)
        invariant
            start <= i <= len,
            len == s@.len(),
            forall|k: int| start <= k < i ==> is_digit(#[trigger] s@[k]),
            digits_end(s@, start as int) == digits_end(s@, i as int),
            num_val(s@, start as int, i as int) <= 0x7FFF_FFFF ==> val == num_val(
                s@,
                start as int,
                i as int,
            ),
            num_val(s@, start as int, i as int) > 0x7FFF_FFFF ==> val == 0x8000_0000i64 && num_val(
                s@,
                start as int,
                i as int,
            ) > 0x7FFF_FFFF,
            0 <= val <= 0x8000_0000i64,
        decreases len - i,
    {
        let c = s.get_char(i);
        let d = (c as u32 - '0' as u32) as i64;
        proof {
            assert(num_val(s@, start as int, i + 1) == num_val(s@, start as int, i as int) * 10
                + digit_val(s@[i as int]));
            assert(num_val(s@, start as int, i as int) >= 0) by {
                lemma_num_val_nonneg(s@, start as int, i as int);
            }
        }
        val = val * 10 + d;
        if val > 0x7FFF_FFFF {
            proof {
                if num_val(s@, start as int, i + 1) <= 0x7FFF_FFFF {
                    assert(val == num_val(s@, start as int, i + 1));
                }
            }
            val = 0x8000_0000i64;
        }
        i += 1;
    }
    proof {
        assert(digits_end(s@, i as int) == i);
    }
    if val > 0x7FFF_FFFF {
        (i, None)
    } else {
        (i, Some(val as i32))
    }
}

/// A run of decimal digits denotes a non-negative number.
proof fn lemma_num_val_nonneg(s: Seq<char>, i: int, j: int)
    requires
        forall|k: int| i <= k < j ==> is_digit(#[trigger] s[k]),
    ensures
        num_val(s, i, j) >= 0,
    decreases j - i,
{
    if i < j {
        lemma_num_val_nonneg(s, i, j - 1);
        assert(is_digit(s[j - 1]));
    }
}

impl Rect {
    /// Parses a slurp-style rectangle `"{x},{y} {w}x{h}"` from a prefix
    /// of `s`.
    pub fn from_slurp_style(s: &str) -> (r: Result<Rect, NotSlurpStyleError>)
        ensures
            match r {
                Ok(rect) => slurp_result(s@) == Some(rect),
                Err(_) => slurp_result(s@) is None,
            },
    {
        let len = s.unicode_len();
        let (e1, v1) = scan_number(s, 0);
        if e1 == 0 || e1 >= len || s.get_char(e1) != ',' {
            return Err(NotSlurpStyleError);
        }
        let (e2, v2) = scan_number(s, e1 + 1);
        if e2 == e1 + 1 || e2 >= len || s.get_char(e2) != ' ' {
            return Err(NotSlurpStyleError);
        }
        let (e3, v3) = scan_number(s, e2 + 1);
        if e3 == e2 + 1 || e3 >= len || s.get_char(e3) != 'x' {
            return Err(NotSlurpStyleError);
        }
        let (e4, v4) = scan_number(s, e3 + 1);
        if e4 == e3 + 1 {
            return Err(NotSlurpStyleError);
        }
        match (v1, v2, v3, v4) {
            (Some(x), Some(y), Some(width), Some(height)) => Ok(
                Rect { x, y, width, height },
            ),
            _ => Err(NotSlurpStyleError),
        }
    }

    /// Parses an xrectsel-style rectangle `"{w}x{h}+{x}+{y}"` from a
    /// prefix of `s`.
    pub fn from_xrectsel_style(s: &str) -> (r: Result<Rect, NotXRectSelStyleError>)
        ensures
            match r {
                Ok(rect) => xrectsel_result(s@) == Some(rect),
                Err(_) => xrectsel_result(s@) is None,
            },
    {
        let len = s.unicode_len();
        let (e1, v1) = scan_number(s, 0);
        if e1 == 0 || e1 >= len || s.get_char(e1) != 'x' {
            return Err(NotXRectSelStyleError);
        }
        let (e2, v2) = scan_number(s, e1 + 1);
        if e2 == e1 + 1 || e2 >= len || s.get_char(e2) != '+' {
            return Err(NotXRectSelStyleError);
        }
        let (e3, v3) = scan_number(s, e2 + 1);
        if e3 == e2 + 1 || e3 >= len || s.get_char(e3) != '+' {
            return Err(NotXRectSelStyleError);
        }
        let (e4, v4) = scan_number(s, e3 + 1);
        if e4 == e3 + 1 {
            return Err(NotXRectSelStyleError);
        }
        match (v1, v2, v3, v4) {
            (Some(width), Some(height), Some(x), Some(y)) => Ok(
                Rect { x, y, width, height },
            ),
            _ => Err(NotXRectSelStyleError),
        }
    }

    /// Parses a rectangle in either of the two supported styles, slurp
    /// style first.
    pub fn from_any_style(s: &str) -> (r: Result<Rect, UnparseableRectError>)
        ensures
            match r {
                Ok(rect) => slurp_result(s@) == Some(rect) || (slurp_result(s@) is None
                    && xrectsel_result(s@) == Some(rect)),
                Err(_) => slurp_result(s@) is None && xrectsel_result(s@) is None,
            },
    {
        match Rect::from_slurp_style(s) {
            Ok(rect) => Ok(rect),
            Err(_) => match Rect::from_xrectsel_style(s) {
                Ok(rect) => Ok(rect),
                Err(_) => Err(UnparseableRectError),
            },
        }
    }
}

impl core::str::FromStr for Rect {
    type Err = String;

    fn from_str(s: &str) -> Result<Rect, String> {
        match Rect::from_any_style(s) {
            Ok(rect) => Ok(rect),
            Err(_) => Err("Impossible to parse rectangle".to_owned()),
        }
    }
}

} // verus!
