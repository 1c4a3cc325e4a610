//! Conversion of captured text into scalar values: decimal integers with an
//! optional sign, and booleans compared ASCII case-insensitively.

use crate::schema::IntWidth;
use vstd::prelude::*;
use vstd::string::StrSliceExecFns;

verus! {

/// Whether `c` is a decimal digit.
pub open spec fn is_digit(c: char) -> bool {
    '0' as u32 <= c as u32 && c as u32 <= '9' as u32
}

/// The numeric value of the digit `c`.
pub open spec fn digit_val(c: char) -> nat {
    (c as u32 - '0' as u32) as nat
}

/// Whether every character of `s` is a decimal digit.
pub open spec fn all_digits(s: Seq<char>) -> bool {
    forall|i: int| 0 <= i < s.len() ==> is_digit(#[trigger] s[i])
}

/// The value of `s` read as a decimal numeral, most significant digit first.
pub open spec fn digits_val(s: Seq<char>) -> nat
    decreases s.len(),
{
    if s.len() == 0 {
        0
    } else {
        digits_val(s.drop_last()) * 10 + digit_val(s.last())
    }
}

/// `s` without its optional leading `+`.
pub open spec fn unsigned_body(s: Seq<char>) -> Seq<char> {
    if s.len() > 0 && s[0] == '+' {
        s.drop_first()
    } else {
        s
    }
}

/// Whether `s` is a well-formed unsigned numeral: an optional leading `+`,
/// then one or more digits.
pub open spec fn valid_unsigned(s: Seq<char>) -> bool {
    unsigned_body(s).len() > 0 && all_digits(unsigned_body(s))
}

/// The value of a well-formed unsigned numeral.
pub open spec fn unsigned_val(s: Seq<char>) -> nat {
    digits_val(unsigned_body(s))
}

/// Whether `s` carries a leading minus sign.
pub open spec fn sign_negative(s: Seq<char>) -> bool {
    s.len() > 0 && s[0] == '-'
}

/// `s` without its optional leading `+` or `-`.
pub open spec fn signed_body(s: Seq<char>) -> Seq<char> {
    if s.len() > 0 && (s[0] == '+' || s[0] == '-') {
        s.drop_first()
    } else {
        s
    }
}

/// Whether `s` is a well-formed signed numeral: an optional leading `+` or
/// `-`, then one or more digits.
pub open spec fn valid_signed(s: Seq<char>) -> bool {
    signed_body(s).len() > 0 && all_digits(signed_body(s))
}

/// The value of a well-formed signed numeral.
pub open spec fn signed_val(s: Seq<char>) -> int {
    if sign_negative(s) {
        -(digits_val(signed_body(s)) as int)
    } else {
        digits_val(signed_body(s)) as int
    }
}

/// A numeral's prefixes never exceed the whole numeral in value.
proof fn lemma_digits_val_take_le(s: Seq<char>, i: int)
    requires
        0 <= i <= s.len(),
        all_digits(s),
    ensures
        digits_val(s.take(i)) <= digits_val(s),
    decreases s.len() - i,
{
    if i < s.len() {
        assert(s.take(i + 1).drop_last() =~= s.take(i));
        assert(s.take(i + 1).last() == s[i]);
        lemma_digits_val_take_le(s, i + 1);
    } else {
        assert(s.take(i) =~= s);
    }
}

/// Reads the digits of `s` from character position `start` to the end and
/// returns their value, if the rest of `s` is a nonempty run of digits whose
/// value does not exceed `max`.
fn parse_digits(s: &str, start: usize, max: u64) -> (r: Option<u64>)
    requires
        start <= s@.len(),
    ensures
        r == if all_digits(s@.skip(start as int)) && s@.skip(start as int).len() > 0
            && digits_val(s@.skip(start as int)) <= max {
            Some(digits_val(s@.skip(start as int)) as u64)
        } else {
            None::<u64>
        },
{
    let ghost body = s@.skip(start as int);
    let n = s.unicode_len();
    if start == n {
        return None;
    }
    let mut i: usize = start;
    let mut acc: u64 = 0;
    while i < n
        invariant
            start <= i <= n,
            n == s@.len(),
            body == s@.skip(start as int),
            all_digits(body.take(i - start)),
            acc == digits_val(body.take(i - start)),
            acc <= max,
        decreases n - i,
    {
        let c = s.get_char(i);
        let code = c as u32;
        proof {
            assert(body[i - start] == s@[i as int]);
        }
        if code < '0' as u32 || code > '9' as u32 {
            assert(!is_digit(body[i - start]));
            return None;
        }
        let d = (code - '0' as u32) as u64;
        proof {
            assert(body.take(i + 1 - start).drop_last() =~= body.take(i - start));
            assert(body.take(i + 1 - start).last() == body[i - start]);
            assert(digits_val(body.take(i + 1 - start)) == acc * 10 + d);
        }
        let wide = match acc.checked_mul(10) {
            Some(m) => m.checked_add(d),
            None => None,
        };
        let next = match wide {
            Some(v) => if v <= max {
                v
            } else {
                proof {
                    if all_digits(body) {
                        lemma_digits_val_take_le(body, i + 1 - start);
                    }
                }
                return None;
            },
            None => {
                proof {
                    if all_digits(body) {
                        lemma_digits_val_take_le(body, i + 1 - start);
                    }
                }
                return None;
            },
        };
        acc = next;
        i = i + 1;
    }
    proof {
        assert(body.take(n - start) =~= body);
    }
    Some(acc)
}

/// The largest value an unsigned numeral may denote for each width, as an
/// executable value.
pub fn width_limit(w: IntWidth) -> (m: u64)
    ensures
        m == crate::schema::width_max(w),
{
    match w {
        IntWidth::W8 => 0xff,
        IntWidth::W16 => 0xffff,
        IntWidth::W32 => 0xffff_ffff,
        IntWidth::W64 => 0xffff_ffff_ffff_ffff,
    }
}

/// The largest magnitude a signed numeral may denote for each width and sign,
/// as an executable value.
pub fn signed_mag_limit(w: IntWidth, negative: bool) -> (m: u64)
    ensures
        m == crate::schema::signed_mag_max(w, negative),
{
    let positive_max: u64 = match w {
        IntWidth::W8 => 0x7f,
        IntWidth::W16 => 0x7fff,
        IntWidth::W32 => 0x7fff_ffff,
        IntWidth::W64 => 0x7fff_ffff_ffff_ffff,
    };
    if negative {
        positive_max + 1
    } else {
        positive_max
    }
}

/// Reads `s` as an unsigned decimal numeral, accepting an optional leading
/// `+` and rejecting any value above `max`.
pub fn parse_unsigned(s: &str, max: u64) -> (r: Option<u64>)
    ensures
        r == if valid_unsigned(s@) && unsigned_val(s@) <= max {
            Some(unsigned_val(s@) as u64)
        } else {
            None::<u64>
        },
{
    let n = s.unicode_len();
    let start: usize = if n > 0 && s.get_char(0) == '+' {
        1
    } else {
        0
    };
    proof {
        if start == 1 {
            assert(unsigned_body(s@) =~= s@.skip(1));
        } else {
            assert(unsigned_body(s@) =~= s@.skip(0));
        }
    }
    parse_digits(s, start, max)
}

/// Reads `s` as a signed decimal numeral, accepting an optional leading `+`
/// or `-` and rejecting any value outside the width `w`.
pub fn parse_signed(s: &str, w: IntWidth) -> (r: Option<i64>)
    ensures
        r == if valid_signed(s@) && -(crate::schema::signed_mag_max(w, true) as int)
            <= signed_val(s@) && signed_val(s@) <= crate::schema::signed_mag_max(w, false) as int {
            Some(signed_val(s@) as i64)
        } else {
            None::<i64>
        },
{
    let n = s.unicode_len();
    let negative = n > 0 && s.get_char(0) == '-';
    let start: usize = if n > 0 && (negative || s.get_char(0) == '+') {
        1
    } else {
        0
    };
    proof {
        if start == 1 {
            assert(signed_body(s@) =~= s@.skip(1));
        } else {
            assert(signed_body(s@) =~= s@.skip(0));
        }
    }
    let limit = signed_mag_limit(w, negative);
    match parse_digits(s, start, limit) {
        None => None,
        Some(mag) => if negative {
            if mag == 0x8000_0000_0000_0000 {
                Some(i64::MIN)
            } else {
                Some(-(mag as i64))
            }
        } else {
            Some(mag as i64)
        },
    }
}

/// The ASCII-lowercased code point of `c`: letters `A` through `Z` move to
/// their lower-case forms, every other character is left as it is.
pub open spec fn lower_code(c: char) -> u32 {
    if 'A' as u32 <= c as u32 && c as u32 <= 'Z' as u32 {
        (c as u32 + 32) as u32
    } else {
        c as u32
    }
}

/// Whether `a` and `b` are equal up to ASCII case.
pub open spec fn eq_ignore_ascii(a: Seq<char>, b: Seq<char>) -> bool {
    a.len() == b.len() && forall|i: int|
        0 <= i < a.len() ==> lower_code(#[trigger] a[i]) == lower_code(b[i])
}

/// The boolean denoted by `t`, if any: `true` or `false` up to ASCII case.
pub open spec fn bool_of_text(t: Seq<char>) -> Option<bool> {
    if eq_ignore_ascii(t, "true"@) {
        Some(true)
    } else if eq_ignore_ascii(t, "false"@) {
        Some(false)
    } else {
        None
    }
}

/// Compares two strings for equality up to ASCII case.
fn str_eq_ignore_ascii(a: &str, b: &str) -> (r: bool)
    ensures
        r == eq_ignore_ascii(a@, b@),
{
    let na = a.unicode_len();
    let nb = b.unicode_len();
    if na != nb {
        return false;
    }
    let mut i: usize = 0;
    while i < na
        invariant
            0 <= i <= na,
            na == a@.len(),
            na == b@.len(),
            forall|j: int| 0 <= j < i ==> lower_code(#[trigger] a@[j]) == lower_code(b@[j]),
        decreases na - i,
    {
        let ca = a.get_char(i) as u32;
        let cb = b.get_char(i) as u32;
        let la = if 'A' as u32 <= ca && ca <= 'Z' as u32 {
            ca + 32
        } else {
            ca
        };
        let lb = if 'A' as u32 <= cb && cb <= 'Z' as u32 {
            cb + 32
        } else {
            cb
        };
        if la != lb {
            assert(lower_code(a@[i as int]) != lower_code(b@[i as int]));
            return false;
        }
        i = i + 1;
    }
    true
}

/// Reads `s` as a boolean: `true` or `false`, ASCII case-insensitively.
pub fn parse_bool(s: &str) -> (r: Option<bool>)
    ensures
        r == bool_of_text(s@),
{
    if str_eq_ignore_ascii(s, "true") {
        Some(true)
    } else if str_eq_ignore_ascii(s, "false") {
        Some(false)
    } else {
        None
    }
}

} // verus!
