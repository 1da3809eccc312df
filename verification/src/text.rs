//! Decimal text handling: interpreting command-line tokens as `u32` / `i32`
//! values and rendering numbers back into message strings.

use vstd::prelude::*;
use vstd::string::{StrSliceExecFns, StringExecFns};

verus! {

/// A decimal digit `'0'..='9'`.
pub open spec fn is_digit(c: char) -> bool {
    48 <= c as int && c as int <= 57
}

/// Numeric value of a digit character.
pub open spec fn digit_val(c: char) -> int {
    c as int - 48
}

pub open spec fn all_digits(s: Seq<char>) -> bool {
    forall|i: int| 0 <= i < s.len() ==> is_digit(#[trigger] s[i])
}

/// The number denoted by a digit string, most significant digit first.
pub open spec fn digits_val(s: Seq<char>) -> int
    decreases s.len(),
{
    if s.len() == 0 {
        0
    } else {
        digits_val(s.drop_last()) * 10 + digit_val(s.last())
    }
}

pub proof fn lemma_digits_val_nonneg(s: Seq<char>)
    requires
        all_digits(s),
    ensures
        digits_val(s) >= 0,
    decreases s.len(),
{
    if s.len() > 0 {
        assert(all_digits(s.drop_last()));
        lemma_digits_val_nonneg(s.drop_last());
    }
}

/// A digit string is worth at least any of its prefixes.
pub proof fn lemma_digits_val_prefix_le(s: Seq<char>, j: int)
    requires
        all_digits(s),
        0 <= j <= s.len(),
    ensures
        digits_val(s.take(j)) <= digits_val(s),
    decreases s.len() - j,
{
    if j == s.len() {
        assert(s.take(j) =~= s);
    } else {
        assert(s.take(j + 1).drop_last() =~= s.take(j));
        assert(s.take(j + 1).last() == s[j]);
        assert(all_digits(s.take(j)));
        lemma_digits_val_nonneg(s.take(j));
        lemma_digits_val_prefix_le(s, j + 1);
    }
}

/// Reads the digits of `s` from position `start` on, returning their value
/// if the whole tail is a non-empty digit string worth at most `limit`.
fn scan_digits(s: &str, start: usize, limit: u64) -> (r: Option<u64>)
    requires
        start as int <= s@.len(),
        limit <= 0x1_0000_0000u64,
    ensures
        ({
            let b = s@.subrange(start as int, s@.len() as int);
            match r {
                Some(v) => b.len() > 0 && all_digits(b) && digits_val(b) == v && v <= limit,
                None => !(b.len() > 0 && all_digits(b) && digits_val(b) <= limit),
            }
        }),
{
    let n = s.unicode_len();
    let mut i: usize = start;
    let mut acc: u64 = 0;
    if start == n {
        return None;
    }
    while i < n
        invariant
            start <= i <= n,
            start < n,
            n == s@.len(),
            limit <= 0x1_0000_0000u64,
            all_digits(s@.subrange(start as int, i as int)),
            acc == digits_val(s@.subrange(start as int, i as int)),
            acc <= limit,
        decreases n - i,
    {
        let c = s.get_char(i);
        let cv = c as u32;
        proof {
            let b = s@.subrange(start as int, s@.len() as int);
            assert(b[i - start] == s@[i as int]);
        }
        if cv < 48 || cv > 57 {
            return None;
        }
        let d = (cv - 48) as u64;
        proof {
            assert(s@.subrange(start as int, i + 1 as int).drop_last() =~= s@.subrange(
                start as int,
                i as int,
            ));
            assert(s@.subrange(start as int, i + 1 as int).last() == s@[i as int]);
        }
        let new_acc = acc * 10 + d;
        if new_acc > limit {
            proof {
                let b = s@.subrange(start as int, s@.len() as int);
                assert(b.take(i + 1 - start) =~= s@.subrange(start as int, i + 1 as int));
                if all_digits(b) && digits_val(b) <= limit {
                    lemma_digits_val_prefix_le(b, i + 1 - start);
                }
            }
            return None;
        }
        acc = new_acc;
        i = i + 1;
    }
    proof {
        assert(s@.subrange(start as int, i as int) =~= s@.subrange(start as int, s@.len() as int));
    }
    Some(acc)
}

/// The digit part of a `u32` token: an optional leading `'+'` is skipped.
pub open spec fn u32_body(s: Seq<char>) -> Seq<char> {
    if s.len() > 0 && s[0] == '+' {
        s.drop_first()
    } else {
        s
    }
}

/// Whether `s` denotes a `u32`: an optional `'+'`, then one or more digits,
/// worth at most `u32::MAX`.
pub open spec fn is_u32_str(s: Seq<char>) -> bool {
    let b = u32_body(s);
    b.len() > 0 && all_digits(b) && digits_val(b) <= 0xFFFF_FFFF
}

/// The value denoted by a `u32` token.
pub open spec fn u32_str_val(s: Seq<char>) -> int {
    digits_val(u32_body(s))
}

pub fn parse_u32(s: &str) -> (r: Option<u32>)
    ensures
        r is Some <==> is_u32_str(s@),
        r is Some ==> r->0 as int == u32_str_val(s@),
{
    let n = s.unicode_len();
    let start: usize = if n > 0 && s.get_char(0) == '+' {
        1
    } else {
        0
    };
    proof {
        assert(u32_body(s@) =~= s@.subrange(start as int, s@.len() as int));
    }
    match scan_digits(s, start, 0xFFFF_FFFFu64) {
        Some(v) => Some(v as u32),
        None => None,
    }
}

/// The digit part of an `i32` token: an optional leading sign is skipped.
pub open spec fn i32_body(s: Seq<char>) -> Seq<char> {
    if s.len() > 0 && (s[0] == '+' || s[0] == '-') {
        s.drop_first()
    } else {
        s
    }
}

pub open spec fn i32_neg(s: Seq<char>) -> bool {
    s.len() > 0 && s[0] == '-'
}

/// Whether `s` denotes an `i32`: an optional sign, then one or more digits,
/// with the value in `i32`'s range.
pub open spec fn is_i32_str(s: Seq<char>) -> bool {
    let b = i32_body(s);
    b.len() > 0 && all_digits(b) && (if i32_neg(s) {
        digits_val(b) <= 0x8000_0000
    } else {
        digits_val(b) <= 0x7FFF_FFFF
    })
}

/// The value denoted by an `i32` token.
pub open spec fn i32_str_val(s: Seq<char>) -> int {
    if i32_neg(s) {
        -digits_val(i32_body(s))
    } else {
        digits_val(i32_body(s))
    }
}

pub fn parse_i32(s: &str) -> (r: Option<i32>)
    ensures
        r is Some <==> is_i32_str(s@),
        r is Some ==> r->0 as int == i32_str_val(s@),
{
    let n = s.unicode_len();
    let mut neg = false;
    let mut start: usize = 0;
    if n > 0 {
        let c = s.get_char(0);
        if c == '+' {
            start = 1;
        } else if c == '-' {
            start = 1;
            neg = true;
        }
    }
    proof {
        assert(i32_body(s@) =~= s@.subrange(start as int, s@.len() as int));
    }
    match scan_digits(s, start, 0x8000_0000u64) {
        Some(v) => {
            if neg {
                if v == 0x8000_0000u64 {
                    Some(i32::MIN)
                } else {
                    Some(-(v as i32))
                }
            } else {
                if v > 0x7FFF_FFFFu64 {
                    None
                } else {
                    Some(v as i32)
                }
            }
        },
        None => None,
    }
}

/// The first position at or after `i` that does not hold a digit.
pub open spec fn digits_end(s: Seq<char>, i: int) -> int
    decreases s.len() - i,
{
    if i < 0 || i >= s.len() {
        i
    } else if is_digit(s[i]) {
        digits_end(s, i + 1)
    } else {
        i
    }
}

/// One past the optional leading sign of a float token.
pub open spec fn float_sign_end(s: Seq<char>) -> int {
    if s.len() > 0 && (s[0] == '+' || s[0] == '-') {
        1
    } else {
        0
    }
}

/// Whether `s` is a float token as the blur operation reads one: an optional
/// sign, a mantissa holding at least one digit and at most one point, and an
/// optional exponent part `e`/`E`, optional sign, one or more digits.
pub open spec fn is_float_literal(s: Seq<char>) -> bool {
    let i = float_sign_end(s);
    let j = digits_end(s, i);
    let after = if j < s.len() && s[j] == '.' {
        digits_end(s, j + 1)
    } else {
        j
    };
    let mant_ok = if j < s.len() && s[j] == '.' {
        j > i || after > j + 1
    } else {
        j > i
    };
    if after == s.len() {
        mant_ok
    } else {
        mant_ok && (s[after] == 'e' || s[after] == 'E') && {
            let l = if after + 1 < s.len() && (s[after + 1] == '+' || s[after + 1] == '-') {
                after + 2
            } else {
                after + 1
            };
            digits_end(s, l) == s.len() && s.len() > l
        }
    }
}

/// Scans the run of digits beginning at `from`, returning its end.
fn scan_digit_run(s: &str, from: usize) -> (r: usize)
    requires
        from as int <= s@.len(),
    ensures
        r as int == digits_end(s@, from as int),
        from <= r <= s@.len(),
{
    let n = s.unicode_len();
    let mut i: usize = from;
    while i < n
        invariant
            from <= i <= n,
            n == s@.len(),
            digits_end(s@, from as int) == digits_end(s@, i as int),
        decreases n - i,
    {
        let c = s.get_char(i);
        let cv = c as u32;
        if cv < 48 || cv > 57 {
            proof {
                assert(digits_end(s@, i as int) == i as int);
            }
            return i;
        }
        i = i + 1;
    }
    proof {
        assert(digits_end(s@, i as int) == i as int);
    }
    i
}

pub fn is_float_token(s: &str) -> (r: bool)
    ensures
        r == is_float_literal(s@),
{
    let n = s.unicode_len();
    let start: usize = if n > 0 {
        let c = s.get_char(0);
        if c == '+' || c == '-' {
            1
        } else {
            0
        }
    } else {
        0
    };
    let j = scan_digit_run(s, start);
    let after: usize;
    let mant_ok: bool;
    if j < n && s.get_char(j) == '.' {
        after = scan_digit_run(s, j + 1);
        mant_ok = j > start || after > j + 1;
    } else {
        after = j;
        mant_ok = j > start;
    }
    if after == n {
        return mant_ok;
    }
    if !mant_ok {
        return false;
    }
    let e = s.get_char(after);
    if !(e == 'e' || e == 'E') {
        return false;
    }
    let l: usize = if after + 1 < n {
        let c2 = s.get_char(after + 1);
        if c2 == '+' || c2 == '-' {
            after + 2
        } else {
            after + 1
        }
    } else {
        after + 1
    };
    let m = scan_digit_run(s, l);
    m == n && n > l
}

/// The digit character for a value in `0..=9`.
pub open spec fn dec_digit(d: int) -> char {
    if d == 0 {
        '0'
    } else if d == 1 {
        '1'
    } else if d == 2 {
        '2'
    } else if d == 3 {
        '3'
    } else if d == 4 {
        '4'
    } else if d == 5 {
        '5'
    } else if d == 6 {
        '6'
    } else if d == 7 {
        '7'
    } else if d == 8 {
        '8'
    } else {
        '9'
    }
}

/// The decimal rendering of a non-negative number, without sign or padding.
pub open spec fn dec_str(n: int) -> Seq<char>
    decreases n,
{
    if n < 10 {
        seq![dec_digit(n)]
    } else {
        dec_str(n / 10).push(dec_digit(n % 10))
    }
}

fn digit_str(d: usize) -> (r: &'static str)
    requires
        d < 10,
    ensures
        r@.len() == 1,
        r@[0] == dec_digit(d as int),
{
    proof {
        reveal_strlit("0");
        reveal_strlit("1");
        reveal_strlit("2");
        reveal_strlit("3");
        reveal_strlit("4");
        reveal_strlit("5");
        reveal_strlit("6");
        reveal_strlit("7");
        reveal_strlit("8");
        reveal_strlit("9");
    }
    match d {
        0 => "0",
        1 => "1",
        2 => "2",
        3 => "3",
        4 => "4",
        5 => "5",
        6 => "6",
        7 => "7",
        8 => "8",
        _ => "9",
    }
}

pub fn usize_to_string(n: usize) -> (r: String)
    ensures
        r@ == dec_str(n as int),
    decreases n,
{
    if n < 10 {
        let r = digit_str(n).to_owned();
        proof {
            assert(r@ =~= dec_str(n as int));
        }
        r
    } else {
        let mut r = usize_to_string(n / 10);
        r.append(digit_str(n % 10));
        proof {
            assert(r@ =~= dec_str(n as int));
        }
        r
    }
}

} // verus!
