//! Fixed-point parsing of decimal number text.
//!
//! Damage and action-value figures reach the client as JSON numbers. The
//! library stores them as unsigned integers in milli-units (one unit of the
//! wire value is 1000 here), so the aggregation arithmetic can be exact. This
//! module turns the textual form of a non-negative decimal number into that
//! representation, truncating past the third fractional digit. Text in any
//! other shape (signs, exponents, a missing digit around the point) is
//! rejected, as is a value too large for `u64`.

use vstd::prelude::*;
use vstd::slice::slice_subrange;
use vstd::string::StringExecFns;

verus! {

/// Milli-units per whole unit of a wire value.
pub const MILLIS_PER_UNIT: u64 = 1000;

/// ASCII digit.
pub open spec fn is_digit(b: u8) -> bool {
    0x30 <= b <= 0x39
}

/// Numeric value of an ASCII digit.
pub open spec fn digit_val(b: u8) -> int {
    b - 0x30
}

pub open spec fn all_digits(s: Seq<u8>) -> bool {
    forall|i: int| 0 <= i < s.len() ==> is_digit(#[trigger] s[i])
}

/// Value of a digit string read most significant first.
pub open spec fn digits_val(s: Seq<u8>) -> int
    decreases s.len(),
{
    if s.len() == 0 {
        0
    } else {
        digits_val(s.drop_last()) * 10 + digit_val(s.last())
    }
}

/// Splits number text at the first `.` into integer and fractional digits;
/// text without a point has an empty fractional part.
pub open spec fn spec_split_decimal(s: Seq<u8>) -> (Seq<u8>, Seq<u8>) {
    match s.index_of_first(0x2eu8) {
        Some(k) => (s.take(k), s.skip(k + 1)),
        None => (s, Seq::empty()),
    }
}

/// Non-negative decimal number text: digits, optionally a point followed by
/// at least one more digit. No sign, no exponent.
pub open spec fn is_plain_decimal(s: Seq<u8>) -> bool {
    let (ip, fp) = spec_split_decimal(s);
    &&& ip.len() > 0
    &&& all_digits(ip)
    &&& all_digits(fp)
    &&& (s.index_of_first(0x2eu8) is Some ==> fp.len() > 0)
}

/// Contribution of the fractional digits, truncated past the third.
pub open spec fn frac_milli(fp: Seq<u8>) -> int {
    (if fp.len() >= 1 {
        digit_val(fp[0]) * 100
    } else {
        0
    }) + (if fp.len() >= 2 {
        digit_val(fp[1]) * 10
    } else {
        0
    }) + (if fp.len() >= 3 {
        digit_val(fp[2])
    } else {
        0
    })
}

/// The milli-unit value of plain decimal number text.
pub open spec fn decimal_milli_val(s: Seq<u8>) -> int {
    let (ip, fp) = spec_split_decimal(s);
    digits_val(ip) * 1000 + frac_milli(fp)
}

proof fn lemma_digits_val_nonneg(s: Seq<u8>)
    requires
        all_digits(s),
    ensures
        digits_val(s) >= 0,
    decreases s.len(),
{
    if s.len() > 0 {
        assert(all_digits(s.drop_last()));
        lemma_digits_val_nonneg(s.drop_last());
    }
}

/// A digit string is worth at least any of its prefixes.
proof fn lemma_digits_val_take_grows(s: Seq<u8>, i: int, j: int)
    requires
        all_digits(s),
        0 <= i <= j <= s.len(),
    ensures
        digits_val(s.take(i)) <= digits_val(s.take(j)),
    decreases j - i,
{
    if i < j {
        lemma_digits_val_take_grows(s, i, j - 1);
        assert(s.take(j).drop_last() =~= s.take(j - 1));
        assert(all_digits(s.take(j - 1)));
        lemma_digits_val_nonneg(s.take(j - 1));
        assert(digits_val(s.take(j)) == digits_val(s.take(j - 1)) * 10 + digit_val(s.take(j)[j
            - 1]));
    }
}

/// Value of a digit prefix extended by one more digit.
proof fn lemma_digits_val_take_step(s: Seq<u8>, i: int)
    requires
        0 <= i < s.len(),
    ensures
        digits_val(s.take(i + 1)) == digits_val(s.take(i)) * 10 + digit_val(s[i]),
{
    assert(s.take(i + 1).drop_last() =~= s.take(i));
    assert(s.take(i + 1).last() == s[i]);
}

/// Parses the digits of `s` into a `u64`, or reports why it cannot: a
/// non-digit byte, an empty string, or a value past `u64::MAX`.
fn parse_digits(s: &[u8]) -> (r: Option<u64>)
    ensures
        r is Some <==> s@.len() > 0 && all_digits(s@) && digits_val(s@) <= u64::MAX,
        r matches Some(v) ==> v == digits_val(s@),
{
    if s.len() == 0 {
        return None;
    }
    let mut val: u64 = 0;
    let mut i: usize = 0;
    while i < s.len()
        invariant
            0 <= i <= s@.len(),
            all_digits(s@.take(i as int)),
            val == digits_val(s@.take(i as int)),
        decreases s@.len() - i,
    {
        let b: u8 = s[i];
        if b < 0x30 || b > 0x39 {
            assert(!is_digit(s@[i as int]));
            return None;
        }
        let d: u64 = (b - 0x30) as u64;
        proof {
            lemma_digits_val_take_step(s@, i as int);
        }
        let scaled: u64 = match val.checked_mul(10) {
            Some(x) => x,
            None => {
                proof {
                    overflow_means_too_big(s@, i as int);
                }
                return None;
            },
        };
        val = match scaled.checked_add(d) {
            Some(x) => x,
            None => {
                proof {
                    overflow_means_too_big(s@, i as int);
                }
                return None;
            },
        };
        i = i + 1;
    }
    assert(s@.take(i as int) =~= s@);
    Some(val)
}

/// When the running value exceeds `u64::MAX` at digit `i`, the whole digit
/// string cannot fit either.
proof fn overflow_means_too_big(s: Seq<u8>, i: int)
    requires
        0 <= i < s.len(),
        is_digit(s[i]),
        digits_val(s.take(i + 1)) > u64::MAX,
    ensures
        all_digits(s) ==> digits_val(s) > u64::MAX,
{
    if all_digits(s) {
        lemma_digits_val_take_grows(s, i + 1, s.len() as int);
        assert(s.take(s.len() as int) =~= s);
    }
}

/// Index of the first `.` in `s`, if any.
fn find_point(s: &[u8]) -> (r: Option<usize>)
    ensures
        r matches Some(k) ==> k < s@.len() && s@.index_of_first(0x2eu8) == Some(k as int),
        r is None ==> s@.index_of_first(0x2eu8) is None,
{
    let mut i: usize = 0;
    while i < s.len()
        invariant
            0 <= i <= s@.len(),
            forall|j: int| 0 <= j < i ==> s@[j] != 0x2eu8,
        decreases s@.len() - i,
    {
        if s[i] == 0x2e {
            proof {
                s@.index_of_first_ensures(0x2eu8);
                assert(s@.contains(0x2eu8));
            }
            return Some(i);
        }
        i = i + 1;
    }
    proof {
        s@.index_of_first_ensures(0x2eu8);
        assert(!s@.contains(0x2eu8)) by {
            if s@.contains(0x2eu8) {
                let k = choose|k: int| 0 <= k < s@.len() && s@[k] == 0x2eu8;
                assert(s@[k] != 0x2eu8);
            }
        }
    }
    None
}

/// Checks that every byte of `s` is an ASCII digit.
fn check_all_digits(s: &[u8]) -> (r: bool)
    ensures
        r == all_digits(s@),
{
    let mut i: usize = 0;
    while i < s.len()
        invariant
            0 <= i <= s@.len(),
            all_digits(s@.take(i as int)),
        decreases s@.len() - i,
    {
        let b: u8 = s[i];
        if b < 0x30 || b > 0x39 {
            assert(!is_digit(s@[i as int]));
            return false;
        }
        assert(s@.take(i + 1 as int).drop_last() =~= s@.take(i as int));
        i = i + 1;
    }
    assert(s@.take(i as int) =~= s@);
    true
}

/// Truncated milli contribution of fractional digit text.
fn frac_part_milli(fp: &[u8]) -> (r: u64)
    requires
        all_digits(fp@),
    ensures
        r == frac_milli(fp@),
        r < 1000,
{
    let mut r: u64 = 0;
    if fp.len() >= 1 {
        r = r + ((fp[0] - 0x30) as u64) * 100;
    }
    if fp.len() >= 2 {
        r = r + ((fp[1] - 0x30) as u64) * 10;
    }
    if fp.len() >= 3 {
        r = r + ((fp[2] - 0x30) as u64);
    }
    r
}

/// Parses non-negative decimal number text into milli-units, truncating past
/// the third fractional digit. Returns `None` exactly when the text is not a
/// plain decimal or its value does not fit.
pub fn parse_milli(text: &[u8]) -> (r: Option<u64>)
    ensures
        r is Some <==> is_plain_decimal(text@) && decimal_milli_val(text@) <= u64::MAX,
        r matches Some(v) ==> v == decimal_milli_val(text@),
{
    let (ip, fp): (&[u8], &[u8]) = match find_point(text) {
        Some(k) => {
            let n: usize = text.len();
            let ip = slice_subrange(text, 0, k);
            let fp = slice_subrange(text, k + 1, n);
            if fp.len() == 0 {
                return None;
            }
            (ip, fp)
        },
        None => (text, slice_subrange(text, text.len(), text.len())),
    };
    proof {
        assert(ip@ =~= spec_split_decimal(text@).0);
        assert(fp@ =~= spec_split_decimal(text@).1);
    }
    let int_val: u64 = match parse_digits(ip) {
        Some(v) => v,
        None => {
            proof {
                if all_digits(ip@) && ip@.len() > 0 {
                    // the digits alone exceed u64::MAX, so the milli value does too
                    lemma_digits_val_nonneg(ip@);
                    if all_digits(fp@) {
                        assert(frac_milli(fp@) >= 0);
                    }
                }
            }
            return None;
        },
    };
    if !check_all_digits(fp) {
        return None;
    }
    let frac: u64 = frac_part_milli(fp);
    let scaled: u64 = match int_val.checked_mul(MILLIS_PER_UNIT) {
        Some(x) => x,
        None => {
            assert(decimal_milli_val(text@) > u64::MAX);
            return None;
        },
    };
    match scaled.checked_add(frac) {
        Some(total) => Some(total),
        None => {
            assert(decimal_milli_val(text@) > u64::MAX);
            None
        },
    }
}

/// The character of a decimal digit.
pub open spec fn digit_char(d: int) -> char {
    if d == 0 {
        '0'
    } else if d == 1 {
        '1'
    } else if d == 2 {
        '2'
    } else if d == 3 {
        '3'
    } else if d == 4 {
        '4'
    } else if d == 5 {
        '5'
    } else if d == 6 {
        '6'
    } else if d == 7 {
        '7'
    } else if d == 8 {
        '8'
    } else {
        '9'
    }
}

/// Decimal text of a non-negative whole number, most significant digit
/// first.
pub open spec fn whole_text(n: int) -> Seq<char>
    decreases n,
{
    if n < 10 {
        seq![digit_char(n)]
    } else {
        whole_text(n / 10).push(digit_char(n % 10))
    }
}

/// Display form of a milli-unit value: the whole part, then — only when
/// they are not all zero — a point and the three fractional digits.
pub open spec fn milli_text(x: u64) -> Seq<char> {
    let whole = x as int / 1000;
    let frac = x as int % 1000;
    if frac > 0 {
        whole_text(whole) + seq![
            '.',
            digit_char(frac / 100),
            digit_char((frac / 10) % 10),
            digit_char(frac % 10),
        ]
    } else {
        whole_text(whole)
    }
}

/// The one-character text of a decimal digit.
fn digit_str(d: u64) -> (r: &'static str)
    requires
        d < 10,
    ensures
        r@ == seq![digit_char(d as int)],
{
    if d == 0 {
        proof {
            reveal_strlit("0");
        }
        "0"
    } else if d == 1 {
        proof {
            reveal_strlit("1");
        }
        "1"
    } else if d == 2 {
        proof {
            reveal_strlit("2");
        }
        "2"
    } else if d == 3 {
        proof {
            reveal_strlit("3");
        }
        "3"
    } else if d == 4 {
        proof {
            reveal_strlit("4");
        }
        "4"
    } else if d == 5 {
        proof {
            reveal_strlit("5");
        }
        "5"
    } else if d == 6 {
        proof {
            reveal_strlit("6");
        }
        "6"
    } else if d == 7 {
        proof {
            reveal_strlit("7");
        }
        "7"
    } else if d == 8 {
        proof {
            reveal_strlit("8");
        }
        "8"
    } else {
        proof {
            reveal_strlit("9");
        }
        "9"
    }
}

/// Appends the decimal text of `n`, most significant digit first.
fn push_whole_digits(out: &mut String, n: u64)
    ensures
        final(out)@ == old(out)@ + whole_text(n as int),
    decreases n,
{
    if n >= 10 {
        push_whole_digits(out, n / 10);
        out.append(digit_str(n % 10));
        proof {
            assert(out@ =~= old(out)@ + whole_text(n as int));
        }
    } else {
        out.append(digit_str(n));
        proof {
            assert(out@ =~= old(out)@ + whole_text(n as int));
        }
    }
}

/// Renders a milli-unit value as decimal text: the whole part, and the
/// three fractional digits when they are not all zero.
pub fn milli_to_text(x: u64) -> (r: String)
    ensures
        r@ == milli_text(x),
{
    let whole: u64 = x / MILLIS_PER_UNIT;
    let frac: u64 = x % MILLIS_PER_UNIT;
    let mut out = String::new();
    push_whole_digits(&mut out, whole);
    if frac > 0 {
        proof {
            reveal_strlit(".");
        }
        out.append(".");
        out.append(digit_str(frac / 100));
        out.append(digit_str((frac / 10) % 10));
        out.append(digit_str(frac % 10));
        proof {
            assert(out@ =~= milli_text(x));
        }
    } else {
        proof {
            assert(out@ =~= milli_text(x));
        }
    }
    out
}

} // verus!
