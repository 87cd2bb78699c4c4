//! Decimal rendering and parsing of integers, specified down to the
//! character: every number that appears in a wire record or in a rendered
//! query goes through these.

use vstd::prelude::*;
use vstd::string::StrSliceExecFns;
use vstd::string::StringExecFns;

verus! {

/// The character for one decimal digit value.
pub open spec fn spec_digit_char(d: int) -> char {
    if d == 0 {
        '0'
    } else if d == 1 {
        '1'
    } else if d == 2 {
        '2'
    } else if d == 3 {
        '3'
    } else if d == 4 {
        '4'
    } else if d == 5 {
        '5'
    } else if d == 6 {
        '6'
    } else if d == 7 {
        '7'
    } else if d == 8 {
        '8'
    } else {
        '9'
    }
}

/// Decimal digits of a nonnegative integer, most significant first.
pub open spec fn spec_nat_digits(n: int) -> Seq<char>
    decreases n,
{
    if n < 10 {
        Seq::empty().push(spec_digit_char(n))
    } else {
        spec_nat_digits(n / 10).push(spec_digit_char(n % 10))
    }
}

/// Decimal rendering of an integer, with a leading '-' when negative.
pub open spec fn spec_int_str(n: int) -> Seq<char> {
    if n < 0 {
        seq!['-'] + spec_nat_digits(-n)
    } else {
        spec_nat_digits(n)
    }
}

fn digit_to_char(d: u64) -> (c: char)
    requires
        d < 10,
    ensures
        c == spec_digit_char(d as int),
{
    match d {
        0 => '0',
        1 => '1',
        2 => '2',
        3 => '3',
        4 => '4',
        5 => '5',
        6 => '6',
        7 => '7',
        8 => '8',
        _ => '9',
    }
}

/// Renders an unsigned integer in decimal.
pub fn u64_to_string(n: u64) -> (s: String)
    ensures
        s@ == spec_nat_digits(n as int),
    decreases n,
{
    if n < 10 {
        let mut s = String::new();
        push_digit(&mut s, n);
        s
    } else {
        let mut s = u64_to_string(n / 10);
        push_digit(&mut s, n % 10);
        s
    }
}

fn push_digit(s: &mut String, d: u64)
    requires
        d < 10,
    ensures
        final(s)@ == old(s)@.push(spec_digit_char(d as int)),
{
    let c = digit_to_char(d);
    crate::text::push_char(s, c);
}

/// Renders a signed integer in decimal.
pub fn i64_to_string(n: i64) -> (s: String)
    ensures
        s@ == spec_int_str(n as int),
{
    if n >= 0 {
        u64_to_string(n as u64)
    } else {
        let mag: u64 = if n == i64::MIN {
            9223372036854775808u64
        } else {
            (-n) as u64
        };
        assert(mag as int == -(n as int));
        let mut s = String::new();
        crate::text::push_char(&mut s, '-');
        let digits = u64_to_string(mag);
        s.append(digits.as_str());
        proof {
            assert(s@ =~= seq!['-'] + spec_nat_digits(-(n as int)));
        }
        s
    }
}

proof fn lemma_nat_digits_nonempty(n: int)
    ensures
        spec_nat_digits(n).len() >= 1,
    decreases n,
{
    if n >= 10 {
        lemma_nat_digits_nonempty(n / 10);
    }
}

/// A rendered integer always has at least one character.
pub proof fn lemma_int_str_nonempty(n: int)
    ensures
        spec_int_str(n).len() >= 1,
{
    if n < 0 {
        lemma_nat_digits_nonempty(-n);
    } else {
        lemma_nat_digits_nonempty(n);
    }
}

/// A decimal digit.
pub open spec fn spec_is_digit(c: char) -> bool {
    '0' <= c && c <= '9'
}

/// The value of a decimal digit character.
pub open spec fn spec_digit_val(c: char) -> int {
    c as int - '0' as int
}

/// Every character of `s` is a decimal digit.
pub open spec fn spec_all_digits(s: Seq<char>) -> bool {
    forall|i: int| 0 <= i < s.len() ==> spec_is_digit(s[i])
}

/// The numeric value of a string of decimal digits.
pub open spec fn spec_digits_val(s: Seq<char>) -> int
    decreases s.len(),
{
    if s.len() == 0 {
        0
    } else {
        spec_digits_val(s.drop_last()) * 10 + spec_digit_val(s.last())
    }
}

/// What str::parse::<i64> accepts: an optional sign followed by at least one
/// digit, with the value in range; and the value it returns.
pub open spec fn spec_parse_i64(s: Seq<char>) -> Option<i64> {
    if s.len() > 0 && (s[0] == '+' || s[0] == '-') {
        spec_parse_signed(s[0] == '-', s.skip(1))
    } else {
        spec_parse_signed(false, s)
    }
}

pub open spec fn spec_parse_signed(neg: bool, digits: Seq<char>) -> Option<i64> {
    if digits.len() == 0 || !spec_all_digits(digits) {
        None
    } else {
        let v = if neg {
            -spec_digits_val(digits)
        } else {
            spec_digits_val(digits)
        };
        if i64::MIN <= v <= i64::MAX {
            Some(v as i64)
        } else {
            None
        }
    }
}

/// What str::parse::<i32> accepts and returns; the same grammar with the
/// narrower range.
pub open spec fn spec_parse_i32(s: Seq<char>) -> Option<i32> {
    match spec_parse_i64(s) {
        Some(v) => if i32::MIN <= v <= i32::MAX {
            Some(v as i32)
        } else {
            None
        },
        None => None,
    }
}

proof fn lemma_digits_val_nonneg(s: Seq<char>)
    requires
        spec_all_digits(s),
    ensures
        spec_digits_val(s) >= 0,
    decreases s.len(),
{
    if s.len() > 0 {
        assert(spec_all_digits(s.drop_last()));
        lemma_digits_val_nonneg(s.drop_last());
    }
}

/// The value of a digit string is at least the value of any of its prefixes.
proof fn lemma_digits_val_prefix_le(s: Seq<char>, i: int)
    requires
        spec_all_digits(s),
        0 <= i <= s.len(),
    ensures
        spec_digits_val(s.take(i)) <= spec_digits_val(s),
    decreases s.len() - i,
{
    if i < s.len() {
        let t = s.take(i + 1);
        assert(t.drop_last() =~= s.take(i));
        assert(spec_all_digits(t)) by {
            assert(forall|j: int| 0 <= j < t.len() ==> t[j] == s[j]);
        }
        assert(spec_digits_val(t) == spec_digits_val(s.take(i)) * 10 + spec_digit_val(s[i]));
        assert(spec_all_digits(s.take(i))) by {
            assert(forall|j: int| 0 <= j < i ==> s.take(i)[j] == s[j]);
        }
        lemma_digits_val_nonneg(s.take(i));
        assert(spec_digits_val(s.take(i)) <= spec_digits_val(t));
        lemma_digits_val_prefix_le(s, i + 1);
        assert(s.take(s.len() as int) =~= s);
    } else {
        assert(s.take(i) =~= s);
    }
}

/// Parses a signed 64-bit integer exactly as str::parse::<i64> does.
pub fn parse_i64(s: &str) -> (r: Option<i64>)
    ensures
        r == spec_parse_i64(s@),
{
    let len = s.unicode_len();
    if len == 0 {
        return None;
    }
    let first = s.get_char(0);
    let neg = first == '-';
    let has_sign = neg || first == '+';
    let start: usize = if has_sign {
        1
    } else {
        0
    };
    let ghost digits = if has_sign {
        s@.skip(1)
    } else {
        s@
    };
    proof {
        if !has_sign {
            assert(s@.skip(0) =~= s@);
        }
    }
    if start == len {
        return None;
    }
    let limit: u64 = if neg {
        9223372036854775808u64
    } else {
        9223372036854775807u64
    };
    let mut acc: u64 = 0;
    let mut i: usize = start;
    while i < len
        invariant
            len == s@.len(),
            start <= i <= len,
            start < len,
            start == 0 || start == 1,
            start == 1 <==> has_sign,
            has_sign == (s@[0] == '+' || s@[0] == '-'),
            neg == (s@[0] == '-'),
            digits == s@.skip(start as int),
            has_sign ==> digits == s@.skip(1),
            !has_sign ==> digits == s@,
            digits.len() == len - start,
            neg ==> has_sign,
            limit == (if neg {
                9223372036854775808u64
            } else {
                9223372036854775807u64
            }),
            spec_all_digits(digits.take(i - start)),
            acc == spec_digits_val(digits.take(i - start)),
            acc <= limit,
        decreases len - i,
    {
        let c = s.get_char(i);
        proof {
            assert(digits[i - start] == s@[i as int]);
        }
        if !(c >= '0' && c <= '9') {
            proof {
                assert(!spec_is_digit(digits[i - start]));
                assert(!spec_all_digits(digits));
                assert(spec_parse_signed(neg, digits) is None);
                assert(spec_parse_i64(s@) == spec_parse_signed(neg, digits));
            }
            return None;
        }
        let d: u64 = (c as u32 as u64) - 48;
        assert(d == spec_digit_val(digits[i - start]) && d < 10);
        let ghost pre = digits.take(i - start);
        let ghost cur = digits.take(i + 1 - start);
        proof {
            assert(cur.drop_last() =~= pre);
            assert(cur.last() == digits[i - start]);
            assert(spec_all_digits(cur));
            assert(spec_digits_val(cur) == acc * 10 + d);
        }
        if acc > (limit - d) / 10 {
            // The value through this digit already exceeds the range, and
            // appending digits can only grow it.
            proof {
                assert(acc * 10 + d > limit) by {
                    assert(acc >= (limit - d) / 10 + 1);
                    assert(((limit - d) / 10 + 1) * 10 == ((limit - d) / 10) * 10 + 10);
                    assert(((limit - d) / 10) * 10 + 10 > limit - d) by {
                        vstd::arithmetic::div_mod::lemma_fundamental_div_mod(
                            limit as int - d,
                            10int,
                        );
                    }
                }
                if spec_all_digits(digits) {
                    assert(digits.take(i + 1 - start) == cur);
                    lemma_digits_val_prefix_le(digits, i + 1 - start);
                    assert(spec_digits_val(digits) >= spec_digits_val(cur) > limit);
                    assert(spec_parse_signed(neg, digits) is None);
                } else {
                    assert(spec_parse_signed(neg, digits) is None);
                }
                assert(spec_parse_i64(s@) == spec_parse_signed(neg, digits));
            }
            return None;
        }
        proof {
            assert(acc * 10 + d <= limit) by {
                assert(acc <= (limit - d) / 10);
                vstd::arithmetic::div_mod::lemma_fundamental_div_mod(limit as int - d, 10int);
                assert((limit - d) / 10 * 10 <= limit - d);
                assert(acc * 10 <= (limit - d) / 10 * 10) by (nonlinear_arith)
                    requires
                        acc <= (limit - d) / 10,
                ;
            }
        }
        acc = acc * 10 + d;
        i += 1;
    }
    proof {
        assert(digits.take(len - start) =~= digits);
    }
    if neg {
        if acc == 9223372036854775808u64 {
            Some(i64::MIN)
        } else {
            Some(-(acc as i64))
        }
    } else {
        Some(acc as i64)
    }
}

/// Parses a signed 32-bit integer exactly as str::parse::<i32> does.
pub fn parse_i32(s: &str) -> (r: Option<i32>)
    ensures
        r == spec_parse_i32(s@),
{
    match parse_i64(s) {
        Some(v) => if i32::MIN as i64 <= v && v <= i32::MAX as i64 {
            Some(v as i32)
        } else {
            None
        },
        None => None,
    }
}

} // verus!
