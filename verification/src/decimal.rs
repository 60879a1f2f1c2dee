//! Decimal text of integers: writing, zero padding and parsing, with the
//! round-trip law between the two directions.
use vstd::prelude::*;

use crate::text::push_char;

verus! {

/// The character of a decimal digit `d` (0 to 9).
pub open spec fn digit_char(d: int) -> char {
    (48 + d) as char
}

pub open spec fn is_digit(c: char) -> bool {
    '0' <= c && c <= '9'
}

pub open spec fn digit_value(c: char) -> int {
    (c as int) - 48
}

/// Decimal digits of a natural number, most significant first, without leading zeros.
pub open spec fn nat_digits(n: nat) -> Seq<char>
    decreases n,
{
    if n < 10 {
        seq![digit_char(n as int)]
    } else {
        nat_digits(n / 10).push(digit_char((n % 10) as int))
    }
}

/// Decimal text of an integer: a `-` before the digits of a negative number.
pub open spec fn int_decimal(n: int) -> Seq<char> {
    if n < 0 {
        seq!['-'] + nat_digits((-n) as nat)
    } else {
        nat_digits(n as nat)
    }
}

/// `n` zero characters.
pub open spec fn zeros(n: int) -> Seq<char> {
    Seq::new(if n > 0 { n as nat } else { 0nat }, |i: int| '0')
}

/// Decimal text of `n` padded with zeros up to `width` characters, the sign first
/// (what `{:0width$}` writes).
pub open spec fn zero_padded(n: int, width: int) -> Seq<char> {
    if n < 0 {
        seq!['-'] + zeros(width - 1 - nat_digits((-n) as nat).len()) + nat_digits((-n) as nat)
    } else {
        zeros(width - nat_digits(n as nat).len()) + nat_digits(n as nat)
    }
}

pub open spec fn all_digits(s: Seq<char>) -> bool {
    forall|i: int| 0 <= i < s.len() ==> is_digit(#[trigger] s[i])
}

/// The number that a string of decimal digits denotes.
pub open spec fn digits_value(s: Seq<char>) -> int
    decreases s.len(),
{
    if s.len() == 0 {
        0
    } else {
        digits_value(s.drop_last()) * 10 + digit_value(s.last())
    }
}

/// The integer a decimal text denotes, as integer parsing reads it: an optional
/// `+` or `-`, then one or more ASCII digits and nothing else.
pub open spec fn parse_integer(s: Seq<char>) -> Option<int> {
    if s.len() > 0 && (s[0] == '+' || s[0] == '-') {
        let rest = s.drop_first();
        if rest.len() > 0 && all_digits(rest) {
            if s[0] == '-' {
                Some(-digits_value(rest))
            } else {
                Some(digits_value(rest))
            }
        } else {
            None
        }
    } else if s.len() > 0 && all_digits(s) {
        Some(digits_value(s))
    } else {
        None
    }
}

/// What parsing the text as an `i64` gives: the integer where it is in range.
pub open spec fn parse_i64_spec(s: Seq<char>) -> Option<i64> {
    match parse_integer(s) {
        Some(v) => if i64::MIN <= v <= i64::MAX {
            Some(v as i64)
        } else {
            None
        },
        None => None,
    }
}

/// What parsing the text as an `i32` gives: the integer where it is in range.
pub open spec fn parse_i32_spec(s: Seq<char>) -> Option<i32> {
    match parse_integer(s) {
        Some(v) => if i32::MIN <= v <= i32::MAX {
            Some(v as i32)
        } else {
            None
        },
        None => None,
    }
}

pub proof fn lemma_nat_digits_shape(n: nat)
    ensures
        nat_digits(n).len() >= 1,
        all_digits(nat_digits(n)),
        digits_value(nat_digits(n)) == n,
    decreases n,
{
    if n >= 10 {
        lemma_nat_digits_shape(n / 10);
        let s = nat_digits(n);
        assert(s.drop_last() =~= nat_digits(n / 10));
        assert(digit_value(digit_char((n % 10) as int)) == n % 10);
        assert(s.last() == digit_char((n % 10) as int));
        assert(digits_value(s) == digits_value(s.drop_last()) * 10 + digit_value(s.last()));
        assert((n / 10) * 10 + n % 10 == n);
    } else {
        assert(digit_value(digit_char(n as int)) == n);
        let s = nat_digits(n);
        assert(digits_value(s.drop_last()) == 0);
        assert(digits_value(s) == digits_value(s.drop_last()) * 10 + digit_value(s.last()));
        assert(nat_digits(n).drop_last() =~= Seq::<char>::empty());
    }
}

proof fn lemma_digits_value_nonneg(s: Seq<char>)
    requires
        all_digits(s),
    ensures
        digits_value(s) >= 0,
    decreases s.len(),
{
    if s.len() > 0 {
        lemma_digits_value_nonneg(s.drop_last());
    }
}

/// A longer run of digits is worth at least as much as its prefix.
proof fn lemma_digits_value_prefix(s: Seq<char>, k: int)
    requires
        all_digits(s),
        0 <= k <= s.len(),
    ensures
        digits_value(s.take(k)) <= digits_value(s),
    decreases s.len() - k,
{
    if k < s.len() {
        lemma_digits_value_prefix(s, k + 1);
        let t = s.take(k + 1);
        assert(t.drop_last() =~= s.take(k));
        lemma_digits_value_nonneg(s.take(k));
        assert(is_digit(s[k]));
    } else {
        assert(s.take(k) =~= s);
    }
}

/// Parsing the decimal text of an integer gives that integer back.
pub proof fn lemma_parse_decimal_roundtrip(n: int)
    ensures
        parse_integer(int_decimal(n)) == Some(n),
{
    if n < 0 {
        let d = nat_digits((-n) as nat);
        lemma_nat_digits_shape((-n) as nat);
        let s = int_decimal(n);
        assert(s.drop_first() =~= d);
        assert(s[0] == '-');
    } else {
        lemma_nat_digits_shape(n as nat);
        let s = int_decimal(n);
        assert(is_digit(s[0]));
    }
}

/// Parsing what `i64_to_decimal` writes gives the number back.
pub proof fn law_i64_decimal_roundtrip(n: i64)
    ensures
        parse_i64_spec(int_decimal(n as int)) == Some(n),
{
    lemma_parse_decimal_roundtrip(n as int);
}

fn digit_to_char(d: u64) -> (c: char)
    requires
        d < 10,
    ensures
        c == digit_char(d as int),
{
    let b: u8 = 48u8 + (d as u8);
    b as char
}

fn write_nat_digits(n: u64, s: &mut String)
    ensures
        final(s)@ == old(s)@ + nat_digits(n as nat),
    decreases n,
{
    if n >= 10 {
        write_nat_digits(n / 10, s);
        push_char(s, digit_to_char(n % 10));
        assert(nat_digits(n as nat) == nat_digits((n / 10) as nat).push(digit_char((n % 10) as int)));
    } else {
        push_char(s, digit_to_char(n));
    }
}

/// Decimal text of an unsigned integer.
pub fn u64_to_decimal(n: u64) -> (r: String)
    ensures
        r@ == int_decimal(n as int),
{
    let mut s = String::new();
    write_nat_digits(n, &mut s);
    assert(s@ =~= nat_digits(n as nat));
    s
}

fn magnitude(n: i64) -> (m: u64)
    ensures
        m as int == if n < 0 { -(n as int) } else { n as int },
{
    if n < 0 {
        if n == i64::MIN {
            9223372036854775808u64
        } else {
            (-n) as u64
        }
    } else {
        n as u64
    }
}

/// Decimal text of a signed integer.
pub fn i64_to_decimal(n: i64) -> (r: String)
    ensures
        r@ == int_decimal(n as int),
{
    let mut s = String::new();
    if n < 0 {
        push_char(&mut s, '-');
    }
    write_nat_digits(magnitude(n), &mut s);
    if n < 0 {
        assert(s@ =~= seq!['-'] + nat_digits((-n) as nat));
    } else {
        assert(s@ =~= nat_digits(n as nat));
    }
    s
}

/// Decimal text of an `i32`.
pub fn i32_to_decimal(n: i32) -> (r: String)
    ensures
        r@ == int_decimal(n as int),
{
    i64_to_decimal(n as i64)
}

fn push_zeros(s: &mut String, count: i128)
    ensures
        final(s)@ == old(s)@ + zeros(count as int),
{
    let mut i: i128 = 0;
    let ghost start = s@;
    while i < count
        invariant
            0 <= i,
            count > 0 ==> i <= count,
            count <= 0 ==> i == 0,
            s@ == start + zeros(i as int),
        decreases count - i,
    {
        push_char(s, '0');
        i += 1;
        assert(s@ =~= start + zeros(i as int));
    }
    assert(s@ =~= start + zeros(count as int));
}

/// Decimal text of `n` padded with zeros to `width` characters (the sign counts).
pub fn zero_padded_decimal(n: i64, width: usize) -> (r: String)
    ensures
        r@ == zero_padded(n as int, width as int),
{
    let digits = u64_to_decimal(magnitude(n));
    let len = digits.unicode_len();
    let mut s = String::new();
    if n < 0 {
        push_char(&mut s, '-');
        push_zeros(&mut s, width as i128 - 1 - len as i128);
    } else {
        push_zeros(&mut s, width as i128 - len as i128);
    }
    s.append(digits.as_str());
    proof {
        if n < 0 {
            assert(s@ =~= zero_padded(n as int, width as int));
        } else {
            assert(s@ =~= zero_padded(n as int, width as int));
        }
    }
    s
}

/// Parses decimal text as an `i64`: an optional sign, then ASCII digits only.
/// `None` for empty text, a stray character or a value out of range.
pub fn parse_i64(s: &str) -> (r: Option<i64>)
    ensures
        r == parse_i64_spec(s@),
{
    let n = s.unicode_len();
    if n == 0 {
        return None;
    }
    let c0 = s.get_char(0);
    let negative = c0 == '-';
    let start: usize = if c0 == '+' || c0 == '-' {
        1
    } else {
        0
    };
    if start == n {
        return None;
    }
    let ghost rest = s@.subrange(start as int, n as int);
    proof {
        if start == 1 {
            assert(rest =~= s@.drop_first());
        } else {
            assert(rest =~= s@);
        }
    }
    let mut mag: u64 = 0;
    let mut i: usize = start;
    while i < n
        invariant
            n == s@.len(),
            start <= i <= n,
            start <= 1,
            rest == s@.subrange(start as int, n as int),
            all_digits(rest.take(i - start)),
            mag as int == digits_value(rest.take(i - start)),
            mag <= 9223372036854775808u64,
            parse_integer(s@) == (if rest.len() > 0 && all_digits(rest) {
                if negative {
                    Some(-digits_value(rest))
                } else {
                    Some(digits_value(rest))
                }
            } else {
                None::<int>
            }),
        decreases n - i,
    {
        let c = s.get_char(i);
        assert(rest[i - start] == c);
        if !('0' <= c && c <= '9') {
            assert(!all_digits(rest));
            return None;
        }
        let d: u64 = (c as u32 - 48u32) as u64;
        let ghost pre = rest.take(i - start);
        let ghost next = rest.take(i + 1 - start);
        assert(next.drop_last() =~= pre);
        assert(next.last() == c);
        if mag > (9223372036854775808u64 - d) / 10 {
            proof {
                assert(digits_value(next) == digits_value(pre) * 10 + d);
                assert(digits_value(next) > 9223372036854775808);
                if all_digits(rest) {
                    lemma_digits_value_prefix(rest, i + 1 - start);
                }
            }
            return None;
        }
        mag = mag * 10 + d;
        i += 1;
        assert(all_digits(next));
    }
    assert(rest.take(n - start) =~= rest);
    if negative {
        if mag == 9223372036854775808u64 {
            Some(i64::MIN)
        } else {
            Some(-(mag as i64))
        }
    } else {
        if mag > 9223372036854775807u64 {
            None
        } else {
            Some(mag as i64)
        }
    }
}

/// The message of the error that std's integer parsing (`ParseIntError`'s `Display`)
/// gives for a text it refuses, such as "invalid digit found in string".
pub uninterp spec fn int_parse_error_text(s: Seq<char>) -> Seq<char>;

/// Parses the text with std's `str::parse::<i64>`, handing back the refusal as its
/// message. Trusted: the documentation of `FromStr` for integers accepts an optional
/// `+` or `-` followed by ASCII digits, in range, which is `parse_i64_spec`; the message
/// is named `int_parse_error_text` of the text, since the error depends on it alone.
#[verifier::external_body]
pub(crate) fn parse_i64_reporting(s: &str) -> (r: Result<i64, String>)
    ensures
        r matches Ok(v) ==> parse_i64_spec(s@) == Some(v),
        r is Err ==> parse_i64_spec(s@) is None,
        r matches Err(m) ==> m@ == int_parse_error_text(s@),
{
    match s.parse::<i64>() {
        Ok(v) => Ok(v),
        Err(e) => Err(e.to_string()),
    }
}

/// Parses decimal text as an `i32`, with the same rules as `parse_i64`.
pub fn parse_i32(s: &str) -> (r: Option<i32>)
    ensures
        r == parse_i32_spec(s@),
{
    match parse_i64(s) {
        Some(v) => if i32::MIN as i64 <= v && v <= i32::MAX as i64 {
            Some(v as i32)
        } else {
            None
        },
        None => {
            proof {
                if let Some(v) = parse_integer(s@) {
                    assert(!(i64::MIN <= v <= i64::MAX));
                }
            }
            None
        },
    }
}

} // verus!
