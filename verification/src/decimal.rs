//! Whole numbers as decimal text, and back.

use vstd::prelude::*;

verus! {

/// The character of one decimal digit.
pub open spec fn spec_digit_char(d: nat) -> char
    recommends
        d < 10,
{
    (('0' as nat) + d) as char
}

/// Whether `c` is a decimal digit.
pub open spec fn spec_is_digit(c: char) -> bool {
    '0' <= c && c <= '9'
}

/// The number that a decimal digit stands for.
pub open spec fn spec_digit_value(c: char) -> nat
    recommends
        spec_is_digit(c),
{
    ((c as nat) - ('0' as nat)) as nat
}

/// The decimal digits of `n`, without leading zeros.
pub open spec fn spec_decimal(n: nat) -> Seq<char>
    decreases n,
{
    if n < 10 {
        seq![spec_digit_char(n)]
    } else {
        spec_decimal(n / 10).push(spec_digit_char(n % 10))
    }
}

/// The decimal text of a whole number, with `-` before a negative one.
pub open spec fn spec_signed_decimal(i: int) -> Seq<char> {
    if i < 0 {
        seq!['-'] + spec_decimal((-i) as nat)
    } else {
        spec_decimal(i as nat)
    }
}

/// The text of one decimal digit.
fn digit_str(d: u64) -> (text: &'static str)
    requires
        d < 10,
    ensures
        text@ == seq![spec_digit_char(d as nat)],
{
    proof {
        reveal_strlit("0");
        reveal_strlit("1");
        reveal_strlit("2");
        reveal_strlit("3");
        reveal_strlit("4");
        reveal_strlit("5");
        reveal_strlit("6");
        reveal_strlit("7");
        reveal_strlit("8");
        reveal_strlit("9");
    }
    let text: &'static str = if d == 0 {
        "0"
    } else if d == 1 {
        "1"
    } else if d == 2 {
        "2"
    } else if d == 3 {
        "3"
    } else if d == 4 {
        "4"
    } else if d == 5 {
        "5"
    } else if d == 6 {
        "6"
    } else if d == 7 {
        "7"
    } else if d == 8 {
        "8"
    } else {
        "9"
    };
    assert(text@ =~= seq![spec_digit_char(d as nat)]);
    text
}

/// Renders `n` in decimal.
pub fn unsigned_decimal(n: u64) -> (text: String)
    ensures
        text@ == spec_decimal(n as nat),
    decreases n,
{
    if n < 10 {
        String::from_str(digit_str(n))
    } else {
        let mut text: String = unsigned_decimal(n / 10);
        text.append(digit_str(n % 10));
        text
    }
}

/// Renders `i` in decimal, with `-` before a negative number.
pub fn signed_decimal(i: i64) -> (text: String)
    ensures
        text@ == spec_signed_decimal(i as int),
{
    if i < 0 {
        proof {
            reveal_strlit("-");
        }
        let magnitude: u64 = if i == i64::MIN {
            9_223_372_036_854_775_808u64
        } else {
            (-i) as u64
        };
        let digits: String = unsigned_decimal(magnitude);
        let mut text: String = String::from_str("-");
        text.append(digits.as_str());
        assert("-"@ =~= seq!['-']);
        text
    } else {
        unsigned_decimal(i as u64)
    }
}

/// Whether every character of `s` is a decimal digit.
pub open spec fn spec_all_digits(s: Seq<char>) -> bool {
    forall|i: int| 0 <= i < s.len() ==> spec_is_digit(#[trigger] s[i])
}

/// The number that a run of decimal digits stands for.
pub open spec fn spec_digits_value(s: Seq<char>) -> nat
    decreases s.len(),
{
    if s.len() == 0 {
        0
    } else {
        spec_digits_value(s.drop_last()) * 10 + spec_digit_value(s.last())
    }
}

/// The digits of a number's text: the text itself, without a leading `+`.
pub open spec fn spec_unsigned_digits(s: Seq<char>) -> Seq<char> {
    if s.len() > 0 && s[0] == '+' {
        s.drop_first()
    } else {
        s
    }
}

/// The number that `s` denotes as an unsigned 32-bit integer: one or more
/// decimal digits, with or without a `+` before them, whose value fits.
pub open spec fn spec_parse_u32(s: Seq<char>) -> Option<u32> {
    let digits = spec_unsigned_digits(s);
    if digits.len() > 0 && spec_all_digits(digits) && spec_digits_value(digits) <= u32::MAX {
        Some(spec_digits_value(digits) as u32)
    } else {
        None
    }
}

/// A run of digits stands for at least as much as any of its prefixes.
pub proof fn lemma_digits_value_prefix(s: Seq<char>, k: int)
    requires
        0 <= k <= s.len(),
    ensures
        spec_digits_value(s.subrange(0, k)) <= spec_digits_value(s),
    decreases s.len() - k,
{
    if k == s.len() {
        assert(s.subrange(0, k) =~= s);
    } else {
        lemma_digits_value_prefix(s.drop_last(), k);
        assert(s.drop_last().subrange(0, k) =~= s.subrange(0, k));
    }
}

/// The decimal text of a number is a non-empty run of digits that stands for
/// that number.
pub proof fn lemma_decimal_digits(n: nat)
    ensures
        spec_decimal(n).len() > 0,
        spec_all_digits(spec_decimal(n)),
        spec_digits_value(spec_decimal(n)) == n,
    decreases n,
{
    let text = spec_decimal(n);
    if n < 10 {
        assert(text.drop_last() =~= Seq::<char>::empty());
        assert(spec_digits_value(text.drop_last()) == 0);
    } else {
        lemma_decimal_digits(n / 10);
        let head = spec_decimal(n / 10);
        assert(text.drop_last() =~= head);
        assert(text.last() == spec_digit_char(n % 10));
        assert forall|i: int| 0 <= i < text.len() implies spec_is_digit(#[trigger] text[i]) by {
            if i < head.len() {
                assert(text[i] == head[i]);
            }
        }
    }
}

/// Two numbers with the same decimal text are the same number.
pub proof fn lemma_decimal_injective(a: nat, b: nat)
    requires
        spec_decimal(a) == spec_decimal(b),
    ensures
        a == b,
{
    lemma_decimal_digits(a);
    lemma_decimal_digits(b);
}

/// A run of digits ends where the first other character stands: two texts
/// that are equal, and that each begin with a run of digits followed by a
/// character that is no digit, have the same run of digits and the same
/// rest.
pub proof fn lemma_digits_end_at_other_character(
    digits1: Seq<char>,
    rest1: Seq<char>,
    digits2: Seq<char>,
    rest2: Seq<char>,
)
    requires
        spec_all_digits(digits1),
        spec_all_digits(digits2),
        rest1.len() > 0 && !spec_is_digit(rest1[0]),
        rest2.len() > 0 && !spec_is_digit(rest2[0]),
        digits1 + rest1 == digits2 + rest2,
    ensures
        digits1 == digits2,
        rest1 == rest2,
{
    let text = digits1 + rest1;
    let n1 = digits1.len() as int;
    let n2 = digits2.len() as int;
    if n1 < n2 {
        assert(text[n1] == rest1[0]);
        assert((digits2 + rest2)[n1] == digits2[n1]);
        assert(spec_is_digit(digits2[n1]));
    } else if n2 < n1 {
        assert((digits2 + rest2)[n2] == rest2[0]);
        assert(text[n2] == digits1[n2]);
        assert(spec_is_digit(digits1[n2]));
    }
    assert(digits1 =~= text.subrange(0, n1));
    assert(digits2 =~= (digits2 + rest2).subrange(0, n2));
    assert(rest1 =~= text.subrange(n1, text.len() as int));
    assert(rest2 =~= (digits2 + rest2).subrange(n2, text.len() as int));
}

/// Reading back the decimal text of an unsigned 32-bit integer gives the
/// integer.
pub proof fn lemma_parse_decimal_round_trip(n: u32)
    ensures
        spec_parse_u32(spec_decimal(n as nat)) == Some(n),
{
    lemma_decimal_digits(n as nat);
    let text = spec_decimal(n as nat);
    assert(spec_is_digit(text[0]));
    assert(spec_unsigned_digits(text) == text);
}

/// Reads an unsigned 32-bit integer from its decimal text.
pub fn parse_u32(text: &str) -> (number: Option<u32>)
    ensures
        number == spec_parse_u32(text@),
{
    let len: usize = text.unicode_len();
    if len == 0 {
        return None;
    }
    let start: usize = if text.get_char(0) == '+' {
        1
    } else {
        0
    };
    if start == len {
        return None;
    }
    let ghost digits = spec_unsigned_digits(text@);
    assert(digits =~= text@.subrange(start as int, len as int));
    let mut value: u64 = 0;
    let mut i: usize = start;
    while i < len
        invariant
            start <= i <= len,
            len == text@.len(),
            digits == text@.subrange(start as int, len as int),
            digits == spec_unsigned_digits(text@),
            spec_all_digits(digits.subrange(0, i - start)),
            value == spec_digits_value(digits.subrange(0, i - start)),
            value <= u32::MAX,
        decreases len - i,
    {
        let c: char = text.get_char(i);
        let ghost prefix = digits.subrange(0, i - start + 1);
        assert(prefix.drop_last() =~= digits.subrange(0, i - start));
        assert(prefix.last() == c);
        if !(c >= '0' && c <= '9') {
            assert(!spec_is_digit(digits[i - start]));
            return None;
        }
        let d: u64 = (c as u64) - ('0' as u64);
        value = value * 10 + d;
        assert(value == spec_digits_value(prefix));
        if value > 0xffff_ffff {
            proof {
                lemma_digits_value_prefix(digits, i - start + 1);
            }
            return None;
        }
        assert forall|j: int| 0 <= j < prefix.len() implies spec_is_digit(#[trigger] prefix[j]) by {
            if j < i - start {
                assert(prefix[j] == digits.subrange(0, i - start)[j]);
            }
        }
        i = i + 1;
    }
    assert(digits.subrange(0, i - start) =~= digits);
    Some(value as u32)
}

} // verus!
