//! Integers as decimal text, and decimal text as integers.

use vstd::prelude::*;

verus! {

/// The character that stands for the digit `d`.
pub open spec fn digit_char(d: int) -> char
    recommends
        0 <= d < 10,
{
    (d + 48) as char
}

/// Whether `c` is one of the ten decimal digits.
pub open spec fn is_digit(c: char) -> bool {
    48 <= c as int <= 57
}

/// The number that the digit `c` stands for.
pub open spec fn digit_value(c: char) -> nat
    recommends
        is_digit(c),
{
    (c as int - 48) as nat
}

/// The digits of `n`, most significant first, without leading zeros.
pub open spec fn nat_digits(n: nat) -> Seq<char>
    decreases n,
{
    if n < 10 {
        seq![digit_char(n as int)]
    } else {
        nat_digits(n / 10).push(digit_char((n % 10) as int))
    }
}

/// The decimal form of `n`: a minus sign if it is negative, then the digits
/// of its magnitude.
pub open spec fn decimal(n: int) -> Seq<char> {
    if n < 0 {
        seq!['-'] + nat_digits((-n) as nat)
    } else {
        nat_digits(n as nat)
    }
}

/// Whether `s` is made of decimal digits only.
pub open spec fn all_digits(s: Seq<char>) -> bool {
    forall|i: int| 0 <= i < s.len() ==> is_digit(#[trigger] s[i])
}

/// The number that the digits `s` spell, most significant first.
pub open spec fn digits_value(s: Seq<char>) -> nat
    decreases s.len(),
{
    if s.len() == 0 {
        0
    } else {
        digits_value(s.drop_last()) * 10 + digit_value(s.last())
    }
}

/// The integer that `s` spells: an optional sign, plus or minus, then one or
/// more digits, of which the first ones may be zeros. Any other text spells
/// none.
pub open spec fn parse_int(s: Seq<char>) -> Option<int> {
    if s.len() > 0 && (s[0] == '-' || s[0] == '+') {
        let digits = s.subrange(1, s.len() as int);
        if digits.len() > 0 && all_digits(digits) {
            if s[0] == '-' {
                Some(-(digits_value(digits) as int))
            } else {
                Some(digits_value(digits) as int)
            }
        } else {
            None
        }
    } else if s.len() > 0 && all_digits(s) {
        Some(digits_value(s) as int)
    } else {
        None
    }
}

/// The digits of a number are digits, there is at least one, and they spell
/// the number.
pub proof fn lemma_nat_digits(n: nat)
    ensures
        nat_digits(n).len() > 0,
        all_digits(nat_digits(n)),
        digits_value(nat_digits(n)) == n,
    decreases n,
{
    if n < 10 {
        let s = nat_digits(n);
        assert(s.drop_last() =~= Seq::<char>::empty());
        assert(digits_value(s.drop_last()) == 0);
    } else {
        lemma_nat_digits(n / 10);
        let s = nat_digits(n);
        let c = digit_char((n % 10) as int);
        assert(s.drop_last() =~= nat_digits(n / 10));
        assert(s.last() == c);
        assert(digit_value(c) == n % 10);
    }
}

/// Reading the decimal form of an integer gives the integer back.
pub proof fn lemma_parse_decimal(n: int)
    ensures
        parse_int(decimal(n)) == Some(n),
{
    if n < 0 {
        let m = (-n) as nat;
        lemma_nat_digits(m);
        let s = decimal(n);
        assert(s.subrange(1, s.len() as int) =~= nat_digits(m));
    } else {
        lemma_nat_digits(n as nat);
        let s = decimal(n);
        assert(is_digit(s[0]));
    }
}

/// Two integers with the same decimal form are the same integer.
pub proof fn lemma_decimal_injective(a: int, b: int)
    requires
        decimal(a) == decimal(b),
    ensures
        a == b,
{
    lemma_parse_decimal(a);
    lemma_parse_decimal(b);
}

/// The one-character string of the digit `d`.
fn digit_str(d: u8) -> (text: &'static str)
    requires
        d < 10,
    ensures
        text@ == seq![digit_char(d as int)],
{
    proof {
        reveal_strlit("0");
        reveal_strlit("1");
        reveal_strlit("2");
        reveal_strlit("3");
        reveal_strlit("4");
        reveal_strlit("5");
        reveal_strlit("6");
        reveal_strlit("7");
        reveal_strlit("8");
        reveal_strlit("9");
    }
    let text = match d {
        0 => "0",
        1 => "1",
        2 => "2",
        3 => "3",
        4 => "4",
        5 => "5",
        6 => "6",
        7 => "7",
        8 => "8",
        _ => "9",
    };
    assert(text@ =~= seq![digit_char(d as int)]);
    text
}

/// Appends the digits of `n` to `out`.
fn push_digits(out: &mut String, n: u128)
    ensures
        final(out)@ == old(out)@ + nat_digits(n as nat),
    decreases n,
{
    if n >= 10 {
        push_digits(out, n / 10);
    }
    out.append(digit_str((n % 10) as u8));
    assert(out@ =~= old(out)@ + nat_digits(n as nat));
}

/// 2 to the power 127: the magnitude of the least `i128`.
pub const MAGNITUDE_LIMIT: u128 = 170141183460469231731687303715884105728;

/// The decimal form of `n` as a string.
pub fn decimal_string(n: i128) -> (text: String)
    ensures
        text@ == decimal(n as int),
{
    if n < 0 {
        let magnitude: u128 = if n == i128::MIN {
            MAGNITUDE_LIMIT
        } else {
            (-n) as u128
        };
        let mut text = String::from_str("-");
        proof {
            reveal_strlit("-");
            assert("-"@ =~= seq!['-']);
        }
        push_digits(&mut text, magnitude);
        text
    } else {
        let mut text = String::new();
        push_digits(&mut text, n as u128);
        assert(text@ =~= decimal(n as int));
        text
    }
}

/// Appending a digit to digits multiplies what they spell by ten and adds the
/// digit, so the value never shrinks.
proof fn lemma_digits_value_push(s: Seq<char>, c: char)
    requires
        is_digit(c),
    ensures
        digits_value(s.push(c)) == digits_value(s) * 10 + digit_value(c),
        digits_value(s.push(c)) >= digits_value(s),
{
    assert(s.push(c).drop_last() =~= s);
}

/// Reads `text` as an integer between `min` and `max`. The result is the
/// integer that the text spells if it spells one in that range, and `None`
/// for any other text.
pub fn parse_decimal(text: &str, min: i128, max: i128) -> (value: Option<i128>)
    ensures
        value == match parse_int(text@) {
            Some(v) => if min <= v <= max {
                Some(v as i128)
            } else {
                None
            },
            None => None,
        },
{
    let len = text.unicode_len();
    if len == 0 {
        return None;
    }
    let first = text.get_char(0);
    let negative = first == '-';
    let signed = negative || first == '+';
    let start: usize = if signed {
        1
    } else {
        0
    };
    if start == len {
        assert(text@.subrange(1, len as int).len() == 0);
        return None;
    }
    let ghost digits = text@.subrange(start as int, len as int);
    let mut magnitude: u128 = 0;
    let mut huge = false;
    let mut i: usize = start;
    assert(text@.subrange(start as int, i as int) =~= Seq::<char>::empty());
    while i < len
        invariant
            start <= i <= len,
            len == text@.len(),
            len > 0,
            negative == (text@[0] == '-'),
            signed == (text@[0] == '-' || text@[0] == '+'),
            start == if signed { 1usize } else { 0usize },
            digits == text@.subrange(start as int, len as int),
            all_digits(text@.subrange(start as int, i as int)),
            !huge ==> magnitude == digits_value(text@.subrange(start as int, i as int)),
            !huge ==> magnitude <= MAGNITUDE_LIMIT,
            huge ==> digits_value(text@.subrange(start as int, i as int)) > MAGNITUDE_LIMIT,
        decreases len - i,
    {
        let c = text.get_char(i);
        let code = c as u32;
        if code < 48 || code > 57 {
            assert(!is_digit(digits[i - start]));
            assert(!all_digits(digits));
            assert(signed || digits =~= text@);
            return None;
        }
        let d = (code - 48) as u128;
        proof {
            let before = text@.subrange(start as int, i as int);
            assert(text@.subrange(start as int, i + 1) =~= before.push(c));
            lemma_digits_value_push(before, c);
        }
        if !huge {
            if magnitude > MAGNITUDE_LIMIT / 10 {
                huge = true;
            } else {
                let next = magnitude * 10 + d;
                if next > MAGNITUDE_LIMIT {
                    huge = true;
                } else {
                    magnitude = next;
                }
            }
        }
        i = i + 1;
    }
    assert(text@.subrange(start as int, i as int) =~= digits);
    assert(signed || digits =~= text@);
    if huge {
        return None;
    }
    let value: i128 = if negative {
        if magnitude == MAGNITUDE_LIMIT {
            i128::MIN
        } else {
            -(magnitude as i128)
        }
    } else {
        if magnitude == MAGNITUDE_LIMIT {
            return None;
        }
        magnitude as i128
    };
    if min <= value && value <= max {
        Some(value)
    } else {
        None
    }
}

/// Whether `text` spells an integer, of whatever size.
pub fn spells_integer(text: &str) -> (spelled: bool)
    ensures
        spelled == parse_int(text@) is Some,
{
    let len = text.unicode_len();
    if len == 0 {
        return false;
    }
    let first = text.get_char(0);
    let start: usize = if first == '-' || first == '+' {
        1
    } else {
        0
    };
    if start == len {
        assert(text@.subrange(1, len as int).len() == 0);
        return false;
    }
    let ghost digits = text@.subrange(start as int, len as int);
    let mut i: usize = start;
    while i < len
        invariant
            start <= i <= len,
            len == text@.len(),
            len > 0,
            start == if text@[0] == '-' || text@[0] == '+' { 1usize } else { 0usize },
            digits == text@.subrange(start as int, len as int),
            forall|k: int| 0 <= k < i - start ==> is_digit(#[trigger] digits[k]),
        decreases len - i,
    {
        let code = text.get_char(i) as u32;
        if code < 48 || code > 57 {
            assert(!is_digit(digits[i - start]));
            assert(start == 1 || digits =~= text@);
            return false;
        }
        i = i + 1;
    }
    assert(all_digits(digits));
    assert(start == 1 || digits =~= text@);
    true
}

} // verus!
