//! Numbers as text and text as numbers.

use vstd::prelude::*;
use vstd::string::{StrSliceExecFns, StringExecFns};

verus! {

/// The number that a text of decimal digits stands for; `None` where the
/// text is empty or holds anything but the digits `0` to `9`.
pub open spec fn digits_value(text: Seq<char>) -> Option<nat>
    decreases text.len(),
{
    if text.len() == 0 {
        None
    } else {
        let last = text.last() as u32;
        if last < 48 || last > 57 {
            None
        } else if text.len() == 1 {
            Some((last - 48) as nat)
        } else {
            match digits_value(text.drop_last()) {
                Some(before) => Some(before * 10 + (last - 48) as nat),
                None => None,
            }
        }
    }
}

/// The unsigned number of up to 128 bits that a text holds: decimal
/// digits, after a `+` or after nothing, that stand for a number within
/// the type. Anything else holds no number.
pub open spec fn parsed_unsigned(text: Seq<char>) -> Option<u128> {
    let digits = if text.len() > 0 && text[0] == '+' {
        text.drop_first()
    } else {
        text
    };
    match digits_value(digits) {
        Some(n) => if n <= u128::MAX {
            Some(n as u128)
        } else {
            None
        },
        None => None,
    }
}

/// The signed number of up to 128 bits that a text holds: decimal digits,
/// after a `+`, a `-` or nothing, that stand with their sign for a number
/// within the type. Anything else holds no number.
pub open spec fn parsed_signed(text: Seq<char>) -> Option<i128> {
    let signed = text.len() > 0 && (text[0] == '+' || text[0] == '-');
    let digits = if signed {
        text.drop_first()
    } else {
        text
    };
    match digits_value(digits) {
        Some(n) => {
            let value = if signed && text[0] == '-' {
                -(n as int)
            } else {
                n as int
            };
            if i128::MIN <= value <= i128::MAX {
                Some(value as i128)
            } else {
                None
            }
        },
        None => None,
    }
}

/// Calls `String::push`: the character is added at the end.
#[verifier::external_body]
pub(crate) fn push_char(text: &mut String, c: char)
    ensures
        final(text)@ == old(text)@.push(c),
{
    text.push(c);
}

/// Calls `str::parse` for a `u128`; `None` where it fails. The contract
/// says what the documentation of the standard library says of it: it
/// reads decimal digits after an optional `+`, and fails on an empty text,
/// on any other character, and on a number too large for the type.
#[verifier::external_body]
fn parse_unsigned(text: &str) -> (r: Option<u128>)
    ensures
        r == parsed_unsigned(text@),
{
    text.parse::<u128>().ok()
}

/// Calls `str::parse` for an `i128`; `None` where it fails. The contract
/// says what the documentation of the standard library says of it: it
/// reads decimal digits after an optional `+` or `-`, and fails on an
/// empty text, on any other character, and on a number outside the type.
#[verifier::external_body]
fn parse_signed(text: &str) -> (r: Option<i128>)
    ensures
        r == parsed_signed(text@),
{
    text.parse::<i128>().ok()
}

/// The unsigned number that a text holds, if it is at most `max`.
pub open spec fn unsigned_in(text: Seq<char>, max: u128) -> Option<u128> {
    match parsed_unsigned(text) {
        Some(n) => if n <= max {
            Some(n)
        } else {
            None
        },
        None => None,
    }
}

/// The signed number that a text holds, if it is from `min` to `max`.
pub open spec fn signed_in(text: Seq<char>, min: i128, max: i128) -> Option<i128> {
    match parsed_signed(text) {
        Some(n) => if min <= n <= max {
            Some(n)
        } else {
            None
        },
        None => None,
    }
}

/// Reads an unsigned number that is at most `max`.
pub fn parse_unsigned_in(text: &str, max: u128) -> (r: Option<u128>)
    ensures
        r == unsigned_in(text@, max),
{
    match parse_unsigned(text) {
        Some(n) => if n <= max {
            Some(n)
        } else {
            None
        },
        None => None,
    }
}

/// Reads a signed number from `min` to `max`.
pub fn parse_signed_in(text: &str, min: i128, max: i128) -> (r: Option<i128>)
    ensures
        r == signed_in(text@, min, max),
{
    match parse_signed(text) {
        Some(n) => if min <= n && n <= max {
            Some(n)
        } else {
            None
        },
        None => None,
    }
}

/// The character of a digit.
pub open spec fn digit_char(d: int) -> char {
    if d == 0 {
        '0'
    } else if d == 1 {
        '1'
    } else if d == 2 {
        '2'
    } else if d == 3 {
        '3'
    } else if d == 4 {
        '4'
    } else if d == 5 {
        '5'
    } else if d == 6 {
        '6'
    } else if d == 7 {
        '7'
    } else if d == 8 {
        '8'
    } else {
        '9'
    }
}

/// The decimal digits of a natural number, the highest first, without
/// leading zeros.
pub open spec fn decimal_digits(n: nat) -> Seq<char>
    decreases n,
{
    if n < 10 {
        seq![digit_char(n as int)]
    } else {
        decimal_digits(n / 10).push(digit_char((n % 10) as int))
    }
}

/// A whole number in decimal, with a minus sign where it is negative.
pub open spec fn decimal(n: int) -> Seq<char> {
    if n < 0 {
        seq!['-'] + decimal_digits((-n) as nat)
    } else {
        decimal_digits(n as nat)
    }
}

fn digit(d: u8) -> (r: char)
    requires
        d < 10,
    ensures
        r == digit_char(d as int),
{
    if d == 0 {
        '0'
    } else if d == 1 {
        '1'
    } else if d == 2 {
        '2'
    } else if d == 3 {
        '3'
    } else if d == 4 {
        '4'
    } else if d == 5 {
        '5'
    } else if d == 6 {
        '6'
    } else if d == 7 {
        '7'
    } else if d == 8 {
        '8'
    } else {
        '9'
    }
}

/// Writes a natural number in decimal at the end of a text.
pub fn append_unsigned(text: &mut String, n: u128)
    ensures
        final(text)@ == old(text)@ + decimal_digits(n as nat),
{
    let mut rest = n;
    let mut low_first: Vec<char> = Vec::new();
    while rest >= 10
        invariant
            decimal_digits(n as nat) == decimal_digits(rest as nat) + low_first@.reverse(),
        decreases rest,
    {
        let d = digit((rest % 10) as u8);
        proof {
            assert(low_first@.push(d).reverse() =~= seq![d] + low_first@.reverse());
            assert(decimal_digits(rest as nat) == decimal_digits((rest / 10) as nat).push(d));
            assert(decimal_digits((rest / 10) as nat).push(d) + low_first@.reverse()
                =~= decimal_digits((rest / 10) as nat) + (seq![d] + low_first@.reverse()));
        }
        low_first.push(d);
        rest = rest / 10;
    }
    let d = digit(rest as u8);
    proof {
        assert(low_first@.push(d).reverse() =~= seq![d] + low_first@.reverse());
    }
    low_first.push(d);
    let mut i: usize = low_first.len();
    while i > 0
        invariant
            i <= low_first.len(),
            decimal_digits(n as nat) == low_first@.reverse(),
            text@ == old(text)@ + low_first@.reverse().take(low_first.len() - i),
        decreases i,
    {
        i -= 1;
        push_char(text, low_first[i]);
        proof {
            let digits = low_first@.reverse();
            let k = low_first.len() - i - 1;
            assert(digits.take(k).push(digits[k]) =~= digits.take(k + 1));
            assert((old(text)@ + digits.take(k)).push(digits[k]) =~= old(text)@ + digits.take(
                k + 1,
            ));
        }
    }
    proof {
        assert(low_first@.reverse().take(low_first.len() as int) =~= low_first@.reverse());
    }
}

/// Writes a whole number in decimal at the end of a text.
pub fn append_signed(text: &mut String, n: i128)
    ensures
        final(text)@ == old(text)@ + decimal(n as int),
{
    if n < 0 {
        push_char(text, '-');
        let size: u128 = if n == i128::MIN {
            170141183460469231731687303715884105728u128
        } else {
            (-n) as u128
        };
        append_unsigned(text, size);
        proof {
            assert(old(text)@.push('-') + decimal_digits(size as nat) =~= old(text)@ + (seq!['-']
                + decimal_digits((-n) as nat)));
        }
    } else {
        append_unsigned(text, n as u128);
    }
}

/// The characters of a text.
pub fn chars_of(text: &str) -> (r: Vec<char>)
    ensures
        r@ == text@,
{
    let len = text.unicode_len();
    let mut out: Vec<char> = Vec::new();
    let mut i: usize = 0;
    while i < len
        invariant
            len == text@.len(),
            i <= len,
            out@ == text@.take(i as int),
        decreases len - i,
    {
        out.push(text.get_char(i));
        proof {
            assert(text@.take(i as int).push(text@[i as int]) =~= text@.take(i + 1));
        }
        i += 1;
    }
    proof {
        assert(text@.take(len as int) =~= text@);
    }
    out
}

/// The text of a whole number.
pub fn signed_text(n: i128) -> (r: String)
    ensures
        r@ == decimal(n as int),
{
    let mut out = String::new();
    append_signed(&mut out, n);
    proof {
        assert(Seq::<char>::empty() + decimal(n as int) =~= decimal(n as int));
    }
    out
}

/// Texts joined with a blank between each two.
pub open spec fn joined(parts: Seq<Seq<char>>) -> Seq<char>
    decreases parts.len(),
{
    if parts.len() == 0 {
        Seq::empty()
    } else if parts.len() == 1 {
        parts[0]
    } else {
        joined(parts.drop_last()) + seq![' '] + parts.last()
    }
}

/// The views of a list of texts.
pub open spec fn views(parts: Seq<String>) -> Seq<Seq<char>> {
    Seq::new(parts.len(), |i: int| parts[i]@)
}

/// Joins texts with a blank between each two.
pub fn join_with_blank(parts: &Vec<String>) -> (r: String)
    ensures
        r@ == joined(views(parts@)),
{
    let mut out = String::new();
    let mut i: usize = 0;
    while i < parts.len()
        invariant
            i <= parts.len(),
            out@ == joined(views(parts@).take(i as int)),
        decreases parts.len() - i,
    {
        proof {
            let all = views(parts@);
            assert(all.take(i + 1).drop_last() =~= all.take(i as int));
            assert(all.take(i + 1).last() == parts@[i as int]@);
        }
        if i > 0 {
            push_char(&mut out, ' ');
        }
        out.append(parts[i].as_str());
        proof {
            let all = views(parts@);
            if i == 0 {
                assert(all.take(1)[0] == parts@[0]@);
                assert(Seq::<char>::empty() + parts@[0]@ =~= parts@[0]@);
            } else {
                assert(joined(all.take(i as int)).push(' ') =~= joined(all.take(i as int))
                    + seq![' ']);
            }
        }
        i += 1;
    }
    proof {
        assert(views(parts@).take(parts.len() as int) =~= views(parts@));
    }
    out
}

} // verus!
