//! Decimal numerals: reading an unsigned 16-bit number and writing numbers
//! out.

use vstd::prelude::*;
use vstd::std_specs::iter::IteratorSpec;

verus! {

/// Whether `c` is one of the ten ASCII digits.
pub open spec fn is_digit(c: char) -> bool {
    '0' <= c <= '9'
}

/// The number that the digit `c` stands for.
pub open spec fn digit_value(c: char) -> nat {
    (c as nat - '0' as nat) as nat
}

/// Whether every character of `text` is a digit.
pub open spec fn all_digits(text: Seq<char>) -> bool {
    forall|i: int| 0 <= i < text.len() ==> is_digit(#[trigger] text[i])
}

/// The number that a run of digits denotes, most significant digit first.
pub open spec fn decimal_value(digits: Seq<char>) -> nat
    decreases digits.len(),
{
    if digits.len() == 0 {
        0
    } else {
        10 * decimal_value(digits.drop_last()) + digit_value(digits.last())
    }
}

/// `text` without one leading plus sign.
pub open spec fn unsigned_part(text: Seq<char>) -> Seq<char> {
    if text.len() > 0 && text[0] == '+' {
        text.skip(1)
    } else {
        text
    }
}

/// The number that `text` denotes as an unsigned 16-bit decimal: an optional
/// plus sign, then at least one digit and nothing else, with a value of at
/// most 65535.  Leading zeros are allowed.
pub open spec fn parsed_u16(text: Seq<char>) -> Option<u16> {
    let digits = unsigned_part(text);
    if digits.len() > 0 && all_digits(digits) && decimal_value(digits) <= u16::MAX {
        Some(decimal_value(digits) as u16)
    } else {
        None
    }
}

/// A run of digits denotes at least what any of its prefixes denotes.
pub proof fn lemma_decimal_value_grows(head: Seq<char>, tail: Seq<char>)
    ensures
        decimal_value(head + tail) >= decimal_value(head),
    decreases tail.len(),
{
    if tail.len() == 0 {
        assert(head + tail =~= head);
    } else {
        lemma_decimal_value_grows(head, tail.drop_last());
        assert((head + tail).drop_last() =~= head + tail.drop_last());
    }
}

/// Reads `text` as an unsigned 16-bit decimal number.
pub fn parse_u16(text: &str) -> (parsed: Option<u16>)
    ensures
        parsed == parsed_u16(text@),
{
    broadcast use vstd::string::group_string_axioms;

    let mut chars = text.chars();
    let mut pending = chars.next();
    if let Some(c) = pending {
        if c == '+' {
            pending = chars.next();
        }
    }
    let ghost digits = unsigned_part(text@);
    let ghost mut seen: Seq<char> = Seq::empty();
    let mut value: u32 = 0;
    let mut any = false;
    loop
        invariant
            chars.obeys_prophetic_iter_laws(),
            chars.decrease() is Some,
            digits == unsigned_part(text@),
            match pending {
                Some(c) => digits == seen.push(c) + chars.remaining(),
                None => digits == seen && chars.remaining().len() == 0,
            },
            all_digits(seen),
            value == decimal_value(seen),
            value <= u16::MAX,
            any == (seen.len() > 0),
        ensures
            digits == unsigned_part(text@),
            digits == seen,
            all_digits(seen),
            value == decimal_value(seen),
            value <= u16::MAX,
            any == (seen.len() > 0),
        decreases (if pending is Some { 1nat } else { 0nat }), chars.decrease()->0,
    {
        match pending {
            None => {
                break;
            },
            Some(c) => {
                let ghost longer = seen.push(c);
                assert(longer.drop_last() =~= seen);
                if !(c >= '0' && c <= '9') {
                    assert(digits[seen.len() as int] == c);
                    return None;
                }
                let digit: u32 = c as u32 - '0' as u32;
                let wider: u32 = value * 10 + digit;
                if wider > 65535 {
                    proof {
                        lemma_decimal_value_grows(longer, chars.remaining());
                    }
                    return None;
                }
                value = wider;
                any = true;
                proof {
                    seen = longer;
                }
                pending = chars.next();
            },
        }
    }
    if any {
        Some(value as u16)
    } else {
        None
    }
}

/// The digit that stands for `value`, which is below ten.
pub open spec fn digit_char(value: nat) -> char {
    ('0' as u8 + value) as u8 as char
}

/// The decimal numeral of `n`, without leading zeros.
pub open spec fn decimal_digits(n: nat) -> Seq<char>
    decreases n,
{
    if n < 10 {
        seq![digit_char(n)]
    } else {
        decimal_digits(n / 10).push(digit_char(n % 10))
    }
}

/// `width - len` zeros, or none where `len` is `width` or more.
pub open spec fn zero_fill(len: nat, width: nat) -> Seq<char> {
    Seq::new((if len < width { width - len } else { 0 }) as nat, |i: int| '0')
}

/// The decimal numeral of `n`, with zeros in front where it has fewer than
/// `width` digits.
pub open spec fn zero_padded(n: nat, width: nat) -> Seq<char> {
    zero_fill(decimal_digits(n).len(), width) + decimal_digits(n)
}

/// The decimal numeral of `i`, with a minus sign where it is negative.
pub open spec fn signed_decimal(i: int) -> Seq<char> {
    if i < 0 {
        seq!['-'] + decimal_digits((-i) as nat)
    } else {
        decimal_digits(i as nat)
    }
}

/// The one-character text of a digit.
fn digit_text(value: u8) -> (text: &'static str)
    requires
        value < 10,
    ensures
        text@ == seq![digit_char(value as nat)],
{
    let table = "0123456789";
    proof {
        reveal_strlit("0123456789");
    }
    table.substring_ascii(value as usize, value as usize + 1)
}

/// Appends the decimal numeral of `n` to `out`.
pub fn push_decimal(out: &mut String, n: u32)
    ensures
        final(out)@ == old(out)@ + decimal_digits(n as nat),
    decreases n,
{
    if n >= 10 {
        push_decimal(out, n / 10);
    }
    out.append(digit_text((n % 10) as u8));
}

/// Appends the decimal numeral of `i` to `out`, with a minus sign where it is
/// negative.
pub fn push_signed_decimal(out: &mut String, i: i32)
    ensures
        final(out)@ == old(out)@ + signed_decimal(i as int),
{
    if i < 0 {
        let magnitude: u32 = (-(i as i64)) as u32;
        out.append("-");
        proof {
            reveal_strlit("-");
        }
        push_decimal(out, magnitude);
    } else {
        push_decimal(out, i as u32);
    }
}

/// The decimal numeral of `n` in at least four digits, with zeros in front.
pub fn zero_padded4(n: u16) -> (text: String)
    ensures
        text@ == zero_padded(n as nat, 4),
{
    let mut text = String::new();
    proof {
        reveal_with_fuel(decimal_digits, 5);
        reveal_strlit("000");
        reveal_strlit("00");
        reveal_strlit("0");
    }
    if n < 10 {
        text.append("000");
    } else if n < 100 {
        text.append("00");
    } else if n < 1000 {
        text.append("0");
    }
    push_decimal(&mut text, n as u32);
    text
}

/// The decimal numeral of `n` is a run of at least one digit that denotes `n`.
pub proof fn lemma_decimal_digits_denote(n: nat)
    ensures
        decimal_digits(n).len() >= 1,
        all_digits(decimal_digits(n)),
        decimal_value(decimal_digits(n)) == n,
    decreases n,
{
    let digits = decimal_digits(n);
    if n < 10 {
        assert(decimal_value(digits.drop_last()) == 0);
    } else {
        lemma_decimal_digits_denote(n / 10);
        assert(digits.drop_last() =~= decimal_digits(n / 10));
    }
}

/// Zeros in front of a run of digits do not change what it denotes.
pub proof fn lemma_leading_zeros(zeros: nat, digits: Seq<char>)
    ensures
        decimal_value(Seq::new(zeros, |i: int| '0') + digits) == decimal_value(digits),
    decreases digits.len(), zeros,
{
    let fill = Seq::new(zeros, |i: int| '0');
    if digits.len() == 0 {
        if zeros > 0 {
            lemma_leading_zeros((zeros - 1) as nat, digits);
            let shorter = Seq::new((zeros - 1) as nat, |i: int| '0');
            assert(fill.drop_last() =~= shorter);
        }
    } else {
        lemma_leading_zeros(zeros, digits.drop_last());
        assert((fill + digits).drop_last() =~= fill + digits.drop_last());
    }
}

/// The numeral that is written for an id reads back as that id, with or
/// without zeros in front.
pub proof fn lemma_written_id_reads_back(id: u16, width: nat)
    ensures
        parsed_u16(decimal_digits(id as nat)) == Some(id),
        parsed_u16(zero_padded(id as nat, width)) == Some(id),
{
    let digits = decimal_digits(id as nat);
    lemma_decimal_digits_denote(id as nat);
    lemma_leading_zeros(zero_fill(digits.len(), width).len(), digits);
}

} // verus!
