//! Conversion of unsigned 32-bit integers between bases 2, 8, 10 and 16.

use vstd::prelude::*;
use crate::text::{chars_of, same_text};

verus! {

/// The bases a number can be read in or written in.
pub open spec fn is_supported_base(base: u32) -> bool {
    base == 2 || base == 8 || base == 10 || base == 16
}

/// The value of `c` read as a digit: `0`-`9`, then `a`-`f` in either case.
pub open spec fn digit_value(c: char) -> Option<nat> {
    let code = c as u32;
    if 0x30 <= code <= 0x39 {
        Some((code - 0x30) as nat)
    } else if 0x41 <= code <= 0x46 {
        Some((code - 0x41 + 10) as nat)
    } else if 0x61 <= code <= 0x66 {
        Some((code - 0x61 + 10) as nat)
    } else {
        None
    }
}

/// Whether `c` is a digit of the given base.
pub open spec fn is_digit(c: char, base: nat) -> bool {
    digit_value(c) matches Some(d) && d < base
}

/// Whether every character of `s` is a digit of the given base.
pub open spec fn all_digits(s: Seq<char>, base: nat) -> bool {
    forall|i: int| 0 <= i < s.len() ==> is_digit(#[trigger] s[i], base)
}

/// The number that the digits `s` denote in the given base, most significant
/// digit first.
pub open spec fn digits_value(s: Seq<char>, base: nat) -> nat
    decreases s.len(),
{
    if s.len() == 0 {
        0
    } else {
        digits_value(s.drop_last(), base) * base + digit_value(s.last()).unwrap_or(0)
    }
}

/// What `s` parses to: digits of the base only, at least one of them, and a
/// value that fits in 32 bits.
pub open spec fn parse_radix(s: Seq<char>, base: u32) -> Option<u32> {
    if s.len() > 0 && all_digits(s, base as nat) && digits_value(s, base as nat) <= u32::MAX {
        Some(digits_value(s, base as nat) as u32)
    } else {
        None
    }
}

/// The digit character for `d`, in upper case from ten on.
pub open spec fn digit_char(d: nat) -> char {
    if d < 10 {
        (0x30 + d) as char
    } else {
        (0x41 + d - 10) as char
    }
}

/// The digits of `v` in the given base, most significant first, without
/// leading zeros; zero is the single digit `0`.
pub open spec fn render_radix(v: nat, base: nat) -> Seq<char>
    decreases v,
{
    if base < 2 || v < base {
        seq![digit_char(v)]
    } else {
        proof {
            assert(v / base < v) by (nonlinear_arith)
                requires
                    base >= 2,
                    v >= base,
            ;
        }
        render_radix(v / base, base).push(digit_char(v % base))
    }
}

/// What converting `input` from one base to another gives: the digits of the
/// parsed value in the target base, or nothing where `input` does not parse.
pub open spec fn converted(input: Seq<char>, from_base: u32, to_base: u32) -> Option<Seq<char>> {
    match parse_radix(input, from_base) {
        Some(value) => Some(render_radix(value as nat, to_base as nat)),
        None => None,
    }
}

/// The message for an input that does not parse in `base`.
pub open spec fn invalid_input_message(base: u32) -> Seq<char> {
    "Invalid input for base "@ + render_radix(base as nat, 10)
}

/// The source and target base that a choice of the conversion menu stands
/// for. Choices are the decimal numbers 1 to 12, written without sign,
/// space or leading zero.
pub open spec fn chosen_bases(choice: Seq<char>) -> Option<(u32, u32)> {
    if choice == "1"@ {
        Some((2u32, 10u32))
    } else if choice == "2"@ {
        Some((2u32, 8u32))
    } else if choice == "3"@ {
        Some((2u32, 16u32))
    } else if choice == "4"@ {
        Some((10u32, 2u32))
    } else if choice == "5"@ {
        Some((10u32, 8u32))
    } else if choice == "6"@ {
        Some((10u32, 16u32))
    } else if choice == "7"@ {
        Some((8u32, 10u32))
    } else if choice == "8"@ {
        Some((8u32, 2u32))
    } else if choice == "9"@ {
        Some((8u32, 16u32))
    } else if choice == "10"@ {
        Some((16u32, 10u32))
    } else if choice == "11"@ {
        Some((16u32, 2u32))
    } else if choice == "12"@ {
        Some((16u32, 8u32))
    } else {
        None
    }
}

/// The name of a choice of the conversion menu.
pub open spec fn number_conversion_name(choice: Seq<char>) -> Seq<char> {
    if choice == "1"@ {
        "Binary to Decimal"@
    } else if choice == "2"@ {
        "Binary to Octal"@
    } else if choice == "3"@ {
        "Binary to Hexadecimal"@
    } else if choice == "4"@ {
        "Decimal to Binary"@
    } else if choice == "5"@ {
        "Decimal to Octal"@
    } else if choice == "6"@ {
        "Decimal to Hexadecimal"@
    } else if choice == "7"@ {
        "Octal to Decimal"@
    } else if choice == "8"@ {
        "Octal to Binary"@
    } else if choice == "9"@ {
        "Octal to Hexadecimal"@
    } else if choice == "10"@ {
        "Hexadecimal to Decimal"@
    } else if choice == "11"@ {
        "Hexadecimal to Binary"@
    } else if choice == "12"@ {
        "Hexadecimal to Octal"@
    } else {
        "Unknown Conversion"@
    }
}

/// A prefix of a digit string never denotes more than the whole string.
pub proof fn lemma_digits_value_prefix(s: Seq<char>, base: nat, k: int)
    requires
        0 <= k <= s.len(),
        base >= 1,
    ensures
        digits_value(s.take(k), base) <= digits_value(s, base),
    decreases s.len(),
{
    if k == s.len() {
        assert(s.take(k) =~= s);
    } else {
        let front = s.drop_last();
        assert(front.take(k) =~= s.take(k));
        lemma_digits_value_prefix(front, base, k);
        assert(digits_value(front, base) * base >= digits_value(front, base)) by (nonlinear_arith)
            requires
                base >= 1,
        ;
    }
}

/// The digit that `c` is in the given base, if it is one.
pub fn digit_of(c: char, base: u32) -> (d: Option<u32>)
    ensures
        match d {
            Some(d) => is_digit(c, base as nat) && digit_value(c) == Some(d as nat),
            None => !is_digit(c, base as nat),
        },
{
    let code: u32 = c as u32;
    let value: u32 = if 0x30 <= code && code <= 0x39 {
        code - 0x30
    } else if 0x41 <= code && code <= 0x46 {
        code - 0x41 + 10
    } else if 0x61 <= code && code <= 0x66 {
        code - 0x61 + 10
    } else {
        return None;
    };
    if value < base {
        Some(value)
    } else {
        None
    }
}

/// Reads `input` as an unsigned 32-bit integer written in the given base.
pub fn parse_digits(input: &str, base: u32) -> (parsed: Option<u32>)
    requires
        is_supported_base(base),
    ensures
        parsed == parse_radix(input@, base),
{
    let chars = chars_of(input);
    if chars.len() == 0 {
        return None;
    }
    let mut value: u64 = 0;
    let mut i: usize = 0;
    while i < chars.len()
        invariant
            is_supported_base(base),
            chars@ == input@,
            i <= chars.len(),
            all_digits(chars@.take(i as int), base as nat),
            value == digits_value(chars@.take(i as int), base as nat),
            value <= u32::MAX,
        decreases chars.len() - i,
    {
        proof {
            assert(chars@.take(i + 1).drop_last() =~= chars@.take(i as int));
        }
        match digit_of(chars[i], base) {
            None => {
                return None;
            },
            Some(d) => {
                assert(value * base <= 0xFFFF_FFFF * 16) by (nonlinear_arith)
                    requires
                        value <= 0xFFFF_FFFF,
                        base <= 16,
                ;
                value = value * (base as u64) + (d as u64);
                if value > u32::MAX as u64 {
                    proof {
                        lemma_digits_value_prefix(chars@, base as nat, i + 1);
                    }
                    return None;
                }
            },
        }
        i += 1;
    }
    proof {
        assert(chars@.take(i as int) =~= chars@);
    }
    Some(value as u32)
}

/// The character for the digit `d`.
fn digit_to_char(d: u32) -> (c: char)
    requires
        d < 16,
    ensures
        c == digit_char(d as nat),
{
    if d < 10 {
        (0x30u8 + d as u8) as char
    } else {
        (0x41u8 + (d - 10) as u8) as char
    }
}

/// Writes `value` in the given base.
pub fn render_digits(value: u32, base: u32) -> (digits: String)
    requires
        is_supported_base(base),
    ensures
        digits@ == render_radix(value as nat, base as nat),
{
    // Digits come out least significant first; `tail` is the same digits in
    // reading order.
    let mut reversed: Vec<char> = Vec::new();
    let mut rest: u32 = value;
    let ghost mut tail: Seq<char> = Seq::empty();
    while rest >= base
        invariant
            is_supported_base(base),
            render_radix(value as nat, base as nat) == render_radix(rest as nat, base as nat)
                + tail,
            tail.len() == reversed.len(),
            forall|j: int|
                0 <= j < reversed.len() ==> #[trigger] reversed[j] == tail[tail.len() - 1 - j],
        decreases rest,
    {
        let digit = digit_to_char(rest % base);
        proof {
            tail = seq![digit] + tail;
        }
        reversed.push(digit);
        rest = rest / base;
    }
    let digit = digit_to_char(rest);
    proof {
        tail = seq![digit] + tail;
    }
    reversed.push(digit);

    let mut digits = String::new();
    let mut i: usize = reversed.len();
    while i > 0
        invariant
            i <= reversed.len(),
            tail.len() == reversed.len(),
            forall|j: int|
                0 <= j < reversed.len() ==> #[trigger] reversed[j] == tail[tail.len() - 1 - j],
            digits@ == tail.take(reversed.len() - i),
        decreases i,
    {
        i -= 1;
        digits.push(reversed[i]);
    }
    digits
}

/// Converts `input`, written in `from_base`, to its digits in `to_base`.
pub fn convert_number(input: &str, from_base: u32, to_base: u32) -> (r: Result<String, String>)
    requires
        is_supported_base(from_base),
        is_supported_base(to_base),
    ensures
        match r {
            Ok(output) => converted(input@, from_base, to_base) == Some(output@),
            Err(message) => converted(input@, from_base, to_base) is None && message@
                == invalid_input_message(from_base),
        },
{
    match parse_digits(input, from_base) {
        Some(value) => Ok(render_digits(value, to_base)),
        None => {
            let mut message = "Invalid input for base ".to_owned();
            let base_digits = render_digits(from_base, 10);
            message.append(base_digits.as_str());
            Err(message)
        },
    }
}

/// The source and target base of a choice of the conversion menu, if it is
/// one.
pub fn number_conversion_bases(choice: &str) -> (bases: Option<(u32, u32)>)
    ensures
        bases == chosen_bases(choice@),
        bases matches Some(pair) ==> is_supported_base(pair.0) && is_supported_base(pair.1),
{
    if same_text(choice, "1") {
        Some((2, 10))
    } else if same_text(choice, "2") {
        Some((2, 8))
    } else if same_text(choice, "3") {
        Some((2, 16))
    } else if same_text(choice, "4") {
        Some((10, 2))
    } else if same_text(choice, "5") {
        Some((10, 8))
    } else if same_text(choice, "6") {
        Some((10, 16))
    } else if same_text(choice, "7") {
        Some((8, 10))
    } else if same_text(choice, "8") {
        Some((8, 2))
    } else if same_text(choice, "9") {
        Some((8, 16))
    } else if same_text(choice, "10") {
        Some((16, 10))
    } else if same_text(choice, "11") {
        Some((16, 2))
    } else if same_text(choice, "12") {
        Some((16, 8))
    } else {
        None
    }
}

/// The name of a choice of the conversion menu; `Unknown Conversion` for
/// anything else.
pub fn get_number_conversion_name(choice: &str) -> (name: &'static str)
    ensures
        name@ == number_conversion_name(choice@),
{
    if same_text(choice, "1") {
        "Binary to Decimal"
    } else if same_text(choice, "2") {
        "Binary to Octal"
    } else if same_text(choice, "3") {
        "Binary to Hexadecimal"
    } else if same_text(choice, "4") {
        "Decimal to Binary"
    } else if same_text(choice, "5") {
        "Decimal to Octal"
    } else if same_text(choice, "6") {
        "Decimal to Hexadecimal"
    } else if same_text(choice, "7") {
        "Octal to Decimal"
    } else if same_text(choice, "8") {
        "Octal to Binary"
    } else if same_text(choice, "9") {
        "Octal to Hexadecimal"
    } else if same_text(choice, "10") {
        "Hexadecimal to Decimal"
    } else if same_text(choice, "11") {
        "Hexadecimal to Binary"
    } else if same_text(choice, "12") {
        "Hexadecimal to Octal"
    } else {
        "Unknown Conversion"
    }
}

/// Reading back the character of a digit gives the digit.
pub proof fn lemma_digit_char_value(d: nat)
    requires
        d < 16,
    ensures
        digit_value(digit_char(d)) == Some(d),
{
}

/// The digits written for `v` are digits of the base, and denote `v`.
pub proof fn lemma_render_denotes(v: nat, base: nat)
    requires
        2 <= base <= 16,
    ensures
        render_radix(v, base).len() > 0,
        all_digits(render_radix(v, base), base),
        digits_value(render_radix(v, base), base) == v,
    decreases v,
{
    let digits = render_radix(v, base);
    if v < base {
        lemma_digit_char_value(v);
        assert(digits_value(digits.drop_last(), base) == 0);
        assert(0 * base == 0) by (nonlinear_arith);
    } else {
        assert(v / base < v && v % base < base && (v / base) * base + v % base == v)
            by (nonlinear_arith)
            requires
                base >= 2,
                v >= base,
        ;
        let front = render_radix(v / base, base);
        lemma_render_denotes(v / base, base);
        lemma_digit_char_value(v % base);
        assert(digits.drop_last() =~= front);
    }
}

/// Every 32-bit value is read back from its own digits.
pub proof fn lemma_parse_render(v: u32, base: u32)
    requires
        is_supported_base(base),
    ensures
        parse_radix(render_radix(v as nat, base as nat), base) == Some(v),
{
    lemma_render_denotes(v as nat, base as nat);
}

/// Converting the digits of `v` from base `b1` to base `b2` gives the digits
/// of `v` in `b2`, and converting those back gives the first digits again.
pub proof fn lemma_convert_round_trip(v: u32, b1: u32, b2: u32)
    requires
        is_supported_base(b1),
        is_supported_base(b2),
    ensures
        converted(render_radix(v as nat, b1 as nat), b1, b2) == Some(
            render_radix(v as nat, b2 as nat),
        ),
        converted(render_radix(v as nat, b2 as nat), b2, b1) == Some(
            render_radix(v as nat, b1 as nat),
        ),
{
    lemma_parse_render(v, b1);
    lemma_parse_render(v, b2);
}

/// Whatever way a value was written in base `b1` (leading zeros, lower-case
/// hexadecimal digits), converting it to `b2` and back gives the digits of
/// that value in `b1`, without leading zeros and in upper case.
pub proof fn lemma_convert_back_is_canonical(input: Seq<char>, b1: u32, b2: u32)
    requires
        is_supported_base(b1),
        is_supported_base(b2),
        parse_radix(input, b1) is Some,
    ensures
        converted(input, b1, b2) is Some,
        converted(converted(input, b1, b2).unwrap(), b2, b1) == Some(
            render_radix(parse_radix(input, b1).unwrap() as nat, b1 as nat),
        ),
{
    lemma_parse_render(parse_radix(input, b1).unwrap(), b2);
}

} // verus!
