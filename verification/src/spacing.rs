//! Validation of the spacing argument of the spaced mode.

use vstd::prelude::*;
use vstd::string::*;

verus! {

/// True of the ten decimal digits.
pub open spec fn is_decimal_digit(c: char) -> bool {
    '0' <= c && c <= '9'
}

/// The value of a decimal digit; zero for any other character.
pub open spec fn digit_value(c: char) -> nat {
    if is_decimal_digit(c) {
        (c as nat - '0' as nat) as nat
    } else {
        0
    }
}

/// True when every character of `text` is a decimal digit.
pub open spec fn all_digits(text: Seq<char>) -> bool {
    forall|i: int| 0 <= i < text.len() ==> is_decimal_digit(#[trigger] text[i])
}

/// The number that a string of decimal digits denotes.
pub open spec fn decimal_value(digits: Seq<char>) -> nat
    decreases digits.len(),
{
    if digits.len() == 0 {
        0
    } else {
        10 * decimal_value(digits.drop_last()) + digit_value(digits.last())
    }
}

/// `text` without its leading plus sign, if it has one.
pub open spec fn without_sign(text: Seq<char>) -> Seq<char> {
    if text.len() > 0 && text[0] == '+' {
        text.subrange(1, text.len() as int)
    } else {
        text
    }
}

/// The number that `text` denotes: an optional plus sign, then one or more
/// decimal digits and nothing else, with a value that a `usize` can hold.
/// Any other text denotes no number.
pub open spec fn parsed_number(text: Seq<char>) -> Option<usize> {
    let digits = without_sign(text);
    if digits.len() > 0 && all_digits(digits) && decimal_value(digits) <= usize::MAX {
        Some(decimal_value(digits) as usize)
    } else {
        None
    }
}

/// The message for an argument that is no number.
pub open spec fn not_a_number_message(input: Seq<char>) -> Seq<char> {
    "`"@ + input + "` is not a valid number"@
}

/// The message for a spacing of zero.
pub open spec fn zero_spacing_message() -> Seq<char> {
    "You should use the `infinite` mode if you don't want any spaces"@
}

/// The number of characters that the sign takes.
spec fn sign_length(signed: bool) -> int {
    if signed {
        1
    } else {
        0
    }
}

/// A string of digits denotes at least as much as any of its prefixes.
proof fn lemma_prefix_value(digits: Seq<char>, length: int)
    requires
        0 <= length <= digits.len(),
    ensures
        decimal_value(digits.subrange(0, length)) <= decimal_value(digits),
    decreases digits.len() - length,
{
    if length == digits.len() {
        assert(digits.subrange(0, length) =~= digits);
    } else {
        lemma_prefix_value(digits.drop_last(), length);
        assert(digits.drop_last().subrange(0, length) =~= digits.subrange(0, length));
    }
}

/// Reads `text` as a decimal number.
pub fn parse_number(text: &str) -> (number: Option<usize>)
    ensures
        number == parsed_number(text@),
{
    broadcast use vstd::string::group_string_axioms;

    let mut value: usize = 0;
    let mut at_start = true;
    let mut signed = false;
    let mut any_digit = false;
    for c in it: text.chars()
        invariant
            it.seq() == text@,
            at_start <==> it.index() == 0,
            at_start ==> !signed && !any_digit && value == 0,
            !at_start ==> (signed <==> text@[0] == '+'),
            any_digit <==> it.index() > sign_length(signed),
            !at_start ==> all_digits(text@.subrange(sign_length(signed), it.index())),
            !at_start ==> value == decimal_value(text@.subrange(sign_length(signed), it.index())),
    {
        let ghost index = it.index();
        if at_start && c == '+' {
            signed = true;
            at_start = false;
            assert(text@.subrange(1, 1) =~= Seq::<char>::empty());
        } else {
            let ghost start = sign_length(signed);
            let ghost digits = without_sign(text@);
            if c < '0' || c > '9' {
                assert(!is_decimal_digit(digits[index - start]));
                return None;
            }
            let ghost before = text@.subrange(start, index);
            let ghost read = text@.subrange(start, index + 1);
            assert(value == decimal_value(before) && all_digits(before)) by {
                if at_start {
                    assert(before =~= Seq::<char>::empty());
                }
            }
            assert(decimal_value(read) == 10 * value + digit_value(c)) by {
                assert(read.drop_last() =~= before);
            }
            assert(decimal_value(read) <= decimal_value(digits)) by {
                assert(read =~= digits.subrange(0, index + 1 - start));
                lemma_prefix_value(digits, index + 1 - start);
            }
            assert(all_digits(read)) by {
                assert forall|i: int| 0 <= i < read.len() implies is_decimal_digit(
                    #[trigger] read[i],
                ) by {
                    if i < before.len() {
                        assert(read[i] == before[i]);
                    }
                }
            }
            let digit: usize = (c as u32 - '0' as u32) as usize;
            let scaled: usize = match value.checked_mul(10) {
                Some(scaled) => scaled,
                None => {
                    return None;
                },
            };
            value = match scaled.checked_add(digit) {
                Some(sum) => sum,
                None => {
                    return None;
                },
            };
            at_start = false;
            any_digit = true;
        }
    }
    assert(text@.subrange(sign_length(signed), text@.len() as int) =~= without_sign(text@));
    if any_digit {
        Some(value)
    } else {
        None
    }
}

/// Checks the spacing argument of the spaced mode: it must be a number, and
/// not zero, since without any spacing the endless mode does the same.
pub fn valid_spacing(input: &str) -> (spaces: Result<usize, String>)
    ensures
        match parsed_number(input@) {
            None => spaces matches Err(message) && message@ == not_a_number_message(input@),
            Some(number) => if number == 0 {
                spaces matches Err(message) && message@ == zero_spacing_message()
            } else {
                spaces == Ok::<usize, String>(number)
            },
        },
{
    match parse_number(input) {
        None => {
            let mut message = String::from_str("`");
            message.append(input);
            message.append("` is not a valid number");
            Err(message)
        },
        Some(number) => {
            if number == 0 {
                Err(
                    String::from_str(
                        "You should use the `infinite` mode if you don't want any spaces",
                    ),
                )
            } else {
                Ok(number)
            }
        },
    }
}

} // verus!
