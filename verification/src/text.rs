//! Text: comparison without regard to the case of ASCII letters, decimal
//! numerals, and the messages shown after an answer.

use vstd::prelude::*;
use vstd::string::*;

verus! {

/// Calls `String::push`. Believed, not proved: the character is appended to
/// the end of the text and nothing else changes.
#[verifier::external_body]
pub(crate) fn push_char(text: &mut String, c: char)
    ensures
        final(text)@ == old(text)@.push(c),
{
    text.push(c);
}

pub open spec fn is_ascii_upper(c: char) -> bool {
    'A' <= c <= 'Z'
}

pub open spec fn is_ascii_lower(c: char) -> bool {
    'a' <= c <= 'z'
}

pub open spec fn is_ascii_digit(c: char) -> bool {
    '0' <= c <= '9'
}

/// The lower-case form of an ASCII capital letter; any other character is
/// left as it is.
pub open spec fn ascii_lower(c: char) -> char {
    if is_ascii_upper(c) {
        ((c as int) + 32) as char
    } else {
        c
    }
}

/// Whether two texts are the same once their ASCII capital letters are
/// lowered.
pub open spec fn same_ignoring_case(a: Seq<char>, b: Seq<char>) -> bool {
    a.map_values(|c: char| ascii_lower(c)) == b.map_values(|c: char| ascii_lower(c))
}

/// The numeral of a digit value.
pub open spec fn digit_char(digit: nat) -> char {
    (('0' as int) + digit) as char
}

/// The decimal numeral of a number, without leading zeros.
pub open spec fn decimal(n: nat) -> Seq<char>
    decreases n,
{
    if n < 10 {
        seq![digit_char(n)]
    } else {
        decimal(n / 10).push(digit_char(n % 10))
    }
}

/// The message after a right answer. A single digit is told whether it is
/// even or odd, a single ASCII letter its place in the alphabet, and anything
/// else gets plain praise.
pub open spec fn praise(input: Seq<char>) -> Seq<char> {
    if input.len() == 1 && is_ascii_digit(input[0]) {
        if ((input[0] as int) - ('0' as int)) % 2 == 0 {
            "You chose "@ + input + ", an even number"@
        } else {
            "You chose "@ + input + ", an odd number"@
        }
    } else if input.len() == 1 && (is_ascii_upper(input[0]) || is_ascii_lower(input[0])) {
        "You chose "@.push(ascii_lower(input[0])) + ", letter number "@ + decimal(
            ((ascii_lower(input[0]) as int) - ('a' as int) + 1) as nat,
        ) + " in the alphabet"@
    } else {
        "Great Job!"@
    }
}

/// The message after a wrong answer: it names the item that was asked for.
pub open spec fn correction(target: Seq<char>) -> Seq<char> {
    "Oops! That was "@ + target + ". Try again!"@
}

/// The message when the time of a level has run out.
pub open spec fn time_is_up() -> Seq<char> {
    "Time's Up!"@
}

pub fn to_ascii_lower(c: char) -> (lowered: char)
    ensures
        lowered == ascii_lower(c),
{
    if c >= 'A' && c <= 'Z' {
        ((c as u8) + 32) as char
    } else {
        c
    }
}

/// Compares two texts without regard to the case of their ASCII letters.
pub fn eq_ignoring_case(a: &str, b: &str) -> (same: bool)
    ensures
        same == same_ignoring_case(a@, b@),
{
    let length = a.unicode_len();
    if length != b.unicode_len() {
        assert(a@.map_values(|c: char| ascii_lower(c)).len() != b@.map_values(
            |c: char| ascii_lower(c),
        ).len());
        return false;
    }
    let mut at: usize = 0;
    while at < length
        invariant
            at <= length,
            length == a@.len(),
            length == b@.len(),
            forall|i: int| 0 <= i < at ==> ascii_lower(a@[i]) == ascii_lower(b@[i]),
        decreases length - at,
    {
        if to_ascii_lower(a.get_char(at)) != to_ascii_lower(b.get_char(at)) {
            assert(a@.map_values(|c: char| ascii_lower(c))[at as int] != b@.map_values(
                |c: char| ascii_lower(c),
            )[at as int]);
            return false;
        }
        at += 1;
    }
    assert(a@.map_values(|c: char| ascii_lower(c)) =~= b@.map_values(|c: char| ascii_lower(c)));
    true
}

/// Compares two texts character by character.
pub fn eq_text(a: &str, b: &str) -> (same: bool)
    ensures
        same == (a@ == b@),
{
    let length = a.unicode_len();
    if length != b.unicode_len() {
        return false;
    }
    let mut at: usize = 0;
    while at < length
        invariant
            at <= length,
            length == a@.len(),
            length == b@.len(),
            forall|i: int| 0 <= i < at ==> a@[i] == b@[i],
        decreases length - at,
    {
        if a.get_char(at) != b.get_char(at) {
            return false;
        }
        at += 1;
    }
    assert(a@ =~= b@);
    true
}

/// Appends the decimal numeral of `n` to the text.
pub fn push_decimal(text: &mut String, n: u32)
    ensures
        final(text)@ == old(text)@ + decimal(n as nat),
    decreases n,
{
    if n >= 10 {
        push_decimal(text, n / 10);
    }
    let digit = (n % 10) as u8;
    push_char(text, (48u8 + digit) as char);
}

pub fn praise_message(input: &str) -> (message: String)
    ensures
        message@ == praise(input@),
{
    if input.unicode_len() == 1 {
        let c = input.get_char(0);
        if c >= '0' && c <= '9' {
            let mut message = String::from_str("You chose ");
            message.append(input);
            if ((c as u8) - 48u8) % 2 == 0 {
                message.append(", an even number");
            } else {
                message.append(", an odd number");
            }
            return message;
        }
        if (c >= 'A' && c <= 'Z') || (c >= 'a' && c <= 'z') {
            let lowered = to_ascii_lower(c);
            let place = (lowered as u8) - 97u8 + 1u8;
            let mut message = String::from_str("You chose ");
            push_char(&mut message, lowered);
            message.append(", letter number ");
            push_decimal(&mut message, place as u32);
            message.append(" in the alphabet");
            return message;
        }
    }
    String::from_str("Great Job!")
}

pub fn correction_message(target: &str) -> (message: String)
    ensures
        message@ == correction(target@),
{
    let mut message = String::from_str("Oops! That was ");
    message.append(target);
    message.append(". Try again!");
    message
}

pub fn time_is_up_message() -> (message: String)
    ensures
        message@ == time_is_up(),
{
    String::from_str("Time's Up!")
}

} // verus!
