//! What to make of a line that the user typed.
//!
//! Reading the line is the caller's part. Each function here looks at one
//! line and either accepts it or returns `None`, on which the caller asks
//! again.

use vstd::pervasive::FnWithRequiresEnsures;
use vstd::prelude::*;
use vstd::string::*;

verus! {

/// The error of std's integer parsing.
#[verifier::external_type_specification]
#[verifier::external_body]
pub struct ExParseIntError(core::num::ParseIntError);

/// Whether `c` is one of the digits `0` to `9`.
pub open spec fn is_decimal_digit(c: char) -> bool {
    '0' <= c <= '9'
}

/// Whether `digits` is one digit or more, and nothing else.
pub open spec fn is_decimal_digits(digits: Seq<char>) -> bool {
    &&& digits.len() > 0
    &&& forall|i: int| 0 <= i < digits.len() ==> is_decimal_digit(#[trigger] digits[i])
}

/// The number that a row of digits is the decimal notation of.
pub open spec fn spec_decimal_value(digits: Seq<char>) -> int
    decreases digits.len(),
{
    if digits.len() == 0 {
        0
    } else {
        10 * spec_decimal_value(digits.drop_last()) + (digits.last() as int - '0' as int)
    }
}

/// The number that `text` is the decimal notation of: a sign, `+` or `-`,
/// or none, followed by one digit or more. `None` where `text` is anything
/// else, be it only by a blank, and where the number does not fit.
pub open spec fn parsed_integer(text: Seq<char>) -> Option<i64> {
    let negative = text.len() > 0 && text[0] == '-';
    let signed = negative || (text.len() > 0 && text[0] == '+');
    let digits = if signed {
        text.skip(1)
    } else {
        text
    };
    let value = if negative {
        -spec_decimal_value(digits)
    } else {
        spec_decimal_value(digits)
    };
    if is_decimal_digits(digits) && i64::MIN <= value <= i64::MAX {
        Some(value as i64)
    } else {
        None
    }
}

/// `text` with every letter in lower case.
pub uninterp spec fn lowercased(text: Seq<char>) -> Seq<char>;

/// Parses a number: std's `str::parse` for `i64`. As std documents it, the
/// text is to be an optional `+` or `-` followed by digits only; an empty
/// text, a sign alone, any other character and a number that does not fit
/// are errors.
#[verifier::external_body]
fn parse_integer(text: &str) -> (outcome: Result<i64, core::num::ParseIntError>)
    ensures
        outcome is Ok <==> parsed_integer(text@) is Some,
        outcome matches Ok(value) ==> parsed_integer(text@) == Some(value),
{
    text.parse::<i64>()
}

/// Lower case: std's `str::to_lowercase`.
#[verifier::external_body]
fn lowercase(text: &str) -> (lowered: String)
    ensures
        lowered@ == lowercased(text@),
{
    text.to_lowercase()
}

/// The line that was typed, from what was read: the text without the
/// newline that ends it. `None` where no newline ends it, as when the
/// input ran out.
pub fn get_line(raw: &str) -> (line: Option<String>)
    ensures
        line is Some <==> raw@.len() > 0 && raw@.last() == '\n',
        line matches Some(text) ==> text@ == raw@.drop_last(),
{
    let length = raw.unicode_len();
    if length > 0 && raw.get_char(length - 1) == '\n' {
        let text = raw.substring_char(0, length - 1);
        assert(text@ =~= raw@.drop_last());
        Some(String::from_str(text))
    } else {
        None
    }
}

/// The number that a line stands for, or `None` where it stands for none.
pub fn get_parsed_line(line: &str) -> (parsed: Option<i64>)
    ensures
        parsed == parsed_integer(line@),
{
    match parse_integer(line) {
        Ok(value) => Some(value),
        Err(_) => None,
    }
}

/// The line, if it meets the condition.
pub fn get_line_with_condition<F: Fn(&String) -> bool>(line: String, condition: F) -> (accepted:
    Option<String>)
    requires
        condition.requires((&line,)),
    ensures
        accepted matches Some(text) ==> text == line && condition.ensures((&line,), true),
        accepted is None ==> condition.ensures((&line,), false),
{
    if condition(&line) {
        Some(line)
    } else {
        None
    }
}

/// The number, if there is one and it meets the condition.
pub fn accept_parsed<F: Fn(&i64) -> bool>(parsed: Option<i64>, condition: F) -> (accepted: Option<
    i64,
>)
    requires
        parsed matches Some(value) ==> condition.requires((&value,)),
    ensures
        accepted matches Some(value) ==> parsed == Some(value) && condition.ensures(
            (&value,),
            true,
        ),
        accepted is None ==> (parsed matches Some(value) ==> condition.ensures((&value,), false)),
{
    match parsed {
        Some(value) => if condition(&value) {
            Some(value)
        } else {
            None
        },
        None => None,
    }
}

/// The number that a line stands for, if it stands for one and that number
/// meets the condition.
pub fn get_parsed_line_with_condition<F: Fn(&i64) -> bool>(line: &str, condition: F) -> (accepted:
    Option<i64>)
    requires
        forall|value: i64| condition.requires((&value,)),
    ensures
        accepted matches Some(value) ==> parsed_integer(line@) == Some(value) && condition.ensures(
            (&value,),
            true,
        ),
        accepted is None ==> (parsed_integer(line@) matches Some(value) ==> condition.ensures(
            (&value,),
            false,
        )),
{
    accept_parsed(get_parsed_line(line), condition)
}

/// Reads a number that was entered for one of `len` items, counted from
/// one as a list is shown, as an index into the list. `None` where the
/// list has no such item, and so always for an empty list.
pub fn index_from_entry(entered: i64, len: usize) -> (index: Option<usize>)
    ensures
        index is Some <==> 0 < entered <= len,
        index matches Some(place) ==> place == entered - 1,
{
    if 0 < entered && (entered as u64) <= (len as u64) {
        Some((entered - 1) as usize)
    } else {
        None
    }
}

/// What an answer to a yes-or-no question says: `y` is yes and `n` is no,
/// in either case of the letter. Anything else is no answer.
pub open spec fn spec_yes_or_no(line: Seq<char>) -> Option<bool> {
    if lowercased(line) == "y"@ {
        Some(true)
    } else if lowercased(line) == "n"@ {
        Some(false)
    } else {
        None
    }
}

/// Reads the answer to a yes-or-no question.
pub fn yes_or_no(line: &str) -> (answer: Option<bool>)
    ensures
        answer == spec_yes_or_no(line@),
{
    let lowered = lowercase(line);
    if lowered == String::from_str("y") {
        Some(true)
    } else if lowered == String::from_str("n") {
        Some(false)
    } else {
        None
    }
}

} // verus!
