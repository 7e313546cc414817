//! The grammar of annotations, over sequences of characters.
//!
//! ```text
//! annotation := language "," function
//! function   := name "(" ( argument ( "," blank* argument )* )? ")"
//! argument   := name "=" value
//! value      := '"' body '"' | name | digit+
//! name       := ( letter | "_" ) ( letter | digit | "_" )*
//! body       := ( plain | "\" any )*
//! ```
//!
//! The language is everything before the first comma. A `plain` character
//! is any but `"` and `\`; a `\` takes the character after it along, so
//! that `\"` does not end a string. The text between the quotes is the
//! string's value as it stands. A number must fit in 32 bits. What follows
//! the closing bracket of the function is not looked at.

use crate::parser::function_string::ArgumentValueView;
use vstd::prelude::*;

verus! {

/// The first rule of the grammar that a text breaks.
#[derive(Debug, Clone, Copy, PartialEq, Eq, Structural)]
pub enum Violation {
    /// The text has no comma, so no language ends.
    MissingSeparator,
    /// No name stands where the function's name is due.
    ExpectedFunctionName,
    /// No `(` follows the function's name.
    ExpectedOpenParen,
    /// No name stands where an argument is due.
    ExpectedArgument,
    /// No `=` follows an argument's name.
    ExpectedEquals,
    /// What follows `=` begins no value.
    ExpectedValue,
    /// A string has no closing quote.
    UnterminatedString,
    /// A number does not fit in 32 bits.
    IntegerTooLarge,
    /// Neither `,` nor `)` follows an argument.
    ExpectedCommaOrCloseParen,
}

/// An argument's name and value.
pub type Entry = (Seq<char>, ArgumentValueView);

/// A function call as it is written: its name and its arguments in order.
pub struct Call {
    pub name: Seq<char>,
    pub entries: Seq<Entry>,
}

pub open spec fn is_letter(c: char) -> bool {
    ('a' <= c && c <= 'z') || ('A' <= c && c <= 'Z')
}

pub open spec fn is_digit(c: char) -> bool {
    '0' <= c && c <= '9'
}

pub open spec fn is_name_start(c: char) -> bool {
    is_letter(c) || c == '_'
}

pub open spec fn is_name_char(c: char) -> bool {
    is_name_start(c) || is_digit(c)
}

pub open spec fn is_blank(c: char) -> bool {
    c == ' ' || c == '\t'
}

/// Where the language that begins at `i` ends: at the first comma from `i`
/// on, or at the end of the text.
pub open spec fn language_end(s: Seq<char>, i: int) -> int
    decreases s.len() - i,
{
    if 0 <= i < s.len() && s[i] != ',' {
        language_end(s, i + 1)
    } else {
        i
    }
}

/// Where the characters of a name end that begin at `i`.
pub open spec fn name_end(s: Seq<char>, i: int) -> int
    decreases s.len() - i,
{
    if 0 <= i < s.len() && is_name_char(s[i]) {
        name_end(s, i + 1)
    } else {
        i
    }
}

/// Where the digits end that begin at `i`.
pub open spec fn digits_end(s: Seq<char>, i: int) -> int
    decreases s.len() - i,
{
    if 0 <= i < s.len() && is_digit(s[i]) {
        digits_end(s, i + 1)
    } else {
        i
    }
}

/// Where the blanks end that begin at `i`.
pub open spec fn blanks_end(s: Seq<char>, i: int) -> int
    decreases s.len() - i,
{
    if 0 <= i < s.len() && is_blank(s[i]) {
        blanks_end(s, i + 1)
    } else {
        i
    }
}

/// The position of the quote that closes a string whose body begins at
/// `i`, if there is one.
pub open spec fn string_end(s: Seq<char>, i: int) -> Option<int>
    decreases s.len() - i,
{
    if i < 0 || i >= s.len() {
        None
    } else if s[i] == '"' {
        Some(i)
    } else if s[i] == '\\' {
        if i + 1 < s.len() {
            string_end(s, i + 2)
        } else {
            None
        }
    } else {
        string_end(s, i + 1)
    }
}

/// The number that a digit stands for.
pub open spec fn digit_value(c: char) -> nat {
    (c as int - '0' as int) as nat
}

/// The number that a sequence of digits stands for in base ten.
pub open spec fn decimal_value(digits: Seq<char>) -> nat
    decreases digits.len(),
{
    if digits.len() == 0 {
        0
    } else {
        decimal_value(digits.drop_last()) * 10 + digit_value(digits.last())
    }
}

/// The value that begins at `i`, and where it ends.
pub open spec fn value_at(s: Seq<char>, i: int) -> Result<(ArgumentValueView, int), Violation> {
    if 0 <= i < s.len() && s[i] == '"' {
        match string_end(s, i + 1) {
            Some(end) => Ok((ArgumentValueView::String(s.subrange(i + 1, end)), end + 1)),
            None => Err(Violation::UnterminatedString),
        }
    } else if 0 <= i < s.len() && is_name_start(s[i]) {
        let end = name_end(s, i);
        Ok((ArgumentValueView::Token(s.subrange(i, end)), end))
    } else if 0 <= i < s.len() && is_digit(s[i]) {
        let end = digits_end(s, i);
        let number = decimal_value(s.subrange(i, end));
        if number <= u32::MAX {
            Ok((ArgumentValueView::Integer(number as u32), end))
        } else {
            Err(Violation::IntegerTooLarge)
        }
    } else {
        Err(Violation::ExpectedValue)
    }
}

/// The argument that begins at `i`, and where it ends.
pub open spec fn argument_at(s: Seq<char>, i: int) -> Result<(Entry, int), Violation> {
    if 0 <= i < s.len() && is_name_start(s[i]) {
        let end = name_end(s, i);
        if end < s.len() && s[end] == '=' {
            match value_at(s, end + 1) {
                Ok((value, next)) => Ok(((s.subrange(i, end), value), next)),
                Err(violation) => Err(violation),
            }
        } else {
            Err(Violation::ExpectedEquals)
        }
    } else {
        Err(Violation::ExpectedArgument)
    }
}

/// The arguments of a call of which `found` have been read and the last
/// one ended at `i`: those and the ones that follow, and where the call
/// ends.
pub open spec fn arguments_after(s: Seq<char>, i: int, found: Seq<Entry>) -> Result<
    (Seq<Entry>, int),
    Violation,
>
    decreases s.len() - i,
{
    if 0 <= i < s.len() && s[i] == ')' {
        Ok((found, i + 1))
    } else if 0 <= i < s.len() && s[i] == ',' {
        match argument_at(s, blanks_end(s, i + 1)) {
            Ok((entry, next)) => {
                proof {
                    lemma_ends_in_range(s, i + 1);
                    lemma_argument_in_range(s, blanks_end(s, i + 1));
                }
                arguments_after(s, next, found.push(entry))
            },
            Err(violation) => Err(violation),
        }
    } else {
        Err(Violation::ExpectedCommaOrCloseParen)
    }
}

/// The arguments of a call whose opening bracket stands just before `i`,
/// and where the call ends.
pub open spec fn arguments_at(s: Seq<char>, i: int) -> Result<(Seq<Entry>, int), Violation> {
    if 0 <= i < s.len() && s[i] == ')' {
        Ok((Seq::empty(), i + 1))
    } else {
        match argument_at(s, i) {
            Ok((entry, next)) => arguments_after(s, next, seq![entry]),
            Err(violation) => Err(violation),
        }
    }
}

/// The function call that begins at `i`, and where it ends.
pub open spec fn call_at(s: Seq<char>, i: int) -> Result<(Call, int), Violation> {
    if 0 <= i < s.len() && is_name_start(s[i]) {
        let end = name_end(s, i);
        if end < s.len() && s[end] == '(' {
            match arguments_at(s, end + 1) {
                Ok((entries, next)) => Ok((Call { name: s.subrange(i, end), entries }, next)),
                Err(violation) => Err(violation),
            }
        } else {
            Err(Violation::ExpectedOpenParen)
        }
    } else {
        Err(Violation::ExpectedFunctionName)
    }
}

/// The language of an annotation: what stands before its first comma, or
/// all of it where it has none.
pub open spec fn language_of(s: Seq<char>) -> Seq<char> {
    s.subrange(0, language_end(s, 0))
}

/// Whether a text carries an annotation: it does when a comma ends its
/// language.
pub open spec fn is_annotated(s: Seq<char>) -> bool {
    language_end(s, 0) < s.len()
}

/// Whether a text calls a function after its language: a comma ends the
/// language, a name follows the comma, and an opening bracket the name.
pub open spec fn calls_function(s: Seq<char>) -> bool {
    let start = language_end(s, 0) + 1;
    &&& start < s.len()
    &&& is_name_start(s[start])
    &&& name_end(s, start) < s.len()
    &&& s[name_end(s, start)] == '('
}

/// The function call of an annotation: the one that begins after the
/// first comma.
pub open spec fn annotation_call(s: Seq<char>) -> Result<Call, Violation> {
    let comma = language_end(s, 0);
    if comma >= s.len() {
        Err(Violation::MissingSeparator)
    } else {
        match call_at(s, comma + 1) {
            Ok((call, _)) => Ok(call),
            Err(violation) => Err(violation),
        }
    }
}

/// The end of a run of characters lies between its start and the end of
/// the text.
pub proof fn lemma_ends_in_range(s: Seq<char>, i: int)
    requires
        0 <= i <= s.len(),
    ensures
        i <= language_end(s, i) <= s.len(),
        i <= name_end(s, i) <= s.len(),
        i <= digits_end(s, i) <= s.len(),
        i <= blanks_end(s, i) <= s.len(),
        string_end(s, i) matches Some(end) ==> i <= end < s.len(),
    decreases s.len() - i,
{
    if i < s.len() {
        lemma_ends_in_range(s, i + 1);
        if i + 1 < s.len() {
            lemma_ends_in_range(s, i + 2);
        }
    }
}

/// A value ends after it begins, within the text.
pub proof fn lemma_value_in_range(s: Seq<char>, i: int)
    requires
        0 <= i <= s.len(),
    ensures
        value_at(s, i) matches Ok((_, next)) ==> i < next <= s.len(),
{
    if i < s.len() {
        lemma_ends_in_range(s, i + 1);
    }
}

/// An argument ends after it begins, within the text.
pub proof fn lemma_argument_in_range(s: Seq<char>, i: int)
    requires
        0 <= i <= s.len(),
    ensures
        argument_at(s, i) matches Ok((_, next)) ==> i < next <= s.len(),
{
    if i < s.len() && is_name_start(s[i]) {
        lemma_ends_in_range(s, i + 1);
        let end = name_end(s, i);
        if end < s.len() {
            lemma_value_in_range(s, end + 1);
        }
    }
}

} // verus!
