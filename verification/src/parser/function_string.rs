//! The function-call syntax of annotations: a name and named arguments.

use crate::assoc::{assoc_map, lemma_assoc_absent, lemma_assoc_last};
use crate::parser::grammar;
use crate::parser::grammar::{Call, Violation};
use crate::text::{str_eq, substring, to_chars};
use vstd::prelude::*;
use vstd::string::*;

verus! {

/// The value of one argument.
#[derive(Debug, PartialEq, Eq)]
pub enum ArgumentValue {
    /// A double-quoted string; holds the text between the quotes.
    String(String),
    /// A bare identifier.
    Token(String),
    /// An unsigned number.
    Integer(u32),
}

/// What an `ArgumentValue` stands for in specifications.
pub enum ArgumentValueView {
    String(Seq<char>),
    Token(Seq<char>),
    Integer(u32),
}

impl View for ArgumentValue {
    type V = ArgumentValueView;

    open spec fn view(&self) -> ArgumentValueView {
        match self {
            ArgumentValue::String(text) => ArgumentValueView::String(text@),
            ArgumentValue::Token(token) => ArgumentValueView::Token(token@),
            ArgumentValue::Integer(number) => ArgumentValueView::Integer(*number),
        }
    }
}

/// One `name=value` pair of a function call.
#[derive(Debug, PartialEq, Eq)]
pub struct Argument {
    pub name: String,
    pub value: ArgumentValue,
}

impl View for Argument {
    type V = (Seq<char>, ArgumentValueView);

    open spec fn view(&self) -> (Seq<char>, ArgumentValueView) {
        (self.name@, self.value@)
    }
}

/// A parsed function call. The arguments are kept in the order in which
/// they were written; where a name was given twice, the later value holds.
#[derive(Debug, PartialEq, Eq)]
pub struct Function {
    pub name: String,
    pub arguments: Vec<Argument>,
}

/// What a `Function` stands for in specifications: its name, and a map
/// from argument names to values.
pub struct FunctionView {
    pub name: Seq<char>,
    pub arguments: Map<Seq<char>, ArgumentValueView>,
}

/// The name and value of each argument, in order.
pub open spec fn argument_entries(arguments: Seq<Argument>) -> Seq<(Seq<char>, ArgumentValueView)> {
    arguments.map_values(|argument: Argument| argument@)
}

impl View for Function {
    type V = FunctionView;

    open spec fn view(&self) -> FunctionView {
        FunctionView {
            name: self.name@,
            arguments: assoc_map(argument_entries(self.arguments@)),
        }
    }
}

/// The function that a call as written amounts to.
pub open spec fn call_function(call: Call) -> FunctionView {
    FunctionView { name: call.name, arguments: assoc_map(call.entries) }
}

/// The outcome of parsing as the grammar states it: the call as written,
/// or the rule that the text breaks.
pub open spec fn parsed(result: Result<Function, Violation>) -> Result<Call, Violation> {
    match result {
        Ok(function) => Ok(function.syntax()),
        Err(violation) => Err(violation),
    }
}

impl Function {
    /// The call as it was written: the name, and the arguments in order.
    pub open spec fn syntax(&self) -> Call {
        Call { name: self.name@, entries: argument_entries(self.arguments@) }
    }

    /// The value of the argument called `name`, if the call has one.
    pub fn get(&self, name: &str) -> (value: Option<&ArgumentValue>)
        ensures
            match value {
                Some(value) => self@.arguments.contains_key(name@) && self@.arguments[name@]
                    == value@,
                None => !self@.arguments.contains_key(name@),
            },
    {
        let ghost entries = argument_entries(self.arguments@);
        let mut i: usize = self.arguments.len();
        while i > 0
            invariant
                0 <= i <= self.arguments.len(),
                entries == argument_entries(self.arguments@),
                forall|j: int| i <= j < entries.len() ==> (#[trigger] entries[j]).0 != name@,
            decreases i,
        {
            i -= 1;
            assert(entries[i as int] == self.arguments[i as int]@);
            if str_eq(self.arguments[i].name.as_str(), name) {
                proof {
                    lemma_assoc_last(entries, name@, i as int);
                }
                return Some(&self.arguments[i].value);
            }
        }
        proof {
            lemma_assoc_absent(entries, name@);
        }
        None
    }

    /// Whether the call has an argument called `name`.
    pub fn has_argument(&self, name: &str) -> (present: bool)
        ensures
            present == self@.arguments.contains_key(name@),
    {
        self.get(name).is_some()
    }
}

/// The sentence that describes a violation.
pub open spec fn description(violation: Violation) -> Seq<char> {
    match violation {
        Violation::MissingSeparator => "expected ',' after the language"@,
        Violation::ExpectedFunctionName => "expected the name of a function"@,
        Violation::ExpectedOpenParen => "expected '(' after the name of the function"@,
        Violation::ExpectedArgument => "expected the name of an argument"@,
        Violation::ExpectedEquals => "expected '=' after the name of the argument"@,
        Violation::ExpectedValue => "expected a string, a token or a number"@,
        Violation::UnterminatedString => "expected '\"' at the end of the string"@,
        Violation::IntegerTooLarge => "expected a number of at most 32 bits"@,
        Violation::ExpectedCommaOrCloseParen => "expected ',' or ')' after the argument"@,
    }
}

/// The sentence that describes `violation`.
pub fn describe(violation: Violation) -> (text: String)
    ensures
        text@ == description(violation),
{
    match violation {
        Violation::MissingSeparator => String::from_str("expected ',' after the language"),
        Violation::ExpectedFunctionName => String::from_str("expected the name of a function"),
        Violation::ExpectedOpenParen => String::from_str(
            "expected '(' after the name of the function",
        ),
        Violation::ExpectedArgument => String::from_str("expected the name of an argument"),
        Violation::ExpectedEquals => String::from_str(
            "expected '=' after the name of the argument",
        ),
        Violation::ExpectedValue => String::from_str("expected a string, a token or a number"),
        Violation::UnterminatedString => String::from_str(
            "expected '\"' at the end of the string",
        ),
        Violation::IntegerTooLarge => String::from_str("expected a number of at most 32 bits"),
        Violation::ExpectedCommaOrCloseParen => String::from_str(
            "expected ',' or ')' after the argument",
        ),
    }
}

fn is_digit(c: char) -> (yes: bool)
    ensures
        yes == grammar::is_digit(c),
{
    '0' <= c && c <= '9'
}

fn is_name_start(c: char) -> (yes: bool)
    ensures
        yes == grammar::is_name_start(c),
{
    ('a' <= c && c <= 'z') || ('A' <= c && c <= 'Z') || c == '_'
}

fn is_name_char(c: char) -> (yes: bool)
    ensures
        yes == grammar::is_name_char(c),
{
    is_name_start(c) || is_digit(c)
}

fn is_blank(c: char) -> (yes: bool)
    ensures
        yes == grammar::is_blank(c),
{
    c == ' ' || c == '\t'
}

/// Where the language that begins at `start` ends.
fn scan_language(chars: &Vec<char>, start: usize) -> (end: usize)
    requires
        start <= chars.len(),
    ensures
        end == grammar::language_end(chars@, start as int),
        start <= end <= chars.len(),
{
    let mut i = start;
    while i < chars.len() && chars[i] != ','
        invariant
            start <= i <= chars.len(),
            grammar::language_end(chars@, start as int) == grammar::language_end(chars@, i as int),
        decreases chars.len() - i,
    {
        i += 1;
    }
    i
}

/// Where the characters of a name end that begin at `start`.
fn scan_name(chars: &Vec<char>, start: usize) -> (end: usize)
    requires
        start <= chars.len(),
    ensures
        end == grammar::name_end(chars@, start as int),
        start <= end <= chars.len(),
{
    let mut i = start;
    while i < chars.len() && is_name_char(chars[i])
        invariant
            start <= i <= chars.len(),
            grammar::name_end(chars@, start as int) == grammar::name_end(chars@, i as int),
        decreases chars.len() - i,
    {
        i += 1;
    }
    i
}

/// Where the digits end that begin at `start`.
fn scan_digits(chars: &Vec<char>, start: usize) -> (end: usize)
    requires
        start <= chars.len(),
    ensures
        end == grammar::digits_end(chars@, start as int),
        start <= end <= chars.len(),
        forall|k: int| start <= k < end ==> grammar::is_digit(#[trigger] chars@[k]),
{
    let mut i = start;
    while i < chars.len() && is_digit(chars[i])
        invariant
            start <= i <= chars.len(),
            grammar::digits_end(chars@, start as int) == grammar::digits_end(chars@, i as int),
            forall|k: int| start <= k < i ==> grammar::is_digit(#[trigger] chars@[k]),
        decreases chars.len() - i,
    {
        i += 1;
    }
    i
}

/// Where the blanks end that begin at `start`.
fn scan_blanks(chars: &Vec<char>, start: usize) -> (end: usize)
    requires
        start <= chars.len(),
    ensures
        end == grammar::blanks_end(chars@, start as int),
        start <= end <= chars.len(),
{
    let mut i = start;
    while i < chars.len() && is_blank(chars[i])
        invariant
            start <= i <= chars.len(),
            grammar::blanks_end(chars@, start as int) == grammar::blanks_end(chars@, i as int),
        decreases chars.len() - i,
    {
        i += 1;
    }
    i
}

/// The position of the quote that closes a string whose body begins at
/// `start`.
fn scan_string(chars: &Vec<char>, start: usize) -> (end: Option<usize>)
    requires
        start <= chars.len(),
    ensures
        match end {
            Some(end) => grammar::string_end(chars@, start as int) == Some(end as int) && start
                <= end < chars.len(),
            None => grammar::string_end(chars@, start as int) is None,
        },
{
    let mut i = start;
    loop
        invariant
            start <= i <= chars.len(),
            grammar::string_end(chars@, start as int) == grammar::string_end(chars@, i as int),
        decreases chars.len() - i,
    {
        if i >= chars.len() {
            return None;
        }
        let c = chars[i];
        if c == '"' {
            return Some(i);
        }
        if c == '\\' {
            if i + 1 < chars.len() {
                i += 2;
            } else {
                return None;
            }
        } else {
            i += 1;
        }
    }
}

/// A number is at least what its leading digits alone stand for.
proof fn lemma_decimal_grows(digits: Seq<char>, k: int)
    requires
        0 <= k <= digits.len(),
    ensures
        grammar::decimal_value(digits.take(k)) <= grammar::decimal_value(digits),
    decreases digits.len(),
{
    if k < digits.len() {
        lemma_decimal_grows(digits.drop_last(), k);
        assert(digits.drop_last().take(k) == digits.take(k));
    } else {
        assert(digits.take(k) == digits);
    }
}

/// The number that the digits from `from` up to `to` stand for, if it fits
/// in 32 bits.
fn decimal(chars: &Vec<char>, from: usize, to: usize) -> (number: Option<u32>)
    requires
        from <= to <= chars.len(),
        forall|k: int| from <= k < to ==> grammar::is_digit(#[trigger] chars@[k]),
    ensures
        match number {
            Some(number) => grammar::decimal_value(chars@.subrange(from as int, to as int))
                == number,
            None => grammar::decimal_value(chars@.subrange(from as int, to as int)) > u32::MAX,
        },
{
    let ghost digits = chars@.subrange(from as int, to as int);
    let mut total: u64 = 0;
    let mut i = from;
    while i < to
        invariant
            from <= i <= to <= chars.len(),
            digits == chars@.subrange(from as int, to as int),
            forall|k: int| from <= k < to ==> grammar::is_digit(#[trigger] chars@[k]),
            total == grammar::decimal_value(digits.take(i - from)),
            total <= u32::MAX,
        decreases to - i,
    {
        let c = chars[i];
        assert(grammar::is_digit(chars@[i as int]));
        let digit: u64 = (c as u32 - '0' as u32) as u64;
        proof {
            let longer = digits.take(i - from + 1);
            assert(longer.drop_last() == digits.take(i - from));
            assert(longer.last() == c);
            assert(grammar::decimal_value(longer) == total * 10 + digit);
            lemma_decimal_grows(digits, i - from + 1);
        }
        total = total * 10 + digit;
        if total > 0xffff_ffff {
            return None;
        }
        i += 1;
    }
    assert(digits.take(to - from) == digits);
    Some(total as u32)
}

/// The value that begins at `i`, and where it ends.
fn parse_value(text: &str, chars: &Vec<char>, i: usize) -> (result: Result<
    (ArgumentValue, usize),
    Violation,
>)
    requires
        chars@ == text@,
        i <= chars.len(),
    ensures
        match result {
            Ok((value, next)) => grammar::value_at(chars@, i as int) == Ok::<
                (ArgumentValueView, int),
                Violation,
            >((value@, next as int)) && i < next <= chars.len(),
            Err(violation) => grammar::value_at(chars@, i as int) == Err::<
                (ArgumentValueView, int),
                Violation,
            >(violation),
        },
{
    if i < chars.len() && chars[i] == '"' {
        match scan_string(chars, i + 1) {
            Some(end) => Ok((ArgumentValue::String(substring(text, i + 1, end)), end + 1)),
            None => Err(Violation::UnterminatedString),
        }
    } else if i < chars.len() && is_name_start(chars[i]) {
        let end = scan_name(chars, i);
        proof {
            grammar::lemma_ends_in_range(chars@, i + 1);
        }
        Ok((ArgumentValue::Token(substring(text, i, end)), end))
    } else if i < chars.len() && is_digit(chars[i]) {
        let end = scan_digits(chars, i);
        proof {
            grammar::lemma_ends_in_range(chars@, i + 1);
        }
        match decimal(chars, i, end) {
            Some(number) => Ok((ArgumentValue::Integer(number), end)),
            None => Err(Violation::IntegerTooLarge),
        }
    } else {
        Err(Violation::ExpectedValue)
    }
}

/// The argument that begins at `i`, and where it ends.
fn parse_argument(text: &str, chars: &Vec<char>, i: usize) -> (result: Result<
    (Argument, usize),
    Violation,
>)
    requires
        chars@ == text@,
        i <= chars.len(),
    ensures
        match result {
            Ok((argument, next)) => grammar::argument_at(chars@, i as int) == Ok::<
                (grammar::Entry, int),
                Violation,
            >((argument@, next as int)) && i < next <= chars.len(),
            Err(violation) => grammar::argument_at(chars@, i as int) == Err::<
                (grammar::Entry, int),
                Violation,
            >(violation),
        },
{
    if i < chars.len() && is_name_start(chars[i]) {
        let end = scan_name(chars, i);
        if end < chars.len() && chars[end] == '=' {
            let (value, next) = parse_value(text, chars, end + 1)?;
            Ok((Argument { name: substring(text, i, end), value }, next))
        } else {
            Err(Violation::ExpectedEquals)
        }
    } else {
        Err(Violation::ExpectedArgument)
    }
}

/// The arguments of a call whose opening bracket stands just before `i`,
/// and where the call ends.
fn parse_arguments(text: &str, chars: &Vec<char>, i: usize) -> (result: Result<
    (Vec<Argument>, usize),
    Violation,
>)
    requires
        chars@ == text@,
        i <= chars.len(),
    ensures
        match result {
            Ok((arguments, next)) => grammar::arguments_at(chars@, i as int) == Ok::<
                (Seq<grammar::Entry>, int),
                Violation,
            >((argument_entries(arguments@), next as int)) && next <= chars.len(),
            Err(violation) => grammar::arguments_at(chars@, i as int) == Err::<
                (Seq<grammar::Entry>, int),
                Violation,
            >(violation),
        },
{
    let mut arguments: Vec<Argument> = Vec::new();
    if i < chars.len() && chars[i] == ')' {
        assert(argument_entries(arguments@) == Seq::<grammar::Entry>::empty());
        return Ok((arguments, i + 1));
    }
    let (first, after_first) = parse_argument(text, chars, i)?;
    arguments.push(first);
    assert(argument_entries(arguments@) == seq![first@]);
    let mut at = after_first;
    loop
        invariant
            chars@ == text@,
            at <= chars.len(),
            grammar::arguments_at(chars@, i as int) == grammar::arguments_after(
                chars@,
                at as int,
                argument_entries(arguments@),
            ),
        decreases chars.len() - at,
    {
        if at < chars.len() && chars[at] == ')' {
            return Ok((arguments, at + 1));
        }
        if at < chars.len() && chars[at] == ',' {
            let start = scan_blanks(chars, at + 1);
            let ghost before = argument_entries(arguments@);
            let (argument, next) = parse_argument(text, chars, start)?;
            arguments.push(argument);
            assert(argument_entries(arguments@) == before.push(argument@));
            at = next;
        } else {
            return Err(Violation::ExpectedCommaOrCloseParen);
        }
    }
}

/// The function call that begins at `i`, and where it ends.
fn parse_call(text: &str, chars: &Vec<char>, i: usize) -> (result: Result<
    (Function, usize),
    Violation,
>)
    requires
        chars@ == text@,
        i <= chars.len(),
    ensures
        match result {
            Ok((function, next)) => grammar::call_at(chars@, i as int) == Ok::<
                (Call, int),
                Violation,
            >((function.syntax(), next as int)) && next <= chars.len(),
            Err(violation) => grammar::call_at(chars@, i as int) == Err::<(Call, int), Violation>(
                violation,
            ),
        },
{
    if i < chars.len() && is_name_start(chars[i]) {
        let end = scan_name(chars, i);
        if end < chars.len() && chars[end] == '(' {
            let (arguments, next) = parse_arguments(text, chars, end + 1)?;
            Ok((Function { name: substring(text, i, end), arguments }, next))
        } else {
            Err(Violation::ExpectedOpenParen)
        }
    } else {
        Err(Violation::ExpectedFunctionName)
    }
}

/// Parses the function call that `input` begins with. What follows the
/// call is not looked at.
pub fn parse(input: &str) -> (result: Result<Function, Violation>)
    ensures
        parsed(result) == match grammar::call_at(input@, 0) {
            Ok((call, _)) => Ok::<Call, Violation>(call),
            Err(violation) => Err(violation),
        },
{
    let chars = to_chars(input);
    let (function, _) = parse_call(input, &chars, 0)?;
    Ok(function)
}

/// Parses the function call of an annotation: the one that follows the
/// first comma of `input`.
pub fn parse_annotation(input: &str) -> (result: Result<Function, Violation>)
    ensures
        parsed(result) == grammar::annotation_call(input@),
{
    let chars = to_chars(input);
    let comma = scan_language(&chars, 0);
    if comma >= chars.len() {
        return Err(Violation::MissingSeparator);
    }
    let (function, _) = parse_call(input, &chars, comma + 1)?;
    Ok(function)
}

/// Whether `input` carries an annotation: whether it has a comma.
pub fn annotated(input: &str) -> (yes: bool)
    ensures
        yes == grammar::is_annotated(input@),
{
    let chars = to_chars(input);
    scan_language(&chars, 0) < chars.len()
}

/// Whether `input` calls a function after its language: whether a name
/// and an opening bracket follow its first comma.
pub fn calls_function(input: &str) -> (yes: bool)
    ensures
        yes == grammar::calls_function(input@),
{
    let chars = to_chars(input);
    let comma = scan_language(&chars, 0);
    if comma >= chars.len() {
        return false;
    }
    let start = comma + 1;
    if start >= chars.len() || !is_name_start(chars[start]) {
        return false;
    }
    let end = scan_name(&chars, start);
    end < chars.len() && chars[end] == '('
}

/// The language of an annotation: what stands before the first comma of
/// `input`, or all of it where it has none.
pub fn language(input: &str) -> (tag: String)
    ensures
        tag@ == grammar::language_of(input@),
{
    let chars = to_chars(input);
    let end = scan_language(&chars, 0);
    substring(input, 0, end)
}

} // verus!
