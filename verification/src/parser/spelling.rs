//! The grammar of annotations as a relation between texts and calls, and
//! the proof that reading decides it: a text is read as a call exactly
//! when it spells that call.

use crate::parser::function_string::ArgumentValueView;
use crate::parser::grammar::{
    annotation_call, argument_at, arguments_after, blanks_end, call_at, calls_function,
    decimal_value, digits_end, is_blank, is_digit, is_name_char, is_name_start, language_end,
    lemma_argument_in_range, lemma_ends_in_range, lemma_value_in_range, name_end, string_end,
    value_at, Call, Entry, Violation,
};
use crate::parser::rendering::{
    at, ends_argument, is_name, is_string_body, lemma_blanks_end,
    lemma_digits_end, lemma_language_end, lemma_name_end, lemma_string_end,
};
use vstd::prelude::*;

verus! {

/// Whether the characters of `s` from `a` up to `b` are all blanks.
pub open spec fn blanks_between(s: Seq<char>, a: int, b: int) -> bool {
    forall|k: int| a <= k < b ==> is_blank(#[trigger] s[k])
}

/// Whether the characters of `s` from `a` up to `b` are all digits.
pub open spec fn digits_between(s: Seq<char>, a: int, b: int) -> bool {
    forall|k: int| a <= k < b ==> is_digit(#[trigger] s[k])
}

/// Whether `s` from `a` up to `b` spells the value `value`: a string is
/// its body between two quotes, a token is a name, and a number is one or
/// more digits that stand for it in base ten.
pub open spec fn value_spelled(s: Seq<char>, a: int, b: int, value: ArgumentValueView) -> bool {
    &&& 0 <= a <= b <= s.len()
    &&& match value {
        ArgumentValueView::String(body) => {
            &&& a + 2 <= b
            &&& s[a] == '"'
            &&& s[b - 1] == '"'
            &&& s.subrange(a + 1, b - 1) == body
            &&& is_string_body(body)
        },
        ArgumentValueView::Token(token) => s.subrange(a, b) == token && is_name(token),
        ArgumentValueView::Integer(number) => {
            &&& a < b
            &&& digits_between(s, a, b)
            &&& decimal_value(s.subrange(a, b)) == number
        },
    }
}

/// Whether `s` from `a` up to `b` spells the argument `entry`: its name,
/// `=`, and its value.
pub open spec fn argument_spelled(s: Seq<char>, a: int, b: int, entry: Entry) -> bool {
    let equals = a + entry.0.len();
    &&& 0 <= a
    &&& equals < b <= s.len()
    &&& is_name(entry.0)
    &&& s.subrange(a, equals) == entry.0
    &&& s[equals] == '='
    &&& value_spelled(s, equals + 1, b, entry.1)
}

/// Whether `s` from `a` up to `b` spells the arguments `entries` after a
/// first one: each after a comma and any number of blanks.
pub open spec fn more_spelled(s: Seq<char>, a: int, b: int, entries: Seq<Entry>) -> bool
    decreases entries.len(),
{
    if entries.len() == 0 {
        a == b
    } else {
        &&& 0 <= a < b <= s.len()
        &&& s[a] == ','
        &&& exists|start: int, end: int|
            {
                &&& a + 1 <= start <= end <= b
                &&& blanks_between(s, a + 1, start)
                &&& #[trigger] argument_spelled(s, start, end, entries[0])
                &&& more_spelled(s, end, b, entries.skip(1))
            }
    }
}

/// Whether `s` from `a` up to `b` spells the arguments `entries`: nothing
/// where there are none, and otherwise the first and then the others.
pub open spec fn arguments_spelled(s: Seq<char>, a: int, b: int, entries: Seq<Entry>) -> bool {
    if entries.len() == 0 {
        a == b
    } else {
        exists|end: int|
            {
                &&& a <= end <= b
                &&& #[trigger] argument_spelled(s, a, end, entries[0])
                &&& more_spelled(s, end, b, entries.skip(1))
            }
    }
}

/// Whether `s` from `a` up to `b` spells the call `call`: its name, and
/// its arguments between brackets.
pub open spec fn call_spelled(s: Seq<char>, a: int, b: int, call: Call) -> bool {
    let open = a + call.name.len();
    &&& 0 <= a
    &&& open + 2 <= b <= s.len()
    &&& is_name(call.name)
    &&& s.subrange(a, open) == call.name
    &&& s[open] == '('
    &&& s[b - 1] == ')'
    &&& arguments_spelled(s, open + 1, b - 1, call.entries)
}

/// Whether `s` is an annotation that spells the call `call`: a language
/// without a comma, a comma, the call, and whatever follows.
pub open spec fn annotation_spelled(s: Seq<char>, call: Call) -> bool {
    exists|comma: int, end: int|
        {
            &&& 0 <= comma < end <= s.len()
            &&& forall|k: int| 0 <= k < comma ==> #[trigger] s[k] != ','
            &&& s[comma] == ','
            &&& #[trigger] call_spelled(s, comma + 1, end, call)
        }
}

/// What a run of characters is made of, and what stops it.
pub proof fn lemma_runs(s: Seq<char>, i: int)
    requires
        0 <= i <= s.len(),
    ensures
        forall|k: int| i <= k < name_end(s, i) ==> is_name_char(#[trigger] s[k]),
        name_end(s, i) < s.len() ==> !is_name_char(s[name_end(s, i)]),
        digits_between(s, i, digits_end(s, i)),
        digits_end(s, i) < s.len() ==> !is_digit(s[digits_end(s, i)]),
        blanks_between(s, i, blanks_end(s, i)),
        blanks_end(s, i) < s.len() ==> !is_blank(s[blanks_end(s, i)]),
        forall|k: int| i <= k < language_end(s, i) ==> #[trigger] s[k] != ',',
        language_end(s, i) < s.len() ==> s[language_end(s, i)] == ',',
    decreases s.len() - i,
{
    if i < s.len() {
        lemma_runs(s, i + 1);
    }
}

/// What stands before the quote that closes a string is the body of a
/// string.
pub proof fn lemma_string_body(s: Seq<char>, i: int)
    requires
        0 <= i <= s.len(),
        string_end(s, i) is Some,
    ensures
        i <= string_end(s, i)->0 < s.len(),
        s[string_end(s, i)->0] == '"',
        is_string_body(s.subrange(i, string_end(s, i)->0)),
    decreases s.len() - i,
{
    let end = string_end(s, i)->0;
    lemma_ends_in_range(s, i);
    let body = s.subrange(i, end);
    if s[i] == '"' {
    } else if s[i] == '\\' {
        lemma_ends_in_range(s, i + 2);
        lemma_string_body(s, i + 2);
        assert(body.skip(2) == s.subrange(i + 2, end));
        assert(body[0] == s[i]);
    } else {
        lemma_ends_in_range(s, i + 1);
        lemma_string_body(s, i + 1);
        assert(body.skip(1) == s.subrange(i + 1, end));
        assert(body[0] == s[i]);
    }
}

/// The characters from the start of a name to its end are a name.
pub proof fn lemma_name_read(s: Seq<char>, i: int)
    requires
        0 <= i < s.len(),
        is_name_start(s[i]),
    ensures
        i < name_end(s, i) <= s.len(),
        is_name(s.subrange(i, name_end(s, i))),
{
    lemma_ends_in_range(s, i + 1);
    lemma_runs(s, i);
    let name = s.subrange(i, name_end(s, i));
    assert(name[0] == s[i]);
    assert forall|k: int| 0 <= k < name.len() implies is_name_char(#[trigger] name[k]) by {
        assert(name[k] == s[i + k]);
    }
}

/// A value that is read is spelled where it was read.
pub proof fn lemma_value_read(s: Seq<char>, i: int)
    requires
        value_at(s, i) is Ok,
    ensures
        value_spelled(s, i, value_at(s, i)->Ok_0.1, value_at(s, i)->Ok_0.0),
{
    lemma_value_in_range(s, i);
    if s[i] == '"' {
        lemma_string_body(s, i + 1);
    } else if is_name_start(s[i]) {
        lemma_name_read(s, i);
    } else {
        lemma_ends_in_range(s, i + 1);
        lemma_runs(s, i);
    }
}

/// An argument that is read is spelled where it was read.
pub proof fn lemma_argument_read(s: Seq<char>, i: int)
    requires
        argument_at(s, i) is Ok,
    ensures
        argument_spelled(s, i, argument_at(s, i)->Ok_0.1, argument_at(s, i)->Ok_0.0),
{
    lemma_name_read(s, i);
    lemma_value_read(s, name_end(s, i) + 1);
    lemma_value_in_range(s, name_end(s, i) + 1);
}

/// The arguments that are read after those found before are spelled
/// where they were read, up to the closing bracket.
pub proof fn lemma_more_read(s: Seq<char>, i: int, found: Seq<Entry>)
    requires
        0 <= i <= s.len(),
        arguments_after(s, i, found) is Ok,
    ensures
        ({
            let (entries, end) = arguments_after(s, i, found)->Ok_0;
            &&& i < end <= s.len()
            &&& s[end - 1] == ')'
            &&& found.len() <= entries.len()
            &&& entries.take(found.len() as int) == found
            &&& more_spelled(s, i, end - 1, entries.skip(found.len() as int))
        }),
    decreases s.len() - i,
{
    let (entries, end) = arguments_after(s, i, found)->Ok_0;
    if s[i] == ')' {
        assert(entries.take(found.len() as int) == found);
        assert(entries.skip(found.len() as int).len() == 0);
    } else {
        let start = blanks_end(s, i + 1);
        lemma_ends_in_range(s, i + 1);
        lemma_runs(s, i + 1);
        lemma_argument_in_range(s, start);
        lemma_argument_read(s, start);
        let (entry, next) = argument_at(s, start)->Ok_0;
        let longer = found.push(entry);
        lemma_more_read(s, next, longer);
        assert(entries.take(found.len() as int) == entries.take(longer.len() as int).take(
            found.len() as int,
        ));
        assert(longer.take(found.len() as int) == found);
        let rest = entries.skip(found.len() as int);
        assert(entries[found.len() as int] == entries.take(longer.len() as int)[found.len() as int]);
        assert(rest[0] == entry);
        assert(rest.skip(1) == entries.skip(longer.len() as int));
        assert(argument_spelled(s, start, next, rest[0]));
    }
}

/// A call that is read is spelled where it was read.
pub proof fn lemma_call_read(s: Seq<char>, i: int)
    requires
        call_at(s, i) is Ok,
    ensures
        call_spelled(s, i, call_at(s, i)->Ok_0.1, call_at(s, i)->Ok_0.0),
{
    lemma_name_read(s, i);
    let open = name_end(s, i);
    let (call, end) = call_at(s, i)->Ok_0;
    if s[open + 1] == ')' {
    } else {
        lemma_argument_in_range(s, open + 1);
        lemma_argument_read(s, open + 1);
        let (entry, next) = argument_at(s, open + 1)->Ok_0;
        lemma_more_read(s, next, seq![entry]);
        assert(call.entries[0] == call.entries.take(1)[0]);
        assert(argument_spelled(s, open + 1, next, call.entries[0]));
    }
}

/// Whatever is read as a call spells that call.
pub proof fn lemma_read_is_spelled(s: Seq<char>)
    requires
        annotation_call(s) is Ok,
    ensures
        annotation_spelled(s, annotation_call(s)->Ok_0),
{
    let comma = language_end(s, 0);
    lemma_ends_in_range(s, 0);
    lemma_runs(s, 0);
    lemma_call_read(s, comma + 1);
    let (call, end) = call_at(s, comma + 1)->Ok_0;
    assert(call_spelled(s, comma + 1, end, call));
}

/// A part of a text stands in the text at its place.
pub proof fn lemma_subrange_at(s: Seq<char>, a: int, b: int)
    requires
        0 <= a <= b <= s.len(),
    ensures
        at(s, a, s.subrange(a, b)),
{
}

/// A value that is spelled, and that a comma or a closing bracket
/// follows, is read.
pub proof fn lemma_value_spelled(s: Seq<char>, a: int, b: int, value: ArgumentValueView)
    requires
        value_spelled(s, a, b, value),
        ends_argument(s, b),
    ensures
        value_at(s, a) == Ok::<(ArgumentValueView, int), Violation>((value, b)),
{
    match value {
        ArgumentValueView::String(body) => {
            lemma_subrange_at(s, a + 1, b - 1);
            lemma_string_end(s, a + 1, body);
        },
        ArgumentValueView::Token(token) => {
            lemma_subrange_at(s, a, b);
            assert(s[a + 0] == token[0]);
            lemma_name_end(s, a, token);
        },
        ArgumentValueView::Integer(number) => {
            let text = s.subrange(a, b);
            lemma_subrange_at(s, a, b);
            assert(is_digit(s[a]));
            assert forall|k: int| 0 <= k < text.len() implies is_digit(#[trigger] text[k]) by {
                assert(is_digit(s[a + k]));
            }
            lemma_digits_end(s, a, text);
        },
    }
}

/// An argument that is spelled, and that a comma or a closing bracket
/// follows, is read.
pub proof fn lemma_argument_spelled(s: Seq<char>, a: int, b: int, entry: Entry)
    requires
        argument_spelled(s, a, b, entry),
        ends_argument(s, b),
    ensures
        argument_at(s, a) == Ok::<(Entry, int), Violation>((entry, b)),
{
    let equals = a + entry.0.len();
    lemma_subrange_at(s, a, equals);
    assert(s[a + 0] == entry.0[0]);
    lemma_name_end(s, a, entry.0);
    lemma_value_spelled(s, equals + 1, b, entry.1);
}

/// Arguments after the first that are spelled, with a closing bracket
/// after them, are read and added to those found before.
pub proof fn lemma_more_spelled(
    s: Seq<char>,
    a: int,
    b: int,
    found: Seq<Entry>,
    entries: Seq<Entry>,
)
    requires
        more_spelled(s, a, b, entries),
        0 <= a <= b < s.len(),
        s[b] == ')',
    ensures
        arguments_after(s, a, found) == Ok::<(Seq<Entry>, int), Violation>(
            (found + entries, b + 1),
        ),
    decreases entries.len(),
{
    if entries.len() == 0 {
        assert(found + entries == found);
    } else {
        let rest = entries.skip(1);
        let (start, end) = choose|start: int, end: int|
            {
                &&& a + 1 <= start <= end <= b
                &&& blanks_between(s, a + 1, start)
                &&& #[trigger] argument_spelled(s, start, end, entries[0])
                &&& more_spelled(s, end, b, rest)
            };
        let gap = s.subrange(a + 1, start);
        lemma_subrange_at(s, a + 1, start);
        assert forall|k: int| 0 <= k < gap.len() implies is_blank(#[trigger] gap[k]) by {
            assert(is_blank(s[a + 1 + k]));
        }
        assert(s.subrange(start, start + entries[0].0.len())[0] == s[start]);
        assert(is_name_start(s[start]));
        lemma_blanks_end(s, a + 1, gap);
        lemma_argument_spelled(s, start, end, entries[0]);
        lemma_more_spelled(s, end, b, found.push(entries[0]), rest);
        assert(found.push(entries[0]) + rest == found + entries);
    }
}

/// A call that is spelled is read.
pub proof fn lemma_call_spelled(s: Seq<char>, a: int, b: int, call: Call)
    requires
        call_spelled(s, a, b, call),
    ensures
        call_at(s, a) == Ok::<(Call, int), Violation>((call, b)),
{
    let open = a + call.name.len();
    lemma_subrange_at(s, a, open);
    assert(s[a + 0] == call.name[0]);
    lemma_name_end(s, a, call.name);
    if call.entries.len() == 0 {
        assert(call.entries == Seq::<Entry>::empty());
    } else {
        let rest = call.entries.skip(1);
        let end = choose|end: int|
            {
                &&& open + 1 <= end <= b - 1
                &&& #[trigger] argument_spelled(s, open + 1, end, call.entries[0])
                &&& more_spelled(s, end, b - 1, rest)
            };
        assert(s.subrange(open + 1, open + 1 + call.entries[0].0.len())[0] == s[open + 1]);
        assert(is_name_start(s[open + 1]));
        lemma_argument_spelled(s, open + 1, end, call.entries[0]);
        lemma_more_spelled(s, end, b - 1, seq![call.entries[0]], rest);
        assert(seq![call.entries[0]] + rest == call.entries);
    }
}

/// Whatever spells a call is read as that call.
pub proof fn lemma_spelled_is_read(s: Seq<char>, call: Call)
    requires
        annotation_spelled(s, call),
    ensures
        annotation_call(s) == Ok::<Call, Violation>(call),
{
    let (comma, end) = choose|comma: int, end: int|
        {
            &&& 0 <= comma < end <= s.len()
            &&& forall|k: int| 0 <= k < comma ==> #[trigger] s[k] != ','
            &&& s[comma] == ','
            &&& #[trigger] call_spelled(s, comma + 1, end, call)
        };
    let language = s.subrange(0, comma);
    lemma_subrange_at(s, 0, comma);
    assert forall|k: int| 0 <= k < language.len() implies #[trigger] language[k] != ',' by {
        assert(language[k] == s[k]);
    }
    lemma_language_end(s, 0, language);
    lemma_call_spelled(s, comma + 1, end, call);
}

/// Reading decides the grammar: a text is read as a call exactly when it
/// spells that call. A text that spells no call is refused, and no text
/// spells two calls.
pub proof fn lemma_reading_decides_spelling(s: Seq<char>, call: Call)
    ensures
        annotation_call(s) == Ok::<Call, Violation>(call) <==> annotation_spelled(s, call),
{
    if annotation_spelled(s, call) {
        lemma_spelled_is_read(s, call);
    }
    if annotation_call(s) == Ok::<Call, Violation>(call) {
        lemma_read_is_spelled(s);
    }
}

/// Whether a violation is one of those that stop reading before the
/// arguments.
pub open spec fn stops_before_arguments(violation: Violation) -> bool {
    ||| violation == Violation::MissingSeparator
    ||| violation == Violation::ExpectedFunctionName
    ||| violation == Violation::ExpectedOpenParen
}

/// Reading the arguments fails for a reason of the arguments alone.
pub proof fn lemma_argument_violations(s: Seq<char>, i: int, found: Seq<Entry>)
    requires
        0 <= i <= s.len(),
    ensures
        arguments_after(s, i, found) matches Err(violation) ==> !stops_before_arguments(violation),
    decreases s.len() - i,
{
    if i < s.len() && s[i] == ',' {
        let start = blanks_end(s, i + 1);
        lemma_ends_in_range(s, i + 1);
        if let Ok((entry, next)) = argument_at(s, start) {
            lemma_argument_in_range(s, start);
            lemma_argument_violations(s, next, found.push(entry));
        }
    }
}

/// A text calls a function exactly when reading it gets as far as the
/// arguments: when it fails neither for want of a comma, nor of a name
/// after it, nor of an opening bracket after the name.
pub proof fn lemma_calls_function(s: Seq<char>)
    ensures
        calls_function(s) <==> !(annotation_call(s) matches Err(violation)
            && stops_before_arguments(violation)),
{
    lemma_ends_in_range(s, 0);
    let start = language_end(s, 0) + 1;
    if start < s.len() && is_name_start(s[start]) {
        lemma_ends_in_range(s, start);
        let open = name_end(s, start);
        if open < s.len() && s[open] == '(' {
            if let Ok((entry, next)) = argument_at(s, open + 1) {
                lemma_argument_in_range(s, open + 1);
                lemma_argument_violations(s, next, seq![entry]);
            }
        }
    }
}

} // verus!
