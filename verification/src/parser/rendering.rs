//! Annotations written out as text, and the proof that the grammar reads
//! them back: every well-formed call, written after any language and
//! followed by any text, parses to itself.

use crate::parser::function_string::ArgumentValueView;
use crate::parser::grammar::{
    annotation_call, argument_at, arguments_after, blanks_end, call_at,
    decimal_value, digit_value, digits_end, is_blank, is_digit, is_name_char, is_name_start,
    language_end, name_end, string_end, value_at, Call, Entry, Violation,
};
use vstd::prelude::*;

verus! {

/// Whether the text `t` stands in `s` at position `i`.
pub open spec fn at(s: Seq<char>, i: int, t: Seq<char>) -> bool {
    &&& 0 <= i
    &&& i + t.len() <= s.len()
    &&& forall|k: int| 0 <= k < t.len() ==> s[i + k] == #[trigger] t[k]
}

/// Whether `s` is a name: a letter or `_`, then letters, digits and `_`.
pub open spec fn is_name(s: Seq<char>) -> bool {
    &&& s.len() > 0
    &&& is_name_start(s[0])
    &&& forall|k: int| 0 <= k < s.len() ==> is_name_char(#[trigger] s[k])
}

/// Whether `s` holds blanks only.
pub open spec fn is_blanks(s: Seq<char>) -> bool {
    forall|k: int| 0 <= k < s.len() ==> is_blank(#[trigger] s[k])
}

/// Whether `s` can stand between the quotes of a string: no `"` but after
/// a `\`, and no `\` at the very end that would take the closing quote.
pub open spec fn is_string_body(s: Seq<char>) -> bool
    decreases s.len(),
{
    if s.len() == 0 {
        true
    } else if s[0] == '"' {
        false
    } else if s[0] == '\\' {
        s.len() >= 2 && is_string_body(s.skip(2))
    } else {
        is_string_body(s.skip(1))
    }
}

/// The ten digits, in order.
pub open spec fn digits() -> Seq<char> {
    seq!['0', '1', '2', '3', '4', '5', '6', '7', '8', '9']
}

/// The number `n` written in base ten, without leading zeros.
pub open spec fn decimal_digits(n: nat) -> Seq<char>
    decreases n,
{
    if n < 10 {
        seq![digits()[n as int]]
    } else {
        decimal_digits(n / 10).push(digits()[(n % 10) as int])
    }
}

/// A value as it is written.
pub open spec fn render_value(value: ArgumentValueView) -> Seq<char> {
    match value {
        ArgumentValueView::String(body) => seq!['"'] + body + seq!['"'],
        ArgumentValueView::Token(token) => token,
        ArgumentValueView::Integer(number) => decimal_digits(number as nat),
    }
}

/// An argument as it is written.
pub open spec fn render_argument(entry: Entry) -> Seq<char> {
    entry.0 + seq!['='] + render_value(entry.1)
}

/// The arguments after the first as they are written: each after a comma
/// and the blanks of `gap`.
pub open spec fn render_more(entries: Seq<Entry>, gap: Seq<char>) -> Seq<char>
    decreases entries.len(),
{
    if entries.len() == 0 {
        Seq::empty()
    } else {
        seq![','] + gap + render_argument(entries[0]) + render_more(entries.skip(1), gap)
    }
}

/// A call as it is written, with the blanks of `gap` after each comma.
pub open spec fn render_call(call: Call, gap: Seq<char>) -> Seq<char> {
    call.name + seq!['('] + (if call.entries.len() == 0 {
        Seq::empty()
    } else {
        render_argument(call.entries[0]) + render_more(call.entries.skip(1), gap)
    }) + seq![')']
}

/// Whether a value can be written: a string needs a body that can stand
/// between quotes, a token has to be a name.
pub open spec fn is_value(value: ArgumentValueView) -> bool {
    match value {
        ArgumentValueView::String(body) => is_string_body(body),
        ArgumentValueView::Token(token) => is_name(token),
        ArgumentValueView::Integer(_) => true,
    }
}

/// Whether a call can be written: its name and the names of its arguments
/// are names, and its values can be written.
pub open spec fn is_call(call: Call) -> bool {
    &&& is_name(call.name)
    &&& forall|k: int|
        0 <= k < call.entries.len() ==> is_name((#[trigger] call.entries[k]).0) && is_value(
            call.entries[k].1,
        )
}

/// A text that stands in `s` is the part of `s` at its place.
pub proof fn lemma_at_subrange(s: Seq<char>, i: int, t: Seq<char>)
    requires
        at(s, i, t),
    ensures
        s.subrange(i, i + t.len()) == t,
{
    assert forall|k: int| 0 <= k < t.len() implies s.subrange(i, i + t.len())[k] == t[k] by {
        assert(s[i + k] == t[k]);
    }
    assert(s.subrange(i, i + t.len()) =~= t);
}

/// Two texts that stand one after the other stand there each.
pub proof fn lemma_at_split(s: Seq<char>, i: int, a: Seq<char>, b: Seq<char>)
    requires
        at(s, i, a + b),
    ensures
        at(s, i, a),
        at(s, i + a.len(), b),
{
    assert forall|k: int| 0 <= k < a.len() implies s[i + k] == #[trigger] a[k] by {
        assert((a + b)[k] == a[k]);
    }
    assert forall|k: int| 0 <= k < b.len() implies s[i + a.len() + k] == #[trigger] b[k] by {
        assert((a + b)[a.len() + k] == b[k]);
    }
}

/// A run of name characters that something else follows ends where that
/// begins.
pub proof fn lemma_name_end(s: Seq<char>, i: int, t: Seq<char>)
    requires
        at(s, i, t),
        forall|k: int| 0 <= k < t.len() ==> is_name_char(#[trigger] t[k]),
        i + t.len() == s.len() || !is_name_char(s[i + t.len()]),
    ensures
        name_end(s, i) == i + t.len(),
    decreases t.len(),
{
    if t.len() > 0 {
        assert(s[i + 0] == t[0]);
        let rest = t.skip(1);
        assert forall|k: int| 0 <= k < rest.len() implies s[i + 1 + k] == #[trigger] rest[k] by {
            assert(rest[k] == t[k + 1]);
        }
        assert forall|k: int| 0 <= k < rest.len() implies is_name_char(#[trigger] rest[k]) by {
            assert(rest[k] == t[k + 1]);
        }
        lemma_name_end(s, i + 1, rest);
    }
}

/// A run of digits that something else follows ends where that begins.
pub proof fn lemma_digits_end(s: Seq<char>, i: int, t: Seq<char>)
    requires
        at(s, i, t),
        forall|k: int| 0 <= k < t.len() ==> is_digit(#[trigger] t[k]),
        i + t.len() == s.len() || !is_digit(s[i + t.len()]),
    ensures
        digits_end(s, i) == i + t.len(),
    decreases t.len(),
{
    if t.len() > 0 {
        assert(s[i + 0] == t[0]);
        let rest = t.skip(1);
        assert forall|k: int| 0 <= k < rest.len() implies s[i + 1 + k] == #[trigger] rest[k] by {
            assert(rest[k] == t[k + 1]);
        }
        assert forall|k: int| 0 <= k < rest.len() implies is_digit(#[trigger] rest[k]) by {
            assert(rest[k] == t[k + 1]);
        }
        lemma_digits_end(s, i + 1, rest);
    }
}

/// A run of blanks that something else follows ends where that begins.
pub proof fn lemma_blanks_end(s: Seq<char>, i: int, t: Seq<char>)
    requires
        at(s, i, t),
        is_blanks(t),
        i + t.len() == s.len() || !is_blank(s[i + t.len()]),
    ensures
        blanks_end(s, i) == i + t.len(),
    decreases t.len(),
{
    if t.len() > 0 {
        assert(s[i + 0] == t[0]);
        let rest = t.skip(1);
        assert forall|k: int| 0 <= k < rest.len() implies s[i + 1 + k] == #[trigger] rest[k] by {
            assert(rest[k] == t[k + 1]);
        }
        assert forall|k: int| 0 <= k < rest.len() implies is_blank(#[trigger] rest[k]) by {
            assert(rest[k] == t[k + 1]);
        }
        lemma_blanks_end(s, i + 1, rest);
    }
}

/// A language without a comma, followed by a comma, ends at that comma.
pub proof fn lemma_language_end(s: Seq<char>, i: int, t: Seq<char>)
    requires
        at(s, i, t),
        forall|k: int| 0 <= k < t.len() ==> #[trigger] t[k] != ',',
        i + t.len() == s.len() || s[i + t.len()] == ',',
    ensures
        language_end(s, i) == i + t.len(),
    decreases t.len(),
{
    if t.len() > 0 {
        assert(s[i + 0] == t[0]);
        let rest = t.skip(1);
        assert forall|k: int| 0 <= k < rest.len() implies s[i + 1 + k] == #[trigger] rest[k] by {
            assert(rest[k] == t[k + 1]);
        }
        assert forall|k: int| 0 <= k < rest.len() implies #[trigger] rest[k] != ',' by {
            assert(rest[k] == t[k + 1]);
        }
        lemma_language_end(s, i + 1, rest);
    }
}

/// The body of a string that a quote follows ends at that quote.
pub proof fn lemma_string_end(s: Seq<char>, i: int, body: Seq<char>)
    requires
        at(s, i, body),
        is_string_body(body),
        i + body.len() < s.len(),
        s[i + body.len()] == '"',
    ensures
        string_end(s, i) == Some(i + body.len()),
    decreases body.len(),
{
    if body.len() > 0 {
        assert(s[i + 0] == body[0]);
        if body[0] == '\\' {
            assert(s[i + 1] == body[1]);
            let rest = body.skip(2);
            assert forall|k: int| 0 <= k < rest.len() implies s[i + 2 + k] == #[trigger] rest[k] by {
                assert(rest[k] == body[k + 2]);
            }
            lemma_string_end(s, i + 2, rest);
        } else {
            let rest = body.skip(1);
            assert forall|k: int| 0 <= k < rest.len() implies s[i + 1 + k] == #[trigger] rest[k] by {
                assert(rest[k] == body[k + 1]);
            }
            lemma_string_end(s, i + 1, rest);
        }
    }
}

/// A number written in base ten is made of digits and stands for itself.
pub proof fn lemma_decimal_digits(n: nat)
    ensures
        decimal_digits(n).len() > 0,
        forall|k: int| 0 <= k < decimal_digits(n).len() ==> is_digit(#[trigger] decimal_digits(n)[k]),
        decimal_value(decimal_digits(n)) == n,
    decreases n,
{
    let last = digits()[(n % 10) as int];
    assert(is_digit(last) && digit_value(last) == n % 10);
    if n < 10 {
        let one = seq![digits()[n as int]];
        assert(one.drop_last() == Seq::<char>::empty());
        assert(decimal_value(one.drop_last()) == 0);
    } else {
        lemma_decimal_digits(n / 10);
        let text = decimal_digits(n);
        assert(text.drop_last() == decimal_digits(n / 10));
        assert(text.last() == last);
    }
}

/// Two texts that stand each at its place, one after the other, stand
/// there as one.
pub proof fn lemma_at_join(s: Seq<char>, i: int, a: Seq<char>, b: Seq<char>)
    requires
        at(s, i, a),
        at(s, i + a.len(), b),
    ensures
        at(s, i, a + b),
{
    assert forall|k: int| 0 <= k < (a + b).len() implies s[i + k] == #[trigger] (a + b)[k] by {
        if k < a.len() {
            assert((a + b)[k] == a[k]);
        } else {
            assert((a + b)[k] == b[k - a.len()]);
            assert(s[i + a.len() + (k - a.len())] == b[k - a.len()]);
        }
    }
}

/// Whether the character at `i` ends an argument: a comma or a closing
/// bracket.
pub open spec fn ends_argument(s: Seq<char>, i: int) -> bool {
    0 <= i < s.len() && (s[i] == ',' || s[i] == ')')
}

/// A value that is written at `i`, and that a comma or a closing bracket
/// follows, is read back.
pub proof fn lemma_value_at(s: Seq<char>, i: int, value: ArgumentValueView)
    requires
        at(s, i, render_value(value)),
        is_value(value),
        ends_argument(s, i + render_value(value).len()),
    ensures
        value_at(s, i) == Ok::<(ArgumentValueView, int), Violation>(
            (value, i + render_value(value).len()),
        ),
{
    let text = render_value(value);
    match value {
        ArgumentValueView::String(body) => {
            assert(s[i + 0] == text[0]);
            assert forall|k: int| 0 <= k < body.len() implies s[i + 1 + k] == #[trigger] body[k] by {
                assert(text[1 + k] == body[k]);
            }
            assert(s[i + (1 + body.len())] == text[1 + body.len() as int]);
            lemma_string_end(s, i + 1, body);
            lemma_at_subrange(s, i + 1, body);
        },
        ArgumentValueView::Token(token) => {
            assert(s[i + 0] == text[0]);
            lemma_name_end(s, i, token);
            lemma_at_subrange(s, i, token);
        },
        ArgumentValueView::Integer(number) => {
            lemma_decimal_digits(number as nat);
            assert(s[i + 0] == text[0]);
            assert(is_digit(text[0]));
            lemma_digits_end(s, i, text);
            lemma_at_subrange(s, i, text);
        },
    }
}

/// An argument that is written at `i`, and that a comma or a closing
/// bracket follows, is read back.
pub proof fn lemma_argument_at(s: Seq<char>, i: int, entry: Entry)
    requires
        at(s, i, render_argument(entry)),
        is_name(entry.0),
        is_value(entry.1),
        ends_argument(s, i + render_argument(entry).len()),
    ensures
        argument_at(s, i) == Ok::<(Entry, int), Violation>(
            (entry, i + render_argument(entry).len()),
        ),
{
    let name = entry.0;
    lemma_at_split(s, i, name + seq!['='], render_value(entry.1));
    lemma_at_split(s, i, name, seq!['=']);
    assert(s[i + 0] == name[0]);
    assert(s[i + name.len() + 0] == seq!['='][0]);
    lemma_name_end(s, i, name);
    lemma_at_subrange(s, i, name);
    lemma_value_at(s, i + name.len() + 1, entry.1);
}

/// The arguments after the first that are written at `i`, with the
/// closing bracket after them, are read back and added to those found
/// before.
pub proof fn lemma_arguments_after(
    s: Seq<char>,
    i: int,
    found: Seq<Entry>,
    entries: Seq<Entry>,
    gap: Seq<char>,
)
    requires
        at(s, i, render_more(entries, gap) + seq![')']),
        is_blanks(gap),
        forall|k: int|
            0 <= k < entries.len() ==> is_name((#[trigger] entries[k]).0) && is_value(
                entries[k].1,
            ),
    ensures
        arguments_after(s, i, found) == Ok::<(Seq<Entry>, int), Violation>(
            (found + entries, i + render_more(entries, gap).len() + 1),
        ),
    decreases entries.len(),
{
    let close = seq![')'];
    lemma_at_split(s, i, render_more(entries, gap), close);
    assert(s[i + render_more(entries, gap).len() + 0] == close[0]);
    if entries.len() == 0 {
        assert(found + entries == found);
    } else {
        let entry = entries[0];
        let rest = entries.skip(1);
        let written = render_argument(entry);
        let more = render_more(rest, gap);
        lemma_at_split(s, i, seq![','] + gap + written, more);
        lemma_at_split(s, i, seq![','] + gap, written);
        lemma_at_split(s, i, seq![','], gap);
        assert(s[i + 0] == seq![','][0]);
        let start = i + 1 + gap.len();
        assert(written[gap.len() - gap.len()] == entry.0[0]);
        assert(s[start + 0] == written[0]);
        lemma_blanks_end(s, i + 1, gap);
        let next = start + written.len();
        lemma_at_join(s, next, more, close);
        assert forall|k: int| 0 <= k < rest.len() implies is_name((#[trigger] rest[k]).0)
            && is_value(rest[k].1) by {
            assert(rest[k] == entries[k + 1]);
        }
        if rest.len() > 0 {
            assert(s[next + 0] == more[0]);
        }
        lemma_argument_at(s, start, entry);
        lemma_arguments_after(s, next, found.push(entry), rest, gap);
        assert(found.push(entry) + rest == found + entries);
    }
}

/// A call that is written at `i` is read back.
pub proof fn lemma_call_at(s: Seq<char>, i: int, call: Call, gap: Seq<char>)
    requires
        at(s, i, render_call(call, gap)),
        is_call(call),
        is_blanks(gap),
    ensures
        call_at(s, i) == Ok::<(Call, int), Violation>((call, i + render_call(call, gap).len())),
{
    let name = call.name;
    let open = seq!['('];
    let close = seq![')'];
    let inside = if call.entries.len() == 0 {
        Seq::<char>::empty()
    } else {
        render_argument(call.entries[0]) + render_more(call.entries.skip(1), gap)
    };
    lemma_at_split(s, i, name + open + inside, close);
    lemma_at_split(s, i, name + open, inside);
    lemma_at_split(s, i, name, open);
    assert(s[i + 0] == name[0]);
    assert(s[i + name.len() + 0] == open[0]);
    lemma_name_end(s, i, name);
    lemma_at_subrange(s, i, name);
    let start = i + name.len() + 1;
    if call.entries.len() == 0 {
        assert(s[start + 0] == close[0]);
        assert(call.entries == Seq::<Entry>::empty());
    } else {
        let entry = call.entries[0];
        let rest = call.entries.skip(1);
        let written = render_argument(entry);
        let more = render_more(rest, gap);
        lemma_at_split(s, start, written, more);
        assert(s[start + 0] == written[0]);
        assert(written[0] == entry.0[0]);
        let next = start + written.len();
        lemma_at_join(s, next, more, close);
        assert forall|k: int| 0 <= k < rest.len() implies is_name((#[trigger] rest[k]).0)
            && is_value(rest[k].1) by {
            assert(rest[k] == call.entries[k + 1]);
        }
        if rest.len() > 0 {
            assert(s[next + 0] == more[0]);
        } else {
            assert(s[next + 0] == close[0]);
        }
        lemma_argument_at(s, start, entry);
        lemma_arguments_after(s, next, seq![entry], rest, gap);
        assert(seq![entry] + rest == call.entries);
    }
}

/// Reading is the inverse of writing: a call that can be written, after
/// any language without a comma, with any blanks after its commas and any
/// text behind it, is read back as it is.
pub proof fn lemma_annotation_read_back(
    language: Seq<char>,
    call: Call,
    gap: Seq<char>,
    rest: Seq<char>,
)
    requires
        forall|k: int| 0 <= k < language.len() ==> #[trigger] language[k] != ',',
        is_call(call),
        is_blanks(gap),
    ensures
        annotation_call(language + seq![','] + render_call(call, gap) + rest) == Ok::<
            Call,
            Violation,
        >(call),
{
    let written = render_call(call, gap);
    let s = language + seq![','] + written + rest;
    assert forall|k: int| 0 <= k < language.len() implies s[0 + k] == #[trigger] language[k] by {}
    assert(s[language.len() as int] == ',');
    lemma_language_end(s, 0, language);
    assert forall|k: int| 0 <= k < written.len() implies s[language.len() + 1 + k]
        == #[trigger] written[k] by {}
    lemma_call_at(s, language.len() as int + 1, call, gap);
}

} // verus!
