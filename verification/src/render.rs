//! The raw and the pretty rendering of records: the record's name, then its
//! fields by name between braces. The raw rendering stays on one line; the
//! pretty rendering puts each field on a line of its own, indented by four
//! spaces for every level of nesting.

use vstd::prelude::*;

use crate::text::{bool_text, decimal, push_bool, push_decimal, push_str};

verus! {

/// How one character of a text is written between double quotes: a
/// backslash goes before a double quote and before a backslash, and a line
/// feed, a carriage return and a tab are written as a backslash and a letter.
pub open spec fn escaped_char(c: char) -> Seq<char> {
    if c == '"' {
        seq!['\\', '"']
    } else if c == '\\' {
        seq!['\\', '\\']
    } else if c == '\n' {
        seq!['\\', 'n']
    } else if c == '\r' {
        seq!['\\', 'r']
    } else if c == '\t' {
        seq!['\\', 't']
    } else {
        seq![c]
    }
}

/// A text with each of its characters escaped.
pub open spec fn escaped(s: Seq<char>) -> Seq<char>
    decreases s.len(),
{
    if s.len() == 0 {
        Seq::empty()
    } else {
        escaped(s.drop_last()) + escaped_char(s.last())
    }
}

/// A text between double quotes, escaped.
pub open spec fn quoted(s: Seq<char>) -> Seq<char> {
    seq!['"'] + escaped(s) + seq!['"']
}

/// The start of a field: in the pretty rendering a new line and the
/// indentation of the fields; in the raw rendering a space, after a comma
/// unless the field is the first. Then the field's name and a colon.
pub open spec fn field_start(name: Seq<char>, first: bool, pretty: bool, indent: Seq<char>) -> Seq<
    char,
> {
    if pretty {
        seq!['\n'] + indent + seq![' ', ' ', ' ', ' '] + name + seq![':', ' ']
    } else if first {
        seq![' '] + name + seq![':', ' ']
    } else {
        seq![',', ' '] + name + seq![':', ' ']
    }
}

/// The end of a field: a comma in the pretty rendering, nothing in the raw
/// one.
pub open spec fn field_end(pretty: bool) -> Seq<char> {
    if pretty {
        seq![',']
    } else {
        Seq::empty()
    }
}

/// A field of a record: its start, its value and its end.
pub open spec fn field_text(
    name: Seq<char>,
    value: Seq<char>,
    first: bool,
    pretty: bool,
    indent: Seq<char>,
) -> Seq<char> {
    field_start(name, first, pretty, indent) + value + field_end(pretty)
}

/// The start of a record: its name and an opening brace.
pub open spec fn record_start(name: Seq<char>) -> Seq<char> {
    name + seq![' ', '{']
}

/// The end of a record: the closing brace, on a line of its own in the
/// pretty rendering.
pub open spec fn record_end(pretty: bool, indent: Seq<char>) -> Seq<char> {
    if pretty {
        seq!['\n'] + indent + seq!['}']
    } else {
        seq![' ', '}']
    }
}

/// The indentation one level below `indent`.
pub open spec fn deeper(indent: Seq<char>) -> Seq<char> {
    indent + seq![' ', ' ', ' ', ' ']
}

/// A value that is present: `Some(` and `)` around it, the value on a line
/// of its own in the pretty rendering.
pub open spec fn some_text(value: Seq<char>, pretty: bool, indent: Seq<char>) -> Seq<char> {
    if pretty {
        seq!['S', 'o', 'm', 'e', '(', '\n'] + deeper(indent) + value + seq![',', '\n'] + indent
            + seq![')']
    } else {
        seq!['S', 'o', 'm', 'e', '('] + value + seq![')']
    }
}

/// A value that is absent.
pub open spec fn none_text() -> Seq<char> {
    seq!['N', 'o', 'n', 'e']
}

/// An optional text: absent, or present and quoted.
pub open spec fn optional_text(value: Option<String>, pretty: bool, indent: Seq<char>) -> Seq<
    char,
> {
    match value {
        Some(text) => some_text(quoted(text@), pretty, indent),
        None => none_text(),
    }
}

/// An optional number: absent, or present.
pub open spec fn optional_number_text(value: Option<u64>, pretty: bool, indent: Seq<char>) -> Seq<
    char,
> {
    match value {
        Some(n) => some_text(decimal(n as nat), pretty, indent),
        None => none_text(),
    }
}

/// `s` holds no line feed.
pub open spec fn one_line(s: Seq<char>) -> bool {
    forall|i: int| 0 <= i < s.len() ==> #[trigger] s[i] != '\n'
}

/// Appends `s` to `out`, escaped and between double quotes.
pub fn push_quoted(out: &mut String, s: &str)
    ensures
        final(out)@ == old(out)@ + quoted(s@),
{
    out.push('"');
    for c in it: s.chars()
        invariant
            it.seq() == s@,
            out@ == old(out)@ + seq!['"'] + escaped(s@.take(it.index() as int)),
    {
        let ghost before = s@.take(it.index() as int);
        let ghost after = s@.take(it.index() + 1);
        assert(after.drop_last() =~= before);
        assert(after.last() == c);
        if c == '"' {
            out.push('\\');
            out.push('"');
        } else if c == '\\' {
            out.push('\\');
            out.push('\\');
        } else if c == '\n' {
            out.push('\\');
            out.push('n');
        } else if c == '\r' {
            out.push('\\');
            out.push('r');
        } else if c == '\t' {
            out.push('\\');
            out.push('t');
        } else {
            out.push(c);
        }
        assert(out@ =~= old(out)@ + seq!['"'] + escaped(after));
    }
    assert(s@.take(s@.len() as int) =~= s@);
    out.push('"');
    assert(out@ =~= old(out)@ + quoted(s@));
}

/// Appends the start of a record named `name`.
pub fn push_record_start(out: &mut String, name: &str)
    ensures
        final(out)@ == old(out)@ + record_start(name@),
{
    push_str(out, name);
    out.push(' ');
    out.push('{');
    assert(out@ =~= old(out)@ + record_start(name@));
}

/// Appends the start of the field `name`.
pub fn push_field_start(out: &mut String, name: &str, first: bool, pretty: bool, indent: &str)
    ensures
        final(out)@ == old(out)@ + field_start(name@, first, pretty, indent@),
{
    if pretty {
        out.push('\n');
        push_str(out, indent);
        out.push(' ');
        out.push(' ');
        out.push(' ');
        out.push(' ');
    } else if first {
        out.push(' ');
    } else {
        out.push(',');
        out.push(' ');
    }
    push_str(out, name);
    out.push(':');
    out.push(' ');
    assert(out@ =~= old(out)@ + field_start(name@, first, pretty, indent@));
}

/// Appends the end of a field.
pub fn push_field_end(out: &mut String, pretty: bool)
    ensures
        final(out)@ == old(out)@ + field_end(pretty),
{
    if pretty {
        out.push(',');
    }
    assert(out@ =~= old(out)@ + field_end(pretty));
}

/// Appends the end of a record.
pub fn push_record_end(out: &mut String, pretty: bool, indent: &str)
    ensures
        final(out)@ == old(out)@ + record_end(pretty, indent@),
{
    if pretty {
        out.push('\n');
        push_str(out, indent);
        out.push('}');
    } else {
        out.push(' ');
        out.push('}');
    }
    assert(out@ =~= old(out)@ + record_end(pretty, indent@));
}

/// The indentation one level below `indent`.
pub fn indent_deeper(indent: &str) -> (r: String)
    ensures
        r@ == deeper(indent@),
{
    let mut r = String::new();
    push_str(&mut r, indent);
    r.push(' ');
    r.push(' ');
    r.push(' ');
    r.push(' ');
    assert(r@ =~= deeper(indent@));
    r
}

/// Appends what opens a value that is present.
pub fn push_some_start(out: &mut String, pretty: bool, indent: &str)
    ensures
        final(out)@ == old(out)@ + if pretty {
            seq!['S', 'o', 'm', 'e', '(', '\n'] + deeper(indent@)
        } else {
            seq!['S', 'o', 'm', 'e', '(']
        },
{
    out.push('S');
    out.push('o');
    out.push('m');
    out.push('e');
    out.push('(');
    if pretty {
        out.push('\n');
        push_str(out, indent);
        out.push(' ');
        out.push(' ');
        out.push(' ');
        out.push(' ');
        assert(out@ =~= old(out)@ + (seq!['S', 'o', 'm', 'e', '(', '\n'] + deeper(indent@)));
    } else {
        assert(out@ =~= old(out)@ + seq!['S', 'o', 'm', 'e', '(']);
    }
}

/// Appends what closes a value that is present.
pub fn push_some_end(out: &mut String, pretty: bool, indent: &str)
    ensures
        final(out)@ == old(out)@ + if pretty {
            seq![',', '\n'] + indent@ + seq![')']
        } else {
            seq![')']
        },
{
    if pretty {
        out.push(',');
        out.push('\n');
        push_str(out, indent);
        out.push(')');
        assert(out@ =~= old(out)@ + (seq![',', '\n'] + indent@ + seq![')']));
    } else {
        out.push(')');
        assert(out@ =~= old(out)@ + seq![')']);
    }
}

/// Appends an optional text: `None`, or the quoted text inside `Some(..)`.
pub fn push_optional_text(out: &mut String, value: &Option<String>, pretty: bool, indent: &str)
    ensures
        final(out)@ == old(out)@ + optional_text(*value, pretty, indent@),
{
    match value {
        Some(text) => {
            push_some_start(out, pretty, indent);
            push_quoted(out, text.as_str());
            push_some_end(out, pretty, indent);
            assert(out@ =~= old(out)@ + some_text(quoted(text@), pretty, indent@));
        },
        None => {
            out.push('N');
            out.push('o');
            out.push('n');
            out.push('e');
            assert(out@ =~= old(out)@ + none_text());
        },
    }
}

/// Appends an optional number: `None`, or the number inside `Some(..)`.
pub fn push_optional_number(out: &mut String, value: Option<u64>, pretty: bool, indent: &str)
    ensures
        final(out)@ == old(out)@ + optional_number_text(value, pretty, indent@),
{
    match value {
        Some(n) => {
            push_some_start(out, pretty, indent);
            push_decimal(out, n);
            push_some_end(out, pretty, indent);
            assert(out@ =~= old(out)@ + some_text(decimal(n as nat), pretty, indent@));
        },
        None => {
            out.push('N');
            out.push('o');
            out.push('n');
            out.push('e');
            assert(out@ =~= old(out)@ + none_text());
        },
    }
}

/// One field of a record, with its value already rendered.
pub struct DebugField {
    /// The name of the field.
    pub name: &'static str,
    /// The rendering of the field's value.
    pub value: String,
}

impl View for DebugField {
    type V = (Seq<char>, Seq<char>);

    open spec fn view(&self) -> (Seq<char>, Seq<char>) {
        (self.name@, self.value@)
    }
}

/// The names and rendered values of `fields`, in order.
pub open spec fn field_views(fields: Seq<DebugField>) -> Seq<(Seq<char>, Seq<char>)> {
    Seq::new(fields.len(), |i: int| fields[i]@)
}

/// The fields of a record, one after the other.
pub open spec fn fields_text(
    fields: Seq<(Seq<char>, Seq<char>)>,
    pretty: bool,
    indent: Seq<char>,
) -> Seq<char>
    decreases fields.len(),
{
    if fields.len() == 0 {
        Seq::empty()
    } else {
        fields_text(fields.drop_last(), pretty, indent) + field_text(
            fields.last().0,
            fields.last().1,
            fields.len() == 1,
            pretty,
            indent,
        )
    }
}

/// A record: its name, then its fields between braces.
pub open spec fn record_text(
    name: Seq<char>,
    fields: Seq<(Seq<char>, Seq<char>)>,
    pretty: bool,
    indent: Seq<char>,
) -> Seq<char> {
    record_start(name) + fields_text(fields, pretty, indent) + record_end(pretty, indent)
}

/// The rendering of the record `name` with the fields `fields`.
pub fn render_record(name: &str, fields: &Vec<DebugField>, pretty: bool, indent: &str) -> (r:
    String)
    ensures
        r@ == record_text(name@, field_views(fields@), pretty, indent@),
{
    let mut out = String::new();
    push_record_start(&mut out, name);
    let ghost views = field_views(fields@);
    let mut i: usize = 0;
    while i < fields.len()
        invariant
            i <= fields.len(),
            views == field_views(fields@),
            out@ == record_start(name@) + fields_text(views.take(i as int), pretty, indent@),
        decreases fields.len() - i,
    {
        let ghost before = views.take(i as int);
        let ghost after = views.take(i + 1);
        assert(after.drop_last() =~= before);
        assert(after.last() == fields@[i as int]@);
        let ghost start = out@;
        push_field_start(&mut out, fields[i].name, i == 0, pretty, indent);
        push_str(&mut out, fields[i].value.as_str());
        push_field_end(&mut out, pretty);
        assert(out@ =~= start + field_text(
            fields@[i as int].name@,
            fields@[i as int].value@,
            i == 0,
            pretty,
            indent@,
        ));
        assert(out@ =~= record_start(name@) + fields_text(after, pretty, indent@));
        i += 1;
    }
    assert(views.take(fields.len() as int) =~= views);
    push_record_end(&mut out, pretty, indent);
    out
}

/// A field whose value is a number.
pub fn number_field(name: &'static str, value: u64) -> (r: DebugField)
    ensures
        r@ == (name@, decimal(value as nat)),
{
    let mut text = String::new();
    push_decimal(&mut text, value);
    assert(text@ =~= decimal(value as nat));
    DebugField { name, value: text }
}

/// A field whose value is a truth value.
pub fn flag_field(name: &'static str, value: bool) -> (r: DebugField)
    ensures
        r@ == (name@, bool_text(value)),
{
    let mut text = String::new();
    push_bool(&mut text, value);
    assert(text@ =~= bool_text(value));
    DebugField { name, value: text }
}

/// A field whose value is a text, which is quoted.
pub fn text_field(name: &'static str, value: &str) -> (r: DebugField)
    ensures
        r@ == (name@, quoted(value@)),
{
    let mut text = String::new();
    push_quoted(&mut text, value);
    assert(text@ =~= quoted(value@));
    DebugField { name, value: text }
}

/// A field whose value is an optional text.
pub fn optional_text_field(
    name: &'static str,
    value: &Option<String>,
    pretty: bool,
    indent: &str,
) -> (r: DebugField)
    ensures
        r@ == (name@, optional_text(*value, pretty, indent@)),
{
    let mut text = String::new();
    push_optional_text(&mut text, value, pretty, indent);
    assert(text@ =~= optional_text(*value, pretty, indent@));
    DebugField { name, value: text }
}

/// A field whose value is an optional number.
pub fn optional_number_field(
    name: &'static str,
    value: Option<u64>,
    pretty: bool,
    indent: &str,
) -> (r: DebugField)
    ensures
        r@ == (name@, optional_number_text(value, pretty, indent@)),
{
    let mut text = String::new();
    push_optional_number(&mut text, value, pretty, indent);
    assert(text@ =~= optional_number_text(value, pretty, indent@));
    DebugField { name, value: text }
}

/// An escaped text holds no line feed.
pub proof fn lemma_escaped_one_line(s: Seq<char>)
    ensures
        one_line(escaped(s)),
        one_line(quoted(s)),
    decreases s.len(),
{
    if s.len() > 0 {
        lemma_escaped_one_line(s.drop_last());
    }
}

} // verus!
