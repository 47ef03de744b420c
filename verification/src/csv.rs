//! Rows of comma-separated fields. A text field stands between double
//! quotes, with each double quote inside it written twice; numbers and truth
//! values stand bare; a missing value is an empty field.

use vstd::prelude::*;

use crate::text::{
    bool_text, chars_of, decimal, decimal_value, is_decimal, parse_decimal, push_bool, push_decimal, string_of,
};

verus! {

/// One field of a row.
#[derive(Debug)]
pub enum CsvField {
    /// A missing value.
    Empty,
    /// An unsigned number.
    Number(u64),
    /// A truth value.
    Flag(bool),
    /// A text.
    Text(String),
}

/// What one field of a row holds.
pub enum CsvCell {
    /// A missing value.
    Empty,
    /// An unsigned number.
    Number(u64),
    /// A truth value.
    Flag(bool),
    /// A text.
    Text(Seq<char>),
}

impl View for CsvField {
    type V = CsvCell;

    open spec fn view(&self) -> CsvCell {
        match self {
            CsvField::Empty => CsvCell::Empty,
            CsvField::Number(n) => CsvCell::Number(*n),
            CsvField::Flag(b) => CsvCell::Flag(*b),
            CsvField::Text(s) => CsvCell::Text(s@),
        }
    }
}

/// What the fields of a row hold, in order.
pub open spec fn cells_of(fields: Seq<CsvField>) -> Seq<CsvCell> {
    Seq::new(fields.len(), |i: int| fields[i]@)
}

/// One character of a quoted field: a double quote is written twice.
pub open spec fn doubled_char(c: char) -> Seq<char> {
    if c == '"' {
        seq!['"', '"']
    } else {
        seq![c]
    }
}

/// A text with each of its double quotes written twice.
pub open spec fn doubled(s: Seq<char>) -> Seq<char>
    decreases s.len(),
{
    if s.len() == 0 {
        Seq::empty()
    } else {
        doubled(s.drop_last()) + doubled_char(s.last())
    }
}

/// A text field as it stands in a row.
pub open spec fn csv_quoted(s: Seq<char>) -> Seq<char> {
    seq!['"'] + doubled(s) + seq!['"']
}

/// A field as it stands in a row.
pub open spec fn cell_text(cell: CsvCell) -> Seq<char> {
    match cell {
        CsvCell::Empty => Seq::empty(),
        CsvCell::Number(n) => decimal(n as nat),
        CsvCell::Flag(b) => bool_text(b),
        CsvCell::Text(s) => csv_quoted(s),
    }
}

/// A row: its fields, with a comma between each two.
pub open spec fn row_text(cells: Seq<CsvCell>) -> Seq<char>
    decreases cells.len(),
{
    if cells.len() == 0 {
        Seq::empty()
    } else if cells.len() == 1 {
        cell_text(cells[0])
    } else {
        row_text(cells.drop_last()) + seq![','] + cell_text(cells.last())
    }
}

/// Appends a text field to `out`.
pub fn push_csv_quoted(out: &mut String, s: &str)
    ensures
        final(out)@ == old(out)@ + csv_quoted(s@),
{
    out.push('"');
    for c in it: s.chars()
        invariant
            it.seq() == s@,
            out@ == old(out)@ + seq!['"'] + doubled(s@.take(it.index() as int)),
    {
        let ghost before = s@.take(it.index() as int);
        let ghost after = s@.take(it.index() + 1);
        assert(after.drop_last() =~= before);
        assert(after.last() == c);
        if c == '"' {
            out.push('"');
        }
        out.push(c);
        assert(out@ =~= old(out)@ + seq!['"'] + doubled(after));
    }
    assert(s@.take(s@.len() as int) =~= s@);
    out.push('"');
    assert(out@ =~= old(out)@ + csv_quoted(s@));
}

/// Appends one field to `out`.
pub fn push_csv_field(out: &mut String, field: &CsvField)
    ensures
        final(out)@ == old(out)@ + cell_text(field@),
{
    match field {
        CsvField::Empty => {
            assert(out@ =~= old(out)@ + cell_text(field@));
        },
        CsvField::Number(n) => {
            push_decimal(out, *n);
        },
        CsvField::Flag(b) => {
            push_bool(out, *b);
        },
        CsvField::Text(s) => {
            push_csv_quoted(out, s.as_str());
        },
    }
}

/// The row that holds `fields`.
pub fn render_row(fields: &Vec<CsvField>) -> (r: String)
    ensures
        r@ == row_text(cells_of(fields@)),
{
    let mut out = String::new();
    let ghost cells = cells_of(fields@);
    let mut i: usize = 0;
    while i < fields.len()
        invariant
            i <= fields.len(),
            cells == cells_of(fields@),
            out@ == row_text(cells.take(i as int)),
        decreases fields.len() - i,
    {
        let ghost before = cells.take(i as int);
        let ghost after = cells.take(i + 1);
        assert(after.drop_last() =~= before);
        assert(after.last() == fields@[i as int]@);
        if i > 0 {
            out.push(',');
        }
        push_csv_field(&mut out, &fields[i]);
        assert(out@ =~= row_text(after));
        i += 1;
    }
    assert(cells.take(fields.len() as int) =~= cells);
    out
}

/// Where the bare field that starts at `i` ends: at the next comma, or at
/// the end of the row.
pub open spec fn bare_end(s: Seq<char>, i: int) -> int
    decreases s.len() - i,
{
    if i >= s.len() || i < 0 || s[i] == ',' {
        i
    } else {
        bare_end(s, i + 1)
    }
}

/// A numeral is in its shortest form: it does not start with a zero, unless
/// it is the one digit zero.
pub open spec fn shortest(t: Seq<char>) -> bool {
    t.len() == 1 || t[0] != '0'
}

/// What a bare field holds: nothing, a truth value, or a number in its
/// shortest form that fits in 64 bits. Any other text is not a bare field.
pub open spec fn bare_cell(t: Seq<char>) -> Option<CsvCell> {
    if t.len() == 0 {
        Some(CsvCell::Empty)
    } else if t == bool_text(true) {
        Some(CsvCell::Flag(true))
    } else if t == bool_text(false) {
        Some(CsvCell::Flag(false))
    } else if is_decimal(t) && shortest(t) && decimal_value(t) <= u64::MAX {
        Some(CsvCell::Number(decimal_value(t) as u64))
    } else {
        None
    }
}

/// What a text field holds, read from `i`, which is just behind its opening
/// quote: the text up to the closing quote, two quotes in a row standing for
/// one, and the index behind the closing quote. There is no such text where
/// the row ends before the field is closed.
pub open spec fn quoted_rest(s: Seq<char>, i: int) -> Option<(Seq<char>, int)>
    decreases s.len() - i,
{
    if i >= s.len() || i < 0 {
        None
    } else if s[i] != '"' {
        match quoted_rest(s, i + 1) {
            Some((t, e)) => Some((seq![s[i]] + t, e)),
            None => None,
        }
    } else if i + 1 < s.len() && s[i + 1] == '"' {
        match quoted_rest(s, i + 2) {
            Some((t, e)) => Some((seq!['"'] + t, e)),
            None => None,
        }
    } else {
        Some((Seq::empty(), i + 1))
    }
}

/// The field that starts at `i`, and the index behind it. A text field has
/// to be followed by a comma or by the end of the row.
pub open spec fn cell_at(s: Seq<char>, i: int) -> Option<(CsvCell, int)> {
    if 0 <= i < s.len() && s[i] == '"' {
        match quoted_rest(s, i + 1) {
            Some((t, e)) => if e >= s.len() || s[e] == ',' {
                Some((CsvCell::Text(t), e))
            } else {
                None
            },
            None => None,
        }
    } else {
        match bare_cell(s.subrange(i, bare_end(s, i))) {
            Some(cell) => Some((cell, bare_end(s, i))),
            None => None,
        }
    }
}

/// The fields of a row, read from `i` to the end of the row.
pub open spec fn cells_from(s: Seq<char>, i: int) -> Option<Seq<CsvCell>>
    decreases s.len() - i,
{
    if i < 0 || i > s.len() {
        None
    } else {
        match cell_at(s, i) {
            None => None,
            Some((cell, e)) => if e >= s.len() {
                Some(seq![cell])
            } else if e < i {
                None
            } else {
                match cells_from(s, e + 1) {
                    Some(rest) => Some(seq![cell] + rest),
                    None => None,
                }
            },
        }
    }
}

/// The fields of a row; none where the text is not a row.
pub open spec fn parsed_row(s: Seq<char>) -> Option<Seq<CsvCell>> {
    cells_from(s, 0)
}

fn parse_bare(chars: &Vec<char>, from: usize, to: usize) -> (r: Option<CsvField>)
    requires
        from <= to <= chars.len(),
    ensures
        match r {
            Some(field) => bare_cell(chars@.subrange(from as int, to as int)) == Some(field@),
            None => bare_cell(chars@.subrange(from as int, to as int)) is None,
        },
{
    let ghost t = chars@.subrange(from as int, to as int);
    if from == to {
        return Some(CsvField::Empty);
    }
    if to - from == 4 && chars[from] == 't' && chars[from + 1] == 'r' && chars[from + 2] == 'u'
        && chars[from + 3] == 'e' {
        assert(t =~= bool_text(true));
        return Some(CsvField::Flag(true));
    }
    if to - from == 5 && chars[from] == 'f' && chars[from + 1] == 'a' && chars[from + 2] == 'l'
        && chars[from + 3] == 's' && chars[from + 4] == 'e' {
        assert(t =~= bool_text(false));
        return Some(CsvField::Flag(false));
    }
    proof {
        if t == bool_text(true) {
            assert(t.len() == 4 && t[0] == 't' && t[1] == 'r' && t[2] == 'u' && t[3] == 'e');
        }
        if t == bool_text(false) {
            assert(t.len() == 5 && t[0] == 'f' && t[1] == 'a' && t[2] == 'l' && t[3] == 's' && t[4]
                == 'e');
        }
        assert(t[0] == chars@[from as int]);
    }
    if to - from > 1 && chars[from] == '0' {
        return None;
    }
    match parse_decimal(chars, from, to) {
        Some(n) => Some(CsvField::Number(n)),
        None => None,
    }
}

/// `head` in front of what was read behind it.
pub open spec fn text_after(head: Seq<char>, rest: Option<(Seq<char>, int)>) -> Option<
    (Seq<char>, int),
> {
    match rest {
        Some((t, e)) => Some((head + t, e)),
        None => None,
    }
}

/// `head` in front of the fields that were read behind it.
pub open spec fn cells_after(head: Seq<CsvCell>, rest: Option<Seq<CsvCell>>) -> Option<
    Seq<CsvCell>,
> {
    match rest {
        Some(cells) => Some(head + cells),
        None => None,
    }
}

fn parse_quoted(chars: &Vec<char>, from: usize) -> (r: Option<(String, usize)>)
    requires
        from <= chars.len(),
    ensures
        match r {
            Some((text, end)) => quoted_rest(chars@, from as int) == Some((text@, end as int))
                && from < end <= chars.len(),
            None => quoted_rest(chars@, from as int) is None,
        },
{
    let mut text: Vec<char> = Vec::new();
    let mut i: usize = from;
    assert(Seq::<char>::empty() + Seq::<char>::empty() =~= Seq::<char>::empty());
    loop
        invariant
            from <= i <= chars.len(),
            quoted_rest(chars@, from as int) == text_after(text@, quoted_rest(chars@, i as int)),
        decreases chars.len() - i,
    {
        if i >= chars.len() {
            return None;
        }
        let ghost before = text@;
        let ghost here = quoted_rest(chars@, i as int);
        if chars[i] != '"' {
            text.push(chars[i]);
            proof {
                let next = quoted_rest(chars@, i + 1);
                if let Some((t, e)) = next {
                    assert(before + (seq![chars@[i as int]] + t) =~= text@ + t);
                }
            }
            i += 1;
        } else if i + 1 < chars.len() && chars[i + 1] == '"' {
            text.push('"');
            proof {
                let next = quoted_rest(chars@, i + 2);
                if let Some((t, e)) = next {
                    assert(before + (seq!['"'] + t) =~= text@ + t);
                }
            }
            i += 2;
        } else {
            assert(before + Seq::<char>::empty() =~= before);
            return Some((string_of(&text), i + 1));
        }
    }
}

/// Reads a row back into its fields. The result is `None` where the text is
/// not a row: a text field is not closed or is followed by anything but a
/// comma, or a bare field is neither empty, nor `true` or `false`, nor a
/// number in its shortest form that fits in 64 bits.
pub fn parse_row(line: &str) -> (r: Option<Vec<CsvField>>)
    ensures
        match r {
            Some(fields) => parsed_row(line@) == Some(cells_of(fields@)),
            None => parsed_row(line@) is None,
        },
{
    let chars = chars_of(line);
    let mut fields: Vec<CsvField> = Vec::new();
    let mut i: usize = 0;
    assert(cells_of(fields@) =~= Seq::<CsvCell>::empty());
    loop
        invariant
            i <= chars.len(),
            chars@ == line@,
            parsed_row(line@) == cells_after(cells_of(fields@), cells_from(chars@, i as int)),
        decreases chars.len() - i,
    {
        let ghost before = cells_of(fields@);
        let (field, end) = if i < chars.len() && chars[i] == '"' {
            match parse_quoted(&chars, i + 1) {
                Some((text, end)) => {
                    if end < chars.len() && chars[end] != ',' {
                        return None;
                    }
                    (CsvField::Text(text), end)
                },
                None => {
                    return None;
                },
            }
        } else {
            let mut end: usize = i;
            while end < chars.len() && chars[end] != ','
                invariant
                    i <= end <= chars.len(),
                    bare_end(chars@, i as int) == bare_end(chars@, end as int),
                decreases chars.len() - end,
            {
                end += 1;
            }
            match parse_bare(&chars, i, end) {
                Some(field) => (field, end),
                None => {
                    return None;
                },
            }
        };
        assert(cell_at(chars@, i as int) == Some((field@, end as int)));
        assert(i <= end);
        let ghost cell = field@;
        fields.push(field);
        assert(cells_of(fields@) =~= before + seq![cell]);
        if end >= chars.len() {
            return Some(fields);
        }
        proof {
            let rest = cells_from(chars@, end + 1);
            if let Some(cells) = rest {
                assert(before + (seq![cell] + cells) =~= cells_of(fields@) + cells);
            }
        }
        i = end + 1;
    }
}

} // verus!
