//! What holds of rows: a row that was written reads back as the fields it
//! was written from.

use vstd::prelude::*;

use crate::csv::{
    bare_cell, bare_end, cell_at, cell_text, cells_from, doubled, doubled_char,
    parsed_row, quoted_rest, row_text, shortest, CsvCell,
};
use crate::text::{bool_text, decimal, is_digit, lemma_decimal_value};

verus! {

/// The doubling of a text starts with the doubling of its first character.
pub proof fn lemma_doubled_front(t: Seq<char>)
    requires
        t.len() > 0,
    ensures
        doubled(t) == doubled_char(t[0]) + doubled(t.drop_first()),
    decreases t.len(),
{
    if t.len() == 1 {
        assert(t.drop_last() =~= Seq::<char>::empty());
        assert(t.drop_first() =~= Seq::<char>::empty());
        assert(doubled(t.drop_last()) =~= Seq::<char>::empty());
        assert(doubled(t) =~= doubled_char(t[0]) + doubled(t.drop_first()));
    } else {
        lemma_doubled_front(t.drop_last());
        assert(t.drop_last().drop_first() =~= t.drop_first().drop_last());
        assert(t.drop_first().last() == t.last());
        assert(doubled(t) =~= doubled_char(t[0]) + doubled(t.drop_first()));
    }
}

/// A text field reads back: where the doubling of `t` stands at `i`, closed
/// by a quote that ends the row or stands before a comma, the text read from
/// `i` is `t`, and it ends behind that quote.
pub proof fn lemma_quoted_reads_back(s: Seq<char>, i: int, t: Seq<char>)
    requires
        0 <= i,
        i + doubled(t).len() < s.len(),
        s.subrange(i, i + doubled(t).len()) == doubled(t),
        s[i + doubled(t).len()] == '"',
        i + doubled(t).len() + 1 == s.len() || s[i + doubled(t).len() + 1] == ',',
    ensures
        quoted_rest(s, i) == Some((t, i + doubled(t).len() + 1)),
    decreases t.len(),
{
    let d = doubled(t);
    if t.len() == 0 {
        assert(d.len() == 0);
    } else {
        lemma_doubled_front(t);
        let rest = t.drop_first();
        let dr = doubled(rest);
        let c = t[0];
        assert(d == doubled_char(c) + dr);
        if c == '"' {
            assert(s[i] == d[0]);
            assert(s[i + 1] == d[1]);
            assert(s.subrange(i + 2, i + 2 + dr.len()) =~= dr) by {
                assert forall|k: int| 0 <= k < dr.len() implies s.subrange(i + 2, i + 2 + dr.len())[k]
                    == dr[k] by {
                    assert(s[i + 2 + k] == d[2 + k]);
                }
            }
            lemma_quoted_reads_back(s, i + 2, rest);
            assert(seq!['"'] + rest =~= t);
        } else {
            assert(s[i] == d[0]);
            assert(s.subrange(i + 1, i + 1 + dr.len()) =~= dr) by {
                assert forall|k: int| 0 <= k < dr.len() implies s.subrange(i + 1, i + 1 + dr.len())[k]
                    == dr[k] by {
                    assert(s[i + 1 + k] == d[1 + k]);
                }
            }
            lemma_quoted_reads_back(s, i + 1, rest);
            assert(seq![s[i]] + rest =~= t);
        }
    }
}

/// A bare field ends where its text ends: where `n` characters without a
/// comma stand at `i`, and the row ends or a comma stands behind them.
pub proof fn lemma_bare_ends(s: Seq<char>, i: int, n: int)
    requires
        0 <= i,
        0 <= n,
        i + n <= s.len(),
        forall|k: int| i <= k < i + n ==> s[k] != ',',
        i + n == s.len() || s[i + n] == ',',
    ensures
        bare_end(s, i) == i + n,
    decreases n,
{
    if n > 0 {
        lemma_bare_ends(s, i + 1, n - 1);
    }
}

/// A numeral is in its shortest form.
pub proof fn lemma_decimal_shortest(n: nat)
    ensures
        shortest(decimal(n)),
        decimal(n).len() >= 1,
        n >= 10 ==> decimal(n).len() >= 2,
        n > 0 ==> decimal(n)[0] != '0',
    decreases n,
{
    if n >= 10 {
        lemma_decimal_shortest(n / 10);
        assert(decimal(n)[0] == decimal(n / 10)[0]);
    }
}

/// A bare field reads back as what it was written from.
pub proof fn lemma_bare_reads_back(cell: CsvCell)
    requires
        !(cell is Text),
    ensures
        bare_cell(cell_text(cell)) == Some(cell),
        forall|k: int| 0 <= k < cell_text(cell).len() ==> cell_text(cell)[k] != ',',
        cell_text(cell).len() > 0 ==> cell_text(cell)[0] != '"',
{
    match cell {
        CsvCell::Number(n) => {
            lemma_decimal_value(n as nat);
            lemma_decimal_shortest(n as nat);
            let t = decimal(n as nat);
            assert(is_digit(t[0]));
            assert(t != bool_text(true)) by {
                if t == bool_text(true) {
                    assert(t[0] == 't');
                }
            }
            assert(t != bool_text(false)) by {
                if t == bool_text(false) {
                    assert(t[0] == 'f');
                }
            }
            assert forall|k: int| 0 <= k < t.len() implies t[k] != ',' by {
                assert(is_digit(t[k]));
            }
        },
        CsvCell::Flag(b) => {
            let t = bool_text(b);
            assert(bool_text(true) != bool_text(false)) by {
                assert(bool_text(true).len() != bool_text(false).len());
            }
        },
        _ => {},
    }
}

/// A row starts with its first field, and goes on, behind a comma, with the
/// row of its other fields.
pub proof fn lemma_row_front(cells: Seq<CsvCell>)
    requires
        cells.len() >= 2,
    ensures
        row_text(cells) == cell_text(cells[0]) + seq![','] + row_text(cells.drop_first()),
    decreases cells.len(),
{
    if cells.len() == 2 {
        assert(cells.drop_last() =~= seq![cells[0]]);
        assert(cells.drop_first() =~= seq![cells[1]]);
        assert(row_text(cells.drop_last()) == cell_text(cells[0]));
        assert(row_text(cells.drop_first()) == cell_text(cells[1]));
    } else {
        lemma_row_front(cells.drop_last());
        assert(cells.drop_last().drop_first() =~= cells.drop_first().drop_last());
        assert(cells.drop_first().last() == cells.last());
        assert(row_text(cells) =~= cell_text(cells[0]) + seq![','] + row_text(cells.drop_first()));
    }
}

/// A field reads back where it stands in a row: at `i`, followed by the end
/// of the row or by a comma.
pub proof fn lemma_cell_reads_back(s: Seq<char>, i: int, cell: CsvCell)
    requires
        0 <= i,
        i + cell_text(cell).len() <= s.len(),
        s.subrange(i, i + cell_text(cell).len()) == cell_text(cell),
        i + cell_text(cell).len() == s.len() || s[i + cell_text(cell).len()] == ',',
    ensures
        cell_at(s, i) == Some((cell, i + cell_text(cell).len())),
{
    let text = cell_text(cell);
    assert forall|k: int| 0 <= k < text.len() implies s[i + k] == text[k] by {
        assert(s.subrange(i, i + text.len())[k] == s[i + k]);
    }
    match cell {
        CsvCell::Text(t) => {
            let d = doubled(t);
            assert(text == seq!['"'] + d + seq!['"']);
            assert(text.len() == d.len() + 2);
            assert(s[i] == text[0]);
            assert(s[i + d.len() + 1] == text[d.len() as int + 1]);
            assert(s.subrange(i + 1, i + 1 + d.len()) =~= d) by {
                assert forall|k: int| 0 <= k < d.len() implies s.subrange(i + 1, i + 1 + d.len())[k]
                    == d[k] by {
                    assert(s[i + 1 + k] == text[1 + k]);
                }
            }
            lemma_quoted_reads_back(s, i + 1, t);
        },
        _ => {
            lemma_bare_reads_back(cell);
            assert forall|k: int| i <= k < i + text.len() implies s[k] != ',' by {
                assert(s[k] == text[k - i]);
            }
            lemma_bare_ends(s, i, text.len() as int);
            if text.len() > 0 {
                assert(s[i] == text[0]);
            }
        },
    }
}

/// A row reads back where it stands at the end of a text.
pub proof fn lemma_row_reads_back_from(s: Seq<char>, i: int, cells: Seq<CsvCell>)
    requires
        cells.len() >= 1,
        0 <= i,
        i + row_text(cells).len() == s.len(),
        s.subrange(i, s.len() as int) == row_text(cells),
    ensures
        cells_from(s, i) == Some(cells),
    decreases cells.len(),
{
    let first = cells[0];
    let text = cell_text(first);
    if cells.len() == 1 {
        assert(row_text(cells) == text);
        lemma_cell_reads_back(s, i, first);
        assert(seq![first] =~= cells);
    } else {
        lemma_row_front(cells);
        let rest = cells.drop_first();
        let row = row_text(cells);
        assert(row == text + seq![','] + row_text(rest));
        assert forall|k: int| 0 <= k < row.len() implies s[i + k] == row[k] by {
            assert(s.subrange(i, s.len() as int)[k] == s[i + k]);
        }
        assert(s.subrange(i, i + text.len()) =~= text) by {
            assert forall|k: int| 0 <= k < text.len() implies s.subrange(i, i + text.len())[k]
                == text[k] by {
                assert(s[i + k] == row[k]);
            }
        }
        assert(s[i + text.len()] == row[text.len() as int]);
        lemma_cell_reads_back(s, i, first);
        let next = i + text.len() + 1;
        assert(s.subrange(next, s.len() as int) =~= row_text(rest)) by {
            assert forall|k: int| 0 <= k < row_text(rest).len() implies s.subrange(
                next,
                s.len() as int,
            )[k] == row_text(rest)[k] by {
                assert(s[next + k] == row[text.len() + 1 + k]);
            }
        }
        lemma_row_reads_back_from(s, next, rest);
        assert(seq![first] + rest =~= cells);
    }
}

/// A written row reads back as the fields it was written from: numbers,
/// truth values and missing values come back as they were, and texts come
/// back without the quoting. This holds of every row of at least one field;
/// a row without fields is written as the empty text, which reads back as
/// one missing value.
pub proof fn lemma_row_round_trip(cells: Seq<CsvCell>)
    requires
        cells.len() >= 1,
    ensures
        parsed_row(row_text(cells)) == Some(cells),
{
    let s = row_text(cells);
    assert(s.subrange(0, s.len() as int) =~= s);
    lemma_row_reads_back_from(s, 0, cells);
}

} // verus!
