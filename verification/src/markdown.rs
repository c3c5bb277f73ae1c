//! Laws of the Markdown cells: folding leaves no line break, and a line of
//! escaped cells is read back cell by cell.
use vstd::prelude::*;
use vstd::string::*;

use crate::result_export::{
    cells_of, escaped_cell, escaped_row, escaped_rows_split_back, escaping_is_recovered, folded,
    inside, lemma_escaped_front, recovered,
};
use crate::text::{
    begins_with, ends_with, joined, lacks, nothing_to_replace, replaced, stands_at, trim, trim_end,
    trim_start, white_space,
};

verus! {

/// What neither a text nor the replacement holds, the result does not hold; and
/// a single character that is replaced is gone.
proof fn lemma_replaced_lacks(s: Seq<char>, from: Seq<char>, to: Seq<char>, c: char)
    requires
        from.len() > 0,
        lacks(to, c),
        lacks(s, c) || from == seq![c],
    ensures
        lacks(replaced(s, from, to), c),
    decreases s.len(),
{
    if s.len() > 0 {
        if stands_at(s, from, 0) {
            let rest = s.skip(from.len() as int);
            if lacks(s, c) {
                assert forall|i: int| 0 <= i < rest.len() implies #[trigger] rest[i] != c by {
                    assert(rest[i] == s[i + from.len()]);
                }
            }
            lemma_replaced_lacks(rest, from, to, c);
        } else {
            let rest = s.drop_first();
            if lacks(s, c) {
                assert forall|i: int| 0 <= i < rest.len() implies #[trigger] rest[i] != c by {
                    assert(rest[i] == s[i + 1]);
                }
                assert(s[0] != c);
            } else if s[0] == c {
                assert(s.subrange(0, 1) =~= seq![c]);
                assert(stands_at(s, from, 0));
            }
            lemma_replaced_lacks(rest, from, to, c);
        }
    }
}

/// A folded text holds no line feed and no carriage return.
pub proof fn folding_leaves_no_line_break(s: Seq<char>)
    ensures
        lacks(folded(s), '\n'),
        lacks(folded(s), '\r'),
{
    reveal_strlit("\r\n");
    reveal_strlit("\n");
    reveal_strlit("\r");
    reveal_strlit("<br>");
    assert("\n"@ =~= seq!['\n']);
    assert("\r"@ =~= seq!['\r']);
    let one = replaced(s, "\r\n"@, "<br>"@);
    let two = replaced(one, "\n"@, "<br>"@);
    lemma_replaced_lacks(one, "\n"@, "<br>"@, '\n');
    lemma_replaced_lacks(two, "\r"@, "<br>"@, '\n');
    lemma_replaced_lacks(two, "\r"@, "<br>"@, '\r');
}

/// A text without line breaks is folded to itself.
pub proof fn a_line_is_its_own_folding(s: Seq<char>)
    requires
        lacks(s, '\n'),
        lacks(s, '\r'),
    ensures
        folded(s) == s,
{
    reveal_strlit("\r\n");
    reveal_strlit("\n");
    reveal_strlit("\r");
    nothing_to_replace(s, "\r\n"@, "<br>"@);
    nothing_to_replace(s, "\n"@, "<br>"@);
    nothing_to_replace(s, "\r"@, "<br>"@);
}

/// Folding twice is folding once.
pub proof fn folding_is_idempotent(s: Seq<char>)
    ensures
        folded(folded(s)) == folded(s),
{
    folding_leaves_no_line_break(s);
    a_line_is_its_own_folding(folded(s));
}

proof fn lemma_trim_sizes(s: Seq<char>)
    ensures
        trim_start(s).len() <= s.len(),
        trim_end(s).len() <= s.len(),
    decreases s.len(),
{
    if s.len() > 0 {
        lemma_trim_sizes(s.drop_first());
        lemma_trim_sizes(s.drop_last());
    }
}

/// A text that trimming leaves alone begins and ends with no blank.
proof fn lemma_trimmed_ends(s: Seq<char>)
    requires
        trim(s) == s,
        s.len() > 0,
    ensures
        !white_space(s[0]),
        !white_space(s.last()),
{
    lemma_trim_sizes(s);
    lemma_trim_sizes(trim_start(s));
    lemma_trim_sizes(s.drop_first());
    lemma_trim_sizes(s.drop_last());
    if white_space(s[0]) {
        assert(trim_start(s) == trim_start(s.drop_first()));
        assert(trim(s).len() < s.len());
    } else {
        assert(trim_start(s) == s);
        if white_space(s.last()) {
            assert(trim_end(s) == trim_end(s.drop_last()));
        }
    }
}

/// Blanks around a text without blanks at its ends are trimmed away.
proof fn lemma_trim_padded(w: Seq<char>, before: bool, after: bool)
    requires
        w.len() > 0 ==> !white_space(w[0]) && !white_space(w.last()),
    ensures
        trim(padded(w, before, after)) == w,
{
    let s = padded(w, before, after);
    let b = if after { w.push(' ') } else { w };
    assert(white_space(' '));
    if before {
        assert(s =~= seq![' '] + b);
        assert(s.drop_first() =~= b);
        assert(trim_start(s) == trim_start(b));
    } else {
        assert(s =~= b);
    }
    if w.len() > 0 {
        assert(b[0] == w[0]);
        assert(trim_start(b) == b);
        if after {
            assert(b.drop_last() =~= w);
            assert(trim_end(b) == trim_end(w));
        }
        assert(trim_end(w) == w);
    } else {
        assert(w =~= Seq::empty());
        if after {
            assert(b.drop_first() =~= Seq::empty());
            assert(trim_start(b) == trim_start(Seq::<char>::empty()));
        }
        assert(trim_start(b) =~= Seq::empty());
    }
}

/// A cell with a blank before it, after it, or both.
pub open spec fn padded(w: Seq<char>, before: bool, after: bool) -> Seq<char> {
    (if before { seq![' '] } else { Seq::empty() }) + w + (if after {
        seq![' ']
    } else {
        Seq::empty()
    })
}

proof fn lemma_escape_padded(w: Seq<char>, before: bool, after: bool)
    ensures
        escaped_cell(padded(w, before, after)) == padded(escaped_cell(w), before, after),
{
    let b = if before { seq![' '] + w } else { w };
    if before {
        lemma_escaped_front(b);
        assert(b.drop_first() =~= w);
        assert(escaped_cell(b) =~= seq![' '] + escaped_cell(w));
    }
    let s = padded(w, before, after);
    if after {
        assert(s =~= b.push(' '));
        assert(s.drop_last() =~= b);
        assert(escaped_cell(s) =~= escaped_cell(b).push(' '));
    } else {
        assert(s =~= b);
    }
    assert(escaped_cell(s) =~= padded(escaped_cell(w), before, after));
}

/// The cells of a line with the blanks that stand around them.
spec fn spread(cells: Seq<Seq<char>>) -> Seq<Seq<char>> {
    Seq::new(cells.len(), |i: int| padded(cells[i], i > 0, i < cells.len() - 1))
}

spec fn escaped_cells(cells: Seq<Seq<char>>) -> Seq<Seq<char>> {
    Seq::new(cells.len(), |i: int| escaped_cell(cells[i]))
}

proof fn lemma_longer_row(cells: Seq<Seq<char>>)
    requires
        cells.len() > 0,
    ensures
        escaped_row(cells.drop_last().push(cells.last().push(' '))) == escaped_row(cells).push(
            ' ',
        ),
{
    let longer = cells.drop_last().push(cells.last().push(' '));
    assert(cells.last().push(' ').drop_last() =~= cells.last());
    assert(escaped_cell(cells.last().push(' ')) =~= escaped_cell(cells.last()).push(' '));
    if cells.len() > 1 {
        assert(longer.drop_last() =~= cells.drop_last());
    }
    assert(escaped_row(longer) =~= escaped_row(cells).push(' '));
}

proof fn lemma_joined_is_row(cells: Seq<Seq<char>>)
    requires
        cells.len() > 0,
    ensures
        joined(escaped_cells(cells), " | "@) == escaped_row(spread(cells)),
    decreases cells.len(),
{
    reveal_strlit(" | ");
    let all = spread(cells);
    if cells.len() == 1 {
        assert(all[0] =~= cells[0]);
    } else {
        let front = cells.drop_last();
        lemma_joined_is_row(front);
        assert(escaped_cells(cells).drop_last() =~= escaped_cells(front));
        let row = spread(front);
        lemma_longer_row(row);
        assert(all.drop_last() =~= row.drop_last().push(row.last().push(' '))) by {
            assert(row.last().push(' ') =~= all[cells.len() - 2]);
            assert forall|i: int| 0 <= i < cells.len() - 2 implies row.drop_last()[i]
                == all.drop_last()[i] by {
                assert(row[i] =~= all[i]);
            }
        }
        lemma_escape_padded(cells.last(), true, false);
        assert(all.last() =~= padded(cells.last(), true, false));
        assert(escaped_cell(all.last()) =~= seq![' '] + escaped_cell(cells.last()));
        assert(joined(escaped_cells(cells), " | "@) =~= escaped_row(all));
    }
}

/// A line of a Markdown table: every cell escaped, with a blank on either side and
/// pipes between and around them.
pub open spec fn table_line(cells: Seq<Seq<char>>) -> Seq<char> {
    "| "@ + joined(Seq::new(cells.len(), |i: int| escaped_cell(cells[i])), " | "@) + " |"@
}

/// A line of a Markdown table is read back as its cells, whatever pipes and
/// backslashes they hold, where none begins or ends with a blank; and taking back
/// the escapes recovers every value.
pub proof fn table_lines_are_read_back(cells: Seq<Seq<char>>, i: int)
    requires
        forall|k: int| 0 <= k < cells.len() ==> trim(#[trigger] cells[k]) == cells[k],
        0 <= i < cells.len(),
    ensures
        cells_of(table_line(cells)).len() == cells.len(),
        cells_of(table_line(cells))[i] == escaped_cell(cells[i]),
        recovered(cells_of(table_line(cells))[i]) == cells[i],
{
    reveal_strlit("| ");
    reveal_strlit(" |");
    let line = table_line(cells);
    let body = joined(escaped_cells(cells), " | "@);
    assert(Seq::new(cells.len(), |k: int| escaped_cell(cells[k])) =~= escaped_cells(cells));
    let rest = line.skip(2);
    assert(rest =~= body + " |"@);
    assert(begins_with(line, "| "@)) by {
        assert(line.take(2) =~= "| "@);
    }
    assert(ends_with(rest, " |"@)) by {
        assert(rest.skip(body.len() as int) =~= " |"@);
    }
    assert(inside(line) =~= body);
    lemma_joined_is_row(cells);
    escaped_rows_split_back(spread(cells));
    let w = cells[i];
    let before = i > 0;
    let after = i < cells.len() - 1;
    lemma_escape_padded(w, before, after);
    let e = escaped_cell(w);
    if w.len() > 0 {
        lemma_trimmed_ends(w);
        lemma_escaped_front(w);
        assert(white_space('\\') == false);
        assert(white_space('|') == false);
        assert(e[0] == w[0] || e[0] == '\\');
        assert(e.last() == w.last());
    } else {
        assert(e =~= Seq::empty());
    }
    lemma_trim_padded(e, before, after);
    escaping_is_recovered(w);
}

} // verus!
