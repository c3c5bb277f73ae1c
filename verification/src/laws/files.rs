//! What it takes for an exported file to pass: every cell of it is the grid's.
use vstd::prelude::*;
use vstd::string::*;

use crate::laws::texts::{
    a_text_is_split_where_the_character_stands, first_at, occurrences_are_found_from_the_left,
};
use crate::markdown::{a_line_is_its_own_folding, folding_leaves_no_line_break};
use crate::result_export::{
    agreed, body_of, body_table, body_verdict, cells_of, column_name, delimited_verdict,
    entries_fault, folded, inside, json_fault, json_verdict, last_of_name, line_fault, lines_fault,
    markdown_fault, markdown_row, markup, markup_char, member, member_fault,
    no_fault_means_same_table, payload, recovered, recovered_all, row_fault, table_fault,
    text_lines, whole_table, without_return, CellModel, DocumentModel, Rendering, ValueModel,
    COLUMNS, ROWS,
};
use crate::text::{contains, decimal, lacks, nothing_to_replace, replaced, split_on, stands_at};

verus! {

/// Whether a text of the grid means NULL.
pub open spec fn means_null(s: Seq<char>) -> bool {
    s.len() == 0 || s == "NULL"@
}

/// Whether a column's name comes again in a later column.
pub open spec fn comes_again(col: int) -> bool {
    exists|k: int| col < k < COLUMNS@.len() && (#[trigger] COLUMNS@[k]).0@ == COLUMNS@[col].0@
}

/// Whether a member is the first of its key in an object.
pub open spec fn is_member(cells: Seq<CellModel>, key: Seq<char>, m: int) -> bool {
    &&& 0 <= m < cells.len()
    &&& cells[m].key == key
    &&& forall|k: int| 0 <= k < m ==> (#[trigger] cells[k]).key != key
}

/// Whether an object has what a row of the grid shows in a column: null for NULL, and
/// else the text itself, or a number of the same value.
pub open spec fn has_cell(
    cells: Seq<CellModel>,
    agree: Seq<Vec<bool>>,
    row: int,
    col: int,
) -> bool {
    exists|m: int| #[trigger]
        is_member(cells, COLUMNS@[col].0@, m) && {
            let text = ROWS@[row]@[col]@;
            if means_null(text) {
                cells[m].value == ValueModel::Null
            } else {
                cells[m].value == ValueModel::Text(text) || (cells[m].value == ValueModel::Number
                    && agreed(agree, row, col))
            }
        }
}

/// Whether a JSON document shows the grid: an array of as many objects as the grid has
/// rows, and in each the cell of every column whose name does not come again.
pub open spec fn shows_the_grid(document: DocumentModel, agree: Seq<Vec<bool>>) -> bool {
    document matches Some(entries) && entries.len() == ROWS@.len() && forall|row: int, col: int|
        0 <= row < ROWS@.len() && 0 <= col < COLUMNS@.len() && !#[trigger] comes_again(col) ==> (
        #[trigger] entries[row] matches Some(cells) && has_cell(cells, agree, row, col))
}

proof fn lemma_member(cells: Seq<CellModel>, key: Seq<char>)
    ensures
        member(cells, key) is None <==> forall|k: int|
            0 <= k < cells.len() ==> (#[trigger] cells[k]).key != key,
        forall|m: int| #[trigger] is_member(cells, key, m) ==> member(cells, key) == Some(cells[m]),
        member(cells, key) is Some ==> exists|m: int| #[trigger] is_member(cells, key, m),
    decreases cells.len(),
{
    if cells.len() > 0 {
        let rest = cells.drop_first();
        lemma_member(rest, key);
        if cells[0].key == key {
            assert(is_member(cells, key, 0));
            assert forall|m: int| #[trigger] is_member(cells, key, m) implies member(cells, key)
                == Some(cells[m]) by {
                if m > 0 {
                    assert(cells[0].key != key);
                }
            }
        } else {
            assert forall|m: int| #[trigger] is_member(cells, key, m) implies member(cells, key)
                == Some(cells[m]) by {
                assert(m > 0);
                assert(rest[m - 1] == cells[m]);
                assert forall|k: int| 0 <= k < m - 1 implies (#[trigger] rest[k]).key != key by {
                    assert(rest[k] == cells[k + 1]);
                }
                assert(is_member(rest, key, m - 1));
            }
            if member(rest, key) is Some {
                let m = choose|m: int| #[trigger] is_member(rest, key, m);
                assert forall|k: int| 0 <= k < m + 1 implies (#[trigger] cells[k]).key != key by {
                    if k > 0 {
                        assert(rest[k - 1] == cells[k]);
                    }
                }
                assert(cells[m + 1] == rest[m]);
                assert(is_member(cells, key, m + 1));
            } else {
                assert forall|k: int| 0 <= k < cells.len() implies (#[trigger] cells[k]).key
                    != key by {
                    if k > 0 {
                        assert(rest[k - 1] == cells[k]);
                    }
                }
            }
        }
    }
}

proof fn lemma_comes_again(col: int)
    requires
        0 <= col < 7,
    ensures
        comes_again(col) == !last_of_name(col),
{
    if comes_again(col) {
        let k = choose|k: int|
            col < k < COLUMNS@.len() && (#[trigger] COLUMNS@[k]).0@ == COLUMNS@[col].0@;
        assert(column_name(k) == column_name(col));
    }
    if !last_of_name(col) {
        let k = choose|k: int| col < k < 7 && #[trigger] column_name(k) == column_name(col);
        assert(COLUMNS@[k].0@ == COLUMNS@[col].0@);
    }
}

proof fn lemma_member_fault(cells: Seq<CellModel>, agree: Seq<Vec<bool>>, row: int, col: int)
    requires
        0 <= row < 3,
        0 <= col < 7,
    ensures
        member_fault(cells, agree, row, col) is None <==> comes_again(col) || has_cell(
            cells,
            agree,
            row,
            col,
        ),
{
    lemma_comes_again(col);
    let name = COLUMNS@[col].0@;
    lemma_member(cells, name);
    if has_cell(cells, agree, row, col) {
        let text = ROWS@[row]@[col]@;
        let m = choose|m: int| #[trigger]
            is_member(cells, name, m) && (if means_null(text) {
                cells[m].value == ValueModel::Null
            } else {
                cells[m].value == ValueModel::Text(text) || (cells[m].value == ValueModel::Number
                    && agreed(agree, row, col))
            });
        assert(member(cells, name) == Some(cells[m]));
    }
    if !comes_again(col) && member_fault(cells, agree, row, col) is None {
        let m = choose|m: int| #[trigger] is_member(cells, name, m);
        assert(is_member(cells, name, m));
    }
}

proof fn lemma_row_fault(cells: Seq<CellModel>, agree: Seq<Vec<bool>>, row: int, from: int)
    requires
        0 <= row < 3,
        0 <= from <= 7,
    ensures
        row_fault(cells, agree, row, from) is None <==> forall|col: int|
            from <= col < 7 && !#[trigger] comes_again(col) ==> has_cell(cells, agree, row, col),
    decreases 7 - from,
{
    if from < 7 {
        lemma_row_fault(cells, agree, row, from + 1);
        lemma_member_fault(cells, agree, row, from);
        if row_fault(cells, agree, row, from) is None {
            assert forall|col: int|
                from <= col < 7 && !#[trigger] comes_again(col) implies has_cell(
                cells,
                agree,
                row,
                col,
            ) by {}
        }
    }
}

spec fn row_shows(entry: Option<Seq<CellModel>>, agree: Seq<Vec<bool>>, row: int) -> bool {
    entry matches Some(cells) && forall|col: int|
        0 <= col < 7 && !#[trigger] comes_again(col) ==> has_cell(cells, agree, row, col)
}

proof fn lemma_entries_fault(
    entries: Seq<Option<Seq<CellModel>>>,
    agree: Seq<Vec<bool>>,
    from: int,
)
    requires
        0 <= from <= entries.len(),
        entries.len() == 3,
    ensures
        entries_fault(entries, agree, from) is None <==> forall|row: int|
            from <= row < 3 ==> row_shows(#[trigger] entries[row], agree, row),
    decreases entries.len() - from,
{
    if from < entries.len() {
        lemma_entries_fault(entries, agree, from + 1);
        match entries[from] {
            Some(cells) => {
                lemma_row_fault(cells, agree, from, 0);
            },
            None => {},
        }
        assert((entries_fault(entries, agree, from) is None) == (row_shows(
            entries[from],
            agree,
            from,
        ) && entries_fault(entries, agree, from + 1) is None));
    }
}

/// The last column's name is the last of its name.
proof fn lemma_last_column()
    ensures
        !comes_again(6),
{
}

/// A JSON document has no fault exactly where it shows the grid: every row, and in it
/// every column that is the last of its name.
pub proof fn a_json_file_shows_every_cell(document: DocumentModel, agree: Seq<Vec<bool>>)
    ensures
        json_fault(document, agree) is None <==> shows_the_grid(document, agree),
{
    lemma_last_column();
    match document {
        Some(entries) => {
            if entries.len() == 3 {
                lemma_entries_fault(entries, agree, 0);
                if json_fault(document, agree) is None {
                    assert forall|row: int, col: int|
                        0 <= row < ROWS@.len() && 0 <= col < COLUMNS@.len()
                            && !#[trigger] comes_again(col) implies (#[trigger] entries[row] matches
                        Some(cells) && has_cell(cells, agree, row, col)) by {
                        assert(row_shows(entries[row], agree, row));
                    }
                }
                if shows_the_grid(document, agree) {
                    assert forall|row: int| 0 <= row < 3 implies row_shows(
                        #[trigger] entries[row],
                        agree,
                        row,
                    ) by {
                        assert(!comes_again(6));
                        assert(entries[row] is Some);
                    }
                }
            }
        },
        None => {},
    }
}

/// What is no JSON is a fault, and what is JSON is judged by what it holds.
pub proof fn only_json_is_judged(
    reading: Result<DocumentModel, Seq<char>>,
    agree: Seq<Vec<bool>>,
)
    ensures
        json_verdict(reading, agree) is None <==> (reading matches Ok(document) && shows_the_grid(
            document,
            agree,
        )),
        reading matches Err(e) ==> json_verdict(reading, agree) == Some("not valid JSON: "@ + e),
{
    match reading {
        Ok(document) => a_json_file_shows_every_cell(document, agree),
        Err(_) => {},
    }
}

/// A number counts as equal only where its row and column were found equal.
pub proof fn numbers_agree_where_found_equal(agree: Seq<Vec<bool>>, row: int, col: int)
    ensures
        0 <= row < agree.len() && 0 <= col < agree[row]@.len() ==> agreed(agree, row, col)
            == agree[row]@[col],
        !(0 <= row < agree.len()) ==> !agreed(agree, row, col),
{
}

/// Whether a table shows the grid's rows as a format of markup carries them: nothing
/// for NULL, and else the text as markup carries it.
pub open spec fn shows_the_rows(t: Seq<Seq<Seq<char>>>) -> bool {
    &&& t.len() == ROWS@.len()
    &&& forall|i: int| 0 <= i < t.len() ==> (#[trigger] t[i]).len() == COLUMNS@.len()
    &&& forall|i: int, j: int|
        0 <= i < ROWS@.len() && 0 <= j < COLUMNS@.len() ==> #[trigger] t[i][j] == (if means_null(
            ROWS@[i]@[j]@,
        ) {
            Seq::<char>::empty()
        } else {
            markup(ROWS@[i]@[j]@)
        })
}

/// A file of markup passes exactly where what was read of it, without a header row
/// where there is one, shows every cell of the grid.
pub proof fn a_markup_file_shows_every_cell(
    parser: Seq<char>,
    read: Seq<Seq<Seq<char>>>,
)
    ensures
        body_verdict(parser, Ok(read)) is None <==> if read.len() == ROWS@.len() + 1 {
            shows_the_rows(read.skip(1))
        } else {
            shows_the_rows(read)
        },
{
    let body = body_of(read);
    let wanted = body_table(Rendering::Markup);
    no_fault_means_same_table(parser, body, wanted);
    assert forall|i: int, j: int| 0 <= i < 3 && 0 <= j < 7 implies #[trigger] wanted[i][j] == (
    if means_null(ROWS@[i]@[j]@) {
        Seq::<char>::empty()
    } else {
        markup(ROWS@[i]@[j]@)
    }) by {}
    if shows_the_rows(body) {
        assert forall|i: int| 0 <= i < body.len() implies #[trigger] body[i] == wanted[i] by {
            assert(body[i].len() == 7);
            assert forall|j: int| 0 <= j < 7 implies #[trigger] body[i][j] == wanted[i][j] by {}
            assert(body[i] =~= wanted[i]);
        }
        assert(body =~= wanted);
    }
}

/// Markup carries every character but the control characters and the two that are no
/// characters; tabs and line breaks it carries too.
pub proof fn markup_replaces_what_it_cannot_carry(s: Seq<char>, i: int, c: char)
    ensures
        markup(s).len() == s.len(),
        0 <= i < s.len() ==> markup(s)[i] == markup_char(s[i]),
        c >= ' ' && c != '\u{FFFE}' && c != '\u{FFFF}' ==> markup_char(c) == c,
        c == '\t' || c == '\n' || c == '\r' ==> markup_char(c) == c,
        c < ' ' && c != '\t' && c != '\n' && c != '\r' ==> markup_char(c) == '\u{FFFD}',
        c == '\u{FFFE}' || c == '\u{FFFF}' ==> markup_char(c) == '\u{FFFD}',
{
}

/// Whether a table is the grid to the letter: its names, and then every row.
pub open spec fn is_the_grid(t: Seq<Seq<Seq<char>>>) -> bool {
    &&& t.len() == ROWS@.len() + 1
    &&& forall|i: int| 0 <= i < t.len() ==> (#[trigger] t[i]).len() == COLUMNS@.len()
    &&& forall|j: int| 0 <= j < COLUMNS@.len() ==> #[trigger] t[0][j] == COLUMNS@[j].0@
    &&& forall|i: int, j: int|
        0 <= i < ROWS@.len() && 0 <= j < COLUMNS@.len() ==> #[trigger] t[i + 1][j]
            == ROWS@[i]@[j]@
}

/// A delimited file passes exactly where what was read of it is the grid to the
/// letter, the NULL text included.
pub proof fn a_delimited_file_is_the_grid(read: Seq<Seq<Seq<char>>>)
    ensures
        delimited_verdict(Ok(read)) is None <==> is_the_grid(read),
{
    let wanted = whole_table(Rendering::Plain);
    no_fault_means_same_table("python csv"@, read, wanted);
    assert forall|j: int| 0 <= j < 7 implies #[trigger] wanted[0][j] == COLUMNS@[j].0@ by {}
    assert forall|i: int, j: int| 0 <= i < 3 && 0 <= j < 7 implies #[trigger] wanted[i + 1][j]
        == ROWS@[i]@[j]@ by {}
    if is_the_grid(read) {
        assert forall|i: int| 0 <= i < read.len() implies #[trigger] read[i] == wanted[i] by {
            assert(read[i].len() == 7);
            assert forall|j: int| 0 <= j < 7 implies #[trigger] read[i][j] == wanted[i][j] by {
                if i > 0 {
                    let k = i - 1;
                    assert(read[k + 1][j] == ROWS@[k]@[j]@);
                    assert(wanted[k + 1][j] == ROWS@[k]@[j]@);
                }
            }
            assert(read[i] =~= wanted[i]);
        }
        assert(read =~= wanted);
    }
    if read == wanted {
        assert forall|i: int, j: int| 0 <= i < 3 && 0 <= j < 7 implies #[trigger] read[i + 1][j]
            == ROWS@[i]@[j]@ by {
            assert(wanted[i + 1][j] == ROWS@[i]@[j]@);
        }
    }
}

/// What could not be read is a fault, in either kind of file.
pub proof fn what_is_not_read_is_a_fault(parser: Seq<char>, e: Seq<char>)
    ensures
        body_verdict(parser, Err(e)) == Some("could not read the python3 result: "@ + e),
        delimited_verdict(Err(e)) == Some("could not read the python3 result: "@ + e),
{
}

/// A table that differs is told by its first row that does, or by the number of rows
/// where they are not as many.
pub proof fn a_fault_names_the_first_row_that_differs(
    parser: Seq<char>,
    read: Seq<Seq<Seq<char>>>,
    wrote: Seq<Seq<Seq<char>>>,
    i: int,
)
    ensures
        read.len() != wrote.len() ==> table_fault(parser, read, wrote) == Some(
            parser + " read "@ + decimal(read.len() as int) + " rows, "@ + decimal(
                wrote.len() as int,
            ) + " were written"@,
        ),
        read.len() == wrote.len() && 0 <= i < read.len() && read[i] != wrote[i] && (forall|k: int|
            0 <= k < i ==> #[trigger] read[k] == wrote[k]) ==> table_fault(parser, read, wrote)
            == Some(
            "row "@ + decimal(i) + ": read "@ + crate::seen::bracketed(
                crate::template::debug_all(read[i]),
            ) + ", wrote "@ + crate::seen::bracketed(crate::template::debug_all(wrote[i])),
        ),
{
    if read.len() == wrote.len() && 0 <= i < read.len() && read[i] != wrote[i] && (forall|k: int|
        0 <= k < i ==> #[trigger] read[k] == wrote[k]) {
        lemma_first_unlike(read, wrote, 0, i);
    }
}

proof fn lemma_first_unlike(
    a: Seq<Seq<Seq<char>>>,
    b: Seq<Seq<Seq<char>>>,
    from: int,
    i: int,
)
    requires
        0 <= from <= i < a.len(),
        a.len() == b.len(),
        a[i] != b[i],
        forall|k: int| from <= k < i ==> #[trigger] a[k] == b[k],
    ensures
        crate::result_export::unlike_from(a, b, from) == Some(i),
    decreases i - from,
{
    if from < i {
        assert(a[from] == b[from]);
        lemma_first_unlike(a, b, from + 1, i);
    }
}

/// A byte-order mark is no part of a file's data; anything else is.
pub proof fn a_byte_order_mark_is_no_data(s: Seq<char>)
    ensures
        payload(seq!['\u{FEFF}'] + s) == s,
        s.len() == 0 || s[0] != '\u{FEFF}' ==> payload(s) == s,
{
    assert((seq!['\u{FEFF}'] + s).skip(1) =~= s);
}

/// The lines of a text: a text without a line feed is one line, or none where it is
/// empty; a line feed ends a line, and takes a carriage return before it along.
pub proof fn lines_end_at_line_feeds(a: Seq<char>, b: Seq<char>)
    requires
        lacks(a, '\n'),
    ensures
        text_lines(Seq::<char>::empty()) == Seq::<Seq<char>>::empty(),
        a.len() > 0 ==> text_lines(a) == seq![a],
        text_lines(a.push('\n') + b) == seq![without_return(a)] + text_lines(b),
        a.len() > 0 && a.last() == '\r' ==> without_return(a) == a.drop_last(),
        a.len() == 0 || a.last() != '\r' ==> without_return(a) == a,
{
    let e = Seq::<char>::empty();
    a_text_is_split_where_the_character_stands(a, b, '\n');
    a_text_is_split_where_the_character_stands(e, e, '\n');
    assert(split_on(e, '\n') =~= seq![e]);
    assert(text_lines(e) =~= Seq::<Seq<char>>::empty());
    if a.len() > 0 {
        assert(split_on(a, '\n') == seq![a]);
        assert(text_lines(a) =~= seq![a]);
    }
    let y = split_on(b, '\n');
    let z = split_on(a.push('\n') + b, '\n');
    crate::text::lemma_split_has_one(b, '\n');
    assert(z == seq![a] + y);
    assert(z.last() == y.last());
    assert(text_lines(a.push('\n') + b) =~= seq![without_return(a)] + text_lines(b));
}

/// What lies between the outer pipes of a row is all of it.
pub proof fn a_row_lies_between_its_pipes(s: Seq<char>)
    ensures
        inside("| "@ + s + " |"@) == s,
{
    reveal_strlit("| ");
    reveal_strlit(" |");
    let line = "| "@ + s + " |"@;
    let rest = line.skip(2);
    assert(line.subrange(0, 2) =~= "| "@);
    assert(rest =~= s + " |"@);
    assert(rest.subrange(rest.len() - 2, rest.len() as int) =~= " |"@);
    assert(rest.take(rest.len() - 2) =~= s);
}

/// Whether a line of a Markdown table is right: as many cells as the grid has columns;
/// rules alone in the second line; the names in the first, and in each later one the
/// cells of a row, nothing for NULL, with their line breaks folded.
pub open spec fn line_is_right(line: Seq<char>, index: int) -> bool {
    let cells = cells_of(line);
    &&& cells.len() == COLUMNS@.len()
    &&& forall|j: int|
        0 <= j < COLUMNS@.len() ==> if index == 1 {
            #[trigger] cells[j] == "---"@
        } else if index == 0 {
            recovered(cells[j]) == folded(COLUMNS@[j].0@)
        } else if means_null(ROWS@[index - 2]@[j]@) {
            recovered(cells[j]).len() == 0
        } else {
            recovered(cells[j]) == folded(ROWS@[index - 2]@[j]@)
        }
}

proof fn lemma_line(line: Seq<char>, index: int)
    requires
        0 <= index < 5,
    ensures
        line_fault(line, index) is None <==> line_is_right(line, index),
{
    let cells = cells_of(line);
    let found = recovered_all(cells);
    let wanted = markdown_row(index);
    if cells.len() == 7 && index != 1 {
        if found == wanted {
            assert forall|j: int| 0 <= j < 7 implies if index == 0 {
                recovered(#[trigger] cells[j]) == folded(COLUMNS@[j].0@)
            } else if means_null(ROWS@[index - 2]@[j]@) {
                recovered(cells[j]).len() == 0
            } else {
                recovered(cells[j]) == folded(ROWS@[index - 2]@[j]@)
            } by {
                assert(found[j] == recovered(cells[j]));
                assert(found[j] == wanted[j]);
            }
        }
        if line_is_right(line, index) {
            assert forall|j: int| 0 <= j < 7 implies #[trigger] found[j] == wanted[j] by {
                assert(found[j] == recovered(cells[j]));
                if index > 1 && means_null(ROWS@[index - 2]@[j]@) {
                    assert(found[j] =~= wanted[j]);
                }
            }
            assert(found =~= wanted);
        }
    }
}

proof fn lemma_lines(all: Seq<Seq<char>>, from: int)
    requires
        0 <= from <= all.len(),
        all.len() == 5,
    ensures
        lines_fault(all, from) is None <==> forall|i: int|
            from <= i < 5 ==> line_is_right(#[trigger] all[i], i),
    decreases all.len() - from,
{
    if from < all.len() {
        lemma_line(all[from], from);
        lemma_lines(all, from + 1);
    }
}

/// A Markdown table passes exactly where it has a line of names, a line of rules and a
/// line for every row, and every one of them is right.
pub proof fn a_markdown_table_shows_every_cell(text: Seq<char>)
    ensures
        markdown_fault(text) is None <==> text_lines(text).len() == ROWS@.len() + 2 && forall|
            i: int,
        |
            0 <= i < text_lines(text).len() ==> line_is_right(#[trigger] text_lines(text)[i], i),
{
    let all = text_lines(text);
    if all.len() == 5 {
        lemma_lines(all, 0);
    }
}

/// A text of one line is its own folding, a line break of any kind between two lines is
/// folded into one `<br>`, and no folding holds a line break.
pub proof fn line_breaks_are_folded(a: Seq<char>, b: Seq<char>, s: Seq<char>)
    requires
        lacks(a, '\n'),
        lacks(a, '\r'),
        lacks(b, '\n'),
        lacks(b, '\r'),
    ensures
        folded(a) == a,
        folded(a + "\n"@ + b) == a + "<br>"@ + b,
        folded(a + "\r"@ + b) == a + "<br>"@ + b,
        folded(a + "\r\n"@ + b) == a + "<br>"@ + b,
        lacks(folded(s), '\n') && lacks(folded(s), '\r'),
{
    a_line_is_its_own_folding(a);
    folding_leaves_no_line_break(s);
    lemma_feed_folded(a, b);
    lemma_return_folded(a, b);
    lemma_both_folded(a, b);
}

/// One break between two texts that lack its first character is replaced.
proof fn lemma_one_replaced(a: Seq<char>, needle: Seq<char>, b: Seq<char>, to: Seq<char>)
    requires
        needle.len() > 0,
        lacks(a, needle[0]),
        lacks(b, needle[0]),
    ensures
        replaced(a + needle + b, needle, to) == a + to + b,
{
    let s = a + needle + b;
    let n = a.len() as int;
    assert(s.subrange(n, n + needle.len()) =~= needle);
    assert forall|k: int| 0 <= k < n implies !#[trigger] stands_at(s, needle, k) by {
        if stands_at(s, needle, k) {
            assert(s.subrange(k, k + needle.len())[0] == needle[0]);
            assert(s[k] == a[k]);
        }
    }
    assert(first_at(s, needle, n));
    occurrences_are_found_from_the_left(s, needle, to, n);
    assert(s.take(n) =~= a);
    assert(s.skip(n + needle.len()) =~= b);
    nothing_to_replace(b, needle, to);
}

proof fn lemma_breaks()
    ensures
        "\n"@ == seq!['\n'],
        "\r"@ == seq!['\r'],
        "\r\n"@ == seq!['\r', '\n'],
        lacks("<br>"@, '\n'),
        lacks("<br>"@, '\r'),
{
    reveal_strlit("\n");
    reveal_strlit("\r");
    reveal_strlit("\r\n");
    reveal_strlit("<br>");
    assert("\n"@ =~= seq!['\n']);
    assert("\r"@ =~= seq!['\r']);
    assert("\r\n"@ =~= seq!['\r', '\n']);
}

proof fn lemma_feed_folded(a: Seq<char>, b: Seq<char>)
    requires
        lacks(a, '\n') && lacks(a, '\r') && lacks(b, '\n') && lacks(b, '\r'),
    ensures
        folded(a + "\n"@ + b) == a + "<br>"@ + b,
{
    lemma_breaks();
    let s = a + "\n"@ + b;
    let t = a + "<br>"@ + b;
    assert(lacks(s, '\r'));
    nothing_to_replace(s, "\r\n"@, "<br>"@);
    lemma_one_replaced(a, "\n"@, b, "<br>"@);
    assert(lacks(t, '\r'));
    nothing_to_replace(t, "\r"@, "<br>"@);
}

proof fn lemma_return_folded(a: Seq<char>, b: Seq<char>)
    requires
        lacks(a, '\n') && lacks(a, '\r') && lacks(b, '\n') && lacks(b, '\r'),
    ensures
        folded(a + "\r"@ + b) == a + "<br>"@ + b,
{
    lemma_breaks();
    let s = a + "\r"@ + b;
    assert(lacks(s, '\n'));
    assert(!contains(s, "\r\n"@)) by {
        if contains(s, "\r\n"@) {
            let k = choose|k: int| stands_at(s, "\r\n"@, k);
            assert(s.subrange(k, k + 2)[1] == '\n');
            assert(s[k + 1] == '\n');
        }
    }
    occurrences_are_found_from_the_left(s, "\r\n"@, "<br>"@, 0);
    nothing_to_replace(s, "\n"@, "<br>"@);
    lemma_one_replaced(a, "\r"@, b, "<br>"@);
}

proof fn lemma_both_folded(a: Seq<char>, b: Seq<char>)
    requires
        lacks(a, '\n') && lacks(a, '\r') && lacks(b, '\n') && lacks(b, '\r'),
    ensures
        folded(a + "\r\n"@ + b) == a + "<br>"@ + b,
{
    lemma_breaks();
    let t = a + "<br>"@ + b;
    lemma_one_replaced(a, "\r\n"@, b, "<br>"@);
    assert(lacks(t, '\n'));
    assert(lacks(t, '\r'));
    nothing_to_replace(t, "\n"@, "<br>"@);
    nothing_to_replace(t, "\r"@, "<br>"@);
}

/// Names and cells of the grid are hostile: a separator, quotes, a tab, line breaks of
/// both kinds, a pipe, a backslash, markup and its end, a control character, a number
/// with zeros before it, NULL in both spellings, and names that are blank, come twice,
/// begin with a digit or hold what no name may.
pub proof fn the_grid_is_hostile()
    ensures
        contains(ROWS@[0]@[1]@, ", "@) && contains(ROWS@[0]@[1]@, "\""@),
        contains(ROWS@[0]@[5]@, "\t"@),
        contains(ROWS@[0]@[6]@, "\n"@) && contains(ROWS@[2]@[6]@, "\r"@),
        contains(ROWS@[1]@[1]@, "|"@) && ROWS@[1]@[1]@.last() == '\\',
        contains(ROWS@[1]@[5]@, "<"@) && contains(ROWS@[1]@[5]@, "&"@) && contains(
            ROWS@[1]@[5]@,
            "]]>"@,
        ),
        ROWS@[2]@[5]@[7] == '\u{1}',
        ROWS@[0]@[2]@[0] == '0',
        ROWS@[2]@[1]@ == "NULL"@ && ROWS@[2]@[2]@.len() == 0,
        COLUMNS@[5].0@.len() == 0,
        COLUMNS@[0].0@ == COLUMNS@[3].0@,
        COLUMNS@[4].0@[0] == '2',
        contains(COLUMNS@[2].0@, "("@),
{
    reveal_strlit("comma, and \"quotes\"");
    reveal_strlit(", ");
    reveal_strlit("\"");
    let a = ROWS@[0]@[1]@;
    assert(a.subrange(5, 7) =~= ", "@);
    assert(stands_at(a, ", "@, 5));
    assert(a.subrange(11, 12) =~= "\""@);
    assert(stands_at(a, "\""@, 11));
    lemma_hostile_breaks();
    lemma_hostile_markup();
    lemma_hostile_names();
}

proof fn lemma_hostile_breaks()
    ensures
        contains(ROWS@[0]@[5]@, "\t"@),
        contains(ROWS@[0]@[6]@, "\n"@) && contains(ROWS@[2]@[6]@, "\r"@),
        ROWS@[2]@[5]@[7] == '\u{1}',
        ROWS@[0]@[2]@[0] == '0',
        ROWS@[2]@[2]@.len() == 0,
{
    reveal_strlit("tab\there");
    reveal_strlit("\t");
    reveal_strlit("line1\nline2");
    reveal_strlit("\n");
    reveal_strlit("carriage\rreturn");
    reveal_strlit("\r");
    reveal_strlit("control\u{1}char");
    reveal_strlit("00123");
    reveal_strlit("");
    let t = ROWS@[0]@[5]@;
    assert(t.subrange(3, 4) =~= "\t"@);
    assert(stands_at(t, "\t"@, 3));
    let n = ROWS@[0]@[6]@;
    assert(n.subrange(5, 6) =~= "\n"@);
    assert(stands_at(n, "\n"@, 5));
    let r = ROWS@[2]@[6]@;
    assert(r.subrange(8, 9) =~= "\r"@);
    assert(stands_at(r, "\r"@, 8));
}

proof fn lemma_hostile_markup()
    ensures
        contains(ROWS@[1]@[1]@, "|"@) && ROWS@[1]@[1]@.last() == '\\',
        contains(ROWS@[1]@[5]@, "<"@) && contains(ROWS@[1]@[5]@, "&"@) && contains(
            ROWS@[1]@[5]@,
            "]]>"@,
        ),
{
    reveal_strlit("pipe | and backslash \\");
    reveal_strlit("|");
    reveal_strlit("<tag> & \"amp\" ]]>");
    reveal_strlit("<");
    reveal_strlit("&");
    reveal_strlit("]]>");
    let p = ROWS@[1]@[1]@;
    assert(p.subrange(5, 6) =~= "|"@);
    assert(stands_at(p, "|"@, 5));
    let m = ROWS@[1]@[5]@;
    assert(m.subrange(0, 1) =~= "<"@);
    assert(stands_at(m, "<"@, 0));
    assert(m.subrange(6, 7) =~= "&"@);
    assert(stands_at(m, "&"@, 6));
    assert(m.subrange(14, 17) =~= "]]>"@);
    assert(stands_at(m, "]]>"@, 14));
}

proof fn lemma_hostile_names()
    ensures
        COLUMNS@[5].0@.len() == 0,
        COLUMNS@[0].0@ == COLUMNS@[3].0@,
        COLUMNS@[4].0@[0] == '2',
        contains(COLUMNS@[2].0@, "("@),
{
    reveal_strlit("");
    reveal_strlit("2024_TOTAL");
    reveal_strlit("COUNT(*)");
    reveal_strlit("(");
    let c = COLUMNS@[2].0@;
    assert(c.subrange(5, 6) =~= "("@);
    assert(stands_at(c, "("@, 5));
}

} // verus!
