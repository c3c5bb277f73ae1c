//! The result grid: columns, kinds and rows as the grid receives them, without
//! the internal columns it never exports.
use vstd::prelude::*;
use vstd::string::*;

use crate::progress::{
    inner, leading_cell, leading_cell_of, progress_inner, rows, rows_of, QueryProgress,
    SqlValueKind,
};
use crate::text::{
    begins_with, chars_of, ends, ends_with, integer_value, parse_integer, same, same_but_case,
    same_ignoring_case, same_texts, starts, text_of, to_upper, trim, trimmed, upper, views,
};

verus! {

pub open spec fn strip_leading(s: Seq<char>, c: char) -> Seq<char>
    decreases s.len(),
{
    if s.len() > 0 && s[0] == c {
        strip_leading(s.drop_first(), c)
    } else {
        s
    }
}

pub open spec fn strip_trailing(s: Seq<char>, c: char) -> Seq<char>
    decreases s.len(),
{
    if s.len() > 0 && s.last() == c {
        strip_trailing(s.drop_last(), c)
    } else {
        s
    }
}

/// `str::trim_matches` with one character.
pub open spec fn stripped(s: Seq<char>, c: char) -> Seq<char> {
    strip_trailing(strip_leading(s, c), c)
}

proof fn lemma_strip_leading(s: Seq<char>, c: char, from: int)
    requires
        0 <= from <= s.len(),
        forall|k: int| 0 <= k < from ==> #[trigger] s[k] == c,
        from < s.len() ==> s[from] != c,
    ensures
        strip_leading(s, c) == s.skip(from),
    decreases from,
{
    if from > 0 {
        let t = s.drop_first();
        assert forall|k: int| 0 <= k < from - 1 implies #[trigger] t[k] == c by {
            assert(t[k] == s[k + 1]);
        }
        lemma_strip_leading(t, c, from - 1);
        assert(t.skip(from - 1) =~= s.skip(from));
    } else {
        assert(s.skip(0) =~= s);
    }
}

proof fn lemma_strip_trailing(s: Seq<char>, c: char, to: int)
    requires
        0 <= to <= s.len(),
        forall|k: int| to <= k < s.len() ==> #[trigger] s[k] == c,
        0 < to ==> s[to - 1] != c,
    ensures
        strip_trailing(s, c) == s.take(to),
    decreases s.len() - to,
{
    if to < s.len() {
        lemma_strip_trailing(s.drop_last(), c, to);
        assert(s.drop_last().take(to) =~= s.take(to));
    } else {
        assert(s.take(to) =~= s);
    }
}

/// `str::trim_matches` with one character.
pub fn strip(s: &str, c: char) -> (r: String)
    ensures
        r@ == stripped(s@, c),
{
    let x = chars_of(s);
    let mut from: usize = 0;
    while from < x.len() && x[from] == c
        invariant
            from <= x@.len(),
            forall|k: int| 0 <= k < from ==> #[trigger] x@[k] == c,
        decreases x@.len() - from,
    {
        from += 1;
    }
    proof {
        lemma_strip_leading(x@, c, from as int);
    }
    let mut to: usize = x.len();
    while to > from && x[to - 1] == c
        invariant
            from <= to <= x@.len(),
            forall|k: int| to <= k < x@.len() ==> #[trigger] x@[k] == c,
        decreases to,
    {
        to -= 1;
    }
    proof {
        let rest = x@.skip(from as int);
        assert forall|k: int| to - from <= k < rest.len() implies #[trigger] rest[k] == c by {
            assert(rest[k] == x@[k + from]);
        }
        lemma_strip_trailing(rest, c, to - from);
        assert(rest.take(to - from) =~= x@.subrange(from as int, to as int));
    }
    text_of(&x, from, to)
}

/// Whether two column names are one, up to quotes and case.
pub open spec fn names_column(column: Seq<char>, name: Seq<char>) -> bool {
    same_ignoring_case(stripped(column, '"'), name)
}

/// Whether the grid shows a column of this name to the user: the row locators
/// and edit bookkeeping that editable results carry are internal.
pub open spec fn exported(column: Seq<char>) -> bool {
    let name = upper(stripped(column, '"'));
    &&& name != "ROWID"@
    &&& !ends_with(name, ".ROWID"@)
    &&& name != "SQ_INTERNAL_ROWID"@
    &&& name != "SQ_INTERNAL_EDIT_SNAPSHOT"@
    &&& !begins_with(name, "SQ_INTERNAL_EDIT_KEY_"@)
}

pub fn is_exported(column: &str) -> (r: bool)
    ensures
        r == exported(column@),
{
    let bare = strip(column, '"');
    let name = to_upper(bare.as_str());
    !same(name.as_str(), "ROWID") && !ends(name.as_str(), ".ROWID") && !same(
        name.as_str(),
        "SQ_INTERNAL_ROWID",
    ) && !same(name.as_str(), "SQ_INTERNAL_EDIT_SNAPSHOT") && !starts(
        name.as_str(),
        "SQ_INTERNAL_EDIT_KEY_",
    )
}

/// The positions of the exported columns, in order.
pub open spec fn keep(columns: Seq<String>) -> Seq<int>
    decreases columns.len(),
{
    if columns.len() == 0 {
        Seq::empty()
    } else {
        let before = keep(columns.drop_last());
        if exported(columns.last()@) { before.push(columns.len() - 1) } else { before }
    }
}

/// Columns, kinds and rows of a result, as plain data.
pub struct GridView {
    pub columns: Vec<String>,
    pub kinds: Vec<SqlValueKind>,
    pub rows: Vec<Vec<String>>,
}

/// What a grid view holds, as sequences of texts.
#[verifier::ext_equal]
pub struct GridModel {
    pub columns: Seq<Seq<char>>,
    pub kinds: Seq<SqlValueKind>,
    pub rows: Seq<Seq<Seq<char>>>,
}

/// The rows of a table as texts.
pub open spec fn table(rows: Seq<Vec<String>>) -> Seq<Seq<Seq<char>>> {
    Seq::new(rows.len(), |i: int| views(rows[i]@))
}

impl View for GridView {
    type V = GridModel;

    open spec fn view(&self) -> GridModel {
        GridModel { columns: views(self.columns@), kinds: self.kinds@, rows: table(self.rows@) }
    }
}

/// A cell of a row; a row that is too short has an empty one there.
pub open spec fn cell_or_empty(row: Seq<String>, at: int) -> Seq<char> {
    if 0 <= at < row.len() { row[at]@ } else { Seq::empty() }
}

pub open spec fn kind_or_unknown(kinds: Seq<SqlValueKind>, at: int) -> SqlValueKind {
    if 0 <= at < kinds.len() { kinds[at] } else { SqlValueKind::Unknown }
}

pub open spec fn kept_row(row: Seq<String>, kept: Seq<int>) -> Seq<Seq<char>> {
    Seq::new(kept.len(), |i: int| cell_or_empty(row, kept[i]))
}

/// The grid that these columns, kinds and streamed rows make.
pub open spec fn grid_of(
    columns: Seq<String>,
    kinds: Seq<SqlValueKind>,
    streamed: Seq<Vec<String>>,
) -> GridModel {
    let kept = keep(columns);
    GridModel {
        columns: Seq::new(kept.len(), |i: int| columns[kept[i]]@),
        kinds: Seq::new(kept.len(), |i: int| kind_or_unknown(kinds, kept[i])),
        rows: Seq::new(streamed.len(), |i: int| kept_row(streamed[i]@, kept)),
    }
}

/// The first event that opens a result set with at least one column.
pub open spec fn heading(events: Seq<QueryProgress>) -> Option<QueryProgress>
    decreases events.len(),
{
    if events.len() == 0 {
        None
    } else {
        match inner(events[0]) {
            QueryProgress::SelectStart { columns, column_kinds, sql } => if columns@.len() > 0 {
                Some(inner(events[0]))
            } else {
                heading(events.drop_first())
            },
            _ => heading(events.drop_first()),
        }
    }
}

fn heading_of(events: &Vec<QueryProgress>) -> (r: Option<&QueryProgress>)
    ensures
        r is Some <==> heading(events@) is Some,
        r matches Some(event) ==> heading(events@) == Some(*event) && *event is SelectStart,
{
    let mut i: usize = 0;
    assert(events@.skip(0) =~= events@);
    while i < events.len()
        invariant
            i <= events@.len(),
            heading(events@) == heading(events@.skip(i as int)),
        decreases events@.len() - i,
    {
        assert(events@.skip(i as int).drop_first() =~= events@.skip(i + 1));
        let event = progress_inner(&events[i]);
        match event {
            QueryProgress::SelectStart { columns, .. } => {
                if columns.len() > 0 {
                    return Some(event);
                }
            },
            _ => {},
        }
        i += 1;
    }
    None
}

/// The statement text that the first opened result set carried.
pub fn select_start_sql(events: &Vec<QueryProgress>) -> (r: Option<String>)
    ensures
        r is Some <==> heading(events@) is Some,
        r matches Some(sql) ==> sql@ == heading(events@)->0->SelectStart_sql@,
{
    match heading_of(events) {
        Some(QueryProgress::SelectStart { sql, .. }) => Some(sql.clone()),
        _ => None,
    }
}

/// Columns, kinds and rows of the events, if a result set was opened.
pub open spec fn grid_model(events: Seq<QueryProgress>) -> Option<GridModel> {
    match heading(events) {
        Some(QueryProgress::SelectStart { columns, column_kinds, sql }) => Some(
            grid_of(columns@, column_kinds@, rows(events)),
        ),
        _ => None,
    }
}

proof fn lemma_keep(columns: Seq<String>)
    ensures
        keep(columns).len() <= columns.len(),
        forall|i: int|
            0 <= i < keep(columns).len() ==> 0 <= #[trigger] keep(columns)[i] < columns.len()
                && exported(columns[keep(columns)[i]]@),
        forall|i: int, j: int|
            0 <= i < j < keep(columns).len() ==> keep(columns)[i] < keep(columns)[j],
    decreases columns.len(),
{
    if columns.len() > 0 {
        lemma_keep(columns.drop_last());
    }
}

fn keep_of(columns: &Vec<String>) -> (r: Vec<usize>)
    ensures
        r@.len() == keep(columns@).len(),
        forall|i: int| 0 <= i < r@.len() ==> r@[i] as int == #[trigger] keep(columns@)[i],
        forall|i: int| 0 <= i < r@.len() ==> (#[trigger] r@[i]) < columns@.len(),
{
    let mut out: Vec<usize> = Vec::new();
    let mut i: usize = 0;
    while i < columns.len()
        invariant
            i <= columns@.len(),
            out@.len() == keep(columns@.take(i as int)).len(),
            forall|k: int|
                0 <= k < out@.len() ==> out@[k] as int == #[trigger] keep(
                    columns@.take(i as int),
                )[k],
            forall|k: int| 0 <= k < out@.len() ==> (#[trigger] out@[k]) < columns@.len(),
        decreases columns@.len() - i,
    {
        assert(columns@.take(i + 1).drop_last() =~= columns@.take(i as int));
        if is_exported(columns[i].as_str()) {
            out.push(i);
        }
        i += 1;
    }
    assert(columns@.take(i as int) =~= columns@);
    out
}

fn kept_row_of(row: &Vec<String>, kept: &Vec<usize>, Ghost(positions): Ghost<Seq<int>>) -> (r: Vec<
    String,
>)
    requires
        kept@.len() == positions.len(),
        forall|i: int| 0 <= i < kept@.len() ==> kept@[i] as int == #[trigger] positions[i],
    ensures
        views(r@) == kept_row(row@, positions),
{
    let mut out: Vec<String> = Vec::new();
    let mut i: usize = 0;
    while i < kept.len()
        invariant
            i <= kept@.len(),
            kept@.len() == positions.len(),
            forall|i: int| 0 <= i < kept@.len() ==> kept@[i] as int == #[trigger] positions[i],
            out@.len() == i,
            forall|k: int|
                0 <= k < i ==> (#[trigger] out@[k])@ == cell_or_empty(row@, positions[k]),
        decreases kept@.len() - i,
    {
        assert(kept@[i as int] as int == positions[i as int]);
        let at: usize = kept[i];
        if at < row.len() {
            out.push(row[at].clone());
        } else {
            out.push(String::new());
        }
        i += 1;
    }
    assert(views(out@) =~= kept_row(row@, positions));
    out
}

/// Columns, kinds and rows exactly as the grid would receive them.
pub fn grid_view(events: &Vec<QueryProgress>) -> (r: Option<GridView>)
    ensures
        r is Some <==> grid_model(events@) is Some,
        r matches Some(view) ==> grid_model(events@) == Some(view@),
{
    match heading_of(events) {
        Some(QueryProgress::SelectStart { columns, column_kinds, sql }) => {
            let kept = keep_of(columns);
            let ghost positions = keep(columns@);
            let mut names: Vec<String> = Vec::new();
            let mut kinds: Vec<SqlValueKind> = Vec::new();
            let mut i: usize = 0;
            while i < kept.len()
                invariant
                    i <= kept@.len(),
                    kept@.len() == positions.len(),
                    forall|i: int|
                        0 <= i < kept@.len() ==> kept@[i] as int == #[trigger] positions[i],
                    forall|i: int| 0 <= i < kept@.len() ==> (#[trigger] kept@[i]) < columns@.len(),
                    names@.len() == i,
                    kinds@.len() == i,
                    forall|k: int|
                        0 <= k < i ==> (#[trigger] names@[k])@ == columns@[positions[k]]@,
                    forall|k: int|
                        0 <= k < i ==> #[trigger] kinds@[k] == kind_or_unknown(
                            column_kinds@,
                            positions[k],
                        ),
                decreases kept@.len() - i,
            {
                assert(kept@[i as int] as int == positions[i as int]);
                let at: usize = kept[i];
                names.push(columns[at].clone());
                if at < column_kinds.len() {
                    kinds.push(column_kinds[at]);
                } else {
                    kinds.push(SqlValueKind::Unknown);
                }
                i += 1;
            }
            let streamed = rows_of(events);
            let mut out: Vec<Vec<String>> = Vec::new();
            let mut j: usize = 0;
            while j < streamed.len()
                invariant
                    j <= streamed@.len(),
                    kept@.len() == positions.len(),
                    forall|i: int|
                        0 <= i < kept@.len() ==> kept@[i] as int == #[trigger] positions[i],
                    streamed@.len() == rows(events@).len(),
                    forall|i: int|
                        0 <= i < streamed@.len() ==> *streamed@[i] == #[trigger] rows(events@)[i],
                    out@.len() == j,
                    forall|k: int|
                        0 <= k < j ==> views((#[trigger] out@[k])@) == kept_row(
                            rows(events@)[k]@,
                            positions,
                        ),
                decreases streamed@.len() - j,
            {
                out.push(kept_row_of(streamed[j], &kept, Ghost(positions)));
                j += 1;
            }
            let view = GridView { columns: names, kinds, rows: out };
            assert(view@ =~= grid_of(columns@, column_kinds@, rows(events@)));
            Some(view)
        },
        _ => None,
    }
}

/// A grid view never holds an internal column, and each of its rows is as wide
/// as its header.
pub proof fn grid_holds_only_exported_columns(events: Seq<QueryProgress>, i: int)
    requires
        grid_model(events) is Some,
    ensures
        0 <= i < grid_model(events)->0.columns.len() ==> exported(grid_model(events)->0.columns[i]),
        grid_model(events)->0.kinds.len() == grid_model(events)->0.columns.len(),
        0 <= i < grid_model(events)->0.rows.len() ==> grid_model(events)->0.rows[i].len()
            == grid_model(events)->0.columns.len(),
        grid_model(events)->0.rows.len() == rows(events).len(),
{
    match heading(events) {
        Some(QueryProgress::SelectStart { columns, column_kinds, sql }) => {
            lemma_keep(columns@);
        },
        _ => {},
    }
}

/// The position of the first column of that name.
pub open spec fn position(columns: Seq<String>, name: Seq<char>) -> Option<int>
    decreases columns.len(),
{
    if columns.len() == 0 {
        None
    } else {
        match position(columns.drop_last(), name) {
            Some(at) => Some(at),
            None => if names_column(columns.last()@, name) {
                Some(columns.len() - 1)
            } else {
                None
            },
        }
    }
}

fn position_of(columns: &Vec<String>, name: &str) -> (r: Option<usize>)
    ensures
        r is Some <==> position(columns@, name@) is Some,
        r matches Some(at) ==> position(columns@, name@) == Some(at as int) && at < columns@.len(),
{
    let mut found: Option<usize> = None;
    let mut i: usize = 0;
    while i < columns.len()
        invariant
            i <= columns@.len(),
            found is Some <==> position(columns@.take(i as int), name@) is Some,
            found matches Some(at) ==> position(columns@.take(i as int), name@) == Some(at as int)
                && at < i,
        decreases columns@.len() - i,
    {
        assert(columns@.take(i + 1).drop_last() =~= columns@.take(i as int));
        if found.is_none() {
            let bare = strip(columns[i].as_str(), '"');
            if same_but_case(bare.as_str(), name) {
                found = Some(i);
            }
        }
        i += 1;
    }
    assert(columns@.take(i as int) =~= columns@);
    found
}

/// The position found is the least one whose column has the name, and none is
/// found exactly where no column has it.
pub proof fn position_is_first(columns: Seq<String>, name: Seq<char>)
    ensures
        match position(columns, name) {
            Some(at) => 0 <= at < columns.len() && names_column(columns[at]@, name) && forall|
                k: int,
            |
                0 <= k < at ==> !names_column((#[trigger] columns[k])@, name),
            None => forall|k: int|
                0 <= k < columns.len() ==> !names_column((#[trigger] columns[k])@, name),
        },
    decreases columns.len(),
{
    if columns.len() > 0 {
        let before = columns.drop_last();
        position_is_first(before, name);
        match position(before, name) {
            Some(at) => {
                assert(before[at] == columns[at]);
                assert forall|k: int| 0 <= k < at implies !names_column(
                    (#[trigger] columns[k])@,
                    name,
                ) by {
                    assert(before[k] == columns[k]);
                }
            },
            None => {
                assert forall|k: int| 0 <= k < columns.len() - 1 implies !names_column(
                    (#[trigger] columns[k])@,
                    name,
                ) by {
                    assert(before[k] == columns[k]);
                }
            },
        }
    }
}

/// The position of a column, or the error that names the missing one.
pub fn column_index(columns: &Vec<String>, name: &str) -> (r: Result<usize, String>)
    ensures
        r is Ok <==> position(columns@, name@) is Some,
        r matches Ok(at) ==> position(columns@, name@) == Some(at as int) && at < columns@.len(),
        r matches Err(e) ==> e@ == "column "@ + name@ + " missing from the result set"@,
{
    match position_of(columns, name) {
        Some(at) => Ok(at),
        None => {
            let mut error = "column ".to_owned();
            error.append(name);
            error.append(" missing from the result set");
            Err(error)
        },
    }
}

/// The column position that the last opened result set gives a name.
pub open spec fn last_position(events: Seq<QueryProgress>, name: Seq<char>) -> Option<int>
    decreases events.len(),
{
    if events.len() == 0 {
        None
    } else {
        match inner(events.last()) {
            QueryProgress::SelectStart { columns, column_kinds, sql } => position(columns@, name),
            _ => last_position(events.drop_last(), name),
        }
    }
}

/// The value of the named column in the first streamed row.
pub open spec fn cell_by_col_spec(events: Seq<QueryProgress>, name: Seq<char>) -> Option<Seq<char>> {
    match last_position(events, name) {
        Some(at) => if rows(events).len() > 0 && at < rows(events)[0]@.len() {
            Some(rows(events)[0]@[at]@)
        } else {
            None
        },
        None => None,
    }
}

/// Reads the first data row's value for the named column. Editable results
/// carry a leading locator column, so the position comes from the header.
pub fn cell_by_col(events: &Vec<QueryProgress>, col_name: &str) -> (r: Option<String>)
    ensures
        r is Some <==> cell_by_col_spec(events@, col_name@) is Some,
        r matches Some(cell) ==> cell_by_col_spec(events@, col_name@) == Some(cell@),
{
    let mut index: Option<usize> = None;
    let mut i: usize = 0;
    while i < events.len()
        invariant
            i <= events@.len(),
            index is Some <==> last_position(events@.take(i as int), col_name@) is Some,
            index matches Some(at) ==> last_position(events@.take(i as int), col_name@) == Some(
                at as int,
            ),
        decreases events@.len() - i,
    {
        assert(events@.take(i + 1).drop_last() =~= events@.take(i as int));
        match progress_inner(&events[i]) {
            QueryProgress::SelectStart { columns, .. } => {
                index = position_of(columns, col_name);
            },
            _ => {},
        }
        i += 1;
    }
    assert(events@.take(i as int) =~= events@);
    let streamed = rows_of(events);
    match index {
        Some(at) => {
            if streamed.len() > 0 {
                assert(*streamed@[0] == rows(events@)[0]);
                let row = streamed[0];
                if at < row.len() {
                    return Some(row[at].clone());
                }
            }
            None
        },
        None => None,
    }
}

/// The number that the first cell of a count query holds.
pub open spec fn counted(events: Seq<QueryProgress>) -> Option<int> {
    match leading_cell(events) {
        Some(cell) => integer_value(trim(cell)),
        None => None,
    }
}

/// The single number a `SELECT COUNT(*)` came back with.
pub fn single_count(events: &Vec<QueryProgress>) -> (r: Option<i64>)
    ensures
        r is Some <==> counted(events@) is Some,
        r matches Some(n) ==> counted(events@) == Some(n as int),
{
    match leading_cell_of(events) {
        Some(cell) => {
            let bare = trimmed(cell.as_str());
            match parse_integer(bare.as_str()) {
                Ok(n) => Some(n),
                Err(_) => None,
            }
        },
        None => None,
    }
}

/// The last cell of the first grid row, trimmed.
pub open spec fn count_text_spec(events: Seq<QueryProgress>) -> Option<Seq<char>> {
    match grid_model(events) {
        Some(view) => if view.rows.len() > 0 && view.rows[0].len() > 0 {
            Some(trim(view.rows[0].last()))
        } else {
            None
        },
        None => None,
    }
}

/// The text of the single number a `SELECT COUNT(*)` came back with, read from
/// the grid.
pub fn grid_count(events: &Vec<QueryProgress>) -> (r: Option<String>)
    ensures
        r is Some <==> count_text_spec(events@) is Some,
        r matches Some(text) ==> count_text_spec(events@) == Some(text@),
{
    match grid_view(events) {
        Some(view) => {
            if view.rows.len() > 0 {
                let row = &view.rows[0];
                assert(view@.rows[0] == views(row@));
                if row.len() > 0 {
                    assert(views(row@).last() == row@.last()@);
                    return Some(trimmed(row[row.len() - 1].as_str()));
                }
            }
            None
        },
        None => None,
    }
}

/// The first two cells of every row that has two.
pub open spec fn pairs_spec(streamed: Seq<Vec<String>>) -> Seq<(Seq<char>, Seq<char>)>
    decreases streamed.len(),
{
    if streamed.len() == 0 {
        Seq::empty()
    } else {
        let before = pairs_spec(streamed.drop_last());
        let row = streamed.last()@;
        if row.len() >= 2 { before.push((row[0]@, row[1]@)) } else { before }
    }
}

/// Every row of a two-column result, as pairs.
pub fn pairs(events: &Vec<QueryProgress>) -> (r: Vec<(String, String)>)
    ensures
        r@.len() == pairs_spec(rows(events@)).len(),
        forall|i: int|
            0 <= i < r@.len() ==> ((#[trigger] r@[i]).0@, r@[i].1@) == pairs_spec(
                rows(events@),
            )[i],
{
    let streamed = rows_of(events);
    let ghost all = rows(events@);
    let mut out: Vec<(String, String)> = Vec::new();
    let mut i: usize = 0;
    while i < streamed.len()
        invariant
            i <= streamed@.len(),
            streamed@.len() == all.len(),
            forall|k: int| 0 <= k < streamed@.len() ==> *streamed@[k] == #[trigger] all[k],
            out@.len() == pairs_spec(all.take(i as int)).len(),
            forall|k: int|
                0 <= k < out@.len() ==> ((#[trigger] out@[k]).0@, out@[k].1@) == pairs_spec(
                    all.take(i as int),
                )[k],
        decreases streamed@.len() - i,
    {
        assert(all.take(i + 1).drop_last() =~= all.take(i as int));
        assert(*streamed@[i as int] == all[i as int]);
        let row = streamed[i];
        if row.len() >= 2 {
            out.push((row[0].clone(), row[1].clone()));
        }
        i += 1;
    }
    assert(all.take(i as int) =~= all);
    out
}

/// The rows of a run's grid; none where no result set was opened.
pub open spec fn grid_rows(run: Seq<QueryProgress>) -> Seq<Seq<Seq<char>>> {
    match grid_model(run) {
        Some(view) => view.rows,
        None => Seq::empty(),
    }
}

pub fn grid_rows_of(run: &Vec<QueryProgress>) -> (r: Vec<Vec<String>>)
    ensures
        table(r@) == grid_rows(run@),
{
    match grid_view(run) {
        Some(view) => view.rows,
        None => {
            let none: Vec<Vec<String>> = Vec::new();
            assert(table(none@) =~= Seq::empty());
            none
        },
    }
}

/// The column names of a run's grid; none where no result set was opened.
pub open spec fn grid_columns(run: Seq<QueryProgress>) -> Seq<Seq<char>> {
    match grid_model(run) {
        Some(view) => view.columns,
        None => Seq::empty(),
    }
}

/// The position of the first column of that name.
pub open spec fn column_at(columns: Seq<Seq<char>>, name: Seq<char>) -> Option<int>
    decreases columns.len(),
{
    if columns.len() == 0 {
        None
    } else {
        match column_at(columns.drop_last(), name) {
            Some(at) => Some(at),
            None => if names_column(columns.last(), name) {
                Some(columns.len() - 1)
            } else {
                None
            },
        }
    }
}

proof fn lemma_column_at(columns: Seq<String>, name: Seq<char>)
    ensures
        column_at(views(columns), name) == position(columns, name),
    decreases columns.len(),
{
    if columns.len() > 0 {
        lemma_column_at(columns.drop_last(), name);
        assert(views(columns).drop_last() =~= views(columns.drop_last()));
        assert(views(columns).last() == columns.last()@);
    }
}

pub fn column_at_of(run: &Vec<QueryProgress>, name: &str) -> (r: Option<usize>)
    ensures
        r is Some <==> column_at(grid_columns(run@), name@) is Some,
        r matches Some(at) ==> column_at(grid_columns(run@), name@) == Some(at as int),
{
    match grid_view(run) {
        Some(view) => {
            proof {
                lemma_column_at(view.columns@, name@);
            }
            position_of(&view.columns, name)
        },
        None => None,
    }
}

/// The kind of a column of a run's grid.
pub open spec fn kind_of(run: Seq<QueryProgress>, at: int) -> SqlValueKind {
    match grid_model(run) {
        Some(view) => kind_or_unknown(view.kinds, at),
        None => SqlValueKind::Unknown,
    }
}

pub fn kind_in(run: &Vec<QueryProgress>, at: usize) -> (r: SqlValueKind)
    ensures
        r == kind_of(run@, at as int),
{
    match grid_view(run) {
        Some(view) => {
            if at < view.kinds.len() {
                view.kinds[at]
            } else {
                SqlValueKind::Unknown
            }
        },
        None => SqlValueKind::Unknown,
    }
}

/// The number a kind of value has in a plan.
pub const UNKNOWN_KIND: usize = 0;

pub const STRING_KIND: usize = 1;

pub const NUMBER_KIND: usize = 2;

pub const TEMPORAL_KIND: usize = 3;

pub const BINARY_KIND: usize = 4;

pub open spec fn kind_code(code: int) -> SqlValueKind {
    if code == STRING_KIND {
        SqlValueKind::String
    } else if code == NUMBER_KIND {
        SqlValueKind::Number
    } else if code == TEMPORAL_KIND {
        SqlValueKind::Temporal
    } else if code == BINARY_KIND {
        SqlValueKind::Binary
    } else {
        SqlValueKind::Unknown
    }
}

pub fn kind_at(code: usize) -> (r: SqlValueKind)
    ensures
        r == kind_code(code as int),
{
    if code == STRING_KIND {
        SqlValueKind::String
    } else if code == NUMBER_KIND {
        SqlValueKind::Number
    } else if code == TEMPORAL_KIND {
        SqlValueKind::Temporal
    } else if code == BINARY_KIND {
        SqlValueKind::Binary
    } else {
        SqlValueKind::Unknown
    }
}

pub open spec fn kind_name(kind: SqlValueKind) -> Seq<char> {
    match kind {
        SqlValueKind::String => "String"@,
        SqlValueKind::Number => "Number"@,
        SqlValueKind::Temporal => "Temporal"@,
        SqlValueKind::Binary => "Binary"@,
        SqlValueKind::Unknown => "Unknown"@,
    }
}

pub fn kind_label(kind: SqlValueKind) -> (r: &'static str)
    ensures
        r@ == kind_name(kind),
{
    match kind {
        SqlValueKind::String => "String",
        SqlValueKind::Number => "Number",
        SqlValueKind::Temporal => "Temporal",
        SqlValueKind::Binary => "Binary",
        SqlValueKind::Unknown => "Unknown",
    }
}

/// Whether two tables hold the same cells.
pub fn same_table(a: &Vec<Vec<String>>, b: &Vec<Vec<String>>) -> (r: bool)
    ensures
        r == (table(a@) == table(b@)),
{
    assert(table(a@).len() == a@.len());
    assert(table(b@).len() == b@.len());
    if a.len() != b.len() {
        return false;
    }
    let mut i: usize = 0;
    while i < a.len()
        invariant
            i <= a@.len() == b@.len(),
            forall|k: int| 0 <= k < i ==> views(a@[k]@) == views((#[trigger] b@[k])@),
        decreases a@.len() - i,
    {
        if !same_texts(&a[i], &b[i]) {
            assert(table(a@)[i as int] != table(b@)[i as int]);
            return false;
        }
        i += 1;
    }
    assert(table(a@) =~= table(b@));
    true
}

/// A table with one cell replaced; unchanged where there is no such cell.
pub open spec fn with_cell(t: Seq<Seq<Seq<char>>>, row: int, at: int, text: Seq<char>) -> Seq<
    Seq<Seq<char>>,
> {
    if 0 <= row < t.len() && 0 <= at < t[row].len() {
        t.update(row, t[row].update(at, text))
    } else {
        t
    }
}

fn set_cell(t: &mut Vec<Vec<String>>, row: usize, at: usize, text: &str)
    ensures
        table(final(t)@) == with_cell(table(old(t)@), row as int, at as int, text@),
{
    let ghost start = t@;
    if row < t.len() {
        let mut cells: Vec<String> = Vec::new();
        let size: usize = t[row].len();
        let mut i: usize = 0;
        while i < size
            invariant
                i <= size,
                t@ == start,
                row < t@.len(),
                size == t@[row as int]@.len(),
                cells@.len() == i,
                forall|k: int|
                    0 <= k < i ==> (#[trigger] cells@[k])@ == (if k == at {
                        text@
                    } else {
                        start[row as int]@[k]@
                    }),
            decreases size - i,
        {
            if i == at {
                cells.push(text.to_owned());
            } else {
                cells.push(t[row][i].clone());
            }
            i += 1;
        }
        let ghost new_cells = cells@;
        t[row] = cells;
        proof {
            let wanted = with_cell(table(start), row as int, at as int, text@);
            if at < size {
                assert(views(new_cells) =~= views(start[row as int]@).update(at as int, text@));
            } else {
                assert(views(new_cells) =~= views(start[row as int]@));
            }
            assert(table(t@) =~= wanted);
        }
    }
}

/// The rows of a grid with the first two names changed.
pub open spec fn updated_rows(run: Seq<QueryProgress>) -> Seq<Seq<Seq<char>>> {
    match column_at(grid_columns(run), "NAME"@) {
        Some(at) => with_cell(
            with_cell(grid_rows(run), 0, at, "UPDATED'X"@),
            1,
            at,
            "second"@,
        ),
        None => grid_rows(run),
    }
}

pub fn updated_rows_of(run: &Vec<QueryProgress>) -> (r: Vec<Vec<String>>)
    ensures
        table(r@) == updated_rows(run@),
{
    let mut rows = grid_rows_of(run);
    match column_at_of(run, "NAME") {
        Some(at) => {
            set_cell(&mut rows, 0, at, "UPDATED'X");
            set_cell(&mut rows, 1, at, "second");
        },
        None => {},
    }
    rows
}

/// Texts in upper case.
pub open spec fn uppers(names: Seq<String>) -> Seq<Seq<char>> {
    Seq::new(names.len(), |i: int| upper(names[i]@))
}

pub fn uppers_of(names: &Vec<String>) -> (r: Vec<String>)
    ensures
        views(r@) == uppers(names@),
{
    let mut out: Vec<String> = Vec::new();
    let mut i: usize = 0;
    while i < names.len()
        invariant
            i <= names@.len(),
            out@.len() == i,
            forall|k: int| 0 <= k < i ==> (#[trigger] out@[k])@ == upper(names@[k]@),
        decreases names@.len() - i,
    {
        out.push(to_upper(names[i].as_str()));
        i += 1;
    }
    assert(views(out@) =~= uppers(names@));
    out
}

/// The named cell of the first row; empty where there is none.
pub open spec fn named_cell(run: Seq<QueryProgress>, name: Seq<char>) -> Seq<char> {
    match cell_by_col_spec(run, name) {
        Some(cell) => cell,
        None => Seq::empty(),
    }
}

pub fn named_cell_of(run: &Vec<QueryProgress>, name: &str) -> (r: String)
    ensures
        r@ == named_cell(run@, name@),
{
    match cell_by_col(run, name) {
        Some(cell) => cell,
        None => String::new(),
    }
}

} // verus!
