//! What the editor reports while it runs statements, and how a list of such
//! events is read.
use vstd::prelude::*;
use vstd::string::*;

use crate::grid::{exported, is_exported};
use crate::text::{debug_form, join, joined, quoted, views};

verus! {

/// The class of value a result column holds.
#[derive(Clone, Copy, Debug, PartialEq, Eq, Structural)]
pub enum SqlValueKind {
    String,
    Number,
    Temporal,
    Binary,
    Unknown,
}

#[derive(Clone, Copy, Debug, PartialEq, Eq, Structural)]
pub enum TransactionIsolation {
    Default,
    ReadUncommitted,
    ReadCommitted,
    RepeatableRead,
    Serializable,
}

#[derive(Clone, Copy, Debug, PartialEq, Eq, Structural)]
pub enum TransactionAccessMode {
    ReadWrite,
    ReadOnly,
}

/// A transaction mode: what a tab is pinned to, or what a connection defaults
/// to.
#[derive(Clone, Copy, Debug, PartialEq, Eq, Structural)]
pub struct TransactionMode {
    pub isolation: TransactionIsolation,
    pub access: TransactionAccessMode,
}

/// A finished statement.
#[derive(Debug)]
pub struct QueryResult {
    pub success: bool,
    pub is_select: bool,
    pub sql: String,
    pub message: String,
    pub rows: Vec<Vec<String>>,
}

/// One progress event of an execution.
#[derive(Debug)]
pub enum QueryProgress {
    SelectStart { columns: Vec<String>, column_kinds: Vec<SqlValueKind>, sql: String },
    Rows { rows: Vec<Vec<String>> },
    StatementFinished { result: QueryResult },
    Message { lines: Vec<String> },
    ScriptOutput { lines: Vec<String> },
    TransactionModeChanged { mode: TransactionMode, shown: String },
    ExecutionFinished { cancelled: bool },
    BatchFinished,
    Operation { progress: Box<QueryProgress> },
    StatementOrigin { progress: Box<QueryProgress> },
    Other,
}

/// The event inside every `Operation` and `StatementOrigin` wrapper.
pub open spec fn inner(event: QueryProgress) -> QueryProgress
    decreases event,
{
    match event {
        QueryProgress::Operation { progress } => inner(*progress),
        QueryProgress::StatementOrigin { progress } => inner(*progress),
        _ => event,
    }
}

pub open spec fn wrapped(event: QueryProgress) -> bool {
    event is Operation || event is StatementOrigin
}

/// The event inside every `Operation` and `StatementOrigin` wrapper.
pub fn progress_inner(event: &QueryProgress) -> (r: &QueryProgress)
    ensures
        *r == inner(*event),
        !wrapped(*r),
    decreases event,
{
    match event {
        QueryProgress::Operation { progress } => progress_inner(progress),
        QueryProgress::StatementOrigin { progress } => progress_inner(progress),
        _ => event,
    }
}

/// Unwrapping twice is unwrapping once: what is inside is never a wrapper.
pub proof fn inner_is_idempotent(event: QueryProgress)
    ensures
        inner(inner(event)) == inner(event),
        !wrapped(inner(event)),
    decreases event,
{
    match event {
        QueryProgress::Operation { progress } => inner_is_idempotent(*progress),
        QueryProgress::StatementOrigin { progress } => inner_is_idempotent(*progress),
        _ => {},
    }
}

/// The finished statements, in the order they finished.
pub open spec fn results(events: Seq<QueryProgress>) -> Seq<QueryResult>
    decreases events.len(),
{
    if events.len() == 0 {
        Seq::empty()
    } else {
        let before = results(events.drop_last());
        match inner(events.last()) {
            QueryProgress::StatementFinished { result } => before.push(result),
            _ => before,
        }
    }
}

/// The finished statements, in the order they finished.
pub fn results_of(events: &Vec<QueryProgress>) -> (r: Vec<&QueryResult>)
    ensures
        r@.len() == results(events@).len(),
        forall|i: int| 0 <= i < r@.len() ==> *r@[i] == #[trigger] results(events@)[i],
{
    let mut out: Vec<&QueryResult> = Vec::new();
    let mut i: usize = 0;
    while i < events.len()
        invariant
            i <= events@.len(),
            out@.len() == results(events@.take(i as int)).len(),
            forall|k: int|
                0 <= k < out@.len() ==> *out@[k] == #[trigger] results(events@.take(i as int))[k],
        decreases events@.len() - i,
    {
        assert(events@.take(i + 1).drop_last() =~= events@.take(i as int));
        match progress_inner(&events[i]) {
            QueryProgress::StatementFinished { result } => {
                out.push(result);
            },
            _ => {},
        }
        i += 1;
    }
    assert(events@.take(i as int) =~= events@);
    out
}


/// The first finished statement that a condition holds of.
pub open spec fn first_where(
    rs: Seq<QueryResult>,
    holds: spec_fn(QueryResult) -> bool,
) -> Option<QueryResult>
    decreases rs.len(),
{
    if rs.len() == 0 {
        None
    } else if holds(rs[0]) {
        Some(rs[0])
    } else {
        first_where(rs.drop_first(), holds)
    }
}

/// `first_where` is the element at the least index that the condition holds of.
pub proof fn first_where_is_least(
    rs: Seq<QueryResult>,
    holds: spec_fn(QueryResult) -> bool,
    at: int,
)
    requires
        0 <= at <= rs.len(),
        forall|k: int| 0 <= k < at ==> !holds(#[trigger] rs[k]),
        at < rs.len() ==> holds(rs[at]),
    ensures
        first_where(rs, holds) == (if at < rs.len() { Some(rs[at]) } else { None }),
    decreases at,
{
    if at > 0 {
        let rest = rs.drop_first();
        assert forall|k: int| 0 <= k < at - 1 implies !holds(#[trigger] rest[k]) by {
            assert(rest[k] == rs[k + 1]);
        }
        first_where_is_least(rest, holds, at - 1);
    }
}

/// The last finished statement.
pub fn last_result(events: &Vec<QueryProgress>) -> (r: Option<&QueryResult>)
    ensures
        r is Some <==> results(events@).len() > 0,
        r matches Some(result) ==> *result == results(events@).last(),
{
    let all = results_of(events);
    if all.len() == 0 {
        None
    } else {
        Some(all[all.len() - 1])
    }
}

/// Success and message of the last finished statement.
pub fn terminal_success(events: &Vec<QueryProgress>) -> (r: Option<(bool, String)>)
    ensures
        r is Some <==> results(events@).len() > 0,
        r matches Some((success, message)) ==> {
            &&& success == results(events@).last().success
            &&& message@ == results(events@).last().message@
        },
{
    match last_result(events) {
        Some(result) => Some((result.success, result.message.clone())),
        None => None,
    }
}

pub open spec fn unsuccessful(result: QueryResult) -> bool {
    !result.success
}

/// The message of the first statement that failed.
pub open spec fn first_error_spec(events: Seq<QueryProgress>) -> Option<Seq<char>> {
    match first_where(results(events), |r: QueryResult| unsuccessful(r)) {
        Some(result) => Some(result.message@),
        None => None,
    }
}

pub fn first_error(events: &Vec<QueryProgress>) -> (r: Option<String>)
    ensures
        r is Some <==> first_error_spec(events@) is Some,
        r matches Some(message) ==> first_error_spec(events@) == Some(message@),
{
    let all = results_of(events);
    let ghost p = |r: QueryResult| unsuccessful(r);
    let mut i: usize = 0;
    while i < all.len() && all[i].success
        invariant
            i <= all@.len(),
            all@.len() == results(events@).len(),
            forall|k: int| 0 <= k < all@.len() ==> *all@[k] == #[trigger] results(events@)[k],
            forall|k: int| 0 <= k < i ==> !unsuccessful(#[trigger] results(events@)[k]),
        decreases all@.len() - i,
    {
        i += 1;
    }
    proof {
        first_where_is_least(results(events@), p, i as int);
    }
    if i < all.len() {
        Some(all[i].message.clone())
    } else {
        None
    }
}

/// The `cancelled` flag of the last `ExecutionFinished` event.
pub open spec fn finished_flag(events: Seq<QueryProgress>) -> Option<bool>
    decreases events.len(),
{
    if events.len() == 0 {
        None
    } else {
        match inner(events.last()) {
            QueryProgress::ExecutionFinished { cancelled } => Some(cancelled),
            _ => finished_flag(events.drop_last()),
        }
    }
}

pub fn finished_event(events: &Vec<QueryProgress>) -> (r: Option<bool>)
    ensures
        r == finished_flag(events@),
{
    let mut i: usize = events.len();
    assert(events@.take(i as int) =~= events@);
    while i > 0
        invariant
            i <= events@.len(),
            finished_flag(events@) == finished_flag(events@.take(i as int)),
        decreases i,
    {
        assert(events@.take(i as int).drop_last() =~= events@.take(i - 1));
        match progress_inner(&events[i - 1]) {
            QueryProgress::ExecutionFinished { cancelled } => {
                return Some(*cancelled);
            },
            _ => {},
        }
        i -= 1;
    }
    None
}

/// Every streamed row, in order.
pub open spec fn rows(events: Seq<QueryProgress>) -> Seq<Vec<String>>
    decreases events.len(),
{
    if events.len() == 0 {
        Seq::empty()
    } else {
        let before = rows(events.drop_last());
        match inner(events.last()) {
            QueryProgress::Rows { rows } => before + rows@,
            _ => before,
        }
    }
}

pub fn rows_of(events: &Vec<QueryProgress>) -> (r: Vec<&Vec<String>>)
    ensures
        r@.len() == rows(events@).len(),
        forall|i: int| 0 <= i < r@.len() ==> *r@[i] == #[trigger] rows(events@)[i],
{
    let mut out: Vec<&Vec<String>> = Vec::new();
    let mut i: usize = 0;
    while i < events.len()
        invariant
            i <= events@.len(),
            out@.len() == rows(events@.take(i as int)).len(),
            forall|k: int|
                0 <= k < out@.len() ==> *out@[k] == #[trigger] rows(events@.take(i as int))[k],
        decreases events@.len() - i,
    {
        assert(events@.take(i + 1).drop_last() =~= events@.take(i as int));
        match progress_inner(&events[i]) {
            QueryProgress::Rows { rows: batch } => {
                let ghost before = rows(events@.take(i as int));
                let mut j: usize = 0;
                while j < batch.len()
                    invariant
                        j <= batch@.len(),
                        out@.len() == before.len() + j,
                        forall|k: int|
                            0 <= k < out@.len() ==> *out@[k] == #[trigger] (before + batch@)[k],
                    decreases batch@.len() - j,
                {
                    out.push(&batch[j]);
                    j += 1;
                }
            },
            _ => {},
        }
        i += 1;
    }
    assert(events@.take(i as int) =~= events@);
    out
}

/// Every message and script-output line, in order.
pub open spec fn lines(events: Seq<QueryProgress>) -> Seq<String>
    decreases events.len(),
{
    if events.len() == 0 {
        Seq::empty()
    } else {
        let before = lines(events.drop_last());
        match inner(events.last()) {
            QueryProgress::Message { lines } => before + lines@,
            QueryProgress::ScriptOutput { lines } => before + lines@,
            _ => before,
        }
    }
}

fn push_lines<'a>(out: &mut Vec<&'a String>, from: &'a Vec<String>)
    ensures
        final(out)@.len() == old(out)@.len() + from@.len(),
        forall|k: int| 0 <= k < old(out)@.len() ==> final(out)@[k] == old(out)@[k],
        forall|k: int|
            0 <= k < from@.len() ==> *final(out)@[old(out)@.len() + k] == #[trigger] from@[k],
{
    let ghost start = out@;
    let mut j: usize = 0;
    while j < from.len()
        invariant
            j <= from@.len(),
            start == old(out)@,
            out@.len() == start.len() + j,
            forall|k: int| 0 <= k < start.len() ==> out@[k] == start[k],
            forall|k: int| 0 <= k < j ==> *out@[start.len() + k] == #[trigger] from@[k],
        decreases from@.len() - j,
    {
        out.push(&from[j]);
        j += 1;
    }
}

pub fn lines_of(events: &Vec<QueryProgress>) -> (r: Vec<&String>)
    ensures
        r@.len() == lines(events@).len(),
        forall|i: int| 0 <= i < r@.len() ==> *r@[i] == #[trigger] lines(events@)[i],
{
    let mut out: Vec<&String> = Vec::new();
    let mut i: usize = 0;
    while i < events.len()
        invariant
            i <= events@.len(),
            out@.len() == lines(events@.take(i as int)).len(),
            forall|k: int|
                0 <= k < out@.len() ==> *out@[k] == #[trigger] lines(events@.take(i as int))[k],
        decreases events@.len() - i,
    {
        assert(events@.take(i + 1).drop_last() =~= events@.take(i as int));
        let ghost before = lines(events@.take(i as int));
        match progress_inner(&events[i]) {
            QueryProgress::Message { lines: more } => {
                push_lines(&mut out, more);
                assert(forall|k: int|
                    0 <= k < more@.len() ==> *out@[before.len() + k] == #[trigger] more@[k]);
            },
            QueryProgress::ScriptOutput { lines: more } => {
                push_lines(&mut out, more);
                assert(forall|k: int|
                    0 <= k < more@.len() ==> *out@[before.len() + k] == #[trigger] more@[k]);
            },
            _ => {},
        }
        i += 1;
    }
    assert(events@.take(i as int) =~= events@);
    out
}

/// The transaction modes announced, in order.
pub open spec fn mode_changes(events: Seq<QueryProgress>) -> Seq<TransactionMode>
    decreases events.len(),
{
    if events.len() == 0 {
        Seq::empty()
    } else {
        let before = mode_changes(events.drop_last());
        match inner(events.last()) {
            QueryProgress::TransactionModeChanged { mode, shown } => before.push(mode),
            _ => before,
        }
    }
}

pub fn mode_changes_of(events: &Vec<QueryProgress>) -> (r: Vec<TransactionMode>)
    ensures
        r@ == mode_changes(events@),
{
    let mut out: Vec<TransactionMode> = Vec::new();
    let mut i: usize = 0;
    while i < events.len()
        invariant
            i <= events@.len(),
            out@ == mode_changes(events@.take(i as int)),
        decreases events@.len() - i,
    {
        assert(events@.take(i + 1).drop_last() =~= events@.take(i as int));
        match progress_inner(&events[i]) {
            QueryProgress::TransactionModeChanged { mode, .. } => {
                out.push(*mode);
            },
            _ => {},
        }
        i += 1;
    }
    assert(events@.take(i as int) =~= events@);
    out
}

/// How the announced modes are written, in order.
pub open spec fn shown_modes(events: Seq<QueryProgress>) -> Seq<Seq<char>>
    decreases events.len(),
{
    if events.len() == 0 {
        Seq::empty()
    } else {
        let before = shown_modes(events.drop_last());
        match inner(events.last()) {
            QueryProgress::TransactionModeChanged { mode, shown } => before.push(shown@),
            _ => before,
        }
    }
}

pub fn shown_modes_of(events: &Vec<QueryProgress>) -> (r: Vec<String>)
    ensures
        views(r@) == shown_modes(events@),
{
    let mut out: Vec<String> = Vec::new();
    let mut i: usize = 0;
    assert(views(out@) =~= shown_modes(events@.take(0)));
    while i < events.len()
        invariant
            i <= events@.len(),
            views(out@) == shown_modes(events@.take(i as int)),
        decreases events@.len() - i,
    {
        let ghost before = out@;
        assert(events@.take(i + 1).drop_last() =~= events@.take(i as int));
        match progress_inner(&events[i]) {
            QueryProgress::TransactionModeChanged { shown, .. } => {
                out.push(shown.clone());
                assert(views(out@) =~= views(before).push(shown@));
            },
            _ => {},
        }
        i += 1;
    }
    assert(events@.take(i as int) =~= events@);
    out
}

/// The last cell of a row.
pub open spec fn last_cell(row: Vec<String>) -> Option<Seq<char>> {
    if row@.len() == 0 { None } else { Some(row@.last()@) }
}

/// The last cell of the first row of a batch.
pub open spec fn head_cell(batch: Seq<Vec<String>>) -> Option<Seq<char>> {
    if batch.len() == 0 { None } else { last_cell(batch[0]) }
}

/// The column names announced last.
pub open spec fn headings(events: Seq<QueryProgress>) -> Seq<String>
    decreases events.len(),
{
    if events.len() == 0 {
        Seq::empty()
    } else {
        match inner(events.last()) {
            QueryProgress::SelectStart { columns, column_kinds, sql } => columns@,
            _ => headings(events.drop_last()),
        }
    }
}

/// Whether the cell at a place holds data: its column is not an internal one.
pub open spec fn is_data(columns: Seq<String>, place: int) -> bool {
    place >= columns.len() || exported(columns[place]@)
}

/// The place of the first data cell, from a place on, in a row of so many cells;
/// the first place where there is none.
pub open spec fn data_place(columns: Seq<String>, width: int, from: int) -> int
    decreases width - from,
{
    if from >= width {
        0
    } else if is_data(columns, from) {
        from
    } else {
        data_place(columns, width, from + 1)
    }
}

/// The first data cell of the first row of a batch.
pub open spec fn data_cell(columns: Seq<String>, batch: Seq<Vec<String>>) -> Option<Seq<char>> {
    if batch.len() == 0 || batch[0]@.len() == 0 {
        None
    } else {
        Some(batch[0]@[data_place(columns, batch[0]@.len() as int, 0)]@)
    }
}

/// The first data cell of the last row set that has a cell in its first row.
pub open spec fn first_cell_spec(events: Seq<QueryProgress>) -> Option<Seq<char>>
    decreases events.len(),
{
    if events.len() == 0 {
        None
    } else {
        let here = match inner(events.last()) {
            QueryProgress::Rows { rows } => data_cell(headings(events.drop_last()), rows@),
            _ => None,
        };
        if here is Some { here } else { first_cell_spec(events.drop_last()) }
    }
}

proof fn lemma_data_place(columns: Seq<String>, width: int, from: int)
    requires
        0 <= from < width,
        forall|i: int| 0 <= i < from ==> !#[trigger] is_data(columns, i),
    ensures
        ({
            let place = data_place(columns, width, from);
            &&& 0 <= place < width
            &&& is_data(columns, place) ==> forall|i: int|
                0 <= i < place ==> !#[trigger] is_data(columns, i)
            &&& !is_data(columns, place) ==> place == 0 && forall|i: int|
                0 <= i < width ==> !#[trigger] is_data(columns, i)
        }),
    decreases width - from,
{
    if !is_data(columns, from) {
        if from + 1 < width {
            lemma_data_place(columns, width, from + 1);
        } else {
            assert(data_place(columns, width, width) == 0);
            assert(!is_data(columns, 0));
        }
    }
}

/// The first data cell of a row stands behind internal cells only; where the row
/// has no data cell, its first cell is taken.
pub proof fn data_place_is_first(columns: Seq<String>, width: int)
    requires
        0 < width,
    ensures
        ({
            let place = data_place(columns, width, 0);
            &&& 0 <= place < width
            &&& is_data(columns, place) ==> forall|i: int|
                0 <= i < place ==> !#[trigger] is_data(columns, i)
            &&& !is_data(columns, place) ==> place == 0 && forall|i: int|
                0 <= i < width ==> !#[trigger] is_data(columns, i)
        }),
{
    lemma_data_place(columns, width, 0);
}

pub fn head_cell_of(batch: &Vec<Vec<String>>) -> (r: Option<String>)
    ensures
        r is Some <==> head_cell(batch@) is Some,
        r matches Some(cell) ==> head_cell(batch@) == Some(cell@),
{
    if batch.len() == 0 {
        return None;
    }
    let row = &batch[0];
    if row.len() == 0 {
        return None;
    }
    Some(row[row.len() - 1].clone())
}

/// The place of the first data cell of a row, by the names announced before an
/// event.
fn data_place_before(events: &Vec<QueryProgress>, to: usize, width: usize) -> (r: usize)
    requires
        to <= events@.len(),
        0 < width,
    ensures
        r == data_place(headings(events@.take(to as int)), width as int, 0),
        r < width,
{
    let mut i: usize = to;
    while i > 0
        invariant
            i <= to <= events@.len(),
            0 < width,
            headings(events@.take(to as int)) == headings(events@.take(i as int)),
        decreases i,
    {
        assert(events@.take(i as int).drop_last() =~= events@.take(i - 1));
        match progress_inner(&events[i - 1]) {
            QueryProgress::SelectStart { columns, .. } => {
                let ghost names = headings(events@.take(to as int));
                assert(names == columns@);
                let mut k: usize = 0;
                while k < width
                    invariant
                        k <= width,
                        0 < width,
                        names == columns@,
                        names == headings(events@.take(to as int)),
                        data_place(names, width as int, 0) == data_place(
                            names,
                            width as int,
                            k as int,
                        ),
                    decreases width - k,
                {
                    if k >= columns.len() || is_exported(columns[k].as_str()) {
                        return k;
                    }
                    k += 1;
                }
                return 0;
            },
            _ => {},
        }
        i -= 1;
    }
    assert(is_data(headings(events@.take(to as int)), 0));
    0
}

/// First data cell of the last streamed row set, as text: of its first row, the
/// first cell whose column is not an internal one.
pub fn first_cell(events: &Vec<QueryProgress>) -> (r: Option<String>)
    ensures
        r is Some <==> first_cell_spec(events@) is Some,
        r matches Some(cell) ==> first_cell_spec(events@) == Some(cell@),
{
    let mut i: usize = events.len();
    assert(events@.take(i as int) =~= events@);
    while i > 0
        invariant
            i <= events@.len(),
            first_cell_spec(events@) == first_cell_spec(events@.take(i as int)),
        decreases i,
    {
        assert(events@.take(i as int).drop_last() =~= events@.take(i - 1));
        match progress_inner(&events[i - 1]) {
            QueryProgress::Rows { rows: batch } => {
                if batch.len() > 0 && batch[0].len() > 0 {
                    let place: usize = data_place_before(events, i - 1, batch[0].len());
                    return Some(batch[0][place].clone());
                }
            },
            _ => {},
        }
        i -= 1;
    }
    None
}

/// The last cell of the first row of the first row set that has one.
pub open spec fn leading_cell(events: Seq<QueryProgress>) -> Option<Seq<char>>
    decreases events.len(),
{
    if events.len() == 0 {
        None
    } else {
        let here = match inner(events[0]) {
            QueryProgress::Rows { rows } => head_cell(rows@),
            _ => None,
        };
        if here is Some { here } else { leading_cell(events.drop_first()) }
    }
}

pub fn leading_cell_of(events: &Vec<QueryProgress>) -> (r: Option<String>)
    ensures
        r is Some <==> leading_cell(events@) is Some,
        r matches Some(cell) ==> leading_cell(events@) == Some(cell@),
{
    let mut i: usize = 0;
    assert(events@.skip(0) =~= events@);
    while i < events.len()
        invariant
            i <= events@.len(),
            leading_cell(events@) == leading_cell(events@.skip(i as int)),
        decreases events@.len() - i,
    {
        assert(events@.skip(i as int).drop_first() =~= events@.skip(i + 1));
        match progress_inner(&events[i]) {
            QueryProgress::Rows { rows: batch } => {
                let cell = head_cell_of(batch);
                if cell.is_some() {
                    return cell;
                }
            },
            _ => {},
        }
        i += 1;
    }
    None
}

/// The messages of all finished statements.
pub open spec fn result_messages(rs: Seq<QueryResult>) -> Seq<Seq<char>> {
    Seq::new(rs.len(), |i: int| rs[i].message@)
}

/// Every result message a script produced, joined by ` || `.
pub fn script_messages(events: &Vec<QueryProgress>) -> (r: String)
    ensures
        r@ == joined(result_messages(results(events@)), " || "@),
{
    let all = results_of(events);
    let mut parts: Vec<String> = Vec::new();
    let mut i: usize = 0;
    while i < all.len()
        invariant
            i <= all@.len(),
            all@.len() == results(events@).len(),
            forall|k: int| 0 <= k < all@.len() ==> *all@[k] == #[trigger] results(events@)[k],
            parts@.len() == i,
            forall|k: int|
                0 <= k < i ==> (#[trigger] parts@[k])@ == results(events@)[k].message@,
        decreases all@.len() - i,
    {
        parts.push(all[i].message.clone());
        i += 1;
    }
    assert(views(parts@) =~= result_messages(results(events@)));
    join(&parts, " || ")
}

/// Every statement of a script must have succeeded, and there must be one.
pub open spec fn script_verdict(label: Seq<char>, events: Seq<QueryProgress>) -> Option<Seq<char>> {
    match first_error_spec(events) {
        Some(message) => Some(
            label + ": generated script statement failed: "@ + debug_form(message),
        ),
        None => if results(events).len() == 0 {
            Some(label + ": generated script ran no statements"@)
        } else {
            None
        },
    }
}

pub fn script_success(label: &str, events: &Vec<QueryProgress>) -> (r: Result<(), String>)
    ensures
        r is Ok <==> script_verdict(label@, events@) is None,
        r matches Err(e) ==> script_verdict(label@, events@) == Some(e@),
{
    match first_error(events) {
        Some(message) => {
            let mut error = label.to_owned();
            error.append(": generated script statement failed: ");
            error.append(quoted(message.as_str()).as_str());
            Err(error)
        },
        None => {
            if results_of(events).len() == 0 {
                let mut error = label.to_owned();
                error.append(": generated script ran no statements");
                Err(error)
            } else {
                Ok(())
            }
        },
    }
}

/// The last cell of the first row that an event carries.
pub open spec fn event_cell(event: QueryProgress) -> Option<Seq<char>> {
    match inner(event) {
        QueryProgress::Rows { rows } => head_cell(rows@),
        QueryProgress::StatementFinished { result } => head_cell(result.rows@),
        _ => None,
    }
}

/// The first such cell, of streamed rows or of a result.
pub open spec fn any_cell(events: Seq<QueryProgress>) -> Option<Seq<char>>
    decreases events.len(),
{
    if events.len() == 0 {
        None
    } else if event_cell(events[0]) is Some {
        event_cell(events[0])
    } else {
        any_cell(events.drop_first())
    }
}

pub fn any_cell_of(events: &Vec<QueryProgress>) -> (r: Option<String>)
    ensures
        r is Some <==> any_cell(events@) is Some,
        r matches Some(cell) ==> any_cell(events@) == Some(cell@),
{
    let mut i: usize = 0;
    assert(events@.skip(0) =~= events@);
    while i < events.len()
        invariant
            i <= events@.len(),
            any_cell(events@) == any_cell(events@.skip(i as int)),
        decreases events@.len() - i,
    {
        assert(events@.skip(i as int).drop_first() =~= events@.skip(i + 1));
        let cell = match progress_inner(&events[i]) {
            QueryProgress::Rows { rows: batch } => head_cell_of(batch),
            QueryProgress::StatementFinished { result } => head_cell_of(&result.rows),
            _ => None,
        };
        if cell.is_some() {
            return cell;
        }
        i += 1;
    }
    None
}

/// The rows that an event carries.
pub open spec fn event_rows(event: QueryProgress) -> Seq<Vec<String>> {
    match inner(event) {
        QueryProgress::Rows { rows } => rows@,
        QueryProgress::StatementFinished { result } => result.rows@,
        _ => Seq::empty(),
    }
}

/// The first data cell of the first rows, from an event on, streamed or of a
/// result.
pub open spec fn scalar_from(events: Seq<QueryProgress>, from: int) -> Option<Seq<char>>
    decreases events.len() - from,
{
    if from < 0 || from >= events.len() {
        None
    } else {
        let here = data_cell(headings(events.take(from)), event_rows(events[from]));
        if here is Some { here } else { scalar_from(events, from + 1) }
    }
}

/// The first cell that a statement brought.
pub open spec fn scalar(events: Seq<QueryProgress>) -> Option<Seq<char>> {
    scalar_from(events, 0)
}

pub fn scalar_of(events: &Vec<QueryProgress>) -> (r: Option<String>)
    ensures
        r is Some <==> scalar(events@) is Some,
        r matches Some(cell) ==> scalar(events@) == Some(cell@),
{
    let none: Vec<Vec<String>> = Vec::new();
    let mut i: usize = 0;
    while i < events.len()
        invariant
            i <= events@.len(),
            none@ == Seq::<Vec<String>>::empty(),
            scalar(events@) == scalar_from(events@, i as int),
        decreases events@.len() - i,
    {
        let batch = match progress_inner(&events[i]) {
            QueryProgress::Rows { rows } => rows,
            QueryProgress::StatementFinished { result } => &result.rows,
            _ => &none,
        };
        assert(batch@ == event_rows(events@[i as int]));
        if batch.len() > 0 && batch[0].len() > 0 {
            let place: usize = data_place_before(events, i, batch[0].len());
            return Some(batch[0][place].clone());
        }
        i += 1;
    }
    None
}

/// Everything a tab was told: result messages and output lines, in order.
pub open spec fn transcript(events: Seq<QueryProgress>) -> Seq<String>
    decreases events.len(),
{
    if events.len() == 0 {
        Seq::empty()
    } else {
        let before = transcript(events.drop_last());
        match inner(events.last()) {
            QueryProgress::StatementFinished { result } => before.push(result.message),
            QueryProgress::Message { lines } => before + lines@,
            QueryProgress::ScriptOutput { lines } => before + lines@,
            _ => before,
        }
    }
}

pub fn transcript_of(events: &Vec<QueryProgress>) -> (r: Vec<&String>)
    ensures
        r@.len() == transcript(events@).len(),
        forall|i: int| 0 <= i < r@.len() ==> *r@[i] == #[trigger] transcript(events@)[i],
{
    let mut out: Vec<&String> = Vec::new();
    let mut i: usize = 0;
    while i < events.len()
        invariant
            i <= events@.len(),
            out@.len() == transcript(events@.take(i as int)).len(),
            forall|k: int|
                0 <= k < out@.len() ==> *out@[k] == #[trigger] transcript(
                    events@.take(i as int),
                )[k],
        decreases events@.len() - i,
    {
        assert(events@.take(i + 1).drop_last() =~= events@.take(i as int));
        let ghost before = transcript(events@.take(i as int));
        match progress_inner(&events[i]) {
            QueryProgress::StatementFinished { result } => {
                out.push(&result.message);
            },
            QueryProgress::Message { lines: more } => {
                push_lines(&mut out, more);
                assert(forall|k: int|
                    0 <= k < more@.len() ==> *out@[before.len() + k] == #[trigger] more@[k]);
            },
            QueryProgress::ScriptOutput { lines: more } => {
                push_lines(&mut out, more);
                assert(forall|k: int|
                    0 <= k < more@.len() ==> *out@[before.len() + k] == #[trigger] more@[k]);
            },
            _ => {},
        }
        i += 1;
    }
    assert(events@.take(i as int) =~= events@);
    out
}

} // verus!
