//! What a probe has observed: the answers that actions brought back, kept in
//! numbered slots, and how each is written in a message.
use vstd::prelude::*;
use vstd::string::*;

use crate::import::{ExportRead, ImportTargets, ImportedTable, LiteralColumn, TableColumnDetail};
use crate::progress::{
    first_where, first_where_is_least, head_cell, head_cell_of, last_cell, results, results_of,
    rows, rows_of, QueryProgress, QueryResult, TransactionIsolation, TransactionMode,
};
use crate::routine::{Delivery, RoutineDefinitionLookup};
use crate::text::{
    contains, debug_form, decimal, finds, integer_text, integer_value, join, joined, parse_integer,
    quoted, to_uppercase, trim, trimmed, truth, truth_text, unicode_uppercase, views,
};

verus! {

/// What the app knows of the transaction on a tab's retained session.
#[derive(Clone, Copy, Debug, PartialEq, Eq, Structural)]
pub struct Retained {
    pub uncommitted_work: bool,
    pub requires_decision: bool,
    pub mode_override: bool,
}

/// Whether a retained session may take a change.
#[derive(Clone, Copy, Debug, PartialEq, Eq, Structural)]
pub enum Preflight {
    Allow,
    RequireResolution,
    Other,
}

/// The transaction state a retained session reports.
#[derive(Clone, Copy, Debug, PartialEq, Eq, Structural)]
pub enum SessionState {
    Clean,
    MaybeDirty,
    BlockedDirty,
    DecisionRequired,
    Other,
}

/// What became of an export that waits for the rest of its rows.
#[derive(Debug)]
pub enum Queued {
    /// It neither ran nor was given up.
    Waiting,
    /// It was given up because a new result took the grid.
    Replaced,
    /// It was given up for another reason.
    Abandoned(String),
    /// It ran, and wrote so many rows.
    Data { rows: usize, text: String },
    /// It handed back rows to be written as SQL later.
    Snapshot,
}

/// One observation. `shown` is how the app writes a value of its own.
#[derive(Debug)]
pub enum Seen {
    Nothing,
    Failed(String),
    Run(Vec<QueryProgress>),
    Text(String),
    Word(&'static str),
    Absent,
    Flag(bool),
    Number(i64),
    Names(Vec<String>),
    Scopes(Vec<(String, Option<String>)>),
    Queued(Queued),
    Pairs(Vec<(String, String)>),
    Lookup(RoutineDefinitionLookup),
    Delivery(Delivery),
    Imported(ImportedTable),
    Mapping(Vec<Option<usize>>),
    Structure(Vec<TableColumnDetail>),
    Targets(ImportTargets),
    Literals(Vec<LiteralColumn>),
    Export(ExportRead),
    Mode { mode: Option<TransactionMode>, shown: String },
    Isolation { isolation: TransactionIsolation, label: String },
    Retained { state: Option<Retained>, shown: String },
    State { session: Option<SessionState>, shown: String },
    Outcome { applied: bool, shown: String },
    Decision { decision: Option<Preflight>, shown: String },
}

/// The observation in a slot.
pub open spec fn at(memory: Seq<Seen>, slot: int) -> Seen {
    if 0 <= slot < memory.len() { memory[slot] } else { Seen::Nothing }
}

/// Whether a slot starts out as it should: with a text, or with nothing.
pub open spec fn knows(seen: Seen, fact: Option<Seq<char>>) -> bool {
    match fact {
        Some(text) => seen matches Seen::Text(t) && t@ == text,
        None => seen is Nothing,
    }
}

/// The events of a run in a slot; none where the slot holds something else.
pub open spec fn events(seen: Seen) -> Seq<QueryProgress> {
    match seen {
        Seen::Run(events) => events@,
        _ => Seq::empty(),
    }
}

/// The texts of a list in a slot; none where the slot holds something else.
pub open spec fn names(seen: Seen) -> Seq<Seq<char>> {
    match seen {
        Seen::Names(list) => views(list@),
        _ => Seq::empty(),
    }
}

/// The last cell of the first row: of the streamed rows, or else of the first
/// query result.
pub open spec fn scalar(run: Seq<QueryProgress>) -> Option<Seq<char>> {
    match head_cell(rows(run)) {
        Some(cell) => Some(cell),
        None => match first_where(results(run), |r: QueryResult| is_query(r)) {
            Some(result) => head_cell(result.rows@),
            None => None,
        },
    }
}

pub open spec fn is_query(result: QueryResult) -> bool {
    result.is_select
}

fn first_query(run: &Vec<QueryProgress>) -> (r: Option<&QueryResult>)
    ensures
        r is Some <==> first_where(results(run@), |r: QueryResult| is_query(r)) is Some,
        r matches Some(result) ==> first_where(results(run@), |r: QueryResult| is_query(r))
            == Some(*result),
{
    let all = results_of(run);
    let ghost rs = results(run@);
    let mut i: usize = 0;
    while i < all.len() && !all[i].is_select
        invariant
            i <= all@.len(),
            all@.len() == rs.len(),
            forall|k: int| 0 <= k < all@.len() ==> *all@[k] == #[trigger] rs[k],
            forall|k: int| 0 <= k < i ==> !is_query(#[trigger] rs[k]),
        decreases all@.len() - i,
    {
        assert(*all@[i as int] == rs[i as int]);
        i += 1;
    }
    proof {
        if i < all@.len() {
            assert(*all@[i as int] == rs[i as int]);
        }
        first_where_is_least(rs, |r: QueryResult| is_query(r), i as int);
    }
    if i < all.len() {
        Some(all[i])
    } else {
        None
    }
}

pub fn scalar_of(run: &Vec<QueryProgress>) -> (r: Option<String>)
    ensures
        r is Some <==> scalar(run@) is Some,
        r matches Some(cell) ==> scalar(run@) == Some(cell@),
{
    let streamed = rows_of(run);
    if streamed.len() > 0 {
        assert(*streamed@[0] == rows(run@)[0]);
        let row = streamed[0];
        if row.len() > 0 {
            return Some(row[row.len() - 1].clone());
        }
    }
    match first_query(run) {
        Some(result) => head_cell_of(&result.rows),
        None => None,
    }
}

/// The text of an observation, where it has one.
pub open spec fn text_in(seen: Seen) -> Option<Seq<char>> {
    match seen {
        Seen::Text(text) => Some(text@),
        Seen::Word(text) => Some(text@),
        Seen::Failed(text) => Some(text@),
        Seen::Lookup(RoutineDefinitionLookup::Unreadable(reason)) => Some(reason@),
        Seen::Run(run) => scalar(run@),
        Seen::Number(n) => Some(decimal(n as int)),
        Seen::Flag(b) => Some(truth(b)),
        Seen::Isolation { isolation, label } => Some(label@),
        Seen::Mode { mode, shown } => Some(shown@),
        Seen::Retained { state, shown } => Some(shown@),
        Seen::State { session, shown } => Some(shown@),
        Seen::Outcome { applied, shown } => Some(shown@),
        Seen::Decision { decision, shown } => Some(shown@),
        _ => None,
    }
}

pub fn text_of_seen(seen: &Seen) -> (r: Option<String>)
    ensures
        r is Some <==> text_in(*seen) is Some,
        r matches Some(text) ==> text_in(*seen) == Some(text@),
{
    match seen {
        Seen::Text(text) => Some(text.clone()),
        Seen::Word(text) => Some((*text).to_owned()),
        Seen::Failed(text) => Some(text.clone()),
        Seen::Lookup(RoutineDefinitionLookup::Unreadable(reason)) => Some(reason.clone()),
        Seen::Run(run) => scalar_of(run),
        Seen::Number(n) => Some(integer_text(*n)),
        Seen::Flag(b) => Some(truth_text(*b).to_owned()),
        Seen::Isolation { label, .. } => Some(label.clone()),
        Seen::Mode { shown, .. } => Some(shown.clone()),
        Seen::Retained { shown, .. } => Some(shown.clone()),
        Seen::State { shown, .. } => Some(shown.clone()),
        Seen::Outcome { shown, .. } => Some(shown.clone()),
        Seen::Decision { shown, .. } => Some(shown.clone()),
        _ => None,
    }
}

/// The plain words of an observation; empty where it has none.
pub open spec fn words(seen: Seen) -> Seq<char> {
    match text_in(seen) {
        Some(text) => text,
        None => Seq::empty(),
    }
}

pub fn words_of(seen: &Seen) -> (r: String)
    ensures
        r@ == words(*seen),
{
    match text_of_seen(seen) {
        Some(text) => text,
        None => String::new(),
    }
}

/// The numbers that the last cells of the rows spell, those that spell one.
pub open spec fn reads(streamed: Seq<Vec<String>>) -> Seq<i64>
    decreases streamed.len(),
{
    if streamed.len() == 0 {
        Seq::empty()
    } else {
        let before = reads(streamed.drop_last());
        match last_cell(streamed.last()) {
            Some(cell) => match integer_value(trim(cell)) {
                Some(n) => before.push(n as i64),
                None => before,
            },
            None => before,
        }
    }
}

/// Every number one batch read.
pub fn reads_of(run: &Vec<QueryProgress>) -> (r: Vec<i64>)
    ensures
        r@ == reads(rows(run@)),
{
    let streamed = rows_of(run);
    let ghost all = rows(run@);
    let mut out: Vec<i64> = Vec::new();
    let mut i: usize = 0;
    while i < streamed.len()
        invariant
            i <= streamed@.len(),
            streamed@.len() == all.len(),
            forall|k: int| 0 <= k < streamed@.len() ==> *streamed@[k] == #[trigger] all[k],
            out@ == reads(all.take(i as int)),
        decreases streamed@.len() - i,
    {
        assert(all.take(i + 1).drop_last() =~= all.take(i as int));
        assert(*streamed@[i as int] == all[i as int]);
        let row = streamed[i];
        if row.len() > 0 {
            let cell = trimmed(row[row.len() - 1].as_str());
            match parse_integer(cell.as_str()) {
                Ok(n) => {
                    out.push(n);
                },
                Err(_) => {},
            }
        }
        i += 1;
    }
    assert(all.take(i as int) =~= all);
    out
}

/// Whether a level fixes one snapshot for a whole transaction.
pub open spec fn holds_snapshot(isolation: TransactionIsolation) -> bool {
    isolation is RepeatableRead || isolation is Serializable
}

/// A list in `Debug` form, of items already written.
pub open spec fn bracketed(items: Seq<Seq<char>>) -> Seq<char> {
    "["@ + joined(items, ", "@) + "]"@
}

pub fn bracketed_text(items: &Vec<String>) -> (r: String)
    ensures
        r@ == bracketed(views(items@)),
{
    let mut out = "[".to_owned();
    out.append(join(items, ", ").as_str());
    out.append("]");
    out
}

/// What a message tells of a finished statement.
#[derive(Clone, Copy, PartialEq, Eq, Structural)]
pub enum Telling {
    /// `(success, message)`
    Outcome,
    /// `(sql, success, message)`
    Whole,
    /// `(sql, success)`
    Statement,
    /// `(sql, message)`
    Failure,
}

/// A finished statement in the `Debug` form of a tuple.
pub open spec fn told(how: Telling, result: QueryResult) -> Seq<char> {
    match how {
        Telling::Outcome => "("@ + truth(result.success) + ", "@ + debug_form(result.message@)
            + ")"@,
        Telling::Whole => "("@ + debug_form(result.sql@) + ", "@ + truth(result.success) + ", "@
            + debug_form(result.message@) + ")"@,
        Telling::Statement => "("@ + debug_form(result.sql@) + ", "@ + truth(result.success) + ")"@,
        Telling::Failure => "("@ + debug_form(result.sql@) + ", "@ + debug_form(result.message@)
            + ")"@,
    }
}

pub fn tell(how: Telling, result: &QueryResult) -> (r: String)
    ensures
        r@ == told(how, *result),
{
    let mut out = "(".to_owned();
    match how {
        Telling::Outcome => {
            out.append(truth_text(result.success));
            out.append(", ");
            out.append(quoted(result.message.as_str()).as_str());
        },
        Telling::Whole => {
            out.append(quoted(result.sql.as_str()).as_str());
            out.append(", ");
            out.append(truth_text(result.success));
            out.append(", ");
            out.append(quoted(result.message.as_str()).as_str());
        },
        Telling::Statement => {
            out.append(quoted(result.sql.as_str()).as_str());
            out.append(", ");
            out.append(truth_text(result.success));
        },
        Telling::Failure => {
            out.append(quoted(result.sql.as_str()).as_str());
            out.append(", ");
            out.append(quoted(result.message.as_str()).as_str());
        },
    }
    out.append(")");
    out
}

/// An optional item in `Debug` form.
pub open spec fn optional(item: Option<Seq<char>>) -> Seq<char> {
    match item {
        Some(text) => "Some("@ + text + ")"@,
        None => "None"@,
    }
}

pub fn optional_text(item: Option<String>) -> (r: String)
    ensures
        item matches Some(text) ==> r@ == optional(Some(text@)),
        item is None ==> r@ == optional(None),
{
    match item {
        Some(text) => {
            let mut out = "Some(".to_owned();
            out.append(text.as_str());
            out.append(")");
            out
        },
        None => "None".to_owned(),
    }
}

/// Every finished statement, told one way; with `Failure`, the failed ones.
pub open spec fn told_all(how: Telling, rs: Seq<QueryResult>) -> Seq<Seq<char>>
    decreases rs.len(),
{
    if rs.len() == 0 {
        Seq::empty()
    } else {
        let before = told_all(how, rs.drop_last());
        if how == Telling::Failure && rs.last().success {
            before
        } else {
            before.push(told(how, rs.last()))
        }
    }
}

pub fn tell_all(how: Telling, events: &Vec<QueryProgress>) -> (r: String)
    ensures
        r@ == bracketed(told_all(how, results(events@))),
{
    let all = results_of(events);
    let ghost rs = results(events@);
    let mut out: Vec<String> = Vec::new();
    let mut i: usize = 0;
    assert(views(out@) =~= told_all(how, rs.take(0)));
    while i < all.len()
        invariant
            i <= all@.len(),
            all@.len() == rs.len(),
            forall|k: int| 0 <= k < all@.len() ==> *all@[k] == #[trigger] rs[k],
            views(out@) == told_all(how, rs.take(i as int)),
        decreases all@.len() - i,
    {
        let ghost before = out@;
        assert(rs.take(i + 1).drop_last() =~= rs.take(i as int));
        assert(*all@[i as int] == rs[i as int]);
        if how == Telling::Failure && all[i].success {
        } else {
            out.push(tell(how, all[i]));
            assert(views(out@) =~= views(before).push(told(how, rs[i as int])));
        }
        i += 1;
    }
    assert(rs.take(i as int) =~= rs);
    bracketed_text(&out)
}

/// Which finished statement a test or a message is about.
#[derive(Clone, Copy, PartialEq, Eq, Structural)]
pub enum Which {
    First,
    Last,
    /// The first one whose text holds `INSERT`.
    Insert,
    /// The first one whose upper-cased text holds `INSERT`.
    AnyCaseInsert,
    /// The first query.
    Query,
}

pub open spec fn is_insert(result: QueryResult) -> bool {
    contains(result.sql@, "INSERT"@)
}

pub open spec fn is_insert_any_case(result: QueryResult) -> bool {
    contains(unicode_uppercase(result.sql@), "INSERT"@)
}

pub open spec fn picked(which: Which, rs: Seq<QueryResult>) -> Option<QueryResult> {
    match which {
        Which::First => if rs.len() > 0 { Some(rs[0]) } else { None },
        Which::Last => if rs.len() > 0 { Some(rs.last()) } else { None },
        Which::Insert => first_where(rs, |r: QueryResult| is_insert(r)),
        Which::AnyCaseInsert => first_where(rs, |r: QueryResult| is_insert_any_case(r)),
        Which::Query => first_where(rs, |r: QueryResult| is_query(r)),
    }
}

pub fn pick(which: Which, events: &Vec<QueryProgress>) -> (r: Option<&QueryResult>)
    ensures
        r is Some <==> picked(which, results(events@)) is Some,
        r matches Some(result) ==> picked(which, results(events@)) == Some(*result),
{
    let all = results_of(events);
    let ghost rs = results(events@);
    match which {
        Which::First => {
            if all.len() > 0 {
                assert(*all@[0] == rs[0]);
                Some(all[0])
            } else {
                None
            }
        },
        Which::Last => {
            if all.len() > 0 {
                assert(*all@[all@.len() - 1] == rs[rs.len() - 1]);
                Some(all[all.len() - 1])
            } else {
                None
            }
        },
        Which::Insert => {
            let mut i: usize = 0;
            while i < all.len() && !finds(all[i].sql.as_str(), "INSERT")
                invariant
                    i <= all@.len(),
                    all@.len() == rs.len(),
                    forall|k: int| 0 <= k < all@.len() ==> *all@[k] == #[trigger] rs[k],
                    forall|k: int| 0 <= k < i ==> !is_insert(#[trigger] rs[k]),
                decreases all@.len() - i,
            {
                assert(*all@[i as int] == rs[i as int]);
                i += 1;
            }
            proof {
                if i < all@.len() {
                    assert(*all@[i as int] == rs[i as int]);
                }
                first_where_is_least(rs, |r: QueryResult| is_insert(r), i as int);
            }
            if i < all.len() {
                Some(all[i])
            } else {
                None
            }
        },
        Which::Query => first_query(events),
        Which::AnyCaseInsert => {
            let mut i: usize = 0;
            while i < all.len() && !finds(to_uppercase(all[i].sql.as_str()).as_str(), "INSERT")
                invariant
                    i <= all@.len(),
                    all@.len() == rs.len(),
                    forall|k: int| 0 <= k < all@.len() ==> *all@[k] == #[trigger] rs[k],
                    forall|k: int| 0 <= k < i ==> !is_insert_any_case(#[trigger] rs[k]),
                decreases all@.len() - i,
            {
                assert(*all@[i as int] == rs[i as int]);
                i += 1;
            }
            proof {
                if i < all@.len() {
                    assert(*all@[i as int] == rs[i as int]);
                }
                first_where_is_least(rs, |r: QueryResult| is_insert_any_case(r), i as int);
            }
            if i < all.len() {
                Some(all[i])
            } else {
                None
            }
        },
    }
}

} // verus!
