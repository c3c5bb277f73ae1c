//! Message and statement templates. A hole `{kNN}` stands for the observation
//! in slot `NN`, written the way the letter `k` says; every other character
//! stands for itself.
use vstd::prelude::*;
use vstd::string::*;

use crate::grid::{
    counted, grid_rows, grid_rows_of, heading, named_cell, named_cell_of, select_start_sql,
    single_count, table, updated_rows, updated_rows_of,
};
use crate::import_words::{
    export_hole, export_hole_text, import_hole, import_hole_text, imported_hole, imported_hole_text,
    measure_hole, measure_hole_text, structure_hole, structure_hole_text, targets_hole,
    targets_hole_text,
};
use crate::progress::{
    finished_event, finished_flag, first_cell, first_cell_spec, first_error, first_error_spec,
    lines, lines_of, result_messages, results, rows, script_messages, shown_modes, shown_modes_of,
    QueryProgress, TransactionIsolation,
};
use crate::routine::{
    given_names, given_names_of, listed_spelling, listed_spelling_of, over_limit, over_limit_name,
    Delivery, RoutineDefinitionLookup,
};
use crate::seen::{
    at, bracketed, bracketed_text, events, holds_snapshot, optional, optional_text, pick, picked,
    reads, reads_of, tell, tell_all, text_in, text_of_seen, told, told_all, words, words_of, Seen,
    Telling, Which,
};
use crate::text::{
    chars_of, count_text, debug_form, decimal, integer_error, integer_text, integer_value, is_digit,
    join, joined, parse_integer, quoted, replace, replaced, trim, trimmed, truth, truth_text, views,
    wide_text,
};

verus! {

/// Texts in `Debug` form.
pub open spec fn debug_all(texts: Seq<Seq<char>>) -> Seq<Seq<char>> {
    Seq::new(texts.len(), |i: int| debug_form(texts[i]))
}

pub fn quoted_all(texts: &Vec<&String>) -> (r: Vec<String>)
    ensures
        views(r@) == debug_all(Seq::new(texts@.len(), |i: int| (*texts@[i])@)),
{
    let mut out: Vec<String> = Vec::new();
    let mut i: usize = 0;
    while i < texts.len()
        invariant
            i <= texts@.len(),
            out@.len() == i,
            forall|k: int| 0 <= k < i ==> (#[trigger] out@[k])@ == debug_form((*texts@[k])@),
        decreases texts@.len() - i,
    {
        out.push(quoted(texts[i].as_str()));
        i += 1;
    }
    assert(views(out@) =~= debug_all(Seq::new(texts@.len(), |i: int| (*texts@[i])@)));
    out
}

pub open spec fn decimals(numbers: Seq<i64>) -> Seq<Seq<char>> {
    Seq::new(numbers.len(), |i: int| decimal(numbers[i] as int))
}

fn decimals_of(numbers: &Vec<i64>) -> (r: Vec<String>)
    ensures
        views(r@) == decimals(numbers@),
{
    let mut out: Vec<String> = Vec::new();
    let mut i: usize = 0;
    while i < numbers.len()
        invariant
            i <= numbers@.len(),
            out@.len() == i,
            forall|k: int| 0 <= k < i ==> (#[trigger] out@[k])@ == decimal(numbers@[k] as int),
        decreases numbers@.len() - i,
    {
        out.push(integer_text(numbers[i]));
        i += 1;
    }
    assert(views(out@) =~= decimals(numbers@));
    out
}

/// A finished statement, told as an optional outcome.
pub open spec fn outcome_of(which: Which, run: Seq<QueryProgress>) -> Seq<char> {
    match picked(which, results(run)) {
        Some(result) => optional(Some(told(Telling::Outcome, result))),
        None => optional(None),
    }
}

fn outcome_text(which: Which, run: &Vec<QueryProgress>) -> (r: String)
    ensures
        r@ == outcome_of(which, run@),
{
    match pick(which, run) {
        Some(result) => optional_text(Some(tell(Telling::Outcome, result))),
        None => optional_text(None),
    }
}

/// How a run is written.
pub open spec fn run_hole(kind: char, run: Seq<QueryProgress>) -> Seq<char> {
    if kind == 'f' {
        outcome_of(Which::First, run)
    } else if kind == 'i' {
        outcome_of(Which::Insert, run)
    } else if kind == 'u' {
        outcome_of(Which::AnyCaseInsert, run)
    } else if kind == 'j' {
        match picked(Which::Insert, results(run)) {
            Some(result) => told(Telling::Outcome, result),
            None => Seq::empty(),
        }
    } else if kind == 'a' {
        bracketed(told_all(Telling::Outcome, results(run)))
    } else if kind == 's' {
        bracketed(told_all(Telling::Whole, results(run)))
    } else if kind == 'b' {
        bracketed(told_all(Telling::Statement, results(run)))
    } else if kind == 'x' {
        bracketed(told_all(Telling::Failure, results(run)))
    } else if kind == 'r' {
        bracketed(decimals(reads(rows(run))))
    } else if kind == 'y' {
        truth(results(run).len() > 0 && results(run)[0].success)
    } else if kind == 'm' {
        bracketed(debug_all(views(lines(run))))
    } else if kind == 'c' {
        bracketed(shown_modes(run))
    } else if kind == 'g' {
        match picked(Which::First, results(run)) {
            Some(result) => optional(Some(debug_form(result.message@))),
            None => optional(None),
        }
    } else {
        end_hole(kind, run)
    }
}

/// How the end of a run, its failure and its cells are written.
pub open spec fn end_hole(kind: char, run: Seq<QueryProgress>) -> Seq<char> {
    if kind == 'p' {
        match picked(Which::Last, results(run)) {
            Some(result) => debug_form(result.message@),
            None => Seq::empty(),
        }
    } else if kind == 'Y' {
        truth(results(run).len() > 0 && results(run).last().is_select)
    } else if kind == 'U' {
        match picked(Which::Last, results(run)) {
            Some(result) => debug_form(result.sql@),
            None => Seq::empty(),
        }
    } else if kind == 'X' {
        truth(results(run).len() > 0 && results(run).last().success)
    } else if kind == 'W' {
        truth(finished_flag(run) == Some(true))
    } else if kind == 'k' {
        match first_error_spec(run) {
            Some(message) => debug_form(message),
            None => Seq::empty(),
        }
    } else if kind == 'v' {
        joined(result_messages(results(run)), " || "@)
    } else if kind == 'C' {
        match first_cell_spec(run) {
            Some(cell) => optional(Some(debug_form(cell))),
            None => optional(None),
        }
    } else {
        grid_hole(kind, run)
    }
}

/// How the grid of a run is written: `0` the count it holds, `1` its number of
/// rows, `2` its `RID` cell as the inside of an SQL string, `3` its `NAME` cell,
/// `4` and `5` its statement, plain and quoted, `6` its rows, `7` its rows with
/// the names changed.
pub open spec fn grid_hole(kind: char, run: Seq<QueryProgress>) -> Seq<char> {
    if kind == '0' {
        match counted(run) {
            Some(n) => optional(Some(decimal(n))),
            None => optional(None),
        }
    } else if kind == '1' {
        decimal(grid_rows(run).len() as int)
    } else if kind == '2' {
        replaced(named_cell(run, "RID"@), "'"@, "''"@)
    } else if kind == '3' {
        debug_form(named_cell(run, "NAME"@))
    } else if kind == '4' {
        start_sql(run)
    } else if kind == '5' {
        debug_form(start_sql(run))
    } else if kind == '6' {
        table_form(grid_rows(run))
    } else if kind == '7' {
        table_form(updated_rows(run))
    } else {
        import_hole(kind, run)
    }
}

/// The statement of the first opened result set.
pub open spec fn start_sql(run: Seq<QueryProgress>) -> Seq<char> {
    match heading(run) {
        Some(event) => event->SelectStart_sql@,
        None => Seq::empty(),
    }
}

fn start_sql_text(run: &Vec<QueryProgress>) -> (r: String)
    ensures
        r@ == start_sql(run@),
{
    match select_start_sql(run) {
        Some(sql) => sql,
        None => String::new(),
    }
}

/// A table in `Debug` form.
pub open spec fn table_form(t: Seq<Seq<Seq<char>>>) -> Seq<char> {
    bracketed(Seq::new(t.len(), |i: int| bracketed(debug_all(t[i]))))
}

pub fn table_text(rows: &Vec<Vec<String>>) -> (r: String)
    ensures
        r@ == table_form(table(rows@)),
{
    let mut out: Vec<String> = Vec::new();
    let mut i: usize = 0;
    while i < rows.len()
        invariant
            i <= rows@.len(),
            out@.len() == i,
            forall|k: int|
                0 <= k < i ==> (#[trigger] out@[k])@ == bracketed(debug_all(views(rows@[k]@))),
        decreases rows@.len() - i,
    {
        out.push(names_text(&rows[i]));
        i += 1;
    }
    assert(views(out@) =~= Seq::new(
        table(rows@).len(),
        |i: int| bracketed(debug_all(table(rows@)[i])),
    ));
    bracketed_text(&out)
}

fn grid_hole_text(kind: char, run: &Vec<QueryProgress>) -> (r: String)
    ensures
        r@ == grid_hole(kind, run@),
{
    if kind == '0' {
        match single_count(run) {
            Some(n) => optional_text(Some(integer_text(n))),
            None => optional_text(None),
        }
    } else if kind == '1' {
        let rows = grid_rows_of(run);
        assert(table(rows@).len() == rows@.len());
        count_text(rows.len())
    } else if kind == '2' {
        proof {
            reveal_strlit("'");
        }
        replace(named_cell_of(run, "RID").as_str(), "'", "''")
    } else if kind == '3' {
        quoted(named_cell_of(run, "NAME").as_str())
    } else if kind == '4' {
        start_sql_text(run)
    } else if kind == '5' {
        quoted(start_sql_text(run).as_str())
    } else if kind == '6' {
        let rows = grid_rows_of(run);
        table_text(&rows)
    } else if kind == '7' {
        let rows = updated_rows_of(run);
        table_text(&rows)
    } else {
        import_hole_text(kind, run)
    }
}

/// A text that spells a number, as that number.
pub open spec fn number_words(s: Seq<char>) -> Seq<char> {
    match integer_value(s) {
        Some(n) => decimal(n),
        None => Seq::empty(),
    }
}

fn number_text(s: &str) -> (r: String)
    ensures
        r@ == number_words(s@),
{
    match parse_integer(s) {
        Ok(n) => integer_text(n),
        Err(_) => String::new(),
    }
}

fn end_hole_text(kind: char, run: &Vec<QueryProgress>) -> (r: String)
    ensures
        r@ == end_hole(kind, run@),
{
    if kind == 'p' {
        match pick(Which::Last, run) {
            Some(result) => quoted(result.message.as_str()),
            None => String::new(),
        }
    } else if kind == 'Y' {
        match pick(Which::Last, run) {
            Some(result) => truth_text(result.is_select).to_owned(),
            None => truth_text(false).to_owned(),
        }
    } else if kind == 'U' {
        match pick(Which::Last, run) {
            Some(result) => quoted(result.sql.as_str()),
            None => String::new(),
        }
    } else if kind == 'X' {
        match pick(Which::Last, run) {
            Some(result) => truth_text(result.success).to_owned(),
            None => truth_text(false).to_owned(),
        }
    } else if kind == 'W' {
        match finished_event(run) {
            Some(cancelled) => truth_text(cancelled).to_owned(),
            None => truth_text(false).to_owned(),
        }
    } else if kind == 'k' {
        match first_error(run) {
            Some(message) => quoted(message.as_str()),
            None => String::new(),
        }
    } else if kind == 'v' {
        script_messages(run)
    } else if kind == 'C' {
        match first_cell(run) {
            Some(cell) => optional_text(Some(quoted(cell.as_str()))),
            None => optional_text(None),
        }
    } else {
        grid_hole_text(kind, run)
    }
}

fn run_hole_text(kind: char, run: &Vec<QueryProgress>) -> (r: String)
    ensures
        r@ == run_hole(kind, run@),
{
    if kind == 'f' {
        outcome_text(Which::First, run)
    } else if kind == 'i' {
        outcome_text(Which::Insert, run)
    } else if kind == 'u' {
        outcome_text(Which::AnyCaseInsert, run)
    } else if kind == 'j' {
        match pick(Which::Insert, run) {
            Some(result) => tell(Telling::Outcome, result),
            None => String::new(),
        }
    } else if kind == 'a' {
        tell_all(Telling::Outcome, run)
    } else if kind == 's' {
        tell_all(Telling::Whole, run)
    } else if kind == 'b' {
        tell_all(Telling::Statement, run)
    } else if kind == 'x' {
        tell_all(Telling::Failure, run)
    } else if kind == 'r' {
        let numbers = reads_of(run);
        let items = decimals_of(&numbers);
        bracketed_text(&items)
    } else if kind == 'y' {
        match pick(Which::First, run) {
            Some(result) => truth_text(result.success).to_owned(),
            None => truth_text(false).to_owned(),
        }
    } else if kind == 'm' {
        let all = lines_of(run);
        let items = quoted_all(&all);
        assert(Seq::new(all@.len(), |i: int| (*all@[i])@) =~= views(lines(run@)));
        bracketed_text(&items)
    } else if kind == 'c' {
        let items = shown_modes_of(run);
        bracketed_text(&items)
    } else if kind == 'g' {
        match pick(Which::First, run) {
            Some(result) => optional_text(Some(quoted(result.message.as_str()))),
            None => optional_text(None),
        }
    } else {
        end_hole_text(kind, run)
    }
}

/// What is wrong with a text as an `i64`; nothing where it is one.
pub open spec fn number_fault(s: Seq<char>) -> Seq<char> {
    if integer_value(s) is None { integer_error(s) } else { Seq::empty() }
}

pub fn number_fault_text(s: &str) -> (r: String)
    ensures
        r@ == number_fault(s@),
{
    match parse_integer(s) {
        Ok(_) => String::new(),
        Err(e) => e,
    }
}

/// What went wrong: why an action could not be carried out, or else the message
/// of the first statement that failed.
pub open spec fn trouble(seen: Seen) -> Seq<char> {
    match seen {
        Seen::Failed(error) => error@,
        Seen::Lookup(RoutineDefinitionLookup::Unreadable(reason)) => reason@,
        Seen::Run(run) => match first_error_spec(run@) {
            Some(message) => message,
            None => Seq::empty(),
        },
        _ => Seq::empty(),
    }
}

pub fn trouble_text(seen: &Seen) -> (r: String)
    ensures
        r@ == trouble(*seen),
{
    match seen {
        Seen::Failed(error) => error.clone(),
        Seen::Lookup(RoutineDefinitionLookup::Unreadable(reason)) => reason.clone(),
        Seen::Run(run) => match first_error(run) {
            Some(message) => message,
            None => String::new(),
        },
        _ => String::new(),
    }
}

/// How an observation is written.
///
/// * `t` plainly, `q` in quotes, `o` as an optional text in quotes;
/// * `e` what is wrong with it as a number, `h` whether a level holds a
///   snapshot, `w` that a mode cannot be expressed, `l` a list of texts in quotes;
/// * `n` the number it spells, `+` the next one, `d` how the last statement ended, `G` an optional
///   flag, `V` a result;
/// * of a run: `f` its first result, `i` and `u` its first `INSERT` (as spelled,
///   or in any case), `j` that one bare, `y` whether the first succeeded, `g`
///   its first message, `p` its last message; `a`, `s`, `b` all results, `x` the
///   failed ones, `r` the numbers read, `m` its messages, `c` the modes
///   announced; see `end_hole` for its end.
pub open spec fn hole(kind: char, seen: Seen) -> Seq<char> {
    if kind == 't' {
        words(seen)
    } else if kind == 'q' {
        debug_form(words(seen))
    } else if kind == 'o' {
        match text_in(seen) {
            Some(text) => optional(Some(debug_form(text))),
            None => optional(None),
        }
    } else if kind == 'e' {
        number_fault(trim(words(seen)))
    } else if kind == 'h' {
        match seen {
            Seen::Isolation { isolation, label } => if holds_snapshot(isolation) {
                "be"@
            } else {
                "not be"@
            },
            _ => "not be"@,
        }
    } else if kind == 'w' {
        match seen {
            Seen::Text(error) => " (not expressible here: "@ + error@ + ")"@,
            _ => Seq::empty(),
        }
    } else if kind == 'n' {
        number_words(trim(words(seen)))
    } else if kind == '+' {
        match integer_value(trim(words(seen))) {
            Some(n) => decimal(n + 1),
            None => Seq::empty(),
        }
    } else if kind == 'l' {
        match seen {
            Seen::Names(names) => bracketed(debug_all(views(names@))),
            _ => bracketed(Seq::empty()),
        }
    } else if kind == 'd' {
        match seen {
            Seen::Failed(error) => optional(Some("(false, "@ + debug_form(error@) + ")"@)),
            _ => outcome_of(Which::Last, events(seen)),
        }
    } else if kind == 'V' {
        match seen {
            Seen::Failed(error) => "Err("@ + debug_form(error@) + ")"@,
            _ => "Ok("@ + debug_form(words(seen)) + ")"@,
        }
    } else if kind == 'G' {
        match seen {
            Seen::Flag(b) => optional(Some(truth(b))),
            _ => optional(None),
        }
    } else {
        match seen {
            Seen::Run(run) => run_hole(kind, run@),
            Seen::Lookup(RoutineDefinitionLookup::Defined(definition)) => definition_hole(
                kind,
                definition.arguments@,
            ),
            Seen::Pairs(listing) => listing_hole(kind, listing@),
            Seen::Delivery(delivery) => delivery_hole(kind, delivery),
            Seen::Text(text) => script_hole(kind, text@),
            Seen::Imported(t) => imported_hole(kind, t),
            Seen::Structure(columns) => structure_hole(kind, columns@),
            Seen::Targets(targets) => targets_hole(kind, targets),
            Seen::Export(read) => export_hole(kind, read),
            Seen::Names(list) => names_hole(kind, views(list@)),
            _ => run_hole(kind, Seq::empty()),
        }
    }
}

/// How a list of texts is written: `A` its first, `B` its second, `Z` its last,
/// `#` their number, `J` all of them in a row.
pub open spec fn names_hole(kind: char, list: Seq<Seq<char>>) -> Seq<char> {
    if kind == 'A' {
        text_at(list, 0)
    } else if kind == 'B' {
        text_at(list, 1)
    } else if kind == 'Z' {
        text_at(list, list.len() - 1)
    } else if kind == '#' {
        decimal(list.len() as int)
    } else if kind == 'J' {
        joined(list, ", "@)
    } else {
        Seq::empty()
    }
}

/// A text of a list; empty where the list has none at that place.
pub open spec fn text_at(list: Seq<Seq<char>>, i: int) -> Seq<char> {
    if 0 <= i < list.len() { list[i] } else { Seq::empty() }
}

fn text_at_of(list: &Vec<String>, i: usize) -> (r: String)
    ensures
        r@ == text_at(views(list@), i as int),
{
    if i < list.len() {
        list[i].clone()
    } else {
        String::new()
    }
}

fn names_hole_text(kind: char, list: &Vec<String>) -> (r: String)
    ensures
        r@ == names_hole(kind, views(list@)),
{
    assert(views(list@).len() == list@.len());
    if kind == 'A' {
        text_at_of(list, 0)
    } else if kind == 'B' {
        text_at_of(list, 1)
    } else if kind == 'Z' {
        if list.len() > 0 {
            text_at_of(list, list.len() - 1)
        } else {
            String::new()
        }
    } else if kind == '#' {
        count_text(list.len())
    } else if kind == 'J' {
        join(list, ", ")
    } else {
        String::new()
    }
}

/// How a routine's arguments are written: `Z` their number, `L` the names that
/// are given, `O` all names.
pub open spec fn definition_hole(kind: char, arguments: Seq<Option<String>>) -> Seq<char> {
    if kind == 'Z' {
        decimal(arguments.len() as int)
    } else if kind == 'L' {
        bracketed(debug_all(given_names(arguments)))
    } else if kind == 'O' {
        bracketed(optional_names(arguments))
    } else {
        Seq::empty()
    }
}

pub open spec fn optional_names(arguments: Seq<Option<String>>) -> Seq<Seq<char>> {
    Seq::new(
        arguments.len(),
        |i: int|
            match arguments[i] {
                Some(name) => optional(Some(debug_form(name@))),
                None => optional(None),
            },
    )
}

fn definition_hole_text(kind: char, arguments: &Vec<Option<String>>) -> (r: String)
    ensures
        r@ == definition_hole(kind, arguments@),
{
    if kind == 'Z' {
        count_text(arguments.len())
    } else if kind == 'L' {
        let names = given_names_of(arguments);
        names_text(&names)
    } else if kind == 'O' {
        let mut out: Vec<String> = Vec::new();
        let mut i: usize = 0;
        while i < arguments.len()
            invariant
                i <= arguments@.len(),
                out@.len() == i,
                forall|k: int| 0 <= k < i ==> (#[trigger] out@[k])@ == optional_names(arguments@)[k],
            decreases arguments@.len() - i,
        {
            match &arguments[i] {
                Some(name) => {
                    out.push(optional_text(Some(quoted(name.as_str()))));
                },
                None => {
                    out.push(optional_text(None));
                },
            }
            i += 1;
        }
        assert(views(out@) =~= optional_names(arguments@));
        bracketed_text(&out)
    } else {
        String::new()
    }
}

/// How a listing of routines is written: `P` as pairs, `M` how it spells the
/// member `myProc`.
pub open spec fn listing_hole(kind: char, listing: Seq<(String, String)>) -> Seq<char> {
    if kind == 'P' {
        bracketed(pair_forms(listing))
    } else if kind == 'M' {
        match listed_spelling(listing, "myProc"@) {
            Some(spelling) => debug_form(spelling),
            None => Seq::empty(),
        }
    } else {
        Seq::empty()
    }
}

pub open spec fn pair_forms(listing: Seq<(String, String)>) -> Seq<Seq<char>> {
    Seq::new(
        listing.len(),
        |i: int| "("@ + debug_form(listing[i].0@) + ", "@ + debug_form(listing[i].1@) + ")"@,
    )
}

fn listing_hole_text(kind: char, listing: &Vec<(String, String)>) -> (r: String)
    ensures
        r@ == listing_hole(kind, listing@),
{
    if kind == 'P' {
        let mut out: Vec<String> = Vec::new();
        let mut i: usize = 0;
        while i < listing.len()
            invariant
                i <= listing@.len(),
                out@.len() == i,
                forall|k: int| 0 <= k < i ==> (#[trigger] out@[k])@ == pair_forms(listing@)[k],
            decreases listing@.len() - i,
        {
            let mut pair = "(".to_owned();
            pair.append(quoted(listing[i].0.as_str()).as_str());
            pair.append(", ");
            pair.append(quoted(listing[i].1.as_str()).as_str());
            pair.append(")");
            out.push(pair);
            i += 1;
        }
        assert(views(out@) =~= pair_forms(listing@));
        bracketed_text(&out)
    } else if kind == 'M' {
        match listed_spelling_of(listing, "myProc") {
            Some(spelling) => quoted(spelling.as_str()),
            None => String::new(),
        }
    } else {
        String::new()
    }
}

pub open spec fn optional_debug(text: Option<String>) -> Seq<char> {
    match text {
        Some(t) => optional(Some(debug_form(t@))),
        None => optional(None),
    }
}

fn optional_debug_text(text: &Option<String>) -> (r: String)
    ensures
        r@ == optional_debug(*text),
{
    match text {
        Some(t) => optional_text(Some(quoted(t.as_str()))),
        None => optional_text(None),
    }
}

/// How what the object browser showed is written: `D` and `E` the name, plain
/// and quoted, `K` and `J` the kind, `A` the alert and `S` the script as
/// optional texts, `R` the alert and `Q` the script plainly.
pub open spec fn delivery_hole(kind: char, delivery: Delivery) -> Seq<char> {
    if kind == 'D' {
        delivery.name@
    } else if kind == 'E' {
        debug_form(delivery.name@)
    } else if kind == 'K' {
        delivery.kind@
    } else if kind == 'J' {
        debug_form(delivery.kind@)
    } else if kind == 'A' {
        optional_debug(delivery.alert)
    } else if kind == 'S' {
        optional_debug(delivery.sql)
    } else if kind == 'R' {
        match delivery.alert {
            Some(text) => text@,
            None => Seq::empty(),
        }
    } else if kind == 'Q' {
        match delivery.sql {
            Some(text) => text@,
            None => Seq::empty(),
        }
    } else {
        Seq::empty()
    }
}

fn delivery_hole_text(kind: char, delivery: &Delivery) -> (r: String)
    ensures
        r@ == delivery_hole(kind, *delivery),
{
    if kind == 'D' {
        delivery.name.clone()
    } else if kind == 'E' {
        quoted(delivery.name.as_str())
    } else if kind == 'K' {
        delivery.kind.clone()
    } else if kind == 'J' {
        quoted(delivery.kind.as_str())
    } else if kind == 'A' {
        optional_debug_text(&delivery.alert)
    } else if kind == 'S' {
        optional_debug_text(&delivery.sql)
    } else if kind == 'R' {
        match &delivery.alert {
            Some(text) => text.clone(),
            None => String::new(),
        }
    } else if kind == 'Q' {
        match &delivery.sql {
            Some(text) => text.clone(),
            None => String::new(),
        }
    } else {
        String::new()
    }
}

/// What is said of a script's over-long generated name: `T` the name, `B` its
/// length; `H` the script trimmed.
pub open spec fn script_hole(kind: char, script: Seq<char>) -> Seq<char> {
    if kind == 'T' {
        match over_limit(script) {
            Some(word) => word,
            None => Seq::empty(),
        }
    } else if kind == 'B' {
        match over_limit(script) {
            Some(word) => decimal(word.len() as int),
            None => Seq::empty(),
        }
    } else if kind == 'H' {
        trim(script)
    } else {
        measure_hole(kind, script)
    }
}

fn script_hole_text(kind: char, script: &str) -> (r: String)
    ensures
        r@ == script_hole(kind, script@),
{
    if kind == 'T' {
        match over_limit_name(script) {
            Some(word) => word,
            None => String::new(),
        }
    } else if kind == 'B' {
        match over_limit_name(script) {
            Some(word) => count_text(chars_of(word.as_str()).len()),
            None => String::new(),
        }
    } else if kind == 'H' {
        trimmed(script)
    } else {
        measure_hole_text(kind, script)
    }
}

pub fn names_text(names: &Vec<String>) -> (r: String)
    ensures
        r@ == bracketed(debug_all(views(names@))),
{
    let mut out: Vec<String> = Vec::new();
    let mut i: usize = 0;
    while i < names.len()
        invariant
            i <= names@.len(),
            out@.len() == i,
            forall|k: int| 0 <= k < i ==> (#[trigger] out@[k])@ == debug_form(names@[k]@),
        decreases names@.len() - i,
    {
        out.push(quoted(names[i].as_str()));
        i += 1;
    }
    assert(views(out@) =~= debug_all(views(names@)));
    bracketed_text(&out)
}

fn empty_list() -> (r: String)
    ensures
        r@ == bracketed(Seq::empty()),
{
    let none: Vec<String> = Vec::new();
    assert(views(none@) =~= Seq::empty());
    bracketed_text(&none)
}

pub fn hole_text(kind: char, seen: &Seen) -> (r: String)
    ensures
        r@ == hole(kind, *seen),
{
    if kind == 't' {
        words_of(seen)
    } else if kind == 'q' {
        quoted(words_of(seen).as_str())
    } else if kind == 'o' {
        match text_of_seen(seen) {
            Some(text) => optional_text(Some(quoted(text.as_str()))),
            None => optional_text(None),
        }
    } else if kind == 'e' {
        number_fault_text(trimmed(words_of(seen).as_str()).as_str())
    } else if kind == 'h' {
        match seen {
            Seen::Isolation { isolation: TransactionIsolation::RepeatableRead, .. } => "be".to_owned(),
            Seen::Isolation { isolation: TransactionIsolation::Serializable, .. } => "be".to_owned(),
            _ => "not be".to_owned(),
        }
    } else if kind == 'w' {
        match seen {
            Seen::Text(error) => {
                let mut out = " (not expressible here: ".to_owned();
                out.append(error.as_str());
                out.append(")");
                out
            },
            _ => String::new(),
        }
    } else if kind == 'n' {
        number_text(trimmed(words_of(seen).as_str()).as_str())
    } else if kind == '+' {
        match parse_integer(trimmed(words_of(seen).as_str()).as_str()) {
            Ok(n) => wide_text(n as i128 + 1),
            Err(_) => String::new(),
        }
    } else if kind == 'l' {
        match seen {
            Seen::Names(names) => names_text(names),
            _ => empty_list(),
        }
    } else if kind == 'd' {
        match seen {
            Seen::Failed(error) => {
                let mut pair = "(false, ".to_owned();
                pair.append(quoted(error.as_str()).as_str());
                pair.append(")");
                optional_text(Some(pair))
            },
            Seen::Run(run) => outcome_text(Which::Last, run),
            _ => {
                let none: Vec<QueryProgress> = Vec::new();
                assert(none@ =~= Seq::empty());
                outcome_text(Which::Last, &none)
            },
        }
    } else if kind == 'V' {
        match seen {
            Seen::Failed(error) => {
                let mut out = "Err(".to_owned();
                out.append(quoted(error.as_str()).as_str());
                out.append(")");
                out
            },
            _ => {
                let mut out = "Ok(".to_owned();
                out.append(quoted(words_of(seen).as_str()).as_str());
                out.append(")");
                out
            },
        }
    } else if kind == 'G' {
        match seen {
            Seen::Flag(b) => optional_text(Some(truth_text(*b).to_owned())),
            _ => optional_text(None),
        }
    } else {
        match seen {
            Seen::Run(run) => run_hole_text(kind, run),
            Seen::Lookup(RoutineDefinitionLookup::Defined(definition)) => definition_hole_text(
                kind,
                &definition.arguments,
            ),
            Seen::Pairs(listing) => listing_hole_text(kind, listing),
            Seen::Delivery(delivery) => delivery_hole_text(kind, delivery),
            Seen::Text(text) => script_hole_text(kind, text.as_str()),
            Seen::Imported(t) => imported_hole_text(kind, seen, t),
            Seen::Structure(columns) => structure_hole_text(kind, columns),
            Seen::Targets(targets) => targets_hole_text(kind, targets),
            Seen::Export(read) => export_hole_text(kind, read),
            Seen::Names(list) => names_hole_text(kind, list),
            _ => {
                let none: Vec<QueryProgress> = Vec::new();
                assert(none@ =~= Seq::empty());
                run_hole_text(kind, &none)
            },
        }
    }
}

/// Whether a template begins with a hole.
pub open spec fn opens_hole(t: Seq<char>) -> bool {
    &&& t.len() >= 5
    &&& t[0] == '{'
    &&& is_digit(t[2])
    &&& is_digit(t[3])
    &&& t[4] == '}'
}

/// The slot that two digits name.
pub open spec fn slot_of(tens: char, ones: char) -> int {
    10 * (tens as int - '0' as int) + (ones as int - '0' as int)
}

/// A template with every hole filled from the observations; a hole of kind `z`
/// stands for what went wrong.
pub open spec fn fill_with(t: Seq<char>, memory: Seq<Seen>, wrong: Seq<char>) -> Seq<char>
    decreases t.len(),
{
    if t.len() == 0 {
        Seq::empty()
    } else if opens_hole(t) {
        (if t[1] == 'z' { wrong } else { hole(t[1], at(memory, slot_of(t[2], t[3]))) }) + fill_with(
            t.skip(5),
            memory,
            wrong,
        )
    } else {
        seq![t[0]] + fill_with(t.skip(1), memory, wrong)
    }
}

/// A template where nothing went wrong.
pub open spec fn fill(t: Seq<char>, memory: Seq<Seen>) -> Seq<char> {
    fill_with(t, memory, Seq::empty())
}

pub fn filled_with(t: &str, memory: &Vec<Seen>, wrong: &str) -> (r: String)
    ensures
        r@ == fill_with(t@, memory@, wrong@),
{
    let x = chars_of(t);
    let size: usize = x.len();
    let mut out = String::new();
    let mut i: usize = 0;
    assert(x@.skip(0) =~= x@);
    assert(out@ + fill_with(x@, memory@, wrong@) =~= fill_with(x@, memory@, wrong@));
    while i < size
        invariant
            i <= size == x@.len(),
            out@ + fill_with(x@.skip(i as int), memory@, wrong@) == fill_with(
                x@,
                memory@,
                wrong@,
            ),
        decreases size - i,
    {
        let ghost rest = x@.skip(i as int);
        let ghost before = out@;
        if size - i >= 5 && x[i] == '{' && '0' <= x[i + 2] && x[i + 2] <= '9' && '0' <= x[i + 3]
            && x[i + 3] <= '9' && x[i + 4] == '}' {
            assert(opens_hole(rest));
            let slot: usize = 10 * (x[i + 2] as u32 - 48) as usize + (x[i + 3] as u32 - 48) as usize;
            let text = if x[i + 1] == 'z' {
                wrong.to_owned()
            } else if slot < memory.len() {
                hole_text(x[i + 1], &memory[slot])
            } else {
                hole_text(x[i + 1], &Seen::Nothing)
            };
            out.append(text.as_str());
            assert(rest.skip(5) =~= x@.skip(i + 5));
            i += 5;
            assert(out@ + fill_with(x@.skip(i as int), memory@, wrong@) =~= before + (text@
                + fill_with(x@.skip(i as int), memory@, wrong@)));
        } else {
            assert(!opens_hole(rest));
            out.push(x[i]);
            assert(rest.skip(1) =~= x@.skip(i + 1));
            i += 1;
            assert(out@ + fill_with(x@.skip(i as int), memory@, wrong@) =~= before + (seq![rest[0]]
                + fill_with(x@.skip(i as int), memory@, wrong@)));
        }
    }
    assert(x@.skip(i as int) =~= Seq::<char>::empty());
    assert(out@ + Seq::<char>::empty() =~= out@);
    out
}

pub fn filled(t: &str, memory: &Vec<Seen>) -> (r: String)
    ensures
        r@ == fill(t@, memory@),
{
    proof {
        reveal_strlit("");
        assert(""@ =~= Seq::<char>::empty());
    }
    filled_with(t, memory, "")
}

/// A template without an opening brace is its own filling.
pub proof fn plain_template_stands_for_itself(t: Seq<char>, memory: Seq<Seen>)
    requires
        forall|i: int| 0 <= i < t.len() ==> #[trigger] t[i] != '{',
    ensures
        fill(t, memory) == t,
    decreases t.len(),
{
    if t.len() > 0 {
        plain_template_stands_for_itself(t.skip(1), memory);
        assert(seq![t[0]] + t.skip(1) =~= t);
    } else {
        assert(t =~= Seq::empty());
    }
}

} // verus!
