//! The tests a probe makes on what the screen shows: lists of labels, the scopes
//! of tabs, and what became of an export.
use vstd::prelude::*;
use vstd::string::*;

use crate::import_verdict::{does_hold_text, holds_text};
use crate::op::Op;
use crate::seen::{
    at, bracketed, bracketed_text, names, optional, optional_text, text_in, text_of_seen, words,
    words_of, Queued, Seen,
};
use crate::text::{
    begins_with, contains, count_text, debug_form, decimal, finds, parse_integer, quoted, same,
    same_texts, split, split_on, starts, trimmed, views,
};
use crate::verdict::{flag, is_flag, look, number};

verus! {

/// Whether one of some texts has a phrase in it.
pub open spec fn any_holds(list: Seq<Seq<char>>, phrase: Seq<char>) -> bool {
    exists|i: int| 0 <= i < list.len() && contains(#[trigger] list[i], phrase)
}

pub fn does_any_hold(list: &Vec<String>, phrase: &str) -> (r: bool)
    ensures
        r == any_holds(views(list@), phrase@),
{
    let mut i: usize = 0;
    while i < list.len()
        invariant
            i <= list@.len(),
            forall|k: int| 0 <= k < i ==> !contains(#[trigger] views(list@)[k], phrase@),
        decreases list@.len() - i,
    {
        if finds(list[i].as_str(), phrase) {
            assert(contains(views(list@)[i as int], phrase@));
            return true;
        }
        i += 1;
    }
    assert(views(list@).len() == list@.len());
    false
}

/// The scopes in a slot, each with its tab; none where the slot holds something
/// else.
pub open spec fn scopes(seen: Seen) -> Seq<(String, Option<String>)> {
    match seen {
        Seen::Scopes(list) => list@,
        _ => Seq::empty(),
    }
}

pub open spec fn scope_view(scope: Option<String>) -> Option<Seq<char>> {
    match scope {
        Some(text) => Some(text@),
        None => None,
    }
}

/// A tab whose scope moved, with its scope before and after.
#[verifier::ext_equal]
pub struct Move {
    pub tab: Seq<char>,
    pub before: Option<Seq<char>>,
    pub after: Option<Seq<char>>,
}

/// The tabs whose scopes moved, of those that stand at one place in both lists.
pub open spec fn moves(
    before: Seq<(String, Option<String>)>,
    after: Seq<(String, Option<String>)>,
) -> Seq<Move>
    decreases before.len(),
{
    if before.len() == 0 || after.len() == 0 {
        Seq::empty()
    } else {
        let rest = moves(before.skip(1), after.skip(1));
        let was = scope_view(before[0].1);
        let is = scope_view(after[0].1);
        if was != is {
            seq![Move { tab: before[0].0@, before: was, after: is }] + rest
        } else {
            rest
        }
    }
}

/// An optional text in `Debug` form.
pub open spec fn optional_quoted(text: Option<Seq<char>>) -> Seq<char> {
    match text {
        Some(t) => optional(Some(debug_form(t))),
        None => optional(None),
    }
}

fn optional_quote(text: &Option<String>) -> (r: String)
    ensures
        r@ == optional_quoted(scope_view(*text)),
{
    match text {
        Some(t) => optional_text(Some(quoted(t.as_str()))),
        None => optional_text(None),
    }
}

/// A moved tab in `Debug` form.
pub open spec fn move_form(m: Move) -> Seq<char> {
    "("@ + m.tab + ", "@ + optional_quoted(m.before) + ", "@ + optional_quoted(m.after) + ")"@
}

pub open spec fn move_forms(ms: Seq<Move>) -> Seq<Seq<char>> {
    Seq::new(ms.len(), |i: int| move_form(ms[i]))
}

fn same_scope(a: &Option<String>, b: &Option<String>) -> (r: bool)
    ensures
        r == (scope_view(*a) == scope_view(*b)),
{
    match (a, b) {
        (Some(x), Some(y)) => same(x.as_str(), y.as_str()),
        (None, None) => true,
        _ => false,
    }
}

/// The tabs that moved: their names, and how each is written.
fn moved(before: &Vec<(String, Option<String>)>, after: &Vec<(String, Option<String>)>) -> (r: (
    Vec<String>,
    Vec<String>,
))
    ensures
        r.0@.len() == moves(before@, after@).len(),
        forall|k: int|
            0 <= k < r.0@.len() ==> (#[trigger] r.0@[k])@ == moves(before@, after@)[k].tab,
        views(r.1@) == move_forms(moves(before@, after@)),
{
    let mut tabs: Vec<String> = Vec::new();
    let mut forms: Vec<String> = Vec::new();
    let ghost all = moves(before@, after@);
    let mut i: usize = 0;
    assert(before@.skip(0) =~= before@);
    assert(after@.skip(0) =~= after@);
    while i < before.len() && i < after.len()
        invariant
            i <= before@.len(),
            i <= after@.len(),
            all == moves(before@, after@),
            tabs@.len() == forms@.len(),
            tabs@.len() <= all.len(),
            all.skip(tabs@.len() as int) == moves(before@.skip(i as int), after@.skip(i as int)),
            forall|k: int| 0 <= k < tabs@.len() ==> (#[trigger] tabs@[k])@ == all[k].tab,
            forall|k: int| 0 <= k < forms@.len() ==> (#[trigger] forms@[k])@ == move_form(all[k]),
        decreases before@.len() - i,
    {
        let was = &before[i].1;
        let is = &after[i].1;
        let ghost bs = before@.skip(i as int);
        let ghost as_ = after@.skip(i as int);
        let ghost n = tabs@.len() as int;
        assert(bs[0] == before@[i as int] && as_[0] == after@[i as int]);
        assert(bs.skip(1) =~= before@.skip(i + 1));
        assert(as_.skip(1) =~= after@.skip(i + 1));
        if !same_scope(was, is) {
            assert(all.skip(n).len() > 0);
            assert(all.skip(n)[0] == all[n]);
            assert(all.skip(n + 1) =~= all.skip(n).skip(1));
            assert(all.skip(n).skip(1) =~= moves(bs.skip(1), as_.skip(1)));
            let mut form = "(".to_owned();
            form.append(before[i].0.as_str());
            form.append(", ");
            form.append(optional_quote(was).as_str());
            form.append(", ");
            form.append(optional_quote(is).as_str());
            form.append(")");
            tabs.push(before[i].0.clone());
            forms.push(form);
        }
        i += 1;
    }
    assert(moves(before@.skip(i as int), after@.skip(i as int)).len() == 0);
    assert(all.skip(tabs@.len() as int).len() == all.len() - tabs@.len());
    assert(views(forms@) =~= move_forms(all));
    (tabs, forms)
}

fn scopes_in<'a>(seen: &'a Seen, none: &'a Vec<(String, Option<String>)>) -> (r: &'a Vec<
    (String, Option<String>),
>)
    requires
        none@.len() == 0,
    ensures
        r@ == scopes(*seen),
{
    match seen {
        Seen::Scopes(list) => list,
        _ => {
            assert(none@ =~= Seq::empty());
            none
        },
    }
}

fn names_in<'a>(seen: &'a Seen, none: &'a Vec<String>) -> (r: &'a Vec<String>)
    requires
        none@.len() == 0,
    ensures
        views(r@) == names(*seen),
{
    match seen {
        Seen::Names(list) => list,
        _ => {
            assert(views(none@) =~= Seq::empty());
            none
        },
    }
}

/// A script that inserts the row it was started with, and not the one that took
/// its place.
pub open spec fn own_row(script: Seq<char>) -> bool {
    &&& contains(script, "VALUES ('1')"@) || contains(script, "VALUES (1)"@)
    &&& !contains(script, "999"@)
}

/// Tests on what the screen shows.
pub open spec fn screen_holds(
    op: Op,
    slot: int,
    other: int,
    arg: Seq<char>,
    memory: Seq<Seen>,
) -> bool {
    let seen = at(memory, slot);
    let second = at(memory, other);
    match op {
        Op::SameNames => names(seen) == names(second),
        Op::NamesDiffer => names(seen) != names(second) || names(seen).len() == 0,
        Op::SomeNames => names(seen).len() > 0,
        Op::NamesAtLeast => names(seen).len() >= other,
        Op::NameHolds => any_holds(names(seen), arg),
        Op::HoldsNameAnd => any_holds(names(seen), arg) && flag(second),
        Op::FirstBegins => names(seen).len() > 0 && begins_with(names(seen)[0], arg),
        Op::LacksName => !holds_text(names(seen), arg),
        Op::SameText => text_in(seen) == text_in(second),
        Op::NeitherFlag => !flag(seen) && !flag(second),
        Op::YesAndNo => flag(seen) && !flag(second),
        Op::BothSame => number(seen) == number(second) && number(at(memory, slot + 1)) == number(
            at(memory, other + 1),
        ),
        Op::HoldsNot => split_on(arg, '|').len() == 2 && contains(
            words(seen),
            split_on(arg, '|')[0],
        ) && !contains(words(seen), split_on(arg, '|')[1]),
        Op::AtMostOneMoved => moves(scopes(seen), scopes(second)).len() <= 1,
        Op::MovedIsOwn => {
            let ms = moves(scopes(seen), scopes(second));
            ms.len() == 0 || ms[0].tab == arg
        },
        Op::QueuedReplaced => seen matches Seen::Queued(queued) && queued is Replaced,
        Op::NotRun => !(seen matches Seen::Queued(queued) && (queued is Data || queued
            is Snapshot)),
        Op::WroteOwnRow => own_row(words(seen)) && number(second) == Some(1int),
        Op::SameExport => words(seen) == words(second),
        _ => false,
    }
}

fn number_of(seen: &Seen) -> (r: Option<i64>)
    ensures
        match r {
            Some(n) => number(*seen) == Some(n as int),
            None => number(*seen) is None,
        },
{
    match parse_integer(trimmed(words_of(seen).as_str()).as_str()) {
        Ok(n) => Some(n),
        Err(_) => None,
    }
}

fn same_numbers(a: &Seen, b: &Seen) -> (r: bool)
    ensures
        r == (number(*a) == number(*b)),
{
    match (number_of(a), number_of(b)) {
        (Some(x), Some(y)) => x == y,
        (None, None) => true,
        _ => false,
    }
}

/// The observation in the slot after one.
fn look_after<'a>(memory: &'a Vec<Seen>, slot: usize, nothing: &'a Seen) -> (r: &'a Seen)
    requires
        *nothing is Nothing,
    ensures
        *r == at(memory@, slot + 1),
{
    let size: usize = memory.len();
    if slot < size {
        look(memory, slot + 1, nothing)
    } else {
        nothing
    }
}

pub fn screen_test(op: Op, slot: usize, other: usize, arg: &str, memory: &Vec<Seen>) -> (r: bool)
    ensures
        r == screen_holds(op, slot as int, other as int, arg@, memory@),
{
    let nothing = Seen::Nothing;
    let none: Vec<String> = Vec::new();
    let no_scopes: Vec<(String, Option<String>)> = Vec::new();
    let seen = look(memory, slot, &nothing);
    let second = look(memory, other, &nothing);
    match op {
        Op::SameNames => same_texts(names_in(seen, &none), names_in(second, &none)),
        Op::NamesDiffer => {
            let list = names_in(seen, &none);
            assert(names(*seen).len() == list@.len());
            list.len() == 0 || !same_texts(list, names_in(second, &none))
        },
        Op::SomeNames => {
            let list = names_in(seen, &none);
            assert(names(*seen).len() == list@.len());
            list.len() > 0
        },
        Op::NamesAtLeast => {
            let list = names_in(seen, &none);
            assert(names(*seen).len() == list@.len());
            list.len() >= other
        },
        Op::NameHolds => does_any_hold(names_in(seen, &none), arg),
        Op::HoldsNameAnd => does_any_hold(names_in(seen, &none), arg) && is_flag(second),
        Op::FirstBegins => {
            let list = names_in(seen, &none);
            assert(names(*seen).len() == list@.len());
            if list.len() > 0 {
                assert(names(*seen)[0] == list@[0]@);
                starts(list[0].as_str(), arg)
            } else {
                false
            }
        },
        Op::LacksName => !does_hold_text(names_in(seen, &none), arg),
        Op::SameText => match (text_of_seen(seen), text_of_seen(second)) {
            (Some(a), Some(b)) => same(a.as_str(), b.as_str()),
            (None, None) => true,
            _ => false,
        },
        Op::NeitherFlag => !is_flag(seen) && !is_flag(second),
        Op::YesAndNo => is_flag(seen) && !is_flag(second),
        Op::BothSame => {
            same_numbers(seen, second) && same_numbers(
                look_after(memory, slot, &nothing),
                look_after(memory, other, &nothing),
            )
        },
        Op::HoldsNot => {
            let parts = split(arg, '|');
            let ghost pieces = split_on(arg@, '|');
            assert(views(parts@) == pieces);
            if parts.len() == 2 {
                assert(parts@[0]@ == pieces[0]);
                assert(parts@[1]@ == pieces[1]);
                let text = words_of(seen);
                finds(text.as_str(), parts[0].as_str()) && !finds(text.as_str(), parts[1].as_str())
            } else {
                false
            }
        },
        Op::AtMostOneMoved => {
            let (tabs, _) = moved(scopes_in(seen, &no_scopes), scopes_in(second, &no_scopes));
            tabs.len() <= 1
        },
        Op::MovedIsOwn => {
            let (tabs, _) = moved(scopes_in(seen, &no_scopes), scopes_in(second, &no_scopes));
            tabs.len() == 0 || same(tabs[0].as_str(), arg)
        },
        Op::QueuedReplaced => match seen {
            Seen::Queued(Queued::Replaced) => true,
            _ => false,
        },
        Op::NotRun => match seen {
            Seen::Queued(Queued::Data { .. }) => false,
            Seen::Queued(Queued::Snapshot) => false,
            _ => true,
        },
        Op::WroteOwnRow => {
            let text = words_of(seen);
            let one: bool = match number_of(second) {
                Some(n) => n == 1,
                None => false,
            };
            (finds(text.as_str(), "VALUES ('1')") || finds(text.as_str(), "VALUES (1)")) && !finds(
                text.as_str(),
                "999",
            ) && one
        },
        Op::SameExport => same(words_of(seen).as_str(), words_of(second).as_str()),
        _ => false,
    }
}

/// What became of a queued export that should have been given up for a new
/// result.
pub open spec fn queued_words(queued: Queued) -> Seq<char> {
    match queued {
        Queued::Replaced => Seq::empty(),
        Queued::Abandoned(reason) => "the queued export was abandoned, but reported "@ + reason@
            + " rather than a replacement"@,
        Queued::Data { rows, text } => "the queued export rendered the NEW result: "@ + decimal(
            rows as int,
        ) + " rows, "@ + debug_form(text@),
        Queued::Snapshot =>
            "a CSV export handed back a SQL Inserts snapshot, which it can never build"@,
        Queued::Waiting =>
            "the queued export was neither run nor abandoned — the caller waits forever"@,
    }
}

fn queued_text(queued: &Queued) -> (r: String)
    ensures
        r@ == queued_words(*queued),
{
    match queued {
        Queued::Replaced => String::new(),
        Queued::Abandoned(reason) => {
            let mut out = "the queued export was abandoned, but reported ".to_owned();
            out.append(reason.as_str());
            out.append(" rather than a replacement");
            out
        },
        Queued::Data { rows, text } => {
            let mut out = "the queued export rendered the NEW result: ".to_owned();
            out.append(count_text(*rows).as_str());
            out.append(" rows, ");
            out.append(quoted(text.as_str()).as_str());
            out
        },
        Queued::Snapshot =>
            "a CSV export handed back a SQL Inserts snapshot, which it can never build".to_owned(),
        Queued::Waiting =>
            "the queued export was neither run nor abandoned — the caller waits forever".to_owned(),
    }
}

/// What a test on the screen that does not hold says of itself.
pub open spec fn screen_own_words(
    op: Op,
    slot: int,
    other: int,
    arg: Seq<char>,
    memory: Seq<Seen>,
) -> Seq<char> {
    let seen = at(memory, slot);
    let second = at(memory, other);
    match op {
        Op::AtMostOneMoved => "tabs that moved: "@ + bracketed(
            move_forms(moves(scopes(seen), scopes(second))),
        ) + " (picked on tab "@ + arg + ")"@,
        Op::MovedIsOwn => "moved: "@ + bracketed(move_forms(moves(scopes(seen), scopes(second))))
            + ", expected only "@ + arg,
        Op::QueuedReplaced => match seen {
            Seen::Queued(queued) => queued_words(queued),
            _ => Seq::empty(),
        },
        Op::NotRun => "closing the old session ran the abandoned export after all: "@ + (
        match seen {
            Seen::Queued(Queued::Data { rows, text }) => optional(Some(debug_form(text@))),
            _ => optional(None),
        }),
        Op::SameExport => if contains(words(seen), "stolen"@) {
            "the "@ + arg
                + " export followed the active tab to a result that arrived under the modal"@
        } else {
            "mid-modal arrival ("@ + arg + "): clipboard held "@ + debug_form(words(seen))
                + ", expected the pinned result's CSV"@
        },
        _ => Seq::empty(),
    }
}

pub fn screen_own_text(op: Op, slot: usize, other: usize, arg: &str, memory: &Vec<Seen>) -> (r:
    String)
    ensures
        r@ == screen_own_words(op, slot as int, other as int, arg@, memory@),
{
    let nothing = Seen::Nothing;
    let no_scopes: Vec<(String, Option<String>)> = Vec::new();
    let seen = look(memory, slot, &nothing);
    let second = look(memory, other, &nothing);
    match op {
        Op::AtMostOneMoved => {
            let (_, forms) = moved(scopes_in(seen, &no_scopes), scopes_in(second, &no_scopes));
            let mut out = "tabs that moved: ".to_owned();
            out.append(bracketed_text(&forms).as_str());
            out.append(" (picked on tab ");
            out.append(arg);
            out.append(")");
            out
        },
        Op::MovedIsOwn => {
            let (_, forms) = moved(scopes_in(seen, &no_scopes), scopes_in(second, &no_scopes));
            let mut out = "moved: ".to_owned();
            out.append(bracketed_text(&forms).as_str());
            out.append(", expected only ");
            out.append(arg);
            out
        },
        Op::QueuedReplaced => match seen {
            Seen::Queued(queued) => queued_text(queued),
            _ => String::new(),
        },
        Op::NotRun => {
            let mut out = "closing the old session ran the abandoned export after all: ".to_owned();
            let shown = match seen {
                Seen::Queued(Queued::Data { text, .. }) => optional_text(
                    Some(quoted(text.as_str())),
                ),
                _ => optional_text(None),
            };
            out.append(shown.as_str());
            out
        },
        Op::SameExport => {
            let text = words_of(seen);
            if finds(text.as_str(), "stolen") {
                let mut out = "the ".to_owned();
                out.append(arg);
                out.append(
                    " export followed the active tab to a result that arrived under the modal",
                );
                out
            } else {
                let mut out = "mid-modal arrival (".to_owned();
                out.append(arg);
                out.append("): clipboard held ");
                out.append(quoted(text.as_str()).as_str());
                out.append(", expected the pinned result's CSV");
                out
            }
        },
        _ => String::new(),
    }
}

} // verus!
