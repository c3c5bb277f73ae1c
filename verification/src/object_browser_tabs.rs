//! Probe of the object browser's cards: every editor tab owns one, with its own
//! tree, expansion and scope.
use vstd::prelude::*;

use crate::course::{
    a_clean_run_passes_every_test_not_left_out, clean, is_test, left_out, test_held,
};
use crate::machine::{append, course, opening, settle, Machine, Row, Weight};
use crate::op::Op;
use crate::seen::{knows, Seen};

verus! {

/// The active tab's card holds its own metadata.
pub const OWN_CARD: [Row; 14] = [
    (Op::TabIds, Weight::Try, 10, 0, "", "", ""),
    (
        Op::NamesAtLeast, Weight::Leave, 10, 2, "", "",
        "expected two example editor tabs, found {#10}",
    ),
    (Op::Say, Weight::Try, 0, 0, "", "  --- the active tab's card holds its own metadata ---", ""),
    (Op::TreePaths, Weight::Try, 11, 0, "", "", ""),
    (
        Op::NameHolds, Weight::Check, 11, 0, "Tables/EMP", "the active tab's tree is populated",
        "tree paths: {l11}",
    ),
    (Op::HasMetadata, Weight::Try, 12, 0, "", "", ""),
    (
        Op::FlagIs, Weight::Check, 12, 1, "", "a card that loaded reports that it has metadata",
        "the filled card claims to be empty",
    ),
    (Op::DisplayedScope, Weight::Try, 13, 0, "", "", ""),
    (
        Op::WordsAre, Weight::Check, 13, 0, "SYSTEM",
        "the scope selector shows the tab's own schema", "displayed scope: {o13}",
    ),
    (Op::ExpandPath, Weight::Try, 99, 0, "Tables", "", ""),
    (Op::ExpandPath, Weight::Try, 99, 0, "Views", "", ""),
    (Op::PumpFor, Weight::Try, 99, 200, "", "", ""),
    (Op::Expanded, Weight::Try, 14, 0, "", "", ""),
    (
        Op::NameHolds, Weight::Check, 14, 0, "Tables", "the expansion the user made is recorded",
        "expanded paths: {l14}",
    ),
];

/// A second tab gets its own card.
pub const SECOND_CARD: [Row; 8] = [
    (
        Op::Say, Weight::Try, 0, 0, "",
        "  --- a second tab gets its OWN card, not the first tab's ---", "",
    ),
    (Op::SelectTab, Weight::Try, 15, 0, "{B10}", "", ""),
    (Op::PumpFor, Weight::Try, 99, 300, "", "", ""),
    (
        Op::FlagIs, Weight::Check, 15, 1, "", "switching to the second tab succeeds",
        "set_active_editor_tab refused",
    ),
    (Op::Expanded, Weight::Try, 16, 0, "", "", ""),
    (
        Op::NamesDiffer, Weight::Check, 16, 14, "",
        "the second tab does not inherit the first tab's expansion",
        "second tab expanded paths: {l16}",
    ),
    (Op::HasMetadata, Weight::Try, 12, 0, "", "", ""),
    (
        Op::FlagIs, Weight::Check, 12, 0, "",
        "a card that never loaded reports that it has no metadata",
        "an empty card claims to hold a catalog",
    ),
];

/// Switching back restores the tab as it was.
pub const SWITCH_BACK: [Row; 10] = [
    (
        Op::Say, Weight::Try, 0, 0, "",
        "  --- switching back restores the tab exactly as it was ---", "",
    ),
    (Op::SelectTab, Weight::Try, 15, 0, "{A10}", "", ""),
    (Op::PumpFor, Weight::Try, 99, 300, "", "", ""),
    (
        Op::FlagIs, Weight::Check, 15, 1, "", "switching back to the first tab succeeds",
        "set_active_editor_tab refused",
    ),
    (Op::TreePaths, Weight::Try, 17, 0, "", "", ""),
    (
        Op::SameNames, Weight::Check, 17, 11, "", "the tree is still there after the round trip",
        "before: {l11}\n         after:  {l17}",
    ),
    (Op::Expanded, Weight::Try, 18, 0, "", "", ""),
    (
        Op::SameNames, Weight::Check, 18, 14, "", "the expansion state survived the round trip",
        "before: {l14}\n         after:  {l18}",
    ),
    (Op::DisplayedScope, Weight::Try, 19, 0, "", "", ""),
    (
        Op::SameText, Weight::Check, 19, 13, "",
        "the scope selector still shows the tab's schema, with no detour",
        "before: {o13}, after: {o19}",
    ),
];

/// A new tab inherits the connection's metadata.
pub const NEW_TAB: [Row; 11] = [
    (
        Op::Say, Weight::Try, 0, 0, "",
        "  --- a new tab inherits the connection's metadata, not a blank tree ---", "",
    ),
    (Op::NewTab, Weight::Try, 99, 0, "", "", ""),
    (Op::PumpFor, Weight::Try, 99, 400, "", "", ""),
    (Op::TreePaths, Weight::Try, 17, 0, "", "", ""),
    (
        Op::NameHolds, Weight::Check, 17, 0, "Tables/EMP",
        "the new tab's card shows the connection's objects immediately",
        "new tab tree paths: {l17}",
    ),
    (Op::HasMetadata, Weight::Try, 12, 0, "", "", ""),
    (
        Op::FlagIs, Weight::Check, 12, 1, "", "the inherited card counts as loaded",
        "the new tab shows a tree but reports itself empty",
    ),
    (Op::CompletionTables, Weight::Try, 18, 0, "", "", ""),
    (
        Op::SomeNames, Weight::Check, 18, 0, "",
        "the new tab's editor can highlight and complete straight away",
        "new tab intellisense tables: {l18}",
    ),
    (Op::DisplayedScope, Weight::Try, 19, 0, "", "", ""),
    (
        Op::SameText, Weight::Check, 19, 13, "",
        "the new tab opens on its own schema, not the first one alphabetically",
        "expected {o13}, got {o19}",
    ),
];

/// Closing a tab takes its card with it.
pub const CLOSE_TAB: [Row; 20] = [
    (Op::Say, Weight::Try, 0, 0, "", "  --- closing a tab takes its card with it ---", ""),
    (Op::CardCount, Weight::Try, 20, 0, "", "", ""),
    (Op::TabIds, Weight::Try, 21, 0, "", "", ""),
    (Op::SomeNames, Weight::Leave, 21, 0, "", "", "the tab just created is missing"),
    (Op::HasCard, Weight::Try, 22, 0, "{Z21}", "", ""),
    (
        Op::FlagIs, Weight::Check, 22, 1, "", "the new tab owns a card while it is open",
        "no card for the tab just created",
    ),
    (Op::CloseTab, Weight::Try, 15, 0, "{Z21}", "", ""),
    (Op::PumpFor, Weight::Try, 99, 400, "", "", ""),
    (
        Op::FlagIs, Weight::Check, 15, 1, "", "closing the tab succeeds",
        "close_query_editor_tab refused",
    ),
    (Op::HasCard, Weight::Try, 22, 0, "{Z21}", "", ""),
    (
        Op::FlagIs, Weight::Check, 22, 0, "", "the closed tab's card is gone",
        "the card outlived its tab",
    ),
    (Op::CardCount, Weight::Try, 23, 0, "", "", ""),
    (
        Op::OneMore, Weight::Check, 23, 20, "", "exactly one card was torn down",
        "cards before: {t20}, after: {t23}",
    ),
    (Op::TabIds, Weight::Try, 21, 0, "", "", ""),
    (Op::SomeNames, Weight::Leave, 21, 0, "", "", "no editor tab survived the close"),
    (Op::SelectTab, Weight::Try, 15, 0, "{A21}", "", ""),
    (Op::PumpFor, Weight::Try, 99, 300, "", "", ""),
    (
        Op::FlagIs, Weight::Check, 15, 1, "", "a tab is still usable after the close",
        "could not activate a surviving tab",
    ),
    (Op::TreePaths, Weight::Try, 17, 0, "", "", ""),
    (
        Op::NameHolds, Weight::Check, 17, 0, "Tables/EMP",
        "the surviving tab still has its own tree", "surviving tab tree paths: {l17}",
    ),
];

/// Opening and closing over and over leaves no cards behind.
pub const ROUNDS: [Row; 53] = [
    (Op::Say, Weight::Try, 0, 0, "", "  --- repeated open/close leaves no cards behind ---", ""),
    (Op::CardCount, Weight::Try, 24, 0, "", "", ""),
    (Op::TabCount, Weight::Try, 25, 0, "", "", ""),
    (Op::NewTab, Weight::Try, 99, 0, "", "", ""),
    (Op::PumpFor, Weight::Try, 99, 120, "", "", ""),
    (Op::TabIds, Weight::Try, 21, 0, "", "", ""),
    (Op::SomeNames, Weight::Leave, 21, 0, "", "", "round 0: the tab just created is missing"),
    (Op::CloseTab, Weight::Try, 15, 0, "{Z21}", "", ""),
    (Op::PumpFor, Weight::Try, 99, 120, "", "", ""),
    (Op::HasCard, Weight::Try, 22, 0, "{Z21}", "", ""),
    (
        Op::YesAndNo, Weight::Check, 15, 22, "", "round 0: the tab opens and closes",
        "closed = {t15}",
    ),
    (Op::NewTab, Weight::Try, 99, 0, "", "", ""),
    (Op::PumpFor, Weight::Try, 99, 120, "", "", ""),
    (Op::TabIds, Weight::Try, 21, 0, "", "", ""),
    (Op::SomeNames, Weight::Leave, 21, 0, "", "", "round 1: the tab just created is missing"),
    (Op::CloseTab, Weight::Try, 15, 0, "{Z21}", "", ""),
    (Op::PumpFor, Weight::Try, 99, 120, "", "", ""),
    (Op::HasCard, Weight::Try, 22, 0, "{Z21}", "", ""),
    (
        Op::YesAndNo, Weight::Check, 15, 22, "", "round 1: the tab opens and closes",
        "closed = {t15}",
    ),
    (Op::NewTab, Weight::Try, 99, 0, "", "", ""),
    (Op::PumpFor, Weight::Try, 99, 120, "", "", ""),
    (Op::TabIds, Weight::Try, 21, 0, "", "", ""),
    (Op::SomeNames, Weight::Leave, 21, 0, "", "", "round 2: the tab just created is missing"),
    (Op::CloseTab, Weight::Try, 15, 0, "{Z21}", "", ""),
    (Op::PumpFor, Weight::Try, 99, 120, "", "", ""),
    (Op::HasCard, Weight::Try, 22, 0, "{Z21}", "", ""),
    (
        Op::YesAndNo, Weight::Check, 15, 22, "", "round 2: the tab opens and closes",
        "closed = {t15}",
    ),
    (Op::NewTab, Weight::Try, 99, 0, "", "", ""),
    (Op::PumpFor, Weight::Try, 99, 120, "", "", ""),
    (Op::TabIds, Weight::Try, 21, 0, "", "", ""),
    (Op::SomeNames, Weight::Leave, 21, 0, "", "", "round 3: the tab just created is missing"),
    (Op::CloseTab, Weight::Try, 15, 0, "{Z21}", "", ""),
    (Op::PumpFor, Weight::Try, 99, 120, "", "", ""),
    (Op::HasCard, Weight::Try, 22, 0, "{Z21}", "", ""),
    (
        Op::YesAndNo, Weight::Check, 15, 22, "", "round 3: the tab opens and closes",
        "closed = {t15}",
    ),
    (Op::NewTab, Weight::Try, 99, 0, "", "", ""),
    (Op::PumpFor, Weight::Try, 99, 120, "", "", ""),
    (Op::TabIds, Weight::Try, 21, 0, "", "", ""),
    (Op::SomeNames, Weight::Leave, 21, 0, "", "", "round 4: the tab just created is missing"),
    (Op::CloseTab, Weight::Try, 15, 0, "{Z21}", "", ""),
    (Op::PumpFor, Weight::Try, 99, 120, "", "", ""),
    (Op::HasCard, Weight::Try, 22, 0, "{Z21}", "", ""),
    (
        Op::YesAndNo, Weight::Check, 15, 22, "", "round 4: the tab opens and closes",
        "closed = {t15}",
    ),
    (Op::CardCount, Weight::Try, 26, 0, "", "", ""),
    (Op::TabCount, Weight::Try, 27, 0, "", "", ""),
    (
        Op::BothSame, Weight::Check, 26, 24, "",
        "five open/close rounds leave the card count where it started",
        "cards {t24} -> {t26}, tabs {t25} -> {t27}",
    ),
    (Op::SelectTab, Weight::Try, 99, 0, "{A10}", "", ""),
    (Op::PumpFor, Weight::Try, 99, 200, "", "", ""),
    (Op::TreePaths, Weight::Try, 17, 0, "", "", ""),
    (Op::HasMetadata, Weight::Try, 12, 0, "", "", ""),
    (
        Op::HoldsNameAnd, Weight::Check, 17, 12, "Tables/EMP",
        "the loaded tab still has its catalog after the churn", "tree paths: {l17}",
    ),
    (Op::Expanded, Weight::Try, 16, 0, "", "", ""),
    (
        Op::SameNames, Weight::Check, 16, 14, "",
        "the loaded tab kept its expansion through the churn", "expanded: {l16} (baseline {l14})",
    ),
];

/// A scope pick moves only the tab that made it.
pub const SCOPES: [Row; 24] = [
    (
        Op::Say, Weight::Try, 0, 0, "",
        "  --- a scope change orphans the catalog the card is holding ---", "",
    ),
    (Op::HasMetadata, Weight::Try, 12, 0, "", "", ""),
    (
        Op::FlagIs, Weight::Check, 12, 1, "", "the card reports metadata before the scope moves",
        "precondition failed: the card was already empty",
    ),
    (Op::SetScope, Weight::Try, 99, 0, "HR", "", ""),
    (Op::PumpFor, Weight::Try, 99, 200, "", "", ""),
    (Op::HasMetadata, Weight::Try, 12, 0, "", "", ""),
    (
        Op::FlagIs, Weight::Check, 12, 0, "",
        "after moving to another schema the card no longer offers its catalog",
        "the card still claims a catalog that describes the previous schema",
    ),
    (Op::Say, Weight::Try, 0, 0, "", "  --- a scope pick moves ONLY the tab that made it ---", ""),
    (Op::TabIds, Weight::Try, 21, 0, "", "", ""),
    (Op::SkipUnlessNamed, Weight::Try, 21, 1, "", "", ""),
    (Op::SelectTab, Weight::Try, 99, 0, "{A21}", "", ""),
    (Op::SkipIfNamed, Weight::Try, 21, 1, "", "", ""),
    (Op::SelectTab, Weight::Try, 99, 0, "{A10}", "", ""),
    (Op::PumpFor, Weight::Try, 99, 200, "", "", ""),
    (Op::NewTab, Weight::Try, 99, 0, "", "", ""),
    (Op::PumpFor, Weight::Try, 99, 300, "", "", ""),
    (Op::BindingScopes, Weight::Try, 28, 0, "", "", ""),
    (Op::TabIds, Weight::Try, 21, 0, "", "", ""),
    (Op::SomeNames, Weight::Leave, 21, 0, "", "", "the sibling tab is missing"),
    (Op::PickScope, Weight::Try, 99, 0, "HR", "", ""),
    (Op::PumpFor, Weight::Try, 99, 300, "", "", ""),
    (Op::BindingScopes, Weight::Try, 29, 0, "", "", ""),
    (
        Op::AtMostOneMoved, Weight::Check, 28, 29, "{Z21}",
        "the pick moves exactly one tab's scope", "",
    ),
    (
        Op::MovedIsOwn, Weight::Check, 28, 29, "{Z21}",
        "the tab that moved is the one the pick was made on", "",
    ),
];

/// Every step, in order.
pub open spec fn all_steps() -> Seq<Row> {
    OWN_CARD@
        + SECOND_CARD@
        + SWITCH_BACK@
        + NEW_TAB@
        + CLOSE_TAB@
        + ROUNDS@
        + SCOPES@
}

pub fn steps() -> (r: Vec<Row>)
    ensures
        r@ == all_steps(),
{
    let mut plan: Vec<Row> = Vec::new();
    append(&mut plan, &OWN_CARD);
    append(&mut plan, &SECOND_CARD);
    append(&mut plan, &SWITCH_BACK);
    append(&mut plan, &NEW_TAB);
    append(&mut plan, &CLOSE_TAB);
    append(&mut plan, &ROUNDS);
    append(&mut plan, &SCOPES);
    assert(plan@ =~= all_steps());
    plan
}

/// The number of slots.
pub const SLOTS: usize = 30;

/// The text a slot starts out with, if it starts out with one.
pub open spec fn fact(slot: int) -> Option<Seq<char>> {
    None
}

/// What the probe knows before it starts.
pub fn facts() -> (r: Vec<Seen>)
    ensures
        r@.len() == SLOTS,
        forall|slot: int|
            0 <= slot < SLOTS ==> knows(#[trigger] r@[slot], fact(slot)),
{
    let mut out: Vec<Seen> = Vec::new();
    let mut slot: usize = 0;
    while slot < SLOTS
        invariant
            slot <= SLOTS,
            out@.len() == slot,
            forall|k: int| 0 <= k < slot ==> knows(#[trigger] out@[k], fact(k)),
        decreases SLOTS - slot,
    {
        out.push(Seen::Nothing);
        slot += 1;
    }
    out
}

/// Starts the probe.
pub fn verify() -> (r: Machine)
    ensures
        r.wf(),
        r.plan() == all_steps(),
        exists|memory: Seq<Seen>|
            {
                &&& memory.len() == SLOTS
                &&& forall|slot: int|
                    0 <= slot < SLOTS ==> knows(#[trigger] memory[slot], fact(slot))
                &&& r.now() == #[trigger] settle(r.plan(), opening(memory))
            },
{
    let plan = steps();
    let memory = facts();
    Machine::new(plan, memory)
}

/// The probe passes only where every test in it was made and held, but for those
/// that a step left out under its own condition: each
/// tab kept a card of its own.
pub proof fn a_clean_run_passes_every_test_of_it(
    memory: Seq<Seen>,
    answers: Seq<Seen>,
    k: int,
)
    requires
        0 <= k < all_steps().len(),
        is_test(all_steps()[k]),
        clean(course(all_steps(), opening(memory), answers)),
        course(all_steps(), opening(memory), answers).at == all_steps().len(),
    ensures
        test_held(all_steps(), opening(memory), answers, k) || left_out(
            all_steps(),
            opening(memory),
            answers,
            k,
        ),
{
    a_clean_run_passes_every_test_not_left_out(all_steps(), opening(memory), answers, k);
}

} // verus!
