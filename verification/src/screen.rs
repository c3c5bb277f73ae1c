//! What a probe decides that drives the windows of the running application:
//! how long it waits, what it picks, and when it stops looking.
use vstd::prelude::*;
use vstd::string::*;

use crate::text::{same, views};

verus! {

/// How many rounds of twenty milliseconds a wait takes.
pub open spec fn rounds(milliseconds: int) -> int {
    if milliseconds < 20 { 1 } else { milliseconds / 20 }
}

/// How many rounds of twenty milliseconds a wait takes; at least one.
pub fn pump_rounds(milliseconds: u64) -> (r: u64)
    ensures
        r == rounds(milliseconds as int),
{
    if milliseconds < 20 {
        1
    } else {
        milliseconds / 20
    }
}

/// What a timeout does that looks for a window.
#[derive(Clone, Copy, Debug, PartialEq, Eq, Structural)]
pub enum Look {
    /// The window is there: it acts on it.
    Act,
    /// It looks again, with so many tries behind it.
    Again(u32),
    /// It has looked often enough.
    Stop,
    /// Another window says that the one looked for will not come.
    Refused,
}

/// What a timeout does that has made so many tries, of so many at most.
pub open spec fn looked(shown: bool, attempts: int, limit: int) -> Look {
    if shown {
        Look::Act
    } else if attempts < limit {
        Look::Again((attempts + 1) as u32)
    } else {
        Look::Stop
    }
}

pub fn look_for(shown: bool, attempts: u32, limit: u32) -> (r: Look)
    ensures
        r == looked(shown, attempts as int, limit as int),
{
    if shown {
        Look::Act
    } else if attempts < limit {
        Look::Again(attempts + 1)
    } else {
        Look::Stop
    }
}

/// How many tries a timeout makes that has made some already and never finds its
/// window.
pub open spec fn tries(attempts: int, limit: int) -> int
    decreases limit - attempts,
{
    if attempts < limit && looked(false, attempts, limit) is Again {
        1 + tries(attempts + 1, limit)
    } else {
        1
    }
}

/// A window that never comes is looked for once more than the limit, from the
/// first try on.
pub proof fn looking_ends(attempts: int, limit: int)
    requires
        0 <= attempts <= limit,
    ensures
        tries(attempts, limit) == limit - attempts + 1,
    decreases limit - attempts,
{
    if attempts < limit {
        looking_ends(attempts + 1, limit);
    }
}

/// The place of an item in a selector; none where it does not offer it.
pub open spec fn item_place(items: Seq<Seq<char>>, label: Seq<char>) -> Option<int>
    decreases items.len(),
{
    if items.len() == 0 {
        None
    } else if items[0] == label {
        Some(0)
    } else {
        match item_place(items.skip(1), label) {
            Some(place) => Some(place + 1),
            None => None,
        }
    }
}

pub fn item_at(items: &Vec<String>, label: &str) -> (r: Option<usize>)
    ensures
        match r {
            Some(place) => item_place(views(items@), label@) == Some(place as int) && place
                < items@.len(),
            None => item_place(views(items@), label@) is None,
        },
{
    let ghost all = views(items@);
    let mut i: usize = 0;
    assert(all.skip(0) =~= all);
    while i < items.len()
        invariant
            i <= items@.len(),
            all == views(items@),
            match item_place(all.skip(i as int), label@) {
                Some(place) => item_place(all, label@) == Some(place + i),
                None => item_place(all, label@) is None,
            },
        decreases items@.len() - i,
    {
        assert(all.skip(i as int)[0] == items@[i as int]@);
        if same(items[i].as_str(), label) {
            return Some(i);
        }
        assert(all.skip(i as int).skip(1) =~= all.skip(i + 1));
        i += 1;
    }
    assert(all.skip(i as int).len() == 0);
    None
}

/// A selector's item stands where it was found, and not before.
pub proof fn item_place_is_first(items: Seq<Seq<char>>, label: Seq<char>)
    ensures
        match item_place(items, label) {
            Some(place) => 0 <= place < items.len() && items[place] == label && forall|i: int|
                0 <= i < place ==> #[trigger] items[i] != label,
            None => forall|i: int| 0 <= i < items.len() ==> #[trigger] items[i] != label,
        },
    decreases items.len(),
{
    if items.len() > 0 && items[0] != label {
        let rest = items.skip(1);
        item_place_is_first(rest, label);
        assert forall|i: int| 1 <= i < items.len() implies #[trigger] items[i] == rest[i - 1] by {}
        if let Some(place) = item_place(rest, label) {
            assert(items[place + 1] == rest[place]);
        }
    }
}

} // verus!
