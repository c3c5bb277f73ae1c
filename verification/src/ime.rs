//! What the input method probe decides: which workaround its mode asks for, and
//! when the input source has changed under it.
use vstd::prelude::*;
use vstd::string::*;

use crate::text::same;

verus! {

/// What is done about a change of the input source.
#[derive(Clone, Copy, Debug, PartialEq, Eq, Structural)]
pub enum Workaround {
    /// The input context is deactivated and activated again.
    Cycle,
    /// The view gives up the keyboard focus and takes it again.
    Refocus,
}

pub open spec fn workaround_for(mode: Seq<char>) -> Option<Workaround> {
    if mode == "--cycle"@ {
        Some(Workaround::Cycle)
    } else if mode == "--refocus"@ {
        Some(Workaround::Refocus)
    } else {
        None
    }
}

/// The workaround that a mode asks for; without one the source is not watched.
pub fn workaround(mode: &str) -> (r: Option<Workaround>)
    ensures
        r == workaround_for(mode@),
{
    if same(mode, "--cycle") {
        Some(Workaround::Cycle)
    } else if same(mode, "--refocus") {
        Some(Workaround::Refocus)
    } else {
        None
    }
}

/// Whether a mode asks for the repair of the first key.
pub fn repair_enabled(mode: &str) -> (r: bool)
    ensures
        r == (mode@ == "--repair"@),
{
    same(mode, "--repair")
}

/// What is done when the input source is looked at.
pub open spec fn on_source(last: Seq<char>, source: Seq<char>, how: Workaround) -> Option<
    Workaround,
> {
    if source != last { Some(how) } else { None }
}

/// The input source as it was last seen.
pub struct Watch {
    last: String,
    how: Workaround,
}

impl Watch {
    pub closed spec fn source(&self) -> Seq<char> {
        self.last@
    }

    pub closed spec fn remedy(&self) -> Workaround {
        self.how
    }

    pub fn new(source: String, how: Workaround) -> (r: Watch)
        ensures
            r.source() == source@,
            r.remedy() == how,
    {
        Watch { last: source, how }
    }

    /// The source as it was last seen.
    pub fn last(&self) -> (r: &String)
        ensures
            r@ == self.source(),
    {
        &self.last
    }

    /// Looks at the source: where it has changed, the workaround is due, once.
    pub fn look(&mut self, source: String) -> (r: Option<Workaround>)
        ensures
            r == on_source(old(self).source(), source@, old(self).remedy()),
            final(self).source() == source@,
            final(self).remedy() == old(self).remedy(),
    {
        let changed = !same(source.as_str(), self.last.as_str());
        self.last = source;
        if changed {
            Some(self.how)
        } else {
            None
        }
    }
}

/// A change is answered once: a second look at the same source asks for nothing.
pub proof fn a_change_is_answered_once(last: Seq<char>, source: Seq<char>, how: Workaround)
    ensures
        on_source(source, source, how) is None,
        on_source(last, source, how) is Some <==> last != source,
{
}

/// Whether a change of the text is worth telling of.
pub fn tells_change(inserted: i32, deleted: i32) -> (r: bool)
    ensures
        r == (inserted > 0 || deleted > 0),
{
    inserted > 0 || deleted > 0
}

} // verus!
