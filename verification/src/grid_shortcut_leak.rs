//! Probe of the keys that a focused grid takes: none of them scrolls the tree
//! under the pointer.
use vstd::prelude::*;
use vstd::string::*;

use crate::grid::table;
use crate::text::{count_text, decimal, views, wide_text};

verus! {

/// The keys, each with its virtual key code.
pub const KEYS: [(&'static str, u16); 8] = [
    ("Home", 115),
    ("PageUp", 116),
    ("End", 119),
    ("PageDown", 121),
    ("Left", 123),
    ("Right", 124),
    ("Down", 125),
    ("Up", 126),
];

/// The size of the grid.
pub const GRID_ROWS: usize = 20;

pub const GRID_COLS: usize = 4;

/// A number below a hundred in two digits.
pub open spec fn two_digits(n: int) -> Seq<char> {
    if n < 10 { "0"@ + decimal(n) } else { decimal(n) }
}

fn two_digit_text(n: usize) -> (r: String)
    ensures
        r@ == two_digits(n as int),
{
    if n < 10 {
        let mut out = "0".to_owned();
        out.append(count_text(n).as_str());
        out
    } else {
        count_text(n)
    }
}

/// The names of the grid's columns.
pub fn columns() -> (r: Vec<String>)
    ensures
        r@.len() == GRID_COLS,
        forall|j: int| 0 <= j < GRID_COLS ==> (#[trigger] r@[j])@ == "COL"@ + decimal(j + 1),
{
    let mut out: Vec<String> = Vec::new();
    let mut j: usize = 0;
    while j < GRID_COLS
        invariant
            j <= GRID_COLS,
            out@.len() == j,
            forall|k: int| 0 <= k < j ==> (#[trigger] out@[k])@ == "COL"@ + decimal(k + 1),
        decreases GRID_COLS - j,
    {
        let mut name = "COL".to_owned();
        name.append(count_text(j + 1).as_str());
        out.push(name);
        j += 1;
    }
    out
}

/// A cell of the grid says where it stands.
pub open spec fn cell(row: int, col: int) -> Seq<char> {
    "r"@ + two_digits(row) + "c"@ + two_digits(col)
}

pub open spec fn cells() -> Seq<Seq<Seq<char>>> {
    Seq::new(
        GRID_ROWS as nat,
        |i: int| Seq::new(GRID_COLS as nat, |j: int| cell(i, j)),
    )
}

/// The rows of the grid.
pub fn sample_rows() -> (r: Vec<Vec<String>>)
    ensures
        table(r@) == cells(),
{
    let mut out: Vec<Vec<String>> = Vec::new();
    let mut i: usize = 0;
    while i < GRID_ROWS
        invariant
            i <= GRID_ROWS,
            out@.len() == i,
            forall|k: int| 0 <= k < i ==> views((#[trigger] out@[k])@) == cells()[k],
        decreases GRID_ROWS - i,
    {
        let mut row: Vec<String> = Vec::new();
        let mut j: usize = 0;
        while j < GRID_COLS
            invariant
                j <= GRID_COLS,
                row@.len() == j,
                forall|k: int| 0 <= k < j ==> (#[trigger] row@[k])@ == cell(i as int, k),
            decreases GRID_COLS - j,
        {
            let mut text = "r".to_owned();
            text.append(two_digit_text(i).as_str());
            text.append("c");
            text.append(two_digit_text(j).as_str());
            row.push(text);
            j += 1;
        }
        assert(views(row@) =~= cells()[i as int]);
        out.push(row);
        i += 1;
    }
    assert(table(out@) =~= cells());
    out
}

/// The cell at which the selection is parked: the first one, or the last.
pub fn corner_cell(last_row: bool) -> (r: (i32, i32))
    ensures
        r == (if last_row {
            ((GRID_ROWS - 1) as i32, (GRID_COLS - 1) as i32)
        } else {
            (0i32, 0i32)
        }),
{
    if last_row {
        (19, 3)
    } else {
        (0, 0)
    }
}

pub open spec fn corner(last_row: bool) -> Seq<char> {
    if last_row { "last row/col"@ } else { "first row/col"@ }
}

/// How the corner is named.
pub fn corner_name(last_row: bool) -> (r: &'static str)
    ensures
        r@ == corner(last_row),
{
    if last_row {
        "last row/col"
    } else {
        "first row/col"
    }
}

/// What was seen before and after a key was sent: where the tree stood, and
/// which cells the grid had selected.
#[derive(Clone, Copy, Debug)]
pub struct Trial {
    pub before: i32,
    pub after: i32,
    pub selection_before: (i32, i32, i32, i32),
    pub selection_after: (i32, i32, i32, i32),
}

impl Trial {
    /// Whether the tree moved.
    pub open spec fn leaked(self) -> bool {
        self.before != self.after
    }

    /// Whether the key had any effect.
    pub open spec fn arrived(self) -> bool {
        self.leaked() || self.selection_before != self.selection_after
    }
}

/// What is said of a key that scrolled the tree.
pub open spec fn leak_words(name: Seq<char>, last_row: bool, trial: Trial) -> Seq<char> {
    name + " at "@ + corner(last_row) + ": tree scrolled "@ + decimal(trial.before as int) + " -> "@
        + decimal(trial.after as int) + " (key leaked to the FL_SHORTCUT broadcast)"@
}

/// The keys that failed so far, and whether any key had an effect.
pub struct Tally {
    failures: Vec<String>,
    delivered: bool,
}

impl Tally {
    pub closed spec fn failed(&self) -> Seq<Seq<char>> {
        views(self.failures@)
    }

    pub closed spec fn reached(&self) -> bool {
        self.delivered
    }

    pub fn new() -> (r: Tally)
        ensures
            r.failed() == Seq::<Seq<char>>::empty(),
            !r.reached(),
    {
        let r = Tally { failures: Vec::new(), delivered: false };
        assert(views(r.failures@) =~= Seq::empty());
        r
    }

    /// Takes that a key could not be sent.
    pub fn unsent(&mut self, name: &str, error: &str)
        ensures
            final(self).failed() == old(self).failed().push(name@ + ": "@ + error@),
            final(self).reached() == old(self).reached(),
    {
        let ghost before = self.failures@;
        let mut out = name.to_owned();
        out.append(": ");
        out.append(error);
        let ghost text = out@;
        self.failures.push(out);
        assert(views(self.failures@) =~= views(before).push(text));
    }

    /// Takes what a key did.
    pub fn sent(&mut self, name: &str, last_row: bool, trial: Trial)
        ensures
            final(self).reached() == (old(self).reached() || trial.arrived()),
            final(self).failed() == (if trial.leaked() {
                old(self).failed().push(leak_words(name@, last_row, trial))
            } else {
                old(self).failed()
            }),
    {
        let a = trial.selection_before;
        let b = trial.selection_after;
        if a.0 != b.0 || a.1 != b.1 || a.2 != b.2 || a.3 != b.3 {
            self.delivered = true;
        }
        if trial.before != trial.after {
            self.delivered = true;
            let ghost before = self.failures@;
            let mut out = name.to_owned();
            out.append(" at ");
            out.append(corner_name(last_row));
            out.append(": tree scrolled ");
            out.append(wide_text(trial.before as i128).as_str());
            out.append(" -> ");
            out.append(wide_text(trial.after as i128).as_str());
            out.append(" (key leaked to the FL_SHORTCUT broadcast)");
            let ghost text = out@;
            self.failures.push(out);
            assert(views(self.failures@) =~= views(before).push(text));
        }
    }

    pub fn failures(&self) -> (r: &Vec<String>)
        ensures
            views(r@) == self.failed(),
    {
        &self.failures
    }

    /// Judges the run. Where the system discarded every key of a process it does
    /// not trust, nothing was verified.
    pub fn verdict(&self, trusted: bool) -> (r: Verdict)
        ensures
            r == verdict_of(trusted, self.reached(), self.failed()),
    {
        assert(self.failed().len() == self.failures@.len());
        if !trusted && !self.delivered {
            Verdict::Skipped
        } else if self.failures.len() == 0 {
            Verdict::Passed
        } else {
            Verdict::Failed
        }
    }
}

/// How a run ends.
#[derive(Clone, Copy, Debug, PartialEq, Eq, Structural)]
pub enum Verdict {
    Skipped,
    Passed,
    Failed,
}

pub open spec fn verdict_of(trusted: bool, reached: bool, failed: Seq<Seq<char>>) -> Verdict {
    if !trusted && !reached {
        Verdict::Skipped
    } else if failed.len() == 0 {
        Verdict::Passed
    } else {
        Verdict::Failed
    }
}

/// A run that saw the tree move never passes and is never skipped, whoever is
/// trusted.
pub proof fn a_leak_is_never_passed_over(
    trusted: bool,
    reached: bool,
    failed: Seq<Seq<char>>,
    name: Seq<char>,
    last_row: bool,
    trial: Trial,
)
    requires
        trial.leaked(),
    ensures
        verdict_of(
            trusted,
            reached || trial.arrived(),
            failed.push(leak_words(name, last_row, trial)),
        ) == Verdict::Failed,
{
}

} // verus!
