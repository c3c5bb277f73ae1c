//! How a probe's run ends: the lines that tell its failures, and whether it
//! failed.
use vstd::prelude::*;
use vstd::string::*;

use crate::text::{join, joined, views};

verus! {

/// A failure under the name of the target it occurred on.
pub open spec fn charged(label: Seq<char>, failure: Seq<char>) -> Seq<char> {
    label + ": "@ + failure
}

pub fn charge(label: &str, failure: &str) -> (r: String)
    ensures
        r@ == charged(label@, failure@),
{
    let mut out = label.to_owned();
    out.append(": ");
    out.append(failure);
    out
}

/// The failures of a target, each under its name, after those charged before.
pub fn charge_all(list: &mut Vec<String>, label: &str, failures: &Vec<String>)
    ensures
        views(final(list)@) == views(old(list)@) + Seq::new(
            failures@.len(),
            |i: int| charged(label@, failures@[i]@),
        ),
{
    let ghost start = views(list@);
    let ghost more = Seq::new(failures@.len(), |i: int| charged(label@, failures@[i]@));
    let mut i: usize = 0;
    assert(start + more.take(0) =~= start);
    while i < failures.len()
        invariant
            i <= failures@.len(),
            more == Seq::new(failures@.len(), |i: int| charged(label@, failures@[i]@)),
            views(list@) == start + more.take(i as int),
        decreases failures@.len() - i,
    {
        let line = charge(label, failures[i].as_str());
        let ghost before = list@;
        let ghost text = line@;
        list.push(line);
        i += 1;
        assert(views(list@) =~= views(before).push(text));
        assert(views(list@) =~= start + more.take(i as int));
    }
    assert(more.take(i as int) =~= more);
}

/// How the failures are told, or that there are none.
pub open spec fn ending(
    passed: Seq<char>,
    heading: Seq<char>,
    bullet: Seq<char>,
    failures: Seq<Seq<char>>,
) -> Seq<Seq<char>> {
    if failures.len() == 0 {
        seq![passed]
    } else {
        seq![heading] + Seq::new(failures.len(), |i: int| bullet + failures[i])
    }
}

/// The last lines of a run that lists its failures, one to a line.
pub fn listing(passed: &str, heading: &str, bullet: &str, failures: &Vec<String>) -> (r: Vec<String>)
    ensures
        views(r@) == ending(passed@, heading@, bullet@, views(failures@)),
{
    let ghost wanted = ending(passed@, heading@, bullet@, views(failures@));
    assert(views(failures@).len() == failures@.len());
    if failures.len() == 0 {
        let out = vec![passed.to_owned()];
        assert(views(out@) =~= wanted);
        return out;
    }
    let mut out: Vec<String> = vec![heading.to_owned()];
    let mut i: usize = 0;
    while i < failures.len()
        invariant
            i <= failures@.len(),
            failures@.len() > 0,
            out@.len() == i + 1,
            wanted == ending(passed@, heading@, bullet@, views(failures@)),
            wanted.len() == failures@.len() + 1,
            forall|k: int| 0 <= k <= i ==> (#[trigger] out@[k])@ == wanted[k],
        decreases failures@.len() - i,
    {
        let mut line = bullet.to_owned();
        line.append(failures[i].as_str());
        out.push(line);
        i += 1;
    }
    assert(views(out@) =~= wanted);
    out
}

/// The last line of a run that names the targets that failed.
pub fn summary(passed: &str, failed: &Vec<String>) -> (r: String)
    ensures
        r@ == (if failed@.len() == 0 {
            passed@
        } else {
            "FAILED: "@ + joined(views(failed@), ", "@)
        }),
{
    if failed.len() == 0 {
        passed.to_owned()
    } else {
        let mut out = "FAILED: ".to_owned();
        out.append(join(failed, ", ").as_str());
        out
    }
}

/// The exit code of a run.
pub fn exit_code(failures: &Vec<String>) -> (r: i32)
    ensures
        r == (if failures@.len() == 0 { 0int } else { 1 }),
{
    if failures.len() == 0 {
        0
    } else {
        1
    }
}

/// What a run that lists its failures says of a word that names no target.
pub fn unknown_target(word: &str) -> (r: String)
    ensures
        r@ == "unknown target "@ + word@ + "; use thin|oci|mysql|mariadb|all"@,
{
    let mut out = "unknown target ".to_owned();
    out.append(word);
    out.append("; use thin|oci|mysql|mariadb|all");
    out
}

/// What a run that names the targets that failed says of a word that names none.
pub fn unknown_named_target(word: &str) -> (r: String)
    ensures
        r@ == "unknown target: "@ + word@ + " (use thin|oci|mysql|mariadb|all)"@,
{
    let mut out = "unknown target: ".to_owned();
    out.append(word);
    out.append(" (use thin|oci|mysql|mariadb|all)");
    out
}

/// A run tells that it passed only where nothing failed, and then nothing else.
pub proof fn passing_is_told_of_no_failure(
    passed: Seq<char>,
    heading: Seq<char>,
    bullet: Seq<char>,
    failures: Seq<Seq<char>>,
)
    ensures
        failures.len() == 0 <==> ending(passed, heading, bullet, failures).len() == 1,
        failures.len() > 0 ==> ending(passed, heading, bullet, failures).len() == failures.len() + 1,
        failures.len() == 0 ==> ending(passed, heading, bullet, failures)[0] == passed,
{
}

} // verus!
