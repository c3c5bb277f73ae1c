//! Probes on running routines: what a call leaves on the session, what a
//! read-only tab refuses, and whether the scripts made for routines run.
use vstd::prelude::*;
use vstd::string::*;

use crate::machine::{
    add_quietly, append, append_when, given, lemma_stands_between, lemma_stands_within, opening,
    quiet_steps, settle, stands_in, Machine, Row, Weight,
};
use crate::op::Op;
use crate::proc_exec::tables::{
    BEFORE_PROBES, CALL_FORMS, CLOSING, LONG_NAME, MARIADB_OUT_FUNCTION, MYSQL_ACTION, MYSQL_FACTS,
    MYSQL_GENERATION, MYSQL_NAMES, MYSQL_PROBES, MYSQL_SETUP, MYSQL_TEARDOWN, OPENING,
    ORACLE_ACTION, ORACLE_FACTS, ORACLE_GENERATION, ORACLE_PROBES, ORACLE_SETUP, ORACLE_TEARDOWN,
    PROBE, READ_ONLY_ROUTINE,
};
use crate::seen::{knows, Seen};
use crate::text::{
    begins_with, same, starts, strings, texts, to_upper, trim_start, trimmed_start, upper, views,
};

pub mod laws;
pub mod tables;

verus! {

fn pairs_of(list: &[(&'static str, &'static str)]) -> (r: Vec<(&'static str, &'static str)>)
    ensures
        r@ == list@,
{
    let mut out: Vec<(&'static str, &'static str)> = Vec::new();
    let mut i: usize = 0;
    while i < list.len()
        invariant
            i <= list@.len(),
            out@ == list@.take(i as int),
        decreases list@.len() - i,
    {
        out.push(list[i]);
        i += 1;
        assert(out@ =~= list@.take(i as int));
    }
    assert(list@.take(i as int) =~= list@);
    out
}

/// A database the probe runs against.
#[derive(Clone, Copy, Debug, PartialEq, Eq, Structural)]
pub enum Target {
    OracleThin,
    OracleOci,
    MySql,
    MariaDb,
}

impl Target {
    pub open spec fn oracle(self) -> bool {
        self is OracleThin || self is OracleOci
    }

    pub open spec fn name(self) -> Seq<char> {
        match self {
            Target::OracleThin => "Oracle Thin"@,
            Target::OracleOci => "Oracle OCI"@,
            Target::MySql => "MySQL"@,
            Target::MariaDb => "MariaDB"@,
        }
    }

    pub fn label(self) -> (r: &'static str)
        ensures
            r@ == self.name(),
    {
        match self {
            Target::OracleThin => "Oracle Thin",
            Target::OracleOci => "Oracle OCI",
            Target::MySql => "MySQL",
            Target::MariaDb => "MariaDB",
        }
    }

    pub fn is_oracle(self) -> (r: bool)
        ensures
            r == self.oracle(),
    {
        matches!(self, Target::OracleThin | Target::OracleOci)
    }

    pub open spec fn setup_texts(self) -> Seq<Seq<char>> {
        if self.oracle() { texts(ORACLE_SETUP@) } else { texts(MYSQL_SETUP@) }
    }

    /// The statements that set up a no-op procedure and function, and a routine
    /// that writes.
    pub fn setup(self) -> (r: Vec<String>)
        ensures
            views(r@) == self.setup_texts(),
    {
        if self.is_oracle() {
            strings(&ORACLE_SETUP)
        } else {
            strings(&MYSQL_SETUP)
        }
    }

    pub open spec fn teardown_texts(self) -> Seq<Seq<char>> {
        if self.oracle() { texts(ORACLE_TEARDOWN@) } else { texts(MYSQL_TEARDOWN@) }
    }

    pub fn teardown(self) -> (r: Vec<String>)
        ensures
            views(r@) == self.teardown_texts(),
    {
        if self.is_oracle() {
            strings(&ORACLE_TEARDOWN)
        } else {
            strings(&MYSQL_TEARDOWN)
        }
    }

    pub open spec fn probe_list(self) -> Seq<(&'static str, &'static str)> {
        if self.oracle() { ORACLE_PROBES@ } else { MYSQL_PROBES@ }
    }

    /// Label and statement of each probe: realistic ways to call a routine.
    pub fn probes(self) -> (r: Vec<(&'static str, &'static str)>)
        ensures
            r@ == self.probe_list(),
    {
        if self.is_oracle() {
            pairs_of(&ORACLE_PROBES)
        } else {
            pairs_of(&MYSQL_PROBES)
        }
    }
}

/// The targets that a command-line word names; none where it names none.
pub open spec fn named_targets(word: Seq<char>) -> Option<Seq<Target>> {
    if word == "thin"@ {
        Some(seq![Target::OracleThin])
    } else if word == "oci"@ {
        Some(seq![Target::OracleOci])
    } else if word == "mysql"@ {
        Some(seq![Target::MySql])
    } else if word == "mariadb"@ {
        Some(seq![Target::MariaDb])
    } else if word == "all"@ {
        Some(seq![Target::OracleThin, Target::OracleOci, Target::MySql, Target::MariaDb])
    } else {
        None
    }
}

pub fn targets(word: &str) -> (r: Option<Vec<Target>>)
    ensures
        r is Some <==> named_targets(word@) is Some,
        r matches Some(list) ==> named_targets(word@) == Some(list@),
{
    if same(word, "thin") {
        Some(vec![Target::OracleThin])
    } else if same(word, "oci") {
        Some(vec![Target::OracleOci])
    } else if same(word, "mysql") {
        Some(vec![Target::MySql])
    } else if same(word, "mariadb") {
        Some(vec![Target::MariaDb])
    } else if same(word, "all") {
        Some(vec![Target::OracleThin, Target::OracleOci, Target::MySql, Target::MariaDb])
    } else {
        None
    }
}

/// Whether a statement drops something, which may not be there.
pub open spec fn drops(sql: Seq<char>) -> bool {
    begins_with(upper(trim_start(sql)), "DROP"@)
}

pub fn does_drop(sql: &str) -> (r: bool)
    ensures
        r == drops(sql@),
{
    let bare = trimmed_start(sql);
    starts(to_upper(bare.as_str()).as_str(), "DROP")
}

/// The step for a set-up statement: a drop is best effort, a create must work.
pub open spec fn setup_step(sql: &'static str) -> Row {
    (Op::Setup, if drops(sql@) { Weight::Try } else { Weight::Leave }, 99, 0, sql, "", "")
}

pub open spec fn setup_steps(list: Seq<&'static str>) -> Seq<Row> {
    Seq::new(list.len(), |i: int| setup_step(list[i]))
}

fn add_setup(plan: &mut Vec<Row>, list: &[&'static str])
    ensures
        final(plan)@ == old(plan)@ + setup_steps(list@),
{
    let ghost start = plan@;
    let mut i: usize = 0;
    assert(start + setup_steps(list@).take(0) =~= start);
    while i < list.len()
        invariant
            i <= list@.len(),
            plan@ == start + setup_steps(list@).take(i as int),
        decreases list@.len() - i,
    {
        let weight = if does_drop(list[i]) {
            Weight::Try
        } else {
            Weight::Leave
        };
        plan.push((Op::Setup, weight, 99, 0, list[i], "", ""));
        i += 1;
        assert(plan@ =~= start + setup_steps(list@).take(i as int));
    }
    assert(setup_steps(list@).take(i as int) =~= setup_steps(list@));
}

/// A call of a routine, by its label and its statement: it succeeds, and leaves
/// nothing on the session that blocks the next query.
pub open spec fn probe_of(call: (&'static str, &'static str)) -> Seq<Row> {
    seq![
        (Op::Name, Weight::Try, 8usize, 0usize, call.0, "", ""),
        (Op::Name, Weight::Try, 9usize, 0usize, call.1, "", ""),
    ] + PROBE@
}

pub fn probe(plan: &mut Vec<Row>, label: &'static str, sql: &'static str)
    ensures
        final(plan)@ == old(plan)@ + probe_of((label, sql)),
{
    let ghost start = plan@;
    plan.push((Op::Name, Weight::Try, 8, 0, label, "", ""));
    plan.push((Op::Name, Weight::Try, 9, 0, sql, "", ""));
    append(plan, &PROBE);
    assert(plan@ =~= start + probe_of((label, sql)));
}

pub open spec fn probe_steps(list: Seq<(&'static str, &'static str)>) -> Seq<Row>
    decreases list.len(),
{
    if list.len() == 0 {
        Seq::empty()
    } else {
        probe_steps(list.drop_last()) + probe_of(list.last())
    }
}

fn probe_all(plan: &mut Vec<Row>, target: Target)
    ensures
        final(plan)@ == old(plan)@ + probe_steps(target.probe_list()),
{
    let ghost start = plan@;
    let list = target.probes();
    let mut i: usize = 0;
    assert(plan@ =~= start + probe_steps(list@.take(0)));
    while i < list.len()
        invariant
            i <= list@.len(),
            plan@ == start + probe_steps(list@.take(i as int)),
        decreases list@.len() - i,
    {
        probe(plan, list[i].0, list[i].1);
        assert(list@.take(i + 1).drop_last() =~= list@.take(i as int));
        i += 1;
        assert(plan@ =~= start + probe_steps(list@.take(i as int)));
    }
    assert(list@.take(i as int) =~= list@);
}

pub proof fn lemma_probe(list: Seq<(&'static str, &'static str)>, i: int)
    requires
        0 <= i < list.len(),
    ensures
        stands_in(probe_of(list[i]), probe_steps(list)),
    decreases list.len(),
{
    let last = probe_of(list.last());
    let rest = probe_steps(list.drop_last());
    if i == list.len() - 1 {
        lemma_stands_between(rest, last, Seq::empty());
        assert(rest + last + Seq::empty() =~= probe_steps(list));
    } else {
        lemma_probe(list.drop_last(), i);
        lemma_stands_within(probe_of(list[i]), rest, Seq::empty(), last);
        assert(Seq::<Row>::empty() + rest + last =~= probe_steps(list));
    }
}

/// A tab pinned READ ONLY refuses a routine that writes and lets one that reads
/// through; unpinned, and on an auto-commit tab, the first writes.
pub fn read_only_routine_scenario(plan: &mut Vec<Row>)
    ensures
        final(plan)@ == old(plan)@ + READ_ONLY_ROUTINE@,
{
    append(plan, &READ_ONLY_ROUTINE);
}

/// Scripts made for composite argument shapes must run and report.
pub fn oracle_generation_round_trip(plan: &mut Vec<Row>)
    ensures
        final(plan)@ == old(plan)@ + ORACLE_GENERATION@,
{
    append(plan, &ORACLE_GENERATION);
}

/// A parameter name at the identifier limit.
pub fn oracle_long_name_round_trip(plan: &mut Vec<Row>)
    ensures
        final(plan)@ == old(plan)@ + LONG_NAME@,
{
    append(plan, &LONG_NAME);
}

/// How a routine may be called, whether its arguments can be read, and how its
/// name is spelled.
pub fn oracle_call_form_round_trip(plan: &mut Vec<Row>)
    ensures
        final(plan)@ == old(plan)@ + CALL_FORMS@,
{
    append(plan, &CALL_FORMS);
}

pub open spec fn mysql_generation(target: Target) -> Seq<Row> {
    MYSQL_GENERATION@ + given(target == Target::MariaDb, MARIADB_OUT_FUNCTION@) + MYSQL_NAMES@
}

/// Routines that share a name, OUT parameters, and names that need care.
pub fn mysql_generation_round_trip(plan: &mut Vec<Row>, target: Target)
    ensures
        final(plan)@ == old(plan)@ + mysql_generation(target),
{
    let ghost start = plan@;
    append(plan, &MYSQL_GENERATION);
    append_when(target == Target::MariaDb, plan, &MARIADB_OUT_FUNCTION);
    append(plan, &MYSQL_NAMES);
    assert(plan@ =~= start + mysql_generation(target));
}

pub open spec fn routine_action(target: Target) -> Seq<Row> {
    if target.oracle() { ORACLE_ACTION@ } else { MYSQL_ACTION@ }
}

/// From a click on a routine to what the user is shown.
pub fn routine_action_round_trip(plan: &mut Vec<Row>, target: Target)
    ensures
        final(plan)@ == old(plan)@ + routine_action(target),
{
    if target.is_oracle() {
        append(plan, &ORACLE_ACTION);
    } else {
        append(plan, &MYSQL_ACTION);
    }
}

/// Every step, in order.
pub open spec fn all_steps(target: Target) -> Seq<Row> {
    OPENING@ + setup_steps(
        if target.oracle() { ORACLE_SETUP@ } else { MYSQL_SETUP@ },
    ) + BEFORE_PROBES@ + probe_steps(target.probe_list()) + READ_ONLY_ROUTINE@ + (if target.oracle() {
        ORACLE_GENERATION@ + LONG_NAME@ + CALL_FORMS@
    } else {
        mysql_generation(target)
    }) + routine_action(target) + quiet_steps(
        if target.oracle() { ORACLE_TEARDOWN@ } else { MYSQL_TEARDOWN@ },
    ) + CLOSING@
}

pub fn steps(target: Target) -> (r: Vec<Row>)
    ensures
        r@ == all_steps(target),
{
    let mut plan: Vec<Row> = Vec::new();
    append(&mut plan, &OPENING);
    if target.is_oracle() {
        add_setup(&mut plan, &ORACLE_SETUP);
    } else {
        add_setup(&mut plan, &MYSQL_SETUP);
    }
    append(&mut plan, &BEFORE_PROBES);
    probe_all(&mut plan, target);
    read_only_routine_scenario(&mut plan);
    if target.is_oracle() {
        let ghost before = plan@;
        oracle_generation_round_trip(&mut plan);
        oracle_long_name_round_trip(&mut plan);
        oracle_call_form_round_trip(&mut plan);
        assert(plan@ =~= before + (ORACLE_GENERATION@ + LONG_NAME@ + CALL_FORMS@));
    } else {
        mysql_generation_round_trip(&mut plan, target);
    }
    routine_action_round_trip(&mut plan, target);
    if target.is_oracle() {
        add_quietly(&mut plan, &ORACLE_TEARDOWN);
    } else {
        add_quietly(&mut plan, &MYSQL_TEARDOWN);
    }
    append(&mut plan, &CLOSING);
    assert(plan@ =~= all_steps(target));
    plan
}

/// Every call of the list is made, and held to leave nothing that blocks the
/// next query.
pub proof fn every_call_is_probed(target: Target, i: int)
    requires
        0 <= i < target.probe_list().len(),
    ensures
        stands_in(probe_of(target.probe_list()[i]), all_steps(target)),
{
    let list = target.probe_list();
    lemma_probe(list, i);
    let before = OPENING@ + setup_steps(
        if target.oracle() { ORACLE_SETUP@ } else { MYSQL_SETUP@ },
    ) + BEFORE_PROBES@;
    let after = READ_ONLY_ROUTINE@ + (if target.oracle() {
        ORACLE_GENERATION@ + LONG_NAME@ + CALL_FORMS@
    } else {
        mysql_generation(target)
    }) + routine_action(target) + quiet_steps(
        if target.oracle() { ORACLE_TEARDOWN@ } else { MYSQL_TEARDOWN@ },
    ) + CLOSING@;
    lemma_stands_within(probe_of(list[i]), probe_steps(list), before, after);
    assert(before + probe_steps(list) + after =~= all_steps(target));
}

/// The number of slots.
pub const SLOTS: usize = 30;

/// The text a slot starts out with, if it starts out with one.
pub open spec fn fact(target: Target, schema: Seq<char>, slot: int) -> Option<Seq<char>> {
    if slot == 1 {
        Some(if target.oracle() { ORACLE_FACTS@[1]@ } else { MYSQL_FACTS@[1]@ })
    } else if slot == 2 {
        Some(if target.oracle() { ORACLE_FACTS@[2]@ } else { MYSQL_FACTS@[2]@ })
    } else if slot == 3 {
        Some(if target.oracle() { ORACLE_FACTS@[3]@ } else { MYSQL_FACTS@[3]@ })
    } else if slot == 4 {
        Some(schema)
    } else if slot == 5 {
        Some(target.name())
    } else {
        None
    }
}

/// What the probes know before they start, in a database of this name.
pub fn facts(target: Target, schema: &str) -> (r: Vec<Seen>)
    ensures
        r@.len() == SLOTS,
        forall|slot: int|
            0 <= slot < SLOTS ==> knows(#[trigger] r@[slot], fact(target, schema@, slot)),
{
    let mut out: Vec<Seen> = Vec::new();
    let mut slot: usize = 0;
    while slot < SLOTS
        invariant
            slot <= SLOTS,
            out@.len() == slot,
            forall|k: int| 0 <= k < slot ==> knows(#[trigger] out@[k], fact(target, schema@, k)),
        decreases SLOTS - slot,
    {
        let seen = if slot == 1 {
            Seen::Text(if target.is_oracle() {
                ORACLE_FACTS[1].to_owned()
            } else {
                MYSQL_FACTS[1].to_owned()
            })
        } else if slot == 2 {
            Seen::Text(if target.is_oracle() {
                ORACLE_FACTS[2].to_owned()
            } else {
                MYSQL_FACTS[2].to_owned()
            })
        } else if slot == 3 {
            Seen::Text(if target.is_oracle() {
                ORACLE_FACTS[3].to_owned()
            } else {
                MYSQL_FACTS[3].to_owned()
            })
        } else if slot == 4 {
            Seen::Text(schema.to_owned())
        } else if slot == 5 {
            Seen::Text(target.label().to_owned())
        } else {
            Seen::Nothing
        };
        out.push(seen);
        slot += 1;
    }
    out
}

/// Starts the probes on a target whose database has this name.
pub fn verify(target: Target, schema: &str) -> (r: Machine)
    ensures
        r.wf(),
        r.plan() == all_steps(target),
        exists|memory: Seq<Seen>|
            {
                &&& memory.len() == SLOTS
                &&& forall|slot: int|
                    0 <= slot < SLOTS ==> knows(#[trigger] memory[slot], fact(target, schema@, slot))
                &&& r.now() == #[trigger] settle(r.plan(), opening(memory))
            },
{
    let plan = steps(target);
    let memory = facts(target, schema);
    Machine::new(plan, memory)
}

} // verus!
