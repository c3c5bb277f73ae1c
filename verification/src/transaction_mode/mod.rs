//! Scenarios on the transaction mode of a tab: what a pin refuses, what it
//! lets through, whose it is, and what it survives.
use vstd::prelude::*;
use vstd::string::*;

use crate::connection::ConnectionInfo;
use crate::machine::{
    add_quietly, append, append_when, bind, bound, given, opening, quiet_steps, settle, Machine,
    Row, Weight,
};
use crate::op::{level_at, level_code, Op};
use crate::progress::TransactionIsolation;
use crate::seen::{knows, Seen};
use crate::text::{
    count_text, decimal, same, strings, texts, to_uppercase, unicode_uppercase, views,
};
use crate::transaction_mode::tables::{
    AUTO_COMMIT_BACK, CLOSING, MARIADB_FACTS, MARIADB_ROLLBACK, MYSQL_FACTS, MYSQL_SETUP,
    MYSQL_TEARDOWN, OPENING, ORACLE_FACTS, ORACLE_SETUP, ORACLE_TEARDOWN, S10, S11, S11_SNAPSHOT,
    S11_VARIABLE, S12, S13, S13_ORACLE, S14, S15, S16, S17, S18, S18_READS, S19, S1_PIN,
    S1_VARIABLE, S1_WRITE, S2, S20, S21, S22, S23, S24, S25, S26, S27, S28, S28_COMMITTED,
    S28_LEVEL, S28_REPEATABLE, S28_SERIALIZABLE, S28_UNCOMMITTED, S28_VARIABLE, S29, S30, S30_LEAK,
    S30_MYSQL, S30_ORACLE, S31, S31_LEAK, S31_REFUSES, S31_WRITES, S32, S32_VARIABLE, S32_WRITE,
    S33, S33_XA, S34, S34_READS, S35, S35_LEAK, S35_MARIADB, S36, S36_ONE_SHOT, S37, S38, S39,
    S3_TRANSACTION, S3_VARIABLE, S4, S40, S4_MYSQL, S4_ORACLE, S5, S6, S7, S8, S9,
    SNAPSHOT_PIN_MYSQL, SNAPSHOT_PIN_ORACLE, UNPINNING,
};

pub mod laws;
pub mod levels;
pub mod promises;
pub mod tables;

verus! {

/// A database the probe runs against.
#[derive(Clone, Copy, Debug, PartialEq, Eq, Structural)]
pub enum Target {
    OracleThin,
    OracleOci,
    MySql,
    MariaDb,
}

impl Target {
    pub open spec fn oracle(self) -> bool {
        self is OracleThin || self is OracleOci
    }

    pub open spec fn name(self) -> Seq<char> {
        match self {
            Target::OracleThin => "Oracle Thin"@,
            Target::OracleOci => "Oracle OCI"@,
            Target::MySql => "MySQL"@,
            Target::MariaDb => "MariaDB"@,
        }
    }

    pub fn label(self) -> (r: &'static str)
        ensures
            r@ == self.name(),
    {
        match self {
            Target::OracleThin => "Oracle Thin",
            Target::OracleOci => "Oracle OCI",
            Target::MySql => "MySQL",
            Target::MariaDb => "MariaDB",
        }
    }

    pub fn is_oracle(self) -> (r: bool)
        ensures
            r == self.oracle(),
    {
        matches!(self, Target::OracleThin | Target::OracleOci)
    }

    pub open spec fn setup_texts(self) -> Seq<Seq<char>> {
        if self.oracle() { texts(ORACLE_SETUP@) } else { texts(MYSQL_SETUP@) }
    }

    /// The statements that set the scenarios up.
    pub fn setup(self) -> (r: Vec<String>)
        ensures
            views(r@) == self.setup_texts(),
    {
        if self.is_oracle() {
            strings(&ORACLE_SETUP)
        } else {
            strings(&MYSQL_SETUP)
        }
    }

    pub open spec fn teardown_texts(self) -> Seq<Seq<char>> {
        if self.oracle() { texts(ORACLE_TEARDOWN@) } else { texts(MYSQL_TEARDOWN@) }
    }

    /// The statements that take the scenarios down.
    pub fn teardown(self) -> (r: Vec<String>)
        ensures
            views(r@) == self.teardown_texts(),
    {
        if self.is_oracle() {
            strings(&ORACLE_TEARDOWN)
        } else {
            strings(&MYSQL_TEARDOWN)
        }
    }
}

/// The targets that a command-line word names; none where it names none.
pub open spec fn named_targets(word: Seq<char>) -> Option<Seq<Target>> {
    if word == "thin"@ {
        Some(seq![Target::OracleThin])
    } else if word == "oci"@ {
        Some(seq![Target::OracleOci])
    } else if word == "mysql"@ {
        Some(seq![Target::MySql])
    } else if word == "mariadb"@ {
        Some(seq![Target::MariaDb])
    } else if word == "all"@ {
        Some(seq![Target::OracleThin, Target::OracleOci, Target::MySql, Target::MariaDb])
    } else {
        None
    }
}

pub fn targets(word: &str) -> (r: Option<Vec<Target>>)
    ensures
        r is Some <==> named_targets(word@) is Some,
        r matches Some(list) ==> named_targets(word@) == Some(list@),
{
    if same(word, "thin") {
        Some(vec![Target::OracleThin])
    } else if same(word, "oci") {
        Some(vec![Target::OracleOci])
    } else if same(word, "mysql") {
        Some(vec![Target::MySql])
    } else if same(word, "mariadb") {
        Some(vec![Target::MariaDb])
    } else if same(word, "all") {
        Some(vec![Target::OracleThin, Target::OracleOci, Target::MySql, Target::MariaDb])
    } else {
        None
    }
}

/// The database or schema a tab runs in with no scope selected.
pub open spec fn base_scope_spec(target: Target, info: ConnectionInfo) -> Seq<char> {
    if target.oracle() { unicode_uppercase(info.username@) } else { info.service_name@ }
}

pub fn base_scope(target: Target, info: &ConnectionInfo) -> (r: String)
    ensures
        r@ == base_scope_spec(target, *info),
{
    if target.is_oracle() {
        to_uppercase(info.username.as_str())
    } else {
        info.service_name.clone()
    }
}

/// The script that connects anew and writes.
pub open spec fn connect_script(info: ConnectionInfo) -> Seq<char> {
    "CONNECT "@ + info.username@ + "/"@ + info.password@ + "@"@ + info.host@ + ":"@ + decimal(
        info.port as int,
    ) + "/"@ + info.service_name@ + "\nINSERT INTO SQ_TM_T VALUES (8);"@
}

fn connect_script_of(info: &ConnectionInfo) -> (r: String)
    ensures
        r@ == connect_script(*info),
{
    let mut out = "CONNECT ".to_owned();
    out.append(info.username.as_str());
    out.append("/");
    out.append(info.password.as_str());
    out.append("@");
    out.append(info.host.as_str());
    out.append(":");
    out.append(count_text(info.port as usize).as_str());
    out.append("/");
    out.append(info.service_name.as_str());
    out.append("\nINSERT INTO SQ_TM_T VALUES (8);");
    out
}

/// The texts that hold for a target, by slot.
pub open spec fn target_texts(target: Target) -> Seq<&'static str> {
    match target {
        Target::OracleThin | Target::OracleOci => ORACLE_FACTS@,
        Target::MySql => MYSQL_FACTS@,
        Target::MariaDb => MARIADB_FACTS@,
    }
}

/// The text a slot starts out with, if it starts out with one.
pub open spec fn fact(target: Target, info: ConnectionInfo, slot: int) -> Option<Seq<char>> {
    if slot == 0 {
        Some(base_scope_spec(target, info))
    } else if slot == 7 {
        Some(target.name())
    } else if slot == 8 {
        Some(connect_script(info))
    } else if slot == 29 {
        Some(base_scope_spec(target, info) + ".SQ_TM_T"@)
    } else if 1 <= slot <= 6 || 20 <= slot < 29 {
        Some(target_texts(target)[slot]@)
    } else {
        None
    }
}

/// The number of slots.
pub const SLOTS: usize = 30;

/// What the scenarios know before they start.
pub fn facts(target: Target, info: &ConnectionInfo) -> (r: Vec<Seen>)
    ensures
        r@.len() == SLOTS,
        forall|slot: int|
            0 <= slot < SLOTS ==> knows(#[trigger] r@[slot], fact(target, *info, slot)),
{
    let mut out: Vec<Seen> = Vec::new();
    let mut slot: usize = 0;
    while slot < SLOTS
        invariant
            slot <= SLOTS,
            out@.len() == slot,
            forall|k: int| 0 <= k < slot ==> knows(#[trigger] out@[k], fact(target, *info, k)),
        decreases SLOTS - slot,
    {
        let seen = if slot == 0 {
            Seen::Text(base_scope(target, info))
        } else if slot == 7 {
            Seen::Text(target.label().to_owned())
        } else if slot == 8 {
            Seen::Text(connect_script_of(info))
        } else if slot == 29 {
            let mut qualified = base_scope(target, info);
            qualified.append(".SQ_TM_T");
            Seen::Text(qualified)
        } else if slot <= 6 || (20 <= slot && slot < 29) {
            Seen::Text(
                match target {
                    Target::OracleThin | Target::OracleOci => ORACLE_FACTS[slot].to_owned(),
                    Target::MySql => MYSQL_FACTS[slot].to_owned(),
                    Target::MariaDb => MARIADB_FACTS[slot].to_owned(),
                },
            )
        } else {
            Seen::Nothing
        };
        out.push(seen);
        slot += 1;
    }
    out
}

/// The levels but `Default`, which is no level of its own.
pub open spec fn offered(supported: Seq<TransactionIsolation>) -> Seq<TransactionIsolation>
    decreases supported.len(),
{
    if supported.len() == 0 {
        Seq::empty()
    } else {
        let before = offered(supported.drop_last());
        if supported.last() is Default { before } else { before.push(supported.last()) }
    }
}

/// Every isolation level the toolbar offers for a backend that supports these,
/// minus `Default`.
pub fn offered_isolations(supported: &Vec<TransactionIsolation>) -> (r: Vec<TransactionIsolation>)
    ensures
        r@ == offered(supported@),
{
    let mut out: Vec<TransactionIsolation> = Vec::new();
    let mut i: usize = 0;
    while i < supported.len()
        invariant
            i <= supported@.len(),
            out@ == offered(supported@.take(i as int)),
        decreases supported@.len() - i,
    {
        assert(supported@.take(i + 1).drop_last() =~= supported@.take(i as int));
        if supported[i] != TransactionIsolation::Default {
            out.push(supported[i]);
        }
        i += 1;
    }
    assert(supported@.take(i as int) =~= supported@);
    out
}

/// What tells one level from the others.
pub open spec fn level_steps(target: Target, isolation: TransactionIsolation) -> Seq<Row> {
    match isolation {
        TransactionIsolation::ReadUncommitted => S28_UNCOMMITTED@,
        TransactionIsolation::ReadCommitted => S28_COMMITTED@,
        TransactionIsolation::RepeatableRead => S28_REPEATABLE@,
        TransactionIsolation::Serializable => given(target.oracle(), S28_SERIALIZABLE@),
        TransactionIsolation::Default => Seq::empty(),
    }
}

/// The steps for one level: pin it, read it back where it can be read, and see
/// it behave.
pub open spec fn one_level(target: Target, isolation: TransactionIsolation) -> Seq<Row> {
    bound(S28_LEVEL@, level_code(isolation)) + given(!target.oracle(), S28_VARIABLE@) + level_steps(
        target,
        isolation,
    )
}

pub open spec fn every_level(target: Target, levels: Seq<TransactionIsolation>) -> Seq<Row>
    decreases levels.len(),
{
    if levels.len() == 0 {
        Seq::empty()
    } else {
        every_level(target, levels.drop_last()) + one_level(target, levels.last())
    }
}

fn add_levels(plan: &mut Vec<Row>, target: Target, levels: &Vec<TransactionIsolation>)
    ensures
        final(plan)@ == old(plan)@ + every_level(target, levels@),
{
    let ghost start = plan@;
    let mut i: usize = 0;
    assert(start + every_level(target, levels@.take(0)) =~= start);
    while i < levels.len()
        invariant
            i <= levels@.len(),
            plan@ == start + every_level(target, levels@.take(i as int)),
        decreases levels@.len() - i,
    {
        let ghost before = plan@;
        assert(levels@.take(i + 1).drop_last() =~= levels@.take(i as int));
        bind(plan, &S28_LEVEL, level_at(levels[i]));
        append_when(!target.is_oracle(), plan, &S28_VARIABLE);
        match levels[i] {
            TransactionIsolation::ReadUncommitted => append(plan, &S28_UNCOMMITTED),
            TransactionIsolation::ReadCommitted => append(plan, &S28_COMMITTED),
            TransactionIsolation::RepeatableRead => append(plan, &S28_REPEATABLE),
            TransactionIsolation::Serializable => append_when(
                target.is_oracle(),
                plan,
                &S28_SERIALIZABLE,
            ),
            TransactionIsolation::Default => {},
        }
        assert(plan@ =~= before + one_level(target, levels@[i as int]));
        i += 1;
        assert(plan@ =~= start + every_level(target, levels@.take(i as int)));
    }
    assert(levels@.take(i as int) =~= levels@);
}

/// The steps for the first `count` pairs of isolation and access, read-write
/// before read-only at each level.
pub open spec fn every_pair(count: int) -> Seq<Row>
    decreases count,
{
    if count <= 0 {
        Seq::empty()
    } else {
        let code = count - 1;
        every_pair(code) + bound(if code % 2 == 0 { S31_WRITES@ } else { S31_REFUSES@ }, code)
    }
}

fn add_pairs(plan: &mut Vec<Row>)
    ensures
        final(plan)@ == old(plan)@ + every_pair(10),
{
    let ghost start = plan@;
    let mut code: usize = 0;
    assert(start + every_pair(0) =~= start);
    while code < 10
        invariant
            code <= 10,
            plan@ == start + every_pair(code as int),
        decreases 10 - code,
    {
        let ghost before = plan@;
        if code % 2 == 0 {
            bind(plan, &S31_WRITES, code);
        } else {
            bind(plan, &S31_REFUSES, code);
        }
        code += 1;
        assert(plan@ =~= start + every_pair(code as int));
    }
}

/// All scenarios, in the order they are run.
pub open spec fn scenarios(target: Target, offered: Seq<TransactionIsolation>) -> Seq<Row> {
        S1_PIN@
        + given(!target.oracle(), S1_VARIABLE@)
        + S1_WRITE@
        + S2@
        + given(!target.oracle(), S3_VARIABLE@)
        + given(target.oracle(), S3_TRANSACTION@)
        + S4@
        + given(target.oracle(), S4_ORACLE@)
        + given(!target.oracle(), S4_MYSQL@)
        + given(!target.oracle(), S5@)
        + given(target.oracle(), S6@)
        + S10@
        + S11@
        + given(!target.oracle(), S11_VARIABLE@)
        + given(target.oracle(), S11_SNAPSHOT@)
        + S12@
        + S13@
        + given(target.oracle(), S13_ORACLE@)
        + S7@
        + S14@
        + S15@
        + given(!target.oracle(), S16@)
        + S17@
        + S18@
        + given(target.oracle(), SNAPSHOT_PIN_ORACLE@)
        + given(!target.oracle(), SNAPSHOT_PIN_MYSQL@)
        + S18_READS@
        + S19@
        + S20@
        + S21@
        + S22@
        + S23@
        + S24@
        + given(!target.oracle(), S25@)
        + S9@
        + S26@
        + S27@
        + S28@
        + every_level(target, offered)
        + S29@
        + S30@
        + given(target.oracle(), S30_ORACLE@)
        + given(!target.oracle(), S30_MYSQL@)
        + S30_LEAK@
        + S31@
        + every_pair(10)
        + S31_LEAK@
        + S32@
        + given(!target.oracle(), S32_VARIABLE@)
        + S32_WRITE@
        + S40@
        + given(!target.oracle(), S33@)
        + given(target == Target::MariaDb, MARIADB_ROLLBACK@)
        + given(!target.oracle(), S33_XA@)
        + S34@
        + given(target.oracle(), SNAPSHOT_PIN_ORACLE@)
        + given(!target.oracle(), SNAPSHOT_PIN_MYSQL@)
        + S34_READS@
        + given(!target.oracle(), S35@)
        + given(target == Target::MariaDb, S35_MARIADB@)
        + given(!target.oracle(), S35_LEAK@)
        + given(!target.oracle(), S36@)
        + given(target == Target::MariaDb, MARIADB_ROLLBACK@)
        + given(!target.oracle(), S36_ONE_SHOT@)
        + given(target.oracle(), S37@)
        + S38@
        + given(!target.oracle(), S39@)
        + AUTO_COMMIT_BACK@
        + given(target.oracle(), S8@)
}

/// All scenarios, for the levels offered.
pub fn run_scenarios(target: Target, offered: &Vec<TransactionIsolation>) -> (r: Vec<Row>)
    ensures
        r@ == scenarios(target, offered@),
{
    let mut plan: Vec<Row> = Vec::new();
    append(&mut plan, &S1_PIN);
    append_when(!target.is_oracle(), &mut plan, &S1_VARIABLE);
    append(&mut plan, &S1_WRITE);
    append(&mut plan, &S2);
    append_when(!target.is_oracle(), &mut plan, &S3_VARIABLE);
    append_when(target.is_oracle(), &mut plan, &S3_TRANSACTION);
    append(&mut plan, &S4);
    append_when(target.is_oracle(), &mut plan, &S4_ORACLE);
    append_when(!target.is_oracle(), &mut plan, &S4_MYSQL);
    append_when(!target.is_oracle(), &mut plan, &S5);
    append_when(target.is_oracle(), &mut plan, &S6);
    append(&mut plan, &S10);
    append(&mut plan, &S11);
    append_when(!target.is_oracle(), &mut plan, &S11_VARIABLE);
    append_when(target.is_oracle(), &mut plan, &S11_SNAPSHOT);
    append(&mut plan, &S12);
    append(&mut plan, &S13);
    append_when(target.is_oracle(), &mut plan, &S13_ORACLE);
    append(&mut plan, &S7);
    append(&mut plan, &S14);
    append(&mut plan, &S15);
    append_when(!target.is_oracle(), &mut plan, &S16);
    append(&mut plan, &S17);
    append(&mut plan, &S18);
    append_when(target.is_oracle(), &mut plan, &SNAPSHOT_PIN_ORACLE);
    append_when(!target.is_oracle(), &mut plan, &SNAPSHOT_PIN_MYSQL);
    append(&mut plan, &S18_READS);
    append(&mut plan, &S19);
    append(&mut plan, &S20);
    append(&mut plan, &S21);
    append(&mut plan, &S22);
    append(&mut plan, &S23);
    append(&mut plan, &S24);
    append_when(!target.is_oracle(), &mut plan, &S25);
    append(&mut plan, &S9);
    append(&mut plan, &S26);
    append(&mut plan, &S27);
    append(&mut plan, &S28);
    add_levels(&mut plan, target, offered);
    append(&mut plan, &S29);
    append(&mut plan, &S30);
    append_when(target.is_oracle(), &mut plan, &S30_ORACLE);
    append_when(!target.is_oracle(), &mut plan, &S30_MYSQL);
    append(&mut plan, &S30_LEAK);
    append(&mut plan, &S31);
    add_pairs(&mut plan);
    append(&mut plan, &S31_LEAK);
    append(&mut plan, &S32);
    append_when(!target.is_oracle(), &mut plan, &S32_VARIABLE);
    append(&mut plan, &S32_WRITE);
    append(&mut plan, &S40);
    append_when(!target.is_oracle(), &mut plan, &S33);
    append_when(target == Target::MariaDb, &mut plan, &MARIADB_ROLLBACK);
    append_when(!target.is_oracle(), &mut plan, &S33_XA);
    append(&mut plan, &S34);
    append_when(target.is_oracle(), &mut plan, &SNAPSHOT_PIN_ORACLE);
    append_when(!target.is_oracle(), &mut plan, &SNAPSHOT_PIN_MYSQL);
    append(&mut plan, &S34_READS);
    append_when(!target.is_oracle(), &mut plan, &S35);
    append_when(target == Target::MariaDb, &mut plan, &S35_MARIADB);
    append_when(!target.is_oracle(), &mut plan, &S35_LEAK);
    append_when(!target.is_oracle(), &mut plan, &S36);
    append_when(target == Target::MariaDb, &mut plan, &MARIADB_ROLLBACK);
    append_when(!target.is_oracle(), &mut plan, &S36_ONE_SHOT);
    append_when(target.is_oracle(), &mut plan, &S37);
    append(&mut plan, &S38);
    append_when(!target.is_oracle(), &mut plan, &S39);
    append(&mut plan, &AUTO_COMMIT_BACK);
    append_when(target.is_oracle(), &mut plan, &S8);
    plan
}

/// The steps that set the scenarios up. The first three may fail: what they drop
/// may not be there.
pub open spec fn setup_steps(list: Seq<&'static str>) -> Seq<Row> {
    Seq::new(
        list.len(),
        |i: int|
            (
                Op::Setup,
                if i < 3 {
                    Weight::Try
                } else {
                    Weight::Leave
                },
                99usize,
                0usize,
                list[i],
                "",
                "",
            ),
    )
}

fn add_setup(plan: &mut Vec<Row>, list: &[&'static str])
    ensures
        final(plan)@ == old(plan)@ + setup_steps(list@),
{
    let ghost start = plan@;
    let mut i: usize = 0;
    assert(start + setup_steps(list@).take(0) =~= start);
    while i < list.len()
        invariant
            i <= list@.len(),
            plan@ == start + setup_steps(list@).take(i as int),
        decreases list@.len() - i,
    {
        let weight = if i < 3 {
            Weight::Try
        } else {
            Weight::Leave
        };
        plan.push((Op::Setup, weight, 99, 0, list[i], "", ""));
        i += 1;
        assert(plan@ =~= start + setup_steps(list@).take(i as int));
    }
    assert(setup_steps(list@).take(i as int) =~= setup_steps(list@));
}

/// The whole run on a target: set up, every scenario, and, however they ended,
/// the tab unpinned and everything dropped.
pub open spec fn whole_run(target: Target, offered: Seq<TransactionIsolation>) -> Seq<Row> {
    OPENING@ + setup_steps(if target.oracle() { ORACLE_SETUP@ } else { MYSQL_SETUP@ }) + scenarios(
        target,
        offered,
    ) + UNPINNING@ + quiet_steps(
        if target.oracle() { ORACLE_TEARDOWN@ } else { MYSQL_TEARDOWN@ },
    ) + CLOSING@
}

/// The plan of the whole run.
pub fn run_plan(target: Target, offered: &Vec<TransactionIsolation>) -> (r: Vec<Row>)
    ensures
        r@ == whole_run(target, offered@),
{
    let mut plan: Vec<Row> = Vec::new();
    append(&mut plan, &OPENING);
    if target.is_oracle() {
        add_setup(&mut plan, &ORACLE_SETUP);
    } else {
        add_setup(&mut plan, &MYSQL_SETUP);
    }
    let all = run_scenarios(target, offered);
    append(&mut plan, all.as_slice());
    append(&mut plan, &UNPINNING);
    if target.is_oracle() {
        add_quietly(&mut plan, &ORACLE_TEARDOWN);
    } else {
        add_quietly(&mut plan, &MYSQL_TEARDOWN);
    }
    append(&mut plan, &CLOSING);
    assert(plan@ =~= whole_run(target, offered@));
    plan
}

/// Starts the run on a target whose database supports these levels.
pub fn verify(
    target: Target,
    info: &ConnectionInfo,
    supported: &Vec<TransactionIsolation>,
) -> (r: Machine)
    ensures
        r.wf(),
        r.plan() == whole_run(target, offered(supported@)),
        exists|memory: Seq<Seen>|
            {
                &&& memory.len() == SLOTS
                &&& forall|slot: int|
                    0 <= slot < SLOTS ==> knows(#[trigger] memory[slot], fact(target, *info, slot))
                &&& r.now() == #[trigger] settle(r.plan(), opening(memory))
            },
{
    let levels = offered_isolations(supported);
    let plan = run_plan(target, &levels);
    let memory = facts(target, info);
    Machine::new(plan, memory)
}

} // verus!
