//! Probe of the read-only connection: every write is refused and changes
//! nothing, every read still runs, and the guard is the connection's own.
use vstd::prelude::*;
use vstd::string::*;

use crate::machine::{
    append, given, lemma_stands_between, lemma_stands_within, opening, settle, stands_in, Machine,
    Row, Weight,
};
use crate::op::Op;
use crate::read_only::tables::{
    AFTERWARDS, BASELINE, COMMITTING, CONTROL, CONTROL_HEAD, FIXTURE, GUARDED, MYSQL_CLEANUP,
    MYSQL_READS, MYSQL_WRITES, NOT_DEMONSTRABLE, OPENING, ORACLE_CLEANUP, ORACLE_READS,
    ORACLE_WRITES, READS_HEAD, STILL_WRITABLE,
};
use crate::seen::{knows, Seen};
use crate::text::{decimal, integer_text, replace, replaced, same, strings, texts, views};

pub mod laws;
pub mod statements;
pub mod tables;

verus! {

/// A statement that changes rows, and that a writable connection can run.
pub const ROW_CHANGE: usize = 0;

/// A statement that changes the table itself.
pub const STRUCTURAL: usize = 1;

/// A statement that cannot be run here at all.
pub const UNRUNNABLE: usize = 2;

/// A statement the guard has to refuse, and how to prove it is a real write.
#[derive(Debug)]
pub struct Write {
    pub what: &'static str,
    pub sql: String,
    /// Whether a writable connection is expected to run it.
    pub runnable: bool,
    /// Whether it changes the table itself, so that the fixture is rebuilt.
    pub structural: bool,
}

impl Write {
    pub fn row_change(what: &'static str, sql: String) -> (r: Self)
        ensures
            r == (Write { what, sql, runnable: true, structural: false }),
    {
        Write { what, sql, runnable: true, structural: false }
    }

    pub fn structural(what: &'static str, sql: String) -> (r: Self)
        ensures
            r == (Write { what, sql, runnable: true, structural: true }),
    {
        Write { what, sql, runnable: true, structural: true }
    }

    pub fn unrunnable(what: &'static str, sql: &str) -> (r: Self)
        ensures
            r.what == what,
            r.sql@ == sql@,
            !r.runnable,
            !r.structural,
    {
        Write { what, sql: sql.to_owned(), runnable: false, structural: false }
    }
}

/// Whether a write is the one an entry of the list describes.
pub open spec fn is_write(write: Write, entry: (&'static str, &'static str, usize)) -> bool {
    &&& write.what == entry.0
    &&& write.sql@ == entry.1@
    &&& write.runnable == (entry.2 != UNRUNNABLE)
    &&& write.structural == (entry.2 == STRUCTURAL)
}

fn writes_of(list: &[(&'static str, &'static str, usize)]) -> (r: Vec<Write>)
    ensures
        r@.len() == list@.len(),
        forall|i: int| 0 <= i < r@.len() ==> is_write(#[trigger] r@[i], list@[i]),
{
    let mut out: Vec<Write> = Vec::new();
    let mut i: usize = 0;
    while i < list.len()
        invariant
            i <= list@.len(),
            out@.len() == i,
            forall|k: int| 0 <= k < i ==> is_write(#[trigger] out@[k], list@[k]),
        decreases list@.len() - i,
    {
        let (what, sql, kind) = list[i];
        let write = if kind == UNRUNNABLE {
            Write::unrunnable(what, sql)
        } else if kind == STRUCTURAL {
            Write::structural(what, sql.to_owned())
        } else {
            Write::row_change(what, sql.to_owned())
        };
        out.push(write);
        i += 1;
    }
    out
}

fn reads_of(list: &[(&'static str, &'static str)], schema: &str) -> (r: Vec<(&'static str, String)>)
    ensures
        r@.len() == list@.len(),
        forall|i: int|
            0 <= i < r@.len() ==> ((#[trigger] r@[i]).0@, r@[i].1@) == (
                list@[i].0@,
                replaced(list@[i].1@, "{t06}"@, schema@),
            ),
{
    proof {
        reveal_strlit("{t06}");
    }
    let mut out: Vec<(&'static str, String)> = Vec::new();
    let mut i: usize = 0;
    while i < list.len()
        invariant
            i <= list@.len(),
            out@.len() == i,
            "{t06}"@.len() > 0,
            forall|k: int|
                0 <= k < i ==> ((#[trigger] out@[k]).0@, out@[k].1@) == (
                    list@[k].0@,
                    replaced(list@[k].1@, "{t06}"@, schema@),
                ),
        decreases list@.len() - i,
    {
        out.push((list[i].0, replace(list[i].1, "{t06}", schema)));
        i += 1;
    }
    out
}

/// A database the probe runs against.
#[derive(Clone, Copy, Debug, PartialEq, Eq, Structural)]
pub enum Target {
    OracleThin,
    OracleOci,
    MySql,
    MariaDb,
}

impl Target {
    pub open spec fn oracle(self) -> bool {
        self is OracleThin || self is OracleOci
    }

    pub open spec fn name(self) -> Seq<char> {
        match self {
            Target::OracleThin => "Oracle Thin"@,
            Target::OracleOci => "Oracle OCI"@,
            Target::MySql => "MySQL"@,
            Target::MariaDb => "MariaDB"@,
        }
    }

    pub fn label(self) -> (r: &'static str)
        ensures
            r@ == self.name(),
    {
        match self {
            Target::OracleThin => "Oracle Thin",
            Target::OracleOci => "Oracle OCI",
            Target::MySql => "MySQL",
            Target::MariaDb => "MariaDB",
        }
    }

    pub fn is_oracle(self) -> (r: bool)
        ensures
            r == self.oracle(),
    {
        matches!(self, Target::OracleThin | Target::OracleOci)
    }

    pub open spec fn create_sql_text(self) -> Seq<char> {
        if self.oracle() {
            "CREATE TABLE OQT_READ_ONLY (ID NUMBER PRIMARY KEY, NAME VARCHAR2(30))"@
        } else {
            "CREATE TABLE OQT_READ_ONLY (ID INT PRIMARY KEY, NAME VARCHAR(30))"@
        }
    }

    /// The statement that creates the table.
    pub fn create_sql(self) -> (r: String)
        ensures
            r@ == self.create_sql_text(),
    {
        if self.is_oracle() {
            "CREATE TABLE OQT_READ_ONLY (ID NUMBER PRIMARY KEY, NAME VARCHAR2(30))".to_owned()
        } else {
            "CREATE TABLE OQT_READ_ONLY (ID INT PRIMARY KEY, NAME VARCHAR(30))".to_owned()
        }
    }

    pub open spec fn write_list(self) -> Seq<(&'static str, &'static str, usize)> {
        if self.oracle() { ORACLE_WRITES@ } else { MYSQL_WRITES@ }
    }

    /// Statements a read-only connection must refuse.
    pub fn writes(self) -> (r: Vec<Write>)
        ensures
            r@.len() == self.write_list().len(),
            forall|i: int| 0 <= i < r@.len() ==> is_write(#[trigger] r@[i], self.write_list()[i]),
    {
        if self.is_oracle() {
            writes_of(&ORACLE_WRITES)
        } else {
            writes_of(&MYSQL_WRITES)
        }
    }

    pub open spec fn read_list(self, schema: Seq<char>) -> Seq<(Seq<char>, Seq<char>)> {
        let list = if self.oracle() { ORACLE_READS@ } else { MYSQL_READS@ };
        Seq::new(list.len(), |i: int| (list[i].0@, replaced(list[i].1@, "{t06}"@, schema)))
    }

    /// Statements a read-only connection must still run, in this schema.
    pub fn reads(self, schema: &str) -> (r: Vec<(&'static str, String)>)
        ensures
            r@.len() == self.read_list(schema@).len(),
            forall|i: int|
                0 <= i < r@.len() ==> ((#[trigger] r@[i]).0@, r@[i].1@) == self.read_list(
                    schema@,
                )[i],
    {
        if self.is_oracle() {
            reads_of(&ORACLE_READS, schema)
        } else {
            reads_of(&MYSQL_READS, schema)
        }
    }

    pub open spec fn setting(self) -> (Seq<char>, Seq<char>, Seq<char>) {
        if self.oracle() {
            (
                "SELECT VALUE FROM V$PARAMETER WHERE NAME = 'open_cursors'"@,
                "ALTER SYSTEM SET open_cursors = "@,
                " SCOPE=MEMORY"@,
            )
        } else {
            (
                "SELECT @@GLOBAL.net_read_timeout"@,
                "SET GLOBAL net_read_timeout = "@,
                Seq::empty(),
            )
        }
    }

    /// A server setting this backend lets a privileged account change: how it is
    /// read, and what stands before and after a value in the statement that
    /// changes it.
    pub fn server_setting(self) -> (r: (&'static str, &'static str, &'static str))
        ensures
            (r.0@, r.1@, r.2@) == self.setting(),
    {
        proof {
            reveal_strlit("");
            assert(""@ =~= Seq::<char>::empty());
        }
        if self.is_oracle() {
            (
                "SELECT VALUE FROM V$PARAMETER WHERE NAME = 'open_cursors'",
                "ALTER SYSTEM SET open_cursors = ",
                " SCOPE=MEMORY",
            )
        } else {
            ("SELECT @@GLOBAL.net_read_timeout", "SET GLOBAL net_read_timeout = ", "")
        }
    }

    /// The statement that sets the server setting to a value.
    pub fn set_setting(self, value: i64) -> (r: String)
        ensures
            r@ == self.setting().1 + decimal(value as int) + self.setting().2,
    {
        let (_, before, after) = self.server_setting();
        let mut out = before.to_owned();
        out.append(integer_text(value).as_str());
        out.append(after);
        out
    }

    pub open spec fn cleanup_list(self) -> Seq<&'static str> {
        if self.oracle() { ORACLE_CLEANUP@ } else { MYSQL_CLEANUP@ }
    }

    /// Everything the fixture may have left behind, in drop order.
    pub fn cleanup_sql(self) -> (r: Vec<String>)
        ensures
            views(r@) == texts(self.cleanup_list()),
    {
        if self.is_oracle() {
            strings(&ORACLE_CLEANUP)
        } else {
            strings(&MYSQL_CLEANUP)
        }
    }
}

/// The targets that a command-line word names; none where it names none.
pub open spec fn named_targets(word: Seq<char>) -> Option<Seq<Target>> {
    if word == "thin"@ {
        Some(seq![Target::OracleThin])
    } else if word == "oci"@ {
        Some(seq![Target::OracleOci])
    } else if word == "mysql"@ {
        Some(seq![Target::MySql])
    } else if word == "mariadb"@ {
        Some(seq![Target::MariaDb])
    } else if word == "all"@ {
        Some(seq![Target::OracleThin, Target::OracleOci, Target::MySql, Target::MariaDb])
    } else {
        None
    }
}

pub fn targets(word: &str) -> (r: Option<Vec<Target>>)
    ensures
        r is Some <==> named_targets(word@) is Some,
        r matches Some(list) ==> named_targets(word@) == Some(list@),
{
    if same(word, "thin") {
        Some(vec![Target::OracleThin])
    } else if same(word, "oci") {
        Some(vec![Target::OracleOci])
    } else if same(word, "mysql") {
        Some(vec![Target::MySql])
    } else if same(word, "mariadb") {
        Some(vec![Target::MariaDb])
    } else if same(word, "all") {
        Some(vec![Target::OracleThin, Target::OracleOci, Target::MySql, Target::MariaDb])
    } else {
        None
    }
}

/// A write of the list: what it is, its statement, and its kind.
pub type Entry = (&'static str, &'static str, usize);

/// The steps that put a write where the next steps find it.
pub open spec fn named(entry: Entry) -> Seq<Row> {
    seq![
        (Op::Name, Weight::Try, 3usize, 0usize, entry.0, "", ""),
        (Op::Name, Weight::Try, 4usize, 0usize, entry.1, "", ""),
    ]
}

fn name(plan: &mut Vec<Row>, entry: Entry)
    ensures
        final(plan)@ == old(plan)@ + named(entry),
{
    plan.push((Op::Name, Weight::Try, 3, 0, entry.0, "", ""));
    plan.push((Op::Name, Weight::Try, 4, 0, entry.1, "", ""));
    assert(plan@ =~= old(plan)@ + named(entry));
}

/// Statements that drop what may not be there.
pub open spec fn dropping(list: Seq<&'static str>) -> Seq<Row> {
    Seq::new(list.len(), |i: int| (Op::Execute, Weight::Try, 99usize, 0usize, list[i], "", ""))
}

fn drop_all(plan: &mut Vec<Row>, list: &[&'static str])
    ensures
        final(plan)@ == old(plan)@ + dropping(list@),
{
    let ghost start = plan@;
    let mut i: usize = 0;
    assert(start + dropping(list@).take(0) =~= start);
    while i < list.len()
        invariant
            i <= list@.len(),
            plan@ == start + dropping(list@).take(i as int),
        decreases list@.len() - i,
    {
        plan.push((Op::Execute, Weight::Try, 99, 0, list[i], "", ""));
        i += 1;
        assert(plan@ =~= start + dropping(list@).take(i as int));
    }
    assert(dropping(list@).take(i as int) =~= dropping(list@));
}

fn clear(plan: &mut Vec<Row>, target: Target)
    ensures
        final(plan)@ == old(plan)@ + dropping(target.cleanup_list()),
{
    if target.is_oracle() {
        drop_all(plan, &ORACLE_CLEANUP);
    } else {
        drop_all(plan, &MYSQL_CLEANUP);
    }
}

/// Three rows, from scratch.
pub open spec fn fixture(target: Target) -> Seq<Row> {
    COMMITTING@ + dropping(target.cleanup_list()) + FIXTURE@
}

pub fn build_fixture(plan: &mut Vec<Row>, target: Target)
    ensures
        final(plan)@ == old(plan)@ + fixture(target),
{
    let ghost start = plan@;
    append(plan, &COMMITTING);
    clear(plan, target);
    append(plan, &FIXTURE);
    assert(plan@ =~= start + fixture(target));
}

/// A write on the writable connection: it has to run, and where it changes the
/// table itself the rows are set up again.
pub open spec fn control_of(target: Target, entry: Entry) -> Seq<Row> {
    named(entry) + (if entry.2 == UNRUNNABLE {
        NOT_DEMONSTRABLE@
    } else {
        CONTROL@ + given(entry.2 == STRUCTURAL, fixture(target))
    })
}

pub open spec fn controls(target: Target, list: Seq<Entry>) -> Seq<Row>
    decreases list.len(),
{
    if list.len() == 0 {
        Seq::empty()
    } else {
        controls(target, list.drop_last()) + control_of(target, list.last())
    }
}

/// The control group: every write, on the writable connection.
pub open spec fn control_steps(target: Target) -> Seq<Row> {
    CONTROL_HEAD@ + controls(target, target.write_list()) + fixture(target)
}

fn control(plan: &mut Vec<Row>, target: Target, entry: Entry)
    ensures
        final(plan)@ == old(plan)@ + control_of(target, entry),
{
    let ghost start = plan@;
    name(plan, entry);
    if entry.2 == UNRUNNABLE {
        append(plan, &NOT_DEMONSTRABLE);
    } else {
        append(plan, &CONTROL);
        if entry.2 == STRUCTURAL {
            build_fixture(plan, target);
        }
    }
    assert(plan@ =~= start + control_of(target, entry));
}

fn control_all(plan: &mut Vec<Row>, target: Target, list: &[Entry])
    ensures
        final(plan)@ == old(plan)@ + controls(target, list@),
{
    let ghost start = plan@;
    let mut i: usize = 0;
    assert(plan@ =~= start + controls(target, list@.take(0)));
    while i < list.len()
        invariant
            i <= list@.len(),
            plan@ == start + controls(target, list@.take(i as int)),
        decreases list@.len() - i,
    {
        control(plan, target, list[i]);
        assert(list@.take(i + 1).drop_last() =~= list@.take(i as int));
        i += 1;
        assert(plan@ =~= start + controls(target, list@.take(i as int)));
    }
    assert(list@.take(i as int) =~= list@);
}

/// The control group: every write is run on the writable connection, so that a
/// refusal later proves the guard and not the statement.
pub fn control_group(plan: &mut Vec<Row>, target: Target)
    ensures
        final(plan)@ == old(plan)@ + control_steps(target),
{
    let ghost start = plan@;
    append(plan, &CONTROL_HEAD);
    if target.is_oracle() {
        control_all(plan, target, &ORACLE_WRITES);
    } else {
        control_all(plan, target, &MYSQL_WRITES);
    }
    build_fixture(plan, target);
    assert(plan@ =~= start + control_steps(target));
}

/// Every write, on the read-only connection.
pub open spec fn guarded_steps(list: Seq<Entry>) -> Seq<Row>
    decreases list.len(),
{
    if list.len() == 0 {
        Seq::empty()
    } else {
        guarded_steps(list.drop_last()) + (named(list.last()) + GUARDED@)
    }
}

fn guard_all(plan: &mut Vec<Row>, list: &[Entry])
    ensures
        final(plan)@ == old(plan)@ + guarded_steps(list@),
{
    let ghost start = plan@;
    let mut i: usize = 0;
    assert(plan@ =~= start + guarded_steps(list@.take(0)));
    while i < list.len()
        invariant
            i <= list@.len(),
            plan@ == start + guarded_steps(list@.take(i as int)),
        decreases list@.len() - i,
    {
        name(plan, list[i]);
        append(plan, &GUARDED);
        assert(list@.take(i + 1).drop_last() =~= list@.take(i as int));
        i += 1;
        assert(plan@ =~= start + guarded_steps(list@.take(i as int)));
    }
    assert(list@.take(i as int) =~= list@);
}

/// One read, on the read-only connection: it still runs.
pub open spec fn read_of(read: (&'static str, &'static str)) -> Seq<Row> {
    seq![
        (Op::Name, Weight::Try, 3usize, 0usize, read.0, "", ""),
        (
            Op::Execute,
            Weight::Leave,
            13usize,
            1usize,
            read.1,
            "PASS: {t03} still runs on a read-only connection",
            "a read-only connection refused {t03}: {z13}",
        ),
    ]
}

pub open spec fn read_steps(list: Seq<(&'static str, &'static str)>) -> Seq<Row>
    decreases list.len(),
{
    if list.len() == 0 {
        Seq::empty()
    } else {
        read_steps(list.drop_last()) + read_of(list.last())
    }
}

fn read_all(plan: &mut Vec<Row>, list: &[(&'static str, &'static str)])
    ensures
        final(plan)@ == old(plan)@ + read_steps(list@),
{
    let ghost start = plan@;
    let mut i: usize = 0;
    assert(plan@ =~= start + read_steps(list@.take(0)));
    while i < list.len()
        invariant
            i <= list@.len(),
            plan@ == start + read_steps(list@.take(i as int)),
        decreases list@.len() - i,
    {
        plan.push((Op::Name, Weight::Try, 3, 0, list[i].0, "", ""));
        plan.push(
            (
                Op::Execute,
                Weight::Leave,
                13,
                1,
                list[i].1,
                "PASS: {t03} still runs on a read-only connection",
                "a read-only connection refused {t03}: {z13}",
            ),
        );
        assert(list@.take(i + 1).drop_last() =~= list@.take(i as int));
        i += 1;
        assert(plan@ =~= start + read_steps(list@.take(i as int)));
    }
    assert(list@.take(i as int) =~= list@);
}

impl Target {
    /// The reads of the list, as the steps hold them.
    pub open spec fn read_entries(self) -> Seq<(&'static str, &'static str)> {
        if self.oracle() { ORACLE_READS@ } else { MYSQL_READS@ }
    }
}

/// Every step, in order.
pub open spec fn all_steps(target: Target) -> Seq<Row> {
    OPENING@ + fixture(target) + control_steps(target) + BASELINE@ + guarded_steps(
        target.write_list(),
    ) + AFTERWARDS@ + READS_HEAD@ + read_steps(target.read_entries()) + STILL_WRITABLE@ + dropping(target.cleanup_list()) + COMMITTING@
}

pub fn steps(target: Target) -> (r: Vec<Row>)
    ensures
        r@ == all_steps(target),
{
    let mut plan: Vec<Row> = Vec::new();
    append(&mut plan, &OPENING);
    build_fixture(&mut plan, target);
    control_group(&mut plan, target);
    append(&mut plan, &BASELINE);
    if target.is_oracle() {
        guard_all(&mut plan, &ORACLE_WRITES);
    } else {
        guard_all(&mut plan, &MYSQL_WRITES);
    }
    append(&mut plan, &AFTERWARDS);
    append(&mut plan, &READS_HEAD);
    if target.is_oracle() {
        read_all(&mut plan, &ORACLE_READS);
    } else {
        read_all(&mut plan, &MYSQL_READS);
    }
    append(&mut plan, &STILL_WRITABLE);
    clear(&mut plan, target);
    append(&mut plan, &COMMITTING);
    assert(plan@ =~= all_steps(target));
    plan
}

pub proof fn lemma_guarded(list: Seq<Entry>, i: int)
    requires
        0 <= i < list.len(),
    ensures
        stands_in(named(list[i]) + GUARDED@, guarded_steps(list)),
    decreases list.len(),
{
    let last = named(list.last()) + GUARDED@;
    let rest = guarded_steps(list.drop_last());
    if i == list.len() - 1 {
        lemma_stands_between(rest, last, Seq::empty());
        assert(rest + last + Seq::empty() =~= guarded_steps(list));
    } else {
        lemma_guarded(list.drop_last(), i);
        lemma_stands_within(named(list[i]) + GUARDED@, rest, Seq::empty(), last);
        assert(Seq::<Row>::empty() + rest + last =~= guarded_steps(list));
    }
}

/// Every write of the list is attempted on the read-only connection, where it
/// has to be refused and to leave the row count alone.
pub proof fn every_write_is_guarded(target: Target, i: int)
    requires
        0 <= i < target.write_list().len(),
    ensures
        stands_in(named(target.write_list()[i]) + GUARDED@, all_steps(target)),
{
    let list = target.write_list();
    lemma_guarded(list, i);
    let before = OPENING@ + fixture(target) + control_steps(target) + BASELINE@;
    let after = AFTERWARDS@ + READS_HEAD@ + read_steps(target.read_entries()) + STILL_WRITABLE@
        + dropping(target.cleanup_list()) + COMMITTING@;
    lemma_stands_within(named(list[i]) + GUARDED@, guarded_steps(list), before, after);
    assert(before + guarded_steps(list) + after =~= all_steps(target));
}

proof fn lemma_controlled(target: Target, list: Seq<Entry>, i: int)
    requires
        0 <= i < list.len(),
    ensures
        stands_in(control_of(target, list[i]), controls(target, list)),
    decreases list.len(),
{
    let last = control_of(target, list.last());
    let rest = controls(target, list.drop_last());
    if i == list.len() - 1 {
        lemma_stands_between(rest, last, Seq::empty());
        assert(rest + last + Seq::empty() =~= controls(target, list));
    } else {
        lemma_controlled(target, list.drop_last(), i);
        lemma_stands_within(control_of(target, list[i]), rest, Seq::empty(), last);
        assert(Seq::<Row>::empty() + rest + last =~= controls(target, list));
    }
}

/// Every write of the list is run on the writable connection first, unless it
/// cannot be run here at all: what the guard refuses later really is a write.
pub proof fn every_write_has_a_control(target: Target, i: int)
    requires
        0 <= i < target.write_list().len(),
    ensures
        stands_in(control_of(target, target.write_list()[i]), all_steps(target)),
{
    let list = target.write_list();
    lemma_controlled(target, list, i);
    let before = OPENING@ + fixture(target) + CONTROL_HEAD@;
    let after = fixture(target) + BASELINE@ + guarded_steps(list) + AFTERWARDS@ + READS_HEAD@
        + read_steps(target.read_entries()) + STILL_WRITABLE@ + dropping(target.cleanup_list()) + COMMITTING@;
    lemma_stands_within(control_of(target, list[i]), controls(target, list), before, after);
    assert(before + controls(target, list) + after =~= all_steps(target));
}

pub proof fn lemma_read(list: Seq<(&'static str, &'static str)>, i: int)
    requires
        0 <= i < list.len(),
    ensures
        stands_in(read_of(list[i]), read_steps(list)),
    decreases list.len(),
{
    let last = read_of(list.last());
    let rest = read_steps(list.drop_last());
    if i == list.len() - 1 {
        lemma_stands_between(rest, last, Seq::empty());
        assert(rest + last + Seq::empty() =~= read_steps(list));
    } else {
        lemma_read(list.drop_last(), i);
        lemma_stands_within(read_of(list[i]), rest, Seq::empty(), last);
        assert(Seq::<Row>::empty() + rest + last =~= read_steps(list));
    }
}

/// Every read of the list has to run on the read-only connection.
pub proof fn every_read_is_run(target: Target, i: int)
    requires
        0 <= i < target.read_entries().len(),
    ensures
        stands_in(read_of(target.read_entries()[i]), all_steps(target)),
{
    let list = target.read_entries();
    lemma_read(list, i);
    let before = OPENING@ + fixture(target) + control_steps(target) + BASELINE@ + guarded_steps(
        target.write_list(),
    ) + AFTERWARDS@ + READS_HEAD@;
    let after = STILL_WRITABLE@ + dropping(target.cleanup_list()) + COMMITTING@;
    lemma_stands_within(read_of(list[i]), read_steps(list), before, after);
    assert(before + read_steps(list) + after =~= all_steps(target));
}

/// The number of slots.
pub const SLOTS: usize = 20;

/// The text a slot starts out with, if it starts out with one.
pub open spec fn fact(target: Target, schema: Seq<char>, slot: int) -> Option<Seq<char>> {
    if slot == 1 {
        Some(target.create_sql_text())
    } else if slot == 5 {
        Some(target.name())
    } else if slot == 6 {
        Some(schema)
    } else if slot == 7 {
        Some(target.setting().0)
    } else if slot == 8 {
        Some(target.setting().1)
    } else if slot == 9 {
        Some(target.setting().2)
    } else {
        None
    }
}

/// What the probe knows before it starts.
pub fn facts(target: Target, schema: &str) -> (r: Vec<Seen>)
    ensures
        r@.len() == SLOTS,
        forall|slot: int|
            0 <= slot < SLOTS ==> knows(#[trigger] r@[slot], fact(target, schema@, slot)),
{
    let mut out: Vec<Seen> = Vec::new();
    let mut slot: usize = 0;
    while slot < SLOTS
        invariant
            slot <= SLOTS,
            out@.len() == slot,
            forall|k: int| 0 <= k < slot ==> knows(#[trigger] out@[k], fact(target, schema@, k)),
        decreases SLOTS - slot,
    {
        let seen = if slot == 1 {
            Seen::Text(target.create_sql())
        } else if slot == 5 {
            Seen::Text(target.label().to_owned())
        } else if slot == 6 {
            Seen::Text(schema.to_owned())
        } else if slot == 7 {
            Seen::Text(target.server_setting().0.to_owned())
        } else if slot == 8 {
            Seen::Text(target.server_setting().1.to_owned())
        } else if slot == 9 {
            Seen::Text(target.server_setting().2.to_owned())
        } else {
            Seen::Nothing
        };
        out.push(seen);
        slot += 1;
    }
    out
}

/// Starts the probe on a target, in this schema.
pub fn verify(target: Target, schema: &str) -> (r: Machine)
    ensures
        r.wf(),
        r.plan() == all_steps(target),
        exists|memory: Seq<Seen>|
            {
                &&& memory.len() == SLOTS
                &&& forall|slot: int|
                    0 <= slot < SLOTS ==> knows(#[trigger] memory[slot], fact(target, schema@, slot))
                &&& r.now() == #[trigger] settle(r.plan(), opening(memory))
            },
{
    let plan = steps(target);
    let memory = facts(target, schema);
    Machine::new(plan, memory)
}

} // verus!
