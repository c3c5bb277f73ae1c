//! What the small decisions of the probes come to.
use vstd::prelude::*;
use vstd::string::*;

use crate::connection::{reaches, setting, Backend, ConnectionInfo, Environment};
use crate::export_dialog;
use crate::export_dialog::{covered, export_fault, modal_look, radio, ExportScope};
use crate::grid_shortcut_leak::{two_digits, verdict_of, Trial, Verdict};
use crate::grid_sql_export_live::{chosen, wanted_columns, wanted_names, wanted_rows};
use crate::grid::position;
use crate::ime::{on_source, workaround_for, Workaround};
use crate::import_data::{
    backslash_model, documents_model, headerless_model, hundreds_model, injection_model,
    numbered_model, one_a_model, one_b_model, sevens_model, HOSTILE_TAIL,
};
use crate::import::TableColumnDetail;
use crate::import_dialog::{alert_look, planned, refusal_look, summary, sums_up};
use crate::laws::texts::{
    a_text_stands_between_two, blank, numbers_are_read_back, occurrences_are_found_from_the_left,
};
use crate::object_export_live::check_fault;
use crate::op::{isolation_code, level_code, mode_code};
use crate::proc_exec::drops;
use crate::progress::{TransactionAccessMode, TransactionIsolation};
use crate::report::{charged, ending};
use crate::routine::{as_definition, as_refusal, RoutineDefinitionLookup};
use crate::screen::{looked, rounds, tries, Look};
use crate::session_leak::{
    after_creating, closing, polled, rebuild_tries, sessions, sessions_told, settled, sql_string,
    stable, tried_again, waited, CreationModel, Wait,
};
use crate::text::{
    contains, decimal, integer_value, lower, stands_at, trim, trim_start, unicode_uppercase, upper,
    views,
};
use crate::transaction_mode::{base_scope_spec, offered};
use crate::transaction_mode;

verus! {

/// A setting that is given is taken, and its default where it is not; of the two names
/// of a service the longer is taken first.
pub proof fn settings_are_taken_before_defaults(
    info: ConnectionInfo,
    env: Environment,
    given: String,
)
    requires
        reaches(info, Backend::Oracle, env),
    ensures
        env.host == Some(given) ==> info.host@ == given@,
        env.host is None ==> info.host@ == "127.0.0.1"@,
        env.username == Some(given) ==> info.username@ == given@,
        env.username is None ==> info.username@ == "system"@,
        env.password == Some(given) ==> info.password@ == given@,
        env.password is None ==> info.password@ == "password"@,
        env.service_name == Some(given) ==> info.service_name@ == given@,
        env.service_name is None && env.service == Some(given) ==> info.service_name@ == given@,
        env.service_name is None && env.service is None ==> info.service_name@ == "FREE"@,
{
}

/// A port that a text spells is taken; a text that spells none, or more than a port can
/// be, is passed over.
pub proof fn a_port_is_taken_where_it_is_one(
    info: ConnectionInfo,
    env: Environment,
    given: String,
    port: int,
)
    requires
        reaches(info, Backend::Oracle, env),
        env.port == Some(given),
    ensures
        given@ == decimal(port) && 0 <= port <= 65535 ==> info.port == port,
        given@ == decimal(port) && !(0 <= port <= 65535) ==> info.port == 1521,
        integer_value(given@) is None ==> info.port == 1521,
{
    if given@ == decimal(port) {
        let e = Seq::<char>::empty();
        numbers_are_read_back(port, e, e);
        assert(e + decimal(port) + e =~= decimal(port));
        crate::laws::texts::trimming_takes_the_blanks_around(decimal(port));
        lemma_decimal_is_bare(port);
    }
}

proof fn lemma_decimal_is_bare(n: int)
    ensures
        trim(decimal(n)) == decimal(n),
        n >= 0 ==> decimal(n).len() > 0 && decimal(n)[0] != '-',
    decreases n,
{
    let e = Seq::<char>::empty();
    lemma_digit_texts(if n < 0 { (-n) as nat } else { n as nat });
    let d = decimal(n);
    assert(e + d + e =~= d);
    crate::laws::texts::blanks_around_are_trimmed(e, d, e);
}

proof fn lemma_digit_texts(n: nat)
    ensures
        crate::text::digits(n).len() > 0,
        forall|i: int|
            0 <= i < crate::text::digits(n).len() ==> '0' <= #[trigger] crate::text::digits(n)[i]
                <= '9',
    decreases n,
{
    if n >= 10 {
        lemma_digit_texts(n / 10);
        let s = crate::text::digits(n);
        let a = crate::text::digits(n / 10);
        assert forall|i: int| 0 <= i < s.len() implies '0' <= #[trigger] s[i] <= '9' by {
            if i < a.len() {
                assert(s[i] == a[i]);
            }
        }
    }
}

/// The families are reached apart from each other.
pub proof fn families_are_reached_apart(a: ConnectionInfo, b: ConnectionInfo, env: Environment)
    requires
        reaches(a, Backend::MySql, env),
        reaches(b, Backend::MariaDb, env),
    ensures
        a.port == 3307 && b.port == 3306,
        a.service_name@ == "query_tool_mysql8"@ && b.service_name@ == "query_tool_test"@,
        a.host@ == b.host@,
        a.username@ == b.username@,
{
}

/// A window that is there is acted on, whatever came before; one that is not is looked
/// for again up to the limit, and then no more. Looking for one that never comes ends,
/// after one look more than the limit.
pub proof fn a_window_is_looked_for_up_to_the_limit(attempts: int, limit: int)
    requires
        0 <= attempts <= limit < u32::MAX,
    ensures
        looked(true, attempts, limit) == Look::Act,
        attempts < limit ==> looked(false, attempts, limit) == Look::Again((attempts + 1) as u32),
        looked(false, limit, limit) == Look::Stop,
        tries(0, limit) == limit + 1,
{
    crate::screen::looking_ends(0, limit);
}

/// A modal that is there is driven, though an alert be there too; an alert in its place
/// is a refusal at once; and looking for either ends.
pub proof fn an_alert_in_place_of_the_modal_is_a_refusal(alert: bool, attempts: int)
    requires
        0 <= attempts,
    ensures
        modal_look(true, alert, attempts) == Look::Act,
        modal_look(false, true, attempts) == Look::Refused,
        attempts < 40 ==> modal_look(false, false, attempts) == Look::Again((attempts + 1) as u32),
        attempts >= 40 ==> modal_look(false, false, attempts) == Look::Stop,
{
}

/// An alert of the import modal is closed whenever it is there; without the modal nothing
/// is looked for any more. A modal that stayed open is closed only once it was driven.
pub proof fn an_import_modal_is_closed_once_driven(dialog: bool, attempts: int)
    requires
        0 <= attempts,
    ensures
        alert_look(true, dialog, attempts) == Look::Act,
        alert_look(false, false, attempts) == Look::Stop,
        attempts < 20 ==> alert_look(false, true, attempts) == Look::Again((attempts + 1) as u32),
        attempts >= 20 ==> alert_look(false, true, attempts) == Look::Stop,
        refusal_look(false, dialog, attempts) == Look::Stop,
        refusal_look(true, true, attempts) == Look::Act,
        attempts < 40 ==> refusal_look(true, false, attempts) == Look::Again((attempts + 1) as u32),
        attempts >= 40 ==> refusal_look(true, false, attempts) == Look::Stop,
{
}

/// A wait takes a round for every twenty milliseconds, and one at least.
pub proof fn a_wait_takes_a_round_at_least(milliseconds: int)
    requires
        0 <= milliseconds,
    ensures
        rounds(milliseconds) >= 1,
        milliseconds >= 20 ==> 20 * rounds(milliseconds) <= milliseconds < 20 * (rounds(
            milliseconds,
        ) + 1),
        milliseconds < 20 ==> rounds(milliseconds) == 1,
{
}

/// Of the two scopes the wanted one is set and the other is not; the export goes to the
/// clipboard and not to a file; every other button is left alone.
pub proof fn one_scope_and_the_clipboard_are_set(label: Seq<char>, scope: ExportScope)
    ensures
        radio("All rows"@, scope) == Some(scope == ExportScope::All),
        radio("Selected rows"@, scope) == Some(scope == ExportScope::Selection),
        radio("Clipboard"@, scope) == Some(true),
        radio("File"@, scope) == Some(false),
        label != "All rows"@ && label != "Selected rows"@ && label != "Clipboard"@ && label
            != "File"@ ==> radio(label, scope) is None,
{
    reveal_strlit("All rows");
    reveal_strlit("Selected rows");
    reveal_strlit("Clipboard");
    reveal_strlit("File");
    assert("All rows"@.len() != "Selected rows"@.len());
    assert("Clipboard"@.len() != "All rows"@.len());
    assert("Clipboard"@.len() != "Selected rows"@.len());
    assert("File"@.len() != "All rows"@.len());
    assert("File"@.len() != "Selected rows"@.len());
    assert("File"@.len() != "Clipboard"@.len());
}

/// A selection covers the corner of what the whole covers, to the letter, and less.
pub proof fn a_selection_is_a_corner_of_the_whole(i: int, j: int)
    ensures
        covered(ExportScope::All).len() == export_dialog::ROWS@.len(),
        covered(ExportScope::Selection).len() < covered(ExportScope::All).len(),
        covered(ExportScope::Selection).len() == 2,
        0 <= i < export_dialog::ROWS@.len() ==> covered(ExportScope::All)[i].len()
            == export_dialog::COLUMNS@.len(),
        0 <= i < export_dialog::ROWS@.len() && 0 <= j < export_dialog::COLUMNS@.len() ==> covered(
            ExportScope::All,
        )[i][j] == export_dialog::ROWS@[i]@[j]@,
        0 <= i < 2 ==> covered(ExportScope::Selection)[i].len() == 3,
        0 <= i < 2 && 0 <= j < 3 ==> covered(ExportScope::Selection)[i][j] == covered(
            ExportScope::All,
        )[i][j],
{
}

/// An export brings what the clipboard holds only where it was not refused and its modal
/// was driven.
pub proof fn an_export_must_be_driven(refused: bool, driven: bool)
    ensures
        export_fault(refused, driven) is None <==> driven && !refused,
{
}

/// The drives of the import modal change one setting each: the first nothing.
pub proof fn each_drive_changes_one_setting(drive: int)
    ensures
        ({
            let p = planned(drive);
            &&& p.format is Some <==> drive == 1
            &&& p.header is Some <==> drive == 2
            &&& p.remap is Some <==> drive == 3
            &&& p.null_text is Some <==> drive == 4
            &&& p.cancel <==> drive == 5
            &&& p.opens_on_json <==> drive == 6
            &&& drive == 2 ==> p.header == Some(false)
        }),
{
}

/// The summary of a modal is its last label that counts rows or gives a reason; none
/// where there is no such label.
pub proof fn the_summary_is_the_last_that_sums_up(labels: Seq<Seq<char>>, i: int)
    ensures
        0 <= i < labels.len() && (contains(labels[i], "row(s)"@) || contains(labels[i], "The "@))
            && (forall|k: int| i < k < labels.len() ==> !sums_up(#[trigger] labels[k])) ==> summary(
            labels,
        ) == labels[i],
        (forall|k: int| 0 <= k < labels.len() ==> !sums_up(#[trigger] labels[k])) ==> summary(
            labels,
        ).len() == 0,
    decreases labels.len(),
{
    if labels.len() > 0 {
        let front = labels.drop_last();
        let n = labels.len() - 1;
        the_summary_is_the_last_that_sums_up(front, i);
        if 0 <= i < n && sums_up(labels[i]) && (forall|k: int|
            i < k < labels.len() ==> !sums_up(#[trigger] labels[k])) {
            assert(!sums_up(labels[n]));
            assert forall|k: int| i < k < front.len() implies !sums_up(#[trigger] front[k]) by {
                assert(front[k] == labels[k]);
            }
        }
        if forall|k: int| 0 <= k < labels.len() ==> !sums_up(#[trigger] labels[k]) {
            assert(!sums_up(labels[n]));
            assert forall|k: int| 0 <= k < front.len() implies !sums_up(#[trigger] front[k]) by {
                assert(front[k] == labels[k]);
            }
        }
    }
}

/// A count from the server is taken as it is; one below zero, or a text that spells none,
/// counts as none.
pub proof fn sessions_are_counted(n: int, before: Seq<char>, after: Seq<char>, text: Seq<char>)
    requires
        blank(before),
        blank(after),
        i64::MIN <= n <= i64::MAX,
    ensures
        n >= 0 ==> sessions(n) == n,
        n < 0 ==> sessions(n) == 0,
        sessions_told(before + decimal(n) + after) == sessions(n),
        integer_value(trim(text)) is None ==> sessions_told(text) == 0,
{
    numbers_are_read_back(n, before, after);
}

/// A count has come down where it is at the limit or below it, and is stable where two
/// readings agree; either way polling ends once time is up. A condition that holds is
/// seen though time be up.
pub proof fn polling_ends(observed: i64, other: i64, limit: i64)
    ensures
        observed <= limit ==> settled(observed, limit, false),
        observed > limit ==> !settled(observed, limit, false),
        settled(observed, limit, true),
        stable(observed, observed, false),
        observed != other ==> !stable(observed, other, false),
        stable(observed, other, true),
        waited(true, true) == Wait::Held,
        waited(true, false) == Wait::Held,
        waited(false, true) == Wait::TimedOut,
        waited(false, false) == Wait::Again,
{
}

/// What polling answers is the first reading that is at the limit or the one at which
/// time ran out, and none before it was either.
pub proof fn polling_answers_the_first_that_ends_it(
    readings: Seq<(i64, bool)>,
    limit: i64,
    i: int,
)
    ensures
        0 <= i < readings.len() && (readings[i].0 <= limit || readings[i].1) && (forall|k: int|
            0 <= k < i ==> (#[trigger] readings[k]).0 > limit && !readings[k].1) ==> polled(
            readings,
            limit,
        ) == Some(readings[i].0),
        (forall|k: int|
            0 <= k < readings.len() ==> (#[trigger] readings[k]).0 > limit && !readings[k].1)
            ==> polled(readings, limit) is None,
    decreases readings.len(),
{
    if readings.len() > 0 {
        let rest = readings.drop_first();
        polling_answers_the_first_that_ends_it(rest, limit, i - 1);
        if 0 < i < readings.len() && (readings[i].0 <= limit || readings[i].1) && (forall|k: int|
            0 <= k < i ==> (#[trigger] readings[k]).0 > limit && !readings[k].1) {
            assert(readings[0].0 > limit && !readings[0].1);
            assert(rest[i - 1] == readings[i]);
            assert forall|k: int| 0 <= k < i - 1 implies (#[trigger] rest[k]).0 > limit
                && !rest[k].1 by {
                assert(rest[k] == readings[k + 1]);
            }
        }
        if forall|k: int|
            0 <= k < readings.len() ==> (#[trigger] readings[k]).0 > limit && !readings[k].1 {
            assert(readings[0].0 > limit && !readings[0].1);
            assert forall|k: int| 0 <= k < rest.len() implies (#[trigger] rest[k]).0 > limit
                && !rest[k].1 by {
                assert(rest[k] == readings[k + 1]);
            }
        }
    }
}

/// A rebuild that is always busy is tried forty times in all, and then given up.
pub proof fn a_busy_rebuild_is_tried_forty_times(attempts: int)
    requires
        0 <= attempts <= 40,
    ensures
        rebuild_tries(attempts) == 40 - attempts,
        attempts < 40 ==> tried_again(attempts),
        !tried_again(40),
    decreases 40 - attempts,
{
    if attempts < 40 {
        a_busy_rebuild_is_tried_forty_times(attempts + 1);
    }
}

/// A user that was created, or that is there already, is granted what it needs; a root
/// container is asked once for a common name; any other error ends the probe.
pub proof fn a_user_is_there_or_is_asked_for_once(user: Seq<char>, common: bool, error: Seq<char>)
    ensures
        after_creating(user, common, None) == CreationModel::Grant(user),
        contains(lower(error), "ora-65096"@) ==> after_creating(user, false, Some(error))
            == CreationModel::Create("C##"@ + user),
        !(after_creating(user, true, Some(error)) is Create),
        contains(lower(error), "ora-01920"@) ==> after_creating(user, true, Some(error))
            == CreationModel::Grant(user),
        !contains(lower(error), "ora-01920"@) && !contains(lower(error), "ora-65096"@)
            ==> after_creating(user, common, Some(error)) == CreationModel::Refused(
            "create the Oracle probe user: "@ + error,
        ),
{
}

/// A quote in a text is doubled inside an SQL string, each one, and nothing else changes.
pub proof fn quotes_are_doubled(a: Seq<char>, b: Seq<char>)
    requires
        crate::text::lacks(a, '\''),
    ensures
        sql_string(a) == a,
        sql_string(a + seq!['\''] + b) == a + seq!['\'', '\''] + sql_string(b),
{
    reveal_strlit("'");
    reveal_strlit("''");
    let q = "'"@;
    assert(q =~= seq!['\'']);
    assert("''"@ =~= seq!['\'', '\'']);
    assert(!contains(a, q)) by {
        if contains(a, q) {
            let k = choose|k: int| #[trigger] stands_at(a, q, k);
            assert(a.subrange(k, k + 1)[0] == '\'');
            assert(a[k] == '\'');
        }
    }
    occurrences_are_found_from_the_left(a, q, "''"@, 0);
    let s = a + seq!['\''] + b;
    let n = a.len() as int;
    assert(s.subrange(n, n + 1) =~= q);
    assert(stands_at(s, q, n));
    assert forall|k: int| 0 <= k < n implies !#[trigger] stands_at(s, q, k) by {
        if stands_at(s, q, k) {
            assert(s.subrange(k, k + 1)[0] == '\'');
            assert(s[k] == a[k]);
        }
    }
    occurrences_are_found_from_the_left(s, q, "''"@, n);
    assert(s.take(n) =~= a);
    assert(s.skip(n + q.len()) =~= b);
}

/// A target passed where it has no failure, and its line says which it has where it does.
pub proof fn a_target_passes_without_failures(label: Seq<char>, failures: Seq<Seq<char>>)
    ensures
        failures.len() == 0 ==> closing(label, failures) == "== "@ + label + " PASSED =="@,
        failures.len() > 0 ==> closing(label, failures) == "== "@ + label + " FAILED: "@
            + crate::seen::bracketed(crate::template::debug_all(failures)) + " =="@,
{
}

/// The rows at some places are those there are, in the order of the places.
pub proof fn rows_are_chosen_in_order(
    rows: Seq<Vec<String>>,
    a: Seq<usize>,
    b: Seq<usize>,
    pick: usize,
)
    ensures
        chosen(rows, a + b) == chosen(rows, a) + chosen(rows, b),
        pick < rows.len() ==> chosen(rows, seq![pick]) == seq![views(rows[pick as int]@)],
        pick >= rows.len() ==> chosen(rows, seq![pick]).len() == 0,
    decreases b.len(),
{
    if b.len() == 0 {
        assert(a + b =~= a);
        assert(chosen(rows, a) + chosen(rows, b) =~= chosen(rows, a));
    } else {
        rows_are_chosen_in_order(rows, a, b.drop_last(), pick);
        assert((a + b).drop_last() =~= a + b.drop_last());
        assert((a + b).last() == b.last());
        assert(chosen(rows, a + b) =~= chosen(rows, a) + chosen(rows, b));
    }
    let one = seq![pick];
    assert(one.drop_last() =~= Seq::<usize>::empty());
    assert(chosen(rows, one.drop_last()) =~= Seq::<Seq<Seq<char>>>::empty());
    if pick < rows.len() {
        assert(chosen(rows, one) =~= seq![views(rows[pick as int]@)]);
    }
}

/// A statement selects the columns it names, each at its place, or all where it names
/// none; inserts, updates and conditions are made of both rows, but for the key of one.
pub proof fn a_statement_selects_what_it_names(which: int, columns: Seq<String>, i: int)
    requires
        columns.len() <= usize::MAX,
    ensures
        wanted_names(0).len() == 0,
        wanted_names(1) == seq!["NAME"@],
        wanted_names(2) == seq!["PART"@],
        wanted_names(3) == seq!["PART"@, "SEQ"@],
        wanted_names(4) == seq!["NAME"@],
        wanted_rows(which) == (if which == 3 { seq![0usize] } else { seq![0usize, 1usize] }),
        0 <= i < columns.len() ==> wanted_columns(0, columns) is Some && (wanted_columns(
            0,
            columns,
        )->0)[i] == i && (wanted_columns(0, columns)->0).len() == columns.len(),
        0 <= i < wanted_names(which).len() && wanted_columns(which, columns) is Some ==> position(
            columns,
            wanted_names(which)[i],
        ) == Some((wanted_columns(which, columns)->0)[i] as int),
        0 <= i < wanted_names(which).len() && position(columns, wanted_names(which)[i]) is None
            ==> wanted_columns(which, columns) is None,
{
    if 0 <= i < wanted_names(which).len() && wanted_columns(which, columns) is Some {
        crate::grid::position_is_first(columns, wanted_names(which)[i]);
        assert(position(columns, wanted_names(which)[i]) is Some);
    }
}

/// A table read whole has the table's own columns, in their order, and rows as wide;
/// anything more, such as a row locator, is a fault.
pub proof fn a_read_has_the_tables_own_columns(
    label: Seq<char>,
    columns: Seq<Seq<char>>,
    rows: Seq<Vec<String>>,
)
    ensures
        check_fault(label, columns, rows) is None <==> {
            &&& columns.len() == 2
            &&& columns[0] == "ID"@
            &&& columns[1] == "NAME"@
            &&& forall|i: int| 0 <= i < rows.len() ==> (#[trigger] rows[i])@.len() == 2
        },
{
    let wanted = crate::text::texts(crate::object_export_live::EXPECTED@);
    assert(wanted =~= seq!["ID"@, "NAME"@]);
    if columns.len() == 2 && columns[0] == "ID"@ && columns[1] == "NAME"@ {
        assert(columns =~= wanted);
    }
}

/// A statement that drops is best effort, whatever its case and the blanks before it; any
/// other must work.
pub proof fn drops_are_told_by_their_word(sql: Seq<char>)
    ensures
        drops(sql) <==> exists|rest: Seq<char>|
            upper(trim_start(sql)) == #[trigger] ("DROP"@ + rest),
{
    a_text_stands_between_two(upper(trim_start(sql)), "DROP"@);
}

/// The levels offered are all that are supported but the default, in their order.
pub proof fn levels_are_offered_in_order(
    a: Seq<TransactionIsolation>,
    b: Seq<TransactionIsolation>,
    level: TransactionIsolation,
)
    ensures
        offered(a + b) == offered(a) + offered(b),
        level == TransactionIsolation::Default ==> offered(seq![level]).len() == 0,
        level != TransactionIsolation::Default ==> offered(seq![level]) == seq![level],
    decreases b.len(),
{
    if b.len() == 0 {
        assert(a + b =~= a);
        assert(offered(a) + offered(b) =~= offered(a));
    } else {
        levels_are_offered_in_order(a, b.drop_last(), level);
        assert((a + b).drop_last() =~= a + b.drop_last());
        assert((a + b).last() == b.last());
        assert(offered(a + b) =~= offered(a) + offered(b));
    }
    let one = seq![level];
    assert(one.drop_last() =~= Seq::<TransactionIsolation>::empty());
    assert(offered(one.drop_last()) =~= Seq::<TransactionIsolation>::empty());
    assert(one.last() == level);
    if level != TransactionIsolation::Default {
        assert(offered(one) =~= seq![level]);
    }
}

/// The numbers of the modes: each level twice, read-write and then read-only.
pub proof fn modes_are_numbered_in_pairs(code: int)
    requires
        0 <= code < 10,
    ensures
        mode_code(code).isolation == isolation_code(code),
        mode_code(code).access == TransactionAccessMode::ReadOnly <==> code % 2 == 1,
        isolation_code(code) == isolation_code(code - code % 2),
        level_code(isolation_code(code)) == code - code % 2,
        isolation_code(0) == TransactionIsolation::Default,
        isolation_code(2) == TransactionIsolation::ReadUncommitted,
        isolation_code(4) == TransactionIsolation::ReadCommitted,
        isolation_code(6) == TransactionIsolation::RepeatableRead,
        isolation_code(8) == TransactionIsolation::Serializable,
{
}

/// A tab without a scope runs in the user's own schema on Oracle, and elsewhere in the
/// database that the connection names.
pub proof fn a_tab_without_a_scope_runs_at_home(info: ConnectionInfo)
    ensures
        base_scope_spec(transaction_mode::Target::OracleThin, info) == unicode_uppercase(
            info.username@,
        ),
        base_scope_spec(transaction_mode::Target::OracleOci, info) == unicode_uppercase(
            info.username@,
        ),
        base_scope_spec(transaction_mode::Target::MySql, info) == info.service_name@,
        base_scope_spec(transaction_mode::Target::MariaDb, info) == info.service_name@,
{
}

/// A failure is charged to its target, and the last lines tell every failure, each on its
/// own line, in their order.
pub proof fn every_failure_is_told(
    passed: Seq<char>,
    heading: Seq<char>,
    bullet: Seq<char>,
    failures: Seq<Seq<char>>,
    i: int,
    label: Seq<char>,
)
    requires
        0 <= i < failures.len(),
    ensures
        charged(label, failures[i]) == label + ": "@ + failures[i],
        ending(passed, heading, bullet, failures)[0] == heading,
        ending(passed, heading, bullet, failures)[i + 1] == bullet + failures[i],
{
}

/// A lookup is a definition where the catalog described the routine, and a refusal where
/// it refused; a refusal that was wanted names what went wrong where it did not come.
pub proof fn a_lookup_is_a_definition_or_a_refusal(
    lookup: RoutineDefinitionLookup,
    what: Seq<char>,
    error: String,
)
    ensures
        lookup matches RoutineDefinitionLookup::Defined(d) ==> as_definition(lookup) == Ok::<
            crate::routine::RoutineDefinition,
            Seq<char>,
        >(d) && as_refusal(Ok(lookup), what) == Err::<Seq<char>, Seq<char>>(
            what + ": answered with a definition of "@ + decimal(d.arguments@.len() as int)
                + " argument rows instead of refusing"@,
        ),
        lookup matches RoutineDefinitionLookup::Unreadable(why) ==> as_refusal(Ok(lookup), what)
            == Ok::<Seq<char>, Seq<char>>(why@) && as_definition(lookup) == Err::<
            crate::routine::RoutineDefinition,
            Seq<char>,
        >(why@),
        as_refusal(Err(error), what) is Err,
{
}

/// What the modes of the input probe ask for.
pub proof fn a_mode_asks_for_its_workaround(
    mode: Seq<char>,
    last: Seq<char>,
    source: Seq<char>,
    how: Workaround,
)
    ensures
        workaround_for("--cycle"@) == Some(Workaround::Cycle),
        workaround_for("--refocus"@) == Some(Workaround::Refocus),
        mode != "--cycle"@ && mode != "--refocus"@ ==> workaround_for(mode) is None,
        source != last ==> on_source(last, source, how) == Some(how),
        source == last ==> on_source(last, source, how) is None,
{
    reveal_strlit("--cycle");
    reveal_strlit("--refocus");
    assert("--cycle"@.len() != "--refocus"@.len());
}

/// A key that moved the tree or the selection arrived; one that moved neither did not. A
/// run is skipped only where nothing is trusted and nothing arrived, and passes only where
/// nothing failed.
pub proof fn a_run_is_skipped_only_where_nothing_arrived(
    trial: Trial,
    trusted: bool,
    reached: bool,
    failed: Seq<Seq<char>>,
)
    ensures
        trial.before != trial.after ==> trial.leaked() && trial.arrived(),
        trial.before == trial.after ==> !trial.leaked(),
        trial.selection_before != trial.selection_after ==> trial.arrived(),
        trial.before == trial.after && trial.selection_before == trial.selection_after
            ==> !trial.arrived(),
        verdict_of(trusted, reached, failed) == Verdict::Skipped <==> !trusted && !reached,
        trusted || reached ==> (verdict_of(trusted, reached, failed) == Verdict::Passed
            <==> failed.len() == 0),
{
}

/// A number below ten is written with a zero before it.
pub proof fn small_numbers_take_two_digits(n: int)
    requires
        0 <= n < 100,
    ensures
        n < 10 ==> two_digits(n) == "0"@ + decimal(n),
        n >= 10 ==> two_digits(n) == decimal(n),
{
}

/// The tables that an import loads: a headerless file of two values; the same value in
/// every column; a hundred times its place in each; a cell that would start a statement
/// of its own; a value with a backslash in it; and numbered rows, of words or of
/// documents.
pub proof fn data_sets_hold_their_values(
    columns: Seq<TableColumnDetail>,
    value: Seq<char>,
    i: int,
    count: int,
)
    ensures
        headerless_model().rows == seq![seq![Some("100"@), Some("300"@)]],
        headerless_model().columns == seq!["COLUMN_1"@, "COLUMN_2"@],
        one_a_model().rows == seq![seq![Some("1"@)]],
        one_b_model(value).rows == seq![seq![Some(value)]],
        sevens_model(columns, value).rows.len() == 1,
        sevens_model(columns, value).columns.len() == columns.len(),
        0 <= i < columns.len() ==> sevens_model(columns, value).rows[0][i] == Some(value)
            && sevens_model(columns, value).columns[i] == columns[i].name@,
        0 <= i < count ==> hundreds_model(count).rows[0][i] == Some(decimal(100 * (i + 1)))
            && hundreds_model(count).columns[i] == "COLUMN_"@ + decimal(i + 1)
            && hundreds_model(count).rows.len() == 1,
        backslash_model(value).rows == seq![seq![Some(value), Some("a\\b"@)]],
        0 <= i < count ==> numbered_model(count).rows[i] == seq![
            Some(decimal(i + 1)),
            Some("row "@ + decimal(i + 1)),
        ] && numbered_model(count).rows.len() == count,
        0 <= i < count ==> documents_model(count).rows[i][0] == Some(decimal(i))
            && documents_model(count).rows[i].len() == 2 && documents_model(count).rows.len()
            == count,
        0 <= i < count ==> (documents_model(count).rows[i][1] matches Some(text) && text.len()
            == 200_000 + HOSTILE_TAIL@.len() && text.skip(200_000) == HOSTILE_TAIL@),
        injection_model(value).rows.len() == 1 && injection_model(value).rows[0][0] == Some("1"@),
        injection_model(value).rows[0][1] matches Some(text) && contains(
            text,
            "DROP TABLE "@ + value,
        ),
{
    if 0 <= i < count {
        let text = documents_model(count).rows[i][1]->0;
        assert(text.skip(200_000) =~= HOSTILE_TAIL@);
        assert(hundreds_model(count).rows[0][i] == Some(decimal((i + 1) * 100)));
    }
    let cell = injection_model(value).rows[0][1]->0;
    reveal_strlit("41')) SELECT * FROM DUAL; DROP TABLE ");
    reveal_strlit("DROP TABLE ");
    let head = "41')) SELECT * FROM DUAL; DROP TABLE "@;
    let n = head.len() - 11;
    assert(head.skip(n) =~= "DROP TABLE "@);
    let needle = "DROP TABLE "@ + value;
    assert(cell.subrange(n, n + needle.len()) =~= needle);
    assert(stands_at(cell, needle, n));
}

} // verus!
