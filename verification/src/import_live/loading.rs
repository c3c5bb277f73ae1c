//! How a table is loaded: into which columns, matched how, written in which
//! dialect, and with how many rows to a statement.
use vstd::prelude::*;
use vstd::string::*;

use crate::import_data::{
    backslash_model, documents_model, numbered_model, one_a_model, one_b_model,
};
use crate::import_live::{
    BACKSLASH_BY_CONNECTION, BACKSLASH_BY_FAMILY, BATCH_ROWS, DOCUMENTS, HEADERLESS, HUNDREDS,
    INJECTION, NUMBERED, ONE_A, ONE_B, PARSED, SEVENS,
};
use crate::progress::SqlValueKind;

verus! {

/// The modes of a session in which a backslash is a character like any other.
pub const PLAIN_BACKSLASHES: &'static str = "TRADITIONAL,NO_BACKSLASH_ESCAPES";

/// A column to load into.
#[derive(Clone, Copy, Debug)]
pub struct TargetColumn {
    pub name: &'static str,
    pub kind: SqlValueKind,
    pub nullable: bool,
}

/// The dialect that a script is written in.
#[derive(Clone, Copy, Debug)]
pub enum ScriptDialect {
    /// That of the connection, as it is.
    Connection,
    /// That of the database's family, whatever the connection says.
    Family,
    /// That of the connection, had it these SQL modes.
    Modes(&'static str),
}

/// How a table is loaded.
#[derive(Debug)]
pub struct Loading {
    /// The columns; where there are none, those that the catalog offers.
    pub columns: Option<Vec<TargetColumn>>,
    /// Whether the values are matched by place and not by name.
    pub positional: bool,
    pub dialect: ScriptDialect,
    pub batch_rows: usize,
}

/// The columns that a data set names itself, as (name, kind, nullable).
pub open spec fn own_columns(which: usize) -> Option<Seq<(Seq<char>, SqlValueKind, bool)>> {
    if which == HEADERLESS || which == SEVENS || which == HUNDREDS || which == INJECTION {
        None
    } else if which == ONE_A {
        Some(seq![("A"@, SqlValueKind::Number, true)])
    } else if which == ONE_B {
        Some(seq![("B"@, SqlValueKind::Unknown, true)])
    } else {
        Some(
            seq![
                ("SEQ"@, SqlValueKind::Number, which != DOCUMENTS),
                ("V"@, SqlValueKind::String, true),
            ],
        )
    }
}

pub open spec fn shapes(columns: Seq<TargetColumn>) -> Seq<(Seq<char>, SqlValueKind, bool)> {
    columns.map_values(|c: TargetColumn| (c.name@, c.kind, c.nullable))
}

/// How a data set is loaded, where the object browser puts so many rows in a
/// statement; none for a number that stands for no data set.
pub fn loading(which: usize, browser_rows: usize) -> (r: Option<Loading>)
    ensures
        r is Some <==> which <= BACKSLASH_BY_CONNECTION,
        r matches Some(l) ==> {
            &&& l.columns is Some <==> own_columns(which) is Some
            &&& l.columns matches Some(list) ==> shapes(list@) == own_columns(which)->0
            &&& l.positional <==> (which == HEADERLESS || which == HUNDREDS)
            &&& l.batch_rows == (if which == DOCUMENTS { browser_rows } else { BATCH_ROWS })
            &&& l.dialect == (if which == BACKSLASH_BY_FAMILY {
                ScriptDialect::Family
            } else if which == BACKSLASH_BY_CONNECTION {
                ScriptDialect::Modes(PLAIN_BACKSLASHES)
            } else {
                ScriptDialect::Connection
            })
        },
{
    if which > BACKSLASH_BY_CONNECTION {
        return None;
    }
    let columns = if which == HEADERLESS || which == SEVENS || which == HUNDREDS || which
        == INJECTION {
        None
    } else {
        let list: Vec<TargetColumn> = if which == ONE_A {
            vec![TargetColumn { name: "A", kind: SqlValueKind::Number, nullable: true }]
        } else if which == ONE_B {
            vec![TargetColumn { name: "B", kind: SqlValueKind::Unknown, nullable: true }]
        } else {
            vec![
                TargetColumn {
                    name: "SEQ",
                    kind: SqlValueKind::Number,
                    nullable: which != DOCUMENTS,
                },
                TargetColumn { name: "V", kind: SqlValueKind::String, nullable: true },
            ]
        };
        assert(shapes(list@) =~= own_columns(which)->0);
        Some(list)
    };
    let dialect = if which == BACKSLASH_BY_FAMILY {
        ScriptDialect::Family
    } else if which == BACKSLASH_BY_CONNECTION {
        ScriptDialect::Modes(PLAIN_BACKSLASHES)
    } else {
        ScriptDialect::Connection
    };
    Some(
        Loading {
            columns,
            positional: which == HEADERLESS || which == HUNDREDS,
            dialect,
            batch_rows: if which == DOCUMENTS { browser_rows } else { BATCH_ROWS },
        },
    )
}

/// The columns of a data set that names its own, in the table that is loaded.
pub open spec fn columns_of_the_data(
    which: usize,
    text: Seq<char>,
    batch_rows: int,
) -> Seq<Seq<char>> {
    if which == ONE_A {
        one_a_model().columns
    } else if which == ONE_B {
        one_b_model(text).columns
    } else if which == DOCUMENTS {
        documents_model(batch_rows).columns
    } else if which == NUMBERED {
        numbered_model(5).columns
    } else if which == BACKSLASH_BY_FAMILY {
        backslash_model("1"@).columns
    } else {
        backslash_model("2"@).columns
    }
}

/// Where a data set names the columns to load into, they are the columns of its
/// table, in the same order: matching by name leaves none out.
pub proof fn own_columns_are_those_of_the_data(which: usize, text: Seq<char>, batch_rows: int)
    requires
        which <= BACKSLASH_BY_CONNECTION,
        which != PARSED,
        own_columns(which) is Some,
    ensures
        (own_columns(which)->0).map_values(|c: (Seq<char>, SqlValueKind, bool)| c.0)
            == columns_of_the_data(which, text, batch_rows),
{
    assert((own_columns(which)->0).map_values(|c: (Seq<char>, SqlValueKind, bool)| c.0)
        =~= columns_of_the_data(which, text, batch_rows));
}

} // verus!
