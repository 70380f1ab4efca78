//! The text of the store's schema upkeep: adding missing columns, copying
//! rows from a legacy database file, and reporting a failed rollback.
use vstd::prelude::*;

use crate::error::AiaStoreError;
use crate::text::{owned, push_char, push_text, text_eq};

verus! {

/// Whether `column` is among the existing column names.
pub fn column_exists(existing: &Vec<String>, column: &str) -> (r: bool)
    ensures
        r == exists|i: int| 0 <= i < existing@.len() && (#[trigger] existing@[i])@ == column@,
{
    let mut i: usize = 0;
    while i < existing.len()
        invariant
            i <= existing@.len(),
            forall|j: int| 0 <= j < i ==> (#[trigger] existing@[j])@ != column@,
        decreases existing@.len() - i,
    {
        if text_eq(existing[i].as_str(), column) {
            assert(existing@[i as int]@ == column@);
            return true;
        }
        i = i + 1;
    }
    false
}

/// The statement that lists the columns of `table`.
pub fn table_info_sql(table: &str) -> (r: String)
    ensures
        r@ == "PRAGMA table_info("@ + table@ + ")"@,
{
    let mut s = owned("PRAGMA table_info(");
    push_text(&mut s, table);
    push_text(&mut s, ")");
    s
}

/// The statement that adds `column` with `definition` to `table`.
pub fn add_column_sql(table: &str, column: &str, definition: &str) -> (r: String)
    ensures
        r@ == "ALTER TABLE "@ + table@ + " ADD COLUMN "@ + column@ + " "@ + definition@,
{
    let mut s = owned("ALTER TABLE ");
    push_text(&mut s, table);
    push_text(&mut s, " ADD COLUMN ");
    push_text(&mut s, column);
    push_text(&mut s, " ");
    push_text(&mut s, definition);
    s
}

/// `s` with every single quote doubled, as an SQL string literal needs.
pub open spec fn sql_quoted(s: Seq<char>) -> Seq<char>
    decreases s.len(),
{
    if s.len() == 0 {
        Seq::empty()
    } else {
        sql_quoted(s.drop_last()) + if s.last() == '\'' {
            seq!['\'', '\'']
        } else {
            seq![s.last()]
        }
    }
}

/// Doubles the single quotes of a text so it can stand in an SQL string literal.
pub fn escape_sql_literal(s: &str) -> (r: String)
    ensures
        r@ == sql_quoted(s@),
{
    let mut out = String::new();
    for c in it: s.chars()
        invariant
            it.seq() == s@,
            out@ == sql_quoted(s@.take(it.index() as int)),
    {
        assert(s@.take(it.index() + 1).drop_last() =~= s@.take(it.index() as int));
        if c == '\'' {
            push_char(&mut out, '\'');
            push_char(&mut out, '\'');
        } else {
            push_char(&mut out, c);
        }
        assert(out@ =~= sql_quoted(s@.take(it.index() + 1)));
    }
    assert(s@.take(s@.len() as int) =~= s@);
    out
}

/// The script that attaches the legacy database file at `path` and copies
/// the rows of `table_name` it lacks.
pub fn legacy_migration_sql(path: &str, table_name: &str) -> (r: String)
    ensures
        r@ == "ATTACH DATABASE '"@ + sql_quoted(path@) + "' AS legacy;\n                 INSERT OR IGNORE INTO "@
            + table_name@ + " SELECT * FROM legacy."@ + table_name@
            + ";\n                 DETACH DATABASE legacy;"@,
{
    let mut s = owned("ATTACH DATABASE '");
    let quoted = escape_sql_literal(path);
    push_text(&mut s, quoted.as_str());
    push_text(&mut s, "' AS legacy;\n                 INSERT OR IGNORE INTO ");
    push_text(&mut s, table_name);
    push_text(&mut s, " SELECT * FROM legacy.");
    push_text(&mut s, table_name);
    push_text(&mut s, ";\n                 DETACH DATABASE legacy;");
    s
}

/// The error of a transaction whose rollback failed too.
pub fn rollback_failure(error: &str, rollback_error: &str) -> (r: AiaStoreError)
    ensures
        r@ == "transaction failed: "@ + error@ + "; rollback failed: "@ + rollback_error@,
{
    let mut s = owned("transaction failed: ");
    push_text(&mut s, error);
    push_text(&mut s, "; rollback failed: ");
    push_text(&mut s, rollback_error);
    AiaStoreError::new(s)
}

} // verus!
