//! The trusted rim around the SQLite store. Each function here wraps one
//! statement on the `students` table; its contract states, over `table_of`,
//! what SQLite does to the table. Nothing else in the crate is trusted.
//!
//! The contracts speak of a connection that is the only route to its
//! database while it is held: the gateway owns the storage location for
//! the process lifetime, as the design gives it, so the table changes
//! only through these statements.

use vstd::prelude::*;

use rusqlite::OptionalExtension;

use crate::row::{Row, RowV};

verus! {

#[verifier::external_type_specification]
#[verifier::external_body]
pub struct ExConnection(rusqlite::Connection);

#[verifier::external_type_specification]
#[verifier::external_body]
pub struct ExSqlError(rusqlite::Error);

/// The contents of the `students` table reached through a connection, keyed
/// by the `id` column. A column value that does not coerce to its field's
/// type reads as absent, so every stored row denotes exactly one entry.
pub uninterp spec fn table_of(conn: rusqlite::Connection) -> Map<i64, RowV>;

/// Relies on rusqlite's `Connection::open`: opens (creating it if missing)
/// the SQLite database at `path`, and fails when it cannot. A SQLite table
/// holds finitely many rows.
#[verifier::external_body]
pub(crate) fn open_connection(path: &str) -> (r: Result<rusqlite::Connection, rusqlite::Error>)
    ensures
        r matches Ok(conn) ==> table_of(conn).dom().finite(),
{
    rusqlite::Connection::open(path)
}

/// Relies on `Connection::execute` with CREATE TABLE IF NOT EXISTS: makes
/// the `students` table when it is absent and leaves stored rows alone.
#[verifier::external_body]
pub(crate) fn ensure_table(conn: &mut rusqlite::Connection) -> (r: Result<(), rusqlite::Error>)
    ensures
        table_of(*final(conn)) == table_of(*old(conn)),
{
    let sql = "CREATE TABLE IF NOT EXISTS students (
        id INTEGER PRIMARY KEY AUTOINCREMENT,
        name TEXT, birth_date TEXT, cr INTEGER, status TEXT)";
    conn.execute(sql, []).map(|_| ())
}

/// Relies on `Connection::execute` (INSERT) and `Connection::last_insert_rowid`:
/// SQLite appends one row under a fresh AUTOINCREMENT key, at least 1 and
/// never one the table has held, and `last_insert_rowid` returns that key; a
/// failed statement changes nothing.
#[verifier::external_body]
pub(crate) fn insert_row(conn: &mut rusqlite::Connection, row: &Row) -> (r: Result<
    i64,
    rusqlite::Error,
>)
    ensures
        r matches Ok(id) ==> 1 <= id && !table_of(*old(conn)).contains_key(id) && table_of(
            *final(conn),
        ) == table_of(*old(conn)).insert(id, row@),
        r is Err ==> table_of(*final(conn)) == table_of(*old(conn)),
{
    conn.execute(
        "INSERT INTO students (name, birth_date, cr, status) VALUES (?1, ?2, ?3, ?4)",
        &[
            &row.name as &dyn rusqlite::types::ToSql,
            &row.birth_date as &dyn rusqlite::types::ToSql,
            &row.cr_bits as &dyn rusqlite::types::ToSql,
            &row.status as &dyn rusqlite::types::ToSql,
        ],
    )?;
    Ok(conn.last_insert_rowid())
}

/// Relies on `Connection::query_row` (SELECT by key) and
/// `OptionalExtension::optional`: returns the row stored under the key, or
/// nothing when no row has it; a column that does not coerce reads as absent.
#[verifier::external_body]
pub(crate) fn select_one(conn: &rusqlite::Connection, id: i64) -> (r: Result<
    Option<Row>,
    rusqlite::Error,
>)
    ensures
        r matches Ok(Some(row)) ==> table_of(*conn).contains_key(id) && row@ == table_of(*conn)[id],
        r matches Ok(None) ==> !table_of(*conn).contains_key(id),
{
    conn.query_row(
        "SELECT name, birth_date, cr, status FROM students WHERE id = ?1",
        &[&id as &dyn rusqlite::types::ToSql],
        |row| Ok(Row {
            name: row.get(0).unwrap_or(None),
            birth_date: row.get(1).unwrap_or(None),
            cr_bits: row.get(2).unwrap_or(None),
            status: row.get(3).unwrap_or(None),
        }),
    ).optional()
}

/// Relies on `Statement::query_map` over SELECT without WHERE: yields every
/// row of the table, each exactly once, keyed by `id`; a column that does
/// not coerce reads as absent.
#[verifier::external_body]
pub(crate) fn select_all_rows(conn: &rusqlite::Connection) -> (r: Result<
    Vec<(i64, Row)>,
    rusqlite::Error,
>)
    ensures
        r matches Ok(v) ==> {
            &&& forall|i: int|
                0 <= i < v@.len() ==> table_of(*conn).contains_key((#[trigger] v@[i]).0) && v@[i].1@
                    == table_of(*conn)[v@[i].0]
            &&& forall|i: int, j: int| 0 <= i < j < v@.len() ==> v@[i].0 != v@[j].0
            &&& forall|k: i64|
                table_of(*conn).contains_key(k) ==> exists|i: int|
                    0 <= i < v@.len() && (#[trigger] v@[i]).0 == k
        },
{
    let mut stmt = conn.prepare("SELECT id, name, birth_date, cr, status FROM students")?;
    let rows = stmt.query_map([], |row| Ok((
        row.get(0)?,
        Row {
            name: row.get(1).unwrap_or(None),
            birth_date: row.get(2).unwrap_or(None),
            cr_bits: row.get(3).unwrap_or(None),
            status: row.get(4).unwrap_or(None),
        },
    )))?;
    rows.collect()
}

/// Relies on `Connection::execute` (UPDATE by key): rewrites the row stored
/// under the key when there is one, else touches nothing; returns how many
/// rows changed, and the key is unique, so 1 or 0. A failed statement
/// changes nothing.
#[verifier::external_body]
pub(crate) fn update_row(conn: &mut rusqlite::Connection, id: i64, row: &Row) -> (r: Result<
    usize,
    rusqlite::Error,
>)
    ensures
        r matches Ok(n) ==> (if table_of(*old(conn)).contains_key(id) {
            n == 1 && table_of(*final(conn)) == table_of(*old(conn)).insert(id, row@)
        } else {
            n == 0 && table_of(*final(conn)) == table_of(*old(conn))
        }),
        r is Err ==> table_of(*final(conn)) == table_of(*old(conn)),
{
    conn.execute(
        "UPDATE students SET name = ?1, birth_date = ?2, cr = ?3, status = ?4 WHERE id = ?5",
        &[
            &row.name as &dyn rusqlite::types::ToSql,
            &row.birth_date as &dyn rusqlite::types::ToSql,
            &row.cr_bits as &dyn rusqlite::types::ToSql,
            &row.status as &dyn rusqlite::types::ToSql,
            &id as &dyn rusqlite::types::ToSql,
        ],
    )
}

/// Relies on `Connection::execute` (DELETE by key): removes the row stored
/// under the key if any, returning how many rows went. A failed statement
/// changes nothing.
#[verifier::external_body]
pub(crate) fn delete_row(conn: &mut rusqlite::Connection, id: i64) -> (r: Result<
    usize,
    rusqlite::Error,
>)
    ensures
        r matches Ok(n) ==> table_of(*final(conn)) == table_of(*old(conn)).remove(id) && n == (
        if table_of(*old(conn)).contains_key(id) {
            1int
        } else {
            0int
        }),
        r is Err ==> table_of(*final(conn)) == table_of(*old(conn)),
{
    conn.execute(
        "DELETE FROM students WHERE id = ?1",
        &[&id as &dyn rusqlite::types::ToSql],
    )
}

} // verus!
