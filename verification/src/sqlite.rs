//! The calls into SQLite and into the calendar. Nothing in this file is
//! proved: each function hands its arguments to an outside library, and its
//! contract, where it has one, is taken on trust.
//!
//! A text that SQLite hands out with bytes that are not UTF-8 fails the
//! query that reads it. A real number or a blob is read as `Other`; no
//! value of that kind is handed to SQLite.

use vstd::prelude::*;

verus! {

/// An open database.
#[verifier::external_type_specification]
#[verifier::external_body]
pub struct ExConnection(rusqlite::Connection);

/// A failure reported by SQLite or by the binding to it.
#[verifier::external_type_specification]
#[verifier::external_body]
pub struct ExSqliteError(rusqlite::Error);

/// A failure reported while the schema was brought up to date.
#[verifier::external_type_specification]
#[verifier::external_body]
pub struct ExMigrationError(rusqlite_migration::Error);

/// A transaction that is rolled back when it is dropped without a commit.
#[verifier::external_type_specification]
#[verifier::external_body]
pub struct ExTransaction<'conn>(rusqlite::Transaction<'conn>);

/// A value as SQLite takes it for a parameter.
#[verifier::external_type_specification]
#[verifier::external_body]
pub struct ExValue(rusqlite::types::Value);

/// The lock of the standard library. A store keeps its connection behind
/// one, so that the store may be handed from thread to thread and shared;
/// the store itself is used by one caller at a time.
#[verifier::external_type_specification]
#[verifier::external_body]
#[verifier::reject_recursive_types(T)]
pub struct ExMutex<T: ?Sized>(std::sync::Mutex<T>);

/// A value of a column or of a parameter, as far as the catalogue uses it.
#[derive(Debug)]
pub enum SqlValue {
    Null,
    Integer(i64),
    Text(String),
    /// A real number or a blob; the catalogue stores neither, and binds
    /// neither to a statement.
    Other,
}

/// Calls `Connection::open`, which opens the database file at `path` and
/// creates it when it is missing.
#[verifier::external_body]
pub(crate) fn open(path: &str) -> (r: Result<rusqlite::Connection, rusqlite::Error>) {
    rusqlite::Connection::open(path)
}

/// Calls `Mutex::new`.
#[verifier::external_body]
pub(crate) fn guarded(conn: rusqlite::Connection) -> (lock: std::sync::Mutex<rusqlite::Connection>) {
    std::sync::Mutex::new(conn)
}

/// Calls `Mutex::get_mut`, which needs no locking because the caller holds
/// the lock exclusively; a lock that a dying thread has poisoned gives its
/// connection all the same.
#[verifier::external_body]
pub(crate) fn exclusive(lock: &mut std::sync::Mutex<rusqlite::Connection>) -> (conn:
    &mut rusqlite::Connection) {
    match lock.get_mut() {
        Ok(conn) => conn,
        Err(poisoned) => poisoned.into_inner(),
    }
}

/// Calls `Migrations::to_latest` on the scripts, each taken as one upward
/// migration, in their order.
#[verifier::external_body]
pub(crate) fn migrate(conn: &mut rusqlite::Connection, scripts: &Vec<&str>) -> (r: Result<
    (),
    rusqlite_migration::Error,
>) {
    let steps = scripts.iter().map(|s| rusqlite_migration::M::up(s)).collect();
    rusqlite_migration::Migrations::new(steps).to_latest(conn)
}

/// Calls `Connection::pragma_update` on the main schema.
#[verifier::external_body]
pub(crate) fn pragma_update(conn: &rusqlite::Connection, name: &str, value: &str) -> (r: Result<
    (),
    rusqlite::Error,
>) {
    conn.pragma_update(None, name, value)
}

/// Calls `Connection::transaction`.
#[verifier::external_body]
pub(crate) fn begin<'a>(conn: &'a mut rusqlite::Connection) -> (r: Result<
    rusqlite::Transaction<'a>,
    rusqlite::Error,
>) {
    conn.transaction()
}

/// Calls `Transaction::commit`.
#[verifier::external_body]
pub(crate) fn commit(tx: rusqlite::Transaction<'_>) -> (r: Result<(), rusqlite::Error>) {
    tx.commit()
}

/// The connection that a transaction runs on, by `Deref`.
#[verifier::external_body]
pub(crate) fn connection_of<'a>(tx: &'a rusqlite::Transaction<'_>) -> (conn:
    &'a rusqlite::Connection) {
    tx
}

/// Makes `Value::Null`, the SQLite value for nothing.
#[verifier::external_body]
pub(crate) fn null_value() -> (out: rusqlite::types::Value) {
    rusqlite::types::Value::Null
}

/// Makes `Value::Integer`, the SQLite value for a number.
#[verifier::external_body]
pub(crate) fn integer_value(i: i64) -> (out: rusqlite::types::Value) {
    rusqlite::types::Value::Integer(i)
}

/// Makes `Value::Text`, the SQLite value for a text.
#[verifier::external_body]
pub(crate) fn text_value(s: &str) -> (out: rusqlite::types::Value) {
    rusqlite::types::Value::Text(s.to_owned())
}

/// Calls `Connection::execute`, which runs one statement with the
/// parameters bound by position and returns the number of rows it changed.
#[verifier::external_body]
pub(crate) fn execute(
    conn: &rusqlite::Connection,
    sql: &str,
    params: &Vec<rusqlite::types::Value>,
) -> (r: Result<usize, rusqlite::Error>) {
    conn.execute(sql, rusqlite::params_from_iter(params.iter()))
}

/// Calls `Statement::insert` on the prepared statement: it fails unless
/// exactly one row was inserted, and returns that row's id.
#[verifier::external_body]
pub(crate) fn insert(
    conn: &rusqlite::Connection,
    sql: &str,
    params: &Vec<rusqlite::types::Value>,
) -> (r: Result<i64, rusqlite::Error>) {
    conn.prepare(sql)?.insert(rusqlite::params_from_iter(params.iter()))
}

/// Calls `Statement::query_map` on the prepared statement and collects the
/// rows, each as the values of its columns from left to right. The kind of
/// a value is that of `ValueRef::data_type`; a number and a text are read
/// with `Row::get`, which fails for a text that is not UTF-8.
#[verifier::external_body]
pub(crate) fn query(
    conn: &rusqlite::Connection,
    sql: &str,
    params: &Vec<rusqlite::types::Value>,
) -> (r: Result<Vec<Vec<SqlValue>>, rusqlite::Error>) {
    let mut stmt = conn.prepare(sql)?;
    let width = stmt.column_count();
    let rows = stmt.query_map(rusqlite::params_from_iter(params.iter()), |row| {
        (0..width).map(|i| Ok(match row.get_ref(i)?.data_type() {
            rusqlite::types::Type::Null => SqlValue::Null,
            rusqlite::types::Type::Integer => SqlValue::Integer(row.get(i)?),
            rusqlite::types::Type::Text => SqlValue::Text(row.get(i)?),
            rusqlite::types::Type::Real => SqlValue::Other,
            rusqlite::types::Type::Blob => SqlValue::Other,
        })).collect()
    })?;
    rows.collect()
}

/// The message of a SQLite failure, by its `Display`.
#[verifier::external_body]
pub(crate) fn sqlite_error_text(e: &rusqlite::Error) -> (text: String) {
    e.to_string()
}

/// The message of a migration failure, by its `Display`.
#[verifier::external_body]
pub(crate) fn migration_error_text(e: &rusqlite_migration::Error) -> (text: String) {
    e.to_string()
}

/// The first second of the calendar, counted from the epoch: midnight of
/// the first of January of the year -262143.
pub const FIRST_TIMESTAMP: i64 = -8_334_601_228_800;

/// The last second of the calendar, counted from the epoch: the end of the
/// last of December of the year 262142.
pub const LAST_TIMESTAMP: i64 = 8_210_266_876_799;

/// Whether the calendar has a point in time so many seconds from the epoch.
pub open spec fn timestamp_exists(secs: i64) -> bool {
    FIRST_TIMESTAMP <= secs <= LAST_TIMESTAMP
}

/// Calls `TimeZone::timestamp_opt` of `Utc` with no nanoseconds, which gives
/// a single point in time unless the number of seconds is out of the range
/// of the calendar. The calendar of chrono runs from the year -262143 to the
/// year 262142, both in full; the contract claims that range in seconds.
#[verifier::external_body]
pub(crate) fn timestamp_in_range(secs: i64) -> (ok: bool)
    ensures
        ok == timestamp_exists(secs),
{
    matches!(
        chrono::TimeZone::timestamp_opt(&chrono::Utc, secs, 0),
        chrono::LocalResult::Single(_)
    )
}

} // verus!
