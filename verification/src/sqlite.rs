//! The calls into `rusqlite` that the library makes, each behind a trusted
//! item. What a query returns depends on what the database file holds, which
//! no contract here can name: the wrappers that read state promise nothing of
//! the values they hand back beyond their types, and the verified code above
//! them states what holds for every outcome.
use rusqlite::Error as DbError;
use rusqlite::Savepoint as SqlSavepoint;
use rusqlite::Transaction as SqlTransaction;
use rusqlite::{CachedStatement, Connection, Row, Rows};
use crate::model::ArgView;
use std::path::Path;
use vstd::prelude::*;

verus! {

#[verifier::external_type_specification]
#[verifier::external_body]
pub struct ExConnection(Connection);

#[verifier::external_type_specification]
#[verifier::external_body]
pub struct ExSqliteError(DbError);

#[verifier::external_type_specification]
#[verifier::external_body]
pub struct ExCachedStatement<'conn>(CachedStatement<'conn>);

#[verifier::external_type_specification]
#[verifier::external_body]
pub struct ExRows<'stmt>(Rows<'stmt>);

#[verifier::external_type_specification]
#[verifier::external_body]
pub struct ExRow<'stmt>(Row<'stmt>);

#[verifier::external_type_specification]
#[verifier::external_body]
pub struct ExTransaction<'conn>(SqlTransaction<'conn>);

#[verifier::external_type_specification]
#[verifier::external_body]
pub struct ExSavepoint<'conn>(SqlSavepoint<'conn>);

/// A value bound to a positional SQL parameter.
pub enum SqlArg {
    Null,
    Integer(i64),
    Text(String),
}

impl View for SqlArg {
    type V = ArgView;

    open spec fn view(&self) -> ArgView {
        match self {
            SqlArg::Null => ArgView::Null,
            SqlArg::Integer(i) => ArgView::Integer(*i),
            SqlArg::Text(s) => ArgView::Text(s@),
        }
    }
}

/// The views of a list of SQL parameters.
pub open spec fn args_view(args: Seq<SqlArg>) -> Seq<ArgView> {
    args.map_values(|a: SqlArg| a@)
}

/// `Connection::open`: opens (or creates) the database file at `path`.
/// Whether that succeeds depends on the file system; nothing is promised.
#[verifier::external_body]
pub fn open_connection<P: AsRef<Path>>(path: P) -> (res: Result<Connection, DbError>) {
    Connection::open(path)
}

/// `Connection::is_autocommit`: whether the connection is outside any
/// transaction or savepoint. That depends on the connection's state, so
/// nothing is promised of the answer.
#[verifier::external_body]
pub fn is_autocommit(conn: &Connection) -> (res: bool) {
    conn.is_autocommit()
}

/// `Connection::execute_batch`: runs the statements of `sql`. Whether they
/// succeed depends on the database, so nothing is promised.
#[verifier::external_body]
pub fn execute_batch(conn: &Connection, sql: &str) -> (res: Result<(), DbError>) {
    conn.execute_batch(sql)
}

/// `Connection::prepare_cached`: compiles one statement, or takes it from
/// the connection's statement cache. Nothing is promised.
#[verifier::external_body]
pub fn prepare<'c>(conn: &'c Connection, sql: &str) -> (res: Result<CachedStatement<'c>, DbError>) {
    conn.prepare_cached(sql)
}

/// `Statement::execute`: binds the positional parameters `args`, runs the
/// statement and hands back the number of changed rows. Nothing is promised.
#[verifier::external_body]
pub fn execute_prepared(stmt: &mut CachedStatement<'_>, args: &[SqlArg]) -> (res: Result<usize, DbError>) {
    stmt.execute(rusqlite::params_from_iter(args.iter().map(|a| match a {
        SqlArg::Null => rusqlite::types::Value::Null,
        SqlArg::Integer(i) => rusqlite::types::Value::Integer(*i),
        SqlArg::Text(s) => rusqlite::types::Value::Text(s.clone()),
    })))
}

/// `Statement::query`: binds the positional parameters `args` and starts the
/// query. Nothing is promised.
#[verifier::external_body]
pub fn query<'s, 'c>(stmt: &'s mut CachedStatement<'c>, args: &[SqlArg]) -> (res: Result<
    Rows<'s>,
    DbError,
>) {
    stmt.query(rusqlite::params_from_iter(args.iter().map(|a| match a {
        SqlArg::Null => rusqlite::types::Value::Null,
        SqlArg::Integer(i) => rusqlite::types::Value::Integer(*i),
        SqlArg::Text(s) => rusqlite::types::Value::Text(s.clone()),
    })))
}

/// `Rows::next`: the next row of a query, or `None` once all rows were
/// handed out. Which rows come depends on the database; nothing is promised.
#[verifier::external_body]
pub fn next_row<'a, 's>(rows: &'a mut Rows<'s>) -> (res: Result<Option<&'a Row<'s>>, DbError>) {
    rows.next()
}

/// `Row::get`: column `idx` of the row, read as `T` (for `Option<T>`,
/// `None` for SQL `NULL`). The value comes from the database; nothing is
/// promised.
#[verifier::external_body]
pub fn get_column<T: rusqlite::types::FromSql>(row: &Row<'_>, idx: usize) -> (res: Result<T, DbError>) {
    row.get::<usize, T>(idx)
}

/// `Transaction::new_unchecked` with `TransactionBehavior::Immediate`: runs
/// `BEGIN IMMEDIATE` on `conn`. Whether the lock is had depends on other
/// connections; nothing is promised.
#[verifier::external_body]
pub fn begin_immediate(conn: &Connection) -> (res: Result<SqlTransaction<'_>, DbError>) {
    SqlTransaction::new_unchecked(conn, rusqlite::TransactionBehavior::Immediate)
}

/// `Transaction::commit`. Nothing is promised.
#[verifier::external_body]
pub fn commit(tx: SqlTransaction<'_>) -> (res: Result<(), DbError>) {
    tx.commit()
}

/// `Transaction::rollback`. Nothing is promised.
#[verifier::external_body]
pub fn rollback(tx: SqlTransaction<'_>) -> (res: Result<(), DbError>) {
    tx.rollback()
}

/// `Transaction`'s `Deref` to the connection it runs on.
#[verifier::external_body]
pub fn transaction_connection<'a>(tx: &'a SqlTransaction<'_>) -> (res: &'a Connection) {
    tx
}

/// `Transaction::savepoint`: runs `SAVEPOINT` inside the transaction.
/// Nothing is promised.
#[verifier::external_body]
pub fn transaction_savepoint<'a>(tx: &'a mut SqlTransaction<'_>) -> (res: Result<SqlSavepoint<'a>, DbError>) {
    tx.savepoint()
}

/// `Savepoint::commit`: runs `RELEASE` for the savepoint. Nothing is
/// promised.
#[verifier::external_body]
pub fn savepoint_commit(sp: SqlSavepoint<'_>) -> (res: Result<(), DbError>) {
    sp.commit()
}

/// `Savepoint::finish` with the savepoint's default drop behavior, which
/// rolls the savepoint back and then releases it. Nothing is promised.
#[verifier::external_body]
pub fn savepoint_finish(sp: SqlSavepoint<'_>) -> (res: Result<(), DbError>) {
    sp.finish()
}

} // verus!

