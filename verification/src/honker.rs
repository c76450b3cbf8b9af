//! The first, self-contained lease surface: every mutation opens and commits
//! its own `BEGIN IMMEDIATE` transaction, the ttl is checked before any
//! transaction is opened, and bootstrap only creates the table.
use crate::engine;
use crate::model::{
    claim_outcome, expiry_spec, inspect_outcome, release_outcome, renew_outcome, ClaimView, Fault,
    RenewView,
};
use crate::sqlite;
use rusqlite::Connection;
use vstd::prelude::*;

pub use crate::engine::{ClaimResult, LeaseInfo, ReleaseResult, RenewResult};

verus! {

pub const BOUNCER_SCHEMA_VERSION: &'static str = "1";

pub type Result<T> = core::result::Result<T, Error>;

#[derive(Debug)]
pub enum Error {
    Sqlite(rusqlite::Error),
    InvalidTtlMs(i64),
    TtlOverflow { now_ms: i64, ttl_ms: i64 },
    TokenOverflow(String),
    InvalidLeaseRow(String),
}

impl View for Error {
    type V = Fault;

    open spec fn view(&self) -> Fault {
        match self {
            Error::Sqlite(_) => Fault::Sqlite,
            Error::InvalidTtlMs(t) => Fault::InvalidTtlMs(*t),
            Error::TtlOverflow { now_ms, ttl_ms } => Fault::TtlOverflow {
                now_ms: *now_ms,
                ttl_ms: *ttl_ms,
            },
            Error::TokenOverflow(n) => Fault::TokenOverflow(n@),
            Error::InvalidLeaseRow(n) => Fault::InvalidLeaseRow(n@),
        }
    }
}

pub open spec fn result_view<T: View>(r: Result<T>) -> core::result::Result<T::V, Fault> {
    match r {
        Ok(v) => Ok(v@),
        Err(e) => Err(e@),
    }
}

/// The same failure, for the failures that this surface can meet.
fn from_engine(e: engine::Error) -> (res: Error)
    requires
        !(e is NotInTransaction),
        !(e is SchemaMismatch),
    ensures
        res@ == e@,
{
    match e {
        engine::Error::Sqlite(s) => Error::Sqlite(s),
        engine::Error::InvalidTtlMs(t) => Error::InvalidTtlMs(t),
        engine::Error::TtlOverflow { now_ms, ttl_ms } => Error::TtlOverflow { now_ms, ttl_ms },
        engine::Error::TokenOverflow(n) => Error::TokenOverflow(n),
        engine::Error::InvalidLeaseRow(n) => Error::InvalidLeaseRow(n),
        engine::Error::NotInTransaction => Error::InvalidTtlMs(0),
        engine::Error::SchemaMismatch { .. } => Error::InvalidTtlMs(0),
    }
}

/// Install the lease table on `conn` if it is not there yet. Idempotent.
pub fn bootstrap_bouncer_schema(conn: &Connection) -> (res: Result<()>)
    ensures
        res matches Err(e) ==> e@ == Fault::Sqlite,
        res is Ok ==> exists|sql: &str, done: core::result::Result<(), rusqlite::Error>|
            done is Ok && sql@ == engine::create_table_sql_spec() && #[trigger] call_ensures(
                sqlite::execute_batch,
                (conn, sql),
                done,
            ),
{
    let create = engine::create_table_statement();
    let sql = create.as_str();
    let done = sqlite::execute_batch(conn, sql);
    match done {
        Ok(()) => Ok(()),
        Err(e) => Err(Error::Sqlite(e)),
    }
}

/// Return the live lease for `name` at `now_ms`, if one exists.
pub fn inspect(conn: &Connection, name: &str, now_ms: i64) -> (res: Result<Option<LeaseInfo>>)
    ensures
        exists|r: engine::Result<Option<LeaseInfo>>|
            #[trigger] call_ensures(engine::inspect, (conn, name, now_ms), r) && match r {
                Ok(o) => res == Ok::<Option<LeaseInfo>, Error>(o),
                Err(e) => res is Err && res->Err_0@ == e@,
            },
        inspect_outcome(
            match res {
                Ok(o) => Ok(engine::lease_opt_view(o)),
                Err(e) => Err(e@),
            },
            now_ms,
        ),
{
    match engine::inspect(conn, name, now_ms) {
        Ok(o) => Ok(o),
        Err(e) => Err(from_engine(e)),
    }
}

/// Attempt to claim a named resource for `owner`. The ttl is checked before
/// a transaction is opened.
pub fn claim(conn: &Connection, name: &str, owner: &str, now_ms: i64, ttl_ms: i64) -> (res: Result<ClaimResult>)
    ensures
        res matches Err(Error::Sqlite(_)) || (result_view(res) is Err && result_view(res)->Err_0 is InvalidTtlMs)
            || (result_view(res) is Err && result_view(res)->Err_0 is TtlOverflow) || exists|began: core::result::Result<rusqlite::Transaction<'_>, rusqlite::Error>, c: &Connection, r: engine::Result<ClaimResult>|
            began is Ok && #[trigger] call_ensures(sqlite::begin_immediate, (conn,), began)
                && call_ensures(sqlite::transaction_connection, (&began->Ok_0,), c)
                && #[trigger] call_ensures(engine::claim_core, (c, name, owner, now_ms, ttl_ms), r) && result_view(res) == engine::result_view(r),
        claim_outcome(result_view(res), name@, owner@, now_ms, ttl_ms),
        expiry_spec(now_ms, ttl_ms) is Err ==> result_view(res) == Err::<ClaimView, Fault>(
            expiry_spec(now_ms, ttl_ms)->Err_0,
        ),
{
    match engine::checked_expiry(now_ms, ttl_ms) {
        Ok(_) => {},
        Err(e) => {
            return Err(from_engine(e));
        },
    }
    let began = sqlite::begin_immediate(conn);
    let tx = match began {
        Ok(tx) => tx,
        Err(e) => {
            return Err(Error::Sqlite(e));
        },
    };
    let c = sqlite::transaction_connection(&tx);
    let decided = engine::claim_core(c, name, owner, now_ms, ttl_ms);
    let result = match decided {
        Ok(r) => r,
        Err(e) => {
            return Err(from_engine(e));
        },
    };
    match sqlite::commit(tx) {
        Ok(()) => {
            assert(call_ensures(engine::claim_core, (c, name, owner, now_ms, ttl_ms), decided));
            Ok(result)
        },
        Err(e) => Err(Error::Sqlite(e)),
    }
}

/// Renew a currently-live lease owned by `owner`. The ttl is checked before
/// a transaction is opened.
pub fn renew(conn: &Connection, name: &str, owner: &str, now_ms: i64, ttl_ms: i64) -> (res: Result<RenewResult>)
    ensures
        res matches Err(Error::Sqlite(_)) || (result_view(res) is Err && result_view(res)->Err_0 is InvalidTtlMs)
            || (result_view(res) is Err && result_view(res)->Err_0 is TtlOverflow) || exists|began: core::result::Result<rusqlite::Transaction<'_>, rusqlite::Error>, c: &Connection, r: engine::Result<RenewResult>|
            began is Ok && #[trigger] call_ensures(sqlite::begin_immediate, (conn,), began)
                && call_ensures(sqlite::transaction_connection, (&began->Ok_0,), c)
                && #[trigger] call_ensures(engine::renew_core, (c, name, owner, now_ms, ttl_ms), r) && result_view(res) == engine::result_view(r),
        renew_outcome(result_view(res), owner@, now_ms, ttl_ms),
        expiry_spec(now_ms, ttl_ms) is Err ==> result_view(res) == Err::<RenewView, Fault>(
            expiry_spec(now_ms, ttl_ms)->Err_0,
        ),
{
    match engine::checked_expiry(now_ms, ttl_ms) {
        Ok(_) => {},
        Err(e) => {
            return Err(from_engine(e));
        },
    }
    let began = sqlite::begin_immediate(conn);
    let tx = match began {
        Ok(tx) => tx,
        Err(e) => {
            return Err(Error::Sqlite(e));
        },
    };
    let c = sqlite::transaction_connection(&tx);
    let decided = engine::renew_core(c, name, owner, now_ms, ttl_ms);
    let result = match decided {
        Ok(r) => r,
        Err(e) => {
            return Err(from_engine(e));
        },
    };
    match sqlite::commit(tx) {
        Ok(()) => {
            assert(call_ensures(engine::renew_core, (c, name, owner, now_ms, ttl_ms), decided));
            Ok(result)
        },
        Err(e) => Err(Error::Sqlite(e)),
    }
}

/// Release a currently-live lease owned by `owner`.
pub fn release(conn: &Connection, name: &str, owner: &str, now_ms: i64) -> (res: Result<ReleaseResult>)
    ensures
        res matches Err(Error::Sqlite(_)) || (result_view(res) is Err && result_view(res)->Err_0 is InvalidTtlMs)
            || (result_view(res) is Err && result_view(res)->Err_0 is TtlOverflow) || exists|began: core::result::Result<rusqlite::Transaction<'_>, rusqlite::Error>, c: &Connection, r: engine::Result<ReleaseResult>|
            began is Ok && #[trigger] call_ensures(sqlite::begin_immediate, (conn,), began)
                && call_ensures(sqlite::transaction_connection, (&began->Ok_0,), c)
                && #[trigger] call_ensures(engine::release_core, (c, name, owner, now_ms), r) && result_view(res) == engine::result_view(r),
        release_outcome(result_view(res), owner@, now_ms),
{
    let began = sqlite::begin_immediate(conn);
    let tx = match began {
        Ok(tx) => tx,
        Err(e) => {
            return Err(Error::Sqlite(e));
        },
    };
    let c = sqlite::transaction_connection(&tx);
    let decided = engine::release_core(c, name, owner, now_ms);
    let result = match decided {
        Ok(r) => r,
        Err(e) => {
            return Err(from_engine(e));
        },
    };
    match sqlite::commit(tx) {
        Ok(()) => {
            assert(call_ensures(engine::release_core, (c, name, owner, now_ms), decided));
            Ok(result)
        },
        Err(e) => Err(Error::Sqlite(e)),
    }
}

} // verus!
