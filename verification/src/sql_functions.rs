//! What the `bouncer_*` SQL scalar functions compute once their arguments are
//! read: the mutators run in the connection's current mode (their own
//! `BEGIN IMMEDIATE` in autocommit mode, the caller's transaction otherwise)
//! and answer a plain SQL value. Registering the functions on a connection
//! is done by the application layer.
use crate::engine::{self, ClaimResult, ReleaseResult, RenewResult};
use crate::model::{
    claim_outcome, release_outcome, renew_outcome, ClaimView, Fault, ReleaseView, RenewView,
};
use rusqlite::Connection;
use vstd::prelude::*;

verus! {

/// The SQL value of a claim answer: the fencing token when acquired, `NULL`
/// when busy.
pub open spec fn claim_value(c: core::result::Result<ClaimView, Fault>) -> core::result::Result<
    Option<i64>,
    Fault,
> {
    match c {
        Ok(ClaimView::Acquired(lease)) => Ok(Some(lease.token)),
        Ok(ClaimView::Busy(_)) => Ok(None),
        Err(f) => Err(f),
    }
}

/// The SQL value of a renewal answer: the fencing token when renewed, `NULL`
/// when rejected.
pub open spec fn renew_value(r: core::result::Result<RenewView, Fault>) -> core::result::Result<
    Option<i64>,
    Fault,
> {
    match r {
        Ok(RenewView::Renewed(lease)) => Ok(Some(lease.token)),
        Ok(RenewView::Rejected(_)) => Ok(None),
        Err(f) => Err(f),
    }
}

/// The SQL value of a release answer: 1 when released, 0 when rejected.
pub open spec fn release_value(r: core::result::Result<ReleaseView, Fault>) -> core::result::Result<
    i64,
    Fault,
> {
    match r {
        Ok(ReleaseView::Released { .. }) => Ok(1),
        Ok(ReleaseView::Rejected(_)) => Ok(0),
        Err(f) => Err(f),
    }
}

pub open spec fn value_view<T>(r: engine::Result<T>) -> core::result::Result<T, Fault> {
    match r {
        Ok(v) => Ok(v),
        Err(e) => Err(e@),
    }
}

/// The SQL value of `result`, for `bouncer_claim`.
pub fn claim_sql_value(result: &ClaimResult) -> (res: Option<i64>)
    ensures
        claim_value(Ok(result@)) == Ok::<Option<i64>, Fault>(res),
{
    match result {
        ClaimResult::Acquired(lease) => Some(lease.token),
        ClaimResult::Busy(_) => None,
    }
}

/// The SQL value of `result`, for `bouncer_renew`.
pub fn renew_sql_value(result: &RenewResult) -> (res: Option<i64>)
    ensures
        renew_value(Ok(result@)) == Ok::<Option<i64>, Fault>(res),
{
    match result {
        RenewResult::Renewed(lease) => Some(lease.token),
        RenewResult::Rejected { .. } => None,
    }
}

/// The SQL value of `result`, for `bouncer_release`.
pub fn release_sql_value(result: &ReleaseResult) -> (res: i64)
    ensures
        release_value(Ok(result@)) == Ok::<i64, Fault>(res),
{
    match result {
        ReleaseResult::Released { .. } => 1,
        ReleaseResult::Rejected { .. } => 0,
    }
}

/// `bouncer_claim(name, owner, ttl_ms, now_ms)`.
pub fn sql_claim(conn: &Connection, name: &str, owner: &str, ttl_ms: i64, now_ms: i64) -> (res:
    engine::Result<Option<i64>>)
    ensures
        exists|r: engine::Result<ClaimResult>|
            #[trigger] call_ensures(engine::claim_auto, (conn, name, owner, now_ms, ttl_ms), r) && claim_value(engine::result_view(r))
                == value_view(res),
        exists|c: core::result::Result<ClaimView, Fault>|
            #[trigger] claim_value(c) == value_view(res) && claim_outcome(c, name@, owner@, now_ms, ttl_ms),
{
    let result = engine::claim_auto(conn, name, owner, now_ms, ttl_ms);
    let ghost answer = engine::result_view(result);
    let res = match result {
        Ok(r) => Ok(claim_sql_value(&r)),
        Err(e) => Err(e),
    };
    assert(claim_value(answer) == value_view(res));
    res
}

/// `bouncer_renew(name, owner, ttl_ms, now_ms)`.
pub fn sql_renew(conn: &Connection, name: &str, owner: &str, ttl_ms: i64, now_ms: i64) -> (res:
    engine::Result<Option<i64>>)
    ensures
        exists|r: engine::Result<RenewResult>|
            #[trigger] call_ensures(engine::renew_auto, (conn, name, owner, now_ms, ttl_ms), r) && renew_value(engine::result_view(r))
                == value_view(res),
        exists|r: core::result::Result<RenewView, Fault>|
            #[trigger] renew_value(r) == value_view(res) && renew_outcome(r, owner@, now_ms, ttl_ms),
{
    let result = engine::renew_auto(conn, name, owner, now_ms, ttl_ms);
    let ghost answer = engine::result_view(result);
    let res = match result {
        Ok(r) => Ok(renew_sql_value(&r)),
        Err(e) => Err(e),
    };
    assert(renew_value(answer) == value_view(res));
    res
}

/// `bouncer_release(name, owner, now_ms)`.
pub fn sql_release(conn: &Connection, name: &str, owner: &str, now_ms: i64) -> (res: engine::Result<
    i64,
>)
    ensures
        exists|r: engine::Result<ReleaseResult>|
            #[trigger] call_ensures(engine::release_auto, (conn, name, owner, now_ms), r) && release_value(engine::result_view(r))
                == value_view(res),
        exists|r: core::result::Result<ReleaseView, Fault>|
            #[trigger] release_value(r) == value_view(res) && release_outcome(r, owner@, now_ms),
{
    let result = engine::release_auto(conn, name, owner, now_ms);
    let ghost answer = engine::result_view(result);
    let res = match result {
        Ok(r) => Ok(release_sql_value(&r)),
        Err(e) => Err(e),
    };
    assert(release_value(answer) == value_view(res));
    res
}

} // verus!
