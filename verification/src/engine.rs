//! Core lease state machine and SQLite operations.
//!
//! Use `claim`, `renew`, and `release` when this module should open and
//! commit its own `BEGIN IMMEDIATE` transaction for the mutation.
//! Use `claim_in_tx`, `renew_in_tx`, and `release_in_tx` when the caller
//! already owns the surrounding transaction or savepoint and wants the
//! mutation to join that existing atomic boundary.
//! The two surfaces share the same lease semantics; they differ only in who
//! owns transaction opening, commit, and lock-upgrade timing.
use crate::model::{
    carried_out, claim_answer, claim_outcome, claim_spec, expiry_spec, inspect_outcome,
    inspect_spec, owner_outcome, owner_spec, release_answer, release_outcome, release_spec,
    renew_answer, renew_outcome, renew_spec, row_is_valid, token_outcome, token_spec, ClaimView,
    Fault, LeaseView, ReleaseView, RenewView, RowView, WriteView, ArgView, load_spec,
    write_args_spec,
};
use crate::schema::{
    collapse_space, column_drift, columns_view, drift_reason, expected_name, expected_not_null,
    expected_pk, expected_type, first_column_drift, is_sql_space, lemma_collapse_append_single_spaced,
    lemma_collapse_prefix, occurs_in, pair_check_text, schema_drift, schema_drift_spec,
    single_spaced, text_eq, token_check_text, ColumnInfo, ColumnView,
};
use vstd::string::StringExecFns;
use crate::sqlite::{self, args_view, SqlArg};
use rusqlite::{CachedStatement, Connection, Row, Rows};
use vstd::prelude::*;

verus! {

pub const BOUNCER_SCHEMA_VERSION: &'static str = "1";

pub type Result<T> = core::result::Result<T, Error>;

#[derive(Debug)]
pub enum Error {
    Sqlite(rusqlite::Error),
    NotInTransaction,
    InvalidTtlMs(i64),
    TtlOverflow { now_ms: i64, ttl_ms: i64 },
    TokenOverflow(String),
    InvalidLeaseRow(String),
    SchemaMismatch { reason: String },
}

impl View for Error {
    type V = Fault;

    open spec fn view(&self) -> Fault {
        match self {
            Error::Sqlite(_) => Fault::Sqlite,
            Error::NotInTransaction => Fault::NotInTransaction,
            Error::InvalidTtlMs(t) => Fault::InvalidTtlMs(*t),
            Error::TtlOverflow { now_ms, ttl_ms } => Fault::TtlOverflow {
                now_ms: *now_ms,
                ttl_ms: *ttl_ms,
            },
            Error::TokenOverflow(n) => Fault::TokenOverflow(n@),
            Error::InvalidLeaseRow(n) => Fault::InvalidLeaseRow(n@),
            Error::SchemaMismatch { reason } => Fault::SchemaMismatch(reason@),
        }
    }
}

#[derive(Debug, Clone, PartialEq, Eq)]
pub struct LeaseInfo {
    pub name: String,
    pub owner: String,
    pub token: i64,
    pub lease_expires_at_ms: i64,
}

impl View for LeaseInfo {
    type V = LeaseView;

    open spec fn view(&self) -> LeaseView {
        LeaseView {
            name: self.name@,
            owner: self.owner@,
            token: self.token,
            lease_expires_at_ms: self.lease_expires_at_ms,
        }
    }
}

#[derive(Debug, Clone, PartialEq, Eq)]
pub enum ClaimResult {
    Acquired(LeaseInfo),
    Busy(LeaseInfo),
}

impl View for ClaimResult {
    type V = ClaimView;

    open spec fn view(&self) -> ClaimView {
        match self {
            ClaimResult::Acquired(l) => ClaimView::Acquired(l@),
            ClaimResult::Busy(l) => ClaimView::Busy(l@),
        }
    }
}

#[derive(Debug, Clone, PartialEq, Eq)]
pub enum RenewResult {
    Renewed(LeaseInfo),
    Rejected { current: Option<LeaseInfo> },
}

impl View for RenewResult {
    type V = RenewView;

    open spec fn view(&self) -> RenewView {
        match self {
            RenewResult::Renewed(l) => RenewView::Renewed(l@),
            RenewResult::Rejected { current } => RenewView::Rejected(lease_opt_view(*current)),
        }
    }
}

#[derive(Debug, Clone, PartialEq, Eq)]
pub enum ReleaseResult {
    Released { name: String, token: i64 },
    Rejected { current: Option<LeaseInfo> },
}

impl View for ReleaseResult {
    type V = ReleaseView;

    open spec fn view(&self) -> ReleaseView {
        match self {
            ReleaseResult::Released { name, token } => ReleaseView::Released {
                name: name@,
                token: *token,
            },
            ReleaseResult::Rejected { current } => ReleaseView::Rejected(lease_opt_view(*current)),
        }
    }
}

/// One row of `bouncer_resources`, as read.
#[derive(Debug, Clone, PartialEq, Eq)]
pub struct ResourceRow {
    pub name: String,
    pub owner: Option<String>,
    pub token: i64,
    pub lease_expires_at_ms: Option<i64>,
    pub created_at_ms: i64,
    pub updated_at_ms: i64,
}

impl View for ResourceRow {
    type V = RowView;

    open spec fn view(&self) -> RowView {
        RowView {
            name: self.name@,
            owner: match self.owner {
                Some(o) => Some(o@),
                None => None,
            },
            token: self.token,
            lease_expires_at_ms: self.lease_expires_at_ms,
            created_at_ms: self.created_at_ms,
            updated_at_ms: self.updated_at_ms,
        }
    }
}

/// The mutation that an operation persists.
#[derive(Debug, Clone, PartialEq, Eq)]
pub enum LeaseWrite {
    Insert { owner: String, token: i64, lease_expires_at_ms: i64 },
    Takeover { owner: String, token: i64, lease_expires_at_ms: i64 },
    Extend { lease_expires_at_ms: i64 },
    Clear,
}

impl View for LeaseWrite {
    type V = WriteView;

    open spec fn view(&self) -> WriteView {
        match self {
            LeaseWrite::Insert { owner, token, lease_expires_at_ms } => WriteView::Insert {
                owner: owner@,
                token: *token,
                lease_expires_at_ms: *lease_expires_at_ms,
            },
            LeaseWrite::Takeover { owner, token, lease_expires_at_ms } => WriteView::Takeover {
                owner: owner@,
                token: *token,
                lease_expires_at_ms: *lease_expires_at_ms,
            },
            LeaseWrite::Extend { lease_expires_at_ms } => WriteView::Extend {
                lease_expires_at_ms: *lease_expires_at_ms,
            },
            LeaseWrite::Clear => WriteView::Clear,
        }
    }
}

pub open spec fn lease_opt_view(o: Option<LeaseInfo>) -> Option<LeaseView> {
    match o {
        Some(l) => Some(l@),
        None => None,
    }
}

pub open spec fn row_opt_view(o: Option<ResourceRow>) -> Option<RowView> {
    match o {
        Some(r) => Some(r@),
        None => None,
    }
}

pub open spec fn write_opt_view(o: Option<LeaseWrite>) -> Option<WriteView> {
    match o {
        Some(w) => Some(w@),
        None => None,
    }
}

pub open spec fn result_view<T: View>(r: Result<T>) -> core::result::Result<T::V, Fault> {
    match r {
        Ok(v) => Ok(v@),
        Err(e) => Err(e@),
    }
}

pub open spec fn plan_view<T: View>(r: Result<(T, Option<LeaseWrite>)>) -> core::result::Result<
    (T::V, Option<WriteView>),
    Fault,
> {
    match r {
        Ok(p) => Ok((p.0@, write_opt_view(p.1))),
        Err(e) => Err(e@),
    }
}

pub open spec fn opt_lease_result_view(r: Result<Option<LeaseInfo>>) -> core::result::Result<
    Option<LeaseView>,
    Fault,
> {
    match r {
        Ok(v) => Ok(lease_opt_view(v)),
        Err(e) => Err(e@),
    }
}

impl ResourceRow {
    /// The live lease that this row holds at `now_ms`, after checking that
    /// the row is well formed.
    pub fn current_lease(&self, now_ms: i64) -> (res: Result<Option<LeaseInfo>>)
        ensures
            opt_lease_result_view(res) == inspect_spec(Some(self@), now_ms),
    {
        match self.validate() {
            Ok(()) => {},
            Err(e) => {
                return Err(e);
            },
        }
        match (&self.owner, self.lease_expires_at_ms) {
            (Some(owner), Some(lease_expires_at_ms)) => {
                if lease_expires_at_ms > now_ms {
                    Ok(
                        Some(
                            LeaseInfo {
                                name: self.name.clone(),
                                owner: owner.clone(),
                                token: self.token,
                                lease_expires_at_ms,
                            },
                        ),
                    )
                } else {
                    Ok(None)
                }
            },
            _ => Ok(None),
        }
    }

    /// Fails with `InvalidLeaseRow` unless owner and expiry are both set or
    /// both absent and the token is positive.
    pub fn validate(&self) -> (res: Result<()>)
        ensures
            res is Ok <==> row_is_valid(self@),
            res matches Err(e) ==> e@ == Fault::InvalidLeaseRow(self.name@),
    {
        let pair_is_valid = match (&self.owner, self.lease_expires_at_ms) {
            (Some(_), Some(_)) => true,
            (None, None) => true,
            _ => false,
        };
        if !pair_is_valid || self.token <= 0 {
            return Err(Error::InvalidLeaseRow(self.name.clone()));
        }
        Ok(())
    }
}

/// The expiry of a lease of `ttl_ms` taken at `now_ms`.
pub fn checked_expiry(now_ms: i64, ttl_ms: i64) -> (res: Result<i64>)
    ensures
        result_view(res) == expiry_spec(now_ms, ttl_ms),
{
    if ttl_ms <= 0 {
        return Err(Error::InvalidTtlMs(ttl_ms));
    }
    match now_ms.checked_add(ttl_ms) {
        Some(e) => Ok(e),
        None => Err(Error::TtlOverflow { now_ms, ttl_ms }),
    }
}

/// What reading `row` answers at `now_ms`.
pub fn inspect_row(row: Option<ResourceRow>, now_ms: i64) -> (res: Result<Option<LeaseInfo>>)
    ensures
        opt_lease_result_view(res) == inspect_spec(row_opt_view(row), now_ms),
{
    match row {
        None => Ok(None),
        Some(r) => r.current_lease(now_ms),
    }
}

/// The decision of a claim against `row`, the row of `name` as read: the
/// answer, and the write to persist.
pub fn claim_step(
    row: Option<ResourceRow>,
    name: &str,
    owner: &str,
    now_ms: i64,
    lease_expires_at_ms: i64,
) -> (res: Result<(ClaimResult, Option<LeaseWrite>)>)
    ensures
        plan_view(res) == claim_spec(row_opt_view(row), name@, owner@, now_ms, lease_expires_at_ms),
{
    match row {
        None => {
            let lease = LeaseInfo {
                name: name.to_owned(),
                owner: owner.to_owned(),
                token: 1,
                lease_expires_at_ms,
            };
            let write = LeaseWrite::Insert { owner: owner.to_owned(), token: 1, lease_expires_at_ms };
            Ok((ClaimResult::Acquired(lease), Some(write)))
        },
        Some(r) => {
            let current = match r.current_lease(now_ms) {
                Ok(c) => c,
                Err(e) => {
                    return Err(e);
                },
            };
            match current {
                Some(current) => Ok((ClaimResult::Busy(current), None)),
                None => {
                    let next_token = match r.token.checked_add(1) {
                        Some(t) => t,
                        None => {
                            return Err(Error::TokenOverflow(r.name.clone()));
                        },
                    };
                    let write = LeaseWrite::Takeover {
                        owner: owner.to_owned(),
                        token: next_token,
                        lease_expires_at_ms,
                    };
                    let lease = LeaseInfo {
                        name: r.name,
                        owner: owner.to_owned(),
                        token: next_token,
                        lease_expires_at_ms,
                    };
                    Ok((ClaimResult::Acquired(lease), Some(write)))
                },
            }
        },
    }
}

/// The decision of a renewal against `row`: only the live owner renews, and
/// the expiry becomes the later of the current one and `requested_expires_at_ms`.
pub fn renew_step(row: Option<ResourceRow>, owner: &str, now_ms: i64, requested_expires_at_ms: i64) -> (res:
    Result<(RenewResult, Option<LeaseWrite>)>)
    ensures
        plan_view(res) == renew_spec(row_opt_view(row), owner@, now_ms, requested_expires_at_ms),
{
    match row {
        None => Ok((RenewResult::Rejected { current: None }, None)),
        Some(r) => {
            let current = match r.current_lease(now_ms) {
                Ok(c) => c,
                Err(e) => {
                    return Err(e);
                },
            };
            match current {
                Some(current) => {
                    if text_eq(&current.owner, owner) {
                        let lease_expires_at_ms = if current.lease_expires_at_ms
                            >= requested_expires_at_ms {
                            current.lease_expires_at_ms
                        } else {
                            requested_expires_at_ms
                        };
                        let lease = LeaseInfo { lease_expires_at_ms, ..current };
                        Ok(
                            (
                                RenewResult::Renewed(lease),
                                Some(LeaseWrite::Extend { lease_expires_at_ms }),
                            ),
                        )
                    } else {
                        Ok((RenewResult::Rejected { current: Some(current) }, None))
                    }
                },
                None => Ok((RenewResult::Rejected { current: None }, None)),
            }
        },
    }
}

/// The decision of a release against `row`: only the live owner releases.
pub fn release_step(row: Option<ResourceRow>, owner: &str, now_ms: i64) -> (res: Result<
    (ReleaseResult, Option<LeaseWrite>),
>)
    ensures
        plan_view(res) == release_spec(row_opt_view(row), owner@, now_ms),
{
    match row {
        None => Ok((ReleaseResult::Rejected { current: None }, None)),
        Some(r) => {
            let current = match r.current_lease(now_ms) {
                Ok(c) => c,
                Err(e) => {
                    return Err(e);
                },
            };
            match current {
                Some(current) => {
                    if text_eq(&current.owner, owner) {
                        Ok(
                            (
                                ReleaseResult::Released { name: current.name, token: current.token },
                                Some(LeaseWrite::Clear),
                            ),
                        )
                    } else {
                        Ok((ReleaseResult::Rejected { current: Some(current) }, None))
                    }
                },
                None => Ok((ReleaseResult::Rejected { current: None }, None)),
            }
        },
    }
}

/// A row with the given name that is not well formed.
pub open spec fn malformed_row(name: Seq<char>) -> RowView {
    RowView {
        name,
        owner: None,
        token: 0,
        lease_expires_at_ms: None,
        created_at_ms: 0,
        updated_at_ms: 0,
    }
}

/// A malformed row named `row_name` is refused by every operation, with
/// that name.
pub proof fn lemma_malformed_row_refused(
    row_name: Seq<char>,
    name: Seq<char>,
    owner: Seq<char>,
    now_ms: i64,
    expires: i64,
)
    ensures
        ({
            let r = Some(malformed_row(row_name));
            let f = Fault::InvalidLeaseRow(row_name);
            &&& claim_answer(r, name, owner, now_ms, expires) == Err::<ClaimView, Fault>(f)
            &&& renew_answer(r, owner, now_ms, expires) == Err::<RenewView, Fault>(f)
            &&& release_answer(r, owner, now_ms) == Err::<ReleaseView, Fault>(f)
            &&& inspect_spec(r, now_ms) == Err::<Option<LeaseView>, Fault>(f)
            &&& owner_spec(r, now_ms) == Err::<Option<Seq<char>>, Fault>(f)
            &&& token_spec(r) == Err::<Option<i64>, Fault>(f)
            &&& load_spec(r) == Err::<Option<RowView>, Fault>(f)
        }),
{
}

pub open spec fn load_result_view(r: Result<Option<ResourceRow>>) -> core::result::Result<
    Option<RowView>,
    Fault,
> {
    match r {
        Ok(o) => Ok(row_opt_view(o)),
        Err(e) => Err(e@),
    }
}

/// What reading the row of a name answers, given `first`, the row the query
/// handed back (`None` when it handed back none): nothing, that row when it
/// is well formed, or `InvalidLeaseRow` with its name.
pub fn decide_loaded(first: Option<ResourceRow>) -> (res: Result<Option<ResourceRow>>)
    ensures
        load_result_view(res) == load_spec(row_opt_view(first)),
{
    match first {
        None => Ok(None),
        Some(r) => match r.validate() {
            Ok(()) => Ok(Some(r)),
            Err(e) => Err(e),
        },
    }
}

/// The statement that reads the row of a name.
pub open spec fn lookup_sql_spec() -> Seq<char> {
    "SELECT name, owner, token, lease_expires_at_ms, created_at_ms, updated_at_ms FROM bouncer_resources WHERE name = ?1"@
}

/// The statement and positional parameters that read the row of `name`.
pub fn lookup_statement(name: &str) -> (res: (&'static str, Vec<SqlArg>))
    ensures
        res.0@ == lookup_sql_spec(),
        args_view(res.1@) == seq![ArgView::Text(name@)],
{
    let mut args: Vec<SqlArg> = Vec::new();
    args.push(SqlArg::Text(name.to_owned()));
    assert(args_view(args@) =~= seq![ArgView::Text(name@)]);
    (
        "SELECT name, owner, token, lease_expires_at_ms, created_at_ms, updated_at_ms FROM bouncer_resources WHERE name = ?1",
        args,
    )
}

/// The statement that persists a write of the given kind.
pub open spec fn write_sql_spec(w: WriteView) -> Seq<char> {
    match w {
        WriteView::Insert { .. } => "INSERT INTO bouncer_resources (name, owner, token, lease_expires_at_ms, created_at_ms, updated_at_ms) VALUES (?1, ?2, ?3, ?4, ?5, ?6)"@,
        WriteView::Takeover { .. } => "UPDATE bouncer_resources SET owner = ?2, token = ?3, lease_expires_at_ms = ?4, updated_at_ms = ?5 WHERE name = ?1"@,
        WriteView::Extend { .. } => "UPDATE bouncer_resources SET lease_expires_at_ms = ?2, updated_at_ms = ?3 WHERE name = ?1"@,
        WriteView::Clear => "UPDATE bouncer_resources SET owner = NULL, lease_expires_at_ms = NULL, updated_at_ms = ?2 WHERE name = ?1"@,
    }
}

/// The statement and positional parameters that persist `write`, the
/// mutation of an operation on `name` at `now_ms`.
pub fn write_statement(name: &str, now_ms: i64, write: &LeaseWrite) -> (res: (&'static str, Vec<SqlArg>))
    ensures
        res.0@ == write_sql_spec(write@),
        args_view(res.1@) == write_args_spec(name@, now_ms, write@),
{
    let mut args: Vec<SqlArg> = Vec::new();
    args.push(SqlArg::Text(name.to_owned()));
    match write {
        LeaseWrite::Insert { owner, token, lease_expires_at_ms } => {
            args.push(SqlArg::Text(owner.clone()));
            args.push(SqlArg::Integer(*token));
            args.push(SqlArg::Integer(*lease_expires_at_ms));
            args.push(SqlArg::Integer(now_ms));
            args.push(SqlArg::Integer(now_ms));
            assert(args_view(args@) =~= write_args_spec(name@, now_ms, write@));
            (
                "INSERT INTO bouncer_resources (name, owner, token, lease_expires_at_ms, created_at_ms, updated_at_ms) VALUES (?1, ?2, ?3, ?4, ?5, ?6)",
                args,
            )
        },
        LeaseWrite::Takeover { owner, token, lease_expires_at_ms } => {
            args.push(SqlArg::Text(owner.clone()));
            args.push(SqlArg::Integer(*token));
            args.push(SqlArg::Integer(*lease_expires_at_ms));
            args.push(SqlArg::Integer(now_ms));
            assert(args_view(args@) =~= write_args_spec(name@, now_ms, write@));
            (
                "UPDATE bouncer_resources SET owner = ?2, token = ?3, lease_expires_at_ms = ?4, updated_at_ms = ?5 WHERE name = ?1",
                args,
            )
        },
        LeaseWrite::Extend { lease_expires_at_ms } => {
            args.push(SqlArg::Integer(*lease_expires_at_ms));
            args.push(SqlArg::Integer(now_ms));
            assert(args_view(args@) =~= write_args_spec(name@, now_ms, write@));
            (
                "UPDATE bouncer_resources SET lease_expires_at_ms = ?2, updated_at_ms = ?3 WHERE name = ?1",
                args,
            )
        },
        LeaseWrite::Clear => {
            args.push(SqlArg::Integer(now_ms));
            assert(args_view(args@) =~= write_args_spec(name@, now_ms, write@));
            (
                "UPDATE bouncer_resources SET owner = NULL, lease_expires_at_ms = NULL, updated_at_ms = ?2 WHERE name = ?1",
                args,
            )
        },
    }
}

/// The six columns of `row`, in the order the lookup selects them.
pub fn read_resource_row(row: &Row<'_>) -> (res: core::result::Result<ResourceRow, rusqlite::Error>)
    ensures
        res matches Ok(r) ==> call_ensures(sqlite::get_column::<String>, (row, 0usize), Ok::<String, rusqlite::Error>(r.name)),
        res matches Ok(r) ==> call_ensures(sqlite::get_column::<Option<String>>, (row, 1usize), Ok::<Option<String>, rusqlite::Error>(r.owner)),
        res matches Ok(r) ==> call_ensures(sqlite::get_column::<i64>, (row, 2usize), Ok::<i64, rusqlite::Error>(r.token)),
        res matches Ok(r) ==> call_ensures(sqlite::get_column::<Option<i64>>, (row, 3usize), Ok::<Option<i64>, rusqlite::Error>(r.lease_expires_at_ms)),
        res matches Ok(r) ==> call_ensures(sqlite::get_column::<i64>, (row, 4usize), Ok::<i64, rusqlite::Error>(r.created_at_ms)),
        res matches Ok(r) ==> call_ensures(sqlite::get_column::<i64>, (row, 5usize), Ok::<i64, rusqlite::Error>(r.updated_at_ms)),
{
    let c0 = sqlite::get_column::<String>(row, 0);
    let name = match c0 {
        Ok(v) => v,
        Err(e) => {
            return Err(e);
        },
    };
    let c1 = sqlite::get_column::<Option<String>>(row, 1);
    let owner = match c1 {
        Ok(v) => v,
        Err(e) => {
            return Err(e);
        },
    };
    let c2 = sqlite::get_column::<i64>(row, 2);
    let token = match c2 {
        Ok(v) => v,
        Err(e) => {
            return Err(e);
        },
    };
    let c3 = sqlite::get_column::<Option<i64>>(row, 3);
    let lease_expires_at_ms = match c3 {
        Ok(v) => v,
        Err(e) => {
            return Err(e);
        },
    };
    let c4 = sqlite::get_column::<i64>(row, 4);
    let created_at_ms = match c4 {
        Ok(v) => v,
        Err(e) => {
            return Err(e);
        },
    };
    let c5 = sqlite::get_column::<i64>(row, 5);
    let updated_at_ms = match c5 {
        Ok(v) => v,
        Err(e) => {
            return Err(e);
        },
    };
    Ok(ResourceRow { name, owner, token, lease_expires_at_ms, created_at_ms, updated_at_ms })
}

/// Reads the row of `name`, failing on a row that is not well formed. The
/// query is `lookup_statement(name)`; what it hands back is decided on by
/// `decide_loaded`.
pub fn load_resource(conn: &Connection, name: &str) -> (res: Result<Option<ResourceRow>>)
    ensures
        res matches Ok(Some(r)) ==> row_is_valid(r@),
        res matches Err(e) ==> e@ == Fault::Sqlite || e is InvalidLeaseRow,
        res matches Err(Error::Sqlite(_)) || exists|read: Option<ResourceRow>|
            #[trigger] call_ensures(decide_loaded, (read,), res) && match read {
                None => exists|rows: &mut Rows<'_>, first: core::result::Result<Option<&Row<'_>>, rusqlite::Error>|
                    first matches Ok(None) && #[trigger] call_ensures(sqlite::next_row, (rows,), first),
                Some(r) => exists|row: &Row<'_>, got: core::result::Result<ResourceRow, rusqlite::Error>|
                    got == Ok::<ResourceRow, rusqlite::Error>(r) && #[trigger] call_ensures(read_resource_row, (row,), got),
            },
        res matches Err(Error::Sqlite(_)) || exists|stmt: &mut CachedStatement<'_>, args: &[SqlArg], q: core::result::Result<Rows<'_>, rusqlite::Error>|
            q is Ok && args_view(args@) == seq![ArgView::Text(name@)] && #[trigger] call_ensures(sqlite::query, (stmt, args), q),
{
    let (sql, args) = lookup_statement(name);
    let mut stmt = match sqlite::prepare(conn, sql) {
        Ok(s) => s,
        Err(e) => {
            return Err(Error::Sqlite(e));
        },
    };
    let slice = args.as_slice();
    let queried = sqlite::query(&mut stmt, slice);
    let mut rows = match queried {
        Ok(r) => r,
        Err(e) => {
            return Err(Error::Sqlite(e));
        },
    };
    let fetched = sqlite::next_row(&mut rows);
    let first = match fetched {
        Ok(f) => f,
        Err(e) => {
            return Err(Error::Sqlite(e));
        },
    };
    let read = match first {
        None => None,
        Some(row) => {
            let got = read_resource_row(row);
            match got {
                Ok(r) => Some(r),
                Err(e) => {
                    return Err(Error::Sqlite(e));
                },
            }
        },
    };
    decide_loaded(read)
}

/// Persists `write`, the mutation of an operation on `name` at `now_ms`,
/// by running `write_statement(name, now_ms, write)`.
pub fn persist_write(conn: &Connection, name: &str, now_ms: i64, write: &LeaseWrite) -> (res: Result<()>)
    ensures
        res matches Err(e) ==> e@ == Fault::Sqlite,
        res is Ok ==> exists|sql: &str, args: &[SqlArg], n: usize|
            #[trigger] call_ensures(execute_statement, (conn, sql, args), Ok::<usize, rusqlite::Error>(n))
                && sql@ == write_sql_spec(write@) && args_view(args@) == write_args_spec(
                name@,
                now_ms,
                write@,
            ),
{
    let (sql, args) = write_statement(name, now_ms, write);
    let slice = args.as_slice();
    let ran = execute_statement(conn, sql, slice);
    match ran {
        Ok(n) => {
            assert(call_ensures(execute_statement, (conn, sql, slice), Ok::<usize, rusqlite::Error>(n)));
            Ok(())
        },
        Err(e) => Err(Error::Sqlite(e)),
    }
}

/// Runs the single statement `sql` with the positional parameters `args`.
pub fn execute_statement(conn: &Connection, sql: &str, args: &[SqlArg]) -> (res: core::result::Result<
    usize,
    rusqlite::Error,
>)
    ensures
        res is Ok ==> exists|stmt: CachedStatement<'_>|
            #[trigger] call_ensures(sqlite::prepare, (conn, sql), Ok::<CachedStatement<'_>, rusqlite::Error>(stmt)),
        res is Ok ==> exists|stmt: &mut CachedStatement<'_>|
            #[trigger] call_ensures(sqlite::execute_prepared, (stmt, args), res),
{
    let mut stmt = match sqlite::prepare(conn, sql) {
        Ok(s) => s,
        Err(e) => {
            return Err(e);
        },
    };
    sqlite::execute_prepared(&mut stmt, args)
}

/// The transaction check of the `*_in_tx` functions, given whether the
/// connection is in autocommit mode: refused exactly in autocommit mode.
pub fn tx_guard(autocommit: bool) -> (res: Result<()>)
    ensures
        res is Err <==> autocommit,
        res matches Err(e) ==> e@ == Fault::NotInTransaction,
{
    if autocommit {
        return Err(Error::NotInTransaction);
    }
    Ok(())
}

/// A claim on `conn` inside whatever transaction it is in.
pub fn claim_core(conn: &Connection, name: &str, owner: &str, now_ms: i64, ttl_ms: i64) -> (res: Result<ClaimResult>)
    ensures
        expiry_spec(now_ms, ttl_ms) matches Ok(expires) ==> exists|loaded: Result<Option<ResourceRow>>|
            #[trigger] call_ensures(load_resource, (conn, name), loaded) && match loaded {
                Ok(row) => call_ensures(claim_loaded, (conn, row, name, owner, now_ms, expires), res),
                Err(e) => res == Err::<ClaimResult, Error>(e),
            },
        claim_outcome(result_view(res), name@, owner@, now_ms, ttl_ms),
        expiry_spec(now_ms, ttl_ms) is Err ==> result_view(res) == Err::<ClaimView, Fault>(
            expiry_spec(now_ms, ttl_ms)->Err_0,
        ),
{
    let lease_expires_at_ms = match checked_expiry(now_ms, ttl_ms) {
        Ok(e) => e,
        Err(e) => {
            return Err(e);
        },
    };
    let loaded = load_resource(conn, name);
    let row = match loaded {
        Ok(r) => r,
        Err(e) => {
            proof {
                if e is InvalidLeaseRow {
                    lemma_malformed_row_refused(e->InvalidLeaseRow_0@, name@, owner@, now_ms, lease_expires_at_ms);
                }
            }
            return Err(e);
        },
    };
    let ghost row_view = row_opt_view(row);
    let res = claim_loaded(conn, row, name, owner, now_ms, lease_expires_at_ms);
    assert(claim_answer(row_view, name@, owner@, now_ms, lease_expires_at_ms) == result_view(res) || result_view(res) == Err::<ClaimView, Fault>(
        Fault::Sqlite,
    ));
    res
}

/// A claim of `name` for `owner` on `conn`, decided against `row`, the row
/// of `name` as read, and carried out.
pub fn claim_loaded(
    conn: &Connection,
    row: Option<ResourceRow>,
    name: &str,
    owner: &str,
    now_ms: i64,
    lease_expires_at_ms: i64,
) -> (res: Result<ClaimResult>)
    ensures
        res is Ok ==> (claim_spec(row_opt_view(row), name@, owner@, now_ms, lease_expires_at_ms) matches Ok((_, Some(w))) ==> exists|planned: LeaseWrite, done: Result<()>|
            planned@ == w && done is Ok && #[trigger] call_ensures(persist_write, (conn, name, now_ms, &planned), done)),
        carried_out(claim_spec(row_opt_view(row), name@, owner@, now_ms, lease_expires_at_ms), result_view(res)),
{
    let (result, write) = match claim_step(row, name, owner, now_ms, lease_expires_at_ms) {
        Ok(p) => p,
        Err(e) => {
            return Err(e);
        },
    };
    match write {
        Some(w) => {
            let persisted = persist_write(conn, name, now_ms, &w);
            assert(call_ensures(persist_write, (conn, name, now_ms, &w), persisted));
            match persisted {
                Ok(()) => {},
                Err(e) => {
                    return Err(e);
                },
            }
        },
        None => {},
    }
    Ok(result)
}

/// A renewal on `conn` inside whatever transaction it is in.
pub fn renew_core(conn: &Connection, name: &str, owner: &str, now_ms: i64, ttl_ms: i64) -> (res: Result<RenewResult>)
    ensures
        expiry_spec(now_ms, ttl_ms) matches Ok(expires) ==> exists|loaded: Result<Option<ResourceRow>>|
            #[trigger] call_ensures(load_resource, (conn, name), loaded) && match loaded {
                Ok(row) => call_ensures(renew_loaded, (conn, row, name, owner, now_ms, expires), res),
                Err(e) => res == Err::<RenewResult, Error>(e),
            },
        renew_outcome(result_view(res), owner@, now_ms, ttl_ms),
        expiry_spec(now_ms, ttl_ms) is Err ==> result_view(res) == Err::<RenewView, Fault>(
            expiry_spec(now_ms, ttl_ms)->Err_0,
        ),
{
    let requested_expires_at_ms = match checked_expiry(now_ms, ttl_ms) {
        Ok(e) => e,
        Err(e) => {
            return Err(e);
        },
    };
    let loaded = load_resource(conn, name);
    let row = match loaded {
        Ok(r) => r,
        Err(e) => {
            proof {
                if e is InvalidLeaseRow {
                    lemma_malformed_row_refused(e->InvalidLeaseRow_0@, name@, owner@, now_ms, requested_expires_at_ms);
                }
            }
            return Err(e);
        },
    };
    let ghost row_view = row_opt_view(row);
    let res = renew_loaded(conn, row, name, owner, now_ms, requested_expires_at_ms);
    assert(renew_answer(row_view, owner@, now_ms, requested_expires_at_ms) == result_view(res) || result_view(res) == Err::<RenewView, Fault>(
        Fault::Sqlite,
    ));
    res
}

/// A renewal of `name` by `owner` on `conn`, decided against `row`, the
/// row of `name` as read, and carried out.
pub fn renew_loaded(
    conn: &Connection,
    row: Option<ResourceRow>,
    name: &str,
    owner: &str,
    now_ms: i64,
    requested_expires_at_ms: i64,
) -> (res: Result<RenewResult>)
    ensures
        res is Ok ==> (renew_spec(row_opt_view(row), owner@, now_ms, requested_expires_at_ms) matches Ok((_, Some(w))) ==> exists|planned: LeaseWrite, done: Result<()>|
            planned@ == w && done is Ok && #[trigger] call_ensures(persist_write, (conn, name, now_ms, &planned), done)),
        carried_out(renew_spec(row_opt_view(row), owner@, now_ms, requested_expires_at_ms), result_view(res)),
{
    let (result, write) = match renew_step(row, owner, now_ms, requested_expires_at_ms) {
        Ok(p) => p,
        Err(e) => {
            return Err(e);
        },
    };
    match write {
        Some(w) => {
            let persisted = persist_write(conn, name, now_ms, &w);
            match persisted {
                Ok(()) => {},
                Err(e) => {
                    return Err(e);
                },
            }
        },
        None => {},
    }
    Ok(result)
}

/// A release on `conn` inside whatever transaction it is in.
pub fn release_core(conn: &Connection, name: &str, owner: &str, now_ms: i64) -> (res: Result<ReleaseResult>)
    ensures
        exists|loaded: Result<Option<ResourceRow>>|
            #[trigger] call_ensures(load_resource, (conn, name), loaded) && match loaded {
                Ok(row) => call_ensures(release_loaded, (conn, row, name, owner, now_ms), res),
                Err(e) => res == Err::<ReleaseResult, Error>(e),
            },
        release_outcome(result_view(res), owner@, now_ms),
{
    let loaded = load_resource(conn, name);
    let row = match loaded {
        Ok(r) => r,
        Err(e) => {
            proof {
                if e is InvalidLeaseRow {
                    lemma_malformed_row_refused(e->InvalidLeaseRow_0@, name@, owner@, now_ms, 0);
                }
            }
            return Err(e);
        },
    };
    let ghost row_view = row_opt_view(row);
    let res = release_loaded(conn, row, name, owner, now_ms);
    assert(release_answer(row_view, owner@, now_ms) == result_view(res) || result_view(res) == Err::<ReleaseView, Fault>(
        Fault::Sqlite,
    ));
    res
}

/// A release of `name` by `owner` on `conn`, decided against `row`, the
/// row of `name` as read, and carried out.
pub fn release_loaded(
    conn: &Connection,
    row: Option<ResourceRow>,
    name: &str,
    owner: &str,
    now_ms: i64,
) -> (res: Result<ReleaseResult>)
    ensures
        res is Ok ==> (release_spec(row_opt_view(row), owner@, now_ms) matches Ok((_, Some(w))) ==> exists|planned: LeaseWrite, done: Result<()>|
            planned@ == w && done is Ok && #[trigger] call_ensures(persist_write, (conn, name, now_ms, &planned), done)),
        carried_out(release_spec(row_opt_view(row), owner@, now_ms), result_view(res)),
{
    let (result, write) = match release_step(row, owner, now_ms) {
        Ok(p) => p,
        Err(e) => {
            return Err(e);
        },
    };
    match write {
        Some(w) => {
            let persisted = persist_write(conn, name, now_ms, &w);
            match persisted {
                Ok(()) => {},
                Err(e) => {
                    return Err(e);
                },
            }
        },
        None => {},
    }
    Ok(result)
}

/// Return the live lease for `name` at `now_ms`, if one exists.
pub fn inspect(conn: &Connection, name: &str, now_ms: i64) -> (res: Result<Option<LeaseInfo>>)
    ensures
        exists|loaded: Result<Option<ResourceRow>>|
            #[trigger] call_ensures(load_resource, (conn, name), loaded) && match loaded {
                Ok(row) => call_ensures(inspect_row, (row, now_ms), res),
                Err(e) => res == Err::<Option<LeaseInfo>, Error>(e),
            },
        inspect_outcome(opt_lease_result_view(res), now_ms),
{
    let loaded = load_resource(conn, name);
    let row = match loaded {
        Ok(r) => r,
        Err(e) => {
            proof {
                if e is InvalidLeaseRow {
                    lemma_malformed_row_refused(e->InvalidLeaseRow_0@, name@, name@, now_ms, 0);
                }
            }
            return Err(e);
        },
    };
    let ghost row_view = row_opt_view(row);
    let res = inspect_row(row, now_ms);
    assert(inspect_spec(row_view, now_ms) == opt_lease_result_view(res));
    res
}

pub open spec fn owner_result_view(r: Result<Option<String>>) -> core::result::Result<
    Option<Seq<char>>,
    Fault,
> {
    match r {
        Ok(Some(o)) => Ok(Some(o@)),
        Ok(None) => Ok(None),
        Err(e) => Err(e@),
    }
}

pub open spec fn token_result_view(r: Result<Option<i64>>) -> core::result::Result<Option<i64>, Fault> {
    match r {
        Ok(t) => Ok(t),
        Err(e) => Err(e@),
    }
}

/// Return the current live owner for `name` at `now_ms`, if one exists.
pub fn owner(conn: &Connection, name: &str, now_ms: i64) -> (res: Result<Option<String>>)
    ensures
        exists|loaded: Result<Option<ResourceRow>>|
            #[trigger] call_ensures(load_resource, (conn, name), loaded) && match loaded {
                Ok(row) => call_ensures(owner_row, (row, now_ms), res),
                Err(e) => res == Err::<Option<String>, Error>(e),
            },
        owner_outcome(owner_result_view(res), now_ms),
{
    let loaded = load_resource(conn, name);
    let row = match loaded {
        Ok(r) => r,
        Err(e) => {
            proof {
                if e is InvalidLeaseRow {
                    lemma_malformed_row_refused(e->InvalidLeaseRow_0@, name@, name@, now_ms, 0);
                }
            }
            return Err(e);
        },
    };
    owner_row(row, now_ms)
}

/// What reading `row` answers for its live owner at `now_ms`.
pub fn owner_row(row: Option<ResourceRow>, now_ms: i64) -> (res: Result<Option<String>>)
    ensures
        owner_result_view(res) == owner_spec(row_opt_view(row), now_ms),
{
    match inspect_row(row, now_ms) {
        Ok(Some(lease)) => Ok(Some(lease.owner)),
        Ok(None) => Ok(None),
        Err(e) => Err(e),
    }
}

/// Return the current fencing token for `name`, even if no live lease exists.
pub fn token(conn: &Connection, name: &str) -> (res: Result<Option<i64>>)
    ensures
        exists|loaded: Result<Option<ResourceRow>>|
            #[trigger] call_ensures(load_resource, (conn, name), loaded) && match loaded {
                Ok(row) => call_ensures(token_row, (row,), res),
                Err(e) => res == Err::<Option<i64>, Error>(e),
            },
        token_outcome(token_result_view(res)),
{
    let loaded = load_resource(conn, name);
    let row = match loaded {
        Ok(r) => r,
        Err(e) => {
            proof {
                if e is InvalidLeaseRow {
                    lemma_malformed_row_refused(e->InvalidLeaseRow_0@, name@, name@, 0, 0);
                }
            }
            return Err(e);
        },
    };
    token_row(row)
}

/// What reading `row`, as `load_resource` hands it back, answers for its
/// fencing token.
pub fn token_row(row: Option<ResourceRow>) -> (res: Result<Option<i64>>)
    requires
        row matches Some(r) ==> row_is_valid(r@),
    ensures
        token_result_view(res) == token_spec(row_opt_view(row)),
{
    match row {
        Some(r) => Ok(Some(r.token)),
        None => Ok(None),
    }
}

/// Attempt to claim a named resource for `owner`, in a `BEGIN IMMEDIATE`
/// transaction of its own.
pub fn claim(conn: &Connection, name: &str, owner: &str, now_ms: i64, ttl_ms: i64) -> (res: Result<ClaimResult>)
    ensures
        res matches Err(Error::Sqlite(_)) || exists|began: core::result::Result<rusqlite::Transaction<'_>, rusqlite::Error>, c: &Connection|
            began is Ok && #[trigger] call_ensures(sqlite::begin_immediate, (conn,), began)
                && call_ensures(sqlite::transaction_connection, (&began->Ok_0,), c)
                && #[trigger] call_ensures(claim_core, (c, name, owner, now_ms, ttl_ms), res),
        res is Ok ==> exists|began: core::result::Result<rusqlite::Transaction<'_>, rusqlite::Error>, done: core::result::Result<(), rusqlite::Error>|
            began is Ok && #[trigger] call_ensures(sqlite::begin_immediate, (conn,), began) && done is Ok
                && #[trigger] call_ensures(sqlite::commit, (began->Ok_0,), done),
        claim_outcome(result_view(res), name@, owner@, now_ms, ttl_ms),
{
    let began = sqlite::begin_immediate(conn);
    let tx = match began {
        Ok(tx) => tx,
        Err(e) => {
            return Err(Error::Sqlite(e));
        },
    };
    let c = sqlite::transaction_connection(&tx);
    let decided = claim_core(c, name, owner, now_ms, ttl_ms);
    let result = match decided {
        Ok(r) => r,
        Err(e) => {
            return Err(e);
        },
    };
    let committed = sqlite::commit(tx);
    match committed {
        Ok(()) => {
            assert(call_ensures(claim_core, (c, name, owner, now_ms, ttl_ms), Ok::<ClaimResult, Error>(result)));
            Ok(result)
        },
        Err(e) => Err(Error::Sqlite(e)),
    }
}

/// Renew a currently-live lease owned by `owner`, in a `BEGIN IMMEDIATE`
/// transaction of its own.
pub fn renew(conn: &Connection, name: &str, owner: &str, now_ms: i64, ttl_ms: i64) -> (res: Result<RenewResult>)
    ensures
        res matches Err(Error::Sqlite(_)) || exists|began: core::result::Result<rusqlite::Transaction<'_>, rusqlite::Error>, c: &Connection|
            began is Ok && #[trigger] call_ensures(sqlite::begin_immediate, (conn,), began)
                && call_ensures(sqlite::transaction_connection, (&began->Ok_0,), c)
                && #[trigger] call_ensures(renew_core, (c, name, owner, now_ms, ttl_ms), res),
        res is Ok ==> exists|began: core::result::Result<rusqlite::Transaction<'_>, rusqlite::Error>, done: core::result::Result<(), rusqlite::Error>|
            began is Ok && #[trigger] call_ensures(sqlite::begin_immediate, (conn,), began) && done is Ok
                && #[trigger] call_ensures(sqlite::commit, (began->Ok_0,), done),
        renew_outcome(result_view(res), owner@, now_ms, ttl_ms),
{
    let began = sqlite::begin_immediate(conn);
    let tx = match began {
        Ok(tx) => tx,
        Err(e) => {
            return Err(Error::Sqlite(e));
        },
    };
    let c = sqlite::transaction_connection(&tx);
    let decided = renew_core(c, name, owner, now_ms, ttl_ms);
    let result = match decided {
        Ok(r) => r,
        Err(e) => {
            return Err(e);
        },
    };
    let committed = sqlite::commit(tx);
    match committed {
        Ok(()) => {
            assert(call_ensures(renew_core, (c, name, owner, now_ms, ttl_ms), Ok::<RenewResult, Error>(result)));
            Ok(result)
        },
        Err(e) => Err(Error::Sqlite(e)),
    }
}

/// Release a currently-live lease owned by `owner`, in a `BEGIN IMMEDIATE`
/// transaction of its own.
pub fn release(conn: &Connection, name: &str, owner: &str, now_ms: i64) -> (res: Result<ReleaseResult>)
    ensures
        res matches Err(Error::Sqlite(_)) || exists|began: core::result::Result<rusqlite::Transaction<'_>, rusqlite::Error>, c: &Connection|
            began is Ok && #[trigger] call_ensures(sqlite::begin_immediate, (conn,), began)
                && call_ensures(sqlite::transaction_connection, (&began->Ok_0,), c)
                && #[trigger] call_ensures(release_core, (c, name, owner, now_ms), res),
        res is Ok ==> exists|began: core::result::Result<rusqlite::Transaction<'_>, rusqlite::Error>, done: core::result::Result<(), rusqlite::Error>|
            began is Ok && #[trigger] call_ensures(sqlite::begin_immediate, (conn,), began) && done is Ok
                && #[trigger] call_ensures(sqlite::commit, (began->Ok_0,), done),
        release_outcome(result_view(res), owner@, now_ms),
{
    let began = sqlite::begin_immediate(conn);
    let tx = match began {
        Ok(tx) => tx,
        Err(e) => {
            return Err(Error::Sqlite(e));
        },
    };
    let c = sqlite::transaction_connection(&tx);
    let decided = release_core(c, name, owner, now_ms);
    let result = match decided {
        Ok(r) => r,
        Err(e) => {
            return Err(e);
        },
    };
    let committed = sqlite::commit(tx);
    match committed {
        Ok(()) => {
            assert(call_ensures(release_core, (c, name, owner, now_ms), Ok::<ReleaseResult, Error>(result)));
            Ok(result)
        },
        Err(e) => Err(Error::Sqlite(e)),
    }
}

/// Attempt to claim a resource using the caller's current transaction.
///
/// `conn` must already be inside the transaction or savepoint that should own
/// atomicity for this mutation; on an autocommit connection this returns
/// `Error::NotInTransaction` and touches nothing.
pub fn claim_in_tx(conn: &Connection, name: &str, owner: &str, now_ms: i64, ttl_ms: i64) -> (res:
    Result<ClaimResult>)
    ensures
        exists|autocommit: bool| #[trigger] call_ensures(claim_in_tx_given, (conn, autocommit, name, owner, now_ms, ttl_ms), res),
        result_view(res) == Err::<ClaimView, Fault>(Fault::NotInTransaction) || {
            &&& claim_outcome(result_view(res), name@, owner@, now_ms, ttl_ms)
            &&& expiry_spec(now_ms, ttl_ms) is Err ==> result_view(res) == Err::<ClaimView, Fault>(
                expiry_spec(now_ms, ttl_ms)->Err_0,
            )
        },
{
    claim_in_tx_given(conn, sqlite::is_autocommit(conn), name, owner, now_ms, ttl_ms)
}

/// The `claim_in_tx` step once the connection has answered `autocommit`, whether
/// it is in autocommit mode: refused with `NotInTransaction` before anything
/// else in autocommit mode, and otherwise never, running the operation inside
/// the caller's transaction.
pub fn claim_in_tx_given(conn: &Connection, autocommit: bool, name: &str, owner: &str, now_ms: i64, ttl_ms: i64) -> (res: Result<ClaimResult>)
    ensures
        !autocommit ==> call_ensures(claim_core, (conn, name, owner, now_ms, ttl_ms), res),
        autocommit ==> result_view(res) == Err::<ClaimView, Fault>(Fault::NotInTransaction),
        !autocommit ==> claim_outcome(result_view(res), name@, owner@, now_ms, ttl_ms),
        !autocommit && expiry_spec(now_ms, ttl_ms) is Err ==> result_view(res) == Err::<ClaimView, Fault>(
            expiry_spec(now_ms, ttl_ms)->Err_0,
        ),
{
    match tx_guard(autocommit) {
        Ok(()) => {},
        Err(e) => {
            return Err(e);
        },
    }
    claim_core(conn, name, owner, now_ms, ttl_ms)
}

/// Renew a lease using the caller's current transaction; on an autocommit
/// connection this returns `Error::NotInTransaction`.
pub fn renew_in_tx(conn: &Connection, name: &str, owner: &str, now_ms: i64, ttl_ms: i64) -> (res:
    Result<RenewResult>)
    ensures
        exists|autocommit: bool| #[trigger] call_ensures(renew_in_tx_given, (conn, autocommit, name, owner, now_ms, ttl_ms), res),
        result_view(res) == Err::<RenewView, Fault>(Fault::NotInTransaction) || {
            &&& renew_outcome(result_view(res), owner@, now_ms, ttl_ms)
            &&& expiry_spec(now_ms, ttl_ms) is Err ==> result_view(res) == Err::<RenewView, Fault>(
                expiry_spec(now_ms, ttl_ms)->Err_0,
            )
        },
{
    renew_in_tx_given(conn, sqlite::is_autocommit(conn), name, owner, now_ms, ttl_ms)
}

/// The `renew_in_tx` step once the connection has answered `autocommit`, whether
/// it is in autocommit mode: refused with `NotInTransaction` before anything
/// else in autocommit mode, and otherwise never, running the operation inside
/// the caller's transaction.
pub fn renew_in_tx_given(conn: &Connection, autocommit: bool, name: &str, owner: &str, now_ms: i64, ttl_ms: i64) -> (res: Result<RenewResult>)
    ensures
        !autocommit ==> call_ensures(renew_core, (conn, name, owner, now_ms, ttl_ms), res),
        autocommit ==> result_view(res) == Err::<RenewView, Fault>(Fault::NotInTransaction),
        !autocommit ==> renew_outcome(result_view(res), owner@, now_ms, ttl_ms),
        !autocommit && expiry_spec(now_ms, ttl_ms) is Err ==> result_view(res) == Err::<RenewView, Fault>(
            expiry_spec(now_ms, ttl_ms)->Err_0,
        ),
{
    match tx_guard(autocommit) {
        Ok(()) => {},
        Err(e) => {
            return Err(e);
        },
    }
    renew_core(conn, name, owner, now_ms, ttl_ms)
}

/// Release a lease using the caller's current transaction; on an autocommit
/// connection this returns `Error::NotInTransaction`.
pub fn release_in_tx(conn: &Connection, name: &str, owner: &str, now_ms: i64) -> (res: Result<
    ReleaseResult,
>)
    ensures
        exists|autocommit: bool| #[trigger] call_ensures(release_in_tx_given, (conn, autocommit, name, owner, now_ms), res),
        result_view(res) == Err::<ReleaseView, Fault>(Fault::NotInTransaction) || release_outcome(
            result_view(res),
            owner@,
            now_ms,
        ),
{
    release_in_tx_given(conn, sqlite::is_autocommit(conn), name, owner, now_ms)
}

/// The `release_in_tx` step once the connection has answered `autocommit`, whether
/// it is in autocommit mode: refused with `NotInTransaction` before anything
/// else in autocommit mode, and otherwise never, running the operation inside
/// the caller's transaction.
pub fn release_in_tx_given(conn: &Connection, autocommit: bool, name: &str, owner: &str, now_ms: i64) -> (res: Result<ReleaseResult>)
    ensures
        !autocommit ==> call_ensures(release_core, (conn, name, owner, now_ms), res),
        autocommit ==> result_view(res) == Err::<ReleaseView, Fault>(Fault::NotInTransaction),
        !autocommit ==> release_outcome(result_view(res), owner@, now_ms),
{
    match tx_guard(autocommit) {
        Ok(()) => {},
        Err(e) => {
            return Err(e);
        },
    }
    release_core(conn, name, owner, now_ms)
}

/// What installing the schema answered: success, a database failure, or the
/// refusal of a table whose columns and creation SQL depart from the
/// expected schema, with the diagnostic text of the first departure.
pub open spec fn bootstrap_outcome(res: core::result::Result<(), Fault>) -> bool {
    ||| res == Ok::<(), Fault>(())
    ||| res == Err::<(), Fault>(Fault::Sqlite)
    ||| exists|cols: Seq<ColumnView>, sql: Seq<char>|
        #[trigger] schema_drift_spec(cols, sql) is Some && res == Err::<(), Fault>(
            Fault::SchemaMismatch(drift_reason(schema_drift_spec(cols, sql)->Some_0)),
        )
}

pub open spec fn unit_result_view(r: Result<()>) -> core::result::Result<(), Fault> {
    match r {
        Ok(()) => Ok(()),
        Err(e) => Err(e@),
    }
}

/// The columns of the lease table up to the token column's type.
pub open spec fn create_head_sql() -> Seq<char> {
    "CREATE TABLE IF NOT EXISTS bouncer_resources (\n  name TEXT PRIMARY KEY,\n  owner TEXT,\n  token INTEGER NOT NULL"@
}

/// The remaining columns, up to the opening of the pairing constraint.
pub open spec fn create_mid_sql() -> Seq<char> {
    ",\n  lease_expires_at_ms INTEGER,\n  created_at_ms INTEGER NOT NULL,\n  updated_at_ms INTEGER NOT NULL,\n  CHECK ("@
}

/// The close of the pairing constraint and of the statement.
pub open spec fn create_tail_sql() -> Seq<char> {
    ")\n);"@
}

/// The statement that creates the lease table where it is missing: the
/// six columns, the token constraint and the owner/expiry pairing
/// constraint, as the schema check expects them.
pub open spec fn create_table_sql_spec() -> Seq<char> {
    create_head_sql() + " "@ + token_check_text() + create_mid_sql() + pair_check_text()
        + create_tail_sql()
}

/// The statement that creates the lease table where it is missing.
pub fn create_table_statement() -> (res: String)
    ensures
        res@ == create_table_sql_spec(),
{
    let mut sql = String::new();
    sql.append("CREATE TABLE IF NOT EXISTS bouncer_resources (\n  name TEXT PRIMARY KEY,\n  owner TEXT,\n  token INTEGER NOT NULL");
    sql.append(" ");
    sql.append("CHECK (token >= 1)");
    sql.append(",\n  lease_expires_at_ms INTEGER,\n  created_at_ms INTEGER NOT NULL,\n  updated_at_ms INTEGER NOT NULL,\n  CHECK (");
    sql.append("(owner IS NULL AND lease_expires_at_ms IS NULL) OR (owner IS NOT NULL AND lease_expires_at_ms IS NOT NULL)");
    sql.append(")\n);");
    assert(sql@ =~= create_table_sql_spec());
    sql
}

/// Bootstrap is idempotent: the statement that bootstrap hands to SQLite
/// for an absent table, with the columns it declares, passes the schema
/// check that a later bootstrap applies to an existing table.
pub proof fn created_table_passes_schema_check()
    ensures
        schema_drift_spec(expected_columns(), create_table_sql_spec()) is None,
{
    reveal_strlit("CREATE TABLE IF NOT EXISTS bouncer_resources (\n  name TEXT PRIMARY KEY,\n  owner TEXT,\n  token INTEGER NOT NULL");
    reveal_strlit(" ");
    reveal_strlit(",\n  lease_expires_at_ms INTEGER,\n  created_at_ms INTEGER NOT NULL,\n  updated_at_ms INTEGER NOT NULL,\n  CHECK (");
    reveal_strlit("CHECK (token >= 1)");
    reveal_strlit("(owner IS NULL AND lease_expires_at_ms IS NULL) OR (owner IS NOT NULL AND lease_expires_at_ms IS NOT NULL)");
    let head = create_head_sql();
    let t1 = " "@ + token_check_text();
    let a2 = head + t1 + create_mid_sql();
    let t2 = pair_check_text();
    let sql = create_table_sql_spec();
    assert(single_spaced(t1));
    assert(single_spaced(t2));
    assert(!is_sql_space(head.last()));
    assert(a2.last() == create_mid_sql().last());
    assert(!is_sql_space(a2.last()));
    lemma_collapse_append_single_spaced(head, t1);
    lemma_collapse_append_single_spaced(a2, t2);
    assert(sql =~= (head + t1) + (create_mid_sql() + t2 + create_tail_sql()));
    lemma_collapse_prefix(head + t1, create_mid_sql() + t2 + create_tail_sql());
    assert(sql =~= (a2 + t2) + create_tail_sql());
    lemma_collapse_prefix(a2 + t2, create_tail_sql());
    let c = collapse_space(sql);
    let p1 = collapse_space(head + t1);
    assert(c.subrange(0, p1.len() as int) == p1);
    let i1: int = collapse_space(head).len() as int + 1;
    let n1: int = token_check_text().len() as int;
    assert(p1.subrange(i1, i1 + n1) =~= token_check_text());
    assert(c.subrange(i1, i1 + n1) =~= p1.subrange(i1, i1 + n1));
    let p2 = collapse_space(a2 + t2);
    assert(c.subrange(0, p2.len() as int) == p2);
    let i2 = collapse_space(a2).len() as int;
    assert(p2.subrange(i2, i2 + t2.len() as int) =~= t2);
    assert(c.subrange(i2, i2 + t2.len() as int) =~= p2.subrange(i2, i2 + t2.len() as int));
    assert(occurs_in(collapse_space(sql), token_check_text()));
    assert(occurs_in(collapse_space(sql), pair_check_text()));
    lemma_expected_columns_fit(0);
}

/// The columns of the lease table as the schema check expects them.
pub open spec fn expected_columns() -> Seq<ColumnView> {
    Seq::new(
        6,
        |i: int|
            ColumnView {
                name: expected_name(i),
                decl_type: expected_type(i),
                not_null: expected_not_null(i),
                pk: expected_pk(i),
            },
    )
}

proof fn lemma_expected_columns_fit(from: int)
    requires
        0 <= from,
    ensures
        first_column_drift(expected_columns(), from) is None,
    decreases 6 - from,
{
    if from < 6 {
        assert(column_drift(expected_columns()[from], from) is None);
        lemma_expected_columns_fit(from + 1);
    }
}

/// The query for the creation SQL of the lease table.
pub open spec fn table_sql_query_spec() -> Seq<char> {
    "SELECT sql FROM sqlite_master WHERE type = 'table' AND name = 'bouncer_resources'"@
}

/// The query for the creation SQL of the lease table.
pub fn table_sql_statement() -> (res: &'static str)
    ensures
        res@ == table_sql_query_spec(),
{
    "SELECT sql FROM sqlite_master WHERE type = 'table' AND name = 'bouncer_resources'"
}

/// The query for the columns of the lease table, in order.
pub open spec fn table_info_query_spec() -> Seq<char> {
    "PRAGMA table_info(bouncer_resources)"@
}

/// The query for the columns of the lease table, in order.
pub fn table_info_statement() -> (res: &'static str)
    ensures
        res@ == table_info_query_spec(),
{
    "PRAGMA table_info(bouncer_resources)"
}

/// The creation SQL of `bouncer_resources`, if the table exists.
pub fn read_table_sql(conn: &Connection) -> (res: core::result::Result<Option<String>, rusqlite::Error>)
    ensures
        res matches Ok(existing) ==> exists|found: Option<Option<String>>|
            #[trigger] call_ensures(table_sql_of, (found,), existing),
{
    let mut stmt = match sqlite::prepare(conn, table_sql_statement()) {
        Ok(s) => s,
        Err(e) => {
            return Err(e);
        },
    };
    let args: Vec<SqlArg> = Vec::new();
    let mut rows = match sqlite::query(&mut stmt, args.as_slice()) {
        Ok(r) => r,
        Err(e) => {
            return Err(e);
        },
    };
    let first = match sqlite::next_row(&mut rows) {
        Ok(f) => f,
        Err(e) => {
            return Err(e);
        },
    };
    let found = match first {
        None => None,
        Some(row) => match sqlite::get_column::<Option<String>>(row, 0) {
            Ok(sql) => Some(sql),
            Err(e) => {
                return Err(e);
            },
        },
    };
    Ok(table_sql_of(found))
}

/// The creation SQL of the lease table, given what the lookup found: no
/// row, or a row whose `sql` column holds text or `NULL` (read as empty).
pub fn table_sql_of(found: Option<Option<String>>) -> (res: Option<String>)
    ensures
        found is None <==> res is None,
        found matches Some(Some(sql)) ==> res matches Some(r) && r@ == sql@,
        found matches Some(None) ==> res matches Some(r) && r@ == Seq::<char>::empty(),
{
    match found {
        None => None,
        Some(Some(sql)) => Some(sql),
        Some(None) => Some(String::new()),
    }
}

/// A column of the lease table as `PRAGMA table_info` describes it: its
/// name, declared type, `notnull` flag and primary-key position.
pub fn column_info(name: String, decl_type: String, not_null: i64, pk: i64) -> (res: ColumnInfo)
    ensures
        res@ == (ColumnView { name: name@, decl_type: decl_type@, not_null: not_null != 0, pk }),
{
    ColumnInfo { name, decl_type, not_null: not_null != 0, pk }
}

/// The columns of `bouncer_resources`, in order, from `PRAGMA table_info`.
pub fn read_columns(conn: &Connection) -> (res: core::result::Result<Vec<ColumnInfo>, rusqlite::Error>) {
    let mut stmt = match sqlite::prepare(conn, table_info_statement()) {
        Ok(s) => s,
        Err(e) => {
            return Err(e);
        },
    };
    let args: Vec<SqlArg> = Vec::new();
    let mut rows = match sqlite::query(&mut stmt, args.as_slice()) {
        Ok(r) => r,
        Err(e) => {
            return Err(e);
        },
    };
    let mut cols: Vec<ColumnInfo> = Vec::new();
    // SQLite never holds more than 32767 columns in one table.
    let mut seen: u64 = 0;
    while seen < 32767
        decreases 32767 - seen,
    {
        let next = match sqlite::next_row(&mut rows) {
            Ok(n) => n,
            Err(e) => {
                return Err(e);
            },
        };
        match next {
            None => {
                return Ok(cols);
            },
            Some(row) => {
                let name = match sqlite::get_column::<String>(row, 1) {
                    Ok(v) => v,
                    Err(e) => {
                        return Err(e);
                    },
                };
                let decl_type = match sqlite::get_column::<String>(row, 2) {
                    Ok(v) => v,
                    Err(e) => {
                        return Err(e);
                    },
                };
                let not_null = match sqlite::get_column::<i64>(row, 3) {
                    Ok(v) => v,
                    Err(e) => {
                        return Err(e);
                    },
                };
                let pk = match sqlite::get_column::<i64>(row, 5) {
                    Ok(v) => v,
                    Err(e) => {
                        return Err(e);
                    },
                };
                cols.push(column_info(name, decl_type, not_null, pk));
            },
        }
        seen = seen + 1;
    }
    Ok(cols)
}

/// What installing the schema answers for an existing table with columns
/// `cols` and creation SQL `sql`: nothing to do, or the refusal of the first
/// departure from the expected schema.
pub open spec fn existing_schema_spec(cols: Seq<ColumnView>, sql: Seq<char>) -> core::result::Result<
    (),
    Fault,
> {
    match schema_drift_spec(cols, sql) {
        None => Ok(()),
        Some(d) => Err(Fault::SchemaMismatch(drift_reason(d))),
    }
}

/// The check of an existing `bouncer_resources` table, given the columns
/// and creation SQL read from it.
pub fn check_existing_schema(cols: &Vec<ColumnInfo>, sql: &str) -> (res: Result<()>)
    ensures
        unit_result_view(res) == existing_schema_spec(columns_view(cols@), sql@),
{
    match schema_drift(cols, sql) {
        None => Ok(()),
        Some(drift) => {
            let reason = drift.reason();
            Err(Error::SchemaMismatch { reason })
        },
    }
}

/// Install the lease schema on `conn`. On a database without
/// `bouncer_resources` it creates the table; on one that has it, it checks
/// the table against the expected schema without writing anything, and
/// fails with `SchemaMismatch` on the first departure. Idempotent.
pub fn bootstrap_bouncer_schema(conn: &Connection) -> (res: Result<()>)
    ensures
        res matches Err(Error::Sqlite(_)) || exists|looked: core::result::Result<Option<String>, rusqlite::Error>|
            looked is Ok && #[trigger] call_ensures(read_table_sql, (conn,), looked)
                && call_ensures(bootstrap_given, (conn, looked->Ok_0), res),
        bootstrap_outcome(unit_result_view(res)),
{
    let looked = read_table_sql(conn);
    let existing = match looked {
        Ok(e) => e,
        Err(e) => {
            return Err(Error::Sqlite(e));
        },
    };
    bootstrap_given(conn, existing)
}

/// Installing the schema once the lookup has answered `existing`, the
/// creation SQL of `bouncer_resources` (`None` when the table is absent).
/// An absent table is created, which only a database failure can stop; an
/// existing one is checked against the expected schema, with the columns
/// that `PRAGMA table_info` reports, and refused with `SchemaMismatch` on
/// its first departure.
pub fn bootstrap_given(conn: &Connection, existing: Option<String>) -> (res: Result<()>)
    ensures
        existing is None ==> res is Ok || unit_result_view(res) == Err::<(), Fault>(Fault::Sqlite),
        existing matches Some(sql) ==> unit_result_view(res) == Err::<(), Fault>(Fault::Sqlite)
            || exists|cols: Seq<ColumnView>|
            #[trigger] existing_schema_spec(cols, sql@) == unit_result_view(res),
        existing is None && res is Ok ==> exists|sql: &str, done: core::result::Result<(), rusqlite::Error>|
            done is Ok && sql@ == create_table_sql_spec() && #[trigger] call_ensures(sqlite::execute_batch, (conn, sql), done),
        existing matches Some(sql) ==> res matches Err(Error::Sqlite(_)) || exists|got: core::result::Result<Vec<ColumnInfo>, rusqlite::Error>|
            got is Ok && #[trigger] call_ensures(read_columns, (conn,), got)
                && unit_result_view(res) == existing_schema_spec(columns_view(got->Ok_0@), sql@),
{
    match existing {
        None => {
            let create = create_table_statement();
            let sql = create.as_str();
            let done = sqlite::execute_batch(conn, sql);
            match done {
                Ok(()) => Ok(()),
                Err(e) => Err(Error::Sqlite(e)),
            }
        },
        Some(sql) => {
            let got = read_columns(conn);
            let cols = match got {
                Ok(c) => c,
                Err(e) => {
                    return Err(Error::Sqlite(e));
                },
            };
            let res = check_existing_schema(&cols, sql.as_str());
            assert(existing_schema_spec(columns_view(cols@), sql@) == unit_result_view(res));
            res
        },
    }
}

/// Claim in the connection's current mode: in autocommit mode in a
/// transaction of its own, otherwise inside the caller's transaction.
pub fn claim_auto(conn: &Connection, name: &str, owner: &str, now_ms: i64, ttl_ms: i64) -> (res: Result<ClaimResult>)
    ensures
        exists|autocommit: bool| #[trigger] call_ensures(claim_auto_given, (conn, autocommit, name, owner, now_ms, ttl_ms), res),
        claim_outcome(
            result_view(res),
            name@,
            owner@,
            now_ms,
            ttl_ms,
        ),
{
    claim_auto_given(conn, sqlite::is_autocommit(conn), name, owner, now_ms, ttl_ms)
}

/// `claim_auto` once the connection has answered `autocommit`: in autocommit
/// mode in a `BEGIN IMMEDIATE` transaction of its own, which is opened
/// before anything is checked; otherwise inside the caller's transaction,
/// with the ttl checked first.
pub fn claim_auto_given(conn: &Connection, autocommit: bool, name: &str, owner: &str, now_ms: i64, ttl_ms: i64) -> (res: Result<ClaimResult>)
    ensures
        autocommit ==> call_ensures(claim, (conn, name, owner, now_ms, ttl_ms), res),
        !autocommit ==> call_ensures(claim_core, (conn, name, owner, now_ms, ttl_ms), res),
        claim_outcome(result_view(res), name@, owner@, now_ms, ttl_ms),
        !autocommit && expiry_spec(now_ms, ttl_ms) is Err ==> result_view(res) == Err::<ClaimView, Fault>(
            expiry_spec(now_ms, ttl_ms)->Err_0,
        ),
{
    if autocommit {
        claim(conn, name, owner, now_ms, ttl_ms)
    } else {
        claim_core(conn, name, owner, now_ms, ttl_ms)
    }
}

/// Renew in the connection's current mode.
pub fn renew_auto(conn: &Connection, name: &str, owner: &str, now_ms: i64, ttl_ms: i64) -> (res: Result<RenewResult>)
    ensures
        exists|autocommit: bool| #[trigger] call_ensures(renew_auto_given, (conn, autocommit, name, owner, now_ms, ttl_ms), res),
        renew_outcome(
            result_view(res),
            owner@,
            now_ms,
            ttl_ms,
        ),
{
    renew_auto_given(conn, sqlite::is_autocommit(conn), name, owner, now_ms, ttl_ms)
}

/// `renew_auto` once the connection has answered `autocommit`: in autocommit
/// mode in a `BEGIN IMMEDIATE` transaction of its own, which is opened
/// before anything is checked; otherwise inside the caller's transaction,
/// with the ttl checked first.
pub fn renew_auto_given(conn: &Connection, autocommit: bool, name: &str, owner: &str, now_ms: i64, ttl_ms: i64) -> (res: Result<RenewResult>)
    ensures
        autocommit ==> call_ensures(renew, (conn, name, owner, now_ms, ttl_ms), res),
        !autocommit ==> call_ensures(renew_core, (conn, name, owner, now_ms, ttl_ms), res),
        renew_outcome(result_view(res), owner@, now_ms, ttl_ms),
        !autocommit && expiry_spec(now_ms, ttl_ms) is Err ==> result_view(res) == Err::<RenewView, Fault>(
            expiry_spec(now_ms, ttl_ms)->Err_0,
        ),
{
    if autocommit {
        renew(conn, name, owner, now_ms, ttl_ms)
    } else {
        renew_core(conn, name, owner, now_ms, ttl_ms)
    }
}

/// Release in the connection's current mode.
pub fn release_auto(conn: &Connection, name: &str, owner: &str, now_ms: i64) -> (res: Result<ReleaseResult>)
    ensures
        exists|autocommit: bool| #[trigger] call_ensures(release_auto_given, (conn, autocommit, name, owner, now_ms), res),
        release_outcome(
            result_view(res),
            owner@,
            now_ms,
        ),
{
    release_auto_given(conn, sqlite::is_autocommit(conn), name, owner, now_ms)
}

/// `release_auto` once the connection has answered `autocommit`: in
/// autocommit mode in a `BEGIN IMMEDIATE` transaction of its own, otherwise
/// inside the caller's transaction.
pub fn release_auto_given(conn: &Connection, autocommit: bool, name: &str, owner: &str, now_ms: i64) -> (res: Result<ReleaseResult>)
    ensures
        autocommit ==> call_ensures(release, (conn, name, owner, now_ms), res),
        !autocommit ==> call_ensures(release_core, (conn, name, owner, now_ms), res),
        release_outcome(result_view(res), owner@, now_ms),
{
    if autocommit {
        release(conn, name, owner, now_ms)
    } else {
        release_core(conn, name, owner, now_ms)
    }
}

} // verus!
