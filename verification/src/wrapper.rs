//! The typed convenience surface: an owned `Bouncer`, a borrowed
//! `BouncerRef<'a>`, and a wrapper-owned `Transaction<'db>`. The methods read
//! the system clock for lease expiry bookkeeping and delegate the lease
//! semantics to `engine`.
use crate::clock::{self, duration_millis, is_clock_reading};
use crate::engine::{self, bootstrap_outcome, ClaimResult, LeaseInfo, ReleaseResult, RenewResult};
use crate::model::{
    claim_outcome, inspect_outcome, release_outcome, renew_outcome, ClaimView, Fault, LeaseView,
    ReleaseView, RenewView,
};
use crate::sqlite;
use rusqlite::Connection;
use rusqlite::Savepoint as SqlSavepoint;
use rusqlite::Transaction as SqlTransaction;
use std::path::Path;
use std::time::{Duration, SystemTimeError};
use vstd::prelude::*;

verus! {

pub type Result<T> = core::result::Result<T, Error>;

#[derive(Debug)]
pub enum Error {
    Sqlite(rusqlite::Error),
    Core(engine::Error),
    SystemTime(SystemTimeError),
    SystemTimeTooLarge(u128),
    DurationTooLarge(Duration),
}

/// The failures of the surface, with the clock and database failures kept
/// as cases.
pub enum SurfaceFault {
    Sqlite,
    Core(Fault),
    SystemTime,
    SystemTimeTooLarge(u128),
    DurationTooLarge(u128),
}

impl View for Error {
    type V = SurfaceFault;

    open spec fn view(&self) -> SurfaceFault {
        match self {
            Error::Sqlite(_) => SurfaceFault::Sqlite,
            Error::Core(e) => SurfaceFault::Core(e@),
            Error::SystemTime(_) => SurfaceFault::SystemTime,
            Error::SystemTimeTooLarge(m) => SurfaceFault::SystemTimeTooLarge(*m),
            Error::DurationTooLarge(d) => SurfaceFault::DurationTooLarge(duration_millis(*d)),
        }
    }
}

pub open spec fn surface_view<T: View>(r: Result<T>) -> core::result::Result<T::V, SurfaceFault> {
    match r {
        Ok(v) => Ok(v@),
        Err(e) => Err(e@),
    }
}

/// A clock failure: the clock read before the epoch, or past what `i64`
/// milliseconds hold.
pub open spec fn clock_fault(f: SurfaceFault) -> bool {
    ||| f is SystemTime
    ||| (f matches SurfaceFault::SystemTimeTooLarge(m) && m > i64::MAX)
}

/// Whether the lease operation ran in the caller's transaction on a
/// connection that answered it is in autocommit mode, where it is refused.
pub open spec fn guard_refuses(guard: Option<bool>) -> bool {
    guard == Some(true)
}

/// What a claim through the surface answered: a clock failure, a ttl too
/// long for `i64` milliseconds, and otherwise `NotInTransaction` when the
/// guard refuses, or else what a core claim at some clock reading answers
/// with the ttl in milliseconds. `guard` is `None` in the connection's
/// current mode, and the connection's autocommit answer inside the caller's
/// transaction.
pub open spec fn surface_claim_outcome(
    res: core::result::Result<ClaimView, SurfaceFault>,
    name: Seq<char>,
    owner: Seq<char>,
    ttl: Duration,
    guard: Option<bool>,
) -> bool {
    match res {
        Err(f) => clock_fault(f) || (f matches SurfaceFault::DurationTooLarge(m) && m
            == duration_millis(ttl) && m > i64::MAX) || (f matches SurfaceFault::Core(c)
            && duration_millis(ttl) <= i64::MAX && if guard_refuses(guard) {
            c == Fault::NotInTransaction
        } else {
            exists|now_ms: i64|
                #[trigger] claim_outcome(Err(c), name, owner, now_ms, duration_millis(ttl) as i64) && is_clock_reading(now_ms)
        }),
        Ok(c) => !guard_refuses(guard) && duration_millis(ttl) <= i64::MAX && exists|now_ms: i64|
            #[trigger] claim_outcome(Ok(c), name, owner, now_ms, duration_millis(ttl) as i64) && is_clock_reading(now_ms),
    }
}

/// What a renewal through the surface answered, with `guard` as for a claim.
pub open spec fn surface_renew_outcome(
    res: core::result::Result<RenewView, SurfaceFault>,
    owner: Seq<char>,
    ttl: Duration,
    guard: Option<bool>,
) -> bool {
    match res {
        Err(f) => clock_fault(f) || (f matches SurfaceFault::DurationTooLarge(m) && m
            == duration_millis(ttl) && m > i64::MAX) || (f matches SurfaceFault::Core(c)
            && duration_millis(ttl) <= i64::MAX && if guard_refuses(guard) {
            c == Fault::NotInTransaction
        } else {
            exists|now_ms: i64|
                #[trigger] renew_outcome(Err(c), owner, now_ms, duration_millis(ttl) as i64) && is_clock_reading(now_ms)
        }),
        Ok(r) => !guard_refuses(guard) && duration_millis(ttl) <= i64::MAX && exists|now_ms: i64|
            #[trigger] renew_outcome(Ok(r), owner, now_ms, duration_millis(ttl) as i64) && is_clock_reading(now_ms),
    }
}

/// What a release through the surface answered, with `guard` as for a claim.
pub open spec fn surface_release_outcome(
    res: core::result::Result<ReleaseView, SurfaceFault>,
    owner: Seq<char>,
    guard: Option<bool>,
) -> bool {
    match res {
        Err(f) => clock_fault(f) || (f matches SurfaceFault::Core(c) && if guard_refuses(guard) {
            c == Fault::NotInTransaction
        } else {
            exists|now_ms: i64| #[trigger] release_outcome(Err(c), owner, now_ms) && is_clock_reading(now_ms)
        }),
        Ok(r) => !guard_refuses(guard) && exists|now_ms: i64|
            #[trigger] release_outcome(Ok(r), owner, now_ms) && is_clock_reading(now_ms),
    }
}

/// What a read of the live lease through the surface answered.
pub open spec fn surface_inspect_outcome(res: core::result::Result<Option<LeaseView>, SurfaceFault>) -> bool {
    match res {
        Err(f) => clock_fault(f) || (f matches SurfaceFault::Core(c) && exists|now_ms: i64|
            #[trigger] inspect_outcome(Err(c), now_ms) && is_clock_reading(now_ms)),
        Ok(o) => exists|now_ms: i64| #[trigger] inspect_outcome(Ok(o), now_ms) && is_clock_reading(now_ms),
    }
}

pub open spec fn inspect_view(r: Result<Option<LeaseInfo>>) -> core::result::Result<
    Option<LeaseView>,
    SurfaceFault,
> {
    match r {
        Ok(o) => Ok(engine::lease_opt_view(o)),
        Err(e) => Err(e@),
    }
}

/// What installing the schema through the surface answered.
pub open spec fn surface_bootstrap_outcome(res: Result<()>) -> bool {
    match res {
        Ok(()) => true,
        Err(e) => e matches Error::Core(c) && bootstrap_outcome(Err(c@)),
    }
}

/// The system clock in milliseconds since the Unix epoch.
pub fn system_now_ms() -> (res: Result<i64>)
    ensures
        res matches Err(e) ==> clock_fault(e@),
        res matches Ok(m) ==> m >= 0,
        res matches Ok(m) ==> is_clock_reading(m),
{
    let now = clock::system_time_now();
    let since = match clock::since_unix_epoch(now) {
        Ok(d) => d,
        Err(e) => {
            return Err(Error::SystemTime(e));
        },
    };
    epoch_millis(since)
}

/// The clock reading `since`, the time elapsed since the Unix epoch, in
/// whole milliseconds, when that fits in `i64`.
pub fn epoch_millis(since: Duration) -> (res: Result<i64>)
    ensures
        res is Ok <==> duration_millis(since) <= i64::MAX,
        res matches Ok(m) ==> m == duration_millis(since),
        res matches Err(e) ==> e matches Error::SystemTimeTooLarge(v) && v == duration_millis(since),
{
    let millis = clock::as_millis(&since);
    match clock::millis_to_i64(millis) {
        Some(m) => Ok(m),
        None => Err(Error::SystemTimeTooLarge(millis)),
    }
}

/// `ttl` in whole milliseconds, when that fits in `i64`.
pub fn duration_to_ttl_ms(ttl: Duration) -> (res: Result<i64>)
    ensures
        res is Ok <==> duration_millis(ttl) <= i64::MAX,
        res matches Ok(m) ==> m == duration_millis(ttl),
        res matches Err(e) ==> e@ == SurfaceFault::DurationTooLarge(duration_millis(ttl)),
        res matches Err(e) ==> e matches Error::DurationTooLarge(d) && d == ttl,
{
    let millis = clock::as_millis(&ttl);
    match clock::millis_to_i64(millis) {
        Some(m) => Ok(m),
        None => Err(Error::DurationTooLarge(ttl)),
    }
}

#[derive(Debug)]
pub struct Bouncer {
    pub conn: Connection,
}

#[derive(Debug, Clone, Copy)]
pub struct BouncerRef<'a> {
    conn: &'a Connection,
}

impl<'a> BouncerRef<'a> {
    /// The connection this handle works on.
    pub closed spec fn connection(&self) -> &'a Connection {
        self.conn
    }
}

#[derive(Debug)]
pub struct Transaction<'db> {
    conn: &'db Connection,
    tx: SqlTransaction<'db>,
}

/// A savepoint inside a wrapper-owned transaction. Its commit joins the
/// outer transaction's boundary; its rollback discards what was done inside
/// it and ends it.
#[derive(Debug)]
pub struct Savepoint<'db> {
    conn: &'db Connection,
    sp: SqlSavepoint<'db>,
}

pub fn inspect_at(conn: &Connection, name: &str) -> (res: Result<Option<LeaseInfo>>)
    ensures
        before_operation(res) || exists|now_ms: i64, r: engine::Result<Option<LeaseInfo>>|
            is_clock_reading(now_ms) && res == surfaced(r) && #[trigger] call_ensures(engine::inspect, (conn, name, now_ms), r),
        surface_inspect_outcome(inspect_view(res)),
{
    let now_ms = match system_now_ms() {
        Ok(n) => n,
        Err(e) => {
            return Err(e);
        },
    };
    let read = engine::inspect(conn, name, now_ms);
    let res = match read {
        Ok(o) => Ok(o),
        Err(e) => Err(Error::Core(e)),
    };
    assert(res == surfaced(read));
    assert(is_clock_reading(now_ms));
    assert(inspect_outcome(
        match inspect_view(res) {
            Ok(o) => Ok(o),
            Err(SurfaceFault::Core(c)) => Err(c),
            Err(_) => Err(Fault::Sqlite),
        },
        now_ms,
    ));
    res
}

/// A lease operation's answer as the surface hands it on.
pub open spec fn surfaced<T>(r: engine::Result<T>) -> Result<T> {
    match r {
        Ok(v) => Ok(v),
        Err(e) => Err(Error::Core(e)),
    }
}

/// A failure of the clock or of the ttl conversion, which comes before any
/// lease operation.
pub open spec fn before_operation<T>(res: Result<T>) -> bool {
    res matches Err(e) && (e is SystemTime || e is SystemTimeTooLarge || e is DurationTooLarge)
}

/// A claim with the system clock on `conn`. With `guard` `None` it runs in
/// the connection's current mode; with `Some(autocommit)`, the connection's
/// answer whether it is in autocommit mode, it runs inside the caller's
/// transaction and is refused exactly when that answer is `true`.
pub fn clock_claim(conn: &Connection, name: &str, owner: &str, ttl: Duration, guard: Option<bool>) -> (res: Result<ClaimResult>)
    ensures
        guard is None ==> before_operation(res) || exists|now_ms: i64, ttl_ms: i64, r: engine::Result<ClaimResult>|
            is_clock_reading(now_ms) && ttl_ms == duration_millis(ttl) && res == surfaced(r) && #[trigger] call_ensures(engine::claim_auto, (conn, name, owner, now_ms, ttl_ms), r),
        guard matches Some(autocommit) ==> before_operation(res) || exists|now_ms: i64, ttl_ms: i64, r: engine::Result<ClaimResult>|
            is_clock_reading(now_ms) && ttl_ms == duration_millis(ttl) && res == surfaced(r) && #[trigger] call_ensures(engine::claim_in_tx_given, (conn, autocommit, name, owner, now_ms, ttl_ms), r),
        surface_claim_outcome(surface_view(res), name@, owner@, ttl, guard),
{
    let now_ms = match system_now_ms() {
        Ok(n) => n,
        Err(e) => {
            return Err(e);
        },
    };
    let ttl_ms = match duration_to_ttl_ms(ttl) {
        Ok(t) => t,
        Err(e) => {
            return Err(e);
        },
    };
    let res = match guard {
        Some(autocommit) => engine::claim_in_tx_given(conn, autocommit, name, owner, now_ms, ttl_ms),
        None => engine::claim_auto(conn, name, owner, now_ms, ttl_ms),
    };
    proof {
        assert(ttl_ms == duration_millis(ttl) as i64);
        if !guard_refuses(guard) {
            assert(claim_outcome(engine::result_view(res), name@, owner@, now_ms, duration_millis(ttl) as i64));
        }
    }
    let out = match res {
        Ok(r) => Ok(r),
        Err(e) => Err(Error::Core(e)),
    };
    assert(out == surfaced(res));
    assert(is_clock_reading(now_ms));
    match guard {
        None => assert(call_ensures(engine::claim_auto, (conn, name, owner, now_ms, ttl_ms), res)),
        Some(autocommit) => assert(call_ensures(engine::claim_in_tx_given, (conn, autocommit, name, owner, now_ms, ttl_ms), res)),
    }
    out
}

/// A renewal with the system clock on `conn`, with `guard` as for a claim.
pub fn clock_renew(conn: &Connection, name: &str, owner: &str, ttl: Duration, guard: Option<bool>) -> (res: Result<RenewResult>)
    ensures
        guard is None ==> before_operation(res) || exists|now_ms: i64, ttl_ms: i64, r: engine::Result<RenewResult>|
            is_clock_reading(now_ms) && ttl_ms == duration_millis(ttl) && res == surfaced(r) && #[trigger] call_ensures(engine::renew_auto, (conn, name, owner, now_ms, ttl_ms), r),
        guard matches Some(autocommit) ==> before_operation(res) || exists|now_ms: i64, ttl_ms: i64, r: engine::Result<RenewResult>|
            is_clock_reading(now_ms) && ttl_ms == duration_millis(ttl) && res == surfaced(r) && #[trigger] call_ensures(engine::renew_in_tx_given, (conn, autocommit, name, owner, now_ms, ttl_ms), r),
        surface_renew_outcome(surface_view(res), owner@, ttl, guard),
{
    let now_ms = match system_now_ms() {
        Ok(n) => n,
        Err(e) => {
            return Err(e);
        },
    };
    let ttl_ms = match duration_to_ttl_ms(ttl) {
        Ok(t) => t,
        Err(e) => {
            return Err(e);
        },
    };
    let res = match guard {
        Some(autocommit) => engine::renew_in_tx_given(conn, autocommit, name, owner, now_ms, ttl_ms),
        None => engine::renew_auto(conn, name, owner, now_ms, ttl_ms),
    };
    proof {
        assert(ttl_ms == duration_millis(ttl) as i64);
        if !guard_refuses(guard) {
            assert(renew_outcome(engine::result_view(res), owner@, now_ms, duration_millis(ttl) as i64));
        }
    }
    let out = match res {
        Ok(r) => Ok(r),
        Err(e) => Err(Error::Core(e)),
    };
    assert(out == surfaced(res));
    assert(is_clock_reading(now_ms));
    match guard {
        None => assert(call_ensures(engine::renew_auto, (conn, name, owner, now_ms, ttl_ms), res)),
        Some(autocommit) => assert(call_ensures(engine::renew_in_tx_given, (conn, autocommit, name, owner, now_ms, ttl_ms), res)),
    }
    out
}

/// A release with the system clock on `conn`, with `guard` as for a claim.
pub fn clock_release(conn: &Connection, name: &str, owner: &str, guard: Option<bool>) -> (res: Result<ReleaseResult>)
    ensures
        guard is None ==> before_operation(res) || exists|now_ms: i64, r: engine::Result<ReleaseResult>|
            is_clock_reading(now_ms) && res == surfaced(r) && #[trigger] call_ensures(engine::release_auto, (conn, name, owner, now_ms), r),
        guard matches Some(autocommit) ==> before_operation(res) || exists|now_ms: i64, r: engine::Result<ReleaseResult>|
            is_clock_reading(now_ms) && res == surfaced(r) && #[trigger] call_ensures(engine::release_in_tx_given, (conn, autocommit, name, owner, now_ms), r),
        surface_release_outcome(surface_view(res), owner@, guard),
{
    let now_ms = match system_now_ms() {
        Ok(n) => n,
        Err(e) => {
            return Err(e);
        },
    };
    let res = match guard {
        Some(autocommit) => engine::release_in_tx_given(conn, autocommit, name, owner, now_ms),
        None => engine::release_auto(conn, name, owner, now_ms),
    };
    proof {
        if !guard_refuses(guard) {
            assert(release_outcome(engine::result_view(res), owner@, now_ms));
        }
    }
    let out = match res {
        Ok(r) => Ok(r),
        Err(e) => Err(Error::Core(e)),
    };
    assert(out == surfaced(res));
    assert(is_clock_reading(now_ms));
    match guard {
        None => assert(call_ensures(engine::release_auto, (conn, name, owner, now_ms), res)),
        Some(autocommit) => assert(call_ensures(engine::release_in_tx_given, (conn, autocommit, name, owner, now_ms), res)),
    }
    out
}

/// Installing the schema on `conn`, with the core's answer handed on.
pub fn bootstrap_on(conn: &Connection) -> (res: Result<()>)
    ensures
        surface_bootstrap_outcome(res),
        exists|r: engine::Result<()>|
            #[trigger] call_ensures(engine::bootstrap_bouncer_schema, (conn,), r) && res == surfaced(r),
{
    let r = engine::bootstrap_bouncer_schema(conn);
    let out = match r {
        Ok(()) => Ok(()),
        Err(e) => Err(Error::Core(e)),
    };
    assert(out == surfaced(r));
    out
}

impl Bouncer {
    /// Opens the database file at `path` without touching its schema.
    pub fn open<P: AsRef<Path>>(path: P) -> (res: Result<Self>)
        ensures
            res matches Err(e) ==> e@ == SurfaceFault::Sqlite,
    {
        match sqlite::open_connection(path) {
            Ok(conn) => Ok(Self { conn }),
            Err(e) => Err(Error::Sqlite(e)),
        }
    }

    pub fn bootstrap(&self) -> (res: Result<()>)
        ensures
            call_ensures(bootstrap_on, (&self.conn,), res),
            surface_bootstrap_outcome(res),
    {
        bootstrap_on(&self.conn)
    }

    pub fn borrowed(&self) -> (res: BouncerRef<'_>)
        ensures
            res.connection() == &self.conn,
    {
        BouncerRef::new(&self.conn)
    }

    /// Begin a `BEGIN IMMEDIATE` transaction for atomic business writes
    /// plus lease mutations on this connection.
    pub fn transaction(&mut self) -> (res: Result<Transaction<'_>>)
        ensures
            res matches Err(e) ==> e@ == SurfaceFault::Sqlite,
            res matches Ok(t) ==> t.connection() == &old(self).conn,
    {
        let conn = &self.conn;
        match sqlite::begin_immediate(conn) {
            Ok(tx) => Ok(Transaction { conn, tx }),
            Err(e) => Err(Error::Sqlite(e)),
        }
    }

    pub fn inspect(&self, name: &str) -> (res: Result<Option<LeaseInfo>>)
        ensures
            call_ensures(inspect_at, (&self.conn, name), res),
            surface_inspect_outcome(inspect_view(res)),
    {
        self.borrowed().inspect(name)
    }

    pub fn claim(&self, name: &str, owner: &str, ttl: Duration) -> (res: Result<ClaimResult>)
        ensures
            call_ensures(clock_claim, (&self.conn, name, owner, ttl, None::<bool>), res),
            surface_claim_outcome(surface_view(res), name@, owner@, ttl, None),
    {
        self.borrowed().claim(name, owner, ttl)
    }

    pub fn renew(&self, name: &str, owner: &str, ttl: Duration) -> (res: Result<RenewResult>)
        ensures
            call_ensures(clock_renew, (&self.conn, name, owner, ttl, None::<bool>), res),
            surface_renew_outcome(surface_view(res), owner@, ttl, None),
    {
        self.borrowed().renew(name, owner, ttl)
    }

    pub fn release(&self, name: &str, owner: &str) -> (res: Result<ReleaseResult>)
        ensures
            call_ensures(clock_release, (&self.conn, name, owner, None::<bool>), res),
            surface_release_outcome(surface_view(res), owner@, None),
    {
        self.borrowed().release(name, owner)
    }
}

impl<'a> BouncerRef<'a> {
    pub fn new(conn: &'a Connection) -> (res: Self)
        ensures
            res.connection() == conn,
    {
        Self { conn }
    }

    pub fn bootstrap(&self) -> (res: Result<()>)
        ensures
            call_ensures(bootstrap_on, (self.connection(),), res),
            surface_bootstrap_outcome(res),
    {
        bootstrap_on(self.conn)
    }

    pub fn inspect(&self, name: &str) -> (res: Result<Option<LeaseInfo>>)
        ensures
            call_ensures(inspect_at, (self.connection(), name), res),
            surface_inspect_outcome(inspect_view(res)),
    {
        inspect_at(self.conn, name)
    }

    /// Claim with the system clock: in autocommit mode in a `BEGIN
    /// IMMEDIATE` transaction of its own, otherwise inside the caller's
    /// current transaction or savepoint.
    pub fn claim(&self, name: &str, owner: &str, ttl: Duration) -> (res: Result<ClaimResult>)
        ensures
            call_ensures(clock_claim, (self.connection(), name, owner, ttl, None::<bool>), res),
            surface_claim_outcome(surface_view(res), name@, owner@, ttl, None),
    {
        clock_claim(self.conn, name, owner, ttl, None)
    }

    /// Renew with the system clock, in the connection's current mode.
    pub fn renew(&self, name: &str, owner: &str, ttl: Duration) -> (res: Result<RenewResult>)
        ensures
            call_ensures(clock_renew, (self.connection(), name, owner, ttl, None::<bool>), res),
            surface_renew_outcome(surface_view(res), owner@, ttl, None),
    {
        clock_renew(self.conn, name, owner, ttl, None)
    }

    /// Release with the system clock, in the connection's current mode.
    pub fn release(&self, name: &str, owner: &str) -> (res: Result<ReleaseResult>)
        ensures
            call_ensures(clock_release, (self.connection(), name, owner, None::<bool>), res),
            surface_release_outcome(surface_view(res), owner@, None),
    {
        clock_release(self.conn, name, owner, None)
    }
}

impl<'db> Transaction<'db> {
    /// The connection the transaction runs on.
    pub closed spec fn connection(&self) -> &'db Connection {
        self.conn
    }

    /// The connection the transaction runs on, for business writes.
    pub fn conn(&self) -> (res: &Connection)
        ensures
            res == self.connection(),
    {
        self.conn
    }

    pub fn inspect(&self, name: &str) -> (res: Result<Option<LeaseInfo>>)
        ensures
            call_ensures(inspect_at, (self.connection(), name), res),
            surface_inspect_outcome(inspect_view(res)),
    {
        inspect_at(self.conn(), name)
    }

    /// Claim with the system clock inside this transaction.
    pub fn claim(&self, name: &str, owner: &str, ttl: Duration) -> (res: Result<ClaimResult>)
        ensures
            exists|autocommit: bool| #[trigger] call_ensures(clock_claim, (self.connection(), name, owner, ttl, Some(autocommit)), res),
            surface_claim_outcome(surface_view(res), name@, owner@, ttl, Some(true))
        || surface_claim_outcome(surface_view(res), name@, owner@, ttl, Some(false)),
    {
        clock_claim(self.conn(), name, owner, ttl, Some(sqlite::is_autocommit(self.conn())))
    }

    /// Renew with the system clock inside this transaction.
    pub fn renew(&self, name: &str, owner: &str, ttl: Duration) -> (res: Result<RenewResult>)
        ensures
            exists|autocommit: bool| #[trigger] call_ensures(clock_renew, (self.connection(), name, owner, ttl, Some(autocommit)), res),
            surface_renew_outcome(surface_view(res), owner@, ttl, Some(true))
        || surface_renew_outcome(surface_view(res), owner@, ttl, Some(false)),
    {
        clock_renew(self.conn(), name, owner, ttl, Some(sqlite::is_autocommit(self.conn())))
    }

    /// Release with the system clock inside this transaction.
    pub fn release(&self, name: &str, owner: &str) -> (res: Result<ReleaseResult>)
        ensures
            exists|autocommit: bool| #[trigger] call_ensures(clock_release, (self.connection(), name, owner, Some(autocommit)), res),
            surface_release_outcome(surface_view(res), owner@, Some(true))
        || surface_release_outcome(surface_view(res), owner@, Some(false)),
    {
        clock_release(self.conn(), name, owner, Some(sqlite::is_autocommit(self.conn())))
    }

    /// Opens a savepoint inside this transaction.
    pub fn savepoint(&mut self) -> (res: Result<Savepoint<'_>>)
        ensures
            res matches Err(e) ==> e@ == SurfaceFault::Sqlite,
            res matches Ok(sp) ==> sp.connection() == old(self).connection(),
    {
        let conn = self.conn;
        match sqlite::transaction_savepoint(&mut self.tx) {
            Ok(sp) => Ok(Savepoint { conn, sp }),
            Err(e) => Err(Error::Sqlite(e)),
        }
    }

    pub fn commit(self) -> (res: Result<()>)
        ensures
            res matches Err(e) ==> e@ == SurfaceFault::Sqlite,
    {
        match sqlite::commit(self.tx) {
            Ok(()) => Ok(()),
            Err(e) => Err(Error::Sqlite(e)),
        }
    }

    pub fn rollback(self) -> (res: Result<()>)
        ensures
            res matches Err(e) ==> e@ == SurfaceFault::Sqlite,
    {
        match sqlite::rollback(self.tx) {
            Ok(()) => Ok(()),
            Err(e) => Err(Error::Sqlite(e)),
        }
    }
}

impl<'db> Savepoint<'db> {
    /// The connection the savepoint runs on.
    pub closed spec fn connection(&self) -> &'db Connection {
        self.conn
    }

    /// The connection the savepoint runs on, for business writes.
    pub fn conn(&self) -> (res: &Connection)
        ensures
            res == self.connection(),
    {
        self.conn
    }

    pub fn inspect(&self, name: &str) -> (res: Result<Option<LeaseInfo>>)
        ensures
            call_ensures(inspect_at, (self.connection(), name), res),
            surface_inspect_outcome(inspect_view(res)),
    {
        inspect_at(self.conn(), name)
    }

    /// Claim with the system clock inside this savepoint.
    pub fn claim(&self, name: &str, owner: &str, ttl: Duration) -> (res: Result<ClaimResult>)
        ensures
            exists|autocommit: bool| #[trigger] call_ensures(clock_claim, (self.connection(), name, owner, ttl, Some(autocommit)), res),
            surface_claim_outcome(surface_view(res), name@, owner@, ttl, Some(true))
        || surface_claim_outcome(surface_view(res), name@, owner@, ttl, Some(false)),
    {
        clock_claim(self.conn(), name, owner, ttl, Some(sqlite::is_autocommit(self.conn())))
    }

    /// Renew with the system clock inside this savepoint.
    pub fn renew(&self, name: &str, owner: &str, ttl: Duration) -> (res: Result<RenewResult>)
        ensures
            exists|autocommit: bool| #[trigger] call_ensures(clock_renew, (self.connection(), name, owner, ttl, Some(autocommit)), res),
            surface_renew_outcome(surface_view(res), owner@, ttl, Some(true))
        || surface_renew_outcome(surface_view(res), owner@, ttl, Some(false)),
    {
        clock_renew(self.conn(), name, owner, ttl, Some(sqlite::is_autocommit(self.conn())))
    }

    /// Release with the system clock inside this savepoint.
    pub fn release(&self, name: &str, owner: &str) -> (res: Result<ReleaseResult>)
        ensures
            exists|autocommit: bool| #[trigger] call_ensures(clock_release, (self.connection(), name, owner, Some(autocommit)), res),
            surface_release_outcome(surface_view(res), owner@, Some(true))
        || surface_release_outcome(surface_view(res), owner@, Some(false)),
    {
        clock_release(self.conn(), name, owner, Some(sqlite::is_autocommit(self.conn())))
    }

    pub fn commit(self) -> (res: Result<()>)
        ensures
            res matches Err(e) ==> e@ == SurfaceFault::Sqlite,
    {
        match sqlite::savepoint_commit(self.sp) {
            Ok(()) => Ok(()),
            Err(e) => Err(Error::Sqlite(e)),
        }
    }

    /// Rolls the savepoint back and ends it.
    pub fn rollback(self) -> (res: Result<()>)
        ensures
            res matches Err(e) ==> e@ == SurfaceFault::Sqlite,
    {
        match sqlite::savepoint_finish(self.sp) {
            Ok(()) => Ok(()),
            Err(e) => Err(Error::Sqlite(e)),
        }
    }
}

} // verus!
