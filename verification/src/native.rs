//! The owned-connection handle behind the Python binding. It keeps one flag,
//! whether a caller transaction is open, and gates every verb on it: the
//! top-level verbs run only outside a transaction (each in its own `BEGIN
//! IMMEDIATE`), the transaction verbs only inside one.
use crate::engine::{self, ClaimResult, LeaseInfo, ReleaseResult, RenewResult};
use crate::model::{
    claim_outcome, inspect_outcome, release_outcome, renew_outcome, ClaimView, Fault, LeaseView,
    ReleaseView, RenewView,
};
use crate::sqlite;
use crate::clock::is_clock_reading;
use crate::wrapper::{self, clock_fault, SurfaceFault};
use rusqlite::Connection;
use vstd::prelude::*;

verus! {

#[derive(Debug)]
pub enum NativeError {
    /// Opening the database or running a transaction statement failed.
    Sqlite(rusqlite::Error),
    /// A lease operation failed.
    Core(engine::Error),
    /// The system clock could not be read as `i64` milliseconds.
    Clock(wrapper::Error),
    /// A top-level verb was called while a transaction is open.
    TransactionActive,
    /// A transaction verb was called with no transaction open.
    TransactionNotActive,
}

pub enum NativeFault {
    Sqlite,
    Core(Fault),
    Clock(SurfaceFault),
    TransactionActive,
    TransactionNotActive,
}

impl View for NativeError {
    type V = NativeFault;

    open spec fn view(&self) -> NativeFault {
        match self {
            NativeError::Sqlite(_) => NativeFault::Sqlite,
            NativeError::Core(e) => NativeFault::Core(e@),
            NativeError::Clock(e) => NativeFault::Clock(e@),
            NativeError::TransactionActive => NativeFault::TransactionActive,
            NativeError::TransactionNotActive => NativeFault::TransactionNotActive,
        }
    }
}

pub open spec fn native_view<T: View>(r: core::result::Result<T, NativeError>) -> core::result::Result<
    T::V,
    NativeFault,
> {
    match r {
        Ok(v) => Ok(v@),
        Err(e) => Err(e@),
    }
}

pub open spec fn unit_view(r: core::result::Result<(), NativeError>) -> core::result::Result<
    (),
    NativeFault,
> {
    match r {
        Ok(()) => Ok(()),
        Err(e) => Err(e@),
    }
}

pub open spec fn native_inspect_view(r: core::result::Result<Option<LeaseInfo>, NativeError>) -> core::result::Result<
    Option<LeaseView>,
    NativeFault,
> {
    match r {
        Ok(o) => Ok(engine::lease_opt_view(o)),
        Err(e) => Err(e@),
    }
}

/// What a handle method answers: `refusal` when the transaction state does
/// not allow the method (`refused`), and otherwise a clock failure or what
/// the lease operation answers at some clock reading.
pub open spec fn gated<T>(
    res: core::result::Result<T, NativeFault>,
    refused: bool,
    refusal: NativeFault,
    core_answer: spec_fn(core::result::Result<T, Fault>) -> bool,
) -> bool {
    if refused {
        res == Err::<T, NativeFault>(refusal)
    } else {
        match res {
            Ok(v) => core_answer(Ok(v)),
            Err(NativeFault::Core(f)) => core_answer(Err(f)),
            Err(NativeFault::Clock(f)) => clock_fault(f),
            Err(_) => false,
        }
    }
}

/// The statements that open and close the handle's caller transaction.
#[derive(Clone, Copy, Debug, PartialEq, Eq)]
pub enum TxControl {
    /// Opens a transaction that takes the write lock at once.
    Begin,
    Commit,
    Rollback,
}

pub open spec fn tx_control_sql_spec(c: TxControl) -> Seq<char> {
    match c {
        TxControl::Begin => "BEGIN IMMEDIATE"@,
        TxControl::Commit => "COMMIT"@,
        TxControl::Rollback => "ROLLBACK"@,
    }
}

/// The statement text for `c`.
pub fn tx_control_statement(c: TxControl) -> (res: &'static str)
    ensures
        res@ == tx_control_sql_spec(c),
{
    match c {
        TxControl::Begin => "BEGIN IMMEDIATE",
        TxControl::Commit => "COMMIT",
        TxControl::Rollback => "ROLLBACK",
    }
}

/// A lease operation's answer as the handle hands it on.
pub open spec fn lifted<T>(r: engine::Result<T>) -> core::result::Result<T, NativeError> {
    match r {
        Ok(v) => Ok(v),
        Err(e) => Err(NativeError::Core(e)),
    }
}

pub struct NativeBouncer {
    conn: Connection,
    transaction_active: bool,
}

impl NativeBouncer {
    /// The connection the handle owns.
    pub closed spec fn connection(&self) -> &Connection {
        &self.conn
    }

    /// Whether a caller transaction is open on the handle.
    pub closed spec fn in_transaction(&self) -> bool {
        self.transaction_active
    }

    /// Opens the database file at `path`, with no transaction open.
    pub fn new(path: String) -> (res: core::result::Result<Self, NativeError>)
        ensures
            res matches Ok(h) ==> !h.in_transaction(),
            res matches Err(e) ==> e@ == NativeFault::Sqlite,
    {
        match sqlite::open_connection(path) {
            Ok(conn) => Ok(Self { conn, transaction_active: false }),
            Err(e) => Err(NativeError::Sqlite(e)),
        }
    }

    pub fn transaction_active(&self) -> (res: bool)
        ensures
            res == self.in_transaction(),
    {
        self.transaction_active
    }

    /// The connection, for a statement inside the open transaction.
    pub fn transaction_connection(&self) -> (res: core::result::Result<&Connection, NativeError>)
        ensures
            res is Err <==> !self.in_transaction(),
            res matches Err(e) ==> e@ == NativeFault::TransactionNotActive,
    {
        match self.ensure_active_transaction() {
            Ok(()) => Ok(&self.conn),
            Err(e) => Err(e),
        }
    }

    fn ensure_no_active_transaction(&self) -> (res: core::result::Result<(), NativeError>)
        ensures
            res is Err <==> self.in_transaction(),
            res matches Err(e) ==> e@ == NativeFault::TransactionActive,
    {
        if self.transaction_active {
            return Err(NativeError::TransactionActive);
        }
        Ok(())
    }

    fn ensure_active_transaction(&self) -> (res: core::result::Result<(), NativeError>)
        ensures
            res is Err <==> !self.in_transaction(),
            res matches Err(e) ==> e@ == NativeFault::TransactionNotActive,
    {
        if !self.transaction_active {
            return Err(NativeError::TransactionNotActive);
        }
        Ok(())
    }

    fn now_ms(&self) -> (res: core::result::Result<i64, NativeError>)
        ensures
            res matches Err(e) ==> e@ matches NativeFault::Clock(f) && clock_fault(f),
            res matches Ok(n) ==> is_clock_reading(n),
    {
        match wrapper::system_now_ms() {
            Ok(n) => Ok(n),
            Err(e) => Err(NativeError::Clock(e)),
        }
    }

    pub fn bootstrap(&self) -> (res: core::result::Result<(), NativeError>)
        ensures
            res matches Err(e) ==> e@ is Core && engine::bootstrap_outcome(Err(e@->Core_0)),
            exists|r: engine::Result<()>|
                #[trigger] call_ensures(engine::bootstrap_bouncer_schema, (self.connection(),), r) && res == lifted(r),
    {
        let r = engine::bootstrap_bouncer_schema(&self.conn);
        let out = match r {
            Ok(()) => Ok(()),
            Err(e) => Err(NativeError::Core(e)),
        };
        assert(out == lifted(r));
        assert(call_ensures(engine::bootstrap_bouncer_schema, (self.connection(),), r));
        out
    }

    /// The live lease of `name` now; refused while a transaction is open.
    pub fn inspect(&self, name: &str) -> (res: core::result::Result<Option<LeaseInfo>, NativeError>)
        ensures
            !self.in_transaction() ==> res matches Err(NativeError::Clock(_)) || exists|now_ms: i64, r: engine::Result<Option<LeaseInfo>>|
                is_clock_reading(now_ms) && #[trigger] call_ensures(engine::inspect, (self.connection(), name, now_ms), r)
                && res == lifted(r),
            gated(
                native_inspect_view(res),
                self.in_transaction(),
                NativeFault::TransactionActive,
                |a: core::result::Result<Option<LeaseView>, Fault>|
                    exists|now_ms: i64| #[trigger] inspect_outcome(a, now_ms) && is_clock_reading(now_ms),
            ),
    {
        match self.ensure_no_active_transaction() {
            Ok(()) => {},
            Err(e) => {
                return Err(e);
            },
        }
        self.read_lease(name)
    }

    /// The live lease of `name` now; only inside the open transaction.
    pub fn inspect_in_transaction(&self, name: &str) -> (res: core::result::Result<
        Option<LeaseInfo>,
        NativeError,
    >)
        ensures
            self.in_transaction() ==> res matches Err(NativeError::Clock(_)) || exists|now_ms: i64, r: engine::Result<Option<LeaseInfo>>|
                is_clock_reading(now_ms) && #[trigger] call_ensures(engine::inspect, (self.connection(), name, now_ms), r)
                && res == lifted(r),
            gated(
                native_inspect_view(res),
                !self.in_transaction(),
                NativeFault::TransactionNotActive,
                |a: core::result::Result<Option<LeaseView>, Fault>|
                    exists|now_ms: i64| #[trigger] inspect_outcome(a, now_ms) && is_clock_reading(now_ms),
            ),
    {
        match self.ensure_active_transaction() {
            Ok(()) => {},
            Err(e) => {
                return Err(e);
            },
        }
        self.read_lease(name)
    }

    fn read_lease(&self, name: &str) -> (res: core::result::Result<Option<LeaseInfo>, NativeError>)
        ensures
            true ==> res matches Err(NativeError::Clock(_)) || exists|now_ms: i64, r: engine::Result<Option<LeaseInfo>>|
                is_clock_reading(now_ms) && #[trigger] call_ensures(engine::inspect, (self.connection(), name, now_ms), r)
                && res == lifted(r),
            gated(
                native_inspect_view(res),
                false,
                NativeFault::TransactionActive,
                |a: core::result::Result<Option<LeaseView>, Fault>|
                    exists|now_ms: i64| #[trigger] inspect_outcome(a, now_ms) && is_clock_reading(now_ms),
            ),
    {
        let now_ms = match self.now_ms() {
            Ok(n) => n,
            Err(e) => {
                return Err(e);
            },
        };
        let res = engine::inspect(&self.conn, name, now_ms);
        assert(inspect_outcome(engine::opt_lease_result_view(res), now_ms));
        let out = match res {
            Ok(o) => Ok(o),
            Err(e) => Err(NativeError::Core(e)),
        };
        assert(call_ensures(engine::inspect, (self.connection(), name, now_ms), res));
        assert(is_clock_reading(now_ms));
        assert(out == lifted(res));
        out
    }

    /// Claim `name` for `owner` now, in a transaction of its own; refused
    /// while a transaction is open.
    pub fn claim(&self, name: &str, owner: &str, ttl_ms: i64) -> (res: core::result::Result<
        ClaimResult,
        NativeError,
    >)
        ensures
            !self.in_transaction() ==> res matches Err(NativeError::Clock(_)) || exists|now_ms: i64, r: engine::Result<ClaimResult>|
                is_clock_reading(now_ms) && #[trigger] call_ensures(engine::claim, (self.connection(), name, owner, now_ms, ttl_ms), r)
                && res == lifted(r),
            gated(
                native_view(res),
                self.in_transaction(),
                NativeFault::TransactionActive,
                |a: core::result::Result<ClaimView, Fault>|
                    exists|now_ms: i64| #[trigger] claim_outcome(a, name@, owner@, now_ms, ttl_ms) && is_clock_reading(now_ms),
            ),
    {
        match self.ensure_no_active_transaction() {
            Ok(()) => {},
            Err(e) => {
                return Err(e);
            },
        }
        let now_ms = match self.now_ms() {
            Ok(n) => n,
            Err(e) => {
                return Err(e);
            },
        };
        let res = engine::claim(&self.conn, name, owner, now_ms, ttl_ms);
        assert(claim_outcome(engine::result_view(res), name@, owner@, now_ms, ttl_ms));
        let out = match res {
            Ok(r) => Ok(r),
            Err(e) => Err(NativeError::Core(e)),
        };
        assert(call_ensures(engine::claim, (self.connection(), name, owner, now_ms, ttl_ms), res));
        assert(is_clock_reading(now_ms));
        assert(out == lifted(res));
        out
    }

    /// Claim `name` for `owner` now, inside the open transaction.
    pub fn claim_in_transaction(&self, name: &str, owner: &str, ttl_ms: i64) -> (res:
        core::result::Result<ClaimResult, NativeError>)
        ensures
            self.in_transaction() ==> res matches Err(NativeError::Clock(_)) || exists|now_ms: i64, autocommit: bool, r: engine::Result<ClaimResult>|
                is_clock_reading(now_ms) && #[trigger] call_ensures(engine::claim_in_tx_given, (self.connection(), autocommit, name, owner, now_ms, ttl_ms), r)
                && res == lifted(r),
            gated(
                native_view(res),
                !self.in_transaction(),
                NativeFault::TransactionNotActive,
                |a: core::result::Result<ClaimView, Fault>|
                    a == Err::<ClaimView, Fault>(Fault::NotInTransaction) || exists|now_ms: i64|
                        #[trigger] claim_outcome(a, name@, owner@, now_ms, ttl_ms) && is_clock_reading(now_ms),
            ),
    {
        match self.ensure_active_transaction() {
            Ok(()) => {},
            Err(e) => {
                return Err(e);
            },
        }
        let now_ms = match self.now_ms() {
            Ok(n) => n,
            Err(e) => {
                return Err(e);
            },
        };
        let ac = sqlite::is_autocommit(&self.conn);
        let res = engine::claim_in_tx_given(
            &self.conn,
            ac,
            name,
            owner,
            now_ms,
            ttl_ms,
        );
        proof {
            if engine::result_view(res) != Err::<ClaimView, Fault>(Fault::NotInTransaction) {
                assert(claim_outcome(engine::result_view(res), name@, owner@, now_ms, ttl_ms));
            }
        }
        let out = match res {
            Ok(r) => Ok(r),
            Err(e) => Err(NativeError::Core(e)),
        };
        assert(call_ensures(engine::claim_in_tx_given, (self.connection(), ac, name, owner, now_ms, ttl_ms), res));
        assert(is_clock_reading(now_ms));
        assert(out == lifted(res));
        out
    }

    /// Renew the lease of `name` for `owner` now, in a transaction of its
    /// own; refused while a transaction is open.
    pub fn renew(&self, name: &str, owner: &str, ttl_ms: i64) -> (res: core::result::Result<
        RenewResult,
        NativeError,
    >)
        ensures
            !self.in_transaction() ==> res matches Err(NativeError::Clock(_)) || exists|now_ms: i64, r: engine::Result<RenewResult>|
                is_clock_reading(now_ms) && #[trigger] call_ensures(engine::renew, (self.connection(), name, owner, now_ms, ttl_ms), r)
                && res == lifted(r),
            gated(
                native_view(res),
                self.in_transaction(),
                NativeFault::TransactionActive,
                |a: core::result::Result<RenewView, Fault>|
                    exists|now_ms: i64| #[trigger] renew_outcome(a, owner@, now_ms, ttl_ms) && is_clock_reading(now_ms),
            ),
    {
        match self.ensure_no_active_transaction() {
            Ok(()) => {},
            Err(e) => {
                return Err(e);
            },
        }
        let now_ms = match self.now_ms() {
            Ok(n) => n,
            Err(e) => {
                return Err(e);
            },
        };
        let res = engine::renew(&self.conn, name, owner, now_ms, ttl_ms);
        assert(renew_outcome(engine::result_view(res), owner@, now_ms, ttl_ms));
        let out = match res {
            Ok(r) => Ok(r),
            Err(e) => Err(NativeError::Core(e)),
        };
        assert(call_ensures(engine::renew, (self.connection(), name, owner, now_ms, ttl_ms), res));
        assert(is_clock_reading(now_ms));
        assert(out == lifted(res));
        out
    }

    /// Renew the lease of `name` for `owner` now, inside the open
    /// transaction.
    pub fn renew_in_transaction(&self, name: &str, owner: &str, ttl_ms: i64) -> (res:
        core::result::Result<RenewResult, NativeError>)
        ensures
            self.in_transaction() ==> res matches Err(NativeError::Clock(_)) || exists|now_ms: i64, autocommit: bool, r: engine::Result<RenewResult>|
                is_clock_reading(now_ms) && #[trigger] call_ensures(engine::renew_in_tx_given, (self.connection(), autocommit, name, owner, now_ms, ttl_ms), r)
                && res == lifted(r),
            gated(
                native_view(res),
                !self.in_transaction(),
                NativeFault::TransactionNotActive,
                |a: core::result::Result<RenewView, Fault>|
                    a == Err::<RenewView, Fault>(Fault::NotInTransaction) || exists|now_ms: i64|
                        #[trigger] renew_outcome(a, owner@, now_ms, ttl_ms) && is_clock_reading(now_ms),
            ),
    {
        match self.ensure_active_transaction() {
            Ok(()) => {},
            Err(e) => {
                return Err(e);
            },
        }
        let now_ms = match self.now_ms() {
            Ok(n) => n,
            Err(e) => {
                return Err(e);
            },
        };
        let ac = sqlite::is_autocommit(&self.conn);
        let res = engine::renew_in_tx_given(
            &self.conn,
            ac,
            name,
            owner,
            now_ms,
            ttl_ms,
        );
        proof {
            if engine::result_view(res) != Err::<RenewView, Fault>(Fault::NotInTransaction) {
                assert(renew_outcome(engine::result_view(res), owner@, now_ms, ttl_ms));
            }
        }
        let out = match res {
            Ok(r) => Ok(r),
            Err(e) => Err(NativeError::Core(e)),
        };
        assert(call_ensures(engine::renew_in_tx_given, (self.connection(), ac, name, owner, now_ms, ttl_ms), res));
        assert(is_clock_reading(now_ms));
        assert(out == lifted(res));
        out
    }

    /// Release the lease of `name` held by `owner` now, in a transaction of
    /// its own; refused while a transaction is open.
    pub fn release(&self, name: &str, owner: &str) -> (res: core::result::Result<
        ReleaseResult,
        NativeError,
    >)
        ensures
            !self.in_transaction() ==> res matches Err(NativeError::Clock(_)) || exists|now_ms: i64, r: engine::Result<ReleaseResult>|
                is_clock_reading(now_ms) && #[trigger] call_ensures(engine::release, (self.connection(), name, owner, now_ms), r)
                && res == lifted(r),
            gated(
                native_view(res),
                self.in_transaction(),
                NativeFault::TransactionActive,
                |a: core::result::Result<ReleaseView, Fault>|
                    exists|now_ms: i64| #[trigger] release_outcome(a, owner@, now_ms) && is_clock_reading(now_ms),
            ),
    {
        match self.ensure_no_active_transaction() {
            Ok(()) => {},
            Err(e) => {
                return Err(e);
            },
        }
        let now_ms = match self.now_ms() {
            Ok(n) => n,
            Err(e) => {
                return Err(e);
            },
        };
        let res = engine::release(&self.conn, name, owner, now_ms);
        assert(release_outcome(engine::result_view(res), owner@, now_ms));
        let out = match res {
            Ok(r) => Ok(r),
            Err(e) => Err(NativeError::Core(e)),
        };
        assert(call_ensures(engine::release, (self.connection(), name, owner, now_ms), res));
        assert(is_clock_reading(now_ms));
        assert(out == lifted(res));
        out
    }

    /// Release the lease of `name` held by `owner` now, inside the open
    /// transaction.
    pub fn release_in_transaction(&self, name: &str, owner: &str) -> (res: core::result::Result<
        ReleaseResult,
        NativeError,
    >)
        ensures
            self.in_transaction() ==> res matches Err(NativeError::Clock(_)) || exists|now_ms: i64, autocommit: bool, r: engine::Result<ReleaseResult>|
                is_clock_reading(now_ms) && #[trigger] call_ensures(engine::release_in_tx_given, (self.connection(), autocommit, name, owner, now_ms), r)
                && res == lifted(r),
            gated(
                native_view(res),
                !self.in_transaction(),
                NativeFault::TransactionNotActive,
                |a: core::result::Result<ReleaseView, Fault>|
                    a == Err::<ReleaseView, Fault>(Fault::NotInTransaction) || exists|now_ms: i64|
                        #[trigger] release_outcome(a, owner@, now_ms) && is_clock_reading(now_ms),
            ),
    {
        match self.ensure_active_transaction() {
            Ok(()) => {},
            Err(e) => {
                return Err(e);
            },
        }
        let now_ms = match self.now_ms() {
            Ok(n) => n,
            Err(e) => {
                return Err(e);
            },
        };
        let ac = sqlite::is_autocommit(&self.conn);
        let res = engine::release_in_tx_given(
            &self.conn,
            ac, name, owner, now_ms);
        proof {
            if engine::result_view(res) != Err::<ReleaseView, Fault>(Fault::NotInTransaction) {
                assert(release_outcome(engine::result_view(res), owner@, now_ms));
            }
        }
        let out = match res {
            Ok(r) => Ok(r),
            Err(e) => Err(NativeError::Core(e)),
        };
        assert(call_ensures(engine::release_in_tx_given, (self.connection(), ac, name, owner, now_ms), res));
        assert(is_clock_reading(now_ms));
        assert(out == lifted(res));
        out
    }

    /// Opens a `BEGIN IMMEDIATE` transaction; refused while one is open.
    pub fn begin_transaction(&mut self) -> (res: core::result::Result<(), NativeError>)
        ensures
            res is Ok ==> exists|sql: &str, done: core::result::Result<(), rusqlite::Error>|
                done is Ok && sql@ == tx_control_sql_spec(TxControl::Begin) && #[trigger] call_ensures(
                    sqlite::execute_batch,
                    (old(self).connection(), sql),
                    done,
                ),
            old(self).in_transaction() ==> unit_view(res) == Err::<(), NativeFault>(
                NativeFault::TransactionActive,
            ),
            res is Ok ==> final(self).in_transaction(),
            res is Err ==> final(self).in_transaction() == old(self).in_transaction(),
            !old(self).in_transaction() ==> res is Ok || unit_view(res) == Err::<(), NativeFault>(
                NativeFault::Sqlite,
            ),
    {
        match self.ensure_no_active_transaction() {
            Ok(()) => {},
            Err(e) => {
                return Err(e);
            },
        }
        let sql = tx_control_statement(TxControl::Begin);
        let done = sqlite::execute_batch(&self.conn, sql);
        assert(call_ensures(sqlite::execute_batch, (old(self).connection(), sql), done));
        match done {
            Ok(()) => {},
            Err(e) => {
                return Err(NativeError::Sqlite(e));
            },
        }
        self.transaction_active = true;
        Ok(())
    }

    /// Commits the open transaction; refused when none is open. On a failed
    /// `COMMIT` the transaction stays open.
    pub fn commit_transaction(&mut self) -> (res: core::result::Result<(), NativeError>)
        ensures
            res is Ok ==> exists|sql: &str, done: core::result::Result<(), rusqlite::Error>|
                done is Ok && sql@ == tx_control_sql_spec(TxControl::Commit) && #[trigger] call_ensures(
                    sqlite::execute_batch,
                    (old(self).connection(), sql),
                    done,
                ),
            !old(self).in_transaction() ==> unit_view(res) == Err::<(), NativeFault>(
                NativeFault::TransactionNotActive,
            ),
            res is Ok ==> !final(self).in_transaction(),
            res is Err ==> final(self).in_transaction() == old(self).in_transaction(),
            old(self).in_transaction() ==> res is Ok || unit_view(res) == Err::<(), NativeFault>(
                NativeFault::Sqlite,
            ),
    {
        match self.ensure_active_transaction() {
            Ok(()) => {},
            Err(e) => {
                return Err(e);
            },
        }
        let sql = tx_control_statement(TxControl::Commit);
        let done = sqlite::execute_batch(&self.conn, sql);
        assert(call_ensures(sqlite::execute_batch, (old(self).connection(), sql), done));
        match done {
            Ok(()) => {},
            Err(e) => {
                return Err(NativeError::Sqlite(e));
            },
        }
        self.transaction_active = false;
        Ok(())
    }

    /// Rolls the open transaction back; refused when none is open.
    pub fn rollback_transaction(&mut self) -> (res: core::result::Result<(), NativeError>)
        ensures
            res is Ok ==> exists|sql: &str, done: core::result::Result<(), rusqlite::Error>|
                done is Ok && sql@ == tx_control_sql_spec(TxControl::Rollback) && #[trigger] call_ensures(
                    sqlite::execute_batch,
                    (old(self).connection(), sql),
                    done,
                ),
            !old(self).in_transaction() ==> unit_view(res) == Err::<(), NativeFault>(
                NativeFault::TransactionNotActive,
            ),
            res is Ok ==> !final(self).in_transaction(),
            res is Err ==> final(self).in_transaction() == old(self).in_transaction(),
            old(self).in_transaction() ==> res is Ok || unit_view(res) == Err::<(), NativeFault>(
                NativeFault::Sqlite,
            ),
    {
        match self.ensure_active_transaction() {
            Ok(()) => {},
            Err(e) => {
                return Err(e);
            },
        }
        let sql = tx_control_statement(TxControl::Rollback);
        let done = sqlite::execute_batch(&self.conn, sql);
        assert(call_ensures(sqlite::execute_batch, (old(self).connection(), sql), done));
        match done {
            Ok(()) => {},
            Err(e) => {
                return Err(NativeError::Sqlite(e));
            },
        }
        self.transaction_active = false;
        Ok(())
    }

    /// Rolls back a transaction left open, as the handle goes away; the
    /// outcome of that `ROLLBACK` is not reported.
    pub fn abandon(&mut self)
        ensures
            !final(self).in_transaction(),
    {
        if self.transaction_active {
            let _ = sqlite::execute_batch(&self.conn, tx_control_statement(TxControl::Rollback));
            self.transaction_active = false;
        }
    }
}

/// The fields of a claim answer as the binding hands it out: whether it was
/// acquired, the acquired lease, and the lease that holds the resource.
#[derive(Debug, PartialEq, Eq)]
pub struct ClaimRecord {
    pub acquired: bool,
    pub lease: Option<LeaseInfo>,
    pub current: Option<LeaseInfo>,
}

/// The fields of a renewal answer as the binding hands it out.
#[derive(Debug, PartialEq, Eq)]
pub struct RenewRecord {
    pub renewed: bool,
    pub lease: Option<LeaseInfo>,
    pub current: Option<LeaseInfo>,
}

/// The fields of a release answer as the binding hands it out: the name is
/// the released lease's, or the requested one when nothing was released.
#[derive(Debug, PartialEq, Eq)]
pub struct ReleaseRecord {
    pub released: bool,
    pub name: String,
    pub token: Option<i64>,
    pub current: Option<LeaseInfo>,
}

pub fn claim_record(result: ClaimResult) -> (res: ClaimRecord)
    ensures
        match result@ {
            ClaimView::Acquired(l) => res.acquired && engine::lease_opt_view(res.lease) == Some(l)
                && res.current is None,
            ClaimView::Busy(l) => !res.acquired && res.lease is None && engine::lease_opt_view(
                res.current,
            ) == Some(l),
        },
{
    match result {
        ClaimResult::Acquired(lease) => ClaimRecord { acquired: true, lease: Some(lease), current: None },
        ClaimResult::Busy(current) => ClaimRecord {
            acquired: false,
            lease: None,
            current: Some(current),
        },
    }
}

pub fn renew_record(result: RenewResult) -> (res: RenewRecord)
    ensures
        match result@ {
            RenewView::Renewed(l) => res.renewed && engine::lease_opt_view(res.lease) == Some(l)
                && res.current is None,
            RenewView::Rejected(c) => !res.renewed && res.lease is None && engine::lease_opt_view(
                res.current,
            ) == c,
        },
{
    match result {
        RenewResult::Renewed(lease) => RenewRecord { renewed: true, lease: Some(lease), current: None },
        RenewResult::Rejected { current } => RenewRecord { renewed: false, lease: None, current },
    }
}

pub fn release_record(requested_name: &str, result: ReleaseResult) -> (res: ReleaseRecord)
    ensures
        match result@ {
            ReleaseView::Released { name, token } => res.released && res.name@ == name && res.token
                == Some(token) && res.current is None,
            ReleaseView::Rejected(c) => !res.released && res.name@ == requested_name@ && res.token is None
                && engine::lease_opt_view(res.current) == c,
        },
{
    match result {
        ReleaseResult::Released { name, token } => ReleaseRecord {
            released: true,
            name,
            token: Some(token),
            current: None,
        },
        ReleaseResult::Rejected { current } => ReleaseRecord {
            released: false,
            name: requested_name.to_owned(),
            token: None,
            current,
        },
    }
}

} // verus!
