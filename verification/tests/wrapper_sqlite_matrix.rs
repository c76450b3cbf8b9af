use bouncer::engine;
use bouncer::engine::ClaimResult;
use bouncer::wrapper::{Bouncer, BouncerRef, Error};
use rusqlite::{Connection, ErrorCode};
use std::path::{Path, PathBuf};
use std::time::Duration;
use tempfile::TempDir;

const NAME: &str = "scheduler";
const OWNER_A: &str = "worker-a";
const TTL_MS: i64 = 500;

struct DbFile {
    _tempdir: TempDir,
    path: PathBuf,
}

impl DbFile {
    fn fresh() -> Self {
        let tempdir = tempfile::tempdir().expect("tempdir");
        let path = tempdir.path().join("bouncer.sqlite3");
        Self { _tempdir: tempdir, path }
    }
}

#[derive(Debug, PartialEq, Eq)]
enum Expect {
    Acquired,
}

fn open_conn(path: &Path, busy_timeout: Duration) -> Connection {
    let conn = Connection::open(path).expect("open sqlite connection");
    conn.busy_timeout(busy_timeout).expect("set busy timeout");
    conn.pragma_update(None, "journal_mode", "DELETE")
        .expect("set journal mode");
    engine::bootstrap_bouncer_schema(&conn).expect("bootstrap bouncer schema");
    conn
}

fn assert_wrapper_claim(result: Result<ClaimResult, Error>, expect: Expect) {
    match (result, expect) {
        (Ok(ClaimResult::Acquired(_)), Expect::Acquired) => {}
        (other, expected) => panic!("expected {expected:?}, got {other:?}"),
    }
}

fn sqlite_error_is_busy_or_locked(err: &rusqlite::Error) -> bool {
    match err {
        rusqlite::Error::SqliteFailure(sqlite_err, _) => matches!(
            sqlite_err.code,
            ErrorCode::DatabaseBusy | ErrorCode::DatabaseLocked
        ),
        _ => false,
    }
}

fn assert_no_row(conn: &Connection) {
    let row_count: i64 = conn
        .query_row(
            "SELECT COUNT(*) FROM bouncer_resources WHERE name = ?1",
            [NAME],
            |row| row.get(0),
        )
        .expect("count bouncer row");
    assert_eq!(row_count, 0);
}

fn assert_raw_row(conn: &Connection, expected_owner: &str, expected_token: i64) {
    let row = conn
        .query_row(
            "SELECT owner, token FROM bouncer_resources WHERE name = ?1",
            [NAME],
            |row| Ok((row.get::<_, Option<String>>(0)?, row.get::<_, i64>(1)?)),
        )
        .expect("read bouncer row");

    assert_eq!(row, (Some(expected_owner.to_owned()), expected_token));
}

#[test]
fn wrapper_transaction_claims_writer_intent_up_front() {
    let db = DbFile::fresh();
    let mut wrapper_a = Bouncer::open(&db.path).expect("open wrapper_a");
    wrapper_a.bootstrap().expect("bootstrap wrapper_a");
    let contender = open_conn(&db.path, Duration::from_millis(0));

    let tx_a = wrapper_a.transaction().expect("begin immediate wrapper tx");
    assert_wrapper_claim(
        tx_a.claim(NAME, OWNER_A, Duration::from_millis(TTL_MS as u64)),
        Expect::Acquired,
    );

    let err = contender
        .execute_batch("BEGIN IMMEDIATE")
        .expect_err("contending writer should fail before bouncer mutation");
    assert!(
        sqlite_error_is_busy_or_locked(&err),
        "expected busy/locked sqlite tx error, got {err:?}"
    );

    tx_a.rollback().expect("rollback wrapper_a tx");
    assert_no_row(&contender);
}

#[test]
fn litelease_ref_savepoint_participates_in_caller_owned_boundary() {
    let db = DbFile::fresh();
    let conn = open_conn(&db.path, Duration::from_millis(0));
    let borrowed = BouncerRef::new(&conn);

    conn.execute_batch("BEGIN").expect("begin outer transaction");
    conn.execute_batch("SAVEPOINT lease_ops").expect("open savepoint");
    assert_wrapper_claim(
        borrowed.claim(NAME, OWNER_A, Duration::from_millis(TTL_MS as u64)),
        Expect::Acquired,
    );

    conn.execute_batch("ROLLBACK TO lease_ops").expect("rollback savepoint");
    conn.execute_batch("RELEASE lease_ops").expect("release savepoint");
    conn.execute_batch("COMMIT").expect("commit outer transaction");

    assert_no_row(&conn);
}

#[test]
fn wrapper_typed_savepoint_commit_participates_in_transaction_boundary() {
    let db = DbFile::fresh();
    let mut wrapper = Bouncer::open(&db.path).expect("open wrapper");
    wrapper.bootstrap().expect("bootstrap wrapper");

    let mut tx = wrapper.transaction().expect("begin wrapper transaction");
    let sp = tx.savepoint().expect("open wrapper savepoint");
    assert_wrapper_claim(
        sp.claim(NAME, OWNER_A, Duration::from_millis(TTL_MS as u64)),
        Expect::Acquired,
    );
    sp.commit().expect("commit wrapper savepoint");
    tx.commit().expect("commit wrapper transaction");

    let observer = open_conn(&db.path, Duration::from_millis(0));
    assert_raw_row(&observer, OWNER_A, 1);
}

#[test]
fn user_journey_007_drifted_schema_fails_loudly() {
    let db = DbFile::fresh();
    let conn = Connection::open(&db.path).expect("open fresh connection");

    conn.execute_batch(
        "CREATE TABLE bouncer_resources (
           name TEXT PRIMARY KEY,
           owner TEXT,
           token INTEGER NOT NULL,
           lease_expires_at_ms INTEGER,
           created_at_ms INTEGER NOT NULL
         );",
    )
    .expect("create drifted schema");

    let wrapper = Bouncer::open(&db.path).expect("open wrapper");
    let err = wrapper
        .bootstrap()
        .expect_err("wrapper bootstrap should fail on drifted schema");
    let text = format!("{err:?}");
    assert!(
        text.contains("schema mismatch") || text.contains("SchemaMismatch"),
        "wrapper should report SchemaMismatch, got: {text}"
    );
}
