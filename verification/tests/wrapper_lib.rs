use bouncer::engine;
use bouncer::engine::{ClaimResult, ReleaseResult, RenewResult};
use bouncer::wrapper::{Bouncer, Error};
use rusqlite::Connection;
use std::time::{Duration, SystemTime, UNIX_EPOCH};
use tempfile::TempDir;


/// Waits until `span` has passed on the monotonic clock.
fn wait_for(span: Duration) {
    let start = std::time::Instant::now();
    while start.elapsed() < span {
        std::hint::spin_loop();
    }
}

fn open_wrapper_db() -> (TempDir, Bouncer) {
    let tempdir = tempfile::tempdir().expect("tempdir");
    let db_path = tempdir.path().join("bouncer.sqlite3");
    let wrapper = Bouncer::open(&db_path).expect("open wrapper db");
    (tempdir, wrapper)
}

fn configure_test_connection(conn: &Connection) {
    // Test-only harness config for multi-connection reliability.
    conn.pragma_update(None, "journal_mode", "WAL")
        .expect("set WAL mode");
    conn.busy_timeout(Duration::from_secs(1))
        .expect("set busy timeout");
}

fn core_missing_schema_error(err: &Error) -> bool {
    match err {
        Error::Core(engine::Error::Sqlite(rusqlite::Error::SqliteFailure(_, Some(message)))) => {
            message.contains("no such table") && message.contains("bouncer_resources")
        }
        _ => false,
    }
}

fn system_now_for_core() -> i64 {
    let millis = SystemTime::now()
        .duration_since(UNIX_EPOCH)
        .expect("system time after unix epoch")
        .as_millis();
    i64::try_from(millis).expect("time fits in i64 milliseconds")
}

fn create_business_table(conn: &Connection) {
    conn.execute_batch(
        "CREATE TABLE business_events (
           id INTEGER PRIMARY KEY,
           note TEXT NOT NULL
         );",
    )
    .expect("create business_events");
}

fn business_event_count(conn: &Connection) -> i64 {
    conn.query_row("SELECT COUNT(*) FROM business_events", [], |row| row.get(0))
        .expect("count business events")
}

#[test]
fn open_does_not_bootstrap_implicitly() {
    let (_tempdir, wrapper) = open_wrapper_db();

    let err = wrapper
        .claim("scheduler", "worker-a", Duration::from_secs(1))
        .expect_err("claim before bootstrap should fail");

    assert!(core_missing_schema_error(&err));
}

#[test]
fn wrapper_methods_fail_cleanly_before_bootstrap() {
    let (_tempdir, wrapper) = open_wrapper_db();

    let err = wrapper
        .inspect("scheduler")
        .expect_err("inspect before bootstrap should fail");

    assert!(core_missing_schema_error(&err));
}

#[test]
fn bootstrap_is_explicit_and_idempotent() {
    let (_tempdir, wrapper) = open_wrapper_db();

    wrapper.bootstrap().expect("first bootstrap");
    wrapper.bootstrap().expect("second bootstrap");

    let acquired = wrapper
        .claim("scheduler", "worker-a", Duration::from_secs(5))
        .expect("claim after bootstrap");

    assert!(matches!(acquired, ClaimResult::Acquired(_)));
}

#[test]
fn wrapper_performs_full_lease_cycle() {
    let (_tempdir, wrapper) = open_wrapper_db();
    wrapper.bootstrap().expect("bootstrap");

    let acquired = wrapper
        .claim("scheduler", "worker-a", Duration::from_secs(5))
        .expect("claim");
    let lease = match acquired {
        ClaimResult::Acquired(lease) => lease,
        ClaimResult::Busy(current) => panic!("unexpected busy lease: {current:?}"),
    };

    let inspected = wrapper.inspect("scheduler").expect("inspect");
    assert_eq!(inspected, Some(lease.clone()));

    let renewed = wrapper
        .renew("scheduler", "worker-a", Duration::from_secs(10))
        .expect("renew");
    let renewed = match renewed {
        RenewResult::Renewed(lease) => lease,
        RenewResult::Rejected { current } => {
            panic!("unexpected renew rejection: {current:?}")
        }
    };
    assert!(renewed.lease_expires_at_ms >= lease.lease_expires_at_ms);

    let released = wrapper.release("scheduler", "worker-a").expect("release");
    assert!(matches!(released, ReleaseResult::Released { .. }));
    assert_eq!(
        wrapper.inspect("scheduler").expect("inspect after release"),
        None
    );
}

#[test]
fn wrapper_ttl_rejection_matches_core() {
    let (_tempdir, wrapper) = open_wrapper_db();
    wrapper.bootstrap().expect("bootstrap");

    let err = wrapper
        .claim("scheduler", "worker-a", Duration::ZERO)
        .expect_err("zero ttl should fail");

    match err {
        Error::Core(engine::Error::InvalidTtlMs(0)) => {}
        other => panic!("unexpected error: {other:?}"),
    }
}

#[test]
fn wrapper_claim_is_visible_to_core_on_separate_connection() {
    let (tempdir, wrapper) = open_wrapper_db();
    wrapper.bootstrap().expect("bootstrap");
    configure_test_connection(&wrapper.conn);

    let core_conn =
        Connection::open(tempdir.path().join("bouncer.sqlite3")).expect("open core conn");
    configure_test_connection(&core_conn);

    let lease = match wrapper
        .claim("scheduler", "worker-a", Duration::from_secs(30))
        .expect("wrapper claim")
    {
        ClaimResult::Acquired(lease) => lease,
        ClaimResult::Busy(current) => panic!("unexpected busy lease: {current:?}"),
    };

    let inspected = engine::inspect(&core_conn, "scheduler", lease.lease_expires_at_ms - 1)
        .expect("core inspect");
    assert_eq!(inspected, Some(lease));
}

#[test]
fn core_claim_is_visible_to_wrapper_on_separate_connection() {
    let (tempdir, wrapper) = open_wrapper_db();
    wrapper.bootstrap().expect("bootstrap");
    configure_test_connection(&wrapper.conn);

    let core_conn =
        Connection::open(tempdir.path().join("bouncer.sqlite3")).expect("open core conn");
    configure_test_connection(&core_conn);

    let now_ms = system_now_for_core();
    let lease = match engine::claim(&core_conn, "scheduler", "worker-a", now_ms, 60_000)
        .expect("core claim")
    {
        engine::ClaimResult::Acquired(lease) => lease,
        engine::ClaimResult::Busy(current) => panic!("unexpected busy lease: {current:?}"),
    };

    let inspected = wrapper.inspect("scheduler").expect("wrapper inspect");
    assert_eq!(inspected, Some(lease));
}

#[test]
fn fencing_token_stays_monotonic_across_wrapper_and_core() {
    let (tempdir, wrapper) = open_wrapper_db();
    wrapper.bootstrap().expect("bootstrap");
    configure_test_connection(&wrapper.conn);

    let core_conn =
        Connection::open(tempdir.path().join("bouncer.sqlite3")).expect("open core conn");
    configure_test_connection(&core_conn);

    let first = match wrapper
        .claim("scheduler", "worker-a", Duration::from_millis(25))
        .expect("wrapper claim")
    {
        ClaimResult::Acquired(lease) => lease,
        ClaimResult::Busy(current) => panic!("unexpected busy lease: {current:?}"),
    };

    let second = match engine::claim(
        &core_conn,
        "scheduler",
        "worker-b",
        first.lease_expires_at_ms + 1,
        25,
    )
    .expect("core takeover claim")
    {
        engine::ClaimResult::Acquired(lease) => lease,
        engine::ClaimResult::Busy(current) => panic!("unexpected busy lease: {current:?}"),
    };

    assert_eq!(second.token, first.token + 1);
}

#[test]
fn borrowed_claim_and_renew_commit_with_explicit_transaction() {
    let (_tempdir, wrapper) = open_wrapper_db();
    wrapper.bootstrap().expect("bootstrap");
    create_business_table(&wrapper.conn);
    let borrowed = wrapper.borrowed();

    wrapper.conn.execute_batch("BEGIN").expect("begin tx");
    wrapper
        .conn
        .execute(
            "INSERT INTO business_events(note) VALUES (?1)",
            ("borrowed commit",),
        )
        .expect("insert business event");

    let acquired = borrowed
        .claim("scheduler", "worker-a", Duration::from_secs(5))
        .expect("borrowed claim");
    let acquired = match acquired {
        ClaimResult::Acquired(lease) => lease,
        ClaimResult::Busy(current) => panic!("unexpected busy lease: {current:?}"),
    };

    let renewed = borrowed
        .renew("scheduler", "worker-a", Duration::from_secs(10))
        .expect("borrowed renew");
    let renewed = match renewed {
        RenewResult::Renewed(lease) => lease,
        RenewResult::Rejected { current } => {
            panic!("unexpected renew rejection: {current:?}")
        }
    };
    assert_eq!(renewed.token, acquired.token);
    assert!(renewed.lease_expires_at_ms >= acquired.lease_expires_at_ms);

    wrapper.conn.execute_batch("COMMIT").expect("commit tx");

    assert_eq!(business_event_count(&wrapper.conn), 1);
    let inspected = engine::inspect(&wrapper.conn, "scheduler", system_now_for_core())
        .expect("core inspect after commit");
    assert_eq!(inspected, Some(renewed));
}

#[test]
fn borrowed_claim_rolls_back_with_explicit_transaction() {
    let (_tempdir, wrapper) = open_wrapper_db();
    wrapper.bootstrap().expect("bootstrap");
    create_business_table(&wrapper.conn);
    let borrowed = wrapper.borrowed();

    wrapper.conn.execute_batch("BEGIN").expect("begin tx");
    wrapper
        .conn
        .execute(
            "INSERT INTO business_events(note) VALUES (?1)",
            ("borrowed rollback",),
        )
        .expect("insert business event");

    let acquired = borrowed
        .claim("scheduler", "worker-a", Duration::from_secs(5))
        .expect("borrowed claim");
    assert!(matches!(acquired, ClaimResult::Acquired(_)));

    wrapper.conn.execute_batch("ROLLBACK").expect("rollback tx");

    assert_eq!(business_event_count(&wrapper.conn), 0);
    assert_eq!(
        engine::inspect(&wrapper.conn, "scheduler", system_now_for_core())
            .expect("core inspect after rollback"),
        None
    );
    assert_eq!(
        engine::token(&wrapper.conn, "scheduler").expect("core token after rollback"),
        None
    );
}

#[test]
fn borrowed_multi_mutator_commit_together_inside_explicit_transaction() {
    let (_tempdir, wrapper) = open_wrapper_db();
    wrapper.bootstrap().expect("bootstrap");
    let borrowed = wrapper.borrowed();

    wrapper.conn.execute_batch("BEGIN").expect("begin tx");

    let scheduler = borrowed
        .claim("scheduler", "worker-a", Duration::from_secs(5))
        .expect("borrowed claim for scheduler");
    let janitor = borrowed
        .claim("janitor", "worker-b", Duration::from_secs(5))
        .expect("borrowed claim for janitor");

    assert!(matches!(scheduler, ClaimResult::Acquired(_)));
    assert!(matches!(janitor, ClaimResult::Acquired(_)));

    wrapper.conn.execute_batch("COMMIT").expect("commit tx");

    let now_ms = system_now_for_core();
    assert_eq!(
        engine::owner(&wrapper.conn, "scheduler", now_ms).expect("scheduler owner"),
        Some("worker-a".to_owned())
    );
    assert_eq!(
        engine::owner(&wrapper.conn, "janitor", now_ms).expect("janitor owner"),
        Some("worker-b".to_owned())
    );
}

#[test]
fn borrowed_multi_mutator_rollback_together_inside_explicit_transaction() {
    let (_tempdir, wrapper) = open_wrapper_db();
    wrapper.bootstrap().expect("bootstrap");
    let borrowed = wrapper.borrowed();

    wrapper.conn.execute_batch("BEGIN").expect("begin tx");

    let scheduler = borrowed
        .claim("scheduler", "worker-a", Duration::from_secs(5))
        .expect("borrowed claim for scheduler");
    let janitor = borrowed
        .claim("janitor", "worker-b", Duration::from_secs(5))
        .expect("borrowed claim for janitor");

    assert!(matches!(scheduler, ClaimResult::Acquired(_)));
    assert!(matches!(janitor, ClaimResult::Acquired(_)));

    wrapper.conn.execute_batch("ROLLBACK").expect("rollback tx");

    let now_ms = system_now_for_core();
    assert_eq!(
        engine::owner(&wrapper.conn, "scheduler", now_ms).expect("scheduler owner"),
        None
    );
    assert_eq!(
        engine::owner(&wrapper.conn, "janitor", now_ms).expect("janitor owner"),
        None
    );
    assert_eq!(
        engine::token(&wrapper.conn, "scheduler").expect("scheduler token"),
        None
    );
    assert_eq!(
        engine::token(&wrapper.conn, "janitor").expect("janitor token"),
        None
    );
}

#[test]
fn borrowed_mutators_preserve_lease_semantics_inside_explicit_transaction() {
    let (_tempdir, wrapper) = open_wrapper_db();
    wrapper.bootstrap().expect("bootstrap");
    let borrowed = wrapper.borrowed();

    wrapper.conn.execute_batch("BEGIN").expect("begin tx");

    let first_claim = borrowed
        .claim("scheduler", "worker-a", Duration::from_millis(20))
        .expect("first borrowed claim");
    let first_claim = match first_claim {
        ClaimResult::Acquired(lease) => lease,
        ClaimResult::Busy(current) => panic!("unexpected busy lease: {current:?}"),
    };

    let busy_claim = borrowed
        .claim("scheduler", "worker-b", Duration::from_millis(20))
        .expect("busy borrowed claim");
    match busy_claim {
        ClaimResult::Busy(current) => {
            assert_eq!(current.owner, "worker-a");
            assert_eq!(current.token, first_claim.token);
        }
        ClaimResult::Acquired(lease) => panic!("unexpected acquired lease: {lease:?}"),
    }

    wait_for(Duration::from_millis(30));

    let takeover = borrowed
        .claim("scheduler", "worker-b", Duration::from_millis(20))
        .expect("takeover claim");
    let takeover = match takeover {
        ClaimResult::Acquired(lease) => lease,
        ClaimResult::Busy(current) => panic!("unexpected busy lease: {current:?}"),
    };
    assert_eq!(takeover.token, first_claim.token + 1);

    let released = borrowed
        .release("scheduler", "worker-b")
        .expect("borrowed release");
    assert_eq!(
        released,
        ReleaseResult::Released {
            name: "scheduler".to_owned(),
            token: takeover.token,
        }
    );

    let reclaimed = borrowed
        .claim("scheduler", "worker-c", Duration::from_millis(200))
        .expect("reclaim claim");
    let reclaimed = match reclaimed {
        ClaimResult::Acquired(lease) => lease,
        ClaimResult::Busy(current) => panic!("unexpected busy lease: {current:?}"),
    };
    assert_eq!(reclaimed.token, takeover.token + 1);

    wrapper.conn.execute_batch("COMMIT").expect("commit tx");

    let inspected = engine::inspect(&wrapper.conn, "scheduler", system_now_for_core())
        .expect("core inspect after semantic stress");
    assert_eq!(inspected, Some(reclaimed.clone()));
    assert_eq!(
        engine::token(&wrapper.conn, "scheduler").expect("token after semantic stress"),
        Some(reclaimed.token)
    );
}

#[test]
fn borrowed_mutators_work_inside_savepoint_context() {
    let (_tempdir, wrapper) = open_wrapper_db();
    wrapper.bootstrap().expect("bootstrap");
    let borrowed = wrapper.borrowed();

    wrapper
        .conn
        .execute_batch("SAVEPOINT borrowed_ops")
        .expect("begin savepoint");

    let acquired = borrowed
        .claim("scheduler", "worker-a", Duration::from_secs(5))
        .expect("borrowed claim inside savepoint");
    assert!(matches!(acquired, ClaimResult::Acquired(_)));

    wrapper
        .conn
        .execute_batch("ROLLBACK TO borrowed_ops")
        .expect("rollback to savepoint");
    wrapper
        .conn
        .execute_batch("RELEASE borrowed_ops")
        .expect("release savepoint");

    assert_eq!(
        engine::owner(&wrapper.conn, "scheduler", system_now_for_core())
            .expect("owner after savepoint"),
        None
    );
}

#[test]
fn lib_transaction_handle_commits_business_write_and_lease_mutation() {
    let (_tempdir, mut wrapper) = open_wrapper_db();
    wrapper.bootstrap().expect("bootstrap");
    create_business_table(&wrapper.conn);

    let tx = wrapper.transaction().expect("begin immediate tx");
    tx.conn()
        .execute(
            "INSERT INTO business_events(note) VALUES (?1)",
            ("tx commit",),
        )
        .expect("insert business event");

    let acquired = tx
        .claim("scheduler", "worker-a", Duration::from_secs(5))
        .expect("tx claim");
    let acquired = match acquired {
        ClaimResult::Acquired(lease) => lease,
        ClaimResult::Busy(current) => panic!("unexpected busy lease: {current:?}"),
    };

    tx.commit().expect("commit tx");

    assert_eq!(business_event_count(&wrapper.conn), 1);
    assert_eq!(
        engine::inspect(&wrapper.conn, "scheduler", system_now_for_core())
            .expect("inspect after tx commit"),
        Some(acquired)
    );
}

#[test]
fn lib_transaction_handle_rolls_back_business_write_and_lease_mutation() {
    let (_tempdir, mut wrapper) = open_wrapper_db();
    wrapper.bootstrap().expect("bootstrap");
    create_business_table(&wrapper.conn);

    let tx = wrapper.transaction().expect("begin immediate tx");
    tx.conn()
        .execute(
            "INSERT INTO business_events(note) VALUES (?1)",
            ("tx rollback",),
        )
        .expect("insert business event");
    let acquired = tx
        .claim("scheduler", "worker-a", Duration::from_secs(5))
        .expect("tx claim");
    assert!(matches!(acquired, ClaimResult::Acquired(_)));

    tx.rollback().expect("rollback tx");

    assert_eq!(business_event_count(&wrapper.conn), 0);
    assert_eq!(
        engine::inspect(&wrapper.conn, "scheduler", system_now_for_core())
            .expect("inspect after tx rollback"),
        None
    );
    assert_eq!(
        engine::token(&wrapper.conn, "scheduler").expect("token after tx rollback"),
        None
    );
}

#[test]
fn lib_transaction_handle_multiple_mutators_commit_together() {
    let (_tempdir, mut wrapper) = open_wrapper_db();
    wrapper.bootstrap().expect("bootstrap");

    let tx = wrapper.transaction().expect("begin immediate tx");

    let scheduler = tx
        .claim("scheduler", "worker-a", Duration::from_secs(5))
        .expect("tx claim scheduler");
    let janitor = tx
        .claim("janitor", "worker-b", Duration::from_secs(5))
        .expect("tx claim janitor");

    assert!(matches!(scheduler, ClaimResult::Acquired(_)));
    assert!(matches!(janitor, ClaimResult::Acquired(_)));

    tx.commit().expect("commit tx");

    let now_ms = system_now_for_core();
    assert_eq!(
        engine::owner(&wrapper.conn, "scheduler", now_ms).expect("scheduler owner after commit"),
        Some("worker-a".to_owned())
    );
    assert_eq!(
        engine::owner(&wrapper.conn, "janitor", now_ms).expect("janitor owner after commit"),
        Some("worker-b".to_owned())
    );
}

#[test]
fn lib_transaction_handle_multiple_mutators_rollback_together() {
    let (_tempdir, mut wrapper) = open_wrapper_db();
    wrapper.bootstrap().expect("bootstrap");

    let tx = wrapper.transaction().expect("begin immediate tx");

    let scheduler = tx
        .claim("scheduler", "worker-a", Duration::from_secs(5))
        .expect("tx claim scheduler");
    let janitor = tx
        .claim("janitor", "worker-b", Duration::from_secs(5))
        .expect("tx claim janitor");

    assert!(matches!(scheduler, ClaimResult::Acquired(_)));
    assert!(matches!(janitor, ClaimResult::Acquired(_)));

    tx.rollback().expect("rollback tx");

    let now_ms = system_now_for_core();
    assert_eq!(
        engine::owner(&wrapper.conn, "scheduler", now_ms)
            .expect("scheduler owner after rollback"),
        None
    );
    assert_eq!(
        engine::owner(&wrapper.conn, "janitor", now_ms).expect("janitor owner after rollback"),
        None
    );
    assert_eq!(
        engine::token(&wrapper.conn, "scheduler").expect("scheduler token after rollback"),
        None
    );
    assert_eq!(
        engine::token(&wrapper.conn, "janitor").expect("janitor token after rollback"),
        None
    );
}

#[test]
fn lib_dropping_transaction_handle_without_commit_rolls_back() {
    let (_tempdir, mut wrapper) = open_wrapper_db();
    wrapper.bootstrap().expect("bootstrap");
    create_business_table(&wrapper.conn);

    {
        let tx = wrapper.transaction().expect("begin immediate tx");
        tx.conn()
            .execute(
                "INSERT INTO business_events(note) VALUES (?1)",
                ("tx drop rollback",),
            )
            .expect("insert business event");
        let acquired = tx
            .claim("scheduler", "worker-a", Duration::from_secs(5))
            .expect("tx claim");
        assert!(matches!(acquired, ClaimResult::Acquired(_)));
    }

    assert_eq!(business_event_count(&wrapper.conn), 0);
    assert_eq!(
        engine::inspect(&wrapper.conn, "scheduler", system_now_for_core())
            .expect("inspect after dropped tx"),
        None
    );
}

#[test]
fn lib_transaction_handle_preserves_lease_semantics() {
    let (_tempdir, mut wrapper) = open_wrapper_db();
    wrapper.bootstrap().expect("bootstrap");

    let tx = wrapper.transaction().expect("begin immediate tx");

    let first_claim = tx
        .claim("scheduler", "worker-a", Duration::from_millis(20))
        .expect("first tx claim");
    let first_claim = match first_claim {
        ClaimResult::Acquired(lease) => lease,
        ClaimResult::Busy(current) => panic!("unexpected busy lease: {current:?}"),
    };

    let busy_claim = tx
        .claim("scheduler", "worker-b", Duration::from_millis(20))
        .expect("busy tx claim");
    match busy_claim {
        ClaimResult::Busy(current) => {
            assert_eq!(current.owner, "worker-a");
            assert_eq!(current.token, first_claim.token);
        }
        ClaimResult::Acquired(lease) => panic!("unexpected acquired lease: {lease:?}"),
    }

    wait_for(Duration::from_millis(30));

    let takeover = tx
        .claim("scheduler", "worker-b", Duration::from_millis(20))
        .expect("takeover tx claim");
    let takeover = match takeover {
        ClaimResult::Acquired(lease) => lease,
        ClaimResult::Busy(current) => panic!("unexpected busy lease: {current:?}"),
    };
    assert_eq!(takeover.token, first_claim.token + 1);

    let released = tx.release("scheduler", "worker-b").expect("tx release");
    assert_eq!(
        released,
        ReleaseResult::Released {
            name: "scheduler".to_owned(),
            token: takeover.token,
        }
    );

    let reclaimed = tx
        .claim("scheduler", "worker-c", Duration::from_millis(200))
        .expect("reclaim tx claim");
    let reclaimed = match reclaimed {
        ClaimResult::Acquired(lease) => lease,
        ClaimResult::Busy(current) => panic!("unexpected busy lease: {current:?}"),
    };
    assert_eq!(reclaimed.token, takeover.token + 1);

    tx.commit().expect("commit tx");

    let inspected = engine::inspect(&wrapper.conn, "scheduler", system_now_for_core())
        .expect("inspect after tx semantic stress");
    assert_eq!(inspected, Some(reclaimed.clone()));
    assert_eq!(
        engine::token(&wrapper.conn, "scheduler").expect("token after tx semantic stress"),
        Some(reclaimed.token)
    );
}

#[test]
fn lib_transaction_handle_renew_extends_existing_lease() {
    let (_tempdir, mut wrapper) = open_wrapper_db();
    wrapper.bootstrap().expect("bootstrap");

    let tx = wrapper.transaction().expect("begin immediate tx");

    let acquired = tx
        .claim("scheduler", "worker-a", Duration::from_secs(5))
        .expect("tx claim");
    let acquired = match acquired {
        ClaimResult::Acquired(lease) => lease,
        ClaimResult::Busy(current) => panic!("unexpected busy lease: {current:?}"),
    };

    let renewed = tx
        .renew("scheduler", "worker-a", Duration::from_secs(60))
        .expect("tx renew owner-match");
    let renewed = match renewed {
        RenewResult::Renewed(lease) => lease,
        RenewResult::Rejected { current } => {
            panic!("unexpected renew rejection: {current:?}")
        }
    };
    assert_eq!(renewed.token, acquired.token);
    assert_eq!(renewed.owner, acquired.owner);
    assert!(renewed.lease_expires_at_ms >= acquired.lease_expires_at_ms);

    let wrong_owner = tx
        .renew("scheduler", "worker-b", Duration::from_secs(60))
        .expect("tx renew wrong-owner");
    match wrong_owner {
        RenewResult::Rejected {
            current: Some(current),
        } => {
            assert_eq!(current.owner, "worker-a");
            assert_eq!(current.token, renewed.token);
        }
        other => panic!("unexpected wrong-owner renew result: {other:?}"),
    }

    let missing = tx
        .renew("never-claimed", "worker-a", Duration::from_secs(60))
        .expect("tx renew missing-resource");
    assert_eq!(missing, RenewResult::Rejected { current: None });

    tx.commit().expect("commit tx");

    let inspected = engine::inspect(&wrapper.conn, "scheduler", system_now_for_core())
        .expect("inspect after tx renew commit");
    assert_eq!(inspected, Some(renewed));
}

#[test]
fn lib_transaction_handle_inspect_returns_live_lease() {
    let (_tempdir, mut wrapper) = open_wrapper_db();
    wrapper.bootstrap().expect("bootstrap");

    let tx = wrapper.transaction().expect("begin immediate tx");

    assert_eq!(
        tx.inspect("scheduler").expect("tx inspect before claim"),
        None
    );

    let acquired = tx
        .claim("scheduler", "worker-a", Duration::from_secs(5))
        .expect("tx claim");
    let acquired = match acquired {
        ClaimResult::Acquired(lease) => lease,
        ClaimResult::Busy(current) => panic!("unexpected busy lease: {current:?}"),
    };

    let inspected = tx
        .inspect("scheduler")
        .expect("tx inspect after claim")
        .expect("expected live lease inside tx");
    assert_eq!(inspected, acquired);

    assert_eq!(
        tx.inspect("never-claimed")
            .expect("tx inspect missing resource"),
        None
    );

    tx.commit().expect("commit tx");
}
