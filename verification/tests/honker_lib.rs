use bouncer::honker::{
    bootstrap_bouncer_schema, claim, inspect, release, renew, ClaimResult, Error, LeaseInfo,
    ReleaseResult, RenewResult,
};
use rusqlite::Connection;
use tempfile::TempDir;


fn open_db() -> Connection {
    let conn = Connection::open_in_memory().expect("in-memory sqlite");
    bootstrap_bouncer_schema(&conn).expect("bootstrap schema");
    conn
}

fn open_shared_db() -> (TempDir, Connection, Connection) {
    let tempdir = tempfile::tempdir().expect("tempdir");
    let db_path = tempdir.path().join("bouncer.sqlite3");

    let conn_a = Connection::open(&db_path).expect("open first sqlite connection");
    bootstrap_bouncer_schema(&conn_a).expect("bootstrap schema on first connection");

    let conn_b = Connection::open(&db_path).expect("open second sqlite connection");
    bootstrap_bouncer_schema(&conn_b).expect("bootstrap schema on second connection");

    (tempdir, conn_a, conn_b)
}

fn assert_live_lease(
    lease: &LeaseInfo,
    name: &str,
    owner: &str,
    token: i64,
    lease_expires_at_ms: i64,
) {
    assert_eq!(
        lease,
        &LeaseInfo {
            name: name.to_owned(),
            owner: owner.to_owned(),
            token,
            lease_expires_at_ms,
        }
    );
}

fn release_after_claim(conn: &Connection) {
    claim(conn, "scheduler", "worker-a", 100, 50).unwrap();
    let released = release(conn, "scheduler", "worker-a", 120).unwrap();
    assert_eq!(
        released,
        ReleaseResult::Released {
            name: "scheduler".to_owned(),
            token: 1,
        }
    );
}

#[test]
fn bootstrap_is_idempotent() {
    let conn = Connection::open_in_memory().unwrap();

    bootstrap_bouncer_schema(&conn).unwrap();
    bootstrap_bouncer_schema(&conn).unwrap();

    let count: i64 = conn
        .query_row(
            "SELECT COUNT(*) FROM sqlite_master
             WHERE type = 'table' AND name = 'bouncer_resources'",
            [],
            |row| row.get(0),
        )
        .unwrap();

    assert_eq!(count, 1);
}

#[test]
fn inspect_returns_none_for_absent_resource() {
    let conn = open_db();

    assert_eq!(inspect(&conn, "scheduler", 100).unwrap(), None);
}

#[test]
fn inspect_returns_none_for_expired_resource() {
    let conn = open_db();

    let result = claim(&conn, "scheduler", "worker-a", 100, 25).unwrap();
    assert!(matches!(result, ClaimResult::Acquired(_)));

    assert_eq!(inspect(&conn, "scheduler", 125).unwrap(), None);
    assert_eq!(inspect(&conn, "scheduler", 500).unwrap(), None);
}

#[test]
fn inspect_returns_none_for_released_resource() {
    let conn = open_db();

    release_after_claim(&conn);

    assert_eq!(inspect(&conn, "scheduler", 200).unwrap(), None);
}

#[test]
fn first_claim_acquires_lease() {
    let conn = open_db();

    let result = claim(&conn, "scheduler", "worker-a", 100, 50).unwrap();

    match result {
        ClaimResult::Acquired(lease) => {
            assert_live_lease(&lease, "scheduler", "worker-a", 1, 150);
        }
        other => panic!("expected acquired result, got {other:?}"),
    }
}

#[test]
fn second_claim_while_valid_is_rejected() {
    let conn = open_db();

    claim(&conn, "scheduler", "worker-a", 100, 50).unwrap();
    let result = claim(&conn, "scheduler", "worker-b", 120, 50).unwrap();

    match result {
        ClaimResult::Busy(current) => {
            assert_live_lease(&current, "scheduler", "worker-a", 1, 150);
        }
        other => panic!("expected busy result, got {other:?}"),
    }
}

#[test]
fn expired_claim_takeover_succeeds_and_increments_token() {
    let conn = open_db();

    claim(&conn, "scheduler", "worker-a", 100, 50).unwrap();
    let result = claim(&conn, "scheduler", "worker-b", 151, 30).unwrap();

    match result {
        ClaimResult::Acquired(lease) => {
            assert_live_lease(&lease, "scheduler", "worker-b", 2, 181);
        }
        other => panic!("expected acquired result, got {other:?}"),
    }
}

#[test]
fn released_resource_can_be_claimed_again_without_resetting_token() {
    let conn = open_db();

    release_after_claim(&conn);
    let result = claim(&conn, "scheduler", "worker-b", 220, 40).unwrap();

    match result {
        ClaimResult::Acquired(lease) => {
            assert_live_lease(&lease, "scheduler", "worker-b", 2, 260);
        }
        other => panic!("expected acquired result, got {other:?}"),
    }
}

#[test]
fn renew_succeeds_for_current_owner() {
    let conn = open_db();

    claim(&conn, "scheduler", "worker-a", 100, 50).unwrap();
    let result = renew(&conn, "scheduler", "worker-a", 120, 60).unwrap();

    match result {
        RenewResult::Renewed(lease) => {
            assert_live_lease(&lease, "scheduler", "worker-a", 1, 180);
        }
        other => panic!("expected renewed result, got {other:?}"),
    }
}

#[test]
fn renew_fails_for_non_owner() {
    let conn = open_db();

    claim(&conn, "scheduler", "worker-a", 100, 50).unwrap();
    let result = renew(&conn, "scheduler", "worker-b", 120, 60).unwrap();

    match result {
        RenewResult::Rejected {
            current: Some(current),
        } => {
            assert_live_lease(&current, "scheduler", "worker-a", 1, 150);
        }
        other => panic!("expected rejection with current lease, got {other:?}"),
    }
}

#[test]
fn renew_fails_for_expired_lease() {
    let conn = open_db();

    claim(&conn, "scheduler", "worker-a", 100, 50).unwrap();
    let result = renew(&conn, "scheduler", "worker-a", 150, 60).unwrap();

    assert_eq!(result, RenewResult::Rejected { current: None });
}

#[test]
fn release_succeeds_for_current_owner() {
    let conn = open_db();

    claim(&conn, "scheduler", "worker-a", 100, 50).unwrap();
    let result = release(&conn, "scheduler", "worker-a", 120).unwrap();

    assert_eq!(
        result,
        ReleaseResult::Released {
            name: "scheduler".to_owned(),
            token: 1,
        }
    );
}

#[test]
fn release_fails_for_non_owner() {
    let conn = open_db();

    claim(&conn, "scheduler", "worker-a", 100, 50).unwrap();
    let result = release(&conn, "scheduler", "worker-b", 120).unwrap();

    match result {
        ReleaseResult::Rejected {
            current: Some(current),
        } => {
            assert_live_lease(&current, "scheduler", "worker-a", 1, 150);
        }
        other => panic!("expected rejection with current lease, got {other:?}"),
    }
}

#[test]
fn non_positive_ttl_is_rejected() {
    let conn = open_db();

    let err = claim(&conn, "scheduler", "worker-a", 100, 0).unwrap_err();
    assert!(matches!(err, Error::InvalidTtlMs(0)));

    let err = renew(&conn, "scheduler", "worker-a", 100, -5).unwrap_err();
    assert!(matches!(err, Error::InvalidTtlMs(-5)));
}

#[test]
fn multiple_connections_share_live_lease_state() {
    let (_tempdir, conn_a, conn_b) = open_shared_db();

    let claimed = claim(&conn_a, "scheduler", "worker-a", 100, 50).unwrap();
    match claimed {
        ClaimResult::Acquired(lease) => {
            assert_live_lease(&lease, "scheduler", "worker-a", 1, 150);
        }
        other => panic!("expected acquired result, got {other:?}"),
    }

    let seen = inspect(&conn_b, "scheduler", 120).unwrap();
    match seen {
        Some(lease) => assert_live_lease(&lease, "scheduler", "worker-a", 1, 150),
        None => panic!("expected visible live lease from second connection"),
    }

    let busy = claim(&conn_b, "scheduler", "worker-b", 120, 30).unwrap();
    match busy {
        ClaimResult::Busy(current) => {
            assert_live_lease(&current, "scheduler", "worker-a", 1, 150);
        }
        other => panic!("expected busy result, got {other:?}"),
    }
}

#[test]
fn multiple_connections_allow_expired_handoff() {
    let (_tempdir, conn_a, conn_b) = open_shared_db();

    claim(&conn_a, "scheduler", "worker-a", 100, 50).unwrap();

    let takeover = claim(&conn_b, "scheduler", "worker-b", 151, 30).unwrap();
    match takeover {
        ClaimResult::Acquired(lease) => {
            assert_live_lease(&lease, "scheduler", "worker-b", 2, 181);
        }
        other => panic!("expected acquired takeover result, got {other:?}"),
    }

    let seen = inspect(&conn_a, "scheduler", 160).unwrap();
    match seen {
        Some(lease) => assert_live_lease(&lease, "scheduler", "worker-b", 2, 181),
        None => panic!("expected takeover to be visible from first connection"),
    }
}
