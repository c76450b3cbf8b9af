use bouncer::engine::{ClaimResult, ReleaseResult, RenewResult};
use bouncer::wrapper::Bouncer;
use std::path::PathBuf;
use std::time::Duration;
use tempfile::TempDir;

const NAME: &str = "scheduler";
const OWNER_A: &str = "worker-a";
const OWNER_B: &str = "worker-b";
const TTL: Duration = Duration::from_secs(30);

struct DbFile {
    _tempdir: TempDir,
    path: PathBuf,
}

impl DbFile {
    fn fresh() -> Self {
        let tempdir = tempfile::tempdir().expect("tempdir");
        let path = tempdir.path().join("bouncer.sqlite3");
        Self { _tempdir: tempdir, path }
    }
}

#[test]
fn user_journey_001_bootstrap_and_first_claim() {
    let db = DbFile::fresh();
    let wrapper = Bouncer::open(&db.path).expect("open wrapper");
    wrapper.bootstrap().expect("bootstrap fresh file");

    let claim = wrapper
        .claim(NAME, OWNER_A, Duration::from_secs(30))
        .expect("first claim");
    assert!(
        matches!(claim, ClaimResult::Acquired(_)),
        "first claim should succeed on a fresh bootstrapped file"
    );
}

#[test]
fn user_journey_002_second_caller_sees_busy() {
    let db = DbFile::fresh();
    let wrapper_a = Bouncer::open(&db.path).expect("open wrapper_a");
    wrapper_a.bootstrap().expect("bootstrap");

    let claim_a = wrapper_a
        .claim(NAME, OWNER_A, Duration::from_secs(30))
        .expect("first claim");
    assert!(matches!(claim_a, ClaimResult::Acquired(_)));

    let wrapper_b = Bouncer::open(&db.path).expect("open wrapper_b");
    let claim_b = wrapper_b
        .claim(NAME, OWNER_B, Duration::from_secs(30))
        .expect("second claim");
    assert!(
        matches!(claim_b, ClaimResult::Busy(_)),
        "second caller should see lease busy, not false success"
    );

    match claim_b {
        ClaimResult::Busy(current) => assert_eq!(current.owner, OWNER_A),
        _ => panic!("expected Busy result carrying current owner"),
    }
}

#[test]
fn user_journey_003_release_then_reclaim_increments_token() {
    let db = DbFile::fresh();
    let wrapper_a = Bouncer::open(&db.path).expect("open wrapper_a");
    wrapper_a.bootstrap().expect("bootstrap");

    let token_a = match wrapper_a
        .claim(NAME, OWNER_A, Duration::from_secs(30))
        .expect("first claim")
    {
        ClaimResult::Acquired(lease) => lease.token,
        _ => panic!("expected acquired"),
    };

    let released = wrapper_a.release(NAME, OWNER_A).expect("release");
    assert!(matches!(released, ReleaseResult::Released { .. }));

    let wrapper_b = Bouncer::open(&db.path).expect("open wrapper_b");
    let token_b = match wrapper_b
        .claim(NAME, OWNER_B, Duration::from_secs(30))
        .expect("reclaim")
    {
        ClaimResult::Acquired(lease) => lease.token,
        _ => panic!("expected acquired after reclaim"),
    };

    assert!(
        token_b > token_a,
        "token should increase after release and reclaim: {} -> {}",
        token_a,
        token_b
    );
}

#[test]
fn public_stress_repeated_wrapper_lifecycle_busy_renew_release_and_reclaim() {
    for iteration in 0..48 {
        let db = DbFile::fresh();
        let owner_a = format!("worker-a-{iteration}");
        let owner_b = format!("worker-b-{iteration}");

        let wrapper_a = Bouncer::open(&db.path).expect("open wrapper_a");
        wrapper_a.bootstrap().expect("bootstrap");

        let first = wrapper_a.claim(NAME, &owner_a, TTL).expect("first claim");
        let first = match first {
            ClaimResult::Acquired(lease) => lease,
            other => panic!("expected acquired first claim, got {other:?}"),
        };
        assert_eq!(first.owner, owner_a);
        assert_eq!(first.token, 1);

        let wrapper_b = Bouncer::open(&db.path).expect("open wrapper_b");
        let second = wrapper_b.claim(NAME, &owner_b, TTL).expect("second claim");
        match second {
            ClaimResult::Busy(current) => {
                assert_eq!(current.owner, owner_a);
                assert_eq!(current.token, 1);
            }
            other => panic!("expected Busy on second claim, got {other:?}"),
        }

        let renewed = wrapper_a
            .renew(NAME, &owner_a, TTL)
            .expect("renew current owner");
        match renewed {
            RenewResult::Renewed(lease) => {
                assert_eq!(lease.owner, owner_a);
                assert_eq!(lease.token, 1);
            }
            other => panic!("expected Renewed, got {other:?}"),
        }

        let released = wrapper_a.release(NAME, &owner_a).expect("release");
        match released {
            ReleaseResult::Released { token, .. } => assert_eq!(token, 1),
            other => panic!("expected Released, got {other:?}"),
        }

        let after_release = wrapper_a.inspect(NAME).expect("inspect after release");
        assert!(
            after_release.is_none(),
            "released lease should no longer be live"
        );

        let reclaimed = wrapper_b
            .claim(NAME, &owner_b, TTL)
            .expect("reclaim after release");
        let reclaimed = match reclaimed {
            ClaimResult::Acquired(lease) => lease,
            other => panic!("expected acquired reclaim, got {other:?}"),
        };
        assert_eq!(reclaimed.owner, owner_b);
        assert_eq!(reclaimed.token, 2);
    }
}
