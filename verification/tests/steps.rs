//! Single steps, and the error for a write over the quota.
use opendal::{Error, ErrorKind};
use quota_layer::text::to_decimal;
use quota_layer::{quota_exceeded, QuotaLayer, QuotaState, ReserveStep, Start};

fn state(limit: u64) -> QuotaState<()> {
    QuotaState::new("bucket".to_string(), (), limit)
}

#[test]
fn exceeded_error_tells_the_whole_story() {
    let err = quota_exceeded("tenant-b", 7, 30, 10);
    assert_eq!(err.kind(), ErrorKind::RateLimited);
    assert!(err.is_permanent());
    assert_eq!(
        err.message(),
        "write quota exceeded for 'tenant-b': 7 bytes used, 30 byte write requested, 10 byte limit"
    );
    let shown = err.to_string();
    assert!(shown.contains(
        "context: { quota_id: tenant-b, quota_limit: 10, quota_used: 7, quota_requested: 30 }"
    ));
}

#[test]
fn decimals_are_written_as_numbers_are_shown() {
    for n in [0, 1, 9, 10, 99, 100, 1024, 10_485_760, u64::MAX - 1, u64::MAX] {
        assert_eq!(to_decimal(n), format!("{}", n));
    }
}

#[test]
fn cold_cache_is_fetched_under_the_id() {
    let state = state(10);
    let mut cache = None;
    assert!(matches!(state.reserve(4), Start::Lock));
    let step = state.reserve_locked(&mut cache, 4);
    assert!(matches!(step, ReserveStep::Fetch { id: "bucket" }));
    let step = state.reserve_fetched(&mut cache, 4, Ok(6));
    assert!(matches!(step, ReserveStep::Store { id: "bucket", total: 10 }));
    assert_eq!(cache, Some(6));
    assert!(state.reserve_stored(&mut cache, 10, Ok(())).is_ok());
    assert_eq!(cache, Some(10));
}

#[test]
fn limit_is_inclusive() {
    let state = state(10);
    let mut cache = Some(6);
    assert!(matches!(
        state.reserve_locked(&mut cache, 4),
        ReserveStep::Store { total: 10, .. }
    ));
    assert!(matches!(state.reserve_locked(&mut cache, 5), ReserveStep::Done(Err(_))));
    assert_eq!(cache, Some(6));
}

#[test]
fn total_over_the_counter_is_rejected_below_the_largest_limit() {
    let state = state(u64::MAX - 1);
    let mut cache = Some(u64::MAX - 1);
    assert!(matches!(
        state.reserve_locked(&mut cache, u64::MAX),
        ReserveStep::Done(Err(_))
    ));
}

#[test]
fn largest_limit_refuses_what_exceeds_it() {
    let state = state(u64::MAX);
    let mut cache = Some(u64::MAX);
    match state.reserve_locked(&mut cache, 1) {
        ReserveStep::Done(Err(err)) => assert_eq!(err.kind(), ErrorKind::RateLimited),
        _ => panic!("the limit is reached"),
    }
    assert_eq!(cache, Some(u64::MAX));

    let mut cache = Some(u64::MAX - 1);
    assert!(matches!(
        state.reserve_locked(&mut cache, 1),
        ReserveStep::Store { total: u64::MAX, .. }
    ));
}

#[test]
fn total_over_the_limit_refuses_everything() {
    let state = state(10);
    let mut cache = Some(25);
    assert!(matches!(state.reserve_locked(&mut cache, 1), ReserveStep::Done(Err(_))));
    assert_eq!(cache, Some(25));
}

#[test]
fn fetched_total_is_kept_when_the_store_fails() {
    let state = state(10);
    let mut cache = None;
    let failed = Err(Error::new(ErrorKind::Unexpected, "unreachable"));
    let account = state.reserve_with(&mut cache, 4, Ok(3), failed);
    assert!(account.fetched);
    assert_eq!(account.stored, Some(7));
    assert_eq!(account.result.unwrap_err().message(), "unreachable");
    assert_eq!(cache, Some(3));

    let account = state.reserve_with(&mut cache, 4, Ok(9), Ok(()));
    assert!(!account.fetched);
    assert_eq!(account.stored, Some(7));
    assert!(account.result.is_ok());
    assert_eq!(cache, Some(7));
}

#[test]
fn whole_reservations_and_releases() {
    let state = state(10);
    let mut cache = None;

    let account = state.reserve_with(&mut cache, 0, Ok(3), Ok(()));
    assert!(!account.fetched && account.stored.is_none() && account.result.is_ok());
    assert_eq!(cache, None);

    let failed = Err(Error::new(ErrorKind::Unexpected, "get failed"));
    let account = state.reserve_with(&mut cache, 4, failed, Ok(()));
    assert!(account.fetched && account.stored.is_none());
    assert_eq!(account.result.unwrap_err().message(), "get failed");
    assert_eq!(cache, None);

    let account = state.reserve_with(&mut cache, 11, Ok(3), Ok(()));
    assert!(account.fetched && account.stored.is_none());
    assert_eq!(
        account.result.unwrap_err().message(),
        "write quota exceeded for 'bucket': 3 bytes used, 11 byte write requested, 10 byte limit"
    );
    assert_eq!(cache, Some(3));

    assert!(state.reserve_with(&mut cache, 7, Ok(0), Ok(())).result.is_ok());
    assert_eq!(cache, Some(10));
    assert_eq!(state.release_with(&mut cache, 0, Ok(())), None);
    assert_eq!(cache, Some(10));
    let failed = Err(Error::new(ErrorKind::Unexpected, "set failed"));
    assert_eq!(state.release_with(&mut cache, 7, failed), Some(3));
    assert_eq!(cache, Some(3));
}

#[test]
fn release_stops_at_zero() {
    let state = state(10);
    assert!(matches!(state.release(0), Start::Done));
    assert!(matches!(state.release(1), Start::Lock));
    assert_eq!(state.release_locked(&Some(3), 5).total, 0);
    assert_eq!(state.release_locked(&Some(5), 3).total, 2);
    assert_eq!(state.release_locked(&None, 3).total, 0);
    assert_eq!(state.release_locked(&None, 3).id, "bucket");
}

#[test]
fn release_keeps_the_total_whatever_the_reply() {
    let state = state(10);
    let mut cache = Some(5);
    let failed: Result<(), Error> = Err(Error::new(ErrorKind::Unexpected, "unreachable"));
    state.release_stored(&mut cache, 2, failed);
    assert_eq!(cache, Some(2));
}

#[test]
fn release_undoes_reserve() {
    let layer = QuotaLayer::new("bucket".to_string(), (), 10).layer(());
    let state = layer.state();
    let mut cache = Some(6);
    let total = match state.reserve_locked(&mut cache, 3) {
        ReserveStep::Store { total, .. } => total,
        _ => panic!("the bytes fit"),
    };
    state.reserve_stored(&mut cache, total, Ok(())).unwrap();
    let total = state.release_locked(&cache, 3).total;
    state.release_stored(&mut cache, total, Ok(()));
    assert_eq!(cache, Some(6));
}
