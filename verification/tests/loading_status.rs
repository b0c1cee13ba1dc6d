use chrono::{Duration, Local, TimeZone};
use daily_dashboard::status::{minutes_between, stale, LoadingStatus};

/// Instants are seconds since the Unix epoch.
fn fixed_now() -> i64 {
    Local.with_ymd_and_hms(2026, 7, 25, 12, 0, 0).unwrap().timestamp()
}

fn before(now: i64, d: Duration) -> i64 {
    now - d.num_seconds()
}

#[test]
fn not_started_is_always_due() {
    let status = LoadingStatus::NotStarted;
    assert!(status.is_fetch_due(fixed_now(), None, Some(30), 1));
    assert!(status.is_fetch_due(fixed_now(), Some(fixed_now()), None, 1));
}

#[test]
fn loading_is_never_due() {
    let status = LoadingStatus::Loading;
    assert!(!status.is_fetch_due(fixed_now(), None, Some(30), 1));
}

#[test]
fn loaded_respects_refetch_interval() {
    let now = fixed_now();
    let recent = before(now, Duration::minutes(5));
    let stale = before(now, Duration::minutes(30));
    let status = LoadingStatus::Loaded;

    assert!(!status.is_fetch_due(now, Some(recent), Some(30), 1));
    assert!(status.is_fetch_due(now, Some(stale), Some(30), 1));
    assert!(status.is_fetch_due(now, None, Some(30), 1));
}

#[test]
fn loaded_with_no_refetch_interval_is_never_due() {
    let now = fixed_now();
    let status = LoadingStatus::Loaded;
    assert!(!status.is_fetch_due(now, None, None, 1));
    assert!(!status.is_fetch_due(now, Some(before(now, Duration::minutes(120))), None, 1));
}

#[test]
fn error_respects_retry_interval() {
    let now = fixed_now();
    let recent = before(now, Duration::seconds(30));
    let stale = before(now, Duration::minutes(1));
    let status = LoadingStatus::Error("boom".to_string());

    assert!(!status.is_fetch_due(now, Some(recent), Some(30), 1));
    assert!(status.is_fetch_due(now, Some(stale), Some(30), 1));
    assert!(status.is_fetch_due(now, None, Some(30), 1));
}

#[test]
fn begin_fetch_if_due_marks_loading_only_when_due() {
    let now = fixed_now();

    let mut status = LoadingStatus::NotStarted;
    assert!(status.begin_fetch_if_due(now, None, Some(30), 1));
    assert_eq!(status, LoadingStatus::Loading);

    let mut status = LoadingStatus::Loaded;
    assert!(!status.begin_fetch_if_due(now, Some(now), Some(30), 1));
    assert_eq!(status, LoadingStatus::Loaded);
}

#[test]
fn minutes_are_whole_and_truncated_toward_zero() {
    assert_eq!(minutes_between(119, 0), 1);
    assert_eq!(minutes_between(120, 0), 2);
    assert_eq!(minutes_between(0, 119), -1);
    assert_eq!(minutes_between(i64::MAX, i64::MIN), (u64::MAX / 60) as i128);
}

#[test]
fn staleness_is_monotonic_in_time() {
    let last = Some(1_000);
    let mut was_stale = false;
    for now in (1_000..1_000 + 5 * 60).step_by(7) {
        let is = stale(now, last, 2);
        assert!(!was_stale || is);
        was_stale = is;
    }
    assert!(was_stale);
}

#[test]
fn a_running_fetch_is_never_started_again() {
    let mut status = LoadingStatus::Loading;
    for now in [i64::MIN, 0, i64::MAX] {
        assert!(!status.begin_fetch_if_due(now, None, Some(0), 0));
        assert_eq!(status, LoadingStatus::Loading);
    }
}

#[test]
fn status_predicates() {
    let e = LoadingStatus::Error("e".to_string());
    assert!(LoadingStatus::Loaded.is_loaded());
    assert!(LoadingStatus::Loading.is_loading());
    assert!(LoadingStatus::default().is_not_started());
    assert!(!e.is_loaded() && !e.is_loading() && !e.is_not_started());
}
