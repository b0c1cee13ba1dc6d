//! The loading lifecycle that every fetching widget shares, and the rule
//! that decides when a widget fetches again.
//!
//! Instants are whole seconds since the Unix epoch.
use vstd::prelude::*;

verus! {

/// Where a widget's data stands.
#[derive(Clone, Debug, PartialEq, Eq)]
pub enum LoadingStatus {
    NotStarted,
    Loading,
    Loaded,
    Error(String),
}

impl Default for LoadingStatus {
    fn default() -> (s: Self)
        ensures
            s is NotStarted,
    {
        LoadingStatus::NotStarted
    }
}

/// Whole minutes from `then` to `now`, truncated toward zero.
pub open spec fn elapsed_minutes(now: i64, then: i64) -> int {
    let d = now - then;
    if d >= 0 {
        d / 60
    } else {
        -((-d) / 60)
    }
}

/// Whether data last updated at `last` (never, when `None`) is at least
/// `mins` minutes old at `now`.
pub open spec fn is_stale(now: i64, last: Option<i64>, mins: i64) -> bool {
    match last {
        None => true,
        Some(t) => elapsed_minutes(now, t) >= mins,
    }
}

/// Whether a widget in `status` should fetch at `now`: always before the first
/// fetch, never while one is running, after `refetch` minutes once loaded
/// (never when `refetch` is `None`), and after `retry` minutes after an error.
pub open spec fn fetch_due(
    status: LoadingStatus,
    now: i64,
    last: Option<i64>,
    refetch: Option<i64>,
    retry: i64,
) -> bool {
    match status {
        LoadingStatus::NotStarted => true,
        LoadingStatus::Loading => false,
        LoadingStatus::Loaded => match refetch {
            None => false,
            Some(m) => is_stale(now, last, m),
        },
        LoadingStatus::Error(_) => is_stale(now, last, retry),
    }
}

/// Whole minutes from `then` to `now`, truncated toward zero.
pub fn minutes_between(now: i64, then: i64) -> (m: i128)
    ensures
        m == elapsed_minutes(now, then),
{
    let d: i128 = now as i128 - then as i128;
    if d >= 0 {
        d / 60
    } else {
        let neg: i128 = -d;
        -(neg / 60)
    }
}

/// Whether data last updated at `last` is at least `mins` minutes old.
pub fn stale(now: i64, last: Option<i64>, mins: i64) -> (b: bool)
    ensures
        b == is_stale(now, last, mins),
{
    match last {
        None => true,
        Some(t) => minutes_between(now, t) >= mins as i128,
    }
}

impl LoadingStatus {
    /// Whether a widget in this status should fetch at `now`, given when it
    /// last updated, its refetch interval once loaded and its retry interval
    /// after an error (both in minutes).
    pub fn is_fetch_due(
        &self,
        now: i64,
        last_updated_at: Option<i64>,
        refetch_interval_mins: Option<i64>,
        retry_interval_mins: i64,
    ) -> (due: bool)
        ensures
            due == fetch_due(
                *self,
                now,
                last_updated_at,
                refetch_interval_mins,
                retry_interval_mins,
            ),
    {
        match self {
            LoadingStatus::NotStarted => true,
            LoadingStatus::Loading => false,
            LoadingStatus::Loaded => match refetch_interval_mins {
                None => false,
                Some(m) => stale(now, last_updated_at, m),
            },
            LoadingStatus::Error(_) => stale(now, last_updated_at, retry_interval_mins),
        }
    }

    /// Marks a fetch as started when one is due; tells whether it did.
    pub fn begin_fetch_if_due(
        &mut self,
        now: i64,
        last_updated_at: Option<i64>,
        refetch_interval_mins: Option<i64>,
        retry_interval_mins: i64,
    ) -> (started: bool)
        ensures
            started == fetch_due(
                *old(self),
                now,
                last_updated_at,
                refetch_interval_mins,
                retry_interval_mins,
            ),
            started ==> *final(self) is Loading,
            !started ==> *final(self) == *old(self),
    {
        let due = self.is_fetch_due(
            now,
            last_updated_at,
            refetch_interval_mins,
            retry_interval_mins,
        );
        if due {
            *self = LoadingStatus::Loading;
        }
        due
    }

    /// Whether this status is `Loaded`.
    pub fn is_loaded(&self) -> (b: bool)
        ensures
            b == (*self is Loaded),
    {
        match self {
            LoadingStatus::Loaded => true,
            _ => false,
        }
    }

    /// Whether this status is `Loading`.
    pub fn is_loading(&self) -> (b: bool)
        ensures
            b == (*self is Loading),
    {
        match self {
            LoadingStatus::Loading => true,
            _ => false,
        }
    }

    /// Whether this status is `NotStarted`.
    pub fn is_not_started(&self) -> (b: bool)
        ensures
            b == (*self is NotStarted),
    {
        match self {
            LoadingStatus::NotStarted => true,
            _ => false,
        }
    }
}

/// A fetch already in flight is never started twice, whatever the clock and
/// the intervals say.
pub proof fn lemma_loading_is_never_due(
    now: i64,
    last: Option<i64>,
    refetch: Option<i64>,
    retry: i64,
)
    ensures
        !fetch_due(LoadingStatus::Loading, now, last, refetch, retry),
{
}

/// Loaded data with no refetch interval is kept for good: no instant, last
/// update or retry interval makes a fetch due.
pub proof fn lemma_loaded_without_refetch_is_never_due(now: i64, last: Option<i64>, retry: i64)
    ensures
        !fetch_due(LoadingStatus::Loaded, now, last, None, retry),
{
}

/// A widget that has not fetched yet is due whatever the clock, the last
/// update and the intervals.
pub proof fn lemma_not_started_is_always_due(now: i64, last: Option<i64>, refetch: Option<i64>, retry: i64)
    ensures
        fetch_due(LoadingStatus::NotStarted, now, last, refetch, retry),
{
}

/// A widget that has never fetched, or never updated, fetches now, unless a
/// fetch is running or it is loaded with no refetch interval.
pub proof fn lemma_never_updated_is_due(status: LoadingStatus, now: i64, refetch: Option<i64>, retry: i64)
    requires
        !(status is Loading),
        !(status is Loaded && refetch is None),
    ensures
        fetch_due(status, now, None, refetch, retry),
{
}

/// Staleness only grows with time: if data is stale at `now`, it is stale at
/// any later instant.
pub proof fn lemma_stale_is_monotonic(now: i64, later: i64, last: Option<i64>, mins: i64)
    requires
        now <= later,
        is_stale(now, last, mins),
    ensures
        is_stale(later, last, mins),
{
    match last {
        None => {},
        Some(t) => {
            let d1 = now - t;
            let d2 = later - t;
            assert(d1 <= d2);
            if d1 >= 0 {
                assert(d1 / 60 <= d2 / 60) by (nonlinear_arith)
                    requires
                        0 <= d1 <= d2,
                ;
            } else if d2 >= 0 {
                assert(0 <= d2 / 60) by (nonlinear_arith)
                    requires
                        0 <= d2,
                ;
            } else {
                assert((-d2) / 60 <= (-d1) / 60) by (nonlinear_arith)
                    requires
                        0 < -d2 <= -d1,
                ;
            }
        },
    }
}

} // verus!
