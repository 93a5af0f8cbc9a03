use std::sync::Arc;
use vstd::prelude::*;

use crate::data_provider::{expiry_of, DataLoadResult, Snapshot};

verus! {

/// A failed refresh: what the source reported, and when.
#[derive(Debug)]
pub struct DataProviderError<E> {
    /// The error that the data source reported.
    pub cause: E,
    /// When the failed attempt finished.
    pub timestamp: u64,
}

/// A failure shared by every reader that observes one failed attempt.
pub type SharedError<E> = Arc<DataProviderError<E>>;

/// Within `retry_interval` of a failure at `failed_at` no new attempt starts.
pub open spec fn in_backoff(failed_at: u64, now: u64, retry_interval: u64) -> bool {
    now < failed_at + retry_interval
}

impl<E> DataProviderError<E> {
    /// Wraps an error reported by the source at `timestamp`.
    pub fn new(cause: E, timestamp: u64) -> (r: Self)
        ensures
            r.cause == cause,
            r.timestamp == timestamp,
    {
        DataProviderError { cause, timestamp }
    }

    /// The error that the data source reported.
    pub fn source(&self) -> (r: &E)
        ensures
            *r == self.cause,
    {
        &self.cause
    }

    /// Whether this failure still holds back a new attempt at `now`.
    pub fn blocks_retry_at(&self, now: u64, retry_interval: u64) -> (r: bool)
        ensures
            r == in_backoff(self.timestamp, now, retry_interval),
    {
        now < self.timestamp || now - self.timestamp < retry_interval
    }
}

/// A read handle: keeps the snapshot it was taken from alive and unchanged,
/// whatever is published after it.
#[derive(Debug)]
pub struct CachedData<T>(Arc<Snapshot<T>>);

impl<T> View for CachedData<T> {
    type V = Snapshot<T>;

    closed spec fn view(&self) -> Snapshot<T> {
        *self.0
    }
}

impl<T> CachedData<T> {
    /// A handle on a shared snapshot.
    pub fn new(snapshot: Arc<Snapshot<T>>) -> (r: Self)
        ensures
            r@ == *snapshot,
    {
        CachedData(snapshot)
    }

    /// The cached value.
    pub fn data(&self) -> (r: &T)
        ensures
            *r == self@.data,
    {
        &self.0.data
    }

    /// When the snapshot behind this handle stops being fresh.
    pub fn expires_at(&self) -> (r: u64)
        ensures
            r == self@.expires_at,
    {
        self.0.expires_at
    }

    /// Whether the snapshot behind this handle must be revalidated once stale.
    pub fn must_revalidate(&self) -> (r: bool)
        ensures
            r == self@.must_revalidate,
    {
        self.0.must_revalidate
    }

    /// The shared snapshot itself.
    pub fn snapshot(&self) -> (r: Arc<Snapshot<T>>)
        ensures
            *r == self@,
    {
        Arc::clone(&self.0)
    }
}

impl<T> std::ops::Deref for CachedData<T> {
    type Target = T;

    fn deref(&self) -> (r: &T)
        ensures
            *r == self@.data,
    {
        &self.0.data
    }
}

/// The state behind the refresh lock: the data source, and the failure of the
/// last attempt, if it failed. Only the holder of the lock calls the source.
#[derive(Debug)]
pub struct Revalidator<P, E> {
    data_provider: P,
    revalidation_error: Option<SharedError<E>>,
}

/// What a read does next.
#[derive(Debug)]
pub enum ReadStep<E> {
    /// The snapshot is fresh: serve it.
    Fresh,
    /// Serve the stale snapshot at once, without waiting for any refresh.
    ServeStale,
    /// Another reader is refreshing and the snapshot may not be served stale:
    /// wait for the lock, then take `Revalidator::waiter_outcome`.
    WaitForRefresh,
    /// The last attempt failed too recently to try again, and the snapshot may
    /// not be served stale: fail with that attempt's error.
    Fail(SharedError<E>),
    /// This reader holds the lock and starts a refresh. If `caller_waits`, it
    /// returns the attempt's outcome; otherwise it serves the stale snapshot at
    /// once while the attempt runs on.
    Refresh { caller_waits: bool },
}

/// The read algorithm. `lock` is `None` when another reader holds the refresh
/// lock, and otherwise the last failure that the lock remembers.
pub open spec fn read_step<T, E>(
    snap: Snapshot<T>,
    now: u64,
    lock: Option<Option<SharedError<E>>>,
    retry_interval: u64,
) -> ReadStep<E> {
    if snap.fresh_at(now) {
        ReadStep::Fresh
    } else {
        match lock {
            None => if snap.must_revalidate {
                ReadStep::WaitForRefresh
            } else {
                ReadStep::ServeStale
            },
            Some(last) => match last {
                Some(failure) => if in_backoff(failure.timestamp, now, retry_interval) {
                    if snap.must_revalidate {
                        ReadStep::Fail(failure)
                    } else {
                        ReadStep::ServeStale
                    }
                } else {
                    ReadStep::Refresh { caller_waits: snap.must_revalidate }
                },
                None => ReadStep::Refresh { caller_waits: snap.must_revalidate },
            },
        }
    }
}

/// What one refresh attempt yields: the new snapshot, or the failure stamped
/// with the time the attempt finished.
pub open spec fn refresh_result<T, E>(
    outcome: Result<DataLoadResult<T>, E>,
    at: u64,
) -> Result<Snapshot<T>, DataProviderError<E>> {
    match outcome {
        Ok(load) => Ok(load.snapshot_at(at)),
        Err(cause) => Err(DataProviderError { cause, timestamp: at }),
    }
}

/// What a read result holds, with its shared pointers seen through.
pub open spec fn read_view<T, E>(r: Result<CachedData<T>, SharedError<E>>) -> Result<
    Snapshot<T>,
    DataProviderError<E>,
> {
    match r {
        Ok(handle) => Ok(handle@),
        Err(failure) => Err(*failure),
    }
}

/// The failure that the lock remembers after an attempt that returned `r`.
pub open spec fn failure_after<T, E>(r: Result<CachedData<T>, SharedError<E>>) -> Option<
    SharedError<E>,
> {
    match r {
        Ok(_) => None,
        Err(failure) => Some(failure),
    }
}

/// What a reader that waited for the lock gets: the failure of the attempt it
/// waited for, or else the snapshot that is current once the lock is free.
pub open spec fn waiter_result<T, E>(
    last_failure: Option<SharedError<E>>,
    current: CachedData<T>,
) -> Result<CachedData<T>, SharedError<E>> {
    match last_failure {
        Some(failure) => Err(failure),
        None => Ok(current),
    }
}

impl<P, E> Revalidator<P, E> {
    /// The data source behind the lock.
    pub closed spec fn source_spec(&self) -> P {
        self.data_provider
    }

    /// The failure of the last attempt, if it failed.
    pub closed spec fn failure(&self) -> Option<SharedError<E>> {
        self.revalidation_error
    }

    /// The state of a coordinator whose first load succeeded: no failure yet.
    pub fn new(data_provider: P) -> (r: Self)
        ensures
            r.source_spec() == data_provider,
            r.failure() is None,
    {
        Revalidator { data_provider, revalidation_error: None }
    }

    /// The data source, for the holder of the lock to call.
    pub fn data_provider(&self) -> (r: &P)
        ensures
            *r == self.source_spec(),
    {
        &self.data_provider
    }

    /// The failure of the last attempt, if it failed.
    pub fn last_failure(&self) -> (r: Option<SharedError<E>>)
        ensures
            r == self.failure(),
    {
        match &self.revalidation_error {
            Some(failure) => Some(Arc::clone(failure)),
            None => None,
        }
    }

    /// Records the outcome of the attempt that the holder of the lock made,
    /// received at `at`. A success yields the snapshot to publish and clears the
    /// failure; a failure is remembered, and the current snapshot stays.
    pub fn record_outcome<T>(&mut self, outcome: Result<DataLoadResult<T>, E>, at: u64) -> (r:
        Result<CachedData<T>, SharedError<E>>)
        ensures
            read_view(r) == refresh_result(outcome, at),
            final(self).failure() == failure_after(r),
            final(self).source_spec() == old(self).source_spec(),
    {
        match outcome {
            Ok(load) => {
                self.revalidation_error = None;
                Ok(CachedData::new(Arc::new(load.into_snapshot(at))))
            },
            Err(cause) => {
                let failure = Arc::new(DataProviderError::new(cause, at));
                self.revalidation_error = Some(Arc::clone(&failure));
                Err(failure)
            },
        }
    }

    /// The result for a reader that waited for the lock, once it holds it:
    /// `current` is the snapshot published at that moment.
    pub fn waiter_outcome<T>(&self, current: CachedData<T>) -> (r: Result<
        CachedData<T>,
        SharedError<E>,
    >)
        ensures
            r == waiter_result(self.failure(), current),
    {
        match &self.revalidation_error {
            Some(failure) => Err(Arc::clone(failure)),
            None => Ok(current),
        }
    }
}

/// Decides what a read at `now` of the current snapshot `snap` does. `lock` is
/// `None` when the refresh lock could not be taken, and the lock's state when
/// this reader holds it.
pub fn decide_read<T, P, E>(
    snap: &Snapshot<T>,
    now: u64,
    lock: Option<&Revalidator<P, E>>,
    retry_interval: u64,
) -> (r: ReadStep<E>)
    ensures
        r == read_step(
            *snap,
            now,
            match lock {
                Some(held) => Some(held.failure()),
                None => None,
            },
            retry_interval,
        ),
{
    if snap.is_fresh(now) {
        return ReadStep::Fresh;
    }
    match lock {
        None => if snap.must_revalidate {
            ReadStep::WaitForRefresh
        } else {
            ReadStep::ServeStale
        },
        Some(held) => match &held.revalidation_error {
            Some(failure) => if failure.blocks_retry_at(now, retry_interval) {
                if snap.must_revalidate {
                    ReadStep::Fail(Arc::clone(failure))
                } else {
                    ReadStep::ServeStale
                }
            } else {
                ReadStep::Refresh { caller_waits: snap.must_revalidate }
            },
            None => ReadStep::Refresh { caller_waits: snap.must_revalidate },
        },
    }
}


/// A read strictly before the snapshot's expiry serves the snapshot, whatever
/// the state of the lock, and starts no refresh.
pub proof fn lemma_fresh_read_serves_current<T, E>(
    snap: Snapshot<T>,
    now: u64,
    lock: Option<Option<SharedError<E>>>,
    retry_interval: u64,
)
    requires
        snap.fresh_at(now),
    ensures
        read_step(snap, now, lock, retry_interval) == ReadStep::<E>::Fresh,
{
}

/// Single flight: while one reader holds the lock, a stale read that must
/// revalidate waits and starts no attempt of its own. Once the holder has
/// recorded its attempt, and published the new snapshot if there is one, every
/// reader that waited gets the holder's own result: the one new snapshot or
/// the one shared failure.
pub proof fn lemma_single_flight<T, P, E>(
    snap: Snapshot<T>,
    now: u64,
    retry_interval: u64,
    outcome: Result<DataLoadResult<T>, E>,
    at: u64,
    refresher: Result<CachedData<T>, SharedError<E>>,
    after: Revalidator<P, E>,
    current: CachedData<T>,
)
    requires
        !snap.fresh_at(now),
        snap.must_revalidate,
        read_view(refresher) == refresh_result(outcome, at),
        after.failure() == failure_after(refresher),
        refresher is Ok ==> current == refresher->Ok_0,
    ensures
        read_step::<T, E>(snap, now, None, retry_interval) == ReadStep::<E>::WaitForRefresh,
        waiter_result(after.failure(), current) == refresher,
        read_view(waiter_result(after.failure(), current)) == refresh_result(outcome, at),
{
}

/// When the holder of the lock fails a read from within the backoff window,
/// the readers that waited for it get that same failure.
pub proof fn lemma_waiters_share_backoff_failure<T, P, E>(
    snap: Snapshot<T>,
    now: u64,
    retry_interval: u64,
    lock: Revalidator<P, E>,
    failure: SharedError<E>,
    current: CachedData<T>,
)
    requires
        read_step(snap, now, Some(lock.failure()), retry_interval) == ReadStep::Fail(failure),
    ensures
        snap.must_revalidate,
        waiter_result(lock.failure(), current) == Err::<CachedData<T>, SharedError<E>>(failure),
{
}

/// A stale read whose snapshot does not mandate revalidation never waits and
/// never fails: it serves the stale snapshot, and if it holds the lock with no
/// failure remembered it starts a refresh without waiting for it. The snapshot
/// such a refresh yields serves later reads as fresh until it expires.
pub proof fn lemma_optional_revalidation_never_blocks<T, E>(
    snap: Snapshot<T>,
    now: u64,
    lock: Option<Option<SharedError<E>>>,
    retry_interval: u64,
    load: DataLoadResult<T>,
    at: u64,
    later: u64,
)
    requires
        !snap.fresh_at(now),
        !snap.must_revalidate,
    ensures
        read_step(snap, now, lock, retry_interval) is ServeStale || read_step(
            snap,
            now,
            lock,
            retry_interval,
        ) == (ReadStep::<E>::Refresh { caller_waits: false }),
        lock == Some(None::<SharedError<E>>) ==> read_step(snap, now, lock, retry_interval) == (
        ReadStep::<E>::Refresh { caller_waits: false }),
        expiry_of(load.freshness, at) > later ==> read_step(
            load.snapshot_at(at),
            later,
            lock,
            retry_interval,
        ) is Fresh,
{
}

/// A failed refresh keeps the last good value: it yields no snapshot to
/// publish, and until `retry_interval` has passed since the failure every
/// stale read that may be served stale gets the stale snapshot, whether or not
/// it holds the lock.
pub proof fn lemma_failure_keeps_stale_value<T, P, E>(
    snap: Snapshot<T>,
    now: u64,
    retry_interval: u64,
    cause: E,
    at: u64,
    r: Result<CachedData<T>, SharedError<E>>,
    after: Revalidator<P, E>,
)
    requires
        !snap.fresh_at(now),
        !snap.must_revalidate,
        read_view(r) == refresh_result::<T, E>(Err(cause), at),
        after.failure() == failure_after(r),
        now < at + retry_interval,
    ensures
        r is Err,
        read_step(snap, now, Some(after.failure()), retry_interval) == ReadStep::<E>::ServeStale,
        read_step::<T, E>(snap, now, None, retry_interval) == ReadStep::<E>::ServeStale,
{
}

/// Backoff: the holder of the lock starts an attempt only when no failure is
/// remembered or `retry_interval` has passed since the remembered one; once it
/// has passed, a stale read that holds the lock does start one.
pub proof fn lemma_refresh_respects_backoff<T, E>(
    snap: Snapshot<T>,
    now: u64,
    last: Option<SharedError<E>>,
    retry_interval: u64,
)
    ensures
        read_step(snap, now, Some(last), retry_interval) is Refresh ==> (last matches Some(
            failure,
        ) ==> now >= failure.timestamp + retry_interval),
        !snap.fresh_at(now) && (last matches Some(failure) ==> now >= failure.timestamp
            + retry_interval) ==> read_step(snap, now, Some(last), retry_interval) is Refresh,
{
}

/// A handle taken before a refresh publishes keeps its snapshot: recording a
/// successful attempt yields a handle on the new snapshot and leaves the earlier
/// handle as it was.
pub proof fn lemma_handle_survives_publish<T, E>(
    earlier: CachedData<T>,
    taken: Snapshot<T>,
    load: DataLoadResult<T>,
    at: u64,
    r: Result<CachedData<T>, SharedError<E>>,
)
    requires
        earlier@ == taken,
        read_view(r) == refresh_result::<T, E>(Ok(load), at),
    ensures
        earlier@ == taken,
        r matches Ok(handle) && handle@ == load.snapshot_at(at),
{
}

} // verus!
