use vstd::prelude::*;

verus! {

/// How long a freshly loaded value stays fresh.
#[derive(Clone, Copy, Debug, PartialEq, Eq, Structural)]
pub enum Freshness {
    /// Fresh until this absolute time (milliseconds since the epoch).
    ValidUntil(u64),
    /// Fresh for this many milliseconds after the value was received.
    MaxAge(u64),
}

/// The instant at which a value received at `received_at` stops being fresh.
/// A relative age that would run past the largest timestamp never expires.
pub open spec fn expiry_of(freshness: Freshness, received_at: u64) -> u64 {
    match freshness {
        Freshness::ValidUntil(t) => t,
        Freshness::MaxAge(age) => if received_at + age > u64::MAX {
            u64::MAX
        } else {
            (received_at + age) as u64
        },
    }
}

impl Freshness {
    /// The absolute expiry of a value received at `received_at`.
    pub fn expires_at(&self, received_at: u64) -> (r: u64)
        ensures
            r == expiry_of(*self, received_at),
    {
        match *self {
            Freshness::ValidUntil(t) => t,
            Freshness::MaxAge(age) => received_at.saturating_add(age),
        }
    }
}

/// The result of one successful load from a data source.
#[derive(Debug)]
pub struct DataLoadResult<T> {
    /// The loaded value.
    pub data: T,
    /// Once the value is stale it may not be used until it is revalidated.
    pub must_revalidate: bool,
    /// How long the value stays fresh.
    pub freshness: Freshness,
}

/// One immutable cached value with its expiry facts.
#[derive(Debug)]
pub struct Snapshot<T> {
    /// The cached value.
    pub data: T,
    /// The value is fresh strictly before this instant.
    pub expires_at: u64,
    /// Once stale, the value may not be served until a refresh succeeds.
    pub must_revalidate: bool,
}

impl<T> DataLoadResult<T> {
    /// The snapshot that a load received at `received_at` becomes.
    pub open spec fn snapshot_at(self, received_at: u64) -> Snapshot<T> {
        Snapshot {
            data: self.data,
            expires_at: expiry_of(self.freshness, received_at),
            must_revalidate: self.must_revalidate,
        }
    }

    /// Turns a load received at `received_at` into a snapshot, converting a
    /// relative age into an absolute expiry.
    pub fn into_snapshot(self, received_at: u64) -> (r: Snapshot<T>)
        ensures
            r == self.snapshot_at(received_at),
    {
        let expires_at = self.freshness.expires_at(received_at);
        Snapshot { data: self.data, expires_at, must_revalidate: self.must_revalidate }
    }
}

impl<T> Snapshot<T> {
    /// A snapshot is fresh at `now` strictly before its expiry.
    pub open spec fn fresh_at(&self, now: u64) -> bool {
        now < self.expires_at
    }

    /// Whether the snapshot is still fresh at `now`.
    pub fn is_fresh(&self, now: u64) -> (r: bool)
        ensures
            r == self.fresh_at(now),
    {
        now < self.expires_at
    }
}

} // verus!
