use vstd::prelude::*;

verus! {

/// Elapsed milliseconds a tick at `now` observes when the previous
/// timestamp seen is `prev`: the zero sentinel on the very first tick
/// (no previous timestamp), the exact difference for a monotone clock,
/// and zero again — never a negative value — when the clock regresses.
pub open spec fn delta_spec(prev: Option<u64>, now: u64) -> u64 {
    match prev {
        Option::None => 0u64,
        Option::Some(p) => if now >= p {
            (now - p) as u64
        } else {
            0u64
        },
    }
}

/// Measures elapsed time between successive host frame timestamps.
/// Owns no state beyond the last timestamp seen.
pub struct FrameClock {
    last: Option<u64>,
}

impl FrameClock {
    /// The last timestamp recorded, if any tick has happened yet.
    pub closed spec fn last_timestamp(self) -> Option<u64> {
        self.last
    }

    pub fn new() -> (c: Self)
        ensures
            c.last_timestamp() is None,
    {
        FrameClock { last: None }
    }

    /// The delta the next tick at `now` would observe; reads only.
    pub fn delta_for(&self, now: u64) -> (d: u64)
        ensures
            d == delta_spec(self.last_timestamp(), now),
    {
        match self.last {
            None => 0,
            Some(p) => if now >= p {
                now - p
            } else {
                0
            },
        }
    }

    /// Store `now` as the previous timestamp for the next tick.
    pub fn record(&mut self, now: u64)
        ensures
            final(self).last_timestamp() == Some(now),
    {
        self.last = Some(now);
    }

    /// One full bookkeeping step: measure the delta, then remember `now`.
    pub fn tick(&mut self, now: u64) -> (d: u64)
        ensures
            d == delta_spec(old(self).last_timestamp(), now),
            final(self).last_timestamp() == Some(now),
    {
        let d = self.delta_for(now);
        self.record(now);
        d
    }
}

/// The first tick has no previous timestamp: its delta is the defined
/// sentinel 0, regardless of the absolute value of the timestamp.
pub proof fn lemma_first_delta_is_sentinel(now: u64)
    ensures
        delta_spec(None, now) == 0,
{
}

/// A clock regression (a timestamp earlier than the previous one) is
/// clamped to a delta of 0; a negative value is never produced.
pub proof fn lemma_regression_clamped(prev: u64, now: u64)
    requires
        now < prev,
    ensures
        delta_spec(Some(prev), now) == 0,
{
}

/// For a monotone clock the delta is exactly the timestamp difference.
pub proof fn lemma_monotone_delta_exact(prev: u64, now: u64)
    requires
        prev <= now,
    ensures
        delta_spec(Some(prev), now) == now - prev,
{
}

} // verus!
