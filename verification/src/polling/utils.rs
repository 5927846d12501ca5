//! Helpers shared by the pollers: change detection and the wait between ticks.

use vstd::prelude::*;
use crate::clock::{instant_now, millis_since};
use crate::parsing::playerinfo::WorldPosition;

verus! {

/// Values of which two snapshots can be told apart.
pub trait Observed {
    /// Whether both values are the same observation.
    spec fn same_as(&self, other: &Self) -> bool;

    /// Whether both values are the same observation.
    fn same(&self, other: &Self) -> (b: bool)
        ensures
            b == self.same_as(other),
    ;
}

impl Observed for u64 {
    open spec fn same_as(&self, other: &Self) -> bool {
        *self == *other
    }

    fn same(&self, other: &Self) -> (b: bool) {
        *self == *other
    }
}

impl Observed for i32 {
    open spec fn same_as(&self, other: &Self) -> bool {
        *self == *other
    }

    fn same(&self, other: &Self) -> (b: bool) {
        *self == *other
    }
}

impl Observed for String {
    open spec fn same_as(&self, other: &Self) -> bool {
        self@ == other@
    }

    fn same(&self, other: &Self) -> (b: bool) {
        *self == *other
    }
}

impl Observed for WorldPosition {
    open spec fn same_as(&self, other: &Self) -> bool {
        self@ == other@
    }

    fn same(&self, other: &Self) -> (b: bool) {
        WorldPosition::same(self, other)
    }
}

/// Records the change `c` in `v` where `before` and `after` differ.
pub fn detect<T: Observed, C>(v: &mut Vec<C>, before: &T, after: &T, c: C)
    ensures
        final(v)@ == if before.same_as(after) {
            old(v)@
        } else {
            old(v)@.push(c)
        },
{
    if before.same(after) {
        return ;
    }
    v.push(c);
}

/// Upper bound, exclusive, of the random part of a wait, in milliseconds.
pub const JITTER_MS: u64 = 50;

/// How long a poller waits before its next tick, in milliseconds: what is
/// left of `period` after `elapsed`, but not less than nothing, plus a jitter
/// below [`JITTER_MS`] taken from `entropy`.
pub open spec fn wait_millis(period: u64, elapsed: u128, entropy: u64) -> int {
    let rest = if elapsed >= period {
        0
    } else {
        period - elapsed
    };
    rest + entropy % JITTER_MS
}

/// The wait as a 64 bit number: a wait that does not fit is cut to the largest.
pub open spec fn capped_wait(period: u64, elapsed: u128, entropy: u64) -> u64 {
    if wait_millis(period, elapsed, entropy) > u64::MAX {
        u64::MAX
    } else {
        wait_millis(period, elapsed, entropy) as u64
    }
}

/// Computes the wait of a poller.
pub fn wait_for(period: u64, elapsed: u128, entropy: u64) -> (millis: u64)
    ensures
        millis == capped_wait(period, elapsed, entropy),
        elapsed >= period ==> millis < JITTER_MS,
        millis >= entropy % JITTER_MS,
{
    let rest: u64 = if elapsed >= period as u128 {
        0
    } else {
        period - elapsed as u64
    };
    let jitter = entropy % JITTER_MS;
    if rest > u64::MAX - jitter {
        u64::MAX
    } else {
        rest + jitter
    }
}

/// Paces a poller: remembers when the last tick ended.
pub struct PollWaiter {
    last_executed: std::time::Instant,
    period: u64,
}

impl PollWaiter {
    /// The period between two ticks, in milliseconds.
    pub closed spec fn period(&self) -> u64 {
        self.period
    }

    /// A waiter for a poller that ticks every `period` milliseconds, starting now.
    pub fn new(period: u64) -> (waiter: Self)
        ensures
            waiter.period() == period,
    {
        Self { last_executed: instant_now(), period }
    }

    /// How long to sleep before the next tick, in milliseconds.
    ///
    /// `entropy` is a number that the caller drew at random; the wait is the
    /// rest of the period plus a jitter below [`JITTER_MS`], whatever time
    /// has passed since the last tick.
    pub fn wait(&self, entropy: u64) -> (millis: u64)
        ensures
            exists|elapsed: u128| millis == #[trigger] capped_wait(self.period(), elapsed, entropy),
            millis >= entropy % JITTER_MS,
    {
        let elapsed = millis_since(&self.last_executed);
        let millis = wait_for(self.period, elapsed, entropy);
        assert(millis == capped_wait(self.period(), elapsed, entropy));
        millis
    }

    /// Marks the end of a tick: the next wait is measured from now.
    pub fn restart(&mut self)
        ensures
            final(self).period() == old(self).period(),
    {
        self.last_executed = instant_now();
    }
}

} // verus!
