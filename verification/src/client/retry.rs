//! How long a channel waits before it connects again.

use vstd::prelude::*;

verus! {

/// Chooses the delays between attempts to connect.
///
/// A strategy may say of itself what its two methods do: `state` gives
/// what it holds as numbers, and `resets_to` and `yields` say which
/// states the methods may lead to. A strategy that says nothing lets both
/// hold of everything. What a channel states of its waits, it states in
/// these terms.
pub trait RetryStrategy {
    /// What the strategy holds, as numbers.
    open spec fn state(&self) -> Seq<u64> {
        Seq::empty()
    }

    /// Whether `reset` may lead to the state `after`.
    open spec fn resets_to(&self, after: Seq<u64>) -> bool {
        true
    }

    /// Whether `next_delay` may give `delay` and lead to the state
    /// `after`.
    open spec fn yields(&self, delay: u64, after: Seq<u64>) -> bool {
        true
    }

    /// Starts over, after a connection was made.
    fn reset(&mut self)
        ensures
            old(self).resets_to(final(self).state()),
    ;

    /// The delay before the next attempt, in milliseconds.
    fn next_delay(&mut self) -> (delay: u64)
        ensures
            old(self).yields(delay, final(self).state()),
    ;
}

/// Delays that double from a minimum up to a maximum.
#[derive(Clone, Copy, Debug, PartialEq, Eq, Structural)]
pub struct DoublingRetryStrategy {
    min: u64,
    max: u64,
    current: u64,
}

/// The delay that follows `current`: twice as long, but no longer than
/// `max`.
pub open spec fn spec_doubled(current: u64, max: u64) -> u64 {
    if 2 * current <= max {
        (2 * current) as u64
    } else {
        max
    }
}

impl DoublingRetryStrategy {
    /// The shortest delay, which a series starts with.
    pub closed spec fn spec_min(&self) -> u64 {
        self.min
    }

    /// The longest delay.
    pub closed spec fn spec_max(&self) -> u64 {
        self.max
    }

    /// The delay that `next_delay` gives next.
    pub closed spec fn spec_current(&self) -> u64 {
        self.current
    }

    /// A strategy whose delays start at `min` milliseconds and double up
    /// to `max`.
    pub fn new(min: u64, max: u64) -> (strategy: Self)
        ensures
            strategy.spec_min() == min,
            strategy.spec_max() == max,
            strategy.spec_current() == min,
    {
        DoublingRetryStrategy { min, max, current: min }
    }
}

impl RetryStrategy for DoublingRetryStrategy {
    /// The shortest delay, the longest, and the one given next.
    open spec fn state(&self) -> Seq<u64> {
        seq![self.spec_min(), self.spec_max(), self.spec_current()]
    }

    /// A reset keeps the bounds and goes back to the shortest delay.
    open spec fn resets_to(&self, after: Seq<u64>) -> bool {
        after == seq![self.spec_min(), self.spec_max(), self.spec_min()]
    }

    /// The delay given is the current one; the next is twice as long, up
    /// to the longest.
    open spec fn yields(&self, delay: u64, after: Seq<u64>) -> bool {
        &&& delay == self.spec_current()
        &&& after == seq![
            self.spec_min(),
            self.spec_max(),
            spec_doubled(self.spec_current(), self.spec_max()),
        ]
    }

    /// Goes back to the shortest delay.
    fn reset(&mut self)
        ensures
            final(self).spec_min() == old(self).spec_min(),
            final(self).spec_max() == old(self).spec_max(),
            final(self).spec_current() == old(self).spec_min(),
    {
        self.current = self.min;
    }

    /// Gives the current delay, and doubles it for the next time, up to
    /// the longest.
    fn next_delay(&mut self) -> (delay: u64)
        ensures
            delay == old(self).spec_current(),
            final(self).spec_min() == old(self).spec_min(),
            final(self).spec_max() == old(self).spec_max(),
            final(self).spec_current() == spec_doubled(
                old(self).spec_current(),
                old(self).spec_max(),
            ),
    {
        let delay: u64 = self.current;
        if self.current <= self.max / 2 {
            self.current = 2 * self.current;
        } else {
            self.current = self.max;
        }
        delay
    }
}

/// A series that starts within its bounds stays within them, and its
/// delays never get shorter.
pub proof fn lemma_doubled_bounds(current: u64, min: u64, max: u64)
    requires
        min <= current <= max,
    ensures
        min <= spec_doubled(current, max) <= max,
        current <= spec_doubled(current, max),
{
}

} // verus!
