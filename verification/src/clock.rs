//! The elapsed-time accumulator: the running total of unpaused time since
//! the last reset, kept from readings of a monotonic clock.
//!
//! A reading is a number of nanoseconds since an origin that the caller
//! chooses and keeps for the session.

use vstd::prelude::*;

verus! {

/// Nanoseconds in a second.
pub const NANOS_PER_SEC: u64 = 1_000_000_000;

/// What an accumulator holds, as mathematical integers: the nanoseconds
/// counted so far and the reading up to which they were counted.
pub struct Tally {
    pub accumulated: nat,
    pub last_tick: nat,
}

impl Tally {
    /// The time counted never exceeds the reading it was counted up to.
    pub open spec fn wf(self) -> bool {
        self.accumulated <= self.last_tick
    }

    /// The empty tally anchored at `now`.
    pub open spec fn starting(now: nat) -> Tally {
        Tally { accumulated: 0, last_tick: now }
    }

    /// The tally after the time from the anchor to `now` has been counted.
    /// A reading that lies before the anchor counts nothing and leaves the
    /// anchor where it is: the clock does not run backwards.
    pub open spec fn advanced(self, now: nat) -> Tally {
        if now > self.last_tick {
            Tally {
                accumulated: self.accumulated + (now - self.last_tick) as nat,
                last_tick: now,
            }
        } else {
            self
        }
    }

    /// The tally with its anchor moved up to `now` and nothing counted, so
    /// that the time before `now` stays out of the total.
    pub open spec fn anchored(self, now: nat) -> Tally {
        if now > self.last_tick {
            Tally { accumulated: self.accumulated, last_tick: now }
        } else {
            self
        }
    }

    /// The whole seconds counted so far; a started second does not count.
    pub open spec fn elapsed_secs(self) -> nat {
        self.accumulated / (NANOS_PER_SEC as nat)
    }
}

/// The running total of unpaused time.
pub struct Accumulator {
    accumulated: u64,
    last_tick: u64,
}

impl View for Accumulator {
    type V = Tally;

    closed spec fn view(&self) -> Tally {
        Tally { accumulated: self.accumulated as nat, last_tick: self.last_tick as nat }
    }
}

impl Accumulator {
    #[verifier::type_invariant]
    spec fn inv(self) -> bool {
        self.accumulated <= self.last_tick
    }

    /// An accumulator that has counted nothing, anchored at `now`.
    pub fn new(now: u64) -> (clock: Accumulator)
        ensures
            clock@ == Tally::starting(now as nat),
            clock@.wf(),
    {
        Accumulator { accumulated: 0, last_tick: now }
    }

    /// Counts the time from the anchor to `now` and anchors at `now`.
    pub fn advance(&mut self, now: u64)
        ensures
            final(self)@ == old(self)@.advanced(now as nat),
            final(self)@.wf(),
    {
        proof {
            use_type_invariant(&*self);
        }
        if now > self.last_tick {
            let delta: u64 = now - self.last_tick;
            self.last_tick = now;
            self.accumulated = self.accumulated + delta;
        }
    }

    /// Moves the anchor up to `now` without counting, as on resuming after
    /// a pause.
    pub fn resume(&mut self, now: u64)
        ensures
            final(self)@ == old(self)@.anchored(now as nat),
            final(self)@.wf(),
    {
        proof {
            use_type_invariant(&*self);
        }
        if now > self.last_tick {
            self.last_tick = now;
        }
    }

    /// Forgets what was counted and anchors at `now`.
    pub fn reset(&mut self, now: u64)
        ensures
            final(self)@ == Tally::starting(now as nat),
            final(self)@.wf(),
    {
        self.accumulated = 0;
        self.last_tick = now;
    }

    /// The nanoseconds counted so far.
    pub fn accumulated_nanos(&self) -> (nanos: u64)
        ensures
            nanos == self@.accumulated,
            self@.wf(),
    {
        proof {
            use_type_invariant(self);
        }
        self.accumulated
    }

    /// The reading up to which time has been counted.
    pub fn last_tick(&self) -> (reading: u64)
        ensures
            reading == self@.last_tick,
    {
        self.last_tick
    }

    /// The whole seconds counted so far.
    pub fn elapsed_secs(&self) -> (secs: u64)
        ensures
            secs == self@.elapsed_secs(),
    {
        self.accumulated / NANOS_PER_SEC
    }
}

} // verus!
