use vstd::prelude::*;

use crate::fixed::Fixed;

verus! {

/// The fixed-period clock of the control loop.
///
/// It keeps no timer of its own: the caller reads a monotonic clock and
/// hands in each reading, in nanoseconds. The clock decides whether a
/// reading starts the next tick and records the time between ticks.
#[derive(Clone, Copy, PartialEq, Eq, Structural, Debug)]
pub struct Time {
    /// The reading at the tick before the latest one, once there was one.
    pub prev_state: Option<u64>,
    /// The reading at the latest tick.
    pub state: u64,
    /// The reading at which the clock was made.
    pub zero_time: u64,
    /// The least time between two ticks, in seconds.
    pub time_period: Fixed,
}

/// The nanoseconds from the reading `from` to the reading `to`, zero where
/// `to` is the earlier one.
pub open spec fn spec_elapsed(from: u64, to: u64) -> Fixed {
    Fixed::from_nanos(if to >= from { (to - from) as u64 } else { 0 })
}

/// The time from one reading to a later one, in seconds.
#[verifier::when_used_as_spec(spec_elapsed)]
pub fn elapsed(from: u64, to: u64) -> (span: Fixed)
    ensures
        span == spec_elapsed(from, to),
{
    if to >= from {
        Fixed::from_nanos(to - from)
    } else {
        Fixed::from_nanos(0)
    }
}

impl Time {
    /// The clock made at the reading `now`, for `frequency` ticks a second.
    pub open spec fn spec_new(frequency: Fixed, now: u64) -> Time {
        Time {
            prev_state: None,
            state: now,
            zero_time: now,
            time_period: Fixed::one().div(frequency),
        }
    }

    /// Whether the reading `now` starts the next tick: it is later than the
    /// latest tick, by no less than the period.
    pub open spec fn spec_is_due(&self, now: u64) -> bool {
        now > self.state && !elapsed(self.state, now).lt(self.time_period)
    }

    /// The clock after the reading `now`.
    pub open spec fn spec_update_state(self, now: u64) -> Time {
        if self.spec_is_due(now) {
            Time { prev_state: Some(self.state), state: now, ..self }
        } else {
            self
        }
    }

    pub open spec fn spec_get_delta(&self) -> Fixed
        recommends
            self.prev_state.is_some(),
    {
        elapsed(self.prev_state.unwrap(), self.state)
    }

    pub open spec fn spec_get_time_from_start(&self) -> Fixed {
        elapsed(self.zero_time, self.state)
    }

    pub open spec fn spec_pending_delta(&self, now: u64) -> Option<Fixed> {
        if self.spec_is_due(now) {
            Some(elapsed(self.state, now))
        } else {
            None
        }
    }

    /// Starts a clock at the reading `now`; the period is `1 / frequency`.
    pub fn new(frequency: Fixed, now: u64) -> (t: Time)
        requires
            frequency@ != 0,
        ensures
            t == Time::spec_new(frequency, now),
    {
        Time {
            prev_state: None,
            state: now,
            zero_time: now,
            time_period: Fixed::one().div(frequency),
        }
    }

    /// Whether the reading `now` starts the next tick.
    #[verifier::when_used_as_spec(spec_is_due)]
    pub fn is_due(&self, now: u64) -> (due: bool)
        ensures
            due == self.spec_is_due(now),
    {
        now > self.state && !elapsed(self.state, now).lt(self.time_period)
    }

    /// The time between ticks that a tick at the reading `now` would
    /// record, or `None` where `now` starts no tick.
    #[verifier::when_used_as_spec(spec_pending_delta)]
    pub fn pending_delta(&self, now: u64) -> (delta: Option<Fixed>)
        ensures
            delta == self.spec_pending_delta(now),
            delta.is_some() ==> delta.unwrap()@ > 0,
            delta.is_some() ==> delta == Some(self.spec_update_state(now).spec_get_delta()),
    {
        if self.is_due(now) {
            Some(elapsed(self.state, now))
        } else {
            None
        }
    }

    /// Takes one reading of the clock. Where it starts the next tick, the
    /// tick is recorded and the result is `true`; else nothing changes. The
    /// caller polls its clock until a reading is taken as a tick.
    pub fn update_state(&mut self, now: u64) -> (ticked: bool)
        ensures
            ticked == old(self).spec_is_due(now),
            *final(self) == old(self).spec_update_state(now),
            ticked ==> final(self).spec_get_delta()@ > 0,
            ticked ==> !final(self).spec_get_delta().lt(final(self).time_period),
            final(self).spec_get_time_from_start()@ >= old(self).spec_get_time_from_start()@,
    {
        if self.is_due(now) {
            self.prev_state = Some(self.state);
            self.state = now;
            true
        } else {
            false
        }
    }

    /// The time between the latest two ticks, in seconds.
    #[verifier::when_used_as_spec(spec_get_delta)]
    pub fn get_delta(&self) -> (delta: Fixed)
        requires
            self.prev_state.is_some(),
        ensures
            delta == self.spec_get_delta(),
    {
        match self.prev_state {
            Some(prev) => elapsed(prev, self.state),
            None => Fixed::zero(),
        }
    }

    /// The time from the making of the clock to the latest tick, in
    /// seconds.
    #[verifier::when_used_as_spec(spec_get_time_from_start)]
    pub fn get_time_from_start(&self) -> (span: Fixed)
        ensures
            span == self.spec_get_time_from_start(),
    {
        elapsed(self.zero_time, self.state)
    }
}

} // verus!
