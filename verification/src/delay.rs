//! Blocking waits on a clock.

use crate::clock::{
    after_ticks, lemma_instant_after_ticks, reading, Clock, ClockError, Instant,
};
use crate::units::TickDuration;
use vstd::prelude::*;

verus! {

/// Why a delay cannot be started.
#[derive(Clone, Copy, Debug, PartialEq, Eq, Structural)]
pub enum DelayError {
    /// The clock has not been ticked yet.
    NotRunning,
    /// The duration does not fit the clock's counter, or the instant the
    /// delay would end at lies beyond it.
    Overflow,
}

/// A delay under way: the instant it started at and the instant it ends at.
#[derive(Debug, PartialEq, Eq, Structural)]
pub struct Deadline<C> {
    pub start: Instant<C>,
    pub target: Instant<C>,
}

impl<C> Clone for Deadline<C> {
    fn clone(&self) -> (r: Self)
        ensures
            r == *self,
    {
        Deadline { start: self.start, target: self.target }
    }
}

impl<C> Copy for Deadline<C> {
}

/// The deadline of a delay, from what the clock read when it was asked for
/// and the requested duration in ticks (`None` where it has no tick count).
pub open spec fn planned<C>(now: Result<Instant<C>, ClockError>, ticks: Option<u32>) -> Result<
    Deadline<C>,
    DelayError,
> {
    match now {
        Err(_) => Err(DelayError::NotRunning),
        Ok(start) => match ticks {
            None => Err(DelayError::Overflow),
            Some(ticks) => if start.ticks + ticks <= u32::MAX {
                Ok(Deadline { start, target: Instant::at((start.ticks + ticks) as u32) })
            } else {
                Err(DelayError::Overflow)
            },
        },
    }
}

impl<C> Deadline<C> {
    /// Plans a delay of `ticks` that starts at the instant `now`:
    /// `NotRunning` where the clock gave no instant, `Overflow` where the
    /// duration has no tick count or the end lies beyond the counter.
    pub fn plan(now: Result<Instant<C>, ClockError>, ticks: Option<u32>) -> (r: Result<
        Deadline<C>,
        DelayError,
    >)
        ensures
            r == planned(now, ticks),
    {
        match now {
            Err(_) => Err(DelayError::NotRunning),
            Ok(start) => match ticks {
                None => Err(DelayError::Overflow),
                Some(ticks) => {
                    if start.ticks <= u32::MAX - ticks {
                        {
                        let target = Instant::new(start.ticks + ticks);
                        Ok(Deadline { start, target })
                    }
                    } else {
                        Err(DelayError::Overflow)
                    }
                },
            },
        }
    }

    /// Whether the delay is over at the instant `now`.
    pub open spec fn is_reached(&self, now: Instant<C>) -> bool {
        now.ticks >= self.target.ticks
    }

    /// Whether the delay is over at the instant `now`: the clock has come to
    /// the target instant or passed it.
    #[verifier::when_used_as_spec(is_reached)]
    pub fn reached(&self, now: Instant<C>) -> (r: bool)
        ensures
            r == self.is_reached(now),
    {
        now.ticks >= self.target.ticks
    }
}

/// A blocking delay on a clock. It only reads the clock.
pub struct Delay<'a, C> {
    clock: &'a Clock<C>,
}

impl<'a, C> Clone for Delay<'a, C> {
    fn clone(&self) -> (r: Self)
        ensures
            r == *self,
    {
        Delay { clock: self.clock }
    }
}

impl<'a, C> Copy for Delay<'a, C> {
}

impl<'a, C> Delay<'a, C> {
    /// The clock that the delay reads.
    pub closed spec fn spec_clock(&self) -> Clock<C> {
        *self.clock
    }

    /// A delay on `clock`.
    pub fn new(clock: &'a Clock<C>) -> (r: Delay<'a, C>)
        ensures
            r.spec_clock() == *clock,
    {
        Delay { clock }
    }

    /// Starts a delay of `duration`: reads the clock, converts the duration
    /// into the clock's ticks and gives the deadline to poll for.
    pub fn delay(&self, duration: TickDuration) -> (r: Result<Deadline<C>, DelayError>)
        ensures
            r == planned(
                reading::<C>(self.spec_clock()@),
                duration.ticks_at(self.spec_clock().spec_config().spec_scale()),
            ),
    {
        let now = self.clock.try_now();
        let scale = self.clock.config().scale();
        let ticks = duration.to_ticks(&scale);
        Deadline::plan(now, ticks)
    }

    /// Starts a delay of `value` microseconds.
    pub fn delay_us(&self, value: u32) -> (r: Result<Deadline<C>, DelayError>)
        ensures
            r == planned(
                reading::<C>(self.spec_clock()@),
                TickDuration::spec_microseconds(value).ticks_at(
                    self.spec_clock().spec_config().spec_scale(),
                ),
            ),
    {
        self.delay(TickDuration::microseconds(value))
    }

    /// Starts a delay of `value` milliseconds.
    pub fn delay_ms(&self, value: u32) -> (r: Result<Deadline<C>, DelayError>)
        ensures
            r == planned(
                reading::<C>(self.spec_clock()@),
                TickDuration::spec_milliseconds(value).ticks_at(
                    self.spec_clock().spec_config().spec_scale(),
                ),
            ),
    {
        self.delay(TickDuration::milliseconds(value))
    }

    /// One poll of a delay under way: reads the clock and tells whether the
    /// deadline is reached. `NotRunning` where the clock never started.
    pub fn expired(&self, deadline: &Deadline<C>) -> (r: Result<bool, ClockError>)
        ensures
            match reading::<C>(self.spec_clock()@) {
                Ok(now) => r == Ok::<bool, ClockError>(deadline.is_reached(now)),
                Err(e) => r == Err::<bool, ClockError>(e),
            },
    {
        match self.clock.try_now() {
            Ok(now) => Ok(deadline.reached(now)),
            Err(e) => Err(e),
        }
    }
}

/// A delay is over only once the clock has counted the whole duration since
/// the start.
pub proof fn lemma_delay_waits_full_duration<C>(start: Instant<C>, ticks: u32, now: Instant<C>)
    requires
        planned(Ok(start), Some(ticks)) is Ok,
        planned(Ok(start), Some(ticks))->Ok_0.is_reached(now),
    ensures
        now.ticks - start.ticks >= ticks,
{
}

/// On a clock that had seen `k0 >= 1` ticks of length `step` when the delay
/// started and has seen `k1` when it is over, the ticks in between make up
/// at least the duration: with `step == 1`, a delay of one hundred is over
/// no sooner than one hundred ticks later.
pub proof fn lemma_delay_observes_ticks<C>(k0: nat, k1: nat, step: u32, ticks: u32)
    requires
        k0 >= 1,
        k1 >= 1,
        (k0 - 1) * step + ticks <= u32::MAX,
        (k1 - 1) * step <= u32::MAX,
        planned(reading::<C>(after_ticks(k0, step as nat)), Some(ticks))->Ok_0.is_reached(
            reading::<C>(after_ticks(k1, step as nat))->Ok_0,
        ),
    ensures
        (k1 - k0) * step >= ticks,
{
    lemma_instant_after_ticks(k0, step as nat);
    lemma_instant_after_ticks(k1, step as nat);
    assert((k1 - 1) * step - (k0 - 1) * step == (k1 - k0) * step) by (nonlinear_arith);
}

} // verus!
