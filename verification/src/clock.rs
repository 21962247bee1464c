//! The tick counter and the clock built on it.

use core::marker::PhantomData;
use crate::delay::Delay;
use crate::ticker::{Acknowledge, Ticker};
use crate::units::{ScalingFactor, TickDuration};
use vstd::prelude::*;

verus! {

/// A point in time of one clock: the ticks counted since that clock started.
/// The tag `C` names the clock, so that instants of different clocks are
/// different types and cannot be compared or mixed.
#[derive(Debug, PartialEq, Eq, Structural)]
pub struct Instant<C> {
    pub ticks: u32,
    pub clock: PhantomData<C>,
}

impl<C> Clone for Instant<C> {
    fn clone(&self) -> (r: Self)
        ensures
            r == *self,
    {
        Instant { ticks: self.ticks, clock: PhantomData }
    }
}

impl<C> Copy for Instant<C> {
}

impl<C> Instant<C> {
    /// The instant `ticks` after the start of the clock `C`.
    pub open spec fn at(ticks: u32) -> Instant<C> {
        Instant { ticks, clock: PhantomData }
    }

    /// The instant `ticks` after the start of the clock `C`.
    #[verifier::when_used_as_spec(at)]
    pub fn new(ticks: u32) -> (r: Instant<C>)
        ensures
            r == Self::at(ticks),
    {
        Instant { ticks, clock: PhantomData }
    }
}

/// Why a clock cannot give the time.
#[derive(Clone, Copy, Debug, PartialEq, Eq, Structural)]
pub enum ClockError {
    /// The clock has not been ticked yet.
    NotRunning,
}

/// The state a counter is in after one more advance by `step`: the first
/// advance starts it at zero and adds nothing, every later one adds `step`.
pub open spec fn advanced(before: Option<nat>, step: nat) -> Option<nat> {
    match before {
        None => Some(0nat),
        Some(ticks) => Some(ticks + step),
    }
}

/// The state of a fresh counter after `k` advances by `step`.
pub open spec fn after_ticks(k: nat, step: nat) -> Option<nat>
    decreases k,
{
    if k == 0 {
        None
    } else {
        advanced(after_ticks((k - 1) as nat, step), step)
    }
}

/// What a counter in state `state` reads: `NotRunning` before the first
/// advance, the instant from then on.
pub open spec fn reading<C>(state: Option<nat>) -> Result<Instant<C>, ClockError> {
    match state {
        None => Err(ClockError::NotRunning),
        Some(ticks) => Ok(Instant::at(ticks as u32)),
    }
}

/// Holder of a clock's current instant. The view is `None` until the first
/// advance and the tick count from then on.
pub struct TickStorage<C> {
    instant: Option<Instant<C>>,
}

impl<C> View for TickStorage<C> {
    type V = Option<nat>;

    closed spec fn view(&self) -> Option<nat> {
        match self.instant {
            None => None,
            Some(instant) => Some(instant.ticks as nat),
        }
    }
}

impl<C> TickStorage<C> {
    /// Whether one more advance by `step` stays within the counter's range.
    pub open spec fn accepts(&self, step: u32) -> bool {
        match self@ {
            None => true,
            Some(ticks) => ticks + step <= u32::MAX,
        }
    }

    /// Empty storage: the clock has not started.
    pub fn new() -> (r: TickStorage<C>)
        ensures
            r@ is None,
    {
        TickStorage { instant: None }
    }

    /// Tells whether `advance(step)` may be called: always on empty storage,
    /// and on a started one exactly when the sum does not overflow.
    pub fn can_advance(&self, step: u32) -> (r: bool)
        ensures
            r == self.accepts(step),
    {
        match self.instant {
            None => true,
            Some(instant) => instant.ticks <= u32::MAX - step,
        }
    }

    /// Counts one tick. The first tick sets the instant to zero and adds no
    /// elapsed time; every later tick adds `step`. An advance that would
    /// overflow is not allowed: the caller stops instead.
    pub fn advance(&mut self, step: u32)
        requires
            old(self).accepts(step),
        ensures
            final(self)@ == advanced(old(self)@, step as nat),
    {
        let next: Instant<C> = match self.instant {
            None => Instant::new(0),
            Some(instant) => Instant::new(instant.ticks + step),
        };
        self.instant = Some(next);
    }

    /// The current instant, or `NotRunning` while the storage is empty.
    pub fn read(&self) -> (r: Result<Instant<C>, ClockError>)
        ensures
            r == reading::<C>(self@),
            self@ is Some ==> self@->0 <= u32::MAX,
    {
        match self.instant {
            Some(instant) => Ok(instant),
            None => Err(ClockError::NotRunning),
        }
    }
}

/// A tick length and the scaling factor of the clock it drives, bound
/// together with `step`, the tick length counted in clock ticks.
#[derive(Clone, Copy, Debug)]
pub struct ClockConfig {
    tick: TickDuration,
    scale: ScalingFactor,
    step: u32,
}

impl ClockConfig {
    #[verifier::type_invariant]
    spec fn step_is_tick_count(self) -> bool {
        self.tick.ticks_at(self.scale) == Some(self.step)
    }

    /// The time between two ticks.
    pub closed spec fn spec_tick(&self) -> TickDuration {
        self.tick
    }

    /// The seconds that one unit of the clock's instants stands for.
    pub closed spec fn spec_scale(&self) -> ScalingFactor {
        self.scale
    }

    /// What one tick adds to the clock's instant.
    pub closed spec fn spec_step(&self) -> u32 {
        self.step
    }

    /// Binds a tick length to a scaling factor. `None` where the tick length
    /// cannot be counted in ticks of that scale.
    pub fn new(tick: TickDuration, scale: ScalingFactor) -> (r: Option<ClockConfig>)
        ensures
            match r {
                Some(config) => config.spec_tick() == tick && config.spec_scale() == scale
                    && tick.ticks_at(scale) == Some(config.spec_step()),
                None => tick.ticks_at(scale) is None,
            },
    {
        match tick.to_ticks(&scale) {
            Some(step) => Some(ClockConfig { tick, scale, step }),
            None => None,
        }
    }

    /// Whether `step` ticks of the scale last exactly one tick length, with
    /// nothing lost to rounding: as fractions of a second,
    /// `step * numerator / denominator == value / per_second`.
    pub open spec fn exact(&self) -> bool {
        self.spec_step() * self.spec_scale().spec_numerator()
            * self.spec_tick().unit.spec_per_second() == self.spec_tick().value
            * self.spec_scale().spec_denominator()
    }

    /// Tells whether the tick length and the scaling factor agree: whether the
    /// clock's instants, read in units of the scale, advance by exactly one
    /// tick length per tick.
    pub fn is_exact(&self) -> (r: bool)
        ensures
            r == self.exact(),
    {
        let step: u64 = self.step as u64;
        let numerator: u64 = self.scale.numerator() as u64;
        let per_second: u128 = self.tick.unit.per_second() as u128;
        let value: u64 = self.tick.value as u64;
        let denominator: u64 = self.scale.denominator() as u64;
        assert(step * numerator <= 0xFFFF_FFFFu64 * 0xFFFF_FFFFu64) by (nonlinear_arith)
            requires
                step <= 0xFFFF_FFFFu64,
                numerator <= 0xFFFF_FFFFu64,
        ;
        assert(value * denominator <= 0xFFFF_FFFFu64 * 0xFFFF_FFFFu64) by (nonlinear_arith)
            requires
                value <= 0xFFFF_FFFFu64,
                denominator <= 0xFFFF_FFFFu64,
        ;
        let ticked: u128 = (step * numerator) as u128;
        assert(ticked * per_second <= 0xFFFF_FFFF_FFFF_FFFFu128 * 1_000_000u128)
            by (nonlinear_arith)
            requires
                ticked <= 0xFFFF_FFFF_FFFF_FFFFu128,
                per_second <= 1_000_000u128,
        ;
        let asked: u128 = (value * denominator) as u128;
        ticked * per_second == asked
    }

    #[verifier::when_used_as_spec(spec_tick)]
    pub fn tick(&self) -> (r: TickDuration)
        ensures
            r == self.spec_tick(),
    {
        self.tick
    }

    #[verifier::when_used_as_spec(spec_scale)]
    pub fn scale(&self) -> (r: ScalingFactor)
        ensures
            r == self.spec_scale(),
    {
        self.scale
    }

    #[verifier::when_used_as_spec(spec_step)]
    pub fn step(&self) -> (r: u32)
        ensures
            r == self.spec_step(),
            self.spec_tick().ticks_at(self.spec_scale()) == Some(r),
    {
        proof {
            use_type_invariant(self);
        }
        self.step
    }
}

/// A clock that stands still until its ticker fires. The view is that of its
/// storage.
pub struct Clock<C> {
    config: ClockConfig,
    storage: TickStorage<C>,
}

impl<C> View for Clock<C> {
    type V = Option<nat>;

    closed spec fn view(&self) -> Option<nat> {
        self.storage@
    }
}

impl<C> Clock<C> {
    /// The configuration the clock was made with.
    pub closed spec fn spec_config(&self) -> ClockConfig {
        self.config
    }

    /// Whether one more tick stays within the counter's range.
    pub open spec fn accepts_tick(&self) -> bool {
        match self@ {
            None => true,
            Some(ticks) => ticks + self.spec_config().spec_step() <= u32::MAX,
        }
    }

    /// A stopped clock: reading it fails until the first tick.
    pub fn new(config: ClockConfig) -> (r: Clock<C>)
        ensures
            r@ is None,
            r.spec_config() == config,
    {
        Clock { config, storage: TickStorage::new() }
    }

    #[verifier::when_used_as_spec(spec_config)]
    pub fn config(&self) -> (r: ClockConfig)
        ensures
            r == self.spec_config(),
    {
        self.config
    }

    /// The current instant, or `NotRunning` before the first tick.
    pub fn try_now(&self) -> (r: Result<Instant<C>, ClockError>)
        ensures
            r == reading::<C>(self@),
            self@ is Some ==> self@->0 <= u32::MAX,
    {
        self.storage.read()
    }

    /// Tells whether the next tick may be counted.
    pub fn can_tick(&self) -> (r: bool)
        ensures
            r == self.accepts_tick(),
    {
        self.storage.can_advance(self.config.step())
    }

    /// Counts one tick of the configured length.
    pub(crate) fn advance(&mut self)
        requires
            old(self).accepts_tick(),
        ensures
            final(self)@ == advanced(old(self)@, old(self).spec_config().spec_step() as nat),
            final(self).spec_config() == old(self).spec_config(),
    {
        let step: u32 = self.config.step();
        self.storage.advance(step);
    }

    /// A ticker for this clock, owning `timer`.
    pub fn ticker<T: Acknowledge>(&self, timer: T) -> (r: Ticker<C, T>)
        ensures
            r.spec_timer() == timer,
    {
        Ticker::new(timer)
    }

    /// A blocking delay on this clock.
    pub fn delay(&self) -> (r: Delay<'_, C>)
        ensures
            r.spec_clock() == *self,
    {
        Delay::new(self)
    }
}

/// Before any tick a clock is not running.
pub proof fn lemma_not_running_before_first_tick(step: nat)
    ensures
        after_ticks(0, step) is None,
{
}

/// The first tick starts the clock at the zero epoch: it adds no elapsed time,
/// whatever the tick length.
pub proof fn lemma_first_tick_is_epoch(step: nat)
    ensures
        after_ticks(1, step) == Some(0nat),
{
    reveal_with_fuel(after_ticks, 2);
}

/// After `k >= 1` ticks the instant is `(k - 1) * step`.
pub proof fn lemma_instant_after_ticks(k: nat, step: nat)
    requires
        k >= 1,
    ensures
        after_ticks(k, step) == Some(((k - 1) * step) as nat),
    decreases k,
{
    if k == 1 {
        lemma_first_tick_is_epoch(step);
    } else {
        lemma_instant_after_ticks((k - 1) as nat, step);
        assert((k - 2) * step + step == (k - 1) * step) by (nonlinear_arith);
    }
}

/// On a clock whose tick length and scale agree, the time that the instant
/// stands for after `k >= 1` ticks is exactly `k - 1` tick lengths: as
/// fractions of a second,
/// `instant * numerator / denominator == (k - 1) * value / per_second`.
pub proof fn lemma_elapsed_time_after_ticks(config: ClockConfig, k: nat)
    requires
        k >= 1,
        config.exact(),
    ensures
        after_ticks(k, config.spec_step() as nat) is Some,
        after_ticks(k, config.spec_step() as nat)->0 * config.spec_scale().spec_numerator()
            * config.spec_tick().unit.spec_per_second() == (k - 1) * config.spec_tick().value
            * config.spec_scale().spec_denominator(),
{
    let step = config.spec_step() as int;
    let numerator = config.spec_scale().spec_numerator() as int;
    let per_second = config.spec_tick().unit.spec_per_second() as int;
    let value = config.spec_tick().value as int;
    let denominator = config.spec_scale().spec_denominator() as int;
    lemma_instant_after_ticks(k, config.spec_step() as nat);
    assert(((k - 1) * step) * numerator * per_second == (k - 1) * value * denominator)
        by (nonlinear_arith)
        requires
            step * numerator * per_second == value * denominator,
    ;
}

/// Once started, a counter never reads as not running again, and its instant
/// never goes back.
pub proof fn lemma_advance_keeps_running(before: Option<nat>, step: nat)
    ensures
        advanced(before, step) is Some,
        before is Some ==> advanced(before, step)->0 >= before->0,
{
}

/// A counter that has seen `k >= 1` ticks takes one more exactly when `k`
/// tick lengths still fit the counter: accumulation up to the largest
/// instant is allowed, and the tick that would pass it is refused.
pub proof fn lemma_overflow_boundary<C>(storage: TickStorage<C>, k: nat, step: u32)
    requires
        k >= 1,
        storage@ == after_ticks(k, step as nat),
    ensures
        storage.accepts(step) <==> k * step <= u32::MAX,
{
    lemma_instant_after_ticks(k, step as nat);
    assert((k - 1) * step + step == k * step) by (nonlinear_arith);
}

} // verus!
