//! Durations, scaling factors and the conversion between them.

use embedded_time::duration::{Duration, Microseconds, Milliseconds, Seconds};
use embedded_time::fraction::Fraction;
use vstd::prelude::*;

verus! {

/// The unit a duration is counted in.
#[derive(Clone, Copy, Debug, PartialEq, Eq, Structural)]
pub enum Unit {
    Microseconds,
    Milliseconds,
    Seconds,
}

impl Unit {
    /// How many of this unit make up one second.
    pub open spec fn spec_per_second(&self) -> u32 {
        match self {
            Unit::Microseconds => 1_000_000u32,
            Unit::Milliseconds => 1_000u32,
            Unit::Seconds => 1u32,
        }
    }

    /// How many of this unit make up one second.
    #[verifier::when_used_as_spec(spec_per_second)]
    pub fn per_second(&self) -> (r: u32)
        ensures
            r == self.spec_per_second(),
    {
        match self {
            Unit::Microseconds => 1_000_000,
            Unit::Milliseconds => 1_000,
            Unit::Seconds => 1,
        }
    }
}

/// A span of time: `value` counts of `unit`.
#[derive(Clone, Copy, Debug, PartialEq, Eq, Structural)]
pub struct TickDuration {
    pub unit: Unit,
    pub value: u32,
}

/// The length of one clock tick in seconds, as the rational
/// `numerator / denominator`. Both parts are positive.
#[derive(Clone, Copy, Debug, PartialEq, Eq, Structural)]
pub struct ScalingFactor {
    numerator: u32,
    denominator: u32,
}

/// What `embedded_time` makes of `Microseconds(value)` when it is converted to
/// a count of ticks that each last `numerator / denominator` seconds; `None`
/// where the conversion fails.
pub uninterp spec fn microseconds_in_ticks(value: u32, numerator: u32, denominator: u32) -> Option<u32>;

/// What `embedded_time` makes of `Milliseconds(value)` when it is converted to
/// a count of ticks that each last `numerator / denominator` seconds; `None`
/// where the conversion fails.
pub uninterp spec fn milliseconds_in_ticks(value: u32, numerator: u32, denominator: u32) -> Option<u32>;

/// What `embedded_time` makes of `Seconds(value)` when it is converted to a
/// count of ticks that each last `numerator / denominator` seconds; `None`
/// where the conversion fails.
pub uninterp spec fn seconds_in_ticks(value: u32, numerator: u32, denominator: u32) -> Option<u32>;

/// Trusted: calls `Duration::to_generic::<u32>` of `embedded_time` on
/// `Microseconds(value)` with the fraction `numerator / denominator`, and hands
/// back the integer of the generic duration, or `None` for any conversion
/// error. The contract only gives that result its name. A zero numerator or
/// denominator is kept away from the fraction arithmetic.
#[verifier::external_body]
fn microseconds_to_ticks(value: u32, numerator: u32, denominator: u32) -> (r: Option<u32>)
    requires
        numerator > 0,
        denominator > 0,
    ensures
        r == microseconds_in_ticks(value, numerator, denominator),
{
    match Microseconds(value).to_generic::<u32>(Fraction::new(numerator, denominator)) {
        Ok(generic) => Some(generic.integer()),
        Err(_) => None,
    }
}

/// Trusted: calls `Duration::to_generic::<u32>` of `embedded_time` on
/// `Milliseconds(value)` with the fraction `numerator / denominator`, and hands
/// back the integer of the generic duration, or `None` for any conversion
/// error. The contract only gives that result its name. A zero numerator or
/// denominator is kept away from the fraction arithmetic.
#[verifier::external_body]
fn milliseconds_to_ticks(value: u32, numerator: u32, denominator: u32) -> (r: Option<u32>)
    requires
        numerator > 0,
        denominator > 0,
    ensures
        r == milliseconds_in_ticks(value, numerator, denominator),
{
    match Milliseconds(value).to_generic::<u32>(Fraction::new(numerator, denominator)) {
        Ok(generic) => Some(generic.integer()),
        Err(_) => None,
    }
}

/// Trusted: calls `Duration::to_generic::<u32>` of `embedded_time` on
/// `Seconds(value)` with the fraction `numerator / denominator`, and hands back
/// the integer of the generic duration, or `None` for any conversion error.
/// The contract only gives that result its name. A zero numerator or
/// denominator is kept away from the fraction arithmetic.
#[verifier::external_body]
fn seconds_to_ticks(value: u32, numerator: u32, denominator: u32) -> (r: Option<u32>)
    requires
        numerator > 0,
        denominator > 0,
    ensures
        r == seconds_in_ticks(value, numerator, denominator),
{
    match Seconds(value).to_generic::<u32>(Fraction::new(numerator, denominator)) {
        Ok(generic) => Some(generic.integer()),
        Err(_) => None,
    }
}

impl ScalingFactor {
    #[verifier::type_invariant]
    spec fn positive(self) -> bool {
        self.numerator > 0 && self.denominator > 0
    }

    /// The numerator of the fraction.
    pub closed spec fn spec_numerator(&self) -> u32 {
        self.numerator
    }

    /// The denominator of the fraction.
    pub closed spec fn spec_denominator(&self) -> u32 {
        self.denominator
    }

    /// The fraction `numerator / denominator`, kept as given (not reduced).
    /// A fraction with a zero part is no tick length and is refused.
    pub fn new(numerator: u32, denominator: u32) -> (r: Option<ScalingFactor>)
        ensures
            r is Some <==> numerator > 0 && denominator > 0,
            r is Some ==> r->0.spec_numerator() == numerator
                && r->0.spec_denominator() == denominator,
    {
        if numerator > 0 && denominator > 0 {
            Some(ScalingFactor { numerator, denominator })
        } else {
            None
        }
    }

    #[verifier::when_used_as_spec(spec_numerator)]
    pub fn numerator(&self) -> (r: u32)
        ensures
            r == self.spec_numerator(),
            r > 0,
    {
        proof {
            use_type_invariant(self);
        }
        self.numerator
    }

    #[verifier::when_used_as_spec(spec_denominator)]
    pub fn denominator(&self) -> (r: u32)
        ensures
            r == self.spec_denominator(),
            r > 0,
    {
        proof {
            use_type_invariant(self);
        }
        self.denominator
    }
}

impl TickDuration {
    /// `value` microseconds.
    pub open spec fn spec_microseconds(value: u32) -> TickDuration {
        TickDuration { unit: Unit::Microseconds, value }
    }

    /// `value` microseconds.
    #[verifier::when_used_as_spec(spec_microseconds)]
    pub fn microseconds(value: u32) -> (r: TickDuration)
        ensures
            r == Self::spec_microseconds(value),
    {
        TickDuration { unit: Unit::Microseconds, value }
    }

    /// `value` milliseconds.
    pub open spec fn spec_milliseconds(value: u32) -> TickDuration {
        TickDuration { unit: Unit::Milliseconds, value }
    }

    /// `value` milliseconds.
    #[verifier::when_used_as_spec(spec_milliseconds)]
    pub fn milliseconds(value: u32) -> (r: TickDuration)
        ensures
            r == Self::spec_milliseconds(value),
    {
        TickDuration { unit: Unit::Milliseconds, value }
    }

    /// `value` seconds.
    pub open spec fn spec_seconds(value: u32) -> TickDuration {
        TickDuration { unit: Unit::Seconds, value }
    }

    /// `value` seconds.
    #[verifier::when_used_as_spec(spec_seconds)]
    pub fn seconds(value: u32) -> (r: TickDuration)
        ensures
            r == Self::spec_seconds(value),
    {
        TickDuration { unit: Unit::Seconds, value }
    }

    /// This duration as a count of ticks of length `scale`, as the time
    /// library converts it.
    pub open spec fn ticks_at(self, scale: ScalingFactor) -> Option<u32> {
        match self.unit {
            Unit::Microseconds => microseconds_in_ticks(
                self.value,
                scale.spec_numerator(),
                scale.spec_denominator(),
            ),
            Unit::Milliseconds => milliseconds_in_ticks(
                self.value,
                scale.spec_numerator(),
                scale.spec_denominator(),
            ),
            Unit::Seconds => seconds_in_ticks(
                self.value,
                scale.spec_numerator(),
                scale.spec_denominator(),
            ),
        }
    }

    /// Converts this duration into ticks of length `scale`. `None` where the
    /// count does not fit the tick counter.
    pub fn to_ticks(&self, scale: &ScalingFactor) -> (r: Option<u32>)
        ensures
            r == self.ticks_at(*scale),
    {
        let numerator: u32 = scale.numerator();
        let denominator: u32 = scale.denominator();
        match self.unit {
            Unit::Microseconds => microseconds_to_ticks(self.value, numerator, denominator),
            Unit::Milliseconds => milliseconds_to_ticks(self.value, numerator, denominator),
            Unit::Seconds => seconds_to_ticks(self.value, numerator, denominator),
        }
    }
}

} // verus!
