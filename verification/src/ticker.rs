//! The interrupt side of a clock.

use core::marker::PhantomData;
use crate::clock::{advanced, Clock};
use vstd::prelude::*;

verus! {

/// A hardware timer whose pending interrupt can be cleared. The interrupt
/// routine of the embedding program implements this for its timer handle.
pub trait Acknowledge: Sized {
    /// What clearing the pending interrupt does to the timer handle. An
    /// implementation that says nothing leaves it open.
    open spec fn acknowledged(before: Self, after: Self) -> bool {
        true
    }

    /// Clears the pending interrupt, with exclusive access to the handle.
    fn acknowledge(&mut self)
        ensures
            Self::acknowledged(*old(self), *final(self)),
    ;
}

/// Drives the clock `C` from the timer interrupt. It owns the timer handle.
pub struct Ticker<C, T: Acknowledge> {
    timer: T,
    clock: PhantomData<C>,
}

impl<C, T: Acknowledge> Ticker<C, T> {
    /// The timer handle the ticker owns.
    pub closed spec fn spec_timer(&self) -> T {
        self.timer
    }

    /// A ticker that owns `timer`.
    pub fn new(timer: T) -> (r: Ticker<C, T>)
        ensures
            r.spec_timer() == timer,
    {
        Ticker { timer, clock: PhantomData }
    }

    /// One timer interrupt: counts a tick of the clock's configured length,
    /// then acknowledges the interrupt on the timer handle. The first tick
    /// starts the clock at zero. A tick that would overflow the counter is
    /// not allowed: the interrupt routine stops instead.
    pub fn tick(&mut self, clock: &mut Clock<C>)
        requires
            old(clock).accepts_tick(),
        ensures
            final(clock)@ == advanced(old(clock)@, old(clock).spec_config().spec_step() as nat),
            final(clock).spec_config() == old(clock).spec_config(),
            T::acknowledged(old(self).spec_timer(), final(self).spec_timer()),
    {
        clock.advance();
        self.timer.acknowledge();
    }
}

} // verus!
