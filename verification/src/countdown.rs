//! Re-exposing a countdown under another unit of time.

use vstd::prelude::*;

verus! {

/// What waiting on a countdown found.
#[derive(Clone, Copy, Debug, PartialEq, Eq, Structural)]
pub enum Wait {
    /// The countdown has run out.
    Elapsed,
    /// The countdown is still running: ask again.
    WouldBlock,
}

/// A timer that counts down a span of time and can be asked whether it has
/// run out.
pub trait CountDown: Sized {
    /// The unit the countdown takes its counts in.
    type Time;

    /// What starting the countdown with `count` does to it. An
    /// implementation that says nothing leaves it open.
    open spec fn started(before: Self, count: Self::Time, after: Self) -> bool {
        true
    }

    /// What waiting does to the countdown, and what it answers. An
    /// implementation that says nothing leaves it open.
    open spec fn waited(before: Self, after: Self, answer: Wait) -> bool {
        true
    }

    /// Starts a new countdown of `count`.
    fn start(&mut self, count: Self::Time)
        ensures
            Self::started(*old(self), count, *final(self)),
    ;

    /// Asks, without blocking, whether the countdown has run out.
    fn wait(&mut self) -> (answer: Wait)
        ensures
            Self::waited(*old(self), *final(self), answer),
    ;
}

/// A rule that turns a count in one unit into a count in another.
pub trait UnitRule {
    /// The unit that counts are given in.
    type Source;

    /// The unit that counts are turned into.
    type Target;

    /// Whether `native` is what the rule makes of `count`. An implementation
    /// that says nothing leaves it open.
    open spec fn converts(&self, count: Self::Source, native: Self::Target) -> bool {
        true
    }

    /// Converts `count` into the target unit.
    fn convert(&self, count: Self::Source) -> (native: Self::Target)
        ensures
            self.converts(count, native),
    ;
}

/// A countdown in the unit `R::Source`, carried out by a countdown in the
/// unit `R::Target`. It holds nothing but the wrapped countdown and the rule.
pub struct CountDownAdapter<CD, R> {
    inner: CD,
    rule: R,
}

impl<CD, R> CountDownAdapter<CD, R> {
    /// The wrapped countdown.
    pub closed spec fn inner(&self) -> CD {
        self.inner
    }

    /// The conversion rule.
    pub closed spec fn rule(&self) -> R {
        self.rule
    }

    /// Wraps `inner`, converting counts by `rule`.
    pub fn from(inner: CD, rule: R) -> (r: Self)
        ensures
            r.inner() == inner,
            r.rule() == rule,
    {
        CountDownAdapter { inner, rule }
    }

    /// Gives the wrapped countdown back.
    pub fn into_inner(self) -> (r: CD)
        ensures
            r == self.inner(),
    {
        self.inner
    }
}

impl<CD: CountDown, R: UnitRule<Target = CD::Time>> CountDown for CountDownAdapter<CD, R> {
    type Time = R::Source;

    /// Starting the adapter with `count` is starting the wrapped countdown
    /// with a count that the rule makes of `count`; the rule stays as it is.
    open spec fn started(before: Self, count: R::Source, after: Self) -> bool {
        &&& exists|native: CD::Time|
            #[trigger] before.rule().converts(count, native) && CD::started(
                before.inner(),
                native,
                after.inner(),
            )
        &&& after.rule() == before.rule()
    }

    /// Waiting on the adapter is waiting on the wrapped countdown.
    open spec fn waited(before: Self, after: Self, answer: Wait) -> bool {
        &&& CD::waited(before.inner(), after.inner(), answer)
        &&& after.rule() == before.rule()
    }

    fn start(&mut self, count: R::Source) {
        let native = self.rule.convert(count);
        self.inner.start(native);
        assert(old(self).rule().converts(count, native) && CD::started(
            old(self).inner(),
            native,
            self.inner(),
        ));
    }

    fn wait(&mut self) -> (answer: Wait) {
        self.inner.wait()
    }
}

} // verus!
