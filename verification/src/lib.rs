//! A software clock for devices without a free-running hardware counter.
//!
//! A periodic timer interrupt ticks a counter; the accumulated count is the
//! clock's current instant, which blocking delays and timeouts are built on.
//! Everything here is sequential state and arithmetic on plain values: the
//! embedding program guards the clock with its own critical section and
//! drives the ticker from its interrupt handler.

pub mod units;
pub mod clock;
pub mod ticker;
pub mod delay;
pub mod countdown;
