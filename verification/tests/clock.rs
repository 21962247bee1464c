use tick_clock::clock::{Clock, ClockConfig, ClockError, Instant, TickStorage};
use tick_clock::ticker::{Acknowledge, Ticker};
use tick_clock::units::{ScalingFactor, TickDuration, Unit};

/// Names the clock that the tests tick.
#[derive(Debug, PartialEq, Eq)]
struct Board;

struct Timer {
    cleared: u32,
}

impl Acknowledge for Timer {
    fn acknowledge(&mut self) {
        self.cleared += 1;
    }
}

fn millis_clock(every: u32) -> Clock<Board> {
    let scale = ScalingFactor::new(1, 1000).unwrap();
    Clock::new(ClockConfig::new(TickDuration::milliseconds(every), scale).unwrap())
}

#[test]
fn storage_is_not_running_before_first_tick() {
    let storage = TickStorage::<Board>::new();
    assert_eq!(storage.read(), Err(ClockError::NotRunning));
}

#[test]
fn clock_is_not_running_before_first_tick() {
    let clock = millis_clock(1);
    assert_eq!(clock.try_now(), Err(ClockError::NotRunning));
    assert_eq!(clock.try_now(), Err(ClockError::NotRunning));
}

#[test]
fn first_tick_is_the_zero_epoch() {
    let mut storage = TickStorage::<Board>::new();
    storage.advance(250);
    assert_eq!(storage.read(), Ok(Instant::new(0)));
}

#[test]
fn later_ticks_add_the_step() {
    let mut storage = TickStorage::<Board>::new();
    for _ in 0..5 {
        storage.advance(250);
    }
    assert_eq!(storage.read(), Ok(Instant::new(1000)));
}

#[test]
fn instant_after_k_ticks_is_k_minus_one_steps() {
    let mut clock = millis_clock(5);
    let mut ticker = clock.ticker(Timer { cleared: 0 });
    for k in 1..=20u32 {
        assert!(clock.can_tick());
        ticker.tick(&mut clock);
        assert_eq!(clock.try_now(), Ok(Instant::new((k - 1) * 5)));
    }
}

#[test]
fn tick_acknowledges_the_timer_each_time() {
    let mut clock = millis_clock(1);
    let mut ticker = Ticker::new(Timer { cleared: 0 });
    ticker.tick(&mut clock);
    ticker.tick(&mut clock);
    ticker.tick(&mut clock);
    assert_eq!(clock.try_now(), Ok(Instant::new(2)));
}

#[test]
fn running_clock_stays_running_and_never_goes_back() {
    let mut storage = TickStorage::<Board>::new();
    storage.advance(7);
    let mut last = storage.read().unwrap();
    for _ in 0..50 {
        storage.advance(7);
        let now = storage.read().unwrap();
        assert!(now.ticks >= last.ticks);
        last = now;
    }
    assert_eq!(last, Instant::new(350));
}

#[test]
fn read_gives_the_instant_before_and_after_an_advance() {
    let mut storage = TickStorage::<Board>::new();
    storage.advance(3);
    storage.advance(3);
    let before = storage.read();
    assert_eq!(before, Ok(Instant::new(3)));
    assert_eq!(storage.read(), before);
    storage.advance(3);
    assert_eq!(storage.read(), Ok(Instant::new(6)));
}

#[test]
fn accumulation_up_to_the_largest_instant_is_accepted() {
    let mut storage = TickStorage::<Board>::new();
    storage.advance(u32::MAX - 1);
    assert!(storage.can_advance(u32::MAX - 1));
    storage.advance(u32::MAX - 1);
    assert_eq!(storage.read(), Ok(Instant::new(u32::MAX - 1)));
    assert!(storage.can_advance(1));
    storage.advance(1);
    assert_eq!(storage.read(), Ok(Instant::new(u32::MAX)));
}

#[test]
fn one_tick_past_the_largest_instant_is_refused() {
    let mut storage = TickStorage::<Board>::new();
    storage.advance(u32::MAX);
    storage.advance(u32::MAX);
    assert_eq!(storage.read(), Ok(Instant::new(u32::MAX)));
    assert!(!storage.can_advance(1));
    assert!(storage.can_advance(0));
    assert_eq!(storage.read(), Ok(Instant::new(u32::MAX)));
}

#[test]
fn empty_storage_accepts_any_first_tick() {
    let storage = TickStorage::<Board>::new();
    assert!(storage.can_advance(u32::MAX));
    assert!(storage.can_advance(0));
}

#[test]
fn clock_refuses_the_tick_that_would_overflow() {
    let scale = ScalingFactor::new(1, 1).unwrap();
    let config = ClockConfig::new(TickDuration::seconds(u32::MAX), scale).unwrap();
    assert_eq!(config.step(), u32::MAX);
    let mut clock: Clock<Board> = Clock::new(config);
    let mut ticker = clock.ticker(Timer { cleared: 0 });
    assert!(clock.can_tick());
    ticker.tick(&mut clock);
    assert!(clock.can_tick());
    ticker.tick(&mut clock);
    assert_eq!(clock.try_now(), Ok(Instant::new(u32::MAX)));
    assert!(!clock.can_tick());
}

#[test]
fn config_keeps_its_parts() {
    let scale = ScalingFactor::new(1, 4).unwrap();
    let tick = TickDuration::milliseconds(250);
    let config = ClockConfig::new(tick, scale).unwrap();
    assert_eq!(config.tick(), TickDuration { unit: Unit::Milliseconds, value: 250 });
    assert_eq!(config.scale(), scale);
    assert_eq!(config.step(), 1);
    let clock: Clock<Board> = Clock::new(config);
    assert_eq!(clock.config().step(), 1);
}

#[test]
fn config_refuses_a_tick_length_without_a_tick_count() {
    let scale = ScalingFactor::new(1, 1_000_000).unwrap();
    assert!(ClockConfig::new(TickDuration::seconds(u32::MAX), scale).is_none());
}

#[test]
fn config_tells_whether_tick_length_and_scale_agree() {
    let quarter = ScalingFactor::new(1, 4).unwrap();
    assert!(ClockConfig::new(TickDuration::milliseconds(250), quarter).unwrap().is_exact());
    let milli = ScalingFactor::new(1, 1000).unwrap();
    let coarse = ClockConfig::new(TickDuration::milliseconds(250), milli).unwrap();
    assert_eq!(coarse.step(), 250);
    assert!(coarse.is_exact());
    let minute = ScalingFactor::new(60, 1).unwrap();
    assert!(ClockConfig::new(TickDuration::seconds(60), minute).unwrap().is_exact());
}

#[test]
fn config_with_a_tick_shorter_than_the_scale_is_not_exact() {
    let scale = ScalingFactor::new(1, 50_000).unwrap();
    let config = ClockConfig::new(TickDuration::microseconds(10), scale).unwrap();
    assert_eq!(config.step(), 0);
    assert!(!config.is_exact());
    let third = ScalingFactor::new(1, 3).unwrap();
    let rounded = ClockConfig::new(TickDuration::milliseconds(500), third).unwrap();
    assert_eq!(rounded.step(), 1);
    assert!(!rounded.is_exact());
}

#[test]
fn units_per_second() {
    assert_eq!(Unit::Microseconds.per_second(), 1_000_000);
    assert_eq!(Unit::Milliseconds.per_second(), 1_000);
    assert_eq!(Unit::Seconds.per_second(), 1);
}

#[test]
fn elapsed_time_after_k_ticks_is_k_minus_one_tick_lengths() {
    let scale = ScalingFactor::new(1, 4).unwrap();
    let config = ClockConfig::new(TickDuration::milliseconds(250), scale).unwrap();
    assert!(config.is_exact());
    let mut clock: Clock<Board> = Clock::new(config);
    let mut ticker = clock.ticker(Timer { cleared: 0 });
    for _ in 0..9 {
        ticker.tick(&mut clock);
    }
    let now = clock.try_now().unwrap();
    assert_eq!(now, Instant::new(8));
    let elapsed_ms = u64::from(now.ticks) * 1000 * u64::from(scale.numerator())
        / u64::from(scale.denominator());
    assert_eq!(elapsed_ms, 8 * 250);
}

#[test]
fn instants_copy() {
    let instant: Instant<Board> = Instant::new(12);
    let copy = instant;
    assert_eq!(instant, copy);
    assert_eq!(instant.clone().ticks, 12);
}
