use millis::config::{ConfigError, Prescaler, TimerConfig, CLOCK_KHZ, PRESCALER, TIMER_COUNTS};
use millis::counter::{elapsed, MillisCounter};
use millis::interleaving::Event;

fn counter_for(divisor: u32, count: u32) -> MillisCounter {
    let config = TimerConfig::new(divisor, count).unwrap();
    MillisCounter::new(&config)
}

#[test]
fn shipped_configuration_is_eight_ms_per_firing() {
    let config = TimerConfig::shipped();
    assert_eq!(config.prescaler(), Prescaler::Div1024);
    assert_eq!(config.compare_count(), 125);
    assert_eq!(config.increment(), 8);
    assert_eq!(PRESCALER * TIMER_COUNTS / CLOCK_KHZ, 8);
}

#[test]
fn end_to_end_ten_firings_read_eighty() {
    let config = TimerConfig::new(1024, 125).unwrap();
    assert_eq!(config.increment(), 1024 * 125 / 16000);
    let mut counter = MillisCounter::new(&config);
    for _ in 0..10 {
        counter.tick();
    }
    assert_eq!(counter.read(), 80);
}

#[test]
fn table_configurations_are_valid() {
    let table: [(u32, u32, u32, Prescaler); 5] = [
        (64, 250, 1, Prescaler::Div64),
        (256, 125, 2, Prescaler::Div256),
        (256, 250, 4, Prescaler::Div256),
        (1024, 125, 8, Prescaler::Div1024),
        (1024, 250, 16, Prescaler::Div1024),
    ];
    for (divisor, count, increment, prescaler) in table {
        let config = TimerConfig::new(divisor, count).unwrap();
        assert_eq!(config.increment(), increment);
        assert_eq!(config.prescaler(), prescaler);
        assert_eq!(config.prescaler().divisor(), divisor);
        assert_eq!(config.compare_count() as u32, count);
    }
}

#[test]
fn every_illegal_divisor_is_rejected() {
    for divisor in 0u32..=4096 {
        let legal = divisor == 8 || divisor == 64 || divisor == 256 || divisor == 1024;
        let result = TimerConfig::new(divisor, 250);
        if legal {
            assert_ne!(result.err(), Some(ConfigError::UnsupportedPrescaler));
        } else {
            assert_eq!(result.unwrap_err(), ConfigError::UnsupportedPrescaler);
        }
    }
    assert_eq!(TimerConfig::new(8, 250).unwrap_err(), ConfigError::FractionalIncrement);
    assert_eq!(TimerConfig::new(64, 250).unwrap().increment(), 1);
    assert_eq!(
        TimerConfig::new(u32::MAX, 125).unwrap_err(),
        ConfigError::UnsupportedPrescaler
    );
}

#[test]
fn fractional_increment_is_rejected() {
    assert_eq!(TimerConfig::new(256, 100).unwrap_err(), ConfigError::FractionalIncrement);
    assert_eq!(TimerConfig::new(8, 250).unwrap_err(), ConfigError::FractionalIncrement);
    assert_eq!(TimerConfig::new(64, 125).unwrap_err(), ConfigError::FractionalIncrement);
    assert_eq!(TimerConfig::new(1024, 124).unwrap_err(), ConfigError::FractionalIncrement);
}

#[test]
fn every_legal_pair_is_valid_exactly_when_whole() {
    for divisor in [8u32, 64, 256, 1024] {
        for count in 1u32..=255 {
            let result = TimerConfig::new(divisor, count);
            if divisor * count % 16000 == 0 {
                assert_eq!(result.unwrap().increment(), divisor * count / 16000);
            } else {
                assert_eq!(result.unwrap_err(), ConfigError::FractionalIncrement);
            }
        }
    }
}

#[test]
fn compare_count_out_of_range_is_rejected() {
    assert_eq!(TimerConfig::new(1024, 0).unwrap_err(), ConfigError::CompareCountOutOfRange);
    assert_eq!(TimerConfig::new(1024, 256).unwrap_err(), ConfigError::CompareCountOutOfRange);
    assert_eq!(TimerConfig::new(64, 500).unwrap_err(), ConfigError::CompareCountOutOfRange);
}

#[test]
fn divisor_is_checked_before_count() {
    assert_eq!(TimerConfig::new(100, 0).unwrap_err(), ConfigError::UnsupportedPrescaler);
    assert_eq!(TimerConfig::new(100, 100).unwrap_err(), ConfigError::UnsupportedPrescaler);
}

#[test]
fn prescaler_from_divisor() {
    assert_eq!(Prescaler::from_divisor(8), Some(Prescaler::Div8));
    assert_eq!(Prescaler::from_divisor(64), Some(Prescaler::Div64));
    assert_eq!(Prescaler::from_divisor(256), Some(Prescaler::Div256));
    assert_eq!(Prescaler::from_divisor(1024), Some(Prescaler::Div1024));
    assert_eq!(Prescaler::from_divisor(1), None);
    assert_eq!(Prescaler::from_divisor(128), None);
    assert_eq!(Prescaler::Div8.divisor(), 8);
}

#[test]
fn new_counter_reads_zero() {
    let counter = counter_for(64, 250);
    assert_eq!(counter.read(), 0);
    assert_eq!(counter.increment(), 1);
}

#[test]
fn increment_accuracy_over_many_firings() {
    for (divisor, count) in [(64u32, 250u32), (256, 125), (1024, 250)] {
        let mut counter = counter_for(divisor, count);
        let increment = counter.increment();
        for k in 1u32..=1000 {
            counter.tick();
            assert_eq!(counter.read(), k * increment);
        }
    }
}

#[test]
fn reads_are_monotone_without_wrap() {
    let mut counter = counter_for(256, 250);
    let mut previous = counter.read();
    for _ in 0..500 {
        counter.tick();
        let now = counter.read();
        assert!(now >= previous);
        previous = now;
    }
}

#[test]
fn idle_reads_are_equal() {
    let mut counter = counter_for(1024, 125);
    counter.tick();
    counter.tick();
    let first = counter.read();
    let second = counter.read();
    assert_eq!(first, second);
    assert_eq!(first, 16);
}

#[test]
fn reset_clears_to_zero() {
    let mut counter = counter_for(1024, 125);
    for _ in 0..7 {
        counter.tick();
    }
    assert_eq!(counter.read(), 56);
    counter.reset();
    assert_eq!(counter.read(), 0);
    assert_eq!(counter.increment(), 8);
    counter.tick();
    assert_eq!(counter.read(), 8);
}

#[test]
fn counter_wraps_modulo_two_to_the_32() {
    let mut counter = counter_for(1024, 250);
    assert_eq!(counter.increment(), 16);
    for _ in 0..((1u32 << 28) - 1) {
        counter.tick();
    }
    let before = counter.read();
    assert_eq!(before, u32::MAX - 16 + 1);
    counter.tick();
    let after = counter.read();
    assert_eq!(after, 0);
    assert_eq!(after, ((before as u64 + 16) % (1u64 << 32)) as u32);
    assert_eq!(elapsed(before, after), 16);
    counter.tick();
    assert_eq!(counter.read(), 16);
    assert_eq!(elapsed(before, counter.read()), 32);
}

#[test]
fn elapsed_is_wrap_aware() {
    assert_eq!(elapsed(100, 180), 80);
    assert_eq!(elapsed(5, 5), 0);
    assert_eq!(elapsed(0xFFFF_FFF8, 8), 16);
    assert_eq!(elapsed(u32::MAX, 0), 1);
    assert_eq!(elapsed(1, 0), u32::MAX);
}

#[test]
fn run_observes_each_read_at_one_instant() {
    let mut counter = counter_for(1024, 125);
    let events = vec![
        Event::Read,
        Event::Fire,
        Event::Read,
        Event::Read,
        Event::Fire,
        Event::Fire,
        Event::Read,
    ];
    let observed = counter.run(&events);
    assert_eq!(
        observed,
        vec![Some(0), None, Some(8), Some(8), None, None, Some(24)]
    );
    assert_eq!(counter.read(), 24);
}

#[test]
fn run_continues_from_current_value() {
    let mut counter = counter_for(256, 125);
    counter.tick();
    let observed = counter.run(&vec![Event::Read, Event::Fire, Event::Read]);
    assert_eq!(observed, vec![Some(2), None, Some(4)]);
    assert_eq!(counter.run(&Vec::new()), Vec::new());
    assert_eq!(counter.read(), 4);
}
