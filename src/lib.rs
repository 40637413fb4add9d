//! Millisecond timekeeping for an 8-bit microcontroller whose hardware timer
//! raises a periodic compare-match interrupt.
//!
//! The library holds the logic of that timekeeping and proves it:
//! - `config`: the timer configuration (prescale divisor and compare-match
//!   count), validated so that each interrupt stands for a whole number of
//!   milliseconds;
//! - `counter`: the elapsed-time counter that the interrupt handler advances
//!   and foreground code reads, with its wraparound behaviour, and a model of
//!   handler firings interleaved with reads.
//!
//! The hardware itself (timer registers, the interrupt-disabling critical
//! section that guards the counter) is driven by the firmware around it.

pub mod config;
pub mod counter;
pub mod interleaving;

pub use config::{ConfigError, Prescaler, TimerConfig, CLOCK_KHZ, PRESCALER, TIMER_COUNTS};
pub use counter::{elapsed, MillisCounter};
pub use interleaving::Event;
