use vstd::prelude::*;

verus! {

/// Frequency of the processor clock that feeds the timer, in kHz (16 MHz).
pub const CLOCK_KHZ: u32 = 16000;

/// Prescale divisor of the configuration the firmware ships with.
pub const PRESCALER: u32 = 1024;

/// Compare-match count of the configuration the firmware ships with.
pub const TIMER_COUNTS: u32 = 125;

/// The clock prescale divisors that the timer hardware offers.
#[derive(Clone, Copy, Debug, PartialEq, Eq, Structural)]
pub enum Prescaler {
    Div8,
    Div64,
    Div256,
    Div1024,
}

/// A divisor that the timer hardware can be programmed with.
pub open spec fn is_legal_divisor(divisor: int) -> bool {
    divisor == 8 || divisor == 64 || divisor == 256 || divisor == 1024
}

/// A compare-match count that the 8-bit compare register can hold and that
/// lets the timer advance: from 1 to 255.
pub open spec fn compare_count_in_range(count: int) -> bool {
    1 <= count <= 255
}

/// One period of the interrupt, `divisor * count` clock cycles, is a whole
/// number of milliseconds.
pub open spec fn is_whole_increment(divisor: int, count: int) -> bool {
    (divisor * count) % (CLOCK_KHZ as int) == 0
}

/// Milliseconds per interrupt: `divisor * count / clock_khz`.
pub open spec fn increment_of(divisor: int, count: int) -> int {
    (divisor * count) / (CLOCK_KHZ as int)
}

impl Prescaler {
    pub open spec fn divisor_spec(self) -> u32 {
        match self {
            Prescaler::Div8 => 8,
            Prescaler::Div64 => 64,
            Prescaler::Div256 => 256,
            Prescaler::Div1024 => 1024,
        }
    }

    /// The divisor this setting divides the clock by.
    pub fn divisor(&self) -> (r: u32)
        ensures
            r == self.divisor_spec(),
    {
        match self {
            Prescaler::Div8 => 8,
            Prescaler::Div64 => 64,
            Prescaler::Div256 => 256,
            Prescaler::Div1024 => 1024,
        }
    }

    /// The setting for `divisor`, or `None` where the hardware has none.
    pub fn from_divisor(divisor: u32) -> (r: Option<Prescaler>)
        ensures
            r is Some <==> is_legal_divisor(divisor as int),
            r matches Some(p) ==> p.divisor_spec() == divisor,
    {
        match divisor {
            8 => Some(Prescaler::Div8),
            64 => Some(Prescaler::Div64),
            256 => Some(Prescaler::Div256),
            1024 => Some(Prescaler::Div1024),
            _ => None,
        }
    }
}

/// Why a timer configuration is refused.
#[derive(Clone, Copy, Debug, PartialEq, Eq, Structural)]
pub enum ConfigError {
    /// The divisor is not one the hardware offers.
    UnsupportedPrescaler,
    /// The compare-match count is 0 or does not fit the 8-bit register.
    CompareCountOutOfRange,
    /// One interrupt period is not a whole number of milliseconds.
    FractionalIncrement,
}

/// The error that `TimerConfig::new(divisor, count)` reports, if any; the
/// divisor is checked first, then the count's range, then the increment.
pub open spec fn config_error(divisor: int, count: int) -> Option<ConfigError> {
    if !is_legal_divisor(divisor) {
        Some(ConfigError::UnsupportedPrescaler)
    } else if !compare_count_in_range(count) {
        Some(ConfigError::CompareCountOutOfRange)
    } else if !is_whole_increment(divisor, count) {
        Some(ConfigError::FractionalIncrement)
    } else {
        None
    }
}

/// A validated timer configuration: a prescale setting and a compare-match
/// count whose period is a whole number `increment` of milliseconds.
#[derive(Debug)]
pub struct TimerConfig {
    prescaler: Prescaler,
    compare_count: u8,
    increment: u32,
}

impl TimerConfig {
    #[verifier::type_invariant]
    spec fn inv(self) -> bool {
        &&& compare_count_in_range(self.compare_count as int)
        &&& self.increment * CLOCK_KHZ == self.prescaler.divisor_spec() * self.compare_count
    }

    pub closed spec fn prescaler_spec(self) -> Prescaler {
        self.prescaler
    }

    pub closed spec fn compare_count_spec(self) -> u8 {
        self.compare_count
    }

    pub closed spec fn increment_spec(self) -> u32 {
        self.increment
    }

    /// Validates a divisor and a compare-match count. The result is `Ok`
    /// exactly when the divisor is legal, the count is in 1..=255 and one
    /// period is a whole number of milliseconds; otherwise the first of
    /// those checks that fails names the error.
    pub fn new(divisor: u32, compare_count: u32) -> (r: Result<TimerConfig, ConfigError>)
        ensures
            r is Ok <==> config_error(divisor as int, compare_count as int) is None,
            r matches Err(e) ==> config_error(divisor as int, compare_count as int) == Some(e),
            r matches Ok(c) ==> {
                &&& c.prescaler_spec().divisor_spec() == divisor
                &&& c.compare_count_spec() == compare_count
                &&& c.increment_spec() == increment_of(divisor as int, compare_count as int)
            },
    {
        let prescaler = match Prescaler::from_divisor(divisor) {
            Some(p) => p,
            None => {
                return Err(ConfigError::UnsupportedPrescaler);
            },
        };
        if compare_count < 1 || compare_count > 255 {
            return Err(ConfigError::CompareCountOutOfRange);
        }
        assert(divisor * compare_count <= 1024 * 255) by (nonlinear_arith)
            requires
                divisor <= 1024,
                compare_count <= 255,
        ;
        let cycles: u32 = divisor * compare_count;
        if cycles % CLOCK_KHZ != 0 {
            return Err(ConfigError::FractionalIncrement);
        }
        let increment: u32 = cycles / CLOCK_KHZ;
        proof {
            vstd::arithmetic::div_mod::lemma_fundamental_div_mod(cycles as int, CLOCK_KHZ as int);
        }
        Ok(TimerConfig { prescaler, compare_count: compare_count as u8, increment })
    }

    /// The configuration the firmware ships with: divide by 1024 and match at
    /// 125, so that each interrupt stands for 8 ms. It is valid, which is
    /// proved here rather than found out on the device.
    pub fn shipped() -> (c: TimerConfig)
        ensures
            c.prescaler_spec() == Prescaler::Div1024,
            c.compare_count_spec() == TIMER_COUNTS,
            c.increment_spec() == 8,
    {
        match TimerConfig::new(PRESCALER, TIMER_COUNTS) {
            Ok(c) => c,
            Err(_) => {
                assert(false);
                TimerConfig { prescaler: Prescaler::Div1024, compare_count: 125, increment: 8 }
            },
        }
    }

    /// The prescale setting to program into the timer.
    pub fn prescaler(&self) -> (r: Prescaler)
        ensures
            r == self.prescaler_spec(),
    {
        self.prescaler
    }

    /// The compare-match count to program into the compare register.
    pub fn compare_count(&self) -> (r: u8)
        ensures
            r == self.compare_count_spec(),
            compare_count_in_range(r as int),
    {
        proof {
            use_type_invariant(self);
        }
        self.compare_count
    }

    /// Milliseconds that each interrupt stands for.
    pub fn increment(&self) -> (r: u32)
        ensures
            r == self.increment_spec(),
            r * CLOCK_KHZ == self.prescaler_spec().divisor_spec() * self.compare_count_spec(),
            r == increment_of(
                self.prescaler_spec().divisor_spec() as int,
                self.compare_count_spec() as int,
            ),
    {
        proof {
            use_type_invariant(self);
            vstd::arithmetic::div_mod::lemma_div_multiples_vanish(
                self.increment as int,
                CLOCK_KHZ as int,
            );
        }
        self.increment
    }
}

} // verus!
