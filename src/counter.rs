use vstd::prelude::*;

use crate::config::TimerConfig;

verus! {

/// Number of distinct values of the 32-bit counter: arithmetic on it wraps
/// modulo this number.
pub open spec fn counter_modulus() -> int {
    0x1_0000_0000
}

/// The counter's value after `firings` interrupts from zero with `increment`
/// per interrupt: the product, wrapped to 32 bits.
pub open spec fn value_after(firings: nat, increment: u32) -> u32 {
    ((firings * increment) % counter_modulus()) as u32
}

/// Time from the reading `earlier` to the reading `later`, modulo 2^32.
pub open spec fn wrapped_elapsed(earlier: u32, later: u32) -> u32 {
    ((later - earlier) % counter_modulus()) as u32
}

/// The time elapsed between two readings of the counter, `earlier` taken
/// first: `(later - earlier) mod 2^32`. This is right across a wraparound of
/// the counter, as long as less than 2^32 ms passed between the readings;
/// comparing the readings directly is not.
pub fn elapsed(earlier: u32, later: u32) -> (r: u32)
    ensures
        r == wrapped_elapsed(earlier, later),
{
    later.wrapping_sub(earlier)
}

/// The elapsed-time counter that the timer interrupt advances.
///
/// It starts at zero and each interrupt adds the configured increment. The
/// value is an unsigned 32-bit number that wraps around to small values
/// after 2^32 ms (about 49.7 days): this is expected, not an error.
///
/// Every operation takes the counter as a whole, by `&mut` to advance or
/// reset it and by `&` to read it, so a read sees the value at one instant
/// and never part of an old value mixed with part of a new one. Where the
/// counter is shared with an interrupt handler, each of these calls is made
/// inside the same critical section.
pub struct MillisCounter {
    value: u32,
    increment: u32,
    firings: Ghost<nat>,
}

impl MillisCounter {
    #[verifier::type_invariant]
    spec fn inv(self) -> bool {
        self.value == value_after(self.firings@, self.increment)
    }

    /// How many interrupts have advanced the counter since it was last
    /// cleared.
    pub closed spec fn firings(self) -> nat {
        self.firings@
    }

    pub closed spec fn increment_spec(self) -> u32 {
        self.increment
    }

    /// What a read of the counter returns.
    pub open spec fn value_spec(self) -> u32 {
        value_after(self.firings(), self.increment_spec())
    }

    /// A counter at zero that advances by the configuration's increment.
    pub fn new(config: &TimerConfig) -> (c: MillisCounter)
        ensures
            c.firings() == 0,
            c.increment_spec() == config.increment_spec(),
            c.value_spec() == 0,
    {
        let increment = config.increment();
        MillisCounter { value: 0, increment, firings: Ghost(0) }
    }

    /// Clears the counter to zero, as initialisation does.
    pub fn reset(&mut self)
        ensures
            final(self).firings() == 0,
            final(self).increment_spec() == old(self).increment_spec(),
            final(self).value_spec() == 0,
    {
        *self = MillisCounter { value: 0, increment: self.increment, firings: Ghost(0) };
    }

    /// What the interrupt handler does on each firing: add the increment,
    /// wrapping modulo 2^32.
    pub fn tick(&mut self)
        ensures
            final(self).firings() == old(self).firings() + 1,
            final(self).increment_spec() == old(self).increment_spec(),
            final(self).value_spec() == (old(self).value_spec() + old(self).increment_spec())
                % counter_modulus(),
    {
        proof {
            use_type_invariant(&*self);
            lemma_value_after_next(self.firings@, self.increment);
        }
        let value = self.value.wrapping_add(self.increment);
        *self = MillisCounter {
            value,
            increment: self.increment,
            firings: Ghost(self.firings@ + 1),
        };
    }

    /// The current value of the counter.
    pub fn read(&self) -> (r: u32)
        ensures
            r == self.value_spec(),
    {
        proof {
            use_type_invariant(self);
        }
        self.value
    }

    /// Milliseconds added by each interrupt.
    pub fn increment(&self) -> (r: u32)
        ensures
            r == self.increment_spec(),
    {
        self.increment
    }
}

/// One more firing adds the increment to the wrapped value, wrapping again.
proof fn lemma_value_after_next(firings: nat, increment: u32)
    ensures
        value_after(firings + 1, increment) as int == (value_after(firings, increment)
            + increment) % counter_modulus(),
{
    let m = counter_modulus();
    assert((firings + 1) * increment == firings * increment + increment) by (nonlinear_arith);
    vstd::arithmetic::div_mod::lemma_add_mod_noop_right(increment as int, firings * increment, m);
}

/// With no wraparound, the counter after `firings` interrupts from zero holds
/// exactly `firings * increment`.
pub proof fn lemma_value_exact(firings: nat, increment: u32)
    requires
        firings * increment < counter_modulus(),
    ensures
        value_after(firings, increment) == firings * increment,
{
    vstd::arithmetic::div_mod::lemma_small_mod(
        (firings * increment) as nat,
        counter_modulus() as nat,
    );
}

/// A read made after more interrupts than another returns a value at least
/// as large, as long as the counter has not wrapped around in between.
pub proof fn lemma_value_monotone(earlier: nat, later: nat, increment: u32)
    requires
        earlier <= later,
        later * increment < counter_modulus(),
    ensures
        value_after(earlier, increment) <= value_after(later, increment),
{
    assert(earlier * increment <= later * increment) by (nonlinear_arith)
        requires
            earlier <= later,
    ;
    lemma_value_exact(earlier, increment);
    lemma_value_exact(later, increment);
}

/// The wrap-aware difference of two reads, made after `earlier` and after
/// `later` interrupts, is the time that the interrupts in between stand for,
/// also where the counter wrapped around in between, as long as that time is
/// below 2^32.
pub proof fn lemma_elapsed_between_reads(earlier: nat, later: nat, increment: u32)
    requires
        earlier <= later,
        (later - earlier) * increment < counter_modulus(),
    ensures
        wrapped_elapsed(value_after(earlier, increment), value_after(later, increment)) == (
        later - earlier) * increment,
{
    let m = counter_modulus();
    let a = earlier * increment;
    let b = later * increment;
    assert(later * increment - earlier * increment == (later - earlier) * increment)
        by (nonlinear_arith);
    assert(0 <= earlier * increment) by (nonlinear_arith);
    assert(0 <= (later - earlier) * increment) by (nonlinear_arith)
        requires
            earlier <= later,
    ;
    vstd::arithmetic::div_mod::lemma_mod_bound(a, m);
    vstd::arithmetic::div_mod::lemma_mod_bound(b, m);
    vstd::arithmetic::div_mod::lemma_sub_mod_noop(b, a, m);
    vstd::arithmetic::div_mod::lemma_small_mod((b - a) as nat, m as nat);
}

} // verus!
