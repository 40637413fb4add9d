use vstd::prelude::*;

use crate::counter::{counter_modulus, lemma_value_monotone, value_after, MillisCounter};

verus! {

/// One step of the system: the timer interrupt fires and advances the
/// counter, or foreground code reads it. Under the critical-section
/// discipline each step runs whole, without the other cutting into it, so a
/// run of the system is a sequence of such steps.
#[derive(Clone, Copy, Debug, PartialEq, Eq, Structural)]
pub enum Event {
    Fire,
    Read,
}

/// How many firings `events` holds.
pub open spec fn firings_in(events: Seq<Event>) -> nat
    decreases events.len(),
{
    if events.len() == 0 {
        0
    } else {
        firings_in(events.drop_last()) + if events.last() == Event::Fire {
            1nat
        } else {
            0nat
        }
    }
}

/// What each step of `events` observes on a counter that `start` firings
/// have advanced: a read returns the counter's value after `start` firings
/// and those that come before it in `events`; a firing returns nothing.
pub open spec fn observations(events: Seq<Event>, start: nat, increment: u32) -> Seq<Option<u32>> {
    Seq::new(
        events.len(),
        |i: int|
            if events[i] == Event::Read {
                Some(value_after(start + firings_in(events.take(i)), increment))
            } else {
                None
            },
    )
}

impl MillisCounter {
    /// Plays `events` on the counter in order, each as one indivisible step,
    /// and returns what each step observed: `Some` of the value for a read,
    /// `None` for a firing.
    pub fn run(&mut self, events: &Vec<Event>) -> (obs: Vec<Option<u32>>)
        ensures
            obs@ == observations(events@, old(self).firings(), old(self).increment_spec()),
            final(self).firings() == old(self).firings() + firings_in(events@),
            final(self).increment_spec() == old(self).increment_spec(),
    {
        let ghost start = self.firings();
        let ghost increment = self.increment_spec();
        let mut obs: Vec<Option<u32>> = Vec::new();
        let mut i: usize = 0;
        while i < events.len()
            invariant
                i <= events@.len(),
                obs@.len() == i,
                self.firings() == start + firings_in(events@.take(i as int)),
                self.increment_spec() == increment,
                forall|j: int| 0 <= j < i ==> obs@[j] == observations(events@, start, increment)[j],
            decreases events@.len() - i,
        {
            proof {
                lemma_firings_step(events@, i as int);
            }
            match events[i] {
                Event::Fire => {
                    self.tick();
                    obs.push(None);
                },
                Event::Read => {
                    let v = self.read();
                    obs.push(Some(v));
                },
            }
            i = i + 1;
        }
        proof {
            assert(events@.take(events@.len() as int) =~= events@);
            assert(obs@ =~= observations(events@, start, increment));
        }
        obs
    }
}

/// The prefix one step longer holds one more firing exactly when that step
/// is a firing.
proof fn lemma_firings_step(events: Seq<Event>, i: int)
    requires
        0 <= i < events.len(),
    ensures
        firings_in(events.take(i + 1)) == firings_in(events.take(i)) + if events[i]
            == Event::Fire {
            1nat
        } else {
            0nat
        },
{
    assert(events.take(i + 1).drop_last() =~= events.take(i));
}

/// A longer prefix holds at least as many firings.
proof fn lemma_firings_grow(events: Seq<Event>, i: int, j: int)
    requires
        0 <= i <= j <= events.len(),
    ensures
        firings_in(events.take(i)) <= firings_in(events.take(j)),
    decreases j - i,
{
    if i < j {
        lemma_firings_grow(events, i, j - 1);
        lemma_firings_step(events, j - 1);
    }
}

/// Steps without a firing leave the number of firings as it was.
proof fn lemma_firings_idle(events: Seq<Event>, i: int, j: int)
    requires
        0 <= i <= j <= events.len(),
        forall|k: int| i <= k < j ==> events[k] != Event::Fire,
    ensures
        firings_in(events.take(j)) == firings_in(events.take(i)),
    decreases j - i,
{
    if i < j {
        lemma_firings_idle(events, i, j - 1);
        lemma_firings_step(events, j - 1);
    }
}

/// Of two reads in a run, the later one returns a value at least as large as
/// the earlier one, as long as the counter does not wrap around during the
/// run.
pub proof fn lemma_reads_monotone(events: Seq<Event>, start: nat, increment: u32, i: int, j: int)
    requires
        0 <= i <= j < events.len(),
        events[i] == Event::Read,
        events[j] == Event::Read,
        (start + firings_in(events)) * increment < counter_modulus(),
    ensures
        observations(events, start, increment)[i]->Some_0 <= observations(
            events,
            start,
            increment,
        )[j]->Some_0,
{
    lemma_firings_grow(events, i, j);
    lemma_firings_grow(events, j, events.len() as int);
    assert(events.take(events.len() as int) =~= events);
    let later = start + firings_in(events.take(j));
    assert(later * increment <= (start + firings_in(events)) * increment) by (nonlinear_arith)
        requires
            later <= start + firings_in(events),
    ;
    lemma_value_monotone(start + firings_in(events.take(i)), later, increment);
}

/// A read made between two firings returns the value that the first of them
/// left, which is the value that the second one starts from: one of the two
/// values the counter holds around the second firing, never a mix of them.
pub proof fn lemma_read_between_firings(
    events: Seq<Event>,
    start: nat,
    increment: u32,
    a: int,
    i: int,
    b: int,
)
    requires
        0 <= a < i < b < events.len(),
        events[a] == Event::Fire,
        events[i] == Event::Read,
        events[b] == Event::Fire,
        forall|k: int| a < k < b ==> events[k] != Event::Fire,
    ensures
        observations(events, start, increment)[i] == Some(
            value_after(start + firings_in(events.take(a)) + 1, increment),
        ),
        observations(events, start, increment)[i] == Some(
            value_after(start + firings_in(events.take(b)), increment),
        ),
{
    lemma_firings_step(events, a);
    lemma_firings_idle(events, a + 1, i);
    lemma_firings_idle(events, i, b);
}

/// Two reads with no firing between them return the same value.
pub proof fn lemma_idle_reads_equal(events: Seq<Event>, start: nat, increment: u32, i: int, j: int)
    requires
        0 <= i < j < events.len(),
        events[i] == Event::Read,
        events[j] == Event::Read,
        forall|k: int| i < k < j ==> events[k] != Event::Fire,
    ensures
        observations(events, start, increment)[i] == observations(events, start, increment)[j],
{
    lemma_firings_idle(events, i, j);
}

} // verus!
