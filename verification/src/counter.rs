//! Counters: the values that producers bump and the flush cycle clears.
//!
//! Every counter keeps two numbers. The first counts the events since the
//! last reset and is what the periodic record shows. The second counts the
//! events since the counter was made, is never cleared, and is what a scrape
//! of the process reads. Both are 64-bit and wrap around on overflow, so that
//! no addition can fail.

use vstd::prelude::*;

verus! {

/// What 64-bit wrapping arithmetic makes of the exact result `total`: `total`
/// reduced modulo 2^64. A counter to which `total` events were added from
/// zero holds `wrapped(total)`.
pub open spec fn wrapped(total: int) -> u64 {
    (total % 0x1_0000_0000_0000_0000) as u64
}

/// The sum of `amounts`, as an unbounded integer.
pub open spec fn total(amounts: Seq<u64>) -> int
    decreases amounts.len(),
{
    if amounts.len() == 0 {
        0
    } else {
        total(amounts.drop_last()) + amounts.last()
    }
}

/// Whether `merged` is an interleaving of `first` and `second`: it holds the
/// items of both, each sequence in its own order.
pub open spec fn interleaves(merged: Seq<u64>, first: Seq<u64>, second: Seq<u64>) -> bool
    decreases merged.len(),
{
    if merged.len() == 0 {
        first.len() == 0 && second.len() == 0
    } else {
        ||| first.len() > 0 && first.last() == merged.last() && interleaves(
            merged.drop_last(),
            first.drop_last(),
            second,
        )
        ||| second.len() > 0 && second.last() == merged.last() && interleaves(
            merged.drop_last(),
            first,
            second.drop_last(),
        )
    }
}

/// The mathematical value of a counter.
pub struct Tally {
    /// Events since the last reset.
    pub current: u64,
    /// Events since the counter was made; a reset leaves it alone.
    pub lifetime: u64,
}

impl Tally {
    /// A counter to which nothing has been added.
    pub open spec fn zero() -> Tally {
        Tally { current: 0, lifetime: 0 }
    }

    /// The counter after `amount` more events.
    pub open spec fn plus(self, amount: u64) -> Tally {
        Tally {
            current: wrapped(self.current + amount),
            lifetime: wrapped(self.lifetime + amount),
        }
    }

    /// The counter after a reset.
    pub open spec fn cleared(self) -> Tally {
        Tally { current: 0, lifetime: self.lifetime }
    }

    /// The counter after the additions `amounts`, in that order.
    pub open spec fn plus_each(self, amounts: Seq<u64>) -> Tally
        decreases amounts.len(),
    {
        if amounts.len() == 0 {
            self
        } else {
            self.plus_each(amounts.drop_last()).plus(amounts.last())
        }
    }

    /// The counter after `times` single increments.
    pub open spec fn incremented(self, times: nat) -> Tally
        decreases times,
    {
        if times == 0 {
            self
        } else {
            self.incremented((times - 1) as nat).plus(1)
        }
    }
}

/// A counter of events.
#[derive(Debug)]
pub struct Counter {
    current: u64,
    lifetime: u64,
}

impl View for Counter {
    type V = Tally;

    closed spec fn view(&self) -> Tally {
        Tally { current: self.current, lifetime: self.lifetime }
    }
}

impl Counter {
    /// A counter at zero.
    pub fn new() -> (counter: Counter)
        ensures
            counter@ == Tally::zero(),
    {
        Counter { current: 0, lifetime: 0 }
    }

    /// Counts one event.
    pub fn increment(&mut self)
        ensures
            final(self)@ == old(self)@.plus(1),
    {
        self.increment_by(1);
    }

    /// Counts `amount` events at once.
    pub fn increment_by(&mut self, amount: u64)
        ensures
            final(self)@ == old(self)@.plus(amount),
    {
        self.current = self.current.wrapping_add(amount);
        self.lifetime = self.lifetime.wrapping_add(amount);
    }

    /// The number of events since the last reset.
    pub fn read(&self) -> (value: u64)
        ensures
            value == self@.current,
    {
        self.current
    }

    /// The number of events since the counter was made.
    pub fn read_lifetime(&self) -> (value: u64)
        ensures
            value == self@.lifetime,
    {
        self.lifetime
    }

    /// Starts a new period: the count since the last reset goes back to zero.
    pub fn reset(&mut self)
        ensures
            final(self)@ == old(self)@.cleared(),
    {
        self.current = 0;
    }
}

impl Default for Counter {
    fn default() -> (counter: Counter)
        ensures
            counter@ == Tally::zero(),
    {
        Counter::new()
    }
}

/// Adding to a wrapped total is the same as wrapping the sum.
pub proof fn lemma_wrapped_sum(total: int, amount: int)
    ensures
        wrapped(wrapped(total) + amount) == wrapped(total + amount),
{
    vstd::arithmetic::div_mod::lemma_add_mod_noop_right(amount, total, 0x1_0000_0000_0000_0000);
}

/// No increment is lost: after `times` increments a counter shows `times`
/// more events than before, modulo 2^64. A counter that was just reset
/// therefore shows exactly `times`, as long as `times` fits in 64 bits.
pub proof fn lemma_increments_are_counted(start: Tally, times: nat)
    ensures
        start.incremented(times).current == wrapped(start.current + times),
        start.incremented(times).lifetime == wrapped(start.lifetime + times),
        start.current == 0 && times <= u64::MAX ==> start.incremented(times).current == times,
    decreases times,
{
    if times > 0 {
        lemma_increments_are_counted(start, (times - 1) as nat);
        lemma_wrapped_sum(start.current + times - 1, 1);
        lemma_wrapped_sum(start.lifetime + times - 1, 1);
    }
}

/// A counter adds up what it is given: after the additions `amounts` it shows
/// their total more than before, modulo 2^64.
pub proof fn lemma_additions_are_totalled(start: Tally, amounts: Seq<u64>)
    ensures
        start.plus_each(amounts).current == wrapped(start.current + total(amounts)),
        start.plus_each(amounts).lifetime == wrapped(start.lifetime + total(amounts)),
        0 <= total(amounts),
    decreases amounts.len(),
{
    if amounts.len() > 0 {
        let front = amounts.drop_last();
        lemma_additions_are_totalled(start, front);
        lemma_wrapped_sum(start.current + total(front), amounts.last() as int);
        lemma_wrapped_sum(start.lifetime + total(front), amounts.last() as int);
    }
}

/// An interleaving of two sequences has the items of both and no others: as
/// many as the two together, with the same total.
pub proof fn lemma_interleaving_keeps_total(merged: Seq<u64>, first: Seq<u64>, second: Seq<u64>)
    requires
        interleaves(merged, first, second),
    ensures
        merged.len() == first.len() + second.len(),
        total(merged) == total(first) + total(second),
    decreases merged.len(),
{
    if merged.len() > 0 {
        if first.len() > 0 && first.last() == merged.last() && interleaves(
            merged.drop_last(),
            first.drop_last(),
            second,
        ) {
            lemma_interleaving_keeps_total(merged.drop_last(), first.drop_last(), second);
        } else {
            lemma_interleaving_keeps_total(merged.drop_last(), first, second.drop_last());
        }
    }
}

/// No addition is lost, however two producers take turns: when the additions
/// of one producer and those of another reach a counter in any interleaving,
/// the counter ends where it would have ended had the first producer
/// finished before the second began, with the totals of both added to it,
/// modulo 2^64.
pub proof fn lemma_no_addition_is_lost(
    start: Tally,
    first: Seq<u64>,
    second: Seq<u64>,
    merged: Seq<u64>,
)
    requires
        interleaves(merged, first, second),
    ensures
        start.plus_each(merged) == start.plus_each(first).plus_each(second),
        start.plus_each(merged).current == wrapped(
            start.current + total(first) + total(second),
        ),
{
    lemma_interleaving_keeps_total(merged, first, second);
    lemma_additions_are_totalled(start, merged);
    lemma_additions_are_totalled(start, first);
    lemma_additions_are_totalled(start.plus_each(first), second);
    lemma_wrapped_sum(start.current + total(first), total(second));
    lemma_wrapped_sum(start.lifetime + total(first), total(second));
}

/// Between resets a counter only grows: an addition that does not overflow
/// it adds exactly `amount`, to both of its numbers.
pub proof fn lemma_plus_grows(tally: Tally, amount: u64)
    ensures
        tally.current + amount <= u64::MAX ==> tally.plus(amount).current == tally.current + amount,
        tally.lifetime + amount <= u64::MAX ==> tally.plus(amount).lifetime == tally.lifetime
            + amount,
{
}

/// Additions commute: the order in which two producers reach a counter does
/// not change what it holds afterwards.
pub proof fn lemma_plus_commutes(tally: Tally, first: u64, second: u64)
    ensures
        tally.plus(first).plus(second) == tally.plus(second).plus(first),
{
    lemma_wrapped_sum(tally.current + first, second as int);
    lemma_wrapped_sum(tally.current + second, first as int);
    lemma_wrapped_sum(tally.lifetime + first, second as int);
    lemma_wrapped_sum(tally.lifetime + second, first as int);
}

} // verus!
