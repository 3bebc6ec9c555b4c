use vstd::prelude::*;

verus! {

/// The real-time counter counts 24 bits.
pub const MAX_COUNTER: u32 = 0xFFFFFF;

/// Running time kept from a wrapping hardware counter.
pub struct Ticks {
    /// The counter as last read.
    pub last: u32,
    /// Ticks counted so far.
    pub total: u64,
}

/// Ticks that a counter reading adds: the distance from the last reading,
/// or a whole counter period when the counter went below the last reading.
pub open spec fn elapsed(last: u32, counter: u32) -> int {
    if counter >= last { counter - last } else { MAX_COUNTER as int }
}

/// The ticks that a counter reading adds (see `elapsed`).
pub fn elapsed_ticks(last: u32, counter: u32) -> (r: u64)
    ensures
        r == elapsed(last, counter),
{
    if counter >= last {
        (counter - last) as u64
    } else {
        MAX_COUNTER as u64
    }
}

impl Ticks {
    pub fn new() -> (r: Ticks)
        ensures
            r.last == 0,
            r.total == 0,
    {
        Ticks { last: 0, total: 0 }
    }

    /// Takes a counter reading into the running time and gives the time.
    pub fn update_total(&mut self, counter: u32) -> (r: u64)
        requires
            reading_fits(*old(self), counter),
        ensures
            *final(self) == updated(*old(self), counter),
            final(self).total == old(self).total + elapsed(old(self).last, counter),
            r == final(self).total,
    {
        self.total = self.total + if counter >= self.last {
            (counter - self.last) as u64
        } else {
            (MAX_COUNTER - counter) as u64 + counter as u64
        };
        self.last = counter;
        self.total
    }
}

/// The counter value to wake up at after `ms` ticks.
pub fn compare_target(counter: u32, ms: u32) -> (r: u32)
    requires
        counter + ms <= u32::MAX,
    ensures
        r == (counter + ms) % 0x1000000,
{
    let sum = counter + ms;
    let r = sum & MAX_COUNTER;
    assert(sum & 0xFFFFFFu32 == sum % 0x1000000) by (bit_vector);
    r
}

/// The running time after a counter reading (see `Ticks::update_total`).
pub open spec fn updated(t: Ticks, counter: u32) -> Ticks {
    Ticks { last: counter, total: (t.total + elapsed(t.last, counter)) as u64 }
}

/// Whether `Ticks::update_total` can take this reading: a 24-bit counter
/// when it went below the last reading, and a total that fits.
pub open spec fn reading_fits(t: Ticks, counter: u32) -> bool {
    &&& counter < t.last ==> counter <= MAX_COUNTER
    &&& t.total + elapsed(t.last, counter) <= u64::MAX
}

/// Time never goes back: of two successive readings of the running time the
/// later is never smaller, and when the counter went from `c1` to `c2 >= c1`
/// without wrapping the time grew by exactly `c2 - c1`.
pub proof fn law_ticks_monotone(t: Ticks, c1: u32, c2: u32)
    requires
        reading_fits(t, c1),
        reading_fits(updated(t, c1), c2),
    ensures
        updated(updated(t, c1), c2).total >= updated(t, c1).total,
        updated(t, c1).total >= t.total,
        c2 >= c1 ==> updated(updated(t, c1), c2).total == updated(t, c1).total + (c2 - c1),
{
}

} // verus!
