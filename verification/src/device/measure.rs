use vstd::prelude::*;
use crate::types::{MilliVolt, Percent};
use crate::values::{VOLTS_MAX, VOLTS_MIN};

verus! {

/// Battery voltage for a 12-bit reading of the divided battery voltage:
/// the reading (negative ones count as zero) against the 3.6 V full scale
/// of the converter, times three for the divider, kept to 16 bits.
pub open spec fn reading_mv(raw: i16) -> MilliVolt {
    let r: int = if raw < 0 { 0 } else { raw as int };
    ((r * 3600 / 4096 * 3) as u32) as u16
}

pub fn raw_to_mv(raw: i16) -> (r: MilliVolt)
    ensures
        r == reading_mv(raw),
{
    let raw = if raw < 0 { 0 } else { raw };
    let vadc_mv = (raw as u32) * 3600 / 4096;
    (vadc_mv * 3) as MilliVolt
}

pub open spec fn sum_of(s: Seq<MilliVolt>) -> int
    decreases s.len(),
{
    if s.len() == 0 { 0 } else { sum_of(s.drop_last()) + s.last() }
}

proof fn lemma_sum_bound(s: Seq<MilliVolt>)
    ensures
        0 <= sum_of(s) <= s.len() * 65535,
    decreases s.len(),
{
    if s.len() > 0 {
        lemma_sum_bound(s.drop_last());
    }
}

/// The mean of the samples, rounded down.
pub fn average_mv(samples: &[MilliVolt]) -> (r: MilliVolt)
    requires
        0 < samples@.len() <= 65536,
    ensures
        r == sum_of(samples@) / (samples@.len() as int),
{
    let mut sum: u32 = 0;
    let mut i: usize = 0;
    while i < samples.len()
        invariant
            i <= samples@.len() <= 65536,
            sum == sum_of(samples@.take(i as int)),
        decreases samples.len() - i,
    {
        proof {
            assert(samples@.take(i + 1).drop_last() =~= samples@.take(i as int));
            lemma_sum_bound(samples@.take(i + 1));
            assert((i + 1) * 65535 <= 65536 * 65535) by (nonlinear_arith)
                requires
                    i + 1 <= 65536,
            ;
        }
        sum = sum + samples[i] as u32;
        i += 1;
    }
    proof {
        assert(samples@.take(samples@.len() as int) =~= samples@);
        lemma_sum_bound(samples@);
        assert(sum_of(samples@) / (samples@.len() as int) <= 65535) by (nonlinear_arith)
            requires
                0 <= sum_of(samples@) <= samples@.len() * 65535,
                samples@.len() > 0,
        ;
    }
    (sum / samples.len() as u32) as MilliVolt
}

/// Charge in percent between `VOLTS_MIN` and `VOLTS_MAX`; voltages below
/// the range count as empty, and the result is capped at 100.
pub open spec fn charge_level(mv: MilliVolt) -> Percent {
    let v: int = if mv < VOLTS_MIN { VOLTS_MIN as int } else { mv as int };
    let p = (v - VOLTS_MIN) * 100 / (VOLTS_MAX - VOLTS_MIN);
    if p > 100 { 100 } else { p as Percent }
}

/// The battery level shown next to a measured voltage.
pub fn battery_percent(mv: MilliVolt) -> (r: Percent)
    requires
        mv <= VOLTS_MIN + 655,
    ensures
        r == charge_level(mv),
{
    let v = if mv < VOLTS_MIN { VOLTS_MIN } else { mv };
    let percents = (v - VOLTS_MIN) * 100 / (VOLTS_MAX - VOLTS_MIN);
    if percents > 100 {
        100
    } else {
        percents as Percent
    }
}

/// Charge in percent from an averaged voltage, seven millivolts a percent
/// above 3.5 V, between 0 and 100.
pub open spec fn coarse_level(avg: i32) -> u8 {
    if avg <= 3500 {
        0
    } else {
        let p = (avg - 3500) / 7;
        if p > 100 { 100 } else { p as u8 }
    }
}

pub fn coarse_percent(avg: i32) -> (r: u8)
    requires
        avg >= i32::MIN + 3500,
    ensures
        r == coarse_level(avg),
{
    let diff = avg - 3500;
    if diff <= 0 {
        return 0;
    }
    let percents = diff / 7;
    if percents > 100 {
        100
    } else {
        percents as u8
    }
}

} // verus!
