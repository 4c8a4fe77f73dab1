//! Beat timing: how long until the next click, in nanoseconds.

use vstd::prelude::*;
use crate::swing::{Swing, spec_swing_percent};

verus! {

/// Nanoseconds in a second.
pub const NANOS_PER_SEC: u64 = 1_000_000_000;

/// Nanoseconds in a minute.
pub const NANOS_PER_MIN: u64 = 60_000_000_000;

/// The slowest tempo.
pub const BPM_MIN: u32 = 10;

/// The fastest tempo.
pub const BPM_MAX: u32 = 400;

/// `num / den` rounded to the nearest integer, halves away from zero.
pub open spec fn round_div(num: int, den: int) -> int {
    (2 * num + den) / (2 * den)
}

/// The time between two beats at `bpm`, that is 60 s / bpm, in whole
/// nanoseconds (rounded to the nearest).
pub open spec fn spec_beat_interval(bpm: u32) -> int {
    round_div(NANOS_PER_MIN as int, bpm as int)
}

/// The gap after the beat `current_beat`: the plain interval when there is
/// no swing; with swing factor `p`, the interval times `1 + p` after an
/// even (on-) beat and times `1 - p` after an odd (off-) beat.
pub open spec fn spec_next_beat_duration(bpm: u32, swing: Swing, current_beat: u8) -> int {
    let base = spec_beat_interval(bpm);
    let p = spec_swing_percent(swing) as int;
    if p == 0 {
        base
    } else if current_beat % 2 == 0 {
        round_div(base * (100 + p), 100)
    } else {
        round_div(base * (100 - p), 100)
    }
}

/// Longest gap a tempo of at least `BPM_MIN` can give: 6 s times 1.66.
pub const MAX_BEAT_NANOS: u64 = 9_960_000_000;

/// Shortest gap a tempo of at most `BPM_MAX` can give: 0.15 s times 0.34.
pub const MIN_BEAT_NANOS: u64 = 51_000_000;

/// Interval per top-level beat (a single click), in nanoseconds.
pub fn beat_interval(bpm: u32) -> (r: u64)
    requires
        bpm > 0,
    ensures
        r == spec_beat_interval(bpm),
{
    (2 * NANOS_PER_MIN + bpm as u64) / (2 * bpm as u64)
}

/// Interval to the next beat, applying swing, in nanoseconds.
pub fn next_beat_duration(bpm: u32, swing: Swing, current_beat: u8) -> (r: u64)
    requires
        bpm > 0,
    ensures
        r == spec_next_beat_duration(bpm, swing, current_beat),
{
    let base = beat_interval(bpm);
    assert(base <= NANOS_PER_MIN) by {
        assert((2 * NANOS_PER_MIN + bpm) / (2 * bpm) <= NANOS_PER_MIN) by (nonlinear_arith)
            requires bpm >= 1;
    }
    let p = swing.percent();
    if p == 0 {
        return base;
    }
    let factor = if current_beat % 2 == 0 { 100 + p } else { 100 - p };
    assert(factor <= 200);
    assert(base * factor <= NANOS_PER_MIN * 200) by (nonlinear_arith)
        requires base <= NANOS_PER_MIN, factor <= 200;
    (2 * (base * factor) + 100) / 200
}

/// Within the tempo range every gap lies between `MIN_BEAT_NANOS` and
/// `MAX_BEAT_NANOS`.
pub proof fn lemma_beat_duration_bounds(bpm: u32, swing: Swing, current_beat: u8)
    requires
        BPM_MIN <= bpm <= BPM_MAX,
    ensures
        MIN_BEAT_NANOS <= spec_next_beat_duration(bpm, swing, current_beat) <= MAX_BEAT_NANOS,
{
    let base = spec_beat_interval(bpm);
    assert(150_000_000 <= base <= 6_000_000_000) by (nonlinear_arith)
        requires
            base == (2 * 60_000_000_000int + bpm) / (2 * bpm),
            10 <= bpm <= 400,
    ;
    let p = spec_swing_percent(swing) as int;
    assert(0 <= p <= 66);
    assert(51_000_000 <= round_div(base * (100 - p), 100) <= 9_960_000_000) by (nonlinear_arith)
        requires
            150_000_000 <= base <= 6_000_000_000,
            0 <= p <= 66,
    ;
    assert(51_000_000 <= round_div(base * (100 + p), 100) <= 9_960_000_000) by (nonlinear_arith)
        requires
            150_000_000 <= base <= 6_000_000_000,
            0 <= p <= 66,
    ;
}

} // verus!
