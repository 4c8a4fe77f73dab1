//! What holds of the metronome across calls and over all inputs.

use vstd::prelude::*;
use crate::metronome::{
    AppView,
    TS_PRESET_COUNT,
    VOLUME_STEP,
    app_wf,
    spec_adjust_bpm,
    spec_cycle_ts_preset,
    spec_next_den,
    spec_preset_index,
    spec_ts_preset,
    spec_volume_down,
    spec_volume_up,
    CLOCK_MAX,
    FLASH_FRAMES,
    Key,
    spec_advance,
    caught_up,
    spec_missed,
    spec_tick_beats,
    spec_handle_key,
    lemma_caught_up_unique,
};
use crate::pulse::{PulseView, pulse_wf, spec_tick, spec_toggle, spec_trigger, live_waves, PULSE_MAX_WAVES};
use crate::sound::{SoundType, spec_next_sound};
use crate::swing::{Swing, spec_next_swing, spec_swing_percent};
use crate::tap::{
    elapsed,
    gap_sum,
    spec_estimate_bpm,
    spec_tap,
    taps_wf,
    lemma_tap_keeps_wf,
    lemma_sorted_gap_sum,
    recent_taps,
    TAP_TIMEOUT_NANOS,
    MAX_TAPS,
};
use crate::timing::{
    BPM_MAX,
    BPM_MIN,
    MAX_BEAT_NANOS,
    MIN_BEAT_NANOS,
    NANOS_PER_MIN,
    round_div,
    spec_beat_interval,
    spec_next_beat_duration,
    lemma_beat_duration_bounds,
};
use crate::sound::{spec_click, spec_freqs};
use crate::pulse::{PulseWave, wave_alive};
use vstd::arithmetic::div_mod::lemma_add_mod_noop_right;
use crate::view::{BeatTone, spec_beat_span};

verus! {

/// Pressing `n` five times comes back to the same sound, and the five
/// sounds on the way are all different.
pub proof fn law_sound_cycle(s: SoundType)
    ensures
        spec_next_sound(spec_next_sound(spec_next_sound(spec_next_sound(spec_next_sound(s)))))
            == s,
        spec_next_sound(s) != s,
        spec_next_sound(spec_next_sound(s)) != s,
        spec_next_sound(spec_next_sound(spec_next_sound(s))) != s,
        spec_next_sound(spec_next_sound(spec_next_sound(spec_next_sound(s)))) != s,
{
}

/// Pressing `w` four times comes back to the same swing, through four
/// different settings.
pub proof fn law_swing_cycle(s: Swing)
    ensures
        spec_next_swing(spec_next_swing(spec_next_swing(spec_next_swing(s)))) == s,
        spec_next_swing(s) != s,
        spec_next_swing(spec_next_swing(s)) != s,
        spec_next_swing(spec_next_swing(spec_next_swing(s))) != s,
{
}

/// Pressing `d` cycles the denominator 4, 8, 16 and back: it is always
/// one of those three, and three presses come back to where it was.
pub proof fn law_denominator_cycle(den: u8)
    ensures
        spec_next_den(den) == 4 || spec_next_den(den) == 8 || spec_next_den(den) == 16,
        (den == 4 || den == 8 || den == 16) ==> spec_next_den(spec_next_den(spec_next_den(den)))
            == den,
{
}

/// Each preset is found at its own place.
proof fn lemma_preset_index(i: int)
    requires
        0 <= i < TS_PRESET_COUNT,
    ensures
        spec_preset_index(spec_ts_preset(i).0, spec_ts_preset(i).1) == i,
{
}

/// From the preset at place `i`, Tab goes to place `i + 1` and Shift+Tab
/// to place `i - 1`, round the eight.
proof fn lemma_preset_step(m: AppView, i: int)
    requires
        0 <= i < TS_PRESET_COUNT,
        (m.ts_num, m.ts_den) == spec_ts_preset(i),
    ensures
        ({
            let f = spec_cycle_ts_preset(m, true);
            (f.ts_num, f.ts_den) == spec_ts_preset((i + 1) % 8)
        }),
        ({
            let b = spec_cycle_ts_preset(m, false);
            (b.ts_num, b.ts_den) == spec_ts_preset((i + 7) % 8)
        }),
{
    lemma_preset_index(i);
    reveal(spec_cycle_ts_preset);
}

/// Tab then Shift+Tab (or the other way round) comes back to the time
/// signature one started from, when that is one of the presets; eight
/// presses of Tab do too.
pub proof fn law_preset_cycle(m: AppView, i: int)
    requires
        0 <= i < TS_PRESET_COUNT,
        (m.ts_num, m.ts_den) == spec_ts_preset(i),
    ensures
        ({
            let back = spec_cycle_ts_preset(spec_cycle_ts_preset(m, true), false);
            (back.ts_num, back.ts_den) == (m.ts_num, m.ts_den)
        }),
        ({
            let back = spec_cycle_ts_preset(spec_cycle_ts_preset(m, false), true);
            (back.ts_num, back.ts_den) == (m.ts_num, m.ts_den)
        }),
        ({
            let f1 = spec_cycle_ts_preset(m, true);
            let f2 = spec_cycle_ts_preset(f1, true);
            let f3 = spec_cycle_ts_preset(f2, true);
            let f4 = spec_cycle_ts_preset(f3, true);
            let f5 = spec_cycle_ts_preset(f4, true);
            let f6 = spec_cycle_ts_preset(f5, true);
            let f7 = spec_cycle_ts_preset(f6, true);
            let f8 = spec_cycle_ts_preset(f7, true);
            (f8.ts_num, f8.ts_den) == (m.ts_num, m.ts_den)
        }),
{
    lemma_preset_step(m, i);
    let f1 = spec_cycle_ts_preset(m, true);
    lemma_preset_step(f1, (i + 1) % 8);
    let b1 = spec_cycle_ts_preset(m, false);
    lemma_preset_step(b1, (i + 7) % 8);
    let f2 = spec_cycle_ts_preset(f1, true);
    lemma_preset_step(f2, (i + 2) % 8);
    let f3 = spec_cycle_ts_preset(f2, true);
    lemma_preset_step(f3, (i + 3) % 8);
    let f4 = spec_cycle_ts_preset(f3, true);
    lemma_preset_step(f4, (i + 4) % 8);
    let f5 = spec_cycle_ts_preset(f4, true);
    lemma_preset_step(f5, (i + 5) % 8);
    let f6 = spec_cycle_ts_preset(f5, true);
    lemma_preset_step(f6, (i + 6) % 8);
    let f7 = spec_cycle_ts_preset(f6, true);
    lemma_preset_step(f7, (i + 7) % 8);
}

/// A tempo change and its opposite cancel out when neither hits the end
/// of the range, and the tempo never leaves the range.
pub proof fn law_bpm_up_down(m: AppView, delta: i32, now: u64)
    requires
        app_wf(m),
        0 < delta,
        m.bpm + delta <= BPM_MAX,
    ensures
        spec_adjust_bpm(spec_adjust_bpm(m, delta, now), (-delta) as i32, now).bpm == m.bpm,
        BPM_MIN <= spec_adjust_bpm(m, delta, now).bpm <= BPM_MAX,
{
}

/// A volume step up and one down cancel out away from 100%, one down and
/// one up away from 0%, and the volume stays within 0..=100%.
pub proof fn law_volume_steps(v: u8)
    requires
        v <= 100,
    ensures
        v + VOLUME_STEP <= 100 ==> spec_volume_down(spec_volume_up(v)) == v,
        v >= VOLUME_STEP ==> spec_volume_up(spec_volume_down(v)) == v,
        spec_volume_up(v) <= 100,
        spec_volume_down(v) <= 100,
{
}

/// At most four rings are alive at once, whatever is done; switching the
/// effect off clears them, and switching twice restores the switch.
pub proof fn law_pulse_rings(p: PulseView, accent: bool, now: u64)
    requires
        pulse_wf(p),
    ensures
        pulse_wf(spec_trigger(p, accent, now)),
        pulse_wf(spec_tick(p, now)),
        pulse_wf(spec_toggle(p)),
        spec_trigger(p, accent, now).waves.len() <= PULSE_MAX_WAVES,
        p.enabled ==> spec_toggle(p).waves.len() == 0,
        spec_toggle(spec_toggle(p)).enabled == p.enabled,
        !p.enabled ==> spec_trigger(p, accent, now) == p,
{
    lemma_live_waves_len(p.waves, now);
}

/// The live rings are among the rings there were.
proof fn lemma_live_waves_len(waves: Seq<crate::pulse::PulseWave>, now: u64)
    ensures
        live_waves(waves, now).len() <= waves.len(),
    decreases waves.len(),
{
    if waves.len() > 0 {
        lemma_live_waves_len(waves.drop_last(), now);
    }
}

/// Of the beat dots, only the current beat's is filled, and only while the
/// flash is on; the first beat of the measure is the accented one.
pub proof fn law_beat_marks(i: u8, current: u8, flash: bool)
    ensures
        spec_beat_span(i, current, flash).filled <==> (i == current && flash),
        (spec_beat_span(i, current, flash).tone == BeatTone::AccentFlash || spec_beat_span(
            i,
            current,
            flash,
        ).tone == BeatTone::Accent) ==> i == 0,
{
}

/// Swing lengthens the gap after an on-beat and shortens the one after an
/// off-beat by the same amount, so a pair of beats takes two plain
/// intervals (to within a nanosecond of rounding).
pub proof fn law_swing_pair(bpm: u32, swing: Swing, on: u8, off: u8)
    requires
        bpm > 0,
        on % 2 == 0,
        off % 2 == 1,
    ensures
        spec_next_beat_duration(bpm, swing, on) >= spec_beat_interval(bpm),
        spec_next_beat_duration(bpm, swing, off) <= spec_beat_interval(bpm),
        2 * spec_beat_interval(bpm) - 1 <= spec_next_beat_duration(bpm, swing, on)
            + spec_next_beat_duration(bpm, swing, off) <= 2 * spec_beat_interval(bpm) + 1,
{
    let base = spec_beat_interval(bpm);
    let p = spec_swing_percent(swing) as int;
    assert(base >= 0) by (nonlinear_arith)
        requires
            base == (2 * 60_000_000_000int + bpm) / (2 * bpm),
            bpm >= 1,
    ;
    if p != 0 {
        let a = base * (100 + p);
        let b = base * (100 - p);
        assert(a + b == 200 * base) by (nonlinear_arith)
            requires
                a == base * (100 + p),
                b == base * (100 - p),
        ;
        assert(a >= 100 * base && b <= 100 * base && b >= 0) by (nonlinear_arith)
            requires
                0 <= p <= 100,
                base >= 0,
                a == base * (100 + p),
                b == base * (100 - p),
        ;
        assert(round_div(a, 100) >= base && round_div(b, 100) <= base) by (nonlinear_arith)
            requires
                a >= 100 * base,
                0 <= b <= 100 * base,
        ;
        assert(2 * base - 1 <= round_div(a, 100) + round_div(b, 100) <= 2 * base + 1)
            by (nonlinear_arith)
            requires
                a + b == 200 * base,
                a >= 0,
                b >= 0,
        ;
    }
}

/// After `k` catch-up steps the beat has moved on `k` places round the
/// measure, and the due time by at least `k` of the shortest gaps.
pub proof fn lemma_advance(m: AppView, k: nat)
    requires
        app_wf(m),
    ensures
        spec_advance(m, k).0 < m.ts_num,
        spec_advance(m, k).0 == (m.beat + k) % (m.ts_num as int),
        spec_advance(m, k).1 >= m.next_beat + k * MIN_BEAT_NANOS,
        k > 0 ==> spec_advance(m, k).1 <= spec_advance(m, (k - 1) as nat).1 + MAX_BEAT_NANOS,
        k > 0 ==> spec_advance(m, k).1 == spec_advance(m, (k - 1) as nat).1
            + spec_next_beat_duration(m.bpm, m.swing, spec_advance(m, k).0),
    decreases k,
{
    if k > 0 {
        let prev = spec_advance(m, (k - 1) as nat);
        lemma_advance(m, (k - 1) as nat);
        let b = ((prev.0 + 1) % (m.ts_num as int)) as u8;
        lemma_beat_duration_bounds(m.bpm, m.swing, b);
        lemma_add_mod_noop_right(1, m.beat + k - 1, m.ts_num as int);
    } else {
        assert((m.beat as int) % (m.ts_num as int) == m.beat as int) by (nonlinear_arith)
            requires
                0 <= m.beat < m.ts_num,
        ;
    }
}

/// Searching on from `j` steps finds the first step past `now`.
proof fn lemma_catch_up_from(m: AppView, now: u64, j: nat)
    requires
        app_wf(m),
        forall|i: nat| i < j ==> #[trigger] spec_advance(m, i).1 <= now,
    ensures
        exists|k: nat| caught_up(m, now, k),
    decreases
            if spec_advance(m, j).1 <= now {
                now + 1 - spec_advance(m, j).1
            } else {
                0
            },
{
    if spec_advance(m, j).1 > now {
        assert(caught_up(m, now, j));
    } else {
        lemma_advance(m, j + 1);
        lemma_beat_duration_bounds(m.bpm, m.swing, spec_advance(m, j + 1).0);
        assert forall|i: nat| i < j + 1 implies #[trigger] spec_advance(m, i).1 <= now by {}
        lemma_catch_up_from(m, now, j + 1);
    }
}

/// However far behind, some number of steps brings the due time past `now`.
pub proof fn lemma_catch_up_exists(m: AppView, now: u64)
    requires
        app_wf(m),
    ensures
        caught_up(m, now, spec_missed(m, now)),
{
    lemma_catch_up_from(m, now, 0);
}

/// A frame keeps the invariant; while running, the next beat is due after
/// the frame ("no machine-gun burst": one click at most, for the last beat
/// that fell due), and, when a beat fell due, no more than one gap after
/// it. The beat moves on by the number of beats that fell due, and the
/// click is accented exactly on the first beat of the measure.
pub proof fn law_tick_beats(m: AppView, now: u64)
    requires
        app_wf(m),
        now <= CLOCK_MAX,
    ensures
        ({
            let (m2, click) = spec_tick_beats(m, now);
            let k = spec_missed(m, now);
            &&& app_wf(m2)
            &&& m.running ==> m2.next_beat > now
            &&& (m.running && k > 0) ==> m2.next_beat <= now + spec_next_beat_duration(
                m2.bpm,
                m2.swing,
                m2.beat,
            )
            &&& (m.running && k > 0) ==> m2.beat == (m.beat + k) % (m.ts_num as int)
            &&& click is Some <==> (m.running && m.next_beat <= now)
            &&& click matches Some(c) ==> c == spec_click(m.sound, m2.beat == 0, m.volume)
            &&& click is Some ==> m2.flash == FLASH_FRAMES
        }),
{
    lemma_catch_up_exists(m, now);
    let k = spec_missed(m, now);
    lemma_advance(m, k);
    if k > 0 {
        assert(spec_advance(m, (k - 1) as nat).1 <= now);
        lemma_beat_duration_bounds(m.bpm, m.swing, spec_advance(m, k).0);
        law_pulse_rings(m.pulse, spec_advance(m, k).0 == 0, now);
        assert(spec_advance(m, 0nat).1 <= now);
    } else {
        assert(spec_advance(m, 0).1 > now);
    }
}

/// A tempo change keeps the invariant.
proof fn lemma_adjust_keeps_wf(m: AppView, delta: i32, now: u64)
    requires
        app_wf(m),
        now <= CLOCK_MAX,
    ensures
        app_wf(spec_adjust_bpm(m, delta, now)),
{
    let b = crate::metronome::clamp_bpm(m.bpm + delta);
    lemma_beat_duration_bounds(b, m.swing, m.beat);
}

/// A preset step keeps the invariant.
proof fn lemma_preset_keeps_wf(m: AppView, forward: bool)
    requires
        app_wf(m),
    ensures
        app_wf(spec_cycle_ts_preset(m, forward)),
{
    reveal(spec_cycle_ts_preset);
    let idx = spec_preset_index(m.ts_num, m.ts_den);
    assert(0 <= idx < 8);
}

/// A tap keeps the invariant.
proof fn lemma_tap_tempo_keeps_wf(m: AppView, now: u64)
    requires
        app_wf(m),
        now <= CLOCK_MAX,
    ensures
        app_wf(crate::metronome::spec_tap_tempo(m, now)),
{
    lemma_tap_keeps_wf(m.taps, now);
    match spec_estimate_bpm(spec_tap(m.taps, now)) {
        Some(b) => {
            if BPM_MIN <= b <= BPM_MAX {
                lemma_beat_duration_bounds(b, m.swing, m.beat);
            }
        },
        None => {},
    }
}

/// Every key keeps the invariant: the tempo stays within 10..=400, the
/// beat inside the measure, the denominator one of 4, 8, 16, the volume
/// within 0..=100%, at most eight taps and four rings.
pub proof fn law_key_keeps_invariant(m: AppView, key: Key, now: u64)
    requires
        app_wf(m),
        now <= CLOCK_MAX,
    ensures
        app_wf(spec_handle_key(m, key, now).0),
{
    match key {
        Key::Up => lemma_adjust_keeps_wf(m, 1, now),
        Key::Down => lemma_adjust_keeps_wf(m, -1i32, now),
        Key::PageUp => lemma_adjust_keeps_wf(m, 10, now),
        Key::PageDown => lemma_adjust_keeps_wf(m, -10i32, now),
        Key::Tab => lemma_preset_keeps_wf(m, true),
        Key::BackTab => lemma_preset_keeps_wf(m, false),
        Key::Char(c) => {
            if c == ' ' {
                lemma_beat_duration_bounds(m.bpm, m.swing, 0);
                law_pulse_rings(m.pulse, true, now);
            } else if c == '+' {
                lemma_adjust_keeps_wf(m, 1, now);
            } else if c == '-' {
                lemma_adjust_keeps_wf(m, -1i32, now);
            } else if c == 't' {
                lemma_tap_tempo_keeps_wf(m, now);
            } else if c == 'w' {
                lemma_beat_duration_bounds(m.bpm, spec_next_swing(m.swing), m.beat);
            } else if c == 'p' {
                law_pulse_rings(m.pulse, true, now);
            }
        },
        _ => {},
    }
}

/// Space starts a stopped metronome on an accented first beat that sounds
/// at once, the next due one on-beat gap later; the next Space stops it.
pub proof fn law_space_starts_and_stops(m: AppView, now: u64, later: u64)
    requires
        app_wf(m),
        !m.running,
        now <= CLOCK_MAX,
    ensures
        ({
            let (m1, out) = spec_handle_key(m, Key::Char(' '), now);
            let (m2, out2) = spec_handle_key(m1, Key::Char(' '), later);
            &&& m1.running && m1.beat == 0
            &&& out.click == Some(spec_click(m.sound, true, m.volume))
            &&& m1.next_beat == now + spec_next_beat_duration(m.bpm, m.swing, 0)
            &&& m1.flash == FLASH_FRAMES
            &&& m.pulse.enabled ==> m1.pulse.waves.last() == (PulseWave { born: now, accent: true })
            &&& !m.pulse.enabled ==> m1.pulse == m.pulse
            &&& !m2.running
            &&& out2.click is None
        }),
{
    lemma_beat_duration_bounds(m.bpm, m.swing, 0);
}

/// The sum of the gaps of taps spaced evenly by `g`.
proof fn lemma_even_gap_sum(taps: Seq<u64>, g: u64)
    requires
        taps.len() >= 1,
        forall|i: int| 0 <= i < taps.len() - 1 ==> #[trigger] taps[i + 1] == taps[i] + g,
    ensures
        gap_sum(taps) == (taps.len() - 1) * g,
    decreases taps.len(),
{
    if taps.len() >= 2 {
        let d = taps.drop_last();
        assert forall|i: int| 0 <= i < d.len() - 1 implies #[trigger] d[i + 1] == d[i] + g by {
            assert(taps[i + 1] == taps[i] + g);
        }
        lemma_even_gap_sum(d, g);
        assert(taps[taps.len() - 2 + 1] == taps[taps.len() - 2] + g);
        assert(elapsed(taps[taps.len() - 2], taps[taps.len() - 1]) == g);
        assert(gap_sum(taps) == gap_sum(d) + g);
        assert(gap_sum(d) == (d.len() - 1) * g);
        let l = taps.len() as int;
        assert((l - 2) * g + g == (l - 1) * g) by (nonlinear_arith);
    } else {
        let l = taps.len() as int;
        assert((l - 1) * g == 0) by (nonlinear_arith)
            requires
                l == 1,
        ;
    }
}

/// Taps spaced evenly by `g` give the tempo of that gap: 60 s / g rounded
/// to the nearest beat per minute, however many taps there are.
pub proof fn law_even_taps(taps: Seq<u64>, g: u64)
    requires
        taps.len() >= 2,
        g > 0,
        forall|i: int| 0 <= i < taps.len() - 1 ==> #[trigger] taps[i + 1] == taps[i] + g,
    ensures
        spec_estimate_bpm(taps) == Some(
            if round_div(NANOS_PER_MIN as int, g as int) <= u32::MAX {
                round_div(NANOS_PER_MIN as int, g as int) as u32
            } else {
                BPM_MAX
            },
        ),
{
    lemma_even_gap_sum(taps, g);
    let n = taps.len() - 1;
    let N = NANOS_PER_MIN as int;
    assert(n * g > 0) by (nonlinear_arith)
        requires
            n >= 1,
            g > 0,
    ;
    assert((2 * (N * n) + n * g) == n * (2 * N + g)) by (nonlinear_arith);
    assert(2 * (n * g) == n * (2 * g)) by (nonlinear_arith);
    vstd::arithmetic::div_mod::lemma_div_multiples_vanish_quotient(n, 2 * N + g, 2 * g);
}

/// Since taps more than 2 s old are discarded, taps made in clock order
/// never give a tempo below 30 BPM. (A clock running backwards could: taps
/// at 0 s, 100 s and 1 s keep all three, with gaps summing to 100 s.)
pub proof fn law_tap_tempo_floor(taps: Seq<u64>)
    requires
        taps_wf(taps),
        forall|i: int, j: int| 0 <= i <= j < taps.len() ==> taps[i] <= taps[j],
    ensures
        spec_estimate_bpm(taps) matches Some(b) ==> b >= 30,
{
    if taps.len() >= 2 && gap_sum(taps) != 0 {
        lemma_sorted_gap_sum(taps);
        assert(elapsed(taps[0], taps.last()) <= 2_000_000_000);
        let n = taps.len() - 1;
        let sum = gap_sum(taps);
        assert(round_div(NANOS_PER_MIN * n, sum) >= 30) by (nonlinear_arith)
            requires
                n >= 1,
                0 < sum <= 2_000_000_000,
                NANOS_PER_MIN == 60_000_000_000,
        ;
    }
}

/// A frame in which a beat falls due, with the pulse effect on, spawns its
/// ring at that moment, warm (accent) exactly on the first beat of the
/// measure and cool on every other beat: the same accent as the click.
pub proof fn law_tick_ring_colour(m: AppView, now: u64)
    requires
        app_wf(m),
        now <= CLOCK_MAX,
        m.running,
        m.pulse.enabled,
        m.next_beat <= now,
    ensures
        ({
            let (m2, click) = spec_tick_beats(m, now);
            &&& m2.pulse.waves.len() >= 1
            &&& m2.pulse.waves.last() == (PulseWave { born: now, accent: m2.beat == 0 })
            &&& click matches Some(c) && c.accent == (m2.beat == 0)
        }),
{
    law_tick_beats(m, now);
}

/// A tempo change that moves the tempo while running schedules the next
/// beat exactly one gap at the new tempo after `now`, for the current beat,
/// whether that is earlier or later than it was due before.
pub proof fn law_tempo_change_reschedules(m: AppView, delta: i32, now: u64)
    requires
        app_wf(m),
        now <= CLOCK_MAX,
        m.running,
        BPM_MIN <= m.bpm + delta <= BPM_MAX,
        delta != 0,
    ensures
        ({
            let m2 = spec_adjust_bpm(m, delta, now);
            &&& m2.bpm == m.bpm + delta
            &&& m2.next_beat == now + spec_next_beat_duration(m2.bpm, m.swing, m.beat)
            &&& m2.beat == m.beat
        }),
{
    lemma_beat_duration_bounds((m.bpm + delta) as u32, m.swing, m.beat);
}

/// The tempo keys act the same way: Up, Down, PageUp and PageDown while
/// running, away from the ends of the range, reschedule the next beat one
/// gap at the new tempo after `now`; the swing key while running
/// reschedules at the new swing.
pub proof fn law_keys_reschedule(m: AppView, now: u64)
    requires
        app_wf(m),
        now <= CLOCK_MAX,
        m.running,
    ensures
        m.bpm + 10 <= BPM_MAX ==> ({
            let m2 = spec_handle_key(m, Key::PageUp, now).0;
            m2.bpm == m.bpm + 10 && m2.next_beat == now + spec_next_beat_duration(
                m2.bpm,
                m.swing,
                m.beat,
            )
        }),
        m.bpm + 1 <= BPM_MAX ==> ({
            let m2 = spec_handle_key(m, Key::Up, now).0;
            m2.bpm == m.bpm + 1 && m2.next_beat == now + spec_next_beat_duration(
                m2.bpm,
                m.swing,
                m.beat,
            )
        }),
        m.bpm - 1 >= BPM_MIN ==> ({
            let m2 = spec_handle_key(m, Key::Down, now).0;
            m2.bpm == m.bpm - 1 && m2.next_beat == now + spec_next_beat_duration(
                m2.bpm,
                m.swing,
                m.beat,
            )
        }),
        m.bpm - 10 >= BPM_MIN ==> ({
            let m2 = spec_handle_key(m, Key::PageDown, now).0;
            m2.bpm == m.bpm - 10 && m2.next_beat == now + spec_next_beat_duration(
                m2.bpm,
                m.swing,
                m.beat,
            )
        }),
        ({
            let m2 = spec_handle_key(m, Key::Char('w'), now).0;
            m2.swing == spec_next_swing(m.swing) && m2.next_beat == now + spec_next_beat_duration(
                m.bpm,
                m2.swing,
                m.beat,
            )
        }),
{
    lemma_beat_duration_bounds(m.bpm, spec_next_swing(m.swing), m.beat);
    if m.bpm + 10 <= BPM_MAX {
        law_tempo_change_reschedules(m, 10, now);
    }
    if m.bpm + 1 <= BPM_MAX {
        law_tempo_change_reschedules(m, 1, now);
    }
    if m.bpm - 1 >= BPM_MIN {
        law_tempo_change_reschedules(m, -1i32, now);
    }
    if m.bpm - 10 >= BPM_MIN {
        law_tempo_change_reschedules(m, -10i32, now);
    }
}

/// Every beat dot that is not the current beat is hollow, and its tone is
/// the accent's exactly on the first beat of the measure, flash or not;
/// the current beat's dot is filled and bright only while the flash is on
/// (warm on the first beat), dim otherwise.
pub proof fn law_beat_dot_tones(i: u8, current: u8, flash: bool)
    ensures
        i != current ==> !spec_beat_span(i, current, flash).filled,
        i != current ==> (spec_beat_span(i, current, flash).tone == BeatTone::Accent <==> i == 0),
        i != current ==> (spec_beat_span(i, current, flash).tone == BeatTone::Accent
            || spec_beat_span(i, current, flash).tone == BeatTone::Dim),
        spec_beat_span(i, current, false) == spec_beat_span(i, current, true) || i == current,
        i == current && flash ==> (spec_beat_span(i, current, flash).tone == BeatTone::AccentFlash
            <==> i == 0),
        i == current && flash ==> (spec_beat_span(i, current, flash).tone == BeatTone::AccentFlash
            || spec_beat_span(i, current, flash).tone == BeatTone::Flash),
        i == current && !flash ==> spec_beat_span(i, current, flash).tone == BeatTone::Dim,
{
}

/// A click's gain is proportional to the volume, for accented and weak
/// clicks alike (silent at 0%, its base level of 70 or 50 per hundred at
/// 100%), an accented click is louder than a weak one at any volume
/// above 0, and its tone is the sound's accent or weak frequency.
pub proof fn law_click_gain(sound: SoundType, accent: bool, v: u8, w: u8)
    ensures
        spec_click(sound, accent, v).gain * w == spec_click(sound, accent, w).gain * v,
        spec_click(sound, accent, 0).gain == 0,
        spec_click(sound, true, 100).gain == 7000,
        spec_click(sound, false, 100).gain == 5000,
        v > 0 ==> spec_click(sound, true, v).gain > spec_click(sound, false, v).gain,
        spec_click(sound, accent, v).accent == accent,
        spec_click(sound, accent, v).freq_hz == if accent {
            spec_freqs(sound).0
        } else {
            spec_freqs(sound).1
        },
{
    let l: int = if accent { 70 } else { 50 };
    assert((l * v) * w == (l * w) * v) by (nonlinear_arith);
    assert(v > 0 ==> 70 * v > 50 * v) by (nonlinear_arith);
}

/// A preset step changes only the time signature, and the beat carries on
/// where it was when it still lies inside the new measure, restarting at 0
/// only otherwise; the same holds of setting the numerator with a digit.
pub proof fn law_signature_change_keeps_beat(m: AppView, forward: bool, c: char, now: u64)
    requires
        app_wf(m),
    ensures
        ({
            let m2 = spec_cycle_ts_preset(m, forward);
            &&& m2.beat == if m.beat < m2.ts_num { m.beat } else { 0 }
            &&& m2.bpm == m.bpm && m2.running == m.running && m2.next_beat == m.next_beat
            &&& m2.swing == m.swing && m2.sound == m.sound && m2.volume == m.volume
        }),
        '1' <= c <= '9' ==> ({
            let m2 = spec_handle_key(m, Key::Char(c), now).0;
            &&& m2.ts_num == c as int - '0' as int
            &&& m2.ts_den == m.ts_den
            &&& m2.beat == if m.beat < m2.ts_num { m.beat } else { 0 }
            &&& m2.next_beat == m.next_beat
        }),
{
    reveal(spec_cycle_ts_preset);
}

/// The rings alive after a frame are exactly those of before that are
/// still alive at `now`.
proof fn lemma_live_waves_members(waves: Seq<PulseWave>, now: u64)
    ensures
        forall|w: PulseWave|
            live_waves(waves, now).contains(w) <==> (waves.contains(w) && wave_alive(w, now)),
    decreases waves.len(),
{
    if waves.len() > 0 {
        let d = waves.drop_last();
        lemma_live_waves_members(d, now);
        assert forall|w: PulseWave|
            live_waves(waves, now).contains(w) <==> (waves.contains(w) && wave_alive(w, now)) by {
            if waves.contains(w) {
                let i = choose|i: int| 0 <= i < waves.len() && waves[i] == w;
                if i < waves.len() - 1 {
                    assert(d[i] == w);
                }
            }
            if d.contains(w) {
                let i = choose|i: int| 0 <= i < d.len() && d[i] == w;
                assert(waves[i] == w);
            }
            if live_waves(waves, now).contains(w) && wave_alive(waves.last(), now) {
                let r = live_waves(d, now);
                let i = choose|i: int|
                    0 <= i < live_waves(waves, now).len() && live_waves(waves, now)[i] == w;
                if i < r.len() {
                    assert(r[i] == w);
                }
            }
            if live_waves(d, now).contains(w) && wave_alive(waves.last(), now) {
                let r = live_waves(d, now);
                let i = choose|i: int| 0 <= i < r.len() && r[i] == w;
                assert(r.push(waves.last())[i] == w);
            }
            if wave_alive(waves.last(), now) && w == waves.last() {
                let r = live_waves(d, now);
                assert(r.push(waves.last())[r.len() as int] == w);
            }
        }
    }
}

/// A frame keeps every ring still alive (younger than 2 s) and drops every
/// other one, and the animation clock moves on by the time since the last
/// frame. A beat's ring is added last, with the beat's moment and colour,
/// after the rings there were (less the oldest when four were alive).
pub proof fn law_pulse_tick_and_trigger(p: PulseView, accent: bool, now: u64)
    requires
        pulse_wf(p),
    ensures
        forall|w: PulseWave|
            spec_tick(p, now).waves.contains(w) <==> (p.waves.contains(w) && elapsed(w.born, now)
                < 2_000_000_000),
        spec_tick(p, now).last_frame == now,
        p.elapsed + elapsed(p.last_frame, now) <= u64::MAX ==> spec_tick(p, now).elapsed
            == p.elapsed + elapsed(p.last_frame, now),
        p.enabled ==> spec_trigger(p, accent, now).waves.last() == (PulseWave {
            born: now,
            accent,
        }),
        p.enabled && p.waves.len() < PULSE_MAX_WAVES ==> spec_trigger(p, accent, now).waves
            =~= p.waves.push(PulseWave { born: now, accent }),
        p.enabled && p.waves.len() == PULSE_MAX_WAVES ==> spec_trigger(p, accent, now).waves
            =~= p.waves.drop_first().push(PulseWave { born: now, accent }),
{
    lemma_live_waves_members(p.waves, now);
}

/// The recent taps are exactly the taps at most 2 s old.
proof fn lemma_recent_taps_members(taps: Seq<u64>, now: u64)
    ensures
        forall|t: u64|
            recent_taps(taps, now).contains(t) <==> (taps.contains(t) && elapsed(t, now)
                <= TAP_TIMEOUT_NANOS),
        recent_taps(taps, now).len() <= taps.len(),
    decreases taps.len(),
{
    if taps.len() > 0 {
        let d = taps.drop_last();
        lemma_recent_taps_members(d, now);
        let r = recent_taps(d, now);
        assert forall|t: u64|
            recent_taps(taps, now).contains(t) <==> (taps.contains(t) && elapsed(t, now)
                <= TAP_TIMEOUT_NANOS) by {
            if taps.contains(t) {
                let i = choose|i: int| 0 <= i < taps.len() && taps[i] == t;
                if i < taps.len() - 1 {
                    assert(d[i] == t);
                }
            }
            if d.contains(t) {
                let i = choose|i: int| 0 <= i < d.len() && d[i] == t;
                assert(taps[i] == t);
            }
            if elapsed(taps.last(), now) <= TAP_TIMEOUT_NANOS {
                if recent_taps(taps, now).contains(t) {
                    let i = choose|i: int|
                        0 <= i < recent_taps(taps, now).len() && recent_taps(taps, now)[i] == t;
                    if i < r.len() {
                        assert(r[i] == t);
                    }
                }
                if r.contains(t) {
                    let i = choose|i: int| 0 <= i < r.len() && r[i] == t;
                    assert(r.push(taps.last())[i] == t);
                }
                if t == taps.last() {
                    assert(r.push(taps.last())[r.len() as int] == t);
                }
            }
        }
    }
}

/// A tap keeps exactly the taps at most 2 s old and adds itself last, as
/// long as that makes no more than eight; beyond eight the oldest goes.
/// Whatever it keeps is the new tap or an earlier tap at most 2 s old.
pub proof fn law_tap_keeps_recent(taps: Seq<u64>, now: u64, t: u64)
    requires
        taps_wf(taps),
    ensures
        spec_tap(taps, now).last() == now,
        spec_tap(taps, now).contains(t) ==> (t == now || (taps.contains(t) && elapsed(t, now)
            <= TAP_TIMEOUT_NANOS)),
        recent_taps(taps, now).len() < MAX_TAPS ==> (taps.contains(t) && elapsed(t, now)
            <= TAP_TIMEOUT_NANOS ==> spec_tap(taps, now).contains(t)),
{
    lemma_recent_taps_members(taps, now);
    lemma_tap_keeps_wf(taps, now);
    let r = recent_taps(taps, now);
    let s = spec_tap(taps, now);
    if s.contains(t) && t != now {
        let i = choose|i: int| 0 <= i < s.len() && s[i] == t;
        if r.push(now).len() > MAX_TAPS {
            assert(r.push(now)[i + 1] == t);
            assert(r[i + 1] == t);
        } else {
            assert(r.push(now)[i] == t);
            assert(r[i] == t);
        }
    }
    if r.len() < MAX_TAPS && taps.contains(t) && elapsed(t, now) <= TAP_TIMEOUT_NANOS {
        assert(r.contains(t));
        let i = choose|i: int| 0 <= i < r.len() && r[i] == t;
        assert(s[i] == t);
    }
}

/// The schedule after a frame: when one or two beats fell due, the next
/// beat is due the gaps after the time the first was due (no drift); when
/// more fell due, one gap after `now`.
pub proof fn law_tick_schedule(m: AppView, now: u64)
    requires
        app_wf(m),
        now <= CLOCK_MAX,
        m.running,
    ensures
        now < m.next_beat ==> spec_tick_beats(m, now) == (m, None::<crate::sound::Click>),
        ({
            let m2 = spec_tick_beats(m, now).0;
            let b1 = ((m.beat + 1) % (m.ts_num as int)) as u8;
            let g1 = spec_next_beat_duration(m.bpm, m.swing, b1);
            (m.next_beat <= now && now < m.next_beat + g1) ==> (m2.beat == b1 && m2.next_beat
                == m.next_beat + g1)
        }),
        ({
            let m2 = spec_tick_beats(m, now).0;
            let b1 = ((m.beat + 1) % (m.ts_num as int)) as u8;
            let b2 = ((b1 + 1) % (m.ts_num as int)) as u8;
            let g1 = spec_next_beat_duration(m.bpm, m.swing, b1);
            let g2 = spec_next_beat_duration(m.bpm, m.swing, b2);
            (m.next_beat + g1 <= now && now < m.next_beat + g1 + g2) ==> (m2.beat == b2
                && m2.next_beat == m.next_beat + g1 + g2)
        }),
        ({
            let m2 = spec_tick_beats(m, now).0;
            let b1 = ((m.beat + 1) % (m.ts_num as int)) as u8;
            let b2 = ((b1 + 1) % (m.ts_num as int)) as u8;
            let g1 = spec_next_beat_duration(m.bpm, m.swing, b1);
            let g2 = spec_next_beat_duration(m.bpm, m.swing, b2);
            m.next_beat + g1 + g2 <= now ==> m2.next_beat == now + spec_next_beat_duration(
                m.bpm,
                m.swing,
                m2.beat,
            )
        }),
{
    law_tick_beats(m, now);
    lemma_catch_up_exists(m, now);
    let k = spec_missed(m, now);
    lemma_advance(m, 1);
    lemma_advance(m, 2);
    assert(spec_advance(m, 0).1 == m.next_beat);
    let (m2, click) = spec_tick_beats(m, now);
    let b1 = ((m.beat + 1) % (m.ts_num as int)) as u8;
    let b2 = ((b1 + 1) % (m.ts_num as int)) as u8;
    let g1 = spec_next_beat_duration(m.bpm, m.swing, b1);
    let g2 = spec_next_beat_duration(m.bpm, m.swing, b2);
    assert(spec_advance(m, 1).0 == b1);
    assert(spec_advance(m, 1).1 == m.next_beat + g1);
    assert(spec_advance(m, 2).0 == b2);
    assert(spec_advance(m, 2).1 == m.next_beat + g1 + g2);
    if now < m.next_beat {
        assert(caught_up(m, now, 0));
        lemma_caught_up_unique(m, now, 0, k);
        assert(m2 == m);
    } else if now < m.next_beat + g1 {
        assert(caught_up(m, now, 1));
        lemma_caught_up_unique(m, now, 1, k);
    } else if now < m.next_beat + g1 + g2 {
        assert(caught_up(m, now, 2));
        lemma_caught_up_unique(m, now, 2, k);
    } else {
        assert(k > 2) by {
            if k <= 2 {
                assert(spec_advance(m, k).1 > now);
            }
        }
        lemma_advance(m, k);
        lemma_beat_duration_bounds(m.bpm, m.swing, spec_advance(m, k).0);
    }
}

/// What each key does to a stopped metronome: the tempo keys move the
/// tempo by 1 or 10 within 10..=400, the volume keys by 10% within
/// 0..=100%, `n` and `d` step the sound and the denominator, `q` and Esc
/// quit and change nothing, and keys with no meaning change nothing.
pub proof fn law_key_effects(m: AppView, now: u64)
    requires
        app_wf(m),
        !m.running,
    ensures
        spec_handle_key(m, Key::Char('+'), now).0.bpm == if m.bpm < BPM_MAX { m.bpm + 1 } else { BPM_MAX as int },
        spec_handle_key(m, Key::Up, now).0.bpm == if m.bpm < BPM_MAX { m.bpm + 1 } else { BPM_MAX as int },
        spec_handle_key(m, Key::Char('-'), now).0.bpm == if m.bpm > BPM_MIN { m.bpm - 1 } else { BPM_MIN as int },
        spec_handle_key(m, Key::Down, now).0.bpm == if m.bpm > BPM_MIN { m.bpm - 1 } else { BPM_MIN as int },
        spec_handle_key(m, Key::PageUp, now).0.bpm == if m.bpm + 10 < BPM_MAX { m.bpm + 10 } else { BPM_MAX as int },
        spec_handle_key(m, Key::PageDown, now).0.bpm == if m.bpm - 10 > BPM_MIN { m.bpm - 10 } else { BPM_MIN as int },
        spec_handle_key(m, Key::Char(']'), now).0.volume == if m.volume + 10 < 100 { m.volume + 10 } else { 100 },
        spec_handle_key(m, Key::Char('['), now).0.volume == if m.volume > 10 { m.volume - 10 } else { 0 },
        spec_handle_key(m, Key::Char('n'), now).0.sound == spec_next_sound(m.sound),
        spec_handle_key(m, Key::Char('d'), now).0.ts_den == spec_next_den(m.ts_den),
        spec_handle_key(m, Key::Char('p'), now).0.pulse.enabled == !m.pulse.enabled,
        spec_handle_key(m, Key::Char('q'), now) == (m, crate::metronome::KeyOutcome { quit: true, click: None }),
        spec_handle_key(m, Key::Esc, now) == (m, crate::metronome::KeyOutcome { quit: true, click: None }),
        spec_handle_key(m, Key::Char('x'), now).0 == m,
        !spec_handle_key(m, Key::Char('x'), now).1.quit,
        spec_handle_key(m, Key::Other, now).0 == m,
        spec_handle_key(m, Key::Char('0'), now).0 == m,
{
}

} // verus!
