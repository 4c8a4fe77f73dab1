use tui_metronome::pulse::{PulseField, PulseWave};
use tui_metronome::tap::TapTempo;

const MS: u64 = 1_000_000;

#[test]
fn one_tap_gives_no_tempo() {
    let mut t = TapTempo::new();
    assert_eq!(t.estimate_bpm(), None);
    assert_eq!(t.tap(1_000 * MS), None);
    assert_eq!(t.count(), 1);
}

#[test]
fn two_taps_half_a_second_apart_give_120() {
    let mut t = TapTempo::new();
    t.tap(1_000 * MS);
    assert_eq!(t.tap(1_500 * MS), Some(120));
    assert_eq!(t.count(), 2);
}

#[test]
fn taps_average_their_gaps() {
    let mut t = TapTempo::new();
    t.tap(0);
    t.tap(400 * MS);
    // gaps 400 ms and 600 ms: average 500 ms
    assert_eq!(t.tap(1_000 * MS), Some(120));
}

#[test]
fn evenly_spaced_taps_give_that_tempo() {
    let mut t = TapTempo::new();
    let mut r = None;
    for i in 0..5u64 {
        r = t.tap(1_000 * MS + i * 750 * MS);
    }
    assert_eq!(r, Some(80));
}

#[test]
fn a_pause_over_two_seconds_starts_afresh() {
    let mut t = TapTempo::new();
    t.tap(0);
    t.tap(500 * MS);
    assert_eq!(t.tap(3_000 * MS + 1), None);
    assert_eq!(t.count(), 1);
    // exactly two seconds still counts
    assert_eq!(t.tap(5_000 * MS + 1), Some(30));
    assert_eq!(t.count(), 2);
}

#[test]
fn taps_older_than_two_seconds_are_discarded() {
    let mut t = TapTempo::new();
    t.tap(0);
    t.tap(1_900 * MS);
    // the tap at 0 is 2.5 s old now: only the 0.6 s gap counts
    assert_eq!(t.tap(2_500 * MS), Some(100));
    assert_eq!(t.count(), 2);
}

#[test]
fn at_most_eight_taps_are_kept() {
    let mut t = TapTempo::new();
    for i in 0..12u64 {
        t.tap(i * 200 * MS);
    }
    assert_eq!(t.count(), 8);
    assert_eq!(t.estimate_bpm(), Some(300));
}

#[test]
fn taps_at_the_same_instant_give_no_tempo() {
    let mut t = TapTempo::new();
    t.tap(7);
    assert_eq!(t.tap(7), None);
}

#[test]
fn a_tempo_beyond_u32_reads_as_the_maximum() {
    let mut t = TapTempo::new();
    t.tap(10);
    // one nanosecond apart: 60_000_000_000 beats per minute
    assert_eq!(t.tap(11), Some(400));
}

#[test]
fn pulse_is_off_at_start_and_ignores_beats() {
    let mut p = PulseField::new(0);
    assert!(!p.enabled());
    p.trigger(true, 10);
    assert!(p.waves().is_empty());
}

#[test]
fn pulse_keeps_four_rings_dropping_the_oldest() {
    let mut p = PulseField::new(0);
    p.toggle();
    assert!(p.enabled());
    for i in 0..5u64 {
        p.trigger(i == 0, i * 100 * MS);
    }
    assert_eq!(p.waves().len(), 4);
    assert_eq!(p.waves()[0], PulseWave { born: 100 * MS, accent: false });
    assert_eq!(p.waves()[3].born, 400 * MS);
}

#[test]
fn pulse_rings_die_after_two_seconds() {
    let mut p = PulseField::new(0);
    p.toggle();
    p.trigger(true, 0);
    p.trigger(false, 500 * MS);
    p.tick(1_999 * MS);
    assert_eq!(p.waves().len(), 2);
    p.tick(2_000 * MS);
    assert_eq!(p.waves().len(), 1);
    assert_eq!(p.waves()[0].born, 500 * MS);
    assert_eq!(p.elapsed(), 2_000 * MS);
}

#[test]
fn pulse_off_clears_rings() {
    let mut p = PulseField::new(0);
    p.toggle();
    p.trigger(true, 0);
    p.toggle();
    assert!(!p.enabled());
    assert!(p.waves().is_empty());
    p.toggle();
    assert!(p.enabled());
    assert!(p.waves().is_empty());
}

#[test]
fn pulse_clock_advances_between_frames() {
    let mut p = PulseField::new(1_000);
    p.tick(1_500);
    p.tick(1_200);
    p.tick(2_000);
    assert_eq!(p.elapsed(), 500 + 0 + 800);
}
