use tui_metronome::sound::{click_for, Click, SoundType, CLICK_MILLIS};
use tui_metronome::swing::{next_swing, swing_label, Swing};
use tui_metronome::timing::{beat_interval, next_beat_duration};

#[test]
fn sound_cycle_visits_all_five_and_returns() {
    let mut s = SoundType::Click;
    let mut seen = Vec::new();
    for _ in 0..5 {
        seen.push(s.label());
        s = s.next();
    }
    assert_eq!(s, SoundType::Click);
    assert_eq!(seen, vec!["click", "wood", "cowbell", "sidestick", "beep"]);
}

#[test]
fn sound_frequencies() {
    assert_eq!(SoundType::Click.freqs(), (1760, 1320));
    assert_eq!(SoundType::Wood.freqs(), (1500, 900));
    assert_eq!(SoundType::Cowbell.freqs(), (2000, 1200));
    assert_eq!(SoundType::Sidestick.freqs(), (1200, 800));
    assert_eq!(SoundType::Beep.freqs(), (880, 660));
}

#[test]
fn click_tone_and_gain() {
    let accent = click_for(SoundType::Click, true, 50);
    assert_eq!(accent, Click { accent: true, freq_hz: 1760, gain: 3500, millis: CLICK_MILLIS });
    let weak = click_for(SoundType::Wood, false, 100);
    assert_eq!(weak, Click { accent: false, freq_hz: 900, gain: 5000, millis: 35 });
    assert_eq!(click_for(SoundType::Beep, true, 0).gain, 0);
}

#[test]
fn swing_cycle_and_labels() {
    let mut s = Swing::Straight;
    let mut labels = Vec::new();
    for _ in 0..4 {
        labels.push(swing_label(s));
        s = next_swing(s);
    }
    assert_eq!(s, Swing::Straight);
    assert_eq!(labels, vec!["straight", "light", "swing", "triplet"]);
    assert_eq!(Swing::Light.percent(), 33);
    assert_eq!(Swing::Triplet.percent(), 66);
}

#[test]
fn beat_interval_values() {
    assert_eq!(beat_interval(120), 500_000_000);
    assert_eq!(beat_interval(60), 1_000_000_000);
    assert_eq!(beat_interval(10), 6_000_000_000);
    assert_eq!(beat_interval(400), 150_000_000);
    // 60 s / 7 = 8.571428571428... s, rounded to the nanosecond
    assert_eq!(beat_interval(7), 8_571_428_571);
    // 60 s / 90 = 0.6666... s, rounded up
    assert_eq!(beat_interval(90), 666_666_667);
}

#[test]
fn swing_lengthens_on_beats_and_shortens_off_beats() {
    assert_eq!(next_beat_duration(120, Swing::Straight, 0), 500_000_000);
    assert_eq!(next_beat_duration(120, Swing::Straight, 1), 500_000_000);
    assert_eq!(next_beat_duration(120, Swing::Swung, 0), 750_000_000);
    assert_eq!(next_beat_duration(120, Swing::Swung, 1), 250_000_000);
    assert_eq!(next_beat_duration(120, Swing::Light, 2), 665_000_000);
    assert_eq!(next_beat_duration(120, Swing::Light, 3), 335_000_000);
    assert_eq!(next_beat_duration(120, Swing::Triplet, 0), 830_000_000);
    assert_eq!(next_beat_duration(120, Swing::Triplet, 1), 170_000_000);
}

#[test]
fn swing_pair_takes_two_intervals() {
    for bpm in [10u32, 77, 120, 333, 400] {
        for swing in [Swing::Light, Swing::Swung, Swing::Triplet] {
            let pair = next_beat_duration(bpm, swing, 0) + next_beat_duration(bpm, swing, 1);
            let two = 2 * beat_interval(bpm);
            assert!(pair + 1 >= two && pair <= two + 1, "bpm {bpm}");
        }
    }
}
