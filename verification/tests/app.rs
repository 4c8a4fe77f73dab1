use tui_metronome::metronome::{char_to_digit, preset_index, ts_preset, App, Key, FLASH_FRAMES};
use tui_metronome::sound::SoundType;
use tui_metronome::swing::Swing;

const MS: u64 = 1_000_000;

fn started(now: u64) -> App {
    let mut app = App::new(0);
    let out = app.handle_key(Key::Char(' '), now);
    assert!(out.click.is_some());
    app
}

#[test]
fn defaults() {
    let app = App::new(5);
    assert_eq!(app.bpm(), 120);
    assert!(!app.running());
    assert_eq!((app.ts_num(), app.ts_den()), (4, 4));
    assert_eq!(app.volume(), 50);
    assert_eq!(app.swing(), Swing::Straight);
    assert_eq!(app.sound(), SoundType::Click);
    assert_eq!(app.beat(), 0);
    assert_eq!(app.flash(), 0);
    assert_eq!(app.tap().count(), 0);
    assert!(!app.pulse().enabled());
}

#[test]
fn quit_keys() {
    let mut app = App::new(0);
    assert!(app.handle_key(Key::Char('q'), 0).quit);
    assert!(app.handle_key(Key::Esc, 0).quit);
    assert!(!app.handle_key(Key::Char('x'), 0).quit);
    assert!(!app.handle_key(Key::Other, 0).quit);
}

#[test]
fn space_starts_with_an_accented_click_and_stops() {
    let mut app = App::new(0);
    let out = app.handle_key(Key::Char(' '), 1_000 * MS);
    let click = out.click.unwrap();
    assert!(click.accent);
    assert_eq!(click.freq_hz, 1760);
    assert_eq!(click.gain, 3500);
    assert!(app.running());
    assert_eq!(app.beat(), 0);
    assert_eq!(app.flash(), FLASH_FRAMES);
    assert_eq!(app.next_beat(), 1_500 * MS);
    let out = app.handle_key(Key::Char(' '), 1_100 * MS);
    assert!(out.click.is_none());
    assert!(!app.running());
}

#[test]
fn beats_follow_the_schedule() {
    let mut app = started(0);
    assert!(app.tick_beats(499 * MS).is_none());
    let c = app.tick_beats(500 * MS).unwrap();
    assert!(!c.accent);
    assert_eq!(c.freq_hz, 1320);
    assert_eq!(app.beat(), 1);
    assert_eq!(app.next_beat(), 1_000 * MS);
    app.tick_beats(1_000 * MS);
    app.tick_beats(1_500 * MS);
    let c = app.tick_beats(2_000 * MS).unwrap();
    assert!(c.accent);
    assert_eq!(app.beat(), 0);
    assert_eq!(app.next_beat(), 2_500 * MS);
}

#[test]
fn stopped_metronome_does_not_tick() {
    let mut app = App::new(0);
    assert!(app.tick_beats(10_000 * MS).is_none());
    assert_eq!(app.beat(), 0);
}

#[test]
fn two_missed_beats_catch_up_on_schedule() {
    let mut app = started(0);
    // beats were due at 500 ms and 1000 ms: only one click, schedule kept
    let c = app.tick_beats(1_200 * MS).unwrap();
    assert_eq!(app.beat(), 2);
    assert!(!c.accent);
    assert_eq!(app.next_beat(), 1_500 * MS);
}

#[test]
fn many_missed_beats_snap_to_now() {
    let mut app = started(0);
    // beats due at 0.5, 1.0, 1.5, 2.0, 2.5 s: five missed
    let c = app.tick_beats(2_700 * MS).unwrap();
    assert_eq!(app.beat(), 1);
    assert!(!c.accent);
    assert_eq!(app.next_beat(), 3_200 * MS);
    assert!(app.next_beat() > 2_700 * MS);
}

#[test]
fn swing_shapes_the_schedule() {
    let mut app = App::new(0);
    app.handle_key(Key::Char('w'), 0);
    app.handle_key(Key::Char('w'), 0);
    assert_eq!(app.swing(), Swing::Swung);
    app.handle_key(Key::Char(' '), 0);
    // beat 0 is an on-beat: the gap after it is the long one
    assert_eq!(app.next_beat(), 750 * MS);
    app.tick_beats(750 * MS); // beat 1 (odd): short
    assert_eq!(app.next_beat(), 1_000 * MS);
    app.tick_beats(1_000 * MS); // beat 2 (even): long
    assert_eq!(app.next_beat(), 1_750 * MS);
}

#[test]
fn swing_change_while_running_reschedules() {
    let mut app = started(0);
    assert_eq!(app.next_beat(), 500 * MS);
    app.handle_key(Key::Char('w'), 100 * MS);
    assert_eq!(app.swing(), Swing::Light);
    // beat 0 with light swing: 500 ms times 1.33
    assert_eq!(app.next_beat(), 100 * MS + 665 * MS);
    // stopped, the schedule is left alone
    let mut app = App::new(0);
    app.handle_key(Key::Char('w'), 100 * MS);
    assert_eq!(app.next_beat(), 0);
}

#[test]
fn flash_decays() {
    let mut app = started(0);
    for _ in 0..FLASH_FRAMES {
        app.tick_flash();
    }
    assert_eq!(app.flash(), 0);
    app.tick_flash();
    assert_eq!(app.flash(), 0);
}

#[test]
fn bpm_keys_and_clamping() {
    let mut app = App::new(0);
    app.handle_key(Key::Up, 0);
    assert_eq!(app.bpm(), 121);
    app.handle_key(Key::Char('+'), 0);
    assert_eq!(app.bpm(), 122);
    app.handle_key(Key::Char('-'), 0);
    app.handle_key(Key::Down, 0);
    assert_eq!(app.bpm(), 120);
    app.handle_key(Key::PageUp, 0);
    assert_eq!(app.bpm(), 130);
    app.handle_key(Key::PageDown, 0);
    assert_eq!(app.bpm(), 120);
    for _ in 0..40 {
        app.handle_key(Key::PageUp, 0);
    }
    assert_eq!(app.bpm(), 400);
    for _ in 0..50 {
        app.handle_key(Key::PageDown, 0);
    }
    assert_eq!(app.bpm(), 10);
}

#[test]
fn tempo_change_while_running_reschedules() {
    let mut app = started(0);
    app.handle_key(Key::PageDown, 100 * MS);
    assert_eq!(app.bpm(), 110);
    // 60 s / 110 = 545_454_545.45 ns
    assert_eq!(app.next_beat(), 100 * MS + 545_454_545);
    // at the limit nothing changes, not even the schedule
    let mut app = App::new(0);
    for _ in 0..40 {
        app.handle_key(Key::PageUp, 0);
    }
    app.handle_key(Key::Char(' '), 0);
    let due = app.next_beat();
    app.handle_key(Key::Up, 10 * MS);
    assert_eq!(app.next_beat(), due);
}

#[test]
fn volume_keys() {
    let mut app = App::new(0);
    app.handle_key(Key::Char(']'), 0);
    assert_eq!(app.volume(), 60);
    for _ in 0..10 {
        app.handle_key(Key::Char(']'), 0);
    }
    assert_eq!(app.volume(), 100);
    for _ in 0..12 {
        app.handle_key(Key::Char('['), 0);
    }
    assert_eq!(app.volume(), 0);
}

#[test]
fn tab_cycles_presets_both_ways() {
    let mut app = App::new(0);
    let mut seen = Vec::new();
    for _ in 0..8 {
        app.handle_key(Key::Tab, 0);
        seen.push((app.ts_num(), app.ts_den()));
    }
    assert_eq!(seen, vec![(3, 4), (2, 4), (6, 8), (5, 4), (7, 8), (9, 8), (12, 8), (4, 4)]);
    app.handle_key(Key::BackTab, 0);
    assert_eq!((app.ts_num(), app.ts_den()), (12, 8));
    app.handle_key(Key::Tab, 0);
    assert_eq!((app.ts_num(), app.ts_den()), (4, 4));
}

#[test]
fn a_signature_off_the_presets_tabs_to_the_second() {
    let mut app = App::new(0);
    app.handle_key(Key::Char('d'), 0);
    app.handle_key(Key::Char('d'), 0);
    assert_eq!((app.ts_num(), app.ts_den()), (4, 16));
    app.handle_key(Key::Tab, 0);
    assert_eq!((app.ts_num(), app.ts_den()), (3, 4));
    app.handle_key(Key::Char('d'), 0);
    app.handle_key(Key::Char('d'), 0);
    app.handle_key(Key::BackTab, 0);
    assert_eq!((app.ts_num(), app.ts_den()), (12, 8));
}

#[test]
fn denominator_cycle() {
    let mut app = App::new(0);
    let mut seen = Vec::new();
    for _ in 0..3 {
        app.handle_key(Key::Char('d'), 0);
        seen.push(app.ts_den());
    }
    assert_eq!(seen, vec![8, 16, 4]);
}

#[test]
fn digits_set_the_numerator_and_keep_the_beat_inside() {
    let mut app = started(0);
    app.tick_beats(500 * MS);
    app.tick_beats(1_000 * MS);
    app.tick_beats(1_500 * MS);
    assert_eq!(app.beat(), 3);
    app.handle_key(Key::Char('7'), 0);
    assert_eq!(app.ts_num(), 7);
    assert_eq!(app.beat(), 3);
    app.handle_key(Key::Char('2'), 0);
    assert_eq!(app.ts_num(), 2);
    assert_eq!(app.beat(), 0);
    app.handle_key(Key::Char('0'), 0);
    assert_eq!(app.ts_num(), 2);
}

#[test]
fn tap_key_sets_the_tempo() {
    let mut app = App::new(0);
    app.handle_key(Key::Char('t'), 1_000 * MS);
    assert_eq!(app.bpm(), 120);
    app.handle_key(Key::Char('t'), 1_750 * MS);
    assert_eq!(app.bpm(), 80);
    assert_eq!(app.tap_indicator(), Some((2, 80)));
}

#[test]
fn tap_tempo_out_of_range_is_ignored() {
    let mut app = App::new(0);
    app.handle_key(Key::Char('t'), 0);
    app.handle_key(Key::Char('t'), 100 * MS);
    // 600 BPM is beyond the range
    assert_eq!(app.bpm(), 120);
    assert_eq!(app.tap_indicator(), Some((2, 600)));
}

#[test]
fn tap_while_running_reschedules() {
    let mut app = started(0);
    app.handle_key(Key::Char('t'), 100 * MS);
    app.handle_key(Key::Char('t'), 1_100 * MS);
    assert_eq!(app.bpm(), 60);
    assert_eq!(app.next_beat(), 2_100 * MS);
}

#[test]
fn sound_swing_and_pulse_keys() {
    let mut app = App::new(0);
    app.handle_key(Key::Char('n'), 0);
    assert_eq!(app.sound(), SoundType::Wood);
    app.handle_key(Key::Char('w'), 0);
    assert_eq!(app.swing(), Swing::Light);
    app.handle_key(Key::Char('p'), 0);
    assert!(app.pulse().enabled());
    app.handle_key(Key::Char(' '), 0);
    assert_eq!(app.pulse().waves().len(), 1);
    assert!(app.pulse().waves()[0].accent);
}

#[test]
fn digit_conversion() {
    assert_eq!(char_to_digit('5', 9), 5);
    assert_eq!(char_to_digit('9', 4), 4);
    assert_eq!(char_to_digit('0', 9), 0);
    assert_eq!(char_to_digit('x', 9), 0);
}

#[test]
fn presets_and_their_places() {
    assert_eq!(ts_preset(0), (4, 4));
    assert_eq!(ts_preset(7), (12, 8));
    assert_eq!(preset_index(6, 8), 3);
    assert_eq!(preset_index(12, 8), 7);
    assert_eq!(preset_index(4, 16), 0);
}
