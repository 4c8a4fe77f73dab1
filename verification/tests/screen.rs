use tui_metronome::clock::{clamp_reading, Clock};
use tui_metronome::layout::{
    bpm_band, frame_fits, frame_rows, screen_layout, tempo_rows, Area, Regions, Row, Screen,
};
use tui_metronome::metronome::{App, Key, CLOCK_MAX};
use tui_metronome::view::{beat_span, BeatMark, BeatTone, BpmTone};

#[test]
fn beat_dots() {
    assert_eq!(beat_span(0, 0, true), BeatMark { filled: true, tone: BeatTone::AccentFlash });
    assert_eq!(beat_span(2, 2, true), BeatMark { filled: true, tone: BeatTone::Flash });
    assert_eq!(beat_span(2, 2, false), BeatMark { filled: false, tone: BeatTone::Dim });
    assert_eq!(beat_span(0, 0, false), BeatMark { filled: false, tone: BeatTone::Dim });
    assert_eq!(beat_span(0, 1, true), BeatMark { filled: false, tone: BeatTone::Accent });
    assert_eq!(beat_span(3, 1, true), BeatMark { filled: false, tone: BeatTone::Dim });
}

#[test]
fn one_dot_per_beat() {
    let mut app = App::new(0);
    app.handle_key(Key::Char(' '), 0);
    let marks = app.beat_marks();
    assert_eq!(marks.len(), 4);
    assert_eq!(marks.iter().filter(|m| m.filled).count(), 1);
    assert!(marks[0].filled);
    app.handle_key(Key::Char('7'), 0);
    assert_eq!(app.beat_marks().len(), 7);
}

#[test]
fn tempo_colour() {
    let mut app = App::new(0);
    assert_eq!(app.bpm_tone(), BpmTone::Stopped);
    app.handle_key(Key::Char(' '), 0);
    assert_eq!(app.bpm_tone(), BpmTone::Flash);
    for _ in 0..6 {
        app.tick_flash();
    }
    assert_eq!(app.bpm_tone(), BpmTone::Running);
}

#[test]
fn tap_indicator_needs_two_taps() {
    let mut app = App::new(0);
    assert_eq!(app.tap_indicator(), None);
    app.handle_key(Key::Char('t'), 0);
    assert_eq!(app.tap_indicator(), None);
    app.handle_key(Key::Char('t'), 0);
    assert_eq!(app.tap_indicator(), None);
    app.handle_key(Key::Char('t'), 500_000_000);
    assert_eq!(app.tap_indicator(), Some((3, 240)));
}

#[test]
fn minimum_terminal_size() {
    assert!(frame_fits(40, 12));
    assert!(!frame_fits(39, 12));
    assert!(!frame_fits(40, 11));
    let small = Area { x: 0, y: 0, width: 39, height: 30 };
    assert_eq!(screen_layout(small), Screen::TooSmall);
}

#[test]
fn tempo_block_is_centred() {
    let mid = Area { x: 1, y: 3, width: 78, height: 17 };
    assert_eq!(bpm_band(mid), Area { x: 1, y: 7, width: 78, height: 8 });
    let low = Area { x: 1, y: 3, width: 78, height: 5 };
    assert_eq!(bpm_band(low), Area { x: 1, y: 4, width: 78, height: 3 });
    let tiny = Area { x: 0, y: 0, width: 10, height: 1 };
    assert_eq!(bpm_band(tiny), Area { x: 0, y: 0, width: 10, height: 0 });
}

#[test]
fn screen_layout_of_an_80_by_24_terminal() {
    let screen = screen_layout(Area { x: 0, y: 0, width: 80, height: 24 });
    assert_eq!(
        screen,
        Screen::Laid(Regions {
            inner: Area { x: 1, y: 1, width: 78, height: 22 },
            hint: Area { x: 1, y: 1, width: 78, height: 2 },
            bpm: Area { x: 1, y: 7, width: 78, height: 4 },
            beats: Area { x: 1, y: 11, width: 78, height: 2 },
            status: Area { x: 1, y: 20, width: 78, height: 3 },
        })
    );
}

#[test]
fn clock_readings_grow() {
    let clock = Clock::start();
    let a = clock.now();
    let b = clock.now();
    assert!(a <= b);
    assert!(b <= CLOCK_MAX);
}

#[test]
fn clock_readings_are_held_at_the_limit() {
    assert_eq!(clamp_reading(0), 0);
    assert_eq!(clamp_reading(1_500_000_000), 1_500_000_000);
    assert_eq!(clamp_reading(CLOCK_MAX as u128), CLOCK_MAX);
    assert_eq!(clamp_reading(u128::MAX), CLOCK_MAX);
}

#[test]
fn row_requests() {
    assert_eq!(frame_rows(), vec![Row::Length(2), Row::Min(1), Row::Length(3)]);
    assert_eq!(tempo_rows(), vec![Row::Length(4), Row::Length(2)]);
}

#[test]
fn status_line_of_a_stopped_metronome() {
    let app = App::new(0);
    let s = app.status_line();
    assert!(!s.running);
    assert_eq!((s.icon, s.state), ("■", "STOPPED"));
    assert_eq!((s.beat_number, s.beats, s.bpm, s.volume), (1, 4, 120, 50));
    assert_eq!((s.swing, s.swing_highlight), ("straight", false));
    assert_eq!(s.sound, "click");
    assert_eq!((s.pulse, s.pulse_on), ("off", false));
    assert_eq!(s.tap, None);
}

#[test]
fn status_line_of_a_running_metronome() {
    let mut app = App::new(0);
    app.handle_key(Key::Char('w'), 0);
    app.handle_key(Key::Char('n'), 0);
    app.handle_key(Key::Char('p'), 0);
    app.handle_key(Key::Char(' '), 0);
    app.tick_beats(665_000_000);
    app.handle_key(Key::Char('t'), 700_000_000);
    app.handle_key(Key::Char('t'), 1_200_000_000);
    let s = app.status_line();
    assert_eq!((s.icon, s.state), ("▶", "RUNNING"));
    assert_eq!((s.beat_number, s.beats), (2, 4));
    assert_eq!((s.swing, s.swing_highlight), ("light", true));
    assert_eq!(s.sound, "wood");
    assert_eq!((s.pulse, s.pulse_on), ("on", true));
    assert_eq!(s.tap, Some((2, 120)));
}

#[test]
fn screen_rows_come_in_order() {
    for (w, h) in [(40u16, 12u16), (80, 24), (120, 40), (200, 13)] {
        let Screen::Laid(r) = screen_layout(Area { x: 0, y: 0, width: w, height: h }) else {
            panic!("{w}x{h} should be laid out");
        };
        assert!(r.hint.y + r.hint.height <= r.bpm.y);
        assert!(r.bpm.y + r.bpm.height <= r.beats.y);
        assert!(r.beats.y + r.beats.height <= r.status.y);
        assert!(r.status.y + r.status.height <= r.inner.y + r.inner.height);
    }
}
