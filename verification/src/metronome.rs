//! The metronome's state and every decision it takes: what a key does,
//! when the next beat is due, and what is played and shown for a beat.

use vstd::prelude::*;
use crate::pulse::{PulseField, PulseView, pulse_wf, spec_tick, spec_trigger, spec_toggle};
use crate::sound::{SoundType, Click, spec_click, spec_next_sound, click_for};
use crate::swing::{Swing, next_swing, spec_next_swing};
use crate::tap::{TapTempo, spec_tap, spec_estimate_bpm, taps_wf};
use crate::timing::{
    BPM_MAX,
    BPM_MIN,
    MAX_BEAT_NANOS,
    next_beat_duration,
    spec_next_beat_duration,
    lemma_beat_duration_bounds,
};

verus! {

/// How many frames the beat flash lasts.
pub const FLASH_FRAMES: u8 = 6;

/// The latest clock reading the metronome handles (about 146 years of
/// nanoseconds), so that a beat time plus a gap always fits in `u64`.
pub const CLOCK_MAX: u64 = 4_611_686_018_427_387_904;

/// The tempo at start.
pub const DEFAULT_BPM: u32 = 120;

/// The volume at start, in percent.
pub const DEFAULT_VOLUME: u8 = 50;

/// How much one volume key changes the volume, in percent.
pub const VOLUME_STEP: u8 = 10;

/// A key press, as the metronome reads it.
#[derive(Clone, Copy, Debug, PartialEq, Eq, Structural)]
pub enum Key {
    Char(char),
    Up,
    Down,
    PageUp,
    PageDown,
    Tab,
    BackTab,
    Esc,
    Other,
}

/// What the caller is to do after a key: quit, or play a click.
#[derive(Clone, Copy, Debug)]
pub struct KeyOutcome {
    pub quit: bool,
    pub click: Option<Click>,
}

/// The time signature presets cycled with Tab, in order.
pub open spec fn spec_ts_preset(i: int) -> (u8, u8) {
    if i == 0 {
        (4, 4)
    } else if i == 1 {
        (3, 4)
    } else if i == 2 {
        (2, 4)
    } else if i == 3 {
        (6, 8)
    } else if i == 4 {
        (5, 4)
    } else if i == 5 {
        (7, 8)
    } else if i == 6 {
        (9, 8)
    } else {
        (12, 8)
    }
}

/// How many presets there are.
pub const TS_PRESET_COUNT: usize = 8;

/// The place of `num/den` among the presets, or 0 when it is none of them.
pub open spec fn spec_preset_index(num: u8, den: u8) -> int {
    if spec_ts_preset(0) == (num, den) {
        0
    } else if spec_ts_preset(1) == (num, den) {
        1
    } else if spec_ts_preset(2) == (num, den) {
        2
    } else if spec_ts_preset(3) == (num, den) {
        3
    } else if spec_ts_preset(4) == (num, den) {
        4
    } else if spec_ts_preset(5) == (num, den) {
        5
    } else if spec_ts_preset(6) == (num, den) {
        6
    } else if spec_ts_preset(7) == (num, den) {
        7
    } else {
        0
    }
}

/// The preset at place `i`.
pub fn ts_preset(i: usize) -> (r: (u8, u8))
    requires
        i < TS_PRESET_COUNT,
    ensures
        r == spec_ts_preset(i as int),
{
    match i {
        0 => (4, 4),
        1 => (3, 4),
        2 => (2, 4),
        3 => (6, 8),
        4 => (5, 4),
        5 => (7, 8),
        6 => (9, 8),
        _ => (12, 8),
    }
}

/// The place of `num/den` among the presets, or 0 when it is none of them.
pub fn preset_index(num: u8, den: u8) -> (r: usize)
    ensures
        r == spec_preset_index(num, den),
        r < TS_PRESET_COUNT,
{
    let mut i: usize = 0;
    while i < TS_PRESET_COUNT
        invariant
            i <= TS_PRESET_COUNT,
            forall|j: int| 0 <= j < i ==> spec_ts_preset(j) != (num, den),
        decreases TS_PRESET_COUNT - i,
    {
        let (n, d) = ts_preset(i);
        if n == num && d == den {
            return i;
        }
        i = i + 1;
    }
    0
}

/// The digit that `c` stands for, at most `max`; 0 for any other character.
pub open spec fn spec_char_to_digit(c: char, max: u8) -> u8 {
    let d: int = if '0' <= c <= '9' {
        c as int - '0' as int
    } else {
        0
    };
    if d <= max {
        d as u8
    } else {
        max
    }
}

/// Converts a digit character to its value, clamped to `max`.
pub fn char_to_digit(c: char, max: u8) -> (r: u8)
    ensures
        r == spec_char_to_digit(c, max),
{
    let d: u8 = if '0' <= c && c <= '9' {
        (c as u32 - '0' as u32) as u8
    } else {
        0
    };
    if d <= max {
        d
    } else {
        max
    }
}

/// The denominator after `den` in the cycle 4, 8, 16; anything else goes to 4.
pub open spec fn spec_next_den(den: u8) -> u8 {
    if den == 4 {
        8
    } else if den == 8 {
        16
    } else {
        4
    }
}

/// `v` clamped to the tempo range.
pub open spec fn clamp_bpm(v: int) -> u32 {
    if v < BPM_MIN {
        BPM_MIN
    } else if v > BPM_MAX {
        BPM_MAX
    } else {
        v as u32
    }
}

/// One volume step down, not below zero.
pub open spec fn spec_volume_down(v: u8) -> u8 {
    if v >= VOLUME_STEP {
        (v - VOLUME_STEP) as u8
    } else {
        0
    }
}

/// One volume step up, not above 100%.
pub open spec fn spec_volume_up(v: u8) -> u8 {
    if v + VOLUME_STEP <= 100 {
        (v + VOLUME_STEP) as u8
    } else {
        100
    }
}

/// Everything the metronome holds.
pub ghost struct AppView {
    pub bpm: u32,
    pub running: bool,
    pub beat: u8,
    pub ts_num: u8,
    pub ts_den: u8,
    pub flash: u8,
    pub volume: u8,
    pub swing: Swing,
    pub sound: SoundType,
    pub taps: Seq<u64>,
    pub pulse: PulseView,
    pub next_beat: u64,
}

/// The invariant: the tempo in range, the beat inside the measure, a known
/// denominator, the volume a whole step in 0..=100%, a flash no longer than
/// `FLASH_FRAMES`, the taps and rings within their limits, and the next
/// beat due no later than one longest gap after `CLOCK_MAX`.
pub open spec fn app_wf(m: AppView) -> bool {
    &&& BPM_MIN <= m.bpm <= BPM_MAX
    &&& 1 <= m.ts_num <= 12
    &&& m.beat < m.ts_num
    &&& (m.ts_den == 4 || m.ts_den == 8 || m.ts_den == 16)
    &&& m.volume <= 100
    &&& m.volume % VOLUME_STEP == 0
    &&& m.flash <= FLASH_FRAMES
    &&& taps_wf(m.taps)
    &&& pulse_wf(m.pulse)
    &&& m.next_beat <= CLOCK_MAX + MAX_BEAT_NANOS
}

/// The next beat is due one gap after `now`, the gap taken at the current beat.
pub open spec fn spec_reschedule(m: AppView, now: u64) -> AppView {
    AppView { next_beat: (now + spec_next_beat_duration(m.bpm, m.swing, m.beat)) as u64, ..m }
}

/// Starting: the first (accented) beat sounds now, flashes and spawns a
/// ring; the next is due one gap later, the gap after an on-beat.
pub open spec fn spec_start(m: AppView, now: u64) -> AppView {
    AppView {
        running: true,
        beat: 0,
        flash: FLASH_FRAMES,
        pulse: spec_trigger(m.pulse, true, now),
        next_beat: (now + spec_next_beat_duration(m.bpm, m.swing, 0)) as u64,
        ..m
    }
}

/// The tempo moved by `delta` within the range; when it changed while
/// running, the next beat is rescheduled from `now`.
pub open spec fn spec_adjust_bpm(m: AppView, delta: i32, now: u64) -> AppView {
    let new = clamp_bpm(m.bpm + delta);
    if new != m.bpm {
        let m2 = AppView { bpm: new, ..m };
        if m.running {
            spec_reschedule(m2, now)
        } else {
            m2
        }
    } else {
        m
    }
}

/// The signature set to `num/den`; a beat beyond the new measure restarts at 0.
pub open spec fn spec_set_signature(m: AppView, num: u8, den: u8) -> AppView {
    AppView { ts_num: num, ts_den: den, beat: if m.beat >= num { 0 } else { m.beat }, ..m }
}

/// The next (or previous) preset after the current signature; a signature
/// that is no preset counts as the first.
#[verifier::opaque]
pub open spec fn spec_cycle_ts_preset(m: AppView, forward: bool) -> AppView {
    let idx = spec_preset_index(m.ts_num, m.ts_den);
    let next = if forward {
        (idx + 1) % (TS_PRESET_COUNT as int)
    } else {
        (idx + TS_PRESET_COUNT - 1) % (TS_PRESET_COUNT as int)
    };
    let (n, d) = spec_ts_preset(next);
    spec_set_signature(m, n, d)
}

/// A tap at `now`: the tempo the taps give is taken when it is in range,
/// and then, while running, the next beat is rescheduled from `now`.
pub open spec fn spec_tap_tempo(m: AppView, now: u64) -> AppView {
    let taps = spec_tap(m.taps, now);
    let m1 = AppView { taps, ..m };
    match spec_estimate_bpm(taps) {
        Some(b) => if BPM_MIN <= b <= BPM_MAX {
            let m2 = AppView { bpm: b, ..m1 };
            if m.running {
                spec_reschedule(m2, now)
            } else {
                m2
            }
        } else {
            m1
        },
        None => m1,
    }
}

/// No effect, no quitting, no click.
pub open spec fn no_outcome() -> KeyOutcome {
    KeyOutcome { quit: false, click: None }
}

/// What key `key` pressed at `now` does to `m`, and what is to be done.
pub open spec fn spec_handle_key(m: AppView, key: Key, now: u64) -> (AppView, KeyOutcome) {
    match key {
        Key::Esc => (m, KeyOutcome { quit: true, click: None }),
        Key::Up => (spec_adjust_bpm(m, 1, now), no_outcome()),
        Key::Down => (spec_adjust_bpm(m, -1i32, now), no_outcome()),
        Key::PageUp => (spec_adjust_bpm(m, 10, now), no_outcome()),
        Key::PageDown => (spec_adjust_bpm(m, -10i32, now), no_outcome()),
        Key::Tab => (spec_cycle_ts_preset(m, true), no_outcome()),
        Key::BackTab => (spec_cycle_ts_preset(m, false), no_outcome()),
        Key::Other => (m, no_outcome()),
        Key::Char(c) => if c == 'q' {
            (m, KeyOutcome { quit: true, click: None })
        } else if c == ' ' {
            if m.running {
                (AppView { running: false, ..m }, no_outcome())
            } else {
                (
                    spec_start(m, now),
                    KeyOutcome { quit: false, click: Some(spec_click(m.sound, true, m.volume)) },
                )
            }
        } else if c == '+' {
            (spec_adjust_bpm(m, 1, now), no_outcome())
        } else if c == '-' {
            (spec_adjust_bpm(m, -1i32, now), no_outcome())
        } else if c == '[' {
            (AppView { volume: spec_volume_down(m.volume), ..m }, no_outcome())
        } else if c == ']' {
            (AppView { volume: spec_volume_up(m.volume), ..m }, no_outcome())
        } else if '1' <= c <= '9' {
            (spec_set_signature(m, spec_char_to_digit(c, 9), m.ts_den), no_outcome())
        } else if c == 'd' {
            (AppView { ts_den: spec_next_den(m.ts_den), ..m }, no_outcome())
        } else if c == 't' {
            (spec_tap_tempo(m, now), no_outcome())
        } else if c == 'w' {
            let m2 = AppView { swing: spec_next_swing(m.swing), ..m };
            (if m.running { spec_reschedule(m2, now) } else { m2 }, no_outcome())
        } else if c == 'n' {
            (AppView { sound: spec_next_sound(m.sound), ..m }, no_outcome())
        } else if c == 'p' {
            (AppView { pulse: spec_toggle(m.pulse), ..m }, no_outcome())
        } else {
            (m, no_outcome())
        },
    }
}

/// The beat and its due time after `k` catch-up steps from `m`: each step
/// moves to the next beat of the measure and adds the gap taken at it.
pub open spec fn spec_advance(m: AppView, k: nat) -> (u8, int)
    decreases k,
{
    if k == 0 {
        (m.beat, m.next_beat as int)
    } else {
        let prev = spec_advance(m, (k - 1) as nat);
        let b = ((prev.0 + 1) % (m.ts_num as int)) as u8;
        (b, prev.1 + spec_next_beat_duration(m.bpm, m.swing, b))
    }
}

/// `k` steps bring the due time past `now`, and no fewer do.
pub open spec fn caught_up(m: AppView, now: u64, k: nat) -> bool {
    &&& spec_advance(m, k).1 > now
    &&& forall|j: nat| j < k ==> #[trigger] spec_advance(m, j).1 <= now
}

/// How many beats fell due by `now`.
pub open spec fn spec_missed(m: AppView, now: u64) -> nat {
    choose|k: nat| caught_up(m, now, k)
}

/// A frame at `now`: while running, every beat that fell due is counted
/// off, but only the last one sounds, flashes and spawns a ring (accented
/// on the first beat of the measure). When more than two fell due (say
/// after a suspend), the next beat is scheduled one gap after `now`.
pub open spec fn spec_tick_beats(m: AppView, now: u64) -> (AppView, Option<Click>) {
    let k = spec_missed(m, now);
    if !m.running || k == 0 {
        (m, None)
    } else {
        let (b, t) = spec_advance(m, k);
        let accent = b == 0;
        let next = if k > 2 {
            now + spec_next_beat_duration(m.bpm, m.swing, b)
        } else {
            t
        };
        (
            AppView {
                beat: b,
                next_beat: next as u64,
                flash: FLASH_FRAMES,
                pulse: spec_trigger(m.pulse, accent, now),
                ..m
            },
            Some(spec_click(m.sound, accent, m.volume)),
        )
    }
}

/// At most one `k` brings the due time past `now` first.
pub proof fn lemma_caught_up_unique(m: AppView, now: u64, k1: nat, k2: nat)
    requires
        caught_up(m, now, k1),
        caught_up(m, now, k2),
    ensures
        k1 == k2,
{
    if k1 < k2 {
        assert(spec_advance(m, k1).1 <= now);
    } else if k2 < k1 {
        assert(spec_advance(m, k2).1 <= now);
    }
}

/// All mutable state for the metronome.
pub struct App {
    /// Tempo in beats per minute.
    bpm: u32,
    running: bool,
    /// The current beat of the measure, from 0.
    beat: u8,
    /// Time signature numerator (beats per measure).
    ts_num: u8,
    /// Time signature denominator.
    ts_den: u8,
    /// Frames left of the beat flash.
    flash: u8,
    /// Volume in percent.
    volume: u8,
    swing: Swing,
    sound: SoundType,
    tap: TapTempo,
    pulse: PulseField,
    /// When the next beat is due.
    next_beat: u64,
}

impl View for App {
    type V = AppView;

    closed spec fn view(&self) -> AppView {
        AppView {
            bpm: self.bpm,
            running: self.running,
            beat: self.beat,
            ts_num: self.ts_num,
            ts_den: self.ts_den,
            flash: self.flash,
            volume: self.volume,
            swing: self.swing,
            sound: self.sound,
            taps: self.tap@,
            pulse: self.pulse@,
            next_beat: self.next_beat,
        }
    }
}

impl App {
    /// Whether the state keeps its invariant.
    pub open spec fn wf(&self) -> bool {
        app_wf(self@)
    }

    /// Tempo in beats per minute.
    pub fn bpm(&self) -> (r: u32)
        ensures
            r == self@.bpm,
    {
        self.bpm
    }

    /// Whether the beat is running.
    pub fn running(&self) -> (r: bool)
        ensures
            r == self@.running,
    {
        self.running
    }

    /// The current beat of the measure, from 0.
    pub fn beat(&self) -> (r: u8)
        ensures
            r == self@.beat,
    {
        self.beat
    }

    /// Time signature numerator (beats per measure).
    pub fn ts_num(&self) -> (r: u8)
        ensures
            r == self@.ts_num,
    {
        self.ts_num
    }

    /// Time signature denominator.
    pub fn ts_den(&self) -> (r: u8)
        ensures
            r == self@.ts_den,
    {
        self.ts_den
    }

    /// Frames left of the beat flash.
    pub fn flash(&self) -> (r: u8)
        ensures
            r == self@.flash,
    {
        self.flash
    }

    /// Volume in percent.
    pub fn volume(&self) -> (r: u8)
        ensures
            r == self@.volume,
    {
        self.volume
    }

    /// The swing setting.
    pub fn swing(&self) -> (r: Swing)
        ensures
            r == self@.swing,
    {
        self.swing
    }

    /// The click sound.
    pub fn sound(&self) -> (r: SoundType)
        ensures
            r == self@.sound,
    {
        self.sound
    }

    /// The tap-tempo taps.
    pub fn tap(&self) -> (r: &TapTempo)
        ensures
            r@ == self@.taps,
    {
        &self.tap
    }

    /// The pulse effect.
    pub fn pulse(&self) -> (r: &PulseField)
        ensures
            r@ == self@.pulse,
    {
        &self.pulse
    }

    /// When the next beat is due.
    pub fn next_beat(&self) -> (r: u64)
        ensures
            r == self@.next_beat,
    {
        self.next_beat
    }

    /// A frame of the pulse effect at `now`: its clock advances and the
    /// rings that have lived out their lifetime go.
    pub fn tick_pulse(&mut self, now: u64)
        requires
            old(self).wf(),
        ensures
            final(self).wf(),
            final(self)@ == (AppView { pulse: spec_tick(old(self)@.pulse, now), ..old(self)@ }),
    {
        self.pulse.tick(now);
    }

    /// Stopped at 120 BPM in 4/4, volume 50%, no swing, the click sound,
    /// no taps and the pulse effect off.
    pub fn new(now: u64) -> (app: Self)
        requires
            now <= CLOCK_MAX,
        ensures
            app.wf(),
            app@ == (AppView {
                bpm: DEFAULT_BPM,
                running: false,
                beat: 0,
                ts_num: 4,
                ts_den: 4,
                flash: 0,
                volume: DEFAULT_VOLUME,
                swing: Swing::Straight,
                sound: SoundType::Click,
                taps: Seq::empty(),
                pulse: PulseView { waves: Seq::empty(), enabled: false, elapsed: 0, last_frame: now },
                next_beat: now,
            }),
    {
        App {
            bpm: DEFAULT_BPM,
            running: false,
            beat: 0,
            ts_num: 4,
            ts_den: 4,
            flash: 0,
            volume: DEFAULT_VOLUME,
            swing: Swing::Straight,
            sound: SoundType::Click,
            tap: TapTempo::new(),
            pulse: PulseField::new(now),
            next_beat: now,
        }
    }

    /// Starts the beat now and returns the click to play for it.
    pub fn start(&mut self, now: u64) -> (c: Click)
        requires
            old(self).wf(),
            now <= CLOCK_MAX,
        ensures
            final(self).wf(),
            final(self)@ == spec_start(old(self)@, now),
            c == spec_click(old(self)@.sound, true, old(self)@.volume),
    {
        self.running = true;
        self.beat = 0;
        self.next_beat = now;
        let c = click_for(self.sound, true, self.volume);
        self.flash = FLASH_FRAMES;
        self.pulse.trigger(true, now);
        proof {
            lemma_beat_duration_bounds(self.bpm, self.swing, 0);
        }
        self.next_beat = self.next_beat + next_beat_duration(self.bpm, self.swing, 0);
        c
    }

    /// Reschedules the next beat relative to `now` (after a tempo or swing
    /// change while running).
    pub fn reschedule(&mut self, now: u64)
        requires
            old(self).wf(),
            now <= CLOCK_MAX,
        ensures
            final(self).wf(),
            final(self)@ == spec_reschedule(old(self)@, now),
    {
        proof {
            lemma_beat_duration_bounds(self.bpm, self.swing, self.beat);
        }
        self.next_beat = now + next_beat_duration(self.bpm, self.swing, self.beat);
    }

    /// Moves the tempo by `delta`, within the range.
    pub fn adjust_bpm(&mut self, delta: i32, now: u64)
        requires
            old(self).wf(),
            now <= CLOCK_MAX,
        ensures
            final(self).wf(),
            final(self)@ == spec_adjust_bpm(old(self)@, delta, now),
    {
        let v: i64 = self.bpm as i64 + delta as i64;
        let new: u32 = if v < BPM_MIN as i64 {
            BPM_MIN
        } else if v > BPM_MAX as i64 {
            BPM_MAX
        } else {
            v as u32
        };
        if new != self.bpm {
            self.bpm = new;
            if self.running {
                self.reschedule(now);
            }
        }
    }

    /// Sets the time signature, restarting the measure when the beat
    /// falls outside it.
    fn set_signature(&mut self, num: u8, den: u8)
        requires
            old(self).wf(),
            1 <= num <= 12,
            den == 4 || den == 8 || den == 16,
        ensures
            final(self).wf(),
            final(self)@ == spec_set_signature(old(self)@, num, den),
    {
        self.ts_num = num;
        self.ts_den = den;
        if self.beat >= self.ts_num {
            self.beat = 0;
        }
    }

    /// Cycles through the time signature presets, forward or backward.
    pub fn cycle_ts_preset(&mut self, forward: bool)
        requires
            old(self).wf(),
        ensures
            final(self).wf(),
            final(self)@ == spec_cycle_ts_preset(old(self)@, forward),
    {
        let idx = preset_index(self.ts_num, self.ts_den);
        let len = TS_PRESET_COUNT;
        let next_idx = if forward {
            (idx + 1) % len
        } else {
            (idx + len - 1) % len
        };
        let (n, d) = ts_preset(next_idx);
        self.set_signature(n, d);
        proof {
            reveal(spec_cycle_ts_preset);
        }
    }

    /// Cycles the denominator 4, 8, 16.
    pub fn cycle_ts_den(&mut self)
        requires
            old(self).wf(),
        ensures
            final(self).wf(),
            final(self)@ == (AppView { ts_den: spec_next_den(old(self)@.ts_den), ..old(self)@ }),
    {
        self.ts_den = if self.ts_den == 4 {
            8
        } else if self.ts_den == 8 {
            16
        } else {
            4
        };
    }

    /// One step of the flash's decay.
    pub fn tick_flash(&mut self)
        requires
            old(self).wf(),
        ensures
            final(self).wf(),
            final(self)@ == (AppView {
                flash: if old(self)@.flash > 0 { (old(self)@.flash - 1) as u8 } else { 0 },
                ..old(self)@
            }),
    {
        self.flash = self.flash.saturating_sub(1);
    }
    /// Records a tap at `now`; a tempo in range from the taps becomes the
    /// tempo, rescheduling the next beat while running.
    pub fn tap_tempo(&mut self, now: u64)
        requires
            old(self).wf(),
            now <= CLOCK_MAX,
        ensures
            final(self).wf(),
            final(self)@ == spec_tap_tempo(old(self)@, now),
    {
        if let Some(tap_bpm) = self.tap.tap(now) {
            if BPM_MIN <= tap_bpm && tap_bpm <= BPM_MAX {
                self.bpm = tap_bpm;
                if self.running {
                    self.reschedule(now);
                }
            }
        }
    }

    /// Processes a single key pressed at `now`. The outcome says whether
    /// to quit and which click, if any, to play.
    pub fn handle_key(&mut self, key: Key, now: u64) -> (out: KeyOutcome)
        requires
            old(self).wf(),
            now <= CLOCK_MAX,
        ensures
            final(self).wf(),
            (final(self)@, out) == spec_handle_key(old(self)@, key, now),
    {
        let none = KeyOutcome { quit: false, click: None };
        match key {
            Key::Esc => KeyOutcome { quit: true, click: None },
            Key::Up => {
                self.adjust_bpm(1, now);
                none
            },
            Key::Down => {
                self.adjust_bpm(-1, now);
                none
            },
            Key::PageUp => {
                self.adjust_bpm(10, now);
                none
            },
            Key::PageDown => {
                self.adjust_bpm(-10, now);
                none
            },
            Key::Tab => {
                self.cycle_ts_preset(true);
                none
            },
            Key::BackTab => {
                self.cycle_ts_preset(false);
                none
            },
            Key::Other => none,
            Key::Char(c) => {
                if c == 'q' {
                    KeyOutcome { quit: true, click: None }
                } else if c == ' ' {
                    self.running = !self.running;
                    if self.running {
                        let click = self.start(now);
                        KeyOutcome { quit: false, click: Some(click) }
                    } else {
                        none
                    }
                } else if c == '+' {
                    self.adjust_bpm(1, now);
                    none
                } else if c == '-' {
                    self.adjust_bpm(-1, now);
                    none
                } else if c == '[' {
                    self.volume = if self.volume >= VOLUME_STEP {
                        self.volume - VOLUME_STEP
                    } else {
                        0
                    };
                    none
                } else if c == ']' {
                    self.volume = if self.volume + VOLUME_STEP <= 100 {
                        self.volume + VOLUME_STEP
                    } else {
                        100
                    };
                    none
                } else if '1' <= c && c <= '9' {
                    let num = char_to_digit(c, 9);
                    let den = self.ts_den;
                    self.set_signature(num, den);
                    none
                } else if c == 'd' {
                    self.cycle_ts_den();
                    none
                } else if c == 't' {
                    self.tap_tempo(now);
                    none
                } else if c == 'w' {
                    self.swing = next_swing(self.swing);
                    if self.running {
                        self.reschedule(now);
                    }
                    none
                } else if c == 'n' {
                    self.sound = self.sound.next();
                    none
                } else if c == 'p' {
                    self.pulse.toggle();
                    none
                } else {
                    none
                }
            },
        }
    }
    /// Processes beat scheduling for the frame at `now`. Only the most
    /// recent missed beat is played: the returned click, if any.
    pub fn tick_beats(&mut self, now: u64) -> (r: Option<Click>)
        requires
            old(self).wf(),
            now <= CLOCK_MAX,
        ensures
            final(self).wf(),
            old(self)@.running ==> caught_up(old(self)@, now, spec_missed(old(self)@, now)),
            (final(self)@, r) == spec_tick_beats(old(self)@, now),
    {
        if !self.running {
            return None;
        }
        let ghost m = self@;
        let ghost mut k: nat = 0;
        let mut beat = self.beat;
        let mut next = self.next_beat;
        // Beats counted so far, capped at 3: all that matters is whether
        // none, one or two, or more than two fell due.
        let mut missed: u8 = 0;
        while now >= next
            invariant
                app_wf(m),
                self@ == m,
                beat == spec_advance(m, k).0,
                next == spec_advance(m, k).1,
                beat < m.ts_num,
                next <= CLOCK_MAX + MAX_BEAT_NANOS,
                forall|j: nat| j < k ==> #[trigger] spec_advance(m, j).1 <= now,
                missed == if k < 3 { k } else { 3 },
                now <= CLOCK_MAX,
            decreases
                if next <= now {
                    now - next + 1
                } else {
                    0
                },
        {
            proof {
                assert forall|j: nat| j < k + 1 implies #[trigger] spec_advance(m, j).1 <= now by {
                    if j == k {
                        assert(spec_advance(m, k).1 == next);
                    }
                }
            }
            beat = (beat + 1) % self.ts_num;
            proof {
                lemma_beat_duration_bounds(self.bpm, self.swing, beat);
            }
            next = next + next_beat_duration(self.bpm, self.swing, beat);
            proof {
                k = k + 1;
            }
            if missed < 3 {
                missed = missed + 1;
            }
        }
        proof {
            assert(caught_up(m, now, k));
            lemma_caught_up_unique(m, now, k, spec_missed(m, now));
        }
        if missed > 0 {
            self.beat = beat;
            self.next_beat = next;
            let accent = self.beat == 0;
            let click = click_for(self.sound, accent, self.volume);
            self.flash = FLASH_FRAMES;
            self.pulse.trigger(accent, now);
            if missed > 2 {
                proof {
                    lemma_beat_duration_bounds(self.bpm, self.swing, self.beat);
                }
                self.next_beat = now + next_beat_duration(self.bpm, self.swing, self.beat);
            }
            Some(click)
        } else {
            None
        }
    }
}

} // verus!
