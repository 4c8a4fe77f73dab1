//! What the screen shows of the state: the beat dots, the tempo's colour
//! and the tap-tempo indicator.

use vstd::prelude::*;
use crate::metronome::{App, AppView};
use crate::sound::spec_sound_label;
use crate::swing::{Swing, swing_label, spec_swing_label};
use crate::tap::spec_estimate_bpm;

verus! {

/// The colour of a beat dot.
#[derive(Clone, Copy, Debug, PartialEq, Eq, Structural)]
pub enum BeatTone {
    /// The first beat of the measure, sounding now: bold yellow.
    AccentFlash,
    /// Another beat, sounding now: bold cyan.
    Flash,
    /// The first beat of the measure, silent: gray.
    Accent,
    /// Any other dot: dark gray.
    Dim,
}

/// One beat dot: filled while its beat flashes, hollow otherwise.
#[derive(Clone, Copy, Debug, PartialEq, Eq, Structural)]
pub struct BeatMark {
    pub filled: bool,
    pub tone: BeatTone,
}

/// The dot for beat `beat_idx` when `current_beat` is the beat of the
/// measure and `flash_active` says whether the flash is on.
pub open spec fn spec_beat_span(beat_idx: u8, current_beat: u8, flash_active: bool) -> BeatMark {
    let accent = beat_idx == 0;
    let is_current = beat_idx == current_beat;
    BeatMark {
        filled: is_current && flash_active,
        tone: if is_current && flash_active {
            if accent {
                BeatTone::AccentFlash
            } else {
                BeatTone::Flash
            }
        } else if !is_current && accent {
            BeatTone::Accent
        } else {
            BeatTone::Dim
        },
    }
}

/// The dot shown for one beat.
pub fn beat_span(beat_idx: u8, current_beat: u8, flash_active: bool) -> (r: BeatMark)
    ensures
        r == spec_beat_span(beat_idx, current_beat, flash_active),
{
    let accent = beat_idx == 0;
    let is_current = beat_idx == current_beat;
    let tone = match (is_current, flash_active, accent) {
        (true, true, true) => BeatTone::AccentFlash,
        (true, true, false) => BeatTone::Flash,
        (true, false, _) | (false, _, false) => BeatTone::Dim,
        (false, _, true) => BeatTone::Accent,
    };
    BeatMark { filled: is_current && flash_active, tone }
}

/// The colour of the tempo.
#[derive(Clone, Copy, Debug, PartialEq, Eq, Structural)]
pub enum BpmTone {
    /// A beat is flashing: bold cyan.
    Flash,
    /// Running: white.
    Running,
    /// Stopped: gray.
    Stopped,
}

/// The tap indicator: the number of taps and the tempo they give, once
/// there are two taps or more and they give one.
pub open spec fn spec_tap_indicator(m: AppView) -> Option<(usize, u32)> {
    if m.taps.len() >= 2 {
        match spec_estimate_bpm(m.taps) {
            Some(b) => Some((m.taps.len() as usize, b)),
            None => None,
        }
    } else {
        None
    }
}

/// What the status bar shows.
#[derive(Clone, Copy, Debug)]
pub struct StatusLine {
    pub running: bool,
    /// "▶" while running, "■" when stopped.
    pub icon: &'static str,
    /// "RUNNING" or "STOPPED".
    pub state: &'static str,
    /// The current beat, counted from 1.
    pub beat_number: u8,
    /// Beats per measure.
    pub beats: u8,
    pub bpm: u32,
    /// Volume in percent.
    pub volume: u8,
    /// The swing's name, highlighted when there is any swing.
    pub swing: &'static str,
    pub swing_highlight: bool,
    /// The click sound's name.
    pub sound: &'static str,
    /// "on" or "off", for the pulse effect.
    pub pulse: &'static str,
    pub pulse_on: bool,
    /// The tap indicator, if shown.
    pub tap: Option<(usize, u32)>,
}

impl App {
    /// One dot per beat of the measure.
    pub fn beat_marks(&self) -> (r: Vec<BeatMark>)
        requires
            self.wf(),
        ensures
            r@.len() == self@.ts_num,
            forall|i: int|
                0 <= i < r@.len() ==> #[trigger] r@[i] == spec_beat_span(
                    i as u8,
                    self@.beat,
                    self@.flash > 0,
                ),
    {
        let flash_active = self.flash() > 0;
        let ts_num = self.ts_num();
        let beat = self.beat();
        let mut marks: Vec<BeatMark> = Vec::new();
        let mut i: u8 = 0;
        while i < ts_num
            invariant
                i <= ts_num,
                ts_num == self@.ts_num,
                beat == self@.beat,
                flash_active == (self@.flash > 0),
                marks@.len() == i,
                forall|j: int|
                    0 <= j < i ==> #[trigger] marks@[j] == spec_beat_span(
                        j as u8,
                        beat,
                        flash_active,
                    ),
            decreases ts_num - i,
        {
            marks.push(beat_span(i, beat, flash_active));
            i = i + 1;
        }
        marks
    }

    /// The colour of the tempo: flashing while a beat flashes on a running
    /// metronome, else by whether it runs.
    pub fn bpm_tone(&self) -> (r: BpmTone)
        ensures
            r == if self@.flash > 0 && self@.running {
                BpmTone::Flash
            } else if self@.running {
                BpmTone::Running
            } else {
                BpmTone::Stopped
            },
    {
        if self.flash() > 0 && self.running() {
            BpmTone::Flash
        } else if self.running() {
            BpmTone::Running
        } else {
            BpmTone::Stopped
        }
    }

    /// The tap indicator: the number of taps and the tempo they give, once
    /// there are two taps or more and they give one.
    pub fn tap_indicator(&self) -> (r: Option<(usize, u32)>)
        requires
            self.wf(),
        ensures
            r == spec_tap_indicator(self@),
    {
        let tap = self.tap();
        if tap.count() >= 2 {
            if let Some(tap_bpm) = tap.estimate_bpm() {
                return Some((tap.count(), tap_bpm));
            }
        }
        None
    }

    /// What the status bar shows of the state.
    pub fn status_line(&self) -> (r: StatusLine)
        requires
            self.wf(),
        ensures
            r.running == self@.running,
            r.icon@ == (if self@.running { "▶"@ } else { "■"@ }),
            r.state@ == (if self@.running { "RUNNING"@ } else { "STOPPED"@ }),
            r.beat_number == self@.beat + 1,
            r.beats == self@.ts_num,
            r.bpm == self@.bpm,
            r.volume == self@.volume,
            r.swing@ == spec_swing_label(self@.swing),
            r.swing_highlight == (self@.swing != Swing::Straight),
            r.sound@ == spec_sound_label(self@.sound),
            r.pulse@ == (if self@.pulse.enabled { "on"@ } else { "off"@ }),
            r.pulse_on == self@.pulse.enabled,
            r.tap == spec_tap_indicator(self@),
    {
        let running = self.running();
        let swing = self.swing();
        let pulse_on = self.pulse().enabled();
        StatusLine {
            running,
            icon: if running { "▶" } else { "■" },
            state: if running { "RUNNING" } else { "STOPPED" },
            beat_number: self.beat() + 1,
            beats: self.ts_num(),
            bpm: self.bpm(),
            volume: self.volume(),
            swing: swing_label(swing),
            swing_highlight: swing != Swing::Straight,
            sound: self.sound().label(),
            pulse: if pulse_on { "on" } else { "off" },
            pulse_on,
            tap: self.tap_indicator(),
        }
    }
}

} // verus!
