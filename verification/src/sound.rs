//! Click sounds: the five timbres and the tone a click is played with.

use vstd::prelude::*;

verus! {

/// The timbre of the click.
#[derive(Clone, Copy, Debug, PartialEq, Eq, Structural)]
pub enum SoundType {
    Click,
    Wood,
    Cowbell,
    Sidestick,
    Beep,
}

/// Length of every click, in milliseconds.
pub const CLICK_MILLIS: u64 = 35;

/// Loudness of an accented click before the volume is applied, in percent.
pub const ACCENT_LEVEL: u32 = 70;

/// Loudness of a weak click before the volume is applied, in percent.
pub const WEAK_LEVEL: u32 = 50;

/// The sound after `s` in the cycle click, wood, cowbell, sidestick, beep.
pub open spec fn spec_next_sound(s: SoundType) -> SoundType {
    match s {
        SoundType::Click => SoundType::Wood,
        SoundType::Wood => SoundType::Cowbell,
        SoundType::Cowbell => SoundType::Sidestick,
        SoundType::Sidestick => SoundType::Beep,
        SoundType::Beep => SoundType::Click,
    }
}

/// `(accent_freq, weak_freq)` of `s`, in hertz.
pub open spec fn spec_freqs(s: SoundType) -> (u32, u32) {
    match s {
        SoundType::Click => (1760, 1320),
        SoundType::Wood => (1500, 900),
        SoundType::Cowbell => (2000, 1200),
        SoundType::Sidestick => (1200, 800),
        SoundType::Beep => (880, 660),
    }
}

/// The name shown for `s`.
pub open spec fn spec_sound_label(s: SoundType) -> Seq<char> {
    match s {
        SoundType::Click => "click"@,
        SoundType::Wood => "wood"@,
        SoundType::Cowbell => "cowbell"@,
        SoundType::Sidestick => "sidestick"@,
        SoundType::Beep => "beep"@,
    }
}

impl SoundType {
    /// The next sound in the cycle.
    pub fn next(self) -> (r: Self)
        ensures
            r == spec_next_sound(self),
    {
        match self {
            SoundType::Click => SoundType::Wood,
            SoundType::Wood => SoundType::Cowbell,
            SoundType::Cowbell => SoundType::Sidestick,
            SoundType::Sidestick => SoundType::Beep,
            SoundType::Beep => SoundType::Click,
        }
    }

    /// `(accent_freq, weak_freq)` in hertz.
    pub fn freqs(self) -> (r: (u32, u32))
        ensures
            r == spec_freqs(self),
    {
        match self {
            SoundType::Click => (1760, 1320),
            SoundType::Wood => (1500, 900),
            SoundType::Cowbell => (2000, 1200),
            SoundType::Sidestick => (1200, 800),
            SoundType::Beep => (880, 660),
        }
    }

    /// The name shown in the status bar.
    pub fn label(self) -> (r: &'static str)
        ensures
            r@ == spec_sound_label(self),
    {
        match self {
            SoundType::Click => "click",
            SoundType::Wood => "wood",
            SoundType::Cowbell => "cowbell",
            SoundType::Sidestick => "sidestick",
            SoundType::Beep => "beep",
        }
    }
}

/// One click to play: a sine tone of `freq_hz` for `millis` milliseconds,
/// amplified by `gain / 10000`.
#[derive(Clone, Copy, Debug, PartialEq, Eq, Structural)]
pub struct Click {
    pub accent: bool,
    pub freq_hz: u32,
    pub gain: u32,
    pub millis: u64,
}

/// The click played for a beat: the accent tone of `sound` on an accented
/// beat, the weak tone otherwise; its gain is the base level (70% or 50%)
/// times the volume, both in percent, so in ten-thousandths.
pub open spec fn spec_click(sound: SoundType, accent: bool, volume: u8) -> Click {
    Click {
        accent,
        freq_hz: if accent { spec_freqs(sound).0 } else { spec_freqs(sound).1 },
        gain: ((if accent { ACCENT_LEVEL } else { WEAK_LEVEL }) * volume) as u32,
        millis: CLICK_MILLIS,
    }
}

/// The click played for a beat at the given volume (in percent).
pub fn click_for(sound: SoundType, accent: bool, volume: u8) -> (c: Click)
    ensures
        c == spec_click(sound, accent, volume),
{
    let (accent_freq, weak_freq) = sound.freqs();
    let freq_hz = if accent { accent_freq } else { weak_freq };
    let level = if accent { ACCENT_LEVEL } else { WEAK_LEVEL };
    Click { accent, freq_hz, gain: level * (volume as u32), millis: CLICK_MILLIS }
}

} // verus!
