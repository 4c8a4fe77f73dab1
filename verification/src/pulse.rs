//! The pulse effect's bookkeeping: which rings are alive, and the clock
//! that drives the slow breathing of the whole screen.

use vstd::prelude::*;
use crate::tap::elapsed;

verus! {

/// At most this many rings are active at once.
pub const PULSE_MAX_WAVES: usize = 4;

/// A ring lives this long (2 s), expanding and fading.
pub const PULSE_LIFETIME_NANOS: u64 = 2_000_000_000;

/// One expanding ring from the centre of the screen.
#[derive(Clone, Copy, Debug, PartialEq, Eq, Structural)]
pub struct PulseWave {
    /// When it was spawned.
    pub born: u64,
    /// Warm colour for an accent beat, cool otherwise.
    pub accent: bool,
}

/// What a `PulseField` holds.
pub ghost struct PulseView {
    pub waves: Seq<PulseWave>,
    pub enabled: bool,
    /// Animation clock: the time that has passed between frames.
    pub elapsed: u64,
    pub last_frame: u64,
}

/// Whether `w` is still alive at `now`.
pub open spec fn wave_alive(w: PulseWave, now: u64) -> bool {
    elapsed(w.born, now) < PULSE_LIFETIME_NANOS
}

/// The rings of `waves` that are alive at `now`, in their order.
pub open spec fn live_waves(waves: Seq<PulseWave>, now: u64) -> Seq<PulseWave>
    decreases waves.len(),
{
    if waves.len() == 0 {
        waves
    } else {
        let rest = live_waves(waves.drop_last(), now);
        if wave_alive(waves.last(), now) {
            rest.push(waves.last())
        } else {
            rest
        }
    }
}

/// A ring spawned at `now` (only when the effect is on); the oldest goes
/// first when `PULSE_MAX_WAVES` are already alive.
pub open spec fn spec_trigger(p: PulseView, accent: bool, now: u64) -> PulseView {
    if !p.enabled {
        p
    } else {
        let kept = if p.waves.len() >= PULSE_MAX_WAVES {
            p.waves.drop_first()
        } else {
            p.waves
        };
        PulseView { waves: kept.push(PulseWave { born: now, accent }), ..p }
    }
}

/// A frame at `now`: the animation clock advances by the time since the
/// last frame, and the rings that have lived out their lifetime go.
pub open spec fn spec_tick(p: PulseView, now: u64) -> PulseView {
    let dt = elapsed(p.last_frame, now);
    PulseView {
        waves: live_waves(p.waves, now),
        enabled: p.enabled,
        elapsed: if p.elapsed + dt <= u64::MAX { (p.elapsed + dt) as u64 } else { u64::MAX },
        last_frame: now,
    }
}

/// The effect switched on or off; switching it off removes every ring.
pub open spec fn spec_toggle(p: PulseView) -> PulseView {
    PulseView {
        waves: if p.enabled { Seq::empty() } else { p.waves },
        enabled: !p.enabled,
        ..p
    }
}

/// The pulse system's active rings and animation clock.
pub struct PulseField {
    waves: Vec<PulseWave>,
    enabled: bool,
    elapsed: u64,
    last_frame: u64,
}

impl View for PulseField {
    type V = PulseView;

    closed spec fn view(&self) -> PulseView {
        PulseView {
            waves: self.waves@,
            enabled: self.enabled,
            elapsed: self.elapsed,
            last_frame: self.last_frame,
        }
    }
}

/// At most `PULSE_MAX_WAVES` rings, and none while the effect is off.
pub open spec fn pulse_wf(p: PulseView) -> bool {
    &&& p.waves.len() <= PULSE_MAX_WAVES
    &&& !p.enabled ==> p.waves.len() == 0
}

impl PulseField {
    /// Whether the field keeps its invariant.
    pub open spec fn wf(&self) -> bool {
        pulse_wf(self@)
    }

    /// The effect off, no rings, the animation clock at zero.
    pub fn new(now: u64) -> (p: Self)
        ensures
            p@ == (PulseView { waves: Seq::empty(), enabled: false, elapsed: 0, last_frame: now }),
            p.wf(),
    {
        PulseField { waves: Vec::new(), enabled: false, elapsed: 0, last_frame: now }
    }

    /// Spawns a ring for a beat at `now`.
    pub fn trigger(&mut self, accent: bool, now: u64)
        requires
            old(self).wf(),
        ensures
            final(self)@ == spec_trigger(old(self)@, accent, now),
            final(self).wf(),
    {
        if !self.enabled {
            return;
        }
        if self.waves.len() >= PULSE_MAX_WAVES {
            self.waves.remove(0);
        }
        self.waves.push(PulseWave { born: now, accent });
        proof {
            assert(old(self)@.waves.len() >= PULSE_MAX_WAVES ==> self.waves@ =~= old(
                self,
            )@.waves.drop_first().push(PulseWave { born: now, accent }));
        }
    }

    /// Advances the animation clock to `now` and drops the rings that have
    /// lived out their lifetime.
    pub fn tick(&mut self, now: u64)
        requires
            old(self).wf(),
        ensures
            final(self)@ == spec_tick(old(self)@, now),
            final(self).wf(),
    {
        let dt = if now >= self.last_frame { now - self.last_frame } else { 0 };
        self.last_frame = now;
        self.elapsed = self.elapsed.saturating_add(dt);
        let mut live: Vec<PulseWave> = Vec::new();
        let n = self.waves.len();
        let mut i: usize = 0;
        while i < n
            invariant
                i <= n,
                n == self.waves@.len(),
                live@ == live_waves(self.waves@.take(i as int), now),
                live@.len() <= i,
            decreases n - i,
        {
            let w = self.waves[i];
            assert(self.waves@.take(i + 1).drop_last() =~= self.waves@.take(i as int));
            let age = if now >= w.born { now - w.born } else { 0 };
            if age < PULSE_LIFETIME_NANOS {
                live.push(w);
            }
            i = i + 1;
        }
        assert(self.waves@.take(n as int) =~= self.waves@);
        self.waves = live;
    }

    /// Switches the effect on or off; off clears every ring.
    pub fn toggle(&mut self)
        requires
            old(self).wf(),
        ensures
            final(self)@ == spec_toggle(old(self)@),
            final(self).wf(),
    {
        self.enabled = !self.enabled;
        if !self.enabled {
            self.waves.clear();
        }
    }

    /// The active rings, oldest first.
    pub fn waves(&self) -> (r: &[PulseWave])
        ensures
            r@ == self@.waves,
    {
        self.waves.as_slice()
    }

    /// Whether the effect is on.
    pub fn enabled(&self) -> (r: bool)
        ensures
            r == self@.enabled,
    {
        self.enabled
    }

    /// The animation clock, in nanoseconds.
    pub fn elapsed(&self) -> (r: u64)
        ensures
            r == self@.elapsed,
    {
        self.elapsed
    }
}

} // verus!
