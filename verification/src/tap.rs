//! Tap tempo: the tempo is the average gap between the recent taps.

use vstd::prelude::*;
use crate::timing::{round_div, BPM_MAX, NANOS_PER_MIN};

verus! {

/// A tap older than this (2 s) is discarded.
pub const TAP_TIMEOUT_NANOS: u64 = 2_000_000_000;

/// How many taps are kept.
pub const MAX_TAPS: usize = 8;

/// The time from `earlier` to `later`, or zero when `later` comes first
/// (a clock reading never runs backwards, and a duration is never negative).
pub open spec fn elapsed(earlier: u64, later: u64) -> int {
    if later >= earlier {
        later - earlier
    } else {
        0
    }
}

/// The sum of the gaps between consecutive taps of `taps`.
pub open spec fn gap_sum(taps: Seq<u64>) -> int
    decreases taps.len(),
{
    if taps.len() < 2 {
        0
    } else {
        gap_sum(taps.drop_last()) + elapsed(taps[taps.len() - 2], taps[taps.len() - 1])
    }
}

/// The tempo that the taps give: 60 s over the average gap, rounded to the
/// nearest beat per minute; none with fewer than two taps or when no time
/// passed between them. A value beyond `u32` reads as `BPM_MAX`.
pub open spec fn spec_estimate_bpm(taps: Seq<u64>) -> Option<u32> {
    if taps.len() < 2 || gap_sum(taps) == 0 {
        None
    } else {
        let v = round_div(NANOS_PER_MIN * (taps.len() - 1), gap_sum(taps));
        Some(if v <= u32::MAX { v as u32 } else { BPM_MAX })
    }
}

/// The taps of `taps` that are at most `TAP_TIMEOUT_NANOS` old at `now`,
/// in their order.
pub open spec fn recent_taps(taps: Seq<u64>, now: u64) -> Seq<u64>
    decreases taps.len(),
{
    if taps.len() == 0 {
        taps
    } else {
        let rest = recent_taps(taps.drop_last(), now);
        if elapsed(taps.last(), now) <= TAP_TIMEOUT_NANOS {
            rest.push(taps.last())
        } else {
            rest
        }
    }
}

/// The taps after a tap at `now`: taps more than `TAP_TIMEOUT_NANOS` old
/// are discarded, the new tap goes at the end, and the oldest goes when
/// there are more than `MAX_TAPS`.
pub open spec fn spec_tap(taps: Seq<u64>, now: u64) -> Seq<u64> {
    let pushed = recent_taps(taps, now).push(now);
    if pushed.len() > MAX_TAPS {
        pushed.drop_first()
    } else {
        pushed
    }
}

/// At most `MAX_TAPS` taps, none more than `TAP_TIMEOUT_NANOS` older than
/// the newest.
pub open spec fn taps_wf(taps: Seq<u64>) -> bool {
    &&& taps.len() <= MAX_TAPS
    &&& forall|i: int|
        0 <= i < taps.len() ==> #[trigger] elapsed(taps[i], taps.last()) <= TAP_TIMEOUT_NANOS
}

/// The recent taps are among the taps, and none is too old.
proof fn lemma_recent_taps(taps: Seq<u64>, now: u64)
    ensures
        recent_taps(taps, now).len() <= taps.len(),
        forall|i: int|
            0 <= i < recent_taps(taps, now).len() ==> #[trigger] elapsed(
                recent_taps(taps, now)[i],
                now,
            ) <= TAP_TIMEOUT_NANOS,
    decreases taps.len(),
{
    if taps.len() > 0 {
        lemma_recent_taps(taps.drop_last(), now);
    }
}

/// A tap keeps the taps within their limits: every tap kept is at most
/// `TAP_TIMEOUT_NANOS` old at `now` (older ones are discarded), and the
/// newest tap is the one just made.
pub proof fn lemma_tap_keeps_wf(taps: Seq<u64>, now: u64)
    requires
        taps_wf(taps),
    ensures
        taps_wf(spec_tap(taps, now)),
        spec_tap(taps, now).len() >= 1,
        spec_tap(taps, now).last() == now,
        forall|i: int|
            0 <= i < spec_tap(taps, now).len() ==> #[trigger] elapsed(spec_tap(taps, now)[i], now)
                <= TAP_TIMEOUT_NANOS,
{
    lemma_recent_taps(taps, now);
    let kept = recent_taps(taps, now);
    let pushed = kept.push(now);
    let s = spec_tap(taps, now);
    assert forall|i: int| 0 <= i < s.len() implies #[trigger] elapsed(s[i], now)
        <= TAP_TIMEOUT_NANOS by {
        if pushed.len() > MAX_TAPS {
            assert(s[i] == pushed[i + 1]);
            if i + 1 < kept.len() {
                assert(elapsed(kept[i + 1], now) <= TAP_TIMEOUT_NANOS);
            }
        } else {
            if i < kept.len() {
                assert(elapsed(kept[i], now) <= TAP_TIMEOUT_NANOS);
            }
        }
    }
    assert(s.last() == now);
    assert forall|i: int| 0 <= i < s.len() implies #[trigger] elapsed(s[i], s.last())
        <= TAP_TIMEOUT_NANOS by {
        assert(elapsed(s[i], now) <= TAP_TIMEOUT_NANOS);
    }
}

/// For taps in clock order, the gaps add up to the time from the first to
/// the last.
pub proof fn lemma_sorted_gap_sum(taps: Seq<u64>)
    requires
        taps.len() >= 1,
        forall|i: int, j: int| 0 <= i <= j < taps.len() ==> taps[i] <= taps[j],
    ensures
        gap_sum(taps) == taps.last() - taps[0],
    decreases taps.len(),
{
    if taps.len() >= 2 {
        lemma_sorted_gap_sum(taps.drop_last());
        assert(taps[taps.len() - 2] <= taps[taps.len() - 1]);
    }
}

/// The recent taps, oldest first, as clock readings in nanoseconds.
pub struct TapTempo {
    taps: Vec<u64>,
}

impl View for TapTempo {
    type V = Seq<u64>;

    closed spec fn view(&self) -> Seq<u64> {
        self.taps@
    }
}

impl TapTempo {
    /// Whether the taps keep their invariant.
    pub open spec fn wf(&self) -> bool {
        taps_wf(self@)
    }

    /// No taps yet.
    pub fn new() -> (t: Self)
        ensures
            t@ == Seq::<u64>::empty(),
            t.wf(),
    {
        TapTempo { taps: Vec::new() }
    }

    /// Records a tap at `now` and returns the tempo the taps now give.
    pub fn tap(&mut self, now: u64) -> (r: Option<u32>)
        requires
            old(self).wf(),
        ensures
            final(self)@ == spec_tap(old(self)@, now),
            final(self).wf(),
            r == spec_estimate_bpm(final(self)@),
    {
        let ghost before = self.taps@;
        let mut kept: Vec<u64> = Vec::new();
        let n = self.taps.len();
        let mut i: usize = 0;
        while i < n
            invariant
                i <= n,
                n == self.taps@.len(),
                self.taps@ == before,
                kept@ == recent_taps(before.take(i as int), now),
            decreases n - i,
        {
            let t = self.taps[i];
            assert(before.take(i + 1).drop_last() =~= before.take(i as int));
            if now < t || now - t <= TAP_TIMEOUT_NANOS {
                kept.push(t);
            }
            i = i + 1;
        }
        assert(before.take(n as int) =~= before);
        kept.push(now);
        if kept.len() > MAX_TAPS {
            kept.remove(0);
        }
        self.taps = kept;
        proof {
            lemma_tap_keeps_wf(before, now);
            assert(self.taps@ =~= spec_tap(before, now));
        }
        self.estimate_bpm()
    }

    /// The tempo the taps give, if any.
    pub fn estimate_bpm(&self) -> (r: Option<u32>)
        requires
            self.wf(),
        ensures
            r == spec_estimate_bpm(self@),
    {
        let n = self.taps.len();
        if n < 2 {
            return None;
        }
        let mut sum: u128 = 0;
        let mut i: usize = 1;
        while i < n
            invariant
                1 <= i <= n <= MAX_TAPS,
                n == self.taps@.len(),
                sum == gap_sum(self.taps@.take(i as int)),
                sum <= (i - 1) * (u64::MAX as int),
            decreases n - i,
        {
            let a = self.taps[i - 1];
            let b = self.taps[i];
            let gap: u128 = if b >= a { (b - a) as u128 } else { 0 };
            proof {
                let t = self.taps@.take(i + 1);
                assert(t.drop_last() =~= self.taps@.take(i as int));
            }
            sum = sum + gap;
            i = i + 1;
        }
        assert(self.taps@.take(n as int) =~= self.taps@);
        if sum == 0 {
            return None;
        }
        let v: u128 = (2 * (NANOS_PER_MIN as u128 * (n as u128 - 1)) + sum) / (2 * sum);
        if v <= u32::MAX as u128 {
            Some(v as u32)
        } else {
            Some(BPM_MAX)
        }
    }

    /// How many taps are kept.
    pub fn count(&self) -> (r: usize)
        ensures
            r == self@.len(),
    {
        self.taps.len()
    }
}

} // verus!
