//! Swing: how much the off-beat is delayed.

use vstd::prelude::*;

verus! {

/// The four swing settings. After an on-beat the gap grows by the swing
/// factor and after an off-beat it shrinks by the same factor.
#[derive(Clone, Copy, Debug, PartialEq, Eq, Structural)]
pub enum Swing {
    /// Factor 0: even beats.
    Straight,
    /// Factor 0.33: slight shuffle.
    Light,
    /// Factor 0.5: classic swing.
    Swung,
    /// Factor 0.66: heavy triplet feel.
    Triplet,
}

/// The swing factor of `s` in hundredths.
pub open spec fn spec_swing_percent(s: Swing) -> u64 {
    match s {
        Swing::Straight => 0,
        Swing::Light => 33,
        Swing::Swung => 50,
        Swing::Triplet => 66,
    }
}

/// The setting after `s` in the cycle straight, light, swing, triplet.
pub open spec fn spec_next_swing(s: Swing) -> Swing {
    match s {
        Swing::Straight => Swing::Light,
        Swing::Light => Swing::Swung,
        Swing::Swung => Swing::Triplet,
        Swing::Triplet => Swing::Straight,
    }
}

/// The name shown for `s`.
pub open spec fn spec_swing_label(s: Swing) -> Seq<char> {
    match s {
        Swing::Straight => "straight"@,
        Swing::Light => "light"@,
        Swing::Swung => "swing"@,
        Swing::Triplet => "triplet"@,
    }
}

impl Swing {
    /// The swing factor in hundredths.
    pub fn percent(self) -> (r: u64)
        ensures
            r == spec_swing_percent(self),
    {
        match self {
            Swing::Straight => 0,
            Swing::Light => 33,
            Swing::Swung => 50,
            Swing::Triplet => 66,
        }
    }
}

/// The next swing setting in the cycle.
pub fn next_swing(current: Swing) -> (r: Swing)
    ensures
        r == spec_next_swing(current),
{
    match current {
        Swing::Straight => Swing::Light,
        Swing::Light => Swing::Swung,
        Swing::Swung => Swing::Triplet,
        Swing::Triplet => Swing::Straight,
    }
}

/// The name shown in the status bar.
pub fn swing_label(swing: Swing) -> (r: &'static str)
    ensures
        r@ == spec_swing_label(swing),
{
    match swing {
        Swing::Straight => "straight",
        Swing::Light => "light",
        Swing::Swung => "swing",
        Swing::Triplet => "triplet",
    }
}

} // verus!
