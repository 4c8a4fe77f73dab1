//! The clock that every time in the metronome is read from: nanoseconds
//! since it started, read from `std::time::Instant`. Its contract states
//! only the bound `CLOCK_MAX`; that readings never go back is what std
//! documents of `Instant`, and nothing here states or relies on it.

use vstd::prelude::*;
use std::time::Instant;
use crate::metronome::CLOCK_MAX;

verus! {

#[verifier::external_type_specification]
#[verifier::external_body]
pub struct ExInstant(std::time::Instant);

/// `std::time::Instant::now`. Nothing is stated of the reading.
#[verifier::external_body]
fn instant_now() -> (r: Instant) {
    Instant::now()
}

/// `std::time::Instant::elapsed` of `origin`, in nanoseconds
/// (`Duration::as_nanos`). It depends on when it is called, so nothing is
/// stated of it; the standard library documents it as never less than an
/// earlier reading.
#[verifier::external_body]
fn nanos_since(origin: &Instant) -> (r: u128) {
    origin.elapsed().as_nanos()
}

/// A reading of `nanos` since the clock started, held at `CLOCK_MAX`.
pub open spec fn spec_clamp_reading(nanos: u128) -> u64 {
    if nanos > CLOCK_MAX {
        CLOCK_MAX
    } else {
        nanos as u64
    }
}

/// A reading of `nanos` since the clock started, held at `CLOCK_MAX`.
pub fn clamp_reading(nanos: u128) -> (t: u64)
    ensures
        t == spec_clamp_reading(nanos),
{
    if nanos > CLOCK_MAX as u128 {
        CLOCK_MAX
    } else {
        nanos as u64
    }
}

/// A clock started at some instant; its readings are the nanoseconds
/// since then.
pub struct Clock {
    origin: Instant,
}

impl Clock {
    /// A clock that starts now.
    pub fn start() -> (c: Self) {
        Clock { origin: instant_now() }
    }

    /// The nanoseconds since the clock started, held at `CLOCK_MAX`
    /// (about 146 years) from then on.
    pub fn now(&self) -> (t: u64)
        ensures
            t <= CLOCK_MAX,
    {
        let n = nanos_since(&self.origin);
        clamp_reading(n)
    }
}

} // verus!
