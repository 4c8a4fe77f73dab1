//! The decision logic of a terminal metronome: beat scheduling with swing,
//! tap tempo, time signatures, click sounds and the pulse rings' lifetimes.
//!
//! Time is a count of nanoseconds since a clock started (see [`clock`]);
//! volume and swing are whole percentages.

pub mod sound;
pub mod swing;
pub mod timing;
pub mod tap;
pub mod pulse;
pub mod metronome;
pub mod view;
pub mod layout;
pub mod clock;
pub mod laws;
