//! Control core of a wrist-worn device: tick clock, wall-clock time,
//! task scheduling, input debouncing, battery and display power state.
use vstd::prelude::*;

pub mod backlight;
pub mod battery;
pub mod button;
pub mod clock;
pub mod display;
pub mod fonts;
pub mod motor;
pub mod runtime;
pub mod scheduler;
pub mod system_time;
pub mod touch;
pub mod watch_face;
pub mod watchdog;

verus! {

} // verus!
