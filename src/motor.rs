//! Vibration motor on an active-low control line, and the short haptic
//! pulses it gives.
use vstd::prelude::*;

verus! {

/// The vibration motor: whether it runs and the level of its control line
/// (`true` for driven high, which stops it).
#[derive(Clone, Copy, Debug, PartialEq, Eq, Structural)]
pub struct MotorController {
    pub is_on: bool,
    pub line_high: bool,
}

impl MotorController {
    /// The line is low exactly while the motor runs.
    pub open spec fn wf(&self) -> bool {
        self.line_high == !self.is_on
    }

    /// A stopped motor.
    pub fn new() -> (r: Self)
        ensures
            r.wf(),
            !r.is_on,
    {
        let mut mc = MotorController { is_on: true, line_high: false };
        mc.off();
        mc
    }

    /// Stops the motor.
    pub fn off(&mut self)
        ensures
            final(self).wf(),
            !final(self).is_on,
    {
        self.line_high = true;
        self.is_on = false;
    }

    /// Starts the motor.
    pub fn on(&mut self)
        ensures
            final(self).wf(),
            final(self).is_on,
    {
        self.line_high = false;
        self.is_on = true;
    }

    /// Whether the motor runs.
    pub fn is_on(&self) -> (r: bool)
        ensures
            r == self.is_on,
    {
        self.is_on
    }

    /// Starts a haptic pulse of `duration_ms` unless one is already running.
    /// Returns the delay after which the pulse is to be stopped, or `None`
    /// when the motor was already running.
    pub fn start_ring(&mut self, duration_ms: u32) -> (r: Option<u32>)
        requires
            old(self).wf(),
        ensures
            final(self).wf(),
            final(self).is_on,
            old(self).is_on ==> r.is_none() && *final(self) == *old(self),
            !old(self).is_on ==> r == Some(duration_ms),
    {
        if !self.is_on() {
            self.on();
            Some(duration_ms)
        } else {
            None
        }
    }

    /// Ends a haptic pulse.
    pub fn stop_ring(&mut self)
        ensures
            final(self).wf(),
            !final(self).is_on,
    {
        self.off();
    }
}

} // verus!
