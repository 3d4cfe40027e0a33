//! Hardware watchdog: its start-up path and the rule for re-arming it.
use vstd::prelude::*;

verus! {

/// Frequency of the low-frequency clock that drives the watchdog.
pub const LFCLK_FREQ: u32 = 32768;

/// Watchdog timeout in low-frequency clock ticks: three seconds.
pub const PERIOD: u32 = 3 * LFCLK_FREQ;

/// Interval between re-arms of the watchdog.
pub const PET_INTERVAL_MS: u32 = 500;

/// How the watchdog is taken over at boot.
#[derive(Clone, Copy, Debug, PartialEq, Eq, Structural)]
pub enum WatchdogStart {
    /// It was idle: configure the timeout and start it.
    Configure,
    /// It was already running and can be adopted with its configuration.
    Adopt,
    /// It was running and cannot be adopted: let it expire and reset the device.
    Expire,
}

/// The watchdog: its timeout (`period`) and the low-frequency clock ticks
/// left before it resets the device, both in low-frequency clock ticks.
#[derive(Clone, Copy, Debug, PartialEq, Eq, Structural)]
pub struct Watchdog {
    pub period: u32,
    pub ticks_left: u32,
}

/// Chooses the start-up path from whether the watchdog was idle and, if not,
/// whether its running configuration can be adopted.
pub fn start_path(idle: bool, recoverable: bool) -> (r: WatchdogStart)
    ensures
        idle ==> r == WatchdogStart::Configure,
        !idle && recoverable ==> r == WatchdogStart::Adopt,
        !idle && !recoverable ==> r == WatchdogStart::Expire,
{
    if idle {
        WatchdogStart::Configure
    } else if recoverable {
        WatchdogStart::Adopt
    } else {
        WatchdogStart::Expire
    }
}

/// Whether the periodic re-arm task re-arms the watchdog: not while the
/// button is held, so that holding it resets the device.
pub fn should_pet(button_pressed: bool) -> (r: bool)
    ensures
        r == !button_pressed,
{
    !button_pressed
}

impl Watchdog {
    /// Takes the watchdog over at boot, from whether it was idle, whether a
    /// running one can be adopted, and the timeout a running one was set up
    /// with. An idle watchdog is configured with `PERIOD` and started; an
    /// adoptable one keeps its timeout; either is re-armed once. A running
    /// one that cannot be adopted gives `None`: the caller stops petting and
    /// lets it reset the device.
    pub fn new(idle: bool, recoverable: bool, running_period: u32) -> (r: Option<Self>)
        ensures
            idle ==> r == Some(Watchdog { period: PERIOD, ticks_left: PERIOD }),
            !idle && recoverable ==> r == Some(
                Watchdog { period: running_period, ticks_left: running_period },
            ),
            !idle && !recoverable ==> r is None,
    {
        match start_path(idle, recoverable) {
            WatchdogStart::Configure => {
                let mut w = Watchdog { period: PERIOD, ticks_left: 0 };
                w.pet();
                Some(w)
            },
            WatchdogStart::Adopt => {
                let mut w = Watchdog { period: running_period, ticks_left: 0 };
                w.pet();
                Some(w)
            },
            WatchdogStart::Expire => None,
        }
    }

    /// Re-arms the watchdog for a full period.
    pub fn pet(&mut self)
        ensures
            final(self).period == old(self).period,
            final(self).ticks_left == old(self).period,
    {
        self.ticks_left = self.period;
    }

    /// Lets `ticks` low-frequency clock ticks pass. Returns whether the
    /// watchdog has expired.
    pub fn elapse(&mut self, ticks: u32) -> (r: bool)
        ensures
            final(self).period == old(self).period,
            final(self).ticks_left == if ticks >= old(self).ticks_left {
                0
            } else {
                old(self).ticks_left - ticks
            },
            r == (final(self).ticks_left == 0),
    {
        if ticks >= self.ticks_left {
            self.ticks_left = 0;
        } else {
            self.ticks_left = self.ticks_left - ticks;
        }
        self.ticks_left == 0
    }
}

} // verus!
