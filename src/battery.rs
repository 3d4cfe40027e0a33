//! Battery state: charge and power-presence lines sampled on edges, and the
//! battery voltage polled periodically and mapped to a percentage.
use vstd::prelude::*;

verus! {

/// A voltage in millivolts.
#[derive(Clone, Copy, Debug, PartialEq, Eq, Structural, Hash)]
pub struct MilliVolts(pub u16);

/// Voltage of a full battery (the charger stops at about 4210 mV).
pub const BATTERY_MAX_MV: u16 = 4180;

/// Voltage of an empty battery, at which the device shuts down.
pub const BATTERY_MIN_MV: u16 = 3200;

/// Delay between a power-presence change and the haptic pulse that reports it.
pub const POWER_PRESENCE_DEBOUNCE_MS: u32 = 200;

/// Length of the haptic pulse that reports a power-presence change.
pub const CHARGE_EVENT_RING_DURATION_MS: u32 = 30;

/// Period of the battery voltage poll.
pub const VOLTAGE_POLL_INTERVAL_MS: u32 = 30_000;

/// Millivolts at the battery for a raw ADC code: the battery voltage is halved
/// by a divider and scaled by an ADC gain of 1/4 against a 600 mV reference
/// over 1024 codes, so one code is 4800 / 1024 mV. Saturates at `u16::MAX`.
pub open spec fn millivolts_of_raw(raw: u32) -> u16 {
    if raw as int * 4800 / 1024 > u16::MAX as int {
        u16::MAX
    } else {
        (raw as int * 4800 / 1024) as u16
    }
}

/// Remaining charge for a voltage: linear between the empty and full
/// voltages, clamped to `[0, 100]`.
pub open spec fn percent_of(mv: u16) -> u8 {
    if mv > BATTERY_MAX_MV {
        100
    } else if mv < BATTERY_MIN_MV {
        0
    } else {
        ((mv - BATTERY_MIN_MV) * 100 / (BATTERY_MAX_MV - BATTERY_MIN_MV) as int) as u8
    }
}

/// Remaining charge in percent for a battery voltage.
pub fn percent_from_voltage(voltage: MilliVolts) -> (r: u8)
    ensures
        r == percent_of(voltage.0),
        r <= 100,
{
    if voltage.0 > BATTERY_MAX_MV {
        100
    } else if voltage.0 < BATTERY_MIN_MV {
        0
    } else {
        let v = (voltage.0 - BATTERY_MIN_MV) as u32;
        let vd = (BATTERY_MAX_MV - BATTERY_MIN_MV) as u32;
        assert((v * 100) as int / vd as int <= 100) by (nonlinear_arith)
            requires
                v <= vd,
                vd == 980,
        ;
        ((v * 100) / vd) as u8
    }
}

/// Read access to a battery's state.
pub trait BatteryControllerExt {
    fn is_charging(&self) -> bool;

    fn voltage(&self) -> MilliVolts;

    fn percent_remaining(&self) -> u8;
}

/// Battery state. The charge line and the power-presence line are sampled
/// independently of the voltage, and each path reports its own changes.
#[derive(Clone, Copy, Debug, PartialEq, Eq, Structural)]
pub struct BatteryController {
    pub charging: bool,
    pub power_present: bool,
    pub voltage: MilliVolts,
    pub percent_remaining: u8,
}

impl BatteryController {
    /// Millivolts at the battery for a raw ADC code.
    pub fn raw_voltage_to_volts(raw: u32) -> (r: MilliVolts)
        ensures
            r.0 == millivolts_of_raw(raw),
    {
        assert(raw as u64 * 4800 <= u64::MAX) by (nonlinear_arith)
            requires
                raw <= u32::MAX,
        ;
        let mv: u64 = raw as u64 * (8 * 600) / 1024;
        if mv > u16::MAX as u64 {
            MilliVolts(u16::MAX)
        } else {
            MilliVolts(mv as u16)
        }
    }

    /// The percentage is the one of the voltage.
    pub open spec fn wf(&self) -> bool {
        self.percent_remaining == percent_of(self.voltage.0)
    }

    /// Not charging, no power present, 0 mV and 0 %.
    pub fn new() -> (r: Self)
        ensures
            r.wf(),
            !r.charging,
            !r.power_present,
            r.voltage.0 == 0,
            r.percent_remaining == 0,
    {
        BatteryController {
            charging: false,
            power_present: false,
            voltage: MilliVolts(0),
            percent_remaining: 0,
        }
    }

    /// Charging, or external power present.
    pub fn is_charging(&self) -> (r: bool)
        ensures
            r == (self.charging || self.power_present),
    {
        self.charging || self.power_present
    }

    /// The last sampled voltage.
    pub fn voltage(&self) -> (r: MilliVolts)
        ensures
            r == self.voltage,
    {
        self.voltage
    }

    /// The remaining charge in percent.
    pub fn percent_remaining(&self) -> (r: u8)
        ensures
            r == self.percent_remaining,
    {
        self.percent_remaining
    }

    /// Takes new readings of the charge-indication line and the
    /// power-presence line (both active low; `true` for a low line). Returns
    /// whether power presence changed; a change of the charge line alone is
    /// recorded without being reported.
    pub fn update_charging_io(&mut self, charge_line_low: bool, power_line_low: bool) -> (r: bool)
        ensures
            *final(self) == (BatteryController {
                charging: charge_line_low,
                power_present: power_line_low,
                ..*old(self)
            }),
            r == (power_line_low != old(self).power_present),
    {
        let mut changed = false;
        let charging = charge_line_low;
        if charging != self.charging {
            self.charging = charging;
        }
        let power_present = power_line_low;
        if power_present != self.power_present {
            self.power_present = power_present;
            changed = true;
        }
        changed
    }

    /// Takes a new ADC sample of the battery voltage (`None` when the ADC was
    /// not ready, which skips this cycle; negative codes count as 0). Returns
    /// whether the voltage changed; the percentage follows the voltage.
    pub fn update_voltage(&mut self, sample: Option<i16>) -> (r: bool)
        requires
            old(self).wf(),
        ensures
            final(self).wf(),
            final(self).charging == old(self).charging,
            final(self).power_present == old(self).power_present,
            sample.is_none() ==> *final(self) == *old(self) && !r,
            sample.is_some() ==> final(self).voltage.0 == millivolts_of_raw(
                if sample.unwrap() < 0 { 0 } else { sample.unwrap() as u32 },
            ),
            r == (final(self).voltage != old(self).voltage),
    {
        match sample {
            None => false,
            Some(code) => {
                let raw: u32 = if code < 0 {
                    0
                } else {
                    code as u32
                };
                let voltage = Self::raw_voltage_to_volts(raw);
                if voltage.0 != self.voltage.0 {
                    self.voltage = voltage;
                    self.percent_remaining = percent_from_voltage(voltage);
                    true
                } else {
                    false
                }
            },
        }
    }

    /// Both updates; returns (power presence changed, voltage changed).
    pub fn update(&mut self, charge_line_low: bool, power_line_low: bool, sample: Option<i16>) -> (r: (
        bool,
        bool,
    ))
        requires
            old(self).wf(),
        ensures
            final(self).wf(),
            final(self).charging == charge_line_low,
            final(self).power_present == power_line_low,
            sample.is_none() ==> final(self).voltage == old(self).voltage,
            sample.is_some() ==> final(self).voltage.0 == millivolts_of_raw(
                if sample.unwrap() < 0 { 0 } else { sample.unwrap() as u32 },
            ),
            r.0 == (power_line_low != old(self).power_present),
            r.1 == (final(self).voltage != old(self).voltage),
    {
        let charging_changed = self.update_charging_io(charge_line_low, power_line_low);
        let voltage_changed = self.update_voltage(sample);
        (charging_changed, voltage_changed)
    }
}

impl BatteryControllerExt for BatteryController {
    fn is_charging(&self) -> bool {
        BatteryController::is_charging(self)
    }

    fn voltage(&self) -> MilliVolts {
        BatteryController::voltage(self)
    }

    fn percent_remaining(&self) -> u8 {
        BatteryController::percent_remaining(self)
    }
}

/// A battery whose state is set by hand, for driving the watch face without
/// hardware.
#[derive(Clone, Copy, Debug, PartialEq, Eq, Structural)]
pub struct SimBattery {
    pub charging: bool,
    pub voltage: MilliVolts,
    pub percent_remaining: u8,
}

impl Default for SimBattery {
    /// A full battery, not charging.
    fn default() -> (r: Self)
        ensures
            !r.charging,
            r.voltage.0 == BATTERY_MAX_MV,
            r.percent_remaining == 100,
    {
        SimBattery { charging: false, voltage: MilliVolts(BATTERY_MAX_MV), percent_remaining: 100 }
    }
}

impl BatteryControllerExt for SimBattery {
    fn is_charging(&self) -> bool {
        self.charging
    }

    fn voltage(&self) -> MilliVolts {
        self.voltage
    }

    fn percent_remaining(&self) -> u8 {
        self.percent_remaining
    }
}

} // verus!
