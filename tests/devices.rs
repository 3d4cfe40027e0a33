use pinetime::backlight::{Backlight, Brightness};
use pinetime::battery::{
    percent_from_voltage, BatteryController, BatteryControllerExt,
    MilliVolts, SimBattery,
};
use pinetime::button::Button;
use pinetime::motor::MotorController;
use pinetime::touch::{BusOp, Cst816s, Gesture, InitProgress, Register, TouchData, ADDRESS};
use pinetime::watchdog::{should_pet, start_path, Watchdog, WatchdogStart, PERIOD};

#[test]
fn battery_mapping_endpoints_and_midpoint() {
    assert_eq!(percent_from_voltage(MilliVolts(3200)), 0);
    assert_eq!(percent_from_voltage(MilliVolts(4180)), 100);
    assert_eq!(percent_from_voltage(MilliVolts(3690)), 50);
}

#[test]
fn battery_mapping_clamps_out_of_range() {
    assert_eq!(percent_from_voltage(MilliVolts(0)), 0);
    assert_eq!(percent_from_voltage(MilliVolts(3199)), 0);
    assert_eq!(percent_from_voltage(MilliVolts(4181)), 100);
    assert_eq!(percent_from_voltage(MilliVolts(u16::MAX)), 100);
    assert_eq!(percent_from_voltage(MilliVolts(3210)), 1);
}

#[test]
fn raw_code_to_millivolts() {
    assert_eq!(BatteryController::raw_voltage_to_volts(0), MilliVolts(0));
    assert_eq!(BatteryController::raw_voltage_to_volts(1023), MilliVolts(4795));
    assert_eq!(BatteryController::raw_voltage_to_volts(768), MilliVolts(3600));
    assert_eq!(BatteryController::raw_voltage_to_volts(32767), MilliVolts(u16::MAX));
}

#[test]
fn voltage_update_reports_changes_only() {
    let mut b = BatteryController::new();
    assert!(b.update_voltage(Some(768)));
    assert_eq!(b.voltage(), MilliVolts(3600));
    assert_eq!(b.percent_remaining(), 40);
    assert!(!b.update_voltage(Some(768)));
    // ADC not ready: the cycle is skipped
    assert!(!b.update_voltage(None));
    assert_eq!(b.voltage(), MilliVolts(3600));
    // negative codes read as zero
    assert!(b.update_voltage(Some(-5)));
    assert_eq!(b.voltage(), MilliVolts(0));
    assert_eq!(b.percent_remaining(), 0);
}

#[test]
fn charging_io_reports_power_presence_changes() {
    let mut b = BatteryController::new();
    // charge line alone is recorded but not reported
    assert!(!b.update_charging_io(true, false));
    assert!(b.is_charging());
    assert!(b.update_charging_io(true, true));
    assert!(!b.update_charging_io(true, true));
    assert!(b.update_charging_io(false, false));
    assert!(!b.is_charging());
    assert_eq!(b.update(false, true, Some(1023)), (true, true));
}

#[test]
fn battery_traits_read_state() {
    let sim = SimBattery::default();
    assert_eq!(BatteryControllerExt::percent_remaining(&sim), 100);
    assert_eq!(BatteryControllerExt::voltage(&sim), MilliVolts(4180));
    assert!(!BatteryControllerExt::is_charging(&sim));
    let b = BatteryController::new();
    assert_eq!(BatteryControllerExt::percent_remaining(&b), 0);
}

#[test]
fn bounce_burst_gives_one_press() {
    let mut b = Button::new();
    let mut checks = 0;
    // edges every 0.5 ms over 3 ms around one press
    for _ in 0..7 {
        if b.on_edge() {
            checks += 1;
        }
    }
    assert_eq!(checks, 1);
    let mut presses = 0;
    for _ in 0..checks {
        if b.confirm(true) {
            presses += 1;
        }
    }
    assert_eq!(presses, 1);
    assert!(b.is_pressed());
    // a stale check finds nothing scheduled
    assert!(!b.confirm(true));
}

#[test]
fn released_button_is_noise() {
    let mut b = Button::new();
    assert!(b.on_edge());
    assert!(!b.confirm(false));
    assert!(!b.is_pressed());
}

#[test]
fn touch_report_decoding() {
    let bytes = [0x00, 0x02, 0x01, 0x80 | 0x0A, 0x34, 0xF0, 0x12];
    let t = TouchData::from_le_bytes(&bytes);
    assert_eq!(
        t,
        TouchData { x: 0x0A34, y: 0x0012, gesture: Some(Gesture::SlideUp), is_touching: true }
    );
    let none = TouchData::from_le_bytes(&[0, 0x07, 0x10, 0, 0, 0, 0]);
    assert_eq!(none.gesture, None);
    assert!(!none.is_touching);
}

#[test]
fn gesture_codes_round_trip() {
    for code in 0u8..=255 {
        if let Some(g) = Gesture::from_u8(code) {
            assert_eq!(g.as_u8(), code);
        }
    }
    assert_eq!(Gesture::from_u8(0x0B), Some(Gesture::DoubleTap));
    assert_eq!(Gesture::from_u8(0x0C), Some(Gesture::LongPress));
    assert_eq!(Gesture::from_u8(0x06), None);
}

#[test]
fn touch_controller_init_sequence() {
    let c = Cst816s::new();
    let ops = c.init();
    assert_eq!(ops.len(), 12);
    assert_eq!(ops[0], BusOp::SetReset(true));
    assert_eq!(ops[2], BusOp::SetReset(false));
    assert_eq!(ops[6], BusOp::ReadRegister(0x15));
    assert_eq!(ops[8], BusOp::ReadRegister(0xA7));
    assert_eq!(ops[10], BusOp::WriteRegister(0xEC, 0b0000_0101));
    assert_eq!(ops[11], BusOp::WriteRegister(0xFA, 0b0111_0000));
    assert_eq!(ops[11].tx_bytes(), vec![0xFA, 0x70]);
    assert_eq!(Cst816s::read_register(Register::Wakeup1).tx_bytes(), vec![0xA7]);
    assert!(BusOp::DelayMs(5).tx_bytes().is_empty());
    assert_eq!(ADDRESS, 0x15);
}

#[test]
fn touch_read_failure_gives_nothing() {
    let mut c = Cst816s::new();
    assert_eq!(c.read_touch_data(None), None);
    let r = c.read_touch_data(Some([0, 0x05, 1, 0, 10, 0, 20]));
    assert_eq!(r.map(|t| t.gesture), Some(Some(Gesture::SingleTap)));
    assert_eq!(c.buffer[4], 10);
}

#[test]
fn brightness_steps() {
    assert_eq!(Brightness::Off.brighter(), Brightness::L1);
    assert_eq!(Brightness::L7.brighter(), Brightness::L7);
    assert_eq!(Brightness::L7.darker(), Brightness::L6);
    assert_eq!(Brightness::L1.darker(), Brightness::Off);
    assert_eq!(Brightness::Off.darker(), Brightness::Off);
    assert_eq!(Brightness::default(), Brightness::L7);
    assert_eq!(Brightness::brightest().as_u8(), 7);
    assert_eq!(Brightness::dimmest().as_u8(), 1);
    assert_eq!(Brightness::L7.label(), "Max");
    assert_eq!(Brightness::Off.label(), "Off");
    assert_eq!(Brightness::L3.label(), "3");
}

#[test]
fn backlight_lines_follow_level_bits() {
    let mut b = Backlight::new();
    assert_eq!(b.brightness(), Brightness::L7);
    assert!(!b.low_high && !b.mid_high && !b.high_high);
    b.set_brightness(Brightness::L5);
    assert!(!b.low_high && b.mid_high && !b.high_high);
    b.darker();
    assert_eq!(b.brightness(), Brightness::L4);
    assert!(b.low_high && b.mid_high && !b.high_high);
    b.off();
    assert!(b.low_high && b.mid_high && b.high_high);
    b.brighter();
    assert_eq!(b.brightness(), Brightness::L1);
}

#[test]
fn motor_ring_once() {
    let mut m = MotorController::new();
    assert!(!m.is_on());
    assert!(m.line_high);
    assert_eq!(m.start_ring(30), Some(30));
    assert!(m.is_on());
    assert!(!m.line_high);
    assert_eq!(m.start_ring(30), None);
    m.stop_ring();
    assert!(!m.is_on());
}

#[test]
fn watchdog_paths_and_petting() {
    assert_eq!(start_path(true, false), WatchdogStart::Configure);
    assert_eq!(start_path(false, true), WatchdogStart::Adopt);
    assert_eq!(start_path(false, false), WatchdogStart::Expire);
    assert!(should_pet(false));
    assert!(!should_pet(true));
    assert_eq!(Watchdog::new(false, false, 1000), None);
    let adopted = Watchdog::new(false, true, 1000).unwrap();
    assert_eq!(adopted, Watchdog { period: 1000, ticks_left: 1000 });
    let mut w = Watchdog::new(true, true, 1000).unwrap();
    assert_eq!(w.ticks_left, PERIOD);
    assert!(!w.elapse(16384));
    w.pet();
    assert_eq!(w.ticks_left, 3 * 32768);
    assert!(w.elapse(PERIOD));
}

#[test]
fn touch_bring_up_stops_at_first_bus_error() {
    let c = Cst816s::new();
    let ops = c.init();
    let mut outcomes: Vec<bool> = vec![];
    let mut performed = vec![];
    // the second wake-up read (operation 8) fails
    loop {
        match c.init_progress(&outcomes) {
            InitProgress::Next(op) => {
                performed.push(op);
                outcomes.push(performed.len() != 9);
            }
            InitProgress::Done => panic!("bring-up cannot succeed"),
            InitProgress::Failed(i) => {
                assert_eq!(i, 8);
                break;
            }
        }
    }
    assert_eq!(performed, ops[..9].to_vec());
    assert_eq!(c.init_progress(&vec![true, false, true]), InitProgress::Failed(1));
}

#[test]
fn touch_bring_up_succeeds() {
    let c = Cst816s::new();
    let mut outcomes: Vec<bool> = vec![];
    while let InitProgress::Next(_) = c.init_progress(&outcomes) {
        outcomes.push(true);
    }
    assert_eq!(outcomes.len(), 12);
    assert_eq!(c.init_progress(&outcomes), InitProgress::Done);
    assert_eq!(c.init_progress(&vec![]), InitProgress::Next(BusOp::SetReset(true)));
}
