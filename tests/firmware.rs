use pinetime::backlight::Brightness;
use pinetime::display::{DisplayState, DISPLAY_TIMEOUT_TICKS};
use pinetime::runtime::{
    ms_to_ticks, task_table, Firmware, TASK_BATTERY_IO, TASK_BATTERY_VOLTAGE, TASK_BUTTON_PRESSED,
    TASK_DRAW, TASK_POLL_BUTTON, TASK_POLL_DISPLAY, TASK_RAMP, TASK_START_RING, TASK_STOP_RING,
    TASK_SYSTEM_TIME, TASK_TOUCH, TASK_WATCHDOG,
};

struct Inputs {
    button_high: bool,
    power_low: bool,
    touch: Option<[u8; 7]>,
    pets: u32,
}

fn run_task(fw: &mut Firmware, task: usize, now: u32, io: &mut Inputs) {
    match task {
        TASK_WATCHDOG => {
            if fw.run_watchdog(now, io.button_high).unwrap() {
                io.pets += 1;
            }
        }
        TASK_SYSTEM_TIME => fw.run_update_system_time(now).unwrap(),
        TASK_POLL_BUTTON => fw.run_poll_button(io.button_high),
        TASK_BUTTON_PRESSED => fw.run_button_pressed(now),
        TASK_TOUCH => fw.run_touch(now, io.touch),
        TASK_RAMP => fw.run_ramp(now).unwrap(),
        TASK_POLL_DISPLAY => fw.run_poll_display(now).unwrap(),
        TASK_BATTERY_IO => {
            fw.run_battery_io(now, false, io.power_low);
        }
        TASK_BATTERY_VOLTAGE => {
            fw.run_battery_voltage(now, Some(800)).unwrap();
        }
        TASK_START_RING => fw.run_start_ring(now),
        TASK_STOP_RING => fw.run_stop_ring(),
        TASK_DRAW => {
            let frame = fw.run_draw(now).unwrap();
            if frame.draw_face {
                fw.watch_face.clear_redraw();
            }
        }
        _ => unreachable!(),
    }
}

fn step(fw: &mut Firmware, now: u32, io: &mut Inputs) {
    fw.scheduler.release_due(now);
    while let Some(t) = fw.scheduler.dispatch(0) {
        run_task(fw, t, now, io);
    }
}

fn booted() -> Firmware {
    let mut fw = Firmware::new();
    fw.boot(0, false, false, Some(800));
    fw
}

#[test]
fn task_table_priorities() {
    let t = task_table();
    assert_eq!(t.len(), 12);
    assert_eq!(t[TASK_RAMP].priority, 6);
    assert_eq!(t[TASK_START_RING].priority, 2);
    assert_eq!(t[TASK_DRAW].capacity, 2);
    assert_eq!(ms_to_ticks(1000), 1024);
    assert_eq!(ms_to_ticks(75), 76);
}

#[test]
fn boot_then_idle_sleeps_then_press_wakes() {
    let mut fw = booted();
    let mut io = Inputs { button_high: false, power_low: false, touch: None, pets: 0 };
    let mut asleep_at = None;
    for now in 0..8000u32 {
        step(&mut fw, now, &mut io);
        if asleep_at.is_none() && fw.display.state == DisplayState::Asleep {
            asleep_at = Some(now);
        }
    }
    let t = asleep_at.unwrap();
    assert!(t >= DISPLAY_TIMEOUT_TICKS);
    assert!(t <= DISPLAY_TIMEOUT_TICKS + 1024 + 7 * 25 + 200);
    assert_eq!(fw.display.backlight.brightness(), Brightness::Off);
    assert!(io.pets >= 15);
    assert_eq!(fw.system_time.uptime(), 7);

    // a button press: edge, settle delay, confirmation
    let press = 8000u32;
    io.button_high = true;
    fw.on_button_edge(press);
    let mut awake_at = None;
    let mut confirmed_at = None;
    for now in press..press + 1000 {
        step(&mut fw, now, &mut io);
        if confirmed_at.is_none() && fw.display.state == DisplayState::Waking {
            confirmed_at = Some(now);
        }
        if awake_at.is_none() && fw.display.state == DisplayState::Awake {
            awake_at = Some(now);
        }
    }
    let c = confirmed_at.unwrap();
    assert_eq!(c, press + ms_to_ticks(75));
    let a = awake_at.unwrap();
    assert!(a - c <= 7 * ms_to_ticks(25));
    assert_eq!(fw.display.backlight.brightness(), Brightness::L7);
}

#[test]
fn power_change_wakes_and_rings() {
    let mut fw = booted();
    let mut io = Inputs { button_high: false, power_low: false, touch: None, pets: 0 };
    for now in 0..7000u32 {
        step(&mut fw, now, &mut io);
    }
    assert_eq!(fw.display.state, DisplayState::Asleep);
    io.power_low = true;
    fw.on_power_irq();
    let mut rang = false;
    for now in 7000..7400u32 {
        step(&mut fw, now, &mut io);
        rang |= fw.motor.is_on();
    }
    assert!(rang);
    assert!(!fw.motor.is_on());
    assert!(fw.battery.is_charging());
    assert_eq!(fw.display.state, DisplayState::Awake);
}

#[test]
fn touch_wakes_display_and_slide_scrolls() {
    let mut fw = booted();
    let mut io = Inputs { button_high: false, power_low: false, touch: None, pets: 0 };
    for now in 0..7000u32 {
        step(&mut fw, now, &mut io);
    }
    assert_eq!(fw.display.state, DisplayState::Asleep);
    io.touch = Some([0, 0x05, 1, 0, 10, 0, 20]);
    fw.on_touch_irq();
    step(&mut fw, 7000, &mut io);
    assert_eq!(fw.display.state, DisplayState::Waking);
    for now in 7001..7500u32 {
        step(&mut fw, now, &mut io);
    }
    assert_eq!(fw.display.state, DisplayState::Awake);
    io.touch = Some([0, 0x02, 1, 0, 10, 0, 20]);
    fw.on_touch_irq();
    step(&mut fw, 7500, &mut io);
    assert!(fw.scroll.in_progress.is_some() || fw.scroll.scroll_offset > 0);
}

#[test]
fn wall_clock_task_keeps_its_cadence() {
    let mut fw = booted();
    // highest priority first: the ramp, then the priority-5 tasks in order
    assert_eq!(fw.scheduler.dispatch(0), Some(TASK_RAMP));
    assert_eq!(fw.scheduler.dispatch(0), Some(TASK_SYSTEM_TIME));
    // dispatched late: re-armed one second after its previous deadline
    fw.run_update_system_time(300).unwrap();
    assert_eq!(fw.clock_deadline, 1024);
    assert!(fw
        .scheduler
        .timers
        .iter()
        .any(|t| t.task == TASK_SYSTEM_TIME && t.deadline == 1024));
}

#[test]
fn spawn_at_fixed_deadline() {
    let mut fw = Firmware::new();
    assert_eq!(fw.scheduler.spawn_at(TASK_DRAW, 77), Ok(()));
    assert_eq!(fw.scheduler.spawn_at(TASK_DRAW, 78), Ok(()));
    assert!(fw.scheduler.spawn_at(TASK_DRAW, 79).is_err());
    assert_eq!(fw.scheduler.next_deadline(0), Some(77));
}

#[test]
fn rearm_beyond_capacity_is_reported() {
    let mut fw = Firmware::new();
    assert_eq!(fw.run_watchdog(0, false), Ok(true));
    assert!(fw.run_watchdog(10, false).is_err());
    assert_eq!(fw.run_watchdog(20, true).is_err(), true);
    let mut fresh = Firmware::new();
    assert_eq!(fresh.run_watchdog(0, true), Ok(false));
}
