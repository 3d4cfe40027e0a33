use pinetime::backlight::Brightness;
use pinetime::display::{
    AtomicDisplayAwakeState, DisplayPower, DisplayState, PollOutcome, RefreshDirection,
    ScrollAnimation, WakeActions, DISPLAY_TIMEOUT_POLL_TICKS, DISPLAY_TIMEOUT_TICKS, RAMP_STEPS,
    VERT_LINES,
};
use pinetime::fonts::{Color, Font, FontFace, FontStyles, TextStyle};
use pinetime::system_time::DateTime;
use pinetime::watch_face::{
    date_text, time_text, CivilTime, Icon, Redraw, WatchFace, REDRAW_ALL, REDRAW_BATTERY,
    REDRAW_CHARGE_PLUG, REDRAW_DATE, REDRAW_TIME,
};

fn text(v: &[char]) -> String {
    v.iter().collect()
}

#[test]
fn touch_wakes_then_sleeps_after_timeout() {
    let mut d = DisplayPower::new();
    let wake_time: u32 = 10_000;
    let a = d.on_input(wake_time);
    assert_eq!(a, WakeActions { start_ramp: true, start_poll: true, force_redraw: true });
    assert_eq!(d.state, DisplayState::Waking);
    let mut steps = 1;
    while d.ramp_step() {
        steps += 1;
    }
    assert_eq!(steps, RAMP_STEPS);
    assert_eq!(d.state, DisplayState::Awake);
    assert_eq!(d.backlight.brightness(), Brightness::L7);
    // polls once a second from the wake
    let mut now = wake_time;
    let mut sleeps = 0;
    let mut slept_at = 0;
    for _ in 0..10 {
        now += DISPLAY_TIMEOUT_POLL_TICKS;
        let o = d.poll_timeout(now);
        if o.start_ramp {
            sleeps += 1;
            slept_at = now;
        }
        if !o.poll_again {
            break;
        }
    }
    assert_eq!(sleeps, 1);
    assert_eq!(slept_at, wake_time + DISPLAY_TIMEOUT_TICKS);
    assert_eq!(d.state, DisplayState::Sleeping);
    let mut down = 1;
    while d.ramp_step() {
        down += 1;
    }
    assert_eq!(down, RAMP_STEPS);
    assert_eq!(d.state, DisplayState::Asleep);
    assert_eq!(d.backlight.brightness(), Brightness::Off);
    assert_eq!(d.poll_timeout(now + 1024), PollOutcome { start_ramp: false, poll_again: false });
}

#[test]
fn input_while_awake_rearms_deadline() {
    let mut d = DisplayPower::new();
    d.on_input(0);
    while d.ramp_step() {}
    let a = d.on_input(3000);
    assert_eq!(a, WakeActions { start_ramp: false, start_poll: false, force_redraw: false });
    assert_eq!(d.deadline, 3000 + DISPLAY_TIMEOUT_TICKS);
    assert_eq!(d.poll_timeout(5120).start_ramp, false);
    assert!(d.poll_timeout(8120).start_ramp);
}

#[test]
fn input_while_sleeping_turns_back() {
    let mut d = DisplayPower::new();
    d.on_input(0);
    while d.ramp_step() {}
    assert!(d.poll_timeout(DISPLAY_TIMEOUT_TICKS).start_ramp);
    assert!(d.ramp_step());
    assert_eq!(d.backlight.brightness(), Brightness::L6);
    let a = d.on_input(6000);
    assert_eq!(a, WakeActions { start_ramp: false, start_poll: true, force_redraw: true });
    assert_eq!(d.state, DisplayState::Waking);
    assert!(!d.ramp_step());
    assert_eq!(d.state, DisplayState::Awake);
}

#[test]
fn scroll_up_animation() {
    let mut s = ScrollAnimation::new();
    assert_eq!(s.update_animations(), None);
    s.set_refresh_direction(RefreshDirection::Up);
    let mut shown = vec![];
    while let Some(o) = s.update_animations() {
        shown.push(o);
    }
    assert_eq!(shown.len(), 20);
    assert_eq!(shown[0], 0);
    assert_eq!(shown[19], 304);
    assert_eq!(s.scroll_offset, VERT_LINES);
}

#[test]
fn scroll_down_animation_wraps_to_end() {
    let mut s = ScrollAnimation::new();
    s.set_refresh_direction(RefreshDirection::Down);
    // a second request while running is ignored
    s.set_refresh_direction(RefreshDirection::Up);
    assert_eq!(s.in_progress, Some(RefreshDirection::Down));
    let mut shown = vec![];
    while let Some(o) = s.update_animations() {
        shown.push(o);
    }
    assert_eq!(shown.len(), 21);
    assert_eq!(shown[0], 320);
    assert_eq!(shown[20], 0);
    assert_eq!(s.in_progress, None);
}

#[test]
fn awake_flag() {
    let mut a = AtomicDisplayAwakeState::new(false);
    assert!(!a.is_awake());
    a.awaken();
    assert!(a.is_awake());
    assert!(a.get_and_clear());
    assert!(!a.get_and_clear());
}

#[test]
fn watch_face_texts_from_timestamp() {
    let mut w = WatchFace::new();
    // 2015-05-15 00:00:00 UTC, a Friday
    w.update(DateTime::from_timestamp(1_431_648_000), 100, false);
    assert_eq!(text(&w.date_text), "Fri 15 MAY 2015");
    assert_eq!(text(&w.time_text), "12:00");
    assert_eq!(w.redraw.bits, REDRAW_ALL);
    w.clear_redraw();
    // 13:07:59 the same day
    w.update(DateTime::from_timestamp(1_431_648_000 + 13 * 3600 + 7 * 60 + 59), 100, false);
    assert_eq!(text(&w.time_text), "01:07");
    assert_eq!(text(&w.date_text), "Fri 15 MAY 2015");
    assert_eq!(w.redraw.bits, REDRAW_TIME);
}

#[test]
fn watch_face_redraws_only_changed_regions() {
    let mut w = WatchFace::new();
    w.update(DateTime::from_timestamp(0), 100, false);
    assert_eq!(text(&w.date_text), "Thu 01 JAN 1970");
    assert_eq!(text(&w.time_text), "12:00");
    w.clear_redraw();
    w.update(DateTime::from_timestamp(30), 100, false);
    assert_eq!(w.redraw.bits, 0);
    w.update(DateTime::from_timestamp(86_400), 100, false);
    assert_eq!(w.redraw.bits, REDRAW_DATE);
    assert_eq!(text(&w.date_text), "Fri 02 JAN 1970");
    w.clear_redraw();
    w.update(DateTime::from_timestamp(86_400), 50, true);
    assert_eq!(w.redraw.bits, REDRAW_BATTERY | REDRAW_CHARGE_PLUG);
    assert_eq!(w.battery_icon, Icon::BatteryHalf);
    w.force_redraw();
    assert_eq!(w.redraw.bits, REDRAW_ALL);
}

#[test]
fn battery_icons_by_quarter() {
    assert_eq!(Icon::battery_icon_from_percent_remaining(0), Icon::BatteryEmpty);
    assert_eq!(Icon::battery_icon_from_percent_remaining(12), Icon::BatteryEmpty);
    assert_eq!(Icon::battery_icon_from_percent_remaining(13), Icon::BatteryOneQuarter);
    assert_eq!(Icon::battery_icon_from_percent_remaining(50), Icon::BatteryHalf);
    assert_eq!(Icon::battery_icon_from_percent_remaining(75), Icon::BatteryThreeQuarter);
    assert_eq!(Icon::battery_icon_from_percent_remaining(100), Icon::BatteryFull);
    assert_eq!(Icon::Plug.as_text(), "\u{F1E6}");
    assert_eq!(Icon::BatteryEmpty.as_text(), "\u{F244}");
}

#[test]
fn text_formatting_of_calendar_values() {
    let c = CivilTime { year: -44, month0: 2, day: 5, weekday: 6, hour: 23, minute: 9 };
    assert_eq!(text(&date_text(&c)), "Sun 05 MAR -44");
    assert_eq!(text(&time_text(&c)), "11:09");
    let c = CivilTime { year: 2024, month0: 11, day: 31, weekday: 1, hour: 12, minute: 0 };
    assert_eq!(text(&date_text(&c)), "Tue 31 DEC 2024");
    assert_eq!(text(&time_text(&c)), "12:00");
}

#[test]
fn redraw_flags() {
    let mut r = Redraw::empty();
    assert!(!r.contains(REDRAW_TIME));
    r.insert(REDRAW_TIME | REDRAW_DATE);
    assert!(r.contains(REDRAW_TIME));
    assert!(!r.contains(REDRAW_BATTERY));
    r.set_all();
    assert!(r.contains(REDRAW_CHARGE_PLUG));
    r.clear();
    assert_eq!(r.bits, 0);
}

#[test]
fn date_text_when_calendar_is_unchanged_keeps_texts() {
    let mut w = WatchFace::new();
    w.update(DateTime::from_timestamp(0), 100, false);
    w.clear_redraw();
    w.update_date_time(CivilTime { year: 1970, month0: 0, day: 1, weekday: 3, hour: 0, minute: 0 });
    assert_eq!(w.redraw.bits, 0);
}

#[test]
fn draw_commands_follow_marked_regions() {
    let fonts = FontStyles::new();
    assert_eq!(fonts.watchface_time, Font { face: FontFace::Time54ExtraBold, text_color: Color::white() });
    assert_eq!(fonts.watchface_date.text_color, Color { r: 15, g: 31, b: 15 });
    assert_eq!(fonts.watchface_date.style().background, None);
    let mut w = WatchFace::new();
    w.update(DateTime::from_timestamp(0), 5, true);
    let cmds = w.draw(&fonts);
    assert_eq!(cmds.len(), 4);
    assert_eq!(text(&cmds[0].text), "12:00");
    assert_eq!((cmds[0].x, cmds[0].y, cmds[0].centered), (120, 120, true));
    assert_eq!(cmds[0].style.background, Some(Color::black()));
    assert_eq!(text(&cmds[1].text), "Thu 01 JAN 1970");
    assert_eq!(cmds[1].y, 170);
    assert_eq!(cmds[2].text, vec!['\u{F244}']);
    assert_eq!(cmds[2].style.text_color, Color::red());
    assert_eq!(cmds[3].text, vec!['\u{F1E6}']);
    assert_eq!(cmds[3].style, TextStyle { face: FontFace::Icons20, text_color: Color::red(), background: None });
    w.clear_redraw();
    assert!(w.draw(&fonts).is_empty());
    w.update_battery_charge_plug(false);
    let cmds = w.draw(&fonts);
    assert_eq!(cmds.len(), 1);
    assert_eq!(cmds[0].style.text_color, Color::black());
    assert_eq!((cmds[0].x, cmds[0].y), (185, 22));
}
