use pinetime::clock::{
    advance_instant, checked_duration_since, compare_offset, wraparound_diff, CounterWidener,
    RtcMonotonic,
    MAX_COMPARE_OFFSET, TICK_RATE_HZ,
};
use pinetime::system_time::{DateTime, SystemTime, SystemTimeExt};

#[test]
fn wraparound_diff_across_wrap_boundary() {
    assert_eq!(wraparound_diff(0, u32::MAX), 1);
    assert_eq!(wraparound_diff(5, 0xFFFF_FFF0), 21);
    assert_eq!(wraparound_diff(u32::MAX, 0), u32::MAX);
}

#[test]
fn wraparound_diff_without_wrap() {
    assert_eq!(wraparound_diff(1000, 24), 976);
    assert_eq!(wraparound_diff(7, 7), 0);
}

#[test]
fn advance_instant_wraps() {
    assert_eq!(advance_instant(u32::MAX, 1), 0);
    assert_eq!(advance_instant(10, 5), 15);
    assert_eq!(advance_instant(0xFFFF_FF00, 0x200), 0x100);
}

#[test]
fn checked_duration_since_orders_by_half_range() {
    assert_eq!(checked_duration_since(10, 4), Some(6));
    assert_eq!(checked_duration_since(4, 10), None);
    assert_eq!(checked_duration_since(2, u32::MAX - 1), Some(4));
    assert_eq!(checked_duration_since(9, 9), Some(0));
}

#[test]
fn compare_offset_past_deadline_arms_one_tick() {
    assert_eq!(compare_offset(100, 200), 1);
    assert_eq!(compare_offset(200, 200), 1);
}

#[test]
fn compare_offset_clamps_to_window() {
    assert_eq!(compare_offset(300, 200), 100);
    assert_eq!(compare_offset(0x0200_0000, 0), MAX_COMPARE_OFFSET);
    assert_eq!(compare_offset(5, u32::MAX - 4), 10);
}

#[test]
fn rtc_compare_fires_at_deadline() {
    let mut rtc = RtcMonotonic::new();
    rtc.reset();
    for _ in 0..40 {
        rtc.on_tick();
    }
    assert_eq!(rtc.try_now(), 40);
    rtc.clear_compare_flag();
    rtc.set_compare(100);
    assert_eq!(rtc.compare, 60);
    for _ in 0..59 {
        rtc.on_tick();
    }
    assert!(!rtc.compare_flag);
    rtc.on_tick();
    assert!(rtc.compare_flag);
    assert_eq!(rtc.try_now(), 100);
    rtc.clear_compare_flag();
    assert!(!rtc.compare_flag);
}

#[test]
fn rtc_disabled_timer_does_not_fire() {
    let mut rtc = RtcMonotonic::new();
    rtc.reset();
    rtc.disable_timer();
    rtc.set_compare(3);
    for _ in 0..5 {
        rtc.on_tick();
    }
    assert!(!rtc.compare_flag);
    rtc.enable_timer();
    assert!(rtc.timer_enabled);
}

#[test]
fn half_second_updates_do_not_drift() {
    let mut st = SystemTime::new();
    let step = TICK_RATE_HZ / 2;
    let mut now: u32 = 0;
    for _ in 0..1_000_000u32 {
        now = now.wrapping_add(step);
        st.update_time(now);
    }
    assert_eq!(st.uptime(), 500_000);
    assert_eq!(st.date_time().timestamp(), 500_000);
    assert_eq!(st.last_clock_instant, now);
}

#[test]
fn odd_number_of_half_seconds_keeps_remainder() {
    let mut st = SystemTime::new();
    for k in 1..=3u32 {
        st.update_time(k * 512);
    }
    assert_eq!(st.uptime(), 1);
    assert_eq!(st.last_clock_instant, 1024);
}

#[test]
fn update_time_across_counter_wrap() {
    let mut st = SystemTime {
        uptime: 10,
        last_clock_instant: u32::MAX - 99,
        date_time: DateTime::from_timestamp(1000),
    };
    st.update_time(2000);
    // 100 ticks to the wrap, then 2001 more: 2101 ticks, two whole seconds
    assert_eq!(st.uptime(), 12);
    assert_eq!(st.date_time(), DateTime::from_timestamp(1002));
    assert_eq!(st.last_clock_instant, (u32::MAX - 99).wrapping_add(2048));
}

#[test]
fn first_update_without_elapsed_time_keeps_uptime() {
    let mut st = SystemTime::new();
    st.update_time(0);
    assert_eq!(st.uptime(), 0);
    st.update_time(1023);
    assert_eq!(st.uptime(), 0);
    st.update_time(1024);
    assert_eq!(st.uptime(), 1);
}

#[test]
fn widener_accumulates_narrow_wraps() {
    let mut w = CounterWidener::new(0x00FF_FFF0);
    assert_eq!(w.observe(0x00FF_FFFF), 15);
    assert_eq!(w.observe(0x0000_0010), 32);
    assert_eq!(w.observe(0x0000_0010), 32);
    assert_eq!(w.observe(0x0080_0010), 32 + 0x0080_0000);
}

#[test]
fn system_time_trait_reads_date_time() {
    let mut st = SystemTime::new();
    st.update_time(3 * 1024 + 5);
    assert_eq!(SystemTimeExt::date_time(&st), DateTime::from_timestamp(3));
}
