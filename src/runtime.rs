//! The device's task set: the table of tasks and their priorities, and the
//! body of each task as a step from the shared resources and the readings
//! handed in by the hardware layer to new resources and new activations.
use vstd::prelude::*;

use crate::battery::{
    BatteryController, CHARGE_EVENT_RING_DURATION_MS, POWER_PRESENCE_DEBOUNCE_MS,
    VOLTAGE_POLL_INTERVAL_MS,
};
use crate::button::{button_step, Button, ButtonEvent, DEBOUNCE_MS};
use crate::clock::{advance_instant, instant_after, TICK_RATE_HZ};
use crate::display::{
    on_input_spec, poll_spec, ramp_step_spec, DisplayPower, DisplayState, RefreshDirection,
    ScrollAnimation, DISPLAY_TIMEOUT_POLL_TICKS, RAMP_STEP_MS, SCREEN_REFRESH_INTERVAL_MS,
    VERT_LINES,
};
use crate::motor::MotorController;
use crate::scheduler::{
    best_index, config_error, pending_count, Scheduler, SpawnError, TaskConfig, Timer,
};
use crate::system_time::SystemTime;
use crate::touch::{touch_of_report, Cst816s, Gesture};
use crate::watch_face::{civil_of, face_after_update, WatchFace, REDRAW_ALL};
use crate::watchdog::{should_pet, PET_INTERVAL_MS};

verus! {

broadcast use vstd::seq_lib::group_to_multiset_ensures, vstd::multiset::group_multiset_axioms,
    vstd::multiset::group_multiset_properties;

/// Re-arms the watchdog.
pub const TASK_WATCHDOG: usize = 0;

/// Brings the wall-clock time up to date.
pub const TASK_SYSTEM_TIME: usize = 1;

/// Confirms a button edge after the settle delay.
pub const TASK_POLL_BUTTON: usize = 2;

/// Handles a confirmed button press.
pub const TASK_BUTTON_PRESSED: usize = 3;

/// Reads and handles a touch report.
pub const TASK_TOUCH: usize = 4;

/// One backlight ramp step.
pub const TASK_RAMP: usize = 5;

/// Checks the display's inactivity deadline.
pub const TASK_POLL_DISPLAY: usize = 6;

/// Samples the charge and power-presence lines.
pub const TASK_BATTERY_IO: usize = 7;

/// Samples the battery voltage.
pub const TASK_BATTERY_VOLTAGE: usize = 8;

/// Starts a haptic pulse.
pub const TASK_START_RING: usize = 9;

/// Ends a haptic pulse.
pub const TASK_STOP_RING: usize = 10;

/// Refreshes the screen.
pub const TASK_DRAW: usize = 11;

/// Priority of the pin-change interrupt handler, which only queues tasks.
pub const GPIOTE_PRIORITY: u8 = 3;

/// The task table, indexed by the task constants.
pub open spec fn task_table_spec() -> Seq<TaskConfig> {
    seq![
        TaskConfig { priority: 4, capacity: 1 },
        TaskConfig { priority: 5, capacity: 1 },
        TaskConfig { priority: 4, capacity: 1 },
        TaskConfig { priority: 4, capacity: 1 },
        TaskConfig { priority: 5, capacity: 1 },
        TaskConfig { priority: 6, capacity: 1 },
        TaskConfig { priority: 6, capacity: 1 },
        TaskConfig { priority: 5, capacity: 1 },
        TaskConfig { priority: 5, capacity: 1 },
        TaskConfig { priority: 2, capacity: 1 },
        TaskConfig { priority: 2, capacity: 1 },
        TaskConfig { priority: 5, capacity: 2 },
    ]
}

/// The task table, indexed by the task constants.
pub fn task_table() -> (r: Vec<TaskConfig>)
    ensures
        r@ == task_table_spec(),
{
    let r = vec![
        TaskConfig { priority: 4, capacity: 1 },
        TaskConfig { priority: 5, capacity: 1 },
        TaskConfig { priority: 4, capacity: 1 },
        TaskConfig { priority: 4, capacity: 1 },
        TaskConfig { priority: 5, capacity: 1 },
        TaskConfig { priority: 6, capacity: 1 },
        TaskConfig { priority: 6, capacity: 1 },
        TaskConfig { priority: 5, capacity: 1 },
        TaskConfig { priority: 5, capacity: 1 },
        TaskConfig { priority: 2, capacity: 1 },
        TaskConfig { priority: 2, capacity: 1 },
        TaskConfig { priority: 5, capacity: 2 },
    ];
    assert(r@ =~= task_table_spec());
    r
}

/// Ticks in `ms` milliseconds, rounded down.
pub open spec fn ticks_of_ms(ms: u32) -> int {
    ms as int * TICK_RATE_HZ as int / 1000
}

/// Ticks in `ms` milliseconds, rounded down.
pub fn ms_to_ticks(ms: u32) -> (r: u32)
    requires
        ticks_of_ms(ms) <= u32::MAX,
    ensures
        r as int == ticks_of_ms(ms),
{
    let t: u64 = ms as u64 * 1024 / 1000;
    t as u32
}

/// Whether `task` can take one more activation, given the ready queue and
/// the deferred activations.
pub open spec fn room_in(ready: Seq<usize>, timers: Seq<Timer>, task: usize) -> bool {
    pending_count(ready, timers, task) < task_table_spec()[task as int].capacity
}

/// The ready queue after queueing `task`, which is refused when the task
/// has no capacity left.
pub open spec fn spawn_in(ready: Seq<usize>, timers: Seq<Timer>, task: usize) -> Seq<usize> {
    if room_in(ready, timers, task) {
        ready.push(task)
    } else {
        ready
    }
}

/// The deferred activations after deferring `task` to `deadline`, which is
/// refused when the task has no capacity left.
pub open spec fn defer_in(ready: Seq<usize>, timers: Seq<Timer>, task: usize, deadline: u32) -> Seq<
    Timer,
> {
    if room_in(ready, timers, task) {
        timers.push(Timer { deadline, task })
    } else {
        timers
    }
}

/// The ready queue after queueing `task`.
pub open spec fn ready_after_spawn(s: &Scheduler, task: usize) -> Seq<usize> {
    spawn_in(s.ready@, s.timers@, task)
}

/// Whether `task` can take one more activation.
pub open spec fn has_room(s: &Scheduler, task: usize) -> bool {
    room_in(s.ready@, s.timers@, task)
}

/// The deferred activations after deferring `task` to `deadline`.
pub open spec fn timers_after_defer(s: &Scheduler, task: usize, deadline: u32) -> Seq<Timer> {
    defer_in(s.ready@, s.timers@, task, deadline)
}

/// The ready queue after qualifying input at `now` reaches display `d`:
/// the ramp is queued when the display starts waking from asleep.
pub open spec fn wake_ready(s: &Scheduler, d: DisplayPower, now: u32) -> Seq<usize> {
    if on_input_spec(d, now).1.start_ramp {
        ready_after_spawn(s, TASK_RAMP)
    } else {
        s.ready@
    }
}

/// The deferred activations after qualifying input at `now` reaches
/// display `d`: the inactivity poll is deferred by one poll interval when
/// the display starts waking.
pub open spec fn wake_timers(s: &Scheduler, d: DisplayPower, now: u32) -> Seq<Timer> {
    if on_input_spec(d, now).1.start_poll {
        defer_in(
            wake_ready(s, d, now),
            s.timers@,
            TASK_POLL_DISPLAY,
            instant_after(now, DISPLAY_TIMEOUT_POLL_TICKS as int),
        )
    } else {
        s.timers@
    }
}

/// The scroll animation after a touch report with `gesture`: while the
/// screen is on, a slide up or down starts the matching animation unless
/// one is running.
pub open spec fn scroll_after_touch(s: ScrollAnimation, screen_on: bool, gesture: Option<Gesture>) -> ScrollAnimation {
    if screen_on && s.in_progress is None && gesture == Some(Gesture::SlideUp) {
        ScrollAnimation { in_progress: Some(RefreshDirection::Up), scroll_offset: 0 }
    } else if screen_on && s.in_progress is None && gesture == Some(Gesture::SlideDown) {
        ScrollAnimation { in_progress: Some(RefreshDirection::Down), scroll_offset: VERT_LINES }
    } else {
        s
    }
}

/// Two watch faces in the same state.
pub open spec fn same_face(a: &WatchFace, b: &WatchFace) -> bool {
    &&& a.redraw == b.redraw
    &&& a.shown == b.shown
    &&& a.is_charging == b.is_charging
    &&& a.battery_icon == b.battery_icon
    &&& a.time_text@ == b.time_text@
    &&& a.date_text@ == b.date_text@
}

/// The watch face after a wake that forces a full repaint (`force`) or not:
/// a forced repaint marks every region and the face's content stays.
pub open spec fn face_after_wake(old: WatchFace, new: WatchFace, force: bool) -> bool {
    &&& new.redraw.bits == if force {
        REDRAW_ALL
    } else {
        old.redraw.bits
    }
    &&& new.shown == old.shown
    &&& new.is_charging == old.is_charging
    &&& new.battery_icon == old.battery_icon
    &&& new.time_text@ == old.time_text@
    &&& new.date_text@ == old.date_text@
}

/// Every shared resource but the scheduler and the button is the same in
/// `a` and `b`.
pub open spec fn same_resources(a: &Firmware, b: &Firmware) -> bool {
    &&& a.clock_deadline == b.clock_deadline
    &&& a.system_time == b.system_time
    &&& a.display == b.display
    &&& a.scroll == b.scroll
    &&& a.battery == b.battery
    &&& a.motor == b.motor
    &&& a.touch.buffer@ == b.touch.buffer@
    &&& same_face(&a.watch_face, &b.watch_face)
}

/// The tasks that boot queues are dispatched, each after the one before
/// has run: the backlight ramp (priority 6), then the clock, voltage and
/// screen tasks in the order queued (priority 5), then the watchdog
/// (priority 4).
pub proof fn lemma_boot_dispatch_order()
    ensures
        ({
            let t = task_table_spec();
            let q0 = seq![TASK_WATCHDOG, TASK_SYSTEM_TIME, TASK_BATTERY_VOLTAGE, TASK_DRAW, TASK_RAMP];
            let q1 = seq![TASK_WATCHDOG, TASK_SYSTEM_TIME, TASK_BATTERY_VOLTAGE, TASK_DRAW];
            let q2 = seq![TASK_WATCHDOG, TASK_BATTERY_VOLTAGE, TASK_DRAW];
            let q3 = seq![TASK_WATCHDOG, TASK_DRAW];
            let q4 = seq![TASK_WATCHDOG];
            &&& best_index(q0, t, 5) == 4 && q0.remove(4) == q1
            &&& best_index(q1, t, 4) == 1 && q1.remove(1) == q2
            &&& best_index(q2, t, 3) == 1 && q2.remove(1) == q3
            &&& best_index(q3, t, 2) == 1 && q3.remove(1) == q4
            &&& best_index(q4, t, 1) == 0
        }),
{
    reveal_with_fuel(best_index, 6);
    let q0 = seq![TASK_WATCHDOG, TASK_SYSTEM_TIME, TASK_BATTERY_VOLTAGE, TASK_DRAW, TASK_RAMP];
    let q1 = seq![TASK_WATCHDOG, TASK_SYSTEM_TIME, TASK_BATTERY_VOLTAGE, TASK_DRAW];
    let q2 = seq![TASK_WATCHDOG, TASK_BATTERY_VOLTAGE, TASK_DRAW];
    let q3 = seq![TASK_WATCHDOG, TASK_DRAW];
    assert(q0.remove(4) =~= q1);
    assert(q1.remove(1) =~= q2);
    assert(q2.remove(1) =~= q3);
    assert(q3.remove(1) =~= seq![TASK_WATCHDOG]);
}

/// What a screen refresh is to show.
#[derive(Clone, Copy, Debug, PartialEq, Eq, Structural)]
pub struct DrawFrame {
    /// Scroll offset of this animation frame, if an animation runs.
    pub scroll_offset: Option<u16>,
    /// Whether the watch face is to be drawn (the display is on).
    pub draw_face: bool,
}

/// The shared resources of the task set, and the scheduler that runs it.
pub struct Firmware {
    pub scheduler: Scheduler,
    pub clock_deadline: u32,
    pub system_time: SystemTime,
    pub button: Button,
    pub touch: Cst816s,
    pub display: DisplayPower,
    pub scroll: ScrollAnimation,
    pub battery: BatteryController,
    pub motor: MotorController,
    pub watch_face: WatchFace,
}

impl Firmware {
    /// The scheduler runs the task table and every resource is well formed.
    pub open spec fn wf(&self) -> bool {
        &&& self.scheduler.wf()
        &&& self.scheduler.tasks@ == task_table_spec()
        &&& self.display.wf()
        &&& self.scroll.wf()
        &&& self.battery.wf()
        &&& self.motor.wf()
        &&& self.watch_face.wf()
    }

    /// Queues `task` now; a refusal (capacity exhausted) is dropped.
    fn spawn_now(&mut self, task: usize)
        requires
            old(self).wf(),
            task < 12,
        ensures
            final(self).wf(),
            final(self).scheduler.timers@ == old(self).scheduler.timers@,
            final(self).scheduler.ready@ == if pending_count(
                old(self).scheduler.ready@,
                old(self).scheduler.timers@,
                task,
            ) < task_table_spec()[task as int].capacity {
                old(self).scheduler.ready@.push(task)
            } else {
                old(self).scheduler.ready@
            },
            same_resources(&*final(self), &*old(self)),
            final(self).button == old(self).button,
    {
        let _ = self.scheduler.spawn(task);
    }

    /// Defers `task` to the instant `deadline`.
    fn spawn_at(&mut self, task: usize, deadline: u32) -> (r: Result<(), SpawnError>)
        requires
            old(self).wf(),
            task < 12,
        ensures
            final(self).wf(),
            final(self).scheduler.ready@ == old(self).scheduler.ready@,
            r is Ok <==> has_room(&old(self).scheduler, task),
            final(self).scheduler.timers@ == timers_after_defer(&old(self).scheduler, task, deadline),
            same_resources(&*final(self), &*old(self)),
            final(self).button == old(self).button,
    {
        self.scheduler.spawn_at(task, deadline)
    }

    /// Defers `task` by `ticks` from `now`.
    fn spawn_later(&mut self, task: usize, now: u32, ticks: u32) -> (r: Result<(), SpawnError>)
        requires
            old(self).wf(),
            task < 12,
        ensures
            final(self).wf(),
            final(self).scheduler.ready@ == old(self).scheduler.ready@,
            r is Ok <==> pending_count(old(self).scheduler.ready@, old(self).scheduler.timers@, task)
                < task_table_spec()[task as int].capacity,
            final(self).scheduler.timers@ == if r is Ok {
                old(self).scheduler.timers@.push(
                    Timer { deadline: instant_after(now, ticks as int), task },
                )
            } else {
                old(self).scheduler.timers@
            },
            same_resources(&*final(self), &*old(self)),
            final(self).button == old(self).button,
    {
        self.scheduler.spawn_after(task, now, ticks)
    }

    /// The resources at boot, with the scheduler's table loaded and nothing
    /// queued: time zero, button released, display asleep and dark, battery
    /// unknown, motor stopped, watch face to be fully drawn.
    pub fn new() -> (r: Self)
        ensures
            r.wf(),
            r.scheduler.ready@.len() == 0,
            r.scheduler.timers@.len() == 0,
            r.system_time == SystemTime::new_spec(),
            r.display.state == crate::display::DisplayState::Asleep,
    {
        let table = task_table();
        proof {
            reveal_with_fuel(config_error, 13);
        }
        let scheduler = Scheduler::new(table).unwrap();
        Firmware {
            scheduler,
            clock_deadline: 0,
            system_time: SystemTime::new(),
            button: Button::new(),
            touch: Cst816s::new(),
            display: DisplayPower::new(),
            scroll: ScrollAnimation::new(),
            battery: BatteryController::new(),
            motor: MotorController::new(),
            watch_face: WatchFace::new(),
        }
    }

    /// Boot: takes the first battery readings, queues the watchdog, clock,
    /// voltage and screen tasks, and wakes the display at `now`.
    pub fn boot(&mut self, now: u32, charge_line_low: bool, power_line_low: bool, sample: Option<i16>)
        requires
            old(self).wf(),
            old(self).scheduler.ready@.len() == 0,
            old(self).scheduler.timers@.len() == 0,
            old(self).display.state == crate::display::DisplayState::Asleep,
        ensures
            final(self).wf(),
            final(self).scheduler.ready@ == seq![
                TASK_WATCHDOG,
                TASK_SYSTEM_TIME,
                TASK_BATTERY_VOLTAGE,
                TASK_DRAW,
                TASK_RAMP,
            ],
            final(self).scheduler.timers@ == seq![
                Timer {
                    deadline: instant_after(now, DISPLAY_TIMEOUT_POLL_TICKS as int),
                    task: TASK_POLL_DISPLAY,
                },
            ],
            final(self).display == on_input_spec(old(self).display, now).0,
            final(self).battery.charging == charge_line_low,
            final(self).battery.power_present == power_line_low,
            final(self).clock_deadline == now,
    {
        self.battery.update(charge_line_low, power_line_low, sample);
        self.clock_deadline = now;
        self.spawn_now(TASK_WATCHDOG);
        self.spawn_now(TASK_SYSTEM_TIME);
        self.spawn_now(TASK_BATTERY_VOLTAGE);
        self.spawn_now(TASK_DRAW);
        assert(self.scheduler.ready@ =~= seq![
            TASK_WATCHDOG,
            TASK_SYSTEM_TIME,
            TASK_BATTERY_VOLTAGE,
            TASK_DRAW,
        ]);
        assert(self.scheduler.ready@.to_multiset().count(TASK_RAMP) == 0) by {
            assert(!self.scheduler.ready@.contains(TASK_RAMP));
        }
        assert(crate::scheduler::timer_tasks(self.scheduler.timers@) =~= vstd::multiset::Multiset::empty());
        assert(self.scheduler.ready@.to_multiset().count(TASK_POLL_DISPLAY) == 0) by {
            assert(!self.scheduler.ready@.contains(TASK_POLL_DISPLAY));
        }
        self.wake(now);
        assert(self.scheduler.ready@ =~= seq![
            TASK_WATCHDOG,
            TASK_SYSTEM_TIME,
            TASK_BATTERY_VOLTAGE,
            TASK_DRAW,
            TASK_RAMP,
        ]);
    }

    /// Qualifying input at `now`: the display wakes or has its deadline
    /// re-armed; a wake starts the ramp, the inactivity poll one second
    /// later, and a full repaint, as the display asks.
    pub fn wake(&mut self, now: u32)
        requires
            old(self).wf(),
        ensures
            final(self).wf(),
            final(self).display == on_input_spec(old(self).display, now).0,
            final(self).scheduler.ready@ == wake_ready(&old(self).scheduler, old(self).display, now),
            final(self).scheduler.timers@ == wake_timers(&old(self).scheduler, old(self).display, now),
            face_after_wake(
                old(self).watch_face,
                final(self).watch_face,
                on_input_spec(old(self).display, now).1.force_redraw,
            ),
            final(self).system_time == old(self).system_time,
            final(self).battery == old(self).battery,
            final(self).motor == old(self).motor,
            final(self).clock_deadline == old(self).clock_deadline,
            final(self).button == old(self).button,
            final(self).scroll == old(self).scroll,
            final(self).touch.buffer@ == old(self).touch.buffer@,
    {
        let actions = self.display.on_input(now);
        if actions.start_ramp {
            self.spawn_now(TASK_RAMP);
        }
        if actions.start_poll {
            let _ = self.spawn_later(TASK_POLL_DISPLAY, now, DISPLAY_TIMEOUT_POLL_TICKS);
        }
        if actions.force_redraw {
            self.watch_face.force_redraw();
        }
    }

    /// Pin-change interrupt from the button line: the first edge of a burst
    /// schedules the confirmation check after the settle delay.
    pub fn on_button_edge(&mut self, now: u32)
        requires
            old(self).wf(),
        ensures
            final(self).wf(),
            final(self).button == button_step(old(self).button, ButtonEvent::Edge).0,
            final(self).scheduler.ready@ == old(self).scheduler.ready@,
            same_resources(&*final(self), &*old(self)),
            final(self).scheduler.timers@ == if button_step(old(self).button, ButtonEvent::Edge).1 {
                timers_after_defer(
                    &old(self).scheduler,
                    TASK_POLL_BUTTON,
                    instant_after(now, ticks_of_ms(DEBOUNCE_MS)),
                )
            } else {
                old(self).scheduler.timers@
            },
    {
        if self.button.on_edge() {
            let t = ms_to_ticks(DEBOUNCE_MS);
            let _ = self.spawn_later(TASK_POLL_BUTTON, now, t);
        }
    }

    /// Pin-change interrupt from the touch controller: queues the touch task.
    pub fn on_touch_irq(&mut self)
        requires
            old(self).wf(),
        ensures
            final(self).wf(),
            final(self).scheduler.ready@ == ready_after_spawn(&old(self).scheduler, TASK_TOUCH),
            final(self).scheduler.timers@ == old(self).scheduler.timers@,
            same_resources(&*final(self), &*old(self)),
            final(self).button == old(self).button,
    {
        self.spawn_now(TASK_TOUCH);
    }

    /// Pin-change interrupt from the power-presence line: queues the
    /// charge-line sampling task.
    pub fn on_power_irq(&mut self)
        requires
            old(self).wf(),
        ensures
            final(self).wf(),
            final(self).scheduler.ready@ == ready_after_spawn(&old(self).scheduler, TASK_BATTERY_IO),
            final(self).scheduler.timers@ == old(self).scheduler.timers@,
            same_resources(&*final(self), &*old(self)),
            final(self).button == old(self).button,
    {
        self.spawn_now(TASK_BATTERY_IO);
    }

    /// The watchdog task: re-arms itself after the pet interval and returns
    /// whether to pet the watchdog, which it does unless the button line is
    /// held asserted. Fails when the task cannot be re-armed.
    pub fn run_watchdog(&mut self, now: u32, button_line_high: bool) -> (r: Result<bool, SpawnError>)
        requires
            old(self).wf(),
        ensures
            final(self).wf(),
            r is Ok <==> has_room(&old(self).scheduler, TASK_WATCHDOG),
            r is Ok ==> r == Ok::<bool, SpawnError>(!button_line_high),
            final(self).scheduler.timers@ == timers_after_defer(
                &old(self).scheduler,
                TASK_WATCHDOG,
                instant_after(now, ticks_of_ms(PET_INTERVAL_MS)),
            ),
            final(self).scheduler.ready@ == old(self).scheduler.ready@,
            same_resources(&*final(self), &*old(self)),
            final(self).button == old(self).button,
    {
        let pet = should_pet(button_line_high);
        let t = ms_to_ticks(PET_INTERVAL_MS);
        match self.spawn_later(TASK_WATCHDOG, now, t) {
            Ok(()) => Ok(pet),
            Err(e) => Err(e),
        }
    }

    /// The wall-clock task: counts the seconds elapsed up to `now` and
    /// re-arms itself one second after its previous deadline, so that
    /// dispatch delays do not shift its cadence. Fails when the task cannot
    /// be re-armed. The clock stops short of the end of its range.
    pub fn run_update_system_time(&mut self, now: u32) -> (r: Result<(), SpawnError>)
        requires
            old(self).wf(),
        ensures
            final(self).wf(),
            old(self).system_time.uptime < u32::MAX - 0x40_0000 && old(self).system_time.date_time.secs
                < i64::MAX - 0x40_0000 ==> final(self).system_time == crate::system_time::advance_spec(
                old(self).system_time,
                now,
            ),
            r is Ok <==> has_room(&old(self).scheduler, TASK_SYSTEM_TIME),
            final(self).scheduler.timers@ == timers_after_defer(
                &old(self).scheduler,
                TASK_SYSTEM_TIME,
                instant_after(old(self).clock_deadline, TICK_RATE_HZ as int),
            ),
            final(self).clock_deadline == if r is Ok {
                instant_after(old(self).clock_deadline, TICK_RATE_HZ as int)
            } else {
                old(self).clock_deadline
            },
            final(self).scheduler.ready@ == old(self).scheduler.ready@,
    {
        if self.system_time.uptime < u32::MAX - 0x40_0000 && self.system_time.date_time.secs
            < i64::MAX - 0x40_0000 {
            proof {
                let e = crate::system_time::pending_ticks(self.system_time, now);
                assert(e < 0x1_0000_0000);
                assert(crate::system_time::whole_seconds(e) <= 0x40_0000);
            }
            self.system_time.update_time(now);
        }
        let next = advance_instant(self.clock_deadline, TICK_RATE_HZ);
        let r = self.spawn_at(TASK_SYSTEM_TIME, next);
        if r.is_ok() {
            self.clock_deadline = next;
        }
        r
    }

    /// The button check: confirms a press if the line is still asserted,
    /// and then queues the press handler.
    pub fn run_poll_button(&mut self, line_high: bool)
        requires
            old(self).wf(),
        ensures
            final(self).wf(),
            final(self).button == button_step(old(self).button, ButtonEvent::Check(line_high)).0,
            final(self).scheduler.ready@ == if button_step(
                old(self).button,
                ButtonEvent::Check(line_high),
            ).2 {
                ready_after_spawn(&old(self).scheduler, TASK_BUTTON_PRESSED)
            } else {
                old(self).scheduler.ready@
            },
            final(self).scheduler.timers@ == old(self).scheduler.timers@,
            same_resources(&*final(self), &*old(self)),
    {
        if self.button.confirm(line_high) {
            self.spawn_now(TASK_BUTTON_PRESSED);
        }
    }

    /// A confirmed button press: wakes the display.
    pub fn run_button_pressed(&mut self, now: u32)
        requires
            old(self).wf(),
        ensures
            final(self).wf(),
            final(self).display == on_input_spec(old(self).display, now).0,
            final(self).scheduler.ready@ == wake_ready(&old(self).scheduler, old(self).display, now),
            final(self).scheduler.timers@ == wake_timers(&old(self).scheduler, old(self).display, now),
            face_after_wake(
                old(self).watch_face,
                final(self).watch_face,
                on_input_spec(old(self).display, now).1.force_redraw,
            ),
            final(self).button == old(self).button,
            final(self).battery == old(self).battery,
            final(self).motor == old(self).motor,
            final(self).system_time == old(self).system_time,
    {
        self.wake(now);
    }

    /// The touch task, with the outcome of reading a report (`None` for no
    /// report). A report wakes the display; while the screen is on, a slide
    /// up or down also starts the matching scroll animation. Unknown gesture
    /// codes only wake.
    pub fn run_touch(&mut self, now: u32, report: Option<[u8; 7]>)
        requires
            old(self).wf(),
        ensures
            final(self).wf(),
            report is None ==> final(self).display == old(self).display && final(self).scroll
                == old(self).scroll && final(self).scheduler.ready@ == old(self).scheduler.ready@
                && final(self).scheduler.timers@ == old(self).scheduler.timers@,
            report is Some ==> final(self).display == on_input_spec(old(self).display, now).0,
            report is Some ==> final(self).scroll == scroll_after_touch(
                old(self).scroll,
                old(self).display.state == DisplayState::Waking || old(self).display.state
                    == DisplayState::Awake,
                touch_of_report(report.unwrap()@).gesture,
            ),
            report is Some ==> final(self).scheduler.ready@ == wake_ready(
                &old(self).scheduler,
                old(self).display,
                now,
            ) && final(self).scheduler.timers@ == wake_timers(
                &old(self).scheduler,
                old(self).display,
                now,
            ) && face_after_wake(
                old(self).watch_face,
                final(self).watch_face,
                on_input_spec(old(self).display, now).1.force_redraw,
            ),
            report is None ==> same_face(&final(self).watch_face, &old(self).watch_face),
            final(self).button == old(self).button,
            final(self).battery == old(self).battery,
            final(self).motor == old(self).motor,
            final(self).system_time == old(self).system_time,
    {
        let awake = self.display.is_awake();
        match self.touch.read_touch_data(report) {
            None => {},
            Some(data) => {
                if awake {
                    match data.gesture {
                        Some(Gesture::SlideUp) => self.scroll.set_refresh_direction(RefreshDirection::Up),
                        Some(Gesture::SlideDown) => self.scroll.set_refresh_direction(
                            RefreshDirection::Down,
                        ),
                        _ => {},
                    }
                }
                self.wake(now);
            },
        }
    }

    /// One backlight ramp step; re-arms itself after the step interval
    /// while the ramp goes on. Fails when the task cannot be re-armed.
    pub fn run_ramp(&mut self, now: u32) -> (r: Result<(), SpawnError>)
        requires
            old(self).wf(),
        ensures
            final(self).wf(),
            final(self).display == ramp_step_spec(old(self).display).0,
            ramp_step_spec(old(self).display).1 ==> final(self).scheduler.timers@
                == timers_after_defer(
                &old(self).scheduler,
                TASK_RAMP,
                instant_after(now, ticks_of_ms(RAMP_STEP_MS)),
            ) && (r is Ok <==> has_room(&old(self).scheduler, TASK_RAMP)),
            !ramp_step_spec(old(self).display).1 ==> final(self).scheduler.timers@ == old(
                self,
            ).scheduler.timers@ && r is Ok,
            final(self).scheduler.ready@ == old(self).scheduler.ready@,
    {
        if self.display.ramp_step() {
            let t = ms_to_ticks(RAMP_STEP_MS);
            self.spawn_later(TASK_RAMP, now, t)
        } else {
            Ok(())
        }
    }

    /// The inactivity poll: an expired deadline starts the ramp down;
    /// otherwise the poll re-arms itself one second later while the display
    /// is on. Fails when the poll cannot be re-armed.
    pub fn run_poll_display(&mut self, now: u32) -> (r: Result<(), SpawnError>)
        requires
            old(self).wf(),
        ensures
            final(self).wf(),
            final(self).display == poll_spec(old(self).display, now).0,
            poll_spec(old(self).display, now).1.start_ramp ==> final(self).scheduler.ready@
                == ready_after_spawn(&old(self).scheduler, TASK_RAMP),
            !poll_spec(old(self).display, now).1.start_ramp ==> final(self).scheduler.ready@
                == old(self).scheduler.ready@,
            poll_spec(old(self).display, now).1.poll_again ==> final(self).scheduler.timers@
                == timers_after_defer(
                &old(self).scheduler,
                TASK_POLL_DISPLAY,
                instant_after(now, DISPLAY_TIMEOUT_POLL_TICKS as int),
            ) && (r is Ok <==> has_room(&old(self).scheduler, TASK_POLL_DISPLAY)),
            !poll_spec(old(self).display, now).1.poll_again ==> final(self).scheduler.timers@
                == old(self).scheduler.timers@ && r is Ok,
    {
        let outcome = self.display.poll_timeout(now);
        if outcome.start_ramp {
            self.spawn_now(TASK_RAMP);
        }
        if outcome.poll_again {
            self.spawn_later(TASK_POLL_DISPLAY, now, DISPLAY_TIMEOUT_POLL_TICKS)
        } else {
            Ok(())
        }
    }

    /// The charge-line task, with the levels of the charge-indication and
    /// power-presence lines (`true` for low). A change of power presence
    /// wakes the display and schedules a haptic pulse after the debounce
    /// delay. Returns whether power presence changed.
    pub fn run_battery_io(&mut self, now: u32, charge_line_low: bool, power_line_low: bool) -> (r: bool)
        requires
            old(self).wf(),
        ensures
            final(self).wf(),
            r == (power_line_low != old(self).battery.power_present),
            final(self).battery.charging == charge_line_low,
            final(self).battery.power_present == power_line_low,
            final(self).battery.voltage == old(self).battery.voltage,
            r ==> final(self).display == on_input_spec(old(self).display, now).0,
            !r ==> final(self).display == old(self).display && final(self).scheduler.ready@ == old(
                self,
            ).scheduler.ready@ && final(self).scheduler.timers@ == old(self).scheduler.timers@,
            r ==> final(self).scheduler.ready@ == wake_ready(&old(self).scheduler, old(self).display, now),
            r ==> final(self).scheduler.timers@ == defer_in(
                wake_ready(&old(self).scheduler, old(self).display, now),
                wake_timers(&old(self).scheduler, old(self).display, now),
                TASK_START_RING,
                instant_after(now, ticks_of_ms(POWER_PRESENCE_DEBOUNCE_MS)),
            ),
            final(self).battery.percent_remaining == old(self).battery.percent_remaining,
            final(self).motor == old(self).motor,
            final(self).system_time == old(self).system_time,
            final(self).button == old(self).button,
    {
        let changed = self.battery.update_charging_io(charge_line_low, power_line_low);
        if changed {
            self.wake(now);
            let t = ms_to_ticks(POWER_PRESENCE_DEBOUNCE_MS);
            let _ = self.spawn_later(TASK_START_RING, now, t);
        }
        changed
    }

    /// The voltage task, with the ADC sample (`None` when not ready):
    /// updates voltage and percentage and re-arms itself after the poll
    /// interval. Returns whether the voltage changed (a redraw request), or
    /// fails when the task cannot be re-armed.
    pub fn run_battery_voltage(&mut self, now: u32, sample: Option<i16>) -> (r: Result<bool, SpawnError>)
        requires
            old(self).wf(),
        ensures
            final(self).wf(),
            sample is None ==> final(self).battery == old(self).battery,
            sample is Some ==> final(self).battery.voltage.0 == crate::battery::millivolts_of_raw(
                if sample.unwrap() < 0 { 0 } else { sample.unwrap() as u32 },
            ),
            final(self).battery.charging == old(self).battery.charging,
            final(self).battery.power_present == old(self).battery.power_present,
            r is Ok <==> has_room(&old(self).scheduler, TASK_BATTERY_VOLTAGE),
            r is Ok ==> r == Ok::<bool, SpawnError>(final(self).battery.voltage != old(self).battery.voltage),
            final(self).scheduler.timers@ == timers_after_defer(
                &old(self).scheduler,
                TASK_BATTERY_VOLTAGE,
                instant_after(now, ticks_of_ms(VOLTAGE_POLL_INTERVAL_MS)),
            ),
    {
        let changed = self.battery.update_voltage(sample);
        let t = ms_to_ticks(VOLTAGE_POLL_INTERVAL_MS);
        match self.spawn_later(TASK_BATTERY_VOLTAGE, now, t) {
            Ok(()) => Ok(changed),
            Err(e) => Err(e),
        }
    }

    /// Starts the haptic pulse of a charge event unless one runs, and
    /// schedules its end.
    pub fn run_start_ring(&mut self, now: u32)
        requires
            old(self).wf(),
        ensures
            final(self).wf(),
            final(self).motor.is_on,
            old(self).motor.is_on ==> final(self).scheduler.timers@ == old(self).scheduler.timers@,
            !old(self).motor.is_on ==> final(self).scheduler.timers@ == timers_after_defer(
                &old(self).scheduler,
                TASK_STOP_RING,
                instant_after(now, ticks_of_ms(CHARGE_EVENT_RING_DURATION_MS)),
            ),
    {
        match self.motor.start_ring(CHARGE_EVENT_RING_DURATION_MS) {
            Some(d) => {
                let t = ms_to_ticks(d);
                let _ = self.spawn_later(TASK_STOP_RING, now, t);
            },
            None => {},
        }
    }

    /// Ends the haptic pulse.
    pub fn run_stop_ring(&mut self)
        requires
            old(self).wf(),
        ensures
            final(self).wf(),
            !final(self).motor.is_on,
    {
        self.motor.stop_ring();
    }

    /// The screen refresh: advances the scroll animation and, while the
    /// display is on, brings the watch face up to date; re-arms itself
    /// after the refresh interval. After drawing the marked regions the
    /// caller clears the watch face's redraw flags. Fails when the task
    /// cannot be re-armed.
    pub fn run_draw(&mut self, now: u32) -> (r: Result<DrawFrame, SpawnError>)
        requires
            old(self).wf(),
        ensures
            final(self).wf(),
            r is Ok <==> has_room(&old(self).scheduler, TASK_DRAW),
            r is Ok ==> r->Ok_0.draw_face == (old(self).display.state
                == crate::display::DisplayState::Waking || old(self).display.state
                == crate::display::DisplayState::Awake),
            r is Ok ==> r->Ok_0.scroll_offset == (if old(self).scroll.in_progress is Some {
                Some(old(self).scroll.scroll_offset)
            } else {
                None
            }),
            final(self).scheduler.timers@ == timers_after_defer(
                &old(self).scheduler,
                TASK_DRAW,
                instant_after(now, ticks_of_ms(SCREEN_REFRESH_INTERVAL_MS)),
            ),
            old(self).display.state == DisplayState::Waking || old(self).display.state
                == DisplayState::Awake ==> face_after_update(
                old(self).watch_face,
                final(self).watch_face,
                old(self).system_time.date_time,
                old(self).battery.percent_remaining,
                old(self).battery.charging || old(self).battery.power_present,
            ),
            (old(self).display.state == DisplayState::Waking || old(self).display.state
                == DisplayState::Awake) && 0 <= old(self).system_time.date_time.secs
                < 0x100_0000_0000 ==> civil_of(old(self).system_time.date_time.secs) is Some,
            !(old(self).display.state == DisplayState::Waking || old(self).display.state
                == DisplayState::Awake) ==> final(self).watch_face.redraw == old(self).watch_face.redraw
                && final(self).watch_face.time_text@ == old(self).watch_face.time_text@
                && final(self).watch_face.date_text@ == old(self).watch_face.date_text@,
            old(self).scroll.in_progress is None ==> final(self).scroll == old(self).scroll,
    {
        let scroll_offset = self.scroll.update_animations();
        let draw_face = self.display.is_awake();
        if draw_face {
            let dt = self.system_time.date_time();
            let percent = self.battery.percent_remaining();
            let charging = self.battery.is_charging();
            self.watch_face.update(dt, percent, charging);
        }
        let t = ms_to_ticks(SCREEN_REFRESH_INTERVAL_MS);
        match self.spawn_later(TASK_DRAW, now, t) {
            Ok(()) => Ok(DrawFrame { scroll_offset, draw_face }),
            Err(e) => Err(e),
        }
    }
}

} // verus!
