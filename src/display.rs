//! Display power: the sleep/wake cycle of screen and backlight driven by an
//! inactivity deadline, the stepped backlight ramps, and the scroll
//! animation played when the screen is refreshed by a slide gesture.
use vstd::prelude::*;

use crate::backlight::{level, Backlight, Brightness};
use crate::clock::{
    advance_instant, checked_duration_since, forward_distance, instant_after, is_at_or_after,
    lemma_distance_between_instants, tick_modulus,
};

verus! {

/// Screen width in pixels.
pub const WIDTH: u16 = 240;

/// Screen height in pixels.
pub const HEIGHT: u16 = 240;

/// Lines of the display controller's frame memory.
pub const VERT_LINES: u16 = 320;

/// Lines scrolled per animation frame.
pub const SCROLL_DELTA: u16 = 16;

/// Seconds without qualifying input before the display goes to sleep.
pub const DISPLAY_TIMEOUT_SECS: u32 = 5;

/// Inactivity timeout in ticks.
pub const DISPLAY_TIMEOUT_TICKS: u32 = 5 * 1024;

/// Interval of the inactivity poll in ticks (one second).
pub const DISPLAY_TIMEOUT_POLL_TICKS: u32 = 1024;

/// Interval between two backlight ramp steps, in milliseconds.
pub const RAMP_STEP_MS: u32 = 25;

/// Interval between two screen refreshes, in milliseconds.
pub const SCREEN_REFRESH_INTERVAL_MS: u32 = 20;

/// Ramp steps from off to the brightest level, and back.
pub const RAMP_STEPS: u32 = 7;

/// Direction of the scroll animation of a screen refresh.
#[derive(Clone, Copy, Debug, PartialEq, Eq, Structural, Hash)]
pub enum RefreshDirection {
    Up,
    Down,
}

/// The scroll animation: the direction in progress, if any, and the current
/// scroll offset.
#[derive(Clone, Copy, Debug, PartialEq, Eq, Structural)]
pub struct ScrollAnimation {
    pub in_progress: Option<RefreshDirection>,
    pub scroll_offset: u16,
}

impl ScrollAnimation {
    /// The offset stays within the frame memory.
    pub open spec fn wf(&self) -> bool {
        self.scroll_offset <= VERT_LINES
    }

    /// No animation, offset 0.
    pub fn new() -> (r: Self)
        ensures
            r.wf(),
            r.in_progress is None,
            r.scroll_offset == 0,
    {
        ScrollAnimation { in_progress: None, scroll_offset: 0 }
    }

    /// Starts an animation in `dir` unless one is in progress (a running
    /// animation runs to completion): upward from offset 0, downward from
    /// the last line.
    pub fn set_refresh_direction(&mut self, dir: RefreshDirection)
        requires
            old(self).wf(),
        ensures
            final(self).wf(),
            old(self).in_progress is Some ==> *final(self) == *old(self),
            old(self).in_progress is None ==> *final(self) == (ScrollAnimation {
                in_progress: Some(dir),
                scroll_offset: if dir == RefreshDirection::Up { 0 } else { VERT_LINES },
            }),
    {
        if self.in_progress.is_none() {
            self.in_progress = Some(dir);
            self.scroll_offset = match dir {
                RefreshDirection::Up => 0,
                RefreshDirection::Down => VERT_LINES,
            };
        }
    }

    /// Advances the animation by one frame. Returns the scroll offset to
    /// show in this frame, or `None` when no animation is in progress. The
    /// offset moves by `SCROLL_DELTA` lines; the animation ends when it comes
    /// to the last line (going down, by wrapping past the first line).
    pub fn update_animations(&mut self) -> (r: Option<u16>)
        requires
            old(self).wf(),
        ensures
            final(self).wf(),
            old(self).in_progress is None ==> r is None && *final(self) == *old(self),
            old(self).in_progress is Some ==> r == Some(old(self).scroll_offset),
            old(self).in_progress == Some(RefreshDirection::Up) ==> final(self).scroll_offset == (
                if old(self).scroll_offset + SCROLL_DELTA >= VERT_LINES {
                    VERT_LINES as int
                } else {
                    old(self).scroll_offset + SCROLL_DELTA
                }),
            old(self).in_progress == Some(RefreshDirection::Down) ==> final(self).scroll_offset == (
                if old(self).scroll_offset >= SCROLL_DELTA {
                    old(self).scroll_offset - SCROLL_DELTA
                } else {
                    VERT_LINES as int
                }),
            old(self).in_progress is Some ==> (final(self).in_progress is None
                <==> final(self).scroll_offset == VERT_LINES),
            old(self).in_progress is Some && final(self).in_progress is Some
                ==> final(self).in_progress == old(self).in_progress,
    {
        match self.in_progress {
            Some(RefreshDirection::Up) => {
                let shown = self.scroll_offset;
                let next = self.scroll_offset + SCROLL_DELTA;
                self.scroll_offset = if next > VERT_LINES {
                    VERT_LINES
                } else {
                    next
                };
                if self.scroll_offset == VERT_LINES {
                    self.in_progress = None;
                }
                Some(shown)
            },
            Some(RefreshDirection::Down) => {
                let shown = self.scroll_offset;
                self.scroll_offset = if self.scroll_offset >= SCROLL_DELTA {
                    self.scroll_offset - SCROLL_DELTA
                } else {
                    VERT_LINES
                };
                if self.scroll_offset == VERT_LINES {
                    self.in_progress = None;
                }
                Some(shown)
            },
            None => None,
        }
    }
}

/// Whether the display is awake, as shared between the input, timeout and
/// drawing tasks.
#[derive(Clone, Copy, Debug, PartialEq, Eq, Structural)]
pub struct AtomicDisplayAwakeState {
    pub awake: bool,
}

impl AtomicDisplayAwakeState {
    /// A state holding `initial_state`.
    pub fn new(initial_state: bool) -> (r: Self)
        ensures
            r.awake == initial_state,
    {
        AtomicDisplayAwakeState { awake: initial_state }
    }

    /// Marks the display awake.
    pub fn awaken(&mut self)
        ensures
            final(self).awake,
    {
        self.awake = true;
    }

    /// Whether the display is awake.
    pub fn is_awake(&self) -> (r: bool)
        ensures
            r == self.awake,
    {
        self.awake
    }

    /// Marks the display asleep and returns whether it was awake.
    pub fn get_and_clear(&mut self) -> (r: bool)
        ensures
            r == old(self).awake,
            !final(self).awake,
    {
        let was = self.awake;
        self.awake = false;
        was
    }
}

/// Power state of screen and backlight.
#[derive(Clone, Copy, Debug, PartialEq, Eq, Structural)]
pub enum DisplayState {
    /// Screen and backlight off.
    Asleep,
    /// Backlight ramping up.
    Waking,
    /// Fully lit; the inactivity deadline is armed.
    Awake,
    /// Backlight ramping down.
    Sleeping,
}

/// What the runtime is to start after qualifying input.
#[derive(Clone, Copy, Debug, PartialEq, Eq, Structural)]
pub struct WakeActions {
    /// Start the backlight ramp (none is running).
    pub start_ramp: bool,
    /// Start the periodic inactivity poll (none is running).
    pub start_poll: bool,
    /// Repaint the whole screen.
    pub force_redraw: bool,
}

/// What the runtime is to do after an inactivity poll.
#[derive(Clone, Copy, Debug, PartialEq, Eq, Structural)]
pub struct PollOutcome {
    /// Start the backlight ramp down.
    pub start_ramp: bool,
    /// Poll again after the poll interval.
    pub poll_again: bool,
}

/// The display's power state, its backlight, and the inactivity deadline.
#[derive(Clone, Copy, Debug, PartialEq, Eq, Structural)]
pub struct DisplayPower {
    pub state: DisplayState,
    pub backlight: Backlight,
    pub deadline: u32,
}

/// The effect of qualifying input (a confirmed press, a touch event, a
/// change of charge state) at `now`: the deadline is re-armed, and a display
/// that is asleep or going to sleep starts waking.
pub open spec fn on_input_spec(d: DisplayPower, now: u32) -> (DisplayPower, WakeActions) {
    let deadline = instant_after(now, DISPLAY_TIMEOUT_TICKS as int);
    match d.state {
        DisplayState::Asleep => (
            DisplayPower { state: DisplayState::Waking, deadline, ..d },
            WakeActions { start_ramp: true, start_poll: true, force_redraw: true },
        ),
        DisplayState::Sleeping => (
            DisplayPower { state: DisplayState::Waking, deadline, ..d },
            WakeActions { start_ramp: false, start_poll: true, force_redraw: true },
        ),
        _ => (
            DisplayPower { deadline, ..d },
            WakeActions { start_ramp: false, start_poll: false, force_redraw: false },
        ),
    }
}

/// One backlight ramp step: one level towards the target of a waking or
/// sleeping display, reaching `Awake` at the brightest level and `Asleep`
/// when off. The flag says whether another step is to follow.
pub open spec fn ramp_step_spec(d: DisplayPower) -> (DisplayPower, bool) {
    match d.state {
        DisplayState::Waking => {
            let b = d.backlight.brightness.brighter_spec();
            if b == Brightness::L7 {
                (DisplayPower { state: DisplayState::Awake, backlight: backlight_at(b), ..d }, false)
            } else {
                (DisplayPower { backlight: backlight_at(b), ..d }, true)
            }
        },
        DisplayState::Sleeping => {
            let b = d.backlight.brightness.darker_spec();
            if b == Brightness::Off {
                (DisplayPower { state: DisplayState::Asleep, backlight: backlight_at(b), ..d }, false)
            } else {
                (DisplayPower { backlight: backlight_at(b), ..d }, true)
            }
        },
        _ => (d, false),
    }
}

/// The inactivity poll at `now`: an awake display whose deadline has come
/// starts going to sleep; polling goes on while the display is awake or
/// waking and stops otherwise.
pub open spec fn poll_spec(d: DisplayPower, now: u32) -> (DisplayPower, PollOutcome) {
    match d.state {
        DisplayState::Awake => if is_at_or_after(now, d.deadline) {
            (
                DisplayPower { state: DisplayState::Sleeping, ..d },
                PollOutcome { start_ramp: true, poll_again: false },
            )
        } else {
            (d, PollOutcome { start_ramp: false, poll_again: true })
        },
        DisplayState::Waking => (d, PollOutcome { start_ramp: false, poll_again: true }),
        _ => (d, PollOutcome { start_ramp: false, poll_again: false }),
    }
}

/// The backlight with its lines set for `b`.
pub open spec fn backlight_at(b: Brightness) -> Backlight {
    Backlight {
        brightness: b,
        low_high: level(b) % 2 == 0,
        mid_high: (level(b) / 2) % 2 == 0,
        high_high: level(b) < 4,
    }
}

/// The display after `n` ramp steps.
pub open spec fn ramp_after(d: DisplayPower, n: nat) -> DisplayPower
    decreases n,
{
    if n == 0 {
        d
    } else {
        ramp_step_spec(ramp_after(d, (n - 1) as nat)).0
    }
}

impl DisplayPower {
    /// The backlight lines match its brightness; an asleep display is dark
    /// and an awake one fully lit.
    pub open spec fn wf(&self) -> bool {
        &&& self.backlight.wf()
        &&& self.state == DisplayState::Asleep ==> self.backlight.brightness == Brightness::Off
        &&& self.state == DisplayState::Awake ==> self.backlight.brightness == Brightness::L7
    }

    /// An asleep display with the backlight off.
    pub fn new() -> (r: Self)
        ensures
            r.wf(),
            r.state == DisplayState::Asleep,
            r.deadline == 0,
    {
        let mut backlight = Backlight::new();
        backlight.off();
        DisplayPower { state: DisplayState::Asleep, backlight, deadline: 0 }
    }

    /// Whether the screen is on (waking or awake).
    pub fn is_awake(&self) -> (r: bool)
        ensures
            r == (self.state == DisplayState::Waking || self.state == DisplayState::Awake),
    {
        match self.state {
            DisplayState::Waking | DisplayState::Awake => true,
            _ => false,
        }
    }

    /// Qualifying input at `now`.
    pub fn on_input(&mut self, now: u32) -> (r: WakeActions)
        requires
            old(self).wf(),
        ensures
            final(self).wf(),
            (*final(self), r) == on_input_spec(*old(self), now),
    {
        self.deadline = advance_instant(now, DISPLAY_TIMEOUT_TICKS);
        match self.state {
            DisplayState::Asleep => {
                self.state = DisplayState::Waking;
                WakeActions { start_ramp: true, start_poll: true, force_redraw: true }
            },
            DisplayState::Sleeping => {
                self.state = DisplayState::Waking;
                WakeActions { start_ramp: false, start_poll: true, force_redraw: true }
            },
            _ => WakeActions { start_ramp: false, start_poll: false, force_redraw: false },
        }
    }

    /// One backlight ramp step. Returns whether another step is to be
    /// scheduled after `RAMP_STEP_MS`.
    pub fn ramp_step(&mut self) -> (r: bool)
        requires
            old(self).wf(),
        ensures
            final(self).wf(),
            (*final(self), r) == ramp_step_spec(*old(self)),
    {
        match self.state {
            DisplayState::Waking => {
                self.backlight.brighter();
                if self.backlight.brightness() == Brightness::L7 {
                    self.state = DisplayState::Awake;
                    false
                } else {
                    true
                }
            },
            DisplayState::Sleeping => {
                self.backlight.darker();
                if self.backlight.brightness() == Brightness::Off {
                    self.state = DisplayState::Asleep;
                    false
                } else {
                    true
                }
            },
            _ => false,
        }
    }

    /// The inactivity poll at `now`.
    pub fn poll_timeout(&mut self, now: u32) -> (r: PollOutcome)
        requires
            old(self).wf(),
        ensures
            final(self).wf(),
            (*final(self), r) == poll_spec(*old(self), now),
    {
        match self.state {
            DisplayState::Awake => {
                if checked_duration_since(now, self.deadline).is_some() {
                    self.state = DisplayState::Sleeping;
                    PollOutcome { start_ramp: true, poll_again: false }
                } else {
                    PollOutcome { start_ramp: false, poll_again: true }
                }
            },
            DisplayState::Waking => PollOutcome { start_ramp: false, poll_again: true },
            _ => PollOutcome { start_ramp: false, poll_again: false },
        }
    }
}

/// A waking display at brightness level `k` reaches `Awake` at the
/// brightest level after exactly `7 - k` ramp steps, each but the last
/// asking for another.
pub proof fn lemma_ramp_up(d: DisplayPower)
    requires
        d.wf(),
        d.state == DisplayState::Waking,
        level(d.backlight.brightness) < 7,
    ensures
        ramp_after(d, (7 - level(d.backlight.brightness)) as nat).state == DisplayState::Awake,
        ramp_after(d, (7 - level(d.backlight.brightness)) as nat).backlight.brightness
            == Brightness::L7,
        ramp_after(d, (7 - level(d.backlight.brightness)) as nat).deadline == d.deadline,
        forall|i: nat|
            i < 7 - level(d.backlight.brightness) ==> (#[trigger] ramp_after(d, i)).state
                == DisplayState::Waking && ramp_step_spec(ramp_after(d, i)).1 == (i + 1 < 7 - level(
                d.backlight.brightness,
            )),
    decreases 7 - level(d.backlight.brightness),
{
    let k = level(d.backlight.brightness);
    let n = (7 - k) as nat;
    let e = ramp_step_spec(d).0;
    if k < 6 {
        lemma_ramp_up(e);
        lemma_ramp_after_first(d, n);
        assert forall|i: nat| i < n implies (#[trigger] ramp_after(d, i)).state == DisplayState::Waking
            && ramp_step_spec(ramp_after(d, i)).1 == (i + 1 < n) by {
            if i > 0 {
                lemma_ramp_after_first(d, i);
                assert(ramp_after(e, (i - 1) as nat) == ramp_after(d, i));
            }
        }
    }
    lemma_ramp_after_first(d, n);
}

/// Taking the first ramp step and then `n - 1` more is taking `n` steps.
proof fn lemma_ramp_after_first(d: DisplayPower, n: nat)
    requires
        n >= 1,
    ensures
        ramp_after(ramp_step_spec(d).0, (n - 1) as nat) == ramp_after(d, n),
    decreases n,
{
    if n > 1 {
        lemma_ramp_after_first(d, (n - 1) as nat);
    }
}

/// A sleeping display at brightness level `k > 0` reaches `Asleep` with the
/// backlight off after exactly `k` ramp steps, each but the last asking for
/// another.
pub proof fn lemma_ramp_down(d: DisplayPower)
    requires
        d.wf(),
        d.state == DisplayState::Sleeping,
        level(d.backlight.brightness) > 0,
    ensures
        ramp_after(d, level(d.backlight.brightness) as nat).state == DisplayState::Asleep,
        ramp_after(d, level(d.backlight.brightness) as nat).backlight.brightness == Brightness::Off,
        forall|i: nat|
            i < level(d.backlight.brightness) ==> (#[trigger] ramp_after(d, i)).state
                == DisplayState::Sleeping && ramp_step_spec(ramp_after(d, i)).1 == (i + 1 < level(
                d.backlight.brightness,
            )),
    decreases level(d.backlight.brightness),
{
    let n = level(d.backlight.brightness) as nat;
    let e = ramp_step_spec(d).0;
    if n > 1 {
        lemma_ramp_down(e);
        assert forall|i: nat| i < n implies (#[trigger] ramp_after(d, i)).state
            == DisplayState::Sleeping && ramp_step_spec(ramp_after(d, i)).1 == (i + 1 < n) by {
            if i > 0 {
                lemma_ramp_after_first(d, i);
            }
        }
    }
    lemma_ramp_after_first(d, n);
}

/// Qualifying input wakes a dark, asleep display: it is waking at once and
/// fully awake after `RAMP_STEPS` ramp steps and not before, with the
/// inactivity deadline `DISPLAY_TIMEOUT_TICKS` after the input.
pub proof fn lemma_input_wakes(d: DisplayPower, now: u32)
    requires
        d.wf(),
        d.state == DisplayState::Asleep,
    ensures
        on_input_spec(d, now).0.state == DisplayState::Waking,
        on_input_spec(d, now).1.start_ramp,
        ramp_after(on_input_spec(d, now).0, RAMP_STEPS as nat).state == DisplayState::Awake,
        ramp_after(on_input_spec(d, now).0, RAMP_STEPS as nat).backlight.brightness
            == Brightness::L7,
        ramp_after(on_input_spec(d, now).0, RAMP_STEPS as nat).deadline == instant_after(
            now,
            DISPLAY_TIMEOUT_TICKS as int,
        ),
        forall|i: nat|
            i < RAMP_STEPS ==> (#[trigger] ramp_after(on_input_spec(d, now).0, i)).state
                == DisplayState::Waking,
{
    lemma_ramp_up(on_input_spec(d, now).0);
}

/// An awake display whose inactivity deadline has come starts sleeping at
/// the poll, and is asleep with the backlight off after `RAMP_STEPS` ramp
/// steps and not before.
pub proof fn lemma_timeout_sleeps(d: DisplayPower, now: u32)
    requires
        d.wf(),
        d.state == DisplayState::Awake,
        is_at_or_after(now, d.deadline),
    ensures
        poll_spec(d, now).0.state == DisplayState::Sleeping,
        poll_spec(d, now).1 == (PollOutcome { start_ramp: true, poll_again: false }),
        ramp_after(poll_spec(d, now).0, RAMP_STEPS as nat).state == DisplayState::Asleep,
        ramp_after(poll_spec(d, now).0, RAMP_STEPS as nat).backlight.brightness == Brightness::Off,
        forall|i: nat|
            i < RAMP_STEPS ==> (#[trigger] ramp_after(poll_spec(d, now).0, i)).state
                == DisplayState::Sleeping,
{
    lemma_ramp_down(poll_spec(d, now).0);
}

/// Polled once a second after input at `t` that armed the deadline, an
/// awake display starts sleeping at the poll `DISPLAY_TIMEOUT_TICKS` after
/// the input, and at no earlier poll.
pub proof fn lemma_sleeps_at_timeout(d: DisplayPower, t: u32, k: nat)
    requires
        d.wf(),
        d.state == DisplayState::Awake,
        d.deadline == instant_after(t, DISPLAY_TIMEOUT_TICKS as int),
        1 <= k <= DISPLAY_TIMEOUT_SECS,
    ensures
        (poll_spec(d, instant_after(t, k * DISPLAY_TIMEOUT_POLL_TICKS)).0.state
            == DisplayState::Sleeping) == (k == DISPLAY_TIMEOUT_SECS),
{
    let now = instant_after(t, k * DISPLAY_TIMEOUT_POLL_TICKS);
    lemma_distance_between_instants(t, DISPLAY_TIMEOUT_TICKS as int, k * DISPLAY_TIMEOUT_POLL_TICKS);
    if k < DISPLAY_TIMEOUT_SECS {
        assert(forward_distance(now, d.deadline) == tick_modulus() - (5 - k) * 1024);
        assert(now != d.deadline) by {
            if now == d.deadline {
                assert(forward_distance(now, d.deadline) == 0);
            }
        }
    } else {
        assert(forward_distance(now, d.deadline) == 0);
    }
}

} // verus!
