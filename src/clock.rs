//! Monotonic tick clock: a 32-bit counter fed by a low-power oscillator,
//! with wraparound-aware comparisons and a compare interrupt.
use vstd::arithmetic::div_mod::{lemma_add_mod_noop_right, lemma_sub_mod_noop};
use vstd::prelude::*;

verus! {

/// Ticks per second of the monotonic clock.
pub const TICK_RATE_HZ: u32 = 1024;

/// Largest value of the 32-bit tick counter.
pub const MAX_TICKS: u32 = 0xFFFF_FFFF;

/// Largest offset that the RTC compare register can hold (24 bits).
pub const MAX_COMPARE_OFFSET: u32 = 0x00FF_FFFF;

/// Number of distinct tick instants.
pub open spec fn tick_modulus() -> int {
    0x1_0000_0000
}

/// Forward distance from `earlier` to `later` on the wrapping 32-bit counter.
pub open spec fn forward_distance(later: u32, earlier: u32) -> int {
    (later as int - earlier as int) % tick_modulus()
}

/// `later` is at or after `earlier`: the forward distance is below half the range.
pub open spec fn is_at_or_after(later: u32, earlier: u32) -> bool {
    later == earlier || forward_distance(later, earlier) < MAX_TICKS as int / 2
}

/// The instant `d` ticks after `t`.
pub open spec fn instant_after(t: u32, d: int) -> u32 {
    ((t as int + d) % tick_modulus()) as u32
}

proof fn lemma_forward_distance(later: u32, earlier: u32)
    ensures
        later >= earlier ==> forward_distance(later, earlier) == later - earlier,
        later < earlier ==> forward_distance(later, earlier) == later as int + tick_modulus()
            - earlier,
        0 <= forward_distance(later, earlier) < tick_modulus(),
{
}

/// The distance between two instants taken from a common origin `t` is the
/// difference of their offsets, modulo the counter's range.
pub proof fn lemma_distance_between_instants(t: u32, a: int, b: int)
    requires
        0 <= a,
        0 <= b,
    ensures
        forward_distance(instant_after(t, b), instant_after(t, a)) == (b - a) % tick_modulus(),
{
    let m = tick_modulus();
    lemma_sub_mod_noop(t + b, t + a, m);
}

/// Moving `a` ticks and then `b` ticks is moving `a + b` ticks.
pub proof fn lemma_instant_after_twice(t: u32, a: int, b: int)
    requires
        0 <= a,
        0 <= b,
    ensures
        instant_after(instant_after(t, a), b) == instant_after(t, a + b),
{
    let m = tick_modulus();
    lemma_add_mod_noop_right(b, t + a, m);
}

/// Ticks elapsed from `prev` to `now`, counting across a wrap of the counter.
pub fn wraparound_diff(now: u32, prev: u32) -> (r: u32)
    ensures
        r as int == forward_distance(now, prev),
{
    proof {
        lemma_forward_distance(now, prev);
    }
    if now < prev {
        (MAX_TICKS - prev) + (now + 1)
    } else {
        now - prev
    }
}

/// The instant `d` ticks after `t`, wrapping round the counter.
pub fn advance_instant(t: u32, d: u32) -> (r: u32)
    ensures
        r == instant_after(t, d as int),
        forward_distance(r, t) == d as int,
{
    if d <= MAX_TICKS - t {
        t + d
    } else {
        d - (MAX_TICKS - t) - 1
    }
}

/// Ticks from `earlier` to `later`, or `None` when `later` lies before `earlier`
/// in the wraparound order (forward distance of half the range or more).
pub fn checked_duration_since(later: u32, earlier: u32) -> (r: Option<u32>)
    ensures
        r.is_some() == is_at_or_after(later, earlier),
        r.is_some() ==> r.unwrap() as int == forward_distance(later, earlier),
{
    let d = wraparound_diff(later, earlier);
    if later == earlier || d < MAX_TICKS / 2 {
        Some(d)
    } else {
        None
    }
}

/// The offset written to the compare register for `deadline`, seen at `now`:
/// one tick for a deadline already past, otherwise the distance clamped to
/// the window `[1, MAX_COMPARE_OFFSET]`.
pub open spec fn compare_offset_spec(deadline: u32, now: u32) -> u32 {
    if !is_at_or_after(deadline, now) {
        1
    } else if forward_distance(deadline, now) == 0 {
        1
    } else if forward_distance(deadline, now) > MAX_COMPARE_OFFSET as int {
        MAX_COMPARE_OFFSET
    } else {
        forward_distance(deadline, now) as u32
    }
}

/// Offset for the compare register so that the wake interrupt comes at
/// `deadline` (or as close as the register allows, and never in the past).
pub fn compare_offset(deadline: u32, now: u32) -> (r: u32)
    ensures
        r == compare_offset_spec(deadline, now),
        1 <= r <= MAX_COMPARE_OFFSET,
        is_at_or_after(deadline, now) && 0 < forward_distance(deadline, now)
            <= MAX_COMPARE_OFFSET as int ==> instant_after(now, r as int) == deadline,
{
    proof {
        lemma_forward_distance(deadline, now);
    }
    match checked_duration_since(deadline, now) {
        None => 1,
        Some(x) => {
            if x > MAX_COMPARE_OFFSET {
                MAX_COMPARE_OFFSET
            } else if x < 1 {
                1
            } else {
                x
            }
        },
    }
}

/// Number of distinct values of the RTC's 24-bit counter.
pub open spec fn rtc_modulus() -> int {
    0x100_0000
}

/// State of the RTC-backed monotonic clock.
///
/// Every RTC tick pulse is routed to a 32-bit counter (`counter`), which is
/// "now". The RTC's own 24-bit counter (`rtc_counter`) counts from the last
/// time the compare register was programmed, and latches `compare_flag` when
/// it reaches `compare` while the compare interrupt is enabled.
pub struct RtcMonotonic {
    pub counter: u32,
    pub rtc_counter: u32,
    pub compare: u32,
    pub timer_enabled: bool,
    pub compare_flag: bool,
}

impl RtcMonotonic {
    /// Well-formed: the RTC counter and compare register fit in 24 bits.
    pub open spec fn wf(&self) -> bool {
        self.rtc_counter <= MAX_COMPARE_OFFSET && self.compare <= MAX_COMPARE_OFFSET
    }

    /// A stopped clock at instant zero with the compare interrupt disabled.
    pub fn new() -> (r: Self)
        ensures
            r.wf(),
            r.counter == 0,
            r.rtc_counter == 0,
            r.compare == 0,
            !r.timer_enabled,
            !r.compare_flag,
    {
        RtcMonotonic { counter: 0, rtc_counter: 0, compare: 0, timer_enabled: false, compare_flag: false }
    }

    /// The current tick instant.
    pub fn try_now(&self) -> (r: u32)
        ensures
            r == self.counter,
    {
        self.counter
    }

    /// One pulse of the low-power oscillator: both counters advance, and a
    /// compare match latches the flag when the compare interrupt is enabled.
    pub fn on_tick(&mut self)
        requires
            old(self).wf(),
        ensures
            final(self).wf(),
            final(self).counter == instant_after(old(self).counter, 1),
            final(self).rtc_counter as int == (old(self).rtc_counter + 1) % rtc_modulus(),
            final(self).compare == old(self).compare,
            final(self).timer_enabled == old(self).timer_enabled,
            final(self).compare_flag == (old(self).compare_flag || (old(self).timer_enabled
                && final(self).rtc_counter == old(self).compare)),
    {
        self.counter = advance_instant(self.counter, 1);
        self.rtc_counter = if self.rtc_counter == MAX_COMPARE_OFFSET {
            0
        } else {
            self.rtc_counter + 1
        };
        if self.timer_enabled && self.rtc_counter == self.compare {
            self.compare_flag = true;
        }
    }

    /// Starts the clock: compare register and RTC counter cleared, compare
    /// interrupt enabled.
    pub fn reset(&mut self)
        ensures
            final(self).wf(),
            final(self).counter == old(self).counter,
            final(self).rtc_counter == 0,
            final(self).compare == 0,
            final(self).timer_enabled,
            final(self).compare_flag == old(self).compare_flag,
    {
        self.compare = 0;
        self.rtc_counter = 0;
        self.timer_enabled = true;
    }

    /// Arms the wake interrupt for `deadline`: the compare register gets the
    /// clamped offset from now, and the RTC counter restarts from zero.
    pub fn set_compare(&mut self, deadline: u32)
        ensures
            final(self).wf(),
            final(self).counter == old(self).counter,
            final(self).compare == compare_offset_spec(deadline, old(self).counter),
            final(self).rtc_counter == 0,
            final(self).timer_enabled == old(self).timer_enabled,
            final(self).compare_flag == old(self).compare_flag,
    {
        self.compare = compare_offset(deadline, self.counter);
        self.rtc_counter = 0;
    }

    /// Acknowledges a latched compare match.
    pub fn clear_compare_flag(&mut self)
        ensures
            *final(self) == (RtcMonotonic { compare_flag: false, ..*old(self) }),
    {
        if self.compare_flag {
            self.compare_flag = false;
        }
    }

    /// Enables the compare interrupt.
    pub fn enable_timer(&mut self)
        ensures
            *final(self) == (RtcMonotonic { timer_enabled: true, ..*old(self) }),
    {
        self.timer_enabled = true;
    }

    /// Disables the compare interrupt.
    pub fn disable_timer(&mut self)
        ensures
            *final(self) == (RtcMonotonic { timer_enabled: false, ..*old(self) }),
    {
        self.timer_enabled = false;
    }
}

/// Widens a 24-bit RTC counter into the 32-bit tick count by sampling it,
/// for hardware where the tick pulses cannot be routed to a wide counter.
/// Sampled more often than the narrow counter wraps, it loses no tick.
#[derive(Clone, Copy, Debug, PartialEq, Eq, Structural)]
pub struct CounterWidener {
    pub last_narrow: u32,
    pub wide: u32,
}

impl CounterWidener {
    /// The last sample fits the narrow counter.
    pub open spec fn wf(&self) -> bool {
        self.last_narrow <= MAX_COMPARE_OFFSET
    }

    /// Starts from a narrow reading `narrow`, at wide instant zero.
    pub fn new(narrow: u32) -> (r: Self)
        requires
            narrow <= MAX_COMPARE_OFFSET,
        ensures
            r.wf(),
            r.last_narrow == narrow,
            r.wide == 0,
    {
        CounterWidener { last_narrow: narrow, wide: 0 }
    }

    /// Takes a new reading of the narrow counter: the wide count moves on by
    /// the narrow counter's forward distance since the last reading (modulo
    /// its range), and is returned.
    pub fn observe(&mut self, narrow: u32) -> (r: u32)
        requires
            old(self).wf(),
            narrow <= MAX_COMPARE_OFFSET,
        ensures
            final(self).wf(),
            final(self).last_narrow == narrow,
            final(self).wide == instant_after(
                old(self).wide,
                (narrow as int - old(self).last_narrow as int) % rtc_modulus(),
            ),
            r == final(self).wide,
    {
        let delta: u32 = if narrow >= self.last_narrow {
            narrow - self.last_narrow
        } else {
            narrow + (MAX_COMPARE_OFFSET - self.last_narrow) + 1
        };
        self.wide = advance_instant(self.wide, delta);
        self.last_narrow = narrow;
        self.wide
    }
}

} // verus!
