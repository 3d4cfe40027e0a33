//! Wall-clock tracker: uptime and calendar time derived from the tick clock,
//! tolerant of counter wraparound and free of cumulative drift.
use vstd::prelude::*;

use crate::clock::{
    advance_instant, forward_distance, instant_after, lemma_distance_between_instants,
    lemma_instant_after_twice,
    tick_modulus, wraparound_diff, TICK_RATE_HZ,
};

verus! {

/// A calendar date-time, as whole seconds since 1970-01-01T00:00:00.
#[derive(Clone, Copy, Debug, PartialEq, Eq, Structural)]
pub struct DateTime {
    pub secs: i64,
}

/// Uptime, calendar time, and the tick instant up to which both are counted.
#[derive(Clone, Copy, Debug, PartialEq, Eq, Structural)]
pub struct SystemTime {
    pub uptime: u32,
    pub last_clock_instant: u32,
    pub date_time: DateTime,
}

/// Whole seconds in `ticks`.
pub open spec fn whole_seconds(ticks: int) -> int {
    ticks / TICK_RATE_HZ as int
}

/// Ticks observed at `now` that are not yet counted as seconds.
pub open spec fn pending_ticks(s: SystemTime, now: u32) -> int {
    forward_distance(now, s.last_clock_instant)
}

/// Whether `update_time(now)` stays within the range of uptime and calendar time.
pub open spec fn can_advance(s: SystemTime, now: u32) -> bool {
    s.uptime + whole_seconds(pending_ticks(s, now)) <= u32::MAX
        && s.date_time.secs + whole_seconds(pending_ticks(s, now)) <= i64::MAX
}

/// The state after `update_time(now)`: the whole seconds elapsed since the
/// last counted instant are added to uptime and calendar time, and the last
/// counted instant moves by exactly those seconds' worth of ticks, so the
/// sub-second remainder carries over to the next call.
pub open spec fn advance_spec(s: SystemTime, now: u32) -> SystemTime {
    let elapsed = pending_ticks(s, now);
    let secs = whole_seconds(elapsed);
    SystemTime {
        uptime: (s.uptime + secs) as u32,
        last_clock_instant: instant_after(s.last_clock_instant, secs * TICK_RATE_HZ),
        date_time: DateTime { secs: (s.date_time.secs + secs) as i64 },
    }
}

/// The state after `n` calls of `update_time`, the `k`-th of them at the
/// instant `k * step` ticks after `start`.
pub open spec fn advance_every(s: SystemTime, start: u32, step: int, n: nat) -> SystemTime
    decreases n,
{
    if n == 0 {
        s
    } else {
        advance_spec(advance_every(s, start, step, (n - 1) as nat), instant_after(start, (n * step) as int))
    }
}

/// Updating every half second from a state counted up to `start`: after `n`
/// calls uptime and calendar time have advanced by exactly `n / 2` seconds and
/// the counted instant lies exactly `n / 2` seconds after `start`, so no error
/// accumulates however many calls are made.
pub proof fn lemma_half_second_updates(s: SystemTime, n: nat)
    requires
        s.uptime + n / 2 <= u32::MAX,
        s.date_time.secs + n / 2 <= i64::MAX,
    ensures
        advance_every(s, s.last_clock_instant, (TICK_RATE_HZ / 2) as int, n).uptime == s.uptime + n / 2,
        advance_every(s, s.last_clock_instant, (TICK_RATE_HZ / 2) as int, n).date_time.secs
            == s.date_time.secs + n / 2,
        advance_every(s, s.last_clock_instant, (TICK_RATE_HZ / 2) as int, n).last_clock_instant
            == instant_after(s.last_clock_instant, (n / 2) * TICK_RATE_HZ),
    decreases n,
{
    let t0 = s.last_clock_instant;
    if n == 0 {
        assert(instant_after(t0, 0) == t0) by {
            vstd::arithmetic::div_mod::lemma_small_mod(t0 as nat, tick_modulus() as nat);
        }
    } else {
        let m = (n - 1) as nat;
        lemma_half_second_updates(s, m);
        let p = advance_every(s, t0, (TICK_RATE_HZ / 2) as int, m);
        let now = instant_after(t0, (n * 512) as int);
        let done: int = ((m / 2) * 1024) as int;
        let gap: int = if n % 2 == 1 { 512 } else { 1024 };
        assert(n * 512 - done == gap && n / 2 == m / 2 + gap / 1024 && gap / 1024 * 1024 + done
            == (n / 2) * 1024) by (nonlinear_arith)
            requires
                done == (m / 2) * 1024,
                m == n - 1,
                gap == if n % 2 == 1 { 512int } else { 1024int },
        ;
        lemma_distance_between_instants(t0, done, (n * 512) as int);
        assert(gap % tick_modulus() == gap);
        assert(pending_ticks(p, now) == gap);
        let secs = whole_seconds(gap);
        assert(secs == gap / 1024);
        lemma_instant_after_twice(t0, done, secs * 1024);
    }
}

/// Read access to the current calendar date-time.
pub trait SystemTimeExt {
    fn date_time(&self) -> DateTime;
}

impl DateTime {
    /// The date-time `secs` seconds after 1970-01-01T00:00:00.
    pub fn from_timestamp(secs: i64) -> (r: Self)
        ensures
            r.secs == secs,
    {
        DateTime { secs }
    }

    /// Seconds since 1970-01-01T00:00:00.
    pub fn timestamp(&self) -> (r: i64)
        ensures
            r == self.secs,
    {
        self.secs
    }
}

impl SystemTime {
    /// The state at start-up.
    pub open spec fn new_spec() -> SystemTime {
        SystemTime { uptime: 0, last_clock_instant: 0, date_time: DateTime { secs: 0 } }
    }

    /// Zero uptime, at 1970-01-01T00:00:00, counted up to tick instant zero.
    pub fn new() -> (r: Self)
        ensures
            r == SystemTime::new_spec(),
    {
        SystemTime { uptime: 0, last_clock_instant: 0, date_time: DateTime { secs: 0 } }
    }

    /// Brings uptime and calendar time up to the tick instant `now`.
    pub fn update_time(&mut self, now: u32)
        requires
            can_advance(*old(self), now),
        ensures
            *final(self) == advance_spec(*old(self), now),
            final(self).uptime >= old(self).uptime,
            0 <= pending_ticks(*final(self), now) < TICK_RATE_HZ,
            final(self).uptime * TICK_RATE_HZ + pending_ticks(*final(self), now) == old(
                self,
            ).uptime * TICK_RATE_HZ + pending_ticks(*old(self), now),
    {
        let tick_delta = wraparound_diff(now, self.last_clock_instant);
        let secs = tick_delta / TICK_RATE_HZ;
        let rest = tick_delta % TICK_RATE_HZ;
        assert(secs * TICK_RATE_HZ + rest == tick_delta) by (nonlinear_arith)
            requires
                secs == tick_delta / 1024,
                rest == tick_delta % 1024,
        ;
        let ghost old_last = self.last_clock_instant;
        self.last_clock_instant = advance_instant(self.last_clock_instant, tick_delta - rest);
        self.uptime = self.uptime + secs;
        self.date_time = DateTime { secs: self.date_time.secs + secs as i64 };
        proof {
            lemma_distance_between_instants(old_last, (tick_delta - rest) as int, tick_delta as int);
            assert(now == instant_after(old_last, tick_delta as int)) by {
                assert(now == instant_after(now, 0));
                lemma_distance_between_instants(old_last, tick_delta as int, tick_delta as int);
            }
        }
    }

    /// Whole seconds counted since start-up.
    pub fn uptime(&self) -> (r: u32)
        ensures
            r == self.uptime,
    {
        self.uptime
    }

    /// The current calendar date-time.
    pub fn date_time(&self) -> (r: DateTime)
        ensures
            r == self.date_time,
    {
        self.date_time
    }
}

impl SystemTimeExt for SystemTime {
    fn date_time(&self) -> DateTime {
        SystemTime::date_time(self)
    }
}

} // verus!
