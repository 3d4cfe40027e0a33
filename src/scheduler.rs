//! Task runtime: a fixed table of statically prioritised tasks, a ready
//! queue dispatched by strict priority (request order within a level), and
//! deferred activations released by the tick clock.
use vstd::multiset::Multiset;
use vstd::prelude::*;

use crate::clock::{
    advance_instant, checked_duration_since, forward_distance, instant_after, is_at_or_after,
    wraparound_diff,
};

verus! {

broadcast use vstd::seq_lib::group_to_multiset_ensures, vstd::multiset::group_multiset_axioms,
    vstd::multiset::group_multiset_properties;

/// Static parameters of a task: its priority (1 is the lowest) and how many
/// activations of it may be outstanding at once.
#[derive(Clone, Copy, Debug, PartialEq, Eq, Structural)]
pub struct TaskConfig {
    pub priority: u8,
    pub capacity: u8,
}

/// A deferred activation of `task` at the tick instant `deadline`.
#[derive(Clone, Copy, Debug, PartialEq, Eq, Structural)]
pub struct Timer {
    pub deadline: u32,
    pub task: usize,
}

/// A task table that cannot be run.
#[derive(Clone, Copy, Debug, PartialEq, Eq, Structural)]
pub enum ConfigError {
    /// The task at this index has priority 0, which is reserved for idle.
    ZeroPriority(usize),
    /// The task at this index could never be activated.
    ZeroCapacity(usize),
}

/// An activation that was refused.
#[derive(Clone, Copy, Debug, PartialEq, Eq, Structural)]
pub enum SpawnError {
    /// The task already has as many outstanding activations as its capacity.
    Full,
}

/// The scheduler's state: the task table, the ready queue in request order,
/// the deferred activations, and the number of outstanding activations of
/// each task.
pub struct Scheduler {
    pub tasks: Vec<TaskConfig>,
    pub ready: Vec<usize>,
    pub timers: Vec<Timer>,
    pub in_flight: Vec<u8>,
}

/// The tasks of a sequence of deferred activations.
pub open spec fn timer_tasks(timers: Seq<Timer>) -> Multiset<usize>
    decreases timers.len(),
{
    if timers.len() == 0 {
        Multiset::empty()
    } else {
        timer_tasks(timers.drop_last()).insert(timers.last().task)
    }
}

/// Outstanding activations of task `t`: queued or deferred.
pub open spec fn pending_count(ready: Seq<usize>, timers: Seq<Timer>, t: usize) -> nat {
    ready.to_multiset().count(t) + timer_tasks(timers).count(t)
}

/// The first invalid entry of a task table, from index `i` on.
pub open spec fn config_error(tasks: Seq<TaskConfig>, i: int) -> Option<ConfigError>
    decreases tasks.len() - i,
{
    if i < 0 || i >= tasks.len() {
        None
    } else if tasks[i].priority == 0 {
        Some(ConfigError::ZeroPriority(i as usize))
    } else if tasks[i].capacity == 0 {
        Some(ConfigError::ZeroCapacity(i as usize))
    } else {
        config_error(tasks, i + 1)
    }
}

/// Tasks of the deferred activations that are due at `now`, in order.
pub open spec fn due_tasks(timers: Seq<Timer>, now: u32) -> Seq<usize>
    decreases timers.len(),
{
    if timers.len() == 0 {
        Seq::empty()
    } else if is_at_or_after(now, timers.last().deadline) {
        due_tasks(timers.drop_last(), now).push(timers.last().task)
    } else {
        due_tasks(timers.drop_last(), now)
    }
}

/// The deferred activations that are not yet due at `now`, in order.
pub open spec fn not_due(timers: Seq<Timer>, now: u32) -> Seq<Timer>
    decreases timers.len(),
{
    if timers.len() == 0 {
        Seq::empty()
    } else if is_at_or_after(now, timers.last().deadline) {
        not_due(timers.drop_last(), now)
    } else {
        not_due(timers.drop_last(), now).push(timers.last())
    }
}

/// Priority of the task queued at position `i`.
pub open spec fn queued_priority(ready: Seq<usize>, tasks: Seq<TaskConfig>, i: int) -> u8 {
    tasks[ready[i] as int].priority
}

/// Position of the task to dispatch among the first `n` queued: the first
/// one of the highest priority; -1 when `n` is 0.
pub open spec fn best_index(ready: Seq<usize>, tasks: Seq<TaskConfig>, n: int) -> int
    decreases n,
{
    if n <= 0 {
        -1
    } else {
        let p = best_index(ready, tasks, n - 1);
        if p < 0 || queued_priority(ready, tasks, n - 1) > queued_priority(ready, tasks, p) {
            n - 1
        } else {
            p
        }
    }
}

/// Position of the soonest of the first `n` deferred activations seen from
/// `now` (the first of equals); -1 when `n` is 0.
pub open spec fn soonest_index(timers: Seq<Timer>, now: u32, n: int) -> int
    decreases n,
{
    if n <= 0 {
        -1
    } else {
        let p = soonest_index(timers, now, n - 1);
        if p < 0 || forward_distance(timers[n - 1].deadline, now) < forward_distance(
            timers[p].deadline,
            now,
        ) {
            n - 1
        } else {
            p
        }
    }
}

proof fn lemma_best_index(ready: Seq<usize>, tasks: Seq<TaskConfig>, n: int)
    requires
        0 < n <= ready.len(),
        forall|i: int| 0 <= i < ready.len() ==> ready[i] < tasks.len(),
    ensures
        0 <= best_index(ready, tasks, n) < n,
        forall|j: int|
            0 <= j < n ==> #[trigger] queued_priority(ready, tasks, j) <= queued_priority(
                ready,
                tasks,
                best_index(ready, tasks, n),
            ),
        forall|j: int|
            0 <= j < best_index(ready, tasks, n) ==> #[trigger] queued_priority(ready, tasks, j)
                < queued_priority(ready, tasks, best_index(ready, tasks, n)),
    decreases n,
{
    if n > 1 {
        lemma_best_index(ready, tasks, n - 1);
    } else {
        assert(best_index(ready, tasks, 0) == -1);
    }
}

/// The deadline chosen for arming the clock is the soonest of all deferred
/// activations seen from `now`.
pub proof fn lemma_soonest_index(timers: Seq<Timer>, now: u32, n: int)
    requires
        0 < n <= timers.len(),
    ensures
        0 <= soonest_index(timers, now, n) < n,
        forall|j: int|
            0 <= j < n ==> forward_distance(timers[soonest_index(timers, now, n)].deadline, now)
                <= #[trigger] forward_distance(timers[j].deadline, now),
    decreases n,
{
    if n > 1 {
        lemma_soonest_index(timers, now, n - 1);
    } else {
        assert(soonest_index(timers, now, 0) == -1);
    }
}

/// The highest priority among the first `n` tasks of `users`; 0 when `n` is 0.
pub open spec fn max_priority(users: Seq<usize>, tasks: Seq<TaskConfig>, n: int) -> u8
    decreases n,
{
    if n <= 0 {
        0
    } else {
        let m = max_priority(users, tasks, n - 1);
        let p = tasks[users[n - 1] as int].priority;
        if p > m {
            p
        } else {
            m
        }
    }
}

/// The dispatch ceiling while a task holds a resource: the higher of the
/// running priority and the resource's ceiling, so that no task that shares
/// the resource can preempt the holder.
pub fn lock_ceiling(current: u8, resource_ceiling: u8) -> (r: u8)
    ensures
        r == if current >= resource_ceiling { current } else { resource_ceiling },
{
    if current >= resource_ceiling {
        current
    } else {
        resource_ceiling
    }
}

/// A queued task is never dispatched while a task of higher priority is
/// queued, nor before a task of its own priority that was queued earlier.
pub proof fn lemma_dispatch_order(s: Scheduler, a: int, b: int)
    requires
        s.wf(),
        0 <= a < s.ready@.len(),
        0 <= b < s.ready@.len(),
        queued_priority(s.ready@, s.tasks@, a) > queued_priority(s.ready@, s.tasks@, b) || (a < b
            && queued_priority(s.ready@, s.tasks@, a) == queued_priority(s.ready@, s.tasks@, b)),
    ensures
        best_index(s.ready@, s.tasks@, s.ready@.len() as int) != b,
{
    lemma_best_index(s.ready@, s.tasks@, s.ready@.len() as int);
}

impl Scheduler {
    /// Task ids are in the table, every task can run and be activated, and
    /// the outstanding activations of each task are counted and within its
    /// capacity.
    pub open spec fn wf(&self) -> bool {
        &&& config_error(self.tasks@, 0) is None
        &&& self.in_flight@.len() == self.tasks@.len()
        &&& forall|i: int| 0 <= i < self.ready@.len() ==> #[trigger] self.ready@[i] < self.tasks@.len()
        &&& forall|i: int|
            0 <= i < self.timers@.len() ==> #[trigger] self.timers@[i].task < self.tasks@.len()
        &&& forall|t: usize|
            t < self.tasks@.len() ==> #[trigger] self.in_flight@[t as int] as nat == pending_count(
                self.ready@,
                self.timers@,
                t,
            )
        &&& forall|t: int|
            0 <= t < self.tasks@.len() ==> #[trigger] self.in_flight@[t] <= self.tasks@[t].capacity
    }

    /// A scheduler for the task table `tasks`, with nothing queued; fails on
    /// the first task with priority 0 or capacity 0.
    pub fn new(tasks: Vec<TaskConfig>) -> (r: Result<Scheduler, ConfigError>)
        ensures
            config_error(tasks@, 0) is None <==> r is Ok,
            r is Err ==> r == Err::<Scheduler, ConfigError>(config_error(tasks@, 0).unwrap()),
            r is Ok ==> {
                let s = r.unwrap();
                &&& s.wf()
                &&& s.tasks@ == tasks@
                &&& s.ready@.len() == 0
                &&& s.timers@.len() == 0
            },
    {
        let mut in_flight: Vec<u8> = Vec::new();
        let mut i: usize = 0;
        while i < tasks.len()
            invariant
                i <= tasks@.len(),
                config_error(tasks@, 0) == config_error(tasks@, i as int),
                in_flight@.len() == i,
                forall|j: int| 0 <= j < i ==> #[trigger] in_flight@[j] == 0,
            decreases tasks@.len() - i,
        {
            let t = tasks[i];
            if t.priority == 0 {
                return Err(ConfigError::ZeroPriority(i));
            }
            if t.capacity == 0 {
                return Err(ConfigError::ZeroCapacity(i));
            }
            in_flight.push(0);
            i = i + 1;
        }
        let s = Scheduler { tasks, ready: Vec::new(), timers: Vec::new(), in_flight };
        proof {
            assert(timer_tasks(s.timers@) =~= Multiset::empty());
        }
        Ok(s)
    }

    /// Queues task `task` now, unless it already has as many outstanding
    /// activations as its capacity.
    pub fn spawn(&mut self, task: usize) -> (r: Result<(), SpawnError>)
        requires
            old(self).wf(),
            task < old(self).tasks@.len(),
        ensures
            final(self).wf(),
            final(self).tasks@ == old(self).tasks@,
            final(self).timers@ == old(self).timers@,
            pending_count(old(self).ready@, old(self).timers@, task) < old(self).tasks@[task as int].capacity
                ==> r is Ok && final(self).ready@ == old(self).ready@.push(task),
            pending_count(old(self).ready@, old(self).timers@, task) >= old(self).tasks@[task as int].capacity
                ==> r == Err::<(), SpawnError>(SpawnError::Full) && final(self).ready@ == old(self).ready@,
    {
        let n = self.in_flight[task];
        if n >= self.tasks[task].capacity {
            return Err(SpawnError::Full);
        }
        self.ready.push(task);
        self.in_flight[task] = n + 1;
        proof {
            assert(self.ready@.to_multiset() =~= old(self).ready@.to_multiset().insert(task));
            assert forall|t: usize| t < self.tasks@.len() implies #[trigger] self.in_flight@[t as int] as nat
                == pending_count(self.ready@, self.timers@, t) by {
                assert(old(self).in_flight@[t as int] as nat == pending_count(old(self).ready@, old(self).timers@, t));
            }
            assert forall|i: int| 0 <= i < self.ready@.len() implies #[trigger] self.ready@[i] < self.tasks@.len() by {
                if i < old(self).ready@.len() {
                    assert(old(self).ready@[i] < old(self).tasks@.len());
                }
            }
        }
        Ok(())
    }

    /// Defers task `task` to the instant `deadline`, unless it already has
    /// as many outstanding activations as its capacity.
    pub fn spawn_at(&mut self, task: usize, deadline: u32) -> (r: Result<(), SpawnError>)
        requires
            old(self).wf(),
            task < old(self).tasks@.len(),
        ensures
            final(self).wf(),
            final(self).tasks@ == old(self).tasks@,
            final(self).ready@ == old(self).ready@,
            pending_count(old(self).ready@, old(self).timers@, task) < old(self).tasks@[task as int].capacity
                ==> r is Ok && final(self).timers@ == old(self).timers@.push(
                Timer { deadline, task },
            ),
            pending_count(old(self).ready@, old(self).timers@, task) >= old(self).tasks@[task as int].capacity
                ==> r == Err::<(), SpawnError>(SpawnError::Full) && final(self).timers@ == old(self).timers@,
    {
        let n = self.in_flight[task];
        if n >= self.tasks[task].capacity {
            return Err(SpawnError::Full);
        }
        self.timers.push(Timer { deadline, task });
        self.in_flight[task] = n + 1;
        proof {
            assert(self.timers@.drop_last() =~= old(self).timers@);
            assert(timer_tasks(self.timers@) =~= timer_tasks(old(self).timers@).insert(task));
            assert forall|t: usize| t < self.tasks@.len() implies #[trigger] self.in_flight@[t as int] as nat
                == pending_count(self.ready@, self.timers@, t) by {
                assert(old(self).in_flight@[t as int] as nat == pending_count(old(self).ready@, old(self).timers@, t));
            }
            assert forall|i: int| 0 <= i < self.timers@.len() implies #[trigger] self.timers@[i].task < self.tasks@.len() by {
                if i < old(self).timers@.len() {
                    assert(old(self).timers@[i].task < old(self).tasks@.len());
                }
            }
        }
        Ok(())
    }

    /// Defers task `task` to the instant `delay` ticks after `now`, unless it
    /// already has as many outstanding activations as its capacity.
    pub fn spawn_after(&mut self, task: usize, now: u32, delay: u32) -> (r: Result<(), SpawnError>)
        requires
            old(self).wf(),
            task < old(self).tasks@.len(),
        ensures
            final(self).wf(),
            final(self).tasks@ == old(self).tasks@,
            final(self).ready@ == old(self).ready@,
            pending_count(old(self).ready@, old(self).timers@, task) < old(self).tasks@[task as int].capacity
                ==> r is Ok && final(self).timers@ == old(self).timers@.push(
                Timer { deadline: instant_after(now, delay as int), task },
            ),
            pending_count(old(self).ready@, old(self).timers@, task) >= old(self).tasks@[task as int].capacity
                ==> r == Err::<(), SpawnError>(SpawnError::Full) && final(self).timers@ == old(self).timers@,
    {
        let deadline = advance_instant(now, delay);
        self.spawn_at(task, deadline)
    }

    /// Moves every deferred activation that is due at `now` to the ready
    /// queue, in the order they were deferred; the others stay deferred.
    pub fn release_due(&mut self, now: u32)
        requires
            old(self).wf(),
        ensures
            final(self).wf(),
            final(self).tasks@ == old(self).tasks@,
            final(self).ready@ == old(self).ready@ + due_tasks(old(self).timers@, now),
            final(self).timers@ == not_due(old(self).timers@, now),
    {
        let ghost old_ready = self.ready@;
        let ghost old_timers = self.timers@;
        let mut kept: Vec<Timer> = Vec::new();
        let n = self.timers.len();
        let mut i: usize = 0;
        while i < n
            invariant
                n == old_timers.len(),
                i <= n,
                self.timers@ == old_timers,
                self.tasks@ == old(self).tasks@,
                self.in_flight@ == old(self).in_flight@,
                old(self).wf(),
                old_ready == old(self).ready@,
                old_timers == old(self).timers@,
                kept@ == not_due(old_timers.subrange(0, i as int), now),
                self.ready@ == old_ready + due_tasks(old_timers.subrange(0, i as int), now),
                forall|j: int| 0 <= j < self.ready@.len() ==> #[trigger] self.ready@[j] < self.tasks@.len(),
                forall|j: int| 0 <= j < kept@.len() ==> #[trigger] kept@[j].task < self.tasks@.len(),
                forall|t: usize|
                    #[trigger] self.ready@.to_multiset().count(t) + timer_tasks(kept@).count(t)
                        == old_ready.to_multiset().count(t) + timer_tasks(
                        old_timers.subrange(0, i as int),
                    ).count(t),
            decreases n - i,
        {
            let tm = self.timers[i];
            let ghost prev_ready = self.ready@;
            let ghost prev_kept = kept@;
            assert(old_timers.subrange(0, i + 1).drop_last() =~= old_timers.subrange(0, i as int));
            assert(old_timers[i as int].task < self.tasks@.len());
            if checked_duration_since(now, tm.deadline).is_some() {
                self.ready.push(tm.task);
                proof {
                    assert forall|j: int| 0 <= j < self.ready@.len() implies #[trigger] self.ready@[j]
                        < self.tasks@.len() by {
                        if j < prev_ready.len() {
                            assert(prev_ready[j] < self.tasks@.len());
                        }
                    }
                    assert forall|t: usize|
                        #[trigger] self.ready@.to_multiset().count(t) + timer_tasks(kept@).count(t)
                            == old_ready.to_multiset().count(t) + timer_tasks(
                            old_timers.subrange(0, i + 1),
                        ).count(t) by {
                        assert(prev_ready.to_multiset().count(t) + timer_tasks(prev_kept).count(t)
                            == old_ready.to_multiset().count(t) + timer_tasks(
                            old_timers.subrange(0, i as int),
                        ).count(t));
                    }
                    assert(self.ready@ =~= old_ready + due_tasks(old_timers.subrange(0, i + 1), now));
                }
            } else {
                kept.push(tm);
                proof {
                    assert(kept@.drop_last() =~= prev_kept);
                    assert forall|j: int| 0 <= j < kept@.len() implies #[trigger] kept@[j].task
                        < self.tasks@.len() by {
                        if j < prev_kept.len() {
                            assert(prev_kept[j].task < self.tasks@.len());
                        }
                    }
                    assert forall|t: usize|
                        #[trigger] self.ready@.to_multiset().count(t) + timer_tasks(kept@).count(t)
                            == old_ready.to_multiset().count(t) + timer_tasks(
                            old_timers.subrange(0, i + 1),
                        ).count(t) by {
                        assert(prev_ready.to_multiset().count(t) + timer_tasks(prev_kept).count(t)
                            == old_ready.to_multiset().count(t) + timer_tasks(
                            old_timers.subrange(0, i as int),
                        ).count(t));
                    }
                }
            }
            i = i + 1;
        }
        self.timers = kept;
        proof {
            assert(old_timers.subrange(0, n as int) =~= old_timers);
            assert forall|t: usize| t < self.tasks@.len() implies #[trigger] self.in_flight@[t as int] as nat
                == pending_count(self.ready@, self.timers@, t) by {
                assert(old(self).in_flight@[t as int] as nat == pending_count(old_ready, old_timers, t));
                assert(self.ready@.to_multiset().count(t) + timer_tasks(self.timers@).count(t)
                    == old_ready.to_multiset().count(t) + timer_tasks(old_timers).count(t));
            }
            assert forall|t: int| 0 <= t < self.tasks@.len() implies #[trigger] self.in_flight@[t]
                <= self.tasks@[t].capacity by {
                assert(old(self).in_flight@[t] <= old(self).tasks@[t].capacity);
            }
        }
    }

    /// Takes the task to run next off the ready queue: the first queued task
    /// of the highest queued priority, provided that priority is above
    /// `ceiling` (the priority of the running task, or a raised ceiling while
    /// a shared resource is held). Returns `None`, changing nothing, when no
    /// queued task is above the ceiling.
    pub fn dispatch(&mut self, ceiling: u8) -> (r: Option<usize>)
        requires
            old(self).wf(),
        ensures
            final(self).wf(),
            final(self).tasks@ == old(self).tasks@,
            final(self).timers@ == old(self).timers@,
            ({
                let b = best_index(old(self).ready@, old(self).tasks@, old(self).ready@.len() as int);
                &&& r is Some <==> old(self).ready@.len() > 0 && queued_priority(
                    old(self).ready@,
                    old(self).tasks@,
                    b,
                ) > ceiling
                &&& r is Some ==> r == Some(old(self).ready@[b]) && final(self).ready@ == old(
                    self,
                ).ready@.remove(b)
                &&& r is None ==> final(self).ready@ == old(self).ready@
            }),
    {
        let len = self.ready.len();
        if len == 0 {
            return None;
        }
        let mut best: usize = 0;
        let mut i: usize = 1;
        assert(best_index(self.ready@, self.tasks@, 0) == -1);
        while i < len
            invariant
                len == self.ready@.len(),
                1 <= i <= len,
                old(self).wf(),
                self.ready@ == old(self).ready@,
                self.tasks@ == old(self).tasks@,
                best as int == best_index(self.ready@, self.tasks@, i as int),
                best < i,
            decreases len - i,
        {
            assert(self.ready@[i as int] < self.tasks@.len());
            assert(self.ready@[best as int] < self.tasks@.len());
            if self.tasks[self.ready[i]].priority > self.tasks[self.ready[best]].priority {
                best = i;
            }
            i = i + 1;
        }
        let task = self.ready[best];
        assert(task < self.tasks@.len());
        if self.tasks[task].priority <= ceiling {
            return None;
        }
        let ghost before = self.ready@;
        self.ready.remove(best);
        let k = self.in_flight[task];
        proof {
            assert(old(self).in_flight@[task as int] as nat == pending_count(before, self.timers@, task));
            assert(before.to_multiset().count(task) > 0) by {
                assert(before.contains(task));
            }
        }
        self.in_flight[task] = k - 1;
        proof {
            assert forall|j: int| 0 <= j < self.ready@.len() implies #[trigger] self.ready@[j]
                < self.tasks@.len() by {
                if j < best {
                    assert(before[j] < self.tasks@.len());
                } else {
                    assert(before[j + 1] < self.tasks@.len());
                }
            }
            assert forall|t: usize| t < self.tasks@.len() implies #[trigger] self.in_flight@[t as int] as nat
                == pending_count(self.ready@, self.timers@, t) by {
                assert(old(self).in_flight@[t as int] as nat == pending_count(before, self.timers@, t));
            }
            assert forall|t: int| 0 <= t < self.tasks@.len() implies #[trigger] self.in_flight@[t]
                <= self.tasks@[t].capacity by {
                assert(old(self).in_flight@[t] <= old(self).tasks@[t].capacity);
            }
        }
        Some(task)
    }

    /// Ceiling priority of a shared resource used by the tasks `users`: the
    /// highest of their priorities.
    pub fn resource_ceiling(&self, users: &Vec<usize>) -> (r: u8)
        requires
            forall|i: int| 0 <= i < users@.len() ==> #[trigger] users@[i] < self.tasks@.len(),
        ensures
            r == max_priority(users@, self.tasks@, users@.len() as int),
    {
        let mut m: u8 = 0;
        let mut i: usize = 0;
        while i < users.len()
            invariant
                i <= users@.len(),
                forall|j: int| 0 <= j < users@.len() ==> #[trigger] users@[j] < self.tasks@.len(),
                m == max_priority(users@, self.tasks@, i as int),
            decreases users@.len() - i,
        {
            assert(users@[i as int] < self.tasks@.len());
            let p = self.tasks[users[i]].priority;
            if p > m {
                m = p;
            }
            i = i + 1;
        }
        m
    }

    /// The deadline of the soonest deferred activation seen from `now`, for
    /// arming the clock's wake interrupt; `None` when nothing is deferred.
    pub fn next_deadline(&self, now: u32) -> (r: Option<u32>)
        ensures
            self.timers@.len() == 0 <==> r is None,
            r is Some ==> r == Some(
                self.timers@[soonest_index(self.timers@, now, self.timers@.len() as int)].deadline,
            ),
    {
        let len = self.timers.len();
        if len == 0 {
            return None;
        }
        let mut best: usize = 0;
        let mut best_dist = wraparound_diff(self.timers[0].deadline, now);
        let mut i: usize = 1;
        assert(soonest_index(self.timers@, now, 0) == -1);
        while i < len
            invariant
                len == self.timers@.len(),
                1 <= i <= len,
                best as int == soonest_index(self.timers@, now, i as int),
                best < i,
                best_dist as int == forward_distance(self.timers@[best as int].deadline, now),
            decreases len - i,
        {
            let d = wraparound_diff(self.timers[i].deadline, now);
            if d < best_dist {
                best = i;
                best_dist = d;
            }
            i = i + 1;
        }
        Some(self.timers[best].deadline)
    }
}

} // verus!
