use pinetime::scheduler::{lock_ceiling, ConfigError, Scheduler, SpawnError, TaskConfig, Timer};

fn two_tasks() -> Scheduler {
    Scheduler::new(vec![
        TaskConfig { priority: 5, capacity: 1 },
        TaskConfig { priority: 2, capacity: 1 },
    ])
    .unwrap()
}

#[test]
fn higher_priority_runs_first_and_is_not_preempted() {
    let mut s = two_tasks();
    // B (priority 2) is queued before A (priority 5)
    s.spawn(1).unwrap();
    s.spawn(0).unwrap();
    assert_eq!(s.dispatch(0), Some(0));
    // while A runs, B cannot preempt it
    assert_eq!(s.dispatch(5), None);
    // A done: B runs
    assert_eq!(s.dispatch(0), Some(1));
    assert_eq!(s.dispatch(0), None);
}

#[test]
fn same_priority_runs_in_request_order() {
    let mut s = Scheduler::new(vec![
        TaskConfig { priority: 3, capacity: 1 },
        TaskConfig { priority: 3, capacity: 1 },
        TaskConfig { priority: 3, capacity: 1 },
    ])
    .unwrap();
    s.spawn(2).unwrap();
    s.spawn(0).unwrap();
    s.spawn(1).unwrap();
    assert_eq!(s.dispatch(0), Some(2));
    assert_eq!(s.dispatch(0), Some(0));
    assert_eq!(s.dispatch(0), Some(1));
}

#[test]
fn spawn_beyond_capacity_is_refused() {
    let mut s = two_tasks();
    assert_eq!(s.spawn(0), Ok(()));
    assert_eq!(s.spawn(0), Err(SpawnError::Full));
    assert_eq!(s.spawn_after(0, 0, 10), Err(SpawnError::Full));
    assert_eq!(s.ready, vec![0]);
    assert_eq!(s.dispatch(0), Some(0));
    assert_eq!(s.spawn_after(0, 0, 10), Ok(()));
}

#[test]
fn config_errors_name_the_first_bad_task() {
    let r = Scheduler::new(vec![
        TaskConfig { priority: 1, capacity: 1 },
        TaskConfig { priority: 0, capacity: 1 },
        TaskConfig { priority: 1, capacity: 0 },
    ]);
    assert_eq!(r.err(), Some(ConfigError::ZeroPriority(1)));
    let r = Scheduler::new(vec![
        TaskConfig { priority: 1, capacity: 1 },
        TaskConfig { priority: 2, capacity: 0 },
    ]);
    assert_eq!(r.err(), Some(ConfigError::ZeroCapacity(1)));
    assert!(Scheduler::new(vec![]).is_ok());
}

#[test]
fn deferred_tasks_release_when_due() {
    let mut s = two_tasks();
    s.spawn_after(1, 100, 50).unwrap();
    s.spawn_after(0, 100, 20).unwrap();
    assert_eq!(s.next_deadline(100), Some(120));
    s.release_due(119);
    assert!(s.ready.is_empty());
    s.release_due(120);
    assert_eq!(s.ready, vec![0]);
    assert_eq!(s.timers, vec![Timer { deadline: 150, task: 1 }]);
    s.release_due(200);
    assert_eq!(s.ready, vec![0, 1]);
    assert!(s.timers.is_empty());
    assert_eq!(s.next_deadline(200), None);
}

#[test]
fn deferred_release_across_counter_wrap() {
    let mut s = two_tasks();
    s.spawn_after(0, u32::MAX - 5, 10).unwrap();
    assert_eq!(s.timers[0].deadline, 4);
    s.release_due(u32::MAX);
    assert!(s.ready.is_empty());
    s.release_due(4);
    assert_eq!(s.ready, vec![0]);
}

#[test]
fn resource_ceiling_and_lock() {
    let s = Scheduler::new(vec![
        TaskConfig { priority: 2, capacity: 1 },
        TaskConfig { priority: 6, capacity: 1 },
        TaskConfig { priority: 4, capacity: 1 },
    ])
    .unwrap();
    assert_eq!(s.resource_ceiling(&vec![0, 2]), 4);
    assert_eq!(s.resource_ceiling(&vec![1, 0]), 6);
    assert_eq!(s.resource_ceiling(&vec![]), 0);
    assert_eq!(lock_ceiling(2, 4), 4);
    assert_eq!(lock_ceiling(5, 4), 5);
}

#[test]
fn locked_resource_blocks_sharing_task() {
    let mut s = Scheduler::new(vec![
        TaskConfig { priority: 2, capacity: 1 },
        TaskConfig { priority: 4, capacity: 1 },
    ])
    .unwrap();
    let ceiling = s.resource_ceiling(&vec![0, 1]);
    // task 0 holds the shared resource; task 1 becomes ready
    s.spawn(1).unwrap();
    assert_eq!(s.dispatch(lock_ceiling(2, ceiling)), None);
    // after the critical section task 1 preempts task 0
    assert_eq!(s.dispatch(2), Some(1));
}
