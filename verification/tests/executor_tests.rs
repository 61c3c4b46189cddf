use ssh_pool::executor::{Job, TaskExecutor};

#[test]
fn new_executor_is_idle() {
    let e = TaskExecutor::new(5);
    assert_eq!(e.workers(), 5);
    assert_eq!(e.queue_len(), 0);
    assert_eq!(e.accepted_count(), 0);
}

#[test]
fn submissions_are_numbered_and_queued_in_order() {
    let mut e = TaskExecutor::new(2);
    let a = e.submit(Job::Command { command: "uptime".to_string() });
    let b = e.submit(Job::Command { command: "whoami".to_string() });
    assert_eq!((a, b), (0, 1));
    assert_eq!(e.queue_len(), 2);
    let first = e.take_job().unwrap();
    assert_eq!(first.id, 0);
    assert_eq!(first.job, Job::Command { command: "uptime".to_string() });
    let second = e.take_job().unwrap();
    assert_eq!(second.id, 1);
}

#[test]
fn take_job_on_empty_queue_is_none() {
    let mut e = TaskExecutor::new(1);
    assert_eq!(e.take_job(), None);
}

#[test]
fn each_accepted_submission_is_delivered_exactly_once() {
    let mut e = TaskExecutor::new(3);
    for i in 0..5u64 {
        let id = e.submit(Job::Command { command: format!("job {i}") });
        assert_eq!(id, i);
    }
    let mut callbacks: Vec<u64> = Vec::new();
    while let Some(task) = e.take_job() {
        assert!(e.is_running(task.id));
        e.deliver(task.id);
        callbacks.push(task.id);
        assert!(!e.is_running(task.id));
    }
    callbacks.sort();
    assert_eq!(callbacks, vec![0, 1, 2, 3, 4]);
    assert_eq!(e.accepted_count(), 5);
}

#[test]
fn delivery_order_can_differ_from_submission_order() {
    let mut e = TaskExecutor::new(2);
    e.submit(Job::Command { command: "slow".to_string() });
    e.submit(Job::Command { command: "fast".to_string() });
    let slow = e.take_job().unwrap();
    let fast = e.take_job().unwrap();
    e.deliver(fast.id);
    e.deliver(slow.id);
    assert_eq!(e.queue_len(), 0);
    assert!(!e.is_running(slow.id));
    assert!(!e.is_running(fast.id));
}
