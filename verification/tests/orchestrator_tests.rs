use ssh_pool::command::run_command_outcome;
use ssh_pool::connection::Connection;
use ssh_pool::error::Error;
use ssh_pool::executor::Job;
use ssh_pool::orchestrator::{retry_attempt, single_attempt, SSHConnectionPool};
use ssh_pool::pool::ResourcePool;

#[test]
fn try_ssh_on_empty_idle_set_is_false_and_changes_nothing() {
    let mut service = SSHConnectionPool::new(Vec::new(), 2);
    let accepted = service.thread_pool.accepted_count();
    assert!(!service.try_ssh("uptime".to_string()));
    assert_eq!(service.pool.idle_len(), 0);
    assert_eq!(service.thread_pool.queue_len(), 0);
    assert_eq!(service.thread_pool.accepted_count(), accepted);
}

#[test]
fn try_ssh_with_an_idle_connection_enqueues_one_single_attempt_job() {
    let dialed = vec![Connection::new(0, true)];
    let mut service = SSHConnectionPool::new(dialed, 2);
    assert!(service.try_ssh("uptime".to_string()));
    assert_eq!(service.pool.idle_len(), 0);
    assert_eq!(service.thread_pool.queue_len(), 1);
    let task = service.thread_pool.take_job().unwrap();
    assert_eq!(
        task.job,
        Job::CommandOnce { command: "uptime".to_string(), conn: Connection::new(0, true) }
    );
}

#[test]
fn try_scp_mirrors_try_ssh() {
    let mut empty = SSHConnectionPool::new(Vec::new(), 1);
    assert!(!empty.try_scp("content".to_string(), "/tmp/x".to_string()));
    assert_eq!(empty.thread_pool.queue_len(), 0);

    let mut ready = SSHConnectionPool::new(vec![Connection::new(0, true)], 1);
    assert!(ready.try_scp("content".to_string(), "/tmp/x".to_string()));
    assert_eq!(ready.thread_pool.queue_len(), 1);
}

#[test]
fn blocking_submissions_enqueue_without_touching_the_pool() {
    let mut service = SSHConnectionPool::new(vec![Connection::new(0, true)], 2);
    let a = service.ssh("uptime".to_string());
    let b = service.scp("data".to_string(), "/tmp/y".to_string());
    assert_eq!((a, b), (0, 1));
    assert_eq!(service.pool.idle_len(), 1);
    assert_eq!(service.thread_pool.queue_len(), 2);
}

#[test]
fn retry_attempt_releases_on_success_and_absorbs_failure() {
    let mut pool = ResourcePool::initialize(Vec::new());
    let conn = Connection::new(0, true);

    let failed = retry_attempt(
        &mut pool,
        conn,
        Err(Error::Ssh("channel setup failed".to_string())),
    );
    assert_eq!(failed, None);
    assert_eq!(pool.idle_len(), 0);

    let done = retry_attempt(&mut pool, conn, Ok("payload".to_string()));
    assert_eq!(done, Some("payload".to_string()));
    assert_eq!(pool.idle_len(), 1);
}

#[test]
fn single_attempt_delivers_the_outcome_as_is() {
    let mut pool = ResourcePool::initialize(Vec::new());
    let err = Error::SshCommandError("cat /nosuch".to_string(), "no such file".to_string());
    let out = single_attempt(&mut pool, Connection::new(4, true), Err(err.clone()));
    assert_eq!(out, Err(err));
    assert_eq!(pool.idle_len(), 1);

    let out = single_attempt(&mut pool, Connection::new(5, false), Ok("fine".to_string()));
    assert_eq!(out, Ok("fine".to_string()));
    assert_eq!(pool.idle_len(), 1);
}

/// Capacity 2, 2 workers, 5 concurrent blocking run-command submissions
/// against a reachable target: all 5 callbacks fire with success, and the
/// idle set ends no larger than the number of connections actually dialed.
#[test]
fn five_commands_on_two_workers_all_succeed() {
    let dialed = vec![Connection::new(0, true), Connection::new(1, true)];
    let mut service = SSHConnectionPool::new(dialed, 2);
    let mut next_id: u64 = 2;
    let mut total_dialed: u64 = 2;

    for i in 0..5 {
        service.ssh(format!("echo {i}"));
    }
    assert_eq!(service.thread_pool.queue_len(), 5);

    // Each worker in turn: dequeue, acquire (dialing a fresh connection when
    // the idle set is dry), execute one attempt, release and deliver.
    let mut callbacks: Vec<(u64, Result<String, Error>)> = Vec::new();
    while let Some(task) = service.thread_pool.take_job() {
        let command = match task.job {
            Job::Command { command } => command,
            other => panic!("unexpected job kind: {other:?}"),
        };
        let conn = match service.pool.try_acquire() {
            Some(c) => c,
            None => {
                // The blocking acquire path: dial until one authenticates.
                let fresh = ResourcePool::accept_dialed(Some(Connection::new(next_id, true)))
                    .expect("a reachable target authenticates");
                next_id += 1;
                total_dialed += 1;
                fresh
            }
        };
        let attempt = run_command_outcome(&command, format!("ran {command}"), &String::new());
        let payload = retry_attempt(&mut service.pool, conn, attempt)
            .expect("an attempt with empty stderr succeeds");
        service.thread_pool.deliver(task.id);
        callbacks.push((task.id, Ok(payload)));
    }

    assert_eq!(callbacks.len(), 5);
    let mut ids: Vec<u64> = callbacks.iter().map(|(id, _)| *id).collect();
    ids.sort();
    assert_eq!(ids, vec![0, 1, 2, 3, 4]);
    for (_, outcome) in &callbacks {
        assert!(outcome.is_ok());
    }
    assert!(total_dialed >= 2);
    assert!((service.pool.idle_len() as u64) <= total_dialed);
}
