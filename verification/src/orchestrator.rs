use vstd::prelude::*;

use crate::connection::Connection;
use crate::error::Error;
use crate::executor::{Job, Task, TaskExecutor};
use crate::pool::{conn_is_live, ResourcePool};

verus! {

/// Composes the resource pool and the task executor into the four
/// user-facing operations: blocking run-command and upload, which submit a
/// job that retries until an attempt succeeds, and their non-blocking
/// counterparts, which give up at once when no live idle connection is to be
/// had.
///
/// A caller's callback is owed exactly once per accepted submission, keyed by
/// the identity the submission returns; the workers run the jobs and settle
/// that debt through the executor.
pub struct SSHConnectionPool {
    /// The idle connections.
    pub pool: ResourcePool,
    /// The fixed workers and their queue of (job, callback) pairs.
    pub thread_pool: TaskExecutor,
}

impl SSHConnectionPool {
    /// A pool over the given freshly dialed connections — of which exactly
    /// the authenticated ones enter the idle set, dial failures being skipped
    /// — and the given fixed number of workers.
    pub fn new(dialed: Vec<Connection>, worker_count: usize) -> (s: Self)
        ensures
            s.pool.idle_set() == dialed@.filter(|c: Connection| conn_is_live(c)),
            s.pool.wf(),
            s.thread_pool.wf(),
            s.thread_pool.accepted == 0,
            s.thread_pool.queue@.len() == 0,
            s.thread_pool.running@.len() == 0,
            s.thread_pool.delivered@.len() == 0,
            s.thread_pool.worker_count == worker_count,
    {
        SSHConnectionPool {
            pool: ResourcePool::initialize(dialed),
            thread_pool: TaskExecutor::new(worker_count),
        }
    }

    /// Blocking run-command: accepts a retrying job for the command. The
    /// caller's callback is owed exactly once, under the returned identity,
    /// when some worker finishes the job; the pool is untouched until that
    /// worker acquires.
    pub fn ssh(&mut self, command: String) -> (id: u64)
        requires
            old(self).thread_pool.accepted < u64::MAX,
        ensures
            id == old(self).thread_pool.accepted,
            final(self).thread_pool.accepted == old(self).thread_pool.accepted + 1,
            final(self).thread_pool.queue@ == old(self).thread_pool.queue@.push(
                (Task { id, job: Job::Command { command } }),
            ),
            final(self).pool == old(self).pool,
            final(self).thread_pool.running@ == old(self).thread_pool.running@,
            final(self).thread_pool.delivered@ == old(self).thread_pool.delivered@,
            final(self).thread_pool.worker_count == old(self).thread_pool.worker_count,
            old(self).thread_pool.wf() ==> final(self).thread_pool.wf(),
    {
        self.thread_pool.submit(Job::Command { command })
    }

    /// Blocking upload: accepts a retrying job for the transfer; otherwise as
    /// run-command. The worker running it pauses briefly before each attempt
    /// to ease contention on the pool.
    pub fn scp(&mut self, content: String, dest_path: String) -> (id: u64)
        requires
            old(self).thread_pool.accepted < u64::MAX,
        ensures
            id == old(self).thread_pool.accepted,
            final(self).thread_pool.accepted == old(self).thread_pool.accepted + 1,
            final(self).thread_pool.queue@ == old(self).thread_pool.queue@.push(
                (Task { id, job: Job::Upload { content, dest_path } }),
            ),
            final(self).pool == old(self).pool,
            final(self).thread_pool.running@ == old(self).thread_pool.running@,
            final(self).thread_pool.delivered@ == old(self).thread_pool.delivered@,
            final(self).thread_pool.worker_count == old(self).thread_pool.worker_count,
            old(self).thread_pool.wf() ==> final(self).thread_pool.wf(),
    {
        self.thread_pool.submit(Job::Upload { content, dest_path })
    }

    /// Explicit shutdown: drains the idle set and hands every idle
    /// connection back for its session to be closed. Jobs still queued or
    /// running keep the connections they own until they finish.
    pub fn shutdown(&mut self) -> (drained: Vec<Connection>)
        ensures
            drained@ == old(self).pool.idle_set(),
            final(self).pool.idle_set().len() == 0,
            final(self).pool.wf(),
            final(self).thread_pool == old(self).thread_pool,
    {
        self.pool.shutdown()
    }

    /// Non-blocking run-command: pops the idle set without ever dialing or
    /// waiting. On an empty idle set it reports false with nothing changed at
    /// all; on a stale popped connection it reports false, the stale one
    /// dropped, nothing enqueued. Otherwise it accepts a single-attempt job
    /// carrying the popped live connection and reports true.
    pub fn try_ssh(&mut self, command: String) -> (r: bool)
        requires
            old(self).thread_pool.accepted < u64::MAX,
        ensures
            r <==> old(self).pool.idle_set().len() > 0 && old(self).pool.idle_set().last().live,
            old(self).pool.idle_set().len() == 0 ==> final(self).pool.idle_set() == old(
                self,
            ).pool.idle_set(),
            old(self).pool.idle_set().len() > 0 ==> final(self).pool.idle_set() == old(
                self,
            ).pool.idle_set().drop_last(),
            !r ==> final(self).thread_pool == old(self).thread_pool,
            r ==> final(self).thread_pool.queue@ == old(self).thread_pool.queue@.push(
                (Task {
                    id: old(self).thread_pool.accepted,
                    job: Job::CommandOnce { command, conn: old(self).pool.idle_set().last() },
                }),
            ) && final(self).thread_pool.accepted == old(self).thread_pool.accepted + 1,
            final(self).thread_pool.running@ == old(self).thread_pool.running@,
            final(self).thread_pool.delivered@ == old(self).thread_pool.delivered@,
            final(self).thread_pool.worker_count == old(self).thread_pool.worker_count,
            old(self).pool.wf() ==> final(self).pool.wf(),
            old(self).thread_pool.wf() ==> final(self).thread_pool.wf(),
    {
        match self.pool.try_acquire() {
            Some(conn) => {
                self.thread_pool.submit(Job::CommandOnce { command, conn });
                true
            },
            None => false,
        }
    }

    /// Non-blocking upload: as the non-blocking run-command, with a
    /// single-attempt transfer job.
    pub fn try_scp(&mut self, content: String, dest_path: String) -> (r: bool)
        requires
            old(self).thread_pool.accepted < u64::MAX,
        ensures
            r <==> old(self).pool.idle_set().len() > 0 && old(self).pool.idle_set().last().live,
            old(self).pool.idle_set().len() == 0 ==> final(self).pool.idle_set() == old(
                self,
            ).pool.idle_set(),
            old(self).pool.idle_set().len() > 0 ==> final(self).pool.idle_set() == old(
                self,
            ).pool.idle_set().drop_last(),
            !r ==> final(self).thread_pool == old(self).thread_pool,
            r ==> final(self).thread_pool.queue@ == old(self).thread_pool.queue@.push(
                (Task {
                    id: old(self).thread_pool.accepted,
                    job: Job::UploadOnce {
                        content,
                        dest_path,
                        conn: old(self).pool.idle_set().last(),
                    },
                }),
            ) && final(self).thread_pool.accepted == old(self).thread_pool.accepted + 1,
            final(self).thread_pool.running@ == old(self).thread_pool.running@,
            final(self).thread_pool.delivered@ == old(self).thread_pool.delivered@,
            final(self).thread_pool.worker_count == old(self).thread_pool.worker_count,
            old(self).pool.wf() ==> final(self).pool.wf(),
            old(self).thread_pool.wf() ==> final(self).thread_pool.wf(),
    {
        match self.pool.try_acquire() {
            Some(conn) => {
                self.thread_pool.submit(Job::UploadOnce { content, dest_path, conn });
                true
            },
            None => false,
        }
    }
}

/// One attempt of a retrying job, as the blocking operations run it: a
/// successful attempt gives the connection back through the validated release
/// and finishes with its payload; a failed attempt discards the connection —
/// the failure is absorbed, never delivered on this path — and the job
/// acquires afresh.
pub fn retry_attempt(pool: &mut ResourcePool, conn: Connection, attempt: Result<String, Error>) -> (r:
    Option<String>)
    ensures
        attempt matches Ok(s) ==> r == Some(s),
        attempt is Err ==> r is None,
        (attempt is Ok && conn.live) ==> final(pool).idle_set() == old(pool).idle_set().push(conn),
        (attempt is Err || !conn.live) ==> final(pool).idle_set() == old(pool).idle_set(),
        old(pool).wf() ==> final(pool).wf(),
{
    match attempt {
        Ok(payload) => {
            pool.release(conn);
            Some(payload)
        },
        Err(_) => None,
    }
}

/// The one attempt of a non-blocking job: its outcome, success or failure, is
/// what the callback is owed, and the connection goes back through the
/// validated release either way.
pub fn single_attempt(pool: &mut ResourcePool, conn: Connection, attempt: Result<String, Error>) -> (r:
    Result<String, Error>)
    ensures
        r == attempt,
        conn.live ==> final(pool).idle_set() == old(pool).idle_set().push(conn),
        !conn.live ==> final(pool).idle_set() == old(pool).idle_set(),
        old(pool).wf() ==> final(pool).wf(),
{
    pool.release(conn);
    attempt
}

} // verus!
