use vstd::multiset::Multiset;
use vstd::prelude::*;

use crate::connection::Connection;

verus! {

broadcast use vstd::seq_lib::group_to_multiset_ensures, vstd::multiset::group_multiset_axioms;

/// A unit of caller-supplied work. The blocking kinds acquire a connection
/// inside the job and retry until an attempt succeeds; the single-attempt
/// kinds carry the connection that was popped when they were submitted and
/// deliver their one outcome as it is.
#[derive(Debug, Clone, PartialEq, Eq)]
pub enum Job {
    /// Run a command, acquiring and retrying until an attempt succeeds.
    Command { command: String },
    /// Run a command once on the connection popped at submission.
    CommandOnce { command: String, conn: Connection },
    /// Upload content to a destination path, acquiring and retrying.
    Upload { content: String, dest_path: String },
    /// Upload once on the connection popped at submission.
    UploadOnce { content: String, dest_path: String, conn: Connection },
}

/// One accepted submission: a job and the identity under which its callback
/// is owed. The callback itself is held by the caller's side, keyed by this
/// identity.
#[derive(Debug, Clone, PartialEq, Eq)]
pub struct Task {
    /// Identity of the submission: the number of submissions accepted before it.
    pub id: u64,
    /// The work to run.
    pub job: Job,
}

/// The identities of the first `n` accepted submissions.
pub open spec fn id_range(n: u64) -> Seq<u64> {
    Seq::new(n as nat, |i: int| i as u64)
}

/// The fixed set of workers and the FIFO queue of (job, callback) pairs they
/// consume.
///
/// Each accepted submission is in exactly one of three places: still queued,
/// executing on some worker (`running`), or delivered (`delivered`, in the
/// order the callbacks were invoked). The queue is unbounded, so submission
/// never blocks the caller and never drops an accepted pair.
pub struct TaskExecutor {
    /// How many workers consume the queue; fixed at construction.
    pub worker_count: usize,
    /// Accepted submissions not yet taken by a worker, front first.
    pub queue: Vec<Task>,
    /// How many submissions have been accepted; also the next identity.
    pub accepted: u64,
    /// Identities taken by a worker whose callback has not yet been invoked.
    pub running: Vec<u64>,
    /// Identities whose callback has been invoked, in invocation order.
    pub delivered: Vec<u64>,
}

impl TaskExecutor {
    /// The identities still queued, front first.
    pub open spec fn queue_ids(self) -> Seq<u64> {
        self.queue@.map_values(|t: Task| t.id)
    }

    /// Every accepted identity, wherever it currently is.
    pub open spec fn all_ids(self) -> Multiset<u64> {
        self.queue_ids().to_multiset().add(self.running@.to_multiset()).add(
            self.delivered@.to_multiset(),
        )
    }

    /// The accounting invariant: the identities queued, running and delivered
    /// are together exactly one occurrence of each accepted identity.
    pub open spec fn wf(self) -> bool {
        self.all_ids() == id_range(self.accepted).to_multiset()
    }

    /// An executor with the given fixed number of workers and nothing
    /// submitted yet.
    pub fn new(worker_count: usize) -> (e: TaskExecutor)
        ensures
            e.worker_count == worker_count,
            e.accepted == 0,
            e.queue@.len() == 0,
            e.running@.len() == 0,
            e.delivered@.len() == 0,
            e.wf(),
    {
        let e = TaskExecutor {
            worker_count,
            queue: Vec::new(),
            accepted: 0,
            running: Vec::new(),
            delivered: Vec::new(),
        };
        proof {
            assert(id_range(0) =~= Seq::<u64>::empty());
            assert(e.queue_ids() =~= Seq::<u64>::empty());
            assert(e.all_ids() =~= id_range(0).to_multiset());
        }
        e
    }

    /// Accepts one (job, callback) pair: appends it to the queue under the
    /// next identity. The queue is unbounded, so acceptance never blocks and
    /// never drops a pair.
    pub fn submit(&mut self, job: Job) -> (id: u64)
        requires
            old(self).accepted < u64::MAX,
        ensures
            id == old(self).accepted,
            final(self).accepted == old(self).accepted + 1,
            final(self).queue@ == old(self).queue@.push((Task { id, job })),
            final(self).running@ == old(self).running@,
            final(self).delivered@ == old(self).delivered@,
            final(self).worker_count == old(self).worker_count,
            old(self).wf() ==> final(self).wf(),
    {
        let id = self.accepted;
        let ghost pre = *self;
        self.queue.push(Task { id, job });
        self.accepted = self.accepted + 1;
        proof {
            assert(self.queue_ids() =~= pre.queue_ids().push(id));
            assert(id_range(self.accepted) =~= id_range(pre.accepted).push(id));
            if pre.wf() {
                assert(self.all_ids() =~= id_range(self.accepted).to_multiset());
            }
        }
        id
    }

    /// One worker dequeues the front pair; its job is now executing on that
    /// worker. With an empty queue nothing changes (a real worker blocks).
    pub fn take_job(&mut self) -> (t: Option<Task>)
        ensures
            old(self).queue@.len() == 0 ==> t is None && final(self).queue@ == old(self).queue@
                && final(self).running@ == old(self).running@,
            old(self).queue@.len() > 0 ==> t == Some(old(self).queue@[0]) && final(self).queue@
                == old(self).queue@.drop_first() && final(self).running@ == old(
                self,
            ).running@.push(old(self).queue@[0].id),
            final(self).accepted == old(self).accepted,
            final(self).delivered@ == old(self).delivered@,
            final(self).worker_count == old(self).worker_count,
            old(self).wf() ==> final(self).wf(),
    {
        if self.queue.len() == 0 {
            return None;
        }
        let ghost pre = *self;
        let task = self.queue.remove(0);
        self.running.push(task.id);
        proof {
            assert(pre.queue@.remove(0) =~= pre.queue@.drop_first());
            assert(self.queue_ids() =~= pre.queue_ids().drop_first());
            assert(pre.queue_ids().drop_first() =~= pre.queue_ids().remove(0));
            if pre.wf() {
                assert(self.queue_ids().to_multiset() =~= pre.queue_ids().to_multiset().remove(
                    task.id,
                ));
                assert(pre.queue_ids().to_multiset().count(task.id) > 0);
                assert(self.all_ids() =~= pre.all_ids());
            }
        }
        Some(task)
    }

    /// The worker that executed a job invokes its callback: the identity
    /// moves from running to delivered — once, since it is removed as it
    /// moves.
    pub fn deliver(&mut self, id: u64)
        requires
            old(self).running@.contains(id),
        ensures
            final(self).running@.to_multiset() == old(self).running@.to_multiset().remove(id),
            final(self).running@.len() == old(self).running@.len() - 1,
            final(self).delivered@ == old(self).delivered@.push(id),
            final(self).queue@ == old(self).queue@,
            final(self).accepted == old(self).accepted,
            final(self).worker_count == old(self).worker_count,
            old(self).wf() ==> final(self).wf(),
    {
        let ghost pre = *self;
        let n: usize = self.running.len();
        let mut j: usize = 0;
        while self.running[j] != id
            invariant
                n == self.running@.len(),
                j < n,
                forall|t: int| 0 <= t < j ==> self.running@[t] != id,
                self.running@.contains(id),
            decreases self.running@.len() - j,
        {
            j = j + 1;
            proof {
                let t = choose|t: int|
                    0 <= t < self.running@.len() && self.running@[t] == id;
                assert(j <= t);
            }
        }
        self.running.remove(j);
        self.delivered.push(id);
        proof {
            assert(self.running@.to_multiset() =~= pre.running@.to_multiset().remove(id));
            if pre.wf() {
                assert(pre.running@.to_multiset().count(id) > 0);
                assert(self.all_ids() =~= pre.all_ids());
            }
        }
    }

    /// How many accepted submissions are still queued.
    pub fn queue_len(&self) -> (n: usize)
        ensures
            n == self.queue@.len(),
    {
        self.queue.len()
    }

    /// How many submissions have been accepted so far.
    pub fn accepted_count(&self) -> (n: u64)
        ensures
            n == self.accepted,
    {
        self.accepted
    }

    /// Whether the submission with this identity is executing on some worker.
    pub fn is_running(&self, id: u64) -> (r: bool)
        ensures
            r == self.running@.contains(id),
    {
        let mut j: usize = 0;
        while j < self.running.len()
            invariant
                j <= self.running@.len(),
                forall|t: int| 0 <= t < j ==> self.running@[t] != id,
            decreases self.running@.len() - j,
        {
            if self.running[j] == id {
                return true;
            }
            j = j + 1;
        }
        false
    }

    /// The fixed number of workers.
    pub fn workers(&self) -> (n: usize)
        ensures
            n == self.worker_count,
    {
        self.worker_count
    }
}

/// The multiplicity of one identity among the first `n`: once if accepted,
/// never otherwise.
pub proof fn lemma_id_range_count(n: u64, id: u64)
    ensures
        id_range(n).to_multiset().count(id) == if id < n {
            1int
        } else {
            0int
        },
    decreases n,
{
    if n == 0 {
        assert(id_range(0) =~= Seq::<u64>::empty());
        assert(!id_range(0).contains(id));
    } else {
        lemma_id_range_count((n - 1) as u64, id);
        assert(id_range(n) =~= id_range((n - 1) as u64).push((n - 1) as u64));
    }
}

/// Exactly-once delivery: once the queue is empty and no worker is executing
/// a job, the callbacks invoked are exactly one per accepted submission —
/// every accepted identity is delivered, none twice, none made up.
pub proof fn lemma_exactly_once_delivery(e: TaskExecutor)
    requires
        e.wf(),
        e.queue@.len() == 0,
        e.running@.len() == 0,
    ensures
        e.delivered@.len() == e.accepted,
        forall|id: u64| id < e.accepted ==> e.delivered@.to_multiset().count(id) == 1,
        forall|id: u64| id >= e.accepted ==> !e.delivered@.contains(id),
        e.delivered@.no_duplicates(),
{
    assert(e.queue_ids() =~= Seq::<u64>::empty());
    assert(e.queue_ids().to_multiset() =~= Multiset::<u64>::empty());
    assert(e.running@.to_multiset() =~= Multiset::<u64>::empty());
    assert(e.delivered@.to_multiset() =~= e.all_ids());
    assert forall|id: u64| #![all_triggers] true implies e.delivered@.to_multiset().count(id) == (
    if id < e.accepted {
        1int
    } else {
        0int
    }) by {
        lemma_id_range_count(e.accepted, id);
    }
    assert(id_range(e.accepted).to_multiset().len() == id_range(e.accepted).len());
    assert forall|id: u64| id >= e.accepted implies !e.delivered@.contains(id) by {
        assert(e.delivered@.to_multiset().count(id) == 0);
    }
    e.delivered@.lemma_multiset_has_no_duplicates_conv();
}

} // verus!
