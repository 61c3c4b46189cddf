use vstd::prelude::*;

use crate::connection::Connection;

verus! {

/// Whether a dialed connection passed authentication.
pub open spec fn conn_is_live(c: Connection) -> bool {
    c.live
}

/// The pool of idle connections.
///
/// The idle set is last-in-first-out: the most recently released connection
/// is the next to be popped. Its size is bounded below by zero only; a
/// release may grow it past the size it was constructed with.
pub struct ResourcePool {
    /// The idle set, oldest first; the last element is the next popped.
    pub idle: Vec<Connection>,
}

impl ResourcePool {
    /// The idle set, oldest first.
    pub open spec fn idle_set(self) -> Seq<Connection> {
        self.idle@
    }

    /// The standing invariant of the idle set: a connection enters it only
    /// after passing its liveness probe, so every member is live.
    pub open spec fn wf(self) -> bool {
        forall|i: int| 0 <= i < self.idle_set().len() ==> #[trigger] self.idle_set()[i].live
    }

    /// A pool whose idle set holds, of the freshly dialed connections, exactly
    /// those that authenticated, in dial order: per-connection dial failures
    /// are skipped, not retried, so the pool may start smaller than asked for.
    pub fn initialize(dialed: Vec<Connection>) -> (p: ResourcePool)
        ensures
            p.idle_set() == dialed@.filter(|c: Connection| conn_is_live(c)),
            p.wf(),
    {
        let mut idle: Vec<Connection> = Vec::new();
        let mut i: usize = 0;
        while i < dialed.len()
            invariant
                i <= dialed.len(),
                idle@ == dialed@.take(i as int).filter(|c: Connection| conn_is_live(c)),
                forall|j: int| 0 <= j < idle@.len() ==> #[trigger] idle@[j].live,
            decreases dialed.len() - i,
        {
            let c = dialed[i];
            proof {
                reveal(Seq::filter);
                assert(dialed@.take(i + 1).drop_last() =~= dialed@.take(i as int));
                assert(dialed@.take(i + 1).last() == dialed@[i as int]);
            }
            if c.authenticated() {
                idle.push(c);
            }
            i = i + 1;
        }
        proof {
            assert(dialed@.take(dialed@.len() as int) =~= dialed@);
        }
        ResourcePool { idle }
    }

    /// The number of idle connections.
    pub fn idle_len(&self) -> (n: usize)
        ensures
            n == self.idle_set().len(),
    {
        self.idle.len()
    }

    /// Non-blocking acquisition: pops the idle set only if it is non-empty
    /// and the popped connection is live; never dials, never blocks. On an
    /// empty idle set nothing changes; a popped stale connection is dropped.
    pub fn try_acquire(&mut self) -> (r: Option<Connection>)
        ensures
            old(self).idle_set().len() == 0 ==> r is None && final(self).idle_set() == old(
                self,
            ).idle_set(),
            old(self).idle_set().len() > 0 ==> final(self).idle_set() == old(
                self,
            ).idle_set().drop_last(),
            old(self).idle_set().len() > 0 && old(self).idle_set().last().live ==> r == Some(
                old(self).idle_set().last(),
            ),
            old(self).idle_set().len() > 0 && !old(self).idle_set().last().live ==> r is None,
            r matches Some(c) ==> c.live,
            old(self).wf() ==> final(self).wf(),
    {
        match self.idle.pop() {
            Some(c) => {
                if c.authenticated() {
                    Some(c)
                } else {
                    None
                }
            },
            None => None,
        }
    }

    /// Validated release: re-probes liveness; a live connection is pushed
    /// back onto the idle set (unconditionally, even past the size the pool
    /// was constructed with), a stale one is dropped and the pool shrinks.
    pub fn release(&mut self, c: Connection) -> (r: bool)
        ensures
            c.live ==> r && final(self).idle_set() == old(self).idle_set().push(c),
            !c.live ==> !r && final(self).idle_set() == old(self).idle_set(),
            old(self).wf() ==> final(self).wf(),
    {
        if c.authenticated() {
            self.idle.push(c);
            true
        } else {
            false
        }
    }

    /// Explicit shutdown: drains the idle set and hands every idle
    /// connection back, oldest first, for its session to be closed.
    pub fn shutdown(&mut self) -> (drained: Vec<Connection>)
        ensures
            drained@ == old(self).idle_set(),
            final(self).idle_set().len() == 0,
            final(self).wf(),
    {
        let mut drained: Vec<Connection> = Vec::new();
        std::mem::swap(&mut drained, &mut self.idle);
        drained
    }

    /// The dial side of the blocking acquire loop: of one dial attempt's
    /// outcome, accepts only a connection that authenticated. The loop around
    /// it keeps dialing until this accepts, so whatever acquisition returns
    /// has passed its liveness probe.
    pub fn accept_dialed(dialed: Option<Connection>) -> (r: Option<Connection>)
        ensures
            r matches Some(c) ==> dialed == Some(c) && c.live,
            (dialed matches Some(c) && c.live) ==> r == dialed,
            r is None <==> (dialed is None || !dialed->Some_0.live),
    {
        match dialed {
            Some(c) => {
                if c.authenticated() {
                    Some(c)
                } else {
                    None
                }
            },
            None => None,
        }
    }
}

} // verus!
