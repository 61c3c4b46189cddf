use vstd::prelude::*;

use crate::connection::Connection;

verus! {

/// The identities of a run of connections, in the same order.
pub open spec fn idle_ids(idle: Seq<Connection>) -> Seq<u64> {
    idle.map_values(|c: Connection| c.id)
}

/// Where every connection dialed over the process lifetime currently is.
///
/// The executable pool stores only the idle set; a checked-out connection is
/// owned by the one job that popped it, and a stale one is dropped. This
/// model follows each connection identity across the whole system and shows
/// that every step the system performs — dialing for a waiting job, popping
/// the idle set, releasing live, dropping stale — keeps each identity in
/// exactly one place: no connection is ever owned twice, and none vanishes
/// except by being dropped after a failed probe.
pub struct PoolWorld {
    /// Identities in the idle set, oldest first.
    pub idle: Seq<u64>,
    /// Identities each owned by one executing job.
    pub checked_out: Set<u64>,
    /// Identities dropped after a failed liveness probe.
    pub dropped: Set<u64>,
    /// How many connections have been dialed; identities run from 0 to here.
    pub dialed: u64,
}

impl PoolWorld {
    /// In how many of the three places this identity currently is.
    pub open spec fn places(self, id: u64) -> int {
        (if self.idle.contains(id) {
            1int
        } else {
            0int
        }) + (if self.checked_out.contains(id) {
            1int
        } else {
            0int
        }) + (if self.dropped.contains(id) {
            1int
        } else {
            0int
        })
    }

    /// The ownership invariant: every dialed identity is in exactly one
    /// place, an undialed one nowhere, and the idle set holds no identity
    /// twice.
    pub open spec fn inv(self) -> bool {
        &&& self.idle.no_duplicates()
        &&& forall|id: u64| id < self.dialed ==> #[trigger] self.places(id) == 1
        &&& forall|id: u64| id >= self.dialed ==> #[trigger] self.places(id) == 0
    }

    /// The world before anything is dialed.
    pub open spec fn init() -> PoolWorld {
        PoolWorld { idle: Seq::empty(), checked_out: Set::empty(), dropped: Set::empty(), dialed: 0 }
    }

    /// A fresh connection is dialed by a waiting job and checked out by it at
    /// once (the dial path of the blocking acquire, and of the initial fill,
    /// where the filling context then releases it).
    pub open spec fn dial_checkout(self) -> PoolWorld {
        PoolWorld {
            checked_out: self.checked_out.insert(self.dialed),
            dialed: (self.dialed + 1) as u64,
            ..self
        }
    }

    /// One job pops the most recent idle connection, whose probe passes, and
    /// owns it.
    pub open spec fn acquire_pop(self) -> PoolWorld {
        PoolWorld {
            idle: self.idle.drop_last(),
            checked_out: self.checked_out.insert(self.idle.last()),
            ..self
        }
    }

    /// The most recent idle connection is popped, fails its probe, and is
    /// dropped.
    pub open spec fn pop_stale(self) -> PoolWorld {
        PoolWorld { idle: self.idle.drop_last(), dropped: self.dropped.insert(self.idle.last()), ..self }
    }

    /// The job owning a connection releases it and its probe passes: it is
    /// pushed back onto the idle set.
    pub open spec fn release_live(self, id: u64) -> PoolWorld {
        PoolWorld { idle: self.idle.push(id), checked_out: self.checked_out.remove(id), ..self }
    }

    /// The job owning a connection releases it and its probe fails: it is
    /// dropped, and the pool shrinks for good.
    pub open spec fn release_dead(self, id: u64) -> PoolWorld {
        PoolWorld { checked_out: self.checked_out.remove(id), dropped: self.dropped.insert(id), ..self }
    }
}

/// The empty world satisfies the ownership invariant.
pub proof fn lemma_init_inv()
    ensures
        PoolWorld::init().inv(),
{
    assert forall|id: u64| #[trigger] PoolWorld::init().places(id) == 0 by {
        assert(!PoolWorld::init().idle.contains(id));
    }
}

/// Dialing for a waiting job preserves the ownership invariant: the fresh
/// identity goes from nowhere to checked out, every other stays put.
pub proof fn lemma_dial_checkout_inv(w: PoolWorld)
    requires
        w.inv(),
        w.dialed < u64::MAX,
    ensures
        w.dial_checkout().inv(),
{
    let v = w.dial_checkout();
    assert(v.idle == w.idle);
    assert forall|id: u64| id < v.dialed implies #[trigger] v.places(id) == 1 by {
        if id == w.dialed {
            assert(w.places(id) == 0);
            assert(v.checked_out.contains(id));
        } else {
            assert(w.places(id) == 1);
            assert(v.checked_out.contains(id) == w.checked_out.contains(id));
        }
    }
    assert forall|id: u64| id >= v.dialed implies #[trigger] v.places(id) == 0 by {
        assert(w.places(id) == 0);
        assert(v.checked_out.contains(id) == w.checked_out.contains(id));
    }
}

/// What popping the last element does to idle membership: the popped identity
/// leaves (it sat nowhere else in the idle set), the others stay.
proof fn lemma_drop_last_contains(s: Seq<u64>, id: u64)
    requires
        s.len() > 0,
        s.no_duplicates(),
    ensures
        id == s.last() ==> !s.drop_last().contains(id),
        id != s.last() ==> (s.drop_last().contains(id) <==> s.contains(id)),
        s.contains(s.last()),
        s.drop_last().no_duplicates(),
{
    if id == s.last() {
        assert forall|i: int| 0 <= i < s.drop_last().len() implies s.drop_last()[i] != id by {
            assert(s[i] == s.drop_last()[i]);
            assert(s[i] != s[s.len() - 1]);
        }
    } else {
        if s.contains(id) {
            let i = choose|i: int| 0 <= i < s.len() && s[i] == id;
            assert(i < s.len() - 1);
            assert(s.drop_last()[i] == id);
        }
        if s.drop_last().contains(id) {
            let i = choose|i: int| 0 <= i < s.drop_last().len() && s.drop_last()[i] == id;
            assert(s[i] == id);
        }
    }
}

/// Popping a live connection into a job preserves the ownership invariant:
/// the popped identity moves from idle to checked out, the rest stay put.
pub proof fn lemma_acquire_pop_inv(w: PoolWorld)
    requires
        w.inv(),
        w.idle.len() > 0,
    ensures
        w.acquire_pop().inv(),
{
    let v = w.acquire_pop();
    let last = w.idle.last();
    lemma_drop_last_contains(w.idle, last);
    assert(w.places(last) == 1);
    assert forall|id: u64| id < v.dialed implies #[trigger] v.places(id) == 1 by {
        lemma_drop_last_contains(w.idle, id);
        assert(w.places(id) == 1);
    }
    assert forall|id: u64| id >= v.dialed implies #[trigger] v.places(id) == 0 by {
        lemma_drop_last_contains(w.idle, id);
        assert(w.places(id) == 0);
    }
}

/// Popping a stale connection straight to dropped preserves the ownership
/// invariant.
pub proof fn lemma_pop_stale_inv(w: PoolWorld)
    requires
        w.inv(),
        w.idle.len() > 0,
    ensures
        w.pop_stale().inv(),
{
    let v = w.pop_stale();
    let last = w.idle.last();
    lemma_drop_last_contains(w.idle, last);
    assert(w.places(last) == 1);
    assert forall|id: u64| id < v.dialed implies #[trigger] v.places(id) == 1 by {
        lemma_drop_last_contains(w.idle, id);
        assert(w.places(id) == 1);
    }
    assert forall|id: u64| id >= v.dialed implies #[trigger] v.places(id) == 0 by {
        lemma_drop_last_contains(w.idle, id);
        assert(w.places(id) == 0);
    }
}

/// What pushing does to idle membership.
proof fn lemma_push_contains(s: Seq<u64>, pushed: u64, id: u64)
    ensures
        s.push(pushed).contains(id) <==> (s.contains(id) || id == pushed),
{
    if s.contains(id) {
        let i = choose|i: int| 0 <= i < s.len() && s[i] == id;
        assert(s.push(pushed)[i] == id);
    }
    if id == pushed {
        assert(s.push(pushed)[s.len() as int] == id);
    }
    if s.push(pushed).contains(id) && id != pushed {
        let i = choose|i: int| 0 <= i < s.push(pushed).len() && s.push(pushed)[i] == id;
        assert(i < s.len());
        assert(s[i] == id);
    }
}

/// Releasing a connection whose probe passes preserves the ownership
/// invariant: its identity moves from its one owning job back to idle.
pub proof fn lemma_release_live_inv(w: PoolWorld, id: u64)
    requires
        w.inv(),
        w.checked_out.contains(id),
    ensures
        w.release_live(id).inv(),
{
    let v = w.release_live(id);
    assert(w.places(id) == 1);
    assert(!w.idle.contains(id));
    assert forall|i: int, j: int|
        0 <= i < v.idle.len() && 0 <= j < v.idle.len() && i != j implies v.idle[i] != v.idle[j] by {
        if i < w.idle.len() && j < w.idle.len() {
            assert(v.idle[i] == w.idle[i] && v.idle[j] == w.idle[j]);
        } else if i < w.idle.len() {
            assert(v.idle[j] == id && v.idle[i] == w.idle[i]);
            assert(w.idle.contains(w.idle[i]));
        } else {
            assert(v.idle[i] == id && v.idle[j] == w.idle[j]);
            assert(w.idle.contains(w.idle[j]));
        }
    }
    assert forall|x: u64| x < v.dialed implies #[trigger] v.places(x) == 1 by {
        lemma_push_contains(w.idle, id, x);
        assert(w.places(x) == 1);
    }
    assert forall|x: u64| x >= v.dialed implies #[trigger] v.places(x) == 0 by {
        lemma_push_contains(w.idle, id, x);
        assert(w.places(x) == 0);
    }
}

/// Releasing a connection whose probe fails preserves the ownership
/// invariant: its identity moves from its one owning job to dropped, and is
/// never owned again.
pub proof fn lemma_release_dead_inv(w: PoolWorld, id: u64)
    requires
        w.inv(),
        w.checked_out.contains(id),
    ensures
        w.release_dead(id).inv(),
{
    let v = w.release_dead(id);
    assert(w.places(id) == 1);
    assert forall|x: u64| x < v.dialed implies #[trigger] v.places(x) == 1 by {
        assert(w.places(x) == 1);
    }
    assert forall|x: u64| x >= v.dialed implies #[trigger] v.places(x) == 0 by {
        assert(w.places(x) == 0);
    }
}

/// Popping the pool's idle set — what acquisition does to it — acts on a
/// world tracking those identities as `acquire_pop` (live head) or
/// `pop_stale` (stale head) does.
pub proof fn lemma_pop_matches_world(w: PoolWorld, idle: Seq<Connection>)
    requires
        idle.len() > 0,
        w.idle == idle_ids(idle),
    ensures
        w.acquire_pop().idle == idle_ids(idle.drop_last()),
        w.pop_stale().idle == idle_ids(idle.drop_last()),
        w.acquire_pop().checked_out == w.checked_out.insert(idle.last().id),
        w.pop_stale().dropped == w.dropped.insert(idle.last().id),
{
    assert(idle_ids(idle).drop_last() =~= idle_ids(idle.drop_last()));
    assert(idle_ids(idle).last() == idle.last().id);
}

/// Pushing onto the pool's idle set — what a validated release of a live
/// connection does to it — acts on a world tracking those identities as
/// `release_live` does.
pub proof fn lemma_push_matches_world(w: PoolWorld, idle: Seq<Connection>, c: Connection)
    requires
        w.idle == idle_ids(idle),
    ensures
        w.release_live(c.id).idle == idle_ids(idle.push(c)),
        w.release_live(c.id).checked_out == w.checked_out.remove(c.id),
{
    assert(idle_ids(idle).push(c.id) =~= idle_ids(idle.push(c)));
}

/// The idle set never holds more connections than were ever dialed, however
/// many acquisitions and releases have run.
pub proof fn lemma_idle_bounded_by_dialed(w: PoolWorld)
    requires
        w.inv(),
    ensures
        w.idle.len() <= w.dialed,
{
    let ints = w.idle.map_values(|id: u64| id as int);
    w.idle.lemma_no_duplicates_injective(|id: u64| id as int);
    ints.unique_seq_to_set();
    assert forall|x: int| ints.to_set().contains(x) implies vstd::set_lib::set_int_range(
        0,
        w.dialed as int,
    ).contains(x) by {
        let i = choose|i: int| 0 <= i < ints.len() && ints[i] == x;
        assert(w.places(w.idle[i]) == 1);
    }
    vstd::set_lib::lemma_int_range(0, w.dialed as int);
    vstd::set_lib::lemma_len_subset(
        ints.to_set(),
        vstd::set_lib::set_int_range(0, w.dialed as int),
    );
}

/// Exclusive ownership: under the invariant, every dialed connection is in
/// exactly one place — idle, checked out by one job, or dropped — so none is
/// owned by two callers at once, and none vanishes except by being dropped
/// after a failed probe.
pub proof fn lemma_exclusive_ownership(w: PoolWorld, id: u64)
    requires
        w.inv(),
        id < w.dialed,
    ensures
        w.idle.contains(id) || w.checked_out.contains(id) || w.dropped.contains(id),
        !(w.idle.contains(id) && w.checked_out.contains(id)),
        !(w.idle.contains(id) && w.dropped.contains(id)),
        !(w.checked_out.contains(id) && w.dropped.contains(id)),
{
    assert(w.places(id) == 1);
}

} // verus!
