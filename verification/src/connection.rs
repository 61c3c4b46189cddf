use vstd::prelude::*;

verus! {

/// The model of one dialed remote session.
///
/// The session handle itself lives outside the library; what the pool's logic
/// reads of it is held here as plain values: an identity given at dial time,
/// and the session's cached authenticated flag, which the liveness probe
/// returns. The probe is a local read, not a network round trip, so the flag
/// does not change behind the model's back.
#[derive(Debug, Clone, Copy, PartialEq, Eq, Structural)]
pub struct Connection {
    /// Identity of the dialed session, distinct across every session dialed
    /// over the process lifetime.
    pub id: u64,
    /// The session's cached authenticated flag.
    pub live: bool,
}

impl Connection {
    /// Wraps one freshly dialed session, given its identity and whether its
    /// authentication succeeded.
    pub fn new(id: u64, live: bool) -> (c: Connection)
        ensures
            c.id == id,
            c.live == live,
    {
        Connection { id, live }
    }

    /// The liveness probe: returns the cached authenticated flag.
    pub fn authenticated(&self) -> (r: bool)
        ensures
            r == self.live,
    {
        self.live
    }
}

} // verus!
