use ssh_pool::connection::Connection;
use ssh_pool::pool::ResourcePool;

#[test]
fn initialize_keeps_only_authenticated_dials() {
    let dialed = vec![
        Connection::new(0, true),
        Connection::new(1, false),
        Connection::new(2, true),
    ];
    let pool = ResourcePool::initialize(dialed);
    assert_eq!(pool.idle_len(), 2);
}

#[test]
fn initialize_of_nothing_is_empty() {
    let pool = ResourcePool::initialize(Vec::new());
    assert_eq!(pool.idle_len(), 0);
}

#[test]
fn try_acquire_on_empty_idle_set_changes_nothing() {
    let mut pool = ResourcePool::initialize(Vec::new());
    assert_eq!(pool.try_acquire(), None);
    assert_eq!(pool.idle_len(), 0);
}

#[test]
fn try_acquire_pops_most_recent_live_connection() {
    let dialed = vec![Connection::new(0, true), Connection::new(1, true)];
    let mut pool = ResourcePool::initialize(dialed);
    let got = pool.try_acquire();
    assert_eq!(got, Some(Connection::new(1, true)));
    assert!(got.unwrap().authenticated());
    assert_eq!(pool.idle_len(), 1);
}

#[test]
fn try_acquire_drops_a_stale_head() {
    // A stale connection can only sit in the idle set if it was put there
    // directly; the constructors never do, so build the state by hand.
    let mut pool = ResourcePool { idle: vec![Connection::new(0, false)] };
    assert_eq!(pool.try_acquire(), None);
    assert_eq!(pool.idle_len(), 0);
}

#[test]
fn release_of_live_connection_pushes_it_back() {
    let mut pool = ResourcePool::initialize(Vec::new());
    assert!(pool.release(Connection::new(7, true)));
    assert_eq!(pool.idle_len(), 1);
    assert_eq!(pool.try_acquire(), Some(Connection::new(7, true)));
}

#[test]
fn release_of_stale_connection_never_grows_the_idle_set() {
    let dialed = vec![Connection::new(0, true)];
    let mut pool = ResourcePool::initialize(dialed);
    assert!(!pool.release(Connection::new(1, false)));
    assert_eq!(pool.idle_len(), 1);
}

#[test]
fn shutdown_drains_the_whole_idle_set() {
    let dialed = vec![Connection::new(0, true), Connection::new(1, true)];
    let mut pool = ResourcePool::initialize(dialed);
    let drained = pool.shutdown();
    assert_eq!(drained, vec![Connection::new(0, true), Connection::new(1, true)]);
    assert_eq!(pool.idle_len(), 0);
    assert_eq!(pool.try_acquire(), None);
}

#[test]
fn accept_dialed_takes_only_authenticated_sessions() {
    assert_eq!(ResourcePool::accept_dialed(None), None);
    assert_eq!(ResourcePool::accept_dialed(Some(Connection::new(3, false))), None);
    assert_eq!(
        ResourcePool::accept_dialed(Some(Connection::new(3, true))),
        Some(Connection::new(3, true))
    );
}
