use chatload::{Population, State};

#[test]
fn full_population_counts_rooms_times_clients() {
    let rooms = 3u32;
    let clients_per_room = 4u32;
    let mut metrics = State::new();
    for _ in 0..rooms {
        let mut p = Population::new(clients_per_room);
        for _ in 0..clients_per_room {
            p.client_connected(&mut metrics);
        }
        assert!(p.is_complete());
        p.room_created(&mut metrics);
    }
    assert_eq!(metrics.clients_connected, (rooms * clients_per_room) as u64);
    assert_eq!(metrics.rooms_created, rooms as u64);
}

#[test]
fn connect_failure_aborts_before_the_room_starts() {
    let clients_per_room = 5u32;
    let k = 3u32;  // the k-th connection attempt fails
    let mut metrics = State::new();
    let mut p = Population::new(clients_per_room);
    for _ in 0..k - 1 {
        p.client_connected(&mut metrics);
    }
    p.client_failed();
    // Only the k-1 successes were recorded, the room was never created,
    // and the aborted room can never become complete.
    assert_eq!(metrics.clients_connected, (k - 1) as u64);
    assert_eq!(metrics.rooms_created, 0);
    assert!(!p.is_complete());
}

#[test]
fn abort_is_permanent() {
    let mut metrics = State::new();
    let mut p = Population::new(2);
    p.client_connected(&mut metrics);
    p.client_failed();
    assert!(!p.is_complete());
    assert_eq!(metrics.clients_connected, 1);
}
