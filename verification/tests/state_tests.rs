use chatload::State;

#[test]
fn new_state_is_all_zero() {
    let s = State::new();
    assert_eq!(s.rooms_created, 0);
    assert_eq!(s.clients_connected, 0);
    assert_eq!(s.loop_avg_sum, 0);
    assert_eq!(s.loop_avg_count, 0);
}

#[test]
fn increments_move_one_counter_each() {
    let mut s = State::new();
    s.inc_clients_connected();
    s.inc_clients_connected();
    s.inc_rooms_created();
    assert_eq!(s.clients_connected, 2);
    assert_eq!(s.rooms_created, 1);
    assert_eq!(s.loop_avg_sum, 0);
    assert_eq!(s.loop_avg_count, 0);
}

#[test]
fn dump_reads_totals_and_resets_loop_counters_together() {
    let mut s = State::new();
    s.inc_rooms_created();
    s.inc_clients_connected();
    s.register_loop_iteration(1500);
    s.register_loop_iteration(500);
    let d = s.reset_loop_and_dump();
    assert_eq!(d.rooms_created, 1);
    assert_eq!(d.clients_connected, 1);
    assert_eq!(d.loop_avg_sum, 2000);
    assert_eq!(d.loop_avg_count, 2);
    assert_eq!(s.loop_avg_sum, 0);
    assert_eq!(s.loop_avg_count, 0);
    // The monotonic totals are not reset.
    assert_eq!(s.rooms_created, 1);
    assert_eq!(s.clients_connected, 1);
}

#[test]
fn second_dump_covers_only_later_iterations() {
    let mut s = State::new();
    s.register_loop_iteration(100);
    s.register_loop_iteration(200);
    let first = s.reset_loop_and_dump();
    assert_eq!(first.loop_avg_count, 2);
    s.register_loop_iteration(999);
    let second = s.reset_loop_and_dump();
    assert_eq!(second.loop_avg_count, 1);
    assert_eq!(second.loop_avg_sum, 999);
}

#[test]
fn average_guards_division_by_zero() {
    let mut s = State::new();
    let empty = s.reset_loop_and_dump();
    assert_eq!(empty.loop_avg_count, 0);
    assert_eq!(empty.loop_average(), 0);
}

#[test]
fn average_is_sum_over_count() {
    let mut s = State::new();
    s.register_loop_iteration(100);
    s.register_loop_iteration(251);
    let d = s.reset_loop_and_dump();
    assert_eq!(d.loop_average(), 175);
}
