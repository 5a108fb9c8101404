use netcore::identity::{NetworkIdentity, NetworkRole};
use netcore::rollback::RollbackState;
use netcore::tick::{FixedStepAccumulator, TickManager};

#[test]
fn tick_starts_at_zero_and_advances_by_one() {
    let mut tm = TickManager::new();
    assert_eq!(tm.tick(), 0);
    tm.advance();
    tm.advance();
    tm.advance();
    assert_eq!(tm.tick(), 3);
}

#[test]
fn tick_or_rollback_tick_prefers_replay_cursor() {
    let mut tm = TickManager::new();
    for _ in 0..10 {
        tm.advance();
    }
    assert_eq!(tm.tick_or_rollback_tick(&RollbackState::Live), 10);
    assert_eq!(
        tm.tick_or_rollback_tick(&RollbackState::Replaying { cursor: 7 }),
        7
    );
}

#[test]
fn accumulator_turns_wall_time_into_whole_steps() {
    // One step at 64 Hz is 15625 microseconds.
    let mut acc = FixedStepAccumulator::new(15625);
    assert_eq!(acc.add_time(15625 * 2 + 100), 2);
    assert_eq!(acc.accumulated_micros, 100);
    assert_eq!(acc.add_time(15525), 1);
    assert_eq!(acc.accumulated_micros, 0);
    assert_eq!(acc.add_time(14), 0);
    assert_eq!(acc.accumulated_micros, 14);
}

#[test]
fn roles_are_mutually_exclusive() {
    let server = NetworkIdentity::new(NetworkRole::Server);
    assert!(server.is_server());
    assert!(!server.is_client());
    let client = NetworkIdentity::new(NetworkRole::Client);
    assert!(client.is_client());
    assert!(!client.is_server());
}
