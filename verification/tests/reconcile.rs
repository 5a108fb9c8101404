use netcore::config::{shared_config, SimulationMode, FIXED_TIMESTEP_HZ};
use netcore::identity::NetworkRole;
use netcore::registry::{ApplyDecision, Direction, ReplicationRegistry, SyncMode};
use netcore::rollback::{
    replay, step, CorrectionOutcome, RollbackController, RollbackState, RollbackWindow,
};
use netcore::sync::{apply_incoming, AppliedAs, SimpleValue};

#[test]
fn window_stays_contiguous_while_evicting() {
    let mut w = RollbackWindow::new(3, 0, 0);
    for _ in 0..5 {
        w.advance(true);
    }
    assert_eq!(w.current_tick(), 5);
    // Exactly the range [current - depth, current] is held.
    assert_eq!(w.get(1), None);
    assert_eq!(w.get(2), Some(2));
    assert_eq!(w.get(3), Some(3));
    assert_eq!(w.get(4), Some(4));
    assert_eq!(w.get(5), Some(5));
    assert_eq!(w.get(6), None);
}

#[test]
fn prediction_steps_by_recorded_input() {
    let mut w = RollbackWindow::new(8, 0, 10);
    w.advance(true);
    w.advance(false);
    w.advance(true);
    assert_eq!(w.get(0), Some(10));
    assert_eq!(w.get(1), Some(11));
    assert_eq!(w.get(2), Some(11));
    assert_eq!(w.get(3), Some(12));
}

#[test]
fn step_and_replay_are_deterministic_functions() {
    assert_eq!(step(4, true), 5);
    assert_eq!(step(4, false), 4);
    assert_eq!(step(i64::MAX, true), i64::MIN);
    let inputs = vec![true, false, true, true];
    assert_eq!(replay(0, &inputs), 3);
    // Identical base and inputs always reproduce identical results.
    assert_eq!(replay(0, &inputs), replay(0, &inputs));
}

#[test]
fn matching_correction_is_a_no_op() {
    let mut c = RollbackController::new(8, 0, 96, 1);
    for pressed in [true, true, true, true] {
        c.advance_tick(pressed);
    }
    assert_eq!(c.apply_correction(100, 5), CorrectionOutcome::Converged);
    assert_eq!(c.state, RollbackState::Live);
    assert_eq!(c.window.get(100), Some(5));
}

#[test]
fn divergent_correction_replays_to_live_tick() {
    let mut c = RollbackController::new(8, 0, 96, 1);
    for pressed in [true, true, true, true, false, true] {
        c.advance_tick(pressed);
    }
    // Predicted: 5 at tick 100, 6 at the live tick 102.
    assert_eq!(c.window.get(100), Some(5));
    assert_eq!(c.window.get(102), Some(6));
    assert_eq!(c.apply_correction(100, 3), CorrectionOutcome::Replayed);
    assert_eq!(c.state, RollbackState::Live);
    assert!(!c.state.is_replaying());
    assert!(RollbackState::Replaying { cursor: 100 }.is_replaying());
    // Replay re-applies the recorded inputs on top of the new base.
    assert_eq!(c.window.get(100), Some(3));
    assert_eq!(c.window.get(101), Some(3));
    assert_eq!(c.window.get(102), Some(4));
}

#[test]
fn out_of_window_correction_warns_and_mutates_nothing() {
    let mut c = RollbackController::new(3, 0, 0, 0);
    for _ in 0..6 {
        c.advance_tick(true);
    }
    // Ticks up to 2 have been evicted.
    assert_eq!(c.apply_correction(2, 9), CorrectionOutcome::DesyncWarning);
    assert_eq!(c.state, RollbackState::Live);
    for t in 3..=6 {
        assert_eq!(c.window.get(t), Some(t as i64));
    }
}

#[test]
fn tolerance_suppresses_small_corrections() {
    let mut c = RollbackController::new(8, 2, 0, 0);
    c.advance_tick(true);
    assert_eq!(c.apply_correction(1, 3), CorrectionOutcome::Converged);
    assert_eq!(c.apply_correction(1, 4), CorrectionOutcome::Replayed);
}

#[test]
fn incoming_values_follow_their_registration() {
    let mut reg = ReplicationRegistry::new();
    reg.register(1, Direction::ServerToClient, SyncMode::Predicted)
        .unwrap();
    reg.register(2, Direction::ServerToClient, SyncMode::Simple)
        .unwrap();
    reg.register(3, Direction::ClientToServer, SyncMode::Simple)
        .unwrap();
    reg.seal();
    let role = NetworkRole::Client;
    let mut simple = SimpleValue { value: 0, stamp: 0 };
    let mut c = RollbackController::new(4, 0, 0, 0);
    for _ in 0..6 {
        c.advance_tick(true); // predicted value t at tick t
    }

    // Unregistered attribute: rejected, nothing touched.
    assert_eq!(
        apply_incoming(&reg, role, 9, 5, 5, &mut simple, &mut c),
        AppliedAs::Rejected
    );
    // A direction the client may not receive: rejected.
    assert_eq!(
        apply_incoming(&reg, role, 3, 5, 5, &mut simple, &mut c),
        AppliedAs::Rejected
    );
    // Simple values settle last-writer-wins by stamp.
    assert_eq!(
        apply_incoming(&reg, role, 2, 5, 9, &mut simple, &mut c),
        AppliedAs::Overwritten
    );
    assert_eq!(simple, SimpleValue { value: 9, stamp: 5 });
    assert_eq!(
        apply_incoming(&reg, role, 2, 4, 7, &mut simple, &mut c),
        AppliedAs::Stale
    );
    assert_eq!(simple, SimpleValue { value: 9, stamp: 5 });
    // Predicted values run the correction path.
    assert_eq!(
        apply_incoming(&reg, role, 1, 5, 5, &mut simple, &mut c),
        AppliedAs::CorrectionConverged
    );
    assert_eq!(
        apply_incoming(&reg, role, 1, 1, 0, &mut simple, &mut c),
        AppliedAs::CorrectionOutOfWindow
    );
    assert_eq!(
        apply_incoming(&reg, role, 1, 5, 4, &mut simple, &mut c),
        AppliedAs::CorrectionReplayed
    );
    assert_eq!(c.window.get(6), Some(5));
    assert_eq!(c.state, RollbackState::Live);
}

#[test]
fn scenario_client_converges_on_server_corrections() {
    // Two peers at the shared 64 Hz tick rate, one predicted integer
    // attribute "position" stepping +1 per tick with input pressed.
    let cfg = shared_config();
    assert_eq!(FIXED_TIMESTEP_HZ, 64);
    assert_eq!(cfg.tick.tick_duration_micros, 15625);
    assert_eq!(cfg.mode, SimulationMode::Separate);

    let mut reg = ReplicationRegistry::new();
    let position = 1;
    reg.register(position, Direction::ServerToClient, SyncMode::Predicted)
        .unwrap();
    reg.seal();
    // The client treats the server's value as a correction candidate;
    // the server itself never accepts one.
    assert_eq!(
        reg.decide(NetworkRole::Client, position),
        ApplyDecision::CorrectionCandidate
    );
    assert_eq!(reg.decide(NetworkRole::Server, position), ApplyDecision::Reject);

    // Client history: position 1 at tick 96, presses on 97..=100, then
    // no press on 101, a press on 102, none on 103.
    let mut client = RollbackController::new(16, 0, 96, 1);
    for pressed in [true, true, true, true, false, true, false] {
        client.advance_tick(pressed);
    }
    assert_eq!(client.window.current_tick(), 103);
    assert_eq!(client.window.get(100), Some(5));
    assert_eq!(client.window.get(103), Some(6));

    // The server confirms position 5 at tick 100: no replay.
    assert_eq!(client.apply_correction(100, 5), CorrectionOutcome::Converged);
    assert_eq!(client.window.get(103), Some(6));

    // The server later reports position 4 at tick 100 (a missed
    // input): the client replays 100..=103 on top of base 4.
    assert_eq!(client.apply_correction(100, 4), CorrectionOutcome::Replayed);
    assert_eq!(client.state, RollbackState::Live);
    assert_eq!(client.window.get(100), Some(4));
    // Final corrected position: 4 plus the one press since tick 100.
    assert_eq!(client.window.get(103), Some(5));
}
