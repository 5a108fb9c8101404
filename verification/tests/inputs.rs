use netcore::channel::{Channel1, ChannelManager};
use netcore::errors::{DecodeError, SendError};
use netcore::input::{
    decode_input, drive_from_buffer, encode_input, replicate_input, spawn_missing_action_states,
    ActionState, EntityStatus, InputBuffer, InputControlKind, InputFrame, TestActions,
    MOUSE_LEFT_CODE,
};

#[test]
fn action_state_detects_edges() {
    let mut s = ActionState::default();
    assert!(!s.pressed && !s.just_pressed && !s.just_released);
    s.update(true);
    assert!(s.pressed && s.just_pressed(&TestActions::Test) && !s.just_released);
    s.update(true);
    assert!(s.pressed && !s.just_pressed(&TestActions::Test) && !s.just_released);
    s.update(false);
    assert!(!s.pressed && !s.just_pressed && s.just_released);
}

#[test]
fn default_input_map_binds_the_primary_button() {
    let map = TestActions::default_input_map();
    assert_eq!(map.action_for(MOUSE_LEFT_CODE), Some(TestActions::Test));
    assert_eq!(map.action_for(5), None);
}

#[test]
fn every_action_is_a_button() {
    assert_eq!(
        TestActions::Test.input_control_kind(),
        InputControlKind::Button
    );
}

#[test]
fn input_frames_round_trip_over_the_wire() {
    for (tick, pressed) in [(0u64, false), (100, true), (100, false), (1u64 << 61, true)] {
        let f = InputFrame { tick, pressed };
        let w = encode_input(&f);
        assert_eq!(decode_input(w), Ok(f));
    }
}

#[test]
fn untagged_payloads_are_malformed() {
    assert_eq!(decode_input(0), Err(DecodeError::MalformedPayload));
    assert_eq!(decode_input(12345), Err(DecodeError::MalformedPayload));
}

#[test]
fn newly_predicted_entities_without_state_are_found() {
    let entities = vec![
        EntityStatus { id: 1, predicted: true, has_data: true, has_action_state: true },
        EntityStatus { id: 2, predicted: true, has_data: true, has_action_state: false },
        EntityStatus { id: 3, predicted: false, has_data: true, has_action_state: false },
        EntityStatus { id: 4, predicted: true, has_data: false, has_action_state: false },
        EntityStatus { id: 5, predicted: true, has_data: true, has_action_state: false },
    ];
    assert_eq!(spawn_missing_action_states(&entities), vec![2, 5]);
}

#[test]
fn input_buffer_hands_out_the_most_recent_known_input() {
    let mut b = InputBuffer::new(10);
    assert_eq!(b.latest_at(10), None);
    b.record(true); // tick 10
    b.record(false); // tick 11
    b.record(true); // tick 12
    assert_eq!(b.latest_at(9), None);
    assert_eq!(b.latest_at(10), Some(true));
    assert_eq!(b.latest_at(11), Some(false));
    assert_eq!(b.latest_at(12), Some(true));
    // Prediction ahead of the newest record keeps using it.
    assert_eq!(b.latest_at(20), Some(true));
}

#[test]
fn replicated_input_reaches_the_wire_stamped() {
    let mut net = ChannelManager::new();
    net.declare_channel(Channel1::id(), Channel1::reliability(), Channel1::ordering())
        .unwrap();
    let mut s = ActionState::default();
    s.update(true);
    assert_eq!(replicate_input(&mut net, Channel1::id(), &s, 42), Ok(0));
    let packets = net.poll_outgoing(Channel1::id());
    assert_eq!(packets.len(), 1);
    assert_eq!(
        decode_input(packets[0].1),
        Ok(InputFrame { tick: 42, pressed: true })
    );
}

#[test]
fn replicating_on_an_undeclared_channel_sends_nothing() {
    let mut net = ChannelManager::new();
    let s = ActionState::default();
    assert_eq!(
        replicate_input(&mut net, 9, &s, 1),
        Err(SendError::UnknownChannel)
    );
}

#[test]
fn consumed_inputs_drive_the_action_state() {
    let mut b = InputBuffer::new(5);
    b.record(true); // tick 5
    b.record(false); // tick 6
    let mut s = ActionState::default();
    drive_from_buffer(&mut s, &b, 5);
    assert!(s.pressed && s.just_pressed);
    drive_from_buffer(&mut s, &b, 6);
    assert!(!s.pressed && s.just_released);
    // Before anything arrived the state stays neutral.
    let empty = InputBuffer::new(0);
    let mut fresh = ActionState::default();
    drive_from_buffer(&mut fresh, &empty, 3);
    assert!(!fresh.pressed && !fresh.just_pressed && !fresh.just_released);
}
