use netcore::channel::{
    Channel1, ChannelManager, ChannelOrdering, ChannelReliability, Message1, CHANNEL1_ID,
};
use netcore::errors::{ConfigError, DecodeError, SendError};

fn manager_with_channel1() -> ChannelManager {
    let mut m = ChannelManager::new();
    m.declare_channel(Channel1::id(), Channel1::reliability(), Channel1::ordering())
        .unwrap();
    m
}

#[test]
fn declare_then_send_stamps_sequence_numbers() {
    let mut m = manager_with_channel1();
    assert_eq!(m.send(CHANNEL1_ID, 10), Ok(0));
    assert_eq!(m.send(CHANNEL1_ID, 20), Ok(1));
    assert_eq!(m.send(CHANNEL1_ID, 30), Ok(2));
}

#[test]
fn duplicate_channel_is_a_config_error() {
    let mut m = manager_with_channel1();
    let r = m.declare_channel(
        CHANNEL1_ID,
        ChannelReliability::Unreliable,
        ChannelOrdering::Unordered,
    );
    assert_eq!(r, Err(ConfigError::DuplicateChannel));
}

#[test]
fn declaring_after_traffic_started_is_a_config_error() {
    let mut m = manager_with_channel1();
    m.send(CHANNEL1_ID, 1).unwrap();
    let r = m.declare_channel(2, ChannelReliability::Reliable, ChannelOrdering::Ordered);
    assert_eq!(r, Err(ConfigError::TrafficAlreadyStarted));
}

#[test]
fn sending_on_an_undeclared_channel_fails() {
    let mut m = manager_with_channel1();
    assert_eq!(m.send(99, 1), Err(SendError::UnknownChannel));
}

#[test]
fn sends_after_disconnect_are_refused() {
    let mut m = manager_with_channel1();
    m.on_disconnect();
    assert_eq!(m.send(CHANNEL1_ID, 1), Err(SendError::Disconnected));
}

#[test]
fn reliable_ordered_delivery_survives_reordering() {
    let mut sender = manager_with_channel1();
    let mut receiver = manager_with_channel1();
    let a = 111;
    let b = 222;
    sender.send(CHANNEL1_ID, a).unwrap();
    sender.send(CHANNEL1_ID, b).unwrap();
    let packets = sender.poll_outgoing(CHANNEL1_ID);
    assert_eq!(packets, vec![(0, a), (1, b)]);
    // The transport delivers B before A.
    receiver.deliver_packet(CHANNEL1_ID, packets[1].0, packets[1].1);
    assert_eq!(receiver.receive(CHANNEL1_ID), Vec::<u64>::new());
    receiver.deliver_packet(CHANNEL1_ID, packets[0].0, packets[0].1);
    // A is observed before B all the same.
    assert_eq!(receiver.receive(CHANNEL1_ID), vec![a, b]);
}

#[test]
fn reliable_ordered_delivery_survives_loss_and_retry() {
    let mut sender = manager_with_channel1();
    let mut receiver = manager_with_channel1();
    for payload in [5, 6, 7] {
        sender.send(CHANNEL1_ID, payload).unwrap();
    }
    let first = sender.poll_outgoing(CHANNEL1_ID);
    // The transport loses the first packet.
    for &(seq, payload) in &first[1..] {
        receiver.deliver_packet(CHANNEL1_ID, seq, payload);
    }
    assert_eq!(receiver.receive(CHANNEL1_ID), Vec::<u64>::new());
    // Nothing was acknowledged, so every packet is offered again.
    let retry = sender.poll_outgoing(CHANNEL1_ID);
    assert_eq!(retry, vec![(0, 5), (1, 6), (2, 7)]);
    for &(seq, payload) in &retry {
        receiver.deliver_packet(CHANNEL1_ID, seq, payload);
    }
    // Send order, each message exactly once, duplicates dropped.
    assert_eq!(receiver.receive(CHANNEL1_ID), vec![5, 6, 7]);
    // Once acknowledged, nothing is retransmitted.
    sender.on_ack(CHANNEL1_ID, 3);
    assert_eq!(sender.poll_outgoing(CHANNEL1_ID), Vec::<(usize, u64)>::new());
}

#[test]
fn unreliable_loss_of_any_subset_is_silent() {
    let mut sender = ChannelManager::new();
    let mut receiver = ChannelManager::new();
    sender
        .declare_channel(3, ChannelReliability::Unreliable, ChannelOrdering::Unordered)
        .unwrap();
    receiver
        .declare_channel(3, ChannelReliability::Unreliable, ChannelOrdering::Unordered)
        .unwrap();
    for payload in [1, 2, 3, 4] {
        sender.send(3, payload).unwrap();
    }
    let packets = sender.poll_outgoing(3);
    assert_eq!(packets.len(), 4);
    // Fire and forget: an unreliable channel never offers them again.
    assert_eq!(sender.poll_outgoing(3), Vec::<(usize, u64)>::new());
    // The transport drops all but the middle two and flips their order.
    receiver.deliver_packet(3, packets[2].0, packets[2].1);
    receiver.deliver_packet(3, packets[1].0, packets[1].1);
    assert_eq!(receiver.receive(3), vec![3, 2]);
    assert_eq!(receiver.receive(3), Vec::<u64>::new());
}

#[test]
fn duplicated_packets_are_released_once() {
    let mut receiver = manager_with_channel1();
    receiver.deliver_packet(CHANNEL1_ID, 0, 42);
    receiver.deliver_packet(CHANNEL1_ID, 0, 42);
    assert_eq!(receiver.receive(CHANNEL1_ID), vec![42]);
    assert_eq!(receiver.receive(CHANNEL1_ID), Vec::<u64>::new());
}

#[test]
fn message1_round_trips_over_the_wire() {
    let m = Message1(461);
    let w = m.to_wire();
    assert_eq!(Message1::from_wire(w), Ok(Message1(461)));
}

#[test]
fn channel1_is_declared_ordered_and_reliable() {
    assert_eq!(Channel1::id(), CHANNEL1_ID);
    assert!(matches!(Channel1::reliability(), ChannelReliability::Reliable));
    assert!(matches!(Channel1::ordering(), ChannelOrdering::Ordered));
}

#[test]
fn oversized_wire_words_are_malformed() {
    if (usize::MAX as u64) < u64::MAX {
        assert_eq!(
            Message1::from_wire(u64::MAX),
            Err(DecodeError::MalformedPayload)
        );
    } else {
        assert_eq!(Message1::from_wire(u64::MAX), Ok(Message1(u64::MAX as usize)));
    }
}
