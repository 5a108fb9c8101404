use netcore::errors::ConfigError;
use netcore::identity::NetworkRole;
use netcore::registry::{
    last_writer_wins, resolve_apply, should_send, ApplyDecision, Direction, ReplicationRegistry,
    SyncMode,
};

#[test]
fn register_then_lookup() {
    let mut reg = ReplicationRegistry::new();
    reg.register(7, Direction::ServerToClient, SyncMode::Predicted)
        .unwrap();
    reg.register(8, Direction::ClientToServer, SyncMode::Simple)
        .unwrap();
    assert_eq!(
        reg.lookup(7),
        Some((Direction::ServerToClient, SyncMode::Predicted))
    );
    assert_eq!(
        reg.lookup(8),
        Some((Direction::ClientToServer, SyncMode::Simple))
    );
    assert_eq!(reg.lookup(9), None);
}

#[test]
fn duplicate_registration_is_a_config_error() {
    let mut reg = ReplicationRegistry::new();
    reg.register(7, Direction::ServerToClient, SyncMode::Simple)
        .unwrap();
    let r = reg.register(7, Direction::Bidirectional, SyncMode::Predicted);
    assert_eq!(r, Err(ConfigError::DuplicateRegistration));
}

#[test]
fn registering_after_seal_is_a_config_error() {
    let mut reg = ReplicationRegistry::new();
    reg.seal();
    let r = reg.register(7, Direction::ServerToClient, SyncMode::Simple);
    assert_eq!(r, Err(ConfigError::RegistrySealed));
}

#[test]
fn server_never_accepts_a_server_to_client_attribute() {
    for mode in [SyncMode::NotReplicated, SyncMode::Simple, SyncMode::Predicted] {
        assert_eq!(
            resolve_apply(NetworkRole::Server, Direction::ServerToClient, mode),
            ApplyDecision::Reject
        );
    }
    let mut reg = ReplicationRegistry::new();
    reg.register(7, Direction::ServerToClient, SyncMode::Predicted)
        .unwrap();
    reg.seal();
    assert_eq!(reg.decide(NetworkRole::Server, 7), ApplyDecision::Reject);
    assert_eq!(
        reg.decide(NetworkRole::Client, 7),
        ApplyDecision::CorrectionCandidate
    );
}

#[test]
fn client_overwrites_simple_and_corrects_predicted() {
    assert_eq!(
        resolve_apply(
            NetworkRole::Client,
            Direction::ServerToClient,
            SyncMode::Simple
        ),
        ApplyDecision::Overwrite
    );
    assert_eq!(
        resolve_apply(
            NetworkRole::Client,
            Direction::ServerToClient,
            SyncMode::Predicted
        ),
        ApplyDecision::CorrectionCandidate
    );
}

#[test]
fn unreplicated_values_are_never_applied() {
    for role in [NetworkRole::Server, NetworkRole::Client] {
        for dir in [
            Direction::ServerToClient,
            Direction::ClientToServer,
            Direction::Bidirectional,
        ] {
            assert_eq!(
                resolve_apply(role, dir, SyncMode::NotReplicated),
                ApplyDecision::Reject
            );
        }
    }
}

#[test]
fn unregistered_attributes_are_rejected() {
    let reg = ReplicationRegistry::new();
    assert_eq!(reg.decide(NetworkRole::Client, 7), ApplyDecision::Reject);
}

#[test]
fn bidirectional_settles_last_writer_wins_by_tick() {
    assert!(last_writer_wins(100, 101));
    assert!(last_writer_wins(100, 100));
    assert!(!last_writer_wins(100, 99));
    assert_eq!(
        resolve_apply(
            NetworkRole::Server,
            Direction::Bidirectional,
            SyncMode::Simple
        ),
        ApplyDecision::Overwrite
    );
}

#[test]
fn only_the_legal_author_sends_and_never_unreplicated() {
    assert!(should_send(
        NetworkRole::Server,
        Direction::ServerToClient,
        SyncMode::Simple
    ));
    assert!(!should_send(
        NetworkRole::Client,
        Direction::ServerToClient,
        SyncMode::Simple
    ));
    assert!(should_send(
        NetworkRole::Client,
        Direction::ClientToServer,
        SyncMode::Predicted
    ));
    assert!(!should_send(
        NetworkRole::Server,
        Direction::ServerToClient,
        SyncMode::NotReplicated
    ));
    assert!(should_send(
        NetworkRole::Client,
        Direction::Bidirectional,
        SyncMode::Simple
    ));
}
