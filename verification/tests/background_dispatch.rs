use openvtc::background_dispatch::{apply_outcome, DispatchDomain, DispatchOutcome, InFlight};
use openvtc::config::{Config, KeyBackend};
use openvtc::didcomm::ReconnectOutcome;
use openvtc::save_coalesce::SaveScheduler;
use openvtc::state::{MediatorStatus, State};
use openvtc::sync::Host;

fn test_config() -> Config {
    Config::new(KeyBackend::Bip32 { seed: vec![7u8; 32] })
}

fn host() -> Host {
    Host { now: 1_000, git_sign: None }
}

#[test]
fn busy_guard_serialises_per_domain() {
    let mut in_flight = InFlight::default();

    assert!(in_flight.try_begin(DispatchDomain::Mediator));
    assert!(in_flight.is_busy(DispatchDomain::Mediator));

    assert!(!in_flight.try_begin(DispatchDomain::Mediator));

    in_flight.finish(DispatchDomain::Mediator);
    assert!(!in_flight.is_busy(DispatchDomain::Mediator));
    assert!(in_flight.try_begin(DispatchDomain::Mediator));
}

#[test]
fn a_busy_domain_leaves_the_others_free() {
    let mut in_flight = InFlight::default();
    assert!(in_flight.try_begin(DispatchDomain::Inbox));
    assert!(!in_flight.is_busy(DispatchDomain::Relationship));
    assert!(in_flight.try_begin(DispatchDomain::Relationship));
    in_flight.finish(DispatchDomain::Inbox);
    assert!(in_flight.is_busy(DispatchDomain::Relationship));
    assert!(!in_flight.is_busy(DispatchDomain::Inbox));
    assert!(!in_flight.is_busy(DispatchDomain::Did));
}

#[test]
fn apply_connected_outcome_sets_connected_and_clears_flag() {
    let mut state = State::default();
    let mut config = test_config();
    let mut save = SaveScheduler::new("test".to_string());
    let mut in_flight = InFlight::default();
    assert!(in_flight.try_begin(DispatchDomain::Mediator));

    apply_outcome(
        &mut state,
        &mut config,
        &mut save,
        &mut in_flight,
        DispatchOutcome::MediatorReconnect(ReconnectOutcome::Connected),
        &host(),
    );

    assert!(matches!(state.connection.status, MediatorStatus::Connected));
    assert!(state.connection.messaging_active);
    assert!(
        !in_flight.is_busy(DispatchDomain::Mediator),
        "busy-flag must be cleared once the outcome is applied"
    );
}

#[test]
fn apply_failed_outcome_sets_failed_and_clears_flag() {
    let mut state = State::default();
    let mut config = test_config();
    let mut save = SaveScheduler::new("test".to_string());
    let mut in_flight = InFlight::default();
    assert!(in_flight.try_begin(DispatchDomain::Mediator));

    apply_outcome(
        &mut state,
        &mut config,
        &mut save,
        &mut in_flight,
        DispatchOutcome::MediatorReconnect(ReconnectOutcome::Failed("dead mediator".into())),
        &host(),
    );

    match &state.connection.status {
        MediatorStatus::Failed(reason) => assert_eq!(reason, "dead mediator"),
        other => panic!("expected Failed status, got {other:?}"),
    }
    assert!(!state.connection.messaging_active);
    assert!(!in_flight.is_busy(DispatchDomain::Mediator));
}

#[test]
fn busy_message_names_the_domain() {
    let msg = InFlight::busy_message(DispatchDomain::Mediator);
    assert!(msg.contains("Mediator reconnect"));
    assert!(msg.contains("in progress"));
}
