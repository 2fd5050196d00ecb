use openvtc::ledger::PersonaId;
use openvtc::session_manager::{RegisterOutcome, SessionManager, SessionStatus};

fn connected(mgr: &SessionManager, persona: PersonaId) -> bool {
    mgr.session(persona).unwrap().status.is_connected()
}

#[test]
fn register_creates_one_session_per_persona_and_shares_reused_personas() {
    let mut mgr = SessionManager::new(8);
    let a = PersonaId(1);
    let b = PersonaId(2);

    assert_eq!(mgr.register(a, "lid-a", "vtc-1".into()), RegisterOutcome::Created);
    assert_eq!(mgr.register(b, "lid-b", "vtc-2".into()), RegisterOutcome::Created);
    assert_eq!(mgr.session_count(), 2);

    assert_eq!(mgr.register(a, "lid-a", "vtc-3".into()), RegisterOutcome::JoinedExisting);
    assert_eq!(mgr.session_count(), 2);
    assert_eq!(mgr.session(a).unwrap().communities.len(), 2);
}

#[test]
fn bounded_concurrency_rejects_beyond_the_cap() {
    let mut mgr = SessionManager::new(2);
    assert_eq!(
        mgr.register(PersonaId(1), "lid-a", "vtc-1".into()),
        RegisterOutcome::Created
    );
    assert_eq!(
        mgr.register(PersonaId(2), "lid-b", "vtc-2".into()),
        RegisterOutcome::Created
    );
    assert_eq!(
        mgr.register(PersonaId(3), "lid-c", "vtc-3".into()),
        RegisterOutcome::AtCapacity
    );
    assert_eq!(mgr.session_count(), 2);
}

#[test]
fn status_is_isolated_per_session_recovery_and_failure_dont_cross() {
    let mut mgr = SessionManager::new(8);
    let a = PersonaId(1);
    let b = PersonaId(2);
    mgr.register(a, "lid-a", "vtc-1".into());
    mgr.register(b, "lid-b", "vtc-2".into());

    assert!(!mgr.any_connected());

    assert!(mgr.mark_connected("lid-a"));
    assert!(connected(&mgr, a));
    assert!(matches!(mgr.session(b).unwrap().status, SessionStatus::Connecting));
    assert!(mgr.any_connected());

    assert!(mgr.mark_failed("lid-b", "mediator down".to_string()));
    assert!(matches!(
        &mgr.session(b).unwrap().status,
        SessionStatus::Failed(why) if why == "mediator down"
    ));
    assert!(connected(&mgr, a));
    assert!(mgr.any_connected());

    assert!(mgr.mark_disconnected("lid-b"));
    assert!(mgr.mark_connected("lid-b"));
    assert!(connected(&mgr, b));
    assert!(!mgr.mark_connected("lid-b"));

    assert!(!mgr.mark_connected("lid-unknown"));
}

#[test]
fn deregister_drops_listener_only_when_no_community_remains() {
    let mut mgr = SessionManager::new(8);
    let a = PersonaId(1);
    mgr.register(a, "lid-a", "vtc-1".into());
    mgr.register(a, "lid-a", "vtc-2".into());
    mgr.mark_connected("lid-a");

    assert!(mgr.deregister(a, "vtc-1").is_none());
    assert_eq!(mgr.session_count(), 1);
    assert!(connected(&mgr, a));

    let removed = mgr.deregister(a, "vtc-2").expect("session removed");
    assert_eq!(removed.listener_id, "lid-a");
    assert_eq!(mgr.session_count(), 0);
    assert!(!mgr.any_connected());

    assert!(mgr.deregister(a, "vtc-unknown").is_none());
}
