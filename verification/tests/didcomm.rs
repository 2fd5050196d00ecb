use openvtc::config::{Config, Identity, KeyBackend};
use openvtc::didcomm::{
    build_didcomm_message, build_events, build_listener_configs, build_trust_ping,
    build_trust_pong, did_slug, listener_id_for_did, persona_listener_config_for,
    persona_listener_id, reconnect_outcome, route, DIDCommEvent, InboundMessage, LifecycleLog,
    ListenerEvent, OutboundBody, ReconnectOutcome, Route, MESSAGE_LIFETIME, PING_LIFETIME,
};
use openvtc::ledger::{PersonaId, Relationship, RelationshipState};

fn config() -> Config {
    let mut config = Config::new(KeyBackend::Bip32 { seed: vec![7u8; 32] });
    config.identities.push(Identity {
        persona_id: PersonaId(1),
        did: "did:webvh:scid:host:silent-tongue".to_string(),
        document: "{}".to_string(),
        mediator_did: Some("did:med".to_string()),
    });
    config
}

fn relationship(party: &str, our_did: &str, state: RelationshipState) -> Relationship {
    Relationship {
        task_id: "t".to_string(),
        our_did: our_did.to_string(),
        remote_p_did: party.to_string(),
        remote_did: "did:remote".to_string(),
        created: 0,
        state,
        our_persona: None,
    }
}

fn message(typ: &str) -> InboundMessage {
    InboundMessage {
        id: "m1".to_string(),
        typ: typ.to_string(),
        from: Some("did:a".to_string()),
        to: vec!["did:b".to_string()],
        thid: None,
        body: "{}".to_string(),
    }
}

#[test]
fn listeners_are_named_after_dids() {
    assert_eq!(did_slug("did:webvh:a:b"), "b");
    assert_eq!(did_slug("did:webvh:a:"), "");
    assert_eq!(persona_listener_id("did:webvh:a:silent-tongue"), "silent-tongue");
    assert_eq!(persona_listener_id(""), "persona");
    let c = config();
    assert_eq!(
        listener_id_for_did("did:webvh:scid:host:silent-tongue", &c),
        "silent-tongue"
    );
    assert_eq!(listener_id_for_did("", &c), "rel-e3b0c44298fc1c14");
}

#[test]
fn messages_carry_their_lifetime() {
    let m = build_didcomm_message(OutboundBody::TrustPing, "did:a", "did:b", None);
    assert_eq!(m.expires_time, Some(m.created_time + MESSAGE_LIFETIME));
    assert_eq!(m.id.len(), 36);
    let ping = build_trust_ping("did:a", "did:b");
    assert_eq!(ping.expires_time, Some(ping.created_time + PING_LIFETIME));
    let pong = build_trust_pong("did:b", "did:a", "ping-1");
    assert_eq!(pong.thid.as_deref(), Some("ping-1"));
    assert_eq!(pong.expires_time, None);
    assert_ne!(ping.id, m.id);
}

#[test]
fn messages_are_routed_by_type() {
    assert_eq!(route("https://didcomm.org/trust-ping/2.0/ping"), Route::TrustPing);
    assert_eq!(route("https://didcomm.org/trust-ping/2.0/ping-response"), Route::TrustPong);
    assert_eq!(route("https://firstperson.network/vrc/1.0/request"), Route::OpenVtc);
    assert_eq!(route("https://linuxfoundation.org/openvtc/x"), Route::OpenVtc);
    assert_eq!(route("https://didcomm.org/messagepickup/3.0/status"), Route::PickupStatus);
    assert_eq!(route("https://example.com/other"), Route::Unknown);
}

#[test]
fn a_pong_raises_two_events() {
    let events =
        build_events("l", message("https://didcomm.org/trust-ping/2.0/ping-response"));
    assert_eq!(events.len(), 2);
    assert!(matches!(&events[0], DIDCommEvent::InboundMessage { .. }));
    assert!(matches!(
        &events[1],
        DIDCommEvent::TrustPongReceived { from: Some(f) } if f == "did:a"
    ));
    let events = build_events("l", message("https://didcomm.org/trust-ping/2.0/ping"));
    assert!(matches!(
        &events[0],
        DIDCommEvent::TrustPingReceived { listener_id, message_id, .. }
            if listener_id == "l" && message_id == "m1"
    ));
    assert!(build_events("l", message("https://didcomm.org/messagepickup/3.0/status")).is_empty());
}

#[test]
fn every_did_has_one_listener() {
    let mut c = config();
    c.identities.push(Identity {
        persona_id: PersonaId(2),
        did: "did:webvh:scid:host:silent-tongue".to_string(),
        document: "{}".to_string(),
        mediator_did: None,
    });
    c.private.relationships.insert(relationship(
        "did:p1",
        "did:peer:our",
        RelationshipState::Established,
    ));
    c.private.relationships.insert(relationship(
        "did:p2",
        "did:webvh:scid:host:silent-tongue",
        RelationshipState::Established,
    ));
    let configs = build_listener_configs(&c);
    let dids: Vec<&str> = configs.iter().map(|l| l.did.as_str()).collect();
    assert_eq!(dids, vec!["did:webvh:scid:host:silent-tongue", "did:peer:our"]);
    let own = persona_listener_config_for(&c, PersonaId(1)).expect("an identity");
    assert_eq!(own.mediator, "did:med");
    assert_eq!((own.initial_delay_secs, own.max_delay_secs), (5, 60));
    assert!(own.auto_delete);
    assert!(persona_listener_config_for(&c, PersonaId(9)).is_none());
}

#[test]
fn a_reconnection_fails_at_its_first_fault() {
    assert!(matches!(reconnect_outcome(Ok(()), Ok(())), ReconnectOutcome::Connected));
    assert!(matches!(
        reconnect_outcome(Err("a".into()), Err("b".into())),
        ReconnectOutcome::Failed(e) if e == "a"
    ));
    assert!(matches!(
        reconnect_outcome(Ok(()), Err("b".into())),
        ReconnectOutcome::Failed(e) if e == "b"
    ));
}

#[test]
fn a_cycling_listener_calls_for_a_warning() {
    let mut log = LifecycleLog::new();
    let down = |e: Option<&str>| ListenerEvent::Disconnected {
        listener_id: "l".to_string(),
        error: e.map(str::to_string),
    };
    assert_eq!(log.lines(&down(None), 0), vec!["Listener 'l' disconnected".to_string()]);
    assert_eq!(
        log.lines(&down(Some("eof")), 9_999),
        vec![
            "Listener 'l' disconnected: eof".to_string(),
            "WARNING: Listener 'l' cycling rapidly — possible duplicate connection".to_string(),
        ]
    );
    assert_eq!(log.lines(&down(None), 19_999).len(), 1);
    assert_eq!(
        log.lines(
            &ListenerEvent::Restarting {
                listener_id: "l".to_string(),
                attempt: 2,
                delay: "5s".to_string(),
            },
            0,
        ),
        vec!["Listener 'l' restarting (attempt 2, backoff 5s)".to_string()]
    );
    assert_eq!(
        log.lines(&ListenerEvent::Lagged(3), 0),
        vec!["Missed 3 lifecycle event(s)".to_string()]
    );
    assert_eq!(
        log.lines(&ListenerEvent::Connected { listener_id: "l".to_string() }, 0),
        vec!["Listener 'l' connected".to_string()]
    );
}
