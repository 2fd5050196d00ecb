use openvtc::actions::{
    Action, CredentialAction, InboxAction, RelationshipAction, SettingsAction,
};
use openvtc::background_dispatch::{DispatchDomain, InFlight};
use openvtc::config::{Config, Identity, KeyBackend};
use openvtc::didcomm::{InboundMessage, ListenerEvent};
use openvtc::events::{
    context_name, on_inbound_message, on_listener_event, on_load_failed, on_loaded, on_progress,
    on_save_done, on_trust_ping, on_trust_pong, pong_for, show_loading, ContextInfo,
};
use openvtc::launch::Interrupted;
use openvtc::ledger::{
    PersonaId, Relationship, RelationshipRequest, RelationshipState, TaskType, Vrc,
};
use openvtc::main_page::MainPanel;
use openvtc::message_dispatch::{InboundKind, Verdict};
use openvtc::runtime::{
    after_degraded_join, on_degraded_action, DegradedEffect, Effect, Runtime,
};
use openvtc::save_coalesce::SaveScheduler;
use openvtc::session_manager::SessionManager;
use openvtc::settings_actions::SettingsOutcome;
use openvtc::state::{ActivePage, LoadingProgress, MediatorStatus, State};
use openvtc::sync::Host;

fn config() -> Config {
    let mut config = Config::new(KeyBackend::Bip32 { seed: vec![7u8; 32] });
    config.identities.push(Identity {
        persona_id: PersonaId(1),
        did: "did:webvh:host:us".to_string(),
        document: "{}".to_string(),
        mediator_did: Some("did:med".to_string()),
    });
    config
}

fn with_relationship() -> Config {
    let mut c = config();
    c.private.relationships.insert(Relationship {
        task_id: "t1".to_string(),
        our_did: "did:webvh:host:us".to_string(),
        remote_p_did: "did:them".to_string(),
        remote_did: "did:them".to_string(),
        created: 0,
        state: RelationshipState::Established,
        our_persona: None,
    });
    c
}

fn runtime(config: Config) -> Runtime {
    Runtime {
        state: State::default(),
        config,
        save: SaveScheduler::new("test".to_string()),
        in_flight: InFlight::default(),
        sessions: SessionManager::new(8),
        ping_sent_at: None,
    }
}

fn host() -> Host {
    Host { now: 500, git_sign: None }
}

fn unsigned() -> Result<Vrc, String> {
    Err("nothing to sign".to_string())
}

fn act(rt: &mut Runtime, action: Action) -> Effect {
    rt.on_action(action, Ok(()), unsigned(), &host())
}

fn last_line(state: &State) -> String {
    state.main_page.activity_log.back().map(|e| e.summary.clone()).unwrap_or_default()
}

#[test]
fn exit_is_heard_whatever_is_running() {
    let mut rt = runtime(config());
    for d in [DispatchDomain::Inbox, DispatchDomain::Mediator, DispatchDomain::Relationship] {
        rt.in_flight.try_begin(d);
    }
    assert!(matches!(act(&mut rt, Action::Exit), Effect::Exit(Interrupted::UserInt)));
    assert!(matches!(
        act(&mut rt, Action::UXError(Interrupted::OsSigInt)),
        Effect::Exit(Interrupted::OsSigInt)
    ));
    act(&mut rt, Action::MainPanelSwitch(MainPanel::ContentPanel));
    assert!(rt.state.main_page.content_panel.selected);
}

#[test]
fn a_busy_domain_turns_work_down() {
    let mut rt = runtime(with_relationship());
    let ping = || {
        Action::Relationship(RelationshipAction::Ping { remote_p_did: "did:them".to_string() })
    };
    assert!(matches!(act(&mut rt, ping()), Effect::Relationship(_)));
    assert_eq!(rt.ping_sent_at, Some(500));
    assert!(matches!(act(&mut rt, ping()), Effect::Nothing));
    assert_eq!(
        rt.state.main_page.content_panel.relationships.status_message.as_deref(),
        Some("Relationship action already in progress — please wait.")
    );
}

#[test]
fn an_answer_to_a_request_is_sent_in_the_background() {
    let mut c = config();
    c.private.tasks.new_task(
        "t9",
        TaskType::RelationshipRequestInbound {
            from: "did:them".to_string(),
            to: "did:webvh:host:us".to_string(),
            request: RelationshipRequest {
                reason: None,
                did: "did:peer:theirs".to_string(),
                name: None,
            },
        },
    );
    let mut rt = runtime(c);
    let effect = act(
        &mut rt,
        Action::Inbox(InboxAction::RejectRelationship {
            task_id: "t9".to_string(),
            reason: None,
        }),
    );
    assert!(matches!(effect, Effect::Inbox(_)));
    assert!(rt.in_flight.is_busy(DispatchDomain::Inbox));
    assert!(rt.config.private.tasks.get_by_id("t9").is_some());
}

#[test]
fn a_credential_is_requested_over_a_relationship() {
    let mut rt = runtime(with_relationship());
    let effect = act(
        &mut rt,
        Action::Credential(CredentialAction::SubmitRequest {
            relationship_p_did: "did:them".to_string(),
            reason: Some("because".to_string()),
        }),
    );
    match effect {
        Effect::Credential(job) => assert_eq!(job.remote_p_did, "did:them"),
        _ => panic!("expected a request"),
    }
}

#[test]
fn reconnecting_takes_the_mediator_domain() {
    let mut rt = runtime(config());
    let effect = act(&mut rt, Action::Settings(SettingsAction::ReconnectMediator));
    match effect {
        Effect::Reconnect(listener) => assert_eq!(listener.did, "did:webvh:host:us"),
        _ => panic!("expected a reconnection"),
    }
    assert!(rt.in_flight.is_busy(DispatchDomain::Mediator));
    assert!(matches!(
        act(&mut rt, Action::Settings(SettingsAction::ReconnectMediator)),
        Effect::Nothing
    ));
}

#[test]
fn wiping_needs_the_word() {
    let mut rt = runtime(config());
    act(&mut rt, Action::Settings(SettingsAction::WipeProfileStart));
    act(&mut rt, Action::Settings(SettingsAction::WipeProfileInput("no".to_string())));
    let effect = act(&mut rt, Action::Settings(SettingsAction::WipeProfileConfirm));
    assert!(!matches!(effect, Effect::Settings(SettingsOutcome::Wipe { .. })));
    act(&mut rt, Action::Settings(SettingsAction::WipeProfileStart));
    act(&mut rt, Action::Settings(SettingsAction::WipeProfileInput(" wipe ".to_string())));
    let effect = act(&mut rt, Action::Settings(SettingsAction::WipeProfileConfirm));
    assert!(matches!(effect, Effect::Settings(SettingsOutcome::Wipe { install: None })));
}

#[test]
fn joining_runs_outside_the_loop() {
    let mut rt = runtime(config());
    assert!(matches!(act(&mut rt, Action::StartJoin), Effect::Join));
}

#[test]
fn without_messaging_little_can_be_done() {
    let mut state = State::default();
    let mut c = config();
    let mut save = SaveScheduler::new("test".to_string());
    let mut run = |state: &mut State, action, loaded| {
        on_degraded_action(state, &mut c, &mut save, action, loaded, &host())
    };
    assert!(matches!(
        run(&mut state, Action::Exit, false),
        DegradedEffect::Exit(Interrupted::UserInt)
    ));
    assert!(matches!(run(&mut state, Action::StartJoin, true), DegradedEffect::Join));
    assert!(matches!(run(&mut state, Action::StartJoin, false), DegradedEffect::Nothing));
    assert!(matches!(run(&mut state, Action::CommunitySelect(1), true), DegradedEffect::Nothing));
    assert_eq!(state.main_page.content_panel.communities.selected_index, 1);
}

#[test]
fn a_first_join_brings_messaging_up() {
    let mut state = State::default();
    let empty = Config::new(KeyBackend::Bip32 { seed: vec![] });
    assert!(!after_degraded_join(&mut state, &empty, false));
    assert!(after_degraded_join(&mut state, &config(), false));
    assert!(!after_degraded_join(&mut state, &config(), true));
}

#[test]
fn inbound_messages_are_processed_and_logged() {
    let mut c = config();
    let mut state = State::default();
    let mut save = SaveScheduler::new("test".to_string());
    let m = InboundMessage {
        id: "m1".to_string(),
        typ: "https://linuxfoundation.org/openvtc/relationship-request/1.0/request".to_string(),
        from: Some("did:them".to_string()),
        to: vec!["did:webvh:host:us".to_string()],
        thid: None,
        body: "{}".to_string(),
    };
    let verdict = Verdict { fresh: true, replayed: false, max_tasks: 10 };
    let r = on_inbound_message(
        &mut state,
        &mut c,
        &mut save,
        &m,
        InboundKind::VrcRequest { reason: Ok(None) },
        verdict,
        &host(),
    );
    assert!(r.is_err());
    assert!(last_line(&state)
        .contains("Message error: VRC request from (did:them) but no relationship found"));
    assert!(!save.is_pending());
}

#[test]
fn only_known_senders_are_answered() {
    let c = with_relationship();
    let known = Some("did:them".to_string());
    let us = Some("did:webvh:host:us".to_string());
    let pong = pong_for(&c, &known, "us", us.clone(), "ping-1").expect("an answer");
    assert_eq!(pong.to_did, "did:them");
    assert_eq!(pong.message.thid.as_deref(), Some("ping-1"));
    assert!(pong_for(&c, &Some("did:mallory".to_string()), "us", us, "ping-1").is_none());

    let mut state = State::default();
    on_trust_ping(&mut state, &c, &known, "us", None);
    assert!(last_line(&state).ends_with("Ping from did:them — pong sent"));
    on_trust_ping(&mut state, &c, &Some("did:mallory".to_string()), "us", None);
    assert!(last_line(&state).ends_with("Ping from did:mallory — ignored"));
}

#[test]
fn a_pong_tells_its_latency() {
    let c = with_relationship();
    let mut state = State::default();
    let mut sent = Some(100);
    on_trust_pong(&mut state, &c, &Some("did:them".to_string()), &mut sent, 142);
    assert!(last_line(&state).ends_with("Pong from did:them (42ms)"));
    assert_eq!(sent, None);
    on_trust_pong(&mut state, &c, &Some("did:them".to_string()), &mut sent, 200);
    assert!(last_line(&state).ends_with("Pong from did:them"));
}

#[test]
fn listener_events_move_the_connection_status() {
    let mut state = State::default();
    let mut sessions = SessionManager::new(8);
    sessions.register(PersonaId(1), "us", "did:vtc".to_string());
    on_listener_event(
        &mut state,
        &mut sessions,
        ListenerEvent::Connected { listener_id: "us".to_string() },
    );
    assert!(matches!(state.connection.status, MediatorStatus::Connected));
    assert!(sessions.any_connected());
    on_listener_event(
        &mut state,
        &mut sessions,
        ListenerEvent::Disconnected { listener_id: "us".to_string(), error: None },
    );
    assert!(!sessions.any_connected());
}

#[test]
fn a_failed_save_is_reported_and_tried_again() {
    let mut state = State::default();
    let mut save = SaveScheduler::new("test".to_string());
    save.mark_dirty(0);
    assert!(save.take_for_save(0, || Ok(config())).is_ok());
    on_save_done(&mut state, &mut save, Err("disk full".to_string()), 5);
    assert!(last_line(&state).contains("Failed to save config: disk full"));
    assert!(save.is_pending());
}

#[test]
fn startup_is_shown_step_by_step() {
    let mut state = State::default();
    let mut progress = LoadingProgress::default();
    show_loading(&mut state, "Ann".to_string());
    assert_eq!(state.active_page, ActivePage::Loading);
    assert_eq!(state.main_page.config.name, "Ann");
    on_progress(&mut state, &mut progress, "Configuration", "Reading", 0);
    assert_eq!(state.loading.len(), 1);
    on_progress(&mut state, &mut progress, "Keys", "Unlocking", 20);
    assert_eq!(state.loading.len(), 2);
    on_loaded(&mut state, &mut progress, &config(), &host());
    assert!(last_line(&state).contains("Configuration loaded"));
    let mut failed = State::default();
    let mut progress = LoadingProgress::default();
    on_load_failed(&mut failed, &mut progress, "bad".to_string());
    assert!(matches!(&failed.connection.status, MediatorStatus::Failed(why) if why == "bad"));
}

#[test]
fn a_context_is_named_by_its_did() {
    let contexts = vec![
        ContextInfo { name: "other".to_string(), did: None },
        ContextInfo { name: "mine".to_string(), did: Some("did:p".to_string()) },
    ];
    assert_eq!(context_name(&contexts, "did:p").as_deref(), Some("mine"));
    assert_eq!(context_name(&contexts, "did:q").as_deref(), Some("other"));
    assert_eq!(context_name(&Vec::new(), "did:p"), None);
}
