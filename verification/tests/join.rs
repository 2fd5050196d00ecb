use openvtc::account::{CommunityRecord, CommunityStatus, PersonaRecord};
use openvtc::actions::Action;
use openvtc::config::{Config, Identity, KeyBackend};
use openvtc::join::{JoinPage, JoinState, PersonaOption};
use openvtc::join_flow::{
    build_pending_record, build_persona_options, cancel_join, enter_join, handle_join_action,
    is_context_used, is_duplicate_membership, joined_session, launch_join_sequence,
    run_join_sequence, validate_join_input, JoinExit, JoinIdentityChoice, JoinReply, JoinRequest,
    JoinRun, JoinStage, JoinStep,
};
use openvtc::launch::Interrupted;
use openvtc::ledger::{KeySource, PersonaId};
use openvtc::setup::{
    Completion, KeyInfo, KeyMaterial, MessageType, PersonaDIDKeys, WebvhServer,
};
use openvtc::setup_config::Defaults;
use openvtc::state::{ActivePage, State};
use openvtc::sync::Host;
use openvtc::vta::HostedDid;

fn test_config() -> Config {
    Config::new(KeyBackend::Bip32 { seed: vec![7u8; 32] })
}

fn vta_config() -> Config {
    let mut config = Config::new(KeyBackend::Vta {
        credential_bundle: "{}".to_string(),
        credential_did: "did:key:zAdmin".to_string(),
        credential_private_key: "zKey".to_string(),
        vta_did: "did:webvh:vta".to_string(),
        vta_url: "https://vta.example.com".to_string(),
        mediator_did: Some("did:webvh:mediator".to_string()),
        encryption_seed: vec![1, 2, 3],
    });
    config.account.top_context_id = "openvtc".to_string();
    config.public.friendly_name = "Before".to_string();
    config
}

fn host() -> Host {
    Host { now: 1_000, git_sign: None }
}

fn defaults() -> Defaults {
    Defaults {
        org_did: "did:example:org".to_string(),
        mediator_did: "did:example:public-mediator".to_string(),
    }
}

fn opt() -> PersonaOption {
    PersonaOption {
        id: PersonaId(1),
        label: "p".to_string(),
        did: "did:webvh:x".to_string(),
        linked_communities: Vec::new(),
        valid_vic_count: 0,
    }
}

fn key(id: &str) -> KeyInfo {
    KeyInfo {
        secret: KeyMaterial {
            id: id.to_string(),
            public_bytes: vec![0u8; 32],
            private_key_mb: "z".to_string(),
        },
        source: KeySource::VtaManaged { key_id: format!("vta-{id}") },
        expiry: None,
        created: 5,
    }
}

fn keys() -> PersonaDIDKeys {
    PersonaDIDKeys {
        signing: key("did:webvh:p#key-0"),
        authentication: key("did:webvh:p#key-0"),
        decryption: key("did:webvh:p#key-1"),
    }
}

fn material(id: &str) -> KeyMaterial {
    KeyMaterial { id: id.to_string(), public_bytes: vec![], private_key_mb: "z".to_string() }
}

fn hosted() -> HostedDid {
    HostedDid {
        keys: keys(),
        did: "did:webvh:p".to_string(),
        document: "{\"id\":\"did:webvh:p\"}".to_string(),
        mnemonic: String::new(),
    }
}

fn persona(id: u128, did: &str, label: Option<&str>) -> PersonaRecord {
    PersonaRecord {
        persona_id: PersonaId(id),
        did: did.to_string(),
        did_document: None,
        key_refs: Vec::new(),
        mediator_did: None,
        origin_context_id: String::new(),
        created_at: 0,
        label: label.map(str::to_string),
    }
}

fn identity(id: u128, did: &str) -> Identity {
    Identity {
        persona_id: PersonaId(id),
        did: did.to_string(),
        document: "{}".to_string(),
        mediator_did: Some("did:webvh:mediator".to_string()),
    }
}

fn record(vtc: &str, persona: u128, name: Option<&str>) -> CommunityRecord {
    CommunityRecord::new_pending(
        vtc.to_string(),
        name.map(str::to_string),
        "ctx/slug".to_string(),
        PersonaId(persona),
        "req".to_string(),
        0,
    )
}

fn last_error(state: &State) -> String {
    match state.join.messages.last() {
        Some(MessageType::Error(e)) => e.clone(),
        other => panic!("expected an error, got {other:?}"),
    }
}

fn step(run: &mut JoinRun, state: &mut State, config: &mut Config, reply: JoinReply) -> JoinRequest {
    run_join_sequence(run, state, config, reply, &defaults(), &host())
}

#[test]
fn vic_cleared_defaults_false_and_resets() {
    let mut js = JoinState::default();
    assert!(!js.vic_cleared);
    js.vic_cleared = true;
    js.has_invitation = true;
    js.reset();
    assert!(!js.vic_cleared);
    assert!(!js.has_invitation);
}

#[test]
fn mint_row_sits_past_the_reuse_options() {
    let mut js = JoinState::default();
    assert_eq!(js.mint_row(), 0);
    assert!(js.mint_row_selected());

    js.persona_options = vec![opt(), opt()];
    assert_eq!(js.mint_row(), 2);
    js.identity_selected = 0;
    assert!(!js.mint_row_selected());
    js.identity_selected = 1;
    assert!(!js.mint_row_selected());
    js.identity_selected = 2;
    assert!(js.mint_row_selected());
}

#[test]
fn validate_join_input_table() {
    let cases: &[(&str, Option<&str>)] = &[
        ("", None),
        ("   ", None),
        ("\t\n", None),
        ("did:webvh:example", Some("did:webvh:example")),
        ("  did:webvh:example  ", Some("did:webvh:example")),
        ("\tdid:peer:abc\n", Some("did:peer:abc")),
    ];
    for (raw, expected) in cases {
        assert_eq!(
            validate_join_input(raw).as_deref(),
            *expected,
            "validate_join_input({raw:?})"
        );
    }
}

#[test]
fn is_duplicate_membership_table() {
    let cases: &[(Option<CommunityStatus>, bool)] = &[
        (None, false),
        (Some(CommunityStatus::Pending { request_id: "r".to_string() }), true),
        (Some(CommunityStatus::Active), true),
        (Some(CommunityStatus::Left), false),
        (Some(CommunityStatus::Rejected), false),
        (Some(CommunityStatus::Removed), false),
        (Some(CommunityStatus::Expired), false),
    ];
    let vtc = "did:vtc:known";
    for (status, expected) in cases {
        let mut config = test_config();
        if let Some(status) = status {
            let mut rec = record(vtc, 1, None);
            rec.status = status.clone();
            config.account.add_membership(rec);
        }
        assert_eq!(
            is_duplicate_membership(&config, vtc),
            *expected,
            "is_duplicate_membership for status {status:?}"
        );
        assert!(
            !is_duplicate_membership(&config, "did:vtc:other"),
            "unknown DID is not a duplicate (status {status:?})"
        );
    }
}

#[test]
fn build_pending_record_carries_inputs() {
    let persona = PersonaId(9);
    let rec = build_pending_record(
        "did:vtc:c".to_string(),
        Some("Community".to_string()),
        "top/slug".to_string(),
        persona,
        "request-7".to_string(),
        1234,
    );
    assert_eq!(rec.vtc_did, "did:vtc:c");
    assert_eq!(rec.display_name.as_deref(), Some("Community"));
    assert_eq!(rec.sub_context_id, "top/slug");
    assert_eq!(rec.persona_ref, persona);
    assert_eq!(rec.requested_at, Some(1234));
    assert!(rec.is_live(), "a fresh Pending record is live");
    match rec.status {
        CommunityStatus::Pending { request_id: got } => {
            assert_eq!(got, "request-7", "request id is carried into the status");
        }
        other => panic!("expected Pending status, got {other:?}"),
    }
}

#[test]
fn joined_session_extracted_only_on_success() {
    let mut js = JoinState::default();
    assert!(joined_session(&js).is_none());

    let persona = PersonaId(9);
    js.created_community = Some(build_pending_record(
        "did:vtc:c".to_string(),
        None,
        "top/slug".to_string(),
        persona,
        "r".to_string(),
        0,
    ));
    js.created_persona_did = Some("did:webvh:persona".to_string());

    let joined = joined_session(&js).expect("a persisted community yields a session");
    assert_eq!(joined.persona_id, persona);
    assert_eq!(joined.persona_did, "did:webvh:persona");
    assert_eq!(joined.vtc_did, "did:vtc:c");
}

#[test]
fn the_flow_opens_empty_with_the_invitation_mirrored() {
    let mut state = State::default();
    state.invitation_credential = Some("{}".to_string());
    state.join.pending_vtc = Some("old".to_string());
    enter_join(&mut state);
    assert_eq!(state.active_page, ActivePage::Join);
    assert_eq!(state.join.page, JoinPage::EnterDid);
    assert!(state.join.has_invitation);
    assert!(state.join.pending_vtc.is_none());
}

#[test]
fn a_duplicate_request_is_refused() {
    let mut config = vta_config();
    config.account.add_membership(record("did:vtc:a", 1, None));
    let mut state = State::default();
    let step =
        handle_join_action(&mut state, &config, Action::JoinSubmitVtc(" did:vtc:a ".to_string()));
    assert!(matches!(step, JoinStep::Stay));
    assert_eq!(
        last_error(&state),
        "Already a member of (or have a pending request for) this community."
    );
    assert_eq!(state.join.page, JoinPage::Progress);
}

#[test]
fn the_first_join_mints_at_once() {
    let config = vta_config();
    let mut state = State::default();
    let step =
        handle_join_action(&mut state, &config, Action::JoinSubmitVtc("did:vtc:a".to_string()));
    match step {
        JoinStep::Launch { choice, vtc_did } => {
            assert_eq!(choice, JoinIdentityChoice::Mint);
            assert_eq!(vtc_did, "did:vtc:a");
        }
        other => panic!("expected a launch, got {other:?}"),
    }
}

#[test]
fn reuse_takes_a_choice_and_a_confirmation() {
    let mut config = vta_config();
    config.account.personas.push(persona(1, "did:webvh:one", Some("Zoe")));
    config.account.personas.push(persona(2, "did:webvh:two", Some("Ann")));
    let mut state = State::default();
    let step =
        handle_join_action(&mut state, &config, Action::JoinSubmitVtc("did:vtc:a".to_string()));
    assert!(matches!(step, JoinStep::Stay));
    assert_eq!(state.join.page, JoinPage::IdentityChoice);
    let labels: Vec<&str> =
        state.join.persona_options.iter().map(|o| o.label.as_str()).collect();
    assert_eq!(labels, vec!["Ann", "Zoe"]);

    handle_join_action(&mut state, &config, Action::JoinIdentitySelect(99));
    assert_eq!(state.join.identity_selected, 2);
    handle_join_action(&mut state, &config, Action::JoinIdentitySelect(0));
    handle_join_action(&mut state, &config, Action::JoinIdentityChoose);
    assert_eq!(state.join.reuse_confirm, Some(PersonaId(2)));
    handle_join_action(&mut state, &config, Action::JoinReuseCancel);
    assert_eq!(state.join.reuse_confirm, None);
    let step = handle_join_action(&mut state, &config, Action::JoinReuseConfirm);
    assert!(matches!(step, JoinStep::Stay));
    handle_join_action(&mut state, &config, Action::JoinIdentityChoose);
    let step = handle_join_action(&mut state, &config, Action::JoinReuseConfirm);
    assert!(matches!(
        step,
        JoinStep::Launch { choice: JoinIdentityChoice::Reuse(PersonaId(2)), .. }
    ));
    handle_join_action(&mut state, &config, Action::JoinIdentitySelect(2));
    let step = handle_join_action(&mut state, &config, Action::JoinIdentityChoose);
    assert!(matches!(step, JoinStep::Launch { choice: JoinIdentityChoice::Mint, .. }));
}

#[test]
fn an_invitation_for_a_persona_presents_that_persona() {
    let mut config = vta_config();
    config.account.personas.push(persona(1, "did:webvh:one", None));
    config.account.personas.push(persona(2, "did:webvh:two", None));
    let mut state = State::default();
    let vic = "{\"type\":[\"VerifiableCredential\",\"InvitationCredential\"],\
               \"credentialSubject\":{\"id\":\"did:webvh:two\"}}";
    handle_join_action(&mut state, &config, Action::JoinPasteVic(vic.to_string()));
    assert!(state.join.has_invitation);
    assert_eq!(state.invitation_credential.as_deref(), Some(vic));
    let step =
        handle_join_action(&mut state, &config, Action::JoinSubmitVtc("did:vtc:a".to_string()));
    assert!(matches!(
        step,
        JoinStep::Launch { choice: JoinIdentityChoice::Reuse(PersonaId(2)), .. }
    ));
}

#[test]
fn a_text_that_is_no_invitation_is_refused() {
    let config = vta_config();
    for text in ["not json", "{}", "{\"type\":[\"VerifiableCredential\"]}", "[1]"] {
        let mut state = State::default();
        handle_join_action(&mut state, &config, Action::JoinPasteVic(text.to_string()));
        assert!(!state.join.has_invitation);
        assert!(state.invitation_credential.is_none());
        assert_eq!(last_error(&state), "Pasted text is not a valid invitation credential.");
    }
}

#[test]
fn leaving_the_flow_hands_the_session_out() {
    let config = vta_config();
    let mut state = State::default();
    state.active_page = ActivePage::Join;
    let step = handle_join_action(&mut state, &config, Action::JoinCancel);
    assert!(matches!(step, JoinStep::Leave(JoinExit::Returned(None))));
    assert_eq!(state.active_page, ActivePage::Main);
    let step = handle_join_action(&mut state, &config, Action::Exit);
    assert!(matches!(step, JoinStep::Leave(JoinExit::Exit(Interrupted::UserInt))));
    let step =
        handle_join_action(&mut state, &config, Action::UXError(Interrupted::OsSigInt));
    assert!(matches!(step, JoinStep::Leave(JoinExit::Exit(Interrupted::OsSigInt))));
}

#[test]
fn options_are_sorted_and_list_their_communities() {
    let mut config = vta_config();
    config.account.personas.push(persona(1, "did:webvh:bbb", Some("Same")));
    config.account.personas.push(persona(2, "did:webvh:aaa", Some("Same")));
    config.account.add_membership(record("did:vtc:1", 1, Some("Zeta")));
    config.account.add_membership(record("did:vtc:2", 1, Some("Alpha")));
    let options = build_persona_options(&config);
    assert_eq!(options[0].did, "did:webvh:aaa");
    assert_eq!(options[1].did, "did:webvh:bbb");
    assert_eq!(options[1].linked_communities, vec!["Alpha".to_string(), "Zeta".to_string()]);
    assert!(options[0].linked_communities.is_empty());
}

#[test]
fn used_contexts_are_known() {
    let mut config = vta_config();
    config.account.add_membership(record("did:vtc:1", 1, None));
    assert!(is_context_used(&config, "ctx/slug"));
    assert!(!is_context_used(&config, "ctx/slug-2"));
}

fn minted_run(state: &mut State, config: &mut Config) -> JoinRun {
    let (mut run, req) = launch_join_sequence(
        state,
        config,
        JoinIdentityChoice::Mint,
        "did:webvh:scid:vtc.example.com".to_string(),
        true,
        true,
    );
    assert!(matches!(req, JoinRequest::Resolve { .. }));
    let run_ref = &mut run;
    let req = step(run_ref, state, config, JoinReply::Resolved(None));
    assert!(matches!(req, JoinRequest::CreatePersonaKeys { context_id } if context_id == "openvtc"));
    let req = step(run_ref, state, config, JoinReply::PersonaKeys(Ok(keys())));
    assert!(matches!(req, JoinRequest::CreateUpdateKeys { .. }));
    let req = step(
        run_ref,
        state,
        config,
        JoinReply::UpdateKeys(Ok((material("u"), material("n")))),
    );
    assert!(matches!(req, JoinRequest::ListServers));
    let req = step(
        run_ref,
        state,
        config,
        JoinReply::Servers(Ok(vec![WebvhServer { id: "srv-1".to_string(), label: None }])),
    );
    assert!(matches!(req, JoinRequest::CreateDid { server_id, .. } if server_id == "srv-1"));
    let req = step(run_ref, state, config, JoinReply::Did(Ok(hosted())));
    assert!(matches!(
        req,
        JoinRequest::BuildProfile { mediator_did: Some(m), .. } if m == "did:webvh:mediator"
    ));
    let req = step(run_ref, state, config, JoinReply::Profile(Ok(()), PersonaId(77), 42));
    assert!(matches!(req, JoinRequest::Save));
    let req = step(run_ref, state, config, JoinReply::Saved(Ok(())));
    assert!(matches!(req, JoinRequest::DeriveContext { .. }));
    run
}

#[test]
fn a_join_with_a_new_persona_runs_to_its_end() {
    let mut state = State::default();
    let mut config = vta_config();
    let mut run = minted_run(&mut state, &mut config);
    assert_eq!(run.minted, Some(PersonaId(77)));
    assert_eq!(config.account.personas.len(), 1);
    assert_eq!(config.account.personas[0].created_at, 42);
    assert_eq!(config.identities[0].did, "did:webvh:p");
    assert_eq!(config.key_info.len(), 2);
    let req = step(
        &mut run,
        &mut state,
        &mut config,
        JoinReply::Context(Ok("openvtc/vtc".to_string())),
    );
    assert!(matches!(req, JoinRequest::CreateContext { .. }));
    let req = step(&mut run, &mut state, &mut config, JoinReply::Registered(Ok(())));
    match req {
        JoinRequest::Submit { applicant, vtc_did, mediator, invitation } => {
            assert_eq!(applicant, "did:webvh:p");
            assert_eq!(vtc_did, "did:webvh:scid:vtc.example.com");
            assert_eq!(mediator, "did:webvh:mediator");
            assert!(invitation.is_none());
        }
        other => panic!("expected a submit, got {other:?}"),
    }
    let req = step(
        &mut run,
        &mut state,
        &mut config,
        JoinReply::Submitted(Ok("msg-1".to_string()), 99),
    );
    assert!(matches!(req, JoinRequest::Save));
    assert!(is_duplicate_membership(&config, "did:webvh:scid:vtc.example.com"));
    let req = step(&mut run, &mut state, &mut config, JoinReply::Recorded(Ok(())));
    assert!(matches!(req, JoinRequest::Finished { save: false }));
    assert_eq!(run.stage, JoinStage::Over);
    assert_eq!(state.join.completed, Completion::CompletedOK);
    assert!(!state.join.processing);
    let session = joined_session(&state.join).expect("a session");
    assert_eq!(session.persona_id, PersonaId(77));
    assert_eq!(session.persona_did, "did:webvh:p");
    assert_eq!(state.main_page.content_panel.communities.items.len(), 1);
}

#[test]
fn a_failed_submit_takes_the_new_persona_back() {
    let mut state = State::default();
    let mut config = vta_config();
    let mut run = minted_run(&mut state, &mut config);
    step(&mut run, &mut state, &mut config, JoinReply::Context(Ok("openvtc/vtc".to_string())));
    step(&mut run, &mut state, &mut config, JoinReply::Registered(Ok(())));
    let req = step(
        &mut run,
        &mut state,
        &mut config,
        JoinReply::Submitted(Err("no route".to_string()), 99),
    );
    assert!(matches!(req, JoinRequest::Finished { save: true }));
    assert_eq!(last_error(&state), "Failed to submit join request: no route");
    assert!(config.account.personas.is_empty());
    assert!(config.identities.is_empty());
    assert!(config.key_info.is_empty());
    assert_eq!(config.public.friendly_name, "Before");
    assert_eq!(state.join.completed, Completion::CompletedFail);
}

#[test]
fn a_failed_submit_leaves_a_reused_persona_alone() {
    let mut state = State::default();
    let mut config = vta_config();
    config.account.personas.push(persona(1, "did:webvh:one", None));
    config.identities.push(identity(1, "did:webvh:one"));
    let (mut run, _) = launch_join_sequence(
        &mut state,
        &config,
        JoinIdentityChoice::Reuse(PersonaId(1)),
        "did:vtc:a".to_string(),
        true,
        true,
    );
    let req = step(&mut run, &mut state, &mut config, JoinReply::Resolved(None));
    assert!(matches!(req, JoinRequest::DeriveContext { .. }));
    step(&mut run, &mut state, &mut config, JoinReply::Context(Ok("c".to_string())));
    step(&mut run, &mut state, &mut config, JoinReply::Registered(Ok(())));
    let req = step(
        &mut run,
        &mut state,
        &mut config,
        JoinReply::Submitted(Err("no route".to_string()), 0),
    );
    assert!(matches!(req, JoinRequest::Finished { save: false }));
    assert_eq!(config.account.personas.len(), 1);
    assert_eq!(config.identities.len(), 1);
    assert_eq!(config.public.friendly_name, "Before");
}

#[test]
fn every_step_reports_its_failure() {
    let start = |config: &Config, state: &mut State| {
        launch_join_sequence(
            state,
            config,
            JoinIdentityChoice::Mint,
            "did:vtc:a".to_string(),
            true,
            true,
        )
        .0
    };
    let e = || "boom".to_string();

    let mut config = vta_config();
    let mut state = State::default();
    let mut run = start(&config, &mut state);
    step(&mut run, &mut state, &mut config, JoinReply::Resolved(None));
    step(&mut run, &mut state, &mut config, JoinReply::PersonaKeys(Err(e())));
    assert_eq!(last_error(&state), "Failed to create persona keys: boom");

    let mut state = State::default();
    let mut run = start(&config, &mut state);
    step(&mut run, &mut state, &mut config, JoinReply::Resolved(None));
    step(&mut run, &mut state, &mut config, JoinReply::PersonaKeys(Ok(keys())));
    step(&mut run, &mut state, &mut config, JoinReply::UpdateKeys(Err(e())));
    assert_eq!(last_error(&state), "Failed to create update keys: boom");

    for (reply, expected) in [
        (JoinReply::Servers(Err(e())), "Failed to list WebVH servers: boom"),
        (
            JoinReply::Servers(Ok(vec![])),
            "No WebVH server available from the VTA (serverless mint not yet supported).",
        ),
    ] {
        let mut state = State::default();
        let mut run = start(&config, &mut state);
        step(&mut run, &mut state, &mut config, JoinReply::Resolved(None));
        step(&mut run, &mut state, &mut config, JoinReply::PersonaKeys(Ok(keys())));
        step(
            &mut run,
            &mut state,
            &mut config,
            JoinReply::UpdateKeys(Ok((material("u"), material("n")))),
        );
        step(&mut run, &mut state, &mut config, reply);
        assert_eq!(last_error(&state), expected);
    }

    let (_, req) = launch_join_sequence(
        &mut state,
        &config,
        JoinIdentityChoice::Mint,
        "did:vtc:a".to_string(),
        false,
        true,
    );
    assert!(matches!(req, JoinRequest::Finished { save: false }));
    assert_eq!(last_error(&state), "VTA session unavailable — cannot join right now.");

    let mut state = State::default();
    let (mut run, _) = launch_join_sequence(
        &mut state,
        &config,
        JoinIdentityChoice::Reuse(PersonaId(5)),
        "did:vtc:a".to_string(),
        true,
        true,
    );
    step(&mut run, &mut state, &mut config, JoinReply::Resolved(None));
    assert_eq!(last_error(&state), "Selected persona is unavailable — cannot reuse it.");

    let mut state = State::default();
    let mut config = vta_config();
    let mut run = minted_run(&mut state, &mut config);
    run.messaging = false;
    step(&mut run, &mut state, &mut config, JoinReply::Context(Ok("c".to_string())));
    step(&mut run, &mut state, &mut config, JoinReply::Registered(Ok(())));
    assert_eq!(
        last_error(&state),
        "Messaging (ATM) unavailable — cannot submit the join request."
    );

    let mut state = State::default();
    let mut config = vta_config();
    let mut run = minted_run(&mut state, &mut config);
    step(&mut run, &mut state, &mut config, JoinReply::Context(Err(e())));
    assert_eq!(last_error(&state), "Failed to derive sub-context id: boom");

    let mut state = State::default();
    let mut config = vta_config();
    let mut run = minted_run(&mut state, &mut config);
    step(&mut run, &mut state, &mut config, JoinReply::Context(Ok("c".to_string())));
    step(&mut run, &mut state, &mut config, JoinReply::Registered(Err(e())));
    assert_eq!(last_error(&state), "Failed to create sub-context: boom");
}

#[test]
fn a_reply_out_of_turn_is_ignored() {
    let mut state = State::default();
    let mut config = vta_config();
    let (mut run, _) = launch_join_sequence(
        &mut state,
        &config,
        JoinIdentityChoice::Mint,
        "did:vtc:a".to_string(),
        true,
        true,
    );
    let req = step(&mut run, &mut state, &mut config, JoinReply::Recorded(Ok(())));
    assert!(matches!(req, JoinRequest::Ignored));
    assert_eq!(run.stage, JoinStage::Naming);
}

#[test]
fn cancelling_takes_an_unbound_persona_back() {
    let mut state = State::default();
    let mut config = vta_config();
    let run = minted_run(&mut state, &mut config);
    assert!(cancel_join(&run, &mut state, &mut config));
    assert!(config.account.personas.is_empty());
    assert_eq!(config.public.friendly_name, "Before");
    assert_eq!(state.join.completed, Completion::CompletedFail);

    let mut state = State::default();
    let mut config = vta_config();
    let run = minted_run(&mut state, &mut config);
    config.account.add_membership(record("did:vtc:a", 77, None));
    assert!(!cancel_join(&run, &mut state, &mut config));
    assert_eq!(config.account.personas.len(), 1);
}
