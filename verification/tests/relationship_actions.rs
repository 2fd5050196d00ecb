use openvtc::actions::RelationshipAction;
use openvtc::config::{Config, Identity, KeyBackend};
use openvtc::content::RelationshipsMode;
use openvtc::didcomm::OutboundBody;
use openvtc::ledger::{KeySource, PersonaId, Relationship, RelationshipState, Vrc};
use openvtc::relationship_actions::{
    contact_to_resolve, create_request_message, dispatch, handle_edit_alias, is_network,
    listener_to_remove, plan_relationship_did, prepare_ping, prepare_request,
    relationship_did_created, MintedKey, RDidPlan, RelationshipDispatch, RelationshipJob,
    RelationshipOutcome, RequestResult,
};
use openvtc::save_coalesce::SaveScheduler;
use openvtc::state::State;
use openvtc::sync::Host;

fn config() -> Config {
    let mut config = Config::new(KeyBackend::Bip32 { seed: vec![7u8; 32] });
    config.identities.push(Identity {
        persona_id: PersonaId(1),
        did: "did:webvh:us".to_string(),
        document: "{}".to_string(),
        mediator_did: Some("did:med".to_string()),
    });
    config
}

fn relationship(state: RelationshipState) -> Relationship {
    Relationship {
        task_id: "t1".to_string(),
        our_did: "did:peer:ours".to_string(),
        remote_p_did: "did:them".to_string(),
        remote_did: "did:peer:theirs".to_string(),
        created: 0,
        state,
        our_persona: None,
    }
}

fn host() -> Host {
    Host { now: 10, git_sign: None }
}

fn scheduler() -> SaveScheduler {
    SaveScheduler::new("test".to_string())
}

fn vrc(id: &str) -> Vrc {
    Vrc {
        id: id.to_string(),
        issuer: "did:them".to_string(),
        subject: "did:webvh:us".to_string(),
        valid_from: 0,
        valid_until: None,
        credential: "{}".to_string(),
    }
}

fn status(state: &State) -> String {
    state.main_page.content_panel.relationships.status_message.clone().unwrap_or_default()
}

#[test]
fn each_plan_takes_fresh_keys() {
    let mut c = config();
    let first = plan_relationship_did(&mut c).ok().unwrap();
    let second = plan_relationship_did(&mut c).ok().unwrap();
    match (first, second) {
        (
            RDidPlan::Bip32 { v_path, e_path, v_key, e_key },
            RDidPlan::Bip32 { v_path: v2, e_path: e2, v_key: k2, .. },
        ) => {
            assert_eq!(v_path, "m/3'/1'/1'/0'");
            assert_eq!(e_path, "m/3'/1'/1'/1'");
            assert_eq!(v2, "m/3'/1'/1'/2'");
            assert_eq!(e2, "m/3'/1'/1'/3'");
            assert_eq!(v_key.len(), 32);
            assert_ne!(v_key, e_key);
            assert_ne!(v_key, k2);
        }
        _ => panic!("expected derived keys"),
    }
    assert_eq!(c.private.relationships.path_pointer, 4);
    c.private.relationships.path_pointer = u32::MAX;
    assert_eq!(
        plan_relationship_did(&mut c).err().unwrap().display,
        "Relationship key paths are exhausted"
    );
}

#[test]
fn made_keys_are_filed_by_their_origin() {
    let plan = RDidPlan::Vta { v_label: "v".to_string(), e_label: "e".to_string() };
    let made = relationship_did_created(
        plan,
        "did:peer:new".to_string(),
        MintedKey { id: "kv".to_string(), vta_key_id: "vta-v".to_string() },
        MintedKey { id: "ke".to_string(), vta_key_id: "vta-e".to_string() },
    );
    assert_eq!(made.r_did, "did:peer:new");
    assert!(matches!(
        &made.key_info[1].source,
        KeySource::VtaManaged { key_id } if key_id == "vta-e"
    ));
}

#[test]
fn a_request_is_checked_before_it_is_made() {
    let mut c = config();
    let ask = |c: &mut Config, did: &str, alias: &str| {
        prepare_request(c, did, alias, None, false, Ok(())).map_err(|e| e.display)
    };
    assert_eq!(
        ask(&mut c, "them", "").err().unwrap(),
        "Invalid DID: must start with 'did:'"
    );
    c.private.relationships.insert(relationship(RelationshipState::Established));
    assert_eq!(
        ask(&mut c, "did:them", "").err().unwrap(),
        "An established relationship already exists with this DID"
    );
    let job = ask(&mut c, "did:new", " Pal ").ok().unwrap();
    assert_eq!(job.respondent, "did:new");
    assert!(job.rdid_plan.is_none());
    assert_eq!(c.private.contacts.alias("did:new").as_deref(), Some("Pal"));
    assert!(ask(&mut c, "did:other", "Pal").err().unwrap().contains("Pal"));
    let envelope = create_request_message(&c, &job, "did:webvh:us");
    assert_eq!(envelope.to_did, "did:new");
    assert!(matches!(
        envelope.message.body,
        OutboundBody::RelationshipRequest { did, .. } if did == "did:webvh:us"
    ));
}

#[test]
fn a_sent_request_is_kept_and_a_failed_one_is_not() {
    let outcome = |result| RelationshipOutcome::Requested {
        did: "did:new".to_string(),
        our_did: "did:webvh:us".to_string(),
        keys: vec![],
        result,
    };
    let (mut c, mut state, mut save) = (config(), State::default(), scheduler());
    outcome(RequestResult::Sent { task_id: "task-9".to_string() })
        .apply(&mut state, &mut c, &mut save, &host());
    let rel = c.private.relationships.get("did:new").expect("kept");
    assert_eq!(rel.state, RelationshipState::RequestSent);
    assert!(c.private.tasks.get_by_id("task-9").is_some());
    assert!(save.is_pending());

    let (mut c, mut state, mut save) = (config(), State::default(), scheduler());
    outcome(RequestResult::NotSent("offline".to_string()))
        .apply(&mut state, &mut c, &mut save, &host());
    assert!(c.private.relationships.get("did:new").is_none());
    assert!(status(&state).starts_with("Error:"));
}

#[test]
fn removing_a_relationship_takes_everything_with_it() {
    let (mut c, mut state, mut save) = (config(), State::default(), scheduler());
    c.private.relationships.insert(relationship(RelationshipState::Established));
    c.private.vrcs_received.insert("did:them", vrc("v1"));
    assert!(listener_to_remove(&c, "did:them").unwrap().starts_with("rel-"));
    RelationshipOutcome::Removed { remote_p_did: "did:them".to_string() }
        .apply(&mut state, &mut c, &mut save, &host());
    assert!(c.private.relationships.get("did:them").is_none());
    assert!(c.private.vrcs_received.entries.is_empty());
    assert_eq!(status(&state), "Relationship removed");
}

#[test]
fn a_ping_goes_over_the_relationship() {
    let mut c = config();
    assert!(prepare_ping(&c, "did:them").is_err());
    c.private.relationships.insert(relationship(RelationshipState::Established));
    let job = prepare_ping(&c, "did:them").ok().unwrap();
    assert_eq!(job.our_did, "did:peer:ours");
    assert_eq!(job.envelope.to_did, "did:peer:theirs");
    assert!(matches!(job.envelope.message.body, OutboundBody::TrustPing));
    let (mut state, mut save) = (State::default(), scheduler());
    RelationshipOutcome::Pinged { job: job.clone(), sent: Err("down".to_string()) }
        .apply(&mut state, &mut c, &mut save, &host());
    assert_eq!(status(&state), "Ping failed: failed to send trust-ping: down");
    RelationshipOutcome::Pinged { job, sent: Ok(()) }
        .apply(&mut state, &mut c, &mut save, &host());
    assert_eq!(status(&state), "Ping sent");
}

#[test]
fn aliases_are_set_and_taken_away() {
    let (mut c, mut state, mut save) = (config(), State::default(), scheduler());
    c.private.relationships.insert(relationship(RelationshipState::Established));
    handle_edit_alias(&mut c, &mut state, &mut save, "did:them", "Pal", &host());
    assert_eq!(c.private.contacts.alias("did:them").as_deref(), Some("Pal"));
    assert_eq!(status(&state), "Alias updated");
    handle_edit_alias(&mut c, &mut state, &mut save, "did:them", "  ", &host());
    assert_eq!(c.private.contacts.alias("did:them"), None);
}

#[test]
fn the_form_is_driven_by_actions() {
    let (mut c, mut state, mut save) = (config(), State::default(), scheduler());
    let mut act = |state: &mut State, c: &mut Config, a| {
        dispatch(a, c, state, &mut save, Ok(()), &host())
    };
    act(&mut state, &mut c, RelationshipAction::StartNewRequest);
    act(
        &mut state,
        &mut c,
        RelationshipAction::InputUpdate { field: 0, value: "did:new".to_string() },
    );
    act(&mut state, &mut c, RelationshipAction::ToggleRDid);
    assert!(matches!(
        &state.main_page.content_panel.relationships.mode,
        RelationshipsMode::NewRequest { did_input, generate_r_did, .. }
            if did_input == "did:new" && *generate_r_did
    ));
    let submit = RelationshipAction::SubmitRequest {
        did: "did:new".to_string(),
        alias: "Pal".to_string(),
        reason: None,
        generate_r_did: true,
    };
    assert!(is_network(&submit));
    assert!(!is_network(&RelationshipAction::ToggleRDid));
    assert_eq!(contact_to_resolve(&c, &submit).as_deref(), Some("did:new"));
    match act(&mut state, &mut c, submit) {
        RelationshipDispatch::Spawn { job: RelationshipJob::Request(job), is_ping } => {
            assert!(!is_ping);
            assert!(matches!(job.rdid_plan, Some(RDidPlan::Bip32 { .. })));
        }
        _ => panic!("expected a request"),
    }
    assert_eq!(status(&state), "Creating relationship DID...");
}
