use openvtc::account::{CommunityRecord, CommunityStatus, PersonaRecord, PENDING_LIFETIME};
use openvtc::communities::{
    finish_leave, handle_archive_community, handle_delete_community, handle_leave_community,
    handle_open_switcher, handle_pending_expiry, handle_set_active_community,
    handle_switcher_select, handle_toggle_favourite, handle_toggle_show_archived,
    handle_withdraw_join, joined_session_started, register_joined_session, start_sessions,
};
use openvtc::config::{Config, Identity, KeyBackend};
use openvtc::join::JoinedSession;
use openvtc::ledger::PersonaId;
use openvtc::main_page::ErrorText;
use openvtc::save_coalesce::SaveScheduler;
use openvtc::session_manager::SessionManager;
use openvtc::state::State;
use openvtc::sync::Host;

fn host() -> Host {
    Host { now: 10, git_sign: None }
}

fn record(vtc: &str, persona: u128, status: CommunityStatus) -> CommunityRecord {
    let mut r = CommunityRecord::new_pending(
        vtc.to_string(),
        Some(format!("Name of {vtc}")),
        "ctx".to_string(),
        PersonaId(persona),
        "req".to_string(),
        0,
    );
    r.status = status;
    r
}

fn config(records: Vec<CommunityRecord>) -> Config {
    let mut c = Config::new(KeyBackend::Bip32 { seed: vec![7u8; 32] });
    for id in [1u128, 2] {
        let did = format!("did:webvh:host:p{id}");
        c.account.personas.push(PersonaRecord {
            persona_id: PersonaId(id),
            did: did.clone(),
            did_document: None,
            key_refs: vec![],
            mediator_did: None,
            origin_context_id: String::new(),
            created_at: 0,
            label: None,
        });
        c.identities.push(Identity {
            persona_id: PersonaId(id),
            did,
            document: "{}".to_string(),
            mediator_did: Some("did:med".to_string()),
        });
    }
    for r in records {
        c.account.add_membership(r);
    }
    c
}

fn parts() -> (State, SaveScheduler, SessionManager) {
    (State::default(), SaveScheduler::new("test".to_string()), SessionManager::new(8))
}

fn status(state: &State) -> String {
    state.main_page.content_panel.communities.status_message.clone().unwrap_or_default()
}

fn last_line(state: &State) -> String {
    state.main_page.activity_log.back().map(|e| e.summary.clone()).unwrap_or_default()
}

#[test]
fn a_live_membership_cannot_be_removed() {
    let mut c = config(vec![record("did:a", 1, CommunityStatus::Active)]);
    let (mut state, mut save, mut sessions) = parts();
    sessions.register(PersonaId(1), "p1", "did:a".to_string());
    let gone =
        handle_delete_community(&mut state, &mut c, &mut save, &mut sessions, 0, &host());
    assert!(gone.is_none());
    assert_eq!(c.account.communities.len(), 1);
    assert_eq!(sessions.session_count(), 0);
    assert!(!save.is_pending());
    assert_eq!(
        status(&state),
        "Could not remove community: community is still active or pending"
    );
}

#[test]
fn removing_the_last_membership_stops_its_listener() {
    let mut c = config(vec![record("did:a", 1, CommunityStatus::Left)]);
    let (mut state, mut save, mut sessions) = parts();
    sessions.register(PersonaId(1), "p1", "did:a".to_string());
    let gone =
        handle_delete_community(&mut state, &mut c, &mut save, &mut sessions, 0, &host());
    assert_eq!(gone.as_deref(), Some("p1"));
    assert!(c.account.communities.is_empty());
    assert_eq!(status(&state), "Community removed.");
    assert!(save.is_pending());
}

#[test]
fn leaving_takes_a_message_and_an_answer() {
    let mut c = config(vec![record("did:a", 1, CommunityStatus::Active)]);
    let (mut state, mut save, mut sessions) = parts();
    sessions.register(PersonaId(1), "p1", "did:a".to_string());
    let job = handle_leave_community(&mut state, &c, 0).expect("a message to send");
    assert_eq!(job.vtc_did, "did:a");
    assert_eq!(job.member_did, "did:webvh:host:p1");
    assert_eq!(job.mediator_did, "did:med");
    let kept = finish_leave(
        &mut state,
        &mut c,
        &mut save,
        &mut sessions,
        &job,
        Err(ErrorText::plain("offline".to_string())),
        &host(),
    );
    assert!(kept.is_none());
    assert!(c.account.communities[0].status.is_active());
    assert_eq!(status(&state), "Couldn't leave: offline");
    let gone =
        finish_leave(&mut state, &mut c, &mut save, &mut sessions, &job, Ok(()), &host());
    assert_eq!(gone.as_deref(), Some("p1"));
    assert!(matches!(c.account.communities[0].status, CommunityStatus::Left));
    assert_eq!(status(&state), "Left the community.");
}

#[test]
fn a_pending_request_can_be_withdrawn() {
    let pending = CommunityStatus::Pending { request_id: "r".to_string() };
    let mut c = config(vec![record("did:a", 1, pending)]);
    let (mut state, mut save, mut sessions) = parts();
    handle_withdraw_join(&mut state, &mut c, &mut save, &mut sessions, 0, &host());
    assert!(matches!(c.account.communities[0].status, CommunityStatus::Withdrawn));
    assert_eq!(status(&state), "Join cancelled — request withdrawn.");
}

#[test]
fn archived_memberships_are_shown_on_request() {
    let mut c = config(vec![
        record("did:a", 1, CommunityStatus::Left),
        record("did:b", 1, CommunityStatus::Active),
    ]);
    let (mut state, mut save, _) = parts();
    handle_archive_community(&mut state, &mut c, &mut save, 0, &host());
    assert!(c.account.communities[0].archived);
    assert_eq!(state.main_page.content_panel.communities.items.len(), 1);
    handle_toggle_show_archived(&mut state, &c, &host());
    assert_eq!(state.main_page.content_panel.communities.items.len(), 2);
}

#[test]
fn starred_memberships_stand_first() {
    let mut c = config(vec![
        record("did:a", 1, CommunityStatus::Active),
        record("did:b", 1, CommunityStatus::Active),
    ]);
    let (mut state, mut save, _) = parts();
    handle_toggle_favourite(&mut state, &mut c, &mut save, 1, &host());
    assert_eq!(state.main_page.content_panel.communities.items[0].vtc_did, "did:b");
    assert!(state.main_page.content_panel.communities.items[0].favourite);
}

#[test]
fn switching_communities_switches_the_persona() {
    let mut c = config(vec![
        record("did:a", 1, CommunityStatus::Active),
        record("did:b", 2, CommunityStatus::Active),
    ]);
    let (mut state, _, _) = parts();
    handle_set_active_community(&mut state, &mut c, 1, &host());
    assert_eq!(c.active_persona, Some(PersonaId(2)));
    assert_eq!(state.selected_community, Some(("did:b".to_string(), PersonaId(2))));
    handle_open_switcher(&mut state, &c);
    let items = &state.main_page.switcher.as_ref().unwrap().items;
    assert_eq!(items.len(), 2);
    assert!(items[1].is_current);
    state.main_page.switcher.as_mut().unwrap().selected = 0;
    handle_switcher_select(&mut state, &mut c, &host());
    assert_eq!(c.active_persona, Some(PersonaId(1)));
    assert!(state.main_page.switcher.is_none());
}

#[test]
fn requests_expire_after_a_week() {
    let pending = || CommunityStatus::Pending { request_id: "r".to_string() };
    let mut c = config(vec![record("did:a", 1, pending()), record("did:b", 2, pending())]);
    c.account.communities[1].requested_at = Some(1);
    let (mut state, mut save, mut sessions) = parts();
    sessions.register(PersonaId(1), "p1", "did:a".to_string());
    let ended = handle_pending_expiry(
        &mut state,
        &mut c,
        &mut save,
        &mut sessions,
        PENDING_LIFETIME,
        &host(),
    );
    assert_eq!(ended, vec!["p1".to_string()]);
    assert!(matches!(c.account.communities[0].status, CommunityStatus::Expired));
    assert!(c.account.communities[0].attention);
    assert!(matches!(c.account.communities[1].status, CommunityStatus::Pending { .. }));
}

#[test]
fn sessions_start_for_live_memberships() {
    let c = config(vec![
        record("did:a", 1, CommunityStatus::Active),
        record("did:b", 1, CommunityStatus::Left),
        record("did:c", 2, CommunityStatus::Active),
    ]);
    let mut state = State::default();
    let sessions = start_sessions(&mut state, &c);
    assert_eq!(sessions.session_count(), 2);
    assert_eq!(sessions.session(PersonaId(1)).unwrap().communities, vec!["did:a".to_string()]);
}

#[test]
fn a_joined_session_comes_up_or_says_why_not() {
    let c = config(vec![record("did:a", 1, CommunityStatus::Active)]);
    let joined = JoinedSession {
        persona_id: PersonaId(1),
        persona_did: "did:webvh:host:p1".to_string(),
        vtc_did: "did:a".to_string(),
    };
    let mut state = State::default();
    let mut sessions = SessionManager::new(8);
    let listener =
        register_joined_session(&mut sessions, &c, &joined, &mut state).expect("a listener");
    assert_eq!(listener.id, "p1");
    assert!(register_joined_session(&mut sessions, &c, &joined, &mut state).is_none());
    assert!(last_line(&state).contains("attached to an existing live session"));
    joined_session_started(&mut sessions, &mut state, "p1", Ok(()));
    assert!(last_line(&state).contains("New community session connecting…"));
    let mut full = SessionManager::new(0);
    assert_eq!(full.max_sessions(), 1);
    full.register(PersonaId(2), "p2", "did:b".to_string());
    assert!(register_joined_session(&mut full, &c, &joined, &mut state).is_none());
    assert!(last_line(&state).contains("session limit (1)"));
}
