use openvtc::account::{CommunityRecord, CommunityStatus, KeyRef, PersonaRecord};
use openvtc::codec::short_did_id;
use openvtc::config::{Config, Identity, KeyBackend};
use openvtc::did_manager::{prepare_delete_context_did, DidDeleteOutcome};
use openvtc::display::{sanitize_display, truncate_did};
use openvtc::git_sign::{detect_did_git_sign_info, GitSignFiles};
use openvtc::keyed::{put, remove_key};
use openvtc::ledger::{KeyEntry, KeyPurpose, KeySource, PersonaId, Vrc, Vrcs};
use openvtc::main_page::{format_error_detail, ErrorText, MainPageState};
use openvtc::menu::MainMenu;
use openvtc::save_coalesce::SaveScheduler;
use openvtc::settings_actions::{import_config, set_passphrase, validate_file_path};
use openvtc::state::State;
use openvtc::sync::Host;
use openvtc::text::{decimal, join, last_segment, replace, same_ignoring_case, trim};

fn key(id: &str) -> KeyEntry {
    KeyEntry {
        id: id.to_string(),
        source: KeySource::Derived { path: "m".to_string() },
        created: 0,
        purpose: KeyPurpose::PersonaSigning,
    }
}

fn config() -> Config {
    let mut c = Config::new(KeyBackend::Bip32 { seed: vec![7u8; 32] });
    c.account.personas.push(PersonaRecord {
        persona_id: PersonaId(1),
        did: "did:webvh:p".to_string(),
        did_document: None,
        key_refs: vec![KeyRef {
            key_id: "k1".to_string(),
            purpose: KeyPurpose::PersonaSigning,
            created_at: 0,
        }],
        mediator_did: None,
        origin_context_id: String::new(),
        created_at: 0,
        label: None,
    });
    c.identities.push(Identity {
        persona_id: PersonaId(1),
        did: "did:webvh:p".to_string(),
        document: "{}".to_string(),
        mediator_did: None,
    });
    c.key_info.push(key("k1"));
    c
}

#[test]
fn short_ids_are_digests() {
    assert_eq!(short_did_id(""), "e3b0c44298fc1c14");
    assert_eq!(short_did_id("abc"), "ba7816bf8f01cfea");
}

#[test]
fn display_drops_what_could_mislead() {
    assert_eq!(sanitize_display("a\u{202e}b\u{200b}c", 256), "abc");
    assert_eq!(sanitize_display("plain text", 5), "plain");
    assert_eq!(truncate_did("did:example:long", 10), "did:exa...");
    assert_eq!(truncate_did("abcdef", 2), "ab");
}

#[test]
fn git_signing_is_detected_for_its_persona() {
    let files = Some(GitSignFiles {
        config_path: "/c".to_string(),
        did_key_id: "did:p#key-0".to_string(),
        allowed_signers: "other ssh-ed25519 ZZZ\ndid:p#key-0 ssh-ed25519 AAA\n".to_string(),
    });
    let info = detect_did_git_sign_info("did:p", &files).expect("an install");
    assert_eq!(info.ssh_public_key, "ssh-ed25519 AAA");
    assert_eq!(info.config_path, "/c");
    assert!(detect_did_git_sign_info("did:q", &files).is_none());
    assert!(detect_did_git_sign_info("did:p", &None).is_none());
}

#[test]
fn the_menu_steps_undo_each_other() {
    assert_eq!(MainMenu::Communities.next(), MainMenu::Inbox);
    assert_eq!(MainMenu::Inbox.prev(), MainMenu::Communities);
    assert_eq!(MainMenu::Communities.prev(), MainMenu::Quit);
    assert_eq!(MainMenu::Quit.next(), MainMenu::Communities);
    assert_eq!(MainMenu::Relationships.title(), "My Relationships");
}

#[test]
fn stored_entries_replace_and_leave() {
    let mut v = vec![key("a"), key("b")];
    put(&mut v, key("a"));
    assert_eq!(v.iter().map(|k| k.id.as_str()).collect::<Vec<_>>(), vec!["b", "a"]);
    assert!(remove_key(&mut v, "b"));
    assert!(!remove_key(&mut v, "b"));
}

#[test]
fn a_credential_is_filed_once_under_a_party() {
    let vrc = |id: &str| Vrc {
        id: id.to_string(),
        issuer: "i".to_string(),
        subject: "s".to_string(),
        valid_from: 0,
        valid_until: None,
        credential: "{}".to_string(),
    };
    let mut vrcs = Vrcs::empty();
    assert!(!vrcs.insert("p", vrc("")));
    assert!(vrcs.insert("p", vrc("1")));
    assert!(vrcs.insert("p", vrc("1")));
    assert!(vrcs.insert("q", vrc("1")));
    assert_eq!(vrcs.entries.len(), 2);
    vrcs.remove_remote("p");
    assert_eq!(vrcs.entries.len(), 1);
}

#[test]
fn a_bound_identity_cannot_be_deleted() {
    let mut c = config();
    let mut state = State::default();
    let host = Host { now: 0, git_sign: None };
    state.main_page.sync_from_config(&c, &host);
    c.account.add_membership(CommunityRecord::new_pending(
        "did:vtc".to_string(),
        None,
        "ctx".to_string(),
        PersonaId(1),
        "r".to_string(),
        0,
    ));
    assert!(prepare_delete_context_did(&mut state, &c, 0).is_none());
    assert!(state
        .main_page
        .activity_log
        .back()
        .unwrap()
        .summary
        .ends_with("Can't delete — 1 community still use this identity; leave them first."));

    c.account.communities.clear();
    let job = prepare_delete_context_did(&mut state, &c, 0).expect("unbound");
    assert_eq!(job.key_ids, vec!["k1".to_string()]);
    let mut save = SaveScheduler::new("test".to_string());
    DidDeleteOutcome {
        did: job.did.clone(),
        persona_id: job.persona_id,
        key_ids: job.key_ids.clone(),
        result: Err("offline".to_string()),
    }
    .apply(&mut state, &mut c, &mut save, &host);
    assert_eq!(c.account.personas.len(), 1);
    DidDeleteOutcome {
        did: job.did,
        persona_id: job.persona_id,
        key_ids: job.key_ids,
        result: Ok(()),
    }
    .apply(&mut state, &mut c, &mut save, &host);
    assert!(c.account.personas.is_empty());
    assert!(c.identities.is_empty());
    assert!(c.key_info.is_empty());
}

#[test]
fn settings_say_why_they_refuse() {
    assert_eq!(
        validate_file_path(" ").err().unwrap().display,
        "File path cannot be empty"
    );
    assert_eq!(
        validate_file_path("a/..").err().unwrap().display,
        "Path traversal (..) is not allowed"
    );
    assert_eq!(
        import_config("x.enc", false).err().unwrap().display,
        "File not found: x.enc"
    );
    let mut c = config();
    assert!(set_passphrase(&mut c, Err(ErrorText::plain("kdf".to_string()))).is_err());
    assert!(c.unlock_code.is_none());
    assert!(set_passphrase(&mut c, Ok(vec![1])).is_ok());
    assert_eq!(c.unlock_code, Some(vec![1]));
}

#[test]
fn errors_keep_their_causes() {
    let err = ErrorText {
        display: "top".to_string(),
        alternate: "top: cause".to_string(),
        debug: "top\n\nCaused by:\n    cause".to_string(),
    };
    let detail = format_error_detail("Saving", &err);
    assert!(detail.contains("Saving"));
    assert!(detail.contains("top: cause"));
    assert!(detail.contains("Caused by"));
    let mut page = MainPageState::default();
    page.log_error("Saving", &err);
    let entry = page.activity_log.back().unwrap();
    assert!(entry.summary.ends_with("Saving: top"));
    assert_eq!(entry.detail.as_deref(), Some(detail.as_str()));
}

#[test]
fn memberships_are_replaced_per_persona() {
    let mut c = config();
    let rec = |persona: u128, ctx: &str| {
        CommunityRecord::new_pending(
            "did:vtc".to_string(),
            None,
            ctx.to_string(),
            PersonaId(persona),
            "r".to_string(),
            0,
        )
    };
    c.account.add_membership(rec(1, "a"));
    c.account.add_membership(rec(2, "b"));
    c.account.add_membership(rec(1, "c"));
    assert_eq!(c.account.communities.len(), 2);
    let at = c.account.membership("did:vtc", PersonaId(1)).unwrap();
    assert_eq!(c.account.communities[at].sub_context_id, "c");
    assert!(matches!(c.account.communities[at].status, CommunityStatus::Pending { .. }));
}

#[test]
fn texts_are_cut_and_joined() {
    assert_eq!(trim("\u{3000} a b \n"), "a b");
    assert_eq!(replace("aXbXc", "X", "--"), "a--b--c");
    assert_eq!(last_segment("a/b/c"), "c");
    assert_eq!(decimal(1205), "1205");
    assert_eq!(join(&vec!["a".to_string(), "b".to_string()], ", "), "a, b");
    assert!(same_ignoring_case("WiPe", "wipe"));
    assert!(!same_ignoring_case("wipe", "wip"));
}
