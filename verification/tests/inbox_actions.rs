use openvtc::config::{Config, KeyBackend};
use openvtc::inbox_actions::{InboxEffect, InboxOutcome};
use openvtc::ledger::{KeyEntry, KeyPurpose, KeySource, TaskType};
use openvtc::save_coalesce::SaveScheduler;
use openvtc::state::State;
use openvtc::sync::Host;

fn test_config() -> Config {
    Config::new(KeyBackend::Bip32 { seed: vec![7u8; 32] })
}

fn host() -> Host {
    Host { now: 1_000, git_sign: None }
}

#[test]
fn accept_relationship_success_inserts_relationship() {
    let mut config = test_config();
    let mut save = SaveScheduler::new("test".to_string());
    let mut state = State::default();
    config.private.tasks.new_task("task-acc", TaskType::RelationshipRequestRejected);

    let outcome = InboxOutcome {
        effect: InboxEffect::AcceptRelationship {
            task_id: "task-acc".to_string(),
            from_did: "did:peer:from".to_string(),
            their_did: "did:peer:their".to_string(),
            our_did: "did:peer:our-rdid".to_string(),
            key_info: vec![KeyEntry {
                id: "z-acc-key".to_string(),
                source: KeySource::Derived { path: "m/3'/1'/1'/0'".to_string() },
                created: 0,
                purpose: KeyPurpose::RelationshipVerification,
            }],
        },
        result: Ok(()),
    };
    outcome.apply(&mut state, &mut config, &mut save, &host());

    assert!(
        config.private.relationships.get("did:peer:from").is_some(),
        "relationship inserted on accept success"
    );
    assert!(
        config.private.tasks.get_by_id("task-acc").is_none(),
        "task removed on accept success"
    );
    assert!(config.key_info.iter().any(|k| k.id == "z-acc-key"));
    assert_eq!(
        state.main_page.content_panel.inbox.status_message.as_deref(),
        Some("Relationship request accepted")
    );
}

#[test]
fn accept_relationship_failure_keeps_task_and_no_relationship() {
    let mut config = test_config();
    let mut save = SaveScheduler::new("test".to_string());
    let mut state = State::default();
    config.private.tasks.new_task("task-acc", TaskType::RelationshipRequestRejected);

    let outcome = InboxOutcome {
        effect: InboxEffect::AcceptRelationship {
            task_id: "task-acc".to_string(),
            from_did: "did:peer:from".to_string(),
            their_did: "did:peer:their".to_string(),
            our_did: "did:peer:our-rdid".to_string(),
            key_info: Vec::new(),
        },
        result: Err("send failed".to_string()),
    };
    outcome.apply(&mut state, &mut config, &mut save, &host());

    assert!(
        config.private.relationships.get("did:peer:from").is_none(),
        "no relationship on accept failure"
    );
    assert!(
        config.private.tasks.get_by_id("task-acc").is_some(),
        "task retained on accept failure"
    );
    let status =
        state.main_page.content_panel.inbox.status_message.clone().unwrap_or_default();
    assert!(status.starts_with("Error:"), "got: {status}");
}

#[test]
fn reject_relationship_success_removes_task() {
    let mut config = test_config();
    let mut save = SaveScheduler::new("test".to_string());
    let mut state = State::default();
    config.private.tasks.new_task("task-rej", TaskType::RelationshipRequestRejected);

    let outcome = InboxOutcome {
        effect: InboxEffect::RejectRelationship {
            task_id: "task-rej".to_string(),
            from_did: "did:peer:from".to_string(),
            reason: Some("no thanks".to_string()),
        },
        result: Ok(()),
    };
    outcome.apply(&mut state, &mut config, &mut save, &host());

    assert!(config.private.tasks.get_by_id("task-rej").is_none());
    assert_eq!(
        state.main_page.content_panel.inbox.status_message.as_deref(),
        Some("Relationship request rejected")
    );
}

#[test]
fn reject_relationship_failure_keeps_task() {
    let mut config = test_config();
    let mut save = SaveScheduler::new("test".to_string());
    let mut state = State::default();
    config.private.tasks.new_task("task-rej", TaskType::RelationshipRequestRejected);

    let outcome = InboxOutcome {
        effect: InboxEffect::RejectRelationship {
            task_id: "task-rej".to_string(),
            from_did: "did:peer:from".to_string(),
            reason: None,
        },
        result: Err("send failed".to_string()),
    };
    outcome.apply(&mut state, &mut config, &mut save, &host());

    assert!(
        config.private.tasks.get_by_id("task-rej").is_some(),
        "task retained on reject failure"
    );
}
