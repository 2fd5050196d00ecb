use openvtc::account::{CommunityRecord, CommunityStatus};
use openvtc::config::{Config, Identity, KeyBackend};
use openvtc::didcomm::{InboundMessage, OutboundBody};
use openvtc::ledger::{
    PersonaId, Relationship, RelationshipRequest, RelationshipState, TaskType, Vrc,
};
use openvtc::message_dispatch::{
    handle_credential_issue, handle_join_submit_receipt, process_inbound_message, AcceptBody,
    InboundKind, IssuedBody, IssuedKind, Processed, RequestBody, Verdict, MAX_MESSAGE_BODY_SIZE,
};

const US: &str = "did:webvh:us";

fn config() -> Config {
    let mut config = Config::new(KeyBackend::Bip32 { seed: vec![7u8; 32] });
    config.identities.push(Identity {
        persona_id: PersonaId(1),
        did: US.to_string(),
        document: "{}".to_string(),
        mediator_did: Some("did:med".to_string()),
    });
    config
}

fn with_relationship(state: RelationshipState) -> Config {
    let mut c = config();
    c.private.relationships.insert(Relationship {
        task_id: "t1".to_string(),
        our_did: "did:peer:ours".to_string(),
        remote_p_did: "did:them".to_string(),
        remote_did: "did:them".to_string(),
        created: 0,
        state,
        our_persona: None,
    });
    c.private.tasks.new_task("t1", TaskType::RelationshipRequestOutbound {
        to: "did:them".to_string(),
    });
    c
}

fn message(from: Option<&str>, thid: Option<&str>) -> InboundMessage {
    InboundMessage {
        id: "m1".to_string(),
        typ: "https://linuxfoundation.org/openvtc/x".to_string(),
        from: from.map(str::to_string),
        to: vec![US.to_string()],
        thid: thid.map(str::to_string),
        body: "{}".to_string(),
    }
}

fn fresh() -> Verdict {
    Verdict { fresh: true, replayed: false, max_tasks: 100 }
}

fn process(config: &mut Config, m: &InboundMessage, kind: InboundKind) -> Processed {
    process_inbound_message(config, m, kind, fresh())
}

fn request() -> InboundKind {
    InboundKind::RelationshipRequest {
        body: Ok(RequestBody {
            request: RelationshipRequest {
                reason: None,
                did: "did:peer:theirs".to_string(),
                name: Some("Them".to_string()),
            },
            did_valid: true,
        }),
    }
}

fn vrc(issuer: &str) -> Vrc {
    Vrc {
        id: "v1".to_string(),
        issuer: issuer.to_string(),
        subject: "did:s".to_string(),
        valid_from: 0,
        valid_until: None,
        credential: "{}".to_string(),
    }
}

#[test]
fn replayed_and_stale_messages_change_nothing() {
    for verdict in [
        Verdict { fresh: false, replayed: false, max_tasks: 100 },
        Verdict { fresh: true, replayed: true, max_tasks: 100 },
    ] {
        let mut c = config();
        let r = process_inbound_message(
            &mut c,
            &message(Some("did:them"), None),
            request(),
            verdict,
        );
        assert!(!r.ok().unwrap().changed);
        assert!(c.private.tasks.tasks.is_empty());
    }
}

#[test]
fn an_oversized_body_is_dropped() {
    let mut c = config();
    let mut m = message(Some("did:them"), None);
    m.body = format!("\"{}\"", "x".repeat(MAX_MESSAGE_BODY_SIZE));
    assert!(!process(&mut c, &m, request()).ok().unwrap().changed);
    m.body = "\"x\"".to_string();
    assert!(process(&mut c, &m, request()).ok().unwrap().changed);
}

#[test]
fn a_request_is_filed_once_and_within_bounds() {
    let mut c = config();
    let m = message(Some("did:them"), None);
    assert!(process(&mut c, &m, request()).ok().unwrap().changed);
    assert_eq!(c.private.tasks.tasks.len(), 1);
    assert!(matches!(
        &c.private.tasks.tasks[0].type_,
        TaskType::RelationshipRequestInbound { from, to, .. } if from == "did:them" && to == US
    ));
    assert!(!process(&mut c, &m, request()).ok().unwrap().changed);

    let mut c = config();
    let full = Verdict { fresh: true, replayed: false, max_tasks: 0 };
    assert!(!process_inbound_message(&mut c, &m, request(), full).ok().unwrap().changed);
}

#[test]
fn an_acceptance_establishes_and_is_confirmed() {
    let mut c = with_relationship(RelationshipState::RequestSent);
    let kind = InboundKind::RelationshipAccepted {
        body: Ok(AcceptBody { did: "did:peer:new".to_string(), did_valid: true }),
    };
    let out = process(&mut c, &message(Some("did:them"), Some("t1")), kind).ok().unwrap();
    assert!(out.changed);
    let rel = c.private.relationships.get("did:them").unwrap();
    assert_eq!(rel.state, RelationshipState::Established);
    assert_eq!(rel.remote_did, "did:peer:new");
    assert!(c.private.tasks.get_by_id("t1").is_none());
    let sent = out.send.expect("a confirmation");
    assert!(matches!(sent.message.body, OutboundBody::RelationshipFinalize));
    assert_eq!(sent.to_did, "did:them");
}

#[test]
fn a_stranger_cannot_establish_a_relationship() {
    let accepted = || InboundKind::RelationshipAccepted {
        body: Ok(AcceptBody { did: "did:peer:new".to_string(), did_valid: true }),
    };
    for kind in [accepted(), InboundKind::RelationshipFinalize] {
        let mut c = with_relationship(RelationshipState::RequestSent);
        let out = process(&mut c, &message(Some("did:mallory"), Some("t1")), kind).ok().unwrap();
        assert!(!out.changed);
        assert_eq!(
            c.private.relationships.get("did:them").unwrap().state,
            RelationshipState::RequestSent
        );
    }
}

#[test]
fn a_rejection_takes_the_relationship_away() {
    let mut c = with_relationship(RelationshipState::RequestSent);
    let kind = InboundKind::RelationshipRejected { reason: Ok(Some("busy".to_string())) };
    let out = process(&mut c, &message(Some("did:them"), Some("t1")), kind).ok().unwrap();
    assert!(out.changed);
    assert!(c.private.relationships.get("did:them").is_none());
    assert!(out.remove_listener.is_some());
    assert_eq!(
        c.public.logs.messages.last().unwrap().message,
        "Relationship request rejected by (did:them). Reason: busy"
    );
}

#[test]
fn a_credential_is_asked_for_only_within_a_relationship() {
    let mut c = config();
    let kind = || InboundKind::VrcRequest { reason: Ok(None) };
    let r = process(&mut c, &message(Some("did:them"), None), kind());
    assert_eq!(
        r.err().unwrap().display,
        "VRC request from (did:them) but no relationship found"
    );
    let mut c = with_relationship(RelationshipState::Established);
    assert!(process(&mut c, &message(Some("did:them"), None), kind()).ok().unwrap().changed);
    assert!(matches!(
        &c.private.tasks.get_by_id("m1").unwrap().type_,
        TaskType::VRCRequestInbound { remote_p_did, .. } if remote_p_did == "did:them"
    ));
}

#[test]
fn an_issued_credential_must_come_from_its_issuer() {
    let issue = |issuer: &str, proof_valid: bool| InboundKind::VrcIssued {
        body: Ok(IssuedBody { vrc: vrc(issuer), proof_valid }),
    };
    for (issuer, proof, filed) in
        [("did:them", true, true), ("did:other", true, false), ("did:them", false, false)]
    {
        let mut c = with_relationship(RelationshipState::Established);
        let _ = process(&mut c, &message(Some("did:them"), None), issue(issuer, proof));
        let seen = c.private.tasks.get_by_id("m1").is_some();
        assert_eq!(seen, filed, "issuer {issuer}, proof {proof}");
    }
}

#[test]
fn a_receipt_and_a_credential_carry_a_membership_on() {
    let mut c = config();
    c.account.add_membership(CommunityRecord::new_pending(
        "did:vtc".to_string(),
        None,
        "ctx".to_string(),
        PersonaId(1),
        "msg-1".to_string(),
        0,
    ));
    let thid = Some("msg-1".to_string());
    assert!(!handle_join_submit_receipt(
        &mut c.account,
        &thid,
        "req-9".to_string(),
        "did:mallory"
    ));
    assert!(handle_join_submit_receipt(&mut c.account, &thid, "req-9".to_string(), "did:vtc"));
    assert!(matches!(
        &c.account.communities[0].status,
        CommunityStatus::Pending { request_id } if request_id == "req-9"
    ));
    assert!(!handle_credential_issue(
        &mut c.account,
        IssuedKind::Membership,
        "{}".to_string(),
        "did:mallory",
        Some(PersonaId(1))
    ));
    assert!(handle_credential_issue(
        &mut c.account,
        IssuedKind::Membership,
        "{}".to_string(),
        "did:vtc",
        Some(PersonaId(1))
    ));
    assert!(c.account.communities[0].status.is_active());
    assert_eq!(c.account.communities[0].membership_credential.as_deref(), Some("{}"));
}

#[test]
fn a_ping_is_filed_only_from_a_party_we_know() {
    let mut c = with_relationship(RelationshipState::Established);
    let m = message(Some("did:mallory"), None);
    assert!(!process(&mut c, &m, InboundKind::TrustPing).ok().unwrap().changed);
    assert_eq!(c.private.tasks.tasks.len(), 1);
    let m = message(Some("did:them"), None);
    assert!(process(&mut c, &m, InboundKind::TrustPing).ok().unwrap().changed);
    assert!(matches!(
        &c.private.tasks.get_by_id("m1").unwrap().type_,
        TaskType::TrustPing { remote_p_did, .. } if remote_p_did == "did:them"
    ));
}

#[test]
fn a_pong_changes_something_only_where_its_ping_is_in_the_inbox() {
    let pong = "https://didcomm.org/trust-ping/2.0/ping-response";
    for from in [Some("did:them"), None] {
        for (thid, changed) in [(None, false), (Some("t9"), false), (Some("t1"), true)] {
            let mut c = with_relationship(RelationshipState::Established);
            let mut m = message(from, thid);
            m.typ = pong.to_string();
            let out = process(&mut c, &m, InboundKind::TrustPong).ok().unwrap();
            assert_eq!(out.changed, changed, "from {from:?}, thread {thid:?}");
            assert_eq!(c.private.tasks.get_by_id("t1").is_none(), changed);
        }
    }
}

#[test]
fn an_answered_request_leaves_a_full_inbox() {
    let issue = || InboundKind::VrcIssued {
        body: Ok(IssuedBody { vrc: vrc("did:them"), proof_valid: true }),
    };
    for (thid, changed) in [(Some("t2"), true), (None, false)] {
        let mut c = with_relationship(RelationshipState::Established);
        c.private.tasks.new_task("t2", TaskType::VRCRequestOutbound {
            remote_p_did: "did:them".to_string(),
        });
        let full = Verdict { fresh: true, replayed: false, max_tasks: 1 };
        let m = message(Some("did:them"), thid);
        let out = process_inbound_message(&mut c, &m, issue(), full).ok().unwrap();
        assert_eq!(out.changed, changed);
        assert_eq!(c.private.tasks.get_by_id("t2").is_none(), changed);
        assert!(c.private.tasks.get_by_id("m1").is_none());
    }
}
