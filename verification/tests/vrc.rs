use openvtc::config::{Config, Identity, KeyBackend};
use openvtc::didcomm::InboundMessage;
use openvtc::inbox_actions::VrcTerms;
use openvtc::ledger::{
    PersonaId, Relationship, RelationshipState, Task, TaskType, Vrc, VrcEntry, Vrcs,
};
use openvtc::message_dispatch::InboundKind;
use openvtc::sync::collect_vrcs;
use openvtc::vrc::{draft_vrc, issue_vrc, read_issued, read_vrc, vrc_id, vrc_of, VrcFields};

const UNSIGNED: &str = r#"{
  "@context": [
    "https://www.w3.org/ns/credentials/v2",
    "https://firstperson.network/credentials/dtg/v1"
  ],
  "type": [
    "VerifiableCredential",
    "DTGCredential",
    "RelationshipCredential"
  ],
  "issuer": "did:them",
  "validFrom": "2026-01-06T10:00:00Z",
  "validUntil": "2027-01-06T10:00:00Z",
  "credentialSubject": {
    "id": "did:us"
  }
}"#;

const PROOF: &str = r#"{
    "type": "DataIntegrityProof",
    "cryptosuite": "eddsa-jcs-2022",
    "created": "2026-01-06T10:00:00Z",
    "verificationMethod": "did:them#key-0",
    "proofPurpose": "assertionMethod",
    "proofValue": "zProof"
  }"#;

fn signed() -> String {
    format!("{},\n  \"proof\": {}\n}}", UNSIGNED.trim_end_matches("\n}"), PROOF)
}

fn terms() -> VrcTerms {
    VrcTerms {
        issuer: "did:us".to_string(),
        our_r_did: "did:peer:ours".to_string(),
        their_r_did: "did:peer:\"theirs\"".to_string(),
        their_p_did: "did:them".to_string(),
    }
}

fn config() -> Config {
    let mut config = Config::new(KeyBackend::Bip32 { seed: vec![7u8; 32] });
    config.identities.push(Identity {
        persona_id: PersonaId(1),
        did: "did:webvh:us".to_string(),
        document: "{}".to_string(),
        mediator_did: None,
    });
    config.private.relationships.relationships.push(Relationship {
        task_id: "t1".to_string(),
        our_did: "did:peer:ours".to_string(),
        remote_p_did: "did:them".to_string(),
        remote_did: "did:peer:theirs".to_string(),
        created: 0,
        state: RelationshipState::Established,
        our_persona: None,
    });
    config.private.tasks.tasks.push(Task {
        id: "ask".to_string(),
        type_: TaskType::VRCRequestInbound { reason: None, remote_p_did: "did:them".to_string() },
        created: 0,
        our_persona: None,
    });
    config
}

fn message(body: &str) -> InboundMessage {
    InboundMessage {
        id: "m1".to_string(),
        typ: "vrc-issued".to_string(),
        from: Some("did:them".to_string()),
        to: Vec::new(),
        thid: None,
        body: body.to_string(),
    }
}

#[test]
fn a_credential_is_read_from_its_text() {
    let vrc = read_vrc(UNSIGNED).unwrap();
    assert_eq!(vrc.issuer, "did:them");
    assert_eq!(vrc.subject, "did:us");
    assert_eq!(vrc.valid_from, 1767693600);
    assert_eq!(vrc.valid_until, Some(1799229600));
    assert_eq!(vrc.id, "");
    assert_eq!(vrc.credential, UNSIGNED);
}

#[test]
fn a_signed_credential_is_filed_under_its_proof() {
    let vrc = read_vrc(&signed()).unwrap();
    assert_eq!(vrc.id, "b877d2b0d57e5b8d98d7089ce46938dcf44f5cc4d034a60687060eba390b333b");
    assert_eq!(vrc_id(&Some("zProof".to_string())), vrc.id);
    assert_eq!(vrc_id(&None), "");
}

#[test]
fn what_is_no_credential_is_refused() {
    assert!(read_vrc("not json").is_err());
    assert!(read_vrc("{}").unwrap_err().contains("missing field"));
    let other = UNSIGNED.replace("RelationshipCredential", "ShoppingList");
    assert!(read_vrc(&other).is_err());
}

#[test]
fn fields_become_a_credential() {
    let fields = VrcFields {
        issuer: "i".to_string(),
        subject: "s".to_string(),
        valid_from: 5,
        valid_until: Some(6),
        proof_value: None,
    };
    let vrc = vrc_of(fields, "text");
    assert_eq!((vrc.issuer.as_str(), vrc.subject.as_str()), ("i", "s"));
    assert_eq!((vrc.valid_from, vrc.valid_until), (5, Some(6)));
    assert_eq!((vrc.id.as_str(), vrc.credential.as_str()), ("", "text"));
}

#[test]
fn a_drafted_credential_reads_as_what_it_was_drafted_from() {
    for valid_from in [0i64, 1767693600, 253402300799] {
        let text = draft_vrc(&terms(), valid_from).ok().unwrap();
        let vrc = read_vrc(&text).unwrap();
        assert_eq!(vrc.issuer, "did:us");
        assert_eq!(vrc.subject, "did:peer:\"theirs\"");
        assert_eq!(vrc.valid_from, valid_from);
        assert_eq!(vrc.valid_until, None);
        assert_eq!(vrc.id, "");
    }
    assert_eq!(
        draft_vrc(&terms(), i64::MAX).unwrap_err().display,
        "the clock is out of range"
    );
}

#[test]
fn a_drafted_credential_has_its_exact_form() {
    let head = r#"{"@context":["https://www.w3.org/ns/credentials/v2","#;
    let context = r#""https://firstperson.network/credentials/dtg/v1"],"#;
    let types = r#""type":["VerifiableCredential","DTGCredential","RelationshipCredential"],"#;
    let issuer = r#""issuer":"did:us","validFrom":"2026-01-06T10:00:00Z","#;
    let subject = r#""credentialSubject":{"id":"did:peer:\"theirs\""}}"#;
    assert_eq!(
        draft_vrc(&terms(), 1767693600).ok().unwrap(),
        [head, context, types, issuer, subject].concat()
    );
}

#[test]
fn a_credential_is_issued_by_the_persona_over_the_relationship() {
    let vrc = read_vrc(&issue_vrc(&config(), "ask").ok().unwrap()).unwrap();
    assert_eq!(vrc.issuer, "did:webvh:us");
    assert_eq!(vrc.subject, "did:peer:theirs");
    assert!(vrc.valid_from > 1767693600);
    assert_eq!(issue_vrc(&config(), "gone").unwrap_err().display, "task not found: gone");
    let mut lonely = config();
    lonely.private.relationships.relationships.clear();
    assert_eq!(
        issue_vrc(&lonely, "ask").unwrap_err().display,
        "no relationship for did:them"
    );
}

#[test]
fn an_issued_credential_is_read_from_its_message() {
    match read_issued(&message(&signed()), true) {
        InboundKind::VrcIssued { body: Ok(body) } => {
            assert!(body.proof_valid);
            assert_eq!(body.vrc.issuer, "did:them");
            assert_eq!(body.vrc.credential, signed());
        }
        _ => panic!("expected a credential"),
    }
    assert!(matches!(
        read_issued(&message("[]"), true),
        InboundKind::VrcIssued { body: Err(_) }
    ));
}

#[test]
fn credentials_are_shown_in_their_own_form() {
    let mut vrc: Vrc = read_vrc(UNSIGNED).unwrap();
    vrc.id = "v1".to_string();
    let compact: String = UNSIGNED.split_whitespace().collect();
    vrc.credential = compact;
    let filed = Vrcs { entries: vec![VrcEntry { remote_p_did: "did:them".to_string(), vrc }] };
    let shown = collect_vrcs(&filed, &config());
    assert_eq!(shown[0].raw_json, UNSIGNED);
    assert_eq!(shown[0].vrc_id, "v1");
    assert_eq!(shown[0].valid_from, "2026-01-06");
    assert_eq!(shown[0].valid_until, Some("2027-01-06".to_string()));
    let mut broken = filed.clone();
    broken.entries[0].vrc.credential = "{}".to_string();
    assert_eq!(collect_vrcs(&broken, &config())[0].raw_json, "Failed to serialize credential");
}
