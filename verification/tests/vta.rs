use openvtc::ledger::KeySource;
use openvtc::setup::KeyMaterial;
use openvtc::vic::{
    add_vic, archive_vic, delete_vic, list_vics, listed_or_none, purge_vic, restore_vic,
    unarchive_vic, vics_in_reply, VicOp,
};
use openvtc::vta::{
    create_did_via_server, create_persona_keys, create_sub_context, create_update_keys,
    fill_order, vta_retry, vta_retryable, DidCreated, DidReply, KeyReply, KeyType, VtaError,
    VTA_MAX_ATTEMPTS, VTA_RETRY_BASE,
};

fn material(id: &str) -> KeyMaterial {
    KeyMaterial {
        id: id.to_string(),
        public_bytes: vec![1, 2],
        private_key_mb: format!("private-{id}"),
    }
}

fn attempts(errors: &dyn Fn(usize) -> Option<VtaError>) -> (usize, bool) {
    let mut attempt = 1;
    loop {
        match errors(attempt) {
            None => return (attempt, true),
            Some(e) => match vta_retry(attempt, &e) {
                Some(_) => attempt += 1,
                None => return (attempt, false),
            },
        }
    }
}

#[test]
fn retryable_covers_transport_and_5xx_only() {
    assert!(vta_retryable(&VtaError::DidcommTransport("timeout".into())));
    assert!(vta_retryable(&VtaError::Server { status: 503, body: String::new() }));
    assert!(!vta_retryable(&VtaError::Validation("bad".into())));
    assert!(!vta_retryable(&VtaError::Conflict("dup".into())));
    assert!(!vta_retryable(&VtaError::NotFound("gone".into())));
    assert!(!vta_retryable(&VtaError::Auth("expired".into())));
}

#[test]
fn returns_immediately_on_success() {
    assert_eq!(attempts(&|_| None), (1, true));
}

#[test]
fn retries_transient_then_succeeds() {
    let run = attempts(&|n| {
        if n < 2 {
            Some(VtaError::DidcommTransport("stale socket".into()))
        } else {
            None
        }
    });
    assert_eq!(run, (2, true));
}

#[test]
fn gives_up_after_max_attempts() {
    let run = attempts(&|_| Some(VtaError::DidcommTransport("down".into())));
    assert_eq!(run, (VTA_MAX_ATTEMPTS, false));
}

#[test]
fn does_not_retry_deterministic_error() {
    let run = attempts(&|_| Some(VtaError::Validation("nope".into())));
    assert_eq!(run, (1, false));
}

#[test]
fn the_wait_doubles() {
    let e = VtaError::Network("down".into());
    assert_eq!(vta_retry(1, &e), Some(VTA_RETRY_BASE));
    assert_eq!(vta_retry(2, &e), Some(2 * VTA_RETRY_BASE));
    assert_eq!(vta_retry(3, &e), None);
}

#[test]
fn keys_are_ordered_by_purpose() {
    let orders = create_persona_keys(&Some("ctx".to_string()));
    let seen: Vec<(KeyType, &str)> =
        orders.iter().map(|o| (o.key_type, o.label.as_str())).collect();
    assert_eq!(
        seen,
        vec![
            (KeyType::Ed25519, "persona-signing"),
            (KeyType::Ed25519, "persona-authentication"),
            (KeyType::X25519, "persona-encryption"),
        ]
    );
    assert!(orders.iter().all(|o| o.context_id.as_deref() == Some("ctx")));
    let updates = create_update_keys(&None);
    assert_eq!(updates[0].label, "webvh-update");
    assert_eq!(updates[1].label, "webvh-next-update");
}

#[test]
fn an_order_becomes_a_key_or_an_error() {
    let order = &create_persona_keys(&None)[0];
    let key = fill_order(
        order,
        KeyReply::Created { key_id: "k1".to_string(), secret: material("z") },
        12,
    )
    .ok()
    .unwrap();
    assert_eq!(key.secret.id, "z");
    assert_eq!(key.created, 12);
    assert!(matches!(key.source, KeySource::VtaManaged { key_id } if key_id == "k1"));
    let say = |reply| fill_order(order, reply, 0).err().unwrap().display;
    assert_eq!(say(KeyReply::NotCreated("x".into())), "Failed to create signing key: x");
    assert_eq!(say(KeyReply::NoSecret("x".into())), "Failed to get signing key secret: x");
    assert_eq!(say(KeyReply::Unreadable("x".into())), "x");
}

#[test]
fn a_hosted_did_names_its_keys() {
    let reply = DidReply::Created {
        created: DidCreated {
            did: "did:webvh:a".to_string(),
            mnemonic: None,
            signing_key_id: "s".to_string(),
            ka_key_id: "e".to_string(),
        },
        signing: material("old"),
        ka: material("old"),
        document: "{}".to_string(),
    };
    let hosted = create_did_via_server(reply, 3).ok().unwrap();
    assert_eq!(hosted.keys.signing.secret.id, "did:webvh:a#key-0");
    assert_eq!(hosted.keys.authentication.secret.id, "did:webvh:a#key-0");
    assert_eq!(hosted.keys.decryption.secret.id, "did:webvh:a#key-1");
    assert_eq!(hosted.keys.signing.secret.public_bytes, vec![1, 2]);
    assert_eq!(hosted.mnemonic, "");
    let say = |reply| create_did_via_server(reply, 0).err().unwrap().display;
    assert_eq!(
        say(DidReply::NotCreated("x".into())),
        "Failed to create DID via WebVH server: x"
    );
    assert_eq!(
        say(DidReply::NoSigningSecret("x".into())),
        "Failed to get signing key secret: x"
    );
    assert_eq!(say(DidReply::NoKaSecret("x".into())), "Failed to get KA key secret: x");
    assert_eq!(say(DidReply::Unreadable("x".into())), "x");
    assert_eq!(say(DidReply::Unresolved("x".into())), "Failed to resolve created DID: x");
}

#[test]
fn a_context_is_the_one_asked_for() {
    assert_eq!(create_sub_context("openvtc/a"), "openvtc/a");
}

#[test]
fn vault_requests_say_what_is_meant() {
    let active = list_vics(false);
    assert_eq!(active.purpose, "invite");
    assert!(!active.include_archived && !active.include_deleted);
    let all = list_vics(true);
    assert!(all.include_archived && all.include_deleted);
    for (change, op) in [
        (archive_vic("v"), VicOp::Archive),
        (unarchive_vic("v"), VicOp::Unarchive),
        (delete_vic("v"), VicOp::Delete),
        (restore_vic("v"), VicOp::Restore),
        (purge_vic("v"), VicOp::Purge),
    ] {
        assert_eq!(change.op, op);
        assert_eq!(change.id, "v");
        assert_eq!(change.reason, "via OpenVTC");
        assert!(!change.force);
    }
}

#[test]
fn only_an_invitation_enters_the_vault() {
    let vic = " {\"type\":[\"InvitationCredential\"]} ";
    assert_eq!(add_vic(vic).ok().unwrap(), vic.trim());
    assert!(add_vic("{").err().unwrap().display.starts_with("not valid JSON: "));
    assert_eq!(
        add_vic("{\"type\":[]}").err().unwrap().display,
        "not an invitation credential (missing the `InvitationCredential` type tag)"
    );
}

#[test]
fn a_vault_reply_lists_its_invitations() {
    let reply = r#"{ "credentials": [ { "id": "urn:a" }, "b" ], "total": 2 }"#;
    assert_eq!(vics_in_reply(reply), [r#"{"id":"urn:a"}"#, r#""b""#]);
    for without in ["{}", r#"{ "credentials": {} }"#, "[]"] {
        assert!(vics_in_reply(without).is_empty());
    }
    assert_eq!(listed_or_none(Some(vec!["x".to_string()])), ["x"]);
    assert!(listed_or_none(None).is_empty());
}
