use openvtc::actions::Action;
use openvtc::config::{Config, KeyBackend, ProtectionType, CONFIG_VERSION};
use openvtc::create_persona::{
    begin_standalone_persona, choose_server, mint_standalone_persona, saving_progress,
    MintRequest,
};
use openvtc::launch::Interrupted;
use openvtc::ledger::{KeyPurpose, KeySource, PersonaId};
use openvtc::setup::{
    AdminCredential, Completion, ConfigProtection, DIDKeysExportState, DetectedTokens, KeyInfo,
    KeyMaterial, MessageType, PersonaDIDKeys, SetupKey, SetupPage, SetupState, VtaSetupState,
    WebvhServer,
};
use openvtc::setup_config::{
    backup_token, build_state_a_config, mint_persona_into, mint_persona_with, private_key,
    read_backup, unpack_backup, BackupSecrets, Defaults,
};
use openvtc::setup_did_git_sign::{
    did_git_sign_installed, handle_did_git_sign_install, InstallResult,
};
use openvtc::setup_wizard::{
    account_finished, enter_setup, handle_setup_action, import_finished, SetupStep,
    SetupWizardExit,
};
use openvtc::state::{ActivePage, State};
use openvtc::vta::HostedDid;

fn defaults() -> Defaults {
    Defaults {
        org_did: "did:example:org".to_string(),
        mediator_did: "did:example:public-mediator".to_string(),
    }
}

fn bootstrap_state() -> SetupState {
    SetupState {
        protection: ConfigProtection::PlainText,
        vta: VtaSetupState {
            vta_did: "did:webvh:zVTASCID:vta.example.com".to_string(),
            vta_url: "https://vta.example.com".to_string(),
            context_id: Some("openvtc".to_string()),
            mediator_did: None,
            admin_credential: Some(AdminCredential {
                admin_did: "did:key:zAdmin".to_string(),
                admin_private_key_mb: "zAdminPrivKeyMultibase".to_string(),
            }),
            ..Default::default()
        },
        ..Default::default()
    }
}

fn build(state: &SetupState) -> Result<Config, String> {
    build_state_a_config(state, Ok("{}".to_string()), Ok(vec![9]), &defaults())
        .map_err(|e| e.display)
}

fn key(id: &str) -> KeyInfo {
    KeyInfo {
        secret: KeyMaterial {
            id: id.to_string(),
            public_bytes: vec![3u8; 32],
            private_key_mb: "z".to_string(),
        },
        source: KeySource::VtaManaged { key_id: format!("vta-{id}") },
        expiry: None,
        created: 5,
    }
}

fn keys() -> PersonaDIDKeys {
    PersonaDIDKeys { signing: key("k-sign"), authentication: key("k-auth"), decryption: key("k-dec") }
}

fn bip32_config() -> Config {
    Config::new(KeyBackend::Bip32 { seed: vec![7u8; 32] })
}

fn last(messages: &[MessageType]) -> String {
    match messages.last() {
        Some(MessageType::Info(s)) => format!("info: {s}"),
        Some(MessageType::Error(s)) => format!("error: {s}"),
        None => "nothing".to_string(),
    }
}

#[test]
fn state_a_config_is_account_only() {
    let cfg = build(&bootstrap_state()).expect("build should succeed");

    assert_eq!(cfg.public.config_version, CONFIG_VERSION);
    assert_eq!(cfg.account.top_context_id, "openvtc");
    assert_eq!(cfg.account.vta_did, "did:webvh:zVTASCID:vta.example.com");

    assert!(cfg.account.personas.is_empty(), "no persona at bootstrap");
    assert!(cfg.account.communities.is_empty(), "no community at bootstrap");
    assert!(cfg.active_persona.is_none(), "no active persona at bootstrap");
    assert!(cfg.identities.is_empty(), "no runtime identity at bootstrap");
    assert!(cfg.key_info.is_empty(), "no persona key material at bootstrap");

    assert!(matches!(cfg.key_backend, KeyBackend::Vta { .. }));
    assert_eq!(cfg.account.org_did, "did:example:org");
    assert_eq!(cfg.public.logs.messages.len(), 1);
    assert_eq!(cfg.public.logs.messages[0].message, "Account bootstrap completed");
}

#[test]
fn state_a_plaintext_protection_has_no_unlock_code() {
    let cfg = build(&bootstrap_state()).unwrap();
    assert!(cfg.unlock_code.is_none());
    assert!(matches!(cfg.public.protection, ProtectionType::Plaintext));
}

#[test]
fn state_a_requires_admin_credential() {
    let mut state = bootstrap_state();
    state.vta.admin_credential = None;
    assert!(build(&state).is_err());
    assert_eq!(build(&state).err().unwrap(), "VTA admin credential not issued");
}

#[test]
fn a_passcode_becomes_the_unlock_code() {
    let mut state = bootstrap_state();
    state.protection = ConfigProtection::Passcode(vec![1, 2, 3]);
    let cfg = build(&state).unwrap();
    assert!(matches!(cfg.public.protection, ProtectionType::Encrypted));
    assert_eq!(cfg.unlock_code, Some(vec![1, 2, 3]));
    state.protection = ConfigProtection::Token("0006:1".to_string());
    let cfg = build(&state).unwrap();
    assert!(matches!(cfg.public.protection, ProtectionType::Token(id) if id == "0006:1"));
}

#[test]
fn bootstrap_reports_what_could_not_be_prepared() {
    let state = bootstrap_state();
    let r = build_state_a_config(&state, Err("bad".to_string()), Ok(vec![]), &defaults());
    assert_eq!(r.err().unwrap().display, "Failed to serialise VTA credential bundle: bad");
    let r = build_state_a_config(&state, Ok("{}".to_string()), Err("seed".to_string()), &defaults());
    assert_eq!(r.err().unwrap().display, "seed");
}

#[test]
fn a_backup_is_unpacked_or_refused() {
    let mut state = State::default();
    let r = unpack_backup(&mut state, "b.enc", Ok("aGVsbG8".to_string()));
    assert_eq!(r.ok().unwrap(), b"hello".to_vec());
    assert!(state.setup.config_import.messages.is_empty());

    let r = unpack_backup(&mut state, "b.enc", Err("gone".to_string()));
    assert_eq!(r.err().unwrap().display, "File read error");
    assert_eq!(
        last(&state.setup.config_import.messages),
        "error: Couldn't read from file (b.enc). Reason: gone"
    );

    let r = unpack_backup(&mut state, "b.enc", Ok("not base64!".to_string()));
    assert_eq!(r.err().unwrap().display, "base64 decoding error");
    assert!(last(&state.setup.config_import.messages)
        .starts_with("error: Couldn't base64 decode file content. Reason: "));
}

#[test]
fn a_backup_needs_its_seed() {
    let mut state = State::default();
    let r = read_backup(&mut state, &Err("eof".to_string()));
    assert_eq!(r.err().unwrap().display, "deserialization error");
    assert_eq!(
        last(&state.setup.config_import.messages),
        "error: Couldn't deserialize configuration settings. Reason: eof"
    );
    let secrets = BackupSecrets { bip32_seed: None, protection: ProtectionType::Plaintext };
    assert_eq!(
        read_backup(&mut state, &Ok(secrets)).err().unwrap().display,
        "Imported config missing BIP32 seed"
    );
    assert!(private_key(&Some("@@".to_string()))
        .err()
        .unwrap()
        .display
        .starts_with("Couldn't base64 decode BIP32 seed: "));
}

#[test]
fn the_seed_is_derived_along_its_path() {
    let seed = "BwcHBwcHBwcHBwcHBwcHBwcHBwcHBwcHBwcHBwcHBwc".to_string();
    let a = private_key(&Some(seed)).ok().expect("a key");
    assert_eq!(a.len(), 32);
    assert_ne!(a, vec![7u8; 32]);
    let b = private_key(&Some("CAgICAgICAgICAgICAgICAgICAgICAgICAgICAgICAg".to_string()))
        .ok()
        .expect("a key");
    assert_ne!(a, b);
}

#[test]
fn only_a_token_backup_names_a_token() {
    let with = BackupSecrets {
        bip32_seed: None,
        protection: ProtectionType::Token("t".to_string()),
    };
    assert_eq!(backup_token(&with).as_deref(), Some("t"));
    let without = BackupSecrets { bip32_seed: None, protection: ProtectionType::Encrypted };
    assert_eq!(backup_token(&without), None);
}

#[test]
fn a_persona_is_minted_with_its_keys_and_name() {
    let mut config = bip32_config();
    let mut setup = SetupState::default();
    setup.did_keys = Some(keys());
    setup.webvh_address.did = "did:webvh:p".to_string();
    setup.webvh_address.document = "{}".to_string();
    setup.username = "Ann".to_string();
    let id = mint_persona_with(&mut config, &setup, &defaults(), PersonaId(4), 77).ok().unwrap();
    assert_eq!(id, PersonaId(4));
    let p = &config.account.personas[0];
    assert_eq!(p.did, "did:webvh:p");
    assert_eq!(p.mediator_did.as_deref(), Some("did:example:public-mediator"));
    assert_eq!(p.label.as_deref(), Some("Ann"));
    assert_eq!(p.key_refs.len(), 3);
    assert_eq!(p.key_refs[2].purpose, KeyPurpose::PersonaEncryption);
    assert_eq!(config.key_info.len(), 3);
    assert_eq!(config.public.friendly_name, "Ann");
    assert_eq!(config.identities[0].did, "did:webvh:p");
}

#[test]
fn a_persona_needs_its_keys() {
    let mut config = bip32_config();
    let setup = SetupState::default();
    let r = mint_persona_into(&mut config, &setup, &defaults());
    assert_eq!(r.err().unwrap().display, "Persona DID keys not set during setup");
    assert!(config.account.personas.is_empty());
}

#[test]
fn two_minted_personas_have_two_ids() {
    let mut config = bip32_config();
    let mut setup = SetupState::default();
    setup.did_keys = Some(keys());
    let a = mint_persona_into(&mut config, &setup, &defaults()).ok().unwrap();
    let b = mint_persona_into(&mut config, &setup, &defaults()).ok().unwrap();
    assert_ne!(a, b);
    assert_eq!(config.account.personas.len(), 2);
}

#[test]
fn a_standalone_persona_is_made_step_by_step() {
    let mut config = bip32_config();
    assert_eq!(
        begin_standalone_persona(&config).err().unwrap().display,
        "No account context yet — finish setup before creating a persona."
    );
    config.account.top_context_id = "openvtc".to_string();
    let first = begin_standalone_persona(&config).ok().unwrap();
    assert_eq!(first.progress, "Finding a DID hosting server…");
    assert!(matches!(first.request, MintRequest::ListServers));

    assert_eq!(
        choose_server(&config, Ok(vec![])).err().unwrap().display,
        "No WebVH server available from the VTA (serverless mint not yet supported)."
    );
    assert_eq!(choose_server(&config, Err("x".to_string())).err().unwrap().display, "x");
    let second = choose_server(
        &config,
        Ok(vec![WebvhServer { id: "s1".to_string(), label: None }]),
    )
    .ok()
    .unwrap();
    assert_eq!(second.progress, "Creating persona DID via s1…");
    match second.request {
        MintRequest::CreateDid(req) => {
            assert_eq!(req.context_id, "openvtc");
            assert_eq!(req.server_id, "s1");
            assert!(req.portable && req.add_mediator_service && !req.set_primary);
            assert_eq!(req.pre_rotation_count, 1);
        }
        MintRequest::ListServers => panic!("expected a DID request"),
    }
    assert_eq!(saving_progress(), "Saving persona…");

    let hosted = HostedDid {
        keys: keys(),
        did: "did:webvh:q".to_string(),
        document: "{}".to_string(),
        mnemonic: String::new(),
    };
    let (id, did) =
        mint_standalone_persona(&mut config, hosted, "Solo".to_string(), &defaults()).ok().unwrap();
    assert_eq!(did, "did:webvh:q");
    assert_eq!(config.account.personas[0].persona_id, id);
    assert_eq!(config.account.personas[0].label.as_deref(), Some("Solo"));
    assert!(config.account.communities.is_empty());
}

fn signing_state() -> State {
    let mut state = State::default();
    state.setup = bootstrap_state();
    state.setup.did_keys = Some(keys());
    state
}

#[test]
fn git_signing_is_planned_from_the_setup() {
    let mut state = signing_state();
    state.setup.username = "Ann".to_string();
    let args = handle_did_git_sign_install(&mut state).expect("a plan");
    assert!(args.global);
    assert_eq!(args.did_key_id, "k-sign");
    assert_eq!(args.vta_key_id, "vta-k-sign");
    assert_eq!(args.user_name.as_deref(), Some("Ann"));
    assert_eq!(args.verifying_key, vec![3u8; 32]);
    assert_eq!(state.setup.active_page, SetupPage::DidGitSignSetup);
    did_git_sign_installed(
        &mut state,
        Ok(InstallResult {
            config_path: "/c".to_string(),
            ssh_public_key: "ssh-ed25519 AAAA".to_string(),
            overridden_global_signing_key: None,
        }),
    );
    assert_eq!(state.setup.did_git_sign.completed, Completion::CompletedOK);
    assert_eq!(state.setup.did_git_sign.config_path.as_deref(), Some("/c"));
    assert_eq!(last(&state.setup.did_git_sign.messages), "info: Done.");
    assert_eq!(state.setup.did_git_sign.messages.len(), 4);
}

#[test]
fn git_signing_is_refused_with_a_reason() {
    let refusal = |change: fn(&mut State)| {
        let mut state = signing_state();
        change(&mut state);
        assert!(handle_did_git_sign_install(&mut state).is_none());
        assert_eq!(state.setup.did_git_sign.completed, Completion::CompletedFail);
        last(&state.setup.did_git_sign.messages)
    };
    assert_eq!(
        refusal(|s| s.setup.did_keys = None),
        "error: persona keys are not yet provisioned"
    );
    assert_eq!(
        refusal(|s| s.setup.vta.admin_credential = None),
        "error: VTA admin credential is missing"
    );
    assert_eq!(
        refusal(|s| s.setup.did_keys.as_mut().unwrap().signing.secret.id = String::new()),
        "error: persona signing key has no DID URL set"
    );
    assert!(refusal(|s| {
        s.setup.did_keys.as_mut().unwrap().signing.source =
            KeySource::Derived { path: "m".to_string() }
    })
    .contains("is not VTA-managed"));
    assert_eq!(
        refusal(|s| s.setup.did_keys.as_mut().unwrap().signing.secret.public_bytes = vec![1]),
        "error: persona signing key public bytes are 1 bytes, expected 32 (Ed25519)"
    );
    assert_eq!(
        refusal(|s| s.setup.vta.vta_did = String::new()),
        "error: VTA DID not populated in setup state"
    );
    assert!(refusal(|s| s.setup.vta.vta_url = String::new())
        .contains("neither a REST URL nor a DIDComm mediator"));

    let mut state = signing_state();
    handle_did_git_sign_install(&mut state).expect("a plan");
    did_git_sign_installed(&mut state, Err("denied".to_string()));
    assert_eq!(last(&state.setup.did_git_sign.messages), "error: denied");
    assert_eq!(state.setup.did_git_sign.completed, Completion::CompletedFail);
}

#[test]
fn the_wizard_walks_its_pages() {
    let mut state = State::default();
    let mut made: Option<Config> = None;
    handle_setup_action(
        &mut state,
        &mut made,
        Action::SetProtection(ConfigProtection::PlainText, SetupPage::MediatorAsk),
    );
    assert_eq!(state.setup.active_page, SetupPage::MediatorAsk);
    handle_setup_action(&mut state, &mut made, Action::SetCustomMediator("did:m".to_string()));
    assert_eq!(state.setup.active_page, SetupPage::UserName);
    handle_setup_action(&mut state, &mut made, Action::SetUsername("Ann".to_string()));
    assert_eq!(state.setup.active_page, SetupPage::WebVHAddress);
    state.setup.vta.use_webvh_server = true;
    let step =
        handle_setup_action(&mut state, &mut made, Action::SetCustomMediator("did:m".to_string()));
    assert!(matches!(step, SetupStep::HostDid));
    handle_setup_action(&mut state, &mut made, Action::SetUsername("Ann".to_string()));
    assert_eq!(state.setup.active_page, SetupPage::FinalPage);
    handle_setup_action(&mut state, &mut made, Action::SetDIDKeys(Box::new(keys())));
    assert_eq!(state.setup.active_page, SetupPage::DIDKeysShow);
    state.setup.webvh_address.messages.push(MessageType::Info("x".to_string()));
    state.setup.webvh_address.completed = Completion::CompletedOK;
    handle_setup_action(&mut state, &mut made, Action::ResetWebVHDID);
    assert!(state.setup.webvh_address.messages.is_empty());
    assert_eq!(state.setup.webvh_address.completed, Completion::NotFinished);
    let step =
        handle_setup_action(&mut state, &mut made, Action::VtaSubmitDid("did:vta".to_string()));
    assert!(matches!(step, SetupStep::Perform(Action::VtaSubmitDid(did)) if did == "did:vta"));
}

#[test]
fn the_wizard_makes_an_account_and_hands_it_out() {
    let mut state = State::default();
    state.setup.did_keys_export.exported = Some("secret block".to_string());
    let mut made: Option<Config> = None;
    let step = handle_setup_action(&mut state, &mut made, Action::ActivateMainMenu);
    assert!(matches!(step, SetupStep::Stay));
    assert_eq!(
        last(&state.setup.final_page.messages),
        "error: Setup Wizard completed but no configuration was created."
    );
    let step = handle_setup_action(&mut state, &mut made, Action::SetupCompleted);
    assert!(matches!(step, SetupStep::CreateAccount));
    assert!(state.setup.did_keys_export.exported.is_none());
    account_finished(&mut state, &mut made, Err("disk full".to_string()));
    assert_eq!(
        last(&state.setup.final_page.messages),
        "error: Couldn't create OpenVTC account. Reason: disk full"
    );
    assert!(made.is_none());
    account_finished(&mut state, &mut made, Ok(bip32_config()));
    assert_eq!(state.setup.final_page.completed, Completion::CompletedOK);
    let step = handle_setup_action(&mut state, &mut made, Action::ActivateMainMenu);
    assert!(matches!(step, SetupStep::Leave(SetupWizardExit::Config(_))));
    assert!(made.is_none());
    assert_eq!(state.active_page, ActivePage::Main);
}

#[test]
fn the_wizard_imports_and_leaves() {
    let mut state = State::default();
    let mut made: Option<Config> = None;
    let step = handle_setup_action(
        &mut state,
        &mut made,
        Action::ImportConfig("f".to_string(), "old".to_string(), "new".to_string()),
    );
    match step {
        SetupStep::Import { file, import_passphrase, new_passphrase } => {
            assert_eq!((file.as_str(), import_passphrase.as_str(), new_passphrase.as_str()), ("f", "old", "new"));
        }
        _ => panic!("expected an import"),
    }
    import_finished(&mut state, Err("bad".to_string()));
    assert_eq!(last(&state.setup.config_import.messages), "error: Importing Config failed: bad");
    import_finished(&mut state, Ok(()));
    assert_eq!(
        last(&state.setup.config_import.messages),
        "info: Configuration import completed successfully."
    );
    let step = handle_setup_action(&mut state, &mut made, Action::Exit);
    assert!(matches!(
        step,
        SetupStep::Leave(SetupWizardExit::Interrupted(Interrupted::UserInt))
    ));
}

#[test]
fn diagnostics_leave_secrets_out() {
    let mut vta = bootstrap_state().vta;
    vta.access_token = Some("tok-123".to_string());
    vta.setup_key = Some(SetupKey {
        did: "did:key:zSetup".to_string(),
        private_key_mb: "zSetupPrivate".to_string(),
    });
    vta.messages.push(MessageType::Info("a \"quoted\" line".to_string()));
    let text = vta.debug_text();
    assert!(text.starts_with("VtaSetupState { vta_url: \"https://vta.example.com\", "));
    assert!(text.contains("access_token: Some(\"<redacted>\")"));
    assert!(text.contains("update_secret: None"));
    assert!(text.contains("setup_key: Some(\"<setup_key did=did:key:zSetup>\")"));
    assert!(text.contains("admin_credential: Some(\"<admin_did=did:key:zAdmin>\")"));
    assert!(text.contains("messages: [Info(\"a \\\"quoted\\\" line\")]"));
    for secret in ["tok-123", "zSetupPrivate", "zAdminPrivKeyMultibase"] {
        assert!(!text.contains(secret), "{secret} must not show");
    }
    let export = DIDKeysExportState {
        messages: vec!["done".to_string()],
        exported: Some("PRIVATE".to_string()),
    };
    assert_eq!(
        export.debug_text(),
        "DIDKeysExportState { messages: [\"done\"], exported: Some(\"[REDACTED]\") }"
    );
    assert_eq!(
        ConfigProtection::Passcode(vec![1]).debug_text(),
        "ConfigProtection::Passcode(****)"
    );
    assert_eq!(
        ConfigProtection::Token("t".to_string()).debug_text(),
        "ConfigProtection::Token(t)"
    );
}

#[test]
fn tokens_are_counted_in_diagnostics() {
    let tokens = DetectedTokens {
        tokens: vec!["0001".to_string(), "0002".to_string()],
        messages: vec!["found \"two\"".to_string()],
    };
    assert_eq!(
        tokens.debug_text(),
        r#"DetectedTokens { tokens: 2, messages: ["found \"two\""] }"#
    );
}

#[test]
fn the_wizard_opens_on_its_page() {
    let mut state = State::default();
    assert!(matches!(state.active_page, ActivePage::Loading));
    state.tip_index = 3;
    enter_setup(&mut state);
    assert!(matches!(state.active_page, ActivePage::Setup));
    assert_eq!(state.tip_index, 3);
}
