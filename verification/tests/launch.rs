use openvtc::config::{Config, Identity, KeyBackend, ProtectionType};
use openvtc::launch::{
    after_failed_attempt, apply_env_overrides, decide_reset, decide_start, exit_message,
    pin_or_default, redact_paths, resolve_profile, unlock_delay, unlock_plan, valid_profile,
    EnvOverrides, Interrupted, LoadResult, ProfileSource, StartDecision, UnlockPlan,
    UnlockVerdict, MAX_UNLOCK_ATTEMPTS,
};
use openvtc::ledger::PersonaId;

#[test]
fn profile_names_are_one_path_component() {
    for good in ["default", "work-2", "a.b_c", "A"] {
        assert!(valid_profile(good), "{good}");
    }
    for bad in ["", "..", "a..b", "a/b", "a\\b", "a b", "é", "a\0b"] {
        assert!(!valid_profile(bad), "{bad:?}");
    }
}

#[test]
fn the_environment_names_the_profile_unless_the_command_line_disagrees() {
    let pick = |cli: &str, env: Option<&str>| {
        resolve_profile(cli.to_string(), env.map(str::to_string))
    };
    assert_eq!(pick("default", None), ("default".to_string(), ProfileSource::CommandLine));
    assert_eq!(pick("default", Some("e")), ("e".to_string(), ProfileSource::Environment));
    assert_eq!(pick("e", Some("e")), ("e".to_string(), ProfileSource::Environment));
    assert_eq!(
        pick("c", Some("e")),
        ("c".to_string(), ProfileSource::CommandLineOverEnvironment)
    );
}

#[test]
fn home_directories_are_taken_out_of_messages() {
    assert_eq!(redact_paths("at /home/a/x and /home/a/y", "/home/a"), "at ~/x and ~/y");
    assert_eq!(redact_paths("at /home/a/x", ""), "at /home/a/x");
    assert_eq!(
        exit_message(&Some(Interrupted::SystemError("no /home/a/f".to_string())), "/home/a"),
        "exited because of a system error: no ~/f"
    );
    assert_eq!(exit_message(&Some(Interrupted::UserInt), ""), "exited per user request");
    assert_eq!(
        exit_message(&Some(Interrupted::OsSigInt), ""),
        "exited because of an os sig int"
    );
    assert_eq!(exit_message(&None, ""), "exited because of an unexpected error");
}

#[test]
fn starting_depends_on_what_was_loaded() {
    assert!(matches!(
        decide_start(true, &LoadResult::Loaded, ""),
        StartDecision::SetupWizard
    ));
    assert!(matches!(decide_start(false, &LoadResult::Loaded, ""), StartDecision::MainPage));
    assert!(matches!(
        decide_start(false, &LoadResult::NotFound, ""),
        StartDecision::SetupWizard
    ));
    match decide_start(false, &LoadResult::VersionUnsupported { found: 1, expected: 2 }, "") {
        StartDecision::AskReset { warning } => assert_eq!(
            warning,
            "Your existing configuration (format v1) is incompatible with this version of \
             OpenVTC (format v2) and cannot be upgraded automatically."
        ),
        other => panic!("unexpected {other:?}"),
    }
    match decide_start(false, &LoadResult::Failed("bad /h/x".to_string()), "/h") {
        StartDecision::Abort { message } => assert_eq!(message, "bad ~/x"),
        other => panic!("unexpected {other:?}"),
    }
    assert!(matches!(decide_reset(true), StartDecision::SetupWizard));
    assert!(matches!(
        decide_reset(false),
        StartDecision::Abort { message }
            if message == "Incompatible configuration; reset declined by user"
    ));
}

#[test]
fn unlocking_slows_down_and_ends() {
    let waits: Vec<u64> = (1..=6).map(unlock_delay).collect();
    assert_eq!(waits, vec![0, 0, 0, 2, 4, 8]);
    match after_failed_attempt(1) {
        UnlockVerdict::Retry { warning } => {
            assert_eq!(warning, "WARNING: Failed unlock attempt. 4 attempts remaining.")
        }
        UnlockVerdict::Abort => panic!("too early"),
    }
    match after_failed_attempt(MAX_UNLOCK_ATTEMPTS - 1) {
        UnlockVerdict::Retry { warning } => {
            assert_eq!(warning, "WARNING: Failed unlock attempt. 1 attempt remaining.")
        }
        UnlockVerdict::Abort => panic!("too early"),
    }
    assert!(matches!(after_failed_attempt(MAX_UNLOCK_ATTEMPTS), UnlockVerdict::Abort));
}

#[test]
fn a_passphrase_is_asked_for_only_where_needed() {
    let code = Some("c".to_string());
    assert!(matches!(
        unlock_plan(&ProtectionType::Token("t".to_string()), &code),
        UnlockPlan::NotNeeded { ask_pin: true }
    ));
    assert!(matches!(
        unlock_plan(&ProtectionType::Plaintext, &code),
        UnlockPlan::NotNeeded { ask_pin: false }
    ));
    assert!(matches!(
        unlock_plan(&ProtectionType::Encrypted, &code),
        UnlockPlan::Given(c) if c == "c"
    ));
    assert!(matches!(unlock_plan(&ProtectionType::Encrypted, &None), UnlockPlan::Ask));
    assert_eq!(pin_or_default(String::new()), "123456");
    assert_eq!(pin_or_default("9".to_string()), "9");
}

#[test]
fn the_environment_overrides_settings() {
    let mut config = Config::new(KeyBackend::Vta {
        credential_bundle: String::new(),
        credential_did: String::new(),
        credential_private_key: String::new(),
        vta_did: "did:old".to_string(),
        vta_url: "https://old".to_string(),
        mediator_did: None,
        encryption_seed: vec![],
    });
    config.identities.push(Identity {
        persona_id: PersonaId(1),
        did: "did:p".to_string(),
        document: "{}".to_string(),
        mediator_did: None,
    });
    apply_env_overrides(
        &mut config,
        EnvOverrides {
            mediator_did: Some("did:m".to_string()),
            vta_url: Some("https://new".to_string()),
            vta_did: None,
            friendly_name: Some("N".to_string()),
        },
    );
    assert_eq!(config.mediator_did(), "did:m");
    assert_eq!(config.public.friendly_name, "N");
    match &config.key_backend {
        KeyBackend::Vta { vta_did, vta_url, .. } => {
            assert_eq!(vta_did, "did:old");
            assert_eq!(vta_url, "https://new");
        }
        _ => panic!("the backend stays"),
    }
}
