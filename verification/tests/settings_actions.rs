use openvtc::config::{Config, KeyBackend};
use openvtc::content::SettingsMode;
use openvtc::settings_actions::{
    handle_change_protection, handle_field_update, handle_form_field_update,
    handle_form_tab_switch, handle_passphrase_len, handle_protection_confirm_len,
    handle_protection_option_select, handle_protection_passphrase_len,
    handle_protection_start_input, handle_protection_tab_switch, handle_select,
    handle_start_edit, handle_wipe_input, handle_wipe_start, note_export, note_import,
    validate_file_path,
};
use openvtc::state::State;

type ModeFn = fn() -> SettingsMode;

fn settings(state: &State) -> &SettingsMode {
    &state.main_page.content_panel.settings.mode
}

#[test]
fn test_validate_file_path_rejects_empty() {
    assert!(validate_file_path("").is_err());
    assert!(validate_file_path("   ").is_err());
}

#[test]
fn test_validate_file_path_rejects_traversal() {
    assert!(validate_file_path("../../etc/passwd").is_err());
    assert!(validate_file_path("foo/../bar").is_err());
}

#[test]
fn test_validate_file_path_accepts_normal() {
    assert!(validate_file_path("export.enc").is_ok());
    assert!(validate_file_path("/home/user/backup.enc").is_ok());
}

#[test]
fn test_validate_file_path_accepts_dot_slash() {
    assert!(validate_file_path("./local-file.dat").is_ok());
}

#[test]
fn test_validate_file_path_rejects_hidden_traversal() {
    assert!(validate_file_path("/tmp/safe/../../../etc/shadow").is_err());
}

#[test]
fn start_edit_maps_index_to_mode() {
    let cases: &[(usize, ModeFn)] = &[
        (0, || SettingsMode::EditFriendlyName { input: String::new() }),
        (1, || SettingsMode::EditMediatorDid { input: String::new() }),
        (2, || SettingsMode::EditOrgDid { input: String::new() }),
        (5, || SettingsMode::ExportConfig {
            path_input: String::new(),
            passphrase_len: 0,
            active_field: 0,
        }),
        (6, || SettingsMode::ImportConfig {
            path_input: String::new(),
            passphrase_len: 0,
            active_field: 0,
        }),
        (3, || SettingsMode::View),
        (99, || SettingsMode::View),
    ];
    for (idx, expected) in cases {
        let mut state = State::default();
        state.main_page.content_panel.settings.friendly_name = "Alice".to_string();
        state.main_page.content_panel.settings.mediator_did = "did:med".to_string();
        state.main_page.content_panel.settings.org_did = "did:org".to_string();
        state.main_page.content_panel.settings.selected_index = *idx;
        handle_start_edit(&mut state);
        assert_eq!(
            std::mem::discriminant(settings(&state)),
            std::mem::discriminant(&expected()),
            "start_edit index {idx}"
        );
    }
    let mut state = State::default();
    state.main_page.content_panel.settings.friendly_name = "Alice".to_string();
    state.main_page.content_panel.settings.selected_index = 0;
    handle_start_edit(&mut state);
    assert!(matches!(
        settings(&state),
        SettingsMode::EditFriendlyName { input } if input == "Alice"
    ));
}

#[test]
fn field_update_writes_edit_input() {
    let edit_modes: &[ModeFn] = &[
        || SettingsMode::EditFriendlyName { input: String::new() },
        || SettingsMode::EditMediatorDid { input: String::new() },
        || SettingsMode::EditOrgDid { input: String::new() },
    ];
    for make in edit_modes {
        let mut state = State::default();
        state.main_page.content_panel.settings.mode = make();
        handle_field_update(&mut state, "new-value".to_string());
        let input = match settings(&state) {
            SettingsMode::EditFriendlyName { input }
            | SettingsMode::EditMediatorDid { input }
            | SettingsMode::EditOrgDid { input } => input.clone(),
            other => panic!("unexpected mode {other:?}"),
        };
        assert_eq!(input, "new-value");
    }
    let mut state = State::default();
    handle_field_update(&mut state, "ignored".to_string());
    assert!(matches!(settings(&state), SettingsMode::View));
}

#[test]
fn change_protection_form_field_transitions() {
    let mut state = State::default();
    handle_change_protection(&mut state);
    assert!(matches!(
        settings(&state),
        SettingsMode::ChangeProtection {
            selected_option: 0,
            passphrase_len: 0,
            confirm_len: 0,
            active_field: 0,
        }
    ));

    handle_protection_option_select(&mut state, 1);
    handle_protection_passphrase_len(&mut state, 7);
    handle_protection_confirm_len(&mut state, 9);
    handle_protection_tab_switch(&mut state, 2);
    assert!(matches!(
        settings(&state),
        SettingsMode::ChangeProtection {
            selected_option: 1,
            passphrase_len: 7,
            confirm_len: 9,
            active_field: 2,
        }
    ));

    let mut state = State::default();
    handle_change_protection(&mut state);
    handle_protection_start_input(&mut state);
    assert!(matches!(
        settings(&state),
        SettingsMode::ChangeProtection { active_field: 1, .. }
    ));
}

#[test]
fn export_import_form_field_transitions() {
    let modes: [ModeFn; 2] = [
        || SettingsMode::ExportConfig {
            path_input: String::new(),
            passphrase_len: 0,
            active_field: 0,
        },
        || SettingsMode::ImportConfig {
            path_input: String::new(),
            passphrase_len: 0,
            active_field: 0,
        },
    ];
    for make in modes {
        let mut state = State::default();
        state.main_page.content_panel.settings.mode = make();
        handle_form_field_update(&mut state, 0, "backup.enc".to_string());
        handle_passphrase_len(&mut state, 4);
        handle_form_tab_switch(&mut state);
        let (path, plen, field) = match settings(&state) {
            SettingsMode::ExportConfig { path_input, passphrase_len, active_field }
            | SettingsMode::ImportConfig { path_input, passphrase_len, active_field } => {
                (path_input.clone(), *passphrase_len, *active_field)
            }
            other => panic!("unexpected mode {other:?}"),
        };
        assert_eq!(path, "backup.enc");
        assert_eq!(plen, 4);
        assert_eq!(field, 1, "tab switch toggled 0 -> 1");
        handle_form_tab_switch(&mut state);
        let field = match settings(&state) {
            SettingsMode::ExportConfig { active_field, .. }
            | SettingsMode::ImportConfig { active_field, .. } => *active_field,
            other => panic!("unexpected mode {other:?}"),
        };
        assert_eq!(field, 0, "tab switch toggled 1 -> 0");
    }
}

#[test]
fn wipe_start_and_input_transitions() {
    let mut state = State::default();
    handle_wipe_start(&mut state);
    assert!(matches!(
        settings(&state),
        SettingsMode::WipeConfirm { confirm_input } if confirm_input.is_empty()
    ));
    handle_wipe_input(&mut state, "WIPE".to_string());
    assert!(matches!(
        settings(&state),
        SettingsMode::WipeConfirm { confirm_input } if confirm_input == "WIPE"
    ));

    let mut state = State::default();
    handle_wipe_input(&mut state, "WIPE".to_string());
    assert!(matches!(settings(&state), SettingsMode::View));
}

#[test]
fn select_updates_index() {
    let mut state = State::default();
    handle_select(&mut state, 4);
    assert_eq!(state.main_page.content_panel.settings.selected_index, 4);
}

#[test]
fn transfers_of_the_configuration_are_noted() {
    let mut c = Config::new(KeyBackend::Bip32 { seed: vec![7u8; 32] });
    note_export(&mut c, "backup.vtc");
    note_import(&mut c, "other.vtc");
    let lines: Vec<&str> = c.public.logs.messages.iter().map(|m| m.message.as_str()).collect();
    assert_eq!(lines, vec!["Config exported to backup.vtc", "Config imported from other.vtc"]);
}
