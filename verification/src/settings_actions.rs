//! What the settings panel does.

use crate::account::Account;
use crate::actions::SettingsAction;
use crate::config::{mediator_set, Config, ProtectionType, PublicConfig};
use crate::content::{SettingsMode, SettingsState};
use crate::dispatch_util::{
    record_error, reported, save_and_sync, went_wrong, Panel, Persist, SyncLog,
};
use crate::ledger::LogFamily;
use crate::main_page::{
    error_line, plain_line, push_line, push_lines, ErrorText, LogLine, MainPageState,
};
use crate::save_coalesce::SaveScheduler;
use crate::state::{ConnectionState, MediatorStatus, State};
use crate::sync::Host;
use crate::text::{
    cat2, cat3, decimal_usize, decimal_view, equal_ignoring_case, has, occurs, opt_view, owned,
    same_ignoring_case, texts_view, trim, trimmed,
};
use vstd::prelude::*;

verus! {

// ---------------------------------------------------------------------------
// Settings
// ---------------------------------------------------------------------------

/// The log of the configuration has one line more.
pub open spec fn config_noted(old: PublicConfig, new: PublicConfig, line: Seq<char>) -> bool {
    new.logs@ == old.logs@.push((LogFamily::Config, line))
}

/// `new` is `old` under another name.
pub open spec fn name_updated(old: Config, new: Config, name: Seq<char>) -> bool {
    &&& new == (Config {
        public: PublicConfig {
            friendly_name: new.public.friendly_name,
            logs: new.public.logs,
            ..old.public
        },
        ..old
    })
    &&& new.public.friendly_name@ == name
    &&& config_noted(old.public, new.public, "Friendly name changed to '"@ + name + "'"@)
}

/// Sets the name.
pub fn update_friendly_name(config: &mut Config, name: &str)
    ensures
        name_updated(*old(config), *final(config), name@),
{
    config.public.friendly_name = owned(name);
    config.note(LogFamily::Config, cat3("Friendly name changed to '", name, "'"));
}

/// `new` is `old` with another mediator for the active persona.
pub open spec fn mediator_updated(old: Config, new: Config, did: Seq<char>) -> bool {
    &&& mediator_set(
        old,
        Config { public: PublicConfig { logs: old.public.logs, ..new.public }, ..new },
        did,
    )
    &&& config_noted(old.public, new.public, "Mediator DID changed to '"@ + did + "'"@)
}

/// Sets the mediator.
pub fn update_mediator_did(config: &mut Config, did: &str)
    ensures
        mediator_updated(*old(config), *final(config), did@),
{
    config.set_active_mediator_did(did);
    config.note(LogFamily::Config, cat3("Mediator DID changed to '", did, "'"));
}

/// `new` is `old` with another organisation.
pub open spec fn org_updated(old: Config, new: Config, did: Seq<char>) -> bool {
    &&& new == (Config {
        public: PublicConfig { logs: new.public.logs, ..old.public },
        account: Account { org_did: new.account.org_did, ..old.account },
        ..old
    })
    &&& new.account.org_did@ == did
    &&& config_noted(old.public, new.public, "Org DID changed to '"@ + did + "'"@)
}

/// Sets the organisation.
pub fn update_org_did(config: &mut Config, did: &str)
    ensures
        org_updated(*old(config), *final(config), did@),
{
    config.account.org_did = owned(did);
    config.note(LogFamily::Config, cat3("Org DID changed to '", did, "'"));
}

/// `new` is `old` under another protection.
pub open spec fn protection_changed(
    old: Config,
    new: Config,
    protection: ProtectionType,
    line: Seq<char>,
) -> bool {
    &&& new == (Config {
        public: PublicConfig { protection, logs: new.public.logs, ..old.public },
        unlock_code: new.unlock_code,
        ..old
    })
    &&& config_noted(old.public, new.public, line)
}

/// Protects the configuration by a passphrase; `derived` is the key derived from
/// it, or why there is none.
pub fn set_passphrase(config: &mut Config, derived: Result<Vec<u8>, ErrorText>) -> (r: Result<
    (),
    ErrorText,
>)
    ensures
        match derived {
            Ok(key) => {
                &&& r is Ok
                &&& final(config).unlock_code == Some(key)
                &&& protection_changed(
                    *old(config),
                    *final(config),
                    ProtectionType::Encrypted,
                    "Config protection changed to passphrase encrypted"@,
                )
            },
            Err(e) => r == Err::<(), ErrorText>(e) && *final(config) == *old(config),
        },
{
    match derived {
        Ok(key) => {
            config.unlock_code = Some(key);
            config.public.protection = ProtectionType::Encrypted;
            config.note(
                LogFamily::Config,
                owned("Config protection changed to passphrase encrypted"),
            );
            Ok(())
        },
        Err(e) => Err(e),
    }
}

/// Leaves the protection to the keyring.
pub fn remove_passphrase(config: &mut Config)
    ensures
        final(config).unlock_code is None,
        protection_changed(
            *old(config),
            *final(config),
            ProtectionType::Plaintext,
            "Config protection changed to keyring only (no additional encryption)"@,
        ),
{
    config.unlock_code = None;
    config.public.protection = ProtectionType::Plaintext;
    config.note(
        LogFamily::Config,
        owned("Config protection changed to keyring only (no additional encryption)"),
    );
}

/// Why a path is not accepted for an export or an import.
pub open spec fn path_error(path: Seq<char>) -> Option<Seq<char>> {
    if trimmed(path).len() == 0 {
        Some("File path cannot be empty"@)
    } else if occurs(path, ".."@) {
        Some("Path traversal (..) is not allowed"@)
    } else {
        None
    }
}

/// Checks a path for an export or an import.
pub fn validate_file_path(path: &str) -> (r: Result<(), ErrorText>)
    ensures
        match path_error(path@) {
            Some(why) => r matches Err(e) && e.says(why),
            None => r is Ok,
        },
{
    if trim(path).as_str().is_empty() {
        return Err(ErrorText::plain(owned("File path cannot be empty")));
    }
    if has(path, "..") {
        return Err(ErrorText::plain(owned("Path traversal (..) is not allowed")));
    }
    Ok(())
}

/// No accepted path leads out of a directory: it holds no pair of dots.
pub proof fn law_accepted_paths_stay_inside(path: Seq<char>, i: int)
    requires
        path_error(path) is None,
        0 <= i < path.len() - 1,
    ensures
        !(path[i] == '.' && path[i + 1] == '.'),
{
    reveal_strlit("..");
    if path[i] == '.' && path[i + 1] == '.' {
        assert(path.subrange(i, i + 2) =~= ".."@);
        assert(crate::text::occurs_at(path, ".."@, i));
    }
}

/// What an import says: a running profile is not replaced.
pub open spec fn import_view(path: Seq<char>) -> Seq<char> {
    "Import from "@ + path
        + " is not supported here — run `openvtc setup` and choose Import / Restore Backup to restore an exported config."@
}

/// Checks an import and says where to restore it instead.
pub fn import_config(path: &str, exists: bool) -> (r: Result<String, ErrorText>)
    ensures
        match path_error(path@) {
            Some(why) => r matches Err(e) && e.says(why),
            None => if exists {
                r matches Ok(s) && s@ == import_view(path@)
            } else {
                r matches Err(e) && e.says("File not found: "@ + path@)
            },
        },
{
    match validate_file_path(path) {
        Err(e) => {
            return Err(e);
        },
        Ok(_) => {},
    }
    if !exists {
        return Err(ErrorText::plain(cat2("File not found: ", path)));
    }
    Ok(
        cat3(
            "Import from ",
            path,
            " is not supported here — run `openvtc setup` and choose Import / Restore Backup to restore an exported config.",
        ),
    )
}

// ---------------------------------------------------------------------------
// The panel
// ---------------------------------------------------------------------------

/// The panel after a row was selected.
pub open spec fn row_selected(s: SettingsState, index: usize) -> SettingsState {
    match s.mode {
        SettingsMode::TokenManagement { .. } => SettingsState {
            mode: SettingsMode::TokenManagement { selected_index: index },
            ..s
        },
        _ => SettingsState { selected_index: index, ..s },
    }
}

/// Selects a row.
pub fn handle_select(state: &mut State, index: usize)
    ensures
        *final(state) == old(state).with_settings(row_selected(old(state).settings(), index)),
{
    match &mut state.main_page.content_panel.settings.mode {
        SettingsMode::TokenManagement { selected_index } => {
            *selected_index = index;
        },
        _ => {
            state.main_page.content_panel.settings.selected_index = index;
        },
    }
}

/// The form that is opened for the selected setting.
pub open spec fn edits(s: SettingsState, mode: SettingsMode) -> bool {
    if s.selected_index == 0 {
        mode == (SettingsMode::EditFriendlyName { input: s.friendly_name })
    } else if s.selected_index == 1 {
        mode == (SettingsMode::EditMediatorDid { input: s.mediator_did })
    } else if s.selected_index == 2 {
        mode == (SettingsMode::EditOrgDid { input: s.org_did })
    } else if s.selected_index == 5 {
        mode matches SettingsMode::ExportConfig { path_input, passphrase_len, active_field }
            && path_input@ == "openvtc-export.enc"@ && passphrase_len == 0 && active_field == 0
    } else if s.selected_index == 6 {
        mode matches SettingsMode::ImportConfig { path_input, passphrase_len, active_field }
            && path_input@ == "openvtc-export.enc"@ && passphrase_len == 0 && active_field == 0
    } else {
        mode is View
    }
}

/// `new` is `old` in another mode.
pub open spec fn mode_set(old: State, new: State) -> bool {
    new == old.with_settings(SettingsState { mode: new.settings().mode, ..old.settings() })
}

/// Opens the form for the selected setting.
pub fn handle_start_edit(state: &mut State)
    ensures
        mode_set(*old(state), *final(state)),
        edits(old(state).settings(), final(state).settings().mode),
{
    let index: usize = state.main_page.content_panel.settings.selected_index;
    let mode = if index == 0 {
        SettingsMode::EditFriendlyName {
            input: state.main_page.content_panel.settings.friendly_name.clone(),
        }
    } else if index == 1 {
        SettingsMode::EditMediatorDid {
            input: state.main_page.content_panel.settings.mediator_did.clone(),
        }
    } else if index == 2 {
        SettingsMode::EditOrgDid {
            input: state.main_page.content_panel.settings.org_did.clone(),
        }
    } else if index == 5 {
        SettingsMode::ExportConfig {
            path_input: owned("openvtc-export.enc"),
            passphrase_len: 0,
            active_field: 0,
        }
    } else if index == 6 {
        SettingsMode::ImportConfig {
            path_input: owned("openvtc-export.enc"),
            passphrase_len: 0,
            active_field: 0,
        }
    } else {
        SettingsMode::View
    };
    state.main_page.content_panel.settings.mode = mode;
}

/// The mode after something was typed into a form of one line.
pub open spec fn line_typed(mode: SettingsMode, value: String) -> SettingsMode {
    match mode {
        SettingsMode::EditFriendlyName { .. } => SettingsMode::EditFriendlyName { input: value },
        SettingsMode::EditMediatorDid { .. } => SettingsMode::EditMediatorDid { input: value },
        SettingsMode::EditOrgDid { .. } => SettingsMode::EditOrgDid { input: value },
        _ => mode,
    }
}

/// Takes over what was typed into a form of one line.
pub fn handle_field_update(state: &mut State, value: String)
    ensures
        *final(state) == old(state).with_settings(
            SettingsState {
                mode: line_typed(old(state).settings().mode, value),
                ..old(state).settings()
            },
        ),
{
    match &mut state.main_page.content_panel.settings.mode {
        SettingsMode::EditFriendlyName { input } => {
            *input = value;
        },
        SettingsMode::EditMediatorDid { input } => {
            *input = value;
        },
        SettingsMode::EditOrgDid { input } => {
            *input = value;
        },
        _ => {},
    }
}

/// The mode after a path was typed into the export or import form.
pub open spec fn path_typed(mode: SettingsMode, field: usize, value: String) -> SettingsMode {
    match mode {
        SettingsMode::ExportConfig { path_input, passphrase_len, active_field } => if field == 0 {
            SettingsMode::ExportConfig { path_input: value, passphrase_len, active_field }
        } else {
            mode
        },
        SettingsMode::ImportConfig { path_input, passphrase_len, active_field } => if field == 0 {
            SettingsMode::ImportConfig { path_input: value, passphrase_len, active_field }
        } else {
            mode
        },
        _ => mode,
    }
}

/// Takes over what was typed into the export or import form.
pub fn handle_form_field_update(state: &mut State, field: usize, value: String)
    ensures
        *final(state) == old(state).with_settings(
            SettingsState {
                mode: path_typed(old(state).settings().mode, field, value),
                ..old(state).settings()
            },
        ),
{
    if field != 0 {
        return ;
    }
    match &mut state.main_page.content_panel.settings.mode {
        SettingsMode::ExportConfig { path_input, .. } => {
            *path_input = value;
        },
        SettingsMode::ImportConfig { path_input, .. } => {
            *path_input = value;
        },
        _ => {},
    }
}

/// The mode after a passphrase was typed into the export or import form.
pub open spec fn passphrase_typed(mode: SettingsMode, len: usize) -> SettingsMode {
    match mode {
        SettingsMode::ExportConfig { path_input, passphrase_len, active_field } =>
            SettingsMode::ExportConfig { path_input, passphrase_len: len, active_field },
        SettingsMode::ImportConfig { path_input, passphrase_len, active_field } =>
            SettingsMode::ImportConfig { path_input, passphrase_len: len, active_field },
        _ => mode,
    }
}

/// Takes over how long the passphrase in the export or import form is.
pub fn handle_passphrase_len(state: &mut State, len: usize)
    ensures
        *final(state) == old(state).with_settings(
            SettingsState {
                mode: passphrase_typed(old(state).settings().mode, len),
                ..old(state).settings()
            },
        ),
{
    match &mut state.main_page.content_panel.settings.mode {
        SettingsMode::ExportConfig { passphrase_len, .. } => {
            *passphrase_len = len;
        },
        SettingsMode::ImportConfig { passphrase_len, .. } => {
            *passphrase_len = len;
        },
        _ => {},
    }
}

/// The other field of a form of two.
pub open spec fn other_field(field: usize) -> usize {
    if field == 0 {
        1
    } else {
        0
    }
}

/// The mode after the export or import form went to its other field.
pub open spec fn field_switched(mode: SettingsMode) -> SettingsMode {
    match mode {
        SettingsMode::ExportConfig { path_input, passphrase_len, active_field } =>
            SettingsMode::ExportConfig {
            path_input,
            passphrase_len,
            active_field: other_field(active_field),
        },
        SettingsMode::ImportConfig { path_input, passphrase_len, active_field } =>
            SettingsMode::ImportConfig {
            path_input,
            passphrase_len,
            active_field: other_field(active_field),
        },
        _ => mode,
    }
}

/// Goes to the other field of the export or import form.
pub fn handle_form_tab_switch(state: &mut State)
    ensures
        *final(state) == old(state).with_settings(
            SettingsState {
                mode: field_switched(old(state).settings().mode),
                ..old(state).settings()
            },
        ),
{
    match &mut state.main_page.content_panel.settings.mode {
        SettingsMode::ExportConfig { active_field, .. } => {
            *active_field = if *active_field == 0 {
                1
            } else {
                0
            };
        },
        SettingsMode::ImportConfig { active_field, .. } => {
            *active_field = if *active_field == 0 {
                1
            } else {
                0
            };
        },
        _ => {},
    }
}

/// The fields of the form that changes the protection.
#[derive(Clone, Copy, Debug, PartialEq, Eq, Structural)]
pub enum ProtectionField {
    Option,
    Passphrase,
    Confirmation,
    Focus,
}

/// The mode after a field of the form that changes the protection was set.
pub open spec fn protection_field_set(mode: SettingsMode, field: ProtectionField, n: usize) ->
    SettingsMode {
    match mode {
        SettingsMode::ChangeProtection {
            selected_option,
            passphrase_len,
            confirm_len,
            active_field,
        } => match field {
            ProtectionField::Option => SettingsMode::ChangeProtection {
                selected_option: n,
                passphrase_len,
                confirm_len,
                active_field,
            },
            ProtectionField::Passphrase => SettingsMode::ChangeProtection {
                selected_option,
                passphrase_len: n,
                confirm_len,
                active_field,
            },
            ProtectionField::Confirmation => SettingsMode::ChangeProtection {
                selected_option,
                passphrase_len,
                confirm_len: n,
                active_field,
            },
            ProtectionField::Focus => SettingsMode::ChangeProtection {
                selected_option,
                passphrase_len,
                confirm_len,
                active_field: n,
            },
        },
        _ => mode,
    }
}

/// `new` is `old` after a field of the form that changes the protection was set.
pub open spec fn protection_set(old: State, new: State, field: ProtectionField, n: usize) -> bool {
    new == old.with_settings(
        SettingsState { mode: protection_field_set(old.settings().mode, field, n), ..old.settings() },
    )
}

/// Picks an option of the form that changes the protection.
pub fn handle_protection_option_select(state: &mut State, option: usize)
    ensures
        protection_set(*old(state), *final(state), ProtectionField::Option, option),
{
    match &mut state.main_page.content_panel.settings.mode {
        SettingsMode::ChangeProtection { selected_option, .. } => {
            *selected_option = option;
        },
        _ => {},
    }
}

/// Moves the form that changes the protection to its passphrase.
pub fn handle_protection_start_input(state: &mut State)
    ensures
        protection_set(*old(state), *final(state), ProtectionField::Focus, 1),
{
    match &mut state.main_page.content_panel.settings.mode {
        SettingsMode::ChangeProtection { active_field, .. } => {
            *active_field = 1;
        },
        _ => {},
    }
}

/// Takes over how long the passphrase is.
pub fn handle_protection_passphrase_len(state: &mut State, len: usize)
    ensures
        protection_set(*old(state), *final(state), ProtectionField::Passphrase, len),
{
    match &mut state.main_page.content_panel.settings.mode {
        SettingsMode::ChangeProtection { passphrase_len, .. } => {
            *passphrase_len = len;
        },
        _ => {},
    }
}

/// Takes over how long the repeated passphrase is.
pub fn handle_protection_confirm_len(state: &mut State, len: usize)
    ensures
        protection_set(*old(state), *final(state), ProtectionField::Confirmation, len),
{
    match &mut state.main_page.content_panel.settings.mode {
        SettingsMode::ChangeProtection { confirm_len, .. } => {
            *confirm_len = len;
        },
        _ => {},
    }
}

/// Moves the form that changes the protection to a field.
pub fn handle_protection_tab_switch(state: &mut State, next_field: usize)
    ensures
        protection_set(*old(state), *final(state), ProtectionField::Focus, next_field),
{
    match &mut state.main_page.content_panel.settings.mode {
        SettingsMode::ChangeProtection { active_field, .. } => {
            *active_field = next_field;
        },
        _ => {},
    }
}

/// Opens the form that changes the protection.
pub fn handle_change_protection(state: &mut State)
    ensures
        *final(state) == old(state).with_settings(
            SettingsState {
                mode: SettingsMode::ChangeProtection {
                    selected_option: 0,
                    passphrase_len: 0,
                    confirm_len: 0,
                    active_field: 0,
                },
                ..old(state).settings()
            },
        ),
{
    state.main_page.content_panel.settings.mode =
    SettingsMode::ChangeProtection {
        selected_option: 0,
        passphrase_len: 0,
        confirm_len: 0,
        active_field: 0,
    };
}

/// Opens the dialog that confirms wiping the profile.
pub fn handle_wipe_start(state: &mut State)
    ensures
        mode_set(*old(state), *final(state)),
        final(state).settings().mode matches SettingsMode::WipeConfirm { confirm_input }
            && confirm_input@.len() == 0,
{
    state.main_page.content_panel.settings.mode =
    SettingsMode::WipeConfirm { confirm_input: String::new() };
}

/// The mode after something was typed into the dialog that confirms wiping.
pub open spec fn wipe_typed(mode: SettingsMode, value: String) -> SettingsMode {
    match mode {
        SettingsMode::WipeConfirm { .. } => SettingsMode::WipeConfirm { confirm_input: value },
        _ => mode,
    }
}

/// Takes over what was typed into the dialog that confirms wiping.
pub fn handle_wipe_input(state: &mut State, value: String)
    ensures
        *final(state) == old(state).with_settings(
            SettingsState {
                mode: wipe_typed(old(state).settings().mode, value),
                ..old(state).settings()
            },
        ),
{
    match &mut state.main_page.content_panel.settings.mode {
        SettingsMode::WipeConfirm { confirm_input } => {
            *confirm_input = value;
        },
        _ => {},
    }
}

/// The state after this panel went back to its list, before anything else
/// happened.
pub open spec fn list_shown(state: State) -> State {
    state.with_settings(SettingsState { mode: SettingsMode::View, ..state.settings() })
}

/// The setting that a row stands for.
pub open spec fn setting_view(index: usize) -> Seq<char> {
    if index == 0 {
        "Friendly name"@
    } else if index == 1 {
        "Mediator DID"@
    } else if index == 2 {
        "Organization DID"@
    } else {
        "Setting"@
    }
}

fn setting_name(index: usize) -> (r: &'static str)
    ensures
        r@ == setting_view(index),
{
    if index == 0 {
        "Friendly name"
    } else if index == 1 {
        "Mediator DID"
    } else if index == 2 {
        "Organization DID"
    } else {
        "Setting"
    }
}

/// `new` is `old` after the setting in a row was set.
pub open spec fn setting_updated(old: Config, new: Config, index: usize, value: Seq<char>) -> bool {
    if index == 0 {
        name_updated(old, new, value)
    } else if index == 1 {
        mediator_updated(old, new, value)
    } else if index == 2 {
        org_updated(old, new, value)
    } else {
        new == old
    }
}

/// `new` is `old` after a setting was saved.
pub open spec fn edit_concluded(
    old: State,
    new: State,
    is: Config,
    host: Host,
    index: usize,
) -> bool {
    &&& new == old.with_main(new.main_page)
    &&& reported(
        list_shown(old).main_page,
        new.main_page,
        is,
        host,
        true,
        Panel::Settings,
        "Setting saved"@,
        plain_line(setting_view(index) + " updated"@),
    )
}

/// Sets the selected setting; tells whether it was the mediator.
pub fn handle_submit_edit(
    config: &mut Config,
    state: &mut State,
    save: &mut SaveScheduler,
    value: &str,
    host: &Host,
) -> (r: bool)
    ensures
        setting_updated(
            *old(config),
            *final(config),
            old(state).settings().selected_index,
            value@,
        ),
        edit_concluded(
            *old(state),
            *final(state),
            *final(config),
            *host,
            old(state).settings().selected_index,
        ),
        *final(save) == old(save).marked(host.now),
        r == (old(state).settings().selected_index == 1),
{
    let index: usize = state.main_page.content_panel.settings.selected_index;
    if index == 0 {
        update_friendly_name(config, value);
    } else if index == 1 {
        update_mediator_did(config, value);
    } else if index == 2 {
        update_org_did(config, value);
    }
    state.main_page.content_panel.settings.mode = SettingsMode::View;
    save_and_sync(
        &mut state.main_page,
        config,
        save,
        Persist::SaveAndSync,
        Panel::Settings,
        owned("Setting saved"),
        SyncLog::Plain(cat2(setting_name(index), " updated")),
        host,
    );
    index == 1
}

// ---------------------------------------------------------------------------
// Files
// ---------------------------------------------------------------------------

/// What became of an export or an import, and of saving the log afterwards.
#[derive(Debug)]
pub enum FileOutcome {
    Failed(ErrorText),
    Done { saved: Result<(), ErrorText> },
}

/// `new` is `old` after an error was shown on this panel under a heading of its
/// own.
pub open spec fn failure_shown(
    old: State,
    new: State,
    heading: Seq<char>,
    context: Seq<char>,
    err: ErrorText,
) -> bool {
    let status = new.settings().status_message;
    &&& opt_view(status) == Some(heading + err.alternate@)
    &&& new == old.with_main(
        MainPageState {
            activity_log: new.main_page.activity_log,
            ..old.main_page.with_status(Panel::Settings, status)
        },
    )
    &&& new.main_page.log_lines() == push_line(
        old.main_page.log_lines(),
        error_line(context, err),
    )
}

fn show_failure(state: &mut State, heading: &str, context: &str, err: &ErrorText)
    ensures
        failure_shown(*old(state), *final(state), heading@, context@, *err),
{
    state.main_page.set_status(Panel::Settings, cat2(heading, err.alternate.as_str()));
    state.main_page.log_error(context, err);
}

/// `new` is `old` after a file was written or checked: the list is shown again,
/// with what was done, and an error in saving the log was logged.
pub open spec fn file_concluded(
    old: State,
    new: State,
    context: Seq<char>,
    message: Seq<char>,
    saved: Result<(), ErrorText>,
) -> bool {
    let status = new.settings().status_message;
    let shown = list_shown(old);
    &&& opt_view(status) == Some(message)
    &&& new == old.with_main(
        MainPageState {
            activity_log: new.main_page.activity_log,
            ..shown.main_page.with_status(Panel::Settings, status)
        },
    )
    &&& new.main_page.log_lines() == (match saved {
        Ok(_) => push_line(old.main_page.log_lines(), plain_line(message)),
        Err(e) => push_line(
            push_line(old.main_page.log_lines(), error_line(context, e)),
            plain_line(message),
        ),
    })
}

fn conclude_file(
    config: &Config,
    state: &mut State,
    save: &mut SaveScheduler,
    context: &str,
    message: String,
    saved: Result<(), ErrorText>,
    host: &Host,
)
    ensures
        file_concluded(*old(state), *final(state), context@, message@, saved),
        *final(save) == (if saved is Ok {
            (SaveScheduler { dirty: false, armed: None, ..*old(save) })
        } else {
            *old(save)
        }),
{
    match saved {
        Ok(_) => save.clear_after_external_save(),
        Err(e) => state.main_page.log_error(context, &e),
    }
    state.main_page.content_panel.settings.mode = SettingsMode::View;
    save_and_sync(
        &mut state.main_page,
        config,
        save,
        Persist::Nothing,
        Panel::Settings,
        message.clone(),
        SyncLog::Plain(message),
        host,
    );
}

/// Notes in the log of the configuration that it was exported.
pub fn note_export(config: &mut Config, path: &str)
    ensures
        *final(config) == (Config { public: final(config).public, ..*old(config) }),
        final(config).public == (PublicConfig {
            logs: final(config).public.logs,
            ..old(config).public
        }),
        config_noted(old(config).public, final(config).public, "Config exported to "@ + path@),
{
    config.note(LogFamily::Config, cat2("Config exported to ", path));
}

/// Ends an export.
pub fn handle_export_config_action(
    config: &Config,
    state: &mut State,
    save: &mut SaveScheduler,
    path: &str,
    outcome: FileOutcome,
    host: &Host,
)
    ensures
        match outcome {
            FileOutcome::Failed(e) => failure_shown(
                *old(state),
                *final(state),
                "Export failed: "@,
                "Config export failed"@,
                e,
            ) && *final(save) == *old(save),
            FileOutcome::Done { saved } => file_concluded(
                *old(state),
                *final(state),
                "Failed to persist export-log entry"@,
                "Config exported to "@ + path@,
                saved,
            ) && *final(save) == (if saved is Ok {
                (SaveScheduler { dirty: false, armed: None, ..*old(save) })
            } else {
                *old(save)
            }),
        },
{
    match outcome {
        FileOutcome::Failed(e) => show_failure(
            state,
            "Export failed: ",
            "Config export failed",
            &e,
        ),
        FileOutcome::Done { saved } => conclude_file(
            config,
            state,
            save,
            "Failed to persist export-log entry",
            cat2("Config exported to ", path),
            saved,
            host,
        ),
    }
}

/// Notes in the log of the configuration that an import was asked for.
pub fn note_import(config: &mut Config, path: &str)
    ensures
        *final(config) == (Config { public: final(config).public, ..*old(config) }),
        final(config).public == (PublicConfig {
            logs: final(config).public.logs,
            ..old(config).public
        }),
        config_noted(old(config).public, final(config).public, "Config imported from "@ + path@),
{
    config.note(LogFamily::Config, cat2("Config imported from ", path));
}

/// Ends an import that was checked; `message` is what it says.
pub fn handle_import_config_action(
    config: &Config,
    state: &mut State,
    save: &mut SaveScheduler,
    message: String,
    outcome: FileOutcome,
    host: &Host,
)
    ensures
        match outcome {
            FileOutcome::Failed(e) => failure_shown(
                *old(state),
                *final(state),
                "Import failed: "@,
                "Config import failed"@,
                e,
            ) && *final(save) == *old(save),
            FileOutcome::Done { saved } => file_concluded(
                *old(state),
                *final(state),
                "Failed to persist import-log entry"@,
                message@,
                saved,
            ) && *final(save) == (if saved is Ok {
                (SaveScheduler { dirty: false, armed: None, ..*old(save) })
            } else {
                *old(save)
            }),
        },
{
    match outcome {
        FileOutcome::Failed(e) => show_failure(
            state,
            "Import failed: ",
            "Config import failed",
            &e,
        ),
        FileOutcome::Done { saved } => conclude_file(
            config,
            state,
            save,
            "Failed to persist import-log entry",
            message,
            saved,
            host,
        ),
    }
}

// ---------------------------------------------------------------------------
// Protection
// ---------------------------------------------------------------------------

/// `new` is `old` after the protection was changed and saved, or not.
pub open spec fn protection_concluded(
    old: State,
    new: State,
    is: Config,
    host: Host,
    message: Seq<char>,
    context: Seq<char>,
    result: Result<(), ErrorText>,
) -> bool {
    match result {
        Ok(_) => {
            &&& new == old.with_main(new.main_page)
            &&& reported(
                list_shown(old).main_page,
                new.main_page,
                is,
                host,
                true,
                Panel::Settings,
                message,
                plain_line(message),
            )
        },
        Err(e) => went_wrong(old, new, Panel::Settings, context, e),
    }
}

fn conclude_protection(
    config: &Config,
    state: &mut State,
    save: &mut SaveScheduler,
    message: &str,
    context: &str,
    result: Result<(), ErrorText>,
    host: &Host,
)
    ensures
        protection_concluded(
            *old(state),
            *final(state),
            *config,
            *host,
            message@,
            context@,
            result,
        ),
        *final(save) == (if result is Ok {
            (SaveScheduler { dirty: false, armed: None, ..*old(save) })
        } else {
            *old(save)
        }),
{
    match result {
        Ok(_) => {
            save.clear_after_external_save();
            state.main_page.content_panel.settings.mode = SettingsMode::View;
            save_and_sync(
                &mut state.main_page,
                config,
                save,
                Persist::SyncOnly,
                Panel::Settings,
                owned(message),
                SyncLog::Plain(owned(message)),
                host,
            );
        },
        Err(e) => record_error(&mut state.main_page, Panel::Settings, context, &e),
    }
}

/// Ends setting a passphrase; `result` is what came of deriving its key and of
/// saving.
pub fn handle_set_passphrase(
    config: &Config,
    state: &mut State,
    save: &mut SaveScheduler,
    result: Result<(), ErrorText>,
    host: &Host,
)
    ensures
        protection_concluded(
            *old(state),
            *final(state),
            *config,
            *host,
            "Passphrase protection enabled"@,
            "Failed to set passphrase"@,
            result,
        ),
        *final(save) == (if result is Ok {
            (SaveScheduler { dirty: false, armed: None, ..*old(save) })
        } else {
            *old(save)
        }),
{
    conclude_protection(
        config,
        state,
        save,
        "Passphrase protection enabled",
        "Failed to set passphrase",
        result,
        host,
    )
}

/// Ends removing the passphrase; `result` is what came of saving.
pub fn handle_remove_passphrase(
    config: &Config,
    state: &mut State,
    save: &mut SaveScheduler,
    result: Result<(), ErrorText>,
    host: &Host,
)
    ensures
        protection_concluded(
            *old(state),
            *final(state),
            *config,
            *host,
            "Protection reverted to keyring only"@,
            "Failed to remove passphrase"@,
            result,
        ),
        *final(save) == (if result is Ok {
            (SaveScheduler { dirty: false, armed: None, ..*old(save) })
        } else {
            *old(save)
        }),
{
    conclude_protection(
        config,
        state,
        save,
        "Protection reverted to keyring only",
        "Failed to remove passphrase",
        result,
        host,
    )
}

// ---------------------------------------------------------------------------
// Wiping the profile
// ---------------------------------------------------------------------------

/// What was removed of the git-signing install.
#[derive(Clone, Debug)]
pub struct UninstallSummary {
    pub removed_config_file: Option<String>,
    pub removed_keyring_entries: Vec<String>,
    pub allowed_signers_entry_removed: bool,
    pub warnings: Vec<String>,
}

/// What was removed of the profile.
#[derive(Clone, Debug)]
pub struct WipeSummary {
    pub removed_config_file: Option<String>,
    pub removed_keyring_entry: bool,
    pub warnings: Vec<String>,
}

/// Whether what was typed confirms wiping the profile.
pub open spec fn confirms_wipe(typed: Seq<char>) -> bool {
    equal_ignoring_case(trimmed(typed), "WIPE"@)
}

/// `new` is `old` after wiping was called off for want of confirmation.
pub open spec fn wipe_declined(old: State, new: State) -> bool {
    let status = new.settings().status_message;
    &&& opt_view(status) == Some("Type WIPE (exactly) to confirm — wipe cancelled."@)
    &&& new == old.with_settings(
        SettingsState { mode: SettingsMode::View, status_message: status, ..old.settings() },
    )
}

/// The git-signing install that goes with the profile.
pub open spec fn install_to_remove(s: SettingsState) -> Option<String> {
    match s.did_git_sign {
        Some(info) => Some(info.did_key_id),
        None => None,
    }
}

/// Checks the confirmation of a wipe: where it is given, says which git-signing
/// install is to be removed with the profile.
pub fn check_wipe(state: &mut State) -> (r: Option<Option<String>>)
    ensures
        match old(state).settings().mode {
            SettingsMode::WipeConfirm { confirm_input } => if confirms_wipe(confirm_input@) {
                *final(state) == *old(state) && r == Some(
                    install_to_remove(old(state).settings()),
                )
            } else {
                r is None && wipe_declined(*old(state), *final(state))
            },
            _ => r is None && *final(state) == *old(state),
        },
{
    let confirmed = match &state.main_page.content_panel.settings.mode {
        SettingsMode::WipeConfirm { confirm_input } => {
            let typed = trim(confirm_input.as_str());
            same_ignoring_case(typed.as_str(), "WIPE")
        },
        _ => {
            return None;
        },
    };
    if !confirmed {
        state.main_page.content_panel.settings.status_message =
        Some(owned("Type WIPE (exactly) to confirm — wipe cancelled."));
        state.main_page.content_panel.settings.mode = SettingsMode::View;
        return None;
    }
    match &state.main_page.content_panel.settings.did_git_sign {
        Some(info) => Some(Some(info.did_key_id.clone())),
        None => Some(None),
    }
}

/// One line, where there is something to say.
pub open spec fn line_if(b: bool, text: Seq<char>) -> Seq<Seq<char>> {
    if b {
        seq![text]
    } else {
        Seq::empty()
    }
}

/// A line for each warning.
pub open spec fn warned(heading: Seq<char>, warnings: Seq<Seq<char>>) -> Seq<Seq<char>> {
    warnings.map_values(|w: Seq<char>| heading + w)
}

/// What is logged of a removed git-signing install.
pub open spec fn uninstall_lines(s: UninstallSummary) -> Seq<Seq<char>> {
    (match s.removed_config_file {
        Some(p) => seq!["Removed did-git-sign config: "@ + p@],
        None => Seq::empty(),
    }) + line_if(
        s.removed_keyring_entries@.len() > 0,
        "Removed did-git-sign keyring entries: "@ + crate::text::joined(
            texts_view(s.removed_keyring_entries@),
            ", "@,
        ),
    ) + line_if(
        s.allowed_signers_entry_removed,
        "Removed did-git-sign allowed_signers entry"@,
    ) + warned("did-git-sign uninstall: "@, texts_view(s.warnings@))
}

/// What is logged of a removed profile.
pub open spec fn wipe_lines(s: WipeSummary) -> Seq<Seq<char>> {
    (match s.removed_config_file {
        Some(p) => seq!["Removed openvtc config: "@ + p@],
        None => Seq::empty(),
    }) + line_if(s.removed_keyring_entry, "Removed openvtc keyring entry"@) + warned(
        "openvtc wipe: "@,
        texts_view(s.warnings@),
    )
}

fn add_line(lines: &mut Vec<String>, text: String)
    ensures
        texts_view(final(lines)@) == texts_view(old(lines)@).push(text@),
{
    lines.push(text);
    assert(texts_view(lines@) =~= texts_view(old(lines)@).push(text@));
}

fn add_warnings(lines: &mut Vec<String>, heading: &str, warnings: &Vec<String>)
    ensures
        texts_view(final(lines)@) == texts_view(old(lines)@) + warned(
            heading@,
            texts_view(warnings@),
        ),
{
    let ghost all = warned(heading@, texts_view(warnings@));
    let ghost start = texts_view(lines@);
    let mut i: usize = 0;
    assert(start + all.take(0) =~= start);
    while i < warnings.len()
        invariant
            i <= warnings@.len(),
            all == warned(heading@, texts_view(warnings@)),
            texts_view(lines@) == start + all.take(i as int),
        decreases warnings@.len() - i,
    {
        add_line(lines, cat2(heading, warnings[i].as_str()));
        assert(texts_view(lines@) =~= start + all.take(i + 1));
        i = i + 1;
    }
    assert(all.take(i as int) =~= all);
}

fn describe_uninstall(s: &UninstallSummary) -> (r: Vec<String>)
    ensures
        texts_view(r@) == uninstall_lines(*s),
{
    let mut lines: Vec<String> = Vec::new();
    assert(texts_view(lines@) =~= Seq::<Seq<char>>::empty());
    match &s.removed_config_file {
        Some(p) => add_line(&mut lines, cat2("Removed did-git-sign config: ", p.as_str())),
        None => {},
    }
    if s.removed_keyring_entries.len() > 0 {
        let names = crate::text::join(&s.removed_keyring_entries, ", ");
        add_line(&mut lines, cat2("Removed did-git-sign keyring entries: ", names.as_str()));
    }
    if s.allowed_signers_entry_removed {
        add_line(&mut lines, owned("Removed did-git-sign allowed_signers entry"));
    }
    add_warnings(&mut lines, "did-git-sign uninstall: ", &s.warnings);
    assert(texts_view(lines@) =~= uninstall_lines(*s));
    lines
}

fn describe_wipe(s: &WipeSummary) -> (r: Vec<String>)
    ensures
        texts_view(r@) == wipe_lines(*s),
{
    let mut lines: Vec<String> = Vec::new();
    assert(texts_view(lines@) =~= Seq::<Seq<char>>::empty());
    match &s.removed_config_file {
        Some(p) => add_line(&mut lines, cat2("Removed openvtc config: ", p.as_str())),
        None => {},
    }
    if s.removed_keyring_entry {
        add_line(&mut lines, owned("Removed openvtc keyring entry"));
    }
    add_warnings(&mut lines, "openvtc wipe: ", &s.warnings);
    assert(texts_view(lines@) =~= wipe_lines(*s));
    lines
}

/// Lines without details.
pub open spec fn plain_lines(s: Seq<Seq<char>>) -> Seq<LogLine> {
    s.map_values(|t: Seq<char>| plain_line(t))
}

/// What is logged of removing the git-signing install.
pub open spec fn uninstall_log(uninstalled: Option<Result<UninstallSummary, ErrorText>>) -> Seq<
    LogLine,
> {
    match uninstalled {
        None => Seq::empty(),
        Some(Ok(s)) => plain_lines(uninstall_lines(s)),
        Some(Err(e)) => seq![error_line("did-git-sign uninstall failed"@, e)],
    }
}

/// What is logged of removing the profile.
pub open spec fn wipe_log(deleted: Result<WipeSummary, ErrorText>) -> Seq<LogLine> {
    match deleted {
        Ok(s) => plain_lines(wipe_lines(s)).push(plain_line("Profile wiped — exiting."@)),
        Err(e) => seq![error_line("Failed to wipe openvtc profile"@, e)],
    }
}

/// `new` is `old` after the profile was wiped, or not.
pub open spec fn wipe_concluded(
    old: State,
    new: State,
    uninstalled: Option<Result<UninstallSummary, ErrorText>>,
    deleted: Result<WipeSummary, ErrorText>,
) -> bool {
    let status = new.settings().status_message;
    &&& match deleted {
        Ok(_) => status == old.settings().status_message,
        Err(e) => opt_view(status) == Some("Wipe failed: "@ + e.alternate@),
    }
    &&& new == old.with_main(
        MainPageState {
            activity_log: new.main_page.activity_log,
            ..old.main_page.with_status(Panel::Settings, status)
        },
    )
    &&& new.main_page.log_lines() == push_lines(
        push_lines(old.main_page.log_lines(), uninstall_log(uninstalled)),
        wipe_log(deleted),
    )
}

/// Ends wiping the profile; tells whether it is gone.
pub fn handle_wipe_confirm(
    state: &mut State,
    uninstalled: Option<Result<UninstallSummary, ErrorText>>,
    deleted: Result<WipeSummary, ErrorText>,
) -> (r: bool)
    ensures
        wipe_concluded(*old(state), *final(state), uninstalled, deleted),
        r == (deleted is Ok),
{
    let ghost start = state.main_page.log_lines();
    match uninstalled {
        None => {},
        Some(Ok(summary)) => {
            let lines = describe_uninstall(&summary);
            state.main_page.log_all(&lines);
            assert(texts_view(lines@).map_values(|s: Seq<char>| plain_line(s)) =~= plain_lines(
                uninstall_lines(summary),
            ));
        },
        Some(Err(e)) => {
            state.main_page.log_error("did-git-sign uninstall failed", &e);
            proof {
                crate::main_page::lemma_push_lines_one(
                    start,
                    error_line("did-git-sign uninstall failed"@, e),
                );
            }
        },
    }
    let ghost middle = state.main_page.log_lines();
    assert(middle == push_lines(start, uninstall_log(uninstalled)));
    match deleted {
        Ok(summary) => {
            let lines = describe_wipe(&summary);
            state.main_page.log_all(&lines);
            assert(texts_view(lines@).map_values(|s: Seq<char>| plain_line(s)) =~= plain_lines(
                wipe_lines(summary),
            ));
            state.main_page.log(owned("Profile wiped — exiting."));
            assert(wipe_log(deleted).drop_last() =~= plain_lines(wipe_lines(summary)));
            true
        },
        Err(e) => {
            state.main_page.log_error("Failed to wipe openvtc profile", &e);
            proof {
                crate::main_page::lemma_push_lines_one(
                    middle,
                    error_line("Failed to wipe openvtc profile"@, e),
                );
            }
            state.main_page.set_status(
                Panel::Settings,
                cat2("Wipe failed: ", e.alternate.as_str()),
            );
            false
        },
    }
}

// ---------------------------------------------------------------------------
// Hardware tokens
// ---------------------------------------------------------------------------

/// `new` is `old` after the token screen took on these values.
pub open spec fn token_shown(
    old: State,
    new: State,
    mode: SettingsMode,
    detected: usize,
    messages: Seq<Seq<char>>,
    reset_completed: bool,
) -> bool {
    &&& new == old.with_settings(
        SettingsState { mode, token: new.settings().token, ..old.settings() },
    )
    &&& new.settings().token.detected_count == detected
    &&& texts_view(new.settings().token.messages@) == messages
    &&& new.settings().token.reset_completed == reset_completed
}

fn one_message(text: String) -> (r: Vec<String>)
    ensures
        texts_view(r@) == seq![text@],
{
    let mut v: Vec<String> = Vec::new();
    v.push(text);
    assert(texts_view(v@) =~= seq![text@]);
    v
}

/// Opens the token screen; `cards` is how many tokens were found, or why none
/// could be looked for.
pub fn handle_token_management(state: &mut State, cards: Result<usize, String>)
    ensures
        token_shown(
            *old(state),
            *final(state),
            SettingsMode::TokenManagement { selected_index: 0 },
            match cards {
                Ok(n) => n,
                Err(_) => 0,
            },
            match cards {
                Ok(_) => Seq::empty(),
                Err(e) => seq!["Error detecting tokens: "@ + e@],
            },
            old(state).settings().token.reset_completed,
        ),
{
    state.main_page.content_panel.settings.mode =
    SettingsMode::TokenManagement { selected_index: 0 };
    match cards {
        Ok(n) => {
            state.main_page.content_panel.settings.token.detected_count = n;
            state.main_page.content_panel.settings.token.messages = Vec::new();
            assert(texts_view(state.settings().token.messages@) =~= Seq::<Seq<char>>::empty());
        },
        Err(e) => {
            state.main_page.content_panel.settings.token.detected_count = 0;
            state.main_page.content_panel.settings.token.messages =
            one_message(cat2("Error detecting tokens: ", e.as_str()));
        },
    }
}

/// Looks for tokens again.
pub fn handle_token_detect(state: &mut State, cards: Result<usize, String>)
    ensures
        token_shown(
            *old(state),
            *final(state),
            old(state).settings().mode,
            match cards {
                Ok(n) => n,
                Err(_) => 0,
            },
            match cards {
                Ok(n) => seq![decimal_view(n as nat) + " token(s) detected"@],
                Err(e) => seq!["Error: "@ + e@],
            },
            old(state).settings().token.reset_completed,
        ),
{
    match cards {
        Ok(n) => {
            state.main_page.content_panel.settings.token.detected_count = n;
            let digits = decimal_usize(n);
            state.main_page.content_panel.settings.token.messages =
            one_message(cat2(digits.as_str(), " token(s) detected"));
        },
        Err(e) => {
            state.main_page.content_panel.settings.token.detected_count = 0;
            state.main_page.content_panel.settings.token.messages =
            one_message(cat2("Error: ", e.as_str()));
        },
    }
}

/// Ends a factory reset; `reset` is what came of it where a token was there.
pub fn handle_token_factory_reset(
    state: &mut State,
    cards: Result<usize, String>,
    reset: Result<(), String>,
)
    ensures
        token_shown(
            *old(state),
            *final(state),
            old(state).settings().mode,
            old(state).settings().token.detected_count,
            match cards {
                Ok(n) => if n > 0 {
                    match reset {
                        Ok(_) => seq!["Factory reset completed successfully."@],
                        Err(e) => seq!["Factory reset failed: "@ + e@],
                    }
                } else {
                    seq!["No tokens detected. Insert a token first."@]
                },
                Err(e) => seq!["Error: "@ + e@],
            },
            old(state).settings().token.reset_completed || (cards matches Ok(n) && n > 0 && reset
                is Ok),
        ),
{
    match cards {
        Ok(n) => {
            if n > 0 {
                match reset {
                    Ok(_) => {
                        state.main_page.content_panel.settings.token.messages =
                        one_message(owned("Factory reset completed successfully."));
                        state.main_page.content_panel.settings.token.reset_completed = true;
                    },
                    Err(e) => {
                        state.main_page.content_panel.settings.token.messages =
                        one_message(cat2("Factory reset failed: ", e.as_str()));
                    },
                }
            } else {
                state.main_page.content_panel.settings.token.messages =
                one_message(owned("No tokens detected. Insert a token first."));
            }
        },
        Err(e) => {
            state.main_page.content_panel.settings.token.messages =
            one_message(cat2("Error: ", e.as_str()));
        },
    }
}

/// Leaves the token screen.
pub fn handle_token_back(state: &mut State)
    ensures
        token_shown(
            *old(state),
            *final(state),
            SettingsMode::View,
            old(state).settings().token.detected_count,
            Seq::empty(),
            false,
        ),
{
    state.main_page.content_panel.settings.mode = SettingsMode::View;
    state.main_page.content_panel.settings.token.messages = Vec::new();
    assert(texts_view(state.settings().token.messages@) =~= Seq::<Seq<char>>::empty());
    state.main_page.content_panel.settings.token.reset_completed = false;
}

// ---------------------------------------------------------------------------
// Dispatch
// ---------------------------------------------------------------------------

/// `new` is `old` after a new connection to the mediator was begun.
pub open spec fn reconnect_begun(old: State, new: State) -> bool {
    &&& new == (State {
        main_page: MainPageState {
            activity_log: new.main_page.activity_log,
            ..old.main_page
        },
        connection: ConnectionState {
            status: MediatorStatus::Connecting,
            messaging_active: false,
        },
        ..old
    })
    &&& new.main_page.log_lines() == push_line(
        old.main_page.log_lines(),
        plain_line("Reconnecting to mediator..."@),
    )
}

/// Shows that a new connection to the mediator is begun.
pub fn begin_reconnect_status(state: &mut State)
    ensures
        reconnect_begun(*old(state), *final(state)),
{
    state.connection.status = MediatorStatus::Connecting;
    state.connection.messaging_active = false;
    state.main_page.log(owned("Reconnecting to mediator..."));
}

/// What is left to be done after an action on this panel.
#[derive(Clone)]
pub enum SettingsOutcome {
    /// Nothing.
    Continue,
    /// Connect to the mediator anew.
    ReconnectMediator,
    /// Export the configuration, note it, save, and end the export.
    Export { path: String, passphrase: String },
    /// See whether the file exists, and end the import.
    Import { path: String },
    /// Derive the key, set it, save, and end the change.
    SetPassphrase { passphrase: String },
    /// Save the configuration, which is no longer protected by a passphrase, and
    /// end the change.
    SaveUnprotected,
    /// Remove this git-signing install, if any, and the profile, and end the wipe.
    Wipe { install: Option<String> },
    /// Look for tokens, and open the token screen.
    OpenTokens,
    /// Look for tokens.
    DetectTokens,
    /// Reset the first token.
    ResetToken,
}

/// `new` is `old` after a status was shown on this panel.
pub open spec fn status_shown(old: State, new: State, status: Seq<char>) -> bool {
    let shown = new.settings().status_message;
    &&& opt_view(shown) == Some(status)
    &&& new == old.with_main(old.main_page.with_status(Panel::Settings, shown))
}

/// What asking for an export comes to.
pub open spec fn export_asked(
    old: State,
    new: State,
    path: String,
    passphrase: String,
    r: SettingsOutcome,
) -> bool {
    match path_error(path@) {
        None => status_shown(old, new, "Deriving encryption key…"@) && r
            == (SettingsOutcome::Export { path, passphrase }),
        Some(why) => r is Continue && exists|e: ErrorText|
            e.says(why) && #[trigger] failure_shown(
                old,
                new,
                "Export failed: "@,
                "Config export failed"@,
                e,
            ),
    }
}

/// What asking for an import comes to.
pub open spec fn import_asked(old: State, new: State, path: String, r: SettingsOutcome) -> bool {
    match path_error(path@) {
        None => new == old && r == (SettingsOutcome::Import { path }),
        Some(why) => r is Continue && exists|e: ErrorText|
            e.says(why) && #[trigger] failure_shown(
                old,
                new,
                "Import failed: "@,
                "Config import failed"@,
                e,
            ),
    }
}

/// What submitting an edit comes to.
pub open spec fn edit_submitted(
    old: State,
    new: State,
    was: Config,
    is: Config,
    host: Host,
    value: Seq<char>,
    r: SettingsOutcome,
) -> bool {
    let index = old.settings().selected_index;
    &&& setting_updated(was, is, index, value)
    &&& if index == 1 {
        r is ReconnectMediator && exists|mid: State|
            #[trigger] edit_concluded(old, mid, is, host, index) && reconnect_begun(mid, new)
    } else {
        r is Continue && edit_concluded(old, new, is, host, index)
    }
}

/// What confirming a wipe comes to.
pub open spec fn wipe_asked(old: State, new: State, r: SettingsOutcome) -> bool {
    match old.settings().mode {
        SettingsMode::WipeConfirm { confirm_input } => if confirms_wipe(confirm_input@) {
            new == old && r == (SettingsOutcome::Wipe {
                install: install_to_remove(old.settings()),
            })
        } else {
            r is Continue && wipe_declined(old, new)
        },
        _ => r is Continue && new == old,
    }
}

/// What an action on this panel comes to.
pub open spec fn settings_handled(
    action: SettingsAction,
    old: State,
    new: State,
    was: Config,
    is: Config,
    host: Host,
    r: SettingsOutcome,
) -> bool {
    let p = old.settings();
    let quiet = is == was && r is Continue;
    match action {
        SettingsAction::SubmitEdit { value } => edit_submitted(old, new, was, is, host, value@, r),
        SettingsAction::ExportConfig { path, passphrase } => is == was && export_asked(
            old,
            new,
            path,
            passphrase,
            r,
        ),
        SettingsAction::ImportConfig { path, .. } => is == was && import_asked(old, new, path, r),
        SettingsAction::SetPassphrase { passphrase } => is == was && status_shown(
            old,
            new,
            "Deriving encryption key…"@,
        ) && r == (SettingsOutcome::SetPassphrase { passphrase }),
        SettingsAction::RemovePassphrase => {
            &&& new == old
            &&& r is SaveUnprotected
            &&& is.unlock_code is None
            &&& protection_changed(
                was,
                is,
                ProtectionType::Plaintext,
                "Config protection changed to keyring only (no additional encryption)"@,
            )
        },
        SettingsAction::ReconnectMediator => is == was && r is ReconnectMediator && reconnect_begun(
            old,
            new,
        ),
        SettingsAction::WipeProfileConfirm => is == was && wipe_asked(old, new, r),
        SettingsAction::TokenManagement => is == was && new == old && r is OpenTokens,
        SettingsAction::TokenDetect => is == was && new == old && r is DetectTokens,
        SettingsAction::TokenFactoryReset => is == was && new == old && r is ResetToken,
        SettingsAction::TokenBack => quiet && token_shown(
            old,
            new,
            SettingsMode::View,
            p.token.detected_count,
            Seq::empty(),
            false,
        ),
        SettingsAction::ClipboardCopied(msg) => {
            &&& quiet
            &&& new == old.with_main(
                MainPageState {
                    activity_log: new.main_page.activity_log,
                    ..old.main_page.with_status(Panel::Settings, Some(msg))
                },
            )
            &&& new.main_page.log_lines() == push_line(
                old.main_page.log_lines(),
                plain_line(msg@),
            )
        },
        SettingsAction::Select(index) => quiet && new == old.with_settings(row_selected(p, index)),
        SettingsAction::StartEdit => quiet && mode_set(old, new) && edits(p, new.settings().mode),
        SettingsAction::CancelEdit => quiet && new == list_shown(old),
        SettingsAction::FieldUpdate(value) => quiet && new == old.with_settings(
            SettingsState { mode: line_typed(p.mode, value), ..p },
        ),
        SettingsAction::FormFieldUpdate { field, value } => quiet && new == old.with_settings(
            SettingsState { mode: path_typed(p.mode, field, value), ..p },
        ),
        SettingsAction::FormTabSwitch => quiet && new == old.with_settings(
            SettingsState { mode: field_switched(p.mode), ..p },
        ),
        SettingsAction::PassphraseLen(len) => quiet && new == old.with_settings(
            SettingsState { mode: passphrase_typed(p.mode, len), ..p },
        ),
        SettingsAction::ProtectionOptionSelect(option) => quiet && protection_set(
            old,
            new,
            ProtectionField::Option,
            option,
        ),
        SettingsAction::ProtectionStartInput => quiet && protection_set(
            old,
            new,
            ProtectionField::Focus,
            1,
        ),
        SettingsAction::ProtectionPassphraseLen(len) => quiet && protection_set(
            old,
            new,
            ProtectionField::Passphrase,
            len,
        ),
        SettingsAction::ProtectionConfirmLen(len) => quiet && protection_set(
            old,
            new,
            ProtectionField::Confirmation,
            len,
        ),
        SettingsAction::ProtectionTabSwitch(field) => quiet && protection_set(
            old,
            new,
            ProtectionField::Focus,
            field,
        ),
        SettingsAction::ChangeProtection => quiet && new == old.with_settings(
            SettingsState {
                mode: SettingsMode::ChangeProtection {
                    selected_option: 0,
                    passphrase_len: 0,
                    confirm_len: 0,
                    active_field: 0,
                },
                ..p
            },
        ),
        SettingsAction::WipeProfileStart => {
            &&& quiet
            &&& mode_set(old, new)
            &&& new.settings().mode matches SettingsMode::WipeConfirm { confirm_input }
            &&& confirm_input@.len() == 0
        },
        SettingsAction::WipeProfileInput(value) => quiet && new == old.with_settings(
            SettingsState { mode: wipe_typed(p.mode, value), ..p },
        ),
    }
}

/// Does what is asked for on this panel.
#[verifier::rlimit(60)]
pub fn dispatch(
    action: SettingsAction,
    config: &mut Config,
    state: &mut State,
    save: &mut SaveScheduler,
    host: &Host,
) -> (r: SettingsOutcome)
    ensures
        settings_handled(
            action,
            *old(state),
            *final(state),
            *old(config),
            *final(config),
            *host,
            r,
        ),
        *final(save) == (if action is SubmitEdit {
            old(save).marked(host.now)
        } else {
            *old(save)
        }),
{
    match action {
        SettingsAction::Select(index) => handle_select(state, index),
        SettingsAction::StartEdit => handle_start_edit(state),
        SettingsAction::CancelEdit => {
            state.main_page.content_panel.settings.mode = SettingsMode::View;
        },
        SettingsAction::FieldUpdate(value) => handle_field_update(state, value),
        SettingsAction::FormFieldUpdate { field, value } => handle_form_field_update(
            state,
            field,
            value,
        ),
        SettingsAction::FormTabSwitch => handle_form_tab_switch(state),
        SettingsAction::ProtectionOptionSelect(option) => handle_protection_option_select(
            state,
            option,
        ),
        SettingsAction::ProtectionStartInput => handle_protection_start_input(state),
        SettingsAction::ProtectionPassphraseLen(len) => handle_protection_passphrase_len(
            state,
            len,
        ),
        SettingsAction::ProtectionConfirmLen(len) => handle_protection_confirm_len(state, len),
        SettingsAction::ProtectionTabSwitch(field) => handle_protection_tab_switch(state, field),
        SettingsAction::PassphraseLen(len) => handle_passphrase_len(state, len),
        SettingsAction::SubmitEdit { value } => {
            let index: usize = state.main_page.content_panel.settings.selected_index;
            if handle_submit_edit(config, state, save, value.as_str(), host) {
                let ghost mid = *state;
                assert(edit_concluded(*old(state), mid, *config, *host, index));
                begin_reconnect_status(state);
                return SettingsOutcome::ReconnectMediator;
            }
        },
        SettingsAction::ExportConfig { path, passphrase } => {
            match validate_file_path(path.as_str()) {
                Ok(_) => {
                    state.main_page.set_status(
                        Panel::Settings,
                        owned("Deriving encryption key…"),
                    );
                    return SettingsOutcome::Export { path, passphrase };
                },
                Err(e) => show_failure(state, "Export failed: ", "Config export failed", &e),
            }
        },
        SettingsAction::ImportConfig { path, .. } => {
            match validate_file_path(path.as_str()) {
                Ok(_) => {
                    return SettingsOutcome::Import { path };
                },
                Err(e) => show_failure(state, "Import failed: ", "Config import failed", &e),
            }
        },
        SettingsAction::ChangeProtection => handle_change_protection(state),
        SettingsAction::SetPassphrase { passphrase } => {
            state.main_page.set_status(Panel::Settings, owned("Deriving encryption key…"));
            return SettingsOutcome::SetPassphrase { passphrase };
        },
        SettingsAction::RemovePassphrase => {
            remove_passphrase(config);
            return SettingsOutcome::SaveUnprotected;
        },
        SettingsAction::TokenManagement => {
            return SettingsOutcome::OpenTokens;
        },
        SettingsAction::TokenDetect => {
            return SettingsOutcome::DetectTokens;
        },
        SettingsAction::TokenFactoryReset => {
            return SettingsOutcome::ResetToken;
        },
        SettingsAction::TokenBack => handle_token_back(state),
        SettingsAction::ClipboardCopied(msg) => {
            state.main_page.set_status(Panel::Settings, msg.clone());
            state.main_page.log(msg);
        },
        SettingsAction::WipeProfileStart => handle_wipe_start(state),
        SettingsAction::WipeProfileInput(value) => handle_wipe_input(state, value),
        SettingsAction::WipeProfileConfirm => {
            match check_wipe(state) {
                Some(install) => {
                    return SettingsOutcome::Wipe { install };
                },
                None => {},
            }
        },
        SettingsAction::ReconnectMediator => {
            begin_reconnect_status(state);
            return SettingsOutcome::ReconnectMediator;
        },
    }
    SettingsOutcome::Continue
}

/// A profile is wiped only after the word was typed: nothing else leads there.
pub proof fn law_wipe_needs_the_word(
    action: SettingsAction,
    old: State,
    new: State,
    was: Config,
    is: Config,
    host: Host,
    r: SettingsOutcome,
)
    requires
        settings_handled(action, old, new, was, is, host, r),
        r is Wipe,
    ensures
        action is WipeProfileConfirm,
        old.settings().mode matches SettingsMode::WipeConfirm { confirm_input } && confirms_wipe(
            confirm_input@,
        ),
{
}

/// A name, a mediator or an organisation that was entered is the one in force
/// from then on; the log says so, and nothing that was agreed with others
/// changes.
pub proof fn law_entered_setting_is_in_force(
    name: &mut Config,
    mediator: &mut Config,
    org: &mut Config,
    value: &str,
)
    requires
        call_ensures(update_friendly_name, (name, value), ()),
        call_ensures(update_mediator_did, (mediator, value), ()),
        call_ensures(update_org_did, (org, value), ()),
    ensures
        final(name).public.friendly_name@ == value@,
        final(name).account == old(name).account,
        final(name).private == old(name).private,
        final(name).public.logs@.len() == old(name).public.logs@.len() + 1,
        old(mediator).active() is Some ==> final(mediator).mediator_view() == value@,
        final(mediator).persona_did_view() == old(mediator).persona_did_view(),
        final(mediator).private == old(mediator).private,
        final(mediator).public.friendly_name == old(mediator).public.friendly_name,
        final(mediator).public.logs@.len() == old(mediator).public.logs@.len() + 1,
        final(org).account.org_did@ == value@,
        final(org).account.personas == old(org).account.personas,
        final(org).account.communities == old(org).account.communities,
        final(org).private == old(org).private,
        final(org).public.logs@.len() == old(org).public.logs@.len() + 1,
{
    let rest = Config {
        public: PublicConfig { logs: old(mediator).public.logs, ..final(mediator).public },
        ..*final(mediator)
    };
    assert(rest.active() == final(mediator).active());
}

/// The value that is submitted goes to the setting of the selected row and to no
/// other, the change awaits saving, and only a new mediator calls for a new
/// connection.
pub proof fn law_submitted_value_goes_to_its_row(
    config: &mut Config,
    state: &mut State,
    save: &mut SaveScheduler,
    value: &str,
    host: Host,
    r: bool,
)
    requires
        call_ensures(handle_submit_edit, (config, state, save, value, &host), r),
    ensures
        ({
            let row = old(state).settings().selected_index;
            &&& row == 0 ==> final(config).public.friendly_name@ == value@
            &&& row != 0 ==> final(config).public.friendly_name == old(config).public.friendly_name
            &&& row == 1 && old(config).active() is Some ==> final(config).mediator_view() == value@
            &&& row != 1 ==> final(config).identities == old(config).identities
            &&& row == 2 ==> final(config).account.org_did@ == value@
            &&& row != 2 ==> final(config).account.org_did == old(config).account.org_did
            &&& r <==> row == 1
        }),
        final(config).private == old(config).private,
        final(config).key_backend == old(config).key_backend,
        final(config).public.protection == old(config).public.protection,
        final(save).dirty,
        final(save).armed is Some,
{
    let rest = Config {
        public: PublicConfig { logs: old(config).public.logs, ..final(config).public },
        ..*final(config)
    };
    assert(rest.active() == final(config).active());
}

/// A passphrase that was set protects the configuration with the key derived from
/// it; where no key was derived nothing changes. Removing it leaves neither the
/// key nor the protection.
pub proof fn law_passphrase_protects_until_removed(
    set: &mut Config,
    removed: &mut Config,
    derived: Result<Vec<u8>, ErrorText>,
    r: Result<(), ErrorText>,
)
    requires
        call_ensures(set_passphrase, (set, derived), r),
        call_ensures(remove_passphrase, (removed,), ()),
        *old(removed) == *final(set),
    ensures
        r is Ok <==> derived is Ok,
        r is Err ==> *final(set) == *old(set),
        derived matches Ok(key) ==> final(set).unlock_code == Some(key),
        derived is Ok ==> final(set).public.protection is Encrypted,
        final(removed).unlock_code is None,
        final(removed).public.protection is Plaintext,
        final(removed).account == old(set).account,
        final(removed).private == old(set).private,
        final(removed).key_backend == old(set).key_backend,
        final(removed).public.friendly_name == old(set).public.friendly_name,
{
}

/// An empty path is refused, and so is one with a pair of dots in it, for an
/// import too.
pub proof fn law_paths_are_checked(
    path: &str,
    exists: bool,
    checked: Result<(), ErrorText>,
    r: Result<String, ErrorText>,
)
    requires
        call_ensures(validate_file_path, (path,), checked),
        call_ensures(import_config, (path, exists), r),
    ensures
        path@.len() == 0 ==> checked is Err,
        occurs(path@, ".."@) ==> checked is Err,
        checked is Err ==> r is Err,
        r is Ok <==> checked is Ok && exists,
{
    if path@.len() == 0 {
        assert(trimmed(path@).len() == 0);
    }
}

/// The form for a setting starts from what the setting is.
pub proof fn law_form_starts_from_the_setting(state: &mut State)
    requires
        call_ensures(handle_start_edit, (state,), ()),
    ensures
        ({
            let was = old(state).settings();
            let mode = final(state).settings().mode;
            &&& was.selected_index == 0 ==> mode == (SettingsMode::EditFriendlyName {
                input: was.friendly_name,
            })
            &&& was.selected_index == 1 ==> mode == (SettingsMode::EditMediatorDid {
                input: was.mediator_did,
            })
            &&& was.selected_index == 2 ==> mode == (SettingsMode::EditOrgDid {
                input: was.org_did,
            })
            &&& was.selected_index == 5 <==> mode is ExportConfig
            &&& was.selected_index == 6 <==> mode is ImportConfig
            &&& final(state).settings().selected_index == was.selected_index
        }),
{
}

/// What is typed into a form stays in that form, and a form is never left by
/// typing.
pub proof fn law_typing_stays_in_the_form(state: &mut State, value: String)
    requires
        call_ensures(handle_field_update, (state, value), ()),
    ensures
        ({
            let was = old(state).settings().mode;
            let is = final(state).settings().mode;
            &&& was is EditFriendlyName ==> is == (SettingsMode::EditFriendlyName { input: value })
            &&& was is EditMediatorDid ==> is == (SettingsMode::EditMediatorDid { input: value })
            &&& was is EditOrgDid ==> is == (SettingsMode::EditOrgDid { input: value })
            &&& was !is EditFriendlyName && was !is EditMediatorDid && was !is EditOrgDid ==> is
                == was
        }),
        final(state).settings().friendly_name == old(state).settings().friendly_name,
        final(state).settings().selected_index == old(state).settings().selected_index,
{
}

/// Going to the other field of the export or import form twice comes back to the
/// field, with what was typed kept.
pub proof fn law_switching_fields_twice_comes_back(there: &mut State, back: &mut State)
    requires
        call_ensures(handle_form_tab_switch, (there,), ()),
        call_ensures(handle_form_tab_switch, (back,), ()),
        *old(back) == *final(there),
        old(there).settings().mode matches SettingsMode::ExportConfig { active_field, .. }
            ==> active_field <= 1,
        old(there).settings().mode matches SettingsMode::ImportConfig { active_field, .. }
            ==> active_field <= 1,
    ensures
        final(back).settings() == old(there).settings(),
        old(there).settings().mode is ExportConfig || old(there).settings().mode is ImportConfig
            ==> final(there).settings().mode != old(there).settings().mode,
{
}

/// Nothing is wiped unless the word was typed; what is then removed with the
/// profile is the git-signing install that is shown.
pub proof fn law_wipe_is_confirmed(state: &mut State, r: Option<Option<String>>)
    requires
        call_ensures(check_wipe, (state,), r),
    ensures
        r is Some ==> {
            &&& old(state).settings().mode matches SettingsMode::WipeConfirm { confirm_input }
            &&& equal_ignoring_case(trimmed(confirm_input@), "WIPE"@)
            &&& *final(state) == *old(state)
            &&& r->0 is Some <==> old(state).settings().did_git_sign is Some
            &&& r->0 is Some ==> r->0->0 == old(state).settings().did_git_sign->0.did_key_id
        },
        r is None && old(state).settings().mode is WipeConfirm ==> final(state).settings().mode
            is View,
{
}

} // verus!
