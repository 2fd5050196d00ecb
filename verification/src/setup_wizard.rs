//! The setup wizard: what its actions do.

use crate::actions::Action;
use crate::config::Config;
use crate::content::ContentPanelState;
use crate::launch::Interrupted;
use crate::main_page::MainPageState;
use crate::menu::MenuPanelState;
use crate::setup::{
    complain, inform, messages_view, Completion, ConfigImport, DIDKeysExportState, FinalSetupPage,
    MessageView, SetupPage, SetupState, WebVHAddress,
};
use crate::setup_did_git_sign::{handle_did_git_sign_install, install_begun, InstallArgs};
use crate::state::{ActivePage, State};
use crate::text::{cat2, owned};
use vstd::prelude::*;

verus! {

/// How the wizard ends.
#[derive(Clone)]
pub enum SetupWizardExit {
    /// The program ends.
    Interrupted(Interrupted),
    /// With the configuration that was made.
    Config(Box<Config>),
}

/// Opens the wizard.
pub fn enter_setup(state: &mut State)
    ensures
        *final(state) == (State { active_page: ActivePage::Setup, ..*old(state) }),
{
    state.active_page = ActivePage::Setup;
}

/// What the wizard does next.
pub enum SetupStep {
    /// Wait for the next action.
    Stay,
    /// Leave the wizard.
    Leave(SetupWizardExit),
    /// Import a backup: the file, the passphrase that opens it, and the one for
    /// the new profile.
    Import { file: String, import_passphrase: String, new_passphrase: String },
    /// Configure git signing.
    InstallGitSign(InstallArgs),
    /// Have a DID made that names the chosen mediator.
    HostDid,
    /// Make and save the configuration of the account.
    CreateAccount,
    /// Ask the VTA, a server or a hardware token.
    Perform(Action),
}

/// What closing the wizard comes to: the main page opens, and the configuration
/// is handed out. Without one the wizard says so.
pub open spec fn wizard_closed(
    old: State,
    new: State,
    was: Option<Config>,
    is: Option<Config>,
    step: SetupStep,
) -> bool {
    let main = MainPageState {
        menu_panel: MenuPanelState { selected: true, ..old.main_page.menu_panel },
        content_panel: ContentPanelState { selected: false, ..old.main_page.content_panel },
        ..old.main_page
    };
    match was {
        Some(config) => {
            &&& new == (State { active_page: ActivePage::Main, main_page: main, ..old })
            &&& is is None
            &&& step == SetupStep::Leave(SetupWizardExit::Config(Box::new(config)))
        },
        None => {
            &&& new == (State {
                active_page: ActivePage::Main,
                main_page: main,
                setup: SetupState {
                    final_page: FinalSetupPage {
                        messages: new.setup.final_page.messages,
                        ..old.setup.final_page
                    },
                    ..old.setup
                },
                ..old
            })
            &&& messages_view(new.setup.final_page.messages@) == messages_view(
                old.setup.final_page.messages@,
            ).push(
                MessageView::Error("Setup Wizard completed but no configuration was created."@),
            )
            &&& is == was
            &&& step is Stay
        },
    }
}

/// The lines that announce the new account.
pub open spec fn creating_lines() -> Seq<MessageView> {
    seq![
        MessageView::Info("Creating your account configuration..."@),
        MessageView::Info("Securing sensitive data for storage..."@),
        MessageView::Info(
            "Your device may prompt for authentication to access OS secure storage."@,
        ),
    ]
}

/// `new` is `old` on the final page: the exported private keys are dropped, and
/// the account is announced.
pub open spec fn completing(old: State, new: State) -> bool {
    &&& new == (State {
        setup: SetupState {
            active_page: SetupPage::FinalPage,
            did_keys_export: DIDKeysExportState { exported: None, ..old.setup.did_keys_export },
            final_page: FinalSetupPage {
                messages: new.setup.final_page.messages,
                ..old.setup.final_page
            },
            ..old.setup
        },
        ..old
    })
    &&& messages_view(new.setup.final_page.messages@) == messages_view(
        old.setup.final_page.messages@,
    ) + creating_lines()
}

/// `new` is `old` after the address page was emptied.
pub open spec fn address_reset(old: State, new: State) -> bool {
    let page = new.setup.webvh_address;
    &&& new == (State {
        setup: SetupState {
            webvh_address: WebVHAddress {
                completed: Completion::NotFinished,
                messages: page.messages,
                ..old.setup.webvh_address
            },
            ..old.setup
        },
        ..old
    })
    &&& page.messages@.len() == 0
}

/// Whether an action is for the VTA, a server or a hardware token.
pub open spec fn is_outside(action: Action) -> bool {
    match action {
        Action::VtaSubmitDid(_) => true,
        Action::VtaStartProvision(_) => true,
        Action::VtaCreateKeys => true,
        Action::ExportDIDKeys { .. } => true,
        Action::GetTokens => true,
        Action::SetAdminPin(_, _) => true,
        Action::FactoryReset => true,
        Action::TokenWriteKeys => true,
        Action::SetTouchPolicy => true,
        Action::SetTokenName(_) => true,
        Action::WebvhServerCreateDid(_, _) => true,
        Action::CreateWebVHDID(_) => true,
        Action::ResolveWebVHDID(_) => true,
        _ => false,
    }
}

fn outside(action: &Action) -> (r: bool)
    ensures
        r == is_outside(*action),
{
    match action {
        Action::VtaSubmitDid(_) => true,
        Action::VtaStartProvision(_) => true,
        Action::VtaCreateKeys => true,
        Action::ExportDIDKeys { .. } => true,
        Action::GetTokens => true,
        Action::SetAdminPin(_, _) => true,
        Action::FactoryReset => true,
        Action::TokenWriteKeys => true,
        Action::SetTouchPolicy => true,
        Action::SetTokenName(_) => true,
        Action::WebvhServerCreateDid(_, _) => true,
        Action::CreateWebVHDID(_) => true,
        Action::ResolveWebVHDID(_) => true,
        _ => false,
    }
}

/// What an action comes to in the wizard.
pub open spec fn setup_stepped(
    old: State,
    new: State,
    was: Option<Config>,
    is: Option<Config>,
    action: Action,
    step: SetupStep,
) -> bool {
    let still = is == was;
    if is_outside(action) {
        new == old && still && step == SetupStep::Perform(action)
    } else {
        match action {
            Action::Exit => new == old && still && step == SetupStep::Leave(
                SetupWizardExit::Interrupted(Interrupted::UserInt),
            ),
            Action::UXError(why) => new == old && still && step == SetupStep::Leave(
                SetupWizardExit::Interrupted(why),
            ),
            Action::ImportConfig(file, import_passphrase, new_passphrase) => {
                &&& new == (State {
                    setup: SetupState { active_page: SetupPage::ConfigImport, ..old.setup },
                    ..old
                })
                &&& still
                &&& step == (SetupStep::Import { file, import_passphrase, new_passphrase })
            },
            Action::ActivateMainMenu => wizard_closed(old, new, was, is, step),
            Action::SetProtection(protection, active_page) => {
                &&& new == (State {
                    setup: SetupState { protection, active_page, ..old.setup },
                    ..old
                })
                &&& still
                &&& step is Stay
            },
            Action::SetDIDKeys(keys) => {
                &&& new == (State {
                    setup: SetupState {
                        did_keys: Some(*keys),
                        active_page: SetupPage::DIDKeysShow,
                        ..old.setup
                    },
                    ..old
                })
                &&& still
                &&& step is Stay
            },
            Action::DidGitSignInstall => {
                &&& still
                &&& match step {
                    SetupStep::InstallGitSign(args) => install_begun(old, new, Some(args)),
                    SetupStep::Stay => install_begun(old, new, None),
                    _ => false,
                }
            },
            Action::SetCustomMediator(did) => {
                let hosted = old.setup.vta.use_webvh_server;
                &&& new == (State {
                    setup: SetupState {
                        custom_mediator: Some(did),
                        active_page: if hosted {
                            old.setup.active_page
                        } else {
                            SetupPage::UserName
                        },
                        ..old.setup
                    },
                    ..old
                })
                &&& still
                &&& if hosted {
                    step is HostDid
                } else {
                    step is Stay
                }
            },
            Action::SetUsername(username) => {
                &&& new == (State {
                    setup: SetupState {
                        username,
                        active_page: if old.setup.vta.use_webvh_server {
                            SetupPage::FinalPage
                        } else {
                            SetupPage::WebVHAddress
                        },
                        ..old.setup
                    },
                    ..old
                })
                &&& still
                &&& step is Stay
            },
            Action::ResetWebVHDID => address_reset(old, new) && still && step is Stay,
            Action::SetupCompleted => completing(old, new) && still && step is CreateAccount,
            _ => new == old && still && step is Stay,
        }
    }
}

/// Takes an action in the wizard; `config` is the configuration that it made, if
/// it has come that far.
pub fn handle_setup_action(state: &mut State, config: &mut Option<Config>, action: Action) -> (step:
    SetupStep)
    ensures
        setup_stepped(*old(state), *final(state), *old(config), *final(config), action, step),
{
    if outside(&action) {
        return SetupStep::Perform(action);
    }
    match action {
        Action::Exit => SetupStep::Leave(SetupWizardExit::Interrupted(Interrupted::UserInt)),
        Action::UXError(why) => SetupStep::Leave(SetupWizardExit::Interrupted(why)),
        Action::ImportConfig(file, import_passphrase, new_passphrase) => {
            state.setup.active_page = SetupPage::ConfigImport;
            SetupStep::Import { file, import_passphrase, new_passphrase }
        },
        Action::ActivateMainMenu => {
            state.active_page = ActivePage::Main;
            state.main_page.menu_panel.selected = true;
            state.main_page.content_panel.selected = false;
            match config.take() {
                Some(made) => SetupStep::Leave(SetupWizardExit::Config(Box::new(made))),
                None => {
                    complain(
                        &mut state.setup.final_page.messages,
                        owned("Setup Wizard completed but no configuration was created."),
                    );
                    SetupStep::Stay
                },
            }
        },
        Action::SetProtection(protection, next_page) => {
            state.setup.protection = protection;
            state.setup.active_page = next_page;
            SetupStep::Stay
        },
        Action::SetDIDKeys(keys) => {
            state.setup.did_keys = Some(*keys);
            state.setup.active_page = SetupPage::DIDKeysShow;
            SetupStep::Stay
        },
        Action::DidGitSignInstall => match handle_did_git_sign_install(state) {
            Some(args) => SetupStep::InstallGitSign(args),
            None => SetupStep::Stay,
        },
        Action::SetCustomMediator(did) => {
            state.setup.custom_mediator = Some(did);
            if state.setup.vta.use_webvh_server {
                SetupStep::HostDid
            } else {
                state.setup.active_page = SetupPage::UserName;
                SetupStep::Stay
            }
        },
        Action::SetUsername(username) => {
            state.setup.username = username;
            state.setup.active_page = if state.setup.vta.use_webvh_server {
                SetupPage::FinalPage
            } else {
                SetupPage::WebVHAddress
            };
            SetupStep::Stay
        },
        Action::ResetWebVHDID => {
            state.setup.webvh_address.messages.clear();
            state.setup.webvh_address.completed = Completion::NotFinished;
            SetupStep::Stay
        },
        Action::SetupCompleted => {
            state.setup.active_page = SetupPage::FinalPage;
            state.setup.did_keys_export.exported = None;
            let page = &mut state.setup.final_page.messages;
            inform(page, owned("Creating your account configuration..."));
            inform(page, owned("Securing sensitive data for storage..."));
            inform(
                page,
                owned("Your device may prompt for authentication to access OS secure storage."),
            );
            assert(messages_view(state.setup.final_page.messages@) =~= messages_view(
                old(state).setup.final_page.messages@,
            ) + creating_lines());
            SetupStep::CreateAccount
        },
        _ => SetupStep::Stay,
    }
}

/// What an import came to, as its page shows it.
pub open spec fn import_shown(old: State, new: State, result: Result<(), String>) -> bool {
    let page = new.setup.config_import;
    &&& new == (State { setup: SetupState { config_import: page, ..old.setup }, ..old })
    &&& page.completed == (if result is Ok {
        Completion::CompletedOK
    } else {
        Completion::CompletedFail
    })
    &&& messages_view(page.messages@) == messages_view(old.setup.config_import.messages@).push(
        match result {
            Ok(_) => MessageView::Info("Configuration import completed successfully."@),
            Err(e) => MessageView::Error("Importing Config failed: "@ + e@),
        },
    )
}

/// Shows what an import came to.
pub fn import_finished(state: &mut State, result: Result<(), String>)
    ensures
        import_shown(*old(state), *final(state), result),
{
    match result {
        Ok(_) => {
            state.setup.config_import.completed = Completion::CompletedOK;
            inform(
                &mut state.setup.config_import.messages,
                owned("Configuration import completed successfully."),
            );
        },
        Err(e) => {
            complain(
                &mut state.setup.config_import.messages,
                cat2("Importing Config failed: ", e.as_str()),
            );
            state.setup.config_import.completed = Completion::CompletedFail;
        },
    }
}

/// What making the account came to, as the final page shows it.
pub open spec fn account_shown(
    old: State,
    new: State,
    was: Option<Config>,
    is: Option<Config>,
    result: Result<Config, String>,
) -> bool {
    let page = new.setup.final_page;
    &&& new == (State { setup: SetupState { final_page: page, ..old.setup }, ..old })
    &&& page.completed == (if result is Ok {
        Completion::CompletedOK
    } else {
        Completion::CompletedFail
    })
    &&& messages_view(page.messages@) == messages_view(old.setup.final_page.messages@).push(
        match result {
            Ok(_) => MessageView::Info("Account setup completed successfully."@),
            Err(e) => MessageView::Error("Couldn't create OpenVTC account. Reason: "@ + e@),
        },
    )
    &&& is == (match result {
        Ok(config) => Some(config),
        Err(_) => was,
    })
}

/// Shows what making the account came to, and keeps the configuration.
pub fn account_finished(
    state: &mut State,
    config: &mut Option<Config>,
    result: Result<Config, String>,
)
    ensures
        account_shown(*old(state), *final(state), *old(config), *final(config), result),
{
    match result {
        Ok(made) => {
            state.setup.final_page.completed = Completion::CompletedOK;
            inform(
                &mut state.setup.final_page.messages,
                owned("Account setup completed successfully."),
            );
            *config = Some(made);
        },
        Err(e) => {
            state.setup.final_page.completed = Completion::CompletedFail;
            complain(
                &mut state.setup.final_page.messages,
                cat2("Couldn't create OpenVTC account. Reason: ", e.as_str()),
            );
        },
    }
}

/// The wizard hands out a configuration only if one was made, and then that one.
pub proof fn law_wizard_hands_out_what_was_made(
    old: State,
    new: State,
    was: Option<Config>,
    is: Option<Config>,
    action: Action,
    config: Box<Config>,
)
    requires
        setup_stepped(
            old,
            new,
            was,
            is,
            action,
            SetupStep::Leave(SetupWizardExit::Config(config)),
        ),
    ensures
        was == Some(*config),
        action is ActivateMainMenu,
{
}

/// Once the wizard comes to its final page, no exported private key is left in
/// its state.
pub proof fn law_exported_keys_are_dropped(
    old: State,
    new: State,
    was: Option<Config>,
    is: Option<Config>,
    step: SetupStep,
)
    requires
        setup_stepped(old, new, was, is, Action::SetupCompleted, step),
    ensures
        new.setup.did_keys_export.exported is None,
{
}

/// What is entered in the wizard is what is set up: the protection, the keys, the
/// mediator and the name each go to their own place, and nowhere else.
pub proof fn law_wizard_keeps_what_is_entered(
    state: &mut State,
    config: &mut Option<Config>,
    action: Action,
    step: SetupStep,
)
    requires
        call_ensures(handle_setup_action, (state, config, action), step),
    ensures
        action matches Action::SetProtection(p, page) ==> final(state).setup.protection == p
            && final(state).setup.active_page == page,
        action matches Action::SetDIDKeys(keys) ==> final(state).setup.did_keys == Some(*keys),
        action matches Action::SetCustomMediator(did) ==> final(state).setup.custom_mediator
            == Some(did),
        action matches Action::SetUsername(name) ==> final(state).setup.username == name,
        action !is SetProtection ==> final(state).setup.protection == old(state).setup.protection,
        action !is SetDIDKeys ==> final(state).setup.did_keys == old(state).setup.did_keys,
        action !is SetCustomMediator ==> final(state).setup.custom_mediator == old(state).setup.custom_mediator,
        action !is SetUsername ==> final(state).setup.username == old(state).setup.username,
        action is SetupCompleted ==> step is CreateAccount,
        step is CreateAccount ==> action is SetupCompleted,
        action is SetCustomMediator && old(state).setup.vta.use_webvh_server ==> step is HostDid,
        action matches Action::ImportConfig(file, old_pass, new_pass) ==> step == (
        SetupStep::Import { file, import_passphrase: old_pass, new_passphrase: new_pass }),
        action !is ActivateMainMenu ==> *final(config) == *old(config),
        final(state).setup.vta == old(state).setup.vta,
{
}

/// Leaving the wizard for the main page hands out the configuration that it made,
/// once; without one it stays.
pub proof fn law_wizard_hands_out_once(
    state: &mut State,
    config: &mut Option<Config>,
    step: SetupStep,
)
    requires
        call_ensures(handle_setup_action, (state, config, Action::ActivateMainMenu), step),
    ensures
        *old(config) is Some ==> step == SetupStep::Leave(
            SetupWizardExit::Config(Box::new((*old(config))->0)),
        ),
        *old(config) is None ==> step is Stay,
        *final(config) is None,
        final(state).active_page is Main,
{
}

/// An account that was made is the one that the wizard hands out next; one that
/// was not made leaves what there was, and the page says which of the two.
pub proof fn law_made_account_is_kept(
    state: &mut State,
    config: &mut Option<Config>,
    result: Result<Config, String>,
)
    requires
        call_ensures(account_finished, (state, config, result), ()),
    ensures
        result matches Ok(made) ==> *final(config) == Some(made),
        result is Err ==> *final(config) == *old(config),
        final(state).setup.final_page.completed is CompletedOK <==> result is Ok,
        messages_view(final(state).setup.final_page.messages@).last() is Error <==> result is Err,
{
}

/// The import page shows whether the import went well.
pub proof fn law_import_shows_its_result(state: &mut State, result: Result<(), String>)
    requires
        call_ensures(import_finished, (state, result), ()),
    ensures
        final(state).setup.config_import.completed is CompletedOK <==> result is Ok,
        messages_view(final(state).setup.config_import.messages@).last() is Error <==> result
            is Err,
{
}

} // verus!
