//! What the user interface asks for.

use crate::launch::Interrupted;
use crate::main_page::MainPanel;
use crate::menu::MainMenu;
use crate::setup::{ConfigProtection, PersonaDIDKeys, SetupPage, WebvhPathMode};
use vstd::prelude::*;

verus! {

/// What is asked for on the inbox panel.
#[derive(Clone, Debug)]
pub enum InboxAction {
    SelectTask(usize),
    OpenDetail(usize),
    AcceptRelationship { task_id: String, generate_r_did: bool },
    RejectRelationship { task_id: String, reason: Option<String> },
    AcceptVrc { task_id: String },
    AcceptVrcRequest { task_id: String },
    RejectVrcRequest { task_id: String, reason: Option<String> },
    DismissTask { task_id: String },
    ClearAll,
    /// Ask for a confirmation before a task is dismissed.
    ConfirmDismiss { task_id: String },
    /// Ask for a confirmation before the inbox is emptied.
    ConfirmClearAll,
    /// The confirmation was declined.
    CancelConfirm,
    Back,
}

/// What is asked for on the relationships panel.
#[derive(Clone, Debug)]
pub enum RelationshipAction {
    Select(usize),
    OpenDetail(usize),
    StartNewRequest,
    SubmitRequest { did: String, alias: String, reason: Option<String>, generate_r_did: bool },
    CancelNewRequest,
    Ping { remote_p_did: String },
    Remove { remote_p_did: String },
    /// Ask for a confirmation before a relationship is removed.
    ConfirmRemove { remote_p_did: String },
    /// The confirmation was declined.
    CancelRemove,
    Back,
    InputUpdate { field: usize, value: String },
    ToggleRDid,
    /// Move to a field of the form.
    FocusField(usize),
    StartEditAlias { index: usize, current_alias: String },
    EditAliasUpdate(String),
    EditAlias { remote_p_did: String, alias: String },
    CancelEditAlias { index: usize },
    RequestVrc { remote_p_did: String },
}

/// What is asked for on the credentials panel.
#[derive(Clone, Debug)]
pub enum CredentialAction {
    SwitchTab,
    Select(usize),
    OpenDetail(usize),
    Back,
    StartNewRequest,
    SelectRelationship(usize),
    SubmitRequest { relationship_p_did: String, reason: Option<String> },
    CancelNewRequest,
    ReasonUpdate(String),
    Remove { vrc_id: String },
    /// Ask for a confirmation before a credential is removed.
    ConfirmRemove { vrc_id: String },
    /// The confirmation was declined.
    CancelRemove,
}

/// What is asked for on the settings panel.
#[derive(Clone)]
pub enum SettingsAction {
    Select(usize),
    StartEdit,
    FieldUpdate(String),
    FormFieldUpdate { field: usize, value: String },
    FormTabSwitch,
    ProtectionOptionSelect(usize),
    ProtectionStartInput,
    ProtectionPassphraseLen(usize),
    ProtectionConfirmLen(usize),
    ProtectionTabSwitch(usize),
    PassphraseLen(usize),
    SubmitEdit { value: String },
    CancelEdit,
    ExportConfig { path: String, passphrase: String },
    ImportConfig { path: String, passphrase: String },
    ChangeProtection,
    SetPassphrase { passphrase: String },
    RemovePassphrase,
    ReconnectMediator,
    /// Open the dialog that confirms wiping the profile.
    WipeProfileStart,
    /// What was typed into that dialog so far.
    WipeProfileInput(String),
    /// Wipe the profile.
    WipeProfileConfirm,
    TokenManagement,
    TokenDetect,
    TokenFactoryReset,
    TokenBack,
    /// What came of a copy to the clipboard.
    ClipboardCopied(String),
}

/// What is asked for.
#[derive(Clone)]
pub enum Action {
    Exit,
    /// The user interface failed for good.
    UXError(Interrupted),
    /// Go to the main page.
    ActivateMainMenu,
    MainMenuSelected(MainMenu),
    MainPanelSwitch(MainPanel),
    Inbox(InboxAction),
    Relationship(RelationshipAction),
    Credential(CredentialAction),
    Settings(SettingsAction),
    /// Leave the loading screen.
    DismissLoading,
    /// Join a community.
    StartJoin,
    /// The DID of the community to join was entered.
    JoinSubmitVtc(String),
    /// An invitation was pasted.
    JoinPasteVic(String),
    JoinIdentitySelect(usize),
    JoinIdentityChoose,
    /// Present the chosen identity to one more community.
    JoinReuseConfirm,
    JoinReuseCancel,
    JoinCancel,
    CommunitySelect(usize),
    CommunityConfirmDelete(usize),
    CommunityCancelDelete,
    DeleteCommunity(usize),
    CommunityConfirmLeave(usize),
    CommunityCancelLeave,
    LeaveCommunity(usize),
    CommunityConfirmWithdraw(usize),
    CommunityCancelWithdraw,
    WithdrawJoin(usize),
    SetActiveCommunity(usize),
    ToggleFavourite(usize),
    AcknowledgeCommunity(usize),
    ArchiveCommunity(usize),
    ToggleShowArchived,
    OpenCommunitySwitcher,
    CommunitySwitcherMove(usize),
    CommunitySwitcherSelect,
    CloseCommunitySwitcher,
    DidSelect(usize),
    DidConfirmDelete(usize),
    DidCancelDelete,
    /// Delete the identity at this row, which no community is bound to.
    DeleteDid(usize),
    /// File, the passphrase that opens it, and the passphrase for the new
    /// profile.
    ImportConfig(String, String, String),
    /// How the configuration is protected, and the page to go to.
    SetProtection(ConfigProtection, SetupPage),
    SetDIDKeys(Box<PersonaDIDKeys>),
    /// Export the keys of the persona under a name, locked by a passphrase.
    ExportDIDKeys { username: String, passphrase: String },
    DidGitSignInstall,
    VtaSubmitDid(String),
    /// The access was granted; provision under this context.
    VtaStartProvision(String),
    VtaCreateKeys,
    GetTokens,
    /// Token and its PIN.
    SetAdminPin(String, String),
    SetTouchPolicy,
    SetTokenName(String),
    FactoryReset,
    TokenWriteKeys,
    /// Server, and where on it the DID is to stand.
    WebvhServerCreateDid(String, WebvhPathMode),
    SetCustomMediator(String),
    SetUsername(String),
    CreateWebVHDID(String),
    ResetWebVHDID,
    ResolveWebVHDID(String),
    SetupCompleted,
}

} // verus!
