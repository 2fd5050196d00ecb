//! State of the setup wizard.

use crate::ledger::KeySource;
use vstd::prelude::*;

verus! {

// ---------------------------------------------------------------------------
// Messages and outcomes
// ---------------------------------------------------------------------------

/// A message from the back end to a page.
#[derive(Clone, Debug)]
pub enum MessageType {
    Info(String),
    Error(String),
}

/// What a message says.
pub enum MessageView {
    Info(Seq<char>),
    Error(Seq<char>),
}

impl View for MessageType {
    type V = MessageView;

    open spec fn view(&self) -> MessageView {
        match *self {
            MessageType::Info(s) => MessageView::Info(s@),
            MessageType::Error(s) => MessageView::Error(s@),
        }
    }
}

/// What a list of messages says.
pub open spec fn messages_view(s: Seq<MessageType>) -> Seq<MessageView> {
    s.map_values(|m: MessageType| m@)
}

/// Adds an information.
pub fn inform(messages: &mut Vec<MessageType>, text: String)
    ensures
        final(messages)@ == old(messages)@.push(MessageType::Info(text)),
        messages_view(final(messages)@) == messages_view(old(messages)@).push(
            MessageView::Info(text@),
        ),
{
    messages.push(MessageType::Info(text));
    assert(messages_view(messages@) =~= messages_view(old(messages)@).push(
        MessageView::Info(text@),
    ));
}

/// Adds an error.
pub fn complain(messages: &mut Vec<MessageType>, text: String)
    ensures
        final(messages)@ == old(messages)@.push(MessageType::Error(text)),
        messages_view(final(messages)@) == messages_view(old(messages)@).push(
            MessageView::Error(text@),
        ),
{
    messages.push(MessageType::Error(text));
    assert(messages_view(messages@) =~= messages_view(old(messages)@).push(
        MessageView::Error(text@),
    ));
}

/// How far a task has come.
#[derive(Clone, Copy, Debug, PartialEq, Eq, Structural)]
pub enum Completion {
    NotFinished,
    CompletedOK,
    CompletedFail,
}

impl Default for Completion {
    fn default() -> (r: Self)
        ensures
            r is NotFinished,
    {
        Completion::NotFinished
    }
}

// ---------------------------------------------------------------------------
// Keys
// ---------------------------------------------------------------------------

/// Key material under the id of its verification method.
#[derive(Clone)]
pub struct KeyMaterial {
    pub id: String,
    pub public_bytes: Vec<u8>,
    pub private_key_mb: String,
}

/// A key with its origin.
#[derive(Clone)]
pub struct KeyInfo {
    pub secret: KeyMaterial,
    pub source: KeySource,
    pub expiry: Option<i64>,
    pub created: i64,
}

/// The three keys of a persona.
#[derive(Clone)]
pub struct PersonaDIDKeys {
    pub signing: KeyInfo,
    pub authentication: KeyInfo,
    pub decryption: KeyInfo,
}

// ---------------------------------------------------------------------------
// The VTA
// ---------------------------------------------------------------------------

/// How the VTA is reached.
#[derive(Clone, Copy, Debug, PartialEq, Eq, Structural)]
pub enum Protocol {
    DidComm,
    Rest,
}

/// The DID that the operator authorises at the VTA.
#[derive(Clone)]
pub struct SetupKey {
    pub did: String,
    pub private_key_mb: String,
}

/// The credential that the VTA issued to the account.
#[derive(Clone)]
pub struct AdminCredential {
    pub admin_did: String,
    pub admin_private_key_mb: String,
}

/// A server that hosts DIDs.
#[derive(Clone, Debug)]
pub struct WebvhServer {
    pub id: String,
    pub label: Option<String>,
}

/// Where on its server a DID stands.
#[derive(Clone, Debug)]
pub enum WebvhPathMode {
    /// At the root of the server.
    WellKnown,
    /// Under this label.
    Explicit(String),
    /// Wherever the server puts it.
    AutoAssign,
}

/// State of the VTA pages.
#[derive(Clone)]
pub struct VtaSetupState {
    pub vta_url: String,
    pub vta_did: String,
    pub credential_did: String,
    pub authenticated: bool,
    pub access_token: Option<String>,
    pub messages: Vec<MessageType>,
    pub completed: Completion,
    pub context_id: Option<String>,
    pub update_secret: Option<KeyMaterial>,
    pub next_update_secret: Option<KeyMaterial>,
    /// Servers that this VTA offers.
    pub webvh_servers: Vec<WebvhServer>,
    /// Whether such a server hosts the DID.
    pub use_webvh_server: bool,
    pub setup_key: Option<SetupKey>,
    /// Lines of the connection test.
    pub diagnostics: Vec<String>,
    pub admin_credential: Option<AdminCredential>,
    /// Transport that the bootstrap used.
    pub protocol: Option<Protocol>,
    pub mediator_did: Option<String>,
}

impl VtaSetupState {
    /// The state before anything was entered.
    pub open spec fn fresh(self) -> bool {
        &&& self.vta_url@.len() == 0
        &&& self.vta_did@.len() == 0
        &&& self.credential_did@.len() == 0
        &&& !self.authenticated
        &&& self.access_token is None
        &&& self.messages@.len() == 0
        &&& self.completed is NotFinished
        &&& self.context_id is None
        &&& self.update_secret is None
        &&& self.next_update_secret is None
        &&& self.webvh_servers@.len() == 0
        &&& !self.use_webvh_server
        &&& self.setup_key is None
        &&& self.diagnostics@.len() == 0
        &&& self.admin_credential is None
        &&& self.protocol is None
        &&& self.mediator_did is None
    }
}

impl Default for VtaSetupState {
    fn default() -> (r: Self)
        ensures
            r.fresh(),
    {
        VtaSetupState {
            vta_url: String::new(),
            vta_did: String::new(),
            credential_did: String::new(),
            authenticated: false,
            access_token: None,
            messages: Vec::new(),
            completed: Completion::NotFinished,
            context_id: None,
            update_secret: None,
            next_update_secret: None,
            webvh_servers: Vec::new(),
            use_webvh_server: false,
            setup_key: None,
            diagnostics: Vec::new(),
            admin_credential: None,
            protocol: None,
            mediator_did: None,
        }
    }
}

// ---------------------------------------------------------------------------
// Pages
// ---------------------------------------------------------------------------

/// The pages of the wizard.
#[derive(Clone, Copy, Debug, PartialEq, Eq, Structural)]
pub enum SetupPage {
    StartAsk,
    /// Importing a backup.
    ConfigImport,
    /// Entering the VTA's DID.
    VtaEnterDid,
    /// Waiting for the operator to authorise the setup key.
    VtaAclInstructions,
    /// Connection test.
    VtaProvisioning,
    VtaKeysFetch,
    DIDKeysShow,
    DidKeysExportAsk,
    DidKeysExportInputs,
    DidKeysExportShow,
    /// Whether to configure git signing.
    DidGitSignAsk,
    /// Configuring git signing.
    DidGitSignSetup,
    TokenStart,
    TokenSelect,
    TokenFactoryReset,
    TokenSetTouch,
    TokenSetCardholderName,
    UnlockCodeAsk,
    UnlockCodeSet,
    UnlockCodeWarn,
    MediatorAsk,
    MediatorCustom,
    WebvhServerSelect,
    WebvhServerProgress,
    UserName,
    WebVHAddress,
    FinalPage,
}

impl Default for SetupPage {
    fn default() -> (r: Self)
        ensures
            r is StartAsk,
    {
        SetupPage::StartAsk
    }
}

/// How the configuration is to be protected.
#[derive(Clone)]
pub enum ConfigProtection {
    PlainText,
    /// By the hardware token with this id.
    Token(String),
    /// By the key derived from a passcode.
    Passcode(Vec<u8>),
}

impl Default for ConfigProtection {
    fn default() -> (r: Self)
        ensures
            r is PlainText,
    {
        ConfigProtection::PlainText
    }
}

/// State of the import page.
#[derive(Clone, Debug)]
pub struct ConfigImport {
    pub completed: Completion,
    pub messages: Vec<MessageType>,
}

impl Default for ConfigImport {
    fn default() -> (r: Self)
        ensures
            r.completed is NotFinished,
            r.messages@.len() == 0,
    {
        ConfigImport { completed: Completion::NotFinished, messages: Vec::new() }
    }
}

/// State of the git-signing page.
#[derive(Clone, Debug)]
pub struct DidGitSignSetupState {
    pub completed: Completion,
    pub messages: Vec<MessageType>,
    pub config_path: Option<String>,
    pub ssh_public_key: Option<String>,
    /// The global signing key that the install shadows, if there is one.
    pub overridden_global_signing_key: Option<String>,
}

impl DidGitSignSetupState {
    /// The state before an install.
    pub open spec fn fresh(self) -> bool {
        &&& self.completed is NotFinished
        &&& self.messages@.len() == 0
        &&& self.config_path is None
        &&& self.ssh_public_key is None
        &&& self.overridden_global_signing_key is None
    }
}

impl Default for DidGitSignSetupState {
    fn default() -> (r: Self)
        ensures
            r.fresh(),
    {
        DidGitSignSetupState {
            completed: Completion::NotFinished,
            messages: Vec::new(),
            config_path: None,
            ssh_public_key: None,
            overridden_global_signing_key: None,
        }
    }
}

/// The hardware tokens at hand.
#[derive(Clone, Debug)]
pub struct DetectedTokens {
    /// The ids of the tokens.
    pub tokens: Vec<String>,
    pub messages: Vec<String>,
}

impl Default for DetectedTokens {
    fn default() -> (r: Self)
        ensures
            r.tokens@.len() == 0,
            r.messages@.len() == 0,
    {
        DetectedTokens { tokens: Vec::new(), messages: Vec::new() }
    }
}

/// State of resetting a token and writing keys to it.
#[derive(Clone, Debug)]
pub struct FactoryResetToken {
    pub completed_reset: bool,
    pub completed_writing: bool,
    pub messages: Vec<MessageType>,
}

impl Default for FactoryResetToken {
    fn default() -> (r: Self)
        ensures
            !r.completed_reset,
            !r.completed_writing,
            r.messages@.len() == 0,
    {
        FactoryResetToken {
            completed_reset: false,
            completed_writing: false,
            messages: Vec::new(),
        }
    }
}

/// State of setting when a token is to be touched.
#[derive(Clone, Debug)]
pub struct TokenSetTouchPolicy {
    pub completed: bool,
    pub messages: Vec<MessageType>,
}

impl Default for TokenSetTouchPolicy {
    fn default() -> (r: Self)
        ensures
            !r.completed,
            r.messages@.len() == 0,
    {
        TokenSetTouchPolicy { completed: false, messages: Vec::new() }
    }
}

/// State of writing the holder's name to a token.
#[derive(Clone, Debug)]
pub struct TokenSetCardholderName {
    pub completed: bool,
    pub messages: Vec<MessageType>,
}

impl Default for TokenSetCardholderName {
    fn default() -> (r: Self)
        ensures
            !r.completed,
            r.messages@.len() == 0,
    {
        TokenSetCardholderName { completed: false, messages: Vec::new() }
    }
}

/// State of the key export pages.
#[derive(Clone)]
pub struct DIDKeysExportState {
    pub messages: Vec<String>,
    /// The armored private keys.
    pub exported: Option<String>,
}

impl Default for DIDKeysExportState {
    fn default() -> (r: Self)
        ensures
            r.messages@.len() == 0,
            r.exported is None,
    {
        DIDKeysExportState { messages: Vec::new(), exported: None }
    }
}

/// State of creating a DID on a server.
#[derive(Clone, Debug)]
pub struct WebvhServerState {
    pub completed: Completion,
    pub messages: Vec<MessageType>,
    pub selected_server_id: String,
    pub path_mode: WebvhPathMode,
    pub did: String,
    /// The DID document, as JSON text.
    pub document: String,
    pub mnemonic: String,
}

impl WebvhServerState {
    /// The state before a server was chosen.
    pub open spec fn fresh(self) -> bool {
        &&& self.completed is NotFinished
        &&& self.messages@.len() == 0
        &&& self.selected_server_id@.len() == 0
        &&& self.path_mode is AutoAssign
        &&& self.did@.len() == 0
        &&& self.document@.len() == 0
        &&& self.mnemonic@.len() == 0
    }
}

impl Default for WebvhServerState {
    fn default() -> (r: Self)
        ensures
            r.fresh(),
    {
        WebvhServerState {
            completed: Completion::NotFinished,
            messages: Vec::new(),
            selected_server_id: String::new(),
            path_mode: WebvhPathMode::AutoAssign,
            did: String::new(),
            document: String::new(),
            mnemonic: String::new(),
        }
    }
}

/// The DID of the persona being set up.
#[derive(Clone, Debug)]
pub struct WebVHAddress {
    pub completed: Completion,
    pub messages: Vec<MessageType>,
    pub did: String,
    /// The DID document, as JSON text.
    pub document: String,
}

impl WebVHAddress {
    /// The state before there is a DID.
    pub open spec fn fresh(self) -> bool {
        &&& self.completed is NotFinished
        &&& self.messages@.len() == 0
        &&& self.did@.len() == 0
        &&& self.document@.len() == 0
    }
}

impl Default for WebVHAddress {
    fn default() -> (r: Self)
        ensures
            r.fresh(),
    {
        WebVHAddress {
            completed: Completion::NotFinished,
            messages: Vec::new(),
            did: String::new(),
            document: String::new(),
        }
    }
}

/// State of the final page.
#[derive(Clone, Debug)]
pub struct FinalSetupPage {
    pub completed: Completion,
    pub messages: Vec<MessageType>,
}

impl Default for FinalSetupPage {
    fn default() -> (r: Self)
        ensures
            r.completed is NotFinished,
            r.messages@.len() == 0,
    {
        FinalSetupPage { completed: Completion::NotFinished, messages: Vec::new() }
    }
}

/// State of the setup wizard.
#[derive(Clone)]
pub struct SetupState {
    pub active_page: SetupPage,
    pub config_import: ConfigImport,
    pub vta: VtaSetupState,
    pub did_git_sign: DidGitSignSetupState,
    pub did_keys: Option<PersonaDIDKeys>,
    pub did_keys_export: DIDKeysExportState,
    pub tokens: DetectedTokens,
    pub token_reset: FactoryResetToken,
    pub token_set_touch: TokenSetTouchPolicy,
    pub token_cardholder_name: TokenSetCardholderName,
    pub protection: ConfigProtection,
    pub webvh_server: WebvhServerState,
    /// Mediator chosen instead of the public one.
    pub custom_mediator: Option<String>,
    pub username: String,
    pub webvh_address: WebVHAddress,
    pub final_page: FinalSetupPage,
}

impl SetupState {
    /// The state before anything was entered.
    pub open spec fn fresh(self) -> bool {
        &&& self.active_page is StartAsk
        &&& self.config_import.completed is NotFinished
        &&& self.config_import.messages@.len() == 0
        &&& self.vta.fresh()
        &&& self.did_git_sign.fresh()
        &&& self.did_keys is None
        &&& self.did_keys_export.messages@.len() == 0
        &&& self.did_keys_export.exported is None
        &&& self.tokens.tokens@.len() == 0
        &&& self.tokens.messages@.len() == 0
        &&& !self.token_reset.completed_reset
        &&& !self.token_reset.completed_writing
        &&& self.token_reset.messages@.len() == 0
        &&& !self.token_set_touch.completed
        &&& self.token_set_touch.messages@.len() == 0
        &&& !self.token_cardholder_name.completed
        &&& self.token_cardholder_name.messages@.len() == 0
        &&& self.protection is PlainText
        &&& self.webvh_server.fresh()
        &&& self.custom_mediator is None
        &&& self.username@.len() == 0
        &&& self.webvh_address.fresh()
        &&& self.final_page.completed is NotFinished
        &&& self.final_page.messages@.len() == 0
    }
}

impl Default for SetupState {
    fn default() -> (r: Self)
        ensures
            r.fresh(),
    {
        SetupState {
            active_page: SetupPage::StartAsk,
            config_import: ConfigImport::default(),
            vta: VtaSetupState::default(),
            did_git_sign: DidGitSignSetupState::default(),
            did_keys: None,
            did_keys_export: DIDKeysExportState::default(),
            tokens: DetectedTokens::default(),
            token_reset: FactoryResetToken::default(),
            token_set_touch: TokenSetTouchPolicy::default(),
            token_cardholder_name: TokenSetCardholderName::default(),
            protection: ConfigProtection::PlainText,
            webvh_server: WebvhServerState::default(),
            custom_mediator: None,
            username: String::new(),
            webvh_address: WebVHAddress::default(),
            final_page: FinalSetupPage::default(),
        }
    }
}

} // verus!
