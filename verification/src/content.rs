//! State of the panels on the right side of the main page.

use crate::text::{opt_view, texts_view};
use vstd::prelude::*;

verus! {

// ---------------------------------------------------------------------------
// Communities
// ---------------------------------------------------------------------------

/// State of the communities overview: the account's memberships in display
/// order.
#[derive(Clone, Debug)]
pub struct CommunitiesState {
    /// Display summaries, in display order.
    pub items: Vec<CommunitySummary>,
    /// Selected row.
    pub selected_index: usize,
    /// How many communities raise the actions-required indicator.
    pub actions_required: usize,
    /// Transient status message.
    pub status_message: Option<String>,
    /// Row whose removal awaits confirmation.
    pub confirm_delete: Option<usize>,
    /// Row whose leaving awaits confirmation.
    pub confirm_leave: Option<usize>,
    /// Row whose join request is to be withdrawn, awaiting confirmation.
    pub confirm_withdraw: Option<usize>,
    /// Whether archived records are listed.
    pub show_archived: bool,
}

impl CommunitiesState {
    /// The state before anything was shown.
    pub open spec fn fresh(self) -> bool {
        &&& self.items@.len() == 0
        &&& self.selected_index == 0
        &&& self.actions_required == 0
        &&& self.status_message is None
        &&& self.confirm_delete is None
        &&& self.confirm_leave is None
        &&& self.confirm_withdraw is None
        &&& !self.show_archived
    }
}

impl Default for CommunitiesState {
    fn default() -> (r: Self)
        ensures
            r.fresh(),
    {
        CommunitiesState {
            items: Vec::new(),
            selected_index: 0,
            actions_required: 0,
            status_message: None,
            confirm_delete: None,
            confirm_leave: None,
            confirm_withdraw: None,
            show_archived: false,
        }
    }
}

/// Display summary of a membership.
#[derive(Clone, Debug)]
pub struct CommunitySummary {
    /// Display name, or the community's DID when unnamed.
    pub display_name: String,
    /// Human-readable membership status.
    pub status_label: String,
    /// Label of the persona presented to the community.
    pub persona_label: String,
    /// Member-since date; empty before admission.
    pub member_since: String,
    /// Whether the user has starred it.
    pub favourite: bool,
    /// Whether it raises the actions-required indicator.
    pub needs_attention: bool,
    /// DID of the persona; empty when the reference dangles.
    pub persona_did: String,
    /// The community's DID.
    pub vtc_did: String,
    /// The per-community sub-context.
    pub sub_context_id: String,
    /// The join request while pending; empty otherwise.
    pub request_id: String,
    /// Whether the membership credential is stored.
    pub has_membership_credential: bool,
    /// Whether the role credential is stored.
    pub has_role_credential: bool,
}

/// What a community summary shows.
pub struct CommunityLine {
    pub display_name: Seq<char>,
    pub status_label: Seq<char>,
    pub persona_label: Seq<char>,
    pub member_since: Seq<char>,
    pub favourite: bool,
    pub needs_attention: bool,
    pub persona_did: Seq<char>,
    pub vtc_did: Seq<char>,
    pub sub_context_id: Seq<char>,
    pub request_id: Seq<char>,
    pub has_membership_credential: bool,
    pub has_role_credential: bool,
}

impl View for CommunitySummary {
    type V = CommunityLine;

    open spec fn view(&self) -> CommunityLine {
        CommunityLine {
            display_name: self.display_name@,
            status_label: self.status_label@,
            persona_label: self.persona_label@,
            member_since: self.member_since@,
            favourite: self.favourite,
            needs_attention: self.needs_attention,
            persona_did: self.persona_did@,
            vtc_did: self.vtc_did@,
            sub_context_id: self.sub_context_id@,
            request_id: self.request_id@,
            has_membership_credential: self.has_membership_credential,
            has_role_credential: self.has_role_credential,
        }
    }
}

/// One entry of the community switcher.
#[derive(Clone, Debug)]
pub struct SwitcherItem {
    pub vtc_did: String,
    pub display_name: String,
    pub is_current: bool,
}

/// The community switcher overlay.
#[derive(Clone, Debug)]
pub struct CommunitySwitcherState {
    pub items: Vec<SwitcherItem>,
    pub selected: usize,
}

// ---------------------------------------------------------------------------
// VTA
// ---------------------------------------------------------------------------

/// State of the VTA service panel.
#[derive(Clone, Debug)]
pub struct VtaState {
    pub profile: String,
    pub context_name: Option<String>,
    pub persona_did: String,
    pub mediator_did: String,
    pub vta_url: String,
    pub vta_did: String,
    pub credential_did: String,
    pub key_count: usize,
    pub persona_key_count: usize,
    pub relationship_key_count: usize,
    pub is_vta_managed: bool,
    pub active_dids: Vec<ActiveDid>,
    pub context_dids: Vec<ManagedDid>,
    /// Selected row of the DID manager.
    pub did_selected_index: usize,
    /// Row whose deletion awaits confirmation.
    pub confirm_delete_did: Option<usize>,
}

impl VtaState {
    /// The state before anything was shown.
    pub open spec fn fresh(self) -> bool {
        &&& self.profile@.len() == 0
        &&& self.context_name is None
        &&& self.persona_did@.len() == 0
        &&& self.mediator_did@.len() == 0
        &&& self.vta_url@.len() == 0
        &&& self.vta_did@.len() == 0
        &&& self.credential_did@.len() == 0
        &&& self.key_count == 0
        &&& self.persona_key_count == 0
        &&& self.relationship_key_count == 0
        &&& !self.is_vta_managed
        &&& self.active_dids@.len() == 0
        &&& self.context_dids@.len() == 0
        &&& self.did_selected_index == 0
        &&& self.confirm_delete_did is None
    }
}

impl Default for VtaState {
    fn default() -> (r: Self)
        ensures
            r.fresh(),
    {
        VtaState {
            profile: String::new(),
            context_name: None,
            persona_did: String::new(),
            mediator_did: String::new(),
            vta_url: String::new(),
            vta_did: String::new(),
            credential_did: String::new(),
            key_count: 0,
            persona_key_count: 0,
            relationship_key_count: 0,
            is_vta_managed: false,
            active_dids: Vec::new(),
            context_dids: Vec::new(),
            did_selected_index: 0,
            confirm_delete_did: None,
        }
    }
}

/// A persona DID of the account, for the DID manager. One that no community is
/// bound to is an orphan.
#[derive(Clone, Debug)]
pub struct ManagedDid {
    pub did: String,
    pub label: String,
    pub bound_communities: usize,
    pub is_active: bool,
}

impl Default for ManagedDid {
    fn default() -> (r: Self)
        ensures
            r@ == (ManagedLine {
                did: Seq::empty(),
                label: Seq::empty(),
                bound_communities: 0,
                is_active: false,
            }),
    {
        ManagedDid {
            did: String::new(),
            label: String::new(),
            bound_communities: 0,
            is_active: false,
        }
    }
}

/// What an entry of the DID manager shows.
pub struct ManagedLine {
    pub did: Seq<char>,
    pub label: Seq<char>,
    pub bound_communities: nat,
    pub is_active: bool,
}

impl View for ManagedDid {
    type V = ManagedLine;

    open spec fn view(&self) -> ManagedLine {
        ManagedLine {
            did: self.did@,
            label: self.label@,
            bound_communities: self.bound_communities as nat,
            is_active: self.is_active,
        }
    }
}

/// A DID in active use.
#[derive(Clone, Debug)]
pub struct ActiveDid {
    pub did: String,
    pub label: String,
}

impl Default for ActiveDid {
    fn default() -> (r: Self)
        ensures
            r@ == (Seq::<char>::empty(), Seq::<char>::empty()),
    {
        ActiveDid { did: String::new(), label: String::new() }
    }
}

impl View for ActiveDid {
    type V = (Seq<char>, Seq<char>);

    open spec fn view(&self) -> (Seq<char>, Seq<char>) {
        (self.did@, self.label@)
    }
}

// ---------------------------------------------------------------------------
// Inbox
// ---------------------------------------------------------------------------

/// A removal in the inbox that awaits confirmation.
#[derive(Clone, Debug)]
pub enum InboxConfirm {
    Dismiss { task_id: String },
    ClearAll,
}

/// State of the inbox panel.
#[derive(Clone, Debug)]
pub struct InboxState {
    pub tasks: Vec<TaskSummary>,
    pub selected_index: usize,
    pub active_task: Option<ActiveTaskView>,
    pub status_message: Option<String>,
    pub confirm: Option<InboxConfirm>,
}

impl InboxState {
    /// The state before anything was shown.
    pub open spec fn fresh(self) -> bool {
        &&& self.tasks@.len() == 0
        &&& self.selected_index == 0
        &&& self.active_task is None
        &&& self.status_message is None
        &&& self.confirm is None
    }
}

impl Default for InboxState {
    fn default() -> (r: Self)
        ensures
            r.fresh(),
    {
        InboxState {
            tasks: Vec::new(),
            selected_index: 0,
            active_task: None,
            status_message: None,
            confirm: None,
        }
    }
}

/// Display summary of a task.
#[derive(Clone, Debug)]
pub struct TaskSummary {
    pub id: String,
    pub type_display: String,
    pub kind: TaskKind,
    pub remote_did: String,
    pub created: String,
}

/// What a task summary shows.
pub struct TaskLine {
    pub id: Seq<char>,
    pub type_display: Seq<char>,
    pub kind: KindView,
    pub remote_did: Seq<char>,
    pub created: Seq<char>,
}

impl View for TaskSummary {
    type V = TaskLine;

    open spec fn view(&self) -> TaskLine {
        TaskLine {
            id: self.id@,
            type_display: self.type_display@,
            kind: self.kind@,
            remote_did: self.remote_did@,
            created: self.created@,
        }
    }
}

/// What a task is, for rendering and for the actions offered on it.
#[derive(Clone, Debug)]
pub enum TaskKind {
    /// Inbound relationship request awaiting accept or reject.
    RelationshipRequestInbound {
        from_did: String,
        their_did: String,
        reason: Option<String>,
        name: Option<String>,
    },
    /// Outbound relationship request awaiting an answer.
    RelationshipRequestOutbound { our_did: String },
    /// Inbound credential request awaiting accept or reject.
    VRCRequestInbound { reason: Option<String> },
    /// Outbound credential request awaiting an answer.
    VRCRequestOutbound,
    /// A credential was issued to us.
    VRCIssued,
    /// Trust ping awaiting its pong.
    TrustPing,
    /// For information only.
    Informational(String),
}

/// What a task kind carries.
pub enum KindView {
    RelationshipRequestInbound {
        from_did: Seq<char>,
        their_did: Seq<char>,
        reason: Option<Seq<char>>,
        name: Option<Seq<char>>,
    },
    RelationshipRequestOutbound { our_did: Seq<char> },
    VRCRequestInbound { reason: Option<Seq<char>> },
    VRCRequestOutbound,
    VRCIssued,
    TrustPing,
    Informational(Seq<char>),
}

impl View for TaskKind {
    type V = KindView;

    open spec fn view(&self) -> KindView {
        match *self {
            TaskKind::RelationshipRequestInbound { from_did, their_did, reason, name } =>
                KindView::RelationshipRequestInbound {
                from_did: from_did@,
                their_did: their_did@,
                reason: opt_view(reason),
                name: opt_view(name),
            },
            TaskKind::RelationshipRequestOutbound { our_did } =>
                KindView::RelationshipRequestOutbound { our_did: our_did@ },
            TaskKind::VRCRequestInbound { reason } => KindView::VRCRequestInbound {
                reason: opt_view(reason),
            },
            TaskKind::VRCRequestOutbound => KindView::VRCRequestOutbound,
            TaskKind::VRCIssued => KindView::VRCIssued,
            TaskKind::TrustPing => KindView::TrustPing,
            TaskKind::Informational(s) => KindView::Informational(s@),
        }
    }
}

/// Detailed view of one task.
#[derive(Clone, Debug)]
pub enum ActiveTaskView {
    RelationshipRequestInbound {
        task_id: String,
        from_did: String,
        their_did: String,
        reason: Option<String>,
        name: Option<String>,
    },
    RelationshipRequestOutbound {
        task_id: String,
        to_did: String,
        our_did: String,
        state: String,
    },
    VRCRequestInbound { task_id: String, from_did: String, reason: Option<String> },
    VRCRequestOutbound { task_id: String, remote_did: String },
    VRCIssued { task_id: String, issuer: String },
    Info { task_id: String, type_display: String, remote_did: String },
}

// ---------------------------------------------------------------------------
// Relationships
// ---------------------------------------------------------------------------

/// State of the relationships panel.
#[derive(Clone, Debug)]
pub struct RelationshipsState {
    pub relationships: Vec<RelationshipSummary>,
    pub selected_index: usize,
    pub mode: RelationshipsMode,
    pub status_message: Option<String>,
    /// Party whose removal awaits confirmation.
    pub confirm_delete: Option<String>,
}

impl RelationshipsState {
    /// The state before anything was shown.
    pub open spec fn fresh(self) -> bool {
        &&& self.relationships@.len() == 0
        &&& self.selected_index == 0
        &&& self.mode is List
        &&& self.status_message is None
        &&& self.confirm_delete is None
    }
}

impl Default for RelationshipsState {
    fn default() -> (r: Self)
        ensures
            r.fresh(),
    {
        RelationshipsState {
            relationships: Vec::new(),
            selected_index: 0,
            mode: RelationshipsMode::List,
            status_message: None,
            confirm_delete: None,
        }
    }
}

/// Display modes of the relationships panel.
#[derive(Clone, Debug)]
pub enum RelationshipsMode {
    /// Browsing the list.
    List,
    /// Viewing one relationship, with one of its credentials expanded or none.
    Detail { index: usize, selected_vrc: Option<usize> },
    /// Editing the alias of a relationship.
    EditAlias { index: usize, alias_input: String },
    /// Filling out a new request.
    NewRequest {
        did_input: String,
        alias_input: String,
        reason_input: String,
        generate_r_did: bool,
        active_field: usize,
    },
}

impl Default for RelationshipsMode {
    fn default() -> (r: Self)
        ensures
            r is List,
    {
        RelationshipsMode::List
    }
}

/// Display summary of a relationship.
#[derive(Clone, Debug)]
pub struct RelationshipSummary {
    pub remote_p_did: String,
    pub alias: Option<String>,
    pub state: String,
    pub our_did: String,
    pub remote_did: String,
    pub created: String,
    pub vrcs_issued: Vec<RelationshipVrc>,
    pub vrcs_received: Vec<RelationshipVrc>,
}

/// What a relationship summary shows.
pub struct RelationshipLine {
    pub remote_p_did: Seq<char>,
    pub alias: Option<Seq<char>>,
    pub state: Seq<char>,
    pub our_did: Seq<char>,
    pub remote_did: Seq<char>,
    pub created: Seq<char>,
    pub vrcs_issued: Seq<VrcLine>,
    pub vrcs_received: Seq<VrcLine>,
}

impl View for RelationshipSummary {
    type V = RelationshipLine;

    open spec fn view(&self) -> RelationshipLine {
        RelationshipLine {
            remote_p_did: self.remote_p_did@,
            alias: opt_view(self.alias),
            state: self.state@,
            our_did: self.our_did@,
            remote_did: self.remote_did@,
            created: self.created@,
            vrcs_issued: self.vrcs_issued@.map_values(|v: RelationshipVrc| v@),
            vrcs_received: self.vrcs_received@.map_values(|v: RelationshipVrc| v@),
        }
    }
}

/// A credential as the relationship detail shows it.
#[derive(Clone, Debug)]
pub struct RelationshipVrc {
    pub issuer: String,
    pub issuer_full: String,
    pub subject: String,
    pub subject_full: String,
    pub valid_from: String,
    pub valid_until: Option<String>,
    pub raw_json: String,
}

/// What a credential line shows.
pub struct VrcLine {
    pub issuer: Seq<char>,
    pub issuer_full: Seq<char>,
    pub subject: Seq<char>,
    pub subject_full: Seq<char>,
    pub valid_from: Seq<char>,
    pub valid_until: Option<Seq<char>>,
    pub raw_json: Seq<char>,
}

impl View for RelationshipVrc {
    type V = VrcLine;

    open spec fn view(&self) -> VrcLine {
        VrcLine {
            issuer: self.issuer@,
            issuer_full: self.issuer_full@,
            subject: self.subject@,
            subject_full: self.subject_full@,
            valid_from: self.valid_from@,
            valid_until: opt_view(self.valid_until),
            raw_json: self.raw_json@,
        }
    }
}

// ---------------------------------------------------------------------------
// Credentials
// ---------------------------------------------------------------------------

/// State of the credentials panel.
#[derive(Clone, Debug)]
pub struct CredentialsState {
    pub received: Vec<VrcSummary>,
    pub issued: Vec<VrcSummary>,
    /// Membership and role credentials issued to us by communities.
    pub membership: Vec<VrcSummary>,
    pub selected_tab: CredentialTab,
    pub selected_index: usize,
    pub mode: CredentialsMode,
    pub status_message: Option<String>,
    /// Credential whose removal awaits confirmation.
    pub confirm_delete: Option<String>,
}

impl CredentialsState {
    /// The state before anything was shown.
    pub open spec fn fresh(self) -> bool {
        &&& self.received@.len() == 0
        &&& self.issued@.len() == 0
        &&& self.membership@.len() == 0
        &&& self.selected_tab is Received
        &&& self.selected_index == 0
        &&& self.mode is List
        &&& self.status_message is None
        &&& self.confirm_delete is None
    }
}

impl Default for CredentialsState {
    fn default() -> (r: Self)
        ensures
            r.fresh(),
    {
        CredentialsState {
            received: Vec::new(),
            issued: Vec::new(),
            membership: Vec::new(),
            selected_tab: CredentialTab::Received,
            selected_index: 0,
            mode: CredentialsMode::List,
            status_message: None,
            confirm_delete: None,
        }
    }
}

/// Which list of credentials is shown.
#[derive(Clone, Copy, Debug, PartialEq, Eq, Structural)]
pub enum CredentialTab {
    Received,
    Issued,
    Membership,
}

impl Default for CredentialTab {
    fn default() -> (r: Self)
        ensures
            r is Received,
    {
        CredentialTab::Received
    }
}

/// Display modes of the credentials panel.
#[derive(Clone, Debug)]
pub enum CredentialsMode {
    /// Browsing the list.
    List,
    /// Viewing one credential.
    Detail { index: usize },
    /// Requesting a credential over a relationship.
    NewRequest { relationship_index: usize, reason_input: String },
}

impl Default for CredentialsMode {
    fn default() -> (r: Self)
        ensures
            r is List,
    {
        CredentialsMode::List
    }
}

/// Display summary of a credential.
#[derive(Clone, Debug)]
pub struct VrcSummary {
    pub vrc_id: String,
    pub remote_p_did: String,
    pub raw_json: String,
    pub alias: Option<String>,
    pub issuer: String,
    pub subject: String,
    pub valid_from: String,
    pub valid_until: Option<String>,
}

/// What a credential summary shows.
pub struct CredentialLine {
    pub vrc_id: Seq<char>,
    pub remote_p_did: Seq<char>,
    pub raw_json: Seq<char>,
    pub alias: Option<Seq<char>>,
    pub issuer: Seq<char>,
    pub subject: Seq<char>,
    pub valid_from: Seq<char>,
    pub valid_until: Option<Seq<char>>,
}

impl View for VrcSummary {
    type V = CredentialLine;

    open spec fn view(&self) -> CredentialLine {
        CredentialLine {
            vrc_id: self.vrc_id@,
            remote_p_did: self.remote_p_did@,
            raw_json: self.raw_json@,
            alias: opt_view(self.alias),
            issuer: self.issuer@,
            subject: self.subject@,
            valid_from: self.valid_from@,
            valid_until: opt_view(self.valid_until),
        }
    }
}

// ---------------------------------------------------------------------------
// Logs
// ---------------------------------------------------------------------------

/// State of the logs panel.
#[derive(Clone, Debug)]
pub struct LogsState {
    pub selected_index: usize,
    pub detail_view: bool,
}

impl Default for LogsState {
    fn default() -> (r: Self)
        ensures
            r.selected_index == 0,
            !r.detail_view,
    {
        LogsState { selected_index: 0, detail_view: false }
    }
}

// ---------------------------------------------------------------------------
// Settings
// ---------------------------------------------------------------------------

/// State of the settings panel.
#[derive(Clone, Debug)]
pub struct SettingsState {
    pub friendly_name: String,
    pub mediator_did: String,
    pub org_did: String,
    pub persona_did: String,
    pub protection_type: String,
    pub selected_index: usize,
    pub mode: SettingsMode,
    pub status_message: Option<String>,
    pub token: TokenManagementState,
    pub did_git_sign: Option<DidGitSignInfo>,
}

impl SettingsState {
    /// The state before anything was shown.
    pub open spec fn fresh(self) -> bool {
        &&& self.friendly_name@.len() == 0
        &&& self.mediator_did@.len() == 0
        &&& self.org_did@.len() == 0
        &&& self.persona_did@.len() == 0
        &&& self.protection_type@.len() == 0
        &&& self.selected_index == 0
        &&& self.mode is View
        &&& self.status_message is None
        &&& self.token.fresh()
        &&& self.did_git_sign is None
    }
}

impl Default for SettingsState {
    fn default() -> (r: Self)
        ensures
            r.fresh(),
    {
        SettingsState {
            friendly_name: String::new(),
            mediator_did: String::new(),
            org_did: String::new(),
            persona_did: String::new(),
            protection_type: String::new(),
            selected_index: 0,
            mode: SettingsMode::View,
            status_message: None,
            token: TokenManagementState::default(),
            did_git_sign: None,
        }
    }
}

/// The local git-signing install of a persona.
#[derive(Clone, Debug)]
pub struct DidGitSignInfo {
    /// Verification method id of the signing configuration.
    pub did_key_id: String,
    /// Public key in the form `ssh-ed25519 …`.
    pub ssh_public_key: String,
    /// Path of the signing configuration.
    pub config_path: String,
}

impl View for DidGitSignInfo {
    type V = (Seq<char>, Seq<char>, Seq<char>);

    open spec fn view(&self) -> (Seq<char>, Seq<char>, Seq<char>) {
        (self.did_key_id@, self.ssh_public_key@, self.config_path@)
    }
}

/// State of the hardware-token screen.
#[derive(Clone, Debug)]
pub struct TokenManagementState {
    pub detected_count: usize,
    pub messages: Vec<String>,
    pub reset_completed: bool,
}

impl TokenManagementState {
    /// The state before anything was shown.
    pub open spec fn fresh(self) -> bool {
        &&& self.detected_count == 0
        &&& texts_view(self.messages@).len() == 0
        &&& !self.reset_completed
    }
}

impl Default for TokenManagementState {
    fn default() -> (r: Self)
        ensures
            r.fresh(),
    {
        TokenManagementState { detected_count: 0, messages: Vec::new(), reset_completed: false }
    }
}

/// Display modes of the settings panel.
#[derive(Clone, Debug)]
pub enum SettingsMode {
    /// Viewing the list.
    View,
    EditFriendlyName { input: String },
    EditMediatorDid { input: String },
    EditOrgDid { input: String },
    /// Export form; the passphrase itself stays in the form, only its length is
    /// known here.
    ExportConfig { path_input: String, passphrase_len: usize, active_field: usize },
    /// Import form.
    ImportConfig { path_input: String, passphrase_len: usize, active_field: usize },
    /// Changing the protection: set (0) or remove (1) the passphrase.
    ChangeProtection {
        selected_option: usize,
        passphrase_len: usize,
        confirm_len: usize,
        active_field: usize,
    },
    /// Hardware-token screen.
    TokenManagement { selected_index: usize },
    /// Wiping the profile, which the operator confirms by typing a word.
    WipeConfirm { confirm_input: String },
}

impl Default for SettingsMode {
    fn default() -> (r: Self)
        ensures
            r is View,
    {
        SettingsMode::View
    }
}

// ---------------------------------------------------------------------------
// The panel
// ---------------------------------------------------------------------------

/// State of the content panel.
#[derive(Clone, Debug)]
pub struct ContentPanelState {
    /// Whether the panel has the focus.
    pub selected: bool,
    pub inbox: InboxState,
    pub relationships: RelationshipsState,
    pub credentials: CredentialsState,
    pub settings: SettingsState,
    pub vta: VtaState,
    pub logs: LogsState,
    pub communities: CommunitiesState,
}

impl ContentPanelState {
    /// The state before anything was shown.
    pub open spec fn fresh(self) -> bool {
        &&& !self.selected
        &&& self.inbox.fresh()
        &&& self.relationships.fresh()
        &&& self.credentials.fresh()
        &&& self.settings.fresh()
        &&& self.vta.fresh()
        &&& self.logs.selected_index == 0
        &&& !self.logs.detail_view
        &&& self.communities.fresh()
    }
}

impl Default for ContentPanelState {
    fn default() -> (r: Self)
        ensures
            r.fresh(),
    {
        ContentPanelState {
            selected: false,
            inbox: InboxState::default(),
            relationships: RelationshipsState::default(),
            credentials: CredentialsState::default(),
            settings: SettingsState::default(),
            vta: VtaState::default(),
            logs: LogsState::default(),
            communities: CommunitiesState::default(),
        }
    }
}

} // verus!
