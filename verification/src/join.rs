//! State of the "join a community" flow.

use crate::account::CommunityRecord;
use crate::ledger::PersonaId;
use crate::setup::{complain, inform, messages_view, Completion, MessageType, MessageView};
use vstd::prelude::*;

verus! {

/// The pages of the flow.
#[derive(Clone, Copy, Debug, PartialEq, Eq, Structural)]
pub enum JoinPage {
    /// Entering the community's DID.
    EnterDid,
    /// Choosing whether to present an invitation, and which.
    InvitationChoice,
    /// Choosing the identity to present.
    IdentityChoice,
    /// Progress and result.
    Progress,
}

impl Default for JoinPage {
    fn default() -> (r: Self)
        ensures
            r is EnterDid,
    {
        JoinPage::EnterDid
    }
}

/// The invitation that was presented with a join.
#[derive(Clone, Debug)]
pub struct PresentedInvitation {
    pub id: String,
    /// DID that the invitation is bound to.
    pub subject: Option<String>,
}

/// A membership that was just asked for, whose session is to come up.
#[derive(Clone, Debug)]
pub struct JoinedSession {
    pub persona_id: PersonaId,
    pub persona_did: String,
    pub vtc_did: String,
}

/// A persona that can be presented again.
#[derive(Clone, Debug)]
pub struct PersonaOption {
    pub id: PersonaId,
    pub label: String,
    pub did: String,
    /// Names of the communities that it is already presented to.
    pub linked_communities: Vec<String>,
    /// How many valid invitations are bound to it.
    pub valid_vic_count: usize,
}

/// A valid invitation for the community being joined.
#[derive(Clone, Debug)]
pub struct AvailableVic {
    pub id: String,
    /// DID that it is bound to.
    pub subject: Option<String>,
    pub valid_from: String,
    pub valid_until: String,
    /// The credential itself, as JSON text.
    pub body: String,
}

/// State of the flow.
#[derive(Clone, Debug)]
pub struct JoinState {
    pub page: JoinPage,
    pub display_name: Option<String>,
    /// The community's DID while an identity is being chosen.
    pub pending_vtc: Option<String>,
    pub persona_options: Vec<PersonaOption>,
    /// Selected row of the identity page: an option, or the row after the last
    /// one for a new identity.
    pub identity_selected: usize,
    /// Persona whose reuse awaits confirmation.
    pub reuse_confirm: Option<PersonaId>,
    /// Whether the sequence is running.
    pub processing: bool,
    pub messages: Vec<MessageType>,
    pub completed: Completion,
    pub created_community: Option<CommunityRecord>,
    pub created_persona_did: Option<String>,
    /// Whether an invitation is at hand.
    pub has_invitation: bool,
    pub presented_invitation: Option<PresentedInvitation>,
    /// Whether the operator set the invitation aside.
    pub vic_cleared: bool,
    /// The valid invitations for the community, of all personas.
    pub available_vics: Vec<AvailableVic>,
    /// Those of the persona chosen.
    pub invitation_options: Vec<AvailableVic>,
    /// Persona that an invitation is being chosen for.
    pub invitation_for_persona: Option<PersonaId>,
    /// Selected row of the invitation page: an invitation, or the row after the
    /// last one for none.
    pub invitation_use_selected: usize,
    /// Whether the invitation at hand is to be presented.
    pub present_invitation: bool,
}

impl JoinState {
    /// The state in which the flow opens.
    pub open spec fn fresh(self) -> bool {
        &&& self.page is EnterDid
        &&& self.display_name is None
        &&& self.pending_vtc is None
        &&& self.persona_options@.len() == 0
        &&& self.identity_selected == 0
        &&& self.reuse_confirm is None
        &&& !self.processing
        &&& self.messages@.len() == 0
        &&& self.completed is NotFinished
        &&& self.created_community is None
        &&& self.created_persona_did is None
        &&& !self.has_invitation
        &&& self.presented_invitation is None
        &&& !self.vic_cleared
        &&& self.available_vics@.len() == 0
        &&& self.invitation_options@.len() == 0
        &&& self.invitation_for_persona is None
        &&& self.invitation_use_selected == 0
        &&& !self.present_invitation
    }

    /// What the progress page says.
    pub open spec fn said(self) -> Seq<MessageView> {
        messages_view(self.messages@)
    }
}

impl Default for JoinState {
    fn default() -> (r: Self)
        ensures
            r.fresh(),
    {
        JoinState {
            page: JoinPage::EnterDid,
            display_name: None,
            pending_vtc: None,
            persona_options: Vec::new(),
            identity_selected: 0,
            reuse_confirm: None,
            processing: false,
            messages: Vec::new(),
            completed: Completion::NotFinished,
            created_community: None,
            created_persona_did: None,
            has_invitation: false,
            presented_invitation: None,
            vic_cleared: false,
            available_vics: Vec::new(),
            invitation_options: Vec::new(),
            invitation_for_persona: None,
            invitation_use_selected: 0,
            present_invitation: false,
        }
    }
}

impl JoinState {
    /// Returns to the state in which the flow opens.
    pub fn reset(&mut self)
        ensures
            final(self).fresh(),
    {
        *self = JoinState::default();
    }

    /// The row of the identity page that stands for a new identity.
    pub fn mint_row(&self) -> (r: usize)
        ensures
            r == self.persona_options@.len(),
    {
        self.persona_options.len()
    }

    /// Whether a new identity is selected.
    pub fn mint_row_selected(&self) -> (r: bool)
        ensures
            r == (self.identity_selected >= self.persona_options@.len()),
    {
        self.identity_selected >= self.persona_options.len()
    }

    /// Adds an information to the progress page.
    pub fn info(&mut self, msg: String)
        ensures
            final(self).said() == old(self).said().push(MessageView::Info(msg@)),
            *final(self) == (JoinState { messages: final(self).messages, ..*old(self) }),
    {
        inform(&mut self.messages, msg);
    }

    /// Adds an error to the progress page and ends the sequence as failed.
    pub fn fail(&mut self, msg: String)
        ensures
            final(self).said() == old(self).said().push(MessageView::Error(msg@)),
            *final(self) == (JoinState {
                messages: final(self).messages,
                completed: Completion::CompletedFail,
                processing: false,
                ..*old(self)
            }),
    {
        complain(&mut self.messages, msg);
        self.completed = Completion::CompletedFail;
        self.processing = false;
    }
}

} // verus!
