//! Joining a community: what the pages of the flow do, and the sequence that
//! makes an identity, registers a context, asks for the membership and records
//! it.

use crate::account::{
    held_by, held_by_others, held_position, drop_held, holds_some, lemma_held_by_push, live_in, other_membership,
    persona_with_did, Account, CommunityRecord, CommunityStatus, Held, PersonaRecord,
};
use crate::actions::Action;
use crate::config::{keys_recorded, Config, Identity, KeyBackend, PublicConfig};
use crate::didcomm::{did_slug, did_slug_view};
use crate::dispatch_util::{line_logged, refreshed_and_logged, refreshed};
use crate::display::{shorten_did, shortened};
use crate::join::{JoinPage, JoinState, JoinedSession, PersonaOption};
use crate::json::{is_invitation, is_invitation_credential, json_str, json_str_at};
use crate::keyed::{has_key, lemma_without, without, Keyed};
use crate::launch::Interrupted;
use crate::ledger::{KeyEntry, PersonaId};
use crate::main_page::plain_line;
use crate::setup::{
    Completion, KeyMaterial, MessageView, PersonaDIDKeys, SetupState, VtaSetupState, WebVHAddress,
    WebvhServer,
};
use crate::setup_config::{
    mint_persona_with, persona_entries, persona_minted, persona_refs, Defaults,
};
use crate::sort::{is_stable_sort_of, stable_sort, Ranked};
use crate::state::{ActivePage, State};
use crate::sync::Host;
use crate::text::{
    cat2, cat3, copy_opt, lemma_lex_antisym, lemma_lex_total, lemma_lex_trans, lex_le, opt_view, owned, same,
    text_le, texts_view, trim, trimmed,
};
use crate::vta::HostedDid;
use vstd::prelude::*;

verus! {

// ---------------------------------------------------------------------------
// Decisions
// ---------------------------------------------------------------------------

/// The identity that is presented to the community.
#[derive(Clone, Copy, Debug, PartialEq, Eq, Structural)]
pub enum JoinIdentityChoice {
    /// A new persona.
    Mint,
    /// This persona of the account, which links the user across communities.
    Reuse(PersonaId),
}

/// How the flow ends.
#[derive(Clone, Debug)]
pub enum JoinExit {
    /// Back to the main page; with the session to bring up, if a join succeeded.
    Returned(Option<JoinedSession>),
    /// The program ends.
    Exit(Interrupted),
}

/// The session of a finished join: there is one only where a membership was
/// recorded.
pub open spec fn is_joined_session(js: JoinState, r: Option<JoinedSession>) -> bool {
    match js.created_community {
        None => r is None,
        Some(record) => {
            &&& r matches Some(s)
            &&& s.persona_id == record.persona_ref
            &&& s.persona_did@ == (match js.created_persona_did {
                Some(did) => did@,
                None => Seq::empty(),
            })
            &&& s.vtc_did == record.vtc_did
        },
    }
}

/// The session of a finished join.
pub fn joined_session(js: &JoinState) -> (r: Option<JoinedSession>)
    ensures
        is_joined_session(*js, r),
{
    match &js.created_community {
        None => None,
        Some(record) => Some(
            JoinedSession {
                persona_id: record.persona_ref,
                persona_did: match &js.created_persona_did {
                    Some(did) => did.clone(),
                    None => String::new(),
                },
                vtc_did: record.vtc_did.clone(),
            },
        ),
    }
}

/// The DID that was entered, without the white space around it; `None` where
/// nothing was entered.
pub open spec fn entered_did(raw: Seq<char>) -> Option<Seq<char>> {
    if trimmed(raw).len() == 0 {
        None
    } else {
        Some(trimmed(raw))
    }
}

/// Validates the DID that was entered.
pub fn validate_join_input(raw: &str) -> (r: Option<String>)
    ensures
        opt_view(r) == entered_did(raw@),
{
    let t = trim(raw);
    if t.as_str().is_empty() {
        None
    } else {
        Some(t)
    }
}

/// The persona that an invitation is bound to, if it is one of ours.
pub open spec fn subject_persona(
    personas: Seq<PersonaRecord>,
    invitation: Option<String>,
) -> Option<PersonaId> {
    match invitation {
        None => None,
        Some(vic) => match json_str(vic@, "/credentialSubject/id"@) {
            None => None,
            Some(subject) => match persona_with_did(personas, subject) {
                Some(p) => Some(p.persona_id),
                None => None,
            },
        },
    }
}

/// The persona with the DID that an invitation names, if it is one of ours.
pub fn persona_for_subject(config: &Config, subject: &Option<String>) -> (r: Option<PersonaId>)
    ensures
        r == (match *subject {
            None => None,
            Some(did) => match persona_with_did(config.account.personas@, did@) {
                Some(p) => Some(p.persona_id),
                None => None,
            },
        }),
{
    match subject {
        None => None,
        Some(did) => config.account.persona_id_for_did(did.as_str()),
    }
}

/// The persona that the invitation at hand is bound to, if it is one of ours.
pub fn invitation_subject_persona(config: &Config, state: &State) -> (r: Option<PersonaId>)
    ensures
        r == subject_persona(config.account.personas@, state.invitation_credential),
{
    match &state.invitation_credential {
        None => None,
        Some(vic) => {
            let subject = json_str_at(vic.as_str(), "/credentialSubject/id");
            persona_for_subject(config, &subject)
        },
    }
}

/// Whether there is a live membership in this community already.
pub fn is_duplicate_membership(config: &Config, vtc_did: &str) -> (r: bool)
    ensures
        r == live_in(config.account.communities@, vtc_did@),
{
    config.account.live_community(vtc_did)
}

/// The record of a membership that was just asked for.
pub fn build_pending_record(
    vtc_did: String,
    display_name: Option<String>,
    sub_context_id: String,
    persona_id: PersonaId,
    request_id: String,
    now: i64,
) -> (r: CommunityRecord)
    ensures
        r == pending_record(vtc_did, display_name, sub_context_id, persona_id, request_id, now),
        r.live(),
{
    CommunityRecord::new_pending(
        vtc_did,
        display_name,
        sub_context_id,
        persona_id,
        request_id,
        now,
    )
}

/// The record of a membership that was just asked for.
pub open spec fn pending_record(
    vtc_did: String,
    display_name: Option<String>,
    sub_context_id: String,
    persona_ref: PersonaId,
    request_id: String,
    now: i64,
) -> CommunityRecord {
    CommunityRecord {
        vtc_did,
        display_name,
        sub_context_id,
        persona_ref,
        status: CommunityStatus::Pending { request_id },
        requested_at: Some(now),
        member_since: None,
        favourite: false,
        archived: false,
        attention: false,
        membership_credential: None,
        role_credential: None,
    }
}

/// Whether a membership uses this context already.
pub open spec fn context_used(s: Seq<CommunityRecord>, id: Seq<char>) -> bool {
    exists|i: int| 0 <= i < s.len() && (#[trigger] s[i]).sub_context_id@ == id
}

/// Whether a membership uses this context already.
pub fn is_context_used(config: &Config, id: &str) -> (r: bool)
    ensures
        r == context_used(config.account.communities@, id@),
{
    let records = &config.account.communities;
    let mut i: usize = 0;
    while i < records.len()
        invariant
            i <= records@.len(),
            records@ == config.account.communities@,
            forall|j: int| 0 <= j < i ==> (#[trigger] records@[j]).sub_context_id@ != id@,
        decreases records@.len() - i,
    {
        if same(records[i].sub_context_id.as_str(), id) {
            return true;
        }
        i = i + 1;
    }
    false
}

/// The name of a community, from its DID document. A document has no field for
/// one, so there is none.
pub fn resolved_display_name(_document: &str) -> (r: Option<String>)
    ensures
        r is None,
{
    None
}

// ---------------------------------------------------------------------------
// The personas to choose from
// ---------------------------------------------------------------------------

/// A name in a sorted list.
pub struct Name {
    pub text: String,
}

impl Ranked for Name {
    open spec fn le(self, other: Self) -> bool {
        lex_le(self.text@, other.text@)
    }

    proof fn le_total(a: Self, b: Self) {
        lemma_lex_total(a.text@, b.text@);
    }

    proof fn le_trans(a: Self, b: Self, c: Self) {
        lemma_lex_trans(a.text@, b.text@, c.text@);
    }

    fn ranks(&self, other: &Self) -> bool {
        text_le(self.text.as_str(), other.text.as_str())
    }
}

/// The name that a membership is listed under.
pub open spec fn community_name(c: CommunityRecord) -> Seq<char> {
    match c.display_name {
        Some(n) => n@,
        None => shortened(c.vtc_did@, 40),
    }
}

/// The names of the communities that a persona is presented to, in account
/// order.
pub open spec fn names_of(s: Seq<CommunityRecord>, persona: PersonaId) -> Seq<Seq<char>>
    decreases s.len(),
{
    if s.len() == 0 {
        Seq::empty()
    } else {
        let rest = names_of(s.drop_last(), persona);
        if s.last().persona_ref == persona {
            rest.push(community_name(s.last()))
        } else {
            rest
        }
    }
}

/// What these names say.
pub open spec fn name_texts(s: Seq<Name>) -> Seq<Seq<char>> {
    s.map_values(|n: Name| n.text@)
}

/// `linked` holds these names in alphabetical order.
pub open spec fn sorted_names(linked: Seq<Seq<char>>, names: Seq<Seq<char>>) -> bool {
    exists|a: Seq<Name>, b: Seq<Name>|
        #[trigger] is_stable_sort_of(a, b) && name_texts(a) == linked && name_texts(b) == names
}

fn linked_names(config: &Config, persona: PersonaId) -> (r: Vec<String>)
    ensures
        sorted_names(texts_view(r@), names_of(config.account.communities@, persona)),
{
    let records = &config.account.communities;
    let mut raw: Vec<Name> = Vec::new();
    let mut i: usize = 0;
    assert(name_texts(raw@) =~= names_of(records@.take(0), persona));
    while i < records.len()
        invariant
            i <= records@.len(),
            name_texts(raw@) == names_of(records@.take(i as int), persona),
        decreases records@.len() - i,
    {
        proof {
            assert(records@.take(i + 1).drop_last() =~= records@.take(i as int));
            assert(records@.take(i + 1).last() == records@[i as int]);
        }
        if records[i].persona_ref == persona {
            let text = match &records[i].display_name {
                Some(n) => n.clone(),
                None => shorten_did(records[i].vtc_did.as_str(), 40),
            };
            let ghost before = raw@;
            raw.push(Name { text });
            assert(name_texts(raw@) =~= name_texts(before).push(text@));
        }
        i = i + 1;
    }
    assert(records@.take(i as int) =~= records@);
    let ghost unsorted = raw@;
    let sorted = stable_sort(raw);
    let mut out: Vec<String> = Vec::new();
    let mut k: usize = 0;
    while k < sorted.len()
        invariant
            k <= sorted@.len(),
            texts_view(out@) == name_texts(sorted@.take(k as int)),
        decreases sorted@.len() - k,
    {
        let ghost before = out@;
        out.push(sorted[k].text.clone());
        proof {
            assert(texts_view(out@) =~= texts_view(before).push(sorted@[k as int].text@));
            assert(name_texts(sorted@.take(k + 1)) =~= name_texts(sorted@.take(k as int)).push(
                sorted@[k as int].text@,
            ));
        }
        k = k + 1;
    }
    assert(sorted@.take(k as int) =~= sorted@);
    assert(is_stable_sort_of(sorted@, unsorted));
    out
}

/// The entry of a persona among those to choose from.
pub open spec fn is_option_for(o: PersonaOption, p: PersonaRecord, s: Seq<CommunityRecord>) -> bool {
    &&& o.id == p.persona_id
    &&& o.label@ == (match p.label {
        Some(l) => l@,
        None => shortened(p.did@, 32),
    })
    &&& o.did == p.did
    &&& sorted_names(texts_view(o.linked_communities@), names_of(s, p.persona_id))
    &&& o.valid_vic_count == 0
}

/// Personas to choose from stand by label, and under one label by DID.
impl Ranked for PersonaOption {
    open spec fn le(self, other: Self) -> bool {
        if self.label@ == other.label@ {
            lex_le(self.did@, other.did@)
        } else {
            lex_le(self.label@, other.label@)
        }
    }

    proof fn le_total(a: Self, b: Self) {
        lemma_lex_total(a.label@, b.label@);
        lemma_lex_total(a.did@, b.did@);
    }

    proof fn le_trans(a: Self, b: Self, c: Self) {
        if a.label@ == b.label@ {
            if b.label@ == c.label@ {
                lemma_lex_trans(a.did@, b.did@, c.did@);
            }
        } else if b.label@ == c.label@ {
        } else {
            lemma_lex_trans(a.label@, b.label@, c.label@);
            if a.label@ == c.label@ {
                lemma_lex_antisym(a.label@, b.label@);
            }
        }
    }

    fn ranks(&self, other: &Self) -> bool {
        if same(self.label.as_str(), other.label.as_str()) {
            text_le(self.did.as_str(), other.did.as_str())
        } else {
            text_le(self.label.as_str(), other.label.as_str())
        }
    }
}

/// The entries of these personas, one each.
pub open spec fn options_for(
    o: Seq<PersonaOption>,
    p: Seq<PersonaRecord>,
    s: Seq<CommunityRecord>,
) -> bool {
    &&& o.len() == p.len()
    &&& forall|i: int| 0 <= i < o.len() ==> is_option_for(#[trigger] o[i], p[i], s)
}

/// The personas to choose from: every one of the account, in order.
pub open spec fn is_options(o: Seq<PersonaOption>, account: Account) -> bool {
    exists|raw: Seq<PersonaOption>| #[trigger]
        is_stable_sort_of(o, raw) && options_for(raw, account.personas@, account.communities@)
}

/// Lists the personas to choose from.
pub fn build_persona_options(config: &Config) -> (r: Vec<PersonaOption>)
    ensures
        is_options(r@, config.account),
        r@.len() == config.account.personas@.len(),
{
    let people = &config.account.personas;
    let ghost s = config.account.communities@;
    let mut raw: Vec<PersonaOption> = Vec::new();
    let mut i: usize = 0;
    while i < people.len()
        invariant
            i <= people@.len(),
            people@ == config.account.personas@,
            s == config.account.communities@,
            options_for(raw@, people@.take(i as int), s),
        decreases people@.len() - i,
    {
        let label = match &people[i].label {
            Some(l) => l.clone(),
            None => shorten_did(people[i].did.as_str(), 32),
        };
        let option = PersonaOption {
            id: people[i].persona_id,
            label,
            did: people[i].did.clone(),
            linked_communities: linked_names(config, people[i].persona_id),
            valid_vic_count: 0,
        };
        assert(is_option_for(option, people@[i as int], s));
        raw.push(option);
        i = i + 1;
    }
    assert(people@.take(i as int) =~= people@);
    let ghost unsorted = raw@;
    let sorted = stable_sort(raw);
    proof {
        broadcast use vstd::seq_lib::group_to_multiset_ensures;

        assert(is_stable_sort_of(sorted@, unsorted));
        assert(sorted@.to_multiset().len() == sorted@.len());
        assert(unsorted.to_multiset().len() == unsorted.len());
    }
    sorted
}

// ---------------------------------------------------------------------------
// The pages
// ---------------------------------------------------------------------------

/// `new` is `old` when the flow opens: on its first page, with nothing entered.
pub open spec fn join_entered(old: State, new: State) -> bool {
    &&& new == (State { active_page: ActivePage::Join, join: new.join, ..old })
    &&& (JoinState { has_invitation: false, ..new.join }).fresh()
    &&& new.join.has_invitation == (old.invitation_credential is Some)
}

/// Opens the flow.
pub fn enter_join(state: &mut State)
    ensures
        join_entered(*old(state), *final(state)),
{
    state.join.reset();
    state.join.has_invitation = state.invitation_credential.is_some();
    state.active_page = ActivePage::Join;
}

/// What the flow does next.
#[derive(Clone, Debug)]
pub enum JoinStep {
    /// Wait for the next action.
    Stay,
    /// Leave the flow.
    Leave(JoinExit),
    /// Run the sequence.
    Launch { choice: JoinIdentityChoice, vtc_did: String },
}

/// The sequence is to run for this choice and this community.
pub open spec fn launches(step: JoinStep, choice: JoinIdentityChoice, vtc: Seq<char>) -> bool {
    step matches JoinStep::Launch { choice: c, vtc_did } && c == choice && vtc_did@ == vtc
}

/// `new` is `old` with another state of the flow.
pub open spec fn join_only(old: State, new: State) -> bool {
    new == (State { join: new.join, ..old })
}

/// `new` is `old` with an error on its page, where the sequence ended.
pub open spec fn join_failed(old: JoinState, new: JoinState, text: Seq<char>) -> bool {
    &&& new == (JoinState {
        messages: new.messages,
        completed: Completion::CompletedFail,
        processing: false,
        ..old
    })
    &&& new.said() == old.said().push(MessageView::Error(text))
}

/// What entering the DID of a community comes to: nothing where none was
/// entered, a refusal where there is a live membership already; the persona that
/// the invitation is bound to is presented, a new one where there is none to
/// choose from; else the user chooses.
pub open spec fn vtc_submitted(
    old: State,
    new: State,
    config: Config,
    raw: Seq<char>,
    step: JoinStep,
) -> bool {
    match entered_did(raw) {
        None => new == old && step is Stay,
        Some(vtc) => if live_in(config.account.communities@, vtc) {
            &&& join_only(old, new)
            &&& join_failed(
                (JoinState { page: JoinPage::Progress, ..old.join }),
                new.join,
                "Already a member of (or have a pending request for) this community."@,
            )
            &&& step is Stay
        } else {
            match subject_persona(config.account.personas@, old.invitation_credential) {
                Some(persona) => new == old && launches(
                    step,
                    JoinIdentityChoice::Reuse(persona),
                    vtc,
                ),
                None => if config.account.personas@.len() == 0 {
                    new == old && launches(step, JoinIdentityChoice::Mint, vtc)
                } else {
                    &&& join_only(old, new)
                    &&& new.join == (JoinState {
                        pending_vtc: new.join.pending_vtc,
                        persona_options: new.join.persona_options,
                        identity_selected: 0,
                        reuse_confirm: None,
                        page: JoinPage::IdentityChoice,
                        ..old.join
                    })
                    &&& opt_view(new.join.pending_vtc) == Some(vtc)
                    &&& is_options(new.join.persona_options@, config.account)
                    &&& step is Stay
                },
            }
        },
    }
}

/// Takes the DID of a community.
pub fn submit_vtc(state: &mut State, config: &Config, raw: &str) -> (step: JoinStep)
    ensures
        vtc_submitted(*old(state), *final(state), *config, raw@, step),
{
    let vtc_did = match validate_join_input(raw) {
        Some(did) => did,
        None => {
            return JoinStep::Stay;
        },
    };
    if is_duplicate_membership(config, vtc_did.as_str()) {
        state.join.page = JoinPage::Progress;
        state.join.fail(
            owned("Already a member of (or have a pending request for) this community."),
        );
        return JoinStep::Stay;
    }
    if let Some(persona) = invitation_subject_persona(config, state) {
        return JoinStep::Launch { choice: JoinIdentityChoice::Reuse(persona), vtc_did };
    }
    let options = build_persona_options(config);
    if options.len() == 0 {
        JoinStep::Launch { choice: JoinIdentityChoice::Mint, vtc_did }
    } else {
        state.join.pending_vtc = Some(vtc_did);
        state.join.persona_options = options;
        state.join.identity_selected = 0;
        state.join.reuse_confirm = None;
        state.join.page = JoinPage::IdentityChoice;
        JoinStep::Stay
    }
}

/// What choosing the selected identity comes to: a new one is made at once; that
/// an old one is presented again is to be confirmed first.
pub open spec fn identity_chosen(old: State, new: State, step: JoinStep) -> bool {
    let at = old.join.identity_selected as int;
    if at >= old.join.persona_options@.len() {
        new == old && match old.join.pending_vtc {
            Some(vtc) => launches(step, JoinIdentityChoice::Mint, vtc@),
            None => step is Stay,
        }
    } else {
        &&& join_only(old, new)
        &&& new.join == (JoinState {
            reuse_confirm: Some(old.join.persona_options@[at].id),
            ..old.join
        })
        &&& step is Stay
    }
}

/// Chooses the selected identity.
pub fn choose_identity(state: &mut State) -> (step: JoinStep)
    ensures
        identity_chosen(*old(state), *final(state), step),
{
    if state.join.mint_row_selected() {
        match &state.join.pending_vtc {
            Some(vtc) => JoinStep::Launch {
                choice: JoinIdentityChoice::Mint,
                vtc_did: vtc.clone(),
            },
            None => JoinStep::Stay,
        }
    } else {
        let id: PersonaId = state.join.persona_options[state.join.identity_selected].id;
        state.join.reuse_confirm = Some(id);
        JoinStep::Stay
    }
}

/// What confirming comes to: the persona is presented again.
pub open spec fn reuse_confirmed(old: State, new: State, step: JoinStep) -> bool {
    match (old.join.reuse_confirm, old.join.pending_vtc) {
        (Some(persona), Some(vtc)) => {
            &&& join_only(old, new)
            &&& new.join == (JoinState { reuse_confirm: None, ..old.join })
            &&& launches(step, JoinIdentityChoice::Reuse(persona), vtc@)
        },
        _ => new == old && step is Stay,
    }
}

/// Confirms that a persona is presented again.
pub fn confirm_reuse(state: &mut State) -> (step: JoinStep)
    ensures
        reuse_confirmed(*old(state), *final(state), step),
{
    let persona: PersonaId = match state.join.reuse_confirm {
        Some(p) => p,
        None => {
            return JoinStep::Stay;
        },
    };
    let vtc_did = match &state.join.pending_vtc {
        Some(v) => v.clone(),
        None => {
            return JoinStep::Stay;
        },
    };
    state.join.reuse_confirm = None;
    JoinStep::Launch { choice: JoinIdentityChoice::Reuse(persona), vtc_did }
}

/// What pasting a text comes to: an invitation is kept, anything else is
/// refused.
pub open spec fn vic_pasted(old: State, new: State, text: String) -> bool {
    vic_kept(old, new, text, is_invitation(text@))
}

/// What a pasted text comes to, which `invitation` says to be an invitation or
/// not.
pub open spec fn vic_kept(old: State, new: State, text: String, invitation: bool) -> bool {
    if invitation {
        &&& new == (State { join: new.join, invitation_credential: Some(text), ..old })
        &&& new.join == (JoinState {
            has_invitation: true,
            messages: new.join.messages,
            ..old.join
        })
        &&& new.join.messages@.len() == 0
    } else {
        &&& join_only(old, new)
        &&& new.join == (JoinState { messages: new.join.messages, ..old.join })
        &&& new.join.said() == old.join.said().push(
            MessageView::Error("Pasted text is not a valid invitation credential."@),
        )
    }
}

/// Takes a pasted text, which `invitation` says to be an invitation or not.
pub fn keep_pasted(state: &mut State, text: String, invitation: bool)
    ensures
        vic_kept(*old(state), *final(state), text, invitation),
{
    if invitation {
        state.invitation_credential = Some(text);
        state.join.has_invitation = true;
        state.join.messages.clear();
    } else {
        crate::setup::complain(
            &mut state.join.messages,
            owned("Pasted text is not a valid invitation credential."),
        );
    }
}

/// Takes a pasted text.
pub fn paste_vic(state: &mut State, text: String)
    ensures
        vic_pasted(*old(state), *final(state), text),
{
    let invitation = is_invitation_credential(text.as_str());
    keep_pasted(state, text, invitation)
}

/// What an action comes to while the flow is open.
pub open spec fn join_stepped(
    old: State,
    new: State,
    config: Config,
    action: Action,
    step: JoinStep,
) -> bool {
    match action {
        Action::Exit => new == old && step == JoinStep::Leave(JoinExit::Exit(Interrupted::UserInt)),
        Action::UXError(why) => new == old && step == JoinStep::Leave(JoinExit::Exit(why)),
        Action::JoinCancel => {
            &&& new == (State { active_page: ActivePage::Main, ..old })
            &&& step matches JoinStep::Leave(JoinExit::Returned(session))
            &&& is_joined_session(old.join, session)
        },
        Action::JoinPasteVic(text) => vic_pasted(old, new, text) && step is Stay,
        Action::JoinSubmitVtc(raw) => vtc_submitted(old, new, config, raw@, step),
        Action::JoinIdentitySelect(i) => {
            &&& join_only(old, new)
            &&& new.join == (JoinState {
                identity_selected: if i < old.join.persona_options@.len() {
                    i
                } else {
                    old.join.persona_options@.len() as usize
                },
                reuse_confirm: None,
                ..old.join
            })
            &&& step is Stay
        },
        Action::JoinIdentityChoose => identity_chosen(old, new, step),
        Action::JoinReuseConfirm => reuse_confirmed(old, new, step),
        Action::JoinReuseCancel => {
            &&& join_only(old, new)
            &&& new.join == (JoinState { reuse_confirm: None, ..old.join })
            &&& step is Stay
        },
        _ => new == old && step is Stay,
    }
}

/// Takes an action while the flow is open.
pub fn handle_join_action(state: &mut State, config: &Config, action: Action) -> (step: JoinStep)
    ensures
        join_stepped(*old(state), *final(state), *config, action, step),
{
    match action {
        Action::Exit => JoinStep::Leave(JoinExit::Exit(Interrupted::UserInt)),
        Action::UXError(why) => JoinStep::Leave(JoinExit::Exit(why)),
        Action::JoinCancel => {
            state.active_page = ActivePage::Main;
            JoinStep::Leave(JoinExit::Returned(joined_session(&state.join)))
        },
        Action::JoinPasteVic(text) => {
            paste_vic(state, text);
            JoinStep::Stay
        },
        Action::JoinSubmitVtc(raw) => submit_vtc(state, config, raw.as_str()),
        Action::JoinIdentitySelect(i) => {
            let last: usize = state.join.mint_row();
            state.join.identity_selected = if i < last {
                i
            } else {
                last
            };
            state.join.reuse_confirm = None;
            JoinStep::Stay
        },
        Action::JoinIdentityChoose => choose_identity(state),
        Action::JoinReuseConfirm => confirm_reuse(state),
        Action::JoinReuseCancel => {
            state.join.reuse_confirm = None;
            JoinStep::Stay
        },
        _ => JoinStep::Stay,
    }
}

/// No persona is presented again without the user's word, unless the invitation
/// is bound to it.
pub proof fn law_reuse_is_confirmed(
    old: State,
    new: State,
    config: Config,
    action: Action,
    step: JoinStep,
    persona: PersonaId,
)
    requires
        join_stepped(old, new, config, action, step),
        step matches JoinStep::Launch { choice, vtc_did: _ } && choice
            == JoinIdentityChoice::Reuse(persona),
    ensures
        (action is JoinReuseConfirm && old.join.reuse_confirm == Some(persona)) || (
        action is JoinSubmitVtc && subject_persona(
            config.account.personas@,
            old.invitation_credential,
        ) == Some(persona)),
{
}

/// Entering a DID never asks for a membership twice.
pub proof fn law_no_duplicate_request(
    old: State,
    new: State,
    config: Config,
    raw: String,
    step: JoinStep,
)
    requires
        join_stepped(old, new, config, Action::JoinSubmitVtc(raw), step),
        step is Launch,
    ensures
        !live_in(config.account.communities@, step->vtc_did@),
{
}

// ---------------------------------------------------------------------------
// The sequence
// ---------------------------------------------------------------------------

/// Where the sequence stands: what it waits for.
#[derive(Clone, Copy, Debug, PartialEq, Eq, Structural)]
pub enum JoinStage {
    /// The document of the community's DID.
    Naming,
    /// The keys of the new persona.
    Keys,
    /// The keys that update its DID.
    UpdateKeys,
    /// The servers that can host its DID.
    Servers,
    /// Its DID.
    Did,
    /// Its profile for messages.
    Profile,
    /// That it is saved.
    Saving,
    /// The id of the community's context.
    Context,
    /// That the context is registered.
    Registering,
    /// That the request is sent.
    Submitting,
    /// That the membership is saved.
    Recording,
    /// Nothing: it is over.
    Over,
}

/// A run of the sequence.
pub struct JoinRun {
    pub stage: JoinStage,
    pub choice: JoinIdentityChoice,
    pub vtc_did: String,
    pub display_name: Option<String>,
    /// The persona that is presented, and its DID.
    pub persona: Option<(PersonaId, String)>,
    /// The persona that was made for this join.
    pub minted: Option<PersonaId>,
    pub sub_context_id: String,
    pub record: Option<CommunityRecord>,
    /// The name of the profile before the join.
    pub prior_friendly_name: String,
    /// Whether messages can be sent.
    pub messaging: bool,
}

impl JoinStage {
    /// How many steps the sequence has behind it.
    pub open spec fn rank(self) -> nat {
        match self {
            JoinStage::Naming => 0,
            JoinStage::Keys => 1,
            JoinStage::UpdateKeys => 2,
            JoinStage::Servers => 3,
            JoinStage::Did => 4,
            JoinStage::Profile => 5,
            JoinStage::Saving => 6,
            JoinStage::Context => 7,
            JoinStage::Registering => 8,
            JoinStage::Submitting => 9,
            JoinStage::Recording => 10,
            JoinStage::Over => 11,
        }
    }

    /// Whether a new persona is being made.
    pub open spec fn minting(self) -> bool {
        1 <= self.rank() <= 6
    }
}

impl JoinRun {
    /// Where an old persona is presented, none is made.
    pub open spec fn wf(self) -> bool {
        self.choice is Reuse ==> self.minted is None && !self.stage.minting()
    }
}

/// What the sequence asks for.
#[derive(Clone, Debug)]
pub enum JoinRequest {
    /// Resolve the community's DID.
    Resolve { did: String },
    /// Have the keys of a persona made in this context.
    CreatePersonaKeys { context_id: String },
    /// Have the keys made that update its DID.
    CreateUpdateKeys { context_id: String },
    ListServers,
    /// Have a DID made on this server, wherever the server puts it.
    CreateDid { context_id: String, server_id: String },
    /// Set messages up for this DID.
    BuildProfile { did: String, mediator_did: Option<String> },
    /// Save the configuration.
    Save,
    /// Derive the id of the community's context, one that no membership uses.
    DeriveContext { parent: String, name: Option<String>, vtc_did: String },
    CreateContext { parent: String, id: String },
    /// Ask the community for the membership.
    Submit { applicant: String, vtc_did: String, mediator: String, invitation: Option<String> },
    /// It is over; `save` says whether the configuration is to be saved.
    Finished { save: bool },
    /// That was not what the sequence waits for.
    Ignored,
}

/// What came of a request.
pub enum JoinReply {
    /// The document, as JSON text, if the DID could be resolved.
    Resolved(Option<String>),
    PersonaKeys(Result<PersonaDIDKeys, String>),
    UpdateKeys(Result<(KeyMaterial, KeyMaterial), String>),
    Servers(Result<Vec<WebvhServer>, String>),
    Did(Result<HostedDid, String>),
    /// With the id for the persona and the time.
    Profile(Result<(), String>, PersonaId, i64),
    Saved(Result<(), String>),
    Context(Result<String, String>),
    Registered(Result<(), String>),
    /// The id of the request and the time.
    Submitted(Result<String, String>, i64),
    Recorded(Result<(), String>),
}

/// `new` is `old` without the persona that was made for a join, its identity and
/// its keys, and under its name of before.
pub open spec fn rolled_back(
    old: Config,
    new: Config,
    persona: PersonaId,
    keys: Option<PersonaDIDKeys>,
    prior: Seq<char>,
) -> bool {
    &&& new == (Config {
        account: Account { personas: new.account.personas, ..old.account },
        identities: new.identities,
        key_info: new.key_info,
        public: PublicConfig { friendly_name: new.public.friendly_name, ..old.public },
        ..old
    })
    &&& new.account.personas@ == old.account.personas@.filter(held_by_others(persona))
    &&& new.identities@ == old.identities@.filter(held_by_others(persona))
    &&& new.key_info@ == keys_dropped(old.key_info@, keys)
    &&& new.public.friendly_name@ == prior
}

/// The keys of a table without those of a persona.
pub open spec fn keys_dropped(s: Seq<KeyEntry>, keys: Option<PersonaDIDKeys>) -> Seq<KeyEntry> {
    match keys {
        None => s,
        Some(k) => without(
            without(without(s, k.signing.secret.id@), k.authentication.secret.id@),
            k.decryption.secret.id@,
        ),
    }
}

/// Takes back a persona that was made for a join that came to nothing.
pub fn rollback_minted_persona(
    config: &mut Config,
    persona: PersonaId,
    setup: &SetupState,
    prior_friendly_name: &str,
)
    ensures
        rolled_back(
            *old(config),
            *final(config),
            persona,
            setup.did_keys,
            prior_friendly_name@,
        ),
{
    drop_held(&mut config.account.personas, persona);
    drop_held(&mut config.identities, persona);
    if let Some(keys) = &setup.did_keys {
        config.forget_key(keys.signing.secret.id.as_str());
        config.forget_key(keys.authentication.secret.id.as_str());
        config.forget_key(keys.decryption.secret.id.as_str());
    }
    config.public.friendly_name = owned(prior_friendly_name);
}

proof fn lemma_none_dropped<T: Held>(s: Seq<T>, id: PersonaId)
    requires
        !holds_some(s, id),
    ensures
        s.filter(held_by_others(id)) == s,
    decreases s.len(),
{
    reveal(Seq::filter);
    if s.len() > 0 {
        let d = s.drop_last();
        assert(!holds_some(d, id)) by {
            if holds_some(d, id) {
                let i = choose|i: int| 0 <= i < d.len() && (#[trigger] d[i]).holder() == id;
                assert(s[i].holder() == id);
            }
        }
        lemma_none_dropped(d, id);
        assert(s[s.len() - 1].holder() != id);
        assert(s =~= d.push(s.last()));
    }
}

proof fn lemma_push_dropped<T: Held>(s: Seq<T>, x: T, id: PersonaId)
    requires
        !holds_some(s, id),
        x.holder() == id,
    ensures
        s.push(x).filter(held_by_others(id)) == s,
{
    reveal(Seq::filter);
    lemma_none_dropped(s, id);
    assert(s.push(x).drop_last() =~= s);
}

proof fn lemma_without_push(s: Seq<KeyEntry>, x: KeyEntry, key: Seq<char>)
    ensures
        without(s.push(x), key) == (if x.key() == key {
            without(s, key)
        } else {
            without(s, key).push(x)
        }),
{
    reveal(Seq::filter);
    assert(s.push(x).drop_last() =~= s);
}

proof fn lemma_without_add(s: Seq<KeyEntry>, more: Seq<KeyEntry>, key: Seq<char>)
    ensures
        without(s + more, key) == without(s, key) + without(more, key),
    decreases more.len(),
{
    if more.len() == 0 {
        assert(s + more =~= s);
        assert(without(more, key) =~= Seq::<KeyEntry>::empty()) by {
            reveal(Seq::filter);
        }
        assert(without(s, key) + without(more, key) =~= without(s, key));
    } else {
        let d = more.drop_last();
        let x = more.last();
        lemma_without_add(s, d, key);
        assert(more =~= d.push(x));
        assert(s + more =~= (s + d).push(x));
        lemma_without_push(s + d, x, key);
        lemma_without_push(d, x, key);
        if x.key() != key {
            assert(without(s, key) + without(d, key).push(x) =~= (without(s, key) + without(
                d,
                key,
            )).push(x));
        }
    }
}

proof fn lemma_without_none(s: Seq<KeyEntry>, key: Seq<char>)
    requires
        !has_key(s, key),
    ensures
        without(s, key) == s,
{
    lemma_without(s, key);
}

proof fn lemma_recorded_add(s: Seq<KeyEntry>, m: Seq<KeyEntry>, keys: Seq<KeyEntry>)
    requires
        forall|i: int| 0 <= i < keys.len() ==> !has_key(s, (#[trigger] keys[i]).key()),
    ensures
        keys_recorded(s + m, keys) == s + keys_recorded(m, keys),
    decreases keys.len(),
{
    if keys.len() > 0 {
        let d = keys.drop_last();
        let x = keys.last();
        assert forall|i: int| 0 <= i < d.len() implies !has_key(s, (#[trigger] d[i]).key()) by {
            assert(d[i] == keys[i]);
        }
        lemma_recorded_add(s, m, d);
        assert(x == keys[keys.len() - 1]);
        let r = keys_recorded(m, d);
        lemma_without_add(s, r, x.key());
        lemma_without_none(s, x.key());
        assert((s + without(r, x.key())).push(x) =~= s + without(r, x.key()).push(x));
    }
}

proof fn lemma_recorded_among(m: Seq<KeyEntry>, keys: Seq<KeyEntry>, x: KeyEntry)
    requires
        keys_recorded(m, keys).contains(x),
    ensures
        m.contains(x) || keys.contains(x),
    decreases keys.len(),
{
    if keys.len() > 0 {
        let d = keys.drop_last();
        let y = keys.last();
        let r = keys_recorded(m, d);
        let w = without(r, y.key());
        lemma_without(r, y.key());
        let i = choose|i: int| 0 <= i < w.push(y).len() && w.push(y)[i] == x;
        if i < w.len() {
            assert(w.contains(w[i]));
            lemma_recorded_among(m, d, x);
            if d.contains(x) {
                let j = choose|j: int| 0 <= j < d.len() && d[j] == x;
                assert(keys[j] == x);
            }
        } else {
            assert(keys[keys.len() - 1] == x);
        }
    }
}

/// The ids of a persona's keys.
pub open spec fn key_ids(keys: PersonaDIDKeys) -> Seq<Seq<char>> {
    seq![keys.signing.secret.id@, keys.authentication.secret.id@, keys.decryption.secret.id@]
}

proof fn lemma_all_dropped(
    s: Seq<KeyEntry>,
    more: Seq<KeyEntry>,
    a: Seq<char>,
    b: Seq<char>,
    c: Seq<char>,
)
    requires
        !has_key(s, a),
        !has_key(s, b),
        !has_key(s, c),
        forall|x: KeyEntry| #[trigger]
            more.contains(x) ==> x.key() == a || x.key() == b || x.key() == c,
    ensures
        without(without(without(s + more, a), b), c) == s,
{
    lemma_without_none(s, a);
    lemma_without_none(s, b);
    lemma_without_none(s, c);
    let m1 = without(more, a);
    let m2 = without(m1, b);
    let m3 = without(m2, c);
    lemma_without_add(s, more, a);
    lemma_without_add(s, m1, b);
    lemma_without_add(s, m2, c);
    if m3.len() > 0 {
        let x = m3[0];
        assert(m3.contains(x));
        lemma_without(m2, c);
        assert(m2.contains(x) && x.key() != c);
        lemma_without(m1, b);
        assert(m1.contains(x) && x.key() != b);
        lemma_without(more, a);
        assert(more.contains(x) && x.key() != a);
    }
    assert(s + m3 =~= s);
}

/// Taking a persona back undoes making it: the account, the identities, the keys
/// and the name are as before, provided that the persona and its keys are new.
pub proof fn law_rollback_undoes_mint(
    before: Config,
    during: Config,
    after: Config,
    setup: SetupState,
    defaults: Defaults,
    id: PersonaId,
    now: i64,
)
    requires
        setup.did_keys is Some,
        persona_minted(before, during, setup, defaults, id, now),
        rolled_back(during, after, id, setup.did_keys, before.public.friendly_name@),
        !holds_some(before.account.personas@, id),
        !holds_some(before.identities@, id),
        forall|i: int|
            0 <= i < key_ids(setup.did_keys->0).len() ==> !has_key(
                before.key_info@,
                #[trigger] key_ids(setup.did_keys->0)[i],
            ),
    ensures
        after.account.personas@ == before.account.personas@,
        after.identities@ == before.identities@,
        after.key_info@ == before.key_info@,
        after.public.friendly_name@ == before.public.friendly_name@,
        after == (Config {
            account: Account { personas: after.account.personas, ..before.account },
            identities: after.identities,
            key_info: after.key_info,
            public: PublicConfig { friendly_name: after.public.friendly_name, ..before.public },
            ..before
        }),
{
    let keys = setup.did_keys->0;
    let s = before.key_info@;
    lemma_none_dropped(before.account.personas@, id);
    lemma_none_dropped(before.identities@, id);
    lemma_push_dropped(before.account.personas@, during.account.personas@.last(), id);
    lemma_push_dropped(before.identities@, during.identities@.last(), id);
    lemma_keys_dropped_again(s, keys);
}

proof fn lemma_keys_dropped_again(s: Seq<KeyEntry>, keys: PersonaDIDKeys)
    requires
        forall|i: int|
            0 <= i < key_ids(keys).len() ==> !has_key(s, #[trigger] key_ids(keys)[i]),
    ensures
        keys_dropped(keys_recorded(s, persona_refs(keys)), Some(keys)) == s,
{
    let ids = key_ids(keys);
    let listed = persona_entries(keys);
    let refs = persona_refs(keys);
    let none = Seq::<KeyEntry>::empty();
    assert(!has_key(s, ids[0]) && !has_key(s, ids[1]) && !has_key(s, ids[2]));
    assert forall|x: KeyEntry| #[trigger] refs.contains(x) implies x.key() == ids[0] || x.key()
        == ids[1] || x.key() == ids[2] by {
        lemma_recorded_among(none, listed, x);
        assert(!none.contains(x));
        let j = choose|j: int| 0 <= j < listed.len() && listed[j] == x;
        assert(j == 0 || j == 1 || j == 2);
    }
    assert forall|i: int| 0 <= i < refs.len() implies !has_key(s, (#[trigger] refs[i]).key()) by {
        assert(refs.contains(refs[i]));
    }
    lemma_recorded_add(s, none, refs);
    assert(s + none =~= s);
    let more = keys_recorded(none, refs);
    assert forall|x: KeyEntry| #[trigger] more.contains(x) implies x.key() == ids[0] || x.key()
        == ids[1] || x.key() == ids[2] by {
        lemma_recorded_among(none, refs, x);
        assert(!none.contains(x));
        assert(refs.contains(x));
    }
    lemma_all_dropped(s, more, ids[0], ids[1], ids[2]);
}

/// `new` is `old` with these lines more on its page, where the sequence failed or
/// goes on.
pub open spec fn spoke(
    old: JoinState,
    new: JoinState,
    lines: Seq<MessageView>,
    failed: bool,
) -> bool {
    &&& new == (JoinState {
        messages: new.messages,
        completed: if failed {
            Completion::CompletedFail
        } else {
            old.completed
        },
        processing: old.processing && !failed,
        ..old
    })
    &&& new.said() == old.said() + lines
}

/// `new` is `old` with one line more on the page of the flow.
pub open spec fn told(old: State, new: State, text: Seq<char>) -> bool {
    join_only(old, new) && spoke(old.join, new.join, seq![MessageView::Info(text)], false)
}

fn tell(state: &mut State, text: String)
    ensures
        told(*old(state), *final(state), text@),
{
    let ghost before = state.join.said();
    state.join.info(text);
    assert(state.join.said() =~= before + seq![MessageView::Info(text@)]);
}

/// The configuration after a run came to nothing: a persona that was made for it
/// is taken back, and no other is touched.
pub open spec fn cleaned_up(run: JoinRun, setup: SetupState, was: Config, is: Config) -> bool {
    match run.minted {
        None => is == was,
        Some(id) => rolled_back(was, is, id, setup.did_keys, run.prior_friendly_name@),
    }
}

/// What a run comes to that fails: these lines are shown, the last as an error,
/// and what was made for it is taken back.
pub open spec fn gave_up(
    run: JoinRun,
    ran: JoinRun,
    old: State,
    new: State,
    was: Config,
    is: Config,
    lines: Seq<MessageView>,
    req: JoinRequest,
) -> bool {
    &&& ran == (JoinRun { stage: JoinStage::Over, ..run })
    &&& join_only(old, new)
    &&& spoke(old.join, new.join, lines, true)
    &&& cleaned_up(run, old.setup, was, is)
    &&& req == (JoinRequest::Finished { save: run.minted is Some })
}

fn give_up(run: &mut JoinRun, state: &mut State, config: &mut Config, text: String) -> (req:
    JoinRequest)
    ensures
        gave_up(
            *old(run),
            *final(run),
            *old(state),
            *final(state),
            *old(config),
            *final(config),
            seq![MessageView::Error(text@)],
            req,
        ),
{
    let ghost before = state.join.said();
    state.join.fail(text);
    assert(state.join.said() =~= before + seq![MessageView::Error(text@)]);
    run.stage = JoinStage::Over;
    match run.minted {
        None => JoinRequest::Finished { save: false },
        Some(id) => {
            rollback_minted_persona(config, id, &state.setup, run.prior_friendly_name.as_str());
            JoinRequest::Finished { save: true }
        },
    }
}

/// What launching the sequence comes to: the progress page opens, and the
/// community's DID is to be resolved. Without a session with the VTA the join
/// cannot run.
pub open spec fn join_launched(
    old: State,
    new: State,
    config: Config,
    choice: JoinIdentityChoice,
    vtc_did: String,
    session: bool,
    messaging: bool,
    run: JoinRun,
    req: JoinRequest,
) -> bool {
    let joining = MessageView::Info("Joining "@ + vtc_did@ + "…"@);
    &&& join_only(old, new)
    &&& new.join == (JoinState {
        page: JoinPage::Progress,
        processing: session,
        completed: if session {
            Completion::NotFinished
        } else {
            Completion::CompletedFail
        },
        messages: new.join.messages,
        ..old.join
    })
    &&& new.join.said() == (if session {
        seq![joining]
    } else {
        seq![joining, MessageView::Error("VTA session unavailable — cannot join right now."@)]
    })
    &&& run.stage == (if session {
        JoinStage::Naming
    } else {
        JoinStage::Over
    })
    &&& run.choice == choice
    &&& run.vtc_did == vtc_did
    &&& run.display_name is None
    &&& run.persona is None
    &&& run.minted is None
    &&& run.sub_context_id@.len() == 0
    &&& run.record is None
    &&& run.prior_friendly_name == config.public.friendly_name
    &&& run.messaging == messaging
    &&& run.wf()
    &&& req == (if session {
        JoinRequest::Resolve { did: vtc_did }
    } else {
        JoinRequest::Finished { save: false }
    })
}

/// Launches the sequence; `session` says whether there is a session with the
/// VTA, `messaging` whether messages can be sent.
pub fn launch_join_sequence(
    state: &mut State,
    config: &Config,
    choice: JoinIdentityChoice,
    vtc_did: String,
    session: bool,
    messaging: bool,
) -> (r: (JoinRun, JoinRequest))
    ensures
        join_launched(
            *old(state),
            *final(state),
            *config,
            choice,
            vtc_did,
            session,
            messaging,
            r.0,
            r.1,
        ),
{
    state.join.page = JoinPage::Progress;
    state.join.processing = true;
    state.join.completed = Completion::NotFinished;
    state.join.messages = Vec::new();
    assert(state.join.said() =~= Seq::<MessageView>::empty());
    state.join.info(cat3("Joining ", vtc_did.as_str(), "…"));
    let ghost joining = MessageView::Info("Joining "@ + vtc_did@ + "…"@);
    assert(state.join.said() =~= seq![joining]);
    let mut run = JoinRun {
        stage: JoinStage::Naming,
        choice,
        vtc_did: vtc_did.clone(),
        display_name: None,
        persona: None,
        minted: None,
        sub_context_id: String::new(),
        record: None,
        prior_friendly_name: config.public.friendly_name.clone(),
        messaging,
    };
    if session {
        (run, JoinRequest::Resolve { did: vtc_did })
    } else {
        state.join.fail(owned("VTA session unavailable — cannot join right now."));
        assert(state.join.said() =~= seq![
            joining,
            MessageView::Error("VTA session unavailable — cannot join right now."@),
        ]);
        run.stage = JoinStage::Over;
        (run, JoinRequest::Finished { save: false })
    }
}

/// Asks for the id of the community's context.
pub open spec fn asks_context(req: JoinRequest, run: JoinRun, config: Config) -> bool {
    req == (JoinRequest::DeriveContext {
        parent: config.account.top_context_id,
        name: run.display_name,
        vtc_did: run.vtc_did,
    })
}

fn ask_context(run: &JoinRun, config: &Config) -> (req: JoinRequest)
    ensures
        asks_context(req, *run, *config),
{
    JoinRequest::DeriveContext {
        parent: config.account.top_context_id.clone(),
        name: copy_opt(&run.display_name),
        vtc_did: run.vtc_did.clone(),
    }
}

/// What the document of the community comes to: it has no name there; an old
/// persona is presented if it is still there, a new one is to get its keys.
pub open spec fn on_named(
    run: JoinRun,
    ran: JoinRun,
    old: State,
    new: State,
    was: Config,
    is: Config,
    req: JoinRequest,
) -> bool {
    let named = State { join: JoinState { display_name: None, ..old.join }, ..old };
    let nameless = JoinRun { display_name: None, ..run };
    match run.choice {
        JoinIdentityChoice::Mint => {
            &&& ran == (JoinRun { stage: JoinStage::Keys, ..nameless })
            &&& told(
                named,
                new,
                "Creating persona keys (signing, authentication, encryption)…"@,
            )
            &&& is == was
            &&& req == (JoinRequest::CreatePersonaKeys { context_id: was.account.top_context_id })
        },
        JoinIdentityChoice::Reuse(id) => match held_by(was.identities@, id) {
            Some(who) => {
                &&& ran == (JoinRun {
                    stage: JoinStage::Context,
                    persona: Some((id, who.did)),
                    ..nameless
                })
                &&& told(named, new, "Reusing persona "@ + who.did@ + "…"@)
                &&& is == was
                &&& asks_context(req, ran, is)
            },
            None => gave_up(
                nameless,
                ran,
                named,
                new,
                was,
                is,
                seq![MessageView::Error("Selected persona is unavailable — cannot reuse it."@)],
                req,
            ),
        },
    }
}

fn take_named(
    run: &mut JoinRun,
    state: &mut State,
    config: &mut Config,
    document: &Option<String>,
) -> (req: JoinRequest)
    ensures
        on_named(
            *old(run),
            *final(run),
            *old(state),
            *final(state),
            *old(config),
            *final(config),
            req,
        ),
{
    let name = match document {
        Some(doc) => resolved_display_name(doc.as_str()),
        None => None,
    };
    run.display_name = copy_opt(&name);
    state.join.display_name = name;
    match run.choice {
        JoinIdentityChoice::Mint => {
            tell(state, owned("Creating persona keys (signing, authentication, encryption)…"));
            run.stage = JoinStage::Keys;
            JoinRequest::CreatePersonaKeys { context_id: config.account.top_context_id.clone() }
        },
        JoinIdentityChoice::Reuse(id) => match held_position(&config.identities, id) {
            Some(i) => {
                let did = config.identities[i].did.clone();
                tell(state, cat3("Reusing persona ", did.as_str(), "…"));
                run.persona = Some((id, did));
                run.stage = JoinStage::Context;
                ask_context(run, config)
            },
            None => give_up(
                run,
                state,
                config,
                owned("Selected persona is unavailable — cannot reuse it."),
            ),
        },
    }
}

/// What the keys of the new persona come to.
pub open spec fn on_persona_keys(
    run: JoinRun,
    ran: JoinRun,
    old: State,
    new: State,
    was: Config,
    is: Config,
    reply: Result<PersonaDIDKeys, String>,
    req: JoinRequest,
) -> bool {
    match reply {
        Ok(keys) => {
            &&& ran == (JoinRun { stage: JoinStage::UpdateKeys, ..run })
            &&& told(
                (State { setup: SetupState { did_keys: Some(keys), ..old.setup }, ..old }),
                new,
                "Creating DID update keys…"@,
            )
            &&& is == was
            &&& req == (JoinRequest::CreateUpdateKeys { context_id: was.account.top_context_id })
        },
        Err(e) => gave_up(
            run,
            ran,
            old,
            new,
            was,
            is,
            seq![MessageView::Error("Failed to create persona keys: "@ + e@)],
            req,
        ),
    }
}

fn take_persona_keys(
    run: &mut JoinRun,
    state: &mut State,
    config: &mut Config,
    reply: Result<PersonaDIDKeys, String>,
) -> (req: JoinRequest)
    ensures
        on_persona_keys(
            *old(run),
            *final(run),
            *old(state),
            *final(state),
            *old(config),
            *final(config),
            reply,
            req,
        ),
{
    match reply {
        Ok(keys) => {
            state.setup.did_keys = Some(keys);
            tell(state, owned("Creating DID update keys…"));
            run.stage = JoinStage::UpdateKeys;
            JoinRequest::CreateUpdateKeys { context_id: config.account.top_context_id.clone() }
        },
        Err(e) => give_up(
            run,
            state,
            config,
            cat2("Failed to create persona keys: ", e.as_str()),
        ),
    }
}

/// What the keys that update the DID come to.
pub open spec fn on_update_keys(
    run: JoinRun,
    ran: JoinRun,
    old: State,
    new: State,
    was: Config,
    is: Config,
    reply: Result<(KeyMaterial, KeyMaterial), String>,
    req: JoinRequest,
) -> bool {
    match reply {
        Ok(keys) => {
            &&& ran == (JoinRun { stage: JoinStage::Servers, ..run })
            &&& told(
                (State {
                    setup: SetupState {
                        vta: VtaSetupState {
                            update_secret: Some(keys.0),
                            next_update_secret: Some(keys.1),
                            ..old.setup.vta
                        },
                        ..old.setup
                    },
                    ..old
                }),
                new,
                "Finding a DID hosting server…"@,
            )
            &&& is == was
            &&& req is ListServers
        },
        Err(e) => gave_up(
            run,
            ran,
            old,
            new,
            was,
            is,
            seq![MessageView::Error("Failed to create update keys: "@ + e@)],
            req,
        ),
    }
}

fn take_update_keys(
    run: &mut JoinRun,
    state: &mut State,
    config: &mut Config,
    reply: Result<(KeyMaterial, KeyMaterial), String>,
) -> (req: JoinRequest)
    ensures
        on_update_keys(
            *old(run),
            *final(run),
            *old(state),
            *final(state),
            *old(config),
            *final(config),
            reply,
            req,
        ),
{
    match reply {
        Ok(keys) => {
            state.setup.vta.update_secret = Some(keys.0);
            state.setup.vta.next_update_secret = Some(keys.1);
            tell(state, owned("Finding a DID hosting server…"));
            run.stage = JoinStage::Servers;
            JoinRequest::ListServers
        },
        Err(e) => give_up(
            run,
            state,
            config,
            cat2("Failed to create update keys: ", e.as_str()),
        ),
    }
}

/// What the list of servers comes to: the first one hosts the DID.
pub open spec fn on_servers(
    run: JoinRun,
    ran: JoinRun,
    old: State,
    new: State,
    was: Config,
    is: Config,
    reply: Result<Vec<WebvhServer>, String>,
    req: JoinRequest,
) -> bool {
    match reply {
        Ok(servers) => if servers@.len() > 0 {
            let id = servers@[0].id;
            &&& ran == (JoinRun { stage: JoinStage::Did, ..run })
            &&& told(old, new, "Creating persona DID via "@ + id@ + "…"@)
            &&& is == was
            &&& req == (JoinRequest::CreateDid {
                context_id: was.account.top_context_id,
                server_id: id,
            })
        } else {
            gave_up(
                run,
                ran,
                old,
                new,
                was,
                is,
                seq![MessageView::Error(no_server_view())],
                req,
            )
        },
        Err(e) => gave_up(
            run,
            ran,
            old,
            new,
            was,
            is,
            seq![MessageView::Error("Failed to list WebVH servers: "@ + e@)],
            req,
        ),
    }
}

/// What is said where there is no server to host a DID.
pub open spec fn no_server_view() -> Seq<char> {
    "No WebVH server available from the VTA (serverless mint not yet supported)."@
}

fn take_servers(
    run: &mut JoinRun,
    state: &mut State,
    config: &mut Config,
    reply: Result<Vec<WebvhServer>, String>,
) -> (req: JoinRequest)
    ensures
        on_servers(
            *old(run),
            *final(run),
            *old(state),
            *final(state),
            *old(config),
            *final(config),
            reply,
            req,
        ),
{
    match reply {
        Ok(servers) => {
            if servers.len() > 0 {
                let server_id = servers[0].id.clone();
                tell(state, cat3("Creating persona DID via ", server_id.as_str(), "…"));
                run.stage = JoinStage::Did;
                JoinRequest::CreateDid {
                    context_id: config.account.top_context_id.clone(),
                    server_id,
                }
            } else {
                give_up(
                    run,
                    state,
                    config,
                    owned(
                        "No WebVH server available from the VTA (serverless mint not yet supported).",
                    ),
                )
            }
        },
        Err(e) => give_up(
            run,
            state,
            config,
            cat2("Failed to list WebVH servers: ", e.as_str()),
        ),
    }
}

/// The mediator of the account's VTA, which hosts the personas made for joins.
pub open spec fn vta_mediator(b: KeyBackend) -> Option<String> {
    match b {
        KeyBackend::Vta { mediator_did, .. } => mediator_did,
        _ => None,
    }
}

/// The mediator of the account's VTA.
pub fn account_mediator(config: &Config) -> (r: Option<String>)
    ensures
        r == vta_mediator(config.key_backend),
{
    match &config.key_backend {
        KeyBackend::Vta { mediator_did, .. } => copy_opt(mediator_did),
        _ => None,
    }
}

/// The name that a persona made for a community goes by.
pub open spec fn persona_name(display_name: Option<String>, vtc: Seq<char>) -> Seq<char> {
    match display_name {
        Some(n) => n@,
        None => did_slug_view(vtc),
    }
}

/// What is set up once a DID is hosted.
pub open spec fn did_set_up(
    old: SetupState,
    new: SetupState,
    run: JoinRun,
    config: Config,
    hosted: HostedDid,
) -> bool {
    &&& new == (SetupState {
        did_keys: Some(hosted.keys),
        webvh_address: WebVHAddress {
            did: hosted.did,
            document: hosted.document,
            ..old.webvh_address
        },
        custom_mediator: vta_mediator(config.key_backend),
        username: new.username,
        ..old
    })
    &&& new.username@ == persona_name(run.display_name, run.vtc_did@)
}

/// What the new persona's DID comes to: its profile is to be set up, with the
/// mediator of the account's VTA.
pub open spec fn on_did(
    run: JoinRun,
    ran: JoinRun,
    old: State,
    new: State,
    was: Config,
    is: Config,
    reply: Result<HostedDid, String>,
    req: JoinRequest,
) -> bool {
    match reply {
        Ok(hosted) => {
            &&& ran == (JoinRun { stage: JoinStage::Profile, ..run })
            &&& new == (State { setup: new.setup, ..old })
            &&& did_set_up(old.setup, new.setup, run, was, hosted)
            &&& is == was
            &&& req == (JoinRequest::BuildProfile {
                did: hosted.did,
                mediator_did: vta_mediator(was.key_backend),
            })
        },
        Err(e) => gave_up(
            run,
            ran,
            old,
            new,
            was,
            is,
            seq![MessageView::Error("Failed to create persona DID: "@ + e@)],
            req,
        ),
    }
}

fn take_did(
    run: &mut JoinRun,
    state: &mut State,
    config: &mut Config,
    reply: Result<HostedDid, String>,
) -> (req: JoinRequest)
    ensures
        on_did(
            *old(run),
            *final(run),
            *old(state),
            *final(state),
            *old(config),
            *final(config),
            reply,
            req,
        ),
{
    match reply {
        Ok(hosted) => {
            let did = hosted.did.clone();
            state.setup.did_keys = Some(hosted.keys);
            state.setup.webvh_address.did = hosted.did;
            state.setup.webvh_address.document = hosted.document;
            state.setup.custom_mediator = account_mediator(config);
            state.setup.username = match &run.display_name {
                Some(n) => n.clone(),
                None => did_slug(run.vtc_did.as_str()),
            };
            run.stage = JoinStage::Profile;
            JoinRequest::BuildProfile { did, mediator_did: account_mediator(config) }
        },
        Err(e) => give_up(
            run,
            state,
            config,
            cat2("Failed to create persona DID: ", e.as_str()),
        ),
    }
}

/// What the new persona's profile comes to: the persona enters the account, which
/// is to be saved.
pub open spec fn on_profile(
    run: JoinRun,
    ran: JoinRun,
    old: State,
    new: State,
    was: Config,
    is: Config,
    reply: Result<(), String>,
    id: PersonaId,
    now: i64,
    defaults: Defaults,
    req: JoinRequest,
) -> bool {
    match reply {
        Ok(_) => if old.setup.did_keys is Some {
            &&& ran == (JoinRun {
                stage: JoinStage::Saving,
                persona: Some((id, old.setup.webvh_address.did)),
                ..run
            })
            &&& new == old
            &&& persona_minted(was, is, old.setup, defaults, id, now)
            &&& req is Save
        } else {
            gave_up(
                run,
                ran,
                old,
                new,
                was,
                is,
                seq![
                    MessageView::Error(
                        "Failed to save persona: "@ + "Persona DID keys not set during setup"@,
                    ),
                ],
                req,
            )
        },
        Err(e) => gave_up(
            run,
            ran,
            old,
            new,
            was,
            is,
            seq![MessageView::Error("Failed to save persona: "@ + e@)],
            req,
        ),
    }
}

fn take_profile(
    run: &mut JoinRun,
    state: &mut State,
    config: &mut Config,
    reply: Result<(), String>,
    id: PersonaId,
    now: i64,
    defaults: &Defaults,
) -> (req: JoinRequest)
    ensures
        on_profile(
            *old(run),
            *final(run),
            *old(state),
            *final(state),
            *old(config),
            *final(config),
            reply,
            id,
            now,
            *defaults,
            req,
        ),
{
    match reply {
        Ok(_) => match mint_persona_with(config, &state.setup, defaults, id, now) {
            Ok(_) => {
                run.persona = Some((id, state.setup.webvh_address.did.clone()));
                run.stage = JoinStage::Saving;
                JoinRequest::Save
            },
            Err(e) => give_up(
                run,
                state,
                config,
                cat2("Failed to save persona: ", e.display.as_str()),
            ),
        },
        Err(e) => give_up(run, state, config, cat2("Failed to save persona: ", e.as_str())),
    }
}

/// What saving the new persona comes to: from here on it is taken back should
/// the join fail.
pub open spec fn on_saved(
    run: JoinRun,
    ran: JoinRun,
    old: State,
    new: State,
    was: Config,
    is: Config,
    reply: Result<(), String>,
    req: JoinRequest,
) -> bool {
    match reply {
        Ok(_) => match run.persona {
            Some((id, did)) => {
                &&& ran == (JoinRun { stage: JoinStage::Context, minted: Some(id), ..run })
                &&& told(old, new, "Persona created: "@ + did@)
                &&& is == was
                &&& asks_context(req, ran, is)
            },
            None => ran == run && new == old && is == was && req is Ignored,
        },
        Err(e) => gave_up(
            run,
            ran,
            old,
            new,
            was,
            is,
            seq![MessageView::Error("Failed to save persona: "@ + e@)],
            req,
        ),
    }
}

fn take_saved(
    run: &mut JoinRun,
    state: &mut State,
    config: &mut Config,
    reply: Result<(), String>,
) -> (req: JoinRequest)
    ensures
        on_saved(
            *old(run),
            *final(run),
            *old(state),
            *final(state),
            *old(config),
            *final(config),
            reply,
            req,
        ),
{
    match reply {
        Ok(_) => {
            let id: PersonaId = match &run.persona {
                Some(p) => {
                    tell(state, cat2("Persona created: ", p.1.as_str()));
                    p.0
                },
                None => {
                    return JoinRequest::Ignored;
                },
            };
            run.minted = Some(id);
            run.stage = JoinStage::Context;
            ask_context(run, config)
        },
        Err(e) => give_up(run, state, config, cat2("Failed to save persona: ", e.as_str())),
    }
}

/// What the id of the community's context comes to.
pub open spec fn on_context(
    run: JoinRun,
    ran: JoinRun,
    old: State,
    new: State,
    was: Config,
    is: Config,
    reply: Result<String, String>,
    req: JoinRequest,
) -> bool {
    match reply {
        Ok(id) => {
            &&& ran == (JoinRun { stage: JoinStage::Registering, sub_context_id: id, ..run })
            &&& told(old, new, "Creating sub-context "@ + id@ + "…"@)
            &&& is == was
            &&& req == (JoinRequest::CreateContext { parent: was.account.top_context_id, id })
        },
        Err(e) => gave_up(
            run,
            ran,
            old,
            new,
            was,
            is,
            seq![MessageView::Error("Failed to derive sub-context id: "@ + e@)],
            req,
        ),
    }
}

fn take_context(
    run: &mut JoinRun,
    state: &mut State,
    config: &mut Config,
    reply: Result<String, String>,
) -> (req: JoinRequest)
    ensures
        on_context(
            *old(run),
            *final(run),
            *old(state),
            *final(state),
            *old(config),
            *final(config),
            reply,
            req,
        ),
{
    match reply {
        Ok(id) => {
            tell(state, cat3("Creating sub-context ", id.as_str(), "…"));
            run.sub_context_id = id.clone();
            run.stage = JoinStage::Registering;
            JoinRequest::CreateContext { parent: config.account.top_context_id.clone(), id }
        },
        Err(e) => give_up(
            run,
            state,
            config,
            cat2("Failed to derive sub-context id: ", e.as_str()),
        ),
    }
}

/// The identity that the run presents, if it is still there.
pub open spec fn presented(run: JoinRun, config: Config) -> Option<Identity> {
    match run.persona {
        Some((id, _)) => held_by(config.identities@, id),
        None => None,
    }
}

/// The lines that announce the request.
pub open spec fn submit_lines(invited: bool) -> Seq<MessageView> {
    if invited {
        seq![
            MessageView::Info("Submitting join request…"@),
            MessageView::Info("Presenting your invitation credential to the community…"@),
        ]
    } else {
        seq![MessageView::Info("Submitting join request…"@)]
    }
}

/// What registering the context comes to: the request is sent under the identity
/// presented, with the invitation at hand.
pub open spec fn on_registered(
    run: JoinRun,
    ran: JoinRun,
    old: State,
    new: State,
    was: Config,
    is: Config,
    reply: Result<(), String>,
    req: JoinRequest,
) -> bool {
    let submitting = MessageView::Info("Submitting join request…"@);
    match reply {
        Err(e) => gave_up(
            run,
            ran,
            old,
            new,
            was,
            is,
            seq![MessageView::Error("Failed to create sub-context: "@ + e@)],
            req,
        ),
        Ok(_) => if !run.messaging {
            gave_up(
                run,
                ran,
                old,
                new,
                was,
                is,
                seq![
                    submitting,
                    MessageView::Error(
                        "Messaging (ATM) unavailable — cannot submit the join request."@,
                    ),
                ],
                req,
            )
        } else {
            match presented(run, was) {
                None => gave_up(
                    run,
                    ran,
                    old,
                    new,
                    was,
                    is,
                    seq![
                        submitting,
                        MessageView::Error(
                            "Persona identity unavailable after mint — cannot submit."@,
                        ),
                    ],
                    req,
                ),
                Some(who) => {
                    &&& ran == (JoinRun { stage: JoinStage::Submitting, ..run })
                    &&& join_only(old, new)
                    &&& spoke(
                        old.join,
                        new.join,
                        submit_lines(old.invitation_credential is Some),
                        false,
                    )
                    &&& is == was
                    &&& submits(req, who, run, old.invitation_credential)
                },
            }
        },
    }
}

/// Asks the community of the run for a membership, under this identity.
pub open spec fn submits(
    req: JoinRequest,
    who: Identity,
    run: JoinRun,
    invitation: Option<String>,
) -> bool {
    &&& req matches JoinRequest::Submit { applicant, vtc_did, mediator, invitation: shown }
    &&& applicant == who.did
    &&& vtc_did == run.vtc_did
    &&& mediator@ == (match who.mediator_did {
        Some(m) => m@,
        None => Seq::empty(),
    })
    &&& shown == invitation
}

fn give_up_late(
    run: &mut JoinRun,
    state: &mut State,
    config: &mut Config,
    text: String,
    Ghost(start): Ghost<State>,
) -> (req: JoinRequest)
    requires
        told(start, *old(state), "Submitting join request…"@),
    ensures
        gave_up(
            *old(run),
            *final(run),
            start,
            *final(state),
            *old(config),
            *final(config),
            seq![
                MessageView::Info("Submitting join request…"@),
                MessageView::Error(text@),
            ],
            req,
        ),
{
    let ghost mid = state.join.said();
    let req = give_up(run, state, config, text);
    assert(state.join.said() =~= start.join.said() + seq![
        MessageView::Info("Submitting join request…"@),
        MessageView::Error(text@),
    ]);
    req
}

fn take_registered(
    run: &mut JoinRun,
    state: &mut State,
    config: &mut Config,
    reply: Result<(), String>,
) -> (req: JoinRequest)
    ensures
        on_registered(
            *old(run),
            *final(run),
            *old(state),
            *final(state),
            *old(config),
            *final(config),
            reply,
            req,
        ),
{
    if let Err(e) = &reply {
        return give_up(run, state, config, cat2("Failed to create sub-context: ", e.as_str()));
    }
    let ghost start = *state;
    tell(state, owned("Submitting join request…"));
    if !run.messaging {
        return give_up_late(
            run,
            state,
            config,
            owned("Messaging (ATM) unavailable — cannot submit the join request."),
            Ghost(start),
        );
    }
    let at: Option<usize> = match &run.persona {
        Some(p) => held_position(&config.identities, p.0),
        None => None,
    };
    let i: usize = match at {
        Some(i) => i,
        None => {
            return give_up_late(
                run,
                state,
                config,
                owned("Persona identity unavailable after mint — cannot submit."),
                Ghost(start),
            );
        },
    };
    if state.invitation_credential.is_some() {
        tell(state, owned("Presenting your invitation credential to the community…"));
    }
    assert(state.join.said() =~= start.join.said() + submit_lines(
        start.invitation_credential is Some,
    ));
    run.stage = JoinStage::Submitting;
    let who = &config.identities[i];
    JoinRequest::Submit {
        applicant: who.did.clone(),
        vtc_did: run.vtc_did.clone(),
        mediator: match &who.mediator_did {
            Some(m) => m.clone(),
            None => String::new(),
        },
        invitation: copy_opt(&state.invitation_credential),
    }
}

/// What sending the request comes to: the membership is recorded as pending, in
/// the place of any of the persona in the community, and is to be saved.
pub open spec fn on_submitted(
    run: JoinRun,
    ran: JoinRun,
    old: State,
    new: State,
    was: Config,
    is: Config,
    reply: Result<String, String>,
    now: i64,
    req: JoinRequest,
) -> bool {
    match reply {
        Ok(request_id) => match run.persona {
            Some((id, _)) => {
                let record = pending_record(
                    run.vtc_did,
                    run.display_name,
                    run.sub_context_id,
                    id,
                    request_id,
                    now,
                );
                &&& ran == (JoinRun {
                    stage: JoinStage::Recording,
                    record: Some(record),
                    ..run
                })
                &&& new == old
                &&& is == (Config {
                    account: Account { communities: is.account.communities, ..was.account },
                    ..was
                })
                &&& is.account.communities@ == was.account.communities@.filter(
                    other_membership(run.vtc_did@, id),
                ).push(record)
                &&& req is Save
            },
            None => ran == run && new == old && is == was && req is Ignored,
        },
        Err(e) => gave_up(
            run,
            ran,
            old,
            new,
            was,
            is,
            seq![MessageView::Error("Failed to submit join request: "@ + e@)],
            req,
        ),
    }
}

fn take_submitted(
    run: &mut JoinRun,
    state: &mut State,
    config: &mut Config,
    reply: Result<String, String>,
    now: i64,
) -> (req: JoinRequest)
    ensures
        on_submitted(
            *old(run),
            *final(run),
            *old(state),
            *final(state),
            *old(config),
            *final(config),
            reply,
            now,
            req,
        ),
{
    match reply {
        Ok(request_id) => {
            let id: PersonaId = match &run.persona {
                Some(p) => p.0,
                None => {
                    return JoinRequest::Ignored;
                },
            };
            let record = build_pending_record(
                run.vtc_did.clone(),
                copy_opt(&run.display_name),
                run.sub_context_id.clone(),
                id,
                request_id,
                now,
            );
            config.account.add_membership(record.duplicate());
            run.record = Some(record);
            run.stage = JoinStage::Recording;
            JoinRequest::Save
        },
        Err(e) => give_up(
            run,
            state,
            config,
            cat2("Failed to submit join request: ", e.as_str()),
        ),
    }
}

/// What saving the membership comes to: the join is done. Should it not be
/// saved, it stays in memory and the error is shown.
pub open spec fn on_recorded(
    run: JoinRun,
    ran: JoinRun,
    old: State,
    new: State,
    was: Config,
    is: Config,
    reply: Result<(), String>,
    host: Host,
    req: JoinRequest,
) -> bool {
    &&& is == was
    &&& ran == (JoinRun { stage: JoinStage::Over, ..run })
    &&& req == (JoinRequest::Finished { save: false })
    &&& match reply {
        Ok(_) => {
            &&& refreshed_and_logged(
                (State { join: new.join, ..old }),
                new,
                was,
                host,
                plain_line("Join request submitted — Pending in your Communities list."@),
            )
            &&& new.join == (JoinState {
                created_community: run.record,
                created_persona_did: match run.persona {
                    Some((_, did)) => Some(did),
                    None => None,
                },
                completed: Completion::CompletedOK,
                processing: false,
                messages: new.join.messages,
                ..old.join
            })
            &&& new.join.said() == old.join.said().push(
                MessageView::Info(
                    "Join request submitted — it's now Pending in your Communities list."@,
                ),
            )
        },
        Err(e) => {
            &&& join_only(old, new)
            &&& join_failed(old.join, new.join, "Failed to save community record: "@ + e@)
        },
    }
}

fn take_recorded(
    run: &mut JoinRun,
    state: &mut State,
    config: &Config,
    reply: Result<(), String>,
    host: &Host,
) -> (req: JoinRequest)
    ensures
        on_recorded(
            *old(run),
            *final(run),
            *old(state),
            *final(state),
            *config,
            *config,
            reply,
            *host,
            req,
        ),
{
    run.stage = JoinStage::Over;
    match reply {
        Ok(_) => {
            state.join.created_community = match &run.record {
                Some(r) => Some(r.duplicate()),
                None => None,
            };
            state.join.created_persona_did = match &run.persona {
                Some(p) => Some(p.1.clone()),
                None => None,
            };
            state.join.completed = Completion::CompletedOK;
            state.join.processing = false;
            state.join.info(
                owned("Join request submitted — it's now Pending in your Communities list."),
            );
            let ghost before = *state;
            state.main_page.sync_from_config(config, host);
            let ghost shown = *state;
            assert(refreshed(before, shown, *config, *host));
            state.main_page.log(
                owned("Join request submitted — Pending in your Communities list."),
            );
            assert(line_logged(
                shown,
                *state,
                plain_line("Join request submitted — Pending in your Communities list."@),
            ));
        },
        Err(e) => {
            state.join.fail(cat2("Failed to save community record: ", e.as_str()));
        },
    }
    JoinRequest::Finished { save: false }
}

/// What a reply comes to: it moves the sequence on where it is the one that the
/// sequence waits for, and is ignored otherwise.
pub open spec fn advanced(
    run: JoinRun,
    ran: JoinRun,
    old: State,
    new: State,
    was: Config,
    is: Config,
    reply: JoinReply,
    defaults: Defaults,
    host: Host,
    req: JoinRequest,
) -> bool {
    match (run.stage, reply) {
        (JoinStage::Naming, JoinReply::Resolved(_)) => on_named(run, ran, old, new, was, is, req),
        (JoinStage::Keys, JoinReply::PersonaKeys(r)) => on_persona_keys(
            run,
            ran,
            old,
            new,
            was,
            is,
            r,
            req,
        ),
        (JoinStage::UpdateKeys, JoinReply::UpdateKeys(r)) => on_update_keys(
            run,
            ran,
            old,
            new,
            was,
            is,
            r,
            req,
        ),
        (JoinStage::Servers, JoinReply::Servers(r)) => on_servers(
            run,
            ran,
            old,
            new,
            was,
            is,
            r,
            req,
        ),
        (JoinStage::Did, JoinReply::Did(r)) => on_did(run, ran, old, new, was, is, r, req),
        (JoinStage::Profile, JoinReply::Profile(r, id, now)) => on_profile(
            run,
            ran,
            old,
            new,
            was,
            is,
            r,
            id,
            now,
            defaults,
            req,
        ),
        (JoinStage::Saving, JoinReply::Saved(r)) => on_saved(run, ran, old, new, was, is, r, req),
        (JoinStage::Context, JoinReply::Context(r)) => on_context(
            run,
            ran,
            old,
            new,
            was,
            is,
            r,
            req,
        ),
        (JoinStage::Registering, JoinReply::Registered(r)) => on_registered(
            run,
            ran,
            old,
            new,
            was,
            is,
            r,
            req,
        ),
        (JoinStage::Submitting, JoinReply::Submitted(r, now)) => on_submitted(
            run,
            ran,
            old,
            new,
            was,
            is,
            r,
            now,
            req,
        ),
        (JoinStage::Recording, JoinReply::Recorded(r)) => on_recorded(
            run,
            ran,
            old,
            new,
            was,
            is,
            r,
            host,
            req,
        ),
        _ => ran == run && new == old && is == was && req is Ignored,
    }
}

/// Moves the sequence on by the reply to its last request.
pub fn run_join_sequence(
    run: &mut JoinRun,
    state: &mut State,
    config: &mut Config,
    reply: JoinReply,
    defaults: &Defaults,
    host: &Host,
) -> (req: JoinRequest)
    ensures
        advanced(
            *old(run),
            *final(run),
            *old(state),
            *final(state),
            *old(config),
            *final(config),
            reply,
            *defaults,
            *host,
            req,
        ),
        req matches JoinRequest::Submit { vtc_did, invitation, .. } ==> vtc_did == old(run).vtc_did
            && invitation == old(state).invitation_credential,
        final(run).vtc_did == old(run).vtc_did,
        final(run).choice == old(run).choice,
{
    match (run.stage, reply) {
        (JoinStage::Naming, JoinReply::Resolved(doc)) => take_named(run, state, config, &doc),
        (JoinStage::Keys, JoinReply::PersonaKeys(r)) => take_persona_keys(run, state, config, r),
        (JoinStage::UpdateKeys, JoinReply::UpdateKeys(r)) => take_update_keys(
            run,
            state,
            config,
            r,
        ),
        (JoinStage::Servers, JoinReply::Servers(r)) => take_servers(run, state, config, r),
        (JoinStage::Did, JoinReply::Did(r)) => take_did(run, state, config, r),
        (JoinStage::Profile, JoinReply::Profile(r, id, now)) => take_profile(
            run,
            state,
            config,
            r,
            id,
            now,
            defaults,
        ),
        (JoinStage::Saving, JoinReply::Saved(r)) => take_saved(run, state, config, r),
        (JoinStage::Context, JoinReply::Context(r)) => take_context(run, state, config, r),
        (JoinStage::Registering, JoinReply::Registered(r)) => take_registered(
            run,
            state,
            config,
            r,
        ),
        (JoinStage::Submitting, JoinReply::Submitted(r, now)) => take_submitted(
            run,
            state,
            config,
            r,
            now,
        ),
        (JoinStage::Recording, JoinReply::Recorded(r)) => take_recorded(
            run,
            state,
            config,
            r,
            host,
        ),
        _ => JoinRequest::Ignored,
    }
}

/// What cancelling a run comes to: a persona that was made for it is taken back,
/// unless a membership presents it by now.
pub open spec fn join_cancelled(
    run: JoinRun,
    old: State,
    new: State,
    was: Config,
    is: Config,
    save: bool,
) -> bool {
    &&& save == (run.minted matches Some(id) && !holds_some(was.account.communities@, id))
    &&& if save {
        rolled_back(was, is, run.minted->0, old.setup.did_keys, run.prior_friendly_name@)
    } else {
        is == was
    }
    &&& new.join == (JoinState {
        processing: false,
        completed: Completion::CompletedFail,
        messages: new.join.messages,
        ..old.join
    })
    &&& new.join.said() == old.join.said().push(
        MessageView::Info(
            "Join cancelled. Any partially-minted persona was rolled back; a sub-context may remain at the VTA."@,
        ),
    )
    &&& line_logged(
        (State { join: new.join, ..old }),
        new,
        plain_line("Join cancelled by user."@),
    )
}

/// Cancels a run; tells whether the configuration is to be saved.
pub fn cancel_join(run: &JoinRun, state: &mut State, config: &mut Config) -> (save: bool)
    ensures
        join_cancelled(*run, *old(state), *final(state), *old(config), *final(config), save),
{
    let orphan: Option<PersonaId> = match run.minted {
        Some(id) => if config.account.persona_referenced(id) {
            None
        } else {
            Some(id)
        },
        None => None,
    };
    let save = match orphan {
        Some(id) => {
            rollback_minted_persona(config, id, &state.setup, run.prior_friendly_name.as_str());
            true
        },
        None => false,
    };
    state.join.processing = false;
    state.join.completed = Completion::CompletedFail;
    state.join.info(
        owned(
            "Join cancelled. Any partially-minted persona was rolled back; a sub-context may remain at the VTA.",
        ),
    );
    state.main_page.log(owned("Join cancelled by user."));
    save
}

/// A run that presents an old persona keeps to it: whatever comes back, no
/// persona, no identity and no key of the account is added or taken.
pub proof fn law_reused_persona_stays(
    run: JoinRun,
    ran: JoinRun,
    old: State,
    new: State,
    was: Config,
    is: Config,
    reply: JoinReply,
    defaults: Defaults,
    host: Host,
    req: JoinRequest,
)
    requires
        run.wf(),
        run.choice is Reuse,
        advanced(run, ran, old, new, was, is, reply, defaults, host, req),
    ensures
        is.account.personas == was.account.personas,
        is.identities == was.identities,
        is.key_info == was.key_info,
        ran.wf(),
        ran.choice == run.choice,
{
}

/// The sequence comes to an end: every reply that it waits for brings it closer,
/// and it is over exactly when it says so.
pub proof fn law_sequence_ends(
    run: JoinRun,
    ran: JoinRun,
    old: State,
    new: State,
    was: Config,
    is: Config,
    reply: JoinReply,
    defaults: Defaults,
    host: Host,
    req: JoinRequest,
)
    requires
        advanced(run, ran, old, new, was, is, reply, defaults, host, req),
    ensures
        req is Ignored || ran.stage.rank() > run.stage.rank(),
        req is Finished <==> ran.stage is Over && run.stage !is Over,
        ran.stage.rank() <= JoinStage::Over.rank(),
{
}

/// A join is reported as done only where its membership was saved, and it is done
/// with the membership that was recorded.
pub proof fn law_success_is_recorded(
    run: JoinRun,
    ran: JoinRun,
    old: State,
    new: State,
    was: Config,
    is: Config,
    reply: JoinReply,
    defaults: Defaults,
    host: Host,
    req: JoinRequest,
)
    requires
        advanced(run, ran, old, new, was, is, reply, defaults, host, req),
        old.join.completed !is CompletedOK,
        new.join.completed is CompletedOK,
    ensures
        run.stage is Recording,
        reply matches JoinReply::Recorded(r) && r is Ok,
        new.join.created_community == run.record,
{
}

/// An invitation that is at hand goes to the community with the request: the
/// request carries it word for word, none goes out where none is at hand, and
/// the screen announces one exactly when the request carries one.
pub proof fn law_invitation_goes_with_the_request(
    run: &mut JoinRun,
    state: &mut State,
    config: &mut Config,
    reply: JoinReply,
    defaults: &Defaults,
    host: &Host,
    req: JoinRequest,
)
    requires
        call_ensures(run_join_sequence, (run, state, config, reply, defaults, host), req),
        req is Submit,
    ensures
        req->invitation == old(state).invitation_credential,
        final(state).invitation_credential == old(state).invitation_credential,
        final(state).join.said().len() > old(state).join.said().len(),
        req->invitation is Some <==> final(state).join.said().last() == MessageView::Info(
            "Presenting your invitation credential to the community…"@,
        ),
{
    reveal_strlit("Presenting your invitation credential to the community…");
    reveal_strlit("Submitting join request…");
    let lines = submit_lines(old(state).invitation_credential is Some);
    assert(final(state).join.said().last() == lines.last());
    assert("Presenting your invitation credential to the community…"@[0] == 'P');
    assert("Submitting join request…"@[0] == 'S');
}

/// The request asks the community of the run for a membership of the persona of
/// the run: it goes out under that persona's DID, by its mediator.
pub proof fn law_request_names_both_sides(
    run: &mut JoinRun,
    state: &mut State,
    config: &mut Config,
    reply: JoinReply,
    defaults: &Defaults,
    host: &Host,
    req: JoinRequest,
)
    requires
        call_ensures(run_join_sequence, (run, state, config, reply, defaults, host), req),
        req is Submit,
    ensures
        req->Submit_vtc_did@ == old(run).vtc_did@,
        old(run).persona matches Some(p) && (held_by(old(config).identities@, p.0) matches Some(who)
            && req->applicant@ == who.did@ && (who.mediator_did matches Some(m) ==> req->mediator@
            == m@)),
        old(run).messaging,
        reply matches JoinReply::Registered(r) && r is Ok,
{
}

/// A run keeps to what it was launched for: the community, the choice of
/// identity and the name to go back to stay as they are, whatever comes back.
pub proof fn law_run_keeps_its_aim(
    run: &mut JoinRun,
    state: &mut State,
    config: &mut Config,
    reply: JoinReply,
    defaults: &Defaults,
    host: &Host,
    req: JoinRequest,
)
    requires
        call_ensures(run_join_sequence, (run, state, config, reply, defaults, host), req),
    ensures
        final(run).vtc_did == old(run).vtc_did,
        final(run).choice == old(run).choice,
        final(run).prior_friendly_name == old(run).prior_friendly_name,
        final(run).messaging == old(run).messaging,
        final(state).invitation_credential == old(state).invitation_credential,
        old(run).persona is Some && final(run).persona is Some && old(run).stage.rank() >= 6 ==> final(run).persona
            == old(run).persona,
        old(run).stage.rank() >= 8 ==> final(run).sub_context_id == old(run).sub_context_id,
{
}

/// The community's context is registered under the id that was derived for it,
/// below the account's own, and the membership is filed under that id.
pub proof fn law_context_is_the_derived_one(
    run: &mut JoinRun,
    state: &mut State,
    config: &mut Config,
    reply: JoinReply,
    defaults: &Defaults,
    host: &Host,
    req: JoinRequest,
    id: String,
)
    requires
        call_ensures(run_join_sequence, (run, state, config, reply, defaults, host), req),
        reply == JoinReply::Context(Ok::<String, String>(id)),
        old(run).stage is Context,
    ensures
        req is CreateContext && req->CreateContext_id@ == id@,
        req->CreateContext_parent@ == old(config).account.top_context_id@,
        final(run).sub_context_id@ == id@,
        *final(config) == *old(config),
{
}

/// Once the request is out, the account holds the membership as pending: of the
/// persona presented, in the community asked, under the id of the request, since
/// the moment given. It is live, it is to be saved, and no other membership is
/// touched.
pub proof fn law_request_is_recorded(
    run: &mut JoinRun,
    state: &mut State,
    config: &mut Config,
    reply: JoinReply,
    defaults: &Defaults,
    host: &Host,
    req: JoinRequest,
    request_id: String,
    now: i64,
)
    requires
        call_ensures(run_join_sequence, (run, state, config, reply, defaults, host), req),
        old(run).stage is Submitting,
        reply == JoinReply::Submitted(Ok::<String, String>(request_id), now),
        old(run).persona is Some,
    ensures
        final(config).account.communities@.len() > 0,
        final(config).account.communities@.last().vtc_did@ == old(run).vtc_did@,
        final(config).account.communities@.last().persona_ref == (old(run).persona->0).0,
        final(config).account.communities@.last().sub_context_id@ == old(run).sub_context_id@,
        final(config).account.communities@.last().status matches CommunityStatus::Pending { request_id: r }
            && r@ == request_id@,
        final(config).account.communities@.last().requested_at == Some(now),
        final(config).account.communities@.last().member_since is None,
        final(config).account.communities@.last().live(),
        live_in(final(config).account.communities@, old(run).vtc_did@),
        forall|c: CommunityRecord|
            old(config).account.communities@.contains(c) && !c.is_membership(
                old(run).vtc_did@,
                (old(run).persona->0).0,
            ) ==> #[trigger] final(config).account.communities@.contains(c),
        final(config).account.personas == old(config).account.personas,
        final(config).identities == old(config).identities,
        final(run).record == Some(final(config).account.communities@.last()),
        req is Save,
{
    let s = old(config).account.communities@;
    let keep = other_membership(run.vtc_did@, (old(run).persona->0).0);
    let t = final(config).account.communities@;
    assert(t == s.filter(keep).push(t.last()));
    assert forall|c: CommunityRecord| s.contains(c) && !c.is_membership(
        old(run).vtc_did@,
        (old(run).persona->0).0,
    ) implies #[trigger] t.contains(c) by {
        broadcast use vstd::seq_lib::group_filter_ensures;

        assert(keep(c));
        assert(s.filter(keep).contains(c));
        let k = choose|k: int| 0 <= k < s.filter(keep).len() && s.filter(keep)[k] == c;
        assert(t[k] == c);
    }
    assert(t[t.len() - 1].vtc_did@ == old(run).vtc_did@ && t[t.len() - 1].live());
}

/// Nothing but a sent request brings a membership: every other step leaves the
/// memberships of the account alone, and so does a join that fails.
pub proof fn law_no_membership_without_request(
    run: &mut JoinRun,
    state: &mut State,
    config: &mut Config,
    reply: JoinReply,
    defaults: &Defaults,
    host: &Host,
    req: JoinRequest,
)
    requires
        call_ensures(run_join_sequence, (run, state, config, reply, defaults, host), req),
        final(config).account.communities != old(config).account.communities,
    ensures
        reply matches JoinReply::Submitted(r, _) && r is Ok,
        old(run).stage is Submitting,
        req is Save,
{
}

/// A failure is shown as one: where the sequence ends by it, the flow is no
/// longer busy, its outcome is a failure, and the last line says why.
pub proof fn law_failures_are_shown(
    run: &mut JoinRun,
    state: &mut State,
    config: &mut Config,
    reply: JoinReply,
    defaults: &Defaults,
    host: &Host,
    req: JoinRequest,
)
    requires
        call_ensures(run_join_sequence, (run, state, config, reply, defaults, host), req),
        req is Finished,
        !(reply matches JoinReply::Recorded(r) && r is Ok),
    ensures
        final(state).join.completed is CompletedFail,
        !final(state).join.processing,
        final(state).join.said().len() > old(state).join.said().len(),
        final(state).join.said().last() is Error,
        final(state).join.created_community == old(state).join.created_community,
        final(config).account.communities == old(config).account.communities,
{
}

/// A new persona is entered with the DID that was made for it: its record and
/// its identity hold that DID and its document, its mediator is that of the
/// account's VTA where it has one, it goes by the name of the community, and it
/// is the persona that the run presents from then on.
pub proof fn law_minted_persona_is_the_hosted_one(
    run: JoinRun,
    mid: JoinRun,
    ran: JoinRun,
    old: State,
    between: State,
    new: State,
    was: Config,
    held: Config,
    is: Config,
    hosted: HostedDid,
    id: PersonaId,
    now: i64,
    defaults: Defaults,
    host: Host,
    req: JoinRequest,
    last: JoinRequest,
)
    requires
        run.stage is Did,
        advanced(
            run,
            mid,
            old,
            between,
            was,
            held,
            JoinReply::Did(Ok::<HostedDid, String>(hosted)),
            defaults,
            host,
            req,
        ),
        advanced(
            mid,
            ran,
            between,
            new,
            held,
            is,
            JoinReply::Profile(Ok::<(), String>(()), id, now),
            defaults,
            host,
            last,
        ),
    ensures
        req is BuildProfile && req->BuildProfile_did@ == hosted.did@,
        held_by(is.identities@, id) matches Some(who) && who.did@ == hosted.did@ && who.document@
            == hosted.document@ && opt_view(who.mediator_did) == Some(
            match vta_mediator(was.key_backend) {
                Some(m) => m@,
                None => defaults.mediator_did@,
            },
        ),
        held_by(is.account.personas@, id) matches Some(p) && p.did@ == hosted.did@ && p.created_at
            == now,
        ran.persona matches Some(p) && p.0 == id && p.1@ == hosted.did@,
        last is Save,
{
    lemma_held_by_push(was.identities@.filter(held_by_others(id)), is.identities@.last(), id);
    lemma_held_by_push(
        was.account.personas@.filter(held_by_others(id)),
        is.account.personas@.last(),
        id,
    );
    lemma_others_only(was.identities@, id);
    lemma_others_only(was.account.personas@, id);
}

proof fn lemma_others_only<T: Held>(s: Seq<T>, id: PersonaId)
    ensures
        held_by(s.filter(held_by_others(id)), id) is None,
    decreases s.len(),
{
    reveal(Seq::filter);
    if s.len() > 0 {
        let d = s.drop_last();
        lemma_others_only(d, id);
        if s.last().holder() != id {
            lemma_held_by_push(d.filter(held_by_others(id)), s.last(), id);
        }
    } else {
        assert(s.filter(held_by_others(id)) =~= s);
    }
}

/// The community that is asked is the one that was entered: a run is launched
/// for the DID in the entry, or for the one that was entered before the identity
/// was chosen.
pub proof fn law_entered_community_is_joined(
    state: &mut State,
    config: &Config,
    action: Action,
    step: JoinStep,
)
    requires
        call_ensures(handle_join_action, (state, config, action), step),
    ensures
        action matches Action::JoinSubmitVtc(raw) ==> {
            &&& step is Launch ==> step->vtc_did@ == trimmed(raw@) && trimmed(raw@).len() > 0
            &&& trimmed(raw@).len() > 0 && !live_in(config.account.communities@, trimmed(raw@))
                && step !is Launch ==> opt_view(final(state).join.pending_vtc) == Some(trimmed(raw@))
        },
        step is Launch && action !is JoinSubmitVtc ==> opt_view(old(state).join.pending_vtc) == Some(
            step->vtc_did@,
        ),
        final(state).join.pending_vtc != old(state).join.pending_vtc ==> action is JoinSubmitVtc,
        action !is JoinPasteVic ==> final(state).invitation_credential == old(state).invitation_credential,
{
}

/// Where the account has a persona to choose from, none is made or presented on
/// entering a DID, unless the invitation is bound to one; where it has none, a
/// new one is made.
pub proof fn law_identity_is_the_users_choice(
    state: &mut State,
    config: &Config,
    raw: String,
    step: JoinStep,
)
    requires
        call_ensures(handle_join_action, (state, config, Action::JoinSubmitVtc(raw)), step),
        old(state).invitation_credential is None,
    ensures
        step is Launch ==> config.account.personas@.len() == 0 && step->choice is Mint,
        step is Stay && final(state).join.page is IdentityChoice && old(state).join.page !is IdentityChoice
            ==> config.account.personas@.len() > 0 && final(state).join.reuse_confirm is None,
{
}

/// A run is launched for the community and the identity chosen, with the
/// community's DID to be resolved first; without a session with the VTA it is
/// over at once and nothing is asked for.
pub proof fn law_launch_aims_at_the_choice(
    state: &mut State,
    config: &Config,
    choice: JoinIdentityChoice,
    vtc_did: String,
    session: bool,
    messaging: bool,
    r: (JoinRun, JoinRequest),
)
    requires
        call_ensures(
            launch_join_sequence,
            (state, config, choice, vtc_did, session, messaging),
            r,
        ),
    ensures
        r.0.choice == choice && r.0.vtc_did@ == vtc_did@ && r.0.messaging == messaging,
        r.0.prior_friendly_name@ == config.public.friendly_name@,
        r.0.minted is None && r.0.persona is None && r.0.record is None,
        session ==> r.1 is Resolve && r.1->Resolve_did@ == vtc_did@ && final(state).join.processing
            && final(state).join.completed is NotFinished,
        !session ==> r.1 == (JoinRequest::Finished { save: false }) && r.0.stage is Over
            && final(state).join.completed is CompletedFail && !final(state).join.processing,
        final(state).join.page is Progress,
        final(state).invitation_credential == old(state).invitation_credential,
{
}

/// A persona that is presented again is the one chosen, under the DID that the
/// account holds for it.
pub proof fn law_reused_persona_is_the_chosen_one(
    run: &mut JoinRun,
    state: &mut State,
    config: &mut Config,
    reply: JoinReply,
    defaults: &Defaults,
    host: &Host,
    req: JoinRequest,
    id: PersonaId,
)
    requires
        call_ensures(run_join_sequence, (run, state, config, reply, defaults, host), req),
        old(run).stage is Naming,
        old(run).choice == JoinIdentityChoice::Reuse(id),
        final(run).stage is Context,
    ensures
        final(run).persona matches Some(p) && p.0 == id && (held_by(old(config).identities@, id) matches Some(
            who,
        ) && p.1@ == who.did@),
        *final(config) == *old(config),
{
}

/// A finished join hands its session out: that of the persona and the community
/// of the membership that was recorded, and none where none was.
pub proof fn law_finished_join_brings_its_session(
    state: &mut State,
    config: &Config,
    step: JoinStep,
)
    requires
        call_ensures(handle_join_action, (state, config, Action::JoinCancel), step),
    ensures
        step matches JoinStep::Leave(JoinExit::Returned(session)) && (session is Some
            <==> old(state).join.created_community is Some) && (session matches Some(s)
            ==> s.persona_id == old(state).join.created_community->0.persona_ref && s.vtc_did@
            == old(state).join.created_community->0.vtc_did@ && (old(state).join.created_persona_did matches Some(
            d,
        ) ==> s.persona_did@ == d@)),
        final(state).active_page is Main,
{
}

/// A join that is cancelled takes back the persona made for it, and only that:
/// memberships stay, and so does every other persona and identity, and a persona
/// that a membership presents.
pub proof fn law_cancelling_takes_only_the_orphan(
    run: &JoinRun,
    state: &mut State,
    config: &mut Config,
    save: bool,
)
    requires
        call_ensures(cancel_join, (run, state, config), save),
    ensures
        final(config).account.communities == old(config).account.communities,
        !final(state).join.processing && final(state).join.completed is CompletedFail,
        run.minted is None ==> *final(config) == *old(config) && !save,
        run.minted matches Some(id) ==> {
            &&& holds_some(old(config).account.communities@, id) ==> *final(config) == *old(config) && !save
            &&& !holds_some(old(config).account.communities@, id) ==> save && held_by(
                final(config).account.personas@,
                id,
            ) is None && held_by(final(config).identities@, id) is None && final(config).public.friendly_name@
                == run.prior_friendly_name@
            &&& forall|p: PersonaRecord|
                old(config).account.personas@.contains(p) && p.persona_id != id
                    ==> #[trigger] final(config).account.personas@.contains(p)
        },
{
    if let Some(id) = run.minted {
        lemma_others_only(old(config).account.personas@, id);
        lemma_others_only(old(config).identities@, id);
        assert forall|p: PersonaRecord| old(config).account.personas@.contains(p) && p.persona_id
            != id implies #[trigger] final(config).account.personas@.contains(p) by {
            broadcast use vstd::seq_lib::group_filter_ensures;

            let keep = held_by_others::<PersonaRecord>(id);
            assert(keep(p));
        }
    }
}

/// A DID that was entered is taken without the white space around it; nothing but
/// white space is no DID.
pub proof fn law_entered_did_is_trimmed(raw: &str, r: Option<String>)
    requires
        call_ensures(validate_join_input, (raw,), r),
    ensures
        r is None <==> trimmed(raw@).len() == 0,
        r is Some ==> r->0@ == trimmed(raw@),
{
}

/// A join is a duplicate exactly where a membership of that community is in force
/// or asked for.
pub proof fn law_duplicate_means_live(config: Config, vtc: &str, r: bool)
    requires
        call_ensures(is_duplicate_membership, (&config, vtc), r),
    ensures
        r <==> exists|i: int|
            0 <= i < config.account.communities@.len() && (
            #[trigger] config.account.communities@[i]).vtc_did@ == vtc@ && (
            config.account.communities@[i].status is Active || config.account.communities@[i].status
                is Pending),
{
    let s = config.account.communities@;
    if r {
        let i = choose|i: int| 0 <= i < s.len() && (#[trigger] s[i]).vtc_did@ == vtc@ && s[i].live();
        assert(s[i].vtc_did@ == vtc@);
    }
    if exists|i: int|
        0 <= i < s.len() && (#[trigger] s[i]).vtc_did@ == vtc@ && (s[i].status is Active
            || s[i].status is Pending) {
        let i = choose|i: int|
            0 <= i < s.len() && (#[trigger] s[i]).vtc_did@ == vtc@ && (s[i].status is Active
                || s[i].status is Pending);
        assert(s[i].live());
    }
}

/// The record of a join names the community, the persona and the request that it
/// was made with, and waits for the answer from then on.
pub proof fn law_record_of_a_join(
    vtc_did: String,
    display_name: Option<String>,
    context: String,
    persona: PersonaId,
    request_id: String,
    now: i64,
    r: CommunityRecord,
)
    requires
        call_ensures(
            build_pending_record,
            (vtc_did, display_name, context, persona, request_id, now),
            r,
        ),
    ensures
        r.vtc_did == vtc_did,
        r.sub_context_id == context,
        r.persona_ref == persona,
        r.status == (CommunityStatus::Pending { request_id }),
        r.requested_at == Some(now),
        r.member_since is None,
        r.membership_credential is None,
        r.role_credential is None,
        !r.archived,
{
}

/// An invitation that is pasted is kept as it is and is the one to be presented;
/// any other text leaves the invitation that there was.
pub proof fn law_pasted_invitation_is_kept(state: &mut State, text: String)
    requires
        call_ensures(paste_vic, (state, text), ()),
    ensures
        is_invitation(text@) ==> final(state).invitation_credential == Some(text)
            && final(state).join.has_invitation,
        !is_invitation(text@) ==> final(state).invitation_credential
            == old(state).invitation_credential && final(state).join.has_invitation
            == old(state).join.has_invitation && final(state).join.said().last() is Error,
        final(state).join.pending_vtc == old(state).join.pending_vtc,
{
}

/// The flow opens empty, on the page where the community is entered, and with the
/// invitation that is at hand.
pub proof fn law_join_opens_empty(state: &mut State)
    requires
        call_ensures(enter_join, (state,), ()),
    ensures
        final(state).active_page is Join,
        final(state).join.page is EnterDid,
        final(state).join.pending_vtc is None,
        final(state).join.created_community is None,
        !final(state).join.processing,
        final(state).join.messages@.len() == 0,
        final(state).join.has_invitation <==> old(state).invitation_credential is Some,
        final(state).invitation_credential == old(state).invitation_credential,
{
}

/// An identity that the invitation is bound to is presented without asking; one of
/// the account's own is presented again only after it was confirmed.
pub proof fn law_chosen_identity_is_asked_about(
    chosen: &mut State,
    confirmed: &mut State,
    a: JoinStep,
    b: JoinStep,
)
    requires
        call_ensures(choose_identity, (chosen,), a),
        *old(confirmed) == *final(chosen),
        call_ensures(confirm_reuse, (confirmed,), b),
        old(chosen).join.identity_selected < old(chosen).join.persona_options@.len(),
        old(chosen).join.pending_vtc is Some,
    ensures
        a is Stay,
        final(chosen).join.reuse_confirm == Some(
            old(chosen).join.persona_options@[old(chosen).join.identity_selected as int].id,
        ),
        launches(
            b,
            JoinIdentityChoice::Reuse(
                old(chosen).join.persona_options@[old(chosen).join.identity_selected as int].id,
            ),
            old(chosen).join.pending_vtc->0@,
        ),
        final(confirmed).join.reuse_confirm is None,
{
}

} // verus!
