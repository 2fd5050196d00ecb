//! What the credentials panel does.

use crate::actions::CredentialAction;
use crate::config::{Config, ProtectedConfig, PublicConfig};
use crate::content::{CredentialTab, CredentialsMode, CredentialsState, RelationshipSummary};
use crate::clock::clock_read;
use crate::didcomm::{
    build_didcomm_message, listener_id_for_did, listener_view, BodyView, Envelope, OutboundBody,
    OutboundView, MESSAGE_LIFETIME,
};
use crate::dispatch_util::{
    record_error, save_and_sync, went_well, went_wrong, Panel, Persist, SyncLog,
};
use crate::display::{log_did, log_did_view};
use crate::keyed::lookup;
use crate::ledger::{
    lemma_task_filed, other_vrc, task_filed, LogFamily, Relationship, TaskType, VrcEntry,
};
use crate::main_page::{plain_line, ErrorText};
use crate::save_coalesce::SaveScheduler;
use crate::state::State;
use crate::sync::Host;
use crate::text::{cat2, cat3, cat5, opt_view, owned, same};
use vstd::prelude::*;

verus! {

// ---------------------------------------------------------------------------
// Requests
// ---------------------------------------------------------------------------

/// A request for a credential, ready to be sent.
#[derive(Clone, Debug)]
pub struct VrcJob {
    pub remote_p_did: String,
    pub envelope: Envelope,
}

/// A request for a credential from this party, over the relationship with it.
pub open spec fn requests_vrc(
    job: VrcJob,
    config: Config,
    remote_p_did: Seq<char>,
    reason: Option<String>,
) -> bool {
    &&& lookup(config.private.relationships@, remote_p_did) matches Some(rel)
    &&& job.remote_p_did@ == remote_p_did
    &&& job.envelope.listener_id@ == listener_view(rel.our_did@, config)
    &&& job.envelope.to_did@ == rel.remote_did@
    &&& job.envelope.message@ == (OutboundView {
        from: rel.our_did@,
        to: rel.remote_did@,
        thid: None,
        body: BodyView::VrcRequest { reason: opt_view(reason) },
    })
    &&& job.envelope.message.stamped(Some(MESSAGE_LIFETIME))
}

/// The error of a party that there is no relationship with.
pub open spec fn no_relationship(remote_p_did: Seq<char>) -> Seq<char> {
    "No relationship found for "@ + remote_p_did
}

/// Makes a request for a credential.
pub fn prepare_vrc_request(config: &Config, remote_p_did: &str, reason: Option<String>) -> (r:
    Result<VrcJob, ErrorText>)
    ensures
        match r {
            Ok(job) => requests_vrc(job, *config, remote_p_did@, reason),
            Err(e) => e.says(no_relationship(remote_p_did@)),
        },
        r is Ok <==> lookup(config.private.relationships@, remote_p_did@) is Some,
{
    match config.private.relationships.get(remote_p_did) {
        None => Err(ErrorText::plain(cat2("No relationship found for ", remote_p_did))),
        Some(rel) => {
            let message = build_didcomm_message(
                OutboundBody::VrcRequest { reason },
                rel.our_did.as_str(),
                rel.remote_did.as_str(),
                None,
            );
            let listener_id = listener_id_for_did(rel.our_did.as_str(), config);
            Ok(
                VrcJob {
                    remote_p_did: owned(remote_p_did),
                    envelope: Envelope { listener_id, to_did: rel.remote_did.clone(), message },
                },
            )
        },
    }
}

/// `new` is `old` after a request for a credential was sent: a task tracks it
/// and the log says so.
pub open spec fn vrc_requested(old: Config, new: Config, job: VrcJob) -> bool {
    &&& new == (Config {
        public: PublicConfig { logs: new.public.logs, ..old.public },
        private: ProtectedConfig { tasks: new.private.tasks, ..old.private },
        ..old
    })
    &&& task_filed(
        old.private.tasks@,
        new.private.tasks@,
        job.envelope.message.id@,
        TaskType::VRCRequestOutbound { remote_p_did: job.remote_p_did },
        None,
    )
    &&& new.public.logs@ == old.public.logs@.push(
        (
            LogFamily::Relationship,
            "Requested VRC from ("@ + job.remote_p_did@ + ") Task ID ("@ + job.envelope.message.id@
                + ")"@,
        ),
    )
}

/// Takes note of what became of a request for a credential.
pub fn vrc_request_sent(config: &mut Config, job: VrcJob, sent: Result<(), String>) -> (r: Result<
    (),
    ErrorText,
>)
    ensures
        match sent {
            Ok(_) => r is Ok && vrc_requested(*old(config), *final(config), job),
            Err(e) => {
                &&& *final(config) == *old(config)
                &&& r matches Err(t) && t.says("failed to send VRC request: "@ + e@)
            },
        },
{
    match sent {
        Err(e) => Err(ErrorText::plain(cat2("failed to send VRC request: ", e.as_str()))),
        Ok(_) => {
            let id = job.envelope.message.id;
            let line = cat5(
                "Requested VRC from (",
                job.remote_p_did.as_str(),
                ") Task ID (",
                id.as_str(),
                ")",
            );
            config.private.tasks.new_task(
                id.as_str(),
                TaskType::VRCRequestOutbound { remote_p_did: job.remote_p_did },
            );
            config.note(LogFamily::Relationship, line);
            Ok(())
        },
    }
}

/// `new` is `old` without this credential, received or issued.
pub open spec fn vrc_removed(old: Config, new: Config, vrc_id: Seq<char>) -> bool {
    &&& new == (Config {
        public: PublicConfig { logs: new.public.logs, ..old.public },
        private: ProtectedConfig {
            vrcs_received: new.private.vrcs_received,
            vrcs_issued: new.private.vrcs_issued,
            ..old.private
        },
        ..old
    })
    &&& new.private.vrcs_received.entries@ == old.private.vrcs_received.entries@.filter(
        other_vrc(vrc_id),
    )
    &&& new.private.vrcs_issued.entries@ == old.private.vrcs_issued.entries@.filter(
        other_vrc(vrc_id),
    )
    &&& new.public.logs@ == old.public.logs@.push(
        (LogFamily::Task, "Removed VRC ("@ + vrc_id + ")"@),
    )
}

/// Removes a credential, received or issued.
pub fn remove_vrc(config: &mut Config, vrc_id: &str)
    ensures
        vrc_removed(*old(config), *final(config), vrc_id@),
{
    config.private.vrcs_received.remove_vrc(vrc_id);
    config.private.vrcs_issued.remove_vrc(vrc_id);
    config.note(LogFamily::Task, cat3("Removed VRC (", vrc_id, ")"));
}

// ---------------------------------------------------------------------------
// The panel
// ---------------------------------------------------------------------------

impl CredentialTab {
    /// The tab that follows this one, round and round.
    pub open spec fn following(self) -> CredentialTab {
        match self {
            CredentialTab::Received => CredentialTab::Issued,
            CredentialTab::Issued => CredentialTab::Membership,
            CredentialTab::Membership => CredentialTab::Received,
        }
    }
}

/// Goes to the next tab.
pub fn handle_switch_tab(state: &mut State)
    ensures
        *final(state) == old(state).with_credentials(
            CredentialsState {
                selected_tab: old(state).credentials().selected_tab.following(),
                selected_index: 0,
                ..old(state).credentials()
            },
        ),
{
    state.main_page.content_panel.credentials.selected_tab = match
        state.main_page.content_panel.credentials.selected_tab {
        CredentialTab::Received => CredentialTab::Issued,
        CredentialTab::Issued => CredentialTab::Membership,
        CredentialTab::Membership => CredentialTab::Received,
    };
    state.main_page.content_panel.credentials.selected_index = 0;
}

/// Three switches lead back to the same tab, and no fewer.
pub proof fn law_tabs_go_round(tab: CredentialTab)
    ensures
        tab.following() != tab,
        tab.following().following() != tab,
        tab.following().following().following() == tab,
{
}

/// Shows one credential.
pub fn handle_open_detail(state: &mut State, index: usize)
    ensures
        *final(state) == old(state).with_credentials(
            CredentialsState {
                selected_index: index,
                mode: CredentialsMode::Detail { index },
                ..old(state).credentials()
            },
        ),
{
    state.main_page.content_panel.credentials.selected_index = index;
    state.main_page.content_panel.credentials.mode = CredentialsMode::Detail { index };
}

/// Goes back to the list.
pub fn handle_back(state: &mut State)
    ensures
        *final(state) == old(state).with_credentials(
            CredentialsState {
                selected_index: 0,
                mode: CredentialsMode::List,
                ..old(state).credentials()
            },
        ),
{
    state.main_page.content_panel.credentials.mode = CredentialsMode::List;
    state.main_page.content_panel.credentials.selected_index = 0;
}

/// Opens an empty form for a request.
pub fn handle_start_new_request(state: &mut State)
    ensures
        *final(state) == old(state).with_credentials(
            CredentialsState { mode: final(state).credentials().mode, ..old(state).credentials() },
        ),
        final(state).credentials().mode matches CredentialsMode::NewRequest {
            relationship_index,
            reason_input,
        } && relationship_index == 0 && reason_input@.len() == 0,
{
    state.main_page.content_panel.credentials.mode =
    CredentialsMode::NewRequest { relationship_index: 0, reason_input: String::new() };
}

/// How many of these relationships are shown as established.
pub open spec fn established_count(s: Seq<RelationshipSummary>) -> nat
    decreases s.len(),
{
    if s.len() == 0 {
        0
    } else {
        established_count(s.drop_last()) + (if s.last().state@ == "Established"@ {
            1nat
        } else {
            0nat
        })
    }
}

fn count_established(v: &Vec<RelationshipSummary>) -> (r: usize)
    ensures
        r == established_count(v@),
{
    let mut n: usize = 0;
    let mut i: usize = 0;
    assert(v@.take(0) =~= Seq::<RelationshipSummary>::empty());
    while i < v.len()
        invariant
            i <= v@.len(),
            n <= i,
            n == established_count(v@.take(i as int)),
        decreases v@.len() - i,
    {
        assert(v@.take(i + 1).drop_last() =~= v@.take(i as int));
        if same(v[i].state.as_str(), "Established") {
            n = n + 1;
        }
        i = i + 1;
    }
    assert(v@.take(i as int) =~= v@);
    n
}

/// The mode after a relationship was picked in the form; only an established one
/// can be.
pub open spec fn relationship_picked(mode: CredentialsMode, index: usize, established: nat) ->
    CredentialsMode {
    match mode {
        CredentialsMode::NewRequest { relationship_index, reason_input } => if index < established {
            CredentialsMode::NewRequest { relationship_index: index, reason_input }
        } else {
            mode
        },
        _ => mode,
    }
}

/// Picks the relationship to request a credential over.
pub fn handle_select_relationship(state: &mut State, index: usize)
    ensures
        *final(state) == old(state).with_credentials(
            CredentialsState {
                mode: relationship_picked(
                    old(state).credentials().mode,
                    index,
                    established_count(old(state).relationships().relationships@),
                ),
                ..old(state).credentials()
            },
        ),
{
    let established: usize = count_established(
        &state.main_page.content_panel.relationships.relationships,
    );
    match &mut state.main_page.content_panel.credentials.mode {
        CredentialsMode::NewRequest { relationship_index, .. } => {
            if index < established {
                *relationship_index = index;
            }
        },
        _ => {},
    }
}

/// The mode after a reason was typed into the form.
pub open spec fn reason_given(mode: CredentialsMode, value: String) -> CredentialsMode {
    match mode {
        CredentialsMode::NewRequest { relationship_index, reason_input } =>
            CredentialsMode::NewRequest { relationship_index, reason_input: value },
        _ => mode,
    }
}

/// Takes over what was typed as a reason.
pub fn handle_reason_update(state: &mut State, value: String)
    ensures
        *final(state) == old(state).with_credentials(
            CredentialsState {
                mode: reason_given(old(state).credentials().mode, value),
                ..old(state).credentials()
            },
        ),
{
    match &mut state.main_page.content_panel.credentials.mode {
        CredentialsMode::NewRequest { reason_input, .. } => {
            *reason_input = value;
        },
        _ => {},
    }
}

/// The state after the form was closed, before anything else happened.
pub open spec fn form_closed(state: State) -> State {
    state.with_credentials(
        CredentialsState { mode: CredentialsMode::List, ..state.credentials() },
    )
}

/// `new` is `old` after a request made on this panel was sent or not.
pub open spec fn request_concluded(
    old: State,
    new: State,
    was: Config,
    is: Config,
    host: Host,
    remote_p_did: Seq<char>,
    sent: Result<VrcJob, ErrorText>,
) -> bool {
    match sent {
        Ok(job) => {
            &&& vrc_requested(was, is, job)
            &&& went_well(
                form_closed(old),
                new,
                is,
                host,
                Panel::Credentials,
                "VRC request sent to "@ + log_did_view(remote_p_did),
                plain_line("VRC request sent to "@ + log_did_view(remote_p_did)),
            )
        },
        Err(e) => {
            &&& is == was
            &&& went_wrong(old, new, Panel::Credentials, "Failed to send VRC request"@, e)
        },
    }
}

/// Ends a request made on this panel: `sent` is the request that was sent, or
/// why none was.
pub fn handle_submit_request(
    config: &mut Config,
    state: &mut State,
    save: &mut SaveScheduler,
    relationship_p_did: &str,
    sent: Result<VrcJob, ErrorText>,
    host: &Host,
)
    ensures
        request_concluded(
            *old(state),
            *final(state),
            *old(config),
            *final(config),
            *host,
            relationship_p_did@,
            sent,
        ),
        *final(save) == (if sent is Ok {
            old(save).marked(host.now)
        } else {
            *old(save)
        }),
{
    match sent {
        Ok(job) => {
            let _ = vrc_request_sent(config, job, Ok(()));
            state.main_page.content_panel.credentials.mode = CredentialsMode::List;
            let shown = log_did(relationship_p_did);
            let text = cat2("VRC request sent to ", shown.as_str());
            save_and_sync(
                &mut state.main_page,
                config,
                save,
                Persist::SaveAndSync,
                Panel::Credentials,
                text.clone(),
                SyncLog::Plain(text),
                host,
            );
        },
        Err(e) => {
            record_error(
                &mut state.main_page,
                Panel::Credentials,
                "Failed to send VRC request",
                &e,
            );
        },
    }
}

/// The state after the removal of a credential was confirmed, before anything
/// else happened.
pub open spec fn removal_confirmed(state: State) -> State {
    state.with_credentials(
        CredentialsState {
            confirm_delete: None,
            mode: CredentialsMode::List,
            selected_index: 0,
            ..state.credentials()
        },
    )
}

/// Removes a credential.
pub fn handle_remove(
    config: &mut Config,
    state: &mut State,
    save: &mut SaveScheduler,
    vrc_id: &str,
    host: &Host,
)
    ensures
        vrc_removed(*old(config), *final(config), vrc_id@),
        went_well(
            removal_confirmed(*old(state)),
            *final(state),
            *final(config),
            *host,
            Panel::Credentials,
            "VRC removed"@,
            plain_line("VRC removed"@),
        ),
        *final(save) == old(save).marked(host.now),
{
    state.main_page.content_panel.credentials.confirm_delete = None;
    remove_vrc(config, vrc_id);
    state.main_page.content_panel.credentials.mode = CredentialsMode::List;
    state.main_page.content_panel.credentials.selected_index = 0;
    save_and_sync(
        &mut state.main_page,
        config,
        save,
        Persist::SaveAndSync,
        Panel::Credentials,
        owned("VRC removed"),
        SyncLog::Plain(owned("VRC removed")),
        host,
    );
}

/// What is left to be done after an action on this panel.
#[derive(Clone, Debug)]
pub enum CredentialDispatch {
    /// Nothing.
    Handled,
    /// Send this, then end the request.
    Send(Box<VrcJob>),
}

/// `new` is `old` after an action on this panel that needs no message.
pub open spec fn credential_handled(
    action: CredentialAction,
    old: State,
    new: State,
    was: Config,
    is: Config,
    host: Host,
) -> bool {
    let c = old.credentials();
    match action {
        CredentialAction::SwitchTab => is == was && new == old.with_credentials(
            CredentialsState {
                selected_tab: c.selected_tab.following(),
                selected_index: 0,
                ..c
            },
        ),
        CredentialAction::Select(index) => is == was && new == old.with_credentials(
            CredentialsState { selected_index: index, ..c },
        ),
        CredentialAction::OpenDetail(index) => is == was && new == old.with_credentials(
            CredentialsState {
                selected_index: index,
                mode: CredentialsMode::Detail { index },
                ..c
            },
        ),
        CredentialAction::Back | CredentialAction::CancelNewRequest => is == was && new
            == old.with_credentials(
            CredentialsState { selected_index: 0, mode: CredentialsMode::List, ..c },
        ),
        CredentialAction::StartNewRequest => {
            &&& is == was
            &&& new == old.with_credentials(
                CredentialsState { mode: new.credentials().mode, ..c },
            )
            &&& new.credentials().mode matches CredentialsMode::NewRequest {
                relationship_index,
                reason_input,
            }
            &&& relationship_index == 0
            &&& reason_input@.len() == 0
        },
        CredentialAction::SelectRelationship(index) => is == was && new == old.with_credentials(
            CredentialsState {
                mode: relationship_picked(
                    c.mode,
                    index,
                    established_count(old.relationships().relationships@),
                ),
                ..c
            },
        ),
        CredentialAction::ReasonUpdate(value) => is == was && new == old.with_credentials(
            CredentialsState { mode: reason_given(c.mode, value), ..c },
        ),
        CredentialAction::Remove { vrc_id } => vrc_removed(was, is, vrc_id@) && went_well(
            removal_confirmed(old),
            new,
            is,
            host,
            Panel::Credentials,
            "VRC removed"@,
            plain_line("VRC removed"@),
        ),
        CredentialAction::ConfirmRemove { vrc_id } => is == was && new == old.with_credentials(
            CredentialsState { confirm_delete: Some(vrc_id), ..c },
        ),
        CredentialAction::CancelRemove => is == was && new == old.with_credentials(
            CredentialsState { confirm_delete: None, ..c },
        ),
        CredentialAction::SubmitRequest { .. } => true,
    }
}

/// Does what is asked for on this panel. A request for a credential is made
/// here, to be sent and then ended by `handle_submit_request`; one that cannot
/// be made is ended at once.
pub fn dispatch(
    action: CredentialAction,
    config: &mut Config,
    state: &mut State,
    save: &mut SaveScheduler,
    host: &Host,
) -> (r: CredentialDispatch)
    ensures
        match action {
            CredentialAction::SubmitRequest { relationship_p_did, reason } => {
                &&& *final(config) == *old(config)
                &&& *final(save) == *old(save)
                &&& match lookup(old(config).private.relationships@, relationship_p_did@) {
                    Some(rel) => {
                        &&& *final(state) == *old(state)
                        &&& r matches CredentialDispatch::Send(job)
                        &&& requests_vrc(*job, *old(config), relationship_p_did@, reason)
                    },
                    None => {
                        &&& r is Handled
                        &&& exists|e: ErrorText|
                            e.says(no_relationship(relationship_p_did@)) && #[trigger] went_wrong(
                                *old(state),
                                *final(state),
                                Panel::Credentials,
                                "Failed to send VRC request"@,
                                e,
                            )
                    },
                }
            },
            _ => {
                &&& r is Handled
                &&& credential_handled(
                    action,
                    *old(state),
                    *final(state),
                    *old(config),
                    *final(config),
                    *host,
                )
                &&& *final(save) == (if action is Remove {
                    old(save).marked(host.now)
                } else {
                    *old(save)
                })
            },
        },
{
    match action {
        CredentialAction::SwitchTab => handle_switch_tab(state),
        CredentialAction::Select(index) => {
            state.main_page.content_panel.credentials.selected_index = index;
        },
        CredentialAction::OpenDetail(index) => handle_open_detail(state, index),
        CredentialAction::Back => handle_back(state),
        CredentialAction::CancelNewRequest => handle_back(state),
        CredentialAction::StartNewRequest => handle_start_new_request(state),
        CredentialAction::SelectRelationship(index) => handle_select_relationship(state, index),
        CredentialAction::ReasonUpdate(value) => handle_reason_update(state, value),
        CredentialAction::SubmitRequest { relationship_p_did, reason } => {
            match prepare_vrc_request(config, relationship_p_did.as_str(), reason) {
                Ok(job) => {
                    return CredentialDispatch::Send(Box::new(job));
                },
                Err(e) => {
                    record_error(
                        &mut state.main_page,
                        Panel::Credentials,
                        "Failed to send VRC request",
                        &e,
                    );
                    assert(went_wrong(
                        *old(state),
                        *state,
                        Panel::Credentials,
                        "Failed to send VRC request"@,
                        e,
                    ));
                },
            }
        },
        CredentialAction::Remove { vrc_id } => handle_remove(
            config,
            state,
            save,
            vrc_id.as_str(),
            host,
        ),
        CredentialAction::ConfirmRemove { vrc_id } => {
            state.main_page.content_panel.credentials.confirm_delete = Some(vrc_id);
        },
        CredentialAction::CancelRemove => {
            state.main_page.content_panel.credentials.confirm_delete = None;
        },
    }
    CredentialDispatch::Handled
}

/// A request for a credential goes over the relationship with the party, with the
/// reason given, dated now.
pub proof fn law_credential_request_goes_over_the_relationship(
    config: &Config,
    remote_p_did: &str,
    reason: Option<String>,
    r: Result<VrcJob, ErrorText>,
    rel: Relationship,
)
    requires
        call_ensures(prepare_vrc_request, (config, remote_p_did, reason), r),
        lookup(config.private.relationships@, remote_p_did@) == Some(rel),
    ensures
        r matches Ok(job) && job.remote_p_did@ == remote_p_did@ && job.envelope.to_did@
            == rel.remote_did@ && job.envelope.message@ == (OutboundView {
            from: rel.our_did@,
            to: rel.remote_did@,
            thid: None,
            body: BodyView::VrcRequest { reason: opt_view(reason) },
        }) && exists|t: i64| #[trigger]
            clock_read(t) && (t >= 0 ==> job.envelope.message.created_time == t
                && job.envelope.message.expires_time == Some((t + 172800) as u64)),
{
}

/// A request that was sent awaits its answer: a task of its id stands in the
/// inbox, under the party asked; one that was not sent leaves nothing behind.
pub proof fn law_sent_credential_request_is_tracked(
    config: &mut Config,
    job: VrcJob,
    sent: Result<(), String>,
    r: Result<(), ErrorText>,
)
    requires
        call_ensures(vrc_request_sent, (config, job, sent), r),
    ensures
        sent is Ok ==> r is Ok && (lookup(
            final(config).private.tasks@,
            job.envelope.message.id@,
        ) matches Some(task) && (task.type_ matches TaskType::VRCRequestOutbound { remote_p_did }
            && remote_p_did@ == job.remote_p_did@)),
        sent is Err ==> r is Err && *final(config) == *old(config),
        final(config).private.relationships == old(config).private.relationships,
        final(config).private.vrcs_received == old(config).private.vrcs_received,
{
    if sent is Ok {
        lemma_task_filed(
            old(config).private.tasks@,
            final(config).private.tasks@,
            job.envelope.message.id@,
            TaskType::VRCRequestOutbound { remote_p_did: job.remote_p_did },
            None,
        );
    }
}

/// A credential that is removed is on file no more, neither received nor issued;
/// every other one stays where it was.
pub proof fn law_removed_credential_is_gone(config: &mut Config, vrc_id: &str)
    requires
        call_ensures(remove_vrc, (config, vrc_id), ()),
    ensures
        forall|e: VrcEntry|
            #[trigger] final(config).private.vrcs_received.entries@.contains(e) <==> old(config).private.vrcs_received.entries@.contains(e) && e.vrc.id@ != vrc_id@,
        forall|e: VrcEntry|
            #[trigger] final(config).private.vrcs_issued.entries@.contains(e) <==> old(config).private.vrcs_issued.entries@.contains(e) && e.vrc.id@ != vrc_id@,
        final(config).private.relationships == old(config).private.relationships,
        final(config).private.tasks == old(config).private.tasks,
{
    lemma_filed_elsewhere(old(config).private.vrcs_received.entries@, vrc_id@);
    lemma_filed_elsewhere(old(config).private.vrcs_issued.entries@, vrc_id@);
}

proof fn lemma_filed_elsewhere(s: Seq<VrcEntry>, id: Seq<char>)
    ensures
        forall|e: VrcEntry| #[trigger]
            s.filter(other_vrc(id)).contains(e) <==> s.contains(e) && e.vrc.id@ != id,
{
    let p = other_vrc(id);
    assert forall|e: VrcEntry| #[trigger] s.filter(p).contains(e) <==> s.contains(e) && e.vrc.id@
        != id by {
        broadcast use vstd::seq_lib::group_filter_ensures;

        if s.filter(p).contains(e) {
            s.lemma_filter_contains_rev(p, e);
            let i = choose|i: int| 0 <= i < s.filter(p).len() && s.filter(p)[i] == e;
            assert(p(s.filter(p)[i]));
        }
        if s.contains(e) && e.vrc.id@ != id {
            assert(p(e));
        }
    }
}

} // verus!
