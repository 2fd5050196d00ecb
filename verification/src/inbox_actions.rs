//! What the inbox panel does.

use crate::actions::InboxAction;
use crate::clock::{clock_read, read_clock};
use crate::config::{keys_recorded, Config, ProtectedConfig, PublicConfig};
use crate::content::{ActiveTaskView, InboxConfirm, InboxState, TaskKind, TaskSummary};
use crate::didcomm::{
    build_didcomm_message, listener_id_for_did, listener_view, BodyView, Envelope, OutboundBody,
    OutboundView, MESSAGE_LIFETIME,
};
use crate::dispatch_util::{
    record_error, save_and_sync, went_well, went_wrong, Panel, Persist, SyncLog,
};
use crate::display::{sanitize_display, sanitized};
use crate::keyed::{
    has_key, law_stored_entry_is_found, lemma_lookup, lemma_without, lookup, with_entry, without,
};
use crate::ledger::{
    by_remote_did, contact_dropped, contact_stored, lemma_remote_did_found, other_filing, Contacts, KeyEntry, LogFamily, Relationship,
    RelationshipRequest, RelationshipState, Task, TaskType, Vrc, Vrcs,
};
use crate::main_page::{plain_line, push_line, ErrorText, MainPageState};
use crate::message_dispatch::{reason_text, reason_view};
use crate::relationship_actions::{
    did_planned, is_relationship, plan_relationship_did, CreatedRDid, RDidPlan,
};
use crate::save_coalesce::SaveScheduler;
use crate::state::State;
use crate::sync::{synced, Host};
use crate::text::{cat2, cat3, cat4, cat5, copy_opt, opt_view, owned};
use vstd::prelude::*;

verus! {

// ---------------------------------------------------------------------------
// Tasks
// ---------------------------------------------------------------------------

/// The error of a task that is not there.
pub open spec fn no_task(task_id: Seq<char>) -> Seq<char> {
    "task not found: "@ + task_id
}

fn task_missing(task_id: &str) -> (r: ErrorText)
    ensures
        r.says(no_task(task_id@)),
{
    ErrorText::plain(cat2("task not found: ", task_id))
}

/// The error of a task that is of another kind.
pub open spec fn wrong_task(task_id: Seq<char>, kind: Seq<char>) -> Seq<char> {
    "task "@ + task_id + " is not "@ + kind
}

fn task_mismatch(task_id: &str, kind: &str) -> (r: ErrorText)
    ensures
        r.says(wrong_task(task_id@, kind@)),
{
    ErrorText::plain(cat4("task ", task_id, " is not ", kind))
}

/// The credential that a task puts before us, or why it does not.
pub open spec fn issued_in(s: Seq<Task>, task_id: Seq<char>) -> Result<Vrc, Seq<char>> {
    match lookup(s, task_id) {
        None => Err(no_task(task_id)),
        Some(task) => match task.type_ {
            TaskType::VRCIssued { vrc } => Ok(vrc),
            _ => Err(wrong_task(task_id, "a VRC issued task"@)),
        },
    }
}

/// `new` is `old` with a credential filed under a party, in the place of one with
/// its id.
pub open spec fn filed(old: Vrcs, new: Vrcs, party: Seq<char>, vrc: Vrc) -> bool {
    let kept = old.entries@.filter(other_filing(party, vrc.id@));
    &&& new.entries@.len() == kept.len() + 1
    &&& new.entries@.drop_last() == kept
    &&& new.entries@.last().remote_p_did@ == party
    &&& new.entries@.last().vrc == vrc
}

/// The error of a credential that carries no proof.
pub open spec fn no_proof() -> Seq<char> {
    "VRC has no proof"@
}

/// `new` is `old` after the credential of a task was accepted.
pub open spec fn vrc_accepted(old: Config, new: Config, task_id: Seq<char>, vrc: Vrc) -> bool {
    &&& new == (Config {
        public: PublicConfig { logs: new.public.logs, ..old.public },
        private: ProtectedConfig {
            tasks: new.private.tasks,
            vrcs_received: new.private.vrcs_received,
            ..old.private
        },
        ..old
    })
    &&& filed(old.private.vrcs_received, new.private.vrcs_received, vrc.issuer@, vrc)
    &&& new.private.tasks@ == without(old.private.tasks@, task_id)
    &&& new.public.logs@ == old.public.logs@.push(
        (LogFamily::Task, "Accepted VRC from ("@ + vrc.issuer@ + ")"@),
    )
}

/// Accepts the credential of a task: it is filed under its issuer and the task
/// is closed.
pub fn accept_vrc(config: &mut Config, task_id: &str) -> (r: Result<(), ErrorText>)
    ensures
        match issued_in(old(config).private.tasks@, task_id@) {
            Err(why) => *final(config) == *old(config) && (r matches Err(e) && e.says(why)),
            Ok(vrc) => if vrc.id@.len() == 0 {
                *final(config) == *old(config) && (r matches Err(e) && e.says(no_proof()))
            } else {
                r is Ok && vrc_accepted(*old(config), *final(config), task_id@, vrc)
            },
        },
{
    let vrc = match config.private.tasks.get_by_id(task_id) {
        None => {
            return Err(task_missing(task_id));
        },
        Some(task) => match &task.type_ {
            TaskType::VRCIssued { vrc } => vrc.duplicate(),
            _ => {
                return Err(task_mismatch(task_id, "a VRC issued task"));
            },
        },
    };
    let issuer = vrc.issuer.clone();
    if !config.private.vrcs_received.insert(issuer.as_str(), vrc) {
        return Err(ErrorText::plain(owned("VRC has no proof")));
    }
    let _ = config.private.tasks.remove(task_id);
    config.note(LogFamily::Task, cat3("Accepted VRC from (", issuer.as_str(), ")"));
    Ok(())
}

/// `new` is `old` with other tasks in its inbox.
pub open spec fn inbox_set(old: Config, new: Config, tasks: Seq<Task>) -> bool {
    &&& new == (Config {
        private: ProtectedConfig { tasks: new.private.tasks, ..old.private },
        ..old
    })
    &&& new.private.tasks@ == tasks
}

/// Empties the inbox.
pub fn clear_all_tasks(config: &mut Config)
    ensures
        inbox_set(*old(config), *final(config), Seq::empty()),
{
    config.private.tasks.clear();
}

/// Takes a task out of the inbox, if it is there.
pub fn dismiss_task(config: &mut Config, task_id: &str)
    ensures
        inbox_set(*old(config), *final(config), without(old(config).private.tasks@, task_id@)),
{
    let _ = config.private.tasks.remove(task_id);
}

// ---------------------------------------------------------------------------
// The panel
// ---------------------------------------------------------------------------

/// Selects a task.
pub fn handle_inbox_select(state: &mut State, index: usize)
    ensures
        *final(state) == old(state).with_inbox(
            InboxState { selected_index: index, ..old(state).inbox() },
        ),
{
    state.main_page.content_panel.inbox.selected_index = index;
}

/// The detailed view of one entry of the inbox.
pub open spec fn views(v: ActiveTaskView, task: TaskSummary) -> bool {
    match task.kind {
        TaskKind::RelationshipRequestInbound { from_did, their_did, reason, name } => v
            == (ActiveTaskView::RelationshipRequestInbound {
            task_id: task.id,
            from_did,
            their_did,
            reason,
            name,
        }),
        TaskKind::VRCRequestInbound { reason } => v == (ActiveTaskView::VRCRequestInbound {
            task_id: task.id,
            from_did: task.remote_did,
            reason,
        }),
        TaskKind::VRCIssued => v == (ActiveTaskView::VRCIssued {
            task_id: task.id,
            issuer: task.remote_did,
        }),
        TaskKind::RelationshipRequestOutbound { our_did } => {
            &&& v matches ActiveTaskView::RelationshipRequestOutbound {
                task_id,
                to_did,
                our_did: ours,
                state,
            }
            &&& task_id == task.id
            &&& to_did == task.remote_did
            &&& ours == our_did
            &&& state@ == "Request Sent"@
        },
        TaskKind::VRCRequestOutbound => v == (ActiveTaskView::VRCRequestOutbound {
            task_id: task.id,
            remote_did: task.remote_did,
        }),
        TaskKind::TrustPing | TaskKind::Informational(_) => v == (ActiveTaskView::Info {
            task_id: task.id,
            type_display: task.type_display,
            remote_did: task.remote_did,
        }),
    }
}

fn view_of(task: &TaskSummary) -> (r: ActiveTaskView)
    ensures
        views(r, *task),
{
    match &task.kind {
        TaskKind::RelationshipRequestInbound { from_did, their_did, reason, name } =>
            ActiveTaskView::RelationshipRequestInbound {
            task_id: task.id.clone(),
            from_did: from_did.clone(),
            their_did: their_did.clone(),
            reason: copy_opt(reason),
            name: copy_opt(name),
        },
        TaskKind::VRCRequestInbound { reason } => ActiveTaskView::VRCRequestInbound {
            task_id: task.id.clone(),
            from_did: task.remote_did.clone(),
            reason: copy_opt(reason),
        },
        TaskKind::VRCIssued => ActiveTaskView::VRCIssued {
            task_id: task.id.clone(),
            issuer: task.remote_did.clone(),
        },
        TaskKind::RelationshipRequestOutbound { our_did } =>
            ActiveTaskView::RelationshipRequestOutbound {
            task_id: task.id.clone(),
            to_did: task.remote_did.clone(),
            our_did: our_did.clone(),
            state: owned("Request Sent"),
        },
        TaskKind::VRCRequestOutbound => ActiveTaskView::VRCRequestOutbound {
            task_id: task.id.clone(),
            remote_did: task.remote_did.clone(),
        },
        TaskKind::TrustPing => ActiveTaskView::Info {
            task_id: task.id.clone(),
            type_display: task.type_display.clone(),
            remote_did: task.remote_did.clone(),
        },
        TaskKind::Informational(_) => ActiveTaskView::Info {
            task_id: task.id.clone(),
            type_display: task.type_display.clone(),
            remote_did: task.remote_did.clone(),
        },
    }
}

/// `new` is `old` after a task was opened; a row that holds none leaves the
/// detailed view as it was.
pub open spec fn detail_opened(old: State, new: State, index: usize) -> bool {
    &&& new == old.with_inbox(
        InboxState { selected_index: index, active_task: new.inbox().active_task, ..old.inbox() },
    )
    &&& if index < old.inbox().tasks@.len() {
        new.inbox().active_task matches Some(v) && views(v, old.inbox().tasks@[index as int])
    } else {
        new.inbox().active_task == old.inbox().active_task
    }
}

/// Opens a task.
pub fn handle_inbox_open_detail(state: &mut State, index: usize)
    ensures
        detail_opened(*old(state), *final(state), index),
{
    state.main_page.content_panel.inbox.selected_index = index;
    if index < state.main_page.content_panel.inbox.tasks.len() {
        let view = view_of(&state.main_page.content_panel.inbox.tasks[index]);
        state.main_page.content_panel.inbox.active_task = Some(view);
    }
}

/// The state after the open task was closed, before anything else happened.
pub open spec fn task_closed(state: State) -> State {
    state.with_inbox(InboxState { active_task: None, ..state.inbox() })
}

fn finish(
    config: &Config,
    state: &mut State,
    save: &mut SaveScheduler,
    status: &str,
    line: &str,
    host: &Host,
)
    ensures
        went_well(
            task_closed(*old(state)),
            *final(state),
            *config,
            *host,
            Panel::Inbox,
            status@,
            plain_line(line@),
        ),
        *final(save) == old(save).marked(host.now),
{
    state.main_page.content_panel.inbox.active_task = None;
    save_and_sync(
        &mut state.main_page,
        config,
        save,
        Persist::SaveAndSync,
        Panel::Inbox,
        owned(status),
        SyncLog::Plain(owned(line)),
        host,
    );
}

/// The error was shown on this panel.
pub open spec fn failed_with(old: State, new: State, context: Seq<char>, why: Seq<char>) -> bool {
    exists|e: ErrorText|
        e.says(why) && #[trigger] went_wrong(old, new, Panel::Inbox, context, e)
}

fn fail(state: &mut State, context: &str, err: &ErrorText)
    ensures
        went_wrong(*old(state), *final(state), Panel::Inbox, context@, *err),
{
    record_error(&mut state.main_page, Panel::Inbox, context, err);
}

/// What accepting a credential comes to.
pub open spec fn vrc_accept_concluded(
    old: State,
    new: State,
    was: Config,
    is: Config,
    host: Host,
    task_id: Seq<char>,
) -> bool {
    match issued_in(was.private.tasks@, task_id) {
        Err(why) => is == was && failed_with(old, new, "Failed to accept VRC"@, why),
        Ok(vrc) => if vrc.id@.len() == 0 {
            is == was && failed_with(old, new, "Failed to accept VRC"@, no_proof())
        } else {
            vrc_accepted(was, is, task_id, vrc) && went_well(
                task_closed(old),
                new,
                is,
                host,
                Panel::Inbox,
                "VRC accepted and stored"@,
                plain_line("VRC accepted and stored"@),
            )
        },
    }
}

/// Accepts the credential of a task.
pub fn handle_accept_vrc(
    config: &mut Config,
    state: &mut State,
    save: &mut SaveScheduler,
    task_id: &str,
    host: &Host,
)
    ensures
        vrc_accept_concluded(
            *old(state),
            *final(state),
            *old(config),
            *final(config),
            *host,
            task_id@,
        ),
        *final(save) == (if issued_in(old(config).private.tasks@, task_id@) matches Ok(vrc)
            && vrc.id@.len() > 0 {
            old(save).marked(host.now)
        } else {
            *old(save)
        }),
{
    match accept_vrc(config, task_id) {
        Ok(_) => finish(
            config,
            state,
            save,
            "VRC accepted and stored",
            "VRC accepted and stored",
            host,
        ),
        Err(e) => fail(state, "Failed to accept VRC", &e),
    }
}

/// `new` is `old` after the inbox was changed by hand: confirmations and the open
/// task are gone, what is shown was refreshed, and a line was logged.
pub open spec fn inbox_tidied(old: State, new: State, is: Config, host: Host, line: Seq<char>) -> bool {
    let before = old.with_inbox(InboxState { active_task: None, confirm: None, ..old.inbox() });
    let after = MainPageState { activity_log: old.main_page.activity_log, ..new.main_page };
    &&& new == old.with_main(new.main_page)
    &&& synced(before.main_page, after, is, host)
    &&& new.main_page.log_lines() == push_line(old.main_page.log_lines(), plain_line(line))
}

/// Takes a task out of the inbox.
pub fn handle_dismiss_task(
    config: &mut Config,
    state: &mut State,
    save: &mut SaveScheduler,
    task_id: &str,
    host: &Host,
)
    ensures
        inbox_set(*old(config), *final(config), without(old(config).private.tasks@, task_id@)),
        inbox_tidied(*old(state), *final(state), *final(config), *host, "Task dismissed"@),
        *final(save) == old(save).marked(host.now),
{
    state.main_page.content_panel.inbox.confirm = None;
    dismiss_task(config, task_id);
    state.main_page.content_panel.inbox.active_task = None;
    save.mark_dirty(host.now);
    state.main_page.sync_from_config(config, host);
    state.main_page.log(owned("Task dismissed"));
}

/// Empties the inbox.
pub fn handle_clear_all(config: &mut Config, state: &mut State, save: &mut SaveScheduler, host: &Host)
    ensures
        inbox_set(*old(config), *final(config), Seq::empty()),
        inbox_tidied(*old(state), *final(state), *final(config), *host, "All inbox tasks cleared"@),
        *final(save) == old(save).marked(host.now),
{
    state.main_page.content_panel.inbox.confirm = None;
    clear_all_tasks(config);
    state.main_page.content_panel.inbox.active_task = None;
    save.mark_dirty(host.now);
    state.main_page.sync_from_config(config, host);
    state.main_page.log(owned("All inbox tasks cleared"));
}

// ---------------------------------------------------------------------------
// What became of an answer
// ---------------------------------------------------------------------------

/// What an answer changes once it was sent.
#[derive(Clone, Debug)]
pub enum InboxEffect {
    /// A relationship comes about, with these keys where it has a DID of its own.
    AcceptRelationship {
        task_id: String,
        from_did: String,
        their_did: String,
        our_did: String,
        key_info: Vec<KeyEntry>,
    },
    RejectRelationship { task_id: String, from_did: String, reason: Option<String> },
    /// A credential was issued.
    AcceptVrcRequest { task_id: String, their_p_did: String, vrc: Vrc },
    RejectVrcRequest { task_id: String, their_p_did: String, reason: Option<String> },
}

/// What became of an answer.
#[derive(Debug)]
pub struct InboxOutcome {
    pub effect: InboxEffect,
    pub result: Result<(), String>,
}

/// `new` is `old` after a request for a relationship was accepted.
pub open spec fn relationship_accepted(
    old: Config,
    new: Config,
    task_id: Seq<char>,
    from_did: Seq<char>,
    their_did: Seq<char>,
    our_did: Seq<char>,
) -> bool {
    let rels = new.private.relationships@;
    &&& new == (Config {
        public: PublicConfig { logs: new.public.logs, ..old.public },
        private: ProtectedConfig {
            tasks: new.private.tasks,
            relationships: new.private.relationships,
            ..old.private
        },
        ..old
    })
    &&& new.private.relationships.path_pointer == old.private.relationships.path_pointer
    &&& rels.len() > 0
    &&& rels == with_entry(old.private.relationships@, rels.last())
    &&& is_relationship(
        rels.last(),
        task_id,
        our_did,
        from_did,
        their_did,
        RelationshipState::RequestAccepted,
        old.active_persona,
    )
    &&& new.private.tasks@ == without(old.private.tasks@, task_id)
    &&& new.public.logs@ == old.public.logs@.push(
        (
            LogFamily::Relationship,
            "Accepted relationship request from ("@ + from_did + ")"@,
        ),
    )
}

fn record_acceptance(
    config: &mut Config,
    task_id: String,
    from_did: String,
    their_did: String,
    our_did: String,
)
    ensures
        relationship_accepted(
            *old(config),
            *final(config),
            task_id@,
            from_did@,
            their_did@,
            our_did@,
        ),
{
    let created: i64 = read_clock();
    let line = cat3("Accepted relationship request from (", from_did.as_str(), ")");
    let _ = config.private.tasks.remove(task_id.as_str());
    config.private.relationships.insert(
        Relationship {
            task_id,
            our_did,
            remote_p_did: from_did,
            remote_did: their_did,
            created,
            state: RelationshipState::RequestAccepted,
            our_persona: config.active_persona,
        },
    );
    config.note(LogFamily::Relationship, line);
}

/// `new` is `old` after a task was closed and a line was logged.
pub open spec fn task_answered(
    old: Config,
    new: Config,
    task_id: Seq<char>,
    family: LogFamily,
    line: Seq<char>,
) -> bool {
    &&& new == (Config {
        public: PublicConfig { logs: new.public.logs, ..old.public },
        private: ProtectedConfig { tasks: new.private.tasks, ..old.private },
        ..old
    })
    &&& new.private.tasks@ == without(old.private.tasks@, task_id)
    &&& new.public.logs@ == old.public.logs@.push((family, line))
}

fn answer_task(config: &mut Config, task_id: &str, family: LogFamily, line: String)
    ensures
        task_answered(*old(config), *final(config), task_id@, family, line@),
{
    let _ = config.private.tasks.remove(task_id);
    config.note(family, line);
}

/// `new` is `old` after a credential was issued.
pub open spec fn vrc_issued(
    old: Config,
    new: Config,
    task_id: Seq<char>,
    their_p_did: Seq<char>,
    vrc: Vrc,
) -> bool {
    &&& new == (Config {
        public: PublicConfig { logs: new.public.logs, ..old.public },
        private: ProtectedConfig {
            tasks: new.private.tasks,
            vrcs_issued: new.private.vrcs_issued,
            ..old.private
        },
        ..old
    })
    &&& filed(old.private.vrcs_issued, new.private.vrcs_issued, their_p_did, vrc)
    &&& new.private.tasks@ == without(old.private.tasks@, task_id)
    &&& new.public.logs@ == old.public.logs@.push(
        (
            LogFamily::Task,
            "Issued VRC to ("@ + their_p_did + ") Task ID ("@ + task_id + ")"@,
        ),
    )
}

impl InboxOutcome {
    /// It changes the configuration for good.
    pub open spec fn succeeded(self) -> bool {
        &&& self.result is Ok
        &&& self.effect matches InboxEffect::AcceptVrcRequest { vrc, .. } ==> vrc.id@.len() > 0
    }

    /// `new` is `old` after this became known: a failed answer leaves the task
    /// where it is and shows the error; a sent one has its effect and closes it.
    pub open spec fn applied(
        self,
        old: State,
        new: State,
        was: Config,
        is: Config,
        host: Host,
    ) -> bool {
        match self.effect {
            InboxEffect::AcceptRelationship {
                task_id,
                from_did,
                their_did,
                our_did,
                key_info,
            } => {
                let kept = Config { key_info: is.key_info, ..was };
                &&& is.key_info@ == keys_recorded(was.key_info@, key_info@)
                &&& match self.result {
                    Ok(_) => {
                        &&& relationship_accepted(
                            kept,
                            is,
                            task_id@,
                            from_did@,
                            their_did@,
                            our_did@,
                        )
                        &&& went_well(
                            task_closed(old),
                            new,
                            is,
                            host,
                            Panel::Inbox,
                            "Relationship request accepted"@,
                            plain_line("Accepted relationship request"@),
                        )
                    },
                    Err(why) => {
                        &&& is == kept
                        &&& failed_with(
                            old,
                            new,
                            "Failed to accept relationship"@,
                            "failed to send acceptance: "@ + why@,
                        )
                    },
                }
            },
            InboxEffect::RejectRelationship { task_id, from_did, reason } => match self.result {
                Ok(_) => {
                    &&& task_answered(
                        was,
                        is,
                        task_id@,
                        LogFamily::Relationship,
                        "Rejected relationship request from ("@ + from_did@ + "). Reason: "@
                            + reason_view(reason),
                    )
                    &&& went_well(
                        task_closed(old),
                        new,
                        is,
                        host,
                        Panel::Inbox,
                        "Relationship request rejected"@,
                        plain_line("Rejected relationship request"@),
                    )
                },
                Err(why) => {
                    &&& is == was
                    &&& failed_with(
                        old,
                        new,
                        "Failed to reject relationship"@,
                        "failed to send rejection: "@ + why@,
                    )
                },
            },
            InboxEffect::AcceptVrcRequest { task_id, their_p_did, vrc } => match self.result {
                Ok(_) => if vrc.id@.len() == 0 {
                    &&& is == was
                    &&& failed_with(old, new, "Failed to issue VRC"@, no_proof())
                } else {
                    &&& vrc_issued(was, is, task_id@, their_p_did@, vrc)
                    &&& went_well(
                        task_closed(old),
                        new,
                        is,
                        host,
                        Panel::Inbox,
                        "VRC issued and sent"@,
                        plain_line("VRC issued and sent"@),
                    )
                },
                Err(why) => {
                    &&& is == was
                    &&& failed_with(
                        old,
                        new,
                        "Failed to issue VRC"@,
                        "failed to send VRC: "@ + why@,
                    )
                },
            },
            InboxEffect::RejectVrcRequest { task_id, their_p_did, reason } => match self.result {
                Ok(_) => {
                    &&& task_answered(
                        was,
                        is,
                        task_id@,
                        LogFamily::Task,
                        "Rejected VRC request from ("@ + their_p_did@ + "). Reason: "@
                            + reason_view(reason),
                    )
                    &&& went_well(
                        task_closed(old),
                        new,
                        is,
                        host,
                        Panel::Inbox,
                        "VRC request rejected"@,
                        plain_line("Rejected VRC request"@),
                    )
                },
                Err(why) => {
                    &&& is == was
                    &&& failed_with(
                        old,
                        new,
                        "Failed to reject VRC request"@,
                        "failed to send VRC rejection: "@ + why@,
                    )
                },
            },
        }
    }

    /// Takes note of it.
    pub fn apply(
        self,
        state: &mut State,
        config: &mut Config,
        save: &mut SaveScheduler,
        host: &Host,
    )
        ensures
            self.applied(*old(state), *final(state), *old(config), *final(config), *host),
            *final(save) == (if self.succeeded() {
                old(save).marked(host.now)
            } else {
                *old(save)
            }),
    {
        match self.effect {
            InboxEffect::AcceptRelationship {
                task_id,
                from_did,
                their_did,
                our_did,
                key_info,
            } => {
                config.record_keys(key_info);
                match self.result {
                    Ok(_) => {
                        record_acceptance(config, task_id, from_did, their_did, our_did);
                        finish(
                            config,
                            state,
                            save,
                            "Relationship request accepted",
                            "Accepted relationship request",
                            host,
                        );
                    },
                    Err(why) => fail(
                        state,
                        "Failed to accept relationship",
                        &ErrorText::plain(cat2("failed to send acceptance: ", why.as_str())),
                    ),
                }
            },
            InboxEffect::RejectRelationship { task_id, from_did, reason } => match self.result {
                Ok(_) => {
                    let why = reason_text(&reason);
                    let line = cat4(
                        "Rejected relationship request from (",
                        from_did.as_str(),
                        "). Reason: ",
                        why.as_str(),
                    );
                    answer_task(config, task_id.as_str(), LogFamily::Relationship, line);
                    finish(
                        config,
                        state,
                        save,
                        "Relationship request rejected",
                        "Rejected relationship request",
                        host,
                    );
                },
                Err(why) => fail(
                    state,
                    "Failed to reject relationship",
                    &ErrorText::plain(cat2("failed to send rejection: ", why.as_str())),
                ),
            },
            InboxEffect::AcceptVrcRequest { task_id, their_p_did, vrc } => match self.result {
                Ok(_) => {
                    if !config.private.vrcs_issued.insert(their_p_did.as_str(), vrc) {
                        fail(
                            state,
                            "Failed to issue VRC",
                            &ErrorText::plain(owned("VRC has no proof")),
                        );
                        return ;
                    }
                    let line = cat5(
                        "Issued VRC to (",
                        their_p_did.as_str(),
                        ") Task ID (",
                        task_id.as_str(),
                        ")",
                    );
                    answer_task(config, task_id.as_str(), LogFamily::Task, line);
                    finish(
                        config,
                        state,
                        save,
                        "VRC issued and sent",
                        "VRC issued and sent",
                        host,
                    );
                },
                Err(why) => fail(
                    state,
                    "Failed to issue VRC",
                    &ErrorText::plain(cat2("failed to send VRC: ", why.as_str())),
                ),
            },
            InboxEffect::RejectVrcRequest { task_id, their_p_did, reason } => match self.result {
                Ok(_) => {
                    let why = reason_text(&reason);
                    let line = cat4(
                        "Rejected VRC request from (",
                        their_p_did.as_str(),
                        "). Reason: ",
                        why.as_str(),
                    );
                    answer_task(config, task_id.as_str(), LogFamily::Task, line);
                    finish(
                        config,
                        state,
                        save,
                        "VRC request rejected",
                        "Rejected VRC request",
                        host,
                    );
                },
                Err(why) => fail(
                    state,
                    "Failed to reject VRC request",
                    &ErrorText::plain(cat2("failed to send VRC rejection: ", why.as_str())),
                ),
            },
        }
    }

    /// The task that it answers.
    pub open spec fn task_id(self) -> Seq<char> {
        match self.effect {
            InboxEffect::AcceptRelationship { task_id, .. } => task_id@,
            InboxEffect::RejectRelationship { task_id, .. } => task_id@,
            InboxEffect::AcceptVrcRequest { task_id, .. } => task_id@,
            InboxEffect::RejectVrcRequest { task_id, .. } => task_id@,
        }
    }
}

/// An answer that was not sent leaves the task in the inbox and makes no
/// relationship; one that was sent closes the task.
pub proof fn law_task_lives_until_answered(
    outcome: InboxOutcome,
    old: State,
    new: State,
    was: Config,
    is: Config,
    host: Host,
)
    requires
        outcome.applied(old, new, was, is, host),
    ensures
        !outcome.succeeded() ==> is.private == was.private && is.public == was.public,
        outcome.succeeded() ==> lookup(is.private.tasks@, outcome.task_id()) is None,
        outcome.succeeded() ==> forall|other: Seq<char>|
            other != outcome.task_id() ==> #[trigger] lookup(is.private.tasks@, other) == lookup(
                was.private.tasks@,
                other,
            ),
{
    lemma_without(was.private.tasks@, outcome.task_id());
}

// ---------------------------------------------------------------------------
// Answers
// ---------------------------------------------------------------------------

/// The request for a relationship that a task holds, or why it holds none.
pub open spec fn request_in(s: Seq<Task>, task_id: Seq<char>) -> Result<
    (String, RelationshipRequest),
    Seq<char>,
> {
    match lookup(s, task_id) {
        None => Err(no_task(task_id)),
        Some(task) => match task.type_ {
            TaskType::RelationshipRequestInbound { from, to, request } => Ok((from, request)),
            _ => Err(wrong_task(task_id, "an inbound relationship request"@)),
        },
    }
}

/// The name that a party gave itself, made safe to show.
pub open spec fn sender_name(request: RelationshipRequest) -> Option<Seq<char>> {
    match request.name {
        Some(n) => Some(sanitized(n@, 64)),
        None => None,
    }
}

/// A party is named after a request: it becomes a contact, or a contact without
/// an alias gets one.
pub open spec fn gets_named(contacts: Contacts, did: Seq<char>, name: Option<Seq<char>>) -> bool {
    match lookup(contacts.contacts@, did) {
        Some(c) => c.alias is None && name is Some,
        None => true,
    }
}

/// Why a party cannot be named so.
pub open spec fn naming_error(contacts: Contacts, did: Seq<char>, name: Option<Seq<char>>) ->
    Option<Seq<char>> {
    match name {
        Some(n) => if gets_named(contacts, did, name) && has_key(contacts.aliases@, n) {
            Some("Alias is already in use: "@ + n)
        } else {
            None
        },
        None => None,
    }
}

/// `new` is `old` after a party was named where it had to be. Where that fails, a
/// contact that had no alias is gone.
pub open spec fn party_named(
    old: Contacts,
    new: Contacts,
    did: Seq<char>,
    name: Option<Seq<char>>,
) -> bool {
    if !gets_named(old, did, name) {
        new == old
    } else if lookup(old.contacts@, did) is Some {
        if naming_error(old, did, name) is Some {
            contact_dropped(old, new, did)
        } else {
            exists|mid: Contacts|
                #[trigger] contact_dropped(old, mid, did) && contact_stored(mid, new, did, name)
        }
    } else if naming_error(old, did, name) is Some {
        new == old
    } else {
        contact_stored(old, new, did, name)
    }
}

fn name_party(contacts: &mut Contacts, did: &str, name: Option<String>) -> (r: Result<
    (),
    ErrorText,
>)
    ensures
        party_named(*old(contacts), *final(contacts), did@, opt_view(name)),
        match naming_error(*old(contacts), did@, opt_view(name)) {
            Some(why) => r matches Err(e) && e.says(why),
            None => r is Ok,
        },
{
    let known = match contacts.find_contact(did) {
        Some(existing) => {
            if existing.alias.is_some() || name.is_none() {
                return Ok(());
            }
            true
        },
        None => false,
    };
    if known {
        contacts.remove_contact(did);
        assert(contact_dropped(*old(contacts), *contacts, did@));
    }
    let given = copy_opt(&name);
    if contacts.add_contact(did, name) {
        return Ok(());
    }
    match given {
        Some(n) => Err(ErrorText::plain(cat2("Alias is already in use: ", n.as_str()))),
        None => Ok(()),
    }
}

/// The acceptance of a request for a relationship.
#[derive(Clone)]
pub struct AcceptJob {
    /// How to make a DID for the relationship; without it, the persona's own is
    /// used.
    pub rdid_plan: Option<RDidPlan>,
    pub persona_did: String,
    pub persona_listener_id: String,
    pub task_id: String,
    pub from_did: String,
    pub their_did: String,
}

/// An acceptance of the request that an inbox entry stands for.
pub open spec fn accepts(
    job: AcceptJob,
    config: Config,
    task_id: Seq<char>,
    from: String,
    request: RelationshipRequest,
) -> bool {
    &&& job.persona_did@ == config.persona_did_view()
    &&& job.persona_listener_id@ == listener_view(config.persona_did_view(), config)
    &&& job.task_id@ == task_id
    &&& job.from_did == from
    &&& job.their_did == request.did
}

/// `new` is `old` after an acceptance was begun.
pub open spec fn acceptance_shown(old: State, new: State, generate_r_did: bool) -> bool {
    let status = new.inbox().status_message;
    &&& new == old.with_main(
        MainPageState {
            activity_log: new.main_page.activity_log,
            ..old.main_page.with_status(Panel::Inbox, status)
        },
    )
    &&& if generate_r_did {
        &&& opt_view(status) == Some("Accepting with R-DID — creating keys..."@)
        &&& new.main_page.log_lines() == push_line(
            old.main_page.log_lines(),
            plain_line("Accepting relationship request (creating R-DID)..."@),
        )
    } else {
        &&& opt_view(status) == Some("Accepting relationship request..."@)
        &&& new.main_page.log_lines() == push_line(
            old.main_page.log_lines(),
            plain_line("Accepting relationship request..."@),
        )
    }
}

/// `new` is `old` with other contacts.
pub open spec fn contacts_set(old: Config, new: Config) -> bool {
    new == (Config {
        private: ProtectedConfig { contacts: new.private.contacts, ..old.private },
        ..old
    })
}

/// What is left of preparing an acceptance once a DID was planned or not.
pub open spec fn acceptance_named(
    old: State,
    new: State,
    mid: Config,
    is: Config,
    task_id: Seq<char>,
    from: String,
    request: RelationshipRequest,
    plan: Option<RDidPlan>,
    r: Result<AcceptJob, ErrorText>,
) -> bool {
    &&& contacts_set(mid, is)
    &&& party_named(mid.private.contacts, is.private.contacts, from@, sender_name(request))
    &&& match naming_error(mid.private.contacts, from@, sender_name(request)) {
        Some(why) => new == old && (r matches Err(e) && e.says(why)),
        None => acceptance_shown(old, new, plan is Some) && (r matches Ok(job) && job.rdid_plan
            == plan && accepts(job, is, task_id, from, request)),
    }
}

/// What preparing an acceptance comes to.
pub open spec fn acceptance_prepared(
    old: State,
    new: State,
    was: Config,
    is: Config,
    task_id: Seq<char>,
    generate_r_did: bool,
    r: Result<AcceptJob, ErrorText>,
) -> bool {
    match request_in(was.private.tasks@, task_id) {
        Err(why) => new == old && is == was && (r matches Err(e) && e.says(why)),
        Ok(asked) => if generate_r_did {
            exists|mid: Config, planned: Result<RDidPlan, ErrorText>|
                #[trigger] did_planned(was, mid, planned) && match planned {
                    Err(e) => new == old && is == mid && r == Err::<AcceptJob, ErrorText>(e),
                    Ok(plan) => acceptance_named(
                        old,
                        new,
                        mid,
                        is,
                        task_id,
                        asked.0,
                        asked.1,
                        Some(plan),
                        r,
                    ),
                }
        } else {
            acceptance_named(old, new, was, is, task_id, asked.0, asked.1, None, r)
        },
    }
}

/// Prepares the acceptance of a request for a relationship.
pub fn prepare_accept_relationship(
    config: &mut Config,
    state: &mut State,
    task_id: &str,
    generate_r_did: bool,
) -> (r: Result<AcceptJob, ErrorText>)
    ensures
        acceptance_prepared(
            *old(state),
            *final(state),
            *old(config),
            *final(config),
            task_id@,
            generate_r_did,
            r,
        ),
{
    let (from_did, their_did, name) = match config.private.tasks.get_by_id(task_id) {
        None => {
            return Err(task_missing(task_id));
        },
        Some(task) => match &task.type_ {
            TaskType::RelationshipRequestInbound { from, request, .. } => {
                let name = match &request.name {
                    Some(n) => Some(sanitize_display(n.as_str(), 64)),
                    None => None,
                };
                (from.clone(), request.did.clone(), name)
            },
            _ => {
                return Err(task_mismatch(task_id, "an inbound relationship request"));
            },
        },
    };
    let ghost asked = request_in(config.private.tasks@, task_id@)->Ok_0;
    let mut rdid_plan: Option<RDidPlan> = None;
    if generate_r_did {
        let planned = plan_relationship_did(config);
        assert(did_planned(*old(config), *config, planned));
        match planned {
            Ok(plan) => {
                rdid_plan = Some(plan);
            },
            Err(e) => {
                return Err(e);
            },
        }
    }
    let ghost mid = *config;
    match name_party(&mut config.private.contacts, from_did.as_str(), name) {
        Err(e) => {
            return Err(e);
        },
        Ok(_) => {},
    }
    let persona_did = owned(config.persona_did());
    let persona_listener_id = listener_id_for_did(persona_did.as_str(), config);
    if generate_r_did {
        state.main_page.set_status(
            Panel::Inbox,
            owned("Accepting with R-DID — creating keys..."),
        );
        state.main_page.log(owned("Accepting relationship request (creating R-DID)..."));
    } else {
        state.main_page.set_status(Panel::Inbox, owned("Accepting relationship request..."));
        state.main_page.log(owned("Accepting relationship request..."));
    }
    let job = AcceptJob {
        rdid_plan,
        persona_did,
        persona_listener_id,
        task_id: owned(task_id),
        from_did,
        their_did,
    };
    assert(acceptance_named(
        *old(state),
        *state,
        mid,
        *config,
        task_id@,
        asked.0,
        asked.1,
        job.rdid_plan,
        Ok(job),
    ));
    Ok(job)
}

impl AcceptJob {
    /// Makes the message that accepts, naming the DID we are going to use.
    pub fn envelope(&self, our_did: &str) -> (r: Envelope)
        ensures
            r.listener_id == self.persona_listener_id,
            r.to_did == self.from_did,
            r.message@ == (OutboundView {
                from: self.persona_did@,
                to: self.from_did@,
                thid: Some(self.task_id@),
                body: BodyView::RelationshipAccept { did: our_did@ },
            }),
            r.message.stamped(Some(MESSAGE_LIFETIME)),
    {
        let message = build_didcomm_message(
            OutboundBody::RelationshipAccept { did: owned(our_did) },
            self.persona_did.as_str(),
            self.from_did.as_str(),
            Some(self.task_id.clone()),
        );
        Envelope {
            listener_id: self.persona_listener_id.clone(),
            to_did: self.from_did.clone(),
            message,
        }
    }

    /// The outcome where the DID for the relationship could not be made.
    pub fn not_created(self, why: String) -> (r: InboxOutcome)
        ensures
            r.result == Err::<(), String>(why),
            r.effect matches InboxEffect::AcceptRelationship {
                task_id,
                from_did,
                their_did,
                our_did,
                key_info,
            } && task_id == self.task_id && from_did == self.from_did && their_did
                == self.their_did && our_did == self.persona_did && key_info@.len() == 0,
    {
        InboxOutcome {
            effect: InboxEffect::AcceptRelationship {
                task_id: self.task_id,
                from_did: self.from_did,
                their_did: self.their_did,
                our_did: self.persona_did,
                key_info: Vec::new(),
            },
            result: Err(why),
        }
    }

    /// The outcome once the message was sent or not; without a DID of its own
    /// the relationship uses the persona's.
    pub fn concluded(self, created: Option<CreatedRDid>, result: Result<(), String>) -> (r:
        InboxOutcome)
        ensures
            r.result == result,
            r.effect matches InboxEffect::AcceptRelationship {
                task_id,
                from_did,
                their_did,
                our_did,
                key_info,
            } && task_id == self.task_id && from_did == self.from_did && their_did
                == self.their_did && match created {
                Some(c) => our_did == c.r_did && key_info == c.key_info,
                None => our_did == self.persona_did && key_info@.len() == 0,
            },
    {
        let (our_did, key_info) = match created {
            Some(c) => (c.r_did, c.key_info),
            None => (self.persona_did, Vec::new()),
        };
        InboxOutcome {
            effect: InboxEffect::AcceptRelationship {
                task_id: self.task_id,
                from_did: self.from_did,
                their_did: self.their_did,
                our_did,
                key_info,
            },
            result,
        }
    }
}

/// An answer to be sent, and what it changes once it was.
#[derive(Clone, Debug)]
pub struct InboxSend {
    pub envelope: Envelope,
    pub effect: InboxEffect,
}

/// The status of this panel, and nothing else, was set.
pub open spec fn status_shown(old: State, new: State, status: Seq<char>) -> bool {
    let shown = new.inbox().status_message;
    &&& opt_view(shown) == Some(status)
    &&& new == old.with_main(old.main_page.with_status(Panel::Inbox, shown))
}

/// What preparing a rejection comes to.
pub open spec fn rejection_prepared(
    old: State,
    new: State,
    config: Config,
    task_id: Seq<char>,
    reason: Option<String>,
    r: Result<InboxSend, ErrorText>,
) -> bool {
    let us = config.persona_did_view();
    match request_in(config.private.tasks@, task_id) {
        Err(why) => new == old && (r matches Err(e) && e.says(why)),
        Ok(asked) => {
            &&& status_shown(old, new, "Rejecting relationship request..."@)
            &&& r matches Ok(send)
            &&& send.envelope.listener_id@ == listener_view(us, config)
            &&& send.envelope.to_did == asked.0
            &&& send.envelope.message@ == (OutboundView {
                from: us,
                to: asked.0@,
                thid: Some(task_id),
                body: BodyView::RelationshipReject { reason: opt_view(reason) },
            })
            &&& send.envelope.message.stamped(Some(MESSAGE_LIFETIME))
            &&& send.effect matches InboxEffect::RejectRelationship {
                task_id: id,
                from_did,
                reason: why,
            }
            &&& id@ == task_id
            &&& from_did == asked.0
            &&& why == reason
        },
    }
}

/// Prepares the rejection of a request for a relationship.
pub fn prepare_reject_relationship(
    config: &Config,
    state: &mut State,
    task_id: &str,
    reason: Option<String>,
) -> (r: Result<InboxSend, ErrorText>)
    ensures
        rejection_prepared(*old(state), *final(state), *config, task_id@, reason, r),
{
    let from_did = match config.private.tasks.get_by_id(task_id) {
        None => {
            return Err(task_missing(task_id));
        },
        Some(task) => match &task.type_ {
            TaskType::RelationshipRequestInbound { from, .. } => from.clone(),
            _ => {
                return Err(task_mismatch(task_id, "an inbound relationship request"));
            },
        },
    };
    let listener_id = listener_id_for_did(config.persona_did(), config);
    let message = build_didcomm_message(
        OutboundBody::RelationshipReject { reason: copy_opt(&reason) },
        config.persona_did(),
        from_did.as_str(),
        Some(owned(task_id)),
    );
    state.main_page.set_status(Panel::Inbox, owned("Rejecting relationship request..."));
    Ok(
        InboxSend {
            envelope: Envelope { listener_id, to_did: from_did.clone(), message },
            effect: InboxEffect::RejectRelationship { task_id: owned(task_id), from_did, reason },
        },
    )
}

/// The relationship over which a task asks for a credential, or why there is
/// none.
pub open spec fn asked_over(config: Config, task_id: Seq<char>) -> Result<Relationship, Seq<char>> {
    match lookup(config.private.tasks@, task_id) {
        None => Err(no_task(task_id)),
        Some(task) => match task.type_ {
            TaskType::VRCRequestInbound { reason, remote_p_did } => match lookup(
                config.private.relationships@,
                remote_p_did@,
            ) {
                Some(rel) => Ok(rel),
                None => Err("no relationship for "@ + remote_p_did@),
            },
            _ => Err(wrong_task(task_id, "an inbound VRC request"@)),
        },
    }
}

/// Who a credential is issued by and to, and over which DIDs it is sent.
#[derive(Clone, Debug)]
pub struct VrcTerms {
    pub issuer: String,
    pub our_r_did: String,
    pub their_r_did: String,
    pub their_p_did: String,
}

/// The terms of a credential asked for by a task, or why there are none.
pub fn vrc_terms(config: &Config, task_id: &str) -> (r: Result<VrcTerms, ErrorText>)
    ensures
        match asked_over(*config, task_id@) {
            Err(why) => r matches Err(e) && e.says(why),
            Ok(rel) => r matches Ok(t) && t.issuer@ == config.persona_did_view() && t.our_r_did
                == rel.our_did && t.their_r_did == rel.remote_did && t.their_p_did
                == rel.remote_p_did,
        },
{
    let party = match config.private.tasks.get_by_id(task_id) {
        None => {
            return Err(task_missing(task_id));
        },
        Some(task) => match &task.type_ {
            TaskType::VRCRequestInbound { remote_p_did, .. } => remote_p_did.clone(),
            _ => {
                return Err(task_mismatch(task_id, "an inbound VRC request"));
            },
        },
    };
    match config.private.relationships.get(party.as_str()) {
        None => Err(ErrorText::plain(cat2("no relationship for ", party.as_str()))),
        Some(rel) => Ok(
            VrcTerms {
                issuer: owned(config.persona_did()),
                our_r_did: rel.our_did.clone(),
                their_r_did: rel.remote_did.clone(),
                their_p_did: rel.remote_p_did.clone(),
            },
        ),
    }
}

/// A message over a relationship, in answer to a task.
pub open spec fn sent_over(
    e: Envelope,
    config: Config,
    rel: Relationship,
    task_id: Seq<char>,
    body: BodyView,
) -> bool {
    &&& e.listener_id@ == listener_view(rel.our_did@, config)
    &&& e.to_did == rel.remote_did
    &&& e.message@ == (OutboundView {
        from: rel.our_did@,
        to: rel.remote_did@,
        thid: Some(task_id),
        body,
    })
    &&& e.message.stamped(Some(MESSAGE_LIFETIME))
}

fn send_over(config: &Config, terms: &VrcTerms, task_id: &str, body: OutboundBody) -> (r: Envelope)
    ensures
        r.listener_id@ == listener_view(terms.our_r_did@, *config),
        r.to_did == terms.their_r_did,
        r.message@ == (OutboundView {
            from: terms.our_r_did@,
            to: terms.their_r_did@,
            thid: Some(task_id@),
            body: body@,
        }),
        r.message.stamped(Some(MESSAGE_LIFETIME)),
{
    let message = build_didcomm_message(
        body,
        terms.our_r_did.as_str(),
        terms.their_r_did.as_str(),
        Some(owned(task_id)),
    );
    let listener_id = listener_id_for_did(terms.our_r_did.as_str(), config);
    Envelope { listener_id, to_did: terms.their_r_did.clone(), message }
}

/// What preparing to issue a credential comes to.
pub open spec fn issuing_prepared(
    old: State,
    new: State,
    config: Config,
    task_id: Seq<char>,
    signed: Result<Vrc, String>,
    r: Result<InboxSend, ErrorText>,
) -> bool {
    match asked_over(config, task_id) {
        Err(why) => new == old && (r matches Err(e) && e.says(why)),
        Ok(rel) => match signed {
            Err(why) => new == old && (r matches Err(e) && e.says(why@)),
            Ok(vrc) => {
                &&& status_shown(old, new, "Issuing VRC..."@)
                &&& r matches Ok(send)
                &&& sent_over(
                    send.envelope,
                    config,
                    rel,
                    task_id,
                    BodyView::VrcIssued { credential: vrc.credential@ },
                )
                &&& send.effect matches InboxEffect::AcceptVrcRequest {
                    task_id: id,
                    their_p_did,
                    vrc: issued,
                }
                &&& id@ == task_id
                &&& their_p_did == rel.remote_p_did
                &&& issued == vrc
            },
        },
    }
}

/// Prepares to issue the credential that a task asks for; `signed` is the
/// credential made after its terms.
pub fn prepare_accept_vrc_request(
    config: &Config,
    state: &mut State,
    task_id: &str,
    signed: Result<Vrc, String>,
) -> (r: Result<InboxSend, ErrorText>)
    ensures
        issuing_prepared(*old(state), *final(state), *config, task_id@, signed, r),
{
    let terms = match vrc_terms(config, task_id) {
        Ok(t) => t,
        Err(e) => {
            return Err(e);
        },
    };
    let vrc = match signed {
        Ok(v) => v,
        Err(why) => {
            return Err(ErrorText::plain(why));
        },
    };
    let envelope = send_over(
        config,
        &terms,
        task_id,
        OutboundBody::VrcIssued { credential: vrc.credential.clone() },
    );
    state.main_page.set_status(Panel::Inbox, owned("Issuing VRC..."));
    Ok(
        InboxSend {
            envelope,
            effect: InboxEffect::AcceptVrcRequest {
                task_id: owned(task_id),
                their_p_did: terms.their_p_did,
                vrc,
            },
        },
    )
}

/// What preparing to turn down a request for a credential comes to.
pub open spec fn vrc_rejection_prepared(
    old: State,
    new: State,
    config: Config,
    task_id: Seq<char>,
    reason: Option<String>,
    r: Result<InboxSend, ErrorText>,
) -> bool {
    match asked_over(config, task_id) {
        Err(why) => new == old && (r matches Err(e) && e.says(why)),
        Ok(rel) => {
            &&& status_shown(old, new, "Rejecting VRC request..."@)
            &&& r matches Ok(send)
            &&& sent_over(
                send.envelope,
                config,
                rel,
                task_id,
                BodyView::VrcReject { reason: opt_view(reason) },
            )
            &&& send.effect matches InboxEffect::RejectVrcRequest {
                task_id: id,
                their_p_did,
                reason: why,
            }
            &&& id@ == task_id
            &&& their_p_did == rel.remote_p_did
            &&& why == reason
        },
    }
}

/// Prepares to turn down a request for a credential.
pub fn prepare_reject_vrc_request(
    config: &Config,
    state: &mut State,
    task_id: &str,
    reason: Option<String>,
) -> (r: Result<InboxSend, ErrorText>)
    ensures
        vrc_rejection_prepared(*old(state), *final(state), *config, task_id@, reason, r),
{
    let terms = match vrc_terms(config, task_id) {
        Ok(t) => t,
        Err(e) => {
            return Err(e);
        },
    };
    let envelope = send_over(
        config,
        &terms,
        task_id,
        OutboundBody::VrcReject { reason: copy_opt(&reason) },
    );
    state.main_page.set_status(Panel::Inbox, owned("Rejecting VRC request..."));
    Ok(
        InboxSend {
            envelope,
            effect: InboxEffect::RejectVrcRequest {
                task_id: owned(task_id),
                their_p_did: terms.their_p_did,
                reason,
            },
        },
    )
}

// ---------------------------------------------------------------------------
// Dispatch
// ---------------------------------------------------------------------------

/// Outside work that an action on this panel needs.
pub enum InboxJob {
    /// Make a DID where one is planned, make the message and send it.
    AcceptRelationship(Box<AcceptJob>),
    /// Send this.
    Send(Box<InboxSend>),
}

/// What is left to be done after an action on this panel.
pub enum InboxDispatch {
    /// Nothing.
    Handled,
    /// This, and then to take note of its outcome.
    Spawn(InboxJob),
}

/// Whether an action needs outside work.
pub open spec fn needs_network(action: InboxAction) -> bool {
    ||| action is AcceptRelationship
    ||| action is RejectRelationship
    ||| action is AcceptVrcRequest
    ||| action is RejectVrcRequest
}

/// Whether an action needs outside work.
pub fn is_network(action: &InboxAction) -> (r: bool)
    ensures
        r == needs_network(*action),
{
    match action {
        InboxAction::AcceptRelationship { .. } => true,
        InboxAction::RejectRelationship { .. } => true,
        InboxAction::AcceptVrcRequest { .. } => true,
        InboxAction::RejectVrcRequest { .. } => true,
        _ => false,
    }
}

/// What answering comes to: an answer that could be prepared is handed out, and
/// else the error is shown. `mid` is the state after the preparation.
pub open spec fn answered(
    mid: State,
    new: State,
    context: Seq<char>,
    prepared: Result<InboxJob, ErrorText>,
    r: InboxDispatch,
) -> bool {
    match prepared {
        Ok(job) => new == mid && r == InboxDispatch::Spawn(job),
        Err(e) => r is Handled && went_wrong(mid, new, Panel::Inbox, context, e),
    }
}

/// A prepared answer, as outside work.
pub open spec fn as_send(r: Result<InboxSend, ErrorText>) -> Result<InboxJob, ErrorText> {
    match r {
        Ok(send) => Ok(InboxJob::Send(Box::new(send))),
        Err(e) => Err(e),
    }
}

/// A prepared acceptance, as outside work.
pub open spec fn as_accept(r: Result<AcceptJob, ErrorText>) -> Result<InboxJob, ErrorText> {
    match r {
        Ok(job) => Ok(InboxJob::AcceptRelationship(Box::new(job))),
        Err(e) => Err(e),
    }
}

/// What an action on this panel comes to.
pub open spec fn inbox_handled(
    action: InboxAction,
    old: State,
    new: State,
    was: Config,
    is: Config,
    signed: Result<Vrc, String>,
    host: Host,
    r: InboxDispatch,
) -> bool {
    let p = old.inbox();
    match action {
        InboxAction::AcceptRelationship { task_id, generate_r_did } => exists|
            mid: State,
            prepared: Result<AcceptJob, ErrorText>,
        |
            #[trigger] acceptance_prepared(
                old,
                mid,
                was,
                is,
                task_id@,
                generate_r_did,
                prepared,
            ) && answered(mid, new, "Failed to accept relationship"@, as_accept(prepared), r),
        InboxAction::RejectRelationship { task_id, reason } => is == was && exists|
            mid: State,
            prepared: Result<InboxSend, ErrorText>,
        |
            #[trigger] rejection_prepared(old, mid, was, task_id@, reason, prepared) && answered(
                mid,
                new,
                "Failed to reject relationship"@,
                as_send(prepared),
                r,
            ),
        InboxAction::AcceptVrcRequest { task_id } => is == was && exists|
            mid: State,
            prepared: Result<InboxSend, ErrorText>,
        |
            #[trigger] issuing_prepared(old, mid, was, task_id@, signed, prepared) && answered(
                mid,
                new,
                "Failed to issue VRC"@,
                as_send(prepared),
                r,
            ),
        InboxAction::RejectVrcRequest { task_id, reason } => is == was && exists|
            mid: State,
            prepared: Result<InboxSend, ErrorText>,
        |
            #[trigger] vrc_rejection_prepared(
                old,
                mid,
                was,
                task_id@,
                reason,
                prepared,
            ) && answered(mid, new, "Failed to reject VRC request"@, as_send(prepared), r),
        InboxAction::AcceptVrc { task_id } => r is Handled && vrc_accept_concluded(
            old,
            new,
            was,
            is,
            host,
            task_id@,
        ),
        InboxAction::DismissTask { task_id } => r is Handled && inbox_set(
            was,
            is,
            without(was.private.tasks@, task_id@),
        ) && inbox_tidied(old, new, is, host, "Task dismissed"@),
        InboxAction::ClearAll => r is Handled && inbox_set(was, is, Seq::empty()) && inbox_tidied(
            old,
            new,
            is,
            host,
            "All inbox tasks cleared"@,
        ),
        InboxAction::SelectTask(index) => is == was && r is Handled && new == old.with_inbox(
            InboxState { selected_index: index, ..p },
        ),
        InboxAction::OpenDetail(index) => is == was && r is Handled && detail_opened(
            old,
            new,
            index,
        ),
        InboxAction::Back => is == was && r is Handled && new == task_closed(old),
        InboxAction::ConfirmDismiss { task_id } => is == was && r is Handled && new
            == old.with_inbox(
            InboxState { confirm: Some(InboxConfirm::Dismiss { task_id }), ..p },
        ),
        InboxAction::ConfirmClearAll => is == was && r is Handled && new == old.with_inbox(
            InboxState { confirm: Some(InboxConfirm::ClearAll), ..p },
        ),
        InboxAction::CancelConfirm => is == was && r is Handled && new == old.with_inbox(
            InboxState { confirm: None, ..p },
        ),
    }
}

/// Whether an action changes the configuration for good at once.
pub open spec fn changes_inbox(action: InboxAction, was: Config) -> bool {
    match action {
        InboxAction::AcceptVrc { task_id } => issued_in(was.private.tasks@, task_id@) matches Ok(vrc)
            && vrc.id@.len() > 0,
        InboxAction::DismissTask { .. } => true,
        InboxAction::ClearAll => true,
        _ => false,
    }
}

/// Does what is asked for on this panel. `signed` is the credential made after
/// the terms of the task, where a request for one is accepted.
#[verifier::rlimit(60)]
pub fn dispatch(
    action: InboxAction,
    config: &mut Config,
    state: &mut State,
    save: &mut SaveScheduler,
    signed: Result<Vrc, String>,
    host: &Host,
) -> (r: InboxDispatch)
    ensures
        inbox_handled(
            action,
            *old(state),
            *final(state),
            *old(config),
            *final(config),
            signed,
            *host,
            r,
        ),
        *final(save) == (if changes_inbox(action, *old(config)) {
            old(save).marked(host.now)
        } else {
            *old(save)
        }),
        r is Spawn ==> needs_network(action),
{
    match action {
        InboxAction::AcceptRelationship { task_id, generate_r_did } => {
            let prepared = prepare_accept_relationship(
                config,
                state,
                task_id.as_str(),
                generate_r_did,
            );
            let ghost mid = *state;
            assert(acceptance_prepared(
                *old(state),
                mid,
                *old(config),
                *config,
                task_id@,
                generate_r_did,
                prepared,
            ));
            match prepared {
                Ok(job) => {
                    return InboxDispatch::Spawn(InboxJob::AcceptRelationship(Box::new(job)));
                },
                Err(e) => fail(state, "Failed to accept relationship", &e),
            }
        },
        InboxAction::RejectRelationship { task_id, reason } => {
            let prepared = prepare_reject_relationship(config, state, task_id.as_str(), reason);
            let ghost mid = *state;
            assert(rejection_prepared(*old(state), mid, *config, task_id@, reason, prepared));
            match prepared {
                Ok(send) => {
                    return InboxDispatch::Spawn(InboxJob::Send(Box::new(send)));
                },
                Err(e) => fail(state, "Failed to reject relationship", &e),
            }
        },
        InboxAction::AcceptVrc { task_id } => handle_accept_vrc(
            config,
            state,
            save,
            task_id.as_str(),
            host,
        ),
        InboxAction::AcceptVrcRequest { task_id } => {
            let prepared = prepare_accept_vrc_request(config, state, task_id.as_str(), signed);
            let ghost mid = *state;
            assert(issuing_prepared(*old(state), mid, *config, task_id@, signed, prepared));
            match prepared {
                Ok(send) => {
                    return InboxDispatch::Spawn(InboxJob::Send(Box::new(send)));
                },
                Err(e) => fail(state, "Failed to issue VRC", &e),
            }
        },
        InboxAction::RejectVrcRequest { task_id, reason } => {
            let prepared = prepare_reject_vrc_request(config, state, task_id.as_str(), reason);
            let ghost mid = *state;
            assert(vrc_rejection_prepared(
                *old(state),
                mid,
                *config,
                task_id@,
                reason,
                prepared,
            ));
            match prepared {
                Ok(send) => {
                    return InboxDispatch::Spawn(InboxJob::Send(Box::new(send)));
                },
                Err(e) => fail(state, "Failed to reject VRC request", &e),
            }
        },
        InboxAction::DismissTask { task_id } => handle_dismiss_task(
            config,
            state,
            save,
            task_id.as_str(),
            host,
        ),
        InboxAction::ClearAll => handle_clear_all(config, state, save, host),
        InboxAction::SelectTask(index) => handle_inbox_select(state, index),
        InboxAction::OpenDetail(index) => handle_inbox_open_detail(state, index),
        InboxAction::Back => {
            state.main_page.content_panel.inbox.active_task = None;
        },
        InboxAction::ConfirmDismiss { task_id } => {
            state.main_page.content_panel.inbox.confirm = Some(InboxConfirm::Dismiss { task_id });
        },
        InboxAction::ConfirmClearAll => {
            state.main_page.content_panel.inbox.confirm = Some(InboxConfirm::ClearAll);
        },
        InboxAction::CancelConfirm => {
            state.main_page.content_panel.inbox.confirm = None;
        },
    }
    InboxDispatch::Handled
}

// ---------------------------------------------------------------------------
// What answering is for
// ---------------------------------------------------------------------------

/// What a task asks is what its request says: an acceptance that was sent makes
/// the relationship that was asked for, with the requester as its party and the
/// DID that the request named as the one the party uses. By that DID, where no
/// other party uses it, the relationship is found, so that messages go there and
/// are recognised from there.
pub proof fn law_accepted_request_becomes_its_relationship(
    config: &mut Config,
    state: &mut State,
    task_id: &str,
    generate_r_did: bool,
    job: AcceptJob,
    created: Option<CreatedRDid>,
    outcome: InboxOutcome,
    later: &mut Config,
    shown: &mut State,
    save: &mut SaveScheduler,
    host: &Host,
    from: String,
    to: String,
    request: RelationshipRequest,
)
    requires
        lookup(old(config).private.tasks@, task_id@) matches Some(task) && task.type_ == (
        TaskType::RelationshipRequestInbound { from, to, request }),
        call_ensures(
            prepare_accept_relationship,
            (config, state, task_id, generate_r_did),
            Ok(job),
        ),
        call_ensures(AcceptJob::concluded, (job, created, Ok(())), outcome),
        call_ensures(InboxOutcome::apply, (outcome, shown, later, save, host), ()),
    ensures
        lookup(final(later).private.relationships@, from@) matches Some(rel) && rel.remote_did@
            == request.did@ && rel.task_id@ == task_id@ && rel.state is RequestAccepted
            && rel.our_did@ == (match created {
            Some(c) => c.r_did@,
            None => final(config).persona_did_view(),
        }),
        (forall|i: int|
            0 <= i < old(later).private.relationships@.len() && (#[trigger] old(later).private.relationships@[i]).remote_did@ == request.did@ ==> old(later).private.relationships@[i].remote_p_did@ == from@) ==> (by_remote_did(
            final(later).private.relationships@,
            request.did@,
        ) matches Some(rel) && rel.remote_p_did@ == from@),
        lookup(final(later).private.tasks@, task_id@) is None,
        forall|k: Seq<char>|
            k != from@ ==> #[trigger] lookup(final(later).private.relationships@, k) == lookup(
                old(later).private.relationships@,
                k,
            ),
        *final(save) == old(save).marked(host.now),
{
    law_sent_acceptance_makes_the_relationship(
        outcome,
        shown,
        later,
        save,
        host,
        job.task_id,
        job.from_did,
        job.their_did,
        match created {
            Some(c) => c.r_did,
            None => job.persona_did,
        },
        outcome.effect->AcceptRelationship_key_info,
    );
}

/// An acceptance that was sent makes a relationship with the requester, found by
/// the requester's persona DID and, where no other party uses it, by the DID that
/// the requester named.
pub proof fn law_sent_acceptance_makes_the_relationship(
    outcome: InboxOutcome,
    state: &mut State,
    config: &mut Config,
    save: &mut SaveScheduler,
    host: &Host,
    task_id: String,
    from_did: String,
    their_did: String,
    our_did: String,
    key_info: Vec<KeyEntry>,
)
    requires
        call_ensures(InboxOutcome::apply, (outcome, state, config, save, host), ()),
        outcome.effect == (InboxEffect::AcceptRelationship {
            task_id,
            from_did,
            their_did,
            our_did,
            key_info,
        }),
        outcome.result is Ok,
    ensures
        lookup(final(config).private.relationships@, from_did@) matches Some(rel)
            && rel.remote_did@ == their_did@ && rel.our_did@ == our_did@ && rel.task_id@ == task_id@
            && rel.state is RequestAccepted && rel.our_persona == old(config).active_persona
            && clock_read(rel.created),
        (forall|i: int|
            0 <= i < old(config).private.relationships@.len() && (#[trigger] old(config).private.relationships@[i]).remote_did@ == their_did@ ==> old(config).private.relationships@[i].remote_p_did@ == from_did@) ==> (by_remote_did(
            final(config).private.relationships@,
            their_did@,
        ) matches Some(rel) && rel.remote_p_did@ == from_did@),
        lookup(final(config).private.tasks@, task_id@) is None,
        forall|k: Seq<char>|
            k != from_did@ ==> #[trigger] lookup(final(config).private.relationships@, k) == lookup(
                old(config).private.relationships@,
                k,
            ),
        final(config).key_info@ == keys_recorded(old(config).key_info@, key_info@),
        *final(save) == old(save).marked(host.now),
{
    let rels = old(config).private.relationships@;
    let new = final(config).private.relationships@;
    let rel = new.last();
    law_stored_entry_is_found(rels, rel);
    lemma_without(old(config).private.tasks@, task_id@);
    lemma_without(rels, from_did@);
    lemma_remote_did_found(new, their_did@);
    assert(new[new.len() - 1].remote_did@ == their_did@);
    if let Some(found) = by_remote_did(new, their_did@) {
        let i = choose|i: int| 0 <= i < new.len() && new[i] == found;
        let kept = without(rels, from_did@);
        if i < kept.len() {
            assert(kept[i] == found);
            assert(kept.contains(found));
            let j = choose|j: int| 0 <= j < rels.len() && rels[j] == found;
            assert(rels[j].remote_did@ == their_did@);
        }
    }
}

/// The message that accepts goes to the requester, in the thread of the request,
/// and tells it the DID that we are going to use.
pub proof fn law_acceptance_tells_our_did(job: &AcceptJob, our_did: &str, e: Envelope)
    requires
        call_ensures(AcceptJob::envelope, (job, our_did), e),
    ensures
        e.to_did@ == job.from_did@,
        e.message@.to == job.from_did@,
        e.message@.from == job.persona_did@,
        e.message@.thid == Some(job.task_id@),
        e.message@.body matches BodyView::RelationshipAccept { did } && did == our_did@,
        e.listener_id@ == job.persona_listener_id@,
        exists|t: i64| #[trigger]
            clock_read(t) && (t >= 0 ==> e.message.expires_time == Some((t + 172800) as u64)),
{
}

/// A rejection goes to the requester, in the thread of its request, with the
/// reason given; the request stays until it was sent.
pub proof fn law_rejection_goes_to_the_requester(
    task_id: String,
    reason: Option<String>,
    config: &mut Config,
    state: &mut State,
    save: &mut SaveScheduler,
    signed: Result<Vrc, String>,
    host: &Host,
    r: InboxDispatch,
    from: String,
    to: String,
    request: RelationshipRequest,
)
    requires
        call_ensures(dispatch, (InboxAction::RejectRelationship { task_id, reason }, config, state, save, signed, host), r),
        lookup(old(config).private.tasks@, task_id@) matches Some(task) && task.type_ == (
        TaskType::RelationshipRequestInbound { from, to, request }),
    ensures
        *final(config) == *old(config),
        r matches InboxDispatch::Spawn(InboxJob::Send(send)) && send.envelope.to_did@ == from@
            && send.envelope.message@ == (OutboundView {
            from: old(config).persona_did_view(),
            to: from@,
            thid: Some(task_id@),
            body: BodyView::RelationshipReject { reason: opt_view(reason) },
        }) && (send.effect matches InboxEffect::RejectRelationship { task_id: id, from_did, .. }
            && id@ == task_id@ && from_did@ == from@),
{
}

/// The credential that a party asked for goes to it over the relationship with
/// it, in the thread of its request, and is filed under that party once it was
/// sent.
pub proof fn law_credential_goes_to_who_asked(
    task_id: String,
    config: &mut Config,
    state: &mut State,
    save: &mut SaveScheduler,
    signed: Result<Vrc, String>,
    host: &Host,
    r: InboxDispatch,
    reason: Option<String>,
    party: String,
    rel: Relationship,
    vrc: Vrc,
)
    requires
        call_ensures(dispatch, (InboxAction::AcceptVrcRequest { task_id }, config, state, save, signed, host), r),
        lookup(old(config).private.tasks@, task_id@) matches Some(task) && task.type_ == (
        TaskType::VRCRequestInbound { reason, remote_p_did: party }),
        lookup(old(config).private.relationships@, party@) == Some(rel),
        signed == Ok::<Vrc, String>(vrc),
    ensures
        *final(config) == *old(config),
        r matches InboxDispatch::Spawn(InboxJob::Send(send)) && send.envelope.to_did@
            == rel.remote_did@ && send.envelope.message@ == (OutboundView {
            from: rel.our_did@,
            to: rel.remote_did@,
            thid: Some(task_id@),
            body: BodyView::VrcIssued { credential: vrc.credential@ },
        }) && (send.effect matches InboxEffect::AcceptVrcRequest {
            task_id: id,
            their_p_did,
            vrc: issued,
        } && id@ == task_id@ && their_p_did@ == party@ && issued == vrc),
{
    lemma_lookup(old(config).private.relationships@, party@);
}

/// A request for a credential is turned down over the relationship with the party
/// that asked, in the thread of its request, with the reason given.
pub proof fn law_refusal_goes_to_who_asked(
    task_id: String,
    why: Option<String>,
    config: &mut Config,
    state: &mut State,
    save: &mut SaveScheduler,
    signed: Result<Vrc, String>,
    host: &Host,
    r: InboxDispatch,
    reason: Option<String>,
    party: String,
    rel: Relationship,
)
    requires
        call_ensures(dispatch, (InboxAction::RejectVrcRequest { task_id, reason: why }, config, state, save, signed, host), r),
        lookup(old(config).private.tasks@, task_id@) matches Some(task) && task.type_ == (
        TaskType::VRCRequestInbound { reason, remote_p_did: party }),
        lookup(old(config).private.relationships@, party@) == Some(rel),
    ensures
        *final(config) == *old(config),
        r matches InboxDispatch::Spawn(InboxJob::Send(send)) && send.envelope.to_did@
            == rel.remote_did@ && send.envelope.message@ == (OutboundView {
            from: rel.our_did@,
            to: rel.remote_did@,
            thid: Some(task_id@),
            body: BodyView::VrcReject { reason: opt_view(why) },
        }) && (send.effect matches InboxEffect::RejectVrcRequest { task_id: id, .. } && id@
            == task_id@),
{
}

/// A credential that was issued and sent is on file under the party it was issued
/// to, and its task is closed; credentials received are not touched.
pub proof fn law_issued_credential_is_on_file(
    outcome: InboxOutcome,
    state: &mut State,
    config: &mut Config,
    save: &mut SaveScheduler,
    host: &Host,
    task_id: String,
    party: String,
    vrc: Vrc,
)
    requires
        call_ensures(InboxOutcome::apply, (outcome, state, config, save, host), ()),
        outcome.effect == (InboxEffect::AcceptVrcRequest { task_id, their_p_did: party, vrc }),
        outcome.result is Ok,
        vrc.id@.len() > 0,
    ensures
        exists|i: int|
            0 <= i < final(config).private.vrcs_issued.entries@.len() && (#[trigger] final(config).private.vrcs_issued.entries@[i]).remote_p_did@ == party@ && final(config).private.vrcs_issued.entries@[i].vrc == vrc,
        lookup(final(config).private.tasks@, task_id@) is None,
        final(config).private.vrcs_received == old(config).private.vrcs_received,
        final(config).private.relationships == old(config).private.relationships,
        *final(save) == old(save).marked(host.now),
{
    let n = final(config).private.vrcs_issued.entries@.len() - 1;
    assert(final(config).private.vrcs_issued.entries@[n].remote_p_did@ == party@);
    lemma_without(old(config).private.tasks@, task_id@);
}

/// A credential that is accepted is on file, under its issuer, among those
/// received; its task is closed, and nothing is on file of one without a proof.
pub proof fn law_accepted_credential_is_on_file(
    config: &mut Config,
    task_id: &str,
    r: Result<(), ErrorText>,
    vrc: Vrc,
)
    requires
        call_ensures(accept_vrc, (config, task_id), r),
        lookup(old(config).private.tasks@, task_id@) matches Some(task) && task.type_ == (
        TaskType::VRCIssued { vrc }),
    ensures
        vrc.id@.len() == 0 ==> r is Err && *final(config) == *old(config),
        vrc.id@.len() > 0 ==> r is Ok && lookup(final(config).private.tasks@, task_id@) is None
            && exists|i: int|
            0 <= i < final(config).private.vrcs_received.entries@.len() && (#[trigger] final(config).private.vrcs_received.entries@[i]).remote_p_did@ == vrc.issuer@ && final(config).private.vrcs_received.entries@[i].vrc == vrc,
        final(config).private.vrcs_issued == old(config).private.vrcs_issued,
        final(config).private.relationships == old(config).private.relationships,
{
    lemma_without(old(config).private.tasks@, task_id@);
    if vrc.id@.len() > 0 {
        let n = final(config).private.vrcs_received.entries@.len() - 1;
        assert(final(config).private.vrcs_received.entries@[n].remote_p_did@ == vrc.issuer@);
    }
}

/// Accepting on the panel does the same, and what was accepted is to be saved.
pub proof fn law_accepting_on_the_panel_keeps_the_credential(
    task_id: String,
    config: &mut Config,
    state: &mut State,
    save: &mut SaveScheduler,
    signed: Result<Vrc, String>,
    host: &Host,
    r: InboxDispatch,
    vrc: Vrc,
)
    requires
        call_ensures(dispatch, (InboxAction::AcceptVrc { task_id }, config, state, save, signed, host), r),
        lookup(old(config).private.tasks@, task_id@) matches Some(task) && task.type_ == (
        TaskType::VRCIssued { vrc }),
        vrc.id@.len() > 0,
    ensures
        r is Handled,
        lookup(final(config).private.tasks@, task_id@) is None,
        exists|i: int|
            0 <= i < final(config).private.vrcs_received.entries@.len() && (#[trigger] final(config).private.vrcs_received.entries@[i]).remote_p_did@ == vrc.issuer@ && final(config).private.vrcs_received.entries@[i].vrc == vrc,
        final(save).dirty,
{
    lemma_without(old(config).private.tasks@, task_id@);
    let n = final(config).private.vrcs_received.entries@.len() - 1;
    assert(final(config).private.vrcs_received.entries@[n].remote_p_did@ == vrc.issuer@);
}

/// A task that is dismissed leaves the inbox, and no other task with it; emptying
/// the inbox leaves none. Neither touches a relationship or a credential, and
/// both are to be saved.
pub proof fn law_dismissing_takes_one_task(
    action: InboxAction,
    config: &mut Config,
    state: &mut State,
    save: &mut SaveScheduler,
    signed: Result<Vrc, String>,
    host: &Host,
    r: InboxDispatch,
)
    requires
        call_ensures(dispatch, (action, config, state, save, signed, host), r),
    ensures
        action matches InboxAction::DismissTask { task_id } ==> lookup(
            final(config).private.tasks@,
            task_id@,
        ) is None && forall|k: Seq<char>|
            k != task_id@ ==> #[trigger] lookup(final(config).private.tasks@, k) == lookup(
                old(config).private.tasks@,
                k,
            ),
        action is ClearAll ==> final(config).private.tasks@.len() == 0,
        action is DismissTask || action is ClearAll ==> final(save).dirty && final(config).private.relationships == old(config).private.relationships && final(config).private.vrcs_received == old(config).private.vrcs_received && final(config).private.vrcs_issued == old(config).private.vrcs_issued && final(config).account == old(config).account && r is Handled,
{
    if let InboxAction::DismissTask { task_id } = action {
        lemma_without(old(config).private.tasks@, task_id@);
    }
}

/// Only dismissing, emptying and accepting a credential take tasks out at once;
/// every other action on the panel leaves the inbox and the relationships as they
/// are.
pub proof fn law_looking_changes_nothing(
    action: InboxAction,
    config: &mut Config,
    state: &mut State,
    save: &mut SaveScheduler,
    signed: Result<Vrc, String>,
    host: &Host,
    r: InboxDispatch,
)
    requires
        call_ensures(dispatch, (action, config, state, save, signed, host), r),
        action !is DismissTask,
        action !is ClearAll,
        action !is AcceptVrc,
    ensures
        final(config).private.tasks == old(config).private.tasks,
        final(config).private.relationships@ == old(config).private.relationships@,
        final(config).private.vrcs_received == old(config).private.vrcs_received,
        final(config).private.vrcs_issued == old(config).private.vrcs_issued,
        final(config).account == old(config).account,
        action !is AcceptRelationship ==> *final(config) == *old(config),
        *final(save) == *old(save),
{
    if action is AcceptRelationship {
        let id = action->AcceptRelationship_task_id@;
        let (mid, prepared) = choose|mid: State, prepared: Result<AcceptJob, ErrorText>|
            #[trigger] acceptance_prepared(
                *old(state),
                mid,
                *old(config),
                *final(config),
                id,
                action->generate_r_did,
                prepared,
            ) && answered(
                mid,
                *final(state),
                "Failed to accept relationship"@,
                as_accept(prepared),
                r,
            );
    }
}

/// Opening a task shows that task: the one in the row, under its id.
pub proof fn law_opened_task_is_the_one_in_the_row(state: &mut State, index: usize)
    requires
        call_ensures(handle_inbox_open_detail, (state, index), ()),
        index < old(state).inbox().tasks@.len(),
    ensures
        final(state).inbox().selected_index == index,
        final(state).inbox().active_task matches Some(v) && (match v {
            ActiveTaskView::RelationshipRequestInbound { task_id, .. } => task_id,
            ActiveTaskView::RelationshipRequestOutbound { task_id, .. } => task_id,
            ActiveTaskView::VRCRequestInbound { task_id, .. } => task_id,
            ActiveTaskView::VRCRequestOutbound { task_id, .. } => task_id,
            ActiveTaskView::VRCIssued { task_id, .. } => task_id,
            ActiveTaskView::Info { task_id, .. } => task_id,
        })@ == old(state).inbox().tasks@[index as int].id@,
{
}

} // verus!
