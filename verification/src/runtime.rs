//! The main loop: every action of the user and the state it leads to.

use crate::actions::{Action, CredentialAction, InboxAction, RelationshipAction, SettingsAction};
use crate::background_dispatch::{busy_view, DispatchDomain, InFlight};
use crate::communities::{
    acknowledgement_concluded, archiving_concluded, choice_concluded, deletion_concluded,
    handle_acknowledge_community, handle_archive_community, handle_delete_community,
    handle_leave_community, handle_open_switcher, handle_set_active_community,
    handle_switcher_select, handle_toggle_favourite, handle_toggle_show_archived,
    handle_withdraw_join, leave_asked, removal_concluded, remove_community, row_at, row_pending,
    row_removable, star_concluded, switch_concluded, switcher_opened, withdrawal_concluded,
    LeaveJob,
};
use crate::config::Config;
use crate::content::CommunitiesState;
use crate::credential_actions::{self, CredentialDispatch, VrcJob};
use crate::did_manager::{deletion_prepared, prepare_delete_context_did, DidDeleteJob};
use crate::didcomm::{
    listener_line, persona_line, persona_listener_config, persona_listener_view, ListenerConfig,
};
use crate::dispatch_util::{line_logged, refreshed, went_wrong, Panel};
use crate::inbox_actions::{self, InboxDispatch, InboxJob};
use crate::keyed::lookup;
use crate::launch::Interrupted;
use crate::ledger::{PersonaId, Vrc};
use crate::main_page::{plain_line, push_line, ErrorText, MainPageState};
use crate::nav::{handle_nav_action, navigated};
use crate::relationship_actions::{self, RelationshipDispatch, RelationshipJob};
use crate::save_coalesce::SaveScheduler;
use crate::session_manager::SessionManager;
use crate::settings_actions::{self, SettingsOutcome};
use crate::state::{
    chosen_view, reconciled, ActivePage, ConnectionState, MediatorStatus, State,
};
use crate::sync::Host;
use crate::text::{opt_view, owned};
use vstd::prelude::*;

verus! {

/// Everything that the main loop works on.
pub struct Runtime {
    pub state: State,
    pub config: Config,
    pub save: SaveScheduler,
    pub in_flight: InFlight,
    pub sessions: SessionManager,
    /// When the last ping was sent, in milliseconds.
    pub ping_sent_at: Option<u64>,
}

/// What is left to be done outside after an action.
pub enum Effect {
    Nothing,
    /// Leave the loop.
    Exit(Interrupted),
    RemoveListener(String),
    Inbox(InboxJob),
    Relationship(RelationshipJob),
    /// Send this request, then end it.
    Credential(Box<VrcJob>),
    Settings(SettingsOutcome),
    /// Put this listener in the place of the persona's.
    Reconnect(Box<ListenerConfig>),
    DeleteDid(Box<DidDeleteJob>),
    Leave(Box<LeaveJob>),
    /// Run the flow that joins a community.
    Join,
}

/// A listener to be removed, if any.
pub open spec fn removes(effect: Effect, listener: Option<Seq<char>>) -> bool {
    match listener {
        Some(l) => effect matches Effect::RemoveListener(id) && id@ == l,
        None => effect is Nothing,
    }
}

fn removal_effect(listener: Option<String>) -> (r: Effect)
    ensures
        removes(r, opt_view(listener)),
{
    match listener {
        Some(id) => Effect::RemoveListener(id),
        None => Effect::Nothing,
    }
}

impl Runtime {
    /// This runtime in another state.
    pub open spec fn with_state(self, state: State) -> Runtime {
        Runtime { state, ..self }
    }

    /// `new` is this runtime but for its state, configuration and saving.
    pub open spec fn same_but_saved(self, new: Runtime) -> bool {
        new == (Runtime { state: new.state, config: new.config, save: new.save, ..self })
    }

    /// Saving is due, or was due, as before.
    pub open spec fn saves(self, new: Runtime, changed: bool, now: u64) -> bool {
        new.save == (if changed {
            self.save.marked(now)
        } else {
            self.save
        })
    }

    /// `new` is this runtime after an action was turned down because its domain
    /// is busy.
    pub open spec fn turned_down(self, new: Runtime, panel: Panel, domain: DispatchDomain) -> bool {
        let status = new.state.main_page.status_of(panel);
        &&& opt_view(status) == Some(busy_view(domain))
        &&& new == (Runtime { state: new.state, in_flight: new.in_flight, ..self })
        &&& new.in_flight@ == self.in_flight@
        &&& new.state == self.state.with_main(
            MainPageState {
                activity_log: new.state.main_page.activity_log,
                ..self.state.main_page.with_status(panel, status)
            },
        )
        &&& new.state.main_page.log_lines() == push_line(
            self.state.main_page.log_lines(),
            plain_line(busy_view(domain)),
        )
    }

    fn turn_down(&mut self, panel: Panel, domain: DispatchDomain)
        ensures
            opt_view(final(self).state.main_page.status_of(panel)) == Some(busy_view(domain)),
            *final(self) == (Runtime { state: final(self).state, ..*old(self) }),
            final(self).state == old(self).state.with_main(
                MainPageState {
                    activity_log: final(self).state.main_page.activity_log,
                    ..old(self).state.main_page.with_status(
                        panel,
                        final(self).state.main_page.status_of(panel),
                    )
                },
            ),
            final(self).state.main_page.log_lines() == push_line(
                old(self).state.main_page.log_lines(),
                plain_line(busy_view(domain)),
            ),
    {
        let message = InFlight::busy_message(domain);
        self.state.main_page.set_status(panel, message.clone());
        self.state.main_page.log(message);
    }

    // -----------------------------------------------------------------------
    // Panels
    // -----------------------------------------------------------------------

    /// What an action on the inbox panel comes to.
    pub open spec fn inbox_taken(
        self,
        new: Runtime,
        action: InboxAction,
        signed: Result<Vrc, String>,
        host: Host,
        effect: Effect,
    ) -> bool {
        let domain = DispatchDomain::Inbox;
        if inbox_actions::needs_network(action) && self.in_flight@.contains(domain) {
            effect is Nothing && self.turned_down(new, Panel::Inbox, domain)
        } else {
            exists|r: InboxDispatch|
                #[trigger] inbox_actions::inbox_handled(
                    action,
                    self.state,
                    new.state,
                    self.config,
                    new.config,
                    signed,
                    host,
                    r,
                ) && self.saves(
                    new,
                    inbox_actions::changes_inbox(action, self.config),
                    host.now,
                ) && new == (Runtime {
                    state: new.state,
                    config: new.config,
                    save: new.save,
                    in_flight: new.in_flight,
                    ..self
                }) && match r {
                    InboxDispatch::Spawn(job) => effect == Effect::Inbox(job) && new.in_flight@
                        == self.in_flight@.insert(domain),
                    InboxDispatch::Handled => effect is Nothing && new.in_flight@
                        == self.in_flight@,
                }
        }
    }

    /// Does what is asked for on the inbox panel.
    pub fn on_inbox(
        &mut self,
        action: InboxAction,
        signed: Result<Vrc, String>,
        host: &Host,
    ) -> (r: Effect)
        ensures
            old(self).inbox_taken(*final(self), action, signed, *host, r),
    {
        let domain = DispatchDomain::Inbox;
        let network = inbox_actions::is_network(&action);
        if network && self.in_flight.is_busy(domain) {
            self.turn_down(Panel::Inbox, domain);
            return Effect::Nothing;
        }
        let r = inbox_actions::dispatch(
            action,
            &mut self.config,
            &mut self.state,
            &mut self.save,
            signed,
            host,
        );
        assert(inbox_actions::inbox_handled(
            action,
            old(self).state,
            self.state,
            old(self).config,
            self.config,
            signed,
            *host,
            r,
        ));
        match r {
            InboxDispatch::Spawn(job) => {
                let _ = self.in_flight.try_begin(domain);
                Effect::Inbox(job)
            },
            InboxDispatch::Handled => Effect::Nothing,
        }
    }

    /// What an action on the relationships panel comes to.
    pub open spec fn relationship_taken(
        self,
        new: Runtime,
        action: RelationshipAction,
        resolved: Result<(), String>,
        host: Host,
        effect: Effect,
    ) -> bool {
        let domain = DispatchDomain::Relationship;
        if relationship_actions::needs_network(action) && self.in_flight@.contains(domain) {
            effect is Nothing && self.turned_down(new, Panel::Relationships, domain)
        } else {
            exists|r: RelationshipDispatch|
                #[trigger] relationship_actions::relationship_handled(
                    action,
                    self.state,
                    new.state,
                    self.config,
                    new.config,
                    resolved,
                    host,
                    r,
                ) && self.saves(new, action is EditAlias, host.now) && new == (Runtime {
                    state: new.state,
                    config: new.config,
                    save: new.save,
                    in_flight: new.in_flight,
                    ping_sent_at: new.ping_sent_at,
                    ..self
                }) && match r {
                    RelationshipDispatch::Spawn { job, is_ping } => {
                        &&& effect == Effect::Relationship(job)
                        &&& new.in_flight@ == self.in_flight@.insert(domain)
                        &&& new.ping_sent_at == (if is_ping {
                            Some(host.now)
                        } else {
                            self.ping_sent_at
                        })
                    },
                    RelationshipDispatch::Handled => effect is Nothing && new.in_flight@
                        == self.in_flight@ && new.ping_sent_at == self.ping_sent_at,
                }
        }
    }

    /// Does what is asked for on the relationships panel.
    pub fn on_relationship(
        &mut self,
        action: RelationshipAction,
        resolved: Result<(), String>,
        host: &Host,
    ) -> (r: Effect)
        ensures
            old(self).relationship_taken(*final(self), action, resolved, *host, r),
    {
        let domain = DispatchDomain::Relationship;
        let network = relationship_actions::is_network(&action);
        if network && self.in_flight.is_busy(domain) {
            self.turn_down(Panel::Relationships, domain);
            return Effect::Nothing;
        }
        let r = relationship_actions::dispatch(
            action,
            &mut self.config,
            &mut self.state,
            &mut self.save,
            resolved,
            host,
        );
        assert(relationship_actions::relationship_handled(
            action,
            old(self).state,
            self.state,
            old(self).config,
            self.config,
            resolved,
            *host,
            r,
        ));
        match r {
            RelationshipDispatch::Spawn { job, is_ping } => {
                let _ = self.in_flight.try_begin(domain);
                if is_ping {
                    self.ping_sent_at = Some(host.now);
                }
                Effect::Relationship(job)
            },
            RelationshipDispatch::Handled => Effect::Nothing,
        }
    }

    /// What an action on the credentials panel comes to.
    pub open spec fn credential_taken(
        self,
        new: Runtime,
        action: CredentialAction,
        host: Host,
        effect: Effect,
    ) -> bool {
        &&& self.same_but_saved(new)
        &&& match action {
            CredentialAction::SubmitRequest { relationship_p_did, reason } => {
                &&& new.config == self.config
                &&& new.save == self.save
                &&& match lookup(self.config.private.relationships@, relationship_p_did@) {
                    Some(rel) => {
                        &&& new.state == self.state
                        &&& effect matches Effect::Credential(job)
                        &&& credential_actions::requests_vrc(
                            *job,
                            self.config,
                            relationship_p_did@,
                            reason,
                        )
                    },
                    None => {
                        &&& effect is Nothing
                        &&& exists|e: ErrorText|
                            e.says(credential_actions::no_relationship(relationship_p_did@))
                                && #[trigger] went_wrong(
                                self.state,
                                new.state,
                                Panel::Credentials,
                                "Failed to send VRC request"@,
                                e,
                            )
                    },
                }
            },
            _ => {
                &&& effect is Nothing
                &&& credential_actions::credential_handled(
                    action,
                    self.state,
                    new.state,
                    self.config,
                    new.config,
                    host,
                )
                &&& self.saves(new, action is Remove, host.now)
            },
        }
    }

    /// Does what is asked for on the credentials panel.
    pub fn on_credential(&mut self, action: CredentialAction, host: &Host) -> (r: Effect)
        ensures
            old(self).credential_taken(*final(self), action, *host, r),
    {
        match credential_actions::dispatch(
            action,
            &mut self.config,
            &mut self.state,
            &mut self.save,
            host,
        ) {
            CredentialDispatch::Send(job) => Effect::Credential(job),
            CredentialDispatch::Handled => Effect::Nothing,
        }
    }

    /// The listener that takes the place of the persona's.
    pub open spec fn replaces_listener(self, l: ListenerConfig) -> bool {
        l@ == (match self.config.active() {
            Some(identity) => persona_line(self.config, identity),
            None => listener_line(
                persona_listener_view(Seq::empty()),
                Seq::empty(),
                self.config.mediator_view(),
                "Persona DID"@,
                crate::didcomm::keys_of(self.config.key_info@, Seq::empty()),
            ),
        })
    }

    /// What an action on the settings panel comes to: a new connection to the
    /// mediator is begun unless one is running.
    pub open spec fn settings_taken(
        self,
        new: Runtime,
        action: SettingsAction,
        host: Host,
        effect: Effect,
    ) -> bool {
        let domain = DispatchDomain::Mediator;
        exists|mid: State, r: SettingsOutcome|
            #[trigger] settings_actions::settings_handled(
                action,
                self.state,
                mid,
                self.config,
                new.config,
                host,
                r,
            ) && self.saves(new, action is SubmitEdit, host.now) && new == (Runtime {
                state: new.state,
                config: new.config,
                save: new.save,
                in_flight: new.in_flight,
                ..self
            }) && match r {
                SettingsOutcome::Continue => effect is Nothing && new.state == mid
                    && new.in_flight@ == self.in_flight@,
                SettingsOutcome::ReconnectMediator => if self.in_flight@.contains(domain) {
                    &&& effect is Nothing
                    &&& new.in_flight@ == self.in_flight@
                    &&& line_logged(
                        (State {
                            connection: ConnectionState {
                                status: MediatorStatus::Connecting,
                                ..mid.connection
                            },
                            ..mid
                        }),
                        new.state,
                        plain_line(busy_view(domain)),
                    )
                } else {
                    &&& new.state == mid
                    &&& new.in_flight@ == self.in_flight@.insert(domain)
                    &&& effect matches Effect::Reconnect(l)
                    &&& new.replaces_listener(*l)
                },
                _ => effect == Effect::Settings(r) && new.state == mid && new.in_flight@
                    == self.in_flight@,
            }
    }

    /// Does what is asked for on the settings panel.
    pub fn on_settings(&mut self, action: SettingsAction, host: &Host) -> (r: Effect)
        ensures
            old(self).settings_taken(*final(self), action, *host, r),
    {
        let domain = DispatchDomain::Mediator;
        let r = settings_actions::dispatch(
            action,
            &mut self.config,
            &mut self.state,
            &mut self.save,
            host,
        );
        let ghost mid = self.state;
        assert(settings_actions::settings_handled(
            action,
            old(self).state,
            mid,
            old(self).config,
            self.config,
            *host,
            r,
        ));
        match r {
            SettingsOutcome::Continue => Effect::Nothing,
            SettingsOutcome::ReconnectMediator => {
                if self.in_flight.is_busy(domain) {
                    self.state.connection.status = MediatorStatus::Connecting;
                    self.state.main_page.log(InFlight::busy_message(domain));
                    Effect::Nothing
                } else {
                    let _ = self.in_flight.try_begin(domain);
                    let listener = persona_listener_config(&self.config);
                    Effect::Reconnect(Box::new(listener))
                }
            },
            other => Effect::Settings(other),
        }
    }

    /// What asking to delete an identity comes to.
    pub open spec fn did_deletion_taken(self, new: Runtime, index: usize, effect: Effect) -> bool {
        let domain = DispatchDomain::Did;
        &&& new == (Runtime { state: new.state, in_flight: new.in_flight, ..self })
        &&& if self.in_flight@.contains(domain) {
            &&& effect is Nothing
            &&& new.in_flight@ == self.in_flight@
            &&& line_logged(self.state, new.state, plain_line(busy_view(domain)))
        } else {
            exists|r: Option<DidDeleteJob>|
                #[trigger] deletion_prepared(self.state, new.state, self.config, index, r)
                    && match r {
                    Some(job) => effect == Effect::DeleteDid(Box::new(job)) && new.in_flight@
                        == self.in_flight@.insert(domain),
                    None => effect is Nothing && new.in_flight@ == self.in_flight@,
                }
        }
    }

    /// Begins to delete the identity in a row.
    pub fn on_delete_did(&mut self, index: usize) -> (r: Effect)
        ensures
            old(self).did_deletion_taken(*final(self), index, r),
    {
        let domain = DispatchDomain::Did;
        if self.in_flight.is_busy(domain) {
            self.state.main_page.log(InFlight::busy_message(domain));
            return Effect::Nothing;
        }
        let r = prepare_delete_context_did(&mut self.state, &self.config, index);
        assert(deletion_prepared(old(self).state, self.state, self.config, index, r));
        match r {
            Some(job) => {
                let _ = self.in_flight.try_begin(domain);
                Effect::DeleteDid(Box::new(job))
            },
            None => Effect::Nothing,
        }
    }

    // -----------------------------------------------------------------------
    // Actions
    // -----------------------------------------------------------------------

    /// What an action on the communities of the account comes to.
    pub open spec fn community_taken(
        self,
        new: Runtime,
        action: Action,
        host: Host,
        effect: Effect,
    ) -> bool {
        let quiet = effect is Nothing && self.same_but_saved(new);
        match action {
            Action::DeleteCommunity(i) => exists|listener: Option<Seq<char>>|
                #[trigger] deletion_concluded(
                    self.state,
                    new.state,
                    self.config,
                    new.config,
                    self.sessions,
                    new.sessions,
                    host,
                    i,
                    listener,
                ) && removes(effect, listener) && self.saves(
                    new,
                    row_removable(self.state, self.config, i),
                    host.now,
                ) && new == (Runtime {
                    state: new.state,
                    config: new.config,
                    save: new.save,
                    sessions: new.sessions,
                    ..self
                }),
            Action::WithdrawJoin(i) => exists|listener: Option<Seq<char>>|
                #[trigger] withdrawal_concluded(
                    self.state,
                    new.state,
                    self.config,
                    new.config,
                    self.sessions,
                    new.sessions,
                    host,
                    i,
                    listener,
                ) && removes(effect, listener) && self.saves(
                    new,
                    row_pending(self.state, self.config, i),
                    host.now,
                ) && new == (Runtime {
                    state: new.state,
                    config: new.config,
                    save: new.save,
                    sessions: new.sessions,
                    ..self
                }),
            Action::LeaveCommunity(i) => new == self.with_state(new.state) && exists|
                job: Option<LeaveJob>,
            |
                #[trigger] leave_asked(self.state, new.state, self.config, i, job) && match job {
                    Some(j) => effect == Effect::Leave(Box::new(j)),
                    None => effect is Nothing,
                },
            Action::SetActiveCommunity(i) => quiet && new.save == self.save && choice_concluded(
                self.state,
                new.state,
                self.config,
                new.config,
                host,
                i,
            ),
            Action::ToggleFavourite(i) => quiet && self.saves(
                new,
                row_at(self.state, self.config, i) is Some,
                host.now,
            ) && star_concluded(self.state, new.state, self.config, new.config, host, i),
            Action::AcknowledgeCommunity(i) => quiet && self.saves(
                new,
                row_at(self.state, self.config, i) is Some,
                host.now,
            ) && acknowledgement_concluded(
                self.state,
                new.state,
                self.config,
                new.config,
                host,
                i,
            ),
            Action::ArchiveCommunity(i) => quiet && self.saves(
                new,
                row_removable(self.state, self.config, i),
                host.now,
            ) && archiving_concluded(self.state, new.state, self.config, new.config, host, i),
            Action::ToggleShowArchived => quiet && new == self.with_state(new.state) && refreshed(
                self.state.with_communities(
                    CommunitiesState {
                        show_archived: !self.state.communities().show_archived,
                        ..self.state.communities()
                    },
                ),
                new.state,
                self.config,
                host,
            ),
            Action::OpenCommunitySwitcher => quiet && new == self.with_state(new.state)
                && switcher_opened(self.state, new.state, self.config),
            Action::CommunitySwitcherSelect => quiet && new.save == self.save && switch_concluded(
                self.state,
                new.state,
                self.config,
                new.config,
                host,
            ),
            _ => true,
        }
    }

    /// Whether an action is about the communities of the account.
    pub open spec fn is_community_action(action: Action) -> bool {
        ||| action is DeleteCommunity
        ||| action is WithdrawJoin
        ||| action is LeaveCommunity
        ||| action is SetActiveCommunity
        ||| action is ToggleFavourite
        ||| action is AcknowledgeCommunity
        ||| action is ArchiveCommunity
        ||| action is ToggleShowArchived
        ||| action is OpenCommunitySwitcher
        ||| action is CommunitySwitcherSelect
    }

    /// What an action comes to, but for what is brought up to date after it.
    pub open spec fn taken(
        self,
        new: Runtime,
        action: Action,
        resolved: Result<(), String>,
        signed: Result<Vrc, String>,
        host: Host,
        effect: Effect,
    ) -> bool {
        match navigated(self.state, action) {
            Some(s) => effect is Nothing && new == self.with_state(s),
            None => match action {
                Action::Exit => effect == Effect::Exit(Interrupted::UserInt) && new == self,
                Action::UXError(interrupted) => effect == Effect::Exit(interrupted) && new == self,
                Action::StartJoin => effect is Join && new == self,
                Action::DeleteDid(i) => self.did_deletion_taken(new, i, effect),
                Action::Inbox(a) => self.inbox_taken(new, a, signed, host, effect),
                Action::Relationship(a) => self.relationship_taken(new, a, resolved, host, effect),
                Action::Credential(a) => self.credential_taken(new, a, host, effect),
                Action::Settings(a) => self.settings_taken(new, a, host, effect),
                _ => if Self::is_community_action(action) {
                    self.community_taken(new, action, host, effect)
                } else {
                    effect is Nothing && new == self
                },
            },
        }
    }

    /// Does what the user asks for; says what is left to be done outside.
    /// `resolved` and `signed` are what came of the outside work that a request
    /// for a relationship, and issuing a credential, need beforehand.
    pub fn on_action(
        &mut self,
        action: Action,
        resolved: Result<(), String>,
        signed: Result<Vrc, String>,
        host: &Host,
    ) -> (r: Effect)
        requires
            old(self).sessions.wf(),
        ensures
            final(self).sessions.wf(),
            old(self).taken(*final(self), action, resolved, signed, *host, r),
    {
        if handle_nav_action(&mut self.state, &action) {
            return Effect::Nothing;
        }
        match action {
            Action::Exit => Effect::Exit(Interrupted::UserInt),
            Action::UXError(interrupted) => Effect::Exit(interrupted),
            Action::StartJoin => Effect::Join,
            Action::DeleteCommunity(i) => {
                let listener = handle_delete_community(
                    &mut self.state,
                    &mut self.config,
                    &mut self.save,
                    &mut self.sessions,
                    i,
                    host,
                );
                assert(deletion_concluded(
                    old(self).state,
                    self.state,
                    old(self).config,
                    self.config,
                    old(self).sessions,
                    self.sessions,
                    *host,
                    i,
                    opt_view(listener),
                ));
                removal_effect(listener)
            },
            Action::WithdrawJoin(i) => {
                let listener = handle_withdraw_join(
                    &mut self.state,
                    &mut self.config,
                    &mut self.save,
                    &mut self.sessions,
                    i,
                    host,
                );
                assert(withdrawal_concluded(
                    old(self).state,
                    self.state,
                    old(self).config,
                    self.config,
                    old(self).sessions,
                    self.sessions,
                    *host,
                    i,
                    opt_view(listener),
                ));
                removal_effect(listener)
            },
            Action::LeaveCommunity(i) => {
                let job = handle_leave_community(&mut self.state, &self.config, i);
                assert(leave_asked(old(self).state, self.state, self.config, i, job));
                match job {
                    Some(j) => Effect::Leave(Box::new(j)),
                    None => Effect::Nothing,
                }
            },
            Action::SetActiveCommunity(i) => {
                handle_set_active_community(&mut self.state, &mut self.config, i, host);
                Effect::Nothing
            },
            Action::ToggleFavourite(i) => {
                handle_toggle_favourite(
                    &mut self.state,
                    &mut self.config,
                    &mut self.save,
                    i,
                    host,
                );
                Effect::Nothing
            },
            Action::AcknowledgeCommunity(i) => {
                handle_acknowledge_community(
                    &mut self.state,
                    &mut self.config,
                    &mut self.save,
                    i,
                    host,
                );
                Effect::Nothing
            },
            Action::ArchiveCommunity(i) => {
                handle_archive_community(
                    &mut self.state,
                    &mut self.config,
                    &mut self.save,
                    i,
                    host,
                );
                Effect::Nothing
            },
            Action::ToggleShowArchived => {
                handle_toggle_show_archived(&mut self.state, &self.config, host);
                Effect::Nothing
            },
            Action::OpenCommunitySwitcher => {
                handle_open_switcher(&mut self.state, &self.config);
                Effect::Nothing
            },
            Action::CommunitySwitcherSelect => {
                handle_switcher_select(&mut self.state, &mut self.config, host);
                Effect::Nothing
            },
            Action::DeleteDid(i) => self.on_delete_did(i),
            Action::Inbox(a) => self.on_inbox(a, signed, host),
            Action::Relationship(a) => self.on_relationship(a, resolved, host),
            Action::Credential(a) => self.on_credential(a, host),
            Action::Settings(a) => self.on_settings(a, host),
            _ => Effect::Nothing,
        }
    }

    // -----------------------------------------------------------------------
    // After every event
    // -----------------------------------------------------------------------

    /// What is brought up to date after every event: the membership that is
    /// worked in is one in force, and its persona is the active one.
    pub open spec fn settled(self, new: Runtime, host: Host) -> bool {
        let chosen = reconciled(chosen_view(self.state.selected_community), self.config.account);
        let persona = match chosen {
            Some((vtc, p)) => Some(p),
            None => None,
        };
        let moved = State { selected_community: new.state.selected_community, ..self.state };
        &&& chosen_view(new.state.selected_community) == chosen
        &&& new == (Runtime { state: new.state, config: new.config, ..self })
        &&& new.config == (Config { active_persona: persona, ..self.config })
        &&& if persona == self.config.active_persona {
            new.state == moved
        } else {
            refreshed(moved, new.state, new.config, host)
        }
    }

    /// Brings the working membership up to date.
    pub fn after_event(&mut self, host: &Host)
        ensures
            old(self).settled(*final(self), *host),
    {
        self.state.reconcile_selected_community(&self.config.account);
        let persona: Option<PersonaId> = match &self.state.selected_community {
            Some(c) => Some(c.1),
            None => None,
        };
        if persona != self.config.active_persona {
            self.config.set_active_persona(persona);
            self.state.main_page.sync_from_config(&self.config, host);
        }
    }
}

/// Exit is never queued behind running work: whatever is in flight, it leads out
/// of the loop.
pub proof fn law_exit_is_always_heard(
    old: Runtime,
    new: Runtime,
    resolved: Result<(), String>,
    signed: Result<Vrc, String>,
    host: Host,
    effect: Effect,
)
    requires
        old.taken(new, Action::Exit, resolved, signed, host, effect),
    ensures
        effect == Effect::Exit(Interrupted::UserInt),
        new == old,
{
}

/// No second piece of work starts in a domain that is busy.
pub proof fn law_busy_domains_start_nothing(
    old: Runtime,
    new: Runtime,
    action: Action,
    resolved: Result<(), String>,
    signed: Result<Vrc, String>,
    host: Host,
    effect: Effect,
)
    requires
        old.taken(new, action, resolved, signed, host, effect),
    ensures
        old.in_flight@.contains(DispatchDomain::Inbox) && action is Inbox ==> effect !is Inbox
            || !inbox_actions::needs_network(action->Inbox_0),
        old.in_flight@.contains(DispatchDomain::Relationship) && action is Relationship
            ==> effect !is Relationship || !relationship_actions::needs_network(
            action->Relationship_0,
        ),
        old.in_flight@.contains(DispatchDomain::Mediator) ==> effect !is Reconnect,
        old.in_flight@.contains(DispatchDomain::Did) ==> effect !is DeleteDid,
{
}

// ---------------------------------------------------------------------------
// Without messaging
// ---------------------------------------------------------------------------

/// What an action comes to while there is no messaging: only navigating,
/// leaving, deleting a membership and joining have an effect.
pub enum DegradedEffect {
    Nothing,
    /// Leave the loop.
    Exit(Interrupted),
    /// Save the configuration at once, if anything is left to save.
    Flush,
    /// Run the flow that joins a community.
    Join,
}

/// What an action comes to while there is no messaging; `loaded` says whether a
/// configuration is at hand.
pub open spec fn degraded_taken(
    old: State,
    new: State,
    was: Config,
    is: Config,
    save_was: SaveScheduler,
    save_is: SaveScheduler,
    action: Action,
    loaded: bool,
    host: Host,
    effect: DegradedEffect,
) -> bool {
    let still = is == was && save_is == save_was;
    match navigated(old, action) {
        Some(s) => effect is Nothing && new == s && still,
        None => match action {
            Action::Exit => effect == DegradedEffect::Exit(Interrupted::UserInt) && new == old
                && still,
            Action::UXError(interrupted) => effect == DegradedEffect::Exit(interrupted) && new
                == old && still,
            Action::DeleteCommunity(i) => if loaded {
                &&& removal_concluded(old, new, was, is, host, i)
                &&& save_is == (if row_removable(old, was, i) {
                    save_was.marked(host.now)
                } else {
                    save_was
                })
                &&& effect is Flush <==> save_is.dirty || save_is.in_flight
                &&& effect is Nothing <==> effect !is Flush
            } else {
                effect is Nothing && new == old && still
            },
            Action::StartJoin => if loaded {
                effect is Join && new == old && still
            } else {
                &&& effect is Nothing
                &&& still
                &&& line_logged(old, new, plain_line("Cannot join: no active VTA session."@))
            },
            _ => effect is Nothing && new == old && still,
        },
    }
}

/// Does what the user asks for while there is no messaging.
pub fn on_degraded_action(
    state: &mut State,
    config: &mut Config,
    save: &mut SaveScheduler,
    action: Action,
    loaded: bool,
    host: &Host,
) -> (r: DegradedEffect)
    ensures
        degraded_taken(
            *old(state),
            *final(state),
            *old(config),
            *final(config),
            *old(save),
            *final(save),
            action,
            loaded,
            *host,
            r,
        ),
{
    if handle_nav_action(state, &action) {
        return DegradedEffect::Nothing;
    }
    match action {
        Action::Exit => DegradedEffect::Exit(Interrupted::UserInt),
        Action::UXError(interrupted) => DegradedEffect::Exit(interrupted),
        Action::DeleteCommunity(i) => {
            if !loaded {
                return DegradedEffect::Nothing;
            }
            remove_community(state, config, save, i, host);
            if save.needs_flush() {
                DegradedEffect::Flush
            } else {
                DegradedEffect::Nothing
            }
        },
        Action::StartJoin => {
            if loaded {
                DegradedEffect::Join
            } else {
                state.main_page.log(owned("Cannot join: no active VTA session."));
                DegradedEffect::Nothing
            }
        },
        _ => DegradedEffect::Nothing,
    }
}

/// Returns to the main page after the flow that joins; tells whether it brought
/// the first identity, so that messaging can start.
pub fn after_degraded_join(state: &mut State, config: &Config, had_identity: bool) -> (r: bool)
    ensures
        r == (!had_identity && config.active() is Some),
        if r {
            line_logged(
                (State { active_page: ActivePage::Main, ..*old(state) }),
                *final(state),
                plain_line("Joined — starting secure messaging…"@),
            )
        } else {
            *final(state) == (State { active_page: ActivePage::Main, ..*old(state) })
        },
{
    state.active_page = ActivePage::Main;
    if !had_identity && config.active_identity().is_some() {
        state.main_page.log(owned("Joined — starting secure messaging…"));
        true
    } else {
        false
    }
}

/// The user is always let out: exit leads out of the loop whatever is running,
/// and so does an interruption, with what interrupted it.
pub proof fn law_exit_leads_out(
    r: &mut Runtime,
    action: Action,
    resolved: Result<(), String>,
    signed: Result<Vrc, String>,
    host: Host,
    effect: Effect,
)
    requires
        old(r).sessions.wf(),
        call_ensures(Runtime::on_action, (r, action, resolved, signed, &host), effect),
    ensures
        action is Exit ==> effect == Effect::Exit(Interrupted::UserInt) && *final(r) == *old(r),
        action matches Action::UXError(why) ==> effect == Effect::Exit(why) && *final(r) == *old(r),
        effect is Exit ==> action is Exit || action is UXError,
        action is StartJoin ==> effect is Join && *final(r) == *old(r),
        effect is Join ==> action is StartJoin,
        effect is Leave ==> action is LeaveCommunity,
        effect is DeleteDid ==> action is DeleteDid,
        effect is RemoveListener ==> action is DeleteCommunity || action is WithdrawJoin,
{
}

/// A change to the memberships, the settings or the credentials that is to last
/// awaits saving.
pub proof fn law_lasting_changes_await_saving(
    r: &mut Runtime,
    action: Action,
    resolved: Result<(), String>,
    signed: Result<Vrc, String>,
    host: Host,
    effect: Effect,
)
    requires
        old(r).sessions.wf(),
        call_ensures(Runtime::on_action, (r, action, resolved, signed, &host), effect),
    ensures
        final(r).config.account.communities != old(r).config.account.communities && (action
            is ToggleFavourite || action is AcknowledgeCommunity || action is ArchiveCommunity
            || action is DeleteCommunity || action is WithdrawJoin) ==> final(r).save.dirty,
        action matches Action::Settings(SettingsAction::SubmitEdit { .. }) ==> final(r).save.dirty,
        action matches Action::Credential(CredentialAction::Remove { .. }) ==> final(r).save.dirty,
        action is LeaveCommunity || action is OpenCommunitySwitcher || action is ToggleShowArchived
            || action is DeleteDid ==> final(r).config == old(r).config && final(r).save == old(r).save,
{
}

/// Work that is begun keeps its domain busy, and a domain that is busy begins no
/// other; beginning work frees no domain.
pub proof fn law_begun_work_keeps_its_domain(
    inbox: &mut Runtime,
    party: &mut Runtime,
    did: &mut Runtime,
    a: InboxAction,
    b: RelationshipAction,
    index: usize,
    signed: Result<Vrc, String>,
    resolved: Result<(), String>,
    host: Host,
    x: Effect,
    y: Effect,
    z: Effect,
    domain: DispatchDomain,
)
    requires
        call_ensures(Runtime::on_inbox, (inbox, a, signed, &host), x),
        call_ensures(Runtime::on_relationship, (party, b, resolved, &host), y),
        call_ensures(Runtime::on_delete_did, (did, index), z),
    ensures
        x is Inbox ==> final(inbox).in_flight@.contains(DispatchDomain::Inbox),
        y is Relationship ==> final(party).in_flight@.contains(DispatchDomain::Relationship),
        z is DeleteDid ==> final(did).in_flight@.contains(DispatchDomain::Did) && !old(did).in_flight@.contains(DispatchDomain::Did),
        old(inbox).in_flight@.contains(domain) ==> final(inbox).in_flight@.contains(domain),
        old(party).in_flight@.contains(domain) ==> final(party).in_flight@.contains(domain),
        old(did).in_flight@.contains(domain) ==> final(did).in_flight@.contains(domain),
        final(party).ping_sent_at == old(party).ping_sent_at || final(party).ping_sent_at == Some(
            host.now,
        ),
{
}

/// After every event actions are taken under the persona of the membership that is
/// worked in, and nothing but that choice and what is shown of it changes.
pub proof fn law_active_persona_follows_the_membership(r: &mut Runtime, host: Host)
    requires
        call_ensures(Runtime::after_event, (r, &host), ()),
    ensures
        final(r).state.selected_community is Some ==> final(r).config.active_persona == Some(
            (final(r).state.selected_community->0).1,
        ),
        final(r).state.selected_community is None ==> final(r).config.active_persona is None,
        final(r).config.account == old(r).config.account,
        final(r).config.private == old(r).config.private,
        final(r).save == old(r).save,
        final(r).sessions == old(r).sessions,
{
}

/// Without messaging nothing is asked of the network, and only deleting a
/// membership changes what is kept; what it changes is saved at once.
pub proof fn law_nothing_is_lost_without_messaging(
    state: &mut State,
    config: &mut Config,
    save: &mut SaveScheduler,
    action: Action,
    loaded: bool,
    host: Host,
    r: DegradedEffect,
)
    requires
        call_ensures(on_degraded_action, (state, config, save, action, loaded, &host), r),
    ensures
        action !is DeleteCommunity ==> *final(config) == *old(config) && *final(save) == *old(save),
        !loaded ==> *final(config) == *old(config),
        action is Exit ==> r == DegradedEffect::Exit(Interrupted::UserInt),
        r is Join <==> action is StartJoin && loaded,
        final(save).dirty && action is DeleteCommunity && loaded ==> r is Flush,
{
}

/// Messaging starts after a join exactly if it brought the first identity.
pub proof fn law_first_identity_starts_messaging(
    state: &mut State,
    config: Config,
    had_identity: bool,
    r: bool,
)
    requires
        call_ensures(after_degraded_join, (state, &config, had_identity), r),
    ensures
        r <==> !had_identity && config.identities@.len() > 0,
        final(state).active_page is Main,
{
    if config.active() is Some && config.identities@.len() == 0 {
        if let Some(p) = config.active_persona {
            assert(crate::account::held_by(config.identities@, p) is None);
        }
    }
}

} // verus!
