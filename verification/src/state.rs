//! State of the application.

use crate::account::{
    distinct_memberships, first_active, lemma_first_active, lemma_membership_unique, membership_at,
    Account,
};
use crate::clock::{clock_shown, is_clock, time_of_day};
use crate::content::{
    CommunitiesState, ContentPanelState, CredentialsState, InboxState, RelationshipsState,
    SettingsState, VtaState,
};
use crate::join::JoinState;
use crate::ledger::PersonaId;
use crate::main_page::MainPageState;
use crate::setup::SetupState;
use crate::text::{opt_view, owned, same};
use vstd::prelude::*;

verus! {

/// The page that is shown.
#[derive(Clone, Copy, Debug, PartialEq, Eq, Structural)]
pub enum ActivePage {
    /// Startup.
    Loading,
    Main,
    Setup,
    Join,
}

impl Default for ActivePage {
    fn default() -> (r: Self)
        ensures
            r is Loading,
    {
        ActivePage::Loading
    }
}

/// State of the connection to the mediator.
#[derive(Clone, Debug)]
pub enum MediatorStatus {
    Unknown,
    Initializing(String),
    Connecting,
    Connected,
    Failed(String),
    /// No community yet, so there is nothing to connect.
    NoActiveCommunity,
}

impl Default for MediatorStatus {
    fn default() -> (r: Self)
        ensures
            r is Unknown,
    {
        MediatorStatus::Unknown
    }
}

/// What a status says.
pub enum StatusView {
    Unknown,
    Initializing(Seq<char>),
    Connecting,
    Connected,
    Failed(Seq<char>),
    NoActiveCommunity,
}

impl View for MediatorStatus {
    type V = StatusView;

    open spec fn view(&self) -> StatusView {
        match *self {
            MediatorStatus::Unknown => StatusView::Unknown,
            MediatorStatus::Initializing(s) => StatusView::Initializing(s@),
            MediatorStatus::Connecting => StatusView::Connecting,
            MediatorStatus::Connected => StatusView::Connected,
            MediatorStatus::Failed(s) => StatusView::Failed(s@),
            MediatorStatus::NoActiveCommunity => StatusView::NoActiveCommunity,
        }
    }
}

/// State of the connection.
#[derive(Clone, Debug)]
pub struct ConnectionState {
    pub status: MediatorStatus,
    /// Whether messages are being received.
    pub messaging_active: bool,
}

impl Default for ConnectionState {
    fn default() -> (r: Self)
        ensures
            r.status is Unknown,
            !r.messaging_active,
    {
        ConnectionState { status: MediatorStatus::Unknown, messaging_active: false }
    }
}

/// State of the application.
#[derive(Clone)]
pub struct State {
    pub active_page: ActivePage,
    pub main_page: MainPageState,
    pub setup: SetupState,
    pub join: JoinState,
    pub connection: ConnectionState,
    /// The membership that the main page works in.
    pub selected_community: Option<(String, PersonaId)>,
    /// Which tip the loading screen shows.
    pub tip_index: usize,
    /// The startup tasks, in order.
    pub loading: Vec<LoadingTask>,
    /// Whether startup has come far enough to show the main page.
    pub loading_complete: bool,
    pub token_admin_pin: Option<String>,
    /// Whether the user is to touch the hardware token.
    pub token_touch_pending: bool,
    /// Invitation to present with a join, as JSON text.
    pub invitation_credential: Option<String>,
}

impl Default for State {
    fn default() -> (r: Self)
        ensures
            r.active_page is Loading,
            r.main_page.content_panel.fresh(),
            r.main_page.menu_panel.selected,
            r.main_page.menu_panel.selected_menu is Communities,
            r.main_page.config.name@.len() == 0,
            r.main_page.config.did@.len() == 0,
            r.main_page.activity_log@.len() == 0,
            r.main_page.switcher is None,
            r.setup.fresh(),
            r.join.fresh(),
            r.connection.status is Unknown,
            !r.connection.messaging_active,
            r.selected_community is None,
            r.tip_index == 0,
            r.loading@.len() == 0,
            !r.loading_complete,
            r.token_admin_pin is None,
            !r.token_touch_pending,
            r.invitation_credential is None,
    {
        State {
            active_page: ActivePage::Loading,
            main_page: MainPageState::default(),
            setup: SetupState::default(),
            join: JoinState::default(),
            connection: ConnectionState::default(),
            selected_community: None,
            tip_index: 0,
            loading: Vec::new(),
            loading_complete: false,
            token_admin_pin: None,
            token_touch_pending: false,
            invitation_credential: None,
        }
    }
}

impl State {
    /// This state, with another main page.
    pub open spec fn with_main(self, main_page: MainPageState) -> State {
        State { main_page, ..self }
    }

    /// This state, with another content of the main page.
    pub open spec fn with_content(self, content_panel: ContentPanelState) -> State {
        self.with_main(MainPageState { content_panel, ..self.main_page })
    }

    /// This state, with another inbox panel.
    pub open spec fn with_inbox(self, inbox: InboxState) -> State {
        self.with_content(ContentPanelState { inbox, ..self.main_page.content_panel })
    }

    /// This state, with another relationships panel.
    pub open spec fn with_relationships(self, relationships: RelationshipsState) -> State {
        self.with_content(ContentPanelState { relationships, ..self.main_page.content_panel })
    }

    /// This state, with another credentials panel.
    pub open spec fn with_credentials(self, credentials: CredentialsState) -> State {
        self.with_content(ContentPanelState { credentials, ..self.main_page.content_panel })
    }

    /// This state, with another settings panel.
    pub open spec fn with_settings(self, settings: SettingsState) -> State {
        self.with_content(ContentPanelState { settings, ..self.main_page.content_panel })
    }

    /// This state, with another communities panel.
    pub open spec fn with_communities(self, communities: CommunitiesState) -> State {
        self.with_content(ContentPanelState { communities, ..self.main_page.content_panel })
    }

    /// This state, with another VTA panel.
    pub open spec fn with_vta(self, vta: VtaState) -> State {
        self.with_content(ContentPanelState { vta, ..self.main_page.content_panel })
    }

    /// The inbox panel.
    pub open spec fn inbox(self) -> InboxState {
        self.main_page.content_panel.inbox
    }

    /// The relationships panel.
    pub open spec fn relationships(self) -> RelationshipsState {
        self.main_page.content_panel.relationships
    }

    /// The credentials panel.
    pub open spec fn credentials(self) -> CredentialsState {
        self.main_page.content_panel.credentials
    }

    /// The settings panel.
    pub open spec fn settings(self) -> SettingsState {
        self.main_page.content_panel.settings
    }

    /// The communities panel.
    pub open spec fn communities(self) -> CommunitiesState {
        self.main_page.content_panel.communities
    }

    /// The VTA panel.
    pub open spec fn vta(self) -> VtaState {
        self.main_page.content_panel.vta
    }
}

// ---------------------------------------------------------------------------
// The working membership
// ---------------------------------------------------------------------------

/// A membership, by community and persona.
pub open spec fn chosen_view(c: Option<(String, PersonaId)>) -> Option<(Seq<char>, PersonaId)> {
    match c {
        Some(p) => Some((p.0@, p.1)),
        None => None,
    }
}

/// Whether this is an active membership of the account.
pub open spec fn is_active_membership(account: Account, vtc: Seq<char>, persona: PersonaId) -> bool {
    match membership_at(account.communities@, vtc, persona) {
        Some(i) => account.communities@[i].status is Active,
        None => false,
    }
}

/// The membership to work in when none is chosen.
pub open spec fn default_choice(account: Account) -> Option<(Seq<char>, PersonaId)> {
    match first_active(account.communities@) {
        Some(i) => Some((account.communities@[i].vtc_did@, account.communities@[i].persona_ref)),
        None => None,
    }
}

/// The membership to work in: the one chosen while it is active, and the
/// default otherwise.
pub open spec fn reconciled(
    chosen: Option<(Seq<char>, PersonaId)>,
    account: Account,
) -> Option<(Seq<char>, PersonaId)> {
    match chosen {
        Some((vtc, persona)) => if is_active_membership(account, vtc, persona) {
            chosen
        } else {
            default_choice(account)
        },
        None => default_choice(account),
    }
}

impl State {
    /// Keeps the working membership valid: drops one that is no longer active,
    /// and falls back to the default.
    pub fn reconcile_selected_community(&mut self, account: &Account)
        ensures
            chosen_view(final(self).selected_community) == reconciled(
                chosen_view(old(self).selected_community),
                *account,
            ),
            *final(self) == (State {
                selected_community: final(self).selected_community,
                ..*old(self)
            }),
    {
        let stale = match &self.selected_community {
            Some((vtc, persona)) => match account.membership(vtc.as_str(), *persona) {
                Some(i) => !account.communities[i].status.is_active(),
                None => true,
            },
            None => false,
        };
        if stale {
            self.selected_community = None;
        }
        if self.selected_community.is_none() {
            self.selected_community = account.default_working_membership();
        }
    }
}

/// The working membership, once reconciled, is in force and stays as it is.
pub proof fn law_reconcile_settles(chosen: Option<(Seq<char>, PersonaId)>, account: Account)
    requires
        distinct_memberships(account.communities@),
    ensures
        reconciled(reconciled(chosen, account), account) == reconciled(chosen, account),
        reconciled(chosen, account) matches Some((vtc, persona)) ==> is_active_membership(
            account,
            vtc,
            persona,
        ),
{
    lemma_first_active(account.communities@);
    if let Some(i) = first_active(account.communities@) {
        lemma_membership_unique(account.communities@, i);
    }
}

// ---------------------------------------------------------------------------
// The loading screen
// ---------------------------------------------------------------------------

/// How far a startup task or step has come.
#[derive(Clone, Copy, Debug, PartialEq, Eq, Structural)]
pub enum StepStatus {
    Queued,
    Running,
    Done,
    Failed,
}

impl Default for StepStatus {
    fn default() -> (r: Self)
        ensures
            r is Queued,
    {
        StepStatus::Queued
    }
}

/// A step of a startup task.
#[derive(Clone, Debug)]
pub struct LoadingStep {
    pub label: String,
    pub status: StepStatus,
    /// Time of day at which it began.
    pub started: Option<String>,
    /// How long it took, in milliseconds.
    pub duration: Option<u64>,
}

/// A startup task.
#[derive(Clone, Debug)]
pub struct LoadingTask {
    pub label: String,
    pub status: StepStatus,
    /// Time of day at which its first step began.
    pub started: Option<String>,
    /// How long all of it took, in milliseconds.
    pub duration: Option<u64>,
    pub children: Vec<LoadingStep>,
}

/// What a step shows.
pub struct StepLine {
    pub label: Seq<char>,
    pub status: StepStatus,
    pub started: Option<Seq<char>>,
    pub duration: Option<u64>,
}

impl View for LoadingStep {
    type V = StepLine;

    open spec fn view(&self) -> StepLine {
        StepLine {
            label: self.label@,
            status: self.status,
            started: opt_view(self.started),
            duration: self.duration,
        }
    }
}

/// What a task shows.
pub struct LoadingLine {
    pub label: Seq<char>,
    pub status: StepStatus,
    pub started: Option<Seq<char>>,
    pub duration: Option<u64>,
    pub children: Seq<StepLine>,
}

/// What a list of steps shows.
pub open spec fn steps_view(s: Seq<LoadingStep>) -> Seq<StepLine> {
    s.map_values(|c: LoadingStep| c@)
}

impl View for LoadingTask {
    type V = LoadingLine;

    open spec fn view(&self) -> LoadingLine {
        LoadingLine {
            label: self.label@,
            status: self.status,
            started: opt_view(self.started),
            duration: self.duration,
            children: steps_view(self.children@),
        }
    }
}

/// What the loading screen shows.
pub open spec fn loading_view(s: Seq<LoadingTask>) -> Seq<LoadingLine> {
    s.map_values(|t: LoadingTask| t@)
}

/// How much later `now` is than `start`.
pub open spec fn span(start: u64, now: u64) -> u64 {
    if now >= start {
        (now - start) as u64
    } else {
        0
    }
}

pub fn elapsed(start: u64, now: u64) -> (r: u64)
    ensures
        r == span(start, now),
{
    if now >= start {
        now - start
    } else {
        0
    }
}

/// Steps whose last one, while it runs, takes on a status and a duration.
pub open spec fn step_ended(
    s: Seq<StepLine>,
    status: StepStatus,
    duration: Option<u64>,
) -> Seq<StepLine> {
    if s.len() > 0 && s.last().status is Running {
        s.update(s.len() - 1, StepLine { status, duration, ..s.last() })
    } else {
        s
    }
}

/// The last of these tasks, with other steps.
pub open spec fn with_steps(s: Seq<LoadingLine>, children: Seq<StepLine>) -> Seq<LoadingLine> {
    s.update(s.len() - 1, LoadingLine { children, ..s.last() })
}

/// The last of these tasks, with another status and duration.
pub open spec fn with_status(
    s: Seq<LoadingLine>,
    status: StepStatus,
    duration: Option<u64>,
) -> Seq<LoadingLine> {
    s.update(s.len() - 1, LoadingLine { status, duration, ..s.last() })
}

/// The screen after its running step was closed.
pub open spec fn step_closed(
    s: Seq<LoadingLine>,
    step_start: Option<u64>,
    now: u64,
) -> Seq<LoadingLine> {
    match step_start {
        Some(start) => if s.len() > 0 {
            with_steps(
                s,
                step_ended(s.last().children, StepStatus::Done, Some(span(start, now))),
            )
        } else {
            s
        },
        None => s,
    }
}

/// The screen after a task of this name was opened, unless it is the last one.
pub open spec fn task_opened(
    s: Seq<LoadingLine>,
    major_start: Option<u64>,
    major: Seq<char>,
    now: u64,
    clock: Seq<char>,
) -> Seq<LoadingLine> {
    if s.len() > 0 && s.last().label == major {
        s
    } else {
        (if s.len() > 0 && major_start is Some {
            with_status(s, StepStatus::Done, Some(span(major_start->0, now)))
        } else {
            s
        }).push(
            LoadingLine {
                label: major,
                status: StepStatus::Running,
                started: Some(clock),
                duration: None,
                children: Seq::empty(),
            },
        )
    }
}

/// The screen after a step of this name was opened under its last task.
pub open spec fn step_opened(s: Seq<LoadingLine>, sub: Seq<char>, clock: Seq<char>) -> Seq<
    LoadingLine,
> {
    with_steps(
        s,
        s.last().children.push(
            StepLine {
                label: sub,
                status: StepStatus::Running,
                started: Some(clock),
                duration: None,
            },
        ),
    )
}

/// Drives the loading screen.
#[derive(Clone, Debug)]
pub struct LoadingProgress {
    /// When the running step began, in milliseconds.
    pub step_start: Option<u64>,
    /// When the running task began, in milliseconds.
    pub major_start: Option<u64>,
}

impl Default for LoadingProgress {
    fn default() -> (r: Self)
        ensures
            r.step_start is None,
            r.major_start is None,
    {
        LoadingProgress { step_start: None, major_start: None }
    }
}

impl LoadingProgress {
    /// The screen after a step began, at the moment `now` and the time of day
    /// `clock`.
    pub open spec fn begun(
        self,
        s: Seq<LoadingLine>,
        major: Seq<char>,
        sub: Seq<char>,
        now: u64,
        clock: Seq<char>,
    ) -> Seq<LoadingLine> {
        step_opened(
            task_opened(
                step_closed(s, self.step_start, now),
                self.major_start,
                major,
                now,
                clock,
            ),
            sub,
            clock,
        )
    }

    /// When the running task began, after a step of the task `major` began.
    pub open spec fn task_start(self, s: Seq<LoadingLine>, major: Seq<char>, now: u64) -> Option<
        u64,
    > {
        if s.len() > 0 && s.last().label == major {
            self.major_start
        } else {
            Some(now)
        }
    }

    /// The screen after startup came to its end.
    pub open spec fn finished(self, s: Seq<LoadingLine>, now: u64) -> Seq<LoadingLine> {
        let closed = step_closed(s, self.step_start, now);
        if s.len() > 0 && self.major_start is Some && s.last().status is Running {
            with_status(closed, StepStatus::Done, Some(span(self.major_start->0, now)))
        } else {
            closed
        }
    }

    /// The screen after startup failed in its running step.
    pub open spec fn failed(s: Seq<LoadingLine>) -> Seq<LoadingLine> {
        if s.len() == 0 {
            s
        } else {
            let last = s.last();
            s.update(
                s.len() - 1,
                LoadingLine {
                    status: if last.status is Running {
                        StepStatus::Failed
                    } else {
                        last.status
                    },
                    children: if last.children.len() > 0 && last.children.last().status is Running {
                        last.children.update(
                            last.children.len() - 1,
                            StepLine { status: StepStatus::Failed, ..last.children.last() },
                        )
                    } else {
                        last.children
                    },
                    ..last
                },
            )
        }
    }

    /// Records that a step of a task begins at this moment: closes the running
    /// step, and the running task when another one begins.
    pub fn begin_at(
        &mut self,
        loading: &mut Vec<LoadingTask>,
        major: &str,
        sub: &str,
        now: u64,
        clock: &str,
    )
        ensures
            loading_view(final(loading)@) == old(self).begun(
                loading_view(old(loading)@),
                major@,
                sub@,
                now,
                clock@,
            ),
            final(self).step_start == Some(now),
            final(self).major_start == old(self).task_start(
                loading_view(old(loading)@),
                major@,
                now,
            ),
    {
        let ghost s0 = loading_view(loading@);
        if let Some(start) = self.step_start {
            close_step(loading, start, now);
        }
        let ghost s1 = loading_view(loading@);
        assert(s1 == step_closed(s0, self.step_start, now));
        let n: usize = loading.len();
        let same_major = n > 0 && same(loading[n - 1].label.as_str(), major);
        assert(n > 0 ==> s1.last() == loading@[n - 1]@);
        if !same_major {
            if let Some(mstart) = self.major_start {
                if n > 0 {
                    let ghost before = loading@;
                    loading[n - 1].status = StepStatus::Done;
                    loading[n - 1].duration = Some(elapsed(mstart, now));
                    assert(loading_view(loading@) =~= with_status(
                        s1,
                        StepStatus::Done,
                        Some(span(mstart, now)),
                    ));
                }
            }
            let ghost before = loading_view(loading@);
            loading.push(
                LoadingTask {
                    label: owned(major),
                    status: StepStatus::Running,
                    started: Some(owned(clock)),
                    duration: None,
                    children: Vec::new(),
                },
            );
            proof {
                assert(steps_view(loading@.last().children@) =~= Seq::<StepLine>::empty());
                assert(loading_view(loading@) =~= before.push(loading@.last()@));
            }
            self.major_start = Some(now);
        }
        let ghost s2 = loading_view(loading@);
        assert(s2 == task_opened(s1, old(self).major_start, major@, now, clock@));
        open_step(loading, sub, clock);
        self.step_start = Some(now);
    }

    /// Records that a step of a task begins at this moment, stamped with the
    /// time of day.
    pub fn begin(&mut self, loading: &mut Vec<LoadingTask>, major: &str, sub: &str, now: u64)
        ensures
            exists|clock: Seq<char>| #[trigger]
                is_clock(clock) && clock_shown(clock) && loading_view(final(loading)@) == old(self).begun(
                    loading_view(old(loading)@),
                    major@,
                    sub@,
                    now,
                    clock,
                ),
            final(self).step_start == Some(now),
            final(self).major_start == old(self).task_start(
                loading_view(old(loading)@),
                major@,
                now,
            ),
    {
        let clock = time_of_day();
        self.begin_at(loading, major, sub, now, clock.as_str());
    }

    /// Records that startup came to its end.
    pub fn finish(&mut self, loading: &mut Vec<LoadingTask>, now: u64)
        ensures
            loading_view(final(loading)@) == old(self).finished(loading_view(old(loading)@), now),
            final(self).step_start is None,
            final(self).major_start is None,
    {
        let ghost s0 = loading_view(loading@);
        if let Some(start) = self.step_start {
            close_step(loading, start, now);
        }
        let ghost s1 = loading_view(loading@);
        let n: usize = loading.len();
        if n > 0 {
            assert(s1.last() == loading@[n - 1]@);
            if let Some(mstart) = self.major_start {
                if loading[n - 1].status == StepStatus::Running {
                    loading[n - 1].status = StepStatus::Done;
                    loading[n - 1].duration = Some(elapsed(mstart, now));
                    assert(loading_view(loading@) =~= with_status(
                        s1,
                        StepStatus::Done,
                        Some(span(mstart, now)),
                    ));
                }
            }
        }
        self.step_start = None;
        self.major_start = None;
    }

    /// Records that startup failed in its running step.
    pub fn fail(&mut self, loading: &mut Vec<LoadingTask>)
        ensures
            loading_view(final(loading)@) == Self::failed(loading_view(old(loading)@)),
            final(self).step_start is None,
            final(self).major_start is None,
    {
        let ghost s0 = loading_view(loading@);
        let n: usize = loading.len();
        if n > 0 {
            let ghost t0 = loading@[n - 1];
            assert(s0.last() == t0@);
            if loading[n - 1].status == StepStatus::Running {
                loading[n - 1].status = StepStatus::Failed;
            }
            let m: usize = loading[n - 1].children.len();
            assert(m > 0 ==> t0@.children.last() == t0.children@[m - 1]@);
            if m > 0 && loading[n - 1].children[m - 1].status == StepStatus::Running {
                loading[n - 1].children[m - 1].status = StepStatus::Failed;
                assert(steps_view(loading@[n - 1].children@) =~= t0@.children.update(
                    m - 1,
                    StepLine { status: StepStatus::Failed, ..t0@.children.last() },
                ));
            }
            assert(loading_view(loading@) =~= Self::failed(s0));
        }
        self.step_start = None;
        self.major_start = None;
    }
}

fn close_step(loading: &mut Vec<LoadingTask>, start: u64, now: u64)
    ensures
        loading_view(final(loading)@) == step_closed(loading_view(old(loading)@), Some(start), now),
        final(loading)@.len() == old(loading)@.len(),
{
    let ghost s0 = loading_view(loading@);
    let n: usize = loading.len();
    if n == 0 {
        return;
    }
    let m: usize = loading[n - 1].children.len();
    let ghost t0 = loading@[n - 1];
    assert(s0.last() == t0@);
    assert(m > 0 ==> t0@.children.last() == t0.children@[m - 1]@);
    if m > 0 && loading[n - 1].children[m - 1].status == StepStatus::Running {
        loading[n - 1].children[m - 1].status = StepStatus::Done;
        loading[n - 1].children[m - 1].duration = Some(elapsed(start, now));
        assert(steps_view(loading@[n - 1].children@) =~= step_ended(
            t0@.children,
            StepStatus::Done,
            Some(span(start, now)),
        ));
    }
    assert(loading_view(loading@) =~= step_closed(s0, Some(start), now));
}

fn open_step(loading: &mut Vec<LoadingTask>, sub: &str, clock: &str)
    requires
        old(loading)@.len() > 0,
    ensures
        loading_view(final(loading)@) == step_opened(loading_view(old(loading)@), sub@, clock@),
{
    let ghost s0 = loading_view(loading@);
    let n: usize = loading.len();
    let ghost t0 = loading@[n - 1];
    assert(s0.last() == t0@);
    loading[n - 1].children.push(
        LoadingStep {
            label: owned(sub),
            status: StepStatus::Running,
            started: Some(owned(clock)),
            duration: None,
        },
    );
    proof {
        assert(steps_view(loading@[n - 1].children@) =~= t0@.children.push(
            loading@[n - 1].children@.last()@,
        ));
        assert(loading_view(loading@) =~= step_opened(s0, sub@, clock@));
    }
}

/// Only the last step of the last task may be running, and it runs exactly
/// while its beginning is known.
pub open spec fn one_at_a_time(p: LoadingProgress, s: Seq<LoadingLine>) -> bool {
    &&& p.step_start is Some <==> p.major_start is Some
    &&& p.step_start is Some ==> s.len() > 0 && s.last().status is Running
        && s.last().children.len() > 0 && s.last().children.last().status is Running
    &&& p.step_start is None ==> (s.len() > 0 ==> s.last().status !is Running)
    &&& forall|i: int| 0 <= i < s.len() - 1 ==> (#[trigger] s[i]).status !is Running
    &&& forall|i: int, j: int|
        0 <= i < s.len() && 0 <= j < s[i].children.len() && !(p.step_start is Some && i == s.len()
            - 1 && j == s[i].children.len() - 1) ==> (#[trigger] s[i].children[j]).status
            !is Running
}

/// However startup goes on, one step runs at a time; once it has ended, well
/// or not, nothing is left running.
pub proof fn law_one_step_at_a_time(
    p: LoadingProgress,
    s: Seq<LoadingLine>,
    major: Seq<char>,
    sub: Seq<char>,
    now: u64,
    clock: Seq<char>,
)
    requires
        one_at_a_time(p, s),
        p.step_start is None ==> s.len() == 0,
    ensures
        one_at_a_time(
            LoadingProgress { step_start: Some(now), major_start: p.task_start(s, major, now) },
            p.begun(s, major, sub, now, clock),
        ),
        one_at_a_time(
            LoadingProgress { step_start: None, major_start: None },
            p.finished(s, now),
        ),
        one_at_a_time(
            LoadingProgress { step_start: None, major_start: None },
            LoadingProgress::failed(s),
        ),
{
    let closed = step_closed(s, p.step_start, now);
    let opened = task_opened(closed, p.major_start, major, now, clock);
    if s.len() > 0 {
        assert(closed.last().label == s.last().label);
        assert forall|i: int, j: int|
            0 <= i < closed.len() && 0 <= j < closed[i].children.len() implies (
        #[trigger] closed[i].children[j]).status !is Running by {
            if i < s.len() - 1 {
                assert(closed[i] == s[i]);
                assert(s[i].children[j].status !is Running);
            } else if j < s[i].children.len() - 1 {
                assert(s[i].children[j].status !is Running);
                assert(closed[i].children[j] == s[i].children[j]);
            }
        }
    }
    assert forall|i: int, j: int|
        0 <= i < opened.len() && 0 <= j < opened[i].children.len() implies (
    #[trigger] opened[i].children[j]).status !is Running by {
        if i < closed.len() {
            assert(opened[i].children == closed[i].children);
            assert(closed[i].children[j].status !is Running);
        }
    }
    let begun = p.begun(s, major, sub, now, clock);
    assert forall|i: int, j: int|
        0 <= i < begun.len() && 0 <= j < begun[i].children.len() && !(i == begun.len() - 1 && j
            == begun[i].children.len() - 1) implies (#[trigger] begun[i].children[j]).status
        !is Running by {
        assert(opened[i].children[j].status !is Running);
    }
    let done = p.finished(s, now);
    assert forall|i: int, j: int|
        0 <= i < done.len() && 0 <= j < done[i].children.len() implies (
    #[trigger] done[i].children[j]).status !is Running by {
        assert(done[i].children == closed[i].children);
        assert(closed[i].children[j].status !is Running);
    }
    let broken = LoadingProgress::failed(s);
    assert forall|i: int, j: int|
        0 <= i < broken.len() && 0 <= j < broken[i].children.len() implies (
    #[trigger] broken[i].children[j]).status !is Running by {
        if i < s.len() - 1 {
            assert(s[i].children[j].status !is Running);
        } else if j < s[i].children.len() - 1 {
            assert(s[i].children[j].status !is Running);
        }
    }
}

/// A step that begins is the running one, under its own name in its own task; the
/// step before it is done, and has the time that it took.
pub proof fn law_begun_step_runs(
    p: &mut LoadingProgress,
    loading: &mut Vec<LoadingTask>,
    major: &str,
    sub: &str,
    now: u64,
)
    requires
        call_ensures(LoadingProgress::begin, (p, loading, major, sub, now), ()),
    ensures
        ({
            let s = loading_view(final(loading)@);
            &&& s.len() > 0
            &&& s.last().label == major@
            &&& s.last().children.len() > 0
            &&& s.last().children.last().label == sub@
            &&& s.last().children.last().status is Running
        }),
        final(p).step_start == Some(now),
{
    let clock = choose|clock: Seq<char>| #[trigger]
        is_clock(clock) && clock_shown(clock) && loading_view(final(loading)@) == old(p).begun(
            loading_view(old(loading)@),
            major@,
            sub@,
            now,
            clock,
        );
    let s = loading_view(final(loading)@);
    assert(s.len() > 0);
}

/// How long something took is never negative, and adds up.
pub proof fn law_spans_add_up(start: u64, mid: u64, end: u64, a: u64, b: u64, c: u64)
    requires
        start <= mid <= end,
        call_ensures(elapsed, (start, mid), a),
        call_ensures(elapsed, (mid, end), b),
        call_ensures(elapsed, (start, end), c),
    ensures
        a + b == c,
        start + c == end,
{
}

} // verus!
