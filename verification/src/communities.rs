//! What the communities panel and the community switcher do, and the sessions
//! that come and go with memberships.

use crate::account::{
    active_at, any_live, expired, held_by, held_position, law_display_order,
    lemma_membership_found, membership_at, memberships_view, persona_live, removable, row_position,
    stale_among, Account, CommunityRecord, CommunityStatus,
};
use crate::config::{Config, Identity};
use crate::content::{
    CommunitiesState, CommunitySwitcherState, SwitcherItem,
};
use crate::didcomm::{
    persona_line, persona_listener_config_for, persona_listener_id, persona_listener_view,
    ListenerConfig,
};
use crate::dispatch_util::{
    line_logged, refresh_with, refreshed, refreshed_with, status_set, Panel,
};
use crate::display::{shorten_did, shortened};
use crate::join::JoinedSession;
use crate::ledger::PersonaId;
use crate::main_page::{error_line, plain_line, push_line, ErrorText, MainPageState};
use crate::save_coalesce::SaveScheduler;
use crate::session_manager::{
    deregistered, registered, RegisterOutcome, Session, SessionManager, SessionStatusView,
};
use crate::state::{ConnectionState, MediatorStatus, State};
use crate::sync::Host;
use crate::text::{
    cat2, cat3, cat4, cat5, decimal_usize, decimal_view, opt_view, owned, same, texts_view,
};
use vstd::prelude::*;

verus! {

// ---------------------------------------------------------------------------
// Memberships
// ---------------------------------------------------------------------------

/// The position of the membership in a row of the panel.
pub open spec fn row_at(state: State, config: Config, index: usize) -> Option<usize> {
    row_position(config.account.communities@, state.communities().show_archived, index as int)
}

fn membership_in_row(state: &State, config: &Config, index: usize) -> (r: Option<usize>)
    ensures
        r == row_at(*state, *config, index),
        r matches Some(i) ==> i < config.account.communities@.len(),
{
    config.account.displayed(state.main_page.content_panel.communities.show_archived, index)
}

/// `new` is `old` with another record of the membership at `i`.
pub open spec fn record_updated(old: Config, new: Config, i: int, c: CommunityRecord) -> bool {
    &&& new == (Config {
        account: Account { communities: new.account.communities, ..old.account },
        ..old
    })
    &&& new.account.communities@ == old.account.communities@.update(i, c)
}

/// `new` is `old` without the record of the membership at `i`.
pub open spec fn record_deleted(old: Config, new: Config, i: int) -> bool {
    &&& new == (Config {
        account: Account { communities: new.account.communities, ..old.account },
        ..old
    })
    &&& new.account.communities@ == old.account.communities@.remove(i)
}

/// Where the record of a membership is kept: at the first of its community and
/// persona.
pub open spec fn kept_at(config: Config, c: CommunityRecord) -> int {
    membership_at(config.account.communities@, c.vtc_did@, c.persona_ref)->0
}

/// `s` with confirmations of a removal settled.
pub open spec fn removal_settled(state: State) -> State {
    state.with_communities(CommunitiesState { confirm_delete: None, ..state.communities() })
}

/// What removing the membership in a row comes to.
pub open spec fn removal_concluded(
    old: State,
    new: State,
    was: Config,
    is: Config,
    host: Host,
    index: usize,
) -> bool {
    match row_at(old, was, index) {
        None => new == old && is == was,
        Some(i) => {
            let c = was.account.communities@[i as int];
            match removable(was.account.communities@, c.vtc_did@, c.persona_ref) {
                Ok(_) => record_deleted(was, is, kept_at(was, c)) && refreshed_with(
                    removal_settled(old),
                    new,
                    is,
                    host,
                    Panel::Communities,
                    "Community removed."@,
                ),
                Err(e) => is == was && status_set(
                    removal_settled(old),
                    new,
                    Panel::Communities,
                    "Could not remove community: "@ + e.text_view(),
                ),
            }
        },
    }
}

/// Whether the membership in a row may be removed.
pub open spec fn row_removable(state: State, config: Config, index: usize) -> bool {
    match row_at(state, config, index) {
        None => false,
        Some(i) => {
            let c = config.account.communities@[i as int];
            removable(config.account.communities@, c.vtc_did@, c.persona_ref) is Ok
        },
    }
}

/// Removes the membership in a row; one that is still live stays.
pub fn remove_community(
    state: &mut State,
    config: &mut Config,
    save: &mut SaveScheduler,
    index: usize,
    host: &Host,
)
    ensures
        removal_concluded(*old(state), *final(state), *old(config), *final(config), *host, index),
        *final(save) == (if row_removable(*old(state), *old(config), index) {
            old(save).marked(host.now)
        } else {
            *old(save)
        }),
{
    let i: usize = match membership_in_row(state, config, index) {
        Some(i) => i,
        None => {
            return ;
        },
    };
    let vtc = config.account.communities[i].vtc_did.clone();
    let persona: PersonaId = config.account.communities[i].persona_ref;
    state.main_page.content_panel.communities.confirm_delete = None;
    match config.account.delete_community(vtc.as_str(), persona) {
        Ok(_) => {
            save.mark_dirty(host.now);
            refresh_with(state, config, host, Panel::Communities, owned("Community removed."));
        },
        Err(e) => {
            state.main_page.set_status(
                Panel::Communities,
                cat2("Could not remove community: ", e.text()),
            );
        },
    }
}

// ---------------------------------------------------------------------------
// Sessions
// ---------------------------------------------------------------------------

/// The listener of a persona stops once nothing live needs it any more.
pub open spec fn stops_listening(config: Config, persona: PersonaId) -> bool {
    &&& !persona_live(config.account.communities@, persona)
    &&& held_by(config.identities@, persona) is Some
}

/// The listener that stops: that of the session that ended, or the persona's.
pub open spec fn stopped_listener(
    config: Config,
    persona: PersonaId,
    removed: Option<Session>,
) -> Option<Seq<char>> {
    if stops_listening(config, persona) {
        match removed {
            Some(s) => Some(s.listener_id@),
            None => Some(persona_listener_view(held_by(config.identities@, persona)->0.did@)),
        }
    } else {
        None
    }
}

/// The connection once nothing live is left.
pub open spec fn connection_left(config: Config, c: ConnectionState) -> ConnectionState {
    if any_live(config.account.communities@) {
        c
    } else {
        ConnectionState { status: MediatorStatus::NoActiveCommunity, messaging_active: false }
    }
}

/// What the end of a membership means for the session that served it: the
/// session lets go of the community, and where nothing live needs the persona's
/// listener any more, that is to be removed.
pub open spec fn session_ended(
    old: State,
    new: State,
    was: SessionManager,
    is: SessionManager,
    config: Config,
    vtc: Seq<char>,
    persona: PersonaId,
    line: Seq<char>,
    listener: Option<Seq<char>>,
) -> bool {
    &&& is.wf()
    &&& exists|removed: Option<Session>|
        #[trigger] deregistered(was, is, persona, vtc, removed) && listener == stopped_listener(
            config,
            persona,
            removed,
        )
    &&& new == (State {
        main_page: MainPageState {
            activity_log: new.main_page.activity_log,
            ..old.main_page
        },
        connection: connection_left(config, old.connection),
        ..old
    })
    &&& if stops_listening(config, persona) {
        new.main_page.log_lines() == push_line(old.main_page.log_lines(), plain_line(line))
    } else {
        new.main_page.activity_log == old.main_page.activity_log
    }
}

/// Ends the session of a membership that is no longer live; says which listener
/// is to be removed.
pub fn end_session(
    sessions: &mut SessionManager,
    config: &Config,
    state: &mut State,
    vtc: &str,
    persona: PersonaId,
    line: &str,
) -> (r: Option<String>)
    requires
        old(sessions).wf(),
    ensures
        session_ended(
            *old(state),
            *final(state),
            *old(sessions),
            *final(sessions),
            *config,
            vtc@,
            persona,
            line@,
            opt_view(r),
        ),
{
    let removed = sessions.deregister(persona, vtc);
    assert(deregistered(*old(sessions), *sessions, persona, vtc@, removed));
    let mut listener: Option<String> = None;
    if !config.account.persona_is_live(persona) {
        match held_position(&config.identities, persona) {
            Some(i) => {
                listener =
                Some(
                    match removed {
                        Some(s) => s.listener_id,
                        None => persona_listener_id(config.identities[i].did.as_str()),
                    },
                );
                state.main_page.log(owned(line));
            },
            None => {},
        }
    }
    if !config.account.has_live() {
        state.connection.status = MediatorStatus::NoActiveCommunity;
        state.connection.messaging_active = false;
    }
    listener
}

/// Ends the session of a membership that became inactive.
pub fn deregister_inactive_community(
    sessions: &mut SessionManager,
    config: &Config,
    state: &mut State,
    vtc: &str,
    persona: PersonaId,
) -> (r: Option<String>)
    requires
        old(sessions).wf(),
    ensures
        session_ended(
            *old(state),
            *final(state),
            *old(sessions),
            *final(sessions),
            *config,
            vtc@,
            persona,
            "Community inactive — persona listener stopped."@,
            opt_view(r),
        ),
{
    end_session(
        sessions,
        config,
        state,
        vtc,
        persona,
        "Community inactive — persona listener stopped.",
    )
}

/// The sessions of these memberships ended, one after the other; `listeners` are
/// those to be removed.
pub open spec fn sessions_ended(
    old: State,
    new: State,
    was: SessionManager,
    is: SessionManager,
    config: Config,
    ended: Seq<(Seq<char>, PersonaId)>,
    listeners: Seq<Seq<char>>,
) -> bool
    decreases ended.len(),
{
    if ended.len() == 0 {
        new == old && is == was && listeners.len() == 0
    } else {
        exists|mid: State, m: SessionManager, listener: Option<Seq<char>>|
            #[trigger] session_ended(
                mid,
                new,
                m,
                is,
                config,
                ended.last().0,
                ended.last().1,
                "Community inactive — persona listener stopped."@,
                listener,
            ) && match listener {
                Some(l) => listeners.len() > 0 && listeners.last() == l && sessions_ended(
                    old,
                    mid,
                    was,
                    m,
                    config,
                    ended.drop_last(),
                    listeners.drop_last(),
                ),
                None => sessions_ended(
                    old,
                    mid,
                    was,
                    m,
                    config,
                    ended.drop_last(),
                    listeners,
                ),
            }
    }
}

/// Ends the sessions of memberships that became inactive.
pub fn end_sessions(
    sessions: &mut SessionManager,
    config: &Config,
    state: &mut State,
    ended: &Vec<(String, PersonaId)>,
) -> (r: Vec<String>)
    requires
        old(sessions).wf(),
    ensures
        final(sessions).wf(),
        sessions_ended(
            *old(state),
            *final(state),
            *old(sessions),
            *final(sessions),
            *config,
            memberships_view(ended@),
            texts_view(r@),
        ),
{
    let ghost all = memberships_view(ended@);
    let mut out: Vec<String> = Vec::new();
    let mut i: usize = 0;
    assert(all.take(0) =~= Seq::<(Seq<char>, PersonaId)>::empty());
    assert(texts_view(out@) =~= Seq::<Seq<char>>::empty());
    while i < ended.len()
        invariant
            i <= ended@.len(),
            all == memberships_view(ended@),
            sessions.wf(),
            sessions_ended(
                *old(state),
                *state,
                *old(sessions),
                *sessions,
                *config,
                all.take(i as int),
                texts_view(out@),
            ),
        decreases ended@.len() - i,
    {
        let ghost mid = *state;
        let ghost m = *sessions;
        let ghost before = texts_view(out@);
        let listener = deregister_inactive_community(
            sessions,
            config,
            state,
            ended[i].0.as_str(),
            ended[i].1,
        );
        let ghost l = opt_view(listener);
        match listener {
            Some(id) => {
                out.push(id);
                assert(texts_view(out@) =~= before.push(id@));
                assert(texts_view(out@).drop_last() =~= before);
            },
            None => {},
        }
        proof {
            assert(all.take(i + 1).drop_last() =~= all.take(i as int));
            assert(all.take(i + 1).last() == (ended@[i as int].0@, ended@[i as int].1));
            assert(session_ended(
                mid,
                *state,
                m,
                *sessions,
                *config,
                all.take(i + 1).last().0,
                all.take(i + 1).last().1,
                "Community inactive — persona listener stopped."@,
                l,
            ));
        }
        i = i + 1;
    }
    assert(all.take(i as int) =~= all);
    out
}

// ---------------------------------------------------------------------------
// The panel
// ---------------------------------------------------------------------------

/// What deleting the membership in a row comes to.
pub open spec fn deletion_concluded(
    old: State,
    new: State,
    was: Config,
    is: Config,
    sessions_was: SessionManager,
    sessions_is: SessionManager,
    host: Host,
    index: usize,
    listener: Option<Seq<char>>,
) -> bool {
    exists|mid: State|
        #[trigger] removal_concluded(old, mid, was, is, host, index) && match row_at(
            old,
            was,
            index,
        ) {
            None => listener is None && sessions_is == sessions_was && new == (State {
                connection: connection_left(is, mid.connection),
                ..mid
            }),
            Some(i) => session_ended(
                mid,
                new,
                sessions_was,
                sessions_is,
                is,
                was.account.communities@[i as int].vtc_did@,
                was.account.communities@[i as int].persona_ref,
                "Community removed — persona listener stopped."@,
                listener,
            ),
        }
}

/// Deletes the membership in a row and takes it off its persona's session; says
/// which listener is to be removed. A membership that is still live stays, and
/// with it the listener of its persona, yet it is off the session all the same.
pub fn handle_delete_community(
    state: &mut State,
    config: &mut Config,
    save: &mut SaveScheduler,
    sessions: &mut SessionManager,
    index: usize,
    host: &Host,
) -> (r: Option<String>)
    requires
        old(sessions).wf(),
    ensures
        final(sessions).wf(),
        deletion_concluded(
            *old(state),
            *final(state),
            *old(config),
            *final(config),
            *old(sessions),
            *final(sessions),
            *host,
            index,
            opt_view(r),
        ),
        *final(save) == (if row_removable(*old(state), *old(config), index) {
            old(save).marked(host.now)
        } else {
            *old(save)
        }),
{
    let target = match membership_in_row(state, config, index) {
        Some(i) => Some(
            (config.account.communities[i].vtc_did.clone(), config.account.communities[i].persona_ref),
        ),
        None => None,
    };
    remove_community(state, config, save, index, host);
    let ghost mid = *state;
    assert(removal_concluded(*old(state), mid, *old(config), *config, *host, index));
    match target {
        Some((vtc, persona)) => end_session(
            sessions,
            config,
            state,
            vtc.as_str(),
            persona,
            "Community removed — persona listener stopped.",
        ),
        None => {
            if !config.account.has_live() {
                state.connection.status = MediatorStatus::NoActiveCommunity;
                state.connection.messaging_active = false;
            }
            None
        },
    }
}

/// A membership that is still live is not deleted, and its persona's listener
/// goes on: no listener is to be removed.
pub proof fn law_refused_deletion_keeps_listener(
    old: State,
    new: State,
    was: Config,
    is: Config,
    sessions_was: SessionManager,
    sessions_is: SessionManager,
    host: Host,
    index: usize,
    listener: Option<Seq<char>>,
)
    requires
        deletion_concluded(
            old,
            new,
            was,
            is,
            sessions_was,
            sessions_is,
            host,
            index,
            listener,
        ),
        !row_removable(old, was, index),
    ensures
        is == was,
        listener is None,
{
    if let Some(i) = row_at(old, was, index) {
        let s = was.account.communities@;
        assert(s.len() == was.account.communities.len());
        law_display_order(s, old.communities().show_archived);
        assert(i < s.len());
        let c = s[i as int];
        lemma_membership_found(s, c.vtc_did@, c.persona_ref);
        assert(c.is_membership(c.vtc_did@, c.persona_ref));
        let k = kept_at(was, c);
        assert(s[k].persona_ref == c.persona_ref && s[k].live());
        assert(persona_live(s, c.persona_ref));
    }
}

/// `new` is `old` after work moved to a membership.
pub open spec fn membership_chosen(
    old: State,
    new: State,
    was: Config,
    is: Config,
    host: Host,
    c: CommunityRecord,
) -> bool {
    &&& is == (Config { active_persona: Some(c.persona_ref), ..was })
    &&& new.selected_community matches Some(chosen) && chosen.0@ == c.vtc_did@ && chosen.1
        == c.persona_ref
    &&& refreshed((State { selected_community: new.selected_community, ..old }), new, is, host)
}

fn choose_membership(state: &mut State, config: &mut Config, i: usize, host: &Host)
    requires
        i < old(config).account.communities@.len(),
    ensures
        membership_chosen(
            *old(state),
            *final(state),
            *old(config),
            *final(config),
            *host,
            old(config).account.communities@[i as int],
        ),
{
    let vtc = config.account.communities[i].vtc_did.clone();
    let persona: PersonaId = config.account.communities[i].persona_ref;
    state.selected_community = Some((vtc, persona));
    config.set_active_persona(Some(persona));
    state.main_page.sync_from_config(config, host);
}

/// What choosing the membership in a row comes to: one in force is worked in.
pub open spec fn choice_concluded(
    old: State,
    new: State,
    was: Config,
    is: Config,
    host: Host,
    index: usize,
) -> bool {
    match row_at(old, was, index) {
        Some(i) => if was.account.communities@[i as int].status is Active {
            membership_chosen(old, new, was, is, host, was.account.communities@[i as int])
        } else {
            new == old && is == was
        },
        None => new == old && is == was,
    }
}

/// Works in the membership in a row.
pub fn handle_set_active_community(
    state: &mut State,
    config: &mut Config,
    index: usize,
    host: &Host,
)
    ensures
        choice_concluded(*old(state), *final(state), *old(config), *final(config), *host, index),
{
    match membership_in_row(state, config, index) {
        Some(i) => {
            if config.account.communities[i].status.is_active() {
                choose_membership(state, config, i, host);
            }
        },
        None => {},
    }
}

/// The first row that shows the membership at `i`.
pub open spec fn row_showing(order: Seq<int>, i: int) -> Option<usize>
    decreases order.len(),
{
    if order.len() == 0 {
        None
    } else if order[0] == i {
        Some(0)
    } else {
        match row_showing(order.skip(1), i) {
            Some(k) => Some((k + 1) as usize),
            None => None,
        }
    }
}

fn find_row(order: &Vec<usize>, i: usize) -> (r: Option<usize>)
    ensures
        r == row_showing(crate::account::positions(order@), i as int),
{
    let ghost all = crate::account::positions(order@);
    let mut k: usize = 0;
    assert(all.skip(0) =~= all);
    while k < order.len()
        invariant
            k <= order@.len(),
            all == crate::account::positions(order@),
            row_showing(all, i as int) == (match row_showing(all.skip(k as int), i as int) {
                Some(n) => Some((n + k) as usize),
                None => None,
            }),
        decreases order@.len() - k,
    {
        proof {
            assert(all.skip(k as int)[0] == order@[k as int]);
            assert(all.skip(k as int).skip(1) =~= all.skip(k + 1));
            lemma_row_showing(all.skip(k + 1), i as int);
        }
        if order[k] == i {
            return Some(k);
        }
        k = k + 1;
    }
    None
}

proof fn lemma_row_showing(order: Seq<int>, i: int)
    requires
        order.len() <= usize::MAX,
    ensures
        row_showing(order, i) matches Some(k) ==> k < order.len() && order[k as int] == i,
    decreases order.len(),
{
    if order.len() > 0 && order[0] != i {
        lemma_row_showing(order.skip(1), i);
    }
}

/// What starring the membership in a row comes to: the selection follows it to
/// its new row.
pub open spec fn star_concluded(
    old: State,
    new: State,
    was: Config,
    is: Config,
    host: Host,
    index: usize,
) -> bool {
    match row_at(old, was, index) {
        None => new == old && is == was,
        Some(i) => {
            let c = was.account.communities@[i as int];
            &&& record_updated(
                was,
                is,
                i as int,
                (CommunityRecord { favourite: !c.favourite, ..c }),
            )
            &&& exists|mid: State|
                #[trigger] refreshed(old, mid, is, host) && new == (match row_showing(
                    crate::account::display_order(
                        is.account.communities@,
                        mid.communities().show_archived,
                    ),
                    i as int,
                ) {
                    Some(row) => mid.with_communities(
                        CommunitiesState { selected_index: row, ..mid.communities() },
                    ),
                    None => mid,
                })
        },
    }
}

/// Stars the membership in a row, or takes its star.
pub fn handle_toggle_favourite(
    state: &mut State,
    config: &mut Config,
    save: &mut SaveScheduler,
    index: usize,
    host: &Host,
)
    ensures
        star_concluded(*old(state), *final(state), *old(config), *final(config), *host, index),
        *final(save) == (if row_at(*old(state), *old(config), index) is Some {
            old(save).marked(host.now)
        } else {
            *old(save)
        }),
{
    let i: usize = match membership_in_row(state, config, index) {
        Some(i) => i,
        None => {
            return ;
        },
    };
    let ghost before = config.account.communities@;
    config.account.communities[i].toggle_favourite();
    assert(config.account.communities@ =~= before.update(
        i as int,
        (CommunityRecord { favourite: !before[i as int].favourite, ..before[i as int] }),
    ));
    save.mark_dirty(host.now);
    state.main_page.sync_from_config(config, host);
    let ghost mid = *state;
    assert(refreshed(*old(state), mid, *config, *host));
    let order = config.account.communities_for_display(
        state.main_page.content_panel.communities.show_archived,
    );
    match find_row(&order, i) {
        Some(row) => {
            state.main_page.content_panel.communities.selected_index = row;
        },
        None => {},
    }
}

/// What acknowledging the outcome in a row comes to.
pub open spec fn acknowledgement_concluded(
    old: State,
    new: State,
    was: Config,
    is: Config,
    host: Host,
    index: usize,
) -> bool {
    match row_at(old, was, index) {
        None => new == old && is == was,
        Some(i) => record_updated(
            was,
            is,
            i as int,
            (CommunityRecord { attention: false, ..was.account.communities@[i as int] }),
        ) && refreshed(old, new, is, host),
    }
}

/// Takes note that the user has seen the outcome in a row.
pub fn handle_acknowledge_community(
    state: &mut State,
    config: &mut Config,
    save: &mut SaveScheduler,
    index: usize,
    host: &Host,
)
    ensures
        acknowledgement_concluded(
            *old(state),
            *final(state),
            *old(config),
            *final(config),
            *host,
            index,
        ),
        *final(save) == (if row_at(*old(state), *old(config), index) is Some {
            old(save).marked(host.now)
        } else {
            *old(save)
        }),
{
    match membership_in_row(state, config, index) {
        Some(i) => {
            let ghost before = config.account.communities@;
            config.account.communities[i].acknowledge();
            assert(config.account.communities@ =~= before.update(
                i as int,
                (CommunityRecord { attention: false, ..before[i as int] }),
            ));
            save.mark_dirty(host.now);
            state.main_page.sync_from_config(config, host);
        },
        None => {},
    }
}

/// A community to be told that a member leaves.
#[derive(Clone, Debug)]
pub struct LeaveJob {
    pub vtc_did: String,
    pub persona: PersonaId,
    pub member_did: String,
    /// The mediator to send over; empty where the member has none.
    pub mediator_did: String,
}

/// `s` with the confirmation of leaving settled.
pub open spec fn leave_settled(state: State) -> State {
    state.with_communities(CommunitiesState { confirm_leave: None, ..state.communities() })
}

/// `new` is `old` after leaving failed.
pub open spec fn leave_failed(old: State, new: State, err: ErrorText) -> bool {
    let status = new.communities().status_message;
    &&& opt_view(status) == Some("Couldn't leave: "@ + err.display@)
    &&& new == old.with_main(
        MainPageState {
            activity_log: new.main_page.activity_log,
            ..old.main_page.with_status(Panel::Communities, status)
        },
    )
    &&& new.main_page.log_lines() == push_line(
        old.main_page.log_lines(),
        error_line("Leave failed"@, err),
    )
}

fn show_leave_failure(state: &mut State, err: &ErrorText)
    ensures
        leave_failed(*old(state), *final(state), *err),
{
    state.main_page.log_error("Leave failed", err);
    state.main_page.set_status(
        Panel::Communities,
        cat2("Couldn't leave: ", err.display.as_str()),
    );
}

/// The message for a membership in force: it goes out under the member's DID.
pub open spec fn leaves(job: LeaveJob, c: CommunityRecord, identity: Identity) -> bool {
    &&& job.vtc_did == c.vtc_did
    &&& job.persona == c.persona_ref
    &&& job.member_did == identity.did
    &&& job.mediator_did@ == (match identity.mediator_did {
        Some(m) => m@,
        None => Seq::empty(),
    })
}

/// What asking to leave comes to: a membership in force is left, once its
/// community was told.
pub open spec fn leave_asked(
    old: State,
    new: State,
    config: Config,
    index: usize,
    r: Option<LeaveJob>,
) -> bool {
    let settled = leave_settled(old);
    match row_at(old, config, index) {
        None => new == settled && r is None,
        Some(i) => {
            let c = config.account.communities@[i as int];
            if c.status !is Active {
                new == settled && r is None
            } else {
                match held_by(config.identities@, c.persona_ref) {
                    Some(identity) => new == settled && (r matches Some(job) && leaves(
                        job,
                        c,
                        identity,
                    )),
                    None => r is None && exists|e: ErrorText|
                        e.says("Messaging unavailable — cannot leave right now."@)
                            && #[trigger] leave_failed(settled, new, e),
                }
            }
        },
    }
}

/// Begins to leave the membership in a row.
pub fn handle_leave_community(state: &mut State, config: &Config, index: usize) -> (r: Option<
    LeaveJob,
>)
    ensures
        leave_asked(*old(state), *final(state), *config, index, r),
{
    let row = membership_in_row(state, config, index);
    state.main_page.content_panel.communities.confirm_leave = None;
    let i: usize = match row {
        Some(i) => i,
        None => {
            return None;
        },
    };
    if !config.account.communities[i].status.is_active() {
        return None;
    }
    let persona: PersonaId = config.account.communities[i].persona_ref;
    match held_position(&config.identities, persona) {
        Some(k) => {
            let mediator_did = match &config.identities[k].mediator_did {
                Some(m) => m.clone(),
                None => String::new(),
            };
            Some(
                LeaveJob {
                    vtc_did: config.account.communities[i].vtc_did.clone(),
                    persona,
                    member_did: config.identities[k].did.clone(),
                    mediator_did,
                },
            )
        },
        None => {
            let e = ErrorText::plain(owned("Messaging unavailable — cannot leave right now."));
            show_leave_failure(state, &e);
            None
        },
    }
}

/// What it comes to that a community was told of a leave, or not.
pub open spec fn leave_concluded(
    old: State,
    new: State,
    was: Config,
    is: Config,
    sessions_was: SessionManager,
    sessions_is: SessionManager,
    host: Host,
    job: LeaveJob,
    sent: Result<(), ErrorText>,
    listener: Option<Seq<char>>,
) -> bool {
    match sent {
        Err(e) => is == was && sessions_is == sessions_was && listener is None && leave_failed(
            old,
            new,
            e,
        ),
        Ok(_) => {
            &&& match membership_at(
                was.account.communities@,
                job.vtc_did@,
                job.persona,
            ) {
                Some(i) => record_updated(
                    was,
                    is,
                    i,
                    (CommunityRecord {
                        status: CommunityStatus::Left,
                        ..was.account.communities@[i]
                    }),
                ),
                None => is == was,
            }
            &&& exists|mid: State|
                #[trigger] session_ended(
                    old,
                    mid,
                    sessions_was,
                    sessions_is,
                    is,
                    job.vtc_did@,
                    job.persona,
                    "Community inactive — persona listener stopped."@,
                    listener,
                ) && refreshed_with(
                    mid,
                    new,
                    is,
                    host,
                    Panel::Communities,
                    "Left the community."@,
                )
        },
    }
}

/// Ends leaving; says which listener is to be removed.
pub fn finish_leave(
    state: &mut State,
    config: &mut Config,
    save: &mut SaveScheduler,
    sessions: &mut SessionManager,
    job: &LeaveJob,
    sent: Result<(), ErrorText>,
    host: &Host,
) -> (r: Option<String>)
    requires
        old(sessions).wf(),
    ensures
        final(sessions).wf(),
        leave_concluded(
            *old(state),
            *final(state),
            *old(config),
            *final(config),
            *old(sessions),
            *final(sessions),
            *host,
            *job,
            sent,
            opt_view(r),
        ),
        *final(save) == (if sent is Ok {
            old(save).marked(host.now)
        } else {
            *old(save)
        }),
{
    match sent {
        Err(e) => {
            show_leave_failure(state, &e);
            None
        },
        Ok(_) => {
            match config.account.membership(job.vtc_did.as_str(), job.persona) {
                Some(i) => {
                    let ghost before = config.account.communities@;
                    config.account.communities[i].leave();
                    assert(config.account.communities@ =~= before.update(
                        i as int,
                        (CommunityRecord {
                            status: CommunityStatus::Left,
                            ..before[i as int]
                        }),
                    ));
                },
                None => {},
            }
            save.mark_dirty(host.now);
            let listener = deregister_inactive_community(
                sessions,
                config,
                state,
                job.vtc_did.as_str(),
                job.persona,
            );
            let ghost mid = *state;
            assert(session_ended(
                *old(state),
                mid,
                *old(sessions),
                *sessions,
                *config,
                job.vtc_did@,
                job.persona,
                "Community inactive — persona listener stopped."@,
                opt_view(listener),
            ));
            refresh_with(state, config, host, Panel::Communities, owned("Left the community."));
            listener
        },
    }
}

/// `s` with the confirmation of a withdrawal settled.
pub open spec fn withdrawal_settled(state: State) -> State {
    state.with_communities(CommunitiesState { confirm_withdraw: None, ..state.communities() })
}

/// Whether the membership in a row still awaits its answer.
pub open spec fn row_pending(state: State, config: Config, index: usize) -> bool {
    match row_at(state, config, index) {
        Some(i) => config.account.communities@[i as int].status is Pending,
        None => false,
    }
}

/// What withdrawing the request in a row comes to.
pub open spec fn withdrawal_concluded(
    old: State,
    new: State,
    was: Config,
    is: Config,
    sessions_was: SessionManager,
    sessions_is: SessionManager,
    host: Host,
    index: usize,
    listener: Option<Seq<char>>,
) -> bool {
    let settled = withdrawal_settled(old);
    if !row_pending(old, was, index) {
        new == settled && is == was && sessions_is == sessions_was && listener is None
    } else {
        let i = row_at(old, was, index)->0 as int;
        let c = was.account.communities@[i];
        &&& record_updated(
            was,
            is,
            i,
            (CommunityRecord { status: CommunityStatus::Withdrawn, ..c }),
        )
        &&& exists|mid: State|
            #[trigger] session_ended(
                settled,
                mid,
                sessions_was,
                sessions_is,
                is,
                c.vtc_did@,
                c.persona_ref,
                "Community inactive — persona listener stopped."@,
                listener,
            ) && refreshed_with(
                mid,
                new,
                is,
                host,
                Panel::Communities,
                "Join cancelled — request withdrawn."@,
            )
    }
}

/// Withdraws the request in a row; says which listener is to be removed.
pub fn handle_withdraw_join(
    state: &mut State,
    config: &mut Config,
    save: &mut SaveScheduler,
    sessions: &mut SessionManager,
    index: usize,
    host: &Host,
) -> (r: Option<String>)
    requires
        old(sessions).wf(),
    ensures
        final(sessions).wf(),
        withdrawal_concluded(
            *old(state),
            *final(state),
            *old(config),
            *final(config),
            *old(sessions),
            *final(sessions),
            *host,
            index,
            opt_view(r),
        ),
        *final(save) == (if row_pending(*old(state), *old(config), index) {
            old(save).marked(host.now)
        } else {
            *old(save)
        }),
{
    let row = membership_in_row(state, config, index);
    state.main_page.content_panel.communities.confirm_withdraw = None;
    let i: usize = match row {
        Some(i) => i,
        None => {
            return None;
        },
    };
    let vtc = config.account.communities[i].vtc_did.clone();
    let persona: PersonaId = config.account.communities[i].persona_ref;
    match &config.account.communities[i].status {
        CommunityStatus::Pending { .. } => {},
        _ => {
            return None;
        },
    }
    let ghost before = config.account.communities@;
    let _ = config.account.communities[i].withdraw();
    assert(config.account.communities@ =~= before.update(
        i as int,
        (CommunityRecord { status: CommunityStatus::Withdrawn, ..before[i as int] }),
    ));
    save.mark_dirty(host.now);
    let ghost settled = *state;
    let listener = deregister_inactive_community(sessions, config, state, vtc.as_str(), persona);
    let ghost mid = *state;
    assert(session_ended(
        settled,
        mid,
        *old(sessions),
        *sessions,
        *config,
        vtc@,
        persona,
        "Community inactive — persona listener stopped."@,
        opt_view(listener),
    ));
    refresh_with(
        state,
        config,
        host,
        Panel::Communities,
        owned("Join cancelled — request withdrawn."),
    );
    listener
}

/// What archiving the membership in a row comes to.
pub open spec fn archiving_concluded(
    old: State,
    new: State,
    was: Config,
    is: Config,
    host: Host,
    index: usize,
) -> bool {
    match row_at(old, was, index) {
        None => new == old && is == was,
        Some(i) => {
            let c = was.account.communities@[i as int];
            match removable(was.account.communities@, c.vtc_did@, c.persona_ref) {
                Ok(_) => record_updated(
                    was,
                    is,
                    kept_at(was, c),
                    (CommunityRecord {
                        archived: true,
                        ..was.account.communities@[kept_at(was, c)]
                    }),
                ) && refreshed_with(
                    old,
                    new,
                    is,
                    host,
                    Panel::Communities,
                    "Community archived."@,
                ),
                Err(e) => is == was && status_set(
                    old,
                    new,
                    Panel::Communities,
                    "Couldn't archive: "@ + e.text_view(),
                ),
            }
        },
    }
}

/// Archives the membership in a row; one that is still live stays.
pub fn handle_archive_community(
    state: &mut State,
    config: &mut Config,
    save: &mut SaveScheduler,
    index: usize,
    host: &Host,
)
    ensures
        archiving_concluded(*old(state), *final(state), *old(config), *final(config), *host, index),
        *final(save) == (if row_removable(*old(state), *old(config), index) {
            old(save).marked(host.now)
        } else {
            *old(save)
        }),
{
    let i: usize = match membership_in_row(state, config, index) {
        Some(i) => i,
        None => {
            return ;
        },
    };
    let vtc = config.account.communities[i].vtc_did.clone();
    let persona: PersonaId = config.account.communities[i].persona_ref;
    match config.account.archive_community(vtc.as_str(), persona) {
        Ok(_) => {
            save.mark_dirty(host.now);
            refresh_with(state, config, host, Panel::Communities, owned("Community archived."));
        },
        Err(e) => {
            state.main_page.set_status(Panel::Communities, cat2("Couldn't archive: ", e.text()));
        },
    }
}

/// Shows the archived memberships, or no longer.
pub fn handle_toggle_show_archived(state: &mut State, config: &Config, host: &Host)
    ensures
        refreshed(
            old(state).with_communities(
                CommunitiesState {
                    show_archived: !old(state).communities().show_archived,
                    ..old(state).communities()
                },
            ),
            *final(state),
            *config,
            *host,
        ),
{
    state.main_page.content_panel.communities.show_archived =
    !state.main_page.content_panel.communities.show_archived;
    state.main_page.sync_from_config(config, host);
}

// ---------------------------------------------------------------------------
// The switcher
// ---------------------------------------------------------------------------

/// What an entry of the switcher shows.
pub struct SwitcherLine {
    pub vtc_did: Seq<char>,
    pub display_name: Seq<char>,
    pub is_current: bool,
}

impl View for SwitcherItem {
    type V = SwitcherLine;

    open spec fn view(&self) -> SwitcherLine {
        SwitcherLine {
            vtc_did: self.vtc_did@,
            display_name: self.display_name@,
            is_current: self.is_current,
        }
    }
}

/// What the entries of the switcher show.
pub open spec fn switcher_view(s: Seq<SwitcherItem>) -> Seq<SwitcherLine> {
    s.map_values(|i: SwitcherItem| i@)
}

/// The community that is worked in.
pub open spec fn current_vtc(state: State) -> Option<Seq<char>> {
    match state.selected_community {
        Some(c) => Some(c.0@),
        None => None,
    }
}

/// The entry of the switcher for a membership.
pub open spec fn switcher_line(c: CommunityRecord, current: Option<Seq<char>>) -> SwitcherLine {
    SwitcherLine {
        vtc_did: c.vtc_did@,
        display_name: match c.display_name {
            Some(n) => n@,
            None => shortened(c.vtc_did@, 40),
        },
        is_current: current == Some(c.vtc_did@),
    }
}

/// The entries of the switcher: the memberships in force, in this order.
pub open spec fn switcher_lines(
    s: Seq<CommunityRecord>,
    order: Seq<int>,
    current: Option<Seq<char>>,
) -> Seq<SwitcherLine>
    decreases order.len(),
{
    if order.len() == 0 {
        Seq::empty()
    } else {
        let rest = switcher_lines(s, order.drop_last(), current);
        if s[order.last()].status is Active {
            rest.push(switcher_line(s[order.last()], current))
        } else {
            rest
        }
    }
}

/// The first of these entries that is the current one; the first of all if none
/// is.
pub open spec fn current_row(s: Seq<SwitcherLine>) -> usize {
    current_row_from(s, 0)
}

/// The first entry, from this one on, that is the current one; the first of all
/// if none is.
pub open spec fn current_row_from(s: Seq<SwitcherLine>, from: int) -> usize
    decreases s.len() - from,
{
    if from < 0 || from >= s.len() {
        0
    } else if s[from].is_current {
        from as usize
    } else {
        current_row_from(s, from + 1)
    }
}

/// What opening the switcher comes to: there is one if there is a membership in
/// force.
pub open spec fn switcher_opened(old: State, new: State, config: Config) -> bool {
    let lines = switcher_lines(
        config.account.communities@,
        crate::account::display_order(
            config.account.communities@,
            old.communities().show_archived,
        ),
        current_vtc(old),
    );
    if lines.len() == 0 {
        new == old
    } else {
        &&& new == old.with_main(
            MainPageState { switcher: new.main_page.switcher, ..old.main_page },
        )
        &&& new.main_page.switcher matches Some(sw)
        &&& switcher_view(sw.items@) == lines
        &&& sw.selected == current_row(lines)
    }
}

/// Opens the switcher.
pub fn handle_open_switcher(state: &mut State, config: &Config)
    ensures
        switcher_opened(*old(state), *final(state), *config),
{
    let order = config.account.communities_for_display(
        state.main_page.content_panel.communities.show_archived,
    );
    let ghost shown = crate::account::positions(order@);
    let ghost s = config.account.communities@;
    let ghost current = current_vtc(*state);
    let mut items: Vec<SwitcherItem> = Vec::new();
    let mut k: usize = 0;
    assert(shown.take(0) =~= Seq::<int>::empty());
    assert(switcher_view(items@) =~= Seq::<SwitcherLine>::empty());
    while k < order.len()
        invariant
            k <= order@.len(),
            shown == crate::account::positions(order@),
            s == config.account.communities@,
            current == current_vtc(*state),
            *state == *old(state),
            forall|j: int| 0 <= j < order@.len() ==> (#[trigger] order@[j]) < s.len(),
            switcher_view(items@) == switcher_lines(s, shown.take(k as int), current),
        decreases order@.len() - k,
    {
        proof {
            assert(shown.take(k + 1).drop_last() =~= shown.take(k as int));
            assert(shown.take(k + 1).last() == order@[k as int]);
        }
        let i: usize = order[k];
        if config.account.communities[i].status.is_active() {
            let display_name = match &config.account.communities[i].display_name {
                Some(n) => n.clone(),
                None => shorten_did(config.account.communities[i].vtc_did.as_str(), 40),
            };
            let is_current = match &state.selected_community {
                Some(c) => same(c.0.as_str(), config.account.communities[i].vtc_did.as_str()),
                None => false,
            };
            let ghost before = items@;
            let item = SwitcherItem {
                vtc_did: config.account.communities[i].vtc_did.clone(),
                display_name,
                is_current,
            };
            items.push(item);
            assert(switcher_view(items@) =~= switcher_view(before).push(item@));
        }
        k = k + 1;
    }
    assert(shown.take(k as int) =~= shown);
    if items.len() > 0 {
        let selected: usize = find_current(&items);
        state.main_page.switcher = Some(CommunitySwitcherState { items, selected });
    }
}

fn find_current(items: &Vec<SwitcherItem>) -> (r: usize)
    ensures
        r == current_row(switcher_view(items@)),
{
    let ghost all = switcher_view(items@);
    let mut i: usize = 0;
    while i < items.len()
        invariant
            i <= items@.len(),
            all == switcher_view(items@),
            current_row(all) == current_row_from(all, i as int),
        decreases items@.len() - i,
    {
        assert(all[i as int] == items@[i as int]@);
        if items[i].is_current {
            return i;
        }
        i = i + 1;
    }
    0
}

/// The community that the switcher points at.
pub open spec fn switcher_target(state: State) -> Option<Seq<char>> {
    match state.main_page.switcher {
        Some(sw) => if sw.selected < sw.items@.len() {
            Some(sw.items@[sw.selected as int].vtc_did@)
        } else {
            None
        },
        None => None,
    }
}

/// `state` with the switcher closed.
pub open spec fn switcher_closed(state: State) -> State {
    state.with_main(MainPageState { switcher: None, ..state.main_page })
}

/// `new` is `old` after work moved to a membership and the switcher closed.
pub open spec fn switched_to(
    old: State,
    new: State,
    was: Config,
    is: Config,
    host: Host,
    c: CommunityRecord,
) -> bool {
    exists|mid: State|
        #[trigger] membership_chosen(old, mid, was, is, host, c) && new == switcher_closed(mid)
}

/// What choosing in the switcher comes to: work moves to the community pointed
/// at, if a membership there is in force, and the switcher closes.
pub open spec fn switch_concluded(old: State, new: State, was: Config, is: Config, host: Host) -> bool {
    let target = match switcher_target(old) {
        Some(vtc) => active_at(was.account.communities@, vtc),
        None => None,
    };
    match target {
        Some(i) => switched_to(old, new, was, is, host, was.account.communities@[i]),
        None => is == was && new == switcher_closed(old),
    }
}

/// Works in the community that the switcher points at, and closes it.
pub fn handle_switcher_select(state: &mut State, config: &mut Config, host: &Host)
    ensures
        switch_concluded(*old(state), *final(state), *old(config), *final(config), *host),
{
    let target = match &state.main_page.switcher {
        Some(sw) => {
            if sw.selected < sw.items.len() {
                Some(sw.items[sw.selected].vtc_did.clone())
            } else {
                None
            }
        },
        None => None,
    };
    match target {
        Some(vtc) => {
            match config.account.active_in(vtc.as_str()) {
                Some(i) => {
                    let ghost c = config.account.communities@[i as int];
                    choose_membership(state, config, i, host);
                    let ghost mid = *state;
                    state.main_page.switcher = None;
                    assert(membership_chosen(*old(state), mid, *old(config), *config, *host, c));
                    assert(*state == switcher_closed(mid));
                    return ;
                },
                None => {},
            }
        },
        None => {},
    }
    state.main_page.switcher = None;
}

// ---------------------------------------------------------------------------
// Requests that went unanswered
// ---------------------------------------------------------------------------

/// What the log says of requests that expired.
pub open spec fn expiry_line(n: nat) -> Seq<char> {
    decimal_view(n) + " pending join"@ + (if n == 1 {
        ""@
    } else {
        "s"@
    }) + " expired (no response within 7 days)."@
}

/// What a sweep for unanswered requests comes to.
pub open spec fn expiry_concluded(
    old: State,
    new: State,
    was: Config,
    is: Config,
    sessions_was: SessionManager,
    sessions_is: SessionManager,
    host: Host,
    now: i64,
    listeners: Seq<Seq<char>>,
) -> bool {
    let stale = stale_among(was.account.communities@, now);
    &&& is == (Config {
        account: Account { communities: is.account.communities, ..was.account },
        ..was
    })
    &&& is.account.communities@ == was.account.communities@.map_values(
        |c: CommunityRecord| expired(c, now),
    )
    &&& if stale.len() == 0 {
        new == old && sessions_is == sessions_was && listeners.len() == 0
    } else {
        exists|mid: State, shown: State|
            #[trigger] sessions_ended(
                old,
                mid,
                sessions_was,
                sessions_is,
                is,
                stale,
                listeners,
            ) && #[trigger] refreshed(mid, shown, is, host) && line_logged(
                shown,
                new,
                plain_line(expiry_line(stale.len())),
            )
    }
}

/// Lets requests expire that went unanswered for too long; says which listeners
/// are to be removed.
pub fn handle_pending_expiry(
    state: &mut State,
    config: &mut Config,
    save: &mut SaveScheduler,
    sessions: &mut SessionManager,
    now: i64,
    host: &Host,
) -> (r: Vec<String>)
    requires
        old(sessions).wf(),
    ensures
        final(sessions).wf(),
        expiry_concluded(
            *old(state),
            *final(state),
            *old(config),
            *final(config),
            *old(sessions),
            *final(sessions),
            *host,
            now,
            texts_view(r@),
        ),
        *final(save) == (if stale_among(old(config).account.communities@, now).len() > 0 {
            old(save).marked(host.now)
        } else {
            *old(save)
        }),
{
    let ended = config.account.expire_stale_pending(now);
    assert(memberships_view(ended@).len() == ended@.len());
    if ended.len() == 0 {
        let none: Vec<String> = Vec::new();
        assert(texts_view(none@).len() == 0);
        return none;
    }
    save.mark_dirty(host.now);
    let listeners = end_sessions(sessions, config, state, &ended);
    let ghost mid = *state;
    assert(sessions_ended(
        *old(state),
        mid,
        *old(sessions),
        *sessions,
        *config,
        memberships_view(ended@),
        texts_view(listeners@),
    ));
    state.main_page.sync_from_config(config, host);
    let ghost shown = *state;
    assert(refreshed(mid, shown, *config, *host));
    let digits = decimal_usize(ended.len());
    state.main_page.log(
        cat4(
            digits.as_str(),
            " pending join",
            if ended.len() == 1 {
                ""
            } else {
                "s"
            },
            " expired (no response within 7 days).",
        ),
    );
    listeners
}

// ---------------------------------------------------------------------------
// Sessions that come up
// ---------------------------------------------------------------------------

/// Whether a membership needs a session: it is live and its persona is at hand.
pub open spec fn needs_session(config: Config, c: CommunityRecord) -> bool {
    c.live() && held_by(config.identities@, c.persona_ref) is Some
}

/// The listener of the persona that a membership presents.
pub open spec fn listener_for(config: Config, persona: PersonaId) -> Seq<char> {
    persona_listener_view(held_by(config.identities@, persona)->0.did@)
}

/// These memberships were registered, one after the other, as far as they need a
/// session; `refused` of them found no room.
pub open spec fn sessions_registered(
    was: SessionManager,
    is: SessionManager,
    config: Config,
    s: Seq<CommunityRecord>,
    refused: int,
) -> bool
    decreases s.len(),
{
    if s.len() == 0 {
        is == was && refused == 0
    } else if !needs_session(config, s.last()) {
        sessions_registered(was, is, config, s.drop_last(), refused)
    } else {
        exists|m: SessionManager, r: RegisterOutcome|
            #[trigger] registered(
                m,
                is,
                s.last().persona_ref,
                listener_for(config, s.last().persona_ref),
                s.last().vtc_did@,
                r,
            ) && sessions_registered(
                was,
                m,
                config,
                s.drop_last(),
                if r is AtCapacity {
                    refused - 1
                } else {
                    refused
                },
            )
    }
}

/// What the log says of memberships that found no room.
pub open spec fn capacity_line(refused: nat, max: nat) -> Seq<char> {
    "Warning: "@ + decimal_view(refused) + " communit"@ + (if refused == 1 {
        "y"@
    } else {
        "ies"@
    }) + " exceeded the session limit ("@ + decimal_view(max)
        + ") and are not actively connected."@
}

/// What bringing up the sessions at the start comes to.
pub open spec fn sessions_started(old: State, new: State, config: Config, sessions: SessionManager) -> bool {
    &&& sessions.wf()
    &&& exists|start: SessionManager, refused: nat|
        #[trigger] sessions_registered(
            start,
            sessions,
            config,
            config.account.communities@,
            refused as int,
        ) && start.wf() && start@ == Map::<
            PersonaId,
            crate::session_manager::SessionView,
        >::empty() && start.max_sessions == crate::session_manager::DEFAULT_MAX_SESSIONS && (
        if refused == 0 {
            new == old
        } else {
            line_logged(
                old,
                new,
                plain_line(capacity_line(refused, sessions.max_sessions as nat)),
            )
        })
}

/// Registers the memberships that need a session at the start.
pub fn start_sessions(state: &mut State, config: &Config) -> (r: SessionManager)
    ensures
        r.wf(),
        sessions_started(*old(state), *final(state), *config, r),
{
    let mut sessions = SessionManager::default();
    let ghost start = sessions;
    let ghost s = config.account.communities@;
    let mut refused: usize = 0;
    let mut i: usize = 0;
    assert(s.take(0) =~= Seq::<CommunityRecord>::empty());
    while i < config.account.communities.len()
        invariant
            i <= s.len(),
            s == config.account.communities@,
            sessions.wf(),
            sessions.max_sessions == start.max_sessions,
            refused <= i,
            sessions_registered(start, sessions, *config, s.take(i as int), refused as int),
        decreases s.len() - i,
    {
        proof {
            assert(s.take(i + 1).drop_last() =~= s.take(i as int));
            assert(s.take(i + 1).last() == s[i as int]);
        }
        if config.account.communities[i].is_live() {
            let persona: PersonaId = config.account.communities[i].persona_ref;
            match held_position(&config.identities, persona) {
                Some(k) => {
                    let listener_id = persona_listener_id(config.identities[k].did.as_str());
                    let ghost m = sessions;
                    let ghost before = refused;
                    let r = sessions.register(
                        persona,
                        listener_id.as_str(),
                        config.account.communities[i].vtc_did.clone(),
                    );
                    if r == RegisterOutcome::AtCapacity {
                        refused = refused + 1;
                    }
                    assert(registered(
                        m,
                        sessions,
                        s[i as int].persona_ref,
                        listener_for(*config, s[i as int].persona_ref),
                        s[i as int].vtc_did@,
                        r,
                    ));
                },
                None => {},
            }
        }
        i = i + 1;
    }
    assert(s.take(i as int) =~= s);
    if refused > 0 {
        let n = decimal_usize(refused);
        let max = decimal_usize(sessions.max_sessions());
        let mut line = cat5(
            "Warning: ",
            n.as_str(),
            " communit",
            if refused == 1 {
                "y"
            } else {
                "ies"
            },
            " exceeded the session limit (",
        );
        line.append(max.as_str());
        line.append(") and are not actively connected.");
        state.main_page.log(line);
    }
    sessions
}

/// Where there was room for all, every live membership of a persona at hand is
/// served by that persona's session.
pub proof fn law_live_memberships_are_served(
    was: SessionManager,
    is: SessionManager,
    config: Config,
    s: Seq<CommunityRecord>,
    i: int,
)
    requires
        sessions_registered(was, is, config, s, 0),
        0 <= i < s.len(),
        needs_session(config, s[i]),
    ensures
        is@.contains_key(s[i].persona_ref),
        is@[s[i].persona_ref].communities.contains(s[i].vtc_did@),
    decreases s.len(),
{
    lemma_refusals(was, is, config, s, 0);
    if !needs_session(config, s.last()) {
        law_live_memberships_are_served(was, is, config, s.drop_last(), i);
    } else {
        let (m, r) = choose|m: SessionManager, r: RegisterOutcome|
            #[trigger] registered(
                m,
                is,
                s.last().persona_ref,
                listener_for(config, s.last().persona_ref),
                s.last().vtc_did@,
                r,
            ) && sessions_registered(
                was,
                m,
                config,
                s.drop_last(),
                if r is AtCapacity {
                    0 - 1
                } else {
                    0
                },
            );
        if r is AtCapacity {
            lemma_refusals(was, m, config, s.drop_last(), -1);
        } else if i < s.len() - 1 {
            law_live_memberships_are_served(was, m, config, s.drop_last(), i);
        }
    }
}

proof fn lemma_refusals(
    was: SessionManager,
    is: SessionManager,
    config: Config,
    s: Seq<CommunityRecord>,
    refused: int,
)
    requires
        sessions_registered(was, is, config, s, refused),
    ensures
        refused >= 0,
    decreases s.len(),
{
    if s.len() > 0 {
        if !needs_session(config, s.last()) {
            lemma_refusals(was, is, config, s.drop_last(), refused);
        } else {
            let (m, r) = choose|m: SessionManager, r: RegisterOutcome|
                #[trigger] registered(
                    m,
                    is,
                    s.last().persona_ref,
                    listener_for(config, s.last().persona_ref),
                    s.last().vtc_did@,
                    r,
                ) && sessions_registered(
                    was,
                    m,
                    config,
                    s.drop_last(),
                    if r is AtCapacity {
                        refused - 1
                    } else {
                        refused
                    },
                );
            lemma_refusals(
                was,
                m,
                config,
                s.drop_last(),
                if r is AtCapacity {
                    refused - 1
                } else {
                    refused
                },
            );
        }
    }
}

/// What the log says of a membership that found no room.
pub open spec fn no_room_line(max: nat) -> Seq<char> {
    "Joined, but its live session is not active yet: the session limit ("@ + decimal_view(max)
        + ") is reached. It will connect when one frees up or on next launch."@
}

/// What bringing up the session of a new membership comes to.
pub open spec fn joined_session_begun(
    old: State,
    new: State,
    was: SessionManager,
    is: SessionManager,
    config: Config,
    joined: JoinedSession,
    r: Option<ListenerConfig>,
) -> bool {
    exists|m: SessionManager, outcome: RegisterOutcome|
        #[trigger] registered(
            was,
            m,
            joined.persona_id,
            persona_listener_view(joined.persona_did@),
            joined.vtc_did@,
            outcome,
        ) && match outcome {
            RegisterOutcome::JoinedExisting => is == m && r is None && line_logged(
                old,
                new,
                plain_line("New community attached to an existing live session."@),
            ),
            RegisterOutcome::AtCapacity => is == m && r is None && line_logged(
                old,
                new,
                plain_line(no_room_line(m.max_sessions as nat)),
            ),
            RegisterOutcome::Created => match held_by(config.identities@, joined.persona_id) {
                Some(identity) => is == m && new == old && (r matches Some(l) && l@
                    == persona_line(config, identity)),
                None => r is None && exists|ended: Option<Session>|
                    #[trigger] deregistered(m, is, joined.persona_id, joined.vtc_did@, ended)
                        && line_logged(
                        old,
                        new,
                        plain_line(
                            "Joined, but its identity could not be resolved to start a live session."@,
                        ),
                    ),
            },
        }
}

/// Registers the session of a new membership; says which listener is to be
/// added.
pub fn register_joined_session(
    sessions: &mut SessionManager,
    config: &Config,
    joined: &JoinedSession,
    state: &mut State,
) -> (r: Option<ListenerConfig>)
    requires
        old(sessions).wf(),
    ensures
        final(sessions).wf(),
        joined_session_begun(
            *old(state),
            *final(state),
            *old(sessions),
            *final(sessions),
            *config,
            *joined,
            r,
        ),
{
    let listener_id = persona_listener_id(joined.persona_did.as_str());
    let outcome = sessions.register(
        joined.persona_id,
        listener_id.as_str(),
        joined.vtc_did.clone(),
    );
    let ghost m = *sessions;
    assert(registered(
        *old(sessions),
        m,
        joined.persona_id,
        persona_listener_view(joined.persona_did@),
        joined.vtc_did@,
        outcome,
    ));
    match outcome {
        RegisterOutcome::JoinedExisting => {
            state.main_page.log(owned("New community attached to an existing live session."));
            None
        },
        RegisterOutcome::AtCapacity => {
            let max = decimal_usize(sessions.max_sessions());
            state.main_page.log(
                cat3(
                    "Joined, but its live session is not active yet: the session limit (",
                    max.as_str(),
                    ") is reached. It will connect when one frees up or on next launch.",
                ),
            );
            None
        },
        RegisterOutcome::Created => match persona_listener_config_for(config, joined.persona_id) {
            Some(l) => Some(l),
            None => {
                let ended = sessions.deregister(joined.persona_id, joined.vtc_did.as_str());
                assert(deregistered(
                    m,
                    *sessions,
                    joined.persona_id,
                    joined.vtc_did@,
                    ended,
                ));
                state.main_page.log(
                    owned(
                        "Joined, but its identity could not be resolved to start a live session.",
                    ),
                );
                None
            },
        },
    }
}

/// What it comes to that the listener of a new membership was added, or not.
pub open spec fn joined_session_concluded(
    old: State,
    new: State,
    was: SessionManager,
    is: SessionManager,
    listener_id: Seq<char>,
    added: Result<(), ErrorText>,
) -> bool {
    match added {
        Ok(_) => is == was && line_logged(
            old,
            new,
            plain_line("New community session connecting…"@),
        ),
        Err(e) => (exists|changed: bool|
            #[trigger] was.restated(
                is,
                listener_id,
                SessionStatusView::Failed(e.alternate@),
                changed,
            )) && line_logged(
            old,
            new,
            plain_line(
                "Joined, but couldn't start its live session now (it will connect on next launch): "@
                    + e.display@,
            ),
        ),
    }
}

/// Takes note of what came of adding the listener of a new membership.
pub fn joined_session_started(
    sessions: &mut SessionManager,
    state: &mut State,
    listener_id: &str,
    added: Result<(), ErrorText>,
)
    requires
        old(sessions).wf(),
    ensures
        final(sessions).wf(),
        joined_session_concluded(
            *old(state),
            *final(state),
            *old(sessions),
            *final(sessions),
            listener_id@,
            added,
        ),
{
    match added {
        Ok(_) => state.main_page.log(owned("New community session connecting…")),
        Err(e) => {
            let changed = sessions.mark_failed(listener_id, e.alternate.clone());
            assert(old(sessions).restated(
                *sessions,
                listener_id@,
                SessionStatusView::Failed(e.alternate@),
                changed,
            ));
            state.main_page.log(
                cat2(
                    "Joined, but couldn't start its live session now (it will connect on next launch): ",
                    e.display.as_str(),
                ),
            );
        },
    }
}

// ---------------------------------------------------------------------------
// What the panel is for
// ---------------------------------------------------------------------------

/// A membership that was left once its community was told is over: the record
/// stays, as left, its persona's session serves the community no more, and it is
/// to be saved. Where the community could not be told, nothing changes.
pub proof fn law_left_membership_is_over(
    state: &mut State,
    config: &mut Config,
    save: &mut SaveScheduler,
    sessions: &mut SessionManager,
    job: &LeaveJob,
    sent: Result<(), ErrorText>,
    host: &Host,
    r: Option<String>,
    i: int,
)
    requires
        old(sessions).wf(),
        call_ensures(finish_leave, (state, config, save, sessions, job, sent, host), r),
        membership_at(old(config).account.communities@, job.vtc_did@, job.persona) == Some(i),
    ensures
        sent is Err ==> *final(config) == *old(config) && *final(sessions) == *old(sessions)
            && r is None && *final(save) == *old(save),
        sent is Ok ==> final(config).account.communities@.len() == old(config).account.communities@.len() && final(config).account.communities@[i].status is Left
            && !final(config).account.communities@[i].live() && final(config).account.communities@[i].vtc_did@ == job.vtc_did@ && final(save).dirty && (final(sessions)@.contains_key(job.persona) ==> !final(sessions)@[job.persona].communities.contains(
            job.vtc_did@,
        )),
        forall|j: int|
            0 <= j < old(config).account.communities@.len() && j != i ==> #[trigger] final(config).account.communities@[j] == old(config).account.communities@[j],
{
    lemma_membership_found(old(config).account.communities@, job.vtc_did@, job.persona);
}

/// Leaving is asked of the community of the row, under the DID of the persona
/// that is its member, and only where the membership is in force; it stays in
/// force until the community was told.
pub proof fn law_leaving_is_asked_of_the_community(
    state: &mut State,
    config: &Config,
    index: usize,
    r: Option<LeaveJob>,
    i: usize,
)
    requires
        call_ensures(handle_leave_community, (state, config, index), r),
        row_position(
            config.account.communities@,
            old(state).communities().show_archived,
            index as int,
        ) == Some(i),
    ensures
        r matches Some(job) ==> config.account.communities@[i as int].status is Active
            && job.vtc_did@ == config.account.communities@[i as int].vtc_did@ && job.persona
            == config.account.communities@[i as int].persona_ref && (held_by(
            config.identities@,
            job.persona,
        ) matches Some(who) && job.member_did@ == who.did@),
        config.account.communities@[i as int].status is Active && held_by(
            config.identities@,
            config.account.communities@[i as int].persona_ref,
        ) is Some ==> r is Some,
        final(state).communities().confirm_leave is None,
{
}

/// A request that is withdrawn is over: its record stays, as withdrawn, and its
/// community is served no more. A membership that was answered is not touched by
/// it.
pub proof fn law_withdrawn_request_is_over(
    state: &mut State,
    config: &mut Config,
    save: &mut SaveScheduler,
    sessions: &mut SessionManager,
    index: usize,
    host: &Host,
    r: Option<String>,
    i: usize,
)
    requires
        old(sessions).wf(),
        call_ensures(handle_withdraw_join, (state, config, save, sessions, index, host), r),
        row_position(
            old(config).account.communities@,
            old(state).communities().show_archived,
            index as int,
        ) == Some(i),
        i < old(config).account.communities@.len(),
    ensures
        old(config).account.communities@[i as int].status is Pending ==> final(config).account.communities@[i as int].status is Withdrawn && !final(config).account.communities@[i as int].live() && final(save).dirty && (final(sessions)@.contains_key(old(config).account.communities@[i as int].persona_ref) ==> !final(sessions)@[old(config).account.communities@[i as int].persona_ref].communities.contains(
            old(config).account.communities@[i as int].vtc_did@,
        )),
        old(config).account.communities@[i as int].status !is Pending ==> *final(config) == *old(config) && *final(sessions) == *old(sessions) && r is None && *final(save) == *old(save),
        forall|j: int|
            0 <= j < old(config).account.communities@.len() && j != i ==> #[trigger] final(config).account.communities@[j] == old(config).account.communities@[j],
{
}

/// Archiving hides a membership that is over and keeps its record; starring flips
/// the star, and acknowledging takes the attention away. None of them ends or
/// begins a membership.
pub proof fn law_marks_leave_memberships_as_they_are(
    a: &mut State,
    archived: &mut Config,
    s1: &mut SaveScheduler,
    b: &mut State,
    starred: &mut Config,
    s2: &mut SaveScheduler,
    c: &mut State,
    seen: &mut Config,
    s3: &mut SaveScheduler,
    index: usize,
    host: &Host,
    j: int,
)
    requires
        call_ensures(handle_archive_community, (a, archived, s1, index, host), ()),
        call_ensures(handle_toggle_favourite, (b, starred, s2, index, host), ()),
        call_ensures(handle_acknowledge_community, (c, seen, s3, index, host), ()),
    ensures
        final(archived).account.communities@.len() == old(archived).account.communities@.len(),
        0 <= j < old(archived).account.communities@.len() ==> final(archived).account.communities@[j].status == old(archived).account.communities@[j].status && final(archived).account.communities@[j].vtc_did == old(archived).account.communities@[j].vtc_did && (
        final(archived).account.communities@[j] != old(archived).account.communities@[j] ==> final(archived).account.communities@[j].archived && !final(archived).account.communities@[j].live()),
        final(starred).account.communities@.len() == old(starred).account.communities@.len(),
        0 <= j < old(starred).account.communities@.len() ==> final(starred).account.communities@[j].status == old(starred).account.communities@[j].status && (final(starred).account.communities@[j] != old(starred).account.communities@[j] ==> final(starred).account.communities@[j].favourite == !old(starred).account.communities@[j].favourite),
        final(seen).account.communities@.len() == old(seen).account.communities@.len(),
        0 <= j < old(seen).account.communities@.len() ==> final(seen).account.communities@[j].status == old(seen).account.communities@[j].status && (final(seen).account.communities@[j] != old(seen).account.communities@[j] ==> !final(seen).account.communities@[j].attention),
{
    lemma_row_valid(*old(archived), old(a).communities().show_archived, index);
    lemma_row_valid(*old(starred), old(b).communities().show_archived, index);
    lemma_row_valid(*old(seen), old(c).communities().show_archived, index);
    if let Some(i) = row_at(*old(a), *old(archived), index) {
        let r = old(archived).account.communities@[i as int];
        lemma_membership_found(old(archived).account.communities@, r.vtc_did@, r.persona_ref);
    }
}

proof fn lemma_row_valid(config: Config, archived: bool, index: usize)
    ensures
        row_position(config.account.communities@, archived, index as int) matches Some(i) ==> i
            < config.account.communities@.len(),
{
    law_display_order(config.account.communities@, archived);
    assert(config.account.communities@.len() == config.account.communities.len());
}

/// Work moves to the membership in the row, if it is in force: its community is
/// selected and its persona is the active one. One that is not in force is not
/// worked in.
pub proof fn law_work_moves_to_the_row(
    state: &mut State,
    config: &mut Config,
    index: usize,
    host: &Host,
    i: usize,
)
    requires
        call_ensures(handle_set_active_community, (state, config, index, host), ()),
        row_position(
            old(config).account.communities@,
            old(state).communities().show_archived,
            index as int,
        ) == Some(i),
    ensures
        old(config).account.communities@[i as int].status is Active ==> final(config).active_persona
            == Some(old(config).account.communities@[i as int].persona_ref) && (final(state).selected_community matches Some(m) && m.0@ == old(config).account.communities@[i as int].vtc_did@ && m.1 == old(config).account.communities@[i as int].persona_ref),
        old(config).account.communities@[i as int].status !is Active ==> *final(config) == *old(config) && *final(state) == *old(state),
        final(config).account == old(config).account,
{
}

/// The switcher moves work to the community it points at, where a membership
/// there is in force, and closes.
pub proof fn law_switcher_moves_to_its_selection(
    state: &mut State,
    config: &mut Config,
    host: &Host,
    i: int,
)
    requires
        call_ensures(handle_switcher_select, (state, config, host), ()),
        old(state).main_page.switcher matches Some(sw) && sw.selected < sw.items@.len() && active_at(
            old(config).account.communities@,
            sw.items@[sw.selected as int].vtc_did@,
        ) == Some(i),
    ensures
        final(config).active_persona == Some(old(config).account.communities@[i].persona_ref),
        final(state).selected_community matches Some(m) && m.0@ == old(config).account.communities@[i].vtc_did@ && m.1 == old(config).account.communities@[i].persona_ref,
        final(state).main_page.switcher is None,
        final(config).account == old(config).account,
{
}

/// What the switcher offers are memberships in force, each by its community, and
/// it points at the one worked in, where that is among them.
pub proof fn law_switcher_offers_what_is_in_force(state: &mut State, config: &Config, k: int)
    requires
        call_ensures(handle_open_switcher, (state, config), ()),
        old(state).main_page.switcher is None,
        final(state).main_page.switcher is Some,
        0 <= k < final(state).main_page.switcher->0.items@.len(),
    ensures
        exists|i: int|
            0 <= i < config.account.communities@.len() && (
            #[trigger] config.account.communities@[i]).status is Active
                && config.account.communities@[i].vtc_did@ == final(state).main_page.switcher->0.items@[k].vtc_did@,
        final(state).main_page.switcher->0.selected < final(state).main_page.switcher->0.items@.len(),
{
    let s = config.account.communities@;
    let order = crate::account::display_order(s, old(state).communities().show_archived);
    let lines = switcher_lines(s, order, current_vtc(*old(state)));
    let items = final(state).main_page.switcher->0.items@;
    law_display_order(s, old(state).communities().show_archived);
    lemma_lines_in_force(s, order, current_vtc(*old(state)), k);
    assert(switcher_view(items)[k] == lines[k]);
    assert(lines.len() == final(state).main_page.switcher->0.items.len());
    lemma_current_row(lines, 0);
}

proof fn lemma_current_row(s: Seq<SwitcherLine>, from: int)
    requires
        s.len() > 0,
        s.len() <= usize::MAX,
        0 <= from,
    ensures
        current_row_from(s, from) < s.len(),
    decreases s.len() - from,
{
    if from < s.len() && !s[from].is_current {
        lemma_current_row(s, from + 1);
    }
}

proof fn lemma_lines_in_force(
    s: Seq<CommunityRecord>,
    order: Seq<int>,
    current: Option<Seq<char>>,
    k: int,
)
    requires
        0 <= k < switcher_lines(s, order, current).len(),
        forall|j: int| 0 <= j < order.len() ==> 0 <= (#[trigger] order[j]) < s.len(),
    ensures
        exists|i: int|
            0 <= i < s.len() && (#[trigger] s[i]).status is Active && s[i].vtc_did@
                == switcher_lines(s, order, current)[k].vtc_did,
    decreases order.len(),
{
    let d = order.drop_last();
    let rest = switcher_lines(s, d, current);
    if k < rest.len() {
        assert forall|j: int| 0 <= j < d.len() implies 0 <= (#[trigger] d[j]) < s.len() by {
            assert(d[j] == order[j]);
        }
        lemma_lines_in_force(s, d, current, k);
    } else {
        assert(order[order.len() - 1] == order.last());
        assert(s[order.last()].status is Active);
    }
}

/// The sweep ends the sessions of what expired: no membership in the registry is
/// left behind by it, and requests that are not a week old keep theirs.
pub proof fn law_sweep_touches_only_stale_requests(
    state: &mut State,
    config: &mut Config,
    save: &mut SaveScheduler,
    sessions: &mut SessionManager,
    now: i64,
    host: &Host,
    r: Vec<String>,
    i: int,
)
    requires
        old(sessions).wf(),
        call_ensures(handle_pending_expiry, (state, config, save, sessions, now, host), r),
        0 <= i < old(config).account.communities@.len(),
    ensures
        final(config).account.communities@.len() == old(config).account.communities@.len(),
        final(config).account.communities@[i].status is Expired && old(config).account.communities@[i].status !is Expired ==> old(config).account.communities@[i].status is Pending && (old(config).account.communities@[i].requested_at matches Some(t) && now - t >= 604800) && final(config).account.communities@[i].attention,
        old(config).account.communities@[i].status is Active ==> final(config).account.communities@[i] == old(config).account.communities@[i],
        final(config).account.personas == old(config).account.personas,
        final(config).private == old(config).private,
{
}

/// The session of a new membership is brought up: where the persona has one, it
/// serves the new community too; otherwise, with room and an identity, there is a
/// new one, and the listener to add is that persona's.
pub proof fn law_joined_membership_gets_its_session(
    sessions: &mut SessionManager,
    config: &Config,
    joined: &JoinedSession,
    state: &mut State,
    r: Option<ListenerConfig>,
)
    requires
        old(sessions).wf(),
        call_ensures(register_joined_session, (sessions, config, joined, state), r),
    ensures
        old(sessions)@.contains_key(joined.persona_id) ==> final(sessions)@[joined.persona_id].communities.contains(joined.vtc_did@) && r is None,
        r matches Some(l) ==> final(sessions)@.contains_key(joined.persona_id) && final(sessions)@[joined.persona_id].communities.contains(joined.vtc_did@) && (held_by(
            config.identities@,
            joined.persona_id,
        ) matches Some(who) && l@ == persona_line(*config, who)),
        !old(sessions)@.contains_key(joined.persona_id) && old(sessions).sessions@.len() < old(sessions).max_sessions && held_by(config.identities@, joined.persona_id) is Some ==> r is Some,
        forall|p: PersonaId|
            p != joined.persona_id && old(sessions)@.contains_key(p) ==> #[trigger] final(sessions)@[p] == old(sessions)@[p],
{
}

proof fn lemma_all_find_room(
    was: SessionManager,
    is: SessionManager,
    config: Config,
    s: Seq<CommunityRecord>,
    refused: int,
)
    requires
        sessions_registered(was, is, config, s, refused),
        was.sessions@.len() == 0,
        s.len() <= was.max_sessions,
    ensures
        refused == 0,
        is.sessions@.len() <= s.len(),
        is.max_sessions == was.max_sessions,
    decreases s.len(),
{
    if s.len() > 0 {
        if !needs_session(config, s.last()) {
            lemma_all_find_room(was, is, config, s.drop_last(), refused);
        } else {
            let (m, r) = choose|m: SessionManager, r: RegisterOutcome|
                #[trigger] registered(
                    m,
                    is,
                    s.last().persona_ref,
                    listener_for(config, s.last().persona_ref),
                    s.last().vtc_did@,
                    r,
                ) && sessions_registered(
                    was,
                    m,
                    config,
                    s.drop_last(),
                    if r is AtCapacity {
                        refused - 1
                    } else {
                        refused
                    },
                );
            lemma_all_find_room(
                was,
                m,
                config,
                s.drop_last(),
                if r is AtCapacity {
                    refused - 1
                } else {
                    refused
                },
            );
        }
    }
}

/// Every live membership whose persona has an identity is served from the start,
/// by that persona's session, where there is a session for each of them to be
/// had; there are never more than 32.
pub proof fn law_start_serves_live_memberships(
    state: &mut State,
    config: &Config,
    r: SessionManager,
    i: int,
)
    requires
        call_ensures(start_sessions, (state, config), r),
        0 <= i < config.account.communities@.len(),
        config.account.communities@[i].live(),
        held_by(config.identities@, config.account.communities@[i].persona_ref) is Some,
        config.account.communities@.len() <= 32,
    ensures
        r@.contains_key(config.account.communities@[i].persona_ref),
        r@[config.account.communities@[i].persona_ref].communities.contains(
            config.account.communities@[i].vtc_did@,
        ),
        r@.dom().len() <= 32,
{
    let s = config.account.communities@;
    let (start, refused) = choose|start: SessionManager, refused: nat|
        #[trigger] sessions_registered(start, r, *config, s, refused as int) && start.wf()
            && start@ == Map::<
            PersonaId,
            crate::session_manager::SessionView,
        >::empty() && start.max_sessions == crate::session_manager::DEFAULT_MAX_SESSIONS;
    if start.sessions@.len() > 0 {
        assert(start@.contains_key(start.sessions@[0].persona));
    }
    lemma_all_find_room(start, r, *config, s, refused as int);
    law_live_memberships_are_served(start, r, *config, s, i);
    crate::session_manager::law_sessions_are_bounded(r);
}

/// A membership that is in force or asked for is never deleted, wherever its row
/// stands; deleting another one awaits saving and touches no persona, key or
/// relationship.
pub proof fn law_live_memberships_are_not_deleted(
    state: &mut State,
    config: &mut Config,
    save: &mut SaveScheduler,
    sessions: &mut SessionManager,
    index: usize,
    host: Host,
    r: Option<String>,
    row: usize,
)
    requires
        old(sessions).wf(),
        call_ensures(handle_delete_community, (state, config, save, sessions, index, &host), r),
        row_at(*old(state), *old(config), index) == Some(row),
        membership_at(
            old(config).account.communities@,
            old(config).account.communities@[row as int].vtc_did@,
            old(config).account.communities@[row as int].persona_ref,
        ) == Some(row as int),
    ensures
        old(config).account.communities@[row as int].status is Active
            || old(config).account.communities@[row as int].status is Pending
            ==> *final(config) == *old(config) && *final(save) == *old(save),
        *final(config) != *old(config) ==> final(save).dirty,
        final(config).account.personas == old(config).account.personas,
        final(config).private == old(config).private,
        final(config).key_info == old(config).key_info,
{
}

} // verus!
