//! What reaches the main loop from outside: messages, pings, listeners, saves,
//! and the progress of startup.

use crate::config::Config;
use crate::didcomm::{
    build_trust_pong, BodyView, Envelope, InboundMessage, ListenerEvent, OutboundView,
};
use crate::dispatch_util::{line_logged, lines_logged, refreshed, refreshed_and_logged};
use crate::display::{display_name_of, log_did, log_did_view, resolve_did_to_display};
use crate::ledger::{by_remote_did, PersonaId, Task, TaskType};
use crate::main_page::{
    detailed_line, error_line, plain_line, push_line, push_lines, ErrorText, LogLine,
    MainMenuConfigState, MainPageState,
};
use crate::menu::MenuPanelState;
use crate::message_dispatch::{
    process_inbound_message, processed, InboundKind, Processed, Verdict,
};
use crate::save_coalesce::SaveScheduler;
use crate::session_manager::{SessionManager, SessionStatusView};
use crate::state::{
    loading_view, ActivePage, ConnectionState, LoadingProgress, MediatorStatus, State, StatusView,
};
use crate::sync::Host;
use crate::text::{
    after_last_slash, cat2, cat3, cat4, cat5, decimal, decimal_view, last_segment, opt_view, owned,
    same,
};
use vstd::prelude::*;

verus! {

// ---------------------------------------------------------------------------
// Messages
// ---------------------------------------------------------------------------

/// The sender of a message, or a word for none.
pub open spec fn sender_view(message: InboundMessage) -> Seq<char> {
    match message.from {
        Some(s) => s@,
        None => "unknown"@,
    }
}

/// The thread of a message, or a word for none.
pub open spec fn thread_view(message: InboundMessage) -> Seq<char> {
    match message.thid {
        Some(s) => s@,
        None => "none"@,
    }
}

/// What the log says of a message.
pub open spec fn message_detail(heading: Seq<char>, message: InboundMessage) -> Seq<char> {
    heading + "Type:    "@ + message.typ@ + "\nFrom:    "@ + sender_view(message)
        + "\nTo:      "@ + crate::message_dispatch::first_to(message) + "\nthid:    "@
        + thread_view(message)
}

fn describe_message(heading: &str, message: &InboundMessage) -> (r: String)
    ensures
        r@ == message_detail(heading@, *message),
{
    let mut s = cat4(heading, "Type:    ", message.typ.as_str(), "\nFrom:    ");
    match &message.from {
        Some(from) => s.append(from.as_str()),
        None => s.append("unknown"),
    }
    s.append("\nTo:      ");
    if message.to.len() > 0 {
        s.append(message.to[0].as_str());
    } else {
        assert(s@ + Seq::<char>::empty() =~= s@);
    }
    s.append("\nthid:    ");
    match &message.thid {
        Some(thid) => s.append(thid.as_str()),
        None => s.append("none"),
    }
    s
}

/// What it comes to that a message arrived: one that changed the configuration
/// is shown and logged, one in error is logged.
pub open spec fn message_concluded(
    old: State,
    new: State,
    is: Config,
    host: Host,
    message: InboundMessage,
    r: Processed,
) -> bool {
    match r {
        Ok(o) => if o.changed {
            refreshed_and_logged(
                old,
                new,
                is,
                host,
                detailed_line(
                    "Inbound: "@ + after_last_slash(message.typ@),
                    message_detail(
                        "Inbound DIDComm Message\n───────────────────────\n"@,
                        message,
                    ),
                ),
            )
        } else {
            new == old
        },
        Err(e) => line_logged(
            old,
            new,
            detailed_line(
                "Message error: "@ + e.display@,
                message_detail("Failed Inbound Message\n──────────────────────\n"@, message)
                    + "\nError:   "@ + e.display@,
            ),
        ),
    }
}

/// Processes a message that arrived, shows what it changed and logs it; says what
/// is left to be done outside.
pub fn on_inbound_message(
    state: &mut State,
    config: &mut Config,
    save: &mut SaveScheduler,
    message: &InboundMessage,
    kind: InboundKind,
    verdict: Verdict,
    host: &Host,
) -> (r: Processed)
    ensures
        processed(*old(config), *final(config), *message, kind, verdict, r),
        message_concluded(*old(state), *final(state), *final(config), *host, *message, r),
        *final(save) == (if r matches Ok(o) && o.changed {
            old(save).marked(host.now)
        } else {
            *old(save)
        }),
{
    let r = process_inbound_message(config, message, kind, verdict);
    match &r {
        Ok(o) => {
            if o.changed {
                save.mark_dirty(host.now);
                state.main_page.sync_from_config(config, host);
                let ghost shown = *state;
                assert(refreshed(*old(state), shown, *config, *host));
                let kind = last_segment(message.typ.as_str());
                let detail = describe_message(
                    "Inbound DIDComm Message\n───────────────────────\n",
                    message,
                );
                state.main_page.log_detailed(cat2("Inbound: ", kind.as_str()), detail);
            }
        },
        Err(e) => {
            let mut detail = describe_message(
                "Failed Inbound Message\n──────────────────────\n",
                message,
            );
            detail.append("\nError:   ");
            detail.append(e.display.as_str());
            state.main_page.log_detailed(cat2("Message error: ", e.display.as_str()), detail);
        },
    }
    r
}

// ---------------------------------------------------------------------------
// Pings
// ---------------------------------------------------------------------------

/// Whether a ping is answered: its sender is our mediator or the other side of
/// an established relationship.
pub open spec fn answers_ping(config: Config, sender: Seq<char>) -> bool {
    ||| sender == config.mediator_view()
    ||| by_remote_did(config.private.relationships@, sender) matches Some(rel) && rel.state
        is Established
}

/// The sender of a ping, or a word for none.
pub open spec fn pinger(from: Option<String>) -> Seq<char> {
    match from {
        Some(s) => s@,
        None => "unknown"@,
    }
}

fn pinger_text(from: &Option<String>) -> (r: String)
    ensures
        r@ == pinger(*from),
{
    match from {
        Some(s) => s.clone(),
        None => owned("unknown"),
    }
}

fn is_answered(config: &Config, sender: &str) -> (r: bool)
    ensures
        r == answers_ping(*config, sender@),
{
    if same(sender, config.mediator_did()) {
        return true;
    }
    match config.private.relationships.find_by_remote_did(sender) {
        Some(rel) => rel.state == crate::ledger::RelationshipState::Established,
        None => false,
    }
}

/// The answer to a ping, if it gets one: it goes out over the listener that the
/// ping came in by, under that listener's DID.
pub fn pong_for(
    config: &Config,
    from: &Option<String>,
    listener_id: &str,
    listener_did: Option<String>,
    message_id: &str,
) -> (r: Option<Envelope>)
    ensures
        r is Some <==> *from is Some && answers_ping(*config, pinger(*from)),
        r matches Some(e) ==> {
            &&& e.listener_id@ == listener_id@
            &&& e.to_did == from->0
            &&& e.message@ == (OutboundView {
                from: match listener_did {
                    Some(d) => d@,
                    None => config.persona_did_view(),
                },
                to: from->0@,
                thid: Some(message_id@),
                body: BodyView::TrustPong,
            })
            &&& e.message.stamped(None)
        },
{
    match from {
        None => None,
        Some(sender) => {
            if !is_answered(config, sender.as_str()) {
                return None;
            }
            let us = match listener_did {
                Some(d) => d,
                None => owned(config.persona_did()),
            };
            let message = build_trust_pong(us.as_str(), sender.as_str(), message_id);
            Some(Envelope { listener_id: owned(listener_id), to_did: sender.clone(), message })
        },
    }
}

/// What the log says of a ping: that it was answered, with an error before it
/// where the answer was not sent, or that it was ignored.
pub open spec fn ping_log(
    config: Config,
    from: Option<String>,
    listener_id: Seq<char>,
    failure: Option<ErrorText>,
) -> Seq<LogLine> {
    let sender = pinger(from);
    let name = display_name_of(config, sender);
    if answers_ping(config, sender) {
        (match failure {
            Some(e) => seq![error_line("Failed to send pong"@, e)],
            None => Seq::empty(),
        }).push(
            detailed_line(
                "Ping from "@ + name + " — pong sent"@,
                "Trust-Ping Received\n───────────────────\nFrom (display):  "@ + name
                    + "\nFrom (DID):      "@ + sender + "\nListener:        "@ + listener_id
                    + "\nResponse:        pong sent"@,
            ),
        )
    } else {
        seq![
            detailed_line(
                "Ping from "@ + log_did_view(sender) + " — ignored"@,
                "Trust-Ping Rejected\n───────────────────\nFrom (DID):      "@ + sender
                    + "\nReason:          no established relationship"@,
            ),
        ]
    }
}

/// Logs a ping; `failure` says why its answer was not sent, if it was not.
pub fn on_trust_ping(
    state: &mut State,
    config: &Config,
    from: &Option<String>,
    listener_id: &str,
    failure: Option<ErrorText>,
)
    ensures
        lines_logged(
            *old(state),
            *final(state),
            ping_log(*config, *from, listener_id@, failure),
        ),
{
    let sender = pinger_text(from);
    let ghost start = state.main_page.log_lines();
    let ghost lines = ping_log(*config, *from, listener_id@, failure);
    if is_answered(config, sender.as_str()) {
        match failure {
            Some(e) => {
                state.main_page.log_error("Failed to send pong", &e);
                proof {
                    crate::main_page::lemma_push_lines_one(
                        start,
                        error_line("Failed to send pong"@, e),
                    );
                    assert(lines.drop_last() =~= seq![error_line("Failed to send pong"@, e)]);
                }
            },
            None => {
                assert(lines.drop_last() =~= Seq::<LogLine>::empty());
            },
        }
        let ghost middle = state.main_page.log_lines();
        assert(middle == push_lines(start, lines.drop_last()));
        let name = resolve_did_to_display(config, sender.as_str());
        let mut detail = cat5(
            "Trust-Ping Received\n───────────────────\nFrom (display):  ",
            name.as_str(),
            "\nFrom (DID):      ",
            sender.as_str(),
            "\nListener:        ",
        );
        detail.append(listener_id);
        detail.append("\nResponse:        pong sent");
        state.main_page.log_detailed(
            cat3("Ping from ", name.as_str(), " — pong sent"),
            detail,
        );
        assert(state.main_page.log_lines() == push_line(middle, lines.last()));
    } else {
        let shown = log_did(sender.as_str());
        state.main_page.log_detailed(
            cat3("Ping from ", shown.as_str(), " — ignored"),
            cat3(
                "Trust-Ping Rejected\n───────────────────\nFrom (DID):      ",
                sender.as_str(),
                "\nReason:          no established relationship",
            ),
        );
        proof {
            crate::main_page::lemma_push_lines_one(start, lines[0]);
            assert(lines =~= seq![lines[0]]);
        }
    }
}

/// The name of whom the first ping that awaits its answer was sent to.
pub open spec fn pinged_name(config: Config, s: Seq<Task>) -> Seq<char>
    decreases s.len(),
{
    if s.len() == 0 {
        "unknown"@
    } else {
        match s[0].type_ {
            TaskType::TrustPing { to, .. } => display_name_of(config, to@),
            _ => pinged_name(config, s.skip(1)),
        }
    }
}

fn find_pinged(config: &Config) -> (r: String)
    ensures
        r@ == pinged_name(*config, config.private.tasks@),
{
    let ghost all = config.private.tasks@;
    let mut i: usize = 0;
    assert(all.skip(0) =~= all);
    while i < config.private.tasks.tasks.len()
        invariant
            i <= all.len(),
            all == config.private.tasks.tasks@,
            all == config.private.tasks@,
            pinged_name(*config, all) == pinged_name(*config, all.skip(i as int)),
        decreases all.len() - i,
    {
        proof {
            assert(all.skip(i as int)[0] == all[i as int]);
            assert(all.skip(i as int).skip(1) =~= all.skip(i + 1));
        }
        match &config.private.tasks.tasks[i].type_ {
            TaskType::TrustPing { to, .. } => {
                return resolve_did_to_display(config, to.as_str());
            },
            _ => {},
        }
        i = i + 1;
    }
    owned("unknown")
}

/// Who answered a ping: the sender, where the answer names one, and else whoever
/// was pinged.
pub open spec fn pong_name(config: Config, from: Option<String>) -> Seq<char> {
    match from {
        Some(s) => if s@.len() == 0 {
            pinged_name(config, config.private.tasks@)
        } else {
            display_name_of(config, s@)
        },
        None => pinged_name(config, config.private.tasks@),
    }
}

/// How long a ping took.
pub open spec fn latency(sent_at: Option<u64>, now: u64) -> Option<u64> {
    match sent_at {
        Some(t) => Some(crate::state::span(t, now)),
        None => None,
    }
}

/// What the log says of the answer to a ping.
pub open spec fn pong_line(config: Config, from: Option<String>, ms: Option<u64>) -> LogLine {
    let name = pong_name(config, from);
    detailed_line(
        "Pong from "@ + name + (match ms {
            Some(v) => " ("@ + decimal_view(v as nat) + "ms)"@,
            None => ""@,
        }),
        "Trust-Pong Received\n───────────────────\nFrom (display):  "@ + name
            + "\nFrom (DID):      "@ + (match from {
            Some(s) => s@,
            None => ""@,
        }) + "\nLatency:         "@ + (match ms {
            Some(v) => decimal_view(v as nat) + "ms"@,
            None => "n/a"@,
        }),
    )
}

/// Logs the answer to a ping, with how long it took.
pub fn on_trust_pong(
    state: &mut State,
    config: &Config,
    from: &Option<String>,
    ping_sent_at: &mut Option<u64>,
    now: u64,
)
    ensures
        *final(ping_sent_at) is None,
        line_logged(
            *old(state),
            *final(state),
            pong_line(*config, *from, latency(*old(ping_sent_at), now)),
        ),
{
    let name = match from {
        Some(s) => {
            if s.as_str().is_empty() {
                find_pinged(config)
            } else {
                resolve_did_to_display(config, s.as_str())
            }
        },
        None => find_pinged(config),
    };
    let ms: Option<u64> = match *ping_sent_at {
        Some(t) => Some(crate::state::elapsed(t, now)),
        None => None,
    };
    *ping_sent_at = None;
    let mut summary = cat2("Pong from ", name.as_str());
    let mut detail = cat3(
        "Trust-Pong Received\n───────────────────\nFrom (display):  ",
        name.as_str(),
        "\nFrom (DID):      ",
    );
    match from {
        Some(s) => detail.append(s.as_str()),
        None => detail.append(""),
    }
    detail.append("\nLatency:         ");
    match ms {
        Some(v) => {
            let digits = decimal(v);
            let text = cat3(" (", digits.as_str(), "ms)");
            summary.append(text.as_str());
            let text = cat2(digits.as_str(), "ms");
            detail.append(text.as_str());
        },
        None => {
            summary.append("");
            detail.append("n/a");
        },
    }
    state.main_page.log_detailed(summary, detail);
}

// ---------------------------------------------------------------------------
// Listeners
// ---------------------------------------------------------------------------

/// The listener that an event is about, and what its session comes to.
pub open spec fn session_event(ev: ListenerEvent) -> Option<(Seq<char>, SessionStatusView)> {
    match ev {
        ListenerEvent::Connected { listener_id } => Some(
            (listener_id@, SessionStatusView::Connected),
        ),
        ListenerEvent::Disconnected { listener_id, error } => Some(
            (
                listener_id@,
                match error {
                    Some(e) => SessionStatusView::Failed(e@),
                    None => SessionStatusView::Disconnected,
                },
            ),
        ),
        ListenerEvent::Restarting { listener_id, .. } => Some(
            (listener_id@, SessionStatusView::Disconnected),
        ),
        ListenerEvent::Lagged(_) => None,
    }
}

/// The connection as all sessions together make it.
pub open spec fn connection_of(sessions: SessionManager, c: ConnectionState) -> ConnectionState {
    if sessions.some_connected() {
        ConnectionState { status: MediatorStatus::Connected, messaging_active: true }
    } else if sessions.sessions@.len() > 0 {
        ConnectionState { status: MediatorStatus::Connecting, messaging_active: false }
    } else {
        c
    }
}

/// What an event of a listener comes to: its session takes on a status, and where
/// that is another one, the connection follows.
pub open spec fn listener_concluded(
    old: State,
    new: State,
    was: SessionManager,
    is: SessionManager,
    ev: ListenerEvent,
) -> bool {
    match session_event(ev) {
        None => new == old && is == was,
        Some(event) => exists|changed: bool|
            #[trigger] was.restated(is, event.0, event.1, changed) && new == (if changed {
                (State { connection: connection_of(is, old.connection), ..old })
            } else {
                old
            }),
    }
}

/// Takes note of an event of a listener.
pub fn on_listener_event(state: &mut State, sessions: &mut SessionManager, ev: ListenerEvent)
    requires
        old(sessions).wf(),
    ensures
        final(sessions).wf(),
        listener_concluded(*old(state), *final(state), *old(sessions), *final(sessions), ev),
{
    let changed = match ev {
        ListenerEvent::Connected { listener_id } => sessions.mark_connected(listener_id.as_str()),
        ListenerEvent::Disconnected { listener_id, error } => match error {
            Some(e) => sessions.mark_failed(listener_id.as_str(), e),
            None => sessions.mark_disconnected(listener_id.as_str()),
        },
        ListenerEvent::Restarting { listener_id, .. } => sessions.mark_disconnected(
            listener_id.as_str(),
        ),
        ListenerEvent::Lagged(_) => {
            return ;
        },
    };
    let ghost event = session_event(ev).unwrap();
    assert(old(sessions).restated(
        *sessions,
        event.0,
        event.1,
        changed,
    ));
    if changed {
        if sessions.any_connected() {
            state.connection.status = MediatorStatus::Connected;
            state.connection.messaging_active = true;
        } else if sessions.session_count() > 0 {
            state.connection.status = MediatorStatus::Connecting;
            state.connection.messaging_active = false;
        }
    }
}

// ---------------------------------------------------------------------------
// Saves
// ---------------------------------------------------------------------------

/// Takes note of how a save ended that ran beside the user interface.
pub fn on_save_done(
    state: &mut State,
    save: &mut SaveScheduler,
    result: Result<(), String>,
    now: u64,
)
    ensures
        *final(save) == old(save).ended(result is Ok, now),
        match result {
            Ok(_) => *final(state) == *old(state),
            Err(why) => exists|e: ErrorText|
                e.says(why@) && #[trigger] line_logged(
                    *old(state),
                    *final(state),
                    error_line("Failed to save config"@, e),
                ),
        },
{
    match result {
        Ok(_) => save.finish(true, now),
        Err(why) => {
            let e = ErrorText::plain(why);
            state.main_page.log_error("Failed to save config", &e);
            assert(line_logged(
                *old(state),
                *state,
                error_line("Failed to save config"@, e),
            ));
            save.finish(false, now);
        },
    }
}

// ---------------------------------------------------------------------------
// Startup
// ---------------------------------------------------------------------------

/// The step that is named on the screen.
pub open spec fn step_view(major: Seq<char>, sub: Seq<char>) -> Seq<char> {
    major + " — "@ + sub
}

/// `new` is `old` after a step of startup began.
pub open spec fn progress_shown(
    old: State,
    new: State,
    was: LoadingProgress,
    is: LoadingProgress,
    major: Seq<char>,
    sub: Seq<char>,
    now: u64,
) -> bool {
    &&& new == (State {
        loading: new.loading,
        tip_index: new.tip_index,
        connection: ConnectionState { status: new.connection.status, ..old.connection },
        ..old
    })
    &&& new.tip_index == (if old.tip_index == usize::MAX {
        0
    } else {
        (old.tip_index + 1) as usize
    })
    &&& new.connection.status@ == StatusView::Initializing(step_view(major, sub))
    &&& exists|clock: Seq<char>| #[trigger]
        crate::clock::is_clock(clock) && crate::clock::clock_shown(clock) && loading_view(
            new.loading@,
        ) == was.begun(
            loading_view(old.loading@),
            major,
            sub,
            now,
            clock,
        )
    &&& is.step_start == Some(now)
    &&& is.major_start == was.task_start(loading_view(old.loading@), major, now)
}

/// Shows that a step of startup began.
pub fn on_progress(
    state: &mut State,
    progress: &mut LoadingProgress,
    major: &str,
    sub: &str,
    now: u64,
)
    ensures
        progress_shown(
            *old(state),
            *final(state),
            *old(progress),
            *final(progress),
            major@,
            sub@,
            now,
        ),
{
    progress.begin(&mut state.loading, major, sub, now);
    state.tip_index = if state.tip_index == usize::MAX {
        0
    } else {
        state.tip_index + 1
    };
    state.connection.status = MediatorStatus::Initializing(cat3(major, " — ", sub));
}

/// Shows that startup failed.
pub fn on_load_failed(state: &mut State, progress: &mut LoadingProgress, why: String)
    ensures
        *final(state) == (State {
            loading: final(state).loading,
            connection: ConnectionState {
                status: MediatorStatus::Failed(why),
                ..old(state).connection
            },
            ..*old(state)
        }),
        loading_view(final(state).loading@) == LoadingProgress::failed(
            loading_view(old(state).loading@),
        ),
        final(progress).step_start is None,
        final(progress).major_start is None,
{
    progress.fail(&mut state.loading);
    state.connection.status = MediatorStatus::Failed(why);
}

/// Shows the configuration that was loaded.
pub fn on_loaded(
    state: &mut State,
    progress: &mut LoadingProgress,
    config: &Config,
    host: &Host,
)
    ensures
        final(progress).step_start is None,
        final(progress).major_start is None,
        loading_view(final(state).loading@) == old(progress).finished(
            loading_view(old(state).loading@),
            host.now,
        ),
        refreshed_and_logged(
            (State { loading: final(state).loading, ..*old(state) }),
            *final(state),
            *config,
            *host,
            plain_line("Configuration loaded"@),
        ),
{
    progress.finish(&mut state.loading, host.now);
    let ghost before = *state;
    state.main_page.sync_from_config(config, host);
    let ghost shown = *state;
    assert(refreshed(before, shown, *config, *host));
    state.main_page.log(owned("Configuration loaded"));
}

/// What is shown before anything was loaded: the loading screen, with the name
/// that is stored in the open.
pub fn show_loading(state: &mut State, friendly_name: String)
    ensures
        *final(state) == (State {
            active_page: ActivePage::Loading,
            main_page: MainPageState {
                menu_panel: MenuPanelState { selected: true, ..old(state).main_page.menu_panel },
                config: final(state).main_page.config,
                ..old(state).main_page
            },
            connection: ConnectionState {
                status: final(state).connection.status,
                ..old(state).connection
            },
            ..*old(state)
        }),
        final(state).main_page.config.name == friendly_name,
        final(state).main_page.config.did@.len() == 0,
        final(state).connection.status@ == StatusView::Initializing("Starting..."@),
{
    state.active_page = ActivePage::Loading;
    state.main_page.menu_panel.selected = true;
    state.main_page.config = MainMenuConfigState { name: friendly_name, did: String::new() };
    state.connection.status = MediatorStatus::Initializing(owned("Starting..."));
}

/// A context at the VTA.
#[derive(Clone, Debug)]
pub struct ContextInfo {
    pub name: String,
    pub did: Option<String>,
}

/// The first of these contexts that belongs to a DID.
pub open spec fn context_of(s: Seq<ContextInfo>, did: Seq<char>) -> Option<ContextInfo>
    decreases s.len(),
{
    if s.len() == 0 {
        None
    } else if opt_view(s[0].did) == Some(did) {
        Some(s[0])
    } else {
        context_of(s.skip(1), did)
    }
}

/// The name of the context that is shown: that of the persona, or the first.
pub open spec fn context_shown(s: Seq<ContextInfo>, did: Seq<char>) -> Option<Seq<char>> {
    match context_of(s, did) {
        Some(c) => Some(c.name@),
        None => if s.len() > 0 {
            Some(s[0].name@)
        } else {
            None
        },
    }
}

/// The name of the context that is shown.
pub fn context_name(contexts: &Vec<ContextInfo>, persona_did: &str) -> (r: Option<String>)
    ensures
        opt_view(r) == context_shown(contexts@, persona_did@),
{
    let ghost all = contexts@;
    let mut i: usize = 0;
    assert(all.skip(0) =~= all);
    while i < contexts.len()
        invariant
            i <= all.len(),
            all == contexts@,
            context_of(all, persona_did@) == context_of(all.skip(i as int), persona_did@),
        decreases all.len() - i,
    {
        proof {
            assert(all.skip(i as int)[0] == all[i as int]);
            assert(all.skip(i as int).skip(1) =~= all.skip(i + 1));
        }
        let hit = match &contexts[i].did {
            Some(d) => same(d.as_str(), persona_did),
            None => false,
        };
        if hit {
            return Some(contexts[i].name.clone());
        }
        i = i + 1;
    }
    if contexts.len() > 0 {
        Some(contexts[0].name.clone())
    } else {
        None
    }
}

/// Whatever a message changes awaits saving, and one that changes nothing shows
/// nothing.
pub proof fn law_message_changes_are_saved(
    state: &mut State,
    config: &mut Config,
    save: &mut SaveScheduler,
    message: InboundMessage,
    kind: InboundKind,
    verdict: Verdict,
    host: Host,
    r: Processed,
)
    requires
        call_ensures(on_inbound_message, (state, config, save, &message, kind, verdict, &host), r),
    ensures
        r is Ok && r->Ok_0.changed ==> final(save).dirty && final(save).armed is Some,
        r is Ok && !r->Ok_0.changed ==> *final(state) == *old(state) && *final(save) == *old(save),
        r is Err ==> *final(save) == *old(save) && final(state).main_page.log_lines().len() > 0,
        final(save).in_flight == old(save).in_flight,
{
}

/// A ping is answered where it comes from the mediator or from an established
/// relationship, and from nowhere else; the answer goes back to its sender, in the
/// thread of the ping, over the listener that the ping came in by and under that
/// listener's DID.
pub proof fn law_pong_goes_back_the_same_way(
    config: Config,
    from: Option<String>,
    listener_id: &str,
    listener_did: Option<String>,
    message_id: &str,
    r: Option<Envelope>,
)
    requires
        call_ensures(pong_for, (&config, &from, listener_id, listener_did, message_id), r),
    ensures
        from is None ==> r is None,
        from is Some && from->0@ == config.mediator_view() ==> r is Some,
        from is Some && from->0@ != config.mediator_view() ==> (r is Some <==> (by_remote_did(
            config.private.relationships@,
            from->0@,
        ) matches Some(rel) && rel.state is Established)),
        r matches Some(e) ==> {
            &&& e.to_did@ == from->0@
            &&& e.message@.to == from->0@
            &&& e.message@.thid == Some(message_id@)
            &&& e.message@.body is TrustPong
            &&& e.listener_id@ == listener_id@
            &&& listener_did is Some ==> e.message@.from == listener_did->0@
            &&& listener_did is None ==> e.message@.from == config.persona_did_view()
        },
{
}

/// A pong ends the wait for it and is logged; nothing else that is shown changes.
pub proof fn law_pong_ends_the_wait(
    state: &mut State,
    config: Config,
    from: Option<String>,
    sent: &mut Option<u64>,
    now: u64,
)
    requires
        call_ensures(on_trust_pong, (state, &config, &from, sent, now), ()),
    ensures
        *final(sent) is None,
        final(state).main_page.log_lines().len() > 0,
        final(state).connection == old(state).connection,
        final(state).main_page.content_panel == old(state).main_page.content_panel,
{
}

/// Where a listener's event changes the connection that is shown, messaging is
/// active exactly if some session is live; a listener that lagged changes nothing.
pub proof fn law_connection_follows_the_sessions(
    state: &mut State,
    sessions: &mut SessionManager,
    ev: ListenerEvent,
)
    requires
        old(sessions).wf(),
        call_ensures(on_listener_event, (state, sessions, ev), ()),
    ensures
        final(sessions).wf(),
        ev is Lagged ==> *final(state) == *old(state) && *final(sessions) == *old(sessions),
        *final(sessions) == *old(sessions) || final(state).connection.messaging_active == final(sessions).some_connected() || final(sessions).sessions@.len() == 0,
        final(state).connection.status is Connected && old(state).connection.status !is Connected
            ==> final(sessions).some_connected(),
        final(state).main_page == old(state).main_page,
{
    if ev !is Lagged {
        let event = session_event(ev)->0;
        let changed = choose|changed: bool| #[trigger]
            old(sessions).restated(*final(sessions), event.0, event.1, changed) && *final(state)
                == (if changed {
                (State {
                    connection: connection_of(*final(sessions), old(state).connection),
                    ..*old(state)
                })
            } else {
                *old(state)
            });
        if !changed {
            assert(*final(sessions) == *old(sessions));
        }
    }
}

/// A listener that connects has a live session, where one runs on it.
pub proof fn law_connected_listener_is_live(
    state: &mut State,
    sessions: &mut SessionManager,
    listener_id: String,
    persona: PersonaId,
)
    requires
        old(sessions).wf(),
        call_ensures(on_listener_event, (state, sessions, ListenerEvent::Connected { listener_id }), ()),
        old(sessions).runs_on(persona, listener_id@),
        forall|p: PersonaId| #[trigger] old(sessions).runs_on(p, listener_id@) ==> p == persona,
    ensures
        final(sessions)@.contains_key(persona),
        final(sessions)@[persona].status is Connected,
{
}

/// A save that failed is logged and made again; one that went well says nothing.
pub proof fn law_failed_save_is_told(
    state: &mut State,
    save: &mut SaveScheduler,
    result: Result<(), String>,
    now: u64,
)
    requires
        call_ensures(on_save_done, (state, save, result, now), ()),
    ensures
        !final(save).in_flight,
        result is Err ==> final(save).dirty && final(save).armed is Some,
        result is Err ==> final(state).main_page.log_lines().len() > 0,
        result is Ok ==> *final(state) == *old(state) && final(save).dirty == old(save).dirty,
{
}

/// The context that is shown is the persona's own, where it has one.
pub proof fn law_context_is_the_personas(
    contexts: Vec<ContextInfo>,
    did: &str,
    r: Option<String>,
    i: int,
)
    requires
        call_ensures(context_name, (&contexts, did), r),
        0 <= i < contexts@.len(),
        opt_view(contexts@[i].did) == Some(did@),
        forall|j: int| 0 <= j < i ==> opt_view((#[trigger] contexts@[j]).did) != Some(did@),
    ensures
        opt_view(r) == Some(contexts@[i].name@),
{
    lemma_context_found(contexts@, did@, i);
}

proof fn lemma_context_found(s: Seq<ContextInfo>, did: Seq<char>, i: int)
    requires
        0 <= i < s.len(),
        opt_view(s[i].did) == Some(did),
        forall|j: int| 0 <= j < i ==> opt_view((#[trigger] s[j]).did) != Some(did),
    ensures
        context_of(s, did) == Some(s[i]),
    decreases i,
{
    if i > 0 {
        assert(opt_view(s[0].did) != Some(did));
        let t = s.skip(1);
        assert(t[i - 1] == s[i]);
        assert forall|j: int| 0 <= j < i - 1 implies opt_view((#[trigger] t[j]).did) != Some(
            did,
        ) by {
            assert(t[j] == s[j + 1]);
        }
        lemma_context_found(t, did, i - 1);
    }
}

} // verus!
