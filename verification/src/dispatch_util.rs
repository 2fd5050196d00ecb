//! What every panel does after an action: show a status, save, refresh what is
//! shown, and log.

use crate::config::Config;
use crate::content::{
    CommunitiesState, ContentPanelState, CredentialsState, InboxState, RelationshipsState,
    SettingsState,
};
use crate::main_page::{
    detailed_line, error_line, plain_line, push_line, push_lines, ErrorText, LogLine, MainPageState,
};
use crate::save_coalesce::SaveScheduler;
use crate::state::State;
use crate::sync::{synced, Host};
use crate::text::{cat2, opt_view};
use vstd::prelude::*;

verus! {

/// The panels that show a status.
#[derive(Clone, Copy, Debug, PartialEq, Eq, Structural)]
pub enum Panel {
    Inbox,
    Relationships,
    Credentials,
    Settings,
    Communities,
}

impl MainPageState {
    /// The status that a panel shows.
    pub open spec fn status_of(self, panel: Panel) -> Option<String> {
        match panel {
            Panel::Inbox => self.content_panel.inbox.status_message,
            Panel::Relationships => self.content_panel.relationships.status_message,
            Panel::Credentials => self.content_panel.credentials.status_message,
            Panel::Settings => self.content_panel.settings.status_message,
            Panel::Communities => self.content_panel.communities.status_message,
        }
    }

    /// This page, with another status on a panel.
    pub open spec fn with_status(self, panel: Panel, status_message: Option<String>) -> MainPageState {
        let c = self.content_panel;
        MainPageState {
            content_panel: match panel {
                Panel::Inbox => ContentPanelState {
                    inbox: InboxState { status_message, ..c.inbox },
                    ..c
                },
                Panel::Relationships => ContentPanelState {
                    relationships: RelationshipsState { status_message, ..c.relationships },
                    ..c
                },
                Panel::Credentials => ContentPanelState {
                    credentials: CredentialsState { status_message, ..c.credentials },
                    ..c
                },
                Panel::Settings => ContentPanelState {
                    settings: SettingsState { status_message, ..c.settings },
                    ..c
                },
                Panel::Communities => ContentPanelState {
                    communities: CommunitiesState { status_message, ..c.communities },
                    ..c
                },
            },
            ..self
        }
    }

    /// Shows a status on a panel.
    pub fn set_status(&mut self, panel: Panel, status: String)
        ensures
            *final(self) == old(self).with_status(panel, Some(status)),
    {
        match panel {
            Panel::Inbox => {
                self.content_panel.inbox.status_message = Some(status);
            },
            Panel::Relationships => {
                self.content_panel.relationships.status_message = Some(status);
            },
            Panel::Credentials => {
                self.content_panel.credentials.status_message = Some(status);
            },
            Panel::Settings => {
                self.content_panel.settings.status_message = Some(status);
            },
            Panel::Communities => {
                self.content_panel.communities.status_message = Some(status);
            },
        }
    }
}

/// What is logged after an action.
#[derive(Clone, Debug)]
pub enum SyncLog {
    Plain(String),
    Detailed { summary: String, detail: String },
}

impl SyncLog {
    /// The line that is logged.
    pub open spec fn line(self) -> LogLine {
        match self {
            SyncLog::Plain(summary) => plain_line(summary@),
            SyncLog::Detailed { summary, detail } => detailed_line(summary@, detail@),
        }
    }

    /// Logs it.
    pub fn write(self, main_page: &mut MainPageState)
        ensures
            old(main_page).logged(*final(main_page), self.line()),
    {
        match self {
            SyncLog::Plain(summary) => main_page.log(summary),
            SyncLog::Detailed { summary, detail } => main_page.log_detailed(summary, detail),
        }
    }
}

/// What an action leaves to be done with the configuration.
#[derive(Clone, Copy, Debug, PartialEq, Eq, Structural)]
pub enum Persist {
    /// Save it, and refresh what is shown.
    SaveAndSync,
    /// It was saved; refresh what is shown.
    SyncOnly,
    /// Nothing.
    Nothing,
}

impl Persist {
    /// Does what is left to be done.
    pub fn apply(
        self,
        main_page: &mut MainPageState,
        config: &Config,
        save: &mut SaveScheduler,
        host: &Host,
    )
        ensures
            if self is Nothing {
                *final(main_page) == *old(main_page)
            } else {
                synced(*old(main_page), *final(main_page), *config, *host)
            },
            *final(save) == (if self is SaveAndSync {
                old(save).marked(host.now)
            } else {
                *old(save)
            }),
    {
        match self {
            Persist::SaveAndSync => {
                save.mark_dirty(host.now);
                main_page.sync_from_config(config, host);
            },
            Persist::SyncOnly => main_page.sync_from_config(config, host),
            Persist::Nothing => {},
        }
    }
}

/// `new` is `old` after a panel took on a status, what is shown was refreshed
/// where asked for, and a line was logged; nothing else changed.
pub open spec fn reported(
    old: MainPageState,
    new: MainPageState,
    config: Config,
    host: Host,
    refreshed: bool,
    panel: Panel,
    status: Seq<char>,
    line: LogLine,
) -> bool {
    let before = old.with_status(panel, new.status_of(panel));
    let after = MainPageState { activity_log: old.activity_log, ..new };
    &&& opt_view(new.status_of(panel)) == Some(status)
    &&& if refreshed {
        synced(before, after, config, host)
    } else {
        after == before
    }
    &&& new.log_lines() == push_line(old.log_lines(), line)
}

/// Ends an action that went well: shows a status, saves and refreshes as asked
/// for, and logs.
pub fn save_and_sync(
    main_page: &mut MainPageState,
    config: &Config,
    save: &mut SaveScheduler,
    persist: Persist,
    panel: Panel,
    success_status: String,
    log: SyncLog,
    host: &Host,
)
    ensures
        reported(
            *old(main_page),
            *final(main_page),
            *config,
            *host,
            persist !is Nothing,
            panel,
            success_status@,
            log.line(),
        ),
        *final(save) == (if persist is SaveAndSync {
            old(save).marked(host.now)
        } else {
            *old(save)
        }),
{
    main_page.set_status(panel, success_status);
    persist.apply(main_page, config, save, host);
    log.write(main_page);
}

/// `new` is `old` after a panel showed an error and it was logged.
pub open spec fn error_shown(
    old: MainPageState,
    new: MainPageState,
    panel: Panel,
    context: Seq<char>,
    err: ErrorText,
) -> bool {
    &&& opt_view(new.status_of(panel)) == Some("Error: "@ + err.alternate@)
    &&& MainPageState { activity_log: old.activity_log, ..new } == old.with_status(
        panel,
        new.status_of(panel),
    )
    &&& new.log_lines() == push_line(old.log_lines(), error_line(context, err))
}

/// Ends an action that failed: shows the error and logs it.
pub fn record_error(main_page: &mut MainPageState, panel: Panel, context: &str, err: &ErrorText)
    ensures
        error_shown(*old(main_page), *final(main_page), panel, context@, *err),
{
    main_page.set_status(panel, cat2("Error: ", err.alternate.as_str()));
    main_page.log_error(context, err);
}

/// `new` is `old` after an action went well: its configuration is to be saved,
/// what is shown was refreshed, a panel has a status and a line was logged.
pub open spec fn went_well(
    old: State,
    new: State,
    config: Config,
    host: Host,
    panel: Panel,
    status: Seq<char>,
    line: LogLine,
) -> bool {
    &&& new == old.with_main(new.main_page)
    &&& reported(old.main_page, new.main_page, config, host, true, panel, status, line)
}

/// `new` is `old` after an action failed: a panel shows the error and it was
/// logged.
pub open spec fn went_wrong(
    old: State,
    new: State,
    panel: Panel,
    context: Seq<char>,
    err: ErrorText,
) -> bool {
    &&& new == old.with_main(new.main_page)
    &&& error_shown(old.main_page, new.main_page, panel, context, err)
}

/// `new` is `old` after what is shown was refreshed and a panel took on a status.
pub open spec fn refreshed_with(
    old: State,
    new: State,
    config: Config,
    host: Host,
    panel: Panel,
    status: Seq<char>,
) -> bool {
    let shown = new.main_page.status_of(panel);
    &&& new == old.with_main(new.main_page)
    &&& opt_view(shown) == Some(status)
    &&& synced(old.main_page.with_status(panel, shown), new.main_page, config, host)
}

/// Refreshes what is shown and shows a status on a panel.
pub fn refresh_with(state: &mut State, config: &Config, host: &Host, panel: Panel, status: String)
    ensures
        refreshed_with(*old(state), *final(state), *config, *host, panel, status@),
{
    state.main_page.set_status(panel, status);
    state.main_page.sync_from_config(config, host);
}

/// `new` is `old` after a panel took on a status.
pub open spec fn status_set(old: State, new: State, panel: Panel, status: Seq<char>) -> bool {
    let shown = new.main_page.status_of(panel);
    &&& opt_view(shown) == Some(status)
    &&& new == old.with_main(old.main_page.with_status(panel, shown))
}

/// `new` is `old` after what is shown was refreshed.
pub open spec fn refreshed(old: State, new: State, config: Config, host: Host) -> bool {
    &&& new == old.with_main(new.main_page)
    &&& synced(old.main_page, new.main_page, config, host)
}

/// `new` is `old` after lines were logged.
pub open spec fn lines_logged(old: State, new: State, lines: Seq<LogLine>) -> bool {
    &&& new == old.with_main(
        MainPageState { activity_log: new.main_page.activity_log, ..old.main_page },
    )
    &&& new.main_page.log_lines() == push_lines(old.main_page.log_lines(), lines)
}

/// `new` is `old` after one line was logged.
pub open spec fn line_logged(old: State, new: State, line: LogLine) -> bool {
    &&& new == old.with_main(
        MainPageState { activity_log: new.main_page.activity_log, ..old.main_page },
    )
    &&& new.main_page.log_lines() == push_line(old.main_page.log_lines(), line)
}

/// `new` is `old` after what is shown was refreshed and a line was logged.
pub open spec fn refreshed_and_logged(
    old: State,
    new: State,
    config: Config,
    host: Host,
    line: LogLine,
) -> bool {
    exists|shown: State|
        #[trigger] refreshed(old, shown, config, host) && line_logged(shown, new, line)
}

/// An action that went well leaves no panel but its own with another status.
pub proof fn law_report_touches_one_status(
    old: MainPageState,
    new: MainPageState,
    config: Config,
    host: Host,
    refreshed: bool,
    panel: Panel,
    other: Panel,
    status: Seq<char>,
    line: LogLine,
)
    requires
        reported(old, new, config, host, refreshed, panel, status, line),
        other != panel,
    ensures
        new.status_of(other) == old.status_of(other),
{
}

} // verus!
