//! State of the main page and its activity log.

use crate::clock::{clock_shown, is_clock, time_of_day};
use crate::config::Config;
use crate::content::{CommunitySwitcherState, ContentPanelState};
use crate::menu::MenuPanelState;
use crate::text::{cat4, opt_view};
use std::collections::VecDeque;
use vstd::prelude::*;
use vstd::string::{StringExecFns, StringSliceAdditionalSpecFns};

verus! {

/// How many entries the activity log keeps.
pub const MAX_ACTIVITY_LOG_ENTRIES: usize = 100;

/// One entry of the activity log.
#[derive(Clone, Debug)]
pub struct ActivityLogEntry {
    /// Time stamp and message.
    pub summary: String,
    /// What the expanded entry shows.
    pub detail: Option<String>,
}

/// What an entry says, apart from its time stamp.
pub struct LogLine {
    pub message: Seq<char>,
    pub detail: Option<Seq<char>>,
}

impl View for ActivityLogEntry {
    type V = LogLine;

    open spec fn view(&self) -> LogLine {
        LogLine { message: self.summary@.skip(11), detail: opt_view(self.detail) }
    }
}

impl ActivityLogEntry {
    /// The summary begins with the time of day that the clock shows.
    pub open spec fn dated(self) -> bool {
        clock_shown(self.summary@.subrange(1, 9))
    }

    /// The summary begins with a time in square brackets and a space.
    pub open spec fn stamped(self) -> bool {
        &&& self.summary@.len() >= 11
        &&& self.summary@[0] == '['
        &&& is_clock(self.summary@.subrange(1, 9))
        &&& self.summary@[9] == ']'
        &&& self.summary@[10] == ' '
    }
}

/// A line without details.
pub open spec fn plain_line(message: Seq<char>) -> LogLine {
    LogLine { message, detail: None }
}

/// A line with details.
pub open spec fn detailed_line(message: Seq<char>, detail: Seq<char>) -> LogLine {
    LogLine { message, detail: Some(detail) }
}

/// The log after a line was added: a full log loses its oldest line.
pub open spec fn push_line(s: Seq<LogLine>, line: LogLine) -> Seq<LogLine> {
    if s.len() >= MAX_ACTIVITY_LOG_ENTRIES {
        s.drop_first().push(line)
    } else {
        s.push(line)
    }
}

/// The log after these lines were added, one after the other.
pub open spec fn push_lines(s: Seq<LogLine>, lines: Seq<LogLine>) -> Seq<LogLine>
    decreases lines.len(),
{
    if lines.len() == 0 {
        s
    } else {
        push_line(push_lines(s, lines.drop_last()), lines.last())
    }
}

/// Adding one batch after another is adding both.
pub proof fn lemma_push_lines_add(s: Seq<LogLine>, a: Seq<LogLine>, b: Seq<LogLine>)
    ensures
        push_lines(s, a + b) == push_lines(push_lines(s, a), b),
    decreases b.len(),
{
    if b.len() == 0 {
        assert(a + b =~= a);
    } else {
        assert((a + b).drop_last() =~= a + b.drop_last());
        assert((a + b).last() == b.last());
        lemma_push_lines_add(s, a, b.drop_last());
    }
}

/// Adding one line is adding a batch of one.
pub proof fn lemma_push_lines_one(s: Seq<LogLine>, line: LogLine)
    ensures
        push_lines(s, seq![line]) == push_line(s, line),
{
    assert(seq![line].drop_last() =~= Seq::<LogLine>::empty());
    assert(push_lines(s, seq![line].drop_last()) == s);
}

/// What the entries of a log say.
pub open spec fn log_view(s: Seq<ActivityLogEntry>) -> Seq<LogLine> {
    s.map_values(|e: ActivityLogEntry| e@)
}

/// The log never grows beyond its bound.
pub proof fn law_log_bounded(s: Seq<LogLine>, line: LogLine)
    requires
        s.len() <= MAX_ACTIVITY_LOG_ENTRIES,
    ensures
        push_line(s, line).len() <= MAX_ACTIVITY_LOG_ENTRIES,
        push_line(s, line).last() == line,
{
}

/// An error in the three forms in which it is shown.
#[derive(Clone, Debug)]
pub struct ErrorText {
    /// One line.
    pub display: String,
    /// One line with the chain of causes.
    pub alternate: String,
    /// For diagnostics.
    pub debug: String,
}

impl ErrorText {
    /// It reads like this in every form.
    pub open spec fn says(self, text: Seq<char>) -> bool {
        &&& self.display@ == text
        &&& self.alternate@ == text
        &&& self.debug@ == text
    }

    /// An error without causes: it reads the same in every form.
    pub fn plain(message: String) -> (r: ErrorText)
        ensures
            r.says(message@),
    {
        ErrorText { display: message.clone(), alternate: message.clone(), debug: message }
    }
}

/// `n` times the same character.
pub open spec fn repeated(c: char, n: nat) -> Seq<char> {
    Seq::new(n, |i: int| c)
}

fn repeat(c: char, n: usize) -> (r: String)
    ensures
        r@ == repeated(c, n as nat),
{
    let mut s = String::new();
    let mut i: usize = 0;
    assert(s@ =~= repeated(c, 0));
    while i < n
        invariant
            i <= n,
            s@ == repeated(c, i as nat),
        decreases n - i,
    {
        s.push(c);
        i = i + 1;
        assert(s@ =~= repeated(c, i as nat));
    }
    s
}

/// The ruler under a heading: as long as the heading in bytes, at most 60.
pub open spec fn ruler(context: Seq<char>) -> Seq<char> {
    let bytes = vstd::utf8::encode_utf8(context).len();
    repeated('─', if bytes <= 60 { bytes } else { 60 })
}

/// What the detail pane shows of an error.
pub open spec fn error_detail(context: Seq<char>, err: ErrorText) -> Seq<char> {
    context + "\n"@ + ruler(context) + "\n\nError: "@ + err.alternate@ + "\n\nDebug:\n"@
        + err.debug@
}

/// Formats an error for the detail pane: the context, the error with its
/// causes, and its diagnostic form.
pub fn format_error_detail(context: &str, err: &ErrorText) -> (r: String)
    ensures
        r@ == error_detail(context@, *err),
{
    let bytes: usize = context.as_bytes().len();
    let n: usize = if bytes <= 60 {
        bytes
    } else {
        60
    };
    let divider = repeat('─', n);
    let mut s = cat4(context, "\n", divider.as_str(), "\n\nError: ");
    s.append(err.alternate.as_str());
    s.append("\n\nDebug:\n");
    s.append(err.debug.as_str());
    s
}

/// What the header of the main page shows.
#[derive(Clone, Debug)]
pub struct MainMenuConfigState {
    pub name: String,
    pub did: String,
}

impl Default for MainMenuConfigState {
    fn default() -> (r: Self)
        ensures
            r.name@.len() == 0,
            r.did@.len() == 0,
    {
        MainMenuConfigState { name: String::new(), did: String::new() }
    }
}

impl View for MainMenuConfigState {
    type V = (Seq<char>, Seq<char>);

    open spec fn view(&self) -> (Seq<char>, Seq<char>) {
        (self.name@, self.did@)
    }
}

/// What the header shows of a configuration: the name and DID of the persona,
/// once the user is a member of a community, and nothing before that.
pub open spec fn header_of(config: Config) -> (Seq<char>, Seq<char>) {
    if crate::account::any_active(config.account.communities@) {
        (config.public.friendly_name@, config.persona_did_view())
    } else {
        (Seq::empty(), Seq::empty())
    }
}

impl MainMenuConfigState {
    /// What the header shows of a configuration.
    pub fn of(config: &Config) -> (r: MainMenuConfigState)
        ensures
            r@ == header_of(*config),
    {
        if config.account.has_active() {
            MainMenuConfigState {
                name: config.public.friendly_name.clone(),
                did: crate::text::owned(config.persona_did()),
            }
        } else {
            MainMenuConfigState { name: String::new(), did: String::new() }
        }
    }
}

/// The two halves of the main page.
#[derive(Clone, Copy, Debug, PartialEq, Eq, Structural)]
pub enum MainPanel {
    MainMenu,
    ContentPanel,
}

impl Default for MainPanel {
    fn default() -> (r: Self)
        ensures
            r is MainMenu,
    {
        MainPanel::MainMenu
    }
}

impl MainPanel {
    /// The other half.
    pub open spec fn other(self) -> MainPanel {
        match self {
            MainPanel::MainMenu => MainPanel::ContentPanel,
            MainPanel::ContentPanel => MainPanel::MainMenu,
        }
    }

    /// The other half, as the tabulator key switches to it.
    pub fn switch(&self) -> (r: MainPanel)
        ensures
            r == self.other(),
    {
        match self {
            MainPanel::MainMenu => MainPanel::ContentPanel,
            MainPanel::ContentPanel => MainPanel::MainMenu,
        }
    }
}

/// Switching twice returns to the same half.
pub proof fn law_switch_undoes_itself(p: MainPanel)
    ensures
        p.other().other() == p,
        p.other() != p,
{
}

/// State of the main page.
#[derive(Clone, Debug)]
pub struct MainPageState {
    pub menu_panel: MenuPanelState,
    pub content_panel: ContentPanelState,
    /// The header.
    pub config: MainMenuConfigState,
    /// Activity log, newest entry last.
    pub activity_log: VecDeque<ActivityLogEntry>,
    /// The community switcher, while it is open.
    pub switcher: Option<CommunitySwitcherState>,
}

impl Default for MainPageState {
    fn default() -> (r: Self)
        ensures
            r.menu_panel.selected,
            r.menu_panel.selected_menu is Communities,
            r.content_panel.fresh(),
            r.config.name@.len() == 0,
            r.config.did@.len() == 0,
            r.activity_log@.len() == 0,
            r.switcher is None,
    {
        MainPageState {
            menu_panel: MenuPanelState::default(),
            content_panel: ContentPanelState::default(),
            config: MainMenuConfigState::default(),
            activity_log: VecDeque::new(),
            switcher: None,
        }
    }
}

impl MainPageState {
    /// What the activity log says.
    pub open spec fn log_lines(self) -> Seq<LogLine> {
        log_view(self.activity_log@)
    }

    /// `new` is this page with one line more in its log: every entry that stays
    /// is as it was, and the new one carries a time stamp.
    pub open spec fn logged(self, new: MainPageState, line: LogLine) -> bool {
        &&& new == (MainPageState { activity_log: new.activity_log, ..self })
        &&& new.log_lines() == push_line(self.log_lines(), line)
        &&& new.activity_log@.last().stamped()
        &&& new.activity_log@.drop_last() == (if self.activity_log@.len()
            >= MAX_ACTIVITY_LOG_ENTRIES {
            self.activity_log@.drop_first()
        } else {
            self.activity_log@
        })
    }

    /// Adds an entry stamped with the given time.
    pub fn log_at(&mut self, clock: String, message: String, detail: Option<String>)
        requires
            is_clock(clock@),
        ensures
            old(self).logged(
                *final(self),
                LogLine { message: message@, detail: opt_view(detail) },
            ),
            final(self).activity_log@.last().summary@ == "["@ + clock@ + "] "@ + message@,
            final(self).activity_log@.last().summary@.subrange(1, 9) == clock@,
    {
        let ghost before = self.activity_log@;
        if self.activity_log.len() >= MAX_ACTIVITY_LOG_ENTRIES {
            let _ = self.activity_log.pop_front();
        }
        let ghost kept = self.activity_log@;
        let summary = cat4("[", clock.as_str(), "] ", message.as_str());
        proof {
            reveal_strlit("[");
            reveal_strlit("] ");
            assert(summary@.skip(11) =~= message@);
            assert(summary@.subrange(1, 9) =~= clock@);
        }
        self.activity_log.push_back(ActivityLogEntry { summary, detail });
        proof {
            assert(self.activity_log@.drop_last() =~= kept);
            assert(self.log_lines() =~= push_line(
                log_view(before),
                LogLine { message: message@, detail: opt_view(detail) },
            ));
        }
    }

    /// Adds an entry to the activity log.
    pub fn log(&mut self, message: String)
        ensures
            old(self).logged(*final(self), plain_line(message@)),
            final(self).activity_log@.last().dated(),
    {
        self.log_at(time_of_day(), message, None);
    }

    /// Adds an entry with details to the activity log.
    pub fn log_detailed(&mut self, message: String, detail: String)
        ensures
            old(self).logged(*final(self), detailed_line(message@, detail@)),
            final(self).activity_log@.last().dated(),
    {
        self.log_at(time_of_day(), message, Some(detail));
    }

    /// Adds an error to the activity log: the context and the error on one
    /// line, its diagnostics in the details.
    pub fn log_error(&mut self, context: &str, err: &ErrorText)
        ensures
            old(self).logged(*final(self), error_line(context@, *err)),
            final(self).activity_log@.last().dated(),
    {
        let summary = crate::text::cat3(context, ": ", err.display.as_str());
        let detail = format_error_detail(context, err);
        self.log_at(time_of_day(), summary, Some(detail));
    }
}

impl MainPageState {
    /// Adds these lines to the activity log.
    pub fn log_all(&mut self, lines: &Vec<String>)
        ensures
            *final(self) == (MainPageState { activity_log: final(self).activity_log, ..*old(self) }),
            final(self).log_lines() == push_lines(
                old(self).log_lines(),
                crate::text::texts_view(lines@).map_values(|s: Seq<char>| plain_line(s)),
            ),
    {
        let ghost all = crate::text::texts_view(lines@).map_values(|s: Seq<char>| plain_line(s));
        let mut i: usize = 0;
        assert(all.take(0) =~= Seq::<LogLine>::empty());
        while i < lines.len()
            invariant
                i <= lines@.len(),
                all == crate::text::texts_view(lines@).map_values(|s: Seq<char>| plain_line(s)),
                *self == (MainPageState { activity_log: self.activity_log, ..*old(self) }),
                self.log_lines() == push_lines(old(self).log_lines(), all.take(i as int)),
            decreases lines@.len() - i,
        {
            self.log(lines[i].clone());
            proof {
                assert(all.take(i + 1).drop_last() =~= all.take(i as int));
                assert(all.take(i + 1).last() == plain_line(lines@[i as int]@));
            }
            i = i + 1;
        }
        assert(all.take(i as int) =~= all);
    }
}

/// The log line of an error.
pub open spec fn error_line(context: Seq<char>, err: ErrorText) -> LogLine {
    detailed_line(context + ": "@ + err.display@, error_detail(context, err))
}

/// What is logged stands last, as it was said, under the time of day; the lines
/// before it stay in their order and the log stays within its bound.
pub proof fn law_logged_line_stands_last(page: &mut MainPageState, message: String, i: int)
    requires
        call_ensures(MainPageState::log, (page, message), ()),
        old(page).activity_log@.len() <= MAX_ACTIVITY_LOG_ENTRIES,
    ensures
        0 < final(page).activity_log@.len() <= MAX_ACTIVITY_LOG_ENTRIES,
        final(page).activity_log@.last().summary@.skip(11) == message@,
        clock_shown(final(page).activity_log@.last().summary@.subrange(1, 9)),
        final(page).activity_log@.last().detail is None,
        old(page).activity_log@.len() < MAX_ACTIVITY_LOG_ENTRIES && 0 <= i
            < old(page).activity_log@.len() ==> final(page).activity_log@[i]
            == old(page).activity_log@[i],
        old(page).activity_log@.len() == MAX_ACTIVITY_LOG_ENTRIES && 0 < i
            < old(page).activity_log@.len() ==> final(page).activity_log@[i - 1]
            == old(page).activity_log@[i],
        final(page).content_panel == old(page).content_panel,
{
    let was = old(page).activity_log@;
    let is = final(page).activity_log@;
    assert(log_view(was).len() == was.len());
    assert(log_view(is).len() == is.len());
    assert(log_view(is).last() == is.last()@);
    if 0 <= i < was.len() {
        if was.len() < MAX_ACTIVITY_LOG_ENTRIES {
            assert(is.drop_last()[i] == was[i]);
        } else if i > 0 {
            assert(is.drop_last()[i - 1] == was.drop_first()[i - 1]);
        }
    }
}

} // verus!
