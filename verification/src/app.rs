//! The state of the terminal interface, and what a key does to it.

use vstd::prelude::*;
use crate::profile::{profile_view, UserProfile, UserProfileView};
use crate::runner::{TaskOutput, TaskOutputView};
use crate::text::push_str_copy;

verus! {

/// The tab that is shown.
#[derive(Debug, Copy, Clone, PartialEq, Eq, Structural)]
pub enum CurrentTab {
    Security,
    IAM,
    Settings,
}

/// The pane that takes the keys.
#[derive(Debug, Copy, Clone, PartialEq, Eq, Structural)]
pub enum Focus {
    Menu,
    Content,
    Logs,
}

/// A key, as far as the interface tells keys apart.
#[derive(Debug, Copy, Clone, PartialEq, Eq, Structural)]
pub enum Key {
    Esc,
    Backspace,
    Enter,
    Tab,
    BackTab,
    Left,
    Right,
    Up,
    Down,
    Char(char),
    Other,
}

/// What the interface asks its caller to do.
#[derive(Debug)]
pub enum AppAction {
    Login,
    ToggleDryRun,
    RunTask { name: String, args: Vec<String> },
    ExportResults,
    BackToMenu,
}

/// An `AppAction` as plain values.
pub enum AppActionView {
    Login,
    ToggleDryRun,
    RunTask { name: Seq<char>, args: Seq<Seq<char>> },
    ExportResults,
    BackToMenu,
}

impl View for AppAction {
    type V = AppActionView;

    open spec fn view(&self) -> AppActionView {
        match *self {
            AppAction::Login => AppActionView::Login,
            AppAction::ToggleDryRun => AppActionView::ToggleDryRun,
            AppAction::RunTask { name, args } => AppActionView::RunTask {
                name: name@,
                args: args.deep_view(),
            },
            AppAction::ExportResults => AppActionView::ExportResults,
            AppAction::BackToMenu => AppActionView::BackToMenu,
        }
    }
}

/// The view of an action that may be missing.
pub open spec fn action_view(a: Option<AppAction>) -> Option<AppActionView> {
    match a {
        Some(action) => Some(action@),
        None => None,
    }
}

/// What is known of the session.
#[derive(Debug, Clone)]
pub enum AuthStatus {
    Unknown,
    Checking,
    Valid(String),
    Invalid(String),
}

/// An `AuthStatus` as plain values.
pub enum AuthStatusView {
    Unknown,
    Checking,
    Valid(Seq<char>),
    Invalid(Seq<char>),
}

impl View for AuthStatus {
    type V = AuthStatusView;

    open spec fn view(&self) -> AuthStatusView {
        match *self {
            AuthStatus::Unknown => AuthStatusView::Unknown,
            AuthStatus::Checking => AuthStatusView::Checking,
            AuthStatus::Valid(words) => AuthStatusView::Valid(words@),
            AuthStatus::Invalid(words) => AuthStatusView::Invalid(words@),
        }
    }
}

/// Which line of the log is selected, if any.
#[derive(Debug, Copy, Clone, PartialEq, Eq, Structural)]
pub struct LogsState {
    pub selected: Option<usize>,
}

/// The interface's state.
pub struct App {
    pub current_tab: CurrentTab,
    pub focus: Focus,
    pub should_quit: bool,
    pub logs: Vec<String>,
    pub logs_state: LogsState,
    pub is_loading: bool,
    pub security_index: usize,
    pub iam_index: usize,
    pub settings_index: usize,
    pub tenant_id: String,
    pub dry_run: bool,
    pub user_profile: Option<UserProfile>,
    pub auth_status: AuthStatus,
    pub task_output: Option<TaskOutput>,
}

/// An `App` as plain values.
pub struct AppView {
    pub current_tab: CurrentTab,
    pub focus: Focus,
    pub should_quit: bool,
    pub logs: Seq<Seq<char>>,
    pub selected_log: Option<usize>,
    pub is_loading: bool,
    pub security_index: usize,
    pub iam_index: usize,
    pub settings_index: usize,
    pub tenant_id: Seq<char>,
    pub dry_run: bool,
    pub user_profile: Option<UserProfileView>,
    pub auth_status: AuthStatusView,
    pub task_output: Option<TaskOutputView>,
}

/// The view of an output that may be missing.
pub open spec fn output_view(o: Option<TaskOutput>) -> Option<TaskOutputView> {
    match o {
        Some(output) => Some(output@),
        None => None,
    }
}

impl View for App {
    type V = AppView;

    open spec fn view(&self) -> AppView {
        AppView {
            current_tab: self.current_tab,
            focus: self.focus,
            should_quit: self.should_quit,
            logs: self.logs.deep_view(),
            selected_log: self.logs_state.selected,
            is_loading: self.is_loading,
            security_index: self.security_index,
            iam_index: self.iam_index,
            settings_index: self.settings_index,
            tenant_id: self.tenant_id@,
            dry_run: self.dry_run,
            user_profile: profile_view(self.user_profile),
            auth_status: self.auth_status@,
            task_output: output_view(self.task_output),
        }
    }
}

/// The state at the start, with the profile that was found, if any.
pub open spec fn initial_app(profile: Option<UserProfileView>) -> AppView {
    AppView {
        current_tab: CurrentTab::Security,
        focus: Focus::Menu,
        should_quit: false,
        logs: seq![
            "Welcome to Office 365 Toolset"@,
            if profile is Some {
                "Loaded existing user profile."@
            } else {
                "Initializing TUI..."@
            },
        ],
        selected_log: None,
        is_loading: false,
        security_index: 0,
        iam_index: 0,
        settings_index: 0,
        tenant_id: "Not Connected"@,
        dry_run: true,
        user_profile: profile,
        auth_status: AuthStatusView::Unknown,
        task_output: None,
    }
}

/// The state with one more line in the log.
pub open spec fn logged(a: AppView, message: Seq<char>) -> AppView {
    AppView { logs: a.logs.push(message), ..a }
}

/// The tab after `tab`, round the circle.
pub open spec fn tab_after(tab: CurrentTab) -> CurrentTab {
    match tab {
        CurrentTab::Security => CurrentTab::IAM,
        CurrentTab::IAM => CurrentTab::Settings,
        CurrentTab::Settings => CurrentTab::Security,
    }
}

/// The tab before `tab`, round the circle.
pub open spec fn tab_before(tab: CurrentTab) -> CurrentTab {
    match tab {
        CurrentTab::Security => CurrentTab::Settings,
        CurrentTab::IAM => CurrentTab::Security,
        CurrentTab::Settings => CurrentTab::IAM,
    }
}

/// The state with `tab` shown: any results on show are put away.
pub open spec fn on_tab(a: AppView, tab: CurrentTab) -> AppView {
    AppView { current_tab: tab, task_output: None, ..a }
}

/// How many entries the content list of a tab has.
pub open spec fn entry_count(tab: CurrentTab) -> usize {
    match tab {
        CurrentTab::Security => 2,
        CurrentTab::IAM => 3,
        CurrentTab::Settings => 2,
    }
}

/// The entry that is selected on the tab that is shown.
pub open spec fn selected_entry(a: AppView) -> usize {
    match a.current_tab {
        CurrentTab::Security => a.security_index,
        CurrentTab::IAM => a.iam_index,
        CurrentTab::Settings => a.settings_index,
    }
}

/// The state with entry `index` selected on the tab that is shown.
pub open spec fn with_entry(a: AppView, index: usize) -> AppView {
    match a.current_tab {
        CurrentTab::Security => AppView { security_index: index, ..a },
        CurrentTab::IAM => AppView { iam_index: index, ..a },
        CurrentTab::Settings => AppView { settings_index: index, ..a },
    }
}

/// The selection one entry up, unless it is at the top.
pub open spec fn content_up(a: AppView) -> AppView {
    if selected_entry(a) > 0 {
        with_entry(a, (selected_entry(a) - 1) as usize)
    } else {
        a
    }
}

/// The selection one entry down, unless it is at the last entry or beyond.
pub open spec fn content_down(a: AppView) -> AppView {
    if selected_entry(a) + 1 < entry_count(a.current_tab) {
        with_entry(a, (selected_entry(a) + 1) as usize)
    } else {
        a
    }
}

/// The log's selection one line up; from no selection, the last line.
pub open spec fn logs_up(a: AppView) -> AppView {
    AppView {
        selected_log: Some(
            match a.selected_log {
                Some(i) => if i > 0 {
                    (i - 1) as usize
                } else {
                    0
                },
                None => if a.logs.len() > 0 {
                    (a.logs.len() - 1) as usize
                } else {
                    0
                },
            },
        ),
        ..a
    }
}

/// The log's selection one line down; from no selection, the first line.
pub open spec fn logs_down(a: AppView) -> AppView {
    AppView {
        selected_log: Some(
            match a.selected_log {
                Some(i) => if i + 1 < a.logs.len() {
                    (i + 1) as usize
                } else {
                    i
                },
                None => 0,
            },
        ),
        ..a
    }
}

/// `true` or `false`, in letters.
pub open spec fn bool_text(b: bool) -> Seq<char> {
    if b {
        "true"@
    } else {
        "false"@
    }
}

/// What choosing the selected entry does.
pub open spec fn chosen(a: AppView) -> (AppView, Option<AppActionView>) {
    match a.current_tab {
        CurrentTab::Security => if a.security_index == 0 {
            (
                logged(
                    a,
                    "Queueing: Shadow IT "@ + (if a.dry_run {
                        "Audit (Dry Run)"@
                    } else {
                        "Remediation (LIVE)"@
                    }) + "..."@,
                ),
                Some(
                    AppActionView::RunTask {
                        name: "sec:shadow-it"@,
                        args: seq!["--dry-run"@, bool_text(a.dry_run)],
                    },
                ),
            )
        } else if a.security_index == 1 {
            (logged(a, "Not Implemented: Surgical Lockdown"@), None)
        } else {
            (a, None)
        },
        CurrentTab::IAM => if a.iam_index == 0 {
            (logged(a, "Not Implemented: Graceful Offboarding"@), None)
        } else if a.iam_index == 1 {
            (logged(a, "Not Implemented: Guest User Cleanup"@), None)
        } else if a.iam_index == 2 {
            (
                logged(a, "Queueing: Test Connectivity..."@),
                Some(AppActionView::RunTask { name: "iam:test"@, args: Seq::empty() }),
            )
        } else {
            (a, None)
        },
        CurrentTab::Settings => if a.settings_index == 0 {
            (
                logged(
                    AppView { dry_run: !a.dry_run, ..a },
                    "Action: Dry Run set to "@ + bool_text(!a.dry_run),
                ),
                Some(AppActionView::ToggleDryRun),
            )
        } else if a.settings_index == 1 {
            (a, Some(AppActionView::Login))
        } else {
            (a, None)
        },
    }
}

/// Whether `key` is the character `c`.
pub open spec fn is_char(key: Key, c: char) -> bool {
    key == Key::Char(c)
}

/// What a key does while results are on show and the key is none of those
/// that pass through to the tabs.
pub open spec fn results_key(key: Key) -> Option<Option<AppActionView>> {
    if key == Key::Esc || key == Key::Backspace || is_char(key, 'q') {
        Some(Some(AppActionView::BackToMenu))
    } else if is_char(key, 'e') || is_char(key, 'E') {
        Some(Some(AppActionView::ExportResults))
    } else if key == Key::Tab || is_char(key, '1') || is_char(key, '2') || is_char(key, '3') {
        None
    } else {
        Some(None)
    }
}

/// What a key does to the panes and tabs.
pub open spec fn navigation_key(a: AppView, key: Key) -> (AppView, Option<AppActionView>) {
    if is_char(key, 'q') || key == Key::Esc {
        (AppView { should_quit: true, ..a }, None)
    } else if (key == Key::Right || key == Key::Enter || is_char(key, 'l')) && a.focus
        == Focus::Menu {
        (AppView { focus: Focus::Content, ..a }, None)
    } else if (key == Key::Left || is_char(key, 'h')) && a.focus == Focus::Content {
        (AppView { focus: Focus::Menu, ..a }, None)
    } else if (key == Key::Down || is_char(key, 'j')) && (a.focus == Focus::Menu || a.focus
        == Focus::Content) {
        if a.focus == Focus::Menu {
            (on_tab(a, tab_after(a.current_tab)), None)
        } else {
            (content_down(a), None)
        }
    } else if key == Key::Up || is_char(key, 'k') {
        match a.focus {
            Focus::Menu => (on_tab(a, tab_before(a.current_tab)), None),
            Focus::Content => (content_up(a), None),
            Focus::Logs => (logs_up(a), None),
        }
    } else if key == Key::Tab {
        (
            AppView {
                focus: match a.focus {
                    Focus::Menu => Focus::Content,
                    Focus::Content => Focus::Logs,
                    Focus::Logs => Focus::Menu,
                },
                ..a
            },
            None,
        )
    } else if key == Key::BackTab {
        (
            AppView {
                focus: match a.focus {
                    Focus::Menu => Focus::Logs,
                    Focus::Content => Focus::Menu,
                    Focus::Logs => Focus::Content,
                },
                ..a
            },
            None,
        )
    } else if (key == Key::Enter || is_char(key, ' ')) && a.focus == Focus::Content {
        chosen(a)
    } else if is_char(key, '1') {
        (AppView { focus: Focus::Menu, ..on_tab(a, CurrentTab::Security) }, None)
    } else if is_char(key, '2') {
        (AppView { focus: Focus::Menu, ..on_tab(a, CurrentTab::IAM) }, None)
    } else if is_char(key, '3') {
        (AppView { focus: Focus::Menu, ..on_tab(a, CurrentTab::Settings) }, None)
    } else {
        (a, None)
    }
}

/// What a key does: while results are on show, only the keys that leave
/// them, export them or change the tab count.
pub open spec fn key_step(a: AppView, key: Key) -> (AppView, Option<AppActionView>) {
    if a.task_output is Some {
        match results_key(key) {
            Some(action) => (a, action),
            None => navigation_key(a, key),
        }
    } else {
        navigation_key(a, key)
    }
}

/// Writes `bool_text`.
pub fn bool_string(b: bool) -> (r: String)
    ensures
        r@ == bool_text(b),
{
    if b {
        String::from_str("true")
    } else {
        String::from_str("false")
    }
}

impl App {
    /// The state at the start, with the profile that was found, if any.
    pub fn new(user_profile: Option<UserProfile>) -> (r: App)
        ensures
            r@ == initial_app(profile_view(user_profile)),
    {
        let mut logs: Vec<String> = Vec::new();
        proof {
            assert(logs.deep_view() =~= Seq::empty());
        }
        push_str_copy(&mut logs, "Welcome to Office 365 Toolset");
        if user_profile.is_some() {
            push_str_copy(&mut logs, "Loaded existing user profile.");
        } else {
            push_str_copy(&mut logs, "Initializing TUI...");
        }
        proof {
            assert(logs.deep_view() =~= initial_app(profile_view(user_profile)).logs);
        }
        App {
            current_tab: CurrentTab::Security,
            focus: Focus::Menu,
            should_quit: false,
            logs,
            logs_state: LogsState { selected: None },
            is_loading: false,
            security_index: 0,
            iam_index: 0,
            settings_index: 0,
            tenant_id: String::from_str("Not Connected"),
            dry_run: true,
            user_profile,
            auth_status: AuthStatus::Unknown,
            task_output: None,
        }
    }

    /// Adds a line to the log.
    pub fn add_log(&mut self, message: String)
        ensures
            final(self)@ == logged(old(self)@, message@),
    {
        let ghost before = self.logs.deep_view();
        self.logs.push(message);
        proof {
            assert(self.logs.deep_view() =~= before.push(message@));
        }
    }

    /// Adds a line to the log.
    fn log(&mut self, message: &str)
        ensures
            final(self)@ == logged(old(self)@, message@),
    {
        self.add_log(message.to_owned());
    }

    /// Shows the next tab.
    pub fn next_tab(&mut self)
        ensures
            final(self)@ == on_tab(old(self)@, tab_after(old(self)@.current_tab)),
    {
        self.current_tab = match self.current_tab {
            CurrentTab::Security => CurrentTab::IAM,
            CurrentTab::IAM => CurrentTab::Settings,
            CurrentTab::Settings => CurrentTab::Security,
        };
        self.task_output = None;
    }

    /// Shows the previous tab.
    pub fn previous_tab(&mut self)
        ensures
            final(self)@ == on_tab(old(self)@, tab_before(old(self)@.current_tab)),
    {
        self.current_tab = match self.current_tab {
            CurrentTab::Security => CurrentTab::Settings,
            CurrentTab::IAM => CurrentTab::Security,
            CurrentTab::Settings => CurrentTab::IAM,
        };
        self.task_output = None;
    }

    /// Shows `tab`, with the menu in focus.
    fn jump_to_tab(&mut self, tab: CurrentTab)
        ensures
            final(self)@ == (AppView { focus: Focus::Menu, ..on_tab(old(self)@, tab) }),
    {
        self.current_tab = tab;
        self.focus = Focus::Menu;
        self.task_output = None;
    }

    /// Moves the selection of the content list up.
    pub fn move_content_up(&mut self)
        ensures
            final(self)@ == content_up(old(self)@),
    {
        match self.current_tab {
            CurrentTab::Security => {
                if self.security_index > 0 {
                    self.security_index -= 1;
                }
            },
            CurrentTab::IAM => {
                if self.iam_index > 0 {
                    self.iam_index -= 1;
                }
            },
            CurrentTab::Settings => {
                if self.settings_index > 0 {
                    self.settings_index -= 1;
                }
            },
        }
    }

    /// Moves the selection of the content list down.
    pub fn move_content_down(&mut self)
        ensures
            final(self)@ == content_down(old(self)@),
    {
        match self.current_tab {
            CurrentTab::Security => {
                if self.security_index < 1 {
                    self.security_index += 1;
                }
            },
            CurrentTab::IAM => {
                if self.iam_index < 2 {
                    self.iam_index += 1;
                }
            },
            CurrentTab::Settings => {
                if self.settings_index < 1 {
                    self.settings_index += 1;
                }
            },
        }
    }

    /// Moves the selection of the log up.
    pub fn scroll_logs_up(&mut self)
        ensures
            final(self)@ == logs_up(old(self)@),
    {
        let i: usize = match self.logs_state.selected {
            Some(i) => if i > 0 {
                i - 1
            } else {
                0
            },
            None => if self.logs.len() > 0 {
                self.logs.len() - 1
            } else {
                0
            },
        };
        self.logs_state.selected = Some(i);
    }

    /// Moves the selection of the log down.
    pub fn scroll_logs_down(&mut self)
        ensures
            final(self)@ == logs_down(old(self)@),
    {
        let i: usize = match self.logs_state.selected {
            Some(i) => if self.logs.len() > 0 && i < self.logs.len() - 1 {
                i + 1
            } else {
                i
            },
            None => 0,
        };
        self.logs_state.selected = Some(i);
    }

    /// Does what the selected entry stands for, as `chosen` says.
    pub fn execute_action(&mut self) -> (r: Option<AppAction>)
        ensures
            (final(self)@, action_view(r)) == chosen(old(self)@),
    {
        match self.current_tab {
            CurrentTab::Security => {
                if self.security_index == 0 {
                    let mut line = String::from_str("Queueing: Shadow IT ");
                    if self.dry_run {
                        line.append("Audit (Dry Run)");
                    } else {
                        line.append("Remediation (LIVE)");
                    }
                    line.append("...");
                    self.add_log(line);
                    let mut args: Vec<String> = Vec::new();
                    proof {
                        assert(args.deep_view() =~= Seq::empty());
                    }
                    push_str_copy(&mut args, "--dry-run");
                    push_str_copy(&mut args, bool_string(self.dry_run).as_str());
                    proof {
                        assert(args.deep_view() =~= seq!["--dry-run"@, bool_text(self.dry_run)]);
                    }
                    Some(AppAction::RunTask { name: String::from_str("sec:shadow-it"), args })
                } else if self.security_index == 1 {
                    self.log("Not Implemented: Surgical Lockdown");
                    None
                } else {
                    None
                }
            },
            CurrentTab::IAM => {
                if self.iam_index == 0 {
                    self.log("Not Implemented: Graceful Offboarding");
                    None
                } else if self.iam_index == 1 {
                    self.log("Not Implemented: Guest User Cleanup");
                    None
                } else if self.iam_index == 2 {
                    self.log("Queueing: Test Connectivity...");
                    let args: Vec<String> = Vec::new();
                    proof {
                        assert(args.deep_view() =~= Seq::empty());
                    }
                    Some(AppAction::RunTask { name: String::from_str("iam:test"), args })
                } else {
                    None
                }
            },
            CurrentTab::Settings => {
                if self.settings_index == 0 {
                    self.dry_run = !self.dry_run;
                    let mut line = String::from_str("Action: Dry Run set to ");
                    line.append(bool_string(self.dry_run).as_str());
                    self.add_log(line);
                    Some(AppAction::ToggleDryRun)
                } else if self.settings_index == 1 {
                    Some(AppAction::Login)
                } else {
                    None
                }
            },
        }
    }

    /// Takes a key that moves between panes and tabs.
    fn on_navigation_key(&mut self, key: Key) -> (r: Option<AppAction>)
        ensures
            (final(self)@, action_view(r)) == navigation_key(old(self)@, key),
    {
        if key == Key::Char('q') || key == Key::Esc {
            self.should_quit = true;
            None
        } else if (key == Key::Right || key == Key::Enter || key == Key::Char('l')) && self.focus
            == Focus::Menu {
            self.focus = Focus::Content;
            None
        } else if (key == Key::Left || key == Key::Char('h')) && self.focus == Focus::Content {
            self.focus = Focus::Menu;
            None
        } else if (key == Key::Down || key == Key::Char('j')) && (self.focus == Focus::Menu
            || self.focus == Focus::Content) {
            if self.focus == Focus::Menu {
                self.next_tab();
            } else {
                self.move_content_down();
            }
            None
        } else if key == Key::Up || key == Key::Char('k') {
            match self.focus {
                Focus::Menu => self.previous_tab(),
                Focus::Content => self.move_content_up(),
                Focus::Logs => self.scroll_logs_up(),
            }
            None
        } else if key == Key::Tab {
            self.focus = match self.focus {
                Focus::Menu => Focus::Content,
                Focus::Content => Focus::Logs,
                Focus::Logs => Focus::Menu,
            };
            None
        } else if key == Key::BackTab {
            self.focus = match self.focus {
                Focus::Menu => Focus::Logs,
                Focus::Content => Focus::Menu,
                Focus::Logs => Focus::Content,
            };
            None
        } else if (key == Key::Enter || key == Key::Char(' ')) && self.focus == Focus::Content {
            self.execute_action()
        } else if key == Key::Char('1') {
            self.jump_to_tab(CurrentTab::Security);
            None
        } else if key == Key::Char('2') {
            self.jump_to_tab(CurrentTab::IAM);
            None
        } else if key == Key::Char('3') {
            self.jump_to_tab(CurrentTab::Settings);
            None
        } else {
            None
        }
    }

    /// Takes a key, as `key_step` says.
    pub fn on_key(&mut self, key: Key) -> (r: Option<AppAction>)
        ensures
            (final(self)@, action_view(r)) == key_step(old(self)@, key),
    {
        if self.task_output.is_some() {
            if key == Key::Esc || key == Key::Backspace || key == Key::Char('q') {
                return Some(AppAction::BackToMenu);
            } else if key == Key::Char('e') || key == Key::Char('E') {
                return Some(AppAction::ExportResults);
            } else if key == Key::Tab || key == Key::Char('1') || key == Key::Char('2') || key
                == Key::Char('3') {
            } else {
                return None;
            }
        }
        self.on_navigation_key(key)
    }

    /// Takes a tick of the clock: nothing changes.
    pub fn on_tick(&mut self)
        ensures
            final(self)@ == old(self)@,
    {
    }
}

} // verus!
