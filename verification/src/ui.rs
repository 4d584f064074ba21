//! What the interface shows, as plain values: the menu, the pane of the tab
//! or of the results on show, the help line and the state of the session.
//! Drawing it is left to the caller.

use vstd::prelude::*;
use crate::app::{App, AppView, AuthStatus, AuthStatusView, CurrentTab, Focus};
use crate::profile::{UserProfile, UserProfileView};
use crate::runner::{TaskOutput, TaskOutputView};
use crate::text::{get_second_field, push_str_copy, second_field};

verus! {

/// The colour of the session's state.
#[derive(Debug, Clone, Copy, PartialEq, Eq, Structural)]
pub enum StatusTone {
    Muted,
    Busy,
    Good,
    Bad,
}

/// A list with a title and a selected entry.
#[derive(Debug)]
pub struct ListPane {
    pub title: String,
    pub items: Vec<String>,
    pub selected: usize,
}

/// A `ListPane` as plain values.
pub struct ListPaneView {
    pub title: Seq<char>,
    pub items: Seq<Seq<char>>,
    pub selected: usize,
}

impl View for ListPane {
    type V = ListPaneView;

    open spec fn view(&self) -> ListPaneView {
        ListPaneView { title: self.title@, items: self.items.deep_view(), selected: self.selected }
    }
}

/// What the main pane shows.
#[derive(Debug)]
pub enum MainPane {
    /// The table of the results on show.
    Table,
    /// The message of the results on show.
    Message { text: String },
    /// The raw payload of the results on show.
    RawJson { text: String },
    /// Results that hold nothing to show.
    Blank,
    /// The entries of a tab.
    Entries { list: ListPane },
    /// The settings: what is known of the session, above the actions. The
    /// line at `heading_at`, if any, is a heading.
    Settings { title: String, info: Vec<String>, heading_at: Option<usize>, actions: ListPane },
}

/// A `MainPane` as plain values.
pub enum MainPaneView {
    Table,
    Message { text: Seq<char> },
    RawJson { text: Seq<char> },
    Blank,
    Entries { list: ListPaneView },
    Settings {
        title: Seq<char>,
        info: Seq<Seq<char>>,
        heading_at: Option<usize>,
        actions: ListPaneView,
    },
}

impl View for MainPane {
    type V = MainPaneView;

    open spec fn view(&self) -> MainPaneView {
        match *self {
            MainPane::Table => MainPaneView::Table,
            MainPane::Message { text } => MainPaneView::Message { text: text@ },
            MainPane::RawJson { text } => MainPaneView::RawJson { text: text@ },
            MainPane::Blank => MainPaneView::Blank,
            MainPane::Entries { list } => MainPaneView::Entries { list: list@ },
            MainPane::Settings { title, info, heading_at, actions } => MainPaneView::Settings {
                title: title@,
                info: info.deep_view(),
                heading_at,
                actions: actions@,
            },
        }
    }
}

/// All that is shown.
#[derive(Debug)]
pub struct Screen {
    pub menu: Vec<String>,
    pub menu_selected: usize,
    pub focus: Focus,
    pub pane: MainPane,
    pub help: String,
    pub status: String,
    pub status_tone: StatusTone,
}

/// A `Screen` as plain values.
pub struct ScreenView {
    pub menu: Seq<Seq<char>>,
    pub menu_selected: usize,
    pub focus: Focus,
    pub pane: MainPaneView,
    pub help: Seq<char>,
    pub status: Seq<char>,
    pub status_tone: StatusTone,
}

impl View for Screen {
    type V = ScreenView;

    open spec fn view(&self) -> ScreenView {
        ScreenView {
            menu: self.menu.deep_view(),
            menu_selected: self.menu_selected,
            focus: self.focus,
            pane: self.pane@,
            help: self.help@,
            status: self.status@,
            status_tone: self.status_tone,
        }
    }
}

/// The titles of the menu.
pub open spec fn menu_titles() -> Seq<Seq<char>> {
    seq!["1. Security"@, "2. IAM"@, "3. Settings"@]
}

/// The place of a tab in the menu.
pub open spec fn menu_place(tab: CurrentTab) -> usize {
    match tab {
        CurrentTab::Security => 0,
        CurrentTab::IAM => 1,
        CurrentTab::Settings => 2,
    }
}

/// The entries of the security tab; the first says whether it would only
/// audit.
pub open spec fn security_list(a: AppView) -> ListPaneView {
    ListPaneView {
        title: "Security Modules"@,
        items: seq![
            if a.dry_run {
                "\u{1f575}\u{fe0f}  Shadow IT: Governance (Dry Run)"@
            } else {
                "\u{1f528} Shadow IT: Governance (LIVE REMEDIATION)"@
            },
            "\u{1f6a8} Surgical Lockdown"@,
        ],
        selected: a.security_index,
    }
}

/// The entries of the user-management tab.
pub open spec fn iam_list(a: AppView) -> ListPaneView {
    ListPaneView {
        title: "IAM Modules"@,
        items: seq![
            "\u{1f44b} Graceful Offboarding"@,
            "\u{1f9f9} Guest User Cleanup"@,
            "\u{1f9ea} Test Connectivity"@,
        ],
        selected: a.iam_index,
    }
}

/// The actions of the settings tab.
pub open spec fn actions_list(a: AppView) -> ListPaneView {
    ListPaneView {
        title: "Actions"@,
        items: seq![
            "Dry Run:        ["@ + (if a.dry_run {
                "Enabled"@
            } else {
                "Disabled"@
            }) + "]"@,
            "\u{1f510} Login / Re-authenticate"@,
        ],
        selected: a.settings_index,
    }
}

/// The domain of an address: what follows its first `@`.
pub open spec fn tenant_name(email: Seq<char>) -> Seq<char> {
    match second_field(email, '@') {
        Some(domain) => domain,
        None => "Unknown Domain"@,
    }
}

/// One line for each scope.
pub open spec fn scope_lines(scopes: Seq<Seq<char>>) -> Seq<Seq<char>> {
    Seq::new(scopes.len(), |i: int| "  - "@ + scopes[i])
}

/// What the settings say of a signed-in user.
pub open spec fn profile_lines(p: UserProfileView) -> Seq<Seq<char>> {
    seq![
        "Tenant ID:      "@ + p.tenant_id,
        "Tenant Name:    "@ + tenant_name(p.email),
        "Delegate User:  "@ + p.name,
        "Auth Date:      "@ + p.last_login,
        Seq::empty(),
        "Granted Scopes:"@,
    ] + scope_lines(p.scopes)
}

/// The settings pane.
pub open spec fn settings_pane(a: AppView) -> MainPaneView {
    match a.user_profile {
        Some(p) => MainPaneView::Settings {
            title: "Configuration (Logged In: "@ + p.name + ")"@,
            info: profile_lines(p),
            heading_at: Some(5usize),
            actions: actions_list(a),
        },
        None => MainPaneView::Settings {
            title: "Configuration"@,
            info: seq![
                "Tenant ID:      ["@ + a.tenant_id + "]"@,
                Seq::empty(),
                "Please log in to view full context."@,
            ],
            heading_at: None,
            actions: actions_list(a),
        },
    }
}

/// What the main pane shows of results: the table where there are headers,
/// else the message, else the raw payload.
pub open spec fn results_pane(out: TaskOutputView) -> MainPaneView {
    if out.headers.len() > 0 {
        MainPaneView::Table
    } else {
        match out.message {
            Some(text) => MainPaneView::Message { text },
            None => match out.raw_json {
                Some(text) => MainPaneView::RawJson { text },
                None => MainPaneView::Blank,
            },
        }
    }
}

/// What the main pane shows.
pub open spec fn main_pane(a: AppView) -> MainPaneView {
    match a.task_output {
        Some(out) => results_pane(out),
        None => match a.current_tab {
            CurrentTab::Security => MainPaneView::Entries { list: security_list(a) },
            CurrentTab::IAM => MainPaneView::Entries { list: iam_list(a) },
            CurrentTab::Settings => settings_pane(a),
        },
    }
}

/// The help line.
pub open spec fn help_text(results_on_show: bool) -> Seq<char> {
    if results_on_show {
        " <ESC/q> Back | <e> Export CSV "@
    } else {
        " <Tab> Switch Focus | <h/j/k/l> Navigate | <Enter> Select | <q> Quit "@
    }
}

/// The state of the session, in words.
pub open spec fn status_text(s: AuthStatusView) -> Seq<char> {
    match s {
        AuthStatusView::Unknown => "Auth: Unknown"@,
        AuthStatusView::Checking => "Auth: Checking..."@,
        AuthStatusView::Valid(words) => "Auth: \u{2705} "@ + words,
        AuthStatusView::Invalid(words) => "Auth: \u{274c} "@ + words,
    }
}

/// The colour of the state of the session.
pub open spec fn status_tone(s: AuthStatusView) -> StatusTone {
    match s {
        AuthStatusView::Unknown => StatusTone::Muted,
        AuthStatusView::Checking => StatusTone::Busy,
        AuthStatusView::Valid(_) => StatusTone::Good,
        AuthStatusView::Invalid(_) => StatusTone::Bad,
    }
}

/// All that is shown for a state.
pub open spec fn screen_of(a: AppView) -> ScreenView {
    ScreenView {
        menu: menu_titles(),
        menu_selected: menu_place(a.current_tab),
        focus: a.focus,
        pane: main_pane(a),
        help: help_text(a.task_output is Some),
        status: status_text(a.auth_status),
        status_tone: status_tone(a.auth_status),
    }
}

/// A list of the given entries.
fn list_of(title: &str, first: &str, second: &str, third: Option<&str>, selected: usize) -> (r:
    ListPane)
    ensures
        r@ == (ListPaneView {
            title: title@,
            items: match third {
                Some(t) => seq![first@, second@, t@],
                None => seq![first@, second@],
            },
            selected,
        }),
{
    let mut items: Vec<String> = Vec::new();
    proof {
        assert(items.deep_view() =~= Seq::empty());
    }
    push_str_copy(&mut items, first);
    push_str_copy(&mut items, second);
    match third {
        Some(t) => {
            push_str_copy(&mut items, t);
            proof {
                assert(items.deep_view() =~= seq![first@, second@, t@]);
            }
        },
        None => {
            proof {
                assert(items.deep_view() =~= seq![first@, second@]);
            }
        },
    }
    ListPane { title: title.to_owned(), items, selected }
}

/// A line made of a fixed start and what follows it.
fn line(start: &str, rest: &str) -> (r: String)
    ensures
        r@ == start@ + rest@,
{
    let mut out = String::from_str(start);
    out.append(rest);
    out
}

/// Writes `actions_list`.
fn actions_of(app: &App) -> (r: ListPane)
    ensures
        r@ == actions_list(app@),
{
    let mut dry = String::from_str("Dry Run:        [");
    if app.dry_run {
        dry.append("Enabled");
    } else {
        dry.append("Disabled");
    }
    dry.append("]");
    list_of("Actions", dry.as_str(), "\u{1f510} Login / Re-authenticate", None, app.settings_index)
}

/// Writes `profile_lines`.
fn profile_info(p: &UserProfile) -> (r: Vec<String>)
    ensures
        r.deep_view() == profile_lines(p@),
{
    let domain = match get_second_field(p.email.as_str(), '@') {
        Some(d) => d,
        None => String::from_str("Unknown Domain"),
    };
    let mut info: Vec<String> = Vec::new();
    proof {
        assert(info.deep_view() =~= Seq::empty());
        reveal_strlit("");
        assert(""@ =~= Seq::<char>::empty());
    }
    push_str_copy(&mut info, line("Tenant ID:      ", p.tenant_id.as_str()).as_str());
    push_str_copy(&mut info, line("Tenant Name:    ", domain.as_str()).as_str());
    push_str_copy(&mut info, line("Delegate User:  ", p.name.as_str()).as_str());
    push_str_copy(&mut info, line("Auth Date:      ", p.last_login.as_str()).as_str());
    push_str_copy(&mut info, "");
    push_str_copy(&mut info, "Granted Scopes:");
    let ghost head = info.deep_view();
    proof {
        assert(head + scope_lines(p@.scopes) =~= profile_lines(p@));
        assert(scope_lines(p@.scopes).take(0) =~= Seq::empty());
        assert(head + Seq::<Seq<char>>::empty() =~= head);
    }
    let mut i: usize = 0;
    while i < p.scopes.len()
        invariant
            i <= p.scopes.len(),
            info.deep_view() == head + scope_lines(p@.scopes).take(i as int),
        decreases p.scopes.len() - i,
    {
        push_str_copy(&mut info, line("  - ", p.scopes[i].as_str()).as_str());
        proof {
            assert(scope_lines(p@.scopes).take(i + 1) =~= scope_lines(p@.scopes).take(
                i as int,
            ).push("  - "@ + p.scopes@[i as int]@));
            assert(info.deep_view() =~= head + scope_lines(p@.scopes).take(i + 1));
        }
        i += 1;
    }
    proof {
        assert(scope_lines(p@.scopes).take(p.scopes.len() as int) =~= scope_lines(p@.scopes));
    }
    info
}

/// Writes `settings_pane`.
fn settings_of(app: &App) -> (r: MainPane)
    ensures
        r@ == settings_pane(app@),
{
    match &app.user_profile {
        Some(p) => {
            let mut title = line("Configuration (Logged In: ", p.name.as_str());
            title.append(")");
            MainPane::Settings {
                title,
                info: profile_info(p),
                heading_at: Some(5),
                actions: actions_of(app),
            }
        },
        None => {
            let mut first = line("Tenant ID:      [", app.tenant_id.as_str());
            first.append("]");
            let mut info: Vec<String> = Vec::new();
            proof {
                assert(info.deep_view() =~= Seq::empty());
                reveal_strlit("");
                assert(""@ =~= Seq::<char>::empty());
            }
            push_str_copy(&mut info, first.as_str());
            push_str_copy(&mut info, "");
            push_str_copy(&mut info, "Please log in to view full context.");
            proof {
                assert(info.deep_view() =~= seq![
                    "Tenant ID:      ["@ + app@.tenant_id + "]"@,
                    Seq::empty(),
                    "Please log in to view full context."@,
                ]);
            }
            MainPane::Settings {
                title: String::from_str("Configuration"),
                info,
                heading_at: None,
                actions: actions_of(app),
            }
        },
    }
}

/// Writes `results_pane`.
fn results_of(out: &TaskOutput) -> (r: MainPane)
    ensures
        r@ == results_pane(out@),
{
    if out.headers.len() > 0 {
        MainPane::Table
    } else {
        match &out.message {
            Some(text) => MainPane::Message { text: text.clone() },
            None => match &out.raw_json {
                Some(text) => MainPane::RawJson { text: text.clone() },
                None => MainPane::Blank,
            },
        }
    }
}

/// Writes `main_pane`.
fn pane_of(app: &App) -> (r: MainPane)
    ensures
        r@ == main_pane(app@),
{
    match &app.task_output {
        Some(out) => results_of(out),
        None => match app.current_tab {
            CurrentTab::Security => MainPane::Entries {
                list: list_of(
                    "Security Modules",
                    if app.dry_run {
                        "\u{1f575}\u{fe0f}  Shadow IT: Governance (Dry Run)"
                    } else {
                        "\u{1f528} Shadow IT: Governance (LIVE REMEDIATION)"
                    },
                    "\u{1f6a8} Surgical Lockdown",
                    None,
                    app.security_index,
                ),
            },
            CurrentTab::IAM => MainPane::Entries {
                list: list_of(
                    "IAM Modules",
                    "\u{1f44b} Graceful Offboarding",
                    "\u{1f9f9} Guest User Cleanup",
                    Some("\u{1f9ea} Test Connectivity"),
                    app.iam_index,
                ),
            },
            CurrentTab::Settings => settings_of(app),
        },
    }
}

/// What to show for a state, as `screen_of` says.
pub fn render(app: &App) -> (r: Screen)
    ensures
        r@ == screen_of(app@),
{
    let menu = list_of("Menu", "1. Security", "2. IAM", Some("3. Settings"), 0).items;
    let (status, tone) = match &app.auth_status {
        AuthStatus::Unknown => (String::from_str("Auth: Unknown"), StatusTone::Muted),
        AuthStatus::Checking => (String::from_str("Auth: Checking..."), StatusTone::Busy),
        AuthStatus::Valid(words) => (line("Auth: \u{2705} ", words.as_str()), StatusTone::Good),
        AuthStatus::Invalid(words) => (line("Auth: \u{274c} ", words.as_str()), StatusTone::Bad),
    };
    Screen {
        menu,
        menu_selected: match app.current_tab {
            CurrentTab::Security => 0,
            CurrentTab::IAM => 1,
            CurrentTab::Settings => 2,
        },
        focus: app.focus,
        pane: pane_of(app),
        help: if app.task_output.is_some() {
            String::from_str(" <ESC/q> Back | <e> Export CSV ")
        } else {
            String::from_str(
                " <Tab> Switch Focus | <h/j/k/l> Navigate | <Enter> Select | <q> Quit ",
            )
        },
        status,
        status_tone: tone,
    }
}

} // verus!
