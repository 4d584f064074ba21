//! The menus of the prompt-driven interface: what each choice leads to.

use vstd::prelude::*;
use crate::text::{is_blank, push_str_copy, str_eq, str_is_blank};

verus! {

/// A task to run, with its arguments.
#[derive(Debug)]
pub struct ModuleRun {
    pub task: String,
    pub args: Vec<String>,
}

/// A `ModuleRun` as plain values.
pub struct ModuleRunView {
    pub task: Seq<char>,
    pub args: Seq<Seq<char>>,
}

impl View for ModuleRun {
    type V = ModuleRunView;

    open spec fn view(&self) -> ModuleRunView {
        ModuleRunView { task: self.task@, args: self.args.deep_view() }
    }
}

/// The view of a run that may be missing.
pub open spec fn run_view(r: Option<ModuleRun>) -> Option<ModuleRunView> {
    match r {
        Some(run) => Some(run@),
        None => None,
    }
}

/// Where a choice of the main menu leads.
#[derive(Debug, Clone, Copy, PartialEq, Eq, Structural)]
pub enum MainChoice {
    Login,
    Security,
    Iam,
    Exit,
    Unknown,
}

/// Where a choice of the security menu leads.
#[derive(Debug, Clone, Copy, PartialEq, Eq, Structural)]
pub enum SecurityChoice {
    Audit,
    Remediation,
    Back,
}

/// Where a choice of the user-management menu leads.
#[derive(Debug, Clone, Copy, PartialEq, Eq, Structural)]
pub enum IamChoice {
    Offboard,
    TestConnectivity,
    Back,
}

/// The entries of the main menu.
pub open spec fn main_entries() -> Seq<Seq<char>> {
    seq![
        "\u{1f510} Login / Re-authenticate"@,
        "\u{1f6e1}\u{fe0f}  Security Governance"@,
        "\u{1f464} IAM & User Management"@,
        "\u{1f6aa} Exit"@,
    ]
}

/// The entries of the security menu.
pub open spec fn security_entries() -> Seq<Seq<char>> {
    seq![
        "\u{1f575}\u{fe0f}  Shadow IT Audit (Dry Run)"@,
        "\u{1f575}\u{fe0f}  Shadow IT Remediation (REVOKE)"@,
        "\u{2b05}\u{fe0f}  Back"@,
    ]
}

/// The entries of the user-management menu.
pub open spec fn iam_entries() -> Seq<Seq<char>> {
    seq![
        "\u{1f44b} Graceful Offboarding"@,
        "\u{1f9ea} Test Connectivity (Who am I?)"@,
        "\u{2b05}\u{fe0f}  Back"@,
    ]
}

/// Where an entry of the main menu leads; anything else leads nowhere.
pub open spec fn main_choice(entry: Seq<char>) -> MainChoice {
    if entry == main_entries()[0] {
        MainChoice::Login
    } else if entry == main_entries()[1] {
        MainChoice::Security
    } else if entry == main_entries()[2] {
        MainChoice::Iam
    } else if entry == main_entries()[3] {
        MainChoice::Exit
    } else {
        MainChoice::Unknown
    }
}

/// Where an entry of the security menu leads; anything else leads back.
pub open spec fn security_choice(entry: Seq<char>) -> SecurityChoice {
    if entry == security_entries()[0] {
        SecurityChoice::Audit
    } else if entry == security_entries()[1] {
        SecurityChoice::Remediation
    } else {
        SecurityChoice::Back
    }
}

/// Where an entry of the user-management menu leads; anything else leads
/// back.
pub open spec fn iam_choice(entry: Seq<char>) -> IamChoice {
    if entry == iam_entries()[0] {
        IamChoice::Offboard
    } else if entry == iam_entries()[1] {
        IamChoice::TestConnectivity
    } else {
        IamChoice::Back
    }
}

/// The run that a choice of the security menu asks for. The audit runs as
/// it is; the remediation runs only once it was confirmed.
pub open spec fn security_run(choice: SecurityChoice, confirmed: bool) -> Option<ModuleRunView> {
    match choice {
        SecurityChoice::Audit => Some(
            ModuleRunView { task: "sec:shadow-it"@, args: Seq::empty() },
        ),
        SecurityChoice::Remediation => if confirmed {
            Some(ModuleRunView { task: "sec:shadow-it"@, args: seq!["--dry-run"@, "false"@] })
        } else {
            None
        },
        SecurityChoice::Back => None,
    }
}

/// The run that a choice of the user-management menu asks for. Offboarding
/// needs the address of a user: a blank one asks for nothing.
pub open spec fn iam_run(choice: IamChoice, email: Seq<char>) -> Option<ModuleRunView> {
    match choice {
        IamChoice::Offboard => if is_blank(email) {
            None
        } else {
            Some(ModuleRunView { task: "iam:offboard"@, args: seq!["--user"@, email] })
        },
        IamChoice::TestConnectivity => Some(ModuleRunView { task: "iam:test"@, args: Seq::empty() }),
        IamChoice::Back => None,
    }
}

/// The given entries as strings.
fn entries_of(a: &str, b: &str, c: &str) -> (r: Vec<String>)
    ensures
        r.deep_view() == seq![a@, b@, c@],
{
    let mut out: Vec<String> = Vec::new();
    proof {
        assert(out.deep_view() =~= Seq::empty());
    }
    push_str_copy(&mut out, a);
    push_str_copy(&mut out, b);
    push_str_copy(&mut out, c);
    proof {
        assert(out.deep_view() =~= seq![a@, b@, c@]);
    }
    out
}

/// Writes `main_entries`.
pub fn main_menu() -> (r: Vec<String>)
    ensures
        r.deep_view() == main_entries(),
{
    let mut out = entries_of(
        "\u{1f510} Login / Re-authenticate",
        "\u{1f6e1}\u{fe0f}  Security Governance",
        "\u{1f464} IAM & User Management",
    );
    push_str_copy(&mut out, "\u{1f6aa} Exit");
    proof {
        assert(out.deep_view() =~= main_entries());
    }
    out
}

/// Writes `security_entries`.
pub fn security_menu() -> (r: Vec<String>)
    ensures
        r.deep_view() == security_entries(),
{
    entries_of(
        "\u{1f575}\u{fe0f}  Shadow IT Audit (Dry Run)",
        "\u{1f575}\u{fe0f}  Shadow IT Remediation (REVOKE)",
        "\u{2b05}\u{fe0f}  Back",
    )
}

/// Writes `iam_entries`.
pub fn iam_menu() -> (r: Vec<String>)
    ensures
        r.deep_view() == iam_entries(),
{
    entries_of(
        "\u{1f44b} Graceful Offboarding",
        "\u{1f9ea} Test Connectivity (Who am I?)",
        "\u{2b05}\u{fe0f}  Back",
    )
}

/// Decides `main_choice`.
pub fn choose_main(entry: &str) -> (r: MainChoice)
    ensures
        r == main_choice(entry@),
{
    if str_eq(entry, "\u{1f510} Login / Re-authenticate") {
        MainChoice::Login
    } else if str_eq(entry, "\u{1f6e1}\u{fe0f}  Security Governance") {
        MainChoice::Security
    } else if str_eq(entry, "\u{1f464} IAM & User Management") {
        MainChoice::Iam
    } else if str_eq(entry, "\u{1f6aa} Exit") {
        MainChoice::Exit
    } else {
        MainChoice::Unknown
    }
}

/// Decides `security_choice`.
pub fn choose_security(entry: &str) -> (r: SecurityChoice)
    ensures
        r == security_choice(entry@),
{
    if str_eq(entry, "\u{1f575}\u{fe0f}  Shadow IT Audit (Dry Run)") {
        SecurityChoice::Audit
    } else if str_eq(entry, "\u{1f575}\u{fe0f}  Shadow IT Remediation (REVOKE)") {
        SecurityChoice::Remediation
    } else {
        SecurityChoice::Back
    }
}

/// Decides `iam_choice`.
pub fn choose_iam(entry: &str) -> (r: IamChoice)
    ensures
        r == iam_choice(entry@),
{
    if str_eq(entry, "\u{1f44b} Graceful Offboarding") {
        IamChoice::Offboard
    } else if str_eq(entry, "\u{1f9ea} Test Connectivity (Who am I?)") {
        IamChoice::TestConnectivity
    } else {
        IamChoice::Back
    }
}

/// A run of `task` with two arguments, or with none where `first` is
/// missing.
fn module_run(task: &str, first: Option<&str>, second: &str) -> (r: ModuleRun)
    ensures
        r@ == (ModuleRunView {
            task: task@,
            args: match first {
                Some(a) => seq![a@, second@],
                None => Seq::empty(),
            },
        }),
{
    let mut args: Vec<String> = Vec::new();
    proof {
        assert(args.deep_view() =~= Seq::empty());
    }
    match first {
        Some(a) => {
            push_str_copy(&mut args, a);
            push_str_copy(&mut args, second);
            proof {
                assert(args.deep_view() =~= seq![a@, second@]);
            }
        },
        None => {},
    }
    ModuleRun { task: task.to_owned(), args }
}

/// Decides `security_run`.
pub fn handle_security_menu(choice: SecurityChoice, confirmed: bool) -> (r: Option<ModuleRun>)
    ensures
        run_view(r) == security_run(choice, confirmed),
{
    match choice {
        SecurityChoice::Audit => Some(module_run("sec:shadow-it", None, "")),
        SecurityChoice::Remediation => {
            if confirmed {
                Some(module_run("sec:shadow-it", Some("--dry-run"), "false"))
            } else {
                None
            }
        },
        SecurityChoice::Back => None,
    }
}

/// Decides `iam_run`.
pub fn handle_iam_menu(choice: IamChoice, email: &str) -> (r: Option<ModuleRun>)
    ensures
        run_view(r) == iam_run(choice, email@),
{
    match choice {
        IamChoice::Offboard => {
            if str_is_blank(email) {
                None
            } else {
                Some(module_run("iam:offboard", Some("--user"), email))
            }
        },
        IamChoice::TestConnectivity => Some(module_run("iam:test", None, "")),
        IamChoice::Back => None,
    }
}

} // verus!
