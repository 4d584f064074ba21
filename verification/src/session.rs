//! What the interface makes of the outcome of a session check, a login, a
//! task run and an export: the lines it logs and the state it moves to.

use vstd::prelude::*;
use crate::app::{logged, App, AppView, AuthStatus, AuthStatusView};
use crate::export::{csv_text, export_csv, export_file, export_file_name};
use crate::profile::{profile_from_token, profile_of_token, UserProfile, UserProfileView};
use crate::runner::{TaskOutput, TaskOutputView};
use crate::text::str_eq;

verus! {

/// The tenant to sign in at: `common` until a tenant is known.
pub open spec fn login_tenant(tenant_id: Seq<char>) -> Seq<char> {
    if tenant_id == "Not Connected"@ || tenant_id.len() == 0 {
        "common"@
    } else {
        tenant_id
    }
}

/// The state once a check of the session has begun.
pub open spec fn check_begun(a: AppView) -> AppView {
    AppView {
        auth_status: AuthStatusView::Checking,
        ..logged(a, "\u{1f504} Verifying Session..."@)
    }
}

/// The state once the session was found good.
pub open spec fn session_good(a: AppView) -> AppView {
    AppView {
        auth_status: AuthStatusView::Valid("Active"@),
        ..logged(a, "\u{2705} Session Verified"@)
    }
}

/// The state once the session was found bad: the profile is dropped.
pub open spec fn session_bad(a: AppView, reason: Seq<char>) -> AppView {
    AppView {
        auth_status: AuthStatusView::Invalid(reason),
        user_profile: None,
        ..logged(a, "\u{26a0}\u{fe0f} Session Expired: "@ + reason)
    }
}

/// The state once a login has begun.
pub open spec fn login_begun(a: AppView) -> AppView {
    AppView {
        is_loading: true,
        ..logged(
            a,
            "\u{1f680} Authenticating with tenant: "@ + login_tenant(a.tenant_id) + "..."@,
        )
    }
}

/// The state once a login has failed.
pub open spec fn login_failed(a: AppView, reason: Seq<char>) -> AppView {
    AppView { is_loading: false, ..logged(a, "\u{274c} Login Failed: "@ + reason) }
}

/// The state once a login has given an access token: with a token that
/// cannot be read the login is over, else the profile is still to be saved.
pub open spec fn token_taken(a: AppView, token: Seq<char>) -> AppView {
    let greeted = logged(a, "\u{2705} Login Successful!"@);
    match profile_of_token(token) {
        Ok(_) => greeted,
        Err(reason) => AppView {
            is_loading: false,
            ..logged(greeted, "\u{26a0}\u{fe0f} Failed to parse token claims: "@ + reason)
        },
    }
}

/// The state once the profile of a login was saved, or could not be.
pub open spec fn profile_kept(a: AppView, profile: UserProfileView, save_error: Option<Seq<char>>)
    -> AppView {
    let noted = match save_error {
        Some(reason) => logged(a, "\u{26a0}\u{fe0f} Failed to save profile: "@ + reason),
        None => a,
    };
    AppView {
        tenant_id: profile.tenant_id,
        user_profile: Some(profile),
        is_loading: false,
        ..logged(noted, "\u{1f4c4} Token Decoded: User Profile Updated & Saved"@)
    }
}

/// The state once a task could not get its access token.
pub open spec fn task_unauthorized(a: AppView, reason: Seq<char>) -> AppView {
    AppView { is_loading: false, ..logged(a, "\u{274c} Auth Error: "@ + reason) }
}

/// The state once a task is over.
pub open spec fn task_finished(a: AppView, result: Result<TaskOutputView, Seq<char>>) -> AppView {
    match result {
        Ok(output) => AppView {
            task_output: Some(output),
            is_loading: false,
            ..logged(a, "\u{2705} Task Completed Successfully"@)
        },
        Err(reason) => AppView {
            is_loading: false,
            ..logged(a, "\u{274c} Task Failed: "@ + reason)
        },
    }
}

/// What an export at `timestamp` writes: the file's name and its text, if
/// there are results on show.
pub open spec fn export_of(a: AppView, timestamp: Seq<char>) -> Option<(Seq<char>, Seq<char>)> {
    match a.task_output {
        Some(output) => Some((export_file(timestamp), csv_text(output))),
        None => None,
    }
}

/// The state once an export is over; `None` says that there was nothing to
/// export.
pub open spec fn export_finished(a: AppView, result: Option<Result<Seq<char>, Seq<char>>>)
    -> AppView {
    match result {
        None => logged(a, "\u{26a0}\u{fe0f} No results to export"@),
        Some(Ok(file)) => logged(a, "\u{1f4be} Exported to "@ + file),
        Some(Err(reason)) => logged(a, "\u{274c} Failed to export: "@ + reason),
    }
}

/// A line made of a fixed start and what follows it.
fn line(start: &str, rest: &str) -> (r: String)
    ensures
        r@ == start@ + rest@,
{
    let mut out = String::from_str(start);
    out.append(rest);
    out
}

impl App {
    /// Begins the check of the session of a profile that was found, and
    /// returns the tenant to check it at; `None`, and no change, without a
    /// profile.
    pub fn begin_session_check(&mut self) -> (r: Option<String>)
        ensures
            match old(self)@.user_profile {
                Some(profile) => final(self)@ == check_begun(old(self)@) && r.deep_view() == Some(
                    profile.tenant_id,
                ),
                None => final(self)@ == old(self)@ && r is None,
            },
    {
        let tenant = match &self.user_profile {
            Some(profile) => profile.tenant_id.clone(),
            None => {
                return None;
            },
        };
        self.add_log(String::from_str("\u{1f504} Verifying Session..."));
        self.auth_status = AuthStatus::Checking;
        Some(tenant)
    }

    /// Takes the outcome of the session check.
    pub fn finish_session_check(&mut self, failure: Option<String>)
        ensures
            final(self)@ == (match failure {
                None => session_good(old(self)@),
                Some(reason) => session_bad(old(self)@, reason@),
            }),
    {
        match failure {
            None => {
                self.auth_status = AuthStatus::Valid(String::from_str("Active"));
                self.add_log(String::from_str("\u{2705} Session Verified"));
            },
            Some(reason) => {
                self.add_log(line("\u{26a0}\u{fe0f} Session Expired: ", reason.as_str()));
                self.auth_status = AuthStatus::Invalid(reason);
                self.user_profile = None;
            },
        }
    }

    /// Begins a login and returns the tenant to sign in at.
    pub fn begin_login(&mut self) -> (r: String)
        ensures
            final(self)@ == login_begun(old(self)@),
            r@ == login_tenant(old(self)@.tenant_id),
    {
        self.is_loading = true;
        let tenant = if str_eq(self.tenant_id.as_str(), "Not Connected")
            || self.tenant_id.as_str().is_empty() {
            String::from_str("common")
        } else {
            self.tenant_id.clone()
        };
        let mut text = line("\u{1f680} Authenticating with tenant: ", tenant.as_str());
        text.append("...");
        self.add_log(text);
        tenant
    }

    /// Takes the failure of a login.
    pub fn fail_login(&mut self, reason: &str)
        ensures
            final(self)@ == login_failed(old(self)@, reason@),
    {
        self.add_log(line("\u{274c} Login Failed: ", reason));
        self.is_loading = false;
    }

    /// Takes the access token of a login and returns the profile to save,
    /// if the token gives one.
    pub fn take_login_token(&mut self, token: &str) -> (r: Option<UserProfile>)
        ensures
            final(self)@ == token_taken(old(self)@, token@),
            match profile_of_token(token@) {
                Ok(profile) => r matches Some(p) && p@ == profile,
                Err(_) => r is None,
            },
    {
        self.add_log(String::from_str("\u{2705} Login Successful!"));
        match profile_from_token(token) {
            Ok(profile) => Some(profile),
            Err(reason) => {
                self.add_log(line("\u{26a0}\u{fe0f} Failed to parse token claims: ", reason.as_str()));
                self.is_loading = false;
                None
            },
        }
    }

    /// Takes the profile of a login, once it was saved or could not be.
    pub fn keep_profile(&mut self, profile: UserProfile, save_error: Option<String>)
        ensures
            final(self)@ == profile_kept(old(self)@, profile@, save_error.deep_view()),
    {
        match save_error {
            Some(reason) => {
                self.add_log(line("\u{26a0}\u{fe0f} Failed to save profile: ", reason.as_str()));
            },
            None => {},
        }
        self.tenant_id = profile.tenant_id.clone();
        self.user_profile = Some(profile);
        self.add_log(String::from_str("\u{1f4c4} Token Decoded: User Profile Updated & Saved"));
        self.is_loading = false;
    }

    /// Begins a task: the interface waits.
    pub fn begin_task(&mut self)
        ensures
            final(self)@ == (AppView { is_loading: true, ..old(self)@ }),
    {
        self.is_loading = true;
    }

    /// Notes that task `name` runs.
    pub fn note_task_running(&mut self, name: &str)
        ensures
            final(self)@ == logged(old(self)@, "\u{1f680} Running Task: "@ + name@),
    {
        self.add_log(line("\u{1f680} Running Task: ", name));
    }

    /// Takes the failure to get an access token for a task.
    pub fn fail_task_auth(&mut self, reason: &str)
        ensures
            final(self)@ == task_unauthorized(old(self)@, reason@),
    {
        self.add_log(line("\u{274c} Auth Error: ", reason));
        self.is_loading = false;
    }

    /// Takes the result of a task.
    pub fn finish_task(&mut self, result: Result<TaskOutput, String>)
        ensures
            final(self)@ == task_finished(
                old(self)@,
                match result {
                    Ok(output) => Ok(output@),
                    Err(reason) => Err(reason@),
                },
            ),
    {
        match result {
            Ok(output) => {
                self.task_output = Some(output);
                self.add_log(String::from_str("\u{2705} Task Completed Successfully"));
            },
            Err(reason) => {
                self.add_log(line("\u{274c} Task Failed: ", reason.as_str()));
            },
        }
        self.is_loading = false;
    }

    /// Puts the results away.
    pub fn back_to_menu(&mut self)
        ensures
            final(self)@ == (AppView {
                task_output: None,
                ..logged(old(self)@, "\u{1f519} Returned to Menu"@)
            }),
    {
        self.task_output = None;
        self.add_log(String::from_str("\u{1f519} Returned to Menu"));
    }

    /// The file and the text of an export at `timestamp`, as `export_of`
    /// says.
    pub fn prepare_export(&self, timestamp: &str) -> (r: Option<(String, String)>)
        ensures
            r.deep_view() == export_of(self@, timestamp@),
    {
        match &self.task_output {
            Some(output) => Some((export_file_name(timestamp), export_csv(output))),
            None => None,
        }
    }

    /// Takes the outcome of an export.
    pub fn finish_export(&mut self, result: Option<Result<String, String>>)
        ensures
            final(self)@ == export_finished(
                old(self)@,
                match result {
                    None => None,
                    Some(Ok(file)) => Some(Ok(file@)),
                    Some(Err(reason)) => Some(Err(reason@)),
                },
            ),
    {
        match result {
            None => {
                self.add_log(String::from_str("\u{26a0}\u{fe0f} No results to export"));
            },
            Some(Ok(file)) => {
                self.add_log(line("\u{1f4be} Exported to ", file.as_str()));
            },
            Some(Err(reason)) => {
                self.add_log(line("\u{274c} Failed to export: ", reason.as_str()));
            },
        }
    }
}

} // verus!
