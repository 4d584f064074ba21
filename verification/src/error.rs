//! Why signing in, or renewing a session, failed.

use vstd::prelude::*;
use crate::text::{contains, lemma_contains_in_suffix, occurs_at};

verus! {

/// A failure of the session manager.
#[derive(Debug)]
pub enum AuthError {
    /// An endpoint of the identity provider is no URL.
    InvalidEndpoint { url: String },
    /// The loopback listener could not be bound, or took no connection.
    Listener { reason: String },
    /// The callback's `state` is missing or is not this attempt's token.
    CsrfMismatch,
    /// The callback carries no authorization code.
    MissingAuthorizationCode { received: String },
    /// The token endpoint could not be reached or rejected the exchange.
    TokenExchange { reason: String },
    /// The provider sent no refresh token.
    MissingOfflineAccess,
    /// The credential store is unavailable or denied access.
    CredentialStore { reason: String },
    /// No credential is stored.
    NoStoredCredential,
}

/// An `AuthError` as plain values.
pub enum AuthErrorView {
    InvalidEndpoint { url: Seq<char> },
    Listener { reason: Seq<char> },
    CsrfMismatch,
    MissingAuthorizationCode { received: Seq<char> },
    TokenExchange { reason: Seq<char> },
    MissingOfflineAccess,
    CredentialStore { reason: Seq<char> },
    NoStoredCredential,
}

impl View for AuthError {
    type V = AuthErrorView;

    open spec fn view(&self) -> AuthErrorView {
        match *self {
            AuthError::InvalidEndpoint { url } => AuthErrorView::InvalidEndpoint { url: url@ },
            AuthError::Listener { reason } => AuthErrorView::Listener { reason: reason@ },
            AuthError::CsrfMismatch => AuthErrorView::CsrfMismatch,
            AuthError::MissingAuthorizationCode { received } => {
                AuthErrorView::MissingAuthorizationCode { received: received@ }
            },
            AuthError::TokenExchange { reason } => AuthErrorView::TokenExchange { reason: reason@ },
            AuthError::MissingOfflineAccess => AuthErrorView::MissingOfflineAccess,
            AuthError::CredentialStore { reason } => AuthErrorView::CredentialStore {
                reason: reason@,
            },
            AuthError::NoStoredCredential => AuthErrorView::NoStoredCredential,
        }
    }
}

/// The view of an error that may be missing.
pub open spec fn error_view(e: Option<AuthError>) -> Option<AuthErrorView> {
    match e {
        Some(error) => Some(error@),
        None => None,
    }
}

/// What every message ends with: what to do about it.
pub open spec fn advice() -> Seq<char> {
    " Please run `o365-cli login` again."@
}

/// What went wrong, in words.
pub open spec fn cause_text(e: AuthErrorView) -> Seq<char> {
    match e {
        AuthErrorView::InvalidEndpoint { url } => "Invalid endpoint URL: "@ + url,
        AuthErrorView::Listener { reason } => "Failed to receive the OAuth callback: "@ + reason,
        AuthErrorView::CsrfMismatch => "CSRF validation failed: state mismatch"@,
        AuthErrorView::MissingAuthorizationCode { received } => {
            "Failed to retrieve authorization code from callback. Received: "@ + received
        },
        AuthErrorView::TokenExchange { reason } => "Failed to exchange token: "@ + reason,
        AuthErrorView::MissingOfflineAccess => {
            "Microsoft did not return a refresh token. This usually means the 'offline_access' scope was not consented."@
        },
        AuthErrorView::CredentialStore { reason } => "Failed to access system keyring: "@ + reason,
        AuthErrorView::NoStoredCredential => "No credentials found."@,
    }
}

/// What a user is told of an error: the cause, then the advice.
pub open spec fn auth_error_text(e: AuthErrorView) -> Seq<char> {
    cause_text(e) + advice()
}

/// Every message tells the user to sign in again.
pub proof fn lemma_every_message_says_login(e: AuthErrorView)
    ensures
        contains(auth_error_text(e), "login"@),
{
    reveal_strlit(" Please run `o365-cli login` again.");
    reveal_strlit("login");
    assert(advice().subrange(22, 27) =~= "login"@);
    assert(occurs_at(advice(), "login"@, 22));
    lemma_contains_in_suffix(cause_text(e), advice(), "login"@);
}

impl AuthError {
    /// Writes the cause of the error.
    fn cause(&self) -> (r: String)
        ensures
            r@ == cause_text(self@),
    {
        match self {
            AuthError::InvalidEndpoint { url } => {
                let mut out = String::from_str("Invalid endpoint URL: ");
                out.append(url.as_str());
                out
            },
            AuthError::Listener { reason } => {
                let mut out = String::from_str("Failed to receive the OAuth callback: ");
                out.append(reason.as_str());
                out
            },
            AuthError::CsrfMismatch => String::from_str("CSRF validation failed: state mismatch"),
            AuthError::MissingAuthorizationCode { received } => {
                let mut out = String::from_str(
                    "Failed to retrieve authorization code from callback. Received: ",
                );
                out.append(received.as_str());
                out
            },
            AuthError::TokenExchange { reason } => {
                let mut out = String::from_str("Failed to exchange token: ");
                out.append(reason.as_str());
                out
            },
            AuthError::MissingOfflineAccess => String::from_str(
                "Microsoft did not return a refresh token. This usually means the 'offline_access' scope was not consented.",
            ),
            AuthError::CredentialStore { reason } => {
                let mut out = String::from_str("Failed to access system keyring: ");
                out.append(reason.as_str());
                out
            },
            AuthError::NoStoredCredential => String::from_str("No credentials found."),
        }
    }

    /// Writes `auth_error_text`.
    pub fn describe(&self) -> (r: String)
        ensures
            r@ == auth_error_text(self@),
            contains(r@, "login"@),
    {
        let mut out = self.cause();
        out.append(" Please run `o365-cli login` again.");
        proof {
            lemma_every_message_says_login(self@);
        }
        out
    }
}

} // verus!
