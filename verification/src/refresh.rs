//! Renewing a session: the stored refresh token is exchanged for a new
//! access token, as a state machine. The caller does the outside work that
//! an action names and reports what came of it as an event.

use vstd::prelude::*;
use crate::auth::{AuthManager, AuthManagerView};
use crate::credential::{after_migration, get_result, StoreErrorView, StoreView};
use crate::error::{error_view, AuthError, AuthErrorView};
use crate::login::token_result_view;
use crate::text::{trim, trimmed};

verus! {

/// How the vault answered a request for the stored credential.
#[derive(Debug)]
pub enum LoadOutcome {
    /// This is the stored secret.
    Found { secret: String },
    /// Nothing is stored.
    NoEntry,
    /// The vault failed.
    Unavailable { reason: String },
}

/// A `LoadOutcome` as plain values.
pub enum LoadOutcomeView {
    Found { secret: Seq<char> },
    NoEntry,
    Unavailable { reason: Seq<char> },
}

impl View for LoadOutcome {
    type V = LoadOutcomeView;

    open spec fn view(&self) -> LoadOutcomeView {
        match *self {
            LoadOutcome::Found { secret } => LoadOutcomeView::Found { secret: secret@ },
            LoadOutcome::NoEntry => LoadOutcomeView::NoEntry,
            LoadOutcome::Unavailable { reason } => LoadOutcomeView::Unavailable { reason: reason@ },
        }
    }
}

/// How a store that holds `s` answers a request for the credential.
pub open spec fn load_outcome(s: StoreView) -> LoadOutcomeView {
    match get_result(s) {
        Ok(secret) => LoadOutcomeView::Found { secret },
        Err(StoreErrorView::NoEntry) => LoadOutcomeView::NoEntry,
        Err(StoreErrorView::Unavailable { reason }) => LoadOutcomeView::Unavailable { reason },
    }
}

/// How far a renewal has come.
#[derive(Debug, Clone, Copy, PartialEq, Eq, Structural)]
pub enum RefreshPhase {
    /// The stored credential is being read.
    Loading,
    /// The refresh token is being exchanged.
    Exchanging,
    /// The provider sent a new refresh token; it is being stored.
    Rotating,
    /// The renewal succeeded.
    Refreshed,
    /// The renewal failed.
    Aborted,
}

/// What the caller reports from outside.
#[derive(Debug)]
pub enum RefreshEvent {
    /// The vault answered the request for the credential.
    Loaded { outcome: LoadOutcome },
    /// The token endpoint answered the exchange.
    Exchanged { access_token: String, refresh_token: Option<String> },
    /// The exchange failed.
    ExchangeFailed { reason: String },
    /// The new refresh token is stored.
    Stored,
    /// The new refresh token could not be stored.
    StoreFailed { reason: String },
}

/// A `RefreshEvent` as plain values.
pub enum RefreshEventView {
    Loaded { outcome: LoadOutcomeView },
    Exchanged { access_token: Seq<char>, refresh_token: Option<Seq<char>> },
    ExchangeFailed { reason: Seq<char> },
    Stored,
    StoreFailed { reason: Seq<char> },
}

impl View for RefreshEvent {
    type V = RefreshEventView;

    open spec fn view(&self) -> RefreshEventView {
        match *self {
            RefreshEvent::Loaded { outcome } => RefreshEventView::Loaded { outcome: outcome@ },
            RefreshEvent::Exchanged { access_token, refresh_token } => RefreshEventView::Exchanged {
                access_token: access_token@,
                refresh_token: refresh_token.deep_view(),
            },
            RefreshEvent::ExchangeFailed { reason } => RefreshEventView::ExchangeFailed {
                reason: reason@,
            },
            RefreshEvent::Stored => RefreshEventView::Stored,
            RefreshEvent::StoreFailed { reason } => RefreshEventView::StoreFailed {
                reason: reason@,
            },
        }
    }
}

/// What the caller is to do next.
#[derive(Debug)]
pub enum RefreshAction {
    /// Run the migration of the legacy token file, whatever comes of it;
    /// then read the stored credential.
    MigrateThenLoad,
    /// Exchange `refresh_token` for tokens, as client `client_id`, at the
    /// token endpoint `token_url`.
    Exchange { refresh_token: String, client_id: String, token_url: String },
    /// Store `refresh_token` in place of the credential.
    StoreCredential { refresh_token: String },
    /// The renewal is over; `RefreshFlow::outcome` has its result.
    Done,
    /// The event does not belong to this point of the renewal; nothing
    /// changed.
    Ignored,
}

/// A `RefreshAction` as plain values.
pub enum RefreshActionView {
    MigrateThenLoad,
    Exchange { refresh_token: Seq<char>, client_id: Seq<char>, token_url: Seq<char> },
    StoreCredential { refresh_token: Seq<char> },
    Done,
    Ignored,
}

impl View for RefreshAction {
    type V = RefreshActionView;

    open spec fn view(&self) -> RefreshActionView {
        match *self {
            RefreshAction::MigrateThenLoad => RefreshActionView::MigrateThenLoad,
            RefreshAction::Exchange { refresh_token, client_id, token_url } => {
                RefreshActionView::Exchange {
                    refresh_token: refresh_token@,
                    client_id: client_id@,
                    token_url: token_url@,
                }
            },
            RefreshAction::StoreCredential { refresh_token } => RefreshActionView::StoreCredential {
                refresh_token: refresh_token@,
            },
            RefreshAction::Done => RefreshActionView::Done,
            RefreshAction::Ignored => RefreshActionView::Ignored,
        }
    }
}

/// One renewal of a session.
pub struct RefreshFlow {
    phase: RefreshPhase,
    client_id: String,
    token_url: String,
    access_token: String,
    error: Option<AuthError>,
}

/// A `RefreshFlow` as plain values.
pub struct RefreshFlowView {
    pub phase: RefreshPhase,
    pub client_id: Seq<char>,
    pub token_url: Seq<char>,
    pub access_token: Seq<char>,
    pub error: Option<AuthErrorView>,
}

impl View for RefreshFlow {
    type V = RefreshFlowView;

    closed spec fn view(&self) -> RefreshFlowView {
        RefreshFlowView {
            phase: self.phase,
            client_id: self.client_id@,
            token_url: self.token_url@,
            access_token: self.access_token@,
            error: error_view(self.error),
        }
    }
}

/// A renewal has an error exactly when it is aborted, and an access token
/// only once the exchange has given one.
pub open spec fn refresh_valid(s: RefreshFlowView) -> bool {
    &&& s.error is Some <==> s.phase == RefreshPhase::Aborted
    &&& (s.phase != RefreshPhase::Rotating && s.phase != RefreshPhase::Refreshed)
        ==> s.access_token.len() == 0
}

/// Whether the renewal is over.
pub open spec fn refresh_over(s: RefreshFlowView) -> bool {
    s.phase == RefreshPhase::Refreshed || s.phase == RefreshPhase::Aborted
}

/// A renewal that has just begun for a client: it will exchange as that
/// client, at that client's token endpoint.
pub open spec fn refresh_begun(client: AuthManagerView) -> RefreshFlowView {
    RefreshFlowView {
        phase: RefreshPhase::Loading,
        client_id: client.client_id,
        token_url: client.token_url,
        access_token: Seq::empty(),
        error: None,
    }
}

/// The renewal, aborted with `error`.
pub open spec fn refresh_aborted(s: RefreshFlowView, error: AuthErrorView) -> RefreshFlowView {
    RefreshFlowView {
        phase: RefreshPhase::Aborted,
        access_token: Seq::empty(),
        error: Some(error),
        ..s
    }
}

/// What an event makes of a renewal, and what the caller is to do next.
///
/// Without a stored credential the renewal fails. The stored secret is
/// exchanged without the whitespace around it, as the client and at the
/// token endpoint that the renewal was begun for. The stored credential is
/// written only where the provider sent a new refresh token, and then with
/// that token; else it stays as it is. An event that does not belong to the
/// renewal's phase, and any event once it is over, changes nothing.
pub open spec fn refresh_step(s: RefreshFlowView, e: RefreshEventView) -> (
    RefreshFlowView,
    RefreshActionView,
) {
    match (s.phase, e) {
        (RefreshPhase::Loading, RefreshEventView::Loaded { outcome }) => match outcome {
            LoadOutcomeView::Found { secret } => (
                RefreshFlowView { phase: RefreshPhase::Exchanging, ..s },
                RefreshActionView::Exchange {
                    refresh_token: trimmed(secret),
                    client_id: s.client_id,
                    token_url: s.token_url,
                },
            ),
            LoadOutcomeView::NoEntry => (
                refresh_aborted(s, AuthErrorView::NoStoredCredential),
                RefreshActionView::Done,
            ),
            LoadOutcomeView::Unavailable { reason } => (
                refresh_aborted(s, AuthErrorView::CredentialStore { reason }),
                RefreshActionView::Done,
            ),
        },
        (
            RefreshPhase::Exchanging,
            RefreshEventView::Exchanged { access_token, refresh_token },
        ) => match refresh_token {
            Some(token) => (
                RefreshFlowView { phase: RefreshPhase::Rotating, access_token, ..s },
                RefreshActionView::StoreCredential { refresh_token: token },
            ),
            None => (
                RefreshFlowView { phase: RefreshPhase::Refreshed, access_token, ..s },
                RefreshActionView::Done,
            ),
        },
        (RefreshPhase::Exchanging, RefreshEventView::ExchangeFailed { reason }) => (
            refresh_aborted(s, AuthErrorView::TokenExchange { reason }),
            RefreshActionView::Done,
        ),
        (RefreshPhase::Rotating, RefreshEventView::Stored) => (
            RefreshFlowView { phase: RefreshPhase::Refreshed, ..s },
            RefreshActionView::Done,
        ),
        (RefreshPhase::Rotating, RefreshEventView::StoreFailed { reason }) => (
            refresh_aborted(s, AuthErrorView::CredentialStore { reason }),
            RefreshActionView::Done,
        ),
        _ => (s, RefreshActionView::Ignored),
    }
}

/// The result of a renewal: the access token, or why it failed; `None`
/// while it is not over.
pub open spec fn refresh_outcome(s: RefreshFlowView) -> Option<Result<Seq<char>, AuthErrorView>> {
    match s.phase {
        RefreshPhase::Refreshed => Some(Ok(s.access_token)),
        RefreshPhase::Aborted => match s.error {
            Some(e) => Some(Err(e)),
            None => None,
        },
        _ => None,
    }
}

impl AuthManager {
    /// Begins the renewal of the session of this client: the exchange will
    /// be made as this client, at its token endpoint.
    pub fn get_access_token(&self) -> (r: (RefreshFlow, RefreshAction))
        ensures
            r.0@ == refresh_begun(self@),
            refresh_valid(r.0@),
            r.1@ == RefreshActionView::MigrateThenLoad,
    {
        let flow = RefreshFlow {
            phase: RefreshPhase::Loading,
            client_id: self.client_id().to_owned(),
            token_url: self.token_url().to_owned(),
            access_token: String::new(),
            error: None,
        };
        (flow, RefreshAction::MigrateThenLoad)
    }
}

impl RefreshFlow {
    /// How far the renewal has come.
    pub fn phase(&self) -> (r: RefreshPhase)
        ensures
            r == self@.phase,
    {
        self.phase
    }

    /// Aborts the renewal with `error`.
    fn abort(&mut self, error: AuthError)
        ensures
            final(self)@ == refresh_aborted(old(self)@, error@),
    {
        self.phase = RefreshPhase::Aborted;
        self.access_token = String::new();
        self.error = Some(error);
    }

    /// Takes an event, as `refresh_step` says, and names what to do next.
    pub fn step(&mut self, event: RefreshEvent) -> (action: RefreshAction)
        ensures
            (final(self)@, action@) == refresh_step(old(self)@, event@),
            refresh_valid(old(self)@) ==> refresh_valid(final(self)@),
    {
        match self.phase {
            RefreshPhase::Loading => match event {
                RefreshEvent::Loaded { outcome } => match outcome {
                    LoadOutcome::Found { secret } => {
                        self.phase = RefreshPhase::Exchanging;
                        RefreshAction::Exchange {
                            refresh_token: trim(secret.as_str()),
                            client_id: self.client_id.clone(),
                            token_url: self.token_url.clone(),
                        }
                    },
                    LoadOutcome::NoEntry => {
                        self.abort(AuthError::NoStoredCredential);
                        RefreshAction::Done
                    },
                    LoadOutcome::Unavailable { reason } => {
                        self.abort(AuthError::CredentialStore { reason });
                        RefreshAction::Done
                    },
                },
                _ => RefreshAction::Ignored,
            },
            RefreshPhase::Exchanging => match event {
                RefreshEvent::Exchanged { access_token, refresh_token } => {
                    self.access_token = access_token;
                    match refresh_token {
                        Some(token) => {
                            self.phase = RefreshPhase::Rotating;
                            RefreshAction::StoreCredential { refresh_token: token }
                        },
                        None => {
                            self.phase = RefreshPhase::Refreshed;
                            RefreshAction::Done
                        },
                    }
                },
                RefreshEvent::ExchangeFailed { reason } => {
                    self.abort(AuthError::TokenExchange { reason });
                    RefreshAction::Done
                },
                _ => RefreshAction::Ignored,
            },
            RefreshPhase::Rotating => match event {
                RefreshEvent::Stored => {
                    self.phase = RefreshPhase::Refreshed;
                    RefreshAction::Done
                },
                RefreshEvent::StoreFailed { reason } => {
                    self.abort(AuthError::CredentialStore { reason });
                    RefreshAction::Done
                },
                _ => RefreshAction::Ignored,
            },
            RefreshPhase::Refreshed => RefreshAction::Ignored,
            RefreshPhase::Aborted => RefreshAction::Ignored,
        }
    }

    /// The result of the renewal, once it is over.
    pub fn outcome(self) -> (r: Option<Result<String, AuthError>>)
        ensures
            token_result_view(r) == refresh_outcome(self@),
    {
        match self.phase {
            RefreshPhase::Refreshed => Some(Ok(self.access_token)),
            RefreshPhase::Aborted => match self.error {
                Some(e) => Some(Err(e)),
                None => None,
            },
            _ => None,
        }
    }
}

/// Once a renewal is over, no event changes it.
pub proof fn lemma_refresh_over_is_final(s: RefreshFlowView, e: RefreshEventView)
    requires
        refresh_over(s),
    ensures
        refresh_step(s, e) == (s, RefreshActionView::Ignored),
{
}

/// With nothing in the store, and no token in a legacy file to migrate, a
/// renewal fails for want of a stored credential, whatever the client.
pub proof fn lemma_refresh_without_credential(client: AuthManagerView, store: StoreView)
    requires
        store.secret is None,
        store.legacy matches Some(text) ==> crate::text::is_blank(text),
    ensures
        load_outcome(after_migration(store)) == LoadOutcomeView::NoEntry,
        refresh_outcome(
            refresh_step(
                refresh_begun(client),
                RefreshEventView::Loaded { outcome: load_outcome(after_migration(store)) },
            ).0,
        ) == Some(Err::<Seq<char>, AuthErrorView>(AuthErrorView::NoStoredCredential)),
{
}

/// The stored credential is written only where the provider sent a new
/// refresh token, and then with that token.
pub proof fn lemma_rotation_only_on_new_token(s: RefreshFlowView, e: RefreshEventView)
    ensures
        refresh_step(s, e).1 matches RefreshActionView::StoreCredential { refresh_token } ==> e
            == (RefreshEventView::Exchanged {
            access_token: refresh_step(s, e).0.access_token,
            refresh_token: Some(refresh_token),
        }),
        (s.phase == RefreshPhase::Exchanging && e matches RefreshEventView::Exchanged {
            refresh_token: None,
            ..
        }) ==> refresh_step(s, e).1 == RefreshActionView::Done && refresh_outcome(
            refresh_step(s, e).0,
        ) is Some,
{
}

/// Every step keeps a renewal valid: what `refresh_valid` says holds in
/// every state that a renewal can reach.
pub proof fn lemma_refresh_step_keeps_valid(s: RefreshFlowView, e: RefreshEventView)
    requires
        refresh_valid(s),
    ensures
        refresh_valid(refresh_step(s, e).0),
{
}

/// Every exchange of a renewal is made as the client it was begun for, at
/// that client's token endpoint: no step changes either.
pub proof fn lemma_exchange_stays_with_client(s: RefreshFlowView, e: RefreshEventView)
    ensures
        refresh_step(s, e).0.client_id == s.client_id,
        refresh_step(s, e).0.token_url == s.token_url,
        refresh_step(s, e).1 matches RefreshActionView::Exchange { client_id, token_url, .. }
            ==> client_id == s.client_id && token_url == s.token_url,
{
}

} // verus!
