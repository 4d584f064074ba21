//! Signing in: the authorization-code flow with PKCE, through a browser and
//! a loopback listener, as a state machine. The caller does the outside
//! work that an action names and reports what came of it as an event.

use vstd::prelude::*;
use crate::auth::{get_login_scopes, login_scopes, AuthManager};
use crate::callback::{
    callback_pairs, first_value, get_redirect_uri, get_request_target, http_ok, is_favicon, is_favicon_request,
    judge_callback, read_callback_pairs, redirect_uri, request_target, success_page,
    success_response, verdict, CallbackVerdict, CallbackVerdictView,
};
use crate::credential::{clear_error, clear_keychain_entry, DeleteOutcome, DeleteOutcomeView};
use crate::error::{error_view, AuthError, AuthErrorView};
use crate::oauth::{
    authorization_url, build_authorization_url, derive_pkce_challenge, new_csrf_token,
    new_pkce_pair, pkce_challenge, verifier_length_ok,
};

verus! {

/// The secrets of one login attempt: the PKCE code verifier, the challenge
/// derived from it, and the token that guards the callback.
pub struct PkceExchange {
    verifier: String,
    challenge: String,
    state: String,
}

/// A `PkceExchange` as plain values.
pub struct PkceExchangeView {
    pub verifier: Seq<char>,
    pub challenge: Seq<char>,
    pub state: Seq<char>,
}

impl View for PkceExchange {
    type V = PkceExchangeView;

    closed spec fn view(&self) -> PkceExchangeView {
        PkceExchangeView {
            verifier: self.verifier@,
            challenge: self.challenge@,
            state: self.state@,
        }
    }
}

/// The challenge is the one derived from the verifier, and the verifier
/// has a length that the provider takes.
pub open spec fn exchange_valid(x: PkceExchangeView) -> bool {
    verifier_length_ok(x.verifier) && x.challenge == pkce_challenge(x.verifier)
}

/// The view of an exchange that may be missing.
pub open spec fn exchange_view(x: Option<PkceExchange>) -> Option<PkceExchangeView> {
    match x {
        Some(exchange) => Some(exchange@),
        None => None,
    }
}

impl PkceExchange {
    /// Every exchange is valid: none is made in any other way.
    #[verifier::type_invariant]
    spec fn always_valid(self) -> bool {
        exchange_valid(self@)
    }

    /// Fresh secrets for one attempt: a random verifier with its challenge,
    /// and a random state token.
    pub fn generate() -> (r: PkceExchange)
        ensures
            exchange_valid(r@),
    {
        let (challenge, verifier) = new_pkce_pair();
        let state = new_csrf_token();
        PkceExchange { verifier, challenge, state }
    }

    /// The secrets of an attempt with a given verifier and state token;
    /// `None` where the verifier has not 43 to 128 bytes.
    pub fn from_verifier(verifier: &str, state: &str) -> (r: Option<PkceExchange>)
        ensures
            match exchange_view(r) {
                Some(x) => verifier_length_ok(verifier@) && exchange_valid(x) && x.verifier
                    == verifier@ && x.state == state@,
                None => !verifier_length_ok(verifier@),
            },
    {
        let n = verifier.as_bytes().len();
        if 43 <= n && n <= 128 {
            let challenge = derive_pkce_challenge(verifier);
            Some(PkceExchange { verifier: verifier.to_owned(), challenge, state: state.to_owned() })
        } else {
            None
        }
    }

    /// The code verifier.
    pub fn code_verifier(&self) -> (r: &str)
        ensures
            r@ == self@.verifier,
            exchange_valid(self@),
    {
        proof {
            use_type_invariant(self);
        }
        self.verifier.as_str()
    }

    /// The code challenge.
    pub fn code_challenge(&self) -> (r: &str)
        ensures
            r@ == self@.challenge,
    {
        self.challenge.as_str()
    }

    /// The state token.
    pub fn state_token(&self) -> (r: &str)
        ensures
            r@ == self@.state,
    {
        self.state.as_str()
    }
}

/// The challenge is a function of the verifier: two attempts with one
/// verifier have one challenge.
pub proof fn lemma_challenge_follows_verifier(a: PkceExchangeView, b: PkceExchangeView)
    requires
        exchange_valid(a),
        exchange_valid(b),
        a.verifier == b.verifier,
    ensures
        a.challenge == b.challenge,
{
}

/// How far a login attempt has come.
#[derive(Debug, Clone, Copy, PartialEq, Eq, Structural)]
pub enum LoginPhase {
    /// Nothing is set up yet: the old credential is being cleared, then the
    /// listener bound.
    Idle,
    /// The listener is bound; the browser is being opened.
    ListenerBound,
    /// The browser was sent off; the callback is awaited.
    BrowserLaunched,
    /// A callback with the right state and a code has come; the code is
    /// being exchanged.
    CallbackReceived,
    /// The tokens have come; the refresh token is being stored.
    CodeExchanged,
    /// The refresh token is stored: the attempt succeeded.
    TokenStored,
    /// The attempt failed.
    Aborted,
}

/// What the caller reports from outside.
#[derive(Debug)]
pub enum LoginEvent {
    /// The vault answered the request to delete the stored credential.
    Cleared { outcome: DeleteOutcome },
    /// The listener is bound to this port of the loopback address.
    Bound { port: u16 },
    /// The listener could not be bound.
    BindFailed { reason: String },
    /// The browser was asked to open the address; `launched` tells whether
    /// it did.
    BrowserOpened { launched: bool },
    /// A connection came in; this is the first line of its request.
    Request { line: String },
    /// No connection could be taken, or its request not read.
    AcceptFailed { reason: String },
    /// The response could not be written to the browser.
    RespondFailed { reason: String },
    /// The token endpoint answered the exchange.
    Exchanged { access_token: String, refresh_token: Option<String> },
    /// The exchange failed.
    ExchangeFailed { reason: String },
    /// The refresh token is stored.
    Stored,
    /// The refresh token could not be stored.
    StoreFailed { reason: String },
}

/// A `LoginEvent` as plain values.
pub enum LoginEventView {
    Cleared { outcome: DeleteOutcomeView },
    Bound { port: u16 },
    BindFailed { reason: Seq<char> },
    BrowserOpened { launched: bool },
    Request { line: Seq<char> },
    AcceptFailed { reason: Seq<char> },
    RespondFailed { reason: Seq<char> },
    Exchanged { access_token: Seq<char>, refresh_token: Option<Seq<char>> },
    ExchangeFailed { reason: Seq<char> },
    Stored,
    StoreFailed { reason: Seq<char> },
}

impl View for LoginEvent {
    type V = LoginEventView;

    open spec fn view(&self) -> LoginEventView {
        match *self {
            LoginEvent::Cleared { outcome } => LoginEventView::Cleared { outcome: outcome@ },
            LoginEvent::Bound { port } => LoginEventView::Bound { port },
            LoginEvent::BindFailed { reason } => LoginEventView::BindFailed { reason: reason@ },
            LoginEvent::BrowserOpened { launched } => LoginEventView::BrowserOpened { launched },
            LoginEvent::Request { line } => LoginEventView::Request { line: line@ },
            LoginEvent::AcceptFailed { reason } => LoginEventView::AcceptFailed { reason: reason@ },
            LoginEvent::RespondFailed { reason } => LoginEventView::RespondFailed {
                reason: reason@,
            },
            LoginEvent::Exchanged { access_token, refresh_token } => LoginEventView::Exchanged {
                access_token: access_token@,
                refresh_token: refresh_token.deep_view(),
            },
            LoginEvent::ExchangeFailed { reason } => LoginEventView::ExchangeFailed {
                reason: reason@,
            },
            LoginEvent::Stored => LoginEventView::Stored,
            LoginEvent::StoreFailed { reason } => LoginEventView::StoreFailed { reason: reason@ },
        }
    }
}

/// What the caller is to do next.
#[derive(Debug)]
pub enum LoginAction {
    /// Delete the stored credential, and report how the vault answered.
    /// Unless `clear_keychain_entry` calls the answer an error, remove the
    /// legacy token file too.
    ClearCredential,
    /// Bind a listener to the loopback address, on a port that the system
    /// picks.
    BindListener,
    /// Open `url` in the system's browser.
    OpenBrowser { url: String },
    /// Take one connection and read the first line of its request. Where
    /// `manual_url` is given, the browser did not open: show that address
    /// to the user first.
    AwaitCallback { manual_url: Option<String> },
    /// Write `response` to the browser; then exchange `code` and `verifier`
    /// for tokens at the token endpoint, naming `redirect_uri`.
    RespondAndExchange { response: String, code: String, verifier: String, redirect_uri: String },
    /// Store `refresh_token` as the credential.
    StoreCredential { refresh_token: String },
    /// The attempt is over; `LoginFlow::outcome` has its result.
    Done,
    /// The event does not belong to this point of the attempt; nothing
    /// changed.
    Ignored,
}

/// A `LoginAction` as plain values.
pub enum LoginActionView {
    ClearCredential,
    BindListener,
    OpenBrowser { url: Seq<char> },
    AwaitCallback { manual_url: Option<Seq<char>> },
    RespondAndExchange {
        response: Seq<char>,
        code: Seq<char>,
        verifier: Seq<char>,
        redirect_uri: Seq<char>,
    },
    StoreCredential { refresh_token: Seq<char> },
    Done,
    Ignored,
}

impl View for LoginAction {
    type V = LoginActionView;

    open spec fn view(&self) -> LoginActionView {
        match *self {
            LoginAction::ClearCredential => LoginActionView::ClearCredential,
            LoginAction::BindListener => LoginActionView::BindListener,
            LoginAction::OpenBrowser { url } => LoginActionView::OpenBrowser { url: url@ },
            LoginAction::AwaitCallback { manual_url } => LoginActionView::AwaitCallback {
                manual_url: manual_url.deep_view(),
            },
            LoginAction::RespondAndExchange { response, code, verifier, redirect_uri } => {
                LoginActionView::RespondAndExchange {
                    response: response@,
                    code: code@,
                    verifier: verifier@,
                    redirect_uri: redirect_uri@,
                }
            },
            LoginAction::StoreCredential { refresh_token } => LoginActionView::StoreCredential {
                refresh_token: refresh_token@,
            },
            LoginAction::Done => LoginActionView::Done,
            LoginAction::Ignored => LoginActionView::Ignored,
        }
    }
}

/// One login attempt.
pub struct LoginFlow {
    phase: LoginPhase,
    cleared: bool,
    client_id: String,
    auth_url: String,
    exchange: Option<PkceExchange>,
    port: u16,
    url: String,
    access_token: String,
    error: Option<AuthError>,
}

/// A `LoginFlow` as plain values.
pub struct LoginFlowView {
    pub phase: LoginPhase,
    pub cleared: bool,
    pub client_id: Seq<char>,
    pub auth_url: Seq<char>,
    pub exchange: Option<PkceExchangeView>,
    pub port: u16,
    pub url: Seq<char>,
    pub access_token: Seq<char>,
    pub error: Option<AuthErrorView>,
}

impl View for LoginFlow {
    type V = LoginFlowView;

    closed spec fn view(&self) -> LoginFlowView {
        LoginFlowView {
            phase: self.phase,
            cleared: self.cleared,
            client_id: self.client_id@,
            auth_url: self.auth_url@,
            exchange: exchange_view(self.exchange),
            port: self.port,
            url: self.url@,
            access_token: self.access_token@,
            error: error_view(self.error),
        }
    }
}

/// Whether the attempt still needs its secrets: it does until the code is
/// handed to the exchange.
pub open spec fn holds_secrets(phase: LoginPhase) -> bool {
    phase == LoginPhase::Idle || phase == LoginPhase::ListenerBound || phase
        == LoginPhase::BrowserLaunched
}

/// The address of the provider's authorization page for an attempt that
/// listens on `port`.
pub open spec fn login_url(s: LoginFlowView, port: u16) -> Option<Seq<char>> {
    match s.exchange {
        Some(x) => authorization_url(
            s.auth_url,
            s.client_id,
            redirect_uri(port),
            login_scopes(),
            x.verifier,
            x.state,
        ),
        None => None,
    }
}

/// What holds of an attempt at every point: it has an error exactly when
/// it is aborted; it holds valid secrets while it needs them and none
/// afterwards; it holds an access token only once the exchange has given
/// one; and while the browser is under way, `url` is the address it was
/// sent to.
pub open spec fn login_valid(s: LoginFlowView) -> bool {
    &&& s.error is Some <==> s.phase == LoginPhase::Aborted
    &&& s.phase != LoginPhase::Idle ==> s.cleared
    &&& holds_secrets(s.phase) <==> s.exchange is Some
    &&& s.exchange matches Some(x) ==> exchange_valid(x)
    &&& (s.phase == LoginPhase::ListenerBound || s.phase == LoginPhase::BrowserLaunched)
        ==> login_url(s, s.port) == Some(s.url)
    &&& (s.phase != LoginPhase::CodeExchanged && s.phase != LoginPhase::TokenStored)
        ==> s.access_token.len() == 0
}

/// Whether the attempt is over.
pub open spec fn login_over(s: LoginFlowView) -> bool {
    s.phase == LoginPhase::TokenStored || s.phase == LoginPhase::Aborted
}

/// The attempt, aborted with `error`: its secrets and tokens are dropped.
pub open spec fn login_aborted(s: LoginFlowView, error: AuthErrorView) -> LoginFlowView {
    LoginFlowView {
        phase: LoginPhase::Aborted,
        cleared: true,
        exchange: None,
        access_token: Seq::empty(),
        error: Some(error),
        ..s
    }
}

/// The state token of the attempt; the empty text once its secrets are
/// gone.
pub open spec fn own_state(s: LoginFlowView) -> Seq<char> {
    match s.exchange {
        Some(x) => x.state,
        None => Seq::empty(),
    }
}

/// The code verifier of the attempt; the empty text once its secrets are
/// gone.
pub open spec fn own_verifier(s: LoginFlowView) -> Seq<char> {
    match s.exchange {
        Some(x) => x.verifier,
        None => Seq::empty(),
    }
}

/// What a request to the listener makes of an attempt that awaits its
/// callback.
///
/// A request for the site's icon is not the callback: nothing changes, and
/// the next connection is awaited. Otherwise the parameters are judged: a
/// missing or foreign state aborts the attempt as a CSRF mismatch, a missing
/// code aborts it, and a code with the right state moves it on, with the
/// secrets handed to the exchange.
pub open spec fn request_step(s: LoginFlowView, line: Seq<char>) -> (LoginFlowView, LoginActionView) {
    let target = request_target(line);
    if is_favicon(target) {
        (s, LoginActionView::AwaitCallback { manual_url: None })
    } else {
        match verdict(callback_pairs(s.port, target), own_state(s)) {
            CallbackVerdictView::CsrfMismatch => (
                login_aborted(s, AuthErrorView::CsrfMismatch),
                LoginActionView::Done,
            ),
            CallbackVerdictView::MissingCode => (
                login_aborted(s, AuthErrorView::MissingAuthorizationCode { received: target }),
                LoginActionView::Done,
            ),
            CallbackVerdictView::Code(code) => (
                LoginFlowView { phase: LoginPhase::CallbackReceived, exchange: None, ..s },
                LoginActionView::RespondAndExchange {
                    response: http_ok(success_page()),
                    code,
                    verifier: own_verifier(s),
                    redirect_uri: redirect_uri(s.port),
                },
            ),
        }
    }
}

/// What an event makes of an attempt, and what the caller is to do next.
///
/// An event that does not belong to the attempt's phase, and any event once
/// the attempt is over, changes nothing.
pub open spec fn login_step(s: LoginFlowView, e: LoginEventView) -> (LoginFlowView, LoginActionView) {
    match (s.phase, e) {
        (LoginPhase::Idle, LoginEventView::Cleared { outcome }) => if s.cleared {
            (s, LoginActionView::Ignored)
        } else {
            match clear_error(outcome) {
                Some(error) => (login_aborted(s, error), LoginActionView::Done),
                None => (LoginFlowView { cleared: true, ..s }, LoginActionView::BindListener),
            }
        },
        (LoginPhase::Idle, LoginEventView::Bound { port }) => if !s.cleared {
            (s, LoginActionView::Ignored)
        } else {
            match login_url(s, port) {
                Some(url) => (
                    LoginFlowView { phase: LoginPhase::ListenerBound, port, url, ..s },
                    LoginActionView::OpenBrowser { url },
                ),
                None => (
                    login_aborted(s, AuthErrorView::InvalidEndpoint { url: s.auth_url }),
                    LoginActionView::Done,
                ),
            }
        },
        (LoginPhase::Idle, LoginEventView::BindFailed { reason }) => if !s.cleared {
            (s, LoginActionView::Ignored)
        } else {
            (login_aborted(s, AuthErrorView::Listener { reason }), LoginActionView::Done)
        },
        (LoginPhase::ListenerBound, LoginEventView::BrowserOpened { launched }) => (
            LoginFlowView { phase: LoginPhase::BrowserLaunched, ..s },
            LoginActionView::AwaitCallback {
                manual_url: if launched {
                    None
                } else {
                    Some(s.url)
                },
            },
        ),
        (LoginPhase::BrowserLaunched, LoginEventView::Request { line }) => request_step(s, line),
        (LoginPhase::BrowserLaunched, LoginEventView::AcceptFailed { reason }) => (
            login_aborted(s, AuthErrorView::Listener { reason }),
            LoginActionView::Done,
        ),
        (LoginPhase::CallbackReceived, LoginEventView::RespondFailed { reason }) => (
            login_aborted(s, AuthErrorView::Listener { reason }),
            LoginActionView::Done,
        ),
        (LoginPhase::CallbackReceived, LoginEventView::ExchangeFailed { reason }) => (
            login_aborted(s, AuthErrorView::TokenExchange { reason }),
            LoginActionView::Done,
        ),
        (
            LoginPhase::CallbackReceived,
            LoginEventView::Exchanged { access_token, refresh_token },
        ) => match refresh_token {
            Some(token) => (
                LoginFlowView { phase: LoginPhase::CodeExchanged, access_token, ..s },
                LoginActionView::StoreCredential { refresh_token: token },
            ),
            None => (
                login_aborted(s, AuthErrorView::MissingOfflineAccess),
                LoginActionView::Done,
            ),
        },
        (LoginPhase::CodeExchanged, LoginEventView::Stored) => (
            LoginFlowView { phase: LoginPhase::TokenStored, ..s },
            LoginActionView::Done,
        ),
        (LoginPhase::CodeExchanged, LoginEventView::StoreFailed { reason }) => (
            login_aborted(s, AuthErrorView::CredentialStore { reason }),
            LoginActionView::Done,
        ),
        _ => (s, LoginActionView::Ignored),
    }
}

/// The result of an attempt: the access token, or why it failed; `None`
/// while it is not over.
pub open spec fn login_outcome(s: LoginFlowView) -> Option<Result<Seq<char>, AuthErrorView>> {
    match s.phase {
        LoginPhase::TokenStored => Some(Ok(s.access_token)),
        LoginPhase::Aborted => match s.error {
            Some(e) => Some(Err(e)),
            None => None,
        },
        _ => None,
    }
}

/// The view of a result.
pub open spec fn token_result_view(r: Option<Result<String, AuthError>>) -> Option<
    Result<Seq<char>, AuthErrorView>,
> {
    match r {
        Some(Ok(token)) => Some(Ok(token@)),
        Some(Err(e)) => Some(Err(e@)),
        None => None,
    }
}

impl AuthManager {
    /// Begins a login attempt with fresh secrets. Its first step is to
    /// clear the stored credential: a new login supersedes the old session,
    /// also where it fails later.
    pub fn login(&self) -> (r: (LoginFlow, LoginAction))
        ensures
            r.0@.phase == LoginPhase::Idle,
            !r.0@.cleared,
            r.0@.client_id == self@.client_id,
            r.0@.auth_url == self@.auth_url,
            login_valid(r.0@),
            r.1@ == LoginActionView::ClearCredential,
    {
        let flow = LoginFlow {
            phase: LoginPhase::Idle,
            cleared: false,
            client_id: self.client_id().to_owned(),
            auth_url: self.auth_url().to_owned(),
            exchange: Some(PkceExchange::generate()),
            port: 0,
            url: String::new(),
            access_token: String::new(),
            error: None,
        };
        (flow, LoginAction::ClearCredential)
    }
}

impl LoginFlow {
    /// How far the attempt has come.
    pub fn phase(&self) -> (r: LoginPhase)
        ensures
            r == self@.phase,
    {
        self.phase
    }

    /// Aborts the attempt with `error`.
    fn abort(&mut self, error: AuthError)
        ensures
            final(self)@ == login_aborted(old(self)@, error@),
    {
        self.phase = LoginPhase::Aborted;
        self.cleared = true;
        self.drop_secrets();
        self.access_token = String::new();
        self.error = Some(error);
    }

    /// Forgets the secrets of the attempt.
    fn drop_secrets(&mut self)
        ensures
            final(self)@ == (LoginFlowView { exchange: None, ..old(self)@ }),
    {
        self.exchange = None;
    }

    /// A copy of the state token, empty without secrets.
    fn state_copy(&self) -> (r: String)
        ensures
            r@ == own_state(self@),
    {
        match &self.exchange {
            Some(x) => x.state_token().to_owned(),
            None => String::new(),
        }
    }

    /// A copy of the code verifier, empty without secrets.
    fn verifier_copy(&self) -> (r: String)
        ensures
            r@ == own_verifier(self@),
    {
        match &self.exchange {
            Some(x) => x.code_verifier().to_owned(),
            None => String::new(),
        }
    }

    /// Takes the first line of a request, as `request_step` says.
    fn on_request(&mut self, line: &str) -> (action: LoginAction)
        ensures
            (final(self)@, action@) == request_step(old(self)@, line@),
    {
        let target = get_request_target(line);
        if is_favicon_request(target.as_str()) {
            return LoginAction::AwaitCallback { manual_url: None };
        }
        let pairs = read_callback_pairs(self.port, target.as_str());
        match judge_callback(&pairs, self.state_copy().as_str()) {
            CallbackVerdict::CsrfMismatch => {
                self.abort(AuthError::CsrfMismatch);
                LoginAction::Done
            },
            CallbackVerdict::MissingCode => {
                self.abort(AuthError::MissingAuthorizationCode { received: target });
                LoginAction::Done
            },
            CallbackVerdict::Code(code) => {
                let verifier = self.verifier_copy();
                self.drop_secrets();
                self.phase = LoginPhase::CallbackReceived;
                LoginAction::RespondAndExchange {
                    response: success_response(),
                    code,
                    verifier,
                    redirect_uri: get_redirect_uri(self.port),
                }
            },
        }
    }

    /// Takes the port of the bound listener and makes the address for the
    /// browser.
    fn on_bound(&mut self, port: u16) -> (action: LoginAction)
        requires
            old(self)@.phase == LoginPhase::Idle,
            old(self)@.cleared,
        ensures
            (final(self)@, action@) == login_step(old(self)@, LoginEventView::Bound { port }),
    {
        let scopes = get_login_scopes();
        let built = match &self.exchange {
            Some(x) => build_authorization_url(
                self.auth_url.as_str(),
                self.client_id.as_str(),
                get_redirect_uri(port).as_str(),
                &scopes,
                x.code_verifier(),
                x.state_token(),
            ),
            None => None,
        };
        match built {
            Some(url) => {
                self.phase = LoginPhase::ListenerBound;
                self.port = port;
                self.url = url.clone();
                LoginAction::OpenBrowser { url }
            },
            None => {
                let endpoint = self.auth_url.clone();
                self.abort(AuthError::InvalidEndpoint { url: endpoint });
                LoginAction::Done
            },
        }
    }

    /// Takes an event, as `login_step` says, and names what to do next.
    pub fn step(&mut self, event: LoginEvent) -> (action: LoginAction)
        ensures
            (final(self)@, action@) == login_step(old(self)@, event@),
            login_valid(old(self)@) ==> login_valid(final(self)@),
    {
        match self.phase {
            LoginPhase::Idle => match event {
                LoginEvent::Cleared { outcome } => {
                    if self.cleared {
                        return LoginAction::Ignored;
                    }
                    match clear_keychain_entry(outcome) {
                        Ok(()) => {
                            self.cleared = true;
                            LoginAction::BindListener
                        },
                        Err(error) => {
                            self.abort(error);
                            LoginAction::Done
                        },
                    }
                },
                LoginEvent::Bound { port } => {
                    if !self.cleared {
                        return LoginAction::Ignored;
                    }
                    self.on_bound(port)
                },
                LoginEvent::BindFailed { reason } => {
                    if !self.cleared {
                        return LoginAction::Ignored;
                    }
                    self.abort(AuthError::Listener { reason });
                    LoginAction::Done
                },
                _ => LoginAction::Ignored,
            },
            LoginPhase::ListenerBound => match event {
                LoginEvent::BrowserOpened { launched } => {
                    self.phase = LoginPhase::BrowserLaunched;
                    LoginAction::AwaitCallback {
                        manual_url: if launched {
                            None
                        } else {
                            Some(self.url.clone())
                        },
                    }
                },
                _ => LoginAction::Ignored,
            },
            LoginPhase::BrowserLaunched => match event {
                LoginEvent::Request { line } => self.on_request(line.as_str()),
                LoginEvent::AcceptFailed { reason } => {
                    self.abort(AuthError::Listener { reason });
                    LoginAction::Done
                },
                _ => LoginAction::Ignored,
            },
            LoginPhase::CallbackReceived => match event {
                LoginEvent::RespondFailed { reason } => {
                    self.abort(AuthError::Listener { reason });
                    LoginAction::Done
                },
                LoginEvent::ExchangeFailed { reason } => {
                    self.abort(AuthError::TokenExchange { reason });
                    LoginAction::Done
                },
                LoginEvent::Exchanged { access_token, refresh_token } => match refresh_token {
                    Some(token) => {
                        self.phase = LoginPhase::CodeExchanged;
                        self.access_token = access_token;
                        LoginAction::StoreCredential { refresh_token: token }
                    },
                    None => {
                        self.abort(AuthError::MissingOfflineAccess);
                        LoginAction::Done
                    },
                },
                _ => LoginAction::Ignored,
            },
            LoginPhase::CodeExchanged => match event {
                LoginEvent::Stored => {
                    self.phase = LoginPhase::TokenStored;
                    LoginAction::Done
                },
                LoginEvent::StoreFailed { reason } => {
                    self.abort(AuthError::CredentialStore { reason });
                    LoginAction::Done
                },
                _ => LoginAction::Ignored,
            },
            LoginPhase::TokenStored => LoginAction::Ignored,
            LoginPhase::Aborted => LoginAction::Ignored,
        }
    }

    /// The result of the attempt, once it is over.
    pub fn outcome(self) -> (r: Option<Result<String, AuthError>>)
        ensures
            token_result_view(r) == login_outcome(self@),
    {
        match self.phase {
            LoginPhase::TokenStored => Some(Ok(self.access_token)),
            LoginPhase::Aborted => match self.error {
                Some(e) => Some(Err(e)),
                None => None,
            },
            _ => None,
        }
    }
}

/// Once an attempt is over, no event changes it.
pub proof fn lemma_login_over_is_final(s: LoginFlowView, e: LoginEventView)
    requires
        login_over(s),
    ensures
        login_step(s, e) == (s, LoginActionView::Ignored),
{
}

/// A callback whose state is missing, or is not the token of this attempt,
/// aborts the attempt as a CSRF mismatch, whatever that state is and
/// whatever else the callback holds; nothing that comes later turns the
/// attempt into a success.
pub proof fn lemma_foreign_state_aborts(s: LoginFlowView, line: Seq<char>, later: LoginEventView)
    requires
        s.phase == LoginPhase::BrowserLaunched,
        !is_favicon(request_target(line)),
        first_value(callback_pairs(s.port, request_target(line)), "state"@) != Some(own_state(s)),
    ensures
        login_step(s, LoginEventView::Request { line }) == (
            login_aborted(s, AuthErrorView::CsrfMismatch),
            LoginActionView::Done,
        ),
        login_outcome(login_step(s, LoginEventView::Request { line }).0) == Some(
            Err::<Seq<char>, AuthErrorView>(AuthErrorView::CsrfMismatch),
        ),
        login_step(login_step(s, LoginEventView::Request { line }).0, later).0 == login_step(
            s,
            LoginEventView::Request { line },
        ).0,
{
}

/// The code and the verifier go to the exchange only after a callback that
/// carried this attempt's own state token, and the attempt keeps no secret
/// once they are gone: they are used once.
pub proof fn lemma_exchange_needs_own_state(s: LoginFlowView, e: LoginEventView)
    ensures
        login_step(s, e).1 matches LoginActionView::RespondAndExchange { code, verifier, .. }
            ==> (e matches LoginEventView::Request { line } && first_value(
            callback_pairs(s.port, request_target(line)),
            "state"@,
        ) == Some(own_state(s)) && first_value(
            callback_pairs(s.port, request_target(line)),
            "code"@,
        ) == Some(code)) && verifier == own_verifier(s) && login_step(s, e).0.exchange is None,
{
}

/// A request for the site's icon neither completes nor fails the attempt:
/// the attempt is as it was, the next connection is awaited, and whatever
/// comes next is taken as if the icon had never been asked for.
pub proof fn lemma_favicon_keeps_listening(s: LoginFlowView, line: Seq<char>, next: LoginEventView)
    requires
        s.phase == LoginPhase::BrowserLaunched,
        is_favicon(request_target(line)),
    ensures
        login_step(s, LoginEventView::Request { line }) == (
            s,
            LoginActionView::AwaitCallback { manual_url: None },
        ),
        !login_over(login_step(s, LoginEventView::Request { line }).0),
        login_step(login_step(s, LoginEventView::Request { line }).0, next) == login_step(s, next),
{
}

/// What goes to the credential store is the refresh token that the provider
/// sent, never the access token.
pub proof fn lemma_only_refresh_token_is_stored(s: LoginFlowView, e: LoginEventView)
    ensures
        login_step(s, e).1 matches LoginActionView::StoreCredential { refresh_token } ==> e
            == (LoginEventView::Exchanged {
            access_token: login_step(s, e).0.access_token,
            refresh_token: Some(refresh_token),
        }),
{
}

/// An attempt succeeds only by way of a stored refresh token: without one
/// from the provider it is aborted.
pub proof fn lemma_no_refresh_token_aborts(s: LoginFlowView, access_token: Seq<char>)
    requires
        s.phase == LoginPhase::CallbackReceived,
    ensures
        login_outcome(
            login_step(s, LoginEventView::Exchanged { access_token, refresh_token: None }).0,
        ) == Some(Err::<Seq<char>, AuthErrorView>(AuthErrorView::MissingOfflineAccess)),
{
}

/// Every step keeps an attempt valid: what `login_valid` says holds in
/// every state that an attempt can reach.
pub proof fn lemma_login_step_keeps_valid(s: LoginFlowView, e: LoginEventView)
    requires
        login_valid(s),
    ensures
        login_valid(login_step(s, e).0),
{
}

} // verus!
