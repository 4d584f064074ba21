//! What the library has from the `oauth2` crate: the secrets of one login
//! attempt, and the address of the provider's authorization page.
//!
//! These contracts are believed, not proved.

use vstd::prelude::*;
use crate::weburl::url_parse;

verus! {

/// What `PkceCodeChallenge::from_code_verifier_sha256` derives from a code
/// verifier: the challenge that goes to the provider.
pub uninterp spec fn pkce_challenge(verifier: Seq<char>) -> Seq<char>;

/// What `AuthorizationRequest::url` gives for a client with the given
/// endpoint, identifier and redirect address, asking for the given scopes,
/// with the challenge of `verifier` and with `state`: the text of the
/// address, or `None` where the endpoint or the redirect address is no URL.
pub uninterp spec fn authorization_url(
    auth_url: Seq<char>,
    client_id: Seq<char>,
    redirect_uri: Seq<char>,
    scopes: Seq<Seq<char>>,
    verifier: Seq<char>,
    state: Seq<char>,
) -> Option<Seq<char>>;

/// Whether a code verifier has a length that the crate accepts: 43 to 128
/// bytes.
pub open spec fn verifier_length_ok(verifier: Seq<char>) -> bool {
    43 <= vstd::utf8::encode_utf8(verifier).len() <= 128
}

/// Calls `PkceCodeChallenge::new_random_sha256` and returns the challenge
/// and the verifier. The verifier is random, so nothing names it. As the
/// source has it: the verifier encodes 32 bytes in 43 characters, and the
/// challenge is derived from it as `from_code_verifier_sha256` does.
#[verifier::external_body]
pub(crate) fn new_pkce_pair() -> (r: (String, String))
    ensures
        vstd::utf8::encode_utf8(r.1@).len() == 43,
        r.0@ == pkce_challenge(r.1@),
{
    let (challenge, verifier) = oauth2::PkceCodeChallenge::new_random_sha256();
    (challenge.as_str().to_owned(), verifier.secret().clone())
}

/// Calls `PkceCodeChallenge::from_code_verifier_sha256`, which panics on a
/// verifier of any other length than the one required here.
#[verifier::external_body]
pub(crate) fn derive_pkce_challenge(verifier: &str) -> (r: String)
    requires
        verifier_length_ok(verifier@),
    ensures
        r@ == pkce_challenge(verifier@),
{
    let verifier = oauth2::PkceCodeVerifier::new(verifier.to_owned());
    oauth2::PkceCodeChallenge::from_code_verifier_sha256(&verifier).as_str().to_owned()
}

/// Calls `CsrfToken::new_random`. The token is random: nothing is promised
/// of it.
#[verifier::external_body]
pub(crate) fn new_csrf_token() -> (r: String) {
    oauth2::CsrfToken::new_random().secret().clone()
}

/// Calls `AuthUrl::new`, which accepts what `Url::parse` accepts.
#[verifier::external_body]
pub(crate) fn auth_url_accepts(url: &str) -> (r: bool)
    ensures
        r == url_parse(url@).is_some(),
{
    oauth2::AuthUrl::new(url.to_owned()).is_ok()
}

/// Calls `TokenUrl::new`, which accepts what `Url::parse` accepts.
#[verifier::external_body]
pub(crate) fn token_url_accepts(url: &str) -> (r: bool)
    ensures
        r == url_parse(url@).is_some(),
{
    oauth2::TokenUrl::new(url.to_owned()).is_ok()
}

/// Builds the authorization request of a client and calls its `url`. The
/// contract only gives the outcome its name.
#[verifier::external_body]
pub(crate) fn build_authorization_url(
    auth_url: &str,
    client_id: &str,
    redirect_uri: &str,
    scopes: &Vec<String>,
    verifier: &str,
    state: &str,
) -> (r: Option<String>)
    requires
        verifier_length_ok(verifier@),
    ensures
        r.deep_view() == authorization_url(
            auth_url@,
            client_id@,
            redirect_uri@,
            scopes.deep_view(),
            verifier@,
            state@,
        ),
{
    let auth = oauth2::AuthUrl::new(auth_url.to_owned()).ok()?;
    let redirect = oauth2::RedirectUrl::new(redirect_uri.to_owned()).ok()?;
    let verifier = oauth2::PkceCodeVerifier::new(verifier.to_owned());
    let challenge = oauth2::PkceCodeChallenge::from_code_verifier_sha256(&verifier);
    let client = oauth2::basic::BasicClient::new(oauth2::ClientId::new(client_id.to_owned()))
        .set_auth_uri(auth)
        .set_redirect_uri(redirect);
    let request = client
        .authorize_url(|| oauth2::CsrfToken::new(state.to_owned()))
        .add_scopes(scopes.iter().map(|s| oauth2::Scope::new(s.clone())))
        .set_pkce_challenge(challenge);
    Some(request.url().0.into())
}

} // verus!
