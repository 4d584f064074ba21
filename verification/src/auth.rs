//! The identity provider's endpoints for one tenant, and the client that
//! signs in there.

use vstd::prelude::*;
use crate::error::{AuthError, AuthErrorView};
use crate::oauth::{auth_url_accepts, token_url_accepts};
use crate::text::push_str_copy;
use crate::weburl::url_parse;

verus! {

/// The client identifier that is used where none is given.
pub open spec fn default_client_id() -> Seq<char> {
    "14d82eec-204b-4c2f-b7e8-296a70dab67e"@
}

/// The authorization endpoint of a tenant.
pub open spec fn authorize_endpoint(tenant: Seq<char>) -> Seq<char> {
    "https://login.microsoftonline.com/"@ + tenant + "/oauth2/v2.0/authorize"@
}

/// The token endpoint of a tenant.
pub open spec fn token_endpoint(tenant: Seq<char>) -> Seq<char> {
    "https://login.microsoftonline.com/"@ + tenant + "/oauth2/v2.0/token"@
}

/// The scopes that a login asks for: to read the profile, to read and
/// write the directory, and to stay signed in.
pub open spec fn login_scopes() -> Seq<Seq<char>> {
    seq!["User.Read"@, "Directory.ReadWrite.All"@, "offline_access"@]
}

/// Writes `login_scopes`.
pub fn get_login_scopes() -> (r: Vec<String>)
    ensures
        r.deep_view() == login_scopes(),
{
    let mut scopes: Vec<String> = Vec::new();
    proof {
        assert(scopes.deep_view() =~= Seq::empty());
    }
    push_str_copy(&mut scopes, "User.Read");
    push_str_copy(&mut scopes, "Directory.ReadWrite.All");
    push_str_copy(&mut scopes, "offline_access");
    proof {
        assert(scopes.deep_view() =~= login_scopes());
    }
    scopes
}

/// The client of one tenant's identity provider.
#[derive(Debug)]
pub struct AuthManager {
    client_id: String,
    auth_url: String,
    token_url: String,
}

/// An `AuthManager` as plain values.
pub struct AuthManagerView {
    pub client_id: Seq<char>,
    pub auth_url: Seq<char>,
    pub token_url: Seq<char>,
}

impl View for AuthManager {
    type V = AuthManagerView;

    closed spec fn view(&self) -> AuthManagerView {
        AuthManagerView {
            client_id: self.client_id@,
            auth_url: self.auth_url@,
            token_url: self.token_url@,
        }
    }
}

/// The client for `tenant`, with the given identifier or else the default
/// one; an error where the tenant's name makes an endpoint that is no URL.
pub open spec fn manager_for(tenant: Seq<char>, client_id: Option<Seq<char>>) -> Result<
    AuthManagerView,
    AuthErrorView,
> {
    if url_parse(authorize_endpoint(tenant)) is None {
        Err(AuthErrorView::InvalidEndpoint { url: authorize_endpoint(tenant) })
    } else if url_parse(token_endpoint(tenant)) is None {
        Err(AuthErrorView::InvalidEndpoint { url: token_endpoint(tenant) })
    } else {
        Ok(
            AuthManagerView {
                client_id: match client_id {
                    Some(id) => id,
                    None => default_client_id(),
                },
                auth_url: authorize_endpoint(tenant),
                token_url: token_endpoint(tenant),
            },
        )
    }
}

/// The view of what `AuthManager::new` returned.
pub open spec fn manager_view(r: Result<AuthManager, AuthError>) -> Result<
    AuthManagerView,
    AuthErrorView,
> {
    match r {
        Ok(manager) => Ok(manager@),
        Err(e) => Err(e@),
    }
}

impl AuthManager {
    /// The client for `tenant_id`, as `manager_for` says. `client_id` is the
    /// identifier to use in place of the default one.
    pub fn new(tenant_id: &str, client_id: Option<&str>) -> (r: Result<AuthManager, AuthError>)
        ensures
            manager_view(r) == manager_for(
                tenant_id@,
                match client_id {
                    Some(id) => Some(id@),
                    None => None,
                },
            ),
    {
        let mut auth_url = String::from_str("https://login.microsoftonline.com/");
        auth_url.append(tenant_id);
        auth_url.append("/oauth2/v2.0/authorize");
        let mut token_url = String::from_str("https://login.microsoftonline.com/");
        token_url.append(tenant_id);
        token_url.append("/oauth2/v2.0/token");
        if !auth_url_accepts(auth_url.as_str()) {
            return Err(AuthError::InvalidEndpoint { url: auth_url });
        }
        if !token_url_accepts(token_url.as_str()) {
            return Err(AuthError::InvalidEndpoint { url: token_url });
        }
        let client_id = match client_id {
            Some(id) => id.to_owned(),
            None => String::from_str("14d82eec-204b-4c2f-b7e8-296a70dab67e"),
        };
        Ok(AuthManager { client_id, auth_url, token_url })
    }

    /// The client identifier.
    pub fn client_id(&self) -> (r: &str)
        ensures
            r@ == self@.client_id,
    {
        self.client_id.as_str()
    }

    /// The authorization endpoint.
    pub fn auth_url(&self) -> (r: &str)
        ensures
            r@ == self@.auth_url,
    {
        self.auth_url.as_str()
    }

    /// The token endpoint.
    pub fn token_url(&self) -> (r: &str)
        ensures
            r@ == self@.token_url,
    {
        self.token_url.as_str()
    }
}

} // verus!
