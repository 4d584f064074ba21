//! The signed-in user's profile, as the claims of an access token give it.

use vstd::prelude::*;
use crate::json::{
    i64_of, json_model, member, value_as_i64, value_as_str, value_get, value_is_null, value_is_object, JsonModel,
};
use crate::text::{split_words, words};
use crate::token::{decode_claims, format_utc_time, login_time_pattern, token_claims, utc_time_text};

verus! {

/// Who is signed in, where, and with which permissions.
#[derive(Debug, Clone)]
pub struct UserProfile {
    pub name: String,
    pub email: String,
    pub tenant_id: String,
    pub scopes: Vec<String>,
    pub last_login: String,
}

/// A `UserProfile` as plain values.
pub struct UserProfileView {
    pub name: Seq<char>,
    pub email: Seq<char>,
    pub tenant_id: Seq<char>,
    pub scopes: Seq<Seq<char>>,
    pub last_login: Seq<char>,
}

impl View for UserProfile {
    type V = UserProfileView;

    open spec fn view(&self) -> UserProfileView {
        UserProfileView {
            name: self.name@,
            email: self.email@,
            tenant_id: self.tenant_id@,
            scopes: self.scopes.deep_view(),
            last_login: self.last_login@,
        }
    }
}

/// The view of a profile that may be missing.
pub open spec fn profile_view(p: Option<UserProfile>) -> Option<UserProfileView> {
    match p {
        Some(profile) => Some(profile@),
        None => None,
    }
}

/// The claims of an access token that the profile is made from.
#[derive(Debug)]
pub struct Claims {
    pub name: Option<String>,
    pub preferred_username: Option<String>,
    pub upn: Option<String>,
    pub tid: Option<String>,
    pub iat: Option<i64>,
    pub scp: Option<String>,
}

/// `Claims` as plain values.
pub struct ClaimsView {
    pub name: Option<Seq<char>>,
    pub preferred_username: Option<Seq<char>>,
    pub upn: Option<Seq<char>>,
    pub tid: Option<Seq<char>>,
    pub iat: Option<i64>,
    pub scp: Option<Seq<char>>,
}

impl View for Claims {
    type V = ClaimsView;

    open spec fn view(&self) -> ClaimsView {
        ClaimsView {
            name: self.name.deep_view(),
            preferred_username: self.preferred_username.deep_view(),
            upn: self.upn.deep_view(),
            tid: self.tid.deep_view(),
            iat: self.iat,
            scp: self.scp.deep_view(),
        }
    }
}

/// A member that may be missing, or null, and else must be a string: the
/// outer `None` says that it is something else.
pub open spec fn optional_text(m: JsonModel, key: Seq<char>) -> Option<Option<Seq<char>>> {
    match member(m, key) {
        None => Some(None),
        Some(JsonModel::Null) => Some(None),
        Some(JsonModel::String(t)) => Some(Some(t)),
        Some(_) => None,
    }
}

/// A member that may be missing, or null, and else must be an integer that
/// fits `i64`: the outer `None` says that it is something else.
pub open spec fn optional_i64(m: JsonModel, key: Seq<char>) -> Option<Option<i64>> {
    match member(m, key) {
        None => Some(None),
        Some(JsonModel::Null) => Some(None),
        Some(found) => match i64_of(found) {
            Some(i) => Some(Some(i)),
            None => None,
        },
    }
}

/// The claims that a JSON object holds; `None` where it is no object or a
/// claim has another type than expected.
pub open spec fn claims_of(m: JsonModel) -> Option<ClaimsView> {
    if !(m is Object) {
        None
    } else {
        match (
            optional_text(m, "name"@),
            optional_text(m, "preferred_username"@),
            optional_text(m, "upn"@),
            optional_text(m, "tid"@),
            optional_i64(m, "iat"@),
            optional_text(m, "scp"@),
        ) {
            (Some(name), Some(preferred_username), Some(upn), Some(tid), Some(iat), Some(scp)) => {
                Some(ClaimsView { name, preferred_username, upn, tid, iat, scp })
            },
            _ => None,
        }
    }
}

/// Reads `optional_text`.
fn read_optional_text(v: &serde_json::Value, key: &str) -> (r: Option<Option<String>>)
    ensures
        r.deep_view() == optional_text(json_model(*v), key@),
{
    match value_get(v, key) {
        None => Some(None),
        Some(found) => {
            if value_is_null(found) {
                Some(None)
            } else {
                match value_as_str(found) {
                    Some(s) => Some(Some(s.to_owned())),
                    None => None,
                }
            }
        },
    }
}

/// Reads `optional_i64`.
fn read_optional_i64(v: &serde_json::Value, key: &str) -> (r: Option<Option<i64>>)
    ensures
        r == optional_i64(json_model(*v), key@),
{
    match value_get(v, key) {
        None => Some(None),
        Some(found) => {
            if value_is_null(found) {
                Some(None)
            } else {
                match value_as_i64(found) {
                    Some(i) => Some(Some(i)),
                    None => None,
                }
            }
        },
    }
}

/// The view of claims that may be missing.
pub open spec fn claims_view(c: Option<Claims>) -> Option<ClaimsView> {
    match c {
        Some(claims) => Some(claims@),
        None => None,
    }
}

/// Reads the claims out of a JSON value, as `claims_of` says.
pub fn read_claims(v: &serde_json::Value) -> (r: Option<Claims>)
    ensures
        claims_view(r) == claims_of(json_model(*v)),
{
    if !value_is_object(v) {
        return None;
    }
    let name = match read_optional_text(v, "name") {
        Some(x) => x,
        None => {
            return None;
        },
    };
    let preferred_username = match read_optional_text(v, "preferred_username") {
        Some(x) => x,
        None => {
            return None;
        },
    };
    let upn = match read_optional_text(v, "upn") {
        Some(x) => x,
        None => {
            return None;
        },
    };
    let tid = match read_optional_text(v, "tid") {
        Some(x) => x,
        None => {
            return None;
        },
    };
    let iat = match read_optional_i64(v, "iat") {
        Some(x) => x,
        None => {
            return None;
        },
    };
    let scp = match read_optional_text(v, "scp") {
        Some(x) => x,
        None => {
            return None;
        },
    };
    Some(Claims { name, preferred_username, upn, tid, iat, scp })
}

/// `text` where there is one, else `fallback`.
pub open spec fn text_or(text: Option<Seq<char>>, fallback: Seq<char>) -> Seq<char> {
    match text {
        Some(t) => t,
        None => fallback,
    }
}

/// When the token was issued, in words: `Now` where it does not say, and
/// `Invalid Date` where the moment is out of range.
pub open spec fn last_login_text(iat: Option<i64>) -> Seq<char> {
    match iat {
        Some(secs) => text_or(utc_time_text(secs, login_time_pattern()), "Invalid Date"@),
        None => "Now"@,
    }
}

/// The profile that claims make. A missing name, address or tenant gets a
/// placeholder; the address is `preferred_username`, or else `upn`; the
/// scopes are the words of `scp`.
pub open spec fn profile_of(c: ClaimsView) -> UserProfileView {
    UserProfileView {
        name: text_or(c.name, "Unknown User"@),
        email: text_or(
            match c.preferred_username {
                Some(address) => Some(address),
                None => c.upn,
            },
            "No Email"@,
        ),
        tenant_id: text_or(c.tid, "Unknown Tenant"@),
        scopes: words(text_or(c.scp, Seq::empty())),
        last_login: last_login_text(c.iat),
    }
}

/// `text` where there is one, else a copy of `fallback`.
fn owned_or(text: Option<String>, fallback: &str) -> (r: String)
    ensures
        r@ == text_or(text.deep_view(), fallback@),
{
    match text {
        Some(t) => t,
        None => fallback.to_owned(),
    }
}

/// Makes the profile of claims, as `profile_of` says.
pub fn profile_from_claims(claims: Claims) -> (r: UserProfile)
    ensures
        r@ == profile_of(claims@),
{
    let last_login = match claims.iat {
        Some(secs) => owned_or(format_utc_time(secs, "%Y-%m-%d %H:%M:%S UTC"), "Invalid Date"),
        None => String::from_str("Now"),
    };
    let address = match claims.preferred_username {
        Some(a) => Some(a),
        None => claims.upn,
    };
    let scopes = match &claims.scp {
        Some(scp) => split_words(scp.as_str()),
        None => split_words(""),
    };
    proof {
        reveal_strlit("");
        assert(""@ =~= Seq::<char>::empty());
    }
    UserProfile {
        name: owned_or(claims.name, "Unknown User"),
        email: owned_or(address, "No Email"),
        tenant_id: owned_or(claims.tid, "Unknown Tenant"),
        scopes,
        last_login,
    }
}

/// The profile that an access token gives, or why it gives none: the words
/// of the decoder, or that the claims have not the expected shape.
pub open spec fn profile_of_token(token: Seq<char>) -> Result<UserProfileView, Seq<char>> {
    match token_claims(token) {
        Ok(m) => match claims_of(m) {
            Some(c) => Ok(profile_of(c)),
            None => Err("invalid claims"@),
        },
        Err(words) => Err(words),
    }
}

/// The view of what `profile_from_token` returned.
pub open spec fn profile_result_view(r: Result<UserProfile, String>) -> Result<
    UserProfileView,
    Seq<char>,
> {
    match r {
        Ok(profile) => Ok(profile@),
        Err(words) => Err(words@),
    }
}

/// Reads the profile out of an access token, as `profile_of_token` says.
/// The token's signature is not checked: the profile is for display.
pub fn profile_from_token(token: &str) -> (r: Result<UserProfile, String>)
    ensures
        profile_result_view(r) == profile_of_token(token@),
{
    match decode_claims(token) {
        Ok(value) => match read_claims(&value) {
            Some(claims) => Ok(profile_from_claims(claims)),
            None => Err(String::from_str("invalid claims")),
        },
        Err(words) => Err(words),
    }
}

} // verus!
