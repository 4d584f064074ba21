//! What the library has from `jsonwebtoken` and `chrono`: the claims of an
//! access token, read without any check of its signature, and the text of
//! a point in time.
//!
//! These contracts are believed, not proved.

use vstd::prelude::*;
use crate::json::{json_model, JsonModel};

verus! {

/// What `jsonwebtoken::decode` makes of a token when neither its signature
/// nor its audience and dates are checked: the content of its claims, or
/// the words of the error it reports.
pub uninterp spec fn token_claims(token: Seq<char>) -> Result<JsonModel, Seq<char>>;

/// What `chrono` writes for the point in time `secs` seconds after the
/// start of 1970, in UTC and after `pattern`; `None` where that point is
/// out of its range.
pub uninterp spec fn utc_time_text(secs: i64, pattern: Seq<char>) -> Option<Seq<char>>;

/// The pattern of the date of the last login: date, time of day, `UTC`.
pub open spec fn login_time_pattern() -> Seq<char> {
    "%Y-%m-%d %H:%M:%S UTC"@
}

/// Calls `jsonwebtoken::decode` for the claims as a JSON value, with the
/// checks of signature, audience, expiry and start switched off. The
/// contract only gives the outcome its name: with those checks off the
/// outcome depends on the token alone.
#[verifier::external_body]
pub(crate) fn decode_claims(token: &str) -> (r: Result<serde_json::Value, String>)
    ensures
        match r {
            Ok(claims) => token_claims(token@) == Ok::<JsonModel, Seq<char>>(json_model(claims)),
            Err(words) => token_claims(token@) == Err::<JsonModel, Seq<char>>(words@),
        },
{
    let mut validation = jsonwebtoken::Validation::new(jsonwebtoken::Algorithm::RS256);
    validation.insecure_disable_signature_validation();
    validation.validate_aud = false;
    validation.validate_exp = false;
    validation.validate_nbf = false;
    let key = jsonwebtoken::DecodingKey::from_secret(&[]);
    match jsonwebtoken::decode::<serde_json::Value>(token, &key, &validation) {
        Ok(data) => Ok(data.claims),
        Err(e) => Err(e.to_string()),
    }
}

/// Calls `DateTime::from_timestamp` and formats what it gives. The pattern
/// is the one pattern the library uses: formatting panics on a pattern that
/// is none. The contract only gives the outcome its name.
#[verifier::external_body]
pub(crate) fn format_utc_time(secs: i64, pattern: &str) -> (r: Option<String>)
    requires
        pattern@ == login_time_pattern(),
    ensures
        r.deep_view() == utc_time_text(secs, pattern@),
{
    chrono::DateTime::from_timestamp(secs, 0).map(|at| at.format(pattern).to_string())
}

} // verus!
