//! The browser's request to the loopback listener: its target, the
//! parameters of the target's query, and what they say of a login attempt.

use vstd::prelude::*;
use crate::decimal::{decimal, decimal_string};
use crate::text::{contains, nth_word, str_contains, str_eq, word};
use crate::weburl::{join_url, parse_url, query_pairs, url_join, url_parse, url_query_pairs};

verus! {

/// The target of a request line: its second word, or `/` where the line
/// has none.
pub open spec fn request_target(line: Seq<char>) -> Seq<char> {
    match word(line, 1) {
        Some(target) => target,
        None => "/"@,
    }
}

/// Reads the target out of a request line.
pub fn get_request_target(line: &str) -> (r: String)
    ensures
        r@ == request_target(line@),
{
    match nth_word(line, 1) {
        Some(target) => target,
        None => String::from_str("/"),
    }
}

/// Whether a target asks for the site's icon.
pub open spec fn is_favicon(target: Seq<char>) -> bool {
    contains(target, "favicon.ico"@)
}

/// Decides `is_favicon`.
pub fn is_favicon_request(target: &str) -> (r: bool)
    ensures
        r == is_favicon(target@),
{
    str_contains(target, "favicon.ico")
}

/// The address that the provider redirects to: the loopback listener's.
pub open spec fn redirect_uri(port: u16) -> Seq<char> {
    "http://localhost:"@ + decimal(port as nat)
}

/// Writes `redirect_uri`.
pub fn get_redirect_uri(port: u16) -> (r: String)
    ensures
        r@ == redirect_uri(port),
{
    let mut out = String::from_str("http://localhost:");
    out.append(decimal_string(port as u64).as_str());
    out
}

/// The parameters of a target's query, the target resolved against the
/// redirect address; none where it cannot be resolved.
pub open spec fn callback_pairs(port: u16, target: Seq<char>) -> Seq<(Seq<char>, Seq<char>)> {
    match url_parse(redirect_uri(port)) {
        Some(base) => match url_join(base, target) {
            Some(resolved) => url_query_pairs(resolved),
            None => Seq::empty(),
        },
        None => Seq::empty(),
    }
}

/// Reads `callback_pairs`.
pub fn read_callback_pairs(port: u16, target: &str) -> (r: Vec<(String, String)>)
    ensures
        r.deep_view() == callback_pairs(port, target@),
{
    let none: Vec<(String, String)> = Vec::new();
    proof {
        assert(none.deep_view() =~= Seq::empty());
    }
    let base = match parse_url(get_redirect_uri(port).as_str()) {
        Some(base) => base,
        None => {
            return none;
        },
    };
    match join_url(&base, target) {
        Some(resolved) => query_pairs(&resolved),
        None => none,
    }
}

/// The value of the first parameter named `key`.
pub open spec fn first_value(pairs: Seq<(Seq<char>, Seq<char>)>, key: Seq<char>) -> Option<
    Seq<char>,
>
    decreases pairs.len(),
{
    if pairs.len() == 0 {
        None
    } else if pairs[0].0 == key {
        Some(pairs[0].1)
    } else {
        first_value(pairs.drop_first(), key)
    }
}

/// A parameter found by `first_value` stands among the pairs, and no pair
/// before it has that name; `None` means that no pair has that name.
pub proof fn lemma_first_value(pairs: Seq<(Seq<char>, Seq<char>)>, key: Seq<char>)
    ensures
        match first_value(pairs, key) {
            Some(value) => exists|i: int|
                0 <= i < pairs.len() && #[trigger] pairs[i] == (key, value) && forall|j: int|
                    0 <= j < i ==> (#[trigger] pairs[j]).0 != key,
            None => forall|i: int| 0 <= i < pairs.len() ==> (#[trigger] pairs[i]).0 != key,
        },
    decreases pairs.len(),
{
    if pairs.len() == 0 {
    } else if pairs[0].0 == key {
        assert(pairs[0] == (key, pairs[0].1));
    } else {
        let rest = pairs.drop_first();
        lemma_first_value(rest, key);
        match first_value(rest, key) {
            Some(value) => {
                let i = choose|i: int|
                    0 <= i < rest.len() && #[trigger] rest[i] == (key, value) && forall|j: int|
                        0 <= j < i ==> (#[trigger] rest[j]).0 != key;
                assert(pairs[i + 1] == rest[i]);
                assert forall|j: int| 0 <= j < i + 1 implies (#[trigger] pairs[j]).0 != key by {
                    if j > 0 {
                        assert(pairs[j] == rest[j - 1]);
                    }
                }
            },
            None => {
                assert forall|i: int| 0 <= i < pairs.len() implies (#[trigger] pairs[i]).0
                    != key by {
                    if i > 0 {
                        assert(pairs[i] == rest[i - 1]);
                    }
                }
            },
        }
    }
}

/// Finds `first_value`.
pub fn find_value(pairs: &Vec<(String, String)>, key: &str) -> (r: Option<String>)
    ensures
        r.deep_view() == first_value(pairs.deep_view(), key@),
{
    let mut i: usize = 0;
    proof {
        assert(pairs.deep_view().skip(0) =~= pairs.deep_view());
    }
    while i < pairs.len()
        invariant
            i <= pairs.len(),
            first_value(pairs.deep_view(), key@) == first_value(
                pairs.deep_view().skip(i as int),
                key@,
            ),
        decreases pairs.len() - i,
    {
        let ghost rest = pairs.deep_view().skip(i as int);
        proof {
            assert(rest[0] == pairs.deep_view()[i as int]);
            assert(rest.drop_first() =~= pairs.deep_view().skip(i + 1));
        }
        if str_eq(pairs[i].0.as_str(), key) {
            return Some(pairs[i].1.clone());
        }
        i += 1;
    }
    None
}

/// What a callback says of the login attempt.
#[derive(Debug)]
pub enum CallbackVerdict {
    /// The `state` parameter is missing or is not the token of this attempt.
    CsrfMismatch,
    /// The state is right, and there is no `code` parameter.
    MissingCode,
    /// The state is right; this is the authorization code.
    Code(String),
}

/// A `CallbackVerdict` as plain values.
pub enum CallbackVerdictView {
    CsrfMismatch,
    MissingCode,
    Code(Seq<char>),
}

impl View for CallbackVerdict {
    type V = CallbackVerdictView;

    open spec fn view(&self) -> CallbackVerdictView {
        match *self {
            CallbackVerdict::CsrfMismatch => CallbackVerdictView::CsrfMismatch,
            CallbackVerdict::MissingCode => CallbackVerdictView::MissingCode,
            CallbackVerdict::Code(code) => CallbackVerdictView::Code(code@),
        }
    }
}

/// The verdict on the parameters of a callback, for an attempt whose token
/// is `expected_state`. The state is judged first: a code is never read
/// from a callback with a missing or foreign state.
pub open spec fn verdict(pairs: Seq<(Seq<char>, Seq<char>)>, expected_state: Seq<char>)
    -> CallbackVerdictView {
    if first_value(pairs, "state"@) != Some(expected_state) {
        CallbackVerdictView::CsrfMismatch
    } else {
        match first_value(pairs, "code"@) {
            Some(code) => CallbackVerdictView::Code(code),
            None => CallbackVerdictView::MissingCode,
        }
    }
}

/// Judges the parameters of a callback, as `verdict` says.
pub fn judge_callback(pairs: &Vec<(String, String)>, expected_state: &str) -> (r: CallbackVerdict)
    ensures
        r@ == verdict(pairs.deep_view(), expected_state@),
{
    let state_ok = match find_value(pairs, "state") {
        Some(state) => str_eq(state.as_str(), expected_state),
        None => false,
    };
    if !state_ok {
        return CallbackVerdict::CsrfMismatch;
    }
    match find_value(pairs, "code") {
        Some(code) => CallbackVerdict::Code(code),
        None => CallbackVerdict::MissingCode,
    }
}

/// A callback whose state is not the attempt's token is a mismatch, whatever
/// else it holds, and whatever the token is: empty, too.
pub proof fn lemma_foreign_state_is_mismatch(
    pairs: Seq<(Seq<char>, Seq<char>)>,
    expected_state: Seq<char>,
)
    requires
        first_value(pairs, "state"@) != Some(expected_state),
    ensures
        verdict(pairs, expected_state) == CallbackVerdictView::CsrfMismatch,
{
}

/// A code comes out of a callback only with the attempt's own token.
pub proof fn lemma_code_needs_state(pairs: Seq<(Seq<char>, Seq<char>)>, expected_state: Seq<char>)
    ensures
        verdict(pairs, expected_state) matches CallbackVerdictView::Code(code) ==> first_value(
            pairs,
            "state"@,
        ) == Some(expected_state) && first_value(pairs, "code"@) == Some(code),
{
}

/// The page shown in the browser once the callback has been taken.
pub open spec fn success_page() -> Seq<char> {
    "Login Successful! You can close this window and return to the terminal."@
}

/// An HTTP response with status 200 that carries `body`, with its length
/// in bytes.
pub open spec fn http_ok(body: Seq<char>) -> Seq<char> {
    "HTTP/1.1 200 OK\r\nContent-Length: "@ + decimal(vstd::utf8::encode_utf8(body).len()) + "\r\n\r\n"@
        + body
}

/// Writes the response to an accepted callback.
pub fn success_response() -> (r: String)
    ensures
        r@ == http_ok(success_page()),
{
    let body = "Login Successful! You can close this window and return to the terminal.";
    proof {
        reveal_strlit("Login Successful! You can close this window and return to the terminal.");
        assert(vstd::utf8::is_ascii_chars(body@));
        vstd::utf8::is_ascii_chars_encode_utf8(body@);
    }
    let mut out = String::from_str("HTTP/1.1 200 OK\r\nContent-Length: ");
    out.append(decimal_string(body.len() as u64).as_str());
    out.append("\r\n\r\n");
    out.append(body);
    out
}

} // verus!
