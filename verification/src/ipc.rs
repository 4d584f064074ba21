//! The messages a worker prints: one JSON object on a line, told apart by
//! its `type` member.

use vstd::prelude::*;
use crate::decimal::{padded2, padded2_string};
use crate::json::{json_model, member, u64_of, value_as_str, value_as_u64, value_get, JsonModel};
use crate::text::str_eq;

verus! {

/// One message of a worker.
pub enum IpcMessage<'a> {
    Progress { message: String, percent: u8 },
    Success { data: &'a serde_json::Value },
    Error { message: String },
}

/// An `IpcMessage` as plain values.
pub enum IpcMessageView {
    Progress { message: Seq<char>, percent: nat },
    Success { data: JsonModel },
    Error { message: Seq<char> },
}

impl<'a> View for IpcMessage<'a> {
    type V = IpcMessageView;

    open spec fn view(&self) -> IpcMessageView {
        match *self {
            IpcMessage::Progress { message, percent } => IpcMessageView::Progress {
                message: message@,
                percent: percent as nat,
            },
            IpcMessage::Success { data } => IpcMessageView::Success { data: json_model(*data) },
            IpcMessage::Error { message } => IpcMessageView::Error { message: message@ },
        }
    }
}

/// The view of a message that may be missing.
pub open spec fn message_view(m: Option<IpcMessage>) -> Option<IpcMessageView> {
    match m {
        Some(msg) => Some(msg@),
        None => None,
    }
}

/// A message is well formed when a progress report is at most 100 percent.
pub open spec fn well_formed(m: IpcMessageView) -> bool {
    m matches IpcMessageView::Progress { percent, .. } ==> percent <= 100
}

/// The progress report that a document holds, given that its `type` says so:
/// `message` must be a string and `percent` an integer from 0 to 100.
pub open spec fn decoded_progress(m: JsonModel) -> Option<IpcMessageView> {
    match (member(m, "message"@), member(m, "percent"@)) {
        (Some(JsonModel::String(message)), Some(p)) => match u64_of(p) {
            Some(percent) => if percent <= 100 {
                Some(IpcMessageView::Progress { message, percent: percent as nat })
            } else {
                None
            },
            None => None,
        },
        _ => None,
    }
}

/// The message that a document holds, if it has the shape of one.
///
/// It must be an object whose `type` is one of the strings `progress`,
/// `success` and `error`, with the members of that kind: `message` and
/// `percent`; `data`, of any shape; `message`. Further members do not
/// matter.
pub open spec fn decoded(m: JsonModel) -> Option<IpcMessageView> {
    match member(m, "type"@) {
        Some(JsonModel::String(kind)) => if kind == "progress"@ {
            decoded_progress(m)
        } else if kind == "success"@ {
            match member(m, "data"@) {
                Some(data) => Some(IpcMessageView::Success { data }),
                None => None,
            }
        } else if kind == "error"@ {
            match member(m, "message"@) {
                Some(JsonModel::String(message)) => Some(IpcMessageView::Error { message }),
                _ => None,
            }
        } else {
            None
        },
        _ => None,
    }
}

/// Whatever `decoded` accepts is well formed.
pub proof fn lemma_decoded_well_formed(m: JsonModel)
    ensures
        decoded(m) matches Some(msg) ==> well_formed(msg),
{
}

/// The string member `key` of `v`.
fn string_member(v: &serde_json::Value, key: &str) -> (r: Option<String>)
    ensures
        r.deep_view() == (match member(json_model(*v), key@) {
            Some(JsonModel::String(t)) => Some(t),
            _ => None,
        }),
{
    match value_get(v, key) {
        Some(found) => match value_as_str(found) {
            Some(s) => Some(s.to_owned()),
            None => None,
        },
        None => None,
    }
}

/// Reads a progress report out of `v`.
fn decode_progress<'a>(v: &'a serde_json::Value) -> (r: Option<IpcMessage<'a>>)
    ensures
        message_view(r) == decoded_progress(json_model(*v)),
{
    let message = match string_member(v, "message") {
        Some(m) => m,
        None => {
            return None;
        },
    };
    let percent = match value_get(v, "percent") {
        Some(p) => match value_as_u64(p) {
            Some(n) => n,
            None => {
                return None;
            },
        },
        None => {
            return None;
        },
    };
    if percent <= 100 {
        Some(IpcMessage::Progress { message, percent: percent as u8 })
    } else {
        None
    }
}

/// Reads a message out of a document, as `decoded` says.
pub fn decode<'a>(v: &'a serde_json::Value) -> (r: Option<IpcMessage<'a>>)
    ensures
        message_view(r) == decoded(json_model(*v)),
{
    let kind = match string_member(v, "type") {
        Some(k) => k,
        None => {
            return None;
        },
    };
    if str_eq(kind.as_str(), "progress") {
        decode_progress(v)
    } else if str_eq(kind.as_str(), "success") {
        match value_get(v, "data") {
            Some(data) => Some(IpcMessage::Success { data }),
            None => None,
        }
    } else if str_eq(kind.as_str(), "error") {
        match string_member(v, "message") {
            Some(message) => Some(IpcMessage::Error { message }),
            None => None,
        }
    } else {
        None
    }
}

/// The status text of a progress report: the percentage, at least two
/// digits wide, in brackets, then the message.
pub open spec fn progress_text(message: Seq<char>, percent: nat) -> Seq<char> {
    "\u{23f3} ["@ + padded2(percent) + "%] "@ + message
}

/// The status text of a line that is no message: the line after a marker.
pub open spec fn diagnostic_text(line: Seq<char>) -> Seq<char> {
    "\u{1f4dd} "@ + line
}

/// Writes `progress_text`.
pub fn format_progress(message: &str, percent: u8) -> (r: String)
    ensures
        r@ == progress_text(message@, percent as nat),
{
    let mut out = String::from_str("\u{23f3} [");
    out.append(padded2_string(percent as u64).as_str());
    out.append("%] ");
    out.append(message);
    out
}

/// Writes `diagnostic_text`.
pub fn format_diagnostic(line: &str) -> (r: String)
    ensures
        r@ == diagnostic_text(line@),
{
    let mut out = String::from_str("\u{1f4dd} ");
    out.append(line);
    out
}

} // verus!
