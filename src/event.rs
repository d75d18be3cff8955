//! The execution events that the service streams back, and how one frame of
//! the response body decodes into one of them.

use vstd::prelude::*;
use vstd::string::*;
use crate::json::{Members, json_object_members, member_text, parse_object, find_member};

verus! {

/// A wall-clock instant in UTC: whole seconds since the Unix epoch and the
/// nanoseconds past that second.
#[derive(Clone, Copy, Debug, PartialEq, Eq, Structural)]
pub struct Timestamp {
    pub secs: i64,
    pub nanos: u32,
}

/// One event of a running execution.
#[derive(Clone, Debug)]
pub enum ExecuteResponse {
    /// A piece of standard output, with the time the service gave it.
    Stdout { text: String, timestamp: Timestamp },
    /// A standard-error signal; the service labels its payload `name`.
    Stderr { name: String },
    /// The value that the executed code computed.
    Result { content: String },
    /// An error raised by the executed code: its type name and message.
    Error { name: String, value: String },
}

/// The mathematical content of an [`ExecuteResponse`].
pub ghost enum EventView {
    Stdout { text: Seq<char>, secs: int, nanos: int },
    Stderr { name: Seq<char> },
    Result { content: Seq<char> },
    Error { name: Seq<char>, value: Seq<char> },
}

impl View for ExecuteResponse {
    type V = EventView;

    open spec fn view(&self) -> EventView {
        match self {
            ExecuteResponse::Stdout { text, timestamp } => EventView::Stdout {
                text: text@,
                secs: timestamp.secs as int,
                nanos: timestamp.nanos as int,
            },
            ExecuteResponse::Stderr { name } => EventView::Stderr { name: name@ },
            ExecuteResponse::Result { content } => EventView::Result { content: content@ },
            ExecuteResponse::Error { name, value } => EventView::Error {
                name: name@,
                value: value@,
            },
        }
    }
}

/// The view of an optional event.
pub open spec fn opt_event_view(e: Option<ExecuteResponse>) -> Option<EventView> {
    match e {
        Some(ev) => Some(ev@),
        None => None,
    }
}

/// What chrono reads from an RFC 3339 date-time string as an instant in UTC:
/// seconds since the epoch and nanoseconds past them, or `None` where the
/// string is not such a date-time.
pub uninterp spec fn utc_instant_of(s: Seq<char>) -> Option<(int, int)>;

/// Relies on chrono's `FromStr for DateTime<Utc>` (what chrono's serde support
/// reads a UTC date-time with) to parse `s`, and on `DateTime::timestamp` and
/// `DateTime::timestamp_subsec_nanos` to read the instant it denotes.
#[verifier::external_body]
fn parse_utc(s: &str) -> (r: Option<Timestamp>)
    ensures
        r is Some <==> utc_instant_of(s@) is Some,
        r matches Some(t) ==> utc_instant_of(s@) == Some((t.secs as int, t.nanos as int)),
{
    match s.parse::<chrono::DateTime<chrono::Utc>>() {
        Ok(t) => Some(Timestamp { secs: t.timestamp(), nanos: t.timestamp_subsec_nanos() }),
        Err(_) => None,
    }
}

/// The event that an object with members `ms` stands for: its `type` member
/// names the variant and the variant's fields are string members. An
/// unknown tag, or a missing or non-string field, gives no event.
pub open spec fn event_of_members(ms: Members) -> Option<EventView> {
    match member_text(ms, "type"@) {
        None => None,
        Some(tag) => if tag == "stdout"@ {
            match (member_text(ms, "text"@), member_text(ms, "timestamp"@)) {
                (Some(text), Some(ts)) => match utc_instant_of(ts) {
                    Some(t) => Some(EventView::Stdout { text, secs: t.0, nanos: t.1 }),
                    None => None,
                },
                _ => None,
            }
        } else if tag == "stderr"@ {
            match member_text(ms, "name"@) {
                Some(name) => Some(EventView::Stderr { name }),
                None => None,
            }
        } else if tag == "result"@ {
            match member_text(ms, "content"@) {
                Some(content) => Some(EventView::Result { content }),
                None => None,
            }
        } else if tag == "error"@ {
            match (member_text(ms, "name"@), member_text(ms, "value"@)) {
                (Some(name), Some(value)) => Some(EventView::Error { name, value }),
                _ => None,
            }
        } else {
            None
        },
    }
}

/// The event that one frame of the response body decodes to, if any.
pub open spec fn event_of_frame(b: Seq<u8>) -> Option<EventView> {
    match json_object_members(b) {
        Some(ms) => event_of_members(ms),
        None => None,
    }
}

/// Builds the event that a decoded JSON object stands for.
pub fn event_from_members(ms: &Vec<(String, Option<String>)>) -> (r: Option<ExecuteResponse>)
    ensures
        opt_event_view(r) == event_of_members(ms.deep_view()),
{
    let tag = match find_member(ms, &String::from_str("type")) {
        Some(t) => t,
        None => return None,
    };
    if tag == String::from_str("stdout") {
        let text = find_member(ms, &String::from_str("text"));
        let ts = find_member(ms, &String::from_str("timestamp"));
        match (text, ts) {
            (Some(text), Some(ts)) => match parse_utc(ts.as_str()) {
                Some(timestamp) => Some(ExecuteResponse::Stdout { text, timestamp }),
                None => None,
            },
            _ => None,
        }
    } else if tag == String::from_str("stderr") {
        match find_member(ms, &String::from_str("name")) {
            Some(name) => Some(ExecuteResponse::Stderr { name }),
            None => None,
        }
    } else if tag == String::from_str("result") {
        match find_member(ms, &String::from_str("content")) {
            Some(content) => Some(ExecuteResponse::Result { content }),
            None => None,
        }
    } else if tag == String::from_str("error") {
        let name = find_member(ms, &String::from_str("name"));
        let value = find_member(ms, &String::from_str("value"));
        match (name, value) {
            (Some(name), Some(value)) => Some(ExecuteResponse::Error { name, value }),
            _ => None,
        }
    } else {
        None
    }
}

/// Decodes one frame of the response body; a frame that is not one
/// well-formed event gives `None`.
pub fn decode_event(frame: &[u8]) -> (r: Option<ExecuteResponse>)
    ensures
        opt_event_view(r) == event_of_frame(frame@),
{
    match parse_object(frame) {
        Some(ms) => event_from_members(&ms),
        None => None,
    }
}

} // verus!
