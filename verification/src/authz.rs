//! The one-time device-authorization grant: registering the application,
//! then polling the authorization track until the user grants it.

use vstd::prelude::*;
use vstd::string::StringExecFns;
use crate::errors::AuthorizationError;
use crate::json::{
    doc_bool, doc_obj, escape, obj_str, obj_uint, parse_doc, doc_bool_field, doc_obj_field,
    obj_str_field, obj_uint_field, parse_doc_str,
};
use crate::numfmt::{dec_chars, dec_of};
use crate::strutil::{str_eq, string_from_chars};

verus! {

/// URL of the authorization resource.
pub fn authorize_url(base_url: &str) -> (r: String)
    ensures
        r@ == base_url@ + "login/authorize"@,
{
    let mut out = String::from_str(base_url);
    out.append("login/authorize");
    out
}

/// URL of the authorization track for `track_id`.
pub fn track_url(base_url: &str, track_id: u8) -> (r: String)
    ensures
        r@ == base_url@ + "login/authorize/"@ + dec_of(track_id as nat),
{
    let mut out = String::from_str(base_url);
    out.append("login/authorize/");
    let digits = dec_chars(track_id as u64);
    let digits_str = string_from_chars(&digits);
    out.append(digits_str.as_str());
    out
}

/// The registration request document. The application presents its
/// identifier as name and device name too, and the fixed version `1.0`.
pub open spec fn authorize_body_of(app_id: Seq<char>) -> Seq<char> {
    "{\"app_id\":\""@ + escape(app_id) + "\",\"app_name\":\""@ + escape(app_id)
        + "\",\"app_version\":\"1.0\",\"device_name\":\""@ + escape(app_id) + "\"}"@
}

/// Renders the registration request document.
pub fn authorize_request_body(app_id: &str) -> (r: String)
    ensures
        r@ == authorize_body_of(app_id@),
{
    let id = crate::json::escaped_chars(app_id);
    let id_str = string_from_chars(&id);
    let mut out = String::from_str("{\"app_id\":\"");
    out.append(id_str.as_str());
    out.append("\",\"app_name\":\"");
    out.append(id_str.as_str());
    out.append("\",\"app_version\":\"1.0\",\"device_name\":\"");
    out.append(id_str.as_str());
    out.append("\"}");
    out
}

/// What the registration reply carries: the not-yet-active app token and
/// the track to poll.
#[derive(Debug, Clone, PartialEq)]
pub struct AuthorizeReply {
    pub app_token: String,
    pub track_id: u8,
}

/// The registration reply: an envelope whose result holds the app token and
/// a track identifier fitting in eight bits.
pub open spec fn authorize_doc_of(s: Seq<char>) -> Option<(Seq<char>, u8)> {
    match parse_doc(s) {
        Some(pairs) => match (doc_bool(pairs, "success"@), doc_obj(pairs, "result"@)) {
            (Some(_), Some(res)) => match (obj_str(res, "app_token"@), obj_uint(
                res,
                "track_id"@,
            )) {
                (Some(tok), Some(id)) => if id <= u8::MAX {
                    Some((tok, id as u8))
                } else {
                    None
                },
                _ => None,
            },
            _ => None,
        },
        None => None,
    }
}

/// Decodes the registration reply.
pub fn decode_authorize(body: &str) -> (r: Result<AuthorizeReply, AuthorizationError>)
    ensures
        match r {
            Ok(a) => authorize_doc_of(body@) == Some((a.app_token@, a.track_id)),
            Err(e) => e == AuthorizationError::MalformedBody && authorize_doc_of(body@) is None,
        },
{
    let pairs = match parse_doc_str(body) {
        Some(p) => p,
        None => {
            return Err(AuthorizationError::MalformedBody);
        },
    };
    if doc_bool_field(&pairs, "success").is_none() {
        return Err(AuthorizationError::MalformedBody);
    }
    let res = match doc_obj_field(&pairs, "result") {
        Some(m) => m,
        None => {
            return Err(AuthorizationError::MalformedBody);
        },
    };
    let tok = match obj_str_field(res, "app_token") {
        Some(t) => t,
        None => {
            return Err(AuthorizationError::MalformedBody);
        },
    };
    let id64 = match obj_uint_field(res, "track_id") {
        Some(n) => n,
        None => {
            return Err(AuthorizationError::MalformedBody);
        },
    };
    if id64 > 255 {
        return Err(AuthorizationError::MalformedBody);
    }
    Ok(AuthorizeReply { app_token: tok, track_id: id64 as u8 })
}

/// The track reply: an envelope whose result holds the track status.
pub open spec fn track_doc_of(s: Seq<char>) -> Option<Seq<char>> {
    match parse_doc(s) {
        Some(pairs) => match (doc_bool(pairs, "success"@), doc_obj(pairs, "result"@)) {
            (Some(_), Some(res)) => obj_str(res, "status"@),
            _ => None,
        },
        None => None,
    }
}

/// Decodes the track reply into the status string.
pub fn decode_track(body: &str) -> (r: Result<String, AuthorizationError>)
    ensures
        match r {
            Ok(t) => track_doc_of(body@) == Some(t@),
            Err(e) => e == AuthorizationError::MalformedBody && track_doc_of(body@) is None,
        },
{
    let pairs = match parse_doc_str(body) {
        Some(p) => p,
        None => {
            return Err(AuthorizationError::MalformedBody);
        },
    };
    if doc_bool_field(&pairs, "success").is_none() {
        return Err(AuthorizationError::MalformedBody);
    }
    let res = match doc_obj_field(&pairs, "result") {
        Some(m) => m,
        None => {
            return Err(AuthorizationError::MalformedBody);
        },
    };
    match obj_str_field(res, "status") {
        Some(t) => Ok(t),
        None => Err(AuthorizationError::MalformedBody),
    }
}

/// Whether a track status ends the wait. Only `granted` is terminal;
/// everything else counts as still pending.
pub fn poll_decision(status: &str) -> (r: bool)
    ensures
        r == (status@ == "granted"@),
{
    str_eq(status, "granted")
}

/// One observed step of the polling loop: a decoded track status, or a
/// transport or decode failure.
pub enum PollEvent {
    Status(String),
    TransportFailure,
}

/// How a finite run of polling steps ends.
#[derive(Debug, PartialEq, Eq, Structural, Clone, Copy)]
pub enum PollOutcome {
    /// The status at this position read `granted`.
    Granted(usize),
    /// The step at this position failed; nothing after it was looked at.
    Failed(usize),
    /// Every status stayed pending.
    Exhausted,
}

/// A status that keeps the loop waiting.
pub open spec fn is_pending_event(e: PollEvent) -> bool {
    e matches PollEvent::Status(s) && s@ != "granted"@
}

/// The status that ends the loop.
pub open spec fn is_granted_event(e: PollEvent) -> bool {
    e matches PollEvent::Status(s) && s@ == "granted"@
}

/// Runs the polling decision over a finite trace of observed steps, in
/// order. The wait ends exactly at the first `granted` status; a failed
/// step ends it at once, with nothing retried past it; pending statuses
/// alone leave the wait unresolved.
pub fn poll_outcome(events: &Vec<PollEvent>) -> (r: PollOutcome)
    ensures
        match r {
            PollOutcome::Granted(i) => i < events@.len() && is_granted_event(events@[i as int])
                && forall|j: int| 0 <= j < i ==> is_pending_event(events@[j]),
            PollOutcome::Failed(i) => i < events@.len() && events@[i as int] is TransportFailure
                && forall|j: int| 0 <= j < i ==> is_pending_event(events@[j]),
            PollOutcome::Exhausted => forall|j: int|
                0 <= j < events@.len() ==> is_pending_event(events@[j]),
        },
{
    let mut i: usize = 0;
    while i < events.len()
        invariant
            i <= events@.len(),
            forall|j: int| 0 <= j < i ==> is_pending_event(events@[j]),
        decreases events@.len() - i,
    {
        match &events[i] {
            PollEvent::Status(s) => {
                if poll_decision(s.as_str()) {
                    return PollOutcome::Granted(i);
                }
            },
            PollEvent::TransportFailure => {
                return PollOutcome::Failed(i);
            },
        }
        i = i + 1;
    }
    PollOutcome::Exhausted
}

} // verus!
