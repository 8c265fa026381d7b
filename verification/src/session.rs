//! The per-call session handshake: fetch a challenge, derive the password
//! by keyed hash, exchange it for a session token.

use vstd::prelude::*;
use vstd::string::{StringExecFns, StringSliceAdditionalSpecFns};
use crate::errors::SessionError;
use crate::hex::{hex_encode, hex_of};
use crate::json::{
    doc_bool, doc_obj, escape, obj_bool, obj_str, parse_doc, doc_bool_field, doc_obj_field,
    obj_bool_field, obj_str_field, parse_doc_str,
};
use crate::strutil::string_from_chars;

verus! {

/// What the HMAC-SHA1 of a key and a message is. The digest is a pure
/// function of the two byte strings; its value is stated nowhere here and
/// comes only from the outside implementation.
pub uninterp spec fn hmac_sha1_of(key: Seq<u8>, msg: Seq<u8>) -> Seq<u8>;

/// Relies on `hmac_sha1::hmac_sha1`: the twenty-byte HMAC-SHA1 digest of the
/// message under the key, a function of its two arguments alone.
#[verifier::external_body]
fn hmac_sha1_digest(key: &[u8], msg: &[u8]) -> (r: Vec<u8>)
    ensures
        r@ == hmac_sha1_of(key@, msg@),
        r@.len() == 20,
{
    hmac_sha1::hmac_sha1(key, msg).to_vec()
}

/// The password sent in the session exchange: the lower-case hex encoding of
/// the HMAC-SHA1 digest of the challenge, keyed by the app token. Both
/// strings enter the hash as their UTF-8 bytes.
pub fn session_password(app_token: &str, challenge: &str) -> (r: String)
    ensures
        r@ == hex_of(hmac_sha1_of(app_token.spec_bytes(), challenge.spec_bytes())),
{
    let digest = hmac_sha1_digest(app_token.as_bytes(), challenge.as_bytes());
    let chars = hex_encode(digest.as_slice());
    string_from_chars(&chars)
}

/// URL of the login resource that hands out challenges.
pub fn login_url(base_url: &str) -> (r: String)
    ensures
        r@ == base_url@ + "login/"@,
{
    let mut out = String::from_str(base_url);
    out.append("login/");
    out
}

/// URL of the session resource that exchanges a password for a token.
pub fn session_url(base_url: &str) -> (r: String)
    ensures
        r@ == base_url@ + "login/session"@,
{
    let mut out = String::from_str(base_url);
    out.append("login/session");
    out
}

/// The session-opening request document: the application identifier and the
/// derived password.
pub open spec fn session_body_of(app_id: Seq<char>, password: Seq<char>) -> Seq<char> {
    "{\"app_id\":\""@ + escape(app_id) + "\",\"password\":\""@ + escape(password) + "\"}"@
}

/// Renders the session-opening request document.
pub fn session_request_body(app_id: &str, password: &str) -> (r: String)
    ensures
        r@ == session_body_of(app_id@, password@),
{
    let mut out = String::from_str("{\"app_id\":\"");
    let id = crate::json::escaped_chars(app_id);
    let id_str = string_from_chars(&id);
    out.append(id_str.as_str());
    out.append("\",\"password\":\"");
    let pw = crate::json::escaped_chars(password);
    let pw_str = string_from_chars(&pw);
    out.append(pw_str.as_str());
    out.append("\"}");
    out
}

/// What the login reply carries.
#[derive(Debug, Clone, PartialEq)]
pub struct LoginReply {
    pub logged_in: bool,
    pub challenge: String,
}

/// The login reply: an envelope whose result holds the `logged_in` flag and
/// the one-time challenge.
pub open spec fn login_doc_of(s: Seq<char>) -> Option<(bool, Seq<char>)> {
    match parse_doc(s) {
        Some(pairs) => match (doc_bool(pairs, "success"@), doc_obj(pairs, "result"@)) {
            (Some(_), Some(res)) => match (obj_bool(res, "logged_in"@), obj_str(
                res,
                "challenge"@,
            )) {
                (Some(li), Some(ch)) => Some((li, ch)),
                _ => None,
            },
            _ => None,
        },
        None => None,
    }
}

/// Decodes the login reply.
pub fn decode_login(body: &str) -> (r: Result<LoginReply, SessionError>)
    ensures
        match r {
            Ok(l) => login_doc_of(body@) == Some((l.logged_in, l.challenge@)),
            Err(e) => e == SessionError::MalformedBody && login_doc_of(body@) is None,
        },
{
    let pairs = match parse_doc_str(body) {
        Some(p) => p,
        None => {
            return Err(SessionError::MalformedBody);
        },
    };
    if doc_bool_field(&pairs, "success").is_none() {
        return Err(SessionError::MalformedBody);
    }
    let res = match doc_obj_field(&pairs, "result") {
        Some(m) => m,
        None => {
            return Err(SessionError::MalformedBody);
        },
    };
    let logged_in = match obj_bool_field(res, "logged_in") {
        Some(b) => b,
        None => {
            return Err(SessionError::MalformedBody);
        },
    };
    let challenge = match obj_str_field(res, "challenge") {
        Some(t) => t,
        None => {
            return Err(SessionError::MalformedBody);
        },
    };
    Ok(LoginReply { logged_in, challenge })
}

/// The session reply: an envelope whose result holds the session token.
pub open spec fn session_doc_of(s: Seq<char>) -> Option<Seq<char>> {
    match parse_doc(s) {
        Some(pairs) => match (doc_bool(pairs, "success"@), doc_obj(pairs, "result"@)) {
            (Some(_), Some(res)) => obj_str(res, "session_token"@),
            _ => None,
        },
        None => None,
    }
}

/// Decodes the session reply into the session token.
pub fn decode_session(body: &str) -> (r: Result<String, SessionError>)
    ensures
        match r {
            Ok(t) => session_doc_of(body@) == Some(t@),
            Err(e) => e == SessionError::MalformedBody && session_doc_of(body@) is None,
        },
{
    let pairs = match parse_doc_str(body) {
        Some(p) => p,
        None => {
            return Err(SessionError::MalformedBody);
        },
    };
    if doc_bool_field(&pairs, "success").is_none() {
        return Err(SessionError::MalformedBody);
    }
    let res = match doc_obj_field(&pairs, "result") {
        Some(m) => m,
        None => {
            return Err(SessionError::MalformedBody);
        },
    };
    match obj_str_field(res, "session_token") {
        Some(t) => Ok(t),
        None => Err(SessionError::MalformedBody),
    }
}

} // verus!
