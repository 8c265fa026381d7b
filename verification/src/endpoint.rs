//! Endpoint discovery: reading the router's self-description document and
//! deriving the API base URL from it.

use vstd::prelude::*;
use vstd::string::StringExecFns;
use crate::errors::{DiscoveryError, InvalidVersionError};
use crate::json::{
    doc_bool, doc_str, doc_uint, is_digit, parse_doc, parse_uint_loop, doc_bool_field,
    doc_str_field, doc_uint_field, parse_doc_str,
};
use crate::numfmt::{dec_chars, dec_of};
use crate::strutil::{string_from_chars, to_chars};

verus! {

/// What discovery learns from the router: where the HTTPS API lives and
/// which major version it speaks.
#[derive(Clone, Debug)]
pub struct EndpointDescriptor {
    pub api_domain: String,
    pub https_port: u16,
    pub api_base_path: String,
    pub api_major_version: u64,
}

/// The base URL derived from a descriptor:
/// `https://{domain}:{port}{path}v{major}/`.
pub open spec fn base_url_of(domain: Seq<char>, port: u16, path: Seq<char>, major: u64) -> Seq<
    char,
> {
    "https://"@ + domain + ":"@ + dec_of(port as nat) + path + "v"@ + dec_of(major as nat) + "/"@
}

impl EndpointDescriptor {
    /// The base URL this descriptor stands for.
    pub open spec fn spec_base_url(&self) -> Seq<char> {
        base_url_of(self.api_domain@, self.https_port, self.api_base_path@, self.api_major_version)
    }
}

/// The well-known local bootstrap address that serves the router's
/// self-description.
pub fn bootstrap_url() -> (r: &'static str)
    ensures
        r@ == "http://mafreebox.freebox.fr/api_version"@,
{
    "http://mafreebox.freebox.fr/api_version"
}

/// Renders the base URL of a descriptor.
pub fn derive_base_url(d: &EndpointDescriptor) -> (r: String)
    ensures
        r@ == d.spec_base_url(),
{
    let mut out = String::from_str("https://");
    out.append(d.api_domain.as_str());
    out.append(":");
    let port_chars = dec_chars(d.https_port as u64);
    let port_str = string_from_chars(&port_chars);
    out.append(port_str.as_str());
    out.append(d.api_base_path.as_str());
    out.append("v");
    let major_chars = dec_chars(d.api_major_version);
    let major_str = string_from_chars(&major_chars);
    out.append(major_str.as_str());
    out.append("/");
    out
}

/// Deriving the base URL is pure: it depends on the descriptor's fields
/// alone, so equal descriptors always give the same URL.
pub proof fn lemma_base_url_deterministic(
    domain: Seq<char>,
    port: u16,
    path: Seq<char>,
    major: u64,
    r1: Seq<char>,
    r2: Seq<char>,
)
    requires
        r1 == base_url_of(domain, port, path, major),
        r2 == base_url_of(domain, port, path, major),
    ensures
        r1 == r2,
{
}

/// The major component of a version string: the run of digits before the
/// first `.` separator. There is none when the string does not begin with a
/// digit, when the digits are not followed by a `.`, or when their value
/// does not fit in 64 bits.
pub open spec fn major_version_of(s: Seq<char>) -> Option<u64> {
    if s.len() > 0 && is_digit(s[0]) {
        match parse_uint_loop(s, 0) {
            Some(p) => if p.1.len() > 0 && p.1[0] == '.' {
                Some(p.0)
            } else {
                None
            },
            None => None,
        }
    } else {
        None
    }
}

/// Extracts the major component of a version string.
pub fn parse_major_version(s: &str) -> (r: Result<u64, InvalidVersionError>)
    ensures
        match r {
            Ok(n) => major_version_of(s@) == Some(n),
            Err(_) => major_version_of(s@) is None,
        },
{
    let v = to_chars(s);
    proof {
        assert(v@.skip(0) =~= v@);
    }
    if v.len() > 0 && crate::json::is_digit_exec(v[0]) {
        match crate::json::parse_uint_loop_exec(&v, 0, 0) {
            Some(p) => {
                proof {
                    if p.1 < v.len() {
                        assert(v@.skip(p.1 as int)[0] == v@[p.1 as int]);
                    }
                }
                if p.1 < v.len() && v[p.1] == '.' {
                    Ok(p.0)
                } else {
                    Err(InvalidVersionError)
                }
            },
            None => Err(InvalidVersionError),
        }
    } else {
        Err(InvalidVersionError)
    }
}

/// What the self-description document must hold: every advertised field,
/// each with its type, the port fitting in sixteen bits. Yields the domain,
/// port, base path and version string.
pub open spec fn api_version_doc_of(s: Seq<char>) -> Option<(Seq<char>, u16, Seq<char>, Seq<char>)> {
    match parse_doc(s) {
        Some(pairs) => {
            if doc_str(pairs, "uid"@) is Some && doc_str(pairs, "device_name"@) is Some && doc_str(
                pairs,
                "device_type"@,
            ) is Some && doc_bool(pairs, "https_available"@) is Some {
                match (
                    doc_str(pairs, "api_domain"@),
                    doc_uint(pairs, "https_port"@),
                    doc_str(pairs, "api_base_url"@),
                    doc_str(pairs, "api_version"@),
                ) {
                    (Some(dom), Some(port), Some(base), Some(ver)) => if port <= u16::MAX {
                        Some((dom, port as u16, base, ver))
                    } else {
                        None
                    },
                    _ => None,
                }
            } else {
                None
            }
        },
        None => None,
    }
}

/// Decodes the self-description document and derives the endpoint
/// descriptor, extracting the major version from the version string.
pub fn endpoint_from_document(body: &str) -> (r: Result<EndpointDescriptor, DiscoveryError>)
    ensures
        match r {
            Ok(d) => api_version_doc_of(body@) matches Some(t) && d.api_domain@ == t.0
                && d.https_port == t.1 && d.api_base_path@ == t.2 && major_version_of(t.3) == Some(
                d.api_major_version,
            ),
            Err(e) => match e {
                DiscoveryError::MalformedBody => api_version_doc_of(body@) is None,
                DiscoveryError::InvalidVersion => api_version_doc_of(body@) matches Some(t)
                    && major_version_of(t.3) is None,
                DiscoveryError::Transport => false,
            },
        },
{
    let pairs = match parse_doc_str(body) {
        Some(p) => p,
        None => {
            return Err(DiscoveryError::MalformedBody);
        },
    };
    if doc_str_field(&pairs, "uid").is_none() || doc_str_field(&pairs, "device_name").is_none()
        || doc_str_field(&pairs, "device_type").is_none() || doc_bool_field(
        &pairs,
        "https_available",
    ).is_none() {
        return Err(DiscoveryError::MalformedBody);
    }
    let dom = match doc_str_field(&pairs, "api_domain") {
        Some(t) => t,
        None => {
            return Err(DiscoveryError::MalformedBody);
        },
    };
    let port64 = match doc_uint_field(&pairs, "https_port") {
        Some(n) => n,
        None => {
            return Err(DiscoveryError::MalformedBody);
        },
    };
    if port64 > 65535 {
        return Err(DiscoveryError::MalformedBody);
    }
    let base = match doc_str_field(&pairs, "api_base_url") {
        Some(t) => t,
        None => {
            return Err(DiscoveryError::MalformedBody);
        },
    };
    let ver = match doc_str_field(&pairs, "api_version") {
        Some(t) => t,
        None => {
            return Err(DiscoveryError::MalformedBody);
        },
    };
    let major = match parse_major_version(ver.as_str()) {
        Ok(n) => n,
        Err(_) => {
            return Err(DiscoveryError::InvalidVersion);
        },
    };
    Ok(
        EndpointDescriptor {
            api_domain: dom,
            https_port: port64 as u16,
            api_base_path: base,
            api_major_version: major,
        },
    )
}

} // verus!
