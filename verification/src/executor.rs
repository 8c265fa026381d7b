//! The authenticated request executor's decisions: where each resource
//! lives, the header carrying the session credential, and the decoding of
//! enveloped resource documents.

use vstd::prelude::*;
use vstd::string::StringExecFns;
use crate::errors::RequestError;
use crate::json::{
    doc_bool, doc_obj, obj_bool, obj_str, obj_uint, parse_doc, GPrim, doc_bool_field,
    doc_obj_field, obj_bool_field, obj_str_field, obj_uint_field, parse_doc_str,
};
use crate::strutil::str_eq;
use crate::types::{ConnectionMedia, ConnectionState, ConnectionStatus, ConnectionType, UpdateWifiState, WifiState};

verus! {

/// The header that carries the session credential on every authenticated
/// request.
pub fn auth_header_name() -> (r: &'static str)
    ensures
        r@ == "X-Fbx-App-Auth"@,
{
    "X-Fbx-App-Auth"
}

/// URL of the connection-status resource.
pub fn connection_url(base_url: &str) -> (r: String)
    ensures
        r@ == base_url@ + "connection/"@,
{
    let mut out = String::from_str(base_url);
    out.append("connection/");
    out
}

/// URL of the xDSL-status resource.
pub fn xdsl_url(base_url: &str) -> (r: String)
    ensures
        r@ == base_url@ + "connection/xdsl/"@,
{
    let mut out = String::from_str(base_url);
    out.append("connection/xdsl/");
    out
}

/// URL of the LAN host listing for one interface.
pub fn lan_browser_url(base_url: &str, interface: &str) -> (r: String)
    ensures
        r@ == base_url@ + "lan/browser/"@ + interface@ + "/"@,
{
    let mut out = String::from_str(base_url);
    out.append("lan/browser/");
    out.append(interface);
    out.append("/");
    out
}

/// URL of the Wi-Fi configuration resource. The path ends in a doubled
/// slash, which the router tolerates.
pub fn wifi_config_url(base_url: &str) -> (r: String)
    ensures
        r@ == base_url@ + "wifi/config//"@,
{
    let mut out = String::from_str(base_url);
    out.append("wifi/config//");
    out
}

/// The Wi-Fi update request document.
pub fn format_update_wifi(update: UpdateWifiState) -> (r: String)
    ensures
        update.enabled ==> r@ == "{\"enabled\":true}"@,
        !update.enabled ==> r@ == "{\"enabled\":false}"@,
{
    if update.enabled {
        String::from_str("{\"enabled\":true}")
    } else {
        String::from_str("{\"enabled\":false}")
    }
}

/// The Wi-Fi state reply: an envelope whose result holds the enabled flag
/// and the MAC filter state.
pub open spec fn wifi_doc_of(s: Seq<char>) -> Option<(bool, Seq<char>)> {
    match parse_doc(s) {
        Some(pairs) => match (doc_bool(pairs, "success"@), doc_obj(pairs, "result"@)) {
            (Some(_), Some(res)) => match (obj_bool(res, "enabled"@), obj_str(
                res,
                "mac_filter_state"@,
            )) {
                (Some(en), Some(mf)) => Some((en, mf)),
                _ => None,
            },
            _ => None,
        },
        None => None,
    }
}

/// Decodes the Wi-Fi state reply.
pub fn decode_wifi_state(body: &str) -> (r: Result<WifiState, RequestError>)
    ensures
        match r {
            Ok(w) => wifi_doc_of(body@) == Some((w.enabled, w.mac_filter_state@)),
            Err(e) => e == RequestError::MalformedBody && wifi_doc_of(body@) is None,
        },
{
    let pairs = match parse_doc_str(body) {
        Some(p) => p,
        None => {
            return Err(RequestError::MalformedBody);
        },
    };
    if doc_bool_field(&pairs, "success").is_none() {
        return Err(RequestError::MalformedBody);
    }
    let res = match doc_obj_field(&pairs, "result") {
        Some(m) => m,
        None => {
            return Err(RequestError::MalformedBody);
        },
    };
    let enabled = match obj_bool_field(res, "enabled") {
        Some(b) => b,
        None => {
            return Err(RequestError::MalformedBody);
        },
    };
    let mac_filter_state = match obj_str_field(res, "mac_filter_state") {
        Some(t) => t,
        None => {
            return Err(RequestError::MalformedBody);
        },
    };
    Ok(WifiState { enabled, mac_filter_state })
}

/// The connection type as the router writes it.
pub open spec fn connection_type_of(s: Seq<char>) -> Option<ConnectionType> {
    if s == "ethernet"@ {
        Some(ConnectionType::Ethernet)
    } else if s == "rfc2684"@ {
        Some(ConnectionType::Rfc2684)
    } else if s == "pppoatm"@ {
        Some(ConnectionType::Pppoatm)
    } else {
        None
    }
}

/// The connection medium as the router writes it.
pub open spec fn connection_media_of(s: Seq<char>) -> Option<ConnectionMedia> {
    if s == "ftth"@ {
        Some(ConnectionMedia::Ftth)
    } else if s == "xdsl"@ {
        Some(ConnectionMedia::Xdsl)
    } else {
        None
    }
}

/// The connection state as the router writes it.
pub open spec fn connection_state_of(s: Seq<char>) -> Option<ConnectionState> {
    if s == "going_up"@ {
        Some(ConnectionState::GoingUp)
    } else if s == "up"@ {
        Some(ConnectionState::Up)
    } else if s == "going_down"@ {
        Some(ConnectionState::GoingDown)
    } else if s == "down"@ {
        Some(ConnectionState::Down)
    } else {
        None
    }
}

/// Reads a connection type.
pub fn parse_connection_type(s: &str) -> (r: Option<ConnectionType>)
    ensures
        r == connection_type_of(s@),
{
    if str_eq(s, "ethernet") {
        Some(ConnectionType::Ethernet)
    } else if str_eq(s, "rfc2684") {
        Some(ConnectionType::Rfc2684)
    } else if str_eq(s, "pppoatm") {
        Some(ConnectionType::Pppoatm)
    } else {
        None
    }
}

/// Reads a connection medium.
pub fn parse_connection_media(s: &str) -> (r: Option<ConnectionMedia>)
    ensures
        r == connection_media_of(s@),
{
    if str_eq(s, "ftth") {
        Some(ConnectionMedia::Ftth)
    } else if str_eq(s, "xdsl") {
        Some(ConnectionMedia::Xdsl)
    } else {
        None
    }
}

/// Reads a connection state.
pub fn parse_connection_state(s: &str) -> (r: Option<ConnectionState>)
    ensures
        r == connection_state_of(s@),
{
    if str_eq(s, "going_up") {
        Some(ConnectionState::GoingUp)
    } else if str_eq(s, "up") {
        Some(ConnectionState::Up)
    } else if str_eq(s, "going_down") {
        Some(ConnectionState::GoingDown)
    } else if str_eq(s, "down") {
        Some(ConnectionState::Down)
    } else {
        None
    }
}

/// Mathematical model of a decoded connection status.
pub struct GConnectionStatus {
    pub ty: ConnectionType,
    pub media: ConnectionMedia,
    pub state: ConnectionState,
    pub rate_down: u32,
    pub rate_up: u32,
    pub bytes_down: u64,
    pub bytes_up: u64,
    pub bandwidth_down: u32,
    pub bandwidth_up: u32,
    pub ipv4: Seq<char>,
    pub ipv6: Seq<char>,
}

impl View for ConnectionStatus {
    type V = GConnectionStatus;

    open spec fn view(&self) -> GConnectionStatus {
        GConnectionStatus {
            ty: self.ty,
            media: self.media,
            state: self.state,
            rate_down: self.rate_down,
            rate_up: self.rate_up,
            bytes_down: self.bytes_down,
            bytes_up: self.bytes_up,
            bandwidth_down: self.bandwidth_down,
            bandwidth_up: self.bandwidth_up,
            ipv4: self.ipv4@,
            ipv6: self.ipv6@,
        }
    }
}

/// The fields of a connection-status result object.
pub open spec fn connection_result_of(res: Seq<(Seq<char>, GPrim)>) -> Option<GConnectionStatus> {
    match (obj_str(res, "type"@), obj_str(res, "media"@), obj_str(res, "state"@)) {
        (Some(tys), Some(ms), Some(ss)) => match (
            connection_type_of(tys),
            connection_media_of(ms),
            connection_state_of(ss),
        ) {
            (Some(ty), Some(media), Some(state)) => match (
                obj_uint(res, "rate_down"@),
                obj_uint(res, "rate_up"@),
                obj_uint(res, "bytes_down"@),
                obj_uint(res, "bytes_up"@),
                obj_uint(res, "bandwidth_down"@),
                obj_uint(res, "bandwidth_up"@),
            ) {
                (Some(rd), Some(ru), Some(bd), Some(bu), Some(bwd), Some(bwu)) => if rd
                    <= u32::MAX && ru <= u32::MAX && bwd <= u32::MAX && bwu <= u32::MAX {
                    match (obj_str(res, "ipv4"@), obj_str(res, "ipv6"@)) {
                        (Some(v4), Some(v6)) => Some(
                            GConnectionStatus {
                                ty,
                                media,
                                state,
                                rate_down: rd as u32,
                                rate_up: ru as u32,
                                bytes_down: bd,
                                bytes_up: bu,
                                bandwidth_down: bwd as u32,
                                bandwidth_up: bwu as u32,
                                ipv4: v4,
                                ipv6: v6,
                            },
                        ),
                        _ => None,
                    }
                } else {
                    None
                },
                _ => None,
            },
            _ => None,
        },
        _ => None,
    }
}

/// The connection-status reply: an envelope whose result holds the
/// connection fields.
pub open spec fn connection_doc_of(s: Seq<char>) -> Option<GConnectionStatus> {
    match parse_doc(s) {
        Some(pairs) => match (doc_bool(pairs, "success"@), doc_obj(pairs, "result"@)) {
            (Some(_), Some(res)) => connection_result_of(res),
            _ => None,
        },
        None => None,
    }
}

/// Decodes the connection-status reply.
pub fn decode_connection_status(body: &str) -> (r: Result<ConnectionStatus, RequestError>)
    ensures
        match r {
            Ok(c) => connection_doc_of(body@) == Some(c@),
            Err(e) => e == RequestError::MalformedBody && connection_doc_of(body@) is None,
        },
{
    let pairs = match parse_doc_str(body) {
        Some(p) => p,
        None => {
            return Err(RequestError::MalformedBody);
        },
    };
    if doc_bool_field(&pairs, "success").is_none() {
        return Err(RequestError::MalformedBody);
    }
    let res = match doc_obj_field(&pairs, "result") {
        Some(m) => m,
        None => {
            return Err(RequestError::MalformedBody);
        },
    };
    let tys = match obj_str_field(res, "type") {
        Some(t) => t,
        None => {
            return Err(RequestError::MalformedBody);
        },
    };
    let ms = match obj_str_field(res, "media") {
        Some(t) => t,
        None => {
            return Err(RequestError::MalformedBody);
        },
    };
    let ss = match obj_str_field(res, "state") {
        Some(t) => t,
        None => {
            return Err(RequestError::MalformedBody);
        },
    };
    let ty = match parse_connection_type(tys.as_str()) {
        Some(x) => x,
        None => {
            return Err(RequestError::MalformedBody);
        },
    };
    let media = match parse_connection_media(ms.as_str()) {
        Some(x) => x,
        None => {
            return Err(RequestError::MalformedBody);
        },
    };
    let state = match parse_connection_state(ss.as_str()) {
        Some(x) => x,
        None => {
            return Err(RequestError::MalformedBody);
        },
    };
    let rd = match obj_uint_field(res, "rate_down") {
        Some(n) => n,
        None => {
            return Err(RequestError::MalformedBody);
        },
    };
    let ru = match obj_uint_field(res, "rate_up") {
        Some(n) => n,
        None => {
            return Err(RequestError::MalformedBody);
        },
    };
    let bd = match obj_uint_field(res, "bytes_down") {
        Some(n) => n,
        None => {
            return Err(RequestError::MalformedBody);
        },
    };
    let bu = match obj_uint_field(res, "bytes_up") {
        Some(n) => n,
        None => {
            return Err(RequestError::MalformedBody);
        },
    };
    let bwd = match obj_uint_field(res, "bandwidth_down") {
        Some(n) => n,
        None => {
            return Err(RequestError::MalformedBody);
        },
    };
    let bwu = match obj_uint_field(res, "bandwidth_up") {
        Some(n) => n,
        None => {
            return Err(RequestError::MalformedBody);
        },
    };
    if rd > 4294967295 || ru > 4294967295 || bwd > 4294967295 || bwu > 4294967295 {
        return Err(RequestError::MalformedBody);
    }
    let v4 = match obj_str_field(res, "ipv4") {
        Some(t) => t,
        None => {
            return Err(RequestError::MalformedBody);
        },
    };
    let v6 = match obj_str_field(res, "ipv6") {
        Some(t) => t,
        None => {
            return Err(RequestError::MalformedBody);
        },
    };
    Ok(
        ConnectionStatus {
            ty,
            media,
            state,
            rate_down: rd as u32,
            rate_up: ru as u32,
            bytes_down: bd,
            bytes_up: bu,
            bandwidth_down: bwd as u32,
            bandwidth_up: bwu as u32,
            ipv4: v4,
            ipv6: v6,
        },
    )
}

} // verus!
