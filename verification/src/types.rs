//! The typed resource documents the router serves, and the common response
//! envelope that wraps them.

use vstd::prelude::*;

verus! {

/// The router's uniform response wrapper.
#[derive(Debug)]
pub struct Response<T> {
    pub success: bool,
    pub result: T,
}

#[derive(Debug, Clone, Copy, PartialEq, Eq, Structural)]
pub enum ConnectionState {
    GoingUp,
    Up,
    GoingDown,
    Down,
}

#[derive(Debug, Clone, Copy, PartialEq, Eq, Structural)]
pub enum ConnectionType {
    Ethernet,
    Rfc2684,
    Pppoatm,
}

#[derive(Debug, Clone, Copy, PartialEq, Eq, Structural)]
pub enum ConnectionMedia {
    Ftth,
    Xdsl,
}

#[derive(Debug, Clone, PartialEq)]
pub struct ConnectionStatus {
    pub ty: ConnectionType,
    pub media: ConnectionMedia,
    pub state: ConnectionState,
    pub rate_down: u32,
    pub rate_up: u32,
    pub bytes_down: u64,
    pub bytes_up: u64,
    pub bandwidth_down: u32,
    pub bandwidth_up: u32,
    pub ipv4: String,
    pub ipv6: String,
}

#[derive(Debug, Clone, Copy, PartialEq, Eq, Structural)]
pub enum XDSLStatusStatus {
    Down,
    Training,
    Started,
    ChanAnalysis,
    MsgExchange,
    Showtime,
    Disabled,
}

#[derive(Debug, Clone, Copy, PartialEq, Eq, Structural)]
pub enum XDSLStatusProtocol {
    T1413,
    Adsl1A,
    Adsl2A,
    Adsl2plusA,
    Readsl2,
    Adsl2M,
    Adsl2plusM,
    Vdsl217a,
    Unknown,
}

#[derive(Debug, Clone, Copy, PartialEq, Eq, Structural)]
pub enum XDSLStatusModulation {
    Adsl,
    Vdsl,
}

#[derive(Debug, Clone, PartialEq)]
pub struct XDSLStatus {
    pub status: XDSLStatusStatus,
    pub protocol: XDSLStatusProtocol,
    pub modulation: XDSLStatusModulation,
    pub uptime: u32,
}

#[derive(Debug, Clone, PartialEq)]
pub struct XDSLStats {
    pub maxrate: u32,
    pub rate: u32,
    pub snr: u32,
    pub attn: u32,
    pub snr_10: u32,
    pub attn_10: u32,
    pub fec: u32,
    pub crc: u32,
    pub hec: u32,
    pub es: u32,
    pub ses: u32,
    pub phyr: bool,
    pub ginp: bool,
    pub nitro: bool,
    pub rxmt: Option<u32>,
    pub rxmt_corr: Option<u32>,
    pub rxmt_uncorr: Option<u32>,
    pub rtx_tx: Option<u32>,
    pub rtx_c: Option<u32>,
    pub rtx_uc: Option<u32>,
}

#[derive(Debug, Clone, PartialEq)]
pub struct XDSLConnectionStatus {
    pub status: XDSLStatus,
    pub up: XDSLStats,
    pub down: XDSLStats,
}

#[derive(Debug, Clone, PartialEq)]
pub struct LanInterface {
    pub name: String,
    pub host_count: u8,
}

#[derive(Debug, Clone, PartialEq)]
pub struct LanHostName {
    pub name: String,
    pub source: String,
}

#[derive(Debug, Clone, PartialEq)]
pub struct LanHostL2Ident {
    pub id: String,
    pub ty: String,
}

#[derive(Debug, Clone, PartialEq)]
pub struct LanHostL3Connectivity {
    pub addr: String,
    pub af: String,
    pub active: bool,
    pub reachable: bool,
    pub last_activity: u64,
    pub last_time_reachable: u64,
}

#[derive(Debug, Clone, PartialEq)]
pub struct LanHost {
    pub id: String,
    pub primary_name: String,
    pub host_type: String,
    pub primary_name_manual: bool,
    pub l2ident: LanHostL2Ident,
    pub vendor_name: String,
    pub persistent: bool,
    pub reachable: bool,
    pub last_time_reachable: u64,
    pub active: bool,
    pub last_activity: u64,
    pub names: Option<Vec<LanHostName>>,
    pub l3connectivities: Option<Vec<LanHostL3Connectivity>>,
}

#[derive(Debug, Clone, PartialEq)]
pub struct WifiState {
    pub enabled: bool,
    pub mac_filter_state: String,
}

#[derive(Debug, Clone, Copy, PartialEq, Eq, Structural)]
pub struct UpdateWifiState {
    pub enabled: bool,
}

} // verus!
