//! Replies and payloads of the Mihomo REST API as the client module reads them.
use vstd::prelude::*;
use crate::models::spec_last_delay;

verus! {

/// Core version (GET /version).
pub struct VersionInfo {
    pub version: String,
    pub meta: bool,
    pub premium: bool,
}

/// TUN section of the core configuration.
pub struct TunConfigInfo {
    pub enable: bool,
    pub stack: Option<String>,
}

/// Core configuration (GET /configs).
pub struct MihomoConfig {
    pub mode: Option<String>,
    pub http_port: Option<u16>,
    pub socks_port: Option<u16>,
    pub mixed_port: Option<u16>,
    pub log_level: Option<String>,
    pub allow_lan: Option<bool>,
    pub tun: Option<TunConfigInfo>,
}

/// Payload for switching the proxy mode (PATCH /configs).
pub struct ConfigUpdatePayload {
    pub mode: String,
}

/// A delay measurement of a node.
pub struct DelayHistory {
    pub time: Option<String>,
    pub delay: u16,
}

/// A node or group.
pub struct ProxyItem {
    pub name: String,
    pub proxy_type: String,
    pub now: Option<String>,
    pub all: Option<Vec<String>>,
    pub history: Option<Vec<DelayHistory>>,
    pub udp: Option<bool>,
    pub xudp: Option<bool>,
    pub alive: Option<bool>,
}

pub open spec fn history_delays(h: Option<Vec<DelayHistory>>) -> Option<Seq<u16>> {
    match h {
        Some(v) => Some(v@.map_values(|d: DelayHistory| d.delay)),
        None => None,
    }
}

impl ProxyItem {
    /// The latest delay in milliseconds, if the last record holds a positive one.
    pub fn last_delay(&self) -> (r: Option<u16>)
        ensures
            r == spec_last_delay(history_delays(self.history)),
    {
        if let Some(hist) = &self.history {
            if hist.len() > 0 {
                let last = &hist[hist.len() - 1];
                if last.delay > 0 {
                    return Some(last.delay);
                }
            }
        }
        None
    }
}

/// Every node and group, keyed by name (GET /proxies).
pub struct ProxiesResponse {
    pub proxies: Vec<(String, ProxyItem)>,
}

/// Delay test reply (GET /proxies/{name}/delay).
pub struct DelayResponse {
    pub delay: u16,
}

/// Payload for selecting a node in a group (PUT /proxies/{group}).
pub struct SelectProxyPayload {
    pub name: String,
}

/// Connection details.
pub struct ConnectionMetadata {
    pub network: Option<String>,
    pub conn_type: Option<String>,
    pub source_ip: Option<String>,
    pub destination_ip: Option<String>,
    pub source_port: Option<String>,
    pub destination_port: Option<String>,
    pub host: Option<String>,
    pub process: Option<String>,
    pub process_path: Option<String>,
    pub rule: Option<String>,
    pub rule_payload: Option<String>,
}

/// An active connection.
pub struct ConnectionItem {
    pub id: String,
    pub metadata: ConnectionMetadata,
    pub upload: u64,
    pub download: u64,
    pub start: Option<String>,
    pub chains: Vec<String>,
    pub rule: Option<String>,
    pub rule_payload: Option<String>,
}

/// Active connections (GET /connections).
pub struct ConnectionsResponse {
    pub download_total: u64,
    pub upload_total: u64,
    pub connections: Vec<ConnectionItem>,
}

/// Real-time traffic sample.
pub struct TrafficMessage {
    pub up: u64,
    pub down: u64,
}

/// A line of the core's log stream.
pub struct LogMessage {
    pub log_type: String,
    pub payload: String,
}

/// A routing rule.
pub struct RuleItem {
    pub rule_type: String,
    pub payload: String,
    pub proxy: String,
    pub size: Option<usize>,
}

/// Active rules (GET /rules).
pub struct RulesResponse {
    pub rules: Vec<RuleItem>,
}

} // verus!
