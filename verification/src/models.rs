//! Data models: profile contents (nodes, groups, rules), subscription records,
//! and the replies of the Mihomo REST API that the interface reads.
//!
//! Maps keyed by name in the API replies are held as vectors of entries whose
//! names are pairwise distinct (`names_distinct`).
use vstd::prelude::*;
use crate::text::{eq_ignore_case, str_eq, str_eq_ignore_ascii_case};

verus! {

/// Subscription metadata item stored in the profile index.
pub struct Subscription {
    pub id: String,
    pub name: String,
    pub url: String,
    pub file_path: String,
    pub created_time: u64,
    pub updated_time: u64,
    pub node_count: usize,
}

/// A proxy node of a profile.
pub struct Proxy {
    pub name: String,
    pub proxy_type: String,
    pub server: String,
    pub port: u16,
    pub udp: Option<bool>,
    pub tls: Option<bool>,
}

pub struct ProxyView {
    pub name: Seq<char>,
    pub proxy_type: Seq<char>,
    pub server: Seq<char>,
    pub port: u16,
    pub udp: Option<bool>,
    pub tls: Option<bool>,
}

impl View for Proxy {
    type V = ProxyView;

    open spec fn view(&self) -> ProxyView {
        ProxyView {
            name: self.name@,
            proxy_type: self.proxy_type@,
            server: self.server@,
            port: self.port,
            udp: self.udp,
            tls: self.tls,
        }
    }
}

/// A proxy group of a profile.
pub struct ProxyGroup {
    pub name: String,
    pub group_type: String,
    pub proxies: Vec<String>,
    pub now: Option<String>,
}

pub struct ProxyGroupView {
    pub name: Seq<char>,
    pub group_type: Seq<char>,
    pub proxies: Seq<Seq<char>>,
    pub now: Option<Seq<char>>,
}

pub open spec fn strings_view(v: Seq<String>) -> Seq<Seq<char>> {
    v.map_values(|s: String| s@)
}

pub open spec fn opt_string_view(o: Option<String>) -> Option<Seq<char>> {
    match o {
        Some(s) => Some(s@),
        None => None,
    }
}

impl View for ProxyGroup {
    type V = ProxyGroupView;

    open spec fn view(&self) -> ProxyGroupView {
        ProxyGroupView {
            name: self.name@,
            group_type: self.group_type@,
            proxies: strings_view(self.proxies@),
            now: opt_string_view(self.now),
        }
    }
}

/// A routing rule: `TYPE,PAYLOAD,TARGET`.
pub struct Rule {
    pub rule_type: String,
    pub payload: String,
    pub proxy: String,
}

pub struct RuleView {
    pub rule_type: Seq<char>,
    pub payload: Seq<char>,
    pub proxy: Seq<char>,
}

impl View for Rule {
    type V = RuleView;

    open spec fn view(&self) -> RuleView {
        RuleView { rule_type: self.rule_type@, payload: self.payload@, proxy: self.proxy@ }
    }
}

/// A delay measurement of a node as the REST API reports it.
pub struct ApiDelayHistory {
    pub time: String,
    pub delay: u16,
}

/// A node or group as the REST API reports it.
pub struct ApiProxyItem {
    pub name: String,
    pub proxy_type: String,
    pub udp: Option<bool>,
    pub history: Option<Vec<ApiDelayHistory>>,
    pub all: Option<Vec<String>>,
    pub now: Option<String>,
}

/// The latest recorded delay, when there is one and it is positive.
pub open spec fn spec_last_delay(history: Option<Seq<u16>>) -> Option<u16> {
    match history {
        Some(h) => if h.len() > 0 && h.last() > 0 {
            Some(h.last())
        } else {
            None
        },
        None => None,
    }
}

pub open spec fn api_history_delays(h: Option<Vec<ApiDelayHistory>>) -> Option<Seq<u16>> {
    match h {
        Some(v) => Some(v@.map_values(|d: ApiDelayHistory| d.delay)),
        None => None,
    }
}

/// Type names that mark an API item as a group (compared ignoring ASCII case).
pub open spec fn is_group_type(t: Seq<char>) -> bool {
    ||| eq_ignore_case(t, "Selector"@)
    ||| eq_ignore_case(t, "URLTest"@)
    ||| eq_ignore_case(t, "Fallback"@)
    ||| eq_ignore_case(t, "LoadBalance"@)
}

impl ApiProxyItem {
    /// The latest delay in milliseconds, if the last record holds a positive one.
    pub fn last_delay(&self) -> (r: Option<u16>)
        ensures
            r == spec_last_delay(api_history_delays(self.history)),
    {
        match &self.history {
            Some(h) => {
                if h.len() > 0 && h[h.len() - 1].delay > 0 {
                    Some(h[h.len() - 1].delay)
                } else {
                    None
                }
            },
            None => None,
        }
    }

    /// Whether this item is a proxy group rather than a single node.
    pub fn is_group(&self) -> (r: bool)
        ensures
            r == (is_group_type(self.proxy_type@) || self.all is Some),
    {
        str_eq_ignore_ascii_case(self.proxy_type.as_str(), "Selector") || str_eq_ignore_ascii_case(
            self.proxy_type.as_str(),
            "URLTest",
        ) || str_eq_ignore_ascii_case(self.proxy_type.as_str(), "Fallback")
            || str_eq_ignore_ascii_case(self.proxy_type.as_str(), "LoadBalance") || self.all.is_some()
    }
}

/// The names of a list of keyed entries are pairwise distinct.
pub open spec fn names_distinct<T>(v: Seq<(String, T)>) -> bool {
    forall|i: int, j: int|
        0 <= i < v.len() && 0 <= j < v.len() && i != j ==> v[i].0@ != v[j].0@
}

/// Index of the first entry named `name`, if any.
pub open spec fn entry_index<T>(v: Seq<(String, T)>, name: Seq<char>) -> Option<int>
    decreases v.len(),
{
    if v.len() == 0 {
        None
    } else if v[0].0@ == name {
        Some(0)
    } else {
        match entry_index(v.drop_first(), name) {
            Some(i) => Some(i + 1),
            None => None,
        }
    }
}

/// `entry_index` finds the first entry with the name, and nothing when none has it.
pub proof fn lemma_entry_index<T>(v: Seq<(String, T)>, name: Seq<char>)
    ensures
        entry_index(v, name) matches Some(i) ==> 0 <= i < v.len() && v[i].0@ == name && forall|j: int|
            0 <= j < i ==> v[j].0@ != name,
        entry_index(v, name) is None ==> forall|j: int| 0 <= j < v.len() ==> v[j].0@ != name,
    decreases v.len(),
{
    if v.len() > 0 {
        lemma_entry_index(v.drop_first(), name);
        assert forall|j: int| 1 <= j < v.len() implies v[j] == v.drop_first()[j - 1] by {}
    }
}

/// The first entry with a name is found at its position.
pub proof fn lemma_entry_index_at<T>(v: Seq<(String, T)>, name: Seq<char>, i: int)
    requires
        0 <= i <= v.len(),
        forall|j: int| 0 <= j < i ==> v[j].0@ != name,
    ensures
        i < v.len() && v[i].0@ == name ==> entry_index(v, name) == Some(i),
        i == v.len() ==> entry_index(v, name) is None,
    decreases i,
{
    if i > 0 {
        assert forall|j: int| 0 <= j < i - 1 implies v.drop_first()[j].0@ != name by {
            assert(v.drop_first()[j] == v[j + 1]);
        }
        lemma_entry_index_at(v.drop_first(), name, i - 1);
    }
}

/// Position of the first entry named `name` in a list of keyed entries.
pub fn find_entry<T>(v: &Vec<(String, T)>, name: &str) -> (r: Option<usize>)
    ensures
        match r {
            Some(i) => entry_index(v@, name@) == Some(i as int) && i < v@.len() && v@[i as int].0@
                == name@,
            None => entry_index(v@, name@) is None,
        },
{
    let mut i: usize = 0;
    while i < v.len()
        invariant
            i <= v.len(),
            forall|j: int| 0 <= j < i ==> v@[j].0@ != name@,
        decreases v.len() - i,
    {
        if str_eq(v[i].0.as_str(), name) {
            proof {
                lemma_entry_index_at(v@, name@, i as int);
            }
            return Some(i);
        }
        i += 1;
    }
    proof {
        lemma_entry_index_at(v@, name@, i as int);
    }
    None
}

/// Every node and group, keyed by name (GET /proxies).
pub struct ProxiesResponse {
    pub proxies: Vec<(String, ApiProxyItem)>,
}

/// Core configuration (GET /configs).
pub struct MihomoConfig {
    pub mode: Option<String>,
    pub http_port: Option<u16>,
    pub socks_port: Option<u16>,
    pub mixed_port: Option<u16>,
    pub log_level: Option<String>,
    pub allow_lan: Option<bool>,
}

/// Core version (GET /version).
pub struct VersionInfo {
    pub version: String,
    pub meta: bool,
}

/// Real-time traffic sample (bytes per second).
#[derive(Clone, Copy)]
pub struct TrafficMessage {
    pub up: u64,
    pub down: u64,
}

impl TrafficMessage {
    pub fn default() -> (r: TrafficMessage)
        ensures
            r.up == 0 && r.down == 0,
    {
        TrafficMessage { up: 0, down: 0 }
    }
}

/// A line of the core's log stream.
pub struct LogMessage {
    pub log_type: String,
    pub payload: String,
}

/// Connection details.
pub struct ConnectionMetadata {
    pub network_type: String,
    pub host: Option<String>,
    pub destination_ip: Option<String>,
    pub destination_port: Option<String>,
    pub process: Option<String>,
    pub process_path: Option<String>,
}

/// An active connection.
pub struct ConnectionItem {
    pub id: String,
    pub metadata: ConnectionMetadata,
    pub upload: u64,
    pub download: u64,
    pub start: String,
    pub chains: Vec<String>,
    pub rule: Option<String>,
    pub rule_payload: Option<String>,
}

/// Active connections (GET /connections).
pub struct ConnectionsResponse {
    pub connections: Vec<ConnectionItem>,
    pub upload_total: u64,
    pub download_total: u64,
}

/// Active rules (GET /rules).
pub struct RulesResponse {
    pub rules: Vec<Rule>,
}

} // verus!
