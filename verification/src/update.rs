//! The interface's decisions: how each input (a key, a click, a reply of the
//! core, the result of outside work) changes the state, and which outside
//! work it asks for.
//!
//! `update` takes the state and one action and returns the next state, whether
//! to quit, and the effects the application is to carry out; the application
//! feeds their results back as further actions.
use vstd::prelude::*;
use crate::api_models::{
    ProxyItem,
    ConnectionsResponse, LogMessage, MihomoConfig, ProxiesResponse, RulesResponse, TrafficMessage,
    VersionInfo,
};
use crate::models::{entry_index, find_entry, strings_view};
use crate::parser::ParsedProfile;
use crate::profiles::ProfileItem;
use crate::sort::{name_sorted, sort_by_name};
use crate::state::{
    tab_next, tab_prev, toast_after, latencies_view, selected_group, spec_current_group_nodes, spec_display_group_nodes,
    spec_filtered_group_nodes, spec_filtered_sorted_connections, AppState, FocusZone, NodeSort,
    ProfileInput, ProxySubFocus, SettingsForm, Tab, TunPanel, HISTORY_LEN, LOG_CAP,
};
use crate::text::{
    chars_of, clone_strings, concat_str, drop_last_char, has_prefix, starts_with, pop_char, str_eq, string_from, to_lowercase, trim,
    trim_str, unicode_lowercase,
};
use crate::text::{eq_ignore_case, str_eq_ignore_ascii_case};

verus! {

/// A key as the interface distinguishes keys.
#[derive(Clone, Copy, PartialEq, Eq, Structural, Debug)]
pub enum KeyCode {
    Char(char),
    Enter,
    Esc,
    Backspace,
    Tab,
    BackTab,
    Up,
    Down,
    Left,
    Right,
    PageUp,
    PageDown,
    Home,
    End,
    Other,
}

/// A key press, with whether Control was held.
#[derive(Clone, Copy, PartialEq, Eq, Structural, Debug)]
pub struct KeyEvent {
    pub code: KeyCode,
    pub ctrl: bool,
}

/// What the mouse did.
#[derive(Clone, Copy, PartialEq, Eq, Structural, Debug)]
pub enum MouseKind {
    LeftDown,
    RightDown,
    MiddleDown,
    ScrollUp,
    ScrollDown,
    Other,
}

/// A mouse event at a terminal cell.
#[derive(Clone, Copy, PartialEq, Eq, Structural, Debug)]
pub struct MouseEvent {
    pub kind: MouseKind,
    pub column: u16,
    pub row: u16,
}

/// Why the privilege of the core binary was probed.
#[derive(Clone, Copy, PartialEq, Eq, Structural, Debug)]
pub enum ProbeReason {
    /// Before switching TUN mode.
    ToggleTun,
    /// After a grant (or revoke) with a password or Polkit succeeded.
    AfterGrant,
    /// After a non-interactive revoke; `ok` tells whether it reported success.
    AfterRevoke { ok: bool },
}

/// Inputs of the interface: user input, replies of the core, results of
/// outside work, and requests queued by earlier decisions.
pub enum Action {
    Tick,
    Key(KeyEvent),
    Mouse(MouseEvent),
    Quit,
    NextTab,
    PrevTab,
    SelectTab(usize),
    VersionFetched(Result<VersionInfo, String>),
    ConfigFetched(Result<MihomoConfig, String>),
    ProxiesFetched(Result<ProxiesResponse, String>),
    ConnectionsFetched(Result<ConnectionsResponse, String>),
    OutboundIpFetched(Result<String, String>),
    TrafficReceived(TrafficMessage),
    LogReceived(LogMessage),
    LatencyResult { node: String, result: Result<u16, String> },
    FetchVersion,
    FetchConfig,
    FetchProxies,
    FetchOutboundIp,
    FetchConnections,
    FetchRules,
    RulesFetched(Result<RulesResponse, String>),
    FetchProfiles,
    ProfilesFetched(Result<Vec<ProfileItem>, String>),
    AddProfile { name: String, url: String },
    UpdateProfile(String),
    ActivateProfile(String),
    DeleteProfile(String),
    ToggleProfileInput,
    ToggleSystemProxy,
    ToggleTunMode,
    ShowTunModal,
    HideTunModal,
    GrantTunPrivilegeWithPassword(String),
    GrantTunPrivilegePkexec,
    TunPrivilegeResult(Result<(), String>),
    RevokeTunPrivilege,
    RevokeTunPrivilegeResult(Result<(), String>),
    StartCore,
    StopCore,
    RestartCore,
    DownloadCore,
    DownloadCoreResult(Result<String, String>),
    SaveSettings,
    FocusNextPane,
    FocusPrevPane,
    MoveUp,
    MoveDown,
    ConfirmSelectNode,
    TestSelectedGroupLatency,
    BatchTestGroupLatency,
    TestSiteLatencies,
    SiteLatencyResult { site: String, result: Result<u16, String> },
    ToggleNodeSort,
    ChangeMode(String),
    CloseSelectedConnection,
    CloseAllConnections,
    ClearLogs,
    SetLogFilter(String),
    ToggleHelp,
    ClearScreen,
    /// Fresh host metrics and TUN status, gathered on a tick.
    SystemRefreshed {
        memory_used: u64,
        memory_total: u64,
        privileged: bool,
        interface: String,
        interface_up: bool,
    },
    /// The active profile's file, read and parsed.
    ActiveProfileLoaded { parsed: ParsedProfile, file_path: String },
    /// Whether the core runs and whether its binary was found.
    CoreProbed { running: bool, binary_found: bool, file_path: String },
    /// Outcome of switching the system proxy.
    SysProxyApplied { enable: bool, ok: bool },
    /// The privilege of the core binary, probed for `reason`.
    PrivilegeProbed { reason: ProbeReason, privileged: bool },
    /// Outcome of writing the settings file.
    SettingsSaved { ok: bool },
    /// A connection was closed.
    ConnectionClosed,
    /// Outcome of switching the routing mode.
    ModeSwitched { ok: bool },
}

/// Outside work the application carries out for the interface.
pub enum Effect {
    /// Feed an action back to the interface.
    Queue(Action),
    FetchVersion,
    FetchConfig,
    FetchProxies,
    FetchConnections,
    FetchRules,
    FetchProfiles,
    /// Gather host metrics and TUN status (answered by `SystemRefreshed`).
    RefreshSystem,
    /// Read and parse a profile file (answered by `ActiveProfileLoaded`).
    LoadActiveProfile { file_path: String },
    /// Talk to the core at a new address from now on.
    ConnectClient { url: String, secret: Option<String> },
    /// Check the core process and binary (answered by `CoreProbed`).
    ProbeCore { file_path: String },
    /// Start the core with a profile.
    StartCoreWithConfig { file_path: String },
    /// Download a subscription, then reload the core and refetch profiles and proxies.
    DownloadProfile { name: String, url: String },
    /// Make a stored profile the core's configuration and the active one.
    ActivateProfileFile { name: String },
    /// Remove a profile's file and index entry.
    DeleteProfileFiles { name: String },
    /// Close every connection, then refetch them.
    CloseAllConnections,
    /// Close one connection (answered by `ConnectionClosed` on success).
    CloseConnection { id: String },
    /// Switch the desktop proxy settings (answered by `SysProxyApplied`).
    SetSystemProxy { enable: bool, http_port: u16, socks_port: u16 },
    /// Probe the privilege of the core binary (answered by `PrivilegeProbed`).
    ProbePrivilege { reason: ProbeReason },
    /// Grant (or, when `revoke`, remove) the capability with a sudo password
    /// (answered by `TunPrivilegeResult`).
    GrantWithPassword { password: String, revoke: bool },
    /// Grant the capability through Polkit (answered by `TunPrivilegeResult`).
    GrantPkexec,
    /// Remove the capability without a password (answered by `RevokeTunPrivilegeResult`).
    RevokePrivilege,
    /// Restart the core, then switch TUN on with `stack` and refetch the configuration.
    RestartThenEnableTun { stack: String },
    /// Switch TUN off with `stack`, restart the core and refetch the configuration.
    DisableTunThenRestart { stack: String },
    /// Switch TUN mode; when `refetch`, refetch the configuration on success.
    SetTun { enable: bool, stack: String, refetch: bool },
    /// Download and install the core (answered by `DownloadCoreResult`).
    DownloadCore,
    /// Write the settings being edited to the settings file (answered by `SettingsSaved`).
    SaveConfig,
    /// Restart the core, then refetch version and configuration.
    RestartCore,
    /// Find the public address through the local proxy port (answered by `OutboundIpFetched`).
    FetchOutboundIp { port: Option<u16> },
    /// Select a node in a group and in every listed group, then refetch proxies.
    SelectProxy { group: String, node: String, groups: Vec<String> },
    /// Switch the routing mode (answered by `ModeSwitched`).
    SetMode { mode: String },
    /// Test the delay of a group's nodes (answered by `LatencyResult`s).
    TestGroupLatency { group: String, nodes: Vec<String>, test_url: String },
    /// Test the delay of one node (answered by `LatencyResult`).
    TestNodeLatency { node: String, test_url: String },
    /// Test the reachability of the dashboard's sites (answered by `SiteLatencyResult`s).
    TestSites { port: Option<u16> },
}

/// Result of one step: the next state, whether to quit, and the outside work.
pub struct Outcome {
    pub state: AppState,
    pub quit: bool,
    pub effects: Vec<Effect>,
}

// ---------------------------------------------------------------------------
// Keyed tables and bounded histories
// ---------------------------------------------------------------------------

/// A keyed table after setting `key` to `value`: the entry is replaced in
/// place when present, appended otherwise.
pub open spec fn table_insert(
    m: Seq<(Seq<char>, Option<u16>)>,
    key: Seq<char>,
    value: Option<u16>,
) -> Seq<(Seq<char>, Option<u16>)> {
    match first_key(m, key) {
        Some(i) => m.update(i, (key, value)),
        None => m.push((key, value)),
    }
}

/// Position of the first entry with the given key.
pub open spec fn first_key(m: Seq<(Seq<char>, Option<u16>)>, key: Seq<char>) -> Option<int>
    decreases m.len(),
{
    if m.len() == 0 {
        None
    } else if m[0].0 == key {
        Some(0)
    } else {
        match first_key(m.drop_first(), key) {
            Some(i) => Some(i + 1),
            None => None,
        }
    }
}

pub proof fn lemma_first_key_views(m: Seq<(String, Option<u16>)>, key: Seq<char>)
    ensures
        first_key(latencies_view(m), key) == entry_index(m, key),
    decreases m.len(),
{
    if m.len() > 0 {
        assert(latencies_view(m).drop_first() =~= latencies_view(m.drop_first()));
        lemma_first_key_views(m.drop_first(), key);
    }
}

/// What `first_key` finds.
pub proof fn lemma_first_key(m: Seq<(Seq<char>, Option<u16>)>, key: Seq<char>)
    ensures
        first_key(m, key) matches Some(i) ==> 0 <= i < m.len() && m[i].0 == key && forall|j: int|
            0 <= j < i ==> m[j].0 != key,
        first_key(m, key) is None ==> forall|j: int| 0 <= j < m.len() ==> m[j].0 != key,
    decreases m.len(),
{
    if m.len() > 0 {
        lemma_first_key(m.drop_first(), key);
        assert forall|j: int| 1 <= j < m.len() implies m[j] == m.drop_first()[j - 1] by {}
    }
}

proof fn lemma_first_key_at(m: Seq<(Seq<char>, Option<u16>)>, key: Seq<char>, i: int)
    requires
        0 <= i <= m.len(),
        forall|j: int| 0 <= j < i ==> m[j].0 != key,
    ensures
        i < m.len() && m[i].0 == key ==> first_key(m, key) == Some(i),
        i == m.len() ==> first_key(m, key) is None,
    decreases i,
{
    if i > 0 {
        assert forall|j: int| 0 <= j < i - 1 implies m.drop_first()[j].0 != key by {
            assert(m.drop_first()[j] == m[j + 1]);
        }
        lemma_first_key_at(m.drop_first(), key, i - 1);
    }
}

/// Sets `key` to `value` in a keyed table.
pub fn table_set(m: &mut Vec<(String, Option<u16>)>, key: String, value: Option<u16>)
    ensures
        latencies_view(final(m)@) == table_insert(latencies_view(old(m)@), key@, value),
{
    proof {
        lemma_first_key_views(old(m)@, key@);
    }
    match find_entry(m, key.as_str()) {
        Some(i) => {
            let ghost k = key@;
            m.set(i, (key, value));
            assert(latencies_view(m@) =~= latencies_view(old(m)@).update(i as int, (k, value)));
        },
        None => {
            let ghost k = key@;
            m.push((key, value));
            assert(latencies_view(m@) =~= latencies_view(old(m)@).push((k, value)));
        },
    }
}

/// A history after appending `x` and dropping its oldest element when it
/// grows past `cap`.
pub open spec fn capped_push<T>(h: Seq<T>, x: T, cap: nat) -> Seq<T> {
    if h.push(x).len() > cap {
        h.push(x).drop_first()
    } else {
        h.push(x)
    }
}

fn push_capped<T>(h: &mut Vec<T>, x: T, cap: usize)
    ensures
        final(h)@ == capped_push(old(h)@, x, cap as nat),
{
    h.push(x);
    if h.len() > cap {
        h.remove(0);
        assert(h@ =~= old(h)@.push(x).drop_first());
    }
}

/// A history holding at most `cap` elements keeps that bound after a push.
pub proof fn lemma_capped_push_bound<T>(h: Seq<T>, x: T, cap: nat)
    requires
        h.len() <= cap,
        cap > 0,
    ensures
        capped_push(h, x, cap).len() <= cap,
        capped_push(h, x, cap).len() > 0,
        capped_push(h, x, cap).last() == x,
{
}

/// After setting a key, looking it up gives the new value, every other key
/// keeps its value, and distinct keys stay distinct.
pub proof fn lemma_table_insert(
    m: Seq<(Seq<char>, Option<u16>)>,
    key: Seq<char>,
    value: Option<u16>,
    other: Seq<char>,
)
    requires
        other != key,
    ensures
        first_key(table_insert(m, key, value), key) matches Some(i) && table_insert(
            m,
            key,
            value,
        )[i].1 == value,
        first_key(table_insert(m, key, value), other) == first_key(m, other),
        (forall|i: int, j: int| 0 <= i < j < m.len() ==> m[i].0 != m[j].0) ==> (forall|i: int, j: int|
            0 <= i < j < table_insert(m, key, value).len() ==> table_insert(m, key, value)[i].0
                != table_insert(m, key, value)[j].0),
{
    let r = table_insert(m, key, value);
    lemma_first_key(m, key);
    lemma_first_key(m, other);
    match first_key(m, key) {
        Some(i) => {
            lemma_first_key_at(r, key, i);
            match first_key(m, other) {
                Some(b) => {
                    lemma_first_key_at(r, other, b);
                },
                None => {
                    lemma_first_key_at(r, other, r.len() as int);
                },
            }
        },
        None => {
            lemma_first_key_at(r, key, m.len() as int);
            match first_key(m, other) {
                Some(b) => {
                    lemma_first_key_at(r, other, b);
                },
                None => {
                    lemma_first_key_at(r, other, r.len() as int);
                },
            }
        },
    }
}


// ---------------------------------------------------------------------------
// Replies of the core and results of outside work
// ---------------------------------------------------------------------------

/// Whether an API item is listed among the proxy groups: a selector or
/// URL-test group (any ASCII case), or any item with a member list.
pub open spec fn is_listed_group(p: ProxyItem) -> bool {
    eq_ignore_case(p.proxy_type@, "Selector"@) || eq_ignore_case(p.proxy_type@, "URLTest"@)
        || p.all is Some
}

/// Names of the listed groups among the core's items, in list order.
pub open spec fn group_candidates(es: Seq<(String, ProxyItem)>) -> Seq<(String, ())>
    decreases es.len(),
{
    if es.len() == 0 {
        Seq::empty()
    } else {
        let rest = group_candidates(es.drop_last());
        if is_listed_group(es.last().1) {
            rest.push((es.last().0, ()))
        } else {
            rest
        }
    }
}

/// The group names the proxies view lists for a reply: the listed groups,
/// ordered by name.
pub open spec fn listed_groups(es: Seq<(String, ProxyItem)>) -> Seq<String> {
    name_sorted(group_candidates(es)).map_values(|e: (String, ())| e.0)
}

fn listed_group_names(es: &Vec<(String, ProxyItem)>) -> (r: Vec<String>)
    ensures
        r@ == listed_groups(es@),
{
    let mut c: Vec<(String, ())> = Vec::new();
    let mut i: usize = 0;
    while i < es.len()
        invariant
            i <= es.len(),
            c@ == group_candidates(es@.take(i as int)),
        decreases es.len() - i,
    {
        proof {
            assert(es@.take(i + 1).drop_last() =~= es@.take(i as int));
            assert(es@.take(i + 1).last() == es@[i as int]);
        }
        let p = &es[i].1;
        if str_eq_ignore_ascii_case(p.proxy_type.as_str(), "Selector") || str_eq_ignore_ascii_case(
            p.proxy_type.as_str(),
            "URLTest",
        ) || p.all.is_some() {
            c.push((es[i].0.clone(), ()));
        }
        i += 1;
    }
    assert(es@.take(es@.len() as int) =~= es@);
    let sorted = sort_by_name(c);
    let mut r: Vec<String> = Vec::new();
    let mut k: usize = 0;
    while k < sorted.len()
        invariant
            k <= sorted.len(),
            r@ == sorted@.take(k as int).map_values(|e: (String, ())| e.0),
        decreases sorted.len() - k,
    {
        r.push(sorted[k].0.clone());
        k += 1;
        assert(r@ =~= sorted@.take(k as int).map_values(|e: (String, ())| e.0));
    }
    assert(sorted@.take(sorted@.len() as int) =~= sorted@);
    r
}

/// An index kept inside a list that was replaced: moved to the last position
/// when past the end of a non-empty list, kept otherwise.
pub open spec fn clamp_index(idx: usize, len: nat) -> usize {
    if len > 0 && idx >= len {
        (len - 1) as usize
    } else {
        idx
    }
}

fn on_version(s: AppState, res: Result<VersionInfo, String>) -> (r: AppState)
    ensures
        r == (match res {
            Ok(v) => AppState { version: Some(v), ..s },
            Err(e) => AppState { status_error: Some(e), ..s },
        }),
{
    match res {
        Ok(v) => AppState { version: Some(v), ..s },
        Err(e) => AppState { status_error: Some(e), ..s },
    }
}

fn on_config(s: AppState, res: Result<MihomoConfig, String>) -> (r: AppState)
    ensures
        r == (match res {
            Ok(c) => AppState {
                tun: TunPanel {
                    enabled: match c.tun {
                        Some(t) => t.enable,
                        None => s.tun.enabled,
                    },
                    ..s.tun
                },
                config: Some(c),
                ..s
            },
            Err(e) => AppState { status_error: Some(e), ..s },
        }),
{
    match res {
        Ok(c) => {
            let en = match &c.tun {
                Some(t) => t.enable,
                None => s.tun.enabled,
            };
            AppState { tun: TunPanel { enabled: en, ..s.tun }, config: Some(c), ..s }
        },
        Err(e) => AppState { status_error: Some(e), ..s },
    }
}

fn on_proxies(s: AppState, res: Result<ProxiesResponse, String>) -> (r: AppState)
    ensures
        match res {
            Ok(p) => r == AppState { proxy_groups: r.proxy_groups, proxies_resp: Some(p), ..s }
                && r.proxy_groups@ == listed_groups(p.proxies@),
            Err(e) => r == AppState { status_error: Some(e), ..s },
        },
{
    match res {
        Ok(p) => {
            let groups = listed_group_names(&p.proxies);
            AppState { proxy_groups: groups, proxies_resp: Some(p), ..s }
        },
        Err(e) => AppState { status_error: Some(e), ..s },
    }
}

fn on_rules(s: AppState, res: Result<RulesResponse, String>) -> (r: AppState)
    ensures
        r == (match res {
            Ok(p) => AppState {
                selected_rule_idx: clamp_index(s.selected_rule_idx, p.rules@.len()),
                rules_resp: Some(p),
                ..s
            },
            Err(e) => AppState { status_error: Some(e), ..s },
        }),
{
    match res {
        Ok(p) => {
            let n = p.rules.len();
            let idx = if n > 0 && s.selected_rule_idx >= n {
                n - 1
            } else {
                s.selected_rule_idx
            };
            AppState { selected_rule_idx: idx, rules_resp: Some(p), ..s }
        },
        Err(e) => AppState { status_error: Some(e), ..s },
    }
}

fn on_connections(s: AppState, res: Result<ConnectionsResponse, String>) -> (r: AppState)
    ensures
        r == (match res {
            Ok(p) => AppState {
                selected_conn_idx: clamp_index(s.selected_conn_idx, p.connections@.len()),
                connections_resp: Some(p),
                ..s
            },
            Err(e) => AppState { status_error: Some(e), ..s },
        }),
{
    match res {
        Ok(p) => {
            let n = p.connections.len();
            let idx = if n > 0 && s.selected_conn_idx >= n {
                n - 1
            } else {
                s.selected_conn_idx
            };
            AppState { selected_conn_idx: idx, connections_resp: Some(p), ..s }
        },
        Err(e) => AppState { status_error: Some(e), ..s },
    }
}

fn on_traffic(s: AppState, msg: TrafficMessage) -> (r: AppState)
    ensures
        r == (AppState {
            current_traffic: msg,
            up_history: r.up_history,
            down_history: r.down_history,
            ..s
        }),
        r.up_history@ == capped_push(s.up_history@, msg.up, HISTORY_LEN as nat),
        r.down_history@ == capped_push(s.down_history@, msg.down, HISTORY_LEN as nat),
{
    let mut up = s.up_history;
    let mut down = s.down_history;
    push_capped(&mut up, msg.up, HISTORY_LEN);
    push_capped(&mut down, msg.down, HISTORY_LEN);
    AppState { current_traffic: msg, up_history: up, down_history: down, ..s }
}

fn on_log(s: AppState, log: LogMessage) -> (r: AppState)
    ensures
        r == (AppState { logs: r.logs, ..s }),
        r.logs@ == capped_push(s.logs@, log, LOG_CAP as nat),
{
    let mut logs = s.logs;
    push_capped(&mut logs, log, LOG_CAP);
    AppState { logs: logs, ..s }
}

/// The value a latency test leaves in a table: its delay, or nothing on failure.
pub open spec fn test_value(result: Result<u16, String>) -> Option<u16> {
    match result {
        Ok(d) => Some(d),
        Err(_) => None,
    }
}

fn on_latency(s: AppState, node: String, result: Result<u16, String>) -> (r: AppState)
    ensures
        r == (AppState { latency_map: r.latency_map, ..s }),
        latencies_view(r.latency_map@) == table_insert(
            latencies_view(s.latency_map@),
            node@,
            test_value(result),
        ),
{
    let v = match result {
        Ok(d) => Some(d),
        Err(_) => None,
    };
    let mut m = s.latency_map;
    table_set(&mut m, node, v);
    AppState { latency_map: m, ..s }
}

fn on_site_latency(s: AppState, site: String, result: Result<u16, String>) -> (r: AppState)
    ensures
        r == (AppState { site_latencies: r.site_latencies, ..s }),
        latencies_view(r.site_latencies@) == table_insert(
            latencies_view(s.site_latencies@),
            site@,
            test_value(result),
        ),
{
    let v = match result {
        Ok(d) => Some(d),
        Err(_) => None,
    };
    let mut m = s.site_latencies;
    table_set(&mut m, site, v);
    AppState { site_latencies: m, ..s }
}


// ---------------------------------------------------------------------------
// Moving the selection
// ---------------------------------------------------------------------------

/// `v` brought into `0..=hi`.
pub open spec fn clamp_to(v: int, hi: int) -> usize {
    if v < 0 {
        0
    } else if v > hi {
        hi as usize
    } else {
        v as usize
    }
}

/// The state after moving the selection of the current list by `delta` rows,
/// stopping at its ends; lists that are empty keep their selection.
pub open spec fn moved(s: AppState, delta: int) -> AppState {
    match s.active_tab {
        Tab::Proxies => match s.proxy_sub_focus {
            ProxySubFocus::Groups => if s.proxy_groups@.len() > 0 {
                AppState {
                    selected_group_idx: clamp_to(
                        s.selected_group_idx + delta,
                        s.proxy_groups@.len() - 1,
                    ),
                    selected_node_idx: 0,
                    ..s
                }
            } else {
                s
            },
            ProxySubFocus::Nodes => if spec_filtered_group_nodes(s).len() > 0 {
                AppState {
                    selected_node_idx: clamp_to(
                        s.selected_node_idx + delta,
                        spec_filtered_group_nodes(s).len() - 1,
                    ),
                    ..s
                }
            } else {
                s
            },
        },
        Tab::Profiles => if s.profiles@.len() > 0 {
            AppState {
                selected_profile_idx: clamp_to(s.selected_profile_idx + delta, s.profiles@.len() - 1),
                ..s
            }
        } else {
            s
        },
        Tab::Rules => match s.rules_resp {
            Some(resp) => if resp.rules@.len() > 0 {
                AppState {
                    selected_rule_idx: clamp_to(s.selected_rule_idx + delta, resp.rules@.len() - 1),
                    ..s
                }
            } else {
                s
            },
            None => s,
        },
        Tab::Connections => if spec_filtered_sorted_connections(s).len() > 0 {
            AppState {
                selected_conn_idx: clamp_to(
                    s.selected_conn_idx + delta,
                    spec_filtered_sorted_connections(s).len() - 1,
                ),
                ..s
            }
        } else {
            s
        },
        Tab::Logs => AppState {
            log_scroll: clamp_to(
                s.log_scroll + delta,
                if s.logs@.len() > 0 {
                    s.logs@.len() - 1
                } else {
                    0
                },
            ),
            ..s
        },
        Tab::Settings => AppState {
            settings: SettingsForm { focus: clamp_to(s.settings.focus + delta, 11), ..s.settings },
            ..s
        },
        _ => s,
    }
}

/// `idx + delta` brought into `0..=hi`.
pub(crate) fn clamp_step(idx: usize, delta: i32, hi: usize) -> (r: usize)
    ensures
        r == clamp_to(idx + delta, hi as int),
{
    if delta >= 0 {
        let d = delta as usize;
        if idx > hi || d > hi - idx {
            hi
        } else {
            idx + d
        }
    } else {
        let d: usize = if delta == i32::MIN {
            2147483648
        } else {
            (-delta) as usize
        };
        if d > idx {
            0
        } else if idx - d > hi {
            hi
        } else {
            idx - d
        }
    }
}

/// Moves the selection of the current list by `delta` rows (see `moved`).
pub fn move_selection(s: AppState, delta: i32) -> (r: AppState)
    ensures
        r == moved(s, delta as int),
{
    match s.active_tab {
        Tab::Proxies => match s.proxy_sub_focus {
            ProxySubFocus::Groups => {
                let n = s.proxy_groups.len();
                if n > 0 {
                    let i = clamp_step(s.selected_group_idx, delta, n - 1);
                    AppState { selected_group_idx: i, selected_node_idx: 0, ..s }
                } else {
                    s
                }
            },
            ProxySubFocus::Nodes => {
                let n = s.display_group_nodes().len();
                if n > 0 {
                    let i = clamp_step(s.selected_node_idx, delta, n - 1);
                    AppState { selected_node_idx: i, ..s }
                } else {
                    s
                }
            },
        },
        Tab::Profiles => {
            let n = s.profiles.len();
            if n > 0 {
                let i = clamp_step(s.selected_profile_idx, delta, n - 1);
                AppState { selected_profile_idx: i, ..s }
            } else {
                s
            }
        },
        Tab::Rules => {
            let n: usize = match &s.rules_resp {
                Some(resp) => resp.rules.len(),
                None => 0,
            };
            if n > 0 {
                let i = clamp_step(s.selected_rule_idx, delta, n - 1);
                AppState { selected_rule_idx: i, ..s }
            } else {
                s
            }
        },
        Tab::Connections => {
            let n = s.filtered_sorted_connections().len();
            if n > 0 {
                let i = clamp_step(s.selected_conn_idx, delta, n - 1);
                AppState { selected_conn_idx: i, ..s }
            } else {
                s
            }
        },
        Tab::Logs => {
            let n = s.logs.len();
            let hi = if n > 0 {
                n - 1
            } else {
                0
            };
            let i = clamp_step(s.log_scroll, delta, hi);
            AppState { log_scroll: i, ..s }
        },
        Tab::Settings => {
            let i = clamp_step(s.settings.focus, delta, 11);
            AppState { settings: SettingsForm { focus: i, ..s.settings }, ..s }
        },
        _ => s,
    }
}

/// The state after jumping to the top of the current list.
pub open spec fn jumped_top(s: AppState) -> AppState {
    match s.active_tab {
        Tab::Proxies => match s.proxy_sub_focus {
            ProxySubFocus::Groups => AppState { selected_group_idx: 0, ..s },
            ProxySubFocus::Nodes => AppState { selected_node_idx: 0, ..s },
        },
        Tab::Profiles => AppState { selected_profile_idx: 0, ..s },
        Tab::Rules => AppState { selected_rule_idx: 0, ..s },
        Tab::Connections => AppState { selected_conn_idx: 0, ..s },
        Tab::Logs => AppState { log_scroll: 0, ..s },
        Tab::Settings => AppState { settings: SettingsForm { focus: 0, ..s.settings }, ..s },
        _ => s,
    }
}

/// Jumps to the top of the current list.
pub fn jump_top(s: AppState) -> (r: AppState)
    ensures
        r == jumped_top(s),
{
    match s.active_tab {
        Tab::Proxies => match s.proxy_sub_focus {
            ProxySubFocus::Groups => AppState { selected_group_idx: 0, ..s },
            ProxySubFocus::Nodes => AppState { selected_node_idx: 0, ..s },
        },
        Tab::Profiles => AppState { selected_profile_idx: 0, ..s },
        Tab::Rules => AppState { selected_rule_idx: 0, ..s },
        Tab::Connections => AppState { selected_conn_idx: 0, ..s },
        Tab::Logs => AppState { log_scroll: 0, ..s },
        Tab::Settings => AppState { settings: SettingsForm { focus: 0, ..s.settings }, ..s },
        _ => s,
    }
}

/// The state after jumping to the bottom of the current list (empty lists
/// keep their selection; the settings go to their eleventh field).
pub open spec fn jumped_bottom(s: AppState) -> AppState {
    match s.active_tab {
        Tab::Proxies => match s.proxy_sub_focus {
            ProxySubFocus::Groups => if s.proxy_groups@.len() > 0 {
                AppState { selected_group_idx: (s.proxy_groups@.len() - 1) as usize, ..s }
            } else {
                s
            },
            ProxySubFocus::Nodes => if spec_filtered_group_nodes(s).len() > 0 {
                AppState {
                    selected_node_idx: (spec_filtered_group_nodes(s).len() - 1) as usize,
                    ..s
                }
            } else {
                s
            },
        },
        Tab::Profiles => if s.profiles@.len() > 0 {
            AppState { selected_profile_idx: (s.profiles@.len() - 1) as usize, ..s }
        } else {
            s
        },
        Tab::Rules => match s.rules_resp {
            Some(resp) => if resp.rules@.len() > 0 {
                AppState { selected_rule_idx: (resp.rules@.len() - 1) as usize, ..s }
            } else {
                s
            },
            None => s,
        },
        Tab::Connections => if spec_filtered_sorted_connections(s).len() > 0 {
            AppState {
                selected_conn_idx: (spec_filtered_sorted_connections(s).len() - 1) as usize,
                ..s
            }
        } else {
            s
        },
        Tab::Logs => if s.logs@.len() > 0 {
            AppState { log_scroll: (s.logs@.len() - 1) as usize, ..s }
        } else {
            s
        },
        Tab::Settings => AppState { settings: SettingsForm { focus: 11, ..s.settings }, ..s },
        _ => s,
    }
}

/// Jumps to the bottom of the current list.
pub fn jump_bottom(s: AppState) -> (r: AppState)
    ensures
        r == jumped_bottom(s),
{
    match s.active_tab {
        Tab::Proxies => match s.proxy_sub_focus {
            ProxySubFocus::Groups => {
                let n = s.proxy_groups.len();
                if n > 0 {
                    AppState { selected_group_idx: n - 1, ..s }
                } else {
                    s
                }
            },
            ProxySubFocus::Nodes => {
                let n = s.display_group_nodes().len();
                if n > 0 {
                    AppState { selected_node_idx: n - 1, ..s }
                } else {
                    s
                }
            },
        },
        Tab::Profiles => {
            let n = s.profiles.len();
            if n > 0 {
                AppState { selected_profile_idx: n - 1, ..s }
            } else {
                s
            }
        },
        Tab::Rules => {
            let n: usize = match &s.rules_resp {
                Some(resp) => resp.rules.len(),
                None => 0,
            };
            if n > 0 {
                AppState { selected_rule_idx: n - 1, ..s }
            } else {
                s
            }
        },
        Tab::Connections => {
            let n = s.filtered_sorted_connections().len();
            if n > 0 {
                AppState { selected_conn_idx: n - 1, ..s }
            } else {
                s
            }
        },
        Tab::Logs => {
            let n = s.logs.len();
            if n > 0 {
                AppState { log_scroll: n - 1, ..s }
            } else {
                s
            }
        },
        Tab::Settings => AppState { settings: SettingsForm { focus: 11, ..s.settings }, ..s },
        _ => s,
    }
}


// ---------------------------------------------------------------------------
// Commands on the current selection
// ---------------------------------------------------------------------------

/// The state shows the toast `msg`, raised at `now`.
pub open spec fn toast_is(s: AppState, msg: Seq<char>, now: u64) -> bool {
    s.toast matches Some((m, t)) && m@ == msg && t == now
}

/// The state is `old` with a new toast and nothing else changed.
pub open spec fn only_toast(s: AppState, old: AppState) -> bool {
    s == AppState { toast: s.toast, ..old }
}

/// Nothing happens: same state, no quitting, no outside work.
pub open spec fn unchanged(s: AppState, r: Outcome) -> bool {
    r.state == s && !r.quit && r.effects@.len() == 0
}

/// The outcome leaves the state alone and asks for exactly one piece of work
/// satisfying `f`.
pub open spec fn just_effect(s: AppState, r: Outcome, f: spec_fn(Effect) -> bool) -> bool {
    r.state == s && !r.quit && r.effects@.len() == 1 && f(r.effects@[0])
}

pub(crate) fn outcome(state: AppState, effects: Vec<Effect>) -> (r: Outcome)
    ensures
        r.state == state,
        !r.quit,
        r.effects == effects,
{
    Outcome { state, quit: false, effects }
}

pub(crate) fn one(e: Effect) -> (r: Vec<Effect>)
    ensures
        r@ == seq![e],
{
    let mut v: Vec<Effect> = Vec::new();
    v.push(e);
    v
}

pub(crate) fn toast(s: AppState, msg: String, now: u64) -> (r: AppState)
    ensures
        r == (AppState { toast: Some((msg, now)), ..s }),
{
    AppState { toast: Some((msg, now)), ..s }
}

/// The local proxy port: the core's mixed port, else its HTTP port, else the
/// HTTP port of the settings.
pub open spec fn proxy_port(s: AppState) -> u16 {
    match s.config {
        Some(c) => match c.mixed_port {
            Some(p) => p,
            None => match c.http_port {
                Some(p) => p,
                None => s.settings.http_port,
            },
        },
        None => s.settings.http_port,
    }
}

fn local_proxy_port(s: &AppState) -> (r: u16)
    ensures
        r == proxy_port(*s),
{
    match &s.config {
        Some(c) => match c.mixed_port {
            Some(p) => p,
            None => match c.http_port {
                Some(p) => p,
                None => s.settings.http_port,
            },
        },
        None => s.settings.http_port,
    }
}

/// What confirming the selection (Enter) does.
#[verifier::opaque]
pub open spec fn confirm_post(s: AppState, now: u64, r: Outcome) -> bool {
    match s.active_tab {
        Tab::Proxies => if s.proxy_sub_focus == ProxySubFocus::Groups {
            r.state == (AppState {
                proxy_sub_focus: ProxySubFocus::Nodes,
                selected_node_idx: 0,
                ..s
            }) && !r.quit && r.effects@.len() == 0
        } else {
            match selected_group(s) {
                Some(g) => {
                    let nodes = spec_display_group_nodes(s);
                    if s.selected_node_idx < nodes.len() {
                        let n = nodes[s.selected_node_idx as int];
                        &&& only_toast(r.state, s)
                        &&& toast_is(r.state, "Selected '"@ + n + "' (Applied to all groups)"@, now)
                        &&& !r.quit
                        &&& r.effects@.len() == 1
                        &&& r.effects@[0] matches Effect::SelectProxy { group, node, groups }
                        &&& group@ == g && node@ == n && groups@ == s.proxy_groups@
                    } else {
                        unchanged(s, r)
                    }
                },
                None => unchanged(s, r),
            }
        },
        Tab::Profiles => if s.selected_profile_idx < s.profiles@.len() {
            just_effect(
                s,
                r,
                |e: Effect|
                    e matches Effect::Queue(Action::UpdateProfile(name)) && name@
                        == s.profiles@[s.selected_profile_idx as int].name@,
            )
        } else {
            unchanged(s, r)
        },
        _ => unchanged(s, r),
    }
}

/// Confirms the selection: opens a group, selects a node in every group, or
/// activates a profile.
pub fn confirm_selection(s: AppState, now: u64) -> (r: Outcome)
    ensures
        confirm_post(s, now, r),
{
    proof {
        reveal(confirm_post);
    }
    match s.active_tab {
        Tab::Proxies => {
            if s.proxy_sub_focus == ProxySubFocus::Groups {
                return outcome(
                    AppState { proxy_sub_focus: ProxySubFocus::Nodes, selected_node_idx: 0, ..s },
                    Vec::new(),
                );
            }
            let group = match s.selected_group_name() {
                Some(g) => string_from(g),
                None => {
                    return outcome(s, Vec::new());
                },
            };
            let nodes = s.display_group_nodes();
            if s.selected_node_idx >= nodes.len() {
                return outcome(s, Vec::new());
            }
            let node = nodes[s.selected_node_idx].clone();
            let groups = clone_strings(&s.proxy_groups);
            let msg1 = concat_str("Selected '", node.as_str());
            let msg = concat_str(msg1.as_str(), "' (Applied to all groups)");
            let st = toast(s, msg, now);
            outcome(st, one(Effect::SelectProxy { group, node, groups }))
        },
        Tab::Profiles => {
            if s.selected_profile_idx < s.profiles.len() {
                let name = s.profiles[s.selected_profile_idx].name.clone();
                outcome(s, one(Effect::Queue(Action::UpdateProfile(name))))
            } else {
                outcome(s, Vec::new())
            }
        },
        _ => outcome(s, Vec::new()),
    }
}

/// What testing the selected group's latency asks for.
#[verifier::opaque]
pub open spec fn test_group_post(s: AppState, r: Outcome) -> bool {
    match selected_group(s) {
        Some(g) => just_effect(
            s,
            r,
            |e: Effect|
                e matches Effect::TestGroupLatency { group, nodes, test_url } && group@ == g
                    && strings_view(nodes@) == spec_current_group_nodes(s) && test_url@
                    == s.settings.test_url@,
        ),
        None => unchanged(s, r),
    }
}

/// Asks to test the latency of the selected group's nodes.
pub fn test_selected_group_latency(s: AppState) -> (r: Outcome)
    ensures
        test_group_post(s, r),
{
    proof {
        reveal(test_group_post);
    }
    let group = match s.selected_group_name() {
        Some(g) => string_from(g),
        None => {
            return outcome(s, Vec::new());
        },
    };
    let nodes = s.current_group_nodes();
    let test_url = s.settings.test_url.clone();
    outcome(s, one(Effect::TestGroupLatency { group, nodes, test_url }))
}

/// What testing the selected node's latency asks for.
#[verifier::opaque]
pub open spec fn test_node_post(s: AppState, r: Outcome) -> bool {
    let nodes = spec_display_group_nodes(s);
    if s.selected_node_idx < nodes.len() {
        just_effect(
            s,
            r,
            |e: Effect|
                e matches Effect::TestNodeLatency { node, test_url } && node@ == nodes[s.selected_node_idx as int]
                    && test_url@ == s.settings.test_url@,
        )
    } else {
        unchanged(s, r)
    }
}

/// Asks to test the latency of the selected node.
pub fn test_single_node_latency(s: AppState) -> (r: Outcome)
    ensures
        test_node_post(s, r),
{
    proof {
        reveal(test_node_post);
    }
    let nodes = s.display_group_nodes();
    if s.selected_node_idx < nodes.len() {
        let node = nodes[s.selected_node_idx].clone();
        let test_url = s.settings.test_url.clone();
        outcome(s, one(Effect::TestNodeLatency { node, test_url }))
    } else {
        outcome(s, Vec::new())
    }
}

/// The dashboard's site table with every site's latency cleared.
pub open spec fn sites_cleared(m: Seq<(Seq<char>, Option<u16>)>) -> Seq<(Seq<char>, Option<u16>)> {
    table_insert(
        table_insert(
            table_insert(
                table_insert(
                    table_insert(table_insert(m, "Google"@, None), "GitHub"@, None),
                    "YouTube"@,
                    None,
                ),
                "OpenAI"@,
                None,
            ),
            "Bilibili"@,
            None,
        ),
        "Baidu"@,
        None,
    )
}

/// What refreshing the sites' reachability does.
#[verifier::opaque]
pub open spec fn test_sites_post(s: AppState, now: u64, r: Outcome) -> bool {
    &&& r.state == (AppState { toast: r.state.toast, site_latencies: r.state.site_latencies, ..s })
    &&& toast_is(r.state, "正在刷新 6 大常用网站连通性延迟..."@, now)
    &&& latencies_view(r.state.site_latencies@) == sites_cleared(latencies_view(s.site_latencies@))
    &&& !r.quit
    &&& r.effects@.len() == 1
    &&& r.effects@[0] matches Effect::TestSites { port } && port == Some(proxy_port(s))
}

/// Clears the sites' latencies and asks to measure them again.
pub fn test_all_sites_latency(s: AppState, now: u64) -> (r: Outcome)
    ensures
        test_sites_post(s, now, r),
{
    proof {
        reveal(test_sites_post);
    }
    let port = local_proxy_port(&s);
    let mut m = s.site_latencies;
    table_set(&mut m, string_from("Google"), None);
    table_set(&mut m, string_from("GitHub"), None);
    table_set(&mut m, string_from("YouTube"), None);
    table_set(&mut m, string_from("OpenAI"), None);
    table_set(&mut m, string_from("Bilibili"), None);
    table_set(&mut m, string_from("Baidu"), None);
    let st = AppState {
        toast: Some((string_from("正在刷新 6 大常用网站连通性延迟..."), now)),
        site_latencies: m,
        ..s
    };
    outcome(st, one(Effect::TestSites { port: Some(port) }))
}

/// What closing the selected connection asks for.
#[verifier::opaque]
pub open spec fn close_conn_post(s: AppState, r: Outcome) -> bool {
    let list = spec_filtered_sorted_connections(s);
    match s.connections_resp {
        Some(resp) => if s.selected_conn_idx < list.len() {
            just_effect(
                s,
                r,
                |e: Effect|
                    e matches Effect::CloseConnection { id } && id@
                        == resp.connections@[list[s.selected_conn_idx as int] as int].id@,
            )
        } else {
            unchanged(s, r)
        },
        None => unchanged(s, r),
    }
}

/// Asks to close the selected connection.
pub fn close_selected_connection(s: AppState) -> (r: Outcome)
    ensures
        close_conn_post(s, r),
{
    proof {
        reveal(close_conn_post);
    }
    let list = s.filtered_sorted_connections();
    if s.selected_conn_idx < list.len() {
        let id = match &s.connections_resp {
            Some(resp) => resp.connections[list[s.selected_conn_idx]].id.clone(),
            None => {
                return outcome(s, Vec::new());
            },
        };
        outcome(s, one(Effect::CloseConnection { id }))
    } else {
        outcome(s, Vec::new())
    }
}

/// Routing mode that follows `current` (compared in lowercase): rule, then
/// global, then direct, then rule again.
pub open spec fn next_mode(current: Seq<char>) -> Seq<char> {
    if unicode_lowercase(current) == "rule"@ {
        "Global"@
    } else if unicode_lowercase(current) == "global"@ {
        "Direct"@
    } else {
        "Rule"@
    }
}

/// The core's routing mode as last fetched (`Rule` when unknown).
pub open spec fn current_mode(s: AppState) -> Seq<char> {
    match s.config {
        Some(c) => match c.mode {
            Some(m) => m@,
            None => "Rule"@,
        },
        None => "Rule"@,
    }
}

/// Asks the core to switch to the next routing mode.
pub fn cycle_mode(s: AppState) -> (r: Outcome)
    ensures
        just_effect(
            s,
            r,
            |e: Effect| e matches Effect::SetMode { mode } && mode@ == next_mode(current_mode(s)),
        ),
{
    let cur: String = match &s.config {
        Some(c) => match &c.mode {
            Some(m) => m.clone(),
            None => string_from("Rule"),
        },
        None => string_from("Rule"),
    };
    let lower = to_lowercase(cur.as_str());
    let next = if str_eq(lower.as_str(), "rule") {
        "Global"
    } else if str_eq(lower.as_str(), "global") {
        "Direct"
    } else {
        "Rule"
    };
    outcome(s, one(Effect::SetMode { mode: string_from(next) }))
}


// ---------------------------------------------------------------------------
// Editing the settings
// ---------------------------------------------------------------------------

/// Next TUN stack in the settings' cycle: system, gvisor, lwip.
pub open spec fn next_stack(v: Seq<char>) -> Seq<char> {
    if v == "system"@ {
        "gvisor"@
    } else if v == "gvisor"@ {
        "lwip"@
    } else {
        "system"@
    }
}

/// Next log level in the settings' cycle: info, warning, error, debug, silent.
pub open spec fn next_log_level(v: Seq<char>) -> Seq<char> {
    if v == "info"@ {
        "warning"@
    } else if v == "warning"@ {
        "error"@
    } else if v == "error"@ {
        "debug"@
    } else if v == "debug"@ {
        "silent"@
    } else {
        "info"@
    }
}

/// Next theme in the settings' cycle: Catppuccin, Nord, TokyoNight, Gruvbox.
pub open spec fn next_theme(v: Seq<char>) -> Seq<char> {
    if v == "Catppuccin"@ {
        "Nord"@
    } else if v == "Nord"@ {
        "TokyoNight"@
    } else if v == "TokyoNight"@ {
        "Gruvbox"@
    } else {
        "Catppuccin"@
    }
}

/// The other language.
pub open spec fn next_lang(v: Seq<char>) -> Seq<char> {
    if v == "zh"@ {
        "en"@
    } else {
        "zh"@
    }
}

/// The other DNS mode.
pub open spec fn next_dns_mode(v: Seq<char>) -> Seq<char> {
    if v == "fake-ip"@ {
        "redir-host"@
    } else {
        "fake-ip"@
    }
}

/// Next subscription update period: 0, 6, 12, 24 hours.
pub open spec fn next_sub_hours(h: u32) -> u32 {
    if h == 0 {
        6
    } else if h == 6 {
        12
    } else if h == 12 {
        24
    } else {
        0
    }
}

/// Next refresh period: 500, 1000, 2000 ms.
pub open spec fn next_refresh(ms: u64) -> u64 {
    if ms == 500 {
        1000
    } else if ms == 1000 {
        2000
    } else {
        500
    }
}

/// A port after typing digit `d`: appended when the result still fits.
pub open spec fn port_typed(p: u16, d: nat) -> u16 {
    if p * 10 + d <= 65535 {
        (p * 10 + d) as u16
    } else {
        p
    }
}

/// A port after erasing its last digit.
pub open spec fn port_erased(p: u16) -> u16 {
    p / 10
}

pub(crate) fn pick(cond: bool, a: &str, b: &str) -> (r: String)
    ensures
        r@ == if cond {
            a@
        } else {
            b@
        },
{
    if cond {
        string_from(a)
    } else {
        string_from(b)
    }
}

fn cycle_stack(v: &str) -> (r: String)
    ensures
        r@ == next_stack(v@),
{
    if str_eq(v, "system") {
        string_from("gvisor")
    } else if str_eq(v, "gvisor") {
        string_from("lwip")
    } else {
        string_from("system")
    }
}

fn cycle_log_level(v: &str) -> (r: String)
    ensures
        r@ == next_log_level(v@),
{
    if str_eq(v, "info") {
        string_from("warning")
    } else if str_eq(v, "warning") {
        string_from("error")
    } else if str_eq(v, "error") {
        string_from("debug")
    } else if str_eq(v, "debug") {
        string_from("silent")
    } else {
        string_from("info")
    }
}

fn cycle_theme(v: &str) -> (r: String)
    ensures
        r@ == next_theme(v@),
{
    if str_eq(v, "Catppuccin") {
        string_from("Nord")
    } else if str_eq(v, "Nord") {
        string_from("TokyoNight")
    } else if str_eq(v, "TokyoNight") {
        string_from("Gruvbox")
    } else {
        string_from("Catppuccin")
    }
}

fn cycle_lang(v: &str) -> (r: String)
    ensures
        r@ == next_lang(v@),
{
    pick(str_eq(v, "zh"), "en", "zh")
}

fn type_digit(p: u16, c: char) -> (r: u16)
    requires
        '0' <= c <= '9',
    ensures
        r == port_typed(p, (c as u32 - '0' as u32) as nat),
{
    let d = (c as u32) - ('0' as u32);
    let v: u32 = (p as u32) * 10 + d;
    if v <= 65535 {
        v as u16
    } else {
        p
    }
}

fn push_to(s: String, c: char) -> (r: String)
    ensures
        r@ == s@.push(c),
{
    let mut t = s;
    t.push(c);
    t
}

fn popped(s: String) -> (r: String)
    ensures
        r@ == drop_last_char(s@),
{
    let mut t = s;
    pop_char(&mut t);
    t
}

/// Settings field that follows `f` (wrapping after the twentieth).
pub open spec fn focus_down(f: usize) -> usize {
    ((f + 1) % 20) as usize
}

/// Settings field that precedes `f` (wrapping before the first).
pub open spec fn focus_up(f: usize) -> usize {
    if f == 0 {
        19
    } else {
        (f - 1) as usize
    }
}

fn focus_next(f: usize) -> (r: usize)
    ensures
        r == focus_down(f),
        r < 20,
{
    (f % 20 + 1) % 20
}

fn focus_prev(f: usize) -> (r: usize)
    ensures
        r == focus_up(f),
{
    if f == 0 {
        19
    } else {
        f - 1
    }
}

/// Result of a key on the settings form: the edited form, whether the focus
/// goes back to the sidebar, and the outside work asked for.
pub struct FormOutcome {
    pub form: SettingsForm,
    pub to_sidebar: bool,
    pub effects: Vec<Effect>,
}

/// The form becomes `g`, with nothing else happening.
pub open spec fn form_becomes(g: SettingsForm, r: FormOutcome) -> bool {
    r.form == g && !r.to_sidebar && r.effects@.len() == 0
}

/// The form stays as it is and exactly one request satisfying `p` is queued.
pub open spec fn form_queues(g: SettingsForm, r: FormOutcome, p: spec_fn(Effect) -> bool) -> bool {
    r.form == g && !r.to_sidebar && r.effects@.len() == 1 && p(r.effects@[0])
}

/// Text field `k` of the form (API URL for 0, secret for 1, test URL otherwise).
pub open spec fn form_text(g: SettingsForm, k: usize) -> Seq<char> {
    if k == 0 {
        g.api_url@
    } else if k == 1 {
        g.secret@
    } else {
        g.test_url@
    }
}

/// Text field `k` of the form becomes `v`, and nothing else changes.
pub open spec fn form_text_becomes(g: SettingsForm, r: FormOutcome, k: usize, v: Seq<char>) -> bool {
    !r.to_sidebar && r.effects@.len() == 0 && if k == 0 {
        r.form == SettingsForm { api_url: r.form.api_url, ..g } && r.form.api_url@ == v
    } else if k == 1 {
        r.form == SettingsForm { secret: r.form.secret, ..g } && r.form.secret@ == v
    } else {
        r.form == SettingsForm { test_url: r.form.test_url, ..g } && r.form.test_url@ == v
    }
}

fn form_done(g: SettingsForm) -> (r: FormOutcome)
    ensures
        form_becomes(g, r),
{
    FormOutcome { form: g, to_sidebar: false, effects: Vec::new() }
}

/// What the space bar does on the form's focused field: types a space into a
/// text field, toggles or cycles an option, or asks for the core download or
/// the save.
#[verifier::opaque]
pub open spec fn space_post(g: SettingsForm, r: FormOutcome) -> bool {
    let k = g.focus;
    if k == 0 || k == 1 {
        form_text_becomes(g, r, k, form_text(g, k).push(' '))
    } else if k == 5 {
        form_text_becomes(g, r, 2, g.test_url@.push(' '))
    } else if k == 6 {
        !r.to_sidebar && r.effects@.len() == 0 && r.form == SettingsForm { dns_mode: r.form.dns_mode, ..g }
            && r.form.dns_mode@ == next_dns_mode(g.dns_mode@)
    } else if k == 7 {
        form_becomes(SettingsForm { sniffing: !g.sniffing, ..g }, r)
    } else if k == 8 {
        form_becomes(SettingsForm { tcp_concurrent: !g.tcp_concurrent, ..g }, r)
    } else if k == 9 {
        form_becomes(SettingsForm { auto_sysproxy: !g.auto_sysproxy, ..g }, r)
    } else if k == 10 {
        form_becomes(SettingsForm { sub_update_hours: next_sub_hours(g.sub_update_hours), ..g }, r)
    } else if k == 11 {
        !r.to_sidebar && r.effects@.len() == 0 && r.form == SettingsForm { tun_stack: r.form.tun_stack, ..g }
            && r.form.tun_stack@ == next_stack(g.tun_stack@)
    } else if k == 12 {
        !r.to_sidebar && r.effects@.len() == 0 && r.form == SettingsForm { log_level: r.form.log_level, ..g }
            && r.form.log_level@ == next_log_level(g.log_level@)
    } else if k == 13 {
        form_becomes(SettingsForm { allow_lan: !g.allow_lan, ..g }, r)
    } else if k == 14 {
        form_becomes(SettingsForm { ipv6: !g.ipv6, ..g }, r)
    } else if k == 15 {
        form_queues(g, r, |e: Effect| e matches Effect::Queue(Action::DownloadCore))
    } else if k == 16 {
        !r.to_sidebar && r.effects@.len() == 0 && r.form == SettingsForm { lang: r.form.lang, ..g }
            && r.form.lang@ == next_lang(g.lang@)
    } else if k == 17 {
        !r.to_sidebar && r.effects@.len() == 0 && r.form == SettingsForm { ui_theme: r.form.ui_theme, ..g }
            && r.form.ui_theme@ == next_theme(g.ui_theme@)
    } else if k == 18 {
        form_becomes(SettingsForm { refresh_ms: next_refresh(g.refresh_ms), ..g }, r)
    } else if k == 19 {
        form_queues(g, r, |e: Effect| e matches Effect::Queue(Action::SaveSettings))
    } else {
        form_becomes(g, r)
    }
}

pub(crate) fn form_space(g: SettingsForm) -> (r: FormOutcome)
    ensures
        space_post(g, r),
{
    proof {
        reveal(space_post);
    }
    let k = g.focus;
    if k == 0 {
        let v = push_to(g.api_url, ' ');
        form_done(SettingsForm { api_url: v, ..g })
    } else if k == 1 {
        let v = push_to(g.secret, ' ');
        form_done(SettingsForm { secret: v, ..g })
    } else if k == 5 {
        let v = push_to(g.test_url, ' ');
        form_done(SettingsForm { test_url: v, ..g })
    } else if k == 6 {
        let v = pick(str_eq(g.dns_mode.as_str(), "fake-ip"), "redir-host", "fake-ip");
        form_done(SettingsForm { dns_mode: v, ..g })
    } else if k == 7 {
        let v = !g.sniffing;
        form_done(SettingsForm { sniffing: v, ..g })
    } else if k == 8 {
        let v = !g.tcp_concurrent;
        form_done(SettingsForm { tcp_concurrent: v, ..g })
    } else if k == 9 {
        let v = !g.auto_sysproxy;
        form_done(SettingsForm { auto_sysproxy: v, ..g })
    } else if k == 10 {
        let h = g.sub_update_hours;
        let v: u32 = if h == 0 {
            6
        } else if h == 6 {
            12
        } else if h == 12 {
            24
        } else {
            0
        };
        form_done(SettingsForm { sub_update_hours: v, ..g })
    } else if k == 11 {
        let v = cycle_stack(g.tun_stack.as_str());
        form_done(SettingsForm { tun_stack: v, ..g })
    } else if k == 12 {
        let v = cycle_log_level(g.log_level.as_str());
        form_done(SettingsForm { log_level: v, ..g })
    } else if k == 13 {
        let v = !g.allow_lan;
        form_done(SettingsForm { allow_lan: v, ..g })
    } else if k == 14 {
        let v = !g.ipv6;
        form_done(SettingsForm { ipv6: v, ..g })
    } else if k == 15 {
        FormOutcome { form: g, to_sidebar: false, effects: one(Effect::Queue(Action::DownloadCore)) }
    } else if k == 16 {
        let v = cycle_lang(g.lang.as_str());
        form_done(SettingsForm { lang: v, ..g })
    } else if k == 17 {
        let v = cycle_theme(g.ui_theme.as_str());
        form_done(SettingsForm { ui_theme: v, ..g })
    } else if k == 18 {
        let ms = g.refresh_ms;
        let v: u64 = if ms == 500 {
            1000
        } else if ms == 1000 {
            2000
        } else {
            500
        };
        form_done(SettingsForm { refresh_ms: v, ..g })
    } else if k == 19 {
        FormOutcome { form: g, to_sidebar: false, effects: one(Effect::Queue(Action::SaveSettings)) }
    } else {
        form_done(g)
    }
}

/// What Backspace does on the form: erases the last character of a text
/// field or the last digit of a port.
#[verifier::opaque]
pub open spec fn backspace_post(g: SettingsForm, r: FormOutcome) -> bool {
    let k = g.focus;
    if k == 0 || k == 1 {
        form_text_becomes(g, r, k, drop_last_char(form_text(g, k)))
    } else if k == 5 {
        form_text_becomes(g, r, 2, drop_last_char(g.test_url@))
    } else if k == 2 {
        form_becomes(SettingsForm { http_port: port_erased(g.http_port), ..g }, r)
    } else if k == 3 {
        form_becomes(SettingsForm { socks_port: port_erased(g.socks_port), ..g }, r)
    } else if k == 4 {
        form_becomes(SettingsForm { mixed_port: port_erased(g.mixed_port), ..g }, r)
    } else {
        form_becomes(g, r)
    }
}

fn form_backspace(g: SettingsForm) -> (r: FormOutcome)
    ensures
        backspace_post(g, r),
{
    proof {
        reveal(backspace_post);
    }
    let k = g.focus;
    if k == 0 {
        let v = popped(g.api_url);
        form_done(SettingsForm { api_url: v, ..g })
    } else if k == 1 {
        let v = popped(g.secret);
        form_done(SettingsForm { secret: v, ..g })
    } else if k == 5 {
        let v = popped(g.test_url);
        form_done(SettingsForm { test_url: v, ..g })
    } else if k == 2 {
        let v = g.http_port / 10;
        form_done(SettingsForm { http_port: v, ..g })
    } else if k == 3 {
        let v = g.socks_port / 10;
        form_done(SettingsForm { socks_port: v, ..g })
    } else if k == 4 {
        let v = g.mixed_port / 10;
        form_done(SettingsForm { mixed_port: v, ..g })
    } else {
        form_done(g)
    }
}

/// What typing `c` does on the form: appends it to a text field, or a digit
/// to a port.
#[verifier::opaque]
pub open spec fn char_post(g: SettingsForm, c: char, r: FormOutcome) -> bool {
    let k = g.focus;
    let digit = '0' <= c <= '9';
    let d = (c as u32 - '0' as u32) as nat;
    if k == 0 || k == 1 {
        form_text_becomes(g, r, k, form_text(g, k).push(c))
    } else if k == 5 {
        form_text_becomes(g, r, 2, g.test_url@.push(c))
    } else if k == 2 && digit {
        form_becomes(SettingsForm { http_port: port_typed(g.http_port, d), ..g }, r)
    } else if k == 3 && digit {
        form_becomes(SettingsForm { socks_port: port_typed(g.socks_port, d), ..g }, r)
    } else if k == 4 && digit {
        form_becomes(SettingsForm { mixed_port: port_typed(g.mixed_port, d), ..g }, r)
    } else {
        form_becomes(g, r)
    }
}

fn form_char(g: SettingsForm, c: char) -> (r: FormOutcome)
    ensures
        char_post(g, c, r),
{
    proof {
        reveal(char_post);
    }
    let k = g.focus;
    let digit = '0' <= c && c <= '9';
    if k == 0 {
        let v = push_to(g.api_url, c);
        form_done(SettingsForm { api_url: v, ..g })
    } else if k == 1 {
        let v = push_to(g.secret, c);
        form_done(SettingsForm { secret: v, ..g })
    } else if k == 5 {
        let v = push_to(g.test_url, c);
        form_done(SettingsForm { test_url: v, ..g })
    } else if k == 2 && digit {
        let v = type_digit(g.http_port, c);
        form_done(SettingsForm { http_port: v, ..g })
    } else if k == 3 && digit {
        let v = type_digit(g.socks_port, c);
        form_done(SettingsForm { socks_port: v, ..g })
    } else if k == 4 && digit {
        let v = type_digit(g.mixed_port, c);
        form_done(SettingsForm { mixed_port: v, ..g })
    } else {
        form_done(g)
    }
}

/// What a key does on the settings view.
#[verifier::opaque]
pub open spec fn form_key_post(g: SettingsForm, code: KeyCode, r: FormOutcome) -> bool {
    let k = g.focus;
    match code {
        KeyCode::Up | KeyCode::Char('k') => form_becomes(SettingsForm { focus: focus_up(k), ..g }, r),
        KeyCode::Down | KeyCode::Char('j') => form_becomes(SettingsForm { focus: focus_down(k), ..g }, r),
        KeyCode::Left | KeyCode::Char('h') => if 11 <= k <= 18 {
            form_becomes(SettingsForm { focus: (k - 11) as usize, ..g }, r)
        } else {
            r.form == g && r.to_sidebar && r.effects@.len() == 0
        },
        KeyCode::Right | KeyCode::Char('l') => if k <= 10 {
            form_becomes(SettingsForm { focus: if k + 11 < 18 { (k + 11) as usize } else { 18 }, ..g }, r)
        } else {
            form_becomes(g, r)
        },
        KeyCode::Enter => if k == 15 {
            form_queues(g, r, |e: Effect| e matches Effect::Queue(Action::DownloadCore))
        } else if k == 19 {
            form_queues(g, r, |e: Effect| e matches Effect::Queue(Action::SaveSettings))
        } else {
            form_becomes(SettingsForm { focus: focus_down(k), ..g }, r)
        },
        KeyCode::Char(' ') => space_post(g, r),
        KeyCode::Backspace => backspace_post(g, r),
        KeyCode::Char(c) => char_post(g, c, r),
        _ => form_becomes(g, r),
    }
}

/// Handles a key on the settings view.
pub fn form_key(g: SettingsForm, code: KeyCode) -> (r: FormOutcome)
    ensures
        form_key_post(g, code, r),
{
    proof {
        reveal(form_key_post);
    }
    let k = g.focus;
    match code {
        KeyCode::Up | KeyCode::Char('k') => {
            let v = focus_prev(k);
            form_done(SettingsForm { focus: v, ..g })
        },
        KeyCode::Down | KeyCode::Char('j') => {
            let v = focus_next(k);
            form_done(SettingsForm { focus: v, ..g })
        },
        KeyCode::Left | KeyCode::Char('h') => {
            if 11 <= k && k <= 18 {
                form_done(SettingsForm { focus: k - 11, ..g })
            } else {
                FormOutcome { form: g, to_sidebar: true, effects: Vec::new() }
            }
        },
        KeyCode::Right | KeyCode::Char('l') => {
            if k <= 10 {
                let v = if k + 11 < 18 {
                    k + 11
                } else {
                    18
                };
                form_done(SettingsForm { focus: v, ..g })
            } else {
                form_done(g)
            }
        },
        KeyCode::Enter => {
            if k == 15 {
                FormOutcome { form: g, to_sidebar: false, effects: one(Effect::Queue(Action::DownloadCore)) }
            } else if k == 19 {
                FormOutcome { form: g, to_sidebar: false, effects: one(Effect::Queue(Action::SaveSettings)) }
            } else {
                let v = focus_next(k);
                form_done(SettingsForm { focus: v, ..g })
            }
        },
        KeyCode::Char(' ') => form_space(g),
        KeyCode::Backspace => form_backspace(g),
        KeyCode::Char(c) => form_char(g, c),
        _ => form_done(g),
    }
}

// ---------------------------------------------------------------------------
// Dialogs
// ---------------------------------------------------------------------------

/// Result of a key in the subscription dialog.
pub struct InputOutcome {
    pub input: ProfileInput,
    pub effects: Vec<Effect>,
}

/// What a key does in the subscription dialog.
#[verifier::opaque]
pub open spec fn input_key_post(p: ProfileInput, code: KeyCode, r: InputOutcome) -> bool {
    let same = r.effects@.len() == 0;
    match code {
        KeyCode::Esc => same && r.input == ProfileInput { show: false, ..p },
        KeyCode::Tab | KeyCode::Down => same && r.input == ProfileInput { focus: ((p.focus + 1) % 2) as usize, ..p },
        KeyCode::Up => same && r.input == ProfileInput { focus: if p.focus == 0 { 1 } else { 0 }, ..p },
        KeyCode::Backspace => same && if p.focus == 0 {
            r.input == ProfileInput { name: r.input.name, ..p } && r.input.name@ == drop_last_char(p.name@)
        } else {
            r.input == ProfileInput { url: r.input.url, ..p } && r.input.url@ == drop_last_char(p.url@)
        },
        KeyCode::Enter => {
            let name = trim(p.name@);
            let url = trim(p.url@);
            if p.focus == 0 {
                same && if name.len() > 0 {
                    r.input == ProfileInput { focus: 1, ..p }
                } else {
                    r.input == p
                }
            } else if name.len() > 0 && url.len() > 0 {
                &&& r.input == ProfileInput { show: false, ..p }
                &&& r.effects@.len() == 1
                &&& r.effects@[0] matches Effect::Queue(Action::AddProfile { name: n, url: u })
                &&& n@ == name && u@ == url
            } else {
                same && r.input == p
            }
        },
        KeyCode::Char(c) => same && if p.focus == 0 {
            r.input == ProfileInput { name: r.input.name, ..p } && r.input.name@ == p.name@.push(c)
        } else {
            r.input == ProfileInput { url: r.input.url, ..p } && r.input.url@ == p.url@.push(c)
        },
        _ => same && r.input == p,
    }
}

/// Handles a key in the subscription dialog.
pub fn input_key(p: ProfileInput, code: KeyCode) -> (r: InputOutcome)
    ensures
        input_key_post(p, code, r),
{
    proof {
        reveal(input_key_post);
    }
    match code {
        KeyCode::Esc => InputOutcome { input: ProfileInput { show: false, ..p }, effects: Vec::new() },
        KeyCode::Tab | KeyCode::Down => {
            let f = (p.focus % 2 + 1) % 2;
            InputOutcome { input: ProfileInput { focus: f, ..p }, effects: Vec::new() }
        },
        KeyCode::Up => {
            let f: usize = if p.focus == 0 {
                1
            } else {
                0
            };
            InputOutcome { input: ProfileInput { focus: f, ..p }, effects: Vec::new() }
        },
        KeyCode::Backspace => {
            if p.focus == 0 {
                let v = popped(p.name);
                InputOutcome { input: ProfileInput { name: v, ..p }, effects: Vec::new() }
            } else {
                let v = popped(p.url);
                InputOutcome { input: ProfileInput { url: v, ..p }, effects: Vec::new() }
            }
        },
        KeyCode::Enter => {
            let name = trim_str(p.name.as_str());
            let url = trim_str(p.url.as_str());
            if p.focus == 0 {
                if !name.as_str().is_empty() {
                    InputOutcome { input: ProfileInput { focus: 1, ..p }, effects: Vec::new() }
                } else {
                    proof {
                        assert(name@.len() == 0);
                    }
                    InputOutcome { input: p, effects: Vec::new() }
                }
            } else if !name.as_str().is_empty() && !url.as_str().is_empty() {
                InputOutcome {
                    input: ProfileInput { show: false, ..p },
                    effects: one(Effect::Queue(Action::AddProfile { name, url })),
                }
            } else {
                proof {
                    assert(name@.len() == 0 || url@.len() == 0);
                }
                InputOutcome { input: p, effects: Vec::new() }
            }
        },
        KeyCode::Char(c) => {
            if p.focus == 0 {
                let v = push_to(p.name, c);
                InputOutcome { input: ProfileInput { name: v, ..p }, effects: Vec::new() }
            } else {
                let v = push_to(p.url, c);
                InputOutcome { input: ProfileInput { url: v, ..p }, effects: Vec::new() }
            }
        },
        _ => InputOutcome { input: p, effects: Vec::new() },
    }
}

/// Result of a key in the TUN privilege dialog.
pub struct TunOutcome {
    pub tun: TunPanel,
    pub effects: Vec<Effect>,
}

/// What a key does in the TUN privilege dialog (nothing while a grant runs).
#[verifier::opaque]
pub open spec fn tun_key_post(t: TunPanel, code: KeyCode, r: TunOutcome) -> bool {
    if t.granting {
        r.tun == t && r.effects@.len() == 0
    } else {
        match code {
            KeyCode::Esc => r.tun == t && r.effects@.len() == 1 && r.effects@[0] matches Effect::Queue(
                Action::HideTunModal,
            ),
            KeyCode::Tab => r.tun == TunPanel { input_focus: ((t.input_focus + 1) % 3) as usize, ..t }
                && r.effects@.len() == 0,
            KeyCode::Backspace => r.tun == TunPanel { password: r.tun.password, ..t } && r.tun.password@
                == drop_last_char(t.password@) && r.effects@.len() == 0,
            KeyCode::Enter => if t.password@.len() > 0 {
                &&& r.tun == t
                &&& r.effects@.len() == 1
                &&& r.effects@[0] matches Effect::Queue(Action::GrantTunPrivilegeWithPassword(pw))
                &&& pw@ == t.password@
            } else if t.input_focus == 2 {
                r.tun == t && r.effects@.len() == 1 && r.effects@[0] matches Effect::Queue(
                    Action::GrantTunPrivilegePkexec,
                )
            } else {
                r.tun == t && r.effects@.len() == 0
            },
            KeyCode::Char('p') | KeyCode::Char('P') => r.tun == t && r.effects@.len() == 1
                && r.effects@[0] matches Effect::Queue(Action::GrantTunPrivilegePkexec),
            KeyCode::Char(c) => r.tun == TunPanel { password: r.tun.password, ..t } && r.tun.password@
                == t.password@.push(c) && r.effects@.len() == 0,
            _ => r.tun == t && r.effects@.len() == 0,
        }
    }
}

/// Handles a key in the TUN privilege dialog.
pub fn tun_key(t: TunPanel, code: KeyCode) -> (r: TunOutcome)
    ensures
        tun_key_post(t, code, r),
{
    proof {
        reveal(tun_key_post);
    }
    if t.granting {
        return TunOutcome { tun: t, effects: Vec::new() };
    }
    match code {
        KeyCode::Esc => TunOutcome { tun: t, effects: one(Effect::Queue(Action::HideTunModal)) },
        KeyCode::Tab => {
            let f = (t.input_focus % 3 + 1) % 3;
            TunOutcome { tun: TunPanel { input_focus: f, ..t }, effects: Vec::new() }
        },
        KeyCode::Backspace => {
            let v = popped(t.password);
            TunOutcome { tun: TunPanel { password: v, ..t }, effects: Vec::new() }
        },
        KeyCode::Enter => {
            if !t.password.as_str().is_empty() {
                let pw = t.password.clone();
                TunOutcome {
                    tun: t,
                    effects: one(Effect::Queue(Action::GrantTunPrivilegeWithPassword(pw))),
                }
            } else if t.input_focus == 2 {
                proof {
                    assert(t.password@.len() == 0);
                }
                TunOutcome { tun: t, effects: one(Effect::Queue(Action::GrantTunPrivilegePkexec)) }
            } else {
                proof {
                    assert(t.password@.len() == 0);
                }
                TunOutcome { tun: t, effects: Vec::new() }
            }
        },
        KeyCode::Char('p') | KeyCode::Char('P') => TunOutcome {
            tun: t,
            effects: one(Effect::Queue(Action::GrantTunPrivilegePkexec)),
        },
        KeyCode::Char(c) => {
            let v = push_to(t.password, c);
            TunOutcome { tun: TunPanel { password: v, ..t }, effects: Vec::new() }
        },
        _ => TunOutcome { tun: t, effects: Vec::new() },
    }
}

/// What a key does while the search bar is open.
#[verifier::opaque]
pub open spec fn search_key_post(s: AppState, code: KeyCode, now: u64, r: Outcome) -> bool {
    match code {
        KeyCode::Esc => !r.quit && r.effects@.len() == 0 && r.state == AppState {
            is_searching: false,
            search_query: r.state.search_query,
            ..s
        } && r.state.search_query@.len() == 0,
        KeyCode::Backspace => !r.quit && r.effects@.len() == 0 && r.state == AppState {
            search_query: r.state.search_query,
            ..s
        } && r.state.search_query@ == drop_last_char(s.search_query@),
        KeyCode::Enter => confirm_post(AppState { is_searching: false, ..s }, now, r),
        KeyCode::Up => unchanged(moved(s, -1), r),
        KeyCode::Down => unchanged(moved(s, 1), r),
        KeyCode::Char(c) => !r.quit && r.effects@.len() == 0 && r.state == AppState {
            search_query: r.state.search_query,
            ..s
        } && r.state.search_query@ == s.search_query@.push(c),
        _ => unchanged(s, r),
    }
}

/// Handles a key while the search bar is open.
pub fn search_key(s: AppState, code: KeyCode, now: u64) -> (r: Outcome)
    ensures
        search_key_post(s, code, now, r),
{
    proof {
        reveal(search_key_post);
    }
    match code {
        KeyCode::Esc => outcome(
            AppState { is_searching: false, search_query: String::new(), ..s },
            Vec::new(),
        ),
        KeyCode::Backspace => {
            let q = popped(s.search_query);
            outcome(AppState { search_query: q, ..s }, Vec::new())
        },
        KeyCode::Enter => confirm_selection(AppState { is_searching: false, ..s }, now),
        KeyCode::Up => outcome(move_selection(s, -1), Vec::new()),
        KeyCode::Down => outcome(move_selection(s, 1), Vec::new()),
        KeyCode::Char(c) => {
            let q = push_to(s.search_query, c);
            outcome(AppState { search_query: q, ..s }, Vec::new())
        },
        _ => outcome(s, Vec::new()),
    }
}

// ---------------------------------------------------------------------------
// Keys on the views
// ---------------------------------------------------------------------------

/// The search bar toggled: opened, or closed with its text cleared.
pub open spec fn search_toggled(s: AppState, r: AppState) -> bool {
    r == AppState { is_searching: !s.is_searching, search_query: r.search_query, ..s } && if s.is_searching {
        r.search_query@.len() == 0
    } else {
        r.search_query@ == s.search_query@
    }
}

fn toggle_search(s: AppState) -> (r: AppState)
    ensures
        search_toggled(s, r),
{
    let open = !s.is_searching;
    let q = if open {
        s.search_query
    } else {
        String::new()
    };
    AppState { is_searching: open, search_query: q, ..s }
}

/// What a movement key does on a view (other than the settings).
#[verifier::opaque]
pub open spec fn nav_key_post(s: AppState, code: KeyCode, r: Outcome) -> bool {
    match code {
        KeyCode::Up | KeyCode::Char('k') => unchanged(moved(s, -1), r),
        KeyCode::Down | KeyCode::Char('j') => unchanged(moved(s, 1), r),
        KeyCode::PageUp => unchanged(moved(s, -5), r),
        KeyCode::PageDown => unchanged(moved(s, 5), r),
        KeyCode::Char('g') | KeyCode::Home => unchanged(jumped_top(s), r),
        KeyCode::Char('G') | KeyCode::End => unchanged(jumped_bottom(s), r),
        KeyCode::Left | KeyCode::Char('h') => if s.active_tab == Tab::Proxies && s.proxy_sub_focus
            == ProxySubFocus::Nodes {
            unchanged(AppState { proxy_sub_focus: ProxySubFocus::Groups, ..s }, r)
        } else {
            unchanged(AppState { focus_zone: FocusZone::Sidebar, ..s }, r)
        },
        KeyCode::Right | KeyCode::Char('l') => if s.active_tab == Tab::Proxies {
            unchanged(AppState { proxy_sub_focus: ProxySubFocus::Nodes, ..s }, r)
        } else {
            unchanged(s, r)
        },
        _ => unchanged(s, r),
    }
}

/// Whether a key moves the selection or the focus on a view.
pub open spec fn is_nav_key(code: KeyCode) -> bool {
    code is Up || code is Down || code is PageUp || code is PageDown || code is Home || code is End
        || code is Left || code is Right || code == KeyCode::Char('k') || code == KeyCode::Char('j')
        || code == KeyCode::Char('g') || code == KeyCode::Char('G') || code == KeyCode::Char('h')
        || code == KeyCode::Char('l')
}

fn nav_key(s: AppState, code: KeyCode) -> (r: Outcome)
    ensures
        nav_key_post(s, code, r),
{
    proof {
        reveal(nav_key_post);
    }
    match code {
        KeyCode::Up | KeyCode::Char('k') => outcome(move_selection(s, -1), Vec::new()),
        KeyCode::Down | KeyCode::Char('j') => outcome(move_selection(s, 1), Vec::new()),
        KeyCode::PageUp => outcome(move_selection(s, -5), Vec::new()),
        KeyCode::PageDown => outcome(move_selection(s, 5), Vec::new()),
        KeyCode::Char('g') | KeyCode::Home => outcome(jump_top(s), Vec::new()),
        KeyCode::Char('G') | KeyCode::End => outcome(jump_bottom(s), Vec::new()),
        KeyCode::Left | KeyCode::Char('h') => {
            if s.active_tab == Tab::Proxies && s.proxy_sub_focus == ProxySubFocus::Nodes {
                outcome(AppState { proxy_sub_focus: ProxySubFocus::Groups, ..s }, Vec::new())
            } else {
                outcome(AppState { focus_zone: FocusZone::Sidebar, ..s }, Vec::new())
            }
        },
        KeyCode::Right | KeyCode::Char('l') => {
            if s.active_tab == Tab::Proxies {
                outcome(AppState { proxy_sub_focus: ProxySubFocus::Nodes, ..s }, Vec::new())
            } else {
                outcome(s, Vec::new())
            }
        },
        _ => outcome(s, Vec::new()),
    }
}

/// What a command key does on a view (other than the settings).
#[verifier::opaque]
pub open spec fn action_key_post(s: AppState, code: KeyCode, now: u64, r: Outcome) -> bool {
    let tab = s.active_tab;
    match code {
        KeyCode::Char('/') => !r.quit && r.effects@.len() == 0 && search_toggled(s, r.state),
        KeyCode::Char('t') | KeyCode::Char('T') => if tab == Tab::Proxies {
            test_group_post(s, r)
        } else if tab == Tab::Dashboard {
            test_sites_post(s, now, r)
        } else {
            unchanged(s, r)
        },
        KeyCode::Char('o') | KeyCode::Char('O') => if tab == Tab::Proxies {
            let s2 = AppState { node_sort: next_node_sort(s.node_sort), ..s };
            !r.quit && r.effects@.len() == 0 && only_toast(r.state, s2) && toast_is(
                r.state,
                node_sort_message(s2.node_sort),
                now,
            )
        } else {
            unchanged(s, r)
        },
        KeyCode::Char('s') | KeyCode::Char('S') => if tab == Tab::Connections {
            let s2 = AppState { sort_connections_by_traffic: !s.sort_connections_by_traffic, ..s };
            !r.quit && r.effects@.len() == 0 && only_toast(r.state, s2) && toast_is(
                r.state,
                if s2.sort_connections_by_traffic {
                    "已开启连接流量降序排序"@
                } else {
                    "已恢复默认连接顺序"@
                },
                now,
            )
        } else {
            !r.quit && r.effects@.len() == 0 && search_toggled(s, r.state)
        },
        KeyCode::Enter => confirm_post(s, now, r),
        KeyCode::Char('a') | KeyCode::Char('A') => if tab == Tab::Profiles {
            !r.quit && r.effects@.len() == 0 && r.state == AppState { profile_input: r.state.profile_input, ..s }
                && r.state.profile_input.show && r.state.profile_input.focus == 0
                && r.state.profile_input.name@.len() == 0 && r.state.profile_input.url@.len() == 0
        } else if tab == Tab::Logs {
            let s2 = AppState { logs_auto_scroll: !s.logs_auto_scroll, ..s };
            !r.quit && r.effects@.len() == 0 && only_toast(r.state, s2) && toast_is(
                r.state,
                if s2.logs_auto_scroll {
                    "已开启日志自动滚动"@
                } else {
                    "已暂停日志自动滚动"@
                },
                now,
            )
        } else {
            unchanged(s, r)
        },
        KeyCode::Char('u') | KeyCode::Char('U') => if tab == Tab::Profiles && s.selected_profile_idx
            < s.profiles@.len() && s.profiles@[s.selected_profile_idx as int].url is Some {
            let p = s.profiles@[s.selected_profile_idx as int];
            just_effect(
                s,
                r,
                |e: Effect|
                    e matches Effect::Queue(Action::AddProfile { name, url }) && name@ == p.name@
                        && url@ == p.url.unwrap()@,
            )
        } else {
            unchanged(s, r)
        },
        KeyCode::Char('d') | KeyCode::Char('D') => if tab == Tab::Proxies {
            test_node_post(s, r)
        } else if tab == Tab::Profiles {
            if s.selected_profile_idx < s.profiles@.len() {
                just_effect(
                    s,
                    r,
                    |e: Effect|
                        e matches Effect::Queue(Action::DeleteProfile(name)) && name@
                            == s.profiles@[s.selected_profile_idx as int].name@,
                )
            } else {
                unchanged(s, r)
            }
        } else if tab == Tab::Connections {
            if code == KeyCode::Char('D') {
                just_effect(s, r, |e: Effect| e matches Effect::Queue(Action::CloseAllConnections))
            } else {
                close_conn_post(s, r)
            }
        } else {
            unchanged(s, r)
        },
        KeyCode::Char('c') | KeyCode::Char('C') => if tab == Tab::Logs {
            !r.quit && r.effects@.len() == 0 && only_toast(r.state, AppState { logs: r.state.logs, ..s })
                && r.state.logs@.len() == 0 && toast_is(r.state, "Logs cleared"@, now)
        } else {
            unchanged(s, r)
        },
        KeyCode::Char('r') | KeyCode::Char('R') => if tab == Tab::Privileges {
            just_effect(s, r, |e: Effect| e matches Effect::Queue(Action::RevokeTunPrivilege))
        } else {
            unchanged(s, r)
        },
        _ => unchanged(s, r),
    }
}

fn toggle_node_sort(s: AppState, now: u64) -> (r: Outcome)
    requires
        s.active_tab == Tab::Proxies,
    ensures
        action_key_post(s, KeyCode::Char('o'), now, r),
{
    proof {
        reveal(action_key_post);
    }
    let (next, msg): (NodeSort, &str) = match s.node_sort {
        NodeSort::Default => (NodeSort::Latency, "已开启延迟升序排序"),
        NodeSort::Latency => (NodeSort::Name, "已开启名称 A-Z 排序"),
        NodeSort::Name => (NodeSort::Default, "已恢复默认节点顺序"),
    };
    proof {
        reveal_strlit("已开启延迟升序排序");
        reveal_strlit("已开启名称 A-Z 排序");
        reveal_strlit("已恢复默认节点顺序");
    }
    outcome(AppState { node_sort: next, toast: Some((string_from(msg), now)), ..s }, Vec::new())
}

/// The node ordering after `o`: default, latency, name, and round again.
pub open spec fn next_node_sort(k: NodeSort) -> NodeSort {
    match k {
        NodeSort::Default => NodeSort::Latency,
        NodeSort::Latency => NodeSort::Name,
        NodeSort::Name => NodeSort::Default,
    }
}

/// What the interface says when switching to ordering `k`.
pub open spec fn node_sort_message(k: NodeSort) -> Seq<char> {
    match k {
        NodeSort::Default => "已恢复默认节点顺序"@,
        NodeSort::Latency => "已开启延迟升序排序"@,
        NodeSort::Name => "已开启名称 A-Z 排序"@,
    }
}

fn toggle_conn_sort(s: AppState, now: u64) -> (r: Outcome)
    requires
        s.active_tab == Tab::Connections,
    ensures
        action_key_post(s, KeyCode::Char('s'), now, r),
{
    proof {
        reveal(action_key_post);
    }
    let on = !s.sort_connections_by_traffic;
    let msg = pick(on, "已开启连接流量降序排序", "已恢复默认连接顺序");
    outcome(AppState { sort_connections_by_traffic: on, toast: Some((msg, now)), ..s }, Vec::new())
}

fn profile_key(s: AppState, code: KeyCode) -> (r: Outcome)
    requires
        s.active_tab == Tab::Profiles,
        code == KeyCode::Char('u') || code == KeyCode::Char('U') || code == KeyCode::Char('d')
            || code == KeyCode::Char('D'),
    ensures
        action_key_post(s, code, 0, r),
{
    proof {
        reveal(action_key_post);
    }
    if s.selected_profile_idx < s.profiles.len() {
        let p = &s.profiles[s.selected_profile_idx];
        let name = p.name.clone();
        if code == KeyCode::Char('u') || code == KeyCode::Char('U') {
            match &p.url {
                Some(u) => {
                    let url = u.clone();
                    outcome(s, one(Effect::Queue(Action::AddProfile { name, url })))
                },
                None => outcome(s, Vec::new()),
            }
        } else {
            outcome(s, one(Effect::Queue(Action::DeleteProfile(name))))
        }
    } else {
        outcome(s, Vec::new())
    }
}

/// Handles a command key on a view (other than the settings).
pub fn action_key(s: AppState, code: KeyCode, now: u64) -> (r: Outcome)
    ensures
        action_key_post(s, code, now, r),
{
    proof {
        reveal(action_key_post);
    }
    let tab = s.active_tab;
    match code {
        KeyCode::Char('/') => outcome(toggle_search(s), Vec::new()),
        KeyCode::Char('t') | KeyCode::Char('T') => {
            if tab == Tab::Proxies {
                test_selected_group_latency(s)
            } else if tab == Tab::Dashboard {
                test_all_sites_latency(s, now)
            } else {
                outcome(s, Vec::new())
            }
        },
        KeyCode::Char('o') | KeyCode::Char('O') => {
            if tab == Tab::Proxies {
                toggle_node_sort(s, now)
            } else {
                outcome(s, Vec::new())
            }
        },
        KeyCode::Char('s') | KeyCode::Char('S') => {
            if tab == Tab::Connections {
                toggle_conn_sort(s, now)
            } else {
                outcome(toggle_search(s), Vec::new())
            }
        },
        KeyCode::Enter => confirm_selection(s, now),
        KeyCode::Char('a') | KeyCode::Char('A') => {
            if tab == Tab::Profiles {
                let input = ProfileInput { show: true, name: String::new(), url: String::new(), focus: 0 };
                outcome(AppState { profile_input: input, ..s }, Vec::new())
            } else if tab == Tab::Logs {
                let on = !s.logs_auto_scroll;
                let msg = pick(on, "已开启日志自动滚动", "已暂停日志自动滚动");
                outcome(AppState { logs_auto_scroll: on, toast: Some((msg, now)), ..s }, Vec::new())
            } else {
                outcome(s, Vec::new())
            }
        },
        KeyCode::Char('u') | KeyCode::Char('U') => {
            if tab == Tab::Profiles {
                let r = profile_key(s, code);
                r
            } else {
                outcome(s, Vec::new())
            }
        },
        KeyCode::Char('d') | KeyCode::Char('D') => {
            if tab == Tab::Proxies {
                test_single_node_latency(s)
            } else if tab == Tab::Profiles {
                profile_key(s, code)
            } else if tab == Tab::Connections {
                if code == KeyCode::Char('D') {
                    outcome(s, one(Effect::Queue(Action::CloseAllConnections)))
                } else {
                    close_selected_connection(s)
                }
            } else {
                outcome(s, Vec::new())
            }
        },
        KeyCode::Char('c') | KeyCode::Char('C') => {
            if tab == Tab::Logs {
                outcome(
                    AppState {
                        logs: Vec::new(),
                        toast: Some((string_from("Logs cleared"), now)),
                        ..s
                    },
                    Vec::new(),
                )
            } else {
                outcome(s, Vec::new())
            }
        },
        KeyCode::Char('r') | KeyCode::Char('R') => {
            if tab == Tab::Privileges {
                outcome(s, one(Effect::Queue(Action::RevokeTunPrivilege)))
            } else {
                outcome(s, Vec::new())
            }
        },
        _ => outcome(s, Vec::new()),
    }
}

/// The view a digit key opens: 1 to 9 for the first nine, 0 for the tenth.
pub open spec fn digit_tab(c: char) -> Option<Tab> {
    if c == '1' {
        Some(Tab::Dashboard)
    } else if c == '2' {
        Some(Tab::Proxies)
    } else if c == '3' {
        Some(Tab::Profiles)
    } else if c == '4' {
        Some(Tab::Rules)
    } else if c == '5' {
        Some(Tab::Connections)
    } else if c == '6' {
        Some(Tab::Traffic)
    } else if c == '7' {
        Some(Tab::Logs)
    } else if c == '8' {
        Some(Tab::Settings)
    } else if c == '9' {
        Some(Tab::Privileges)
    } else if c == '0' {
        Some(Tab::About)
    } else {
        None
    }
}

fn tab_for_digit(c: char) -> (r: Option<Tab>)
    ensures
        r == digit_tab(c),
{
    if c == '1' {
        Some(Tab::Dashboard)
    } else if c == '2' {
        Some(Tab::Proxies)
    } else if c == '3' {
        Some(Tab::Profiles)
    } else if c == '4' {
        Some(Tab::Rules)
    } else if c == '5' {
        Some(Tab::Connections)
    } else if c == '6' {
        Some(Tab::Traffic)
    } else if c == '7' {
        Some(Tab::Logs)
    } else if c == '8' {
        Some(Tab::Settings)
    } else if c == '9' {
        Some(Tab::Privileges)
    } else if c == '0' {
        Some(Tab::About)
    } else {
        None
    }
}

/// What a key does once no dialog or overlay takes it, by focused pane.
#[verifier::opaque]
pub open spec fn pane_key_post(s: AppState, code: KeyCode, now: u64, r: Outcome) -> bool {
    match s.focus_zone {
        FocusZone::Sidebar => match code {
            KeyCode::Up | KeyCode::Char('k') => unchanged(AppState { active_tab: tab_prev(s.active_tab), ..s }, r),
            KeyCode::Down | KeyCode::Char('j') => unchanged(AppState { active_tab: tab_next(s.active_tab), ..s }, r),
            KeyCode::Right | KeyCode::Char('l') | KeyCode::Enter => unchanged(
                AppState { focus_zone: FocusZone::Workspace, ..s },
                r,
            ),
            _ => unchanged(s, r),
        },
        FocusZone::Workspace => if s.active_tab == Tab::Settings {
            &&& !r.quit
            &&& r.state == AppState { settings: r.state.settings, focus_zone: r.state.focus_zone, ..s }
            &&& form_key_post(
                s.settings,
                code,
                FormOutcome {
                    form: r.state.settings,
                    to_sidebar: r.state.focus_zone == FocusZone::Sidebar,
                    effects: r.effects,
                },
            )
        } else if is_nav_key(code) {
            nav_key_post(s, code, r)
        } else {
            action_key_post(s, code, now, r)
        },
    }
}

fn pane_key(s: AppState, code: KeyCode, now: u64) -> (r: Outcome)
    ensures
        pane_key_post(s, code, now, r),
{
    proof {
        reveal(pane_key_post);
    }
    match s.focus_zone {
        FocusZone::Sidebar => match code {
            KeyCode::Up | KeyCode::Char('k') => {
                let t = s.active_tab.prev();
                outcome(AppState { active_tab: t, ..s }, Vec::new())
            },
            KeyCode::Down | KeyCode::Char('j') => {
                let t = s.active_tab.next();
                outcome(AppState { active_tab: t, ..s }, Vec::new())
            },
            KeyCode::Right | KeyCode::Char('l') | KeyCode::Enter => outcome(
                AppState { focus_zone: FocusZone::Workspace, ..s },
                Vec::new(),
            ),
            _ => outcome(s, Vec::new()),
        },
        FocusZone::Workspace => {
            if s.active_tab == Tab::Settings {
                let fr = form_key(s.settings, code);
                let zone = if fr.to_sidebar {
                    FocusZone::Sidebar
                } else {
                    FocusZone::Workspace
                };
                outcome(AppState { settings: fr.form, focus_zone: zone, ..s }, fr.effects)
            } else {
                let nav = match code {
                    KeyCode::Up | KeyCode::Down | KeyCode::PageUp | KeyCode::PageDown
                    | KeyCode::Home | KeyCode::End | KeyCode::Left | KeyCode::Right => true,
                    KeyCode::Char(c) => c == 'k' || c == 'j' || c == 'g' || c == 'G' || c == 'h'
                        || c == 'l',
                    _ => false,
                };
                if nav {
                    nav_key(s, code)
                } else {
                    action_key(s, code, now)
                }
            }
        },
    }
}

/// What a key does once no dialog or overlay takes it: the global keys, then
/// the focused pane's keys.
#[verifier::opaque]
pub open spec fn global_key_post(s: AppState, code: KeyCode, now: u64, r: Outcome) -> bool {
    let tab = s.active_tab;
    match code {
        KeyCode::Char('q') => r.quit && r.state == s && r.effects@.len() == 0,
        KeyCode::Char('?') => unchanged(AppState { show_help: !s.show_help, ..s }, r),
        KeyCode::Esc => !r.quit && r.effects@.len() == 0 && r.state == AppState {
            is_searching: false,
            search_query: r.state.search_query,
            focus_zone: FocusZone::Workspace,
            ..s
        } && r.state.search_query@.len() == 0,
        KeyCode::Tab | KeyCode::Char(']') => if tab == Tab::Settings {
            unchanged(AppState { settings: SettingsForm { focus: focus_down(s.settings.focus), ..s.settings }, ..s }, r)
        } else {
            unchanged(AppState { active_tab: tab_next(tab), ..s }, r)
        },
        KeyCode::BackTab | KeyCode::Char('[') => if tab == Tab::Settings {
            unchanged(AppState { settings: SettingsForm { focus: focus_up(s.settings.focus), ..s.settings }, ..s }, r)
        } else {
            unchanged(AppState { active_tab: tab_prev(tab), ..s }, r)
        },
        KeyCode::Char('m') | KeyCode::Char('M') => just_effect(
            s,
            r,
            |e: Effect| e matches Effect::SetMode { mode } && mode@ == next_mode(current_mode(s)),
        ),
        KeyCode::Char('x') | KeyCode::Char('X') => just_effect(
            s,
            r,
            |e: Effect| e matches Effect::Queue(Action::ToggleTunMode),
        ),
        KeyCode::Char(c) => if digit_tab(c) is Some {
            unchanged(AppState { active_tab: digit_tab(c).unwrap(), ..s }, r)
        } else if (c == 'p' || c == 'P') && tab != Tab::Privileges {
            just_effect(s, r, |e: Effect| e matches Effect::Queue(Action::ToggleSystemProxy))
        } else if (c == 'r' || c == 'R') && tab != Tab::Privileges {
            just_effect(s, r, |e: Effect| e matches Effect::Queue(Action::RestartCore))
        } else {
            pane_key_post(s, code, now, r)
        },
        _ => pane_key_post(s, code, now, r),
    }
}

fn global_key(s: AppState, code: KeyCode, now: u64) -> (r: Outcome)
    ensures
        global_key_post(s, code, now, r),
{
    proof {
        reveal(global_key_post);
    }
    let tab = s.active_tab;
    match code {
        KeyCode::Char('q') => Outcome { state: s, quit: true, effects: Vec::new() },
        KeyCode::Char('?') => {
            let h = !s.show_help;
            outcome(AppState { show_help: h, ..s }, Vec::new())
        },
        KeyCode::Esc => outcome(
            AppState {
                is_searching: false,
                search_query: String::new(),
                focus_zone: FocusZone::Workspace,
                ..s
            },
            Vec::new(),
        ),
        KeyCode::Tab | KeyCode::Char(']') => {
            if tab == Tab::Settings {
                let f = focus_next(s.settings.focus);
                outcome(AppState { settings: SettingsForm { focus: f, ..s.settings }, ..s }, Vec::new())
            } else {
                outcome(AppState { active_tab: tab.next(), ..s }, Vec::new())
            }
        },
        KeyCode::BackTab | KeyCode::Char('[') => {
            if tab == Tab::Settings {
                let f = focus_prev(s.settings.focus);
                outcome(AppState { settings: SettingsForm { focus: f, ..s.settings }, ..s }, Vec::new())
            } else {
                outcome(AppState { active_tab: tab.prev(), ..s }, Vec::new())
            }
        },
        KeyCode::Char('m') | KeyCode::Char('M') => cycle_mode(s),
        KeyCode::Char('x') | KeyCode::Char('X') => outcome(s, one(Effect::Queue(Action::ToggleTunMode))),
        KeyCode::Char(c) => {
            match tab_for_digit(c) {
                Some(t) => {
                    return outcome(AppState { active_tab: t, ..s }, Vec::new());
                },
                None => {},
            }
            if (c == 'p' || c == 'P') && tab != Tab::Privileges {
                outcome(s, one(Effect::Queue(Action::ToggleSystemProxy)))
            } else if (c == 'r' || c == 'R') && tab != Tab::Privileges {
                outcome(s, one(Effect::Queue(Action::RestartCore)))
            } else {
                pane_key(s, code, now)
            }
        },
        _ => pane_key(s, code, now),
    }
}

/// What a key press does, layer by layer: Ctrl+C quits and Ctrl+L clears the
/// screen; then the open search bar, the subscription dialog, the help
/// overlay and the TUN dialog take the key in that order; then Ctrl+D/U page
/// and Ctrl+S saves the settings; then the global and pane keys apply.
#[verifier::opaque]
pub open spec fn key_post(s: AppState, key: KeyEvent, now: u64, r: Outcome) -> bool {
    let code = key.code;
    if key.ctrl && code == KeyCode::Char('c') {
        r.quit && r.state == s && r.effects@.len() == 0
    } else if key.ctrl && code == KeyCode::Char('l') {
        just_effect(s, r, |e: Effect| e matches Effect::Queue(Action::ClearScreen))
    } else if s.is_searching {
        search_key_post(s, code, now, r)
    } else if s.profile_input.show {
        &&& !r.quit
        &&& r.state == AppState { profile_input: r.state.profile_input, ..s }
        &&& input_key_post(
            s.profile_input,
            code,
            InputOutcome { input: r.state.profile_input, effects: r.effects },
        )
    } else if s.show_help {
        unchanged(
            if code == KeyCode::Char('?') || code == KeyCode::Esc {
                AppState { show_help: false, ..s }
            } else {
                s
            },
            r,
        )
    } else if s.tun.show_modal {
        &&& !r.quit
        &&& r.state == AppState { tun: r.state.tun, ..s }
        &&& tun_key_post(s.tun, code, TunOutcome { tun: r.state.tun, effects: r.effects })
    } else if key.ctrl && code == KeyCode::Char('d') {
        unchanged(moved(s, 5), r)
    } else if key.ctrl && code == KeyCode::Char('u') {
        unchanged(moved(s, -5), r)
    } else if key.ctrl && code == KeyCode::Char('s') {
        if s.active_tab == Tab::Settings {
            just_effect(s, r, |e: Effect| e matches Effect::Queue(Action::SaveSettings))
        } else {
            unchanged(s, r)
        }
    } else {
        global_key_post(s, code, now, r)
    }
}

/// Handles a key press (see `key_post`).
pub fn on_key(s: AppState, key: KeyEvent, now: u64) -> (r: Outcome)
    ensures
        key_post(s, key, now, r),
{
    proof {
        reveal(key_post);
    }
    let code = key.code;
    if key.ctrl && code == KeyCode::Char('c') {
        return Outcome { state: s, quit: true, effects: Vec::new() };
    }
    if key.ctrl && code == KeyCode::Char('l') {
        return outcome(s, one(Effect::Queue(Action::ClearScreen)));
    }
    if s.is_searching {
        return search_key(s, code, now);
    }
    if s.profile_input.show {
        let ir = input_key(s.profile_input, code);
        return outcome(AppState { profile_input: ir.input, ..s }, ir.effects);
    }
    if s.show_help {
        if code == KeyCode::Char('?') || code == KeyCode::Esc {
            return outcome(AppState { show_help: false, ..s }, Vec::new());
        }
        return outcome(s, Vec::new());
    }
    if s.tun.show_modal {
        let tr = tun_key(s.tun, code);
        return outcome(AppState { tun: tr.tun, ..s }, tr.effects);
    }
    if key.ctrl && code == KeyCode::Char('d') {
        return outcome(move_selection(s, 5), Vec::new());
    }
    if key.ctrl && code == KeyCode::Char('u') {
        return outcome(move_selection(s, -5), Vec::new());
    }
    if key.ctrl && code == KeyCode::Char('s') {
        if s.active_tab == Tab::Settings {
            return outcome(s, one(Effect::Queue(Action::SaveSettings)));
        }
        return outcome(s, Vec::new());
    }
    global_key(s, code, now)
}

// ---------------------------------------------------------------------------
// Mouse
// ---------------------------------------------------------------------------

/// What a click on the settings view does at a cell: the left column selects
/// one of the first five fields, the right column selects a field and
/// toggles or cycles it, or saves.
#[verifier::opaque]
pub open spec fn settings_click_post(g: SettingsForm, col: u16, row: u16, r: FormOutcome) -> bool {
    if col < 55 {
        if 4 <= row <= 6 {
            form_becomes(SettingsForm { focus: 0, ..g }, r)
        } else if 7 <= row <= 9 {
            form_becomes(SettingsForm { focus: 1, ..g }, r)
        } else if 10 <= row <= 12 {
            form_becomes(SettingsForm { focus: 2, ..g }, r)
        } else if 13 <= row <= 15 {
            form_becomes(SettingsForm { focus: 3, ..g }, r)
        } else if row >= 16 {
            form_becomes(SettingsForm { focus: 4, ..g }, r)
        } else {
            form_becomes(g, r)
        }
    } else {
        if 4 <= row <= 6 {
            !r.to_sidebar && r.effects@.len() == 0 && r.form == SettingsForm {
                focus: 5,
                tun_stack: r.form.tun_stack,
                ..g
            } && r.form.tun_stack@ == next_stack(g.tun_stack@)
        } else if 7 <= row <= 9 {
            !r.to_sidebar && r.effects@.len() == 0 && r.form == SettingsForm {
                focus: 6,
                log_level: r.form.log_level,
                ..g
            } && r.form.log_level@ == next_log_level(g.log_level@)
        } else if 10 <= row <= 12 {
            form_becomes(SettingsForm { focus: 7, allow_lan: !g.allow_lan, ..g }, r)
        } else if 13 <= row <= 15 {
            form_becomes(SettingsForm { focus: 8, ipv6: !g.ipv6, ..g }, r)
        } else if 16 <= row <= 18 {
            !r.to_sidebar && r.effects@.len() == 0 && r.form == SettingsForm {
                focus: 9,
                lang: r.form.lang,
                ..g
            } && r.form.lang@ == next_lang(g.lang@)
        } else if 19 <= row <= 21 {
            form_becomes(SettingsForm { focus: 10, refresh_ms: next_refresh(g.refresh_ms), ..g }, r)
        } else if row >= 22 {
            form_queues(
                SettingsForm { focus: 11, ..g },
                r,
                |e: Effect| e matches Effect::Queue(Action::SaveSettings),
            )
        } else {
            form_becomes(g, r)
        }
    }
}

fn settings_click(g: SettingsForm, col: u16, row: u16) -> (r: FormOutcome)
    ensures
        settings_click_post(g, col, row, r),
        !r.to_sidebar,
{
    proof {
        reveal(settings_click_post);
    }
    if col < 55 {
        if 4 <= row && row <= 6 {
            form_done(SettingsForm { focus: 0, ..g })
        } else if 7 <= row && row <= 9 {
            form_done(SettingsForm { focus: 1, ..g })
        } else if 10 <= row && row <= 12 {
            form_done(SettingsForm { focus: 2, ..g })
        } else if 13 <= row && row <= 15 {
            form_done(SettingsForm { focus: 3, ..g })
        } else if row >= 16 {
            form_done(SettingsForm { focus: 4, ..g })
        } else {
            form_done(g)
        }
    } else {
        if 4 <= row && row <= 6 {
            let v = cycle_stack(g.tun_stack.as_str());
            form_done(SettingsForm { focus: 5, tun_stack: v, ..g })
        } else if 7 <= row && row <= 9 {
            let v = cycle_log_level(g.log_level.as_str());
            form_done(SettingsForm { focus: 6, log_level: v, ..g })
        } else if 10 <= row && row <= 12 {
            let v = !g.allow_lan;
            form_done(SettingsForm { focus: 7, allow_lan: v, ..g })
        } else if 13 <= row && row <= 15 {
            let v = !g.ipv6;
            form_done(SettingsForm { focus: 8, ipv6: v, ..g })
        } else if 16 <= row && row <= 18 {
            let v = cycle_lang(g.lang.as_str());
            form_done(SettingsForm { focus: 9, lang: v, ..g })
        } else if 19 <= row && row <= 21 {
            let ms = g.refresh_ms;
            let v: u64 = if ms == 500 {
                1000
            } else if ms == 1000 {
                2000
            } else {
                500
            };
            form_done(SettingsForm { focus: 10, refresh_ms: v, ..g })
        } else if row >= 22 {
            FormOutcome {
                form: SettingsForm { focus: 11, ..g },
                to_sidebar: false,
                effects: one(Effect::Queue(Action::SaveSettings)),
            }
        } else {
            form_done(g)
        }
    }
}

/// What a left click inside the current view does (the focus is already on
/// the view).
#[verifier::opaque]
pub open spec fn view_click_post(s: AppState, col: u16, row: u16, now: u64, r: Outcome) -> bool {
    match s.active_tab {
        Tab::Dashboard => if 10 <= row <= 16 {
            test_sites_post(s, now, r)
        } else {
            unchanged(s, r)
        },
        Tab::Settings => !r.quit && r.state == AppState { settings: r.state.settings, ..s }
            && settings_click_post(
            s.settings,
            col,
            row,
            FormOutcome { form: r.state.settings, to_sidebar: false, effects: r.effects },
        ),
        Tab::Profiles => if row <= 5 {
            if 18 <= col < 35 {
                action_key_post(s, KeyCode::Char('a'), now, r)
            } else if 35 <= col < 52 {
                action_key_post(s, KeyCode::Char('u'), now, r)
            } else if 52 <= col < 68 {
                action_key_post(s, KeyCode::Char('d'), now, r)
            } else {
                unchanged(s, r)
            }
        } else if row - 5 < s.profiles@.len() {
            confirm_post(AppState { selected_profile_idx: (row - 5) as usize, ..s }, now, r)
        } else {
            unchanged(s, r)
        },
        Tab::Proxies => if col < 50 {
            let s2 = AppState { proxy_sub_focus: ProxySubFocus::Groups, ..s };
            if row >= 4 && row - 4 < s.proxy_groups@.len() {
                unchanged(AppState { selected_group_idx: (row - 4) as usize, selected_node_idx: 0, ..s2 }, r)
            } else {
                unchanged(s2, r)
            }
        } else {
            let s2 = AppState { proxy_sub_focus: ProxySubFocus::Nodes, ..s };
            if row >= 4 && row - 4 < spec_filtered_group_nodes(s2).len() {
                confirm_post(AppState { selected_node_idx: (row - 4) as usize, ..s2 }, now, r)
            } else {
                unchanged(s2, r)
            }
        },
        Tab::Rules => match s.rules_resp {
            Some(resp) => if row >= 4 && row - 4 < resp.rules@.len() {
                unchanged(AppState { selected_rule_idx: (row - 4) as usize, ..s }, r)
            } else {
                unchanged(s, r)
            },
            None => unchanged(s, r),
        },
        Tab::Connections => match s.connections_resp {
            Some(resp) => if row >= 4 && row - 4 < resp.connections@.len() {
                unchanged(AppState { selected_conn_idx: (row - 4) as usize, ..s }, r)
            } else {
                unchanged(s, r)
            },
            None => unchanged(s, r),
        },
        _ => unchanged(s, r),
    }
}

fn view_click(s: AppState, col: u16, row: u16, now: u64) -> (r: Outcome)
    ensures
        view_click_post(s, col, row, now, r),
{
    proof {
        reveal(view_click_post);
    }
    match s.active_tab {
        Tab::Dashboard => {
            if 10 <= row && row <= 16 {
                test_all_sites_latency(s, now)
            } else {
                outcome(s, Vec::new())
            }
        },
        Tab::Settings => {
            let fr = settings_click(s.settings, col, row);
            outcome(AppState { settings: fr.form, ..s }, fr.effects)
        },
        Tab::Profiles => {
            if row <= 5 {
                if 18 <= col && col < 35 {
                    action_key(s, KeyCode::Char('a'), now)
                } else if 35 <= col && col < 52 {
                    action_key(s, KeyCode::Char('u'), now)
                } else if 52 <= col && col < 68 {
                    action_key(s, KeyCode::Char('d'), now)
                } else {
                    outcome(s, Vec::new())
                }
            } else {
                let idx = (row - 5) as usize;
                if idx < s.profiles.len() {
                    confirm_selection(AppState { selected_profile_idx: idx, ..s }, now)
                } else {
                    outcome(s, Vec::new())
                }
            }
        },
        Tab::Proxies => {
            if col < 50 {
                let s2 = AppState { proxy_sub_focus: ProxySubFocus::Groups, ..s };
                if row >= 4 && ((row - 4) as usize) < s2.proxy_groups.len() {
                    let idx = (row - 4) as usize;
                    outcome(AppState { selected_group_idx: idx, selected_node_idx: 0, ..s2 }, Vec::new())
                } else {
                    outcome(s2, Vec::new())
                }
            } else {
                let s2 = AppState { proxy_sub_focus: ProxySubFocus::Nodes, ..s };
                if row >= 4 {
                    let idx = (row - 4) as usize;
                    let n = s2.filtered_group_nodes().len();
                    if idx < n {
                        return confirm_selection(AppState { selected_node_idx: idx, ..s2 }, now);
                    }
                }
                outcome(s2, Vec::new())
            }
        },
        Tab::Rules => {
            let n: usize = match &s.rules_resp {
                Some(resp) => resp.rules.len(),
                None => 0,
            };
            if s.rules_resp.is_some() && row >= 4 && ((row - 4) as usize) < n {
                outcome(AppState { selected_rule_idx: (row - 4) as usize, ..s }, Vec::new())
            } else {
                outcome(s, Vec::new())
            }
        },
        Tab::Connections => {
            let n: usize = match &s.connections_resp {
                Some(resp) => resp.connections.len(),
                None => 0,
            };
            if s.connections_resp.is_some() && row >= 4 && ((row - 4) as usize) < n {
                outcome(AppState { selected_conn_idx: (row - 4) as usize, ..s }, Vec::new())
            } else {
                outcome(s, Vec::new())
            }
        },
        _ => outcome(s, Vec::new()),
    }
}

/// What a mouse event does: the TUN dialog takes left clicks (submitting the
/// password, or focusing its field); the wheel moves the selection; a left
/// click selects a view in the sidebar (rows 5 to 14), triggers a control of
/// the top bar (mode, system proxy, TUN, restart), or acts inside the view.
#[verifier::opaque]
pub open spec fn mouse_post(s: AppState, m: MouseEvent, now: u64, r: Outcome) -> bool {
    let col = m.column;
    let row = m.row;
    if s.tun.show_modal {
        if m.kind == MouseKind::LeftDown && !s.tun.granting {
            if s.tun.password@.len() > 0 {
                just_effect(
                    s,
                    r,
                    |e: Effect|
                        e matches Effect::Queue(Action::GrantTunPrivilegeWithPassword(pw)) && pw@
                            == s.tun.password@,
                )
            } else {
                unchanged(AppState { tun: TunPanel { input_focus: 0, ..s.tun }, ..s }, r)
            }
        } else {
            unchanged(s, r)
        }
    } else {
        match m.kind {
            MouseKind::ScrollDown => unchanged(moved(s, 1), r),
            MouseKind::ScrollUp => unchanged(moved(s, -1), r),
            MouseKind::LeftDown => if col < 18 {
                if 5 <= row <= 14 {
                    unchanged(
                        AppState {
                            active_tab: crate::state::tab_at((row - 5) as nat),
                            focus_zone: FocusZone::Sidebar,
                            ..s
                        },
                        r,
                    )
                } else {
                    unchanged(s, r)
                }
            } else if row <= 2 {
                if col < 42 {
                    just_effect(
                        s,
                        r,
                        |e: Effect| e matches Effect::SetMode { mode } && mode@ == next_mode(current_mode(s)),
                    )
                } else if col < 66 {
                    just_effect(s, r, |e: Effect| e matches Effect::Queue(Action::ToggleSystemProxy))
                } else if col < 84 {
                    just_effect(s, r, |e: Effect| e matches Effect::Queue(Action::ToggleTunMode))
                } else {
                    just_effect(s, r, |e: Effect| e matches Effect::Queue(Action::RestartCore))
                }
            } else {
                view_click_post(AppState { focus_zone: FocusZone::Workspace, ..s }, col, row, now, r)
            },
            MouseKind::RightDown | MouseKind::MiddleDown | MouseKind::Other => unchanged(s, r),
        }
    }
}

/// Handles a mouse event (see `mouse_post`).
pub fn on_mouse(s: AppState, m: MouseEvent, now: u64) -> (r: Outcome)
    ensures
        mouse_post(s, m, now, r),
{
    proof {
        reveal(mouse_post);
    }
    let col = m.column;
    let row = m.row;
    if s.tun.show_modal {
        if m.kind == MouseKind::LeftDown && !s.tun.granting {
            if !s.tun.password.as_str().is_empty() {
                let pw = s.tun.password.clone();
                return outcome(s, one(Effect::Queue(Action::GrantTunPrivilegeWithPassword(pw))));
            } else {
                proof {
                    assert(s.tun.password@.len() == 0);
                }
                return outcome(AppState { tun: TunPanel { input_focus: 0, ..s.tun }, ..s }, Vec::new());
            }
        }
        return outcome(s, Vec::new());
    }
    match m.kind {
        MouseKind::ScrollDown => outcome(move_selection(s, 1), Vec::new()),
        MouseKind::ScrollUp => outcome(move_selection(s, -1), Vec::new()),
        MouseKind::LeftDown => {
            if col < 18 {
                if 5 <= row && row <= 14 {
                    match crate::state::Tab::from_index((row - 5) as usize) {
                        Some(t) => outcome(
                            AppState { active_tab: t, focus_zone: FocusZone::Sidebar, ..s },
                            Vec::new(),
                        ),
                        None => outcome(s, Vec::new()),
                    }
                } else {
                    outcome(s, Vec::new())
                }
            } else if row <= 2 {
                if col < 42 {
                    cycle_mode(s)
                } else if col < 66 {
                    outcome(s, one(Effect::Queue(Action::ToggleSystemProxy)))
                } else if col < 84 {
                    outcome(s, one(Effect::Queue(Action::ToggleTunMode)))
                } else {
                    outcome(s, one(Effect::Queue(Action::RestartCore)))
                }
            } else {
                view_click(AppState { focus_zone: FocusZone::Workspace, ..s }, col, row, now)
            }
        },
        MouseKind::RightDown | MouseKind::MiddleDown | MouseKind::Other => outcome(s, Vec::new()),
    }
}

// ---------------------------------------------------------------------------
// Profiles
// ---------------------------------------------------------------------------

fn concat3(a: &str, b: &str, c: &str) -> (r: String)
    ensures
        r@ == a@ + b@ + c@,
{
    let x = concat_str(a, b);
    concat_str(x.as_str(), c)
}

/// Position of the profile the interface loads: the first active one, else
/// the first one.
pub open spec fn active_profile_index(ps: Seq<ProfileItem>) -> Option<int> {
    if exists|i: int| 0 <= i < ps.len() && ps[i].is_active {
        Some(choose|i: int| 0 <= i < ps.len() && ps[i].is_active && forall|j: int| 0 <= j < i ==> !ps[j].is_active)
    } else if ps.len() > 0 {
        Some(0)
    } else {
        None
    }
}

fn find_active(ps: &Vec<ProfileItem>) -> (r: Option<usize>)
    ensures
        match r {
            Some(i) => active_profile_index(ps@) == Some(i as int) && i < ps@.len(),
            None => active_profile_index(ps@) is None,
        },
{
    let mut i: usize = 0;
    while i < ps.len()
        invariant
            i <= ps.len(),
            forall|j: int| 0 <= j < i ==> !ps@[j].is_active,
        decreases ps.len() - i,
    {
        if ps[i].is_active {
            proof {
                let k = choose|k: int|
                    0 <= k < ps@.len() && ps@[k].is_active && forall|j: int| 0 <= j < k ==> !ps@[j].is_active;
                if k < i {
                } else if k > i {
                }
            }
            return Some(i);
        }
        i += 1;
    }
    if ps.len() > 0 {
        Some(0)
    } else {
        None
    }
}

/// What the list of stored profiles does to the state: it is shown, the
/// selection is kept inside it, and the active profile is loaded; a failed
/// listing raises a toast.
#[verifier::opaque]
pub open spec fn profiles_fetched_post(s: AppState, res: Result<Vec<ProfileItem>, String>, now: u64, r: Outcome) -> bool {
    match res {
        Ok(list) => {
            &&& r.state == AppState {
                profiles: list,
                selected_profile_idx: clamp_index(s.selected_profile_idx, list@.len()),
                ..s
            }
            &&& !r.quit
            &&& match active_profile_index(list@) {
                Some(i) => r.effects@.len() == 1 && (r.effects@[0] matches Effect::LoadActiveProfile {
                    file_path,
                } && file_path@ == list@[i].file_path@),
                None => r.effects@.len() == 0,
            }
        },
        Err(e) => !r.quit && r.effects@.len() == 0 && only_toast(r.state, s) && toast_is(
            r.state,
            "Profile Error: "@ + e@,
            now,
        ),
    }
}

fn on_profiles_fetched(s: AppState, res: Result<Vec<ProfileItem>, String>, now: u64) -> (r: Outcome)
    ensures
        profiles_fetched_post(s, res, now, r),
{
    proof {
        reveal(profiles_fetched_post);
    }
    match res {
        Ok(list) => {
            let n = list.len();
            let idx = if n > 0 && s.selected_profile_idx >= n {
                n - 1
            } else {
                s.selected_profile_idx
            };
            let effects = match find_active(&list) {
                Some(i) => one(Effect::LoadActiveProfile { file_path: list[i].file_path.clone() }),
                None => Vec::new(),
            };
            outcome(AppState { profiles: list, selected_profile_idx: idx, ..s }, effects)
        },
        Err(e) => {
            let msg = concat_str("Profile Error: ", e.as_str());
            outcome(toast(s, msg, now), Vec::new())
        },
    }
}

/// The API address made from a profile's `external-controller`: kept when it
/// has an `http://` or `https://` scheme, else prefixed with `http://`.
pub open spec fn controller_url(ext: Seq<char>) -> Seq<char> {
    if has_prefix(ext, "http://"@) || has_prefix(ext, "https://"@) {
        ext
    } else {
        "http://"@ + ext
    }
}

/// Group names taken from a profile when the core listed none: its groups, with
/// `GLOBAL` put first when missing.
pub open spec fn profile_groups(p: ParsedProfile) -> Seq<Seq<char>> {
    let names = p.proxy_groups@.map_values(|g: crate::models::ProxyGroup| g.name@);
    if names.contains("GLOBAL"@) {
        names
    } else {
        seq!["GLOBAL"@] + names
    }
}

/// The secret to reach a profile's controller with: the profile's, else the
/// one of the settings when not empty.
pub open spec fn controller_secret(p: ParsedProfile, s: AppState) -> Option<Seq<char>> {
    match p.secret {
        Some(x) => Some(x@),
        None => if s.settings.secret@.len() > 0 {
            Some(s.settings.secret@)
        } else {
            None
        },
    }
}

/// What loading the active profile does: the API address follows the
/// profile's controller (and the client is rebuilt for it), groups come from
/// the profile when the core listed none, the profile is kept, and the core
/// is checked.
#[verifier::opaque]
pub open spec fn profile_loaded_post(s: AppState, parsed: ParsedProfile, path: String, r: Outcome) -> bool {
    let moved_url = match parsed.external_controller {
        Some(ext) => controller_url(ext@) != s.settings.api_url@,
        None => false,
    };
    &&& !r.quit
    &&& r.state == AppState {
        settings: r.state.settings,
        proxy_groups: r.state.proxy_groups,
        parsed_active_profile: Some(parsed),
        ..s
    }
    &&& r.state.settings == (SettingsForm { api_url: r.state.settings.api_url, ..s.settings })
    &&& r.state.settings.api_url@ == if moved_url {
        controller_url(parsed.external_controller.unwrap()@)
    } else {
        s.settings.api_url@
    }
    &&& if s.proxy_groups@.len() == 0 {
        strings_view(r.state.proxy_groups@) == profile_groups(parsed)
    } else {
        r.state.proxy_groups == s.proxy_groups
    }
    &&& if moved_url {
        &&& r.effects@.len() == 2
        &&& r.effects@[0] matches Effect::ConnectClient { url, secret }
        &&& url@ == r.state.settings.api_url@
        &&& crate::models::opt_string_view(secret) == controller_secret(parsed, s)
        &&& r.effects@[1] matches Effect::ProbeCore { file_path } && file_path@ == path@
    } else {
        r.effects@.len() == 1 && (r.effects@[0] matches Effect::ProbeCore { file_path } && file_path@
            == path@)
    }
}

fn make_controller_url(ext: &str) -> (r: String)
    ensures
        r@ == controller_url(ext@),
{
    let v = chars_of(ext);
    let a = chars_of("http://");
    let b = chars_of("https://");
    if starts_with(v.as_slice(), a.as_slice()) || starts_with(v.as_slice(), b.as_slice()) {
        string_from(ext)
    } else {
        concat_str("http://", ext)
    }
}

fn groups_of_profile(p: &ParsedProfile) -> (r: Vec<String>)
    ensures
        strings_view(r@) == profile_groups(*p),
{
    let mut names: Vec<String> = Vec::new();
    let mut has_global = false;
    let mut i: usize = 0;
    while i < p.proxy_groups.len()
        invariant
            i <= p.proxy_groups.len(),
            strings_view(names@) == p.proxy_groups@.take(i as int).map_values(
                |g: crate::models::ProxyGroup| g.name@,
            ),
            has_global == strings_view(names@).contains("GLOBAL"@),
        decreases p.proxy_groups.len() - i,
    {
        let g = p.proxy_groups[i].name.clone();
        let is_global = str_eq(g.as_str(), "GLOBAL");
        let ghost before = strings_view(names@);
        names.push(g);
        proof {
            assert(strings_view(names@) =~= before.push(g@));
            assert(strings_view(names@) =~= p.proxy_groups@.take(i + 1).map_values(
                |g: crate::models::ProxyGroup| g.name@,
            ));
            let now_v = strings_view(names@);
            if is_global {
                assert(now_v[before.len() as int] == "GLOBAL"@);
                assert(now_v.contains("GLOBAL"@));
            } else {
                if now_v.contains("GLOBAL"@) {
                    let k = choose|k: int| 0 <= k < now_v.len() && now_v[k] == "GLOBAL"@;
                    if k < before.len() {
                        assert(before[k] == "GLOBAL"@);
                    }
                    assert(before.contains("GLOBAL"@));
                }
            }
            if before.contains("GLOBAL"@) {
                let k = choose|k: int| 0 <= k < before.len() && before[k] == "GLOBAL"@;
                assert(now_v[k] == "GLOBAL"@);
                assert(now_v.contains("GLOBAL"@));
            }
        }
        has_global = has_global || is_global;
        i += 1;
    }
    proof {
        assert(p.proxy_groups@.take(p.proxy_groups@.len() as int) =~= p.proxy_groups@);
    }
    if has_global {
        names
    } else {
        let mut r: Vec<String> = Vec::new();
        r.push(string_from("GLOBAL"));
        let mut k: usize = 0;
        while k < names.len()
            invariant
                k <= names.len(),
                r@.len() == k + 1,
                r@[0]@ == "GLOBAL"@,
                forall|j: int| 0 <= j < k ==> #[trigger] r@[j + 1]@ == names@[j]@,
            decreases names.len() - k,
        {
            r.push(names[k].clone());
            k += 1;
        }
        assert(strings_view(r@) =~= seq!["GLOBAL"@] + strings_view(names@)) by {
            assert forall|j: int| 1 <= j < r@.len() implies strings_view(r@)[j] == (seq!["GLOBAL"@] + strings_view(names@))[j] by {
                assert(r@[(j - 1) + 1]@ == names@[j - 1]@);
            }
        }
        r
    }
}

fn on_profile_loaded(s: AppState, parsed: ParsedProfile, path: String) -> (r: Outcome)
    ensures
        profile_loaded_post(s, parsed, path, r),
{
    proof {
        reveal(profile_loaded_post);
    }
    let mut effects: Vec<Effect> = Vec::new();
    let mut form = s.settings;
    let ghost form0 = form;
    match &parsed.external_controller {
        Some(ext) => {
            let url = make_controller_url(ext.as_str());
            if !str_eq(form.api_url.as_str(), url.as_str()) {
                let secret: Option<String> = match &parsed.secret {
                    Some(x) => Some(x.clone()),
                    None => if !form.secret.as_str().is_empty() {
                        Some(form.secret.clone())
                    } else {
                        proof {
                            assert(form.secret@.len() == 0);
                        }
                        None
                    },
                };
                effects.push(Effect::ConnectClient { url: url.clone(), secret });
                form = SettingsForm { api_url: url, ..form };
            }
        },
        None => {},
    }
    let groups = if s.proxy_groups.len() == 0 {
        groups_of_profile(&parsed)
    } else {
        s.proxy_groups
    };
    effects.push(Effect::ProbeCore { file_path: path.clone() });
    let st = AppState { settings: form, proxy_groups: groups, parsed_active_profile: Some(parsed), ..s };
    outcome(st, effects)
}

/// What the core check does: a stopped core is started with the active
/// profile, or downloaded first when its binary is missing.
pub open spec fn core_probed_post(s: AppState, running: bool, found: bool, path: String, r: Outcome) -> bool {
    if running {
        unchanged(s, r)
    } else if !found {
        just_effect(s, r, |e: Effect| e matches Effect::Queue(Action::DownloadCore))
    } else {
        just_effect(
            s,
            r,
            |e: Effect| e matches Effect::StartCoreWithConfig { file_path } && file_path@ == path@,
        )
    }
}

fn on_core_probed(s: AppState, running: bool, found: bool, path: String) -> (r: Outcome)
    ensures
        core_probed_post(s, running, found, path, r),
{
    if running {
        outcome(s, Vec::new())
    } else if !found {
        outcome(s, one(Effect::Queue(Action::DownloadCore)))
    } else {
        outcome(s, one(Effect::StartCoreWithConfig { file_path: path }))
    }
}

// ---------------------------------------------------------------------------
// System proxy and TUN mode
// ---------------------------------------------------------------------------

/// HTTP port handed to the desktop proxy settings: the core's mixed port,
/// else its HTTP port, else 7890.
pub open spec fn sysproxy_http_port(s: AppState) -> u16 {
    match s.config {
        Some(c) => match c.mixed_port {
            Some(p) => p,
            None => match c.http_port {
                Some(p) => p,
                None => 7890,
            },
        },
        None => 7890,
    }
}

/// SOCKS port handed to the desktop proxy settings: the core's mixed port,
/// else its SOCKS port, else 7891.
pub open spec fn sysproxy_socks_port(s: AppState) -> u16 {
    match s.config {
        Some(c) => match c.mixed_port {
            Some(p) => p,
            None => match c.socks_port {
                Some(p) => p,
                None => 7891,
            },
        },
        None => 7891,
    }
}

fn on_toggle_sysproxy(s: AppState) -> (r: Outcome)
    ensures
        just_effect(
            s,
            r,
            |e: Effect|
                e matches Effect::SetSystemProxy { enable, http_port, socks_port } && enable
                    == !s.is_sysproxy_enabled && http_port == sysproxy_http_port(s) && socks_port
                    == sysproxy_socks_port(s),
        ),
{
    let (http, socks): (u16, u16) = match &s.config {
        Some(c) => match c.mixed_port {
            Some(p) => (p, p),
            None => (
                match c.http_port {
                    Some(p) => p,
                    None => 7890,
                },
                match c.socks_port {
                    Some(p) => p,
                    None => 7891,
                },
            ),
        },
        None => (7890, 7891),
    };
    let en = !s.is_sysproxy_enabled;
    outcome(s, one(Effect::SetSystemProxy { enable: en, http_port: http, socks_port: socks }))
}

/// What the outcome of switching the system proxy does.
pub open spec fn sysproxy_applied_post(s: AppState, enable: bool, ok: bool, now: u64, r: Outcome) -> bool {
    !r.quit && r.effects@.len() == 0 && if enable {
        if ok {
            only_toast(r.state, AppState { is_sysproxy_enabled: true, ..s }) && toast_is(
                r.state,
                "System Proxy Enabled"@,
                now,
            )
        } else {
            only_toast(r.state, s) && toast_is(r.state, "Failed to set System Proxy (GSettings)"@, now)
        }
    } else {
        if ok {
            only_toast(r.state, AppState { is_sysproxy_enabled: false, ..s }) && toast_is(
                r.state,
                "System Proxy Disabled"@,
                now,
            )
        } else {
            r.state == s
        }
    }
}

fn on_sysproxy_applied(s: AppState, enable: bool, ok: bool, now: u64) -> (r: Outcome)
    ensures
        sysproxy_applied_post(s, enable, ok, now, r),
{
    if enable {
        if ok {
            outcome(
                AppState {
                    is_sysproxy_enabled: true,
                    toast: Some((string_from("System Proxy Enabled"), now)),
                    ..s
                },
                Vec::new(),
            )
        } else {
            outcome(toast(s, string_from("Failed to set System Proxy (GSettings)"), now), Vec::new())
        }
    } else {
        if ok {
            outcome(
                AppState {
                    is_sysproxy_enabled: false,
                    toast: Some((string_from("System Proxy Disabled"), now)),
                    ..s
                },
                Vec::new(),
            )
        } else {
            outcome(s, Vec::new())
        }
    }
}

/// What asking for the TUN privilege with a password does.
pub open spec fn grant_password_post(s: AppState, pw: Seq<char>, now: u64, r: Outcome) -> bool {
    &&& !r.quit
    &&& only_toast(r.state, AppState { tun: TunPanel { granting: true, ..s.tun }, ..s })
    &&& toast_is(
        r.state,
        if s.tun.privileged {
            "🔐 正在验证 Sudo 密码并撤销 CAP_NET_ADMIN 权限..."@
        } else {
            "🔐 正在验证 Sudo 密码并开启 CAP_NET_ADMIN 权限..."@
        },
        now,
    )
    &&& r.effects@.len() == 1
    &&& r.effects@[0] matches Effect::GrantWithPassword { password, revoke }
    &&& password@ == pw && revoke == s.tun.privileged
}

fn on_grant_password(s: AppState, pw: String, now: u64) -> (r: Outcome)
    ensures
        grant_password_post(s, pw@, now, r),
{
    let revoke = s.tun.privileged;
    let msg = pick(
        revoke,
        "🔐 正在验证 Sudo 密码并撤销 CAP_NET_ADMIN 权限...",
        "🔐 正在验证 Sudo 密码并开启 CAP_NET_ADMIN 权限...",
    );
    let st = AppState { tun: TunPanel { granting: true, ..s.tun }, toast: Some((msg, now)), ..s };
    outcome(st, one(Effect::GrantWithPassword { password: pw, revoke }))
}

/// What the result of a grant with a password or Polkit does: the dialog
/// stops waiting and forgets the password, the screen is cleared, and on
/// success the privilege is probed again; a failure raises a toast.
pub open spec fn grant_result_post(s: AppState, res: Result<(), String>, now: u64, r: Outcome) -> bool {
    let t = TunPanel { granting: false, password: r.state.tun.password, ..s.tun };
    &&& !r.quit
    &&& r.state.tun == t && r.state.tun.password@.len() == 0
    &&& match res {
        Ok(_) => {
            &&& r.state == AppState { tun: r.state.tun, ..s }
            &&& r.effects@.len() == 2
            &&& r.effects@[0] matches Effect::Queue(Action::ClearScreen)
            &&& r.effects@[1] matches Effect::ProbePrivilege { reason } && reason == ProbeReason::AfterGrant
        },
        Err(e) => {
            &&& only_toast(r.state, AppState { tun: r.state.tun, ..s })
            &&& toast_is(r.state, "❌ 操作失败: "@ + e@, now)
            &&& r.effects@.len() == 1
            &&& r.effects@[0] matches Effect::Queue(Action::ClearScreen)
        },
    }
}

fn on_grant_result(s: AppState, res: Result<(), String>, now: u64) -> (r: Outcome)
    ensures
        grant_result_post(s, res, now, r),
{
    let t = TunPanel { granting: false, password: String::new(), ..s.tun };
    let mut effects: Vec<Effect> = Vec::new();
    effects.push(Effect::Queue(Action::ClearScreen));
    match res {
        Ok(_) => {
            effects.push(Effect::ProbePrivilege { reason: ProbeReason::AfterGrant });
            outcome(AppState { tun: t, ..s }, effects)
        },
        Err(e) => {
            let msg = concat_str("❌ 操作失败: ", e.as_str());
            outcome(AppState { tun: t, toast: Some((msg, now)), ..s }, effects)
        },
    }
}

/// What a fresh reading of the privilege does, by why it was taken.
#[verifier::opaque]
pub open spec fn probed_post(s: AppState, reason: ProbeReason, p: bool, now: u64, r: Outcome) -> bool {
    let zh = s.settings.lang@ == "zh"@;
    let stack = s.settings.tun_stack@;
    !r.quit && match reason {
        ProbeReason::ToggleTun => if !p {
            &&& only_toast(r.state, AppState { tun: TunPanel { privileged: false, ..s.tun }, ..s })
            &&& toast_is(
                r.state,
                if zh {
                    "⚠️ 开启 TUN 模式需先完成 CAP_NET_ADMIN 权限授权"@
                } else {
                    "⚠️ TUN mode requires CAP_NET_ADMIN capability authorization"@
                },
                now,
            )
            &&& r.effects@.len() == 1
            &&& r.effects@[0] matches Effect::Queue(Action::ShowTunModal)
        } else {
            &&& only_toast(r.state, AppState { tun: TunPanel { privileged: true, ..s.tun }, ..s })
            &&& toast_is(
                r.state,
                if !s.tun.enabled {
                    if zh {
                        "TUN 虚拟网卡模式已开启"@
                    } else {
                        "TUN Virtual Adapter Mode Enabled"@
                    }
                } else {
                    if zh {
                        "TUN 虚拟网卡模式已关闭"@
                    } else {
                        "TUN Virtual Adapter Mode Disabled"@
                    }
                },
                now,
            )
            &&& r.effects@.len() == 1
            &&& r.effects@[0] matches Effect::SetTun { enable, stack: st, refetch }
            &&& enable == !s.tun.enabled && st@ == stack && refetch
        },
        ProbeReason::AfterGrant => if p {
            &&& only_toast(
                r.state,
                AppState { tun: TunPanel { privileged: true, show_modal: false, ..s.tun }, ..s },
            )
            &&& toast_is(r.state, "🎉 系统权限授权成功 (CAP_NET_ADMIN)"@, now)
            &&& r.effects@.len() == 1
            &&& r.effects@[0] matches Effect::RestartThenEnableTun { stack: st }
            &&& st@ == stack
        } else {
            &&& only_toast(
                r.state,
                AppState {
                    tun: TunPanel { privileged: false, show_modal: false, enabled: false, ..s.tun },
                    ..s
                },
            )
            &&& toast_is(r.state, "🚫 已成功撤销 CAP_NET_ADMIN 系统权限"@, now)
            &&& r.effects@.len() == 1
            &&& r.effects@[0] matches Effect::DisableTunThenRestart { stack: st }
            &&& st@ == stack
        },
        ProbeReason::AfterRevoke { ok } => if !p {
            &&& only_toast(
                r.state,
                AppState { tun: TunPanel { privileged: false, enabled: false, ..s.tun }, ..s },
            )
            &&& toast_is(r.state, "🚫 已成功撤销 CAP_NET_ADMIN 系统权限"@, now)
            &&& r.effects@.len() == 1
            &&& r.effects@[0] matches Effect::DisableTunThenRestart { stack: st }
            &&& st@ == stack
        } else if ok {
            &&& only_toast(r.state, AppState { tun: TunPanel { privileged: true, ..s.tun }, ..s })
            &&& toast_is(r.state, "已成功撤销 CAP_NET_ADMIN 系统权限"@, now)
            &&& r.effects@.len() == 0
        } else {
            &&& only_toast(
                r.state,
                AppState { tun: TunPanel { privileged: true, show_modal: true, ..s.tun }, ..s },
            )
            &&& toast_is(r.state, "⚠️ 请输入 Sudo 密码以完成权限撤销"@, now)
            &&& r.effects@.len() == 0
        },
    }
}

fn on_probed(s: AppState, reason: ProbeReason, p: bool, now: u64) -> (r: Outcome)
    ensures
        probed_post(s, reason, p, now, r),
{
    proof {
        reveal(probed_post);
    }
    let zh = str_eq(s.settings.lang.as_str(), "zh");
    match reason {
        ProbeReason::ToggleTun => {
            if !p {
                let msg = pick(
                    zh,
                    "⚠️ 开启 TUN 模式需先完成 CAP_NET_ADMIN 权限授权",
                    "⚠️ TUN mode requires CAP_NET_ADMIN capability authorization",
                );
                let st = AppState {
                    tun: TunPanel { privileged: false, ..s.tun },
                    toast: Some((msg, now)),
                    ..s
                };
                outcome(st, one(Effect::Queue(Action::ShowTunModal)))
            } else {
                let en = !s.tun.enabled;
                let msg = if en {
                    pick(zh, "TUN 虚拟网卡模式已开启", "TUN Virtual Adapter Mode Enabled")
                } else {
                    pick(zh, "TUN 虚拟网卡模式已关闭", "TUN Virtual Adapter Mode Disabled")
                };
                let stack = s.settings.tun_stack.clone();
                let st = AppState {
                    tun: TunPanel { privileged: true, ..s.tun },
                    toast: Some((msg, now)),
                    ..s
                };
                outcome(st, one(Effect::SetTun { enable: en, stack, refetch: true }))
            }
        },
        ProbeReason::AfterGrant => {
            let stack = s.settings.tun_stack.clone();
            if p {
                let st = AppState {
                    tun: TunPanel { privileged: true, show_modal: false, ..s.tun },
                    toast: Some((string_from("🎉 系统权限授权成功 (CAP_NET_ADMIN)"), now)),
                    ..s
                };
                outcome(st, one(Effect::RestartThenEnableTun { stack }))
            } else {
                let st = AppState {
                    tun: TunPanel { privileged: false, show_modal: false, enabled: false, ..s.tun },
                    toast: Some((string_from("🚫 已成功撤销 CAP_NET_ADMIN 系统权限"), now)),
                    ..s
                };
                outcome(st, one(Effect::DisableTunThenRestart { stack }))
            }
        },
        ProbeReason::AfterRevoke { ok } => {
            if !p {
                let stack = s.settings.tun_stack.clone();
                let st = AppState {
                    tun: TunPanel { privileged: false, enabled: false, ..s.tun },
                    toast: Some((string_from("🚫 已成功撤销 CAP_NET_ADMIN 系统权限"), now)),
                    ..s
                };
                outcome(st, one(Effect::DisableTunThenRestart { stack }))
            } else if ok {
                let st = AppState {
                    tun: TunPanel { privileged: true, ..s.tun },
                    toast: Some((string_from("已成功撤销 CAP_NET_ADMIN 系统权限"), now)),
                    ..s
                };
                outcome(st, Vec::new())
            } else {
                let st = AppState {
                    tun: TunPanel { privileged: true, show_modal: true, ..s.tun },
                    toast: Some((string_from("⚠️ 请输入 Sudo 密码以完成权限撤销"), now)),
                    ..s
                };
                outcome(st, Vec::new())
            }
        },
    }
}

/// What the outcome of writing the settings file does: on success, TUN mode
/// is set again as configured (unless it is on without the privilege) and a
/// toast in the chosen language confirms; a failure raises a toast.
pub open spec fn settings_saved_post(s: AppState, ok: bool, now: u64, r: Outcome) -> bool {
    &&& !r.quit
    &&& only_toast(r.state, s)
    &&& if ok {
        &&& toast_is(
            r.state,
            if s.settings.lang@ == "zh"@ {
                "配置已成功保存至 ~/.config/mimo/config.toml"@
            } else {
                "Settings saved to ~/.config/mimo/config.toml"@
            },
            now,
        )
        &&& if s.tun.privileged || !s.tun.enabled {
            &&& r.effects@.len() == 1
            &&& r.effects@[0] matches Effect::SetTun { enable, stack, refetch }
            &&& enable == s.tun.enabled && stack@ == s.settings.tun_stack@ && !refetch
        } else {
            r.effects@.len() == 0
        }
    } else {
        toast_is(r.state, "Failed to save config file"@, now) && r.effects@.len() == 0
    }
}

fn on_settings_saved(s: AppState, ok: bool, now: u64) -> (r: Outcome)
    ensures
        settings_saved_post(s, ok, now, r),
{
    if ok {
        let msg = pick(
            str_eq(s.settings.lang.as_str(), "zh"),
            "配置已成功保存至 ~/.config/mimo/config.toml",
            "Settings saved to ~/.config/mimo/config.toml",
        );
        let effects = if s.tun.privileged || !s.tun.enabled {
            one(
                Effect::SetTun {
                    enable: s.tun.enabled,
                    stack: s.settings.tun_stack.clone(),
                    refetch: false,
                },
            )
        } else {
            Vec::new()
        };
        outcome(toast(s, msg, now), effects)
    } else {
        outcome(toast(s, string_from("Failed to save config file"), now), Vec::new())
    }
}

// ---------------------------------------------------------------------------
// One step
// ---------------------------------------------------------------------------

/// The toast and one piece of work.
pub open spec fn toast_and(s: AppState, r: Outcome, msg: Seq<char>, now: u64, f: spec_fn(Effect) -> bool) -> bool {
    !r.quit && only_toast(r.state, s) && toast_is(r.state, msg, now) && r.effects@.len() == 1 && f(
        r.effects@[0],
    )
}

/// Actions that are input or data: keys, clicks, ticks, replies of the core and fresh metrics.
pub open spec fn is_input_or_data(a: Action) -> bool {
    match a {
        Action::Quit | Action::Tick | Action::Key(..) | Action::Mouse(..) | Action::VersionFetched(..) | Action::ConfigFetched(..) | Action::ProxiesFetched(..) | Action::RulesFetched(..) | Action::ConnectionsFetched(..) | Action::OutboundIpFetched(..) | Action::TrafficReceived(..) | Action::LogReceived(..) | Action::LatencyResult { .. } | Action::SiteLatencyResult { .. } | Action::SystemRefreshed { .. } | Action::SetLogFilter(..) | Action::ClearLogs => true,
        _ => false,
    }
}

fn is_input_or_data_exec(a: &Action) -> (r: bool)
    ensures
        r == is_input_or_data(*a),
{
    match a {
        Action::Quit | Action::Tick | Action::Key(..) | Action::Mouse(..) | Action::VersionFetched(..) | Action::ConfigFetched(..) | Action::ProxiesFetched(..) | Action::RulesFetched(..) | Action::ConnectionsFetched(..) | Action::OutboundIpFetched(..) | Action::TrafficReceived(..) | Action::LogReceived(..) | Action::LatencyResult { .. } | Action::SiteLatencyResult { .. } | Action::SystemRefreshed { .. } | Action::SetLogFilter(..) | Action::ClearLogs => true,
        _ => false,
    }
}

/// Actions about the system proxy and TUN mode.
pub open spec fn is_proxy_or_tun(a: Action) -> bool {
    match a {
        Action::ToggleSystemProxy | Action::SysProxyApplied { .. } | Action::ShowTunModal | Action::HideTunModal | Action::GrantTunPrivilegeWithPassword(..) | Action::GrantTunPrivilegePkexec | Action::TunPrivilegeResult(..) | Action::RevokeTunPrivilege | Action::RevokeTunPrivilegeResult(..) | Action::ToggleTunMode | Action::PrivilegeProbed { .. } => true,
        _ => false,
    }
}

fn is_proxy_or_tun_exec(a: &Action) -> (r: bool)
    ensures
        r == is_proxy_or_tun(*a),
{
    match a {
        Action::ToggleSystemProxy | Action::SysProxyApplied { .. } | Action::ShowTunModal | Action::HideTunModal | Action::GrantTunPrivilegeWithPassword(..) | Action::GrantTunPrivilegePkexec | Action::TunPrivilegeResult(..) | Action::RevokeTunPrivilege | Action::RevokeTunPrivilegeResult(..) | Action::ToggleTunMode | Action::PrivilegeProbed { .. } => true,
        _ => false,
    }
}

/// What an input or data action does.
#[verifier::opaque]
pub open spec fn input_step_post(s: AppState, action: Action, now: u64, r: Outcome) -> bool {
    match action {
        Action::Quit => r.quit && r.state == s && r.effects@.len() == 0,
        Action::Tick => {
            &&& r.state == s && !r.quit
            &&& r.effects@.len() == if s.active_tab == Tab::Connections { 3int } else { 2int }
            &&& r.effects@[0] matches Effect::RefreshSystem
            &&& r.effects@[1] matches Effect::FetchProxies
            &&& s.active_tab == Tab::Connections ==> r.effects@[2] matches Effect::FetchConnections
        },
        Action::Key(k) => key_post(s, k, now, r),
        Action::Mouse(m) => mouse_post(s, m, now, r),
        Action::VersionFetched(res) => unchanged(
            match res {
                Ok(v) => AppState { version: Some(v), ..s },
                Err(e) => AppState { status_error: Some(e), ..s },
            },
            r,
        ),
        Action::ConfigFetched(res) => unchanged(
            match res {
                Ok(c) => AppState {
                    tun: TunPanel {
                        enabled: match c.tun {
                            Some(t) => t.enable,
                            None => s.tun.enabled,
                        },
                        ..s.tun
                    },
                    config: Some(c),
                    ..s
                },
                Err(e) => AppState { status_error: Some(e), ..s },
            },
            r,
        ),
        Action::ProxiesFetched(res) => match res {
            Ok(p) => !r.quit && r.effects@.len() == 0 && r.state == AppState {
                proxy_groups: r.state.proxy_groups,
                proxies_resp: Some(p),
                ..s
            } && r.state.proxy_groups@ == listed_groups(p.proxies@),
            Err(e) => unchanged(AppState { status_error: Some(e), ..s }, r),
        },
        Action::RulesFetched(res) => unchanged(
            match res {
                Ok(p) => AppState {
                    selected_rule_idx: clamp_index(s.selected_rule_idx, p.rules@.len()),
                    rules_resp: Some(p),
                    ..s
                },
                Err(e) => AppState { status_error: Some(e), ..s },
            },
            r,
        ),
        Action::ConnectionsFetched(res) => unchanged(
            match res {
                Ok(p) => AppState {
                    selected_conn_idx: clamp_index(s.selected_conn_idx, p.connections@.len()),
                    connections_resp: Some(p),
                    ..s
                },
                Err(e) => AppState { status_error: Some(e), ..s },
            },
            r,
        ),
        Action::OutboundIpFetched(res) => unchanged(
            match res {
                Ok(ip) => AppState { outbound_ip: Some(ip), ..s },
                Err(_) => s,
            },
            r,
        ),
        Action::TrafficReceived(m) => !r.quit && r.effects@.len() == 0 && r.state == AppState {
            current_traffic: m,
            up_history: r.state.up_history,
            down_history: r.state.down_history,
            ..s
        } && r.state.up_history@ == capped_push(s.up_history@, m.up, HISTORY_LEN as nat)
            && r.state.down_history@ == capped_push(s.down_history@, m.down, HISTORY_LEN as nat),
        Action::LogReceived(l) => !r.quit && r.effects@.len() == 0 && r.state == AppState {
            logs: r.state.logs,
            ..s
        } && r.state.logs@ == capped_push(s.logs@, l, LOG_CAP as nat),
        Action::LatencyResult { node, result } => !r.quit && r.effects@.len() == 0 && r.state
            == AppState { latency_map: r.state.latency_map, ..s } && latencies_view(
            r.state.latency_map@,
        ) == table_insert(latencies_view(s.latency_map@), node@, test_value(result)),
        Action::SiteLatencyResult { site, result } => !r.quit && r.effects@.len() == 0 && r.state
            == AppState { site_latencies: r.state.site_latencies, ..s } && latencies_view(
            r.state.site_latencies@,
        ) == table_insert(latencies_view(s.site_latencies@), site@, test_value(result)),
        Action::SystemRefreshed { memory_used, memory_total, privileged, interface, interface_up } => unchanged(
            AppState {
                memory_used_bytes: memory_used,
                memory_total_bytes: memory_total,
                tun: TunPanel {
                    privileged: privileged,
                    interface_name: interface,
                    interface_up: interface_up,
                    ..s.tun
                },
                ..s
            },
            r,
        ),
        Action::SetLogFilter(f) => unchanged(AppState { log_filter: f, ..s }, r),
        Action::ClearLogs => !r.quit && r.effects@.len() == 0 && only_toast(
            r.state,
            AppState { logs: r.state.logs, ..s },
        ) && r.state.logs@.len() == 0 && toast_is(r.state, "Log buffer cleared"@, now),
        _ => unchanged(s, r),
    }
}

/// What a system proxy or TUN action does.
#[verifier::opaque]
pub open spec fn tun_step_post(s: AppState, action: Action, now: u64, r: Outcome) -> bool {
    match action {
        Action::ToggleSystemProxy => just_effect(
            s,
            r,
            |e: Effect|
                e matches Effect::SetSystemProxy { enable, http_port, socks_port } && enable
                    == !s.is_sysproxy_enabled && http_port == sysproxy_http_port(s) && socks_port
                    == sysproxy_socks_port(s),
        ),
        Action::SysProxyApplied { enable, ok } => sysproxy_applied_post(s, enable, ok, now, r),
        Action::ShowTunModal => !r.quit && r.effects@.len() == 0 && r.state == AppState {
            active_tab: Tab::Privileges,
            focus_zone: FocusZone::Workspace,
            tun: TunPanel { show_modal: true, input_focus: 0, password: r.state.tun.password, ..s.tun },
            ..s
        } && r.state.tun.password@.len() == 0,
        Action::HideTunModal => !r.quit && r.effects@.len() == 0 && r.state == AppState {
            tun: TunPanel { show_modal: false, granting: false, password: r.state.tun.password, ..s.tun },
            ..s
        } && r.state.tun.password@.len() == 0,
        Action::GrantTunPrivilegeWithPassword(pw) => grant_password_post(s, pw@, now, r),
        Action::GrantTunPrivilegePkexec => toast_and(
            AppState { tun: TunPanel { granting: true, ..s.tun }, ..s },
            r,
            "🔐 正在尝试唤起 Linux Polkit GUI 系统窗口..."@,
            now,
            |e: Effect| e matches Effect::GrantPkexec,
        ),
        Action::TunPrivilegeResult(res) => grant_result_post(s, res, now, r),
        Action::RevokeTunPrivilege => toast_and(
            s,
            r,
            "🚫 正在撤销 CAP_NET_ADMIN 系统权限..."@,
            now,
            |e: Effect| e matches Effect::RevokePrivilege,
        ),
        Action::RevokeTunPrivilegeResult(res) => {
            &&& r.state == s && !r.quit && r.effects@.len() == 2
            &&& r.effects@[0] matches Effect::Queue(Action::ClearScreen)
            &&& r.effects@[1] matches Effect::ProbePrivilege { reason }
            &&& reason == (ProbeReason::AfterRevoke { ok: res is Ok })
        },
        Action::ToggleTunMode => {
            &&& r.state == s && !r.quit && r.effects@.len() == 2
            &&& r.effects@[0] matches Effect::Queue(Action::ClearScreen)
            &&& r.effects@[1] matches Effect::ProbePrivilege { reason }
            &&& reason == ProbeReason::ToggleTun
        },
        Action::PrivilegeProbed { reason, privileged } => probed_post(s, reason, privileged, now, r),
        _ => unchanged(s, r),
    }
}

/// What the remaining actions do: profiles, the core, fetches and tests.
#[verifier::opaque]
pub open spec fn other_step_post(s: AppState, action: Action, now: u64, r: Outcome) -> bool {
    match action {
        Action::ProfilesFetched(res) => profiles_fetched_post(s, res, now, r),
        Action::AddProfile { name, url } => toast_and(
            s,
            r,
            "Downloading profile '"@ + name@ + "'..."@,
            now,
            |e: Effect| e matches Effect::DownloadProfile { name: n, url: u } && n@ == name@ && u@ == url@,
        ),
        Action::UpdateProfile(name) => just_effect(
            s,
            r,
            |e: Effect| e matches Effect::ActivateProfileFile { name: n } && n@ == name@,
        ),
        Action::DeleteProfile(name) => {
            &&& !r.quit && only_toast(r.state, s)
            &&& toast_is(r.state, "Deleted profile '"@ + name@ + "'"@, now)
            &&& r.effects@.len() == 2
            &&& r.effects@[0] matches Effect::DeleteProfileFiles { name: n }
            &&& n@ == name@
            &&& r.effects@[1] matches Effect::FetchProfiles
        },
        Action::CloseAllConnections => toast_and(
            s,
            r,
            "Closing all connections..."@,
            now,
            |e: Effect| e matches Effect::CloseAllConnections,
        ),
        Action::FetchProfiles => just_effect(s, r, |e: Effect| e matches Effect::FetchProfiles),
        Action::FetchProxies => just_effect(s, r, |e: Effect| e matches Effect::FetchProxies),
        Action::FetchConnections => just_effect(s, r, |e: Effect| e matches Effect::FetchConnections),
        Action::FetchConfig => just_effect(s, r, |e: Effect| e matches Effect::FetchConfig),
        Action::FetchVersion => just_effect(s, r, |e: Effect| e matches Effect::FetchVersion),
        Action::FetchOutboundIp => just_effect(
            s,
            r,
            |e: Effect| e matches Effect::FetchOutboundIp { port } && port == Some(proxy_port(s)),
        ),
        Action::TestSiteLatencies => test_sites_post(s, now, r),
        Action::DownloadCore => toast_and(
            s,
            r,
            "正在自动为您下载与安装 Mihomo 核心..."@,
            now,
            |e: Effect| e matches Effect::DownloadCore,
        ),
        Action::DownloadCoreResult(res) => match res {
            Ok(path) => {
                &&& !r.quit && only_toast(r.state, AppState { status_error: None, ..s })
                &&& toast_is(r.state, "🎉 Mihomo 核心自动安装成功: "@ + path@, now)
                &&& r.effects@.len() == 2
                &&& r.effects@[0] matches Effect::FetchProfiles
                &&& r.effects@[1] matches Effect::FetchVersion
            },
            Err(e) => !r.quit && r.effects@.len() == 0 && only_toast(r.state, s) && toast_is(
                r.state,
                "❌ Mihomo 自动下载失败: "@ + e@,
                now,
            ),
        },
        Action::SaveSettings => just_effect(s, r, |e: Effect| e matches Effect::SaveConfig),
        Action::SettingsSaved { ok } => settings_saved_post(s, ok, now, r),
        Action::RestartCore => toast_and(
            s,
            r,
            "Restarting Mihomo Core..."@,
            now,
            |e: Effect| e matches Effect::RestartCore,
        ),
        Action::ActiveProfileLoaded { parsed, file_path } => profile_loaded_post(s, parsed, file_path, r),
        Action::CoreProbed { running, binary_found, file_path } => core_probed_post(
            s,
            running,
            binary_found,
            file_path,
            r,
        ),
        Action::ConnectionClosed => toast_and(
            s,
            r,
            "Closed connection"@,
            now,
            |e: Effect| e matches Effect::FetchConnections,
        ),
        Action::ModeSwitched { ok } => if ok {
            just_effect(s, r, |e: Effect| e matches Effect::FetchConfig)
        } else {
            unchanged(s, r)
        },
        _ => unchanged(s, r),
    }
}

/// What one action does to the state `s` (its toast already expired or not
/// at time `now`), whether the interface quits, and the work it asks for.
pub open spec fn step_post(s: AppState, action: Action, now: u64, r: Outcome) -> bool {
    if is_input_or_data(action) {
        input_step_post(s, action, now, r)
    } else if is_proxy_or_tun(action) {
        tun_step_post(s, action, now, r)
    } else {
        other_step_post(s, action, now, r)
    }
}

pub(crate) fn two(a: Effect, b: Effect) -> (r: Vec<Effect>)
    ensures
        r@ == seq![a, b],
{
    let mut v: Vec<Effect> = Vec::new();
    v.push(a);
    v.push(b);
    v
}

fn input_step(s: AppState, action: Action, now: u64) -> (r: Outcome)
    ensures
        input_step_post(s, action, now, r),
{
    proof {
        reveal(input_step_post);
    }
    match action {
        Action::Quit => Outcome { state: s, quit: true, effects: Vec::new() },
        Action::Tick => {
            let mut effects = two(Effect::RefreshSystem, Effect::FetchProxies);
            if s.active_tab == Tab::Connections {
                effects.push(Effect::FetchConnections);
            }
            outcome(s, effects)
        },
        Action::Key(k) => on_key(s, k, now),
        Action::Mouse(m) => on_mouse(s, m, now),
        Action::VersionFetched(res) => outcome(on_version(s, res), Vec::new()),
        Action::ConfigFetched(res) => outcome(on_config(s, res), Vec::new()),
        Action::ProxiesFetched(res) => outcome(on_proxies(s, res), Vec::new()),
        Action::RulesFetched(res) => outcome(on_rules(s, res), Vec::new()),
        Action::ConnectionsFetched(res) => outcome(on_connections(s, res), Vec::new()),
        Action::OutboundIpFetched(res) => match res {
            Ok(ip) => outcome(AppState { outbound_ip: Some(ip), ..s }, Vec::new()),
            Err(_) => outcome(s, Vec::new()),
        },
        Action::TrafficReceived(m) => outcome(on_traffic(s, m), Vec::new()),
        Action::LogReceived(l) => outcome(on_log(s, l), Vec::new()),
        Action::LatencyResult { node, result } => outcome(on_latency(s, node, result), Vec::new()),
        Action::SiteLatencyResult { site, result } => outcome(on_site_latency(s, site, result), Vec::new()),
        Action::SystemRefreshed { memory_used, memory_total, privileged, interface, interface_up } => outcome(
            AppState {
                memory_used_bytes: memory_used,
                memory_total_bytes: memory_total,
                tun: TunPanel {
                    privileged: privileged,
                    interface_name: interface,
                    interface_up: interface_up,
                    ..s.tun
                },
                ..s
            },
            Vec::new(),
        ),
        Action::SetLogFilter(f) => outcome(AppState { log_filter: f, ..s }, Vec::new()),
        Action::ClearLogs => outcome(
            AppState { logs: Vec::new(), toast: Some((string_from("Log buffer cleared"), now)), ..s },
            Vec::new(),
        ),
        _ => outcome(s, Vec::new()),
    }
}

fn tun_step(s: AppState, action: Action, now: u64) -> (r: Outcome)
    ensures
        tun_step_post(s, action, now, r),
{
    proof {
        reveal(tun_step_post);
    }
    match action {
        Action::ToggleSystemProxy => on_toggle_sysproxy(s),
        Action::SysProxyApplied { enable, ok } => on_sysproxy_applied(s, enable, ok, now),
        Action::ShowTunModal => outcome(
            AppState {
                active_tab: Tab::Privileges,
                focus_zone: FocusZone::Workspace,
                tun: TunPanel { show_modal: true, input_focus: 0, password: String::new(), ..s.tun },
                ..s
            },
            Vec::new(),
        ),
        Action::HideTunModal => outcome(
            AppState {
                tun: TunPanel { show_modal: false, granting: false, password: String::new(), ..s.tun },
                ..s
            },
            Vec::new(),
        ),
        Action::GrantTunPrivilegeWithPassword(pw) => on_grant_password(s, pw, now),
        Action::GrantTunPrivilegePkexec => outcome(
            AppState {
                tun: TunPanel { granting: true, ..s.tun },
                toast: Some((string_from("🔐 正在尝试唤起 Linux Polkit GUI 系统窗口..."), now)),
                ..s
            },
            one(Effect::GrantPkexec),
        ),
        Action::TunPrivilegeResult(res) => on_grant_result(s, res, now),
        Action::RevokeTunPrivilege => outcome(
            toast(s, string_from("🚫 正在撤销 CAP_NET_ADMIN 系统权限..."), now),
            one(Effect::RevokePrivilege),
        ),
        Action::RevokeTunPrivilegeResult(res) => {
            let ok = res.is_ok();
            outcome(
                s,
                two(
                    Effect::Queue(Action::ClearScreen),
                    Effect::ProbePrivilege { reason: ProbeReason::AfterRevoke { ok } },
                ),
            )
        },
        Action::ToggleTunMode => outcome(
            s,
            two(
                Effect::Queue(Action::ClearScreen),
                Effect::ProbePrivilege { reason: ProbeReason::ToggleTun },
            ),
        ),
        Action::PrivilegeProbed { reason, privileged } => on_probed(s, reason, privileged, now),
        _ => outcome(s, Vec::new()),
    }
}

fn other_step(s: AppState, action: Action, now: u64) -> (r: Outcome)
    ensures
        other_step_post(s, action, now, r),
{
    proof {
        reveal(other_step_post);
    }
    match action {
        Action::ProfilesFetched(res) => on_profiles_fetched(s, res, now),
        Action::AddProfile { name, url } => {
            let msg = concat3("Downloading profile '", name.as_str(), "'...");
            outcome(toast(s, msg, now), one(Effect::DownloadProfile { name, url }))
        },
        Action::UpdateProfile(name) => outcome(s, one(Effect::ActivateProfileFile { name })),
        Action::DeleteProfile(name) => {
            let msg = concat3("Deleted profile '", name.as_str(), "'");
            outcome(toast(s, msg, now), two(Effect::DeleteProfileFiles { name }, Effect::FetchProfiles))
        },
        Action::CloseAllConnections => outcome(
            toast(s, string_from("Closing all connections..."), now),
            one(Effect::CloseAllConnections),
        ),
        Action::FetchProfiles => outcome(s, one(Effect::FetchProfiles)),
        Action::FetchProxies => outcome(s, one(Effect::FetchProxies)),
        Action::FetchConnections => outcome(s, one(Effect::FetchConnections)),
        Action::FetchConfig => outcome(s, one(Effect::FetchConfig)),
        Action::FetchVersion => outcome(s, one(Effect::FetchVersion)),
        Action::FetchOutboundIp => {
            let port = local_proxy_port(&s);
            outcome(s, one(Effect::FetchOutboundIp { port: Some(port) }))
        },
        Action::TestSiteLatencies => test_all_sites_latency(s, now),
        Action::DownloadCore => outcome(
            toast(s, string_from("正在自动为您下载与安装 Mihomo 核心..."), now),
            one(Effect::DownloadCore),
        ),
        Action::DownloadCoreResult(res) => match res {
            Ok(path) => {
                let msg = concat_str("🎉 Mihomo 核心自动安装成功: ", path.as_str());
                outcome(
                    AppState { status_error: None, toast: Some((msg, now)), ..s },
                    two(Effect::FetchProfiles, Effect::FetchVersion),
                )
            },
            Err(e) => {
                let msg = concat_str("❌ Mihomo 自动下载失败: ", e.as_str());
                outcome(toast(s, msg, now), Vec::new())
            },
        },
        Action::SaveSettings => outcome(s, one(Effect::SaveConfig)),
        Action::SettingsSaved { ok } => on_settings_saved(s, ok, now),
        Action::RestartCore => outcome(
            toast(s, string_from("Restarting Mihomo Core..."), now),
            one(Effect::RestartCore),
        ),
        Action::ActiveProfileLoaded { parsed, file_path } => on_profile_loaded(s, parsed, file_path),
        Action::CoreProbed { running, binary_found, file_path } => on_core_probed(
            s,
            running,
            binary_found,
            file_path,
        ),
        Action::ConnectionClosed => outcome(
            toast(s, string_from("Closed connection"), now),
            one(Effect::FetchConnections),
        ),
        Action::ModeSwitched { ok } => if ok {
            outcome(s, one(Effect::FetchConfig))
        } else {
            outcome(s, Vec::new())
        },
        _ => outcome(s, Vec::new()),
    }
}

fn step(s: AppState, action: Action, now: u64) -> (r: Outcome)
    ensures
        step_post(s, action, now, r),
{
    if is_input_or_data_exec(&action) {
        input_step(s, action, now)
    } else if is_proxy_or_tun_exec(&action) {
        tun_step(s, action, now)
    } else {
        other_step(s, action, now)
    }
}

/// One step of the interface at time `now` (milliseconds): the toast
/// expires once older than its lifetime, then the action applies as
/// `step_post` states.
pub fn update(s: AppState, action: Action, now: u64) -> (r: Outcome)
    ensures
        step_post(AppState { toast: toast_after(s.toast, now), ..s }, action, now, r),
{
    let mut st = s;
    st.check_toast_expiration(now);
    step(st, action, now)
}

// ---------------------------------------------------------------------------
// Laws
// ---------------------------------------------------------------------------

/// Moving the selection never leaves the current list: when the list is not
/// empty, the new selection is one of its rows; the settings focus stays
/// within its first twelve fields and the log scroll within the log.
pub proof fn lemma_moved_in_range(s: AppState, delta: int)
    ensures
        s.active_tab == Tab::Proxies && s.proxy_sub_focus == ProxySubFocus::Groups && s.proxy_groups@.len() > 0
            ==> moved(s, delta).selected_group_idx < s.proxy_groups@.len() && moved(s, delta).selected_node_idx == 0,
        s.active_tab == Tab::Proxies && s.proxy_sub_focus == ProxySubFocus::Nodes && spec_filtered_group_nodes(s).len() > 0
            ==> moved(s, delta).selected_node_idx < spec_filtered_group_nodes(s).len(),
        s.active_tab == Tab::Profiles && s.profiles@.len() > 0 ==> moved(s, delta).selected_profile_idx
            < s.profiles@.len(),
        s.active_tab == Tab::Rules && s.rules_resp is Some && s.rules_resp.unwrap().rules@.len() > 0
            ==> moved(s, delta).selected_rule_idx < s.rules_resp.unwrap().rules@.len(),
        s.active_tab == Tab::Connections && spec_filtered_sorted_connections(s).len() > 0 ==> moved(
            s,
            delta,
        ).selected_conn_idx < spec_filtered_sorted_connections(s).len(),
        s.active_tab == Tab::Logs ==> moved(s, delta).log_scroll == 0 || moved(s, delta).log_scroll
            < s.logs@.len(),
        s.active_tab == Tab::Settings ==> moved(s, delta).settings.focus <= 11,
{
}

/// One step down a non-empty list selects the next row unless the selection
/// is already on the last one, where it stays; one step up selects the previous
/// row unless it is on the first one, where it stays. This holds for the group
/// and node lists of the proxies view, the profiles, the rules and the
/// connections.
pub proof fn lemma_step_moves_by_one(s: AppState)
    ensures
        s.active_tab == Tab::Profiles && s.selected_profile_idx + 1 < s.profiles@.len()
            ==> moved(s, 1).selected_profile_idx == s.selected_profile_idx + 1,
        s.active_tab == Tab::Profiles && 0 < s.selected_profile_idx < s.profiles@.len()
            ==> moved(s, -1).selected_profile_idx == s.selected_profile_idx - 1,
        s.active_tab == Tab::Profiles && s.profiles@.len() > 0 && s.selected_profile_idx + 1
            == s.profiles@.len() ==> moved(s, 1).selected_profile_idx == s.selected_profile_idx,
        s.active_tab == Tab::Profiles && s.profiles@.len() > 0 && s.selected_profile_idx == 0
            ==> moved(s, -1).selected_profile_idx == 0,
        s.active_tab == Tab::Proxies && s.proxy_sub_focus == ProxySubFocus::Groups
            && s.selected_group_idx + 1 < s.proxy_groups@.len() ==> moved(s, 1).selected_group_idx
            == s.selected_group_idx + 1,
        s.active_tab == Tab::Proxies && s.proxy_sub_focus == ProxySubFocus::Groups && 0
            < s.selected_group_idx < s.proxy_groups@.len() ==> moved(s, -1).selected_group_idx
            == s.selected_group_idx - 1,
        s.active_tab == Tab::Proxies && s.proxy_sub_focus == ProxySubFocus::Nodes
            && s.selected_node_idx < usize::MAX && s.selected_node_idx + 1
            < spec_filtered_group_nodes(s).len() ==> moved(
            s,
            1,
        ).selected_node_idx == s.selected_node_idx + 1,
        s.active_tab == Tab::Proxies && s.proxy_sub_focus == ProxySubFocus::Nodes && 0
            < s.selected_node_idx < spec_filtered_group_nodes(s).len() ==> moved(
            s,
            -1,
        ).selected_node_idx == s.selected_node_idx - 1,
        s.active_tab == Tab::Rules && s.rules_resp is Some && s.selected_rule_idx + 1
            < s.rules_resp.unwrap().rules@.len() ==> moved(s, 1).selected_rule_idx
            == s.selected_rule_idx + 1,
        s.active_tab == Tab::Rules && s.rules_resp is Some && 0 < s.selected_rule_idx
            < s.rules_resp.unwrap().rules@.len() ==> moved(s, -1).selected_rule_idx
            == s.selected_rule_idx - 1,
        s.active_tab == Tab::Connections && s.selected_conn_idx < usize::MAX
            && s.selected_conn_idx + 1 < spec_filtered_sorted_connections(s).len() ==> moved(s, 1).selected_conn_idx
            == s.selected_conn_idx + 1,
        s.active_tab == Tab::Connections && 0 < s.selected_conn_idx
            < spec_filtered_sorted_connections(s).len() ==> moved(s, -1).selected_conn_idx
            == s.selected_conn_idx - 1,
{
    assert(s.profiles.len() == s.profiles@.len());
    assert(s.proxy_groups.len() == s.proxy_groups@.len());
    if s.rules_resp is Some {
        assert(s.rules_resp.unwrap().rules.len() == s.rules_resp.unwrap().rules@.len());
    }
}

/// On the profiles view, with the workspace focused and nothing open over it,
/// `Down` or `j` selects the next profile and `Up` or `k` the previous one,
/// stopping at the ends of the list; the key does nothing else.
pub proof fn lemma_profile_keys_move(s: AppState, code: KeyCode, now: u64, r: Outcome)
    requires
        key_post(s, KeyEvent { code, ctrl: false }, now, r),
        s.active_tab == Tab::Profiles,
        s.focus_zone == FocusZone::Workspace,
        !s.is_searching && !s.profile_input.show && !s.show_help && !s.tun.show_modal,
        s.selected_profile_idx < s.profiles@.len(),
        code is Down || code == KeyCode::Char('j') || code is Up || code == KeyCode::Char('k'),
    ensures
        !r.quit,
        r.effects@.len() == 0,
        r.state == (AppState { selected_profile_idx: r.state.selected_profile_idx, ..s }),
        (code is Down || code == KeyCode::Char('j')) ==> r.state.selected_profile_idx == if s.selected_profile_idx
            + 1 < s.profiles@.len() {
            s.selected_profile_idx + 1
        } else {
            s.selected_profile_idx as int
        },
        (code is Up || code == KeyCode::Char('k')) ==> r.state.selected_profile_idx == if s.selected_profile_idx
            > 0 {
            s.selected_profile_idx - 1
        } else {
            0
        },
{
    reveal(key_post);
    reveal(global_key_post);
    reveal(pane_key_post);
    reveal(nav_key_post);
    lemma_step_moves_by_one(s);
}

/// Replacing a list keeps the selection inside it: after a reply with a
/// non-empty list the selection is one of its rows.
pub proof fn lemma_clamp_index(idx: usize, len: nat)
    ensures
        len > 0 ==> clamp_index(idx, len) < len,
        idx < len ==> clamp_index(idx, len) == idx,
{
}

/// Traffic samples keep both histories at their length bound and end with
/// the latest sample; log lines keep the log at its bound and end with the
/// latest line.
pub proof fn lemma_histories_bounded(s: AppState, a: Action, now: u64, r: Outcome)
    requires
        step_post(s, a, now, r),
        s.up_history@.len() <= HISTORY_LEN,
        s.down_history@.len() <= HISTORY_LEN,
        s.logs@.len() <= LOG_CAP,
        a is TrafficReceived || a is LogReceived,
    ensures
        r.state.up_history@.len() <= HISTORY_LEN,
        r.state.down_history@.len() <= HISTORY_LEN,
        r.state.logs@.len() <= LOG_CAP,
        a matches Action::TrafficReceived(m) ==> r.state.up_history@.last() == m.up
            && r.state.down_history@.last() == m.down && r.state.current_traffic == m,
        a matches Action::LogReceived(l) ==> r.state.logs@.last() == l,
{
    reveal(input_step_post);
    match a {
        Action::TrafficReceived(m) => {
            lemma_capped_push_bound(s.up_history@, m.up, HISTORY_LEN as nat);
            lemma_capped_push_bound(s.down_history@, m.down, HISTORY_LEN as nat);
        },
        Action::LogReceived(l) => {
            lemma_capped_push_bound(s.logs@, l, LOG_CAP as nat);
        },
        _ => {},
    }
}

/// A latency result is what the table then gives for that node: its delay on
/// success, nothing on failure; other nodes keep theirs.
pub proof fn lemma_latency_recorded(s: AppState, node: String, result: Result<u16, String>, now: u64, r: Outcome, other: Seq<char>)
    requires
        step_post(s, Action::LatencyResult { node, result }, now, r),
        other != node@,
    ensures
        crate::state::measured_delay(r.state.latency_map@, node@) == test_value(result),
        crate::state::measured_delay(r.state.latency_map@, other) == crate::state::measured_delay(
            s.latency_map@,
            other,
        ),
{
    reveal(input_step_post);
    let m0 = latencies_view(s.latency_map@);
    let m1 = latencies_view(r.state.latency_map@);
    lemma_table_insert(m0, node@, test_value(result), other);
    lemma_first_key_views(r.state.latency_map@, node@);
    lemma_first_key_views(r.state.latency_map@, other);
    lemma_first_key_views(s.latency_map@, other);
    crate::models::lemma_entry_index(r.state.latency_map@, node@);
    crate::models::lemma_entry_index(r.state.latency_map@, other);
    crate::models::lemma_entry_index(s.latency_map@, other);
    match crate::models::entry_index(r.state.latency_map@, node@) {
        Some(i) => {
            assert(m1[i].1 == r.state.latency_map@[i].1);
        },
        None => {},
    }
    match crate::models::entry_index(r.state.latency_map@, other) {
        Some(i) => {
            assert(m1[i].1 == r.state.latency_map@[i].1);
            let j = crate::models::entry_index(s.latency_map@, other).unwrap();
            assert(i == j);
            lemma_first_key(m0, node@);
            match first_key(m0, node@) {
                Some(k) => {
                    assert(m0[k].0 == node@);
                    assert(m0[i].0 == other);
                    assert(i != k);
                },
                None => {},
            }
            assert(m1[i] == m0[i]);
            assert(m0[j].1 == s.latency_map@[j].1);
        },
        None => {},
    }
}

/// Whatever key the settings view gets, the edited field stays one of its
/// twenty fields.
pub proof fn lemma_settings_focus_bounded(g: SettingsForm, code: KeyCode, r: FormOutcome)
    requires
        form_key_post(g, code, r),
        g.focus < 20,
    ensures
        r.form.focus < 20,
{
    reveal(form_key_post);
    reveal(space_post);
    reveal(backspace_post);
    reveal(char_post);
}

/// Ctrl+C always quits, and `q` quits when no dialog, overlay or search bar
/// takes the key.
pub proof fn lemma_quit_keys(s: AppState, now: u64, r: Outcome)
    ensures
        key_post(s, KeyEvent { code: KeyCode::Char('c'), ctrl: true }, now, r) ==> r.quit,
        key_post(s, KeyEvent { code: KeyCode::Char('q'), ctrl: false }, now, r) && !s.is_searching
            && !s.profile_input.show && !s.show_help && !s.tun.show_modal ==> r.quit,
{
    reveal(key_post);
    reveal(global_key_post);
}

/// No action but a quitting key (or `Quit`) ends the interface.
pub proof fn lemma_only_quit_quits(s: AppState, a: Action, now: u64, r: Outcome)
    requires
        step_post(s, a, now, r),
        r.quit,
    ensures
        a is Quit || a is Key,
{
    reveal(input_step_post);
    reveal(tun_step_post);
    reveal(other_step_post);
    reveal(mouse_post);
    reveal(view_click_post);
    reveal(test_sites_post);
    reveal(confirm_post);
    reveal(action_key_post);
    reveal(test_group_post);
    reveal(test_node_post);
    reveal(close_conn_post);
    reveal(profiles_fetched_post);
    reveal(profile_loaded_post);
    reveal(probed_post);
}

/// Ten presses of Tab (outside the settings, with nothing else open) return
/// to the same view.
pub proof fn lemma_tab_key_cycles(s: AppState, now: u64, r: Outcome)
    requires
        key_post(s, KeyEvent { code: KeyCode::Tab, ctrl: false }, now, r),
        !s.is_searching && !s.profile_input.show && !s.show_help && !s.tun.show_modal,
        s.active_tab != Tab::Settings,
    ensures
        r.state.active_tab == tab_next(s.active_tab),
        r.state == (AppState { active_tab: tab_next(s.active_tab), ..s }),
{
    reveal(key_post);
    reveal(global_key_post);
}


/// The node orderings form a cycle of three: `o` pressed three times comes
/// back to the ordering one started with, and each press changes it.
pub proof fn lemma_node_sort_cycles(k: NodeSort)
    ensures
        next_node_sort(next_node_sort(next_node_sort(k))) == k,
        next_node_sort(k) != k,
{
}


/// The four theme presets form a cycle: choosing the next theme four times
/// (four clicks or spaces on the theme item) comes back to the theme one
/// started from, and each step changes it.
pub proof fn lemma_theme_cycles(v: Seq<char>)
    requires
        v == "Catppuccin"@ || v == "Nord"@ || v == "TokyoNight"@ || v == "Gruvbox"@,
    ensures
        next_theme(next_theme(next_theme(next_theme(v)))) == v,
        next_theme(v) != v,
{
    reveal_strlit("Catppuccin");
    reveal_strlit("Nord");
    reveal_strlit("TokyoNight");
    reveal_strlit("Gruvbox");
    assert("Catppuccin"@[0] != "TokyoNight"@[0]);
    assert("Nord"@.len() != "Catppuccin"@.len());
    assert("Gruvbox"@.len() != "Catppuccin"@.len());
    assert("Nord"@.len() != "TokyoNight"@.len());
    assert("Gruvbox"@.len() != "TokyoNight"@.len());
    assert("Gruvbox"@.len() != "Nord"@.len());
}

} // verus!
