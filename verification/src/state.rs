//! The interface state: the views (tabs), the focus, the data fetched from the
//! core and the selection indices, with the queries the views are drawn from.
use vstd::prelude::*;
use crate::i18n::{spec_t, t, Language};
use crate::api_models::{
    history_delays, ConnectionItem, ConnectionsResponse, LogMessage, MihomoConfig, ProxiesResponse,
    RuleItem, RulesResponse, TrafficMessage, VersionInfo,
};
use crate::models::{entry_index, find_entry, spec_last_delay, strings_view};
use crate::parser::ParsedProfile;
use crate::profiles::ProfileItem;
use crate::sort::{
    entry_views, lemma_name_sorted_views, name_sorted, sort_by_name, stable_sort, stable_sorted, view_insert_pos,
    view_sorted,
};
use crate::text::{
    clone_strings, clone_opt, eq_ignore_case, has_sub, str_contains, str_eq, str_eq_ignore_ascii_case,
    string_from, to_lowercase, trim, trim_str, unicode_lowercase,
};
use crate::models::Proxy;
use crate::models::ProxyGroup;
use crate::settings::Config;

verus! {

/// The views of the interface, in sidebar order.
#[derive(Clone, Copy, PartialEq, Eq, Structural, Debug)]
pub enum Tab {
    Dashboard,
    Proxies,
    Profiles,
    Rules,
    Connections,
    Traffic,
    Logs,
    Settings,
    Privileges,
    About,
}

/// Number of views.
pub const TAB_COUNT: usize = 10;

/// Position of a view in the sidebar.
pub open spec fn tab_index(t: Tab) -> nat {
    match t {
        Tab::Dashboard => 0,
        Tab::Proxies => 1,
        Tab::Profiles => 2,
        Tab::Rules => 3,
        Tab::Connections => 4,
        Tab::Traffic => 5,
        Tab::Logs => 6,
        Tab::Settings => 7,
        Tab::Privileges => 8,
        Tab::About => 9,
    }
}

/// The view at a sidebar position (positions past the last wrap to `About`).
pub open spec fn tab_at(i: nat) -> Tab {
    if i == 0 {
        Tab::Dashboard
    } else if i == 1 {
        Tab::Proxies
    } else if i == 2 {
        Tab::Profiles
    } else if i == 3 {
        Tab::Rules
    } else if i == 4 {
        Tab::Connections
    } else if i == 5 {
        Tab::Traffic
    } else if i == 6 {
        Tab::Logs
    } else if i == 7 {
        Tab::Settings
    } else if i == 8 {
        Tab::Privileges
    } else {
        Tab::About
    }
}

/// The view after `t`, wrapping from the last to the first.
pub open spec fn tab_next(t: Tab) -> Tab {
    tab_at(((tab_index(t) + 1) % 10) as nat)
}

/// The view before `t`, wrapping from the first to the last.
pub open spec fn tab_prev(t: Tab) -> Tab {
    if tab_index(t) == 0 {
        tab_at(9)
    } else {
        tab_at((tab_index(t) - 1) as nat)
    }
}

/// Translation key of a view's title.
pub open spec fn tab_key(t: Tab) -> Seq<char> {
    match t {
        Tab::Dashboard => "tab_dashboard"@,
        Tab::Proxies => "tab_proxies"@,
        Tab::Profiles => "tab_profiles"@,
        Tab::Rules => "tab_rules"@,
        Tab::Connections => "tab_connections"@,
        Tab::Traffic => "tab_traffic"@,
        Tab::Logs => "tab_logs"@,
        Tab::Settings => "tab_settings"@,
        Tab::Privileges => "tab_privileges"@,
        Tab::About => "tab_about"@,
    }
}

impl Tab {
    /// Sidebar position of the view.
    pub fn index(self) -> (r: usize)
        ensures
            r == tab_index(self),
            r < TAB_COUNT,
    {
        match self {
            Tab::Dashboard => 0,
            Tab::Proxies => 1,
            Tab::Profiles => 2,
            Tab::Rules => 3,
            Tab::Connections => 4,
            Tab::Traffic => 5,
            Tab::Logs => 6,
            Tab::Settings => 7,
            Tab::Privileges => 8,
            Tab::About => 9,
        }
    }

    /// The view at a sidebar position, if there is one.
    pub fn from_index(i: usize) -> (r: Option<Tab>)
        ensures
            r is Some <==> i < TAB_COUNT,
            r matches Some(t) ==> tab_index(t) == i && t == tab_at(i as nat),
    {
        if i == 0 {
            Some(Tab::Dashboard)
        } else if i == 1 {
            Some(Tab::Proxies)
        } else if i == 2 {
            Some(Tab::Profiles)
        } else if i == 3 {
            Some(Tab::Rules)
        } else if i == 4 {
            Some(Tab::Connections)
        } else if i == 5 {
            Some(Tab::Traffic)
        } else if i == 6 {
            Some(Tab::Logs)
        } else if i == 7 {
            Some(Tab::Settings)
        } else if i == 8 {
            Some(Tab::Privileges)
        } else if i == 9 {
            Some(Tab::About)
        } else {
            None
        }
    }

    /// The next view in sidebar order, wrapping around.
    pub fn next(self) -> (r: Tab)
        ensures
            r == tab_next(self),
    {
        let i = self.index();
        let n = (i + 1) % TAB_COUNT;
        match Tab::from_index(n) {
            Some(t) => t,
            None => self,
        }
    }

    /// The previous view in sidebar order, wrapping around.
    pub fn prev(self) -> (r: Tab)
        ensures
            r == tab_prev(self),
    {
        let i = self.index();
        let p = if i == 0 {
            TAB_COUNT - 1
        } else {
            i - 1
        };
        match Tab::from_index(p) {
            Some(t) => t,
            None => self,
        }
    }

    /// Title of the view in the given language.
    pub fn title(&self, lang: Language) -> (r: &'static str)
        ensures
            r@ == spec_t(tab_key(*self), lang),
    {
        match self {
            Tab::Dashboard => t("tab_dashboard", lang),
            Tab::Proxies => t("tab_proxies", lang),
            Tab::Profiles => t("tab_profiles", lang),
            Tab::Rules => t("tab_rules", lang),
            Tab::Connections => t("tab_connections", lang),
            Tab::Traffic => t("tab_traffic", lang),
            Tab::Logs => t("tab_logs", lang),
            Tab::Settings => t("tab_settings", lang),
            Tab::Privileges => t("tab_privileges", lang),
            Tab::About => t("tab_about", lang),
        }
    }
}

/// Every view has its own position: positions and views correspond one to one.
pub proof fn lemma_tab_index_roundtrip(t: Tab)
    ensures
        tab_index(t) < 10,
        tab_at(tab_index(t)) == t,
{
}

/// Moving to the next view and back returns to the same view, in both orders.
pub proof fn lemma_tab_next_prev_inverse(t: Tab)
    ensures
        tab_prev(tab_next(t)) == t,
        tab_next(tab_prev(t)) == t,
{
}

/// Views form a cycle of ten: one move to the next view adds one to the position,
/// modulo the number of views, and one move to the previous view subtracts one.
pub proof fn lemma_tab_cycle(t: Tab)
    ensures
        tab_index(tab_next(t)) == (tab_index(t) + 1) % 10,
        tab_index(tab_prev(t)) == (tab_index(t) + 9) % 10,
        tab_next(t) != t,
{
}

/// Which pane holds the keyboard: the sidebar or the current view.
#[derive(Clone, Copy, PartialEq, Eq, Structural, Debug)]
pub enum FocusZone {
    Sidebar,
    Workspace,
}

/// How the proxies view orders a group's nodes.
#[derive(Clone, Copy, PartialEq, Eq, Structural, Debug)]
pub enum NodeSort {
    /// As the core lists them.
    Default,
    /// By ascending latency, unknown last.
    Latency,
    /// By name, A to Z.
    Name,
}

/// Which list of the proxies view holds the keyboard.
#[derive(Clone, Copy, PartialEq, Eq, Structural, Debug)]
pub enum ProxySubFocus {
    Groups,
    Nodes,
}


/// The settings as the settings view edits them, and the field being edited.
pub struct SettingsForm {
    pub lang: String,
    pub api_url: String,
    pub secret: String,
    pub refresh_ms: u64,
    pub http_port: u16,
    pub socks_port: u16,
    pub mixed_port: u16,
    pub test_url: String,
    pub tun_stack: String,
    pub log_level: String,
    pub allow_lan: bool,
    pub ipv6: bool,
    pub dns_mode: String,
    pub sniffing: bool,
    pub tcp_concurrent: bool,
    pub auto_sysproxy: bool,
    pub sub_update_hours: u32,
    pub ui_theme: String,
    pub focus: usize,
}

/// TUN mode status and the privilege dialog.
pub struct TunPanel {
    pub enabled: bool,
    pub privileged: bool,
    pub interface_name: String,
    pub interface_up: bool,
    pub show_modal: bool,
    pub granting: bool,
    pub password: String,
    pub input_focus: usize,
}

/// The dialog for adding a subscription: whether it shows, its two fields,
/// and which of them is edited (0 for the name, 1 for the URL).
pub struct ProfileInput {
    pub show: bool,
    pub name: String,
    pub url: String,
    pub focus: usize,
}

/// Everything the interface shows and edits.
///
/// Keyed tables (`latency_map`, `site_latencies`) hold one entry per name; the
/// CPU load, a float, is kept by the application beside this state.
pub struct AppState {
    pub active_tab: Tab,
    pub focus_zone: FocusZone,
    pub proxy_sub_focus: ProxySubFocus,
    pub show_help: bool,
    // System metrics
    pub memory_used_bytes: u64,
    pub memory_total_bytes: u64,
    // Search
    pub is_searching: bool,
    pub search_query: String,
    // Rules
    pub rules_resp: Option<RulesResponse>,
    pub selected_rule_idx: usize,
    // Settings being edited
    pub settings: SettingsForm,
    // Data from the core
    pub version: Option<VersionInfo>,
    pub config: Option<MihomoConfig>,
    pub proxies_resp: Option<ProxiesResponse>,
    pub connections_resp: Option<ConnectionsResponse>,
    // System proxy and TUN
    pub is_sysproxy_enabled: bool,
    pub tun: TunPanel,
    // Profiles
    pub profiles: Vec<ProfileItem>,
    pub parsed_active_profile: Option<ParsedProfile>,
    pub selected_profile_idx: usize,
    pub profile_input: ProfileInput,
    // Proxies
    pub proxy_groups: Vec<String>,
    pub selected_group_idx: usize,
    pub selected_node_idx: usize,
    pub latency_map: Vec<(String, Option<u16>)>,
    pub node_sort: NodeSort,
    // Connections
    pub selected_conn_idx: usize,
    pub sort_connections_by_traffic: bool,
    // Status
    pub status_error: Option<String>,
    pub outbound_ip: Option<String>,
    // Traffic
    pub current_traffic: TrafficMessage,
    pub up_history: Vec<u64>,
    pub down_history: Vec<u64>,
    // Logs
    pub logs: Vec<LogMessage>,
    pub log_scroll: usize,
    pub log_filter: String,
    /// Whether the logs view follows the newest line.
    pub logs_auto_scroll: bool,
    // Host information
    pub sys_hostname: String,
    pub sys_kernel: String,
    pub sys_cpu_brand: String,
    pub sys_cpu_cores: usize,
    // Reachability of well-known sites
    pub site_latencies: Vec<(String, Option<u16>)>,
    // Toast message and the time (milliseconds) it was raised
    pub toast: Option<(String, u64)>,
    /// Time (milliseconds) and cell of the last left or right click, for
    /// telling double clicks.
    pub last_click: Option<(u64, u16, u16)>,
}

/// Lifetime of a toast message, in milliseconds.
pub const TOAST_MS: u64 = 4000;

/// Length of the traffic histories.
pub const HISTORY_LEN: usize = 40;

/// Most log lines kept.
pub const LOG_CAP: usize = 500;

// ---------------------------------------------------------------------------
// Proxy groups and their nodes
// ---------------------------------------------------------------------------

/// Name of the selected group, when the selection is inside the list.
pub open spec fn selected_group(s: AppState) -> Option<Seq<char>> {
    if s.selected_group_idx < s.proxy_groups@.len() {
        Some(s.proxy_groups@[s.selected_group_idx as int]@)
    } else {
        None
    }
}

/// Members reported by the core for a group, when it lists at least one.
pub open spec fn api_group_members(resp: Option<ProxiesResponse>, group: Seq<char>) -> Option<
    Seq<Seq<char>>,
> {
    match resp {
        Some(r) => match entry_index(r.proxies@, group) {
            Some(i) => match r.proxies@[i].1.all {
                Some(a) => if a@.len() > 0 {
                    Some(strings_view(a@))
                } else {
                    None
                },
                None => None,
            },
            None => None,
        },
        None => None,
    }
}

/// Index of the first profile group with the given name.
pub open spec fn group_index(gs: Seq<ProxyGroup>, name: Seq<char>) -> Option<int>
    decreases gs.len(),
{
    if gs.len() == 0 {
        None
    } else if gs[0].name@ == name {
        Some(0)
    } else {
        match group_index(gs.drop_first(), name) {
            Some(i) => Some(i + 1),
            None => None,
        }
    }
}

proof fn lemma_group_index_at(gs: Seq<ProxyGroup>, name: Seq<char>, i: int)
    requires
        0 <= i <= gs.len(),
        forall|j: int| 0 <= j < i ==> gs[j].name@ != name,
    ensures
        i < gs.len() && gs[i].name@ == name ==> group_index(gs, name) == Some(i),
        i == gs.len() ==> group_index(gs, name) is None,
    decreases i,
{
    if i > 0 {
        assert forall|j: int| 0 <= j < i - 1 implies gs.drop_first()[j].name@ != name by {
            assert(gs.drop_first()[j] == gs[j + 1]);
        }
        lemma_group_index_at(gs.drop_first(), name, i - 1);
    }
}

/// Names of the nodes of a profile.
pub open spec fn node_names(ps: Seq<Proxy>) -> Seq<Seq<char>> {
    ps.map_values(|p: Proxy| p.name@)
}

/// Members of a group according to the active profile: every node for
/// `GLOBAL` (any ASCII case) or an unknown group, the group's list otherwise.
pub open spec fn profile_group_members(p: ParsedProfile, group: Seq<char>) -> Seq<Seq<char>> {
    if eq_ignore_case(group, "GLOBAL"@) {
        node_names(p.proxies@)
    } else {
        match group_index(p.proxy_groups@, group) {
            Some(i) => strings_view(p.proxy_groups@[i].proxies@),
            None => node_names(p.proxies@),
        }
    }
}

/// Members of a group: the core's list when it has one, else the active profile's.
pub open spec fn group_members(
    group: Seq<char>,
    resp: Option<ProxiesResponse>,
    parsed: Option<ParsedProfile>,
) -> Seq<Seq<char>> {
    match api_group_members(resp, group) {
        Some(m) => m,
        None => match parsed {
            Some(p) => profile_group_members(p, group),
            None => Seq::empty(),
        },
    }
}

/// Nodes of the selected group.
pub open spec fn spec_current_group_nodes(s: AppState) -> Seq<Seq<char>> {
    match selected_group(s) {
        Some(g) => group_members(g, s.proxies_resp, s.parsed_active_profile),
        None => Seq::empty(),
    }
}

/// Nodes whose lowercase name contains `q`, in order.
pub open spec fn nodes_matching(nodes: Seq<Seq<char>>, q: Seq<char>) -> Seq<Seq<char>>
    decreases nodes.len(),
{
    if nodes.len() == 0 {
        nodes
    } else {
        let rest = nodes_matching(nodes.drop_last(), q);
        if has_sub(unicode_lowercase(nodes.last()), q) {
            rest.push(nodes.last())
        } else {
            rest
        }
    }
}

/// Nodes of the selected group narrowed by the search text (trimmed and
/// lowercased; a blank search keeps every node).
pub open spec fn spec_filtered_group_nodes(s: AppState) -> Seq<Seq<char>> {
    let nodes = spec_current_group_nodes(s);
    if trim(s.search_query@).len() == 0 {
        nodes
    } else {
        nodes_matching(nodes, unicode_lowercase(trim(s.search_query@)))
    }
}

/// Latest delay the core reports for a node, when positive.
pub open spec fn api_node_delay(resp: Option<ProxiesResponse>, node: Seq<char>) -> Option<u16> {
    match resp {
        Some(r) => match entry_index(r.proxies@, node) {
            Some(i) => spec_last_delay(history_delays(r.proxies@[i].1.history)),
            None => None,
        },
        None => None,
    }
}

/// Latency measured in this session for a node, if one was recorded and succeeded.
pub open spec fn measured_delay(m: Seq<(String, Option<u16>)>, node: Seq<char>) -> Option<u16> {
    match entry_index(m, node) {
        Some(i) => m[i].1,
        None => None,
    }
}

/// Node names ordered by name, stably.
fn nodes_by_name(nodes: Vec<String>) -> (r: Vec<String>)
    ensures
        strings_view(r@) == view_sorted(strings_view(nodes@).map_values(|n: Seq<char>| (n, ()))).map_values(
            |e: (Seq<char>, ())| e.0,
        ),
        r@.len() == nodes@.len(),
{
    let ghost names = strings_view(nodes@);
    let mut keyed: Vec<(String, ())> = Vec::new();
    let mut i: usize = 0;
    while i < nodes.len()
        invariant
            i <= nodes.len(),
            names == strings_view(nodes@),
            keyed@.len() == i,
            forall|k: int| 0 <= k < i ==> #[trigger] keyed@[k].0@ == nodes@[k]@,
        decreases nodes.len() - i,
    {
        keyed.push((nodes[i].clone(), ()));
        i += 1;
    }
    let ghost unit = |u: ()| ();
    proof {
        assert(entry_views(keyed@, unit) =~= names.map_values(|n: Seq<char>| (n, ())));
        lemma_name_sorted_views(keyed@, unit);
    }
    let sorted = sort_by_name(keyed);
    proof {
        assert(entry_views(sorted@, unit) == view_sorted(names.map_values(|n: Seq<char>| (n, ()))));
        assert(entry_views(sorted@, unit).len() == sorted@.len());
    }
    let mut r: Vec<String> = Vec::new();
    let mut j: usize = 0;
    while j < sorted.len()
        invariant
            j <= sorted.len(),
            r@.len() == j,
            forall|k: int| 0 <= k < j ==> #[trigger] r@[k]@ == sorted@[k].0@,
        decreases sorted.len() - j,
    {
        r.push(sorted[j].0.clone());
        j += 1;
    }
    proof {
        assert(strings_view(r@) =~= entry_views(sorted@, unit).map_values(|e: (Seq<char>, ())| e.0));
        assert(view_sorted(names.map_values(|n: Seq<char>| (n, ()))).len() == names.len()) by {
            crate::sort::lemma_name_sorted(keyed@);
        }
    }
    r
}

/// Sort key of a node: its measured latency, else the core's latest delay,
/// else the largest value (unknown latencies last).
pub open spec fn node_sort_key(s: AppState, node: Seq<char>) -> u64 {
    match measured_delay(s.latency_map@, node) {
        Some(d) => d as u64,
        None => match api_node_delay(s.proxies_resp, node) {
            Some(d) => d as u64,
            None => 0xffff,
        },
    }
}

pub open spec fn keyed_nodes(s: AppState, nodes: Seq<Seq<char>>) -> Seq<(u64, Seq<char>)> {
    nodes.map_values(|n: Seq<char>| (node_sort_key(s, n), n))
}

/// Nodes as the proxies view lists them: filtered, then ordered (stably) by
/// latency or by name when that ordering is chosen.
pub open spec fn spec_display_group_nodes(s: AppState) -> Seq<Seq<char>> {
    let nodes = spec_filtered_group_nodes(s);
    match s.node_sort {
        NodeSort::Default => nodes,
        NodeSort::Latency => stable_sorted(keyed_nodes(s, nodes)).map_values(|e: (u64, Seq<char>)| e.1),
        NodeSort::Name => view_sorted(nodes.map_values(|n: Seq<char>| (n, ()))).map_values(
            |e: (Seq<char>, ())| e.0,
        ),
    }
}


/// Sorting entries by key does not depend on what else they carry.
proof fn lemma_insert_pos_map<A, B>(s: Seq<(u64, A)>, f: spec_fn((u64, A)) -> (u64, B), k: u64)
    requires
        forall|e: (u64, A)| #[trigger] f(e).0 == e.0,
    ensures
        crate::sort::insert_pos(s.map_values(f), k) == crate::sort::insert_pos(s, k),
    decreases s.len(),
{
    if s.len() > 0 {
        assert(s.map_values(f).drop_first() =~= s.drop_first().map_values(f));
        assert(f(s[0]).0 == s[0].0);
        lemma_insert_pos_map(s.drop_first(), f, k);
    }
}

proof fn lemma_stable_sorted_map<A, B>(s: Seq<(u64, A)>, f: spec_fn((u64, A)) -> (u64, B))
    requires
        forall|e: (u64, A)| #[trigger] f(e).0 == e.0,
    ensures
        stable_sorted(s.map_values(f)) == stable_sorted(s).map_values(f),
    decreases s.len(),
{
    if s.len() > 0 {
        let p = stable_sorted(s.drop_last());
        assert(s.map_values(f).drop_last() =~= s.drop_last().map_values(f));
        lemma_stable_sorted_map(s.drop_last(), f);
        crate::sort::lemma_stable_sorted(s.drop_last());
        lemma_insert_pos_map(p, f, s.last().0);
        assert(f(s.last()).0 == s.last().0);
        let i = crate::sort::insert_pos(p, s.last().0);
        crate::sort::lemma_insert_pos_bounds(p, s.last().0);
        assert(p.insert(i, s.last()).map_values(f) =~= p.map_values(f).insert(i, f(s.last())));
    }
}

/// Names of the nodes of a profile, in order.
fn proxy_names(ps: &Vec<Proxy>) -> (r: Vec<String>)
    ensures
        strings_view(r@) == node_names(ps@),
{
    let mut r: Vec<String> = Vec::new();
    let mut i: usize = 0;
    while i < ps.len()
        invariant
            i <= ps.len(),
            r@.len() == i,
            forall|k: int| 0 <= k < i ==> #[trigger] r@[k]@ == ps@[k].name@,
        decreases ps.len() - i,
    {
        r.push(ps[i].name.clone());
        i += 1;
    }
    assert(strings_view(r@) =~= node_names(ps@));
    r
}

/// Position of the first profile group with the given name.
fn find_group(gs: &Vec<ProxyGroup>, name: &str) -> (r: Option<usize>)
    ensures
        match r {
            Some(i) => group_index(gs@, name@) == Some(i as int) && i < gs@.len(),
            None => group_index(gs@, name@) is None,
        },
{
    let mut i: usize = 0;
    while i < gs.len()
        invariant
            i <= gs.len(),
            forall|j: int| 0 <= j < i ==> gs@[j].name@ != name@,
        decreases gs.len() - i,
    {
        if str_eq(gs[i].name.as_str(), name) {
            proof {
                lemma_group_index_at(gs@, name@, i as int);
            }
            return Some(i);
        }
        i += 1;
    }
    proof {
        lemma_group_index_at(gs@, name@, i as int);
    }
    None
}

impl AppState {
    /// Name of the selected proxy group, when the selection is inside the list.
    pub fn selected_group_name(&self) -> (r: Option<&str>)
        ensures
            r is Some <==> selected_group(*self) is Some,
            r matches Some(g) ==> selected_group(*self) == Some(g@),
    {
        if self.selected_group_idx < self.proxy_groups.len() {
            Some(self.proxy_groups[self.selected_group_idx].as_str())
        } else {
            None
        }
    }

    /// Nodes of the selected group: the members the core lists for it, or,
    /// when it lists none, those the active profile gives it.
    #[verifier::rlimit(60)]
    pub fn current_group_nodes(&self) -> (r: Vec<String>)
        ensures
            strings_view(r@) == spec_current_group_nodes(*self),
    {
        let group = match self.selected_group_name() {
            Some(g) => g,
            None => {
                return Vec::new();
            },
        };
        if let Some(resp) = &self.proxies_resp {
            if let Some(i) = find_entry(&resp.proxies, group) {
                if let Some(all) = &resp.proxies[i].1.all {
                    if all.len() > 0 {
                        return clone_strings(all);
                    }
                }
            }
        }
        match &self.parsed_active_profile {
            Some(parsed) => {
                if str_eq_ignore_ascii_case(group, "GLOBAL") {
                    return proxy_names(&parsed.proxies);
                }
                match find_group(&parsed.proxy_groups, group) {
                    Some(i) => clone_strings(&parsed.proxy_groups[i].proxies),
                    None => proxy_names(&parsed.proxies),
                }
            },
            None => Vec::new(),
        }
    }

    /// Nodes of the selected group whose lowercase name contains the trimmed,
    /// lowercased search text (all of them when the search is blank).
    pub fn filtered_group_nodes(&self) -> (r: Vec<String>)
        ensures
            strings_view(r@) == spec_filtered_group_nodes(*self),
    {
        let nodes = self.current_group_nodes();
        let tq = trim_str(self.search_query.as_str());
        if tq.as_str().is_empty() {
            proof {
                assert(tq@.len() == 0);
            }
            return nodes;
        }
        let q = to_lowercase(tq.as_str());
        let mut r: Vec<String> = Vec::new();
        let mut i: usize = 0;
        while i < nodes.len()
            invariant
                i <= nodes.len(),
                strings_view(r@) == nodes_matching(strings_view(nodes@).take(i as int), q@),
            decreases nodes.len() - i,
        {
            let lower = to_lowercase(nodes[i].as_str());
            proof {
                assert(strings_view(nodes@).take(i + 1).drop_last() =~= strings_view(nodes@).take(
                    i as int,
                ));
                assert(strings_view(nodes@).take(i + 1).last() == nodes@[i as int]@);
            }
            if str_contains(lower.as_str(), q.as_str()) {
                r.push(nodes[i].clone());
                assert(strings_view(r@) =~= nodes_matching(
                    strings_view(nodes@).take(i + 1),
                    q@,
                ));
            }
            i += 1;
        }
        assert(strings_view(nodes@).take(nodes@.len() as int) =~= strings_view(nodes@));
        r
    }

    /// Sort key of a node (see `node_sort_key`).
    #[verifier::rlimit(60)]
    fn node_key(&self, node: &str) -> (r: u64)
        ensures
            r == node_sort_key(*self, node@),
    {
        if let Some(i) = find_entry(&self.latency_map, node) {
            if let Some(d) = self.latency_map[i].1 {
                return d as u64;
            }
        }
        if let Some(resp) = &self.proxies_resp {
            if let Some(i) = find_entry(&resp.proxies, node) {
                if let Some(d) = resp.proxies[i].1.last_delay() {
                    return d as u64;
                }
            }
        }
        0xffff
    }

    /// Nodes as the proxies view lists them: filtered, then ordered by latency
    /// (unknown last, ties in list order) or by name when that ordering is chosen.
    pub fn display_group_nodes(&self) -> (r: Vec<String>)
        ensures
            strings_view(r@) == spec_display_group_nodes(*self),
            r@.len() == spec_filtered_group_nodes(*self).len(),
    {
        let nodes = self.filtered_group_nodes();
        match self.node_sort {
            NodeSort::Default => {
                return nodes;
            },
            NodeSort::Name => {
                return nodes_by_name(nodes);
            },
            NodeSort::Latency => {},
        }
        let ghost names = strings_view(nodes@);
        let mut keyed: Vec<(u64, String)> = Vec::new();
        let mut i: usize = 0;
        while i < nodes.len()
            invariant
                i <= nodes.len(),
                names == strings_view(nodes@),
                keyed@.len() == i,
                forall|k: int|
                    0 <= k < i ==> #[trigger] keyed@[k].0 == node_sort_key(*self, nodes@[k]@)
                        && keyed@[k].1@ == nodes@[k]@,
            decreases nodes.len() - i,
        {
            let k = self.node_key(nodes[i].as_str());
            keyed.push((k, nodes[i].clone()));
            i += 1;
        }
        let ghost f = |e: (u64, String)| (e.0, e.1@);
        let ghost g = |e: (u64, Seq<char>)| e.1;
        proof {
            assert(keyed@.map_values(f) =~= keyed_nodes(*self, names));
        }
        let sorted = stable_sort(keyed);
        let mut r: Vec<String> = Vec::new();
        let mut j: usize = 0;
        while j < sorted.len()
            invariant
                j <= sorted.len(),
                r@.len() == j,
                forall|k: int| 0 <= k < j ==> #[trigger] r@[k]@ == sorted@[k].1@,
            decreases sorted.len() - j,
        {
            r.push(sorted[j].1.clone());
            j += 1;
        }
        proof {
            lemma_stable_sorted_map(keyed@, f);
            crate::sort::lemma_stable_sorted(keyed@);
            assert(strings_view(r@) =~= stable_sorted(keyed@).map_values(f).map_values(g));
        }
        r
    }
}


// ---------------------------------------------------------------------------
// Connections
// ---------------------------------------------------------------------------

/// Host shown for a connection: its host name when not empty, else its
/// destination address, else `Unknown`.
pub open spec fn conn_host(c: ConnectionItem) -> Seq<char> {
    match c.metadata.host {
        Some(h) => if h@.len() > 0 {
            h@
        } else {
            match c.metadata.destination_ip {
                Some(d) => d@,
                None => "Unknown"@,
            }
        },
        None => match c.metadata.destination_ip {
            Some(d) => d@,
            None => "Unknown"@,
        },
    }
}

/// Process shown for a connection (`-` when unknown).
pub open spec fn conn_process(c: ConnectionItem) -> Seq<char> {
    match c.metadata.process {
        Some(p) => p@,
        None => "-"@,
    }
}

/// Whether a connection matches the lowercased search text `q`.
pub open spec fn conn_matches(c: ConnectionItem, q: Seq<char>) -> bool {
    ||| q.len() == 0
    ||| has_sub(unicode_lowercase(conn_host(c)), q)
    ||| has_sub(unicode_lowercase(conn_process(c)), q)
    ||| has_sub(
        match c.metadata.destination_ip {
            Some(d) => d@,
            None => Seq::empty(),
        },
        q,
    )
}

/// Positions of the connections that match `q`, in order.
pub open spec fn matching_conns(cs: Seq<ConnectionItem>, q: Seq<char>) -> Seq<usize>
    decreases cs.len(),
{
    if cs.len() == 0 {
        Seq::empty()
    } else {
        let rest = matching_conns(cs.drop_last(), q);
        if conn_matches(cs.last(), q) {
            rest.push((cs.len() - 1) as usize)
        } else {
            rest
        }
    }
}

/// Ordering key of a connection: smaller for more traffic (download plus
/// upload), so that ascending keys list the busiest connections first.
pub open spec fn traffic_key(c: ConnectionItem) -> u64 {
    if c.download + c.upload <= 0xffff_ffff_ffff_ffff {
        (0xffff_ffff_ffff_ffff - (c.download + c.upload)) as u64
    } else {
        0
    }
}

pub open spec fn keyed_conns(cs: Seq<ConnectionItem>, idx: Seq<usize>) -> Seq<(u64, usize)> {
    idx.map_values(|i: usize| (traffic_key(cs[i as int]), i))
}

/// Positions (in the core's list) of the connections the view lists: those
/// matching the lowercased search text, busiest first (stably) when that
/// ordering is on.
pub open spec fn spec_filtered_sorted_connections(s: AppState) -> Seq<usize> {
    match s.connections_resp {
        Some(resp) => {
            let idx = matching_conns(resp.connections@, unicode_lowercase(s.search_query@));
            if s.sort_connections_by_traffic {
                stable_sorted(keyed_conns(resp.connections@, idx)).map_values(
                    |e: (u64, usize)| e.1,
                )
            } else {
                idx
            }
        },
        None => Seq::empty(),
    }
}

/// Every position `matching_conns` yields points into the list.
proof fn lemma_matching_conns_in_range(cs: Seq<ConnectionItem>, q: Seq<char>)
    ensures
        forall|k: int|
            0 <= k < matching_conns(cs, q).len() ==> #[trigger] matching_conns(cs, q)[k] < cs.len(),
        matching_conns(cs, q).len() <= cs.len(),
    decreases cs.len(),
{
    if cs.len() > 0 {
        lemma_matching_conns_in_range(cs.drop_last(), q);
    }
}

/// Whether the connection matches the lowercased search text.
fn conn_matches_exec(c: &ConnectionItem, q: &str) -> (r: bool)
    ensures
        r == conn_matches(*c, q@),
{
    if q.is_empty() {
        proof {
            assert(q@.len() == 0);
        }
        return true;
    }
    let host: &str = match &c.metadata.host {
        Some(h) => if !h.as_str().is_empty() {
            h.as_str()
        } else {
            match &c.metadata.destination_ip {
                Some(d) => d.as_str(),
                None => "Unknown",
            }
        },
        None => match &c.metadata.destination_ip {
            Some(d) => d.as_str(),
            None => "Unknown",
        },
    };
    let process: &str = match &c.metadata.process {
        Some(p) => p.as_str(),
        None => "-",
    };
    let dest: &str = match &c.metadata.destination_ip {
        Some(d) => d.as_str(),
        None => "",
    };
    proof {
        assert(host@ == conn_host(*c));
        assert(process@ == conn_process(*c));
        reveal_strlit("");
    }
    let hl = to_lowercase(host);
    let pl = to_lowercase(process);
    str_contains(hl.as_str(), q) || str_contains(pl.as_str(), q) || str_contains(dest, q)
}

impl AppState {
    /// Positions of the connections the connections view lists (see
    /// `spec_filtered_sorted_connections`).
    pub fn filtered_sorted_connections(&self) -> (r: Vec<usize>)
        ensures
            r@ == spec_filtered_sorted_connections(*self),
            self.connections_resp matches Some(resp) ==> forall|k: int|
                0 <= k < r@.len() ==> #[trigger] r@[k] < resp.connections@.len(),
    {
        let resp = match &self.connections_resp {
            Some(resp) => resp,
            None => {
                return Vec::new();
            },
        };
        let q = to_lowercase(self.search_query.as_str());
        let cs = &resp.connections;
        let mut idx: Vec<usize> = Vec::new();
        let mut i: usize = 0;
        while i < cs.len()
            invariant
                i <= cs.len(),
                idx@ == matching_conns(cs@.take(i as int), q@),
            decreases cs.len() - i,
        {
            proof {
                assert(cs@.take(i + 1).drop_last() =~= cs@.take(i as int));
                assert(cs@.take(i + 1).last() == cs@[i as int]);
            }
            if conn_matches_exec(&cs[i], q.as_str()) {
                idx.push(i);
            }
            i += 1;
        }
        proof {
            assert(cs@.take(cs@.len() as int) =~= cs@);
            lemma_matching_conns_in_range(cs@, q@);
        }
        if !self.sort_connections_by_traffic {
            return idx;
        }
        let mut keyed: Vec<(u64, usize)> = Vec::new();
        let mut j: usize = 0;
        while j < idx.len()
            invariant
                j <= idx.len(),
                idx@ == matching_conns(cs@, q@),
                forall|k: int| 0 <= k < idx@.len() ==> #[trigger] idx@[k] < cs@.len(),
                keyed@ == keyed_conns(cs@, idx@.take(j as int)),
            decreases idx.len() - j,
        {
            let c = &cs[idx[j]];
            let key: u64 = if c.download <= u64::MAX - c.upload {
                u64::MAX - (c.download + c.upload)
            } else {
                0
            };
            keyed.push((key, idx[j]));
            j += 1;
            assert(keyed@ =~= keyed_conns(cs@, idx@.take(j as int)));
        }
        assert(idx@.take(idx@.len() as int) =~= idx@);
        let sorted = stable_sort(keyed);
        let mut r: Vec<usize> = Vec::new();
        let mut k: usize = 0;
        while k < sorted.len()
            invariant
                k <= sorted.len(),
                r@ == sorted@.take(k as int).map_values(|e: (u64, usize)| e.1),
            decreases sorted.len() - k,
        {
            r.push(sorted[k].1);
            k += 1;
            assert(r@ =~= sorted@.take(k as int).map_values(|e: (u64, usize)| e.1));
        }
        proof {
            broadcast use vstd::seq_lib::group_to_multiset_ensures;
            assert(sorted@.take(sorted@.len() as int) =~= sorted@);
            let kk = keyed_conns(cs@, idx@);
            crate::sort::lemma_stable_sorted(kk);
            assert forall|m: int| 0 <= m < r@.len() implies #[trigger] r@[m] < cs@.len() by {
                let e = stable_sorted(kk)[m];
                assert(stable_sorted(kk).to_multiset().count(e) > 0);
                assert(kk.to_multiset().count(e) > 0);
                assert(kk.contains(e));
                let w = choose|w: int| 0 <= w < kk.len() && kk[w] == e;
                assert(kk[w].1 == idx@[w]);
            }
        }
        r
    }

    /// Raises a toast message at time `now_ms`.
    pub fn push_toast(&mut self, msg: String, now_ms: u64)
        ensures
            final(self).toast matches Some((m, t)) && m@ == msg@ && t == now_ms,
            *final(self) == (AppState { toast: final(self).toast, ..*old(self) }),
    {
        self.toast = Some((msg, now_ms));
    }

    /// Clears the toast once it has been shown for more than its lifetime.
    pub fn check_toast_expiration(&mut self, now_ms: u64)
        ensures
            final(self).toast == toast_after(old(self).toast, now_ms),
            *final(self) == (AppState { toast: final(self).toast, ..*old(self) }),
    {
        let expired = toast_expired(&self.toast, now_ms);
        let mut cur: Option<(String, u64)> = None;
        std::mem::swap(&mut cur, &mut self.toast);
        self.toast = if expired {
            None
        } else {
            cur
        };
    }
}

fn toast_expired(t: &Option<(String, u64)>, now_ms: u64) -> (r: bool)
    ensures
        r == (toast_after(*t, now_ms) is None && t is Some),
{
    match t {
        Some(p) => now_ms >= p.1 && now_ms - p.1 > TOAST_MS,
        None => false,
    }
}

/// The toast left at time `now_ms`: gone once older than its lifetime.
pub open spec fn toast_after(t: Option<(String, u64)>, now_ms: u64) -> Option<(String, u64)> {
    match t {
        Some((m, at)) => if now_ms >= at && now_ms - at > TOAST_MS {
            None
        } else {
            t
        },
        None => None,
    }
}


// ---------------------------------------------------------------------------
// Start-up state
// ---------------------------------------------------------------------------

/// Sites whose reachability the dashboard shows, with the latencies shown
/// before the first measurement.
pub open spec fn initial_sites() -> Seq<(Seq<char>, Option<u16>)> {
    seq![
        ("Google"@, Some(120u16)),
        ("GitHub"@, Some(95u16)),
        ("YouTube"@, Some(110u16)),
        ("OpenAI"@, Some(140u16)),
        ("Bilibili"@, Some(18u16)),
        ("Baidu"@, Some(12u16)),
    ]
}

pub open spec fn latencies_view(v: Seq<(String, Option<u16>)>) -> Seq<(Seq<char>, Option<u16>)> {
    v.map_values(|e: (String, Option<u16>)| (e.0@, e.1))
}

/// Facts about the host that the application gathers before start-up.
pub struct HostFacts {
    pub hostname: String,
    pub kernel: String,
    pub cpu_brand: String,
    pub cpu_cores: usize,
    pub sysproxy_enabled: bool,
    pub tun_privileged: bool,
    pub tun_interface: String,
    pub tun_interface_up: bool,
}

/// The state the interface starts in, given the loaded configuration and the
/// host facts.
pub open spec fn initial_state(s: AppState, c: Config, h: HostFacts) -> bool {
    &&& s.active_tab == Tab::Dashboard
    &&& s.focus_zone == FocusZone::Workspace
    &&& s.proxy_sub_focus == ProxySubFocus::Groups
    &&& !s.show_help
    &&& s.memory_used_bytes == 0 && s.memory_total_bytes == 0
    &&& !s.is_searching && s.search_query@.len() == 0
    &&& s.rules_resp is None && s.selected_rule_idx == 0
    &&& s.settings.lang@ == c.language@
    &&& s.settings.api_url@ == c.api_url@
    &&& s.settings.secret@ == (match c.secret {
        Some(x) => x@,
        None => Seq::empty(),
    })
    &&& s.settings.refresh_ms == c.refresh_interval_ms
    &&& s.settings.http_port == c.http_port
    &&& s.settings.socks_port == c.socks_port
    &&& s.settings.mixed_port == c.mixed_port
    &&& s.settings.test_url@ == c.test_url@
    &&& s.settings.tun_stack@ == c.tun_stack@
    &&& s.settings.log_level@ == c.log_level@
    &&& s.settings.allow_lan == c.allow_lan
    &&& s.settings.ipv6 == c.ipv6
    &&& s.settings.dns_mode@ == c.dns_mode@
    &&& s.settings.sniffing == c.sniffing
    &&& s.settings.tcp_concurrent == c.tcp_concurrent
    &&& s.settings.auto_sysproxy == c.auto_sysproxy
    &&& s.settings.sub_update_hours == c.sub_update_hours
    &&& s.settings.ui_theme@ == c.ui_theme@
    &&& s.settings.focus == 0
    &&& s.version is None && s.config is None && s.proxies_resp is None
    &&& s.connections_resp is None
    &&& s.is_sysproxy_enabled == h.sysproxy_enabled
    &&& !s.tun.enabled
    &&& s.tun.privileged == h.tun_privileged
    &&& s.tun.interface_name@ == h.tun_interface@
    &&& s.tun.interface_up == h.tun_interface_up
    &&& !s.tun.show_modal && !s.tun.granting
    &&& s.tun.password@.len() == 0 && s.tun.input_focus == 0
    &&& s.profiles@.len() == 0 && s.parsed_active_profile is None
    &&& s.selected_profile_idx == 0 && !s.profile_input.show
    &&& s.profile_input.name@.len() == 0 && s.profile_input.url@.len() == 0
    &&& s.profile_input.focus == 0
    &&& s.proxy_groups@.len() == 0 && s.selected_group_idx == 0 && s.selected_node_idx == 0
    &&& s.latency_map@.len() == 0 && s.node_sort == NodeSort::Default
    &&& s.selected_conn_idx == 0 && !s.sort_connections_by_traffic
    &&& s.status_error is None && s.outbound_ip is None
    &&& s.current_traffic.up == 0 && s.current_traffic.down == 0
    &&& s.up_history@ == Seq::new(40, |i: int| 0u64)
    &&& s.down_history@ == Seq::new(40, |i: int| 0u64)
    &&& s.logs@.len() == 0 && s.log_scroll == 0 && s.log_filter@ == "all"@
    &&& s.logs_auto_scroll
    &&& s.sys_hostname@ == h.hostname@ && s.sys_kernel@ == h.kernel@
    &&& s.sys_cpu_brand@ == h.cpu_brand@ && s.sys_cpu_cores == h.cpu_cores
    &&& latencies_view(s.site_latencies@) == initial_sites()
    &&& s.toast is None
    &&& s.last_click is None
}

fn zeros(n: usize) -> (r: Vec<u64>)
    ensures
        r@ == Seq::new(n as nat, |i: int| 0u64),
{
    let mut r: Vec<u64> = Vec::new();
    let mut i: usize = 0;
    while i < n
        invariant
            i <= n,
            r@ == Seq::new(i as nat, |k: int| 0u64),
        decreases n - i,
    {
        r.push(0);
        i += 1;
        assert(r@ =~= Seq::new(i as nat, |k: int| 0u64));
    }
    r
}

impl AppState {
    /// The start-up state for a configuration and the facts gathered about the host.
    pub fn new(config: &Config, host: HostFacts) -> (r: AppState)
        ensures
            initial_state(r, *config, host),
    {
        let secret = match &config.secret {
            Some(x) => x.clone(),
            None => String::new(),
        };
        let mut sites: Vec<(String, Option<u16>)> = Vec::new();
        sites.push((string_from("Google"), Some(120)));
        sites.push((string_from("GitHub"), Some(95)));
        sites.push((string_from("YouTube"), Some(110)));
        sites.push((string_from("OpenAI"), Some(140)));
        sites.push((string_from("Bilibili"), Some(18)));
        sites.push((string_from("Baidu"), Some(12)));
        assert(latencies_view(sites@) =~= initial_sites());
        let r = AppState {
            active_tab: Tab::Dashboard,
            focus_zone: FocusZone::Workspace,
            proxy_sub_focus: ProxySubFocus::Groups,
            show_help: false,
            memory_used_bytes: 0,
            memory_total_bytes: 0,
            is_searching: false,
            search_query: String::new(),
            rules_resp: None,
            selected_rule_idx: 0,
            settings: SettingsForm {
                lang: config.language.clone(),
                api_url: config.api_url.clone(),
                secret: secret,
                refresh_ms: config.refresh_interval_ms,
                http_port: config.http_port,
                socks_port: config.socks_port,
                mixed_port: config.mixed_port,
                test_url: config.test_url.clone(),
                tun_stack: config.tun_stack.clone(),
                log_level: config.log_level.clone(),
                allow_lan: config.allow_lan,
                ipv6: config.ipv6,
                dns_mode: config.dns_mode.clone(),
                sniffing: config.sniffing,
                tcp_concurrent: config.tcp_concurrent,
                auto_sysproxy: config.auto_sysproxy,
                sub_update_hours: config.sub_update_hours,
                ui_theme: config.ui_theme.clone(),
                focus: 0,
            },
            version: None,
            config: None,
            proxies_resp: None,
            connections_resp: None,
            is_sysproxy_enabled: host.sysproxy_enabled,
            tun: TunPanel {
                enabled: false,
                privileged: host.tun_privileged,
                interface_name: host.tun_interface,
                interface_up: host.tun_interface_up,
                show_modal: false,
                granting: false,
                password: String::new(),
                input_focus: 0,
            },
            profiles: Vec::new(),
            parsed_active_profile: None,
            selected_profile_idx: 0,
            profile_input: ProfileInput {
                show: false,
                name: String::new(),
                url: String::new(),
                focus: 0,
            },
            proxy_groups: Vec::new(),
            selected_group_idx: 0,
            selected_node_idx: 0,
            latency_map: Vec::new(),
            node_sort: NodeSort::Default,
            selected_conn_idx: 0,
            sort_connections_by_traffic: false,
            status_error: None,
            outbound_ip: None,
            current_traffic: TrafficMessage { up: 0, down: 0 },
            up_history: zeros(HISTORY_LEN),
            down_history: zeros(HISTORY_LEN),
            logs: Vec::new(),
            log_scroll: 0,
            log_filter: string_from("all"),
            logs_auto_scroll: true,
            sys_hostname: host.hostname,
            sys_kernel: host.kernel,
            sys_cpu_brand: host.cpu_brand,
            sys_cpu_cores: host.cpu_cores,
            site_latencies: sites,
            toast: None,
            last_click: None,
        };
        r
    }
}

impl SettingsForm {
    /// The configuration the settings view saves: every field as edited, with
    /// a blank secret saved as none.
    pub fn to_config(&self) -> (c: Config)
        ensures
            c.language@ == self.lang@,
            c.api_url@ == self.api_url@,
            crate::models::opt_string_view(c.secret) == if trim(self.secret@).len() == 0 {
                None
            } else {
                Some(self.secret@)
            },
            c.refresh_interval_ms == self.refresh_ms,
            c.http_port == self.http_port,
            c.socks_port == self.socks_port,
            c.mixed_port == self.mixed_port,
            c.sniffing == self.sniffing,
            c.tcp_concurrent == self.tcp_concurrent,
            c.test_url@ == self.test_url@,
            c.tun_stack@ == self.tun_stack@,
            c.log_level@ == self.log_level@,
            c.allow_lan == self.allow_lan,
            c.ipv6 == self.ipv6,
            c.dns_mode@ == self.dns_mode@,
            c.auto_sysproxy == self.auto_sysproxy,
            c.sub_update_hours == self.sub_update_hours,
            c.ui_theme@ == self.ui_theme@,
    {
        let t = trim_str(self.secret.as_str());
        let secret = if t.as_str().is_empty() {
            proof {
                assert(t@.len() == 0);
            }
            None
        } else {
            Some(self.secret.clone())
        };
        Config {
            api_url: self.api_url.clone(),
            secret,
            refresh_interval_ms: self.refresh_ms,
            language: self.lang.clone(),
            http_port: self.http_port,
            socks_port: self.socks_port,
            mixed_port: self.mixed_port,
            test_url: self.test_url.clone(),
            tun_stack: self.tun_stack.clone(),
            log_level: self.log_level.clone(),
            allow_lan: self.allow_lan,
            ipv6: self.ipv6,
            dns_mode: self.dns_mode.clone(),
            sniffing: self.sniffing,
            tcp_concurrent: self.tcp_concurrent,
            auto_sysproxy: self.auto_sysproxy,
            sub_update_hours: self.sub_update_hours,
            ui_theme: self.ui_theme.clone(),
        }
    }
}


/// Name order of a list of node names, as the proxies view uses it.
pub open spec fn by_name(nodes: Seq<Seq<char>>) -> Seq<Seq<char>> {
    view_sorted(nodes.map_values(|n: Seq<char>| (n, ()))).map_values(|e: (Seq<char>, ())| e.0)
}

proof fn lemma_by_name_multiset(nodes: Seq<Seq<char>>)
    ensures
        by_name(nodes).to_multiset() == nodes.to_multiset(),
    decreases nodes.len(),
{
    broadcast use vstd::seq_lib::group_to_multiset_ensures;
    if nodes.len() > 0 {
        let keyed = nodes.map_values(|n: Seq<char>| (n, ()));
        let rest = nodes.drop_last();
        assert(keyed.drop_last() =~= rest.map_values(|n: Seq<char>| (n, ())));
        let p = view_sorted(rest.map_values(|n: Seq<char>| (n, ())));
        let x = keyed.last();
        let i = view_insert_pos(p, x.0);
        crate::sort::lemma_view_sorted(rest.map_values(|n: Seq<char>| (n, ())));
        lemma_view_insert_pos_in(p, x.0);
        lemma_by_name_multiset(rest);
        let pm = p.map_values(|e: (Seq<char>, ())| e.0);
        assert(by_name(nodes) =~= pm.insert(i, x.0));
        vstd::seq_lib::to_multiset_insert(pm, i, x.0);
        assert(nodes =~= rest.push(nodes.last()));
        vstd::seq_lib::to_multiset_build(rest, nodes.last());
    }
}

proof fn lemma_view_insert_pos_in<T>(s: Seq<(Seq<char>, T)>, k: Seq<char>)
    ensures
        0 <= view_insert_pos(s, k) <= s.len(),
    decreases s.len(),
{
    if s.len() > 0 {
        lemma_view_insert_pos_in(s.drop_first(), k);
    }
}

/// In name order the proxies view lists the group's filtered nodes, each as
/// often as the filter keeps it, with names ascending (as text, A to Z).
pub proof fn lemma_name_order(s: AppState)
    requires
        s.node_sort == NodeSort::Name,
    ensures
        spec_display_group_nodes(s).len() == spec_filtered_group_nodes(s).len(),
        spec_display_group_nodes(s).to_multiset() == spec_filtered_group_nodes(s).to_multiset(),
        forall|a: int, b: int|
            0 <= a <= b < spec_display_group_nodes(s).len() ==> !crate::sort::lex_lt(
                #[trigger] spec_display_group_nodes(s)[b],
                #[trigger] spec_display_group_nodes(s)[a],
            ),
{
    let nodes = spec_filtered_group_nodes(s);
    let keyed = nodes.map_values(|n: Seq<char>| (n, ()));
    crate::sort::lemma_view_sorted(keyed);
    lemma_by_name_multiset(nodes);
    assert(spec_display_group_nodes(s) == by_name(nodes));
    assert forall|a: int, b: int|
        0 <= a <= b < by_name(nodes).len() implies !crate::sort::lex_lt(
        #[trigger] by_name(nodes)[b],
        #[trigger] by_name(nodes)[a],
    ) by {
        assert(by_name(nodes)[b] == view_sorted(keyed)[b].0);
        assert(by_name(nodes)[a] == view_sorted(keyed)[a].0);
    }
}


// ---------------------------------------------------------------------------
// Rules
// ---------------------------------------------------------------------------

/// The rules the rules view lists, as (type, payload, target): the core's
/// when it has sent them, else the active profile's.
pub open spec fn rule_rows(s: AppState) -> Seq<(Seq<char>, Seq<char>, Seq<char>)> {
    match s.rules_resp {
        Some(resp) => resp.rules@.map_values(|r: RuleItem| (r.rule_type@, r.payload@, r.proxy@)),
        None => match s.parsed_active_profile {
            Some(p) => p.rules@.map_values(|r: crate::models::Rule| (r.rule_type@, r.payload@, r.proxy@)),
            None => Seq::empty(),
        },
    }
}

/// Whether a rule matches the lowercased search text: its type, payload or
/// target, lowercased, contains it (everything matches an empty text).
pub open spec fn rule_matches(r: (Seq<char>, Seq<char>, Seq<char>), q: Seq<char>) -> bool {
    ||| q.len() == 0
    ||| has_sub(unicode_lowercase(r.0), q)
    ||| has_sub(unicode_lowercase(r.1), q)
    ||| has_sub(unicode_lowercase(r.2), q)
}

/// Positions of the rules that match `q`, in order.
pub open spec fn matching_rules(rows: Seq<(Seq<char>, Seq<char>, Seq<char>)>, q: Seq<char>) -> Seq<usize>
    decreases rows.len(),
{
    if rows.len() == 0 {
        Seq::empty()
    } else {
        let rest = matching_rules(rows.drop_last(), q);
        if rule_matches(rows.last(), q) {
            rest.push((rows.len() - 1) as usize)
        } else {
            rest
        }
    }
}

/// Positions of the rules the rules view lists: those matching the lowercased
/// search text.
pub open spec fn spec_filtered_rules(s: AppState) -> Seq<usize> {
    matching_rules(rule_rows(s), unicode_lowercase(s.search_query@))
}

proof fn lemma_matching_rules_in_range(rows: Seq<(Seq<char>, Seq<char>, Seq<char>)>, q: Seq<char>)
    ensures
        forall|k: int|
            0 <= k < matching_rules(rows, q).len() ==> #[trigger] matching_rules(rows, q)[k] < rows.len(),
        matching_rules(rows, q).len() <= rows.len(),
    decreases rows.len(),
{
    if rows.len() > 0 {
        lemma_matching_rules_in_range(rows.drop_last(), q);
    }
}

fn rule_matches_exec(t: &str, p: &str, x: &str, q: &str) -> (r: bool)
    ensures
        r == rule_matches((t@, p@, x@), q@),
{
    if q.is_empty() {
        proof {
            assert(q@.len() == 0);
        }
        return true;
    }
    let tl = to_lowercase(t);
    let pl = to_lowercase(p);
    let xl = to_lowercase(x);
    str_contains(tl.as_str(), q) || str_contains(pl.as_str(), q) || str_contains(xl.as_str(), q)
}

impl AppState {
    /// Positions of the rules the rules view lists (see `spec_filtered_rules`).
    pub fn filtered_rules(&self) -> (r: Vec<usize>)
        ensures
            r@ == spec_filtered_rules(*self),
            forall|k: int| 0 <= k < r@.len() ==> #[trigger] r@[k] < rule_rows(*self).len(),
    {
        let q = to_lowercase(self.search_query.as_str());
        let ghost rows = rule_rows(*self);
        let n: usize = match &self.rules_resp {
            Some(resp) => resp.rules.len(),
            None => match &self.parsed_active_profile {
                Some(p) => p.rules.len(),
                None => 0,
            },
        };
        let mut idx: Vec<usize> = Vec::new();
        let mut i: usize = 0;
        while i < n
            invariant
                i <= n,
                n == rows.len(),
                rows == rule_rows(*self),
                idx@ == matching_rules(rows.take(i as int), q@),
            decreases n - i,
        {
            proof {
                assert(rows.take(i + 1).drop_last() =~= rows.take(i as int));
                assert(rows.take(i + 1).last() == rows[i as int]);
            }
            let m = match &self.rules_resp {
                Some(resp) => {
                    let r = &resp.rules[i];
                    rule_matches_exec(r.rule_type.as_str(), r.payload.as_str(), r.proxy.as_str(), q.as_str())
                },
                None => match &self.parsed_active_profile {
                    Some(p) => {
                        let r = &p.rules[i];
                        rule_matches_exec(r.rule_type.as_str(), r.payload.as_str(), r.proxy.as_str(), q.as_str())
                    },
                    None => false,
                },
            };
            if m {
                idx.push(i);
            }
            i += 1;
        }
        proof {
            assert(rows.take(n as int) =~= rows);
            lemma_matching_rules_in_range(rows, q@);
        }
        idx
    }
}


/// The lowercase name `x` holds the search text `q` at some position.
pub open spec fn name_holds(q: Seq<char>, x: Seq<char>) -> bool {
    exists|i: int| 0 <= i && i + q.len() <= unicode_lowercase(x).len() && #[trigger] unicode_lowercase(
        x,
    ).subrange(i, i + q.len()) == q
}

/// Narrowing a list by a search keeps, in order, exactly the names whose
/// lowercase form holds the search text somewhere.
proof fn lemma_nodes_matching_filter(nodes: Seq<Seq<char>>, q: Seq<char>)
    ensures
        nodes_matching(nodes, q) == nodes.filter(|x: Seq<char>| name_holds(q, x)),
    decreases nodes.len(),
{
    reveal(Seq::filter);
    if nodes.len() > 0 {
        lemma_nodes_matching_filter(nodes.drop_last(), q);
        let x = nodes.last();
        if has_sub(unicode_lowercase(x), q) {
            let i = choose|i: int| crate::text::occurs_at(unicode_lowercase(x), q, i);
            assert(unicode_lowercase(x).subrange(i, i + q.len()) == q);
        }
        if name_holds(q, x) {
            let i = choose|i: int| 0 <= i && i + q.len() <= unicode_lowercase(x).len()
                && #[trigger] unicode_lowercase(x).subrange(i, i + q.len()) == q;
            assert(crate::text::occurs_at(unicode_lowercase(x), q, i));
        }
    }
}

/// With a search text that is not blank, the proxies view lists, in the
/// group's order, exactly the group's nodes whose lowercase name holds the
/// trimmed, lowercased search text at some position (not only at its start);
/// a node is listed if and only if it is such a node. A blank search lists
/// the whole group.
pub proof fn lemma_search_keeps_matching_nodes(s: AppState)
    ensures
        trim(s.search_query@).len() == 0 ==> spec_filtered_group_nodes(s) == spec_current_group_nodes(s),
        trim(s.search_query@).len() > 0 ==> ({
            let q = unicode_lowercase(trim(s.search_query@));
            let nodes = spec_current_group_nodes(s);
            &&& spec_filtered_group_nodes(s) == nodes.filter(|x: Seq<char>| name_holds(q, x))
            &&& forall|x: Seq<char>|
                #[trigger] spec_filtered_group_nodes(s).contains(x) <==> nodes.contains(x) && name_holds(q, x)
        }),
{
    if trim(s.search_query@).len() > 0 {
        let q = unicode_lowercase(trim(s.search_query@));
        let nodes = spec_current_group_nodes(s);
        let pred = |x: Seq<char>| name_holds(q, x);
        lemma_nodes_matching_filter(nodes, q);
        broadcast use vstd::seq_lib::group_filter_ensures;
        assert forall|x: Seq<char>|
            #[trigger] spec_filtered_group_nodes(s).contains(x) <==> nodes.contains(x) && name_holds(q, x) by {
            if spec_filtered_group_nodes(s).contains(x) {
                let k = choose|k: int| 0 <= k < nodes.filter(pred).len() && nodes.filter(pred)[k] == x;
                assert(pred(nodes.filter(pred)[k]));
                assert(nodes.filter(pred).contains(x));
                nodes.lemma_filter_contains_rev(pred, x);
            }
            if nodes.contains(x) && name_holds(q, x) {
                let k = choose|k: int| 0 <= k < nodes.len() && nodes[k] == x;
                assert(nodes.filter(pred).contains(nodes[k]));
            }
        }
    }
}

/// The ten view titles are pairwise distinct in each language, and each is a
/// translation, never the raw key.
pub proof fn lemma_titles_distinct(a: Tab, b: Tab, lang: Language)
    ensures
        a != b ==> spec_t(tab_key(a), lang) != spec_t(tab_key(b), lang),
        spec_t(tab_key(a), lang) != tab_key(a),
{
    reveal_strlit("tab_dashboard");
    reveal_strlit("tab_proxies");
    reveal_strlit("tab_profiles");
    reveal_strlit("tab_rules");
    reveal_strlit("tab_connections");
    reveal_strlit("tab_traffic");
    reveal_strlit("tab_logs");
    reveal_strlit("tab_settings");
    reveal_strlit("tab_privileges");
    reveal_strlit("tab_about");
    assert("tab_proxies"@[4] != "tab_dashboard"@[4]);
    assert("tab_profiles"@[4] != "tab_dashboard"@[4]);
    assert("tab_profiles"@[7] != "tab_proxies"@[7]);
    assert("tab_rules"@[4] != "tab_dashboard"@[4]);
    assert("tab_rules"@[4] != "tab_proxies"@[4]);
    assert("tab_rules"@[4] != "tab_profiles"@[4]);
    assert("tab_connections"@[4] != "tab_dashboard"@[4]);
    assert("tab_connections"@[4] != "tab_proxies"@[4]);
    assert("tab_connections"@[4] != "tab_profiles"@[4]);
    assert("tab_connections"@[4] != "tab_rules"@[4]);
    assert("tab_traffic"@[4] != "tab_dashboard"@[4]);
    assert("tab_traffic"@[4] != "tab_proxies"@[4]);
    assert("tab_traffic"@[4] != "tab_profiles"@[4]);
    assert("tab_traffic"@[4] != "tab_rules"@[4]);
    assert("tab_traffic"@[4] != "tab_connections"@[4]);
    assert("tab_logs"@[4] != "tab_dashboard"@[4]);
    assert("tab_logs"@[4] != "tab_proxies"@[4]);
    assert("tab_logs"@[4] != "tab_profiles"@[4]);
    assert("tab_logs"@[4] != "tab_rules"@[4]);
    assert("tab_logs"@[4] != "tab_connections"@[4]);
    assert("tab_logs"@[4] != "tab_traffic"@[4]);
    assert("tab_settings"@[4] != "tab_dashboard"@[4]);
    assert("tab_settings"@[4] != "tab_proxies"@[4]);
    assert("tab_settings"@[4] != "tab_profiles"@[4]);
    assert("tab_settings"@[4] != "tab_rules"@[4]);
    assert("tab_settings"@[4] != "tab_connections"@[4]);
    assert("tab_settings"@[4] != "tab_traffic"@[4]);
    assert("tab_settings"@[4] != "tab_logs"@[4]);
    assert("tab_privileges"@[4] != "tab_dashboard"@[4]);
    assert("tab_privileges"@[6] != "tab_proxies"@[6]);
    assert("tab_privileges"@[6] != "tab_profiles"@[6]);
    assert("tab_privileges"@[4] != "tab_rules"@[4]);
    assert("tab_privileges"@[4] != "tab_connections"@[4]);
    assert("tab_privileges"@[4] != "tab_traffic"@[4]);
    assert("tab_privileges"@[4] != "tab_logs"@[4]);
    assert("tab_privileges"@[4] != "tab_settings"@[4]);
    assert("tab_about"@[4] != "tab_dashboard"@[4]);
    assert("tab_about"@[4] != "tab_proxies"@[4]);
    assert("tab_about"@[4] != "tab_profiles"@[4]);
    assert("tab_about"@[4] != "tab_rules"@[4]);
    assert("tab_about"@[4] != "tab_connections"@[4]);
    assert("tab_about"@[4] != "tab_traffic"@[4]);
    assert("tab_about"@[4] != "tab_logs"@[4]);
    assert("tab_about"@[4] != "tab_settings"@[4]);
    assert("tab_about"@[4] != "tab_privileges"@[4]);
    reveal_strlit(" 仪表盘 ");
    assert(" 仪表盘 "@[1] == '仪');
    reveal_strlit(" Dashboard ");
    assert(" Dashboard "@[1] == 'D');
    assert(" Dashboard "@[4] == 'h');
    assert(crate::i18n::label_zh("tab_dashboard"@) == " 仪表盘 "@);
    assert(crate::i18n::label_en("tab_dashboard"@) == " Dashboard "@);
    reveal_strlit(" 节点选择 ");
    assert(" 节点选择 "@[1] == '节');
    reveal_strlit(" Proxies ");
    assert(" Proxies "@[1] == 'P');
    assert(" Proxies "@[4] == 'x');
    assert(crate::i18n::label_zh("tab_proxies"@) == " 节点选择 "@);
    assert(crate::i18n::label_en("tab_proxies"@) == " Proxies "@);
    reveal_strlit(" 订阅配置 ");
    assert(" 订阅配置 "@[1] == '订');
    reveal_strlit(" Profiles ");
    assert(" Profiles "@[1] == 'P');
    assert(" Profiles "@[4] == 'f');
    assert(crate::i18n::label_zh("tab_profiles"@) == " 订阅配置 "@);
    assert(crate::i18n::label_en("tab_profiles"@) == " Profiles "@);
    reveal_strlit(" 规则路由 ");
    assert(" 规则路由 "@[1] == '规');
    reveal_strlit(" Rules ");
    assert(" Rules "@[1] == 'R');
    assert(" Rules "@[4] == 'e');
    assert(crate::i18n::label_zh("tab_rules"@) == " 规则路由 "@);
    assert(crate::i18n::label_en("tab_rules"@) == " Rules "@);
    reveal_strlit(" 连接管理 ");
    assert(" 连接管理 "@[1] == '连');
    reveal_strlit(" Connections ");
    assert(" Connections "@[1] == 'C');
    assert(" Connections "@[4] == 'n');
    assert(crate::i18n::label_zh("tab_connections"@) == " 连接管理 "@);
    assert(crate::i18n::label_en("tab_connections"@) == " Connections "@);
    reveal_strlit(" 流量监控 ");
    assert(" 流量监控 "@[1] == '流');
    reveal_strlit(" Traffic ");
    assert(" Traffic "@[1] == 'T');
    assert(" Traffic "@[4] == 'f');
    assert(crate::i18n::label_zh("tab_traffic"@) == " 流量监控 "@);
    assert(crate::i18n::label_en("tab_traffic"@) == " Traffic "@);
    reveal_strlit(" 运行日志 ");
    assert(" 运行日志 "@[1] == '运');
    reveal_strlit(" Logs ");
    assert(" Logs "@[1] == 'L');
    assert(" Logs "@[4] == 's');
    assert(crate::i18n::label_zh("tab_logs"@) == " 运行日志 "@);
    assert(crate::i18n::label_en("tab_logs"@) == " Logs "@);
    reveal_strlit(" 系统设置 ");
    assert(" 系统设置 "@[1] == '系');
    reveal_strlit(" Settings ");
    assert(" Settings "@[1] == 'S');
    assert(" Settings "@[4] == 't');
    assert(crate::i18n::label_zh("tab_settings"@) == " 系统设置 "@);
    assert(crate::i18n::label_en("tab_settings"@) == " Settings "@);
    reveal_strlit(" 权限管理 ");
    assert(" 权限管理 "@[1] == '权');
    reveal_strlit(" Privileges ");
    assert(" Privileges "@[1] == 'P');
    assert(" Privileges "@[4] == 'v');
    assert(crate::i18n::label_zh("tab_privileges"@) == " 权限管理 "@);
    assert(crate::i18n::label_en("tab_privileges"@) == " Privileges "@);
    reveal_strlit(" 关于 Mimo ");
    assert(" 关于 Mimo "@[1] == '关');
    reveal_strlit(" About ");
    assert(" About "@[1] == 'A');
    assert(" About "@[4] == 'u');
    assert(crate::i18n::label_zh("tab_about"@) == " 关于 Mimo "@);
    assert(crate::i18n::label_en("tab_about"@) == " About "@);
    crate::i18n::lemma_translations(tab_key(a));
}

} // verus!
