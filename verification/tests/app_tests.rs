use mimo::api_models::{
    ConnectionItem, ConnectionMetadata, ConnectionsResponse, DelayHistory, LogMessage, MihomoConfig,
    ProxiesResponse, ProxyItem, RuleItem, RulesResponse, TrafficMessage,
};
use mimo::i18n::Language;
use mimo::settings::Config;
use mimo::state::{AppState, FocusZone, HostFacts, NodeSort, ProxySubFocus, Tab};
use mimo::update::{update, Action, Effect, KeyCode, KeyEvent, MouseEvent, MouseKind, Outcome, ProbeReason};

fn state() -> AppState {
    AppState::new(
        &Config::default(),
        HostFacts {
            hostname: "box".to_string(),
            kernel: "6.1".to_string(),
            cpu_brand: "cpu".to_string(),
            cpu_cores: 4,
            sysproxy_enabled: false,
            tun_privileged: false,
            tun_interface: "None".to_string(),
            tun_interface_up: false,
        },
    )
}

fn key(c: KeyCode) -> Action {
    Action::Key(KeyEvent { code: c, ctrl: false })
}

fn ctrl(c: char) -> Action {
    Action::Key(KeyEvent { code: KeyCode::Char(c), ctrl: true })
}

fn step(s: AppState, a: Action) -> Outcome {
    update(s, a, 1000)
}

fn item(name: &str, t: &str, all: Option<Vec<&str>>, delay: Option<u16>) -> (String, ProxyItem) {
    (
        name.to_string(),
        ProxyItem {
            name: name.to_string(),
            proxy_type: t.to_string(),
            now: None,
            all: all.map(|v| v.into_iter().map(|x| x.to_string()).collect()),
            history: delay.map(|d| vec![DelayHistory { time: None, delay: d }]),
            udp: None,
            xudp: None,
            alive: None,
        },
    )
}

fn proxies() -> ProxiesResponse {
    ProxiesResponse {
        proxies: vec![
            item("Zeta", "Selector", Some(vec!["HK 01", "US 01", "JP 01"]), None),
            item("HK 01", "Shadowsocks", None, Some(300)),
            item("US 01", "Vmess", None, Some(100)),
            item("JP 01", "Trojan", None, None),
            item("Auto", "urltest", Some(vec!["HK 01"]), None),
            item("DIRECT", "Direct", None, None),
        ],
    }
}

#[test]
fn starts_on_the_dashboard() {
    let s = state();
    assert_eq!(s.active_tab, Tab::Dashboard);
    assert_eq!(s.up_history.len(), 40);
    assert_eq!(s.site_latencies.len(), 6);
    assert_eq!(s.log_filter, "all");
    assert_eq!(s.settings.api_url, "http://127.0.0.1:9090");
    assert_eq!(s.settings.secret, "");
}

#[test]
fn tabs_cycle() {
    let mut t = Tab::Dashboard;
    for _ in 0..10 {
        t = t.next();
    }
    assert_eq!(t, Tab::Dashboard);
    assert_eq!(Tab::Dashboard.prev(), Tab::About);
    assert_eq!(Tab::About.next(), Tab::Dashboard);
    assert_eq!(Tab::Proxies.title(Language::En), " Proxies ");
    assert_eq!(Tab::from_index(10), None);
}

#[test]
fn quit_keys() {
    assert!(step(state(), key(KeyCode::Char('q'))).quit);
    assert!(step(state(), ctrl('c')).quit);
    assert!(step(state(), Action::Quit).quit);
    let r = step(state(), ctrl('l'));
    assert!(!r.quit);
    assert!(matches!(r.effects[0], Effect::Queue(Action::ClearScreen)));
}

#[test]
fn digits_and_tab_switch_views() {
    let r = step(state(), key(KeyCode::Char('5')));
    assert_eq!(r.state.active_tab, Tab::Connections);
    let r = step(r.state, key(KeyCode::Char('0')));
    assert_eq!(r.state.active_tab, Tab::About);
    let r = step(r.state, key(KeyCode::Tab));
    assert_eq!(r.state.active_tab, Tab::Dashboard);
    let r = step(r.state, key(KeyCode::BackTab));
    assert_eq!(r.state.active_tab, Tab::About);
}

#[test]
fn proxies_reply_lists_sorted_groups() {
    let r = step(state(), Action::ProxiesFetched(Ok(proxies())));
    assert_eq!(r.state.proxy_groups, vec!["Auto".to_string(), "Zeta".to_string()]);
    let r = step(r.state, Action::ProxiesFetched(Err("down".to_string())));
    assert_eq!(r.state.status_error.as_deref(), Some("down"));
}

#[test]
fn group_nodes_filter_and_sort() {
    let mut s = step(state(), Action::ProxiesFetched(Ok(proxies()))).state;
    s.selected_group_idx = 1;
    assert_eq!(s.current_group_nodes(), vec!["HK 01", "US 01", "JP 01"]);
    s.search_query = " us ".to_string();
    assert_eq!(s.filtered_group_nodes(), vec!["US 01"]);
    s.search_query = String::new();
    s.node_sort = NodeSort::Latency;
    assert_eq!(s.display_group_nodes(), vec!["US 01", "HK 01", "JP 01"]);
    let s = step(s, Action::LatencyResult { node: "JP 01".to_string(), result: Ok(50) }).state;
    assert_eq!(s.display_group_nodes(), vec!["JP 01", "US 01", "HK 01"]);
    let s = step(s, Action::LatencyResult { node: "JP 01".to_string(), result: Err("x".to_string()) }).state;
    assert_eq!(s.latency_map.len(), 1);
    assert_eq!(s.latency_map[0].1, None);
}

#[test]
fn moving_in_groups_clamps() {
    let mut s = step(state(), Action::ProxiesFetched(Ok(proxies()))).state;
    s.active_tab = Tab::Proxies;
    let s = step(s, key(KeyCode::Down)).state;
    assert_eq!(s.selected_group_idx, 1);
    let s = step(s, key(KeyCode::Down)).state;
    assert_eq!(s.selected_group_idx, 1);
    let s = step(s, key(KeyCode::PageUp)).state;
    assert_eq!(s.selected_group_idx, 0);
    let s = step(s, key(KeyCode::Char('G'))).state;
    assert_eq!(s.selected_group_idx, 1);
}

#[test]
fn selecting_a_node_applies_everywhere() {
    let mut s = step(state(), Action::ProxiesFetched(Ok(proxies()))).state;
    s.active_tab = Tab::Proxies;
    s.selected_group_idx = 1;
    let r = step(s, key(KeyCode::Enter));
    assert_eq!(r.state.proxy_sub_focus, ProxySubFocus::Nodes);
    let r = step(r.state, key(KeyCode::Down));
    let r = step(r.state, key(KeyCode::Enter));
    match &r.effects[0] {
        Effect::SelectProxy { group, node, groups } => {
            assert_eq!(group, "Zeta");
            assert_eq!(node, "US 01");
            assert_eq!(groups.len(), 2);
        }
        _ => panic!("selection expected"),
    }
    assert_eq!(r.state.toast.as_ref().unwrap().0, "Selected 'US 01' (Applied to all groups)");
}

#[test]
fn traffic_history_stays_forty_long() {
    let mut s = state();
    for i in 0..45u64 {
        s = step(s, Action::TrafficReceived(TrafficMessage { up: i, down: 2 * i })).state;
    }
    assert_eq!(s.up_history.len(), 40);
    assert_eq!(*s.up_history.last().unwrap(), 44);
    assert_eq!(*s.down_history.last().unwrap(), 88);
    assert_eq!(s.current_traffic.up, 44);
}

#[test]
fn log_keeps_five_hundred_lines() {
    let mut s = state();
    for i in 0..505 {
        s = step(s, Action::LogReceived(LogMessage { log_type: "info".to_string(), payload: i.to_string() })).state;
    }
    assert_eq!(s.logs.len(), 500);
    assert_eq!(s.logs[0].payload, "5");
    let r = step(s, Action::ClearLogs);
    assert!(r.state.logs.is_empty());
    assert_eq!(r.state.toast.as_ref().unwrap().0, "Log buffer cleared");
}

#[test]
fn settings_editing() {
    let mut s = state();
    s.active_tab = Tab::Settings;
    s.settings.focus = 2;
    let s = step(s, key(KeyCode::Backspace)).state;
    assert_eq!(s.settings.http_port, 789);
    let s = step(s, key(KeyCode::Char('1'))).state;
    assert_eq!(s.active_tab, Tab::Dashboard);
    let mut s = s;
    s.active_tab = Tab::Settings;
    s.settings.http_port = 6553;
    let s = step(s, key(KeyCode::Char('x'))).state;
    assert_eq!(s.settings.http_port, 6553);
    let mut s = s;
    s.settings.focus = 11;
    let s = step(s, key(KeyCode::Char(' '))).state;
    assert_eq!(s.settings.tun_stack, "gvisor");
    let s = step(s, key(KeyCode::Up)).state;
    assert_eq!(s.settings.focus, 10);
    let s = step(s, key(KeyCode::Char(' '))).state;
    assert_eq!(s.settings.sub_update_hours, 24);
    let s = step(s, key(KeyCode::Right)).state;
    assert_eq!(s.settings.focus, 18);
    let s = step(s, key(KeyCode::Left)).state;
    assert_eq!(s.settings.focus, 7);
    let mut s = step(s, key(KeyCode::Tab)).state;
    assert_eq!(s.settings.focus, 8);
    s.settings.focus = 19;
    let r = step(s, key(KeyCode::Enter));
    assert!(matches!(r.effects[0], Effect::Queue(Action::SaveSettings)));
    let c = r.state.settings.to_config();
    assert_eq!(c.tun_stack, "gvisor");
    assert_eq!(c.secret, None);
}

#[test]
fn digit_keys_switch_views_even_in_settings() {
    let mut s = state();
    s.active_tab = Tab::Settings;
    s.settings.focus = 3;
    s.settings.socks_port = 0;
    let s = step(s, key(KeyCode::Char('9'))).state;
    assert_eq!(s.active_tab, Tab::Privileges);
    assert_eq!(s.settings.socks_port, 0);
}

#[test]
fn search_bar() {
    let s = step(state(), key(KeyCode::Char('/'))).state;
    assert!(s.is_searching);
    let s = step(s, key(KeyCode::Char('q'))).state;
    assert_eq!(s.search_query, "q");
    let s = step(s, key(KeyCode::Backspace)).state;
    assert_eq!(s.search_query, "");
    let s = step(s, key(KeyCode::Esc)).state;
    assert!(!s.is_searching);
}

#[test]
fn subscription_dialog() {
    let mut s = state();
    s.active_tab = Tab::Profiles;
    let s = step(s, key(KeyCode::Char('a'))).state;
    assert!(s.profile_input.show);
    let mut s = s;
    for c in " sub ".chars() {
        s = step(s, key(KeyCode::Char(c))).state;
    }
    let s = step(s, key(KeyCode::Enter)).state;
    assert_eq!(s.profile_input.focus, 1);
    let mut s = s;
    for c in "http://x".chars() {
        s = step(s, key(KeyCode::Char(c))).state;
    }
    let r = step(s, key(KeyCode::Enter));
    assert!(!r.state.profile_input.show);
    match &r.effects[0] {
        Effect::Queue(Action::AddProfile { name, url }) => {
            assert_eq!(name, "sub");
            assert_eq!(url, "http://x");
        }
        _ => panic!("add expected"),
    }
    let r = step(r.state, Action::AddProfile { name: "sub".to_string(), url: "http://x".to_string() });
    assert_eq!(r.state.toast.as_ref().unwrap().0, "Downloading profile 'sub'...");
    assert!(matches!(r.effects[0], Effect::DownloadProfile { .. }));
}

#[test]
fn tun_toggle_flow() {
    let r = step(state(), key(KeyCode::Char('x')));
    assert!(matches!(r.effects[0], Effect::Queue(Action::ToggleTunMode)));
    let r = step(r.state, Action::ToggleTunMode);
    assert!(matches!(r.effects[1], Effect::ProbePrivilege { reason: ProbeReason::ToggleTun }));
    let r = step(r.state, Action::PrivilegeProbed { reason: ProbeReason::ToggleTun, privileged: false });
    assert!(matches!(r.effects[0], Effect::Queue(Action::ShowTunModal)));
    assert_eq!(r.state.toast.as_ref().unwrap().0, "⚠️ 开启 TUN 模式需先完成 CAP_NET_ADMIN 权限授权");
    let r = step(r.state, Action::ShowTunModal);
    assert!(r.state.tun.show_modal);
    assert_eq!(r.state.active_tab, Tab::Privileges);
    let r2 = step(r.state, key(KeyCode::Char('p')));
    assert!(matches!(r2.effects[0], Effect::Queue(Action::GrantTunPrivilegePkexec)));
    let s = step(r2.state, key(KeyCode::Char('a'))).state;
    assert_eq!(s.tun.password, "a");
    let r = step(s, key(KeyCode::Enter));
    assert!(matches!(r.effects[0], Effect::Queue(Action::GrantTunPrivilegeWithPassword(_))));
    let r = step(r.state, Action::GrantTunPrivilegeWithPassword("a".to_string()));
    assert!(r.state.tun.granting);
    let r = step(r.state, Action::TunPrivilegeResult(Ok(())));
    assert_eq!(r.state.tun.password, "");
    let r = step(r.state, Action::PrivilegeProbed { reason: ProbeReason::AfterGrant, privileged: true });
    assert!(!r.state.tun.show_modal);
    assert!(r.state.tun.privileged);
    assert!(matches!(r.effects[0], Effect::RestartThenEnableTun { .. }));
}

#[test]
fn system_proxy_flow() {
    let mut s = state();
    s.config = Some(MihomoConfig {
        mode: Some("rule".to_string()),
        http_port: Some(7890),
        socks_port: Some(7891),
        mixed_port: Some(7897),
        log_level: None,
        allow_lan: None,
        tun: None,
    });
    let r = step(s, Action::ToggleSystemProxy);
    match r.effects[0] {
        Effect::SetSystemProxy { enable, http_port, socks_port } => {
            assert!(enable);
            assert_eq!(http_port, 7897);
            assert_eq!(socks_port, 7897);
        }
        _ => panic!("system proxy expected"),
    }
    let r = step(r.state, Action::SysProxyApplied { enable: true, ok: true });
    assert!(r.state.is_sysproxy_enabled);
    assert_eq!(r.state.toast.as_ref().unwrap().0, "System Proxy Enabled");
    let r = step(r.state, key(KeyCode::Char('m')));
    match &r.effects[0] {
        Effect::SetMode { mode } => assert_eq!(mode, "Global"),
        _ => panic!("mode expected"),
    }
}

#[test]
fn toast_expires_after_four_seconds() {
    let mut s = state();
    s.toast = Some(("hi".to_string(), 1000));
    let r = update(s, Action::Tick, 5000);
    assert!(r.state.toast.is_some());
    let r = update(r.state, Action::Tick, 5001);
    assert!(r.state.toast.is_none());
    assert_eq!(r.effects.len(), 2);
}

fn conn(id: &str, host: &str, up: u64, down: u64) -> ConnectionItem {
    ConnectionItem {
        id: id.to_string(),
        metadata: ConnectionMetadata {
            network: None,
            conn_type: None,
            source_ip: None,
            destination_ip: Some("9.9.9.9".to_string()),
            source_port: None,
            destination_port: None,
            host: Some(host.to_string()),
            process: Some("curl".to_string()),
            process_path: None,
            rule: None,
            rule_payload: None,
        },
        upload: up,
        download: down,
        start: None,
        chains: vec![],
        rule: None,
        rule_payload: None,
    }
}

#[test]
fn connections_filter_and_order() {
    let mut s = state();
    s.connections_resp = Some(ConnectionsResponse {
        download_total: 0,
        upload_total: 0,
        connections: vec![conn("a", "Example.com", 1, 1), conn("b", "", 50, 50), conn("c", "other.org", 10, 0)],
    });
    assert_eq!(s.filtered_sorted_connections(), vec![0, 1, 2]);
    s.search_query = "EXAMPLE".to_string();
    assert_eq!(s.filtered_sorted_connections(), vec![0]);
    s.search_query = "9.9".to_string();
    assert_eq!(s.filtered_sorted_connections(), vec![0, 1, 2]);
    s.search_query = String::new();
    s.sort_connections_by_traffic = true;
    assert_eq!(s.filtered_sorted_connections(), vec![1, 2, 0]);
    s.active_tab = Tab::Connections;
    s.selected_conn_idx = 0;
    let r = step(s, key(KeyCode::Char('d')));
    match &r.effects[0] {
        Effect::CloseConnection { id } => assert_eq!(id, "b"),
        _ => panic!("close expected"),
    }
    let r = step(r.state, Action::ConnectionsFetched(Ok(ConnectionsResponse { download_total: 0, upload_total: 0, connections: vec![] })));
    assert_eq!(r.state.selected_conn_idx, 0);
}

#[test]
fn sidebar_click_selects_view() {
    let r = step(state(), Action::Mouse(MouseEvent { kind: MouseKind::LeftDown, column: 3, row: 7 }));
    assert_eq!(r.state.active_tab, Tab::Profiles);
    assert_eq!(r.state.focus_zone, FocusZone::Sidebar);
    let r = step(r.state, Action::Mouse(MouseEvent { kind: MouseKind::LeftDown, column: 3, row: 4 }));
    assert_eq!(r.state.active_tab, Tab::Profiles);
    let r = step(r.state, Action::Mouse(MouseEvent { kind: MouseKind::LeftDown, column: 50, row: 1 }));
    assert!(matches!(r.effects[0], Effect::Queue(Action::ToggleSystemProxy)));
}

#[test]
fn download_result_toasts() {
    let r = step(state(), Action::DownloadCoreResult(Ok("/bin/m".to_string())));
    assert_eq!(r.state.toast.as_ref().unwrap().0, "🎉 Mihomo 核心自动安装成功: /bin/m");
    assert_eq!(r.effects.len(), 2);
    let r = step(r.state, Action::DownloadCoreResult(Err("net".to_string())));
    assert_eq!(r.state.toast.as_ref().unwrap().0, "❌ Mihomo 自动下载失败: net");
}

#[test]
fn node_order_key_cycles_three_orders() {
    let mut s = step(state(), Action::ProxiesFetched(Ok(proxies()))).state;
    s.active_tab = Tab::Proxies;
    s.selected_group_idx = 1;
    assert_eq!(s.display_group_nodes(), vec!["HK 01", "US 01", "JP 01"]);
    let r = step(s, key(KeyCode::Char('o')));
    assert_eq!(r.state.node_sort, NodeSort::Latency);
    assert_eq!(r.state.toast, Some(("已开启延迟升序排序".to_string(), 1000)));
    assert_eq!(r.state.display_group_nodes(), vec!["US 01", "HK 01", "JP 01"]);
    let r = step(r.state, key(KeyCode::Char('o')));
    assert_eq!(r.state.node_sort, NodeSort::Name);
    assert_eq!(r.state.toast, Some(("已开启名称 A-Z 排序".to_string(), 1000)));
    assert_eq!(r.state.display_group_nodes(), vec!["HK 01", "JP 01", "US 01"]);
    let r = step(r.state, key(KeyCode::Char('O')));
    assert_eq!(r.state.node_sort, NodeSort::Default);
    assert_eq!(r.state.toast, Some(("已恢复默认节点顺序".to_string(), 1000)));
}

#[test]
fn logs_key_a_switches_following() {
    let mut s = state();
    s.active_tab = Tab::Logs;
    assert!(s.logs_auto_scroll);
    let r = step(s, key(KeyCode::Char('a')));
    assert!(!r.state.logs_auto_scroll);
    assert_eq!(r.state.toast, Some(("已暂停日志自动滚动".to_string(), 1000)));
    let r = step(r.state, key(KeyCode::Char('a')));
    assert!(r.state.logs_auto_scroll);
    assert_eq!(r.state.toast, Some(("已开启日志自动滚动".to_string(), 1000)));
}

#[test]
fn rules_filter_by_search_text() {
    let mut s = state();
    s.rules_resp = Some(RulesResponse {
        rules: vec![
            RuleItem { rule_type: "DOMAIN-SUFFIX".to_string(), payload: "google.com".to_string(), proxy: "Proxy".to_string(), size: None },
            RuleItem { rule_type: "GEOIP".to_string(), payload: "CN".to_string(), proxy: "DIRECT".to_string(), size: None },
            RuleItem { rule_type: "MATCH".to_string(), payload: "".to_string(), proxy: "Proxy".to_string(), size: None },
        ],
    });
    assert_eq!(s.filtered_rules(), vec![0, 1, 2]);
    s.search_query = "Google".to_string();
    assert_eq!(s.filtered_rules(), vec![0]);
    s.search_query = "proxy".to_string();
    assert_eq!(s.filtered_rules(), vec![0, 2]);
    s.search_query = "nothing".to_string();
    assert!(s.filtered_rules().is_empty());
}

#[test]
fn a_switched_mode_refetches_the_configuration() {
    let r = step(state(), Action::ModeSwitched { ok: true });
    assert!(matches!(r.effects.as_slice(), [Effect::FetchConfig]));
    let r = step(state(), Action::ModeSwitched { ok: false });
    assert!(r.effects.is_empty());
}
