use mimo::api_models::{ConnectionItem, ConnectionMetadata, ConnectionsResponse, LogMessage};
use mimo::layout::Rect;
use mimo::mouse::{handle_mouse_event, ListOffsets};
use mimo::settings::Config;
use mimo::state::{AppState, FocusZone, HostFacts, Tab};
use mimo::update::{Action, Effect, MouseEvent, MouseKind, Outcome};

fn state() -> AppState {
    AppState::new(
        &Config::default(),
        HostFacts {
            hostname: "box".to_string(),
            kernel: "6.1".to_string(),
            cpu_brand: "cpu".to_string(),
            cpu_cores: 4,
            sysproxy_enabled: false,
            tun_privileged: false,
            tun_interface: "None".to_string(),
            tun_interface_up: false,
        },
    )
}

const AREA: Rect = Rect { x: 0, y: 0, width: 100, height: 30 };
const NO_SCROLL: ListOffsets = ListOffsets { groups: 0, nodes: 0, profiles: 0, rules: 0, connections: 0 };

fn press(s: AppState, kind: MouseKind, column: u16, row: u16, now: u64) -> Outcome {
    handle_mouse_event(s, MouseEvent { kind, column, row }, AREA, NO_SCROLL, now)
}

fn conn(id: &str) -> ConnectionItem {
    ConnectionItem {
        id: id.to_string(),
        metadata: ConnectionMetadata {
            network: None,
            conn_type: None,
            source_ip: None,
            destination_ip: None,
            source_port: None,
            destination_port: None,
            host: Some(format!("{}.example", id)),
            process: None,
            process_path: None,
            rule: None,
            rule_payload: None,
        },
        upload: 1,
        download: 1,
        start: None,
        chains: vec![],
        rule: None,
        rule_payload: None,
    }
}

#[test]
fn wheel_over_sidebar_moves_between_views_and_wraps() {
    let out = press(state(), MouseKind::ScrollDown, 5, 10, 0);
    assert_eq!(out.state.active_tab, Tab::Proxies);
    assert_eq!(out.state.focus_zone, FocusZone::Sidebar);
    let back = press(out.state, MouseKind::ScrollUp, 5, 10, 0);
    assert_eq!(back.state.active_tab, Tab::Dashboard);
    let wrapped = press(back.state, MouseKind::ScrollUp, 5, 10, 0);
    assert_eq!(wrapped.state.active_tab, Tab::About);
    assert!(wrapped.effects.is_empty());
}

#[test]
fn click_on_sidebar_menu_selects_that_view() {
    // The menu starts three lines below the top of the sidebar.
    let out = press(state(), MouseKind::LeftDown, 5, 5, 0);
    assert_eq!(out.state.active_tab, Tab::Profiles);
    assert_eq!(out.state.focus_zone, FocusZone::Sidebar);
    let above = press(state(), MouseKind::LeftDown, 5, 1, 0);
    assert_eq!(above.state.active_tab, Tab::Dashboard);
}

#[test]
fn click_on_top_bar_pills() {
    let out = press(state(), MouseKind::LeftDown, 19 + 30, 1, 0);
    assert!(matches!(out.effects.as_slice(), [Effect::Queue(Action::ToggleSystemProxy)]));
    let mode = press(state(), MouseKind::LeftDown, 19 + 5, 1, 0);
    assert!(matches!(mode.effects.as_slice(), [Effect::SetMode { mode }] if mode == "Global"));
    let readout = press(state(), MouseKind::LeftDown, 90, 1, 0);
    assert!(matches!(readout.effects.as_slice(), [Effect::Queue(Action::FetchProxies)]));
}

#[test]
fn click_on_key_hints() {
    let focus = press(state(), MouseKind::LeftDown, 18 + 2, 29, 0);
    assert_eq!(focus.state.focus_zone, FocusZone::Sidebar);
    let next = press(state(), MouseKind::LeftDown, 18 + 15, 29, 0);
    assert_eq!(next.state.active_tab, Tab::Proxies);
    let help = press(state(), MouseKind::LeftDown, 18 + 70, 29, 0);
    assert!(help.state.show_help);
    let quit = press(state(), MouseKind::LeftDown, 18 + 80, 29, 0);
    assert!(matches!(quit.effects.as_slice(), [Effect::Queue(Action::Quit)]));
}

#[test]
fn any_press_closes_help() {
    let mut s = state();
    s.show_help = true;
    let out = press(s, MouseKind::MiddleDown, 50, 10, 0);
    assert!(!out.state.show_help);
    let mut s2 = state();
    s2.show_help = true;
    let wheel = press(s2, MouseKind::ScrollDown, 50, 10, 0);
    assert!(wheel.state.show_help);
}

#[test]
fn click_outside_subscription_dialog_closes_it() {
    let mut s = state();
    s.profile_input.show = true;
    let out = press(s, MouseKind::LeftDown, 0, 0, 0);
    assert!(!out.state.profile_input.show);
    assert!(out.effects.is_empty());
}

#[test]
fn click_outside_privilege_dialog_closes_it_unless_authorizing() {
    let mut s = state();
    s.tun.show_modal = true;
    let out = press(s, MouseKind::LeftDown, 0, 0, 0);
    assert!(!out.state.tun.show_modal);
    let mut busy = state();
    busy.tun.show_modal = true;
    busy.tun.granting = true;
    let kept = press(busy, MouseKind::LeftDown, 0, 0, 0);
    assert!(kept.state.tun.show_modal);
}

#[test]
fn settings_save_bar_and_cards() {
    let mut s = state();
    s.active_tab = Tab::Settings;
    let saved = press(s, MouseKind::LeftDown, 30, 27, 0);
    assert_eq!(saved.state.settings.focus, 19);
    assert!(matches!(saved.effects.as_slice(), [Effect::Queue(Action::SaveSettings)]));
    let mut s2 = state();
    s2.active_tab = Tab::Settings;
    let focused = press(s2, MouseKind::LeftDown, 30, 8, 0);
    assert_eq!(focused.state.settings.focus, 1);
    assert!(focused.effects.is_empty());
    assert_eq!(focused.state.focus_zone, FocusZone::Workspace);
}

#[test]
fn logs_filter_bar_and_right_click() {
    let mut s = state();
    s.active_tab = Tab::Logs;
    let warn = press(s, MouseKind::LeftDown, 18 + 30, 4, 0);
    assert_eq!(warn.state.log_filter, "warn");
    let follow = press(warn.state, MouseKind::LeftDown, 18 + 60, 4, 7);
    assert!(!follow.state.logs_auto_scroll);
    assert_eq!(follow.state.toast, Some(("已暂停日志自动滚动".to_string(), 7)));
    let mut s2 = follow.state;
    s2.logs.push(LogMessage { log_type: "info".to_string(), payload: "x".to_string() });
    let cleared = press(s2, MouseKind::RightDown, 60, 20, 9);
    assert!(cleared.state.logs.is_empty());
    assert_eq!(cleared.state.toast, Some(("Logs cleared".to_string(), 9)));
}

#[test]
fn right_click_outside_views_focuses_sidebar() {
    let out = press(state(), MouseKind::RightDown, 5, 10, 0);
    assert_eq!(out.state.focus_zone, FocusZone::Sidebar);
}

#[test]
fn double_click_closes_a_connection() {
    let mut s = state();
    s.active_tab = Tab::Connections;
    s.connections_resp =
        Some(ConnectionsResponse { download_total: 0, upload_total: 0, connections: vec![conn("a"), conn("b")] });
    // The table's first row is two lines below its top (border, header).
    let first = press(s, MouseKind::LeftDown, 40, 6, 1000);
    assert_eq!(first.state.selected_conn_idx, 1);
    assert!(first.effects.is_empty());
    let second = press(first.state, MouseKind::LeftDown, 40, 6, 1200);
    assert!(matches!(second.effects.as_slice(), [Effect::CloseConnection { id }] if id == "b"));
    let late = press(second.state, MouseKind::LeftDown, 40, 6, 2000);
    assert!(late.effects.is_empty());
}

#[test]
fn click_on_connections_header_switches_ordering() {
    let mut s = state();
    s.active_tab = Tab::Connections;
    let out = press(s, MouseKind::LeftDown, 40, 4, 5);
    assert!(out.state.sort_connections_by_traffic);
    assert_eq!(out.state.toast, Some(("已开启连接流量降序排序".to_string(), 5)));
}

#[test]
fn four_clicks_on_the_theme_restore_it() {
    let mut s = state();
    s.active_tab = Tab::Settings;
    let start = s.settings.ui_theme.clone();
    // Find the theme line of the display card (the right half, lower card).
    let mut row = None;
    for r in 6..29u16 {
        let mut probe = state();
        probe.active_tab = Tab::Settings;
        let out = press(probe, MouseKind::LeftDown, 80, r, 0);
        if out.state.settings.focus == 17 {
            row = Some(r);
            break;
        }
    }
    let row = row.expect("the theme line is on screen");
    let mut seen = Vec::new();
    for _ in 0..4 {
        s = press(s, MouseKind::LeftDown, 80, row, 0).state;
        assert_eq!(s.settings.focus, 17);
        seen.push(s.settings.ui_theme.clone());
    }
    assert_eq!(seen, vec!["Nord", "TokyoNight", "Gruvbox", "Catppuccin"]);
    assert_eq!(s.settings.ui_theme, start);
}
