//! Interface language and translated labels.
use vstd::prelude::*;
use crate::text::{str_eq, to_lowercase, unicode_lowercase};

verus! {

/// Interface language.
#[derive(Clone, Copy, PartialEq, Eq, Structural, Debug)]
pub enum Language {
    Zh,
    En,
}

impl Language {
    /// The language a setting names: English for `en` or `english` (any case),
    /// Chinese otherwise.
    pub fn from_str(s: &str) -> (r: Language)
        ensures
            r == (if unicode_lowercase(s@) == "en"@ || unicode_lowercase(s@) == "english"@ {
                Language::En
            } else {
                Language::Zh
            }),
    {
        let l = to_lowercase(s);
        if str_eq(l.as_str(), "en") || str_eq(l.as_str(), "english") {
            Language::En
        } else {
            Language::Zh
        }
    }
}

impl Default for Language {
    /// The default interface language (Chinese).
    fn default() -> (r: Language)
        ensures
            r == Language::Zh,
    {
        Language::Zh
    }
}

/// Chinese labels by key; unknown keys are returned unchanged.
pub open spec fn label_zh(key: Seq<char>) -> Seq<char> {
    if key == "tab_dashboard"@ {
        " 仪表盘 "@
    } else if key == "tab_proxies"@ {
        " 节点选择 "@
    } else if key == "tab_profiles"@ {
        " 订阅配置 "@
    } else if key == "tab_rules"@ {
        " 规则路由 "@
    } else if key == "tab_connections"@ {
        " 连接管理 "@
    } else if key == "tab_traffic"@ {
        " 流量监控 "@
    } else if key == "tab_logs"@ {
        " 运行日志 "@
    } else if key == "tab_settings"@ {
        " 系统设置 "@
    } else if key == "tab_privileges"@ {
        " 权限管理 "@
    } else if key == "tab_about"@ {
        " 关于 Mimo "@
    } else if key == "header_ver"@ {
        " 内核版本 : "@
    } else if key == "header_mode"@ {
        " 运行模式 : "@
    } else if key == "header_sysproxy"@ {
        " 系统代理 : "@
    } else if key == "header_tun"@ {
        " TUN 网卡 : "@
    } else if key == "header_active_node"@ {
        " 代理节点 : "@
    } else if key == "btn_mode_hint"@ {
        " (按 'm' 切换模式)"@
    } else if key == "btn_sysproxy_hint"@ {
        " (按 'p' 开关系统代理)"@
    } else if key == "btn_tun_hint"@ {
        " (按 'x' 开关 TUN 模式)"@
    } else if key == "btn_restart_hint"@ {
        " (按 'r' 重启核心服务)"@
    } else if key == "enabled"@ {
        "已开启"@
    } else if key == "disabled"@ {
        "已关闭"@
    } else if key == "priv_ok"@ {
        " (cap_net_admin: 正常)"@
    } else if key == "priv_req"@ {
        " (需要 root/cap_net_admin 权限)"@
    } else if key == "title_overview"@ {
        " 核心状态 "@
    } else if key == "title_throughput"@ {
        " 实时速率 "@
    } else if key == "title_navigation"@ {
        " 导航菜单 "@
    } else if key == "title_proxies_groups"@ {
        " 代理分组 "@
    } else if key == "title_proxies_nodes"@ {
        " 节点列表 "@
    } else if key == "title_profiles_settings"@ {
        " 订阅存储 "@
    } else if key == "title_profiles_list"@ {
        " 订阅列表 "@
    } else if key == "title_connections"@ {
        " 活跃连接 "@
    } else if key == "title_logs"@ {
        " 运行日志 "@
    } else if key == "title_settings"@ {
        " 系统设置 "@
    } else if key == "title_rules"@ {
        " 路由规则 "@
    } else if key == "card_network_services"@ {
        " 网络与代理服务 "@
    } else if key == "card_dns_automation"@ {
        " DNS 与自动化 "@
    } else if key == "card_core_controls"@ {
        " 核心服务控制 "@
    } else if key == "card_ui_preferences"@ {
        " 界面与偏好风格 "@
    } else if key == "card_status_diagnostics"@ {
        " 核心与网络出口 "@
    } else if key == "card_running_metrics"@ {
        " 运行指标 "@
    } else if key == "footer_nav"@ {
        " 页面"@
    } else if key == "footer_scroll"@ {
        " 滚动"@
    } else if key == "footer_select"@ {
        " 选择"@
    } else if key == "footer_test"@ {
        " 测速"@
    } else if key == "footer_mode"@ {
        " 模式"@
    } else if key == "footer_sysproxy"@ {
        " 代理"@
    } else if key == "footer_tun"@ {
        " TUN"@
    } else if key == "footer_restart"@ {
        " 重启"@
    } else if key == "footer_help"@ {
        " 帮助"@
    } else if key == "footer_quit"@ {
        " 退出"@
    } else if key == "settings_lang"@ {
        "界面语言 (Language)"@
    } else if key == "settings_api_url"@ {
        "Mihomo REST API 地址"@
    } else if key == "settings_secret"@ {
        "Mihomo API 密钥 (Secret Token)"@
    } else if key == "settings_refresh"@ {
        "界面刷新间隔 (ms)"@
    } else if key == "settings_http_port"@ {
        "系统代理 HTTP 端口"@
    } else if key == "settings_socks_port"@ {
        "系统代理 SOCKS 端口"@
    } else if key == "settings_test_url"@ {
        "延迟测试 URL"@
    } else if key == "settings_dns_mode"@ {
        "DNS 解析模式 (fake-ip / redir-host)"@
    } else if key == "settings_auto_sysproxy"@ {
        "启动时自动开代理 (ON / OFF)"@
    } else if key == "settings_sub_update"@ {
        "订阅自动更新周期 (小时)"@
    } else if key == "settings_ui_theme"@ {
        "界面配色主题 Preset"@
    } else if key == "settings_save_btn"@ {
        " [按 Enter 保存配置到 ~/.config/mimo/config.toml] "@
    } else {
        key
    }
}

/// English labels by key; unknown keys are returned unchanged.
pub open spec fn label_en(key: Seq<char>) -> Seq<char> {
    if key == "tab_dashboard"@ {
        " Dashboard "@
    } else if key == "tab_proxies"@ {
        " Proxies "@
    } else if key == "tab_profiles"@ {
        " Profiles "@
    } else if key == "tab_rules"@ {
        " Rules "@
    } else if key == "tab_connections"@ {
        " Connections "@
    } else if key == "tab_traffic"@ {
        " Traffic "@
    } else if key == "tab_logs"@ {
        " Logs "@
    } else if key == "tab_settings"@ {
        " Settings "@
    } else if key == "tab_privileges"@ {
        " Privileges "@
    } else if key == "tab_about"@ {
        " About "@
    } else if key == "header_ver"@ {
        " Core Ver : "@
    } else if key == "header_mode"@ {
        " Mode     : "@
    } else if key == "header_sysproxy"@ {
        " SysProxy : "@
    } else if key == "header_tun"@ {
        " TUN      : "@
    } else if key == "header_active_node"@ {
        " Node     : "@
    } else if key == "btn_mode_hint"@ {
        " (Press 'm' to cycle mode)"@
    } else if key == "btn_sysproxy_hint"@ {
        " (Press 'p' to toggle)"@
    } else if key == "btn_tun_hint"@ {
        " (Press 'x' to toggle)"@
    } else if key == "btn_restart_hint"@ {
        " (Press 'r' to restart)"@
    } else if key == "enabled"@ {
        "ENABLED"@
    } else if key == "disabled"@ {
        "DISABLED"@
    } else if key == "priv_ok"@ {
        " (cap_net_admin: OK)"@
    } else if key == "priv_req"@ {
        " (Requires root or cap_net_admin)"@
    } else if key == "title_overview"@ {
        " Core Overview "@
    } else if key == "title_throughput"@ {
        " Realtime Speed "@
    } else if key == "title_navigation"@ {
        " Navigation "@
    } else if key == "title_proxies_groups"@ {
        " Proxy Groups "@
    } else if key == "title_proxies_nodes"@ {
        " Node List "@
    } else if key == "title_profiles_settings"@ {
        " Storage Settings "@
    } else if key == "title_profiles_list"@ {
        " Profiles List "@
    } else if key == "title_connections"@ {
        " Active Connections "@
    } else if key == "title_logs"@ {
        " Core Logs "@
    } else if key == "title_settings"@ {
        " System Settings "@
    } else if key == "title_rules"@ {
        " Routing Rules "@
    } else if key == "card_network_services"@ {
        " Network & Ports "@
    } else if key == "card_dns_automation"@ {
        " DNS & Automation "@
    } else if key == "card_core_controls"@ {
        " Core & System Controls "@
    } else if key == "card_ui_preferences"@ {
        " Display & Preferences "@
    } else if key == "card_status_diagnostics"@ {
        " Core & Outbound "@
    } else if key == "card_running_metrics"@ {
        " Metrics "@
    } else if key == "footer_nav"@ {
        " Tabs"@
    } else if key == "footer_scroll"@ {
        " Nav"@
    } else if key == "footer_select"@ {
        " Select"@
    } else if key == "footer_test"@ {
        " Test"@
    } else if key == "footer_mode"@ {
        " Mode"@
    } else if key == "footer_sysproxy"@ {
        " Proxy"@
    } else if key == "footer_tun"@ {
        " TUN"@
    } else if key == "footer_restart"@ {
        " Restart"@
    } else if key == "footer_help"@ {
        " Help"@
    } else if key == "footer_quit"@ {
        " Quit"@
    } else if key == "settings_lang"@ {
        "Interface Language"@
    } else if key == "settings_api_url"@ {
        "Mihomo REST API URL"@
    } else if key == "settings_secret"@ {
        "Mihomo Secret Token"@
    } else if key == "settings_refresh"@ {
        "UI Refresh Interval (ms)"@
    } else if key == "settings_http_port"@ {
        "System Proxy HTTP Port"@
    } else if key == "settings_socks_port"@ {
        "System Proxy SOCKS Port"@
    } else if key == "settings_test_url"@ {
        "Latency Test URL"@
    } else if key == "settings_dns_mode"@ {
        "DNS Enhanced Mode"@
    } else if key == "settings_auto_sysproxy"@ {
        "Launch Auto SysProxy"@
    } else if key == "settings_sub_update"@ {
        "Sub Auto-Update Interval (Hours)"@
    } else if key == "settings_ui_theme"@ {
        "UI Theme Preset"@
    } else if key == "settings_save_btn"@ {
        " [Press Enter to Save to ~/.config/mimo/config.toml] "@
    } else {
        key
    }
}

/// The label of `key` in `lang`.
pub open spec fn spec_t(key: Seq<char>, lang: Language) -> Seq<char> {
    match lang {
        Language::Zh => label_zh(key),
        Language::En => label_en(key),
    }
}

fn t_zh<'a>(key: &'a str) -> (r: &'a str)
    ensures
        r@ == label_zh(key@),
{
    if key.eq("tab_dashboard") {
        " 仪表盘 "
    } else if key.eq("tab_proxies") {
        " 节点选择 "
    } else if key.eq("tab_profiles") {
        " 订阅配置 "
    } else if key.eq("tab_rules") {
        " 规则路由 "
    } else if key.eq("tab_connections") {
        " 连接管理 "
    } else if key.eq("tab_traffic") {
        " 流量监控 "
    } else if key.eq("tab_logs") {
        " 运行日志 "
    } else if key.eq("tab_settings") {
        " 系统设置 "
    } else if key.eq("tab_privileges") {
        " 权限管理 "
    } else if key.eq("tab_about") {
        " 关于 Mimo "
    } else if key.eq("header_ver") {
        " 内核版本 : "
    } else if key.eq("header_mode") {
        " 运行模式 : "
    } else if key.eq("header_sysproxy") {
        " 系统代理 : "
    } else if key.eq("header_tun") {
        " TUN 网卡 : "
    } else if key.eq("header_active_node") {
        " 代理节点 : "
    } else if key.eq("btn_mode_hint") {
        " (按 'm' 切换模式)"
    } else if key.eq("btn_sysproxy_hint") {
        " (按 'p' 开关系统代理)"
    } else if key.eq("btn_tun_hint") {
        " (按 'x' 开关 TUN 模式)"
    } else if key.eq("btn_restart_hint") {
        " (按 'r' 重启核心服务)"
    } else if key.eq("enabled") {
        "已开启"
    } else if key.eq("disabled") {
        "已关闭"
    } else if key.eq("priv_ok") {
        " (cap_net_admin: 正常)"
    } else if key.eq("priv_req") {
        " (需要 root/cap_net_admin 权限)"
    } else if key.eq("title_overview") {
        " 核心状态 "
    } else if key.eq("title_throughput") {
        " 实时速率 "
    } else if key.eq("title_navigation") {
        " 导航菜单 "
    } else if key.eq("title_proxies_groups") {
        " 代理分组 "
    } else if key.eq("title_proxies_nodes") {
        " 节点列表 "
    } else if key.eq("title_profiles_settings") {
        " 订阅存储 "
    } else if key.eq("title_profiles_list") {
        " 订阅列表 "
    } else if key.eq("title_connections") {
        " 活跃连接 "
    } else if key.eq("title_logs") {
        " 运行日志 "
    } else if key.eq("title_settings") {
        " 系统设置 "
    } else if key.eq("title_rules") {
        " 路由规则 "
    } else if key.eq("card_network_services") {
        " 网络与代理服务 "
    } else if key.eq("card_dns_automation") {
        " DNS 与自动化 "
    } else if key.eq("card_core_controls") {
        " 核心服务控制 "
    } else if key.eq("card_ui_preferences") {
        " 界面与偏好风格 "
    } else if key.eq("card_status_diagnostics") {
        " 核心与网络出口 "
    } else if key.eq("card_running_metrics") {
        " 运行指标 "
    } else if key.eq("footer_nav") {
        " 页面"
    } else if key.eq("footer_scroll") {
        " 滚动"
    } else if key.eq("footer_select") {
        " 选择"
    } else if key.eq("footer_test") {
        " 测速"
    } else if key.eq("footer_mode") {
        " 模式"
    } else if key.eq("footer_sysproxy") {
        " 代理"
    } else if key.eq("footer_tun") {
        " TUN"
    } else if key.eq("footer_restart") {
        " 重启"
    } else if key.eq("footer_help") {
        " 帮助"
    } else if key.eq("footer_quit") {
        " 退出"
    } else if key.eq("settings_lang") {
        "界面语言 (Language)"
    } else if key.eq("settings_api_url") {
        "Mihomo REST API 地址"
    } else if key.eq("settings_secret") {
        "Mihomo API 密钥 (Secret Token)"
    } else if key.eq("settings_refresh") {
        "界面刷新间隔 (ms)"
    } else if key.eq("settings_http_port") {
        "系统代理 HTTP 端口"
    } else if key.eq("settings_socks_port") {
        "系统代理 SOCKS 端口"
    } else if key.eq("settings_test_url") {
        "延迟测试 URL"
    } else if key.eq("settings_dns_mode") {
        "DNS 解析模式 (fake-ip / redir-host)"
    } else if key.eq("settings_auto_sysproxy") {
        "启动时自动开代理 (ON / OFF)"
    } else if key.eq("settings_sub_update") {
        "订阅自动更新周期 (小时)"
    } else if key.eq("settings_ui_theme") {
        "界面配色主题 Preset"
    } else if key.eq("settings_save_btn") {
        " [按 Enter 保存配置到 ~/.config/mimo/config.toml] "
    } else {
        key
    }
}

fn t_en<'a>(key: &'a str) -> (r: &'a str)
    ensures
        r@ == label_en(key@),
{
    if key.eq("tab_dashboard") {
        " Dashboard "
    } else if key.eq("tab_proxies") {
        " Proxies "
    } else if key.eq("tab_profiles") {
        " Profiles "
    } else if key.eq("tab_rules") {
        " Rules "
    } else if key.eq("tab_connections") {
        " Connections "
    } else if key.eq("tab_traffic") {
        " Traffic "
    } else if key.eq("tab_logs") {
        " Logs "
    } else if key.eq("tab_settings") {
        " Settings "
    } else if key.eq("tab_privileges") {
        " Privileges "
    } else if key.eq("tab_about") {
        " About "
    } else if key.eq("header_ver") {
        " Core Ver : "
    } else if key.eq("header_mode") {
        " Mode     : "
    } else if key.eq("header_sysproxy") {
        " SysProxy : "
    } else if key.eq("header_tun") {
        " TUN      : "
    } else if key.eq("header_active_node") {
        " Node     : "
    } else if key.eq("btn_mode_hint") {
        " (Press 'm' to cycle mode)"
    } else if key.eq("btn_sysproxy_hint") {
        " (Press 'p' to toggle)"
    } else if key.eq("btn_tun_hint") {
        " (Press 'x' to toggle)"
    } else if key.eq("btn_restart_hint") {
        " (Press 'r' to restart)"
    } else if key.eq("enabled") {
        "ENABLED"
    } else if key.eq("disabled") {
        "DISABLED"
    } else if key.eq("priv_ok") {
        " (cap_net_admin: OK)"
    } else if key.eq("priv_req") {
        " (Requires root or cap_net_admin)"
    } else if key.eq("title_overview") {
        " Core Overview "
    } else if key.eq("title_throughput") {
        " Realtime Speed "
    } else if key.eq("title_navigation") {
        " Navigation "
    } else if key.eq("title_proxies_groups") {
        " Proxy Groups "
    } else if key.eq("title_proxies_nodes") {
        " Node List "
    } else if key.eq("title_profiles_settings") {
        " Storage Settings "
    } else if key.eq("title_profiles_list") {
        " Profiles List "
    } else if key.eq("title_connections") {
        " Active Connections "
    } else if key.eq("title_logs") {
        " Core Logs "
    } else if key.eq("title_settings") {
        " System Settings "
    } else if key.eq("title_rules") {
        " Routing Rules "
    } else if key.eq("card_network_services") {
        " Network & Ports "
    } else if key.eq("card_dns_automation") {
        " DNS & Automation "
    } else if key.eq("card_core_controls") {
        " Core & System Controls "
    } else if key.eq("card_ui_preferences") {
        " Display & Preferences "
    } else if key.eq("card_status_diagnostics") {
        " Core & Outbound "
    } else if key.eq("card_running_metrics") {
        " Metrics "
    } else if key.eq("footer_nav") {
        " Tabs"
    } else if key.eq("footer_scroll") {
        " Nav"
    } else if key.eq("footer_select") {
        " Select"
    } else if key.eq("footer_test") {
        " Test"
    } else if key.eq("footer_mode") {
        " Mode"
    } else if key.eq("footer_sysproxy") {
        " Proxy"
    } else if key.eq("footer_tun") {
        " TUN"
    } else if key.eq("footer_restart") {
        " Restart"
    } else if key.eq("footer_help") {
        " Help"
    } else if key.eq("footer_quit") {
        " Quit"
    } else if key.eq("settings_lang") {
        "Interface Language"
    } else if key.eq("settings_api_url") {
        "Mihomo REST API URL"
    } else if key.eq("settings_secret") {
        "Mihomo Secret Token"
    } else if key.eq("settings_refresh") {
        "UI Refresh Interval (ms)"
    } else if key.eq("settings_http_port") {
        "System Proxy HTTP Port"
    } else if key.eq("settings_socks_port") {
        "System Proxy SOCKS Port"
    } else if key.eq("settings_test_url") {
        "Latency Test URL"
    } else if key.eq("settings_dns_mode") {
        "DNS Enhanced Mode"
    } else if key.eq("settings_auto_sysproxy") {
        "Launch Auto SysProxy"
    } else if key.eq("settings_sub_update") {
        "Sub Auto-Update Interval (Hours)"
    } else if key.eq("settings_ui_theme") {
        "UI Theme Preset"
    } else if key.eq("settings_save_btn") {
        " [Press Enter to Save to ~/.config/mimo/config.toml] "
    } else {
        key
    }
}

/// The label of `key` in `lang`; unknown keys are returned unchanged.
pub fn t<'a>(key: &'a str, lang: Language) -> (r: &'a str)
    ensures
        r@ == spec_t(key@, lang),
{
    match lang {
        Language::Zh => t_zh(key),
        Language::En => t_en(key),
    }
}


// ---------------------------------------------------------------------------
// Laws
// ---------------------------------------------------------------------------

/// The keys the interface has labels for.
pub open spec fn translated_key(key: Seq<char>) -> bool {
    key == "tab_dashboard"@
    || key == "tab_proxies"@
    || key == "tab_profiles"@
    || key == "tab_rules"@
    || key == "tab_connections"@
    || key == "tab_traffic"@
    || key == "tab_logs"@
    || key == "tab_settings"@
    || key == "tab_privileges"@
    || key == "tab_about"@
    || key == "header_ver"@
    || key == "header_mode"@
    || key == "header_sysproxy"@
    || key == "header_tun"@
    || key == "header_active_node"@
    || key == "btn_mode_hint"@
    || key == "btn_sysproxy_hint"@
    || key == "btn_tun_hint"@
    || key == "btn_restart_hint"@
    || key == "enabled"@
    || key == "disabled"@
    || key == "priv_ok"@
    || key == "priv_req"@
    || key == "title_overview"@
    || key == "title_throughput"@
    || key == "title_navigation"@
    || key == "title_proxies_groups"@
    || key == "title_proxies_nodes"@
    || key == "title_profiles_settings"@
    || key == "title_profiles_list"@
    || key == "title_connections"@
    || key == "title_logs"@
    || key == "title_settings"@
    || key == "title_rules"@
    || key == "card_network_services"@
    || key == "card_dns_automation"@
    || key == "card_core_controls"@
    || key == "card_ui_preferences"@
    || key == "card_status_diagnostics"@
    || key == "card_running_metrics"@
    || key == "footer_nav"@
    || key == "footer_scroll"@
    || key == "footer_select"@
    || key == "footer_test"@
    || key == "footer_mode"@
    || key == "footer_sysproxy"@
    || key == "footer_tun"@
    || key == "footer_restart"@
    || key == "footer_help"@
    || key == "footer_quit"@
    || key == "settings_lang"@
    || key == "settings_api_url"@
    || key == "settings_secret"@
    || key == "settings_refresh"@
    || key == "settings_http_port"@
    || key == "settings_socks_port"@
    || key == "settings_test_url"@
    || key == "settings_dns_mode"@
    || key == "settings_auto_sysproxy"@
    || key == "settings_sub_update"@
    || key == "settings_ui_theme"@
    || key == "settings_save_btn"@
}

/// Every key the interface has a label for is translated in both languages
/// (its label differs from the key), and every other key falls back to
/// itself in both.
pub proof fn lemma_translations(key: Seq<char>)
    ensures
        translated_key(key) ==> spec_t(key, Language::Zh) != key && spec_t(key, Language::En) != key,
        !translated_key(key) ==> spec_t(key, Language::Zh) == key && spec_t(key, Language::En) == key,
{
    reveal_strlit("tab_dashboard");
    reveal_strlit("tab_proxies");
    reveal_strlit("tab_profiles");
    reveal_strlit("tab_rules");
    reveal_strlit("tab_connections");
    reveal_strlit("tab_traffic");
    reveal_strlit("tab_logs");
    reveal_strlit("tab_settings");
    reveal_strlit("tab_privileges");
    reveal_strlit("tab_about");
    reveal_strlit("header_ver");
    reveal_strlit("header_mode");
    reveal_strlit("header_sysproxy");
    reveal_strlit("header_tun");
    reveal_strlit("header_active_node");
    reveal_strlit("btn_mode_hint");
    reveal_strlit("btn_sysproxy_hint");
    reveal_strlit("btn_tun_hint");
    reveal_strlit("btn_restart_hint");
    reveal_strlit("enabled");
    reveal_strlit("disabled");
    reveal_strlit("priv_ok");
    reveal_strlit("priv_req");
    reveal_strlit("title_overview");
    reveal_strlit("title_throughput");
    reveal_strlit("title_navigation");
    reveal_strlit("title_proxies_groups");
    reveal_strlit("title_proxies_nodes");
    reveal_strlit("title_profiles_settings");
    reveal_strlit("title_profiles_list");
    reveal_strlit("title_connections");
    reveal_strlit("title_logs");
    reveal_strlit("title_settings");
    reveal_strlit("title_rules");
    reveal_strlit("card_network_services");
    reveal_strlit("card_dns_automation");
    reveal_strlit("card_core_controls");
    reveal_strlit("card_ui_preferences");
    reveal_strlit("card_status_diagnostics");
    reveal_strlit("card_running_metrics");
    reveal_strlit("footer_nav");
    reveal_strlit("footer_scroll");
    reveal_strlit("footer_select");
    reveal_strlit("footer_test");
    reveal_strlit("footer_mode");
    reveal_strlit("footer_sysproxy");
    reveal_strlit("footer_tun");
    reveal_strlit("footer_restart");
    reveal_strlit("footer_help");
    reveal_strlit("footer_quit");
    reveal_strlit("settings_lang");
    reveal_strlit("settings_api_url");
    reveal_strlit("settings_secret");
    reveal_strlit("settings_refresh");
    reveal_strlit("settings_http_port");
    reveal_strlit("settings_socks_port");
    reveal_strlit("settings_test_url");
    reveal_strlit("settings_dns_mode");
    reveal_strlit("settings_auto_sysproxy");
    reveal_strlit("settings_sub_update");
    reveal_strlit("settings_ui_theme");
    reveal_strlit("settings_save_btn");
    if key == "tab_dashboard"@ {
        reveal_strlit(" 仪表盘 ");
        reveal_strlit(" Dashboard ");
        assert(label_zh(key) == " 仪表盘 "@);
        assert(label_en(key) == " Dashboard "@);
        assert(" 仪表盘 "@ != "tab_dashboard"@ && " Dashboard "@ != "tab_dashboard"@);
    } else if key == "tab_proxies"@ {
        reveal_strlit(" 节点选择 ");
        reveal_strlit(" Proxies ");
        assert(label_zh(key) == " 节点选择 "@);
        assert(label_en(key) == " Proxies "@);
        assert(" 节点选择 "@ != "tab_proxies"@ && " Proxies "@ != "tab_proxies"@);
    } else if key == "tab_profiles"@ {
        reveal_strlit(" 订阅配置 ");
        reveal_strlit(" Profiles ");
        assert(label_zh(key) == " 订阅配置 "@);
        assert(label_en(key) == " Profiles "@);
        assert(" 订阅配置 "@ != "tab_profiles"@ && " Profiles "@ != "tab_profiles"@);
    } else if key == "tab_rules"@ {
        reveal_strlit(" 规则路由 ");
        reveal_strlit(" Rules ");
        assert(label_zh(key) == " 规则路由 "@);
        assert(label_en(key) == " Rules "@);
        assert(" 规则路由 "@ != "tab_rules"@ && " Rules "@ != "tab_rules"@);
    } else if key == "tab_connections"@ {
        reveal_strlit(" 连接管理 ");
        reveal_strlit(" Connections ");
        assert(label_zh(key) == " 连接管理 "@);
        assert(label_en(key) == " Connections "@);
        assert(" 连接管理 "@ != "tab_connections"@ && " Connections "@ != "tab_connections"@);
    } else if key == "tab_traffic"@ {
        reveal_strlit(" 流量监控 ");
        reveal_strlit(" Traffic ");
        assert(label_zh(key) == " 流量监控 "@);
        assert(label_en(key) == " Traffic "@);
        assert(" 流量监控 "@ != "tab_traffic"@ && " Traffic "@ != "tab_traffic"@);
    } else if key == "tab_logs"@ {
        reveal_strlit(" 运行日志 ");
        reveal_strlit(" Logs ");
        assert(label_zh(key) == " 运行日志 "@);
        assert(label_en(key) == " Logs "@);
        assert(" 运行日志 "@ != "tab_logs"@ && " Logs "@ != "tab_logs"@);
    } else if key == "tab_settings"@ {
        reveal_strlit(" 系统设置 ");
        reveal_strlit(" Settings ");
        assert(label_zh(key) == " 系统设置 "@);
        assert(label_en(key) == " Settings "@);
        assert(" 系统设置 "@ != "tab_settings"@ && " Settings "@ != "tab_settings"@);
    } else if key == "tab_privileges"@ {
        reveal_strlit(" 权限管理 ");
        reveal_strlit(" Privileges ");
        assert(label_zh(key) == " 权限管理 "@);
        assert(label_en(key) == " Privileges "@);
        assert(" 权限管理 "@ != "tab_privileges"@ && " Privileges "@ != "tab_privileges"@);
    } else if key == "tab_about"@ {
        reveal_strlit(" 关于 Mimo ");
        reveal_strlit(" About ");
        assert(label_zh(key) == " 关于 Mimo "@);
        assert(label_en(key) == " About "@);
        assert(" 关于 Mimo "@[0] != "tab_about"@[0]);
        assert(" 关于 Mimo "@ != "tab_about"@ && " About "@ != "tab_about"@);
    } else if key == "header_ver"@ {
        reveal_strlit(" 内核版本 : ");
        reveal_strlit(" Core Ver : ");
        assert(label_zh(key) == " 内核版本 : "@);
        assert(label_en(key) == " Core Ver : "@);
        assert(" 内核版本 : "@ != "header_ver"@ && " Core Ver : "@ != "header_ver"@);
    } else if key == "header_mode"@ {
        reveal_strlit(" 运行模式 : ");
        reveal_strlit(" Mode     : ");
        assert(label_zh(key) == " 运行模式 : "@);
        assert(label_en(key) == " Mode     : "@);
        assert(" 运行模式 : "@ != "header_mode"@ && " Mode     : "@ != "header_mode"@);
    } else if key == "header_sysproxy"@ {
        reveal_strlit(" 系统代理 : ");
        reveal_strlit(" SysProxy : ");
        assert(label_zh(key) == " 系统代理 : "@);
        assert(label_en(key) == " SysProxy : "@);
        assert(" 系统代理 : "@ != "header_sysproxy"@ && " SysProxy : "@ != "header_sysproxy"@);
    } else if key == "header_tun"@ {
        reveal_strlit(" TUN 网卡 : ");
        reveal_strlit(" TUN      : ");
        assert(label_zh(key) == " TUN 网卡 : "@);
        assert(label_en(key) == " TUN      : "@);
        assert(" TUN 网卡 : "@[0] != "header_tun"@[0]);
        assert(" TUN 网卡 : "@ != "header_tun"@ && " TUN      : "@ != "header_tun"@);
    } else if key == "header_active_node"@ {
        reveal_strlit(" 代理节点 : ");
        reveal_strlit(" Node     : ");
        assert(label_zh(key) == " 代理节点 : "@);
        assert(label_en(key) == " Node     : "@);
        assert(" 代理节点 : "@ != "header_active_node"@ && " Node     : "@ != "header_active_node"@);
    } else if key == "btn_mode_hint"@ {
        reveal_strlit(" (按 'm' 切换模式)");
        reveal_strlit(" (Press 'm' to cycle mode)");
        assert(label_zh(key) == " (按 'm' 切换模式)"@);
        assert(label_en(key) == " (Press 'm' to cycle mode)"@);
        assert(" (按 'm' 切换模式)"@[0] != "btn_mode_hint"@[0]);
        assert(" (按 'm' 切换模式)"@ != "btn_mode_hint"@ && " (Press 'm' to cycle mode)"@ != "btn_mode_hint"@);
    } else if key == "btn_sysproxy_hint"@ {
        reveal_strlit(" (按 'p' 开关系统代理)");
        reveal_strlit(" (Press 'p' to toggle)");
        assert(label_zh(key) == " (按 'p' 开关系统代理)"@);
        assert(label_en(key) == " (Press 'p' to toggle)"@);
        assert(" (按 'p' 开关系统代理)"@ != "btn_sysproxy_hint"@ && " (Press 'p' to toggle)"@ != "btn_sysproxy_hint"@);
    } else if key == "btn_tun_hint"@ {
        reveal_strlit(" (按 'x' 开关 TUN 模式)");
        reveal_strlit(" (Press 'x' to toggle)");
        assert(label_zh(key) == " (按 'x' 开关 TUN 模式)"@);
        assert(label_en(key) == " (Press 'x' to toggle)"@);
        assert(" (按 'x' 开关 TUN 模式)"@ != "btn_tun_hint"@ && " (Press 'x' to toggle)"@ != "btn_tun_hint"@);
    } else if key == "btn_restart_hint"@ {
        reveal_strlit(" (按 'r' 重启核心服务)");
        reveal_strlit(" (Press 'r' to restart)");
        assert(label_zh(key) == " (按 'r' 重启核心服务)"@);
        assert(label_en(key) == " (Press 'r' to restart)"@);
        assert(" (按 'r' 重启核心服务)"@ != "btn_restart_hint"@ && " (Press 'r' to restart)"@ != "btn_restart_hint"@);
    } else if key == "enabled"@ {
        reveal_strlit("已开启");
        reveal_strlit("ENABLED");
        assert(label_zh(key) == "已开启"@);
        assert(label_en(key) == "ENABLED"@);
        assert("ENABLED"@[0] != "enabled"@[0]);
        assert("已开启"@ != "enabled"@ && "ENABLED"@ != "enabled"@);
    } else if key == "disabled"@ {
        reveal_strlit("已关闭");
        reveal_strlit("DISABLED");
        assert(label_zh(key) == "已关闭"@);
        assert(label_en(key) == "DISABLED"@);
        assert("DISABLED"@[0] != "disabled"@[0]);
        assert("已关闭"@ != "disabled"@ && "DISABLED"@ != "disabled"@);
    } else if key == "priv_ok"@ {
        reveal_strlit(" (cap_net_admin: 正常)");
        reveal_strlit(" (cap_net_admin: OK)");
        assert(label_zh(key) == " (cap_net_admin: 正常)"@);
        assert(label_en(key) == " (cap_net_admin: OK)"@);
        assert(" (cap_net_admin: 正常)"@ != "priv_ok"@ && " (cap_net_admin: OK)"@ != "priv_ok"@);
    } else if key == "priv_req"@ {
        reveal_strlit(" (需要 root/cap_net_admin 权限)");
        reveal_strlit(" (Requires root or cap_net_admin)");
        assert(label_zh(key) == " (需要 root/cap_net_admin 权限)"@);
        assert(label_en(key) == " (Requires root or cap_net_admin)"@);
        assert(" (需要 root/cap_net_admin 权限)"@ != "priv_req"@ && " (Requires root or cap_net_admin)"@ != "priv_req"@);
    } else if key == "title_overview"@ {
        reveal_strlit(" 核心状态 ");
        reveal_strlit(" Core Overview ");
        assert(label_zh(key) == " 核心状态 "@);
        assert(label_en(key) == " Core Overview "@);
        assert(" 核心状态 "@ != "title_overview"@ && " Core Overview "@ != "title_overview"@);
    } else if key == "title_throughput"@ {
        reveal_strlit(" 实时速率 ");
        reveal_strlit(" Realtime Speed ");
        assert(label_zh(key) == " 实时速率 "@);
        assert(label_en(key) == " Realtime Speed "@);
        assert(" Realtime Speed "@[0] != "title_throughput"@[0]);
        assert(" 实时速率 "@ != "title_throughput"@ && " Realtime Speed "@ != "title_throughput"@);
    } else if key == "title_navigation"@ {
        reveal_strlit(" 导航菜单 ");
        reveal_strlit(" Navigation ");
        assert(label_zh(key) == " 导航菜单 "@);
        assert(label_en(key) == " Navigation "@);
        assert(" 导航菜单 "@ != "title_navigation"@ && " Navigation "@ != "title_navigation"@);
    } else if key == "title_proxies_groups"@ {
        reveal_strlit(" 代理分组 ");
        reveal_strlit(" Proxy Groups ");
        assert(label_zh(key) == " 代理分组 "@);
        assert(label_en(key) == " Proxy Groups "@);
        assert(" 代理分组 "@ != "title_proxies_groups"@ && " Proxy Groups "@ != "title_proxies_groups"@);
    } else if key == "title_proxies_nodes"@ {
        reveal_strlit(" 节点列表 ");
        reveal_strlit(" Node List ");
        assert(label_zh(key) == " 节点列表 "@);
        assert(label_en(key) == " Node List "@);
        assert(" 节点列表 "@ != "title_proxies_nodes"@ && " Node List "@ != "title_proxies_nodes"@);
    } else if key == "title_profiles_settings"@ {
        reveal_strlit(" 订阅存储 ");
        reveal_strlit(" Storage Settings ");
        assert(label_zh(key) == " 订阅存储 "@);
        assert(label_en(key) == " Storage Settings "@);
        assert(" 订阅存储 "@ != "title_profiles_settings"@ && " Storage Settings "@ != "title_profiles_settings"@);
    } else if key == "title_profiles_list"@ {
        reveal_strlit(" 订阅列表 ");
        reveal_strlit(" Profiles List ");
        assert(label_zh(key) == " 订阅列表 "@);
        assert(label_en(key) == " Profiles List "@);
        assert(" 订阅列表 "@ != "title_profiles_list"@ && " Profiles List "@ != "title_profiles_list"@);
    } else if key == "title_connections"@ {
        reveal_strlit(" 活跃连接 ");
        reveal_strlit(" Active Connections ");
        assert(label_zh(key) == " 活跃连接 "@);
        assert(label_en(key) == " Active Connections "@);
        assert(" 活跃连接 "@ != "title_connections"@ && " Active Connections "@ != "title_connections"@);
    } else if key == "title_logs"@ {
        reveal_strlit(" 运行日志 ");
        reveal_strlit(" Core Logs ");
        assert(label_zh(key) == " 运行日志 "@);
        assert(label_en(key) == " Core Logs "@);
        assert(" 运行日志 "@ != "title_logs"@ && " Core Logs "@ != "title_logs"@);
    } else if key == "title_settings"@ {
        reveal_strlit(" 系统设置 ");
        reveal_strlit(" System Settings ");
        assert(label_zh(key) == " 系统设置 "@);
        assert(label_en(key) == " System Settings "@);
        assert(" 系统设置 "@ != "title_settings"@ && " System Settings "@ != "title_settings"@);
    } else if key == "title_rules"@ {
        reveal_strlit(" 路由规则 ");
        reveal_strlit(" Routing Rules ");
        assert(label_zh(key) == " 路由规则 "@);
        assert(label_en(key) == " Routing Rules "@);
        assert(" 路由规则 "@ != "title_rules"@ && " Routing Rules "@ != "title_rules"@);
    } else if key == "card_network_services"@ {
        reveal_strlit(" 网络与代理服务 ");
        reveal_strlit(" Network & Ports ");
        assert(label_zh(key) == " 网络与代理服务 "@);
        assert(label_en(key) == " Network & Ports "@);
        assert(" 网络与代理服务 "@ != "card_network_services"@ && " Network & Ports "@ != "card_network_services"@);
    } else if key == "card_dns_automation"@ {
        reveal_strlit(" DNS 与自动化 ");
        reveal_strlit(" DNS & Automation ");
        assert(label_zh(key) == " DNS 与自动化 "@);
        assert(label_en(key) == " DNS & Automation "@);
        assert(" DNS 与自动化 "@ != "card_dns_automation"@ && " DNS & Automation "@ != "card_dns_automation"@);
    } else if key == "card_core_controls"@ {
        reveal_strlit(" 核心服务控制 ");
        reveal_strlit(" Core & System Controls ");
        assert(label_zh(key) == " 核心服务控制 "@);
        assert(label_en(key) == " Core & System Controls "@);
        assert(" 核心服务控制 "@ != "card_core_controls"@ && " Core & System Controls "@ != "card_core_controls"@);
    } else if key == "card_ui_preferences"@ {
        reveal_strlit(" 界面与偏好风格 ");
        reveal_strlit(" Display & Preferences ");
        assert(label_zh(key) == " 界面与偏好风格 "@);
        assert(label_en(key) == " Display & Preferences "@);
        assert(" 界面与偏好风格 "@ != "card_ui_preferences"@ && " Display & Preferences "@ != "card_ui_preferences"@);
    } else if key == "card_status_diagnostics"@ {
        reveal_strlit(" 核心与网络出口 ");
        reveal_strlit(" Core & Outbound ");
        assert(label_zh(key) == " 核心与网络出口 "@);
        assert(label_en(key) == " Core & Outbound "@);
        assert(" 核心与网络出口 "@ != "card_status_diagnostics"@ && " Core & Outbound "@ != "card_status_diagnostics"@);
    } else if key == "card_running_metrics"@ {
        reveal_strlit(" 运行指标 ");
        reveal_strlit(" Metrics ");
        assert(label_zh(key) == " 运行指标 "@);
        assert(label_en(key) == " Metrics "@);
        assert(" 运行指标 "@ != "card_running_metrics"@ && " Metrics "@ != "card_running_metrics"@);
    } else if key == "footer_nav"@ {
        reveal_strlit(" 页面");
        reveal_strlit(" Tabs");
        assert(label_zh(key) == " 页面"@);
        assert(label_en(key) == " Tabs"@);
        assert(" 页面"@ != "footer_nav"@ && " Tabs"@ != "footer_nav"@);
    } else if key == "footer_scroll"@ {
        reveal_strlit(" 滚动");
        reveal_strlit(" Nav");
        assert(label_zh(key) == " 滚动"@);
        assert(label_en(key) == " Nav"@);
        assert(" 滚动"@ != "footer_scroll"@ && " Nav"@ != "footer_scroll"@);
    } else if key == "footer_select"@ {
        reveal_strlit(" 选择");
        reveal_strlit(" Select");
        assert(label_zh(key) == " 选择"@);
        assert(label_en(key) == " Select"@);
        assert(" 选择"@ != "footer_select"@ && " Select"@ != "footer_select"@);
    } else if key == "footer_test"@ {
        reveal_strlit(" 测速");
        reveal_strlit(" Test");
        assert(label_zh(key) == " 测速"@);
        assert(label_en(key) == " Test"@);
        assert(" 测速"@ != "footer_test"@ && " Test"@ != "footer_test"@);
    } else if key == "footer_mode"@ {
        reveal_strlit(" 模式");
        reveal_strlit(" Mode");
        assert(label_zh(key) == " 模式"@);
        assert(label_en(key) == " Mode"@);
        assert(" 模式"@ != "footer_mode"@ && " Mode"@ != "footer_mode"@);
    } else if key == "footer_sysproxy"@ {
        reveal_strlit(" 代理");
        reveal_strlit(" Proxy");
        assert(label_zh(key) == " 代理"@);
        assert(label_en(key) == " Proxy"@);
        assert(" 代理"@ != "footer_sysproxy"@ && " Proxy"@ != "footer_sysproxy"@);
    } else if key == "footer_tun"@ {
        reveal_strlit(" TUN");
        assert(label_zh(key) == " TUN"@);
        assert(label_en(key) == " TUN"@);
        assert(" TUN"@ != "footer_tun"@ && " TUN"@ != "footer_tun"@);
    } else if key == "footer_restart"@ {
        reveal_strlit(" 重启");
        reveal_strlit(" Restart");
        assert(label_zh(key) == " 重启"@);
        assert(label_en(key) == " Restart"@);
        assert(" 重启"@ != "footer_restart"@ && " Restart"@ != "footer_restart"@);
    } else if key == "footer_help"@ {
        reveal_strlit(" 帮助");
        reveal_strlit(" Help");
        assert(label_zh(key) == " 帮助"@);
        assert(label_en(key) == " Help"@);
        assert(" 帮助"@ != "footer_help"@ && " Help"@ != "footer_help"@);
    } else if key == "footer_quit"@ {
        reveal_strlit(" 退出");
        reveal_strlit(" Quit");
        assert(label_zh(key) == " 退出"@);
        assert(label_en(key) == " Quit"@);
        assert(" 退出"@ != "footer_quit"@ && " Quit"@ != "footer_quit"@);
    } else if key == "settings_lang"@ {
        reveal_strlit("界面语言 (Language)");
        reveal_strlit("Interface Language");
        assert(label_zh(key) == "界面语言 (Language)"@);
        assert(label_en(key) == "Interface Language"@);
        assert("界面语言 (Language)"@ != "settings_lang"@ && "Interface Language"@ != "settings_lang"@);
    } else if key == "settings_api_url"@ {
        reveal_strlit("Mihomo REST API 地址");
        reveal_strlit("Mihomo REST API URL");
        assert(label_zh(key) == "Mihomo REST API 地址"@);
        assert(label_en(key) == "Mihomo REST API URL"@);
        assert("Mihomo REST API 地址"@ != "settings_api_url"@ && "Mihomo REST API URL"@ != "settings_api_url"@);
    } else if key == "settings_secret"@ {
        reveal_strlit("Mihomo API 密钥 (Secret Token)");
        reveal_strlit("Mihomo Secret Token");
        assert(label_zh(key) == "Mihomo API 密钥 (Secret Token)"@);
        assert(label_en(key) == "Mihomo Secret Token"@);
        assert("Mihomo API 密钥 (Secret Token)"@ != "settings_secret"@ && "Mihomo Secret Token"@ != "settings_secret"@);
    } else if key == "settings_refresh"@ {
        reveal_strlit("界面刷新间隔 (ms)");
        reveal_strlit("UI Refresh Interval (ms)");
        assert(label_zh(key) == "界面刷新间隔 (ms)"@);
        assert(label_en(key) == "UI Refresh Interval (ms)"@);
        assert("界面刷新间隔 (ms)"@ != "settings_refresh"@ && "UI Refresh Interval (ms)"@ != "settings_refresh"@);
    } else if key == "settings_http_port"@ {
        reveal_strlit("系统代理 HTTP 端口");
        reveal_strlit("System Proxy HTTP Port");
        assert(label_zh(key) == "系统代理 HTTP 端口"@);
        assert(label_en(key) == "System Proxy HTTP Port"@);
        assert("系统代理 HTTP 端口"@ != "settings_http_port"@ && "System Proxy HTTP Port"@ != "settings_http_port"@);
    } else if key == "settings_socks_port"@ {
        reveal_strlit("系统代理 SOCKS 端口");
        reveal_strlit("System Proxy SOCKS Port");
        assert(label_zh(key) == "系统代理 SOCKS 端口"@);
        assert(label_en(key) == "System Proxy SOCKS Port"@);
        assert("系统代理 SOCKS 端口"@ != "settings_socks_port"@ && "System Proxy SOCKS Port"@ != "settings_socks_port"@);
    } else if key == "settings_test_url"@ {
        reveal_strlit("延迟测试 URL");
        reveal_strlit("Latency Test URL");
        assert(label_zh(key) == "延迟测试 URL"@);
        assert(label_en(key) == "Latency Test URL"@);
        assert("延迟测试 URL"@ != "settings_test_url"@ && "Latency Test URL"@ != "settings_test_url"@);
    } else if key == "settings_dns_mode"@ {
        reveal_strlit("DNS 解析模式 (fake-ip / redir-host)");
        reveal_strlit("DNS Enhanced Mode");
        assert(label_zh(key) == "DNS 解析模式 (fake-ip / redir-host)"@);
        assert(label_en(key) == "DNS Enhanced Mode"@);
        assert("DNS Enhanced Mode"@[0] != "settings_dns_mode"@[0]);
        assert("DNS 解析模式 (fake-ip / redir-host)"@ != "settings_dns_mode"@ && "DNS Enhanced Mode"@ != "settings_dns_mode"@);
    } else if key == "settings_auto_sysproxy"@ {
        reveal_strlit("启动时自动开代理 (ON / OFF)");
        reveal_strlit("Launch Auto SysProxy");
        assert(label_zh(key) == "启动时自动开代理 (ON / OFF)"@);
        assert(label_en(key) == "Launch Auto SysProxy"@);
        assert("启动时自动开代理 (ON / OFF)"@ != "settings_auto_sysproxy"@ && "Launch Auto SysProxy"@ != "settings_auto_sysproxy"@);
    } else if key == "settings_sub_update"@ {
        reveal_strlit("订阅自动更新周期 (小时)");
        reveal_strlit("Sub Auto-Update Interval (Hours)");
        assert(label_zh(key) == "订阅自动更新周期 (小时)"@);
        assert(label_en(key) == "Sub Auto-Update Interval (Hours)"@);
        assert("订阅自动更新周期 (小时)"@ != "settings_sub_update"@ && "Sub Auto-Update Interval (Hours)"@ != "settings_sub_update"@);
    } else if key == "settings_ui_theme"@ {
        reveal_strlit("界面配色主题 Preset");
        reveal_strlit("UI Theme Preset");
        assert(label_zh(key) == "界面配色主题 Preset"@);
        assert(label_en(key) == "UI Theme Preset"@);
        assert("界面配色主题 Preset"@ != "settings_ui_theme"@ && "UI Theme Preset"@ != "settings_ui_theme"@);
    } else if key == "settings_save_btn"@ {
        reveal_strlit(" [按 Enter 保存配置到 ~/.config/mimo/config.toml] ");
        reveal_strlit(" [Press Enter to Save to ~/.config/mimo/config.toml] ");
        assert(label_zh(key) == " [按 Enter 保存配置到 ~/.config/mimo/config.toml] "@);
        assert(label_en(key) == " [Press Enter to Save to ~/.config/mimo/config.toml] "@);
        assert(" [按 Enter 保存配置到 ~/.config/mimo/config.toml] "@[0] != "settings_save_btn"@[0]);
        assert(" [Press Enter to Save to ~/.config/mimo/config.toml] "@[0] != "settings_save_btn"@[0]);
        assert(" [按 Enter 保存配置到 ~/.config/mimo/config.toml] "@ != "settings_save_btn"@ && " [Press Enter to Save to ~/.config/mimo/config.toml] "@ != "settings_save_btn"@);
    }
}

} // verus!
