use mimo::state::Tab;
use mimo::models::{ApiDelayHistory, ApiProxyItem};
use mimo::i18n::{t, Language};
use mimo::settings::{Config, Settings};
use mimo::theme::{format_bytes, format_speed};

#[test]
fn byte_sizes() {
    assert_eq!(format_bytes(0), "0 B");
    assert_eq!(format_bytes(1023), "1023 B");
    assert_eq!(format_bytes(1024), "1.00 KB");
    assert_eq!(format_bytes(1536), "1.50 KB");
    assert_eq!(format_bytes(1048576), "1.00 MB");
    assert_eq!(format_bytes(1073741824), "1.00 GB");
    assert_eq!(format_bytes(u64::MAX), format!("{:.2} GB", u64::MAX as f64 / 1073741824.0));
    for b in [1025u64, 5000, 123456, 9999999, 1u64 << 33, 1234567890123] {
        let f = b as f64;
        let expected = if b >= 1 << 30 {
            format!("{:.2} GB", f / (1u64 << 30) as f64)
        } else if b >= 1 << 20 {
            format!("{:.2} MB", f / (1u64 << 20) as f64)
        } else {
            format!("{:.2} KB", f / 1024.0)
        };
        assert_eq!(format_bytes(b), expected);
    }
}

#[test]
fn speed_is_size_per_second() {
    assert_eq!(format_speed(2048), "2.00 KB/s");
    assert_eq!(format_speed(12), "12 B/s");
}

#[test]
fn translations() {
    assert_eq!(t("tab_dashboard", Language::Zh), " 仪表盘 ");
    assert_eq!(t("tab_dashboard", Language::En), " Dashboard ");
    assert_eq!(t("no_such_key", Language::En), "no_such_key");
    assert_eq!(Language::from_str("English"), Language::En);
    assert_eq!(Language::from_str("EN"), Language::En);
    assert_eq!(Language::from_str("fr"), Language::Zh);
    assert_eq!(Language::default(), Language::Zh);
}

#[test]
fn config_defaults_and_environment() {
    let c = Config::default();
    assert_eq!(c.api_url, "http://127.0.0.1:9090");
    assert_eq!(c.http_port, 7890);
    assert_eq!(c.language, "zh");
    let c = c.apply_environment(Some("http://10.0.0.1:9090/".to_string()), Some("tok".to_string()));
    assert_eq!(c.api_url, "http://10.0.0.1:9090");
    assert_eq!(c.secret.as_deref(), Some("tok"));
    let c = Config::default().apply_environment(Some("   ".to_string()), Some("".to_string()));
    assert_eq!(c.api_url, "http://127.0.0.1:9090");
    assert_eq!(c.secret, None);
    assert_eq!(Settings::config_file_path("/cfg"), "/cfg/config.toml");
    assert_eq!(Settings::config_dir("/home/u"), "/home/u/.config/mimo");
    let s = Settings::default();
    assert_eq!(s.tun_stack, "system");
    assert_eq!(s.sub_update_hours, 12);
}

#[test]
fn api_items_tell_groups_and_last_delay() {
    let item = |t: &str, all: Option<Vec<String>>, delays: Vec<u16>| ApiProxyItem {
        name: "x".to_string(),
        proxy_type: t.to_string(),
        udp: None,
        history: Some(delays.into_iter().map(|d| ApiDelayHistory { time: String::new(), delay: d }).collect()),
        all,
        now: None,
    };
    assert!(item("selector", None, vec![]).is_group());
    assert!(item("LoadBalance", None, vec![]).is_group());
    assert!(item("Shadowsocks", Some(vec![]), vec![]).is_group());
    assert!(!item("Shadowsocks", None, vec![]).is_group());
    assert_eq!(item("Vmess", None, vec![120, 80]).last_delay(), Some(80));
    assert_eq!(item("Vmess", None, vec![120, 0]).last_delay(), None);
    assert_eq!(item("Vmess", None, vec![]).last_delay(), None);
}

#[test]
fn titles_are_distinct_translations() {
    use_titles(Language::Zh);
    use_titles(Language::En);
    assert_eq!(Tab::Proxies.title(Language::En), " Proxies ");
    assert_eq!(Tab::About.title(Language::Zh), " 关于 Mimo ");
}

fn use_titles(lang: Language) {
    let titles: Vec<&str> = (0..10).filter_map(Tab::from_index).map(|tab| tab.title(lang)).collect();
    assert_eq!(titles.len(), 10);
    for i in 0..10 {
        assert!(!titles[i].starts_with("tab_"));
        for j in 0..i {
            assert_ne!(titles[i], titles[j]);
        }
    }
}

#[test]
fn unknown_keys_fall_back_and_known_keys_are_translated() {
    assert_eq!(t("no_such_key", Language::En), "no_such_key");
    assert_eq!(t("no_such_key", Language::Zh), "no_such_key");
    assert_ne!(t("settings_save_btn", Language::En), "settings_save_btn");
    assert_ne!(t("enabled", Language::Zh), "enabled");
}
