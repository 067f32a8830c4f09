use mimo::api::{convert_to_ws_url, read_outbound_ip, MihomoClient};
use mimo::commands::{
    latency_band, parse_core_action, parse_tun_action, sysproxy_state_is_on, updated_text, CoreCommand,
    LatencyBand, TunCommand,
};
use mimo::mihomo_core::{
    attempt_at, download_result, download_start, download_step, release_check_urls, version_step, AttemptResult,
    CoreDownloader,
    CoreProcess, DownloadProgress, DownloadStep, IfaceProbe, SystemProxy, TunMode,
};

#[test]
fn test_get_arch_filename() {
    let filename = CoreDownloader::get_arch_filename("x86_64", "v1.19.30").unwrap();
    assert!(filename.contains("v1.19.30"));
    assert!(filename.ends_with(".gz"));
    assert!(filename.starts_with("mihomo-linux-"));
}

#[test]
fn test_target_binary_path() {
    let path = CoreDownloader::target_binary_path("/home/user");
    assert!(path.ends_with("mihomo"));
    assert_eq!(path, "/home/user/.config/mimo/bin/mihomo");
}

#[test]
fn arch_filenames() {
    assert_eq!(CoreDownloader::get_arch_filename("x86_64", "v1.2.3").unwrap(), "mihomo-linux-amd64-compatible-v1.2.3.gz");
    assert_eq!(CoreDownloader::get_arch_filename("aarch64", "v1").unwrap(), "mihomo-linux-arm64-v1.gz");
    assert_eq!(CoreDownloader::get_arch_filename("arm", "v1").unwrap(), "mihomo-linux-armv7-v1.gz");
    assert_eq!(CoreDownloader::get_arch_filename("i686", "v1").unwrap(), "mihomo-linux-386-v1.gz");
    assert_eq!(
        CoreDownloader::get_arch_filename("riscv64", "v1").unwrap_err(),
        "Unsupported system architecture: riscv64"
    );
}

#[test]
fn release_tag_from_redirect() {
    assert_eq!(
        CoreDownloader::tag_from_url("https://github.com/MetaCubeX/mihomo/releases/tag/v1.19.31").as_deref(),
        Some("v1.19.31")
    );
    assert_eq!(CoreDownloader::tag_from_url("https://x/releases/tag/v1.2/").as_deref(), Some("v1.2"));
    assert_eq!(CoreDownloader::tag_from_url("https://x/releases/tag/v1"), None);
    assert_eq!(CoreDownloader::tag_from_url("https://x/releases/latest"), None);
    assert_eq!(CoreDownloader::tag_from_url("https://x/tag/1.2.3"), None);
}

#[test]
fn mirror_urls_in_order() {
    let urls = CoreDownloader::mirror_urls("v1", "f.gz");
    assert_eq!(urls.len(), 4);
    assert_eq!(urls[0], "https://github.com/MetaCubeX/mihomo/releases/download/v1/f.gz");
    assert_eq!(urls[1], "https://ghproxy.net/https://github.com/MetaCubeX/mihomo/releases/download/v1/f.gz");
    assert_eq!(urls[3], "https://gh.ddlc.top/https://github.com/MetaCubeX/mihomo/releases/download/v1/f.gz");
    assert_eq!(CoreDownloader::candidate_proxy_ports(), vec![7890, 7897, 7891]);
}

#[test]
fn systemd_and_desktop_outputs() {
    assert!(CoreProcess::is_active_output("active\n"));
    assert!(!CoreProcess::is_active_output("inactive\n"));
    assert!(SystemProxy::gnome_mode_is_manual("'manual'\n"));
    assert!(!SystemProxy::gnome_mode_is_manual("'none'\n"));
    assert!(SystemProxy::kde_type_is_manual(" 1\n"));
    assert!(!SystemProxy::kde_type_is_manual("0"));
    assert!(SystemProxy::is_enabled_from(None, &vec!["0".to_string(), "1".to_string()], None));
    assert!(SystemProxy::is_enabled_from(None, &vec![], Some("http://p".to_string())));
    assert!(!SystemProxy::is_enabled_from(Some("'none'".to_string()), &vec![], Some(String::new())));
    let v = SystemProxy::proxy_values(7890, 7891);
    assert_eq!(v.kde_http, "http://127.0.0.1 7890");
    assert_eq!(v.kde_socks, "socks://127.0.0.1 7891");
    assert_eq!(v.env_http, "http://127.0.0.1:7890");
    assert_eq!(v.env_socks, "socks5://127.0.0.1:7891");
    assert_eq!(v.http_port, "7890");
}

#[test]
fn tun_interface_reading() {
    assert!(TunMode::has_net_admin("/usr/bin/mihomo cap_net_admin=ep"));
    assert!(!TunMode::has_net_admin("/usr/bin/mihomo"));
    assert!(TunMode::operstate_is_up("UP\n"));
    assert!(TunMode::operstate_is_up("unknown"));
    assert!(!TunMode::operstate_is_up("down"));
    let none = |_: usize| IfaceProbe { exists: false, operstate: None };
    let probes = vec![none(0), IfaceProbe { exists: true, operstate: Some("down".to_string()) }, none(2), none(3)];
    assert_eq!(TunMode::get_interface_info(&probes, &vec![]), ("mihomo".to_string(), false));
    let probes = vec![none(0), none(1), none(2), none(3)];
    let names = vec!["lo".to_string(), "tun7".to_string()];
    assert_eq!(TunMode::get_interface_info(&probes, &names), ("tun7".to_string(), true));
    assert_eq!(TunMode::get_interface_info(&probes, &vec!["eth0".to_string()]), ("None".to_string(), false));
    assert_eq!(TunMode::candidate_interfaces(), vec!["tun0", "mihomo", "utun", "clash"]);
}

#[test]
fn tun_details_defaults() {
    let d = TunMode::get_interface_details("tun0".to_string(), true, Some("9000\n".to_string()), None, Some("x".to_string()));
    assert_eq!(d.mtu, 9000);
    assert_eq!(d.rx_bytes, 0);
    assert_eq!(d.tx_bytes, 0);
    assert!(d.is_up);
    let d = TunMode::get_interface_details("tun0".to_string(), true, None, Some(" 42 ".to_string()), None);
    assert_eq!(d.mtu, 1500);
    assert_eq!(d.rx_bytes, 42);
    let d = TunMode::get_interface_details("None".to_string(), true, Some("9000".to_string()), None, None);
    assert_eq!(d.mtu, 0);
    assert!(!d.is_up);
    assert_eq!(TunMode::authorization_error("  "), "System authorization failed. Please check your password.");
    assert_eq!(TunMode::authorization_error(" bad\n"), "Authorization error: bad");
}

#[test]
fn websocket_addresses() {
    assert_eq!(convert_to_ws_url("http://127.0.0.1:9090/", "/traffic", None), "ws://127.0.0.1:9090/traffic");
    assert_eq!(convert_to_ws_url("https://h", "/traffic", Some("a b")), "wss://h/traffic?token=a%20b");
    assert_eq!(convert_to_ws_url("http://h", "/logs?level=info", Some("s")), "ws://h/logs?level=info&token=s");
    assert_eq!(convert_to_ws_url("http://h", "/traffic", Some("  ")), "ws://h/traffic");
}

#[test]
fn api_addresses() {
    let e = MihomoClient::new("http://127.0.0.1:9090/", Some(" s3cret ".to_string())).unwrap();
    assert_eq!(e.base_url, "http://127.0.0.1:9090");
    assert_eq!(e.auth_header().as_deref(), Some("Bearer s3cret"));
    assert_eq!(MihomoClient::new("h", Some("  ".to_string())).unwrap().auth_header(), None);
    assert_eq!(e.url("/version"), "http://127.0.0.1:9090/version");
    assert_eq!(e.select_proxy_url("My Group"), "http://127.0.0.1:9090/proxies/My%20Group");
    assert_eq!(
        e.delay_url("HK 01", None, None),
        "http://127.0.0.1:9090/proxies/HK%2001/delay?url=http%3A%2F%2Fwww.gstatic.com%2Fgenerate_204&timeout=2000"
    );
    assert_eq!(
        e.group_delay_url("G", Some("http://a"), Some(3000)),
        "http://127.0.0.1:9090/group/G/delay?url=http%3A%2F%2Fa&timeout=3000"
    );
    assert_eq!(e.connection_url("abc"), "http://127.0.0.1:9090/connections/abc");
}

#[test]
fn outbound_ip_replies() {
    assert_eq!(read_outbound_ip(" {\"ip\": \" 1.2.3.4 \"} ").as_deref(), Some("1.2.3.4"));
    assert_eq!(read_outbound_ip("{\"addr\": \"1.2.3.4\"}"), None);
    assert_eq!(read_outbound_ip("5.6.7.8\n").as_deref(), Some("5.6.7.8"));
    assert_eq!(read_outbound_ip("2001:db8::1").as_deref(), Some("2001:db8::1"));
    assert_eq!(read_outbound_ip("<html>error</html>"), None);
    assert_eq!(read_outbound_ip(""), None);
}

#[test]
fn command_words() {
    assert!(sysproxy_state_is_on("ON"));
    assert!(sysproxy_state_is_on("true"));
    assert!(sysproxy_state_is_on("1"));
    assert!(!sysproxy_state_is_on("off"));
    assert_eq!(parse_core_action("Restart").unwrap(), CoreCommand::Restart);
    assert_eq!(parse_core_action("install").unwrap(), CoreCommand::Download);
    assert_eq!(parse_core_action("jump").unwrap_err(), "Unknown core action");
    assert!(matches!(parse_tun_action("ENABLE"), Ok(TunCommand::On)));
    assert!(matches!(parse_tun_action("0"), Ok(TunCommand::Off)));
    match parse_tun_action("gVisor") {
        Ok(TunCommand::Stack(s)) => assert_eq!(s, "gVisor"),
        _ => panic!("stack expected"),
    }
    assert_eq!(
        parse_tun_action("fly").err().unwrap(),
        "Unknown TUN action 'fly'. Supported actions: on, off, status, grant, revoke, system, gvisor, lwip"
    );
    assert_eq!(latency_band(Some(199)), LatencyBand::Fast);
    assert_eq!(latency_band(Some(200)), LatencyBand::Medium);
    assert_eq!(latency_band(Some(500)), LatencyBand::Slow);
    assert_eq!(latency_band(None), LatencyBand::Unknown);
    assert_eq!(updated_text(Some(30)), "30s ago");
    assert_eq!(updated_text(None), "Never");
}

#[test]
fn version_falls_back_when_no_tag_is_found() {
    assert_eq!(CoreDownloader::version_or_fallback(Some("v1.20.0".to_string())), "v1.20.0");
    assert_eq!(CoreDownloader::version_or_fallback(None), "v1.19.30");
}

#[test]
fn release_archive_unpacks_to_the_binary() {
    let mut enc = flate2::write::GzEncoder::new(Vec::new(), flate2::Compression::default());
    std::io::Write::write_all(&mut enc, b"\x7fELF mihomo").unwrap();
    let gz = enc.finish().unwrap();
    assert_eq!(CoreDownloader::unpack_core(&gz).unwrap(), b"\x7fELF mihomo".to_vec());
    assert_eq!(CoreDownloader::unpack_core(b"not gzip").unwrap_err(), "解压 Mihomo 二进制文件失败");
}

#[test]
fn secrets_that_make_invalid_headers_are_refused() {
    assert_eq!(MihomoClient::new("h", Some("a\nb".to_string())).err().as_deref(), Some("Invalid secret for header"));
    assert_eq!(MihomoClient::new("h", Some("a\u{7f}".to_string())).err().as_deref(), Some("Invalid secret for header"));
    assert!(MihomoClient::new("h", Some("a\tb".to_string())).is_ok());
    assert!(MihomoClient::new("h", Some("clé".to_string())).is_ok());
    assert!(MihomoClient::new("h", Some(" \n ".to_string())).is_ok());
    let c = MihomoClient::new("http://h:9090/", None).unwrap();
    assert_eq!(c.base_url(), "http://h:9090");
    assert_eq!(c.secret(), None);
}

#[test]
fn attempts_walk_mirrors_then_clients() {
    assert_eq!(attempt_at(0, 4, 2), Some((0, 0)));
    assert_eq!(attempt_at(1, 4, 2), Some((0, 1)));
    assert_eq!(attempt_at(2, 4, 2), Some((1, 0)));
    assert_eq!(attempt_at(7, 4, 2), Some((3, 1)));
    assert_eq!(attempt_at(8, 4, 2), None);
    assert_eq!(attempt_at(0, 4, 0), None);
}

#[test]
fn download_steps_record_errors_and_stop_at_a_body() {
    let p = download_start();
    let p = match download_step(&p, "https://m/a.gz", AttemptResult::Status("404 Not Found".to_string())) {
        DownloadStep::Next(q) => q,
        DownloadStep::Done(_) => panic!("a status does not end the download"),
    };
    assert_eq!(p.attempt, 1);
    assert_eq!(p.last_error.as_deref(), Some("HTTP 404 Not Found 来自: https://m/a.gz"));
    let p = match download_step(&p, "https://m/a.gz", AttemptResult::ConnectFailed("refused".to_string())) {
        DownloadStep::Next(q) => q,
        DownloadStep::Done(_) => panic!("a failed request does not end the download"),
    };
    assert_eq!(p.last_error.as_deref(), Some("连接失败 (https://m/a.gz): refused"));
    let p = match download_step(&p, "u", AttemptResult::ReadFailed("eof".to_string())) {
        DownloadStep::Next(q) => q,
        DownloadStep::Done(_) => panic!("a failed read does not end the download"),
    };
    assert_eq!(p.attempt, 3);
    assert_eq!(p.last_error.as_deref(), Some("下载数据流失败: eof"));
    assert!(matches!(download_step(&p, "u", AttemptResult::Body(vec![1, 2])), DownloadStep::Done(b) if b == vec![1, 2]));
    assert_eq!(download_result(p, vec![]).unwrap_err(), "下载数据流失败: eof");
    assert_eq!(download_result(download_start(), vec![]).unwrap_err(), "下载 Mihomo 核心包失败");
    let fresh = DownloadProgress { attempt: 0, last_error: Some("x".to_string()) };
    assert_eq!(download_result(fresh, vec![9]).unwrap(), vec![9]);
}

#[test]
fn version_search_steps() {
    assert_eq!(version_step(None), None);
    assert_eq!(version_step(Some("https://github.com/MetaCubeX/mihomo/releases/tag/v1.19.2")).as_deref(), Some("v1.19.2"));
    assert_eq!(version_step(Some("https://github.com/MetaCubeX/mihomo/releases")), None);
    let urls = release_check_urls();
    assert_eq!(urls[0], "https://github.com/MetaCubeX/mihomo/releases/latest");
    assert_eq!(urls.len(), 2);
}

#[test]
fn proxy_variables_only_when_no_desktop_setting_was_written() {
    assert!(SystemProxy::env_fallback_needed(false, &vec![false, false]));
    assert!(!SystemProxy::env_fallback_needed(true, &vec![false, false]));
    assert!(!SystemProxy::env_fallback_needed(false, &vec![false, true]));
    assert!(SystemProxy::env_fallback_needed(false, &vec![]));
}
