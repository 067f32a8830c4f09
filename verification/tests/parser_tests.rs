use base64::Engine;
use mimo::models::Proxy;
use mimo::parser::{ProfileParser, RawClashConfig, RawGroupEntry, RawProxyEntry};

fn entry(name: &str, t: &str, server: &str, port: u64) -> RawProxyEntry {
    RawProxyEntry {
        name: Some(name.to_string()),
        proxy_type: Some(t.to_string()),
        server: Some(server.to_string()),
        port_unsigned: Some(port),
        port_signed: None,
        udp: None,
        tls: None,
    }
}

fn chars(s: &str) -> Vec<char> {
    s.chars().collect()
}

#[test]
fn test_parse_standard_yaml() {
    let yaml_str = r#"
port: 7890
socks-port: 7891
external-controller: 127.0.0.1:9090
secret: "my_secret"
proxies:
  - { name: "HK 01", type: ss, server: 1.1.1.1, port: 443 }
  - { name: "US 01", type: vmess, server: 2.2.2.2, port: 8443 }
proxy-groups:
  - { name: GLOBAL, type: select, proxies: ["HK 01", "US 01"] }
rules:
  - DOMAIN-SUFFIX,google.com,GLOBAL
  - MATCH,DIRECT
"#;
    // The same profile as the YAML reader hands it to the parser.
    let raw = RawClashConfig {
        proxies: Some(vec![entry("HK 01", "ss", "1.1.1.1", 443), entry("US 01", "vmess", "2.2.2.2", 8443)]),
        proxy_groups: Some(vec![RawGroupEntry {
            name: Some("GLOBAL".to_string()),
            group_type: Some("select".to_string()),
            members: Some(vec![Some("HK 01".to_string()), Some("US 01".to_string())]),
        }]),
        rules: Some(vec!["DOMAIN-SUFFIX,google.com,GLOBAL".to_string(), "MATCH,DIRECT".to_string()]),
        has_dns: false,
        has_tun: false,
        external_controller: Some("127.0.0.1:9090".to_string()),
        secret: Some("my_secret".to_string()),
    };
    let content = ProfileParser::decode_content(yaml_str);
    let parsed = ProfileParser::build_profile(&content, Some(raw));
    assert_eq!(parsed.proxies.len(), 2);
    assert_eq!(parsed.proxy_groups.len(), 1);
    assert_eq!(parsed.rules.len(), 2);
    assert_eq!(parsed.external_controller.as_deref(), Some("127.0.0.1:9090"));
    assert_eq!(parsed.secret.as_deref(), Some("my_secret"));
}

#[test]
fn test_parse_base64_yaml() {
    let raw_yaml = "proxies:\n  - { name: \"Node1\", type: ss, server: 1.2.3.4, port: 80 }\nrules:\n  - MATCH,DIRECT\n";
    let encoded = base64::engine::general_purpose::STANDARD.encode(raw_yaml);
    let content = ProfileParser::decode_content(&encoded);
    assert_eq!(content, raw_yaml);
    let raw = RawClashConfig {
        proxies: Some(vec![entry("Node1", "ss", "1.2.3.4", 80)]),
        proxy_groups: None,
        rules: Some(vec!["MATCH,DIRECT".to_string()]),
        has_dns: false,
        has_tun: false,
        external_controller: None,
        secret: None,
    };
    let parsed = ProfileParser::build_profile(&content, Some(raw));
    assert_eq!(parsed.proxies.len(), 1);
    assert_eq!(parsed.proxies[0].name, "Node1");
}

#[test]
fn test_parse_raw_uris() {
    let uri_list = "ss://YWVzLTEyOC1nY206cGFzc3dvcmQ@1.2.3.4:8388#MySSNode\ntrojan://my_password@5.6.7.8:443#MyTrojanNode\n";
    let content = ProfileParser::decode_content(uri_list);
    let parsed = ProfileParser::build_profile(&content, None);
    assert_eq!(parsed.proxies.len(), 2);
    assert_eq!(parsed.proxies[0].name, "MySSNode");
    assert_eq!(parsed.proxies[1].name, "MyTrojanNode");
    assert_eq!(parsed.proxy_groups.len(), 2);
}

#[test]
fn uri_nodes_get_a_generated_profile() {
    let parsed = ProfileParser::build_profile("trojan://pw@5.6.7.8:443#T1", None);
    assert_eq!(parsed.proxy_groups[0].name, "GLOBAL");
    assert_eq!(parsed.proxy_groups[1].name, "PROXY");
    assert_eq!(parsed.proxy_groups[0].proxies, vec!["T1".to_string()]);
    assert!(parsed.raw_yaml.contains("external-controller: 127.0.0.1:9090"));
    assert!(parsed.raw_yaml.contains("MATCH,GLOBAL"));
}

#[test]
fn single_trojan_uri() {
    let p: Proxy = mimo::parser::parse_single_node_uri(&chars("trojan://pw@5.6.7.8:443#MyTrojan")).unwrap();
    assert_eq!(p.name, "MyTrojan");
    assert_eq!(p.proxy_type, "trojan");
    assert_eq!(p.server, "5.6.7.8");
    assert_eq!(p.port, 443);
}

#[test]
fn single_ss_uri() {
    let p = mimo::parser::parse_single_node_uri(&chars("ss://YWVzLTEyOC1nY206cGFzc3dvcmQ@1.2.3.4:8388#MySSNode")).unwrap();
    assert_eq!(p.name, "MySSNode");
    assert_eq!(p.proxy_type, "ss");
    assert_eq!(p.server, "1.2.3.4");
    assert_eq!(p.port, 8388);
}

#[test]
fn unknown_scheme_is_not_a_node() {
    assert!(mimo::parser::parse_single_node_uri(&chars("http://example.com")).is_none());
    assert!(mimo::parser::parse_single_node_uri(&chars("trojan://pw@host:notaport#x")).is_none());
}

#[test]
fn plain_text_is_trimmed_not_decoded() {
    assert_eq!(ProfileParser::decode_content("  proxies:\n  - a\n  "), "proxies:\n  - a");
}

#[test]
fn rule_lines_with_too_few_parts_are_dropped() {
    let raw = RawClashConfig {
        proxies: Some(vec![entry("A", "ss", "1.1.1.1", 1)]),
        proxy_groups: None,
        rules: Some(vec!["MATCH".to_string(), "DOMAIN,x.com,A".to_string()]),
        has_dns: true,
        has_tun: false,
        external_controller: None,
        secret: None,
    };
    let parsed = ProfileParser::build_profile("proxies:", Some(raw));
    assert_eq!(parsed.rules.len(), 1);
    assert_eq!(parsed.rules[0].rule_type, "DOMAIN");
    assert_eq!(parsed.rules[0].payload, "x.com");
    assert_eq!(parsed.rules[0].proxy, "A");
    assert!(parsed.has_dns);
}
