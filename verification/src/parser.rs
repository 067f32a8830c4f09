//! Subscription parsing: Base64-wrapped contents, Clash/Mihomo YAML profiles
//! (read into `RawClashConfig` by the caller) and raw share links
//! (`ss://`, `vmess://`, `vless://`, `trojan://`, `hysteria2://`, `hy2://`).
use vstd::prelude::*;
use vstd::utf8::*;
use crate::text::{
    all_digits, chars_of, contains_sub, dec, digit_char, digit_val, digits_value, is_digit, unsigned_body, eq_ignore_ascii_case, eq_ignore_case, find_char, has_char,
    has_prefix, has_sub, parse_unsigned, parse_unsigned_max, push_all, push_str, rfind_char,
    lemma_split_char_first, lemma_split_char_len_no_sep, slice_chars, split_char, split_on, starts_with, str_eq, string_from, string_of, to_lowercase,
    trim, trim_chars, trim_str, u64_to_dec, unicode_lowercase,
};
use crate::models::{
    opt_string_view, strings_view, Proxy, ProxyGroup, ProxyGroupView, ProxyView, Rule, RuleView,
};
use base64::Engine;

verus! {

// ---------------------------------------------------------------------------
// Outside calls
// ---------------------------------------------------------------------------

/// The name of what `base64::engine::general_purpose::STANDARD.decode` returns.
pub uninterp spec fn base64_standard_decoded(input: Seq<char>) -> Option<Seq<u8>>;

/// `base64::engine::general_purpose::STANDARD.decode(input)`, `None` on a decode
/// error. The decoding itself is only named here.
#[verifier::external_body]
fn base64_decode(input: &str) -> (r: Option<Vec<u8>>)
    ensures
        match r {
            Some(b) => base64_standard_decoded(input@) == Some(b@),
            None => base64_standard_decoded(input@) is None,
        },
{
    base64::engine::general_purpose::STANDARD.decode(input.as_bytes()).ok()
}

/// `String::from_utf8(bytes).ok()`: `Some` exactly for valid UTF-8, holding the
/// decoded characters.
#[verifier::external_body]
fn utf8_string(bytes: Vec<u8>) -> (r: Option<String>)
    ensures
        r is Some <==> valid_utf8(bytes@),
        r matches Some(s) ==> s@ == decode_utf8(bytes@),
{
    String::from_utf8(bytes).ok()
}

/// The name of what `urlencoding::decode` returns (`None` for its error).
pub uninterp spec fn url_decoded(s: Seq<char>) -> Option<Seq<char>>;

/// `urlencoding::decode(s)`, `None` on its error. Without a `%` in the input the
/// crate hands the input back unchanged; other results are only named.
#[verifier::external_body]
fn url_decode(s: &str) -> (r: Option<String>)
    ensures
        match r {
            Some(d) => url_decoded(s@) == Some(d@),
            None => url_decoded(s@) is None,
        },
        !has_char(s@, '%') ==> r is Some && r.unwrap()@ == s@,
{
    urlencoding::decode(s).ok().map(|c| c.into_owned())
}

/// Fields of a `vmess://` JSON document that the parser reads: `ps`, `add` and
/// `tls` as strings, `port` as an unsigned number or as a string.
pub struct VmessFields {
    pub ps: Option<String>,
    pub add: Option<String>,
    pub port_number: Option<u64>,
    pub port_text: Option<String>,
    pub tls: Option<String>,
}

pub struct VmessFieldsView {
    pub ps: Option<Seq<char>>,
    pub add: Option<Seq<char>>,
    pub port_number: Option<u64>,
    pub port_text: Option<Seq<char>>,
    pub tls: Option<Seq<char>>,
}

impl View for VmessFields {
    type V = VmessFieldsView;

    open spec fn view(&self) -> VmessFieldsView {
        VmessFieldsView {
            ps: opt_string_view(self.ps),
            add: opt_string_view(self.add),
            port_number: self.port_number,
            port_text: opt_string_view(self.port_text),
            tls: opt_string_view(self.tls),
        }
    }
}

/// The name of what `serde_json::from_slice::<serde_json::Value>` yields for a
/// byte string, read down to the fields of `VmessFields` (`None` for a parse error).
pub uninterp spec fn vmess_json(bytes: Seq<u8>) -> Option<VmessFieldsView>;

/// `serde_json::from_slice::<serde_json::Value>(bytes)`, then `v["ps"].as_str()`,
/// `v["add"].as_str()`, `v["port"].as_u64()`, `v["port"].as_str()` and
/// `v["tls"].as_str()`. The JSON reading is only named.
#[verifier::external_body]
fn vmess_json_fields(bytes: &[u8]) -> (r: Option<VmessFields>)
    ensures
        match r {
            Some(f) => vmess_json(bytes@) == Some(f@),
            None => vmess_json(bytes@) is None,
        },
{
    let v = serde_json::from_slice::<serde_json::Value>(bytes).ok()?;
    Some(VmessFields {
        ps: v["ps"].as_str().map(|s| s.to_string()),
        add: v["add"].as_str().map(|s| s.to_string()),
        port_number: v["port"].as_u64(),
        port_text: v["port"].as_str().map(|s| s.to_string()),
        tls: v["tls"].as_str().map(|s| s.to_string()),
    })
}

// ---------------------------------------------------------------------------
// Share links
// ---------------------------------------------------------------------------

/// `s[from..]` as a sequence.
pub open spec fn skip(s: Seq<char>, from: int) -> Seq<char> {
    s.subrange(from, s.len() as int)
}

/// Index of the first `c` in `s`.
pub open spec fn first_index(s: Seq<char>, c: char) -> int
    recommends
        has_char(s, c),
{
    choose|i: int| 0 <= i < s.len() && s[i] == c && forall|j: int| 0 <= j < i ==> s[j] != c
}

/// Index of the last `c` in `s`.
pub open spec fn last_index(s: Seq<char>, c: char) -> int
    recommends
        has_char(s, c),
{
    choose|i: int| 0 <= i < s.len() && s[i] == c && forall|j: int| i < j < s.len() ==> s[j] != c
}

/// Splits `s` at its first `#`: the part before and the decoded fragment
/// (empty when decoding fails); without a `#`, the whole and `default`.
pub open spec fn split_fragment(s: Seq<char>, default: Seq<char>) -> (Seq<char>, Seq<char>) {
    if has_char(s, '#') {
        let i = first_index(s, '#');
        let frag = match url_decoded(skip(s, i + 1)) {
            Some(d) => d,
            None => Seq::empty(),
        };
        (s.subrange(0, i), frag)
    } else {
        (s, default)
    }
}

/// `host:port` read from the text after the first `@`: server before the last
/// `:`, port parsed as a `u16` after it.
pub open spec fn host_port(hp: Seq<char>) -> Option<(Seq<char>, u16)> {
    if has_char(hp, ':') {
        let c = last_index(hp, ':');
        match parse_unsigned(skip(hp, c + 1), 65535) {
            Some(p) => Some((hp.subrange(0, c), p as u16)),
            None => None,
        }
    } else {
        None
    }
}

/// The part of `s` before the first `?`.
pub open spec fn before_query(s: Seq<char>) -> Seq<char> {
    if has_char(s, '?') {
        s.subrange(0, first_index(s, '?'))
    } else {
        s
    }
}

pub open spec fn mk_proxy(
    name: Seq<char>,
    t: Seq<char>,
    server: Seq<char>,
    port: u16,
    tls: bool,
) -> ProxyView {
    ProxyView { name, proxy_type: t, server, port, udp: Some(true), tls: Some(tls) }
}

/// Node described by a `ss://` link (`uri` without the scheme).
pub open spec fn spec_ss(rest: Seq<char>) -> Option<ProxyView> {
    let (main, frag) = split_fragment(rest, "Shadowsocks"@);
    let name = if frag.len() == 0 {
        "Shadowsocks"@
    } else {
        frag
    };
    if has_char(main, '@') {
        match host_port(skip(main, first_index(main, '@') + 1)) {
            Some((server, port)) => Some(mk_proxy(name, "ss"@, server, port, false)),
            None => None,
        }
    } else {
        None
    }
}

/// Port of a `vmess://` document: the number, else the text read as a `u64`,
/// else 443; then cut to 16 bits as `as u16` does.
pub open spec fn vmess_port(f: VmessFieldsView) -> u16 {
    let p: u64 = match f.port_number {
        Some(n) => n,
        None => match f.port_text {
            Some(t) => match parse_unsigned(t, u64::MAX as nat) {
                Some(v) => v as u64,
                None => 443,
            },
            None => 443,
        },
    };
    (p % 65536) as u16
}

/// Node described by a `vmess://` link (`b64` is the text after the scheme).
pub open spec fn spec_vmess(b64: Seq<char>) -> Option<ProxyView> {
    match base64_standard_decoded(b64) {
        Some(bytes) => match vmess_json(bytes) {
            Some(f) => {
                let server = match f.add {
                    Some(a) => a,
                    None => Seq::empty(),
                };
                let name = match f.ps {
                    Some(p) => p,
                    None => "Vmess"@,
                };
                if server.len() > 0 {
                    Some(
                        ProxyView {
                            name,
                            proxy_type: "vmess"@,
                            server,
                            port: vmess_port(f),
                            udp: Some(true),
                            tls: Some(f.tls == Some("tls"@)),
                        },
                    )
                } else {
                    None
                }
            },
            None => None,
        },
        None => None,
    }
}

/// Node described by a `vless://`, `trojan://` or `hysteria2://` link
/// (`rest` is the text after the scheme, `t` the type, `upper` its uppercase).
pub open spec fn spec_tls_link(rest: Seq<char>, t: Seq<char>, upper: Seq<char>) -> Option<
    ProxyView,
> {
    let (main, frag) = split_fragment(rest, upper);
    let name = if frag.len() == 0 {
        upper
    } else {
        frag
    };
    if has_char(main, '@') {
        match host_port(before_query(skip(main, first_index(main, '@') + 1))) {
            Some((server, port)) => Some(mk_proxy(name, t, server, port, true)),
            None => None,
        }
    } else {
        None
    }
}

/// The node a share link describes, if it is one the parser understands.
#[verifier::opaque]
pub open spec fn spec_parse_uri(uri: Seq<char>) -> Option<ProxyView> {
    if has_prefix(uri, "ss://"@) {
        spec_ss(skip(uri, 5))
    } else if has_prefix(uri, "vmess://"@) {
        spec_vmess(skip(uri, 8))
    } else if has_prefix(uri, "vless://"@) {
        spec_tls_link(skip(uri, 8), "vless"@, "VLESS"@)
    } else if has_prefix(uri, "trojan://"@) {
        spec_tls_link(skip(uri, 9), "trojan"@, "TROJAN"@)
    } else if has_prefix(uri, "hysteria2://"@) {
        spec_tls_link(skip(uri, 12), "hysteria2"@, "HYSTERIA2"@)
    } else if has_prefix(uri, "hy2://"@) {
        spec_tls_link(skip(uri, 6), "hysteria2"@, "HYSTERIA2"@)
    } else {
        None
    }
}

pub(crate) fn find_char_spec(s: &[char], c: char) -> (r: Option<usize>)
    ensures
        match r {
            Some(i) => has_char(s@, c) && i as int == first_index(s@, c) && i < s@.len(),
            None => !has_char(s@, c),
        },
{
    let r = find_char(s, c);
    match r {
        Some(i) => {
            proof {
                let k = first_index(s@, c);
                assert(0 <= i < s@.len() && s@[i as int] == c && forall|j: int|
                    0 <= j < i ==> s@[j] != c);
                if k != i {
                    if k < i {
                    } else {
                        assert(s@[i as int] != c);
                    }
                }
            }
            Some(i)
        },
        None => None,
    }
}

pub(crate) fn rfind_char_spec(s: &[char], c: char) -> (r: Option<usize>)
    ensures
        match r {
            Some(i) => has_char(s@, c) && i as int == last_index(s@, c) && i < s@.len(),
            None => !has_char(s@, c),
        },
{
    let r = rfind_char(s, c);
    match r {
        Some(i) => {
            proof {
                let k = last_index(s@, c);
                assert(0 <= i < s@.len() && s@[i as int] == c && forall|j: int|
                    i < j < s@.len() ==> s@[j] != c);
                if k != i {
                    if k > i {
                    } else {
                        assert(s@[i as int] != c);
                    }
                }
            }
            Some(i)
        },
        None => None,
    }
}

fn exec_split_fragment(s: &[char], default: &str) -> (r: (Vec<char>, Vec<char>))
    ensures
        (r.0@, r.1@) == split_fragment(s@, default@),
{
    match find_char_spec(s, '#') {
        Some(i) => {
            let main = slice_chars(s, 0, i);
            let n = s.len();
            let frag_chars = slice_chars(s, i + 1, n);
            let frag_text = string_of(frag_chars.as_slice());
            let frag = match url_decode(frag_text.as_str()) {
                Some(d) => chars_of(d.as_str()),
                None => Vec::new(),
            };
            (main, frag)
        },
        None => {
            let mut all = Vec::new();
            push_all(&mut all, s);
            (all, chars_of(default))
        },
    }
}

fn exec_host_port(hp: &[char]) -> (r: Option<(Vec<char>, u16)>)
    ensures
        match host_port(hp@) {
            Some((server, port)) => r matches Some(x) && x.0@ == server && x.1 == port,
            None => r is None,
        },
{
    match rfind_char_spec(hp, ':') {
        Some(c) => {
            let n = hp.len();
            let tail = slice_chars(hp, c + 1, n);
            match parse_unsigned_max(tail.as_slice(), 65535) {
                Some(p) => Some((slice_chars(hp, 0, c), p as u16)),
                None => None,
            }
        },
        None => None,
    }
}

fn new_proxy(name: Vec<char>, t: &str, server: Vec<char>, port: u16, tls: bool) -> (p: Proxy)
    ensures
        p@ == mk_proxy(name@, t@, server@, port, tls),
{
    Proxy {
        name: string_of(name.as_slice()),
        proxy_type: string_from(t),
        server: string_of(server.as_slice()),
        port,
        udp: Some(true),
        tls: Some(tls),
    }
}

fn parse_ss(rest: &[char]) -> (r: Option<Proxy>)
    ensures
        match r {
            Some(p) => spec_ss(rest@) == Some(p@),
            None => spec_ss(rest@) is None,
        },
{
    let (main, frag) = exec_split_fragment(rest, "Shadowsocks");
    let name = if frag.len() == 0 {
        chars_of("Shadowsocks")
    } else {
        frag
    };
    match find_char_spec(main.as_slice(), '@') {
        Some(at) => {
            let n = main.len();
            let hp = slice_chars(main.as_slice(), at + 1, n);
            match exec_host_port(hp.as_slice()) {
                Some((server, port)) => Some(new_proxy(name, "ss", server, port, false)),
                None => None,
            }
        },
        None => None,
    }
}

fn parse_vmess(b64: &[char]) -> (r: Option<Proxy>)
    ensures
        match r {
            Some(p) => spec_vmess(b64@) == Some(p@),
            None => spec_vmess(b64@) is None,
        },
{
    let text = string_of(b64);
    let bytes = match base64_decode(text.as_str()) {
        Some(b) => b,
        None => return None,
    };
    let f = match vmess_json_fields(bytes.as_slice()) {
        Some(f) => f,
        None => return None,
    };
    let server = match &f.add {
        Some(a) => chars_of(a.as_str()),
        None => Vec::new(),
    };
    if server.len() == 0 {
        return None;
    }
    let name = match &f.ps {
        Some(p) => string_from(p.as_str()),
        None => string_from("Vmess"),
    };
    let p: u64 = match f.port_number {
        Some(n) => n,
        None => match &f.port_text {
            Some(t) => {
                let tv = chars_of(t.as_str());
                match parse_unsigned_max(tv.as_slice(), u64::MAX) {
                    Some(v) => v,
                    None => 443,
                }
            },
            None => 443,
        },
    };
    let tls = match &f.tls {
        Some(t) => str_eq(t.as_str(), "tls"),
        None => false,
    };
    Some(
        Proxy {
            name,
            proxy_type: string_from("vmess"),
            server: string_of(server.as_slice()),
            port: (p % 65536) as u16,
            udp: Some(true),
            tls: Some(tls),
        },
    )
}

fn parse_tls_link(rest: &[char], t: &str, upper: &str) -> (r: Option<Proxy>)
    ensures
        match r {
            Some(p) => spec_tls_link(rest@, t@, upper@) == Some(p@),
            None => spec_tls_link(rest@, t@, upper@) is None,
        },
{
    let (main, frag) = exec_split_fragment(rest, upper);
    let name = if frag.len() == 0 {
        chars_of(upper)
    } else {
        frag
    };
    match find_char_spec(main.as_slice(), '@') {
        Some(at) => {
            let n = main.len();
            let hpp = slice_chars(main.as_slice(), at + 1, n);
            let hp = match find_char_spec(hpp.as_slice(), '?') {
                Some(q) => slice_chars(hpp.as_slice(), 0, q),
                None => hpp,
            };
            match exec_host_port(hp.as_slice()) {
                Some((server, port)) => Some(new_proxy(name, t, server, port, true)),
                None => None,
            }
        },
        None => None,
    }
}

fn has_scheme(uri: &[char], scheme: &str) -> (r: bool)
    ensures
        r == has_prefix(uri@, scheme@),
{
    let s = chars_of(scheme);
    starts_with(uri, s.as_slice())
}

/// Reads one share link into a node.
pub fn parse_single_node_uri(uri: &[char]) -> (r: Option<Proxy>)
    ensures
        match r {
            Some(p) => spec_parse_uri(uri@) == Some(p@),
            None => spec_parse_uri(uri@) is None,
        },
{
    proof {
        reveal(spec_parse_uri);
        reveal_strlit("ss://");
        reveal_strlit("vmess://");
        reveal_strlit("vless://");
        reveal_strlit("trojan://");
        reveal_strlit("hysteria2://");
        reveal_strlit("hy2://");
    }
    if has_scheme(uri, "ss://") {
        parse_ss(slice_chars(uri, 5, uri.len()).as_slice())
    } else if has_scheme(uri, "vmess://") {
        parse_vmess(slice_chars(uri, 8, uri.len()).as_slice())
    } else if has_scheme(uri, "vless://") {
        parse_tls_link(slice_chars(uri, 8, uri.len()).as_slice(), "vless", "VLESS")
    } else if has_scheme(uri, "trojan://") {
        parse_tls_link(slice_chars(uri, 9, uri.len()).as_slice(), "trojan", "TROJAN")
    } else if has_scheme(uri, "hysteria2://") {
        parse_tls_link(slice_chars(uri, 12, uri.len()).as_slice(), "hysteria2", "HYSTERIA2")
    } else if has_scheme(uri, "hy2://") {
        parse_tls_link(slice_chars(uri, 6, uri.len()).as_slice(), "hysteria2", "HYSTERIA2")
    } else {
        None
    }
}

} // verus!

verus! {

// ---------------------------------------------------------------------------
// Profile contents
// ---------------------------------------------------------------------------

/// A node entry of a profile's `proxies:` list, read down to the fields the
/// parser uses: `name`, `type`, `server` as strings, `port` as an unsigned or a
/// signed integer, `udp` and `tls` as booleans.
pub struct RawProxyEntry {
    pub name: Option<String>,
    pub proxy_type: Option<String>,
    pub server: Option<String>,
    pub port_unsigned: Option<u64>,
    pub port_signed: Option<i64>,
    pub udp: Option<bool>,
    pub tls: Option<bool>,
}

/// A group entry of a profile's `proxy-groups:` list: `name` and `type` as
/// strings, `proxies` as a sequence whose items may or may not be strings.
pub struct RawGroupEntry {
    pub name: Option<String>,
    pub group_type: Option<String>,
    pub members: Option<Vec<Option<String>>>,
}

/// The top-level keys of a Clash/Mihomo profile that the parser reads.
pub struct RawClashConfig {
    pub proxies: Option<Vec<RawProxyEntry>>,
    pub proxy_groups: Option<Vec<RawGroupEntry>>,
    pub rules: Option<Vec<String>>,
    pub has_dns: bool,
    pub has_tun: bool,
    pub external_controller: Option<String>,
    pub secret: Option<String>,
}

/// A parsed subscription profile.
pub struct ParsedProfile {
    pub proxies: Vec<Proxy>,
    pub proxy_groups: Vec<ProxyGroup>,
    pub rules: Vec<Rule>,
    pub has_dns: bool,
    pub has_tun: bool,
    pub external_controller: Option<String>,
    pub secret: Option<String>,
    pub raw_yaml: String,
}

pub struct ParsedProfileView {
    pub proxies: Seq<ProxyView>,
    pub proxy_groups: Seq<ProxyGroupView>,
    pub rules: Seq<RuleView>,
    pub has_dns: bool,
    pub has_tun: bool,
    pub external_controller: Option<Seq<char>>,
    pub secret: Option<Seq<char>>,
    pub raw_yaml: Seq<char>,
}

pub open spec fn proxies_view(v: Seq<Proxy>) -> Seq<ProxyView> {
    v.map_values(|p: Proxy| p@)
}

pub open spec fn groups_view(v: Seq<ProxyGroup>) -> Seq<ProxyGroupView> {
    v.map_values(|g: ProxyGroup| g@)
}

pub open spec fn rules_view(v: Seq<Rule>) -> Seq<RuleView> {
    v.map_values(|r: Rule| r@)
}

impl View for ParsedProfile {
    type V = ParsedProfileView;

    open spec fn view(&self) -> ParsedProfileView {
        ParsedProfileView {
            proxies: proxies_view(self.proxies@),
            proxy_groups: groups_view(self.proxy_groups@),
            rules: rules_view(self.rules@),
            has_dns: self.has_dns,
            has_tun: self.has_tun,
            external_controller: opt_string_view(self.external_controller),
            secret: opt_string_view(self.secret),
            raw_yaml: self.raw_yaml@,
        }
    }
}

pub open spec fn or_default(o: Option<String>, d: Seq<char>) -> Seq<char> {
    match o {
        Some(s) => s@,
        None => d,
    }
}

/// Port of a node entry: the unsigned value, else the signed one taken as
/// `u64`, else 0; then cut to 16 bits as `as u16` does.
pub open spec fn entry_port(e: RawProxyEntry) -> u16 {
    let p: u64 = match e.port_unsigned {
        Some(u) => u,
        None => match e.port_signed {
            Some(i) => i as u64,
            None => 0,
        },
    };
    (p % 65536) as u16
}

/// The node a `proxies:` entry describes; entries without a name are skipped.
pub open spec fn entry_proxy(e: RawProxyEntry) -> Option<ProxyView> {
    match e.name {
        Some(n) => Some(
            ProxyView {
                name: n@,
                proxy_type: or_default(e.proxy_type, "unknown"@),
                server: or_default(e.server, ""@),
                port: entry_port(e),
                udp: e.udp,
                tls: e.tls,
            },
        ),
        None => None,
    }
}

pub open spec fn entries_proxies(es: Seq<RawProxyEntry>) -> Seq<ProxyView>
    decreases es.len(),
{
    if es.len() == 0 {
        Seq::empty()
    } else {
        let prev = entries_proxies(es.drop_last());
        match entry_proxy(es.last()) {
            Some(p) => prev.push(p),
            None => prev,
        }
    }
}

/// The string items of a group's member list, in order.
pub open spec fn member_names(ms: Seq<Option<String>>) -> Seq<Seq<char>>
    decreases ms.len(),
{
    if ms.len() == 0 {
        Seq::empty()
    } else {
        let prev = member_names(ms.drop_last());
        match ms.last() {
            Some(s) => prev.push(s@),
            None => prev,
        }
    }
}

/// The group a `proxy-groups:` entry describes; entries without a name are skipped.
pub open spec fn entry_group(e: RawGroupEntry) -> Option<ProxyGroupView> {
    match e.name {
        Some(n) => Some(
            ProxyGroupView {
                name: n@,
                group_type: or_default(e.group_type, "select"@),
                proxies: match e.members {
                    Some(ms) => member_names(ms@),
                    None => Seq::empty(),
                },
                now: None,
            },
        ),
        None => None,
    }
}

pub open spec fn entries_groups(es: Seq<RawGroupEntry>) -> Seq<ProxyGroupView>
    decreases es.len(),
{
    if es.len() == 0 {
        Seq::empty()
    } else {
        let prev = entries_groups(es.drop_last());
        match entry_group(es.last()) {
            Some(g) => prev.push(g),
            None => prev,
        }
    }
}

/// The rule a `rules:` line describes: three or more comma-separated fields
/// give type, payload and target; `MATCH,target` gives a catch-all rule.
pub open spec fn line_rule(line: Seq<char>) -> Option<RuleView> {
    let parts = split_char(line, ',').map_values(|p: Seq<char>| trim(p));
    if parts.len() >= 3 {
        Some(RuleView { rule_type: parts[0], payload: parts[1], proxy: parts[2] })
    } else if parts.len() == 2 && eq_ignore_case(parts[0], "MATCH"@) {
        Some(RuleView { rule_type: "MATCH"@, payload: Seq::empty(), proxy: parts[1] })
    } else {
        None
    }
}

pub open spec fn lines_rules(ls: Seq<String>) -> Seq<RuleView>
    decreases ls.len(),
{
    if ls.len() == 0 {
        Seq::empty()
    } else {
        let prev = lines_rules(ls.drop_last());
        match line_rule(ls.last()@) {
            Some(r) => prev.push(r),
            None => prev,
        }
    }
}

/// The nodes of the share links found one per line in `lines`.
pub open spec fn uri_nodes(lines: Seq<Seq<char>>) -> Seq<ProxyView>
    decreases lines.len(),
{
    if lines.len() == 0 {
        Seq::empty()
    } else {
        let prev = uri_nodes(lines.drop_last());
        match spec_parse_uri(trim(lines.last())) {
            Some(p) => prev.push(p),
            None => prev,
        }
    }
}

/// `"` escaped as `\"`.
pub open spec fn escape_quotes(s: Seq<char>) -> Seq<char>
    decreases s.len(),
{
    if s.len() == 0 {
        Seq::empty()
    } else if s.last() == '"' {
        escape_quotes(s.drop_last()) + seq!['\\', '"']
    } else {
        escape_quotes(s.drop_last()).push(s.last())
    }
}

/// Items joined with a separator.
pub open spec fn join(items: Seq<Seq<char>>, sep: Seq<char>) -> Seq<char>
    decreases items.len(),
{
    if items.len() == 0 {
        Seq::empty()
    } else if items.len() == 1 {
        items[0]
    } else {
        join(items.drop_last(), sep) + sep + items.last()
    }
}

/// A node written as an inline YAML mapping.
pub open spec fn yaml_node_item(p: ProxyView) -> Seq<char> {
    "  - { name: \""@ + escape_quotes(p.name) + "\", type: "@ + unicode_lowercase(p.proxy_type)
        + ", server: \""@ + p.server + "\", port: "@ + dec(p.port as nat) + " }"@
}

/// A node name written as a YAML list item.
pub open spec fn yaml_name_item(n: Seq<char>) -> Seq<char> {
    "      - \""@ + n + "\""@
}

/// The profile generated for a list of share-link nodes: local ports, the
/// controller on 127.0.0.1:9090, the nodes, groups GLOBAL and PROXY holding
/// every node, and the single rule `MATCH,GLOBAL`.
pub open spec fn generated_yaml(ps: Seq<ProxyView>) -> Seq<char> {
    let names = join(ps.map_values(|p: ProxyView| yaml_name_item(p.name)), "\n"@);
    "port: 7890\nsocks-port: 7891\nmixed-port: 7897\nallow-lan: true\nmode: rule\nlog-level: info\nexternal-controller: 127.0.0.1:9090\nsecret: \"\"\nproxies:\n"@
        + join(ps.map_values(|p: ProxyView| yaml_node_item(p)), "\n"@)
        + "\nproxy-groups:\n  - name: GLOBAL\n    type: select\n    proxies:\n"@ + names
        + "\n  - name: PROXY\n    type: select\n    proxies:\n"@ + names
        + "\nrules:\n  - MATCH,GLOBAL\n"@
}

pub open spec fn select_group(name: Seq<char>, ps: Seq<ProxyView>) -> ProxyGroupView {
    ProxyGroupView {
        name,
        group_type: "select"@,
        proxies: ps.map_values(|p: ProxyView| p.name),
        now: None,
    }
}

/// The profile read from decoded subscription text and its YAML reading.
pub open spec fn spec_build_profile(content: Seq<char>, raw: Option<RawClashConfig>) -> ParsedProfileView {
    let proxies = match raw {
        Some(r) => match r.proxies {
            Some(es) => entries_proxies(es@),
            None => Seq::empty(),
        },
        None => Seq::empty(),
    };
    let groups = match raw {
        Some(r) => match r.proxy_groups {
            Some(es) => entries_groups(es@),
            None => Seq::empty(),
        },
        None => Seq::empty(),
    };
    let rules = match raw {
        Some(r) => match r.rules {
            Some(ls) => lines_rules(ls@),
            None => Seq::empty(),
        },
        None => Seq::empty(),
    };
    let nodes = uri_nodes(split_char(content, '\n'));
    if proxies.len() == 0 && nodes.len() > 0 {
        ParsedProfileView {
            proxies: nodes,
            proxy_groups: groups.push(select_group("GLOBAL"@, nodes)).push(
                select_group("PROXY"@, nodes),
            ),
            rules: rules.push(RuleView { rule_type: "MATCH"@, payload: Seq::empty(), proxy: "GLOBAL"@ }),
            has_dns: false,
            has_tun: false,
            external_controller: Some("127.0.0.1:9090"@),
            secret: None,
            raw_yaml: generated_yaml(nodes),
        }
    } else {
        ParsedProfileView {
            proxies,
            proxy_groups: groups,
            rules,
            has_dns: match raw {
                Some(r) => r.has_dns,
                None => false,
            },
            has_tun: match raw {
                Some(r) => r.has_tun,
                None => false,
            },
            external_controller: match raw {
                Some(r) => opt_string_view(r.external_controller),
                None => None,
            },
            secret: match raw {
                Some(r) => opt_string_view(r.secret),
                None => None,
            },
            raw_yaml: content,
        }
    }
}

/// Whether subscription text looks like a single Base64 blob rather than YAML:
/// one line, mentioning neither `proxies:` nor `port:`.
pub open spec fn looks_encoded(t: Seq<char>) -> bool {
    !has_char(t, '\n') && !has_sub(t, "proxies:"@) && !has_sub(t, "port:"@)
}

/// The text a subscription body stands for: the trimmed body, or, when it looks
/// encoded and decodes as Base64 to valid UTF-8, the decoded text.
pub open spec fn spec_decode_content(content: Seq<char>) -> Seq<char> {
    let t = trim(content);
    if looks_encoded(t) {
        match base64_standard_decoded(t) {
            Some(bytes) => if valid_utf8(bytes) {
                decode_utf8(bytes)
            } else {
                t
            },
            None => t,
        }
    } else {
        t
    }
}

} // verus!

verus! {

fn opt_or_default(o: &Option<String>, d: &str) -> (r: String)
    ensures
        r@ == or_default(*o, d@),
{
    match o {
        Some(s) => string_from(s.as_str()),
        None => string_from(d),
    }
}

fn clone_opt_string(o: &Option<String>) -> (r: Option<String>)
    ensures
        opt_string_view(r) == opt_string_view(*o),
{
    match o {
        Some(s) => Some(string_from(s.as_str())),
        None => None,
    }
}

fn build_entry_proxy(e: &RawProxyEntry) -> (r: Option<Proxy>)
    ensures
        match entry_proxy(*e) {
            Some(p) => r matches Some(x) && x@ == p,
            None => r is None,
        },
{
    match &e.name {
        Some(n) => {
            let p: u64 = match e.port_unsigned {
                Some(u) => u,
                None => match e.port_signed {
                    Some(i) => i as u64,
                    None => 0,
                },
            };
            Some(
                Proxy {
                    name: string_from(n.as_str()),
                    proxy_type: opt_or_default(&e.proxy_type, "unknown"),
                    server: opt_or_default(&e.server, ""),
                    port: (p % 65536) as u16,
                    udp: e.udp,
                    tls: e.tls,
                },
            )
        },
        None => None,
    }
}

fn build_proxies(es: &Vec<RawProxyEntry>) -> (r: Vec<Proxy>)
    ensures
        proxies_view(r@) == entries_proxies(es@),
{
    let mut r: Vec<Proxy> = Vec::new();
    let mut i: usize = 0;
    while i < es.len()
        invariant
            i <= es.len(),
            proxies_view(r@) == entries_proxies(es@.take(i as int)),
        decreases es.len() - i,
    {
        assert(es@.take(i + 1).drop_last() =~= es@.take(i as int));
        match build_entry_proxy(&es[i]) {
            Some(p) => {
                r.push(p);
            },
            None => {},
        }
        i += 1;
        assert(proxies_view(r@) =~= entries_proxies(es@.take(i as int)));
    }
    assert(es@.take(es.len() as int) =~= es@);
    r
}

fn build_members(ms: &Vec<Option<String>>) -> (r: Vec<String>)
    ensures
        strings_view(r@) == member_names(ms@),
{
    let mut r: Vec<String> = Vec::new();
    let mut i: usize = 0;
    while i < ms.len()
        invariant
            i <= ms.len(),
            strings_view(r@) == member_names(ms@.take(i as int)),
        decreases ms.len() - i,
    {
        assert(ms@.take(i + 1).drop_last() =~= ms@.take(i as int));
        match &ms[i] {
            Some(s) => {
                r.push(string_from(s.as_str()));
            },
            None => {},
        }
        i += 1;
        assert(strings_view(r@) =~= member_names(ms@.take(i as int)));
    }
    assert(ms@.take(ms.len() as int) =~= ms@);
    r
}

fn build_groups(es: &Vec<RawGroupEntry>) -> (r: Vec<ProxyGroup>)
    ensures
        groups_view(r@) == entries_groups(es@),
{
    let mut r: Vec<ProxyGroup> = Vec::new();
    let mut i: usize = 0;
    while i < es.len()
        invariant
            i <= es.len(),
            groups_view(r@) == entries_groups(es@.take(i as int)),
        decreases es.len() - i,
    {
        assert(es@.take(i + 1).drop_last() =~= es@.take(i as int));
        let e = &es[i];
        match &e.name {
            Some(n) => {
                let members = match &e.members {
                    Some(ms) => build_members(ms),
                    None => Vec::new(),
                };
                let g = ProxyGroup {
                    name: string_from(n.as_str()),
                    group_type: opt_or_default(&e.group_type, "select"),
                    proxies: members,
                    now: None,
                };
                proof {
                    assert(strings_view(g.proxies@) =~= match e.members {
                        Some(ms) => member_names(ms@),
                        None => Seq::empty(),
                    });
                }
                r.push(g);
            },
            None => {},
        }
        i += 1;
        assert(groups_view(r@) =~= entries_groups(es@.take(i as int)));
    }
    assert(es@.take(es.len() as int) =~= es@);
    r
}

fn build_line_rule(line: &str) -> (r: Option<Rule>)
    ensures
        match line_rule(line@) {
            Some(x) => r matches Some(y) && y@ == x,
            None => r is None,
        },
{
    let chars = chars_of(line);
    let pieces = split_on(chars.as_slice(), ',');
    let ghost parts = split_char(line@, ',').map_values(|p: Seq<char>| trim(p));
    let n = pieces.len();
    if n >= 3 {
        let a = trim_chars(pieces[0].as_slice());
        let b = trim_chars(pieces[1].as_slice());
        let c = trim_chars(pieces[2].as_slice());
        assert(a@ == parts[0] && b@ == parts[1] && c@ == parts[2]);
        Some(
            Rule {
                rule_type: string_of(a.as_slice()),
                payload: string_of(b.as_slice()),
                proxy: string_of(c.as_slice()),
            },
        )
    } else if n == 2 {
        let a = trim_chars(pieces[0].as_slice());
        let b = trim_chars(pieces[1].as_slice());
        assert(a@ == parts[0] && b@ == parts[1]);
        let m = chars_of("MATCH");
        if eq_ignore_ascii_case(a.as_slice(), m.as_slice()) {
            Some(
                Rule {
                    rule_type: string_from("MATCH"),
                    payload: String::new(),
                    proxy: string_of(b.as_slice()),
                },
            )
        } else {
            None
        }
    } else {
        None
    }
}

fn build_rules(ls: &Vec<String>) -> (r: Vec<Rule>)
    ensures
        rules_view(r@) == lines_rules(ls@),
{
    let mut r: Vec<Rule> = Vec::new();
    let mut i: usize = 0;
    while i < ls.len()
        invariant
            i <= ls.len(),
            rules_view(r@) == lines_rules(ls@.take(i as int)),
        decreases ls.len() - i,
    {
        assert(ls@.take(i + 1).drop_last() =~= ls@.take(i as int));
        match build_line_rule(ls[i].as_str()) {
            Some(x) => {
                r.push(x);
            },
            None => {},
        }
        i += 1;
        assert(rules_view(r@) =~= lines_rules(ls@.take(i as int)));
    }
    assert(ls@.take(ls.len() as int) =~= ls@);
    r
}

fn build_uri_nodes(lines: &Vec<Vec<char>>) -> (r: Vec<Proxy>)
    ensures
        proxies_view(r@) == uri_nodes(lines@.map_values(|l: Vec<char>| l@)),
{
    let ghost ls = lines@.map_values(|l: Vec<char>| l@);
    let mut r: Vec<Proxy> = Vec::new();
    let mut i: usize = 0;
    while i < lines.len()
        invariant
            i <= lines.len(),
            ls == lines@.map_values(|l: Vec<char>| l@),
            proxies_view(r@) == uri_nodes(ls.take(i as int)),
        decreases lines.len() - i,
    {
        assert(ls.take(i + 1).drop_last() =~= ls.take(i as int));
        let t = trim_chars(lines[i].as_slice());
        match parse_single_node_uri(t.as_slice()) {
            Some(p) => {
                r.push(p);
            },
            None => {},
        }
        i += 1;
        assert(proxies_view(r@) =~= uri_nodes(ls.take(i as int)));
    }
    assert(ls.take(lines.len() as int) =~= ls);
    r
}

fn push_escaped(out: &mut Vec<char>, s: &[char])
    ensures
        final(out)@ == old(out)@ + escape_quotes(s@),
{
    let mut i: usize = 0;
    while i < s.len()
        invariant
            i <= s.len(),
            out@ == old(out)@ + escape_quotes(s@.take(i as int)),
        decreases s.len() - i,
    {
        assert(s@.take(i + 1).drop_last() =~= s@.take(i as int));
        if s[i] == '"' {
            out.push('\\');
            out.push('"');
        } else {
            out.push(s[i]);
        }
        i += 1;
        assert(out@ =~= old(out)@ + escape_quotes(s@.take(i as int)));
    }
    assert(s@.take(s.len() as int) =~= s@);
}

fn node_item(p: &Proxy) -> (r: Vec<char>)
    ensures
        r@ == yaml_node_item(p@),
{
    let mut out: Vec<char> = Vec::new();
    push_str(&mut out, "  - { name: \"");
    let name = chars_of(p.name.as_str());
    push_escaped(&mut out, name.as_slice());
    push_str(&mut out, "\", type: ");
    let lower = to_lowercase(p.proxy_type.as_str());
    push_str(&mut out, lower.as_str());
    push_str(&mut out, ", server: \"");
    push_str(&mut out, p.server.as_str());
    push_str(&mut out, "\", port: ");
    let port = u64_to_dec(p.port as u64);
    push_all(&mut out, port.as_slice());
    push_str(&mut out, " }");
    assert(out@ =~= yaml_node_item(p@));
    out
}

fn name_item(n: &str) -> (r: Vec<char>)
    ensures
        r@ == yaml_name_item(n@),
{
    let mut out: Vec<char> = Vec::new();
    push_str(&mut out, "      - \"");
    push_str(&mut out, n);
    push_str(&mut out, "\"");
    assert(out@ =~= yaml_name_item(n@));
    out
}

/// Appends `join(items, "\n")`.
fn push_joined(out: &mut Vec<char>, items: &Vec<Vec<char>>)
    ensures
        final(out)@ == old(out)@ + join(items@.map_values(|v: Vec<char>| v@), "\n"@),
{
    let ghost its = items@.map_values(|v: Vec<char>| v@);
    let nl = chars_of("\n");
    let mut i: usize = 0;
    while i < items.len()
        invariant
            i <= items.len(),
            its == items@.map_values(|v: Vec<char>| v@),
            nl@ == "\n"@,
            out@ == old(out)@ + join(its.take(i as int), "\n"@),
        decreases items.len() - i,
    {
        assert(its.take(i + 1).drop_last() =~= its.take(i as int));
        if i > 0 {
            push_all(out, nl.as_slice());
        }
        push_all(out, items[i].as_slice());
        i += 1;
        proof {
            if i == 1 {
                assert(its.take(0) =~= Seq::<Seq<char>>::empty());
                assert(out@ =~= old(out)@ + join(its.take(i as int), "\n"@));
            } else {
                assert(out@ =~= old(out)@ + join(its.take(i as int), "\n"@));
            }
        }
    }
    assert(its.take(items.len() as int) =~= its);
}

fn build_generated_yaml(ps: &Vec<Proxy>) -> (r: String)
    ensures
        r@ == generated_yaml(proxies_view(ps@)),
{
    let ghost pv = proxies_view(ps@);
    let mut node_items: Vec<Vec<char>> = Vec::new();
    let mut name_items: Vec<Vec<char>> = Vec::new();
    let mut i: usize = 0;
    while i < ps.len()
        invariant
            i <= ps.len(),
            pv == proxies_view(ps@),
            node_items@.len() == i,
            name_items@.len() == i,
            forall|k: int| 0 <= k < i ==> #[trigger] node_items@[k]@ == yaml_node_item(pv[k]),
            forall|k: int| 0 <= k < i ==> #[trigger] name_items@[k]@ == yaml_name_item(pv[k].name),
        decreases ps.len() - i,
    {
        node_items.push(node_item(&ps[i]));
        name_items.push(name_item(ps[i].name.as_str()));
        i += 1;
    }
    assert(node_items@.map_values(|v: Vec<char>| v@) =~= pv.map_values(
        |p: ProxyView| yaml_node_item(p),
    ));
    assert(name_items@.map_values(|v: Vec<char>| v@) =~= pv.map_values(
        |p: ProxyView| yaml_name_item(p.name),
    ));
    let mut out: Vec<char> = Vec::new();
    push_str(
        &mut out,
        "port: 7890\nsocks-port: 7891\nmixed-port: 7897\nallow-lan: true\nmode: rule\nlog-level: info\nexternal-controller: 127.0.0.1:9090\nsecret: \"\"\nproxies:\n",
    );
    push_joined(&mut out, &node_items);
    push_str(&mut out, "\nproxy-groups:\n  - name: GLOBAL\n    type: select\n    proxies:\n");
    push_joined(&mut out, &name_items);
    push_str(&mut out, "\n  - name: PROXY\n    type: select\n    proxies:\n");
    push_joined(&mut out, &name_items);
    push_str(&mut out, "\nrules:\n  - MATCH,GLOBAL\n");
    assert(out@ =~= generated_yaml(pv));
    string_of(out.as_slice())
}

fn names_of(ps: &Vec<Proxy>) -> (r: Vec<String>)
    ensures
        strings_view(r@) == proxies_view(ps@).map_values(|p: ProxyView| p.name),
{
    let mut r: Vec<String> = Vec::new();
    let mut i: usize = 0;
    while i < ps.len()
        invariant
            i <= ps.len(),
            r@.len() == i,
            forall|k: int| 0 <= k < i ==> #[trigger] r@[k]@ == ps@[k].name@,
        decreases ps.len() - i,
    {
        r.push(string_from(ps[i].name.as_str()));
        i += 1;
    }
    assert(strings_view(r@) =~= proxies_view(ps@).map_values(|p: ProxyView| p.name));
    r
}

pub struct ProfileParser;

impl ProfileParser {
    /// The text a subscription body stands for: Base64-wrapped bodies are decoded,
    /// everything else is trimmed.
    pub fn decode_content(content: &str) -> (r: String)
        ensures
            r@ == spec_decode_content(content@),
    {
        let t = trim_str(content);
        let tv = chars_of(t.as_str());
        let p1 = chars_of("proxies:");
        let p2 = chars_of("port:");
        let encoded = find_char(tv.as_slice(), '\n').is_none() && !contains_sub(
            tv.as_slice(),
            p1.as_slice(),
        ) && !contains_sub(tv.as_slice(), p2.as_slice());
        if encoded {
            match base64_decode(t.as_str()) {
                Some(bytes) => match utf8_string(bytes) {
                    Some(s) => s,
                    None => t,
                },
                None => t,
            }
        } else {
            t
        }
    }

    /// Builds the profile from decoded subscription text and its reading as a
    /// Clash/Mihomo YAML profile (`None` when it does not read as one). When the
    /// YAML yields no node, share links found one per line are used instead and a
    /// profile is generated for them.
    pub fn build_profile(content: &str, raw: Option<RawClashConfig>) -> (r: ParsedProfile)
        ensures
            r@ == spec_build_profile(content@, raw),
    {
        let ghost raw0 = raw;
        let (proxies, mut groups, mut rules, has_dns, has_tun, ext, secret) = match &raw {
            Some(r) => (
                match &r.proxies {
                    Some(es) => build_proxies(es),
                    None => Vec::new(),
                },
                match &r.proxy_groups {
                    Some(es) => build_groups(es),
                    None => Vec::new(),
                },
                match &r.rules {
                    Some(ls) => build_rules(ls),
                    None => Vec::new(),
                },
                r.has_dns,
                r.has_tun,
                clone_opt_string(&r.external_controller),
                clone_opt_string(&r.secret),
            ),
            None => (Vec::new(), Vec::new(), Vec::new(), false, false, None, None),
        };
        let chars = chars_of(content);
        let lines = split_on(chars.as_slice(), '\n');
        proof {
            assert(lines@.map_values(|l: Vec<char>| l@) =~= split_char(content@, '\n'));
        }
        if proxies.len() == 0 {
            let nodes = build_uri_nodes(&lines);
            if nodes.len() > 0 {
                let names = names_of(&nodes);
                let names2 = names_of(&nodes);
                groups.push(
                    ProxyGroup {
                        name: string_from("GLOBAL"),
                        group_type: string_from("select"),
                        proxies: names,
                        now: None,
                    },
                );
                groups.push(
                    ProxyGroup {
                        name: string_from("PROXY"),
                        group_type: string_from("select"),
                        proxies: names2,
                        now: None,
                    },
                );
                rules.push(
                    Rule {
                        rule_type: string_from("MATCH"),
                        payload: String::new(),
                        proxy: string_from("GLOBAL"),
                    },
                );
                let yaml = build_generated_yaml(&nodes);
                let r = ParsedProfile {
                    proxies: nodes,
                    proxy_groups: groups,
                    rules,
                    has_dns: false,
                    has_tun: false,
                    external_controller: Some(string_from("127.0.0.1:9090")),
                    secret: None,
                    raw_yaml: yaml,
                };
                proof {
                    let s = spec_build_profile(content@, raw0);
                    assert(r@.proxy_groups =~= s.proxy_groups);
                    assert(r@.rules =~= s.rules);
                }
                return r;
            }
        }
        let r = ParsedProfile {
            proxies,
            proxy_groups: groups,
            rules,
            has_dns,
            has_tun,
            external_controller: ext,
            secret,
            raw_yaml: string_from(content),
        };
        proof {
            let sp = spec_build_profile(content@, raw0);
            assert(r@.proxies == sp.proxies);
            assert(r@.proxy_groups == sp.proxy_groups);
            assert(r@.rules == sp.rules);
            assert(r@.has_dns == sp.has_dns);
            assert(r@.external_controller == sp.external_controller);
            assert(r@.secret == sp.secret);
            assert(r@.raw_yaml == sp.raw_yaml);
        }
        r
    }
}


// ---------------------------------------------------------------------------
// Laws
// ---------------------------------------------------------------------------

/// Pieces of `a` `,` `b` when neither part holds a comma: exactly the two parts.
proof fn lemma_split_two(a: Seq<char>, b: Seq<char>)
    requires
        !has_char(a, ','),
        !has_char(b, ','),
    ensures
        split_char(a + seq![','] + b, ',') == seq![a, b],
{
    let line = a + seq![','] + b;
    let k = a.len() as int;
    assert forall|j: int| 0 <= j < k implies line[j] != ',' by {
        assert(line[j] == a[j]);
    }
    lemma_split_char_first(line, ',', k);
    assert(line.subrange(0, k) =~= a);
    assert(line.subrange(k + 1, line.len() as int) =~= b);
    lemma_split_char_first(b, ',', b.len() as int);
    lemma_split_char_len_no_sep(b, ',');
    assert(b.subrange(0, b.len() as int) =~= b);
    let sp = split_char(line, ',');
    assert(sp.subrange(1, sp.len() as int).len() == 1);
    assert(sp =~= seq![a, b]);
}

/// Pieces of `a` `,` `b` `,` `c` when no part holds a comma: exactly the three parts.
proof fn lemma_split_three(a: Seq<char>, b: Seq<char>, c: Seq<char>)
    requires
        !has_char(a, ','),
        !has_char(b, ','),
        !has_char(c, ','),
    ensures
        split_char(a + seq![','] + b + seq![','] + c, ',') == seq![a, b, c],
{
    let line = a + seq![','] + b + seq![','] + c;
    let k = a.len() as int;
    assert forall|j: int| 0 <= j < k implies line[j] != ',' by {
        assert(line[j] == a[j]);
    }
    lemma_split_char_first(line, ',', k);
    assert(line.subrange(0, k) =~= a);
    assert(line.subrange(k + 1, line.len() as int) =~= b + seq![','] + c);
    lemma_split_two(b, c);
    let sp = split_char(line, ',');
    let tail = sp.subrange(1, sp.len() as int);
    assert(tail == seq![b, c]);
    assert(sp.len() == 3);
    assert(sp[1] == tail[0] && sp[2] == tail[1]);
    assert(sp =~= seq![a, b, c]);
}

/// A catch-all line `MATCH,target` (the keyword in any letter case, blanks
/// allowed around either field) gives the rule of type `MATCH` whose target is
/// the trimmed target and whose payload is empty.
pub proof fn lemma_match_line(keyword: Seq<char>, target: Seq<char>)
    requires
        !has_char(keyword, ','),
        !has_char(target, ','),
        eq_ignore_case(trim(keyword), "MATCH"@),
    ensures
        line_rule(keyword + seq![','] + target) == Some(
            RuleView { rule_type: "MATCH"@, payload: Seq::<char>::empty(), proxy: trim(target) },
        ),
{
    lemma_split_two(keyword, target);
}

/// A line of three comma-separated fields `type,payload,target` gives the rule
/// with those fields, each trimmed.
pub proof fn lemma_three_field_line(t: Seq<char>, payload: Seq<char>, target: Seq<char>)
    requires
        !has_char(t, ','),
        !has_char(payload, ','),
        !has_char(target, ','),
    ensures
        line_rule(t + seq![','] + payload + seq![','] + target) == Some(
            RuleView { rule_type: trim(t), payload: trim(payload), proxy: trim(target) },
        ),
{
    lemma_split_three(t, payload, target);
}


/// `c` occurs in `a + b` exactly when it occurs in `a` or in `b`.
proof fn lemma_has_char_concat(a: Seq<char>, b: Seq<char>, c: char)
    ensures
        has_char(a + b, c) <==> has_char(a, c) || has_char(b, c),
{
    let ab = a + b;
    if has_char(a, c) {
        let i = choose|i: int| 0 <= i < a.len() && a[i] == c;
        assert(ab[i] == c);
    }
    if has_char(b, c) {
        let i = choose|i: int| 0 <= i < b.len() && b[i] == c;
        assert(ab[a.len() + i] == c);
    }
    if has_char(ab, c) {
        let i = choose|i: int| 0 <= i < ab.len() && ab[i] == c;
        if i < a.len() {
            assert(a[i] == c);
        } else {
            assert(b[i - a.len()] == c);
        }
    }
}

/// The first `c` of `a` `c` `b`, when `a` holds none, is the one after `a`.
proof fn lemma_first_index_after(a: Seq<char>, c: char, b: Seq<char>)
    requires
        !has_char(a, c),
    ensures
        has_char(a + seq![c] + b, c),
        first_index(a + seq![c] + b, c) == a.len(),
{
    let s = a + seq![c] + b;
    let k = a.len() as int;
    assert(s[k] == c);
    assert forall|j: int| 0 <= j < k implies s[j] != c by {
        assert(s[j] == a[j]);
    }
    let f = first_index(s, c);
    assert(0 <= f < s.len() && s[f] == c && forall|j: int| 0 <= j < f ==> s[j] != c);
    if f < k {
        assert(s[f] == a[f]);
    }
}

/// The last `c` of `a` `c` `b`, when `b` holds none, is the one before `b`.
proof fn lemma_last_index_before(a: Seq<char>, c: char, b: Seq<char>)
    requires
        !has_char(b, c),
    ensures
        has_char(a + seq![c] + b, c),
        last_index(a + seq![c] + b, c) == a.len(),
{
    let s = a + seq![c] + b;
    let k = a.len() as int;
    assert(s[k] == c);
    assert forall|j: int| k < j < s.len() implies s[j] != c by {
        assert(s[j] == b[j - k - 1]);
    }
    let f = last_index(s, c);
    assert(0 <= f < s.len() && s[f] == c && forall|j: int| f < j < s.len() ==> s[j] != c);
    if f > k {
        assert(s[f] == b[f - k - 1]);
    }
}

/// The decimal text of a number is all digits, starts with a digit and reads
/// back as the number.
proof fn lemma_dec_digits(n: nat)
    ensures
        dec(n).len() > 0,
        all_digits(dec(n)),
        digits_value(dec(n)) == n,
    decreases n,
{
    let c = digit_char(n % 10);
    assert(('0' as u32) + n % 10 <= 0x39);
    assert(c as u32 == ('0' as u32) + n % 10);
    assert(is_digit(c));
    assert(digit_val(c) == n % 10);
    if n < 10 {
        assert(dec(n) == seq![c]);
        assert(seq![c].drop_last() =~= Seq::<char>::empty());
        assert(digits_value(Seq::<char>::empty()) == 0);
        assert(digits_value(seq![c]) == digit_val(c));
    } else {
        lemma_dec_digits(n / 10);
        let d = dec(n / 10).push(c);
        assert(d.drop_last() =~= dec(n / 10));
        assert(d.last() == c);
        assert(digits_value(d) == digits_value(dec(n / 10)) * 10 + digit_val(c));
        assert((n / 10) * 10 + n % 10 == n);
        assert forall|i: int| 0 <= i < d.len() implies is_digit(#[trigger] d[i]) by {
            if i < d.len() - 1 {
                assert(d[i] == dec(n / 10)[i]);
            }
        }
    }
}

/// No separator of a share link occurs in a decimal number.
proof fn lemma_dec_no_char(n: nat, c: char)
    requires
        !is_digit(c),
    ensures
        !has_char(dec(n), c),
{
    lemma_dec_digits(n);
    if has_char(dec(n), c) {
        let i = choose|i: int| 0 <= i < dec(n).len() && dec(n)[i] == c;
        assert(is_digit(dec(n)[i]));
    }
}

/// `host:port` with the port written in decimal reads back as host and port.
proof fn lemma_host_port_of(host: Seq<char>, port: u16)
    ensures
        host_port(host + seq![':'] + dec(port as nat)) == Some((host, port)),
{
    let d = dec(port as nat);
    lemma_dec_digits(port as nat);
    lemma_dec_no_char(port as nat, ':');
    lemma_last_index_before(host, ':', d);
    let hp = host + seq![':'] + d;
    assert(skip(hp, host.len() as int + 1) =~= d);
    assert(hp.subrange(0, host.len() as int) =~= host);
    assert(is_digit(d[0]));
    assert(unsigned_body(d) == d);
}


/// The name a share link's fragment gives a node, `default` when it is empty
/// or does not decode.
pub open spec fn fragment_name(fragment: Seq<char>, default: Seq<char>) -> Seq<char> {
    match url_decoded(fragment) {
        Some(d) => if d.len() == 0 {
            default
        } else {
            d
        },
        None => default,
    }
}

/// `host:port` in decimal holds neither `#` nor `?` when the host holds neither.
proof fn lemma_host_port_plain(host: Seq<char>, port: u16)
    requires
        !has_char(host, '#'),
        !has_char(host, '?'),
    ensures
        !has_char(host + seq![':'] + dec(port as nat), '#'),
        !has_char(host + seq![':'] + dec(port as nat), '?'),
{
    let d = dec(port as nat);
    lemma_dec_no_char(port as nat, '#');
    lemma_dec_no_char(port as nat, '?');
    lemma_has_char_concat(host, seq![':'], '#');
    lemma_has_char_concat(host + seq![':'], d, '#');
    lemma_has_char_concat(host, seq![':'], '?');
    lemma_has_char_concat(host + seq![':'], d, '?');
}

/// `a` `x` `b` `y` `c` holds no `#` when none of its parts does.
proof fn lemma_no_hash5(a: Seq<char>, x: char, b: Seq<char>, c: Seq<char>)
    requires
        !has_char(a, '#'),
        x != '#',
        !has_char(b, '#'),
        !has_char(c, '#'),
    ensures
        !has_char(a + seq![x] + b + c, '#'),
{
    lemma_has_char_concat(a, seq![x], '#');
    lemma_has_char_concat(a + seq![x], b, '#');
    lemma_has_char_concat(a + seq![x] + b, c, '#');
}

/// Cut at its first `?`, `hp` then `q` (nothing, or a query starting with
/// `?`) is `hp` when `hp` holds no `?`.
proof fn lemma_before_query_of(hp: Seq<char>, q: Seq<char>)
    requires
        !has_char(hp, '?'),
        q.len() == 0 || q[0] == '?',
    ensures
        before_query(hp + q) == hp,
{
    if q.len() == 0 {
        assert(hp + q =~= hp);
    } else {
        let query = q.drop_first();
        assert(hp + q =~= hp + seq!['?'] + query);
        lemma_first_index_after(hp, '?', query);
        assert((hp + q).subrange(0, hp.len() as int) =~= hp);
    }
}

/// After the first `@` of `user` `@` `rest`, when `user` holds none, comes `rest`.
proof fn lemma_after_at(user: Seq<char>, rest: Seq<char>)
    requires
        !has_char(user, '@'),
    ensures
        has_char(user + seq!['@'] + rest, '@'),
        skip(user + seq!['@'] + rest, first_index(user + seq!['@'] + rest, '@') + 1) == rest,
{
    lemma_first_index_after(user, '@', rest);
    assert(skip(user + seq!['@'] + rest, user.len() as int + 1) =~= rest);
}

/// What stands before a link's `#`: `user@hp` then `q` (nothing, or a query
/// starting with `?`). It holds no `#`, and the part after its first `@`, cut
/// at its first `?`, is `hp`.
proof fn lemma_authority(user: Seq<char>, hp: Seq<char>, q: Seq<char>)
    requires
        !has_char(user, '@'),
        !has_char(user, '#'),
        !has_char(hp, '#'),
        !has_char(hp, '?'),
        !has_char(q, '#'),
        q.len() == 0 || q[0] == '?',
    ensures
        !has_char(user + seq!['@'] + hp + q, '#'),
        has_char(user + seq!['@'] + hp + q, '@'),
        before_query(
            skip(
                user + seq!['@'] + hp + q,
                first_index(user + seq!['@'] + hp + q, '@') + 1,
            ),
        ) == hp,
{
    lemma_no_hash5(user, '@', hp, q);
    assert(user + seq!['@'] + hp + q =~= user + seq!['@'] + (hp + q));
    lemma_after_at(user, hp + q);
    lemma_before_query_of(hp, q);
}

/// The text after the scheme of a TLS share link, `user@host:port`, then
/// `q` (nothing, or a query starting with `?`), then `#` and the fragment.
proof fn lemma_tls_rest(
    user: Seq<char>,
    host: Seq<char>,
    port: u16,
    q: Seq<char>,
    name: Seq<char>,
    t: Seq<char>,
    upper: Seq<char>,
)
    requires
        !has_char(user, '@'),
        !has_char(user, '#'),
        !has_char(host, '#'),
        !has_char(host, '?'),
        !has_char(q, '#'),
        q.len() == 0 || q[0] == '?',
    ensures
        spec_tls_link(
            user + seq!['@'] + host + seq![':'] + dec(port as nat) + q + seq!['#'] + name,
            t,
            upper,
        ) == Some(mk_proxy(fragment_name(name, upper), t, host, port, true)),
{
    let hp = host + seq![':'] + dec(port as nat);
    let main = user + seq!['@'] + hp + q;
    let rest = user + seq!['@'] + host + seq![':'] + dec(port as nat) + q + seq!['#'] + name;
    assert(rest =~= main + seq!['#'] + name);
    lemma_host_port_plain(host, port);
    lemma_authority(user, hp, q);
    lemma_split_fragment_of(main, name, upper);
    lemma_host_port_of(host, port);
}

/// Split at its first `#`, `main` `#` `name` (with no `#` in `main`) gives
/// `main` and the decoded fragment.
proof fn lemma_split_fragment_of(main: Seq<char>, name: Seq<char>, default: Seq<char>)
    requires
        !has_char(main, '#'),
    ensures
        split_fragment(main + seq!['#'] + name, default) == (main, match url_decoded(name) {
            Some(d) => d,
            None => Seq::<char>::empty(),
        }),
{
    let rest = main + seq!['#'] + name;
    lemma_first_index_after(main, '#', name);
    assert(rest.subrange(0, main.len() as int) =~= main);
    assert(skip(rest, main.len() as int + 1) =~= name);
}


/// `t` is not a prefix of `s` when they differ at a position both have.
proof fn lemma_not_prefix(s: Seq<char>, t: Seq<char>, i: int)
    requires
        0 <= i < t.len(),
        i < s.len(),
        s[i] != t[i],
    ensures
        !has_prefix(s, t),
{
    if t.len() <= s.len() {
        assert(s.subrange(0, t.len() as int)[i] == s[i]);
    }
}

/// The node type a TLS share link's scheme names.
pub open spec fn tls_link_type(scheme: Seq<char>) -> Seq<char> {
    if scheme == "hy2"@ {
        "hysteria2"@
    } else {
        scheme
    }
}

/// The name a TLS share link's node gets without a fragment.
pub open spec fn tls_link_default_name(scheme: Seq<char>) -> Seq<char> {
    if scheme == "vless"@ {
        "VLESS"@
    } else if scheme == "trojan"@ {
        "TROJAN"@
    } else {
        "HYSTERIA2"@
    }
}

/// A link that starts `vless://` is read as a VLESS link.
proof fn lemma_vless_dispatch(uri: Seq<char>)
    requires
        has_prefix(uri, "vless://"@),
    ensures
        spec_parse_uri(uri) == spec_tls_link(skip(uri, 8), "vless"@, "VLESS"@),
{
    reveal(spec_parse_uri);
    reveal_strlit("ss://");
    reveal_strlit("vmess://");
    reveal_strlit("vless://");
    assert(uri.subrange(0, 8)[0] == uri[0] && uri.subrange(0, 8)[1] == uri[1]);
    lemma_not_prefix(uri, "ss://"@, 0);
    lemma_not_prefix(uri, "vmess://"@, 1);
}

/// A link that starts `trojan://` is read as a Trojan link.
proof fn lemma_trojan_dispatch(uri: Seq<char>)
    requires
        has_prefix(uri, "trojan://"@),
    ensures
        spec_parse_uri(uri) == spec_tls_link(skip(uri, 9), "trojan"@, "TROJAN"@),
{
    reveal(spec_parse_uri);
    reveal_strlit("ss://");
    reveal_strlit("vmess://");
    reveal_strlit("vless://");
    reveal_strlit("trojan://");
    assert(uri.subrange(0, 9)[0] == uri[0]);
    lemma_not_prefix(uri, "ss://"@, 0);
    lemma_not_prefix(uri, "vmess://"@, 0);
    lemma_not_prefix(uri, "vless://"@, 0);
}

/// A link that starts `hysteria2://` is read as a Hysteria2 link.
proof fn lemma_hysteria2_dispatch(uri: Seq<char>)
    requires
        has_prefix(uri, "hysteria2://"@),
    ensures
        spec_parse_uri(uri) == spec_tls_link(skip(uri, 12), "hysteria2"@, "HYSTERIA2"@),
{
    reveal(spec_parse_uri);
    reveal_strlit("ss://");
    reveal_strlit("vmess://");
    reveal_strlit("vless://");
    reveal_strlit("trojan://");
    reveal_strlit("hysteria2://");
    assert(uri.subrange(0, 12)[0] == uri[0]);
    lemma_not_prefix(uri, "ss://"@, 0);
    lemma_not_prefix(uri, "vmess://"@, 0);
    lemma_not_prefix(uri, "vless://"@, 0);
    lemma_not_prefix(uri, "trojan://"@, 0);
}

/// A link that starts `hy2://` is read as a Hysteria2 link.
proof fn lemma_hy2_dispatch(uri: Seq<char>)
    requires
        has_prefix(uri, "hy2://"@),
    ensures
        spec_parse_uri(uri) == spec_tls_link(skip(uri, 6), "hysteria2"@, "HYSTERIA2"@),
{
    reveal(spec_parse_uri);
    reveal_strlit("ss://");
    reveal_strlit("vmess://");
    reveal_strlit("vless://");
    reveal_strlit("trojan://");
    reveal_strlit("hysteria2://");
    reveal_strlit("hy2://");
    assert(uri.subrange(0, 6)[0] == uri[0] && uri.subrange(0, 6)[2] == uri[2]);
    lemma_not_prefix(uri, "ss://"@, 0);
    lemma_not_prefix(uri, "vmess://"@, 0);
    lemma_not_prefix(uri, "vless://"@, 0);
    lemma_not_prefix(uri, "trojan://"@, 0);
    lemma_not_prefix(uri, "hysteria2://"@, 2);
}

/// The node a TLS link `pre` `user@host:port` `q` `#name` describes, where
/// `q` is nothing or a query starting with `?`, for a prefix `pre` that every
/// link is read after as a TLS link of type `t`.
proof fn lemma_tls_uri(
    pre: Seq<char>,
    t: Seq<char>,
    upper: Seq<char>,
    user: Seq<char>,
    host: Seq<char>,
    port: u16,
    q: Seq<char>,
    name: Seq<char>,
)
    requires
        forall|u: Seq<char>| #[trigger]
            has_prefix(u, pre) ==> spec_parse_uri(u) == spec_tls_link(skip(u, pre.len() as int), t, upper),
        !has_char(user, '@'),
        !has_char(user, '#'),
        !has_char(host, '#'),
        !has_char(host, '?'),
        !has_char(q, '#'),
        q.len() == 0 || q[0] == '?',
    ensures
        spec_parse_uri(
            pre + (user + seq!['@'] + host + seq![':'] + dec(port as nat) + q + seq!['#'] + name),
        ) == Some(mk_proxy(fragment_name(name, upper), t, host, port, true)),
{
    let rest = user + seq!['@'] + host + seq![':'] + dec(port as nat) + q + seq!['#'] + name;
    let uri = pre + rest;
    assert(uri.subrange(0, pre.len() as int) =~= pre);
    assert(has_prefix(uri, pre));
    assert(skip(uri, pre.len() as int) =~= rest);
    lemma_tls_rest(user, host, port, q, name, t, upper);
}

/// The law below for one prefix `pre`, read as a TLS link of type `t`.
proof fn lemma_tls_link_core(
    pre: Seq<char>,
    t: Seq<char>,
    upper: Seq<char>,
    user: Seq<char>,
    host: Seq<char>,
    port: u16,
    query: Seq<char>,
    name: Seq<char>,
)
    requires
        forall|u: Seq<char>| #[trigger]
            has_prefix(u, pre) ==> spec_parse_uri(u) == spec_tls_link(skip(u, pre.len() as int), t, upper),
        !has_char(user, '@'),
        !has_char(user, '#'),
        !has_char(host, '#'),
        !has_char(host, '?'),
        !has_char(query, '#'),
    ensures
        ({
            let head = pre + user + seq!['@'] + host + seq![':'] + dec(port as nat);
            let with_query = head + seq!['?'] + query + seq!['#'] + name;
            let without_query = head + seq!['#'] + name;
            &&& spec_parse_uri(with_query) == spec_parse_uri(without_query)
            &&& spec_parse_uri(with_query) == Some(mk_proxy(fragment_name(name, upper), t, host, port, true))
        }),
{
    let d = dec(port as nat);
    let q1 = seq!['?'] + query;
    lemma_has_char_concat(seq!['?'], query, '#');
    lemma_tls_uri(pre, t, upper, user, host, port, q1, name);
    lemma_tls_uri(pre, t, upper, user, host, port, Seq::<char>::empty(), name);
    let head = pre + user + seq!['@'] + host + seq![':'] + d;
    assert(head + seq!['?'] + query + seq!['#'] + name =~= pre + (user + seq!['@'] + host + seq![
        ':',
    ] + d + q1 + seq!['#'] + name));
    assert(head + seq!['#'] + name =~= pre + (user + seq!['@'] + host + seq![':'] + d
        + Seq::<char>::empty() + seq!['#'] + name));
}

/// The law below for `vless://` links.
proof fn lemma_vless_link(
    scheme: Seq<char>,
    user: Seq<char>,
    host: Seq<char>,
    port: u16,
    query: Seq<char>,
    name: Seq<char>,
)
    requires
        scheme == "vless"@,
        !has_char(user, '@'),
        !has_char(user, '#'),
        !has_char(host, '#'),
        !has_char(host, '?'),
        !has_char(query, '#'),
    ensures
        ({
            let head = scheme + seq![':', '/', '/'] + user + seq!['@'] + host + seq![':'] + dec(
                port as nat,
            );
            let with_query = head + seq!['?'] + query + seq!['#'] + name;
            let without_query = head + seq!['#'] + name;
            &&& spec_parse_uri(with_query) == spec_parse_uri(without_query)
            &&& spec_parse_uri(with_query) == Some(
                ProxyView {
                    name: fragment_name(name, tls_link_default_name(scheme)),
                    proxy_type: tls_link_type(scheme),
                    server: host,
                    port,
                    udp: Some(true),
                    tls: Some(true),
                },
            )
        }),
{
    reveal_strlit("vless");
    reveal_strlit("hy2");
    reveal_strlit("vless");
    reveal_strlit("trojan");
    reveal_strlit("vless://");
    assert(scheme + seq![':', '/', '/'] =~= "vless://"@);
    assert forall|u: Seq<char>| #[trigger] has_prefix(u, "vless://"@) implies spec_parse_uri(u)
        == spec_tls_link(skip(u, 8), "vless"@, "VLESS"@) by {
        lemma_vless_dispatch(u);
    }
    lemma_tls_link_core("vless://"@, "vless"@, "VLESS"@, user, host, port, query, name);
}

/// The law below for `trojan://` links.
proof fn lemma_trojan_link(
    scheme: Seq<char>,
    user: Seq<char>,
    host: Seq<char>,
    port: u16,
    query: Seq<char>,
    name: Seq<char>,
)
    requires
        scheme == "trojan"@,
        !has_char(user, '@'),
        !has_char(user, '#'),
        !has_char(host, '#'),
        !has_char(host, '?'),
        !has_char(query, '#'),
    ensures
        ({
            let head = scheme + seq![':', '/', '/'] + user + seq!['@'] + host + seq![':'] + dec(
                port as nat,
            );
            let with_query = head + seq!['?'] + query + seq!['#'] + name;
            let without_query = head + seq!['#'] + name;
            &&& spec_parse_uri(with_query) == spec_parse_uri(without_query)
            &&& spec_parse_uri(with_query) == Some(
                ProxyView {
                    name: fragment_name(name, tls_link_default_name(scheme)),
                    proxy_type: tls_link_type(scheme),
                    server: host,
                    port,
                    udp: Some(true),
                    tls: Some(true),
                },
            )
        }),
{
    reveal_strlit("trojan");
    reveal_strlit("hy2");
    reveal_strlit("vless");
    reveal_strlit("trojan");
    reveal_strlit("trojan://");
    assert(scheme + seq![':', '/', '/'] =~= "trojan://"@);
    assert forall|u: Seq<char>| #[trigger] has_prefix(u, "trojan://"@) implies spec_parse_uri(u)
        == spec_tls_link(skip(u, 9), "trojan"@, "TROJAN"@) by {
        lemma_trojan_dispatch(u);
    }
    lemma_tls_link_core("trojan://"@, "trojan"@, "TROJAN"@, user, host, port, query, name);
}

/// The law below for `hysteria2://` links.
proof fn lemma_hysteria2_link(
    scheme: Seq<char>,
    user: Seq<char>,
    host: Seq<char>,
    port: u16,
    query: Seq<char>,
    name: Seq<char>,
)
    requires
        scheme == "hysteria2"@,
        !has_char(user, '@'),
        !has_char(user, '#'),
        !has_char(host, '#'),
        !has_char(host, '?'),
        !has_char(query, '#'),
    ensures
        ({
            let head = scheme + seq![':', '/', '/'] + user + seq!['@'] + host + seq![':'] + dec(
                port as nat,
            );
            let with_query = head + seq!['?'] + query + seq!['#'] + name;
            let without_query = head + seq!['#'] + name;
            &&& spec_parse_uri(with_query) == spec_parse_uri(without_query)
            &&& spec_parse_uri(with_query) == Some(
                ProxyView {
                    name: fragment_name(name, tls_link_default_name(scheme)),
                    proxy_type: tls_link_type(scheme),
                    server: host,
                    port,
                    udp: Some(true),
                    tls: Some(true),
                },
            )
        }),
{
    reveal_strlit("hysteria2");
    reveal_strlit("hy2");
    reveal_strlit("vless");
    reveal_strlit("trojan");
    reveal_strlit("hysteria2://");
    assert(scheme + seq![':', '/', '/'] =~= "hysteria2://"@);
    assert forall|u: Seq<char>| #[trigger] has_prefix(u, "hysteria2://"@) implies spec_parse_uri(u)
        == spec_tls_link(skip(u, 12), "hysteria2"@, "HYSTERIA2"@) by {
        lemma_hysteria2_dispatch(u);
    }
    lemma_tls_link_core("hysteria2://"@, "hysteria2"@, "HYSTERIA2"@, user, host, port, query, name);
}

/// The law below for `hy2://` links.
proof fn lemma_hy2_link(
    scheme: Seq<char>,
    user: Seq<char>,
    host: Seq<char>,
    port: u16,
    query: Seq<char>,
    name: Seq<char>,
)
    requires
        scheme == "hy2"@,
        !has_char(user, '@'),
        !has_char(user, '#'),
        !has_char(host, '#'),
        !has_char(host, '?'),
        !has_char(query, '#'),
    ensures
        ({
            let head = scheme + seq![':', '/', '/'] + user + seq!['@'] + host + seq![':'] + dec(
                port as nat,
            );
            let with_query = head + seq!['?'] + query + seq!['#'] + name;
            let without_query = head + seq!['#'] + name;
            &&& spec_parse_uri(with_query) == spec_parse_uri(without_query)
            &&& spec_parse_uri(with_query) == Some(
                ProxyView {
                    name: fragment_name(name, tls_link_default_name(scheme)),
                    proxy_type: tls_link_type(scheme),
                    server: host,
                    port,
                    udp: Some(true),
                    tls: Some(true),
                },
            )
        }),
{
    reveal_strlit("hy2");
    reveal_strlit("hy2");
    reveal_strlit("vless");
    reveal_strlit("trojan");
    reveal_strlit("hy2://");
    assert(scheme + seq![':', '/', '/'] =~= "hy2://"@);
    assert forall|u: Seq<char>| #[trigger] has_prefix(u, "hy2://"@) implies spec_parse_uri(u)
        == spec_tls_link(skip(u, 6), "hysteria2"@, "HYSTERIA2"@) by {
        lemma_hy2_dispatch(u);
    }
    lemma_tls_link_core("hy2://"@, "hysteria2"@, "HYSTERIA2"@, user, host, port, query, name);
}

/// A `vless://`, `trojan://`, `hysteria2://` or `hy2://` link
/// `scheme://user@host:port?query#name`, with the port written in decimal,
/// describes the node of that type at `host` and `port`, with TLS and UDP on,
/// named after its fragment. The query plays no part: the same link without
/// it describes the same node.
pub proof fn lemma_tls_link_server_port(
    scheme: Seq<char>,
    user: Seq<char>,
    host: Seq<char>,
    port: u16,
    query: Seq<char>,
    name: Seq<char>,
)
    requires
        scheme == "vless"@ || scheme == "trojan"@ || scheme == "hysteria2"@ || scheme == "hy2"@,
        !has_char(user, '@'),
        !has_char(user, '#'),
        !has_char(host, '#'),
        !has_char(host, '?'),
        !has_char(query, '#'),
    ensures
        ({
            let head = scheme + seq![':', '/', '/'] + user + seq!['@'] + host + seq![':'] + dec(
                port as nat,
            );
            let with_query = head + seq!['?'] + query + seq!['#'] + name;
            let without_query = head + seq!['#'] + name;
            &&& spec_parse_uri(with_query) == spec_parse_uri(without_query)
            &&& spec_parse_uri(with_query) == Some(
                ProxyView {
                    name: fragment_name(name, tls_link_default_name(scheme)),
                    proxy_type: tls_link_type(scheme),
                    server: host,
                    port,
                    udp: Some(true),
                    tls: Some(true),
                },
            )
        }),
{
    if scheme == "vless"@ {
        lemma_vless_link(scheme, user, host, port, query, name);
    } else if scheme == "trojan"@ {
        lemma_trojan_link(scheme, user, host, port, query, name);
    } else if scheme == "hysteria2"@ {
        lemma_hysteria2_link(scheme, user, host, port, query, name);
    } else {
        lemma_hy2_link(scheme, user, host, port, query, name);
    }
}

} // verus!
