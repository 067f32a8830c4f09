//! Addresses and headers of the Mihomo REST and WebSocket API, and the
//! reading of the public-address replies.
use vstd::prelude::*;
use crate::text::{
    chars_of, concat_str, has_char, has_prefix, push_all, push_str, str_eq, string_from, string_of,
    trim, trim_chars, trim_str, u64_to_string, dec,
};

verus! {

/// The name of what `urlencoding::encode` returns for a text.
pub uninterp spec fn url_encoded(s: Seq<char>) -> Seq<char>;

/// Characters `urlencoding::encode` leaves as they are.
pub open spec fn unreserved(c: char) -> bool {
    ('0' <= c <= '9') || ('A' <= c <= 'Z') || ('a' <= c <= 'z') || c == '-' || c == '.' || c == '_'
        || c == '~'
}

/// Upper-case hexadecimal digit.
pub open spec fn hex_digit(d: u32) -> char {
    if d < 10 {
        (('0' as u32) + d) as char
    } else {
        (('A' as u32) + d - 10) as char
    }
}

/// Percent-encoding of an ASCII text: unreserved characters stay, every other
/// one becomes `%` and two upper-case hex digits.
pub open spec fn ascii_percent_encoded(s: Seq<char>) -> Seq<char>
    decreases s.len(),
{
    if s.len() == 0 {
        s
    } else {
        let c = s.last();
        ascii_percent_encoded(s.drop_last()) + if unreserved(c) {
            seq![c]
        } else {
            seq!['%', hex_digit((c as u32) / 16), hex_digit((c as u32) % 16)]
        }
    }
}

pub open spec fn all_ascii(s: Seq<char>) -> bool {
    forall|i: int| 0 <= i < s.len() ==> (s[i] as u32) < 128
}

/// `urlencoding::encode`: percent-encodes every byte of the UTF-8 text except
/// ASCII letters, digits and `-`, `.`, `_`, `~`, with upper-case hex digits.
/// The contract names the result and spells it out for ASCII texts; for
/// other texts it states no more than the name.
#[verifier::external_body]
fn url_encode(s: &str) -> (r: String)
    ensures
        r@ == url_encoded(s@),
        all_ascii(s@) ==> r@ == ascii_percent_encoded(s@),
{
    urlencoding::encode(s).into_owned()
}

/// The name of the `"ip"` text field of a JSON object, as `serde_json` reads
/// it from a text (nothing when the text is not JSON or has no such text field).
pub uninterp spec fn json_ip_field(text: Seq<char>) -> Option<Seq<char>>;

/// Reads a JSON text with `serde_json` and takes its `"ip"` field when it is a
/// string. The contract names the result after the text and states nothing more.
#[verifier::external_body]
fn json_ip(text: &str) -> (r: Option<String>)
    ensures
        crate::models::opt_string_view(r) == json_ip_field(text@),
{
    match serde_json::from_str::<serde_json::Value>(text) {
        Ok(v) => v["ip"].as_str().map(|x| x.to_string()),
        Err(_) => None,
    }
}

/// `s` with every occurrence of `p` (left to right, without overlap) replaced by `q`.
pub open spec fn replace_all(s: Seq<char>, p: Seq<char>, q: Seq<char>) -> Seq<char>
    recommends
        p.len() > 0,
    decreases s.len(),
{
    if s.len() == 0 || p.len() == 0 {
        s
    } else if has_prefix(s, p) {
        q + replace_all(s.subrange(p.len() as int, s.len() as int), p, q)
    } else {
        seq![s[0]] + replace_all(s.drop_first(), p, q)
    }
}

fn replace_all_exec(s: &[char], p: &[char], q: &[char]) -> (r: Vec<char>)
    requires
        p.len() > 0,
    ensures
        r@ == replace_all(s@, p@, q@),
{
    let mut out: Vec<char> = Vec::new();
    let mut i: usize = 0;
    assert(s@.subrange(0, s@.len() as int) =~= s@);
    while i < s.len()
        invariant
            i <= s.len(),
            p@.len() > 0,
            out@ + replace_all(s@.subrange(i as int, s@.len() as int), p@, q@) == replace_all(s@, p@, q@),
        decreases s.len() - i,
    {
        let ghost rest = s@.subrange(i as int, s@.len() as int);
        let n = s.len();
        let m = p.len();
        let hit = if n - i >= m {
            let w = crate::text::slice_chars(s, i, i + m);
            crate::text::chars_eq(w.as_slice(), p)
        } else {
            false
        };
        proof {
            if n - i >= m {
                assert(rest.subrange(0, p@.len() as int) =~= s@.subrange(i as int, i + m));
            }
        }
        if hit {
            let ghost before = out@;
            push_all(&mut out, q);
            proof {
                assert(rest.subrange(p@.len() as int, rest.len() as int) =~= s@.subrange(
                    i + m,
                    s@.len() as int,
                ));
                assert(out@ + replace_all(s@.subrange(i + m, s@.len() as int), p@, q@) =~= before
                    + replace_all(rest, p@, q@));
            }
            i = i + m;
        } else {
            let ghost before = out@;
            out.push(s[i]);
            proof {
                assert(rest.drop_first() =~= s@.subrange(i + 1, s@.len() as int));
                assert(out@ + replace_all(s@.subrange(i + 1, s@.len() as int), p@, q@) =~= before
                    + replace_all(rest, p@, q@));
            }
            i = i + 1;
        }
    }
    assert(out@ + replace_all(s@.subrange(i as int, s@.len() as int), p@, q@) =~= out@);
    out
}

/// The WebSocket address of an API path: `http://` becomes `ws://` and
/// `https://` becomes `wss://`, one trailing `/` of the base is dropped, and a
/// secret that is not blank is appended as the `token` query parameter.
pub open spec fn ws_url(base: Seq<char>, path: Seq<char>, secret: Option<Seq<char>>) -> Seq<char> {
    let b = replace_all(replace_all(base, "http://"@, "ws://"@), "https://"@, "wss://"@);
    let b2 = if b.len() > 0 && b.last() == '/' {
        b.drop_last()
    } else {
        b
    };
    let full = match secret {
        Some(sec) => if trim(sec).len() > 0 {
            path + (if has_char(path, '?') {
                "&"@
            } else {
                "?"@
            }) + "token="@ + url_encoded(sec)
        } else {
            path
        },
        None => path,
    };
    b2 + full
}

/// Builds the WebSocket address of an API path (see `ws_url`).
pub fn convert_to_ws_url(base_url: &str, path: &str, secret: Option<&str>) -> (r: String)
    ensures
        r@ == ws_url(
            base_url@,
            path@,
            match secret {
                Some(x) => Some(x@),
                None => None,
            },
        ),
{
    let b0 = chars_of(base_url);
    let h = chars_of("http://");
    let w = chars_of("ws://");
    let hs = chars_of("https://");
    let ws = chars_of("wss://");
    proof {
        reveal_strlit("http://");
        reveal_strlit("https://");
    }
    let b1 = replace_all_exec(b0.as_slice(), h.as_slice(), w.as_slice());
    let b = replace_all_exec(b1.as_slice(), hs.as_slice(), ws.as_slice());
    let mut out: Vec<char> = if b.len() > 0 && b[b.len() - 1] == '/' {
        let n = b.len();
        let x = crate::text::slice_chars(b.as_slice(), 0, n - 1);
        assert(x@ =~= b@.drop_last());
        x
    } else {
        b
    };
    push_str(&mut out, path);
    match secret {
        Some(sec) => {
            let t = trim_str(sec);
            if !t.as_str().is_empty() {
                let pv = chars_of(path);
                if crate::text::find_char(pv.as_slice(), '?').is_some() {
                    push_str(&mut out, "&");
                } else {
                    push_str(&mut out, "?");
                }
                push_str(&mut out, "token=");
                let e = url_encode(sec);
                push_str(&mut out, e.as_str());
            } else {
                proof {
                    assert(t@.len() == 0);
                }
            }
        },
        None => {},
    }
    string_of(out.as_slice())
}

/// The Mihomo REST API as the interface addresses it: its base address and
/// secret, from which request addresses and the authorisation header follow.
pub struct MihomoClient {
    pub base_url: String,
    pub secret: Option<String>,
}

/// The base address without one trailing `/`.
pub open spec fn normalized_base(u: Seq<char>) -> Seq<char> {
    if u.len() > 0 && u.last() == '/' {
        u.drop_last()
    } else {
        u
    }
}

/// The `Authorization` header for a secret: `Bearer` and the trimmed secret,
/// when it is not blank.
pub open spec fn bearer(secret: Option<Seq<char>>) -> Option<Seq<char>> {
    match secret {
        Some(s) => if trim(s).len() > 0 {
            Some("Bearer "@ + trim(s))
        } else {
            None
        },
        None => None,
    }
}

/// Default URL of latency tests.
pub open spec fn default_test_url() -> Seq<char> {
    "http://www.gstatic.com/generate_204"@
}

/// Whether a character may stand in an HTTP header value, as the `http`
/// crate's `HeaderValue::from_str` checks it byte by byte: a tab, or a code of
/// at least 32 other than 127 (every byte of a non-ASCII character is at
/// least 128).
pub open spec fn header_char_ok(c: char) -> bool {
    c == '\t' || (c as u32 >= 32 && c as u32 != 127)
}

/// Whether every character of `h` may stand in an HTTP header value.
pub open spec fn header_value_chars_ok(h: Seq<char>) -> bool {
    forall|i: int| 0 <= i < h.len() ==> header_char_ok(#[trigger] h[i])
}

/// Whether the header a secret calls for (if any) is a valid header value.
pub open spec fn secret_ok(secret: Option<Seq<char>>) -> bool {
    match bearer(secret) {
        Some(h) => header_value_chars_ok(h),
        None => true,
    }
}

fn header_value_ok(h: &str) -> (r: bool)
    ensures
        r == header_value_chars_ok(h@),
{
    let v = chars_of(h);
    let mut i: usize = 0;
    while i < v.len()
        invariant
            i <= v.len(),
            v@ == h@,
            forall|j: int| 0 <= j < i ==> header_char_ok(#[trigger] v@[j]),
        decreases v.len() - i,
    {
        let c = v[i];
        if !(c == '\t' || ((c as u32) >= 32 && (c as u32) != 127)) {
            assert(!header_char_ok(v@[i as int]));
            return false;
        }
        i += 1;
    }
    true
}

impl MihomoClient {
    /// The endpoint for a base address and a secret; one trailing `/` of the
    /// address is dropped. A secret whose `Bearer` header would not be a
    /// valid header value is refused.
    pub fn new(base_url: &str, secret: Option<String>) -> (r: Result<MihomoClient, String>)
        ensures
            r is Err <==> !secret_ok(crate::models::opt_string_view(secret)),
            r matches Err(e) ==> e@ == "Invalid secret for header"@,
            r matches Ok(c) ==> c.base_url@ == normalized_base(base_url@) && c.secret == secret,
    {
        let v = chars_of(base_url);
        let u = if v.len() > 0 && v[v.len() - 1] == '/' {
            let n = v.len();
            let x = crate::text::slice_chars(v.as_slice(), 0, n - 1);
            assert(x@ =~= v@.drop_last());
            string_of(x.as_slice())
        } else {
            string_of(v.as_slice())
        };
        let c = MihomoClient { base_url: u, secret };
        match c.auth_header() {
            Some(h) => {
                if !header_value_ok(h.as_str()) {
                    return Err(string_from("Invalid secret for header"));
                }
            },
            None => {},
        }
        Ok(c)
    }

    /// The value of the `Authorization` header, if the secret calls for one.
    pub fn auth_header(&self) -> (r: Option<String>)
        ensures
            crate::models::opt_string_view(r) == bearer(crate::models::opt_string_view(self.secret)),
    {
        match &self.secret {
            Some(s) => {
                let t = trim_str(s.as_str());
                if t.as_str().is_empty() {
                    proof {
                        assert(t@.len() == 0);
                    }
                    None
                } else {
                    Some(concat_str("Bearer ", t.as_str()))
                }
            },
            None => None,
        }
    }

    /// The base address requests go to.
    pub fn base_url(&self) -> (r: &str)
        ensures
            r@ == self.base_url@,
    {
        self.base_url.as_str()
    }

    /// The secret, if one was given.
    pub fn secret(&self) -> (r: Option<&str>)
        ensures
            match r {
                Some(x) => self.secret matches Some(s) && x@ == s@,
                None => self.secret is None,
            },
    {
        match &self.secret {
            Some(s) => Some(s.as_str()),
            None => None,
        }
    }

    /// `base` followed by `path`.
    pub fn url(&self, path: &str) -> (r: String)
        ensures
            r@ == self.base_url@ + path@,
    {
        concat_str(self.base_url.as_str(), path)
    }

    /// Address for selecting a node in a group.
    pub fn select_proxy_url(&self, group: &str) -> (r: String)
        ensures
            r@ == self.base_url@ + "/proxies/"@ + url_encoded(group@),
    {
        let e = url_encode(group);
        let a = concat_str(self.base_url.as_str(), "/proxies/");
        concat_str(a.as_str(), e.as_str())
    }

    /// Address of a node's latency test (default test URL and a 2000 ms
    /// timeout when not given).
    pub fn delay_url(&self, node: &str, test_url: Option<&str>, timeout_ms: Option<u64>) -> (r: String)
        ensures
            r@ == self.base_url@ + "/proxies/"@ + url_encoded(node@) + "/delay?url="@ + url_encoded(
                match test_url {
                    Some(u) => u@,
                    None => default_test_url(),
                },
            ) + "&timeout="@ + dec(
                match timeout_ms {
                    Some(t) => t as nat,
                    None => 2000,
                },
            ),
    {
        self.test_url_for("/proxies/", node, test_url, timeout_ms, 2000)
    }

    /// Address of a group's latency test (default test URL and a 3000 ms
    /// timeout when not given).
    pub fn group_delay_url(&self, group: &str, test_url: Option<&str>, timeout_ms: Option<u64>) -> (r: String)
        ensures
            r@ == self.base_url@ + "/group/"@ + url_encoded(group@) + "/delay?url="@ + url_encoded(
                match test_url {
                    Some(u) => u@,
                    None => default_test_url(),
                },
            ) + "&timeout="@ + dec(
                match timeout_ms {
                    Some(t) => t as nat,
                    None => 3000,
                },
            ),
    {
        self.test_url_for("/group/", group, test_url, timeout_ms, 3000)
    }

    fn test_url_for(&self, kind: &str, name: &str, test_url: Option<&str>, timeout_ms: Option<u64>, dflt: u64) -> (r: String)
        ensures
            r@ == self.base_url@ + kind@ + url_encoded(name@) + "/delay?url="@ + url_encoded(
                match test_url {
                    Some(u) => u@,
                    None => default_test_url(),
                },
            ) + "&timeout="@ + dec(
                match timeout_ms {
                    Some(t) => t as nat,
                    None => dflt as nat,
                },
            ),
    {
        let u: &str = match test_url {
            Some(u) => u,
            None => "http://www.gstatic.com/generate_204",
        };
        let t: u64 = match timeout_ms {
            Some(t) => t,
            None => dflt,
        };
        let mut out = chars_of(self.base_url.as_str());
        push_str(&mut out, kind);
        let en = url_encode(name);
        push_str(&mut out, en.as_str());
        push_str(&mut out, "/delay?url=");
        let eu = url_encode(u);
        push_str(&mut out, eu.as_str());
        push_str(&mut out, "&timeout=");
        let ts = u64_to_string(t);
        push_str(&mut out, ts.as_str());
        string_of(out.as_slice())
    }

    /// Address of one connection.
    pub fn connection_url(&self, id: &str) -> (r: String)
        ensures
            r@ == self.base_url@ + "/connections/"@ + id@,
    {
        let a = concat_str(self.base_url.as_str(), "/connections/");
        concat_str(a.as_str(), id)
    }
}

/// Services asked for the public address, in order.
pub open spec fn ip_endpoints() -> Seq<Seq<char>> {
    seq![
        "https://api.ipify.org?format=json"@,
        "https://api64.ipify.org?format=json"@,
        "https://ip.sb"@,
        "https://ifconfig.me/ip"@,
        "https://icanhazip.com"@,
    ]
}

/// The services asked for the public address, in order.
pub fn outbound_ip_endpoints() -> (r: Vec<String>)
    ensures
        r@.len() == 5,
        forall|i: int| 0 <= i < 5 ==> #[trigger] r@[i]@ == ip_endpoints()[i],
{
    let mut r: Vec<String> = Vec::new();
    r.push(string_from("https://api.ipify.org?format=json"));
    r.push(string_from("https://api64.ipify.org?format=json"));
    r.push(string_from("https://ip.sb"));
    r.push(string_from("https://ifconfig.me/ip"));
    r.push(string_from("https://icanhazip.com"));
    r
}

/// The public address in a reply body: for a JSON object (trimmed text
/// starting with `{`), its trimmed `ip` text; otherwise the trimmed text
/// itself when it is not empty, at most 45 bytes long and holds a `.` or a `:`.
pub open spec fn reply_ip(body: Seq<char>) -> Option<Seq<char>> {
    let t = trim(body);
    if t.len() > 0 && t[0] == '{' {
        match json_ip_field(t) {
            Some(ip) => Some(trim(ip)),
            None => None,
        }
    } else if t.len() > 0 && crate::mihomo_core::utf8_len(t) <= 45 && (has_char(t, '.') || has_char(
        t,
        ':',
    )) {
        Some(t)
    } else {
        None
    }
}

/// Reads the public address from a reply body (see `reply_ip`).
pub fn read_outbound_ip(body: &str) -> (r: Option<String>)
    ensures
        crate::models::opt_string_view(r) == reply_ip(body@),
{
    let t = trim_str(body);
    let tv = chars_of(t.as_str());
    if tv.len() > 0 && tv[0] == '{' {
        match json_ip(t.as_str()) {
            Some(ip) => Some(trim_str(ip.as_str())),
            None => None,
        }
    } else if tv.len() > 0 && crate::mihomo_core::utf8_len_at_most(tv.as_slice(), 45) && (
    crate::text::find_char(tv.as_slice(), '.').is_some() || crate::text::find_char(
        tv.as_slice(),
        ':',
    ).is_some()) {
        Some(t)
    } else {
        None
    }
}

} // verus!
