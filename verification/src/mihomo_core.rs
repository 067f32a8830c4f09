//! Decisions about the Mihomo core and the host: which release file fits the
//! machine, where the core is installed, how release tags are read, and how
//! the outputs of `systemctl`, `gsettings`, `kreadconfig`, `getcap` and the
//! kernel's interface files are interpreted.
use vstd::prelude::*;
use crate::text::{
    chars_of, concat_str, find_sub, has_prefix, has_sub, parse_unsigned, parse_unsigned_max,
    str_contains, str_eq, string_from, string_of, slice_chars, to_lowercase, trim, trim_str,
    unicode_lowercase, u64_to_string, dec, occurs_at,
};

verus! {

// ---------------------------------------------------------------------------
// Release files
// ---------------------------------------------------------------------------

/// Downloads and installs the core binary; its decisions are the functions below.
pub struct CoreDownloader;

/// Release file suffix for a machine architecture, if the architecture is supported.
pub open spec fn arch_tag(arch: Seq<char>) -> Option<Seq<char>> {
    if arch == "x86_64"@ {
        Some("amd64-compatible"@)
    } else if arch == "aarch64"@ {
        Some("arm64"@)
    } else if arch == "arm"@ || arch == "armv7"@ {
        Some("armv7"@)
    } else if arch == "armv6"@ {
        Some("armv6"@)
    } else if arch == "armv5"@ {
        Some("armv5"@)
    } else if arch == "x86"@ || arch == "i386"@ || arch == "i686"@ {
        Some("386"@)
    } else {
        None
    }
}

/// Number of bytes of the UTF-8 encoding of a text (`str::len`).
pub open spec fn utf8_len(s: Seq<char>) -> nat
    decreases s.len(),
{
    if s.len() == 0 {
        0
    } else {
        utf8_len(s.drop_last()) + if (s.last() as u32) < 0x80 {
            1nat
        } else if (s.last() as u32) < 0x800 {
            2nat
        } else if (s.last() as u32) < 0x10000 {
            3nat
        } else {
            4nat
        }
    }
}

/// Position of the first occurrence of `t` in `s`.
pub open spec fn first_occ(s: Seq<char>, t: Seq<char>) -> int {
    choose|i: int| occurs_at(s, t, i) && forall|j: int| 0 <= j < i ==> !occurs_at(s, t, j)
}

fn find_first(s: &[char], t: &[char]) -> (r: Option<usize>)
    ensures
        match r {
            Some(i) => has_sub(s@, t@) && i as int == first_occ(s@, t@) && i + t@.len() <= s@.len(),
            None => !has_sub(s@, t@),
        },
{
    match find_sub(s, t) {
        Some(i) => {
            proof {
                assert(occurs_at(s@, t@, i as int));
                let k = first_occ(s@, t@);
                if k != i {
                    if k < i {
                    } else {
                        assert(!occurs_at(s@, t@, i as int));
                    }
                }
            }
            Some(i)
        },
        None => None,
    }
}

/// `s` without the `/` characters at both ends.
pub open spec fn trim_slashes(s: Seq<char>) -> Seq<char>
    decreases s.len(),
{
    if s.len() > 0 && s[0] == '/' {
        trim_slashes(s.drop_first())
    } else if s.len() > 0 && s.last() == '/' {
        trim_slashes(s.drop_last())
    } else {
        s
    }
}

fn trim_slashes_exec(s: &[char]) -> (r: Vec<char>)
    ensures
        r@ == trim_slashes(s@),
{
    let mut a: usize = 0;
    let mut b: usize = s.len();
    assert(s@.subrange(0, s@.len() as int) =~= s@);
    while a < b && (s[a] == '/' || s[b - 1] == '/')
        invariant
            a <= b <= s.len(),
            trim_slashes(s@) == trim_slashes(s@.subrange(a as int, b as int)),
        decreases b - a,
    {
        let ghost t = s@.subrange(a as int, b as int);
        if s[a] == '/' {
            assert(t.drop_first() =~= s@.subrange(a + 1, b as int));
            a += 1;
        } else {
            assert(t.drop_last() =~= s@.subrange(a as int, b - 1));
            b -= 1;
        }
    }
    proof {
        let t = s@.subrange(a as int, b as int);
        if a == b {
            assert(t.len() == 0);
        }
    }
    slice_chars(s, a, b)
}

/// The UTF-8 length of a text, or `cap` when it is longer.
pub fn utf8_len_capped(s: &[char], cap: usize) -> (r: usize)
    requires
        cap <= 1024,
    ensures
        r as int == if utf8_len(s@) < cap {
            utf8_len(s@) as int
        } else {
            cap as int
        },
{
    let mut n: usize = 0;
    let mut i: usize = 0;
    while i < s.len()
        invariant
            i <= s.len(),
            cap <= 1024,
            n as int == if utf8_len(s@.take(i as int)) < cap {
                utf8_len(s@.take(i as int)) as int
            } else {
                cap as int
            },
        decreases s.len() - i,
    {
        let c = s[i];
        let cv = c as u32;
        let w: usize = if cv < 0x80 {
            1
        } else if cv < 0x800 {
            2
        } else if cv < 0x10000 {
            3
        } else {
            4
        };
        proof {
            assert(s@.take(i + 1).drop_last() =~= s@.take(i as int));
            assert(s@.take(i + 1).last() == c);
        }
        n = if n + w < cap {
            n + w
        } else {
            cap
        };
        i += 1;
    }
    assert(s@.take(s@.len() as int) =~= s@);
    n
}

/// Whether a text's UTF-8 encoding is at most `n` bytes long.
pub fn utf8_len_at_most(s: &[char], n: usize) -> (r: bool)
    requires
        n < 1024,
    ensures
        r == (utf8_len(s@) <= n),
{
    utf8_len_capped(s, n + 1) <= n
}

/// A release tag read from the address a "latest release" page redirected
/// to: the part after `/tag/`, without surrounding slashes, kept when it
/// starts with `v` and is at least four bytes long.
pub open spec fn release_tag(tag_part: Option<Seq<char>>) -> Option<Seq<char>> {
    match tag_part {
        Some(p) => {
            let t = trim_slashes(p);
            if t.len() > 0 && t[0] == 'v' && utf8_len(t) >= 4 {
                Some(t)
            } else {
                None
            }
        },
        None => None,
    }
}

/// Version used when no release tag can be read.
pub open spec fn fallback_version() -> Seq<char> {
    "v1.19.30"@
}

/// The part of `u` after its first `/tag/`, up to the next `/tag/`.
pub open spec fn tag_segment(u: Seq<char>) -> Option<Seq<char>> {
    if has_sub(u, "/tag/"@) {
        let start = first_occ(u, "/tag/"@) + 5;
        let rest = u.subrange(start, u.len() as int);
        if has_sub(rest, "/tag/"@) {
            Some(rest.take(first_occ(rest, "/tag/"@)))
        } else {
            Some(rest)
        }
    } else {
        None
    }
}

fn tag_segment_exec(u: &[char]) -> (r: Option<Vec<char>>)
    ensures
        match r {
            Some(x) => tag_segment(u@) == Some(x@),
            None => tag_segment(u@) is None,
        },
{
    let pat = chars_of("/tag/");
    proof {
        reveal_strlit("/tag/");
    }
    match find_first(u, pat.as_slice()) {
        Some(i) => {
            let n = u.len();
            let rest = slice_chars(u, i + 5, n);
            match find_first(rest.as_slice(), pat.as_slice()) {
                Some(j) => {
                    let s = slice_chars(rest.as_slice(), 0, j);
                    assert(s@ =~= rest@.take(j as int));
                    Some(s)
                },
                None => Some(rest),
            }
        },
        None => None,
    }
}

/// The name of the bytes `flate2::read::GzDecoder` yields when a gzip
/// stream is read to its end (`None` when reading fails).
pub uninterp spec fn gunzipped(gz: Seq<u8>) -> Option<Seq<u8>>;

/// Reads `flate2::read::GzDecoder::new(gz)` to its end; `None` on a read
/// error. The decompression is only named.
#[verifier::external_body]
fn gunzip(gz: &[u8]) -> (r: Option<Vec<u8>>)
    ensures
        match r {
            Some(d) => gunzipped(gz@) == Some(d@),
            None => gunzipped(gz@) is None,
        },
{
    let mut out = Vec::new();
    match std::io::Read::read_to_end(&mut flate2::read::GzDecoder::new(gz), &mut out) {
        Ok(_) => Some(out),
        Err(_) => None,
    }
}

impl CoreDownloader {
    /// The core binary inside a downloaded release archive, or the error the
    /// installer reports when the archive does not decompress.
    pub fn unpack_core(gz: &[u8]) -> (r: Result<Vec<u8>, String>)
        ensures
            match gunzipped(gz@) {
                Some(d) => r matches Ok(b) && b@ == d,
                None => r matches Err(e) && e@ == "解压 Mihomo 二进制文件失败"@,
            },
    {
        match gunzip(gz) {
            Some(d) => Ok(d),
            None => Err(string_from("解压 Mihomo 二进制文件失败")),
        }
    }

    /// Where the downloaded core is installed under a home directory.
    pub fn target_binary_path(home: &str) -> (r: String)
        ensures
            r@ == home@ + "/.config/mimo/bin/mihomo"@,
    {
        concat_str(home, "/.config/mimo/bin/mihomo")
    }

    /// Release file name for an architecture and a version, or the error the
    /// download reports for an unsupported architecture.
    pub fn get_arch_filename(arch: &str, version: &str) -> (r: Result<String, String>)
        ensures
            match arch_tag(arch@) {
                Some(t) => r matches Ok(f) && f@ == "mihomo-linux-"@ + t + "-"@ + version@ + ".gz"@,
                None => r matches Err(e) && e@ == "Unsupported system architecture: "@ + arch@,
            },
    {
        let tag: &str = if str_eq(arch, "x86_64") {
            "amd64-compatible"
        } else if str_eq(arch, "aarch64") {
            "arm64"
        } else if str_eq(arch, "arm") || str_eq(arch, "armv7") {
            "armv7"
        } else if str_eq(arch, "armv6") {
            "armv6"
        } else if str_eq(arch, "armv5") {
            "armv5"
        } else if str_eq(arch, "x86") || str_eq(arch, "i386") || str_eq(arch, "i686") {
            "386"
        } else {
            return Err(concat_str("Unsupported system architecture: ", arch));
        };
        let a = concat_str("mihomo-linux-", tag);
        let b = concat_str(a.as_str(), "-");
        let c = concat_str(b.as_str(), version);
        Ok(concat_str(c.as_str(), ".gz"))
    }

    /// The release tag in the address a "latest release" page redirected to,
    /// if it holds one (see `release_tag`).
    pub fn tag_from_url(final_url: &str) -> (r: Option<String>)
        ensures
            match r {
                Some(t) => release_tag(tag_segment(final_url@)) == Some(t@),
                None => release_tag(tag_segment(final_url@)) is None,
            },
    {
        let u = chars_of(final_url);
        let seg = match tag_segment_exec(u.as_slice()) {
            Some(x) => x,
            None => {
                return None;
            },
        };
        let t = trim_slashes_exec(seg.as_slice());
        if t.len() > 0 && t[0] == 'v' && utf8_len_capped(t.as_slice(), 4) >= 4 {
            Some(string_of(t.as_slice()))
        } else {
            None
        }
    }

    /// The version to install: the release tag found, else the fallback
    /// version.
    pub fn version_or_fallback(found: Option<String>) -> (r: String)
        ensures
            r@ == match found {
                Some(t) => t@,
                None => fallback_version(),
            },
    {
        match found {
            Some(t) => t,
            None => string_from("v1.19.30"),
        }
    }

    /// Download addresses of a release file, the official one first, then
    /// three mirrors.
    pub fn mirror_urls(version: &str, filename: &str) -> (r: Vec<String>)
        ensures
            r@.len() == 4,
            r@[0]@ == "https://github.com/MetaCubeX/mihomo/releases/download/"@ + version@ + "/"@
                + filename@,
            r@[1]@ == "https://ghproxy.net/https://github.com/MetaCubeX/mihomo/releases/download/"@
                + version@ + "/"@ + filename@,
            r@[2]@ == "https://gh-proxy.com/https://github.com/MetaCubeX/mihomo/releases/download/"@
                + version@ + "/"@ + filename@,
            r@[3]@ == "https://gh.ddlc.top/https://github.com/MetaCubeX/mihomo/releases/download/"@
                + version@ + "/"@ + filename@,
    {
        let tail1 = concat_str(version, "/");
        let tail = concat_str(tail1.as_str(), filename);
        let mut r: Vec<String> = Vec::new();
        r.push(concat_str("https://github.com/MetaCubeX/mihomo/releases/download/", tail.as_str()));
        r.push(
            concat_str(
                "https://ghproxy.net/https://github.com/MetaCubeX/mihomo/releases/download/",
                tail.as_str(),
            ),
        );
        r.push(
            concat_str(
                "https://gh-proxy.com/https://github.com/MetaCubeX/mihomo/releases/download/",
                tail.as_str(),
            ),
        );
        r.push(
            concat_str(
                "https://gh.ddlc.top/https://github.com/MetaCubeX/mihomo/releases/download/",
                tail.as_str(),
            ),
        );
        proof {
            assert(r@[0]@ =~= "https://github.com/MetaCubeX/mihomo/releases/download/"@ + version@ + "/"@
                + filename@);
            assert(r@[1]@ =~= "https://ghproxy.net/https://github.com/MetaCubeX/mihomo/releases/download/"@
                + version@ + "/"@ + filename@);
            assert(r@[2]@ =~= "https://gh-proxy.com/https://github.com/MetaCubeX/mihomo/releases/download/"@
                + version@ + "/"@ + filename@);
            assert(r@[3]@ =~= "https://gh.ddlc.top/https://github.com/MetaCubeX/mihomo/releases/download/"@
                + version@ + "/"@ + filename@);
        }
        r
    }

    /// Local ports probed for a running proxy when no proxy is configured.
    pub fn candidate_proxy_ports() -> (r: Vec<u16>)
        ensures
            r@ == seq![7890u16, 7897u16, 7891u16],
    {
        let mut r: Vec<u16> = Vec::new();
        r.push(7890);
        r.push(7897);
        r.push(7891);
        r
    }
}

// ---------------------------------------------------------------------------
// The core service
// ---------------------------------------------------------------------------

/// Starts, stops and inspects the core service; its decisions are below.
pub struct CoreProcess;

impl CoreProcess {
    /// Whether `systemctl is-active` printed `active`.
    pub fn is_active_output(stdout: &str) -> (r: bool)
        ensures
            r == (trim(stdout@) == "active"@),
    {
        let t = trim_str(stdout);
        str_eq(t.as_str(), "active")
    }
}

// ---------------------------------------------------------------------------
// Desktop proxy settings
// ---------------------------------------------------------------------------

/// Switches the desktop proxy settings; its decisions are below.
pub struct SystemProxy;

/// Values written to the desktop proxy settings for two local ports.
pub struct ProxyValues {
    pub http_port: String,
    pub socks_port: String,
    pub kde_http: String,
    pub kde_socks: String,
    pub env_http: String,
    pub env_socks: String,
}

impl SystemProxy {
    /// Whether GNOME's proxy mode, as `gsettings get` prints it, is manual.
    pub fn gnome_mode_is_manual(output: &str) -> (r: bool)
        ensures
            r == has_sub(output@, "'manual'"@),
    {
        str_contains(output, "'manual'")
    }

    /// Whether KDE's proxy type, as `kreadconfig` prints it, is manual (`1`).
    pub fn kde_type_is_manual(output: &str) -> (r: bool)
        ensures
            r == (trim(output@) == "1"@),
    {
        let t = trim_str(output);
        str_eq(t.as_str(), "1")
    }

    /// Whether the desktop proxy is on: GNOME reports manual mode, or a KDE
    /// configuration reports a manual proxy, or a proxy variable is set and
    /// not empty.
    pub fn is_enabled_from(gnome: Option<String>, kde: &Vec<String>, env: Option<String>) -> (r: bool)
        ensures
            r == ((gnome matches Some(g) && has_sub(g@, "'manual'"@)) || (exists|i: int|
                0 <= i < kde@.len() && trim(#[trigger] kde@[i]@) == "1"@) || (env matches Some(e)
                && e@.len() > 0)),
    {
        if let Some(g) = &gnome {
            if Self::gnome_mode_is_manual(g.as_str()) {
                return true;
            }
        }
        let mut i: usize = 0;
        while i < kde.len()
            invariant
                i <= kde.len(),
                forall|j: int| 0 <= j < i ==> trim(#[trigger] kde@[j]@) != "1"@,
            decreases kde.len() - i,
        {
            if Self::kde_type_is_manual(kde[i].as_str()) {
                return true;
            }
            i += 1;
        }
        match &env {
            Some(e) => !e.as_str().is_empty(),
            None => false,
        }
    }

    /// The values written for an HTTP and a SOCKS port: the port numbers, the
    /// KDE proxy entries (`http://127.0.0.1 PORT`, `socks://127.0.0.1 PORT`) and
    /// the variables set when no desktop accepted them
    /// (`http://127.0.0.1:PORT`, `socks5://127.0.0.1:PORT`).
    /// Whether enabling falls back to this process's proxy variables: when
    /// neither GNOME's mode nor any KDE proxy type could be written.
    pub fn env_fallback_needed(gnome_ok: bool, kde_ok: &Vec<bool>) -> (r: bool)
        ensures
            r == !(gnome_ok || exists|i: int| 0 <= i < kde_ok@.len() && #[trigger] kde_ok@[i]),
    {
        if gnome_ok {
            return false;
        }
        let mut i: usize = 0;
        while i < kde_ok.len()
            invariant
                i <= kde_ok.len(),
                forall|j: int| 0 <= j < i ==> !#[trigger] kde_ok@[j],
            decreases kde_ok.len() - i,
        {
            if kde_ok[i] {
                return false;
            }
            i += 1;
        }
        true
    }

    pub fn proxy_values(http_port: u16, socks_port: u16) -> (r: ProxyValues)
        ensures
            r.http_port@ == dec(http_port as nat),
            r.socks_port@ == dec(socks_port as nat),
            r.kde_http@ == "http://127.0.0.1 "@ + dec(http_port as nat),
            r.kde_socks@ == "socks://127.0.0.1 "@ + dec(socks_port as nat),
            r.env_http@ == "http://127.0.0.1:"@ + dec(http_port as nat),
            r.env_socks@ == "socks5://127.0.0.1:"@ + dec(socks_port as nat),
    {
        let h = u64_to_string(http_port as u64);
        let s = u64_to_string(socks_port as u64);
        ProxyValues {
            kde_http: concat_str("http://127.0.0.1 ", h.as_str()),
            kde_socks: concat_str("socks://127.0.0.1 ", s.as_str()),
            env_http: concat_str("http://127.0.0.1:", h.as_str()),
            env_socks: concat_str("socks5://127.0.0.1:", s.as_str()),
            http_port: h,
            socks_port: s,
        }
    }
}

// ---------------------------------------------------------------------------
// TUN mode
// ---------------------------------------------------------------------------

/// Metrics of the TUN interface.
pub struct TunInterfaceDetails {
    pub name: String,
    pub is_up: bool,
    pub mtu: u32,
    pub rx_bytes: u64,
    pub tx_bytes: u64,
}

/// Grants and checks the TUN privilege and reads the TUN interface; its
/// decisions are below.
pub struct TunMode;

/// Names the TUN interface is looked for under, in order.
pub open spec fn tun_candidates() -> Seq<Seq<char>> {
    seq!["tun0"@, "mihomo"@, "utun"@, "clash"@]
}

/// Whether an interface's `operstate` (trimmed, lowercased) means it carries
/// traffic: `up` or `unknown`.
pub open spec fn operstate_up(state: Seq<char>) -> bool {
    unicode_lowercase(trim(state)) == "up"@ || unicode_lowercase(trim(state)) == "unknown"@
}

/// The value of a metric file: the trimmed text as a number, else `default`.
pub open spec fn metric_or(text: Option<Seq<char>>, max: nat, default: nat) -> nat {
    match text {
        Some(t) => match parse_unsigned(trim(t), max) {
            Some(v) => v,
            None => default,
        },
        None => default,
    }
}

/// What is known about a candidate interface: whether it exists and, if its
/// `operstate` file could be read, its text.
pub struct IfaceProbe {
    pub exists: bool,
    pub operstate: Option<String>,
}

/// Index of the first candidate that exists.
pub open spec fn first_present(ps: Seq<IfaceProbe>) -> Option<int>
    decreases ps.len(),
{
    if ps.len() == 0 {
        None
    } else if ps[0].exists {
        Some(0)
    } else {
        match first_present(ps.drop_first()) {
            Some(i) => Some(i + 1),
            None => None,
        }
    }
}

/// Index of the first interface name starting with `tun`.
pub open spec fn first_tun(names: Seq<String>) -> Option<int>
    decreases names.len(),
{
    if names.len() == 0 {
        None
    } else if has_prefix(names[0]@, "tun"@) {
        Some(0)
    } else {
        match first_tun(names.drop_first()) {
            Some(i) => Some(i + 1),
            None => None,
        }
    }
}

/// The interface reported for the probes of the candidates and the names of
/// all interfaces: the first existing candidate (up unless its state says
/// otherwise), else the first interface named `tun…` (up), else `None` (down).
pub open spec fn interface_info(probes: Seq<IfaceProbe>, names: Seq<String>) -> (Seq<char>, bool) {
    match first_present(probes) {
        Some(i) => if i < 4 {
            (
                tun_candidates()[i],
                match probes[i].operstate {
                    Some(st) => operstate_up(st@),
                    None => true,
                },
            )
        } else {
            ("None"@, false)
        },
        None => match first_tun(names) {
            Some(j) => (names[j]@, true),
            None => ("None"@, false),
        },
    }
}

proof fn lemma_first_present_at(ps: Seq<IfaceProbe>, i: int)
    requires
        0 <= i <= ps.len(),
        forall|j: int| 0 <= j < i ==> !ps[j].exists,
    ensures
        i < ps.len() && ps[i].exists ==> first_present(ps) == Some(i),
        i == ps.len() ==> first_present(ps) is None,
    decreases i,
{
    if i > 0 {
        assert forall|j: int| 0 <= j < i - 1 implies !ps.drop_first()[j].exists by {
            assert(ps.drop_first()[j] == ps[j + 1]);
        }
        lemma_first_present_at(ps.drop_first(), i - 1);
    }
}

proof fn lemma_first_tun_at(ns: Seq<String>, i: int)
    requires
        0 <= i <= ns.len(),
        forall|j: int| 0 <= j < i ==> !has_prefix(ns[j]@, "tun"@),
    ensures
        i < ns.len() && has_prefix(ns[i]@, "tun"@) ==> first_tun(ns) == Some(i),
        i == ns.len() ==> first_tun(ns) is None,
    decreases i,
{
    if i > 0 {
        assert forall|j: int| 0 <= j < i - 1 implies !has_prefix(ns.drop_first()[j]@, "tun"@) by {
            assert(ns.drop_first()[j] == ns[j + 1]);
        }
        lemma_first_tun_at(ns.drop_first(), i - 1);
    }
}

fn candidate_name(i: usize) -> (r: String)
    requires
        i < 4,
    ensures
        r@ == tun_candidates()[i as int],
{
    if i == 0 {
        string_from("tun0")
    } else if i == 1 {
        string_from("mihomo")
    } else if i == 2 {
        string_from("utun")
    } else {
        string_from("clash")
    }
}

impl TunMode {
    /// Whether `getcap` printed the network administration capability.
    pub fn has_net_admin(getcap_output: &str) -> (r: bool)
        ensures
            r == has_sub(getcap_output@, "cap_net_admin"@),
    {
        str_contains(getcap_output, "cap_net_admin")
    }

    /// Whether an `operstate` text means the interface is up (see `operstate_up`).
    pub fn operstate_is_up(state: &str) -> (r: bool)
        ensures
            r == operstate_up(state@),
    {
        let t = trim_str(state);
        let l = to_lowercase(t.as_str());
        str_eq(l.as_str(), "up") || str_eq(l.as_str(), "unknown")
    }

    /// Candidate names of the TUN interface, in the order they are probed.
    pub fn candidate_interfaces() -> (r: Vec<String>)
        ensures
            r@.len() == 4,
            forall|i: int| 0 <= i < 4 ==> #[trigger] r@[i]@ == tun_candidates()[i],
    {
        let mut r: Vec<String> = Vec::new();
        let mut i: usize = 0;
        while i < 4
            invariant
                i <= 4,
                r@.len() == i,
                forall|k: int| 0 <= k < i ==> #[trigger] r@[k]@ == tun_candidates()[k],
            decreases 4 - i,
        {
            r.push(candidate_name(i));
            i += 1;
        }
        r
    }

    /// The TUN interface and whether it is up (see `interface_info`).
    pub fn get_interface_info(probes: &Vec<IfaceProbe>, names: &Vec<String>) -> (r: (String, bool))
        ensures
            (r.0@, r.1) == interface_info(probes@, names@),
    {
        let mut i: usize = 0;
        while i < probes.len()
            invariant
                i <= probes.len(),
                forall|j: int| 0 <= j < i ==> !probes@[j].exists,
            decreases probes.len() - i,
        {
            if probes[i].exists {
                proof {
                    lemma_first_present_at(probes@, i as int);
                }
                if i < 4 {
                    let up = match &probes[i].operstate {
                        Some(st) => Self::operstate_is_up(st.as_str()),
                        None => true,
                    };
                    return (candidate_name(i), up);
                }
                return (string_from("None"), false);
            }
            i += 1;
        }
        proof {
            lemma_first_present_at(probes@, i as int);
        }
        let pre = chars_of("tun");
        proof {
            reveal_strlit("tun");
        }
        let mut j: usize = 0;
        while j < names.len()
            invariant
                j <= names.len(),
                pre@ == "tun"@,
                first_present(probes@) is None,
                forall|k: int| 0 <= k < j ==> !has_prefix(names@[k]@, "tun"@),
            decreases names.len() - j,
        {
            let v = chars_of(names[j].as_str());
            if crate::text::starts_with(v.as_slice(), pre.as_slice()) {
                proof {
                    lemma_first_tun_at(names@, j as int);
                }
                return (names[j].clone(), true);
            }
            j += 1;
        }
        proof {
            lemma_first_tun_at(names@, j as int);
        }
        (string_from("None"), false)
    }

    /// Interface metrics from the interface and the texts of its `mtu`,
    /// `rx_bytes` and `tx_bytes` files: none for `None`; otherwise each
    /// value read as a number, with 1500, 0 and 0 when unreadable.
    pub fn get_interface_details(
        name: String,
        is_up: bool,
        mtu: Option<String>,
        rx: Option<String>,
        tx: Option<String>,
    ) -> (r: TunInterfaceDetails)
        ensures
            r.name@ == name@,
            name@ == "None"@ ==> !r.is_up && r.mtu == 0 && r.rx_bytes == 0 && r.tx_bytes == 0,
            name@ != "None"@ ==> r.is_up == is_up && r.mtu == metric_or(
                crate::models::opt_string_view(mtu),
                0xffff_ffff,
                1500,
            ) && r.rx_bytes == metric_or(
                crate::models::opt_string_view(rx),
                0xffff_ffff_ffff_ffff,
                0,
            ) && r.tx_bytes == metric_or(
                crate::models::opt_string_view(tx),
                0xffff_ffff_ffff_ffff,
                0,
            ),
    {
        if str_eq(name.as_str(), "None") {
            return TunInterfaceDetails { name, is_up: false, mtu: 0, rx_bytes: 0, tx_bytes: 0 };
        }
        let mtu_v: u32 = match &mtu {
            Some(t) => {
                let c = chars_of(trim_str(t.as_str()).as_str());
                match parse_unsigned_max(c.as_slice(), 0xffff_ffff) {
                    Some(v) => v as u32,
                    None => 1500,
                }
            },
            None => 1500,
        };
        let rx_v: u64 = match &rx {
            Some(t) => {
                let c = chars_of(trim_str(t.as_str()).as_str());
                match parse_unsigned_max(c.as_slice(), 0xffff_ffff_ffff_ffff) {
                    Some(v) => v,
                    None => 0,
                }
            },
            None => 0,
        };
        let tx_v: u64 = match &tx {
            Some(t) => {
                let c = chars_of(trim_str(t.as_str()).as_str());
                match parse_unsigned_max(c.as_slice(), 0xffff_ffff_ffff_ffff) {
                    Some(v) => v,
                    None => 0,
                }
            },
            None => 0,
        };
        TunInterfaceDetails { name, is_up, mtu: mtu_v, rx_bytes: rx_v, tx_bytes: tx_v }
    }

    /// The message a failed grant or revoke with a password reports, from the
    /// trimmed error output of `sudo`.
    pub fn authorization_error(stderr: &str) -> (r: String)
        ensures
            trim(stderr@).len() == 0 ==> r@ == "System authorization failed. Please check your password."@,
            trim(stderr@).len() > 0 ==> r@ == "Authorization error: "@ + trim(stderr@),
    {
        let t = trim_str(stderr);
        if t.as_str().is_empty() {
            string_from("System authorization failed. Please check your password.")
        } else {
            concat_str("Authorization error: ", t.as_str())
        }
    }
}


// ---------------------------------------------------------------------------
// The download loop
// ---------------------------------------------------------------------------

/// Which (outer, inner) pair attempt `k` of a nested loop over `n_outer`
/// outer items and `n_inner` inner items tries, until all were tried.
pub fn attempt_at(k: usize, n_outer: usize, n_inner: usize) -> (r: Option<(usize, usize)>)
    ensures
        r == if k < n_outer * n_inner {
            Some(((k / n_inner) as usize, (k % n_inner) as usize))
        } else {
            None::<(usize, usize)>
        },
{
    if n_inner == 0 {
        assert(n_outer * n_inner == 0) by (nonlinear_arith)
            requires
                n_inner == 0,
        ;
        return None;
    }
    let q = k / n_inner;
    assert(k < n_outer * n_inner <==> k / n_inner < n_outer) by (nonlinear_arith)
        requires
            n_inner > 0,
    ;
    if q < n_outer {
        Some((q, k % n_inner))
    } else {
        None
    }
}

/// What one download attempt gave.
pub enum AttemptResult {
    /// The request succeeded and its body was read.
    Body(Vec<u8>),
    /// The server answered with an unsuccessful status (its text).
    Status(String),
    /// The request failed (the error's text).
    ConnectFailed(String),
    /// The request succeeded but reading the body failed (the error's text).
    ReadFailed(String),
}

/// How far the download loop is: the next attempt, and the error of the
/// last failed one.
pub struct DownloadProgress {
    pub attempt: usize,
    pub last_error: Option<String>,
}

/// What the loop does after an attempt: stop with the body, or go on.
pub enum DownloadStep {
    Done(Vec<u8>),
    Next(DownloadProgress),
}

/// The progress before the first attempt.
pub fn download_start() -> (r: DownloadProgress)
    ensures
        r.attempt == 0,
        r.last_error is None,
{
    DownloadProgress { attempt: 0, last_error: None }
}

/// The error text an attempt at `url` records, if it failed.
pub open spec fn attempt_error(url: Seq<char>, res: AttemptResult) -> Option<Seq<char>> {
    match res {
        AttemptResult::Body(_) => None,
        AttemptResult::Status(st) => Some("HTTP "@ + st@ + " 来自: "@ + url),
        AttemptResult::ConnectFailed(e) => Some("连接失败 ("@ + url + "): "@ + e@),
        AttemptResult::ReadFailed(e) => Some("下载数据流失败: "@ + e@),
    }
}

/// One step of the download loop: a body ends it; an unsuccessful status, a
/// failed request or a failed body read records its error and moves to the
/// next attempt.
pub fn download_step(p: &DownloadProgress, url: &str, res: AttemptResult) -> (r: DownloadStep)
    requires
        p.attempt < usize::MAX,
    ensures
        match res {
            AttemptResult::Body(b) => r == DownloadStep::Done(b),
            _ => match r {
                DownloadStep::Next(q) => q.attempt == p.attempt + 1 && match q.last_error {
                    Some(e) => Some(e@) == attempt_error(url@, res),
                    None => false,
                },
                DownloadStep::Done(_) => false,
            },
        },
{
    let ghost res0 = res;
    let err = match res {
        AttemptResult::Body(b) => {
            return DownloadStep::Done(b);
        },
        AttemptResult::Status(st) => {
            let a = concat_str("HTTP ", st.as_str());
            let b = concat_str(a.as_str(), " 来自: ");
            concat_str(b.as_str(), url)
        },
        AttemptResult::ConnectFailed(e) => {
            let a = concat_str("连接失败 (", url);
            let b = concat_str(a.as_str(), "): ");
            concat_str(b.as_str(), e.as_str())
        },
        AttemptResult::ReadFailed(e) => concat_str("下载数据流失败: ", e.as_str()),
    };
    DownloadStep::Next(DownloadProgress { attempt: p.attempt + 1, last_error: Some(err) })
}

/// The outcome of the download loop for the body it ended with (empty when
/// every attempt failed): a non-empty body, else the last error, else a
/// generic failure.
pub fn download_result(p: DownloadProgress, body: Vec<u8>) -> (r: Result<Vec<u8>, String>)
    ensures
        body@.len() > 0 ==> r == Ok::<Vec<u8>, String>(body),
        body@.len() == 0 ==> match r {
            Err(e) => e@ == match p.last_error {
                Some(l) => l@,
                None => "下载 Mihomo 核心包失败"@,
            },
            Ok(_) => false,
        },
{
    if body.len() > 0 {
        Ok(body)
    } else {
        match p.last_error {
            Some(l) => Err(l),
            None => Err(string_from("下载 Mihomo 核心包失败")),
        }
    }
}

/// The pages whose redirect names the latest release, in the order tried.
pub fn release_check_urls() -> (r: Vec<String>)
    ensures
        r@.len() == 2,
        r@[0]@ == "https://github.com/MetaCubeX/mihomo/releases/latest"@,
        r@[1]@ == "https://ghproxy.net/https://github.com/MetaCubeX/mihomo/releases/latest"@,
{
    let mut r: Vec<String> = Vec::new();
    r.push(string_from("https://github.com/MetaCubeX/mihomo/releases/latest"));
    r.push(string_from("https://ghproxy.net/https://github.com/MetaCubeX/mihomo/releases/latest"));
    r
}

/// One step of the search for the latest version: the release tag in the
/// address a check request ended at, if the request succeeded and the address
/// holds one (the search stops there); nothing otherwise (it goes on).
pub fn version_step(reply_url: Option<&str>) -> (r: Option<String>)
    ensures
        match reply_url {
            Some(u) => match r {
                Some(t) => release_tag(tag_segment(u@)) == Some(t@),
                None => release_tag(tag_segment(u@)) is None,
            },
            None => r is None,
        },
{
    match reply_url {
        Some(u) => CoreDownloader::tag_from_url(u),
        None => None,
    }
}

} // verus!
