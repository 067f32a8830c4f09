//! Persistent settings (`~/.config/mimo/config.toml`) and their defaults.
use vstd::prelude::*;
use crate::text::{chars_of, ends_with, slice_chars, string_from, string_of, trim};

verus! {

/// Settings as stored in the configuration file.
pub struct Settings {
    pub language: String,
    pub api_url: String,
    pub secret: Option<String>,
    pub refresh_interval_ms: u64,
    pub http_port: u16,
    pub socks_port: u16,
    pub test_url: String,
    pub tun_stack: String,
    pub log_level: String,
    pub allow_lan: bool,
    pub ipv6: bool,
    pub dns_mode: String,
    pub auto_sysproxy: bool,
    pub sub_update_hours: u32,
    pub ui_theme: String,
}

/// Default TUN network stack.
pub fn default_tun_stack() -> (r: String)
    ensures
        r@ == "system"@,
{
    string_from("system")
}

/// Default core log level.
pub fn default_log_level() -> (r: String)
    ensures
        r@ == "info"@,
{
    string_from("info")
}

/// Default DNS mode.
pub fn default_dns_mode() -> (r: String)
    ensures
        r@ == "fake-ip"@,
{
    string_from("fake-ip")
}

/// Default colour theme.
pub fn default_ui_theme() -> (r: String)
    ensures
        r@ == "Catppuccin"@,
{
    string_from("Catppuccin")
}

/// Default subscription refresh period in hours.
pub fn default_sub_update_hours() -> (r: u32)
    ensures
        r == 12,
{
    12
}

/// Default for switches that start on.
pub fn default_true() -> (r: bool)
    ensures
        r,
{
    true
}

/// Default for switches that start off.
pub fn default_false() -> (r: bool)
    ensures
        !r,
{
    false
}

/// The settings a fresh installation starts with.
pub open spec fn default_settings(s: Settings) -> bool {
    &&& s.language@ == "zh"@
    &&& s.api_url@ == "http://127.0.0.1:9090"@
    &&& s.secret is None
    &&& s.refresh_interval_ms == 1000
    &&& s.http_port == 7890
    &&& s.socks_port == 7891
    &&& s.test_url@ == "http://www.gstatic.com/generate_204"@
    &&& s.tun_stack@ == "system"@
    &&& s.log_level@ == "info"@
    &&& s.allow_lan
    &&& s.ipv6
    &&& s.dns_mode@ == "fake-ip"@
    &&& !s.auto_sysproxy
    &&& s.sub_update_hours == 12
    &&& s.ui_theme@ == "Catppuccin"@
}

impl Default for Settings {
    fn default() -> (r: Settings)
        ensures
            default_settings(r),
    {
        Settings {
            language: string_from("zh"),
            api_url: string_from("http://127.0.0.1:9090"),
            secret: None,
            refresh_interval_ms: 1000,
            http_port: 7890,
            socks_port: 7891,
            test_url: string_from("http://www.gstatic.com/generate_204"),
            tun_stack: default_tun_stack(),
            log_level: default_log_level(),
            allow_lan: default_true(),
            ipv6: default_true(),
            dns_mode: default_dns_mode(),
            auto_sysproxy: default_false(),
            sub_update_hours: default_sub_update_hours(),
            ui_theme: default_ui_theme(),
        }
    }
}

impl Settings {
    /// The configuration directory under a home directory (`~/.config/mimo`).
    pub fn config_dir(home: &str) -> (r: String)
        ensures
            r@ == home@ + "/.config/mimo"@,
    {
        crate::text::concat_str(home, "/.config/mimo")
    }

    /// Path of the settings file inside a configuration directory.
    pub fn config_file_path(config_dir: &str) -> (r: String)
        ensures
            r@ == config_dir@ + "/config.toml"@,
    {
        let mut v = chars_of(config_dir);
        crate::text::push_str(&mut v, "/config.toml");
        string_of(v.as_slice())
    }
}

/// Application configuration: API endpoint and secret, refresh period,
/// language, proxy ports, latency test URL and the core/interface preferences.
pub struct Config {
    pub api_url: String,
    pub secret: Option<String>,
    pub refresh_interval_ms: u64,
    pub language: String,
    pub http_port: u16,
    pub socks_port: u16,
    pub mixed_port: u16,
    pub test_url: String,
    pub tun_stack: String,
    pub log_level: String,
    pub allow_lan: bool,
    pub ipv6: bool,
    pub dns_mode: String,
    pub sniffing: bool,
    pub tcp_concurrent: bool,
    pub auto_sysproxy: bool,
    pub sub_update_hours: u32,
    pub ui_theme: String,
}

pub open spec fn default_config(c: Config) -> bool {
    &&& c.api_url@ == "http://127.0.0.1:9090"@
    &&& c.secret is None
    &&& c.refresh_interval_ms == 1000
    &&& c.language@ == "zh"@
    &&& c.http_port == 7890
    &&& c.socks_port == 7891
    &&& c.mixed_port == 7897
    &&& c.test_url@ == "http://www.gstatic.com/generate_204"@
    &&& c.tun_stack@ == "system"@
    &&& c.log_level@ == "info"@
    &&& c.allow_lan
    &&& c.ipv6
    &&& c.dns_mode@ == "fake-ip"@
    &&& !c.sniffing
    &&& !c.tcp_concurrent
    &&& !c.auto_sysproxy
    &&& c.sub_update_hours == 12
    &&& c.ui_theme@ == "Catppuccin"@
}

impl Default for Config {
    fn default() -> (r: Config)
        ensures
            default_config(r),
    {
        Config {
            api_url: string_from("http://127.0.0.1:9090"),
            secret: None,
            refresh_interval_ms: 1000,
            language: string_from("zh"),
            http_port: 7890,
            socks_port: 7891,
            mixed_port: 7897,
            test_url: string_from("http://www.gstatic.com/generate_204"),
            tun_stack: default_tun_stack(),
            log_level: default_log_level(),
            allow_lan: true,
            ipv6: true,
            dns_mode: default_dns_mode(),
            sniffing: false,
            tcp_concurrent: false,
            auto_sysproxy: false,
            sub_update_hours: 12,
            ui_theme: default_ui_theme(),
        }
    }
}

/// The API URL after the environment override (a non-blank value wins) and
/// with one trailing `/` removed.
pub open spec fn effective_api_url(file_url: Seq<char>, env_url: Option<Seq<char>>) -> Seq<char> {
    let u = match env_url {
        Some(e) => if trim(e).len() > 0 {
            e
        } else {
            file_url
        },
        None => file_url,
    };
    if u.len() > 0 && u.last() == '/' {
        u.drop_last()
    } else {
        u
    }
}

/// The secret after the environment override (a non-blank value wins).
pub open spec fn effective_secret(file_secret: Option<Seq<char>>, env_secret: Option<Seq<char>>) -> Option<Seq<char>> {
    match env_secret {
        Some(e) => if trim(e).len() > 0 {
            Some(e)
        } else {
            file_secret
        },
        None => file_secret,
    }
}

impl Config {
    /// Applies the `MIHOMO_API` and `MIHOMO_SECRET` values (when set and not
    /// blank) and removes a trailing `/` from the API URL.
    pub fn apply_environment(self, env_api: Option<String>, env_secret: Option<String>) -> (r: Config)
        ensures
            r.api_url@ == effective_api_url(
                self.api_url@,
                crate::models::opt_string_view(env_api),
            ),
            crate::models::opt_string_view(r.secret) == effective_secret(
                crate::models::opt_string_view(self.secret),
                crate::models::opt_string_view(env_secret),
            ),
            r.refresh_interval_ms == self.refresh_interval_ms,
            r.language == self.language,
            r.http_port == self.http_port,
            r.socks_port == self.socks_port,
            r.mixed_port == self.mixed_port,
            r.test_url == self.test_url,
            r.tun_stack == self.tun_stack,
            r.log_level == self.log_level,
            r.allow_lan == self.allow_lan,
            r.ipv6 == self.ipv6,
            r.dns_mode == self.dns_mode,
            r.sniffing == self.sniffing,
            r.tcp_concurrent == self.tcp_concurrent,
            r.auto_sysproxy == self.auto_sysproxy,
            r.sub_update_hours == self.sub_update_hours,
            r.ui_theme == self.ui_theme,
    {
        let mut c = self;
        match env_api {
            Some(e) => {
                if crate::text::trim_chars(chars_of(e.as_str()).as_slice()).len() > 0 {
                    c.api_url = e;
                }
            },
            None => {},
        }
        match env_secret {
            Some(e) => {
                if crate::text::trim_chars(chars_of(e.as_str()).as_slice()).len() > 0 {
                    c.secret = Some(e);
                }
            },
            None => {},
        }
        let u = chars_of(c.api_url.as_str());
        let slash = chars_of("/");
        if ends_with(u.as_slice(), slash.as_slice()) {
            proof {
                reveal_strlit("/");
                assert(u@.subrange(u@.len() - 1, u@.len() as int) =~= seq!['/']);
                assert(u@.subrange(u@.len() - 1, u@.len() as int)[0] == u@.last());
            }
            let n = u.len();
            let cut = slice_chars(u.as_slice(), 0, n - 1);
            assert(cut@ =~= u@.drop_last());
            c.api_url = string_of(cut.as_slice());
        } else {
            proof {
                reveal_strlit("/");
                if u@.len() > 0 && u@.last() == '/' {
                    assert(u@.subrange(u@.len() - 1, u@.len() as int) =~= "/"@);
                }
            }
        }
        c
    }
}

} // verus!
