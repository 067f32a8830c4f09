//! Decisions of the one-shot command-line mode: which action a word names,
//! how a latency is classed, and which proxies a listing shows.
use vstd::prelude::*;
use crate::api_models::ProxiesResponse;
use crate::sort::{name_sorted, sort_by_name};
use crate::text::{
    eq_ignore_case, str_eq, str_eq_ignore_ascii_case, string_from, to_lowercase, unicode_lowercase,
    concat_str, u64_to_string, dec,
};

verus! {

/// Whether the `sysproxy` state word switches the proxy on: `on` or `true`
/// (any ASCII case), or `1`.
pub open spec fn sysproxy_on(state: Seq<char>) -> bool {
    eq_ignore_case(state, "on"@) || eq_ignore_case(state, "true"@) || state == "1"@
}

/// Whether the `sysproxy` state word switches the proxy on.
pub fn sysproxy_state_is_on(state: &str) -> (r: bool)
    ensures
        r == sysproxy_on(state@),
{
    str_eq_ignore_ascii_case(state, "on") || str_eq_ignore_ascii_case(state, "true") || str_eq(state, "1")
}

/// Actions of the `core` command.
#[derive(Clone, Copy, PartialEq, Eq, Structural, Debug)]
pub enum CoreCommand {
    Start,
    Stop,
    Restart,
    Download,
}

/// The core action a word names (compared in lowercase).
pub open spec fn core_command(word: Seq<char>) -> Option<CoreCommand> {
    let w = unicode_lowercase(word);
    if w == "start"@ {
        Some(CoreCommand::Start)
    } else if w == "stop"@ {
        Some(CoreCommand::Stop)
    } else if w == "restart"@ {
        Some(CoreCommand::Restart)
    } else if w == "download"@ || w == "install"@ {
        Some(CoreCommand::Download)
    } else {
        None
    }
}

/// Reads the word of the `core` command; an unknown word is an error.
pub fn parse_core_action(action: &str) -> (r: Result<CoreCommand, String>)
    ensures
        match core_command(action@) {
            Some(c) => r == Ok::<CoreCommand, String>(c),
            None => r matches Err(e) && e@ == "Unknown core action"@,
        },
{
    let w = to_lowercase(action);
    if str_eq(w.as_str(), "start") {
        Ok(CoreCommand::Start)
    } else if str_eq(w.as_str(), "stop") {
        Ok(CoreCommand::Stop)
    } else if str_eq(w.as_str(), "restart") {
        Ok(CoreCommand::Restart)
    } else if str_eq(w.as_str(), "download") || str_eq(w.as_str(), "install") {
        Ok(CoreCommand::Download)
    } else {
        Err(string_from("Unknown core action"))
    }
}

/// Actions of the `tun` command.
pub enum TunCommand {
    On,
    Off,
    /// Switch the network stack to the named one (the word as given).
    Stack(String),
    Status,
    Grant,
    Revoke,
}

/// The kind of TUN action a word names (compared in lowercase): 0 on, 1 off,
/// 2 stack, 3 status, 4 grant, 5 revoke.
pub open spec fn tun_word(word: Seq<char>) -> Option<nat> {
    let w = unicode_lowercase(word);
    if w == "on"@ || w == "enable"@ || w == "true"@ || w == "1"@ {
        Some(0)
    } else if w == "off"@ || w == "disable"@ || w == "false"@ || w == "0"@ {
        Some(1)
    } else if w == "system"@ || w == "gvisor"@ || w == "lwip"@ {
        Some(2)
    } else if w == "status"@ {
        Some(3)
    } else if w == "grant"@ {
        Some(4)
    } else if w == "revoke"@ {
        Some(5)
    } else {
        None
    }
}

/// Reads the word of the `tun` command; an unknown word is an error naming it
/// and the supported ones.
pub fn parse_tun_action(action: &str) -> (r: Result<TunCommand, String>)
    ensures
        match tun_word(action@) {
            Some(k) => match r {
                Ok(c) => match c {
                    TunCommand::On => k == 0,
                    TunCommand::Off => k == 1,
                    TunCommand::Stack(s) => k == 2 && s@ == action@,
                    TunCommand::Status => k == 3,
                    TunCommand::Grant => k == 4,
                    TunCommand::Revoke => k == 5,
                },
                Err(_) => false,
            },
            None => r matches Err(e) && e@ == "Unknown TUN action '"@ + action@
                + "'. Supported actions: on, off, status, grant, revoke, system, gvisor, lwip"@,
        },
{
    let w = to_lowercase(action);
    let x = w.as_str();
    if str_eq(x, "on") || str_eq(x, "enable") || str_eq(x, "true") || str_eq(x, "1") {
        Ok(TunCommand::On)
    } else if str_eq(x, "off") || str_eq(x, "disable") || str_eq(x, "false") || str_eq(x, "0") {
        Ok(TunCommand::Off)
    } else if str_eq(x, "system") || str_eq(x, "gvisor") || str_eq(x, "lwip") {
        Ok(TunCommand::Stack(string_from(action)))
    } else if str_eq(x, "status") {
        Ok(TunCommand::Status)
    } else if str_eq(x, "grant") {
        Ok(TunCommand::Grant)
    } else if str_eq(x, "revoke") {
        Ok(TunCommand::Revoke)
    } else {
        let a = concat_str("Unknown TUN action '", action);
        Err(
            concat_str(
                a.as_str(),
                "'. Supported actions: on, off, status, grant, revoke, system, gvisor, lwip",
            ),
        )
    }
}

/// How a latency is shown: fast below 200 ms, medium below 500 ms, slow
/// otherwise, unknown when there is none.
#[derive(Clone, Copy, PartialEq, Eq, Structural, Debug)]
pub enum LatencyBand {
    Fast,
    Medium,
    Slow,
    Unknown,
}

pub open spec fn band_of(ms: Option<u16>) -> LatencyBand {
    match ms {
        Some(m) => if m < 200 {
            LatencyBand::Fast
        } else if m < 500 {
            LatencyBand::Medium
        } else {
            LatencyBand::Slow
        },
        None => LatencyBand::Unknown,
    }
}

/// Classes a latency for display.
pub fn latency_band(ms: Option<u16>) -> (r: LatencyBand)
    ensures
        r == band_of(ms),
{
    match ms {
        Some(m) => if m < 200 {
            LatencyBand::Fast
        } else if m < 500 {
            LatencyBand::Medium
        } else {
            LatencyBand::Slow
        },
        None => LatencyBand::Unknown,
    }
}

/// How long ago a profile was updated, as the listing prints it.
pub fn updated_text(updated_at: Option<u64>) -> (r: String)
    ensures
        r@ == match updated_at {
            Some(t) => dec(t as nat) + "s ago"@,
            None => "Never"@,
        },
{
    match updated_at {
        Some(t) => {
            let n = u64_to_string(t);
            concat_str(n.as_str(), "s ago")
        },
        None => string_from("Never"),
    }
}

/// Entries of the core's list shown by `proxy list`: all of them, or those
/// whose own name equals the filter ignoring ASCII case; each given by its
/// position (the caller orders them by key).
pub open spec fn rows_of(es: Seq<(String, crate::api_models::ProxyItem)>, filter: Option<Seq<char>>) -> Seq<(String, usize)>
    decreases es.len(),
{
    if es.len() == 0 {
        Seq::empty()
    } else {
        let rest = rows_of(es.drop_last(), filter);
        let keep = match filter {
            Some(f) => eq_ignore_case(es.last().1.name@, f),
            None => true,
        };
        if keep {
            rest.push((es.last().0, (es.len() - 1) as usize))
        } else {
            rest
        }
    }
}

/// Positions of the entries `proxy list` prints, in key order (see `rows_of`).
pub fn proxy_list_rows(resp: &ProxiesResponse, filter: Option<&str>) -> (r: Vec<usize>)
    ensures
        r@ == name_sorted(
            rows_of(
                resp.proxies@,
                match filter {
                    Some(f) => Some(f@),
                    None => None,
                },
            ),
        ).map_values(|e: (String, usize)| e.1),
{
    let ghost fv = match filter {
        Some(f) => Some(f@),
        None => None::<Seq<char>>,
    };
    let es = &resp.proxies;
    let mut rows: Vec<(String, usize)> = Vec::new();
    let mut i: usize = 0;
    while i < es.len()
        invariant
            i <= es.len(),
            fv == match filter {
                Some(f) => Some(f@),
                None => None::<Seq<char>>,
            },
            rows@ == rows_of(es@.take(i as int), fv),
        decreases es.len() - i,
    {
        proof {
            assert(es@.take(i + 1).drop_last() =~= es@.take(i as int));
            assert(es@.take(i + 1).last() == es@[i as int]);
        }
        let keep = match filter {
            Some(f) => str_eq_ignore_ascii_case(es[i].1.name.as_str(), f),
            None => true,
        };
        if keep {
            rows.push((es[i].0.clone(), i));
        }
        i += 1;
    }
    assert(es@.take(es@.len() as int) =~= es@);
    let sorted = sort_by_name(rows);
    let mut r: Vec<usize> = Vec::new();
    let mut k: usize = 0;
    while k < sorted.len()
        invariant
            k <= sorted.len(),
            r@ == sorted@.take(k as int).map_values(|e: (String, usize)| e.1),
        decreases sorted.len() - k,
    {
        r.push(sorted[k].1);
        k += 1;
        assert(r@ =~= sorted@.take(k as int).map_values(|e: (String, usize)| e.1));
    }
    assert(sorted@.take(sorted@.len() as int) =~= sorted@);
    r
}

/// Whether `latency` tests an item as a group: a selector or URL-test group
/// (exact type name) with a member list.
pub open spec fn tested_group(p: crate::api_models::ProxyItem) -> bool {
    (p.proxy_type@ == "Selector"@ || p.proxy_type@ == "URLTest"@) && p.all is Some
}

/// Whether `latency` tests an item as a group.
pub fn is_tested_group(p: &crate::api_models::ProxyItem) -> (r: bool)
    ensures
        r == tested_group(*p),
{
    (str_eq(p.proxy_type.as_str(), "Selector") || str_eq(p.proxy_type.as_str(), "URLTest"))
        && p.all.is_some()
}

} // verus!
