//! Colour scheme and human-readable byte counts.
use vstd::prelude::*;
use crate::text::{dec, push_all, push_str, string_of, u64_to_dec, digit_char};

verus! {

/// Catppuccin Mocha palette (red, green, blue) and the styles built from it.
pub struct Theme;

impl Theme {
    pub const BG_BASE: (u8, u8, u8) = (30, 30, 46);
    pub const BG_SURFACE: (u8, u8, u8) = (49, 50, 68);
    pub const BG_OVERLAY: (u8, u8, u8) = (69, 71, 90);
    pub const BORDER: (u8, u8, u8) = (69, 71, 90);
    pub const BORDER_FOCUS: (u8, u8, u8) = (203, 166, 247);
    pub const BORDER_SUBTLE: (u8, u8, u8) = (49, 50, 68);
    pub const TEXT_MAIN: (u8, u8, u8) = (205, 214, 244);
    pub const TEXT_SUB: (u8, u8, u8) = (186, 194, 222);
    pub const TEXT_MUTED: (u8, u8, u8) = (108, 112, 134);
    pub const TEXT_DIM: (u8, u8, u8) = (88, 91, 112);
    pub const PRIMARY: (u8, u8, u8) = (203, 166, 247);
    pub const SECONDARY: (u8, u8, u8) = (137, 220, 235);
    pub const ACTIVE_GREEN: (u8, u8, u8) = (166, 227, 161);
    pub const MODE_BADGE: (u8, u8, u8) = (250, 179, 135);
    pub const WARN_YELLOW: (u8, u8, u8) = (249, 226, 175);
    pub const DANGER_RED: (u8, u8, u8) = (243, 139, 168);
    pub const SELECTED_FG: (u8, u8, u8) = (17, 17, 27);
    pub const TRAFFIC_UP: (u8, u8, u8) = (137, 220, 235);
    pub const TRAFFIC_DOWN: (u8, u8, u8) = (166, 227, 161);
}

/// `2^k`.
pub open spec fn p2(k: nat) -> nat
    decreases k,
{
    if k == 0 {
        1
    } else {
        2 * p2((k - 1) as nat)
    }
}

/// Number of significant bits of `b`.
pub open spec fn bitlen(b: nat) -> nat
    decreases b,
{
    if b == 0 {
        0
    } else {
        1 + bitlen(b / 2)
    }
}

/// The value of `b as f64`: `b` rounded to 53 significant bits, ties to even.
pub open spec fn f64_value(b: nat) -> nat {
    if bitlen(b) <= 53 {
        b
    } else {
        let p = p2((bitlen(b) - 53) as nat);
        let q = b / p;
        let r = b % p;
        if r * 2 > p || (r * 2 == p && q % 2 == 1) {
            (q + 1) * p
        } else {
            q * p
        }
    }
}

/// `v / unit` rounded to two decimals, ties to even, in hundredths.
pub open spec fn hundredths(v: nat, unit: nat) -> nat
    recommends
        unit > 0,
{
    let q = (v * 100) / unit;
    let r = (v * 100) % unit;
    if r * 2 > unit || (r * 2 == unit && q % 2 == 1) {
        q + 1
    } else {
        q
    }
}

/// A count in hundredths written with two decimals.
pub open spec fn two_decimals(n: nat) -> Seq<char> {
    dec(n / 100).push('.').push(digit_char((n % 100) / 10)).push(digit_char(n % 10))
}

pub open spec fn kib() -> nat {
    1024
}

pub open spec fn mib() -> nat {
    1024 * 1024
}

pub open spec fn gib() -> nat {
    1024 * 1024 * 1024
}

/// `bytes` in the largest unit (B, KB, MB, GB) it reaches; KB and above with two
/// decimals, as `{:.2}` prints `bytes as f64 / unit as f64`.
pub open spec fn spec_format_bytes(bytes: nat) -> Seq<char> {
    if bytes >= gib() {
        two_decimals(hundredths(f64_value(bytes), gib())) + " GB"@
    } else if bytes >= mib() {
        two_decimals(hundredths(f64_value(bytes), mib())) + " MB"@
    } else if bytes >= kib() {
        two_decimals(hundredths(f64_value(bytes), kib())) + " KB"@
    } else {
        dec(bytes) + " B"@
    }
}

proof fn lemma_bitlen_bound(b: nat, n: nat)
    requires
        b < p2(n),
    ensures
        bitlen(b) <= n,
    decreases n,
{
    if b > 0 && n > 0 {
        lemma_bitlen_bound(b / 2, (n - 1) as nat);
    }
}

proof fn lemma_p2_64()
    ensures
        p2(64) == 0x1_0000_0000_0000_0000,
        p2(53) == 0x20_0000_0000_0000,
{
    reveal_with_fuel(p2, 65);
}

/// Exact value of `b as f64` (at most `2^64`).
fn f64_exact(b: u64) -> (v: u128)
    ensures
        v as nat == f64_value(b as nat),
        v <= 0x1_0000_0000_0000_0000,
{
    let mut t: u64 = b;
    let mut bl: u64 = 0;
    proof {
        lemma_p2_64();
        lemma_bitlen_bound(b as nat, 64);
    }
    while t > 0
        invariant
            bitlen(b as nat) == bl + bitlen(t as nat),
            bitlen(b as nat) <= 64,
        decreases t,
    {
        t = t / 2;
        bl = bl + 1;
    }
    if bl <= 53 {
        return b as u128;
    }
    let k = bl - 53;
    let mut p: u128 = 1;
    let mut j: u64 = 0;
    while j < k
        invariant
            j <= k,
            k <= 11,
            p as nat == p2(j as nat),
            p <= 2048,
        decreases k - j,
    {
        proof {
            assert(p2(j as nat) <= p2(10)) by {
                lemma_p2_monotone(j as nat, 10);
            }
            reveal_with_fuel(p2, 11);
        }
        p = p * 2;
        j = j + 1;
    }
    let bb = b as u128;
    proof {
        lemma_p2_positive(j as nat);
    }
    let q = bb / p;
    let r = bb % p;
    proof {
        assert(q * p + r == bb) by (nonlinear_arith)
            requires
                q == bb / p,
                r == bb % p,
                p > 0,
        ;
        assert(r < p) by (nonlinear_arith)
            requires
                r == bb % p,
                p > 0,
        ;
        assert((q + 1) * p == q * p + p) by (nonlinear_arith);
        assert(bb < 0x1_0000_0000_0000_0000);
        lemma_round_bound(bb as nat, k as nat, p as nat, q as nat, r as nat);
    }
    if r * 2 > p || (r * 2 == p && q % 2 == 1) {
        (q + 1) * p
    } else {
        q * p
    }
}

proof fn lemma_p2_monotone(a: nat, b: nat)
    requires
        a <= b,
    ensures
        p2(a) <= p2(b),
    decreases b,
{
    if a < b {
        lemma_p2_monotone(a, (b - 1) as nat);
    }
}

proof fn lemma_p2_add(a: nat, b: nat)
    ensures
        p2(a + b) == p2(a) * p2(b),
    decreases a,
{
    if a > 0 {
        let a1 = (a - 1) as nat;
        lemma_p2_add(a1, b);
        assert(a + b == (a1 + b) + 1);
        assert(p2(a + b) == 2 * p2(a1 + b));
        assert(p2(a) == 2 * p2(a1));
        assert(2 * (p2(a1) * p2(b)) == (2 * p2(a1)) * p2(b)) by (nonlinear_arith);
    } else {
        assert(p2(a) == 1);
    }
}

/// Rounding a value below `2^64` up to a multiple of `2^k` (`k <= 11`) stays at
/// or below `2^64`.
proof fn lemma_round_bound(b: nat, k: nat, p: nat, q: nat, r: nat)
    requires
        b < 0x1_0000_0000_0000_0000nat,
        k <= 11,
        p == p2(k),
        q * p + r == b,
        r < p,
    ensures
        (q + 1) * p <= 0x1_0000_0000_0000_0000nat,
{
    lemma_p2_64();
    lemma_p2_add(k, (64 - k) as nat);
    let m = p2((64 - k) as nat);
    assert(p * m == 0x1_0000_0000_0000_0000nat);
    assert(p > 0) by {
        lemma_p2_positive(k);
    }
    assert(q * p < m * p) by (nonlinear_arith)
        requires
            q * p + r == b,
            b < p * m,
    ;
    assert(q < m) by (nonlinear_arith)
        requires
            q * p < m * p,
            p > 0,
    ;
    assert((q + 1) * p <= m * p) by (nonlinear_arith)
        requires
            q + 1 <= m,
            p > 0,
    ;
}

proof fn lemma_p2_positive(k: nat)
    ensures
        p2(k) > 0,
    decreases k,
{
    if k > 0 {
        lemma_p2_positive((k - 1) as nat);
    }
}

fn push_two_decimals(out: &mut Vec<char>, n: u128)
    requires
        n <= 0xFFFF_FFFF_FFFF_FFFF,
    ensures
        final(out)@ == old(out)@ + two_decimals(n as nat),
{
    let whole = u64_to_dec((n / 100) as u64);
    push_all(out, whole.as_slice());
    out.push('.');
    let d1 = ((n % 100) / 10) as u8;
    let d2 = (n % 10) as u8;
    out.push((48 + d1) as char);
    out.push((48 + d2) as char);
    assert(out@ =~= old(out)@ + two_decimals(n as nat));
}

fn scaled(v: u128, unit: u128) -> (n: u128)
    requires
        v <= 0x1_0000_0000_0000_0000,
        unit == 1024 || unit == 1024 * 1024 || unit == 1024 * 1024 * 1024,
    ensures
        n as nat == hundredths(v as nat, unit as nat),
        n <= 0xFFFF_FFFF_FFFF_FFFF,
{
    let x = v * 100;
    let q = x / unit;
    let r = x % unit;
    assert(q <= 0x1_0000_0000_0000_0000 * 100 / 1024) by (nonlinear_arith)
        requires
            q == x / unit,
            x <= 0x1_0000_0000_0000_0000 * 100,
            unit >= 1024,
    ;
    if r * 2 > unit || (r * 2 == unit && q % 2 == 1) {
        q + 1
    } else {
        q
    }
}

/// Human-readable byte count: `512 B`, `1.50 KB`, `2.00 MB`, `1.25 GB`.
pub fn format_bytes(bytes: u64) -> (r: String)
    ensures
        r@ == spec_format_bytes(bytes as nat),
{
    let mut out: Vec<char> = Vec::new();
    if bytes >= 1024 * 1024 * 1024 {
        let n = scaled(f64_exact(bytes), 1024 * 1024 * 1024);
        push_two_decimals(&mut out, n);
        push_str(&mut out, " GB");
    } else if bytes >= 1024 * 1024 {
        let n = scaled(f64_exact(bytes), 1024 * 1024);
        push_two_decimals(&mut out, n);
        push_str(&mut out, " MB");
    } else if bytes >= 1024 {
        let n = scaled(f64_exact(bytes), 1024);
        push_two_decimals(&mut out, n);
        push_str(&mut out, " KB");
    } else {
        let d = u64_to_dec(bytes);
        push_all(&mut out, d.as_slice());
        push_str(&mut out, " B");
    }
    string_of(out.as_slice())
}

/// Human-readable rate: the byte count followed by `/s`.
pub fn format_speed(bytes_per_sec: u64) -> (r: String)
    ensures
        r@ == spec_format_bytes(bytes_per_sec as nat) + "/s"@,
{
    let s = format_bytes(bytes_per_sec);
    let mut out: Vec<char> = Vec::new();
    push_str(&mut out, s.as_str());
    push_str(&mut out, "/s");
    string_of(out.as_slice())
}

} // verus!
