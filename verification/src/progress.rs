//! The progress model: turns a request's state blob into a clamped progress
//! fraction and a human-readable percentage text.
//!
//! The fraction is held as an integer count of `1 / FRAC_SCALE` units. A
//! `progress` entry gives the fraction directly; failing that, a `percent`
//! entry divided by one hundred; failing both, zero. Out-of-range values are
//! clamped to `[0, 1]`, never rejected. The percentage text keeps a
//! caller-supplied `percent` entry letter for letter; otherwise it writes
//! the fraction as a percentage with one decimal digit, rounding half up.

use vstd::prelude::*;

use crate::decimal::{
    digit_char, digit_str, parse_mag, parse_neg, parse_ok, parse_scaled, sat_mag, spec_dec,
    u64_to_dec, MAG_CAP,
};
use crate::state_map::{spec_lookup, StateMap};
use crate::FRAC_SCALE;

verus! {

/// A signed scaled magnitude, clamped into `[0, FRAC_SCALE]`.
pub open spec fn clamp_scaled(neg: bool, v: int) -> int {
    if neg {
        0
    } else if v > FRAC_SCALE as int {
        FRAC_SCALE as int
    } else {
        v
    }
}

/// The normalized progress fraction of a state blob, in `1 / FRAC_SCALE`
/// units: a parsable `progress` entry wins, then a parsable `percent` entry
/// divided by one hundred, then zero; the result is clamped into `[0, 1]`.
pub open spec fn spec_fraction(m: Seq<(Seq<char>, Seq<char>)>) -> int {
    let pv = spec_lookup(m, "progress"@);
    let pc = spec_lookup(m, "percent"@);
    if pv is Some && parse_ok(pv.unwrap()) {
        clamp_scaled(parse_neg(pv.unwrap()), parse_mag(pv.unwrap()) / 100)
    } else if pc is Some && parse_ok(pc.unwrap()) {
        clamp_scaled(parse_neg(pc.unwrap()), parse_mag(pc.unwrap()) / 10000)
    } else {
        0
    }
}

/// The fraction written as a whole number of thousandths of the whole (a
/// tenth of a percent), rounding half up.
pub open spec fn spec_permille(f: int) -> int {
    (f + 50) / 100
}

/// A permille value written as a percentage with one decimal digit, e.g.
/// `"25.0%"`.
pub open spec fn spec_permille_text(pm: int) -> Seq<char> {
    spec_dec((pm / 10) as nat) + "."@ + seq![digit_char(pm % 10)] + "%"@
}

/// The display text of a state blob: a `percent` entry's own words with a
/// percent sign after them, else the normalized fraction as a percentage
/// with one decimal digit.
pub open spec fn spec_display(m: Seq<(Seq<char>, Seq<char>)>) -> Seq<char> {
    match spec_lookup(m, "percent"@) {
        Some(p) => p + "%"@,
        None => spec_permille_text(spec_permille(spec_fraction(m))),
    }
}

/// A normalized progress value: the clamped fraction in `1 / FRAC_SCALE`
/// units, and its display text.
#[derive(Debug)]
pub struct Progress {
    pub scaled: u64,
    pub text: String,
}

/// Clamps the magnitude `mag`, divided by `d` and negated under `neg`, into
/// `[0, FRAC_SCALE]`.
fn clamp_div(neg: bool, mag: u64, d: u64) -> (r: u64)
    requires
        1 <= d,
    ensures
        r as int == clamp_scaled(neg, mag as int / d as int),
        r <= FRAC_SCALE,
{
    if neg {
        0
    } else {
        let q = mag / d;
        if q > FRAC_SCALE {
            FRAC_SCALE
        } else {
            q
        }
    }
}

/// Saturation of a parsed magnitude never changes where its quotient lands
/// after clamping.
proof fn lemma_clamp_sat(neg: bool, exact: int, d: int)
    requires
        0 <= exact,
        d == 100 || d == 10000,
    ensures
        clamp_scaled(neg, sat_mag(exact) / d) == clamp_scaled(neg, exact / d),
{
    if !neg && exact > MAG_CAP as int {
        vstd::arithmetic::div_mod::lemma_div_is_ordered(MAG_CAP as int, exact, d);
        assert(MAG_CAP as int / d > FRAC_SCALE as int);
    }
}

/// Writes `pm` thousandths of the whole as a percentage with one decimal
/// digit, e.g. `250` as `"25.0%"`.
fn permille_text(pm: u64) -> (t: String)
    requires
        pm <= 1000,
    ensures
        t@ == spec_permille_text(pm as int),
{
    let mut t = u64_to_dec(pm / 10);
    t.append(".");
    t.append(digit_str(pm % 10));
    t.append("%");
    t
}

/// Normalizes the state blob `state` into a clamped progress fraction and
/// its display text, as the progress model defines them.
pub fn normalize_progress(state: &StateMap) -> (p: Progress)
    ensures
        p.scaled as int == spec_fraction(state@),
        p.scaled <= FRAC_SCALE,
        p.text@ == spec_display(state@),
{
    let mut scaled: u64 = 0;
    let mut decided = false;
    if let Some(v) = state.get("progress") {
        if let Some((neg, mag)) = parse_scaled(v.as_str()) {
            scaled = clamp_div(neg, mag, 100);
            decided = true;
            proof {
                let pv = spec_lookup(state@, "progress"@).unwrap();
                lemma_parse_mag_nonneg(pv);
                lemma_clamp_sat(neg, parse_mag(pv), 100);
            }
        }
    }
    if !decided {
        if let Some(v) = state.get("percent") {
            if let Some((neg, mag)) = parse_scaled(v.as_str()) {
                scaled = clamp_div(neg, mag, 10000);
                proof {
                    let pc = spec_lookup(state@, "percent"@).unwrap();
                    lemma_parse_mag_nonneg(pc);
                    lemma_clamp_sat(neg, parse_mag(pc), 10000);
                }
            }
        }
    }
    let text = if let Some(p) = state.get("percent") {
        let mut t = p.clone();
        t.append("%");
        t
    } else {
        permille_text((scaled + 50) / 100)
    };
    Progress { scaled, text }
}

/// A valid decimal literal's scaled magnitude is never negative.
pub proof fn lemma_parse_mag_nonneg(s: Seq<char>)
    requires
        parse_ok(s),
    ensures
        parse_mag(s) >= 0,
{
    if s.len() >= 1 && (s[0] == '+' || s[0] == '-') {
        crate::decimal::lemma_body_val_nonneg(s.skip(1));
    } else {
        crate::decimal::lemma_body_val_nonneg(s);
    }
}

/// For all state blobs, the normalized fraction lies in `[0, 1]`: never
/// below zero, never above `FRAC_SCALE`, whatever the entries hold.
pub proof fn lemma_progress_fraction_clamped(state: Seq<(Seq<char>, Seq<char>)>)
    ensures
        0 <= spec_fraction(state) <= FRAC_SCALE,
{
    let pv = spec_lookup(state, "progress"@);
    let pc = spec_lookup(state, "percent"@);
    if pv is Some && parse_ok(pv.unwrap()) {
        lemma_parse_mag_nonneg(pv.unwrap());
    } else if pc is Some && parse_ok(pc.unwrap()) {
        lemma_parse_mag_nonneg(pc.unwrap());
    }
}

/// A parsable `progress` entry takes precedence over `percent`; with only a
/// parsable `percent` entry, the fraction is that percentage divided by one
/// hundred; with neither, it is zero. (Clamping applies throughout.)
pub proof fn lemma_fallback_order(state: Seq<(Seq<char>, Seq<char>)>)
    ensures
        ({
            let pv = spec_lookup(state, "progress"@);
            pv is Some && parse_ok(pv.unwrap()) ==> spec_fraction(state) == clamp_scaled(
                parse_neg(pv.unwrap()),
                parse_mag(pv.unwrap()) / 100,
            )
        }),
        ({
            let pv = spec_lookup(state, "progress"@);
            let pc = spec_lookup(state, "percent"@);
            !(pv is Some && parse_ok(pv.unwrap())) && pc is Some && parse_ok(pc.unwrap())
                ==> spec_fraction(state) == clamp_scaled(
                parse_neg(pc.unwrap()),
                parse_mag(pc.unwrap()) / 10000,
            )
        }),
        ({
            let pv = spec_lookup(state, "progress"@);
            let pc = spec_lookup(state, "percent"@);
            !(pv is Some && parse_ok(pv.unwrap())) && !(pc is Some && parse_ok(pc.unwrap()))
                ==> spec_fraction(state) == 0
        }),
{
}

} // verus!
