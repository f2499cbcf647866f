//! Weapons, boost multipliers and the damage-source formula evaluator.
//!
//! Damage values, weapon attributes and boost multipliers are fixed-point
//! quantities in millionths of a unit, like the secondary stats they are
//! computed from.

use vstd::prelude::*;
use crate::error::BackendError;
use crate::numeric::{
    lemma_round_div_bound, lemma_round_div_exact, round_div, scale, spec_round_div, spec_scale,
};
use crate::player::SecondaryStats;
use crate::text::{
    lemma_digits_prefix_mono, spec_all_digits, spec_digit, spec_digits_prefix, spec_digits_val,
    spec_dot_from, spec_frac6, spec_frac_micro, spec_is_digit, str_chars, str_eq,
};

verus! {

/// A weapon: attack range and damage per second in millionths, and the
/// boost applied to its output.
#[derive(Debug, Clone, Copy, PartialEq, Eq, Structural)]
pub struct Weapon {
    pub range: i64,
    pub dps: i64,
    pub boost: WeaponBoost,
}

/// The named boost tiers, plus an arbitrary custom multiplier in
/// millionths.
#[derive(Debug, Clone, Copy, PartialEq, Eq, Structural)]
pub enum WeaponBoost {
    Boost15,
    Boost30,
    Boost51,
    Boost51x30,
    Boost51x40,
    Boost51x50,
    Boost35x75,
    Custom(i64),
}

/// The multiplier of each boost, in millionths.  The doubled tiers are the
/// exact products of their two stage multipliers.
pub open spec fn spec_boost_multiplier(b: WeaponBoost) -> int {
    match b {
        WeaponBoost::Boost15 => 1_150_000,
        WeaponBoost::Boost30 => 1_300_000,
        WeaponBoost::Boost51 => 1_510_000,
        WeaponBoost::Boost51x30 => 1_963_000,
        WeaponBoost::Boost51x40 => 2_114_000,
        WeaponBoost::Boost51x50 => 2_265_000,
        WeaponBoost::Boost35x75 => 2_362_500,
        WeaponBoost::Custom(x) => x as int,
    }
}

/// The named boost a token selects, if any.  Named tokens match exactly.
pub open spec fn spec_named_boost(t: Seq<char>) -> Option<WeaponBoost> {
    if t == "15"@ {
        Some(WeaponBoost::Boost15)
    } else if t == "30"@ {
        Some(WeaponBoost::Boost30)
    } else if t == "51"@ {
        Some(WeaponBoost::Boost51)
    } else if t == "51x30"@ {
        Some(WeaponBoost::Boost51x30)
    } else if t == "51x40"@ {
        Some(WeaponBoost::Boost51x40)
    } else if t == "51x50"@ {
        Some(WeaponBoost::Boost51x50)
    } else if t == "35x75"@ {
        Some(WeaponBoost::Boost35x75)
    } else {
        None
    }
}

/// Largest percentage, in whole units, the custom-boost parser accepts.
pub const MAX_CUSTOM_PCT: i64 = 2_000_000_000;

/// The value of a decimal token after an optional sign: its digits before
/// the dot in units, its digits after the dot in millionths.  `None` when
/// the token is not a plain decimal or its integer part is out of range.
pub open spec fn spec_parse_body(b: Seq<char>) -> Option<int> {
    let d = spec_dot_from(b, 0);
    if d == -1 {
        if b.len() > 0 && spec_all_digits(b) && spec_digits_val(b) <= MAX_CUSTOM_PCT as int {
            Some(spec_digits_val(b) * 1_000_000)
        } else {
            None
        }
    } else {
        let ip = b.subrange(0, d);
        let fp = b.subrange(d + 1, b.len() as int);
        if (ip.len() > 0 || fp.len() > 0) && spec_all_digits(ip) && spec_all_digits(fp)
            && spec_digits_val(ip) <= MAX_CUSTOM_PCT as int {
            Some(spec_digits_val(ip) * 1_000_000 + spec_frac_micro(fp))
        } else {
            None
        }
    }
}

/// The percentage a decimal token denotes, in millionths, with an optional
/// leading sign.
pub open spec fn spec_parse_pct(s: Seq<char>) -> Option<int> {
    if s.len() > 0 && s[0] == '-' {
        match spec_parse_body(s.drop_first()) {
            Some(v) => Some(-v),
            None => None,
        }
    } else if s.len() > 0 && s[0] == '+' {
        spec_parse_body(s.drop_first())
    } else {
        spec_parse_body(s)
    }
}

/// The multiplier a custom percentage denotes: one plus a hundredth of the
/// percentage, in millionths.
pub open spec fn spec_custom_multiplier(pct: int) -> int {
    1_000_000 + spec_round_div(pct, 100)
}

impl WeaponBoost {
    /// The boost's multiplier in millionths.
    pub fn multiplier(&self) -> (r: i64)
        ensures
            r == spec_boost_multiplier(*self),
    {
        match self {
            WeaponBoost::Boost15 => 1_150_000,
            WeaponBoost::Boost30 => 1_300_000,
            WeaponBoost::Boost51 => 1_510_000,
            WeaponBoost::Boost51x30 => 1_963_000,
            WeaponBoost::Boost51x40 => 2_114_000,
            WeaponBoost::Boost51x50 => 2_265_000,
            WeaponBoost::Boost35x75 => 2_362_500,
            WeaponBoost::Custom(x) => *x,
        }
    }

    /// Parse a boost token: one of the named tiers, else a decimal
    /// percentage that becomes a custom multiplier.  Anything else fails
    /// with `InvalidWeaponBoost` carrying the offending token.
    pub fn from_str(s: &str) -> (r: Result<WeaponBoost, BackendError>)
        ensures
            spec_named_boost(s@) matches Some(b) ==> r == Ok::<WeaponBoost, BackendError>(b),
            spec_named_boost(s@) is None ==> match spec_parse_pct(s@) {
                Some(pct) => r == Ok::<WeaponBoost, BackendError>(
                    WeaponBoost::Custom(spec_custom_multiplier(pct) as i64),
                ),
                None => r matches Err(BackendError::InvalidWeaponBoost(desc)) && desc@ == s@,
            },
    {
        if str_eq(s, "15") {
            Ok(WeaponBoost::Boost15)
        } else if str_eq(s, "30") {
            Ok(WeaponBoost::Boost30)
        } else if str_eq(s, "51") {
            Ok(WeaponBoost::Boost51)
        } else if str_eq(s, "51x30") {
            Ok(WeaponBoost::Boost51x30)
        } else if str_eq(s, "51x40") {
            Ok(WeaponBoost::Boost51x40)
        } else if str_eq(s, "51x50") {
            Ok(WeaponBoost::Boost51x50)
        } else if str_eq(s, "35x75") {
            Ok(WeaponBoost::Boost35x75)
        } else {
            match parse_pct_micro(s) {
                Some(pct) => {
                    proof {
                        lemma_round_div_bound(pct as int, 100);
                        vstd::arithmetic::div_mod::lemma_div_is_ordered(
                            pct as int,
                            2_100_000_000_000_000,
                            100,
                        );
                        vstd::arithmetic::div_mod::lemma_div_is_ordered(
                            -(pct as int),
                            2_100_000_000_000_000,
                            100,
                        );
                    }
                    let hundredth: i64 = round_div(pct as i128, 100) as i64;
                    Ok(WeaponBoost::Custom(1_000_000 + hundredth))
                },
                None => Err(BackendError::InvalidWeaponBoost(s.to_owned())),
            }
        }
    }
}

/// Parse a plain decimal percentage into millionths; `None` when the token
/// is malformed or out of range.
#[verifier::rlimit(100)]
#[verifier::spinoff_prover]
#[verifier::loop_isolation(false)]
fn parse_pct_micro(s: &str) -> (r: Option<i64>)
    ensures
        r matches Some(v) ==> spec_parse_pct(s@) == Some(v as int),
        r is None ==> spec_parse_pct(s@) is None,
        r matches Some(v) ==> -2_100_000_000_000_000 <= v <= 2_100_000_000_000_000,
{
    let chars = str_chars(s);
    let n: usize = chars.len();
    let neg: bool;
    let start: usize;
    if n > 0 && chars[0] == '-' {
        neg = true;
        start = 1;
    } else if n > 0 && chars[0] == '+' {
        neg = false;
        start = 1;
    } else {
        neg = false;
        start = 0;
    }
    let ghost b: Seq<char> = s@.skip(start as int);
    proof {
        if start == 1 {
            assert(b =~= s@.drop_first());
        } else {
            assert(b =~= s@);
        }
    }

    // Locate the first dot of the body, if any.
    let mut found = false;
    let mut dot_idx: usize = n;
    let mut i: usize = start;
    while i < n
        invariant
            chars@ == s@,
            n == s@.len(),
            b == s@.skip(start as int),
            start <= i <= n,
            start <= n,
            found ==> start <= dot_idx < i && spec_dot_from(b, 0) == dot_idx - start,
            !found ==> dot_idx == n && spec_dot_from(b, 0) == spec_dot_from(
                b,
                (i - start) as nat,
            ),
        decreases n - i,
    {
        if !found && chars[i] == '.' {
            found = true;
            dot_idx = i;
        }
        i = i + 1;
    }

    if !found {
        // No dot: the whole body must be digits.
        if n == start {
            return None;
        }
        proof {
            assert(chars@.subrange(start as int, n as int) =~= b);
        }
        match scan_digits(&chars, start, n) {
            Some(units) => {
                let v: i64 = units * 1_000_000;
                if neg {
                    Some(-v)
                } else {
                    Some(v)
                }
            },
            None => None,
        }
    } else {
        // A dot splits the body into integer and fraction digit runs; at
        // least one of the two must be present.
        let d_rel: usize = dot_idx - start;
        let ghost ip = b.subrange(0, d_rel as int);
        let ghost fp = b.subrange(d_rel + 1, b.len() as int);
        if dot_idx == start && dot_idx + 1 == n {
            return None;
        }
        proof {
            assert(chars@.subrange(start as int, dot_idx as int) =~= ip);
        }
        let units: i64;
        match scan_digits(&chars, start, dot_idx) {
            Some(u) => {
                units = u;
            },
            None => {
                return None;
            },
        }
        // Validate the fraction digits.
        let mut j: usize = dot_idx + 1;
        while j < n
            invariant
                chars@ == s@,
                n == s@.len(),
                b == s@.skip(start as int),
                start <= dot_idx < n,
                d_rel == dot_idx - start,
                dot_idx + 1 <= j <= n,
                fp == b.subrange(d_rel + 1, b.len() as int),
                forall|k: int| 0 <= k < j - dot_idx - 1 ==> spec_is_digit(#[trigger] fp[k]),
            decreases n - j,
    {
            let c = chars[j];
            let u: u32 = c as u32;
            proof {
                assert(fp[(j - dot_idx - 1) as int] == s@[j as int]);
            }
            if u < 48 || u > 57 {
                proof {
                    assert(!spec_is_digit(fp[(j - dot_idx - 1) as int]));
                }
                return None;
            }
            j = j + 1;
        }
        proof {
            assert(spec_all_digits(fp));
        }
        // Read the first six fraction positions, then round on the
        // seventh.
        let d0: i64 = frac_digit(&chars, dot_idx, 0, Ghost(fp));
        let d1: i64 = frac_digit(&chars, dot_idx, 1, Ghost(fp));
        let d2: i64 = frac_digit(&chars, dot_idx, 2, Ghost(fp));
        let d3: i64 = frac_digit(&chars, dot_idx, 3, Ghost(fp));
        let d4: i64 = frac_digit(&chars, dot_idx, 4, Ghost(fp));
        let d5: i64 = frac_digit(&chars, dot_idx, 5, Ghost(fp));
        let mut frac: i64 = d0 * 100_000 + d1 * 10_000 + d2 * 1_000 + d3 * 100 + d4 * 10 + d5;
        proof {
            reveal_with_fuel(spec_frac6, 8);
            assert(frac == spec_frac6(fp, 6));
        }
        if 7 < n - dot_idx {
            let c = chars[dot_idx + 7];
            proof {
                assert(fp[6] == s@[(dot_idx + 7) as int]);
            }
            if c as u32 >= 53 {
                frac = frac + 1;
            }
        }
        let v: i64 = units * 1_000_000 + frac;
        if neg {
            Some(-v)
        } else {
            Some(v)
        }
    }
}

/// The fraction digit at position `k` behind the dot, read as zero past
/// the end of the token.
fn frac_digit(chars: &Vec<char>, dot_idx: usize, k: usize, Ghost(fp): Ghost<Seq<char>>) -> (d:
    i64)
    requires
        dot_idx < chars@.len(),
        k <= 6,
        fp.len() == chars@.len() - dot_idx - 1,
        forall|t: int| 0 <= t < fp.len() ==> fp[t] == chars@[dot_idx + 1 + t],
        spec_all_digits(fp),
    ensures
        d == if k < fp.len() {
            spec_digit(fp[k as int])
        } else {
            0
        },
        0 <= d <= 9,
{
    if k < chars.len() - dot_idx - 1 {
        let c = chars[dot_idx + 1 + k];
        proof {
            assert(fp[k as int] == chars@[(dot_idx + 1 + k) as int]);
            assert(spec_is_digit(fp[k as int]));
        }
        (c as u32 - 48) as i64
    } else {
        0
    }
}

/// Scan the digit run `chars[from..to]` and return its value in units;
/// `None` on a non-digit or when the value exceeds the accepted range.
/// An empty run reads as zero.
fn scan_digits(chars: &Vec<char>, from: usize, to: usize) -> (r: Option<i64>)
    requires
        from <= to <= chars@.len(),
    ensures
        ({
            let b = chars@.subrange(from as int, to as int);
            &&& (r matches Some(v) ==> spec_all_digits(b) && v == spec_digits_val(b) && 0 <= v
                <= MAX_CUSTOM_PCT)
            &&& (r is None ==> !(spec_all_digits(b) && spec_digits_val(b) <= MAX_CUSTOM_PCT
                as int))
        }),
{
    let ghost b: Seq<char> = chars@.subrange(from as int, to as int);
    let mut acc: i64 = 0;
    let mut i: usize = from;
    while i < to
        invariant
            from <= i <= to <= chars@.len(),
            b == chars@.subrange(from as int, to as int),
            b.len() == to - from,
            forall|k: int| 0 <= k < i - from ==> spec_is_digit(#[trigger] b[k]),
            acc == spec_digits_prefix(b, (i - from) as nat),
            0 <= acc <= MAX_CUSTOM_PCT,
        decreases to - i,
    {
        let ghost cnt: nat = (i - from) as nat;
        let c = chars[i];
        let u: u32 = c as u32;
        proof {
            assert(b[cnt as int] == chars@[i as int]);
        }
        if u < 48 || u > 57 {
            proof {
                assert(!spec_is_digit(b[cnt as int]));
            }
            return None;
        }
        proof {
            assert(spec_digits_prefix(b, cnt + 1) == spec_digits_prefix(b, cnt) * 10
                + spec_digit(b[cnt as int]));
        }
        acc = acc * 10 + (u - 48) as i64;
        i = i + 1;
        if acc > MAX_CUSTOM_PCT {
            proof {
                if spec_all_digits(b) {
                    lemma_digits_prefix_mono(b, (i - from) as nat, b.len());
                }
            }
            return None;
        }
    }
    Some(acc)
}

/// The ten damage-source formulas.
#[allow(nonstandard_style)]
#[derive(Debug, Clone, Copy, PartialEq, Eq, Structural)]
pub enum DamageSource {
    AP1,
    SP1,
    AP2,
    SP2,
    APSP1,
    APSP2,
    cHPm,
    cMPm,
    intHP,
    intMP,
}

/// Nesting depth of a formula: the doubled and combined sources evaluate
/// their components first.
pub open spec fn spec_source_rank(d: DamageSource) -> nat {
    match d {
        DamageSource::AP1 => 0,
        DamageSource::SP1 => 0,
        DamageSource::AP2 => 1,
        DamageSource::SP2 => 1,
        DamageSource::APSP1 => 1,
        DamageSource::APSP2 => 2,
        DamageSource::cHPm => 0,
        DamageSource::cMPm => 0,
        DamageSource::intHP => 0,
        DamageSource::intMP => 0,
    }
}

/// Magnitude bound on weapon attributes and power stats under which every
/// formula evaluates without overflow: one million units.
pub open spec fn spec_damage_inputs_ok(w: Weapon, s: SecondaryStats) -> bool {
    &&& -1_000_000_000_000 <= w.dps <= 1_000_000_000_000
    &&& -1_000_000_000_000 <= w.range <= 1_000_000_000_000
    &&& -1_000_000_000_000 <= s.attack_power <= 1_000_000_000_000
    &&& -1_000_000_000_000 <= s.spell_power <= 1_000_000_000_000
}

/// The raw damage of a source, in millionths.
pub open spec fn spec_compute(d: DamageSource, w: Weapon, s: SecondaryStats) -> int
    decreases spec_source_rank(d),
{
    match d {
        DamageSource::AP1 => w.dps + spec_round_div(s.attack_power as int, 10),
        DamageSource::AP2 => spec_scale(2 * spec_compute(DamageSource::AP1, w, s), w.range as int),
        DamageSource::SP1 => w.dps + spec_round_div(s.spell_power as int, 10),
        DamageSource::SP2 => spec_scale(2 * spec_compute(DamageSource::SP1, w, s), w.range as int),
        DamageSource::APSP1 => w.dps + spec_round_div(spec_compute(DamageSource::AP1, w, s), 10)
            + spec_round_div(spec_compute(DamageSource::SP1, w, s), 10),
        DamageSource::APSP2 => 2 * spec_compute(DamageSource::APSP1, w, s),
        DamageSource::cHPm => s.hp * 1_000_000,
        DamageSource::cMPm => s.mp * 1_000_000,
        DamageSource::intHP => s.current_hp * 1_000_000,
        DamageSource::intMP => s.current_mp * 1_000_000,
    }
}

/// Magnitude bounds on the base formulas, from the input bounds.
proof fn lemma_base_compute_bounds(w: Weapon, s: SecondaryStats)
    requires
        spec_damage_inputs_ok(w, s),
    ensures
        -1_200_000_000_000 <= spec_compute(DamageSource::AP1, w, s) <= 1_200_000_000_000,
        -1_200_000_000_000 <= spec_compute(DamageSource::SP1, w, s) <= 1_200_000_000_000,
        -1_500_000_000_000 <= spec_compute(DamageSource::APSP1, w, s) <= 1_500_000_000_000,
{
    lemma_round_div_bound(s.attack_power as int, 10);
    vstd::arithmetic::div_mod::lemma_div_is_ordered(s.attack_power as int, 1_000_000_000_000, 10);
    vstd::arithmetic::div_mod::lemma_div_is_ordered(
        -(s.attack_power as int),
        1_000_000_000_000,
        10,
    );
    lemma_round_div_bound(s.spell_power as int, 10);
    vstd::arithmetic::div_mod::lemma_div_is_ordered(s.spell_power as int, 1_000_000_000_000, 10);
    vstd::arithmetic::div_mod::lemma_div_is_ordered(-(s.spell_power as int), 1_000_000_000_000, 10);
    let ap1 = spec_compute(DamageSource::AP1, w, s);
    let sp1 = spec_compute(DamageSource::SP1, w, s);
    lemma_round_div_bound(ap1, 10);
    vstd::arithmetic::div_mod::lemma_div_is_ordered(ap1, 1_200_000_000_000, 10);
    vstd::arithmetic::div_mod::lemma_div_is_ordered(-ap1, 1_200_000_000_000, 10);
    lemma_round_div_bound(sp1, 10);
    vstd::arithmetic::div_mod::lemma_div_is_ordered(sp1, 1_200_000_000_000, 10);
    vstd::arithmetic::div_mod::lemma_div_is_ordered(-sp1, 1_200_000_000_000, 10);
}

/// A tenth of a fixed-point quantity, rounded.
fn tenth(x: i64) -> (r: i64)
    requires
        -4_000_000_000_000 <= x <= 4_000_000_000_000,
    ensures
        r == spec_round_div(x as int, 10),
        -400_000_000_001 <= r <= 400_000_000_001,
{
    let v: i128 = round_div(x as i128, 10);
    proof {
        lemma_round_div_bound(x as int, 10);
        vstd::arithmetic::div_mod::lemma_div_is_ordered(x as int, 4_000_000_000_000, 10);
        vstd::arithmetic::div_mod::lemma_div_is_ordered(-(x as int), 4_000_000_000_000, 10);
    }
    v as i64
}

impl DamageSource {
    /// Evaluate the formula against a weapon and a stat profile.
    pub fn compute(&self, weapon: &Weapon, stat: &SecondaryStats) -> (r: i64)
        requires
            spec_damage_inputs_ok(*weapon, *stat),
        ensures
            r == spec_compute(*self, *weapon, *stat),
        decreases spec_source_rank(*self),
    {
        match self {
            DamageSource::AP1 => weapon.dps + tenth(stat.attack_power),
            DamageSource::AP2 => {
                let base = DamageSource::AP1.compute(weapon, stat);
                proof {
                    lemma_base_compute_bounds(*weapon, *stat);
                    assert((2 * base) * weapon.range
                        <= (i64::MAX - 1) * 1_000_000 && (2 * base) * weapon.range
                        >= -(i64::MAX - 1) * 1_000_000) by (nonlinear_arith)
                        requires
                            -3_000_000_000_000 <= 2 * base <= 3_000_000_000_000,
                            -1_000_000_000_000 <= weapon.range <= 1_000_000_000_000,
                    ;
                }
                scale(2 * base, weapon.range)
            },
            DamageSource::SP1 => weapon.dps + tenth(stat.spell_power),
            DamageSource::SP2 => {
                let base = DamageSource::SP1.compute(weapon, stat);
                proof {
                    lemma_base_compute_bounds(*weapon, *stat);
                    assert((2 * base) * weapon.range
                        <= (i64::MAX - 1) * 1_000_000 && (2 * base) * weapon.range
                        >= -(i64::MAX - 1) * 1_000_000) by (nonlinear_arith)
                        requires
                            -3_000_000_000_000 <= 2 * base <= 3_000_000_000_000,
                            -1_000_000_000_000 <= weapon.range <= 1_000_000_000_000,
                    ;
                }
                scale(2 * base, weapon.range)
            },
            DamageSource::APSP1 => {
                let ap = DamageSource::AP1.compute(weapon, stat);
                let sp = DamageSource::SP1.compute(weapon, stat);
                weapon.dps + tenth(ap) + tenth(sp)
            },
            DamageSource::APSP2 => {
                let base = DamageSource::APSP1.compute(weapon, stat);
                proof {
                    lemma_base_compute_bounds(*weapon, *stat);
                }
                2 * base
            },
            DamageSource::cHPm => stat.hp as i64 * 1_000_000,
            DamageSource::cMPm => stat.mp as i64 * 1_000_000,
            DamageSource::intHP => stat.current_hp as i64 * 1_000_000,
            DamageSource::intMP => stat.current_mp as i64 * 1_000_000,
        }
    }
}

/// The doubled attack-power source composes exactly: for a weapon whose
/// range is a whole number of units, it is twice the base source times the
/// range.  The doubled spell-power source composes the same way.
pub proof fn lemma_double_composition(w: Weapon, s: SecondaryStats)
    requires
        spec_damage_inputs_ok(w, s),
        w.range % 1_000_000 == 0,
    ensures
        spec_compute(DamageSource::AP2, w, s) == 2 * spec_compute(DamageSource::AP1, w, s) * (
        w.range / 1_000_000),
        spec_compute(DamageSource::SP2, w, s) == 2 * spec_compute(DamageSource::SP1, w, s) * (
        w.range / 1_000_000),
{
    let k = w.range as int / 1_000_000;
    assert(w.range as int == 1_000_000 * k) by {
        vstd::arithmetic::div_mod::lemma_fundamental_div_mod(w.range as int, 1_000_000);
    }
    let ap1 = spec_compute(DamageSource::AP1, w, s);
    let sp1 = spec_compute(DamageSource::SP1, w, s);
    lemma_scale_whole(2 * ap1, k);
    lemma_scale_whole(2 * sp1, k);
    assert(2 * ap1 * (1_000_000 * k) == (2 * ap1 * k) * 1_000_000) by (nonlinear_arith);
    assert(2 * sp1 * (1_000_000 * k) == (2 * sp1 * k) * 1_000_000) by (nonlinear_arith);
}

/// Scaling by a whole number of units is exact multiplication.
proof fn lemma_scale_whole(a: int, k: int)
    ensures
        spec_scale(a, 1_000_000 * k) == a * k,
{
    assert(a * (1_000_000 * k) == (a * k) * 1_000_000) by (nonlinear_arith);
    vstd::arithmetic::div_mod::lemma_mod_multiples_basic(a * k, 1_000_000);
    lemma_round_div_exact((a * k) * 1_000_000, 1_000_000);
    assert(((a * k) * 1_000_000) / 1_000_000 == a * k) by {
        vstd::arithmetic::div_mod::lemma_div_multiples_vanish(a * k, 1_000_000);
        assert(1_000_000 * (a * k) == (a * k) * 1_000_000) by (nonlinear_arith);
    }
}

/// Damage type of a skill.
#[derive(Debug, Clone, Copy, PartialEq, Eq, Structural)]
pub enum Type {
    Physical,
    Magical,
    TrueDamage,
    DamageOverTime,
}

/// Magnitude bound on the percentage channels under which the self
/// modifiers evaluate without overflow: one thousand units.
pub open spec fn spec_modifier_inputs_ok(s: SecondaryStats) -> bool {
    &&& -1_000_000_000 <= s.all_out <= 1_000_000_000
    &&& -1_000_000_000 <= s.phy_out <= 1_000_000_000
    &&& -1_000_000_000 <= s.mag_out <= 1_000_000_000
    &&& -1_000_000_000 <= s.dot_out <= 1_000_000_000
    &&& -1_000_000_000 <= s.crit_mod <= 1_000_000_000
}

/// The crit multiplier the modifiers read: the profile's when the hit
/// crits, a flat hundred otherwise.
pub open spec fn spec_crit_term(s: SecondaryStats, crit: bool) -> int {
    if crit {
        s.crit_mod as int
    } else {
        100_000_000
    }
}

/// The attacker-side multiplier of a damage type, in millionths: the
/// product of the hundredth-scaled channels that apply to it.
pub open spec fn spec_self_modifiers(t: Type, s: SecondaryStats, crit: bool) -> int {
    let c = spec_crit_term(s, crit);
    match t {
        Type::Physical => spec_round_div(
            s.all_out * s.phy_out * c,
            1_000_000_000_000_000_000,
        ),
        Type::Magical => spec_round_div(s.all_out * s.mag_out * c, 1_000_000_000_000_000_000),
        Type::TrueDamage => spec_round_div(c, 100),
        Type::DamageOverTime => spec_round_div(
            s.all_out * s.all_out * s.mag_out * s.dot_out,
            100_000_000_000_000_000_000_000_000,
        ),
    }
}

impl Type {
    /// The attacker-side multiplier applied to this damage type.  True
    /// damage ignores the output channels and keeps only the crit term;
    /// damage over time squares the all-output channel — an acknowledged
    /// approximation in the calculator's rules, kept as stated.
    pub fn self_modifiers(&self, stat: &SecondaryStats, crit: bool) -> (r: i64)
        requires
            spec_modifier_inputs_ok(*stat),
        ensures
            r == spec_self_modifiers(*self, *stat, crit),
    {
        let crit_mod: i64 = if crit {
            stat.crit_mod
        } else {
            100_000_000
        };
        match self {
            Type::Physical => triple_pct(stat.all_out, stat.phy_out, crit_mod),
            Type::Magical => triple_pct(stat.all_out, stat.mag_out, crit_mod),
            Type::TrueDamage => {
                proof {
                    lemma_round_div_bound(crit_mod as int, 100);
                    vstd::arithmetic::div_mod::lemma_div_is_ordered(
                        crit_mod as int,
                        1_000_000_000,
                        100,
                    );
                    vstd::arithmetic::div_mod::lemma_div_is_ordered(
                        -(crit_mod as int),
                        1_000_000_000,
                        100,
                    );
                }
                round_div(crit_mod as i128, 100) as i64
            },
            Type::DamageOverTime => quad_pct(stat.all_out, stat.all_out, stat.mag_out,
                stat.dot_out),
        }
    }
}

/// Product of three hundredth-scaled channels, in millionths.
fn triple_pct(a: i64, b: i64, c: i64) -> (r: i64)
    requires
        -1_000_000_000 <= a <= 1_000_000_000,
        -1_000_000_000 <= b <= 1_000_000_000,
        -1_000_000_000 <= c <= 1_000_000_000,
    ensures
        r == spec_round_div(a * b * c, 1_000_000_000_000_000_000),
{
    proof {
        assert(-1_000_000_000_000_000_000 <= a * b <= 1_000_000_000_000_000_000
            && -1_000_000_000_000_000_000_000_000_000 <= a * b * c
            <= 1_000_000_000_000_000_000_000_000_000) by (nonlinear_arith)
            requires
                -1_000_000_000 <= a <= 1_000_000_000,
                -1_000_000_000 <= b <= 1_000_000_000,
                -1_000_000_000 <= c <= 1_000_000_000,
        ;
    }
    let p: i128 = a as i128 * b as i128 * c as i128;
    let v: i128 = round_div(p, 1_000_000_000_000_000_000);
    proof {
        lemma_round_div_bound(a * b * c, 1_000_000_000_000_000_000);
        vstd::arithmetic::div_mod::lemma_div_is_ordered(
            a * b * c,
            1_000_000_000_000_000_000_000_000_000,
            1_000_000_000_000_000_000,
        );
        vstd::arithmetic::div_mod::lemma_div_is_ordered(
            -(a * b * c),
            1_000_000_000_000_000_000_000_000_000,
            1_000_000_000_000_000_000,
        );
    }
    v as i64
}

/// Product of four hundredth-scaled channels, in millionths.
fn quad_pct(a: i64, b: i64, c: i64, d: i64) -> (r: i64)
    requires
        -1_000_000_000 <= a <= 1_000_000_000,
        -1_000_000_000 <= b <= 1_000_000_000,
        -1_000_000_000 <= c <= 1_000_000_000,
        -1_000_000_000 <= d <= 1_000_000_000,
    ensures
        r == spec_round_div(a * b * c * d, 100_000_000_000_000_000_000_000_000),
{
    proof {
        assert(-1_000_000_000_000_000_000 <= a * b <= 1_000_000_000_000_000_000
            && -1_000_000_000_000_000_000_000_000_000 <= a * b * c
            <= 1_000_000_000_000_000_000_000_000_000
            && -1_000_000_000_000_000_000_000_000_000_000_000_000 <= a * b * c * d
            <= 1_000_000_000_000_000_000_000_000_000_000_000_000) by (nonlinear_arith)
            requires
                -1_000_000_000 <= a <= 1_000_000_000,
                -1_000_000_000 <= b <= 1_000_000_000,
                -1_000_000_000 <= c <= 1_000_000_000,
                -1_000_000_000 <= d <= 1_000_000_000,
        ;
    }
    let p: i128 = a as i128 * b as i128 * c as i128 * d as i128;
    let v: i128 = round_div(p, 100_000_000_000_000_000_000_000_000);
    proof {
        lemma_round_div_bound(a * b * c * d, 100_000_000_000_000_000_000_000_000);
        vstd::arithmetic::div_mod::lemma_div_is_ordered(
            a * b * c * d,
            1_000_000_000_000_000_000_000_000_000_000_000_000,
            100_000_000_000_000_000_000_000_000,
        );
        vstd::arithmetic::div_mod::lemma_div_is_ordered(
            -(a * b * c * d),
            1_000_000_000_000_000_000_000_000_000_000_000_000,
            100_000_000_000_000_000_000_000_000,
        );
    }
    v as i64
}

/// Whom a skill affects.
#[derive(Debug, Clone, Copy, PartialEq, Eq, Structural)]
pub enum Target {
    Yourself,
    Enemy,
    Friendly,
}

/// A forced outcome attached to a skill.
#[derive(Debug, Clone, Copy, PartialEq, Eq, Structural)]
pub enum ForceResult {
    Hit,
    Crit,
}

/// Optional riders of a skill.  `add_crit` is in millionths.
#[derive(Debug, Clone, Copy)]
pub struct Properties {
    pub force_result: Option<ForceResult>,
    pub add_crit: Option<i64>,
    pub mana_back: Option<u32>,
}

/// A skill: its damage source and type, cooldown, mana cost, target and
/// riders.
#[derive(Debug, Clone, Copy)]
pub struct Skill {
    pub dsrc: DamageSource,
    pub damage_type: Type,
    pub cd: u32,
    pub mp: u32,
    pub target: Target,
    pub properties: Properties,
}

} // verus!
