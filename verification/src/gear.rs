//! Gear enhancements and the integer stat-point distribution engine.
//!
//! A piece of gear grants an integer stat-point budget derived from its
//! enhancement level and rarity ("gear stat total"), splits it across the
//! six primary stats according to a named pattern's ratios, and then
//! redistributes the rounding remainder one point at a time over a fixed
//! cyclical stat order until the allocation meets the budget exactly.

use vstd::prelude::*;
use crate::numeric::{lemma_round_div_bound, round_div, spec_round_div};
use crate::player::PrimaryStats;
use crate::text::{chars_eq_str, lower_chars, spec_lower};

verus! {

/// One of the six primary stats.
#[derive(Debug, Clone, Copy, PartialEq, Eq, Hash, Structural)]
pub enum Stat {
    Str,
    End,
    Dex,
    Int,
    Wis,
    Lck,
}

impl Stat {
    /// Three-letter display tag.
    pub fn name(&self) -> (r: &'static str)
        ensures
            r@ == match *self {
                Stat::Str => "STR"@,
                Stat::End => "END"@,
                Stat::Dex => "DEX"@,
                Stat::Int => "INT"@,
                Stat::Wis => "WIS"@,
                Stat::Lck => "LCK"@,
            },
    {
        match self {
            Stat::Str => "STR",
            Stat::End => "END",
            Stat::Dex => "DEX",
            Stat::Int => "INT",
            Stat::Wis => "WIS",
            Stat::Lck => "LCK",
        }
    }
}

/// The fifteen named enhancement patterns.
#[derive(Debug, Clone, Copy, PartialEq, Eq, Hash, Structural)]
pub enum EnhancementPattern {
    Adventurer,
    Fighter,
    Thief,
    Armsman,
    Hybrid,
    Wizard,
    Healer,
    Spellbreaker,
    Lucky,
    Forge,
    Vim,
    Hearty,
    Examen,
    Pneuma,
    Anima,
}

/// A gear enhancement: level, rarity and the selected pattern.
/// The engine's budget formula is defined for levels 1 to 100 and
/// rarities 0 to 6.
#[derive(Debug, Clone)]
pub struct Enhancement {
    pub level: u32,
    pub rarity: u32,
    pub pattern: EnhancementPattern,
}

impl Enhancement {
    /// Build an enhancement from a pattern name; `None` when the name
    /// matches no pattern.
    pub fn new(level: u32, rarity: u32, pattern_id: &str) -> (r: Option<Enhancement>)
        ensures
            r is Some <==> spec_pattern_lookup(spec_lower(pattern_id@)) is Some,
            r matches Some(e) ==> {
                &&& e.level == level
                &&& e.rarity == rarity
                &&& spec_pattern_lookup(spec_lower(pattern_id@)) == Some(e.pattern)
            },
    {
        match EnhancementPattern::from_str(pattern_id) {
            Some(pattern) => Some(Enhancement { level, rarity, pattern }),
            None => None,
        }
    }
}

/// A pattern's row in the ratio table.  Ratios are hundredths of the gear
/// piece's stat-point budget; they need not sum to one hundred and may be
/// negative.
#[derive(Debug, Clone, Copy)]
pub struct PatternRatios {
    pub id: u32,
    pub name: &'static str,
    pub desc: &'static str,
    pub str_ratio: i32,
    pub dex_ratio: i32,
    pub end_ratio: i32,
    pub int_ratio: i32,
    pub wis_ratio: i32,
    pub lck_ratio: i32,
}

/// Numeric id of a pattern.
pub open spec fn spec_pattern_id(p: EnhancementPattern) -> u32 {
    match p {
        EnhancementPattern::Adventurer => 1,
        EnhancementPattern::Fighter => 2,
        EnhancementPattern::Thief => 3,
        EnhancementPattern::Armsman => 4,
        EnhancementPattern::Hybrid => 5,
        EnhancementPattern::Wizard => 6,
        EnhancementPattern::Healer => 7,
        EnhancementPattern::Spellbreaker => 8,
        EnhancementPattern::Lucky => 9,
        EnhancementPattern::Forge => 10,
        EnhancementPattern::Vim => 25,
        EnhancementPattern::Hearty => 32,
        EnhancementPattern::Examen => 26,
        EnhancementPattern::Pneuma => 27,
        EnhancementPattern::Anima => 28,
    }
}

/// Ratio row of a pattern, in hundredths, ordered
/// (strength, dexterity, endurance, intellect, wisdom, luck).
pub open spec fn spec_ratio_row(p: EnhancementPattern) -> (int, int, int, int, int, int) {
    match p {
        EnhancementPattern::Adventurer => (16, 16, 18, 16, 16, 0),
        EnhancementPattern::Fighter => (44, 13, 43, 0, 0, 0),
        EnhancementPattern::Thief => (30, 45, 25, 0, 0, 0),
        EnhancementPattern::Armsman => (38, 36, 26, 0, 0, 0),
        EnhancementPattern::Hybrid => (28, 20, 25, 27, 0, 0),
        EnhancementPattern::Wizard => (0, 0, 10, 50, 20, 20),
        EnhancementPattern::Healer => (0, 0, 40, 45, 15, 0),
        EnhancementPattern::Spellbreaker => (0, 0, 20, 40, 30, 10),
        EnhancementPattern::Lucky => (10, 10, 10, 10, 10, 50),
        EnhancementPattern::Forge => (25, 0, 0, 25, 0, 50),
        EnhancementPattern::Vim => (10, 130, -90, 0, 0, 50),
        EnhancementPattern::Hearty => (-20, -20, 150, -20, -20, -20),
        EnhancementPattern::Examen => (0, 0, -90, 10, 130, 50),
        EnhancementPattern::Pneuma => (24, 24, -90, 118, 24, 0),
        EnhancementPattern::Anima => (134, 24, -90, 16, 16, 0),
    }
}

/// The lowercase name a pattern token must match.
pub open spec fn spec_pattern_key(p: EnhancementPattern) -> Seq<char> {
    match p {
        EnhancementPattern::Adventurer => "adventurer"@,
        EnhancementPattern::Fighter => "fighter"@,
        EnhancementPattern::Thief => "thief"@,
        EnhancementPattern::Armsman => "armsman"@,
        EnhancementPattern::Hybrid => "hybrid"@,
        EnhancementPattern::Wizard => "wizard"@,
        EnhancementPattern::Healer => "healer"@,
        EnhancementPattern::Spellbreaker => "spellbreaker"@,
        EnhancementPattern::Lucky => "lucky"@,
        EnhancementPattern::Forge => "forge"@,
        EnhancementPattern::Vim => "vim"@,
        EnhancementPattern::Hearty => "hearty"@,
        EnhancementPattern::Examen => "examen"@,
        EnhancementPattern::Pneuma => "pneuma"@,
        EnhancementPattern::Anima => "anima"@,
    }
}

/// Pattern lookup by lowercased token.
pub open spec fn spec_pattern_lookup(t: Seq<char>) -> Option<EnhancementPattern> {
    if t == spec_pattern_key(EnhancementPattern::Adventurer) {
        Some(EnhancementPattern::Adventurer)
    } else if t == spec_pattern_key(EnhancementPattern::Fighter) {
        Some(EnhancementPattern::Fighter)
    } else if t == spec_pattern_key(EnhancementPattern::Thief) {
        Some(EnhancementPattern::Thief)
    } else if t == spec_pattern_key(EnhancementPattern::Armsman) {
        Some(EnhancementPattern::Armsman)
    } else if t == spec_pattern_key(EnhancementPattern::Hybrid) {
        Some(EnhancementPattern::Hybrid)
    } else if t == spec_pattern_key(EnhancementPattern::Wizard) {
        Some(EnhancementPattern::Wizard)
    } else if t == spec_pattern_key(EnhancementPattern::Healer) {
        Some(EnhancementPattern::Healer)
    } else if t == spec_pattern_key(EnhancementPattern::Spellbreaker) {
        Some(EnhancementPattern::Spellbreaker)
    } else if t == spec_pattern_key(EnhancementPattern::Lucky) {
        Some(EnhancementPattern::Lucky)
    } else if t == spec_pattern_key(EnhancementPattern::Forge) {
        Some(EnhancementPattern::Forge)
    } else if t == spec_pattern_key(EnhancementPattern::Vim) {
        Some(EnhancementPattern::Vim)
    } else if t == spec_pattern_key(EnhancementPattern::Hearty) {
        Some(EnhancementPattern::Hearty)
    } else if t == spec_pattern_key(EnhancementPattern::Examen) {
        Some(EnhancementPattern::Examen)
    } else if t == spec_pattern_key(EnhancementPattern::Pneuma) {
        Some(EnhancementPattern::Pneuma)
    } else if t == spec_pattern_key(EnhancementPattern::Anima) {
        Some(EnhancementPattern::Anima)
    } else {
        None
    }
}

/// Numeric id lookup.
pub open spec fn spec_from_id(id: u32) -> Option<EnhancementPattern> {
    if id == 1 {
        Some(EnhancementPattern::Adventurer)
    } else if id == 2 {
        Some(EnhancementPattern::Fighter)
    } else if id == 3 {
        Some(EnhancementPattern::Thief)
    } else if id == 4 {
        Some(EnhancementPattern::Armsman)
    } else if id == 5 {
        Some(EnhancementPattern::Hybrid)
    } else if id == 6 {
        Some(EnhancementPattern::Wizard)
    } else if id == 7 {
        Some(EnhancementPattern::Healer)
    } else if id == 8 {
        Some(EnhancementPattern::Spellbreaker)
    } else if id == 9 {
        Some(EnhancementPattern::Lucky)
    } else if id == 10 {
        Some(EnhancementPattern::Forge)
    } else if id == 25 {
        Some(EnhancementPattern::Vim)
    } else if id == 32 {
        Some(EnhancementPattern::Hearty)
    } else if id == 26 {
        Some(EnhancementPattern::Examen)
    } else if id == 27 {
        Some(EnhancementPattern::Pneuma)
    } else if id == 28 {
        Some(EnhancementPattern::Anima)
    } else {
        None
    }
}

impl EnhancementPattern {
    /// The pattern's row in the ratio table.
    pub fn ratios(&self) -> (r: PatternRatios)
        ensures
            r.id == spec_pattern_id(*self),
            (
                r.str_ratio as int,
                r.dex_ratio as int,
                r.end_ratio as int,
                r.int_ratio as int,
                r.wis_ratio as int,
                r.lck_ratio as int,
            ) == spec_ratio_row(*self),
            spec_lower(r.name@) == spec_pattern_key(*self),
    {
        match self {
            EnhancementPattern::Adventurer => {
                proof {
                    reveal_strlit("Adventurer");
                    reveal_strlit("adventurer");
                    assert(spec_lower("Adventurer"@) =~= "adventurer"@);
                }
                PatternRatios {
                    id: 1,
                    name: "Adventurer",
                    desc: "none",
                    str_ratio: 16,
                    dex_ratio: 16,
                    end_ratio: 18,
                    int_ratio: 16,
                    wis_ratio: 16,
                    lck_ratio: 0,
                }
            },
            EnhancementPattern::Fighter => {
                proof {
                    reveal_strlit("Fighter");
                    reveal_strlit("fighter");
                    assert(spec_lower("Fighter"@) =~= "fighter"@);
                }
                PatternRatios {
                    id: 2,
                    name: "Fighter",
                    desc: "M1",
                    str_ratio: 44,
                    dex_ratio: 13,
                    end_ratio: 43,
                    int_ratio: 0,
                    wis_ratio: 0,
                    lck_ratio: 0,
                }
            },
            EnhancementPattern::Thief => {
                proof {
                    reveal_strlit("Thief");
                    reveal_strlit("thief");
                    assert(spec_lower("Thief"@) =~= "thief"@);
                }
                PatternRatios {
                    id: 3,
                    name: "Thief",
                    desc: "M2",
                    str_ratio: 30,
                    dex_ratio: 45,
                    end_ratio: 25,
                    int_ratio: 0,
                    wis_ratio: 0,
                    lck_ratio: 0,
                }
            },
            EnhancementPattern::Armsman => {
                proof {
                    reveal_strlit("Armsman");
                    reveal_strlit("armsman");
                    assert(spec_lower("Armsman"@) =~= "armsman"@);
                }
                PatternRatios {
                    id: 4,
                    name: "Armsman",
                    desc: "M4",
                    str_ratio: 38,
                    dex_ratio: 36,
                    end_ratio: 26,
                    int_ratio: 0,
                    wis_ratio: 0,
                    lck_ratio: 0,
                }
            },
            EnhancementPattern::Hybrid => {
                proof {
                    reveal_strlit("Hybrid");
                    reveal_strlit("hybrid");
                    assert(spec_lower("Hybrid"@) =~= "hybrid"@);
                }
                PatternRatios {
                    id: 5,
                    name: "Hybrid",
                    desc: "M3",
                    str_ratio: 28,
                    dex_ratio: 20,
                    end_ratio: 25,
                    int_ratio: 27,
                    wis_ratio: 0,
                    lck_ratio: 0,
                }
            },
            EnhancementPattern::Wizard => {
                proof {
                    reveal_strlit("Wizard");
                    reveal_strlit("wizard");
                    assert(spec_lower("Wizard"@) =~= "wizard"@);
                }
                PatternRatios {
                    id: 6,
                    name: "Wizard",
                    desc: "C1",
                    str_ratio: 0,
                    dex_ratio: 0,
                    end_ratio: 10,
                    int_ratio: 50,
                    wis_ratio: 20,
                    lck_ratio: 20,
                }
            },
            EnhancementPattern::Healer => {
                proof {
                    reveal_strlit("Healer");
                    reveal_strlit("healer");
                    assert(spec_lower("Healer"@) =~= "healer"@);
                }
                PatternRatios {
                    id: 7,
                    name: "Healer",
                    desc: "C2",
                    str_ratio: 0,
                    dex_ratio: 0,
                    end_ratio: 40,
                    int_ratio: 45,
                    wis_ratio: 15,
                    lck_ratio: 0,
                }
            },
            EnhancementPattern::Spellbreaker => {
                proof {
                    reveal_strlit("Spellbreaker");
                    reveal_strlit("spellbreaker");
                    assert(spec_lower("Spellbreaker"@) =~= "spellbreaker"@);
                }
                PatternRatios {
                    id: 8,
                    name: "Spellbreaker",
                    desc: "C3",
                    str_ratio: 0,
                    dex_ratio: 0,
                    end_ratio: 20,
                    int_ratio: 40,
                    wis_ratio: 30,
                    lck_ratio: 10,
                }
            },
            EnhancementPattern::Lucky => {
                proof {
                    reveal_strlit("Lucky");
                    reveal_strlit("lucky");
                    assert(spec_lower("Lucky"@) =~= "lucky"@);
                }
                PatternRatios {
                    id: 9,
                    name: "Lucky",
                    desc: "S1",
                    str_ratio: 10,
                    dex_ratio: 10,
                    end_ratio: 10,
                    int_ratio: 10,
                    wis_ratio: 10,
                    lck_ratio: 50,
                }
            },
            EnhancementPattern::Forge => {
                proof {
                    reveal_strlit("Forge");
                    reveal_strlit("forge");
                    assert(spec_lower("Forge"@) =~= "forge"@);
                }
                PatternRatios {
                    id: 10,
                    name: "Forge",
                    desc: "Blacksmith",
                    str_ratio: 25,
                    dex_ratio: 0,
                    end_ratio: 0,
                    int_ratio: 25,
                    wis_ratio: 0,
                    lck_ratio: 50,
                }
            },
            EnhancementPattern::Vim => {
                proof {
                    reveal_strlit("Vim");
                    reveal_strlit("vim");
                    assert(spec_lower("Vim"@) =~= "vim"@);
                }
                PatternRatios {
                    id: 25,
                    name: "Vim",
                    desc: "SmithP2",
                    str_ratio: 10,
                    dex_ratio: 130,
                    end_ratio: -90,
                    int_ratio: 0,
                    wis_ratio: 0,
                    lck_ratio: 50,
                }
            },
            EnhancementPattern::Hearty => {
                proof {
                    reveal_strlit("Hearty");
                    reveal_strlit("hearty");
                    assert(spec_lower("Hearty"@) =~= "hearty"@);
                }
                PatternRatios {
                    id: 32,
                    name: "Hearty",
                    desc: "Grimskull Troll Enhancement",
                    str_ratio: -20,
                    dex_ratio: -20,
                    end_ratio: 150,
                    int_ratio: -20,
                    wis_ratio: -20,
                    lck_ratio: -20,
                }
            },
            EnhancementPattern::Examen => {
                proof {
                    reveal_strlit("Examen");
                    reveal_strlit("examen");
                    assert(spec_lower("Examen"@) =~= "examen"@);
                }
                PatternRatios {
                    id: 26,
                    name: "Examen",
                    desc: "SmithP2",
                    str_ratio: 0,
                    dex_ratio: 0,
                    end_ratio: -90,
                    int_ratio: 10,
                    wis_ratio: 130,
                    lck_ratio: 50,
                }
            },
            EnhancementPattern::Pneuma => {
                proof {
                    reveal_strlit("Pneuma");
                    reveal_strlit("pneuma");
                    assert(spec_lower("Pneuma"@) =~= "pneuma"@);
                }
                PatternRatios {
                    id: 27,
                    name: "Pneuma",
                    desc: "SmithP2",
                    str_ratio: 24,
                    dex_ratio: 24,
                    end_ratio: -90,
                    int_ratio: 118,
                    wis_ratio: 24,
                    lck_ratio: 0,
                }
            },
            EnhancementPattern::Anima => {
                proof {
                    reveal_strlit("Anima");
                    reveal_strlit("anima");
                    assert(spec_lower("Anima"@) =~= "anima"@);
                }
                PatternRatios {
                    id: 28,
                    name: "Anima",
                    desc: "SmithP2",
                    str_ratio: 134,
                    dex_ratio: 24,
                    end_ratio: -90,
                    int_ratio: 16,
                    wis_ratio: 16,
                    lck_ratio: 0,
                }
            },
        }
    }

    /// Pattern lookup by numeric id; `None` for an unknown id.
    pub fn from_id(id: u32) -> (r: Option<EnhancementPattern>)
        ensures
            r == spec_from_id(id),
    {
        match id {
            1 => Some(EnhancementPattern::Adventurer),
            2 => Some(EnhancementPattern::Fighter),
            3 => Some(EnhancementPattern::Thief),
            4 => Some(EnhancementPattern::Armsman),
            5 => Some(EnhancementPattern::Hybrid),
            6 => Some(EnhancementPattern::Wizard),
            7 => Some(EnhancementPattern::Healer),
            8 => Some(EnhancementPattern::Spellbreaker),
            9 => Some(EnhancementPattern::Lucky),
            10 => Some(EnhancementPattern::Forge),
            25 => Some(EnhancementPattern::Vim),
            32 => Some(EnhancementPattern::Hearty),
            26 => Some(EnhancementPattern::Examen),
            27 => Some(EnhancementPattern::Pneuma),
            28 => Some(EnhancementPattern::Anima),
            _ => None,
        }
    }

    /// Pattern lookup by name, insensitive to ASCII case; `None` for an
    /// unknown name.
    pub fn from_str(s: &str) -> (r: Option<EnhancementPattern>)
        ensures
            r == spec_pattern_lookup(spec_lower(s@)),
    {
        let key = lower_chars(s);
        if chars_eq_str(&key, "adventurer") {
            Some(EnhancementPattern::Adventurer)
        } else if chars_eq_str(&key, "fighter") {
            Some(EnhancementPattern::Fighter)
        } else if chars_eq_str(&key, "thief") {
            Some(EnhancementPattern::Thief)
        } else if chars_eq_str(&key, "armsman") {
            Some(EnhancementPattern::Armsman)
        } else if chars_eq_str(&key, "hybrid") {
            Some(EnhancementPattern::Hybrid)
        } else if chars_eq_str(&key, "wizard") {
            Some(EnhancementPattern::Wizard)
        } else if chars_eq_str(&key, "healer") {
            Some(EnhancementPattern::Healer)
        } else if chars_eq_str(&key, "spellbreaker") {
            Some(EnhancementPattern::Spellbreaker)
        } else if chars_eq_str(&key, "lucky") {
            Some(EnhancementPattern::Lucky)
        } else if chars_eq_str(&key, "forge") {
            Some(EnhancementPattern::Forge)
        } else if chars_eq_str(&key, "vim") {
            Some(EnhancementPattern::Vim)
        } else if chars_eq_str(&key, "hearty") {
            Some(EnhancementPattern::Hearty)
        } else if chars_eq_str(&key, "examen") {
            Some(EnhancementPattern::Examen)
        } else if chars_eq_str(&key, "pneuma") {
            Some(EnhancementPattern::Pneuma)
        } else if chars_eq_str(&key, "anima") {
            Some(EnhancementPattern::Anima)
        } else {
            None
        }
    }
}

/// Id lookup inverts the id table: every pattern's id resolves back to the
/// pattern itself.
pub proof fn lemma_pattern_id_round_trip(p: EnhancementPattern)
    ensures
        spec_from_id(spec_pattern_id(p)) == Some(p),
{
}

/// Name lookup inverts the name table: every pattern's lowercase name
/// resolves back to the pattern itself, so an enhancement built from a
/// pattern's canonical name re-derives that pattern.
#[verifier::rlimit(100)]
#[verifier::spinoff_prover]
pub proof fn lemma_pattern_name_round_trip(p: EnhancementPattern)
    ensures
        spec_pattern_lookup(spec_pattern_key(p)) == Some(p),
{
    broadcast use vstd::string::group_string_axioms;

    reveal_strlit("adventurer");
    reveal_strlit("fighter");
    reveal_strlit("thief");
    reveal_strlit("armsman");
    reveal_strlit("hybrid");
    reveal_strlit("wizard");
    reveal_strlit("healer");
    reveal_strlit("spellbreaker");
    reveal_strlit("lucky");
    reveal_strlit("forge");
    reveal_strlit("vim");
    reveal_strlit("hearty");
    reveal_strlit("examen");
    reveal_strlit("pneuma");
    reveal_strlit("anima");
    assert("adventurer"@.len() == 10);
    assert("fighter"@.len() == 7);
    assert("thief"@.len() == 5);
    assert("armsman"@.len() == 7);
    assert("hybrid"@.len() == 6);
    assert("wizard"@.len() == 6);
    assert("healer"@.len() == 6);
    assert("spellbreaker"@.len() == 12);
    assert("lucky"@.len() == 5);
    assert("forge"@.len() == 5);
    assert("vim"@.len() == 3);
    assert("hearty"@.len() == 6);
    assert("examen"@.len() == 6);
    assert("pneuma"@.len() == 6);
    assert("anima"@.len() == 5);
    assert("adventurer"@[0] == 'a');
    assert("fighter"@[0] == 'f');
    assert("thief"@[0] == 't');
    assert("armsman"@[0] == 'a');
    assert("hybrid"@[0] == 'h');
    assert("wizard"@[0] == 'w');
    assert("healer"@[0] == 'h');
    assert("spellbreaker"@[0] == 's');
    assert("lucky"@[0] == 'l');
    assert("forge"@[0] == 'f');
    assert("vim"@[0] == 'v');
    assert("hearty"@[0] == 'h');
    assert("examen"@[0] == 'e');
    assert("pneuma"@[0] == 'p');
    assert("anima"@[0] == 'a');
    assert("hybrid"@[1] == 'y');
    assert("healer"@[1] == 'e');
    assert("hearty"@[1] == 'e');
    assert("healer"@[3] == 'l');
    assert("hearty"@[3] == 'r');
}

/// The four equipment positions.
#[derive(Debug, Clone, Copy, PartialEq, Eq, Hash, Structural)]
pub enum GearSlot {
    Helm,
    Armor,
    Cape,
    Weapon,
}

/// A slot's share of the enhancement budget, in hundredths.
pub open spec fn spec_slot_ratio(slot: GearSlot) -> int {
    match slot {
        GearSlot::Helm => 25,
        GearSlot::Armor => 25,
        GearSlot::Cape => 20,
        GearSlot::Weapon => 33,
    }
}

/// Slot lookup by lowercased token.
pub open spec fn spec_slot_lookup(t: Seq<char>) -> Option<GearSlot> {
    if t == "he"@ || t == "helm"@ {
        Some(GearSlot::Helm)
    } else if t == "ar"@ || t == "armor"@ {
        Some(GearSlot::Armor)
    } else if t == "ba"@ || t == "cape"@ || t == "back"@ {
        Some(GearSlot::Cape)
    } else if t == "we"@ || t == "weapon"@ {
        Some(GearSlot::Weapon)
    } else {
        None
    }
}

impl GearSlot {
    /// The slot's share of the enhancement budget, in hundredths.
    pub fn ratio(&self) -> (r: i64)
        ensures
            r == spec_slot_ratio(*self),
    {
        match self {
            GearSlot::Helm => 25,
            GearSlot::Armor => 25,
            GearSlot::Cape => 20,
            GearSlot::Weapon => 33,
        }
    }

    /// Slot lookup by short or long name, insensitive to ASCII case.
    pub fn from_str(s: &str) -> (r: Option<GearSlot>)
        ensures
            r == spec_slot_lookup(spec_lower(s@)),
    {
        let key = lower_chars(s);
        if chars_eq_str(&key, "he") || chars_eq_str(&key, "helm") {
            Some(GearSlot::Helm)
        } else if chars_eq_str(&key, "ar") || chars_eq_str(&key, "armor") {
            Some(GearSlot::Armor)
        } else if chars_eq_str(&key, "ba") || chars_eq_str(&key, "cape") || chars_eq_str(
            &key,
            "back",
        ) {
            Some(GearSlot::Cape)
        } else if chars_eq_str(&key, "we") || chars_eq_str(&key, "weapon") {
            Some(GearSlot::Weapon)
        } else {
            None
        }
    }
}

/// Working record for a gear piece's six allocations.
#[derive(Debug, Clone, PartialEq, Eq, Structural)]
pub struct StatBlock {
    pub str_stat: i32,
    pub end_stat: i32,
    pub dex_stat: i32,
    pub int_stat: i32,
    pub wis_stat: i32,
    pub lck_stat: i32,
}

/// The block's allocations as a sequence in the distribution order
/// (endurance, strength, intellect, dexterity, wisdom, luck).
pub open spec fn spec_block_view(b: StatBlock) -> Seq<int> {
    seq![
        b.end_stat as int,
        b.str_stat as int,
        b.int_stat as int,
        b.dex_stat as int,
        b.wis_stat as int,
        b.lck_stat as int,
    ]
}

/// Sum of a six-element allocation.
pub open spec fn spec_sum6(s: Seq<int>) -> int
    recommends
        s.len() == 6,
{
    s[0] + s[1] + s[2] + s[3] + s[4] + s[5]
}

impl StatBlock {
    /// The all-zero allocation.
    pub fn new() -> (r: StatBlock)
        ensures
            r == (StatBlock {
                str_stat: 0,
                end_stat: 0,
                dex_stat: 0,
                int_stat: 0,
                wis_stat: 0,
                lck_stat: 0,
            }),
    {
        StatBlock { str_stat: 0, end_stat: 0, dex_stat: 0, int_stat: 0, wis_stat: 0, lck_stat: 0 }
    }

    /// Total points the block allocates.
    pub fn sum(&self) -> (r: i32)
        requires
            i32::MIN <= spec_sum6(spec_block_view(*self)) <= i32::MAX,
        ensures
            r == spec_sum6(spec_block_view(*self)),
    {
        (self.str_stat as i64 + self.end_stat as i64 + self.dex_stat as i64 + self.int_stat as i64
            + self.wis_stat as i64 + self.lck_stat as i64) as i32
    }

    /// The allocation as a primary-stat record.
    pub fn to_primary_stats(&self) -> (r: PrimaryStats)
        ensures
            r == (PrimaryStats {
                strength: self.str_stat,
                endurance: self.end_stat,
                dexterity: self.dex_stat,
                intellect: self.int_stat,
                wisdom: self.wis_stat,
                luck: self.lck_stat,
            }),
    {
        PrimaryStats {
            strength: self.str_stat,
            endurance: self.end_stat,
            dexterity: self.dex_stat,
            intellect: self.int_stat,
            wisdom: self.wis_stat,
            luck: self.lck_stat,
        }
    }
}

/// The gear-stat-total budget for a level and rarity: a base of twelve plus
/// a linear level-and-rarity term, rounded to the nearest point.
pub open spec fn spec_gst_total(level: u32, rarity: u32) -> int
    recommends
        1 <= level + rarity,
{
    12 + spec_round_div(560 * (level + rarity - 1), 99)
}

/// Gear-stat-total budget.  The formula is the documented one for levels 1
/// to 100 and rarities 0 to 6.
pub fn gst_total(level: u32, rarity: u32) -> (r: i64)
    requires
        1 <= level <= 100,
        rarity <= 6,
    ensures
        r == spec_gst_total(level, rarity),
        12 <= r <= 607,
{
    let t: i128 = (level + rarity - 1) as i128;
    let rounded: i128 = round_div(560 * t, 99);
    proof {
        lemma_round_div_bound(560 * (level + rarity - 1), 99);
        vstd::arithmetic::div_mod::lemma_div_is_ordered(560 * (level + rarity - 1), 58800int, 99);
    }
    12 + rounded as i64
}

/// A single point granted at a position of the distribution order.
pub open spec fn spec_bump(s: Seq<int>, idx: int) -> Seq<int>
    recommends
        s.len() == 6,
        0 <= idx < 6,
{
    s.update(idx, s[idx] + 1)
}

/// `k` points granted one at a time, cycling through the distribution
/// order starting at `idx`.
pub open spec fn spec_distribute(s: Seq<int>, k: nat, idx: int) -> Seq<int>
    recommends
        s.len() == 6,
        0 <= idx < 6,
    decreases k,
{
    if k == 0 {
        s
    } else {
        spec_distribute(spec_bump(s, idx), (k - 1) as nat, (idx + 1) % 6)
    }
}

/// Distributing `k` points raises the total by exactly `k`.
pub proof fn lemma_distribute_sum(s: Seq<int>, k: nat, idx: int)
    requires
        s.len() == 6,
        0 <= idx < 6,
    ensures
        spec_distribute(s, k, idx).len() == 6,
        spec_sum6(spec_distribute(s, k, idx)) == spec_sum6(s) + k,
    decreases k,
{
    if k != 0 {
        lemma_distribute_sum(spec_bump(s, idx), (k - 1) as nat, (idx + 1) % 6);
    }
}

/// The exact integer stat-point budget of one gear piece.
pub open spec fn spec_gear_budget(e: Enhancement, slot: GearSlot) -> int {
    spec_round_div(spec_gst_total(e.level, e.rarity) * spec_slot_ratio(slot), 100)
}

/// The provisional per-stat allocations: the budget share of each ratio,
/// rounded to the nearest point, in the distribution order.
pub open spec fn spec_provisional(e: Enhancement, slot: GearSlot) -> Seq<int> {
    let b = spec_gear_budget(e, slot);
    let (str_r, dex_r, end_r, int_r, wis_r, lck_r) = spec_ratio_row(e.pattern);
    seq![
        spec_round_div(b * end_r, 100),
        spec_round_div(b * str_r, 100),
        spec_round_div(b * int_r, 100),
        spec_round_div(b * dex_r, 100),
        spec_round_div(b * wis_r, 100),
        spec_round_div(b * lck_r, 100),
    ]
}

/// The final allocation: the provisional shares, with the remainder below
/// the budget granted point by point over the distribution order.  When the
/// provisional shares already meet or exceed the budget no point is granted.
pub open spec fn spec_gear_stats(e: Enhancement, slot: GearSlot) -> Seq<int> {
    let b = spec_gear_budget(e, slot);
    let p = spec_provisional(e, slot);
    let total = spec_sum6(p);
    if total < b {
        spec_distribute(p, (b - total) as nat, 0)
    } else {
        p
    }
}

/// The points a gear piece grants to each primary stat.
pub fn get_stats(enh: &Enhancement, slot: GearSlot) -> (r: PrimaryStats)
    requires
        1 <= enh.level <= 100,
        enh.rarity <= 6,
    ensures
        ({
            let g = spec_gear_stats(*enh, slot);
            &&& r.endurance == g[0]
            &&& r.strength == g[1]
            &&& r.intellect == g[2]
            &&& r.dexterity == g[3]
            &&& r.wisdom == g[4]
            &&& r.luck == g[5]
        }),
{
    let ghost target: Seq<int> = spec_gear_stats(*enh, slot);
    let gst_total_val: i64 = gst_total(enh.level, enh.rarity);
    let slot_ratio: i64 = slot.ratio();
    proof {
        assert(0 <= gst_total_val as int * spec_slot_ratio(slot) <= 607 * 33) by (nonlinear_arith)
            requires
                12 <= gst_total_val <= 607,
                20 <= spec_slot_ratio(slot) <= 33,
        ;
    }
    let budget128: i128 = round_div(gst_total_val as i128 * slot_ratio as i128, 100);
    proof {
        lemma_round_div_bound(gst_total_val as int * spec_slot_ratio(slot), 100);
        vstd::arithmetic::div_mod::lemma_div_is_ordered(
            gst_total_val as int * spec_slot_ratio(slot),
            (607 * 33) as int,
            100,
        );
    }
    let gear_stat_total: i32 = budget128 as i32;

    let ratios = enh.pattern.ratios();

    let str_stat: i32 = prov_share(gear_stat_total, ratios.str_ratio);
    let dex_stat: i32 = prov_share(gear_stat_total, ratios.dex_ratio);
    let end_stat: i32 = prov_share(gear_stat_total, ratios.end_ratio);
    let int_stat: i32 = prov_share(gear_stat_total, ratios.int_ratio);
    let wis_stat: i32 = prov_share(gear_stat_total, ratios.wis_ratio);
    let lck_stat: i32 = prov_share(gear_stat_total, ratios.lck_ratio);
    let mut stats = StatBlock { str_stat, dex_stat, end_stat, int_stat, wis_stat, lck_stat };
    proof {
        assert(spec_block_view(stats) =~= spec_provisional(*enh, slot));
    }

    let mut other_count: i32 = stats.sum();

    let mut index: usize = 0;
    while other_count < gear_stat_total
        invariant
            0 <= gear_stat_total <= 205,
            index < 6,
            spec_block_view(stats).len() == 6,
            other_count == spec_sum6(spec_block_view(stats)),
            forall|i: int| 0 <= i < 6 ==> spec_block_view(stats)[i] >= -400,
            if other_count < gear_stat_total {
                spec_distribute(
                    spec_block_view(stats),
                    (gear_stat_total - other_count) as nat,
                    index as int,
                ) == target
            } else {
                spec_block_view(stats) == target
            },
        decreases gear_stat_total - other_count,
    {
        let ghost before: Seq<int> = spec_block_view(stats);
        let ghost k: int = gear_stat_total - other_count;
        match index {
            0 => stats.end_stat = stats.end_stat + 1,
            1 => stats.str_stat = stats.str_stat + 1,
            2 => stats.int_stat = stats.int_stat + 1,
            3 => stats.dex_stat = stats.dex_stat + 1,
            4 => stats.wis_stat = stats.wis_stat + 1,
            _ => stats.lck_stat = stats.lck_stat + 1,
        }
        proof {
            assert(spec_block_view(stats) =~= spec_bump(before, index as int));
            assert(spec_distribute(before, k as nat, index as int) == spec_distribute(
                spec_bump(before, index as int),
                (k - 1) as nat,
                (index as int + 1) % 6,
            ));
        }
        other_count = other_count + 1;

        index = index + 1;
        if index >= 6 {
            index = 0;
        }
    }

    stats.to_primary_stats()
}

/// One ratio's rounded share of a gear piece's budget.
fn prov_share(budget: i32, ratio: i32) -> (r: i32)
    requires
        0 <= budget <= 205,
        -100 <= ratio <= 160,
    ensures
        r == spec_round_div(budget * ratio, 100),
        -400 <= r <= 400,
{
    proof {
        assert(-100 * 205 <= budget * ratio <= 160 * 205) by (nonlinear_arith)
            requires
                0 <= budget <= 205,
                -100 <= ratio <= 160,
        ;
    }
    let v: i128 = round_div(budget as i128 * ratio as i128, 100);
    proof {
        lemma_round_div_bound(budget * ratio, 100);
        vstd::arithmetic::div_mod::lemma_div_is_ordered(budget * ratio, (160 * 205) as int, 100);
        vstd::arithmetic::div_mod::lemma_div_is_ordered(-(budget * ratio), (100 * 205) as int, 100);
    }
    v as i32
}

/// Whenever the provisional shares do not exceed the budget, the final
/// allocation sums to the budget exactly: the redistribution loop closes
/// the rounding gap to zero.
pub proof fn lemma_gear_budget_met(e: Enhancement, slot: GearSlot)
    requires
        spec_sum6(spec_provisional(e, slot)) <= spec_gear_budget(e, slot),
    ensures
        spec_sum6(spec_gear_stats(e, slot)) == spec_gear_budget(e, slot),
{
    let b = spec_gear_budget(e, slot);
    let p = spec_provisional(e, slot);
    if spec_sum6(p) < b {
        lemma_distribute_sum(p, (b - spec_sum6(p)) as nat, 0);
    }
}

} // verus!
