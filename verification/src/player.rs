//! Class archetypes, primary attributes and the player record.

use vstd::prelude::*;
use crate::error::BackendError;
use crate::numeric::{
    lemma_round_div_bound, round_div, scale, spec_round_div, spec_scale, MICRO,
};
use crate::text::{chars_eq_str, normalize_chars, spec_normalize};

verus! {

/// Highest reachable character level.
pub const MAX_LEVEL: u32 = 100;

/// Hit-point gain applied at the level cap.
pub const X_FACTOR: u32 = 1640;

/// The eight class archetypes.  Each carries, as pure functions of the
/// player's efficiency scalar and primary stats, a full set of
/// secondary-stat conversion rules.
#[derive(Debug, Clone, Copy, PartialEq, Eq, Structural)]
pub enum ClassModel {
    TankMelee,
    DodgeMelee,
    PowerMelee,
    OffensiveCaster,
    DefensiveCaster,
    PowerCaster,
    FullHybrid,
    LuckHybrid,
}

/// The normalized key a class name must match: its canonical display string
/// lowercased with separators removed.
pub open spec fn spec_class_key(m: ClassModel) -> Seq<char> {
    match m {
        ClassModel::TankMelee => "tankmelee"@,
        ClassModel::DodgeMelee => "dodgemelee"@,
        ClassModel::PowerMelee => "powermelee"@,
        ClassModel::OffensiveCaster => "offensivecaster"@,
        ClassModel::DefensiveCaster => "defensivecaster"@,
        ClassModel::PowerCaster => "powercaster"@,
        ClassModel::FullHybrid => "fullhybrid"@,
        ClassModel::LuckHybrid => "luckhybrid"@,
    }
}

/// The share of the level total each primary stat receives, in hundredths,
/// ordered (strength, intellect, dexterity, endurance, wisdom, luck).
pub open spec fn spec_level_stat_row(m: ClassModel) -> (int, int, int, int, int, int) {
    match m {
        ClassModel::TankMelee => (27, 5, 22, 30, 10, 6),
        ClassModel::DodgeMelee => (20, 5, 33, 22, 10, 10),
        ClassModel::PowerMelee => (30, 2, 30, 18, 6, 14),
        ClassModel::OffensiveCaster => (6, 33, 11, 20, 15, 15),
        ClassModel::DefensiveCaster => (8, 30, 10, 27, 10, 15),
        ClassModel::PowerCaster => (6, 28, 5, 23, 28, 10),
        ClassModel::FullHybrid => (24, 24, 20, 20, 7, 5),
        ClassModel::LuckHybrid => (22, 8, 21, 18, 8, 23),
    }
}

/// Class lookup by normalized key.
pub open spec fn spec_class_lookup(t: Seq<char>) -> Option<ClassModel> {
    if t == spec_class_key(ClassModel::TankMelee) {
        Some(ClassModel::TankMelee)
    } else if t == spec_class_key(ClassModel::DodgeMelee) {
        Some(ClassModel::DodgeMelee)
    } else if t == spec_class_key(ClassModel::PowerMelee) {
        Some(ClassModel::PowerMelee)
    } else if t == spec_class_key(ClassModel::OffensiveCaster) {
        Some(ClassModel::OffensiveCaster)
    } else if t == spec_class_key(ClassModel::DefensiveCaster) {
        Some(ClassModel::DefensiveCaster)
    } else if t == spec_class_key(ClassModel::PowerCaster) {
        Some(ClassModel::PowerCaster)
    } else if t == spec_class_key(ClassModel::LuckHybrid) {
        Some(ClassModel::LuckHybrid)
    } else if t == spec_class_key(ClassModel::FullHybrid) {
        Some(ClassModel::FullHybrid)
    } else {
        None
    }
}

impl ClassModel {
    /// Parse a free-form class name: matching is insensitive to case and to
    /// space, hyphen and underscore separators.  An unmatched input fails
    /// with `InvalidClassModel` carrying the raw string.
    pub fn from_str(s: &str) -> (r: Result<ClassModel, BackendError>)
        ensures
            r matches Ok(m) ==> spec_class_lookup(spec_normalize(s@)) == Some(m),
            r is Err ==> spec_class_lookup(spec_normalize(s@)) is None,
            r matches Err(e) ==> (e matches BackendError::InvalidClassModel(raw)
                && raw@ == s@),
    {
        let key = normalize_chars(s);
        if chars_eq_str(&key, "tankmelee") {
            Ok(ClassModel::TankMelee)
        } else if chars_eq_str(&key, "dodgemelee") {
            Ok(ClassModel::DodgeMelee)
        } else if chars_eq_str(&key, "powermelee") {
            Ok(ClassModel::PowerMelee)
        } else if chars_eq_str(&key, "offensivecaster") {
            Ok(ClassModel::OffensiveCaster)
        } else if chars_eq_str(&key, "defensivecaster") {
            Ok(ClassModel::DefensiveCaster)
        } else if chars_eq_str(&key, "powercaster") {
            Ok(ClassModel::PowerCaster)
        } else if chars_eq_str(&key, "luckhybrid") {
            Ok(ClassModel::LuckHybrid)
        } else if chars_eq_str(&key, "fullhybrid") {
            Ok(ClassModel::FullHybrid)
        } else {
            Err(BackendError::InvalidClassModel(s.to_owned()))
        }
    }

    /// Every archetype, in the calculator's display order.
    pub fn all() -> (r: Vec<ClassModel>)
        ensures
            r@ == seq![
                ClassModel::TankMelee,
                ClassModel::DodgeMelee,
                ClassModel::PowerMelee,
                ClassModel::OffensiveCaster,
                ClassModel::DefensiveCaster,
                ClassModel::PowerCaster,
                ClassModel::FullHybrid,
                ClassModel::LuckHybrid,
            ],
    {
        let mut v: Vec<ClassModel> = Vec::new();
        v.push(ClassModel::TankMelee);
        v.push(ClassModel::DodgeMelee);
        v.push(ClassModel::PowerMelee);
        v.push(ClassModel::OffensiveCaster);
        v.push(ClassModel::DefensiveCaster);
        v.push(ClassModel::PowerCaster);
        v.push(ClassModel::FullHybrid);
        v.push(ClassModel::LuckHybrid);
        proof {
            assert(v@ =~= seq![
                ClassModel::TankMelee,
                ClassModel::DodgeMelee,
                ClassModel::PowerMelee,
                ClassModel::OffensiveCaster,
                ClassModel::DefensiveCaster,
                ClassModel::PowerCaster,
                ClassModel::FullHybrid,
                ClassModel::LuckHybrid,
            ]);
        }
        v
    }

    /// Total stat points a level grants across the six primary stats.
    pub fn level_interstat_total(&self, player: &Player) -> (r: i32)
        requires
            1 <= player.level <= MAX_LEVEL,
        ensures
            r == 7 * (player.level - 1) + 15,
    {
        (747 / 99) * (player.level as i32 - 1) + 15
    }

    /// The primary-stat spread a level grants, splitting the level total by
    /// the archetype's shares and truncating each share to whole points.
    pub fn level_primary_stat_total(&self, player: &Player) -> (r: PrimaryStats)
        requires
            1 <= player.level <= MAX_LEVEL,
        ensures
            ({
                let list = 7 * (player.level - 1) + 15;
                let (str_c, int_c, dex_c, end_c, wis_c, lck_c) = spec_level_stat_row(*self);
                &&& r.strength == list * str_c / 100
                &&& r.intellect == list * int_c / 100
                &&& r.dexterity == list * dex_c / 100
                &&& r.endurance == list * end_c / 100
                &&& r.wisdom == list * wis_c / 100
                &&& r.luck == list * lck_c / 100
            }),
    {
        let list: u32 = self.level_interstat_total(player) as u32;
        match self {
            ClassModel::TankMelee => PrimaryStats {
                strength: (list * 27 / 100) as i32,
                intellect: (list * 5 / 100) as i32,
                dexterity: (list * 22 / 100) as i32,
                endurance: (list * 30 / 100) as i32,
                wisdom: (list * 10 / 100) as i32,
                luck: (list * 6 / 100) as i32,
            },
            ClassModel::DodgeMelee => PrimaryStats {
                strength: (list * 20 / 100) as i32,
                intellect: (list * 5 / 100) as i32,
                dexterity: (list * 33 / 100) as i32,
                endurance: (list * 22 / 100) as i32,
                wisdom: (list * 10 / 100) as i32,
                luck: (list * 10 / 100) as i32,
            },
            ClassModel::PowerMelee => PrimaryStats {
                strength: (list * 30 / 100) as i32,
                intellect: (list * 2 / 100) as i32,
                dexterity: (list * 30 / 100) as i32,
                endurance: (list * 18 / 100) as i32,
                wisdom: (list * 6 / 100) as i32,
                luck: (list * 14 / 100) as i32,
            },
            ClassModel::OffensiveCaster => PrimaryStats {
                strength: (list * 6 / 100) as i32,
                intellect: (list * 33 / 100) as i32,
                dexterity: (list * 11 / 100) as i32,
                endurance: (list * 20 / 100) as i32,
                wisdom: (list * 15 / 100) as i32,
                luck: (list * 15 / 100) as i32,
            },
            ClassModel::DefensiveCaster => PrimaryStats {
                strength: (list * 8 / 100) as i32,
                intellect: (list * 30 / 100) as i32,
                dexterity: (list * 10 / 100) as i32,
                endurance: (list * 27 / 100) as i32,
                wisdom: (list * 10 / 100) as i32,
                luck: (list * 15 / 100) as i32,
            },
            ClassModel::PowerCaster => PrimaryStats {
                strength: (list * 6 / 100) as i32,
                intellect: (list * 28 / 100) as i32,
                dexterity: (list * 5 / 100) as i32,
                endurance: (list * 23 / 100) as i32,
                wisdom: (list * 28 / 100) as i32,
                luck: (list * 10 / 100) as i32,
            },
            ClassModel::FullHybrid => PrimaryStats {
                strength: (list * 24 / 100) as i32,
                intellect: (list * 24 / 100) as i32,
                dexterity: (list * 20 / 100) as i32,
                endurance: (list * 20 / 100) as i32,
                wisdom: (list * 7 / 100) as i32,
                luck: (list * 5 / 100) as i32,
            },
            ClassModel::LuckHybrid => PrimaryStats {
                strength: (list * 22 / 100) as i32,
                intellect: (list * 8 / 100) as i32,
                dexterity: (list * 21 / 100) as i32,
                endurance: (list * 18 / 100) as i32,
                wisdom: (list * 8 / 100) as i32,
                luck: (list * 23 / 100) as i32,
            },
        }
    }

    /// The canonical display string of the archetype.
    #[verifier::rlimit(100)]
    #[verifier::spinoff_prover]
    pub fn as_str(&self) -> (r: &'static str)
        ensures
            spec_normalize(r@) == spec_class_key(*self),
    {
        match self {
            ClassModel::TankMelee => {
                proof {
                    reveal_with_fuel(spec_normalize, 18);
                    reveal_strlit("Tank Melee");
                    reveal_strlit("tankmelee");
                    assert(spec_normalize("Tank Melee"@) =~= "tankmelee"@);
                }
                "Tank Melee"
            },
            ClassModel::DodgeMelee => {
                proof {
                    reveal_with_fuel(spec_normalize, 18);
                    reveal_strlit("Dodge Melee");
                    reveal_strlit("dodgemelee");
                    assert(spec_normalize("Dodge Melee"@) =~= "dodgemelee"@);
                }
                "Dodge Melee"
            },
            ClassModel::PowerMelee => {
                proof {
                    reveal_with_fuel(spec_normalize, 18);
                    reveal_strlit("Power Melee");
                    reveal_strlit("powermelee");
                    assert(spec_normalize("Power Melee"@) =~= "powermelee"@);
                }
                "Power Melee"
            },
            ClassModel::OffensiveCaster => {
                proof {
                    reveal_with_fuel(spec_normalize, 18);
                    reveal_strlit("Offensive Caster");
                    reveal_strlit("offensivecaster");
                    assert(spec_normalize("Offensive Caster"@) =~= "offensivecaster"@);
                }
                "Offensive Caster"
            },
            ClassModel::DefensiveCaster => {
                proof {
                    reveal_with_fuel(spec_normalize, 18);
                    reveal_strlit("Defensive Caster");
                    reveal_strlit("defensivecaster");
                    assert(spec_normalize("Defensive Caster"@) =~= "defensivecaster"@);
                }
                "Defensive Caster"
            },
            ClassModel::PowerCaster => {
                proof {
                    reveal_with_fuel(spec_normalize, 18);
                    reveal_strlit("Power Caster");
                    reveal_strlit("powercaster");
                    assert(spec_normalize("Power Caster"@) =~= "powercaster"@);
                }
                "Power Caster"
            },
            ClassModel::FullHybrid => {
                proof {
                    reveal_with_fuel(spec_normalize, 18);
                    reveal_strlit("Full Hybrid");
                    reveal_strlit("fullhybrid");
                    assert(spec_normalize("Full Hybrid"@) =~= "fullhybrid"@);
                }
                "Full Hybrid"
            },
            ClassModel::LuckHybrid => {
                proof {
                    reveal_with_fuel(spec_normalize, 18);
                    reveal_strlit("Luck Hybrid");
                    reveal_strlit("luckhybrid");
                    assert(spec_normalize("Luck Hybrid"@) =~= "luckhybrid"@);
                }
                "Luck Hybrid"
            },
        }
    }
}

/// A named class: a display name paired with its archetype.
#[derive(Debug, Clone)]
pub struct Class {
    pub name: String,
    pub class_model: ClassModel,
}

impl Class {
    pub fn new(name: &str, class_model: ClassModel) -> (r: Class)
        ensures
            r.name@ == name@,
            r.class_model == class_model,
    {
        Class { name: name.to_owned(), class_model }
    }
}

/// The six raw character attributes.  Formulas do not bound them below
/// zero: gear patterns with negative ratios may drive a stat negative.
#[derive(Debug, Clone, PartialEq, Eq, Structural)]
pub struct PrimaryStats {
    pub strength: i32,
    pub intellect: i32,
    pub endurance: i32,
    pub dexterity: i32,
    pub wisdom: i32,
    pub luck: i32,
}

impl PrimaryStats {
    pub fn new(
        strength: i32,
        intellect: i32,
        endurance: i32,
        dexterity: i32,
        wisdom: i32,
        luck: i32,
    ) -> (r: PrimaryStats)
        ensures
            r == (PrimaryStats { strength, intellect, endurance, dexterity, wisdom, luck }),
    {
        PrimaryStats { strength, intellect, endurance, dexterity, wisdom, luck }
    }

    /// Field-wise sum, merging another record into this one.
    pub fn add(&mut self, other: &PrimaryStats)
        requires
            i32::MIN <= old(self).strength + other.strength <= i32::MAX,
            i32::MIN <= old(self).intellect + other.intellect <= i32::MAX,
            i32::MIN <= old(self).endurance + other.endurance <= i32::MAX,
            i32::MIN <= old(self).dexterity + other.dexterity <= i32::MAX,
            i32::MIN <= old(self).wisdom + other.wisdom <= i32::MAX,
            i32::MIN <= old(self).luck + other.luck <= i32::MAX,
        ensures
            final(self).strength == old(self).strength + other.strength,
            final(self).intellect == old(self).intellect + other.intellect,
            final(self).endurance == old(self).endurance + other.endurance,
            final(self).dexterity == old(self).dexterity + other.dexterity,
            final(self).wisdom == old(self).wisdom + other.wisdom,
            final(self).luck == old(self).luck + other.luck,
    {
        self.strength = self.strength + other.strength;
        self.intellect = self.intellect + other.intellect;
        self.endurance = self.endurance + other.endurance;
        self.dexterity = self.dexterity + other.dexterity;
        self.wisdom = self.wisdom + other.wisdom;
        self.luck = self.luck + other.luck;
    }
}

/// The player: the level is all the conversion rules read from it.
#[derive(Debug, Clone)]
pub struct Player {
    pub level: u32,
}

/// Base hit points at a level.  The level ratio is an integer division, so
/// the curve holds at its base value for every level below the cap and
/// steps to the capped value only at `MAX_LEVEL`.
pub open spec fn spec_base_hp(level: u32) -> int
    recommends
        1 <= level,
{
    ((level - 1) / (MAX_LEVEL - 1)) * X_FACTOR + 360
}

impl Player {
    pub fn new(level: u32) -> (r: Player)
        ensures
            r.level == level,
    {
        Player { level }
    }

    /// Base hit points granted by the level curve alone.
    pub fn base_hp(&self) -> (r: i32)
        requires
            1 <= self.level <= MAX_LEVEL,
        ensures
            r == spec_base_hp(self.level),
            r == 360 || r == 2000,
    {
        proof {
            assert((self.level - 1) / (MAX_LEVEL - 1) == 0 || (self.level - 1) / (MAX_LEVEL - 1)
                == 1);
        }
        (((self.level - 1) / (MAX_LEVEL - 1)) * X_FACTOR) as i32 + 360
    }

    /// The level-derived scaling constant applied to most primary-to-
    /// secondary conversions, in millionths: the reciprocal of
    /// `base_hp * 63 / 16000`.
    pub fn efficiency(&self) -> (r: i64)
        requires
            1 <= self.level <= MAX_LEVEL,
        ensures
            r == spec_efficiency(self.level),
    {
        let hp = self.base_hp();
        let v: i128 = round_div(16_000_000_000, 63 * hp as i128);
        proof {
            lemma_round_div_bound(16_000_000_000, 63 * spec_base_hp(self.level));
        }
        v as i64
    }
}

/// The efficiency scalar in millionths: `16000 / (63 * base_hp)`.
pub open spec fn spec_efficiency(level: u32) -> int
    recommends
        1 <= level,
{
    spec_round_div(16_000_000_000, 63 * spec_base_hp(level))
}

/// The derived combat profile.  Multiplier and percentage fields are in
/// millionths of a unit; the four resource fields are plain point counts.
/// `hp`/`mp` are maxima, `current_hp`/`current_mp` the depletable pools.
#[derive(Debug, Clone, PartialEq, Eq, Structural)]
pub struct SecondaryStats {
    pub phy_out: i64,
    pub phy_in: i64,
    pub mag_out: i64,
    pub mag_in: i64,
    pub dot_out: i64,
    pub dot_in: i64,
    pub heal_out: i64,
    pub heal_in: i64,
    pub all_in: i64,
    pub all_out: i64,
    pub crit_chance: i64,
    pub crit_mod: i64,
    pub mana_consumption: i64,
    pub haste: i64,
    pub dodge: i64,
    pub hit_chance: i64,
    pub attack_power: i64,
    pub spell_power: i64,
    pub hp: i32,
    pub current_hp: i32,
    pub mp: i32,
    pub current_mp: i32,
}

/// Ceiling applied to `mana_consumption` after every modification, in
/// millionths (fifty units).
pub const MANA_CONSUMPTION_CAP: i64 = 50_000_000;

/// Whether the field-wise sum of two profiles stays within range.
pub open spec fn spec_stats_fit(a: SecondaryStats, b: SecondaryStats) -> bool {
    &&& i64::MIN <= a.phy_out + b.phy_out <= i64::MAX
    &&& i64::MIN <= a.phy_in + b.phy_in <= i64::MAX
    &&& i64::MIN <= a.mag_out + b.mag_out <= i64::MAX
    &&& i64::MIN <= a.mag_in + b.mag_in <= i64::MAX
    &&& i64::MIN <= a.dot_out + b.dot_out <= i64::MAX
    &&& i64::MIN <= a.dot_in + b.dot_in <= i64::MAX
    &&& i64::MIN <= a.heal_out + b.heal_out <= i64::MAX
    &&& i64::MIN <= a.heal_in + b.heal_in <= i64::MAX
    &&& i64::MIN <= a.all_in + b.all_in <= i64::MAX
    &&& i64::MIN <= a.all_out + b.all_out <= i64::MAX
    &&& i64::MIN <= a.crit_chance + b.crit_chance <= i64::MAX
    &&& i64::MIN <= a.crit_mod + b.crit_mod <= i64::MAX
    &&& i64::MIN <= a.mana_consumption + b.mana_consumption <= i64::MAX
    &&& i64::MIN <= a.haste + b.haste <= i64::MAX
    &&& i64::MIN <= a.dodge + b.dodge <= i64::MAX
    &&& i64::MIN <= a.hit_chance + b.hit_chance <= i64::MAX
    &&& i64::MIN <= a.attack_power + b.attack_power <= i64::MAX
    &&& i64::MIN <= a.spell_power + b.spell_power <= i64::MAX
    &&& i32::MIN <= a.hp + b.hp <= i32::MAX
    &&& i32::MIN <= a.current_hp + b.current_hp <= i32::MAX
    &&& i32::MIN <= a.mp + b.mp <= i32::MAX
    &&& i32::MIN <= a.current_mp + b.current_mp <= i32::MAX
}

/// Field-wise sum of two profiles.
pub open spec fn spec_stats_add(a: SecondaryStats, b: SecondaryStats) -> SecondaryStats
    recommends
        spec_stats_fit(a, b),
{
    SecondaryStats {
        phy_out: (a.phy_out + b.phy_out) as i64,
        phy_in: (a.phy_in + b.phy_in) as i64,
        mag_out: (a.mag_out + b.mag_out) as i64,
        mag_in: (a.mag_in + b.mag_in) as i64,
        dot_out: (a.dot_out + b.dot_out) as i64,
        dot_in: (a.dot_in + b.dot_in) as i64,
        heal_out: (a.heal_out + b.heal_out) as i64,
        heal_in: (a.heal_in + b.heal_in) as i64,
        all_in: (a.all_in + b.all_in) as i64,
        all_out: (a.all_out + b.all_out) as i64,
        crit_chance: (a.crit_chance + b.crit_chance) as i64,
        crit_mod: (a.crit_mod + b.crit_mod) as i64,
        mana_consumption: (a.mana_consumption + b.mana_consumption) as i64,
        haste: (a.haste + b.haste) as i64,
        dodge: (a.dodge + b.dodge) as i64,
        hit_chance: (a.hit_chance + b.hit_chance) as i64,
        attack_power: (a.attack_power + b.attack_power) as i64,
        spell_power: (a.spell_power + b.spell_power) as i64,
        hp: (a.hp + b.hp) as i32,
        current_hp: (a.current_hp + b.current_hp) as i32,
        mp: (a.mp + b.mp) as i32,
        current_mp: (a.current_mp + b.current_mp) as i32,
    }
}

/// One field stepped either multiplicatively (in millionths) or
/// additively, as every stat-altering rule does it.
pub open spec fn spec_modify(field: int, value: int, mult: bool) -> int {
    if mult {
        spec_scale(field, value)
    } else {
        field + value
    }
}

/// Whether stepping `field` by `value` stays within range.
pub open spec fn spec_modify_fits(field: int, value: int, mult: bool) -> bool {
    if mult {
        -(i64::MAX - 1) * (MICRO as int) <= field * value <= (i64::MAX - 1) * (MICRO as int)
    } else {
        i64::MIN <= field + value <= i64::MAX
    }
}

impl SecondaryStats {
    /// The player's starting profile: neutral hundred-percent channels, the
    /// base crit, dodge and hit chances, and an empty resource pool.
    pub fn new() -> (r: SecondaryStats)
        ensures
            r == spec_player_baseline(),
    {
        SecondaryStats {
            phy_out: 100_000_000,
            phy_in: 100_000_000,
            mag_out: 100_000_000,
            mag_in: 100_000_000,
            dot_out: 100_000_000,
            dot_in: 100_000_000,
            heal_out: 100_000_000,
            heal_in: 100_000_000,
            all_in: 100_000_000,
            all_out: 100_000_000,
            crit_chance: 5_000_000,
            crit_mod: 150_000_000,
            mana_consumption: 0,
            haste: 0,
            dodge: 4_000_000,
            hit_chance: 90_000_000,
            attack_power: 0,
            spell_power: 0,
            hp: 0,
            current_hp: 0,
            mp: 100,
            current_mp: 100,
        }
    }

    /// The starting profile of a generic target entity.  Its baseline
    /// numbers differ from the player's and the two must stay separate.
    pub fn new_target() -> (r: SecondaryStats)
        ensures
            r == spec_target_baseline(),
    {
        SecondaryStats {
            phy_out: 0,
            phy_in: 0,
            mag_out: 0,
            mag_in: 0,
            dot_out: 0,
            dot_in: 0,
            heal_out: 0,
            heal_in: 0,
            all_in: 0,
            all_out: 0,
            crit_chance: 15_000_000,
            crit_mod: 200_000_000,
            mana_consumption: 0,
            haste: 37_500_000,
            dodge: 10_000_000,
            hit_chance: 90_000_000,
            attack_power: 0,
            spell_power: 0,
            hp: 0,
            current_hp: 0,
            mp: 100,
            current_mp: 100,
        }
    }

    /// Field-wise sum, merging another profile into this one.
    pub fn add(&mut self, other: &SecondaryStats)
        requires
            spec_stats_fit(*old(self), *other),
        ensures
            *final(self) == spec_stats_add(*old(self), *other),
    {
        self.phy_out = self.phy_out + other.phy_out;
        self.phy_in = self.phy_in + other.phy_in;
        self.mag_out = self.mag_out + other.mag_out;
        self.mag_in = self.mag_in + other.mag_in;
        self.dot_out = self.dot_out + other.dot_out;
        self.dot_in = self.dot_in + other.dot_in;
        self.heal_out = self.heal_out + other.heal_out;
        self.heal_in = self.heal_in + other.heal_in;
        self.all_in = self.all_in + other.all_in;
        self.all_out = self.all_out + other.all_out;
        self.crit_chance = self.crit_chance + other.crit_chance;
        self.crit_mod = self.crit_mod + other.crit_mod;
        self.mana_consumption = self.mana_consumption + other.mana_consumption;
        self.haste = self.haste + other.haste;
        self.dodge = self.dodge + other.dodge;
        self.hit_chance = self.hit_chance + other.hit_chance;
        self.attack_power = self.attack_power + other.attack_power;
        self.spell_power = self.spell_power + other.spell_power;
        self.hp = self.hp + other.hp;
        self.current_hp = self.current_hp + other.current_hp;
        self.mp = self.mp + other.mp;
        self.current_mp = self.current_mp + other.current_mp;
    }

    /// Step `all_out` multiplicatively or additively.
    pub fn modify_all_out(&mut self, value: i64, mult: bool)
        requires
            spec_modify_fits(old(self).all_out as int, value as int, mult),
        ensures
            *final(self) == (SecondaryStats {
                all_out: spec_modify(old(self).all_out as int, value as int, mult) as i64,
                ..*old(self)
            }),
    {
        if mult {
            self.all_out = scale(self.all_out, value);
        } else {
            self.all_out = self.all_out + value;
        }
    }

    /// Step `all_in` multiplicatively or additively.
    pub fn modify_all_in(&mut self, value: i64, mult: bool)
        requires
            spec_modify_fits(old(self).all_in as int, value as int, mult),
        ensures
            *final(self) == (SecondaryStats {
                all_in: spec_modify(old(self).all_in as int, value as int, mult) as i64,
                ..*old(self)
            }),
    {
        if mult {
            self.all_in = scale(self.all_in, value);
        } else {
            self.all_in = self.all_in + value;
        }
    }

    /// Step `phy_out` multiplicatively or additively.
    pub fn modify_phy_out(&mut self, value: i64, mult: bool)
        requires
            spec_modify_fits(old(self).phy_out as int, value as int, mult),
        ensures
            *final(self) == (SecondaryStats {
                phy_out: spec_modify(old(self).phy_out as int, value as int, mult) as i64,
                ..*old(self)
            }),
    {
        if mult {
            self.phy_out = scale(self.phy_out, value);
        } else {
            self.phy_out = self.phy_out + value;
        }
    }

    /// Step `phy_in` multiplicatively or additively.
    pub fn modify_phy_in(&mut self, value: i64, mult: bool)
        requires
            spec_modify_fits(old(self).phy_in as int, value as int, mult),
        ensures
            *final(self) == (SecondaryStats {
                phy_in: spec_modify(old(self).phy_in as int, value as int, mult) as i64,
                ..*old(self)
            }),
    {
        if mult {
            self.phy_in = scale(self.phy_in, value);
        } else {
            self.phy_in = self.phy_in + value;
        }
    }

    /// Step `mag_out` multiplicatively or additively.
    pub fn modify_mag_out(&mut self, value: i64, mult: bool)
        requires
            spec_modify_fits(old(self).mag_out as int, value as int, mult),
        ensures
            *final(self) == (SecondaryStats {
                mag_out: spec_modify(old(self).mag_out as int, value as int, mult) as i64,
                ..*old(self)
            }),
    {
        if mult {
            self.mag_out = scale(self.mag_out, value);
        } else {
            self.mag_out = self.mag_out + value;
        }
    }

    /// Step `mag_in` multiplicatively or additively.
    pub fn modify_mag_in(&mut self, value: i64, mult: bool)
        requires
            spec_modify_fits(old(self).mag_in as int, value as int, mult),
        ensures
            *final(self) == (SecondaryStats {
                mag_in: spec_modify(old(self).mag_in as int, value as int, mult) as i64,
                ..*old(self)
            }),
    {
        if mult {
            self.mag_in = scale(self.mag_in, value);
        } else {
            self.mag_in = self.mag_in + value;
        }
    }

    /// Step `dot_out` multiplicatively or additively.
    pub fn modify_dot_out(&mut self, value: i64, mult: bool)
        requires
            spec_modify_fits(old(self).dot_out as int, value as int, mult),
        ensures
            *final(self) == (SecondaryStats {
                dot_out: spec_modify(old(self).dot_out as int, value as int, mult) as i64,
                ..*old(self)
            }),
    {
        if mult {
            self.dot_out = scale(self.dot_out, value);
        } else {
            self.dot_out = self.dot_out + value;
        }
    }

    /// Step `dot_in` multiplicatively or additively.
    pub fn modify_dot_in(&mut self, value: i64, mult: bool)
        requires
            spec_modify_fits(old(self).dot_in as int, value as int, mult),
        ensures
            *final(self) == (SecondaryStats {
                dot_in: spec_modify(old(self).dot_in as int, value as int, mult) as i64,
                ..*old(self)
            }),
    {
        if mult {
            self.dot_in = scale(self.dot_in, value);
        } else {
            self.dot_in = self.dot_in + value;
        }
    }

    /// Step `heal_out` multiplicatively or additively.
    pub fn modify_heal_out(&mut self, value: i64, mult: bool)
        requires
            spec_modify_fits(old(self).heal_out as int, value as int, mult),
        ensures
            *final(self) == (SecondaryStats {
                heal_out: spec_modify(old(self).heal_out as int, value as int, mult) as i64,
                ..*old(self)
            }),
    {
        if mult {
            self.heal_out = scale(self.heal_out, value);
        } else {
            self.heal_out = self.heal_out + value;
        }
    }

    /// Step `heal_in` multiplicatively or additively.
    pub fn modify_heal_in(&mut self, value: i64, mult: bool)
        requires
            spec_modify_fits(old(self).heal_in as int, value as int, mult),
        ensures
            *final(self) == (SecondaryStats {
                heal_in: spec_modify(old(self).heal_in as int, value as int, mult) as i64,
                ..*old(self)
            }),
    {
        if mult {
            self.heal_in = scale(self.heal_in, value);
        } else {
            self.heal_in = self.heal_in + value;
        }
    }

    /// Step `mana_consumption`, then re-clamp it to its ceiling of fifty
    /// units: whatever the direction of the change, the stored value never
    /// exceeds the cap.
    pub fn modify_mana_consumption(&mut self, value: i64, mult: bool)
        requires
            spec_modify_fits(old(self).mana_consumption as int, value as int, mult),
        ensures
            *final(self) == (SecondaryStats {
                mana_consumption: ({
                    let stepped = spec_modify(old(self).mana_consumption as int, value as int, mult);
                    if stepped >= MANA_CONSUMPTION_CAP as int {
                        MANA_CONSUMPTION_CAP
                    } else {
                        stepped as i64
                    }
                }),
                ..*old(self)
            }),
            final(self).mana_consumption <= MANA_CONSUMPTION_CAP,
    {
        if mult {
            self.mana_consumption = scale(self.mana_consumption, value);
        } else {
            self.mana_consumption = self.mana_consumption + value;
        }
        if self.mana_consumption >= MANA_CONSUMPTION_CAP {
            self.mana_consumption = MANA_CONSUMPTION_CAP;
        }
    }

    /// Reset both the maximum and the current hit points: a full heal to a
    /// new maximum, not an independent change of the maximum alone.
    pub fn modify_hp(&mut self, value: i32)
        ensures
            *final(self) == (SecondaryStats { hp: value, current_hp: value, ..*old(self) }),
    {
        self.hp = value;
        self.current_hp = value;
    }

    /// Subtract from the current hit points.  There is no floor: a negative
    /// pool is a valid state and is preserved.
    pub fn take_damage(&mut self, value: i32)
        requires
            i32::MIN <= old(self).current_hp - value <= i32::MAX,
        ensures
            *final(self) == (SecondaryStats {
                current_hp: (old(self).current_hp - value) as i32,
                ..*old(self)
            }),
    {
        self.current_hp = self.current_hp - value;
    }

    /// Subtract from the current mana points, with no floor.
    pub fn use_mana(&mut self, value: i32)
        requires
            i32::MIN <= old(self).current_mp - value <= i32::MAX,
        ensures
            *final(self) == (SecondaryStats {
                current_mp: (old(self).current_mp - value) as i32,
                ..*old(self)
            }),
    {
        self.current_mp = self.current_mp - value;
    }
}

/// The player's starting profile.
pub open spec fn spec_player_baseline() -> SecondaryStats {
    SecondaryStats {
        phy_out: 100_000_000,
        phy_in: 100_000_000,
        mag_out: 100_000_000,
        mag_in: 100_000_000,
        dot_out: 100_000_000,
        dot_in: 100_000_000,
        heal_out: 100_000_000,
        heal_in: 100_000_000,
        all_in: 100_000_000,
        all_out: 100_000_000,
        crit_chance: 5_000_000,
        crit_mod: 150_000_000,
        mana_consumption: 0,
        haste: 0,
        dodge: 4_000_000,
        hit_chance: 90_000_000,
        attack_power: 0,
        spell_power: 0,
        hp: 0,
        current_hp: 0,
        mp: 100,
        current_mp: 100,
    }
}

/// The target entity's starting profile.
pub open spec fn spec_target_baseline() -> SecondaryStats {
    SecondaryStats {
        phy_out: 0,
        phy_in: 0,
        mag_out: 0,
        mag_in: 0,
        dot_out: 0,
        dot_in: 0,
        heal_out: 0,
        heal_in: 0,
        all_in: 0,
        all_out: 0,
        crit_chance: 15_000_000,
        crit_mod: 200_000_000,
        mana_consumption: 0,
        haste: 37_500_000,
        dodge: 10_000_000,
        hit_chance: 90_000_000,
        attack_power: 0,
        spell_power: 0,
        hp: 0,
        current_hp: 0,
        mp: 100,
        current_mp: 100,
    }
}

/// A primary and secondary record travelling together.
#[derive(Debug, Clone)]
pub struct PlayerStats {
    pub primary: PrimaryStats,
    pub secondary: SecondaryStats,
}

/// A stat combination scaled by the efficiency scalar, in millionths:
/// `(cents / 100) * 16000 / (63 * base_hp)`, rounded once from the exact
/// ratio.
pub open spec fn spec_eff_scaled(level: u32, cents: int) -> int
    recommends
        1 <= level,
{
    spec_round_div(cents * 160_000_000, 63 * spec_base_hp(level))
}

/// Attack-power combination per archetype, in hundredths of a point of
/// attack power per stat point.
pub open spec fn spec_attack_power_cents(m: ClassModel, p: PrimaryStats) -> int {
    match m {
        ClassModel::TankMelee => 200 * p.strength + 70 * p.luck,
        ClassModel::DodgeMelee => 200 * p.strength + 70 * p.luck,
        ClassModel::PowerMelee => 200 * p.strength + 70 * p.luck,
        ClassModel::OffensiveCaster => 200 * p.strength,
        ClassModel::DefensiveCaster => 200 * p.strength,
        ClassModel::PowerCaster => 200 * p.strength,
        ClassModel::FullHybrid => 200 * p.strength + 70 * p.luck,
        ClassModel::LuckHybrid => 140 * p.strength + 100 * p.luck,
    }
}

/// Spell-power combination per archetype.
pub open spec fn spec_spell_power_cents(m: ClassModel, p: PrimaryStats) -> int {
    match m {
        ClassModel::TankMelee => 200 * p.intellect,
        ClassModel::DodgeMelee => 200 * p.intellect,
        ClassModel::PowerMelee => 200 * p.intellect,
        ClassModel::OffensiveCaster => 200 * p.intellect + 70 * p.luck,
        ClassModel::DefensiveCaster => 200 * p.intellect + 70 * p.luck,
        ClassModel::PowerCaster => 200 * p.intellect + 70 * p.luck,
        ClassModel::FullHybrid => 200 * p.intellect + 70 * p.luck,
        ClassModel::LuckHybrid => 140 * p.intellect + 100 * p.luck,
    }
}

/// Crit-chance combination per archetype, before efficiency scaling.
pub open spec fn spec_crit_chance_cents(m: ClassModel, p: PrimaryStats) -> int {
    match m {
        ClassModel::TankMelee => 40 * p.strength + 20 * p.luck,
        ClassModel::DodgeMelee => 40 * p.strength + 20 * p.luck,
        ClassModel::PowerMelee => 70 * p.strength + 20 * p.luck,
        ClassModel::OffensiveCaster => 70 * p.wisdom + 20 * p.luck,
        ClassModel::DefensiveCaster => 40 * p.wisdom + 20 * p.luck,
        ClassModel::PowerCaster => 40 * p.wisdom + 20 * p.luck,
        ClassModel::FullHybrid => 40 * p.strength + 20 * p.luck,
        ClassModel::LuckHybrid => 40 * p.strength + 40 * p.wisdom + 30 * p.luck,
    }
}

/// Magic-taken combination: every archetype reduces incoming magic by its
/// intellect.
pub open spec fn spec_mag_in_cents(p: PrimaryStats) -> int {
    -100 * p.intellect
}

/// Magic-dealt combination: the caster archetypes and the full hybrid gain
/// from intellect, the rest gain nothing.
pub open spec fn spec_mag_out_cents(m: ClassModel, p: PrimaryStats) -> int {
    match m {
        ClassModel::OffensiveCaster => 100 * p.intellect,
        ClassModel::DefensiveCaster => 100 * p.intellect,
        ClassModel::PowerCaster => 100 * p.intellect,
        ClassModel::FullHybrid => 100 * p.intellect,
        _ => 0,
    }
}

/// Hit-chance combination per archetype, before efficiency scaling.
pub open spec fn spec_hit_chance_cents(m: ClassModel, p: PrimaryStats) -> int {
    match m {
        ClassModel::TankMelee => 20 * p.dexterity + 10 * p.luck,
        ClassModel::DodgeMelee => 20 * p.dexterity + 10 * p.luck,
        ClassModel::PowerMelee => 20 * p.dexterity + 10 * p.luck,
        ClassModel::OffensiveCaster => 20 * p.wisdom + 10 * p.luck,
        ClassModel::DefensiveCaster => 20 * p.wisdom + 10 * p.luck,
        ClassModel::PowerCaster => 20 * p.wisdom + 10 * p.luck,
        ClassModel::FullHybrid => 20 * p.dexterity + 10 * p.luck,
        ClassModel::LuckHybrid => 20 * p.dexterity + 20 * p.wisdom + 10 * p.luck,
    }
}

/// Haste combination per archetype, before efficiency scaling.
pub open spec fn spec_haste_cents(m: ClassModel, p: PrimaryStats) -> int {
    match m {
        ClassModel::TankMelee => 30 * p.dexterity + 10 * p.luck,
        ClassModel::DodgeMelee => 50 * p.dexterity + 10 * p.luck,
        ClassModel::PowerMelee => 50 * p.dexterity + 10 * p.luck,
        ClassModel::OffensiveCaster => 30 * p.intellect + 10 * p.luck,
        ClassModel::DefensiveCaster => 50 * p.intellect + 10 * p.luck,
        ClassModel::PowerCaster => 30 * p.intellect + 10 * p.luck,
        ClassModel::FullHybrid => 30 * p.intellect + 30 * p.dexterity + 10 * p.luck,
        ClassModel::LuckHybrid => 30 * p.intellect + 30 * p.dexterity + 30 * p.luck,
    }
}

/// Dodge combination per archetype, before efficiency scaling.
pub open spec fn spec_dodge_cents(m: ClassModel, p: PrimaryStats) -> int {
    match m {
        ClassModel::TankMelee => 30 * p.dexterity + 30 * p.wisdom + 10 * p.luck,
        ClassModel::DodgeMelee => 50 * p.dexterity + 30 * p.wisdom + 10 * p.luck,
        ClassModel::PowerMelee => 50 * p.dexterity + 30 * p.wisdom + 10 * p.luck,
        ClassModel::OffensiveCaster => 30 * p.dexterity + 30 * p.wisdom + 10 * p.luck,
        ClassModel::DefensiveCaster => 30 * p.dexterity + 30 * p.wisdom + 10 * p.luck,
        ClassModel::PowerCaster => 30 * p.dexterity + 30 * p.wisdom + 10 * p.luck,
        ClassModel::FullHybrid => 50 * p.dexterity + 30 * p.wisdom + 10 * p.luck,
        ClassModel::LuckHybrid => 30 * p.dexterity + 30 * p.wisdom + 25 * p.luck,
    }
}

/// Flat crit damage multiplier per archetype, in millionths.
pub open spec fn spec_crit_mod(m: ClassModel) -> int {
    match m {
        ClassModel::LuckHybrid => 2_500_000,
        _ => 5_000_000,
    }
}

/// Maximum hit points from the level curve and endurance.
pub open spec fn spec_hp_total(level: u32, p: PrimaryStats) -> int
    recommends
        1 <= level,
{
    spec_base_hp(level) + 5 * p.endurance
}

/// The complete secondary profile an archetype derives from a player's
/// level and primary stats.
pub open spec fn spec_secondary_stats_convert(
    m: ClassModel,
    level: u32,
    p: PrimaryStats,
) -> SecondaryStats
    recommends
        1 <= level,
{
    SecondaryStats {
        phy_out: 0,
        phy_in: 0,
        mag_out: spec_eff_scaled(level, spec_mag_out_cents(m, p)) as i64,
        mag_in: spec_eff_scaled(level, spec_mag_in_cents(p)) as i64,
        dot_out: 0,
        dot_in: 0,
        heal_out: 0,
        heal_in: 0,
        all_in: 0,
        all_out: 0,
        crit_chance: spec_eff_scaled(level, spec_crit_chance_cents(m, p)) as i64,
        crit_mod: spec_crit_mod(m) as i64,
        mana_consumption: 0,
        haste: spec_eff_scaled(level, spec_haste_cents(m, p)) as i64,
        dodge: spec_eff_scaled(level, spec_dodge_cents(m, p)) as i64,
        hit_chance: spec_eff_scaled(level, spec_hit_chance_cents(m, p)) as i64,
        attack_power: (spec_attack_power_cents(m, p) * 10_000) as i64,
        spell_power: (spec_spell_power_cents(m, p) * 10_000) as i64,
        hp: spec_hp_total(level, p) as i32,
        current_hp: spec_hp_total(level, p) as i32,
        mp: 100,
        current_mp: 100,
    }
}

/// Efficiency scaling of a stat combination given in hundredths.
fn eff_scale(cents: i64, player: &Player) -> (r: i64)
    requires
        1 <= player.level <= MAX_LEVEL,
        -4_000_000_000_000 <= cents <= 4_000_000_000_000,
    ensures
        r == spec_eff_scaled(player.level, cents as int),
        -30_000_000_000_000_000 <= r <= 30_000_000_000_000_000,
{
    let hp = player.base_hp();
    let v: i128 = round_div(cents as i128 * 160_000_000, 63 * hp as i128);
    proof {
        let num = cents as int * 160_000_000;
        let den = 63 * spec_base_hp(player.level);
        lemma_round_div_bound(num, den);
        if num >= 0 {
            vstd::arithmetic::div_mod::lemma_div_is_ordered(
                num,
                640_000_000_000_000_000_000,
                den,
            );
            vstd::arithmetic::div_mod::lemma_div_is_ordered_by_denominator(
                640_000_000_000_000_000_000,
                22680,
                den,
            );
        } else {
            vstd::arithmetic::div_mod::lemma_div_is_ordered(
                -num,
                640_000_000_000_000_000_000,
                den,
            );
            vstd::arithmetic::div_mod::lemma_div_is_ordered_by_denominator(
                640_000_000_000_000_000_000,
                22680,
                den,
            );
        }
    }
    v as i64
}

impl ClassModel {
    /// Physical-dealt conversion: a universal zero, stated explicitly.
    pub fn phy_out_convert(&self) -> (r: i64)
        ensures
            r == 0,
    {
        0
    }

    /// Physical-taken conversion: a universal zero, stated explicitly.
    pub fn phy_in_convert(&self) -> (r: i64)
        ensures
            r == 0,
    {
        0
    }

    /// Healing-dealt conversion: a universal zero, stated explicitly.
    pub fn heal_out_convert(&self) -> (r: i64)
        ensures
            r == 0,
    {
        0
    }

    /// Healing-taken conversion: a universal zero, stated explicitly.
    pub fn heal_in_convert(&self) -> (r: i64)
        ensures
            r == 0,
    {
        0
    }

    /// Damage-over-time-dealt conversion: a universal zero, stated
    /// explicitly.
    pub fn dot_out_convert(&self) -> (r: i64)
        ensures
            r == 0,
    {
        0
    }

    /// Damage-over-time-taken conversion: a universal zero, stated
    /// explicitly.
    pub fn dot_in_convert(&self) -> (r: i64)
        ensures
            r == 0,
    {
        0
    }

    /// All-dealt conversion: a universal zero, stated explicitly.
    pub fn all_out_convert(&self) -> (r: i64)
        ensures
            r == 0,
    {
        0
    }

    /// All-taken conversion: a universal zero, stated explicitly.
    pub fn all_in_convert(&self) -> (r: i64)
        ensures
            r == 0,
    {
        0
    }

    /// Mana-consumption conversion: a universal zero, stated explicitly.
    pub fn mana_consumption_convert(&self) -> (r: i64)
        ensures
            r == 0,
    {
        0
    }

    /// Attack power from strength and luck.  Not efficiency-scaled.
    pub fn attack_power_convert(&self, _player: &Player, primary: &PrimaryStats) -> (r: i64)
        ensures
            r == spec_attack_power_cents(*self, *primary) * 10_000,
    {
        let cents: i64 = match self {
            ClassModel::TankMelee => 200 * primary.strength as i64 + 70 * primary.luck as i64,
            ClassModel::DodgeMelee => 200 * primary.strength as i64 + 70 * primary.luck as i64,
            ClassModel::PowerMelee => 200 * primary.strength as i64 + 70 * primary.luck as i64,
            ClassModel::DefensiveCaster => 200 * primary.strength as i64,
            ClassModel::OffensiveCaster => 200 * primary.strength as i64,
            ClassModel::PowerCaster => 200 * primary.strength as i64,
            ClassModel::FullHybrid => 200 * primary.strength as i64 + 70 * primary.luck as i64,
            ClassModel::LuckHybrid => 140 * primary.strength as i64 + 100 * primary.luck as i64,
        };
        cents * 10_000
    }

    /// Spell power from intellect and luck.  Not efficiency-scaled.
    pub fn spell_power_convert(&self, _player: &Player, primary: &PrimaryStats) -> (r: i64)
        ensures
            r == spec_spell_power_cents(*self, *primary) * 10_000,
    {
        let cents: i64 = match self {
            ClassModel::TankMelee => 200 * primary.intellect as i64,
            ClassModel::DodgeMelee => 200 * primary.intellect as i64,
            ClassModel::PowerMelee => 200 * primary.intellect as i64,
            ClassModel::DefensiveCaster => 200 * primary.intellect as i64 + 70 * primary.luck
                as i64,
            ClassModel::OffensiveCaster => 200 * primary.intellect as i64 + 70 * primary.luck
                as i64,
            ClassModel::PowerCaster => 200 * primary.intellect as i64 + 70 * primary.luck as i64,
            ClassModel::FullHybrid => 200 * primary.intellect as i64 + 70 * primary.luck as i64,
            ClassModel::LuckHybrid => 140 * primary.intellect as i64 + 100 * primary.luck as i64,
        };
        cents * 10_000
    }

    /// Crit chance from the archetype's stat combination, efficiency-scaled.
    pub fn crit_chance_convert(&self, player: &Player, primary: &PrimaryStats) -> (r: i64)
        requires
            1 <= player.level <= MAX_LEVEL,
        ensures
            r == spec_eff_scaled(player.level, spec_crit_chance_cents(*self, *primary)),
    {
        let cents: i64 = match self {
            ClassModel::TankMelee => 40 * primary.strength as i64 + 20 * primary.luck as i64,
            ClassModel::DodgeMelee => 40 * primary.strength as i64 + 20 * primary.luck as i64,
            ClassModel::PowerMelee => 70 * primary.strength as i64 + 20 * primary.luck as i64,
            ClassModel::DefensiveCaster => 40 * primary.wisdom as i64 + 20 * primary.luck as i64,
            ClassModel::OffensiveCaster => 70 * primary.wisdom as i64 + 20 * primary.luck as i64,
            ClassModel::PowerCaster => 40 * primary.wisdom as i64 + 20 * primary.luck as i64,
            ClassModel::FullHybrid => 40 * primary.strength as i64 + 20 * primary.luck as i64,
            ClassModel::LuckHybrid => 40 * primary.strength as i64 + 40 * primary.wisdom as i64
                + 30 * primary.luck as i64,
        };
        eff_scale(cents, player)
    }

    /// Magic taken, reduced by intellect for every archetype,
    /// efficiency-scaled.
    pub fn mag_in_convert(&self, player: &Player, primary: &PrimaryStats) -> (r: i64)
        requires
            1 <= player.level <= MAX_LEVEL,
        ensures
            r == spec_eff_scaled(player.level, spec_mag_in_cents(*primary)),
    {
        let cents: i64 = -(100 * primary.intellect as i64);
        eff_scale(cents, player)
    }

    /// Hit chance from the archetype's stat combination, efficiency-scaled.
    pub fn hit_chance_convert(&self, player: &Player, primary: &PrimaryStats) -> (r: i64)
        requires
            1 <= player.level <= MAX_LEVEL,
        ensures
            r == spec_eff_scaled(player.level, spec_hit_chance_cents(*self, *primary)),
    {
        let cents: i64 = match self {
            ClassModel::TankMelee => 20 * primary.dexterity as i64 + 10 * primary.luck as i64,
            ClassModel::DodgeMelee => 20 * primary.dexterity as i64 + 10 * primary.luck as i64,
            ClassModel::PowerMelee => 20 * primary.dexterity as i64 + 10 * primary.luck as i64,
            ClassModel::DefensiveCaster => 20 * primary.wisdom as i64 + 10 * primary.luck as i64,
            ClassModel::OffensiveCaster => 20 * primary.wisdom as i64 + 10 * primary.luck as i64,
            ClassModel::PowerCaster => 20 * primary.wisdom as i64 + 10 * primary.luck as i64,
            ClassModel::FullHybrid => 20 * primary.dexterity as i64 + 10 * primary.luck as i64,
            ClassModel::LuckHybrid => 20 * primary.dexterity as i64 + 20 * primary.wisdom as i64
                + 10 * primary.luck as i64,
        };
        eff_scale(cents, player)
    }

    /// Haste from the archetype's stat combination, efficiency-scaled.
    pub fn haste_convert(&self, player: &Player, primary: &PrimaryStats) -> (r: i64)
        requires
            1 <= player.level <= MAX_LEVEL,
        ensures
            r == spec_eff_scaled(player.level, spec_haste_cents(*self, *primary)),
    {
        let cents: i64 = match self {
            ClassModel::TankMelee => 30 * primary.dexterity as i64 + 10 * primary.luck as i64,
            ClassModel::DodgeMelee => 50 * primary.dexterity as i64 + 10 * primary.luck as i64,
            ClassModel::PowerMelee => 50 * primary.dexterity as i64 + 10 * primary.luck as i64,
            ClassModel::DefensiveCaster => 50 * primary.intellect as i64 + 10 * primary.luck
                as i64,
            ClassModel::OffensiveCaster => 30 * primary.intellect as i64 + 10 * primary.luck
                as i64,
            ClassModel::PowerCaster => 30 * primary.intellect as i64 + 10 * primary.luck as i64,
            ClassModel::FullHybrid => 30 * primary.intellect as i64 + 30 * primary.dexterity
                as i64 + 10 * primary.luck as i64,
            ClassModel::LuckHybrid => 30 * primary.intellect as i64 + 30 * primary.dexterity
                as i64 + 30 * primary.luck as i64,
        };
        eff_scale(cents, player)
    }

    /// Flat crit damage multiplier: a constant per archetype, independent
    /// of every stat.
    pub fn crit_mod_convert(&self) -> (r: i64)
        ensures
            r == spec_crit_mod(*self),
    {
        match self {
            ClassModel::LuckHybrid => 2_500_000,
            _ => 5_000_000,
        }
    }

    /// Dodge from the archetype's stat combination, efficiency-scaled.
    pub fn dodge_convert(&self, player: &Player, primary: &PrimaryStats) -> (r: i64)
        requires
            1 <= player.level <= MAX_LEVEL,
        ensures
            r == spec_eff_scaled(player.level, spec_dodge_cents(*self, *primary)),
    {
        let cents: i64 = match self {
            ClassModel::TankMelee => 30 * primary.dexterity as i64 + 30 * primary.wisdom as i64
                + 10 * primary.luck as i64,
            ClassModel::DodgeMelee => 50 * primary.dexterity as i64 + 30 * primary.wisdom as i64
                + 10 * primary.luck as i64,
            ClassModel::PowerMelee => 50 * primary.dexterity as i64 + 30 * primary.wisdom as i64
                + 10 * primary.luck as i64,
            ClassModel::DefensiveCaster => 30 * primary.dexterity as i64 + 30 * primary.wisdom
                as i64 + 10 * primary.luck as i64,
            ClassModel::OffensiveCaster => 30 * primary.dexterity as i64 + 30 * primary.wisdom
                as i64 + 10 * primary.luck as i64,
            ClassModel::PowerCaster => 30 * primary.dexterity as i64 + 30 * primary.wisdom as i64
                + 10 * primary.luck as i64,
            ClassModel::FullHybrid => 50 * primary.dexterity as i64 + 30 * primary.wisdom as i64
                + 10 * primary.luck as i64,
            ClassModel::LuckHybrid => 30 * primary.dexterity as i64 + 30 * primary.wisdom as i64
                + 25 * primary.luck as i64,
        };
        eff_scale(cents, player)
    }

    /// Magic dealt: intellect for the caster archetypes and the full
    /// hybrid, nothing for the rest, efficiency-scaled.
    fn mag_out_convert(&self, player: &Player, primary: &PrimaryStats) -> (r: i64)
        requires
            1 <= player.level <= MAX_LEVEL,
        ensures
            r == spec_eff_scaled(player.level, spec_mag_out_cents(*self, *primary)),
    {
        let cents: i64 = match self {
            ClassModel::DefensiveCaster => 100 * primary.intellect as i64,
            ClassModel::OffensiveCaster => 100 * primary.intellect as i64,
            ClassModel::PowerCaster => 100 * primary.intellect as i64,
            ClassModel::FullHybrid => 100 * primary.intellect as i64,
            _ => 0,
        };
        eff_scale(cents, player)
    }

    /// Derive the complete secondary profile from the player's level and
    /// primary stats.  Both hit-point fields receive the same total: a
    /// character starts converted at full health.
    pub fn secondary_stats_convert(&self, player: &Player, primary: &PrimaryStats) -> (r:
        SecondaryStats)
        requires
            1 <= player.level <= MAX_LEVEL,
            i32::MIN <= spec_hp_total(player.level, *primary) <= i32::MAX,
        ensures
            r == spec_secondary_stats_convert(*self, player.level, *primary),
    {
        let hp: i32 = (player.base_hp() as i64 + primary.endurance as i64 * 5) as i32;
        SecondaryStats {
            phy_out: self.phy_out_convert(),
            phy_in: self.phy_in_convert(),
            mag_out: self.mag_out_convert(player, primary),
            mag_in: self.mag_in_convert(player, primary),
            dot_out: self.dot_out_convert(),
            dot_in: self.dot_in_convert(),
            heal_out: self.heal_out_convert(),
            heal_in: self.heal_in_convert(),
            all_in: self.all_in_convert(),
            all_out: self.all_out_convert(),
            crit_chance: self.crit_chance_convert(player, primary),
            crit_mod: self.crit_mod_convert(),
            mana_consumption: self.mana_consumption_convert(),
            haste: self.haste_convert(player, primary),
            dodge: self.dodge_convert(player, primary),
            hit_chance: self.hit_chance_convert(player, primary),
            attack_power: self.attack_power_convert(player, primary),
            spell_power: self.spell_power_convert(player, primary),
            hp,
            current_hp: hp,
            mp: 100,
            current_mp: 100,
        }
    }
}

/// The conversion is a pure function of the archetype, the level and the
/// primary stats: two results derived from identical inputs are identical.
pub proof fn lemma_convert_deterministic(
    m: ClassModel,
    level: u32,
    p: PrimaryStats,
    r1: SecondaryStats,
    r2: SecondaryStats,
)
    requires
        r1 == spec_secondary_stats_convert(m, level, p),
        r2 == spec_secondary_stats_convert(m, level, p),
    ensures
        r1 == r2,
{
}

} // verus!
