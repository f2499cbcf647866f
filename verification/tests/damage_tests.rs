use statcore::damage::{DamageSource, Type, Weapon, WeaponBoost};
use statcore::error::BackendError;
use statcore::player::SecondaryStats;

#[test]
fn named_boost_multipliers_are_exact() {
    assert_eq!(WeaponBoost::Boost15.multiplier(), 1_150_000);
    assert_eq!(WeaponBoost::Boost30.multiplier(), 1_300_000);
    assert_eq!(WeaponBoost::Boost51.multiplier(), 1_510_000);
    // The doubled tiers are the exact products of their stages.
    assert_eq!(WeaponBoost::Boost51x30.multiplier(), 1_963_000);
    assert_eq!(
        WeaponBoost::Boost51x30.multiplier(),
        1_510_000 * 1_300_000 / 1_000_000
    );
    assert_eq!(WeaponBoost::Boost51x40.multiplier(), 2_114_000);
    assert_eq!(WeaponBoost::Boost51x50.multiplier(), 2_265_000);
    assert_eq!(WeaponBoost::Boost35x75.multiplier(), 2_362_500);
}

#[test]
fn boost_tokens_select_named_tiers() {
    assert_eq!(WeaponBoost::from_str("51x30").unwrap(), WeaponBoost::Boost51x30);
    assert_eq!(WeaponBoost::from_str("30").unwrap(), WeaponBoost::Boost30);
    assert_eq!(WeaponBoost::from_str("35x75").unwrap(), WeaponBoost::Boost35x75);
}

#[test]
fn custom_boost_percentages() {
    assert_eq!(
        WeaponBoost::from_str("20").unwrap(),
        WeaponBoost::Custom(1_200_000)
    );
    assert_eq!(
        WeaponBoost::from_str("20.5").unwrap(),
        WeaponBoost::Custom(1_205_000)
    );
    assert_eq!(
        WeaponBoost::from_str("+7").unwrap(),
        WeaponBoost::Custom(1_070_000)
    );
    assert_eq!(
        WeaponBoost::from_str("-50").unwrap(),
        WeaponBoost::Custom(500_000)
    );
    assert_eq!(
        WeaponBoost::from_str(".5").unwrap(),
        WeaponBoost::Custom(1_005_000)
    );
    assert_eq!(
        WeaponBoost::from_str("3.").unwrap(),
        WeaponBoost::Custom(1_030_000)
    );
    assert_eq!(
        WeaponBoost::from_str("1.2345678").unwrap(),
        WeaponBoost::Custom(1_012_346)
    );
}

#[test]
fn invalid_boost_tokens_fail() {
    for bad in ["alpha", "", ".", "--5", "12x34", "1.2.3", "2000000001"] {
        match WeaponBoost::from_str(bad) {
            Err(BackendError::InvalidWeaponBoost(_)) => {}
            other => panic!("expected InvalidWeaponBoost for {:?}, got {:?}", bad, other),
        }
    }
}

fn sample_weapon() -> Weapon {
    Weapon {
        range: 2_000_000,
        dps: 50_000_000,
        boost: WeaponBoost::Boost30,
    }
}

fn sample_stats() -> SecondaryStats {
    let mut s = SecondaryStats::new();
    s.attack_power = 300_000_000;
    s.spell_power = 100_000_000;
    s.modify_hp(1000);
    s
}

#[test]
fn damage_source_formulas_exact() {
    let w = sample_weapon();
    let s = sample_stats();
    assert_eq!(DamageSource::AP1.compute(&w, &s), 80_000_000);
    assert_eq!(DamageSource::AP2.compute(&w, &s), 320_000_000);
    assert_eq!(DamageSource::SP1.compute(&w, &s), 60_000_000);
    assert_eq!(DamageSource::SP2.compute(&w, &s), 240_000_000);
    assert_eq!(DamageSource::APSP1.compute(&w, &s), 64_000_000);
    assert_eq!(DamageSource::APSP2.compute(&w, &s), 128_000_000);
}

#[test]
fn doubled_sources_compose() {
    // With a whole-unit range, the doubled source equals twice the base
    // source times the range, for a spread of inputs.
    for (dps, ap, range_units) in [
        (50_000_000i64, 300_000_000i64, 2i64),
        (7_000_000, 13_000_000, 5),
        (0, 999_999, 1),
        (123_456_789, 987_654_321, 3),
    ] {
        let w = Weapon {
            range: range_units * 1_000_000,
            dps,
            boost: WeaponBoost::Boost15,
        };
        let mut s = SecondaryStats::new();
        s.attack_power = ap;
        let ap1 = DamageSource::AP1.compute(&w, &s);
        let ap2 = DamageSource::AP2.compute(&w, &s);
        assert_eq!(ap2, 2 * ap1 * range_units);
    }
}

#[test]
fn resource_snapshot_sources() {
    let w = sample_weapon();
    let mut s = sample_stats();
    s.take_damage(1300);
    s.use_mana(25);
    assert_eq!(DamageSource::cHPm.compute(&w, &s), 1000 * 1_000_000);
    assert_eq!(DamageSource::cMPm.compute(&w, &s), 100 * 1_000_000);
    assert_eq!(DamageSource::intHP.compute(&w, &s), -300 * 1_000_000);
    assert_eq!(DamageSource::intMP.compute(&w, &s), 75 * 1_000_000);
}

#[test]
fn self_modifiers_exact() {
    let mut s = SecondaryStats::new();
    s.all_out = 100_000_000;
    s.phy_out = 120_000_000;
    s.mag_out = 110_000_000;
    s.dot_out = 90_000_000;
    s.crit_mod = 150_000_000;
    assert_eq!(Type::Physical.self_modifiers(&s, true), 1_800_000);
    assert_eq!(Type::Physical.self_modifiers(&s, false), 1_200_000);
    assert_eq!(Type::Magical.self_modifiers(&s, true), 1_650_000);
    assert_eq!(Type::TrueDamage.self_modifiers(&s, false), 1_000_000);
    assert_eq!(Type::TrueDamage.self_modifiers(&s, true), 1_500_000);
    assert_eq!(Type::DamageOverTime.self_modifiers(&s, true), 990_000);
    // The crit flag does not reach the damage-over-time formula.
    assert_eq!(
        Type::DamageOverTime.self_modifiers(&s, false),
        Type::DamageOverTime.self_modifiers(&s, true)
    );
}
