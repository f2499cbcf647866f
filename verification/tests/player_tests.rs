use statcore::error::BackendError;
use statcore::player::{Class, ClassModel, Player, PrimaryStats, SecondaryStats};

#[test]
fn test_class_model_from_str() {
    assert_eq!(
        ClassModel::from_str("Tank Melee").unwrap(),
        ClassModel::TankMelee
    );
    assert_eq!(
        ClassModel::from_str("power-caster").unwrap(),
        ClassModel::PowerCaster
    );
    assert!(ClassModel::from_str("unknown").is_err());
}

#[test]
fn test_level_primary_stat_total() {
    let player = Player::new(100);
    let class_model = ClassModel::TankMelee;
    let primary_stats = class_model.level_primary_stat_total(&player);
    println!("Primary Stats at level 50 for Tank Melee: {:?}", primary_stats);
}

#[test]
fn class_from_str_is_separator_and_case_insensitive() {
    assert_eq!(
        ClassModel::from_str("TANK_MELEE").unwrap(),
        ClassModel::TankMelee
    );
    assert_eq!(
        ClassModel::from_str("dodge-melee").unwrap(),
        ClassModel::DodgeMelee
    );
    assert_eq!(
        ClassModel::from_str("  Full  Hybrid ").unwrap(),
        ClassModel::FullHybrid
    );
    assert_eq!(
        ClassModel::from_str("offensivecaster").unwrap(),
        ClassModel::OffensiveCaster
    );
}

#[test]
fn class_from_str_error_carries_raw_input() {
    match ClassModel::from_str("necromancer") {
        Err(BackendError::InvalidClassModel(raw)) => assert_eq!(raw, "necromancer"),
        other => panic!("expected InvalidClassModel, got {:?}", other),
    }
}

#[test]
fn class_display_names_round_trip() {
    for model in ClassModel::all() {
        assert_eq!(ClassModel::from_str(model.as_str()).unwrap(), model);
    }
}

#[test]
fn class_display_names_exact() {
    assert_eq!(ClassModel::TankMelee.as_str(), "Tank Melee");
    assert_eq!(ClassModel::DodgeMelee.as_str(), "Dodge Melee");
    assert_eq!(ClassModel::PowerMelee.as_str(), "Power Melee");
    assert_eq!(ClassModel::OffensiveCaster.as_str(), "Offensive Caster");
    assert_eq!(ClassModel::DefensiveCaster.as_str(), "Defensive Caster");
    assert_eq!(ClassModel::PowerCaster.as_str(), "Power Caster");
    assert_eq!(ClassModel::FullHybrid.as_str(), "Full Hybrid");
    assert_eq!(ClassModel::LuckHybrid.as_str(), "Luck Hybrid");
}

#[test]
fn all_lists_the_eight_archetypes_in_order() {
    let all = ClassModel::all();
    assert_eq!(all.len(), 8);
    assert_eq!(all[0], ClassModel::TankMelee);
    assert_eq!(all[3], ClassModel::OffensiveCaster);
    assert_eq!(all[7], ClassModel::LuckHybrid);
}

#[test]
fn level_interstat_total_is_linear() {
    let model = ClassModel::TankMelee;
    assert_eq!(model.level_interstat_total(&Player::new(1)), 15);
    assert_eq!(model.level_interstat_total(&Player::new(50)), 7 * 49 + 15);
    assert_eq!(model.level_interstat_total(&Player::new(100)), 708);
}

#[test]
fn level_primary_stat_total_tank_at_cap() {
    let player = Player::new(100);
    let spread = ClassModel::TankMelee.level_primary_stat_total(&player);
    assert_eq!(spread.strength, 191);
    assert_eq!(spread.intellect, 35);
    assert_eq!(spread.dexterity, 155);
    assert_eq!(spread.endurance, 212);
    assert_eq!(spread.wisdom, 70);
    assert_eq!(spread.luck, 42);
}

#[test]
fn base_hp_steps_only_at_the_cap() {
    assert_eq!(Player::new(1).base_hp(), 360);
    assert_eq!(Player::new(50).base_hp(), 360);
    assert_eq!(Player::new(99).base_hp(), 360);
    assert_eq!(Player::new(100).base_hp(), 2000);
}

#[test]
fn efficiency_exact_values() {
    assert_eq!(Player::new(50).efficiency(), 705_467);
    assert_eq!(Player::new(100).efficiency(), 126_984);
}

#[test]
fn convert_tank_melee_at_cap_exact() {
    let player = Player::new(100);
    let primary = PrimaryStats::new(100, 50, 80, 60, 40, 30);
    let stats = ClassModel::TankMelee.secondary_stats_convert(&player, &primary);
    assert_eq!(stats.crit_chance, 5_841_270);
    assert_eq!(stats.mag_in, -6_349_206);
    assert_eq!(stats.mag_out, 0);
    assert_eq!(stats.hit_chance, 1_904_762);
    assert_eq!(stats.haste, 2_666_667);
    assert_eq!(stats.dodge, 4_190_476);
    assert_eq!(stats.attack_power, 221_000_000);
    assert_eq!(stats.spell_power, 100_000_000);
    assert_eq!(stats.crit_mod, 5_000_000);
    assert_eq!(stats.hp, 2400);
    assert_eq!(stats.current_hp, 2400);
    assert_eq!(stats.mp, 100);
    assert_eq!(stats.current_mp, 100);
    assert_eq!(stats.phy_out, 0);
    assert_eq!(stats.phy_in, 0);
    assert_eq!(stats.dot_out, 0);
    assert_eq!(stats.dot_in, 0);
    assert_eq!(stats.heal_out, 0);
    assert_eq!(stats.heal_in, 0);
    assert_eq!(stats.all_out, 0);
    assert_eq!(stats.all_in, 0);
    assert_eq!(stats.mana_consumption, 0);
}

#[test]
fn convert_luck_hybrid_exact() {
    let player = Player::new(5);
    let primary = PrimaryStats::new(10, 0, 0, 0, 20, 30);
    let stats = ClassModel::LuckHybrid.secondary_stats_convert(&player, &primary);
    assert_eq!(stats.crit_mod, 2_500_000);
    assert_eq!(stats.crit_chance, 14_814_815);
    assert_eq!(stats.attack_power, (140 * 10 + 100 * 30) * 10_000);
    assert_eq!(stats.hp, 360);
}

#[test]
fn conversion_is_deterministic() {
    let player = Player::new(73);
    let primary = PrimaryStats::new(12, 34, 56, 78, 90, 11);
    for model in ClassModel::all() {
        let first = model.secondary_stats_convert(&player, &primary);
        let second = model.secondary_stats_convert(&player, &primary);
        assert_eq!(first, second);
    }
}

#[test]
fn casters_gain_magic_output() {
    let player = Player::new(100);
    let primary = PrimaryStats::new(0, 100, 0, 0, 0, 0);
    let caster = ClassModel::PowerCaster.secondary_stats_convert(&player, &primary);
    let melee = ClassModel::PowerMelee.secondary_stats_convert(&player, &primary);
    assert!(caster.mag_out > 0);
    assert_eq!(melee.mag_out, 0);
}

#[test]
fn player_and_target_baselines_stay_distinct() {
    let player = SecondaryStats::new();
    assert_eq!(player.phy_out, 100_000_000);
    assert_eq!(player.crit_chance, 5_000_000);
    assert_eq!(player.crit_mod, 150_000_000);
    assert_eq!(player.haste, 0);
    assert_eq!(player.dodge, 4_000_000);
    assert_eq!(player.hit_chance, 90_000_000);
    assert_eq!(player.mp, 100);

    let target = SecondaryStats::new_target();
    assert_eq!(target.phy_out, 0);
    assert_eq!(target.crit_chance, 15_000_000);
    assert_eq!(target.crit_mod, 200_000_000);
    assert_eq!(target.haste, 37_500_000);
    assert_eq!(target.dodge, 10_000_000);
    assert_eq!(target.hit_chance, 90_000_000);
    assert_ne!(player, target);
}

#[test]
fn secondary_stats_add_is_field_wise() {
    let mut a = SecondaryStats::new();
    let mut b = SecondaryStats::new_target();
    b.attack_power = 5_000_000;
    b.hp = 300;
    a.add(&b);
    assert_eq!(a.phy_out, 100_000_000);
    assert_eq!(a.crit_chance, 20_000_000);
    assert_eq!(a.crit_mod, 350_000_000);
    assert_eq!(a.haste, 37_500_000);
    assert_eq!(a.attack_power, 5_000_000);
    assert_eq!(a.hp, 300);
    assert_eq!(a.mp, 200);
}

#[test]
fn modify_operations_step_one_field() {
    let mut s = SecondaryStats::new();
    s.modify_phy_out(10_000_000, false);
    assert_eq!(s.phy_out, 110_000_000);
    s.modify_phy_out(2_000_000, true);
    assert_eq!(s.phy_out, 220_000_000);
    assert_eq!(s.mag_out, 100_000_000);
    s.modify_all_in(500_000, true);
    assert_eq!(s.all_in, 50_000_000);
    s.modify_dot_out(-40_000_000, false);
    assert_eq!(s.dot_out, 60_000_000);
}

#[test]
fn mana_consumption_never_exceeds_the_cap() {
    let mut s = SecondaryStats::new();
    for _ in 0..10 {
        s.modify_mana_consumption(20_000_000, false);
        assert!(s.mana_consumption <= 50_000_000);
        s.modify_mana_consumption(3_000_000, true);
        assert!(s.mana_consumption <= 50_000_000);
    }
    assert_eq!(s.mana_consumption, 50_000_000);
    s.modify_mana_consumption(-60_000_000, false);
    assert_eq!(s.mana_consumption, -10_000_000);
}

#[test]
fn hp_reset_and_resource_drains() {
    let mut s = SecondaryStats::new();
    s.modify_hp(500);
    assert_eq!(s.hp, 500);
    assert_eq!(s.current_hp, 500);
    s.take_damage(620);
    assert_eq!(s.current_hp, -120);
    assert_eq!(s.hp, 500);
    s.use_mana(130);
    assert_eq!(s.current_mp, -30);
    assert_eq!(s.mp, 100);
}

#[test]
fn primary_stats_merge() {
    let mut a = PrimaryStats::new(1, 2, 3, 4, 5, 6);
    let b = PrimaryStats::new(10, -2, 0, 4, 100, -6);
    a.add(&b);
    assert_eq!(a, PrimaryStats::new(11, 0, 3, 8, 105, 0));
}

#[test]
fn class_keeps_name_and_model() {
    let class = Class::new("Bruiser", ClassModel::TankMelee);
    assert_eq!(class.name, "Bruiser");
    assert_eq!(class.class_model, ClassModel::TankMelee);
}
