use statcore::gear::{
    get_stats, gst_total, Enhancement, EnhancementPattern, GearSlot, Stat, StatBlock,
};

#[test]
fn test_enhancement_pattern_from_id() {
    assert_eq!(
        EnhancementPattern::from_id(1).unwrap(),
        EnhancementPattern::Adventurer
    );
    assert_eq!(
        EnhancementPattern::from_id(6).unwrap(),
        EnhancementPattern::Wizard
    );
    assert_eq!(
        EnhancementPattern::from_id(28).unwrap(),
        EnhancementPattern::Anima
    );
    assert!(EnhancementPattern::from_id(99).is_none());
}

#[test]
fn test_gear_slot_from_str() {
    assert_eq!(GearSlot::from_str("he").unwrap(), GearSlot::Helm);
    assert_eq!(GearSlot::from_str("Armor").unwrap(), GearSlot::Armor);
    assert_eq!(GearSlot::from_str("BA").unwrap(), GearSlot::Cape);
    assert_eq!(GearSlot::from_str("weapon").unwrap(), GearSlot::Weapon);
    assert!(GearSlot::from_str("unknown").is_none());
}

#[test]
fn test_get_stats() {
    let enh = Enhancement::new(100, 6, "anima").unwrap();
    let slot = GearSlot::Helm;

    let stats = get_stats(&enh, slot);

    println!(
        "Helm ({:?}) enhancement {:?} \u{2192} STR {}, DEX {}, END {}, INT {}, WIS {}, LCK {}",
        slot,
        enh.pattern,
        stats.strength,
        stats.dexterity,
        stats.endurance,
        stats.intellect,
        stats.wisdom,
        stats.luck
    );
}

#[test]
fn gst_total_exact_values() {
    // The documented total-budget constant is reached at the level cap
    // with rarity zero.
    assert_eq!(gst_total(100, 0), 572);
    assert_eq!(gst_total(1, 0), 12);
    assert_eq!(gst_total(1, 1), 18);
    assert_eq!(gst_total(50, 3), 306);
    assert_eq!(gst_total(100, 6), 606);
}

/// Nearest-integer division, halves away from zero, as the engine rounds.
fn rdiv(n: i64, d: i64) -> i64 {
    if n >= 0 {
        (2 * n + d) / (2 * d)
    } else {
        -((2 * -n + d) / (2 * d))
    }
}

fn all_patterns() -> Vec<EnhancementPattern> {
    vec![
        EnhancementPattern::Adventurer,
        EnhancementPattern::Fighter,
        EnhancementPattern::Thief,
        EnhancementPattern::Armsman,
        EnhancementPattern::Hybrid,
        EnhancementPattern::Wizard,
        EnhancementPattern::Healer,
        EnhancementPattern::Spellbreaker,
        EnhancementPattern::Lucky,
        EnhancementPattern::Forge,
        EnhancementPattern::Vim,
        EnhancementPattern::Hearty,
        EnhancementPattern::Examen,
        EnhancementPattern::Pneuma,
        EnhancementPattern::Anima,
    ]
}

#[test]
fn gear_stats_close_the_budget_gap() {
    // For every pattern, slot and a spread of levels: whenever the
    // provisional rounded shares do not exceed the budget, the allocation
    // sums to the budget exactly; when they exceed it, no point is removed.
    for pattern in all_patterns() {
        for slot in [GearSlot::Helm, GearSlot::Armor, GearSlot::Cape, GearSlot::Weapon] {
            for (level, rarity) in [(1u32, 0u32), (1, 1), (13, 2), (37, 0), (60, 4), (100, 6)] {
                let enh = Enhancement {
                    level,
                    rarity,
                    pattern,
                };
                let budget = rdiv(gst_total(level, rarity) * slot.ratio(), 100);
                let r = pattern.ratios();
                let prov_sum = rdiv(budget * r.end_ratio as i64, 100)
                    + rdiv(budget * r.str_ratio as i64, 100)
                    + rdiv(budget * r.int_ratio as i64, 100)
                    + rdiv(budget * r.dex_ratio as i64, 100)
                    + rdiv(budget * r.wis_ratio as i64, 100)
                    + rdiv(budget * r.lck_ratio as i64, 100);
                let got = get_stats(&enh, slot);
                let sum = (got.strength + got.endurance + got.dexterity + got.intellect
                    + got.wisdom
                    + got.luck) as i64;
                if prov_sum <= budget {
                    assert_eq!(sum, budget, "{:?} {:?} {} {}", pattern, slot, level, rarity);
                } else {
                    assert_eq!(sum, prov_sum, "{:?} {:?} {} {}", pattern, slot, level, rarity);
                }
            }
        }
    }
}

#[test]
fn anima_helm_distribution_exact() {
    let enh = Enhancement::new(100, 6, "Anima").unwrap();
    let got = get_stats(&enh, GearSlot::Helm);
    assert_eq!(got.strength, 204);
    assert_eq!(got.dexterity, 36);
    assert_eq!(got.endurance, -136);
    assert_eq!(got.intellect, 24);
    assert_eq!(got.wisdom, 24);
    assert_eq!(got.luck, 0);
}

#[test]
fn lucky_small_budget_overshoots() {
    // At a budget of five points the rounded shares already sum to eight:
    // the engine grants no further point and removes none.
    let enh = Enhancement::new(1, 1, "lucky").unwrap();
    let got = get_stats(&enh, GearSlot::Helm);
    assert_eq!(
        (got.strength, got.dexterity, got.endurance, got.intellect, got.wisdom, got.luck),
        (1, 1, 1, 1, 1, 3)
    );
}

#[test]
fn wizard_weapon_distribution_exact() {
    let enh = Enhancement::new(40, 2, "WIZARD").unwrap();
    let got = get_stats(&enh, GearSlot::Weapon);
    assert_eq!(
        (got.strength, got.dexterity, got.endurance, got.intellect, got.wisdom, got.luck),
        (0, 0, 8, 41, 16, 16)
    );
}

#[test]
fn pattern_round_trip_all() {
    // Building an enhancement from a pattern's canonical name and
    // re-deriving its id resolves back to the same pattern, for all
    // fifteen patterns.
    for pattern in all_patterns() {
        let row = pattern.ratios();
        let enh = Enhancement::new(10, 0, row.name).unwrap();
        assert_eq!(enh.pattern, pattern);
        assert_eq!(EnhancementPattern::from_id(row.id).unwrap(), pattern);
    }
}

#[test]
fn enhancement_new_rejects_unknown_pattern() {
    assert!(Enhancement::new(10, 0, "sturdy").is_none());
    assert!(Enhancement::new(10, 0, "").is_none());
}

#[test]
fn stat_display_tags() {
    assert_eq!(Stat::Str.name(), "STR");
    assert_eq!(Stat::End.name(), "END");
    assert_eq!(Stat::Dex.name(), "DEX");
    assert_eq!(Stat::Int.name(), "INT");
    assert_eq!(Stat::Wis.name(), "WIS");
    assert_eq!(Stat::Lck.name(), "LCK");
}

#[test]
fn stat_block_sums_and_converts() {
    let mut block = StatBlock::new();
    assert_eq!(block.sum(), 0);
    block.str_stat = 3;
    block.end_stat = -2;
    block.lck_stat = 5;
    assert_eq!(block.sum(), 6);
    let primary = block.to_primary_stats();
    assert_eq!(primary.strength, 3);
    assert_eq!(primary.endurance, -2);
    assert_eq!(primary.luck, 5);
    assert_eq!(primary.intellect, 0);
}
