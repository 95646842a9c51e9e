//! Target function behaviour: construction, the weighted score, the
//! conditional-effect toggle, and the optimizer hint tables.

use mona_core::attribute::{AttributeGraph, AttributeName};
use mona_core::damage::Enemy;
use mona_core::fixed::SCALE;
use mona_core::ineffa::{CharacterCommonData, Ineffa};
use mona_core::ineffa_default::{
    ArtifactSetName, IneffaDefaultTargetFunction, StatName, TargetFunctionConfig, TeamQuantization,
    WeaponCommonData,
};

/// 1000.0 in fixed-point units.
const ATK_1000: u64 = 10_000_000;

fn common_data() -> CharacterCommonData {
    CharacterCommonData { level: 90, skill1: 0, skill2: 0, skill3: 0, base_atk: ATK_1000 }
}

fn weapon() -> WeaponCommonData {
    WeaponCommonData { level: 90, base_atk: 6_740_000 }
}

fn snapshot() -> AttributeGraph {
    let mut g = AttributeGraph::new();
    g.set_base(AttributeName::ATK, ATK_1000);
    g
}

#[test]
fn create_reads_config_rate() {
    let cd = common_data();
    let w = weapon();
    let t = IneffaDefaultTargetFunction::create(
        &cd,
        &w,
        &TargetFunctionConfig::IneffaDefault { overclocking_rate: 5_000 },
    );
    assert_eq!(t.overclocking_rate, 5_000);
}

#[test]
fn create_falls_back_to_default_rate() {
    let cd = common_data();
    let w = weapon();
    let t = IneffaDefaultTargetFunction::create(&cd, &w, &TargetFunctionConfig::NoConfig);
    assert_eq!(t.overclocking_rate, 8_000);
}

#[test]
fn role_lookup_uses_default_rate() {
    let cd = common_data();
    let w = weapon();
    let team = TeamQuantization {};
    let t = Ineffa::get_target_function_by_role(0, &team, &cd, &w);
    assert_eq!(t.overclocking_rate, 8_000);
}

#[test]
fn target_score_concrete_value() {
    // ATK 1000, no crit, no mitigation, talent indices 0, rate 0.8.
    // normal combo: (0.3484 + 0.3422 + 0.4284 + 0.5568) * 1000 = 1675.8
    // skill: (0.864 + 0.65) * 1000 * 1.8 = 2725.2
    // burst: 6.768 * 1000 = 6768.0
    // charged: 1.1138 * 1000 = 1113.8
    // score = 1675.8 * 0.4 + 2725.2 * 0.8 + 6768.0 * 0.6 + 1113.8 * 0.3
    //       = 670.32 + 2180.16 + 4060.8 + 334.14 = 7245.42
    let g = snapshot();
    let cd = common_data();
    let enemy = Enemy::unmitigated();
    let t = IneffaDefaultTargetFunction { overclocking_rate: 8_000 };
    let score = t.target(&g, &cd, &enemy).unwrap();
    assert_eq!(score, 72_454_200);
}

#[test]
fn target_is_deterministic() {
    let g = snapshot();
    let cd = common_data();
    let enemy = Enemy::unmitigated();
    let t = IneffaDefaultTargetFunction { overclocking_rate: 8_000 };
    assert_eq!(t.target(&g, &cd, &enemy).unwrap(), t.target(&g, &cd, &enemy).unwrap());
}

#[test]
fn conditional_rate_off_scores_strictly_lower() {
    let g = snapshot();
    let cd = common_data();
    let enemy = Enemy::unmitigated();
    let off = IneffaDefaultTargetFunction { overclocking_rate: 0 };
    let on = IneffaDefaultTargetFunction { overclocking_rate: 8_000 };
    let score_off = off.target(&g, &cd, &enemy).unwrap();
    let score_on = on.target(&g, &cd, &enemy).unwrap();
    assert!(score_off < score_on);
}

#[test]
fn better_stats_score_higher() {
    let cd = common_data();
    let enemy = Enemy::unmitigated();
    let t = IneffaDefaultTargetFunction { overclocking_rate: 8_000 };
    let base = t.target(&snapshot(), &cd, &enemy).unwrap();
    let mut better = snapshot();
    better.add_percentage(AttributeName::ATK, 5_000);
    assert!(t.target(&better, &cd, &enemy).unwrap() > base);
}

#[test]
fn target_reports_cycle_error() {
    let mut g = snapshot();
    g.add_edge1(AttributeName::ATK, AttributeName::ElementalMastery, 600, "forward");
    g.add_edge1(AttributeName::ElementalMastery, AttributeName::ATK, 100, "backward");
    let cd = common_data();
    let enemy = Enemy::unmitigated();
    let t = IneffaDefaultTargetFunction { overclocking_rate: 8_000 };
    assert!(t.target(&g, &cd, &enemy).is_err());
}

#[test]
fn opt_config_weights_and_whitelists() {
    let t = IneffaDefaultTargetFunction { overclocking_rate: 8_000 };
    let c = t.get_target_function_opt_config();
    assert_eq!(c.atk_percentage, SCALE);
    assert_eq!(c.recharge, 3_000);
    assert_eq!(c.elemental_mastery, 5_000);
    assert_eq!(c.critical, SCALE);
    assert_eq!(c.critical_damage, SCALE);
    assert_eq!(c.bonus_electro, 2 * SCALE);
    assert_eq!(c.bonus_physical, 0);
    assert_eq!(c.hp_percentage, 0);
    assert_eq!(
        c.sand_main_stats,
        vec![StatName::ATKPercentage, StatName::ElementalMastery, StatName::Recharge],
    );
    assert_eq!(c.goblet_main_stats, vec![StatName::ElectroBonus, StatName::ATKPercentage]);
    assert_eq!(
        c.head_main_stats,
        vec![StatName::CriticalRate, StatName::CriticalDamage, StatName::ATKPercentage],
    );
    assert_eq!(
        c.set_names,
        Some(vec![
            ArtifactSetName::GildedDreams,
            ArtifactSetName::WanderersTroupe,
            ArtifactSetName::ThunderingFury,
            ArtifactSetName::GladiatorsFinale,
        ]),
    );
    assert_eq!(c.very_critical_set_names, None);
}

#[test]
fn default_artifact_config_is_default() {
    let t = IneffaDefaultTargetFunction { overclocking_rate: 8_000 };
    let team = TeamQuantization {};
    let c = t.get_default_artifact_config(&team);
    assert_eq!(c, Default::default());
}
