//! Damage builder behaviour: ratio accumulation, mitigation and bonus
//! application, crit mixing bounds, determinism.

use mona_core::attribute::{AttributeGraph, AttributeName};
use mona_core::damage::{DamageBuilder, Element, Enemy, SkillType};
use mona_core::fixed::SCALE;

/// 1000.0 in fixed-point units.
const ATK_1000: u64 = 10_000_000;

fn atk_graph(crit_rate: u64, crit_bonus: u64) -> AttributeGraph {
    let mut g = AttributeGraph::new();
    g.set_base(AttributeName::ATK, ATK_1000);
    g.set_base(AttributeName::CriticalRate, crit_rate);
    g.set_base(AttributeName::CriticalDamage, crit_bonus);
    g
}

fn plain_damage(crit_rate: u64, crit_bonus: u64) -> mona_core::damage::DamageResult {
    let g = atk_graph(crit_rate, crit_bonus);
    let enemy = Enemy::unmitigated();
    let mut b = DamageBuilder::new();
    b.add_atk_ratio("whole", SCALE);
    b.damage(&g, &enemy, Element::Physical, SkillType::NormalAttack, None).unwrap()
}

#[test]
fn ratio_times_atk() {
    let d = plain_damage(0, 0);
    assert_eq!(d.normal_damage, ATK_1000);
    assert_eq!(d.crit_damage, ATK_1000);
    assert_eq!(d.expectation, ATK_1000);
}

#[test]
fn ratios_accumulate_before_multipliers() {
    let g = atk_graph(0, 0);
    let enemy = Enemy::unmitigated();
    let mut b = DamageBuilder::new();
    b.add_atk_ratio("first", 5_000);
    b.add_atk_ratio("second", 5_000);
    let d = b.damage(&g, &enemy, Element::Physical, SkillType::NormalAttack, None).unwrap();
    assert_eq!(d.normal_damage, ATK_1000);
}

#[test]
fn defense_and_resistance_multipliers_apply() {
    let g = atk_graph(0, 0);
    let mut enemy = Enemy::unmitigated();
    enemy.def_mult = 5_000;  // halved by defense
    enemy.res_physical = 9_000;  // 10% resisted
    let mut b = DamageBuilder::new();
    b.add_atk_ratio("whole", SCALE);
    let d = b.damage(&g, &enemy, Element::Physical, SkillType::NormalAttack, None).unwrap();
    // 1000.0 * 0.5 * 0.9 = 450.0
    assert_eq!(d.normal_damage, 4_500_000);
}

#[test]
fn element_bonus_applies() {
    let mut g = atk_graph(0, 0);
    g.set_base(AttributeName::ElectroBonus, 2_000);
    let enemy = Enemy::unmitigated();
    let mut b = DamageBuilder::new();
    b.add_atk_ratio("whole", SCALE);
    let d = b.damage(&g, &enemy, Element::Electro, SkillType::ElementalSkill, None).unwrap();
    // 1000.0 * 1.2 = 1200.0
    assert_eq!(d.normal_damage, 12_000_000);
}

#[test]
fn skill_type_bonus_applies() {
    let mut g = atk_graph(0, 0);
    g.set_base(AttributeName::BonusNormalAttack, 1_000);
    let enemy = Enemy::unmitigated();
    let mut b = DamageBuilder::new();
    b.add_atk_ratio("whole", SCALE);
    let d = b.damage(&g, &enemy, Element::Physical, SkillType::NormalAttack, None).unwrap();
    // 1000.0 * 1.1 = 1100.0
    assert_eq!(d.normal_damage, 11_000_000);
}

#[test]
fn infusion_override_switches_element() {
    let mut g = atk_graph(0, 0);
    g.set_base(AttributeName::ElectroBonus, 2_000);
    let enemy = Enemy::unmitigated();
    let mut b = DamageBuilder::new();
    b.add_atk_ratio("whole", SCALE);
    let plain = b.damage(&g, &enemy, Element::Physical, SkillType::NormalAttack, None).unwrap();
    let infused = b
        .damage(&g, &enemy, Element::Physical, SkillType::NormalAttack, Some(Element::Electro))
        .unwrap();
    assert_eq!(plain.normal_damage, ATK_1000);
    assert_eq!(infused.normal_damage, 12_000_000);
}

#[test]
fn crit_damage_is_normal_times_bonus() {
    let d = plain_damage(0, 5_000);
    assert_eq!(d.crit_damage, 15_000_000);
}

#[test]
fn crit_mix_at_rate_zero_is_normal() {
    let d = plain_damage(0, 5_000);
    assert_eq!(d.expectation, d.normal_damage);
}

#[test]
fn crit_mix_at_half_rate_is_between() {
    let d = plain_damage(5_000, 5_000);
    assert!(d.normal_damage <= d.expectation);
    assert!(d.expectation <= d.crit_damage);
    // (0.5 * 1000 + 0.5 * 1500) = 1250.0 exactly
    assert_eq!(d.expectation, 12_500_000);
}

#[test]
fn crit_mix_at_full_rate_is_crit() {
    let d = plain_damage(SCALE, 5_000);
    assert_eq!(d.expectation, d.crit_damage);
}

#[test]
fn crit_rate_above_full_is_clamped() {
    let d = plain_damage(17_000, 5_000);
    assert_eq!(d.expectation, d.crit_damage);
    assert_eq!(d.expectation, plain_damage(SCALE, 5_000).expectation);
}

#[test]
fn damage_is_deterministic() {
    let g = atk_graph(5_000, 5_000);
    let enemy = Enemy::unmitigated();
    let mut b = DamageBuilder::new();
    b.add_atk_ratio("whole", SCALE);
    let d1 = b.damage(&g, &enemy, Element::Physical, SkillType::NormalAttack, None).unwrap();
    let d2 = b.damage(&g, &enemy, Element::Physical, SkillType::NormalAttack, None).unwrap();
    assert_eq!(d1, d2);
}

#[test]
fn damage_reports_cycle_error() {
    let mut g = atk_graph(0, 0);
    g.add_edge1(AttributeName::ATK, AttributeName::ElementalMastery, 600, "forward");
    g.add_edge1(AttributeName::ElementalMastery, AttributeName::ATK, 100, "backward");
    let enemy = Enemy::unmitigated();
    let mut b = DamageBuilder::new();
    b.add_atk_ratio("whole", SCALE);
    assert!(b.damage(&g, &enemy, Element::Physical, SkillType::NormalAttack, None).is_err());
}

#[test]
fn edge_fed_atk_raises_damage() {
    // An edge feeding ATK itself is resolved before the ratio applies.
    let mut g = atk_graph(0, 0);
    g.set_base(AttributeName::HP, 20_000_000);
    g.add_edge1(AttributeName::HP, AttributeName::ATK, 1_000, "tenth of HP");
    let enemy = Enemy::unmitigated();
    let mut b = DamageBuilder::new();
    b.add_atk_ratio("whole", SCALE);
    let d = b.damage(&g, &enemy, Element::Physical, SkillType::NormalAttack, None).unwrap();
    // ATK = 1000 + 0.1 * 2000 = 1200.0
    assert_eq!(d.normal_damage, 12_000_000);
}
