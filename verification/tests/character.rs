//! Character behaviour: ratio tables, damage enum classification, the
//! talent effect, and `damage_internal` including the concrete scenario.

use mona_core::attribute::{AttributeGraph, AttributeName};
use mona_core::damage::{Element, Enemy, SkillType};
use mona_core::ineffa::{
    CharacterCommonData, CharacterConfig, CharacterSkillConfig, DamageContext, Ineffa,
    IneffaDamageEnum, ineffa_skill,
};

/// 1000.0 in fixed-point units.
const ATK_1000: u64 = 10_000_000;

fn common_data() -> CharacterCommonData {
    CharacterCommonData { level: 90, skill1: 0, skill2: 0, skill3: 0, base_atk: ATK_1000 }
}

fn bare_graph() -> AttributeGraph {
    let mut g = AttributeGraph::new();
    g.set_base(AttributeName::ATK, ATK_1000);
    g
}

#[test]
fn skill_tables_hold_documented_entries() {
    let tables = ineffa_skill();
    assert_eq!(tables.normal_dmg1[0], 3_484);
    assert_eq!(tables.normal_dmg1[14], 9_316);
    assert_eq!(tables.normal_dmg4[7], 9_521);
    assert_eq!(tables.charged_dmg[0], 11_138);
    assert_eq!(tables.elemental_skill_dmg[0], 8_640);
    assert_eq!(tables.elemental_skill_dmg[14], 20_520);
    assert_eq!(tables.shield_base[0], 13_866_800);
    assert_eq!(tables.elemental_burst_dmg[14], 160_740);
    assert_eq!(tables.plunging_dmg3[0], 15_968);
    assert_eq!(tables.shield_absorption[14], 52_666);
}

#[test]
fn damage_enum_elements() {
    assert_eq!(IneffaDamageEnum::Normal1.get_element(), Element::Physical);
    assert_eq!(IneffaDamageEnum::Normal4.get_element(), Element::Physical);
    assert_eq!(IneffaDamageEnum::Charged.get_element(), Element::Physical);
    assert_eq!(IneffaDamageEnum::Plunging2.get_element(), Element::Physical);
    assert_eq!(IneffaDamageEnum::Skill.get_element(), Element::Electro);
    assert_eq!(IneffaDamageEnum::Burst.get_element(), Element::Electro);
}

#[test]
fn damage_enum_skill_types() {
    assert_eq!(IneffaDamageEnum::Normal1.get_skill_type(), SkillType::NormalAttack);
    assert_eq!(IneffaDamageEnum::Charged.get_skill_type(), SkillType::ChargedAttack);
    assert_eq!(IneffaDamageEnum::Plunging1.get_skill_type(), SkillType::PlungingAttackInAction);
    assert_eq!(IneffaDamageEnum::Plunging2.get_skill_type(), SkillType::PlungingAttackOnGround);
    assert_eq!(IneffaDamageEnum::Plunging3.get_skill_type(), SkillType::PlungingAttackOnGround);
    assert_eq!(IneffaDamageEnum::Skill.get_skill_type(), SkillType::ElementalSkill);
    assert_eq!(IneffaDamageEnum::Burst.get_skill_type(), SkillType::ElementalBurst);
}

#[test]
fn damage_enum_index_roundtrip() {
    for i in 0..10usize {
        let s = IneffaDamageEnum::from_index(i);
        assert_eq!(s.to_index(), i);
    }
}

#[test]
fn skill_damage_concrete_scenario() {
    // Skill-ratio table entry 0.864 at talent index 0, ATK = 1000, no
    // crit, no mitigation, no bonuses: damage is exactly 864.0.
    let g = bare_graph();
    let cd = common_data();
    let enemy = Enemy::unmitigated();
    let context = DamageContext { character_common_data: &cd, attribute: &g, enemy: &enemy };
    let config = CharacterSkillConfig::Ineffa { overclocking_active: false };
    let skill_index = IneffaDamageEnum::Skill.to_index();
    let d = Ineffa::damage_internal(&context, skill_index, &config, None).unwrap();
    assert_eq!(d.normal_damage, 8_640_000);
    assert_eq!(d.expectation, 8_640_000);
}

#[test]
fn overclocking_adds_follow_up_ratio_on_skill() {
    let g = bare_graph();
    let cd = common_data();
    let enemy = Enemy::unmitigated();
    let context = DamageContext { character_common_data: &cd, attribute: &g, enemy: &enemy };
    let off = CharacterSkillConfig::Ineffa { overclocking_active: false };
    let on = CharacterSkillConfig::Ineffa { overclocking_active: true };
    let skill_index = IneffaDamageEnum::Skill.to_index();
    let d_off = Ineffa::damage_internal(&context, skill_index, &off, None).unwrap();
    let d_on = Ineffa::damage_internal(&context, skill_index, &on, None).unwrap();
    // (0.864 + 0.65) * 1000 = 1514.0
    assert_eq!(d_on.normal_damage, 15_140_000);
    assert!(d_off.expectation < d_on.expectation);
}

#[test]
fn overclocking_leaves_other_actions_unchanged() {
    let g = bare_graph();
    let cd = common_data();
    let enemy = Enemy::unmitigated();
    let context = DamageContext { character_common_data: &cd, attribute: &g, enemy: &enemy };
    let off = CharacterSkillConfig::Ineffa { overclocking_active: false };
    let on = CharacterSkillConfig::Ineffa { overclocking_active: true };
    let d_off = Ineffa::damage_internal(&context, 0, &off, None).unwrap();
    let d_on = Ineffa::damage_internal(&context, 0, &on, None).unwrap();
    assert_eq!(d_off, d_on);
    // 0.3484 * 1000 = 348.4
    assert_eq!(d_on.normal_damage, 3_484_000);
}

#[test]
fn foreign_skill_config_defaults_to_active() {
    let g = bare_graph();
    let cd = common_data();
    let enemy = Enemy::unmitigated();
    let context = DamageContext { character_common_data: &cd, attribute: &g, enemy: &enemy };
    let foreign = CharacterSkillConfig::NoConfig;
    let on = CharacterSkillConfig::Ineffa { overclocking_active: true };
    let skill_index = IneffaDamageEnum::Skill.to_index();
    let d_foreign = Ineffa::damage_internal(&context, skill_index, &foreign, None).unwrap();
    let d_on = Ineffa::damage_internal(&context, skill_index, &on, None).unwrap();
    assert_eq!(d_foreign, d_on);
}

#[test]
fn talent_levels_select_table_entries() {
    let g = bare_graph();
    let cd = CharacterCommonData { level: 90, skill1: 5, skill2: 11, skill3: 0, base_atk: ATK_1000 };
    let enemy = Enemy::unmitigated();
    let context = DamageContext { character_common_data: &cd, attribute: &g, enemy: &enemy };
    let config = CharacterSkillConfig::Ineffa { overclocking_active: false };
    // normal_dmg1 at index 5: 0.5063 * 1000 = 506.3
    let d1 = Ineffa::damage_internal(&context, 0, &config, None).unwrap();
    assert_eq!(d1.normal_damage, 5_063_000);
    // elemental_skill_dmg at index 11: 1.728 * 1000 = 1728.0
    let skill_index = IneffaDamageEnum::Skill.to_index();
    let ds = Ineffa::damage_internal(&context, skill_index, &config, None).unwrap();
    assert_eq!(ds.normal_damage, 17_280_000);
}

#[test]
fn new_effect_rates() {
    let cd = common_data();
    let on = Ineffa::new_effect(&cd, &CharacterConfig::Ineffa { em_bonus_active: true }).unwrap();
    assert_eq!(on.em_bonus_rate, 600);
    let off = Ineffa::new_effect(&cd, &CharacterConfig::Ineffa { em_bonus_active: false }).unwrap();
    assert_eq!(off.em_bonus_rate, 0);
    let foreign = Ineffa::new_effect(&cd, &CharacterConfig::NoConfig).unwrap();
    assert_eq!(foreign.em_bonus_rate, 600);
}

#[test]
fn lunar_bonus_scales_and_caps() {
    // 0.7% per 100 base ATK: 1000 ATK gives 7%; capped at 14%.
    let cd = common_data();
    let e = Ineffa::new_effect(&cd, &CharacterConfig::NoConfig).unwrap();
    assert_eq!(e.lunar_charged_bonus, 700);
    let big = CharacterCommonData { level: 90, skill1: 0, skill2: 0, skill3: 0, base_atk: 30_000_000 };
    let e2 = Ineffa::new_effect(&big, &CharacterConfig::NoConfig).unwrap();
    assert_eq!(e2.lunar_charged_bonus, 1_400);
}

#[test]
fn effect_registers_em_edge() {
    let cd = common_data();
    let effect = Ineffa::new_effect(&cd, &CharacterConfig::Ineffa { em_bonus_active: true }).unwrap();
    let mut g = bare_graph();
    effect.change_attribute(&mut g);
    // 6% of 1000.0 ATK feeds Elemental Mastery.
    assert_eq!(g.get_value(AttributeName::ElementalMastery).unwrap(), 600_000);
    // The edge follows ATK as it changes.
    g.add_flat(AttributeName::ATK, ATK_1000);
    assert_eq!(g.get_value(AttributeName::ElementalMastery).unwrap(), 1_200_000);
}

#[test]
fn inactive_effect_contributes_nothing() {
    let cd = common_data();
    let effect = Ineffa::new_effect(&cd, &CharacterConfig::Ineffa { em_bonus_active: false }).unwrap();
    let mut g = bare_graph();
    effect.change_attribute(&mut g);
    assert_eq!(g.get_value(AttributeName::ElementalMastery).unwrap(), 0);
}
