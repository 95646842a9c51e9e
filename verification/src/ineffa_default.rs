//! The character's default target function: scores one build by a
//! weighted sum of the expected damage of its skill rotation, the scalar
//! objective the gear optimizer maximizes; and the stat-importance and
//! main-stat/set whitelists the optimizer reads as search hints.

use vstd::prelude::*;
use crate::fixed::{
    SCALE, fx_add, fx_mul, mul_fx, add_fx, lemma_fx_add_mono, lemma_fx_mul_mono,
};
use crate::attribute::{AttributeGraph, GraphError};
use crate::damage::{
    Element, SkillType, Enemy, damage_ready, expectation_spec, lemma_damage_monotone_in_ratio,
};
use crate::ineffa::{
    Ineffa, IneffaDamageEnum, CharacterCommonData, CharacterSkillConfig, DamageContext,
    damage_enum_of, ineffa_ratio, skill_ratio_spec,
};

verus! {

/// The trigger rate assumed for the Overclocking Circuit when no
/// configuration overrides it.
pub const DEFAULT_OVERCLOCKING_RATE: u64 = 8000;

/// Usage weight of the four-hit normal attack combo.
pub const WEIGHT_NORMAL: u64 = 4000;

/// Usage weight of the elemental skill.
pub const WEIGHT_SKILL: u64 = 8000;

/// Usage weight of the elemental burst.
pub const WEIGHT_BURST: u64 = 6000;

/// Usage weight of the charged attack.
pub const WEIGHT_CHARGED: u64 = 3000;

/// Search-pruning threshold: how close to the best a candidate must score
/// to be kept at all.
pub const DEFAULT_NORMAL_THRESHOLD: u64 = 7000;

/// Search-pruning threshold for the narrower critical pass.
pub const DEFAULT_CRITICAL_THRESHOLD: u64 = 9000;

/// Search-pruning threshold for the narrowest pass.
pub const DEFAULT_VERY_CRITICAL_THRESHOLD: u64 = 9800;

/// A gear main-stat dimension the optimizer may search over.
#[derive(Clone, Copy, PartialEq, Eq, Structural, Debug)]
pub enum StatName {
    ATKPercentage,
    ElementalMastery,
    Recharge,
    ElectroBonus,
    CriticalRate,
    CriticalDamage,
}

/// A gear set the optimizer may consider.
#[derive(Clone, Copy, PartialEq, Eq, Structural, Debug)]
pub enum ArtifactSetName {
    GildedDreams,
    WanderersTroupe,
    ThunderingFury,
    GladiatorsFinale,
}

/// The stat-importance weights and search whitelists handed to the
/// optimizer: per-stat weights (fixed-point), the viable main stats per
/// gear slot, and the viable sets.
pub struct TargetFunctionOptConfig {
    pub atk_fixed: u64,
    pub atk_percentage: u64,
    pub hp_fixed: u64,
    pub hp_percentage: u64,
    pub def_fixed: u64,
    pub def_percentage: u64,
    pub recharge: u64,
    pub elemental_mastery: u64,
    pub critical: u64,
    pub critical_damage: u64,
    pub healing_bonus: u64,
    pub bonus_electro: u64,
    pub bonus_pyro: u64,
    pub bonus_hydro: u64,
    pub bonus_anemo: u64,
    pub bonus_cryo: u64,
    pub bonus_geo: u64,
    pub bonus_dendro: u64,
    pub bonus_physical: u64,
    pub sand_main_stats: Vec<StatName>,
    pub goblet_main_stats: Vec<StatName>,
    pub head_main_stats: Vec<StatName>,
    pub set_names: Option<Vec<ArtifactSetName>>,
    pub very_critical_set_names: Option<Vec<ArtifactSetName>>,
    pub normal_threshold: u64,
    pub critical_threshold: u64,
    pub very_critical_threshold: u64,
}

/// The per-set artifact effect configuration of one evaluation; this
/// character uses every set at its defaults.
#[derive(Clone, Copy, PartialEq, Eq, Structural, Debug)]
pub struct ArtifactEffectConfig {
}

impl Default for ArtifactEffectConfig {
    /// The all-defaults configuration.
    fn default() -> (c: ArtifactEffectConfig)
        ensures
            c == (ArtifactEffectConfig {  }),
    {
        ArtifactEffectConfig {  }
    }
}

/// Team-wide buff quantization; this target function reads none of it.
#[derive(Clone, Copy, PartialEq, Eq, Structural, Debug)]
pub struct TeamQuantization {
}

/// The build-independent data of the equipped weapon.
#[derive(Clone, Copy, PartialEq, Eq, Structural, Debug)]
pub struct WeaponCommonData {
    pub level: u64,
    pub base_atk: u64,
}

/// Configuration for constructing a target function; another target
/// function's configuration falls back to the documented default rate.
#[derive(Clone, Copy, PartialEq, Eq, Structural, Debug)]
pub enum TargetFunctionConfig {
    IneffaDefault { overclocking_rate: u64 },
    NoConfig,
}

/// The overclocking rate a configuration selects.
pub open spec fn config_rate(config: TargetFunctionConfig) -> u64 {
    match config {
        TargetFunctionConfig::IneffaDefault { overclocking_rate } => overclocking_rate,
        _ => DEFAULT_OVERCLOCKING_RATE as u64,
    }
}

/// The default scoring policy for the character: a fixed-weight mix of
/// the normal combo, the charged attack, the elemental skill (scaled by
/// the assumed Overclocking Circuit trigger rate) and the burst.
pub struct IneffaDefaultTargetFunction {
    pub overclocking_rate: u64,
}

/// Every attribute the scoring rotation reads resolves: the condition
/// under which `target` succeeds.
pub open spec fn target_ready(g: AttributeGraph) -> bool {
    &&& damage_ready(g, Element::Physical, SkillType::NormalAttack)
    &&& damage_ready(g, Element::Physical, SkillType::ChargedAttack)
    &&& damage_ready(g, Element::Electro, SkillType::ElementalSkill)
    &&& damage_ready(g, Element::Electro, SkillType::ElementalBurst)
}

/// The expectation of one action of the rotation, Overclocking Circuit
/// assumed active, no infusion.
pub open spec fn rotation_expectation(
    s: IneffaDamageEnum,
    g: AttributeGraph,
    cd: CharacterCommonData,
    enemy: Enemy,
) -> u64 {
    expectation_spec(
        ineffa_ratio(s, cd.skill1 as int, cd.skill2 as int, cd.skill3 as int, true),
        g,
        enemy,
        s.element_spec(),
        s.skill_type_spec(),
    )
}

/// The score `target` returns: the weighted sum of the rotation's
/// expected damage, the skill scaled by one plus the assumed trigger rate
/// of its follow-up.
pub open spec fn target_spec(
    rate: u64,
    g: AttributeGraph,
    cd: CharacterCommonData,
    enemy: Enemy,
) -> u64 {
    let normal_sum = fx_add(
        fx_add(
            fx_add(
                rotation_expectation(IneffaDamageEnum::Normal1, g, cd, enemy),
                rotation_expectation(IneffaDamageEnum::Normal2, g, cd, enemy),
            ),
            rotation_expectation(IneffaDamageEnum::Normal3, g, cd, enemy),
        ),
        rotation_expectation(IneffaDamageEnum::Normal4, g, cd, enemy),
    );
    let skill_dmg = fx_mul(
        rotation_expectation(IneffaDamageEnum::Skill, g, cd, enemy),
        fx_add(SCALE, rate),
    );
    let burst_dmg = rotation_expectation(IneffaDamageEnum::Burst, g, cd, enemy);
    let charged_dmg = rotation_expectation(IneffaDamageEnum::Charged, g, cd, enemy);
    fx_add(
        fx_add(
            fx_add(fx_mul(normal_sum, WEIGHT_NORMAL), fx_mul(skill_dmg, WEIGHT_SKILL)),
            fx_mul(burst_dmg, WEIGHT_BURST),
        ),
        fx_mul(charged_dmg, WEIGHT_CHARGED),
    )
}

impl IneffaDefaultTargetFunction {
    /// Construct the target function from a configuration, falling back
    /// to the documented default rate on another function's
    /// configuration.
    pub fn create(
        character: &CharacterCommonData,
        weapon: &WeaponCommonData,
        config: &TargetFunctionConfig,
    ) -> (t: IneffaDefaultTargetFunction)
        ensures
            t.overclocking_rate == config_rate(*config),
    {
        let overclocking_rate = match *config {
            TargetFunctionConfig::IneffaDefault { overclocking_rate } => overclocking_rate,
            _ => DEFAULT_OVERCLOCKING_RATE,
        };
        IneffaDefaultTargetFunction { overclocking_rate }
    }

    /// The stat-importance weights and search whitelists of this policy.
    pub fn get_target_function_opt_config(&self) -> (c: TargetFunctionOptConfig)
        ensures
            c.atk_fixed == 0,
            c.atk_percentage == SCALE,
            c.hp_fixed == 0,
            c.hp_percentage == 0,
            c.def_fixed == 0,
            c.def_percentage == 0,
            c.recharge == 3000,
            c.elemental_mastery == 5000,
            c.critical == SCALE,
            c.critical_damage == SCALE,
            c.healing_bonus == 0,
            c.bonus_electro == 2 * SCALE,
            c.bonus_pyro == 0,
            c.bonus_hydro == 0,
            c.bonus_anemo == 0,
            c.bonus_cryo == 0,
            c.bonus_geo == 0,
            c.bonus_dendro == 0,
            c.bonus_physical == 0,
            c.sand_main_stats@ == seq![
                StatName::ATKPercentage,
                StatName::ElementalMastery,
                StatName::Recharge,
            ],
            c.goblet_main_stats@ == seq![StatName::ElectroBonus, StatName::ATKPercentage],
            c.head_main_stats@ == seq![
                StatName::CriticalRate,
                StatName::CriticalDamage,
                StatName::ATKPercentage,
            ],
            c.set_names matches Some(v) && v@ == seq![
                ArtifactSetName::GildedDreams,
                ArtifactSetName::WanderersTroupe,
                ArtifactSetName::ThunderingFury,
                ArtifactSetName::GladiatorsFinale,
            ],
            c.very_critical_set_names is None,
            c.normal_threshold == DEFAULT_NORMAL_THRESHOLD,
            c.critical_threshold == DEFAULT_CRITICAL_THRESHOLD,
            c.very_critical_threshold == DEFAULT_VERY_CRITICAL_THRESHOLD,
    {
        let mut sand: Vec<StatName> = Vec::new();
        sand.push(StatName::ATKPercentage);
        sand.push(StatName::ElementalMastery);
        sand.push(StatName::Recharge);
        let mut goblet: Vec<StatName> = Vec::new();
        goblet.push(StatName::ElectroBonus);
        goblet.push(StatName::ATKPercentage);
        let mut head: Vec<StatName> = Vec::new();
        head.push(StatName::CriticalRate);
        head.push(StatName::CriticalDamage);
        head.push(StatName::ATKPercentage);
        let mut sets: Vec<ArtifactSetName> = Vec::new();
        sets.push(ArtifactSetName::GildedDreams);
        sets.push(ArtifactSetName::WanderersTroupe);
        sets.push(ArtifactSetName::ThunderingFury);
        sets.push(ArtifactSetName::GladiatorsFinale);
        proof {
            assert(sand@ =~= seq![
                StatName::ATKPercentage,
                StatName::ElementalMastery,
                StatName::Recharge,
            ]);
            assert(goblet@ =~= seq![StatName::ElectroBonus, StatName::ATKPercentage]);
            assert(head@ =~= seq![
                StatName::CriticalRate,
                StatName::CriticalDamage,
                StatName::ATKPercentage,
            ]);
            assert(sets@ =~= seq![
                ArtifactSetName::GildedDreams,
                ArtifactSetName::WanderersTroupe,
                ArtifactSetName::ThunderingFury,
                ArtifactSetName::GladiatorsFinale,
            ]);
        }
        TargetFunctionOptConfig {
            atk_fixed: 0,
            atk_percentage: SCALE,
            hp_fixed: 0,
            hp_percentage: 0,
            def_fixed: 0,
            def_percentage: 0,
            recharge: 3000,
            elemental_mastery: 5000,
            critical: SCALE,
            critical_damage: SCALE,
            healing_bonus: 0,
            bonus_electro: 2 * SCALE,
            bonus_pyro: 0,
            bonus_hydro: 0,
            bonus_anemo: 0,
            bonus_cryo: 0,
            bonus_geo: 0,
            bonus_dendro: 0,
            bonus_physical: 0,
            sand_main_stats: sand,
            goblet_main_stats: goblet,
            head_main_stats: head,
            set_names: Some(sets),
            very_critical_set_names: None,
            normal_threshold: DEFAULT_NORMAL_THRESHOLD,
            critical_threshold: DEFAULT_CRITICAL_THRESHOLD,
            very_critical_threshold: DEFAULT_VERY_CRITICAL_THRESHOLD,
        }
    }

    /// This character runs every artifact set at its default effect
    /// configuration.
    pub fn get_default_artifact_config(&self, team_config: &TeamQuantization) -> (c:
        ArtifactEffectConfig)
        ensures
            c == (ArtifactEffectConfig {  }),
    {
        ArtifactEffectConfig {  }
    }

    /// Score one build: evaluate the rotation against the snapshot and
    /// the enemy and mix the expectations with the policy's fixed usage
    /// weights. Weapon and artifact contributions are already resolved
    /// into the snapshot. Fails exactly when the snapshot does not
    /// resolve (a dependency cycle).
    pub fn target(
        &self,
        attribute: &AttributeGraph,
        character: &CharacterCommonData,
        enemy: &Enemy,
    ) -> (r: Result<u64, GraphError>)
        requires
            attribute.wf(),
            character.skill1 < 15,
            character.skill2 < 15,
            character.skill3 < 15,
        ensures
            (r is Ok) == target_ready(*attribute),
            r matches Ok(v) ==> v == target_spec(
                self.overclocking_rate,
                *attribute,
                *character,
                *enemy,
            ),
    {
        let context = DamageContext {
            character_common_data: character,
            attribute,
            enemy,
        };
        let config = CharacterSkillConfig::Ineffa { overclocking_active: true };

        let dmg_normal1 = match Ineffa::damage_internal(&context, 0, &config, None) {
            Ok(d) => d,
            Err(e) => {
                return Err(e);
            },
        };
        let dmg_normal2 = match Ineffa::damage_internal(&context, 1, &config, None) {
            Ok(d) => d,
            Err(e) => {
                return Err(e);
            },
        };
        let dmg_normal3 = match Ineffa::damage_internal(&context, 2, &config, None) {
            Ok(d) => d,
            Err(e) => {
                return Err(e);
            },
        };
        let dmg_normal4 = match Ineffa::damage_internal(&context, 3, &config, None) {
            Ok(d) => d,
            Err(e) => {
                return Err(e);
            },
        };
        let dmg_charged = match Ineffa::damage_internal(&context, 4, &config, None) {
            Ok(d) => d,
            Err(e) => {
                return Err(e);
            },
        };
        let dmg_skill = match Ineffa::damage_internal(&context, 8, &config, None) {
            Ok(d) => d,
            Err(e) => {
                return Err(e);
            },
        };
        let dmg_burst = match Ineffa::damage_internal(&context, 9, &config, None) {
            Ok(d) => d,
            Err(e) => {
                return Err(e);
            },
        };

        let normal_dmg = add_fx(
            add_fx(
                add_fx(dmg_normal1.expectation, dmg_normal2.expectation),
                dmg_normal3.expectation,
            ),
            dmg_normal4.expectation,
        );
        let skill_dmg = mul_fx(dmg_skill.expectation, add_fx(SCALE, self.overclocking_rate));
        let burst_dmg = dmg_burst.expectation;

        Ok(
            add_fx(
                add_fx(
                    add_fx(mul_fx(normal_dmg, WEIGHT_NORMAL), mul_fx(skill_dmg, WEIGHT_SKILL)),
                    mul_fx(burst_dmg, WEIGHT_BURST),
                ),
                mul_fx(dmg_charged.expectation, WEIGHT_CHARGED),
            ),
        )
    }
}

impl Ineffa {
    /// The scoring policy used for the character's default role: the
    /// documented trigger-rate default.
    pub fn get_target_function_by_role(
        role_index: usize,
        team: &TeamQuantization,
        c: &CharacterCommonData,
        w: &WeaponCommonData,
    ) -> (t: IneffaDefaultTargetFunction)
        ensures
            t.overclocking_rate == DEFAULT_OVERCLOCKING_RATE,
    {
        IneffaDefaultTargetFunction { overclocking_rate: DEFAULT_OVERCLOCKING_RATE }
    }
}

/// Conditional-effect monotonicity, at the scoring level: raising the
/// assumed Overclocking Circuit trigger rate (the policy's conditional
/// bonus dial, zero when the effect is off) never lowers the score, all
/// other inputs held fixed.
pub proof fn lemma_target_monotone_in_rate(
    r1: u64,
    r2: u64,
    g: AttributeGraph,
    cd: CharacterCommonData,
    enemy: Enemy,
)
    requires
        r1 <= r2,
    ensures
        target_spec(r1, g, cd, enemy) <= target_spec(r2, g, cd, enemy),
{
    let skill_exp = rotation_expectation(IneffaDamageEnum::Skill, g, cd, enemy);
    lemma_fx_add_mono(SCALE, r1, SCALE, r2);
    lemma_fx_mul_mono(skill_exp, fx_add(SCALE, r1), skill_exp, fx_add(SCALE, r2));
    let s1 = fx_mul(skill_exp, fx_add(SCALE, r1));
    let s2 = fx_mul(skill_exp, fx_add(SCALE, r2));
    lemma_fx_mul_mono(s1, WEIGHT_SKILL, s2, WEIGHT_SKILL);
    let normal_sum = fx_add(
        fx_add(
            fx_add(
                rotation_expectation(IneffaDamageEnum::Normal1, g, cd, enemy),
                rotation_expectation(IneffaDamageEnum::Normal2, g, cd, enemy),
            ),
            rotation_expectation(IneffaDamageEnum::Normal3, g, cd, enemy),
        ),
        rotation_expectation(IneffaDamageEnum::Normal4, g, cd, enemy),
    );
    lemma_fx_add_mono(
        fx_mul(normal_sum, WEIGHT_NORMAL),
        fx_mul(s1, WEIGHT_SKILL),
        fx_mul(normal_sum, WEIGHT_NORMAL),
        fx_mul(s2, WEIGHT_SKILL),
    );
    let burst_w = fx_mul(rotation_expectation(IneffaDamageEnum::Burst, g, cd, enemy), WEIGHT_BURST);
    lemma_fx_add_mono(
        fx_add(fx_mul(normal_sum, WEIGHT_NORMAL), fx_mul(s1, WEIGHT_SKILL)),
        burst_w,
        fx_add(fx_mul(normal_sum, WEIGHT_NORMAL), fx_mul(s2, WEIGHT_SKILL)),
        burst_w,
    );
    let charged_w = fx_mul(
        rotation_expectation(IneffaDamageEnum::Charged, g, cd, enemy),
        WEIGHT_CHARGED,
    );
    lemma_fx_add_mono(
        fx_add(
            fx_add(fx_mul(normal_sum, WEIGHT_NORMAL), fx_mul(s1, WEIGHT_SKILL)),
            burst_w,
        ),
        charged_w,
        fx_add(
            fx_add(fx_mul(normal_sum, WEIGHT_NORMAL), fx_mul(s2, WEIGHT_SKILL)),
            burst_w,
        ),
        charged_w,
    );
}

/// Conditional-effect monotonicity, at the damage level: an action
/// evaluated with the Overclocking Circuit off deals at most the expected
/// damage of the same action with it on, all other inputs held fixed
/// (equal on every action the follow-up does not touch).
pub proof fn lemma_overclocking_toggle(
    s: IneffaDamageEnum,
    s1: int,
    s2: int,
    s3: int,
    g: AttributeGraph,
    enemy: Enemy,
)
    ensures
        expectation_spec(
            ineffa_ratio(s, s1, s2, s3, false),
            g,
            enemy,
            s.element_spec(),
            s.skill_type_spec(),
        ) <= expectation_spec(
            ineffa_ratio(s, s1, s2, s3, true),
            g,
            enemy,
            s.element_spec(),
            s.skill_type_spec(),
        ),
{
    let base = skill_ratio_spec(s, s1, s2, s3);
    if s == IneffaDamageEnum::Skill {
        lemma_fx_add_mono(base, 0, base, crate::ineffa::OVERCLOCKING_RATIO);
        assert(fx_add(base, 0) == base);
    }
    lemma_damage_monotone_in_ratio(
        ineffa_ratio(s, s1, s2, s3, false),
        ineffa_ratio(s, s1, s2, s3, true),
        g,
        enemy,
        s.element_spec(),
        s.skill_type_spec(),
    );
}

} // verus!
