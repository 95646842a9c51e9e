//! Ineffa: per-character skill-ratio tables, damage instances, and the
//! talent effect feeding Elemental Mastery from ATK.
//!
//! Ratio tables hold fixed-point values (scale `SCALE`), one entry per
//! talent level, fifteen entries per table.

use vstd::prelude::*;
use crate::fixed::{fx_add, add_fx};
use crate::attribute::{AttributeName, AttributeGraph, GraphError};
use crate::damage::{
    Element, SkillType, Enemy, DamageBuilder, DamageResult, damage_ready, effective_element,
    normal_damage_spec, crit_damage_spec, expectation_spec,
};

verus! {

/// Build a fifteen-entry table.
fn vec15(
    a0: u64,
    a1: u64,
    a2: u64,
    a3: u64,
    a4: u64,
    a5: u64,
    a6: u64,
    a7: u64,
    a8: u64,
    a9: u64,
    a10: u64,
    a11: u64,
    a12: u64,
    a13: u64,
    a14: u64,
) -> (v: Vec<u64>)
    ensures
        v@ == seq![a0, a1, a2, a3, a4, a5, a6, a7, a8, a9, a10, a11, a12, a13, a14],
{
    let mut v: Vec<u64> = Vec::new();
    v.push(a0);
    v.push(a1);
    v.push(a2);
    v.push(a3);
    v.push(a4);
    v.push(a5);
    v.push(a6);
    v.push(a7);
    v.push(a8);
    v.push(a9);
    v.push(a10);
    v.push(a11);
    v.push(a12);
    v.push(a13);
    v.push(a14);
    proof {
        assert(v@ =~= seq![a0, a1, a2, a3, a4, a5, a6, a7, a8, a9, a10, a11, a12, a13, a14]);
    }
    v
}

/// Normal attack, first hit.
pub open spec fn normal_dmg1_table() -> Seq<u64> {
    seq![
        3484u64, 3767, 4051, 4456, 4739, 5063, 5509, 5954, 6400, 6886, 7372, 7858, 8344, 8830,
        9316,
    ]
}

/// Normal attack, second hit.
pub open spec fn normal_dmg2_table() -> Seq<u64> {
    seq![
        3422u64, 3701, 3979, 4377, 4656, 4974, 5412, 5849, 6287, 6765, 7242, 7720, 8197, 8675,
        9152,
    ]
}

/// Normal attack, third hit.
pub open spec fn normal_dmg3_table() -> Seq<u64> {
    seq![
        4284u64, 4634, 4984, 5482, 5833, 6230, 6778, 7327, 7875, 8473, 9072, 9670, 10268, 10867,
        11465,
    ]
}

/// Normal attack, fourth hit.
pub open spec fn normal_dmg4_table() -> Seq<u64> {
    seq![
        5568u64, 6022, 6477, 7125, 7579, 8096, 8809, 9521, 10234, 11011, 11789, 12566, 13343,
        14121, 14898,
    ]
}

/// Charged attack.
pub open spec fn charged_dmg_table() -> Seq<u64> {
    seq![
        11138u64, 12046, 12954, 14249, 15157, 16193, 17617, 19041, 20466, 22022, 23579, 25136,
        26692, 28249, 29806,
    ]
}

/// Plunging attack, during the fall.
pub open spec fn plunging_dmg1_table() -> Seq<u64> {
    seq![
        6393u64, 6914, 7434, 8177, 8698, 9293, 10112, 10931, 11750, 12638, 13526, 14414, 15302,
        16190, 17098,
    ]
}

/// Plunging attack, low-height impact.
pub open spec fn plunging_dmg2_table() -> Seq<u64> {
    seq![
        12784u64, 13824, 14865, 16351, 17392, 18581, 20216, 21851, 23486, 25270, 27054, 28838,
        30622, 32405, 34189,
    ]
}

/// Plunging attack, high-height impact.
pub open spec fn plunging_dmg3_table() -> Seq<u64> {
    seq![
        15968u64, 17267, 18567, 20424, 21723, 23209, 25251, 27293, 29336, 31564, 33792, 36020,
        38248, 40476, 42704,
    ]
}

/// Elemental skill hit.
pub open spec fn elemental_skill_dmg_table() -> Seq<u64> {
    seq![
        8640u64, 9288, 9936, 10800, 11448, 12096, 12960, 13824, 14688, 15552, 16416, 17280, 18360,
        19440, 20520,
    ]
}

/// Shield absorption, as a ratio of ATK.
pub open spec fn shield_absorption_table() -> Seq<u64> {
    seq![
        22118u64, 23777, 25436, 27648, 29307, 30966, 33178, 35389, 37601, 39813, 42024, 44236,
        47046, 49856, 52666,
    ]
}

/// Shield flat base value.
pub open spec fn shield_base_table() -> Seq<u64> {
    seq![
        13866800u64, 15253600, 16756100, 18374100, 20107700, 21956800, 23921600, 26001900,
        28197700, 30509000, 32935900, 35478300, 38136200, 40909600, 43798500,
    ]
}

/// Elemental burst hit.
pub open spec fn elemental_burst_dmg_table() -> Seq<u64> {
    seq![
        67680u64, 72756, 77832, 84600, 89676, 94752, 101520, 108288, 115056, 121824, 128592,
        135360, 143820, 152280, 160740,
    ]
}

/// The per-level ratio tables of every skill of the character.
pub struct IneffaSkillType {
    pub normal_dmg1: Vec<u64>,
    pub normal_dmg2: Vec<u64>,
    pub normal_dmg3: Vec<u64>,
    pub normal_dmg4: Vec<u64>,
    pub charged_dmg: Vec<u64>,
    pub plunging_dmg1: Vec<u64>,
    pub plunging_dmg2: Vec<u64>,
    pub plunging_dmg3: Vec<u64>,
    pub elemental_skill_dmg: Vec<u64>,
    pub shield_absorption: Vec<u64>,
    pub shield_base: Vec<u64>,
    pub elemental_burst_dmg: Vec<u64>,
}

/// The character's skill tables, one entry per talent level.
pub fn ineffa_skill() -> (s: IneffaSkillType)
    ensures
        s.normal_dmg1@ == normal_dmg1_table(),
        s.normal_dmg2@ == normal_dmg2_table(),
        s.normal_dmg3@ == normal_dmg3_table(),
        s.normal_dmg4@ == normal_dmg4_table(),
        s.charged_dmg@ == charged_dmg_table(),
        s.plunging_dmg1@ == plunging_dmg1_table(),
        s.plunging_dmg2@ == plunging_dmg2_table(),
        s.plunging_dmg3@ == plunging_dmg3_table(),
        s.elemental_skill_dmg@ == elemental_skill_dmg_table(),
        s.shield_absorption@ == shield_absorption_table(),
        s.shield_base@ == shield_base_table(),
        s.elemental_burst_dmg@ == elemental_burst_dmg_table(),
{
    IneffaSkillType {
        normal_dmg1: vec15(
            3484, 3767, 4051, 4456, 4739, 5063, 5509, 5954, 6400, 6886, 7372, 7858, 8344, 8830,
            9316,
        ),
        normal_dmg2: vec15(
            3422, 3701, 3979, 4377, 4656, 4974, 5412, 5849, 6287, 6765, 7242, 7720, 8197, 8675,
            9152,
        ),
        normal_dmg3: vec15(
            4284, 4634, 4984, 5482, 5833, 6230, 6778, 7327, 7875, 8473, 9072, 9670, 10268, 10867,
            11465,
        ),
        normal_dmg4: vec15(
            5568, 6022, 6477, 7125, 7579, 8096, 8809, 9521, 10234, 11011, 11789, 12566, 13343,
            14121, 14898,
        ),
        charged_dmg: vec15(
            11138, 12046, 12954, 14249, 15157, 16193, 17617, 19041, 20466, 22022, 23579, 25136,
            26692, 28249, 29806,
        ),
        plunging_dmg1: vec15(
            6393, 6914, 7434, 8177, 8698, 9293, 10112, 10931, 11750, 12638, 13526, 14414, 15302,
            16190, 17098,
        ),
        plunging_dmg2: vec15(
            12784, 13824, 14865, 16351, 17392, 18581, 20216, 21851, 23486, 25270, 27054, 28838,
            30622, 32405, 34189,
        ),
        plunging_dmg3: vec15(
            15968, 17267, 18567, 20424, 21723, 23209, 25251, 27293, 29336, 31564, 33792, 36020,
            38248, 40476, 42704,
        ),
        elemental_skill_dmg: vec15(
            8640, 9288, 9936, 10800, 11448, 12096, 12960, 13824, 14688, 15552, 16416, 17280,
            18360, 19440, 20520,
        ),
        shield_absorption: vec15(
            22118, 23777, 25436, 27648, 29307, 30966, 33178, 35389, 37601, 39813, 42024, 44236,
            47046, 49856, 52666,
        ),
        shield_base: vec15(
            13866800, 15253600, 16756100, 18374100, 20107700, 21956800, 23921600, 26001900,
            28197700, 30509000, 32935900, 35478300, 38136200, 40909600, 43798500,
        ),
        elemental_burst_dmg: vec15(
            67680, 72756, 77832, 84600, 89676, 94752, 101520, 108288, 115056, 121824, 128592,
            135360, 143820, 152280, 160740,
        ),
    }
}

/// The character's damage-dealing actions.
#[derive(Clone, Copy, PartialEq, Eq, Structural, Debug)]
pub enum IneffaDamageEnum {
    Normal1,
    Normal2,
    Normal3,
    Normal4,
    Charged,
    Plunging1,
    Plunging2,
    Plunging3,
    Skill,
    Burst,
}

/// How many damage-dealing actions the character has.
pub const DAMAGE_ENUM_COUNT: usize = 10;

/// The action at a given index.
pub open spec fn damage_enum_of(i: int) -> IneffaDamageEnum {
    if i == 0 { IneffaDamageEnum::Normal1 }
    else if i == 1 { IneffaDamageEnum::Normal2 }
    else if i == 2 { IneffaDamageEnum::Normal3 }
    else if i == 3 { IneffaDamageEnum::Normal4 }
    else if i == 4 { IneffaDamageEnum::Charged }
    else if i == 5 { IneffaDamageEnum::Plunging1 }
    else if i == 6 { IneffaDamageEnum::Plunging2 }
    else if i == 7 { IneffaDamageEnum::Plunging3 }
    else if i == 8 { IneffaDamageEnum::Skill }
    else { IneffaDamageEnum::Burst }
}

impl IneffaDamageEnum {
    /// The element of the action.
    pub open spec fn element_spec(self) -> Element {
        match self {
            IneffaDamageEnum::Skill | IneffaDamageEnum::Burst => Element::Electro,
            _ => Element::Physical,
        }
    }

    /// The skill-type classification of the action.
    pub open spec fn skill_type_spec(self) -> SkillType {
        match self {
            IneffaDamageEnum::Normal1 | IneffaDamageEnum::Normal2 | IneffaDamageEnum::Normal3
                | IneffaDamageEnum::Normal4 => SkillType::NormalAttack,
            IneffaDamageEnum::Charged => SkillType::ChargedAttack,
            IneffaDamageEnum::Plunging1 => SkillType::PlungingAttackInAction,
            IneffaDamageEnum::Plunging2 | IneffaDamageEnum::Plunging3
                => SkillType::PlungingAttackOnGround,
            IneffaDamageEnum::Skill => SkillType::ElementalSkill,
            IneffaDamageEnum::Burst => SkillType::ElementalBurst,
        }
    }

    /// The action at a given index.
    pub fn from_index(i: usize) -> (s: IneffaDamageEnum)
        requires
            i < DAMAGE_ENUM_COUNT,
        ensures
            s == damage_enum_of(i as int),
    {
        if i == 0 { IneffaDamageEnum::Normal1 }
        else if i == 1 { IneffaDamageEnum::Normal2 }
        else if i == 2 { IneffaDamageEnum::Normal3 }
        else if i == 3 { IneffaDamageEnum::Normal4 }
        else if i == 4 { IneffaDamageEnum::Charged }
        else if i == 5 { IneffaDamageEnum::Plunging1 }
        else if i == 6 { IneffaDamageEnum::Plunging2 }
        else if i == 7 { IneffaDamageEnum::Plunging3 }
        else if i == 8 { IneffaDamageEnum::Skill }
        else { IneffaDamageEnum::Burst }
    }

    /// The index of the action.
    pub fn to_index(&self) -> (i: usize)
        ensures
            i < DAMAGE_ENUM_COUNT,
            damage_enum_of(i as int) == *self,
    {
        match *self {
            IneffaDamageEnum::Normal1 => 0,
            IneffaDamageEnum::Normal2 => 1,
            IneffaDamageEnum::Normal3 => 2,
            IneffaDamageEnum::Normal4 => 3,
            IneffaDamageEnum::Charged => 4,
            IneffaDamageEnum::Plunging1 => 5,
            IneffaDamageEnum::Plunging2 => 6,
            IneffaDamageEnum::Plunging3 => 7,
            IneffaDamageEnum::Skill => 8,
            IneffaDamageEnum::Burst => 9,
        }
    }

    /// The element of the action: Electro for the elemental skill and
    /// burst, Physical for every staff hit.
    pub fn get_element(&self) -> (e: Element)
        ensures
            e == self.element_spec(),
    {
        match *self {
            IneffaDamageEnum::Skill | IneffaDamageEnum::Burst => Element::Electro,
            _ => Element::Physical,
        }
    }

    /// The skill-type classification used for the bonus lookup.
    pub fn get_skill_type(&self) -> (t: SkillType)
        ensures
            t == self.skill_type_spec(),
    {
        match *self {
            IneffaDamageEnum::Normal1 | IneffaDamageEnum::Normal2 | IneffaDamageEnum::Normal3
                | IneffaDamageEnum::Normal4 => SkillType::NormalAttack,
            IneffaDamageEnum::Charged => SkillType::ChargedAttack,
            IneffaDamageEnum::Plunging1 => SkillType::PlungingAttackInAction,
            IneffaDamageEnum::Plunging2 | IneffaDamageEnum::Plunging3
                => SkillType::PlungingAttackOnGround,
            IneffaDamageEnum::Skill => SkillType::ElementalSkill,
            IneffaDamageEnum::Burst => SkillType::ElementalBurst,
        }
    }
}

/// The ratio of an action at the talent levels `s1, s2, s3` (normal /
/// skill / burst talents, zero-based indices).
pub open spec fn skill_ratio_spec(s: IneffaDamageEnum, s1: int, s2: int, s3: int) -> u64 {
    match s {
        IneffaDamageEnum::Normal1 => normal_dmg1_table()[s1],
        IneffaDamageEnum::Normal2 => normal_dmg2_table()[s1],
        IneffaDamageEnum::Normal3 => normal_dmg3_table()[s1],
        IneffaDamageEnum::Normal4 => normal_dmg4_table()[s1],
        IneffaDamageEnum::Charged => charged_dmg_table()[s1],
        IneffaDamageEnum::Plunging1 => plunging_dmg1_table()[s1],
        IneffaDamageEnum::Plunging2 => plunging_dmg2_table()[s1],
        IneffaDamageEnum::Plunging3 => plunging_dmg3_table()[s1],
        IneffaDamageEnum::Skill => elemental_skill_dmg_table()[s2],
        IneffaDamageEnum::Burst => elemental_burst_dmg_table()[s3],
    }
}

/// Look the action's ratio up in its table.
pub fn skill_ratio(s: IneffaDamageEnum, s1: usize, s2: usize, s3: usize) -> (r: u64)
    requires
        s1 < 15,
        s2 < 15,
        s3 < 15,
    ensures
        r == skill_ratio_spec(s, s1 as int, s2 as int, s3 as int),
{
    let tables = ineffa_skill();
    match s {
        IneffaDamageEnum::Normal1 => tables.normal_dmg1[s1],
        IneffaDamageEnum::Normal2 => tables.normal_dmg2[s1],
        IneffaDamageEnum::Normal3 => tables.normal_dmg3[s1],
        IneffaDamageEnum::Normal4 => tables.normal_dmg4[s1],
        IneffaDamageEnum::Charged => tables.charged_dmg[s1],
        IneffaDamageEnum::Plunging1 => tables.plunging_dmg1[s1],
        IneffaDamageEnum::Plunging2 => tables.plunging_dmg2[s1],
        IneffaDamageEnum::Plunging3 => tables.plunging_dmg3[s1],
        IneffaDamageEnum::Skill => tables.elemental_skill_dmg[s2],
        IneffaDamageEnum::Burst => tables.elemental_burst_dmg[s3],
    }
}

/// The character-independent data of the build being evaluated: character
/// level, the three zero-based talent level indices, and the character's
/// base ATK (fixed-point).
#[derive(Clone, Copy, PartialEq, Eq, Structural, Debug)]
pub struct CharacterCommonData {
    pub level: u64,
    pub skill1: usize,
    pub skill2: usize,
    pub skill3: usize,
    pub base_atk: u64,
}

impl CharacterCommonData {
    /// The three talent level indices, in talent order.
    pub fn get_3_skill(&self) -> (r: (usize, usize, usize))
        ensures
            r.0 == self.skill1,
            r.1 == self.skill2,
            r.2 == self.skill3,
    {
        (self.skill1, self.skill2, self.skill3)
    }
}

/// Everything one damage evaluation reads: the build data, the resolved
/// attribute snapshot, and the enemy.
pub struct DamageContext<'a> {
    pub character_common_data: &'a CharacterCommonData,
    pub attribute: &'a AttributeGraph,
    pub enemy: &'a Enemy,
}

/// Per-character skill configuration: whether the Overclocking Circuit
/// follow-up attack is active. Another character's configuration falls
/// back to the documented default (active).
#[derive(Clone, Copy, PartialEq, Eq, Structural, Debug)]
pub enum CharacterSkillConfig {
    Ineffa { overclocking_active: bool },
    NoConfig,
}

/// Per-character construction configuration: whether the Parameter
/// Permutation talent (ATK-scaled Elemental Mastery) is active. Another
/// character's configuration falls back to the documented default
/// (active).
#[derive(Clone, Copy, PartialEq, Eq, Structural, Debug)]
pub enum CharacterConfig {
    Ineffa { em_bonus_active: bool },
    NoConfig,
}

/// Whether a skill configuration activates the Overclocking Circuit.
pub open spec fn config_overclocking(config: CharacterSkillConfig) -> bool {
    match config {
        CharacterSkillConfig::Ineffa { overclocking_active } => overclocking_active,
        _ => true,
    }
}

/// The extra ATK ratio of the Overclocking Circuit follow-up attack.
pub const OVERCLOCKING_RATIO: u64 = 6500;

/// The total ATK ratio of an action: its table ratio, plus the
/// Overclocking Circuit follow-up on the elemental skill when active.
pub open spec fn ineffa_ratio(
    s: IneffaDamageEnum,
    s1: int,
    s2: int,
    s3: int,
    overclocking: bool,
) -> u64 {
    let base = skill_ratio_spec(s, s1, s2, s3);
    if overclocking && s == IneffaDamageEnum::Skill {
        fx_add(base, OVERCLOCKING_RATIO)
    } else {
        base
    }
}

/// The cap of the Lunar-Charged base damage bonus.
pub const LUNAR_BONUS_CAP: u64 = 1400;

/// The Lunar-Charged base damage bonus granted by the character's
/// ascension passive: 0.7% per 100 points of base ATK, capped at 14%.
pub open spec fn lunar_bonus_spec(base_atk: u64) -> u64 {
    let x = (base_atk * 7) / 100000;
    if x > LUNAR_BONUS_CAP {
        LUNAR_BONUS_CAP
    } else {
        x as u64
    }
}

/// The talent effect constructed for one build: the Lunar-Charged bonus
/// and the rate at which ATK feeds Elemental Mastery.
pub struct IneffaEffect {
    pub lunar_charged_bonus: u64,
    pub em_bonus_rate: u64,
}

impl IneffaEffect {
    /// Register the Parameter Permutation talent: an edge feeding
    /// `em_bonus_rate` times the resolved ATK into Elemental Mastery, so
    /// that weapon and gear ATK contributions are counted.
    pub fn change_attribute(&self, attribute: &mut AttributeGraph)
        requires
            old(attribute).wf(),
        ensures
            final(attribute).wf(),
            final(attribute).edge_seq().len() == old(attribute).edge_seq().len() + 1,
            final(attribute).edge_seq().last().source == AttributeName::ATK,
            final(attribute).edge_seq().last().target == AttributeName::ElementalMastery,
            final(attribute).edge_seq().last().coeff == self.em_bonus_rate,
            forall|j: int|
                0 <= j < old(attribute).edge_seq().len() ==> final(attribute).edge_seq()[j] == old(
                    attribute,
                ).edge_seq()[j],
            forall|b: AttributeName| #[trigger]
                final(attribute).base_at(b) == old(attribute).base_at(b),
            forall|b: AttributeName| #[trigger]
                final(attribute).flat_at(b) == old(attribute).flat_at(b),
            forall|b: AttributeName| #[trigger]
                final(attribute).pct_at(b) == old(attribute).pct_at(b),
    {
        attribute.add_edge1(
            AttributeName::ATK,
            AttributeName::ElementalMastery,
            self.em_bonus_rate,
            "Ineffa talent: Parameter Permutation",
        );
    }
}

/// The rate at which ATK feeds Elemental Mastery while the Parameter
/// Permutation talent is active.
pub const EM_BONUS_RATE: u64 = 600;

/// The character.
pub struct Ineffa;

impl Ineffa {
    /// Evaluate one of the character's damage-dealing actions, identified
    /// by index, against the context's snapshot and enemy. The elemental
    /// skill carries the Overclocking Circuit follow-up ratio when the
    /// configuration activates it.
    pub fn damage_internal(
        context: &DamageContext<'_>,
        s: usize,
        config: &CharacterSkillConfig,
        fumo: Option<Element>,
    ) -> (r: Result<DamageResult, GraphError>)
        requires
            context.attribute.wf(),
            s < DAMAGE_ENUM_COUNT,
            context.character_common_data.skill1 < 15,
            context.character_common_data.skill2 < 15,
            context.character_common_data.skill3 < 15,
        ensures
            (r is Ok) == damage_ready(
                *context.attribute,
                effective_element(damage_enum_of(s as int).element_spec(), fumo),
                damage_enum_of(s as int).skill_type_spec(),
            ),
            r matches Ok(d) ==> {
                let ratio = ineffa_ratio(
                    damage_enum_of(s as int),
                    context.character_common_data.skill1 as int,
                    context.character_common_data.skill2 as int,
                    context.character_common_data.skill3 as int,
                    config_overclocking(*config),
                );
                let el = effective_element(damage_enum_of(s as int).element_spec(), fumo);
                let st = damage_enum_of(s as int).skill_type_spec();
                &&& d.normal_damage == normal_damage_spec(
                    ratio,
                    *context.attribute,
                    *context.enemy,
                    el,
                    st,
                )
                &&& d.crit_damage == crit_damage_spec(
                    ratio,
                    *context.attribute,
                    *context.enemy,
                    el,
                    st,
                )
                &&& d.expectation == expectation_spec(
                    ratio,
                    *context.attribute,
                    *context.enemy,
                    el,
                    st,
                )
            },
    {
        let s_enum = IneffaDamageEnum::from_index(s);
        let (s1, s2, s3) = context.character_common_data.get_3_skill();

        let overclocking_active = match *config {
            CharacterSkillConfig::Ineffa { overclocking_active } => overclocking_active,
            _ => true,
        };

        let ratio = skill_ratio(s_enum, s1, s2, s3);

        let mut builder = DamageBuilder::new();
        builder.add_atk_ratio("Skill ratio", ratio);

        if overclocking_active && s_enum == IneffaDamageEnum::Skill {
            builder.add_atk_ratio("Overclocking Circuit", OVERCLOCKING_RATIO);
        }

        let skill_type = s_enum.get_skill_type();
        let element = s_enum.get_element();
        builder.damage(context.attribute, context.enemy, element, skill_type, fumo)
    }

    /// Construct the build's talent effect: the Elemental Mastery feed is
    /// active when the configuration says so (the documented default when
    /// another character's configuration is passed), and the Lunar-Charged
    /// bonus scales with base ATK up to its cap.
    pub fn new_effect(common_data: &CharacterCommonData, config: &CharacterConfig) -> (r: Option<
        IneffaEffect,
    >)
        ensures
            r is Some,
            r matches Some(e) ==> {
                &&& e.em_bonus_rate == (match *config {
                    CharacterConfig::Ineffa { em_bonus_active } => if em_bonus_active {
                        EM_BONUS_RATE as u64
                    } else {
                        0u64
                    },
                    _ => EM_BONUS_RATE as u64,
                })
                &&& e.lunar_charged_bonus == lunar_bonus_spec(common_data.base_atk)
            },
    {
        let em_bonus_active = match *config {
            CharacterConfig::Ineffa { em_bonus_active } => em_bonus_active,
            _ => true,
        };

        let atk = common_data.base_atk;
        let em_bonus_rate: u64 = if em_bonus_active {
            EM_BONUS_RATE
        } else {
            0
        };

        proof {
            assert((atk as u128) * 7 == atk * 7) by (nonlinear_arith);
        }
        let scaled: u128 = (atk as u128) * 7 / 100000;
        let lunar_charged_bonus: u64 = if scaled > LUNAR_BONUS_CAP as u128 {
            LUNAR_BONUS_CAP
        } else {
            scaled as u64
        };

        Some(IneffaEffect { lunar_charged_bonus, em_bonus_rate })
    }
}

} // verus!
