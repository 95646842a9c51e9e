//! The damage-expectation evaluator: accumulates skill-ratio terms, reads
//! the resolved attribute snapshot, applies the enemy's defense and
//! resistance multipliers and the element/skill-type damage bonuses, and
//! mixes the normal and critical outcomes into a crit-rate-weighted
//! expectation.
//!
//! The exact defense-reduction and resistance formulas live with an
//! external collaborator: an `Enemy` value carries the resulting
//! multipliers (one whole unit means no mitigation).

use vstd::prelude::*;
use crate::fixed::{SCALE, sat64, fx_add, fx_mul, add_fx, mul_fx, lemma_fx_mul_mono};
use crate::attribute::{AttributeName, AttributeGraph, GraphError, can_resolve, resolved_value};

verus! {

/// The element a damage instance carries.
#[derive(Clone, Copy, PartialEq, Eq, Structural, Debug)]
pub enum Element {
    Electro,
    Pyro,
    Hydro,
    Anemo,
    Cryo,
    Geo,
    Dendro,
    Physical,
}

/// The classification of a damage instance, used for the per-skill-type
/// bonus lookup.
#[derive(Clone, Copy, PartialEq, Eq, Structural, Debug)]
pub enum SkillType {
    NormalAttack,
    ChargedAttack,
    PlungingAttackInAction,
    PlungingAttackOnGround,
    ElementalSkill,
    ElementalBurst,
}

/// The enemy being struck, as the damage formula sees it: the defense and
/// per-element resistance mitigations, already folded into multipliers by
/// the externally specified enemy model (`SCALE` means no mitigation).
#[derive(Clone, Copy, PartialEq, Eq, Structural, Debug)]
pub struct Enemy {
    pub def_mult: u64,
    pub res_electro: u64,
    pub res_pyro: u64,
    pub res_hydro: u64,
    pub res_anemo: u64,
    pub res_cryo: u64,
    pub res_geo: u64,
    pub res_dendro: u64,
    pub res_physical: u64,
}

/// One evaluated damage instance: the non-critical hit, the critical hit,
/// and their crit-rate-weighted expectation.
#[derive(Clone, Copy, PartialEq, Eq, Structural, Debug)]
pub struct DamageResult {
    pub normal_damage: u64,
    pub crit_damage: u64,
    pub expectation: u64,
}

/// The enemy's resistance multiplier for an element.
pub open spec fn enemy_res_mult(enemy: Enemy, element: Element) -> u64 {
    match element {
        Element::Electro => enemy.res_electro,
        Element::Pyro => enemy.res_pyro,
        Element::Hydro => enemy.res_hydro,
        Element::Anemo => enemy.res_anemo,
        Element::Cryo => enemy.res_cryo,
        Element::Geo => enemy.res_geo,
        Element::Dendro => enemy.res_dendro,
        Element::Physical => enemy.res_physical,
    }
}

/// The snapshot attribute holding the damage bonus for an element.
pub open spec fn element_bonus_attr(element: Element) -> AttributeName {
    match element {
        Element::Electro => AttributeName::ElectroBonus,
        Element::Pyro => AttributeName::PyroBonus,
        Element::Hydro => AttributeName::HydroBonus,
        Element::Anemo => AttributeName::AnemoBonus,
        Element::Cryo => AttributeName::CryoBonus,
        Element::Geo => AttributeName::GeoBonus,
        Element::Dendro => AttributeName::DendroBonus,
        Element::Physical => AttributeName::PhysicalBonus,
    }
}

/// The snapshot attribute holding the damage bonus for a skill type.
pub open spec fn skill_bonus_attr(skill_type: SkillType) -> AttributeName {
    match skill_type {
        SkillType::NormalAttack => AttributeName::BonusNormalAttack,
        SkillType::ChargedAttack => AttributeName::BonusChargedAttack,
        SkillType::PlungingAttackInAction => AttributeName::BonusPlungingAttackInAction,
        SkillType::PlungingAttackOnGround => AttributeName::BonusPlungingAttackOnGround,
        SkillType::ElementalSkill => AttributeName::BonusElementalSkill,
        SkillType::ElementalBurst => AttributeName::BonusElementalBurst,
    }
}

/// The element actually dealt: an infusion override takes precedence.
pub open spec fn effective_element(element: Element, fumo: Option<Element>) -> Element {
    match fumo {
        Option::Some(e) => e,
        Option::None => element,
    }
}

/// The crit-rate-weighted expectation over the normal/critical outcome
/// distribution; the rate is clamped to one whole unit before mixing.
pub open spec fn crit_mix(normal: u64, crit: u64, rate: u64) -> u64 {
    let cr = if rate > SCALE {
        SCALE as int
    } else {
        rate as int
    };
    sat64(((SCALE - cr) * normal + cr * crit) / (SCALE as int))
}

/// Every attribute the damage formula reads resolves: the condition under
/// which `damage` succeeds.
pub open spec fn damage_ready(g: AttributeGraph, element: Element, skill_type: SkillType) -> bool {
    &&& can_resolve(g, AttributeName::ATK)
    &&& can_resolve(g, element_bonus_attr(element))
    &&& can_resolve(g, skill_bonus_attr(skill_type))
    &&& can_resolve(g, AttributeName::CriticalRate)
    &&& can_resolve(g, AttributeName::CriticalDamage)
}

/// The non-critical damage: accumulated ratios times resolved ATK, through
/// the defense and resistance multipliers, times one plus the element and
/// skill-type bonuses.
pub open spec fn normal_damage_spec(
    ratio: u64,
    g: AttributeGraph,
    enemy: Enemy,
    element: Element,
    skill_type: SkillType,
) -> u64 {
    let base = fx_mul(ratio, resolved_value(g, AttributeName::ATK));
    let after_def = fx_mul(base, enemy.def_mult);
    let after_res = fx_mul(after_def, enemy_res_mult(enemy, element));
    let bonus = fx_add(
        resolved_value(g, element_bonus_attr(element)),
        resolved_value(g, skill_bonus_attr(skill_type)),
    );
    fx_mul(after_res, fx_add(SCALE, bonus))
}

/// The critical damage: the non-critical hit times one plus the critical
/// damage bonus.
pub open spec fn crit_damage_spec(
    ratio: u64,
    g: AttributeGraph,
    enemy: Enemy,
    element: Element,
    skill_type: SkillType,
) -> u64 {
    fx_mul(
        normal_damage_spec(ratio, g, enemy, element, skill_type),
        fx_add(SCALE, resolved_value(g, AttributeName::CriticalDamage)),
    )
}

/// The expectation the evaluator reports.
pub open spec fn expectation_spec(
    ratio: u64,
    g: AttributeGraph,
    enemy: Enemy,
    element: Element,
    skill_type: SkillType,
) -> u64 {
    crit_mix(
        normal_damage_spec(ratio, g, enemy, element, skill_type),
        crit_damage_spec(ratio, g, enemy, element, skill_type),
        resolved_value(g, AttributeName::CriticalRate),
    )
}

/// The exec counterpart of `element_bonus_attr`.
pub fn element_bonus_attr_of(element: Element) -> (a: AttributeName)
    ensures
        a == element_bonus_attr(element),
{
    match element {
        Element::Electro => AttributeName::ElectroBonus,
        Element::Pyro => AttributeName::PyroBonus,
        Element::Hydro => AttributeName::HydroBonus,
        Element::Anemo => AttributeName::AnemoBonus,
        Element::Cryo => AttributeName::CryoBonus,
        Element::Geo => AttributeName::GeoBonus,
        Element::Dendro => AttributeName::DendroBonus,
        Element::Physical => AttributeName::PhysicalBonus,
    }
}

/// The exec counterpart of `skill_bonus_attr`.
pub fn skill_bonus_attr_of(skill_type: SkillType) -> (a: AttributeName)
    ensures
        a == skill_bonus_attr(skill_type),
{
    match skill_type {
        SkillType::NormalAttack => AttributeName::BonusNormalAttack,
        SkillType::ChargedAttack => AttributeName::BonusChargedAttack,
        SkillType::PlungingAttackInAction => AttributeName::BonusPlungingAttackInAction,
        SkillType::PlungingAttackOnGround => AttributeName::BonusPlungingAttackOnGround,
        SkillType::ElementalSkill => AttributeName::BonusElementalSkill,
        SkillType::ElementalBurst => AttributeName::BonusElementalBurst,
    }
}

/// The exec counterpart of `enemy_res_mult`.
pub fn enemy_res_mult_of(enemy: &Enemy, element: Element) -> (r: u64)
    ensures
        r == enemy_res_mult(*enemy, element),
{
    match element {
        Element::Electro => enemy.res_electro,
        Element::Pyro => enemy.res_pyro,
        Element::Hydro => enemy.res_hydro,
        Element::Anemo => enemy.res_anemo,
        Element::Cryo => enemy.res_cryo,
        Element::Geo => enemy.res_geo,
        Element::Dendro => enemy.res_dendro,
        Element::Physical => enemy.res_physical,
    }
}

/// Mix the normal and critical outcomes by the (clamped) crit rate.
pub fn crit_mix_fx(normal: u64, crit: u64, rate: u64) -> (r: u64)
    ensures
        r == crit_mix(normal, crit, rate),
{
    let cr: u128 = if rate > SCALE {
        SCALE as u128
    } else {
        rate as u128
    };
    proof {
        assert((SCALE - cr) * normal + cr * crit <= SCALE * u64::MAX) by (nonlinear_arith)
            requires
                0 <= cr <= SCALE,
                normal <= u64::MAX,
                crit <= u64::MAX,
        ;
    }
    let numer: u128 = (SCALE as u128 - cr) * (normal as u128) + cr * (crit as u128);
    let q: u128 = numer / (SCALE as u128);
    proof {
        vstd::arithmetic::div_mod::lemma_div_is_ordered(
            numer as int,
            SCALE * u64::MAX,
            SCALE as int,
        );
        vstd::arithmetic::div_mod::lemma_div_multiples_vanish(u64::MAX as int, SCALE as int);
    }
    q as u64
}

impl Enemy {
    /// An enemy with no mitigation at all: every multiplier one unit.
    pub fn unmitigated() -> (e: Enemy)
        ensures
            e.def_mult == SCALE,
            forall|el: Element| #[trigger] enemy_res_mult(e, el) == SCALE,
    {
        Enemy {
            def_mult: SCALE,
            res_electro: SCALE,
            res_pyro: SCALE,
            res_hydro: SCALE,
            res_anemo: SCALE,
            res_cryo: SCALE,
            res_geo: SCALE,
            res_dendro: SCALE,
            res_physical: SCALE,
        }
    }
}

/// Accumulates the ratio terms of one damage instance, then evaluates it
/// against a resolved attribute snapshot and an enemy. A pure function of
/// its inputs: no state survives a `damage` call.
pub struct DamageBuilder {
    ratio_atk: u64,
}

impl DamageBuilder {
    /// The accumulated sum of ATK ratio terms.
    pub closed spec fn atk_ratio(self) -> u64 {
        self.ratio_atk
    }

    /// A fresh accumulator with no terms.
    pub fn new() -> (b: DamageBuilder)
        ensures
            b.atk_ratio() == 0,
    {
        DamageBuilder { ratio_atk: 0 }
    }

    /// Record a term "`ratio` times ATK contributes to base damage"; terms
    /// of repeated calls sum.
    pub fn add_atk_ratio(&mut self, label: &'static str, ratio: u64)
        ensures
            final(self).atk_ratio() == fx_add(old(self).atk_ratio(), ratio),
    {
        self.ratio_atk = add_fx(self.ratio_atk, ratio);
    }

    /// Evaluate the accumulated terms: base damage is the ratio sum times
    /// resolved ATK; defense and resistance multipliers and the element and
    /// skill-type bonuses apply; the result carries the normal hit, the
    /// critical hit, and their expectation. Fails exactly when one of the
    /// attributes read does not resolve (a dependency cycle).
    pub fn damage(
        &self,
        attribute: &AttributeGraph,
        enemy: &Enemy,
        element: Element,
        skill_type: SkillType,
        fumo: Option<Element>,
    ) -> (r: Result<DamageResult, GraphError>)
        requires
            attribute.wf(),
        ensures
            (r is Ok) == damage_ready(*attribute, effective_element(element, fumo), skill_type),
            r matches Ok(d) ==> {
                &&& d.normal_damage == normal_damage_spec(
                    self.atk_ratio(),
                    *attribute,
                    *enemy,
                    effective_element(element, fumo),
                    skill_type,
                )
                &&& d.crit_damage == crit_damage_spec(
                    self.atk_ratio(),
                    *attribute,
                    *enemy,
                    effective_element(element, fumo),
                    skill_type,
                )
                &&& d.expectation == expectation_spec(
                    self.atk_ratio(),
                    *attribute,
                    *enemy,
                    effective_element(element, fumo),
                    skill_type,
                )
            },
    {
        let el = match fumo {
            Option::Some(e) => e,
            Option::None => element,
        };
        let atk = match attribute.get_value(AttributeName::ATK) {
            Ok(v) => v,
            Err(e) => {
                return Err(e);
            },
        };
        let bonus_e = match attribute.get_value(element_bonus_attr_of(el)) {
            Ok(v) => v,
            Err(e) => {
                return Err(e);
            },
        };
        let bonus_s = match attribute.get_value(skill_bonus_attr_of(skill_type)) {
            Ok(v) => v,
            Err(e) => {
                return Err(e);
            },
        };
        let crit_rate = match attribute.get_value(AttributeName::CriticalRate) {
            Ok(v) => v,
            Err(e) => {
                return Err(e);
            },
        };
        let crit_bonus = match attribute.get_value(AttributeName::CriticalDamage) {
            Ok(v) => v,
            Err(e) => {
                return Err(e);
            },
        };
        let base = mul_fx(self.ratio_atk, atk);
        let after_def = mul_fx(base, enemy.def_mult);
        let after_res = mul_fx(after_def, enemy_res_mult_of(enemy, el));
        let normal = mul_fx(after_res, add_fx(SCALE, add_fx(bonus_e, bonus_s)));
        let crit = mul_fx(normal, add_fx(SCALE, crit_bonus));
        let expectation = crit_mix_fx(normal, crit, crit_rate);
        Ok(DamageResult { normal_damage: normal, crit_damage: crit, expectation })
    }
}

/// Crit mixing bounds: for any crit rate (clamped at one unit), the
/// expectation lies between the normal and the critical hit, equals the
/// normal hit at rate zero and the critical hit at or above one unit.
pub proof fn lemma_crit_mix_bounds(normal: u64, crit: u64, rate: u64)
    requires
        normal <= crit,
    ensures
        normal <= crit_mix(normal, crit, rate),
        crit_mix(normal, crit, rate) <= crit,
        rate == 0 ==> crit_mix(normal, crit, rate) == normal,
        rate >= SCALE ==> crit_mix(normal, crit, rate) == crit,
{
    let cr = if rate > SCALE {
        SCALE as int
    } else {
        rate as int
    };
    let numer = (SCALE - cr) * normal + cr * crit;
    assert(SCALE * normal <= numer && numer <= SCALE * crit) by (nonlinear_arith)
        requires
            0 <= cr <= SCALE,
            normal <= crit,
            numer == (SCALE - cr) * normal + cr * crit,
    ;
    vstd::arithmetic::div_mod::lemma_div_is_ordered(SCALE * normal, numer, SCALE as int);
    vstd::arithmetic::div_mod::lemma_div_is_ordered(numer, SCALE * crit, SCALE as int);
    vstd::arithmetic::div_mod::lemma_div_multiples_vanish(normal as int, SCALE as int);
    vstd::arithmetic::div_mod::lemma_div_multiples_vanish(crit as int, SCALE as int);
    if rate == 0 {
        assert(numer == SCALE * normal) by (nonlinear_arith)
            requires
                cr == 0,
                numer == (SCALE - cr) * normal + cr * crit,
        ;
    }
    if rate >= SCALE {
        assert(numer == SCALE * crit) by (nonlinear_arith)
            requires
                cr == SCALE,
                numer == (SCALE - cr) * normal + cr * crit,
        ;
    }
}

/// Mixing is monotone in both outcomes.
pub proof fn lemma_crit_mix_mono(n1: u64, c1: u64, n2: u64, c2: u64, rate: u64)
    requires
        n1 <= n2,
        c1 <= c2,
    ensures
        crit_mix(n1, c1, rate) <= crit_mix(n2, c2, rate),
{
    let cr = if rate > SCALE {
        SCALE as int
    } else {
        rate as int
    };
    assert((SCALE - cr) * n1 + cr * c1 <= (SCALE - cr) * n2 + cr * c2) by (nonlinear_arith)
        requires
            0 <= cr <= SCALE,
            n1 <= n2,
            c1 <= c2,
    ;
    vstd::arithmetic::div_mod::lemma_div_is_ordered(
        (SCALE - cr) * n1 + cr * c1,
        (SCALE - cr) * n2 + cr * c2,
        SCALE as int,
    );
}

/// The critical hit never undercuts the normal hit.
pub proof fn lemma_crit_at_least_normal(
    ratio: u64,
    g: AttributeGraph,
    enemy: Enemy,
    element: Element,
    skill_type: SkillType,
)
    ensures
        normal_damage_spec(ratio, g, enemy, element, skill_type) <= crit_damage_spec(
            ratio,
            g,
            enemy,
            element,
            skill_type,
        ),
{
    let normal = normal_damage_spec(ratio, g, enemy, element, skill_type);
    crate::fixed::lemma_fx_mul_scale(normal);
    lemma_fx_mul_mono(
        normal,
        SCALE,
        normal,
        fx_add(SCALE, resolved_value(g, AttributeName::CriticalDamage)),
    );
}

/// Crit mixing bounds, at the level of an evaluated damage instance: the
/// reported expectation lies between the reported normal and critical
/// hits, and meets them at the extreme crit rates.
pub proof fn lemma_expectation_bounds(
    ratio: u64,
    g: AttributeGraph,
    enemy: Enemy,
    element: Element,
    skill_type: SkillType,
)
    ensures
        normal_damage_spec(ratio, g, enemy, element, skill_type) <= expectation_spec(
            ratio,
            g,
            enemy,
            element,
            skill_type,
        ),
        expectation_spec(ratio, g, enemy, element, skill_type) <= crit_damage_spec(
            ratio,
            g,
            enemy,
            element,
            skill_type,
        ),
        resolved_value(g, AttributeName::CriticalRate) == 0 ==> expectation_spec(
            ratio,
            g,
            enemy,
            element,
            skill_type,
        ) == normal_damage_spec(ratio, g, enemy, element, skill_type),
        resolved_value(g, AttributeName::CriticalRate) >= SCALE ==> expectation_spec(
            ratio,
            g,
            enemy,
            element,
            skill_type,
        ) == crit_damage_spec(ratio, g, enemy, element, skill_type),
{
    lemma_crit_at_least_normal(ratio, g, enemy, element, skill_type);
    lemma_crit_mix_bounds(
        normal_damage_spec(ratio, g, enemy, element, skill_type),
        crit_damage_spec(ratio, g, enemy, element, skill_type),
        resolved_value(g, AttributeName::CriticalRate),
    );
}

/// Damage is monotone in the accumulated ratio: recording an extra ratio
/// term can only raise the normal hit, the critical hit, and the
/// expectation.
pub proof fn lemma_damage_monotone_in_ratio(
    r1: u64,
    r2: u64,
    g: AttributeGraph,
    enemy: Enemy,
    element: Element,
    skill_type: SkillType,
)
    requires
        r1 <= r2,
    ensures
        normal_damage_spec(r1, g, enemy, element, skill_type) <= normal_damage_spec(
            r2,
            g,
            enemy,
            element,
            skill_type,
        ),
        crit_damage_spec(r1, g, enemy, element, skill_type) <= crit_damage_spec(
            r2,
            g,
            enemy,
            element,
            skill_type,
        ),
        expectation_spec(r1, g, enemy, element, skill_type) <= expectation_spec(
            r2,
            g,
            enemy,
            element,
            skill_type,
        ),
{
    let atk = resolved_value(g, AttributeName::ATK);
    let rm = enemy_res_mult(enemy, element);
    let bonus = fx_add(
        resolved_value(g, element_bonus_attr(element)),
        resolved_value(g, skill_bonus_attr(skill_type)),
    );
    lemma_fx_mul_mono(r1, atk, r2, atk);
    lemma_fx_mul_mono(fx_mul(r1, atk), enemy.def_mult, fx_mul(r2, atk), enemy.def_mult);
    lemma_fx_mul_mono(
        fx_mul(fx_mul(r1, atk), enemy.def_mult),
        rm,
        fx_mul(fx_mul(r2, atk), enemy.def_mult),
        rm,
    );
    lemma_fx_mul_mono(
        fx_mul(fx_mul(fx_mul(r1, atk), enemy.def_mult), rm),
        fx_add(SCALE, bonus),
        fx_mul(fx_mul(fx_mul(r2, atk), enemy.def_mult), rm),
        fx_add(SCALE, bonus),
    );
    let cd = fx_add(SCALE, resolved_value(g, AttributeName::CriticalDamage));
    lemma_fx_mul_mono(
        normal_damage_spec(r1, g, enemy, element, skill_type),
        cd,
        normal_damage_spec(r2, g, enemy, element, skill_type),
        cd,
    );
    lemma_crit_mix_mono(
        normal_damage_spec(r1, g, enemy, element, skill_type),
        crit_damage_spec(r1, g, enemy, element, skill_type),
        normal_damage_spec(r2, g, enemy, element, skill_type),
        crit_damage_spec(r2, g, enemy, element, skill_type),
        resolved_value(g, AttributeName::CriticalRate),
    );
}

} // verus!
