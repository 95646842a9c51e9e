//! Attribute graph behaviour: store composition, edge additivity and
//! ordering, gradient propagation, cycle detection, determinism.

use mona_core::attribute::{AttributeGraph, AttributeName};
use mona_core::fixed::SCALE;

/// 1000.0 in fixed-point units.
const ATK_1000: u64 = 10_000_000;

#[test]
fn store_composition() {
    // (base + flat) * (1 + pct) = (1.0 + 0.5) * 1.5 = 2.25
    let mut g = AttributeGraph::new();
    g.set_base(AttributeName::HP, 10_000);
    g.add_flat(AttributeName::HP, 5_000);
    g.add_percentage(AttributeName::HP, 5_000);
    assert_eq!(g.get_value(AttributeName::HP).unwrap(), 22_500);
}

#[test]
fn set_base_replaces() {
    let mut g = AttributeGraph::new();
    g.set_base(AttributeName::ATK, 111);
    g.set_base(AttributeName::ATK, ATK_1000);
    assert_eq!(g.get_value(AttributeName::ATK).unwrap(), ATK_1000);
}

#[test]
fn flat_modifiers_accumulate() {
    let mut g = AttributeGraph::new();
    g.add_flat(AttributeName::DEF, 300);
    g.add_flat(AttributeName::DEF, 700);
    assert_eq!(g.get_value(AttributeName::DEF).unwrap(), 1_000);
}

#[test]
fn get_value_is_deterministic() {
    let mut g = AttributeGraph::new();
    g.set_base(AttributeName::ATK, ATK_1000);
    g.add_edge1(AttributeName::ATK, AttributeName::ElementalMastery, 600, "em feed");
    let first = g.get_value(AttributeName::ElementalMastery).unwrap();
    let second = g.get_value(AttributeName::ElementalMastery).unwrap();
    assert_eq!(first, second);
    assert_eq!(first, 600_000);
}

#[test]
fn edge_contribution_is_coeff_times_source() {
    // 6% of 1000.0 ATK feeds Elemental Mastery: 60.0.
    let mut g = AttributeGraph::new();
    g.set_base(AttributeName::ATK, ATK_1000);
    g.add_edge1(AttributeName::ATK, AttributeName::ElementalMastery, 600, "em feed");
    assert_eq!(g.get_value(AttributeName::ElementalMastery).unwrap(), 600_000);
}

#[test]
fn edges_to_same_target_are_additive() {
    let mut g = AttributeGraph::new();
    g.set_base(AttributeName::ATK, ATK_1000);
    g.add_edge1(AttributeName::ATK, AttributeName::ElementalMastery, 600, "first");
    g.add_edge1(AttributeName::ATK, AttributeName::ElementalMastery, 400, "second");
    // 0.06 * 1000 + 0.04 * 1000 = 100.0
    assert_eq!(g.get_value(AttributeName::ElementalMastery).unwrap(), 1_000_000);
}

#[test]
fn edge_registration_order_does_not_matter() {
    let mut g1 = AttributeGraph::new();
    g1.set_base(AttributeName::ATK, ATK_1000);
    g1.add_edge1(AttributeName::ATK, AttributeName::ElementalMastery, 600, "first");
    g1.add_edge1(AttributeName::HP, AttributeName::ElementalMastery, 400, "second");
    g1.set_base(AttributeName::HP, 5_000_000);

    let mut g2 = AttributeGraph::new();
    g2.set_base(AttributeName::ATK, ATK_1000);
    g2.set_base(AttributeName::HP, 5_000_000);
    g2.add_edge1(AttributeName::HP, AttributeName::ElementalMastery, 400, "second");
    g2.add_edge1(AttributeName::ATK, AttributeName::ElementalMastery, 600, "first");

    assert_eq!(
        g1.get_value(AttributeName::ElementalMastery).unwrap(),
        g2.get_value(AttributeName::ElementalMastery).unwrap(),
    );
    // 0.06 * 1000 + 0.04 * 500 = 80.0
    assert_eq!(g1.get_value(AttributeName::ElementalMastery).unwrap(), 800_000);
}

#[test]
fn two_source_edge_sums_both_contributions() {
    // EM gains 0.06 * ATK + 0.02 * HP.
    let mut g = AttributeGraph::new();
    g.set_base(AttributeName::ATK, ATK_1000);
    g.set_base(AttributeName::HP, 20_000_000);
    g.add_edge2(
        AttributeName::ATK,
        AttributeName::HP,
        AttributeName::ElementalMastery,
        600,
        200,
        "double feed",
    );
    // 0.06 * 1000 + 0.02 * 2000 = 100.0
    assert_eq!(g.get_value(AttributeName::ElementalMastery).unwrap(), 1_000_000);
}

#[test]
fn edges_chain_transitively() {
    // ATK -> EM at 0.5, EM -> Recharge at 0.2: Recharge = 0.1 * ATK.
    let mut g = AttributeGraph::new();
    g.set_base(AttributeName::ATK, ATK_1000);
    g.add_edge1(AttributeName::ATK, AttributeName::ElementalMastery, 5_000, "half");
    g.add_edge1(AttributeName::ElementalMastery, AttributeName::Recharge, 2_000, "fifth");
    assert_eq!(g.get_value(AttributeName::ElementalMastery).unwrap(), 5_000_000);
    assert_eq!(g.get_value(AttributeName::Recharge).unwrap(), 1_000_000);
}

#[test]
fn gradient_of_single_edge_is_coefficient() {
    let mut g = AttributeGraph::new();
    g.set_base(AttributeName::ATK, ATK_1000);
    g.add_edge1(AttributeName::ATK, AttributeName::ElementalMastery, 600, "em feed");
    let grads = g.propagate_gradient(AttributeName::ElementalMastery, SCALE).unwrap();
    // index 1 is ATK
    assert_eq!(grads[1], 600);
}

#[test]
fn gradient_matches_finite_difference() {
    // Perturb ATK base by exactly 1.0 and compare the value change of the
    // target against the propagated gradient.
    let mut g = AttributeGraph::new();
    g.set_base(AttributeName::ATK, ATK_1000);
    g.add_edge1(AttributeName::ATK, AttributeName::ElementalMastery, 600, "em feed");
    let v0 = g.get_value(AttributeName::ElementalMastery).unwrap();
    let grads = g.propagate_gradient(AttributeName::ElementalMastery, SCALE).unwrap();

    let mut g2 = AttributeGraph::new();
    g2.set_base(AttributeName::ATK, ATK_1000 + SCALE);
    g2.add_edge1(AttributeName::ATK, AttributeName::ElementalMastery, 600, "em feed");
    let v1 = g2.get_value(AttributeName::ElementalMastery).unwrap();

    assert_eq!(v1 - v0, grads[1]);
}

#[test]
fn gradient_chains_by_product_and_sums_over_paths() {
    // ATK -> EM at 0.5, EM -> Recharge at 0.2, and ATK -> Recharge at 0.3:
    // d(Recharge)/d(ATK) = 0.5 * 0.2 + 0.3 = 0.4.
    let mut g = AttributeGraph::new();
    g.set_base(AttributeName::ATK, ATK_1000);
    g.add_edge1(AttributeName::ATK, AttributeName::ElementalMastery, 5_000, "half");
    g.add_edge1(AttributeName::ElementalMastery, AttributeName::Recharge, 2_000, "fifth");
    g.add_edge1(AttributeName::ATK, AttributeName::Recharge, 3_000, "direct");
    let grads = g.propagate_gradient(AttributeName::Recharge, SCALE).unwrap();
    assert_eq!(grads[1], 4_000);
    // The intermediate attribute sees only its own edge: 0.2.
    assert_eq!(grads[3], 2_000);
}

#[test]
fn gradient_finite_difference_through_chain() {
    let build = |atk: u64| {
        let mut g = AttributeGraph::new();
        g.set_base(AttributeName::ATK, atk);
        g.add_edge1(AttributeName::ATK, AttributeName::ElementalMastery, 5_000, "half");
        g.add_edge1(AttributeName::ElementalMastery, AttributeName::Recharge, 2_000, "fifth");
        g
    };
    let v0 = build(ATK_1000).get_value(AttributeName::Recharge).unwrap();
    let v1 = build(ATK_1000 + SCALE).get_value(AttributeName::Recharge).unwrap();
    let grads = build(ATK_1000).propagate_gradient(AttributeName::Recharge, SCALE).unwrap();
    assert_eq!(v1 - v0, grads[1]);
}

#[test]
fn cycle_is_detected_not_looped() {
    let mut g = AttributeGraph::new();
    g.set_base(AttributeName::ATK, ATK_1000);
    g.add_edge1(AttributeName::ATK, AttributeName::ElementalMastery, 600, "forward");
    g.add_edge1(AttributeName::ElementalMastery, AttributeName::ATK, 100, "backward");
    let err = g.get_value(AttributeName::ATK).unwrap_err();
    // The diagnostic names the chain of edges being followed.
    assert_eq!(err.labels.len(), 2);
    assert!(err.labels.contains(&"forward"));
    assert!(err.labels.contains(&"backward"));
    assert!(g.get_value(AttributeName::ElementalMastery).is_err());
    assert!(g.propagate_gradient(AttributeName::ATK, SCALE).is_err());
    // An attribute outside the cycle still resolves.
    assert_eq!(g.get_value(AttributeName::HP).unwrap(), 0);
}

#[test]
fn extreme_values_saturate_without_panic() {
    let mut g = AttributeGraph::new();
    g.set_base(AttributeName::ATK, u64::MAX);
    g.add_percentage(AttributeName::ATK, u64::MAX);
    assert_eq!(g.get_value(AttributeName::ATK).unwrap(), u64::MAX);
}

#[test]
fn self_loop_is_detected() {
    let mut g = AttributeGraph::new();
    g.add_edge1(AttributeName::ATK, AttributeName::ATK, 600, "loop");
    assert!(g.get_value(AttributeName::ATK).is_err());
}
