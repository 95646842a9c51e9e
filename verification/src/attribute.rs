//! The attribute dependency graph: a store of named stat values plus a set
//! of derived edges, with forward value resolution (`get_value`) and
//! reverse-mode sensitivity propagation (`propagate_gradient`).
//!
//! A stat's resolved value is `(base + flat) * (1 + pct)` plus the sum of
//! the contributions of every edge targeting it; an edge contributes its
//! coefficient times the resolved value of its source. Resolution follows
//! edges transitively and fails fast on a dependency cycle.

use vstd::prelude::*;
use crate::fixed::{SCALE, fx_add, fx_mul, add_fx, mul_fx, lemma_fx_add_assoc};

verus! {

/// Number of distinct attribute names.
pub const ATTR_COUNT: usize = 22;

/// Depth bound for resolution: one more than the number of attributes, so
/// that on an acyclic graph the cycle check always fires before the bound.
pub const GRAPH_FUEL: u64 = 23;

/// The closed set of stat kinds a build carries.
#[derive(Clone, Copy, PartialEq, Eq, Structural, Debug)]
pub enum AttributeName {
    HP,
    ATK,
    DEF,
    ElementalMastery,
    Recharge,
    CriticalRate,
    CriticalDamage,
    HealingBonus,
    ElectroBonus,
    PyroBonus,
    HydroBonus,
    AnemoBonus,
    CryoBonus,
    GeoBonus,
    DendroBonus,
    PhysicalBonus,
    BonusNormalAttack,
    BonusChargedAttack,
    BonusPlungingAttackInAction,
    BonusPlungingAttackOnGround,
    BonusElementalSkill,
    BonusElementalBurst,
}

/// The index of an attribute in the store's arrays.
pub open spec fn attr_idx(a: AttributeName) -> int {
    match a {
        AttributeName::HP => 0,
        AttributeName::ATK => 1,
        AttributeName::DEF => 2,
        AttributeName::ElementalMastery => 3,
        AttributeName::Recharge => 4,
        AttributeName::CriticalRate => 5,
        AttributeName::CriticalDamage => 6,
        AttributeName::HealingBonus => 7,
        AttributeName::ElectroBonus => 8,
        AttributeName::PyroBonus => 9,
        AttributeName::HydroBonus => 10,
        AttributeName::AnemoBonus => 11,
        AttributeName::CryoBonus => 12,
        AttributeName::GeoBonus => 13,
        AttributeName::DendroBonus => 14,
        AttributeName::PhysicalBonus => 15,
        AttributeName::BonusNormalAttack => 16,
        AttributeName::BonusChargedAttack => 17,
        AttributeName::BonusPlungingAttackInAction => 18,
        AttributeName::BonusPlungingAttackOnGround => 19,
        AttributeName::BonusElementalSkill => 20,
        AttributeName::BonusElementalBurst => 21,
    }
}

/// The attribute at a given store index.
pub open spec fn attr_of(i: int) -> AttributeName {
    if i == 0 { AttributeName::HP }
    else if i == 1 { AttributeName::ATK }
    else if i == 2 { AttributeName::DEF }
    else if i == 3 { AttributeName::ElementalMastery }
    else if i == 4 { AttributeName::Recharge }
    else if i == 5 { AttributeName::CriticalRate }
    else if i == 6 { AttributeName::CriticalDamage }
    else if i == 7 { AttributeName::HealingBonus }
    else if i == 8 { AttributeName::ElectroBonus }
    else if i == 9 { AttributeName::PyroBonus }
    else if i == 10 { AttributeName::HydroBonus }
    else if i == 11 { AttributeName::AnemoBonus }
    else if i == 12 { AttributeName::CryoBonus }
    else if i == 13 { AttributeName::GeoBonus }
    else if i == 14 { AttributeName::DendroBonus }
    else if i == 15 { AttributeName::PhysicalBonus }
    else if i == 16 { AttributeName::BonusNormalAttack }
    else if i == 17 { AttributeName::BonusChargedAttack }
    else if i == 18 { AttributeName::BonusPlungingAttackInAction }
    else if i == 19 { AttributeName::BonusPlungingAttackOnGround }
    else if i == 20 { AttributeName::BonusElementalSkill }
    else { AttributeName::BonusElementalBurst }
}

/// Indices are in range and invert back to the attribute.
pub proof fn lemma_attr_roundtrip(a: AttributeName)
    ensures
        0 <= attr_idx(a) < ATTR_COUNT,
        attr_of(attr_idx(a)) == a,
{
}

/// Every attribute has an index below `ATTR_COUNT`.
pub proof fn lemma_attr_idx_range()
    ensures
        forall|a: AttributeName| 0 <= #[trigger] attr_idx(a) < ATTR_COUNT,
{
    assert forall|a: AttributeName| 0 <= #[trigger] attr_idx(a) < ATTR_COUNT by {
        lemma_attr_roundtrip(a);
    }
}

/// Distinct attributes have distinct indices.
pub proof fn lemma_attr_idx_injective()
    ensures
        forall|a: AttributeName, b: AttributeName|
            #[trigger] attr_idx(a) == #[trigger] attr_idx(b) ==> a == b,
{
    assert forall|a: AttributeName, b: AttributeName|
        #[trigger] attr_idx(a) == #[trigger] attr_idx(b) implies a == b by {
        lemma_attr_roundtrip(a);
        lemma_attr_roundtrip(b);
    }
}

/// The exec counterpart of `attr_idx`.
pub fn attr_index(a: AttributeName) -> (i: usize)
    ensures
        i == attr_idx(a),
        i < ATTR_COUNT,
{
    match a {
        AttributeName::HP => 0,
        AttributeName::ATK => 1,
        AttributeName::DEF => 2,
        AttributeName::ElementalMastery => 3,
        AttributeName::Recharge => 4,
        AttributeName::CriticalRate => 5,
        AttributeName::CriticalDamage => 6,
        AttributeName::HealingBonus => 7,
        AttributeName::ElectroBonus => 8,
        AttributeName::PyroBonus => 9,
        AttributeName::HydroBonus => 10,
        AttributeName::AnemoBonus => 11,
        AttributeName::CryoBonus => 12,
        AttributeName::GeoBonus => 13,
        AttributeName::DendroBonus => 14,
        AttributeName::PhysicalBonus => 15,
        AttributeName::BonusNormalAttack => 16,
        AttributeName::BonusChargedAttack => 17,
        AttributeName::BonusPlungingAttackInAction => 18,
        AttributeName::BonusPlungingAttackOnGround => 19,
        AttributeName::BonusElementalSkill => 20,
        AttributeName::BonusElementalBurst => 21,
    }
}

/// The exec counterpart of `attr_of`.
pub fn index_attr(i: usize) -> (a: AttributeName)
    requires
        i < ATTR_COUNT,
    ensures
        a == attr_of(i as int),
{
    if i == 0 { AttributeName::HP }
    else if i == 1 { AttributeName::ATK }
    else if i == 2 { AttributeName::DEF }
    else if i == 3 { AttributeName::ElementalMastery }
    else if i == 4 { AttributeName::Recharge }
    else if i == 5 { AttributeName::CriticalRate }
    else if i == 6 { AttributeName::CriticalDamage }
    else if i == 7 { AttributeName::HealingBonus }
    else if i == 8 { AttributeName::ElectroBonus }
    else if i == 9 { AttributeName::PyroBonus }
    else if i == 10 { AttributeName::HydroBonus }
    else if i == 11 { AttributeName::AnemoBonus }
    else if i == 12 { AttributeName::CryoBonus }
    else if i == 13 { AttributeName::GeoBonus }
    else if i == 14 { AttributeName::DendroBonus }
    else if i == 15 { AttributeName::PhysicalBonus }
    else if i == 16 { AttributeName::BonusNormalAttack }
    else if i == 17 { AttributeName::BonusChargedAttack }
    else if i == 18 { AttributeName::BonusPlungingAttackInAction }
    else if i == 19 { AttributeName::BonusPlungingAttackOnGround }
    else if i == 20 { AttributeName::BonusElementalSkill }
    else { AttributeName::BonusElementalBurst }
}

/// A registered linear dependency: the value of `source` contributes
/// `coeff * value(source)` to the value of `target`. The coefficient is
/// both the forward function and its own exact derivative, so forward and
/// backward propagation are analytically consistent by construction.
#[derive(Clone, Copy)]
pub struct Edge {
    pub source: AttributeName,
    pub target: AttributeName,
    pub coeff: u64,
    pub label: &'static str,
}

/// Raised when resolution meets a dependency cycle: the labels name the
/// chain of edges that was being followed when the cycle closed.
#[derive(Debug)]
pub struct GraphError {
    pub labels: Vec<&'static str>,
}

/// One build's attribute store and edge set.
pub struct AttributeGraph {
    base: Vec<u64>,
    flat: Vec<u64>,
    pct: Vec<u64>,
    edges: Vec<Edge>,
}

impl AttributeGraph {
    /// The store arrays cover every attribute.
    pub closed spec fn wf(self) -> bool {
        self.base@.len() == ATTR_COUNT && self.flat@.len() == ATTR_COUNT && self.pct@.len()
            == ATTR_COUNT
    }

    /// The base value set for an attribute.
    pub closed spec fn base_at(self, a: AttributeName) -> u64 {
        self.base@[attr_idx(a)]
    }

    /// The accumulated flat modifiers of an attribute.
    pub closed spec fn flat_at(self, a: AttributeName) -> u64 {
        self.flat@[attr_idx(a)]
    }

    /// The accumulated percentage modifiers of an attribute.
    pub closed spec fn pct_at(self, a: AttributeName) -> u64 {
        self.pct@[attr_idx(a)]
    }

    /// The registered edges, in registration order.
    pub closed spec fn edge_seq(self) -> Seq<Edge> {
        self.edges@
    }
}

/// The store-level part of an attribute's value: `(base + flat) * (1 + pct)`.
pub open spec fn base_value(g: AttributeGraph, a: AttributeName) -> u64 {
    fx_mul(fx_add(g.base_at(a), g.flat_at(a)), fx_add(SCALE, g.pct_at(a)))
}

/// The resolved value of `a` when dependency chains are followed at most
/// `fuel` edges deep: the store-level part plus each targeting edge's
/// contribution, the edge's source itself resolved with one less unit of
/// fuel. Zero once the fuel is spent (unreached on the bound this library
/// uses: the cycle check fires first).
pub open spec fn value_fuel(g: AttributeGraph, a: AttributeName, fuel: nat) -> u64
    decreases fuel, g.edge_seq().len() + 2,
{
    if fuel == 0 {
        0
    } else {
        fx_add(base_value(g, a), edge_sum(g, a, fuel, 0))
    }
}

/// The summed contributions to `a` of the edges from index `i` on.
pub open spec fn edge_sum(g: AttributeGraph, a: AttributeName, fuel: nat, i: int) -> u64
    decreases fuel, g.edge_seq().len() - i + 1,
{
    if i < 0 || i >= g.edge_seq().len() || fuel == 0 {
        0
    } else {
        let rest = edge_sum(g, a, fuel, i + 1);
        let e = g.edge_seq()[i];
        if e.target == a {
            fx_add(fx_mul(e.coeff, value_fuel(g, e.source, (fuel - 1) as nat)), rest)
        } else {
            rest
        }
    }
}

/// Resolution of `a` terminates within `fuel` steps without meeting any
/// attribute already on the in-progress `stack`: the exact condition under
/// which `get_value` succeeds.
pub open spec fn resolvable(
    g: AttributeGraph,
    a: AttributeName,
    stack: Set<AttributeName>,
    fuel: nat,
) -> bool
    decreases fuel, g.edge_seq().len() + 2,
{
    if fuel == 0 {
        false
    } else {
        !stack.contains(a) && edges_resolvable(g, a, stack.insert(a), fuel, 0)
    }
}

/// Every edge from index `i` on that targets `a` has a resolvable source.
pub open spec fn edges_resolvable(
    g: AttributeGraph,
    a: AttributeName,
    stack: Set<AttributeName>,
    fuel: nat,
    i: int,
) -> bool
    decreases fuel, g.edge_seq().len() - i + 1,
{
    if i < 0 || i >= g.edge_seq().len() || fuel == 0 {
        true
    } else {
        let e = g.edge_seq()[i];
        (e.target != a || resolvable(g, e.source, stack, (fuel - 1) as nat)) && edges_resolvable(
            g,
            a,
            stack,
            fuel,
            i + 1,
        )
    }
}

/// `get_value(a)` succeeds exactly when this holds.
pub open spec fn can_resolve(g: AttributeGraph, a: AttributeName) -> bool {
    resolvable(g, a, Set::empty(), GRAPH_FUEL as nat)
}

/// The value `get_value(a)` returns when it succeeds.
pub open spec fn resolved_value(g: AttributeGraph, a: AttributeName) -> u64 {
    value_fuel(g, a, GRAPH_FUEL as nat)
}

/// The total gradient accumulated at `s` when a seed sensitivity `seed` is
/// placed at `t` and propagated backward: along every edge into `t` the
/// seed is scaled by the edge's coefficient (the local derivative),
/// recorded if the edge's source is `s`, and propagated further from that
/// source. Contributions of several edges accumulate additively, the
/// reverse-mode sum rule.
pub open spec fn grad_from(
    g: AttributeGraph,
    s: AttributeName,
    t: AttributeName,
    seed: u64,
    fuel: nat,
) -> u64
    decreases fuel, g.edge_seq().len() + 2,
{
    if fuel == 0 {
        0
    } else {
        grad_edges(g, s, t, seed, fuel, 0)
    }
}

/// The gradient reaching `s` through the edges from index `i` on.
pub open spec fn grad_edges(
    g: AttributeGraph,
    s: AttributeName,
    t: AttributeName,
    seed: u64,
    fuel: nat,
    i: int,
) -> u64
    decreases fuel, g.edge_seq().len() - i + 1,
{
    if i < 0 || i >= g.edge_seq().len() || fuel == 0 {
        0
    } else {
        let rest = grad_edges(g, s, t, seed, fuel, i + 1);
        let e = g.edge_seq()[i];
        if e.target == t {
            let c = fx_mul(e.coeff, seed);
            let here = if e.source == s {
                c
            } else {
                0
            };
            fx_add(fx_add(here, grad_from(g, s, e.source, c, (fuel - 1) as nat)), rest)
        } else {
            rest
        }
    }
}

/// The gradient `propagate_gradient(t, seed)` reports at `s`.
pub open spec fn gradient_at(
    g: AttributeGraph,
    s: AttributeName,
    t: AttributeName,
    seed: u64,
) -> u64 {
    grad_from(g, s, t, seed, GRAPH_FUEL as nat)
}

/// The set of attributes marked as being resolved.
pub open spec fn visited_set(v: Seq<bool>) -> Set<AttributeName> {
    Set::new(|a: AttributeName| 0 <= attr_idx(a) < v.len() && v[attr_idx(a)])
}

/// Every reported label names a registered edge of the graph.
pub open spec fn labels_from(g: AttributeGraph, labels: Seq<&'static str>) -> bool {
    forall|j: int|
        0 <= j < labels.len() ==> exists|k: int|
            0 <= k < g.edge_seq().len() && #[trigger] labels[j] == (
            #[trigger] g.edge_seq()[k]).label
}

/// If each edge into `a` from index `i` on has a resolvable source, the
/// suffix is resolvable.
proof fn lemma_edges_resolvable_all(
    g: AttributeGraph,
    a: AttributeName,
    stack: Set<AttributeName>,
    fuel: nat,
    i: int,
)
    requires
        fuel >= 1,
        0 <= i <= g.edge_seq().len(),
        forall|k: int|
            i <= k < g.edge_seq().len() && (#[trigger] g.edge_seq()[k]).target == a
                ==> resolvable(g, g.edge_seq()[k].source, stack, (fuel - 1) as nat),
    ensures
        edges_resolvable(g, a, stack, fuel, i),
    decreases g.edge_seq().len() - i,
{
    if i < g.edge_seq().len() {
        lemma_edges_resolvable_all(g, a, stack, fuel, i + 1);
    }
}

/// From a resolvable suffix, each of its edges into `a` has a resolvable
/// source.
proof fn lemma_edges_resolvable_at(
    g: AttributeGraph,
    a: AttributeName,
    stack: Set<AttributeName>,
    fuel: nat,
    i: int,
    k: int,
)
    requires
        fuel >= 1,
        0 <= i <= k < g.edge_seq().len(),
        edges_resolvable(g, a, stack, fuel, i),
        g.edge_seq()[k].target == a,
    ensures
        resolvable(g, g.edge_seq()[k].source, stack, (fuel - 1) as nat),
    decreases k - i,
{
    if i < k {
        lemma_edges_resolvable_at(g, a, stack, fuel, i + 1, k);
    }
}

/// A fresh all-false visited map.
fn new_visiting() -> (v: Vec<bool>)
    ensures
        v@.len() == ATTR_COUNT,
        forall|j: int| 0 <= j < ATTR_COUNT ==> !v@[j],
{
    let mut v: Vec<bool> = Vec::new();
    let mut j: usize = 0;
    while j < ATTR_COUNT
        invariant
            v@.len() == j,
            j <= ATTR_COUNT,
            forall|q: int| 0 <= q < j ==> !v@[q],
        decreases ATTR_COUNT - j,
    {
        v.push(false);
        j = j + 1;
    }
    v
}

/// A store array of zeros.
fn zero_store() -> (v: Vec<u64>)
    ensures
        v@.len() == ATTR_COUNT,
        forall|j: int| 0 <= j < ATTR_COUNT ==> v@[j] == 0,
{
    let mut v: Vec<u64> = Vec::new();
    let mut j: usize = 0;
    while j < ATTR_COUNT
        invariant
            v@.len() == j,
            j <= ATTR_COUNT,
            forall|q: int| 0 <= q < j ==> v@[q] == 0,
        decreases ATTR_COUNT - j,
    {
        v.push(0);
        j = j + 1;
    }
    v
}

impl AttributeGraph {
    /// An empty graph: every stat zero, no edges.
    pub fn new() -> (g: AttributeGraph)
        ensures
            g.wf(),
            forall|a: AttributeName| #[trigger] g.base_at(a) == 0,
            forall|a: AttributeName| #[trigger] g.flat_at(a) == 0,
            forall|a: AttributeName| #[trigger] g.pct_at(a) == 0,
            g.edge_seq().len() == 0,
    {
        let g = AttributeGraph { base: zero_store(), flat: zero_store(), pct: zero_store(), edges: Vec::new() };
        proof {
            lemma_attr_idx_range();
        }
        g
    }

    /// Set an attribute's base value, replacing any earlier base.
    pub fn set_base(&mut self, name: AttributeName, value: u64)
        requires
            old(self).wf(),
        ensures
            final(self).wf(),
            final(self).base_at(name) == value,
            forall|b: AttributeName|
                b != name ==> #[trigger] final(self).base_at(b) == old(self).base_at(b),
            forall|b: AttributeName| #[trigger] final(self).flat_at(b) == old(self).flat_at(b),
            forall|b: AttributeName| #[trigger] final(self).pct_at(b) == old(self).pct_at(b),
            final(self).edge_seq() == old(self).edge_seq(),
    {
        let i = attr_index(name);
        self.base.set(i, value);
        proof {
            lemma_attr_idx_injective();
            lemma_attr_idx_range();
        }
    }

    /// Add a flat modifier to an attribute (saturating).
    pub fn add_flat(&mut self, name: AttributeName, delta: u64)
        requires
            old(self).wf(),
        ensures
            final(self).wf(),
            final(self).flat_at(name) == fx_add(old(self).flat_at(name), delta),
            forall|b: AttributeName|
                b != name ==> #[trigger] final(self).flat_at(b) == old(self).flat_at(b),
            forall|b: AttributeName| #[trigger] final(self).base_at(b) == old(self).base_at(b),
            forall|b: AttributeName| #[trigger] final(self).pct_at(b) == old(self).pct_at(b),
            final(self).edge_seq() == old(self).edge_seq(),
    {
        let i = attr_index(name);
        let v = add_fx(self.flat[i], delta);
        self.flat.set(i, v);
        proof {
            lemma_attr_idx_injective();
            lemma_attr_idx_range();
        }
    }

    /// Add a percentage modifier to an attribute (saturating).
    pub fn add_percentage(&mut self, name: AttributeName, delta: u64)
        requires
            old(self).wf(),
        ensures
            final(self).wf(),
            final(self).pct_at(name) == fx_add(old(self).pct_at(name), delta),
            forall|b: AttributeName|
                b != name ==> #[trigger] final(self).pct_at(b) == old(self).pct_at(b),
            forall|b: AttributeName| #[trigger] final(self).base_at(b) == old(self).base_at(b),
            forall|b: AttributeName| #[trigger] final(self).flat_at(b) == old(self).flat_at(b),
            final(self).edge_seq() == old(self).edge_seq(),
    {
        let i = attr_index(name);
        let v = add_fx(self.pct[i], delta);
        self.pct.set(i, v);
        proof {
            lemma_attr_idx_injective();
            lemma_attr_idx_range();
        }
    }

    /// Register a derived contribution: `coeff * value(source)` is added to
    /// the value of `target`. Several edges to one target are additive.
    pub fn add_edge1(
        &mut self,
        source: AttributeName,
        target: AttributeName,
        coeff: u64,
        label: &'static str,
    )
        requires
            old(self).wf(),
        ensures
            final(self).wf(),
            final(self).edge_seq().len() == old(self).edge_seq().len() + 1,
            final(self).edge_seq().last().source == source,
            final(self).edge_seq().last().target == target,
            final(self).edge_seq().last().coeff == coeff,
            final(self).edge_seq().last().label == label,
            forall|j: int|
                0 <= j < old(self).edge_seq().len() ==> final(self).edge_seq()[j] == old(
                    self,
                ).edge_seq()[j],
            forall|b: AttributeName| #[trigger] final(self).base_at(b) == old(self).base_at(b),
            forall|b: AttributeName| #[trigger] final(self).flat_at(b) == old(self).flat_at(b),
            forall|b: AttributeName| #[trigger] final(self).pct_at(b) == old(self).pct_at(b),
    {
        self.edges.push(Edge { source, target, coeff, label });
    }

    /// Register a derived contribution with two sources:
    /// `coeff1 * value(source1) + coeff2 * value(source2)` is added to the
    /// value of `target`, as two contributions sharing one label.
    pub fn add_edge2(
        &mut self,
        source1: AttributeName,
        source2: AttributeName,
        target: AttributeName,
        coeff1: u64,
        coeff2: u64,
        label: &'static str,
    )
        requires
            old(self).wf(),
        ensures
            final(self).wf(),
            final(self).edge_seq().len() == old(self).edge_seq().len() + 2,
            final(self).edge_seq()[old(self).edge_seq().len() as int] == (Edge {
                source: source1,
                target,
                coeff: coeff1,
                label,
            }),
            final(self).edge_seq().last() == (Edge {
                source: source2,
                target,
                coeff: coeff2,
                label,
            }),
            forall|j: int|
                0 <= j < old(self).edge_seq().len() ==> final(self).edge_seq()[j] == old(
                    self,
                ).edge_seq()[j],
            forall|b: AttributeName| #[trigger] final(self).base_at(b) == old(self).base_at(b),
            forall|b: AttributeName| #[trigger] final(self).flat_at(b) == old(self).flat_at(b),
            forall|b: AttributeName| #[trigger] final(self).pct_at(b) == old(self).pct_at(b),
    {
        self.edges.push(Edge { source: source1, target, coeff: coeff1, label });
        self.edges.push(Edge { source: source2, target, coeff: coeff2, label });
    }

    /// One step of depth-first resolution: `a`'s value, with the attributes
    /// on the in-progress stack marked in `visiting`.
    fn eval(&self, a: AttributeName, visiting: &mut Vec<bool>, fuel: u64) -> (r: Result<
        u64,
        GraphError,
    >)
        requires
            self.wf(),
            old(visiting)@.len() == ATTR_COUNT,
        ensures
            final(visiting)@ == old(visiting)@,
            (r is Ok) == resolvable(*self, a, visited_set(old(visiting)@), fuel as nat),
            r matches Ok(v) ==> v == value_fuel(*self, a, fuel as nat),
            r matches Err(er) ==> labels_from(*self, er.labels@),
        decreases fuel,
    {
        if fuel == 0 {
            return Err(GraphError { labels: Vec::new() });
        }
        let ia = attr_index(a);
        proof {
            lemma_attr_roundtrip(a);
        }
        if visiting[ia] {
            return Err(GraphError { labels: Vec::new() });
        }
        let ghost s0 = visited_set(old(visiting)@);
        visiting.set(ia, true);
        let ghost s1 = visited_set(visiting@);
        proof {
            lemma_attr_idx_injective();
            lemma_attr_idx_range();
            assert(s1 =~= s0.insert(a));
        }
        let bf = add_fx(self.base[ia], self.flat[ia]);
        let pm = add_fx(SCALE, self.pct[ia]);
        let mut acc: u64 = mul_fx(bf, pm);
        let n = self.edges.len();
        let mut i: usize = 0;
        while i < n
            invariant
                self.wf(),
                1 <= fuel,
                n == self.edge_seq().len(),
                i <= n,
                visiting@.len() == ATTR_COUNT,
                ia == attr_idx(a),
                ia < ATTR_COUNT,
                old(visiting)@.len() == ATTR_COUNT,
                !old(visiting)@[ia as int],
                visiting@ == old(visiting)@.update(ia as int, true),
                s1 == visited_set(visiting@),
                s1 == visited_set(old(visiting)@).insert(a),
                fx_add(acc, edge_sum(*self, a, fuel as nat, i as int)) == value_fuel(
                    *self,
                    a,
                    fuel as nat,
                ),
                forall|k: int|
                    0 <= k < i && (#[trigger] self.edge_seq()[k]).target == a ==> resolvable(
                        *self,
                        self.edge_seq()[k].source,
                        s1,
                        (fuel - 1) as nat,
                    ),
            decreases n - i,
        {
            let e = self.edges[i];
            if e.target == a {
                match self.eval(e.source, visiting, fuel - 1) {
                    Ok(sv) => {
                        let part = mul_fx(e.coeff, sv);
                        proof {
                            lemma_fx_add_assoc(
                                acc,
                                part,
                                edge_sum(*self, a, fuel as nat, i + 1),
                            );
                        }
                        acc = add_fx(acc, part);
                    },
                    Err(mut err) => {
                        let ghost pre = err.labels@;
                        err.labels.push(e.label);
                        visiting.set(ia, false);
                        proof {
                            assert(visiting@ =~= old(visiting)@);
                            if edges_resolvable(*self, a, s1, fuel as nat, 0) {
                                lemma_edges_resolvable_at(*self, a, s1, fuel as nat, 0, i as int);
                            }
                            assert forall|j: int| 0 <= j < err.labels@.len() implies exists|k: int|
                                0 <= k < self.edge_seq().len() && #[trigger] err.labels@[j] == (
                            #[trigger] self.edge_seq()[k]).label by {
                                if j < pre.len() {
                                    assert(labels_from(*self, pre));
                                } else {
                                    assert(err.labels@[j] == (self.edge_seq()[i as int]).label);
                                }
                            }
                        }
                        return Err(err);
                    },
                }
            }
            i = i + 1;
        }
        visiting.set(ia, false);
        proof {
            assert(visiting@ =~= old(visiting)@);
            lemma_edges_resolvable_all(*self, a, s1, fuel as nat, 0);
        }
        Ok(acc)
    }

    /// The fully resolved value of `name`: the store-level composition plus
    /// every targeting edge's contribution, sources resolved transitively.
    /// Fails exactly when a dependency cycle is met, with the labels of the
    /// edge chain being followed.
    pub fn get_value(&self, name: AttributeName) -> (r: Result<u64, GraphError>)
        requires
            self.wf(),
        ensures
            (r is Ok) == can_resolve(*self, name),
            r matches Ok(v) ==> v == resolved_value(*self, name),
            r matches Err(er) ==> labels_from(*self, er.labels@),
    {
        let mut visiting = new_visiting();
        proof {
            lemma_attr_idx_range();
            assert(visited_set(visiting@) =~= Set::<AttributeName>::empty());
        }
        self.eval(name, &mut visiting, GRAPH_FUEL)
    }

    /// One step of backward propagation: the gradient reaching `s` when
    /// `seed` is placed at `t`.
    fn grad_of(
        &self,
        s: AttributeName,
        t: AttributeName,
        seed: u64,
        visiting: &mut Vec<bool>,
        fuel: u64,
    ) -> (r: Result<u64, GraphError>)
        requires
            self.wf(),
            old(visiting)@.len() == ATTR_COUNT,
        ensures
            final(visiting)@ == old(visiting)@,
            (r is Ok) == resolvable(*self, t, visited_set(old(visiting)@), fuel as nat),
            r matches Ok(v) ==> v == grad_from(*self, s, t, seed, fuel as nat),
            r matches Err(er) ==> labels_from(*self, er.labels@),
        decreases fuel,
    {
        if fuel == 0 {
            return Err(GraphError { labels: Vec::new() });
        }
        let it = attr_index(t);
        proof {
            lemma_attr_roundtrip(t);
        }
        if visiting[it] {
            return Err(GraphError { labels: Vec::new() });
        }
        let ghost s0 = visited_set(old(visiting)@);
        visiting.set(it, true);
        let ghost s1 = visited_set(visiting@);
        proof {
            lemma_attr_idx_injective();
            lemma_attr_idx_range();
            assert(s1 =~= s0.insert(t));
        }
        let mut acc: u64 = 0;
        let n = self.edges.len();
        let mut i: usize = 0;
        while i < n
            invariant
                self.wf(),
                1 <= fuel,
                n == self.edge_seq().len(),
                i <= n,
                visiting@.len() == ATTR_COUNT,
                it == attr_idx(t),
                it < ATTR_COUNT,
                old(visiting)@.len() == ATTR_COUNT,
                !old(visiting)@[it as int],
                visiting@ == old(visiting)@.update(it as int, true),
                s1 == visited_set(visiting@),
                s1 == visited_set(old(visiting)@).insert(t),
                fx_add(acc, grad_edges(*self, s, t, seed, fuel as nat, i as int)) == grad_from(
                    *self,
                    s,
                    t,
                    seed,
                    fuel as nat,
                ),
                forall|k: int|
                    0 <= k < i && (#[trigger] self.edge_seq()[k]).target == t ==> resolvable(
                        *self,
                        self.edge_seq()[k].source,
                        s1,
                        (fuel - 1) as nat,
                    ),
            decreases n - i,
        {
            let e = self.edges[i];
            if e.target == t {
                let c = mul_fx(e.coeff, seed);
                let here: u64 = if e.source == s {
                    c
                } else {
                    0
                };
                match self.grad_of(s, e.source, c, visiting, fuel - 1) {
                    Ok(gv) => {
                        proof {
                            let ghost rest = grad_edges(*self, s, t, seed, fuel as nat, i + 1);
                            lemma_fx_add_assoc(here, gv, rest);
                            lemma_fx_add_assoc(acc, here, fx_add(gv, rest));
                            lemma_fx_add_assoc(fx_add(acc, here), gv, rest);
                        }
                        acc = add_fx(add_fx(acc, here), gv);
                    },
                    Err(mut err) => {
                        let ghost pre = err.labels@;
                        err.labels.push(e.label);
                        visiting.set(it, false);
                        proof {
                            assert(visiting@ =~= old(visiting)@);
                            if edges_resolvable(*self, t, s1, fuel as nat, 0) {
                                lemma_edges_resolvable_at(*self, t, s1, fuel as nat, 0, i as int);
                            }
                            assert forall|j: int| 0 <= j < err.labels@.len() implies exists|k: int|
                                0 <= k < self.edge_seq().len() && #[trigger] err.labels@[j] == (
                            #[trigger] self.edge_seq()[k]).label by {
                                if j < pre.len() {
                                    assert(labels_from(*self, pre));
                                } else {
                                    assert(err.labels@[j] == (self.edge_seq()[i as int]).label);
                                }
                            }
                        }
                        return Err(err);
                    },
                }
            }
            i = i + 1;
        }
        visiting.set(it, false);
        proof {
            assert(visiting@ =~= old(visiting)@);
            lemma_edges_resolvable_all(*self, t, s1, fuel as nat, 0);
        }
        Ok(acc)
    }

    /// Reverse-mode sensitivity: starting from `seed` at `target_attr`,
    /// walk edges backward, scaling by each edge's coefficient and summing
    /// over converging paths; report the accumulated gradient of every
    /// attribute, indexed by its store index. Fails exactly when value
    /// resolution of `target_attr` would.
    pub fn propagate_gradient(&self, target_attr: AttributeName, seed: u64) -> (r: Result<
        Vec<u64>,
        GraphError,
    >)
        requires
            self.wf(),
        ensures
            (r is Ok) == can_resolve(*self, target_attr),
            r matches Ok(v) ==> v@.len() == ATTR_COUNT && forall|k: int|
                0 <= k < ATTR_COUNT ==> v@[k] == gradient_at(
                    *self,
                    attr_of(k),
                    target_attr,
                    seed,
                ),
            r matches Err(er) ==> labels_from(*self, er.labels@),
    {
        let mut visiting = new_visiting();
        proof {
            lemma_attr_idx_range();
            assert(visited_set(visiting@) =~= Set::<AttributeName>::empty());
        }
        let mut out: Vec<u64> = Vec::new();
        let mut k: usize = 0;
        while k < ATTR_COUNT
            invariant
                self.wf(),
                k <= ATTR_COUNT,
                out@.len() == k,
                visiting@.len() == ATTR_COUNT,
                visited_set(visiting@) == Set::<AttributeName>::empty(),
                k > 0 ==> can_resolve(*self, target_attr),
                forall|j: int|
                    0 <= j < k ==> out@[j] == gradient_at(*self, attr_of(j), target_attr, seed),
            decreases ATTR_COUNT - k,
        {
            let a = index_attr(k);
            match self.grad_of(a, target_attr, seed, &mut visiting, GRAPH_FUEL) {
                Ok(gv) => {
                    out.push(gv);
                },
                Err(e) => {
                    return Err(e);
                },
            }
            k = k + 1;
        }
        Ok(out)
    }
}

/// The summed contributions to `a` of the edges from index `i` on, each
/// source taken at its fully resolved value.
pub open spec fn resolved_edge_sum(g: AttributeGraph, a: AttributeName, i: int) -> u64
    decreases g.edge_seq().len() - i,
{
    if i < 0 || i >= g.edge_seq().len() {
        0
    } else {
        let rest = resolved_edge_sum(g, a, i + 1);
        let e = g.edge_seq()[i];
        if e.target == a {
            fx_add(fx_mul(e.coeff, resolved_value(g, e.source)), rest)
        } else {
            rest
        }
    }
}

/// Once resolution succeeds at some depth, deeper evaluation changes
/// nothing: the value has reached its fixpoint.
pub proof fn lemma_value_fuel_stable(
    g: AttributeGraph,
    a: AttributeName,
    stack: Set<AttributeName>,
    fuel: nat,
    fuel2: nat,
)
    requires
        resolvable(g, a, stack, fuel),
        fuel <= fuel2,
    ensures
        value_fuel(g, a, fuel2) == value_fuel(g, a, fuel),
    decreases fuel, g.edge_seq().len() + 2,
{
    lemma_edge_sum_stable(g, a, stack.insert(a), fuel, fuel2, 0);
}

/// The summed contributions of a resolvable suffix do not depend on the
/// remaining depth.
proof fn lemma_edge_sum_stable(
    g: AttributeGraph,
    a: AttributeName,
    stack: Set<AttributeName>,
    fuel: nat,
    fuel2: nat,
    i: int,
)
    requires
        edges_resolvable(g, a, stack, fuel, i),
        1 <= fuel <= fuel2,
        0 <= i,
    ensures
        edge_sum(g, a, fuel2, i) == edge_sum(g, a, fuel, i),
    decreases fuel, g.edge_seq().len() - i + 1,
{
    if i < g.edge_seq().len() {
        let e = g.edge_seq()[i];
        if e.target == a {
            lemma_value_fuel_stable(g, e.source, stack, (fuel - 1) as nat, (fuel2 - 1) as nat);
        }
        lemma_edge_sum_stable(g, a, stack, fuel, fuel2, i + 1);
    }
}

/// The fixpoint equations: whenever `a` resolves, its resolved value is
/// its store-level part plus each targeting edge's coefficient times the
/// fully resolved value of that edge's source — the defining equations of
/// the store, independent of any evaluation order.
pub proof fn lemma_resolved_value_fixpoint(g: AttributeGraph, a: AttributeName)
    requires
        can_resolve(g, a),
    ensures
        resolved_value(g, a) == fx_add(base_value(g, a), resolved_edge_sum(g, a, 0)),
{
    let fuel = GRAPH_FUEL as nat;
    let stack = Set::<AttributeName>::empty().insert(a);
    lemma_edge_sum_resolved(g, a, stack, fuel, 0);
}

/// Contribution sums at full depth coincide with contribution sums over
/// fully resolved sources.
proof fn lemma_edge_sum_resolved(
    g: AttributeGraph,
    a: AttributeName,
    stack: Set<AttributeName>,
    fuel: nat,
    i: int,
)
    requires
        edges_resolvable(g, a, stack, fuel, i),
        fuel == GRAPH_FUEL as nat,
        0 <= i,
    ensures
        edge_sum(g, a, fuel, i) == resolved_edge_sum(g, a, i),
    decreases g.edge_seq().len() - i,
{
    if i < g.edge_seq().len() {
        let e = g.edge_seq()[i];
        if e.target == a {
            lemma_value_fuel_stable(g, e.source, stack, (fuel - 1) as nat, fuel);
        }
        lemma_edge_sum_resolved(g, a, stack, fuel, i + 1);
    }
}

/// Cycle detection: a graph holding a pair of mutually dependent edges
/// (one from `A` to `B` and one from `B` back to `A`) can never resolve
/// `A`, at any depth: `get_value` reports the documented cycle failure
/// instead of looping or returning a silently wrong value.
pub proof fn lemma_mutual_edges_unresolvable(g: AttributeGraph, i: int, j: int, fuel: nat)
    requires
        0 <= i < g.edge_seq().len(),
        0 <= j < g.edge_seq().len(),
        g.edge_seq()[j].target == g.edge_seq()[i].source,
        g.edge_seq()[j].source == g.edge_seq()[i].target,
        g.edge_seq()[i].source != g.edge_seq()[i].target,
    ensures
        !resolvable(g, g.edge_seq()[i].source, Set::empty(), fuel),
{
    let a = g.edge_seq()[i].source;
    let b = g.edge_seq()[i].target;
    if resolvable(g, a, Set::empty(), fuel) {
        let s1 = Set::<AttributeName>::empty().insert(a);
        assert(edges_resolvable(g, a, s1, fuel, 0));
        lemma_edges_resolvable_at(g, a, s1, fuel, 0, j);
        assert(resolvable(g, b, s1, (fuel - 1) as nat));
        let s2 = s1.insert(b);
        assert(edges_resolvable(g, b, s2, (fuel - 1) as nat, 0));
        lemma_edges_resolvable_at(g, b, s2, (fuel - 1) as nat, 0, i);
        assert(resolvable(g, a, s2, (fuel - 2) as nat));
        assert(s2.contains(a));
        assert(false);
    }
}

/// Cycle detection at the depth `get_value` uses: with the mutual pair of
/// edges present, `get_value` of either endpoint fails.
pub proof fn lemma_mutual_edges_cycle_error(g: AttributeGraph, i: int, j: int)
    requires
        0 <= i < g.edge_seq().len(),
        0 <= j < g.edge_seq().len(),
        g.edge_seq()[j].target == g.edge_seq()[i].source,
        g.edge_seq()[j].source == g.edge_seq()[i].target,
        g.edge_seq()[i].source != g.edge_seq()[i].target,
    ensures
        !can_resolve(g, g.edge_seq()[i].source),
        !can_resolve(g, g.edge_seq()[i].target),
{
    lemma_mutual_edges_unresolvable(g, i, j, GRAPH_FUEL as nat);
    lemma_mutual_edges_unresolvable(g, j, i, GRAPH_FUEL as nat);
}

/// Edge additivity: on a graph whose two edges both feed `t` from
/// store-level sources (nothing feeds the sources themselves), the
/// resolved value of `t` is its store-level part plus the two edges'
/// contributions, summed.
pub proof fn lemma_edge_additivity(g: AttributeGraph, t: AttributeName, fuel: nat)
    requires
        g.edge_seq().len() == 2,
        g.edge_seq()[0].target == t,
        g.edge_seq()[1].target == t,
        g.edge_seq()[0].source != t,
        g.edge_seq()[1].source != t,
        fuel >= 2,
    ensures
        value_fuel(g, t, fuel) == fx_add(
            base_value(g, t),
            fx_add(
                fx_mul(g.edge_seq()[0].coeff, base_value(g, g.edge_seq()[0].source)),
                fx_mul(g.edge_seq()[1].coeff, base_value(g, g.edge_seq()[1].source)),
            ),
        ),
{
    let s0 = g.edge_seq()[0].source;
    let s1 = g.edge_seq()[1].source;
    let f1 = (fuel - 1) as nat;
    assert(edge_sum(g, s0, f1, 2) == 0);
    assert(edge_sum(g, s0, f1, 1) == edge_sum(g, s0, f1, 2));
    assert(edge_sum(g, s0, f1, 0) == edge_sum(g, s0, f1, 1));
    assert(edge_sum(g, s1, f1, 2) == 0);
    assert(edge_sum(g, s1, f1, 1) == edge_sum(g, s1, f1, 2));
    assert(edge_sum(g, s1, f1, 0) == edge_sum(g, s1, f1, 1));
    assert(value_fuel(g, s0, f1) == base_value(g, s0));
    assert(value_fuel(g, s1, f1) == base_value(g, s1));
    assert(edge_sum(g, t, fuel, 2) == 0);
    assert(edge_sum(g, t, fuel, 1) == fx_add(
        fx_mul(g.edge_seq()[1].coeff, base_value(g, s1)),
        0,
    ));
    assert(edge_sum(g, t, fuel, 0) == fx_add(
        fx_mul(g.edge_seq()[0].coeff, base_value(g, s0)),
        edge_sum(g, t, fuel, 1),
    ));
}

/// Two graphs with equal stores whose edge registrations differ only in
/// the order of the pair at positions `p` and `p + 1`.
pub open spec fn edge_swap_related(g1: AttributeGraph, g2: AttributeGraph, p: int) -> bool {
    &&& 0 <= p
    &&& p + 1 < g1.edge_seq().len()
    &&& g2.edge_seq().len() == g1.edge_seq().len()
    &&& g2.edge_seq()[p] == g1.edge_seq()[p + 1]
    &&& g2.edge_seq()[p + 1] == g1.edge_seq()[p]
    &&& forall|j: int|
        0 <= j < g1.edge_seq().len() && j != p && j != p + 1 ==> g2.edge_seq()[j]
            == g1.edge_seq()[j]
    &&& forall|b: AttributeName| #[trigger] g2.base_at(b) == g1.base_at(b)
    &&& forall|b: AttributeName| #[trigger] g2.flat_at(b) == g1.flat_at(b)
    &&& forall|b: AttributeName| #[trigger] g2.pct_at(b) == g1.pct_at(b)
}

/// Registration order does not matter: swapping two adjacently registered
/// edges changes no attribute's resolved value, at any depth, on any
/// graph. Repeated swaps reach every reordering.
pub proof fn lemma_swap_preserves_value(
    g1: AttributeGraph,
    g2: AttributeGraph,
    p: int,
    a: AttributeName,
    fuel: nat,
)
    requires
        edge_swap_related(g1, g2, p),
    ensures
        value_fuel(g1, a, fuel) == value_fuel(g2, a, fuel),
    decreases fuel, g1.edge_seq().len() + 2,
{
    if fuel > 0 {
        lemma_swap_edge_sum(g1, g2, p, a, fuel, 0);
        assert(base_value(g1, a) == base_value(g2, a));
    }
}

/// The summed edge contributions from any index outside the swapped pair
/// agree across the swap.
proof fn lemma_swap_edge_sum(
    g1: AttributeGraph,
    g2: AttributeGraph,
    p: int,
    a: AttributeName,
    fuel: nat,
    i: int,
)
    requires
        edge_swap_related(g1, g2, p),
        fuel >= 1,
        0 <= i <= g1.edge_seq().len(),
        i <= p || i >= p + 2,
    ensures
        edge_sum(g1, a, fuel, i) == edge_sum(g2, a, fuel, i),
    decreases fuel, g1.edge_seq().len() - i + 1,
{
    let n = g1.edge_seq().len() as int;
    let f1 = (fuel - 1) as nat;
    if i == n {
        return ;
    }
    if i == p {
        let ex = g1.edge_seq()[p];
        let ey = g1.edge_seq()[p + 1];
        lemma_swap_preserves_value(g1, g2, p, ex.source, f1);
        lemma_swap_preserves_value(g1, g2, p, ey.source, f1);
        lemma_swap_edge_sum(g1, g2, p, a, fuel, p + 2);
        let r = edge_sum(g1, a, fuel, p + 2);
        let cx = fx_mul(ex.coeff, value_fuel(g1, ex.source, f1));
        let cy = fx_mul(ey.coeff, value_fuel(g1, ey.source, f1));
        assert(edge_sum(g1, a, fuel, p + 1) == (if ey.target == a {
            fx_add(cy, r)
        } else {
            r
        }));
        assert(edge_sum(g1, a, fuel, p) == (if ex.target == a {
            fx_add(cx, edge_sum(g1, a, fuel, p + 1))
        } else {
            edge_sum(g1, a, fuel, p + 1)
        }));
        assert(edge_sum(g2, a, fuel, p + 1) == (if ex.target == a {
            fx_add(cx, r)
        } else {
            r
        }));
        assert(edge_sum(g2, a, fuel, p) == (if ey.target == a {
            fx_add(cy, edge_sum(g2, a, fuel, p + 1))
        } else {
            edge_sum(g2, a, fuel, p + 1)
        }));
        if ex.target == a && ey.target == a {
            lemma_fx_add_assoc(cx, cy, r);
            lemma_fx_add_assoc(cy, cx, r);
            assert(fx_add(cx, cy) == fx_add(cy, cx));
        }
    } else {
        let e = g1.edge_seq()[i];
        assert(g2.edge_seq()[i] == e);
        lemma_swap_preserves_value(g1, g2, p, e.source, f1);
        lemma_swap_edge_sum(g1, g2, p, a, fuel, i + 1);
    }
}

/// Registration order does not matter, at the depth `get_value` uses.
pub proof fn lemma_edge_order_irrelevant(
    g1: AttributeGraph,
    g2: AttributeGraph,
    p: int,
    a: AttributeName,
)
    requires
        edge_swap_related(g1, g2, p),
    ensures
        resolved_value(g1, a) == resolved_value(g2, a),
{
    lemma_swap_preserves_value(g1, g2, p, a, GRAPH_FUEL as nat);
}

/// Gradient correctness for a single linear edge: propagating a unit seed
/// from the edge's target yields, at its source, exactly the edge's
/// coefficient, which is the analytic partial derivative of the edge's
/// forward function `x -> coeff * x`.
pub proof fn lemma_gradient_single_edge(g: AttributeGraph, fuel: nat)
    requires
        g.edge_seq().len() == 1,
        g.edge_seq()[0].source != g.edge_seq()[0].target,
        fuel >= 2,
    ensures
        grad_from(g, g.edge_seq()[0].source, g.edge_seq()[0].target, SCALE, fuel) == g.edge_seq()[0].coeff,
{
    let e = g.edge_seq()[0];
    crate::fixed::lemma_fx_mul_scale(e.coeff);
    assert(grad_edges(g, e.source, e.source, e.coeff, (fuel - 1) as nat, 1) == 0);
    assert(grad_edges(g, e.source, e.source, e.coeff, (fuel - 1) as nat, 0) == grad_edges(
        g,
        e.source,
        e.source,
        e.coeff,
        (fuel - 1) as nat,
        1,
    ));
    assert(grad_from(g, e.source, e.source, e.coeff, (fuel - 1) as nat) == 0);
    assert(grad_edges(g, e.source, e.target, SCALE, fuel, 1) == 0);
}

/// The gradient chain rule: along a two-edge dependency chain the seed is
/// scaled by the product of the edges' coefficients, the analytic
/// derivative of the composed linear maps.
pub proof fn lemma_gradient_chain_rule(g: AttributeGraph, seed: u64, fuel: nat)
    requires
        g.edge_seq().len() == 2,
        g.edge_seq()[0].target == g.edge_seq()[1].source,
        g.edge_seq()[0].source != g.edge_seq()[0].target,
        g.edge_seq()[1].source != g.edge_seq()[1].target,
        g.edge_seq()[1].target != g.edge_seq()[0].source,
        fuel >= 3,
    ensures
        grad_from(g, g.edge_seq()[0].source, g.edge_seq()[1].target, seed, fuel) == fx_mul(
            g.edge_seq()[0].coeff,
            fx_mul(g.edge_seq()[1].coeff, seed),
        ),
{
    let s = g.edge_seq()[0].source;
    let m = g.edge_seq()[0].target;
    let t = g.edge_seq()[1].target;
    let c = fx_mul(g.edge_seq()[1].coeff, seed);
    let cp = fx_mul(g.edge_seq()[0].coeff, c);
    let f1 = (fuel - 1) as nat;
    let f2 = (fuel - 2) as nat;
    assert(grad_edges(g, s, s, cp, f2, 2) == 0);
    assert(grad_edges(g, s, s, cp, f2, 1) == grad_edges(g, s, s, cp, f2, 2));
    assert(grad_edges(g, s, s, cp, f2, 0) == grad_edges(g, s, s, cp, f2, 1));
    assert(grad_from(g, s, s, cp, f2) == 0);
    assert(grad_edges(g, s, m, c, f1, 2) == 0);
    assert(grad_edges(g, s, m, c, f1, 1) == grad_edges(g, s, m, c, f1, 2));
    assert(grad_edges(g, s, m, c, f1, 0) == fx_add(
        fx_add(cp, grad_from(g, s, s, cp, f2)),
        grad_edges(g, s, m, c, f1, 1),
    ));
    assert(grad_from(g, s, m, c, f1) == cp);
    assert(grad_edges(g, s, t, seed, fuel, 2) == 0);
    assert(grad_edges(g, s, t, seed, fuel, 1) == fx_add(
        fx_add(0, grad_from(g, s, m, c, f1)),
        grad_edges(g, s, t, seed, fuel, 2),
    ));
    assert(grad_edges(g, s, t, seed, fuel, 0) == grad_edges(g, s, t, seed, fuel, 1));
}

/// The gradient sum rule: two edges from the same source into the same
/// target accumulate additively, each contributing its coefficient times
/// the seed.
pub proof fn lemma_gradient_sum_rule(g: AttributeGraph, seed: u64, fuel: nat)
    requires
        g.edge_seq().len() == 2,
        g.edge_seq()[0].source == g.edge_seq()[1].source,
        g.edge_seq()[0].target == g.edge_seq()[1].target,
        g.edge_seq()[0].source != g.edge_seq()[0].target,
        fuel >= 2,
    ensures
        grad_from(g, g.edge_seq()[0].source, g.edge_seq()[0].target, seed, fuel) == fx_add(
            fx_mul(g.edge_seq()[0].coeff, seed),
            fx_mul(g.edge_seq()[1].coeff, seed),
        ),
{
    let s = g.edge_seq()[0].source;
    let t = g.edge_seq()[0].target;
    let c0 = fx_mul(g.edge_seq()[0].coeff, seed);
    let c1 = fx_mul(g.edge_seq()[1].coeff, seed);
    let f1 = (fuel - 1) as nat;
    assert(grad_edges(g, s, s, c0, f1, 2) == 0);
    assert(grad_edges(g, s, s, c0, f1, 1) == grad_edges(g, s, s, c0, f1, 2));
    assert(grad_edges(g, s, s, c0, f1, 0) == grad_edges(g, s, s, c0, f1, 1));
    assert(grad_edges(g, s, s, c1, f1, 2) == 0);
    assert(grad_edges(g, s, s, c1, f1, 1) == grad_edges(g, s, s, c1, f1, 2));
    assert(grad_edges(g, s, s, c1, f1, 0) == grad_edges(g, s, s, c1, f1, 1));
    assert(grad_from(g, s, s, c0, f1) == 0);
    assert(grad_from(g, s, s, c1, f1) == 0);
    assert(grad_edges(g, s, t, seed, fuel, 2) == 0);
    assert(grad_edges(g, s, t, seed, fuel, 1) == fx_add(fx_add(c1, 0), 0));
    assert(grad_edges(g, s, t, seed, fuel, 0) == fx_add(
        fx_add(c0, 0),
        grad_edges(g, s, t, seed, fuel, 1),
    ));
}

} // verus!
