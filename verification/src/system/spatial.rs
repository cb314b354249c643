//! Filtering the entities that a spatial query finds by their layer (team).
//!
//! The tree that finds the entries within a radius works on positions in
//! floating point and is the caller's; each entry it finds arrives here as
//! its entity and its layer.

use vstd::prelude::*;

verus! {

/// Which layers a spatial query keeps.
#[derive(Debug, Copy, Clone, PartialEq, Eq, Structural)]
pub enum LayerSpec {
    /// Only the entries on this layer.
    Include(u16),
    /// Every entry except those on this layer.
    Exclude(u16),
    /// Every entry, whatever its layer.
    AnyLayer,
}

/// Whether `spec` keeps an entry on `layer`.
pub open spec fn spec_layer_matches(spec: LayerSpec, layer: u16) -> bool {
    match spec {
        LayerSpec::Include(l) => layer == l,
        LayerSpec::Exclude(l) => layer != l,
        LayerSpec::AnyLayer => true,
    }
}

/// The entities of the found entries that `spec` keeps, in the order found.
pub open spec fn spec_query_layer(found: Seq<(u64, u16)>, spec: LayerSpec) -> Seq<u64>
    decreases found.len(),
{
    if found.len() == 0 {
        Seq::empty()
    } else {
        let rest = spec_query_layer(found.drop_last(), spec);
        if spec_layer_matches(spec, found.last().1) {
            rest.push(found.last().0)
        } else {
            rest
        }
    }
}

impl LayerSpec {
    /// Whether this spec keeps an entry on `layer`.
    pub fn matches(&self, layer: u16) -> (r: bool)
        ensures
            r == spec_layer_matches(*self, layer),
    {
        match self {
            LayerSpec::Include(l) => layer == *l,
            LayerSpec::Exclude(l) => layer != *l,
            LayerSpec::AnyLayer => true,
        }
    }
}

/// Whether any of the found entries, given by their layers, is kept by
/// `spec`: whether the tree holds an entry of the right layers within the
/// radius.
pub fn contains_layer(found: &Vec<u16>, spec: LayerSpec) -> (r: bool)
    ensures
        r == exists|i: int| 0 <= i < found@.len() && spec_layer_matches(spec, #[trigger] found@[i]),
{
    let n = found.len();
    let mut i: usize = 0;
    while i < n
        invariant
            n == found@.len(),
            i <= n,
            forall|j: int| 0 <= j < i ==> !spec_layer_matches(spec, #[trigger] found@[j]),
        decreases n - i,
    {
        if spec.matches(found[i]) {
            return true;
        }
        i = i + 1;
    }
    false
}

/// The entities of the found entries, each given with its layer, that `spec`
/// keeps, in the order in which they were found.
pub fn query_layer(found: &Vec<(u64, u16)>, spec: LayerSpec) -> (r: Vec<u64>)
    ensures
        r@ == spec_query_layer(found@, spec),
{
    let mut out: Vec<u64> = Vec::new();
    let n = found.len();
    let mut i: usize = 0;
    while i < n
        invariant
            n == found@.len(),
            i <= n,
            out@ == spec_query_layer(found@.take(i as int), spec),
        decreases n - i,
    {
        assert(found@.take(i + 1).drop_last() =~= found@.take(i as int));
        let (entity, layer) = found[i];
        if spec.matches(layer) {
            out.push(entity);
        }
        i = i + 1;
    }
    assert(found@.take(n as int) =~= found@);
    out
}

/// What a query keeps is what the spec admits: every kept entity comes from
/// an entry on a kept layer, and an entity found on a kept layer is kept.
pub proof fn lemma_query_layer_members(found: Seq<(u64, u16)>, spec: LayerSpec, e: u64)
    ensures
        spec_query_layer(found, spec).contains(e) <==> exists|i: int|
            0 <= i < found.len() && #[trigger] found[i].0 == e && spec_layer_matches(
                spec,
                found[i].1,
            ),
    decreases found.len(),
{
    if found.len() > 0 {
        let init = found.drop_last();
        lemma_query_layer_members(init, spec, e);
        let rest = spec_query_layer(init, spec);
        if spec_query_layer(found, spec).contains(e) {
            if rest.contains(e) {
                let i = choose|i: int|
                    0 <= i < init.len() && #[trigger] init[i].0 == e && spec_layer_matches(
                        spec,
                        init[i].1,
                    );
                assert(found[i] == init[i]);
            } else {
                let k = spec_query_layer(found, spec).len() - 1;
                assert(spec_query_layer(found, spec)[k] == e);
                assert(found[found.len() - 1].0 == e);
            }
        }
        if exists|i: int|
            0 <= i < found.len() && #[trigger] found[i].0 == e && spec_layer_matches(
                spec,
                found[i].1,
            ) {
            let i = choose|i: int|
                0 <= i < found.len() && #[trigger] found[i].0 == e && spec_layer_matches(
                    spec,
                    found[i].1,
                );
            if i < found.len() - 1 {
                assert(init[i] == found[i]);
                assert(rest.contains(e));
                assert(spec_query_layer(found, spec).contains(e)) by {
                    if spec_layer_matches(spec, found.last().1) {
                        let w = choose|w: int| 0 <= w < rest.len() && rest[w] == e;
                        assert(rest.push(found.last().0)[w] == e);
                    }
                }
            } else {
                assert(spec_query_layer(found, spec) == rest.push(e));
                assert(rest.push(e)[rest.len() as int] == e);
            }
        }
    }
}

} // verus!
