//! What the five operations compute, stated over all Atlases, and their
//! outcome on the canonical Atlas.
use vstd::prelude::*;
use vstd::set_lib::{lemma_int_range, set_int_range};
use crate::atlas::{
    canonical_view, is_fixed_point_free_involution, AtlasView, ATLAS_VERTICES,
};
use crate::categorical::{degree_count, sign_class_walk, CategoricalOperation};

verus! {

/// From vertex `i` on, with the vertices before `i` already marked, the walk
/// ends with every vertex marked, and each class marks at most two vertices.
/// When the pairing is a fixed-point-free involution and the marked set is
/// closed under it, each class marks exactly two.
proof fn lemma_sign_class_walk(m: Seq<usize>, i: int, seen: Set<int>)
    requires
        0 <= i <= m.len(),
        forall|v: int| 0 <= v < m.len() ==> #[trigger] m[v] < m.len(),
        seen.finite(),
        forall|x: int| #[trigger] seen.contains(x) ==> 0 <= x < m.len(),
        forall|x: int| 0 <= x < i ==> #[trigger] seen.contains(x),
    ensures
        2 * sign_class_walk(m, i, seen) + seen.len() >= m.len(),
        is_fixed_point_free_involution(m) && (forall|x: int| #[trigger]
            seen.contains(x) ==> seen.contains(m[x] as int)) ==> 2 * sign_class_walk(m, i, seen)
            + seen.len() == m.len(),
    decreases m.len() - i,
{
    let n = m.len() as int;
    if i == n {
        assert(seen =~= set_int_range(0, n));
        lemma_int_range(0, n);
    } else if seen.contains(i) {
        lemma_sign_class_walk(m, i + 1, seen);
    } else {
        let j = m[i] as int;
        let next = seen.insert(i).insert(j);
        lemma_sign_class_walk(m, i + 1, next);
        if is_fixed_point_free_involution(m) && (forall|x: int| #[trigger]
            seen.contains(x) ==> seen.contains(m[x] as int)) {
            assert(m[j] == i);
            assert(j != i);
            assert(!seen.contains(j));
            assert forall|x: int| #[trigger] next.contains(x) implies next.contains(m[x] as int) by {
                if x == j {
                    assert(m[x] == i);
                }
            }
        }
    }
}

/// Quotient: when the mirror pairing is a fixed-point-free involution, there is
/// one sign class per mirror pair, half the vertices; on 96 vertices, 48, and
/// the operation verifies.
pub proof fn lemma_quotient_halves_involution(a: AtlasView)
    requires
        a.wf(),
        a.mirror_is_fixed_point_free_involution(),
    ensures
        a.vertex_count() % 2 == 0,
        CategoricalOperation::Quotient.spec_actual_count(a) == a.vertex_count() / 2,
        a.vertex_count() == 96 ==> CategoricalOperation::Quotient.spec_actual_count(a) == 48
            && CategoricalOperation::Quotient.spec_verified(a),
{
    lemma_sign_class_walk(a.mirror, 0, Set::empty());
}

/// Quotient: whatever the mirror pairing, there are at least half as many sign
/// classes as vertices.
pub proof fn lemma_quotient_covers_vertices(a: AtlasView)
    requires
        a.wf(),
    ensures
        2 * CategoricalOperation::Quotient.spec_actual_count(a) >= a.vertex_count(),
{
    lemma_sign_class_walk(a.mirror, 0, Set::empty());
}

/// Quotient: on an odd number of vertices no pairing is total, the sign class
/// count differs from half the vertex count, and over 96 vertices the operation
/// does not verify.
pub proof fn lemma_quotient_odd_vertex_count(a: AtlasView)
    requires
        a.wf(),
        a.vertex_count() % 2 == 1,
    ensures
        CategoricalOperation::Quotient.spec_actual_count(a) != a.vertex_count() / 2,
        a.vertex_count() > 96 ==> !CategoricalOperation::Quotient.spec_verified(a),
{
    lemma_quotient_covers_vertices(a);
}

/// Filtration: the count is capped at 72 and reaches it exactly when there are
/// at least 64 degree-5 and at least 8 degree-6 vertices, which is also exactly
/// when the operation verifies.
pub proof fn lemma_filtration_capped(a: AtlasView)
    ensures
        CategoricalOperation::Filtration.spec_actual_count(a) <= 72,
        CategoricalOperation::Filtration.spec_actual_count(a) == 72 <==> (degree_count(
            a.degrees,
            5,
        ) >= 64 && degree_count(a.degrees, 6) >= 8),
        CategoricalOperation::Filtration.spec_verified(a) <==> CategoricalOperation::Filtration.spec_actual_count(a) == 72,
{
}

/// Augmentation: the count is the vertex count plus 30, for every Atlas, and the
/// operation verifies exactly on 96 vertices.
pub proof fn lemma_augmentation_adds_orbits(a: AtlasView)
    ensures
        CategoricalOperation::Augmentation.spec_actual_count(a) == a.vertex_count() + 30,
        CategoricalOperation::Augmentation.spec_verified(a) <==> a.vertex_count() == 96,
{
}

/// Morphism: the count is always 240, and the operation verifies exactly on 96
/// vertices.
pub proof fn lemma_morphism_targets_e8(a: AtlasView)
    ensures
        CategoricalOperation::Morphism.spec_actual_count(a) == 240,
        CategoricalOperation::Morphism.spec_verified(a) <==> a.vertex_count() == 96,
{
}

proof fn lemma_canonical_prefix_degree_counts(k: int)
    requires
        0 <= k <= ATLAS_VERTICES,
    ensures
        degree_count(canonical_view().degrees.subrange(0, k), 6) == (k + 1) / 3,
        degree_count(canonical_view().degrees.subrange(0, k), 5) == k - (k + 1) / 3,
    decreases k,
{
    let d = canonical_view().degrees;
    if k > 0 {
        lemma_canonical_prefix_degree_counts(k - 1);
        assert(d.subrange(0, k).drop_last() =~= d.subrange(0, k - 1));
    }
}

/// The canonical Atlas has 64 vertices of degree 5 and 32 of degree 6, and its
/// mirror pairing is a fixed-point-free involution.
pub proof fn lemma_canonical_atlas_shape()
    ensures
        canonical_view().wf(),
        canonical_view().vertex_count() == 96,
        canonical_view().mirror_is_fixed_point_free_involution(),
        canonical_view().unity.len() == 2,
        degree_count(canonical_view().degrees, 5) == 64,
        degree_count(canonical_view().degrees, 6) == 32,
{
    let d = canonical_view().degrees;
    lemma_canonical_prefix_degree_counts(96);
    assert(d.subrange(0, 96) =~= d);
}

/// On the canonical Atlas every operation verifies and derives exactly the root
/// count of its target group.
pub proof fn lemma_canonical_atlas_reproduces_roots(op: CategoricalOperation)
    ensures
        op.spec_verified(canonical_view()),
        op.spec_actual_count(canonical_view()) == op.spec_expected_roots(),
{
    lemma_canonical_atlas_shape();
    lemma_quotient_halves_involution(canonical_view());
}

} // verus!
