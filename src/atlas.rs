//! The Atlas: a graph over a fixed vertex set, seen through four read-only
//! queries (vertex count, degree, mirror pairing, unity positions).
use vstd::prelude::*;

verus! {

/// Number of vertices of the canonical Atlas.
pub const ATLAS_VERTICES: usize = 96;

/// The mirror involution flips the last label bit, which moves an index by half
/// the vertex set.
pub const MIRROR_OFFSET: usize = 48;

/// What the Atlas queries answer, as mathematical sequences indexed by vertex.
pub ghost struct AtlasView {
    pub degrees: Seq<usize>,
    pub mirror: Seq<usize>,
    pub unity: Seq<usize>,
}

impl AtlasView {
    pub open spec fn vertex_count(self) -> nat {
        self.degrees.len()
    }

    /// One degree and one mirror partner per vertex, every partner a vertex.
    pub open spec fn wf(self) -> bool {
        &&& self.mirror.len() == self.degrees.len()
        &&& forall|v: int| 0 <= v < self.mirror.len() ==> #[trigger] self.mirror[v] < self.mirror.len()
    }

    /// `mirror_pair(mirror_pair(v)) == v` and `mirror_pair(v) != v` for every vertex.
    pub open spec fn mirror_is_fixed_point_free_involution(self) -> bool {
        is_fixed_point_free_involution(self.mirror)
    }
}

/// `m[m[v]] == v` and `m[v] != v` for every index `v` of `m`.
pub open spec fn is_fixed_point_free_involution(m: Seq<usize>) -> bool {
    forall|v: int|
        0 <= v < m.len() ==> {
            &&& #[trigger] m[v] != v
            &&& m[m[v] as int] == v
        }
}

/// Degree of vertex `v` in the canonical Atlas. A vertex is labelled by bits
/// `e1, e2, e3, e6`, a ternary digit `d45` in {-1, 0, 1} and the mirror bit `e7`;
/// its index is `e7 * 48 + (((e1 * 2 + e2) * 2 + e3) * 2 + e6) * 3 + (d45 + 1)`.
/// Flipping one of `e1, e2, e3, e6` gives four neighbours, and `d45 = 0` is
/// adjacent to both `d45 = -1` and `d45 = 1`, each of which is adjacent to
/// `d45 = 0` only.
pub open spec fn canonical_degree(v: int) -> usize {
    if v % 3 == 1 {
        6
    } else {
        5
    }
}

/// Mirror partner of vertex `v` in the canonical Atlas: the last label bit flipped.
pub open spec fn canonical_mirror(v: int) -> usize {
    if v < MIRROR_OFFSET {
        (v + MIRROR_OFFSET) as usize
    } else {
        (v - MIRROR_OFFSET) as usize
    }
}

/// The canonical Atlas: 96 vertices; unity positions are the two labels whose
/// bits are all zero but the mirror bit, with `d45 = 0`.
pub open spec fn canonical_view() -> AtlasView {
    AtlasView {
        degrees: Seq::new(ATLAS_VERTICES as nat, |v: int| canonical_degree(v)),
        mirror: Seq::new(ATLAS_VERTICES as nat, |v: int| canonical_mirror(v)),
        unity: seq![1usize, 49usize],
    }
}

/// An immutable Atlas. Each vertex has a degree and a mirror partner; a few
/// vertices are distinguished as unity positions.
#[derive(Debug, Clone)]
pub struct Atlas {
    degrees: Vec<usize>,
    mirror: Vec<usize>,
    unity: Vec<usize>,
}

impl View for Atlas {
    type V = AtlasView;

    closed spec fn view(&self) -> AtlasView {
        AtlasView { degrees: self.degrees@, mirror: self.mirror@, unity: self.unity@ }
    }
}

impl Atlas {
    pub open spec fn wf(&self) -> bool {
        self@.wf()
    }

    /// Builds the canonical 96-vertex Atlas.
    pub fn new() -> (a: Atlas)
        ensures
            a.wf(),
            a@ == canonical_view(),
    {
        let mut degrees: Vec<usize> = Vec::new();
        let mut mirror: Vec<usize> = Vec::new();
        let mut v: usize = 0;
        while v < ATLAS_VERTICES
            invariant
                v <= ATLAS_VERTICES,
                degrees@.len() == v,
                mirror@.len() == v,
                forall|j: int| 0 <= j < v ==> #[trigger] degrees@[j] == canonical_degree(j),
                forall|j: int| 0 <= j < v ==> #[trigger] mirror@[j] == canonical_mirror(j),
            decreases ATLAS_VERTICES - v,
        {
            let d: usize = if v % 3 == 1 {
                6
            } else {
                5
            };
            let m: usize = if v < MIRROR_OFFSET {
                v + MIRROR_OFFSET
            } else {
                v - MIRROR_OFFSET
            };
            degrees.push(d);
            mirror.push(m);
            v = v + 1;
        }
        let unity: Vec<usize> = vec![1, 49];
        let a = Atlas { degrees, mirror, unity };
        assert(a@.degrees =~= canonical_view().degrees);
        assert(a@.mirror =~= canonical_view().mirror);
        assert(a@.unity =~= canonical_view().unity);
        a
    }

    /// Builds an Atlas from per-vertex degrees, per-vertex mirror partners and
    /// unity positions. Returns `None` unless there is one mirror partner per
    /// vertex and every partner is a vertex.
    pub fn from_parts(degrees: Vec<usize>, mirror: Vec<usize>, unity: Vec<usize>) -> (r: Option<
        Atlas,
    >)
        ensures
            r is Some <==> (AtlasView { degrees: degrees@, mirror: mirror@, unity: unity@ }).wf(),
            r matches Some(a) ==> a@ == (AtlasView {
                degrees: degrees@,
                mirror: mirror@,
                unity: unity@,
            }),
    {
        if mirror.len() != degrees.len() {
            return None;
        }
        let n = mirror.len();
        let mut v: usize = 0;
        while v < n
            invariant
                n == mirror@.len(),
                v <= n,
                forall|j: int| 0 <= j < v ==> #[trigger] mirror@[j] < n,
            decreases n - v,
        {
            if mirror[v] >= n {
                return None;
            }
            v = v + 1;
        }
        Some(Atlas { degrees, mirror, unity })
    }

    /// Number of vertices.
    pub fn num_vertices(&self) -> (n: usize)
        requires
            self.wf(),
        ensures
            n == self@.vertex_count(),
    {
        self.degrees.len()
    }

    /// Degree of vertex `v`.
    pub fn degree(&self, v: usize) -> (d: usize)
        requires
            self.wf(),
            v < self@.vertex_count(),
        ensures
            d == self@.degrees[v as int],
    {
        self.degrees[v]
    }

    /// Mirror partner of vertex `v`, itself a vertex.
    pub fn mirror_pair(&self, v: usize) -> (m: usize)
        requires
            self.wf(),
            v < self@.vertex_count(),
        ensures
            m == self@.mirror[v as int],
            m < self@.vertex_count(),
    {
        self.mirror[v]
    }

    /// The distinguished unity positions, in order.
    pub fn unity_positions(&self) -> (u: &[usize])
        ensures
            u@ == self@.unity,
    {
        self.unity.as_slice()
    }
}

} // verus!
