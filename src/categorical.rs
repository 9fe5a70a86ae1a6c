//! The five categorical operations that extract an exceptional Lie group from
//! the Atlas, and the record that each verification produces.
//!
//! | Group | Operation    | Construction                    |
//! |-------|--------------|---------------------------------|
//! | G2    | Product      | Klein quartet x Z/3 -> 12 roots |
//! | F4    | Quotient     | 96 / mirror -> 48 sign classes  |
//! | E6    | Filtration   | degree partition -> 72 roots    |
//! | E7    | Augmentation | 96 + 30 orbits -> 126 roots     |
//! | E8    | Morphism     | direct embedding -> 240 roots   |
//!
//! The root counts are the theorem being checked: they are constants of the
//! taxonomy and never derived from the Atlas.
use vstd::prelude::*;
use vstd::string::StringExecFns;
use crate::atlas::{Atlas, AtlasView};
use crate::decimal::{bool_text, decimal, push_bool, push_decimal};

verus! {

/// Size of the Klein four-group, taken from the unity structure.
pub const KLEIN_QUARTET_SIZE: usize = 4;

/// Order of the cyclic factor Z/3 of the product.
pub const CYCLIC_FACTOR: usize = 3;

/// Number of S4 orbit representatives added on top of the Atlas vertices. It
/// comes from a related structure and is not derived from the Atlas here.
pub const S4_ORBITS: usize = 30;

/// Size of the E8 root system, the target of the direct embedding.
pub const E8_ROOT_COUNT: usize = 240;

/// Degree-5 vertices that the E6 filtration takes.
pub const DEGREE5_QUOTA: usize = 64;

/// Degree-6 vertices that the E6 filtration takes.
pub const DEGREE6_QUOTA: usize = 8;

/// Outcome of applying a categorical operation to an Atlas.
#[derive(Debug, Clone, PartialEq, Eq)]
pub struct OperationResult {
    /// Name of the group produced.
    pub group_name: String,
    /// Description of the categorical operation.
    pub operation_type: String,
    /// Root count of the target group.
    pub expected_roots: usize,
    /// Count that this operation derived from the Atlas.
    pub actual_count: usize,
    /// Whether every numeric precondition of the operation held.
    pub verified: bool,
    /// The counts that fed the decision, as text.
    pub details: String,
}

/// The categorical operations.
#[derive(Debug, Clone, Copy, PartialEq, Eq, Structural)]
pub enum CategoricalOperation {
    /// Product: Klein quartet x Z/3 -> G2
    Product,
    /// Quotient: 96 / mirror -> F4
    Quotient,
    /// Filtration: degree partition -> E6
    Filtration,
    /// Augmentation: 96 + 30 -> E7
    Augmentation,
    /// Morphism: direct embedding -> E8
    Morphism,
}

/// Number of sign classes that the walk over vertices `i..` adds, given the
/// vertices already marked in `seen`: an unmarked vertex opens a class and
/// marks itself and its mirror partner.
pub open spec fn sign_class_walk(m: Seq<usize>, i: int, seen: Set<int>) -> nat
    decreases m.len() - i,
{
    if i < 0 || i >= m.len() {
        0
    } else if seen.contains(i) {
        sign_class_walk(m, i + 1, seen)
    } else {
        1 + sign_class_walk(m, i + 1, seen.insert(i).insert(m[i] as int))
    }
}

/// Number of sign classes that the mirror pairing `m` produces, walking the
/// vertices in increasing order.
pub open spec fn sign_class_count(m: Seq<usize>) -> nat {
    sign_class_walk(m, 0, Set::empty())
}

/// Number of vertices whose degree is exactly `k`.
pub open spec fn degree_count(d: Seq<usize>, k: usize) -> nat
    decreases d.len(),
{
    if d.len() == 0 {
        0
    } else {
        degree_count(d.drop_last(), k) + if d.last() == k {
            1nat
        } else {
            0nat
        }
    }
}

pub open spec fn min_nat(x: nat, y: nat) -> nat {
    if x <= y {
        x
    } else {
        y
    }
}

/// Degree-5 vertices that the filtration uses.
pub open spec fn filtration_used5(a: AtlasView) -> nat {
    min_nat(DEGREE5_QUOTA as nat, degree_count(a.degrees, 5))
}

/// Degree-6 vertices that the filtration uses.
pub open spec fn filtration_used6(a: AtlasView) -> nat {
    min_nat(DEGREE6_QUOTA as nat, degree_count(a.degrees, 6))
}

/// Coverage of the E8 root system by the embedded vertices, in whole percent.
pub open spec fn coverage_percent(embedded: nat) -> nat {
    embedded * 100 / E8_ROOT_COUNT as nat
}

pub open spec fn product_details(unity_len: nat, divisible: bool) -> Seq<char> {
    "Klein quartet (4) × ℤ/3 (3) = 12. Unity positions: "@ + decimal(unity_len)
        + ", 12-fold divisible: "@ + bool_text(divisible)
}

pub open spec fn quotient_details(classes: nat) -> Seq<char> {
    "96 vertices / mirror pairs = "@ + decimal(classes)
        + " sign classes. Degree pattern: 32×5 + 16×6"@
}

pub open spec fn filtration_details(used5: nat, used6: nat, deg5: nat, deg6: nat) -> Seq<char> {
    "Degree partition: "@ + decimal(used5) + " degree-5 + "@ + decimal(used6) + " degree-6 = "@
        + decimal(used5 + used6) + ". Total: "@ + decimal(deg5) + "/"@ + decimal(deg6)
}

pub open spec fn augmentation_details(n: nat) -> Seq<char> {
    "Augmentation: "@ + decimal(n) + " Atlas vertices + "@ + decimal(S4_ORBITS as nat)
        + " S₄ orbits = "@ + decimal(n + S4_ORBITS as nat)
}

pub open spec fn morphism_details(n: nat) -> Seq<char> {
    "Direct embedding: "@ + decimal(n) + " Atlas vertices → "@ + decimal(n) + " of "@ + decimal(
        E8_ROOT_COUNT as nat,
    ) + " E₈ roots ("@ + decimal(coverage_percent(n)) + "% coverage)"@
}

impl CategoricalOperation {
    /// Display name of the operation.
    pub open spec fn spec_name(self) -> Seq<char> {
        match self {
            CategoricalOperation::Product => "Product"@,
            CategoricalOperation::Quotient => "Quotient"@,
            CategoricalOperation::Filtration => "Filtration"@,
            CategoricalOperation::Augmentation => "Augmentation"@,
            CategoricalOperation::Morphism => "Morphism"@,
        }
    }

    /// Label of the target group.
    pub open spec fn spec_target_group(self) -> Seq<char> {
        match self {
            CategoricalOperation::Product => "G₂"@,
            CategoricalOperation::Quotient => "F₄"@,
            CategoricalOperation::Filtration => "E₆"@,
            CategoricalOperation::Augmentation => "E₇"@,
            CategoricalOperation::Morphism => "E₈"@,
        }
    }

    /// Root count of the target group: fixed, never read from an Atlas.
    pub open spec fn spec_expected_roots(self) -> nat {
        match self {
            CategoricalOperation::Product => 12,
            CategoricalOperation::Quotient => 48,
            CategoricalOperation::Filtration => 72,
            CategoricalOperation::Augmentation => 126,
            CategoricalOperation::Morphism => 240,
        }
    }

    /// Description of the operation that a result carries.
    pub open spec fn spec_operation_type(self) -> Seq<char> {
        match self {
            CategoricalOperation::Product => "Product (Klein×ℤ/3)"@,
            CategoricalOperation::Quotient => "Quotient (96/±)"@,
            CategoricalOperation::Filtration => "Filtration (degree-partition)"@,
            CategoricalOperation::Augmentation => "Augmentation (96+30)"@,
            CategoricalOperation::Morphism => "Morphism (direct-embedding)"@,
        }
    }

    /// The count that the operation derives from an Atlas.
    pub open spec fn spec_actual_count(self, a: AtlasView) -> nat {
        match self {
            CategoricalOperation::Product => (KLEIN_QUARTET_SIZE * CYCLIC_FACTOR) as nat,
            CategoricalOperation::Quotient => sign_class_count(a.mirror),
            CategoricalOperation::Filtration => filtration_used5(a) + filtration_used6(a),
            CategoricalOperation::Augmentation => a.vertex_count() + S4_ORBITS as nat,
            CategoricalOperation::Morphism => E8_ROOT_COUNT as nat,
        }
    }

    /// Whether every numeric precondition of the operation holds of an Atlas.
    pub open spec fn spec_verified(self, a: AtlasView) -> bool {
        match self {
            CategoricalOperation::Product => {
                &&& KLEIN_QUARTET_SIZE * CYCLIC_FACTOR == 12
                &&& a.unity.len() == 2
                &&& a.vertex_count() % 12 == 0
            },
            CategoricalOperation::Quotient => sign_class_count(a.mirror) == 48,
            CategoricalOperation::Filtration => {
                &&& filtration_used5(a) + filtration_used6(a) == 72
                &&& degree_count(a.degrees, 5) >= DEGREE5_QUOTA
                &&& degree_count(a.degrees, 6) >= DEGREE6_QUOTA
            },
            CategoricalOperation::Augmentation => {
                &&& a.vertex_count() + S4_ORBITS == 126
                &&& a.vertex_count() == 96
            },
            CategoricalOperation::Morphism => {
                &&& a.vertex_count() == 96
                &&& E8_ROOT_COUNT == 240
            },
        }
    }

    /// The diagnostic text that the operation reports for an Atlas.
    pub open spec fn spec_details(self, a: AtlasView) -> Seq<char> {
        match self {
            CategoricalOperation::Product => product_details(
                a.unity.len(),
                a.vertex_count() % 12 == 0,
            ),
            CategoricalOperation::Quotient => quotient_details(sign_class_count(a.mirror)),
            CategoricalOperation::Filtration => filtration_details(
                filtration_used5(a),
                filtration_used6(a),
                degree_count(a.degrees, 5),
                degree_count(a.degrees, 6),
            ),
            CategoricalOperation::Augmentation => augmentation_details(a.vertex_count()),
            CategoricalOperation::Morphism => morphism_details(a.vertex_count()),
        }
    }

    /// `r` is exactly what the operation reports for an Atlas.
    pub open spec fn is_result_of(self, a: AtlasView, r: OperationResult) -> bool {
        &&& r.group_name@ == self.spec_target_group()
        &&& r.operation_type@ == self.spec_operation_type()
        &&& r.expected_roots == self.spec_expected_roots()
        &&& r.actual_count == self.spec_actual_count(a)
        &&& r.verified == self.spec_verified(a)
        &&& r.details@ == self.spec_details(a)
    }

    /// Creates a Product operation (G2).
    pub fn product() -> (op: Self)
        ensures
            op == CategoricalOperation::Product,
    {
        CategoricalOperation::Product
    }

    /// Creates a Quotient operation (F4).
    pub fn quotient() -> (op: Self)
        ensures
            op == CategoricalOperation::Quotient,
    {
        CategoricalOperation::Quotient
    }

    /// Creates a Filtration operation (E6).
    pub fn filtration() -> (op: Self)
        ensures
            op == CategoricalOperation::Filtration,
    {
        CategoricalOperation::Filtration
    }

    /// Creates an Augmentation operation (E7).
    pub fn augmentation() -> (op: Self)
        ensures
            op == CategoricalOperation::Augmentation,
    {
        CategoricalOperation::Augmentation
    }

    /// Creates a Morphism operation (E8).
    pub fn morphism() -> (op: Self)
        ensures
            op == CategoricalOperation::Morphism,
    {
        CategoricalOperation::Morphism
    }

    /// Name of this operation.
    pub fn name(&self) -> (s: &'static str)
        ensures
            s@ == self.spec_name(),
    {
        match self {
            CategoricalOperation::Product => "Product",
            CategoricalOperation::Quotient => "Quotient",
            CategoricalOperation::Filtration => "Filtration",
            CategoricalOperation::Augmentation => "Augmentation",
            CategoricalOperation::Morphism => "Morphism",
        }
    }

    /// The group this operation produces.
    pub fn target_group(&self) -> (s: &'static str)
        ensures
            s@ == self.spec_target_group(),
    {
        match self {
            CategoricalOperation::Product => "G₂",
            CategoricalOperation::Quotient => "F₄",
            CategoricalOperation::Filtration => "E₆",
            CategoricalOperation::Augmentation => "E₇",
            CategoricalOperation::Morphism => "E₈",
        }
    }

    /// Root count of the group this operation produces.
    pub fn expected_roots(&self) -> (n: usize)
        ensures
            n == self.spec_expected_roots(),
    {
        match self {
            CategoricalOperation::Product => 12,
            CategoricalOperation::Quotient => 48,
            CategoricalOperation::Filtration => 72,
            CategoricalOperation::Augmentation => 126,
            CategoricalOperation::Morphism => 240,
        }
    }

    /// Applies this operation to an Atlas and reports whether it produces
    /// the expected exceptional group structure.
    pub fn verify(&self, atlas: &Atlas) -> (r: OperationResult)
        requires
            atlas.wf(),
            *self == CategoricalOperation::Augmentation ==> atlas@.vertex_count() + S4_ORBITS
                <= usize::MAX,
        ensures
            self.is_result_of(atlas@, r),
    {
        match self {
            CategoricalOperation::Product => Self::verify_product(atlas),
            CategoricalOperation::Quotient => Self::verify_quotient(atlas),
            CategoricalOperation::Filtration => Self::verify_filtration(atlas),
            CategoricalOperation::Augmentation => Self::verify_augmentation(atlas),
            CategoricalOperation::Morphism => Self::verify_morphism(atlas),
        }
    }

    /// Product: Klein quartet x Z/3 -> G2.
    fn verify_product(atlas: &Atlas) -> (r: OperationResult)
        requires
            atlas.wf(),
        ensures
            CategoricalOperation::Product.is_result_of(atlas@, r),
    {
        let unity = atlas.unity_positions();
        // The Klein quartet is the two unity positions and their mirror partners.
        let product_size: usize = KLEIN_QUARTET_SIZE * CYCLIC_FACTOR;
        let atlas_divisible = atlas.num_vertices() % 12 == 0;
        let verified = unity.len() == 2 && product_size == 12 && atlas_divisible;
        let mut details = String::from_str("Klein quartet (4) × ℤ/3 (3) = 12. Unity positions: ");
        push_decimal(&mut details, unity.len());
        details.append(", 12-fold divisible: ");
        push_bool(&mut details, atlas_divisible);
        OperationResult {
            group_name: String::from_str("G₂"),
            operation_type: String::from_str("Product (Klein×ℤ/3)"),
            expected_roots: 12,
            actual_count: product_size,
            verified,
            details,
        }
    }

    /// Quotient: 96 / mirror -> F4. Counts the classes of the mirror pairing.
    fn verify_quotient(atlas: &Atlas) -> (r: OperationResult)
        requires
            atlas.wf(),
        ensures
            CategoricalOperation::Quotient.is_result_of(atlas@, r),
    {
        let n = atlas.num_vertices();
        let ghost m = atlas@.mirror;
        let mut seen: Vec<bool> = Vec::new();
        let mut k: usize = 0;
        while k < n
            invariant
                k <= n,
                seen@.len() == k,
                forall|j: int| 0 <= j < k ==> !#[trigger] seen@[j],
            decreases n - k,
        {
            seen.push(false);
            k = k + 1;
        }
        let ghost mut marked: Set<int> = Set::empty();
        let mut sign_classes: usize = 0;
        let mut v: usize = 0;
        while v < n
            invariant
                atlas.wf(),
                n == atlas@.vertex_count(),
                m == atlas@.mirror,
                v <= n,
                seen@.len() == n,
                forall|j: int| 0 <= j < n ==> (#[trigger] seen@[j] <==> marked.contains(j)),
                sign_classes <= v,
                sign_classes + sign_class_walk(m, v as int, marked) == sign_class_count(m),
            decreases n - v,
        {
            if !seen[v] {
                let mirror = atlas.mirror_pair(v);
                seen.set(v, true);
                seen.set(mirror, true);
                proof {
                    marked = marked.insert(v as int).insert(mirror as int);
                }
                sign_classes = sign_classes + 1;
            }
            v = v + 1;
        }
        let verified = sign_classes == 48;
        let mut details = String::from_str("96 vertices / mirror pairs = ");
        push_decimal(&mut details, sign_classes);
        details.append(" sign classes. Degree pattern: 32×5 + 16×6");
        OperationResult {
            group_name: String::from_str("F₄"),
            operation_type: String::from_str("Quotient (96/±)"),
            expected_roots: 48,
            actual_count: sign_classes,
            verified,
            details,
        }
    }

    /// Filtration: degree partition -> E6. Takes 64 degree-5 and 8 degree-6
    /// vertices, ignoring every other degree and any surplus.
    fn verify_filtration(atlas: &Atlas) -> (r: OperationResult)
        requires
            atlas.wf(),
        ensures
            CategoricalOperation::Filtration.is_result_of(atlas@, r),
    {
        let n = atlas.num_vertices();
        let ghost d = atlas@.degrees;
        let mut deg5_count: usize = 0;
        let mut deg6_count: usize = 0;
        let mut v: usize = 0;
        while v < n
            invariant
                atlas.wf(),
                n == atlas@.vertex_count(),
                d == atlas@.degrees,
                v <= n,
                deg5_count + deg6_count <= v,
                deg5_count == degree_count(d.subrange(0, v as int), 5),
                deg6_count == degree_count(d.subrange(0, v as int), 6),
            decreases n - v,
        {
            let deg = atlas.degree(v);
            assert(d.subrange(0, v + 1).drop_last() =~= d.subrange(0, v as int));
            if deg == 5 {
                deg5_count = deg5_count + 1;
            } else if deg == 6 {
                deg6_count = deg6_count + 1;
            }
            v = v + 1;
        }
        assert(d.subrange(0, n as int) =~= d);
        let used5: usize = if deg5_count < DEGREE5_QUOTA {
            deg5_count
        } else {
            DEGREE5_QUOTA
        };
        let used6: usize = if deg6_count < DEGREE6_QUOTA {
            deg6_count
        } else {
            DEGREE6_QUOTA
        };
        let total = used5 + used6;
        let verified = total == 72 && deg5_count >= DEGREE5_QUOTA && deg6_count >= DEGREE6_QUOTA;
        let mut details = String::from_str("Degree partition: ");
        push_decimal(&mut details, used5);
        details.append(" degree-5 + ");
        push_decimal(&mut details, used6);
        details.append(" degree-6 = ");
        push_decimal(&mut details, total);
        details.append(". Total: ");
        push_decimal(&mut details, deg5_count);
        details.append("/");
        push_decimal(&mut details, deg6_count);
        OperationResult {
            group_name: String::from_str("E₆"),
            operation_type: String::from_str("Filtration (degree-partition)"),
            expected_roots: 72,
            actual_count: total,
            verified,
            details,
        }
    }

    /// Augmentation: 96 Atlas vertices + 30 S4 orbits -> E7.
    fn verify_augmentation(atlas: &Atlas) -> (r: OperationResult)
        requires
            atlas.wf(),
            atlas@.vertex_count() + S4_ORBITS <= usize::MAX,
        ensures
            CategoricalOperation::Augmentation.is_result_of(atlas@, r),
    {
        let atlas_vertices = atlas.num_vertices();
        let total = atlas_vertices + S4_ORBITS;
        let verified = total == 126 && atlas_vertices == 96;
        let mut details = String::from_str("Augmentation: ");
        push_decimal(&mut details, atlas_vertices);
        details.append(" Atlas vertices + ");
        push_decimal(&mut details, S4_ORBITS);
        details.append(" S₄ orbits = ");
        push_decimal(&mut details, total);
        OperationResult {
            group_name: String::from_str("E₇"),
            operation_type: String::from_str("Augmentation (96+30)"),
            expected_roots: 126,
            actual_count: total,
            verified,
            details,
        }
    }

    /// Morphism: the Atlas vertices embed directly into the 240 E8 roots.
    fn verify_morphism(atlas: &Atlas) -> (r: OperationResult)
        requires
            atlas.wf(),
        ensures
            CategoricalOperation::Morphism.is_result_of(atlas@, r),
    {
        let atlas_vertices = atlas.num_vertices();
        // The embedding is injective: every vertex lands on its own root.
        let embedded_count = atlas_vertices;
        let wide: u128 = embedded_count as u128 * 100;
        let coverage: usize = (wide / E8_ROOT_COUNT as u128) as usize;
        let verified = embedded_count == 96 && E8_ROOT_COUNT == 240;
        let mut details = String::from_str("Direct embedding: ");
        push_decimal(&mut details, atlas_vertices);
        details.append(" Atlas vertices → ");
        push_decimal(&mut details, embedded_count);
        details.append(" of ");
        push_decimal(&mut details, E8_ROOT_COUNT);
        details.append(" E₈ roots (");
        push_decimal(&mut details, coverage);
        details.append("% coverage)");
        OperationResult {
            group_name: String::from_str("E₈"),
            operation_type: String::from_str("Morphism (direct-embedding)"),
            expected_roots: 240,
            actual_count: E8_ROOT_COUNT,
            verified,
            details,
        }
    }
}

} // verus!
