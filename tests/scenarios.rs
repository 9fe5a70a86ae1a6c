use atlas_embeddings::decimal::push_decimal;
use atlas_embeddings::{Atlas, CategoricalOperation};

/// An Atlas of `n` vertices, all of degree `deg`, paired `(2k, 2k + 1)`, with
/// unity positions 0 and 1.
fn paired_atlas(n: usize, deg: usize) -> Atlas {
    let degrees = vec![deg; n];
    let mirror: Vec<usize> = (0..n).map(|v| v ^ 1).collect();
    Atlas::from_parts(degrees, mirror, vec![0, 1]).unwrap()
}

#[test]
fn canonical_atlas_reproduces_every_root_count() {
    let atlas = Atlas::new();
    let cases = [
        (CategoricalOperation::product(), 12),
        (CategoricalOperation::quotient(), 48),
        (CategoricalOperation::filtration(), 72),
        (CategoricalOperation::augmentation(), 126),
        (CategoricalOperation::morphism(), 240),
    ];
    for (op, roots) in cases {
        let r = op.verify(&atlas);
        assert_eq!(r.expected_roots, roots);
        assert_eq!(r.actual_count, roots);
        assert!(r.verified);
        assert_eq!(r.group_name, op.target_group());
    }
}

#[test]
fn canonical_atlas_queries() {
    let atlas = Atlas::new();
    assert_eq!(atlas.num_vertices(), 96);
    assert_eq!(atlas.degree(0), 5);
    assert_eq!(atlas.degree(1), 6);
    assert_eq!(atlas.mirror_pair(0), 48);
    assert_eq!(atlas.mirror_pair(49), 1);
    assert_eq!(atlas.unity_positions(), &[1, 49]);
    let deg5 = (0..96).filter(|&v| atlas.degree(v) == 5).count();
    let deg6 = (0..96).filter(|&v| atlas.degree(v) == 6).count();
    assert_eq!((deg5, deg6), (64, 32));
}

#[test]
fn canonical_details_text() {
    let atlas = Atlas::new();
    let text = |op: CategoricalOperation| op.verify(&atlas).details;
    assert_eq!(
        text(CategoricalOperation::product()),
        "Klein quartet (4) × ℤ/3 (3) = 12. Unity positions: 2, 12-fold divisible: true"
    );
    assert_eq!(
        text(CategoricalOperation::quotient()),
        "96 vertices / mirror pairs = 48 sign classes. Degree pattern: 32×5 + 16×6"
    );
    assert_eq!(
        text(CategoricalOperation::filtration()),
        "Degree partition: 64 degree-5 + 8 degree-6 = 72. Total: 64/32"
    );
    assert_eq!(
        text(CategoricalOperation::augmentation()),
        "Augmentation: 96 Atlas vertices + 30 S₄ orbits = 126"
    );
    assert_eq!(
        text(CategoricalOperation::morphism()),
        "Direct embedding: 96 Atlas vertices → 96 of 240 E₈ roots (40% coverage)"
    );
    let r = CategoricalOperation::product().verify(&atlas);
    assert_eq!(r.operation_type, "Product (Klein×ℤ/3)");
}

#[test]
fn quotient_of_involution_is_half_the_vertices() {
    let atlas = paired_atlas(10, 5);
    let r = CategoricalOperation::quotient().verify(&atlas);
    assert_eq!(r.actual_count, 5);
    assert!(!r.verified);

    let reversed: Vec<usize> = (0..96).map(|v| 95 - v).collect();
    let atlas = Atlas::from_parts(vec![5; 96], reversed, vec![]).unwrap();
    let r = CategoricalOperation::quotient().verify(&atlas);
    assert_eq!(r.actual_count, 48);
    assert!(r.verified);
}

#[test]
fn quotient_on_odd_atlas_is_not_verified() {
    let mut mirror: Vec<usize> = (0..96).map(|v| v ^ 1).collect();
    mirror.push(96);
    let atlas = Atlas::from_parts(vec![5; 97], mirror, vec![0, 1]).unwrap();
    let r = CategoricalOperation::quotient().verify(&atlas);
    assert_ne!(r.actual_count, 97 / 2);
    assert_eq!(r.actual_count, 49);
    assert!(!r.verified);
    assert_eq!(r.expected_roots, 48);
}

#[test]
fn quotient_follows_the_walk_on_a_non_involution() {
    // 0 marks 0 and 1; 1 is then skipped; 2 marks 2 and 1; 3 opens a class.
    let atlas = Atlas::from_parts(vec![5; 4], vec![1, 1, 1, 3], vec![]).unwrap();
    let r = CategoricalOperation::quotient().verify(&atlas);
    assert_eq!(r.actual_count, 3);
}

#[test]
fn filtration_caps_each_degree() {
    let mut degrees = vec![5; 70];
    degrees.extend([6, 6, 6, 7, 4]);
    let mirror: Vec<usize> = (0..75).map(|v| 74 - v).collect();
    let atlas = Atlas::from_parts(degrees, mirror, vec![]).unwrap();
    let r = CategoricalOperation::filtration().verify(&atlas);
    assert_eq!(r.actual_count, 67);
    assert!(!r.verified);
    assert_eq!(r.details, "Degree partition: 64 degree-5 + 3 degree-6 = 67. Total: 70/3");

    let atlas = paired_atlas(80, 6);
    let r = CategoricalOperation::filtration().verify(&atlas);
    assert_eq!(r.actual_count, 8);
    assert!(!r.verified);

    let atlas = paired_atlas(0, 5);
    let r = CategoricalOperation::filtration().verify(&atlas);
    assert_eq!(r.actual_count, 0);
}

#[test]
fn augmentation_adds_thirty_to_any_vertex_count() {
    let r = CategoricalOperation::augmentation().verify(&paired_atlas(10, 5));
    assert_eq!(r.actual_count, 40);
    assert!(!r.verified);
    let r = CategoricalOperation::augmentation().verify(&paired_atlas(96, 5));
    assert_eq!(r.actual_count, 126);
    assert!(r.verified);
}

#[test]
fn morphism_always_targets_two_hundred_forty() {
    let r = CategoricalOperation::morphism().verify(&paired_atlas(12, 5));
    assert_eq!(r.actual_count, 240);
    assert!(!r.verified);
    assert_eq!(r.details, "Direct embedding: 12 Atlas vertices → 12 of 240 E₈ roots (5% coverage)");
    let r = CategoricalOperation::morphism().verify(&paired_atlas(96, 7));
    assert!(r.verified);
}

#[test]
fn product_needs_two_unity_positions_and_twelvefold_size() {
    let atlas = Atlas::from_parts(vec![5; 24], (0..24).map(|v| v ^ 1).collect(), vec![0, 1, 2]).unwrap();
    let r = CategoricalOperation::product().verify(&atlas);
    assert_eq!(r.actual_count, 12);
    assert!(!r.verified);

    let r = CategoricalOperation::product().verify(&paired_atlas(14, 5));
    assert_eq!(r.actual_count, 12);
    assert!(!r.verified);
    assert_eq!(
        r.details,
        "Klein quartet (4) × ℤ/3 (3) = 12. Unity positions: 2, 12-fold divisible: false"
    );

    let r = CategoricalOperation::product().verify(&paired_atlas(24, 5));
    assert!(r.verified);
}

#[test]
fn from_parts_rejects_malformed_atlases() {
    assert!(Atlas::from_parts(vec![5, 5], vec![1], vec![]).is_none());
    assert!(Atlas::from_parts(vec![5, 5], vec![1, 2], vec![]).is_none());
    assert!(Atlas::from_parts(vec![5, 5], vec![1, 0], vec![]).is_some());
    assert!(Atlas::from_parts(vec![], vec![], vec![]).is_some());
}

#[test]
fn decimal_digits() {
    let mut s = String::from("n=");
    push_decimal(&mut s, 0);
    assert_eq!(s, "n=0");
    push_decimal(&mut s, 1234);
    assert_eq!(s, "n=01234");
    let mut t = String::new();
    push_decimal(&mut t, usize::MAX);
    assert_eq!(t, usize::MAX.to_string());
}
