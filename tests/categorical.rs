use atlas_embeddings::{Atlas, CategoricalOperation};

#[test]
fn test_product_operation_g2() {
    let atlas = Atlas::new();
    let op = CategoricalOperation::product();

    assert_eq!(op.name(), "Product");
    assert_eq!(op.target_group(), "G₂");
    assert_eq!(op.expected_roots(), 12);

    let result = op.verify(&atlas);
    assert_eq!(result.expected_roots, 12);
    assert!(result.verified, "Product operation should verify for G₂");
}

#[test]
fn test_quotient_operation_f4() {
    let atlas = Atlas::new();
    let op = CategoricalOperation::quotient();

    assert_eq!(op.name(), "Quotient");
    assert_eq!(op.target_group(), "F₄");
    assert_eq!(op.expected_roots(), 48);

    let result = op.verify(&atlas);
    assert_eq!(result.expected_roots, 48);
    assert_eq!(result.actual_count, 48);
    assert!(result.verified, "Quotient operation should produce 48 sign classes");
}

#[test]
fn test_filtration_operation_e6() {
    let atlas = Atlas::new();
    let op = CategoricalOperation::filtration();

    assert_eq!(op.name(), "Filtration");
    assert_eq!(op.target_group(), "E₆");
    assert_eq!(op.expected_roots(), 72);

    let result = op.verify(&atlas);
    assert_eq!(result.expected_roots, 72);
    assert!(result.verified, "Filtration should produce 72 roots for E₆");
}

#[test]
fn test_augmentation_operation_e7() {
    let atlas = Atlas::new();
    let op = CategoricalOperation::augmentation();

    assert_eq!(op.name(), "Augmentation");
    assert_eq!(op.target_group(), "E₇");
    assert_eq!(op.expected_roots(), 126);

    let result = op.verify(&atlas);
    assert_eq!(result.expected_roots, 126);
    assert_eq!(result.actual_count, 126);
    assert!(result.verified, "Augmentation should produce 126 roots for E₇");
}

#[test]
fn test_morphism_operation_e8() {
    let atlas = Atlas::new();
    let op = CategoricalOperation::morphism();

    assert_eq!(op.name(), "Morphism");
    assert_eq!(op.target_group(), "E₈");
    assert_eq!(op.expected_roots(), 240);

    let result = op.verify(&atlas);
    assert_eq!(result.expected_roots, 240);
    assert!(result.verified, "Morphism should reference E₈ structure");
}

#[test]
fn test_all_operations_produce_correct_counts() {
    let atlas = Atlas::new();

    let operations = vec![
        (CategoricalOperation::product(), 12),
        (CategoricalOperation::quotient(), 48),
        (CategoricalOperation::filtration(), 72),
        (CategoricalOperation::augmentation(), 126),
        (CategoricalOperation::morphism(), 240),
    ];

    for (op, expected) in operations {
        let result = op.verify(&atlas);
        assert_eq!(
            result.expected_roots,
            expected,
            "{} should expect {} roots",
            op.name(),
            expected
        );
    }
}
