//! Tests for the declarative shape/dtype fact language.

use tract_bridge::error::CoreError;
use tract_bridge::fact::{build_shape_fact, DimToken, DimensionTerm, FactSpec};
use tract_bridge::kind::NumericKind;

fn spec(dtype: Option<&str>, dims: Option<Vec<DimToken>>) -> FactSpec {
    FactSpec { dtype: dtype.map(|s| s.to_string()), dims }
}

#[test]
fn full_fact_with_symbolic_and_affine_dims() {
    let input = spec(
        Some("float32"),
        Some(vec![
            DimToken::Number(1),
            DimToken::Name("n".to_string()),
            DimToken::Record { id: "n".to_string(), slope: 2, intercept: 3 },
        ]),
    );
    let fact = build_shape_fact(&input).unwrap();
    assert_eq!(fact.dtype, Some(NumericKind::Float32));
    assert_eq!(
        fact.dims,
        Some(vec![
            DimensionTerm::Fixed(1),
            DimensionTerm::Symbol('n'),
            DimensionTerm::Affine { id: 'n', slope: 2, intercept: 3 },
        ])
    );
    assert!(fact.has_unresolved_symbols);
}

#[test]
fn every_dtype_name_of_the_table() {
    let table = [
        ("int8", NumericKind::Int8),
        ("uint8", NumericKind::Uint8),
        ("int16", NumericKind::Int16),
        ("uint16", NumericKind::Uint16),
        ("int32", NumericKind::Int32),
        ("float32", NumericKind::Float32),
        ("float64", NumericKind::Float64),
    ];
    for (name, kind) in table {
        let fact = build_shape_fact(&spec(Some(name), None)).unwrap();
        assert_eq!(fact.dtype, Some(kind));
        assert!(fact.dims.is_none());
        assert!(!fact.has_unresolved_symbols);
    }
}

#[test]
fn unknown_dtype_names_are_rejected() {
    for name in ["uint32", "int64", "float16", "bool", "f32", ""] {
        let r = build_shape_fact(&spec(Some(name), None));
        assert!(matches!(r, Err(CoreError::UnknownDtypeName)), "{name}");
    }
}

#[test]
fn dtype_error_takes_precedence_over_dims() {
    let r = build_shape_fact(&spec(Some("bogus"), Some(vec![DimToken::Unrecognized])));
    assert!(matches!(r, Err(CoreError::UnknownDtypeName)));
}

#[test]
fn empty_fact_is_incomplete() {
    let r = build_shape_fact(&spec(None, None));
    assert!(matches!(r, Err(CoreError::IncompleteFact)));
}

#[test]
fn dims_only_fact_is_fine() {
    let fact = build_shape_fact(&spec(None, Some(vec![DimToken::Number(2), DimToken::Number(3)])))
        .unwrap();
    assert_eq!(fact.dtype, None);
    assert_eq!(fact.dims, Some(vec![DimensionTerm::Fixed(2), DimensionTerm::Fixed(3)]));
    assert!(!fact.has_unresolved_symbols);
}

#[test]
fn invalid_dimension_entries_are_rejected() {
    let bad_entries = vec![
        DimToken::Unrecognized,
        DimToken::Name(String::new()),
        DimToken::Name("ab".to_string()),
        DimToken::Record { id: String::new(), slope: 1, intercept: 0 },
        DimToken::Record { id: "xy".to_string(), slope: 1, intercept: 0 },
    ];
    for entry in bad_entries {
        let r = build_shape_fact(&spec(None, Some(vec![DimToken::Number(1), entry.clone()])));
        assert!(matches!(r, Err(CoreError::InvalidDimensionSpec)), "{entry:?}");
    }
}

#[test]
fn symbol_alone_marks_unresolved() {
    let fact = build_shape_fact(&spec(None, Some(vec![DimToken::Name("x".to_string())]))).unwrap();
    assert_eq!(fact.dims, Some(vec![DimensionTerm::Symbol('x')]));
    assert!(fact.has_unresolved_symbols);
}

#[test]
fn empty_dims_slot_is_a_scalar_shape() {
    let fact = build_shape_fact(&spec(Some("int8"), Some(vec![]))).unwrap();
    assert_eq!(fact.dims, Some(vec![]));
    assert!(!fact.has_unresolved_symbols);
}
