use variant_common_data::diag::{Anchor, Diagnostic, DiagnosticKind};
use variant_common_data::output::{operation_list, operation_name, Operation};
use variant_common_data::wrapper::Wrapper;

#[derive(Debug, PartialEq, Eq, Clone)]
enum ShapeVariants {
    Circle(u32),
    Rect { w: u32, h: u32 },
    Point,
}

#[test]
fn operation_names_are_the_generated_identifiers() {
    let names: Vec<String> = operation_list().iter().map(operation_name).collect();
    assert_eq!(
        names,
        vec![
            "new",
            "common",
            "common_mut",
            "set_common",
            "variant",
            "variant_mut",
            "set_variant",
            "as_ref_mut",
            "as_ref",
            "deref",
            "deref_mut",
        ]
    );
}

#[test]
fn operation_list_has_eleven_distinct_operations() {
    let ops = operation_list();
    assert_eq!(ops.len(), 11);
    for (i, a) in ops.iter().enumerate() {
        for b in ops.iter().skip(i + 1) {
            assert_ne!(a, b);
        }
    }
}

#[test]
fn constructor_and_accessors_observe_the_given_values() {
    let w = Wrapper::new(String::from("hue"), ShapeVariants::Point);
    assert_eq!(w.common(), "hue");
    assert_eq!(*w.variant(), ShapeVariants::Point);
}

#[test]
fn set_common_is_observed_by_a_later_accessor() {
    let mut w = Wrapper::new(String::from("hue"), ShapeVariants::Point);
    w.set_common(String::from("x"));
    assert_eq!(w.common(), "x");
    assert_eq!(*w.variant(), ShapeVariants::Point);
}

#[test]
fn common_mut_mutation_is_observed_by_a_later_accessor() {
    let mut w = Wrapper::new(String::from("hue"), ShapeVariants::Circle(3));
    *w.common_mut() = String::from("tint");
    assert_eq!(w.common(), "tint");
    assert_eq!(*w.variant(), ShapeVariants::Circle(3));
}

#[test]
fn set_variant_is_observed_by_a_later_accessor() {
    let mut w = Wrapper::new(String::from("hue"), ShapeVariants::Point);
    w.set_variant(ShapeVariants::Rect { w: 2, h: 4 });
    assert_eq!(*w.variant(), ShapeVariants::Rect { w: 2, h: 4 });
    assert_eq!(w.common(), "hue");
}

#[test]
fn variant_mut_mutation_is_observed_by_a_later_accessor() {
    let mut w = Wrapper::new(String::from("hue"), ShapeVariants::Circle(1));
    *w.variant_mut() = ShapeVariants::Circle(9);
    assert_eq!(*w.variant(), ShapeVariants::Circle(9));
}

#[test]
fn as_ref_mut_behaves_exactly_like_variant_mut() {
    let mut w = Wrapper::new(String::from("hue"), ShapeVariants::Circle(1));
    *w.as_ref_mut() = ShapeVariants::Point;
    assert_eq!(*w.variant(), ShapeVariants::Point);
    assert_eq!(w.common(), "hue");
}

#[test]
fn read_only_views_forward_to_the_variant_payload() {
    let w = Wrapper::new(String::from("hue"), ShapeVariants::Rect { w: 1, h: 2 });
    assert_eq!(*w.as_ref(), ShapeVariants::Rect { w: 1, h: 2 });
    assert_eq!(*w.deref(), ShapeVariants::Rect { w: 1, h: 2 });
    assert!(matches!(*w.deref(), ShapeVariants::Rect { w: 1, h: 2 }));
}

#[test]
fn deref_mut_forwards_mutation_to_the_variant_payload() {
    let mut w = Wrapper::new(String::from("hue"), ShapeVariants::Circle(5));
    if let ShapeVariants::Circle(r) = w.deref_mut() {
        *r = 6;
    }
    assert_eq!(*w.variant(), ShapeVariants::Circle(6));
    assert_eq!(w.common(), "hue");
}

#[test]
fn diagnostic_texts_match_their_kinds() {
    let shape = Diagnostic {
        kind: DiagnosticKind::ShapeMismatch,
        anchor: Anchor::DeclarationName,
    };
    assert_eq!(shape.primary_text(), "This attribute is only applicable for enums");
    assert_eq!(shape.remediation(), None);

    let missing = Diagnostic {
        kind: DiagnosticKind::ConfigurationMissing,
        anchor: Anchor::DeclarationName,
    };
    assert_eq!(missing.primary_text(), "no common data type attribute found");
    assert_eq!(
        missing.remediation(),
        Some(String::from("add a `common_data_type = <Type>` attribute to the enum"))
    );

    let malformed = Diagnostic {
        kind: DiagnosticKind::ConfigurationMalformed,
        anchor: Anchor::AnnotationAt { index: 0 },
    };
    assert_eq!(malformed.primary_text(), "expected `common_data_type = <Type>`");
    assert_eq!(
        malformed.remediation(),
        Some(String::from("write the common data type as a bare type path"))
    );

    let ambiguous = Diagnostic {
        kind: DiagnosticKind::ConfigurationAmbiguous,
        anchor: Anchor::DeclarationName,
    };
    assert_eq!(ambiguous.primary_text(), "more than one common data type attribute");
    assert_eq!(
        ambiguous.remediation(),
        Some(String::from("remove all but one `common_data_type` attribute"))
    );
}

#[test]
fn wrapper_operations_mirror_the_operation_list() {
    // Every operation in the emitted suite has its runtime counterpart
    // exercised above; this pins the correspondence between the two counts.
    let ops = operation_list();
    assert_eq!(ops.len(), 11);
    assert_eq!(ops[0], Operation::New);
    assert_eq!(ops[10], Operation::DerefVariantMut);
}
