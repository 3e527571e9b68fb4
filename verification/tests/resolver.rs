use variant_common_data::decl::{Annotation, AnnotationShape};
use variant_common_data::diag::{Anchor, Diagnostic, DiagnosticKind};
use variant_common_data::resolve::resolve_configuration;

fn doc_annotation(text: &str) -> Annotation {
    Annotation {
        outer: true,
        key: String::from("doc"),
        shape: AnnotationShape::NameValue {
            value: format!("\"{}\"", text),
            value_is_type_path: false,
        },
    }
}

fn derive_annotation(args: &str) -> Annotation {
    Annotation {
        outer: true,
        key: String::from("derive"),
        shape: AnnotationShape::List { args: String::from(args) },
    }
}

fn config_annotation(ty: &str) -> Annotation {
    Annotation {
        outer: true,
        key: String::from("common_data_type"),
        shape: AnnotationShape::NameValue {
            value: String::from(ty),
            value_is_type_path: true,
        },
    }
}

#[test]
fn single_valid_configuration_is_resolved() {
    let annotations = vec![
        doc_annotation("common data"),
        config_annotation("String"),
        derive_annotation("Debug, Clone"),
    ];
    let cfg = resolve_configuration(&annotations).expect("one valid configuration");
    assert_eq!(cfg.common_type, "String");
    assert_eq!(cfg.others.len(), 2);
    assert_eq!(cfg.others[0], annotations[0]);
    assert_eq!(cfg.others[1], annotations[2]);
}

#[test]
fn zero_configurations_report_missing_at_declaration_name() {
    let annotations = vec![doc_annotation("no config here"), derive_annotation("Debug")];
    let ds = resolve_configuration(&annotations).expect_err("missing configuration");
    assert_eq!(
        ds,
        vec![Diagnostic {
            kind: DiagnosticKind::ConfigurationMissing,
            anchor: Anchor::DeclarationName,
        }]
    );
}

#[test]
fn no_annotations_at_all_report_missing() {
    let ds = resolve_configuration(&Vec::new()).expect_err("missing configuration");
    assert_eq!(ds.len(), 1);
    assert_eq!(ds[0].kind, DiagnosticKind::ConfigurationMissing);
    assert_eq!(ds[0].anchor, Anchor::DeclarationName);
}

#[test]
fn two_configurations_report_ambiguity_at_declaration_name() {
    let annotations = vec![config_annotation("String"), config_annotation("u64")];
    let ds = resolve_configuration(&annotations).expect_err("ambiguous configuration");
    assert_eq!(
        ds,
        vec![Diagnostic {
            kind: DiagnosticKind::ConfigurationAmbiguous,
            anchor: Anchor::DeclarationName,
        }]
    );
}

#[test]
fn argument_list_shape_is_malformed_at_its_site() {
    let annotations = vec![
        derive_annotation("Debug"),
        Annotation {
            outer: true,
            key: String::from("common_data_type"),
            shape: AnnotationShape::List { args: String::from("String") },
        },
    ];
    let ds = resolve_configuration(&annotations).expect_err("malformed configuration");
    assert_eq!(
        ds,
        vec![Diagnostic {
            kind: DiagnosticKind::ConfigurationMalformed,
            anchor: Anchor::AnnotationAt { index: 1 },
        }]
    );
}

#[test]
fn bare_path_shape_is_malformed_at_its_site() {
    let annotations = vec![Annotation {
        outer: true,
        key: String::from("common_data_type"),
        shape: AnnotationShape::Path,
    }];
    let ds = resolve_configuration(&annotations).expect_err("malformed configuration");
    assert_eq!(ds.len(), 1);
    assert_eq!(ds[0].kind, DiagnosticKind::ConfigurationMalformed);
    assert_eq!(ds[0].anchor, Anchor::AnnotationAt { index: 0 });
}

#[test]
fn non_type_path_value_is_malformed() {
    let annotations = vec![Annotation {
        outer: true,
        key: String::from("common_data_type"),
        shape: AnnotationShape::NameValue {
            value: String::from("1 + 2"),
            value_is_type_path: false,
        },
    }];
    let ds = resolve_configuration(&annotations).expect_err("malformed configuration");
    assert_eq!(ds[0].kind, DiagnosticKind::ConfigurationMalformed);
}

#[test]
fn every_malformed_candidate_is_reported_in_order() {
    let annotations = vec![
        Annotation {
            outer: true,
            key: String::from("common_data_type"),
            shape: AnnotationShape::Path,
        },
        config_annotation("String"),
        Annotation {
            outer: true,
            key: String::from("common_data_type"),
            shape: AnnotationShape::List { args: String::from("u8") },
        },
    ];
    let ds = resolve_configuration(&annotations).expect_err("malformed candidates are fatal");
    assert_eq!(
        ds,
        vec![
            Diagnostic {
                kind: DiagnosticKind::ConfigurationMalformed,
                anchor: Anchor::AnnotationAt { index: 0 },
            },
            Diagnostic {
                kind: DiagnosticKind::ConfigurationMalformed,
                anchor: Anchor::AnnotationAt { index: 2 },
            },
        ]
    );
}

#[test]
fn malformed_and_ambiguous_are_reported_together() {
    let annotations = vec![
        config_annotation("String"),
        Annotation {
            outer: true,
            key: String::from("common_data_type"),
            shape: AnnotationShape::Path,
        },
        config_annotation("u64"),
    ];
    let ds = resolve_configuration(&annotations).expect_err("two valid plus one malformed");
    assert_eq!(
        ds,
        vec![
            Diagnostic {
                kind: DiagnosticKind::ConfigurationMalformed,
                anchor: Anchor::AnnotationAt { index: 1 },
            },
            Diagnostic {
                kind: DiagnosticKind::ConfigurationAmbiguous,
                anchor: Anchor::DeclarationName,
            },
        ]
    );
}

#[test]
fn inner_annotation_is_never_a_candidate() {
    let inner = Annotation {
        outer: false,
        key: String::from("common_data_type"),
        shape: AnnotationShape::NameValue {
            value: String::from("String"),
            value_is_type_path: true,
        },
    };
    let annotations = vec![inner.clone()];
    let ds = resolve_configuration(&annotations).expect_err("no outer configuration");
    assert_eq!(ds[0].kind, DiagnosticKind::ConfigurationMissing);

    let annotations = vec![inner.clone(), config_annotation("String")];
    let cfg = resolve_configuration(&annotations).expect("the outer one resolves");
    assert_eq!(cfg.common_type, "String");
    assert_eq!(cfg.others, vec![inner]);
}

#[test]
fn first_of_one_valid_candidate_binds_its_type() {
    let annotations = vec![config_annotation("std::string::String")];
    let cfg = resolve_configuration(&annotations).expect("one valid configuration");
    assert_eq!(cfg.common_type, "std::string::String");
    assert!(cfg.others.is_empty());
}
