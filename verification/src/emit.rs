//! The declaration splitter and emitter: given one enum-shaped input
//! declaration and a resolved common field type, produce the wrapper
//! declaration, the variants-only declaration and the operation suite.
//!
//! Two entry points share this one emission path. `transform_with_argument`
//! takes the common field type directly (it is supplied with the invocation);
//! `transform_with_annotations` first resolves it from a `common_data_type`
//! annotation and passes the remaining annotations through.

use vstd::prelude::*;
use vstd::string::StringExecFns;
use crate::decl::{Annotation, DeclBody, GenericParam, InputDeclaration, Variant, config_value,
    duplicate_clause, duplicate_generics, is_doc, spec_doc_key};
use crate::diag::{Anchor, Diagnostic, DiagnosticKind};
use crate::output::{Bundle, OperationSuite, VariantOnlyDecl, WrapperDecl, canonical_operations,
    operation_list};
use crate::resolve::{passthrough_of, resolution_fails, resolve_configuration, resolver_errors,
    wellformed_configs_of};

verus! {

/// The outer annotations of a list, in order: the ones re-emitted on the
/// wrapper declaration.
pub open spec fn outer_annotations_of(s: Seq<Annotation>) -> Seq<Annotation>
    decreases s.len(),
{
    if s.len() == 0 {
        Seq::empty()
    } else {
        outer_annotations_of(s.drop_last()) + if s.last().outer {
            seq![s.last()]
        } else {
            Seq::empty()
        }
    }
}

/// The outer, non-documentation annotations of a list, in order: the ones
/// re-emitted on the variants-only declaration.
pub open spec fn nondoc_annotations_of(s: Seq<Annotation>) -> Seq<Annotation>
    decreases s.len(),
{
    if s.len() == 0 {
        Seq::empty()
    } else {
        nondoc_annotations_of(s.drop_last()) + if s.last().outer && !is_doc(s.last()) {
            seq![s.last()]
        } else {
            Seq::empty()
        }
    }
}

/// The parameter identifiers of a generic parameter list, in order: the
/// bounds-stripped usage form of the list.
pub open spec fn idents_of(s: Seq<GenericParam>) -> Seq<String> {
    s.map_values(|p: GenericParam| p.ident)
}

/// The variants of an enum-shaped declaration body.
pub open spec fn body_variants(body: DeclBody) -> Vec<Variant> {
    match body {
        DeclBody::Enum { variants } => variants,
        _ => arbitrary(),
    }
}

/// Copy the outer annotations of a list, in order.
fn filter_outer(annotations: &Vec<Annotation>) -> (r: Vec<Annotation>)
    ensures
        r@ == outer_annotations_of(annotations@),
{
    let mut r: Vec<Annotation> = Vec::new();
    let mut i: usize = 0;
    while i < annotations.len()
        invariant
            i <= annotations@.len(),
            r@ =~= outer_annotations_of(annotations@.take(i as int)),
        decreases annotations@.len() - i,
    {
        proof {
            assert(annotations@.take(i + 1).drop_last() =~= annotations@.take(i as int));
        }
        if annotations[i].outer {
            r.push(annotations[i].duplicate());
        }
        i = i + 1;
    }
    proof {
        assert(annotations@.take(annotations@.len() as int) =~= annotations@);
    }
    r
}

/// Copy the outer, non-documentation annotations of a list, in order.
fn filter_outer_nondoc(annotations: &Vec<Annotation>) -> (r: Vec<Annotation>)
    ensures
        r@ == nondoc_annotations_of(annotations@),
{
    let doc_key = String::from_str("doc");
    let mut r: Vec<Annotation> = Vec::new();
    let mut i: usize = 0;
    while i < annotations.len()
        invariant
            doc_key@ == spec_doc_key(),
            i <= annotations@.len(),
            r@ =~= nondoc_annotations_of(annotations@.take(i as int)),
        decreases annotations@.len() - i,
    {
        proof {
            assert(annotations@.take(i + 1).drop_last() =~= annotations@.take(i as int));
        }
        if annotations[i].outer && !(annotations[i].key == doc_key) {
            r.push(annotations[i].duplicate());
        }
        i = i + 1;
    }
    proof {
        assert(annotations@.take(annotations@.len() as int) =~= annotations@);
    }
    r
}

/// Derive the usage form of a generic parameter list: the parameter
/// identifiers in original order, bounds stripped.
pub fn usage_args(generics: &Vec<GenericParam>) -> (r: Vec<String>)
    ensures
        r@ == idents_of(generics@),
{
    let mut r: Vec<String> = Vec::new();
    let mut i: usize = 0;
    while i < generics.len()
        invariant
            i <= generics@.len(),
            r@ =~= idents_of(generics@.take(i as int)),
        decreases generics@.len() - i,
    {
        r.push(generics[i].ident.clone());
        proof {
            assert(r@ =~= idents_of(generics@.take(i + 1)));
        }
        i = i + 1;
    }
    proof {
        assert(generics@.take(generics@.len() as int) =~= generics@);
    }
    r
}

/// An exact copy of a list of identifiers.
fn duplicate_strings(v: &Vec<String>) -> (r: Vec<String>)
    ensures
        r@ == v@,
{
    let mut r: Vec<String> = Vec::new();
    let mut i: usize = 0;
    while i < v.len()
        invariant
            i <= v@.len(),
            r@ =~= v@.take(i as int),
        decreases v@.len() - i,
    {
        r.push(v[i].clone());
        i = i + 1;
    }
    proof {
        assert(v@.take(v@.len() as int) =~= v@);
    }
    r
}

/// Derive the variants-only type name: the input name with the fixed
/// `Variants` suffix appended.
pub fn variants_type_name(name: &String) -> (r: String)
    ensures
        r@ == name@ + "Variants"@,
{
    name.clone().concat("Variants")
}

/// What one successful emission guarantees, shared by both entry points:
/// `emitted` is the annotation list the emitter was left to re-emit, and
/// `common_type` the resolved common field type.
pub open spec fn bundle_matches(
    b: Bundle,
    name: String,
    visibility: String,
    generics: Seq<GenericParam>,
    where_clause: Option<String>,
    emitted: Seq<Annotation>,
    variants: Vec<Variant>,
    common_type: String,
) -> bool {
    &&& b.wrapper.annotations@ == outer_annotations_of(emitted)
    &&& b.wrapper.visibility == visibility
    &&& b.wrapper.name == name
    &&& b.wrapper.generics@ == generics
    &&& b.wrapper.where_clause == where_clause
    &&& b.wrapper.common_field_type == common_type
    &&& b.wrapper.variant_type_name@ == name@ + "Variants"@
    &&& b.wrapper.variant_type_args@ == idents_of(generics)
    &&& b.variant_only.annotations@ == nondoc_annotations_of(emitted)
    &&& b.variant_only.visibility == visibility
    &&& b.variant_only.name@ == name@ + "Variants"@
    &&& b.variant_only.generics@ == generics
    &&& b.variant_only.where_clause == where_clause
    &&& b.variant_only.variants == variants
    &&& b.suite.owner_name == name
    &&& b.suite.generics@ == generics
    &&& b.suite.type_args@ == idents_of(generics)
    &&& b.suite.type_args@ == b.wrapper.variant_type_args@
    &&& b.suite.where_clause == where_clause
    &&& b.suite.common_field_type == common_type
    &&& b.suite.variant_type_name@ == name@ + "Variants"@
    &&& b.suite.operations@ == canonical_operations()
}

/// Split one input declaration around a common field type supplied with the
/// invocation itself, and emit the bundle. The only failure is an input that
/// is not enum-shaped, reported at the declaration name.
pub fn transform_with_argument(input: InputDeclaration, common_type: String) -> (r: Result<
    Bundle,
    Diagnostic,
>)
    ensures
        match r {
            Ok(b) => {
                &&& input.body is Enum
                &&& bundle_matches(
                    b,
                    input.name,
                    input.visibility,
                    input.generics@,
                    input.where_clause,
                    input.annotations@,
                    body_variants(input.body),
                    common_type,
                )
            },
            Err(d) => {
                &&& !(input.body is Enum)
                &&& d.kind == DiagnosticKind::ShapeMismatch
                &&& d.anchor == Anchor::DeclarationName
            },
        },
{
    let InputDeclaration { name, visibility, generics, where_clause, annotations, body } = input;
    let variants = match body {
        DeclBody::Enum { variants } => variants,
        _ => {
            return Err(
                Diagnostic {
                    kind: DiagnosticKind::ShapeMismatch,
                    anchor: Anchor::DeclarationName,
                },
            );
        },
    };
    let variants_name = variants_type_name(&name);
    let args = usage_args(&generics);
    let wrapper = WrapperDecl {
        annotations: filter_outer(&annotations),
        visibility: visibility.clone(),
        name: name.clone(),
        generics: duplicate_generics(&generics),
        where_clause: duplicate_clause(&where_clause),
        common_field_type: common_type.clone(),
        variant_type_name: variants_name.clone(),
        variant_type_args: duplicate_strings(&args),
    };
    let variant_only = VariantOnlyDecl {
        annotations: filter_outer_nondoc(&annotations),
        visibility: visibility.clone(),
        name: variants_name.clone(),
        generics: duplicate_generics(&generics),
        where_clause: duplicate_clause(&where_clause),
        variants,
    };
    let suite = OperationSuite {
        owner_name: name,
        generics,
        type_args: args,
        where_clause,
        common_field_type: common_type,
        variant_type_name: variants_name,
        operations: operation_list(),
    };
    Ok(Bundle { wrapper, variant_only, suite })
}

/// Resolve the common field type from the input's own annotations, then split
/// and emit. Resolution is a hard prerequisite: the emitter never runs, and
/// the shape of the input is never judged, while the configuration is
/// invalid. The configuration annotation is consumed; every other annotation
/// passes through to emission.
pub fn transform_with_annotations(input: InputDeclaration) -> (r: Result<Bundle, Vec<Diagnostic>>)
    ensures
        match r {
            Ok(b) => {
                &&& !resolution_fails(input.annotations@)
                &&& input.body is Enum
                &&& bundle_matches(
                    b,
                    input.name,
                    input.visibility,
                    input.generics@,
                    input.where_clause,
                    passthrough_of(input.annotations@),
                    body_variants(input.body),
                    config_value(wellformed_configs_of(input.annotations@)[0]),
                )
            },
            Err(ds) => {
                &&& resolution_fails(input.annotations@) || !(input.body is Enum)
                &&& resolution_fails(input.annotations@) ==> ds@ == resolver_errors(
                    input.annotations@,
                )
                &&& !resolution_fails(input.annotations@) ==> ds@ == seq![
                    (Diagnostic {
                        kind: DiagnosticKind::ShapeMismatch,
                        anchor: Anchor::DeclarationName,
                    }),
                ]
            },
        },
{
    let InputDeclaration { name, visibility, generics, where_clause, annotations, body } = input;
    match resolve_configuration(&annotations) {
        Err(ds) => Err(ds),
        Ok(cfg) => {
            let rebuilt = InputDeclaration {
                name,
                visibility,
                generics,
                where_clause,
                annotations: cfg.others,
                body,
            };
            match transform_with_argument(rebuilt, cfg.common_type) {
                Ok(b) => Ok(b),
                Err(d) => {
                    let mut ds: Vec<Diagnostic> = Vec::new();
                    ds.push(d);
                    proof {
                        assert(ds@ =~= seq![
                            (Diagnostic {
                                kind: DiagnosticKind::ShapeMismatch,
                                anchor: Anchor::DeclarationName,
                            }),
                        ]);
                    }
                    Err(ds)
                },
            }
        },
    }
}

} // verus!
