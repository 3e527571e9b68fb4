//! The declaration model: the structured form of one parsed input declaration
//! as the transform sees it, and the pieces it is made of.
//!
//! Every leaf the transform does not interpret — a type reference, a bound
//! list, a visibility marker, an annotation argument — is held as opaque token
//! text in a `String` and re-emitted verbatim.

use vstd::prelude::*;

verus! {

/// One generic parameter of the input declaration: its identifier and, where
/// the author wrote one, the bound list that follows the `:`.
///
/// The declared form of the parameter is `ident: bounds` (or `ident` alone);
/// the usage form, for every place the generated types are referenced rather
/// than declared, is `ident` with the bounds stripped.
#[derive(Debug, PartialEq, Eq, Clone)]
pub struct GenericParam {
    pub ident: String,
    pub bounds: Option<String>,
}

/// The shape of one annotation attached to the input declaration.
#[derive(Debug, PartialEq, Eq, Clone)]
pub enum AnnotationShape {
    /// A bare path with no argument: `key`.
    Path,
    /// A parenthesized argument list: `key(args)`, with the argument tokens
    /// kept verbatim.
    List { args: String },
    /// A key/value pair: `key = value`, with the value tokens kept verbatim.
    /// `value_is_type_path` records whether the host parser recognized the
    /// value as a bare type-path expression, the only value shape the
    /// configuration accepts.
    NameValue { value: String, value_is_type_path: bool },
}

/// One annotation attached to the input declaration. `outer` distinguishes
/// annotations written on the declaration from inner ones; only outer
/// annotations take part in configuration resolution and re-emission.
#[derive(Debug, PartialEq, Eq, Clone)]
pub struct Annotation {
    pub outer: bool,
    pub key: String,
    pub shape: AnnotationShape,
}

/// One field of a named-field variant.
#[derive(Debug, PartialEq, Eq, Clone)]
pub struct NamedField {
    pub name: String,
    pub ty: String,
}

/// The body of one variant: empty, positional fields, or named fields. Field
/// types are opaque token text; the transform re-emits them as a group and
/// never inspects them.
#[derive(Debug, PartialEq, Eq, Clone)]
pub enum VariantBody {
    Empty,
    Positional { types: Vec<String> },
    Named { fields: Vec<NamedField> },
}

/// One variant of the input enum.
#[derive(Debug, PartialEq, Eq, Clone)]
pub struct Variant {
    pub name: String,
    pub body: VariantBody,
}

/// The body of the input declaration. Only enum-shaped bodies can be split;
/// the other shapes exist so the shape guard has something to reject.
#[derive(Debug, PartialEq, Eq, Clone)]
pub enum DeclBody {
    Enum { variants: Vec<Variant> },
    Struct,
    Union,
}

/// The author's single input declaration, fully parsed by the host toolchain
/// and handed to the transform as immutable input.
#[derive(Debug, PartialEq, Eq, Clone)]
pub struct InputDeclaration {
    pub name: String,
    pub visibility: String,
    pub generics: Vec<GenericParam>,
    pub where_clause: Option<String>,
    pub annotations: Vec<Annotation>,
    pub body: DeclBody,
}

/// The key under which the configuration annotation is recognized.
pub open spec fn spec_config_key() -> Seq<char> {
    "common_data_type"@
}

/// The key under which documentation annotations are recognized.
pub open spec fn spec_doc_key() -> Seq<char> {
    "doc"@
}

/// An annotation is a configuration candidate when it is outer and carries the
/// reserved configuration key, whatever its shape.
pub open spec fn is_config_candidate(a: Annotation) -> bool {
    a.outer && a.key@ == spec_config_key()
}

/// A configuration candidate is well formed when its value is written as
/// `key = value` with a bare type-path value.
pub open spec fn is_wellformed_config(a: Annotation) -> bool {
    is_config_candidate(a) && (a.shape matches AnnotationShape::NameValue {
        value_is_type_path: true,
        ..
    })
}

/// A configuration candidate with any other shape is malformed.
pub open spec fn is_malformed_config(a: Annotation) -> bool {
    is_config_candidate(a) && !is_wellformed_config(a)
}

/// An annotation is documentation when it carries the documentation key.
pub open spec fn is_doc(a: Annotation) -> bool {
    a.key@ == spec_doc_key()
}

/// The value tokens of a `key = value` annotation.
pub open spec fn config_value(a: Annotation) -> String {
    match a.shape {
        AnnotationShape::NameValue { value, .. } => value,
        _ => arbitrary(),
    }
}

impl GenericParam {
    /// An exact copy of this parameter.
    pub fn duplicate(&self) -> (r: GenericParam)
        ensures
            r == *self,
    {
        GenericParam {
            ident: self.ident.clone(),
            bounds: match &self.bounds {
                Some(b) => Some(b.clone()),
                None => None,
            },
        }
    }
}

impl Annotation {
    /// An exact copy of this annotation.
    pub fn duplicate(&self) -> (r: Annotation)
        ensures
            r == *self,
    {
        Annotation {
            outer: self.outer,
            key: self.key.clone(),
            shape: match &self.shape {
                AnnotationShape::Path => AnnotationShape::Path,
                AnnotationShape::List { args } => AnnotationShape::List { args: args.clone() },
                AnnotationShape::NameValue { value, value_is_type_path } => (
                AnnotationShape::NameValue {
                    value: value.clone(),
                    value_is_type_path: *value_is_type_path,
                }),
            },
        }
    }
}

/// An exact copy of a generic parameter list, element for element.
pub fn duplicate_generics(params: &Vec<GenericParam>) -> (r: Vec<GenericParam>)
    ensures
        r@ == params@,
{
    let mut r: Vec<GenericParam> = Vec::new();
    let mut i: usize = 0;
    while i < params.len()
        invariant
            i <= params.len(),
            r@ =~= params@.take(i as int),
        decreases params.len() - i,
    {
        r.push(params[i].duplicate());
        i = i + 1;
    }
    proof {
        assert(params@.take(params@.len() as int) =~= params@);
    }
    r
}

/// An exact copy of an optional token-text clause.
pub fn duplicate_clause(clause: &Option<String>) -> (r: Option<String>)
    ensures
        r == *clause,
{
    match clause {
        Some(c) => Some(c.clone()),
        None => None,
    }
}

} // verus!
