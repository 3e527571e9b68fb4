//! The output model: the two generated declarations and the fixed operation
//! suite that binds them, exactly as the emitter hands them to the host
//! toolchain for rendering — wrapper first, then the variants-only
//! declaration, then the operations.

use vstd::prelude::*;
use vstd::string::StringExecFns;
use crate::decl::{Annotation, GenericParam, Variant};

verus! {

/// The generated wrapper declaration: a struct-shaped type under the original
/// name, holding the common field and the variant payload.
#[derive(Debug, PartialEq, Eq, Clone)]
pub struct WrapperDecl {
    /// Annotations to re-emit, documentation included, in input order.
    pub annotations: Vec<Annotation>,
    pub visibility: String,
    pub name: String,
    /// The original generic parameter list, bounds kept.
    pub generics: Vec<GenericParam>,
    pub where_clause: Option<String>,
    /// The type of the `common` field, as resolved by the configuration.
    pub common_field_type: String,
    /// The name of the variants-only type the `variant` field refers to.
    pub variant_type_name: String,
    /// The generic arguments the `variant` field applies to that type:
    /// the original parameter identifiers, bounds stripped.
    pub variant_type_args: Vec<String>,
}

/// The generated variants-only declaration: an enum-shaped type holding
/// exactly the original variant list.
#[derive(Debug, PartialEq, Eq, Clone)]
pub struct VariantOnlyDecl {
    /// Annotations to re-emit, documentation excluded, in input order.
    pub annotations: Vec<Annotation>,
    pub visibility: String,
    pub name: String,
    /// The original generic parameter list, bounds kept.
    pub generics: Vec<GenericParam>,
    pub where_clause: Option<String>,
    /// The original variants, unchanged and in order.
    pub variants: Vec<Variant>,
}

/// The operations of the generated suite, in emission order.
#[derive(Debug, PartialEq, Eq, Structural, Clone, Copy)]
pub enum Operation {
    /// `new(common, variant)`: construct a wrapper value.
    New,
    /// `common()`: read-only reference to the common field.
    CommonRef,
    /// `common_mut()`: mutable reference to the common field.
    CommonMut,
    /// `set_common(value)`: replace the common field.
    SetCommon,
    /// `variant()`: read-only reference to the variant payload.
    VariantRef,
    /// `variant_mut()`: mutable reference to the variant payload.
    VariantMut,
    /// `set_variant(value)`: replace the variant payload.
    SetVariant,
    /// `as_ref_mut()`: a separately named mutable reference to the variant
    /// payload, identical in effect to `variant_mut()`; kept for call-site
    /// compatibility.
    VariantMutAlias,
    /// `as_ref()`: view the wrapper read-only as the variant payload.
    AsVariantRef,
    /// `deref()`: transparent read-only forwarding to the variant payload.
    DerefVariant,
    /// `deref_mut()`: transparent mutable forwarding to the variant payload.
    DerefVariantMut,
}

/// The generated operation suite, bound to the wrapper type and parameterized
/// exactly as the generated declarations are.
#[derive(Debug, PartialEq, Eq, Clone)]
pub struct OperationSuite {
    /// The wrapper type the suite is bound to.
    pub owner_name: String,
    /// The original generic parameter list, bounds kept, for the suite's own
    /// parameter list.
    pub generics: Vec<GenericParam>,
    /// The generic arguments used wherever the suite references the generated
    /// types: the original parameter identifiers, bounds stripped.
    pub type_args: Vec<String>,
    pub where_clause: Option<String>,
    pub common_field_type: String,
    pub variant_type_name: String,
    /// The operations, in emission order.
    pub operations: Vec<Operation>,
}

/// Everything one successful invocation produces, in emission order.
#[derive(Debug, PartialEq, Eq, Clone)]
pub struct Bundle {
    pub wrapper: WrapperDecl,
    pub variant_only: VariantOnlyDecl,
    pub suite: OperationSuite,
}

/// The fixed operation suite, in emission order.
pub open spec fn canonical_operations() -> Seq<Operation> {
    seq![
        Operation::New,
        Operation::CommonRef,
        Operation::CommonMut,
        Operation::SetCommon,
        Operation::VariantRef,
        Operation::VariantMut,
        Operation::SetVariant,
        Operation::VariantMutAlias,
        Operation::AsVariantRef,
        Operation::DerefVariant,
        Operation::DerefVariantMut,
    ]
}

/// Build the fixed operation list.
pub fn operation_list() -> (r: Vec<Operation>)
    ensures
        r@ == canonical_operations(),
{
    let mut r: Vec<Operation> = Vec::new();
    r.push(Operation::New);
    r.push(Operation::CommonRef);
    r.push(Operation::CommonMut);
    r.push(Operation::SetCommon);
    r.push(Operation::VariantRef);
    r.push(Operation::VariantMut);
    r.push(Operation::SetVariant);
    r.push(Operation::VariantMutAlias);
    r.push(Operation::AsVariantRef);
    r.push(Operation::DerefVariant);
    r.push(Operation::DerefVariantMut);
    proof {
        assert(r@ =~= canonical_operations());
    }
    r
}

/// The name under which each operation is emitted.
pub open spec fn spec_operation_name(op: Operation) -> Seq<char> {
    match op {
        Operation::New => "new"@,
        Operation::CommonRef => "common"@,
        Operation::CommonMut => "common_mut"@,
        Operation::SetCommon => "set_common"@,
        Operation::VariantRef => "variant"@,
        Operation::VariantMut => "variant_mut"@,
        Operation::SetVariant => "set_variant"@,
        Operation::VariantMutAlias => "as_ref_mut"@,
        Operation::AsVariantRef => "as_ref"@,
        Operation::DerefVariant => "deref"@,
        Operation::DerefVariantMut => "deref_mut"@,
    }
}

/// The name under which an operation is emitted.
pub fn operation_name(op: &Operation) -> (r: String)
    ensures
        r@ == spec_operation_name(*op),
{
    match op {
        Operation::New => String::from_str("new"),
        Operation::CommonRef => String::from_str("common"),
        Operation::CommonMut => String::from_str("common_mut"),
        Operation::SetCommon => String::from_str("set_common"),
        Operation::VariantRef => String::from_str("variant"),
        Operation::VariantMut => String::from_str("variant_mut"),
        Operation::SetVariant => String::from_str("set_variant"),
        Operation::VariantMutAlias => String::from_str("as_ref_mut"),
        Operation::AsVariantRef => String::from_str("as_ref"),
        Operation::DerefVariant => String::from_str("deref"),
        Operation::DerefVariantMut => String::from_str("deref_mut"),
    }
}

} // verus!
