//! The guarantees of the transform that relate several of its pieces, stated
//! and proved once over the specification functions the contracts use.

use vstd::prelude::*;
use crate::decl::{Annotation, GenericParam, Variant, is_config_candidate, is_doc};
use crate::emit::{bundle_matches, idents_of, nondoc_annotations_of, outer_annotations_of};
use crate::output::{Bundle, Operation, canonical_operations, spec_operation_name};
use crate::resolve::passthrough_of;

verus! {

/// Round-trip structural fidelity: a successfully emitted bundle carries the
/// input's variant list into the variants-only declaration unchanged — the
/// same number of variants, in the same order, each with its original name
/// and its original body.
pub proof fn lemma_variant_fidelity(
    b: Bundle,
    name: String,
    visibility: String,
    generics: Seq<GenericParam>,
    where_clause: Option<String>,
    emitted: Seq<Annotation>,
    variants: Vec<Variant>,
    common_type: String,
)
    requires
        bundle_matches(b, name, visibility, generics, where_clause, emitted, variants, common_type),
    ensures
        b.variant_only.variants@.len() == variants@.len(),
        forall|i: int|
            0 <= i < variants@.len() ==> b.variant_only.variants@[i] == variants@[i],
        forall|i: int|
            0 <= i < variants@.len() ==> #[trigger] b.variant_only.variants@[i].name
                == variants@[i].name && b.variant_only.variants@[i].body == variants@[i].body,
{
}

/// Generics fidelity: both generated declarations and the operation suite
/// declare exactly the input's generic parameter list, bounds kept, and every
/// place the generated types are referenced uses the same bounds-stripped
/// identifier list, in the original order.
pub proof fn lemma_generics_fidelity(
    b: Bundle,
    name: String,
    visibility: String,
    generics: Seq<GenericParam>,
    where_clause: Option<String>,
    emitted: Seq<Annotation>,
    variants: Vec<Variant>,
    common_type: String,
)
    requires
        bundle_matches(b, name, visibility, generics, where_clause, emitted, variants, common_type),
    ensures
        b.wrapper.generics@ == generics,
        b.variant_only.generics@ == generics,
        b.suite.generics@ == generics,
        b.wrapper.variant_type_args@.len() == generics.len(),
        forall|i: int|
            0 <= i < generics.len() ==> #[trigger] b.wrapper.variant_type_args@[i]
                == generics[i].ident,
        b.suite.type_args@ == b.wrapper.variant_type_args@,
        b.wrapper.where_clause == where_clause,
        b.variant_only.where_clause == where_clause,
        b.suite.where_clause == where_clause,
{
    assert forall|i: int| 0 <= i < generics.len() implies #[trigger] b.wrapper.variant_type_args@[i]
        == generics[i].ident by {
        assert(idents_of(generics)[i] == generics[i].ident);
    }
}

/// Every annotation the wrapper declaration re-emits is outer, and every
/// annotation the variants-only declaration re-emits is outer and is not
/// documentation.
pub proof fn lemma_emitted_annotations_shape(s: Seq<Annotation>)
    ensures
        forall|j: int|
            0 <= j < outer_annotations_of(s).len() ==> (#[trigger] outer_annotations_of(s)[j]).outer,
        forall|j: int|
            0 <= j < nondoc_annotations_of(s).len() ==> (#[trigger] nondoc_annotations_of(
                s,
            )[j]).outer && !is_doc(nondoc_annotations_of(s)[j]),
        forall|j: int|
            0 <= j < outer_annotations_of(s).len() ==> s.contains(
                #[trigger] outer_annotations_of(s)[j],
            ),
        forall|j: int|
            0 <= j < nondoc_annotations_of(s).len() ==> s.contains(
                #[trigger] nondoc_annotations_of(s)[j],
            ),
    decreases s.len(),
{
    if s.len() == 0 {
    } else {
        lemma_emitted_annotations_shape(s.drop_last());
        assert forall|j: int| 0 <= j < outer_annotations_of(s).len() implies s.contains(
            #[trigger] outer_annotations_of(s)[j],
        ) by {
            let prefix = outer_annotations_of(s.drop_last());
            if j < prefix.len() {
                assert(outer_annotations_of(s)[j] == prefix[j]);
                let k = choose|k: int|
                    0 <= k < s.drop_last().len() && s.drop_last()[k] == prefix[j];
                assert(s[k] == prefix[j]);
            } else {
                assert(outer_annotations_of(s)[j] == s.last());
            }
        }
        assert forall|j: int| 0 <= j < nondoc_annotations_of(s).len() implies s.contains(
            #[trigger] nondoc_annotations_of(s)[j],
        ) by {
            let prefix = nondoc_annotations_of(s.drop_last());
            if j < prefix.len() {
                assert(nondoc_annotations_of(s)[j] == prefix[j]);
                let k = choose|k: int|
                    0 <= k < s.drop_last().len() && s.drop_last()[k] == prefix[j];
                assert(s[k] == prefix[j]);
            } else {
                assert(nondoc_annotations_of(s)[j] == s.last());
            }
        }
    }
}

/// Documentation placement: an outer annotation of the emitted list appears
/// on the wrapper declaration; when it is not documentation it also appears
/// on the variants-only declaration; when it is documentation it never does.
pub proof fn lemma_documentation_placement(s: Seq<Annotation>, i: int)
    requires
        0 <= i < s.len(),
        s[i].outer,
    ensures
        outer_annotations_of(s).contains(s[i]),
        !is_doc(s[i]) ==> nondoc_annotations_of(s).contains(s[i]),
        is_doc(s[i]) ==> !nondoc_annotations_of(s).contains(s[i]),
    decreases s.len(),
{
    lemma_emitted_annotations_shape(s);
    if i == s.len() - 1 {
        assert(outer_annotations_of(s).last() == s[i]);
        assert(outer_annotations_of(s).contains(s[i]));
        if !is_doc(s[i]) {
            assert(nondoc_annotations_of(s).last() == s[i]);
            assert(nondoc_annotations_of(s).contains(s[i]));
        }
    } else {
        lemma_documentation_placement(s.drop_last(), i);
        assert(s.drop_last()[i] == s[i]);
        let prefix = outer_annotations_of(s.drop_last());
        let k = choose|k: int| 0 <= k < prefix.len() && prefix[k] == s[i];
        assert(outer_annotations_of(s)[k] == s[i]);
        if !is_doc(s[i]) {
            let prefix2 = nondoc_annotations_of(s.drop_last());
            let k2 = choose|k2: int| 0 <= k2 < prefix2.len() && prefix2[k2] == s[i];
            assert(nondoc_annotations_of(s)[k2] == s[i]);
        }
    }
}

/// The configuration is consumed, never re-emitted: no configuration
/// candidate survives the resolver's pass-through list, and so none appears
/// on either generated declaration.
pub proof fn lemma_configuration_consumed(s: Seq<Annotation>)
    ensures
        forall|j: int|
            0 <= j < passthrough_of(s).len() ==> !is_config_candidate(
                #[trigger] passthrough_of(s)[j],
            ),
        forall|j: int|
            0 <= j < outer_annotations_of(passthrough_of(s)).len() ==> !is_config_candidate(
                #[trigger] outer_annotations_of(passthrough_of(s))[j],
            ),
        forall|j: int|
            0 <= j < nondoc_annotations_of(passthrough_of(s)).len() ==> !is_config_candidate(
                #[trigger] nondoc_annotations_of(passthrough_of(s))[j],
            ),
    decreases s.len(),
{
    if s.len() == 0 {
    } else {
        lemma_configuration_consumed(s.drop_last());
        let prefix = passthrough_of(s.drop_last());
        assert forall|j: int| 0 <= j < passthrough_of(s).len() implies !is_config_candidate(
            #[trigger] passthrough_of(s)[j],
        ) by {
            if j < prefix.len() {
                assert(passthrough_of(s)[j] == prefix[j]);
            } else {
                assert(passthrough_of(s)[j] == s.last());
            }
        }
    }
    let p = passthrough_of(s);
    lemma_emitted_annotations_shape(p);
    assert forall|j: int| 0 <= j < outer_annotations_of(p).len() implies !is_config_candidate(
        #[trigger] outer_annotations_of(p)[j],
    ) by {
        let a = outer_annotations_of(p)[j];
        assert(p.contains(a));
        let k = choose|k: int| 0 <= k < p.len() && p[k] == a;
        assert(!is_config_candidate(p[k]));
    }
    assert forall|j: int| 0 <= j < nondoc_annotations_of(p).len() implies !is_config_candidate(
        #[trigger] nondoc_annotations_of(p)[j],
    ) by {
        let a = nondoc_annotations_of(p)[j];
        assert(p.contains(a));
        let k = choose|k: int| 0 <= k < p.len() && p[k] == a;
        assert(!is_config_candidate(p[k]));
    }
}

/// Operation completeness: the suite every successful emission carries holds
/// exactly eleven operations, no two of them the same, and no two of them
/// emitted under the same name.
pub proof fn lemma_operation_suite_complete()
    ensures
        canonical_operations().len() == 11,
        forall|i: int, j: int|
            0 <= i < j < canonical_operations().len() ==> canonical_operations()[i]
                != canonical_operations()[j],
        forall|a: Operation, b: Operation|
            a != b ==> spec_operation_name(a) != spec_operation_name(b),
{
    reveal_strlit("new");
    reveal_strlit("common");
    reveal_strlit("common_mut");
    reveal_strlit("set_common");
    reveal_strlit("variant");
    reveal_strlit("variant_mut");
    reveal_strlit("set_variant");
    reveal_strlit("as_ref_mut");
    reveal_strlit("as_ref");
    reveal_strlit("deref");
    reveal_strlit("deref_mut");
    assert("new"@.len() == 3 && "common"@.len() == 6 && "common_mut"@.len() == 10);
    assert("set_common"@.len() == 10 && "variant"@.len() == 7 && "variant_mut"@.len() == 11);
    assert("set_variant"@.len() == 11 && "as_ref_mut"@.len() == 10 && "as_ref"@.len() == 6);
    assert("deref"@.len() == 5 && "deref_mut"@.len() == 9);
    assert("common"@[0] == 'c' && "as_ref"@[0] == 'a');
    assert("common_mut"@[0] == 'c' && "set_common"@[0] == 's' && "as_ref_mut"@[0] == 'a');
    assert("variant_mut"@[0] == 'v' && "set_variant"@[0] == 's');
    assert forall|a: Operation, b: Operation| a != b implies spec_operation_name(a)
        != spec_operation_name(b) by {
        let na = spec_operation_name(a);
        let nb = spec_operation_name(b);
        if na == nb {
            match a {
                Operation::New => assert(b is New),
                Operation::CommonRef => assert(b is CommonRef),
                Operation::CommonMut => assert(b is CommonMut),
                Operation::SetCommon => assert(b is SetCommon),
                Operation::VariantRef => assert(b is VariantRef),
                Operation::VariantMut => assert(b is VariantMut),
                Operation::SetVariant => assert(b is SetVariant),
                Operation::VariantMutAlias => assert(b is VariantMutAlias),
                Operation::AsVariantRef => assert(b is AsVariantRef),
                Operation::DerefVariant => assert(b is DerefVariant),
                Operation::DerefVariantMut => assert(b is DerefVariantMut),
            }
        }
    }
}

} // verus!
