//! Configuration resolution: finding the one `common_data_type = <Type>`
//! annotation among the input's annotations, or failing with the exact
//! diagnostics the arity rules call for.
//!
//! Scanning is not fail-fast: every malformed configuration annotation is
//! reported, each at its own position, before the invocation is abandoned.

use vstd::prelude::*;
use vstd::pervasive::unreached;
use vstd::string::StringExecFns;
use crate::decl::{Annotation, AnnotationShape, config_value, is_config_candidate,
    is_malformed_config, is_wellformed_config, spec_config_key};
use crate::diag::{Anchor, Diagnostic, DiagnosticKind};

verus! {

/// A successfully resolved configuration: the common field's type, and every
/// annotation that was not a configuration candidate, in input order, to be
/// passed through to the generated declarations.
#[derive(Debug, PartialEq, Eq, Clone)]
pub struct ResolvedConfig {
    pub common_type: String,
    pub others: Vec<Annotation>,
}

/// The annotations that are not configuration candidates, in input order.
pub open spec fn passthrough_of(s: Seq<Annotation>) -> Seq<Annotation>
    decreases s.len(),
{
    if s.len() == 0 {
        Seq::empty()
    } else {
        passthrough_of(s.drop_last()) + if !is_config_candidate(s.last()) {
            seq![s.last()]
        } else {
            Seq::empty()
        }
    }
}

/// The well-formed configuration candidates, in input order.
pub open spec fn wellformed_configs_of(s: Seq<Annotation>) -> Seq<Annotation>
    decreases s.len(),
{
    if s.len() == 0 {
        Seq::empty()
    } else {
        wellformed_configs_of(s.drop_last()) + if is_wellformed_config(s.last()) {
            seq![s.last()]
        } else {
            Seq::empty()
        }
    }
}

/// One malformed-configuration diagnostic per malformed candidate, each
/// anchored at that candidate's position, in input order.
pub open spec fn malformed_diags_of(s: Seq<Annotation>) -> Seq<Diagnostic>
    decreases s.len(),
{
    if s.len() == 0 {
        Seq::empty()
    } else {
        malformed_diags_of(s.drop_last()) + if is_malformed_config(s.last()) {
            seq![
                (Diagnostic {
                    kind: DiagnosticKind::ConfigurationMalformed,
                    anchor: Anchor::AnnotationAt { index: (s.len() - 1) as usize },
                }),
            ]
        } else {
            Seq::empty()
        }
    }
}

/// Resolution fails when any candidate is malformed, or when the number of
/// well-formed candidates is not exactly one.
pub open spec fn resolution_fails(s: Seq<Annotation>) -> bool {
    malformed_diags_of(s).len() != 0 || wellformed_configs_of(s).len() != 1
}

/// The diagnostics a failed resolution reports: every malformed candidate at
/// its own position, then ambiguity at the declaration name when two or more
/// well-formed candidates exist, or a missing-configuration diagnostic at the
/// declaration name when no candidate of either kind exists.
pub open spec fn resolver_errors(s: Seq<Annotation>) -> Seq<Diagnostic> {
    let m = malformed_diags_of(s);
    let w = wellformed_configs_of(s);
    if w.len() >= 2 {
        m + seq![
            (Diagnostic {
                kind: DiagnosticKind::ConfigurationAmbiguous,
                anchor: Anchor::DeclarationName,
            }),
        ]
    } else if w.len() == 0 && m.len() == 0 {
        seq![
            (Diagnostic {
                kind: DiagnosticKind::ConfigurationMissing,
                anchor: Anchor::DeclarationName,
            }),
        ]
    } else {
        m
    }
}

/// Produce exactly one common field type from the input's annotations, or the
/// diagnostics that say why none could be. On success the resolved type is
/// the value of the single well-formed configuration annotation, and every
/// non-candidate annotation passes through unchanged, in order.
pub fn resolve_configuration(annotations: &Vec<Annotation>) -> (r: Result<
    ResolvedConfig,
    Vec<Diagnostic>,
>)
    ensures
        match r {
            Ok(cfg) => {
                &&& !resolution_fails(annotations@)
                &&& cfg.common_type == config_value(wellformed_configs_of(annotations@)[0])
                &&& cfg.others@ == passthrough_of(annotations@)
            },
            Err(ds) => {
                &&& resolution_fails(annotations@)
                &&& ds@ == resolver_errors(annotations@)
            },
        },
{
    let config_key = String::from_str("common_data_type");
    let n = annotations.len();
    let mut others: Vec<Annotation> = Vec::new();
    let mut malformed: Vec<Diagnostic> = Vec::new();
    let mut count: usize = 0;
    let mut found: Option<String> = None;
    let mut i: usize = 0;
    while i < n
        invariant
            n == annotations@.len(),
            i <= n,
            config_key@ == spec_config_key(),
            others@ =~= passthrough_of(annotations@.take(i as int)),
            malformed@ =~= malformed_diags_of(annotations@.take(i as int)),
            count == wellformed_configs_of(annotations@.take(i as int)).len(),
            count <= i,
            count > 0 ==> (match found {
                Some(v) => v == config_value(wellformed_configs_of(annotations@.take(i as int))[0]),
                None => false,
            }),
            count == 0 ==> found is None,
        decreases n - i,
    {
        let a = &annotations[i];
        proof {
            assert(annotations@.take(i + 1).drop_last() =~= annotations@.take(i as int));
            assert(annotations@.take(i + 1).last() == annotations@[i as int]);
        }
        let candidate = a.outer && a.key == config_key;
        if candidate {
            match &a.shape {
                AnnotationShape::NameValue { value, value_is_type_path } => {
                    if *value_is_type_path {
                        if count == 0 {
                            found = Some(value.clone());
                        }
                        count = count + 1;
                    } else {
                        malformed.push(
                            Diagnostic {
                                kind: DiagnosticKind::ConfigurationMalformed,
                                anchor: Anchor::AnnotationAt { index: i },
                            },
                        );
                    }
                },
                _ => {
                    malformed.push(
                        Diagnostic {
                            kind: DiagnosticKind::ConfigurationMalformed,
                            anchor: Anchor::AnnotationAt { index: i },
                        },
                    );
                },
            }
        } else {
            others.push(a.duplicate());
        }
        i = i + 1;
    }
    proof {
        assert(annotations@.take(n as int) =~= annotations@);
    }
    if malformed.len() == 0 && count == 1 {
        match found {
            Some(common_type) => Ok(ResolvedConfig { common_type, others }),
            None => unreached(),
        }
    } else {
        let mut ds = malformed;
        if count >= 2 {
            ds.push(
                Diagnostic {
                    kind: DiagnosticKind::ConfigurationAmbiguous,
                    anchor: Anchor::DeclarationName,
                },
            );
        } else if count == 0 && ds.len() == 0 {
            ds.push(
                Diagnostic {
                    kind: DiagnosticKind::ConfigurationMissing,
                    anchor: Anchor::DeclarationName,
                },
            );
        }
        proof {
            assert(ds@ =~= resolver_errors(annotations@));
        }
        Err(ds)
    }
}

} // verus!
