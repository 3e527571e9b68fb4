//! Structured diagnostics: the failure taxonomy of the transform, each with a
//! source anchor, a fixed primary text and an optional remediation note.
//!
//! The transform never produces partial output: whenever a diagnostic is
//! returned, no declarations are.

use vstd::prelude::*;
use vstd::string::StringExecFns;

verus! {

/// Where a diagnostic points: at the declaration name, or at the annotation
/// with the given position in the input's annotation list.
#[derive(Debug, PartialEq, Eq, Structural, Clone, Copy)]
pub enum Anchor {
    DeclarationName,
    AnnotationAt { index: usize },
}

/// The failure taxonomy of the transform.
#[derive(Debug, PartialEq, Eq, Structural, Clone, Copy)]
pub enum DiagnosticKind {
    /// No well-formed configuration annotation was found.
    ConfigurationMissing,
    /// A configuration-keyed annotation has the wrong shape.
    ConfigurationMalformed,
    /// More than one well-formed configuration annotation was found.
    ConfigurationAmbiguous,
    /// The input declaration is not enum-shaped.
    ShapeMismatch,
}

/// One structured diagnostic: what went wrong and where.
#[derive(Debug, PartialEq, Eq, Structural, Clone, Copy)]
pub struct Diagnostic {
    pub kind: DiagnosticKind,
    pub anchor: Anchor,
}

/// The primary text of each diagnostic kind.
pub open spec fn spec_primary_text(kind: DiagnosticKind) -> Seq<char> {
    match kind {
        DiagnosticKind::ConfigurationMissing => "no common data type attribute found"@,
        DiagnosticKind::ConfigurationMalformed => "expected `common_data_type = <Type>`"@,
        DiagnosticKind::ConfigurationAmbiguous => "more than one common data type attribute"@,
        DiagnosticKind::ShapeMismatch => "This attribute is only applicable for enums"@,
    }
}

/// The remediation note of each diagnostic kind, where one helps.
pub open spec fn spec_remediation(kind: DiagnosticKind) -> Option<Seq<char>> {
    match kind {
        DiagnosticKind::ConfigurationMissing => Some(
            "add a `common_data_type = <Type>` attribute to the enum"@,
        ),
        DiagnosticKind::ConfigurationMalformed => Some(
            "write the common data type as a bare type path"@,
        ),
        DiagnosticKind::ConfigurationAmbiguous => Some(
            "remove all but one `common_data_type` attribute"@,
        ),
        DiagnosticKind::ShapeMismatch => None,
    }
}

impl Diagnostic {
    /// The primary message text of this diagnostic.
    pub fn primary_text(&self) -> (r: String)
        ensures
            r@ == spec_primary_text(self.kind),
    {
        match self.kind {
            DiagnosticKind::ConfigurationMissing => String::from_str(
                "no common data type attribute found",
            ),
            DiagnosticKind::ConfigurationMalformed => String::from_str(
                "expected `common_data_type = <Type>`",
            ),
            DiagnosticKind::ConfigurationAmbiguous => String::from_str(
                "more than one common data type attribute",
            ),
            DiagnosticKind::ShapeMismatch => String::from_str(
                "This attribute is only applicable for enums",
            ),
        }
    }

    /// The remediation note of this diagnostic, where one helps.
    pub fn remediation(&self) -> (r: Option<String>)
        ensures
            match r {
                Some(s) => spec_remediation(self.kind) == Some(s@),
                None => spec_remediation(self.kind) is None,
            },
    {
        match self.kind {
            DiagnosticKind::ConfigurationMissing => Some(
                String::from_str("add a `common_data_type = <Type>` attribute to the enum"),
            ),
            DiagnosticKind::ConfigurationMalformed => Some(
                String::from_str("write the common data type as a bare type path"),
            ),
            DiagnosticKind::ConfigurationAmbiguous => Some(
                String::from_str("remove all but one `common_data_type` attribute"),
            ),
            DiagnosticKind::ShapeMismatch => None,
        }
    }
}

} // verus!
