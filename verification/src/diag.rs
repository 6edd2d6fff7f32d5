//! Diagnostics: the kinds of semantic violation the validator can report,
//! and the single-use context that accumulates them during one pass.

use crate::schema::Location;
use vstd::prelude::*;

verus! {

/// The distinct kinds of semantic violation, one per rule of the boxed/bare
/// and size-hint rule sets. A violation is always recorded as data, never
/// raised as a control-flow error.
#[derive(Clone, Copy, Debug, PartialEq, Eq, Structural)]
pub enum DiagnosticKind {
    /// An enum container carries a constructor identifier.
    ContainerIdNotAllowed,
    /// A boxed enum declares no variants.
    EmptyBoxedEnum,
    /// A variant of a boxed enum lacks a constructor identifier.
    MissingVariantId,
    /// A variant of a bare enum carries a constructor identifier.
    UnexpectedVariantId,
    /// A boxed struct lacks a constructor identifier.
    MissingStructId,
    /// A bare struct carries a constructor identifier.
    UnexpectedStructId,
    /// An explicit size hint is below the minimum atomic unit of four bytes.
    SizeHintTooSmall,
    /// An explicit size hint of at least four bytes is not word-aligned.
    SizeHintMisaligned,
}

impl DiagnosticKind {
    /// The message rendered to the user for this kind of violation.
    pub open spec fn spec_message(self) -> Seq<char> {
        match self {
            DiagnosticKind::ContainerIdNotAllowed => "identifier not allowed on an enum container"@,
            DiagnosticKind::EmptyBoxedEnum => "boxed enum must declare at least one variant"@,
            DiagnosticKind::MissingVariantId => "constructor identifier required for boxed enum variant"@,
            DiagnosticKind::UnexpectedVariantId => "constructor identifier not allowed for bare enum variant"@,
            DiagnosticKind::MissingStructId => "constructor identifier required for boxed struct"@,
            DiagnosticKind::UnexpectedStructId => "constructor identifier requires boxed representation"@,
            DiagnosticKind::SizeHintTooSmall => "size hint is too small"@,
            DiagnosticKind::SizeHintMisaligned => "size hint must be aligned to 4 bytes"@,
        }
    }

    /// Renders the message for this kind of violation.
    pub fn message(&self) -> (msg: String)
        ensures
            msg@ == self.spec_message(),
    {
        match self {
            DiagnosticKind::ContainerIdNotAllowed => "identifier not allowed on an enum container".to_owned(),
            DiagnosticKind::EmptyBoxedEnum => "boxed enum must declare at least one variant".to_owned(),
            DiagnosticKind::MissingVariantId => "constructor identifier required for boxed enum variant".to_owned(),
            DiagnosticKind::UnexpectedVariantId => "constructor identifier not allowed for bare enum variant".to_owned(),
            DiagnosticKind::MissingStructId => "constructor identifier required for boxed struct".to_owned(),
            DiagnosticKind::UnexpectedStructId => "constructor identifier requires boxed representation".to_owned(),
            DiagnosticKind::SizeHintTooSmall => "size hint is too small".to_owned(),
            DiagnosticKind::SizeHintMisaligned => "size hint must be aligned to 4 bytes".to_owned(),
        }
    }
}

/// One reported violation: where it was found and which rule it breaks.
/// Immutable once created.
#[derive(Clone, Copy, Debug, PartialEq, Eq, Structural)]
pub struct Diagnostic {
    pub location: Location,
    pub kind: DiagnosticKind,
}

/// Accumulates every violation found during one validation pass, in
/// insertion order, without deduplication. One context is created fresh per
/// validation run, written only by the validator, and consumed exactly once
/// by the caller.
pub struct Ctxt {
    diagnostics: Vec<Diagnostic>,
}

impl View for Ctxt {
    type V = Seq<Diagnostic>;

    closed spec fn view(&self) -> Seq<Diagnostic> {
        self.diagnostics@
    }
}

impl Ctxt {
    /// A fresh context with no diagnostics recorded.
    pub fn new() -> (cx: Ctxt)
        ensures
            cx@ == Seq::<Diagnostic>::empty(),
    {
        Ctxt { diagnostics: Vec::new() }
    }

    /// Appends one diagnostic; never overwrites or merges earlier ones.
    pub fn record(&mut self, location: Location, kind: DiagnosticKind)
        ensures
            final(self)@ == old(self)@.push((Diagnostic { location, kind })),
    {
        self.diagnostics.push(Diagnostic { location, kind });
    }

    /// Whether no diagnostic has been recorded; the signal that permits
    /// code generation to proceed.
    pub fn is_clean(&self) -> (clean: bool)
        ensures
            clean <==> self@.len() == 0,
    {
        self.diagnostics.len() == 0
    }

    /// The diagnostics recorded so far, in insertion order.
    pub fn diagnostics(&self) -> (diags: &Vec<Diagnostic>)
        ensures
            diags@ == self@,
    {
        &self.diagnostics
    }

    /// Consumes the context, handing its diagnostics to the caller for
    /// reporting.
    pub fn into_diagnostics(self) -> (diags: Vec<Diagnostic>)
        ensures
            diags@ == self@,
    {
        self.diagnostics
    }
}

} // verus!
