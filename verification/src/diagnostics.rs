use vstd::prelude::*;

use crate::span::Span;
use crate::types::TypeInfo;
use crate::types::spec_rendered;

verus! {

/// A hint attached to a type-mismatch diagnostic, explaining where the
/// expected type came from. The dispatcher chooses the hint: none for a bare
/// expression statement, an explanatory one for an implicit return checked
/// against the enclosing block's type.
#[derive(Clone, Copy, PartialEq, Eq, Structural, Debug)]
pub enum Hint {
    NoHint,
    ImplicitReturnMustMatchBlock,
}

/// The prose attached to a hint when a diagnostic is displayed.
pub fn hint_text(h: Hint) -> (r: String)
    ensures
        h is ImplicitReturnMustMatchBlock ==> r@ == "Implicit return must match up with block's type."@,
        h is NoHint ==> r@ == ""@,
{
    match h {
        Hint::NoHint => "".to_owned(),
        Hint::ImplicitReturnMustMatchBlock => "Implicit return must match up with block's type.".to_owned(),
    }
}

/// An error diagnostic. Identifiers are interned symbols; every variant
/// carries the span of the construct it points at.
#[derive(Clone, Copy, PartialEq, Eq, Structural, Debug)]
pub enum CompileError {
    /// No module stands at the looked-up path.
    ModuleNotFound { span: Span },
    /// The named item is not bound where it was looked up.
    SymbolNotFound { name: u64, span: Span },
    /// The name is bound, but to a module, where a value was needed.
    NotAValue { name: u64, span: Span },
    /// The path's final segment names no enum in its containing module.
    EnumNotFound { name: u64, span: Span },
    /// The enum exists but has no variant of the requested name.
    VariantNotFound { enum_name: u64, variant: u64, span: Span },
    /// The expression's type differs from the context's expectation.
    TypeMismatch { expected: TypeInfo, found: TypeInfo, hint: Hint, span: Span },
}

/// A warning diagnostic: the value of a bare expression statement has a type
/// that should not be silently discarded. Carries the rendered display form
/// of that type.
#[derive(Clone, PartialEq, Eq, Debug)]
pub struct CompileWarning {
    pub rendered_type: String,
    pub span: Span,
}

/// Proof that an error has been reported: holders of this token know that at
/// least one error diagnostic was emitted somewhere.
#[derive(Clone, Copy, PartialEq, Eq, Structural, Debug)]
pub struct ErrorEmitted {}

/// Accumulates errors and warnings in emission order.
///
/// Besides being written into directly by non-speculative checking, a
/// collector supports speculation: a child collector starts empty and
/// independent, a trial resolution writes into it, and the caller either
/// appends the child's entire contents into the parent — adopting the trial —
/// or simply drops the child, leaving no trace. Nothing is ever merged
/// implicitly, since silent discard of the losing trial is a correctness
/// requirement.
pub struct DiagnosticCollector {
    pub errors: Vec<CompileError>,
    pub warnings: Vec<CompileWarning>,
}

impl DiagnosticCollector {
    /// An empty collector: also how an isolated child collector is created.
    pub fn new() -> (c: DiagnosticCollector)
        ensures
            c.errors@ == Seq::<CompileError>::empty(),
            c.warnings@ == Seq::<CompileWarning>::empty(),
    {
        DiagnosticCollector { errors: Vec::new(), warnings: Vec::new() }
    }

    /// Appends a child's entire contents, in emission order and without
    /// deduplication. The child is consumed: its diagnostics are merged
    /// exactly once or, had it not been passed here, not at all.
    pub fn append(&mut self, child: DiagnosticCollector)
        ensures
            final(self).errors@ == old(self).errors@ + child.errors@,
            final(self).warnings@ == old(self).warnings@ + child.warnings@,
    {
        let mut child = child;
        self.errors.append(&mut child.errors);
        self.warnings.append(&mut child.warnings);
    }

    /// Records an error and hands back the token proving one was emitted.
    pub fn emit_err(&mut self, err: CompileError) -> (e: ErrorEmitted)
        ensures
            final(self).errors@ == old(self).errors@.push(err),
            final(self).warnings@ == old(self).warnings@,
    {
        self.errors.push(err);
        ErrorEmitted {}
    }

    /// Records a warning. Warnings never affect success or failure.
    pub fn emit_warn(&mut self, warning: CompileWarning)
        ensures
            final(self).errors@ == old(self).errors@,
            final(self).warnings@ == old(self).warnings@.push(warning),
    {
        self.warnings.push(warning);
    }
}

/// Holds when `after` extends `before` by exactly one warning about an
/// undiscarded value of type `t` at `span`.
pub open spec fn warning_pushed(
    before: Seq<CompileWarning>,
    after: Seq<CompileWarning>,
    t: TypeInfo,
    span: Span,
) -> bool {
    &&& after.len() == before.len() + 1
    &&& after.drop_last() == before
    &&& after.last().span == span
    &&& after.last().rendered_type@ == spec_rendered(t)
}

} // verus!
