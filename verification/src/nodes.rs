use vstd::prelude::*;

use crate::diagnostics::ErrorEmitted;
use crate::namespace::Namespace;
use crate::span::Span;
use crate::types::TypeInfo;

verus! {

/// Which reading of a `use` statement was requested.
#[derive(Clone, Copy, PartialEq, Eq, Structural, Debug)]
pub enum ImportType {
    /// `use path::*;` — bring everything the target exports into scope.
    Star,
    /// `use path::{self};` — bind the module itself.
    SelfImport,
    /// `use path::name;` — bind the single named item.
    Item { name: u64 },
}

/// A parsed `use` statement. Path segments are interned symbols; a relative
/// path is resolved against the current module before binding.
#[derive(Clone, PartialEq, Eq, Debug)]
pub struct UseStatement {
    pub call_path: Vec<u64>,
    pub import_type: ImportType,
    pub is_absolute: bool,
    pub alias: Option<u64>,
}

/// The mathematical shape of a `use` statement.
#[verifier::ext_equal]
pub ghost struct UseStatementV {
    pub call_path: Seq<u64>,
    pub import_type: ImportType,
    pub is_absolute: bool,
    pub alias: Option<u64>,
}

impl View for UseStatement {
    type V = UseStatementV;

    open spec fn view(&self) -> UseStatementV {
        UseStatementV {
            call_path: self.call_path@,
            import_type: self.import_type,
            is_absolute: self.is_absolute,
            alias: self.alias,
        }
    }
}

/// A parsed expression.
#[derive(Clone, Copy, PartialEq, Eq, Structural, Debug)]
pub enum Expression {
    Literal { value: u64, span: Span },
    UnitLiteral { span: Span },
    BoolLiteral { value: bool, span: Span },
    /// A name to be looked up among the current scope's bindings.
    Variable { name: u64, span: Span },
}

impl Expression {
    /// The span of the construct the expression was parsed from.
    pub open spec fn spec_span(&self) -> Span {
        match self {
            Expression::Literal { span, .. } => *span,
            Expression::UnitLiteral { span } => *span,
            Expression::BoolLiteral { span, .. } => *span,
            Expression::Variable { span, .. } => *span,
        }
    }

    #[verifier::when_used_as_spec(spec_span)]
    pub fn span(&self) -> (s: Span)
        ensures
            s == self.spec_span(),
    {
        match self {
            Expression::Literal { span, .. } => *span,
            Expression::UnitLiteral { span } => *span,
            Expression::BoolLiteral { span, .. } => *span,
            Expression::Variable { span, .. } => *span,
        }
    }
}

/// A parsed declaration: a name bound to the value of an expression.
#[derive(Clone, Copy, PartialEq, Eq, Structural, Debug)]
pub enum Declaration {
    VariableDeclaration { name: u64, body: Expression, span: Span },
}

/// A parsed top-level statement: the closed set of six node kinds the
/// dispatcher routes on.
#[derive(Clone, PartialEq, Eq, Debug)]
pub enum AstNodeContent {
    UseStatement(UseStatement),
    IncludeStatement,
    Declaration(Declaration),
    Expression(Expression),
    ImplicitReturnExpression(Expression),
    /// A placeholder the parser left where it could not recover a statement,
    /// with the spans of the skipped text and the proof that the parse error
    /// was already reported.
    Error { spans: Vec<Span>, err: ErrorEmitted },
}

/// A parsed top-level statement together with its source span.
#[derive(Clone, PartialEq, Eq, Debug)]
pub struct AstNode {
    pub content: AstNodeContent,
    pub span: Span,
}

/// The analyzed counterpart of an expression.
#[derive(Clone, Copy, PartialEq, Eq, Structural, Debug)]
pub enum TyExpressionKind {
    Literal { value: u64 },
    UnitLiteral,
    BoolLiteral { value: bool },
    Variable { name: u64 },
    /// The placeholder for an expression whose checking failed: checking of
    /// sibling nodes continues around it.
    ErrorRecovery,
}

/// A fully analyzed expression: its shape, its resolved type and the span of
/// the construct it came from.
#[derive(Clone, Copy, PartialEq, Eq, Structural, Debug)]
pub struct TyExpression {
    pub kind: TyExpressionKind,
    pub return_type: TypeInfo,
    pub span: Span,
}

impl TyExpression {
    /// The error-marked placeholder expression: checking failed, the failure
    /// was reported, and this node stands in so that siblings can still be
    /// analyzed.
    pub open spec fn spec_error(span: Span) -> TyExpression {
        TyExpression {
            kind: TyExpressionKind::ErrorRecovery,
            return_type: TypeInfo::ErrorRecovery,
            span,
        }
    }

    #[verifier::when_used_as_spec(spec_error)]
    pub fn error(span: Span) -> (r: TyExpression)
        ensures
            r == TyExpression::spec_error(span),
    {
        TyExpression {
            kind: TyExpressionKind::ErrorRecovery,
            return_type: TypeInfo::ErrorRecovery,
            span,
        }
    }
}

/// A fully analyzed declaration: the bound name, the type of its value and
/// the span of the construct it came from.
#[derive(Clone, Copy, PartialEq, Eq, Structural, Debug)]
pub struct TyDeclaration {
    pub name: u64,
    pub ty: TypeInfo,
    pub span: Span,
}

/// The analyzed form of a `use` statement, embedded in the typed node whether
/// or not resolution succeeded: an unresolved import is reported through the
/// diagnostic stream, never through the node's shape.
#[derive(Clone, PartialEq, Eq, Debug)]
pub struct TyUseStatement {
    pub call_path: Vec<u64>,
    pub import_type: ImportType,
    pub is_absolute: bool,
    pub alias: Option<u64>,
}

/// A statement whose effect is on the namespace alone.
#[derive(Clone, PartialEq, Eq, Debug)]
pub enum TySideEffect {
    UseStatement(TyUseStatement),
    IncludeStatement,
}

/// The analyzed counterpart of a parsed statement, one variant per node kind.
#[derive(Clone, PartialEq, Eq, Debug)]
pub enum TyAstNodeContent {
    Declaration(TyDeclaration),
    Expression(TyExpression),
    ImplicitReturnExpression(TyExpression),
    SideEffect(TySideEffect),
    Error { spans: Vec<Span>, err: ErrorEmitted },
}

/// A fully analyzed top-level statement. Its span always equals the span of
/// the raw node it came from.
#[derive(Clone, PartialEq, Eq, Debug)]
pub struct TyAstNode {
    pub content: TyAstNodeContent,
    pub span: Span,
}

/// The shared collaborators threaded through node checking: the namespace and
/// the enclosing block's expected type, which implicit returns are checked
/// against.
pub struct TypeCheckContext {
    pub namespace: Namespace,
    pub type_annotation: TypeInfo,
}

} // verus!
