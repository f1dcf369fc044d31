use vstd::prelude::*;

use crate::diagnostics::CompileError;
use crate::diagnostics::CompileWarning;
use crate::diagnostics::DiagnosticCollector;
use crate::diagnostics::ErrorEmitted;
use crate::diagnostics::Hint;
use crate::diagnostics::warning_pushed;
use crate::namespace::Binding;
use crate::namespace::ItemKind;
use crate::namespace::Namespace;
use crate::namespace::NamespaceV;
use crate::namespace::find_binding;
use crate::namespace::with_bindings;
use crate::nodes::AstNode;
use crate::nodes::AstNodeContent;
use crate::nodes::Declaration;
use crate::nodes::Expression;
use crate::nodes::TyAstNode;
use crate::nodes::TyAstNodeContent;
use crate::nodes::TyDeclaration;
use crate::nodes::TyExpression;
use crate::nodes::TyExpressionKind;
use crate::nodes::TySideEffect;
use crate::nodes::TyUseStatement;
use crate::nodes::TypeCheckContext;
use crate::resolve::copy_segments;
use crate::resolve::import_outcome;
use crate::span::Span;
use crate::types::TypeInfo;
use crate::types::is_discardable;
use crate::types::render_type;
use crate::types::spec_is_discardable;

verus! {

/// The type an expression has on its own, before the context's expectation is
/// taken into account — or the error reported when it has none.
pub open spec fn expr_base(ns: NamespaceV, e: Expression) -> Result<TyExpression, CompileError> {
    match e {
        Expression::Literal { value, span } => Ok(TyExpression {
            kind: TyExpressionKind::Literal { value },
            return_type: TypeInfo::Unsigned64,
            span,
        }),
        Expression::UnitLiteral { span } => Ok(TyExpression {
            kind: TyExpressionKind::UnitLiteral,
            return_type: TypeInfo::Unit,
            span,
        }),
        Expression::BoolLiteral { value, span } => Ok(TyExpression {
            kind: TyExpressionKind::BoolLiteral { value },
            return_type: TypeInfo::Boolean,
            span,
        }),
        Expression::Variable { name, span } => match find_binding(ns.bindings, name) {
            None => Err(CompileError::SymbolNotFound { name, span }),
            Some(b) => match b.item {
                ItemKind::Value { ty } => Ok(TyExpression {
                    kind: TyExpressionKind::Variable { name },
                    return_type: ty,
                    span,
                }),
                ItemKind::EnumVariant { enum_name } => Ok(TyExpression {
                    kind: TyExpressionKind::Variable { name },
                    return_type: TypeInfo::UserEnum { name: enum_name },
                    span,
                }),
                ItemKind::ModuleRef => Err(CompileError::NotAValue { name, span }),
            },
        },
    }
}

/// Checking an expression under a contextual expected type: its own type must
/// match the annotation, unless no expectation was given. A mismatch is
/// reported with the hint explaining where the expectation came from.
pub open spec fn expr_check(
    ns: NamespaceV,
    annotation: TypeInfo,
    hint: Hint,
    e: Expression,
) -> Result<TyExpression, CompileError> {
    match expr_base(ns, e) {
        Err(err) => Err(err),
        Ok(te) => if annotation is Unknown || te.return_type == annotation {
            Ok(te)
        } else {
            Err(CompileError::TypeMismatch {
                expected: annotation,
                found: te.return_type,
                hint,
                span: e.spec_span(),
            })
        },
    }
}

/// The expression type-checker. On failure the one error is written into the
/// live collector and the caller decides how to absorb it; the namespace is
/// read only.
pub fn type_check_expression(
    collector: &mut DiagnosticCollector,
    ns: &Namespace,
    annotation: TypeInfo,
    hint: Hint,
    e: &Expression,
) -> (r: Result<TyExpression, ErrorEmitted>)
    ensures
        ({
            match expr_check(ns@, annotation, hint, *e) {
                Ok(te) => r == Ok::<TyExpression, ErrorEmitted>(te)
                    && final(collector).errors@ == old(collector).errors@,
                Err(err) => r is Err && final(collector).errors@ == old(
                    collector,
                ).errors@.push(err),
            }
        }),
        final(collector).warnings@ == old(collector).warnings@,
{
    let base = match *e {
        Expression::Literal { value, span } => Ok(TyExpression {
            kind: TyExpressionKind::Literal { value },
            return_type: TypeInfo::Unsigned64,
            span,
        }),
        Expression::UnitLiteral { span } => Ok(TyExpression {
            kind: TyExpressionKind::UnitLiteral,
            return_type: TypeInfo::Unit,
            span,
        }),
        Expression::BoolLiteral { value, span } => Ok(TyExpression {
            kind: TyExpressionKind::BoolLiteral { value },
            return_type: TypeInfo::Boolean,
            span,
        }),
        Expression::Variable { name, span } => match ns.lookup_binding(name) {
            None => Err(CompileError::SymbolNotFound { name, span }),
            Some(b) => match b.item {
                ItemKind::Value { ty } => Ok(TyExpression {
                    kind: TyExpressionKind::Variable { name },
                    return_type: ty,
                    span,
                }),
                ItemKind::EnumVariant { enum_name } => Ok(TyExpression {
                    kind: TyExpressionKind::Variable { name },
                    return_type: TypeInfo::UserEnum { name: enum_name },
                    span,
                }),
                ItemKind::ModuleRef => Err(CompileError::NotAValue { name, span }),
            },
        },
    };
    match base {
        Err(err) => {
            let e = collector.emit_err(err);
            Err(e)
        },
        Ok(te) => {
            if matches!(annotation, TypeInfo::Unknown) || te.return_type == annotation {
                Ok(te)
            } else {
                let err = CompileError::TypeMismatch {
                    expected: annotation,
                    found: te.return_type,
                    hint,
                    span: e.span(),
                };
                let emitted = collector.emit_err(err);
                Err(emitted)
            }
        },
    }
}

/// Checking a declaration: its body is checked with no expected type, and on
/// success the declared name is bound in the current scope to the body's
/// type. On failure nothing is bound — the failure is terminal for the node.
pub open spec fn decl_check(ns: NamespaceV, d: Declaration) -> Result<
    (TyDeclaration, NamespaceV),
    CompileError,
> {
    match d {
        Declaration::VariableDeclaration { name, body, span } => match expr_check(
            ns,
            TypeInfo::Unknown,
            Hint::NoHint,
            body,
        ) {
            Err(err) => Err(err),
            Ok(te) => Ok(
                (
                    TyDeclaration { name, ty: te.return_type, span },
                    with_bindings(
                        ns,
                        seq![Binding { name, item: ItemKind::Value { ty: te.return_type } }],
                    ),
                ),
            ),
        },
    }
}

/// The declaration type-checker. Its diagnostics go straight into the live
/// collector; on failure the namespace is untouched and the error is the
/// caller's to propagate.
pub fn type_check_declaration(
    collector: &mut DiagnosticCollector,
    ns: &mut Namespace,
    d: &Declaration,
) -> (r: Result<TyDeclaration, ErrorEmitted>)
    ensures
        ({
            match decl_check(old(ns)@, *d) {
                Ok((td, ns2)) => r == Ok::<TyDeclaration, ErrorEmitted>(td) && final(ns)@ == ns2
                    && final(collector).errors@ == old(collector).errors@,
                Err(err) => r is Err && final(ns)@ == old(ns)@ && final(collector).errors@ == old(
                    collector,
                ).errors@.push(err),
            }
        }),
        final(collector).warnings@ == old(collector).warnings@,
{
    match d {
        Declaration::VariableDeclaration { name, body, span } => {
            let checked = type_check_expression(
                collector,
                ns,
                TypeInfo::Unknown,
                Hint::NoHint,
                body,
            );
            match checked {
                Err(e) => Err(e),
                Ok(te) => {
                    ns.bind(Binding { name: *name, item: ItemKind::Value { ty: te.return_type } });
                    proof {
                        assert(ns@ =~= decl_check(old(ns)@, *d).unwrap().1);
                    }
                    Ok(TyDeclaration { name: *name, ty: te.return_type, span: *span })
                },
            }
        },
    }
}

/// What dispatching one raw node must produce, relating the namespace, the
/// diagnostic stream and the verdict before and after the call.
///
/// Every kind but a failing declaration yields a typed node carrying the raw
/// node's span. Imports adopt exactly one resolution attempt and always yield
/// a side-effect node embedding the import statement. Expression failures are
/// absorbed into an error-marked placeholder. A bare expression statement
/// whose type should not be discarded gains exactly one warning. Declarations
/// alone propagate failure.
pub open spec fn dispatch_post(
    pre: NamespaceV,
    annotation: TypeInfo,
    node: AstNode,
    post: NamespaceV,
    r: Result<TyAstNode, ErrorEmitted>,
    errs0: Seq<CompileError>,
    errs1: Seq<CompileError>,
    warns0: Seq<CompileWarning>,
    warns1: Seq<CompileWarning>,
) -> bool {
    match node.content {
        AstNodeContent::UseStatement(u) => {
            let o = import_outcome(pre, u@, node.span);
            &&& post == o.ns
            &&& errs1 == errs0 + o.errors
            &&& warns1 == warns0
            &&& (r matches Ok(t) && t.span == node.span && (t.content matches
                TyAstNodeContent::SideEffect(TySideEffect::UseStatement(tu)) && tu.call_path@
                == u.call_path@ && tu.import_type == u.import_type && tu.is_absolute
                == u.is_absolute && tu.alias == u.alias))
        },
        AstNodeContent::IncludeStatement => {
            &&& post == pre
            &&& errs1 == errs0
            &&& warns1 == warns0
            &&& (r matches Ok(t) && t.span == node.span && t.content matches
                TyAstNodeContent::SideEffect(TySideEffect::IncludeStatement))
        },
        AstNodeContent::Declaration(d) => match decl_check(pre, d) {
            Ok((td, ns2)) => {
                &&& post == ns2
                &&& errs1 == errs0
                &&& warns1 == warns0
                &&& (r matches Ok(t) && t.span == node.span && (t.content matches
                    TyAstNodeContent::Declaration(td2) && td2 == td))
            },
            Err(err) => {
                &&& post == pre
                &&& errs1 == errs0.push(err)
                &&& warns1 == warns0
                &&& r is Err
            },
        },
        AstNodeContent::Expression(e) => {
            let checked = expr_check(pre, TypeInfo::Unknown, Hint::NoHint, e);
            let te = match checked {
                Ok(te) => te,
                Err(_) => TyExpression::spec_error(e.spec_span()),
            };
            &&& post == pre
            &&& errs1 == (match checked {
                Ok(_) => errs0,
                Err(err) => errs0.push(err),
            })
            &&& (if spec_is_discardable(te.return_type) {
                warns1 == warns0
            } else {
                warning_pushed(warns0, warns1, te.return_type, node.span)
            })
            &&& (r matches Ok(t) && t.span == node.span && (t.content matches
                TyAstNodeContent::Expression(te2) && te2 == te))
        },
        AstNodeContent::ImplicitReturnExpression(e) => {
            let checked = expr_check(pre, annotation, Hint::ImplicitReturnMustMatchBlock, e);
            let te = match checked {
                Ok(te) => te,
                Err(_) => TyExpression::spec_error(e.spec_span()),
            };
            &&& post == pre
            &&& errs1 == (match checked {
                Ok(_) => errs0,
                Err(err) => errs0.push(err),
            })
            &&& warns1 == warns0
            &&& (r matches Ok(t) && t.span == node.span && (t.content matches
                TyAstNodeContent::ImplicitReturnExpression(te2) && te2 == te))
        },
        AstNodeContent::Error { spans, err } => {
            &&& post == pre
            &&& errs1 == errs0
            &&& warns1 == warns0
            &&& (r matches Ok(t) && t.span == node.span && (t.content matches
                TyAstNodeContent::Error { spans: spans2, err: err2 } && spans2@ == spans@ && err2
                == err))
        },
    }
}

/// An owned copy of a list of spans.
fn copy_spans(v: &Vec<Span>) -> (r: Vec<Span>)
    ensures
        r@ == v@,
{
    let mut r: Vec<Span> = Vec::new();
    let mut i: usize = 0;
    while i < v.len()
        invariant
            i <= v.len(),
            r@ == v@.take(i as int),
        decreases v.len() - i,
    {
        r.push(v[i]);
        i += 1;
    }
    proof {
        assert(v@.take(v@.len() as int) =~= v@);
    }
    r
}

impl TyAstNode {
    /// The node dispatcher: routes one raw top-level statement to its
    /// handling strategy by kind and assembles the typed counterpart.
    ///
    /// Imports are delegated to the import resolver and always produce a
    /// side-effect node, resolved or not. Include directives produce a fixed
    /// side-effect marker. Declarations are the one kind whose failure is
    /// propagated rather than absorbed. Expression failures are captured
    /// locally as error-marked placeholders. Parse-error placeholders pass
    /// through unchanged. After checking, a bare expression statement whose
    /// value should not be silently discarded gains exactly one warning
    /// carrying the rendered type name.
    pub fn type_check(
        collector: &mut DiagnosticCollector,
        ctx: &mut TypeCheckContext,
        node: &AstNode,
    ) -> (r: Result<TyAstNode, ErrorEmitted>)
        ensures
            dispatch_post(
                old(ctx).namespace@,
                old(ctx).type_annotation,
                *node,
                final(ctx).namespace@,
                r,
                old(collector).errors@,
                final(collector).errors@,
                old(collector).warnings@,
                final(collector).warnings@,
            ),
            final(ctx).type_annotation == old(ctx).type_annotation,
    {
        match &node.content {
            AstNodeContent::UseStatement(u) => {
                let _ = crate::resolve::resolve_import(collector, &mut ctx.namespace, u, node.span);
                Ok(TyAstNode {
                    content: TyAstNodeContent::SideEffect(TySideEffect::UseStatement(
                        TyUseStatement {
                            call_path: copy_segments(&u.call_path),
                            import_type: u.import_type,
                            is_absolute: u.is_absolute,
                            alias: u.alias,
                        },
                    )),
                    span: node.span,
                })
            },
            AstNodeContent::IncludeStatement => Ok(TyAstNode {
                content: TyAstNodeContent::SideEffect(TySideEffect::IncludeStatement),
                span: node.span,
            }),
            AstNodeContent::Declaration(d) => {
                let checked = type_check_declaration(collector, &mut ctx.namespace, d);
                match checked {
                    Err(e) => Err(e),
                    Ok(td) => Ok(TyAstNode {
                        content: TyAstNodeContent::Declaration(td),
                        span: node.span,
                    }),
                }
            },
            AstNodeContent::Expression(e) => {
                let checked = type_check_expression(
                    collector,
                    &ctx.namespace,
                    TypeInfo::Unknown,
                    Hint::NoHint,
                    e,
                );
                let te = match checked {
                    Ok(te) => te,
                    Err(_) => TyExpression::error(e.span()),
                };
                if !is_discardable(te.return_type) {
                    let warning = CompileWarning {
                        rendered_type: render_type(te.return_type),
                        span: node.span,
                    };
                    collector.emit_warn(warning);
                    proof {
                        assert(collector.warnings@.drop_last() =~= old(collector).warnings@);
                    }
                }
                Ok(TyAstNode { content: TyAstNodeContent::Expression(te), span: node.span })
            },
            AstNodeContent::ImplicitReturnExpression(e) => {
                let annotation = ctx.type_annotation;
                let checked = type_check_expression(
                    collector,
                    &ctx.namespace,
                    annotation,
                    Hint::ImplicitReturnMustMatchBlock,
                    e,
                );
                let te = match checked {
                    Ok(te) => te,
                    Err(_) => TyExpression::error(e.span()),
                };
                Ok(TyAstNode {
                    content: TyAstNodeContent::ImplicitReturnExpression(te),
                    span: node.span,
                })
            },
            AstNodeContent::Error { spans, err } => Ok(TyAstNode {
                content: TyAstNodeContent::Error { spans: copy_spans(spans), err: *err },
                span: node.span,
            }),
        }
    }
}

} // verus!
