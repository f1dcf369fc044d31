use node_semantics::check::type_check_expression;
use node_semantics::diagnostics::CompileError;
use node_semantics::diagnostics::DiagnosticCollector;
use node_semantics::diagnostics::ErrorEmitted;
use node_semantics::diagnostics::Hint;
use node_semantics::diagnostics::hint_text;
use node_semantics::namespace::Binding;
use node_semantics::namespace::EnumDecl;
use node_semantics::namespace::ItemKind;
use node_semantics::namespace::Module;
use node_semantics::namespace::Namespace;
use node_semantics::nodes::AstNode;
use node_semantics::nodes::AstNodeContent;
use node_semantics::nodes::Declaration;
use node_semantics::nodes::Expression;
use node_semantics::nodes::ImportType;
use node_semantics::nodes::TyAstNode;
use node_semantics::nodes::TyAstNodeContent;
use node_semantics::nodes::TyExpressionKind;
use node_semantics::nodes::TySideEffect;
use node_semantics::nodes::TypeCheckContext;
use node_semantics::nodes::UseStatement;
use node_semantics::span::Span;
use node_semantics::types::TypeInfo;
use node_semantics::types::render_type;

const MY_ENUM: u64 = 5;
const VARIANT_A: u64 = 6;
const X: u64 = 30;
const Y: u64 = 31;
const UNBOUND: u64 = 77;

fn sp(start: usize, end: usize) -> Span {
    Span { start, end }
}

fn empty_namespace() -> Namespace {
    Namespace {
        modules: vec![Module { path: vec![], items: vec![], enums: vec![] }],
        current: vec![],
        bindings: vec![],
    }
}

fn fresh_ctx() -> TypeCheckContext {
    TypeCheckContext { namespace: empty_namespace(), type_annotation: TypeInfo::Unknown }
}

#[test]
fn discardable_expression_statement_warns_nothing() {
    let mut collector = DiagnosticCollector::new();
    let mut ctx = fresh_ctx();
    let node = AstNode {
        content: AstNodeContent::Expression(Expression::UnitLiteral { span: sp(1, 3) }),
        span: sp(1, 4),
    };
    let r = TyAstNode::type_check(&mut collector, &mut ctx, &node);
    assert!(r.is_ok());
    assert_eq!(collector.warnings.len(), 0);
    assert_eq!(collector.errors.len(), 0);
}

#[test]
fn undiscardable_expression_statement_warns_once_with_rendered_type() {
    let mut collector = DiagnosticCollector::new();
    let mut ctx = fresh_ctx();
    let node = AstNode {
        content: AstNodeContent::Expression(Expression::Literal { value: 42, span: sp(1, 3) }),
        span: sp(1, 4),
    };
    let r = TyAstNode::type_check(&mut collector, &mut ctx, &node);
    assert!(r.is_ok());
    assert_eq!(collector.errors.len(), 0);
    assert_eq!(collector.warnings.len(), 1);
    assert_eq!(collector.warnings[0].rendered_type, "u64");
    assert_eq!(collector.warnings[0].span, sp(1, 4));
}

#[test]
fn declaration_failure_is_terminal() {
    let mut collector = DiagnosticCollector::new();
    let mut ctx = fresh_ctx();
    let node = AstNode {
        content: AstNodeContent::Declaration(Declaration::VariableDeclaration {
            name: X,
            body: Expression::Variable { name: UNBOUND, span: sp(8, 10) },
            span: sp(0, 10),
        }),
        span: sp(0, 11),
    };
    let r = TyAstNode::type_check(&mut collector, &mut ctx, &node);
    // No dispatcher-level fallback: the failure propagates, no typed node
    // stands in, and nothing was bound.
    assert!(r.is_err());
    assert_eq!(
        collector.errors,
        vec![CompileError::SymbolNotFound { name: UNBOUND, span: sp(8, 10) }]
    );
    assert_eq!(ctx.namespace.bindings.len(), 0);
}

#[test]
fn declaration_success_binds_and_types() {
    let mut collector = DiagnosticCollector::new();
    let mut ctx = fresh_ctx();
    let node = AstNode {
        content: AstNodeContent::Declaration(Declaration::VariableDeclaration {
            name: X,
            body: Expression::BoolLiteral { value: true, span: sp(8, 12) },
            span: sp(0, 12),
        }),
        span: sp(0, 13),
    };
    let r = TyAstNode::type_check(&mut collector, &mut ctx, &node).unwrap();
    match r.content {
        TyAstNodeContent::Declaration(td) => {
            assert_eq!(td.name, X);
            assert_eq!(td.ty, TypeInfo::Boolean);
            assert_eq!(td.span, sp(0, 12));
        },
        _ => panic!("expected a typed declaration"),
    }
    assert_eq!(
        ctx.namespace.bindings,
        vec![Binding { name: X, item: ItemKind::Value { ty: TypeInfo::Boolean } }]
    );
    // The bound name now type-checks as an expression of the bound type.
    let node2 = AstNode {
        content: AstNodeContent::Expression(Expression::Variable { name: X, span: sp(14, 15) }),
        span: sp(14, 16),
    };
    let r2 = TyAstNode::type_check(&mut collector, &mut ctx, &node2).unwrap();
    match r2.content {
        TyAstNodeContent::Expression(te) => assert_eq!(te.return_type, TypeInfo::Boolean),
        _ => panic!("expected a typed expression"),
    }
    // Boolean is not discardable: exactly one warning, with the rendered name.
    assert_eq!(collector.warnings.len(), 1);
    assert_eq!(collector.warnings[0].rendered_type, "bool");
}

#[test]
fn expression_failure_is_absorbed_as_error_placeholder() {
    let mut collector = DiagnosticCollector::new();
    let mut ctx = fresh_ctx();
    let node = AstNode {
        content: AstNodeContent::Expression(Expression::Variable { name: UNBOUND, span: sp(2, 5) }),
        span: sp(2, 6),
    };
    let r = TyAstNode::type_check(&mut collector, &mut ctx, &node).unwrap();
    match r.content {
        TyAstNodeContent::Expression(te) => {
            assert_eq!(te.kind, TyExpressionKind::ErrorRecovery);
            assert_eq!(te.return_type, TypeInfo::ErrorRecovery);
            assert_eq!(te.span, sp(2, 5));
        },
        _ => panic!("expected a typed expression"),
    }
    assert_eq!(
        collector.errors,
        vec![CompileError::SymbolNotFound { name: UNBOUND, span: sp(2, 5) }]
    );
    // The placeholder's type is discardable: no unused-value warning.
    assert_eq!(collector.warnings.len(), 0);
}

#[test]
fn implicit_return_checked_against_block_type_with_hint() {
    let mut collector = DiagnosticCollector::new();
    let mut ctx = fresh_ctx();
    ctx.type_annotation = TypeInfo::Boolean;
    let node = AstNode {
        content: AstNodeContent::ImplicitReturnExpression(Expression::Literal {
            value: 3,
            span: sp(4, 5),
        }),
        span: sp(4, 6),
    };
    let r = TyAstNode::type_check(&mut collector, &mut ctx, &node).unwrap();
    match r.content {
        TyAstNodeContent::ImplicitReturnExpression(te) => {
            assert_eq!(te.kind, TyExpressionKind::ErrorRecovery);
        },
        _ => panic!("expected an implicit return"),
    }
    assert_eq!(
        collector.errors,
        vec![CompileError::TypeMismatch {
            expected: TypeInfo::Boolean,
            found: TypeInfo::Unsigned64,
            hint: Hint::ImplicitReturnMustMatchBlock,
            span: sp(4, 5),
        }]
    );
    // Implicit returns never get unused-value warnings.
    assert_eq!(collector.warnings.len(), 0);
}

#[test]
fn implicit_return_of_matching_type_is_clean() {
    let mut collector = DiagnosticCollector::new();
    let mut ctx = fresh_ctx();
    ctx.type_annotation = TypeInfo::Unsigned64;
    let node = AstNode {
        content: AstNodeContent::ImplicitReturnExpression(Expression::Literal {
            value: 3,
            span: sp(4, 5),
        }),
        span: sp(4, 6),
    };
    let r = TyAstNode::type_check(&mut collector, &mut ctx, &node).unwrap();
    match r.content {
        TyAstNodeContent::ImplicitReturnExpression(te) => {
            assert_eq!(te.return_type, TypeInfo::Unsigned64);
        },
        _ => panic!("expected an implicit return"),
    }
    assert_eq!(collector.errors.len(), 0);
    assert_eq!(collector.warnings.len(), 0);
}

#[test]
fn module_binding_is_not_a_value() {
    let mut collector = DiagnosticCollector::new();
    let mut ctx = fresh_ctx();
    ctx.namespace.bindings.push(Binding { name: Y, item: ItemKind::ModuleRef });
    let node = AstNode {
        content: AstNodeContent::Expression(Expression::Variable { name: Y, span: sp(0, 1) }),
        span: sp(0, 2),
    };
    let r = TyAstNode::type_check(&mut collector, &mut ctx, &node);
    assert!(r.is_ok());
    assert_eq!(collector.errors, vec![CompileError::NotAValue { name: Y, span: sp(0, 1) }]);
}

#[test]
fn imported_variant_types_as_its_enum() {
    let mut collector = DiagnosticCollector::new();
    let mut ctx = fresh_ctx();
    ctx.namespace.modules[0].enums.push(EnumDecl {
        name: MY_ENUM,
        variants: vec![VARIANT_A],
    });
    let u = AstNode {
        content: AstNodeContent::UseStatement(UseStatement {
            call_path: vec![MY_ENUM],
            import_type: ImportType::Star,
            is_absolute: false,
            alias: None,
        }),
        span: sp(0, 14),
    };
    let r = TyAstNode::type_check(&mut collector, &mut ctx, &u).unwrap();
    assert_eq!(r.span, sp(0, 14));
    let node = AstNode {
        content: AstNodeContent::Expression(Expression::Variable {
            name: VARIANT_A,
            span: sp(15, 16),
        }),
        span: sp(15, 17),
    };
    let r2 = TyAstNode::type_check(&mut collector, &mut ctx, &node).unwrap();
    match r2.content {
        TyAstNodeContent::Expression(te) => {
            assert_eq!(te.return_type, TypeInfo::UserEnum { name: MY_ENUM });
        },
        _ => panic!("expected a typed expression"),
    }
    // An enum value should not be silently discarded.
    assert_eq!(collector.warnings.len(), 1);
    assert_eq!(collector.warnings[0].rendered_type, "enum");
    assert_eq!(collector.errors.len(), 0);
}

#[test]
fn unresolved_import_still_yields_side_effect_node() {
    let mut collector = DiagnosticCollector::new();
    let mut ctx = fresh_ctx();
    let u = UseStatement {
        call_path: vec![UNBOUND],
        import_type: ImportType::Star,
        is_absolute: false,
        alias: None,
    };
    let node = AstNode {
        content: AstNodeContent::UseStatement(u.clone()),
        span: sp(0, 12),
    };
    let r = TyAstNode::type_check(&mut collector, &mut ctx, &node).unwrap();
    match r.content {
        TyAstNodeContent::SideEffect(TySideEffect::UseStatement(tu)) => {
            assert_eq!(tu.call_path, vec![UNBOUND]);
            assert_eq!(tu.import_type, ImportType::Star);
            assert!(!tu.is_absolute);
            assert_eq!(tu.alias, None);
        },
        _ => panic!("expected a use-statement side effect"),
    }
    // The failure is visible only through the diagnostic stream.
    assert_eq!(collector.errors.len(), 1);
}

#[test]
fn include_directive_yields_fixed_marker() {
    let mut collector = DiagnosticCollector::new();
    let mut ctx = fresh_ctx();
    let node = AstNode { content: AstNodeContent::IncludeStatement, span: sp(3, 9) };
    let r = TyAstNode::type_check(&mut collector, &mut ctx, &node).unwrap();
    assert_eq!(r.content, TyAstNodeContent::SideEffect(TySideEffect::IncludeStatement));
    assert_eq!(r.span, sp(3, 9));
    assert_eq!(collector.errors.len(), 0);
    assert_eq!(collector.warnings.len(), 0);
}

#[test]
fn parse_error_placeholder_passes_through() {
    let mut collector = DiagnosticCollector::new();
    let mut ctx = fresh_ctx();
    let node = AstNode {
        content: AstNodeContent::Error { spans: vec![sp(1, 2), sp(3, 4)], err: ErrorEmitted {} },
        span: sp(1, 4),
    };
    let r = TyAstNode::type_check(&mut collector, &mut ctx, &node).unwrap();
    match r.content {
        TyAstNodeContent::Error { spans, .. } => assert_eq!(spans, vec![sp(1, 2), sp(3, 4)]),
        _ => panic!("expected an error placeholder"),
    }
    assert_eq!(r.span, sp(1, 4));
    assert_eq!(collector.errors.len(), 0);
}

#[test]
fn typed_span_equals_raw_span_for_all_six_kinds() {
    let mut collector = DiagnosticCollector::new();
    let mut ctx = fresh_ctx();
    let contents = vec![
        AstNodeContent::UseStatement(UseStatement {
            call_path: vec![UNBOUND],
            import_type: ImportType::Star,
            is_absolute: false,
            alias: None,
        }),
        AstNodeContent::IncludeStatement,
        AstNodeContent::Declaration(Declaration::VariableDeclaration {
            name: X,
            body: Expression::UnitLiteral { span: sp(40, 41) },
            span: sp(40, 42),
        }),
        AstNodeContent::Expression(Expression::UnitLiteral { span: sp(50, 51) }),
        AstNodeContent::ImplicitReturnExpression(Expression::UnitLiteral { span: sp(60, 61) }),
        AstNodeContent::Error { spans: vec![sp(70, 71)], err: ErrorEmitted {} },
    ];
    for (i, content) in contents.into_iter().enumerate() {
        let span = sp(100 + i, 110 + i);
        let node = AstNode { content, span };
        let r = TyAstNode::type_check(&mut collector, &mut ctx, &node).unwrap();
        assert_eq!(r.span, span);
    }
}

#[test]
fn expression_checker_reports_mismatch_against_annotation() {
    let mut collector = DiagnosticCollector::new();
    let ns = empty_namespace();
    let e = Expression::BoolLiteral { value: false, span: sp(0, 5) };
    let r = type_check_expression(
        &mut collector,
        &ns,
        TypeInfo::Unit,
        Hint::NoHint,
        &e,
    );
    assert!(r.is_err());
    assert_eq!(
        collector.errors,
        vec![CompileError::TypeMismatch {
            expected: TypeInfo::Unit,
            found: TypeInfo::Boolean,
            hint: Hint::NoHint,
            span: sp(0, 5),
        }]
    );
}

#[test]
fn rendered_type_names() {
    assert_eq!(render_type(TypeInfo::Unit), "()");
    assert_eq!(render_type(TypeInfo::Boolean), "bool");
    assert_eq!(render_type(TypeInfo::Unsigned64), "u64");
    assert_eq!(render_type(TypeInfo::Never), "!");
    assert_eq!(render_type(TypeInfo::UserEnum { name: MY_ENUM }), "enum");
}

#[test]
fn hint_prose() {
    assert_eq!(
        hint_text(Hint::ImplicitReturnMustMatchBlock),
        "Implicit return must match up with block's type."
    );
    assert_eq!(hint_text(Hint::NoHint), "");
}
