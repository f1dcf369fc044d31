use vstd::prelude::*;

use crate::check::decl_check;
use crate::check::dispatch_post;
use crate::diagnostics::CompileError;
use crate::diagnostics::CompileWarning;
use crate::diagnostics::ErrorEmitted;
use crate::namespace::NamespaceV;
use crate::namespace::find_module;
use crate::namespace::item_attempt;
use crate::namespace::self_attempt;
use crate::namespace::star_attempt;
use crate::namespace::variant_attempt;
use crate::namespace::variant_star_attempt;
use crate::nodes::AstNode;
use crate::nodes::AstNodeContent;
use crate::nodes::ImportType;
use crate::nodes::TyAstNode;
use crate::nodes::UseStatementV;
use crate::resolve::import_outcome;
use crate::resolve::normalized_path;
use crate::span::Span;
use crate::types::TypeInfo;

verus! {

/// A star import whose path is a plain module is adopted on the first
/// attempt: resolution succeeds, the namespace gains exactly that module's
/// items, and no diagnostics at all — in particular none from the enum-variant
/// reading, which is never tried — are surfaced.
pub proof fn lemma_star_import_plain_module(ns: NamespaceV, u: UseStatementV, span: Span)
    requires
        u.import_type is Star,
        find_module(ns.modules, normalized_path(ns, u)) is Some,
    ensures
        import_outcome(ns, u, span) == star_attempt(
            ns,
            normalized_path(ns, u),
            span,
        ),
        import_outcome(ns, u, span).ok,
        import_outcome(ns, u, span).errors == Seq::<CompileError>::empty(),
{
    assert(import_outcome(ns, u, span).errors =~= Seq::<CompileError>::empty());
}

/// A star import resolvable only as an enum is adopted on the second attempt:
/// what is surfaced — namespace effect and diagnostics alike — is exactly the
/// variant-star-import's, never the failed plain attempt's.
pub proof fn lemma_star_import_enum_fallback(ns: NamespaceV, u: UseStatementV, span: Span)
    requires
        u.import_type is Star,
        find_module(ns.modules, normalized_path(ns, u)) is None,
        normalized_path(ns, u).len() > 0,
        variant_star_attempt(
            ns,
            normalized_path(ns, u).drop_last(),
            normalized_path(ns, u).last(),
            span,
        ).ok,
    ensures
        import_outcome(ns, u, span) == variant_star_attempt(
            ns,
            normalized_path(ns, u).drop_last(),
            normalized_path(ns, u).last(),
            span,
        ),
{
}

/// A star import resolvable as neither a module nor an enum surfaces exactly
/// the plain attempt's diagnostics — one module-not-found error for the full
/// path — even though the enum reading was also tried, and leaves the
/// namespace unchanged.
pub proof fn lemma_star_import_double_failure(ns: NamespaceV, u: UseStatementV, span: Span)
    requires
        u.import_type is Star,
        find_module(ns.modules, normalized_path(ns, u)) is None,
        normalized_path(ns, u).len() == 0 || !variant_star_attempt(
            ns,
            normalized_path(ns, u).drop_last(),
            normalized_path(ns, u).last(),
            span,
        ).ok,
    ensures
        !import_outcome(ns, u, span).ok,
        import_outcome(ns, u, span).ns == ns,
        import_outcome(ns, u, span).errors == star_attempt(
            ns,
            normalized_path(ns, u),
            span,
        ).errors,
        import_outcome(ns, u, span).errors == seq![CompileError::ModuleNotFound { span }],
{
}

/// An item import whose path holds the named item is adopted on the first
/// attempt, with no diagnostics.
pub proof fn lemma_item_import_plain(ns: NamespaceV, u: UseStatementV, span: Span, name: u64)
    requires
        u.import_type == (ImportType::Item { name }),
        item_attempt(ns, normalized_path(ns, u), name, u.alias, span).ok,
    ensures
        import_outcome(ns, u, span) == item_attempt(
            ns,
            normalized_path(ns, u),
            name,
            u.alias,
            span,
        ),
        import_outcome(ns, u, span).errors == Seq::<CompileError>::empty(),
{
}

/// An item import resolvable only as an enum variant is adopted on the second
/// attempt: what is surfaced is exactly the variant-import's.
pub proof fn lemma_item_import_variant_fallback(
    ns: NamespaceV,
    u: UseStatementV,
    span: Span,
    name: u64,
)
    requires
        u.import_type == (ImportType::Item { name }),
        !item_attempt(ns, normalized_path(ns, u), name, u.alias, span).ok,
        normalized_path(ns, u).len() > 0,
        variant_attempt(
            ns,
            normalized_path(ns, u).drop_last(),
            normalized_path(ns, u).last(),
            name,
            u.alias,
            span,
        ).ok,
    ensures
        import_outcome(ns, u, span) == variant_attempt(
            ns,
            normalized_path(ns, u).drop_last(),
            normalized_path(ns, u).last(),
            name,
            u.alias,
            span,
        ),
{
}

/// An item import resolvable neither way surfaces exactly the plain attempt's
/// diagnostics and leaves the namespace unchanged.
pub proof fn lemma_item_import_double_failure(
    ns: NamespaceV,
    u: UseStatementV,
    span: Span,
    name: u64,
)
    requires
        u.import_type == (ImportType::Item { name }),
        !item_attempt(ns, normalized_path(ns, u), name, u.alias, span).ok,
        normalized_path(ns, u).len() == 0 || !variant_attempt(
            ns,
            normalized_path(ns, u).drop_last(),
            normalized_path(ns, u).last(),
            name,
            u.alias,
            span,
        ).ok,
    ensures
        !import_outcome(ns, u, span).ok,
        import_outcome(ns, u, span).ns == ns,
        import_outcome(ns, u, span).errors == item_attempt(
            ns,
            normalized_path(ns, u),
            name,
            u.alias,
            span,
        ).errors,
{
}

/// A self import never triggers a second attempt: its outcome is the single
/// self-import attempt's, so exactly one collector's contents are merged.
pub proof fn lemma_self_import_single_attempt(ns: NamespaceV, u: UseStatementV, span: Span)
    requires
        u.import_type is SelfImport,
    ensures
        import_outcome(ns, u, span) == self_attempt(
            ns,
            normalized_path(ns, u),
            u.alias,
            span,
        ),
{
}

/// The enum-variant reading's diagnostics never surface from a star import,
/// whatever the namespace holds: the adopted diagnostics are either empty or
/// the single module-not-found error of the plain reading.
pub proof fn lemma_star_import_never_leaks_enum_diagnostics(
    ns: NamespaceV,
    u: UseStatementV,
    span: Span,
)
    requires
        u.import_type is Star,
    ensures
        import_outcome(ns, u, span).errors == Seq::<CompileError>::empty() || import_outcome(
            ns,
            u,
            span,
        ).errors == seq![CompileError::ModuleNotFound { span }],
{
}

/// Exactly one attempt's diagnostics are surfaced per import, never zero and
/// never two: a successful resolution surfaces the adopted attempt's empty
/// diagnostics, and a failed one surfaces exactly the one error of the plain
/// attempt and leaves the namespace untouched. Resolving a sequence of
/// failing imports therefore surfaces one diagnostic per import — the sum of
/// exactly one attempt's diagnostics each.
pub proof fn lemma_one_attempt_surfaced(ns: NamespaceV, u: UseStatementV, span: Span)
    ensures
        import_outcome(ns, u, span).ok ==> import_outcome(ns, u, span).errors.len() == 0,
        !import_outcome(ns, u, span).ok ==> import_outcome(ns, u, span).errors.len() == 1
            && import_outcome(ns, u, span).ns == ns,
{
}

/// A typed node always carries its raw node's span, across all six node
/// kinds: whenever the dispatcher's contract admits a successfully typed
/// node, that node's span equals the raw node's.
pub proof fn lemma_typed_node_keeps_span(
    pre: NamespaceV,
    annotation: TypeInfo,
    node: AstNode,
    post: NamespaceV,
    r: Result<TyAstNode, ErrorEmitted>,
    errs0: Seq<CompileError>,
    errs1: Seq<CompileError>,
    warns0: Seq<CompileWarning>,
    warns1: Seq<CompileWarning>,
)
    requires
        dispatch_post(pre, annotation, node, post, r, errs0, errs1, warns0, warns1),
    ensures
        r matches Ok(t) ==> t.span == node.span,
{
}

/// Declarations are the one node kind whose failure is terminal: the
/// dispatcher's contract admits a failing result exactly when the node is a
/// declaration whose checking fails, and then no typed sibling stands in for
/// it and the namespace is untouched.
pub proof fn lemma_only_declarations_fail(
    pre: NamespaceV,
    annotation: TypeInfo,
    node: AstNode,
    post: NamespaceV,
    r: Result<TyAstNode, ErrorEmitted>,
    errs0: Seq<CompileError>,
    errs1: Seq<CompileError>,
    warns0: Seq<CompileWarning>,
    warns1: Seq<CompileWarning>,
)
    requires
        dispatch_post(pre, annotation, node, post, r, errs0, errs1, warns0, warns1),
    ensures
        (r is Err) <==> (node.content matches AstNodeContent::Declaration(d) && decl_check(
            pre,
            d,
        ) is Err),
        r is Err ==> post == pre,
{
}

} // verus!
