use vstd::prelude::*;

use crate::diagnostics::DiagnosticCollector;
use crate::diagnostics::ErrorEmitted;
use crate::namespace::AttemptV;
use crate::namespace::Namespace;
use crate::namespace::NamespaceV;
use crate::namespace::item_attempt;
use crate::namespace::self_attempt;
use crate::namespace::star_attempt;
use crate::namespace::variant_attempt;
use crate::namespace::variant_star_attempt;
use crate::nodes::ImportType;
use crate::nodes::UseStatement;
use crate::nodes::UseStatementV;
use crate::span::Span;

verus! {

/// The path an import binds from: an absolute path as given, a relative one
/// resolved against the current module.
pub open spec fn normalized_path(ns: NamespaceV, u: UseStatementV) -> Seq<u64> {
    if u.is_absolute {
        u.call_path
    } else {
        ns.current + u.call_path
    }
}

/// The adopted outcome of resolving one import statement: which attempt's
/// namespace effect and diagnostics are surfaced.
///
/// Star imports and item imports are two-attempt kinds. The plain reading is
/// tried first and adopted when it succeeds; the fallback attempt is then
/// never run. Only when the plain reading fails, and the path has a final
/// segment to reinterpret as an enum name, is the enum-variant reading tried,
/// and adopted when it succeeds. When both fail, the plain attempt's
/// diagnostics are surfaced and the enum attempt's are discarded — the
/// deliberate bias toward the more common explanation. Self imports have a
/// single attempt and no fallback. Exactly one attempt's diagnostics are
/// adopted in every case.
pub open spec fn import_outcome(ns: NamespaceV, u: UseStatementV, span: Span) -> AttemptV {
    let path = normalized_path(ns, u);
    match u.import_type {
        ImportType::Star => {
            let plain = star_attempt(ns, path, span);
            if plain.ok {
                plain
            } else if path.len() > 0 {
                let fallback = variant_star_attempt(ns, path.drop_last(), path.last(), span);
                if fallback.ok {
                    fallback
                } else {
                    plain
                }
            } else {
                plain
            }
        },
        ImportType::Item { name } => {
            let plain = item_attempt(ns, path, name, u.alias, span);
            if plain.ok {
                plain
            } else if path.len() > 0 {
                let fallback = variant_attempt(
                    ns,
                    path.drop_last(),
                    path.last(),
                    name,
                    u.alias,
                    span,
                );
                if fallback.ok {
                    fallback
                } else {
                    plain
                }
            } else {
                plain
            }
        },
        ImportType::SelfImport => self_attempt(ns, path, u.alias, span),
    }
}

/// An owned copy of a path.
pub(crate) fn copy_segments(v: &Vec<u64>) -> (r: Vec<u64>)
    ensures
        r@ == v@,
{
    let mut r: Vec<u64> = Vec::new();
    let mut i: usize = 0;
    while i < v.len()
        invariant
            i <= v.len(),
            r@ == v@.take(i as int),
        decreases v.len() - i,
    {
        r.push(v[i]);
        i += 1;
    }
    proof {
        assert(v@.take(v@.len() as int) =~= v@);
    }
    r
}

/// The path without its final segment.
fn path_prefix(v: &Vec<u64>) -> (r: Vec<u64>)
    requires
        v@.len() > 0,
    ensures
        r@ == v@.drop_last(),
{
    let mut r: Vec<u64> = Vec::new();
    let mut i: usize = 0;
    while i + 1 < v.len()
        invariant
            v@.len() > 0,
            i < v.len(),
            r@ == v@.take(i as int),
        decreases v.len() - i,
    {
        r.push(v[i]);
        i += 1;
    }
    proof {
        assert(v@.take(v@.len() - 1) =~= v@.drop_last());
    }
    r
}

/// Resolves one import statement against the namespace, adopting exactly one
/// attempt: its namespace effect, its diagnostics — appended to the given
/// collector in emission order — and its verdict. Diagnostics of a discarded
/// attempt leave no trace, and a failed resolution leaves the namespace
/// unchanged.
pub fn resolve_import(
    collector: &mut DiagnosticCollector,
    ns: &mut Namespace,
    u: &UseStatement,
    span: Span,
) -> (r: Result<(), ErrorEmitted>)
    ensures
        ({
            let o = import_outcome(old(ns)@, u@, span);
            &&& final(ns)@ == o.ns
            &&& (r is Ok) == o.ok
            &&& final(collector).errors@ == old(collector).errors@ + o.errors
            &&& final(collector).warnings@ == old(collector).warnings@
        }),
{
    let ghost o = import_outcome(old(ns)@, u@, span);
    let path = if u.is_absolute {
        copy_segments(&u.call_path)
    } else {
        ns.find_module_path(&u.call_path)
    };
    match u.import_type {
        ImportType::Star => {
            // The plain reading first, into an isolated child collector.
            let mut plain_collector = DiagnosticCollector::new();
            let plain = ns.star_import(&mut plain_collector, &path, span);
            if plain.is_ok() {
                collector.append(plain_collector);
                proof {
                    assert(collector.errors@ =~= old(collector).errors@ + o.errors);
                    assert(collector.warnings@ =~= old(collector).warnings@);
                }
                plain
            } else if path.len() > 0 {
                // The path could instead end in an enum whose variants are
                // imported: try that reading into a second, independent
                // child collector.
                let enum_name = path[path.len() - 1];
                let prefix = path_prefix(&path);
                let mut fallback_collector = DiagnosticCollector::new();
                let fallback = ns.variant_star_import(
                    &mut fallback_collector,
                    &prefix,
                    enum_name,
                    span,
                );
                if fallback.is_ok() {
                    collector.append(fallback_collector);
                    proof {
                        assert(collector.errors@ =~= old(collector).errors@ + o.errors);
                        assert(collector.warnings@ =~= old(collector).warnings@);
                    }
                    fallback
                } else {
                    // Both readings failed: surface the plain attempt's
                    // diagnostics and silently drop the fallback's.
                    collector.append(plain_collector);
                    proof {
                        assert(collector.errors@ =~= old(collector).errors@ + o.errors);
                        assert(collector.warnings@ =~= old(collector).warnings@);
                    }
                    plain
                }
            } else {
                collector.append(plain_collector);
                proof {
                    assert(collector.errors@ =~= old(collector).errors@ + o.errors);
                    assert(collector.warnings@ =~= old(collector).warnings@);
                }
                plain
            }
        },
        ImportType::Item { name } => {
            // The plain reading first, into an isolated child collector.
            let mut plain_collector = DiagnosticCollector::new();
            let plain = ns.item_import(&mut plain_collector, &path, name, u.alias, span);
            if plain.is_ok() {
                collector.append(plain_collector);
                proof {
                    assert(collector.errors@ =~= old(collector).errors@ + o.errors);
                    assert(collector.warnings@ =~= old(collector).warnings@);
                }
                plain
            } else if path.len() > 0 {
                // The requested item could instead be a variant of an enum
                // named by the path's final segment.
                let enum_name = path[path.len() - 1];
                let prefix = path_prefix(&path);
                let mut fallback_collector = DiagnosticCollector::new();
                let fallback = ns.variant_import(
                    &mut fallback_collector,
                    &prefix,
                    enum_name,
                    name,
                    u.alias,
                    span,
                );
                if fallback.is_ok() {
                    collector.append(fallback_collector);
                    proof {
                        assert(collector.errors@ =~= old(collector).errors@ + o.errors);
                        assert(collector.warnings@ =~= old(collector).warnings@);
                    }
                    fallback
                } else {
                    // Both readings failed: surface the plain attempt's
                    // diagnostics and silently drop the fallback's.
                    collector.append(plain_collector);
                    proof {
                        assert(collector.errors@ =~= old(collector).errors@ + o.errors);
                        assert(collector.warnings@ =~= old(collector).warnings@);
                    }
                    plain
                }
            } else {
                collector.append(plain_collector);
                proof {
                    assert(collector.errors@ =~= old(collector).errors@ + o.errors);
                    assert(collector.warnings@ =~= old(collector).warnings@);
                }
                plain
            }
        },
        ImportType::SelfImport => {
            // A single attempt, written straight into the live collector.
            ns.self_import(collector, &path, u.alias, span)
        },
    }
}

} // verus!
