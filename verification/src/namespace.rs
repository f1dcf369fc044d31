use vstd::prelude::*;

use crate::diagnostics::CompileError;
use crate::diagnostics::DiagnosticCollector;
use crate::diagnostics::ErrorEmitted;
use crate::span::Span;
use crate::types::TypeInfo;

verus! {

/// What a bound name stands for.
#[derive(Clone, Copy, PartialEq, Eq, Structural, Debug)]
pub enum ItemKind {
    /// A value of a known type.
    Value { ty: TypeInfo },
    /// A module, bound as a name by a self-import.
    ModuleRef,
    /// A variant of the named enum, importable as an item of its own.
    EnumVariant { enum_name: u64 },
}

/// One bound name in a module or in the current scope. Names are interned
/// symbols.
#[derive(Clone, Copy, PartialEq, Eq, Structural, Debug)]
pub struct Binding {
    pub name: u64,
    pub item: ItemKind,
}

/// An enum declared in a module, with the symbols of its variants.
#[derive(Clone, PartialEq, Eq, Debug)]
pub struct EnumDecl {
    pub name: u64,
    pub variants: Vec<u64>,
}

/// The mathematical shape of an enum declaration.
#[verifier::ext_equal]
pub ghost struct EnumDeclV {
    pub name: u64,
    pub variants: Seq<u64>,
}

impl View for EnumDecl {
    type V = EnumDeclV;

    open spec fn view(&self) -> EnumDeclV {
        EnumDeclV { name: self.name, variants: self.variants@ }
    }
}

/// A module of the program: its absolute path, the items it exports and the
/// enums declared in it.
#[derive(Clone, PartialEq, Eq, Debug)]
pub struct Module {
    pub path: Vec<u64>,
    pub items: Vec<Binding>,
    pub enums: Vec<EnumDecl>,
}

/// The mathematical shape of a module.
#[verifier::ext_equal]
pub ghost struct ModuleV {
    pub path: Seq<u64>,
    pub items: Seq<Binding>,
    pub enums: Seq<EnumDeclV>,
}

impl View for Module {
    type V = ModuleV;

    open spec fn view(&self) -> ModuleV {
        ModuleV {
            path: self.path@,
            items: self.items@,
            enums: self.enums@.map_values(|e: EnumDecl| e@),
        }
    }
}

/// The namespace collaborator: the module tree, the path of the module being
/// checked, and the bindings visible in the current scope.
///
/// Resolution never alters the module tree or the current path; successful
/// imports and declarations only add bindings to the current scope, and a
/// failed resolution attempt leaves the namespace exactly as it was — the
/// guarantee that makes speculative attempts safe to discard.
pub struct Namespace {
    pub modules: Vec<Module>,
    pub current: Vec<u64>,
    pub bindings: Vec<Binding>,
}

/// The mathematical shape of a namespace.
#[verifier::ext_equal]
pub ghost struct NamespaceV {
    pub modules: Seq<ModuleV>,
    pub current: Seq<u64>,
    pub bindings: Seq<Binding>,
}

impl View for Namespace {
    type V = NamespaceV;

    open spec fn view(&self) -> NamespaceV {
        NamespaceV {
            modules: self.modules@.map_values(|m: Module| m@),
            current: self.current@,
            bindings: self.bindings@,
        }
    }
}

/// The module bound at `path`: the latest definition wins.
pub open spec fn find_module(modules: Seq<ModuleV>, path: Seq<u64>) -> Option<ModuleV>
    decreases modules.len(),
{
    if modules.len() == 0 {
        None
    } else if modules.last().path == path {
        Some(modules.last())
    } else {
        find_module(modules.drop_last(), path)
    }
}

/// The binding of `name` among `items`: the latest binding shadows earlier
/// ones.
pub open spec fn find_binding(items: Seq<Binding>, name: u64) -> Option<Binding>
    decreases items.len(),
{
    if items.len() == 0 {
        None
    } else if items.last().name == name {
        Some(items.last())
    } else {
        find_binding(items.drop_last(), name)
    }
}

/// The enum declared under `name`: the latest declaration wins.
pub open spec fn find_enum(enums: Seq<EnumDeclV>, name: u64) -> Option<EnumDeclV>
    decreases enums.len(),
{
    if enums.len() == 0 {
        None
    } else if enums.last().name == name {
        Some(enums.last())
    } else {
        find_enum(enums.drop_last(), name)
    }
}

/// The name an import binds: the requested alias where one was given, the
/// item's own name otherwise.
pub open spec fn alias_or(alias: Option<u64>, name: u64) -> u64 {
    match alias {
        Some(a) => a,
        None => name,
    }
}

/// The complete outcome of one resolution attempt: whether it succeeded, the
/// namespace it leaves behind, and the diagnostics it produced. A failing
/// attempt always leaves the namespace unchanged.
#[verifier::ext_equal]
pub ghost struct AttemptV {
    pub ok: bool,
    pub ns: NamespaceV,
    pub errors: Seq<CompileError>,
}

/// The namespace with extra bindings added to the current scope.
pub open spec fn with_bindings(ns: NamespaceV, added: Seq<Binding>) -> NamespaceV {
    NamespaceV { modules: ns.modules, current: ns.current, bindings: ns.bindings + added }
}

/// Star import: bring all items of the module at `path` into scope.
pub open spec fn star_attempt(ns: NamespaceV, path: Seq<u64>, span: Span) -> AttemptV {
    match find_module(ns.modules, path) {
        Some(m) => AttemptV { ok: true, ns: with_bindings(ns, m.items), errors: seq![] },
        None => AttemptV {
            ok: false,
            ns,
            errors: seq![CompileError::ModuleNotFound { span }],
        },
    }
}

/// Variant star import: treat `enum_name` as an enum in the module at
/// `prefix` and bring all its variants into scope as importable items.
pub open spec fn variant_star_attempt(
    ns: NamespaceV,
    prefix: Seq<u64>,
    enum_name: u64,
    span: Span,
) -> AttemptV {
    match find_module(ns.modules, prefix) {
        None => AttemptV {
            ok: false,
            ns,
            errors: seq![CompileError::ModuleNotFound { span }],
        },
        Some(m) => match find_enum(m.enums, enum_name) {
            None => AttemptV {
                ok: false,
                ns,
                errors: seq![CompileError::EnumNotFound { name: enum_name, span }],
            },
            Some(e) => AttemptV {
                ok: true,
                ns: with_bindings(
                    ns,
                    e.variants.map_values(
                        |v: u64| Binding { name: v, item: ItemKind::EnumVariant { enum_name } },
                    ),
                ),
                errors: seq![],
            },
        },
    }
}

/// Item import: bind the single item `name` of the module at `path`, under
/// the alias where one was given.
pub open spec fn item_attempt(
    ns: NamespaceV,
    path: Seq<u64>,
    name: u64,
    alias: Option<u64>,
    span: Span,
) -> AttemptV {
    match find_module(ns.modules, path) {
        None => AttemptV {
            ok: false,
            ns,
            errors: seq![CompileError::ModuleNotFound { span }],
        },
        Some(m) => match find_binding(m.items, name) {
            None => AttemptV {
                ok: false,
                ns,
                errors: seq![CompileError::SymbolNotFound { name, span }],
            },
            Some(b) => AttemptV {
                ok: true,
                ns: with_bindings(
                    ns,
                    seq![Binding { name: alias_or(alias, name), item: b.item }],
                ),
                errors: seq![],
            },
        },
    }
}

/// Variant import: treat `enum_name` as an enum in the module at `prefix` and
/// bind its variant `name`, under the alias where one was given.
pub open spec fn variant_attempt(
    ns: NamespaceV,
    prefix: Seq<u64>,
    enum_name: u64,
    name: u64,
    alias: Option<u64>,
    span: Span,
) -> AttemptV {
    match find_module(ns.modules, prefix) {
        None => AttemptV {
            ok: false,
            ns,
            errors: seq![CompileError::ModuleNotFound { span }],
        },
        Some(m) => match find_enum(m.enums, enum_name) {
            None => AttemptV {
                ok: false,
                ns,
                errors: seq![CompileError::EnumNotFound { name: enum_name, span }],
            },
            Some(e) => if e.variants.contains(name) {
                AttemptV {
                    ok: true,
                    ns: with_bindings(
                        ns,
                        seq![
                            Binding {
                                name: alias_or(alias, name),
                                item: ItemKind::EnumVariant { enum_name },
                            },
                        ],
                    ),
                    errors: seq![],
                }
            } else {
                AttemptV {
                    ok: false,
                    ns,
                    errors: seq![
                        CompileError::VariantNotFound { enum_name, variant: name, span },
                    ],
                }
            },
        },
    }
}

/// Self import: bind the module at `path` itself, under its final segment or
/// the alias where one was given. The one single-attempt import kind.
pub open spec fn self_attempt(
    ns: NamespaceV,
    path: Seq<u64>,
    alias: Option<u64>,
    span: Span,
) -> AttemptV {
    if path.len() == 0 {
        AttemptV {
            ok: false,
            ns,
            errors: seq![CompileError::ModuleNotFound { span }],
        }
    } else {
        match find_module(ns.modules, path) {
            None => AttemptV {
                ok: false,
                ns,
                errors: seq![CompileError::ModuleNotFound { span }],
            },
            Some(_) => AttemptV {
                ok: true,
                ns: with_bindings(
                    ns,
                    seq![
                        Binding { name: alias_or(alias, path.last()), item: ItemKind::ModuleRef },
                    ],
                ),
                errors: seq![],
            },
        }
    }
}

/// Element-wise equality of two paths.
fn path_eq(a: &Vec<u64>, b: &Vec<u64>) -> (r: bool)
    ensures
        r == (a@ == b@),
{
    if a.len() != b.len() {
        return false;
    }
    let mut i: usize = 0;
    while i < a.len()
        invariant
            i <= a.len(),
            a@.len() == b@.len(),
            forall|k: int| 0 <= k < i ==> a@[k] == b@[k],
        decreases a.len() - i,
    {
        if a[i] != b[i] {
            return false;
        }
        i += 1;
    }
    proof {
        assert(a@ =~= b@);
    }
    true
}

/// The binding of `name` among `items`, scanning from the latest binding
/// back.
fn find_binding_in(items: &Vec<Binding>, name: u64) -> (r: Option<Binding>)
    ensures
        r == find_binding(items@, name),
{
    let mut i: usize = items.len();
    proof {
        assert(items@.take(items@.len() as int) =~= items@);
    }
    while i > 0
        invariant
            i <= items.len(),
            find_binding(items@, name) == find_binding(items@.take(i as int), name),
        decreases i,
    {
        i = i - 1;
        proof {
            assert(items@.take(i + 1).last() == items@[i as int]);
        }
        if items[i].name == name {
            return Some(items[i]);
        }
        proof {
            assert(items@.take(i + 1).drop_last() =~= items@.take(i as int));
        }
    }
    proof {
        assert(items@.take(0) =~= Seq::<Binding>::empty());
    }
    None
}

/// The index of the enum declared under `name`, scanning from the latest
/// declaration back.
fn find_enum_index(enums: &Vec<EnumDecl>, name: u64) -> (r: Option<usize>)
    ensures
        ({
            let es = enums@.map_values(|e: EnumDecl| e@);
            match r {
                Some(i) => i < enums@.len() && find_enum(es, name) == Some(es[i as int]),
                None => find_enum(es, name) is None,
            }
        }),
{
    let ghost es = enums@.map_values(|e: EnumDecl| e@);
    let mut i: usize = enums.len();
    proof {
        assert(es.take(es.len() as int) =~= es);
    }
    while i > 0
        invariant
            i <= enums.len(),
            es == enums@.map_values(|e: EnumDecl| e@),
            es.len() == enums@.len(),
            find_enum(es, name) == find_enum(es.take(i as int), name),
        decreases i,
    {
        i = i - 1;
        proof {
            assert(es.take(i + 1).last() == es[i as int]);
        }
        if enums[i].name == name {
            return Some(i);
        }
        proof {
            assert(es.take(i + 1).drop_last() =~= es.take(i as int));
        }
    }
    proof {
        assert(es.take(0) =~= Seq::<EnumDeclV>::empty());
    }
    None
}

/// Whether `names` holds `name`.
fn names_contain(names: &Vec<u64>, name: u64) -> (r: bool)
    ensures
        r == names@.contains(name),
{
    let mut i: usize = 0;
    while i < names.len()
        invariant
            i <= names.len(),
            forall|k: int| 0 <= k < i ==> names@[k] != name,
        decreases names.len() - i,
    {
        if names[i] == name {
            return true;
        }
        i += 1;
    }
    false
}

impl Namespace {
    /// The index of the module bound at `path`, scanning from the latest
    /// definition back.
    fn find_module_index(&self, path: &Vec<u64>) -> (r: Option<usize>)
        ensures
            match r {
                Some(i) => i < self.modules@.len() && find_module(self@.modules, path@)
                    == Some(self@.modules[i as int]),
                None => find_module(self@.modules, path@) is None,
            },
    {
        let ghost mods = self@.modules;
        let mut i: usize = self.modules.len();
        proof {
            assert(mods.take(mods.len() as int) =~= mods);
        }
        while i > 0
            invariant
                i <= self.modules.len(),
                mods == self@.modules,
                mods.len() == self.modules@.len(),
                find_module(mods, path@) == find_module(mods.take(i as int), path@),
            decreases i,
        {
            i = i - 1;
            if path_eq(&self.modules[i].path, path) {
                proof {
                    assert(mods.take(i + 1).last() == mods[i as int]);
                    assert(mods[i as int].path == path@);
                }
                return Some(i);
            }
            proof {
                assert(mods.take(i + 1).last() == mods[i as int]);
                assert(mods.take(i + 1).drop_last() =~= mods.take(i as int));
            }
        }
        proof {
            assert(mods.take(0) =~= Seq::<ModuleV>::empty());
        }
        None
    }

    /// The full path of a relative call path: the current module's path
    /// followed by the given segments. Absolute paths are used as given and
    /// do not pass through here.
    pub fn find_module_path(&self, call_path: &Vec<u64>) -> (r: Vec<u64>)
        ensures
            r@ == self@.current + call_path@,
    {
        let mut r: Vec<u64> = Vec::new();
        let mut i: usize = 0;
        while i < self.current.len()
            invariant
                i <= self.current.len(),
                r@ == self.current@.take(i as int),
            decreases self.current.len() - i,
        {
            r.push(self.current[i]);
            i += 1;
        }
        proof {
            assert(self.current@.take(self.current@.len() as int) =~= self.current@);
        }
        let mut j: usize = 0;
        while j < call_path.len()
            invariant
                j <= call_path.len(),
                r@ == self.current@ + call_path@.take(j as int),
            decreases call_path.len() - j,
        {
            proof {
                assert((self.current@ + call_path@.take(j as int)).push(call_path@[j as int])
                    =~= self.current@ + call_path@.take(j + 1));
            }
            r.push(call_path[j]);
            j += 1;
        }
        proof {
            assert(self.current@ + call_path@.take(call_path@.len() as int)
                =~= self.current@ + call_path@);
        }
        r
    }

    /// The binding of `name` in the current scope, latest binding first.
    pub fn lookup_binding(&self, name: u64) -> (r: Option<Binding>)
        ensures
            r == find_binding(self@.bindings, name),
    {
        find_binding_in(&self.bindings, name)
    }

    /// Adds one binding to the current scope.
    pub fn bind(&mut self, b: Binding)
        ensures
            final(self)@ == with_bindings(old(self)@, seq![b]),
    {
        self.bindings.push(b);
        proof {
            assert(self@ =~= with_bindings(old(self)@, seq![b]));
        }
    }

    /// Star import: bring all items of the module at `path` into the current
    /// scope. On failure the namespace is untouched and exactly one error is
    /// written into the given collector.
    pub fn star_import(
        &mut self,
        collector: &mut DiagnosticCollector,
        path: &Vec<u64>,
        span: Span,
    ) -> (r: Result<(), ErrorEmitted>)
        ensures
            ({
                let a = star_attempt(old(self)@, path@, span);
                &&& final(self)@ == a.ns
                &&& (r is Ok) == a.ok
                &&& final(collector).errors@ == old(collector).errors@ + a.errors
                &&& final(collector).warnings@ == old(collector).warnings@
            }),
    {
        match self.find_module_index(path) {
            None => {
                let e = collector.emit_err(CompileError::ModuleNotFound { span });
                proof {
                    assert(old(collector).errors@.push(CompileError::ModuleNotFound { span })
                        =~= old(collector).errors@ + star_attempt(old(self)@, path@, span).errors);
                    assert(self@ =~= star_attempt(old(self)@, path@, span).ns);
                }
                Err(e)
            },
            Some(mi) => {
                let ghost items = self@.modules[mi as int].items;
                let n = self.modules[mi].items.len();
                let mut k: usize = 0;
                while k < n
                    invariant
                        k <= n,
                        mi < self.modules@.len(),
                        n == self.modules@[mi as int].items@.len(),
                        self.modules@ == old(self).modules@,
                        self.current@ == old(self).current@,
                        items == self@.modules[mi as int].items,
                        items.len() == n,
                        self.bindings@ == old(self).bindings@ + items.take(k as int),
                    decreases n - k,
                {
                    proof {
                        assert((old(self).bindings@ + items.take(k as int)).push(items[k as int])
                            =~= old(self).bindings@ + items.take(k + 1));
                        assert(items[k as int] == self.modules@[mi as int].items@[k as int]);
                    }
                    let b = self.modules[mi].items[k];
                    self.bindings.push(b);
                    k += 1;
                }
                proof {
                    assert(items.take(n as int) =~= items);
                    assert(self@ =~= star_attempt(old(self)@, path@, span).ns);
                    assert(old(collector).errors@ + star_attempt(old(self)@, path@, span).errors
                        =~= old(collector).errors@);
                }
                Ok(())
            },
        }
    }

    /// Variant star import: treat `enum_name` as an enum declared in the
    /// module at `prefix` and bring all its variants into the current scope
    /// as importable items. On failure the namespace is untouched and exactly
    /// one error is written into the given collector.
    pub fn variant_star_import(
        &mut self,
        collector: &mut DiagnosticCollector,
        prefix: &Vec<u64>,
        enum_name: u64,
        span: Span,
    ) -> (r: Result<(), ErrorEmitted>)
        ensures
            ({
                let a = variant_star_attempt(old(self)@, prefix@, enum_name, span);
                &&& final(self)@ == a.ns
                &&& (r is Ok) == a.ok
                &&& final(collector).errors@ == old(collector).errors@ + a.errors
                &&& final(collector).warnings@ == old(collector).warnings@
            }),
    {
        let ghost a = variant_star_attempt(old(self)@, prefix@, enum_name, span);
        match self.find_module_index(prefix) {
            None => {
                let e = collector.emit_err(CompileError::ModuleNotFound { span });
                proof {
                    assert(old(collector).errors@.push(CompileError::ModuleNotFound { span })
                        =~= old(collector).errors@ + a.errors);
                    assert(self@ =~= a.ns);
                }
                Err(e)
            },
            Some(mi) => {
                proof {
                    assert(self@.modules[mi as int].enums
                        == self.modules@[mi as int].enums@.map_values(|e: EnumDecl| e@));
                }
                match find_enum_index(&self.modules[mi].enums, enum_name) {
                    None => {
                        let e = collector.emit_err(
                            CompileError::EnumNotFound { name: enum_name, span },
                        );
                        proof {
                            assert(old(collector).errors@.push(
                                CompileError::EnumNotFound { name: enum_name, span },
                            ) =~= old(collector).errors@ + a.errors);
                            assert(self@ =~= a.ns);
                        }
                        Err(e)
                    },
                    Some(ei) => {
                        let ghost variants = self@.modules[mi as int].enums[ei as int].variants;
                        let ghost added = variants.map_values(
                            |v: u64| Binding { name: v, item: ItemKind::EnumVariant { enum_name } },
                        );
                        let n = self.modules[mi].enums[ei].variants.len();
                        let mut k: usize = 0;
                        proof {
                            assert(variants.take(0).map_values(
                                |v: u64| Binding {
                                    name: v,
                                    item: ItemKind::EnumVariant { enum_name },
                                },
                            ) =~= Seq::<Binding>::empty());
                            assert(old(self).bindings@ + Seq::<Binding>::empty()
                                =~= old(self).bindings@);
                        }
                        while k < n
                            invariant
                                k <= n,
                                mi < self.modules@.len(),
                                ei < self.modules@[mi as int].enums@.len(),
                                self.modules@ == old(self).modules@,
                                self.current@ == old(self).current@,
                                variants == self@.modules[mi as int].enums[ei as int].variants,
                                variants == self.modules@[mi as int].enums@[ei as int].variants@,
                                n == variants.len(),
                                self.bindings@ == old(self).bindings@ + variants.take(
                                    k as int,
                                ).map_values(
                                    |v: u64| Binding {
                                        name: v,
                                        item: ItemKind::EnumVariant { enum_name },
                                    },
                                ),
                            decreases n - k,
                        {
                            let v = self.modules[mi].enums[ei].variants[k];
                            proof {
                                assert((old(self).bindings@ + variants.take(k as int).map_values(
                                    |v: u64| Binding {
                                        name: v,
                                        item: ItemKind::EnumVariant { enum_name },
                                    },
                                )).push(Binding { name: v, item: ItemKind::EnumVariant { enum_name } })
                                    =~= old(self).bindings@ + variants.take(k + 1).map_values(
                                    |v: u64| Binding {
                                        name: v,
                                        item: ItemKind::EnumVariant { enum_name },
                                    },
                                ));
                            }
                            self.bindings.push(
                                Binding { name: v, item: ItemKind::EnumVariant { enum_name } },
                            );
                            k += 1;
                        }
                        proof {
                            assert(variants.take(n as int) =~= variants);
                            assert(self@ =~= a.ns);
                            assert(old(collector).errors@ + a.errors =~= old(collector).errors@);
                        }
                        Ok(())
                    },
                }
            },
        }
    }

    /// Item import: bind the single item `name` of the module at `path` into
    /// the current scope, under the alias where one was given. On failure the
    /// namespace is untouched and exactly one error is written into the given
    /// collector.
    pub fn item_import(
        &mut self,
        collector: &mut DiagnosticCollector,
        path: &Vec<u64>,
        name: u64,
        alias: Option<u64>,
        span: Span,
    ) -> (r: Result<(), ErrorEmitted>)
        ensures
            ({
                let a = item_attempt(old(self)@, path@, name, alias, span);
                &&& final(self)@ == a.ns
                &&& (r is Ok) == a.ok
                &&& final(collector).errors@ == old(collector).errors@ + a.errors
                &&& final(collector).warnings@ == old(collector).warnings@
            }),
    {
        let ghost a = item_attempt(old(self)@, path@, name, alias, span);
        match self.find_module_index(path) {
            None => {
                let e = collector.emit_err(CompileError::ModuleNotFound { span });
                proof {
                    assert(old(collector).errors@.push(CompileError::ModuleNotFound { span })
                        =~= old(collector).errors@ + a.errors);
                    assert(self@ =~= a.ns);
                }
                Err(e)
            },
            Some(mi) => {
                proof {
                    assert(self@.modules[mi as int].items == self.modules@[mi as int].items@);
                }
                match find_binding_in(&self.modules[mi].items, name) {
                    None => {
                        let e = collector.emit_err(CompileError::SymbolNotFound { name, span });
                        proof {
                            assert(old(collector).errors@.push(
                                CompileError::SymbolNotFound { name, span },
                            ) =~= old(collector).errors@ + a.errors);
                            assert(self@ =~= a.ns);
                        }
                        Err(e)
                    },
                    Some(b) => {
                        let bound_name = match alias {
                            Some(al) => al,
                            None => name,
                        };
                        self.bindings.push(Binding { name: bound_name, item: b.item });
                        proof {
                            assert(old(self).bindings@.push(
                                Binding { name: bound_name, item: b.item },
                            ) =~= old(self).bindings@ + seq![
                                Binding { name: bound_name, item: b.item },
                            ]);
                            assert(self@ =~= a.ns);
                            assert(old(collector).errors@ + a.errors =~= old(collector).errors@);
                        }
                        Ok(())
                    },
                }
            },
        }
    }

    /// Variant import: treat `enum_name` as an enum declared in the module at
    /// `prefix` and bind its variant `name` into the current scope, under the
    /// alias where one was given. On failure the namespace is untouched and
    /// exactly one error is written into the given collector.
    pub fn variant_import(
        &mut self,
        collector: &mut DiagnosticCollector,
        prefix: &Vec<u64>,
        enum_name: u64,
        name: u64,
        alias: Option<u64>,
        span: Span,
    ) -> (r: Result<(), ErrorEmitted>)
        ensures
            ({
                let a = variant_attempt(old(self)@, prefix@, enum_name, name, alias, span);
                &&& final(self)@ == a.ns
                &&& (r is Ok) == a.ok
                &&& final(collector).errors@ == old(collector).errors@ + a.errors
                &&& final(collector).warnings@ == old(collector).warnings@
            }),
    {
        let ghost a = variant_attempt(old(self)@, prefix@, enum_name, name, alias, span);
        match self.find_module_index(prefix) {
            None => {
                let e = collector.emit_err(CompileError::ModuleNotFound { span });
                proof {
                    assert(old(collector).errors@.push(CompileError::ModuleNotFound { span })
                        =~= old(collector).errors@ + a.errors);
                    assert(self@ =~= a.ns);
                }
                Err(e)
            },
            Some(mi) => {
                proof {
                    assert(self@.modules[mi as int].enums
                        == self.modules@[mi as int].enums@.map_values(|e: EnumDecl| e@));
                }
                match find_enum_index(&self.modules[mi].enums, enum_name) {
                    None => {
                        let e = collector.emit_err(
                            CompileError::EnumNotFound { name: enum_name, span },
                        );
                        proof {
                            assert(old(collector).errors@.push(
                                CompileError::EnumNotFound { name: enum_name, span },
                            ) =~= old(collector).errors@ + a.errors);
                            assert(self@ =~= a.ns);
                        }
                        Err(e)
                    },
                    Some(ei) => {
                        proof {
                            assert(self@.modules[mi as int].enums[ei as int].variants
                                == self.modules@[mi as int].enums@[ei as int].variants@);
                        }
                        if names_contain(&self.modules[mi].enums[ei].variants, name) {
                            let bound_name = match alias {
                                Some(al) => al,
                                None => name,
                            };
                            self.bindings.push(
                                Binding { name: bound_name, item: ItemKind::EnumVariant { enum_name } },
                            );
                            proof {
                                assert(old(self).bindings@.push(
                                    Binding {
                                        name: bound_name,
                                        item: ItemKind::EnumVariant { enum_name },
                                    },
                                ) =~= old(self).bindings@ + seq![
                                    Binding {
                                        name: bound_name,
                                        item: ItemKind::EnumVariant { enum_name },
                                    },
                                ]);
                                assert(self@ =~= a.ns);
                                assert(old(collector).errors@ + a.errors
                                    =~= old(collector).errors@);
                            }
                            Ok(())
                        } else {
                            let e = collector.emit_err(
                                CompileError::VariantNotFound { enum_name, variant: name, span },
                            );
                            proof {
                                assert(old(collector).errors@.push(
                                    CompileError::VariantNotFound { enum_name, variant: name, span },
                                ) =~= old(collector).errors@ + a.errors);
                                assert(self@ =~= a.ns);
                            }
                            Err(e)
                        }
                    },
                }
            },
        }
    }

    /// Self import: bind the module at `path` itself into the current scope,
    /// under its final segment or the alias where one was given. The one
    /// import kind with no fallback attempt. On failure the namespace is
    /// untouched and exactly one error is written into the given collector.
    pub fn self_import(
        &mut self,
        collector: &mut DiagnosticCollector,
        path: &Vec<u64>,
        alias: Option<u64>,
        span: Span,
    ) -> (r: Result<(), ErrorEmitted>)
        ensures
            ({
                let a = self_attempt(old(self)@, path@, alias, span);
                &&& final(self)@ == a.ns
                &&& (r is Ok) == a.ok
                &&& final(collector).errors@ == old(collector).errors@ + a.errors
                &&& final(collector).warnings@ == old(collector).warnings@
            }),
    {
        let ghost a = self_attempt(old(self)@, path@, alias, span);
        if path.len() == 0 {
            let e = collector.emit_err(CompileError::ModuleNotFound { span });
            proof {
                assert(old(collector).errors@.push(CompileError::ModuleNotFound { span })
                    =~= old(collector).errors@ + a.errors);
                assert(self@ =~= a.ns);
            }
            return Err(e);
        }
        match self.find_module_index(path) {
            None => {
                let e = collector.emit_err(CompileError::ModuleNotFound { span });
                proof {
                    assert(old(collector).errors@.push(CompileError::ModuleNotFound { span })
                        =~= old(collector).errors@ + a.errors);
                    assert(self@ =~= a.ns);
                }
                Err(e)
            },
            Some(_) => {
                let bound_name = match alias {
                    Some(al) => al,
                    None => path[path.len() - 1],
                };
                self.bindings.push(Binding { name: bound_name, item: ItemKind::ModuleRef });
                proof {
                    assert(old(self).bindings@.push(
                        Binding { name: bound_name, item: ItemKind::ModuleRef },
                    ) =~= old(self).bindings@ + seq![
                        Binding { name: bound_name, item: ItemKind::ModuleRef },
                    ]);
                    assert(self@ =~= a.ns);
                    assert(old(collector).errors@ + a.errors =~= old(collector).errors@);
                }
                Ok(())
            },
        }
    }
}

} // verus!
