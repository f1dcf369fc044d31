use vstd::prelude::*;

verus! {

/// The resolved static type of an expression, as the surrounding type system
/// reports it. Identifiers are interned symbols, so a user-defined enum type
/// carries the symbol of its name.
#[derive(Clone, Copy, PartialEq, Eq, Structural, Debug)]
pub enum TypeInfo {
    /// No expectation yet; used as the annotation of a bare expression
    /// statement, whose type is left entirely to the expression itself.
    Unknown,
    /// The zero-information type of statements evaluated for effect.
    Unit,
    Boolean,
    Unsigned64,
    /// The type of expressions that never produce a value.
    Never,
    /// The placeholder type of an expression whose checking failed and was
    /// absorbed into an error-marked node.
    ErrorRecovery,
    /// A user-defined enum type, named by its interned symbol.
    UserEnum { name: u64 },
}

/// Whether a value of this type may be silently discarded by a bare
/// expression statement without a warning. True exactly for the unit-like,
/// never-like and zero-information types.
pub open spec fn spec_is_discardable(t: TypeInfo) -> bool {
    match t {
        TypeInfo::Unknown => true,
        TypeInfo::Unit => true,
        TypeInfo::Never => true,
        TypeInfo::ErrorRecovery => true,
        TypeInfo::Boolean => false,
        TypeInfo::Unsigned64 => false,
        TypeInfo::UserEnum { .. } => false,
    }
}

#[verifier::when_used_as_spec(spec_is_discardable)]
pub fn is_discardable(t: TypeInfo) -> (r: bool)
    ensures
        r == spec_is_discardable(t),
{
    match t {
        TypeInfo::Unknown => true,
        TypeInfo::Unit => true,
        TypeInfo::Never => true,
        TypeInfo::ErrorRecovery => true,
        TypeInfo::Boolean => false,
        TypeInfo::Unsigned64 => false,
        TypeInfo::UserEnum { .. } => false,
    }
}

/// The display form of a type, as embedded in diagnostics.
pub open spec fn spec_rendered(t: TypeInfo) -> Seq<char> {
    match t {
        TypeInfo::Unknown => "{unknown}"@,
        TypeInfo::Unit => "()"@,
        TypeInfo::Boolean => "bool"@,
        TypeInfo::Unsigned64 => "u64"@,
        TypeInfo::Never => "!"@,
        TypeInfo::ErrorRecovery => "{error}"@,
        TypeInfo::UserEnum { .. } => "enum"@,
    }
}

/// Renders a type for inclusion in a diagnostic.
pub fn render_type(t: TypeInfo) -> (r: String)
    ensures
        r@ == spec_rendered(t),
{
    match t {
        TypeInfo::Unknown => "{unknown}".to_owned(),
        TypeInfo::Unit => "()".to_owned(),
        TypeInfo::Boolean => "bool".to_owned(),
        TypeInfo::Unsigned64 => "u64".to_owned(),
        TypeInfo::Never => "!".to_owned(),
        TypeInfo::ErrorRecovery => "{error}".to_owned(),
        TypeInfo::UserEnum { .. } => "enum".to_owned(),
    }
}

} // verus!
