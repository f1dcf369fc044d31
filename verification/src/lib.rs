//! Node-level semantic analysis for a compiler front end.
//!
//! The crate turns each parsed top-level statement of a source block into its
//! fully type-annotated counterpart, accumulating diagnostics as it goes. Its
//! centre is the import-statement resolver: a `use` path may mean a plain
//! module or item, or an enum whose variants are imported, and the resolver
//! tries both readings speculatively. Diagnostics from a trial that is not
//! adopted must never reach the user, which the diagnostic collector supports
//! through isolated child collectors and explicit, atomic merge-or-discard.

pub mod check;
pub mod diagnostics;
pub mod laws;
pub mod namespace;
pub mod nodes;
pub mod resolve;
pub mod span;
pub mod types;
