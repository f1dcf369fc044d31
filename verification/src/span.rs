use vstd::prelude::*;

verus! {

/// A half-open range of byte offsets into the source text.
///
/// Every raw node carries the span of the construct it was parsed from, and
/// its typed counterpart keeps that span unchanged, so that every diagnostic
/// can point back at the source text.
#[derive(Clone, Copy, PartialEq, Eq, Structural, Debug)]
pub struct Span {
    pub start: usize,
    pub end: usize,
}

} // verus!
