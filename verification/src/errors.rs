//! Error taxonomy of the emulator core.
//!
//! Every failure a core operation can report is one of a small, closed set of
//! kinds, so a host can tell a recoverable guest fault (an unmapped memory
//! access, a rejected mapping) from an internal-invariant violation (a
//! decoder/handler mismatch) and from a form that is simply not implemented
//! yet.

use vstd::prelude::*;

verus! {

/// The kind of a core failure.
#[derive(Clone, Copy, Debug, PartialEq, Eq, Structural)]
pub enum AxErrorKind {
    /// A read or write range was not fully contained in exactly one mapped
    /// memory area.
    MemoryAccess,
    /// A requested new memory area overlaps the code region or an existing
    /// area, or does not fit in the address space.
    Mapping,
    /// An instruction handler received an operand kind or width its encoding
    /// form does not support: a decoder/handler mismatch, never expected for
    /// correctly decoded guest code.
    InvalidOperand,
    /// The encoding form is recognized but its semantics are not implemented.
    Unimplemented,
    /// No candidate stack start address below the address ceiling could be
    /// mapped.
    StackExhausted,
}

/// An error returned by the emulator core.
#[derive(Clone, Copy, Debug, PartialEq, Eq, Structural)]
pub struct AxError {
    pub kind: AxErrorKind,
}

impl AxErrorKind {
    /// The wording of this failure kind.
    pub open spec fn spec_message(self) -> Seq<char> {
        match self {
            AxErrorKind::MemoryAccess => "memory range is not fully contained in one mapped area"@,
            AxErrorKind::Mapping => "memory area would overlap the code region, an existing area, or the end of the address space"@,
            AxErrorKind::InvalidOperand => "operand kind or width is not supported by this encoding form"@,
            AxErrorKind::Unimplemented => "encoding form is recognized but not implemented"@,
            AxErrorKind::StackExhausted => "no suitable stack start address below the address ceiling"@,
        }
    }
}

impl AxError {
    /// Builds an error of the given kind.
    pub fn new(kind: AxErrorKind) -> (r: AxError)
        ensures
            r.kind == kind,
    {
        AxError { kind }
    }

    /// A human-readable description of the failure.
    pub fn message(&self) -> (r: String)
        ensures
            r@ == self.kind.spec_message(),
    {
        match self.kind {
            AxErrorKind::MemoryAccess => "memory range is not fully contained in one mapped area"
                .to_owned(),
            AxErrorKind::Mapping => "memory area would overlap the code region, an existing area, or the end of the address space"
                .to_owned(),
            AxErrorKind::InvalidOperand => "operand kind or width is not supported by this encoding form"
                .to_owned(),
            AxErrorKind::Unimplemented => "encoding form is recognized but not implemented"
                .to_owned(),
            AxErrorKind::StackExhausted => "no suitable stack start address below the address ceiling"
                .to_owned(),
        }
    }

    /// True exactly when this error reports a failed memory access.
    pub fn is_memory_access(&self) -> (r: bool)
        ensures
            r == (self.kind == AxErrorKind::MemoryAccess),
    {
        matches!(self.kind, AxErrorKind::MemoryAccess)
    }
}

} // verus!
