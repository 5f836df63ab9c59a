//! The error taxonomy of the boundary.
//!
//! Construction errors arise at the tensor boundary, fact errors while a
//! declarative constraint is parsed, pipeline errors across
//! load / configure / resolve / run. Engine diagnostics are wrapped verbatim
//! in `ParseError` and `EngineFailure`, never reinterpreted.

use vstd::prelude::*;

verus! {

#[derive(Debug)]
pub enum CoreError {
    /// The value is not one of the enumerated host or boundary kinds, or the
    /// kind cannot cross the boundary in this direction.
    UnsupportedType,
    /// A buffer's data length contradicts its shape, or a fact contradicts an
    /// already-fixed dimension.
    ShapeMismatch,
    /// The underlying storage is not contiguous in row-major order; only
    /// detectable at extraction time.
    NonContiguousLayout,
    /// Neither a dtype slot nor a dims slot was given.
    IncompleteFact,
    /// A dimension entry is not a number, a single-character name, or an
    /// affine record.
    InvalidDimensionSpec,
    /// The dtype slot names no kind of the host-facing table.
    UnknownDtypeName,
    /// A fact with symbolic dimensions was applied where full shape
    /// resolution is mandatory.
    UnresolvedSymbolicDimension,
    /// The engine could not read a graph from the given bytes; carries the
    /// engine's diagnostic verbatim.
    ParseError(String),
    /// A fact index is not below the graph's input count.
    IndexOutOfRange,
    /// An input or output name is absent from the graph.
    UnknownTensorName,
    /// The number of run inputs differs from the plan's input count.
    ArityMismatch,
    /// An operation was attempted out of pipeline order.
    InvalidState,
    /// The engine failed during fact application, inference, optimization or
    /// execution; carries the engine's diagnostic verbatim.
    EngineFailure(String),
}

impl CoreError {
    /// A short stable name for the variant, for host-side reporting.
    pub fn label(&self) -> &'static str {
        match self {
            CoreError::UnsupportedType => "unsupported type",
            CoreError::ShapeMismatch => "shape mismatch",
            CoreError::NonContiguousLayout => "non-contiguous layout",
            CoreError::IncompleteFact => "incomplete fact",
            CoreError::InvalidDimensionSpec => "invalid dimension spec",
            CoreError::UnknownDtypeName => "unknown dtype name",
            CoreError::UnresolvedSymbolicDimension => "unresolved symbolic dimension",
            CoreError::ParseError(_) => "parse error",
            CoreError::IndexOutOfRange => "index out of range",
            CoreError::UnknownTensorName => "unknown tensor name",
            CoreError::ArityMismatch => "arity mismatch",
            CoreError::InvalidState => "invalid state",
            CoreError::EngineFailure(_) => "engine failure",
        }
    }
}

} // verus!
