//! Scalar element kinds and the direction-specific capability tables that
//! relate them to the host's numeric array kinds.

use vstd::prelude::*;

verus! {

/// Every scalar element kind the boundary understands.
///
/// The first group (`Int8` .. `Float64`) has a direct host counterpart. The
/// engine-only group (`Int64`, `Uint64`, `Float16`, `Bool`) is narrowed on
/// extraction. The remaining kinds (`SymDim`, `Blob`, `Str`, quantized and
/// anything else the engine may report, collected under `Other`) can live in
/// an intermediate buffer but never cross the boundary.
#[derive(Clone, Copy, PartialEq, Eq, Structural, Debug)]
pub enum NumericKind {
    Int8,
    Uint8,
    Int16,
    Uint16,
    Int32,
    Uint32,
    Int64,
    Uint64,
    Float16,
    Float32,
    Float64,
    Bool,
    SymDim,
    Blob,
    Str,
    QInt8,
    QUint8,
    Other,
}

/// The host's numeric array kinds, as one closed enumeration used for both
/// directions. Which kinds are accepted on input and which are produced on
/// output is decided by the explicit tables below; the two directions are
/// deliberately not symmetric (`Uint32` is produced on output but never
/// accepted on input).
#[derive(Clone, Copy, PartialEq, Eq, Structural, Debug)]
pub enum HostArrayKind {
    Int8,
    Uint8,
    Uint8Clamped,
    Int16,
    Uint16,
    Int32,
    Uint32,
    Float32,
    Float64,
}

/// Storage width in bytes of one element, or 0 for kinds whose storage the
/// boundary cannot represent as plain bytes.
pub open spec fn width(k: NumericKind) -> nat {
    match k {
        NumericKind::Int8 | NumericKind::Uint8 | NumericKind::Bool => 1,
        NumericKind::Int16 | NumericKind::Uint16 | NumericKind::Float16 => 2,
        NumericKind::Int32 | NumericKind::Uint32 | NumericKind::Float32 => 4,
        NumericKind::Int64 | NumericKind::Uint64 | NumericKind::Float64 => 8,
        _ => 0,
    }
}

/// A kind is plain-old-data when its elements are fixed-width byte groups.
pub open spec fn is_pod(k: NumericKind) -> bool {
    width(k) != 0
}

/// Input direction of the capability table: which buffer kind a host array
/// kind produces, or `None` where the kind is not accepted on input.
pub open spec fn input_kind(h: HostArrayKind) -> Option<NumericKind> {
    match h {
        HostArrayKind::Int8 => Some(NumericKind::Int8),
        HostArrayKind::Uint8 => Some(NumericKind::Uint8),
        HostArrayKind::Uint8Clamped => Some(NumericKind::Uint8),
        HostArrayKind::Int16 => Some(NumericKind::Int16),
        HostArrayKind::Uint16 => Some(NumericKind::Uint16),
        HostArrayKind::Int32 => Some(NumericKind::Int32),
        HostArrayKind::Uint32 => None,
        HostArrayKind::Float32 => Some(NumericKind::Float32),
        HostArrayKind::Float64 => Some(NumericKind::Float64),
    }
}

/// Output direction of the capability table: which host array kind a buffer
/// kind extracts to (after narrowing where needed), or `None` where
/// extraction is unsupported.
pub open spec fn output_kind(k: NumericKind) -> Option<HostArrayKind> {
    match k {
        NumericKind::Int8 => Some(HostArrayKind::Int8),
        NumericKind::Uint8 => Some(HostArrayKind::Uint8),
        NumericKind::Int16 => Some(HostArrayKind::Int16),
        NumericKind::Uint16 => Some(HostArrayKind::Uint16),
        NumericKind::Int32 => Some(HostArrayKind::Int32),
        NumericKind::Uint32 => Some(HostArrayKind::Uint32),
        NumericKind::Int64 => Some(HostArrayKind::Int32),
        NumericKind::Uint64 => Some(HostArrayKind::Uint32),
        NumericKind::Float16 => Some(HostArrayKind::Float32),
        NumericKind::Float32 => Some(HostArrayKind::Float32),
        NumericKind::Float64 => Some(HostArrayKind::Float64),
        NumericKind::Bool => Some(HostArrayKind::Uint8),
        _ => None,
    }
}

/// Executable twin of [`width`].
pub fn width_of(k: NumericKind) -> (w: usize)
    ensures
        w == width(k),
{
    match k {
        NumericKind::Int8 | NumericKind::Uint8 | NumericKind::Bool => 1,
        NumericKind::Int16 | NumericKind::Uint16 | NumericKind::Float16 => 2,
        NumericKind::Int32 | NumericKind::Uint32 | NumericKind::Float32 => 4,
        NumericKind::Int64 | NumericKind::Uint64 | NumericKind::Float64 => 8,
        _ => 0,
    }
}

/// Executable twin of [`input_kind`].
pub fn input_kind_of(h: HostArrayKind) -> (k: Option<NumericKind>)
    ensures
        k == input_kind(h),
{
    match h {
        HostArrayKind::Int8 => Some(NumericKind::Int8),
        HostArrayKind::Uint8 => Some(NumericKind::Uint8),
        HostArrayKind::Uint8Clamped => Some(NumericKind::Uint8),
        HostArrayKind::Int16 => Some(NumericKind::Int16),
        HostArrayKind::Uint16 => Some(NumericKind::Uint16),
        HostArrayKind::Int32 => Some(NumericKind::Int32),
        HostArrayKind::Uint32 => None,
        HostArrayKind::Float32 => Some(NumericKind::Float32),
        HostArrayKind::Float64 => Some(NumericKind::Float64),
    }
}

/// Executable twin of [`output_kind`].
pub fn output_kind_of(k: NumericKind) -> (h: Option<HostArrayKind>)
    ensures
        h == output_kind(k),
{
    match k {
        NumericKind::Int8 => Some(HostArrayKind::Int8),
        NumericKind::Uint8 => Some(HostArrayKind::Uint8),
        NumericKind::Int16 => Some(HostArrayKind::Int16),
        NumericKind::Uint16 => Some(HostArrayKind::Uint16),
        NumericKind::Int32 => Some(HostArrayKind::Int32),
        NumericKind::Uint32 => Some(HostArrayKind::Uint32),
        NumericKind::Int64 => Some(HostArrayKind::Int32),
        NumericKind::Uint64 => Some(HostArrayKind::Uint32),
        NumericKind::Float16 => Some(HostArrayKind::Float32),
        NumericKind::Float32 => Some(HostArrayKind::Float32),
        NumericKind::Float64 => Some(HostArrayKind::Float64),
        NumericKind::Bool => Some(HostArrayKind::Uint8),
        _ => None,
    }
}

} // verus!
