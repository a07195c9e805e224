//! The type classifier: which vertex format, and how many bytes, a declared
//! type stands for.

use vstd::prelude::*;

use crate::types::{ScalarKind, TypeDescriptor, VectorSize};

verus! {

/// The vertex attribute formats that a layout can hold.
#[derive(Clone, Copy, Debug, PartialEq, Eq, Structural)]
pub enum FormatId {
    R32Float,
    R32G32Float,
    R32G32B32Float,
    R32G32B32A32Float,
}

/// Why no layout could be derived.
#[derive(Clone, Copy, Debug, PartialEq, Eq, Structural)]
pub enum LayoutError {
    /// A type that has no entry in the format or size table.
    UnsupportedType(TypeDescriptor),
    /// An offset or the stride does not fit in 32 bits.
    OffsetOverflow,
}

/// The format of a type, where the format table has one.
pub open spec fn format_of(t: TypeDescriptor) -> Option<FormatId> {
    match t {
        TypeDescriptor::Scalar { kind: ScalarKind::Float, width: 4 } => Some(FormatId::R32Float),
        TypeDescriptor::Vector { size, kind: ScalarKind::Float, width: 4 } => match size {
            VectorSize::Bi => Some(FormatId::R32G32Float),
            VectorSize::Tri => Some(FormatId::R32G32B32Float),
            VectorSize::Quad => Some(FormatId::R32G32B32A32Float),
        },
        _ => None,
    }
}

/// The size of a value of a type in bytes, where the size table has one.
pub open spec fn size_of(t: TypeDescriptor) -> Option<nat> {
    match t {
        TypeDescriptor::Scalar { kind: _, width } => Some(width as nat),
        TypeDescriptor::Vector { size, kind: _, width } => Some(size.spec_components() * (width as nat)),
        TypeDescriptor::Other => None,
    }
}

/// Maps a type to its vertex attribute format; only 32-bit float scalars and
/// vectors have one.
pub fn classify(t: TypeDescriptor) -> (r: Result<FormatId, LayoutError>)
    ensures
        r == (match format_of(t) {
            Some(f) => Ok(f),
            None => Err(LayoutError::UnsupportedType(t)),
        }),
{
    match t {
        TypeDescriptor::Scalar { kind: ScalarKind::Float, width: 4 } => Ok(FormatId::R32Float),
        TypeDescriptor::Vector { size, kind: ScalarKind::Float, width: 4 } => match size {
            VectorSize::Bi => Ok(FormatId::R32G32Float),
            VectorSize::Tri => Ok(FormatId::R32G32B32Float),
            VectorSize::Quad => Ok(FormatId::R32G32B32A32Float),
        },
        _ => Err(LayoutError::UnsupportedType(t)),
    }
}

/// The size in bytes of a value of the type: the width of a scalar, the width
/// times the component count of a vector.
pub fn byte_size(t: TypeDescriptor) -> (r: Result<u32, LayoutError>)
    ensures
        r == (match size_of(t) {
            Some(n) => Ok(n as u32),
            None => Err(LayoutError::UnsupportedType(t)),
        }),
        r is Ok ==> r->Ok_0 == size_of(t)->Some_0,
{
    match t {
        TypeDescriptor::Scalar { kind: _, width } => Ok(width as u32),
        TypeDescriptor::Vector { size, kind: _, width } => {
            let n = size.components();
            assert(n * width <= 4 * 255) by (nonlinear_arith)
                requires
                    n <= 4,
                    width <= 255,
            ;
            Ok(n * width as u32)
        },
        TypeDescriptor::Other => Err(LayoutError::UnsupportedType(t)),
    }
}

} // verus!
