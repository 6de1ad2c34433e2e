//! Format mapping: converting a raw numeric type descriptor (flags,
//! signedness, bit width, component count) into a canonical element format.
//!
//! The mapping is a closed decision table. Every combination outside the
//! table is a reported error, never a silently substituted default, since a
//! wrong element format corrupts downstream buffer interpretation.

use crate::types::{FormatError, RawTypeDescriptor, TYPE_FLAG_FLOAT, TYPE_FLAG_INT};
use vstd::prelude::*;

verus! {

/// Canonical element format of a vertex attribute: a scalar base (signed
/// integer, unsigned integer or float of a given bit width) widened to one
/// to four components.
#[derive(Clone, Copy, Debug, PartialEq, Eq, Structural)]
#[allow(missing_docs)]
pub enum Format {
    R8Int,
    Rg8Int,
    Rgb8Int,
    Rgba8Int,
    R8Uint,
    Rg8Uint,
    Rgb8Uint,
    Rgba8Uint,
    R16Int,
    Rg16Int,
    Rgb16Int,
    Rgba16Int,
    R16Uint,
    Rg16Uint,
    Rgb16Uint,
    Rgba16Uint,
    R32Int,
    Rg32Int,
    Rgb32Int,
    Rgba32Int,
    R32Uint,
    Rg32Uint,
    Rgb32Uint,
    Rgba32Uint,
    R32Float,
    Rg32Float,
    Rgb32Float,
    Rgba32Float,
    R64Int,
    Rg64Int,
    Rgb64Int,
    Rgba64Int,
    R64Uint,
    Rg64Uint,
    Rgb64Uint,
    Rgba64Uint,
    R64Float,
    Rg64Float,
    Rgb64Float,
    Rgba64Float,
}

/// The numeric kind of a scalar base type.
#[derive(Clone, Copy, Debug, PartialEq, Eq, Structural)]
pub enum NumericKind {
    /// Signed integer.
    SInt,
    /// Unsigned integer.
    UInt,
    /// Floating point.
    Float,
}

/// The scalar base format for a numeric kind and bit width, if the fixed
/// table ({8,16,32,64} for integers, {32,64} for floats) has one.
pub open spec fn scalar_format(kind: NumericKind, width: u32) -> Option<Format> {
    match (kind, width) {
        (NumericKind::SInt, 8u32) => Some(Format::R8Int),
        (NumericKind::SInt, 16u32) => Some(Format::R16Int),
        (NumericKind::SInt, 32u32) => Some(Format::R32Int),
        (NumericKind::SInt, 64u32) => Some(Format::R64Int),
        (NumericKind::UInt, 8u32) => Some(Format::R8Uint),
        (NumericKind::UInt, 16u32) => Some(Format::R16Uint),
        (NumericKind::UInt, 32u32) => Some(Format::R32Uint),
        (NumericKind::UInt, 64u32) => Some(Format::R64Uint),
        (NumericKind::Float, 32u32) => Some(Format::R32Float),
        (NumericKind::Float, 64u32) => Some(Format::R64Float),
        _ => None,
    }
}

/// The `count`-component sibling of a scalar base format, if the table has
/// one (2, 3 or 4 components).
pub open spec fn vector_format(scalar: Format, count: u32) -> Option<Format> {
    match (scalar, count) {
        (Format::R8Int, 2u32) => Some(Format::Rg8Int),
        (Format::R8Int, 3u32) => Some(Format::Rgb8Int),
        (Format::R8Int, 4u32) => Some(Format::Rgba8Int),
        (Format::R16Int, 2u32) => Some(Format::Rg16Int),
        (Format::R16Int, 3u32) => Some(Format::Rgb16Int),
        (Format::R16Int, 4u32) => Some(Format::Rgba16Int),
        (Format::R32Int, 2u32) => Some(Format::Rg32Int),
        (Format::R32Int, 3u32) => Some(Format::Rgb32Int),
        (Format::R32Int, 4u32) => Some(Format::Rgba32Int),
        (Format::R64Int, 2u32) => Some(Format::Rg64Int),
        (Format::R64Int, 3u32) => Some(Format::Rgb64Int),
        (Format::R64Int, 4u32) => Some(Format::Rgba64Int),
        (Format::R8Uint, 2u32) => Some(Format::Rg8Uint),
        (Format::R8Uint, 3u32) => Some(Format::Rgb8Uint),
        (Format::R8Uint, 4u32) => Some(Format::Rgba8Uint),
        (Format::R16Uint, 2u32) => Some(Format::Rg16Uint),
        (Format::R16Uint, 3u32) => Some(Format::Rgb16Uint),
        (Format::R16Uint, 4u32) => Some(Format::Rgba16Uint),
        (Format::R32Uint, 2u32) => Some(Format::Rg32Uint),
        (Format::R32Uint, 3u32) => Some(Format::Rgb32Uint),
        (Format::R32Uint, 4u32) => Some(Format::Rgba32Uint),
        (Format::R64Uint, 2u32) => Some(Format::Rg64Uint),
        (Format::R64Uint, 3u32) => Some(Format::Rgb64Uint),
        (Format::R64Uint, 4u32) => Some(Format::Rgba64Uint),
        (Format::R32Float, 2u32) => Some(Format::Rg32Float),
        (Format::R32Float, 3u32) => Some(Format::Rgb32Float),
        (Format::R32Float, 4u32) => Some(Format::Rgba32Float),
        (Format::R64Float, 2u32) => Some(Format::Rg64Float),
        (Format::R64Float, 3u32) => Some(Format::Rgb64Float),
        (Format::R64Float, 4u32) => Some(Format::Rgba64Float),
        _ => None,
    }
}

/// The numeric kind encoded by a raw type descriptor: integer types take
/// precedence over float types, signedness selects between the two integer
/// kinds, and any other combination is unsupported.
pub open spec fn numeric_kind(t: RawTypeDescriptor) -> Option<NumericKind> {
    if t.flags & TYPE_FLAG_INT != 0 {
        if t.signedness == 0 {
            Some(NumericKind::UInt)
        } else if t.signedness == 1 {
            Some(NumericKind::SInt)
        } else {
            None
        }
    } else if t.flags & TYPE_FLAG_FLOAT != 0 {
        Some(NumericKind::Float)
    } else {
        None
    }
}

/// The whole decision table: numeric kind, then scalar width, then
/// component widening. Each failing step reports its own error.
pub open spec fn map_type_spec(t: RawTypeDescriptor) -> Result<Format, FormatError> {
    match numeric_kind(t) {
        None => Err(FormatError::UnsupportedType),
        Some(kind) => match scalar_format(kind, t.width) {
            None => Err(FormatError::UnsupportedWidth),
            Some(scalar) => if t.components <= 1 {
                Ok(scalar)
            } else {
                match vector_format(scalar, t.components) {
                    None => Err(FormatError::UnsupportedComponentCount),
                    Some(widened) => Ok(widened),
                }
            },
        },
    }
}

/// Looks up the scalar base format for a numeric kind and bit width.
fn scalar_format_exec(kind: NumericKind, width: u32) -> (r: Option<Format>)
    ensures
        r == scalar_format(kind, width),
{
    match (kind, width) {
        (NumericKind::SInt, 8u32) => Some(Format::R8Int),
        (NumericKind::SInt, 16u32) => Some(Format::R16Int),
        (NumericKind::SInt, 32u32) => Some(Format::R32Int),
        (NumericKind::SInt, 64u32) => Some(Format::R64Int),
        (NumericKind::UInt, 8u32) => Some(Format::R8Uint),
        (NumericKind::UInt, 16u32) => Some(Format::R16Uint),
        (NumericKind::UInt, 32u32) => Some(Format::R32Uint),
        (NumericKind::UInt, 64u32) => Some(Format::R64Uint),
        (NumericKind::Float, 32u32) => Some(Format::R32Float),
        (NumericKind::Float, 64u32) => Some(Format::R64Float),
        _ => None,
    }
}

/// Looks up the `count`-component sibling of a scalar base format.
fn vector_format_exec(scalar: Format, count: u32) -> (r: Option<Format>)
    ensures
        r == vector_format(scalar, count),
{
    match (scalar, count) {
        (Format::R8Int, 2u32) => Some(Format::Rg8Int),
        (Format::R8Int, 3u32) => Some(Format::Rgb8Int),
        (Format::R8Int, 4u32) => Some(Format::Rgba8Int),
        (Format::R16Int, 2u32) => Some(Format::Rg16Int),
        (Format::R16Int, 3u32) => Some(Format::Rgb16Int),
        (Format::R16Int, 4u32) => Some(Format::Rgba16Int),
        (Format::R32Int, 2u32) => Some(Format::Rg32Int),
        (Format::R32Int, 3u32) => Some(Format::Rgb32Int),
        (Format::R32Int, 4u32) => Some(Format::Rgba32Int),
        (Format::R64Int, 2u32) => Some(Format::Rg64Int),
        (Format::R64Int, 3u32) => Some(Format::Rgb64Int),
        (Format::R64Int, 4u32) => Some(Format::Rgba64Int),
        (Format::R8Uint, 2u32) => Some(Format::Rg8Uint),
        (Format::R8Uint, 3u32) => Some(Format::Rgb8Uint),
        (Format::R8Uint, 4u32) => Some(Format::Rgba8Uint),
        (Format::R16Uint, 2u32) => Some(Format::Rg16Uint),
        (Format::R16Uint, 3u32) => Some(Format::Rgb16Uint),
        (Format::R16Uint, 4u32) => Some(Format::Rgba16Uint),
        (Format::R32Uint, 2u32) => Some(Format::Rg32Uint),
        (Format::R32Uint, 3u32) => Some(Format::Rgb32Uint),
        (Format::R32Uint, 4u32) => Some(Format::Rgba32Uint),
        (Format::R64Uint, 2u32) => Some(Format::Rg64Uint),
        (Format::R64Uint, 3u32) => Some(Format::Rgb64Uint),
        (Format::R64Uint, 4u32) => Some(Format::Rgba64Uint),
        (Format::R32Float, 2u32) => Some(Format::Rg32Float),
        (Format::R32Float, 3u32) => Some(Format::Rgb32Float),
        (Format::R32Float, 4u32) => Some(Format::Rgba32Float),
        (Format::R64Float, 2u32) => Some(Format::Rg64Float),
        (Format::R64Float, 3u32) => Some(Format::Rgb64Float),
        (Format::R64Float, 4u32) => Some(Format::Rgba64Float),
        _ => None,
    }
}

/// Maps a raw numeric type descriptor to its canonical element format, or
/// reports exactly which step of the decision table failed.
pub fn map_type(t: &RawTypeDescriptor) -> (r: Result<Format, FormatError>)
    ensures
        r == map_type_spec(*t),
{
    let kind = if t.flags & TYPE_FLAG_INT != 0 {
        if t.signedness == 0 {
            NumericKind::UInt
        } else if t.signedness == 1 {
            NumericKind::SInt
        } else {
            return Err(FormatError::UnsupportedType);
        }
    } else if t.flags & TYPE_FLAG_FLOAT != 0 {
        NumericKind::Float
    } else {
        return Err(FormatError::UnsupportedType);
    };
    let scalar = match scalar_format_exec(kind, t.width) {
        Some(f) => f,
        None => {
            return Err(FormatError::UnsupportedWidth);
        },
    };
    if t.components <= 1 {
        Ok(scalar)
    } else {
        match vector_format_exec(scalar, t.components) {
            Some(widened) => Ok(widened),
            None => Err(FormatError::UnsupportedComponentCount),
        }
    }
}

} // verus!
