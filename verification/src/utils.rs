//! OpenGL enumeration values as plain numbers, and the conversions between
//! them and the integer forms that the graphics API asks for.

use vstd::prelude::*;

verus! {

/// An OpenGL enumeration value, held by its number.
#[derive(Clone, Copy, Debug, PartialEq, Eq, Structural)]
pub struct GlEnum(pub u32);

pub const GL_RED: u32 = 0x1903;

pub const GL_RG: u32 = 0x8227;

pub const GL_RGB: u32 = 0x1907;

pub const GL_RGBA: u32 = 0x1908;

pub const GL_NEAREST: u32 = 0x2600;

pub const GL_LINEAR: u32 = 0x2601;

pub const GL_LINEAR_MIPMAP_LINEAR: u32 = 0x2703;

pub const GL_REPEAT: u32 = 0x2901;

pub const GL_CLAMP_TO_EDGE: u32 = 0x812F;

pub const GL_TEXTURE0: u32 = 0x84C0;

pub const GL_ARRAY_BUFFER: u32 = 0x8892;

pub const GL_ELEMENT_ARRAY_BUFFER: u32 = 0x8893;

pub const GL_DEPTH_BUFFER_BIT: u32 = 0x0100;

pub const GL_COLOR_BUFFER_BIT: u32 = 0x4000;

/// How many texture units the renderer addresses.
pub const TEXTURE_UNITS: usize = 10;

/// The enumeration values that are also passed as signed integer parameters:
/// the two pixel formats that serve as internal formats, the texture filters
/// and the wrap modes.
pub open spec fn is_parameter_value(e: GlEnum) -> bool {
    ||| e.0 == GL_RED
    ||| e.0 == GL_RGB
    ||| e.0 == GL_NEAREST
    ||| e.0 == GL_LINEAR
    ||| e.0 == GL_LINEAR_MIPMAP_LINEAR
    ||| e.0 == GL_REPEAT
    ||| e.0 == GL_CLAMP_TO_EDGE
}

/// The enumeration values of the texture units that the renderer addresses.
pub open spec fn is_texture_unit(e: int) -> bool {
    GL_TEXTURE0 <= e < GL_TEXTURE0 + TEXTURE_UNITS
}

/// Decides whether `e` may be handed to [`glenum_to_i32`].
pub fn has_parameter_value(e: GlEnum) -> (b: bool)
    ensures
        b == is_parameter_value(e),
{
    e.0 == GL_RED || e.0 == GL_RGB || e.0 == GL_NEAREST || e.0 == GL_LINEAR || e.0
        == GL_LINEAR_MIPMAP_LINEAR || e.0 == GL_REPEAT || e.0 == GL_CLAMP_TO_EDGE
}

/// The signed integer form of an enumeration value that is passed as a
/// parameter. Only the values of [`is_parameter_value`] have one.
pub fn glenum_to_i32(e: GlEnum) -> (r: i32)
    requires
        is_parameter_value(e),
    ensures
        r == e.0,
{
    e.0 as i32
}

/// The texture unit whose enumeration number is `e`.
pub fn usize_to_glenum(e: usize) -> (r: GlEnum)
    requires
        is_texture_unit(e as int),
    ensures
        r.0 == e,
{
    GlEnum(e as u32)
}

/// The number of bytes that `elements` items of `element_bytes` bytes each
/// take in a buffer, where that fits the signed size that the graphics API
/// takes.
pub fn buffer_bytes(elements: usize, element_bytes: usize) -> (r: Option<isize>)
    ensures
        r is Some <==> elements * element_bytes <= isize::MAX,
        r matches Some(n) ==> n == elements * element_bytes,
{
    match elements.checked_mul(element_bytes) {
        Some(n) => {
            if n <= isize::MAX as usize {
                Some(n as isize)
            } else {
                None
            }
        },
        None => None,
    }
}

} // verus!
