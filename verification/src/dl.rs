//! Encoders for the 32-bit opcodes of the EVE display list.
//!
//! Each encoder is pure: the word it returns is stated exactly by its
//! `returns` clause, and arguments wider than their opcode field are masked,
//! as the field widths require.  The encoders may also be used in
//! specifications.

use vstd::prelude::*;

verus! {

/// CLEAR_COLOR_RGB(r, g, b): colour used by a following CLEAR.
#[verifier::allow_in_spec]
pub fn clear_color_rgb(r: u8, g: u8, b: u8) -> u32
    returns
        (0x02u32 << 24) | ((r as u32) << 16) | ((g as u32) << 8) | (b as u32),
{
    (0x02u32 << 24) | ((r as u32) << 16) | ((g as u32) << 8) | (b as u32)
}

/// COLOR_RGB(r, g, b): colour applied to following primitives.
#[verifier::allow_in_spec]
pub fn color_rgb(r: u8, g: u8, b: u8) -> u32
    returns
        (0x04u32 << 24) | ((r as u32) << 16) | ((g as u32) << 8) | (b as u32),
{
    (0x04u32 << 24) | ((r as u32) << 16) | ((g as u32) << 8) | (b as u32)
}

/// COLOR_A(a): alpha applied to following primitives.
#[verifier::allow_in_spec]
pub fn color_a(a: u8) -> u32
    returns
        (0x10u32 << 24) | (a as u32),
{
    (0x10u32 << 24) | (a as u32)
}

/// CLEAR(c, s, t): clear colour, stencil and tag buffers.
#[verifier::allow_in_spec]
pub fn clear(c: bool, s: bool, t: bool) -> u32
    returns
        (0x26u32 << 24) | (if c { 4u32 } else { 0u32 }) | (if s { 2u32 } else { 0u32 }) | (if t {
            1u32
        } else {
            0u32
        }),
{
    (0x26u32 << 24) | (if c { 4u32 } else { 0u32 }) | (if s { 2u32 } else { 0u32 }) | (if t {
        1u32
    } else {
        0u32
    })
}

/// DISPLAY: terminates the display list.
#[verifier::allow_in_spec]
pub fn display() -> u32
    returns
        0x00000000u32,
{
    0x00000000u32
}

/// BEGIN(prim): starts drawing a primitive type.
#[verifier::allow_in_spec]
pub fn begin(prim: u8) -> u32
    returns
        (0x1Fu32 << 24) | ((prim as u32) & 0xF),
{
    (0x1Fu32 << 24) | ((prim as u32) & 0xF)
}

/// END: ends the current primitive.
#[verifier::allow_in_spec]
pub fn end() -> u32
    returns
        0x21000000u32,
{
    0x21000000u32
}

/// VERTEX2II(x, y, handle, cell): vertex in pixels with bitmap handle/cell.
#[verifier::allow_in_spec]
pub fn vertex2ii(x: u16, y: u16, handle: u8, cell: u8) -> u32
    returns
        (2u32 << 30) | (((x as u32) & 0x1FF) << 21) | (((y as u32) & 0x1FF) << 12) | (((
        handle as u32) & 0x1F) << 7) | ((cell as u32) & 0x7F),
{
    (2u32 << 30) | (((x as u32) & 0x1FF) << 21) | (((y as u32) & 0x1FF) << 12) | (((handle as u32)
        & 0x1F) << 7) | ((cell as u32) & 0x7F)
}

/// VERTEX2F(x, y): vertex in 1/16-pixel units.
#[verifier::allow_in_spec]
pub fn vertex2f(x: i32, y: i32) -> u32
    returns
        (1u32 << 30) | (((x as u32) & 0x7FFF) << 15) | ((y as u32) & 0x7FFF),
{
    (1u32 << 30) | (((x as u32) & 0x7FFF) << 15) | ((y as u32) & 0x7FFF)
}

/// LINE_WIDTH(w): line radius in 1/16-pixel units.
#[verifier::allow_in_spec]
pub fn line_width(w: u16) -> u32
    returns
        (0x0Eu32 << 24) | ((w as u32) & 0xFFF),
{
    (0x0Eu32 << 24) | ((w as u32) & 0xFFF)
}

/// POINT_SIZE(r): point radius in 1/16-pixel units.
#[verifier::allow_in_spec]
pub fn point_size(r: u16) -> u32
    returns
        (0x0Du32 << 24) | ((r as u32) & 0x1FFF),
{
    (0x0Du32 << 24) | ((r as u32) & 0x1FFF)
}

/// BITMAP_HANDLE(h): selects the bitmap handle.
#[verifier::allow_in_spec]
pub fn bitmap_handle(h: u8) -> u32
    returns
        (0x05u32 << 24) | ((h as u32) & 0x1F),
{
    (0x05u32 << 24) | ((h as u32) & 0x1F)
}

/// BITMAP_SOURCE(addr): source address of the bitmap in graphics RAM.
#[verifier::allow_in_spec]
pub fn bitmap_source(addr: u32) -> u32
    returns
        (0x01u32 << 24) | (addr & 0xFFFFF),
{
    (0x01u32 << 24) | (addr & 0xFFFFF)
}

/// BITMAP_LAYOUT(fmt, stride, height): pixel format and line stride.
#[verifier::allow_in_spec]
pub fn bitmap_layout(fmt: u8, stride: u16, height: u16) -> u32
    returns
        (0x07u32 << 24) | (((fmt as u32) & 0x1F) << 19) | (((stride as u32) & 0x3FF) << 9) | ((
        height as u32) & 0x1FF),
{
    (0x07u32 << 24) | (((fmt as u32) & 0x1F) << 19) | (((stride as u32) & 0x3FF) << 9) | ((
    height as u32) & 0x1FF)
}

/// BITMAP_LAYOUT_H(stride_h, height_h): high bits of stride and height.
#[verifier::allow_in_spec]
pub fn bitmap_layout_h(stride_h: u8, height_h: u8) -> u32
    returns
        (0x28u32 << 24) | (((stride_h as u32) & 0x3) << 2) | ((height_h as u32) & 0x3),
{
    (0x28u32 << 24) | (((stride_h as u32) & 0x3) << 2) | ((height_h as u32) & 0x3)
}

/// BITMAP_SIZE(filt, wrapx, wrapy, width, height): drawn size and sampling.
#[verifier::allow_in_spec]
pub fn bitmap_size(filt: bool, wrapx: bool, wrapy: bool, width: u16, height: u16) -> u32
    returns
        (0x08u32 << 24) | ((if filt { 1u32 } else { 0u32 }) << 20) | ((if wrapx { 1u32 } else {
            0u32
        }) << 19) | ((if wrapy { 1u32 } else { 0u32 }) << 18) | (((width as u32) & 0x1FF) << 9) | ((
        height as u32) & 0x1FF),
{
    (0x08u32 << 24) | ((if filt { 1u32 } else { 0u32 }) << 20) | ((if wrapx { 1u32 } else { 0u32 })
        << 19) | ((if wrapy { 1u32 } else { 0u32 }) << 18) | (((width as u32) & 0x1FF) << 9) | ((
    height as u32) & 0x1FF)
}

/// BITMAP_SIZE_H(width_h, height_h): high bits of the drawn size.
#[verifier::allow_in_spec]
pub fn bitmap_size_h(width_h: u8, height_h: u8) -> u32
    returns
        (0x29u32 << 24) | (((width_h as u32) & 0x3) << 2) | ((height_h as u32) & 0x3),
{
    (0x29u32 << 24) | (((width_h as u32) & 0x3) << 2) | ((height_h as u32) & 0x3)
}

/// SCISSOR_XY(x, y): top-left corner of the scissor rectangle.
#[verifier::allow_in_spec]
pub fn scissor_xy(x: u16, y: u16) -> u32
    returns
        (0x1Bu32 << 24) | (((x as u32) & 0x7FF) << 11) | ((y as u32) & 0x7FF),
{
    (0x1Bu32 << 24) | (((x as u32) & 0x7FF) << 11) | ((y as u32) & 0x7FF)
}

/// SCISSOR_SIZE(w, h): size of the scissor rectangle.
#[verifier::allow_in_spec]
pub fn scissor_size(w: u16, h: u16) -> u32
    returns
        (0x1Cu32 << 24) | (((w as u32) & 0xFFF) << 12) | ((h as u32) & 0xFFF),
{
    (0x1Cu32 << 24) | (((w as u32) & 0xFFF) << 12) | ((h as u32) & 0xFFF)
}

} // verus!
