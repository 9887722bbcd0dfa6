//! Builders for the 32-bit word sequences of complete coprocessor batches:
//! text, number and bitmap frames, the rotation command, and the geometry
//! demonstration.  Each builder is pure and its result is stated exactly.

use vstd::prelude::*;
use vstd::string::StringSliceAdditionalSpecFns;
use crate::bytes::{le32_of, words_of, string_payload, string_payload_bytes, words_from_bytes};
use crate::dl::{clear_color_rgb, clear, color_rgb, bitmap_handle, bitmap_source, bitmap_layout,
    bitmap_layout_h, bitmap_size, bitmap_size_h, begin, end, display, vertex2ii, vertex2f,
    line_width, point_size};
use crate::regs::{CMD_DLSTART, CMD_SWAP, CMD_TEXT, CMD_NUMBER, CMD_SETROTATE, ROTATE_VAL,
    RGB565, L8, BITMAPS, POINTS, RECTS, OPT_CENTER};

verus! {

/// Two 16-bit coordinates packed little-endian into one word.
#[verifier::allow_in_spec]
pub fn xy_word(x: i16, y: i16) -> u32
    returns
        le32_of(x as u8, (x >> 8) as u8, y as u8, (y >> 8) as u8),
{
    le32_of(x as u8, (x >> 8) as u8, y as u8, (y >> 8) as u8)
}

/// A 16-bit font index and 16-bit option flags packed little-endian into
/// one word.
#[verifier::allow_in_spec]
pub fn font_opts_word(font: i16, options: u16) -> u32
    returns
        le32_of(font as u8, (font >> 8) as u8, options as u8, (options >> 8) as u8),
{
    le32_of(font as u8, (font >> 8) as u8, options as u8, (options >> 8) as u8)
}

/// The words of a text frame: start a new display list, clear to black,
/// set the text colour, draw the string with CMD_TEXT, terminate and swap.
pub open spec fn text_words(
    text: Seq<u8>,
    x: i16,
    y: i16,
    font: i16,
    options: u16,
    color: (u8, u8, u8),
) -> Seq<u32> {
    seq![
        CMD_DLSTART,
        clear_color_rgb(0, 0, 0),
        clear(true, true, true),
        color_rgb(color.0, color.1, color.2),
        CMD_TEXT,
        xy_word(x, y),
        font_opts_word(font, options),
    ] + words_of(string_payload(text)) + seq![display(), CMD_SWAP]
}

/// The words of a number frame, as for text but with CMD_NUMBER and the
/// 32-bit value in place of the string.
pub open spec fn number_words(
    number: u32,
    x: i16,
    y: i16,
    font: i16,
    options: u16,
    color: (u8, u8, u8),
) -> Seq<u32> {
    seq![
        CMD_DLSTART,
        clear_color_rgb(0, 0, 0),
        clear(true, true, true),
        color_rgb(color.0, color.1, color.2),
        CMD_NUMBER,
        xy_word(x, y),
        font_opts_word(font, options),
        number,
        display(),
        CMD_SWAP,
    ]
}

/// The words of a frame that shows an RGB565 bitmap of `width` x `height`
/// pixels already uploaded at `dest`, drawn full screen from the origin.
pub open spec fn bitmap_words(dest: u32, width: u16, height: u16, stride: u16) -> Seq<u32> {
    seq![
        CMD_DLSTART,
        clear_color_rgb(0, 0, 0),
        clear(true, true, true),
        bitmap_handle(0),
        bitmap_source(dest),
        bitmap_layout(RGB565, stride, height),
        bitmap_layout_h(((stride >> 10) & 0x3) as u8, ((height >> 9) & 0x3) as u8),
        bitmap_size(false, false, false, width, height),
        bitmap_size_h(((width >> 9) & 0x3) as u8, ((height >> 9) & 0x3) as u8),
        begin(BITMAPS),
        vertex2ii(0, 0, 0, 0),
        end(),
        display(),
        CMD_SWAP,
    ]
}

/// The words of an idle frame: the face art centred on the panel,
/// followed by the logo bitmap (format L8, already uploaded at
/// `logo_addr`) drawn at (`lx`, `ly`).
pub open spec fn idle_words(
    art: Seq<u8>,
    font: i16,
    color: (u8, u8, u8),
    logo_addr: u32,
    logo_w: u16,
    logo_h: u16,
    lx: u16,
    ly: u16,
) -> Seq<u32> {
    seq![
        CMD_DLSTART,
        clear_color_rgb(0, 0, 0),
        clear(true, true, true),
        color_rgb(color.0, color.1, color.2),
        CMD_TEXT,
        xy_word(240, 64),
        font_opts_word(font, OPT_CENTER),
    ] + words_of(string_payload(art)) + seq![
        color_rgb(255, 255, 255),
        bitmap_handle(0),
        bitmap_source(logo_addr),
        bitmap_layout(L8, logo_w, logo_h),
        bitmap_layout_h(0, 0),
        bitmap_size(false, false, false, logo_w, logo_h),
        bitmap_size_h(0, 0),
        begin(BITMAPS),
        vertex2ii(lx, ly, 0, 0),
        end(),
        display(),
        CMD_SWAP,
    ]
}

/// Builds [`idle_words`] for a string slice of face art.
pub fn build_idle_words(
    art: &str,
    font: i16,
    color: (u8, u8, u8),
    logo_addr: u32,
    logo_w: u16,
    logo_h: u16,
    lx: u16,
    ly: u16,
) -> (r: Vec<u32>)
    ensures
        r@ == idle_words(art.spec_bytes(), font, color, logo_addr, logo_w, logo_h, lx, ly),
{
    let mut r: Vec<u32> = Vec::new();
    r.push(CMD_DLSTART);
    r.push(clear_color_rgb(0, 0, 0));
    r.push(clear(true, true, true));
    r.push(color_rgb(color.0, color.1, color.2));
    r.push(CMD_TEXT);
    r.push(xy_word(240, 64));
    r.push(font_opts_word(font, OPT_CENTER));
    let payload = string_payload_bytes(art);
    let mut body = words_from_bytes(payload.as_slice());
    r.append(&mut body);
    r.push(color_rgb(255, 255, 255));
    r.push(bitmap_handle(0));
    r.push(bitmap_source(logo_addr));
    r.push(bitmap_layout(L8, logo_w, logo_h));
    r.push(bitmap_layout_h(0, 0));
    r.push(bitmap_size(false, false, false, logo_w, logo_h));
    r.push(bitmap_size_h(0, 0));
    r.push(begin(BITMAPS));
    r.push(vertex2ii(lx, ly, 0, 0));
    r.push(end());
    r.push(display());
    r.push(CMD_SWAP);
    proof {
        assert(r@ =~= idle_words(art.spec_bytes(), font, color, logo_addr, logo_w, logo_h, lx, ly));
    }
    r
}

/// The words telling the coprocessor the panel rotation.
pub open spec fn rotate_words() -> Seq<u32> {
    seq![CMD_SETROTATE, ROTATE_VAL]
}

/// Builds [`text_words`] for a string slice.
pub fn build_text_words(text: &str, x: i16, y: i16, font: i16, options: u16, color: (u8, u8, u8))
    -> (r: Vec<u32>)
    ensures
        r@ == text_words(text.spec_bytes(), x, y, font, options, color),
{
    let mut r: Vec<u32> = Vec::new();
    r.push(CMD_DLSTART);
    r.push(clear_color_rgb(0, 0, 0));
    r.push(clear(true, true, true));
    r.push(color_rgb(color.0, color.1, color.2));
    r.push(CMD_TEXT);
    r.push(xy_word(x, y));
    r.push(font_opts_word(font, options));
    let payload = string_payload_bytes(text);
    let mut body = words_from_bytes(payload.as_slice());
    r.append(&mut body);
    r.push(display());
    r.push(CMD_SWAP);
    proof {
        assert(r@ =~= text_words(text.spec_bytes(), x, y, font, options, color));
    }
    r
}

/// Builds [`number_words`].
pub fn build_number_words(
    number: u32,
    x: i16,
    y: i16,
    font: i16,
    options: u16,
    color: (u8, u8, u8),
) -> (r: Vec<u32>)
    ensures
        r@ == number_words(number, x, y, font, options, color),
{
    let mut r: Vec<u32> = Vec::new();
    r.push(CMD_DLSTART);
    r.push(clear_color_rgb(0, 0, 0));
    r.push(clear(true, true, true));
    r.push(color_rgb(color.0, color.1, color.2));
    r.push(CMD_NUMBER);
    r.push(xy_word(x, y));
    r.push(font_opts_word(font, options));
    r.push(number);
    r.push(display());
    r.push(CMD_SWAP);
    proof {
        assert(r@ =~= number_words(number, x, y, font, options, color));
    }
    r
}

/// Builds [`bitmap_words`].
pub fn build_bitmap_words(dest: u32, width: u16, height: u16, stride: u16) -> (r: Vec<u32>)
    ensures
        r@ == bitmap_words(dest, width, height, stride),
{
    let mut r: Vec<u32> = Vec::new();
    r.push(CMD_DLSTART);
    r.push(clear_color_rgb(0, 0, 0));
    r.push(clear(true, true, true));
    r.push(bitmap_handle(0));
    r.push(bitmap_source(dest));
    r.push(bitmap_layout(RGB565, stride, height));
    r.push(bitmap_layout_h(((stride >> 10) & 0x3) as u8, ((height >> 9) & 0x3) as u8));
    r.push(bitmap_size(false, false, false, width, height));
    r.push(bitmap_size_h(((width >> 9) & 0x3) as u8, ((height >> 9) & 0x3) as u8));
    r.push(begin(BITMAPS));
    r.push(vertex2ii(0, 0, 0, 0));
    r.push(end());
    r.push(display());
    r.push(CMD_SWAP);
    proof {
        assert(r@ =~= bitmap_words(dest, width, height, stride));
    }
    r
}

/// Builds [`rotate_words`].
pub fn build_rotate_words() -> (r: Vec<u32>)
    ensures
        r@ == rotate_words(),
{
    let mut r: Vec<u32> = Vec::new();
    r.push(CMD_SETROTATE);
    r.push(ROTATE_VAL);
    proof {
        assert(r@ =~= rotate_words());
    }
    r
}

/// The words of the geometry demonstration: a white border rectangle and
/// three coloured circles.
pub open spec fn geometry_words() -> Seq<u32> {
    seq![
        CMD_DLSTART,
        clear_color_rgb(0, 0, 0),
        clear(true, true, true),
        color_rgb(255, 255, 255),
        line_width(16),
        begin(RECTS),
        vertex2f(32, 32),
        vertex2f(7648, 2016),
        end(),
        color_rgb(255, 0, 0),
        point_size(640),
        begin(POINTS),
        vertex2f(1920, 1024),
        end(),
        color_rgb(0, 255, 0),
        point_size(640),
        begin(POINTS),
        vertex2f(3840, 1024),
        end(),
        color_rgb(0, 0, 255),
        point_size(640),
        begin(POINTS),
        vertex2f(5760, 1024),
        end(),
        display(),
        CMD_SWAP,
    ]
}

/// Builds [`geometry_words`].
pub fn build_geometry_words() -> (r: Vec<u32>)
    ensures
        r@ == geometry_words(),
{
    let mut r: Vec<u32> = Vec::new();
    r.push(CMD_DLSTART);
    r.push(clear_color_rgb(0, 0, 0));
    r.push(clear(true, true, true));
    r.push(color_rgb(255, 255, 255));
    r.push(line_width(16));
    r.push(begin(RECTS));
    r.push(vertex2f(2 * 16, 2 * 16));
    r.push(vertex2f(478 * 16, 126 * 16));
    r.push(end());
    r.push(color_rgb(255, 0, 0));
    r.push(point_size(40 * 16));
    r.push(begin(POINTS));
    r.push(vertex2f(120 * 16, 64 * 16));
    r.push(end());
    r.push(color_rgb(0, 255, 0));
    r.push(point_size(40 * 16));
    r.push(begin(POINTS));
    r.push(vertex2f(240 * 16, 64 * 16));
    r.push(end());
    r.push(color_rgb(0, 0, 255));
    r.push(point_size(40 * 16));
    r.push(begin(POINTS));
    r.push(vertex2f(360 * 16, 64 * 16));
    r.push(end());
    r.push(display());
    r.push(CMD_SWAP);
    proof {
        assert(r@ =~= geometry_words());
    }
    r
}

} // verus!
