//! The colour-bar test pattern: eight vertical bars in RGB565 across the
//! 480x128 panel, and the zlib compression used to upload it through
//! CMD_INFLATE.

use vstd::prelude::*;
use vstd::arithmetic::div_mod::{lemma_fundamental_div_mod, lemma_mod_multiples_vanish,
    lemma_small_mod};

verus! {

/// The RGB565 colour of the bar at column `x`: eight 60-pixel bars of
/// red, green, blue, white, yellow, magenta, cyan and black.
#[verifier::allow_in_spec]
pub fn bar_color(x: u16) -> u16
    returns
        (if x < 60 {
            0xF800u16
        } else if x < 120 {
            0x07E0u16
        } else if x < 180 {
            0x001Fu16
        } else if x < 240 {
            0xFFFFu16
        } else if x < 300 {
            0xFFE0u16
        } else if x < 360 {
            0xF81Fu16
        } else if x < 420 {
            0x07FFu16
        } else {
            0x0000u16
        }),
{
    if x < 60 {
        0xF800u16
    } else if x < 120 {
        0x07E0u16
    } else if x < 180 {
        0x001Fu16
    } else if x < 240 {
        0xFFFFu16
    } else if x < 300 {
        0xFFE0u16
    } else if x < 360 {
        0xF81Fu16
    } else if x < 420 {
        0x07FFu16
    } else {
        0x0000u16
    }
}

/// Byte `i` of the pattern: pixels are stored row-major, two bytes each,
/// little-endian.
pub open spec fn pattern_byte(i: int) -> u8 {
    let pix = i / 2;
    let x = (pix % 480) as u16;
    if i % 2 == 0 {
        bar_color(x) as u8
    } else {
        (bar_color(x) >> 8) as u8
    }
}

/// The raw RGB565 bytes of the whole 480x128 pattern.
pub open spec fn pattern_bytes() -> Seq<u8> {
    Seq::new(480 * 128 * 2, |i: int| pattern_byte(i))
}

/// Builds the raw pattern, row by row.
pub fn pattern_pixels() -> (r: Vec<u8>)
    ensures
        r@ == pattern_bytes(),
{
    let mut r: Vec<u8> = Vec::new();
    let mut y: usize = 0;
    while y < 128
        invariant
            y <= 128,
            r@.len() == y * 960,
            r@ == pattern_bytes().take((y * 960) as int),
        decreases 128 - y,
    {
        let mut x: usize = 0;
        while x < 480
            invariant
                y < 128,
                x <= 480,
                r@.len() == y * 960 + x * 2,
                r@ == pattern_bytes().take((y * 960 + x * 2) as int),
            decreases 480 - x,
        {
            let pixel = bar_color(x as u16);
            let ghost idx = (y * 960 + x * 2) as int;
            proof {
                let pix = idx / 2;
                assert(idx == 2 * (480 * y + x));
                assert(pix == 480 * y + x);
                lemma_mod_multiples_vanish(y as int, x as int, 480);
                lemma_small_mod(x as nat, 480);
                assert(pix % 480 == x);
                assert((idx + 1) / 2 == pix && (idx + 1) % 2 == 1);
                assert(pattern_byte(idx) == bar_color(x as u16) as u8);
                assert(pattern_byte(idx + 1) == (bar_color(x as u16) >> 8) as u8);
            }
            r.push(pixel as u8);
            r.push((pixel >> 8) as u8);
            x = x + 1;
            proof {
                assert(r@ =~= pattern_bytes().take((y * 960 + x * 2) as int));
            }
        }
        y = y + 1;
    }
    proof {
        assert(r@ =~= pattern_bytes());
    }
    r
}

/// The zlib stream that compressing `data` at the given level produces.
/// The stream is a function of the input bytes and the level alone.
pub uninterp spec fn zlib_of(data: Seq<u8>, level: u8) -> Seq<u8>;

/// Relies on miniz_oxide::deflate::compress_to_vec_zlib: compresses the
/// input to a zlib stream, deterministically in the input and level.
#[verifier::external_body]
pub(crate) fn compress_zlib(data: &[u8], level: u8) -> (r: Vec<u8>)
    ensures
        r@ == zlib_of(data@, level),
{
    miniz_oxide::deflate::compress_to_vec_zlib(data, level)
}

} // verus!
