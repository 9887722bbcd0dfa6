//! Literal checks of the display-list encoders, the SPI framing, the
//! little-endian helpers and the ring arithmetic.

use partner_window::{clear_color_rgb, color_rgb, color_a, clear, display, begin, end, vertex2ii,
    vertex2f, line_width, point_size, bitmap_handle, bitmap_source, bitmap_layout,
    bitmap_layout_h, bitmap_size, bitmap_size_h, scissor_xy, scissor_size};
use partner_window::frames::{frame_wr8, frame_wr16, frame_wr32, frame_bulk, frame_rd_prefix,
    frame_host_cmd};
use partner_window::bytes::{le16_of, le32_of, string_payload_bytes, words_from_bytes};
use partner_window::ring::{mask_ptr, next_ptr, free_space};
use partner_window::words::{build_text_words, xy_word, font_opts_word};

#[test]
fn clear_color_rgb_literal() {
    assert_eq!(clear_color_rgb(0x12, 0x34, 0x56), 0x02123456);
    assert_eq!(
        clear_color_rgb(255, 255, 255),
        0x02000000 | (255 << 16) | (255 << 8) | 255
    );
    assert_eq!(clear_color_rgb(0, 0, 0), 0x02000000);
}

#[test]
fn color_rgb_literal() {
    assert_eq!(color_rgb(1, 2, 3), 0x04010203);
    assert_eq!(color_rgb(255, 255, 255), 0x04FFFFFF);
}

#[test]
fn color_a_literal() {
    assert_eq!(color_a(0x80), 0x10000080);
}

#[test]
fn clear_literal() {
    assert_eq!(clear(true, true, true), 0x26000007);
    assert_eq!(clear(true, false, false), 0x26000004);
    assert_eq!(clear(false, true, false), 0x26000002);
    assert_eq!(clear(false, false, true), 0x26000001);
    assert_eq!(clear(false, false, false), 0x26000000);
}

#[test]
fn display_and_end_literal() {
    assert_eq!(display(), 0x00000000);
    assert_eq!(end(), 0x21000000);
}

#[test]
fn begin_literal() {
    assert_eq!(begin(1), 0x1F000001);
    assert_eq!(begin(9), 0x1F000009);
    // only four bits of the primitive are kept
    assert_eq!(begin(0x1F), 0x1F00000F);
}

#[test]
fn vertex2ii_literal() {
    assert_eq!(vertex2ii(0, 0, 0, 0), 0x80000000);
    assert_eq!(
        vertex2ii(100, 50, 3, 7),
        (2 << 30) | (100 << 21) | (50 << 12) | (3 << 7) | 7
    );
    // coordinates are masked to nine bits
    assert_eq!(vertex2ii(512, 512, 0, 0), 0x80000000);
}

#[test]
fn vertex2f_literal() {
    assert_eq!(vertex2f(32, 32), (1 << 30) | (32 << 15) | 32);
    // negative coordinates are truncated to 15 bits
    assert_eq!(vertex2f(-16, 0), (1 << 30) | ((-16i32 as u32 & 0x7FFF) << 15));
}

#[test]
fn width_and_size_literals() {
    assert_eq!(line_width(16), 0x0E000010);
    assert_eq!(line_width(0xFFFF), 0x0E000FFF);
    assert_eq!(point_size(640), 0x0D000280);
    assert_eq!(point_size(0xFFFF), 0x0D001FFF);
}

#[test]
fn bitmap_words_literals() {
    assert_eq!(bitmap_handle(0), 0x05000000);
    assert_eq!(bitmap_handle(31), 0x0500001F);
    assert_eq!(bitmap_handle(32), 0x05000000);
    assert_eq!(bitmap_source(0), 0x01000000);
    assert_eq!(bitmap_source(0x12345), 0x01012345);
    assert_eq!(bitmap_source(0xFFF12345), 0x01012345);
    assert_eq!(
        bitmap_layout(7, 960, 128),
        (0x07 << 24) | (7 << 19) | (960 << 9) | 128
    );
    assert_eq!(bitmap_layout_h(1, 2), (0x28 << 24) | (1 << 2) | 2);
    assert_eq!(
        bitmap_size(false, false, false, 480, 128),
        (0x08 << 24) | ((480 & 0x1FF) << 9) | 128
    );
    assert_eq!(
        bitmap_size(true, true, true, 0, 0),
        (0x08 << 24) | (1 << 20) | (1 << 19) | (1 << 18)
    );
    assert_eq!(bitmap_size_h(3, 3), (0x29 << 24) | (3 << 2) | 3);
}

#[test]
fn scissor_literals() {
    assert_eq!(scissor_xy(10, 20), (0x1B << 24) | (10 << 11) | 20);
    assert_eq!(scissor_size(480, 128), (0x1C << 24) | (480 << 12) | 128);
}

#[test]
fn write_frames() {
    assert_eq!(frame_wr8(0x302000, 0xAB), vec![0xB0, 0x20, 0x00, 0xAB]);
    assert_eq!(
        frame_wr16(0x3020FC, 0x1234),
        vec![0xB0, 0x20, 0xFC, 0x34, 0x12]
    );
    assert_eq!(
        frame_wr32(0x308000, 0xDEADBEEF),
        vec![0xB0, 0x80, 0x00, 0xEF, 0xBE, 0xAD, 0xDE]
    );
    assert_eq!(
        frame_bulk(0x000000, &[1, 2, 3]),
        vec![0x80, 0x00, 0x00, 1, 2, 3]
    );
}

#[test]
fn read_and_host_frames() {
    assert_eq!(frame_rd_prefix(0x302000), vec![0x30, 0x20, 0x00, 0x00]);
    assert_eq!(frame_host_cmd(0x44), vec![0x44, 0x00, 0x00]);
    assert_eq!(frame_host_cmd(0x00), vec![0x00, 0x00, 0x00]);
}

#[test]
fn little_endian_helpers() {
    assert_eq!(le16_of(0x34, 0x12), 0x1234);
    assert_eq!(le32_of(0xEF, 0xBE, 0xAD, 0xDE), 0xDEADBEEF);
}

#[test]
fn string_payload_nul_and_padding() {
    // "Hi" + NUL padded to one word
    assert_eq!(string_payload_bytes("Hi"), vec![b'H', b'i', 0, 0]);
    // three characters + NUL already fill a word
    assert_eq!(string_payload_bytes("abc"), vec![b'a', b'b', b'c', 0]);
    // four characters need a second word for the NUL
    assert_eq!(
        string_payload_bytes("abcd"),
        vec![b'a', b'b', b'c', b'd', 0, 0, 0, 0]
    );
    assert_eq!(string_payload_bytes(""), vec![0, 0, 0, 0]);
}

#[test]
fn words_from_bytes_le() {
    assert_eq!(
        words_from_bytes(&[0xEF, 0xBE, 0xAD, 0xDE, 1, 0, 0, 0]),
        vec![0xDEADBEEF, 1]
    );
}

#[test]
fn ring_pointer_arithmetic() {
    assert_eq!(mask_ptr(0x0FFF), 0x0FFC);
    assert_eq!(mask_ptr(0xFFFF), 0x0FFC);
    assert_eq!(mask_ptr(100), 100);
    assert_eq!(next_ptr(0), 4);
    assert_eq!(next_ptr(4092), 0);
}

#[test]
fn free_space_wraparound() {
    // empty ring as the device reports it after reset
    assert_eq!(free_space(0, 0), 4092);
    // the host is one word ahead of the coprocessor
    assert_eq!(free_space(0, 4), 4088);
    // wrap-around: read pointer behind the write pointer numerically
    assert_eq!(free_space(4, 8), 4088);
    assert_eq!(free_space(100, 96), 0);
    assert_eq!(free_space(0, 4092), 0);
    assert_eq!(free_space(8, 0), 4);
}

#[test]
fn text_words_for_hi() {
    // the exact word sequence of a centred "Hi" frame
    let w = build_text_words("Hi", 240, 64, 31, 0x0600, (255, 255, 255));
    assert_eq!(
        w,
        vec![
            0xFFFFFF00, // CMD_DLSTART
            0x02000000, // CLEAR_COLOR_RGB(0,0,0)
            0x26000007, // CLEAR(1,1,1)
            0x04FFFFFF, // COLOR_RGB(255,255,255)
            0xFFFFFF0C, // CMD_TEXT
            xy_word(240, 64),
            font_opts_word(31, 0x0600),
            u32::from_le_bytes([b'H', b'i', 0, 0]),
            0x00000000, // DISPLAY
            0xFFFFFF01, // CMD_SWAP
        ]
    );
    assert_eq!(xy_word(240, 64), 0x004000F0);
    assert_eq!(font_opts_word(31, 0x0600), 0x0600001F);
}
