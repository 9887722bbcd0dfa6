//! EVE register addresses, panel parameters, host commands and coprocessor
//! opcodes.  All register values are little-endian on the wire.

use vstd::prelude::*;

verus! {

// ─── Register byte addresses ─────────────────────────────────────────────

/// Liveness sentinel; reads 0x7C when the chip is up.
pub const REG_ID: u32 = 0x302000;
pub const REG_FRAMES: u32 = 0x302004;
pub const REG_CLOCK: u32 = 0x302008;
pub const REG_FREQUENCY: u32 = 0x30200C;
/// Bit 0 holds the coprocessor CPU in reset while set.
pub const REG_CPURESET: u32 = 0x302020;
pub const REG_HCYCLE: u32 = 0x30202C;
pub const REG_HOFFSET: u32 = 0x302030;
pub const REG_HSIZE: u32 = 0x302034;
pub const REG_HSYNC0: u32 = 0x302038;
pub const REG_HSYNC1: u32 = 0x30203C;
pub const REG_VCYCLE: u32 = 0x302040;
pub const REG_VOFFSET: u32 = 0x302044;
pub const REG_VSIZE: u32 = 0x302048;
pub const REG_VSYNC0: u32 = 0x30204C;
pub const REG_VSYNC1: u32 = 0x302050;
/// Writing 2 promotes the freshly written display list on the next frame.
pub const REG_DLSWAP: u32 = 0x302054;
pub const REG_ROTATE: u32 = 0x302058;
pub const REG_DITHER: u32 = 0x302060;
pub const REG_SWIZZLE: u32 = 0x302064;
pub const REG_CSPREAD: u32 = 0x302068;
pub const REG_PCLK_POL: u32 = 0x30206C;
/// Pixel-clock divider; 0 stops the pixel clock.
pub const REG_PCLK: u32 = 0x302070;
/// Bit 7 is the backlight-enable line's direction.
pub const REG_GPIO_DIR: u32 = 0x302090;
/// Bit 7 drives the backlight.
pub const REG_GPIO: u32 = 0x302094;
/// Coprocessor ring read offset (where the coprocessor consumes).
pub const REG_CMD_READ: u32 = 0x3020F8;
/// Coprocessor ring write offset (where the host publishes).
pub const REG_CMD_WRITE: u32 = 0x3020FC;
pub const REG_CMDB_SPACE: u32 = 0x302574;

/// Display-list RAM (8 KiB).
pub const RAM_DL: u32 = 0x300000;
/// Coprocessor command ring buffer (4 KiB).
pub const RAM_CMD: u32 = 0x308000;
/// General-purpose graphics RAM (1 MiB).
pub const RAM_G: u32 = 0x000000;

/// Size of the display-list RAM in bytes.
pub const RAM_DL_SIZE: u32 = 8192;
/// Size of the coprocessor command ring in bytes.
pub const RAM_CMD_SIZE: u32 = 4096;
/// Size of the general-purpose graphics RAM in bytes.
pub const RAM_G_SIZE: u32 = 0x100000;

// ─── Panel parameters ────────────────────────────────────────────────────

pub const DISPLAY_WIDTH: u16 = 480;
pub const DISPLAY_HEIGHT: u16 = 128;
pub const HCYCLE: u16 = 531;
pub const HOFFSET: u16 = 43;
pub const HSYNC0: u16 = 0;
pub const HSYNC1: u16 = 4;
pub const VCYCLE: u16 = 292;
pub const VOFFSET: u16 = 84;
pub const VSYNC0: u16 = 0;
pub const VSYNC1: u16 = 4;
pub const PCLK_DIV: u8 = 9;
pub const PCLK_POL_VAL: u8 = 1;
pub const SWIZZLE_VAL: u16 = 0;
pub const CSPREAD_VAL: u8 = 0;
pub const DITHER_VAL: u8 = 1;
/// Mirrored landscape, so the partner facing the panel reads the text.
pub const ROTATE_VAL: u32 = 4;

// ─── Host commands (3-byte frames with no address) ───────────────────────

pub const HOST_ACTIVE: u8 = 0x00;
pub const HOST_STANDBY: u8 = 0x41;
pub const HOST_SLEEP: u8 = 0x42;
pub const HOST_CLKEXT: u8 = 0x44;
pub const HOST_CLKINT: u8 = 0x48;
pub const HOST_PWRDOWN: u8 = 0x50;
pub const HOST_CLKSEL: u8 = 0x61;
pub const HOST_RST_PULSE: u8 = 0x68;

// ─── Coprocessor opcodes ─────────────────────────────────────────────────

pub const CMD_DLSTART: u32 = 0xFFFFFF00;
pub const CMD_SWAP: u32 = 0xFFFFFF01;
pub const CMD_BGCOLOR: u32 = 0xFFFFFF09;
pub const CMD_FGCOLOR: u32 = 0xFFFFFF0A;
pub const CMD_TEXT: u32 = 0xFFFFFF0C;
pub const CMD_BUTTON: u32 = 0xFFFFFF0D;
pub const CMD_KEYS: u32 = 0xFFFFFF0E;
pub const CMD_NUMBER: u32 = 0xFFFFFF2E;
pub const CMD_SPINNER: u32 = 0xFFFFFF16;
pub const CMD_STOP: u32 = 0xFFFFFF17;
pub const CMD_INFLATE: u32 = 0xFFFFFF22;
pub const CMD_LOADIMAGE: u32 = 0xFFFFFF24;
pub const CMD_SETROTATE: u32 = 0xFFFFFF36;
pub const CMD_SETBITMAP: u32 = 0xFFFFFF42;

// ─── Primitive types for BEGIN ───────────────────────────────────────────

pub const BITMAPS: u8 = 1;
pub const POINTS: u8 = 2;
pub const LINES: u8 = 3;
pub const LINE_STRIP: u8 = 4;
pub const RECTS: u8 = 9;

// ─── Bitmap formats ──────────────────────────────────────────────────────

pub const L8: u8 = 1;
pub const RGB565: u8 = 7;

/// Value written to REG_DLSWAP to request a frame swap.
pub const DLSWAP_FRAME: u8 = 2;

/// SPI clock rate the bridge is configured for, in Hz.
pub const SPI_FREQ: u32 = 15_000_000;

/// Centre the text on both axes (OPT_CENTERX | OPT_CENTERY).
pub const OPT_CENTER: u16 = 0x0600;

} // verus!
