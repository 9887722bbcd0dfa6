//! Driver library for a 480x128 auxiliary LCD panel fronted by a Bridgetek
//! EVE graphics coprocessor that sits behind an SPI bridge.
//!
//! The library contains the whole register-level protocol: the byte framing
//! of register reads and writes, the 32-bit display-list opcode encoders,
//! the 4 KiB coprocessor command ring with its alignment and back-pressure
//! rules, the initialisation and shutdown sequences, and the state machine
//! of the background worker that owns the device.  Every operation the
//! driver performs on the wire is recorded in a ghost transcript, and the
//! contracts of the driver methods state exactly which transcript each call
//! appends.
//!
//! The SPI bridge itself is reached through the [`driver::Transport`] trait;
//! an implementation over a concrete USB bridge lives outside the library.

pub mod regs;
pub mod dl;
pub mod bytes;
pub mod frames;
pub mod ring;
pub mod events;
pub mod driver;
pub mod words;
pub mod ops;
pub mod lifecycle;
pub mod textproc;
pub mod pattern;
pub mod demos;
pub mod worker;
pub mod device;
pub mod laws;

pub use dl::{clear_color_rgb, color_rgb, color_a, clear, display, begin, end, vertex2ii,
    vertex2f, line_width, point_size, bitmap_handle, bitmap_source, bitmap_layout,
    bitmap_layout_h, bitmap_size, bitmap_size_h, scissor_xy, scissor_size};
pub use driver::{PartnerWindow, PwError, Transport};
pub use demos::{test_clear_colors, test_text, test_geometry, test_pattern, test_animation,
    run_all_tests};
pub use textproc::{strip_tags, mouth_stage, face_art};
