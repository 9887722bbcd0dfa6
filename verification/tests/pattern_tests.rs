//! The colour-bar pattern and its compressed upload: pixel layout,
//! compression round trip, and the end-to-end INFLATE path through a
//! simulated device.

use std::cell::RefCell;
use std::collections::HashMap;
use std::rc::Rc;

use partner_window::{PartnerWindow, Transport};
use partner_window::pattern::pattern_pixels;
use partner_window::demos::test_pattern;
use partner_window::regs::{REG_ID, REG_CMD_READ, REG_CMD_WRITE, RAM_CMD};

#[test]
fn pattern_is_480_by_128_rgb565() {
    let data = pattern_pixels();
    assert_eq!(data.len(), 480 * 128 * 2);
    let pixel_at = |x: usize, y: usize| -> u16 {
        let idx = (y * 480 + x) * 2;
        u16::from_le_bytes([data[idx], data[idx + 1]])
    };
    // the eight bars in order, on the first and last row
    for y in [0usize, 127] {
        assert_eq!(pixel_at(0, y), 0xF800);
        assert_eq!(pixel_at(59, y), 0xF800);
        assert_eq!(pixel_at(60, y), 0x07E0);
        assert_eq!(pixel_at(120, y), 0x001F);
        assert_eq!(pixel_at(180, y), 0xFFFF);
        assert_eq!(pixel_at(240, y), 0xFFE0);
        assert_eq!(pixel_at(300, y), 0xF81F);
        assert_eq!(pixel_at(360, y), 0x07FF);
        assert_eq!(pixel_at(420, y), 0x0000);
        assert_eq!(pixel_at(479, y), 0x0000);
    }
}

/// A minimal simulated device for streaming: registers in a map, the
/// coprocessor draining instantly, a clock driven by sleeps.
#[derive(Default)]
struct StreamInner {
    mem: HashMap<u32, u8>,
    ring_payload: Vec<u8>,
    clock_ms: u64,
}

#[derive(Clone, Default)]
struct StreamEve(Rc<RefCell<StreamInner>>);

impl Transport for StreamEve {
    fn write(&mut self, data: &[u8]) -> Result<(), String> {
        let mut inner = self.0.borrow_mut();
        if data.len() == 3 && data[0] & 0x80 == 0 {
            return Ok(());
        }
        let addr = (((data[0] & 0x3F) as u32) << 16) | ((data[1] as u32) << 8) | data[2] as u32;
        for (k, byte) in data[3..].iter().enumerate() {
            inner.mem.insert(addr + k as u32, *byte);
        }
        if addr >= RAM_CMD && addr < RAM_CMD + 4096 {
            inner.ring_payload.extend_from_slice(&data[3..]);
        }
        if addr == REG_CMD_WRITE {
            let lo = *inner.mem.get(&REG_CMD_WRITE).unwrap_or(&0);
            let hi = *inner.mem.get(&(REG_CMD_WRITE + 1)).unwrap_or(&0);
            inner.mem.insert(REG_CMD_READ, lo);
            inner.mem.insert(REG_CMD_READ + 1, hi);
        }
        Ok(())
    }

    fn transfer(&mut self, prefix: &[u8], read_len: usize) -> Result<Vec<u8>, String> {
        let inner = self.0.borrow();
        let addr =
            (((prefix[0] & 0x3F) as u32) << 16) | ((prefix[1] as u32) << 8) | prefix[2] as u32;
        if addr == REG_ID {
            return Ok(vec![0x7C]);
        }
        let mut out = Vec::new();
        for k in 0..read_len {
            out.push(*inner.mem.get(&(addr + k as u32)).unwrap_or(&0));
        }
        Ok(out)
    }

    fn set_pd(&mut self, _high: bool) -> Result<(), String> {
        Ok(())
    }

    fn sleep_ms(&mut self, ms: u32) {
        self.0.borrow_mut().clock_ms += ms as u64;
    }

    fn now_ms(&mut self) -> u64 {
        self.0.borrow().clock_ms
    }
}

#[test]
fn pattern_streams_through_inflate_and_round_trips() {
    let mock = StreamEve::default();
    let mut pw = PartnerWindow::new(mock.clone());
    test_pattern(&mut pw).unwrap();

    // the coprocessor consumed everything the host published
    let inner = mock.0.borrow();
    let rd = u16::from_le_bytes([
        *inner.mem.get(&REG_CMD_READ).unwrap_or(&0),
        *inner.mem.get(&(REG_CMD_READ + 1)).unwrap_or(&0),
    ]);
    let wr = u16::from_le_bytes([
        *inner.mem.get(&REG_CMD_WRITE).unwrap_or(&0),
        *inner.mem.get(&(REG_CMD_WRITE + 1)).unwrap_or(&0),
    ]);
    assert_eq!(rd, wr);

    // the ring carried CMD_INFLATE, the destination, then the zlib stream
    let payload = &inner.ring_payload;
    assert_eq!(&payload[0..4], &[0x22, 0xFF, 0xFF, 0xFF]);
    assert_eq!(&payload[4..8], &[0, 0, 0, 0]);
    // after the header comes the zlib stream of the raw pattern,
    // zero-padded to a word boundary
    let raw = pattern_pixels();
    let compressed = miniz_oxide::deflate::compress_to_vec_zlib(&raw, 9);
    assert!(compressed.len() < raw.len(), "the stream must actually compress");
    let stream = &payload[8..8 + compressed.len()];
    assert_eq!(stream, compressed.as_slice());
    // a zlib stream starts with a header whose big-endian value is a
    // multiple of 31
    let header = ((stream[0] as u32) << 8) | stream[1] as u32;
    assert_eq!(header % 31, 0);
    // decompressing gives back exactly the pattern
    let restored =
        miniz_oxide::inflate::decompress_to_vec_zlib(stream).expect("the stream decompresses");
    assert_eq!(restored, raw);
}
