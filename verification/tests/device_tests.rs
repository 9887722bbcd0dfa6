//! Scenario tests against a simulated EVE behind the transport trait: the
//! mock parses the SPI frames, keeps a register file and a memory image,
//! and lets the tests inject failures and stalls.

use std::cell::RefCell;
use std::collections::HashMap;
use std::rc::Rc;

use partner_window::{PartnerWindow, PwError, Transport};
use partner_window::regs::{REG_ID, REG_CMD_READ, REG_CMD_WRITE, REG_PCLK, REG_GPIO, REG_DLSWAP,
    RAM_DL, RAM_CMD, RAM_G, DISPLAY_WIDTH, DISPLAY_HEIGHT};

/// One operation the mock saw, in order.
#[derive(Debug, Clone, PartialEq)]
enum MockOp {
    /// A memory or register write: address and payload.
    Write(u32, Vec<u8>),
    /// A host command byte.
    Host(u8),
    /// A read: address and length.
    Read(u32, usize),
    /// The power-down line.
    Pd(bool),
    /// A pause in milliseconds.
    Sleep(u32),
}

#[derive(Default)]
struct MockInner {
    mem: HashMap<u32, u8>,
    ops: Vec<MockOp>,
    clock_ms: u64,
    /// What REG_ID answers once `id_ready_after` reads have happened.
    chip_id: u8,
    id_reads: usize,
    id_ready_after: usize,
    /// When true the coprocessor instantly consumes what is published.
    consume: bool,
    /// Fail every transfer after this many successful writes.
    fail_writes_after: Option<usize>,
    writes_seen: usize,
}

#[derive(Clone)]
struct MockEve(Rc<RefCell<MockInner>>);

impl MockEve {
    fn healthy() -> Self {
        let mut inner = MockInner::default();
        inner.chip_id = 0x7C;
        inner.consume = true;
        MockEve(Rc::new(RefCell::new(inner)))
    }

    fn ops(&self) -> Vec<MockOp> {
        self.0.borrow().ops.clone()
    }

    fn mem(&self) -> HashMap<u32, u8> {
        self.0.borrow().mem.clone()
    }

    fn reg16(&self, addr: u32) -> u16 {
        let inner = self.0.borrow();
        let lo = *inner.mem.get(&addr).unwrap_or(&0) as u16;
        let hi = *inner.mem.get(&(addr + 1)).unwrap_or(&0) as u16;
        lo | (hi << 8)
    }

    /// The 32-bit words written into the command ring, in the order they
    /// were written.
    fn ring_words(&self) -> Vec<u32> {
        let mut words = Vec::new();
        for op in self.0.borrow().ops.iter() {
            if let MockOp::Write(addr, payload) = op {
                if *addr >= RAM_CMD && *addr < RAM_CMD + 4096 && payload.len() == 4 {
                    words.push(u32::from_le_bytes([
                        payload[0], payload[1], payload[2], payload[3],
                    ]));
                }
            }
        }
        words
    }
}

impl Transport for MockEve {
    fn write(&mut self, data: &[u8]) -> Result<(), String> {
        let mut inner = self.0.borrow_mut();
        if let Some(limit) = inner.fail_writes_after {
            if inner.writes_seen >= limit {
                return Err("injected transport failure".to_string());
            }
        }
        inner.writes_seen += 1;
        if data.len() == 3 && data[0] & 0x80 == 0 {
            let cmd = data[0];
            inner.ops.push(MockOp::Host(cmd));
            return Ok(());
        }
        assert!(data.len() >= 4, "write frame too short");
        assert!(data[0] & 0x80 != 0, "write frame without write bit");
        let addr = (((data[0] & 0x3F) as u32) << 16) | ((data[1] as u32) << 8) | data[2] as u32;
        let payload = data[3..].to_vec();
        for (k, byte) in payload.iter().enumerate() {
            inner.mem.insert(addr + k as u32, *byte);
        }
        if addr == REG_CMD_WRITE && inner.consume {
            // the simulated coprocessor drains the ring at once
            let lo = *inner.mem.get(&REG_CMD_WRITE).unwrap_or(&0);
            let hi = *inner.mem.get(&(REG_CMD_WRITE + 1)).unwrap_or(&0);
            inner.mem.insert(REG_CMD_READ, lo);
            inner.mem.insert(REG_CMD_READ + 1, hi);
        }
        inner.ops.push(MockOp::Write(addr, payload));
        Ok(())
    }

    fn transfer(&mut self, prefix: &[u8], read_len: usize) -> Result<Vec<u8>, String> {
        let mut inner = self.0.borrow_mut();
        assert_eq!(prefix.len(), 4, "read prefix must be 4 bytes");
        let addr =
            (((prefix[0] & 0x3F) as u32) << 16) | ((prefix[1] as u32) << 8) | prefix[2] as u32;
        inner.ops.push(MockOp::Read(addr, read_len));
        if addr == REG_ID {
            inner.id_reads += 1;
            let v = if inner.id_reads > inner.id_ready_after {
                inner.chip_id
            } else {
                0
            };
            return Ok(vec![v]);
        }
        let mut out = Vec::new();
        for k in 0..read_len {
            out.push(*inner.mem.get(&(addr + k as u32)).unwrap_or(&0));
        }
        Ok(out)
    }

    fn set_pd(&mut self, high: bool) -> Result<(), String> {
        self.0.borrow_mut().ops.push(MockOp::Pd(high));
        Ok(())
    }

    fn sleep_ms(&mut self, ms: u32) {
        let mut inner = self.0.borrow_mut();
        inner.clock_ms += ms as u64;
        inner.ops.push(MockOp::Sleep(ms));
    }

    fn now_ms(&mut self) -> u64 {
        self.0.borrow().clock_ms
    }
}

#[test]
fn init_succeeds_when_chip_answers() {
    let mock = MockEve::healthy();
    let mut pw = PartnerWindow::new(mock.clone());
    assert!(pw.init().is_ok());
    let ops = mock.ops();
    // power came up first
    assert_eq!(ops[0], MockOp::Pd(true));
    // the ring pointers were zeroed during the CPU reset
    assert!(ops.contains(&MockOp::Write(REG_CMD_READ, vec![0, 0])));
    assert!(ops.contains(&MockOp::Write(REG_CMD_WRITE, vec![0, 0])));
    // the pixel clock was started with divider 9
    assert!(ops.contains(&MockOp::Write(REG_PCLK, vec![9])));
}

#[test]
fn init_reports_a_dead_chip() {
    let mock = MockEve::healthy();
    mock.0.borrow_mut().chip_id = 0x42;
    let mut pw = PartnerWindow::new(mock);
    match pw.init() {
        Err(PwError::ChipNotResponding(id)) => assert_eq!(id, 0x42),
        other => panic!("expected ChipNotResponding, got {:?}", other),
    }
}

#[test]
fn init_waits_for_a_slow_chip() {
    // REG_ID answers only after a few polls, still within the deadline
    let mock = MockEve::healthy();
    mock.0.borrow_mut().id_ready_after = 5;
    let mut pw = PartnerWindow::new(mock);
    assert!(pw.init().is_ok());
}

#[test]
fn display_text_emits_the_exact_words() {
    let mock = MockEve::healthy();
    let mut pw = PartnerWindow::new(mock.clone());
    let before = mock.ring_words().len();
    assert_eq!(before, 0);
    pw.display_text("Hi", None, None, 31, (255, 255, 255)).unwrap();
    assert_eq!(
        mock.ring_words(),
        vec![
            0xFFFFFF00, // CMD_DLSTART
            0x02000000, // CLEAR_COLOR_RGB(0,0,0)
            0x26000007, // CLEAR(1,1,1)
            0x04FFFFFF, // COLOR_RGB(255,255,255)
            0xFFFFFF0C, // CMD_TEXT
            0x004000F0, // x=240, y=64
            0x0600001F, // font 31, OPT_CENTER
            u32::from_le_bytes([b'H', b'i', 0, 0]),
            0x00000000, // DISPLAY
            0xFFFFFF01, // CMD_SWAP
        ]
    );
    // the batch was published and the wait saw the ring drained
    assert_eq!(mock.reg16(REG_CMD_READ), mock.reg16(REG_CMD_WRITE));
    assert_eq!(mock.reg16(REG_CMD_WRITE), 40);
}

#[test]
fn clear_screen_is_idempotent_in_device_state() {
    let mock = MockEve::healthy();
    let mut pw = PartnerWindow::new(mock.clone());
    pw.clear_screen(0, 0, 0).unwrap();
    let once = mock.mem();
    pw.clear_screen(0, 0, 0).unwrap();
    let twice = mock.mem();
    assert_eq!(once, twice);
    // the display list holds CLEAR_COLOR_RGB(0,0,0); CLEAR(1,1,1); DISPLAY
    assert_eq!(*twice.get(&(RAM_DL + 3)).unwrap(), 0x02);
    assert_eq!(*twice.get(&(RAM_DL + 4)).unwrap(), 0x07);
    assert_eq!(*twice.get(&REG_DLSWAP).unwrap(), 2);
}

#[test]
fn text_then_clear_leaves_ring_drained() {
    let mock = MockEve::healthy();
    let mut pw = PartnerWindow::new(mock.clone());
    pw.display_text("hello", None, None, 31, (255, 255, 255)).unwrap();
    pw.clear_screen(0, 0, 0).unwrap();
    assert_eq!(mock.reg16(REG_CMD_READ), mock.reg16(REG_CMD_WRITE));
}

#[test]
fn coprocessor_timeout_is_reported() {
    let mock = MockEve::healthy();
    mock.0.borrow_mut().consume = false;
    let mut pw = PartnerWindow::new(mock);
    match pw.display_text("x", None, None, 31, (255, 255, 255)) {
        Err(PwError::CoprocTimeout { rd, wr }) => {
            assert_eq!(rd, 0);
            assert_ne!(rd, wr);
        },
        other => panic!("expected CoprocTimeout, got {:?}", other),
    }
}

#[test]
fn ring_full_is_reported() {
    let mock = MockEve::healthy();
    mock.0.borrow_mut().consume = false;
    let mut pw = PartnerWindow::new(mock);
    // the ring never has space for a full 4 KiB
    match pw.wait_cmd_space(4096, 100) {
        Err(PwError::CmdBufferFull { needed, available }) => {
            assert_eq!(needed, 4096);
            assert!(available < 4096);
        },
        other => panic!("expected CmdBufferFull, got {:?}", other),
    }
}

#[test]
fn wait_space_returns_exactly_at_the_threshold() {
    let mock = MockEve::healthy();
    {
        // REG_CMD_READ = 8, REG_CMD_WRITE = 0: free = (8 - 0 - 4) mod 4096 = 4
        let mut inner = mock.0.borrow_mut();
        inner.consume = false;
        inner.mem.insert(REG_CMD_READ, 8);
        inner.mem.insert(REG_CMD_READ + 1, 0);
    }
    let mut pw = PartnerWindow::new(mock);
    assert!(pw.wait_cmd_space(4, 100).is_ok());
    match pw.wait_cmd_space(5, 100) {
        Err(PwError::CmdBufferFull { needed: 5, available: 4 }) => {},
        other => panic!("expected CmdBufferFull with 4 free, got {:?}", other),
    }
}

#[test]
fn explicit_coordinates_disable_centring() {
    let mock = MockEve::healthy();
    let mut pw = PartnerWindow::new(mock.clone());
    pw.display_text("x", Some(10), Some(20), 28, (0, 0, 0)).unwrap();
    let words = mock.ring_words();
    // x=10, y=20 packed little-endian, font 28 with no option flags
    assert_eq!(words[5], u32::from_le_bytes([10, 0, 20, 0]));
    assert_eq!(words[6], u32::from_le_bytes([28, 0, 0, 0]));
}

#[test]
fn one_absent_coordinate_defaults_to_the_panel_centre() {
    let mock = MockEve::healthy();
    let mut pw = PartnerWindow::new(mock.clone());
    pw.display_text("x", Some(10), None, 31, (0, 0, 0)).unwrap();
    let words = mock.ring_words();
    // y falls back to 64 but the text is not centred
    assert_eq!(words[5], u32::from_le_bytes([10, 0, 64, 0]));
    assert_eq!(words[6], u32::from_le_bytes([31, 0, 0, 0]));
}

#[test]
fn transport_failure_is_an_spi_error() {
    let mock = MockEve::healthy();
    mock.0.borrow_mut().fail_writes_after = Some(0);
    let mut pw = PartnerWindow::new(mock);
    match pw.wr8(REG_PCLK, 0) {
        Err(PwError::Spi(_)) => {},
        other => panic!("expected Spi, got {:?}", other),
    }
}

#[test]
fn gpio_failure_is_reported() {
    struct DeadPin(MockEve);
    impl Transport for DeadPin {
        fn write(&mut self, data: &[u8]) -> Result<(), String> {
            self.0.write(data)
        }
        fn transfer(&mut self, prefix: &[u8], read_len: usize) -> Result<Vec<u8>, String> {
            self.0.transfer(prefix, read_len)
        }
        fn set_pd(&mut self, _high: bool) -> Result<(), String> {
            Err("pin stuck".to_string())
        }
        fn sleep_ms(&mut self, ms: u32) {
            self.0.sleep_ms(ms)
        }
        fn now_ms(&mut self) -> u64 {
            self.0.now_ms()
        }
    }
    let mut pw = PartnerWindow::new(DeadPin(MockEve::healthy()));
    match pw.power_on() {
        Err(PwError::Gpio(_)) => {},
        other => panic!("expected Gpio, got {:?}", other),
    }
}

#[test]
fn device_loss_mid_session_surfaces_on_the_next_render() {
    let mock = MockEve::healthy();
    let mut pw = PartnerWindow::new(mock.clone());
    pw.init().unwrap();
    let seen = mock.0.borrow().writes_seen;
    mock.0.borrow_mut().fail_writes_after = Some(seen);
    assert!(pw.display_text("x", None, None, 31, (255, 255, 255)).is_err());
}

#[test]
fn shutdown_writes_in_the_safe_order() {
    let mock = MockEve::healthy();
    let mut pw = PartnerWindow::new(mock.clone());
    pw.init().unwrap();
    let before = mock.ops().len();
    pw.shutdown().unwrap();
    let ops = mock.ops()[before..].to_vec();
    // black clear with a swap first
    assert!(matches!(ops[0], MockOp::Write(a, _) if a == RAM_DL));
    assert_eq!(ops[3], MockOp::Write(REG_DLSWAP, vec![2]));
    assert_eq!(ops[4], MockOp::Sleep(50));
    // backlight off before the pixel clock stops, then the power drops
    let gpio_off = ops
        .iter()
        .position(|op| matches!(op, MockOp::Write(a, p) if *a == REG_GPIO && p[0] & 0x80 == 0))
        .expect("backlight cleared");
    let pclk_off = ops
        .iter()
        .position(|op| *op == MockOp::Write(REG_PCLK, vec![0]))
        .expect("pixel clock stopped");
    let pd_low = ops
        .iter()
        .position(|op| *op == MockOp::Pd(false))
        .expect("power dropped");
    assert!(gpio_off < pd_low);
    assert!(pclk_off < pd_low);
    assert!(gpio_off < pclk_off);
    // at the moment the power dropped, the registers really were off
    assert_eq!(*mock.mem().get(&REG_PCLK).unwrap(), 0);
    assert_eq!(*mock.mem().get(&REG_GPIO).unwrap() & 0x80, 0);
}

#[test]
fn oversized_raw_bitmap_is_truncated() {
    let mock = MockEve::healthy();
    let mut pw = PartnerWindow::new(mock.clone());
    // 4x2 pixels take exactly 16 bytes; hand 20 incompressible ones
    let data: Vec<u8> = (1..=20).collect();
    pw.display_bitmap_rgb565(&data, 4, 2, RAM_G).unwrap();
    let bulk = mock
        .ops()
        .into_iter()
        .find_map(|op| match op {
            MockOp::Write(a, p) if a == RAM_G => Some(p),
            _ => None,
        })
        .expect("raw upload");
    assert_eq!(bulk.len(), 16);
    assert_eq!(bulk, (1..=16).collect::<Vec<u8>>());
}

#[test]
fn undersized_raw_bitmap_is_written_as_is() {
    let mock = MockEve::healthy();
    let mut pw = PartnerWindow::new(mock.clone());
    // short, but the first two bytes are not a multiple of 31 read
    // big-endian, so the raw path is taken
    let data: Vec<u8> = vec![1, 2, 3, 4];
    pw.display_bitmap_rgb565(&data, 4, 2, RAM_G).unwrap();
    let bulk = mock
        .ops()
        .into_iter()
        .find_map(|op| match op {
            MockOp::Write(a, p) if a == RAM_G => Some(p),
            _ => None,
        })
        .expect("raw upload");
    assert_eq!(bulk, vec![1, 2, 3, 4]);
}

#[test]
fn zlib_header_and_short_length_select_the_inflate_path() {
    let mock = MockEve::healthy();
    let mut pw = PartnerWindow::new(mock.clone());
    // 0x78 0x9C is the common zlib header: 0x789C is divisible by 31,
    // and four bytes are fewer than the 16 the size declares
    let data: Vec<u8> = vec![0x78, 0x9C, 0xAA, 0xBB];
    pw.display_bitmap_rgb565(&data, 4, 2, RAM_G).unwrap();
    // nothing was bulk-written to graphics RAM
    assert!(!mock.ops().iter().any(|op| matches!(op, MockOp::Write(a, _) if *a < RAM_DL)));
    // the ring carried CMD_INFLATE with the destination and the payload
    let words = mock.ring_words();
    assert_eq!(words[0], 0xFFFFFF22);
    assert_eq!(words[1], RAM_G);
    assert_eq!(words[2], u32::from_le_bytes([0x78, 0x9C, 0xAA, 0xBB]));
}

#[test]
fn number_frame_carries_the_value() {
    let mock = MockEve::healthy();
    let mut pw = PartnerWindow::new(mock.clone());
    pw.display_number(12345, None, None, 31, (0, 255, 0)).unwrap();
    let words = mock.ring_words();
    assert_eq!(words[0], 0xFFFFFF00);
    assert_eq!(words[4], 0xFFFFFF2E); // CMD_NUMBER
    assert_eq!(words[7], 12345);
}

#[test]
fn dl_words_land_on_word_boundaries() {
    let mock = MockEve::healthy();
    let mut pw = PartnerWindow::new(mock.clone());
    pw.clear_screen(10, 20, 30).unwrap();
    for op in mock.ops() {
        if let MockOp::Write(addr, payload) = op {
            if addr >= RAM_DL && addr < RAM_DL + 8192 {
                assert_eq!((addr - RAM_DL) % 4, 0);
                assert_eq!(payload.len(), 4);
            }
        }
    }
}

#[test]
fn ring_pointer_updates_stay_aligned_inside_the_ring() {
    let mock = MockEve::healthy();
    let mut pw = PartnerWindow::new(mock.clone());
    pw.init().unwrap();
    pw.display_text("some longer text to move the pointer", None, None, 31, (1, 2, 3))
        .unwrap();
    pw.display_number(7, None, None, 28, (1, 2, 3)).unwrap();
    for op in mock.ops() {
        if let MockOp::Write(addr, payload) = op {
            if addr == REG_CMD_WRITE && payload.len() == 2 {
                let v = u16::from_le_bytes([payload[0], payload[1]]);
                assert_eq!(v % 4, 0);
                assert!(v < 4096);
            }
        }
    }
}

#[test]
fn idle_frame_draws_face_and_logo() {
    let mock = MockEve::healthy();
    let mut pw = PartnerWindow::new(mock.clone());
    pw.display_idle_with_logo("( ^ _ ^ )", 26, (100, 100, 100), RAM_G, 32, 32, 444, 92)
        .unwrap();
    let words = mock.ring_words();
    assert_eq!(words[0], 0xFFFFFF00);
    assert_eq!(words[4], 0xFFFFFF0C); // CMD_TEXT for the face art
    // VERTEX2II(444, 92, 0, 0) places the logo bottom-right
    let vertex = (2u32 << 30) | (444 << 21) | (92 << 12);
    assert!(words.contains(&vertex));
    assert_eq!(*words.last().unwrap(), 0xFFFFFF01);
}
