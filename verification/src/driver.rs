//! The register-level EVE driver.
//!
//! [`PartnerWindow`] owns a [`Transport`] — the SPI bridge plus the
//! power-down line and a clock — and keeps a ghost transcript of every
//! operation it performs.  The byte framing of each operation is produced
//! by the verified builders in [`crate::frames`]; the contract of each
//! method states exactly which events the call appends to the transcript.
//!
//! Implementations of [`Transport`] live outside the library and are not
//! verified; the driver therefore promises nothing about the values a read
//! returns, only that it records them faithfully.

use vstd::prelude::*;
use vstd::string::StringSliceAdditionalSpecFns;
use crate::events::{Ev, ev_protocol_ok, log_ok, ring_poll_ev, poll_tail, ring_events, delta};
use crate::frames::{frame_wr8, frame_wr16, frame_wr32, frame_bulk, frame_rd_prefix,
    frame_host_cmd};
use crate::bytes::{le16_of, le32_of};
use crate::ring::{ptr_ok, mask_ptr, ring_add, spec_free, free_space, next_ptr, lemma_mask_ptr_ok,
    lemma_ring_add_ok};
use crate::regs::{RAM_DL, RAM_CMD, RAM_DL_SIZE, REG_CMD_READ, REG_CMD_WRITE, REG_DLSWAP,
    REG_ID, DLSWAP_FRAME};

verus! {

/// Errors of the partner-window driver.
#[derive(Debug)]
pub enum PwError {
    /// Transport I/O failure; fatal to the current handle.
    Spi(String),
    /// Power-line toggle failed.
    Gpio(String),
    /// REG_ID never returned 0x7C during initialisation.
    ChipNotResponding(u8),
    /// The coprocessor did not drain the ring before the deadline.
    CoprocTimeout { rd: u16, wr: u16 },
    /// The host outran the coprocessor while streaming.
    CmdBufferFull { needed: usize, available: usize },
}

/// The synchronous byte transport under the driver: SPI transfers with the
/// chip select held for the whole call, the EVE power-down line, and a
/// clock.  Implementations are unverified; the driver checks what it can
/// (such as the length of a read) and records every call in its transcript.
pub trait Transport {
    /// Writes the bytes as one SPI transaction.
    fn write(&mut self, data: &[u8]) -> Result<(), String>;

    /// Writes `prefix`, then clocks `read_len` bytes in, all in one SPI
    /// transaction.
    fn transfer(&mut self, prefix: &[u8], read_len: usize) -> Result<Vec<u8>, String>;

    /// Drives the EVE power-down line high (true) or low (false).
    fn set_pd(&mut self, high: bool) -> Result<(), String>;

    /// Blocks for the given number of milliseconds.
    fn sleep_ms(&mut self, ms: u32);

    /// A monotonic millisecond clock.
    fn now_ms(&mut self) -> u64;
}

/// The partner-window display driver.
///
/// `cmd_write_ptr` mirrors REG_CMD_WRITE and is always a multiple of 4
/// below 4096; `dl_offset` is the next display-list write offset and is
/// always a multiple of 4, at most 8192.
pub struct PartnerWindow<T> {
    port: T,
    cmd_write_ptr: u16,
    dl_offset: u32,
    log: Ghost<Seq<Ev>>,
}

impl<T> PartnerWindow<T> {
    /// The transcript of every operation performed so far.
    pub closed spec fn log(&self) -> Seq<Ev> {
        self.log@
    }

    /// The local mirror of REG_CMD_WRITE.
    pub closed spec fn ptr(&self) -> u16 {
        self.cmd_write_ptr
    }

    /// The next display-list write offset.
    pub closed spec fn dl_off(&self) -> u32 {
        self.dl_offset
    }

    /// Well-formedness: the ring mirror is a word offset inside the ring,
    /// the display-list offset is word-aligned and within the 8 KiB RAM,
    /// and every recorded operation obeys the protocol limits.
    pub open spec fn wf(&self) -> bool {
        &&& ptr_ok(self.ptr())
        &&& self.dl_off() % 4 == 0
        &&& self.dl_off() <= RAM_DL_SIZE
        &&& log_ok(self.log())
    }

    /// The ring mirror and display-list offset are unchanged.
    pub open spec fn same_regs(pre: Self, post: Self) -> bool {
        post.ptr() == pre.ptr() && post.dl_off() == pre.dl_off()
    }
}

proof fn lemma_log_ok_push(l: Seq<Ev>, e: Ev)
    requires
        log_ok(l),
        ev_protocol_ok(e),
    ensures
        log_ok(l.push(e)),
{
    assert forall|i: int| 0 <= i < l.push(e).len() implies ev_protocol_ok(#[trigger] l.push(e)[i])
        by {
        if i < l.len() {
            assert(ev_protocol_ok(l[i]));
        }
    }
}

impl<T: Transport> PartnerWindow<T> {
    /// Creates a driver over a pre-configured transport.
    pub fn new(port: T) -> (r: Self)
        ensures
            r.wf(),
            r.log() == Seq::<Ev>::empty(),
            r.ptr() == 0,
            r.dl_off() == 0,
    {
        PartnerWindow { port, cmd_write_ptr: 0, dl_offset: 0, log: Ghost(Seq::empty()) }
    }

    /// Sends a 3-byte EVE host command.
    pub fn host_cmd(&mut self, cmd: u8) -> (r: Result<(), PwError>)
        requires
            old(self).wf(),
        ensures
            final(self).wf(),
            Self::same_regs(*old(self), *final(self)),
            r matches Ok(v) ==> final(self).log() == old(self).log().push(
                Ev::HostCmd { cmd },
            ),
            r matches Err(e) ==> final(self).log() == old(self).log() && e is Spi,
    {
        let frame = frame_host_cmd(cmd);
        match self.port.write(frame.as_slice()) {
            Ok(_) => {
                proof {
                    lemma_log_ok_push(self.log@, Ev::HostCmd { cmd });
                }
                self.log = Ghost(self.log@.push(Ev::HostCmd { cmd }));
                Ok(())
            },
            Err(e) => Err(PwError::Spi(e)),
        }
    }

    /// Writes an 8-bit value to an EVE register or memory address.
    pub fn wr8(&mut self, addr: u32, value: u8) -> (r: Result<(), PwError>)
        requires
            old(self).wf(),
        ensures
            final(self).wf(),
            Self::same_regs(*old(self), *final(self)),
            r matches Ok(v) ==> final(self).log() == old(self).log().push(
                Ev::Wr8 { addr, val: value },
            ),
            r matches Err(e) ==> final(self).log() == old(self).log() && e is Spi,
    {
        let frame = frame_wr8(addr, value);
        match self.port.write(frame.as_slice()) {
            Ok(_) => {
                proof {
                    lemma_log_ok_push(self.log@, Ev::Wr8 { addr, val: value });
                }
                self.log = Ghost(self.log@.push(Ev::Wr8 { addr, val: value }));
                Ok(())
            },
            Err(e) => Err(PwError::Spi(e)),
        }
    }

    /// Writes a 16-bit little-endian value.  A write to a ring-pointer
    /// register must keep the pointer a word offset inside the ring.
    pub fn wr16(&mut self, addr: u32, value: u16) -> (r: Result<(), PwError>)
        requires
            old(self).wf(),
            ev_protocol_ok(Ev::Wr16 { addr, val: value }),
        ensures
            final(self).wf(),
            Self::same_regs(*old(self), *final(self)),
            r matches Ok(v) ==> final(self).log() == old(self).log().push(
                Ev::Wr16 { addr, val: value },
            ),
            r matches Err(e) ==> final(self).log() == old(self).log() && e is Spi,
    {
        let frame = frame_wr16(addr, value);
        match self.port.write(frame.as_slice()) {
            Ok(_) => {
                proof {
                    lemma_log_ok_push(self.log@, Ev::Wr16 { addr, val: value });
                }
                self.log = Ghost(self.log@.push(Ev::Wr16 { addr, val: value }));
                Ok(())
            },
            Err(e) => Err(PwError::Spi(e)),
        }
    }

    /// Writes a 32-bit little-endian value.  A write into display-list RAM
    /// or into the command ring must land on a word boundary.
    pub fn wr32(&mut self, addr: u32, value: u32) -> (r: Result<(), PwError>)
        requires
            old(self).wf(),
            ev_protocol_ok(Ev::Wr32 { addr, val: value }),
        ensures
            final(self).wf(),
            Self::same_regs(*old(self), *final(self)),
            r matches Ok(v) ==> final(self).log() == old(self).log().push(
                Ev::Wr32 { addr, val: value },
            ),
            r matches Err(e) ==> final(self).log() == old(self).log() && e is Spi,
    {
        let frame = frame_wr32(addr, value);
        match self.port.write(frame.as_slice()) {
            Ok(_) => {
                proof {
                    lemma_log_ok_push(self.log@, Ev::Wr32 { addr, val: value });
                }
                self.log = Ghost(self.log@.push(Ev::Wr32 { addr, val: value }));
                Ok(())
            },
            Err(e) => Err(PwError::Spi(e)),
        }
    }

    /// Writes a block of bytes starting at `addr`.  The block must stay
    /// inside graphics RAM.
    pub fn wr_bulk(&mut self, addr: u32, data: &[u8]) -> (r: Result<(), PwError>)
        requires
            old(self).wf(),
            ev_protocol_ok(Ev::WrBulk { addr, data: data@ }),
        ensures
            final(self).wf(),
            Self::same_regs(*old(self), *final(self)),
            r matches Ok(v) ==> final(self).log() == old(self).log().push(
                Ev::WrBulk { addr, data: data@ },
            ),
            r matches Err(e) ==> final(self).log() == old(self).log() && e is Spi,
    {
        let frame = frame_bulk(addr, data);
        match self.port.write(frame.as_slice()) {
            Ok(_) => {
                proof {
                    lemma_log_ok_push(self.log@, Ev::WrBulk { addr, data: data@ });
                }
                self.log = Ghost(self.log@.push(Ev::WrBulk { addr, data: data@ }));
                Ok(())
            },
            Err(e) => Err(PwError::Spi(e)),
        }
    }

    /// Reads an 8-bit value.
    pub fn rd8(&mut self, addr: u32) -> (r: Result<u8, PwError>)
        requires
            old(self).wf(),
        ensures
            final(self).wf(),
            Self::same_regs(*old(self), *final(self)),
            r matches Ok(v) ==> final(self).log() == old(self).log().push(
                Ev::Rd8 { addr, val: v },
            ),
            r matches Err(e) ==> final(self).log() == old(self).log() && e is Spi,
    {
        let prefix = frame_rd_prefix(addr);
        match self.port.transfer(prefix.as_slice(), 1) {
            Ok(b) => {
                if b.len() != 1 {
                    return Err(PwError::Spi("transfer returned a wrong number of bytes".to_owned()));
                }
                let v = b[0];
                proof {
                    lemma_log_ok_push(self.log@, Ev::Rd8 { addr, val: v });
                }
                self.log = Ghost(self.log@.push(Ev::Rd8 { addr, val: v }));
                Ok(v)
            },
            Err(e) => Err(PwError::Spi(e)),
        }
    }

    /// Reads a 16-bit little-endian value.
    pub fn rd16(&mut self, addr: u32) -> (r: Result<u16, PwError>)
        requires
            old(self).wf(),
        ensures
            final(self).wf(),
            Self::same_regs(*old(self), *final(self)),
            r matches Ok(v) ==> final(self).log() == old(self).log().push(
                Ev::Rd16 { addr, val: v },
            ),
            r matches Err(e) ==> final(self).log() == old(self).log() && e is Spi,
    {
        let prefix = frame_rd_prefix(addr);
        match self.port.transfer(prefix.as_slice(), 2) {
            Ok(b) => {
                if b.len() != 2 {
                    return Err(PwError::Spi("transfer returned a wrong number of bytes".to_owned()));
                }
                let v = le16_of(b[0], b[1]);
                proof {
                    lemma_log_ok_push(self.log@, Ev::Rd16 { addr, val: v });
                }
                self.log = Ghost(self.log@.push(Ev::Rd16 { addr, val: v }));
                Ok(v)
            },
            Err(e) => Err(PwError::Spi(e)),
        }
    }

    /// Reads a 32-bit little-endian value.
    pub fn rd32(&mut self, addr: u32) -> (r: Result<u32, PwError>)
        requires
            old(self).wf(),
        ensures
            final(self).wf(),
            Self::same_regs(*old(self), *final(self)),
            r matches Ok(v) ==> final(self).log() == old(self).log().push(
                Ev::Rd32 { addr, val: v },
            ),
            r matches Err(e) ==> final(self).log() == old(self).log() && e is Spi,
    {
        let prefix = frame_rd_prefix(addr);
        match self.port.transfer(prefix.as_slice(), 4) {
            Ok(b) => {
                if b.len() != 4 {
                    return Err(PwError::Spi("transfer returned a wrong number of bytes".to_owned()));
                }
                let v = le32_of(b[0], b[1], b[2], b[3]);
                proof {
                    lemma_log_ok_push(self.log@, Ev::Rd32 { addr, val: v });
                }
                self.log = Ghost(self.log@.push(Ev::Rd32 { addr, val: v }));
                Ok(v)
            },
            Err(e) => Err(PwError::Spi(e)),
        }
    }

    /// Blocks for `ms` milliseconds and records the pause.
    pub fn wait_ms(&mut self, ms: u32)
        requires
            old(self).wf(),
        ensures
            final(self).wf(),
            Self::same_regs(*old(self), *final(self)),
            final(self).log() == old(self).log().push(Ev::Sleep { ms }),
    {
        self.port.sleep_ms(ms);
        proof {
            lemma_log_ok_push(self.log@, Ev::Sleep { ms });
        }
        self.log = Ghost(self.log@.push(Ev::Sleep { ms }));
    }

    /// Reads the monotonic clock.
    pub fn clock_ms(&mut self) -> (r: u64)
        requires
            old(self).wf(),
        ensures
            final(self).wf(),
            Self::same_regs(*old(self), *final(self)),
            final(self).log() == old(self).log(),
    {
        self.port.now_ms()
    }

    /// Drives the power-down line high and lets the chip power up.
    pub fn power_on(&mut self) -> (r: Result<(), PwError>)
        requires
            old(self).wf(),
        ensures
            final(self).wf(),
            Self::same_regs(*old(self), *final(self)),
            r matches Ok(v) ==> final(self).log() == old(self).log() + seq![
                Ev::PdHigh,
                Ev::Sleep { ms: 50 },
            ],
            r matches Err(e) ==> final(self).log() == old(self).log() && e is Gpio,
    {
        match self.port.set_pd(true) {
            Ok(_) => {
                proof {
                    lemma_log_ok_push(self.log@, Ev::PdHigh);
                }
                self.log = Ghost(self.log@.push(Ev::PdHigh));
                self.wait_ms(50);
                proof {
                    assert(self.log@ =~= old(self).log() + seq![Ev::PdHigh, Ev::Sleep { ms: 50 }]);
                }
                Ok(())
            },
            Err(e) => Err(PwError::Gpio(e)),
        }
    }

    /// Drives the power-down line low and lets the chip power down.
    pub fn power_off(&mut self) -> (r: Result<(), PwError>)
        requires
            old(self).wf(),
        ensures
            final(self).wf(),
            Self::same_regs(*old(self), *final(self)),
            r matches Ok(v) ==> final(self).log() == old(self).log() + seq![
                Ev::PdLow,
                Ev::Sleep { ms: 20 },
            ],
            r matches Err(e) ==> final(self).log() == old(self).log() && e is Gpio,
    {
        match self.port.set_pd(false) {
            Ok(_) => {
                proof {
                    lemma_log_ok_push(self.log@, Ev::PdLow);
                }
                self.log = Ghost(self.log@.push(Ev::PdLow));
                self.wait_ms(20);
                proof {
                    assert(self.log@ =~= old(self).log() + seq![Ev::PdLow, Ev::Sleep { ms: 20 }]);
                }
                Ok(())
            },
            Err(e) => Err(PwError::Gpio(e)),
        }
    }

    /// Resets the display-list write offset to the start of RAM_DL.
    pub fn dl_start(&mut self)
        requires
            old(self).wf(),
        ensures
            final(self).wf(),
            final(self).log() == old(self).log(),
            final(self).ptr() == old(self).ptr(),
            final(self).dl_off() == 0,
    {
        self.dl_offset = 0;
    }

    /// Writes one 32-bit display-list word at the current offset and
    /// advances the offset.  Every display-list write lands on a word
    /// boundary inside the 8 KiB display-list RAM.
    pub fn dl_word(&mut self, word: u32) -> (r: Result<(), PwError>)
        requires
            old(self).wf(),
            old(self).dl_off() < RAM_DL_SIZE,
        ensures
            final(self).wf(),
            final(self).ptr() == old(self).ptr(),
            r matches Ok(v) ==> final(self).log() == old(self).log().push(
                Ev::Wr32 { addr: (RAM_DL + old(self).dl_off()) as u32, val: word },
            ) && final(self).dl_off() == old(self).dl_off() + 4,
            r matches Err(e) ==> final(self).log() == old(self).log() && e is Spi
                && final(self).dl_off() == old(self).dl_off(),
    {
        let addr = RAM_DL + self.dl_offset;
        self.wr32(addr, word)?;
        self.dl_offset = self.dl_offset + 4;
        Ok(())
    }

    /// Reads REG_CMD_WRITE into the local ring mirror, starting a new
    /// coprocessor batch.  The register holds a 12-bit word-aligned offset,
    /// so masking it to one changes nothing on a healthy device and keeps
    /// the mirror well-formed on any device.
    pub fn cmd_begin(&mut self) -> (r: Result<(), PwError>)
        requires
            old(self).wf(),
        ensures
            final(self).wf(),
            final(self).dl_off() == old(self).dl_off(),
            r matches Ok(v) ==> crate::events::begin_delta(
                old(self).log(),
                final(self).log(),
                final(self).ptr(),
            ),
            r matches Err(e) ==> final(self).log() == old(self).log() && e is Spi
                && final(self).ptr() == old(self).ptr(),
    {
        let raw = match self.rd16(REG_CMD_WRITE) {
            Ok(v) => v,
            Err(e) => {
                return Err(e);
            },
        };
        self.cmd_write_ptr = mask_ptr(raw);
        proof {
            lemma_mask_ptr_ok(raw);
            assert(self.ptr() == mask_ptr(raw));
        }
        Ok(())
    }

    /// Appends one 32-bit word to the command ring at the mirrored write
    /// offset and advances the mirror, wrapping at 4 KiB.
    pub fn cmd_word(&mut self, word: u32) -> (r: Result<(), PwError>)
        requires
            old(self).wf(),
        ensures
            final(self).wf(),
            final(self).dl_off() == old(self).dl_off(),
            r matches Ok(v) ==> final(self).log() == old(self).log().push(
                Ev::Wr32 { addr: (RAM_CMD + old(self).ptr()) as u32, val: word },
            ) && final(self).ptr() == ring_add(old(self).ptr(), 1),
            r matches Err(e) ==> final(self).log() == old(self).log() && e is Spi
                && final(self).ptr() == old(self).ptr(),
    {
        let addr = RAM_CMD + (self.cmd_write_ptr as u32);
        self.wr32(addr, word)?;
        self.cmd_write_ptr = next_ptr(self.cmd_write_ptr);
        Ok(())
    }

    /// Publishes the mirrored write offset to REG_CMD_WRITE, handing the
    /// batch to the coprocessor.
    pub fn cmd_end(&mut self) -> (r: Result<(), PwError>)
        requires
            old(self).wf(),
        ensures
            final(self).wf(),
            Self::same_regs(*old(self), *final(self)),
            r matches Ok(v) ==> final(self).log() == old(self).log().push(
                Ev::Wr16 { addr: REG_CMD_WRITE, val: old(self).ptr() },
            ),
            r matches Err(e) ==> final(self).log() == old(self).log() && e is Spi,
    {
        self.wr16(REG_CMD_WRITE, self.cmd_write_ptr)
    }

    /// Appends a slice of 32-bit words to the command ring in order.
    pub fn cmd_words(&mut self, words: &[u32]) -> (r: Result<(), PwError>)
        requires
            old(self).wf(),
        ensures
            final(self).wf(),
            final(self).dl_off() == old(self).dl_off(),
            r matches Ok(v) ==> final(self).log() == old(self).log() + ring_events(
                old(self).ptr(),
                words@,
            ) && final(self).ptr() == ring_add(old(self).ptr(), words@.len() as int),
            r matches Err(e) ==> e is Spi,
    {
        let ghost p0 = old(self).ptr();
        let mut i: usize = 0;
        proof {
            assert(self.log() =~= old(self).log() + ring_events(p0, words@.take(0)));
        }
        while i < words.len()
            invariant
                self.wf(),
                ptr_ok(p0),
                self.dl_off() == old(self).dl_off(),
                i <= words@.len(),
                self.ptr() == ring_add(p0, i as int),
                self.log() == old(self).log() + ring_events(p0, words@.take(i as int)),
            decreases words@.len() - i,
        {
            proof {
                lemma_ring_add_ok(p0, i as int);
            }
            let w = words[i];
            match self.cmd_word(w) {
                Ok(_) => {},
                Err(e) => {
                    return Err(e);
                },
            }
            i = i + 1;
            proof {
                assert(ring_events(p0, words@.take(i as int)) =~= ring_events(
                    p0,
                    words@.take(i - 1),
                ).push(
                    Ev::Wr32 {
                        addr: (RAM_CMD + ring_add(p0, i - 1)) as u32,
                        val: words@[i - 1],
                    },
                ));
                assert(self.log() =~= old(self).log() + ring_events(p0, words@.take(i as int)));
            }
        }
        proof {
            assert(words@.take(i as int) =~= words@);
        }
        Ok(())
    }

    /// Writes a NUL-terminated, zero-padded string into the command ring
    /// as little-endian words.
    pub fn cmd_string(&mut self, text: &str) -> (r: Result<(), PwError>)
        requires
            old(self).wf(),
        ensures
            final(self).wf(),
            final(self).dl_off() == old(self).dl_off(),
            r matches Ok(v) ==> ({
                let ws = crate::bytes::words_of(
                    crate::bytes::string_payload(text.spec_bytes()),
                );
                final(self).log() == old(self).log() + ring_events(old(self).ptr(), ws)
                    && final(self).ptr() == ring_add(old(self).ptr(), ws.len() as int)
            }),
            r matches Err(e) ==> e is Spi,
    {
        let payload = crate::bytes::string_payload_bytes(text);
        let words = crate::bytes::words_from_bytes(payload.as_slice());
        self.cmd_words(words.as_slice())
    }

    /// Polls until the coprocessor has consumed everything the host
    /// published (REG_CMD_READ == REG_CMD_WRITE), or the deadline passes.
    pub fn cmd_wait(&mut self, timeout_ms: u64) -> (r: Result<(), PwError>)
        requires
            old(self).wf(),
        ensures
            final(self).wf(),
            Self::same_regs(*old(self), *final(self)),
            old(self).log().is_prefix_of(final(self).log()),
            forall|i: int|
                0 <= i < delta(old(self).log(), final(self).log()).len() ==> ring_poll_ev(
                    #[trigger] delta(old(self).log(), final(self).log())[i],
                ),
            r matches Ok(v) ==> crate::events::synced_tail(
                delta(old(self).log(), final(self).log()),
            ),
            r matches Err(e) ==> e is Spi || e is CoprocTimeout,
            r matches Err(PwError::CoprocTimeout { rd, wr }) ==> poll_tail(
                delta(old(self).log(), final(self).log()),
                rd,
                wr,
            ) && rd != wr,
    {
        let start = self.clock_ms();
        let deadline = if start > u64::MAX - timeout_ms {
            u64::MAX
        } else {
            start + timeout_ms
        };
        // The loop is bounded both by the clock and by a round counter, so
        // it terminates even against a stalled clock.
        let max_rounds: u64 = timeout_ms / 10 + 2;
        let mut rounds: u64 = 0;
        loop
            invariant
                self.wf(),
                rounds < max_rounds,
                Self::same_regs(*old(self), *self),
                old(self).log().is_prefix_of(self.log()),
                forall|i: int|
                    0 <= i < delta(old(self).log(), self.log()).len() ==> ring_poll_ev(
                        #[trigger] delta(old(self).log(), self.log())[i],
                    ),
            decreases max_rounds - rounds,
        {
            let ghost l0 = self.log();
            let rd = match self.rd16(REG_CMD_READ) {
                Ok(v) => v,
                Err(e) => {
                    return Err(e);
                },
            };
            proof {
                crate::events::lemma_ring_poll_push(
                    old(self).log(),
                    l0,
                    Ev::Rd16 { addr: REG_CMD_READ, val: rd },
                );
            }
            let ghost l1 = self.log();
            let wr = match self.rd16(REG_CMD_WRITE) {
                Ok(v) => v,
                Err(e) => {
                    return Err(e);
                },
            };
            proof {
                crate::events::lemma_ring_poll_push(
                    old(self).log(),
                    l1,
                    Ev::Rd16 { addr: REG_CMD_WRITE, val: wr },
                );
            }
            if rd == wr {
                proof {
                    let d = delta(old(self).log(), self.log());
                    assert(d[d.len() - 2] == (Ev::Rd16 { addr: REG_CMD_READ, val: rd }));
                    assert(d[d.len() - 1] == (Ev::Rd16 { addr: REG_CMD_WRITE, val: wr }));
                    assert(poll_tail(d, rd, rd));
                }
                return Ok(());
            }
            let now = self.clock_ms();
            rounds = rounds + 1;
            if now >= deadline || rounds >= max_rounds {
                proof {
                    let d = delta(old(self).log(), self.log());
                    assert(d[d.len() - 2] == (Ev::Rd16 { addr: REG_CMD_READ, val: rd }));
                    assert(d[d.len() - 1] == (Ev::Rd16 { addr: REG_CMD_WRITE, val: wr }));
                    assert(poll_tail(d, rd, wr));
                }
                return Err(PwError::CoprocTimeout { rd, wr });
            }
            let ghost l2 = self.log();
            self.wait_ms(10);
            proof {
                crate::events::lemma_ring_poll_push(old(self).log(), l2, Ev::Sleep { ms: 10 });
            }
        }
    }

    /// Polls until the ring has room for `needed` more bytes, or the
    /// deadline passes.  The space is `(rd - wr - 4) mod 4096`, computed
    /// with unsigned wrap-around.
    pub fn wait_cmd_space(&mut self, needed: usize, timeout_ms: u64) -> (r: Result<
        (),
        PwError,
    >)
        requires
            old(self).wf(),
        ensures
            final(self).wf(),
            Self::same_regs(*old(self), *final(self)),
            old(self).log().is_prefix_of(final(self).log()),
            forall|i: int|
                0 <= i < delta(old(self).log(), final(self).log()).len() ==> ring_poll_ev(
                    #[trigger] delta(old(self).log(), final(self).log())[i],
                ),
            r matches Ok(v) ==> exists|rd: u16, wr: u16|
                #[trigger] poll_tail(delta(old(self).log(), final(self).log()), rd, wr)
                    && spec_free(rd, wr) >= needed,
            r matches Err(e) ==> e is Spi || e is CmdBufferFull,
            r matches Err(PwError::CmdBufferFull { needed: n, available: a }) ==> n == needed
                && exists|rd: u16, wr: u16|
                #[trigger] poll_tail(delta(old(self).log(), final(self).log()), rd, wr) && a
                    == spec_free(rd, wr) && spec_free(rd, wr) < needed,
    {
        let start = self.clock_ms();
        let deadline = if start > u64::MAX - timeout_ms {
            u64::MAX
        } else {
            start + timeout_ms
        };
        // The loop is bounded both by the clock and by a round counter, so
        // it terminates even against a stalled clock.
        let max_rounds: u64 = timeout_ms / 10 + 2;
        let mut rounds: u64 = 0;
        loop
            invariant
                self.wf(),
                rounds < max_rounds,
                Self::same_regs(*old(self), *self),
                old(self).log().is_prefix_of(self.log()),
                forall|i: int|
                    0 <= i < delta(old(self).log(), self.log()).len() ==> ring_poll_ev(
                        #[trigger] delta(old(self).log(), self.log())[i],
                    ),
            decreases max_rounds - rounds,
        {
            let ghost l0 = self.log();
            let rd = match self.rd16(REG_CMD_READ) {
                Ok(v) => v,
                Err(e) => {
                    return Err(e);
                },
            };
            proof {
                crate::events::lemma_ring_poll_push(
                    old(self).log(),
                    l0,
                    Ev::Rd16 { addr: REG_CMD_READ, val: rd },
                );
            }
            let ghost l1 = self.log();
            let wr = match self.rd16(REG_CMD_WRITE) {
                Ok(v) => v,
                Err(e) => {
                    return Err(e);
                },
            };
            proof {
                crate::events::lemma_ring_poll_push(
                    old(self).log(),
                    l1,
                    Ev::Rd16 { addr: REG_CMD_WRITE, val: wr },
                );
            }
            let free = free_space(rd, wr);
            proof {
                let d = delta(old(self).log(), self.log());
                assert(d[d.len() - 2] == (Ev::Rd16 { addr: REG_CMD_READ, val: rd }));
                assert(d[d.len() - 1] == (Ev::Rd16 { addr: REG_CMD_WRITE, val: wr }));
                assert(poll_tail(d, rd, wr));
            }
            if free as usize >= needed {
                return Ok(());
            }
            let now = self.clock_ms();
            rounds = rounds + 1;
            if now >= deadline || rounds >= max_rounds {
                return Err(PwError::CmdBufferFull { needed, available: free as usize });
            }
            let ghost l2 = self.log();
            self.wait_ms(5);
            proof {
                crate::events::lemma_ring_poll_push(old(self).log(), l2, Ev::Sleep { ms: 5 });
            }
        }
    }

    /// Polls REG_ID every 50 ms until it answers 0x7C or the deadline
    /// passes, and returns the value last read.  Transport failures during
    /// the poll are retried; only a failure of the final read is reported.
    pub fn poll_reg_id(&mut self, timeout_ms: u64) -> (r: Result<u8, PwError>)
        requires
            old(self).wf(),
        ensures
            final(self).wf(),
            Self::same_regs(*old(self), *final(self)),
            old(self).log().is_prefix_of(final(self).log()),
            r matches Ok(v) ==> crate::events::id_poll_tail(
                delta(old(self).log(), final(self).log()),
                v,
            ),
            r matches Err(e) ==> e is Spi,
    {
        let start = self.clock_ms();
        let deadline = if start > u64::MAX - timeout_ms {
            u64::MAX
        } else {
            start + timeout_ms
        };
        // Bounded by the clock and by a round counter, so it terminates
        // even against a stalled clock.
        let max_rounds: u64 = timeout_ms / 50 + 2;
        let mut rounds: u64 = 0;
        loop
            invariant
                self.wf(),
                rounds < max_rounds,
                Self::same_regs(*old(self), *self),
                old(self).log().is_prefix_of(self.log()),
                forall|i: int|
                    0 <= i < delta(old(self).log(), self.log()).len() ==> crate::events::id_poll_ev(
                        #[trigger] delta(old(self).log(), self.log())[i],
                    ),
            decreases max_rounds - rounds,
        {
            let ghost l0 = self.log();
            match self.rd8(REG_ID) {
                Ok(v) => {
                    proof {
                        crate::events::lemma_id_poll_push(
                            old(self).log(),
                            l0,
                            Ev::Rd8 { addr: REG_ID, val: v },
                        );
                    }
                    if v == 0x7C {
                        proof {
                            let d = delta(old(self).log(), self.log());
                            assert(d[d.len() - 1] == (Ev::Rd8 { addr: REG_ID, val: v }));
                        }
                        return Ok(v);
                    }
                },
                Err(_) => {},
            }
            let now = self.clock_ms();
            rounds = rounds + 1;
            if now >= deadline || rounds >= max_rounds {
                let ghost l1 = self.log();
                let r = self.rd8(REG_ID);
                proof {
                    if r is Ok {
                        crate::events::lemma_id_poll_push(
                            old(self).log(),
                            l1,
                            Ev::Rd8 { addr: REG_ID, val: r->Ok_0 },
                        );
                        let d = delta(old(self).log(), self.log());
                        assert(d[d.len() - 1] == (Ev::Rd8 { addr: REG_ID, val: r->Ok_0 }));
                    }
                }
                return r;
            }
            let ghost l2 = self.log();
            self.wait_ms(50);
            proof {
                crate::events::lemma_id_poll_push(old(self).log(), l2, Ev::Sleep { ms: 50 });
            }
        }
    }

    /// Requests a display-list swap on the next frame.
    pub fn dl_swap(&mut self) -> (r: Result<(), PwError>)
        requires
            old(self).wf(),
        ensures
            final(self).wf(),
            Self::same_regs(*old(self), *final(self)),
            r matches Ok(v) ==> final(self).log() == old(self).log().push(
                Ev::Wr8 { addr: REG_DLSWAP, val: DLSWAP_FRAME },
            ),
            r matches Err(e) ==> final(self).log() == old(self).log() && e is Spi,
    {
        self.wr8(REG_DLSWAP, DLSWAP_FRAME)
    }
}

} // verus!
