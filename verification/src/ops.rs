//! High-level display operations: complete coprocessor batches, direct
//! display-list frames, text, numbers and the idle face with the logo.
//!
//! Each operation's contract describes the exact transcript it appends on
//! success and classifies the errors it can return.

use vstd::prelude::*;
use vstd::string::StringSliceAdditionalSpecFns;
use vstd::slice::slice_subrange;
use crate::driver::{PartnerWindow, PwError, Transport};
use crate::events::{Ev, delta, batch_delta, batch_delta_from, ring_events, lemma_prefix_split,
    lemma_prefix_refl, lemma_stream_push, lemma_stream_concat, lemma_ring_words_of_polls,
    inflate_delta, stream_ev, is_ring_write, ring_words_of, ring_poll_ev, poll_tail,
    ends_synced_at};
use crate::ring::{mask_ptr, ring_add};
use crate::dl::{clear_color_rgb, clear, display};
use crate::words::{build_text_words, build_number_words, build_bitmap_words, build_idle_words,
    text_words, number_words, bitmap_words, idle_words};
use crate::bytes::{le32_of, words_of, padded4, pad_buffer4, lemma_padded4_len};
use crate::regs::{RAM_DL, REG_DLSWAP, REG_CMD_WRITE, DLSWAP_FRAME, DISPLAY_WIDTH, DISPLAY_HEIGHT,
    OPT_CENTER, CMD_INFLATE, RAM_CMD, RAM_G_SIZE};

verus! {

/// A payload counts as zlib-compressed for a declared raw size when it is
/// shorter than the raw size and its first two bytes, read big-endian,
/// are a multiple of 31.
pub open spec fn zlib_detect(data: Seq<u8>, expected: nat) -> bool {
    data.len() >= 2 && ((data[0] as int) * 256 + (data[1] as int)) % 31 == 0 && data.len()
        < expected
}

/// What a raw upload writes: the payload, truncated to the declared raw
/// size when it is longer.
pub open spec fn raw_payload(data: Seq<u8>, expected: nat) -> Seq<u8> {
    if data.len() > expected {
        data.take(expected as int)
    } else {
        data
    }
}

/// The transcript of uploading and showing an RGB565 bitmap: the payload
/// goes up either through CMD_INFLATE (when it looks zlib-compressed) or
/// as a raw, possibly truncated, bulk write; then one batch draws it.
pub open spec fn bitmap_show_delta(
    d: Seq<Ev>,
    data: Seq<u8>,
    width: u16,
    height: u16,
    dest: u32,
) -> bool {
    let expected = (width as nat) * (height as nat) * 2;
    if zlib_detect(data, expected) {
        exists|n: int|
            0 <= n <= d.len() && #[trigger] inflate_delta(d.take(n), dest, data) && batch_delta(
                d.skip(n),
                bitmap_words(dest, width, height, (2 * width) as u16),
            )
    } else {
        &&& d.len() >= 1
        &&& d[0] == (Ev::WrBulk { addr: dest, data: raw_payload(data, expected) })
        &&& batch_delta(d.skip(1), bitmap_words(dest, width, height, (2 * width) as u16))
    }
}

/// The transcript of clearing the screen to a solid colour by a direct
/// display list at offset 0: clear colour, clear, display, swap.
pub open spec fn clear_events(r: u8, g: u8, b: u8) -> Seq<Ev> {
    seq![
        Ev::Wr32 { addr: RAM_DL, val: clear_color_rgb(r, g, b) },
        Ev::Wr32 { addr: (RAM_DL + 4) as u32, val: clear(true, true, true) },
        Ev::Wr32 { addr: (RAM_DL + 8) as u32, val: display() },
        Ev::Wr8 { addr: REG_DLSWAP, val: DLSWAP_FRAME },
    ]
}

impl<T: Transport> PartnerWindow<T> {
    /// Submits `words` to the coprocessor as one batch — read the write
    /// pointer, write the words, publish, wait for completion.
    pub fn cmd_batch(&mut self, words: &[u32]) -> (r: Result<(), PwError>)
        requires
            old(self).wf(),
        ensures
            final(self).wf(),
            final(self).dl_off() == old(self).dl_off(),
            r matches Ok(v) ==> old(self).log().is_prefix_of(final(self).log()) && batch_delta(
                delta(old(self).log(), final(self).log()),
                words@,
            ),
            r matches Err(e) ==> e is Spi || e is CoprocTimeout,
    {
        let ghost base = self.log();
        match self.cmd_begin() {
            Ok(_) => {},
            Err(e) => {
                return Err(e);
            },
        }
        let ghost l1 = self.log();
        let ghost p1 = self.ptr();
        match self.cmd_words(words) {
            Ok(_) => {},
            Err(e) => {
                return Err(e);
            },
        }
        let ghost l2 = self.log();
        let ghost p2 = self.ptr();
        match self.cmd_end() {
            Ok(_) => {},
            Err(e) => {
                return Err(e);
            },
        }
        let ghost l3 = self.log();
        match self.cmd_wait(2000) {
            Ok(_) => {},
            Err(e) => {
                return Err(e);
            },
        }
        proof {
            let raw = choose|raw: u16|
                l1 == base.push(Ev::Rd16 { addr: REG_CMD_WRITE, val: raw }) && p1 == mask_ptr(
                    raw,
                );
            let tail = delta(l3, self.log());
            lemma_prefix_split(l3, self.log());
            assert(delta(base, self.log()) =~= seq![
                Ev::Rd16 { addr: REG_CMD_WRITE, val: raw },
            ] + ring_events(mask_ptr(raw), words@) + seq![
                Ev::Wr16 { addr: REG_CMD_WRITE, val: ring_add(mask_ptr(raw), words@.len() as int) },
            ] + tail);
            assert(batch_delta_from(delta(base, self.log()), raw, words@, tail));
            assert(base =~= self.log().subrange(0, base.len() as int));
        }
        Ok(())
    }

    /// Clears the display to a solid colour with a direct display list at
    /// offset 0 and a frame swap.
    pub fn clear_screen(&mut self, r: u8, g: u8, b: u8) -> (res: Result<(), PwError>)
        requires
            old(self).wf(),
        ensures
            final(self).wf(),
            final(self).ptr() == old(self).ptr(),
            res matches Ok(v) ==> old(self).log().is_prefix_of(final(self).log()) && delta(
                old(self).log(),
                final(self).log(),
            ) == clear_events(r, g, b) && final(self).dl_off() == 12,
            res matches Err(e) ==> e is Spi,
    {
        let ghost base = self.log();
        self.dl_start();
        match self.dl_word(clear_color_rgb(r, g, b)) {
            Ok(_) => {},
            Err(e) => {
                return Err(e);
            },
        }
        match self.dl_word(clear(true, true, true)) {
            Ok(_) => {},
            Err(e) => {
                return Err(e);
            },
        }
        match self.dl_word(display()) {
            Ok(_) => {},
            Err(e) => {
                return Err(e);
            },
        }
        match self.dl_swap() {
            Ok(_) => {},
            Err(e) => {
                return Err(e);
            },
        }
        proof {
            assert(delta(base, self.log()) =~= clear_events(r, g, b));
            assert(base =~= self.log().subrange(0, base.len() as int));
        }
        Ok(())
    }

    /// Draws `text` with the coprocessor's ROM fonts.  When both
    /// coordinates are absent the text is centred on the panel.
    pub fn display_text(
        &mut self,
        text: &str,
        x: Option<i16>,
        y: Option<i16>,
        font: i16,
        color: (u8, u8, u8),
    ) -> (r: Result<(), PwError>)
        requires
            old(self).wf(),
        ensures
            final(self).wf(),
            final(self).dl_off() == old(self).dl_off(),
            r matches Ok(v) ==> old(self).log().is_prefix_of(final(self).log()) && batch_delta(
                delta(old(self).log(), final(self).log()),
                text_words(
                    text.spec_bytes(),
                    if x is Some {
                        x->0
                    } else {
                        (DISPLAY_WIDTH / 2) as i16
                    },
                    if y is Some {
                        y->0
                    } else {
                        (DISPLAY_HEIGHT / 2) as i16
                    },
                    font,
                    if x is None && y is None {
                        OPT_CENTER
                    } else {
                        0u16
                    },
                    color,
                ),
            ),
            r matches Err(e) ==> e is Spi || e is CoprocTimeout,
    {
        let px = match x {
            Some(v) => v,
            None => (DISPLAY_WIDTH / 2) as i16,
        };
        let py = match y {
            Some(v) => v,
            None => (DISPLAY_HEIGHT / 2) as i16,
        };
        let options: u16 = if x.is_none() && y.is_none() {
            OPT_CENTER
        } else {
            0
        };
        let words = build_text_words(text, px, py, font, options, color);
        self.cmd_batch(words.as_slice())
    }

    /// Streams a zlib payload to CMD_INFLATE in chunks of at most 2 KiB,
    /// publishing progress, waiting for ring space and resynchronising the
    /// write pointer between chunks, so the upload never outruns the 4 KiB
    /// ring.
    pub fn cmd_inflate(&mut self, dest: u32, data: &[u8]) -> (r: Result<(), PwError>)
        requires
            old(self).wf(),
        ensures
            final(self).wf(),
            final(self).dl_off() == old(self).dl_off(),
            r matches Ok(v) ==> old(self).log().is_prefix_of(final(self).log()) && inflate_delta(
                delta(old(self).log(), final(self).log()),
                dest,
                data@,
            ),
            r matches Err(e) ==> e is Spi || e is CoprocTimeout || e is CmdBufferFull,
    {
        let mut buf: Vec<u8> = Vec::new();
        buf.extend_from_slice(data);
        proof {
            assert(buf@ =~= data@);
        }
        pad_buffer4(&mut buf);
        proof {
            lemma_padded4_len(data@);
        }
        let padded = buf;
        let ghost base = self.log();
        match self.cmd_begin() {
            Ok(_) => {},
            Err(e) => {
                return Err(e);
            },
        }
        proof {
            lemma_prefix_refl(base);
            assert(delta(base, base) =~= Seq::<Ev>::empty());
            let raw = choose|raw: u16|
                self.log() == base.push(Ev::Rd16 { addr: REG_CMD_WRITE, val: raw }) && self.ptr()
                    == mask_ptr(raw);
            lemma_stream_push(base, base, Ev::Rd16 { addr: REG_CMD_WRITE, val: raw });
        }
        let ghost c1 = self.log();
        let ghost p1 = self.ptr();
        match self.cmd_word(CMD_INFLATE) {
            Ok(_) => {},
            Err(e) => {
                return Err(e);
            },
        }
        proof {
            lemma_stream_push(base, c1, Ev::Wr32 { addr: (RAM_CMD + p1) as u32, val: CMD_INFLATE });
        }
        let ghost c2 = self.log();
        let ghost p2 = self.ptr();
        match self.cmd_word(dest) {
            Ok(_) => {},
            Err(e) => {
                return Err(e);
            },
        }
        proof {
            lemma_stream_push(base, c2, Ev::Wr32 { addr: (RAM_CMD + p2) as u32, val: dest });
            assert(ring_words_of(delta(base, self.log())) =~= seq![CMD_INFLATE, dest] + words_of(
                padded@.take(0),
            ));
        }
        let mut offset: usize = 0;
        while offset < padded.len()
            invariant
                self.wf(),
                self.dl_off() == old(self).dl_off(),
                base == old(self).log(),
                padded@ == padded4(data@),
                padded@.len() % 4 == 0,
                offset % 4 == 0,
                offset <= padded@.len(),
                base.is_prefix_of(self.log()),
                forall|i: int|
                    0 <= i < delta(base, self.log()).len() ==> stream_ev(
                        #[trigger] delta(base, self.log())[i],
                    ),
                ring_words_of(delta(base, self.log())) == seq![CMD_INFLATE, dest] + words_of(
                    padded@.take(offset as int),
                ),
            decreases padded@.len() - offset,
        {
            let chunk_end = if padded.len() - offset > 2048 {
                offset + 2048
            } else {
                padded.len()
            };
            let needed = chunk_end - offset + 8;
            let ghost cur = self.log();
            match self.wait_cmd_space(needed, 2000) {
                Ok(_) => {},
                Err(e) => {
                    return Err(e);
                },
            }
            proof {
                let d2 = delta(cur, self.log());
                assert forall|i: int| 0 <= i < d2.len() implies stream_ev(#[trigger] d2[i]) by {
                    assert(ring_poll_ev(d2[i]));
                }
                lemma_ring_words_of_polls(d2);
                lemma_prefix_split(cur, self.log());
                lemma_stream_concat(base, cur, d2);
            }
            let mut i: usize = offset;
            while i < chunk_end
                invariant
                    self.wf(),
                    self.dl_off() == old(self).dl_off(),
                    base == old(self).log(),
                    padded@ == padded4(data@),
                    padded@.len() % 4 == 0,
                    offset <= i <= chunk_end <= padded@.len(),
                    i % 4 == 0,
                    chunk_end % 4 == 0,
                    base.is_prefix_of(self.log()),
                    forall|j: int|
                        0 <= j < delta(base, self.log()).len() ==> stream_ev(
                            #[trigger] delta(base, self.log())[j],
                        ),
                    ring_words_of(delta(base, self.log())) == seq![CMD_INFLATE, dest] + words_of(
                        padded@.take(i as int),
                    ),
                decreases chunk_end - i,
            {
                proof {
                    assert(i + 4 <= chunk_end);
                }
                let w = le32_of(padded[i], padded[i + 1], padded[i + 2], padded[i + 3]);
                let ghost cur2 = self.log();
                let ghost pw = self.ptr();
                match self.cmd_word(w) {
                    Ok(_) => {},
                    Err(e) => {
                        return Err(e);
                    },
                }
                i = i + 4;
                proof {
                    let e = Ev::Wr32 { addr: (RAM_CMD + pw) as u32, val: w };
                    assert(is_ring_write(e));
                    lemma_stream_push(base, cur2, e);
                    assert(words_of(padded@.take(i as int)) =~= words_of(
                        padded@.take(i - 4),
                    ).push(w));
                    assert(ring_words_of(delta(base, self.log())) =~= seq![
                        CMD_INFLATE,
                        dest,
                    ] + words_of(padded@.take(i as int)));
                }
            }
            let ghost cur3 = self.log();
            let ghost p3 = self.ptr();
            match self.cmd_end() {
                Ok(_) => {},
                Err(e) => {
                    return Err(e);
                },
            }
            proof {
                lemma_stream_push(base, cur3, Ev::Wr16 { addr: REG_CMD_WRITE, val: p3 });
            }
            let ghost cur4 = self.log();
            self.wait_ms(1);
            proof {
                lemma_stream_push(base, cur4, Ev::Sleep { ms: 1 });
            }
            let ghost cur5 = self.log();
            match self.cmd_begin() {
                Ok(_) => {},
                Err(e) => {
                    return Err(e);
                },
            }
            proof {
                let raw = choose|raw: u16|
                    self.log() == cur5.push(Ev::Rd16 { addr: REG_CMD_WRITE, val: raw })
                        && self.ptr() == mask_ptr(raw);
                lemma_stream_push(base, cur5, Ev::Rd16 { addr: REG_CMD_WRITE, val: raw });
            }
            offset = chunk_end;
        }
        let ghost cur6 = self.log();
        let ghost p6 = self.ptr();
        match self.cmd_end() {
            Ok(_) => {},
            Err(e) => {
                return Err(e);
            },
        }
        proof {
            lemma_stream_push(base, cur6, Ev::Wr16 { addr: REG_CMD_WRITE, val: p6 });
        }
        let ghost cur7 = self.log();
        match self.cmd_wait(5000) {
            Ok(_) => {},
            Err(e) => {
                return Err(e);
            },
        }
        proof {
            let d2 = delta(cur7, self.log());
            assert forall|i: int| 0 <= i < d2.len() implies stream_ev(#[trigger] d2[i]) by {
                assert(ring_poll_ev(d2[i]));
            }
            lemma_ring_words_of_polls(d2);
            lemma_prefix_split(cur7, self.log());
            lemma_stream_concat(base, cur7, d2);
            assert(padded@.take(padded@.len() as int) =~= padded@);
            let v = choose|v: u16| #[trigger] poll_tail(d2, v, v);
            let dd = delta(base, self.log());
            assert(dd[dd.len() - 2] == d2[d2.len() - 2]);
            assert(dd[dd.len() - 1] == d2[d2.len() - 1]);
            assert(ends_synced_at(dd, v));
            assert(inflate_delta(dd, dest, data@));
        }
        Ok(())
    }

    /// Uploads an RGB565 bitmap — through CMD_INFLATE when the payload
    /// looks zlib-compressed, else as a raw bulk write truncated to the
    /// declared size — and draws it full screen from the origin.
    pub fn display_bitmap_rgb565(&mut self, data: &[u8], width: u16, height: u16, dest: u32)
        -> (r: Result<(), PwError>)
        requires
            old(self).wf(),
            width <= 2047,
            height <= 2047,
            dest + (width as nat) * (height as nat) * 2 <= RAM_G_SIZE,
        ensures
            final(self).wf(),
            r matches Ok(v) ==> old(self).log().is_prefix_of(final(self).log())
                && bitmap_show_delta(
                delta(old(self).log(), final(self).log()),
                data@,
                width,
                height,
                dest,
            ),
            r matches Err(e) ==> !(e is ChipNotResponding) && !(e is Gpio),
    {
        proof {
            assert((width as int) * (height as int) * 2 <= 2047 * 2047 * 2) by (nonlinear_arith)
                requires
                    width <= 2047,
                    height <= 2047,
            ;
        }
        let expected: usize = (width as usize) * (height as usize) * 2;
        let stride: u16 = 2 * width;
        let is_compressed = data.len() >= 2 && ((data[0] as u16) * 256 + (data[1] as u16)) % 31
            == 0 && data.len() < expected;
        proof {
            assert(is_compressed == zlib_detect(data@, (width as nat) * (height as nat) * 2));
        }
        let ghost base = self.log();
        if is_compressed {
            match self.cmd_inflate(dest, data) {
                Ok(_) => {},
                Err(e) => {
                    return Err(e);
                },
            }
        } else {
            let to_write: &[u8] = if data.len() > expected {
                slice_subrange(data, 0, expected)
            } else {
                data
            };
            proof {
                assert(to_write@.len() <= (width as nat) * (height as nat) * 2);
            }
            match self.wr_bulk(dest, to_write) {
                Ok(_) => {},
                Err(e) => {
                    return Err(e);
                },
            }
        }
        let ghost mid = self.log();
        let words = build_bitmap_words(dest, width, height, stride);
        match self.cmd_batch(words.as_slice()) {
            Ok(_) => {},
            Err(e) => {
                return Err(e);
            },
        }
        proof {
            let dd = delta(base, self.log());
            let n = delta(base, mid).len() as int;
            lemma_prefix_split(mid, self.log());
            if is_compressed {
                assert(base.is_prefix_of(self.log())) by {
                    assert(base =~= self.log().subrange(0, base.len() as int));
                }
                assert(dd.take(n) =~= delta(base, mid));
                assert(dd.skip(n) =~= delta(mid, self.log()));
                assert(inflate_delta(dd.take(n), dest, data@));
                assert(batch_delta(dd.skip(n), bitmap_words(dest, width, height, stride)));
            } else {
                assert(base.is_prefix_of(self.log())) by {
                    assert(base =~= self.log().subrange(0, base.len() as int));
                }
                assert(dd[0] == (Ev::WrBulk {
                    addr: dest,
                    data: raw_payload(data@, (width as nat) * (height as nat) * 2),
                }));
                assert(dd.skip(1) =~= delta(mid, self.log()));
                assert(batch_delta(dd.skip(1), bitmap_words(dest, width, height, stride)));
            }
        }
        Ok(())
    }

    /// Draws a number with the coprocessor's ROM fonts, centred at the
    /// given or default position.
    pub fn display_number(
        &mut self,
        number: u32,
        x: Option<i16>,
        y: Option<i16>,
        font: i16,
        color: (u8, u8, u8),
    ) -> (r: Result<(), PwError>)
        requires
            old(self).wf(),
        ensures
            final(self).wf(),
            final(self).dl_off() == old(self).dl_off(),
            r matches Ok(v) ==> old(self).log().is_prefix_of(final(self).log()) && batch_delta(
                delta(old(self).log(), final(self).log()),
                number_words(
                    number,
                    if x is Some {
                        x->0
                    } else {
                        (DISPLAY_WIDTH / 2) as i16
                    },
                    if y is Some {
                        y->0
                    } else {
                        (DISPLAY_HEIGHT / 2) as i16
                    },
                    font,
                    OPT_CENTER,
                    color,
                ),
            ),
            r matches Err(e) ==> e is Spi || e is CoprocTimeout,
    {
        let px = match x {
            Some(v) => v,
            None => (DISPLAY_WIDTH / 2) as i16,
        };
        let py = match y {
            Some(v) => v,
            None => (DISPLAY_HEIGHT / 2) as i16,
        };
        let options: u16 = OPT_CENTER;
        let words = build_number_words(number, px, py, font, options, color);
        self.cmd_batch(words.as_slice())
    }

    /// Draws the idle frame: the face art centred, plus the logo bitmap
    /// already uploaded at `logo_addr`, drawn at (`lx`, `ly`).
    pub fn display_idle_with_logo(
        &mut self,
        art: &str,
        font: i16,
        color: (u8, u8, u8),
        logo_addr: u32,
        logo_w: u16,
        logo_h: u16,
        lx: u16,
        ly: u16,
    ) -> (r: Result<(), PwError>)
        requires
            old(self).wf(),
        ensures
            final(self).wf(),
            final(self).dl_off() == old(self).dl_off(),
            r matches Ok(v) ==> old(self).log().is_prefix_of(final(self).log()) && batch_delta(
                delta(old(self).log(), final(self).log()),
                idle_words(art.spec_bytes(), font, color, logo_addr, logo_w, logo_h, lx, ly),
            ),
            r matches Err(e) ==> e is Spi || e is CoprocTimeout,
    {
        let words = build_idle_words(art, font, color, logo_addr, logo_w, logo_h, lx, ly);
        self.cmd_batch(words.as_slice())
    }
}

} // verus!
