//! Initialisation and shutdown of the panel.
//!
//! The initialisation sequence is fixed: power on, CPU reset with the ring
//! pointers zeroed, external clock and wake, liveness poll on REG_ID,
//! panel timings in a fixed order, an initial black display list, pixel
//! clock and backlight on, and the rotation handed to the coprocessor.
//! Shutdown is the reverse guard: black screen, backlight off, pixel
//! clock off, and only then the power-down line.

use vstd::prelude::*;
use crate::driver::{PartnerWindow, PwError, Transport};
use crate::events::{Ev, delta, batch_delta, id_poll_tail, lemma_prefix_split};
use crate::ops::clear_events;
use crate::words::{build_rotate_words, rotate_words};
use crate::regs::{REG_CPURESET, REG_CMD_READ, REG_CMD_WRITE, REG_HCYCLE, REG_HOFFSET, REG_HSYNC0,
    REG_HSYNC1, REG_VCYCLE, REG_VOFFSET, REG_VSYNC0, REG_VSYNC1, REG_SWIZZLE, REG_PCLK_POL,
    REG_HSIZE, REG_VSIZE, REG_CSPREAD, REG_DITHER, REG_ROTATE, REG_GPIO_DIR, REG_GPIO, REG_PCLK,
    HOST_CLKEXT, HOST_ACTIVE, HCYCLE, HOFFSET, HSYNC0, HSYNC1, VCYCLE, VOFFSET, VSYNC0, VSYNC1,
    SWIZZLE_VAL, PCLK_POL_VAL, DISPLAY_WIDTH, DISPLAY_HEIGHT, CSPREAD_VAL, DITHER_VAL, ROTATE_VAL,
    PCLK_DIV};

verus! {

/// The transcript of the CPU reset: hold the coprocessor in reset, zero
/// both ring pointers, release the reset, and let it settle.
pub open spec fn cpu_reset_events() -> Seq<Ev> {
    seq![
        Ev::Wr8 { addr: REG_CPURESET, val: 0x01 },
        Ev::Wr16 { addr: REG_CMD_READ, val: 0 },
        Ev::Wr16 { addr: REG_CMD_WRITE, val: 0 },
        Ev::Wr8 { addr: REG_CPURESET, val: 0x00 },
        Ev::Sleep { ms: 20 },
    ]
}

/// The transcript of selecting the external clock and waking the chip.
pub open spec fn clock_wake_events() -> Seq<Ev> {
    seq![
        Ev::HostCmd { cmd: HOST_CLKEXT },
        Ev::HostCmd { cmd: HOST_ACTIVE },
        Ev::Sleep { ms: 300 },
    ]
}

/// The transcript of programming the panel timings, in the fixed order
/// the panel requires.
pub open spec fn timing_events() -> Seq<Ev> {
    seq![
        Ev::Wr16 { addr: REG_HCYCLE, val: HCYCLE },
        Ev::Wr16 { addr: REG_HOFFSET, val: HOFFSET },
        Ev::Wr16 { addr: REG_HSYNC0, val: HSYNC0 },
        Ev::Wr16 { addr: REG_HSYNC1, val: HSYNC1 },
        Ev::Wr16 { addr: REG_VCYCLE, val: VCYCLE },
        Ev::Wr16 { addr: REG_VOFFSET, val: VOFFSET },
        Ev::Wr16 { addr: REG_VSYNC0, val: VSYNC0 },
        Ev::Wr16 { addr: REG_VSYNC1, val: VSYNC1 },
        Ev::Wr16 { addr: REG_SWIZZLE, val: SWIZZLE_VAL },
        Ev::Wr8 { addr: REG_PCLK_POL, val: PCLK_POL_VAL },
        Ev::Wr16 { addr: REG_HSIZE, val: DISPLAY_WIDTH },
        Ev::Wr16 { addr: REG_VSIZE, val: DISPLAY_HEIGHT },
        Ev::Wr8 { addr: REG_CSPREAD, val: CSPREAD_VAL },
        Ev::Wr8 { addr: REG_DITHER, val: DITHER_VAL },
        Ev::Wr8 { addr: REG_ROTATE, val: ROTATE_VAL as u8 },
    ]
}

/// The transcript of enabling the pipeline: read-modify-write bit 7 of
/// the GPIO direction, start the pixel clock, read-modify-write bit 7 of
/// the GPIO value (backlight on).  `d1` and `d2` are what the two reads
/// answered.
pub open spec fn pipeline_events(d1: u8, d2: u8) -> Seq<Ev> {
    seq![
        Ev::Rd8 { addr: REG_GPIO_DIR, val: d1 },
        Ev::Wr8 { addr: REG_GPIO_DIR, val: d1 | 0x80 },
        Ev::Wr8 { addr: REG_PCLK, val: PCLK_DIV },
        Ev::Rd8 { addr: REG_GPIO, val: d2 },
        Ev::Wr8 { addr: REG_GPIO, val: d2 | 0x80 },
    ]
}

/// The transcript of one whole successful initialisation, with the
/// liveness poll `pd` (which ended reading 0x7C), the two GPIO reads, and
/// the rotation batch `bd`.
pub open spec fn init_delta_from(d: Seq<Ev>, pd: Seq<Ev>, d1: u8, d2: u8, bd: Seq<Ev>) -> bool {
    &&& d == seq![Ev::PdHigh, Ev::Sleep { ms: 50 }] + cpu_reset_events() + clock_wake_events()
        + pd + timing_events() + clear_events(0, 0, 0) + pipeline_events(d1, d2) + bd
    &&& id_poll_tail(pd, 0x7C)
    &&& batch_delta(bd, rotate_words())
}

/// `d` is the transcript of one whole successful initialisation.
pub open spec fn init_delta(d: Seq<Ev>) -> bool {
    exists|pd: Seq<Ev>, d1: u8, d2: u8, bd: Seq<Ev>| #[trigger] init_delta_from(d, pd, d1, d2, bd)
}

/// The transcript of one successful shutdown, where the GPIO read
/// answered `g`: black screen, a pause, backlight bit cleared, pixel
/// clock stopped, and only then the power-down line dropped.
pub open spec fn shutdown_delta_from(d: Seq<Ev>, g: u8) -> bool {
    d == clear_events(0, 0, 0) + seq![
        Ev::Sleep { ms: 50 },
        Ev::Rd8 { addr: REG_GPIO, val: g },
        Ev::Wr8 { addr: REG_GPIO, val: g & 0x7F },
        Ev::Wr8 { addr: REG_PCLK, val: 0 },
        Ev::PdLow,
        Ev::Sleep { ms: 20 },
    ]
}

/// `d` is the transcript of one successful shutdown.
pub open spec fn shutdown_delta(d: Seq<Ev>) -> bool {
    exists|g: u8| #[trigger] shutdown_delta_from(d, g)
}

impl<T: Transport> PartnerWindow<T> {
    /// Runs the full initialisation sequence.  On success the transcript
    /// is exactly one initialisation, whose liveness poll read 0x7C.
    /// When REG_ID answers anything else within the deadline the result
    /// is `ChipNotResponding` with the value last read.
    #[verifier::rlimit(60)]
    pub fn init(&mut self) -> (r: Result<(), PwError>)
        requires
            old(self).wf(),
        ensures
            final(self).wf(),
            r matches Ok(v) ==> old(self).log().is_prefix_of(final(self).log()) && init_delta(
                delta(old(self).log(), final(self).log()),
            ),
            r matches Err(e) ==> !(e is CmdBufferFull),
            r matches Err(PwError::ChipNotResponding(id)) ==> id != 0x7C,
    {
        let ghost base = self.log();
        match self.power_on() {
            Ok(_) => {},
            Err(e) => {
                return Err(e);
            },
        }
        self.wr8(REG_CPURESET, 0x01)?;
        self.wr16(REG_CMD_READ, 0x0000)?;
        self.wr16(REG_CMD_WRITE, 0x0000)?;
        self.wr8(REG_CPURESET, 0x00)?;
        self.wait_ms(20);
        self.host_cmd(HOST_CLKEXT)?;
        self.host_cmd(HOST_ACTIVE)?;
        self.wait_ms(300);
        let ghost l_wake = self.log();
        proof {
            assert(l_wake =~= base + seq![Ev::PdHigh, Ev::Sleep { ms: 50 }] + cpu_reset_events()
                + clock_wake_events());
        }
        let chip_id = self.poll_reg_id(2000)?;
        if chip_id != 0x7C {
            return Err(PwError::ChipNotResponding(chip_id));
        }
        let ghost pd = delta(l_wake, self.log());
        proof {
            lemma_prefix_split(l_wake, self.log());
        }
        self.wr16(REG_HCYCLE, HCYCLE)?;
        self.wr16(REG_HOFFSET, HOFFSET)?;
        self.wr16(REG_HSYNC0, HSYNC0)?;
        self.wr16(REG_HSYNC1, HSYNC1)?;
        self.wr16(REG_VCYCLE, VCYCLE)?;
        self.wr16(REG_VOFFSET, VOFFSET)?;
        self.wr16(REG_VSYNC0, VSYNC0)?;
        self.wr16(REG_VSYNC1, VSYNC1)?;
        self.wr16(REG_SWIZZLE, SWIZZLE_VAL)?;
        self.wr8(REG_PCLK_POL, PCLK_POL_VAL)?;
        self.wr16(REG_HSIZE, DISPLAY_WIDTH)?;
        self.wr16(REG_VSIZE, DISPLAY_HEIGHT)?;
        self.wr8(REG_CSPREAD, CSPREAD_VAL)?;
        self.wr8(REG_DITHER, DITHER_VAL)?;
        self.wr8(REG_ROTATE, ROTATE_VAL as u8)?;
        let ghost l_timing = self.log();
        proof {
            assert(l_timing =~= l_wake + pd + timing_events());
        }
        match self.clear_screen(0, 0, 0) {
            Ok(_) => {},
            Err(e) => {
                return Err(e);
            },
        }
        let ghost l_dl = self.log();
        proof {
            lemma_prefix_split(l_timing, self.log());
            assert(l_dl =~= l_timing + clear_events(0, 0, 0));
        }
        let gpio_dir = self.rd8(REG_GPIO_DIR)?;
        self.wr8(REG_GPIO_DIR, gpio_dir | 0x80)?;
        self.wr8(REG_PCLK, PCLK_DIV)?;
        let gpio_val = self.rd8(REG_GPIO)?;
        self.wr8(REG_GPIO, gpio_val | 0x80)?;
        let ghost l_pipe = self.log();
        proof {
            assert(l_pipe =~= l_dl + pipeline_events(gpio_dir, gpio_val));
        }
        let words = build_rotate_words();
        match self.cmd_batch(words.as_slice()) {
            Ok(_) => {},
            Err(e) => {
                return Err(e);
            },
        }
        proof {
            let bd = delta(l_pipe, self.log());
            lemma_prefix_split(l_pipe, self.log());
            assert(base =~= self.log().subrange(0, base.len() as int));
            assert(delta(base, self.log()) =~= seq![Ev::PdHigh, Ev::Sleep { ms: 50 }]
                + cpu_reset_events() + clock_wake_events() + pd + timing_events() + clear_events(
                0,
                0,
                0,
            ) + pipeline_events(gpio_dir, gpio_val) + bd);
            assert(init_delta_from(delta(base, self.log()), pd, gpio_dir, gpio_val, bd));
        }
        Ok(())
    }

    /// Shuts the panel down cleanly: black screen, backlight off, pixel
    /// clock off, and only then the power-down line.
    pub fn shutdown(&mut self) -> (r: Result<(), PwError>)
        requires
            old(self).wf(),
        ensures
            final(self).wf(),
            r matches Ok(v) ==> old(self).log().is_prefix_of(final(self).log())
                && shutdown_delta(delta(old(self).log(), final(self).log())),
            r matches Err(e) ==> e is Spi || e is Gpio,
    {
        let ghost base = self.log();
        match self.clear_screen(0, 0, 0) {
            Ok(_) => {},
            Err(e) => {
                return Err(e);
            },
        }
        self.wait_ms(50);
        let gpio_val = self.rd8(REG_GPIO)?;
        self.wr8(REG_GPIO, gpio_val & 0x7F)?;
        self.wr8(REG_PCLK, 0)?;
        match self.power_off() {
            Ok(_) => {},
            Err(e) => {
                return Err(e);
            },
        }
        proof {
            assert(base =~= self.log().subrange(0, base.len() as int));
            assert(delta(base, self.log()) =~= clear_events(0, 0, 0) + seq![
                Ev::Sleep { ms: 50 },
                Ev::Rd8 { addr: REG_GPIO, val: gpio_val },
                Ev::Wr8 { addr: REG_GPIO, val: gpio_val & 0x7F },
                Ev::Wr8 { addr: REG_PCLK, val: 0 },
                Ev::PdLow,
                Ev::Sleep { ms: 20 },
            ]);
            assert(shutdown_delta_from(delta(base, self.log()), gpio_val));
        }
        Ok(())
    }
}

} // verus!
