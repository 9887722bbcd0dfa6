//! The diagnostic routines behind the command-line tool: a colour cycle,
//! text in several fonts, geometry, the colour-bar pattern and a scrolling
//! animation.  Each routine's contract states the transcript it produces.

use vstd::prelude::*;
use vstd::string::StringSliceAdditionalSpecFns;
use crate::driver::{PartnerWindow, PwError, Transport};
use crate::events::{Ev, delta, batch_delta, lemma_prefix_split};
use crate::ops::{clear_events, bitmap_show_delta};
use crate::words::{text_words, geometry_words, build_geometry_words};
use crate::pattern::{pattern_pixels, pattern_bytes, compress_zlib, zlib_of};
use crate::regs::{RAM_G, DISPLAY_WIDTH, DISPLAY_HEIGHT, OPT_CENTER};

verus! {

/// The transcript of the colour cycle: eight solid colours, each held for
/// a second.
pub open spec fn color_cycle_events() -> Seq<Ev> {
    clear_events(255, 0, 0) + seq![Ev::Sleep { ms: 1000 }] + clear_events(0, 255, 0) + seq![
        Ev::Sleep { ms: 1000 },
    ] + clear_events(0, 0, 255) + seq![Ev::Sleep { ms: 1000 }] + clear_events(255, 255, 255)
        + seq![Ev::Sleep { ms: 1000 }] + clear_events(255, 255, 0) + seq![Ev::Sleep { ms: 1000 }]
        + clear_events(255, 0, 255) + seq![Ev::Sleep { ms: 1000 }] + clear_events(0, 255, 255)
        + seq![Ev::Sleep { ms: 1000 }] + clear_events(0, 0, 0) + seq![Ev::Sleep { ms: 1000 }]
}

/// Cycles the panel through eight solid colours.
#[verifier::rlimit(60)]
pub fn test_clear_colors<T: Transport>(pw: &mut PartnerWindow<T>) -> (r: Result<(), PwError>)
    requires
        old(pw).wf(),
    ensures
        final(pw).wf(),
        r matches Ok(v) ==> old(pw).log().is_prefix_of(final(pw).log()) && delta(
            old(pw).log(),
            final(pw).log(),
        ) == color_cycle_events(),
        r matches Err(e) ==> e is Spi,
{
    let ghost base = pw.log();
    let ghost g0 = pw.log();
    match pw.clear_screen(255, 0, 0) {
        Ok(_) => {},
        Err(e) => {
            return Err(e);
        },
    }
    proof {
        lemma_prefix_split(g0, pw.log());
        assert(pw.log() =~= g0 + clear_events(255, 0, 0));
    }
    pw.wait_ms(1000);
    let ghost g1 = pw.log();
    match pw.clear_screen(0, 255, 0) {
        Ok(_) => {},
        Err(e) => {
            return Err(e);
        },
    }
    proof {
        lemma_prefix_split(g1, pw.log());
        assert(pw.log() =~= g1 + clear_events(0, 255, 0));
    }
    pw.wait_ms(1000);
    let ghost g2 = pw.log();
    match pw.clear_screen(0, 0, 255) {
        Ok(_) => {},
        Err(e) => {
            return Err(e);
        },
    }
    proof {
        lemma_prefix_split(g2, pw.log());
        assert(pw.log() =~= g2 + clear_events(0, 0, 255));
    }
    pw.wait_ms(1000);
    let ghost g3 = pw.log();
    match pw.clear_screen(255, 255, 255) {
        Ok(_) => {},
        Err(e) => {
            return Err(e);
        },
    }
    proof {
        lemma_prefix_split(g3, pw.log());
        assert(pw.log() =~= g3 + clear_events(255, 255, 255));
    }
    pw.wait_ms(1000);
    let ghost g4 = pw.log();
    match pw.clear_screen(255, 255, 0) {
        Ok(_) => {},
        Err(e) => {
            return Err(e);
        },
    }
    proof {
        lemma_prefix_split(g4, pw.log());
        assert(pw.log() =~= g4 + clear_events(255, 255, 0));
    }
    pw.wait_ms(1000);
    let ghost g5 = pw.log();
    match pw.clear_screen(255, 0, 255) {
        Ok(_) => {},
        Err(e) => {
            return Err(e);
        },
    }
    proof {
        lemma_prefix_split(g5, pw.log());
        assert(pw.log() =~= g5 + clear_events(255, 0, 255));
    }
    pw.wait_ms(1000);
    let ghost g6 = pw.log();
    match pw.clear_screen(0, 255, 255) {
        Ok(_) => {},
        Err(e) => {
            return Err(e);
        },
    }
    proof {
        lemma_prefix_split(g6, pw.log());
        assert(pw.log() =~= g6 + clear_events(0, 255, 255));
    }
    pw.wait_ms(1000);
    let ghost g7 = pw.log();
    match pw.clear_screen(0, 0, 0) {
        Ok(_) => {},
        Err(e) => {
            return Err(e);
        },
    }
    proof {
        lemma_prefix_split(g7, pw.log());
        assert(pw.log() =~= g7 + clear_events(0, 0, 0));
    }
    pw.wait_ms(1000);
    proof {
        assert(base =~= pw.log().subrange(0, base.len() as int));
        assert(delta(base, pw.log()) =~= color_cycle_events());
    }
    Ok(())
}

/// The transcript of the text demonstration: the caller's message, then
/// three fixed samples in fonts 28, 30 and 31, each held on screen.
pub open spec fn test_text_delta_from(
    d: Seq<Ev>,
    b1: Seq<Ev>,
    b2: Seq<Ev>,
    b3: Seq<Ev>,
    b4: Seq<Ev>,
    msg: Seq<u8>,
) -> bool {
    &&& d == b1 + seq![Ev::Sleep { ms: 2000 }] + b2 + seq![Ev::Sleep { ms: 1500 }] + b3 + seq![
        Ev::Sleep { ms: 1500 },
    ] + b4 + seq![Ev::Sleep { ms: 1500 }]
    &&& batch_delta(b1, text_words(msg, 240, 64, 31, OPT_CENTER, (255, 255, 255)))
    &&& batch_delta(
        b2,
        text_words(
            ("Font 28: Small text").spec_bytes(),
            240,
            64,
            28,
            OPT_CENTER,
            (200, 200, 200),
        ),
    )
    &&& batch_delta(
        b3,
        text_words(("Font 30: Green text").spec_bytes(), 240, 64, 30, OPT_CENTER, (0, 255, 128)),
    )
    &&& batch_delta(
        b4,
        text_words(("Font 31: Yellow!").spec_bytes(), 240, 64, 31, OPT_CENTER, (255, 200, 0)),
    )
}

pub open spec fn test_text_delta(d: Seq<Ev>, msg: Seq<u8>) -> bool {
    exists|b1: Seq<Ev>, b2: Seq<Ev>, b3: Seq<Ev>, b4: Seq<Ev>|
        #[trigger] test_text_delta_from(d, b1, b2, b3, b4, msg)
}

/// Shows the message, then three font samples.
#[verifier::rlimit(60)]
pub fn test_text<T: Transport>(pw: &mut PartnerWindow<T>, message: &str) -> (r: Result<
    (),
    PwError,
>)
    requires
        old(pw).wf(),
    ensures
        final(pw).wf(),
        r matches Ok(v) ==> old(pw).log().is_prefix_of(final(pw).log()) && test_text_delta(
            delta(old(pw).log(), final(pw).log()),
            message.spec_bytes(),
        ),
        r matches Err(e) ==> e is Spi || e is CoprocTimeout,
{
    let ghost base = pw.log();
    match pw.display_text(message, None, None, 31, (255, 255, 255)) {
        Ok(_) => {},
        Err(e) => {
            return Err(e);
        },
    }
    let ghost l1 = pw.log();
    pw.wait_ms(2000);
    match pw.display_text("Font 28: Small text", None, None, 28, (200, 200, 200)) {
        Ok(_) => {},
        Err(e) => {
            return Err(e);
        },
    }
    let ghost l2 = pw.log();
    pw.wait_ms(1500);
    match pw.display_text("Font 30: Green text", None, None, 30, (0, 255, 128)) {
        Ok(_) => {},
        Err(e) => {
            return Err(e);
        },
    }
    let ghost l3 = pw.log();
    pw.wait_ms(1500);
    match pw.display_text("Font 31: Yellow!", None, None, 31, (255, 200, 0)) {
        Ok(_) => {},
        Err(e) => {
            return Err(e);
        },
    }
    let ghost l4 = pw.log();
    pw.wait_ms(1500);
    proof {
        let b1 = delta(base, l1);
        let b2 = delta(l1.push(Ev::Sleep { ms: 2000 }), l2);
        let b3 = delta(l2.push(Ev::Sleep { ms: 1500 }), l3);
        let b4 = delta(l3.push(Ev::Sleep { ms: 1500 }), l4);
        lemma_prefix_split(base, l1);
        lemma_prefix_split(l1.push(Ev::Sleep { ms: 2000 }), l2);
        lemma_prefix_split(l2.push(Ev::Sleep { ms: 1500 }), l3);
        lemma_prefix_split(l3.push(Ev::Sleep { ms: 1500 }), l4);
        assert(base =~= pw.log().subrange(0, base.len() as int));
        assert(delta(base, pw.log()) =~= b1 + seq![Ev::Sleep { ms: 2000 }] + b2 + seq![
            Ev::Sleep { ms: 1500 },
        ] + b3 + seq![Ev::Sleep { ms: 1500 }] + b4 + seq![Ev::Sleep { ms: 1500 }]);
        assert(test_text_delta_from(delta(base, pw.log()), b1, b2, b3, b4, message.spec_bytes()));
    }
    Ok(())
}

/// Draws the geometry demonstration and holds it for three seconds.
pub fn test_geometry<T: Transport>(pw: &mut PartnerWindow<T>) -> (r: Result<(), PwError>)
    requires
        old(pw).wf(),
    ensures
        final(pw).wf(),
        r matches Ok(v) ==> old(pw).log().is_prefix_of(final(pw).log()) && exists|b: Seq<Ev>|
            delta(old(pw).log(), final(pw).log()) == b + seq![Ev::Sleep { ms: 3000 }]
                && #[trigger] batch_delta(b, geometry_words()),
        r matches Err(e) ==> e is Spi || e is CoprocTimeout,
{
    let ghost base = pw.log();
    let words = build_geometry_words();
    match pw.cmd_batch(words.as_slice()) {
        Ok(_) => {},
        Err(e) => {
            return Err(e);
        },
    }
    let ghost l1 = pw.log();
    pw.wait_ms(3000);
    proof {
        lemma_prefix_split(base, l1);
        assert(base =~= pw.log().subrange(0, base.len() as int));
        assert(delta(base, pw.log()) =~= delta(base, l1) + seq![Ev::Sleep { ms: 3000 }]);
    }
    Ok(())
}

/// Builds the colour-bar pattern, compresses it, uploads it through
/// CMD_INFLATE and holds it on screen for three seconds.
pub fn test_pattern<T: Transport>(pw: &mut PartnerWindow<T>) -> (r: Result<(), PwError>)
    requires
        old(pw).wf(),
    ensures
        final(pw).wf(),
        r matches Ok(v) ==> old(pw).log().is_prefix_of(final(pw).log()) && exists|b: Seq<Ev>|
            delta(old(pw).log(), final(pw).log()) == b + seq![Ev::Sleep { ms: 3000 }]
                && #[trigger] bitmap_show_delta(
                b,
                zlib_of(pattern_bytes(), 9),
                DISPLAY_WIDTH,
                DISPLAY_HEIGHT,
                RAM_G,
            ),
        r matches Err(e) ==> !(e is ChipNotResponding) && !(e is Gpio),
{
    let ghost base = pw.log();
    let data = pattern_pixels();
    let compressed = compress_zlib(data.as_slice(), 9);
    match pw.display_bitmap_rgb565(compressed.as_slice(), DISPLAY_WIDTH, DISPLAY_HEIGHT, RAM_G) {
        Ok(_) => {},
        Err(e) => {
            return Err(e);
        },
    }
    let ghost l1 = pw.log();
    pw.wait_ms(3000);
    proof {
        lemma_prefix_split(base, l1);
        assert(base =~= pw.log().subrange(0, base.len() as int));
        assert(delta(base, pw.log()) =~= delta(base, l1) + seq![Ev::Sleep { ms: 3000 }]);
    }
    Ok(())
}

/// The transcript of the scrolling animation from column `x` down to
/// `end_x` in steps of four: one text batch and a short pause per step.
pub open spec fn animation_delta(d: Seq<Ev>, msg: Seq<u8>, x: int, end_x: int) -> bool
    decreases x - end_x + 4,
{
    if x <= end_x {
        d == Seq::<Ev>::empty()
    } else {
        exists|b: Seq<Ev>, rest: Seq<Ev>|
            #![auto]
            {
                &&& d == b + seq![Ev::Sleep { ms: 30 }] + rest
                &&& batch_delta(b, text_words(msg, #[verifier::truncate] (x as i16), 64, 31, 0, (255, 255, 255)))
                &&& animation_delta(rest, msg, x - 4, end_x)
            }
    }
}

/// Renders the message at `x`, pauses, and recurses four columns to the
/// left until reaching `end_x`.
pub fn animate_from<T: Transport>(
    pw: &mut PartnerWindow<T>,
    message: &str,
    x: i16,
    end_x: i16,
) -> (r: Result<(), PwError>)
    requires
        old(pw).wf(),
        end_x >= -32000,
    ensures
        final(pw).wf(),
        r matches Ok(v) ==> old(pw).log().is_prefix_of(final(pw).log()) && animation_delta(
            delta(old(pw).log(), final(pw).log()),
            message.spec_bytes(),
            x as int,
            end_x as int,
        ),
        r matches Err(e) ==> e is Spi || e is CoprocTimeout,
    decreases x - end_x + 4,
{
    let ghost base = pw.log();
    if x <= end_x {
        proof {
            assert(delta(base, base) =~= Seq::<Ev>::empty());
            assert(base =~= base.subrange(0, base.len() as int));
        }
        return Ok(());
    }
    match pw.display_text(message, Some(x), Some(64), 31, (255, 255, 255)) {
        Ok(_) => {},
        Err(e) => {
            return Err(e);
        },
    }
    let ghost l1 = pw.log();
    pw.wait_ms(30);
    let ghost l2 = pw.log();
    match animate_from(pw, message, x - 4, end_x) {
        Ok(_) => {},
        Err(e) => {
            return Err(e);
        },
    }
    proof {
        let b = delta(base, l1);
        let rest = delta(l2, pw.log());
        lemma_prefix_split(base, l1);
        lemma_prefix_split(l2, pw.log());
        assert(base =~= pw.log().subrange(0, base.len() as int));
        assert(delta(base, pw.log()) =~= b + seq![Ev::Sleep { ms: 30 }] + rest);
    }
    Ok(())
}

/// Scrolls the message across the panel from the right edge.
pub fn test_animation<T: Transport>(pw: &mut PartnerWindow<T>, message: &str) -> (r: Result<
    (),
    PwError,
>)
    requires
        old(pw).wf(),
        message@.len() <= 100,
    ensures
        final(pw).wf(),
        r matches Ok(v) ==> old(pw).log().is_prefix_of(final(pw).log()),
        r matches Err(e) ==> e is Spi || e is CoprocTimeout,
{
    let len = message.unicode_len();
    let end_x: i16 = 0 - (len as i16) * 20;
    animate_from(pw, message, DISPLAY_WIDTH as i16, end_x)
}

/// Runs every demonstration in order.
pub fn run_all_tests<T: Transport>(pw: &mut PartnerWindow<T>) -> (r: Result<(), PwError>)
    requires
        old(pw).wf(),
    ensures
        final(pw).wf(),
        r matches Err(e) ==> !(e is ChipNotResponding) && !(e is Gpio),
{
    match test_clear_colors(pw) {
        Ok(_) => {},
        Err(e) => {
            return Err(e);
        },
    }
    match test_text(pw, "Hello from the host!") {
        Ok(_) => {},
        Err(e) => {
            return Err(e);
        },
    }
    match test_geometry(pw) {
        Ok(_) => {},
        Err(e) => {
            return Err(e);
        },
    }
    match test_pattern(pw) {
        Ok(_) => {},
        Err(e) => {
            return Err(e);
        },
    }
    proof {
        reveal_strlit("Partner Window");
    }
    test_animation(pw, "Partner Window")
}

} // verus!
