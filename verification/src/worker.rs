//! The decision core of the background worker that owns the device.
//!
//! The worker runs a 50 ms cycle: drain commands, render a pending face
//! frame, probe for the device every three seconds, render pending text,
//! and fall back to the idle face after ten seconds without text.  All
//! decisions are made here, over plain state; the loop shell around it
//! performs the I/O and feeds results back.

use vstd::prelude::*;
use crate::textproc::{strip_tags, strip_tags_spec, mouth_stage};
use crate::regs::{DISPLAY_WIDTH, DISPLAY_HEIGHT};

verus! {

/// The edge of the logo square in pixels; it is uploaded as L8.
pub const LOGO_SIZE: u16 = 32;

/// Commands sent from the facade to the worker.
pub enum PwCommand {
    /// Replace the displayed text.
    UpdateText(String),
    /// Enable or disable mirroring; disabling tears the driver down.
    SetEnabled(bool),
    /// Change the ROM font index.
    SetFont(i16),
    /// Enable or disable the idle face.
    SetIdleEnabled(bool),
    /// Clear the display.
    Clear,
    /// Tear the driver down and exit the worker.
    Shutdown,
}

/// What the loop shell must do right after a command is handled.
pub enum CommandEffect {
    /// Nothing beyond the state change.
    Nothing,
    /// Shut the driver down and release the handle.
    TearDown,
    /// Clear the display to black.
    ClearScreen,
    /// Shut the driver down, release the handle, and exit the loop.
    Exit,
}

/// A face frame the loop shell must render.
pub enum RenderFace {
    /// No face to render this cycle.
    Skip,
    /// Render the face art of `stage`, with the logo when it is uploaded,
    /// at the bottom-right corner.
    Face { stage: u8, with_logo: bool, lx: u16, ly: u16 },
}

/// The worker's state block.
pub struct WorkerState {
    /// Mirroring enabled by the user.
    pub enabled: bool,
    /// Whether the worker holds an initialised driver.
    pub driver_present: bool,
    /// Whether the USB bridge was seen at the last probe.
    pub device_connected: bool,
    /// Published liveness: a driver is present and initialised.
    pub active: bool,
    /// Whether the logo was uploaded after the last initialisation.
    pub logo_uploaded: bool,
    /// Whether the idle face is enabled.
    pub idle_enabled: bool,
    /// Whether the idle face is currently on screen.
    pub showing_idle: bool,
    /// Whether the wake animation is running.
    pub face_transition: bool,
    /// The face stage currently on screen.
    pub current_face_stage: u8,
    /// Keystrokes seen since leaving idle.
    pub transition_updates: u32,
    /// A face stage waiting to be rendered.
    pub pending_face_stage: Option<u8>,
    /// Text waiting to be rendered.
    pub last_text: String,
    /// When the text last changed, on the worker's clock.
    pub last_text_time_ms: u64,
    /// A settings change awaits the next render.
    pub settings_dirty: bool,
    /// The ROM font index, always within [16, 34].
    pub font: i16,
}

impl WorkerState {
    /// The worker's invariant: the font stays within the ROM font range,
    /// the wake animation counts at most three keystrokes before it
    /// completes, and a pending stage is an intermediate one.
    pub open spec fn wf(&self) -> bool {
        &&& 16 <= self.font <= 34
        &&& self.transition_updates <= 3
        &&& self.current_face_stage <= 3
        &&& (self.pending_face_stage matches Some(s) ==> 1 <= s <= 3)
        &&& (self.active ==> self.driver_present)
    }

    /// A fresh state: disabled, no driver, defaults for font and idle.
    pub fn new_state(now_ms: u64) -> (r: Self)
        ensures
            r.wf(),
            !r.enabled,
            !r.driver_present,
            !r.active,
            r.font == 31,
            r.idle_enabled,
            r.last_text@ == Seq::<char>::empty(),
            r.last_text_time_ms == now_ms,
    {
        WorkerState {
            enabled: false,
            driver_present: false,
            device_connected: false,
            active: false,
            logo_uploaded: false,
            idle_enabled: true,
            showing_idle: false,
            face_transition: false,
            current_face_stage: 0,
            transition_updates: 0,
            pending_face_stage: None,
            last_text: String::new(),
            last_text_time_ms: now_ms,
            settings_dirty: false,
            font: 31,
        }
    }
}

/// Clamps a requested font index to the ROM font range [16, 34].
#[verifier::allow_in_spec]
pub fn clamp_font(font: i16) -> i16
    returns
        (if font < 16 {
            16i16
        } else if font > 34 {
            34i16
        } else {
            font
        }),
{
    if font < 16 {
        16i16
    } else if font > 34 {
        34i16
    } else {
        font
    }
}

/// Handles one command against the worker state and says what the loop
/// shell must do.  Incoming text is stripped of bracketed markup; empty
/// text changes nothing.  Text arriving while the idle face shows, or
/// during the wake animation, advances the mouth one stage per keystroke
/// and is displayed only once the mouth is fully open.
pub fn handle_command(state: &mut WorkerState, cmd: PwCommand, now_ms: u64) -> (eff: CommandEffect)
    requires
        old(state).wf(),
    ensures
        final(state).wf(),
        cmd matches PwCommand::UpdateText(text) ==> ({
            let cleaned = strip_tags_spec(text@, false);
            &&& eff is Nothing
            &&& (cleaned.len() == 0 ==> *final(state) == *old(state))
            &&& (cleaned.len() > 0 ==> final(state).last_text_time_ms == now_ms && !final(state).showing_idle)
            &&& (cleaned.len() > 0 && !(old(state).showing_idle || old(state).face_transition)
                ==> final(state).last_text@ == cleaned && final(state).face_transition == old(state).face_transition)
            &&& (cleaned.len() > 0 && (old(state).showing_idle || old(state).face_transition)
                ==> ({
                let stage = mouth_stage((old(state).transition_updates + 1) as u32);
                if stage >= 4 {
                    &&& !final(state).face_transition
                    &&& final(state).current_face_stage == 0
                    &&& final(state).transition_updates == 0
                    &&& final(state).pending_face_stage is None
                    &&& final(state).last_text@ == cleaned
                } else {
                    &&& final(state).face_transition
                    &&& final(state).transition_updates == old(state).transition_updates + 1
                    &&& (stage != old(state).current_face_stage ==> final(state).pending_face_stage == Some(stage))
                    &&& (stage == old(state).current_face_stage ==> final(state).pending_face_stage == old(state).pending_face_stage)
                    &&& final(state).last_text@ == Seq::<char>::empty()
                }
            }))
        }),
        cmd matches PwCommand::SetEnabled(en) ==> final(state).enabled == en && (!en ==> eff
            is TearDown && !final(state).driver_present && !final(state).active) && (en ==> eff
            is Nothing),
        cmd matches PwCommand::SetFont(f) ==> eff is Nothing && final(state).font == clamp_font(f)
            && final(state).settings_dirty,
        cmd matches PwCommand::SetIdleEnabled(en) ==> final(state).idle_enabled == en && (!en && (
        old(state).showing_idle || old(state).face_transition) ==> eff is ClearScreen && !final(state).showing_idle && !final(state).face_transition) && (en ==> eff is Nothing),
        cmd is Clear ==> eff is ClearScreen && *final(state) == *old(state),
        cmd is Shutdown ==> eff is Exit && !final(state).driver_present && !final(state).active,
{
    match cmd {
        PwCommand::UpdateText(text) => {
            let cleaned = strip_tags(text.as_str());
            if !cleaned.as_str().is_empty() {
                state.last_text_time_ms = now_ms;
                if state.showing_idle || state.face_transition {
                    state.transition_updates = state.transition_updates + 1;
                    let stage = mouth_stage(state.transition_updates);
                    if stage >= 4 {
                        state.face_transition = false;
                        state.showing_idle = false;
                        state.current_face_stage = 0;
                        state.transition_updates = 0;
                        state.pending_face_stage = None;
                        state.last_text = cleaned;
                    } else {
                        state.face_transition = true;
                        state.showing_idle = false;
                        if stage != state.current_face_stage {
                            state.pending_face_stage = Some(stage);
                        }
                        state.last_text = String::new();
                    }
                } else {
                    state.last_text = cleaned;
                    state.showing_idle = false;
                }
            }
            CommandEffect::Nothing
        },
        PwCommand::SetEnabled(en) => {
            state.enabled = en;
            if !en {
                state.driver_present = false;
                state.active = false;
                CommandEffect::TearDown
            } else {
                CommandEffect::Nothing
            }
        },
        PwCommand::SetFont(f) => {
            state.font = clamp_font(f);
            state.settings_dirty = true;
            CommandEffect::Nothing
        },
        PwCommand::SetIdleEnabled(en) => {
            state.idle_enabled = en;
            if !en && (state.showing_idle || state.face_transition) {
                state.showing_idle = false;
                state.face_transition = false;
                state.current_face_stage = 0;
                state.transition_updates = 0;
                state.pending_face_stage = None;
                CommandEffect::ClearScreen
            } else {
                CommandEffect::Nothing
            }
        },
        PwCommand::Clear => CommandEffect::ClearScreen,
        PwCommand::Shutdown => {
            state.driver_present = false;
            state.active = false;
            CommandEffect::Exit
        },
    }
}

/// Takes the pending face stage, if any, and says whether and where to
/// render it.  The logo sits four pixels off the bottom-right corner.
pub fn tick_face(state: &mut WorkerState) -> (r: RenderFace)
    requires
        old(state).wf(),
    ensures
        final(state).wf(),
        old(state).pending_face_stage is None ==> r is Skip && *final(state) == *old(state),
        old(state).pending_face_stage matches Some(stage) ==> final(state).pending_face_stage
            is None && final(state).current_face_stage == stage && (old(state).driver_present
            ==> r == (RenderFace::Face {
            stage,
            with_logo: old(state).logo_uploaded,
            lx: (DISPLAY_WIDTH - LOGO_SIZE - 4) as u16,
            ly: (DISPLAY_HEIGHT - LOGO_SIZE - 4) as u16,
        })) && (!old(state).driver_present ==> r is Skip),
{
    match state.pending_face_stage {
        Some(stage) => {
            state.pending_face_stage = None;
            state.current_face_stage = stage;
            if state.driver_present {
                RenderFace::Face {
                    stage,
                    with_logo: state.logo_uploaded,
                    lx: DISPLAY_WIDTH - LOGO_SIZE - 4,
                    ly: DISPLAY_HEIGHT - LOGO_SIZE - 4,
                }
            } else {
                RenderFace::Skip
            }
        },
        None => RenderFace::Skip,
    }
}

/// Whether the worker may probe for the device this cycle: only when it
/// does not already hold the handle, since probing claims the device.
pub fn should_probe(state: &WorkerState) -> (r: bool)
    ensures
        r == !state.driver_present,
{
    !state.driver_present
}

/// Records the outcome of a probe and says whether to open and
/// initialise the device now.
pub fn on_probe(state: &mut WorkerState, connected: bool) -> (open_now: bool)
    requires
        old(state).wf(),
        !old(state).driver_present,
    ensures
        final(state).wf(),
        final(state).device_connected == connected,
        open_now == (old(state).enabled && connected),
        !final(state).driver_present,
{
    state.device_connected = connected;
    state.enabled && connected
}

/// Records a successful open and initialisation, with whether the logo
/// upload succeeded.
pub fn on_init_ok(state: &mut WorkerState, logo_ok: bool)
    requires
        old(state).wf(),
    ensures
        final(state).wf(),
        final(state).driver_present,
        final(state).active,
        final(state).logo_uploaded == logo_ok,
{
    state.driver_present = true;
    state.active = true;
    state.logo_uploaded = logo_ok;
}

/// Records a failed driver operation: the handle is dropped and the
/// published liveness cleared; the next probe may heal it.
pub fn on_driver_failure(state: &mut WorkerState)
    requires
        old(state).wf(),
    ensures
        final(state).wf(),
        !final(state).driver_present,
        !final(state).active,
{
    state.driver_present = false;
    state.active = false;
}

/// Says what text to render this cycle: the pending text when a driver
/// is present.  A settings change with no pending text is absorbed.
pub fn tick_text(state: &mut WorkerState) -> (r: Option<(String, i16)>)
    requires
        old(state).wf(),
    ensures
        final(state).wf(),
        old(state).driver_present && old(state).last_text@.len() > 0 ==> (r matches Some(p)
            && p.0@ == old(state).last_text@ && p.1 == old(state).font),
        !(old(state).driver_present && old(state).last_text@.len() > 0) ==> r is None,
        final(state).last_text@ == old(state).last_text@,
        final(state).font == old(state).font,
        final(state).driver_present == old(state).driver_present,
{
    if state.driver_present && !state.last_text.as_str().is_empty() {
        Some((state.last_text.clone(), state.font))
    } else {
        if state.settings_dirty {
            state.settings_dirty = false;
        }
        None
    }
}

/// Records the outcome of a text render: on success the text is consumed,
/// on failure the handle is dropped.
pub fn on_text_rendered(state: &mut WorkerState, ok: bool)
    requires
        old(state).wf(),
    ensures
        final(state).wf(),
        ok ==> final(state).last_text@ == Seq::<char>::empty() && !final(state).settings_dirty,
        !ok ==> !final(state).driver_present && !final(state).active,
{
    if ok {
        state.last_text = String::new();
        state.settings_dirty = false;
    } else {
        state.driver_present = false;
        state.active = false;
    }
}

/// Decides whether to fall into the idle face: after ten seconds without
/// text, with the idle face enabled, a driver present and the face not
/// already shown.  Any wake animation in progress is reset.
pub fn tick_idle(state: &mut WorkerState, now_ms: u64) -> (r: RenderFace)
    requires
        old(state).wf(),
    ensures
        final(state).wf(),
        ({
            let due = old(state).idle_enabled && old(state).driver_present && !old(state).showing_idle && now_ms >= old(state).last_text_time_ms && now_ms - old(state).last_text_time_ms >= 10000;
            &&& (due ==> r == (RenderFace::Face {
                stage: 0u8,
                with_logo: old(state).logo_uploaded,
                lx: (DISPLAY_WIDTH - LOGO_SIZE - 4) as u16,
                ly: (DISPLAY_HEIGHT - LOGO_SIZE - 4) as u16,
            }) && !final(state).face_transition && final(state).transition_updates == 0 && final(state).pending_face_stage is None)
            &&& (!due ==> r is Skip && *final(state) == *old(state))
        }),
{
    if state.idle_enabled && state.driver_present && !state.showing_idle && now_ms
        >= state.last_text_time_ms && now_ms - state.last_text_time_ms >= 10000 {
        state.face_transition = false;
        state.current_face_stage = 0;
        state.transition_updates = 0;
        state.pending_face_stage = None;
        RenderFace::Face {
            stage: 0u8,
            with_logo: state.logo_uploaded,
            lx: DISPLAY_WIDTH - LOGO_SIZE - 4,
            ly: DISPLAY_HEIGHT - LOGO_SIZE - 4,
        }
    } else {
        RenderFace::Skip
    }
}

/// Records the outcome of an idle render: on success the face is on
/// screen, on failure the handle is dropped.
pub fn on_idle_rendered(state: &mut WorkerState, ok: bool)
    requires
        old(state).wf(),
    ensures
        final(state).wf(),
        ok ==> final(state).showing_idle,
        !ok ==> !final(state).driver_present && !final(state).active,
{
    if ok {
        state.showing_idle = true;
    } else {
        state.driver_present = false;
        state.active = false;
    }
}

} // verus!
