//! The worker's decision core: markup stripping, font clamping, the wake
//! animation stages, idle fallback and device-loss handling.

use partner_window::{strip_tags, mouth_stage, face_art};
use partner_window::worker::{WorkerState, PwCommand, CommandEffect, RenderFace, clamp_font,
    handle_command, tick_face, tick_text, tick_idle, should_probe, on_probe, on_init_ok,
    on_text_rendered, on_idle_rendered, on_driver_failure};

fn connected_state() -> WorkerState {
    let mut s = WorkerState::new_state(0);
    s.enabled = true;
    on_init_ok(&mut s, true);
    s
}

#[test]
fn strip_tags_removes_bracketed_markup() {
    assert_eq!(strip_tags("hello"), "hello");
    assert_eq!(strip_tags("a<b>c"), "ac");
    assert_eq!(strip_tags("<tag>text</tag>"), "text");
    assert_eq!(strip_tags("<unclosed rest is dropped"), "");
    assert_eq!(strip_tags(""), "");
    assert_eq!(strip_tags("<a><b><c>"), "");
    assert_eq!(strip_tags("x<i>y</i>z"), "xyz");
}

#[test]
fn strip_tags_handles_multibyte_text() {
    assert_eq!(strip_tags("héllo <b>wörld</b>"), "héllo wörld");
    assert_eq!(strip_tags("<é>x"), "x");
}

#[test]
fn mouth_stage_advances_and_saturates() {
    assert_eq!(mouth_stage(0), 0);
    assert_eq!(mouth_stage(1), 1);
    assert_eq!(mouth_stage(2), 2);
    assert_eq!(mouth_stage(3), 3);
    assert_eq!(mouth_stage(4), 4);
    assert_eq!(mouth_stage(100), 4);
}

#[test]
fn face_art_has_five_stages() {
    assert_eq!(face_art(0), "( ^ _ ^ )");
    assert_eq!(face_art(1), "( ^ . ^ )");
    assert_eq!(face_art(2), "( ^ o ^ )");
    assert_eq!(face_art(3), "( ^ O ^ )");
    assert_eq!(face_art(4), "( ^ D ^ )");
}

#[test]
fn font_clamped_to_rom_range() {
    assert_eq!(clamp_font(15), 16);
    assert_eq!(clamp_font(16), 16);
    assert_eq!(clamp_font(31), 31);
    assert_eq!(clamp_font(34), 34);
    assert_eq!(clamp_font(35), 34);
    assert_eq!(clamp_font(-5), 16);
    assert_eq!(clamp_font(1000), 34);

    let mut s = WorkerState::new_state(0);
    let eff = handle_command(&mut s, PwCommand::SetFont(99), 0);
    assert!(matches!(eff, CommandEffect::Nothing));
    assert_eq!(s.font, 34);
    assert!(s.settings_dirty);
    handle_command(&mut s, PwCommand::SetFont(7), 0);
    assert_eq!(s.font, 16);
}

#[test]
fn update_text_stores_cleaned_text() {
    let mut s = connected_state();
    let eff = handle_command(&mut s, PwCommand::UpdateText("he<b>llo".to_string()), 123);
    assert!(matches!(eff, CommandEffect::Nothing));
    assert_eq!(s.last_text, "hello");
    assert_eq!(s.last_text_time_ms, 123);
    // markup-only text changes nothing
    let before_time = s.last_text_time_ms;
    handle_command(&mut s, PwCommand::UpdateText("<only tags>".to_string()), 999);
    assert_eq!(s.last_text_time_ms, before_time);
    assert_eq!(s.last_text, "hello");
}

#[test]
fn wake_transition_advances_stages_then_accepts_text() {
    // Idle is showing; four keystrokes within the window advance the
    // mouth through stages 1, 2 and 3, and the fourth accepts the text.
    let mut s = connected_state();
    s.showing_idle = true;

    handle_command(&mut s, PwCommand::UpdateText("a".to_string()), 10);
    assert!(s.face_transition);
    assert!(!s.showing_idle);
    assert_eq!(s.pending_face_stage, Some(1));
    assert_eq!(s.last_text, "");
    let r = tick_face(&mut s);
    assert!(matches!(r, RenderFace::Face { stage: 1, with_logo: true, lx: 444, ly: 92 }));
    assert_eq!(s.current_face_stage, 1);

    handle_command(&mut s, PwCommand::UpdateText("a".to_string()), 20);
    assert_eq!(s.pending_face_stage, Some(2));
    tick_face(&mut s);

    handle_command(&mut s, PwCommand::UpdateText("a".to_string()), 30);
    assert_eq!(s.pending_face_stage, Some(3));
    tick_face(&mut s);

    handle_command(&mut s, PwCommand::UpdateText("a".to_string()), 40);
    assert!(!s.face_transition);
    assert_eq!(s.pending_face_stage, None);
    assert_eq!(s.transition_updates, 0);
    assert_eq!(s.last_text, "a");

    // the accepted text is rendered normally
    let r = tick_text(&mut s);
    let (text, font) = r.expect("text is due");
    assert_eq!(text, "a");
    assert_eq!(font, 31);
    on_text_rendered(&mut s, true);
    assert_eq!(s.last_text, "");
}

#[test]
fn idle_after_ten_seconds_renders_stage_zero_with_logo() {
    let mut s = connected_state();
    s.last_text_time_ms = 5_000;
    // too early: nothing happens
    let r = tick_idle(&mut s, 14_999);
    assert!(matches!(r, RenderFace::Skip));
    // ten seconds without text: face stage 0 with the logo at (444, 92)
    let r = tick_idle(&mut s, 15_000);
    assert!(matches!(r, RenderFace::Face { stage: 0, with_logo: true, lx: 444, ly: 92 }));
    on_idle_rendered(&mut s, true);
    assert!(s.showing_idle);
    // already showing: no further renders
    let r = tick_idle(&mut s, 30_000);
    assert!(matches!(r, RenderFace::Skip));
}

#[test]
fn idle_disabled_or_no_driver_never_triggers() {
    let mut s = connected_state();
    s.idle_enabled = false;
    s.last_text_time_ms = 0;
    assert!(matches!(tick_idle(&mut s, 60_000), RenderFace::Skip));

    let mut s2 = WorkerState::new_state(0);
    s2.idle_enabled = true;
    assert!(matches!(tick_idle(&mut s2, 60_000), RenderFace::Skip));
}

#[test]
fn device_loss_drops_handle_and_heals_on_probe() {
    let mut s = connected_state();
    s.last_text = "hello".to_string();
    assert!(s.active);
    // a failed render drops the handle and clears the published liveness
    on_text_rendered(&mut s, false);
    assert!(!s.driver_present);
    assert!(!s.active);
    // the pending text survives for the replay after reconnection
    assert_eq!(s.last_text, "hello");
    // probing is allowed again, and an open is requested once the device
    // is back
    assert!(should_probe(&s));
    let open_now = on_probe(&mut s, false);
    assert!(!open_now);
    assert!(!s.device_connected);
    let open_now = on_probe(&mut s, true);
    assert!(open_now);
    on_init_ok(&mut s, true);
    assert!(s.active);
    // the replayed text is rendered on the next cycle
    let r = tick_text(&mut s);
    assert_eq!(r.expect("replay").0, "hello");
}

#[test]
fn never_probe_while_handle_is_open() {
    let s = connected_state();
    assert!(!should_probe(&s));
    let mut s2 = s;
    on_driver_failure(&mut s2);
    assert!(should_probe(&s2));
}

#[test]
fn disable_tears_down_and_clear_requests_clear() {
    let mut s = connected_state();
    let eff = handle_command(&mut s, PwCommand::SetEnabled(false), 0);
    assert!(matches!(eff, CommandEffect::TearDown));
    assert!(!s.driver_present);
    assert!(!s.active);

    let mut s2 = connected_state();
    let eff = handle_command(&mut s2, PwCommand::Clear, 0);
    assert!(matches!(eff, CommandEffect::ClearScreen));

    let eff = handle_command(&mut s2, PwCommand::Shutdown, 0);
    assert!(matches!(eff, CommandEffect::Exit));
    assert!(!s2.driver_present);
}

#[test]
fn disabling_idle_while_showing_clears_screen() {
    let mut s = connected_state();
    s.showing_idle = true;
    let eff = handle_command(&mut s, PwCommand::SetIdleEnabled(false), 0);
    assert!(matches!(eff, CommandEffect::ClearScreen));
    assert!(!s.showing_idle);
    assert!(!s.face_transition);
    // enabling it back is a pure state change
    let eff = handle_command(&mut s, PwCommand::SetIdleEnabled(true), 0);
    assert!(matches!(eff, CommandEffect::Nothing));
    assert!(s.idle_enabled);
}
