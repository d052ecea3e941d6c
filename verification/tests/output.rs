use repose_bevy::compose::{choose_cursor, compose_needed, runtime_requested, FrameSummary};
use repose_bevy::cursor::CursorKind;
use repose_bevy::gating;
use repose_bevy::output::{
    repose_pointer_consumed, repose_scroll_consumed, repose_wants_keyboard, repose_wants_pointer,
    ImePurpose, KeyboardCapitalization, ReposeOutput,
};

fn frame() -> FrameSummary {
    FrameSummary {
        cursor: Some(CursorKind::Pointer),
        ime_allowed: true,
        ime_cursor_area: Some((1.5f64.to_bits(), 2.0f64.to_bits(), 0.0f64.to_bits(), 16.0f64.to_bits())),
        ime_purpose: ImePurpose::Email,
        ime_auto_correct: true,
        ime_capitalization: KeyboardCapitalization::Words,
        clipboard_text: Some("copied".to_string()),
        wants_pointer: true,
        wants_keyboard: false,
    }
}

#[test]
fn default_output_is_quiet() {
    let o = ReposeOutput::default();
    assert_eq!(o.cursor, None);
    assert!(!o.ime_allowed);
    assert_eq!(o.ime_cursor_area, None);
    assert_eq!(o.ime_purpose, ImePurpose::Normal);
    assert_eq!(o.ime_capitalization, KeyboardCapitalization::Unspecified);
    assert_eq!(o.clipboard_text, None);
    assert!(!o.wants_pointer() && !o.wants_keyboard() && !o.any_consumed());
    assert!(!o.needs_redraw);
}

#[test]
fn wants_combine_with_consumed() {
    let mut o = ReposeOutput::default();
    o.pointer_consumed = true;
    assert!(o.wants_pointer());
    assert!(!o.wants_keyboard());
    assert!(o.any_consumed());
    let mut o = ReposeOutput::default();
    o.keyboard_consumed = true;
    assert!(o.wants_keyboard());
    assert!(!o.wants_pointer());
    let mut o = ReposeOutput::default();
    o.scroll_consumed = true;
    assert!(o.any_consumed());
    assert!(!o.wants_pointer() && !o.wants_keyboard());
}

#[test]
fn run_conditions_read_single_flags() {
    let mut o = ReposeOutput::default();
    o.wants_pointer = true;
    o.scroll_consumed = true;
    assert!(repose_wants_pointer(&o));
    assert!(!repose_pointer_consumed(&o));
    assert!(repose_scroll_consumed(&o));
    assert!(!repose_wants_keyboard(&o));
    assert!(gating::wants_pointer(&o));
    assert!(!gating::wants_keyboard(&o));
    assert!(!gating::pointer_consumed(&o));
    assert!(gating::scroll_consumed(&o));
    o.pointer_consumed = true;
    o.wants_keyboard = true;
    assert!(gating::pointer_consumed(&o));
    assert!(gating::wants_keyboard(&o));
}

#[test]
fn compose_needed_by_any_reason() {
    assert!(!compose_needed(false, false, false, false));
    assert!(compose_needed(true, false, false, false));
    assert!(compose_needed(false, true, false, false));
    assert!(compose_needed(false, false, true, false));
    assert!(compose_needed(false, false, false, true));
    assert!(runtime_requested(false, true));
    assert!(runtime_requested(true, false));
    assert!(!runtime_requested(false, false));
}

#[test]
fn frame_cursor_beats_suggestion() {
    assert_eq!(choose_cursor(Some(CursorKind::Text), Some(CursorKind::Grab)), Some(CursorKind::Text));
    assert_eq!(choose_cursor(None, Some(CursorKind::Grab)), Some(CursorKind::Grab));
    assert_eq!(choose_cursor(None, None), None);
}

#[test]
fn applying_a_frame_copies_it_and_requests_redraw() {
    let mut o = ReposeOutput::default();
    o.pointer_consumed = true;
    let changed = o.apply_frame(frame(), false);
    assert!(changed);
    assert_eq!(o.cursor, Some(CursorKind::Pointer));
    assert!(o.ime_allowed);
    assert_eq!(o.ime_cursor_area, frame().ime_cursor_area);
    assert_eq!(o.ime_purpose, ImePurpose::Email);
    assert!(o.ime_auto_correct);
    assert_eq!(o.ime_capitalization, KeyboardCapitalization::Words);
    assert_eq!(o.clipboard_text.as_deref(), Some("copied"));
    assert!(o.wants_pointer && !o.wants_keyboard);
    assert!(o.needs_redraw);
    assert!(o.pointer_consumed, "consumed flags are not the compose pass's");
}

#[test]
fn applying_the_same_frame_twice_reports_no_change() {
    let mut o = ReposeOutput::default();
    assert!(o.apply_frame(frame(), false));
    assert!(!o.apply_frame(frame(), true));
    assert!(o.needs_redraw);
}

#[test]
fn single_field_difference_is_a_change() {
    let mut o = ReposeOutput::default();
    o.apply_frame(frame(), false);
    let mut f = frame();
    f.clipboard_text = Some("other".to_string());
    assert!(o.apply_frame(f, true));
    assert_eq!(o.clipboard_text.as_deref(), Some("other"));
    let mut f = frame();
    f.clipboard_text = Some("other".to_string());
    f.wants_keyboard = true;
    assert!(o.apply_frame(f, true));
    assert!(o.wants_keyboard);
}

#[test]
fn unchanged_area_keeps_the_current_rectangle() {
    let mut o = ReposeOutput::default();
    o.apply_frame(frame(), false);
    let mut f = frame();
    f.ime_cursor_area = Some(((-0.0f64).to_bits(), 2.0f64.to_bits(), 0.0f64.to_bits(), 16.0f64.to_bits()));
    assert!(!o.apply_frame(f, true));
    assert_eq!(o.ime_cursor_area, frame().ime_cursor_area);
}

#[test]
fn idle_frame_drops_pending_redraw_once() {
    let mut o = ReposeOutput::default();
    o.apply_frame(frame(), false);
    assert!(o.settle_idle());
    assert!(!o.needs_redraw);
    assert!(!o.settle_idle());
    assert!(o.apply_frame(frame(), true), "a compose after an idle frame needs a redraw again");
}

#[test]
fn runtime_request_is_taken_once_per_thread() {
    // Each test runs on a fresh thread, which starts with a compose requested
    // and no signal fired.
    assert!(repose_bevy::compose::take_runtime_request());
    assert!(!repose_bevy::compose::take_runtime_request());
}

#[test]
fn runtime_request_takes_both_flags() {
    repose_core::frame_clock::request_frame();
    repose_core::frame_clock::signal_fired();
    assert!(repose_bevy::compose::take_runtime_request());
    assert!(!repose_core::frame_clock::take_frame_request());
    assert!(!repose_core::frame_clock::take_signal_fired());
}

#[test]
fn runtime_request_reports_a_signal_alone() {
    let _ = repose_core::frame_clock::take_frame_request();
    repose_core::frame_clock::signal_fired();
    assert!(repose_bevy::compose::take_runtime_request());
    assert!(!repose_core::frame_clock::take_signal_fired());
    assert!(!repose_bevy::compose::take_runtime_request());
}
