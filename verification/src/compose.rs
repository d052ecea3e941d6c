use vstd::prelude::*;

use crate::cursor::CursorKind;
use crate::output::{ImePurpose, KeyboardCapitalization, ReposeOutput, text_view};

verus! {

/// Whether this frame must run a compose pass: a pending forced compose, the
/// compose-every-frame setting, a frame or signal request from the UI
/// runtime, or a frame request from the host.
pub open spec fn spec_compose_needed(
    force_compose: bool,
    compose_every_frame: bool,
    runtime_requested: bool,
    host_requested: bool,
) -> bool {
    force_compose || compose_every_frame || runtime_requested || host_requested
}

/// Decides whether to compose this frame. The requests are taken (and so
/// cleared) by the caller before this decision, whatever it turns out to be.
pub fn compose_needed(
    force_compose: bool,
    compose_every_frame: bool,
    runtime_requested: bool,
    host_requested: bool,
) -> (needed: bool)
    ensures
        needed == spec_compose_needed(force_compose, compose_every_frame, runtime_requested, host_requested),
{
    force_compose || compose_every_frame || runtime_requested || host_requested
}

/// Trusted: `repose_core::frame_clock::take_frame_request` reports whether
/// the UI asked for another compose since the last call on this thread, and
/// clears that thread-local flag. Its result depends on that flag alone, which
/// nothing here models, so nothing is stated of it.
pub assume_specification[ repose_core::frame_clock::take_frame_request ]() -> bool;

/// Trusted: `repose_core::frame_clock::take_signal_fired` reports whether a
/// reactive signal fired since the last call on this thread, and clears that
/// thread-local flag. Nothing is stated of its result, for the same reason.
pub assume_specification[ repose_core::frame_clock::take_signal_fired ]() -> bool;

/// Takes both of the UI runtime's pending-frame flags and reports whether
/// either was set. Both are always taken, so neither is left set for a later
/// frame. The result depends on the runtime's thread-local flags.
pub fn take_runtime_request() -> (requested: bool) {
    let frame_requested = repose_core::frame_clock::take_frame_request();
    let signal_fired = repose_core::frame_clock::take_signal_fired();
    runtime_requested(frame_requested, signal_fired)
}

/// Combines the runtime's frame request and its signal flag. Both flags have
/// been taken by the caller, so neither is left set by a short circuit.
pub fn runtime_requested(frame_requested: bool, signal_fired: bool) -> (r: bool)
    ensures
        r == (frame_requested || signal_fired),
{
    frame_requested || signal_fired
}

/// The cursor to show: the one the frame asked for, else the runtime's
/// suggestion.
pub fn choose_cursor(frame_cursor: Option<CursorKind>, suggestion: Option<CursorKind>) -> (c: Option<CursorKind>)
    ensures
        c == (match frame_cursor {
            Some(k) => Some(k),
            None => suggestion,
        }),
{
    match frame_cursor {
        Some(k) => Some(k),
        None => suggestion,
    }
}

/// What one compose pass reports to the host.
#[derive(Clone, Debug)]
pub struct FrameSummary {
    pub cursor: Option<CursorKind>,
    pub ime_allowed: bool,
    /// Bit patterns of the caret rectangle's `(x, y, width, height)`.
    pub ime_cursor_area: Option<(u64, u64, u64, u64)>,
    pub ime_purpose: ImePurpose,
    pub ime_auto_correct: bool,
    pub ime_capitalization: KeyboardCapitalization,
    pub clipboard_text: Option<String>,
    pub wants_pointer: bool,
    pub wants_keyboard: bool,
}

/// The output after a compose pass: every reported field takes the frame's
/// value, except the caret rectangle, which is replaced only when it differs
/// from the current one; a redraw is needed; the consumed flags stay.
pub open spec fn spec_after_frame(o: ReposeOutput, f: FrameSummary, area_unchanged: bool) -> ReposeOutput {
    ReposeOutput {
        cursor: f.cursor,
        ime_allowed: f.ime_allowed,
        ime_cursor_area: if area_unchanged { o.ime_cursor_area } else { f.ime_cursor_area },
        ime_purpose: f.ime_purpose,
        ime_auto_correct: f.ime_auto_correct,
        ime_capitalization: f.ime_capitalization,
        clipboard_text: f.clipboard_text,
        wants_pointer: f.wants_pointer,
        wants_keyboard: f.wants_keyboard,
        needs_redraw: true,
        ..o
    }
}

/// Whether applying the frame writes to the output at all (so the host's
/// change tracking sees a change).
pub open spec fn spec_frame_changes(o: ReposeOutput, f: FrameSummary, area_unchanged: bool) -> bool {
    ||| o.cursor != f.cursor
    ||| o.ime_allowed != f.ime_allowed
    ||| !area_unchanged
    ||| o.ime_purpose != f.ime_purpose
    ||| o.ime_auto_correct != f.ime_auto_correct
    ||| o.ime_capitalization != f.ime_capitalization
    ||| text_view(o.clipboard_text) != text_view(f.clipboard_text)
    ||| o.wants_pointer != f.wants_pointer
    ||| o.wants_keyboard != f.wants_keyboard
    ||| !o.needs_redraw
}

/// The output after a frame without compose: a pending redraw is dropped.
pub open spec fn spec_after_idle(o: ReposeOutput) -> ReposeOutput {
    ReposeOutput { needs_redraw: false, ..o }
}

fn same_cursor(a: Option<CursorKind>, b: Option<CursorKind>) -> (r: bool)
    ensures
        r == (a == b),
{
    match (a, b) {
        (Some(x), Some(y)) => x == y,
        (None, None) => true,
        _ => false,
    }
}

fn same_text(a: &Option<String>, b: &Option<String>) -> (r: bool)
    ensures
        r == (text_view(*a) == text_view(*b)),
{
    match (a, b) {
        (Some(x), Some(y)) => x.eq(y),
        (None, None) => true,
        _ => false,
    }
}

impl ReposeOutput {
    /// Whether recording `frame` writes to the output at all.
    pub fn frame_changes(&self, frame: &FrameSummary, area_unchanged: bool) -> (changed: bool)
        ensures
            changed == spec_frame_changes(*self, *frame, area_unchanged),
    {
        !same_cursor(self.cursor, frame.cursor)
            || self.ime_allowed != frame.ime_allowed
            || !area_unchanged
            || self.ime_purpose != frame.ime_purpose
            || self.ime_auto_correct != frame.ime_auto_correct
            || self.ime_capitalization != frame.ime_capitalization
            || !same_text(&self.clipboard_text, &frame.clipboard_text)
            || self.wants_pointer != frame.wants_pointer
            || self.wants_keyboard != frame.wants_keyboard
            || !self.needs_redraw
    }

    /// Records a compose pass. The result says whether the output changed
    /// in any field, which is when the host's change tracking must see a
    /// write.
    ///
    /// `area_unchanged` says whether the frame's caret rectangle equals the
    /// current one as floating-point coordinates; the rectangle is replaced
    /// only when it does not.
    pub fn apply_frame(&mut self, frame: FrameSummary, area_unchanged: bool) -> (changed: bool)
        ensures
            *final(self) == spec_after_frame(*old(self), frame, area_unchanged),
            changed == spec_frame_changes(*old(self), frame, area_unchanged),
    {
        let changed = self.frame_changes(&frame, area_unchanged);
        self.cursor = frame.cursor;
        self.ime_allowed = frame.ime_allowed;
        if !area_unchanged {
            self.ime_cursor_area = frame.ime_cursor_area;
        }
        self.ime_purpose = frame.ime_purpose;
        self.ime_auto_correct = frame.ime_auto_correct;
        self.ime_capitalization = frame.ime_capitalization;
        self.clipboard_text = frame.clipboard_text;
        self.wants_pointer = frame.wants_pointer;
        self.wants_keyboard = frame.wants_keyboard;
        self.needs_redraw = true;
        changed
    }

    /// Records a frame without compose: a pending redraw is dropped. The
    /// result says whether anything was written.
    pub fn settle_idle(&mut self) -> (changed: bool)
        ensures
            *final(self) == spec_after_idle(*old(self)),
            changed == old(self).needs_redraw,
    {
        if self.needs_redraw {
            self.needs_redraw = false;
            true
        } else {
            false
        }
    }
}

/// Recording the same frame twice changes nothing the second time: the
/// output already shows it (the caret rectangle then equals the frame's).
pub proof fn lemma_apply_frame_idempotent(o: ReposeOutput, f: FrameSummary, area_unchanged: bool)
    ensures
        ({
            let once = spec_after_frame(o, f, area_unchanged);
            &&& !spec_frame_changes(once, f, true)
            &&& spec_after_frame(once, f, true) == once
        }),
{
}

/// After a compose pass a redraw is pending; after a frame without compose
/// none is, and a second idle frame writes nothing.
pub proof fn lemma_redraw_follows_compose(o: ReposeOutput, f: FrameSummary, area_unchanged: bool)
    ensures
        spec_after_frame(o, f, area_unchanged).needs_redraw,
        !spec_after_idle(o).needs_redraw,
        spec_after_idle(spec_after_idle(o)) == spec_after_idle(o),
{
}

/// A compose pass over an output that already shows the frame and has a
/// redraw pending writes nothing.
pub proof fn lemma_unchanged_frame_writes_nothing(o: ReposeOutput, f: FrameSummary)
    requires
        o.cursor == f.cursor,
        o.ime_allowed == f.ime_allowed,
        o.ime_purpose == f.ime_purpose,
        o.ime_auto_correct == f.ime_auto_correct,
        o.ime_capitalization == f.ime_capitalization,
        text_view(o.clipboard_text) == text_view(f.clipboard_text),
        o.wants_pointer == f.wants_pointer,
        o.wants_keyboard == f.wants_keyboard,
        o.needs_redraw,
    ensures
        !spec_frame_changes(o, f, true),
{
}

/// Any of the reasons to compose is enough on its own, and a frame with no
/// reason at all does not compose; adding a reason never turns a compose off.
pub proof fn lemma_compose_needed_by_any_reason(
    force_compose: bool,
    compose_every_frame: bool,
    runtime_requested: bool,
    host_requested: bool,
)
    ensures
        spec_compose_needed(true, compose_every_frame, runtime_requested, host_requested),
        spec_compose_needed(force_compose, true, runtime_requested, host_requested),
        spec_compose_needed(force_compose, compose_every_frame, true, host_requested),
        spec_compose_needed(force_compose, compose_every_frame, runtime_requested, true),
        !spec_compose_needed(false, false, false, false),
        spec_compose_needed(force_compose, compose_every_frame, runtime_requested, host_requested)
            ==> (force_compose || compose_every_frame || runtime_requested || host_requested),
{
}

/// After a compose pass the output shows the frame: every reported field
/// holds the frame's value (the caret rectangle as soon as it differs), a
/// redraw is pending, and what input handling consumed is kept.
pub proof fn lemma_output_shows_frame(o: ReposeOutput, f: FrameSummary, area_unchanged: bool)
    ensures
        ({
            let after = spec_after_frame(o, f, area_unchanged);
            &&& after.cursor == f.cursor
            &&& after.ime_allowed == f.ime_allowed
            &&& !area_unchanged ==> after.ime_cursor_area == f.ime_cursor_area
            &&& area_unchanged ==> after.ime_cursor_area == o.ime_cursor_area
            &&& after.ime_purpose == f.ime_purpose
            &&& after.ime_auto_correct == f.ime_auto_correct
            &&& after.ime_capitalization == f.ime_capitalization
            &&& text_view(after.clipboard_text) == text_view(f.clipboard_text)
            &&& after.wants_pointer == f.wants_pointer
            &&& after.wants_keyboard == f.wants_keyboard
            &&& after.needs_redraw
            &&& after.pointer_consumed == o.pointer_consumed
            &&& after.scroll_consumed == o.scroll_consumed
            &&& after.keyboard_consumed == o.keyboard_consumed
        }),
{
}

/// Recording a frame reports a change whenever the output after it differs
/// from the output before it in any field, so the host's change tracking sees
/// every new cursor, IME state, clipboard text, interest flag or redraw.
pub proof fn lemma_any_difference_is_a_change(o: ReposeOutput, f: FrameSummary, area_unchanged: bool)
    ensures
        ({
            let after = spec_after_frame(o, f, area_unchanged);
            let changed = spec_frame_changes(o, f, area_unchanged);
            &&& after.cursor != o.cursor ==> changed
            &&& f.cursor != o.cursor ==> changed
            &&& after.ime_allowed != o.ime_allowed ==> changed
            &&& after.ime_cursor_area != o.ime_cursor_area ==> changed
            &&& !area_unchanged ==> changed
            &&& after.ime_purpose != o.ime_purpose ==> changed
            &&& after.ime_auto_correct != o.ime_auto_correct ==> changed
            &&& after.ime_capitalization != o.ime_capitalization ==> changed
            &&& text_view(after.clipboard_text) != text_view(o.clipboard_text) ==> changed
            &&& after.wants_pointer != o.wants_pointer ==> changed
            &&& after.wants_keyboard != o.wants_keyboard ==> changed
            &&& after.needs_redraw != o.needs_redraw ==> changed
        }),
{
}

/// Conversely, a change is reported only when some field differs: the
/// frame's values, a new caret rectangle, or a redraw not yet pending.
pub proof fn lemma_change_only_on_difference(o: ReposeOutput, f: FrameSummary, area_unchanged: bool)
    ensures
        spec_frame_changes(o, f, area_unchanged) ==> {
            ||| f.cursor != o.cursor
            ||| f.ime_allowed != o.ime_allowed
            ||| !area_unchanged
            ||| f.ime_purpose != o.ime_purpose
            ||| f.ime_auto_correct != o.ime_auto_correct
            ||| f.ime_capitalization != o.ime_capitalization
            ||| text_view(f.clipboard_text) != text_view(o.clipboard_text)
            ||| f.wants_pointer != o.wants_pointer
            ||| f.wants_keyboard != o.wants_keyboard
            ||| !o.needs_redraw
        },
{
}

} // verus!
