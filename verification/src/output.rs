use vstd::prelude::*;

use crate::cursor::CursorKind;

verus! {

/// The purpose of the focused text field, as a hint for the input method.
#[derive(Clone, Copy, Debug, PartialEq, Eq, Structural)]
pub enum ImePurpose {
    Normal,
    Password,
    Email,
    Url,
    Phone,
    Number,
}

/// Automatic capitalization requested by the focused text field.
#[derive(Clone, Copy, Debug, PartialEq, Eq, Structural)]
pub enum KeyboardCapitalization {
    Unspecified,
    /// No automatic capitalization.
    Off,
    Characters,
    Words,
    Sentences,
}

/// What the last compose pass told the host, plus what input handling
/// consumed this frame.
///
/// `ime_cursor_area` holds the bit patterns of the caret rectangle's
/// `(x, y, width, height)` coordinates, each an IEEE-754 double.
#[derive(Clone, Debug)]
pub struct ReposeOutput {
    pub cursor: Option<CursorKind>,
    pub ime_allowed: bool,
    pub ime_cursor_area: Option<(u64, u64, u64, u64)>,
    pub ime_purpose: ImePurpose,
    pub ime_auto_correct: bool,
    pub ime_capitalization: KeyboardCapitalization,
    pub clipboard_text: Option<String>,
    pub wants_pointer: bool,
    pub wants_keyboard: bool,
    pub pointer_consumed: bool,
    pub scroll_consumed: bool,
    pub keyboard_consumed: bool,
    pub needs_redraw: bool,
}

/// An optional text, by its characters.
pub open spec fn text_view(t: Option<String>) -> Option<Seq<char>> {
    match t {
        Some(s) => Some(s@),
        None => None,
    }
}

impl Default for ReposeOutput {
    fn default() -> (o: Self)
        ensures
            o.cursor is None,
            !o.ime_allowed,
            o.ime_cursor_area is None,
            o.ime_purpose == ImePurpose::Normal,
            !o.ime_auto_correct,
            o.ime_capitalization == KeyboardCapitalization::Unspecified,
            o.clipboard_text is None,
            !o.wants_pointer,
            !o.wants_keyboard,
            !o.pointer_consumed,
            !o.scroll_consumed,
            !o.keyboard_consumed,
            !o.needs_redraw,
    {
        ReposeOutput {
            cursor: None,
            ime_allowed: false,
            ime_cursor_area: None,
            ime_purpose: ImePurpose::Normal,
            ime_auto_correct: false,
            ime_capitalization: KeyboardCapitalization::Unspecified,
            clipboard_text: None,
            wants_pointer: false,
            wants_keyboard: false,
            pointer_consumed: false,
            scroll_consumed: false,
            keyboard_consumed: false,
            needs_redraw: false,
        }
    }
}

impl ReposeOutput {
    /// The UI wants the pointer, or consumed a pointer event this frame.
    pub fn wants_pointer(&self) -> (r: bool)
        ensures
            r == (self.wants_pointer || self.pointer_consumed),
    {
        self.wants_pointer || self.pointer_consumed
    }

    /// The UI wants the keyboard, or consumed a key event this frame.
    pub fn wants_keyboard(&self) -> (r: bool)
        ensures
            r == (self.wants_keyboard || self.keyboard_consumed),
    {
        self.wants_keyboard || self.keyboard_consumed
    }

    /// Some pointer, scroll or key event was consumed this frame.
    pub fn any_consumed(&self) -> (r: bool)
        ensures
            r == (self.pointer_consumed || self.scroll_consumed || self.keyboard_consumed),
    {
        self.pointer_consumed || self.scroll_consumed || self.keyboard_consumed
    }
}

/// Run condition: the UI wants the pointer.
pub fn repose_wants_pointer(output: &ReposeOutput) -> (r: bool)
    ensures
        r == output.wants_pointer,
{
    output.wants_pointer
}

/// Run condition: the UI consumed a pointer event this frame.
pub fn repose_pointer_consumed(output: &ReposeOutput) -> (r: bool)
    ensures
        r == output.pointer_consumed,
{
    output.pointer_consumed
}

/// Run condition: the UI consumed a scroll event this frame.
pub fn repose_scroll_consumed(output: &ReposeOutput) -> (r: bool)
    ensures
        r == output.scroll_consumed,
{
    output.scroll_consumed
}

/// Run condition: the UI wants the keyboard.
pub fn repose_wants_keyboard(output: &ReposeOutput) -> (r: bool)
    ensures
        r == output.wants_keyboard,
{
    output.wants_keyboard
}

} // verus!
