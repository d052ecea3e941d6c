use vstd::prelude::*;

use crate::input::ModifierKeys;
use crate::output::text_view;

verus! {

/// The clipboard traffic between the UI runtime and the host clipboard.
pub struct ClipboardState {
    /// Text the UI asked to be written to the host clipboard.
    pub pending_write: Option<String>,
    /// Text fetched from the host clipboard, waiting for the UI to paste it.
    pub cached_read: Option<String>,
}

/// A clipboard state by its texts: (pending write, cached read).
pub open spec fn clip_view(c: ClipboardState) -> (Option<Seq<char>>, Option<Seq<char>>) {
    (text_view(c.pending_write), text_view(c.cached_read))
}

/// The state after the UI asks for `text` to be copied.
pub open spec fn spec_after_copy(
    s: (Option<Seq<char>>, Option<Seq<char>>),
    text: Seq<char>,
) -> (Option<Seq<char>>, Option<Seq<char>>) {
    (Some(text), s.1)
}

/// What the UI's paste read returns, and the state after it.
pub open spec fn spec_paste_read(
    s: (Option<Seq<char>>, Option<Seq<char>>),
) -> (Option<Seq<char>>, (Option<Seq<char>>, Option<Seq<char>>)) {
    (s.1, (s.0, None))
}

/// The state after host clipboard text was fetched for a paste.
pub open spec fn spec_after_fetch(
    s: (Option<Seq<char>>, Option<Seq<char>>),
    text: Seq<char>,
) -> (Option<Seq<char>>, Option<Seq<char>>) {
    (s.0, Some(text))
}

/// The text to write to the host clipboard this frame, and the state after.
///
/// With a host clipboard, the text the last compose pass reported wins and
/// leaves any pending write in place; otherwise a pending write is taken.
/// Without one, a pending write is discarded.
pub open spec fn spec_outgoing(
    s: (Option<Seq<char>>, Option<Seq<char>>),
    clipboard_available: bool,
    frame_text: Option<Seq<char>>,
) -> (Option<Seq<char>>, (Option<Seq<char>>, Option<Seq<char>>)) {
    if clipboard_available {
        if frame_text is Some {
            (frame_text, s)
        } else {
            (s.0, (None, s.1))
        }
    } else {
        (None, (None, s.1))
    }
}

impl Default for ClipboardState {
    fn default() -> (c: Self)
        ensures
            clip_view(c) == (None::<Seq<char>>, None::<Seq<char>>),
    {
        ClipboardState { pending_write: None, cached_read: None }
    }
}

impl ClipboardState {
    /// The UI copied `text`: it is written to the host clipboard next frame.
    pub fn record_copy(&mut self, text: &str)
        ensures
            clip_view(*final(self)) == spec_after_copy(clip_view(*old(self)), text@),
    {
        self.pending_write = Some(text.to_owned());
    }

    /// The UI reads the clipboard for a paste: it gets the fetched text once.
    pub fn take_paste(&mut self) -> (text: Option<String>)
        ensures
            (text_view(text), clip_view(*final(self))) == spec_paste_read(clip_view(*old(self))),
    {
        self.cached_read.take()
    }

    /// Host clipboard text was fetched for a paste.
    pub fn accept_fetched(&mut self, text: String)
        ensures
            clip_view(*final(self)) == spec_after_fetch(clip_view(*old(self)), text@),
    {
        self.cached_read = Some(text);
    }

    /// Decides the text to write to the host clipboard this frame.
    pub fn outgoing(&mut self, clipboard_available: bool, frame_text: &Option<String>) -> (text: Option<String>)
        ensures
            (text_view(text), clip_view(*final(self)))
                == spec_outgoing(clip_view(*old(self)), clipboard_available, text_view(*frame_text)),
    {
        if clipboard_available {
            match frame_text {
                Some(t) => Some(t.clone()),
                None => self.pending_write.take(),
            }
        } else {
            self.pending_write = None;
            None
        }
    }
}

/// Whether a paste shortcut was pressed this frame: `V` went down while a
/// Control or Super key is held.
pub fn paste_requested(keys: &ModifierKeys, v_just_pressed: bool) -> (r: bool)
    ensures
        r == ((keys.control_left || keys.control_right || keys.super_left || keys.super_right)
            && v_just_pressed),
{
    let chord = keys.control_left || keys.control_right || keys.super_left || keys.super_right;
    chord && v_just_pressed
}

/// A paste gives the UI exactly the fetched text, once.
pub proof fn lemma_paste_reads_fetched_once(s: (Option<Seq<char>>, Option<Seq<char>>), text: Seq<char>)
    ensures
        ({
            let fetched = spec_after_fetch(s, text);
            let (first, after_first) = spec_paste_read(fetched);
            let (second, _) = spec_paste_read(after_first);
            first == Some(text) && second is None
        }),
{
}

/// A copy reaches the host clipboard on the next frame that has one and no
/// text of its own, and is written only once.
pub proof fn lemma_copy_written_once(s: (Option<Seq<char>>, Option<Seq<char>>), text: Seq<char>)
    ensures
        ({
            let copied = spec_after_copy(s, text);
            let (first, after_first) = spec_outgoing(copied, true, None);
            let (second, _) = spec_outgoing(after_first, true, None);
            first == Some(text) && second is None
        }),
{
}

/// The compose pass's own clipboard text goes first and keeps a pending copy
/// for a later frame.
pub proof fn lemma_frame_text_first(s: (Option<Seq<char>>, Option<Seq<char>>), text: Seq<char>)
    ensures
        spec_outgoing(s, true, Some(text)) == (Some(text), s),
{
}

/// Without a host clipboard nothing is written and a pending copy is
/// dropped; the paste cache stays.
pub proof fn lemma_no_clipboard_drops_copy(
    s: (Option<Seq<char>>, Option<Seq<char>>),
    frame_text: Option<Seq<char>>,
)
    ensures
        spec_outgoing(s, false, frame_text) == (None::<Seq<char>>, (None::<Seq<char>>, s.1)),
{
}

} // verus!
