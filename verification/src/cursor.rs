use vstd::prelude::*;

verus! {

/// The cursor shape the UI asks for.
#[derive(Clone, Copy, Debug, PartialEq, Eq, Structural)]
pub enum CursorKind {
    Default,
    Pointer,
    Text,
    EwResize,
    NsResize,
    Grab,
    Grabbing,
}

/// A system cursor icon of the host window.
#[derive(Clone, Copy, Debug, PartialEq, Eq, Structural)]
pub enum SystemCursor {
    Default,
    Pointer,
    Text,
    EwResize,
    NsResize,
    Grab,
    Grabbing,
}

/// The system icon shown for a requested cursor; no request means the
/// default arrow.
pub open spec fn spec_system_cursor(cursor: Option<CursorKind>) -> SystemCursor {
    match cursor {
        None => SystemCursor::Default,
        Some(CursorKind::Default) => SystemCursor::Default,
        Some(CursorKind::Pointer) => SystemCursor::Pointer,
        Some(CursorKind::Text) => SystemCursor::Text,
        Some(CursorKind::EwResize) => SystemCursor::EwResize,
        Some(CursorKind::NsResize) => SystemCursor::NsResize,
        Some(CursorKind::Grab) => SystemCursor::Grab,
        Some(CursorKind::Grabbing) => SystemCursor::Grabbing,
    }
}

/// Maps the requested cursor to the window's system icon.
pub fn system_cursor_for(cursor: Option<CursorKind>) -> (icon: SystemCursor)
    ensures
        icon == spec_system_cursor(cursor),
{
    match cursor {
        None => SystemCursor::Default,
        Some(CursorKind::Default) => SystemCursor::Default,
        Some(CursorKind::Pointer) => SystemCursor::Pointer,
        Some(CursorKind::Text) => SystemCursor::Text,
        Some(CursorKind::EwResize) => SystemCursor::EwResize,
        Some(CursorKind::NsResize) => SystemCursor::NsResize,
        Some(CursorKind::Grab) => SystemCursor::Grab,
        Some(CursorKind::Grabbing) => SystemCursor::Grabbing,
    }
}

/// One step of cursor application: the icon to set on the window (if any)
/// and the remembered last icon afterwards.
pub open spec fn spec_cursor_step(
    last: Option<SystemCursor>,
    output_changed: bool,
    has_window: bool,
    cursor: Option<CursorKind>,
) -> (Option<SystemCursor>, Option<SystemCursor>) {
    let icon = spec_system_cursor(cursor);
    if !output_changed || !has_window || last == Some(icon) {
        (None, last)
    } else {
        (Some(icon), Some(icon))
    }
}

/// Decides whether the window's cursor icon must be set this frame.
///
/// Nothing happens when the UI output did not change or there is no primary
/// window; otherwise the requested cursor's icon is set unless it is the icon
/// set last time. `last` remembers the icon that was set.
pub fn cursor_step(
    last: &mut Option<SystemCursor>,
    output_changed: bool,
    has_window: bool,
    cursor: Option<CursorKind>,
) -> (set_icon: Option<SystemCursor>)
    ensures
        (set_icon, *final(last)) == spec_cursor_step(*old(last), output_changed, has_window, cursor),
{
    if !output_changed || !has_window {
        return None;
    }
    let icon = system_cursor_for(cursor);
    let same = match *last {
        Some(prev) => prev == icon,
        None => false,
    };
    if same {
        return None;
    }
    *last = Some(icon);
    Some(icon)
}

/// Setting a cursor is idempotent: once an icon was set, asking for the same
/// cursor again sets nothing and leaves the remembered icon as it is.
pub proof fn lemma_cursor_step_idempotent(last: Option<SystemCursor>, has_window: bool, cursor: Option<CursorKind>)
    ensures
        ({
            let (_, after) = spec_cursor_step(last, true, has_window, cursor);
            let (second, after2) = spec_cursor_step(after, true, has_window, cursor);
            second is None && after2 == after
        }),
{
}

/// Whenever an icon is set, it is the requested cursor's icon and it becomes
/// the remembered one.
pub proof fn lemma_cursor_step_sets_requested(
    last: Option<SystemCursor>,
    output_changed: bool,
    has_window: bool,
    cursor: Option<CursorKind>,
)
    ensures
        ({
            let (set, after) = spec_cursor_step(last, output_changed, has_window, cursor);
            &&& set is Some ==> set == Some(spec_system_cursor(cursor)) && after == set
            &&& set is None ==> after == last
        }),
{
}

} // verus!
