use vstd::prelude::*;

verus! {

/// Which modifier keys are held, each side separately.
#[derive(Clone, Copy, Debug, PartialEq, Eq, Structural)]
pub struct ModifierKeys {
    pub shift_left: bool,
    pub shift_right: bool,
    pub control_left: bool,
    pub control_right: bool,
    pub alt_left: bool,
    pub alt_right: bool,
    pub super_left: bool,
    pub super_right: bool,
}

/// Modifier state as the UI runtime sees it.
#[derive(Clone, Copy, Debug, PartialEq, Eq, Structural)]
pub struct Modifiers {
    pub shift: bool,
    pub ctrl: bool,
    pub alt: bool,
    pub meta: bool,
    /// The platform's shortcut modifier: Cmd on macOS, Ctrl elsewhere.
    pub command: bool,
}

pub open spec fn spec_modifiers(keys: ModifierKeys, is_macos: bool) -> Modifiers {
    let meta = keys.super_left || keys.super_right;
    let ctrl = keys.control_left || keys.control_right;
    Modifiers {
        shift: keys.shift_left || keys.shift_right,
        ctrl,
        alt: keys.alt_left || keys.alt_right,
        meta,
        command: if is_macos { meta } else { ctrl },
    }
}

/// Folds left/right modifier keys into the runtime's modifier state.
pub fn modifiers_from_keys(keys: &ModifierKeys, is_macos: bool) -> (m: Modifiers)
    ensures
        m == spec_modifiers(*keys, is_macos),
{
    let shift = keys.shift_left || keys.shift_right;
    let ctrl = keys.control_left || keys.control_right;
    let alt = keys.alt_left || keys.alt_right;
    let meta = keys.super_left || keys.super_right;
    let command = if is_macos { meta } else { ctrl };
    Modifiers { shift, ctrl, alt, meta, command }
}

/// The same held keys with left and right swapped.
pub open spec fn mirrored(keys: ModifierKeys) -> ModifierKeys {
    ModifierKeys {
        shift_left: keys.shift_right,
        shift_right: keys.shift_left,
        control_left: keys.control_right,
        control_right: keys.control_left,
        alt_left: keys.alt_right,
        alt_right: keys.alt_left,
        super_left: keys.super_right,
        super_right: keys.super_left,
    }
}

/// Each modifier is held exactly when its left or its right key is held,
/// either side alone being enough; the command modifier is Meta on macOS and
/// Ctrl elsewhere; and the two sides are interchangeable.
pub proof fn lemma_modifiers_fold_sides(keys: ModifierKeys, is_macos: bool)
    ensures
        ({
            let m = spec_modifiers(keys, is_macos);
            &&& keys.shift_left ==> m.shift
            &&& keys.shift_right ==> m.shift
            &&& keys.control_left ==> m.ctrl
            &&& keys.control_right ==> m.ctrl
            &&& keys.alt_left ==> m.alt
            &&& keys.alt_right ==> m.alt
            &&& keys.super_left ==> m.meta
            &&& keys.super_right ==> m.meta
            &&& m.shift ==> keys.shift_left || keys.shift_right
            &&& m.ctrl ==> keys.control_left || keys.control_right
            &&& m.alt ==> keys.alt_left || keys.alt_right
            &&& m.meta ==> keys.super_left || keys.super_right
            &&& is_macos ==> m.command == m.meta
            &&& !is_macos ==> m.command == m.ctrl
            &&& spec_modifiers(mirrored(keys), is_macos) == m
        }),
{
}

} // verus!

verus! {

/// ASCII lowercase of a character: `A`..=`Z` become `a`..=`z`, every other
/// character stays as it is.
pub open spec fn spec_ascii_lowercase(c: char) -> char {
    if 'A' <= c <= 'Z' {
        ((c as u32) + 32) as char
    } else {
        c
    }
}

/// Lowercases an ASCII letter and leaves every other character unchanged.
pub fn ascii_lowercase(c: char) -> (r: char)
    ensures
        r == spec_ascii_lowercase(c),
{
    if 'A' <= c && c <= 'Z' {
        let upper: u8 = c as u8;
        let lower: u8 = upper + 32;
        lower as char
    } else {
        c
    }
}

/// A logical key as the windowing layer reports it, reduced to the keys the
/// UI runtime understands; every other key is `Other`.
#[derive(Clone, Debug, PartialEq, Eq)]
pub enum LogicalKey {
    /// A key that produces text; the string is what it produced.
    Character(String),
    Enter,
    Tab,
    Backspace,
    Delete,
    Escape,
    ArrowLeft,
    ArrowRight,
    ArrowUp,
    ArrowDown,
    Home,
    End,
    PageUp,
    PageDown,
    Space,
    F1,
    F2,
    F3,
    F4,
    F5,
    F6,
    F7,
    F8,
    F9,
    F10,
    F11,
    F12,
    Other,
}

/// A key as the UI runtime understands it.
#[derive(Clone, Copy, Debug, PartialEq, Eq, Structural)]
pub enum Key {
    Character(char),
    Enter,
    Tab,
    Backspace,
    Delete,
    Escape,
    ArrowLeft,
    ArrowRight,
    ArrowUp,
    ArrowDown,
    Home,
    End,
    PageUp,
    PageDown,
    Space,
    /// A function key, numbered from 1.
    F(u8),
    Unknown,
}

/// The first character of a text, or `'\0'` for the empty text.
pub open spec fn first_char_or_nul(text: Seq<char>) -> char {
    if text.len() > 0 {
        text[0]
    } else {
        '\0'
    }
}

pub open spec fn spec_map_key(key: LogicalKey) -> Key {
    match key {
        LogicalKey::Character(s) => Key::Character(spec_ascii_lowercase(first_char_or_nul(s@))),
        LogicalKey::Enter => Key::Enter,
        LogicalKey::Tab => Key::Tab,
        LogicalKey::Backspace => Key::Backspace,
        LogicalKey::Delete => Key::Delete,
        LogicalKey::Escape => Key::Escape,
        LogicalKey::ArrowLeft => Key::ArrowLeft,
        LogicalKey::ArrowRight => Key::ArrowRight,
        LogicalKey::ArrowUp => Key::ArrowUp,
        LogicalKey::ArrowDown => Key::ArrowDown,
        LogicalKey::Home => Key::Home,
        LogicalKey::End => Key::End,
        LogicalKey::PageUp => Key::PageUp,
        LogicalKey::PageDown => Key::PageDown,
        LogicalKey::Space => Key::Space,
        LogicalKey::F1 => Key::F(1),
        LogicalKey::F2 => Key::F(2),
        LogicalKey::F3 => Key::F(3),
        LogicalKey::F4 => Key::F(4),
        LogicalKey::F5 => Key::F(5),
        LogicalKey::F6 => Key::F(6),
        LogicalKey::F7 => Key::F(7),
        LogicalKey::F8 => Key::F(8),
        LogicalKey::F9 => Key::F(9),
        LogicalKey::F10 => Key::F(10),
        LogicalKey::F11 => Key::F(11),
        LogicalKey::F12 => Key::F(12),
        LogicalKey::Other => Key::Unknown,
    }
}

/// The first character of `s`, or `'\0'` when `s` is empty.
fn first_char(s: &String) -> (c: char)
    ensures
        c == first_char_or_nul(s@),
{
    broadcast use vstd::string::axiom_spec_iter, vstd::string::next_postcondition;

    let mut chars = s.as_str().chars();
    match chars.next() {
        Some(c) => c,
        None => '\0',
    }
}

/// Maps a logical key to the runtime's key. A text-producing key maps to its
/// first character, lowercased when it is an ASCII letter.
pub fn map_key(key: &LogicalKey) -> (k: Key)
    ensures
        k == spec_map_key(*key),
{
    match key {
        LogicalKey::Character(s) => Key::Character(ascii_lowercase(first_char(s))),
        LogicalKey::Enter => Key::Enter,
        LogicalKey::Tab => Key::Tab,
        LogicalKey::Backspace => Key::Backspace,
        LogicalKey::Delete => Key::Delete,
        LogicalKey::Escape => Key::Escape,
        LogicalKey::ArrowLeft => Key::ArrowLeft,
        LogicalKey::ArrowRight => Key::ArrowRight,
        LogicalKey::ArrowUp => Key::ArrowUp,
        LogicalKey::ArrowDown => Key::ArrowDown,
        LogicalKey::Home => Key::Home,
        LogicalKey::End => Key::End,
        LogicalKey::PageUp => Key::PageUp,
        LogicalKey::PageDown => Key::PageDown,
        LogicalKey::Space => Key::Space,
        LogicalKey::F1 => Key::F(1),
        LogicalKey::F2 => Key::F(2),
        LogicalKey::F3 => Key::F(3),
        LogicalKey::F4 => Key::F(4),
        LogicalKey::F5 => Key::F(5),
        LogicalKey::F6 => Key::F(6),
        LogicalKey::F7 => Key::F(7),
        LogicalKey::F8 => Key::F(8),
        LogicalKey::F9 => Key::F(9),
        LogicalKey::F10 => Key::F(10),
        LogicalKey::F11 => Key::F(11),
        LogicalKey::F12 => Key::F(12),
        LogicalKey::Other => Key::Unknown,
    }
}

/// Whether a key went down or came up.
#[derive(Clone, Copy, Debug, PartialEq, Eq, Structural)]
pub enum KeyEventType {
    Down,
    Up,
}

/// A keyboard event for the UI runtime.
#[derive(Clone, Copy, Debug, PartialEq, Eq, Structural)]
pub struct KeyEvent {
    pub key: Key,
    pub modifiers: Modifiers,
    pub is_repeat: bool,
    pub event_type: KeyEventType,
    /// The character's code point truncated to 16 bits for character keys,
    /// 0 for every other key.
    pub utf16_code_point: u16,
}

pub open spec fn spec_utf16_code_point(key: Key) -> u16 {
    match key {
        Key::Character(c) => (c as u32) as u16,
        _ => 0,
    }
}

pub open spec fn spec_key_event(key: LogicalKey, pressed: bool, is_repeat: bool, modifiers: Modifiers) -> KeyEvent {
    let k = spec_map_key(key);
    KeyEvent {
        key: k,
        modifiers,
        is_repeat,
        event_type: if pressed { KeyEventType::Down } else { KeyEventType::Up },
        utf16_code_point: spec_utf16_code_point(k),
    }
}

/// A key event goes down exactly when its message is a press, whatever its
/// repeat flag; it keeps the repeat flag and the modifiers, carries the mapped
/// key, and has a UTF-16 value only for character keys.
pub proof fn lemma_key_event_follows_message(key: LogicalKey, pressed: bool, is_repeat: bool, modifiers: Modifiers)
    ensures
        ({
            let e = spec_key_event(key, pressed, is_repeat, modifiers);
            &&& (e.event_type == KeyEventType::Down) <==> pressed
            &&& (e.event_type == KeyEventType::Up) <==> !pressed
            &&& e.event_type == spec_key_event(key, pressed, !is_repeat, modifiers).event_type
            &&& e.is_repeat == is_repeat
            &&& e.modifiers == modifiers
            &&& e.key == spec_map_key(key)
            &&& !(e.key is Character) ==> e.utf16_code_point == 0
        }),
{
}

/// Builds the runtime's keyboard event for one key message.
pub fn key_event_for(key: &LogicalKey, pressed: bool, is_repeat: bool, modifiers: Modifiers) -> (e: KeyEvent)
    ensures
        e == spec_key_event(*key, pressed, is_repeat, modifiers),
{
    let k = map_key(key);
    let event_type = if pressed { KeyEventType::Down } else { KeyEventType::Up };
    let utf16_code_point: u16 = match k {
        Key::Character(c) => c as u16,
        _ => 0,
    };
    KeyEvent { key: k, modifiers, is_repeat, event_type, utf16_code_point }
}

} // verus!

verus! {

/// A mouse button as the windowing layer reports it.
#[derive(Clone, Copy, Debug, PartialEq, Eq, Structural)]
pub enum MouseButtonKind {
    Left,
    Right,
    Middle,
    Back,
    Forward,
    Other(u16),
}

/// A pointer button as the UI runtime understands it.
#[derive(Clone, Copy, Debug, PartialEq, Eq, Structural)]
pub enum PointerButton {
    Primary,
    Secondary,
    Tertiary,
}

/// What the runtime is told about one mouse button message.
#[derive(Clone, Copy, Debug, PartialEq, Eq, Structural)]
pub enum PointerAction {
    Press(PointerButton),
    Release(PointerButton),
}

pub open spec fn spec_pointer_button(button: MouseButtonKind) -> Option<PointerButton> {
    match button {
        MouseButtonKind::Left => Some(PointerButton::Primary),
        MouseButtonKind::Right => Some(PointerButton::Secondary),
        MouseButtonKind::Middle => Some(PointerButton::Tertiary),
        _ => None,
    }
}

/// Maps the left, right and middle buttons to the runtime's primary,
/// secondary and tertiary buttons; other buttons have no counterpart.
pub fn pointer_button_for(button: MouseButtonKind) -> (b: Option<PointerButton>)
    ensures
        b == spec_pointer_button(button),
{
    match button {
        MouseButtonKind::Left => Some(PointerButton::Primary),
        MouseButtonKind::Right => Some(PointerButton::Secondary),
        MouseButtonKind::Middle => Some(PointerButton::Tertiary),
        _ => None,
    }
}

pub open spec fn spec_pointer_action(button: MouseButtonKind, pressed: bool) -> Option<PointerAction> {
    match spec_pointer_button(button) {
        Some(b) => Some(if pressed { PointerAction::Press(b) } else { PointerAction::Release(b) }),
        None => None,
    }
}

/// The runtime action for a mouse button going down (`pressed`) or up;
/// `None` for buttons the runtime ignores. Every action forces a compose.
pub fn pointer_action(button: MouseButtonKind, pressed: bool) -> (a: Option<PointerAction>)
    ensures
        a == spec_pointer_action(button, pressed),
{
    match pointer_button_for(button) {
        Some(b) => Some(if pressed { PointerAction::Press(b) } else { PointerAction::Release(b) }),
        None => None,
    }
}

/// The unit a wheel delta is reported in.
#[derive(Clone, Copy, Debug, PartialEq, Eq, Structural)]
pub enum ScrollUnit {
    Line,
    Pixel,
}

/// Pixels per reported unit of a wheel delta.
pub const SCROLL_PIXELS_PER_LINE: u32 = 32;

/// The factor that turns a wheel delta into pixels: a line is 32 pixels.
pub fn scroll_scale(unit: ScrollUnit) -> (s: u32)
    ensures
        s == (match unit {
            ScrollUnit::Line => 32u32,
            ScrollUnit::Pixel => 1u32,
        }),
{
    match unit {
        ScrollUnit::Line => SCROLL_PIXELS_PER_LINE,
        ScrollUnit::Pixel => 1,
    }
}

/// An input-method message as the windowing layer reports it.
#[derive(Clone, Debug, PartialEq, Eq)]
pub enum ImeMessage {
    Enabled,
    Preedit { value: String, cursor: Option<(usize, usize)> },
    Commit { value: String },
    Disabled,
}

/// An input-method event for the UI runtime.
#[derive(Clone, Debug, PartialEq, Eq)]
pub enum ImeEvent {
    Start,
    Update { text: String, cursor: Option<(usize, usize)> },
    Commit(String),
    Cancel,
}

pub open spec fn spec_ime_event(msg: ImeMessage) -> ImeEvent {
    match msg {
        ImeMessage::Enabled => ImeEvent::Start,
        ImeMessage::Preedit { value, cursor } => ImeEvent::Update { text: value, cursor },
        ImeMessage::Commit { value } => ImeEvent::Commit(value),
        ImeMessage::Disabled => ImeEvent::Cancel,
    }
}

/// Translates an input-method message; every message forces a compose.
pub fn ime_event_for(msg: ImeMessage) -> (e: ImeEvent)
    ensures
        e == spec_ime_event(msg),
{
    match msg {
        ImeMessage::Enabled => ImeEvent::Start,
        ImeMessage::Preedit { value, cursor } => ImeEvent::Update { text: value, cursor },
        ImeMessage::Commit { value } => ImeEvent::Commit(value),
        ImeMessage::Disabled => ImeEvent::Cancel,
    }
}

} // verus!

verus! {

/// The value to write to the window's IME switch, if it must change at all:
/// the window is touched only when its state differs from what the UI allows.
pub fn ime_enabled_write(window_enabled: bool, ime_allowed: bool) -> (w: Option<bool>)
    ensures
        w == (if window_enabled != ime_allowed { Some(ime_allowed) } else { None }),
{
    if window_enabled != ime_allowed { Some(ime_allowed) } else { None }
}

} // verus!
