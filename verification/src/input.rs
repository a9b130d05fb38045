//! Input mappings of the compositor adapter: the pointer cursors the UI asks
//! for as cursor shapes of the compositor, and key events as the keys or
//! text the UI receives.
use vstd::prelude::*;

verus! {

/// A pointer cursor the UI can ask for.
#[derive(PartialEq, Eq, Structural, Clone, Copy, Debug)]
pub enum MouseCursor {
    Default,
    /// No cursor at all: the pointer is hidden.
    Hidden,
    Help,
    Pointer,
    Progress,
    Wait,
    Crosshair,
    Text,
    Alias,
    Copy,
    Move,
    NoDrop,
    NotAllowed,
    Grab,
    Grabbing,
    ColResize,
    RowResize,
    NResize,
    EResize,
    SResize,
    WResize,
    NeResize,
    NwResize,
    SeResize,
    SwResize,
    EwResize,
    NsResize,
    NeswResize,
    NwseResize,
}

/// A cursor shape of the compositor's cursor-shape protocol.
#[derive(PartialEq, Eq, Structural, Clone, Copy, Debug)]
pub enum CursorShape {
    Default,
    ContextMenu,
    Help,
    Pointer,
    Progress,
    Wait,
    Cell,
    Crosshair,
    Text,
    VerticalText,
    Alias,
    Copy,
    Move,
    NoDrop,
    NotAllowed,
    Grab,
    Grabbing,
    EResize,
    NResize,
    NeResize,
    NwResize,
    SResize,
    SeResize,
    SwResize,
    WResize,
    EwResize,
    NsResize,
    NeswResize,
    NwseResize,
    ColResize,
    RowResize,
    AllScroll,
    ZoomIn,
    ZoomOut,
}

/// The shape shown for a cursor: the shape of the same name, and the
/// default shape for `Hidden`, which has no shape (hiding the cursor is
/// left to the caller).
pub open spec fn shape_of(cursor: MouseCursor) -> CursorShape {
    match cursor {
        MouseCursor::Default => CursorShape::Default,
        MouseCursor::Hidden => CursorShape::Default,
        MouseCursor::Help => CursorShape::Help,
        MouseCursor::Pointer => CursorShape::Pointer,
        MouseCursor::Progress => CursorShape::Progress,
        MouseCursor::Wait => CursorShape::Wait,
        MouseCursor::Crosshair => CursorShape::Crosshair,
        MouseCursor::Text => CursorShape::Text,
        MouseCursor::Alias => CursorShape::Alias,
        MouseCursor::Copy => CursorShape::Copy,
        MouseCursor::Move => CursorShape::Move,
        MouseCursor::NoDrop => CursorShape::NoDrop,
        MouseCursor::NotAllowed => CursorShape::NotAllowed,
        MouseCursor::Grab => CursorShape::Grab,
        MouseCursor::Grabbing => CursorShape::Grabbing,
        MouseCursor::ColResize => CursorShape::ColResize,
        MouseCursor::RowResize => CursorShape::RowResize,
        MouseCursor::NResize => CursorShape::NResize,
        MouseCursor::EResize => CursorShape::EResize,
        MouseCursor::SResize => CursorShape::SResize,
        MouseCursor::WResize => CursorShape::WResize,
        MouseCursor::NeResize => CursorShape::NeResize,
        MouseCursor::NwResize => CursorShape::NwResize,
        MouseCursor::SeResize => CursorShape::SeResize,
        MouseCursor::SwResize => CursorShape::SwResize,
        MouseCursor::EwResize => CursorShape::EwResize,
        MouseCursor::NsResize => CursorShape::NsResize,
        MouseCursor::NeswResize => CursorShape::NeswResize,
        MouseCursor::NwseResize => CursorShape::NwseResize,
    }
}

/// Maps a cursor of the UI to the compositor's cursor shape.
pub fn mouse_cursor_to_shape(cursor: MouseCursor) -> (r: CursorShape)
    ensures
        r == shape_of(cursor),
{
    match cursor {
        MouseCursor::Default => CursorShape::Default,
        MouseCursor::Help => CursorShape::Help,
        MouseCursor::Pointer => CursorShape::Pointer,
        MouseCursor::Progress => CursorShape::Progress,
        MouseCursor::Wait => CursorShape::Wait,
        MouseCursor::Crosshair => CursorShape::Crosshair,
        MouseCursor::Text => CursorShape::Text,
        MouseCursor::Alias => CursorShape::Alias,
        MouseCursor::Copy => CursorShape::Copy,
        MouseCursor::Move => CursorShape::Move,
        MouseCursor::NoDrop => CursorShape::NoDrop,
        MouseCursor::NotAllowed => CursorShape::NotAllowed,
        MouseCursor::Grab => CursorShape::Grab,
        MouseCursor::Grabbing => CursorShape::Grabbing,
        MouseCursor::ColResize => CursorShape::ColResize,
        MouseCursor::RowResize => CursorShape::RowResize,
        MouseCursor::NResize => CursorShape::NResize,
        MouseCursor::EResize => CursorShape::EResize,
        MouseCursor::SResize => CursorShape::SResize,
        MouseCursor::WResize => CursorShape::WResize,
        MouseCursor::NeResize => CursorShape::NeResize,
        MouseCursor::NwResize => CursorShape::NwResize,
        MouseCursor::SeResize => CursorShape::SeResize,
        MouseCursor::SwResize => CursorShape::SwResize,
        MouseCursor::EwResize => CursorShape::EwResize,
        MouseCursor::NsResize => CursorShape::NsResize,
        MouseCursor::NeswResize => CursorShape::NeswResize,
        MouseCursor::NwseResize => CursorShape::NwseResize,
        _ => CursorShape::Default,
    }
}

/// The key symbols of the keyboard that the UI treats as keys; every other
/// symbol is `Other`. `Up` and `UpArrow` are the cursor key and the arrow
/// symbol of the same name, and so on for the other directions; `Function(n)`
/// is the function key Fn.
#[derive(PartialEq, Eq, Structural, Clone, Copy, Debug)]
pub enum KeySym {
    BackSpace,
    Tab,
    Return,
    Escape,
    BackTab,
    Delete,
    ShiftL,
    ShiftR,
    ControlL,
    ControlR,
    AltL,
    AltR,
    CapsLock,
    MetaL,
    MetaR,
    Space,
    Up,
    UpArrow,
    Down,
    DownArrow,
    Left,
    LeftArrow,
    Right,
    RightArrow,
    Function(u8),
    Insert,
    Home,
    End,
    PageUp,
    PageDown,
    ScrollLock,
    Pause,
    SysReq,
    Stop,
    Menu,
    Other,
}

/// A key as the UI names it.
#[derive(PartialEq, Eq, Structural, Clone, Copy, Debug)]
pub enum Key {
    Backspace,
    Tab,
    Return,
    Escape,
    Backtab,
    Delete,
    Shift,
    ShiftR,
    Control,
    ControlR,
    Alt,
    AltGr,
    CapsLock,
    Meta,
    MetaR,
    Space,
    UpArrow,
    DownArrow,
    LeftArrow,
    RightArrow,
    /// The function key Fn, for n from 1 to 24.
    Function(u8),
    Insert,
    Home,
    End,
    PageUp,
    PageDown,
    ScrollLock,
    Pause,
    SysReq,
    Stop,
    Menu,
}

/// A key press: its symbol, and the text it types where it types any.
pub struct KeyEvent {
    pub keysym: KeySym,
    pub utf8: Option<String>,
}

/// What the UI receives for a key press: a named key, or text.
pub enum KeyInput {
    Key(Key),
    Text(String),
}

/// The named key of a symbol; function keys past F24 and all other symbols
/// have none.
pub open spec fn key_of(sym: KeySym) -> Option<Key> {
    match sym {
        KeySym::BackSpace => Some(Key::Backspace),
        KeySym::Tab => Some(Key::Tab),
        KeySym::Return => Some(Key::Return),
        KeySym::Escape => Some(Key::Escape),
        KeySym::BackTab => Some(Key::Backtab),
        KeySym::Delete => Some(Key::Delete),
        KeySym::ShiftL => Some(Key::Shift),
        KeySym::ShiftR => Some(Key::ShiftR),
        KeySym::ControlL => Some(Key::Control),
        KeySym::ControlR => Some(Key::ControlR),
        KeySym::AltL => Some(Key::Alt),
        KeySym::AltR => Some(Key::AltGr),
        KeySym::CapsLock => Some(Key::CapsLock),
        KeySym::MetaL => Some(Key::Meta),
        KeySym::MetaR => Some(Key::MetaR),
        KeySym::Space => Some(Key::Space),
        KeySym::Up | KeySym::UpArrow => Some(Key::UpArrow),
        KeySym::Down | KeySym::DownArrow => Some(Key::DownArrow),
        KeySym::Left | KeySym::LeftArrow => Some(Key::LeftArrow),
        KeySym::Right | KeySym::RightArrow => Some(Key::RightArrow),
        KeySym::Function(n) => if 1 <= n <= 24 {
            Some(Key::Function(n))
        } else {
            None
        },
        KeySym::Insert => Some(Key::Insert),
        KeySym::Home => Some(Key::Home),
        KeySym::End => Some(Key::End),
        KeySym::PageUp => Some(Key::PageUp),
        KeySym::PageDown => Some(Key::PageDown),
        KeySym::ScrollLock => Some(Key::ScrollLock),
        KeySym::Pause => Some(Key::Pause),
        KeySym::SysReq => Some(Key::SysReq),
        KeySym::Stop => Some(Key::Stop),
        KeySym::Menu => Some(Key::Menu),
        KeySym::Other => None,
    }
}

/// What the UI receives for a key press: the named key of its symbol where
/// there is one, else the text it types (nothing where it types none).
pub fn get_string(event: KeyEvent) -> (r: KeyInput)
    ensures
        match key_of(event.keysym) {
            Some(k) => r == KeyInput::Key(k),
            None => r matches KeyInput::Text(t) && t@ == match event.utf8 {
                Some(s) => s@,
                None => Seq::<char>::empty(),
            },
        },
{
    let key: Option<Key> = match event.keysym {
        KeySym::BackSpace => Some(Key::Backspace),
        KeySym::Tab => Some(Key::Tab),
        KeySym::Return => Some(Key::Return),
        KeySym::Escape => Some(Key::Escape),
        KeySym::BackTab => Some(Key::Backtab),
        KeySym::Delete => Some(Key::Delete),
        KeySym::ShiftL => Some(Key::Shift),
        KeySym::ShiftR => Some(Key::ShiftR),
        KeySym::ControlL => Some(Key::Control),
        KeySym::ControlR => Some(Key::ControlR),
        KeySym::AltL => Some(Key::Alt),
        KeySym::AltR => Some(Key::AltGr),
        KeySym::CapsLock => Some(Key::CapsLock),
        KeySym::MetaL => Some(Key::Meta),
        KeySym::MetaR => Some(Key::MetaR),
        KeySym::Space => Some(Key::Space),
        KeySym::Up | KeySym::UpArrow => Some(Key::UpArrow),
        KeySym::Down | KeySym::DownArrow => Some(Key::DownArrow),
        KeySym::Left | KeySym::LeftArrow => Some(Key::LeftArrow),
        KeySym::Right | KeySym::RightArrow => Some(Key::RightArrow),
        KeySym::Function(n) => if 1 <= n && n <= 24 {
            Some(Key::Function(n))
        } else {
            None
        },
        KeySym::Insert => Some(Key::Insert),
        KeySym::Home => Some(Key::Home),
        KeySym::End => Some(Key::End),
        KeySym::PageUp => Some(Key::PageUp),
        KeySym::PageDown => Some(Key::PageDown),
        KeySym::ScrollLock => Some(Key::ScrollLock),
        KeySym::Pause => Some(Key::Pause),
        KeySym::SysReq => Some(Key::SysReq),
        KeySym::Stop => Some(Key::Stop),
        KeySym::Menu => Some(Key::Menu),
        KeySym::Other => None,
    };
    match key {
        Some(k) => KeyInput::Key(k),
        None => KeyInput::Text(
            match event.utf8 {
                Some(s) => s,
                None => String::new(),
            },
        ),
    }
}

} // verus!
