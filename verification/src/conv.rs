//! Conversions between window-system input identities and the GUI engine's
//! input primitives: keys, modifier keys, mouse buttons and mouse cursors.

use vstd::prelude::*;

verus! {

/// A key as reported by the window system. `Unknown` stands for every key
/// the GUI engine has no use for.
#[derive(Clone, Copy, Debug, PartialEq, Eq, Structural)]
pub enum Key {
    LControl,
    RControl,
    LShift,
    RShift,
    LAlt,
    RAlt,
    LWin,
    RWin,
    Escape,
    Return,
    Tab,
    Space,
    Back,
    Delete,
    Unknown,
}

/// A key as the GUI engine identifies it. The `Mod*` entries are the
/// engine's side-agnostic modifier flags; the `Left*`/`Right*` entries are
/// the physical modifier keys.
#[derive(Clone, Copy, Debug, PartialEq, Eq, Structural)]
pub enum ImGuiKey {
    ModCtrl,
    ModShift,
    ModAlt,
    ModSuper,
    LeftCtrl,
    RightCtrl,
    LeftShift,
    RightShift,
    LeftAlt,
    RightAlt,
    LeftSuper,
    RightSuper,
    Escape,
    Enter,
    Tab,
    Space,
    Backspace,
    Delete,
}

/// A mouse button as reported by the window system.
#[derive(Clone, Copy, Debug, PartialEq, Eq, Structural)]
pub enum MouseButton {
    Left,
    Right,
    Middle,
    Other,
}

/// A mouse cursor shape as the GUI engine identifies it. `Hidden` is the
/// engine's request for no visible cursor at all.
#[derive(Clone, Copy, Debug, PartialEq, Eq, Structural)]
pub enum MouseCursor {
    Hidden,
    Arrow,
    TextInput,
    ResizeAll,
    ResizeNS,
    ResizeEW,
    ResizeNESW,
    ResizeNWSE,
    Hand,
    NotAllowed,
}

/// A cursor icon as the window system identifies it.
#[derive(Clone, Copy, Debug, PartialEq, Eq, Structural)]
pub enum CursorIcon {
    Default,
    Text,
    Move,
    NsResize,
    EwResize,
    NeswResize,
    NwseResize,
    Hand,
    NotAllowed,
}

/// The engine key a window-system key maps to, if any.
pub open spec fn spec_to_imgui_key(key: Key) -> Option<ImGuiKey> {
    match key {
        Key::LControl => Some(ImGuiKey::LeftCtrl),
        Key::RControl => Some(ImGuiKey::RightCtrl),
        Key::LShift => Some(ImGuiKey::LeftShift),
        Key::RShift => Some(ImGuiKey::RightShift),
        Key::LAlt => Some(ImGuiKey::LeftAlt),
        Key::RAlt => Some(ImGuiKey::RightAlt),
        Key::LWin => Some(ImGuiKey::LeftSuper),
        Key::RWin => Some(ImGuiKey::RightSuper),
        Key::Escape => Some(ImGuiKey::Escape),
        Key::Return => Some(ImGuiKey::Enter),
        Key::Tab => Some(ImGuiKey::Tab),
        Key::Space => Some(ImGuiKey::Space),
        Key::Back => Some(ImGuiKey::Backspace),
        Key::Delete => Some(ImGuiKey::Delete),
        Key::Unknown => None,
    }
}

/// Maps a window-system key to the engine key it stands for; `None` for a
/// key the engine does not know.
pub fn to_imgui_key(key: Key) -> (r: Option<ImGuiKey>)
    ensures
        r == spec_to_imgui_key(key),
{
    match key {
        Key::LControl => Some(ImGuiKey::LeftCtrl),
        Key::RControl => Some(ImGuiKey::RightCtrl),
        Key::LShift => Some(ImGuiKey::LeftShift),
        Key::RShift => Some(ImGuiKey::RightShift),
        Key::LAlt => Some(ImGuiKey::LeftAlt),
        Key::RAlt => Some(ImGuiKey::RightAlt),
        Key::LWin => Some(ImGuiKey::LeftSuper),
        Key::RWin => Some(ImGuiKey::RightSuper),
        Key::Escape => Some(ImGuiKey::Escape),
        Key::Return => Some(ImGuiKey::Enter),
        Key::Tab => Some(ImGuiKey::Tab),
        Key::Space => Some(ImGuiKey::Space),
        Key::Back => Some(ImGuiKey::Backspace),
        Key::Delete => Some(ImGuiKey::Delete),
        Key::Unknown => None,
    }
}

/// The side-agnostic modifier flag a physical modifier key carries, if any.
pub open spec fn spec_key_mod_of(key: Key) -> Option<ImGuiKey> {
    match key {
        Key::LControl | Key::RControl => Some(ImGuiKey::ModCtrl),
        Key::LShift | Key::RShift => Some(ImGuiKey::ModShift),
        Key::LAlt | Key::RAlt => Some(ImGuiKey::ModAlt),
        Key::LWin | Key::RWin => Some(ImGuiKey::ModSuper),
        _ => None,
    }
}

/// Maps a physical modifier key to the engine's side-agnostic modifier
/// flag; `None` for every other key.
pub fn key_mod_of(key: Key) -> (r: Option<ImGuiKey>)
    ensures
        r == spec_key_mod_of(key),
{
    match key {
        Key::LControl | Key::RControl => Some(ImGuiKey::ModCtrl),
        Key::LShift | Key::RShift => Some(ImGuiKey::ModShift),
        Key::LAlt | Key::RAlt => Some(ImGuiKey::ModAlt),
        Key::LWin | Key::RWin => Some(ImGuiKey::ModSuper),
        _ => None,
    }
}

/// The engine's index for a mouse button, if it tracks the button.
pub open spec fn spec_to_imgui_button(button: MouseButton) -> Option<u32> {
    match button {
        MouseButton::Left => Some(0u32),
        MouseButton::Right => Some(1u32),
        MouseButton::Middle => Some(2u32),
        MouseButton::Other => None,
    }
}

/// Maps a mouse button to the engine's button index; `None` for buttons the
/// engine does not track.
pub fn to_imgui_button(button: MouseButton) -> (r: Option<u32>)
    ensures
        r == spec_to_imgui_button(button),
{
    match button {
        MouseButton::Left => Some(0u32),
        MouseButton::Right => Some(1u32),
        MouseButton::Middle => Some(2u32),
        MouseButton::Other => None,
    }
}

/// The cursor shape the engine's raw cursor value names, if it names one.
/// `-1` is the engine's "no cursor" request; the rest follow the engine's
/// cursor enumeration in order.
pub open spec fn spec_mouse_cursor_from_bits(bits: i32) -> Option<MouseCursor> {
    if bits == -1 {
        Some(MouseCursor::Hidden)
    } else if bits == 0 {
        Some(MouseCursor::Arrow)
    } else if bits == 1 {
        Some(MouseCursor::TextInput)
    } else if bits == 2 {
        Some(MouseCursor::ResizeAll)
    } else if bits == 3 {
        Some(MouseCursor::ResizeNS)
    } else if bits == 4 {
        Some(MouseCursor::ResizeEW)
    } else if bits == 5 {
        Some(MouseCursor::ResizeNESW)
    } else if bits == 6 {
        Some(MouseCursor::ResizeNWSE)
    } else if bits == 7 {
        Some(MouseCursor::Hand)
    } else if bits == 8 {
        Some(MouseCursor::NotAllowed)
    } else {
        None
    }
}

/// Decodes the engine's raw cursor value; `None` for a value outside the
/// engine's cursor enumeration.
pub fn mouse_cursor_from_bits(bits: i32) -> (r: Option<MouseCursor>)
    ensures
        r == spec_mouse_cursor_from_bits(bits),
{
    if bits == -1 {
        Some(MouseCursor::Hidden)
    } else if bits == 0 {
        Some(MouseCursor::Arrow)
    } else if bits == 1 {
        Some(MouseCursor::TextInput)
    } else if bits == 2 {
        Some(MouseCursor::ResizeAll)
    } else if bits == 3 {
        Some(MouseCursor::ResizeNS)
    } else if bits == 4 {
        Some(MouseCursor::ResizeEW)
    } else if bits == 5 {
        Some(MouseCursor::ResizeNESW)
    } else if bits == 6 {
        Some(MouseCursor::ResizeNWSE)
    } else if bits == 7 {
        Some(MouseCursor::Hand)
    } else if bits == 8 {
        Some(MouseCursor::NotAllowed)
    } else {
        None
    }
}

/// The window-system cursor icon an engine cursor shape maps to; `None`
/// when the engine asks for no visible cursor.
pub open spec fn spec_from_imgui_cursor(cursor: MouseCursor) -> Option<CursorIcon> {
    match cursor {
        MouseCursor::Hidden => None,
        MouseCursor::Arrow => Some(CursorIcon::Default),
        MouseCursor::TextInput => Some(CursorIcon::Text),
        MouseCursor::ResizeAll => Some(CursorIcon::Move),
        MouseCursor::ResizeNS => Some(CursorIcon::NsResize),
        MouseCursor::ResizeEW => Some(CursorIcon::EwResize),
        MouseCursor::ResizeNESW => Some(CursorIcon::NeswResize),
        MouseCursor::ResizeNWSE => Some(CursorIcon::NwseResize),
        MouseCursor::Hand => Some(CursorIcon::Hand),
        MouseCursor::NotAllowed => Some(CursorIcon::NotAllowed),
    }
}

/// Maps an engine cursor shape to the window-system icon that shows it;
/// `None` when the cursor should be hidden.
pub fn from_imgui_cursor(cursor: MouseCursor) -> (r: Option<CursorIcon>)
    ensures
        r == spec_from_imgui_cursor(cursor),
{
    match cursor {
        MouseCursor::Hidden => None,
        MouseCursor::Arrow => Some(CursorIcon::Default),
        MouseCursor::TextInput => Some(CursorIcon::Text),
        MouseCursor::ResizeAll => Some(CursorIcon::Move),
        MouseCursor::ResizeNS => Some(CursorIcon::NsResize),
        MouseCursor::ResizeEW => Some(CursorIcon::EwResize),
        MouseCursor::ResizeNESW => Some(CursorIcon::NeswResize),
        MouseCursor::ResizeNWSE => Some(CursorIcon::NwseResize),
        MouseCursor::Hand => Some(CursorIcon::Hand),
        MouseCursor::NotAllowed => Some(CursorIcon::NotAllowed),
    }
}

} // verus!
