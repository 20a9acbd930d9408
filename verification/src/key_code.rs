//! The key-code translator: a pure mapping from a platform key identity plus
//! modifier state to a semantic key code.
//!
//! Platform-specific aliasing rules: character keys map to a generic
//! character variant tagged with the current shift state; the Windows key and
//! the Command key both map to the same generic `Command` code; any key not
//! in the recognized table maps to the catch-all `NonConvert` code rather
//! than failing.

use vstd::prelude::*;

use crate::event::KeyboardModifiers;

verus! {

/// A platform key identity, with modifiers already stripped: what the
/// platform layer reads off a raw keyboard notification.
#[derive(Clone, Debug, PartialEq, Eq, Hash)]
pub enum PlatformKey {
    /// A key that produces text, carrying the text it produces without
    /// modifiers applied.
    Character(String),
    Alt,
    CapsLock,
    Control,
    Shift,
    /// The `Meta` key of platforms that report one.
    Meta,
    /// The `Super` (or Windows) key of platforms that report one.
    Super,
    Enter,
    Tab,
    Space,
    ArrowDown,
    ArrowLeft,
    ArrowRight,
    ArrowUp,
    End,
    Home,
    PageDown,
    PageUp,
    Backspace,
    Delete,
    Escape,
    /// Any key outside the recognized table.
    Unidentified,
}

/// The mathematical value of a [`PlatformKey`].
pub enum PlatformKeyV {
    Character(Seq<char>),
    Alt,
    CapsLock,
    Control,
    Shift,
    Meta,
    Super,
    Enter,
    Tab,
    Space,
    ArrowDown,
    ArrowLeft,
    ArrowRight,
    ArrowUp,
    End,
    Home,
    PageDown,
    PageUp,
    Backspace,
    Delete,
    Escape,
    Unidentified,
}

impl View for PlatformKey {
    type V = PlatformKeyV;

    open spec fn view(&self) -> PlatformKeyV {
        match self {
            PlatformKey::Character(c) => PlatformKeyV::Character(c@),
            PlatformKey::Alt => PlatformKeyV::Alt,
            PlatformKey::CapsLock => PlatformKeyV::CapsLock,
            PlatformKey::Control => PlatformKeyV::Control,
            PlatformKey::Shift => PlatformKeyV::Shift,
            PlatformKey::Meta => PlatformKeyV::Meta,
            PlatformKey::Super => PlatformKeyV::Super,
            PlatformKey::Enter => PlatformKeyV::Enter,
            PlatformKey::Tab => PlatformKeyV::Tab,
            PlatformKey::Space => PlatformKeyV::Space,
            PlatformKey::ArrowDown => PlatformKeyV::ArrowDown,
            PlatformKey::ArrowLeft => PlatformKeyV::ArrowLeft,
            PlatformKey::ArrowRight => PlatformKeyV::ArrowRight,
            PlatformKey::ArrowUp => PlatformKeyV::ArrowUp,
            PlatformKey::End => PlatformKeyV::End,
            PlatformKey::Home => PlatformKeyV::Home,
            PlatformKey::PageDown => PlatformKeyV::PageDown,
            PlatformKey::PageUp => PlatformKeyV::PageUp,
            PlatformKey::Backspace => PlatformKeyV::Backspace,
            PlatformKey::Delete => PlatformKeyV::Delete,
            PlatformKey::Escape => PlatformKeyV::Escape,
            PlatformKey::Unidentified => PlatformKeyV::Unidentified,
        }
    }
}

/// A semantic key code.
///
/// The names are based on the US keyboard. If the key is not present on US
/// keyboards a name from another layout is used.
#[derive(Clone, Debug, PartialEq, Eq, Hash)]
pub enum KeyCode {
    /// A character key, carrying its text and the shift state at press time.
    Character(String, bool),
    /// `Alt` or `Option`.
    AltOrOption,
    /// `Backspace`; labelled `Delete` on Apple keyboards.
    BackspaceOrDelete,
    CapsLock,
    Control,
    Enter,
    /// The Windows, `Command` or other OS symbol key.
    Command,
    Shift,
    Space,
    Tab,
    /// The forward delete key.
    FDelete,
    ArrowDown,
    ArrowLeft,
    ArrowRight,
    ArrowUp,
    Escape,
    Home,
    End,
    PageDown,
    PageUp,
    /// The catch-all code for keys outside the recognized table.
    NonConvert,
}

/// The mathematical value of a [`KeyCode`].
pub enum KeyCodeV {
    Character(Seq<char>, bool),
    AltOrOption,
    BackspaceOrDelete,
    CapsLock,
    Control,
    Enter,
    Command,
    Shift,
    Space,
    Tab,
    FDelete,
    ArrowDown,
    ArrowLeft,
    ArrowRight,
    ArrowUp,
    Escape,
    Home,
    End,
    PageDown,
    PageUp,
    NonConvert,
}

impl View for KeyCode {
    type V = KeyCodeV;

    open spec fn view(&self) -> KeyCodeV {
        match self {
            KeyCode::Character(c, shift) => KeyCodeV::Character(c@, *shift),
            KeyCode::AltOrOption => KeyCodeV::AltOrOption,
            KeyCode::BackspaceOrDelete => KeyCodeV::BackspaceOrDelete,
            KeyCode::CapsLock => KeyCodeV::CapsLock,
            KeyCode::Control => KeyCodeV::Control,
            KeyCode::Enter => KeyCodeV::Enter,
            KeyCode::Command => KeyCodeV::Command,
            KeyCode::Shift => KeyCodeV::Shift,
            KeyCode::Space => KeyCodeV::Space,
            KeyCode::Tab => KeyCodeV::Tab,
            KeyCode::FDelete => KeyCodeV::FDelete,
            KeyCode::ArrowDown => KeyCodeV::ArrowDown,
            KeyCode::ArrowLeft => KeyCodeV::ArrowLeft,
            KeyCode::ArrowRight => KeyCodeV::ArrowRight,
            KeyCode::ArrowUp => KeyCodeV::ArrowUp,
            KeyCode::Escape => KeyCodeV::Escape,
            KeyCode::Home => KeyCodeV::Home,
            KeyCode::End => KeyCodeV::End,
            KeyCode::PageDown => KeyCodeV::PageDown,
            KeyCode::PageUp => KeyCodeV::PageUp,
            KeyCode::NonConvert => KeyCodeV::NonConvert,
        }
    }
}

/// The display name of a semantic key code; character keys name their text
/// and shift state.
pub open spec fn key_code_name(k: KeyCodeV) -> Seq<char> {
    match k {
        KeyCodeV::Character(c, shift) => c + " with shift "@ + (if shift {
            "true"@
        } else {
            "false"@
        }),
        KeyCodeV::AltOrOption => "Alt"@,
        KeyCodeV::BackspaceOrDelete => "Backspace"@,
        KeyCodeV::CapsLock => "CapsLock"@,
        KeyCodeV::Control => "Control"@,
        KeyCodeV::Enter => "Enter"@,
        KeyCodeV::Command => "Command"@,
        KeyCodeV::Shift => "Shift"@,
        KeyCodeV::Space => " "@,
        KeyCodeV::Tab => "Tab"@,
        KeyCodeV::FDelete => "ForwardDelete"@,
        KeyCodeV::ArrowDown => "ArrowDown"@,
        KeyCodeV::ArrowLeft => "ArrowLeft"@,
        KeyCodeV::ArrowRight => "ArrowRight"@,
        KeyCodeV::ArrowUp => "ArrowUp"@,
        KeyCodeV::Escape => "Escape"@,
        KeyCodeV::Home => "Home"@,
        KeyCodeV::End => "End"@,
        KeyCodeV::PageDown => "PageDown"@,
        KeyCodeV::PageUp => "PageUp"@,
        KeyCodeV::NonConvert => "NonConvert"@,
    }
}

impl KeyCode {
    /// The code's display name, for logging and menus: see
    /// [`key_code_name`].
    pub fn name(&self) -> (r: String)
        ensures
            r@ == key_code_name(self@),
    {
        match self {
            KeyCode::Character(c, shift) => {
                let mut s = c.clone();
                s.append(" with shift ");
                if *shift {
                    s.append("true");
                } else {
                    s.append("false");
                }
                s
            },
            KeyCode::AltOrOption => "Alt".to_owned(),
            KeyCode::BackspaceOrDelete => "Backspace".to_owned(),
            KeyCode::CapsLock => "CapsLock".to_owned(),
            KeyCode::Control => "Control".to_owned(),
            KeyCode::Enter => "Enter".to_owned(),
            KeyCode::Command => "Command".to_owned(),
            KeyCode::Shift => "Shift".to_owned(),
            KeyCode::Space => " ".to_owned(),
            KeyCode::Tab => "Tab".to_owned(),
            KeyCode::FDelete => "ForwardDelete".to_owned(),
            KeyCode::ArrowDown => "ArrowDown".to_owned(),
            KeyCode::ArrowLeft => "ArrowLeft".to_owned(),
            KeyCode::ArrowRight => "ArrowRight".to_owned(),
            KeyCode::ArrowUp => "ArrowUp".to_owned(),
            KeyCode::Escape => "Escape".to_owned(),
            KeyCode::Home => "Home".to_owned(),
            KeyCode::End => "End".to_owned(),
            KeyCode::PageDown => "PageDown".to_owned(),
            KeyCode::PageUp => "PageUp".to_owned(),
            KeyCode::NonConvert => "NonConvert".to_owned(),
        }
    }
}

/// The translation table: the semantic code of a platform key under the
/// given shift state.
pub open spec fn key_code_of(key: PlatformKeyV, shift: bool) -> KeyCodeV {
    match key {
        PlatformKeyV::Character(c) => KeyCodeV::Character(c, shift),
        PlatformKeyV::Alt => KeyCodeV::AltOrOption,
        PlatformKeyV::CapsLock => KeyCodeV::CapsLock,
        PlatformKeyV::Control => KeyCodeV::Control,
        PlatformKeyV::Shift => KeyCodeV::Shift,
        PlatformKeyV::Meta => KeyCodeV::Command,
        PlatformKeyV::Super => KeyCodeV::Command,
        PlatformKeyV::Enter => KeyCodeV::Enter,
        PlatformKeyV::Tab => KeyCodeV::Tab,
        PlatformKeyV::Space => KeyCodeV::Space,
        PlatformKeyV::ArrowDown => KeyCodeV::ArrowDown,
        PlatformKeyV::ArrowLeft => KeyCodeV::ArrowLeft,
        PlatformKeyV::ArrowRight => KeyCodeV::ArrowRight,
        PlatformKeyV::ArrowUp => KeyCodeV::ArrowUp,
        PlatformKeyV::End => KeyCodeV::End,
        PlatformKeyV::Home => KeyCodeV::Home,
        PlatformKeyV::PageDown => KeyCodeV::PageDown,
        PlatformKeyV::PageUp => KeyCodeV::PageUp,
        PlatformKeyV::Backspace => KeyCodeV::BackspaceOrDelete,
        PlatformKeyV::Delete => KeyCodeV::FDelete,
        PlatformKeyV::Escape => KeyCodeV::Escape,
        PlatformKeyV::Unidentified => KeyCodeV::NonConvert,
    }
}

/// Translates a platform key (already stripped of modifiers) to its semantic
/// code, tagging character keys with the current shift state.
pub fn key_event_to_code(key: &PlatformKey, key_mods: &KeyboardModifiers) -> (code: KeyCode)
    ensures
        code@ == key_code_of(key@, key_mods.shift),
{
    match key {
        PlatformKey::Character(c) => KeyCode::Character(c.clone(), key_mods.shift),
        PlatformKey::Alt => KeyCode::AltOrOption,
        PlatformKey::CapsLock => KeyCode::CapsLock,
        PlatformKey::Control => KeyCode::Control,
        PlatformKey::Shift => KeyCode::Shift,
        PlatformKey::Meta => KeyCode::Command,
        PlatformKey::Super => KeyCode::Command,
        PlatformKey::Enter => KeyCode::Enter,
        PlatformKey::Tab => KeyCode::Tab,
        PlatformKey::Space => KeyCode::Space,
        PlatformKey::ArrowDown => KeyCode::ArrowDown,
        PlatformKey::ArrowLeft => KeyCode::ArrowLeft,
        PlatformKey::ArrowRight => KeyCode::ArrowRight,
        PlatformKey::ArrowUp => KeyCode::ArrowUp,
        PlatformKey::End => KeyCode::End,
        PlatformKey::Home => KeyCode::Home,
        PlatformKey::PageDown => KeyCode::PageDown,
        PlatformKey::PageUp => KeyCode::PageUp,
        PlatformKey::Backspace => KeyCode::BackspaceOrDelete,
        PlatformKey::Delete => KeyCode::FDelete,
        PlatformKey::Escape => KeyCode::Escape,
        PlatformKey::Unidentified => KeyCode::NonConvert,
    }
}

} // verus!
