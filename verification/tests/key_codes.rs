use oxdraw_core::event::KeyboardModifiers;
use oxdraw_core::key_code::{KeyCode, PlatformKey, key_event_to_code};

fn no_mods() -> KeyboardModifiers {
    KeyboardModifiers::default()
}

fn shift_held() -> KeyboardModifiers {
    KeyboardModifiers { shift: true, control: false, alt: false, command: false }
}

#[test]
fn character_key_carries_text_and_shift_state() {
    let code = key_event_to_code(&PlatformKey::Character("a".to_string()), &shift_held());
    assert_eq!(code, KeyCode::Character("a".to_string(), true));
    let code = key_event_to_code(&PlatformKey::Character("a".to_string()), &no_mods());
    assert_eq!(code, KeyCode::Character("a".to_string(), false));
}

#[test]
fn meta_and_super_both_map_to_command() {
    assert_eq!(key_event_to_code(&PlatformKey::Meta, &no_mods()), KeyCode::Command);
    assert_eq!(key_event_to_code(&PlatformKey::Super, &no_mods()), KeyCode::Command);
}

#[test]
fn unrecognized_key_maps_to_non_convert() {
    assert_eq!(key_event_to_code(&PlatformKey::Unidentified, &no_mods()), KeyCode::NonConvert);
}

#[test]
fn backspace_and_delete_aliases() {
    assert_eq!(key_event_to_code(&PlatformKey::Backspace, &no_mods()), KeyCode::BackspaceOrDelete);
    assert_eq!(key_event_to_code(&PlatformKey::Delete, &no_mods()), KeyCode::FDelete);
}

#[test]
fn whole_recognized_table() {
    let m = no_mods();
    assert_eq!(key_event_to_code(&PlatformKey::Alt, &m), KeyCode::AltOrOption);
    assert_eq!(key_event_to_code(&PlatformKey::CapsLock, &m), KeyCode::CapsLock);
    assert_eq!(key_event_to_code(&PlatformKey::Control, &m), KeyCode::Control);
    assert_eq!(key_event_to_code(&PlatformKey::Shift, &m), KeyCode::Shift);
    assert_eq!(key_event_to_code(&PlatformKey::Enter, &m), KeyCode::Enter);
    assert_eq!(key_event_to_code(&PlatformKey::Tab, &m), KeyCode::Tab);
    assert_eq!(key_event_to_code(&PlatformKey::Space, &m), KeyCode::Space);
    assert_eq!(key_event_to_code(&PlatformKey::ArrowDown, &m), KeyCode::ArrowDown);
    assert_eq!(key_event_to_code(&PlatformKey::ArrowLeft, &m), KeyCode::ArrowLeft);
    assert_eq!(key_event_to_code(&PlatformKey::ArrowRight, &m), KeyCode::ArrowRight);
    assert_eq!(key_event_to_code(&PlatformKey::ArrowUp, &m), KeyCode::ArrowUp);
    assert_eq!(key_event_to_code(&PlatformKey::End, &m), KeyCode::End);
    assert_eq!(key_event_to_code(&PlatformKey::Home, &m), KeyCode::Home);
    assert_eq!(key_event_to_code(&PlatformKey::PageDown, &m), KeyCode::PageDown);
    assert_eq!(key_event_to_code(&PlatformKey::PageUp, &m), KeyCode::PageUp);
    assert_eq!(key_event_to_code(&PlatformKey::Escape, &m), KeyCode::Escape);
}

#[test]
fn key_code_names() {
    assert_eq!(KeyCode::Character("a".to_string(), true).name(), "a with shift true");
    assert_eq!(KeyCode::Character("Z".to_string(), false).name(), "Z with shift false");
    assert_eq!(KeyCode::AltOrOption.name(), "Alt");
    assert_eq!(KeyCode::BackspaceOrDelete.name(), "Backspace");
    assert_eq!(KeyCode::FDelete.name(), "ForwardDelete");
    assert_eq!(KeyCode::Space.name(), " ");
    assert_eq!(KeyCode::NonConvert.name(), "NonConvert");
}
