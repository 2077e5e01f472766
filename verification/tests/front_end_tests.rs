use rc8_core::keypad::{key2btn, key_to_keypad};
use rc8_core::menu::{get_bool_option_text, options_text, Quirks, Screen, UiAction, UiEvent, UiState};

fn all(on: bool) -> Quirks {
    Quirks { quirk_8xy6: on, quirk_8xye: on, quirk_fx55: on, quirk_fx65: on }
}

#[test]
fn keypad_layout_is_standard() {
    let layout = "X123QWEASDZC4RFV";
    for (k, c) in layout.chars().enumerate() {
        assert_eq!(key_to_keypad(c), Some(k));
        assert_eq!(key_to_keypad(c.to_ascii_lowercase()), Some(k));
    }
    assert_eq!(key_to_keypad('5'), None);
    assert_eq!(key_to_keypad('G'), None);
}

#[test]
fn key_names_map_to_keypad() {
    assert_eq!(key2btn("1"), Some(0x1));
    assert_eq!(key2btn("4"), Some(0xC));
    assert_eq!(key2btn("q"), Some(0x4));
    assert_eq!(key2btn("Q"), Some(0x4));
    assert_eq!(key2btn("V"), Some(0xF));
    assert_eq!(key2btn("x"), Some(0x0));
    assert_eq!(key2btn("Escape"), None);
    assert_eq!(key2btn(""), None);
    assert_eq!(key2btn("QW"), None);
}

#[test]
fn bool_option_text() {
    assert_eq!(get_bool_option_text(true), "ON");
    assert_eq!(get_bool_option_text(false), "OFF");
}

#[test]
fn options_text_lists_each_quirk() {
    let q = Quirks { quirk_8xy6: true, quirk_8xye: false, quirk_fx55: true, quirk_fx65: false };
    assert_eq!(
        options_text(q),
        "Options\n1. Toggle Quirks ON\n2. Toggle Quirks OFF\n3. quirk_8xy6 ON\n4. quirk_8xye OFF\n5. quirk_fx55 ON\n6. quirk_fx65 OFF\n7. Back"
    );
}

#[test]
fn quit_and_escape_exit_everywhere() {
    for screen in [Screen::Menu, Screen::Options, Screen::Error, Screen::Playing] {
        let s = UiState { screen, quirks: all(true), rom_loaded: false };
        assert_eq!(s.step(UiEvent::Quit), (s, UiAction::Exit));
        assert_eq!(s.step(UiEvent::EscapeReleased), (s, UiAction::Exit));
    }
}

#[test]
fn menu_play_asks_for_rom_when_none_loaded() {
    let s = UiState::new(all(true), false);
    assert_eq!(s.screen, Screen::Menu);
    let (s2, a) = s.step(UiEvent::KeyReleased('1'));
    assert_eq!(a, UiAction::PickRom);
    assert_eq!(s2, s);
    let (s3, a) = s2.step(UiEvent::RomLoaded);
    assert_eq!(a, UiAction::Continue);
    assert_eq!(s3.screen, Screen::Playing);
    assert!(s3.rom_loaded);
    let (s4, _) = s2.step(UiEvent::RomFailed);
    assert_eq!(s4.screen, Screen::Error);
    let (s5, _) = s4.step(UiEvent::KeyReleased('2'));
    assert_eq!(s5.screen, Screen::Error);
    let (s6, _) = s4.step(UiEvent::KeyReleased('1'));
    assert_eq!(s6.screen, Screen::Menu);
}

#[test]
fn menu_play_with_rom_starts_directly() {
    let s = UiState::new(all(false), true);
    let (s2, a) = s.step(UiEvent::KeyReleased('1'));
    assert_eq!(a, UiAction::Continue);
    assert_eq!(s2.screen, Screen::Playing);
    let (_, a) = s.step(UiEvent::KeyReleased('3'));
    assert_eq!(a, UiAction::Exit);
    let (s3, _) = s.step(UiEvent::KeyReleased('2'));
    assert_eq!(s3.screen, Screen::Options);
    let (s4, a) = s.step(UiEvent::KeyPressed('1'));
    assert_eq!((s4, a), (s, UiAction::Continue));
}

#[test]
fn options_change_quirks() {
    let s = UiState { screen: Screen::Options, quirks: all(false), rom_loaded: false };
    let (s1, a) = s.step(UiEvent::KeyReleased('1'));
    assert_eq!(a, UiAction::QuirksChanged);
    assert_eq!(s1.quirks, all(true));
    let (s2, _) = s1.step(UiEvent::KeyReleased('2'));
    assert_eq!(s2.quirks, all(false));
    let (s3, _) = s2.step(UiEvent::KeyReleased('3'));
    assert!(s3.quirks.quirk_8xy6 && !s3.quirks.quirk_8xye);
    let (s4, _) = s3.step(UiEvent::KeyReleased('4'));
    let (s5, _) = s4.step(UiEvent::KeyReleased('5'));
    let (s6, _) = s5.step(UiEvent::KeyReleased('6'));
    assert_eq!(s6.quirks, all(true));
    let (s7, _) = s6.step(UiEvent::KeyReleased('6'));
    assert!(!s7.quirks.quirk_fx65);
    let (s8, a) = s7.step(UiEvent::KeyReleased('7'));
    assert_eq!(s8.screen, Screen::Menu);
    assert_eq!(a, UiAction::QuirksChanged);
    let (s9, a) = s.step(UiEvent::KeyReleased('9'));
    assert_eq!((s9, a), (s, UiAction::QuirksChanged));
}

#[test]
fn playing_forwards_keypad_keys() {
    let s = UiState { screen: Screen::Playing, quirks: all(true), rom_loaded: true };
    assert_eq!(s.step(UiEvent::KeyPressed('W')), (s, UiAction::PressKey(5)));
    assert_eq!(s.step(UiEvent::KeyReleased('W')), (s, UiAction::ReleaseKey(5)));
    assert_eq!(s.step(UiEvent::KeyPressed('P')), (s, UiAction::Continue));
    assert_eq!(s.step(UiEvent::KeyReleased('1')), (s, UiAction::ReleaseKey(1)));
}
