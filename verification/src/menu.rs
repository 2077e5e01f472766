use vstd::prelude::*;
use vstd::string::StringExecFns;

use crate::keypad::keypad_of;

verus! {

/// Label of an on/off option in the settings menu.
pub fn get_bool_option_text(state: bool) -> (text: &'static str)
    ensures
        text@ == on_off(state),
{
    proof {
        reveal_strlit("ON");
        reveal_strlit("OFF");
    }
    if state { "ON" } else { "OFF" }
}

/// "ON" or "OFF".
pub open spec fn on_off(state: bool) -> Seq<char> {
    if state { seq!['O', 'N'] } else { seq!['O', 'F', 'F'] }
}

/// The four instruction quirks; each on means the Cowgod behaviour.
#[derive(Clone, Copy, Debug, PartialEq, Eq, Structural)]
pub struct Quirks {
    pub quirk_8xy6: bool,
    pub quirk_8xye: bool,
    pub quirk_fx55: bool,
    pub quirk_fx65: bool,
}

/// Which screen the front end shows.
#[derive(Clone, Copy, Debug, PartialEq, Eq, Structural)]
pub enum Screen {
    Menu,
    Options,
    Error,
    Playing,
}

/// The front end's state: the screen, the quirk settings and whether a ROM
/// has been loaded into the machine.
#[derive(Clone, Copy, Debug, PartialEq, Eq, Structural)]
pub struct UiState {
    pub screen: Screen,
    pub quirks: Quirks,
    pub rom_loaded: bool,
}

/// What happened: a window close, a release of Escape, a press or release of
/// the key with the given single-character name, or the outcome of the ROM
/// picker.
#[derive(Clone, Copy, Debug, PartialEq, Eq, Structural)]
pub enum UiEvent {
    Quit,
    EscapeReleased,
    KeyPressed(char),
    KeyReleased(char),
    RomLoaded,
    RomFailed,
}

/// What the front end must do next.
#[derive(Clone, Copy, Debug, PartialEq, Eq, Structural)]
pub enum UiAction {
    /// Nothing beyond drawing the current screen.
    Continue,
    /// Leave the program.
    Exit,
    /// Press the keypad key.
    PressKey(usize),
    /// Release the keypad key.
    ReleaseKey(usize),
    /// Ask the user for a ROM file and report the outcome.
    PickRom,
    /// Apply the (possibly changed) quirk settings and redraw the options.
    QuirksChanged,
}

/// The quirk settings after a key release on the options screen.
pub open spec fn options_quirks(q: Quirks, c: char) -> Quirks {
    if c == '1' {
        Quirks { quirk_8xy6: true, quirk_8xye: true, quirk_fx55: true, quirk_fx65: true }
    } else if c == '2' {
        Quirks { quirk_8xy6: false, quirk_8xye: false, quirk_fx55: false, quirk_fx65: false }
    } else if c == '3' {
        Quirks { quirk_8xy6: !q.quirk_8xy6, ..q }
    } else if c == '4' {
        Quirks { quirk_8xye: !q.quirk_8xye, ..q }
    } else if c == '5' {
        Quirks { quirk_fx55: !q.quirk_fx55, ..q }
    } else if c == '6' {
        Quirks { quirk_fx65: !q.quirk_fx65, ..q }
    } else {
        q
    }
}

/// The front end's transition for one event: the next state and the action.
///
/// - Closing the window or releasing Escape exits from any screen.
/// - While playing, keypad keys are pressed and released on the machine.
/// - Menu: 1 plays (asking for a ROM first if none is loaded), 2 opens the
///   options, 3 exits.
/// - Options: 1 turns every quirk on, 2 every quirk off, 3 to 6 toggle one
///   quirk each, 7 goes back; every key release re-applies the settings.
/// - Error: 1 goes back to the menu.
/// - A loaded ROM starts play; a failed pick shows the error screen.
pub open spec fn ui_next(s: UiState, e: UiEvent) -> (UiState, UiAction) {
    match e {
        UiEvent::Quit => (s, UiAction::Exit),
        UiEvent::EscapeReleased => (s, UiAction::Exit),
        UiEvent::KeyPressed(c) => {
            if s.screen == Screen::Playing && keypad_of(c) is Some {
                (s, UiAction::PressKey(keypad_of(c)->0))
            } else {
                (s, UiAction::Continue)
            }
        },
        UiEvent::KeyReleased(c) => {
            match s.screen {
                Screen::Playing => {
                    if keypad_of(c) is Some {
                        (s, UiAction::ReleaseKey(keypad_of(c)->0))
                    } else {
                        (s, UiAction::Continue)
                    }
                },
                Screen::Menu => {
                    if c == '1' {
                        if s.rom_loaded {
                            (UiState { screen: Screen::Playing, ..s }, UiAction::Continue)
                        } else {
                            (s, UiAction::PickRom)
                        }
                    } else if c == '2' {
                        (UiState { screen: Screen::Options, ..s }, UiAction::Continue)
                    } else if c == '3' {
                        (s, UiAction::Exit)
                    } else {
                        (s, UiAction::Continue)
                    }
                },
                Screen::Options => {
                    let screen = if c == '7' { Screen::Menu } else { Screen::Options };
                    (UiState { screen, quirks: options_quirks(s.quirks, c), ..s }, UiAction::QuirksChanged)
                },
                Screen::Error => {
                    if c == '1' {
                        (UiState { screen: Screen::Menu, ..s }, UiAction::Continue)
                    } else {
                        (s, UiAction::Continue)
                    }
                },
            }
        },
        UiEvent::RomLoaded => (UiState { screen: Screen::Playing, rom_loaded: true, ..s }, UiAction::Continue),
        UiEvent::RomFailed => (UiState { screen: Screen::Error, ..s }, UiAction::Continue),
    }
}

impl UiState {
    /// The start-up state: the main menu.
    pub fn new(quirks: Quirks, rom_loaded: bool) -> (s: Self)
        ensures
            s == (UiState { screen: Screen::Menu, quirks, rom_loaded }),
    {
        UiState { screen: Screen::Menu, quirks, rom_loaded }
    }

    /// Handles one event; returns the next state and what to do.
    pub fn step(self, e: UiEvent) -> (r: (UiState, UiAction))
        ensures
            r == ui_next(self, e),
    {
        match e {
            UiEvent::Quit | UiEvent::EscapeReleased => (self, UiAction::Exit),
            UiEvent::KeyPressed(c) => {
                match self.screen {
                    Screen::Playing => match key_char(c) {
                        Some(k) => (self, UiAction::PressKey(k)),
                        None => (self, UiAction::Continue),
                    },
                    _ => (self, UiAction::Continue),
                }
            },
            UiEvent::KeyReleased(c) => {
                match self.screen {
                    Screen::Playing => match key_char(c) {
                        Some(k) => (self, UiAction::ReleaseKey(k)),
                        None => (self, UiAction::Continue),
                    },
                    Screen::Menu => match c {
                        '1' => {
                            // Ask for a ROM unless one is already loaded
                            if self.rom_loaded {
                                (UiState { screen: Screen::Playing, ..self }, UiAction::Continue)
                            } else {
                                (self, UiAction::PickRom)
                            }
                        },
                        '2' => (UiState { screen: Screen::Options, ..self }, UiAction::Continue),
                        '3' => (self, UiAction::Exit),
                        _ => (self, UiAction::Continue),
                    },
                    Screen::Options => {
                        let mut q = self.quirks;
                        let mut screen = Screen::Options;
                        match c {
                            '1' => {
                                q = Quirks { quirk_8xy6: true, quirk_8xye: true, quirk_fx55: true, quirk_fx65: true };
                            },
                            '2' => {
                                q = Quirks { quirk_8xy6: false, quirk_8xye: false, quirk_fx55: false, quirk_fx65: false };
                            },
                            '3' => {
                                q.quirk_8xy6 = !q.quirk_8xy6;
                            },
                            '4' => {
                                q.quirk_8xye = !q.quirk_8xye;
                            },
                            '5' => {
                                q.quirk_fx55 = !q.quirk_fx55;
                            },
                            '6' => {
                                q.quirk_fx65 = !q.quirk_fx65;
                            },
                            '7' => {
                                screen = Screen::Menu;
                            },
                            _ => {},
                        }
                        (UiState { screen, quirks: q, ..self }, UiAction::QuirksChanged)
                    },
                    Screen::Error => match c {
                        '1' => (UiState { screen: Screen::Menu, ..self }, UiAction::Continue),
                        _ => (self, UiAction::Continue),
                    },
                }
            },
            UiEvent::RomLoaded => (UiState { screen: Screen::Playing, rom_loaded: true, ..self }, UiAction::Continue),
            UiEvent::RomFailed => (UiState { screen: Screen::Error, ..self }, UiAction::Continue),
        }
    }
}

/// The keypad key of a key given by its character.
fn key_char(c: char) -> (r: Option<usize>)
    ensures
        r == keypad_of(c),
{
    crate::keypad::key_to_keypad(c)
}

/// The text of the options screen for the given settings.
pub fn options_text(q: Quirks) -> (text: String)
    ensures
        text@ == "Options\n1. Toggle Quirks ON\n2. Toggle Quirks OFF\n3. quirk_8xy6 "@ + on_off(q.quirk_8xy6)
            + "\n4. quirk_8xye "@ + on_off(q.quirk_8xye) + "\n5. quirk_fx55 "@ + on_off(q.quirk_fx55)
            + "\n6. quirk_fx65 "@ + on_off(q.quirk_fx65) + "\n7. Back"@,
{
    let mut text = String::from_str("Options\n1. Toggle Quirks ON\n2. Toggle Quirks OFF\n3. quirk_8xy6 ");
    text.append(get_bool_option_text(q.quirk_8xy6));
    text.append("\n4. quirk_8xye ");
    text.append(get_bool_option_text(q.quirk_8xye));
    text.append("\n5. quirk_fx55 ");
    text.append(get_bool_option_text(q.quirk_fx55));
    text.append("\n6. quirk_fx65 ");
    text.append(get_bool_option_text(q.quirk_fx65));
    text.append("\n7. Back");
    text
}

/// Closing the window or releasing Escape exits from every screen, leaving
/// the state as it is.
pub proof fn law_exit_from_anywhere(s: UiState)
    ensures
        ui_next(s, UiEvent::Quit) == (s, UiAction::Exit),
        ui_next(s, UiEvent::EscapeReleased) == (s, UiAction::Exit),
{
}

/// Once playing, key events only press and release keypad keys: the front
/// end never leaves the game screen and never changes its settings.
pub proof fn law_playing_stays(s: UiState, c: char)
    requires
        s.screen == Screen::Playing,
    ensures
        ui_next(s, UiEvent::KeyPressed(c)).0 == s,
        ui_next(s, UiEvent::KeyReleased(c)).0 == s,
        keypad_of(c) is Some ==> ui_next(s, UiEvent::KeyPressed(c)).1 == UiAction::PressKey(keypad_of(c)->0),
        keypad_of(c) is Some ==> ui_next(s, UiEvent::KeyReleased(c)).1 == UiAction::ReleaseKey(keypad_of(c)->0),
{
}

/// Choosing Play asks for a ROM only when none is loaded, and starts the game
/// directly otherwise.
pub proof fn law_play_asks_for_rom_once(s: UiState)
    requires
        s.screen == Screen::Menu,
    ensures
        s.rom_loaded ==> ui_next(s, UiEvent::KeyReleased('1')).0.screen == Screen::Playing,
        !s.rom_loaded ==> ui_next(s, UiEvent::KeyReleased('1')) == (s, UiAction::PickRom),
        ui_next(s, UiEvent::RomLoaded).0.rom_loaded,
        ui_next(s, UiEvent::RomLoaded).0.screen == Screen::Playing,
{
}

/// The options screen: releasing 1 turns every quirk on and 2 every quirk
/// off; 3, 4, 5 and 6 toggle the quirk that the options text lists on that
/// line (8XY6, 8XYE, FX55, FX65) and leave the other three alone; 7 goes back
/// to the menu with the settings unchanged; any other key changes nothing.
/// Every key release asks for the settings to be applied.
pub proof fn law_options_keys(s: UiState, c: char)
    requires
        s.screen == Screen::Options,
    ensures
        ({
            let q = s.quirks;
            let next = |k: char| ui_next(s, UiEvent::KeyReleased(k));
            let with = |q2: Quirks| (UiState { quirks: q2, ..s }, UiAction::QuirksChanged);
            &&& next('1') == with(Quirks { quirk_8xy6: true, quirk_8xye: true, quirk_fx55: true, quirk_fx65: true })
            &&& next('2') == with(Quirks { quirk_8xy6: false, quirk_8xye: false, quirk_fx55: false, quirk_fx65: false })
            &&& next('3') == with(Quirks { quirk_8xy6: !q.quirk_8xy6, quirk_8xye: q.quirk_8xye, quirk_fx55: q.quirk_fx55, quirk_fx65: q.quirk_fx65 })
            &&& next('4') == with(Quirks { quirk_8xy6: q.quirk_8xy6, quirk_8xye: !q.quirk_8xye, quirk_fx55: q.quirk_fx55, quirk_fx65: q.quirk_fx65 })
            &&& next('5') == with(Quirks { quirk_8xy6: q.quirk_8xy6, quirk_8xye: q.quirk_8xye, quirk_fx55: !q.quirk_fx55, quirk_fx65: q.quirk_fx65 })
            &&& next('6') == with(Quirks { quirk_8xy6: q.quirk_8xy6, quirk_8xye: q.quirk_8xye, quirk_fx55: q.quirk_fx55, quirk_fx65: !q.quirk_fx65 })
            &&& next('7') == (UiState { screen: Screen::Menu, ..s }, UiAction::QuirksChanged)
            &&& !('1' <= c <= '7') ==> next(c) == (s, UiAction::QuirksChanged)
            &&& ui_next(s, UiEvent::KeyPressed(c)) == (s, UiAction::Continue)
        }),
{
}

/// The menu: 1 plays (see `law_play_asks_for_rom_once`), 2 opens the options,
/// 3 exits, any other key release and any key press change nothing.
pub proof fn law_menu_keys(s: UiState, c: char)
    requires
        s.screen == Screen::Menu,
    ensures
        ui_next(s, UiEvent::KeyReleased('2')) == (UiState { screen: Screen::Options, ..s }, UiAction::Continue),
        ui_next(s, UiEvent::KeyReleased('3')) == (s, UiAction::Exit),
        s.rom_loaded ==> ui_next(s, UiEvent::KeyReleased('1')) == (UiState { screen: Screen::Playing, ..s }, UiAction::Continue),
        c != '1' && c != '2' && c != '3' ==> ui_next(s, UiEvent::KeyReleased(c)) == (s, UiAction::Continue),
        ui_next(s, UiEvent::KeyPressed(c)) == (s, UiAction::Continue),
{
}

/// The error screen: 1 goes back to the menu, nothing else changes anything.
pub proof fn law_error_keys(s: UiState, c: char)
    requires
        s.screen == Screen::Error,
    ensures
        ui_next(s, UiEvent::KeyReleased('1')) == (UiState { screen: Screen::Menu, ..s }, UiAction::Continue),
        c != '1' ==> ui_next(s, UiEvent::KeyReleased(c)) == (s, UiAction::Continue),
        ui_next(s, UiEvent::KeyPressed(c)) == (s, UiAction::Continue),
{
}

/// The outcome of the ROM picker: a loaded ROM starts play and is remembered;
/// a failure shows the error screen. The quirk settings are kept.
pub proof fn law_rom_outcome(s: UiState)
    ensures
        ui_next(s, UiEvent::RomLoaded) == (UiState { screen: Screen::Playing, rom_loaded: true, quirks: s.quirks }, UiAction::Continue),
        ui_next(s, UiEvent::RomFailed) == (UiState { screen: Screen::Error, rom_loaded: s.rom_loaded, quirks: s.quirks }, UiAction::Continue),
{
}

/// Toggling a single quirk twice restores the settings.
pub proof fn law_toggle_twice(q: Quirks, c: char)
    requires
        c == '3' || c == '4' || c == '5' || c == '6',
    ensures
        options_quirks(options_quirks(q, c), c) == q,
{
}

} // verus!
