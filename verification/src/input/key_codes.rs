//! The code tables of keys, listed key by key, and the laws that tie them
//! to the lookups by code: a code names a key exactly when it is the code
//! listed for that key.

use vstd::prelude::*;

use super::key::{key_of_code, key_of_rank, Key};
use super::virtual_key::{virtual_key_of_code, virtual_key_of_rank, VirtualKeyCode};

verus! {

/// The DOM `KeyboardEvent.code` value that names `key`, if one does,
/// listed key by key.
pub open spec fn code_of_key(key: Key) -> Option<Seq<char>> {
    match key {
        Key::Key1 => Some("Digit1"@),
        Key::Key2 => Some("Digit2"@),
        Key::Key3 => Some("Digit3"@),
        Key::Key4 => Some("Digit4"@),
        Key::Key5 => Some("Digit5"@),
        Key::Key6 => Some("Digit6"@),
        Key::Key7 => Some("Digit7"@),
        Key::Key8 => Some("Digit8"@),
        Key::Key9 => Some("Digit9"@),
        Key::Key0 => Some("Digit0"@),
        Key::A => Some("KeyA"@),
        Key::B => Some("KeyB"@),
        Key::C => Some("KeyC"@),
        Key::D => Some("KeyD"@),
        Key::E => Some("KeyE"@),
        Key::F => Some("KeyF"@),
        Key::G => Some("KeyG"@),
        Key::H => Some("KeyH"@),
        Key::I => Some("KeyI"@),
        Key::J => Some("KeyJ"@),
        Key::K => Some("KeyK"@),
        Key::L => Some("KeyL"@),
        Key::M => Some("KeyM"@),
        Key::N => Some("KeyN"@),
        Key::O => Some("KeyO"@),
        Key::P => Some("KeyP"@),
        Key::Q => Some("KeyQ"@),
        Key::R => Some("KeyR"@),
        Key::S => Some("KeyS"@),
        Key::T => Some("KeyT"@),
        Key::U => Some("KeyU"@),
        Key::V => Some("KeyV"@),
        Key::W => Some("KeyW"@),
        Key::X => Some("KeyX"@),
        Key::Y => Some("KeyY"@),
        Key::Z => Some("KeyZ"@),
        Key::Escape => Some("Escape"@),
        Key::F1 => Some("F1"@),
        Key::F2 => Some("F2"@),
        Key::F3 => Some("F3"@),
        Key::F4 => Some("F4"@),
        Key::F5 => Some("F5"@),
        Key::F6 => Some("F6"@),
        Key::F7 => Some("F7"@),
        Key::F8 => Some("F8"@),
        Key::F9 => Some("F9"@),
        Key::F10 => Some("F10"@),
        Key::F11 => Some("F11"@),
        Key::F12 => Some("F12"@),
        Key::F13 => Some("F13"@),
        Key::F14 => Some("F14"@),
        Key::F15 => Some("F15"@),
        Key::F16 => Some("F16"@),
        Key::F17 => Some("F17"@),
        Key::F18 => Some("F18"@),
        Key::F19 => Some("F19"@),
        Key::F20 => Some("F20"@),
        Key::F21 => Some("F21"@),
        Key::F22 => Some("F22"@),
        Key::F23 => Some("F23"@),
        Key::F24 => Some("F24"@),
        Key::Snapshot => Some("PrintScreen"@),
        Key::Scroll => Some("ScrollLock"@),
        Key::Pause => Some("Pause"@),
        Key::Insert => Some("Insert"@),
        Key::Home => Some("Home"@),
        Key::Delete => Some("Delete"@),
        Key::End => Some("End"@),
        Key::PageDown => Some("PageDown"@),
        Key::PageUp => Some("PageUp"@),
        Key::Left => Some("ArrowLeft"@),
        Key::Up => Some("ArrowUp"@),
        Key::Right => Some("ArrowRight"@),
        Key::Down => Some("ArrowDown"@),
        Key::Backspace => Some("Backspace"@),
        Key::Return => Some("Enter"@),
        Key::Space => Some("Space"@),
        Key::Compose => Some("Compose"@),
        Key::Caret => Some("Caret"@),
        Key::Numlock => Some("NumLock"@),
        Key::Numpad0 => Some("Numpad0"@),
        Key::Numpad1 => Some("Numpad1"@),
        Key::Numpad2 => Some("Numpad2"@),
        Key::Numpad3 => Some("Numpad3"@),
        Key::Numpad4 => Some("Numpad4"@),
        Key::Numpad5 => Some("Numpad5"@),
        Key::Numpad6 => Some("Numpad6"@),
        Key::Numpad7 => Some("Numpad7"@),
        Key::Numpad8 => Some("Numpad8"@),
        Key::Numpad9 => Some("Numpad9"@),
        Key::AbntC1 => Some("AbntC1"@),
        Key::AbntC2 => Some("AbntC2"@),
        Key::Add => Some("NumpadAdd"@),
        Key::Apostrophe => Some("Quote"@),
        Key::Apps => Some("Apps"@),
        Key::At => Some("At"@),
        Key::Ax => Some("Ax"@),
        Key::Backslash => Some("Backslash"@),
        Key::Calculator => Some("Calculator"@),
        Key::Capital => Some("Capital"@),
        Key::Colon => None,
        Key::Comma => Some("Comma"@),
        Key::Convert => Some("Convert"@),
        Key::Decimal => Some("NumpadDecimal"@),
        Key::Divide => Some("NumpadDivide"@),
        Key::Equals => Some("Equal"@),
        Key::Grave => Some("Backquote"@),
        Key::Kana => Some("Kana"@),
        Key::Kanji => Some("Kanji"@),
        Key::LAlt => Some("AltLeft"@),
        Key::LBracket => Some("BracketLeft"@),
        Key::LControl => Some("ControlLeft"@),
        Key::LShift => Some("ShiftLeft"@),
        Key::LWin => Some("MetaLeft"@),
        Key::Mail => Some("Mail"@),
        Key::MediaSelect => Some("MediaSelect"@),
        Key::MediaStop => Some("MediaStop"@),
        Key::Minus => Some("Minus"@),
        Key::Multiply => Some("NumpadMultiply"@),
        Key::Mute => Some("Mute"@),
        Key::MyComputer => Some("LaunchMyComputer"@),
        Key::NavigateForward => Some("NavigateForward"@),
        Key::NavigateBackward => Some("NavigateBackward"@),
        Key::NextTrack => Some("NextTrack"@),
        Key::NoConvert => Some("NoConvert"@),
        Key::NumpadComma => Some("NumpadComma"@),
        Key::NumpadEnter => Some("NumpadEnter"@),
        Key::NumpadEquals => Some("NumpadEquals"@),
        Key::OEM102 => Some("OEM102"@),
        Key::Period => Some("Period"@),
        Key::PlayPause => Some("PlayPause"@),
        Key::Power => Some("Power"@),
        Key::PrevTrack => Some("PrevTrack"@),
        Key::RAlt => Some("AltRight"@),
        Key::RBracket => Some("BracketRight"@),
        Key::RControl => Some("ControlRight"@),
        Key::RShift => Some("ShiftRight"@),
        Key::RWin => Some("MetaRight"@),
        Key::Semicolon => Some("Semicolon"@),
        Key::Slash => Some("Slash"@),
        Key::Sleep => Some("Sleep"@),
        Key::Stop => Some("Stop"@),
        Key::Subtract => None,
        Key::Sysrq => Some("Sysrq"@),
        Key::Tab => Some("Tab"@),
        Key::Underline => Some("Underline"@),
        Key::Unlabeled => Some("Unlabeled"@),
        Key::VolumeDown => Some("AudioVolumeDown"@),
        Key::VolumeUp => Some("AudioVolumeUp"@),
        Key::Wake => Some("Wake"@),
        Key::WebBack => Some("WebBack"@),
        Key::WebFavorites => Some("WebFavorites"@),
        Key::WebForward => Some("WebForward"@),
        Key::WebHome => Some("WebHome"@),
        Key::WebRefresh => Some("WebRefresh"@),
        Key::WebSearch => Some("WebSearch"@),
        Key::WebStop => Some("WebStop"@),
        Key::Yen => Some("Yen"@),
        Key::Copy => None,
        Key::Paste => None,
        Key::Cut => None,
    }
}

/// A code that names a key is the code listed for that key.
pub proof fn lemma_key_of_code_is_listed(code: Seq<char>)
    ensures
        key_of_code(code) matches Some(key) ==> code_of_key(key) == Some(code),
{
}

/// The code listed for a key names that key: with the law above, a code
/// names a key exactly when it is the code listed for that key.
pub proof fn lemma_listed_code_names_key(key: Key)
    ensures
        code_of_key(key) matches Some(code) ==> key_of_code(code) == Some(key),
{
    match key {
        Key::F1 => {
            reveal_strlit("F1");
            assert("F1"@[0] == 'F' && "F1"@[1] == '1');
        },
        Key::F2 => {
            reveal_strlit("F1");
            reveal_strlit("F2");
            assert("F2"@[0] == 'F' && "F2"@[1] == '2');
        },
        Key::F3 => {
            reveal_strlit("F1");
            reveal_strlit("F2");
            reveal_strlit("F3");
            assert("F3"@[0] == 'F' && "F3"@[1] == '3');
        },
        Key::F4 => {
            reveal_strlit("F1");
            reveal_strlit("F2");
            reveal_strlit("F3");
            reveal_strlit("F4");
            assert("F4"@[0] == 'F' && "F4"@[1] == '4');
        },
        Key::F5 => {
            reveal_strlit("F1");
            reveal_strlit("F2");
            reveal_strlit("F3");
            reveal_strlit("F4");
            reveal_strlit("F5");
            assert("F5"@[0] == 'F' && "F5"@[1] == '5');
        },
        Key::F6 => {
            reveal_strlit("F1");
            reveal_strlit("F2");
            reveal_strlit("F3");
            reveal_strlit("F4");
            reveal_strlit("F5");
            reveal_strlit("F6");
            assert("F6"@[0] == 'F' && "F6"@[1] == '6');
        },
        Key::F7 => {
            reveal_strlit("F1");
            reveal_strlit("F2");
            reveal_strlit("F3");
            reveal_strlit("F4");
            reveal_strlit("F5");
            reveal_strlit("F6");
            reveal_strlit("F7");
            assert("F7"@[0] == 'F' && "F7"@[1] == '7');
        },
        Key::F8 => {
            reveal_strlit("F1");
            reveal_strlit("F2");
            reveal_strlit("F3");
            reveal_strlit("F4");
            reveal_strlit("F5");
            reveal_strlit("F6");
            reveal_strlit("F7");
            reveal_strlit("F8");
            assert("F8"@[0] == 'F' && "F8"@[1] == '8');
        },
        Key::F9 => {
            reveal_strlit("F1");
            reveal_strlit("F2");
            reveal_strlit("F3");
            reveal_strlit("F4");
            reveal_strlit("F5");
            reveal_strlit("F6");
            reveal_strlit("F7");
            reveal_strlit("F8");
            reveal_strlit("F9");
            assert("F9"@[0] == 'F' && "F9"@[1] == '9');
        },
        Key::At => {
            reveal_strlit("At");
            assert("At"@[0] == 'A' && "At"@[1] == 't');
        },
        Key::Ax => {
            reveal_strlit("At");
            reveal_strlit("Ax");
            assert("Ax"@[0] == 'A' && "Ax"@[1] == 'x');
        },
        Key::F10 => {
            reveal_strlit("F10");
            assert("F10"@[0] == 'F' && "F10"@[1] == '1' && "F10"@[2] == '0');
        },
        Key::F11 => {
            reveal_strlit("F10");
            reveal_strlit("F11");
            assert("F11"@[0] == 'F' && "F11"@[1] == '1' && "F11"@[2] == '1');
        },
        Key::F12 => {
            reveal_strlit("F10");
            reveal_strlit("F11");
            reveal_strlit("F12");
            assert("F12"@[0] == 'F' && "F12"@[1] == '1' && "F12"@[2] == '2');
        },
        Key::F13 => {
            reveal_strlit("F10");
            reveal_strlit("F11");
            reveal_strlit("F12");
            reveal_strlit("F13");
            assert("F13"@[0] == 'F' && "F13"@[1] == '1' && "F13"@[2] == '3');
        },
        Key::F14 => {
            reveal_strlit("F10");
            reveal_strlit("F11");
            reveal_strlit("F12");
            reveal_strlit("F13");
            reveal_strlit("F14");
            assert("F14"@[0] == 'F' && "F14"@[1] == '1' && "F14"@[2] == '4');
        },
        Key::F15 => {
            reveal_strlit("F10");
            reveal_strlit("F11");
            reveal_strlit("F12");
            reveal_strlit("F13");
            reveal_strlit("F14");
            reveal_strlit("F15");
            assert("F15"@[0] == 'F' && "F15"@[1] == '1' && "F15"@[2] == '5');
        },
        Key::F16 => {
            reveal_strlit("F10");
            reveal_strlit("F11");
            reveal_strlit("F12");
            reveal_strlit("F13");
            reveal_strlit("F14");
            reveal_strlit("F15");
            reveal_strlit("F16");
            assert("F16"@[0] == 'F' && "F16"@[1] == '1' && "F16"@[2] == '6');
        },
        Key::F17 => {
            reveal_strlit("F10");
            reveal_strlit("F11");
            reveal_strlit("F12");
            reveal_strlit("F13");
            reveal_strlit("F14");
            reveal_strlit("F15");
            reveal_strlit("F16");
            reveal_strlit("F17");
            assert("F17"@[0] == 'F' && "F17"@[1] == '1' && "F17"@[2] == '7');
        },
        Key::F18 => {
            reveal_strlit("F10");
            reveal_strlit("F11");
            reveal_strlit("F12");
            reveal_strlit("F13");
            reveal_strlit("F14");
            reveal_strlit("F15");
            reveal_strlit("F16");
            reveal_strlit("F17");
            reveal_strlit("F18");
            assert("F18"@[0] == 'F' && "F18"@[1] == '1' && "F18"@[2] == '8');
        },
        Key::F19 => {
            reveal_strlit("F10");
            reveal_strlit("F11");
            reveal_strlit("F12");
            reveal_strlit("F13");
            reveal_strlit("F14");
            reveal_strlit("F15");
            reveal_strlit("F16");
            reveal_strlit("F17");
            reveal_strlit("F18");
            reveal_strlit("F19");
            assert("F19"@[0] == 'F' && "F19"@[1] == '1' && "F19"@[2] == '9');
        },
        Key::F20 => {
            reveal_strlit("F10");
            reveal_strlit("F11");
            reveal_strlit("F12");
            reveal_strlit("F13");
            reveal_strlit("F14");
            reveal_strlit("F15");
            reveal_strlit("F16");
            reveal_strlit("F17");
            reveal_strlit("F18");
            reveal_strlit("F19");
            reveal_strlit("F20");
            assert("F20"@[0] == 'F' && "F20"@[1] == '2' && "F20"@[2] == '0');
        },
        Key::F21 => {
            reveal_strlit("F10");
            reveal_strlit("F11");
            reveal_strlit("F12");
            reveal_strlit("F13");
            reveal_strlit("F14");
            reveal_strlit("F15");
            reveal_strlit("F16");
            reveal_strlit("F17");
            reveal_strlit("F18");
            reveal_strlit("F19");
            reveal_strlit("F20");
            reveal_strlit("F21");
            assert("F21"@[0] == 'F' && "F21"@[1] == '2' && "F21"@[2] == '1');
        },
        Key::F22 => {
            reveal_strlit("F10");
            reveal_strlit("F11");
            reveal_strlit("F12");
            reveal_strlit("F13");
            reveal_strlit("F14");
            reveal_strlit("F15");
            reveal_strlit("F16");
            reveal_strlit("F17");
            reveal_strlit("F18");
            reveal_strlit("F19");
            reveal_strlit("F20");
            reveal_strlit("F21");
            reveal_strlit("F22");
            assert("F22"@[0] == 'F' && "F22"@[1] == '2' && "F22"@[2] == '2');
        },
        Key::F23 => {
            reveal_strlit("F10");
            reveal_strlit("F11");
            reveal_strlit("F12");
            reveal_strlit("F13");
            reveal_strlit("F14");
            reveal_strlit("F15");
            reveal_strlit("F16");
            reveal_strlit("F17");
            reveal_strlit("F18");
            reveal_strlit("F19");
            reveal_strlit("F20");
            reveal_strlit("F21");
            reveal_strlit("F22");
            reveal_strlit("F23");
            assert("F23"@[0] == 'F' && "F23"@[1] == '2' && "F23"@[2] == '3');
        },
        Key::F24 => {
            reveal_strlit("F10");
            reveal_strlit("F11");
            reveal_strlit("F12");
            reveal_strlit("F13");
            reveal_strlit("F14");
            reveal_strlit("F15");
            reveal_strlit("F16");
            reveal_strlit("F17");
            reveal_strlit("F18");
            reveal_strlit("F19");
            reveal_strlit("F20");
            reveal_strlit("F21");
            reveal_strlit("F22");
            reveal_strlit("F23");
            reveal_strlit("F24");
            assert("F24"@[0] == 'F' && "F24"@[1] == '2' && "F24"@[2] == '4');
        },
        Key::End => {
            reveal_strlit("End");
            assert("End"@[0] == 'E' && "End"@[1] == 'n' && "End"@[2] == 'd');
        },
        Key::Tab => {
            reveal_strlit("Tab");
            assert("Tab"@[0] == 'T' && "Tab"@[1] == 'a' && "Tab"@[2] == 'b');
        },
        Key::Yen => {
            reveal_strlit("Yen");
            assert("Yen"@[0] == 'Y' && "Yen"@[1] == 'e' && "Yen"@[2] == 'n');
        },
        Key::A => {
            reveal_strlit("KeyA");
            assert("KeyA"@[0] == 'K' && "KeyA"@[1] == 'e' && "KeyA"@[2] == 'y' && "KeyA"@[3] == 'A');
        },
        Key::B => {
            reveal_strlit("KeyA");
            reveal_strlit("KeyB");
            assert("KeyB"@[0] == 'K' && "KeyB"@[1] == 'e' && "KeyB"@[2] == 'y' && "KeyB"@[3] == 'B');
        },
        Key::C => {
            reveal_strlit("KeyA");
            reveal_strlit("KeyB");
            reveal_strlit("KeyC");
            assert("KeyC"@[0] == 'K' && "KeyC"@[1] == 'e' && "KeyC"@[2] == 'y' && "KeyC"@[3] == 'C');
        },
        Key::D => {
            reveal_strlit("KeyA");
            reveal_strlit("KeyB");
            reveal_strlit("KeyC");
            reveal_strlit("KeyD");
            assert("KeyD"@[0] == 'K' && "KeyD"@[1] == 'e' && "KeyD"@[2] == 'y' && "KeyD"@[3] == 'D');
        },
        Key::E => {
            reveal_strlit("KeyA");
            reveal_strlit("KeyB");
            reveal_strlit("KeyC");
            reveal_strlit("KeyD");
            reveal_strlit("KeyE");
            assert("KeyE"@[0] == 'K' && "KeyE"@[1] == 'e' && "KeyE"@[2] == 'y' && "KeyE"@[3] == 'E');
        },
        Key::F => {
            reveal_strlit("KeyA");
            reveal_strlit("KeyB");
            reveal_strlit("KeyC");
            reveal_strlit("KeyD");
            reveal_strlit("KeyE");
            reveal_strlit("KeyF");
            assert("KeyF"@[0] == 'K' && "KeyF"@[1] == 'e' && "KeyF"@[2] == 'y' && "KeyF"@[3] == 'F');
        },
        Key::G => {
            reveal_strlit("KeyA");
            reveal_strlit("KeyB");
            reveal_strlit("KeyC");
            reveal_strlit("KeyD");
            reveal_strlit("KeyE");
            reveal_strlit("KeyF");
            reveal_strlit("KeyG");
            assert("KeyG"@[0] == 'K' && "KeyG"@[1] == 'e' && "KeyG"@[2] == 'y' && "KeyG"@[3] == 'G');
        },
        Key::H => {
            reveal_strlit("KeyA");
            reveal_strlit("KeyB");
            reveal_strlit("KeyC");
            reveal_strlit("KeyD");
            reveal_strlit("KeyE");
            reveal_strlit("KeyF");
            reveal_strlit("KeyG");
            reveal_strlit("KeyH");
            assert("KeyH"@[0] == 'K' && "KeyH"@[1] == 'e' && "KeyH"@[2] == 'y' && "KeyH"@[3] == 'H');
        },
        Key::I => {
            reveal_strlit("KeyA");
            reveal_strlit("KeyB");
            reveal_strlit("KeyC");
            reveal_strlit("KeyD");
            reveal_strlit("KeyE");
            reveal_strlit("KeyF");
            reveal_strlit("KeyG");
            reveal_strlit("KeyH");
            reveal_strlit("KeyI");
            assert("KeyI"@[0] == 'K' && "KeyI"@[1] == 'e' && "KeyI"@[2] == 'y' && "KeyI"@[3] == 'I');
        },
        Key::J => {
            reveal_strlit("KeyA");
            reveal_strlit("KeyB");
            reveal_strlit("KeyC");
            reveal_strlit("KeyD");
            reveal_strlit("KeyE");
            reveal_strlit("KeyF");
            reveal_strlit("KeyG");
            reveal_strlit("KeyH");
            reveal_strlit("KeyI");
            reveal_strlit("KeyJ");
            assert("KeyJ"@[0] == 'K' && "KeyJ"@[1] == 'e' && "KeyJ"@[2] == 'y' && "KeyJ"@[3] == 'J');
        },
        Key::K => {
            reveal_strlit("KeyA");
            reveal_strlit("KeyB");
            reveal_strlit("KeyC");
            reveal_strlit("KeyD");
            reveal_strlit("KeyE");
            reveal_strlit("KeyF");
            reveal_strlit("KeyG");
            reveal_strlit("KeyH");
            reveal_strlit("KeyI");
            reveal_strlit("KeyJ");
            reveal_strlit("KeyK");
            assert("KeyK"@[0] == 'K' && "KeyK"@[1] == 'e' && "KeyK"@[2] == 'y' && "KeyK"@[3] == 'K');
        },
        Key::L => {
            reveal_strlit("KeyA");
            reveal_strlit("KeyB");
            reveal_strlit("KeyC");
            reveal_strlit("KeyD");
            reveal_strlit("KeyE");
            reveal_strlit("KeyF");
            reveal_strlit("KeyG");
            reveal_strlit("KeyH");
            reveal_strlit("KeyI");
            reveal_strlit("KeyJ");
            reveal_strlit("KeyK");
            reveal_strlit("KeyL");
            assert("KeyL"@[0] == 'K' && "KeyL"@[1] == 'e' && "KeyL"@[2] == 'y' && "KeyL"@[3] == 'L');
        },
        Key::M => {
            reveal_strlit("KeyA");
            reveal_strlit("KeyB");
            reveal_strlit("KeyC");
            reveal_strlit("KeyD");
            reveal_strlit("KeyE");
            reveal_strlit("KeyF");
            reveal_strlit("KeyG");
            reveal_strlit("KeyH");
            reveal_strlit("KeyI");
            reveal_strlit("KeyJ");
            reveal_strlit("KeyK");
            reveal_strlit("KeyL");
            reveal_strlit("KeyM");
            assert("KeyM"@[0] == 'K' && "KeyM"@[1] == 'e' && "KeyM"@[2] == 'y' && "KeyM"@[3] == 'M');
        },
        Key::N => {
            reveal_strlit("KeyA");
            reveal_strlit("KeyB");
            reveal_strlit("KeyC");
            reveal_strlit("KeyD");
            reveal_strlit("KeyE");
            reveal_strlit("KeyF");
            reveal_strlit("KeyG");
            reveal_strlit("KeyH");
            reveal_strlit("KeyI");
            reveal_strlit("KeyJ");
            reveal_strlit("KeyK");
            reveal_strlit("KeyL");
            reveal_strlit("KeyM");
            reveal_strlit("KeyN");
            assert("KeyN"@[0] == 'K' && "KeyN"@[1] == 'e' && "KeyN"@[2] == 'y' && "KeyN"@[3] == 'N');
        },
        Key::O => {
            reveal_strlit("KeyA");
            reveal_strlit("KeyB");
            reveal_strlit("KeyC");
            reveal_strlit("KeyD");
            reveal_strlit("KeyE");
            reveal_strlit("KeyF");
            reveal_strlit("KeyG");
            reveal_strlit("KeyH");
            reveal_strlit("KeyI");
            reveal_strlit("KeyJ");
            reveal_strlit("KeyK");
            reveal_strlit("KeyL");
            reveal_strlit("KeyM");
            reveal_strlit("KeyN");
            reveal_strlit("KeyO");
            assert("KeyO"@[0] == 'K' && "KeyO"@[1] == 'e' && "KeyO"@[2] == 'y' && "KeyO"@[3] == 'O');
        },
        Key::P => {
            reveal_strlit("KeyA");
            reveal_strlit("KeyB");
            reveal_strlit("KeyC");
            reveal_strlit("KeyD");
            reveal_strlit("KeyE");
            reveal_strlit("KeyF");
            reveal_strlit("KeyG");
            reveal_strlit("KeyH");
            reveal_strlit("KeyI");
            reveal_strlit("KeyJ");
            reveal_strlit("KeyK");
            reveal_strlit("KeyL");
            reveal_strlit("KeyM");
            reveal_strlit("KeyN");
            reveal_strlit("KeyO");
            reveal_strlit("KeyP");
            assert("KeyP"@[0] == 'K' && "KeyP"@[1] == 'e' && "KeyP"@[2] == 'y' && "KeyP"@[3] == 'P');
        },
        Key::Q => {
            reveal_strlit("KeyA");
            reveal_strlit("KeyB");
            reveal_strlit("KeyC");
            reveal_strlit("KeyD");
            reveal_strlit("KeyE");
            reveal_strlit("KeyF");
            reveal_strlit("KeyG");
            reveal_strlit("KeyH");
            reveal_strlit("KeyI");
            reveal_strlit("KeyJ");
            reveal_strlit("KeyK");
            reveal_strlit("KeyL");
            reveal_strlit("KeyM");
            reveal_strlit("KeyN");
            reveal_strlit("KeyO");
            reveal_strlit("KeyP");
            reveal_strlit("KeyQ");
            assert("KeyQ"@[0] == 'K' && "KeyQ"@[1] == 'e' && "KeyQ"@[2] == 'y' && "KeyQ"@[3] == 'Q');
        },
        Key::R => {
            reveal_strlit("KeyA");
            reveal_strlit("KeyB");
            reveal_strlit("KeyC");
            reveal_strlit("KeyD");
            reveal_strlit("KeyE");
            reveal_strlit("KeyF");
            reveal_strlit("KeyG");
            reveal_strlit("KeyH");
            reveal_strlit("KeyI");
            reveal_strlit("KeyJ");
            reveal_strlit("KeyK");
            reveal_strlit("KeyL");
            reveal_strlit("KeyM");
            reveal_strlit("KeyN");
            reveal_strlit("KeyO");
            reveal_strlit("KeyP");
            reveal_strlit("KeyQ");
            reveal_strlit("KeyR");
            assert("KeyR"@[0] == 'K' && "KeyR"@[1] == 'e' && "KeyR"@[2] == 'y' && "KeyR"@[3] == 'R');
        },
        Key::S => {
            reveal_strlit("KeyA");
            reveal_strlit("KeyB");
            reveal_strlit("KeyC");
            reveal_strlit("KeyD");
            reveal_strlit("KeyE");
            reveal_strlit("KeyF");
            reveal_strlit("KeyG");
            reveal_strlit("KeyH");
            reveal_strlit("KeyI");
            reveal_strlit("KeyJ");
            reveal_strlit("KeyK");
            reveal_strlit("KeyL");
            reveal_strlit("KeyM");
            reveal_strlit("KeyN");
            reveal_strlit("KeyO");
            reveal_strlit("KeyP");
            reveal_strlit("KeyQ");
            reveal_strlit("KeyR");
            reveal_strlit("KeyS");
            assert("KeyS"@[0] == 'K' && "KeyS"@[1] == 'e' && "KeyS"@[2] == 'y' && "KeyS"@[3] == 'S');
        },
        Key::T => {
            reveal_strlit("KeyA");
            reveal_strlit("KeyB");
            reveal_strlit("KeyC");
            reveal_strlit("KeyD");
            reveal_strlit("KeyE");
            reveal_strlit("KeyF");
            reveal_strlit("KeyG");
            reveal_strlit("KeyH");
            reveal_strlit("KeyI");
            reveal_strlit("KeyJ");
            reveal_strlit("KeyK");
            reveal_strlit("KeyL");
            reveal_strlit("KeyM");
            reveal_strlit("KeyN");
            reveal_strlit("KeyO");
            reveal_strlit("KeyP");
            reveal_strlit("KeyQ");
            reveal_strlit("KeyR");
            reveal_strlit("KeyS");
            reveal_strlit("KeyT");
            assert("KeyT"@[0] == 'K' && "KeyT"@[1] == 'e' && "KeyT"@[2] == 'y' && "KeyT"@[3] == 'T');
        },
        Key::U => {
            reveal_strlit("KeyA");
            reveal_strlit("KeyB");
            reveal_strlit("KeyC");
            reveal_strlit("KeyD");
            reveal_strlit("KeyE");
            reveal_strlit("KeyF");
            reveal_strlit("KeyG");
            reveal_strlit("KeyH");
            reveal_strlit("KeyI");
            reveal_strlit("KeyJ");
            reveal_strlit("KeyK");
            reveal_strlit("KeyL");
            reveal_strlit("KeyM");
            reveal_strlit("KeyN");
            reveal_strlit("KeyO");
            reveal_strlit("KeyP");
            reveal_strlit("KeyQ");
            reveal_strlit("KeyR");
            reveal_strlit("KeyS");
            reveal_strlit("KeyT");
            reveal_strlit("KeyU");
            assert("KeyU"@[0] == 'K' && "KeyU"@[1] == 'e' && "KeyU"@[2] == 'y' && "KeyU"@[3] == 'U');
        },
        Key::V => {
            reveal_strlit("KeyA");
            reveal_strlit("KeyB");
            reveal_strlit("KeyC");
            reveal_strlit("KeyD");
            reveal_strlit("KeyE");
            reveal_strlit("KeyF");
            reveal_strlit("KeyG");
            reveal_strlit("KeyH");
            reveal_strlit("KeyI");
            reveal_strlit("KeyJ");
            reveal_strlit("KeyK");
            reveal_strlit("KeyL");
            reveal_strlit("KeyM");
            reveal_strlit("KeyN");
            reveal_strlit("KeyO");
            reveal_strlit("KeyP");
            reveal_strlit("KeyQ");
            reveal_strlit("KeyR");
            reveal_strlit("KeyS");
            reveal_strlit("KeyT");
            reveal_strlit("KeyU");
            reveal_strlit("KeyV");
            assert("KeyV"@[0] == 'K' && "KeyV"@[1] == 'e' && "KeyV"@[2] == 'y' && "KeyV"@[3] == 'V');
        },
        Key::W => {
            reveal_strlit("KeyA");
            reveal_strlit("KeyB");
            reveal_strlit("KeyC");
            reveal_strlit("KeyD");
            reveal_strlit("KeyE");
            reveal_strlit("KeyF");
            reveal_strlit("KeyG");
            reveal_strlit("KeyH");
            reveal_strlit("KeyI");
            reveal_strlit("KeyJ");
            reveal_strlit("KeyK");
            reveal_strlit("KeyL");
            reveal_strlit("KeyM");
            reveal_strlit("KeyN");
            reveal_strlit("KeyO");
            reveal_strlit("KeyP");
            reveal_strlit("KeyQ");
            reveal_strlit("KeyR");
            reveal_strlit("KeyS");
            reveal_strlit("KeyT");
            reveal_strlit("KeyU");
            reveal_strlit("KeyV");
            reveal_strlit("KeyW");
            assert("KeyW"@[0] == 'K' && "KeyW"@[1] == 'e' && "KeyW"@[2] == 'y' && "KeyW"@[3] == 'W');
        },
        Key::X => {
            reveal_strlit("KeyA");
            reveal_strlit("KeyB");
            reveal_strlit("KeyC");
            reveal_strlit("KeyD");
            reveal_strlit("KeyE");
            reveal_strlit("KeyF");
            reveal_strlit("KeyG");
            reveal_strlit("KeyH");
            reveal_strlit("KeyI");
            reveal_strlit("KeyJ");
            reveal_strlit("KeyK");
            reveal_strlit("KeyL");
            reveal_strlit("KeyM");
            reveal_strlit("KeyN");
            reveal_strlit("KeyO");
            reveal_strlit("KeyP");
            reveal_strlit("KeyQ");
            reveal_strlit("KeyR");
            reveal_strlit("KeyS");
            reveal_strlit("KeyT");
            reveal_strlit("KeyU");
            reveal_strlit("KeyV");
            reveal_strlit("KeyW");
            reveal_strlit("KeyX");
            assert("KeyX"@[0] == 'K' && "KeyX"@[1] == 'e' && "KeyX"@[2] == 'y' && "KeyX"@[3] == 'X');
        },
        Key::Y => {
            reveal_strlit("KeyA");
            reveal_strlit("KeyB");
            reveal_strlit("KeyC");
            reveal_strlit("KeyD");
            reveal_strlit("KeyE");
            reveal_strlit("KeyF");
            reveal_strlit("KeyG");
            reveal_strlit("KeyH");
            reveal_strlit("KeyI");
            reveal_strlit("KeyJ");
            reveal_strlit("KeyK");
            reveal_strlit("KeyL");
            reveal_strlit("KeyM");
            reveal_strlit("KeyN");
            reveal_strlit("KeyO");
            reveal_strlit("KeyP");
            reveal_strlit("KeyQ");
            reveal_strlit("KeyR");
            reveal_strlit("KeyS");
            reveal_strlit("KeyT");
            reveal_strlit("KeyU");
            reveal_strlit("KeyV");
            reveal_strlit("KeyW");
            reveal_strlit("KeyX");
            reveal_strlit("KeyY");
            assert("KeyY"@[0] == 'K' && "KeyY"@[1] == 'e' && "KeyY"@[2] == 'y' && "KeyY"@[3] == 'Y');
        },
        Key::Z => {
            reveal_strlit("KeyA");
            reveal_strlit("KeyB");
            reveal_strlit("KeyC");
            reveal_strlit("KeyD");
            reveal_strlit("KeyE");
            reveal_strlit("KeyF");
            reveal_strlit("KeyG");
            reveal_strlit("KeyH");
            reveal_strlit("KeyI");
            reveal_strlit("KeyJ");
            reveal_strlit("KeyK");
            reveal_strlit("KeyL");
            reveal_strlit("KeyM");
            reveal_strlit("KeyN");
            reveal_strlit("KeyO");
            reveal_strlit("KeyP");
            reveal_strlit("KeyQ");
            reveal_strlit("KeyR");
            reveal_strlit("KeyS");
            reveal_strlit("KeyT");
            reveal_strlit("KeyU");
            reveal_strlit("KeyV");
            reveal_strlit("KeyW");
            reveal_strlit("KeyX");
            reveal_strlit("KeyY");
            reveal_strlit("KeyZ");
            assert("KeyZ"@[0] == 'K' && "KeyZ"@[1] == 'e' && "KeyZ"@[2] == 'y' && "KeyZ"@[3] == 'Z');
        },
        Key::Kana => {
            reveal_strlit("KeyA");
            reveal_strlit("KeyB");
            reveal_strlit("KeyC");
            reveal_strlit("KeyD");
            reveal_strlit("KeyE");
            reveal_strlit("KeyF");
            reveal_strlit("KeyG");
            reveal_strlit("KeyH");
            reveal_strlit("KeyI");
            reveal_strlit("KeyJ");
            reveal_strlit("KeyK");
            reveal_strlit("KeyL");
            reveal_strlit("KeyM");
            reveal_strlit("KeyN");
            reveal_strlit("KeyO");
            reveal_strlit("KeyP");
            reveal_strlit("KeyQ");
            reveal_strlit("KeyR");
            reveal_strlit("KeyS");
            reveal_strlit("KeyT");
            reveal_strlit("KeyU");
            reveal_strlit("KeyV");
            reveal_strlit("KeyW");
            reveal_strlit("KeyX");
            reveal_strlit("KeyY");
            reveal_strlit("KeyZ");
            reveal_strlit("Kana");
            assert("Kana"@[0] == 'K' && "Kana"@[1] == 'a' && "Kana"@[2] == 'n' && "Kana"@[3] == 'a');
        },
        Key::Home => {
            reveal_strlit("Home");
            assert("Home"@[0] == 'H' && "Home"@[1] == 'o' && "Home"@[2] == 'm' && "Home"@[3] == 'e');
        },
        Key::Apps => {
            reveal_strlit("Apps");
            assert("Apps"@[0] == 'A' && "Apps"@[1] == 'p' && "Apps"@[2] == 'p' && "Apps"@[3] == 's');
        },
        Key::Mail => {
            reveal_strlit("Mail");
            assert("Mail"@[0] == 'M' && "Mail"@[1] == 'a' && "Mail"@[2] == 'i' && "Mail"@[3] == 'l');
        },
        Key::Mute => {
            reveal_strlit("Mail");
            reveal_strlit("Mute");
            assert("Mute"@[0] == 'M' && "Mute"@[1] == 'u' && "Mute"@[2] == 't' && "Mute"@[3] == 'e');
        },
        Key::Stop => {
            reveal_strlit("Stop");
            assert("Stop"@[0] == 'S' && "Stop"@[1] == 't' && "Stop"@[2] == 'o' && "Stop"@[3] == 'p');
        },
        Key::Wake => {
            reveal_strlit("Wake");
            assert("Wake"@[0] == 'W' && "Wake"@[1] == 'a' && "Wake"@[2] == 'k' && "Wake"@[3] == 'e');
        },
        Key::Pause => {
            reveal_strlit("Pause");
            assert("Pause"@[0] == 'P' && "Pause"@[1] == 'a' && "Pause"@[2] == 'u' && "Pause"@[3] == 's' && "Pause"@[4] == 'e');
        },
        Key::Power => {
            reveal_strlit("Pause");
            reveal_strlit("Power");
            assert("Power"@[0] == 'P' && "Power"@[1] == 'o' && "Power"@[2] == 'w' && "Power"@[3] == 'e' && "Power"@[4] == 'r');
        },
        Key::Return => {
            reveal_strlit("Enter");
            assert("Enter"@[0] == 'E' && "Enter"@[1] == 'n' && "Enter"@[2] == 't' && "Enter"@[3] == 'e' && "Enter"@[4] == 'r');
        },
        Key::Equals => {
            reveal_strlit("Enter");
            reveal_strlit("Equal");
            assert("Equal"@[0] == 'E' && "Equal"@[1] == 'q' && "Equal"@[2] == 'u' && "Equal"@[3] == 'a' && "Equal"@[4] == 'l');
        },
        Key::Space => {
            reveal_strlit("Space");
            assert("Space"@[0] == 'S' && "Space"@[1] == 'p' && "Space"@[2] == 'a' && "Space"@[3] == 'c' && "Space"@[4] == 'e');
        },
        Key::Slash => {
            reveal_strlit("Space");
            reveal_strlit("Slash");
            assert("Slash"@[0] == 'S' && "Slash"@[1] == 'l' && "Slash"@[2] == 'a' && "Slash"@[3] == 's' && "Slash"@[4] == 'h');
        },
        Key::Sleep => {
            reveal_strlit("Space");
            reveal_strlit("Slash");
            reveal_strlit("Sleep");
            assert("Sleep"@[0] == 'S' && "Sleep"@[1] == 'l' && "Sleep"@[2] == 'e' && "Sleep"@[3] == 'e' && "Sleep"@[4] == 'p');
        },
        Key::Sysrq => {
            reveal_strlit("Space");
            reveal_strlit("Slash");
            reveal_strlit("Sleep");
            reveal_strlit("Sysrq");
            assert("Sysrq"@[0] == 'S' && "Sysrq"@[1] == 'y' && "Sysrq"@[2] == 's' && "Sysrq"@[3] == 'r' && "Sysrq"@[4] == 'q');
        },
        Key::Caret => {
            reveal_strlit("Caret");
            assert("Caret"@[0] == 'C' && "Caret"@[1] == 'a' && "Caret"@[2] == 'r' && "Caret"@[3] == 'e' && "Caret"@[4] == 't');
        },
        Key::Comma => {
            reveal_strlit("Caret");
            reveal_strlit("Comma");
            assert("Comma"@[0] == 'C' && "Comma"@[1] == 'o' && "Comma"@[2] == 'm' && "Comma"@[3] == 'm' && "Comma"@[4] == 'a');
        },
        Key::Apostrophe => {
            reveal_strlit("Quote");
            assert("Quote"@[0] == 'Q' && "Quote"@[1] == 'u' && "Quote"@[2] == 'o' && "Quote"@[3] == 't' && "Quote"@[4] == 'e');
        },
        Key::Kanji => {
            reveal_strlit("Kanji");
            assert("Kanji"@[0] == 'K' && "Kanji"@[1] == 'a' && "Kanji"@[2] == 'n' && "Kanji"@[3] == 'j' && "Kanji"@[4] == 'i');
        },
        Key::Minus => {
            reveal_strlit("Minus");
            assert("Minus"@[0] == 'M' && "Minus"@[1] == 'i' && "Minus"@[2] == 'n' && "Minus"@[3] == 'u' && "Minus"@[4] == 's');
        },
        Key::Key1 => {
            reveal_strlit("Digit1");
            assert("Digit1"@[0] == 'D' && "Digit1"@[1] == 'i' && "Digit1"@[2] == 'g' && "Digit1"@[3] == 'i' && "Digit1"@[4] == 't' && "Digit1"@[5] == '1');
        },
        Key::Key2 => {
            reveal_strlit("Digit1");
            reveal_strlit("Digit2");
            assert("Digit2"@[0] == 'D' && "Digit2"@[1] == 'i' && "Digit2"@[2] == 'g' && "Digit2"@[3] == 'i' && "Digit2"@[4] == 't' && "Digit2"@[5] == '2');
        },
        Key::Key3 => {
            reveal_strlit("Digit1");
            reveal_strlit("Digit2");
            reveal_strlit("Digit3");
            assert("Digit3"@[0] == 'D' && "Digit3"@[1] == 'i' && "Digit3"@[2] == 'g' && "Digit3"@[3] == 'i' && "Digit3"@[4] == 't' && "Digit3"@[5] == '3');
        },
        Key::Key4 => {
            reveal_strlit("Digit1");
            reveal_strlit("Digit2");
            reveal_strlit("Digit3");
            reveal_strlit("Digit4");
            assert("Digit4"@[0] == 'D' && "Digit4"@[1] == 'i' && "Digit4"@[2] == 'g' && "Digit4"@[3] == 'i' && "Digit4"@[4] == 't' && "Digit4"@[5] == '4');
        },
        Key::Key5 => {
            reveal_strlit("Digit1");
            reveal_strlit("Digit2");
            reveal_strlit("Digit3");
            reveal_strlit("Digit4");
            reveal_strlit("Digit5");
            assert("Digit5"@[0] == 'D' && "Digit5"@[1] == 'i' && "Digit5"@[2] == 'g' && "Digit5"@[3] == 'i' && "Digit5"@[4] == 't' && "Digit5"@[5] == '5');
        },
        Key::Key6 => {
            reveal_strlit("Digit1");
            reveal_strlit("Digit2");
            reveal_strlit("Digit3");
            reveal_strlit("Digit4");
            reveal_strlit("Digit5");
            reveal_strlit("Digit6");
            assert("Digit6"@[0] == 'D' && "Digit6"@[1] == 'i' && "Digit6"@[2] == 'g' && "Digit6"@[3] == 'i' && "Digit6"@[4] == 't' && "Digit6"@[5] == '6');
        },
        Key::Key7 => {
            reveal_strlit("Digit1");
            reveal_strlit("Digit2");
            reveal_strlit("Digit3");
            reveal_strlit("Digit4");
            reveal_strlit("Digit5");
            reveal_strlit("Digit6");
            reveal_strlit("Digit7");
            assert("Digit7"@[0] == 'D' && "Digit7"@[1] == 'i' && "Digit7"@[2] == 'g' && "Digit7"@[3] == 'i' && "Digit7"@[4] == 't' && "Digit7"@[5] == '7');
        },
        Key::Key8 => {
            reveal_strlit("Digit1");
            reveal_strlit("Digit2");
            reveal_strlit("Digit3");
            reveal_strlit("Digit4");
            reveal_strlit("Digit5");
            reveal_strlit("Digit6");
            reveal_strlit("Digit7");
            reveal_strlit("Digit8");
            assert("Digit8"@[0] == 'D' && "Digit8"@[1] == 'i' && "Digit8"@[2] == 'g' && "Digit8"@[3] == 'i' && "Digit8"@[4] == 't' && "Digit8"@[5] == '8');
        },
        Key::Key9 => {
            reveal_strlit("Digit1");
            reveal_strlit("Digit2");
            reveal_strlit("Digit3");
            reveal_strlit("Digit4");
            reveal_strlit("Digit5");
            reveal_strlit("Digit6");
            reveal_strlit("Digit7");
            reveal_strlit("Digit8");
            reveal_strlit("Digit9");
            assert("Digit9"@[0] == 'D' && "Digit9"@[1] == 'i' && "Digit9"@[2] == 'g' && "Digit9"@[3] == 'i' && "Digit9"@[4] == 't' && "Digit9"@[5] == '9');
        },
        Key::Key0 => {
            reveal_strlit("Digit1");
            reveal_strlit("Digit2");
            reveal_strlit("Digit3");
            reveal_strlit("Digit4");
            reveal_strlit("Digit5");
            reveal_strlit("Digit6");
            reveal_strlit("Digit7");
            reveal_strlit("Digit8");
            reveal_strlit("Digit9");
            reveal_strlit("Digit0");
            assert("Digit0"@[0] == 'D' && "Digit0"@[1] == 'i' && "Digit0"@[2] == 'g' && "Digit0"@[3] == 'i' && "Digit0"@[4] == 't' && "Digit0"@[5] == '0');
        },
        Key::Delete => {
            reveal_strlit("Digit1");
            reveal_strlit("Digit2");
            reveal_strlit("Digit3");
            reveal_strlit("Digit4");
            reveal_strlit("Digit5");
            reveal_strlit("Digit6");
            reveal_strlit("Digit7");
            reveal_strlit("Digit8");
            reveal_strlit("Digit9");
            reveal_strlit("Digit0");
            reveal_strlit("Delete");
            assert("Delete"@[0] == 'D' && "Delete"@[1] == 'e' && "Delete"@[2] == 'l' && "Delete"@[3] == 'e' && "Delete"@[4] == 't' && "Delete"@[5] == 'e');
        },
        Key::Escape => {
            reveal_strlit("Escape");
            assert("Escape"@[0] == 'E' && "Escape"@[1] == 's' && "Escape"@[2] == 'c' && "Escape"@[3] == 'a' && "Escape"@[4] == 'p' && "Escape"@[5] == 'e');
        },
        Key::Insert => {
            reveal_strlit("Insert");
            assert("Insert"@[0] == 'I' && "Insert"@[1] == 'n' && "Insert"@[2] == 's' && "Insert"@[3] == 'e' && "Insert"@[4] == 'r' && "Insert"@[5] == 't');
        },
        Key::PageUp => {
            reveal_strlit("PageUp");
            assert("PageUp"@[0] == 'P' && "PageUp"@[1] == 'a' && "PageUp"@[2] == 'g' && "PageUp"@[3] == 'e' && "PageUp"@[4] == 'U' && "PageUp"@[5] == 'p');
        },
        Key::Period => {
            reveal_strlit("PageUp");
            reveal_strlit("Period");
            assert("Period"@[0] == 'P' && "Period"@[1] == 'e' && "Period"@[2] == 'r' && "Period"@[3] == 'i' && "Period"@[4] == 'o' && "Period"@[5] == 'd');
        },
        Key::AbntC1 => {
            reveal_strlit("AbntC1");
            assert("AbntC1"@[0] == 'A' && "AbntC1"@[1] == 'b' && "AbntC1"@[2] == 'n' && "AbntC1"@[3] == 't' && "AbntC1"@[4] == 'C' && "AbntC1"@[5] == '1');
        },
        Key::AbntC2 => {
            reveal_strlit("AbntC1");
            reveal_strlit("AbntC2");
            assert("AbntC2"@[0] == 'A' && "AbntC2"@[1] == 'b' && "AbntC2"@[2] == 'n' && "AbntC2"@[3] == 't' && "AbntC2"@[4] == 'C' && "AbntC2"@[5] == '2');
        },
        Key::OEM102 => {
            reveal_strlit("OEM102");
            assert("OEM102"@[0] == 'O' && "OEM102"@[1] == 'E' && "OEM102"@[2] == 'M' && "OEM102"@[3] == '1' && "OEM102"@[4] == '0' && "OEM102"@[5] == '2');
        },
        Key::Up => {
            reveal_strlit("ArrowUp");
            assert("ArrowUp"@[0] == 'A' && "ArrowUp"@[1] == 'r' && "ArrowUp"@[2] == 'r' && "ArrowUp"@[3] == 'o' && "ArrowUp"@[4] == 'w' && "ArrowUp"@[5] == 'U' && "ArrowUp"@[6] == 'p');
        },
        Key::LAlt => {
            reveal_strlit("ArrowUp");
            reveal_strlit("AltLeft");
            assert("AltLeft"@[0] == 'A' && "AltLeft"@[1] == 'l' && "AltLeft"@[2] == 't' && "AltLeft"@[3] == 'L' && "AltLeft"@[4] == 'e' && "AltLeft"@[5] == 'f' && "AltLeft"@[6] == 't');
        },
        Key::Compose => {
            reveal_strlit("Compose");
            assert("Compose"@[0] == 'C' && "Compose"@[1] == 'o' && "Compose"@[2] == 'm' && "Compose"@[3] == 'p' && "Compose"@[4] == 'o' && "Compose"@[5] == 's' && "Compose"@[6] == 'e');
        },
        Key::Capital => {
            reveal_strlit("Compose");
            reveal_strlit("Capital");
            assert("Capital"@[0] == 'C' && "Capital"@[1] == 'a' && "Capital"@[2] == 'p' && "Capital"@[3] == 'i' && "Capital"@[4] == 't' && "Capital"@[5] == 'a' && "Capital"@[6] == 'l');
        },
        Key::Convert => {
            reveal_strlit("Compose");
            reveal_strlit("Capital");
            reveal_strlit("Convert");
            assert("Convert"@[0] == 'C' && "Convert"@[1] == 'o' && "Convert"@[2] == 'n' && "Convert"@[3] == 'v' && "Convert"@[4] == 'e' && "Convert"@[5] == 'r' && "Convert"@[6] == 't');
        },
        Key::Numlock => {
            reveal_strlit("NumLock");
            assert("NumLock"@[0] == 'N' && "NumLock"@[1] == 'u' && "NumLock"@[2] == 'm' && "NumLock"@[3] == 'L' && "NumLock"@[4] == 'o' && "NumLock"@[5] == 'c' && "NumLock"@[6] == 'k');
        },
        Key::Numpad0 => {
            reveal_strlit("NumLock");
            reveal_strlit("Numpad0");
            assert("Numpad0"@[0] == 'N' && "Numpad0"@[1] == 'u' && "Numpad0"@[2] == 'm' && "Numpad0"@[3] == 'p' && "Numpad0"@[4] == 'a' && "Numpad0"@[5] == 'd' && "Numpad0"@[6] == '0');
        },
        Key::Numpad1 => {
            reveal_strlit("NumLock");
            reveal_strlit("Numpad0");
            reveal_strlit("Numpad1");
            assert("Numpad1"@[0] == 'N' && "Numpad1"@[1] == 'u' && "Numpad1"@[2] == 'm' && "Numpad1"@[3] == 'p' && "Numpad1"@[4] == 'a' && "Numpad1"@[5] == 'd' && "Numpad1"@[6] == '1');
        },
        Key::Numpad2 => {
            reveal_strlit("NumLock");
            reveal_strlit("Numpad0");
            reveal_strlit("Numpad1");
            reveal_strlit("Numpad2");
            assert("Numpad2"@[0] == 'N' && "Numpad2"@[1] == 'u' && "Numpad2"@[2] == 'm' && "Numpad2"@[3] == 'p' && "Numpad2"@[4] == 'a' && "Numpad2"@[5] == 'd' && "Numpad2"@[6] == '2');
        },
        Key::Numpad3 => {
            reveal_strlit("NumLock");
            reveal_strlit("Numpad0");
            reveal_strlit("Numpad1");
            reveal_strlit("Numpad2");
            reveal_strlit("Numpad3");
            assert("Numpad3"@[0] == 'N' && "Numpad3"@[1] == 'u' && "Numpad3"@[2] == 'm' && "Numpad3"@[3] == 'p' && "Numpad3"@[4] == 'a' && "Numpad3"@[5] == 'd' && "Numpad3"@[6] == '3');
        },
        Key::Numpad4 => {
            reveal_strlit("NumLock");
            reveal_strlit("Numpad0");
            reveal_strlit("Numpad1");
            reveal_strlit("Numpad2");
            reveal_strlit("Numpad3");
            reveal_strlit("Numpad4");
            assert("Numpad4"@[0] == 'N' && "Numpad4"@[1] == 'u' && "Numpad4"@[2] == 'm' && "Numpad4"@[3] == 'p' && "Numpad4"@[4] == 'a' && "Numpad4"@[5] == 'd' && "Numpad4"@[6] == '4');
        },
        Key::Numpad5 => {
            reveal_strlit("NumLock");
            reveal_strlit("Numpad0");
            reveal_strlit("Numpad1");
            reveal_strlit("Numpad2");
            reveal_strlit("Numpad3");
            reveal_strlit("Numpad4");
            reveal_strlit("Numpad5");
            assert("Numpad5"@[0] == 'N' && "Numpad5"@[1] == 'u' && "Numpad5"@[2] == 'm' && "Numpad5"@[3] == 'p' && "Numpad5"@[4] == 'a' && "Numpad5"@[5] == 'd' && "Numpad5"@[6] == '5');
        },
        Key::Numpad6 => {
            reveal_strlit("NumLock");
            reveal_strlit("Numpad0");
            reveal_strlit("Numpad1");
            reveal_strlit("Numpad2");
            reveal_strlit("Numpad3");
            reveal_strlit("Numpad4");
            reveal_strlit("Numpad5");
            reveal_strlit("Numpad6");
            assert("Numpad6"@[0] == 'N' && "Numpad6"@[1] == 'u' && "Numpad6"@[2] == 'm' && "Numpad6"@[3] == 'p' && "Numpad6"@[4] == 'a' && "Numpad6"@[5] == 'd' && "Numpad6"@[6] == '6');
        },
        Key::Numpad7 => {
            reveal_strlit("NumLock");
            reveal_strlit("Numpad0");
            reveal_strlit("Numpad1");
            reveal_strlit("Numpad2");
            reveal_strlit("Numpad3");
            reveal_strlit("Numpad4");
            reveal_strlit("Numpad5");
            reveal_strlit("Numpad6");
            reveal_strlit("Numpad7");
            assert("Numpad7"@[0] == 'N' && "Numpad7"@[1] == 'u' && "Numpad7"@[2] == 'm' && "Numpad7"@[3] == 'p' && "Numpad7"@[4] == 'a' && "Numpad7"@[5] == 'd' && "Numpad7"@[6] == '7');
        },
        Key::Numpad8 => {
            reveal_strlit("NumLock");
            reveal_strlit("Numpad0");
            reveal_strlit("Numpad1");
            reveal_strlit("Numpad2");
            reveal_strlit("Numpad3");
            reveal_strlit("Numpad4");
            reveal_strlit("Numpad5");
            reveal_strlit("Numpad6");
            reveal_strlit("Numpad7");
            reveal_strlit("Numpad8");
            assert("Numpad8"@[0] == 'N' && "Numpad8"@[1] == 'u' && "Numpad8"@[2] == 'm' && "Numpad8"@[3] == 'p' && "Numpad8"@[4] == 'a' && "Numpad8"@[5] == 'd' && "Numpad8"@[6] == '8');
        },
        Key::Numpad9 => {
            reveal_strlit("NumLock");
            reveal_strlit("Numpad0");
            reveal_strlit("Numpad1");
            reveal_strlit("Numpad2");
            reveal_strlit("Numpad3");
            reveal_strlit("Numpad4");
            reveal_strlit("Numpad5");
            reveal_strlit("Numpad6");
            reveal_strlit("Numpad7");
            reveal_strlit("Numpad8");
            reveal_strlit("Numpad9");
            assert("Numpad9"@[0] == 'N' && "Numpad9"@[1] == 'u' && "Numpad9"@[2] == 'm' && "Numpad9"@[3] == 'p' && "Numpad9"@[4] == 'a' && "Numpad9"@[5] == 'd' && "Numpad9"@[6] == '9');
        },
        Key::WebBack => {
            reveal_strlit("WebBack");
            assert("WebBack"@[0] == 'W' && "WebBack"@[1] == 'e' && "WebBack"@[2] == 'b' && "WebBack"@[3] == 'B' && "WebBack"@[4] == 'a' && "WebBack"@[5] == 'c' && "WebBack"@[6] == 'k');
        },
        Key::WebHome => {
            reveal_strlit("WebBack");
            reveal_strlit("WebHome");
            assert("WebHome"@[0] == 'W' && "WebHome"@[1] == 'e' && "WebHome"@[2] == 'b' && "WebHome"@[3] == 'H' && "WebHome"@[4] == 'o' && "WebHome"@[5] == 'm' && "WebHome"@[6] == 'e');
        },
        Key::WebStop => {
            reveal_strlit("WebBack");
            reveal_strlit("WebHome");
            reveal_strlit("WebStop");
            assert("WebStop"@[0] == 'W' && "WebStop"@[1] == 'e' && "WebStop"@[2] == 'b' && "WebStop"@[3] == 'S' && "WebStop"@[4] == 't' && "WebStop"@[5] == 'o' && "WebStop"@[6] == 'p');
        },
        Key::PageDown => {
            reveal_strlit("PageDown");
            assert("PageDown"@[0] == 'P' && "PageDown"@[1] == 'a' && "PageDown"@[2] == 'g' && "PageDown"@[3] == 'e' && "PageDown"@[4] == 'D' && "PageDown"@[5] == 'o' && "PageDown"@[6] == 'w' && "PageDown"@[7] == 'n');
        },
        Key::LWin => {
            reveal_strlit("MetaLeft");
            assert("MetaLeft"@[0] == 'M' && "MetaLeft"@[1] == 'e' && "MetaLeft"@[2] == 't' && "MetaLeft"@[3] == 'a' && "MetaLeft"@[4] == 'L' && "MetaLeft"@[5] == 'e' && "MetaLeft"@[6] == 'f' && "MetaLeft"@[7] == 't');
        },
        Key::RAlt => {
            reveal_strlit("AltRight");
            assert("AltRight"@[0] == 'A' && "AltRight"@[1] == 'l' && "AltRight"@[2] == 't' && "AltRight"@[3] == 'R' && "AltRight"@[4] == 'i' && "AltRight"@[5] == 'g' && "AltRight"@[6] == 'h' && "AltRight"@[7] == 't');
        },
        Key::Left => {
            reveal_strlit("ArrowLeft");
            assert("ArrowLeft"@[0] == 'A' && "ArrowLeft"@[1] == 'r' && "ArrowLeft"@[2] == 'r' && "ArrowLeft"@[3] == 'o' && "ArrowLeft"@[4] == 'w' && "ArrowLeft"@[5] == 'L' && "ArrowLeft"@[6] == 'e' && "ArrowLeft"@[7] == 'f' && "ArrowLeft"@[8] == 't');
        },
        Key::Down => {
            reveal_strlit("ArrowLeft");
            reveal_strlit("ArrowDown");
            assert("ArrowDown"@[0] == 'A' && "ArrowDown"@[1] == 'r' && "ArrowDown"@[2] == 'r' && "ArrowDown"@[3] == 'o' && "ArrowDown"@[4] == 'w' && "ArrowDown"@[5] == 'D' && "ArrowDown"@[6] == 'o' && "ArrowDown"@[7] == 'w' && "ArrowDown"@[8] == 'n');
        },
        Key::Backspace => {
            reveal_strlit("Backspace");
            assert("Backspace"@[0] == 'B' && "Backspace"@[1] == 'a' && "Backspace"@[2] == 'c' && "Backspace"@[3] == 'k' && "Backspace"@[4] == 's' && "Backspace"@[5] == 'p' && "Backspace"@[6] == 'a' && "Backspace"@[7] == 'c' && "Backspace"@[8] == 'e');
        },
        Key::Backslash => {
            reveal_strlit("Backspace");
            reveal_strlit("Backslash");
            assert("Backslash"@[0] == 'B' && "Backslash"@[1] == 'a' && "Backslash"@[2] == 'c' && "Backslash"@[3] == 'k' && "Backslash"@[4] == 's' && "Backslash"@[5] == 'l' && "Backslash"@[6] == 'a' && "Backslash"@[7] == 's' && "Backslash"@[8] == 'h');
        },
        Key::Grave => {
            reveal_strlit("Backspace");
            reveal_strlit("Backslash");
            reveal_strlit("Backquote");
            assert("Backquote"@[0] == 'B' && "Backquote"@[1] == 'a' && "Backquote"@[2] == 'c' && "Backquote"@[3] == 'k' && "Backquote"@[4] == 'q' && "Backquote"@[5] == 'u' && "Backquote"@[6] == 'o' && "Backquote"@[7] == 't' && "Backquote"@[8] == 'e');
        },
        Key::Add => {
            reveal_strlit("NumpadAdd");
            assert("NumpadAdd"@[0] == 'N' && "NumpadAdd"@[1] == 'u' && "NumpadAdd"@[2] == 'm' && "NumpadAdd"@[3] == 'p' && "NumpadAdd"@[4] == 'a' && "NumpadAdd"@[5] == 'd' && "NumpadAdd"@[6] == 'A' && "NumpadAdd"@[7] == 'd' && "NumpadAdd"@[8] == 'd');
        },
        Key::NextTrack => {
            reveal_strlit("NumpadAdd");
            reveal_strlit("NextTrack");
            assert("NextTrack"@[0] == 'N' && "NextTrack"@[1] == 'e' && "NextTrack"@[2] == 'x' && "NextTrack"@[3] == 't' && "NextTrack"@[4] == 'T' && "NextTrack"@[5] == 'r' && "NextTrack"@[6] == 'a' && "NextTrack"@[7] == 'c' && "NextTrack"@[8] == 'k');
        },
        Key::NoConvert => {
            reveal_strlit("NumpadAdd");
            reveal_strlit("NextTrack");
            reveal_strlit("NoConvert");
            assert("NoConvert"@[0] == 'N' && "NoConvert"@[1] == 'o' && "NoConvert"@[2] == 'C' && "NoConvert"@[3] == 'o' && "NoConvert"@[4] == 'n' && "NoConvert"@[5] == 'v' && "NoConvert"@[6] == 'e' && "NoConvert"@[7] == 'r' && "NoConvert"@[8] == 't');
        },
        Key::Semicolon => {
            reveal_strlit("Semicolon");
            assert("Semicolon"@[0] == 'S' && "Semicolon"@[1] == 'e' && "Semicolon"@[2] == 'm' && "Semicolon"@[3] == 'i' && "Semicolon"@[4] == 'c' && "Semicolon"@[5] == 'o' && "Semicolon"@[6] == 'l' && "Semicolon"@[7] == 'o' && "Semicolon"@[8] == 'n');
        },
        Key::LShift => {
            reveal_strlit("Semicolon");
            reveal_strlit("ShiftLeft");
            assert("ShiftLeft"@[0] == 'S' && "ShiftLeft"@[1] == 'h' && "ShiftLeft"@[2] == 'i' && "ShiftLeft"@[3] == 'f' && "ShiftLeft"@[4] == 't' && "ShiftLeft"@[5] == 'L' && "ShiftLeft"@[6] == 'e' && "ShiftLeft"@[7] == 'f' && "ShiftLeft"@[8] == 't');
        },
        Key::MediaStop => {
            reveal_strlit("MediaStop");
            assert("MediaStop"@[0] == 'M' && "MediaStop"@[1] == 'e' && "MediaStop"@[2] == 'd' && "MediaStop"@[3] == 'i' && "MediaStop"@[4] == 'a' && "MediaStop"@[5] == 'S' && "MediaStop"@[6] == 't' && "MediaStop"@[7] == 'o' && "MediaStop"@[8] == 'p');
        },
        Key::RWin => {
            reveal_strlit("MediaStop");
            reveal_strlit("MetaRight");
            assert("MetaRight"@[0] == 'M' && "MetaRight"@[1] == 'e' && "MetaRight"@[2] == 't' && "MetaRight"@[3] == 'a' && "MetaRight"@[4] == 'R' && "MetaRight"@[5] == 'i' && "MetaRight"@[6] == 'g' && "MetaRight"@[7] == 'h' && "MetaRight"@[8] == 't');
        },
        Key::PlayPause => {
            reveal_strlit("PlayPause");
            assert("PlayPause"@[0] == 'P' && "PlayPause"@[1] == 'l' && "PlayPause"@[2] == 'a' && "PlayPause"@[3] == 'y' && "PlayPause"@[4] == 'P' && "PlayPause"@[5] == 'a' && "PlayPause"@[6] == 'u' && "PlayPause"@[7] == 's' && "PlayPause"@[8] == 'e');
        },
        Key::PrevTrack => {
            reveal_strlit("PlayPause");
            reveal_strlit("PrevTrack");
            assert("PrevTrack"@[0] == 'P' && "PrevTrack"@[1] == 'r' && "PrevTrack"@[2] == 'e' && "PrevTrack"@[3] == 'v' && "PrevTrack"@[4] == 'T' && "PrevTrack"@[5] == 'r' && "PrevTrack"@[6] == 'a' && "PrevTrack"@[7] == 'c' && "PrevTrack"@[8] == 'k');
        },
        Key::Underline => {
            reveal_strlit("Underline");
            assert("Underline"@[0] == 'U' && "Underline"@[1] == 'n' && "Underline"@[2] == 'd' && "Underline"@[3] == 'e' && "Underline"@[4] == 'r' && "Underline"@[5] == 'l' && "Underline"@[6] == 'i' && "Underline"@[7] == 'n' && "Underline"@[8] == 'e');
        },
        Key::Unlabeled => {
            reveal_strlit("Underline");
            reveal_strlit("Unlabeled");
            assert("Unlabeled"@[0] == 'U' && "Unlabeled"@[1] == 'n' && "Unlabeled"@[2] == 'l' && "Unlabeled"@[3] == 'a' && "Unlabeled"@[4] == 'b' && "Unlabeled"@[5] == 'e' && "Unlabeled"@[6] == 'l' && "Unlabeled"@[7] == 'e' && "Unlabeled"@[8] == 'd');
        },
        Key::WebSearch => {
            reveal_strlit("WebSearch");
            assert("WebSearch"@[0] == 'W' && "WebSearch"@[1] == 'e' && "WebSearch"@[2] == 'b' && "WebSearch"@[3] == 'S' && "WebSearch"@[4] == 'e' && "WebSearch"@[5] == 'a' && "WebSearch"@[6] == 'r' && "WebSearch"@[7] == 'c' && "WebSearch"@[8] == 'h');
        },
        Key::Scroll => {
            reveal_strlit("ScrollLock");
            assert("ScrollLock"@[0] == 'S' && "ScrollLock"@[1] == 'c' && "ScrollLock"@[2] == 'r' && "ScrollLock"@[3] == 'o' && "ScrollLock"@[4] == 'l' && "ScrollLock"@[5] == 'l' && "ScrollLock"@[6] == 'L' && "ScrollLock"@[7] == 'o' && "ScrollLock"@[8] == 'c' && "ScrollLock"@[9] == 'k');
        },
        Key::RShift => {
            reveal_strlit("ScrollLock");
            reveal_strlit("ShiftRight");
            assert("ShiftRight"@[0] == 'S' && "ShiftRight"@[1] == 'h' && "ShiftRight"@[2] == 'i' && "ShiftRight"@[3] == 'f' && "ShiftRight"@[4] == 't' && "ShiftRight"@[5] == 'R' && "ShiftRight"@[6] == 'i' && "ShiftRight"@[7] == 'g' && "ShiftRight"@[8] == 'h' && "ShiftRight"@[9] == 't');
        },
        Key::Right => {
            reveal_strlit("ArrowRight");
            assert("ArrowRight"@[0] == 'A' && "ArrowRight"@[1] == 'r' && "ArrowRight"@[2] == 'r' && "ArrowRight"@[3] == 'o' && "ArrowRight"@[4] == 'w' && "ArrowRight"@[5] == 'R' && "ArrowRight"@[6] == 'i' && "ArrowRight"@[7] == 'g' && "ArrowRight"@[8] == 'h' && "ArrowRight"@[9] == 't');
        },
        Key::Calculator => {
            reveal_strlit("Calculator");
            assert("Calculator"@[0] == 'C' && "Calculator"@[1] == 'a' && "Calculator"@[2] == 'l' && "Calculator"@[3] == 'c' && "Calculator"@[4] == 'u' && "Calculator"@[5] == 'l' && "Calculator"@[6] == 'a' && "Calculator"@[7] == 't' && "Calculator"@[8] == 'o' && "Calculator"@[9] == 'r');
        },
        Key::WebForward => {
            reveal_strlit("WebForward");
            assert("WebForward"@[0] == 'W' && "WebForward"@[1] == 'e' && "WebForward"@[2] == 'b' && "WebForward"@[3] == 'F' && "WebForward"@[4] == 'o' && "WebForward"@[5] == 'r' && "WebForward"@[6] == 'w' && "WebForward"@[7] == 'a' && "WebForward"@[8] == 'r' && "WebForward"@[9] == 'd');
        },
        Key::WebRefresh => {
            reveal_strlit("WebForward");
            reveal_strlit("WebRefresh");
            assert("WebRefresh"@[0] == 'W' && "WebRefresh"@[1] == 'e' && "WebRefresh"@[2] == 'b' && "WebRefresh"@[3] == 'R' && "WebRefresh"@[4] == 'e' && "WebRefresh"@[5] == 'f' && "WebRefresh"@[6] == 'r' && "WebRefresh"@[7] == 'e' && "WebRefresh"@[8] == 's' && "WebRefresh"@[9] == 'h');
        },
        Key::Snapshot => {
            reveal_strlit("PrintScreen");
            assert("PrintScreen"@[0] == 'P' && "PrintScreen"@[1] == 'r' && "PrintScreen"@[2] == 'i' && "PrintScreen"@[3] == 'n' && "PrintScreen"@[4] == 't' && "PrintScreen"@[5] == 'S' && "PrintScreen"@[6] == 'c' && "PrintScreen"@[7] == 'r' && "PrintScreen"@[8] == 'e' && "PrintScreen"@[9] == 'e' && "PrintScreen"@[10] == 'n');
        },
        Key::LBracket => {
            reveal_strlit("BracketLeft");
            assert("BracketLeft"@[0] == 'B' && "BracketLeft"@[1] == 'r' && "BracketLeft"@[2] == 'a' && "BracketLeft"@[3] == 'c' && "BracketLeft"@[4] == 'k' && "BracketLeft"@[5] == 'e' && "BracketLeft"@[6] == 't' && "BracketLeft"@[7] == 'L' && "BracketLeft"@[8] == 'e' && "BracketLeft"@[9] == 'f' && "BracketLeft"@[10] == 't');
        },
        Key::LControl => {
            reveal_strlit("ControlLeft");
            assert("ControlLeft"@[0] == 'C' && "ControlLeft"@[1] == 'o' && "ControlLeft"@[2] == 'n' && "ControlLeft"@[3] == 't' && "ControlLeft"@[4] == 'r' && "ControlLeft"@[5] == 'o' && "ControlLeft"@[6] == 'l' && "ControlLeft"@[7] == 'L' && "ControlLeft"@[8] == 'e' && "ControlLeft"@[9] == 'f' && "ControlLeft"@[10] == 't');
        },
        Key::MediaSelect => {
            reveal_strlit("MediaSelect");
            assert("MediaSelect"@[0] == 'M' && "MediaSelect"@[1] == 'e' && "MediaSelect"@[2] == 'd' && "MediaSelect"@[3] == 'i' && "MediaSelect"@[4] == 'a' && "MediaSelect"@[5] == 'S' && "MediaSelect"@[6] == 'e' && "MediaSelect"@[7] == 'l' && "MediaSelect"@[8] == 'e' && "MediaSelect"@[9] == 'c' && "MediaSelect"@[10] == 't');
        },
        Key::NumpadComma => {
            reveal_strlit("NumpadComma");
            assert("NumpadComma"@[0] == 'N' && "NumpadComma"@[1] == 'u' && "NumpadComma"@[2] == 'm' && "NumpadComma"@[3] == 'p' && "NumpadComma"@[4] == 'a' && "NumpadComma"@[5] == 'd' && "NumpadComma"@[6] == 'C' && "NumpadComma"@[7] == 'o' && "NumpadComma"@[8] == 'm' && "NumpadComma"@[9] == 'm' && "NumpadComma"@[10] == 'a');
        },
        Key::NumpadEnter => {
            reveal_strlit("NumpadComma");
            reveal_strlit("NumpadEnter");
            assert("NumpadEnter"@[0] == 'N' && "NumpadEnter"@[1] == 'u' && "NumpadEnter"@[2] == 'm' && "NumpadEnter"@[3] == 'p' && "NumpadEnter"@[4] == 'a' && "NumpadEnter"@[5] == 'd' && "NumpadEnter"@[6] == 'E' && "NumpadEnter"@[7] == 'n' && "NumpadEnter"@[8] == 't' && "NumpadEnter"@[9] == 'e' && "NumpadEnter"@[10] == 'r');
        },
        Key::Divide => {
            reveal_strlit("NumpadDivide");
            assert("NumpadDivide"@[0] == 'N' && "NumpadDivide"@[1] == 'u' && "NumpadDivide"@[2] == 'm' && "NumpadDivide"@[3] == 'p' && "NumpadDivide"@[4] == 'a' && "NumpadDivide"@[5] == 'd' && "NumpadDivide"@[6] == 'D' && "NumpadDivide"@[7] == 'i' && "NumpadDivide"@[8] == 'v' && "NumpadDivide"@[9] == 'i' && "NumpadDivide"@[10] == 'd' && "NumpadDivide"@[11] == 'e');
        },
        Key::NumpadEquals => {
            reveal_strlit("NumpadDivide");
            reveal_strlit("NumpadEquals");
            assert("NumpadEquals"@[0] == 'N' && "NumpadEquals"@[1] == 'u' && "NumpadEquals"@[2] == 'm' && "NumpadEquals"@[3] == 'p' && "NumpadEquals"@[4] == 'a' && "NumpadEquals"@[5] == 'd' && "NumpadEquals"@[6] == 'E' && "NumpadEquals"@[7] == 'q' && "NumpadEquals"@[8] == 'u' && "NumpadEquals"@[9] == 'a' && "NumpadEquals"@[10] == 'l' && "NumpadEquals"@[11] == 's');
        },
        Key::RBracket => {
            reveal_strlit("BracketRight");
            assert("BracketRight"@[0] == 'B' && "BracketRight"@[1] == 'r' && "BracketRight"@[2] == 'a' && "BracketRight"@[3] == 'c' && "BracketRight"@[4] == 'k' && "BracketRight"@[5] == 'e' && "BracketRight"@[6] == 't' && "BracketRight"@[7] == 'R' && "BracketRight"@[8] == 'i' && "BracketRight"@[9] == 'g' && "BracketRight"@[10] == 'h' && "BracketRight"@[11] == 't');
        },
        Key::RControl => {
            reveal_strlit("ControlRight");
            assert("ControlRight"@[0] == 'C' && "ControlRight"@[1] == 'o' && "ControlRight"@[2] == 'n' && "ControlRight"@[3] == 't' && "ControlRight"@[4] == 'r' && "ControlRight"@[5] == 'o' && "ControlRight"@[6] == 'l' && "ControlRight"@[7] == 'R' && "ControlRight"@[8] == 'i' && "ControlRight"@[9] == 'g' && "ControlRight"@[10] == 'h' && "ControlRight"@[11] == 't');
        },
        Key::WebFavorites => {
            reveal_strlit("WebFavorites");
            assert("WebFavorites"@[0] == 'W' && "WebFavorites"@[1] == 'e' && "WebFavorites"@[2] == 'b' && "WebFavorites"@[3] == 'F' && "WebFavorites"@[4] == 'a' && "WebFavorites"@[5] == 'v' && "WebFavorites"@[6] == 'o' && "WebFavorites"@[7] == 'r' && "WebFavorites"@[8] == 'i' && "WebFavorites"@[9] == 't' && "WebFavorites"@[10] == 'e' && "WebFavorites"@[11] == 's');
        },
        Key::Decimal => {
            reveal_strlit("NumpadDecimal");
            assert("NumpadDecimal"@[0] == 'N' && "NumpadDecimal"@[1] == 'u' && "NumpadDecimal"@[2] == 'm' && "NumpadDecimal"@[3] == 'p' && "NumpadDecimal"@[4] == 'a' && "NumpadDecimal"@[5] == 'd' && "NumpadDecimal"@[6] == 'D' && "NumpadDecimal"@[7] == 'e' && "NumpadDecimal"@[8] == 'c' && "NumpadDecimal"@[9] == 'i' && "NumpadDecimal"@[10] == 'm' && "NumpadDecimal"@[11] == 'a' && "NumpadDecimal"@[12] == 'l');
        },
        Key::VolumeUp => {
            reveal_strlit("AudioVolumeUp");
            assert("AudioVolumeUp"@[0] == 'A' && "AudioVolumeUp"@[1] == 'u' && "AudioVolumeUp"@[2] == 'd' && "AudioVolumeUp"@[3] == 'i' && "AudioVolumeUp"@[4] == 'o' && "AudioVolumeUp"@[5] == 'V' && "AudioVolumeUp"@[6] == 'o' && "AudioVolumeUp"@[7] == 'l' && "AudioVolumeUp"@[8] == 'u' && "AudioVolumeUp"@[9] == 'm' && "AudioVolumeUp"@[10] == 'e' && "AudioVolumeUp"@[11] == 'U' && "AudioVolumeUp"@[12] == 'p');
        },
        Key::Multiply => {
            reveal_strlit("NumpadMultiply");
            assert("NumpadMultiply"@[0] == 'N' && "NumpadMultiply"@[1] == 'u' && "NumpadMultiply"@[2] == 'm' && "NumpadMultiply"@[3] == 'p' && "NumpadMultiply"@[4] == 'a' && "NumpadMultiply"@[5] == 'd' && "NumpadMultiply"@[6] == 'M' && "NumpadMultiply"@[7] == 'u' && "NumpadMultiply"@[8] == 'l' && "NumpadMultiply"@[9] == 't' && "NumpadMultiply"@[10] == 'i' && "NumpadMultiply"@[11] == 'p' && "NumpadMultiply"@[12] == 'l' && "NumpadMultiply"@[13] == 'y');
        },
        Key::NavigateForward => {
            reveal_strlit("NavigateForward");
            assert("NavigateForward"@[0] == 'N' && "NavigateForward"@[1] == 'a' && "NavigateForward"@[2] == 'v' && "NavigateForward"@[3] == 'i' && "NavigateForward"@[4] == 'g' && "NavigateForward"@[5] == 'a' && "NavigateForward"@[6] == 't' && "NavigateForward"@[7] == 'e' && "NavigateForward"@[8] == 'F' && "NavigateForward"@[9] == 'o' && "NavigateForward"@[10] == 'r' && "NavigateForward"@[11] == 'w' && "NavigateForward"@[12] == 'a' && "NavigateForward"@[13] == 'r' && "NavigateForward"@[14] == 'd');
        },
        Key::VolumeDown => {
            reveal_strlit("AudioVolumeDown");
            assert("AudioVolumeDown"@[0] == 'A' && "AudioVolumeDown"@[1] == 'u' && "AudioVolumeDown"@[2] == 'd' && "AudioVolumeDown"@[3] == 'i' && "AudioVolumeDown"@[4] == 'o' && "AudioVolumeDown"@[5] == 'V' && "AudioVolumeDown"@[6] == 'o' && "AudioVolumeDown"@[7] == 'l' && "AudioVolumeDown"@[8] == 'u' && "AudioVolumeDown"@[9] == 'm' && "AudioVolumeDown"@[10] == 'e' && "AudioVolumeDown"@[11] == 'D' && "AudioVolumeDown"@[12] == 'o' && "AudioVolumeDown"@[13] == 'w' && "AudioVolumeDown"@[14] == 'n');
        },
        Key::MyComputer => {
            reveal_strlit("LaunchMyComputer");
            assert("LaunchMyComputer"@[0] == 'L' && "LaunchMyComputer"@[1] == 'a' && "LaunchMyComputer"@[2] == 'u' && "LaunchMyComputer"@[3] == 'n' && "LaunchMyComputer"@[4] == 'c' && "LaunchMyComputer"@[5] == 'h' && "LaunchMyComputer"@[6] == 'M' && "LaunchMyComputer"@[7] == 'y' && "LaunchMyComputer"@[8] == 'C' && "LaunchMyComputer"@[9] == 'o' && "LaunchMyComputer"@[10] == 'm' && "LaunchMyComputer"@[11] == 'p' && "LaunchMyComputer"@[12] == 'u' && "LaunchMyComputer"@[13] == 't' && "LaunchMyComputer"@[14] == 'e' && "LaunchMyComputer"@[15] == 'r');
        },
        Key::NavigateBackward => {
            reveal_strlit("NavigateBackward");
            assert("NavigateBackward"@[0] == 'N' && "NavigateBackward"@[1] == 'a' && "NavigateBackward"@[2] == 'v' && "NavigateBackward"@[3] == 'i' && "NavigateBackward"@[4] == 'g' && "NavigateBackward"@[5] == 'a' && "NavigateBackward"@[6] == 't' && "NavigateBackward"@[7] == 'e' && "NavigateBackward"@[8] == 'B' && "NavigateBackward"@[9] == 'a' && "NavigateBackward"@[10] == 'c' && "NavigateBackward"@[11] == 'k' && "NavigateBackward"@[12] == 'w' && "NavigateBackward"@[13] == 'a' && "NavigateBackward"@[14] == 'r' && "NavigateBackward"@[15] == 'd');
        },
        _ => {},
    }
}

/// The DOM `KeyboardEvent.code` value that names `key`, if one does,
/// listed key by key.
pub open spec fn code_of_virtual_key(key: VirtualKeyCode) -> Option<Seq<char>> {
    match key {
        VirtualKeyCode::Key1 => Some("Digit1"@),
        VirtualKeyCode::Key2 => Some("Digit2"@),
        VirtualKeyCode::Key3 => Some("Digit3"@),
        VirtualKeyCode::Key4 => Some("Digit4"@),
        VirtualKeyCode::Key5 => Some("Digit5"@),
        VirtualKeyCode::Key6 => Some("Digit6"@),
        VirtualKeyCode::Key7 => Some("Digit7"@),
        VirtualKeyCode::Key8 => Some("Digit8"@),
        VirtualKeyCode::Key9 => Some("Digit9"@),
        VirtualKeyCode::Key0 => Some("Digit0"@),
        VirtualKeyCode::A => Some("KeyA"@),
        VirtualKeyCode::B => Some("KeyB"@),
        VirtualKeyCode::C => Some("KeyC"@),
        VirtualKeyCode::D => Some("KeyD"@),
        VirtualKeyCode::E => Some("KeyE"@),
        VirtualKeyCode::F => Some("KeyF"@),
        VirtualKeyCode::G => Some("KeyG"@),
        VirtualKeyCode::H => Some("KeyH"@),
        VirtualKeyCode::I => Some("KeyI"@),
        VirtualKeyCode::J => Some("KeyJ"@),
        VirtualKeyCode::K => Some("KeyK"@),
        VirtualKeyCode::L => Some("KeyL"@),
        VirtualKeyCode::M => Some("KeyM"@),
        VirtualKeyCode::N => Some("KeyN"@),
        VirtualKeyCode::O => Some("KeyO"@),
        VirtualKeyCode::P => Some("KeyP"@),
        VirtualKeyCode::Q => Some("KeyQ"@),
        VirtualKeyCode::R => Some("KeyR"@),
        VirtualKeyCode::S => Some("KeyS"@),
        VirtualKeyCode::T => Some("KeyT"@),
        VirtualKeyCode::U => Some("KeyU"@),
        VirtualKeyCode::V => Some("KeyV"@),
        VirtualKeyCode::W => Some("KeyW"@),
        VirtualKeyCode::X => Some("KeyX"@),
        VirtualKeyCode::Y => Some("KeyY"@),
        VirtualKeyCode::Z => Some("KeyZ"@),
        VirtualKeyCode::Escape => Some("Escape"@),
        VirtualKeyCode::F1 => Some("F1"@),
        VirtualKeyCode::F2 => Some("F2"@),
        VirtualKeyCode::F3 => Some("F3"@),
        VirtualKeyCode::F4 => Some("F4"@),
        VirtualKeyCode::F5 => Some("F5"@),
        VirtualKeyCode::F6 => Some("F6"@),
        VirtualKeyCode::F7 => Some("F7"@),
        VirtualKeyCode::F8 => Some("F8"@),
        VirtualKeyCode::F9 => Some("F9"@),
        VirtualKeyCode::F10 => Some("F10"@),
        VirtualKeyCode::F11 => Some("F11"@),
        VirtualKeyCode::F12 => Some("F12"@),
        VirtualKeyCode::F13 => Some("F13"@),
        VirtualKeyCode::F14 => Some("F14"@),
        VirtualKeyCode::F15 => Some("F15"@),
        VirtualKeyCode::F16 => Some("F16"@),
        VirtualKeyCode::F17 => Some("F17"@),
        VirtualKeyCode::F18 => Some("F18"@),
        VirtualKeyCode::F19 => Some("F19"@),
        VirtualKeyCode::F20 => Some("F20"@),
        VirtualKeyCode::F21 => Some("F21"@),
        VirtualKeyCode::F22 => Some("F22"@),
        VirtualKeyCode::F23 => Some("F23"@),
        VirtualKeyCode::F24 => Some("F24"@),
        VirtualKeyCode::Snapshot => Some("PrintScreen"@),
        VirtualKeyCode::Scroll => Some("ScrollLock"@),
        VirtualKeyCode::Pause => Some("Pause"@),
        VirtualKeyCode::Insert => Some("Insert"@),
        VirtualKeyCode::Home => Some("Home"@),
        VirtualKeyCode::Delete => Some("Delete"@),
        VirtualKeyCode::End => Some("End"@),
        VirtualKeyCode::PageDown => Some("PageDown"@),
        VirtualKeyCode::PageUp => Some("PageUp"@),
        VirtualKeyCode::Left => Some("ArrowLeft"@),
        VirtualKeyCode::Up => Some("ArrowUp"@),
        VirtualKeyCode::Right => Some("ArrowRight"@),
        VirtualKeyCode::Down => Some("ArrowDown"@),
        VirtualKeyCode::Backspace => Some("Backspace"@),
        VirtualKeyCode::Return => Some("Enter"@),
        VirtualKeyCode::Space => Some("Space"@),
        VirtualKeyCode::Compose => Some("Compose"@),
        VirtualKeyCode::Caret => Some("Caret"@),
        VirtualKeyCode::Numlock => Some("NumLock"@),
        VirtualKeyCode::Numpad0 => Some("Numpad0"@),
        VirtualKeyCode::Numpad1 => Some("Numpad1"@),
        VirtualKeyCode::Numpad2 => Some("Numpad2"@),
        VirtualKeyCode::Numpad3 => Some("Numpad3"@),
        VirtualKeyCode::Numpad4 => Some("Numpad4"@),
        VirtualKeyCode::Numpad5 => Some("Numpad5"@),
        VirtualKeyCode::Numpad6 => Some("Numpad6"@),
        VirtualKeyCode::Numpad7 => Some("Numpad7"@),
        VirtualKeyCode::Numpad8 => Some("Numpad8"@),
        VirtualKeyCode::Numpad9 => Some("Numpad9"@),
        VirtualKeyCode::AbntC1 => Some("AbntC1"@),
        VirtualKeyCode::AbntC2 => Some("AbntC2"@),
        VirtualKeyCode::Add => Some("NumpadAdd"@),
        VirtualKeyCode::Apostrophe => Some("Quote"@),
        VirtualKeyCode::Apps => Some("Apps"@),
        VirtualKeyCode::At => Some("At"@),
        VirtualKeyCode::Ax => Some("Ax"@),
        VirtualKeyCode::Backslash => Some("Backslash"@),
        VirtualKeyCode::Calculator => Some("Calculator"@),
        VirtualKeyCode::Capital => Some("Capital"@),
        VirtualKeyCode::Colon => None,
        VirtualKeyCode::Comma => Some("Comma"@),
        VirtualKeyCode::Convert => Some("Convert"@),
        VirtualKeyCode::Decimal => Some("NumpadDecimal"@),
        VirtualKeyCode::Divide => Some("NumpadDivide"@),
        VirtualKeyCode::Equals => Some("Equal"@),
        VirtualKeyCode::Grave => Some("Backquote"@),
        VirtualKeyCode::Kana => Some("Kana"@),
        VirtualKeyCode::Kanji => Some("Kanji"@),
        VirtualKeyCode::LAlt => Some("AltLeft"@),
        VirtualKeyCode::LBracket => Some("BracketLeft"@),
        VirtualKeyCode::LControl => Some("ControlLeft"@),
        VirtualKeyCode::LShift => Some("ShiftLeft"@),
        VirtualKeyCode::LWin => Some("MetaLeft"@),
        VirtualKeyCode::Mail => Some("Mail"@),
        VirtualKeyCode::MediaSelect => Some("MediaSelect"@),
        VirtualKeyCode::MediaStop => Some("MediaStop"@),
        VirtualKeyCode::Minus => Some("Minus"@),
        VirtualKeyCode::Multiply => Some("NumpadMultiply"@),
        VirtualKeyCode::Mute => Some("Mute"@),
        VirtualKeyCode::MyComputer => Some("LaunchMyComputer"@),
        VirtualKeyCode::NavigateForward => Some("NavigateForward"@),
        VirtualKeyCode::NavigateBackward => Some("NavigateBackward"@),
        VirtualKeyCode::NextTrack => Some("NextTrack"@),
        VirtualKeyCode::NoConvert => Some("NoConvert"@),
        VirtualKeyCode::NumpadComma => Some("NumpadComma"@),
        VirtualKeyCode::NumpadEnter => Some("NumpadEnter"@),
        VirtualKeyCode::NumpadEquals => Some("NumpadEquals"@),
        VirtualKeyCode::OEM102 => Some("OEM102"@),
        VirtualKeyCode::Period => Some("Period"@),
        VirtualKeyCode::PlayPause => Some("PlayPause"@),
        VirtualKeyCode::Power => Some("Power"@),
        VirtualKeyCode::PrevTrack => Some("PrevTrack"@),
        VirtualKeyCode::RAlt => Some("AltRight"@),
        VirtualKeyCode::RBracket => Some("BracketRight"@),
        VirtualKeyCode::RControl => Some("ControlRight"@),
        VirtualKeyCode::RShift => Some("ShiftRight"@),
        VirtualKeyCode::RWin => Some("MetaRight"@),
        VirtualKeyCode::Semicolon => Some("Semicolon"@),
        VirtualKeyCode::Slash => Some("Slash"@),
        VirtualKeyCode::Sleep => Some("Sleep"@),
        VirtualKeyCode::Stop => Some("Stop"@),
        VirtualKeyCode::Subtract => None,
        VirtualKeyCode::Sysrq => Some("Sysrq"@),
        VirtualKeyCode::Tab => Some("Tab"@),
        VirtualKeyCode::Underline => Some("Underline"@),
        VirtualKeyCode::Unlabeled => Some("Unlabeled"@),
        VirtualKeyCode::VolumeDown => Some("AudioVolumeDown"@),
        VirtualKeyCode::VolumeUp => Some("AudioVolumeUp"@),
        VirtualKeyCode::Wake => Some("Wake"@),
        VirtualKeyCode::WebBack => Some("WebBack"@),
        VirtualKeyCode::WebFavorites => Some("WebFavorites"@),
        VirtualKeyCode::WebForward => Some("WebForward"@),
        VirtualKeyCode::WebHome => Some("WebHome"@),
        VirtualKeyCode::WebRefresh => Some("WebRefresh"@),
        VirtualKeyCode::WebSearch => Some("WebSearch"@),
        VirtualKeyCode::WebStop => Some("WebStop"@),
        VirtualKeyCode::Yen => Some("Yen"@),
        VirtualKeyCode::Copy => None,
        VirtualKeyCode::Paste => None,
        VirtualKeyCode::Cut => None,
    }
}

/// A code that names a key is the code listed for that key.
pub proof fn lemma_virtual_key_of_code_is_listed(code: Seq<char>)
    ensures
        virtual_key_of_code(code) matches Some(key) ==> code_of_virtual_key(key) == Some(code),
{
}

/// The code listed for a key names that key: with the law above, a code
/// names a key exactly when it is the code listed for that key.
pub proof fn lemma_listed_code_names_virtual_key(key: VirtualKeyCode)
    ensures
        code_of_virtual_key(key) matches Some(code) ==> virtual_key_of_code(code) == Some(key),
{
    match key {
        VirtualKeyCode::F1 => {
            reveal_strlit("F1");
            assert("F1"@[0] == 'F' && "F1"@[1] == '1');
        },
        VirtualKeyCode::F2 => {
            reveal_strlit("F1");
            reveal_strlit("F2");
            assert("F2"@[0] == 'F' && "F2"@[1] == '2');
        },
        VirtualKeyCode::F3 => {
            reveal_strlit("F1");
            reveal_strlit("F2");
            reveal_strlit("F3");
            assert("F3"@[0] == 'F' && "F3"@[1] == '3');
        },
        VirtualKeyCode::F4 => {
            reveal_strlit("F1");
            reveal_strlit("F2");
            reveal_strlit("F3");
            reveal_strlit("F4");
            assert("F4"@[0] == 'F' && "F4"@[1] == '4');
        },
        VirtualKeyCode::F5 => {
            reveal_strlit("F1");
            reveal_strlit("F2");
            reveal_strlit("F3");
            reveal_strlit("F4");
            reveal_strlit("F5");
            assert("F5"@[0] == 'F' && "F5"@[1] == '5');
        },
        VirtualKeyCode::F6 => {
            reveal_strlit("F1");
            reveal_strlit("F2");
            reveal_strlit("F3");
            reveal_strlit("F4");
            reveal_strlit("F5");
            reveal_strlit("F6");
            assert("F6"@[0] == 'F' && "F6"@[1] == '6');
        },
        VirtualKeyCode::F7 => {
            reveal_strlit("F1");
            reveal_strlit("F2");
            reveal_strlit("F3");
            reveal_strlit("F4");
            reveal_strlit("F5");
            reveal_strlit("F6");
            reveal_strlit("F7");
            assert("F7"@[0] == 'F' && "F7"@[1] == '7');
        },
        VirtualKeyCode::F8 => {
            reveal_strlit("F1");
            reveal_strlit("F2");
            reveal_strlit("F3");
            reveal_strlit("F4");
            reveal_strlit("F5");
            reveal_strlit("F6");
            reveal_strlit("F7");
            reveal_strlit("F8");
            assert("F8"@[0] == 'F' && "F8"@[1] == '8');
        },
        VirtualKeyCode::F9 => {
            reveal_strlit("F1");
            reveal_strlit("F2");
            reveal_strlit("F3");
            reveal_strlit("F4");
            reveal_strlit("F5");
            reveal_strlit("F6");
            reveal_strlit("F7");
            reveal_strlit("F8");
            reveal_strlit("F9");
            assert("F9"@[0] == 'F' && "F9"@[1] == '9');
        },
        VirtualKeyCode::At => {
            reveal_strlit("At");
            assert("At"@[0] == 'A' && "At"@[1] == 't');
        },
        VirtualKeyCode::Ax => {
            reveal_strlit("At");
            reveal_strlit("Ax");
            assert("Ax"@[0] == 'A' && "Ax"@[1] == 'x');
        },
        VirtualKeyCode::F10 => {
            reveal_strlit("F10");
            assert("F10"@[0] == 'F' && "F10"@[1] == '1' && "F10"@[2] == '0');
        },
        VirtualKeyCode::F11 => {
            reveal_strlit("F10");
            reveal_strlit("F11");
            assert("F11"@[0] == 'F' && "F11"@[1] == '1' && "F11"@[2] == '1');
        },
        VirtualKeyCode::F12 => {
            reveal_strlit("F10");
            reveal_strlit("F11");
            reveal_strlit("F12");
            assert("F12"@[0] == 'F' && "F12"@[1] == '1' && "F12"@[2] == '2');
        },
        VirtualKeyCode::F13 => {
            reveal_strlit("F10");
            reveal_strlit("F11");
            reveal_strlit("F12");
            reveal_strlit("F13");
            assert("F13"@[0] == 'F' && "F13"@[1] == '1' && "F13"@[2] == '3');
        },
        VirtualKeyCode::F14 => {
            reveal_strlit("F10");
            reveal_strlit("F11");
            reveal_strlit("F12");
            reveal_strlit("F13");
            reveal_strlit("F14");
            assert("F14"@[0] == 'F' && "F14"@[1] == '1' && "F14"@[2] == '4');
        },
        VirtualKeyCode::F15 => {
            reveal_strlit("F10");
            reveal_strlit("F11");
            reveal_strlit("F12");
            reveal_strlit("F13");
            reveal_strlit("F14");
            reveal_strlit("F15");
            assert("F15"@[0] == 'F' && "F15"@[1] == '1' && "F15"@[2] == '5');
        },
        VirtualKeyCode::F16 => {
            reveal_strlit("F10");
            reveal_strlit("F11");
            reveal_strlit("F12");
            reveal_strlit("F13");
            reveal_strlit("F14");
            reveal_strlit("F15");
            reveal_strlit("F16");
            assert("F16"@[0] == 'F' && "F16"@[1] == '1' && "F16"@[2] == '6');
        },
        VirtualKeyCode::F17 => {
            reveal_strlit("F10");
            reveal_strlit("F11");
            reveal_strlit("F12");
            reveal_strlit("F13");
            reveal_strlit("F14");
            reveal_strlit("F15");
            reveal_strlit("F16");
            reveal_strlit("F17");
            assert("F17"@[0] == 'F' && "F17"@[1] == '1' && "F17"@[2] == '7');
        },
        VirtualKeyCode::F18 => {
            reveal_strlit("F10");
            reveal_strlit("F11");
            reveal_strlit("F12");
            reveal_strlit("F13");
            reveal_strlit("F14");
            reveal_strlit("F15");
            reveal_strlit("F16");
            reveal_strlit("F17");
            reveal_strlit("F18");
            assert("F18"@[0] == 'F' && "F18"@[1] == '1' && "F18"@[2] == '8');
        },
        VirtualKeyCode::F19 => {
            reveal_strlit("F10");
            reveal_strlit("F11");
            reveal_strlit("F12");
            reveal_strlit("F13");
            reveal_strlit("F14");
            reveal_strlit("F15");
            reveal_strlit("F16");
            reveal_strlit("F17");
            reveal_strlit("F18");
            reveal_strlit("F19");
            assert("F19"@[0] == 'F' && "F19"@[1] == '1' && "F19"@[2] == '9');
        },
        VirtualKeyCode::F20 => {
            reveal_strlit("F10");
            reveal_strlit("F11");
            reveal_strlit("F12");
            reveal_strlit("F13");
            reveal_strlit("F14");
            reveal_strlit("F15");
            reveal_strlit("F16");
            reveal_strlit("F17");
            reveal_strlit("F18");
            reveal_strlit("F19");
            reveal_strlit("F20");
            assert("F20"@[0] == 'F' && "F20"@[1] == '2' && "F20"@[2] == '0');
        },
        VirtualKeyCode::F21 => {
            reveal_strlit("F10");
            reveal_strlit("F11");
            reveal_strlit("F12");
            reveal_strlit("F13");
            reveal_strlit("F14");
            reveal_strlit("F15");
            reveal_strlit("F16");
            reveal_strlit("F17");
            reveal_strlit("F18");
            reveal_strlit("F19");
            reveal_strlit("F20");
            reveal_strlit("F21");
            assert("F21"@[0] == 'F' && "F21"@[1] == '2' && "F21"@[2] == '1');
        },
        VirtualKeyCode::F22 => {
            reveal_strlit("F10");
            reveal_strlit("F11");
            reveal_strlit("F12");
            reveal_strlit("F13");
            reveal_strlit("F14");
            reveal_strlit("F15");
            reveal_strlit("F16");
            reveal_strlit("F17");
            reveal_strlit("F18");
            reveal_strlit("F19");
            reveal_strlit("F20");
            reveal_strlit("F21");
            reveal_strlit("F22");
            assert("F22"@[0] == 'F' && "F22"@[1] == '2' && "F22"@[2] == '2');
        },
        VirtualKeyCode::F23 => {
            reveal_strlit("F10");
            reveal_strlit("F11");
            reveal_strlit("F12");
            reveal_strlit("F13");
            reveal_strlit("F14");
            reveal_strlit("F15");
            reveal_strlit("F16");
            reveal_strlit("F17");
            reveal_strlit("F18");
            reveal_strlit("F19");
            reveal_strlit("F20");
            reveal_strlit("F21");
            reveal_strlit("F22");
            reveal_strlit("F23");
            assert("F23"@[0] == 'F' && "F23"@[1] == '2' && "F23"@[2] == '3');
        },
        VirtualKeyCode::F24 => {
            reveal_strlit("F10");
            reveal_strlit("F11");
            reveal_strlit("F12");
            reveal_strlit("F13");
            reveal_strlit("F14");
            reveal_strlit("F15");
            reveal_strlit("F16");
            reveal_strlit("F17");
            reveal_strlit("F18");
            reveal_strlit("F19");
            reveal_strlit("F20");
            reveal_strlit("F21");
            reveal_strlit("F22");
            reveal_strlit("F23");
            reveal_strlit("F24");
            assert("F24"@[0] == 'F' && "F24"@[1] == '2' && "F24"@[2] == '4');
        },
        VirtualKeyCode::End => {
            reveal_strlit("End");
            assert("End"@[0] == 'E' && "End"@[1] == 'n' && "End"@[2] == 'd');
        },
        VirtualKeyCode::Tab => {
            reveal_strlit("Tab");
            assert("Tab"@[0] == 'T' && "Tab"@[1] == 'a' && "Tab"@[2] == 'b');
        },
        VirtualKeyCode::Yen => {
            reveal_strlit("Yen");
            assert("Yen"@[0] == 'Y' && "Yen"@[1] == 'e' && "Yen"@[2] == 'n');
        },
        VirtualKeyCode::A => {
            reveal_strlit("KeyA");
            assert("KeyA"@[0] == 'K' && "KeyA"@[1] == 'e' && "KeyA"@[2] == 'y' && "KeyA"@[3] == 'A');
        },
        VirtualKeyCode::B => {
            reveal_strlit("KeyA");
            reveal_strlit("KeyB");
            assert("KeyB"@[0] == 'K' && "KeyB"@[1] == 'e' && "KeyB"@[2] == 'y' && "KeyB"@[3] == 'B');
        },
        VirtualKeyCode::C => {
            reveal_strlit("KeyA");
            reveal_strlit("KeyB");
            reveal_strlit("KeyC");
            assert("KeyC"@[0] == 'K' && "KeyC"@[1] == 'e' && "KeyC"@[2] == 'y' && "KeyC"@[3] == 'C');
        },
        VirtualKeyCode::D => {
            reveal_strlit("KeyA");
            reveal_strlit("KeyB");
            reveal_strlit("KeyC");
            reveal_strlit("KeyD");
            assert("KeyD"@[0] == 'K' && "KeyD"@[1] == 'e' && "KeyD"@[2] == 'y' && "KeyD"@[3] == 'D');
        },
        VirtualKeyCode::E => {
            reveal_strlit("KeyA");
            reveal_strlit("KeyB");
            reveal_strlit("KeyC");
            reveal_strlit("KeyD");
            reveal_strlit("KeyE");
            assert("KeyE"@[0] == 'K' && "KeyE"@[1] == 'e' && "KeyE"@[2] == 'y' && "KeyE"@[3] == 'E');
        },
        VirtualKeyCode::F => {
            reveal_strlit("KeyA");
            reveal_strlit("KeyB");
            reveal_strlit("KeyC");
            reveal_strlit("KeyD");
            reveal_strlit("KeyE");
            reveal_strlit("KeyF");
            assert("KeyF"@[0] == 'K' && "KeyF"@[1] == 'e' && "KeyF"@[2] == 'y' && "KeyF"@[3] == 'F');
        },
        VirtualKeyCode::G => {
            reveal_strlit("KeyA");
            reveal_strlit("KeyB");
            reveal_strlit("KeyC");
            reveal_strlit("KeyD");
            reveal_strlit("KeyE");
            reveal_strlit("KeyF");
            reveal_strlit("KeyG");
            assert("KeyG"@[0] == 'K' && "KeyG"@[1] == 'e' && "KeyG"@[2] == 'y' && "KeyG"@[3] == 'G');
        },
        VirtualKeyCode::H => {
            reveal_strlit("KeyA");
            reveal_strlit("KeyB");
            reveal_strlit("KeyC");
            reveal_strlit("KeyD");
            reveal_strlit("KeyE");
            reveal_strlit("KeyF");
            reveal_strlit("KeyG");
            reveal_strlit("KeyH");
            assert("KeyH"@[0] == 'K' && "KeyH"@[1] == 'e' && "KeyH"@[2] == 'y' && "KeyH"@[3] == 'H');
        },
        VirtualKeyCode::I => {
            reveal_strlit("KeyA");
            reveal_strlit("KeyB");
            reveal_strlit("KeyC");
            reveal_strlit("KeyD");
            reveal_strlit("KeyE");
            reveal_strlit("KeyF");
            reveal_strlit("KeyG");
            reveal_strlit("KeyH");
            reveal_strlit("KeyI");
            assert("KeyI"@[0] == 'K' && "KeyI"@[1] == 'e' && "KeyI"@[2] == 'y' && "KeyI"@[3] == 'I');
        },
        VirtualKeyCode::J => {
            reveal_strlit("KeyA");
            reveal_strlit("KeyB");
            reveal_strlit("KeyC");
            reveal_strlit("KeyD");
            reveal_strlit("KeyE");
            reveal_strlit("KeyF");
            reveal_strlit("KeyG");
            reveal_strlit("KeyH");
            reveal_strlit("KeyI");
            reveal_strlit("KeyJ");
            assert("KeyJ"@[0] == 'K' && "KeyJ"@[1] == 'e' && "KeyJ"@[2] == 'y' && "KeyJ"@[3] == 'J');
        },
        VirtualKeyCode::K => {
            reveal_strlit("KeyA");
            reveal_strlit("KeyB");
            reveal_strlit("KeyC");
            reveal_strlit("KeyD");
            reveal_strlit("KeyE");
            reveal_strlit("KeyF");
            reveal_strlit("KeyG");
            reveal_strlit("KeyH");
            reveal_strlit("KeyI");
            reveal_strlit("KeyJ");
            reveal_strlit("KeyK");
            assert("KeyK"@[0] == 'K' && "KeyK"@[1] == 'e' && "KeyK"@[2] == 'y' && "KeyK"@[3] == 'K');
        },
        VirtualKeyCode::L => {
            reveal_strlit("KeyA");
            reveal_strlit("KeyB");
            reveal_strlit("KeyC");
            reveal_strlit("KeyD");
            reveal_strlit("KeyE");
            reveal_strlit("KeyF");
            reveal_strlit("KeyG");
            reveal_strlit("KeyH");
            reveal_strlit("KeyI");
            reveal_strlit("KeyJ");
            reveal_strlit("KeyK");
            reveal_strlit("KeyL");
            assert("KeyL"@[0] == 'K' && "KeyL"@[1] == 'e' && "KeyL"@[2] == 'y' && "KeyL"@[3] == 'L');
        },
        VirtualKeyCode::M => {
            reveal_strlit("KeyA");
            reveal_strlit("KeyB");
            reveal_strlit("KeyC");
            reveal_strlit("KeyD");
            reveal_strlit("KeyE");
            reveal_strlit("KeyF");
            reveal_strlit("KeyG");
            reveal_strlit("KeyH");
            reveal_strlit("KeyI");
            reveal_strlit("KeyJ");
            reveal_strlit("KeyK");
            reveal_strlit("KeyL");
            reveal_strlit("KeyM");
            assert("KeyM"@[0] == 'K' && "KeyM"@[1] == 'e' && "KeyM"@[2] == 'y' && "KeyM"@[3] == 'M');
        },
        VirtualKeyCode::N => {
            reveal_strlit("KeyA");
            reveal_strlit("KeyB");
            reveal_strlit("KeyC");
            reveal_strlit("KeyD");
            reveal_strlit("KeyE");
            reveal_strlit("KeyF");
            reveal_strlit("KeyG");
            reveal_strlit("KeyH");
            reveal_strlit("KeyI");
            reveal_strlit("KeyJ");
            reveal_strlit("KeyK");
            reveal_strlit("KeyL");
            reveal_strlit("KeyM");
            reveal_strlit("KeyN");
            assert("KeyN"@[0] == 'K' && "KeyN"@[1] == 'e' && "KeyN"@[2] == 'y' && "KeyN"@[3] == 'N');
        },
        VirtualKeyCode::O => {
            reveal_strlit("KeyA");
            reveal_strlit("KeyB");
            reveal_strlit("KeyC");
            reveal_strlit("KeyD");
            reveal_strlit("KeyE");
            reveal_strlit("KeyF");
            reveal_strlit("KeyG");
            reveal_strlit("KeyH");
            reveal_strlit("KeyI");
            reveal_strlit("KeyJ");
            reveal_strlit("KeyK");
            reveal_strlit("KeyL");
            reveal_strlit("KeyM");
            reveal_strlit("KeyN");
            reveal_strlit("KeyO");
            assert("KeyO"@[0] == 'K' && "KeyO"@[1] == 'e' && "KeyO"@[2] == 'y' && "KeyO"@[3] == 'O');
        },
        VirtualKeyCode::P => {
            reveal_strlit("KeyA");
            reveal_strlit("KeyB");
            reveal_strlit("KeyC");
            reveal_strlit("KeyD");
            reveal_strlit("KeyE");
            reveal_strlit("KeyF");
            reveal_strlit("KeyG");
            reveal_strlit("KeyH");
            reveal_strlit("KeyI");
            reveal_strlit("KeyJ");
            reveal_strlit("KeyK");
            reveal_strlit("KeyL");
            reveal_strlit("KeyM");
            reveal_strlit("KeyN");
            reveal_strlit("KeyO");
            reveal_strlit("KeyP");
            assert("KeyP"@[0] == 'K' && "KeyP"@[1] == 'e' && "KeyP"@[2] == 'y' && "KeyP"@[3] == 'P');
        },
        VirtualKeyCode::Q => {
            reveal_strlit("KeyA");
            reveal_strlit("KeyB");
            reveal_strlit("KeyC");
            reveal_strlit("KeyD");
            reveal_strlit("KeyE");
            reveal_strlit("KeyF");
            reveal_strlit("KeyG");
            reveal_strlit("KeyH");
            reveal_strlit("KeyI");
            reveal_strlit("KeyJ");
            reveal_strlit("KeyK");
            reveal_strlit("KeyL");
            reveal_strlit("KeyM");
            reveal_strlit("KeyN");
            reveal_strlit("KeyO");
            reveal_strlit("KeyP");
            reveal_strlit("KeyQ");
            assert("KeyQ"@[0] == 'K' && "KeyQ"@[1] == 'e' && "KeyQ"@[2] == 'y' && "KeyQ"@[3] == 'Q');
        },
        VirtualKeyCode::R => {
            reveal_strlit("KeyA");
            reveal_strlit("KeyB");
            reveal_strlit("KeyC");
            reveal_strlit("KeyD");
            reveal_strlit("KeyE");
            reveal_strlit("KeyF");
            reveal_strlit("KeyG");
            reveal_strlit("KeyH");
            reveal_strlit("KeyI");
            reveal_strlit("KeyJ");
            reveal_strlit("KeyK");
            reveal_strlit("KeyL");
            reveal_strlit("KeyM");
            reveal_strlit("KeyN");
            reveal_strlit("KeyO");
            reveal_strlit("KeyP");
            reveal_strlit("KeyQ");
            reveal_strlit("KeyR");
            assert("KeyR"@[0] == 'K' && "KeyR"@[1] == 'e' && "KeyR"@[2] == 'y' && "KeyR"@[3] == 'R');
        },
        VirtualKeyCode::S => {
            reveal_strlit("KeyA");
            reveal_strlit("KeyB");
            reveal_strlit("KeyC");
            reveal_strlit("KeyD");
            reveal_strlit("KeyE");
            reveal_strlit("KeyF");
            reveal_strlit("KeyG");
            reveal_strlit("KeyH");
            reveal_strlit("KeyI");
            reveal_strlit("KeyJ");
            reveal_strlit("KeyK");
            reveal_strlit("KeyL");
            reveal_strlit("KeyM");
            reveal_strlit("KeyN");
            reveal_strlit("KeyO");
            reveal_strlit("KeyP");
            reveal_strlit("KeyQ");
            reveal_strlit("KeyR");
            reveal_strlit("KeyS");
            assert("KeyS"@[0] == 'K' && "KeyS"@[1] == 'e' && "KeyS"@[2] == 'y' && "KeyS"@[3] == 'S');
        },
        VirtualKeyCode::T => {
            reveal_strlit("KeyA");
            reveal_strlit("KeyB");
            reveal_strlit("KeyC");
            reveal_strlit("KeyD");
            reveal_strlit("KeyE");
            reveal_strlit("KeyF");
            reveal_strlit("KeyG");
            reveal_strlit("KeyH");
            reveal_strlit("KeyI");
            reveal_strlit("KeyJ");
            reveal_strlit("KeyK");
            reveal_strlit("KeyL");
            reveal_strlit("KeyM");
            reveal_strlit("KeyN");
            reveal_strlit("KeyO");
            reveal_strlit("KeyP");
            reveal_strlit("KeyQ");
            reveal_strlit("KeyR");
            reveal_strlit("KeyS");
            reveal_strlit("KeyT");
            assert("KeyT"@[0] == 'K' && "KeyT"@[1] == 'e' && "KeyT"@[2] == 'y' && "KeyT"@[3] == 'T');
        },
        VirtualKeyCode::U => {
            reveal_strlit("KeyA");
            reveal_strlit("KeyB");
            reveal_strlit("KeyC");
            reveal_strlit("KeyD");
            reveal_strlit("KeyE");
            reveal_strlit("KeyF");
            reveal_strlit("KeyG");
            reveal_strlit("KeyH");
            reveal_strlit("KeyI");
            reveal_strlit("KeyJ");
            reveal_strlit("KeyK");
            reveal_strlit("KeyL");
            reveal_strlit("KeyM");
            reveal_strlit("KeyN");
            reveal_strlit("KeyO");
            reveal_strlit("KeyP");
            reveal_strlit("KeyQ");
            reveal_strlit("KeyR");
            reveal_strlit("KeyS");
            reveal_strlit("KeyT");
            reveal_strlit("KeyU");
            assert("KeyU"@[0] == 'K' && "KeyU"@[1] == 'e' && "KeyU"@[2] == 'y' && "KeyU"@[3] == 'U');
        },
        VirtualKeyCode::V => {
            reveal_strlit("KeyA");
            reveal_strlit("KeyB");
            reveal_strlit("KeyC");
            reveal_strlit("KeyD");
            reveal_strlit("KeyE");
            reveal_strlit("KeyF");
            reveal_strlit("KeyG");
            reveal_strlit("KeyH");
            reveal_strlit("KeyI");
            reveal_strlit("KeyJ");
            reveal_strlit("KeyK");
            reveal_strlit("KeyL");
            reveal_strlit("KeyM");
            reveal_strlit("KeyN");
            reveal_strlit("KeyO");
            reveal_strlit("KeyP");
            reveal_strlit("KeyQ");
            reveal_strlit("KeyR");
            reveal_strlit("KeyS");
            reveal_strlit("KeyT");
            reveal_strlit("KeyU");
            reveal_strlit("KeyV");
            assert("KeyV"@[0] == 'K' && "KeyV"@[1] == 'e' && "KeyV"@[2] == 'y' && "KeyV"@[3] == 'V');
        },
        VirtualKeyCode::W => {
            reveal_strlit("KeyA");
            reveal_strlit("KeyB");
            reveal_strlit("KeyC");
            reveal_strlit("KeyD");
            reveal_strlit("KeyE");
            reveal_strlit("KeyF");
            reveal_strlit("KeyG");
            reveal_strlit("KeyH");
            reveal_strlit("KeyI");
            reveal_strlit("KeyJ");
            reveal_strlit("KeyK");
            reveal_strlit("KeyL");
            reveal_strlit("KeyM");
            reveal_strlit("KeyN");
            reveal_strlit("KeyO");
            reveal_strlit("KeyP");
            reveal_strlit("KeyQ");
            reveal_strlit("KeyR");
            reveal_strlit("KeyS");
            reveal_strlit("KeyT");
            reveal_strlit("KeyU");
            reveal_strlit("KeyV");
            reveal_strlit("KeyW");
            assert("KeyW"@[0] == 'K' && "KeyW"@[1] == 'e' && "KeyW"@[2] == 'y' && "KeyW"@[3] == 'W');
        },
        VirtualKeyCode::X => {
            reveal_strlit("KeyA");
            reveal_strlit("KeyB");
            reveal_strlit("KeyC");
            reveal_strlit("KeyD");
            reveal_strlit("KeyE");
            reveal_strlit("KeyF");
            reveal_strlit("KeyG");
            reveal_strlit("KeyH");
            reveal_strlit("KeyI");
            reveal_strlit("KeyJ");
            reveal_strlit("KeyK");
            reveal_strlit("KeyL");
            reveal_strlit("KeyM");
            reveal_strlit("KeyN");
            reveal_strlit("KeyO");
            reveal_strlit("KeyP");
            reveal_strlit("KeyQ");
            reveal_strlit("KeyR");
            reveal_strlit("KeyS");
            reveal_strlit("KeyT");
            reveal_strlit("KeyU");
            reveal_strlit("KeyV");
            reveal_strlit("KeyW");
            reveal_strlit("KeyX");
            assert("KeyX"@[0] == 'K' && "KeyX"@[1] == 'e' && "KeyX"@[2] == 'y' && "KeyX"@[3] == 'X');
        },
        VirtualKeyCode::Y => {
            reveal_strlit("KeyA");
            reveal_strlit("KeyB");
            reveal_strlit("KeyC");
            reveal_strlit("KeyD");
            reveal_strlit("KeyE");
            reveal_strlit("KeyF");
            reveal_strlit("KeyG");
            reveal_strlit("KeyH");
            reveal_strlit("KeyI");
            reveal_strlit("KeyJ");
            reveal_strlit("KeyK");
            reveal_strlit("KeyL");
            reveal_strlit("KeyM");
            reveal_strlit("KeyN");
            reveal_strlit("KeyO");
            reveal_strlit("KeyP");
            reveal_strlit("KeyQ");
            reveal_strlit("KeyR");
            reveal_strlit("KeyS");
            reveal_strlit("KeyT");
            reveal_strlit("KeyU");
            reveal_strlit("KeyV");
            reveal_strlit("KeyW");
            reveal_strlit("KeyX");
            reveal_strlit("KeyY");
            assert("KeyY"@[0] == 'K' && "KeyY"@[1] == 'e' && "KeyY"@[2] == 'y' && "KeyY"@[3] == 'Y');
        },
        VirtualKeyCode::Z => {
            reveal_strlit("KeyA");
            reveal_strlit("KeyB");
            reveal_strlit("KeyC");
            reveal_strlit("KeyD");
            reveal_strlit("KeyE");
            reveal_strlit("KeyF");
            reveal_strlit("KeyG");
            reveal_strlit("KeyH");
            reveal_strlit("KeyI");
            reveal_strlit("KeyJ");
            reveal_strlit("KeyK");
            reveal_strlit("KeyL");
            reveal_strlit("KeyM");
            reveal_strlit("KeyN");
            reveal_strlit("KeyO");
            reveal_strlit("KeyP");
            reveal_strlit("KeyQ");
            reveal_strlit("KeyR");
            reveal_strlit("KeyS");
            reveal_strlit("KeyT");
            reveal_strlit("KeyU");
            reveal_strlit("KeyV");
            reveal_strlit("KeyW");
            reveal_strlit("KeyX");
            reveal_strlit("KeyY");
            reveal_strlit("KeyZ");
            assert("KeyZ"@[0] == 'K' && "KeyZ"@[1] == 'e' && "KeyZ"@[2] == 'y' && "KeyZ"@[3] == 'Z');
        },
        VirtualKeyCode::Kana => {
            reveal_strlit("KeyA");
            reveal_strlit("KeyB");
            reveal_strlit("KeyC");
            reveal_strlit("KeyD");
            reveal_strlit("KeyE");
            reveal_strlit("KeyF");
            reveal_strlit("KeyG");
            reveal_strlit("KeyH");
            reveal_strlit("KeyI");
            reveal_strlit("KeyJ");
            reveal_strlit("KeyK");
            reveal_strlit("KeyL");
            reveal_strlit("KeyM");
            reveal_strlit("KeyN");
            reveal_strlit("KeyO");
            reveal_strlit("KeyP");
            reveal_strlit("KeyQ");
            reveal_strlit("KeyR");
            reveal_strlit("KeyS");
            reveal_strlit("KeyT");
            reveal_strlit("KeyU");
            reveal_strlit("KeyV");
            reveal_strlit("KeyW");
            reveal_strlit("KeyX");
            reveal_strlit("KeyY");
            reveal_strlit("KeyZ");
            reveal_strlit("Kana");
            assert("Kana"@[0] == 'K' && "Kana"@[1] == 'a' && "Kana"@[2] == 'n' && "Kana"@[3] == 'a');
        },
        VirtualKeyCode::Home => {
            reveal_strlit("Home");
            assert("Home"@[0] == 'H' && "Home"@[1] == 'o' && "Home"@[2] == 'm' && "Home"@[3] == 'e');
        },
        VirtualKeyCode::Apps => {
            reveal_strlit("Apps");
            assert("Apps"@[0] == 'A' && "Apps"@[1] == 'p' && "Apps"@[2] == 'p' && "Apps"@[3] == 's');
        },
        VirtualKeyCode::Mail => {
            reveal_strlit("Mail");
            assert("Mail"@[0] == 'M' && "Mail"@[1] == 'a' && "Mail"@[2] == 'i' && "Mail"@[3] == 'l');
        },
        VirtualKeyCode::Mute => {
            reveal_strlit("Mail");
            reveal_strlit("Mute");
            assert("Mute"@[0] == 'M' && "Mute"@[1] == 'u' && "Mute"@[2] == 't' && "Mute"@[3] == 'e');
        },
        VirtualKeyCode::Stop => {
            reveal_strlit("Stop");
            assert("Stop"@[0] == 'S' && "Stop"@[1] == 't' && "Stop"@[2] == 'o' && "Stop"@[3] == 'p');
        },
        VirtualKeyCode::Wake => {
            reveal_strlit("Wake");
            assert("Wake"@[0] == 'W' && "Wake"@[1] == 'a' && "Wake"@[2] == 'k' && "Wake"@[3] == 'e');
        },
        VirtualKeyCode::Pause => {
            reveal_strlit("Pause");
            assert("Pause"@[0] == 'P' && "Pause"@[1] == 'a' && "Pause"@[2] == 'u' && "Pause"@[3] == 's' && "Pause"@[4] == 'e');
        },
        VirtualKeyCode::Power => {
            reveal_strlit("Pause");
            reveal_strlit("Power");
            assert("Power"@[0] == 'P' && "Power"@[1] == 'o' && "Power"@[2] == 'w' && "Power"@[3] == 'e' && "Power"@[4] == 'r');
        },
        VirtualKeyCode::Return => {
            reveal_strlit("Enter");
            assert("Enter"@[0] == 'E' && "Enter"@[1] == 'n' && "Enter"@[2] == 't' && "Enter"@[3] == 'e' && "Enter"@[4] == 'r');
        },
        VirtualKeyCode::Equals => {
            reveal_strlit("Enter");
            reveal_strlit("Equal");
            assert("Equal"@[0] == 'E' && "Equal"@[1] == 'q' && "Equal"@[2] == 'u' && "Equal"@[3] == 'a' && "Equal"@[4] == 'l');
        },
        VirtualKeyCode::Space => {
            reveal_strlit("Space");
            assert("Space"@[0] == 'S' && "Space"@[1] == 'p' && "Space"@[2] == 'a' && "Space"@[3] == 'c' && "Space"@[4] == 'e');
        },
        VirtualKeyCode::Slash => {
            reveal_strlit("Space");
            reveal_strlit("Slash");
            assert("Slash"@[0] == 'S' && "Slash"@[1] == 'l' && "Slash"@[2] == 'a' && "Slash"@[3] == 's' && "Slash"@[4] == 'h');
        },
        VirtualKeyCode::Sleep => {
            reveal_strlit("Space");
            reveal_strlit("Slash");
            reveal_strlit("Sleep");
            assert("Sleep"@[0] == 'S' && "Sleep"@[1] == 'l' && "Sleep"@[2] == 'e' && "Sleep"@[3] == 'e' && "Sleep"@[4] == 'p');
        },
        VirtualKeyCode::Sysrq => {
            reveal_strlit("Space");
            reveal_strlit("Slash");
            reveal_strlit("Sleep");
            reveal_strlit("Sysrq");
            assert("Sysrq"@[0] == 'S' && "Sysrq"@[1] == 'y' && "Sysrq"@[2] == 's' && "Sysrq"@[3] == 'r' && "Sysrq"@[4] == 'q');
        },
        VirtualKeyCode::Caret => {
            reveal_strlit("Caret");
            assert("Caret"@[0] == 'C' && "Caret"@[1] == 'a' && "Caret"@[2] == 'r' && "Caret"@[3] == 'e' && "Caret"@[4] == 't');
        },
        VirtualKeyCode::Comma => {
            reveal_strlit("Caret");
            reveal_strlit("Comma");
            assert("Comma"@[0] == 'C' && "Comma"@[1] == 'o' && "Comma"@[2] == 'm' && "Comma"@[3] == 'm' && "Comma"@[4] == 'a');
        },
        VirtualKeyCode::Apostrophe => {
            reveal_strlit("Quote");
            assert("Quote"@[0] == 'Q' && "Quote"@[1] == 'u' && "Quote"@[2] == 'o' && "Quote"@[3] == 't' && "Quote"@[4] == 'e');
        },
        VirtualKeyCode::Kanji => {
            reveal_strlit("Kanji");
            assert("Kanji"@[0] == 'K' && "Kanji"@[1] == 'a' && "Kanji"@[2] == 'n' && "Kanji"@[3] == 'j' && "Kanji"@[4] == 'i');
        },
        VirtualKeyCode::Minus => {
            reveal_strlit("Minus");
            assert("Minus"@[0] == 'M' && "Minus"@[1] == 'i' && "Minus"@[2] == 'n' && "Minus"@[3] == 'u' && "Minus"@[4] == 's');
        },
        VirtualKeyCode::Key1 => {
            reveal_strlit("Digit1");
            assert("Digit1"@[0] == 'D' && "Digit1"@[1] == 'i' && "Digit1"@[2] == 'g' && "Digit1"@[3] == 'i' && "Digit1"@[4] == 't' && "Digit1"@[5] == '1');
        },
        VirtualKeyCode::Key2 => {
            reveal_strlit("Digit1");
            reveal_strlit("Digit2");
            assert("Digit2"@[0] == 'D' && "Digit2"@[1] == 'i' && "Digit2"@[2] == 'g' && "Digit2"@[3] == 'i' && "Digit2"@[4] == 't' && "Digit2"@[5] == '2');
        },
        VirtualKeyCode::Key3 => {
            reveal_strlit("Digit1");
            reveal_strlit("Digit2");
            reveal_strlit("Digit3");
            assert("Digit3"@[0] == 'D' && "Digit3"@[1] == 'i' && "Digit3"@[2] == 'g' && "Digit3"@[3] == 'i' && "Digit3"@[4] == 't' && "Digit3"@[5] == '3');
        },
        VirtualKeyCode::Key4 => {
            reveal_strlit("Digit1");
            reveal_strlit("Digit2");
            reveal_strlit("Digit3");
            reveal_strlit("Digit4");
            assert("Digit4"@[0] == 'D' && "Digit4"@[1] == 'i' && "Digit4"@[2] == 'g' && "Digit4"@[3] == 'i' && "Digit4"@[4] == 't' && "Digit4"@[5] == '4');
        },
        VirtualKeyCode::Key5 => {
            reveal_strlit("Digit1");
            reveal_strlit("Digit2");
            reveal_strlit("Digit3");
            reveal_strlit("Digit4");
            reveal_strlit("Digit5");
            assert("Digit5"@[0] == 'D' && "Digit5"@[1] == 'i' && "Digit5"@[2] == 'g' && "Digit5"@[3] == 'i' && "Digit5"@[4] == 't' && "Digit5"@[5] == '5');
        },
        VirtualKeyCode::Key6 => {
            reveal_strlit("Digit1");
            reveal_strlit("Digit2");
            reveal_strlit("Digit3");
            reveal_strlit("Digit4");
            reveal_strlit("Digit5");
            reveal_strlit("Digit6");
            assert("Digit6"@[0] == 'D' && "Digit6"@[1] == 'i' && "Digit6"@[2] == 'g' && "Digit6"@[3] == 'i' && "Digit6"@[4] == 't' && "Digit6"@[5] == '6');
        },
        VirtualKeyCode::Key7 => {
            reveal_strlit("Digit1");
            reveal_strlit("Digit2");
            reveal_strlit("Digit3");
            reveal_strlit("Digit4");
            reveal_strlit("Digit5");
            reveal_strlit("Digit6");
            reveal_strlit("Digit7");
            assert("Digit7"@[0] == 'D' && "Digit7"@[1] == 'i' && "Digit7"@[2] == 'g' && "Digit7"@[3] == 'i' && "Digit7"@[4] == 't' && "Digit7"@[5] == '7');
        },
        VirtualKeyCode::Key8 => {
            reveal_strlit("Digit1");
            reveal_strlit("Digit2");
            reveal_strlit("Digit3");
            reveal_strlit("Digit4");
            reveal_strlit("Digit5");
            reveal_strlit("Digit6");
            reveal_strlit("Digit7");
            reveal_strlit("Digit8");
            assert("Digit8"@[0] == 'D' && "Digit8"@[1] == 'i' && "Digit8"@[2] == 'g' && "Digit8"@[3] == 'i' && "Digit8"@[4] == 't' && "Digit8"@[5] == '8');
        },
        VirtualKeyCode::Key9 => {
            reveal_strlit("Digit1");
            reveal_strlit("Digit2");
            reveal_strlit("Digit3");
            reveal_strlit("Digit4");
            reveal_strlit("Digit5");
            reveal_strlit("Digit6");
            reveal_strlit("Digit7");
            reveal_strlit("Digit8");
            reveal_strlit("Digit9");
            assert("Digit9"@[0] == 'D' && "Digit9"@[1] == 'i' && "Digit9"@[2] == 'g' && "Digit9"@[3] == 'i' && "Digit9"@[4] == 't' && "Digit9"@[5] == '9');
        },
        VirtualKeyCode::Key0 => {
            reveal_strlit("Digit1");
            reveal_strlit("Digit2");
            reveal_strlit("Digit3");
            reveal_strlit("Digit4");
            reveal_strlit("Digit5");
            reveal_strlit("Digit6");
            reveal_strlit("Digit7");
            reveal_strlit("Digit8");
            reveal_strlit("Digit9");
            reveal_strlit("Digit0");
            assert("Digit0"@[0] == 'D' && "Digit0"@[1] == 'i' && "Digit0"@[2] == 'g' && "Digit0"@[3] == 'i' && "Digit0"@[4] == 't' && "Digit0"@[5] == '0');
        },
        VirtualKeyCode::Delete => {
            reveal_strlit("Digit1");
            reveal_strlit("Digit2");
            reveal_strlit("Digit3");
            reveal_strlit("Digit4");
            reveal_strlit("Digit5");
            reveal_strlit("Digit6");
            reveal_strlit("Digit7");
            reveal_strlit("Digit8");
            reveal_strlit("Digit9");
            reveal_strlit("Digit0");
            reveal_strlit("Delete");
            assert("Delete"@[0] == 'D' && "Delete"@[1] == 'e' && "Delete"@[2] == 'l' && "Delete"@[3] == 'e' && "Delete"@[4] == 't' && "Delete"@[5] == 'e');
        },
        VirtualKeyCode::Escape => {
            reveal_strlit("Escape");
            assert("Escape"@[0] == 'E' && "Escape"@[1] == 's' && "Escape"@[2] == 'c' && "Escape"@[3] == 'a' && "Escape"@[4] == 'p' && "Escape"@[5] == 'e');
        },
        VirtualKeyCode::Insert => {
            reveal_strlit("Insert");
            assert("Insert"@[0] == 'I' && "Insert"@[1] == 'n' && "Insert"@[2] == 's' && "Insert"@[3] == 'e' && "Insert"@[4] == 'r' && "Insert"@[5] == 't');
        },
        VirtualKeyCode::PageUp => {
            reveal_strlit("PageUp");
            assert("PageUp"@[0] == 'P' && "PageUp"@[1] == 'a' && "PageUp"@[2] == 'g' && "PageUp"@[3] == 'e' && "PageUp"@[4] == 'U' && "PageUp"@[5] == 'p');
        },
        VirtualKeyCode::Period => {
            reveal_strlit("PageUp");
            reveal_strlit("Period");
            assert("Period"@[0] == 'P' && "Period"@[1] == 'e' && "Period"@[2] == 'r' && "Period"@[3] == 'i' && "Period"@[4] == 'o' && "Period"@[5] == 'd');
        },
        VirtualKeyCode::AbntC1 => {
            reveal_strlit("AbntC1");
            assert("AbntC1"@[0] == 'A' && "AbntC1"@[1] == 'b' && "AbntC1"@[2] == 'n' && "AbntC1"@[3] == 't' && "AbntC1"@[4] == 'C' && "AbntC1"@[5] == '1');
        },
        VirtualKeyCode::AbntC2 => {
            reveal_strlit("AbntC1");
            reveal_strlit("AbntC2");
            assert("AbntC2"@[0] == 'A' && "AbntC2"@[1] == 'b' && "AbntC2"@[2] == 'n' && "AbntC2"@[3] == 't' && "AbntC2"@[4] == 'C' && "AbntC2"@[5] == '2');
        },
        VirtualKeyCode::OEM102 => {
            reveal_strlit("OEM102");
            assert("OEM102"@[0] == 'O' && "OEM102"@[1] == 'E' && "OEM102"@[2] == 'M' && "OEM102"@[3] == '1' && "OEM102"@[4] == '0' && "OEM102"@[5] == '2');
        },
        VirtualKeyCode::Up => {
            reveal_strlit("ArrowUp");
            assert("ArrowUp"@[0] == 'A' && "ArrowUp"@[1] == 'r' && "ArrowUp"@[2] == 'r' && "ArrowUp"@[3] == 'o' && "ArrowUp"@[4] == 'w' && "ArrowUp"@[5] == 'U' && "ArrowUp"@[6] == 'p');
        },
        VirtualKeyCode::LAlt => {
            reveal_strlit("ArrowUp");
            reveal_strlit("AltLeft");
            assert("AltLeft"@[0] == 'A' && "AltLeft"@[1] == 'l' && "AltLeft"@[2] == 't' && "AltLeft"@[3] == 'L' && "AltLeft"@[4] == 'e' && "AltLeft"@[5] == 'f' && "AltLeft"@[6] == 't');
        },
        VirtualKeyCode::Compose => {
            reveal_strlit("Compose");
            assert("Compose"@[0] == 'C' && "Compose"@[1] == 'o' && "Compose"@[2] == 'm' && "Compose"@[3] == 'p' && "Compose"@[4] == 'o' && "Compose"@[5] == 's' && "Compose"@[6] == 'e');
        },
        VirtualKeyCode::Capital => {
            reveal_strlit("Compose");
            reveal_strlit("Capital");
            assert("Capital"@[0] == 'C' && "Capital"@[1] == 'a' && "Capital"@[2] == 'p' && "Capital"@[3] == 'i' && "Capital"@[4] == 't' && "Capital"@[5] == 'a' && "Capital"@[6] == 'l');
        },
        VirtualKeyCode::Convert => {
            reveal_strlit("Compose");
            reveal_strlit("Capital");
            reveal_strlit("Convert");
            assert("Convert"@[0] == 'C' && "Convert"@[1] == 'o' && "Convert"@[2] == 'n' && "Convert"@[3] == 'v' && "Convert"@[4] == 'e' && "Convert"@[5] == 'r' && "Convert"@[6] == 't');
        },
        VirtualKeyCode::Numlock => {
            reveal_strlit("NumLock");
            assert("NumLock"@[0] == 'N' && "NumLock"@[1] == 'u' && "NumLock"@[2] == 'm' && "NumLock"@[3] == 'L' && "NumLock"@[4] == 'o' && "NumLock"@[5] == 'c' && "NumLock"@[6] == 'k');
        },
        VirtualKeyCode::Numpad0 => {
            reveal_strlit("NumLock");
            reveal_strlit("Numpad0");
            assert("Numpad0"@[0] == 'N' && "Numpad0"@[1] == 'u' && "Numpad0"@[2] == 'm' && "Numpad0"@[3] == 'p' && "Numpad0"@[4] == 'a' && "Numpad0"@[5] == 'd' && "Numpad0"@[6] == '0');
        },
        VirtualKeyCode::Numpad1 => {
            reveal_strlit("NumLock");
            reveal_strlit("Numpad0");
            reveal_strlit("Numpad1");
            assert("Numpad1"@[0] == 'N' && "Numpad1"@[1] == 'u' && "Numpad1"@[2] == 'm' && "Numpad1"@[3] == 'p' && "Numpad1"@[4] == 'a' && "Numpad1"@[5] == 'd' && "Numpad1"@[6] == '1');
        },
        VirtualKeyCode::Numpad2 => {
            reveal_strlit("NumLock");
            reveal_strlit("Numpad0");
            reveal_strlit("Numpad1");
            reveal_strlit("Numpad2");
            assert("Numpad2"@[0] == 'N' && "Numpad2"@[1] == 'u' && "Numpad2"@[2] == 'm' && "Numpad2"@[3] == 'p' && "Numpad2"@[4] == 'a' && "Numpad2"@[5] == 'd' && "Numpad2"@[6] == '2');
        },
        VirtualKeyCode::Numpad3 => {
            reveal_strlit("NumLock");
            reveal_strlit("Numpad0");
            reveal_strlit("Numpad1");
            reveal_strlit("Numpad2");
            reveal_strlit("Numpad3");
            assert("Numpad3"@[0] == 'N' && "Numpad3"@[1] == 'u' && "Numpad3"@[2] == 'm' && "Numpad3"@[3] == 'p' && "Numpad3"@[4] == 'a' && "Numpad3"@[5] == 'd' && "Numpad3"@[6] == '3');
        },
        VirtualKeyCode::Numpad4 => {
            reveal_strlit("NumLock");
            reveal_strlit("Numpad0");
            reveal_strlit("Numpad1");
            reveal_strlit("Numpad2");
            reveal_strlit("Numpad3");
            reveal_strlit("Numpad4");
            assert("Numpad4"@[0] == 'N' && "Numpad4"@[1] == 'u' && "Numpad4"@[2] == 'm' && "Numpad4"@[3] == 'p' && "Numpad4"@[4] == 'a' && "Numpad4"@[5] == 'd' && "Numpad4"@[6] == '4');
        },
        VirtualKeyCode::Numpad5 => {
            reveal_strlit("NumLock");
            reveal_strlit("Numpad0");
            reveal_strlit("Numpad1");
            reveal_strlit("Numpad2");
            reveal_strlit("Numpad3");
            reveal_strlit("Numpad4");
            reveal_strlit("Numpad5");
            assert("Numpad5"@[0] == 'N' && "Numpad5"@[1] == 'u' && "Numpad5"@[2] == 'm' && "Numpad5"@[3] == 'p' && "Numpad5"@[4] == 'a' && "Numpad5"@[5] == 'd' && "Numpad5"@[6] == '5');
        },
        VirtualKeyCode::Numpad6 => {
            reveal_strlit("NumLock");
            reveal_strlit("Numpad0");
            reveal_strlit("Numpad1");
            reveal_strlit("Numpad2");
            reveal_strlit("Numpad3");
            reveal_strlit("Numpad4");
            reveal_strlit("Numpad5");
            reveal_strlit("Numpad6");
            assert("Numpad6"@[0] == 'N' && "Numpad6"@[1] == 'u' && "Numpad6"@[2] == 'm' && "Numpad6"@[3] == 'p' && "Numpad6"@[4] == 'a' && "Numpad6"@[5] == 'd' && "Numpad6"@[6] == '6');
        },
        VirtualKeyCode::Numpad7 => {
            reveal_strlit("NumLock");
            reveal_strlit("Numpad0");
            reveal_strlit("Numpad1");
            reveal_strlit("Numpad2");
            reveal_strlit("Numpad3");
            reveal_strlit("Numpad4");
            reveal_strlit("Numpad5");
            reveal_strlit("Numpad6");
            reveal_strlit("Numpad7");
            assert("Numpad7"@[0] == 'N' && "Numpad7"@[1] == 'u' && "Numpad7"@[2] == 'm' && "Numpad7"@[3] == 'p' && "Numpad7"@[4] == 'a' && "Numpad7"@[5] == 'd' && "Numpad7"@[6] == '7');
        },
        VirtualKeyCode::Numpad8 => {
            reveal_strlit("NumLock");
            reveal_strlit("Numpad0");
            reveal_strlit("Numpad1");
            reveal_strlit("Numpad2");
            reveal_strlit("Numpad3");
            reveal_strlit("Numpad4");
            reveal_strlit("Numpad5");
            reveal_strlit("Numpad6");
            reveal_strlit("Numpad7");
            reveal_strlit("Numpad8");
            assert("Numpad8"@[0] == 'N' && "Numpad8"@[1] == 'u' && "Numpad8"@[2] == 'm' && "Numpad8"@[3] == 'p' && "Numpad8"@[4] == 'a' && "Numpad8"@[5] == 'd' && "Numpad8"@[6] == '8');
        },
        VirtualKeyCode::Numpad9 => {
            reveal_strlit("NumLock");
            reveal_strlit("Numpad0");
            reveal_strlit("Numpad1");
            reveal_strlit("Numpad2");
            reveal_strlit("Numpad3");
            reveal_strlit("Numpad4");
            reveal_strlit("Numpad5");
            reveal_strlit("Numpad6");
            reveal_strlit("Numpad7");
            reveal_strlit("Numpad8");
            reveal_strlit("Numpad9");
            assert("Numpad9"@[0] == 'N' && "Numpad9"@[1] == 'u' && "Numpad9"@[2] == 'm' && "Numpad9"@[3] == 'p' && "Numpad9"@[4] == 'a' && "Numpad9"@[5] == 'd' && "Numpad9"@[6] == '9');
        },
        VirtualKeyCode::WebBack => {
            reveal_strlit("WebBack");
            assert("WebBack"@[0] == 'W' && "WebBack"@[1] == 'e' && "WebBack"@[2] == 'b' && "WebBack"@[3] == 'B' && "WebBack"@[4] == 'a' && "WebBack"@[5] == 'c' && "WebBack"@[6] == 'k');
        },
        VirtualKeyCode::WebHome => {
            reveal_strlit("WebBack");
            reveal_strlit("WebHome");
            assert("WebHome"@[0] == 'W' && "WebHome"@[1] == 'e' && "WebHome"@[2] == 'b' && "WebHome"@[3] == 'H' && "WebHome"@[4] == 'o' && "WebHome"@[5] == 'm' && "WebHome"@[6] == 'e');
        },
        VirtualKeyCode::WebStop => {
            reveal_strlit("WebBack");
            reveal_strlit("WebHome");
            reveal_strlit("WebStop");
            assert("WebStop"@[0] == 'W' && "WebStop"@[1] == 'e' && "WebStop"@[2] == 'b' && "WebStop"@[3] == 'S' && "WebStop"@[4] == 't' && "WebStop"@[5] == 'o' && "WebStop"@[6] == 'p');
        },
        VirtualKeyCode::PageDown => {
            reveal_strlit("PageDown");
            assert("PageDown"@[0] == 'P' && "PageDown"@[1] == 'a' && "PageDown"@[2] == 'g' && "PageDown"@[3] == 'e' && "PageDown"@[4] == 'D' && "PageDown"@[5] == 'o' && "PageDown"@[6] == 'w' && "PageDown"@[7] == 'n');
        },
        VirtualKeyCode::LWin => {
            reveal_strlit("MetaLeft");
            assert("MetaLeft"@[0] == 'M' && "MetaLeft"@[1] == 'e' && "MetaLeft"@[2] == 't' && "MetaLeft"@[3] == 'a' && "MetaLeft"@[4] == 'L' && "MetaLeft"@[5] == 'e' && "MetaLeft"@[6] == 'f' && "MetaLeft"@[7] == 't');
        },
        VirtualKeyCode::RAlt => {
            reveal_strlit("AltRight");
            assert("AltRight"@[0] == 'A' && "AltRight"@[1] == 'l' && "AltRight"@[2] == 't' && "AltRight"@[3] == 'R' && "AltRight"@[4] == 'i' && "AltRight"@[5] == 'g' && "AltRight"@[6] == 'h' && "AltRight"@[7] == 't');
        },
        VirtualKeyCode::Left => {
            reveal_strlit("ArrowLeft");
            assert("ArrowLeft"@[0] == 'A' && "ArrowLeft"@[1] == 'r' && "ArrowLeft"@[2] == 'r' && "ArrowLeft"@[3] == 'o' && "ArrowLeft"@[4] == 'w' && "ArrowLeft"@[5] == 'L' && "ArrowLeft"@[6] == 'e' && "ArrowLeft"@[7] == 'f' && "ArrowLeft"@[8] == 't');
        },
        VirtualKeyCode::Down => {
            reveal_strlit("ArrowLeft");
            reveal_strlit("ArrowDown");
            assert("ArrowDown"@[0] == 'A' && "ArrowDown"@[1] == 'r' && "ArrowDown"@[2] == 'r' && "ArrowDown"@[3] == 'o' && "ArrowDown"@[4] == 'w' && "ArrowDown"@[5] == 'D' && "ArrowDown"@[6] == 'o' && "ArrowDown"@[7] == 'w' && "ArrowDown"@[8] == 'n');
        },
        VirtualKeyCode::Backspace => {
            reveal_strlit("Backspace");
            assert("Backspace"@[0] == 'B' && "Backspace"@[1] == 'a' && "Backspace"@[2] == 'c' && "Backspace"@[3] == 'k' && "Backspace"@[4] == 's' && "Backspace"@[5] == 'p' && "Backspace"@[6] == 'a' && "Backspace"@[7] == 'c' && "Backspace"@[8] == 'e');
        },
        VirtualKeyCode::Backslash => {
            reveal_strlit("Backspace");
            reveal_strlit("Backslash");
            assert("Backslash"@[0] == 'B' && "Backslash"@[1] == 'a' && "Backslash"@[2] == 'c' && "Backslash"@[3] == 'k' && "Backslash"@[4] == 's' && "Backslash"@[5] == 'l' && "Backslash"@[6] == 'a' && "Backslash"@[7] == 's' && "Backslash"@[8] == 'h');
        },
        VirtualKeyCode::Grave => {
            reveal_strlit("Backspace");
            reveal_strlit("Backslash");
            reveal_strlit("Backquote");
            assert("Backquote"@[0] == 'B' && "Backquote"@[1] == 'a' && "Backquote"@[2] == 'c' && "Backquote"@[3] == 'k' && "Backquote"@[4] == 'q' && "Backquote"@[5] == 'u' && "Backquote"@[6] == 'o' && "Backquote"@[7] == 't' && "Backquote"@[8] == 'e');
        },
        VirtualKeyCode::Add => {
            reveal_strlit("NumpadAdd");
            assert("NumpadAdd"@[0] == 'N' && "NumpadAdd"@[1] == 'u' && "NumpadAdd"@[2] == 'm' && "NumpadAdd"@[3] == 'p' && "NumpadAdd"@[4] == 'a' && "NumpadAdd"@[5] == 'd' && "NumpadAdd"@[6] == 'A' && "NumpadAdd"@[7] == 'd' && "NumpadAdd"@[8] == 'd');
        },
        VirtualKeyCode::NextTrack => {
            reveal_strlit("NumpadAdd");
            reveal_strlit("NextTrack");
            assert("NextTrack"@[0] == 'N' && "NextTrack"@[1] == 'e' && "NextTrack"@[2] == 'x' && "NextTrack"@[3] == 't' && "NextTrack"@[4] == 'T' && "NextTrack"@[5] == 'r' && "NextTrack"@[6] == 'a' && "NextTrack"@[7] == 'c' && "NextTrack"@[8] == 'k');
        },
        VirtualKeyCode::NoConvert => {
            reveal_strlit("NumpadAdd");
            reveal_strlit("NextTrack");
            reveal_strlit("NoConvert");
            assert("NoConvert"@[0] == 'N' && "NoConvert"@[1] == 'o' && "NoConvert"@[2] == 'C' && "NoConvert"@[3] == 'o' && "NoConvert"@[4] == 'n' && "NoConvert"@[5] == 'v' && "NoConvert"@[6] == 'e' && "NoConvert"@[7] == 'r' && "NoConvert"@[8] == 't');
        },
        VirtualKeyCode::Semicolon => {
            reveal_strlit("Semicolon");
            assert("Semicolon"@[0] == 'S' && "Semicolon"@[1] == 'e' && "Semicolon"@[2] == 'm' && "Semicolon"@[3] == 'i' && "Semicolon"@[4] == 'c' && "Semicolon"@[5] == 'o' && "Semicolon"@[6] == 'l' && "Semicolon"@[7] == 'o' && "Semicolon"@[8] == 'n');
        },
        VirtualKeyCode::LShift => {
            reveal_strlit("Semicolon");
            reveal_strlit("ShiftLeft");
            assert("ShiftLeft"@[0] == 'S' && "ShiftLeft"@[1] == 'h' && "ShiftLeft"@[2] == 'i' && "ShiftLeft"@[3] == 'f' && "ShiftLeft"@[4] == 't' && "ShiftLeft"@[5] == 'L' && "ShiftLeft"@[6] == 'e' && "ShiftLeft"@[7] == 'f' && "ShiftLeft"@[8] == 't');
        },
        VirtualKeyCode::MediaStop => {
            reveal_strlit("MediaStop");
            assert("MediaStop"@[0] == 'M' && "MediaStop"@[1] == 'e' && "MediaStop"@[2] == 'd' && "MediaStop"@[3] == 'i' && "MediaStop"@[4] == 'a' && "MediaStop"@[5] == 'S' && "MediaStop"@[6] == 't' && "MediaStop"@[7] == 'o' && "MediaStop"@[8] == 'p');
        },
        VirtualKeyCode::RWin => {
            reveal_strlit("MediaStop");
            reveal_strlit("MetaRight");
            assert("MetaRight"@[0] == 'M' && "MetaRight"@[1] == 'e' && "MetaRight"@[2] == 't' && "MetaRight"@[3] == 'a' && "MetaRight"@[4] == 'R' && "MetaRight"@[5] == 'i' && "MetaRight"@[6] == 'g' && "MetaRight"@[7] == 'h' && "MetaRight"@[8] == 't');
        },
        VirtualKeyCode::PlayPause => {
            reveal_strlit("PlayPause");
            assert("PlayPause"@[0] == 'P' && "PlayPause"@[1] == 'l' && "PlayPause"@[2] == 'a' && "PlayPause"@[3] == 'y' && "PlayPause"@[4] == 'P' && "PlayPause"@[5] == 'a' && "PlayPause"@[6] == 'u' && "PlayPause"@[7] == 's' && "PlayPause"@[8] == 'e');
        },
        VirtualKeyCode::PrevTrack => {
            reveal_strlit("PlayPause");
            reveal_strlit("PrevTrack");
            assert("PrevTrack"@[0] == 'P' && "PrevTrack"@[1] == 'r' && "PrevTrack"@[2] == 'e' && "PrevTrack"@[3] == 'v' && "PrevTrack"@[4] == 'T' && "PrevTrack"@[5] == 'r' && "PrevTrack"@[6] == 'a' && "PrevTrack"@[7] == 'c' && "PrevTrack"@[8] == 'k');
        },
        VirtualKeyCode::Underline => {
            reveal_strlit("Underline");
            assert("Underline"@[0] == 'U' && "Underline"@[1] == 'n' && "Underline"@[2] == 'd' && "Underline"@[3] == 'e' && "Underline"@[4] == 'r' && "Underline"@[5] == 'l' && "Underline"@[6] == 'i' && "Underline"@[7] == 'n' && "Underline"@[8] == 'e');
        },
        VirtualKeyCode::Unlabeled => {
            reveal_strlit("Underline");
            reveal_strlit("Unlabeled");
            assert("Unlabeled"@[0] == 'U' && "Unlabeled"@[1] == 'n' && "Unlabeled"@[2] == 'l' && "Unlabeled"@[3] == 'a' && "Unlabeled"@[4] == 'b' && "Unlabeled"@[5] == 'e' && "Unlabeled"@[6] == 'l' && "Unlabeled"@[7] == 'e' && "Unlabeled"@[8] == 'd');
        },
        VirtualKeyCode::WebSearch => {
            reveal_strlit("WebSearch");
            assert("WebSearch"@[0] == 'W' && "WebSearch"@[1] == 'e' && "WebSearch"@[2] == 'b' && "WebSearch"@[3] == 'S' && "WebSearch"@[4] == 'e' && "WebSearch"@[5] == 'a' && "WebSearch"@[6] == 'r' && "WebSearch"@[7] == 'c' && "WebSearch"@[8] == 'h');
        },
        VirtualKeyCode::Scroll => {
            reveal_strlit("ScrollLock");
            assert("ScrollLock"@[0] == 'S' && "ScrollLock"@[1] == 'c' && "ScrollLock"@[2] == 'r' && "ScrollLock"@[3] == 'o' && "ScrollLock"@[4] == 'l' && "ScrollLock"@[5] == 'l' && "ScrollLock"@[6] == 'L' && "ScrollLock"@[7] == 'o' && "ScrollLock"@[8] == 'c' && "ScrollLock"@[9] == 'k');
        },
        VirtualKeyCode::RShift => {
            reveal_strlit("ScrollLock");
            reveal_strlit("ShiftRight");
            assert("ShiftRight"@[0] == 'S' && "ShiftRight"@[1] == 'h' && "ShiftRight"@[2] == 'i' && "ShiftRight"@[3] == 'f' && "ShiftRight"@[4] == 't' && "ShiftRight"@[5] == 'R' && "ShiftRight"@[6] == 'i' && "ShiftRight"@[7] == 'g' && "ShiftRight"@[8] == 'h' && "ShiftRight"@[9] == 't');
        },
        VirtualKeyCode::Right => {
            reveal_strlit("ArrowRight");
            assert("ArrowRight"@[0] == 'A' && "ArrowRight"@[1] == 'r' && "ArrowRight"@[2] == 'r' && "ArrowRight"@[3] == 'o' && "ArrowRight"@[4] == 'w' && "ArrowRight"@[5] == 'R' && "ArrowRight"@[6] == 'i' && "ArrowRight"@[7] == 'g' && "ArrowRight"@[8] == 'h' && "ArrowRight"@[9] == 't');
        },
        VirtualKeyCode::Calculator => {
            reveal_strlit("Calculator");
            assert("Calculator"@[0] == 'C' && "Calculator"@[1] == 'a' && "Calculator"@[2] == 'l' && "Calculator"@[3] == 'c' && "Calculator"@[4] == 'u' && "Calculator"@[5] == 'l' && "Calculator"@[6] == 'a' && "Calculator"@[7] == 't' && "Calculator"@[8] == 'o' && "Calculator"@[9] == 'r');
        },
        VirtualKeyCode::WebForward => {
            reveal_strlit("WebForward");
            assert("WebForward"@[0] == 'W' && "WebForward"@[1] == 'e' && "WebForward"@[2] == 'b' && "WebForward"@[3] == 'F' && "WebForward"@[4] == 'o' && "WebForward"@[5] == 'r' && "WebForward"@[6] == 'w' && "WebForward"@[7] == 'a' && "WebForward"@[8] == 'r' && "WebForward"@[9] == 'd');
        },
        VirtualKeyCode::WebRefresh => {
            reveal_strlit("WebForward");
            reveal_strlit("WebRefresh");
            assert("WebRefresh"@[0] == 'W' && "WebRefresh"@[1] == 'e' && "WebRefresh"@[2] == 'b' && "WebRefresh"@[3] == 'R' && "WebRefresh"@[4] == 'e' && "WebRefresh"@[5] == 'f' && "WebRefresh"@[6] == 'r' && "WebRefresh"@[7] == 'e' && "WebRefresh"@[8] == 's' && "WebRefresh"@[9] == 'h');
        },
        VirtualKeyCode::Snapshot => {
            reveal_strlit("PrintScreen");
            assert("PrintScreen"@[0] == 'P' && "PrintScreen"@[1] == 'r' && "PrintScreen"@[2] == 'i' && "PrintScreen"@[3] == 'n' && "PrintScreen"@[4] == 't' && "PrintScreen"@[5] == 'S' && "PrintScreen"@[6] == 'c' && "PrintScreen"@[7] == 'r' && "PrintScreen"@[8] == 'e' && "PrintScreen"@[9] == 'e' && "PrintScreen"@[10] == 'n');
        },
        VirtualKeyCode::LBracket => {
            reveal_strlit("BracketLeft");
            assert("BracketLeft"@[0] == 'B' && "BracketLeft"@[1] == 'r' && "BracketLeft"@[2] == 'a' && "BracketLeft"@[3] == 'c' && "BracketLeft"@[4] == 'k' && "BracketLeft"@[5] == 'e' && "BracketLeft"@[6] == 't' && "BracketLeft"@[7] == 'L' && "BracketLeft"@[8] == 'e' && "BracketLeft"@[9] == 'f' && "BracketLeft"@[10] == 't');
        },
        VirtualKeyCode::LControl => {
            reveal_strlit("ControlLeft");
            assert("ControlLeft"@[0] == 'C' && "ControlLeft"@[1] == 'o' && "ControlLeft"@[2] == 'n' && "ControlLeft"@[3] == 't' && "ControlLeft"@[4] == 'r' && "ControlLeft"@[5] == 'o' && "ControlLeft"@[6] == 'l' && "ControlLeft"@[7] == 'L' && "ControlLeft"@[8] == 'e' && "ControlLeft"@[9] == 'f' && "ControlLeft"@[10] == 't');
        },
        VirtualKeyCode::MediaSelect => {
            reveal_strlit("MediaSelect");
            assert("MediaSelect"@[0] == 'M' && "MediaSelect"@[1] == 'e' && "MediaSelect"@[2] == 'd' && "MediaSelect"@[3] == 'i' && "MediaSelect"@[4] == 'a' && "MediaSelect"@[5] == 'S' && "MediaSelect"@[6] == 'e' && "MediaSelect"@[7] == 'l' && "MediaSelect"@[8] == 'e' && "MediaSelect"@[9] == 'c' && "MediaSelect"@[10] == 't');
        },
        VirtualKeyCode::NumpadComma => {
            reveal_strlit("NumpadComma");
            assert("NumpadComma"@[0] == 'N' && "NumpadComma"@[1] == 'u' && "NumpadComma"@[2] == 'm' && "NumpadComma"@[3] == 'p' && "NumpadComma"@[4] == 'a' && "NumpadComma"@[5] == 'd' && "NumpadComma"@[6] == 'C' && "NumpadComma"@[7] == 'o' && "NumpadComma"@[8] == 'm' && "NumpadComma"@[9] == 'm' && "NumpadComma"@[10] == 'a');
        },
        VirtualKeyCode::NumpadEnter => {
            reveal_strlit("NumpadComma");
            reveal_strlit("NumpadEnter");
            assert("NumpadEnter"@[0] == 'N' && "NumpadEnter"@[1] == 'u' && "NumpadEnter"@[2] == 'm' && "NumpadEnter"@[3] == 'p' && "NumpadEnter"@[4] == 'a' && "NumpadEnter"@[5] == 'd' && "NumpadEnter"@[6] == 'E' && "NumpadEnter"@[7] == 'n' && "NumpadEnter"@[8] == 't' && "NumpadEnter"@[9] == 'e' && "NumpadEnter"@[10] == 'r');
        },
        VirtualKeyCode::Divide => {
            reveal_strlit("NumpadDivide");
            assert("NumpadDivide"@[0] == 'N' && "NumpadDivide"@[1] == 'u' && "NumpadDivide"@[2] == 'm' && "NumpadDivide"@[3] == 'p' && "NumpadDivide"@[4] == 'a' && "NumpadDivide"@[5] == 'd' && "NumpadDivide"@[6] == 'D' && "NumpadDivide"@[7] == 'i' && "NumpadDivide"@[8] == 'v' && "NumpadDivide"@[9] == 'i' && "NumpadDivide"@[10] == 'd' && "NumpadDivide"@[11] == 'e');
        },
        VirtualKeyCode::NumpadEquals => {
            reveal_strlit("NumpadDivide");
            reveal_strlit("NumpadEquals");
            assert("NumpadEquals"@[0] == 'N' && "NumpadEquals"@[1] == 'u' && "NumpadEquals"@[2] == 'm' && "NumpadEquals"@[3] == 'p' && "NumpadEquals"@[4] == 'a' && "NumpadEquals"@[5] == 'd' && "NumpadEquals"@[6] == 'E' && "NumpadEquals"@[7] == 'q' && "NumpadEquals"@[8] == 'u' && "NumpadEquals"@[9] == 'a' && "NumpadEquals"@[10] == 'l' && "NumpadEquals"@[11] == 's');
        },
        VirtualKeyCode::RBracket => {
            reveal_strlit("BracketRight");
            assert("BracketRight"@[0] == 'B' && "BracketRight"@[1] == 'r' && "BracketRight"@[2] == 'a' && "BracketRight"@[3] == 'c' && "BracketRight"@[4] == 'k' && "BracketRight"@[5] == 'e' && "BracketRight"@[6] == 't' && "BracketRight"@[7] == 'R' && "BracketRight"@[8] == 'i' && "BracketRight"@[9] == 'g' && "BracketRight"@[10] == 'h' && "BracketRight"@[11] == 't');
        },
        VirtualKeyCode::RControl => {
            reveal_strlit("ControlRight");
            assert("ControlRight"@[0] == 'C' && "ControlRight"@[1] == 'o' && "ControlRight"@[2] == 'n' && "ControlRight"@[3] == 't' && "ControlRight"@[4] == 'r' && "ControlRight"@[5] == 'o' && "ControlRight"@[6] == 'l' && "ControlRight"@[7] == 'R' && "ControlRight"@[8] == 'i' && "ControlRight"@[9] == 'g' && "ControlRight"@[10] == 'h' && "ControlRight"@[11] == 't');
        },
        VirtualKeyCode::WebFavorites => {
            reveal_strlit("WebFavorites");
            assert("WebFavorites"@[0] == 'W' && "WebFavorites"@[1] == 'e' && "WebFavorites"@[2] == 'b' && "WebFavorites"@[3] == 'F' && "WebFavorites"@[4] == 'a' && "WebFavorites"@[5] == 'v' && "WebFavorites"@[6] == 'o' && "WebFavorites"@[7] == 'r' && "WebFavorites"@[8] == 'i' && "WebFavorites"@[9] == 't' && "WebFavorites"@[10] == 'e' && "WebFavorites"@[11] == 's');
        },
        VirtualKeyCode::Decimal => {
            reveal_strlit("NumpadDecimal");
            assert("NumpadDecimal"@[0] == 'N' && "NumpadDecimal"@[1] == 'u' && "NumpadDecimal"@[2] == 'm' && "NumpadDecimal"@[3] == 'p' && "NumpadDecimal"@[4] == 'a' && "NumpadDecimal"@[5] == 'd' && "NumpadDecimal"@[6] == 'D' && "NumpadDecimal"@[7] == 'e' && "NumpadDecimal"@[8] == 'c' && "NumpadDecimal"@[9] == 'i' && "NumpadDecimal"@[10] == 'm' && "NumpadDecimal"@[11] == 'a' && "NumpadDecimal"@[12] == 'l');
        },
        VirtualKeyCode::VolumeUp => {
            reveal_strlit("AudioVolumeUp");
            assert("AudioVolumeUp"@[0] == 'A' && "AudioVolumeUp"@[1] == 'u' && "AudioVolumeUp"@[2] == 'd' && "AudioVolumeUp"@[3] == 'i' && "AudioVolumeUp"@[4] == 'o' && "AudioVolumeUp"@[5] == 'V' && "AudioVolumeUp"@[6] == 'o' && "AudioVolumeUp"@[7] == 'l' && "AudioVolumeUp"@[8] == 'u' && "AudioVolumeUp"@[9] == 'm' && "AudioVolumeUp"@[10] == 'e' && "AudioVolumeUp"@[11] == 'U' && "AudioVolumeUp"@[12] == 'p');
        },
        VirtualKeyCode::Multiply => {
            reveal_strlit("NumpadMultiply");
            assert("NumpadMultiply"@[0] == 'N' && "NumpadMultiply"@[1] == 'u' && "NumpadMultiply"@[2] == 'm' && "NumpadMultiply"@[3] == 'p' && "NumpadMultiply"@[4] == 'a' && "NumpadMultiply"@[5] == 'd' && "NumpadMultiply"@[6] == 'M' && "NumpadMultiply"@[7] == 'u' && "NumpadMultiply"@[8] == 'l' && "NumpadMultiply"@[9] == 't' && "NumpadMultiply"@[10] == 'i' && "NumpadMultiply"@[11] == 'p' && "NumpadMultiply"@[12] == 'l' && "NumpadMultiply"@[13] == 'y');
        },
        VirtualKeyCode::NavigateForward => {
            reveal_strlit("NavigateForward");
            assert("NavigateForward"@[0] == 'N' && "NavigateForward"@[1] == 'a' && "NavigateForward"@[2] == 'v' && "NavigateForward"@[3] == 'i' && "NavigateForward"@[4] == 'g' && "NavigateForward"@[5] == 'a' && "NavigateForward"@[6] == 't' && "NavigateForward"@[7] == 'e' && "NavigateForward"@[8] == 'F' && "NavigateForward"@[9] == 'o' && "NavigateForward"@[10] == 'r' && "NavigateForward"@[11] == 'w' && "NavigateForward"@[12] == 'a' && "NavigateForward"@[13] == 'r' && "NavigateForward"@[14] == 'd');
        },
        VirtualKeyCode::VolumeDown => {
            reveal_strlit("AudioVolumeDown");
            assert("AudioVolumeDown"@[0] == 'A' && "AudioVolumeDown"@[1] == 'u' && "AudioVolumeDown"@[2] == 'd' && "AudioVolumeDown"@[3] == 'i' && "AudioVolumeDown"@[4] == 'o' && "AudioVolumeDown"@[5] == 'V' && "AudioVolumeDown"@[6] == 'o' && "AudioVolumeDown"@[7] == 'l' && "AudioVolumeDown"@[8] == 'u' && "AudioVolumeDown"@[9] == 'm' && "AudioVolumeDown"@[10] == 'e' && "AudioVolumeDown"@[11] == 'D' && "AudioVolumeDown"@[12] == 'o' && "AudioVolumeDown"@[13] == 'w' && "AudioVolumeDown"@[14] == 'n');
        },
        VirtualKeyCode::MyComputer => {
            reveal_strlit("LaunchMyComputer");
            assert("LaunchMyComputer"@[0] == 'L' && "LaunchMyComputer"@[1] == 'a' && "LaunchMyComputer"@[2] == 'u' && "LaunchMyComputer"@[3] == 'n' && "LaunchMyComputer"@[4] == 'c' && "LaunchMyComputer"@[5] == 'h' && "LaunchMyComputer"@[6] == 'M' && "LaunchMyComputer"@[7] == 'y' && "LaunchMyComputer"@[8] == 'C' && "LaunchMyComputer"@[9] == 'o' && "LaunchMyComputer"@[10] == 'm' && "LaunchMyComputer"@[11] == 'p' && "LaunchMyComputer"@[12] == 'u' && "LaunchMyComputer"@[13] == 't' && "LaunchMyComputer"@[14] == 'e' && "LaunchMyComputer"@[15] == 'r');
        },
        VirtualKeyCode::NavigateBackward => {
            reveal_strlit("NavigateBackward");
            assert("NavigateBackward"@[0] == 'N' && "NavigateBackward"@[1] == 'a' && "NavigateBackward"@[2] == 'v' && "NavigateBackward"@[3] == 'i' && "NavigateBackward"@[4] == 'g' && "NavigateBackward"@[5] == 'a' && "NavigateBackward"@[6] == 't' && "NavigateBackward"@[7] == 'e' && "NavigateBackward"@[8] == 'B' && "NavigateBackward"@[9] == 'a' && "NavigateBackward"@[10] == 'c' && "NavigateBackward"@[11] == 'k' && "NavigateBackward"@[12] == 'w' && "NavigateBackward"@[13] == 'a' && "NavigateBackward"@[14] == 'r' && "NavigateBackward"@[15] == 'd');
        },
        _ => {},
    }
}

/// The code `Key` followed by a capital letter names the letter's key: the
/// letter keys follow each other in alphabetical order in the declaration,
/// from position 10.
pub proof fn lemma_letter_codes(c: char)
    requires
        'A' <= c && c <= 'Z',
    ensures
        key_of_code(seq!['K', 'e', 'y', c]) == Some(key_of_rank((c as nat - 'A' as nat + 10) as nat)),
{
    if c == 'A' {
        lemma_listed_code_names_key(Key::A);
        reveal_strlit("KeyA");
        assert(seq!['K', 'e', 'y', c] =~= "KeyA"@);
    } else if c == 'B' {
        lemma_listed_code_names_key(Key::B);
        reveal_strlit("KeyB");
        assert(seq!['K', 'e', 'y', c] =~= "KeyB"@);
    } else if c == 'C' {
        lemma_listed_code_names_key(Key::C);
        reveal_strlit("KeyC");
        assert(seq!['K', 'e', 'y', c] =~= "KeyC"@);
    } else if c == 'D' {
        lemma_listed_code_names_key(Key::D);
        reveal_strlit("KeyD");
        assert(seq!['K', 'e', 'y', c] =~= "KeyD"@);
    } else if c == 'E' {
        lemma_listed_code_names_key(Key::E);
        reveal_strlit("KeyE");
        assert(seq!['K', 'e', 'y', c] =~= "KeyE"@);
    } else if c == 'F' {
        lemma_listed_code_names_key(Key::F);
        reveal_strlit("KeyF");
        assert(seq!['K', 'e', 'y', c] =~= "KeyF"@);
    } else if c == 'G' {
        lemma_listed_code_names_key(Key::G);
        reveal_strlit("KeyG");
        assert(seq!['K', 'e', 'y', c] =~= "KeyG"@);
    } else if c == 'H' {
        lemma_listed_code_names_key(Key::H);
        reveal_strlit("KeyH");
        assert(seq!['K', 'e', 'y', c] =~= "KeyH"@);
    } else if c == 'I' {
        lemma_listed_code_names_key(Key::I);
        reveal_strlit("KeyI");
        assert(seq!['K', 'e', 'y', c] =~= "KeyI"@);
    } else if c == 'J' {
        lemma_listed_code_names_key(Key::J);
        reveal_strlit("KeyJ");
        assert(seq!['K', 'e', 'y', c] =~= "KeyJ"@);
    } else if c == 'K' {
        lemma_listed_code_names_key(Key::K);
        reveal_strlit("KeyK");
        assert(seq!['K', 'e', 'y', c] =~= "KeyK"@);
    } else if c == 'L' {
        lemma_listed_code_names_key(Key::L);
        reveal_strlit("KeyL");
        assert(seq!['K', 'e', 'y', c] =~= "KeyL"@);
    } else if c == 'M' {
        lemma_listed_code_names_key(Key::M);
        reveal_strlit("KeyM");
        assert(seq!['K', 'e', 'y', c] =~= "KeyM"@);
    } else if c == 'N' {
        lemma_listed_code_names_key(Key::N);
        reveal_strlit("KeyN");
        assert(seq!['K', 'e', 'y', c] =~= "KeyN"@);
    } else if c == 'O' {
        lemma_listed_code_names_key(Key::O);
        reveal_strlit("KeyO");
        assert(seq!['K', 'e', 'y', c] =~= "KeyO"@);
    } else if c == 'P' {
        lemma_listed_code_names_key(Key::P);
        reveal_strlit("KeyP");
        assert(seq!['K', 'e', 'y', c] =~= "KeyP"@);
    } else if c == 'Q' {
        lemma_listed_code_names_key(Key::Q);
        reveal_strlit("KeyQ");
        assert(seq!['K', 'e', 'y', c] =~= "KeyQ"@);
    } else if c == 'R' {
        lemma_listed_code_names_key(Key::R);
        reveal_strlit("KeyR");
        assert(seq!['K', 'e', 'y', c] =~= "KeyR"@);
    } else if c == 'S' {
        lemma_listed_code_names_key(Key::S);
        reveal_strlit("KeyS");
        assert(seq!['K', 'e', 'y', c] =~= "KeyS"@);
    } else if c == 'T' {
        lemma_listed_code_names_key(Key::T);
        reveal_strlit("KeyT");
        assert(seq!['K', 'e', 'y', c] =~= "KeyT"@);
    } else if c == 'U' {
        lemma_listed_code_names_key(Key::U);
        reveal_strlit("KeyU");
        assert(seq!['K', 'e', 'y', c] =~= "KeyU"@);
    } else if c == 'V' {
        lemma_listed_code_names_key(Key::V);
        reveal_strlit("KeyV");
        assert(seq!['K', 'e', 'y', c] =~= "KeyV"@);
    } else if c == 'W' {
        lemma_listed_code_names_key(Key::W);
        reveal_strlit("KeyW");
        assert(seq!['K', 'e', 'y', c] =~= "KeyW"@);
    } else if c == 'X' {
        lemma_listed_code_names_key(Key::X);
        reveal_strlit("KeyX");
        assert(seq!['K', 'e', 'y', c] =~= "KeyX"@);
    } else if c == 'Y' {
        lemma_listed_code_names_key(Key::Y);
        reveal_strlit("KeyY");
        assert(seq!['K', 'e', 'y', c] =~= "KeyY"@);
    } else if c == 'Z' {
        lemma_listed_code_names_key(Key::Z);
        reveal_strlit("KeyZ");
        assert(seq!['K', 'e', 'y', c] =~= "KeyZ"@);
    }
}
/// The code `Digit` followed by a digit from 1 to 9 names that digit's
/// key, at the position of the digit less one in the declaration.
pub proof fn lemma_digit_codes(c: char)
    requires
        '1' <= c && c <= '9',
    ensures
        key_of_code(seq!['D', 'i', 'g', 'i', 't', c]) == Some(key_of_rank((c as nat - '1' as nat) as nat)),
{
    if c == '1' {
        lemma_listed_code_names_key(Key::Key1);
        reveal_strlit("Digit1");
        assert(seq!['D', 'i', 'g', 'i', 't', c] =~= "Digit1"@);
    } else if c == '2' {
        lemma_listed_code_names_key(Key::Key2);
        reveal_strlit("Digit2");
        assert(seq!['D', 'i', 'g', 'i', 't', c] =~= "Digit2"@);
    } else if c == '3' {
        lemma_listed_code_names_key(Key::Key3);
        reveal_strlit("Digit3");
        assert(seq!['D', 'i', 'g', 'i', 't', c] =~= "Digit3"@);
    } else if c == '4' {
        lemma_listed_code_names_key(Key::Key4);
        reveal_strlit("Digit4");
        assert(seq!['D', 'i', 'g', 'i', 't', c] =~= "Digit4"@);
    } else if c == '5' {
        lemma_listed_code_names_key(Key::Key5);
        reveal_strlit("Digit5");
        assert(seq!['D', 'i', 'g', 'i', 't', c] =~= "Digit5"@);
    } else if c == '6' {
        lemma_listed_code_names_key(Key::Key6);
        reveal_strlit("Digit6");
        assert(seq!['D', 'i', 'g', 'i', 't', c] =~= "Digit6"@);
    } else if c == '7' {
        lemma_listed_code_names_key(Key::Key7);
        reveal_strlit("Digit7");
        assert(seq!['D', 'i', 'g', 'i', 't', c] =~= "Digit7"@);
    } else if c == '8' {
        lemma_listed_code_names_key(Key::Key8);
        reveal_strlit("Digit8");
        assert(seq!['D', 'i', 'g', 'i', 't', c] =~= "Digit8"@);
    } else if c == '9' {
        lemma_listed_code_names_key(Key::Key9);
        reveal_strlit("Digit9");
        assert(seq!['D', 'i', 'g', 'i', 't', c] =~= "Digit9"@);
    }
}
/// The code `Numpad` followed by a digit names that digit's numpad
/// key: the numpad digit keys follow each other from position 80.
pub proof fn lemma_numpad_codes(c: char)
    requires
        '0' <= c && c <= '9',
    ensures
        key_of_code(seq!['N', 'u', 'm', 'p', 'a', 'd', c]) == Some(key_of_rank((c as nat - '0' as nat + 80) as nat)),
{
    if c == '0' {
        lemma_listed_code_names_key(Key::Numpad0);
        reveal_strlit("Numpad0");
        assert(seq!['N', 'u', 'm', 'p', 'a', 'd', c] =~= "Numpad0"@);
    } else if c == '1' {
        lemma_listed_code_names_key(Key::Numpad1);
        reveal_strlit("Numpad1");
        assert(seq!['N', 'u', 'm', 'p', 'a', 'd', c] =~= "Numpad1"@);
    } else if c == '2' {
        lemma_listed_code_names_key(Key::Numpad2);
        reveal_strlit("Numpad2");
        assert(seq!['N', 'u', 'm', 'p', 'a', 'd', c] =~= "Numpad2"@);
    } else if c == '3' {
        lemma_listed_code_names_key(Key::Numpad3);
        reveal_strlit("Numpad3");
        assert(seq!['N', 'u', 'm', 'p', 'a', 'd', c] =~= "Numpad3"@);
    } else if c == '4' {
        lemma_listed_code_names_key(Key::Numpad4);
        reveal_strlit("Numpad4");
        assert(seq!['N', 'u', 'm', 'p', 'a', 'd', c] =~= "Numpad4"@);
    } else if c == '5' {
        lemma_listed_code_names_key(Key::Numpad5);
        reveal_strlit("Numpad5");
        assert(seq!['N', 'u', 'm', 'p', 'a', 'd', c] =~= "Numpad5"@);
    } else if c == '6' {
        lemma_listed_code_names_key(Key::Numpad6);
        reveal_strlit("Numpad6");
        assert(seq!['N', 'u', 'm', 'p', 'a', 'd', c] =~= "Numpad6"@);
    } else if c == '7' {
        lemma_listed_code_names_key(Key::Numpad7);
        reveal_strlit("Numpad7");
        assert(seq!['N', 'u', 'm', 'p', 'a', 'd', c] =~= "Numpad7"@);
    } else if c == '8' {
        lemma_listed_code_names_key(Key::Numpad8);
        reveal_strlit("Numpad8");
        assert(seq!['N', 'u', 'm', 'p', 'a', 'd', c] =~= "Numpad8"@);
    } else if c == '9' {
        lemma_listed_code_names_key(Key::Numpad9);
        reveal_strlit("Numpad9");
        assert(seq!['N', 'u', 'm', 'p', 'a', 'd', c] =~= "Numpad9"@);
    }
}
/// The code `F` followed by a digit from 1 to 9 names that function
/// key: the function keys follow each other from position 37.
pub proof fn lemma_function_codes(c: char)
    requires
        '1' <= c && c <= '9',
    ensures
        key_of_code(seq!['F', c]) == Some(key_of_rank((c as nat - '1' as nat + 37) as nat)),
{
    if c == '1' {
        lemma_listed_code_names_key(Key::F1);
        reveal_strlit("F1");
        assert(seq!['F', c] =~= "F1"@);
    } else if c == '2' {
        lemma_listed_code_names_key(Key::F2);
        reveal_strlit("F2");
        assert(seq!['F', c] =~= "F2"@);
    } else if c == '3' {
        lemma_listed_code_names_key(Key::F3);
        reveal_strlit("F3");
        assert(seq!['F', c] =~= "F3"@);
    } else if c == '4' {
        lemma_listed_code_names_key(Key::F4);
        reveal_strlit("F4");
        assert(seq!['F', c] =~= "F4"@);
    } else if c == '5' {
        lemma_listed_code_names_key(Key::F5);
        reveal_strlit("F5");
        assert(seq!['F', c] =~= "F5"@);
    } else if c == '6' {
        lemma_listed_code_names_key(Key::F6);
        reveal_strlit("F6");
        assert(seq!['F', c] =~= "F6"@);
    } else if c == '7' {
        lemma_listed_code_names_key(Key::F7);
        reveal_strlit("F7");
        assert(seq!['F', c] =~= "F7"@);
    } else if c == '8' {
        lemma_listed_code_names_key(Key::F8);
        reveal_strlit("F8");
        assert(seq!['F', c] =~= "F8"@);
    } else if c == '9' {
        lemma_listed_code_names_key(Key::F9);
        reveal_strlit("F9");
        assert(seq!['F', c] =~= "F9"@);
    }
}
/// The code `Key` followed by a capital letter names the letter's window key: the
/// letter keys follow each other in alphabetical order in the declaration,
/// from position 10.
pub proof fn lemma_letter_codes_virtual(c: char)
    requires
        'A' <= c && c <= 'Z',
    ensures
        virtual_key_of_code(seq!['K', 'e', 'y', c]) == Some(virtual_key_of_rank((c as nat - 'A' as nat + 10) as nat)),
{
    if c == 'A' {
        lemma_listed_code_names_virtual_key(VirtualKeyCode::A);
        reveal_strlit("KeyA");
        assert(seq!['K', 'e', 'y', c] =~= "KeyA"@);
    } else if c == 'B' {
        lemma_listed_code_names_virtual_key(VirtualKeyCode::B);
        reveal_strlit("KeyB");
        assert(seq!['K', 'e', 'y', c] =~= "KeyB"@);
    } else if c == 'C' {
        lemma_listed_code_names_virtual_key(VirtualKeyCode::C);
        reveal_strlit("KeyC");
        assert(seq!['K', 'e', 'y', c] =~= "KeyC"@);
    } else if c == 'D' {
        lemma_listed_code_names_virtual_key(VirtualKeyCode::D);
        reveal_strlit("KeyD");
        assert(seq!['K', 'e', 'y', c] =~= "KeyD"@);
    } else if c == 'E' {
        lemma_listed_code_names_virtual_key(VirtualKeyCode::E);
        reveal_strlit("KeyE");
        assert(seq!['K', 'e', 'y', c] =~= "KeyE"@);
    } else if c == 'F' {
        lemma_listed_code_names_virtual_key(VirtualKeyCode::F);
        reveal_strlit("KeyF");
        assert(seq!['K', 'e', 'y', c] =~= "KeyF"@);
    } else if c == 'G' {
        lemma_listed_code_names_virtual_key(VirtualKeyCode::G);
        reveal_strlit("KeyG");
        assert(seq!['K', 'e', 'y', c] =~= "KeyG"@);
    } else if c == 'H' {
        lemma_listed_code_names_virtual_key(VirtualKeyCode::H);
        reveal_strlit("KeyH");
        assert(seq!['K', 'e', 'y', c] =~= "KeyH"@);
    } else if c == 'I' {
        lemma_listed_code_names_virtual_key(VirtualKeyCode::I);
        reveal_strlit("KeyI");
        assert(seq!['K', 'e', 'y', c] =~= "KeyI"@);
    } else if c == 'J' {
        lemma_listed_code_names_virtual_key(VirtualKeyCode::J);
        reveal_strlit("KeyJ");
        assert(seq!['K', 'e', 'y', c] =~= "KeyJ"@);
    } else if c == 'K' {
        lemma_listed_code_names_virtual_key(VirtualKeyCode::K);
        reveal_strlit("KeyK");
        assert(seq!['K', 'e', 'y', c] =~= "KeyK"@);
    } else if c == 'L' {
        lemma_listed_code_names_virtual_key(VirtualKeyCode::L);
        reveal_strlit("KeyL");
        assert(seq!['K', 'e', 'y', c] =~= "KeyL"@);
    } else if c == 'M' {
        lemma_listed_code_names_virtual_key(VirtualKeyCode::M);
        reveal_strlit("KeyM");
        assert(seq!['K', 'e', 'y', c] =~= "KeyM"@);
    } else if c == 'N' {
        lemma_listed_code_names_virtual_key(VirtualKeyCode::N);
        reveal_strlit("KeyN");
        assert(seq!['K', 'e', 'y', c] =~= "KeyN"@);
    } else if c == 'O' {
        lemma_listed_code_names_virtual_key(VirtualKeyCode::O);
        reveal_strlit("KeyO");
        assert(seq!['K', 'e', 'y', c] =~= "KeyO"@);
    } else if c == 'P' {
        lemma_listed_code_names_virtual_key(VirtualKeyCode::P);
        reveal_strlit("KeyP");
        assert(seq!['K', 'e', 'y', c] =~= "KeyP"@);
    } else if c == 'Q' {
        lemma_listed_code_names_virtual_key(VirtualKeyCode::Q);
        reveal_strlit("KeyQ");
        assert(seq!['K', 'e', 'y', c] =~= "KeyQ"@);
    } else if c == 'R' {
        lemma_listed_code_names_virtual_key(VirtualKeyCode::R);
        reveal_strlit("KeyR");
        assert(seq!['K', 'e', 'y', c] =~= "KeyR"@);
    } else if c == 'S' {
        lemma_listed_code_names_virtual_key(VirtualKeyCode::S);
        reveal_strlit("KeyS");
        assert(seq!['K', 'e', 'y', c] =~= "KeyS"@);
    } else if c == 'T' {
        lemma_listed_code_names_virtual_key(VirtualKeyCode::T);
        reveal_strlit("KeyT");
        assert(seq!['K', 'e', 'y', c] =~= "KeyT"@);
    } else if c == 'U' {
        lemma_listed_code_names_virtual_key(VirtualKeyCode::U);
        reveal_strlit("KeyU");
        assert(seq!['K', 'e', 'y', c] =~= "KeyU"@);
    } else if c == 'V' {
        lemma_listed_code_names_virtual_key(VirtualKeyCode::V);
        reveal_strlit("KeyV");
        assert(seq!['K', 'e', 'y', c] =~= "KeyV"@);
    } else if c == 'W' {
        lemma_listed_code_names_virtual_key(VirtualKeyCode::W);
        reveal_strlit("KeyW");
        assert(seq!['K', 'e', 'y', c] =~= "KeyW"@);
    } else if c == 'X' {
        lemma_listed_code_names_virtual_key(VirtualKeyCode::X);
        reveal_strlit("KeyX");
        assert(seq!['K', 'e', 'y', c] =~= "KeyX"@);
    } else if c == 'Y' {
        lemma_listed_code_names_virtual_key(VirtualKeyCode::Y);
        reveal_strlit("KeyY");
        assert(seq!['K', 'e', 'y', c] =~= "KeyY"@);
    } else if c == 'Z' {
        lemma_listed_code_names_virtual_key(VirtualKeyCode::Z);
        reveal_strlit("KeyZ");
        assert(seq!['K', 'e', 'y', c] =~= "KeyZ"@);
    }
}
/// The code `Digit` followed by a digit from 1 to 9 names that digit's
/// window key, at the position of the digit less one in the declaration.
pub proof fn lemma_digit_codes_virtual(c: char)
    requires
        '1' <= c && c <= '9',
    ensures
        virtual_key_of_code(seq!['D', 'i', 'g', 'i', 't', c]) == Some(virtual_key_of_rank((c as nat - '1' as nat) as nat)),
{
    if c == '1' {
        lemma_listed_code_names_virtual_key(VirtualKeyCode::Key1);
        reveal_strlit("Digit1");
        assert(seq!['D', 'i', 'g', 'i', 't', c] =~= "Digit1"@);
    } else if c == '2' {
        lemma_listed_code_names_virtual_key(VirtualKeyCode::Key2);
        reveal_strlit("Digit2");
        assert(seq!['D', 'i', 'g', 'i', 't', c] =~= "Digit2"@);
    } else if c == '3' {
        lemma_listed_code_names_virtual_key(VirtualKeyCode::Key3);
        reveal_strlit("Digit3");
        assert(seq!['D', 'i', 'g', 'i', 't', c] =~= "Digit3"@);
    } else if c == '4' {
        lemma_listed_code_names_virtual_key(VirtualKeyCode::Key4);
        reveal_strlit("Digit4");
        assert(seq!['D', 'i', 'g', 'i', 't', c] =~= "Digit4"@);
    } else if c == '5' {
        lemma_listed_code_names_virtual_key(VirtualKeyCode::Key5);
        reveal_strlit("Digit5");
        assert(seq!['D', 'i', 'g', 'i', 't', c] =~= "Digit5"@);
    } else if c == '6' {
        lemma_listed_code_names_virtual_key(VirtualKeyCode::Key6);
        reveal_strlit("Digit6");
        assert(seq!['D', 'i', 'g', 'i', 't', c] =~= "Digit6"@);
    } else if c == '7' {
        lemma_listed_code_names_virtual_key(VirtualKeyCode::Key7);
        reveal_strlit("Digit7");
        assert(seq!['D', 'i', 'g', 'i', 't', c] =~= "Digit7"@);
    } else if c == '8' {
        lemma_listed_code_names_virtual_key(VirtualKeyCode::Key8);
        reveal_strlit("Digit8");
        assert(seq!['D', 'i', 'g', 'i', 't', c] =~= "Digit8"@);
    } else if c == '9' {
        lemma_listed_code_names_virtual_key(VirtualKeyCode::Key9);
        reveal_strlit("Digit9");
        assert(seq!['D', 'i', 'g', 'i', 't', c] =~= "Digit9"@);
    }
}
/// The code `Numpad` followed by a digit names that digit's numpad
/// window key: the numpad digit keys follow each other from position 80.
pub proof fn lemma_numpad_codes_virtual(c: char)
    requires
        '0' <= c && c <= '9',
    ensures
        virtual_key_of_code(seq!['N', 'u', 'm', 'p', 'a', 'd', c]) == Some(virtual_key_of_rank((c as nat - '0' as nat + 80) as nat)),
{
    if c == '0' {
        lemma_listed_code_names_virtual_key(VirtualKeyCode::Numpad0);
        reveal_strlit("Numpad0");
        assert(seq!['N', 'u', 'm', 'p', 'a', 'd', c] =~= "Numpad0"@);
    } else if c == '1' {
        lemma_listed_code_names_virtual_key(VirtualKeyCode::Numpad1);
        reveal_strlit("Numpad1");
        assert(seq!['N', 'u', 'm', 'p', 'a', 'd', c] =~= "Numpad1"@);
    } else if c == '2' {
        lemma_listed_code_names_virtual_key(VirtualKeyCode::Numpad2);
        reveal_strlit("Numpad2");
        assert(seq!['N', 'u', 'm', 'p', 'a', 'd', c] =~= "Numpad2"@);
    } else if c == '3' {
        lemma_listed_code_names_virtual_key(VirtualKeyCode::Numpad3);
        reveal_strlit("Numpad3");
        assert(seq!['N', 'u', 'm', 'p', 'a', 'd', c] =~= "Numpad3"@);
    } else if c == '4' {
        lemma_listed_code_names_virtual_key(VirtualKeyCode::Numpad4);
        reveal_strlit("Numpad4");
        assert(seq!['N', 'u', 'm', 'p', 'a', 'd', c] =~= "Numpad4"@);
    } else if c == '5' {
        lemma_listed_code_names_virtual_key(VirtualKeyCode::Numpad5);
        reveal_strlit("Numpad5");
        assert(seq!['N', 'u', 'm', 'p', 'a', 'd', c] =~= "Numpad5"@);
    } else if c == '6' {
        lemma_listed_code_names_virtual_key(VirtualKeyCode::Numpad6);
        reveal_strlit("Numpad6");
        assert(seq!['N', 'u', 'm', 'p', 'a', 'd', c] =~= "Numpad6"@);
    } else if c == '7' {
        lemma_listed_code_names_virtual_key(VirtualKeyCode::Numpad7);
        reveal_strlit("Numpad7");
        assert(seq!['N', 'u', 'm', 'p', 'a', 'd', c] =~= "Numpad7"@);
    } else if c == '8' {
        lemma_listed_code_names_virtual_key(VirtualKeyCode::Numpad8);
        reveal_strlit("Numpad8");
        assert(seq!['N', 'u', 'm', 'p', 'a', 'd', c] =~= "Numpad8"@);
    } else if c == '9' {
        lemma_listed_code_names_virtual_key(VirtualKeyCode::Numpad9);
        reveal_strlit("Numpad9");
        assert(seq!['N', 'u', 'm', 'p', 'a', 'd', c] =~= "Numpad9"@);
    }
}
/// The code `F` followed by a digit from 1 to 9 names that function
/// window key: the function keys follow each other from position 37.
pub proof fn lemma_function_codes_virtual(c: char)
    requires
        '1' <= c && c <= '9',
    ensures
        virtual_key_of_code(seq!['F', c]) == Some(virtual_key_of_rank((c as nat - '1' as nat + 37) as nat)),
{
    if c == '1' {
        lemma_listed_code_names_virtual_key(VirtualKeyCode::F1);
        reveal_strlit("F1");
        assert(seq!['F', c] =~= "F1"@);
    } else if c == '2' {
        lemma_listed_code_names_virtual_key(VirtualKeyCode::F2);
        reveal_strlit("F2");
        assert(seq!['F', c] =~= "F2"@);
    } else if c == '3' {
        lemma_listed_code_names_virtual_key(VirtualKeyCode::F3);
        reveal_strlit("F3");
        assert(seq!['F', c] =~= "F3"@);
    } else if c == '4' {
        lemma_listed_code_names_virtual_key(VirtualKeyCode::F4);
        reveal_strlit("F4");
        assert(seq!['F', c] =~= "F4"@);
    } else if c == '5' {
        lemma_listed_code_names_virtual_key(VirtualKeyCode::F5);
        reveal_strlit("F5");
        assert(seq!['F', c] =~= "F5"@);
    } else if c == '6' {
        lemma_listed_code_names_virtual_key(VirtualKeyCode::F6);
        reveal_strlit("F6");
        assert(seq!['F', c] =~= "F6"@);
    } else if c == '7' {
        lemma_listed_code_names_virtual_key(VirtualKeyCode::F7);
        reveal_strlit("F7");
        assert(seq!['F', c] =~= "F7"@);
    } else if c == '8' {
        lemma_listed_code_names_virtual_key(VirtualKeyCode::F8);
        reveal_strlit("F8");
        assert(seq!['F', c] =~= "F8"@);
    } else if c == '9' {
        lemma_listed_code_names_virtual_key(VirtualKeyCode::F9);
        reveal_strlit("F9");
        assert(seq!['F', c] =~= "F9"@);
    }
}
} // verus!
