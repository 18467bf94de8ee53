use vstd::prelude::*;

use super::virtual_key::{virtual_key_of_code, VirtualKeyCode};
use crate::text::text_eq;

verus! {
/// A key that can be pressed.
#[derive(Debug, Copy, Clone, PartialEq, Eq, Structural, PartialOrd, Ord, Hash)]
pub enum Key {
    /// The '1' key over the letters.
    Key1,
    /// The '2' key over the letters.
    Key2,
    /// The '3' key over the letters.
    Key3,
    /// The '4' key over the letters.
    Key4,
    /// The '5' key over the letters.
    Key5,
    /// The '6' key over the letters.
    Key6,
    /// The '7' key over the letters.
    Key7,
    /// The '8' key over the letters.
    Key8,
    /// The '9' key over the letters.
    Key9,
    /// The '0' key over the 'O' and 'P' keys.
    Key0,

    A,
    B,
    C,
    D,
    E,
    F,
    G,
    H,
    I,
    J,
    K,
    L,
    M,
    N,
    O,
    P,
    Q,
    R,
    S,
    T,
    U,
    V,
    W,
    X,
    Y,
    Z,

    /// The Escape key, next to F1.
    Escape,

    F1,
    F2,
    F3,
    F4,
    F5,
    F6,
    F7,
    F8,
    F9,
    F10,
    F11,
    F12,
    F13,
    F14,
    F15,
    F16,
    F17,
    F18,
    F19,
    F20,
    F21,
    F22,
    F23,
    F24,

    /// Print Screen/SysRq.
    Snapshot,
    /// Scroll Lock.
    Scroll,
    /// Pause/Break key, next to Scroll lock.
    Pause,

    /// `Insert`, next to Backspace.
    Insert,
    Home,
    Delete,
    End,
    PageDown,
    PageUp,

    Left,
    Up,
    Right,
    Down,

    /// The Backspace key, right over Enter.
    Backspace,
    /// The Enter key.
    Return,
    /// The space bar.
    Space,

    /// The "Compose" key on Linux.
    Compose,

    Caret,

    Numlock,
    Numpad0,
    Numpad1,
    Numpad2,
    Numpad3,
    Numpad4,
    Numpad5,
    Numpad6,
    Numpad7,
    Numpad8,
    Numpad9,

    AbntC1,
    AbntC2,
    Add,
    Apostrophe,
    Apps,
    At,
    Ax,
    Backslash,
    Calculator,
    Capital,
    Colon,
    Comma,
    Convert,
    Decimal,
    Divide,
    Equals,
    Grave,
    Kana,
    Kanji,
    LAlt,
    LBracket,
    LControl,
    LShift,
    LWin,
    Mail,
    MediaSelect,
    MediaStop,
    Minus,
    Multiply,
    Mute,
    MyComputer,
    NavigateForward,  // also called "Prior"
    NavigateBackward, // also called "Next"
    NextTrack,
    NoConvert,
    NumpadComma,
    NumpadEnter,
    NumpadEquals,
    OEM102,
    Period,
    PlayPause,
    Power,
    PrevTrack,
    RAlt,
    RBracket,
    RControl,
    RShift,
    RWin,
    Semicolon,
    Slash,
    Sleep,
    Stop,
    Subtract,
    Sysrq,
    Tab,
    Underline,
    Unlabeled,
    VolumeDown,
    VolumeUp,
    Wake,
    WebBack,
    WebFavorites,
    WebForward,
    WebHome,
    WebRefresh,
    WebSearch,
    WebStop,
    Yen,
    Copy,
    Paste,
    Cut,
}

/// The key that a DOM `KeyboardEvent.code` value names, or `None` for a
/// code that the table of codes does not list (no code names `Copy`,
/// `Paste` or `Cut`). The table is looked up by the code's length, then
/// its first character; `key_codes` states it key by key.
pub open spec fn key_of_code(code: Seq<char>) -> Option<Key> {
    if code.len() == 2 {
        if code[0] == 'F' {
            if code == "F1"@ {
                Some(Key::F1)
            } else if code == "F2"@ {
                Some(Key::F2)
            } else if code == "F3"@ {
                Some(Key::F3)
            } else if code == "F4"@ {
                Some(Key::F4)
            } else if code == "F5"@ {
                Some(Key::F5)
            } else if code == "F6"@ {
                Some(Key::F6)
            } else if code == "F7"@ {
                Some(Key::F7)
            } else if code == "F8"@ {
                Some(Key::F8)
            } else if code == "F9"@ {
                Some(Key::F9)
            } else {
                None
            }
        } else if code[0] == 'A' {
            if code == "At"@ {
                Some(Key::At)
            } else if code == "Ax"@ {
                Some(Key::Ax)
            } else {
                None
            }
        } else {
            None
        }
    } else if code.len() == 3 {
        if code[0] == 'F' {
            if code == "F10"@ {
                Some(Key::F10)
            } else if code == "F11"@ {
                Some(Key::F11)
            } else if code == "F12"@ {
                Some(Key::F12)
            } else if code == "F13"@ {
                Some(Key::F13)
            } else if code == "F14"@ {
                Some(Key::F14)
            } else if code == "F15"@ {
                Some(Key::F15)
            } else if code == "F16"@ {
                Some(Key::F16)
            } else if code == "F17"@ {
                Some(Key::F17)
            } else if code == "F18"@ {
                Some(Key::F18)
            } else if code == "F19"@ {
                Some(Key::F19)
            } else if code == "F20"@ {
                Some(Key::F20)
            } else if code == "F21"@ {
                Some(Key::F21)
            } else if code == "F22"@ {
                Some(Key::F22)
            } else if code == "F23"@ {
                Some(Key::F23)
            } else if code == "F24"@ {
                Some(Key::F24)
            } else {
                None
            }
        } else if code[0] == 'E' {
            if code == "End"@ {
                Some(Key::End)
            } else {
                None
            }
        } else if code[0] == 'T' {
            if code == "Tab"@ {
                Some(Key::Tab)
            } else {
                None
            }
        } else if code[0] == 'Y' {
            if code == "Yen"@ {
                Some(Key::Yen)
            } else {
                None
            }
        } else {
            None
        }
    } else if code.len() == 4 {
        if code[0] == 'K' {
            if code == "KeyA"@ {
                Some(Key::A)
            } else if code == "KeyB"@ {
                Some(Key::B)
            } else if code == "KeyC"@ {
                Some(Key::C)
            } else if code == "KeyD"@ {
                Some(Key::D)
            } else if code == "KeyE"@ {
                Some(Key::E)
            } else if code == "KeyF"@ {
                Some(Key::F)
            } else if code == "KeyG"@ {
                Some(Key::G)
            } else if code == "KeyH"@ {
                Some(Key::H)
            } else if code == "KeyI"@ {
                Some(Key::I)
            } else if code == "KeyJ"@ {
                Some(Key::J)
            } else if code == "KeyK"@ {
                Some(Key::K)
            } else if code == "KeyL"@ {
                Some(Key::L)
            } else if code == "KeyM"@ {
                Some(Key::M)
            } else if code == "KeyN"@ {
                Some(Key::N)
            } else if code == "KeyO"@ {
                Some(Key::O)
            } else if code == "KeyP"@ {
                Some(Key::P)
            } else if code == "KeyQ"@ {
                Some(Key::Q)
            } else if code == "KeyR"@ {
                Some(Key::R)
            } else if code == "KeyS"@ {
                Some(Key::S)
            } else if code == "KeyT"@ {
                Some(Key::T)
            } else if code == "KeyU"@ {
                Some(Key::U)
            } else if code == "KeyV"@ {
                Some(Key::V)
            } else if code == "KeyW"@ {
                Some(Key::W)
            } else if code == "KeyX"@ {
                Some(Key::X)
            } else if code == "KeyY"@ {
                Some(Key::Y)
            } else if code == "KeyZ"@ {
                Some(Key::Z)
            } else if code == "Kana"@ {
                Some(Key::Kana)
            } else {
                None
            }
        } else if code[0] == 'H' {
            if code == "Home"@ {
                Some(Key::Home)
            } else {
                None
            }
        } else if code[0] == 'A' {
            if code == "Apps"@ {
                Some(Key::Apps)
            } else {
                None
            }
        } else if code[0] == 'M' {
            if code == "Mail"@ {
                Some(Key::Mail)
            } else if code == "Mute"@ {
                Some(Key::Mute)
            } else {
                None
            }
        } else if code[0] == 'S' {
            if code == "Stop"@ {
                Some(Key::Stop)
            } else {
                None
            }
        } else if code[0] == 'W' {
            if code == "Wake"@ {
                Some(Key::Wake)
            } else {
                None
            }
        } else {
            None
        }
    } else if code.len() == 5 {
        if code[0] == 'P' {
            if code == "Pause"@ {
                Some(Key::Pause)
            } else if code == "Power"@ {
                Some(Key::Power)
            } else {
                None
            }
        } else if code[0] == 'E' {
            if code == "Enter"@ {
                Some(Key::Return)
            } else if code == "Equal"@ {
                Some(Key::Equals)
            } else {
                None
            }
        } else if code[0] == 'S' {
            if code == "Space"@ {
                Some(Key::Space)
            } else if code == "Slash"@ {
                Some(Key::Slash)
            } else if code == "Sleep"@ {
                Some(Key::Sleep)
            } else if code == "Sysrq"@ {
                Some(Key::Sysrq)
            } else {
                None
            }
        } else if code[0] == 'C' {
            if code == "Caret"@ {
                Some(Key::Caret)
            } else if code == "Comma"@ {
                Some(Key::Comma)
            } else {
                None
            }
        } else if code[0] == 'Q' {
            if code == "Quote"@ {
                Some(Key::Apostrophe)
            } else {
                None
            }
        } else if code[0] == 'K' {
            if code == "Kanji"@ {
                Some(Key::Kanji)
            } else {
                None
            }
        } else if code[0] == 'M' {
            if code == "Minus"@ {
                Some(Key::Minus)
            } else {
                None
            }
        } else {
            None
        }
    } else if code.len() == 6 {
        if code[0] == 'D' {
            if code == "Digit1"@ {
                Some(Key::Key1)
            } else if code == "Digit2"@ {
                Some(Key::Key2)
            } else if code == "Digit3"@ {
                Some(Key::Key3)
            } else if code == "Digit4"@ {
                Some(Key::Key4)
            } else if code == "Digit5"@ {
                Some(Key::Key5)
            } else if code == "Digit6"@ {
                Some(Key::Key6)
            } else if code == "Digit7"@ {
                Some(Key::Key7)
            } else if code == "Digit8"@ {
                Some(Key::Key8)
            } else if code == "Digit9"@ {
                Some(Key::Key9)
            } else if code == "Digit0"@ {
                Some(Key::Key0)
            } else if code == "Delete"@ {
                Some(Key::Delete)
            } else {
                None
            }
        } else if code[0] == 'E' {
            if code == "Escape"@ {
                Some(Key::Escape)
            } else {
                None
            }
        } else if code[0] == 'I' {
            if code == "Insert"@ {
                Some(Key::Insert)
            } else {
                None
            }
        } else if code[0] == 'P' {
            if code == "PageUp"@ {
                Some(Key::PageUp)
            } else if code == "Period"@ {
                Some(Key::Period)
            } else {
                None
            }
        } else if code[0] == 'A' {
            if code == "AbntC1"@ {
                Some(Key::AbntC1)
            } else if code == "AbntC2"@ {
                Some(Key::AbntC2)
            } else {
                None
            }
        } else if code[0] == 'O' {
            if code == "OEM102"@ {
                Some(Key::OEM102)
            } else {
                None
            }
        } else {
            None
        }
    } else if code.len() == 7 {
        if code[0] == 'A' {
            if code == "ArrowUp"@ {
                Some(Key::Up)
            } else if code == "AltLeft"@ {
                Some(Key::LAlt)
            } else {
                None
            }
        } else if code[0] == 'C' {
            if code == "Compose"@ {
                Some(Key::Compose)
            } else if code == "Capital"@ {
                Some(Key::Capital)
            } else if code == "Convert"@ {
                Some(Key::Convert)
            } else {
                None
            }
        } else if code[0] == 'N' {
            if code == "NumLock"@ {
                Some(Key::Numlock)
            } else if code == "Numpad0"@ {
                Some(Key::Numpad0)
            } else if code == "Numpad1"@ {
                Some(Key::Numpad1)
            } else if code == "Numpad2"@ {
                Some(Key::Numpad2)
            } else if code == "Numpad3"@ {
                Some(Key::Numpad3)
            } else if code == "Numpad4"@ {
                Some(Key::Numpad4)
            } else if code == "Numpad5"@ {
                Some(Key::Numpad5)
            } else if code == "Numpad6"@ {
                Some(Key::Numpad6)
            } else if code == "Numpad7"@ {
                Some(Key::Numpad7)
            } else if code == "Numpad8"@ {
                Some(Key::Numpad8)
            } else if code == "Numpad9"@ {
                Some(Key::Numpad9)
            } else {
                None
            }
        } else if code[0] == 'W' {
            if code == "WebBack"@ {
                Some(Key::WebBack)
            } else if code == "WebHome"@ {
                Some(Key::WebHome)
            } else if code == "WebStop"@ {
                Some(Key::WebStop)
            } else {
                None
            }
        } else {
            None
        }
    } else if code.len() == 8 {
        if code[0] == 'P' {
            if code == "PageDown"@ {
                Some(Key::PageDown)
            } else {
                None
            }
        } else if code[0] == 'M' {
            if code == "MetaLeft"@ {
                Some(Key::LWin)
            } else {
                None
            }
        } else if code[0] == 'A' {
            if code == "AltRight"@ {
                Some(Key::RAlt)
            } else {
                None
            }
        } else {
            None
        }
    } else if code.len() == 9 {
        if code[0] == 'A' {
            if code == "ArrowLeft"@ {
                Some(Key::Left)
            } else if code == "ArrowDown"@ {
                Some(Key::Down)
            } else {
                None
            }
        } else if code[0] == 'B' {
            if code == "Backspace"@ {
                Some(Key::Backspace)
            } else if code == "Backslash"@ {
                Some(Key::Backslash)
            } else if code == "Backquote"@ {
                Some(Key::Grave)
            } else {
                None
            }
        } else if code[0] == 'N' {
            if code == "NumpadAdd"@ {
                Some(Key::Add)
            } else if code == "NextTrack"@ {
                Some(Key::NextTrack)
            } else if code == "NoConvert"@ {
                Some(Key::NoConvert)
            } else {
                None
            }
        } else if code[0] == 'S' {
            if code == "Semicolon"@ {
                Some(Key::Semicolon)
            } else if code == "ShiftLeft"@ {
                Some(Key::LShift)
            } else {
                None
            }
        } else if code[0] == 'M' {
            if code == "MediaStop"@ {
                Some(Key::MediaStop)
            } else if code == "MetaRight"@ {
                Some(Key::RWin)
            } else {
                None
            }
        } else if code[0] == 'P' {
            if code == "PlayPause"@ {
                Some(Key::PlayPause)
            } else if code == "PrevTrack"@ {
                Some(Key::PrevTrack)
            } else {
                None
            }
        } else if code[0] == 'U' {
            if code == "Underline"@ {
                Some(Key::Underline)
            } else if code == "Unlabeled"@ {
                Some(Key::Unlabeled)
            } else {
                None
            }
        } else if code[0] == 'W' {
            if code == "WebSearch"@ {
                Some(Key::WebSearch)
            } else {
                None
            }
        } else {
            None
        }
    } else if code.len() == 10 {
        if code[0] == 'S' {
            if code == "ScrollLock"@ {
                Some(Key::Scroll)
            } else if code == "ShiftRight"@ {
                Some(Key::RShift)
            } else {
                None
            }
        } else if code[0] == 'A' {
            if code == "ArrowRight"@ {
                Some(Key::Right)
            } else {
                None
            }
        } else if code[0] == 'C' {
            if code == "Calculator"@ {
                Some(Key::Calculator)
            } else {
                None
            }
        } else if code[0] == 'W' {
            if code == "WebForward"@ {
                Some(Key::WebForward)
            } else if code == "WebRefresh"@ {
                Some(Key::WebRefresh)
            } else {
                None
            }
        } else {
            None
        }
    } else if code.len() == 11 {
        if code[0] == 'P' {
            if code == "PrintScreen"@ {
                Some(Key::Snapshot)
            } else {
                None
            }
        } else if code[0] == 'B' {
            if code == "BracketLeft"@ {
                Some(Key::LBracket)
            } else {
                None
            }
        } else if code[0] == 'C' {
            if code == "ControlLeft"@ {
                Some(Key::LControl)
            } else {
                None
            }
        } else if code[0] == 'M' {
            if code == "MediaSelect"@ {
                Some(Key::MediaSelect)
            } else {
                None
            }
        } else if code[0] == 'N' {
            if code == "NumpadComma"@ {
                Some(Key::NumpadComma)
            } else if code == "NumpadEnter"@ {
                Some(Key::NumpadEnter)
            } else {
                None
            }
        } else {
            None
        }
    } else if code.len() == 12 {
        if code[0] == 'N' {
            if code == "NumpadDivide"@ {
                Some(Key::Divide)
            } else if code == "NumpadEquals"@ {
                Some(Key::NumpadEquals)
            } else {
                None
            }
        } else if code[0] == 'B' {
            if code == "BracketRight"@ {
                Some(Key::RBracket)
            } else {
                None
            }
        } else if code[0] == 'C' {
            if code == "ControlRight"@ {
                Some(Key::RControl)
            } else {
                None
            }
        } else if code[0] == 'W' {
            if code == "WebFavorites"@ {
                Some(Key::WebFavorites)
            } else {
                None
            }
        } else {
            None
        }
    } else if code.len() == 13 {
        if code[0] == 'N' {
            if code == "NumpadDecimal"@ {
                Some(Key::Decimal)
            } else {
                None
            }
        } else if code[0] == 'A' {
            if code == "AudioVolumeUp"@ {
                Some(Key::VolumeUp)
            } else {
                None
            }
        } else {
            None
        }
    } else if code.len() == 14 {
        if code[0] == 'N' {
            if code == "NumpadMultiply"@ {
                Some(Key::Multiply)
            } else {
                None
            }
        } else {
            None
        }
    } else if code.len() == 15 {
        if code[0] == 'N' {
            if code == "NavigateForward"@ {
                Some(Key::NavigateForward)
            } else {
                None
            }
        } else if code[0] == 'A' {
            if code == "AudioVolumeDown"@ {
                Some(Key::VolumeDown)
            } else {
                None
            }
        } else {
            None
        }
    } else if code.len() == 16 {
        if code[0] == 'L' {
            if code == "LaunchMyComputer"@ {
                Some(Key::MyComputer)
            } else {
                None
            }
        } else if code[0] == 'N' {
            if code == "NavigateBackward"@ {
                Some(Key::NavigateBackward)
            } else {
                None
            }
        } else {
            None
        }
    } else {
        None
    }
}

impl Key {
    /// Looks up the key of a keyboard event from the event's `code` property.
    pub fn from_keyboard_event(code: &str) -> (key: Option<Key>)
        ensures
            key == key_of_code(code@),
    {
        let n = code.unicode_len();
        if n == 0 {
            return None;
        }
        let first = code.get_char(0);
        if n == 2 {
            if first == 'F' {
                if text_eq(code, "F1") {
                    Some(Key::F1)
                } else if text_eq(code, "F2") {
                    Some(Key::F2)
                } else if text_eq(code, "F3") {
                    Some(Key::F3)
                } else if text_eq(code, "F4") {
                    Some(Key::F4)
                } else if text_eq(code, "F5") {
                    Some(Key::F5)
                } else if text_eq(code, "F6") {
                    Some(Key::F6)
                } else if text_eq(code, "F7") {
                    Some(Key::F7)
                } else if text_eq(code, "F8") {
                    Some(Key::F8)
                } else if text_eq(code, "F9") {
                    Some(Key::F9)
                } else {
                    None
                }
            } else if first == 'A' {
                if text_eq(code, "At") {
                    Some(Key::At)
                } else if text_eq(code, "Ax") {
                    Some(Key::Ax)
                } else {
                    None
                }
            } else {
                None
            }
        } else if n == 3 {
            if first == 'F' {
                if text_eq(code, "F10") {
                    Some(Key::F10)
                } else if text_eq(code, "F11") {
                    Some(Key::F11)
                } else if text_eq(code, "F12") {
                    Some(Key::F12)
                } else if text_eq(code, "F13") {
                    Some(Key::F13)
                } else if text_eq(code, "F14") {
                    Some(Key::F14)
                } else if text_eq(code, "F15") {
                    Some(Key::F15)
                } else if text_eq(code, "F16") {
                    Some(Key::F16)
                } else if text_eq(code, "F17") {
                    Some(Key::F17)
                } else if text_eq(code, "F18") {
                    Some(Key::F18)
                } else if text_eq(code, "F19") {
                    Some(Key::F19)
                } else if text_eq(code, "F20") {
                    Some(Key::F20)
                } else if text_eq(code, "F21") {
                    Some(Key::F21)
                } else if text_eq(code, "F22") {
                    Some(Key::F22)
                } else if text_eq(code, "F23") {
                    Some(Key::F23)
                } else if text_eq(code, "F24") {
                    Some(Key::F24)
                } else {
                    None
                }
            } else if first == 'E' {
                if text_eq(code, "End") {
                    Some(Key::End)
                } else {
                    None
                }
            } else if first == 'T' {
                if text_eq(code, "Tab") {
                    Some(Key::Tab)
                } else {
                    None
                }
            } else if first == 'Y' {
                if text_eq(code, "Yen") {
                    Some(Key::Yen)
                } else {
                    None
                }
            } else {
                None
            }
        } else if n == 4 {
            if first == 'K' {
                if text_eq(code, "KeyA") {
                    Some(Key::A)
                } else if text_eq(code, "KeyB") {
                    Some(Key::B)
                } else if text_eq(code, "KeyC") {
                    Some(Key::C)
                } else if text_eq(code, "KeyD") {
                    Some(Key::D)
                } else if text_eq(code, "KeyE") {
                    Some(Key::E)
                } else if text_eq(code, "KeyF") {
                    Some(Key::F)
                } else if text_eq(code, "KeyG") {
                    Some(Key::G)
                } else if text_eq(code, "KeyH") {
                    Some(Key::H)
                } else if text_eq(code, "KeyI") {
                    Some(Key::I)
                } else if text_eq(code, "KeyJ") {
                    Some(Key::J)
                } else if text_eq(code, "KeyK") {
                    Some(Key::K)
                } else if text_eq(code, "KeyL") {
                    Some(Key::L)
                } else if text_eq(code, "KeyM") {
                    Some(Key::M)
                } else if text_eq(code, "KeyN") {
                    Some(Key::N)
                } else if text_eq(code, "KeyO") {
                    Some(Key::O)
                } else if text_eq(code, "KeyP") {
                    Some(Key::P)
                } else if text_eq(code, "KeyQ") {
                    Some(Key::Q)
                } else if text_eq(code, "KeyR") {
                    Some(Key::R)
                } else if text_eq(code, "KeyS") {
                    Some(Key::S)
                } else if text_eq(code, "KeyT") {
                    Some(Key::T)
                } else if text_eq(code, "KeyU") {
                    Some(Key::U)
                } else if text_eq(code, "KeyV") {
                    Some(Key::V)
                } else if text_eq(code, "KeyW") {
                    Some(Key::W)
                } else if text_eq(code, "KeyX") {
                    Some(Key::X)
                } else if text_eq(code, "KeyY") {
                    Some(Key::Y)
                } else if text_eq(code, "KeyZ") {
                    Some(Key::Z)
                } else if text_eq(code, "Kana") {
                    Some(Key::Kana)
                } else {
                    None
                }
            } else if first == 'H' {
                if text_eq(code, "Home") {
                    Some(Key::Home)
                } else {
                    None
                }
            } else if first == 'A' {
                if text_eq(code, "Apps") {
                    Some(Key::Apps)
                } else {
                    None
                }
            } else if first == 'M' {
                if text_eq(code, "Mail") {
                    Some(Key::Mail)
                } else if text_eq(code, "Mute") {
                    Some(Key::Mute)
                } else {
                    None
                }
            } else if first == 'S' {
                if text_eq(code, "Stop") {
                    Some(Key::Stop)
                } else {
                    None
                }
            } else if first == 'W' {
                if text_eq(code, "Wake") {
                    Some(Key::Wake)
                } else {
                    None
                }
            } else {
                None
            }
        } else if n == 5 {
            if first == 'P' {
                if text_eq(code, "Pause") {
                    Some(Key::Pause)
                } else if text_eq(code, "Power") {
                    Some(Key::Power)
                } else {
                    None
                }
            } else if first == 'E' {
                if text_eq(code, "Enter") {
                    Some(Key::Return)
                } else if text_eq(code, "Equal") {
                    Some(Key::Equals)
                } else {
                    None
                }
            } else if first == 'S' {
                if text_eq(code, "Space") {
                    Some(Key::Space)
                } else if text_eq(code, "Slash") {
                    Some(Key::Slash)
                } else if text_eq(code, "Sleep") {
                    Some(Key::Sleep)
                } else if text_eq(code, "Sysrq") {
                    Some(Key::Sysrq)
                } else {
                    None
                }
            } else if first == 'C' {
                if text_eq(code, "Caret") {
                    Some(Key::Caret)
                } else if text_eq(code, "Comma") {
                    Some(Key::Comma)
                } else {
                    None
                }
            } else if first == 'Q' {
                if text_eq(code, "Quote") {
                    Some(Key::Apostrophe)
                } else {
                    None
                }
            } else if first == 'K' {
                if text_eq(code, "Kanji") {
                    Some(Key::Kanji)
                } else {
                    None
                }
            } else if first == 'M' {
                if text_eq(code, "Minus") {
                    Some(Key::Minus)
                } else {
                    None
                }
            } else {
                None
            }
        } else if n == 6 {
            if first == 'D' {
                if text_eq(code, "Digit1") {
                    Some(Key::Key1)
                } else if text_eq(code, "Digit2") {
                    Some(Key::Key2)
                } else if text_eq(code, "Digit3") {
                    Some(Key::Key3)
                } else if text_eq(code, "Digit4") {
                    Some(Key::Key4)
                } else if text_eq(code, "Digit5") {
                    Some(Key::Key5)
                } else if text_eq(code, "Digit6") {
                    Some(Key::Key6)
                } else if text_eq(code, "Digit7") {
                    Some(Key::Key7)
                } else if text_eq(code, "Digit8") {
                    Some(Key::Key8)
                } else if text_eq(code, "Digit9") {
                    Some(Key::Key9)
                } else if text_eq(code, "Digit0") {
                    Some(Key::Key0)
                } else if text_eq(code, "Delete") {
                    Some(Key::Delete)
                } else {
                    None
                }
            } else if first == 'E' {
                if text_eq(code, "Escape") {
                    Some(Key::Escape)
                } else {
                    None
                }
            } else if first == 'I' {
                if text_eq(code, "Insert") {
                    Some(Key::Insert)
                } else {
                    None
                }
            } else if first == 'P' {
                if text_eq(code, "PageUp") {
                    Some(Key::PageUp)
                } else if text_eq(code, "Period") {
                    Some(Key::Period)
                } else {
                    None
                }
            } else if first == 'A' {
                if text_eq(code, "AbntC1") {
                    Some(Key::AbntC1)
                } else if text_eq(code, "AbntC2") {
                    Some(Key::AbntC2)
                } else {
                    None
                }
            } else if first == 'O' {
                if text_eq(code, "OEM102") {
                    Some(Key::OEM102)
                } else {
                    None
                }
            } else {
                None
            }
        } else if n == 7 {
            if first == 'A' {
                if text_eq(code, "ArrowUp") {
                    Some(Key::Up)
                } else if text_eq(code, "AltLeft") {
                    Some(Key::LAlt)
                } else {
                    None
                }
            } else if first == 'C' {
                if text_eq(code, "Compose") {
                    Some(Key::Compose)
                } else if text_eq(code, "Capital") {
                    Some(Key::Capital)
                } else if text_eq(code, "Convert") {
                    Some(Key::Convert)
                } else {
                    None
                }
            } else if first == 'N' {
                if text_eq(code, "NumLock") {
                    Some(Key::Numlock)
                } else if text_eq(code, "Numpad0") {
                    Some(Key::Numpad0)
                } else if text_eq(code, "Numpad1") {
                    Some(Key::Numpad1)
                } else if text_eq(code, "Numpad2") {
                    Some(Key::Numpad2)
                } else if text_eq(code, "Numpad3") {
                    Some(Key::Numpad3)
                } else if text_eq(code, "Numpad4") {
                    Some(Key::Numpad4)
                } else if text_eq(code, "Numpad5") {
                    Some(Key::Numpad5)
                } else if text_eq(code, "Numpad6") {
                    Some(Key::Numpad6)
                } else if text_eq(code, "Numpad7") {
                    Some(Key::Numpad7)
                } else if text_eq(code, "Numpad8") {
                    Some(Key::Numpad8)
                } else if text_eq(code, "Numpad9") {
                    Some(Key::Numpad9)
                } else {
                    None
                }
            } else if first == 'W' {
                if text_eq(code, "WebBack") {
                    Some(Key::WebBack)
                } else if text_eq(code, "WebHome") {
                    Some(Key::WebHome)
                } else if text_eq(code, "WebStop") {
                    Some(Key::WebStop)
                } else {
                    None
                }
            } else {
                None
            }
        } else if n == 8 {
            if first == 'P' {
                if text_eq(code, "PageDown") {
                    Some(Key::PageDown)
                } else {
                    None
                }
            } else if first == 'M' {
                if text_eq(code, "MetaLeft") {
                    Some(Key::LWin)
                } else {
                    None
                }
            } else if first == 'A' {
                if text_eq(code, "AltRight") {
                    Some(Key::RAlt)
                } else {
                    None
                }
            } else {
                None
            }
        } else if n == 9 {
            if first == 'A' {
                if text_eq(code, "ArrowLeft") {
                    Some(Key::Left)
                } else if text_eq(code, "ArrowDown") {
                    Some(Key::Down)
                } else {
                    None
                }
            } else if first == 'B' {
                if text_eq(code, "Backspace") {
                    Some(Key::Backspace)
                } else if text_eq(code, "Backslash") {
                    Some(Key::Backslash)
                } else if text_eq(code, "Backquote") {
                    Some(Key::Grave)
                } else {
                    None
                }
            } else if first == 'N' {
                if text_eq(code, "NumpadAdd") {
                    Some(Key::Add)
                } else if text_eq(code, "NextTrack") {
                    Some(Key::NextTrack)
                } else if text_eq(code, "NoConvert") {
                    Some(Key::NoConvert)
                } else {
                    None
                }
            } else if first == 'S' {
                if text_eq(code, "Semicolon") {
                    Some(Key::Semicolon)
                } else if text_eq(code, "ShiftLeft") {
                    Some(Key::LShift)
                } else {
                    None
                }
            } else if first == 'M' {
                if text_eq(code, "MediaStop") {
                    Some(Key::MediaStop)
                } else if text_eq(code, "MetaRight") {
                    Some(Key::RWin)
                } else {
                    None
                }
            } else if first == 'P' {
                if text_eq(code, "PlayPause") {
                    Some(Key::PlayPause)
                } else if text_eq(code, "PrevTrack") {
                    Some(Key::PrevTrack)
                } else {
                    None
                }
            } else if first == 'U' {
                if text_eq(code, "Underline") {
                    Some(Key::Underline)
                } else if text_eq(code, "Unlabeled") {
                    Some(Key::Unlabeled)
                } else {
                    None
                }
            } else if first == 'W' {
                if text_eq(code, "WebSearch") {
                    Some(Key::WebSearch)
                } else {
                    None
                }
            } else {
                None
            }
        } else if n == 10 {
            if first == 'S' {
                if text_eq(code, "ScrollLock") {
                    Some(Key::Scroll)
                } else if text_eq(code, "ShiftRight") {
                    Some(Key::RShift)
                } else {
                    None
                }
            } else if first == 'A' {
                if text_eq(code, "ArrowRight") {
                    Some(Key::Right)
                } else {
                    None
                }
            } else if first == 'C' {
                if text_eq(code, "Calculator") {
                    Some(Key::Calculator)
                } else {
                    None
                }
            } else if first == 'W' {
                if text_eq(code, "WebForward") {
                    Some(Key::WebForward)
                } else if text_eq(code, "WebRefresh") {
                    Some(Key::WebRefresh)
                } else {
                    None
                }
            } else {
                None
            }
        } else if n == 11 {
            if first == 'P' {
                if text_eq(code, "PrintScreen") {
                    Some(Key::Snapshot)
                } else {
                    None
                }
            } else if first == 'B' {
                if text_eq(code, "BracketLeft") {
                    Some(Key::LBracket)
                } else {
                    None
                }
            } else if first == 'C' {
                if text_eq(code, "ControlLeft") {
                    Some(Key::LControl)
                } else {
                    None
                }
            } else if first == 'M' {
                if text_eq(code, "MediaSelect") {
                    Some(Key::MediaSelect)
                } else {
                    None
                }
            } else if first == 'N' {
                if text_eq(code, "NumpadComma") {
                    Some(Key::NumpadComma)
                } else if text_eq(code, "NumpadEnter") {
                    Some(Key::NumpadEnter)
                } else {
                    None
                }
            } else {
                None
            }
        } else if n == 12 {
            if first == 'N' {
                if text_eq(code, "NumpadDivide") {
                    Some(Key::Divide)
                } else if text_eq(code, "NumpadEquals") {
                    Some(Key::NumpadEquals)
                } else {
                    None
                }
            } else if first == 'B' {
                if text_eq(code, "BracketRight") {
                    Some(Key::RBracket)
                } else {
                    None
                }
            } else if first == 'C' {
                if text_eq(code, "ControlRight") {
                    Some(Key::RControl)
                } else {
                    None
                }
            } else if first == 'W' {
                if text_eq(code, "WebFavorites") {
                    Some(Key::WebFavorites)
                } else {
                    None
                }
            } else {
                None
            }
        } else if n == 13 {
            if first == 'N' {
                if text_eq(code, "NumpadDecimal") {
                    Some(Key::Decimal)
                } else {
                    None
                }
            } else if first == 'A' {
                if text_eq(code, "AudioVolumeUp") {
                    Some(Key::VolumeUp)
                } else {
                    None
                }
            } else {
                None
            }
        } else if n == 14 {
            if first == 'N' {
                if text_eq(code, "NumpadMultiply") {
                    Some(Key::Multiply)
                } else {
                    None
                }
            } else {
                None
            }
        } else if n == 15 {
            if first == 'N' {
                if text_eq(code, "NavigateForward") {
                    Some(Key::NavigateForward)
                } else {
                    None
                }
            } else if first == 'A' {
                if text_eq(code, "AudioVolumeDown") {
                    Some(Key::VolumeDown)
                } else {
                    None
                }
            } else {
                None
            }
        } else if n == 16 {
            if first == 'L' {
                if text_eq(code, "LaunchMyComputer") {
                    Some(Key::MyComputer)
                } else {
                    None
                }
            } else if first == 'N' {
                if text_eq(code, "NavigateBackward") {
                    Some(Key::NavigateBackward)
                } else {
                    None
                }
            } else {
                None
            }
        } else {
            None
        }
    }
}

/// The position of `key` in the declaration of [`Key`], which is the order
/// that the derived `Ord` gives keys.
pub open spec fn key_rank(key: Key) -> nat {
    match key {
        Key::Key1 => 0,
        Key::Key2 => 1,
        Key::Key3 => 2,
        Key::Key4 => 3,
        Key::Key5 => 4,
        Key::Key6 => 5,
        Key::Key7 => 6,
        Key::Key8 => 7,
        Key::Key9 => 8,
        Key::Key0 => 9,
        Key::A => 10,
        Key::B => 11,
        Key::C => 12,
        Key::D => 13,
        Key::E => 14,
        Key::F => 15,
        Key::G => 16,
        Key::H => 17,
        Key::I => 18,
        Key::J => 19,
        Key::K => 20,
        Key::L => 21,
        Key::M => 22,
        Key::N => 23,
        Key::O => 24,
        Key::P => 25,
        Key::Q => 26,
        Key::R => 27,
        Key::S => 28,
        Key::T => 29,
        Key::U => 30,
        Key::V => 31,
        Key::W => 32,
        Key::X => 33,
        Key::Y => 34,
        Key::Z => 35,
        Key::Escape => 36,
        Key::F1 => 37,
        Key::F2 => 38,
        Key::F3 => 39,
        Key::F4 => 40,
        Key::F5 => 41,
        Key::F6 => 42,
        Key::F7 => 43,
        Key::F8 => 44,
        Key::F9 => 45,
        Key::F10 => 46,
        Key::F11 => 47,
        Key::F12 => 48,
        Key::F13 => 49,
        Key::F14 => 50,
        Key::F15 => 51,
        Key::F16 => 52,
        Key::F17 => 53,
        Key::F18 => 54,
        Key::F19 => 55,
        Key::F20 => 56,
        Key::F21 => 57,
        Key::F22 => 58,
        Key::F23 => 59,
        Key::F24 => 60,
        Key::Snapshot => 61,
        Key::Scroll => 62,
        Key::Pause => 63,
        Key::Insert => 64,
        Key::Home => 65,
        Key::Delete => 66,
        Key::End => 67,
        Key::PageDown => 68,
        Key::PageUp => 69,
        Key::Left => 70,
        Key::Up => 71,
        Key::Right => 72,
        Key::Down => 73,
        Key::Backspace => 74,
        Key::Return => 75,
        Key::Space => 76,
        Key::Compose => 77,
        Key::Caret => 78,
        Key::Numlock => 79,
        Key::Numpad0 => 80,
        Key::Numpad1 => 81,
        Key::Numpad2 => 82,
        Key::Numpad3 => 83,
        Key::Numpad4 => 84,
        Key::Numpad5 => 85,
        Key::Numpad6 => 86,
        Key::Numpad7 => 87,
        Key::Numpad8 => 88,
        Key::Numpad9 => 89,
        Key::AbntC1 => 90,
        Key::AbntC2 => 91,
        Key::Add => 92,
        Key::Apostrophe => 93,
        Key::Apps => 94,
        Key::At => 95,
        Key::Ax => 96,
        Key::Backslash => 97,
        Key::Calculator => 98,
        Key::Capital => 99,
        Key::Colon => 100,
        Key::Comma => 101,
        Key::Convert => 102,
        Key::Decimal => 103,
        Key::Divide => 104,
        Key::Equals => 105,
        Key::Grave => 106,
        Key::Kana => 107,
        Key::Kanji => 108,
        Key::LAlt => 109,
        Key::LBracket => 110,
        Key::LControl => 111,
        Key::LShift => 112,
        Key::LWin => 113,
        Key::Mail => 114,
        Key::MediaSelect => 115,
        Key::MediaStop => 116,
        Key::Minus => 117,
        Key::Multiply => 118,
        Key::Mute => 119,
        Key::MyComputer => 120,
        Key::NavigateForward => 121,
        Key::NavigateBackward => 122,
        Key::NextTrack => 123,
        Key::NoConvert => 124,
        Key::NumpadComma => 125,
        Key::NumpadEnter => 126,
        Key::NumpadEquals => 127,
        Key::OEM102 => 128,
        Key::Period => 129,
        Key::PlayPause => 130,
        Key::Power => 131,
        Key::PrevTrack => 132,
        Key::RAlt => 133,
        Key::RBracket => 134,
        Key::RControl => 135,
        Key::RShift => 136,
        Key::RWin => 137,
        Key::Semicolon => 138,
        Key::Slash => 139,
        Key::Sleep => 140,
        Key::Stop => 141,
        Key::Subtract => 142,
        Key::Sysrq => 143,
        Key::Tab => 144,
        Key::Underline => 145,
        Key::Unlabeled => 146,
        Key::VolumeDown => 147,
        Key::VolumeUp => 148,
        Key::Wake => 149,
        Key::WebBack => 150,
        Key::WebFavorites => 151,
        Key::WebForward => 152,
        Key::WebHome => 153,
        Key::WebRefresh => 154,
        Key::WebSearch => 155,
        Key::WebStop => 156,
        Key::Yen => 157,
        Key::Copy => 158,
        Key::Paste => 159,
        Key::Cut => 160,
    }
}

impl Key {
    /// The position of the key in the declaration of [`Key`].
    pub fn rank(&self) -> (r: u8)
        ensures
            r == key_rank(*self),
    {
        match self {
            Key::Key1 => 0,
            Key::Key2 => 1,
            Key::Key3 => 2,
            Key::Key4 => 3,
            Key::Key5 => 4,
            Key::Key6 => 5,
            Key::Key7 => 6,
            Key::Key8 => 7,
            Key::Key9 => 8,
            Key::Key0 => 9,
            Key::A => 10,
            Key::B => 11,
            Key::C => 12,
            Key::D => 13,
            Key::E => 14,
            Key::F => 15,
            Key::G => 16,
            Key::H => 17,
            Key::I => 18,
            Key::J => 19,
            Key::K => 20,
            Key::L => 21,
            Key::M => 22,
            Key::N => 23,
            Key::O => 24,
            Key::P => 25,
            Key::Q => 26,
            Key::R => 27,
            Key::S => 28,
            Key::T => 29,
            Key::U => 30,
            Key::V => 31,
            Key::W => 32,
            Key::X => 33,
            Key::Y => 34,
            Key::Z => 35,
            Key::Escape => 36,
            Key::F1 => 37,
            Key::F2 => 38,
            Key::F3 => 39,
            Key::F4 => 40,
            Key::F5 => 41,
            Key::F6 => 42,
            Key::F7 => 43,
            Key::F8 => 44,
            Key::F9 => 45,
            Key::F10 => 46,
            Key::F11 => 47,
            Key::F12 => 48,
            Key::F13 => 49,
            Key::F14 => 50,
            Key::F15 => 51,
            Key::F16 => 52,
            Key::F17 => 53,
            Key::F18 => 54,
            Key::F19 => 55,
            Key::F20 => 56,
            Key::F21 => 57,
            Key::F22 => 58,
            Key::F23 => 59,
            Key::F24 => 60,
            Key::Snapshot => 61,
            Key::Scroll => 62,
            Key::Pause => 63,
            Key::Insert => 64,
            Key::Home => 65,
            Key::Delete => 66,
            Key::End => 67,
            Key::PageDown => 68,
            Key::PageUp => 69,
            Key::Left => 70,
            Key::Up => 71,
            Key::Right => 72,
            Key::Down => 73,
            Key::Backspace => 74,
            Key::Return => 75,
            Key::Space => 76,
            Key::Compose => 77,
            Key::Caret => 78,
            Key::Numlock => 79,
            Key::Numpad0 => 80,
            Key::Numpad1 => 81,
            Key::Numpad2 => 82,
            Key::Numpad3 => 83,
            Key::Numpad4 => 84,
            Key::Numpad5 => 85,
            Key::Numpad6 => 86,
            Key::Numpad7 => 87,
            Key::Numpad8 => 88,
            Key::Numpad9 => 89,
            Key::AbntC1 => 90,
            Key::AbntC2 => 91,
            Key::Add => 92,
            Key::Apostrophe => 93,
            Key::Apps => 94,
            Key::At => 95,
            Key::Ax => 96,
            Key::Backslash => 97,
            Key::Calculator => 98,
            Key::Capital => 99,
            Key::Colon => 100,
            Key::Comma => 101,
            Key::Convert => 102,
            Key::Decimal => 103,
            Key::Divide => 104,
            Key::Equals => 105,
            Key::Grave => 106,
            Key::Kana => 107,
            Key::Kanji => 108,
            Key::LAlt => 109,
            Key::LBracket => 110,
            Key::LControl => 111,
            Key::LShift => 112,
            Key::LWin => 113,
            Key::Mail => 114,
            Key::MediaSelect => 115,
            Key::MediaStop => 116,
            Key::Minus => 117,
            Key::Multiply => 118,
            Key::Mute => 119,
            Key::MyComputer => 120,
            Key::NavigateForward => 121,
            Key::NavigateBackward => 122,
            Key::NextTrack => 123,
            Key::NoConvert => 124,
            Key::NumpadComma => 125,
            Key::NumpadEnter => 126,
            Key::NumpadEquals => 127,
            Key::OEM102 => 128,
            Key::Period => 129,
            Key::PlayPause => 130,
            Key::Power => 131,
            Key::PrevTrack => 132,
            Key::RAlt => 133,
            Key::RBracket => 134,
            Key::RControl => 135,
            Key::RShift => 136,
            Key::RWin => 137,
            Key::Semicolon => 138,
            Key::Slash => 139,
            Key::Sleep => 140,
            Key::Stop => 141,
            Key::Subtract => 142,
            Key::Sysrq => 143,
            Key::Tab => 144,
            Key::Underline => 145,
            Key::Unlabeled => 146,
            Key::VolumeDown => 147,
            Key::VolumeUp => 148,
            Key::Wake => 149,
            Key::WebBack => 150,
            Key::WebFavorites => 151,
            Key::WebForward => 152,
            Key::WebHome => 153,
            Key::WebRefresh => 154,
            Key::WebSearch => 155,
            Key::WebStop => 156,
            Key::Yen => 157,
            Key::Copy => 158,
            Key::Paste => 159,
            Key::Cut => 160,
        }
    }
}

/// The key at position `rank` in the declaration of [`Key`] (the last key
/// for a position past the end).
pub open spec fn key_of_rank(rank: nat) -> Key {
    if rank == 0 {
        Key::Key1
    } else if rank == 1 {
        Key::Key2
    } else if rank == 2 {
        Key::Key3
    } else if rank == 3 {
        Key::Key4
    } else if rank == 4 {
        Key::Key5
    } else if rank == 5 {
        Key::Key6
    } else if rank == 6 {
        Key::Key7
    } else if rank == 7 {
        Key::Key8
    } else if rank == 8 {
        Key::Key9
    } else if rank == 9 {
        Key::Key0
    } else if rank == 10 {
        Key::A
    } else if rank == 11 {
        Key::B
    } else if rank == 12 {
        Key::C
    } else if rank == 13 {
        Key::D
    } else if rank == 14 {
        Key::E
    } else if rank == 15 {
        Key::F
    } else if rank == 16 {
        Key::G
    } else if rank == 17 {
        Key::H
    } else if rank == 18 {
        Key::I
    } else if rank == 19 {
        Key::J
    } else if rank == 20 {
        Key::K
    } else if rank == 21 {
        Key::L
    } else if rank == 22 {
        Key::M
    } else if rank == 23 {
        Key::N
    } else if rank == 24 {
        Key::O
    } else if rank == 25 {
        Key::P
    } else if rank == 26 {
        Key::Q
    } else if rank == 27 {
        Key::R
    } else if rank == 28 {
        Key::S
    } else if rank == 29 {
        Key::T
    } else if rank == 30 {
        Key::U
    } else if rank == 31 {
        Key::V
    } else if rank == 32 {
        Key::W
    } else if rank == 33 {
        Key::X
    } else if rank == 34 {
        Key::Y
    } else if rank == 35 {
        Key::Z
    } else if rank == 36 {
        Key::Escape
    } else if rank == 37 {
        Key::F1
    } else if rank == 38 {
        Key::F2
    } else if rank == 39 {
        Key::F3
    } else if rank == 40 {
        Key::F4
    } else if rank == 41 {
        Key::F5
    } else if rank == 42 {
        Key::F6
    } else if rank == 43 {
        Key::F7
    } else if rank == 44 {
        Key::F8
    } else if rank == 45 {
        Key::F9
    } else if rank == 46 {
        Key::F10
    } else if rank == 47 {
        Key::F11
    } else if rank == 48 {
        Key::F12
    } else if rank == 49 {
        Key::F13
    } else if rank == 50 {
        Key::F14
    } else if rank == 51 {
        Key::F15
    } else if rank == 52 {
        Key::F16
    } else if rank == 53 {
        Key::F17
    } else if rank == 54 {
        Key::F18
    } else if rank == 55 {
        Key::F19
    } else if rank == 56 {
        Key::F20
    } else if rank == 57 {
        Key::F21
    } else if rank == 58 {
        Key::F22
    } else if rank == 59 {
        Key::F23
    } else if rank == 60 {
        Key::F24
    } else if rank == 61 {
        Key::Snapshot
    } else if rank == 62 {
        Key::Scroll
    } else if rank == 63 {
        Key::Pause
    } else if rank == 64 {
        Key::Insert
    } else if rank == 65 {
        Key::Home
    } else if rank == 66 {
        Key::Delete
    } else if rank == 67 {
        Key::End
    } else if rank == 68 {
        Key::PageDown
    } else if rank == 69 {
        Key::PageUp
    } else if rank == 70 {
        Key::Left
    } else if rank == 71 {
        Key::Up
    } else if rank == 72 {
        Key::Right
    } else if rank == 73 {
        Key::Down
    } else if rank == 74 {
        Key::Backspace
    } else if rank == 75 {
        Key::Return
    } else if rank == 76 {
        Key::Space
    } else if rank == 77 {
        Key::Compose
    } else if rank == 78 {
        Key::Caret
    } else if rank == 79 {
        Key::Numlock
    } else if rank == 80 {
        Key::Numpad0
    } else if rank == 81 {
        Key::Numpad1
    } else if rank == 82 {
        Key::Numpad2
    } else if rank == 83 {
        Key::Numpad3
    } else if rank == 84 {
        Key::Numpad4
    } else if rank == 85 {
        Key::Numpad5
    } else if rank == 86 {
        Key::Numpad6
    } else if rank == 87 {
        Key::Numpad7
    } else if rank == 88 {
        Key::Numpad8
    } else if rank == 89 {
        Key::Numpad9
    } else if rank == 90 {
        Key::AbntC1
    } else if rank == 91 {
        Key::AbntC2
    } else if rank == 92 {
        Key::Add
    } else if rank == 93 {
        Key::Apostrophe
    } else if rank == 94 {
        Key::Apps
    } else if rank == 95 {
        Key::At
    } else if rank == 96 {
        Key::Ax
    } else if rank == 97 {
        Key::Backslash
    } else if rank == 98 {
        Key::Calculator
    } else if rank == 99 {
        Key::Capital
    } else if rank == 100 {
        Key::Colon
    } else if rank == 101 {
        Key::Comma
    } else if rank == 102 {
        Key::Convert
    } else if rank == 103 {
        Key::Decimal
    } else if rank == 104 {
        Key::Divide
    } else if rank == 105 {
        Key::Equals
    } else if rank == 106 {
        Key::Grave
    } else if rank == 107 {
        Key::Kana
    } else if rank == 108 {
        Key::Kanji
    } else if rank == 109 {
        Key::LAlt
    } else if rank == 110 {
        Key::LBracket
    } else if rank == 111 {
        Key::LControl
    } else if rank == 112 {
        Key::LShift
    } else if rank == 113 {
        Key::LWin
    } else if rank == 114 {
        Key::Mail
    } else if rank == 115 {
        Key::MediaSelect
    } else if rank == 116 {
        Key::MediaStop
    } else if rank == 117 {
        Key::Minus
    } else if rank == 118 {
        Key::Multiply
    } else if rank == 119 {
        Key::Mute
    } else if rank == 120 {
        Key::MyComputer
    } else if rank == 121 {
        Key::NavigateForward
    } else if rank == 122 {
        Key::NavigateBackward
    } else if rank == 123 {
        Key::NextTrack
    } else if rank == 124 {
        Key::NoConvert
    } else if rank == 125 {
        Key::NumpadComma
    } else if rank == 126 {
        Key::NumpadEnter
    } else if rank == 127 {
        Key::NumpadEquals
    } else if rank == 128 {
        Key::OEM102
    } else if rank == 129 {
        Key::Period
    } else if rank == 130 {
        Key::PlayPause
    } else if rank == 131 {
        Key::Power
    } else if rank == 132 {
        Key::PrevTrack
    } else if rank == 133 {
        Key::RAlt
    } else if rank == 134 {
        Key::RBracket
    } else if rank == 135 {
        Key::RControl
    } else if rank == 136 {
        Key::RShift
    } else if rank == 137 {
        Key::RWin
    } else if rank == 138 {
        Key::Semicolon
    } else if rank == 139 {
        Key::Slash
    } else if rank == 140 {
        Key::Sleep
    } else if rank == 141 {
        Key::Stop
    } else if rank == 142 {
        Key::Subtract
    } else if rank == 143 {
        Key::Sysrq
    } else if rank == 144 {
        Key::Tab
    } else if rank == 145 {
        Key::Underline
    } else if rank == 146 {
        Key::Unlabeled
    } else if rank == 147 {
        Key::VolumeDown
    } else if rank == 148 {
        Key::VolumeUp
    } else if rank == 149 {
        Key::Wake
    } else if rank == 150 {
        Key::WebBack
    } else if rank == 151 {
        Key::WebFavorites
    } else if rank == 152 {
        Key::WebForward
    } else if rank == 153 {
        Key::WebHome
    } else if rank == 154 {
        Key::WebRefresh
    } else if rank == 155 {
        Key::WebSearch
    } else if rank == 156 {
        Key::WebStop
    } else if rank == 157 {
        Key::Yen
    } else if rank == 158 {
        Key::Copy
    } else if rank == 159 {
        Key::Paste
    } else {
        Key::Cut
    }
}

/// Distinct keys have distinct positions: the position gives the key back.
pub proof fn lemma_key_rank_injective(key: Key)
    ensures
        key_of_rank(key_rank(key)) == key,
        key_rank(key) < NUM_KEYS,
{
}

/// The key of the same name as the window key `key`.
pub open spec fn key_of_virtual_key(key: VirtualKeyCode) -> Key {
    match key {
        VirtualKeyCode::Key1 => Key::Key1,
        VirtualKeyCode::Key2 => Key::Key2,
        VirtualKeyCode::Key3 => Key::Key3,
        VirtualKeyCode::Key4 => Key::Key4,
        VirtualKeyCode::Key5 => Key::Key5,
        VirtualKeyCode::Key6 => Key::Key6,
        VirtualKeyCode::Key7 => Key::Key7,
        VirtualKeyCode::Key8 => Key::Key8,
        VirtualKeyCode::Key9 => Key::Key9,
        VirtualKeyCode::Key0 => Key::Key0,
        VirtualKeyCode::A => Key::A,
        VirtualKeyCode::B => Key::B,
        VirtualKeyCode::C => Key::C,
        VirtualKeyCode::D => Key::D,
        VirtualKeyCode::E => Key::E,
        VirtualKeyCode::F => Key::F,
        VirtualKeyCode::G => Key::G,
        VirtualKeyCode::H => Key::H,
        VirtualKeyCode::I => Key::I,
        VirtualKeyCode::J => Key::J,
        VirtualKeyCode::K => Key::K,
        VirtualKeyCode::L => Key::L,
        VirtualKeyCode::M => Key::M,
        VirtualKeyCode::N => Key::N,
        VirtualKeyCode::O => Key::O,
        VirtualKeyCode::P => Key::P,
        VirtualKeyCode::Q => Key::Q,
        VirtualKeyCode::R => Key::R,
        VirtualKeyCode::S => Key::S,
        VirtualKeyCode::T => Key::T,
        VirtualKeyCode::U => Key::U,
        VirtualKeyCode::V => Key::V,
        VirtualKeyCode::W => Key::W,
        VirtualKeyCode::X => Key::X,
        VirtualKeyCode::Y => Key::Y,
        VirtualKeyCode::Z => Key::Z,
        VirtualKeyCode::Escape => Key::Escape,
        VirtualKeyCode::F1 => Key::F1,
        VirtualKeyCode::F2 => Key::F2,
        VirtualKeyCode::F3 => Key::F3,
        VirtualKeyCode::F4 => Key::F4,
        VirtualKeyCode::F5 => Key::F5,
        VirtualKeyCode::F6 => Key::F6,
        VirtualKeyCode::F7 => Key::F7,
        VirtualKeyCode::F8 => Key::F8,
        VirtualKeyCode::F9 => Key::F9,
        VirtualKeyCode::F10 => Key::F10,
        VirtualKeyCode::F11 => Key::F11,
        VirtualKeyCode::F12 => Key::F12,
        VirtualKeyCode::F13 => Key::F13,
        VirtualKeyCode::F14 => Key::F14,
        VirtualKeyCode::F15 => Key::F15,
        VirtualKeyCode::F16 => Key::F16,
        VirtualKeyCode::F17 => Key::F17,
        VirtualKeyCode::F18 => Key::F18,
        VirtualKeyCode::F19 => Key::F19,
        VirtualKeyCode::F20 => Key::F20,
        VirtualKeyCode::F21 => Key::F21,
        VirtualKeyCode::F22 => Key::F22,
        VirtualKeyCode::F23 => Key::F23,
        VirtualKeyCode::F24 => Key::F24,
        VirtualKeyCode::Snapshot => Key::Snapshot,
        VirtualKeyCode::Scroll => Key::Scroll,
        VirtualKeyCode::Pause => Key::Pause,
        VirtualKeyCode::Insert => Key::Insert,
        VirtualKeyCode::Home => Key::Home,
        VirtualKeyCode::Delete => Key::Delete,
        VirtualKeyCode::End => Key::End,
        VirtualKeyCode::PageDown => Key::PageDown,
        VirtualKeyCode::PageUp => Key::PageUp,
        VirtualKeyCode::Left => Key::Left,
        VirtualKeyCode::Up => Key::Up,
        VirtualKeyCode::Right => Key::Right,
        VirtualKeyCode::Down => Key::Down,
        VirtualKeyCode::Backspace => Key::Backspace,
        VirtualKeyCode::Return => Key::Return,
        VirtualKeyCode::Space => Key::Space,
        VirtualKeyCode::Compose => Key::Compose,
        VirtualKeyCode::Caret => Key::Caret,
        VirtualKeyCode::Numlock => Key::Numlock,
        VirtualKeyCode::Numpad0 => Key::Numpad0,
        VirtualKeyCode::Numpad1 => Key::Numpad1,
        VirtualKeyCode::Numpad2 => Key::Numpad2,
        VirtualKeyCode::Numpad3 => Key::Numpad3,
        VirtualKeyCode::Numpad4 => Key::Numpad4,
        VirtualKeyCode::Numpad5 => Key::Numpad5,
        VirtualKeyCode::Numpad6 => Key::Numpad6,
        VirtualKeyCode::Numpad7 => Key::Numpad7,
        VirtualKeyCode::Numpad8 => Key::Numpad8,
        VirtualKeyCode::Numpad9 => Key::Numpad9,
        VirtualKeyCode::AbntC1 => Key::AbntC1,
        VirtualKeyCode::AbntC2 => Key::AbntC2,
        VirtualKeyCode::Add => Key::Add,
        VirtualKeyCode::Apostrophe => Key::Apostrophe,
        VirtualKeyCode::Apps => Key::Apps,
        VirtualKeyCode::At => Key::At,
        VirtualKeyCode::Ax => Key::Ax,
        VirtualKeyCode::Backslash => Key::Backslash,
        VirtualKeyCode::Calculator => Key::Calculator,
        VirtualKeyCode::Capital => Key::Capital,
        VirtualKeyCode::Colon => Key::Colon,
        VirtualKeyCode::Comma => Key::Comma,
        VirtualKeyCode::Convert => Key::Convert,
        VirtualKeyCode::Decimal => Key::Decimal,
        VirtualKeyCode::Divide => Key::Divide,
        VirtualKeyCode::Equals => Key::Equals,
        VirtualKeyCode::Grave => Key::Grave,
        VirtualKeyCode::Kana => Key::Kana,
        VirtualKeyCode::Kanji => Key::Kanji,
        VirtualKeyCode::LAlt => Key::LAlt,
        VirtualKeyCode::LBracket => Key::LBracket,
        VirtualKeyCode::LControl => Key::LControl,
        VirtualKeyCode::LShift => Key::LShift,
        VirtualKeyCode::LWin => Key::LWin,
        VirtualKeyCode::Mail => Key::Mail,
        VirtualKeyCode::MediaSelect => Key::MediaSelect,
        VirtualKeyCode::MediaStop => Key::MediaStop,
        VirtualKeyCode::Minus => Key::Minus,
        VirtualKeyCode::Multiply => Key::Multiply,
        VirtualKeyCode::Mute => Key::Mute,
        VirtualKeyCode::MyComputer => Key::MyComputer,
        VirtualKeyCode::NavigateForward => Key::NavigateForward,
        VirtualKeyCode::NavigateBackward => Key::NavigateBackward,
        VirtualKeyCode::NextTrack => Key::NextTrack,
        VirtualKeyCode::NoConvert => Key::NoConvert,
        VirtualKeyCode::NumpadComma => Key::NumpadComma,
        VirtualKeyCode::NumpadEnter => Key::NumpadEnter,
        VirtualKeyCode::NumpadEquals => Key::NumpadEquals,
        VirtualKeyCode::OEM102 => Key::OEM102,
        VirtualKeyCode::Period => Key::Period,
        VirtualKeyCode::PlayPause => Key::PlayPause,
        VirtualKeyCode::Power => Key::Power,
        VirtualKeyCode::PrevTrack => Key::PrevTrack,
        VirtualKeyCode::RAlt => Key::RAlt,
        VirtualKeyCode::RBracket => Key::RBracket,
        VirtualKeyCode::RControl => Key::RControl,
        VirtualKeyCode::RShift => Key::RShift,
        VirtualKeyCode::RWin => Key::RWin,
        VirtualKeyCode::Semicolon => Key::Semicolon,
        VirtualKeyCode::Slash => Key::Slash,
        VirtualKeyCode::Sleep => Key::Sleep,
        VirtualKeyCode::Stop => Key::Stop,
        VirtualKeyCode::Subtract => Key::Subtract,
        VirtualKeyCode::Sysrq => Key::Sysrq,
        VirtualKeyCode::Tab => Key::Tab,
        VirtualKeyCode::Underline => Key::Underline,
        VirtualKeyCode::Unlabeled => Key::Unlabeled,
        VirtualKeyCode::VolumeDown => Key::VolumeDown,
        VirtualKeyCode::VolumeUp => Key::VolumeUp,
        VirtualKeyCode::Wake => Key::Wake,
        VirtualKeyCode::WebBack => Key::WebBack,
        VirtualKeyCode::WebFavorites => Key::WebFavorites,
        VirtualKeyCode::WebForward => Key::WebForward,
        VirtualKeyCode::WebHome => Key::WebHome,
        VirtualKeyCode::WebRefresh => Key::WebRefresh,
        VirtualKeyCode::WebSearch => Key::WebSearch,
        VirtualKeyCode::WebStop => Key::WebStop,
        VirtualKeyCode::Yen => Key::Yen,
        VirtualKeyCode::Copy => Key::Copy,
        VirtualKeyCode::Paste => Key::Paste,
        VirtualKeyCode::Cut => Key::Cut,
    }
}

/// Both tables of codes agree: a code names a key exactly when it names a
/// window key, and then the key of the same name.
#[verifier::rlimit(50)]
pub proof fn lemma_key_table_matches_window_key_table(code: Seq<char>)
    ensures
        key_of_code(code) == match virtual_key_of_code(code) {
            Some(vk) => Some(key_of_virtual_key(vk)),
            None => None,
        },
{
}

/// The number of keys.
pub const NUM_KEYS: u8 = 161;

impl Key {
    /// The key at position `rank` in the declaration of [`Key`] (the
    /// last key for a position past the end).
    pub fn from_rank(rank: u8) -> (key: Key)
        ensures
            key == key_of_rank(rank as nat),
    {
        if rank == 0 {
            Key::Key1
        } else if rank == 1 {
            Key::Key2
        } else if rank == 2 {
            Key::Key3
        } else if rank == 3 {
            Key::Key4
        } else if rank == 4 {
            Key::Key5
        } else if rank == 5 {
            Key::Key6
        } else if rank == 6 {
            Key::Key7
        } else if rank == 7 {
            Key::Key8
        } else if rank == 8 {
            Key::Key9
        } else if rank == 9 {
            Key::Key0
        } else if rank == 10 {
            Key::A
        } else if rank == 11 {
            Key::B
        } else if rank == 12 {
            Key::C
        } else if rank == 13 {
            Key::D
        } else if rank == 14 {
            Key::E
        } else if rank == 15 {
            Key::F
        } else if rank == 16 {
            Key::G
        } else if rank == 17 {
            Key::H
        } else if rank == 18 {
            Key::I
        } else if rank == 19 {
            Key::J
        } else if rank == 20 {
            Key::K
        } else if rank == 21 {
            Key::L
        } else if rank == 22 {
            Key::M
        } else if rank == 23 {
            Key::N
        } else if rank == 24 {
            Key::O
        } else if rank == 25 {
            Key::P
        } else if rank == 26 {
            Key::Q
        } else if rank == 27 {
            Key::R
        } else if rank == 28 {
            Key::S
        } else if rank == 29 {
            Key::T
        } else if rank == 30 {
            Key::U
        } else if rank == 31 {
            Key::V
        } else if rank == 32 {
            Key::W
        } else if rank == 33 {
            Key::X
        } else if rank == 34 {
            Key::Y
        } else if rank == 35 {
            Key::Z
        } else if rank == 36 {
            Key::Escape
        } else if rank == 37 {
            Key::F1
        } else if rank == 38 {
            Key::F2
        } else if rank == 39 {
            Key::F3
        } else if rank == 40 {
            Key::F4
        } else if rank == 41 {
            Key::F5
        } else if rank == 42 {
            Key::F6
        } else if rank == 43 {
            Key::F7
        } else if rank == 44 {
            Key::F8
        } else if rank == 45 {
            Key::F9
        } else if rank == 46 {
            Key::F10
        } else if rank == 47 {
            Key::F11
        } else if rank == 48 {
            Key::F12
        } else if rank == 49 {
            Key::F13
        } else if rank == 50 {
            Key::F14
        } else if rank == 51 {
            Key::F15
        } else if rank == 52 {
            Key::F16
        } else if rank == 53 {
            Key::F17
        } else if rank == 54 {
            Key::F18
        } else if rank == 55 {
            Key::F19
        } else if rank == 56 {
            Key::F20
        } else if rank == 57 {
            Key::F21
        } else if rank == 58 {
            Key::F22
        } else if rank == 59 {
            Key::F23
        } else if rank == 60 {
            Key::F24
        } else if rank == 61 {
            Key::Snapshot
        } else if rank == 62 {
            Key::Scroll
        } else if rank == 63 {
            Key::Pause
        } else if rank == 64 {
            Key::Insert
        } else if rank == 65 {
            Key::Home
        } else if rank == 66 {
            Key::Delete
        } else if rank == 67 {
            Key::End
        } else if rank == 68 {
            Key::PageDown
        } else if rank == 69 {
            Key::PageUp
        } else if rank == 70 {
            Key::Left
        } else if rank == 71 {
            Key::Up
        } else if rank == 72 {
            Key::Right
        } else if rank == 73 {
            Key::Down
        } else if rank == 74 {
            Key::Backspace
        } else if rank == 75 {
            Key::Return
        } else if rank == 76 {
            Key::Space
        } else if rank == 77 {
            Key::Compose
        } else if rank == 78 {
            Key::Caret
        } else if rank == 79 {
            Key::Numlock
        } else if rank == 80 {
            Key::Numpad0
        } else if rank == 81 {
            Key::Numpad1
        } else if rank == 82 {
            Key::Numpad2
        } else if rank == 83 {
            Key::Numpad3
        } else if rank == 84 {
            Key::Numpad4
        } else if rank == 85 {
            Key::Numpad5
        } else if rank == 86 {
            Key::Numpad6
        } else if rank == 87 {
            Key::Numpad7
        } else if rank == 88 {
            Key::Numpad8
        } else if rank == 89 {
            Key::Numpad9
        } else if rank == 90 {
            Key::AbntC1
        } else if rank == 91 {
            Key::AbntC2
        } else if rank == 92 {
            Key::Add
        } else if rank == 93 {
            Key::Apostrophe
        } else if rank == 94 {
            Key::Apps
        } else if rank == 95 {
            Key::At
        } else if rank == 96 {
            Key::Ax
        } else if rank == 97 {
            Key::Backslash
        } else if rank == 98 {
            Key::Calculator
        } else if rank == 99 {
            Key::Capital
        } else if rank == 100 {
            Key::Colon
        } else if rank == 101 {
            Key::Comma
        } else if rank == 102 {
            Key::Convert
        } else if rank == 103 {
            Key::Decimal
        } else if rank == 104 {
            Key::Divide
        } else if rank == 105 {
            Key::Equals
        } else if rank == 106 {
            Key::Grave
        } else if rank == 107 {
            Key::Kana
        } else if rank == 108 {
            Key::Kanji
        } else if rank == 109 {
            Key::LAlt
        } else if rank == 110 {
            Key::LBracket
        } else if rank == 111 {
            Key::LControl
        } else if rank == 112 {
            Key::LShift
        } else if rank == 113 {
            Key::LWin
        } else if rank == 114 {
            Key::Mail
        } else if rank == 115 {
            Key::MediaSelect
        } else if rank == 116 {
            Key::MediaStop
        } else if rank == 117 {
            Key::Minus
        } else if rank == 118 {
            Key::Multiply
        } else if rank == 119 {
            Key::Mute
        } else if rank == 120 {
            Key::MyComputer
        } else if rank == 121 {
            Key::NavigateForward
        } else if rank == 122 {
            Key::NavigateBackward
        } else if rank == 123 {
            Key::NextTrack
        } else if rank == 124 {
            Key::NoConvert
        } else if rank == 125 {
            Key::NumpadComma
        } else if rank == 126 {
            Key::NumpadEnter
        } else if rank == 127 {
            Key::NumpadEquals
        } else if rank == 128 {
            Key::OEM102
        } else if rank == 129 {
            Key::Period
        } else if rank == 130 {
            Key::PlayPause
        } else if rank == 131 {
            Key::Power
        } else if rank == 132 {
            Key::PrevTrack
        } else if rank == 133 {
            Key::RAlt
        } else if rank == 134 {
            Key::RBracket
        } else if rank == 135 {
            Key::RControl
        } else if rank == 136 {
            Key::RShift
        } else if rank == 137 {
            Key::RWin
        } else if rank == 138 {
            Key::Semicolon
        } else if rank == 139 {
            Key::Slash
        } else if rank == 140 {
            Key::Sleep
        } else if rank == 141 {
            Key::Stop
        } else if rank == 142 {
            Key::Subtract
        } else if rank == 143 {
            Key::Sysrq
        } else if rank == 144 {
            Key::Tab
        } else if rank == 145 {
            Key::Underline
        } else if rank == 146 {
            Key::Unlabeled
        } else if rank == 147 {
            Key::VolumeDown
        } else if rank == 148 {
            Key::VolumeUp
        } else if rank == 149 {
            Key::Wake
        } else if rank == 150 {
            Key::WebBack
        } else if rank == 151 {
            Key::WebFavorites
        } else if rank == 152 {
            Key::WebForward
        } else if rank == 153 {
            Key::WebHome
        } else if rank == 154 {
            Key::WebRefresh
        } else if rank == 155 {
            Key::WebSearch
        } else if rank == 156 {
            Key::WebStop
        } else if rank == 157 {
            Key::Yen
        } else if rank == 158 {
            Key::Copy
        } else if rank == 159 {
            Key::Paste
        } else {
            Key::Cut
        }
    }
}

/// Each position within the declaration holds the key of that position.
pub proof fn lemma_rank_of_key_of_rank(rank: nat)
    requires
        rank < NUM_KEYS,
    ensures
        key_rank(key_of_rank(rank)) == rank,
{
}

} // verus!
