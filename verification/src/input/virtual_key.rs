use vstd::prelude::*;

use crate::text::text_eq;

verus! {
/// A key that can be pressed.
#[derive(Debug, Copy, Clone, PartialEq, Eq, Structural, PartialOrd, Ord, Hash)]
pub enum VirtualKeyCode {
    /// The '1' key over the letters.
    Key1,
    /// The '2' key over the letters.
    Key2,
    /// The '3' key over the letters.
    Key3,
    /// The '4' key over the letters.
    Key4,
    /// The '5' key over the letters.
    Key5,
    /// The '6' key over the letters.
    Key6,
    /// The '7' key over the letters.
    Key7,
    /// The '8' key over the letters.
    Key8,
    /// The '9' key over the letters.
    Key9,
    /// The '0' key over the 'O' and 'P' keys.
    Key0,

    A,
    B,
    C,
    D,
    E,
    F,
    G,
    H,
    I,
    J,
    K,
    L,
    M,
    N,
    O,
    P,
    Q,
    R,
    S,
    T,
    U,
    V,
    W,
    X,
    Y,
    Z,

    /// The Escape key, next to F1.
    Escape,

    F1,
    F2,
    F3,
    F4,
    F5,
    F6,
    F7,
    F8,
    F9,
    F10,
    F11,
    F12,
    F13,
    F14,
    F15,
    F16,
    F17,
    F18,
    F19,
    F20,
    F21,
    F22,
    F23,
    F24,

    /// Print Screen/SysRq.
    Snapshot,
    /// Scroll Lock.
    Scroll,
    /// Pause/Break key, next to Scroll lock.
    Pause,

    /// `Insert`, next to Backspace.
    Insert,
    Home,
    Delete,
    End,
    PageDown,
    PageUp,

    Left,
    Up,
    Right,
    Down,

    /// The Backspace key, right over Enter.
    Backspace,
    /// The Enter key.
    Return,
    /// The space bar.
    Space,

    /// The "Compose" key on Linux.
    Compose,

    Caret,

    Numlock,
    Numpad0,
    Numpad1,
    Numpad2,
    Numpad3,
    Numpad4,
    Numpad5,
    Numpad6,
    Numpad7,
    Numpad8,
    Numpad9,

    AbntC1,
    AbntC2,
    Add,
    Apostrophe,
    Apps,
    At,
    Ax,
    Backslash,
    Calculator,
    Capital,
    Colon,
    Comma,
    Convert,
    Decimal,
    Divide,
    Equals,
    Grave,
    Kana,
    Kanji,
    LAlt,
    LBracket,
    LControl,
    LShift,
    LWin,
    Mail,
    MediaSelect,
    MediaStop,
    Minus,
    Multiply,
    Mute,
    MyComputer,
    NavigateForward,  // also called "Prior"
    NavigateBackward, // also called "Next"
    NextTrack,
    NoConvert,
    NumpadComma,
    NumpadEnter,
    NumpadEquals,
    OEM102,
    Period,
    PlayPause,
    Power,
    PrevTrack,
    RAlt,
    RBracket,
    RControl,
    RShift,
    RWin,
    Semicolon,
    Slash,
    Sleep,
    Stop,
    Subtract,
    Sysrq,
    Tab,
    Underline,
    Unlabeled,
    VolumeDown,
    VolumeUp,
    Wake,
    WebBack,
    WebFavorites,
    WebForward,
    WebHome,
    WebRefresh,
    WebSearch,
    WebStop,
    Yen,
    Copy,
    Paste,
    Cut,
}

/// The key that a DOM `KeyboardEvent.code` value names, or `None` for a
/// code that no variant of [`VirtualKeyCode`] stands for. The table is
/// looked up by the code's length, then its first character; `key_codes`
/// states it key by key.
pub open spec fn virtual_key_of_code(code: Seq<char>) -> Option<VirtualKeyCode> {
    if code.len() == 2 {
        if code[0] == 'F' {
            if code == "F1"@ {
                Some(VirtualKeyCode::F1)
            } else if code == "F2"@ {
                Some(VirtualKeyCode::F2)
            } else if code == "F3"@ {
                Some(VirtualKeyCode::F3)
            } else if code == "F4"@ {
                Some(VirtualKeyCode::F4)
            } else if code == "F5"@ {
                Some(VirtualKeyCode::F5)
            } else if code == "F6"@ {
                Some(VirtualKeyCode::F6)
            } else if code == "F7"@ {
                Some(VirtualKeyCode::F7)
            } else if code == "F8"@ {
                Some(VirtualKeyCode::F8)
            } else if code == "F9"@ {
                Some(VirtualKeyCode::F9)
            } else {
                None
            }
        } else if code[0] == 'A' {
            if code == "At"@ {
                Some(VirtualKeyCode::At)
            } else if code == "Ax"@ {
                Some(VirtualKeyCode::Ax)
            } else {
                None
            }
        } else {
            None
        }
    } else if code.len() == 3 {
        if code[0] == 'F' {
            if code == "F10"@ {
                Some(VirtualKeyCode::F10)
            } else if code == "F11"@ {
                Some(VirtualKeyCode::F11)
            } else if code == "F12"@ {
                Some(VirtualKeyCode::F12)
            } else if code == "F13"@ {
                Some(VirtualKeyCode::F13)
            } else if code == "F14"@ {
                Some(VirtualKeyCode::F14)
            } else if code == "F15"@ {
                Some(VirtualKeyCode::F15)
            } else if code == "F16"@ {
                Some(VirtualKeyCode::F16)
            } else if code == "F17"@ {
                Some(VirtualKeyCode::F17)
            } else if code == "F18"@ {
                Some(VirtualKeyCode::F18)
            } else if code == "F19"@ {
                Some(VirtualKeyCode::F19)
            } else if code == "F20"@ {
                Some(VirtualKeyCode::F20)
            } else if code == "F21"@ {
                Some(VirtualKeyCode::F21)
            } else if code == "F22"@ {
                Some(VirtualKeyCode::F22)
            } else if code == "F23"@ {
                Some(VirtualKeyCode::F23)
            } else if code == "F24"@ {
                Some(VirtualKeyCode::F24)
            } else {
                None
            }
        } else if code[0] == 'E' {
            if code == "End"@ {
                Some(VirtualKeyCode::End)
            } else {
                None
            }
        } else if code[0] == 'T' {
            if code == "Tab"@ {
                Some(VirtualKeyCode::Tab)
            } else {
                None
            }
        } else if code[0] == 'Y' {
            if code == "Yen"@ {
                Some(VirtualKeyCode::Yen)
            } else {
                None
            }
        } else {
            None
        }
    } else if code.len() == 4 {
        if code[0] == 'K' {
            if code == "KeyA"@ {
                Some(VirtualKeyCode::A)
            } else if code == "KeyB"@ {
                Some(VirtualKeyCode::B)
            } else if code == "KeyC"@ {
                Some(VirtualKeyCode::C)
            } else if code == "KeyD"@ {
                Some(VirtualKeyCode::D)
            } else if code == "KeyE"@ {
                Some(VirtualKeyCode::E)
            } else if code == "KeyF"@ {
                Some(VirtualKeyCode::F)
            } else if code == "KeyG"@ {
                Some(VirtualKeyCode::G)
            } else if code == "KeyH"@ {
                Some(VirtualKeyCode::H)
            } else if code == "KeyI"@ {
                Some(VirtualKeyCode::I)
            } else if code == "KeyJ"@ {
                Some(VirtualKeyCode::J)
            } else if code == "KeyK"@ {
                Some(VirtualKeyCode::K)
            } else if code == "KeyL"@ {
                Some(VirtualKeyCode::L)
            } else if code == "KeyM"@ {
                Some(VirtualKeyCode::M)
            } else if code == "KeyN"@ {
                Some(VirtualKeyCode::N)
            } else if code == "KeyO"@ {
                Some(VirtualKeyCode::O)
            } else if code == "KeyP"@ {
                Some(VirtualKeyCode::P)
            } else if code == "KeyQ"@ {
                Some(VirtualKeyCode::Q)
            } else if code == "KeyR"@ {
                Some(VirtualKeyCode::R)
            } else if code == "KeyS"@ {
                Some(VirtualKeyCode::S)
            } else if code == "KeyT"@ {
                Some(VirtualKeyCode::T)
            } else if code == "KeyU"@ {
                Some(VirtualKeyCode::U)
            } else if code == "KeyV"@ {
                Some(VirtualKeyCode::V)
            } else if code == "KeyW"@ {
                Some(VirtualKeyCode::W)
            } else if code == "KeyX"@ {
                Some(VirtualKeyCode::X)
            } else if code == "KeyY"@ {
                Some(VirtualKeyCode::Y)
            } else if code == "KeyZ"@ {
                Some(VirtualKeyCode::Z)
            } else if code == "Kana"@ {
                Some(VirtualKeyCode::Kana)
            } else {
                None
            }
        } else if code[0] == 'H' {
            if code == "Home"@ {
                Some(VirtualKeyCode::Home)
            } else {
                None
            }
        } else if code[0] == 'A' {
            if code == "Apps"@ {
                Some(VirtualKeyCode::Apps)
            } else {
                None
            }
        } else if code[0] == 'M' {
            if code == "Mail"@ {
                Some(VirtualKeyCode::Mail)
            } else if code == "Mute"@ {
                Some(VirtualKeyCode::Mute)
            } else {
                None
            }
        } else if code[0] == 'S' {
            if code == "Stop"@ {
                Some(VirtualKeyCode::Stop)
            } else {
                None
            }
        } else if code[0] == 'W' {
            if code == "Wake"@ {
                Some(VirtualKeyCode::Wake)
            } else {
                None
            }
        } else {
            None
        }
    } else if code.len() == 5 {
        if code[0] == 'P' {
            if code == "Pause"@ {
                Some(VirtualKeyCode::Pause)
            } else if code == "Power"@ {
                Some(VirtualKeyCode::Power)
            } else {
                None
            }
        } else if code[0] == 'E' {
            if code == "Enter"@ {
                Some(VirtualKeyCode::Return)
            } else if code == "Equal"@ {
                Some(VirtualKeyCode::Equals)
            } else {
                None
            }
        } else if code[0] == 'S' {
            if code == "Space"@ {
                Some(VirtualKeyCode::Space)
            } else if code == "Slash"@ {
                Some(VirtualKeyCode::Slash)
            } else if code == "Sleep"@ {
                Some(VirtualKeyCode::Sleep)
            } else if code == "Sysrq"@ {
                Some(VirtualKeyCode::Sysrq)
            } else {
                None
            }
        } else if code[0] == 'C' {
            if code == "Caret"@ {
                Some(VirtualKeyCode::Caret)
            } else if code == "Comma"@ {
                Some(VirtualKeyCode::Comma)
            } else {
                None
            }
        } else if code[0] == 'Q' {
            if code == "Quote"@ {
                Some(VirtualKeyCode::Apostrophe)
            } else {
                None
            }
        } else if code[0] == 'K' {
            if code == "Kanji"@ {
                Some(VirtualKeyCode::Kanji)
            } else {
                None
            }
        } else if code[0] == 'M' {
            if code == "Minus"@ {
                Some(VirtualKeyCode::Minus)
            } else {
                None
            }
        } else {
            None
        }
    } else if code.len() == 6 {
        if code[0] == 'D' {
            if code == "Digit1"@ {
                Some(VirtualKeyCode::Key1)
            } else if code == "Digit2"@ {
                Some(VirtualKeyCode::Key2)
            } else if code == "Digit3"@ {
                Some(VirtualKeyCode::Key3)
            } else if code == "Digit4"@ {
                Some(VirtualKeyCode::Key4)
            } else if code == "Digit5"@ {
                Some(VirtualKeyCode::Key5)
            } else if code == "Digit6"@ {
                Some(VirtualKeyCode::Key6)
            } else if code == "Digit7"@ {
                Some(VirtualKeyCode::Key7)
            } else if code == "Digit8"@ {
                Some(VirtualKeyCode::Key8)
            } else if code == "Digit9"@ {
                Some(VirtualKeyCode::Key9)
            } else if code == "Digit0"@ {
                Some(VirtualKeyCode::Key0)
            } else if code == "Delete"@ {
                Some(VirtualKeyCode::Delete)
            } else {
                None
            }
        } else if code[0] == 'E' {
            if code == "Escape"@ {
                Some(VirtualKeyCode::Escape)
            } else {
                None
            }
        } else if code[0] == 'I' {
            if code == "Insert"@ {
                Some(VirtualKeyCode::Insert)
            } else {
                None
            }
        } else if code[0] == 'P' {
            if code == "PageUp"@ {
                Some(VirtualKeyCode::PageUp)
            } else if code == "Period"@ {
                Some(VirtualKeyCode::Period)
            } else {
                None
            }
        } else if code[0] == 'A' {
            if code == "AbntC1"@ {
                Some(VirtualKeyCode::AbntC1)
            } else if code == "AbntC2"@ {
                Some(VirtualKeyCode::AbntC2)
            } else {
                None
            }
        } else if code[0] == 'O' {
            if code == "OEM102"@ {
                Some(VirtualKeyCode::OEM102)
            } else {
                None
            }
        } else {
            None
        }
    } else if code.len() == 7 {
        if code[0] == 'A' {
            if code == "ArrowUp"@ {
                Some(VirtualKeyCode::Up)
            } else if code == "AltLeft"@ {
                Some(VirtualKeyCode::LAlt)
            } else {
                None
            }
        } else if code[0] == 'C' {
            if code == "Compose"@ {
                Some(VirtualKeyCode::Compose)
            } else if code == "Capital"@ {
                Some(VirtualKeyCode::Capital)
            } else if code == "Convert"@ {
                Some(VirtualKeyCode::Convert)
            } else {
                None
            }
        } else if code[0] == 'N' {
            if code == "NumLock"@ {
                Some(VirtualKeyCode::Numlock)
            } else if code == "Numpad0"@ {
                Some(VirtualKeyCode::Numpad0)
            } else if code == "Numpad1"@ {
                Some(VirtualKeyCode::Numpad1)
            } else if code == "Numpad2"@ {
                Some(VirtualKeyCode::Numpad2)
            } else if code == "Numpad3"@ {
                Some(VirtualKeyCode::Numpad3)
            } else if code == "Numpad4"@ {
                Some(VirtualKeyCode::Numpad4)
            } else if code == "Numpad5"@ {
                Some(VirtualKeyCode::Numpad5)
            } else if code == "Numpad6"@ {
                Some(VirtualKeyCode::Numpad6)
            } else if code == "Numpad7"@ {
                Some(VirtualKeyCode::Numpad7)
            } else if code == "Numpad8"@ {
                Some(VirtualKeyCode::Numpad8)
            } else if code == "Numpad9"@ {
                Some(VirtualKeyCode::Numpad9)
            } else {
                None
            }
        } else if code[0] == 'W' {
            if code == "WebBack"@ {
                Some(VirtualKeyCode::WebBack)
            } else if code == "WebHome"@ {
                Some(VirtualKeyCode::WebHome)
            } else if code == "WebStop"@ {
                Some(VirtualKeyCode::WebStop)
            } else {
                None
            }
        } else {
            None
        }
    } else if code.len() == 8 {
        if code[0] == 'P' {
            if code == "PageDown"@ {
                Some(VirtualKeyCode::PageDown)
            } else {
                None
            }
        } else if code[0] == 'M' {
            if code == "MetaLeft"@ {
                Some(VirtualKeyCode::LWin)
            } else {
                None
            }
        } else if code[0] == 'A' {
            if code == "AltRight"@ {
                Some(VirtualKeyCode::RAlt)
            } else {
                None
            }
        } else {
            None
        }
    } else if code.len() == 9 {
        if code[0] == 'A' {
            if code == "ArrowLeft"@ {
                Some(VirtualKeyCode::Left)
            } else if code == "ArrowDown"@ {
                Some(VirtualKeyCode::Down)
            } else {
                None
            }
        } else if code[0] == 'B' {
            if code == "Backspace"@ {
                Some(VirtualKeyCode::Backspace)
            } else if code == "Backslash"@ {
                Some(VirtualKeyCode::Backslash)
            } else if code == "Backquote"@ {
                Some(VirtualKeyCode::Grave)
            } else {
                None
            }
        } else if code[0] == 'N' {
            if code == "NumpadAdd"@ {
                Some(VirtualKeyCode::Add)
            } else if code == "NextTrack"@ {
                Some(VirtualKeyCode::NextTrack)
            } else if code == "NoConvert"@ {
                Some(VirtualKeyCode::NoConvert)
            } else {
                None
            }
        } else if code[0] == 'S' {
            if code == "Semicolon"@ {
                Some(VirtualKeyCode::Semicolon)
            } else if code == "ShiftLeft"@ {
                Some(VirtualKeyCode::LShift)
            } else {
                None
            }
        } else if code[0] == 'M' {
            if code == "MediaStop"@ {
                Some(VirtualKeyCode::MediaStop)
            } else if code == "MetaRight"@ {
                Some(VirtualKeyCode::RWin)
            } else {
                None
            }
        } else if code[0] == 'P' {
            if code == "PlayPause"@ {
                Some(VirtualKeyCode::PlayPause)
            } else if code == "PrevTrack"@ {
                Some(VirtualKeyCode::PrevTrack)
            } else {
                None
            }
        } else if code[0] == 'U' {
            if code == "Underline"@ {
                Some(VirtualKeyCode::Underline)
            } else if code == "Unlabeled"@ {
                Some(VirtualKeyCode::Unlabeled)
            } else {
                None
            }
        } else if code[0] == 'W' {
            if code == "WebSearch"@ {
                Some(VirtualKeyCode::WebSearch)
            } else {
                None
            }
        } else {
            None
        }
    } else if code.len() == 10 {
        if code[0] == 'S' {
            if code == "ScrollLock"@ {
                Some(VirtualKeyCode::Scroll)
            } else if code == "ShiftRight"@ {
                Some(VirtualKeyCode::RShift)
            } else {
                None
            }
        } else if code[0] == 'A' {
            if code == "ArrowRight"@ {
                Some(VirtualKeyCode::Right)
            } else {
                None
            }
        } else if code[0] == 'C' {
            if code == "Calculator"@ {
                Some(VirtualKeyCode::Calculator)
            } else {
                None
            }
        } else if code[0] == 'W' {
            if code == "WebForward"@ {
                Some(VirtualKeyCode::WebForward)
            } else if code == "WebRefresh"@ {
                Some(VirtualKeyCode::WebRefresh)
            } else {
                None
            }
        } else {
            None
        }
    } else if code.len() == 11 {
        if code[0] == 'P' {
            if code == "PrintScreen"@ {
                Some(VirtualKeyCode::Snapshot)
            } else {
                None
            }
        } else if code[0] == 'B' {
            if code == "BracketLeft"@ {
                Some(VirtualKeyCode::LBracket)
            } else {
                None
            }
        } else if code[0] == 'C' {
            if code == "ControlLeft"@ {
                Some(VirtualKeyCode::LControl)
            } else {
                None
            }
        } else if code[0] == 'M' {
            if code == "MediaSelect"@ {
                Some(VirtualKeyCode::MediaSelect)
            } else {
                None
            }
        } else if code[0] == 'N' {
            if code == "NumpadComma"@ {
                Some(VirtualKeyCode::NumpadComma)
            } else if code == "NumpadEnter"@ {
                Some(VirtualKeyCode::NumpadEnter)
            } else {
                None
            }
        } else {
            None
        }
    } else if code.len() == 12 {
        if code[0] == 'N' {
            if code == "NumpadDivide"@ {
                Some(VirtualKeyCode::Divide)
            } else if code == "NumpadEquals"@ {
                Some(VirtualKeyCode::NumpadEquals)
            } else {
                None
            }
        } else if code[0] == 'B' {
            if code == "BracketRight"@ {
                Some(VirtualKeyCode::RBracket)
            } else {
                None
            }
        } else if code[0] == 'C' {
            if code == "ControlRight"@ {
                Some(VirtualKeyCode::RControl)
            } else {
                None
            }
        } else if code[0] == 'W' {
            if code == "WebFavorites"@ {
                Some(VirtualKeyCode::WebFavorites)
            } else {
                None
            }
        } else {
            None
        }
    } else if code.len() == 13 {
        if code[0] == 'N' {
            if code == "NumpadDecimal"@ {
                Some(VirtualKeyCode::Decimal)
            } else {
                None
            }
        } else if code[0] == 'A' {
            if code == "AudioVolumeUp"@ {
                Some(VirtualKeyCode::VolumeUp)
            } else {
                None
            }
        } else {
            None
        }
    } else if code.len() == 14 {
        if code[0] == 'N' {
            if code == "NumpadMultiply"@ {
                Some(VirtualKeyCode::Multiply)
            } else {
                None
            }
        } else {
            None
        }
    } else if code.len() == 15 {
        if code[0] == 'N' {
            if code == "NavigateForward"@ {
                Some(VirtualKeyCode::NavigateForward)
            } else {
                None
            }
        } else if code[0] == 'A' {
            if code == "AudioVolumeDown"@ {
                Some(VirtualKeyCode::VolumeDown)
            } else {
                None
            }
        } else {
            None
        }
    } else if code.len() == 16 {
        if code[0] == 'L' {
            if code == "LaunchMyComputer"@ {
                Some(VirtualKeyCode::MyComputer)
            } else {
                None
            }
        } else if code[0] == 'N' {
            if code == "NavigateBackward"@ {
                Some(VirtualKeyCode::NavigateBackward)
            } else {
                None
            }
        } else {
            None
        }
    } else {
        None
    }
}

impl VirtualKeyCode {
    /// Looks up the key of a keyboard event from the event's `code` property.
    pub fn from_keyboard_event(code: &str) -> (key: Option<VirtualKeyCode>)
        ensures
            key == virtual_key_of_code(code@),
    {
        let n = code.unicode_len();
        if n == 0 {
            return None;
        }
        let first = code.get_char(0);
        if n == 2 {
            if first == 'F' {
                if text_eq(code, "F1") {
                    Some(VirtualKeyCode::F1)
                } else if text_eq(code, "F2") {
                    Some(VirtualKeyCode::F2)
                } else if text_eq(code, "F3") {
                    Some(VirtualKeyCode::F3)
                } else if text_eq(code, "F4") {
                    Some(VirtualKeyCode::F4)
                } else if text_eq(code, "F5") {
                    Some(VirtualKeyCode::F5)
                } else if text_eq(code, "F6") {
                    Some(VirtualKeyCode::F6)
                } else if text_eq(code, "F7") {
                    Some(VirtualKeyCode::F7)
                } else if text_eq(code, "F8") {
                    Some(VirtualKeyCode::F8)
                } else if text_eq(code, "F9") {
                    Some(VirtualKeyCode::F9)
                } else {
                    None
                }
            } else if first == 'A' {
                if text_eq(code, "At") {
                    Some(VirtualKeyCode::At)
                } else if text_eq(code, "Ax") {
                    Some(VirtualKeyCode::Ax)
                } else {
                    None
                }
            } else {
                None
            }
        } else if n == 3 {
            if first == 'F' {
                if text_eq(code, "F10") {
                    Some(VirtualKeyCode::F10)
                } else if text_eq(code, "F11") {
                    Some(VirtualKeyCode::F11)
                } else if text_eq(code, "F12") {
                    Some(VirtualKeyCode::F12)
                } else if text_eq(code, "F13") {
                    Some(VirtualKeyCode::F13)
                } else if text_eq(code, "F14") {
                    Some(VirtualKeyCode::F14)
                } else if text_eq(code, "F15") {
                    Some(VirtualKeyCode::F15)
                } else if text_eq(code, "F16") {
                    Some(VirtualKeyCode::F16)
                } else if text_eq(code, "F17") {
                    Some(VirtualKeyCode::F17)
                } else if text_eq(code, "F18") {
                    Some(VirtualKeyCode::F18)
                } else if text_eq(code, "F19") {
                    Some(VirtualKeyCode::F19)
                } else if text_eq(code, "F20") {
                    Some(VirtualKeyCode::F20)
                } else if text_eq(code, "F21") {
                    Some(VirtualKeyCode::F21)
                } else if text_eq(code, "F22") {
                    Some(VirtualKeyCode::F22)
                } else if text_eq(code, "F23") {
                    Some(VirtualKeyCode::F23)
                } else if text_eq(code, "F24") {
                    Some(VirtualKeyCode::F24)
                } else {
                    None
                }
            } else if first == 'E' {
                if text_eq(code, "End") {
                    Some(VirtualKeyCode::End)
                } else {
                    None
                }
            } else if first == 'T' {
                if text_eq(code, "Tab") {
                    Some(VirtualKeyCode::Tab)
                } else {
                    None
                }
            } else if first == 'Y' {
                if text_eq(code, "Yen") {
                    Some(VirtualKeyCode::Yen)
                } else {
                    None
                }
            } else {
                None
            }
        } else if n == 4 {
            if first == 'K' {
                if text_eq(code, "KeyA") {
                    Some(VirtualKeyCode::A)
                } else if text_eq(code, "KeyB") {
                    Some(VirtualKeyCode::B)
                } else if text_eq(code, "KeyC") {
                    Some(VirtualKeyCode::C)
                } else if text_eq(code, "KeyD") {
                    Some(VirtualKeyCode::D)
                } else if text_eq(code, "KeyE") {
                    Some(VirtualKeyCode::E)
                } else if text_eq(code, "KeyF") {
                    Some(VirtualKeyCode::F)
                } else if text_eq(code, "KeyG") {
                    Some(VirtualKeyCode::G)
                } else if text_eq(code, "KeyH") {
                    Some(VirtualKeyCode::H)
                } else if text_eq(code, "KeyI") {
                    Some(VirtualKeyCode::I)
                } else if text_eq(code, "KeyJ") {
                    Some(VirtualKeyCode::J)
                } else if text_eq(code, "KeyK") {
                    Some(VirtualKeyCode::K)
                } else if text_eq(code, "KeyL") {
                    Some(VirtualKeyCode::L)
                } else if text_eq(code, "KeyM") {
                    Some(VirtualKeyCode::M)
                } else if text_eq(code, "KeyN") {
                    Some(VirtualKeyCode::N)
                } else if text_eq(code, "KeyO") {
                    Some(VirtualKeyCode::O)
                } else if text_eq(code, "KeyP") {
                    Some(VirtualKeyCode::P)
                } else if text_eq(code, "KeyQ") {
                    Some(VirtualKeyCode::Q)
                } else if text_eq(code, "KeyR") {
                    Some(VirtualKeyCode::R)
                } else if text_eq(code, "KeyS") {
                    Some(VirtualKeyCode::S)
                } else if text_eq(code, "KeyT") {
                    Some(VirtualKeyCode::T)
                } else if text_eq(code, "KeyU") {
                    Some(VirtualKeyCode::U)
                } else if text_eq(code, "KeyV") {
                    Some(VirtualKeyCode::V)
                } else if text_eq(code, "KeyW") {
                    Some(VirtualKeyCode::W)
                } else if text_eq(code, "KeyX") {
                    Some(VirtualKeyCode::X)
                } else if text_eq(code, "KeyY") {
                    Some(VirtualKeyCode::Y)
                } else if text_eq(code, "KeyZ") {
                    Some(VirtualKeyCode::Z)
                } else if text_eq(code, "Kana") {
                    Some(VirtualKeyCode::Kana)
                } else {
                    None
                }
            } else if first == 'H' {
                if text_eq(code, "Home") {
                    Some(VirtualKeyCode::Home)
                } else {
                    None
                }
            } else if first == 'A' {
                if text_eq(code, "Apps") {
                    Some(VirtualKeyCode::Apps)
                } else {
                    None
                }
            } else if first == 'M' {
                if text_eq(code, "Mail") {
                    Some(VirtualKeyCode::Mail)
                } else if text_eq(code, "Mute") {
                    Some(VirtualKeyCode::Mute)
                } else {
                    None
                }
            } else if first == 'S' {
                if text_eq(code, "Stop") {
                    Some(VirtualKeyCode::Stop)
                } else {
                    None
                }
            } else if first == 'W' {
                if text_eq(code, "Wake") {
                    Some(VirtualKeyCode::Wake)
                } else {
                    None
                }
            } else {
                None
            }
        } else if n == 5 {
            if first == 'P' {
                if text_eq(code, "Pause") {
                    Some(VirtualKeyCode::Pause)
                } else if text_eq(code, "Power") {
                    Some(VirtualKeyCode::Power)
                } else {
                    None
                }
            } else if first == 'E' {
                if text_eq(code, "Enter") {
                    Some(VirtualKeyCode::Return)
                } else if text_eq(code, "Equal") {
                    Some(VirtualKeyCode::Equals)
                } else {
                    None
                }
            } else if first == 'S' {
                if text_eq(code, "Space") {
                    Some(VirtualKeyCode::Space)
                } else if text_eq(code, "Slash") {
                    Some(VirtualKeyCode::Slash)
                } else if text_eq(code, "Sleep") {
                    Some(VirtualKeyCode::Sleep)
                } else if text_eq(code, "Sysrq") {
                    Some(VirtualKeyCode::Sysrq)
                } else {
                    None
                }
            } else if first == 'C' {
                if text_eq(code, "Caret") {
                    Some(VirtualKeyCode::Caret)
                } else if text_eq(code, "Comma") {
                    Some(VirtualKeyCode::Comma)
                } else {
                    None
                }
            } else if first == 'Q' {
                if text_eq(code, "Quote") {
                    Some(VirtualKeyCode::Apostrophe)
                } else {
                    None
                }
            } else if first == 'K' {
                if text_eq(code, "Kanji") {
                    Some(VirtualKeyCode::Kanji)
                } else {
                    None
                }
            } else if first == 'M' {
                if text_eq(code, "Minus") {
                    Some(VirtualKeyCode::Minus)
                } else {
                    None
                }
            } else {
                None
            }
        } else if n == 6 {
            if first == 'D' {
                if text_eq(code, "Digit1") {
                    Some(VirtualKeyCode::Key1)
                } else if text_eq(code, "Digit2") {
                    Some(VirtualKeyCode::Key2)
                } else if text_eq(code, "Digit3") {
                    Some(VirtualKeyCode::Key3)
                } else if text_eq(code, "Digit4") {
                    Some(VirtualKeyCode::Key4)
                } else if text_eq(code, "Digit5") {
                    Some(VirtualKeyCode::Key5)
                } else if text_eq(code, "Digit6") {
                    Some(VirtualKeyCode::Key6)
                } else if text_eq(code, "Digit7") {
                    Some(VirtualKeyCode::Key7)
                } else if text_eq(code, "Digit8") {
                    Some(VirtualKeyCode::Key8)
                } else if text_eq(code, "Digit9") {
                    Some(VirtualKeyCode::Key9)
                } else if text_eq(code, "Digit0") {
                    Some(VirtualKeyCode::Key0)
                } else if text_eq(code, "Delete") {
                    Some(VirtualKeyCode::Delete)
                } else {
                    None
                }
            } else if first == 'E' {
                if text_eq(code, "Escape") {
                    Some(VirtualKeyCode::Escape)
                } else {
                    None
                }
            } else if first == 'I' {
                if text_eq(code, "Insert") {
                    Some(VirtualKeyCode::Insert)
                } else {
                    None
                }
            } else if first == 'P' {
                if text_eq(code, "PageUp") {
                    Some(VirtualKeyCode::PageUp)
                } else if text_eq(code, "Period") {
                    Some(VirtualKeyCode::Period)
                } else {
                    None
                }
            } else if first == 'A' {
                if text_eq(code, "AbntC1") {
                    Some(VirtualKeyCode::AbntC1)
                } else if text_eq(code, "AbntC2") {
                    Some(VirtualKeyCode::AbntC2)
                } else {
                    None
                }
            } else if first == 'O' {
                if text_eq(code, "OEM102") {
                    Some(VirtualKeyCode::OEM102)
                } else {
                    None
                }
            } else {
                None
            }
        } else if n == 7 {
            if first == 'A' {
                if text_eq(code, "ArrowUp") {
                    Some(VirtualKeyCode::Up)
                } else if text_eq(code, "AltLeft") {
                    Some(VirtualKeyCode::LAlt)
                } else {
                    None
                }
            } else if first == 'C' {
                if text_eq(code, "Compose") {
                    Some(VirtualKeyCode::Compose)
                } else if text_eq(code, "Capital") {
                    Some(VirtualKeyCode::Capital)
                } else if text_eq(code, "Convert") {
                    Some(VirtualKeyCode::Convert)
                } else {
                    None
                }
            } else if first == 'N' {
                if text_eq(code, "NumLock") {
                    Some(VirtualKeyCode::Numlock)
                } else if text_eq(code, "Numpad0") {
                    Some(VirtualKeyCode::Numpad0)
                } else if text_eq(code, "Numpad1") {
                    Some(VirtualKeyCode::Numpad1)
                } else if text_eq(code, "Numpad2") {
                    Some(VirtualKeyCode::Numpad2)
                } else if text_eq(code, "Numpad3") {
                    Some(VirtualKeyCode::Numpad3)
                } else if text_eq(code, "Numpad4") {
                    Some(VirtualKeyCode::Numpad4)
                } else if text_eq(code, "Numpad5") {
                    Some(VirtualKeyCode::Numpad5)
                } else if text_eq(code, "Numpad6") {
                    Some(VirtualKeyCode::Numpad6)
                } else if text_eq(code, "Numpad7") {
                    Some(VirtualKeyCode::Numpad7)
                } else if text_eq(code, "Numpad8") {
                    Some(VirtualKeyCode::Numpad8)
                } else if text_eq(code, "Numpad9") {
                    Some(VirtualKeyCode::Numpad9)
                } else {
                    None
                }
            } else if first == 'W' {
                if text_eq(code, "WebBack") {
                    Some(VirtualKeyCode::WebBack)
                } else if text_eq(code, "WebHome") {
                    Some(VirtualKeyCode::WebHome)
                } else if text_eq(code, "WebStop") {
                    Some(VirtualKeyCode::WebStop)
                } else {
                    None
                }
            } else {
                None
            }
        } else if n == 8 {
            if first == 'P' {
                if text_eq(code, "PageDown") {
                    Some(VirtualKeyCode::PageDown)
                } else {
                    None
                }
            } else if first == 'M' {
                if text_eq(code, "MetaLeft") {
                    Some(VirtualKeyCode::LWin)
                } else {
                    None
                }
            } else if first == 'A' {
                if text_eq(code, "AltRight") {
                    Some(VirtualKeyCode::RAlt)
                } else {
                    None
                }
            } else {
                None
            }
        } else if n == 9 {
            if first == 'A' {
                if text_eq(code, "ArrowLeft") {
                    Some(VirtualKeyCode::Left)
                } else if text_eq(code, "ArrowDown") {
                    Some(VirtualKeyCode::Down)
                } else {
                    None
                }
            } else if first == 'B' {
                if text_eq(code, "Backspace") {
                    Some(VirtualKeyCode::Backspace)
                } else if text_eq(code, "Backslash") {
                    Some(VirtualKeyCode::Backslash)
                } else if text_eq(code, "Backquote") {
                    Some(VirtualKeyCode::Grave)
                } else {
                    None
                }
            } else if first == 'N' {
                if text_eq(code, "NumpadAdd") {
                    Some(VirtualKeyCode::Add)
                } else if text_eq(code, "NextTrack") {
                    Some(VirtualKeyCode::NextTrack)
                } else if text_eq(code, "NoConvert") {
                    Some(VirtualKeyCode::NoConvert)
                } else {
                    None
                }
            } else if first == 'S' {
                if text_eq(code, "Semicolon") {
                    Some(VirtualKeyCode::Semicolon)
                } else if text_eq(code, "ShiftLeft") {
                    Some(VirtualKeyCode::LShift)
                } else {
                    None
                }
            } else if first == 'M' {
                if text_eq(code, "MediaStop") {
                    Some(VirtualKeyCode::MediaStop)
                } else if text_eq(code, "MetaRight") {
                    Some(VirtualKeyCode::RWin)
                } else {
                    None
                }
            } else if first == 'P' {
                if text_eq(code, "PlayPause") {
                    Some(VirtualKeyCode::PlayPause)
                } else if text_eq(code, "PrevTrack") {
                    Some(VirtualKeyCode::PrevTrack)
                } else {
                    None
                }
            } else if first == 'U' {
                if text_eq(code, "Underline") {
                    Some(VirtualKeyCode::Underline)
                } else if text_eq(code, "Unlabeled") {
                    Some(VirtualKeyCode::Unlabeled)
                } else {
                    None
                }
            } else if first == 'W' {
                if text_eq(code, "WebSearch") {
                    Some(VirtualKeyCode::WebSearch)
                } else {
                    None
                }
            } else {
                None
            }
        } else if n == 10 {
            if first == 'S' {
                if text_eq(code, "ScrollLock") {
                    Some(VirtualKeyCode::Scroll)
                } else if text_eq(code, "ShiftRight") {
                    Some(VirtualKeyCode::RShift)
                } else {
                    None
                }
            } else if first == 'A' {
                if text_eq(code, "ArrowRight") {
                    Some(VirtualKeyCode::Right)
                } else {
                    None
                }
            } else if first == 'C' {
                if text_eq(code, "Calculator") {
                    Some(VirtualKeyCode::Calculator)
                } else {
                    None
                }
            } else if first == 'W' {
                if text_eq(code, "WebForward") {
                    Some(VirtualKeyCode::WebForward)
                } else if text_eq(code, "WebRefresh") {
                    Some(VirtualKeyCode::WebRefresh)
                } else {
                    None
                }
            } else {
                None
            }
        } else if n == 11 {
            if first == 'P' {
                if text_eq(code, "PrintScreen") {
                    Some(VirtualKeyCode::Snapshot)
                } else {
                    None
                }
            } else if first == 'B' {
                if text_eq(code, "BracketLeft") {
                    Some(VirtualKeyCode::LBracket)
                } else {
                    None
                }
            } else if first == 'C' {
                if text_eq(code, "ControlLeft") {
                    Some(VirtualKeyCode::LControl)
                } else {
                    None
                }
            } else if first == 'M' {
                if text_eq(code, "MediaSelect") {
                    Some(VirtualKeyCode::MediaSelect)
                } else {
                    None
                }
            } else if first == 'N' {
                if text_eq(code, "NumpadComma") {
                    Some(VirtualKeyCode::NumpadComma)
                } else if text_eq(code, "NumpadEnter") {
                    Some(VirtualKeyCode::NumpadEnter)
                } else {
                    None
                }
            } else {
                None
            }
        } else if n == 12 {
            if first == 'N' {
                if text_eq(code, "NumpadDivide") {
                    Some(VirtualKeyCode::Divide)
                } else if text_eq(code, "NumpadEquals") {
                    Some(VirtualKeyCode::NumpadEquals)
                } else {
                    None
                }
            } else if first == 'B' {
                if text_eq(code, "BracketRight") {
                    Some(VirtualKeyCode::RBracket)
                } else {
                    None
                }
            } else if first == 'C' {
                if text_eq(code, "ControlRight") {
                    Some(VirtualKeyCode::RControl)
                } else {
                    None
                }
            } else if first == 'W' {
                if text_eq(code, "WebFavorites") {
                    Some(VirtualKeyCode::WebFavorites)
                } else {
                    None
                }
            } else {
                None
            }
        } else if n == 13 {
            if first == 'N' {
                if text_eq(code, "NumpadDecimal") {
                    Some(VirtualKeyCode::Decimal)
                } else {
                    None
                }
            } else if first == 'A' {
                if text_eq(code, "AudioVolumeUp") {
                    Some(VirtualKeyCode::VolumeUp)
                } else {
                    None
                }
            } else {
                None
            }
        } else if n == 14 {
            if first == 'N' {
                if text_eq(code, "NumpadMultiply") {
                    Some(VirtualKeyCode::Multiply)
                } else {
                    None
                }
            } else {
                None
            }
        } else if n == 15 {
            if first == 'N' {
                if text_eq(code, "NavigateForward") {
                    Some(VirtualKeyCode::NavigateForward)
                } else {
                    None
                }
            } else if first == 'A' {
                if text_eq(code, "AudioVolumeDown") {
                    Some(VirtualKeyCode::VolumeDown)
                } else {
                    None
                }
            } else {
                None
            }
        } else if n == 16 {
            if first == 'L' {
                if text_eq(code, "LaunchMyComputer") {
                    Some(VirtualKeyCode::MyComputer)
                } else {
                    None
                }
            } else if first == 'N' {
                if text_eq(code, "NavigateBackward") {
                    Some(VirtualKeyCode::NavigateBackward)
                } else {
                    None
                }
            } else {
                None
            }
        } else {
            None
        }
    }
}

/// The position of `key` in the declaration of [`VirtualKeyCode`], which is the
/// order that the derived `Ord` gives keys.
pub open spec fn virtual_key_rank(key: VirtualKeyCode) -> nat {
    match key {
        VirtualKeyCode::Key1 => 0,
        VirtualKeyCode::Key2 => 1,
        VirtualKeyCode::Key3 => 2,
        VirtualKeyCode::Key4 => 3,
        VirtualKeyCode::Key5 => 4,
        VirtualKeyCode::Key6 => 5,
        VirtualKeyCode::Key7 => 6,
        VirtualKeyCode::Key8 => 7,
        VirtualKeyCode::Key9 => 8,
        VirtualKeyCode::Key0 => 9,
        VirtualKeyCode::A => 10,
        VirtualKeyCode::B => 11,
        VirtualKeyCode::C => 12,
        VirtualKeyCode::D => 13,
        VirtualKeyCode::E => 14,
        VirtualKeyCode::F => 15,
        VirtualKeyCode::G => 16,
        VirtualKeyCode::H => 17,
        VirtualKeyCode::I => 18,
        VirtualKeyCode::J => 19,
        VirtualKeyCode::K => 20,
        VirtualKeyCode::L => 21,
        VirtualKeyCode::M => 22,
        VirtualKeyCode::N => 23,
        VirtualKeyCode::O => 24,
        VirtualKeyCode::P => 25,
        VirtualKeyCode::Q => 26,
        VirtualKeyCode::R => 27,
        VirtualKeyCode::S => 28,
        VirtualKeyCode::T => 29,
        VirtualKeyCode::U => 30,
        VirtualKeyCode::V => 31,
        VirtualKeyCode::W => 32,
        VirtualKeyCode::X => 33,
        VirtualKeyCode::Y => 34,
        VirtualKeyCode::Z => 35,
        VirtualKeyCode::Escape => 36,
        VirtualKeyCode::F1 => 37,
        VirtualKeyCode::F2 => 38,
        VirtualKeyCode::F3 => 39,
        VirtualKeyCode::F4 => 40,
        VirtualKeyCode::F5 => 41,
        VirtualKeyCode::F6 => 42,
        VirtualKeyCode::F7 => 43,
        VirtualKeyCode::F8 => 44,
        VirtualKeyCode::F9 => 45,
        VirtualKeyCode::F10 => 46,
        VirtualKeyCode::F11 => 47,
        VirtualKeyCode::F12 => 48,
        VirtualKeyCode::F13 => 49,
        VirtualKeyCode::F14 => 50,
        VirtualKeyCode::F15 => 51,
        VirtualKeyCode::F16 => 52,
        VirtualKeyCode::F17 => 53,
        VirtualKeyCode::F18 => 54,
        VirtualKeyCode::F19 => 55,
        VirtualKeyCode::F20 => 56,
        VirtualKeyCode::F21 => 57,
        VirtualKeyCode::F22 => 58,
        VirtualKeyCode::F23 => 59,
        VirtualKeyCode::F24 => 60,
        VirtualKeyCode::Snapshot => 61,
        VirtualKeyCode::Scroll => 62,
        VirtualKeyCode::Pause => 63,
        VirtualKeyCode::Insert => 64,
        VirtualKeyCode::Home => 65,
        VirtualKeyCode::Delete => 66,
        VirtualKeyCode::End => 67,
        VirtualKeyCode::PageDown => 68,
        VirtualKeyCode::PageUp => 69,
        VirtualKeyCode::Left => 70,
        VirtualKeyCode::Up => 71,
        VirtualKeyCode::Right => 72,
        VirtualKeyCode::Down => 73,
        VirtualKeyCode::Backspace => 74,
        VirtualKeyCode::Return => 75,
        VirtualKeyCode::Space => 76,
        VirtualKeyCode::Compose => 77,
        VirtualKeyCode::Caret => 78,
        VirtualKeyCode::Numlock => 79,
        VirtualKeyCode::Numpad0 => 80,
        VirtualKeyCode::Numpad1 => 81,
        VirtualKeyCode::Numpad2 => 82,
        VirtualKeyCode::Numpad3 => 83,
        VirtualKeyCode::Numpad4 => 84,
        VirtualKeyCode::Numpad5 => 85,
        VirtualKeyCode::Numpad6 => 86,
        VirtualKeyCode::Numpad7 => 87,
        VirtualKeyCode::Numpad8 => 88,
        VirtualKeyCode::Numpad9 => 89,
        VirtualKeyCode::AbntC1 => 90,
        VirtualKeyCode::AbntC2 => 91,
        VirtualKeyCode::Add => 92,
        VirtualKeyCode::Apostrophe => 93,
        VirtualKeyCode::Apps => 94,
        VirtualKeyCode::At => 95,
        VirtualKeyCode::Ax => 96,
        VirtualKeyCode::Backslash => 97,
        VirtualKeyCode::Calculator => 98,
        VirtualKeyCode::Capital => 99,
        VirtualKeyCode::Colon => 100,
        VirtualKeyCode::Comma => 101,
        VirtualKeyCode::Convert => 102,
        VirtualKeyCode::Decimal => 103,
        VirtualKeyCode::Divide => 104,
        VirtualKeyCode::Equals => 105,
        VirtualKeyCode::Grave => 106,
        VirtualKeyCode::Kana => 107,
        VirtualKeyCode::Kanji => 108,
        VirtualKeyCode::LAlt => 109,
        VirtualKeyCode::LBracket => 110,
        VirtualKeyCode::LControl => 111,
        VirtualKeyCode::LShift => 112,
        VirtualKeyCode::LWin => 113,
        VirtualKeyCode::Mail => 114,
        VirtualKeyCode::MediaSelect => 115,
        VirtualKeyCode::MediaStop => 116,
        VirtualKeyCode::Minus => 117,
        VirtualKeyCode::Multiply => 118,
        VirtualKeyCode::Mute => 119,
        VirtualKeyCode::MyComputer => 120,
        VirtualKeyCode::NavigateForward => 121,
        VirtualKeyCode::NavigateBackward => 122,
        VirtualKeyCode::NextTrack => 123,
        VirtualKeyCode::NoConvert => 124,
        VirtualKeyCode::NumpadComma => 125,
        VirtualKeyCode::NumpadEnter => 126,
        VirtualKeyCode::NumpadEquals => 127,
        VirtualKeyCode::OEM102 => 128,
        VirtualKeyCode::Period => 129,
        VirtualKeyCode::PlayPause => 130,
        VirtualKeyCode::Power => 131,
        VirtualKeyCode::PrevTrack => 132,
        VirtualKeyCode::RAlt => 133,
        VirtualKeyCode::RBracket => 134,
        VirtualKeyCode::RControl => 135,
        VirtualKeyCode::RShift => 136,
        VirtualKeyCode::RWin => 137,
        VirtualKeyCode::Semicolon => 138,
        VirtualKeyCode::Slash => 139,
        VirtualKeyCode::Sleep => 140,
        VirtualKeyCode::Stop => 141,
        VirtualKeyCode::Subtract => 142,
        VirtualKeyCode::Sysrq => 143,
        VirtualKeyCode::Tab => 144,
        VirtualKeyCode::Underline => 145,
        VirtualKeyCode::Unlabeled => 146,
        VirtualKeyCode::VolumeDown => 147,
        VirtualKeyCode::VolumeUp => 148,
        VirtualKeyCode::Wake => 149,
        VirtualKeyCode::WebBack => 150,
        VirtualKeyCode::WebFavorites => 151,
        VirtualKeyCode::WebForward => 152,
        VirtualKeyCode::WebHome => 153,
        VirtualKeyCode::WebRefresh => 154,
        VirtualKeyCode::WebSearch => 155,
        VirtualKeyCode::WebStop => 156,
        VirtualKeyCode::Yen => 157,
        VirtualKeyCode::Copy => 158,
        VirtualKeyCode::Paste => 159,
        VirtualKeyCode::Cut => 160,
    }
}

impl VirtualKeyCode {
    /// The position of the key in the declaration of [`VirtualKeyCode`].
    pub fn rank(&self) -> (r: u8)
        ensures
            r == virtual_key_rank(*self),
    {
        match self {
            VirtualKeyCode::Key1 => 0,
            VirtualKeyCode::Key2 => 1,
            VirtualKeyCode::Key3 => 2,
            VirtualKeyCode::Key4 => 3,
            VirtualKeyCode::Key5 => 4,
            VirtualKeyCode::Key6 => 5,
            VirtualKeyCode::Key7 => 6,
            VirtualKeyCode::Key8 => 7,
            VirtualKeyCode::Key9 => 8,
            VirtualKeyCode::Key0 => 9,
            VirtualKeyCode::A => 10,
            VirtualKeyCode::B => 11,
            VirtualKeyCode::C => 12,
            VirtualKeyCode::D => 13,
            VirtualKeyCode::E => 14,
            VirtualKeyCode::F => 15,
            VirtualKeyCode::G => 16,
            VirtualKeyCode::H => 17,
            VirtualKeyCode::I => 18,
            VirtualKeyCode::J => 19,
            VirtualKeyCode::K => 20,
            VirtualKeyCode::L => 21,
            VirtualKeyCode::M => 22,
            VirtualKeyCode::N => 23,
            VirtualKeyCode::O => 24,
            VirtualKeyCode::P => 25,
            VirtualKeyCode::Q => 26,
            VirtualKeyCode::R => 27,
            VirtualKeyCode::S => 28,
            VirtualKeyCode::T => 29,
            VirtualKeyCode::U => 30,
            VirtualKeyCode::V => 31,
            VirtualKeyCode::W => 32,
            VirtualKeyCode::X => 33,
            VirtualKeyCode::Y => 34,
            VirtualKeyCode::Z => 35,
            VirtualKeyCode::Escape => 36,
            VirtualKeyCode::F1 => 37,
            VirtualKeyCode::F2 => 38,
            VirtualKeyCode::F3 => 39,
            VirtualKeyCode::F4 => 40,
            VirtualKeyCode::F5 => 41,
            VirtualKeyCode::F6 => 42,
            VirtualKeyCode::F7 => 43,
            VirtualKeyCode::F8 => 44,
            VirtualKeyCode::F9 => 45,
            VirtualKeyCode::F10 => 46,
            VirtualKeyCode::F11 => 47,
            VirtualKeyCode::F12 => 48,
            VirtualKeyCode::F13 => 49,
            VirtualKeyCode::F14 => 50,
            VirtualKeyCode::F15 => 51,
            VirtualKeyCode::F16 => 52,
            VirtualKeyCode::F17 => 53,
            VirtualKeyCode::F18 => 54,
            VirtualKeyCode::F19 => 55,
            VirtualKeyCode::F20 => 56,
            VirtualKeyCode::F21 => 57,
            VirtualKeyCode::F22 => 58,
            VirtualKeyCode::F23 => 59,
            VirtualKeyCode::F24 => 60,
            VirtualKeyCode::Snapshot => 61,
            VirtualKeyCode::Scroll => 62,
            VirtualKeyCode::Pause => 63,
            VirtualKeyCode::Insert => 64,
            VirtualKeyCode::Home => 65,
            VirtualKeyCode::Delete => 66,
            VirtualKeyCode::End => 67,
            VirtualKeyCode::PageDown => 68,
            VirtualKeyCode::PageUp => 69,
            VirtualKeyCode::Left => 70,
            VirtualKeyCode::Up => 71,
            VirtualKeyCode::Right => 72,
            VirtualKeyCode::Down => 73,
            VirtualKeyCode::Backspace => 74,
            VirtualKeyCode::Return => 75,
            VirtualKeyCode::Space => 76,
            VirtualKeyCode::Compose => 77,
            VirtualKeyCode::Caret => 78,
            VirtualKeyCode::Numlock => 79,
            VirtualKeyCode::Numpad0 => 80,
            VirtualKeyCode::Numpad1 => 81,
            VirtualKeyCode::Numpad2 => 82,
            VirtualKeyCode::Numpad3 => 83,
            VirtualKeyCode::Numpad4 => 84,
            VirtualKeyCode::Numpad5 => 85,
            VirtualKeyCode::Numpad6 => 86,
            VirtualKeyCode::Numpad7 => 87,
            VirtualKeyCode::Numpad8 => 88,
            VirtualKeyCode::Numpad9 => 89,
            VirtualKeyCode::AbntC1 => 90,
            VirtualKeyCode::AbntC2 => 91,
            VirtualKeyCode::Add => 92,
            VirtualKeyCode::Apostrophe => 93,
            VirtualKeyCode::Apps => 94,
            VirtualKeyCode::At => 95,
            VirtualKeyCode::Ax => 96,
            VirtualKeyCode::Backslash => 97,
            VirtualKeyCode::Calculator => 98,
            VirtualKeyCode::Capital => 99,
            VirtualKeyCode::Colon => 100,
            VirtualKeyCode::Comma => 101,
            VirtualKeyCode::Convert => 102,
            VirtualKeyCode::Decimal => 103,
            VirtualKeyCode::Divide => 104,
            VirtualKeyCode::Equals => 105,
            VirtualKeyCode::Grave => 106,
            VirtualKeyCode::Kana => 107,
            VirtualKeyCode::Kanji => 108,
            VirtualKeyCode::LAlt => 109,
            VirtualKeyCode::LBracket => 110,
            VirtualKeyCode::LControl => 111,
            VirtualKeyCode::LShift => 112,
            VirtualKeyCode::LWin => 113,
            VirtualKeyCode::Mail => 114,
            VirtualKeyCode::MediaSelect => 115,
            VirtualKeyCode::MediaStop => 116,
            VirtualKeyCode::Minus => 117,
            VirtualKeyCode::Multiply => 118,
            VirtualKeyCode::Mute => 119,
            VirtualKeyCode::MyComputer => 120,
            VirtualKeyCode::NavigateForward => 121,
            VirtualKeyCode::NavigateBackward => 122,
            VirtualKeyCode::NextTrack => 123,
            VirtualKeyCode::NoConvert => 124,
            VirtualKeyCode::NumpadComma => 125,
            VirtualKeyCode::NumpadEnter => 126,
            VirtualKeyCode::NumpadEquals => 127,
            VirtualKeyCode::OEM102 => 128,
            VirtualKeyCode::Period => 129,
            VirtualKeyCode::PlayPause => 130,
            VirtualKeyCode::Power => 131,
            VirtualKeyCode::PrevTrack => 132,
            VirtualKeyCode::RAlt => 133,
            VirtualKeyCode::RBracket => 134,
            VirtualKeyCode::RControl => 135,
            VirtualKeyCode::RShift => 136,
            VirtualKeyCode::RWin => 137,
            VirtualKeyCode::Semicolon => 138,
            VirtualKeyCode::Slash => 139,
            VirtualKeyCode::Sleep => 140,
            VirtualKeyCode::Stop => 141,
            VirtualKeyCode::Subtract => 142,
            VirtualKeyCode::Sysrq => 143,
            VirtualKeyCode::Tab => 144,
            VirtualKeyCode::Underline => 145,
            VirtualKeyCode::Unlabeled => 146,
            VirtualKeyCode::VolumeDown => 147,
            VirtualKeyCode::VolumeUp => 148,
            VirtualKeyCode::Wake => 149,
            VirtualKeyCode::WebBack => 150,
            VirtualKeyCode::WebFavorites => 151,
            VirtualKeyCode::WebForward => 152,
            VirtualKeyCode::WebHome => 153,
            VirtualKeyCode::WebRefresh => 154,
            VirtualKeyCode::WebSearch => 155,
            VirtualKeyCode::WebStop => 156,
            VirtualKeyCode::Yen => 157,
            VirtualKeyCode::Copy => 158,
            VirtualKeyCode::Paste => 159,
            VirtualKeyCode::Cut => 160,
        }
    }
}

/// The key at position `rank` in the declaration of [`VirtualKeyCode`] (the
/// last key for a position past the end).
pub open spec fn virtual_key_of_rank(rank: nat) -> VirtualKeyCode {
    if rank == 0 {
        VirtualKeyCode::Key1
    } else if rank == 1 {
        VirtualKeyCode::Key2
    } else if rank == 2 {
        VirtualKeyCode::Key3
    } else if rank == 3 {
        VirtualKeyCode::Key4
    } else if rank == 4 {
        VirtualKeyCode::Key5
    } else if rank == 5 {
        VirtualKeyCode::Key6
    } else if rank == 6 {
        VirtualKeyCode::Key7
    } else if rank == 7 {
        VirtualKeyCode::Key8
    } else if rank == 8 {
        VirtualKeyCode::Key9
    } else if rank == 9 {
        VirtualKeyCode::Key0
    } else if rank == 10 {
        VirtualKeyCode::A
    } else if rank == 11 {
        VirtualKeyCode::B
    } else if rank == 12 {
        VirtualKeyCode::C
    } else if rank == 13 {
        VirtualKeyCode::D
    } else if rank == 14 {
        VirtualKeyCode::E
    } else if rank == 15 {
        VirtualKeyCode::F
    } else if rank == 16 {
        VirtualKeyCode::G
    } else if rank == 17 {
        VirtualKeyCode::H
    } else if rank == 18 {
        VirtualKeyCode::I
    } else if rank == 19 {
        VirtualKeyCode::J
    } else if rank == 20 {
        VirtualKeyCode::K
    } else if rank == 21 {
        VirtualKeyCode::L
    } else if rank == 22 {
        VirtualKeyCode::M
    } else if rank == 23 {
        VirtualKeyCode::N
    } else if rank == 24 {
        VirtualKeyCode::O
    } else if rank == 25 {
        VirtualKeyCode::P
    } else if rank == 26 {
        VirtualKeyCode::Q
    } else if rank == 27 {
        VirtualKeyCode::R
    } else if rank == 28 {
        VirtualKeyCode::S
    } else if rank == 29 {
        VirtualKeyCode::T
    } else if rank == 30 {
        VirtualKeyCode::U
    } else if rank == 31 {
        VirtualKeyCode::V
    } else if rank == 32 {
        VirtualKeyCode::W
    } else if rank == 33 {
        VirtualKeyCode::X
    } else if rank == 34 {
        VirtualKeyCode::Y
    } else if rank == 35 {
        VirtualKeyCode::Z
    } else if rank == 36 {
        VirtualKeyCode::Escape
    } else if rank == 37 {
        VirtualKeyCode::F1
    } else if rank == 38 {
        VirtualKeyCode::F2
    } else if rank == 39 {
        VirtualKeyCode::F3
    } else if rank == 40 {
        VirtualKeyCode::F4
    } else if rank == 41 {
        VirtualKeyCode::F5
    } else if rank == 42 {
        VirtualKeyCode::F6
    } else if rank == 43 {
        VirtualKeyCode::F7
    } else if rank == 44 {
        VirtualKeyCode::F8
    } else if rank == 45 {
        VirtualKeyCode::F9
    } else if rank == 46 {
        VirtualKeyCode::F10
    } else if rank == 47 {
        VirtualKeyCode::F11
    } else if rank == 48 {
        VirtualKeyCode::F12
    } else if rank == 49 {
        VirtualKeyCode::F13
    } else if rank == 50 {
        VirtualKeyCode::F14
    } else if rank == 51 {
        VirtualKeyCode::F15
    } else if rank == 52 {
        VirtualKeyCode::F16
    } else if rank == 53 {
        VirtualKeyCode::F17
    } else if rank == 54 {
        VirtualKeyCode::F18
    } else if rank == 55 {
        VirtualKeyCode::F19
    } else if rank == 56 {
        VirtualKeyCode::F20
    } else if rank == 57 {
        VirtualKeyCode::F21
    } else if rank == 58 {
        VirtualKeyCode::F22
    } else if rank == 59 {
        VirtualKeyCode::F23
    } else if rank == 60 {
        VirtualKeyCode::F24
    } else if rank == 61 {
        VirtualKeyCode::Snapshot
    } else if rank == 62 {
        VirtualKeyCode::Scroll
    } else if rank == 63 {
        VirtualKeyCode::Pause
    } else if rank == 64 {
        VirtualKeyCode::Insert
    } else if rank == 65 {
        VirtualKeyCode::Home
    } else if rank == 66 {
        VirtualKeyCode::Delete
    } else if rank == 67 {
        VirtualKeyCode::End
    } else if rank == 68 {
        VirtualKeyCode::PageDown
    } else if rank == 69 {
        VirtualKeyCode::PageUp
    } else if rank == 70 {
        VirtualKeyCode::Left
    } else if rank == 71 {
        VirtualKeyCode::Up
    } else if rank == 72 {
        VirtualKeyCode::Right
    } else if rank == 73 {
        VirtualKeyCode::Down
    } else if rank == 74 {
        VirtualKeyCode::Backspace
    } else if rank == 75 {
        VirtualKeyCode::Return
    } else if rank == 76 {
        VirtualKeyCode::Space
    } else if rank == 77 {
        VirtualKeyCode::Compose
    } else if rank == 78 {
        VirtualKeyCode::Caret
    } else if rank == 79 {
        VirtualKeyCode::Numlock
    } else if rank == 80 {
        VirtualKeyCode::Numpad0
    } else if rank == 81 {
        VirtualKeyCode::Numpad1
    } else if rank == 82 {
        VirtualKeyCode::Numpad2
    } else if rank == 83 {
        VirtualKeyCode::Numpad3
    } else if rank == 84 {
        VirtualKeyCode::Numpad4
    } else if rank == 85 {
        VirtualKeyCode::Numpad5
    } else if rank == 86 {
        VirtualKeyCode::Numpad6
    } else if rank == 87 {
        VirtualKeyCode::Numpad7
    } else if rank == 88 {
        VirtualKeyCode::Numpad8
    } else if rank == 89 {
        VirtualKeyCode::Numpad9
    } else if rank == 90 {
        VirtualKeyCode::AbntC1
    } else if rank == 91 {
        VirtualKeyCode::AbntC2
    } else if rank == 92 {
        VirtualKeyCode::Add
    } else if rank == 93 {
        VirtualKeyCode::Apostrophe
    } else if rank == 94 {
        VirtualKeyCode::Apps
    } else if rank == 95 {
        VirtualKeyCode::At
    } else if rank == 96 {
        VirtualKeyCode::Ax
    } else if rank == 97 {
        VirtualKeyCode::Backslash
    } else if rank == 98 {
        VirtualKeyCode::Calculator
    } else if rank == 99 {
        VirtualKeyCode::Capital
    } else if rank == 100 {
        VirtualKeyCode::Colon
    } else if rank == 101 {
        VirtualKeyCode::Comma
    } else if rank == 102 {
        VirtualKeyCode::Convert
    } else if rank == 103 {
        VirtualKeyCode::Decimal
    } else if rank == 104 {
        VirtualKeyCode::Divide
    } else if rank == 105 {
        VirtualKeyCode::Equals
    } else if rank == 106 {
        VirtualKeyCode::Grave
    } else if rank == 107 {
        VirtualKeyCode::Kana
    } else if rank == 108 {
        VirtualKeyCode::Kanji
    } else if rank == 109 {
        VirtualKeyCode::LAlt
    } else if rank == 110 {
        VirtualKeyCode::LBracket
    } else if rank == 111 {
        VirtualKeyCode::LControl
    } else if rank == 112 {
        VirtualKeyCode::LShift
    } else if rank == 113 {
        VirtualKeyCode::LWin
    } else if rank == 114 {
        VirtualKeyCode::Mail
    } else if rank == 115 {
        VirtualKeyCode::MediaSelect
    } else if rank == 116 {
        VirtualKeyCode::MediaStop
    } else if rank == 117 {
        VirtualKeyCode::Minus
    } else if rank == 118 {
        VirtualKeyCode::Multiply
    } else if rank == 119 {
        VirtualKeyCode::Mute
    } else if rank == 120 {
        VirtualKeyCode::MyComputer
    } else if rank == 121 {
        VirtualKeyCode::NavigateForward
    } else if rank == 122 {
        VirtualKeyCode::NavigateBackward
    } else if rank == 123 {
        VirtualKeyCode::NextTrack
    } else if rank == 124 {
        VirtualKeyCode::NoConvert
    } else if rank == 125 {
        VirtualKeyCode::NumpadComma
    } else if rank == 126 {
        VirtualKeyCode::NumpadEnter
    } else if rank == 127 {
        VirtualKeyCode::NumpadEquals
    } else if rank == 128 {
        VirtualKeyCode::OEM102
    } else if rank == 129 {
        VirtualKeyCode::Period
    } else if rank == 130 {
        VirtualKeyCode::PlayPause
    } else if rank == 131 {
        VirtualKeyCode::Power
    } else if rank == 132 {
        VirtualKeyCode::PrevTrack
    } else if rank == 133 {
        VirtualKeyCode::RAlt
    } else if rank == 134 {
        VirtualKeyCode::RBracket
    } else if rank == 135 {
        VirtualKeyCode::RControl
    } else if rank == 136 {
        VirtualKeyCode::RShift
    } else if rank == 137 {
        VirtualKeyCode::RWin
    } else if rank == 138 {
        VirtualKeyCode::Semicolon
    } else if rank == 139 {
        VirtualKeyCode::Slash
    } else if rank == 140 {
        VirtualKeyCode::Sleep
    } else if rank == 141 {
        VirtualKeyCode::Stop
    } else if rank == 142 {
        VirtualKeyCode::Subtract
    } else if rank == 143 {
        VirtualKeyCode::Sysrq
    } else if rank == 144 {
        VirtualKeyCode::Tab
    } else if rank == 145 {
        VirtualKeyCode::Underline
    } else if rank == 146 {
        VirtualKeyCode::Unlabeled
    } else if rank == 147 {
        VirtualKeyCode::VolumeDown
    } else if rank == 148 {
        VirtualKeyCode::VolumeUp
    } else if rank == 149 {
        VirtualKeyCode::Wake
    } else if rank == 150 {
        VirtualKeyCode::WebBack
    } else if rank == 151 {
        VirtualKeyCode::WebFavorites
    } else if rank == 152 {
        VirtualKeyCode::WebForward
    } else if rank == 153 {
        VirtualKeyCode::WebHome
    } else if rank == 154 {
        VirtualKeyCode::WebRefresh
    } else if rank == 155 {
        VirtualKeyCode::WebSearch
    } else if rank == 156 {
        VirtualKeyCode::WebStop
    } else if rank == 157 {
        VirtualKeyCode::Yen
    } else if rank == 158 {
        VirtualKeyCode::Copy
    } else if rank == 159 {
        VirtualKeyCode::Paste
    } else {
        VirtualKeyCode::Cut
    }
}

/// The number of window keys.
pub const NUM_VIRTUAL_KEYS: u8 = 161;

/// Distinct keys have distinct positions: the position gives the key back.
pub proof fn lemma_virtual_key_rank_injective(key: VirtualKeyCode)
    ensures
        virtual_key_of_rank(virtual_key_rank(key)) == key,
        virtual_key_rank(key) < NUM_VIRTUAL_KEYS,
{
}

} // verus!
