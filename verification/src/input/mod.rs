//! Keyboard and mouse input: the keys that keyboard codes name, and the
//! state of the input devices kept up to date from input events.

pub mod input_state;
pub mod key;
pub mod key_codes;
pub mod keys_state;
pub mod virtual_key;

pub use input_state::{Event, InputState};
pub use key::{key_of_code, Key};
pub use keys_state::KeysState;
pub use virtual_key::{virtual_key_of_code, VirtualKeyCode};
