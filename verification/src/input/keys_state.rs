//! The set of pressed keys, kept up to date from window events.

use std::collections::BTreeSet;
use vstd::prelude::*;

use super::virtual_key::{
    lemma_virtual_key_rank_injective, virtual_key_of_code, virtual_key_rank, VirtualKeyCode,
    NUM_VIRTUAL_KEYS,
};
use crate::rank_set::{
    rank_set_clear, rank_set_contains, rank_set_insert, rank_set_new, rank_set_remove,
};

verus! {

/// A window event.
///
/// `WindowResized` holds the IEEE 754 bit patterns (as given by
/// `f64::to_bits`) of the window's new inner width and height.
#[derive(Debug, Clone, Copy, PartialEq, Eq, Structural)]
pub enum Event {
    Focused,
    Unfocused,
    KeyPressed(VirtualKeyCode),
    KeyReleased(VirtualKeyCode),
    WindowResized(u64, u64),
}

/// The keys that are pressed.
///
/// They are held as the set of their positions in [`VirtualKeyCode`]'s
/// declaration (see [`virtual_key_rank`]).
#[derive(Debug, Clone)]
pub struct KeysState {
    pressed_keys: BTreeSet<u8>,
}

/// The keys whose positions are in `ranks`.
pub open spec fn virtual_keys_of_ranks(ranks: Set<u8>) -> Set<VirtualKeyCode> {
    Set::new(|k: VirtualKeyCode| ranks.contains(virtual_key_rank(k) as u8))
}

/// The pressed keys after `event`, when the keys in `keys` were pressed
/// before: losing focus releases all keys.
pub open spec fn keys_after(keys: Set<VirtualKeyCode>, event: Event) -> Set<VirtualKeyCode> {
    match event {
        Event::Unfocused => Set::empty(),
        Event::KeyPressed(key) => keys.insert(key),
        Event::KeyReleased(key) => keys.remove(key),
        _ => keys,
    }
}

/// The event that a key-down window event with the given `code` queues:
/// the press of the key that the code names, if it names one.
pub fn window_key_down_event(code: &str) -> (e: Option<Event>)
    ensures
        e == (match virtual_key_of_code(code@) {
            Some(k) => Some(Event::KeyPressed(k)),
            None => None,
        }),
{
    match VirtualKeyCode::from_keyboard_event(code) {
        Some(k) => Some(Event::KeyPressed(k)),
        None => None,
    }
}

/// The event that a key-release window event with the given `code`
/// queues: the release of the key that the code names, if it names one.
pub fn window_key_up_event(code: &str) -> (e: Option<Event>)
    ensures
        e == (match virtual_key_of_code(code@) {
            Some(k) => Some(Event::KeyReleased(k)),
            None => None,
        }),
{
    match VirtualKeyCode::from_keyboard_event(code) {
        Some(k) => Some(Event::KeyReleased(k)),
        None => None,
    }
}

impl Default for KeysState {
    /// No key pressed.
    fn default() -> (s: Self)
        ensures
            s.wf(),
            s.keys() == Set::<VirtualKeyCode>::empty(),
    {
        Self::new()
    }
}

impl KeysState {
    /// The set of pressed keys.
    pub closed spec fn keys(&self) -> Set<VirtualKeyCode> {
        virtual_keys_of_ranks(self.pressed_keys@)
    }

    /// Every held position is that of a key.
    pub closed spec fn wf(&self) -> bool {
        forall|r: u8| self.pressed_keys@.contains(r) ==> r < NUM_VIRTUAL_KEYS
    }

    /// No key pressed.
    pub fn new() -> (s: Self)
        ensures
            s.wf(),
            s.keys() == Set::<VirtualKeyCode>::empty(),
    {
        let s = Self { pressed_keys: rank_set_new() };
        assert(virtual_keys_of_ranks(s.pressed_keys@) =~= Set::<VirtualKeyCode>::empty());
        s
    }

    /// Updates the state with an event.
    pub fn on_event(&mut self, event: &Event)
        requires
            old(self).wf(),
        ensures
            final(self).wf(),
            final(self).keys() == keys_after(old(self).keys(), *event),
    {
        let ghost prev = self.pressed_keys@;
        match event {
            Event::Unfocused => {
                rank_set_clear(&mut self.pressed_keys);
                assert(virtual_keys_of_ranks(self.pressed_keys@) =~= Set::<VirtualKeyCode>::empty());
            },
            Event::KeyPressed(key) => {
                rank_set_insert(&mut self.pressed_keys, key.rank());
                proof {
                    lemma_virtual_key_rank_injective(*key);
                    assert forall|k: VirtualKeyCode| #[trigger] virtual_keys_of_ranks(self.pressed_keys@).contains(k)
                        <==> virtual_keys_of_ranks(prev).insert(*key).contains(k) by {
                        lemma_virtual_key_rank_injective(k);
                    }
                    assert(virtual_keys_of_ranks(self.pressed_keys@) =~= virtual_keys_of_ranks(prev).insert(*key));
                }
            },
            Event::KeyReleased(key) => {
                rank_set_remove(&mut self.pressed_keys, key.rank());
                proof {
                    lemma_virtual_key_rank_injective(*key);
                    assert forall|k: VirtualKeyCode| #[trigger] virtual_keys_of_ranks(self.pressed_keys@).contains(k)
                        <==> virtual_keys_of_ranks(prev).remove(*key).contains(k) by {
                        lemma_virtual_key_rank_injective(k);
                    }
                    assert(virtual_keys_of_ranks(self.pressed_keys@) =~= virtual_keys_of_ranks(prev).remove(*key));
                }
            },
            Event::WindowResized(_, _) => {},
            Event::Focused => {},
        }
    }

    /// Whether `key` is pressed.
    pub fn key(&self, key: VirtualKeyCode) -> (r: bool)
        ensures
            r == self.keys().contains(key),
    {
        rank_set_contains(&self.pressed_keys, key.rank())
    }
}

/// Pressing a key and then releasing it leaves exactly the keys that were
/// pressed before, except that key.
pub proof fn lemma_press_then_release(keys: Set<VirtualKeyCode>, key: VirtualKeyCode)
    ensures
        keys_after(keys_after(keys, Event::KeyPressed(key)), Event::KeyReleased(key)) == keys.remove(
            key,
        ),
{
    assert(keys.insert(key).remove(key) =~= keys.remove(key));
}

/// Pressing a key that is pressed already, or releasing one that is not
/// pressed, changes nothing.
pub proof fn lemma_repeated_press_release(keys: Set<VirtualKeyCode>, key: VirtualKeyCode)
    ensures
        keys.contains(key) ==> keys_after(keys, Event::KeyPressed(key)) == keys,
        !keys.contains(key) ==> keys_after(keys, Event::KeyReleased(key)) == keys,
{
    if keys.contains(key) {
        assert(keys.insert(key) =~= keys);
    } else {
        assert(keys.remove(key) =~= keys);
    }
}

/// After a key is pressed it is pressed, and after it is released it is
/// not, whatever was pressed before; losing focus releases every key.
pub proof fn lemma_event_effects(keys: Set<VirtualKeyCode>, key: VirtualKeyCode)
    ensures
        keys_after(keys, Event::KeyPressed(key)).contains(key),
        !keys_after(keys, Event::KeyReleased(key)).contains(key),
        keys_after(keys, Event::Unfocused).is_empty(),
{
}

} // verus!
