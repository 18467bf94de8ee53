//! The state of the input devices, kept up to date from input events.

use std::collections::BTreeSet;
use vstd::prelude::*;

use super::key::{
    key_of_code, key_of_rank, key_rank, lemma_key_rank_injective, lemma_rank_of_key_of_rank, Key,
    NUM_KEYS,
};
use crate::rank_set::{
    rank_set_ascending, rank_set_clear, rank_set_contains, rank_set_insert, rank_set_new,
    rank_set_remove,
};

verus! {

/// An input event.
///
/// `MouseMoved` holds the IEEE 754 bit patterns (as given by
/// `f64::to_bits`) of the x and y coordinates of the mouse position in
/// logical pixels, relative to the canvas.
#[derive(Debug, Clone, Copy, PartialEq, Eq, Structural)]
pub enum Event {
    Focused,
    Unfocused,
    KeyPressed(Key),
    KeyReleased(Key),
    MouseMoved(u64, u64),
}

/// The pressed keys and the mouse position.
///
/// The pressed keys are held as the set of their positions in [`Key`]'s
/// declaration (see [`key_rank`]), so that they are listed in the order
/// that [`Key`]'s `Ord` gives.
#[derive(Debug, Clone)]
pub struct InputState {
    pressed_keys: BTreeSet<u8>,
    mouse_x: u64,
    mouse_y: u64,
}

/// The pressed keys after `event`, when the keys in `keys` were pressed
/// before: losing focus releases all keys.
pub open spec fn keys_after(keys: Set<Key>, event: Event) -> Set<Key> {
    match event {
        Event::Unfocused => Set::empty(),
        Event::KeyPressed(key) => keys.insert(key),
        Event::KeyReleased(key) => keys.remove(key),
        _ => keys,
    }
}

/// The mouse position after `event`, when it was `pos` before.
pub open spec fn mouse_pos_after(pos: (u64, u64), event: Event) -> (u64, u64) {
    match event {
        Event::MouseMoved(x, y) => (x, y),
        _ => pos,
    }
}

/// The event that a key-down DOM event with the given `code` queues:
/// nothing for an auto-repeat, else the press of the key that the code
/// names, if it names one.
pub fn key_down_event(code: &str, repeat: bool) -> (e: Option<Event>)
    ensures
        e == (if repeat {
            None
        } else {
            match key_of_code(code@) {
                Some(k) => Some(Event::KeyPressed(k)),
                None => None,
            }
        }),
{
    if repeat {
        return None;
    }
    match Key::from_keyboard_event(code) {
        Some(k) => Some(Event::KeyPressed(k)),
        None => None,
    }
}

/// The event that a key-up DOM event with the given `code` queues: the
/// release of the key that the code names, if it names one.
pub fn key_up_event(code: &str) -> (e: Option<Event>)
    ensures
        e == (match key_of_code(code@) {
            Some(k) => Some(Event::KeyReleased(k)),
            None => None,
        }),
{
    match Key::from_keyboard_event(code) {
        Some(k) => Some(Event::KeyReleased(k)),
        None => None,
    }
}

impl Default for InputState {
    /// No key pressed, and the mouse at the origin.
    fn default() -> (s: Self)
        ensures
            s.wf(),
            s.keys() == Set::<Key>::empty(),
            s.mouse_pos() == (0u64, 0u64),
    {
        Self::new()
    }
}

/// The keys of `s` ascend strictly in the order of [`Key`]'s declaration.
pub open spec fn keys_ascending(s: Seq<Key>) -> bool {
    forall|a: int, b: int| 0 <= a < b < s.len() ==> key_rank(#[trigger] s[a]) < key_rank(#[trigger] s[b])
}

/// The keys whose positions are in `ranks`.
pub open spec fn keys_of_ranks(ranks: Set<u8>) -> Set<Key> {
    Set::new(|k: Key| ranks.contains(key_rank(k) as u8))
}

impl InputState {
    /// The set of pressed keys.
    pub closed spec fn keys(&self) -> Set<Key> {
        keys_of_ranks(self.pressed_keys@)
    }

    /// The bit patterns of the mouse position.
    pub closed spec fn mouse_pos(&self) -> (u64, u64) {
        (self.mouse_x, self.mouse_y)
    }

    /// Every held position is that of a key.
    pub closed spec fn wf(&self) -> bool {
        forall|r: u8| self.pressed_keys@.contains(r) ==> r < NUM_KEYS
    }

    /// No key pressed, and the mouse at the origin.
    pub fn new() -> (s: Self)
        ensures
            s.wf(),
            s.keys() == Set::<Key>::empty(),
            s.mouse_pos() == (0u64, 0u64),
    {
        let s = Self { pressed_keys: rank_set_new(), mouse_x: 0, mouse_y: 0 };
        assert(keys_of_ranks(s.pressed_keys@) =~= Set::<Key>::empty());
        s
    }

    /// Updates the state with an event.
    pub fn handle_event(&mut self, event: &Event)
        requires
            old(self).wf(),
        ensures
            final(self).wf(),
            final(self).keys() == keys_after(old(self).keys(), *event),
            final(self).mouse_pos() == mouse_pos_after(old(self).mouse_pos(), *event),
    {
        let ghost prev = self.pressed_keys@;
        match event {
            Event::Unfocused => {
                rank_set_clear(&mut self.pressed_keys);
                assert(keys_of_ranks(self.pressed_keys@) =~= Set::<Key>::empty());
            },
            Event::KeyPressed(key) => {
                rank_set_insert(&mut self.pressed_keys, key.rank());
                proof {
                    lemma_key_rank_injective(*key);
                    assert forall|k: Key| #[trigger] keys_of_ranks(self.pressed_keys@).contains(k)
                        <==> keys_of_ranks(prev).insert(*key).contains(k) by {
                        lemma_key_rank_injective(k);
                    }
                    assert(keys_of_ranks(self.pressed_keys@) =~= keys_of_ranks(prev).insert(*key));
                }
            },
            Event::KeyReleased(key) => {
                rank_set_remove(&mut self.pressed_keys, key.rank());
                proof {
                    lemma_key_rank_injective(*key);
                    assert forall|k: Key| #[trigger] keys_of_ranks(self.pressed_keys@).contains(k)
                        <==> keys_of_ranks(prev).remove(*key).contains(k) by {
                        lemma_key_rank_injective(k);
                    }
                    assert(keys_of_ranks(self.pressed_keys@) =~= keys_of_ranks(prev).remove(*key));
                }
            },
            Event::MouseMoved(x, y) => {
                self.mouse_x = *x;
                self.mouse_y = *y;
            },
            Event::Focused => {},
        }
    }

    /// Whether `key` is pressed.
    pub fn key(&self, key: Key) -> (r: bool)
        ensures
            r == self.keys().contains(key),
    {
        rank_set_contains(&self.pressed_keys, key.rank())
    }

    /// The pressed keys, each once, in the order of [`Key`]'s declaration
    /// (the order of [`Key`]'s `Ord`).
    pub fn pressed_keys(&self) -> (r: Vec<Key>)
        requires
            self.wf(),
        ensures
            r@.to_set() == self.keys(),
            keys_ascending(r@),
    {
        let ranks = rank_set_ascending(&self.pressed_keys);
        let mut r: Vec<Key> = Vec::new();
        let mut i: usize = 0;
        while i < ranks.len()
            invariant
                self.wf(),
                ranks@.to_set() == self.pressed_keys@,
                forall|a: int, b: int| 0 <= a < b < ranks@.len() ==> ranks@[a] < ranks@[b],
                i <= ranks@.len(),
                r@.len() == i,
                forall|j: int| 0 <= j < i ==> #[trigger] r@[j] == key_of_rank(ranks@[j] as nat),
            decreases ranks@.len() - i,
        {
            r.push(Key::from_rank(ranks[i]));
            i += 1;
        }
        proof {
            assert forall|j: int| 0 <= j < r@.len() implies key_rank(#[trigger] r@[j]) == ranks@[j] by {
                assert(ranks@.to_set().contains(ranks@[j]));
                lemma_rank_of_key_of_rank(ranks@[j] as nat);
            }
            assert forall|k: Key| #[trigger] r@.contains(k) <==> self.keys().contains(k) by {
                lemma_key_rank_injective(k);
                if r@.contains(k) {
                    let j = choose|j: int| 0 <= j < r@.len() && r@[j] == k;
                    assert(key_rank(r@[j]) == ranks@[j]);
                    assert(ranks@.to_set().contains(ranks@[j]));
                }
                if self.keys().contains(k) {
                    let rk = key_rank(k) as u8;
                    assert(ranks@.to_set().contains(rk));
                    let j = choose|j: int| 0 <= j < ranks@.len() && ranks@[j] == rk;
                    assert(r@[j] == key_of_rank(rk as nat));
                }
            }
            assert(r@.to_set() =~= self.keys());
        }
        r
    }

    /// The bit patterns of the x and y coordinates of the mouse position.
    pub fn mouse_logical_pos(&self) -> (r: (u64, u64))
        ensures
            r == self.mouse_pos(),
    {
        (self.mouse_x, self.mouse_y)
    }
}

/// Pressing a key and then releasing it leaves exactly the keys that were
/// pressed before, except that key.
pub proof fn lemma_press_then_release(keys: Set<Key>, key: Key)
    ensures
        keys_after(keys_after(keys, Event::KeyPressed(key)), Event::KeyReleased(key)) == keys.remove(
            key,
        ),
{
    assert(keys.insert(key).remove(key) =~= keys.remove(key));
}

/// Pressing a key that is pressed already, or releasing one that is not
/// pressed, changes nothing.
pub proof fn lemma_repeated_press_release(keys: Set<Key>, key: Key)
    ensures
        keys.contains(key) ==> keys_after(keys, Event::KeyPressed(key)) == keys,
        !keys.contains(key) ==> keys_after(keys, Event::KeyReleased(key)) == keys,
{
    if keys.contains(key) {
        assert(keys.insert(key) =~= keys);
    } else {
        assert(keys.remove(key) =~= keys);
    }
}

/// After a key is pressed it is pressed, and after it is released it is
/// not, whatever was pressed before; losing focus releases every key.
pub proof fn lemma_event_effects(keys: Set<Key>, key: Key)
    ensures
        keys_after(keys, Event::KeyPressed(key)).contains(key),
        !keys_after(keys, Event::KeyReleased(key)).contains(key),
        keys_after(keys, Event::Unfocused).is_empty(),
{
}

} // verus!
