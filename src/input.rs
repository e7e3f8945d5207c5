use vstd::prelude::*;
use vstd::std_specs::hash::obeys_key_model;
use std::collections::HashSet;
use std::hash::Hash;

verus! {

broadcast use vstd::std_specs::hash::group_hash_axioms;

/// Whether a key went down or came up.
#[derive(PartialEq, Eq, Structural, Clone, Copy, Debug)]
pub enum KeyState {
    Pressed,
    Released,
}

/// Keeps track of which keys are held down. Keys are of any hashable type;
/// the contracts hold whenever that type's `Hash` and `Eq` agree with its
/// equality as a value (`obeys_key_model`), as they do for plain enums and
/// integers.
pub struct KeyboardState<K> {
    pressed: HashSet<K>,
}

impl<K> View for KeyboardState<K> {
    type V = Set<K>;

    /// The keys currently held down.
    closed spec fn view(&self) -> Set<K> {
        self.pressed@
    }
}

/// The set of held keys after one key event.
pub open spec fn keys_after<K>(held: Set<K>, key_state: KeyState, code: K) -> Set<K> {
    match key_state {
        KeyState::Pressed => held.insert(code),
        KeyState::Released => held.remove(code),
    }
}

impl<K: Hash + Eq> KeyboardState<K> {
    /// A state with every key released.
    pub fn new() -> (r: Self)
        ensures
            r@ == Set::<K>::empty(),
    {
        KeyboardState { pressed: HashSet::new() }
    }

    /// Whether `key` is held down.
    pub fn is_pressed(&self, key: K) -> (r: bool)
        ensures
            obeys_key_model::<K>() ==> r == self@.contains(key),
    {
        self.pressed.contains(&key)
    }

    /// Whether `key` is up.
    pub fn is_released(&self, key: K) -> (r: bool)
        ensures
            obeys_key_model::<K>() ==> r == !self@.contains(key),
    {
        !self.is_pressed(key)
    }

    /// Records that `code` went down or came up.
    pub fn process_event(&mut self, key_state: KeyState, code: K)
        ensures
            obeys_key_model::<K>() ==> final(self)@ == keys_after(old(self)@, key_state, code),
    {
        match key_state {
            KeyState::Pressed => {
                self.pressed.insert(code);
            },
            KeyState::Released => {
                self.pressed.remove(&code);
            },
        }
    }
}

/// Relies on `HashSet::clone`: the copy holds a clone of each key, and the
/// clone of a `Copy` value is that value.
#[verifier::external_body]
fn clone_key_set<K: Hash + Eq + Copy>(s: &HashSet<K>) -> (r: HashSet<K>)
    ensures
        r@ == s@,
{
    s.clone()
}

impl<K: Hash + Eq + Copy> Clone for KeyboardState<K> {
    fn clone(&self) -> (r: Self)
        ensures
            r@ == self@,
    {
        KeyboardState { pressed: clone_key_set(&self.pressed) }
    }
}

/// A mouse button as far as the input state distinguishes them.
#[derive(PartialEq, Eq, Structural, Clone, Copy, Debug)]
pub enum MouseButton {
    Left,
    Right,
    Other,
}

/// A window event as far as the mouse state is concerned; `P` is a cursor position.
#[derive(Clone, Copy)]
pub enum MouseEvent<P> {
    CursorMoved(P),
    MouseInput(MouseButton),
    Other,
}

/// The last known cursor position and which button an event of this frame
/// reported. The position is unknown until the cursor first moves, and holds
/// the origin given to `new` until then.
#[derive(Clone)]
pub struct MouseState<P> {
    pub pos: P,
    pub left_button_pressed: bool,
    pub right_button_pressed: bool,
}

impl<P> MouseState<P> {
    /// No button reported, cursor at `origin`.
    pub fn new(origin: P) -> (r: Self)
        ensures
            r.pos == origin,
            !r.left_button_pressed,
            !r.right_button_pressed,
    {
        MouseState { pos: origin, left_button_pressed: false, right_button_pressed: false }
    }

    /// Takes in one event: the button flags are cleared, then set by a button
    /// event; a cursor movement replaces the position.
    pub fn process_event(&mut self, event: MouseEvent<P>)
        ensures
            final(self).left_button_pressed == (event == MouseEvent::<P>::MouseInput(
                MouseButton::Left,
            )),
            final(self).right_button_pressed == (event == MouseEvent::<P>::MouseInput(
                MouseButton::Right,
            )),
            final(self).pos == match event {
                MouseEvent::CursorMoved(p) => p,
                _ => old(self).pos,
            },
    {
        self.left_button_pressed = false;
        self.right_button_pressed = false;
        match event {
            MouseEvent::CursorMoved(p) => {
                self.pos = p;
            },
            MouseEvent::MouseInput(button) => {
                match button {
                    MouseButton::Left => {
                        self.left_button_pressed = true;
                    },
                    MouseButton::Right => {
                        self.right_button_pressed = true;
                    },
                    MouseButton::Other => {},
                }
            },
            MouseEvent::Other => {},
        }
    }
}

} // verus!
