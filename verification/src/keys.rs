//! Keys, key events and the modifier tracker.

use vstd::prelude::*;

verus! {

/// A physical key, as far as the gestures care about it.
///
/// Every key that is not named here is carried as `Other` with a code chosen
/// by the caller; two keys are the same key exactly when their values are equal.
#[derive(Clone, Copy, Debug, PartialEq, Eq, Structural)]
pub enum Key {
    ControlLeft,
    ControlRight,
    MetaLeft,
    MetaRight,
    Space,
    LeftBracket,
    Other(u32),
}

/// A modifier, regardless of which of its two physical keys is used.
#[derive(Clone, Copy, Debug, PartialEq, Eq, Structural)]
pub enum Modifier {
    Control,
    Super,
}

/// One press or release of a key.
#[derive(Clone, Copy, Debug, PartialEq, Eq, Structural)]
pub struct KeyEvent {
    pub key: Key,
    pub pressed: bool,
}

/// The modifier that `key` belongs to, if it is one of the tracked modifier keys.
pub open spec fn modifier_of(key: Key) -> Option<Modifier> {
    match key {
        Key::ControlLeft | Key::ControlRight => Some(Modifier::Control),
        Key::MetaLeft | Key::MetaRight => Some(Modifier::Super),
        _ => None,
    }
}

/// Whether `key` is one of the tracked modifier keys.
pub open spec fn is_modifier_key(key: Key) -> bool {
    modifier_of(key) is Some
}

/// The pressed set after one event: a tracked key enters on press and leaves
/// on release; any other key leaves the set as it was.
pub open spec fn record_spec(held: Set<Key>, key: Key, pressed: bool) -> Set<Key> {
    if !is_modifier_key(key) {
        held
    } else if pressed {
        held.insert(key)
    } else {
        held.remove(key)
    }
}

/// Whether either physical key of `modifier` is in the pressed set.
pub open spec fn modifier_held(held: Set<Key>, modifier: Modifier) -> bool {
    match modifier {
        Modifier::Control => held.contains(Key::ControlLeft) || held.contains(Key::ControlRight),
        Modifier::Super => held.contains(Key::MetaLeft) || held.contains(Key::MetaRight),
    }
}

impl Key {
    /// The modifier this key belongs to, if any.
    pub fn modifier(self) -> (m: Option<Modifier>)
        ensures
            m == modifier_of(self),
    {
        match self {
            Key::ControlLeft | Key::ControlRight => Some(Modifier::Control),
            Key::MetaLeft | Key::MetaRight => Some(Modifier::Super),
            _ => None,
        }
    }
}

/// Which of the tracked modifier keys are currently down.
#[derive(Clone, Copy, Debug)]
pub struct ModifierState {
    control_left: bool,
    control_right: bool,
    meta_left: bool,
    meta_right: bool,
}

impl View for ModifierState {
    type V = Set<Key>;

    /// The set of tracked keys that are down.
    closed spec fn view(&self) -> Set<Key> {
        Set::new(
            |k: Key|
                (k == Key::ControlLeft && self.control_left) || (k == Key::ControlRight
                    && self.control_right) || (k == Key::MetaLeft && self.meta_left) || (k
                    == Key::MetaRight && self.meta_right),
        )
    }
}

impl ModifierState {
    /// A tracker with no key down.
    pub fn new() -> (s: ModifierState)
        ensures
            s@ == Set::<Key>::empty(),
    {
        let s = ModifierState {
            control_left: false,
            control_right: false,
            meta_left: false,
            meta_right: false,
        };
        assert(s@ =~= Set::<Key>::empty());
        s
    }

    /// Takes note of one key event.
    pub fn record(&mut self, key: Key, pressed: bool)
        ensures
            final(self)@ == record_spec(old(self)@, key, pressed),
    {
        match key {
            Key::ControlLeft => {
                self.control_left = pressed;
            },
            Key::ControlRight => {
                self.control_right = pressed;
            },
            Key::MetaLeft => {
                self.meta_left = pressed;
            },
            Key::MetaRight => {
                self.meta_right = pressed;
            },
            _ => {},
        }
        assert(self@ =~= record_spec(old(self)@, key, pressed));
    }

    /// Whether `key` is a tracked key that is currently down.
    pub fn is_pressed(&self, key: Key) -> (b: bool)
        ensures
            b == self@.contains(key),
    {
        match key {
            Key::ControlLeft => self.control_left,
            Key::ControlRight => self.control_right,
            Key::MetaLeft => self.meta_left,
            Key::MetaRight => self.meta_right,
            _ => false,
        }
    }

    /// Whether either physical key of `modifier` is down.
    pub fn is_held(&self, modifier: Modifier) -> (b: bool)
        ensures
            b == modifier_held(self@, modifier),
    {
        match modifier {
            Modifier::Control => self.control_left || self.control_right,
            Modifier::Super => self.meta_left || self.meta_right,
        }
    }

    /// Only tracked modifier keys are ever in the pressed set.
    pub proof fn lemma_only_modifiers(&self)
        ensures
            forall|k: Key| self@.contains(k) ==> is_modifier_key(k),
            self@.finite(),
    {
        let all = set![Key::ControlLeft, Key::ControlRight, Key::MetaLeft, Key::MetaRight];
        assert(self@.subset_of(all));
        vstd::set_lib::lemma_len_subset(self@, all);
    }
}

} // verus!
