//! Keys, modifiers and the bindings that a session is set up with.

use vstd::prelude::*;

verus! {

/// A key, as far as the list cares which one it is.
#[derive(Clone, Copy, Debug, PartialEq, Eq, Structural)]
pub enum Key {
    Up,
    Down,
    BackSpace,
    Return,
    Tab,
    /// A digit key, by its digit.
    Digit(u8),
    /// Any other key, by its key value.
    Other(u32),
}

/// A set of modifier keys, one bit for each.
#[derive(Clone, Copy, Debug, PartialEq, Eq, Structural)]
pub struct Modifiers {
    pub bits: u32,
}

/// The bit of the shift key.
pub const SHIFT_MASK: u32 = 1;

/// The hardware code under which a tab arrives while shift is held.
pub const TAB_KEYCODE: u32 = 23;

impl Modifiers {
    pub open spec fn spec_contains(self, other: Modifiers) -> bool {
        self.bits & other.bits == other.bits
    }

    /// Whether every modifier of `other` is held in `self`.
    #[verifier::when_used_as_spec(spec_contains)]
    pub fn contains(self, other: Modifiers) -> (b: bool)
        ensures
            b == self.spec_contains(other),
    {
        self.bits & other.bits == other.bits
    }

    pub open spec fn spec_is_shift(self) -> bool {
        self.bits == SHIFT_MASK
    }

    /// Whether the set is the shift key alone.
    #[verifier::when_used_as_spec(spec_is_shift)]
    pub fn is_shift(self) -> (b: bool)
        ensures
            b == self.spec_is_shift(),
    {
        self.bits == SHIFT_MASK
    }
}

/// One key press: the key, its hardware code, and the modifiers held.
#[derive(Clone, Copy, Debug)]
pub struct KeyPress {
    pub key: Key,
    pub keycode: u32,
    pub modifiers: Modifiers,
}

/// The bindings of a session.
#[derive(Clone, Debug)]
pub struct ConfKeys {
    /// The key that moves the focus down, beside the arrow.
    pub next: Option<Key>,
    /// The modifiers that `next` needs; none if it needs none.
    pub next_mod: Option<Modifiers>,
    /// The key that moves the focus up, beside the arrow.
    pub prev: Option<Key>,
    /// The modifiers that `prev` needs; none if it needs none.
    pub prev_mod: Option<Modifiers>,
    /// The modifiers that turn a digit into a shortcut and a backspace into
    /// an erase-all.
    pub shortcut_modifier: Option<Modifiers>,
    /// How the shortcut modifier is written beside a shortcut.
    pub shortcut_modifier_str: String,
}

impl ConfKeys {
    /// Whether `press` is the key `bound` with the modifiers `needed`.
    pub open spec fn bound_to(bound: Option<Key>, needed: Option<Modifiers>, press: KeyPress) -> bool {
        &&& bound == Some(press.key)
        &&& match needed {
            Some(m) => press.modifiers.spec_contains(m),
            None => true,
        }
    }

    /// Whether `press` is the bound key for moving up.
    pub open spec fn is_prev(&self, press: KeyPress) -> bool {
        Self::bound_to(self.prev, self.prev_mod, press)
    }

    /// Whether `press` is the bound key for moving down.
    pub open spec fn is_next(&self, press: KeyPress) -> bool {
        Self::bound_to(self.next, self.next_mod, press)
    }

    /// Whether the shortcut modifier is set and held in `press`.
    pub open spec fn holds_shortcut_modifier(&self, press: KeyPress) -> bool {
        match self.shortcut_modifier {
            Some(m) => press.modifiers.spec_contains(m),
            None => false,
        }
    }

    /// Whether `bound` with `needed` is a tab with shift alone.
    pub open spec fn is_shift_tab(bound: Option<Key>, needed: Option<Modifiers>) -> bool {
        &&& bound == Some(Key::Tab)
        &&& match needed {
            Some(m) => m.spec_is_shift(),
            None => false,
        }
    }

    /// Decides whether `press` is the key `bound` with the modifiers `needed`.
    pub fn check_bound(bound: Option<Key>, needed: Option<Modifiers>, press: KeyPress) -> (b: bool)
        ensures
            b == Self::bound_to(bound, needed, press),
    {
        let same_key = match bound {
            Some(k) => k == press.key,
            None => false,
        };
        let held = match needed {
            Some(m) => press.modifiers.contains(m),
            None => true,
        };
        same_key && held
    }

    /// Decides whether the shortcut modifier is set and held in `press`.
    pub fn check_shortcut_modifier(&self, press: KeyPress) -> (b: bool)
        ensures
            b == self.holds_shortcut_modifier(press),
    {
        match self.shortcut_modifier {
            Some(m) => press.modifiers.contains(m),
            None => false,
        }
    }

    /// Decides whether `bound` with `needed` is a tab with shift alone.
    pub fn check_shift_tab(bound: Option<Key>, needed: Option<Modifiers>) -> (b: bool)
        ensures
            b == Self::is_shift_tab(bound, needed),
    {
        let tab = match bound {
            Some(k) => k == Key::Tab,
            None => false,
        };
        let shift = match needed {
            Some(m) => m.is_shift(),
            None => false,
        };
        tab && shift
    }
}

} // verus!
