//! Modifier sets and resolved bindings.
use vstd::prelude::*;

use crate::keys::KeyCode;

verus! {

/// A modifier key that can be held with the main key.
#[derive(Clone, Copy, Debug, PartialEq, Eq, Structural, Hash)]
pub enum Modifier {
    Control,
    Shift,
    Alt,
    Meta,
}

/// A set of modifiers, one flag for each.
#[derive(Clone, Copy, Debug, PartialEq, Eq, Structural, Hash)]
pub struct ModifierSet {
    pub control: bool,
    pub shift: bool,
    pub alt: bool,
    pub meta: bool,
}

/// The set without any modifier.
pub open spec fn no_modifiers() -> ModifierSet {
    ModifierSet { control: false, shift: false, alt: false, meta: false }
}

impl ModifierSet {
    /// Whether `m` is in the set.
    pub open spec fn has(self, m: Modifier) -> bool {
        match m {
            Modifier::Control => self.control,
            Modifier::Shift => self.shift,
            Modifier::Alt => self.alt,
            Modifier::Meta => self.meta,
        }
    }

    /// The set with `m` added.
    pub open spec fn added(self, m: Modifier) -> ModifierSet {
        match m {
            Modifier::Control => ModifierSet { control: true, ..self },
            Modifier::Shift => ModifierSet { shift: true, ..self },
            Modifier::Alt => ModifierSet { alt: true, ..self },
            Modifier::Meta => ModifierSet { meta: true, ..self },
        }
    }

    /// Two sets with the same members are the same value.
    pub proof fn lemma_members_determine(a: ModifierSet, b: ModifierSet)
        requires
            forall|m: Modifier| a.has(m) == b.has(m),
        ensures
            a == b,
    {
        assert(a.has(Modifier::Control) == b.has(Modifier::Control));
        assert(a.has(Modifier::Shift) == b.has(Modifier::Shift));
        assert(a.has(Modifier::Alt) == b.has(Modifier::Alt));
        assert(a.has(Modifier::Meta) == b.has(Modifier::Meta));
    }

    pub fn empty() -> (r: ModifierSet)
        ensures
            r == no_modifiers(),
            forall|m: Modifier| !r.has(m),
    {
        ModifierSet { control: false, shift: false, alt: false, meta: false }
    }

    /// The set with `m` added; adding a member again changes nothing.
    pub fn with(self, m: Modifier) -> (r: ModifierSet)
        ensures
            r == self.added(m),
            forall|x: Modifier| r.has(x) == (self.has(x) || x == m),
    {
        match m {
            Modifier::Control => ModifierSet { control: true, ..self },
            Modifier::Shift => ModifierSet { shift: true, ..self },
            Modifier::Alt => ModifierSet { alt: true, ..self },
            Modifier::Meta => ModifierSet { meta: true, ..self },
        }
    }

    pub fn union(self, other: ModifierSet) -> (r: ModifierSet)
        ensures
            forall|x: Modifier| r.has(x) == (self.has(x) || other.has(x)),
    {
        ModifierSet {
            control: self.control || other.control,
            shift: self.shift || other.shift,
            alt: self.alt || other.alt,
            meta: self.meta || other.meta,
        }
    }

    pub fn contains(self, m: Modifier) -> (r: bool)
        ensures
            r == self.has(m),
    {
        match m {
            Modifier::Control => self.control,
            Modifier::Shift => self.shift,
            Modifier::Alt => self.alt,
            Modifier::Meta => self.meta,
        }
    }

    pub fn is_empty(self) -> (r: bool)
        ensures
            r == (forall|x: Modifier| !self.has(x)),
    {
        let r = !self.control && !self.shift && !self.alt && !self.meta;
        if !r {
            assert(self.has(Modifier::Control) || self.has(Modifier::Shift) || self.has(
                Modifier::Alt,
            ) || self.has(Modifier::Meta));
        }
        r
    }
}

/// A resolved hotkey: the modifiers held and the main key.
#[derive(Clone, Copy, Debug, PartialEq, Eq, Structural, Hash)]
pub struct HotkeyBinding {
    pub modifiers: ModifierSet,
    pub code: KeyCode,
}

impl HotkeyBinding {
    pub fn new(modifiers: ModifierSet, code: KeyCode) -> (r: HotkeyBinding)
        ensures
            r == (HotkeyBinding { modifiers, code }),
    {
        HotkeyBinding { modifiers, code }
    }

    /// Whether a fired shortcut is this binding.
    pub fn matches(&self, other: &HotkeyBinding) -> (r: bool)
        ensures
            r == (*self == *other),
    {
        *self == *other
    }
}

} // verus!
