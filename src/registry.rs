//! The active hotkey: its text and its resolved binding.
use vstd::prelude::*;

use crate::binding::{no_modifiers, HotkeyBinding, ModifierSet};
use crate::keys::{primary_key, KeyCode};
use crate::parse::{binding_of, lemma_parse_bare_key, parse};

verus! {

/// The hotkey used when none is stored or the stored one does not parse.
pub const DEFAULT_HOTKEY: &'static str = "F4";

/// The binding of the default hotkey: `F4` with no modifier.
pub open spec fn default_binding() -> HotkeyBinding {
    HotkeyBinding { modifiers: no_modifiers(), code: KeyCode::F4 }
}

pub proof fn lemma_default_parses()
    ensures
        binding_of(DEFAULT_HOTKEY@) == Some(default_binding()),
{
    reveal_strlit("F4");
    reveal_strlit("End");
    reveal_strlit("Home");
    reveal_strlit("Insert");
    reveal_strlit("Delete");
    reveal_strlit("F1");
    reveal_strlit("F2");
    reveal_strlit("F3");
    assert(DEFAULT_HOTKEY@ =~= seq!['F', '4']);
    assert(primary_key(DEFAULT_HOTKEY@) == Some(KeyCode::F4));
    lemma_parse_bare_key(DEFAULT_HOTKEY@);
}

/// The text to start with: the stored hotkey where it parses, else the default.
pub open spec fn initial_text(persisted: Option<String>) -> Seq<char> {
    match persisted {
        Some(p) => if binding_of(p@).is_some() {
            p@
        } else {
            DEFAULT_HOTKEY@
        },
        None => DEFAULT_HOTKEY@,
    }
}

/// Chooses the hotkey to start with and resolves it.
pub fn initial_hotkey(persisted: Option<String>) -> (r: (String, HotkeyBinding))
    ensures
        r.0@ == initial_text(persisted),
        binding_of(r.0@) == Some(r.1),
{
    proof {
        lemma_default_parses();
    }
    match persisted {
        Some(p) => match parse(p.as_str()) {
            Ok(b) => (p, b),
            Err(_) => (DEFAULT_HOTKEY.to_string(), HotkeyBinding::new(ModifierSet::empty(), KeyCode::F4)),
        },
        None => (DEFAULT_HOTKEY.to_string(), HotkeyBinding::new(ModifierSet::empty(), KeyCode::F4)),
    }
}

/// Holds the active hotkey. Its binding is always the one its text parses to.
pub struct HotkeyRegistry {
    hotkey: String,
    binding: HotkeyBinding,
}

impl HotkeyRegistry {
    /// The text of the active hotkey.
    pub closed spec fn text(&self) -> Seq<char> {
        self.hotkey@
    }

    /// The active binding.
    pub closed spec fn active(&self) -> HotkeyBinding {
        self.binding
    }

    pub open spec fn wf(&self) -> bool {
        binding_of(self.text()) == Some(self.active())
    }

    pub fn new(hotkey: String, binding: HotkeyBinding) -> (r: HotkeyRegistry)
        requires
            binding_of(hotkey@) == Some(binding),
        ensures
            r.wf(),
            r.text() == hotkey@,
            r.active() == binding,
    {
        HotkeyRegistry { hotkey, binding }
    }

    /// The active binding.
    pub fn read(&self) -> (r: HotkeyBinding)
        ensures
            r == self.active(),
    {
        self.binding
    }

    /// The text of the active hotkey, as it would be stored.
    pub fn hotkey(&self) -> (r: &str)
        ensures
            r@ == self.text(),
    {
        self.hotkey.as_str()
    }

    /// Replaces the active hotkey; nothing of the old one is kept.
    pub fn replace(&mut self, hotkey: String, binding: HotkeyBinding)
        requires
            binding_of(hotkey@) == Some(binding),
        ensures
            final(self).wf(),
            final(self).text() == hotkey@,
            final(self).active() == binding,
    {
        self.hotkey = hotkey;
        self.binding = binding;
    }
}

} // verus!
