//! Replacing the active hotkey in steps. The shortcut facility of the system
//! is driven from outside: each step names the next call to make on it, and
//! the outcome of that call is the next step's input.
use vstd::prelude::*;

use crate::binding::HotkeyBinding;
use crate::parse::{binding_of, parse};
use crate::registry::{initial_hotkey, initial_text, HotkeyRegistry};

verus! {

/// Why an update of the hotkey did not take effect.
#[derive(Clone, Copy, Debug, PartialEq, Eq, Structural)]
pub enum HotkeyError {
    /// The new hotkey string does not parse; nothing was changed.
    InvalidCombination,
    /// The system refused to drop the old shortcuts or to take the new one;
    /// the active binding is still the old one.
    RegistrationFailed,
}

/// The next call to make on the system's shortcut facility.
#[derive(Clone, Copy, Debug, PartialEq, Eq)]
pub enum ShortcutAction {
    /// Drop every registered shortcut.
    UnregisterAll,
    /// Register this binding.
    Register(HotkeyBinding),
    /// Nothing more to call; this is the outcome of the update.
    Finish(Result<(), HotkeyError>),
}

/// What the system's shortcut facility holds, as far as its answers show.
#[derive(Clone, Copy, Debug, PartialEq, Eq, Structural)]
pub enum OsRegistration {
    Nothing,
    Only(HotkeyBinding),
    /// A call failed part way; what is registered is not known.
    Unknown,
}

impl OsRegistration {
    /// Whether a press of `b` is known to reach the application.
    pub open spec fn holds(self, b: HotkeyBinding) -> bool {
        self == OsRegistration::Only(b)
    }
}

/// The state of a manager: the active hotkey, an update in flight, and what
/// the system holds.
pub struct ManagerModel {
    pub text: Seq<char>,
    pub active: HotkeyBinding,
    pub pending: Option<(Seq<char>, HotkeyBinding)>,
    pub os: OsRegistration,
}

impl ManagerModel {
    pub open spec fn wf(self) -> bool {
        &&& binding_of(self.text) == Some(self.active)
        &&& match self.pending {
            Some(p) => binding_of(p.0) == Some(p.1),
            None => true,
        }
    }

    pub open spec fn after_request(self, s: Seq<char>) -> ManagerModel {
        match binding_of(s) {
            Some(b) => ManagerModel { pending: Some((s, b)), ..self },
            None => self,
        }
    }

    pub open spec fn request_action(self, s: Seq<char>) -> ShortcutAction {
        match binding_of(s) {
            Some(_) => ShortcutAction::UnregisterAll,
            None => ShortcutAction::Finish(Err(HotkeyError::InvalidCombination)),
        }
    }

    pub open spec fn after_unregister(self, ok: bool) -> ManagerModel {
        if ok {
            ManagerModel { os: OsRegistration::Nothing, ..self }
        } else {
            ManagerModel { pending: None, os: OsRegistration::Unknown, ..self }
        }
    }

    pub open spec fn unregister_action(self, ok: bool) -> ShortcutAction {
        if ok {
            ShortcutAction::Register(self.pending->Some_0.1)
        } else {
            ShortcutAction::Finish(Err(HotkeyError::RegistrationFailed))
        }
    }

    pub open spec fn after_register(self, ok: bool) -> ManagerModel {
        let p = self.pending->Some_0;
        if ok {
            ManagerModel { text: p.0, active: p.1, pending: None, os: OsRegistration::Only(p.1) }
        } else {
            ManagerModel { pending: None, os: OsRegistration::Nothing, ..self }
        }
    }

    pub open spec fn register_action(self, ok: bool) -> ShortcutAction {
        if ok {
            ShortcutAction::Finish(Ok(()))
        } else {
            ShortcutAction::Finish(Err(HotkeyError::RegistrationFailed))
        }
    }
}

/// Owns the active hotkey and carries an update through its steps.
pub struct HotkeyManager {
    registry: HotkeyRegistry,
    pending: Option<(String, HotkeyBinding)>,
    os: OsRegistration,
}

impl View for HotkeyManager {
    type V = ManagerModel;

    closed spec fn view(&self) -> ManagerModel {
        ManagerModel {
            text: self.registry.text(),
            active: self.registry.active(),
            pending: match self.pending {
                Some(p) => Some((p.0@, p.1)),
                None => None,
            },
            os: self.os,
        }
    }
}

impl HotkeyManager {
    /// Starts from the stored hotkey, or the default where there is none or
    /// it does not parse. The binding is active at once; the returned action
    /// registers it, and its outcome goes to `on_registered`.
    pub fn initialize(persisted: Option<String>) -> (r: (HotkeyManager, ShortcutAction))
        ensures
            r.0@.wf(),
            r.0@.text == initial_text(persisted),
            binding_of(r.0@.text) == Some(r.0@.active),
            r.0@.pending == Some((r.0@.text, r.0@.active)),
            r.0@.os == OsRegistration::Nothing,
            r.1 == ShortcutAction::Register(r.0@.active),
    {
        let (hotkey, binding) = initial_hotkey(persisted);
        let pending = hotkey.clone();
        let registry = HotkeyRegistry::new(hotkey, binding);
        let m = HotkeyManager {
            registry,
            pending: Some((pending, binding)),
            os: OsRegistration::Nothing,
        };
        (m, ShortcutAction::Register(binding))
    }

    /// The active binding.
    pub fn read(&self) -> (r: HotkeyBinding)
        ensures
            r == self@.active,
    {
        self.registry.read()
    }

    /// The text of the active hotkey.
    pub fn hotkey(&self) -> (r: &str)
        ensures
            r@ == self@.text,
    {
        self.registry.hotkey()
    }

    pub fn registry(&self) -> (r: &HotkeyRegistry)
        ensures
            r.active() == self@.active,
            r.text() == self@.text,
    {
        &self.registry
    }

    /// Whether an update waits for the answer of the shortcut facility.
    pub fn is_updating(&self) -> (r: bool)
        ensures
            r == self@.pending.is_some(),
    {
        self.pending.is_some()
    }

    /// Asks to make `new_hotkey` the active hotkey. A string that does not
    /// parse finishes at once with `InvalidCombination` and changes nothing.
    pub fn request_update(&mut self, new_hotkey: String) -> (a: ShortcutAction)
        requires
            old(self)@.wf(),
        ensures
            final(self)@ == old(self)@.after_request(new_hotkey@),
            a == old(self)@.request_action(new_hotkey@),
            final(self)@.wf(),
    {
        match parse(new_hotkey.as_str()) {
            Ok(b) => {
                self.pending = Some((new_hotkey, b));
                ShortcutAction::UnregisterAll
            },
            Err(_) => ShortcutAction::Finish(Err(HotkeyError::InvalidCombination)),
        }
    }

    /// Takes the outcome of dropping every shortcut.
    pub fn on_unregistered(&mut self, ok: bool) -> (a: ShortcutAction)
        requires
            old(self)@.wf(),
            old(self)@.pending.is_some(),
        ensures
            final(self)@ == old(self)@.after_unregister(ok),
            a == old(self)@.unregister_action(ok),
            final(self)@.wf(),
    {
        if ok {
            self.os = OsRegistration::Nothing;
            match &self.pending {
                Some(p) => ShortcutAction::Register(p.1),
                None => ShortcutAction::Finish(Err(HotkeyError::RegistrationFailed)),
            }
        } else {
            self.pending = None;
            self.os = OsRegistration::Unknown;
            ShortcutAction::Finish(Err(HotkeyError::RegistrationFailed))
        }
    }

    /// Takes the outcome of registering the new binding; only a success makes
    /// it the active one.
    pub fn on_registered(&mut self, ok: bool) -> (a: ShortcutAction)
        requires
            old(self)@.wf(),
            old(self)@.pending.is_some(),
        ensures
            final(self)@ == old(self)@.after_register(ok),
            a == old(self)@.register_action(ok),
            final(self)@.wf(),
    {
        let pending = self.pending.take();
        if ok {
            match pending {
                Some(p) => {
                    let (hotkey, binding) = p;
                    self.registry.replace(hotkey, binding);
                    self.os = OsRegistration::Only(binding);
                },
                None => {},
            }
            ShortcutAction::Finish(Ok(()))
        } else {
            self.os = OsRegistration::Nothing;
            ShortcutAction::Finish(Err(HotkeyError::RegistrationFailed))
        }
    }
}

/// An update with a string that does not parse finishes with
/// `InvalidCombination` and leaves the manager, and so its active binding,
/// as it was.
pub proof fn lemma_invalid_update_keeps_state(m: ManagerModel, s: Seq<char>)
    requires
        binding_of(s).is_none(),
    ensures
        m.after_request(s) == m,
        m.request_action(s) == ShortcutAction::Finish(Err(HotkeyError::InvalidCombination)),
{
}

/// An update with a string `s2` that parses, whose calls on the shortcut
/// facility both succeed, makes the binding of `s2` the active one and the
/// only one the system holds; the binding of the old text `s1` is no longer
/// held, unless it is the same binding.
pub proof fn lemma_update_replaces(m: ManagerModel, s1: Seq<char>, s2: Seq<char>)
    requires
        m.wf(),
        m.text == s1,
        binding_of(s2).is_some(),
    ensures
        ({
            let m1 = m.after_request(s2);
            let m2 = m1.after_unregister(true);
            let m3 = m2.after_register(true);
            &&& m.request_action(s2) == ShortcutAction::UnregisterAll
            &&& m1.unregister_action(true) == ShortcutAction::Register(binding_of(s2)->Some_0)
            &&& m2.register_action(true) == ShortcutAction::Finish(Ok(()))
            &&& m3.wf()
            &&& m3.text == s2
            &&& Some(m3.active) == binding_of(s2)
            &&& m3.os.holds(binding_of(s2)->Some_0)
            &&& binding_of(s1) != binding_of(s2) ==> !m3.os.holds(binding_of(s1)->Some_0)
        }),
{
}

} // verus!
