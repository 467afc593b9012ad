//! What to do with the main window when a registered shortcut fires.
use vstd::prelude::*;

use crate::binding::HotkeyBinding;
use crate::registry::HotkeyRegistry;

verus! {

/// Whether a shortcut event is a press or a release.
#[derive(Clone, Copy, Debug, PartialEq, Eq, Structural)]
pub enum PressState {
    Pressed,
    Released,
}

/// What to do with the main window.
#[derive(Clone, Copy, Debug, PartialEq, Eq, Structural)]
pub enum WindowAction {
    Nothing,
    Hide,
    /// Show the window and give it the input focus.
    ShowAndFocus,
}

/// A press of the active binding hides a visible window and shows any other;
/// a release, or any other shortcut, does nothing.
pub open spec fn toggle_action(
    active: HotkeyBinding,
    fired: HotkeyBinding,
    state: PressState,
    visible: Option<bool>,
) -> WindowAction {
    if state == PressState::Released || fired != active {
        WindowAction::Nothing
    } else if visible == Some(true) {
        WindowAction::Hide
    } else {
        WindowAction::ShowAndFocus
    }
}

/// Decides the window action for a fired shortcut. `visible` is the window's
/// answer to whether it is visible, `None` where it could not tell.
pub fn dispatch(
    registry: &HotkeyRegistry,
    fired: &HotkeyBinding,
    state: PressState,
    visible: Option<bool>,
) -> (r: WindowAction)
    ensures
        r == toggle_action(registry.active(), *fired, state, visible),
        *fired != registry.active() ==> r == WindowAction::Nothing,
{
    match state {
        PressState::Released => WindowAction::Nothing,
        PressState::Pressed => {
            let active = registry.read();
            if !active.matches(fired) {
                WindowAction::Nothing
            } else {
                match visible {
                    Some(true) => WindowAction::Hide,
                    _ => WindowAction::ShowAndFocus,
                }
            }
        },
    }
}

/// Whether the window is visible after `action`.
pub fn visible_after(action: WindowAction, visible: bool) -> (r: bool)
    ensures
        r == match action {
            WindowAction::Nothing => visible,
            WindowAction::Hide => false,
            WindowAction::ShowAndFocus => true,
        },
{
    match action {
        WindowAction::Nothing => visible,
        WindowAction::Hide => false,
        WindowAction::ShowAndFocus => true,
    }
}

} // verus!
