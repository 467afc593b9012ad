use krona_hotkey::binding::{HotkeyBinding, Modifier, ModifierSet};
use krona_hotkey::dispatch::{dispatch, visible_after, PressState, WindowAction};
use krona_hotkey::keys::KeyCode;
use krona_hotkey::manager::{HotkeyError, HotkeyManager, ShortcutAction};
use krona_hotkey::parse::parse;
use krona_hotkey::registry::{initial_hotkey, HotkeyRegistry};

fn started(persisted: Option<&str>) -> HotkeyManager {
    let (mut m, action) = HotkeyManager::initialize(persisted.map(|s| s.to_string()));
    assert_eq!(action, ShortcutAction::Register(m.read()));
    assert_eq!(m.on_registered(true), ShortcutAction::Finish(Ok(())));
    m
}

fn update_ok(m: &mut HotkeyManager, s: &str) -> ShortcutAction {
    let a = m.request_update(s.to_string());
    if a != ShortcutAction::UnregisterAll {
        return a;
    }
    let a = m.on_unregistered(true);
    match a {
        ShortcutAction::Register(_) => m.on_registered(true),
        other => other,
    }
}

#[test]
fn initial_hotkey_defaults_to_f4() {
    let (text, b) = initial_hotkey(None);
    assert_eq!(text, "F4");
    assert_eq!(b, HotkeyBinding::new(ModifierSet::empty(), KeyCode::F4));
}

#[test]
fn initial_hotkey_keeps_stored_value() {
    let (text, b) = initial_hotkey(Some("Alt+KeyK".to_string()));
    assert_eq!(text, "Alt+KeyK");
    assert_eq!(b, parse("Alt+KeyK").unwrap());
}

#[test]
fn initial_hotkey_falls_back_on_bad_value() {
    let (text, b) = initial_hotkey(Some("Ctrl+Nope".to_string()));
    assert_eq!(text, "F4");
    assert_eq!(b, parse("F4").unwrap());
    let (text, _) = initial_hotkey(Some(String::new()));
    assert_eq!(text, "F4");
}

#[test]
fn registry_read_and_replace() {
    let mut r = HotkeyRegistry::new("F4".to_string(), parse("F4").unwrap());
    assert_eq!(r.read(), parse("F4").unwrap());
    r.replace("Ctrl+KeyB".to_string(), parse("Ctrl+KeyB").unwrap());
    assert_eq!(r.read(), parse("Ctrl+KeyB").unwrap());
    assert_eq!(r.hotkey(), "Ctrl+KeyB");
}

#[test]
fn invalid_update_changes_nothing() {
    let mut m = started(Some("Ctrl+KeyA"));
    let before = m.read();
    assert_eq!(
        m.request_update("Ctrl+Shift".to_string()),
        ShortcutAction::Finish(Err(HotkeyError::InvalidCombination))
    );
    assert_eq!(m.read(), before);
    assert_eq!(m.hotkey(), "Ctrl+KeyA");
    assert!(!m.is_updating());
    assert_eq!(
        m.request_update(String::new()),
        ShortcutAction::Finish(Err(HotkeyError::InvalidCombination))
    );
    assert_eq!(m.read(), before);
}

#[test]
fn valid_update_replaces_binding() {
    let mut m = started(None);
    let old = parse("F4").unwrap();
    assert_eq!(m.read(), old);
    assert_eq!(m.request_update("Alt+F2".to_string()), ShortcutAction::UnregisterAll);
    assert!(m.is_updating());
    assert_eq!(m.read(), old);
    let new = parse("Alt+F2").unwrap();
    assert_eq!(m.on_unregistered(true), ShortcutAction::Register(new));
    assert_eq!(m.read(), old);
    assert_eq!(m.on_registered(true), ShortcutAction::Finish(Ok(())));
    assert_eq!(m.read(), new);
    assert_eq!(m.hotkey(), "Alt+F2");
    let fired_old = dispatch(m.registry(), &old, PressState::Pressed, Some(false));
    assert_eq!(fired_old, WindowAction::Nothing);
}

#[test]
fn unregister_failure_keeps_old_binding() {
    let mut m = started(None);
    assert_eq!(m.request_update("Ctrl+KeyB".to_string()), ShortcutAction::UnregisterAll);
    assert_eq!(
        m.on_unregistered(false),
        ShortcutAction::Finish(Err(HotkeyError::RegistrationFailed))
    );
    assert_eq!(m.read(), parse("F4").unwrap());
    assert_eq!(m.hotkey(), "F4");
    assert!(!m.is_updating());
}

#[test]
fn register_failure_keeps_old_binding() {
    let mut m = started(None);
    assert_eq!(m.request_update("Ctrl+KeyB".to_string()), ShortcutAction::UnregisterAll);
    assert!(matches!(m.on_unregistered(true), ShortcutAction::Register(_)));
    assert_eq!(
        m.on_registered(false),
        ShortcutAction::Finish(Err(HotkeyError::RegistrationFailed))
    );
    assert_eq!(m.read(), parse("F4").unwrap());
}

#[test]
fn startup_registration_failure_is_reported() {
    let (mut m, action) = HotkeyManager::initialize(None);
    assert_eq!(action, ShortcutAction::Register(parse("F4").unwrap()));
    assert_eq!(
        m.on_registered(false),
        ShortcutAction::Finish(Err(HotkeyError::RegistrationFailed))
    );
}

#[test]
fn other_shortcut_does_nothing() {
    let m = started(None);
    let other = parse("Ctrl+F4").unwrap();
    assert_eq!(dispatch(m.registry(), &other, PressState::Pressed, Some(false)), WindowAction::Nothing);
    assert_eq!(dispatch(m.registry(), &other, PressState::Pressed, Some(true)), WindowAction::Nothing);
}

#[test]
fn release_does_nothing() {
    let m = started(None);
    let f4 = parse("F4").unwrap();
    assert_eq!(dispatch(m.registry(), &f4, PressState::Released, Some(true)), WindowAction::Nothing);
}

#[test]
fn unknown_visibility_shows_window() {
    let m = started(None);
    let f4 = parse("F4").unwrap();
    assert_eq!(dispatch(m.registry(), &f4, PressState::Pressed, None), WindowAction::ShowAndFocus);
}

#[test]
fn end_to_end_toggle() {
    let mut m = started(None);
    assert_eq!(m.read(), parse("F4").unwrap());
    assert_eq!(update_ok(&mut m, "Ctrl+KeyB"), ShortcutAction::Finish(Ok(())));
    let ctrl_b = HotkeyBinding::new(ModifierSet::empty().with(Modifier::Control), KeyCode::KeyB);
    assert_eq!(m.read(), ctrl_b);
    let mut visible = false;
    let a = dispatch(m.registry(), &ctrl_b, PressState::Pressed, Some(visible));
    assert_eq!(a, WindowAction::ShowAndFocus);
    visible = visible_after(a, visible);
    assert!(visible);
    let a = dispatch(m.registry(), &ctrl_b, PressState::Pressed, Some(visible));
    assert_eq!(a, WindowAction::Hide);
    visible = visible_after(a, visible);
    assert!(!visible);
}
