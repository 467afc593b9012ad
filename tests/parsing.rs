use krona_hotkey::binding::{HotkeyBinding, Modifier, ModifierSet};
use krona_hotkey::keys::{parse_hotkey_code, parse_key_code, str_eq, KeyCode};
use krona_hotkey::parse::{parse, parse_hotkey_combination, ParseError};

fn mods(list: &[Modifier]) -> ModifierSet {
    let mut m = ModifierSet::empty();
    for x in list {
        m = m.with(*x);
    }
    m
}

#[test]
fn combination_with_two_modifiers() {
    let b = parse("Ctrl+Shift+KeyA").unwrap();
    assert_eq!(b.code, KeyCode::KeyA);
    assert!(b.modifiers.contains(Modifier::Control));
    assert!(b.modifiers.contains(Modifier::Shift));
    assert!(!b.modifiers.contains(Modifier::Alt));
    assert!(!b.modifiers.contains(Modifier::Meta));
}

#[test]
fn combination_with_every_modifier() {
    let b = parse("Ctrl+Shift+Alt+Meta+F12").unwrap();
    assert_eq!(
        b,
        HotkeyBinding::new(
            mods(&[Modifier::Control, Modifier::Shift, Modifier::Alt, Modifier::Meta]),
            KeyCode::F12
        )
    );
}

#[test]
fn combination_with_aliases() {
    assert_eq!(
        parse("Alt+A").unwrap(),
        HotkeyBinding::new(mods(&[Modifier::Alt]), KeyCode::KeyA)
    );
    assert_eq!(
        parse("Meta+7").unwrap(),
        HotkeyBinding::new(mods(&[Modifier::Meta]), KeyCode::Digit7)
    );
    assert_eq!(
        parse("Ctrl+ArrowLeft").unwrap(),
        HotkeyBinding::new(mods(&[Modifier::Control]), KeyCode::ArrowLeft)
    );
}

#[test]
fn bare_key_names() {
    assert_eq!(parse("F4").unwrap(), HotkeyBinding::new(ModifierSet::empty(), KeyCode::F4));
    assert_eq!(parse("End").unwrap(), HotkeyBinding::new(ModifierSet::empty(), KeyCode::End));
    assert_eq!(
        parse("Backspace").unwrap(),
        HotkeyBinding::new(ModifierSet::empty(), KeyCode::Backspace)
    );
    assert!(parse("KeyZ").unwrap().modifiers.is_empty());
}

#[test]
fn empty_string_is_empty_error() {
    assert_eq!(parse(""), Err(ParseError::Empty));
}

#[test]
fn modifiers_without_key_are_unresolved() {
    assert_eq!(
        parse("Ctrl+Shift"),
        Err(ParseError::UnresolvedKey("Ctrl+Shift".to_string()))
    );
    assert_eq!(parse("Ctrl"), Err(ParseError::UnresolvedKey("Ctrl".to_string())));
}

#[test]
fn unknown_key_is_unresolved() {
    assert_eq!(parse("Ctrl+Foo"), Err(ParseError::UnresolvedKey("Ctrl+Foo".to_string())));
    assert_eq!(parse("ctrl+keya"), Err(ParseError::UnresolvedKey("ctrl+keya".to_string())));
    assert_eq!(parse("+"), Err(ParseError::UnresolvedKey("+".to_string())));
}

#[test]
fn modifier_order_is_irrelevant() {
    assert_eq!(parse("Shift+Ctrl+KeyA"), parse("Ctrl+Shift+KeyA"));
    assert_eq!(parse("KeyA+Ctrl+Shift"), parse("Ctrl+Shift+KeyA"));
}

#[test]
fn duplicate_modifiers_are_idempotent() {
    assert_eq!(parse("Ctrl+Ctrl+KeyB"), parse("Ctrl+KeyB"));
}

#[test]
fn unresolved_token_before_key_is_skipped() {
    assert_eq!(
        parse("Foo+KeyA").unwrap(),
        HotkeyBinding::new(ModifierSet::empty(), KeyCode::KeyA)
    );
}

#[test]
fn first_key_token_wins() {
    assert_eq!(
        parse("Ctrl+KeyA+KeyB").unwrap(),
        HotkeyBinding::new(mods(&[Modifier::Control]), KeyCode::KeyA)
    );
}

#[test]
fn empty_tokens_are_ignored() {
    assert_eq!(
        parse("Ctrl++KeyC").unwrap(),
        HotkeyBinding::new(mods(&[Modifier::Control]), KeyCode::KeyC)
    );
}

#[test]
fn combination_without_key_is_none() {
    assert_eq!(parse_hotkey_combination("Ctrl+Alt"), None);
    assert_eq!(
        parse_hotkey_combination("Shift+Space"),
        Some(HotkeyBinding::new(mods(&[Modifier::Shift]), KeyCode::Space))
    );
}

#[test]
fn primary_table_lacks_aliases() {
    assert_eq!(parse_hotkey_code("F4"), Some(KeyCode::F4));
    assert_eq!(parse_hotkey_code("KeyQ"), Some(KeyCode::KeyQ));
    assert_eq!(parse_hotkey_code("Q"), None);
    assert_eq!(parse_hotkey_code("PageUp"), None);
    assert_eq!(parse_hotkey_code("Digit1"), None);
}

#[test]
fn extended_table_has_both_families() {
    assert_eq!(parse_key_code("Q"), Some(KeyCode::KeyQ));
    assert_eq!(parse_key_code("KeyQ"), Some(KeyCode::KeyQ));
    assert_eq!(parse_key_code("0"), Some(KeyCode::Digit0));
    assert_eq!(parse_key_code("Digit0"), Some(KeyCode::Digit0));
    assert_eq!(parse_key_code("PageDown"), Some(KeyCode::PageDown));
    assert_eq!(parse_key_code("F13"), None);
    assert_eq!(parse_key_code(""), None);
}

#[test]
fn string_comparison() {
    assert!(str_eq("KeyA", "KeyA"));
    assert!(!str_eq("KeyA", "KeyB"));
    assert!(!str_eq("Key", "KeyA"));
    assert!(str_eq("", ""));
}

#[test]
fn modifier_set_operations() {
    let a = mods(&[Modifier::Control]);
    let b = mods(&[Modifier::Alt]);
    let u = a.union(b);
    assert!(u.contains(Modifier::Control) && u.contains(Modifier::Alt));
    assert!(!u.contains(Modifier::Shift));
    assert!(ModifierSet::empty().is_empty());
    assert!(!u.is_empty());
    assert_eq!(a.with(Modifier::Control), a);
}
