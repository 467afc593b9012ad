//! Parsing of hotkey strings such as `Ctrl+Shift+KeyA` or a bare `F4`.
use vstd::prelude::*;

use crate::binding::{no_modifiers, HotkeyBinding, Modifier, ModifierSet};
use crate::keys::{key_table, parse_hotkey_code, parse_key_code, primary_key, str_eq, KeyCode};

verus! {

/// Why a hotkey string was rejected.
#[derive(Debug, PartialEq, Eq)]
pub enum ParseError {
    /// The string holds no token.
    Empty,
    /// No token of the string, nor the string as a whole, names a key.
    UnresolvedKey(String),
}

/// The modifier that a token names, if any.
pub open spec fn modifier_token(t: Seq<char>) -> Option<Modifier> {
    if t == "Ctrl"@ {
        Some(Modifier::Control)
    } else if t == "Shift"@ {
        Some(Modifier::Shift)
    } else if t == "Alt"@ {
        Some(Modifier::Alt)
    } else if t == "Meta"@ {
        Some(Modifier::Meta)
    } else {
        None
    }
}

/// The pieces of `s` between `+` separators, in order; never empty.
pub open spec fn split_plus(s: Seq<char>) -> Seq<Seq<char>>
    decreases s.len(),
{
    if s.len() == 0 {
        seq![Seq::empty()]
    } else {
        let prev = split_plus(s.drop_last());
        if s.last() == '+' {
            prev.push(Seq::empty())
        } else {
            prev.drop_last().push(prev.last().push(s.last()))
        }
    }
}

/// The modifiers after one more token.
pub open spec fn step_modifiers(m: ModifierSet, t: Seq<char>) -> ModifierSet {
    match modifier_token(t) {
        Some(x) => m.added(x),
        None => m,
    }
}

/// The key after one more token: the first token that is not a modifier and
/// names a key wins.
pub open spec fn step_key(k: Option<KeyCode>, t: Seq<char>) -> Option<KeyCode> {
    match k {
        Some(c) => Some(c),
        None => if modifier_token(t).is_none() {
            key_table(t)
        } else {
            None
        },
    }
}

/// The modifiers named among `toks`.
pub open spec fn modifiers_of(toks: Seq<Seq<char>>) -> ModifierSet
    decreases toks.len(),
{
    if toks.len() == 0 {
        no_modifiers()
    } else {
        step_modifiers(modifiers_of(toks.drop_last()), toks.last())
    }
}

/// The key of the first token of `toks` that is not a modifier and names one.
pub open spec fn first_key(toks: Seq<Seq<char>>) -> Option<KeyCode>
    decreases toks.len(),
{
    if toks.len() == 0 {
        None
    } else {
        step_key(first_key(toks.drop_last()), toks.last())
    }
}

/// The binding that the tokens of `s` give, if one of them names a key.
pub open spec fn combination_of(s: Seq<char>) -> Option<HotkeyBinding> {
    let toks = split_plus(s);
    match first_key(toks) {
        Some(k) => Some(HotkeyBinding { modifiers: modifiers_of(toks), code: k }),
        None => None,
    }
}

/// The binding of a hotkey string: its tokens, or else the whole string as a
/// bare primary key name.
pub open spec fn binding_of(s: Seq<char>) -> Option<HotkeyBinding> {
    if s.len() == 0 {
        None
    } else {
        match combination_of(s) {
            Some(b) => Some(b),
            None => match primary_key(s) {
                Some(k) => Some(HotkeyBinding { modifiers: no_modifiers(), code: k }),
                None => None,
            },
        }
    }
}

pub proof fn lemma_split_nonempty(s: Seq<char>)
    ensures
        split_plus(s).len() >= 1,
    decreases s.len(),
{
    if s.len() > 0 {
        lemma_split_nonempty(s.drop_last());
    }
}

fn modifier_of_token(t: &str) -> (r: Option<Modifier>)
    ensures
        r == modifier_token(t@),
{
    if str_eq(t, "Ctrl") {
        Some(Modifier::Control)
    } else if str_eq(t, "Shift") {
        Some(Modifier::Shift)
    } else if str_eq(t, "Alt") {
        Some(Modifier::Alt)
    } else if str_eq(t, "Meta") {
        Some(Modifier::Meta)
    } else {
        None
    }
}

/// Reads the tokens of `hotkey`: modifiers are gathered, and the first token
/// that names a key gives the key. `None` when no token names a key.
pub fn parse_hotkey_combination(hotkey: &str) -> (r: Option<HotkeyBinding>)
    ensures
        r == combination_of(hotkey@),
{
    let n = hotkey.unicode_len();
    let mut mods = ModifierSet::empty();
    let mut key: Option<KeyCode> = None;
    let mut start: usize = 0;
    let mut i: usize = 0;
    proof {
        assert(hotkey@.subrange(0, 0) =~= Seq::<char>::empty());
    }
    while i < n
        invariant
            n == hotkey@.len(),
            start <= i <= n,
            split_plus(hotkey@.subrange(0, i as int)).len() >= 1,
            split_plus(hotkey@.subrange(0, i as int)).last() == hotkey@.subrange(
                start as int,
                i as int,
            ),
            mods == modifiers_of(split_plus(hotkey@.subrange(0, i as int)).drop_last()),
            key == first_key(split_plus(hotkey@.subrange(0, i as int)).drop_last()),
        decreases n - i,
    {
        let ghost pre = hotkey@.subrange(0, i as int);
        let ghost toks = split_plus(pre);
        let ghost next = hotkey@.subrange(0, i + 1);
        let c = hotkey.get_char(i);
        proof {
            assert(next.drop_last() =~= pre);
            assert(next.last() == c);
            lemma_split_nonempty(next);
        }
        if c == '+' {
            let t = hotkey.substring_char(start, i);
            match modifier_of_token(t) {
                Some(m) => {
                    mods = mods.with(m);
                },
                None => {
                    if key.is_none() {
                        key = parse_key_code(t);
                    }
                },
            }
            proof {
                assert(toks.drop_last().push(toks.last()) =~= toks);
                assert(split_plus(next).drop_last() =~= toks);
                assert(hotkey@.subrange(i + 1, i + 1) =~= Seq::<char>::empty());
            }
            start = i + 1;
        } else {
            proof {
                assert(split_plus(next).drop_last() =~= toks.drop_last());
                assert(hotkey@.subrange(start as int, i + 1) =~= toks.last().push(c));
            }
        }
        i = i + 1;
    }
    let t = hotkey.substring_char(start, n);
    proof {
        let toks = split_plus(hotkey@.subrange(0, n as int));
        assert(hotkey@.subrange(0, n as int) =~= hotkey@);
        assert(toks.drop_last().push(toks.last()) =~= toks);
    }
    match modifier_of_token(t) {
        Some(m) => {
            mods = mods.with(m);
        },
        None => {
            if key.is_none() {
                key = parse_key_code(t);
            }
        },
    }
    match key {
        Some(code) => Some(HotkeyBinding::new(mods, code)),
        None => None,
    }
}

/// Parses a hotkey string into a binding.
pub fn parse(hotkey: &str) -> (r: Result<HotkeyBinding, ParseError>)
    ensures
        hotkey@.len() == 0 <==> r == Err::<HotkeyBinding, ParseError>(ParseError::Empty),
        r.is_ok() <==> binding_of(hotkey@).is_some(),
        match r {
            Ok(b) => binding_of(hotkey@) == Some(b),
            Err(ParseError::Empty) => hotkey@.len() == 0,
            Err(ParseError::UnresolvedKey(t)) => t@ == hotkey@ && hotkey@.len() > 0,
        },
{
    if hotkey.unicode_len() == 0 {
        return Err(ParseError::Empty);
    }
    match parse_hotkey_combination(hotkey) {
        Some(b) => Ok(b),
        None => match parse_hotkey_code(hotkey) {
            Some(code) => Ok(HotkeyBinding::new(ModifierSet::empty(), code)),
            None => Err(ParseError::UnresolvedKey(hotkey.to_string())),
        },
    }
}

/// No character of `t` is a `+`.
pub open spec fn plus_free(t: Seq<char>) -> bool {
    forall|i: int| 0 <= i < t.len() ==> t[i] != '+'
}

/// The token that names a modifier.
pub open spec fn modifier_name(m: Modifier) -> Seq<char> {
    match m {
        Modifier::Control => "Ctrl"@,
        Modifier::Shift => "Shift"@,
        Modifier::Alt => "Alt"@,
        Modifier::Meta => "Meta"@,
    }
}

/// The tokens written one after another with a `+` between each two.
pub open spec fn join_plus(toks: Seq<Seq<char>>) -> Seq<char>
    decreases toks.len(),
{
    if toks.len() == 0 {
        Seq::empty()
    } else if toks.len() == 1 {
        toks[0]
    } else {
        join_plus(toks.drop_last()) + seq!['+'] + toks.last()
    }
}

/// The modifier tokens for `mods`, in order.
pub open spec fn modifier_names(mods: Seq<Modifier>) -> Seq<Seq<char>> {
    mods.map_values(|m: Modifier| modifier_name(m))
}

/// The hotkey string that holds the modifiers `mods`, in order, and then `key`.
pub open spec fn combination_text(mods: Seq<Modifier>, key: Seq<char>) -> Seq<char> {
    join_plus(modifier_names(mods).push(key))
}

pub proof fn lemma_modifier_name_token(m: Modifier)
    ensures
        modifier_token(modifier_name(m)) == Some(m),
        plus_free(modifier_name(m)),
{
    reveal_strlit("Ctrl");
    reveal_strlit("Shift");
    reveal_strlit("Alt");
    reveal_strlit("Meta");
    match m {
        Modifier::Control => assert("Ctrl"@ =~= seq!['C', 't', 'r', 'l']),
        Modifier::Shift => assert("Shift"@ =~= seq!['S', 'h', 'i', 'f', 't']),
        Modifier::Alt => assert("Alt"@ =~= seq!['A', 'l', 't']),
        Modifier::Meta => assert("Meta"@ =~= seq!['M', 'e', 't', 'a']),
    }
}

/// Splitting `a` followed by a piece without `+` extends the last token of `a`.
pub proof fn lemma_split_tail(a: Seq<char>, b: Seq<char>)
    requires
        plus_free(b),
    ensures
        split_plus(a + b) == split_plus(a).drop_last().push(split_plus(a).last() + b),
    decreases b.len(),
{
    lemma_split_nonempty(a);
    let x = split_plus(a);
    if b.len() == 0 {
        assert(a + b =~= a);
        assert(x.last() + b =~= x.last());
        assert(x.drop_last().push(x.last()) =~= x);
    } else {
        let b1 = b.drop_last();
        assert(plus_free(b1));
        lemma_split_tail(a, b1);
        assert((a + b).drop_last() =~= a + b1);
        assert((x.last() + b1).push(b.last()) =~= x.last() + b);
        assert(x.drop_last().push(x.last() + b1).drop_last() =~= x.drop_last());
    }
}

/// Splitting tokens joined by `+` gives them back, when none holds a `+`.
pub proof fn lemma_split_join(toks: Seq<Seq<char>>)
    requires
        toks.len() >= 1,
        forall|i: int| 0 <= i < toks.len() ==> plus_free(#[trigger] toks[i]),
    ensures
        split_plus(join_plus(toks)) == toks,
    decreases toks.len(),
{
    if toks.len() == 1 {
        lemma_split_tail(Seq::empty(), toks[0]);
        assert(Seq::<char>::empty() + toks[0] =~= toks[0]);
        assert(split_plus(Seq::<char>::empty()).drop_last().push(Seq::<char>::empty() + toks[0])
            =~= toks);
    } else {
        let front = toks.drop_last();
        lemma_split_join(front);
        let j = join_plus(front) + seq!['+'];
        assert(j.drop_last() =~= join_plus(front));
        lemma_split_tail(j, toks.last());
        assert(Seq::<char>::empty() + toks.last() =~= toks.last());
        assert(front.push(toks.last()) =~= toks);
        assert(split_plus(j).drop_last() =~= front);
    }
}

/// Modifier tokens alone name no key, and give exactly their modifiers.
pub proof fn lemma_modifier_tokens(mods: Seq<Modifier>)
    ensures
        first_key(modifier_names(mods)) is None,
        forall|m: Modifier| modifiers_of(modifier_names(mods)).has(m) == mods.contains(m),
    decreases mods.len(),
{
    let names = modifier_names(mods);
    if mods.len() > 0 {
        let front = mods.drop_last();
        lemma_modifier_tokens(front);
        assert(names.drop_last() =~= modifier_names(front));
        lemma_modifier_name_token(mods.last());
        assert forall|m: Modifier| modifiers_of(names).has(m) == mods.contains(m) by {
            if front.contains(m) {
                let k = choose|k: int| 0 <= k < front.len() && front[k] == m;
                assert(mods[k] == m);
            }
            if mods.contains(m) && m != mods.last() {
                let k = choose|k: int| 0 <= k < mods.len() && mods[k] == m;
                assert(front[k] == m);
            }
            if m == mods.last() {
                assert(mods[mods.len() - 1] == m);
            }
        }
    }
}

/// A string made of modifier tokens and one key name, joined by `+`, parses
/// to exactly those modifiers and that key.
pub proof fn lemma_parse_combination(mods: Seq<Modifier>, key: Seq<char>)
    requires
        key_table(key).is_some(),
    ensures
        binding_of(combination_text(mods, key)) is Some,
        binding_of(combination_text(mods, key))->Some_0.code == key_table(key)->Some_0,
        forall|m: Modifier|
            binding_of(combination_text(mods, key))->Some_0.modifiers.has(m) == mods.contains(m),
{
    let names = modifier_names(mods);
    let toks = names.push(key);
    lemma_key_name_shape(key);
    lemma_modifier_tokens(mods);
    assert forall|i: int| 0 <= i < toks.len() implies plus_free(#[trigger] toks[i]) by {
        if i < names.len() {
            lemma_modifier_name_token(mods[i]);
        }
    }
    lemma_split_join(toks);
    assert(toks.drop_last() =~= names);
    if toks.len() == 1 {
        assert(combination_text(mods, key) == key);
    } else {
        assert(combination_text(mods, key).len() > 0);
    }
}

/// A bare primary key name parses to that key with no modifier.
pub proof fn lemma_parse_bare_key(s: Seq<char>)
    requires
        primary_key(s).is_some(),
    ensures
        binding_of(s) == Some(HotkeyBinding { modifiers: no_modifiers(), code: primary_key(s)->Some_0 }),
{
    let none = Seq::<Modifier>::empty();
    lemma_parse_combination(none, s);
    assert(modifier_names(none).push(s) =~= seq![s]);
    assert(combination_text(none, s) == s);
    assert forall|m: Modifier| binding_of(s)->Some_0.modifiers.has(m) == no_modifiers().has(m) by {
        assert(!none.contains(m));
    }
    ModifierSet::lemma_members_determine(binding_of(s)->Some_0.modifiers, no_modifiers());
}

/// The order in which modifier tokens are written does not change the binding.
pub proof fn lemma_modifier_order(m1: Seq<Modifier>, m2: Seq<Modifier>, key: Seq<char>)
    requires
        key_table(key).is_some(),
        forall|m: Modifier| m1.contains(m) == m2.contains(m),
    ensures
        binding_of(combination_text(m1, key)) == binding_of(combination_text(m2, key)),
{
    lemma_parse_combination(m1, key);
    lemma_parse_combination(m2, key);
    let b1 = binding_of(combination_text(m1, key))->Some_0;
    let b2 = binding_of(combination_text(m2, key))->Some_0;
    assert forall|m: Modifier| b1.modifiers.has(m) == b2.modifiers.has(m) by {
        assert(m1.contains(m) == m2.contains(m));
    }
    ModifierSet::lemma_members_determine(
        binding_of(combination_text(m1, key))->Some_0.modifiers,
        binding_of(combination_text(m2, key))->Some_0.modifiers,
    );
}

/// A name in the key table is not empty, holds no `+`, and is no modifier.
pub proof fn lemma_key_name_shape(t: Seq<char>)
    requires
        key_table(t).is_some(),
    ensures
        t.len() > 0,
        plus_free(t),
        modifier_token(t).is_none(),
{
    reveal_strlit("Ctrl");
    reveal_strlit("Shift");
    reveal_strlit("Alt");
    reveal_strlit("Meta");
    if t == "End"@ {
        reveal_strlit("End");
        assert(t =~= seq!['E', 'n', 'd']);
    } else if t == "Home"@ {
        reveal_strlit("Home");
        assert(t =~= seq!['H', 'o', 'm', 'e']);
    } else if t == "Insert"@ {
        reveal_strlit("Insert");
        assert(t =~= seq!['I', 'n', 's', 'e', 'r', 't']);
    } else if t == "Delete"@ {
        reveal_strlit("Delete");
        assert(t =~= seq!['D', 'e', 'l', 'e', 't', 'e']);
    } else if t == "F1"@ {
        reveal_strlit("F1");
        assert(t =~= seq!['F', '1']);
    } else if t == "F2"@ {
        reveal_strlit("F2");
        assert(t =~= seq!['F', '2']);
    } else if t == "F3"@ {
        reveal_strlit("F3");
        assert(t =~= seq!['F', '3']);
    } else if t == "F4"@ {
        reveal_strlit("F4");
        assert(t =~= seq!['F', '4']);
    } else if t == "F5"@ {
        reveal_strlit("F5");
        assert(t =~= seq!['F', '5']);
    } else if t == "F6"@ {
        reveal_strlit("F6");
        assert(t =~= seq!['F', '6']);
    } else if t == "F7"@ {
        reveal_strlit("F7");
        assert(t =~= seq!['F', '7']);
    } else if t == "F8"@ {
        reveal_strlit("F8");
        assert(t =~= seq!['F', '8']);
    } else if t == "F9"@ {
        reveal_strlit("F9");
        assert(t =~= seq!['F', '9']);
    } else if t == "F10"@ {
        reveal_strlit("F10");
        assert(t =~= seq!['F', '1', '0']);
    } else if t == "F11"@ {
        reveal_strlit("F11");
        assert(t =~= seq!['F', '1', '1']);
    } else if t == "F12"@ {
        reveal_strlit("F12");
        assert(t =~= seq!['F', '1', '2']);
    } else if t == "Space"@ {
        reveal_strlit("Space");
        assert(t =~= seq!['S', 'p', 'a', 'c', 'e']);
    } else if t == "Enter"@ {
        reveal_strlit("Enter");
        assert(t =~= seq!['E', 'n', 't', 'e', 'r']);
    } else if t == "Escape"@ {
        reveal_strlit("Escape");
        assert(t =~= seq!['E', 's', 'c', 'a', 'p', 'e']);
    } else if t == "Tab"@ {
        reveal_strlit("Tab");
        assert(t =~= seq!['T', 'a', 'b']);
    } else if t == "Backspace"@ {
        reveal_strlit("Backspace");
        assert(t =~= seq!['B', 'a', 'c', 'k', 's', 'p', 'a', 'c', 'e']);
    } else if t == "KeyA"@ {
        reveal_strlit("KeyA");
        assert(t =~= seq!['K', 'e', 'y', 'A']);
    } else if t == "KeyB"@ {
        reveal_strlit("KeyB");
        assert(t =~= seq!['K', 'e', 'y', 'B']);
    } else if t == "KeyC"@ {
        reveal_strlit("KeyC");
        assert(t =~= seq!['K', 'e', 'y', 'C']);
    } else if t == "KeyD"@ {
        reveal_strlit("KeyD");
        assert(t =~= seq!['K', 'e', 'y', 'D']);
    } else if t == "KeyE"@ {
        reveal_strlit("KeyE");
        assert(t =~= seq!['K', 'e', 'y', 'E']);
    } else if t == "KeyF"@ {
        reveal_strlit("KeyF");
        assert(t =~= seq!['K', 'e', 'y', 'F']);
    } else if t == "KeyG"@ {
        reveal_strlit("KeyG");
        assert(t =~= seq!['K', 'e', 'y', 'G']);
    } else if t == "KeyH"@ {
        reveal_strlit("KeyH");
        assert(t =~= seq!['K', 'e', 'y', 'H']);
    } else if t == "KeyI"@ {
        reveal_strlit("KeyI");
        assert(t =~= seq!['K', 'e', 'y', 'I']);
    } else if t == "KeyJ"@ {
        reveal_strlit("KeyJ");
        assert(t =~= seq!['K', 'e', 'y', 'J']);
    } else if t == "KeyK"@ {
        reveal_strlit("KeyK");
        assert(t =~= seq!['K', 'e', 'y', 'K']);
    } else if t == "KeyL"@ {
        reveal_strlit("KeyL");
        assert(t =~= seq!['K', 'e', 'y', 'L']);
    } else if t == "KeyM"@ {
        reveal_strlit("KeyM");
        assert(t =~= seq!['K', 'e', 'y', 'M']);
    } else if t == "KeyN"@ {
        reveal_strlit("KeyN");
        assert(t =~= seq!['K', 'e', 'y', 'N']);
    } else if t == "KeyO"@ {
        reveal_strlit("KeyO");
        assert(t =~= seq!['K', 'e', 'y', 'O']);
    } else if t == "KeyP"@ {
        reveal_strlit("KeyP");
        assert(t =~= seq!['K', 'e', 'y', 'P']);
    } else if t == "KeyQ"@ {
        reveal_strlit("KeyQ");
        assert(t =~= seq!['K', 'e', 'y', 'Q']);
    } else if t == "KeyR"@ {
        reveal_strlit("KeyR");
        assert(t =~= seq!['K', 'e', 'y', 'R']);
    } else if t == "KeyS"@ {
        reveal_strlit("KeyS");
        assert(t =~= seq!['K', 'e', 'y', 'S']);
    } else if t == "KeyT"@ {
        reveal_strlit("KeyT");
        assert(t =~= seq!['K', 'e', 'y', 'T']);
    } else if t == "KeyU"@ {
        reveal_strlit("KeyU");
        assert(t =~= seq!['K', 'e', 'y', 'U']);
    } else if t == "KeyV"@ {
        reveal_strlit("KeyV");
        assert(t =~= seq!['K', 'e', 'y', 'V']);
    } else if t == "KeyW"@ {
        reveal_strlit("KeyW");
        assert(t =~= seq!['K', 'e', 'y', 'W']);
    } else if t == "KeyX"@ {
        reveal_strlit("KeyX");
        assert(t =~= seq!['K', 'e', 'y', 'X']);
    } else if t == "KeyY"@ {
        reveal_strlit("KeyY");
        assert(t =~= seq!['K', 'e', 'y', 'Y']);
    } else if t == "KeyZ"@ {
        reveal_strlit("KeyZ");
        assert(t =~= seq!['K', 'e', 'y', 'Z']);
    } else if t == "PageUp"@ {
        reveal_strlit("PageUp");
        assert(t =~= seq!['P', 'a', 'g', 'e', 'U', 'p']);
    } else if t == "PageDown"@ {
        reveal_strlit("PageDown");
        assert(t =~= seq!['P', 'a', 'g', 'e', 'D', 'o', 'w', 'n']);
    } else if t == "ArrowUp"@ {
        reveal_strlit("ArrowUp");
        assert(t =~= seq!['A', 'r', 'r', 'o', 'w', 'U', 'p']);
    } else if t == "ArrowDown"@ {
        reveal_strlit("ArrowDown");
        assert(t =~= seq!['A', 'r', 'r', 'o', 'w', 'D', 'o', 'w', 'n']);
    } else if t == "ArrowLeft"@ {
        reveal_strlit("ArrowLeft");
        assert(t =~= seq!['A', 'r', 'r', 'o', 'w', 'L', 'e', 'f', 't']);
    } else if t == "ArrowRight"@ {
        reveal_strlit("ArrowRight");
        assert(t =~= seq!['A', 'r', 'r', 'o', 'w', 'R', 'i', 'g', 'h', 't']);
    } else if t == "A"@ {
        reveal_strlit("A");
        assert(t =~= seq!['A']);
    } else if t == "B"@ {
        reveal_strlit("B");
        assert(t =~= seq!['B']);
    } else if t == "C"@ {
        reveal_strlit("C");
        assert(t =~= seq!['C']);
    } else if t == "D"@ {
        reveal_strlit("D");
        assert(t =~= seq!['D']);
    } else if t == "E"@ {
        reveal_strlit("E");
        assert(t =~= seq!['E']);
    } else if t == "F"@ {
        reveal_strlit("F");
        assert(t =~= seq!['F']);
    } else if t == "G"@ {
        reveal_strlit("G");
        assert(t =~= seq!['G']);
    } else if t == "H"@ {
        reveal_strlit("H");
        assert(t =~= seq!['H']);
    } else if t == "I"@ {
        reveal_strlit("I");
        assert(t =~= seq!['I']);
    } else if t == "J"@ {
        reveal_strlit("J");
        assert(t =~= seq!['J']);
    } else if t == "K"@ {
        reveal_strlit("K");
        assert(t =~= seq!['K']);
    } else if t == "L"@ {
        reveal_strlit("L");
        assert(t =~= seq!['L']);
    } else if t == "M"@ {
        reveal_strlit("M");
        assert(t =~= seq!['M']);
    } else if t == "N"@ {
        reveal_strlit("N");
        assert(t =~= seq!['N']);
    } else if t == "O"@ {
        reveal_strlit("O");
        assert(t =~= seq!['O']);
    } else if t == "P"@ {
        reveal_strlit("P");
        assert(t =~= seq!['P']);
    } else if t == "Q"@ {
        reveal_strlit("Q");
        assert(t =~= seq!['Q']);
    } else if t == "R"@ {
        reveal_strlit("R");
        assert(t =~= seq!['R']);
    } else if t == "S"@ {
        reveal_strlit("S");
        assert(t =~= seq!['S']);
    } else if t == "T"@ {
        reveal_strlit("T");
        assert(t =~= seq!['T']);
    } else if t == "U"@ {
        reveal_strlit("U");
        assert(t =~= seq!['U']);
    } else if t == "V"@ {
        reveal_strlit("V");
        assert(t =~= seq!['V']);
    } else if t == "W"@ {
        reveal_strlit("W");
        assert(t =~= seq!['W']);
    } else if t == "X"@ {
        reveal_strlit("X");
        assert(t =~= seq!['X']);
    } else if t == "Y"@ {
        reveal_strlit("Y");
        assert(t =~= seq!['Y']);
    } else if t == "Z"@ {
        reveal_strlit("Z");
        assert(t =~= seq!['Z']);
    } else if t == "Digit1"@ {
        reveal_strlit("Digit1");
        assert(t =~= seq!['D', 'i', 'g', 'i', 't', '1']);
    } else if t == "Digit2"@ {
        reveal_strlit("Digit2");
        assert(t =~= seq!['D', 'i', 'g', 'i', 't', '2']);
    } else if t == "Digit3"@ {
        reveal_strlit("Digit3");
        assert(t =~= seq!['D', 'i', 'g', 'i', 't', '3']);
    } else if t == "Digit4"@ {
        reveal_strlit("Digit4");
        assert(t =~= seq!['D', 'i', 'g', 'i', 't', '4']);
    } else if t == "Digit5"@ {
        reveal_strlit("Digit5");
        assert(t =~= seq!['D', 'i', 'g', 'i', 't', '5']);
    } else if t == "Digit6"@ {
        reveal_strlit("Digit6");
        assert(t =~= seq!['D', 'i', 'g', 'i', 't', '6']);
    } else if t == "Digit7"@ {
        reveal_strlit("Digit7");
        assert(t =~= seq!['D', 'i', 'g', 'i', 't', '7']);
    } else if t == "Digit8"@ {
        reveal_strlit("Digit8");
        assert(t =~= seq!['D', 'i', 'g', 'i', 't', '8']);
    } else if t == "Digit9"@ {
        reveal_strlit("Digit9");
        assert(t =~= seq!['D', 'i', 'g', 'i', 't', '9']);
    } else if t == "Digit0"@ {
        reveal_strlit("Digit0");
        assert(t =~= seq!['D', 'i', 'g', 'i', 't', '0']);
    } else if t == "1"@ {
        reveal_strlit("1");
        assert(t =~= seq!['1']);
    } else if t == "2"@ {
        reveal_strlit("2");
        assert(t =~= seq!['2']);
    } else if t == "3"@ {
        reveal_strlit("3");
        assert(t =~= seq!['3']);
    } else if t == "4"@ {
        reveal_strlit("4");
        assert(t =~= seq!['4']);
    } else if t == "5"@ {
        reveal_strlit("5");
        assert(t =~= seq!['5']);
    } else if t == "6"@ {
        reveal_strlit("6");
        assert(t =~= seq!['6']);
    } else if t == "7"@ {
        reveal_strlit("7");
        assert(t =~= seq!['7']);
    } else if t == "8"@ {
        reveal_strlit("8");
        assert(t =~= seq!['8']);
    } else if t == "9"@ {
        reveal_strlit("9");
        assert(t =~= seq!['9']);
    } else if t == "0"@ {
        reveal_strlit("0");
        assert(t =~= seq!['0']);
    }
}


} // verus!
