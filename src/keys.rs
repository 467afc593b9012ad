//! Key codes and the table that names them.
use vstd::prelude::*;

verus! {

/// A physical or logical key that a hotkey can be bound to.
#[derive(Clone, Copy, Debug, PartialEq, Eq, Structural, Hash)]
pub enum KeyCode {
    End,
    Home,
    Insert,
    Delete,
    F1,
    F2,
    F3,
    F4,
    F5,
    F6,
    F7,
    F8,
    F9,
    F10,
    F11,
    F12,
    Space,
    Enter,
    Escape,
    Tab,
    Backspace,
    PageUp,
    PageDown,
    ArrowUp,
    ArrowDown,
    ArrowLeft,
    ArrowRight,
    KeyA,
    KeyB,
    KeyC,
    KeyD,
    KeyE,
    KeyF,
    KeyG,
    KeyH,
    KeyI,
    KeyJ,
    KeyK,
    KeyL,
    KeyM,
    KeyN,
    KeyO,
    KeyP,
    KeyQ,
    KeyR,
    KeyS,
    KeyT,
    KeyU,
    KeyV,
    KeyW,
    KeyX,
    KeyY,
    KeyZ,
    Digit0,
    Digit1,
    Digit2,
    Digit3,
    Digit4,
    Digit5,
    Digit6,
    Digit7,
    Digit8,
    Digit9,
}

/// The primary names: named keys, function keys and `KeyA` to `KeyZ`.
pub open spec fn primary_key(t: Seq<char>) -> Option<KeyCode> {
    if t == "End"@ {
        Some(KeyCode::End)
    } else if t == "Home"@ {
        Some(KeyCode::Home)
    } else if t == "Insert"@ {
        Some(KeyCode::Insert)
    } else if t == "Delete"@ {
        Some(KeyCode::Delete)
    } else if t == "F1"@ {
        Some(KeyCode::F1)
    } else if t == "F2"@ {
        Some(KeyCode::F2)
    } else if t == "F3"@ {
        Some(KeyCode::F3)
    } else if t == "F4"@ {
        Some(KeyCode::F4)
    } else if t == "F5"@ {
        Some(KeyCode::F5)
    } else if t == "F6"@ {
        Some(KeyCode::F6)
    } else if t == "F7"@ {
        Some(KeyCode::F7)
    } else if t == "F8"@ {
        Some(KeyCode::F8)
    } else if t == "F9"@ {
        Some(KeyCode::F9)
    } else if t == "F10"@ {
        Some(KeyCode::F10)
    } else if t == "F11"@ {
        Some(KeyCode::F11)
    } else if t == "F12"@ {
        Some(KeyCode::F12)
    } else if t == "Space"@ {
        Some(KeyCode::Space)
    } else if t == "Enter"@ {
        Some(KeyCode::Enter)
    } else if t == "Escape"@ {
        Some(KeyCode::Escape)
    } else if t == "Tab"@ {
        Some(KeyCode::Tab)
    } else if t == "Backspace"@ {
        Some(KeyCode::Backspace)
    } else if t == "KeyA"@ {
        Some(KeyCode::KeyA)
    } else if t == "KeyB"@ {
        Some(KeyCode::KeyB)
    } else if t == "KeyC"@ {
        Some(KeyCode::KeyC)
    } else if t == "KeyD"@ {
        Some(KeyCode::KeyD)
    } else if t == "KeyE"@ {
        Some(KeyCode::KeyE)
    } else if t == "KeyF"@ {
        Some(KeyCode::KeyF)
    } else if t == "KeyG"@ {
        Some(KeyCode::KeyG)
    } else if t == "KeyH"@ {
        Some(KeyCode::KeyH)
    } else if t == "KeyI"@ {
        Some(KeyCode::KeyI)
    } else if t == "KeyJ"@ {
        Some(KeyCode::KeyJ)
    } else if t == "KeyK"@ {
        Some(KeyCode::KeyK)
    } else if t == "KeyL"@ {
        Some(KeyCode::KeyL)
    } else if t == "KeyM"@ {
        Some(KeyCode::KeyM)
    } else if t == "KeyN"@ {
        Some(KeyCode::KeyN)
    } else if t == "KeyO"@ {
        Some(KeyCode::KeyO)
    } else if t == "KeyP"@ {
        Some(KeyCode::KeyP)
    } else if t == "KeyQ"@ {
        Some(KeyCode::KeyQ)
    } else if t == "KeyR"@ {
        Some(KeyCode::KeyR)
    } else if t == "KeyS"@ {
        Some(KeyCode::KeyS)
    } else if t == "KeyT"@ {
        Some(KeyCode::KeyT)
    } else if t == "KeyU"@ {
        Some(KeyCode::KeyU)
    } else if t == "KeyV"@ {
        Some(KeyCode::KeyV)
    } else if t == "KeyW"@ {
        Some(KeyCode::KeyW)
    } else if t == "KeyX"@ {
        Some(KeyCode::KeyX)
    } else if t == "KeyY"@ {
        Some(KeyCode::KeyY)
    } else if t == "KeyZ"@ {
        Some(KeyCode::KeyZ)
    } else {
        None
    }
}
/// Names beyond the primary ones: navigation keys, digits, and one-character
/// aliases of letters and digits.
pub open spec fn extra_key(t: Seq<char>) -> Option<KeyCode> {
    if t == "PageUp"@ {
        Some(KeyCode::PageUp)
    } else if t == "PageDown"@ {
        Some(KeyCode::PageDown)
    } else if t == "ArrowUp"@ {
        Some(KeyCode::ArrowUp)
    } else if t == "ArrowDown"@ {
        Some(KeyCode::ArrowDown)
    } else if t == "ArrowLeft"@ {
        Some(KeyCode::ArrowLeft)
    } else if t == "ArrowRight"@ {
        Some(KeyCode::ArrowRight)
    } else if t == "A"@ {
        Some(KeyCode::KeyA)
    } else if t == "B"@ {
        Some(KeyCode::KeyB)
    } else if t == "C"@ {
        Some(KeyCode::KeyC)
    } else if t == "D"@ {
        Some(KeyCode::KeyD)
    } else if t == "E"@ {
        Some(KeyCode::KeyE)
    } else if t == "F"@ {
        Some(KeyCode::KeyF)
    } else if t == "G"@ {
        Some(KeyCode::KeyG)
    } else if t == "H"@ {
        Some(KeyCode::KeyH)
    } else if t == "I"@ {
        Some(KeyCode::KeyI)
    } else if t == "J"@ {
        Some(KeyCode::KeyJ)
    } else if t == "K"@ {
        Some(KeyCode::KeyK)
    } else if t == "L"@ {
        Some(KeyCode::KeyL)
    } else if t == "M"@ {
        Some(KeyCode::KeyM)
    } else if t == "N"@ {
        Some(KeyCode::KeyN)
    } else if t == "O"@ {
        Some(KeyCode::KeyO)
    } else if t == "P"@ {
        Some(KeyCode::KeyP)
    } else if t == "Q"@ {
        Some(KeyCode::KeyQ)
    } else if t == "R"@ {
        Some(KeyCode::KeyR)
    } else if t == "S"@ {
        Some(KeyCode::KeyS)
    } else if t == "T"@ {
        Some(KeyCode::KeyT)
    } else if t == "U"@ {
        Some(KeyCode::KeyU)
    } else if t == "V"@ {
        Some(KeyCode::KeyV)
    } else if t == "W"@ {
        Some(KeyCode::KeyW)
    } else if t == "X"@ {
        Some(KeyCode::KeyX)
    } else if t == "Y"@ {
        Some(KeyCode::KeyY)
    } else if t == "Z"@ {
        Some(KeyCode::KeyZ)
    } else if t == "Digit1"@ {
        Some(KeyCode::Digit1)
    } else if t == "Digit2"@ {
        Some(KeyCode::Digit2)
    } else if t == "Digit3"@ {
        Some(KeyCode::Digit3)
    } else if t == "Digit4"@ {
        Some(KeyCode::Digit4)
    } else if t == "Digit5"@ {
        Some(KeyCode::Digit5)
    } else if t == "Digit6"@ {
        Some(KeyCode::Digit6)
    } else if t == "Digit7"@ {
        Some(KeyCode::Digit7)
    } else if t == "Digit8"@ {
        Some(KeyCode::Digit8)
    } else if t == "Digit9"@ {
        Some(KeyCode::Digit9)
    } else if t == "Digit0"@ {
        Some(KeyCode::Digit0)
    } else if t == "1"@ {
        Some(KeyCode::Digit1)
    } else if t == "2"@ {
        Some(KeyCode::Digit2)
    } else if t == "3"@ {
        Some(KeyCode::Digit3)
    } else if t == "4"@ {
        Some(KeyCode::Digit4)
    } else if t == "5"@ {
        Some(KeyCode::Digit5)
    } else if t == "6"@ {
        Some(KeyCode::Digit6)
    } else if t == "7"@ {
        Some(KeyCode::Digit7)
    } else if t == "8"@ {
        Some(KeyCode::Digit8)
    } else if t == "9"@ {
        Some(KeyCode::Digit9)
    } else if t == "0"@ {
        Some(KeyCode::Digit0)
    } else {
        None
    }
}
/// The whole key table: every primary name, and every extra name.
pub open spec fn key_table(t: Seq<char>) -> Option<KeyCode> {
    match primary_key(t) {
        Some(k) => Some(k),
        None => extra_key(t),
    }
}

/// Compares two strings character by character.
pub fn str_eq(a: &str, b: &str) -> (r: bool)
    ensures
        r == (a@ == b@),
{
    let n = a.unicode_len();
    if n != b.unicode_len() {
        return false;
    }
    let mut i: usize = 0;
    while i < n
        invariant
            n == a@.len(),
            n == b@.len(),
            i <= n,
            forall|j: int| 0 <= j < i ==> a@[j] == b@[j],
        decreases n - i,
    {
        if a.get_char(i) != b.get_char(i) {
            return false;
        }
        i = i + 1;
    }
    assert(a@ =~= b@);
    true
}

/// Resolves a token against the primary names only.
pub fn parse_hotkey_code(token: &str) -> (r: Option<KeyCode>)
    ensures
        r == primary_key(token@),
{
    if str_eq(token, "End") {
        Some(KeyCode::End)
    } else if str_eq(token, "Home") {
        Some(KeyCode::Home)
    } else if str_eq(token, "Insert") {
        Some(KeyCode::Insert)
    } else if str_eq(token, "Delete") {
        Some(KeyCode::Delete)
    } else if str_eq(token, "F1") {
        Some(KeyCode::F1)
    } else if str_eq(token, "F2") {
        Some(KeyCode::F2)
    } else if str_eq(token, "F3") {
        Some(KeyCode::F3)
    } else if str_eq(token, "F4") {
        Some(KeyCode::F4)
    } else if str_eq(token, "F5") {
        Some(KeyCode::F5)
    } else if str_eq(token, "F6") {
        Some(KeyCode::F6)
    } else if str_eq(token, "F7") {
        Some(KeyCode::F7)
    } else if str_eq(token, "F8") {
        Some(KeyCode::F8)
    } else if str_eq(token, "F9") {
        Some(KeyCode::F9)
    } else if str_eq(token, "F10") {
        Some(KeyCode::F10)
    } else if str_eq(token, "F11") {
        Some(KeyCode::F11)
    } else if str_eq(token, "F12") {
        Some(KeyCode::F12)
    } else if str_eq(token, "Space") {
        Some(KeyCode::Space)
    } else if str_eq(token, "Enter") {
        Some(KeyCode::Enter)
    } else if str_eq(token, "Escape") {
        Some(KeyCode::Escape)
    } else if str_eq(token, "Tab") {
        Some(KeyCode::Tab)
    } else if str_eq(token, "Backspace") {
        Some(KeyCode::Backspace)
    } else if str_eq(token, "KeyA") {
        Some(KeyCode::KeyA)
    } else if str_eq(token, "KeyB") {
        Some(KeyCode::KeyB)
    } else if str_eq(token, "KeyC") {
        Some(KeyCode::KeyC)
    } else if str_eq(token, "KeyD") {
        Some(KeyCode::KeyD)
    } else if str_eq(token, "KeyE") {
        Some(KeyCode::KeyE)
    } else if str_eq(token, "KeyF") {
        Some(KeyCode::KeyF)
    } else if str_eq(token, "KeyG") {
        Some(KeyCode::KeyG)
    } else if str_eq(token, "KeyH") {
        Some(KeyCode::KeyH)
    } else if str_eq(token, "KeyI") {
        Some(KeyCode::KeyI)
    } else if str_eq(token, "KeyJ") {
        Some(KeyCode::KeyJ)
    } else if str_eq(token, "KeyK") {
        Some(KeyCode::KeyK)
    } else if str_eq(token, "KeyL") {
        Some(KeyCode::KeyL)
    } else if str_eq(token, "KeyM") {
        Some(KeyCode::KeyM)
    } else if str_eq(token, "KeyN") {
        Some(KeyCode::KeyN)
    } else if str_eq(token, "KeyO") {
        Some(KeyCode::KeyO)
    } else if str_eq(token, "KeyP") {
        Some(KeyCode::KeyP)
    } else if str_eq(token, "KeyQ") {
        Some(KeyCode::KeyQ)
    } else if str_eq(token, "KeyR") {
        Some(KeyCode::KeyR)
    } else if str_eq(token, "KeyS") {
        Some(KeyCode::KeyS)
    } else if str_eq(token, "KeyT") {
        Some(KeyCode::KeyT)
    } else if str_eq(token, "KeyU") {
        Some(KeyCode::KeyU)
    } else if str_eq(token, "KeyV") {
        Some(KeyCode::KeyV)
    } else if str_eq(token, "KeyW") {
        Some(KeyCode::KeyW)
    } else if str_eq(token, "KeyX") {
        Some(KeyCode::KeyX)
    } else if str_eq(token, "KeyY") {
        Some(KeyCode::KeyY)
    } else if str_eq(token, "KeyZ") {
        Some(KeyCode::KeyZ)
    } else {
        None
    }
}

fn parse_extra_key(token: &str) -> (r: Option<KeyCode>)
    ensures
        r == extra_key(token@),
{
    if str_eq(token, "PageUp") {
        Some(KeyCode::PageUp)
    } else if str_eq(token, "PageDown") {
        Some(KeyCode::PageDown)
    } else if str_eq(token, "ArrowUp") {
        Some(KeyCode::ArrowUp)
    } else if str_eq(token, "ArrowDown") {
        Some(KeyCode::ArrowDown)
    } else if str_eq(token, "ArrowLeft") {
        Some(KeyCode::ArrowLeft)
    } else if str_eq(token, "ArrowRight") {
        Some(KeyCode::ArrowRight)
    } else if str_eq(token, "A") {
        Some(KeyCode::KeyA)
    } else if str_eq(token, "B") {
        Some(KeyCode::KeyB)
    } else if str_eq(token, "C") {
        Some(KeyCode::KeyC)
    } else if str_eq(token, "D") {
        Some(KeyCode::KeyD)
    } else if str_eq(token, "E") {
        Some(KeyCode::KeyE)
    } else if str_eq(token, "F") {
        Some(KeyCode::KeyF)
    } else if str_eq(token, "G") {
        Some(KeyCode::KeyG)
    } else if str_eq(token, "H") {
        Some(KeyCode::KeyH)
    } else if str_eq(token, "I") {
        Some(KeyCode::KeyI)
    } else if str_eq(token, "J") {
        Some(KeyCode::KeyJ)
    } else if str_eq(token, "K") {
        Some(KeyCode::KeyK)
    } else if str_eq(token, "L") {
        Some(KeyCode::KeyL)
    } else if str_eq(token, "M") {
        Some(KeyCode::KeyM)
    } else if str_eq(token, "N") {
        Some(KeyCode::KeyN)
    } else if str_eq(token, "O") {
        Some(KeyCode::KeyO)
    } else if str_eq(token, "P") {
        Some(KeyCode::KeyP)
    } else if str_eq(token, "Q") {
        Some(KeyCode::KeyQ)
    } else if str_eq(token, "R") {
        Some(KeyCode::KeyR)
    } else if str_eq(token, "S") {
        Some(KeyCode::KeyS)
    } else if str_eq(token, "T") {
        Some(KeyCode::KeyT)
    } else if str_eq(token, "U") {
        Some(KeyCode::KeyU)
    } else if str_eq(token, "V") {
        Some(KeyCode::KeyV)
    } else if str_eq(token, "W") {
        Some(KeyCode::KeyW)
    } else if str_eq(token, "X") {
        Some(KeyCode::KeyX)
    } else if str_eq(token, "Y") {
        Some(KeyCode::KeyY)
    } else if str_eq(token, "Z") {
        Some(KeyCode::KeyZ)
    } else if str_eq(token, "Digit1") {
        Some(KeyCode::Digit1)
    } else if str_eq(token, "Digit2") {
        Some(KeyCode::Digit2)
    } else if str_eq(token, "Digit3") {
        Some(KeyCode::Digit3)
    } else if str_eq(token, "Digit4") {
        Some(KeyCode::Digit4)
    } else if str_eq(token, "Digit5") {
        Some(KeyCode::Digit5)
    } else if str_eq(token, "Digit6") {
        Some(KeyCode::Digit6)
    } else if str_eq(token, "Digit7") {
        Some(KeyCode::Digit7)
    } else if str_eq(token, "Digit8") {
        Some(KeyCode::Digit8)
    } else if str_eq(token, "Digit9") {
        Some(KeyCode::Digit9)
    } else if str_eq(token, "Digit0") {
        Some(KeyCode::Digit0)
    } else if str_eq(token, "1") {
        Some(KeyCode::Digit1)
    } else if str_eq(token, "2") {
        Some(KeyCode::Digit2)
    } else if str_eq(token, "3") {
        Some(KeyCode::Digit3)
    } else if str_eq(token, "4") {
        Some(KeyCode::Digit4)
    } else if str_eq(token, "5") {
        Some(KeyCode::Digit5)
    } else if str_eq(token, "6") {
        Some(KeyCode::Digit6)
    } else if str_eq(token, "7") {
        Some(KeyCode::Digit7)
    } else if str_eq(token, "8") {
        Some(KeyCode::Digit8)
    } else if str_eq(token, "9") {
        Some(KeyCode::Digit9)
    } else if str_eq(token, "0") {
        Some(KeyCode::Digit0)
    } else {
        None
    }
}

/// Resolves a token against the whole key table; `None` when the token names
/// no key.
pub fn parse_key_code(token: &str) -> (r: Option<KeyCode>)
    ensures
        r == key_table(token@),
{
    match parse_hotkey_code(token) {
        Some(k) => Some(k),
        None => parse_extra_key(token),
    }
}

/// Every primary name is in the whole table, with the same key.
pub proof fn lemma_primary_in_table(t: Seq<char>)
    requires
        primary_key(t).is_some(),
    ensures
        key_table(t) == primary_key(t),
{
}

} // verus!
