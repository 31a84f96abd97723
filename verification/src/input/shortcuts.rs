use vstd::prelude::*;
use vstd::string::*;

use crate::input::actions::{
    action_contexts, action_index, ActionContext, lemma_action_index_injective, lemma_action_index_inverse, AppAction,
    ACTION_COUNT,
};

verus! {

broadcast use vstd::seq_lib::group_filter_ensures;

/// Serializable modifier flags.
#[derive(Debug, Clone, Copy, PartialEq, Eq, Hash, Structural)]
pub struct ModifierSet {
    pub ctrl: bool,
    pub shift: bool,
    pub alt: bool,
    pub command: bool,
}

/// A single keybind (modifiers and a key).
#[derive(Debug, Clone, Copy, PartialEq, Eq, Hash, Structural)]
pub struct Keybind {
    pub modifiers: ModifierSet,
    pub key: KeyCode,
}

/// Serializable key (a subset of the keys a keyboard reports).
#[derive(Debug, Clone, Copy, PartialEq, Eq, Hash, Structural)]
pub enum KeyCode {
    A,
    B,
    C,
    D,
    E,
    F,
    G,
    H,
    I,
    J,
    K,
    L,
    M,
    N,
    O,
    P,
    Q,
    R,
    S,
    T,
    U,
    V,
    W,
    X,
    Y,
    Z,
    Num0,
    Num1,
    Num2,
    Num3,
    Num4,
    Num5,
    Num6,
    Num7,
    Num8,
    Num9,
    Space,
    Enter,
    Escape,
    Backspace,
    Delete,
    Tab,
    ArrowUp,
    ArrowDown,
    ArrowLeft,
    ArrowRight,
    Home,
    End,
    PageUp,
    PageDown,
    F1,
    F2,
    F3,
    F4,
    F5,
    F6,
    F7,
    F8,
    F9,
    F10,
    F11,
    F12,
}

/// The number of keys.
pub const KEY_COUNT: usize = 62;

/// The position of a key in declaration order.
pub open spec fn key_index(k: KeyCode) -> nat {
    match k {
        KeyCode::A => 0,
        KeyCode::B => 1,
        KeyCode::C => 2,
        KeyCode::D => 3,
        KeyCode::E => 4,
        KeyCode::F => 5,
        KeyCode::G => 6,
        KeyCode::H => 7,
        KeyCode::I => 8,
        KeyCode::J => 9,
        KeyCode::K => 10,
        KeyCode::L => 11,
        KeyCode::M => 12,
        KeyCode::N => 13,
        KeyCode::O => 14,
        KeyCode::P => 15,
        KeyCode::Q => 16,
        KeyCode::R => 17,
        KeyCode::S => 18,
        KeyCode::T => 19,
        KeyCode::U => 20,
        KeyCode::V => 21,
        KeyCode::W => 22,
        KeyCode::X => 23,
        KeyCode::Y => 24,
        KeyCode::Z => 25,
        KeyCode::Num0 => 26,
        KeyCode::Num1 => 27,
        KeyCode::Num2 => 28,
        KeyCode::Num3 => 29,
        KeyCode::Num4 => 30,
        KeyCode::Num5 => 31,
        KeyCode::Num6 => 32,
        KeyCode::Num7 => 33,
        KeyCode::Num8 => 34,
        KeyCode::Num9 => 35,
        KeyCode::Space => 36,
        KeyCode::Enter => 37,
        KeyCode::Escape => 38,
        KeyCode::Backspace => 39,
        KeyCode::Delete => 40,
        KeyCode::Tab => 41,
        KeyCode::ArrowUp => 42,
        KeyCode::ArrowDown => 43,
        KeyCode::ArrowLeft => 44,
        KeyCode::ArrowRight => 45,
        KeyCode::Home => 46,
        KeyCode::End => 47,
        KeyCode::PageUp => 48,
        KeyCode::PageDown => 49,
        KeyCode::F1 => 50,
        KeyCode::F2 => 51,
        KeyCode::F3 => 52,
        KeyCode::F4 => 53,
        KeyCode::F5 => 54,
        KeyCode::F6 => 55,
        KeyCode::F7 => 56,
        KeyCode::F8 => 57,
        KeyCode::F9 => 58,
        KeyCode::F10 => 59,
        KeyCode::F11 => 60,
        KeyCode::F12 => 61,
    }
}

/// The key at a position of declaration order.
pub open spec fn key_at(i: nat) -> KeyCode {
    if i == 0 { KeyCode::A }
    else if i == 1 { KeyCode::B }
    else if i == 2 { KeyCode::C }
    else if i == 3 { KeyCode::D }
    else if i == 4 { KeyCode::E }
    else if i == 5 { KeyCode::F }
    else if i == 6 { KeyCode::G }
    else if i == 7 { KeyCode::H }
    else if i == 8 { KeyCode::I }
    else if i == 9 { KeyCode::J }
    else if i == 10 { KeyCode::K }
    else if i == 11 { KeyCode::L }
    else if i == 12 { KeyCode::M }
    else if i == 13 { KeyCode::N }
    else if i == 14 { KeyCode::O }
    else if i == 15 { KeyCode::P }
    else if i == 16 { KeyCode::Q }
    else if i == 17 { KeyCode::R }
    else if i == 18 { KeyCode::S }
    else if i == 19 { KeyCode::T }
    else if i == 20 { KeyCode::U }
    else if i == 21 { KeyCode::V }
    else if i == 22 { KeyCode::W }
    else if i == 23 { KeyCode::X }
    else if i == 24 { KeyCode::Y }
    else if i == 25 { KeyCode::Z }
    else if i == 26 { KeyCode::Num0 }
    else if i == 27 { KeyCode::Num1 }
    else if i == 28 { KeyCode::Num2 }
    else if i == 29 { KeyCode::Num3 }
    else if i == 30 { KeyCode::Num4 }
    else if i == 31 { KeyCode::Num5 }
    else if i == 32 { KeyCode::Num6 }
    else if i == 33 { KeyCode::Num7 }
    else if i == 34 { KeyCode::Num8 }
    else if i == 35 { KeyCode::Num9 }
    else if i == 36 { KeyCode::Space }
    else if i == 37 { KeyCode::Enter }
    else if i == 38 { KeyCode::Escape }
    else if i == 39 { KeyCode::Backspace }
    else if i == 40 { KeyCode::Delete }
    else if i == 41 { KeyCode::Tab }
    else if i == 42 { KeyCode::ArrowUp }
    else if i == 43 { KeyCode::ArrowDown }
    else if i == 44 { KeyCode::ArrowLeft }
    else if i == 45 { KeyCode::ArrowRight }
    else if i == 46 { KeyCode::Home }
    else if i == 47 { KeyCode::End }
    else if i == 48 { KeyCode::PageUp }
    else if i == 49 { KeyCode::PageDown }
    else if i == 50 { KeyCode::F1 }
    else if i == 51 { KeyCode::F2 }
    else if i == 52 { KeyCode::F3 }
    else if i == 53 { KeyCode::F4 }
    else if i == 54 { KeyCode::F5 }
    else if i == 55 { KeyCode::F6 }
    else if i == 56 { KeyCode::F7 }
    else if i == 57 { KeyCode::F8 }
    else if i == 58 { KeyCode::F9 }
    else if i == 59 { KeyCode::F10 }
    else if i == 60 { KeyCode::F11 }
    else { KeyCode::F12 }
}

/// The name under which a key is displayed (its variant name).
pub open spec fn key_name(k: KeyCode) -> Seq<char> {
    match k {
        KeyCode::A => "A"@,
        KeyCode::B => "B"@,
        KeyCode::C => "C"@,
        KeyCode::D => "D"@,
        KeyCode::E => "E"@,
        KeyCode::F => "F"@,
        KeyCode::G => "G"@,
        KeyCode::H => "H"@,
        KeyCode::I => "I"@,
        KeyCode::J => "J"@,
        KeyCode::K => "K"@,
        KeyCode::L => "L"@,
        KeyCode::M => "M"@,
        KeyCode::N => "N"@,
        KeyCode::O => "O"@,
        KeyCode::P => "P"@,
        KeyCode::Q => "Q"@,
        KeyCode::R => "R"@,
        KeyCode::S => "S"@,
        KeyCode::T => "T"@,
        KeyCode::U => "U"@,
        KeyCode::V => "V"@,
        KeyCode::W => "W"@,
        KeyCode::X => "X"@,
        KeyCode::Y => "Y"@,
        KeyCode::Z => "Z"@,
        KeyCode::Num0 => "Num0"@,
        KeyCode::Num1 => "Num1"@,
        KeyCode::Num2 => "Num2"@,
        KeyCode::Num3 => "Num3"@,
        KeyCode::Num4 => "Num4"@,
        KeyCode::Num5 => "Num5"@,
        KeyCode::Num6 => "Num6"@,
        KeyCode::Num7 => "Num7"@,
        KeyCode::Num8 => "Num8"@,
        KeyCode::Num9 => "Num9"@,
        KeyCode::Space => "Space"@,
        KeyCode::Enter => "Enter"@,
        KeyCode::Escape => "Escape"@,
        KeyCode::Backspace => "Backspace"@,
        KeyCode::Delete => "Delete"@,
        KeyCode::Tab => "Tab"@,
        KeyCode::ArrowUp => "ArrowUp"@,
        KeyCode::ArrowDown => "ArrowDown"@,
        KeyCode::ArrowLeft => "ArrowLeft"@,
        KeyCode::ArrowRight => "ArrowRight"@,
        KeyCode::Home => "Home"@,
        KeyCode::End => "End"@,
        KeyCode::PageUp => "PageUp"@,
        KeyCode::PageDown => "PageDown"@,
        KeyCode::F1 => "F1"@,
        KeyCode::F2 => "F2"@,
        KeyCode::F3 => "F3"@,
        KeyCode::F4 => "F4"@,
        KeyCode::F5 => "F5"@,
        KeyCode::F6 => "F6"@,
        KeyCode::F7 => "F7"@,
        KeyCode::F8 => "F8"@,
        KeyCode::F9 => "F9"@,
        KeyCode::F10 => "F10"@,
        KeyCode::F11 => "F11"@,
        KeyCode::F12 => "F12"@,
    }
}

/// A key name's length, first character and last character.
spec fn key_name_key(s: Seq<char>) -> (nat, char, char) {
    (s.len(), s[0], s[s.len() - 1])
}

/// The key whose name has the given length, first and last character.
spec fn key_of_name_key(k: (nat, char, char)) -> Option<KeyCode> {
    if k == (1nat, 'A', 'A') {
        Some(KeyCode::A)
    } else if k == (1nat, 'B', 'B') {
        Some(KeyCode::B)
    } else if k == (1nat, 'C', 'C') {
        Some(KeyCode::C)
    } else if k == (1nat, 'D', 'D') {
        Some(KeyCode::D)
    } else if k == (1nat, 'E', 'E') {
        Some(KeyCode::E)
    } else if k == (1nat, 'F', 'F') {
        Some(KeyCode::F)
    } else if k == (1nat, 'G', 'G') {
        Some(KeyCode::G)
    } else if k == (1nat, 'H', 'H') {
        Some(KeyCode::H)
    } else if k == (1nat, 'I', 'I') {
        Some(KeyCode::I)
    } else if k == (1nat, 'J', 'J') {
        Some(KeyCode::J)
    } else if k == (1nat, 'K', 'K') {
        Some(KeyCode::K)
    } else if k == (1nat, 'L', 'L') {
        Some(KeyCode::L)
    } else if k == (1nat, 'M', 'M') {
        Some(KeyCode::M)
    } else if k == (1nat, 'N', 'N') {
        Some(KeyCode::N)
    } else if k == (1nat, 'O', 'O') {
        Some(KeyCode::O)
    } else if k == (1nat, 'P', 'P') {
        Some(KeyCode::P)
    } else if k == (1nat, 'Q', 'Q') {
        Some(KeyCode::Q)
    } else if k == (1nat, 'R', 'R') {
        Some(KeyCode::R)
    } else if k == (1nat, 'S', 'S') {
        Some(KeyCode::S)
    } else if k == (1nat, 'T', 'T') {
        Some(KeyCode::T)
    } else if k == (1nat, 'U', 'U') {
        Some(KeyCode::U)
    } else if k == (1nat, 'V', 'V') {
        Some(KeyCode::V)
    } else if k == (1nat, 'W', 'W') {
        Some(KeyCode::W)
    } else if k == (1nat, 'X', 'X') {
        Some(KeyCode::X)
    } else if k == (1nat, 'Y', 'Y') {
        Some(KeyCode::Y)
    } else if k == (1nat, 'Z', 'Z') {
        Some(KeyCode::Z)
    } else if k == (4nat, 'N', '0') {
        Some(KeyCode::Num0)
    } else if k == (4nat, 'N', '1') {
        Some(KeyCode::Num1)
    } else if k == (4nat, 'N', '2') {
        Some(KeyCode::Num2)
    } else if k == (4nat, 'N', '3') {
        Some(KeyCode::Num3)
    } else if k == (4nat, 'N', '4') {
        Some(KeyCode::Num4)
    } else if k == (4nat, 'N', '5') {
        Some(KeyCode::Num5)
    } else if k == (4nat, 'N', '6') {
        Some(KeyCode::Num6)
    } else if k == (4nat, 'N', '7') {
        Some(KeyCode::Num7)
    } else if k == (4nat, 'N', '8') {
        Some(KeyCode::Num8)
    } else if k == (4nat, 'N', '9') {
        Some(KeyCode::Num9)
    } else if k == (5nat, 'S', 'e') {
        Some(KeyCode::Space)
    } else if k == (5nat, 'E', 'r') {
        Some(KeyCode::Enter)
    } else if k == (6nat, 'E', 'e') {
        Some(KeyCode::Escape)
    } else if k == (9nat, 'B', 'e') {
        Some(KeyCode::Backspace)
    } else if k == (6nat, 'D', 'e') {
        Some(KeyCode::Delete)
    } else if k == (3nat, 'T', 'b') {
        Some(KeyCode::Tab)
    } else if k == (7nat, 'A', 'p') {
        Some(KeyCode::ArrowUp)
    } else if k == (9nat, 'A', 'n') {
        Some(KeyCode::ArrowDown)
    } else if k == (9nat, 'A', 't') {
        Some(KeyCode::ArrowLeft)
    } else if k == (10nat, 'A', 't') {
        Some(KeyCode::ArrowRight)
    } else if k == (4nat, 'H', 'e') {
        Some(KeyCode::Home)
    } else if k == (3nat, 'E', 'd') {
        Some(KeyCode::End)
    } else if k == (6nat, 'P', 'p') {
        Some(KeyCode::PageUp)
    } else if k == (8nat, 'P', 'n') {
        Some(KeyCode::PageDown)
    } else if k == (2nat, 'F', '1') {
        Some(KeyCode::F1)
    } else if k == (2nat, 'F', '2') {
        Some(KeyCode::F2)
    } else if k == (2nat, 'F', '3') {
        Some(KeyCode::F3)
    } else if k == (2nat, 'F', '4') {
        Some(KeyCode::F4)
    } else if k == (2nat, 'F', '5') {
        Some(KeyCode::F5)
    } else if k == (2nat, 'F', '6') {
        Some(KeyCode::F6)
    } else if k == (2nat, 'F', '7') {
        Some(KeyCode::F7)
    } else if k == (2nat, 'F', '8') {
        Some(KeyCode::F8)
    } else if k == (2nat, 'F', '9') {
        Some(KeyCode::F9)
    } else if k == (3nat, 'F', '0') {
        Some(KeyCode::F10)
    } else if k == (3nat, 'F', '1') {
        Some(KeyCode::F11)
    } else if k == (3nat, 'F', '2') {
        Some(KeyCode::F12)
    } else {
        None
    }
}

/// Each key's name, and what singles the key out by its name.
proof fn lemma_key_name_facts(k: KeyCode)
    ensures
        key_name(k).len() > 0,
        key_of_name_key(key_name_key(key_name(k))) == Some(k),
        key_index(k) < 26 ==> key_name(k) == seq![(65 + key_index(k)) as char],
        26 <= key_index(k) < 36 ==> key_name(k) == "Num"@ + seq![(48 + key_index(k) - 26) as char],
        50 <= key_index(k) < 59 ==> key_name(k) == seq!['F', (48 + key_index(k) - 49) as char],
        59 <= key_index(k) < 62 ==> key_name(k) == seq!['F', '1', (48 + key_index(k) - 59) as char],
{
    match k {
        KeyCode::A => {
            reveal_strlit("A");
        },
        KeyCode::B => {
            reveal_strlit("B");
        },
        KeyCode::C => {
            reveal_strlit("C");
        },
        KeyCode::D => {
            reveal_strlit("D");
        },
        KeyCode::E => {
            reveal_strlit("E");
        },
        KeyCode::F => {
            reveal_strlit("F");
        },
        KeyCode::G => {
            reveal_strlit("G");
        },
        KeyCode::H => {
            reveal_strlit("H");
        },
        KeyCode::I => {
            reveal_strlit("I");
        },
        KeyCode::J => {
            reveal_strlit("J");
        },
        KeyCode::K => {
            reveal_strlit("K");
        },
        KeyCode::L => {
            reveal_strlit("L");
        },
        KeyCode::M => {
            reveal_strlit("M");
        },
        KeyCode::N => {
            reveal_strlit("N");
        },
        KeyCode::O => {
            reveal_strlit("O");
        },
        KeyCode::P => {
            reveal_strlit("P");
        },
        KeyCode::Q => {
            reveal_strlit("Q");
        },
        KeyCode::R => {
            reveal_strlit("R");
        },
        KeyCode::S => {
            reveal_strlit("S");
        },
        KeyCode::T => {
            reveal_strlit("T");
        },
        KeyCode::U => {
            reveal_strlit("U");
        },
        KeyCode::V => {
            reveal_strlit("V");
        },
        KeyCode::W => {
            reveal_strlit("W");
        },
        KeyCode::X => {
            reveal_strlit("X");
        },
        KeyCode::Y => {
            reveal_strlit("Y");
        },
        KeyCode::Z => {
            reveal_strlit("Z");
        },
        KeyCode::Num0 => {
            reveal_strlit("Num0"); reveal_strlit("Num");
        },
        KeyCode::Num1 => {
            reveal_strlit("Num1"); reveal_strlit("Num");
        },
        KeyCode::Num2 => {
            reveal_strlit("Num2"); reveal_strlit("Num");
        },
        KeyCode::Num3 => {
            reveal_strlit("Num3"); reveal_strlit("Num");
        },
        KeyCode::Num4 => {
            reveal_strlit("Num4"); reveal_strlit("Num");
        },
        KeyCode::Num5 => {
            reveal_strlit("Num5"); reveal_strlit("Num");
        },
        KeyCode::Num6 => {
            reveal_strlit("Num6"); reveal_strlit("Num");
        },
        KeyCode::Num7 => {
            reveal_strlit("Num7"); reveal_strlit("Num");
        },
        KeyCode::Num8 => {
            reveal_strlit("Num8"); reveal_strlit("Num");
        },
        KeyCode::Num9 => {
            reveal_strlit("Num9"); reveal_strlit("Num");
        },
        KeyCode::Space => {
            reveal_strlit("Space");
        },
        KeyCode::Enter => {
            reveal_strlit("Enter");
        },
        KeyCode::Escape => {
            reveal_strlit("Escape");
        },
        KeyCode::Backspace => {
            reveal_strlit("Backspace");
        },
        KeyCode::Delete => {
            reveal_strlit("Delete");
        },
        KeyCode::Tab => {
            reveal_strlit("Tab");
        },
        KeyCode::ArrowUp => {
            reveal_strlit("ArrowUp");
        },
        KeyCode::ArrowDown => {
            reveal_strlit("ArrowDown");
        },
        KeyCode::ArrowLeft => {
            reveal_strlit("ArrowLeft");
        },
        KeyCode::ArrowRight => {
            reveal_strlit("ArrowRight");
        },
        KeyCode::Home => {
            reveal_strlit("Home");
        },
        KeyCode::End => {
            reveal_strlit("End");
        },
        KeyCode::PageUp => {
            reveal_strlit("PageUp");
        },
        KeyCode::PageDown => {
            reveal_strlit("PageDown");
        },
        KeyCode::F1 => {
            reveal_strlit("F1");
        },
        KeyCode::F2 => {
            reveal_strlit("F2");
        },
        KeyCode::F3 => {
            reveal_strlit("F3");
        },
        KeyCode::F4 => {
            reveal_strlit("F4");
        },
        KeyCode::F5 => {
            reveal_strlit("F5");
        },
        KeyCode::F6 => {
            reveal_strlit("F6");
        },
        KeyCode::F7 => {
            reveal_strlit("F7");
        },
        KeyCode::F8 => {
            reveal_strlit("F8");
        },
        KeyCode::F9 => {
            reveal_strlit("F9");
        },
        KeyCode::F10 => {
            reveal_strlit("F10");
        },
        KeyCode::F11 => {
            reveal_strlit("F11");
        },
        KeyCode::F12 => {
            reveal_strlit("F12");
        },
    }
}

/// The text of a key is the name of the key: letters are themselves, in
/// order from A; digit keys are "Num" and their digit, in order from 0;
/// function keys are "F" and their number, in order from 1; the others are
/// named in full. Every key has a name, and no two keys share one.
pub proof fn lemma_key_names(k1: KeyCode, k2: KeyCode)
    ensures
        key_name(k1).len() > 0,
        k1 != k2 ==> key_name(k1) != key_name(k2),
        key_index(k1) < 26 ==> key_name(k1) == seq![(65 + key_index(k1)) as char],
        26 <= key_index(k1) < 36 ==> key_name(k1) == "Num"@ + seq![(48 + key_index(k1) - 26) as char],
        50 <= key_index(k1) < 59 ==> key_name(k1) == seq!['F', (48 + key_index(k1) - 49) as char],
        59 <= key_index(k1) < 62 ==> key_name(k1) == seq!['F', '1', (48 + key_index(k1) - 59) as char],
        key_name(KeyCode::Space) == "Space"@,
        key_name(KeyCode::Enter) == "Enter"@,
        key_name(KeyCode::Escape) == "Escape"@,
        key_name(KeyCode::Backspace) == "Backspace"@,
        key_name(KeyCode::Delete) == "Delete"@,
        key_name(KeyCode::Tab) == "Tab"@,
        key_name(KeyCode::ArrowUp) == "ArrowUp"@,
        key_name(KeyCode::ArrowDown) == "ArrowDown"@,
        key_name(KeyCode::ArrowLeft) == "ArrowLeft"@,
        key_name(KeyCode::ArrowRight) == "ArrowRight"@,
        key_name(KeyCode::Home) == "Home"@,
        key_name(KeyCode::End) == "End"@,
        key_name(KeyCode::PageUp) == "PageUp"@,
        key_name(KeyCode::PageDown) == "PageDown"@,
{
    lemma_key_name_facts(k1);
    lemma_key_name_facts(k2);
    reveal_strlit("Space");
    reveal_strlit("Enter");
    reveal_strlit("Escape");
    reveal_strlit("Backspace");
    reveal_strlit("Delete");
    reveal_strlit("Tab");
    reveal_strlit("ArrowUp");
    reveal_strlit("ArrowDown");
    reveal_strlit("ArrowLeft");
    reveal_strlit("ArrowRight");
    reveal_strlit("Home");
    reveal_strlit("End");
    reveal_strlit("PageUp");
    reveal_strlit("PageDown");
}


/// Keys are numbered by their position.
pub proof fn lemma_key_index_inverse(k: KeyCode)
    ensures
        key_index(k) < KEY_COUNT,
        key_at(key_index(k)) == k,
{
}

impl KeyCode {
    /// The position of this key in declaration order.
    pub fn index(&self) -> (r: usize)
        ensures
            r == key_index(*self),
            r < KEY_COUNT,
    {
        match self {
            KeyCode::A => 0,
            KeyCode::B => 1,
            KeyCode::C => 2,
            KeyCode::D => 3,
            KeyCode::E => 4,
            KeyCode::F => 5,
            KeyCode::G => 6,
            KeyCode::H => 7,
            KeyCode::I => 8,
            KeyCode::J => 9,
            KeyCode::K => 10,
            KeyCode::L => 11,
            KeyCode::M => 12,
            KeyCode::N => 13,
            KeyCode::O => 14,
            KeyCode::P => 15,
            KeyCode::Q => 16,
            KeyCode::R => 17,
            KeyCode::S => 18,
            KeyCode::T => 19,
            KeyCode::U => 20,
            KeyCode::V => 21,
            KeyCode::W => 22,
            KeyCode::X => 23,
            KeyCode::Y => 24,
            KeyCode::Z => 25,
            KeyCode::Num0 => 26,
            KeyCode::Num1 => 27,
            KeyCode::Num2 => 28,
            KeyCode::Num3 => 29,
            KeyCode::Num4 => 30,
            KeyCode::Num5 => 31,
            KeyCode::Num6 => 32,
            KeyCode::Num7 => 33,
            KeyCode::Num8 => 34,
            KeyCode::Num9 => 35,
            KeyCode::Space => 36,
            KeyCode::Enter => 37,
            KeyCode::Escape => 38,
            KeyCode::Backspace => 39,
            KeyCode::Delete => 40,
            KeyCode::Tab => 41,
            KeyCode::ArrowUp => 42,
            KeyCode::ArrowDown => 43,
            KeyCode::ArrowLeft => 44,
            KeyCode::ArrowRight => 45,
            KeyCode::Home => 46,
            KeyCode::End => 47,
            KeyCode::PageUp => 48,
            KeyCode::PageDown => 49,
            KeyCode::F1 => 50,
            KeyCode::F2 => 51,
            KeyCode::F3 => 52,
            KeyCode::F4 => 53,
            KeyCode::F5 => 54,
            KeyCode::F6 => 55,
            KeyCode::F7 => 56,
            KeyCode::F8 => 57,
            KeyCode::F9 => 58,
            KeyCode::F10 => 59,
            KeyCode::F11 => 60,
            KeyCode::F12 => 61,
        }
    }

    /// The display name of this key.
    pub fn name(&self) -> (r: &'static str)
        ensures
            r@ == key_name(*self),
    {
        match self {
            KeyCode::A => "A",
            KeyCode::B => "B",
            KeyCode::C => "C",
            KeyCode::D => "D",
            KeyCode::E => "E",
            KeyCode::F => "F",
            KeyCode::G => "G",
            KeyCode::H => "H",
            KeyCode::I => "I",
            KeyCode::J => "J",
            KeyCode::K => "K",
            KeyCode::L => "L",
            KeyCode::M => "M",
            KeyCode::N => "N",
            KeyCode::O => "O",
            KeyCode::P => "P",
            KeyCode::Q => "Q",
            KeyCode::R => "R",
            KeyCode::S => "S",
            KeyCode::T => "T",
            KeyCode::U => "U",
            KeyCode::V => "V",
            KeyCode::W => "W",
            KeyCode::X => "X",
            KeyCode::Y => "Y",
            KeyCode::Z => "Z",
            KeyCode::Num0 => "Num0",
            KeyCode::Num1 => "Num1",
            KeyCode::Num2 => "Num2",
            KeyCode::Num3 => "Num3",
            KeyCode::Num4 => "Num4",
            KeyCode::Num5 => "Num5",
            KeyCode::Num6 => "Num6",
            KeyCode::Num7 => "Num7",
            KeyCode::Num8 => "Num8",
            KeyCode::Num9 => "Num9",
            KeyCode::Space => "Space",
            KeyCode::Enter => "Enter",
            KeyCode::Escape => "Escape",
            KeyCode::Backspace => "Backspace",
            KeyCode::Delete => "Delete",
            KeyCode::Tab => "Tab",
            KeyCode::ArrowUp => "ArrowUp",
            KeyCode::ArrowDown => "ArrowDown",
            KeyCode::ArrowLeft => "ArrowLeft",
            KeyCode::ArrowRight => "ArrowRight",
            KeyCode::Home => "Home",
            KeyCode::End => "End",
            KeyCode::PageUp => "PageUp",
            KeyCode::PageDown => "PageDown",
            KeyCode::F1 => "F1",
            KeyCode::F2 => "F2",
            KeyCode::F3 => "F3",
            KeyCode::F4 => "F4",
            KeyCode::F5 => "F5",
            KeyCode::F6 => "F6",
            KeyCode::F7 => "F7",
            KeyCode::F8 => "F8",
            KeyCode::F9 => "F9",
            KeyCode::F10 => "F10",
            KeyCode::F11 => "F11",
            KeyCode::F12 => "F12",
        }
    }
}

/// The number of distinct keybinds.
pub const KEYBIND_COUNT: usize = 992;

/// The modifier flags read as a four-bit number.
pub open spec fn modifier_index(m: ModifierSet) -> nat {
    (if m.ctrl { 8nat } else { 0nat }) + (if m.shift { 4nat } else { 0nat }) + (if m.alt {
        2nat
    } else {
        0nat
    }) + (if m.command { 1nat } else { 0nat })
}

/// A numbering of all keybinds.
pub open spec fn keybind_index(k: Keybind) -> nat {
    modifier_index(k.modifiers) * 62 + key_index(k.key)
}

/// The numbering of keybinds is one-to-one and below `KEYBIND_COUNT`.
pub proof fn lemma_keybind_index_injective(a: Keybind, b: Keybind)
    ensures
        keybind_index(a) < KEYBIND_COUNT,
        keybind_index(a) == keybind_index(b) ==> a == b,
{
    lemma_key_index_inverse(a.key);
    lemma_key_index_inverse(b.key);
    if keybind_index(a) == keybind_index(b) {
        assert(modifier_index(a.modifiers) == modifier_index(b.modifiers));
        assert(key_index(a.key) == key_index(b.key));
        assert(a.modifiers == b.modifiers);
        assert(a.key == b.key);
    }
}

/// The text under which a keybind is shown, such as "Ctrl+Shift+S", where
/// the command modifier is shown as "Ctrl".
pub open spec fn keybind_text(k: Keybind) -> Seq<char> {
    (if k.modifiers.command { "Ctrl+"@ } else { Seq::empty() }) + (if k.modifiers.ctrl {
        "Ctrl+"@
    } else {
        Seq::empty()
    }) + (if k.modifiers.shift { "Shift+"@ } else { Seq::empty() }) + (if k.modifiers.alt {
        "Alt+"@
    } else {
        Seq::empty()
    }) + key_name(k.key)
}

/// The text under which a keybind is shown where the command key is Cmd
/// (macOS), such as "Cmd+Shift+S": the control modifier is not shown.
pub open spec fn keybind_text_cmd(k: Keybind) -> Seq<char> {
    (if k.modifiers.command { "Cmd+"@ } else { Seq::empty() }) + (if k.modifiers.shift {
        "Shift+"@
    } else {
        Seq::empty()
    }) + (if k.modifiers.alt { "Alt+"@ } else { Seq::empty() }) + key_name(k.key)
}

impl ModifierSet {
    /// No modifier.
    pub fn none() -> (r: Self)
        ensures
            r == (ModifierSet { ctrl: false, shift: false, alt: false, command: false }),
    {
        ModifierSet { ctrl: false, shift: false, alt: false, command: false }
    }

    /// The command modifier alone.
    pub fn command_only() -> (r: Self)
        ensures
            r == (ModifierSet { ctrl: false, shift: false, alt: false, command: true }),
    {
        ModifierSet { ctrl: false, shift: false, alt: false, command: true }
    }

    /// The shift modifier alone.
    pub fn shift_only() -> (r: Self)
        ensures
            r == (ModifierSet { ctrl: false, shift: true, alt: false, command: false }),
    {
        ModifierSet { ctrl: false, shift: true, alt: false, command: false }
    }

    /// The alt modifier alone.
    pub fn alt_only() -> (r: Self)
        ensures
            r == (ModifierSet { ctrl: false, shift: false, alt: true, command: false }),
    {
        ModifierSet { ctrl: false, shift: false, alt: true, command: false }
    }

    /// The modifier flags read as a four-bit number.
    pub fn index(&self) -> (r: usize)
        ensures
            r == modifier_index(*self),
            r < 16,
    {
        let mut r: usize = 0;
        if self.ctrl {
            r = r + 8;
        }
        if self.shift {
            r = r + 4;
        }
        if self.alt {
            r = r + 2;
        }
        if self.command {
            r = r + 1;
        }
        r
    }
}

impl Default for ModifierSet {
    fn default() -> (r: Self)
        ensures
            r == (ModifierSet { ctrl: false, shift: false, alt: false, command: false }),
    {
        Self::none()
    }
}

impl Keybind {
    /// The key without modifiers.
    pub fn none(key: KeyCode) -> (r: Self)
        ensures
            r == (Keybind {
                modifiers: ModifierSet { ctrl: false, shift: false, alt: false, command: false },
                key,
            }),
    {
        Keybind { modifiers: ModifierSet::none(), key }
    }

    /// The key with the command modifier.
    pub fn cmd(key: KeyCode) -> (r: Self)
        ensures
            r == (Keybind {
                modifiers: ModifierSet { ctrl: false, shift: false, alt: false, command: true },
                key,
            }),
    {
        Keybind { modifiers: ModifierSet::command_only(), key }
    }

    /// The key with shift.
    pub fn shift(key: KeyCode) -> (r: Self)
        ensures
            r == (Keybind {
                modifiers: ModifierSet { ctrl: false, shift: true, alt: false, command: false },
                key,
            }),
    {
        Keybind { modifiers: ModifierSet::shift_only(), key }
    }

    /// The key with alt.
    pub fn alt(key: KeyCode) -> (r: Self)
        ensures
            r == (Keybind {
                modifiers: ModifierSet { ctrl: false, shift: false, alt: true, command: false },
                key,
            }),
    {
        Keybind { modifiers: ModifierSet::alt_only(), key }
    }

    /// The key with command and shift.
    pub fn cmd_shift(key: KeyCode) -> (r: Self)
        ensures
            r == (Keybind {
                modifiers: ModifierSet { ctrl: false, shift: true, alt: false, command: true },
                key,
            }),
    {
        Keybind {
            modifiers: ModifierSet { ctrl: false, shift: true, alt: false, command: true },
            key,
        }
    }

    /// The number of this keybind among all keybinds.
    pub fn index(&self) -> (r: usize)
        ensures
            r == keybind_index(*self),
            r < KEYBIND_COUNT,
    {
        proof {
            lemma_keybind_index_injective(*self, *self);
        }
        self.modifiers.index() * 62 + self.key.index()
    }

    /// Format for display ("Ctrl+Shift+S").
    pub fn to_string(&self) -> (r: String)
        ensures
            r@ == keybind_text(*self),
    {
        self.to_string_for(false)
    }

    /// Format for display on a platform whose command key is Cmd (macOS:
    /// "Cmd+Shift+S", the control modifier not shown) or Ctrl (elsewhere:
    /// "Ctrl+Shift+S").
    pub fn to_string_for(&self, command_is_cmd: bool) -> (r: String)
        ensures
            r@ == (if command_is_cmd {
                keybind_text_cmd(*self)
            } else {
                keybind_text(*self)
            }),
    {
        let mut s = String::new();
        if self.modifiers.command {
            if command_is_cmd {
                s.append("Cmd+");
            } else {
                s.append("Ctrl+");
            }
        }
        if self.modifiers.ctrl && !command_is_cmd {
            s.append("Ctrl+");
        }
        if self.modifiers.shift {
            s.append("Shift+");
        }
        if self.modifiers.alt {
            s.append("Alt+");
        }
        s.append(self.key.name());
        s
    }
}

/// The keybinds that the default registry gives an action.
pub open spec fn default_bindings_of(a: AppAction) -> Seq<Keybind> {
    match a {
        AppAction::PlayPause => seq![Keybind { modifiers: ModifierSet { ctrl: false, shift: false, alt: false, command: false }, key: KeyCode::Space }],
        AppAction::Stop => seq![Keybind { modifiers: ModifierSet { ctrl: false, shift: false, alt: false, command: false }, key: KeyCode::Escape }],
        AppAction::GoToStart => seq![Keybind { modifiers: ModifierSet { ctrl: false, shift: false, alt: false, command: false }, key: KeyCode::Home }],
        AppAction::Undo => seq![Keybind { modifiers: ModifierSet { ctrl: false, shift: false, alt: false, command: true }, key: KeyCode::Z }],
        AppAction::Redo => seq![Keybind { modifiers: ModifierSet { ctrl: false, shift: true, alt: false, command: true }, key: KeyCode::Z }],
        AppAction::Cut => seq![Keybind { modifiers: ModifierSet { ctrl: false, shift: false, alt: false, command: true }, key: KeyCode::X }],
        AppAction::Copy => seq![Keybind { modifiers: ModifierSet { ctrl: false, shift: false, alt: false, command: true }, key: KeyCode::C }],
        AppAction::Paste => seq![Keybind { modifiers: ModifierSet { ctrl: false, shift: false, alt: false, command: true }, key: KeyCode::V }],
        AppAction::SelectAll => seq![Keybind { modifiers: ModifierSet { ctrl: false, shift: false, alt: false, command: true }, key: KeyCode::A }],
        AppAction::Delete => seq![Keybind { modifiers: ModifierSet { ctrl: false, shift: false, alt: false, command: false }, key: KeyCode::Delete }],
        AppAction::NewProject => seq![Keybind { modifiers: ModifierSet { ctrl: false, shift: false, alt: false, command: true }, key: KeyCode::N }],
        AppAction::OpenProject => seq![Keybind { modifiers: ModifierSet { ctrl: false, shift: false, alt: false, command: true }, key: KeyCode::O }],
        AppAction::SaveProject => seq![Keybind { modifiers: ModifierSet { ctrl: false, shift: false, alt: false, command: true }, key: KeyCode::S }],
        AppAction::SaveProjectAs => seq![Keybind { modifiers: ModifierSet { ctrl: false, shift: true, alt: false, command: true }, key: KeyCode::S }],
        AppAction::ToggleMixer => seq![Keybind { modifiers: ModifierSet { ctrl: false, shift: false, alt: false, command: true }, key: KeyCode::M }],
        AppAction::ToggleLoop => seq![Keybind { modifiers: ModifierSet { ctrl: false, shift: false, alt: false, command: false }, key: KeyCode::L }],
        AppAction::SetLoopToSelection => seq![Keybind { modifiers: ModifierSet { ctrl: false, shift: false, alt: false, command: true }, key: KeyCode::L }],
        AppAction::ClearLoop => seq![Keybind { modifiers: ModifierSet { ctrl: false, shift: true, alt: false, command: false }, key: KeyCode::L }],
        AppAction::NudgeLeft => seq![Keybind { modifiers: ModifierSet { ctrl: false, shift: false, alt: false, command: false }, key: KeyCode::ArrowLeft }],
        AppAction::NudgeRight => seq![Keybind { modifiers: ModifierSet { ctrl: false, shift: false, alt: false, command: false }, key: KeyCode::ArrowRight }],
        AppAction::NudgeLeftFine => seq![Keybind { modifiers: ModifierSet { ctrl: false, shift: false, alt: true, command: false }, key: KeyCode::ArrowLeft }],
        AppAction::NudgeRightFine => seq![Keybind { modifiers: ModifierSet { ctrl: false, shift: false, alt: true, command: false }, key: KeyCode::ArrowRight }],
        AppAction::NudgeLeftCoarse => seq![Keybind { modifiers: ModifierSet { ctrl: false, shift: true, alt: false, command: false }, key: KeyCode::ArrowLeft }],
        AppAction::NudgeRightCoarse => seq![Keybind { modifiers: ModifierSet { ctrl: false, shift: true, alt: false, command: false }, key: KeyCode::ArrowRight }],
        AppAction::TransposeUp => seq![Keybind { modifiers: ModifierSet { ctrl: false, shift: false, alt: false, command: false }, key: KeyCode::ArrowUp }],
        AppAction::TransposeDown => seq![Keybind { modifiers: ModifierSet { ctrl: false, shift: false, alt: false, command: false }, key: KeyCode::ArrowDown }],
        AppAction::TransposeOctaveUp => seq![Keybind { modifiers: ModifierSet { ctrl: false, shift: true, alt: false, command: false }, key: KeyCode::ArrowUp }],
        AppAction::TransposeOctaveDown => seq![Keybind { modifiers: ModifierSet { ctrl: false, shift: true, alt: false, command: false }, key: KeyCode::ArrowDown }],
        AppAction::VelocityUp => seq![Keybind { modifiers: ModifierSet { ctrl: false, shift: false, alt: false, command: true }, key: KeyCode::ArrowUp }],
        AppAction::VelocityDown => seq![Keybind { modifiers: ModifierSet { ctrl: false, shift: false, alt: false, command: true }, key: KeyCode::ArrowDown }],
        _ => Seq::empty(),
    }
}

/// The action that the default registry gives a keybind.
pub open spec fn default_action_of(k: Keybind) -> Option<AppAction> {
    if k == (Keybind { modifiers: ModifierSet { ctrl: false, shift: false, alt: false, command: false }, key: KeyCode::Space }) { Some(AppAction::PlayPause) }
    else if k == (Keybind { modifiers: ModifierSet { ctrl: false, shift: false, alt: false, command: false }, key: KeyCode::Escape }) { Some(AppAction::Stop) }
    else if k == (Keybind { modifiers: ModifierSet { ctrl: false, shift: false, alt: false, command: false }, key: KeyCode::Home }) { Some(AppAction::GoToStart) }
    else if k == (Keybind { modifiers: ModifierSet { ctrl: false, shift: false, alt: false, command: true }, key: KeyCode::Z }) { Some(AppAction::Undo) }
    else if k == (Keybind { modifiers: ModifierSet { ctrl: false, shift: true, alt: false, command: true }, key: KeyCode::Z }) { Some(AppAction::Redo) }
    else if k == (Keybind { modifiers: ModifierSet { ctrl: false, shift: false, alt: false, command: true }, key: KeyCode::X }) { Some(AppAction::Cut) }
    else if k == (Keybind { modifiers: ModifierSet { ctrl: false, shift: false, alt: false, command: true }, key: KeyCode::C }) { Some(AppAction::Copy) }
    else if k == (Keybind { modifiers: ModifierSet { ctrl: false, shift: false, alt: false, command: true }, key: KeyCode::V }) { Some(AppAction::Paste) }
    else if k == (Keybind { modifiers: ModifierSet { ctrl: false, shift: false, alt: false, command: true }, key: KeyCode::A }) { Some(AppAction::SelectAll) }
    else if k == (Keybind { modifiers: ModifierSet { ctrl: false, shift: false, alt: false, command: false }, key: KeyCode::Delete }) { Some(AppAction::Delete) }
    else if k == (Keybind { modifiers: ModifierSet { ctrl: false, shift: false, alt: false, command: true }, key: KeyCode::N }) { Some(AppAction::NewProject) }
    else if k == (Keybind { modifiers: ModifierSet { ctrl: false, shift: false, alt: false, command: true }, key: KeyCode::O }) { Some(AppAction::OpenProject) }
    else if k == (Keybind { modifiers: ModifierSet { ctrl: false, shift: false, alt: false, command: true }, key: KeyCode::S }) { Some(AppAction::SaveProject) }
    else if k == (Keybind { modifiers: ModifierSet { ctrl: false, shift: true, alt: false, command: true }, key: KeyCode::S }) { Some(AppAction::SaveProjectAs) }
    else if k == (Keybind { modifiers: ModifierSet { ctrl: false, shift: false, alt: false, command: true }, key: KeyCode::M }) { Some(AppAction::ToggleMixer) }
    else if k == (Keybind { modifiers: ModifierSet { ctrl: false, shift: false, alt: false, command: false }, key: KeyCode::L }) { Some(AppAction::ToggleLoop) }
    else if k == (Keybind { modifiers: ModifierSet { ctrl: false, shift: false, alt: false, command: true }, key: KeyCode::L }) { Some(AppAction::SetLoopToSelection) }
    else if k == (Keybind { modifiers: ModifierSet { ctrl: false, shift: true, alt: false, command: false }, key: KeyCode::L }) { Some(AppAction::ClearLoop) }
    else if k == (Keybind { modifiers: ModifierSet { ctrl: false, shift: false, alt: false, command: false }, key: KeyCode::ArrowLeft }) { Some(AppAction::NudgeLeft) }
    else if k == (Keybind { modifiers: ModifierSet { ctrl: false, shift: false, alt: false, command: false }, key: KeyCode::ArrowRight }) { Some(AppAction::NudgeRight) }
    else if k == (Keybind { modifiers: ModifierSet { ctrl: false, shift: false, alt: true, command: false }, key: KeyCode::ArrowLeft }) { Some(AppAction::NudgeLeftFine) }
    else if k == (Keybind { modifiers: ModifierSet { ctrl: false, shift: false, alt: true, command: false }, key: KeyCode::ArrowRight }) { Some(AppAction::NudgeRightFine) }
    else if k == (Keybind { modifiers: ModifierSet { ctrl: false, shift: true, alt: false, command: false }, key: KeyCode::ArrowLeft }) { Some(AppAction::NudgeLeftCoarse) }
    else if k == (Keybind { modifiers: ModifierSet { ctrl: false, shift: true, alt: false, command: false }, key: KeyCode::ArrowRight }) { Some(AppAction::NudgeRightCoarse) }
    else if k == (Keybind { modifiers: ModifierSet { ctrl: false, shift: false, alt: false, command: false }, key: KeyCode::ArrowUp }) { Some(AppAction::TransposeUp) }
    else if k == (Keybind { modifiers: ModifierSet { ctrl: false, shift: false, alt: false, command: false }, key: KeyCode::ArrowDown }) { Some(AppAction::TransposeDown) }
    else if k == (Keybind { modifiers: ModifierSet { ctrl: false, shift: true, alt: false, command: false }, key: KeyCode::ArrowUp }) { Some(AppAction::TransposeOctaveUp) }
    else if k == (Keybind { modifiers: ModifierSet { ctrl: false, shift: true, alt: false, command: false }, key: KeyCode::ArrowDown }) { Some(AppAction::TransposeOctaveDown) }
    else if k == (Keybind { modifiers: ModifierSet { ctrl: false, shift: false, alt: false, command: true }, key: KeyCode::ArrowUp }) { Some(AppAction::VelocityUp) }
    else if k == (Keybind { modifiers: ModifierSet { ctrl: false, shift: false, alt: false, command: true }, key: KeyCode::ArrowDown }) { Some(AppAction::VelocityDown) }
    else { None }
}

/// A key pressed alone.
pub open spec fn plain(key: KeyCode) -> Keybind {
    Keybind { modifiers: ModifierSet { ctrl: false, shift: false, alt: false, command: false }, key }
}

/// A key pressed with the command key (Ctrl, or Cmd on macOS).
pub open spec fn with_command(key: KeyCode) -> Keybind {
    Keybind { modifiers: ModifierSet { ctrl: false, shift: false, alt: false, command: true }, key }
}

/// A key pressed with shift.
pub open spec fn with_shift(key: KeyCode) -> Keybind {
    Keybind { modifiers: ModifierSet { ctrl: false, shift: true, alt: false, command: false }, key }
}

/// A key pressed with alt.
pub open spec fn with_alt(key: KeyCode) -> Keybind {
    Keybind { modifiers: ModifierSet { ctrl: false, shift: false, alt: true, command: false }, key }
}

/// A key pressed with the command key and shift.
pub open spec fn with_command_shift(key: KeyCode) -> Keybind {
    Keybind { modifiers: ModifierSet { ctrl: false, shift: true, alt: false, command: true }, key }
}

/// The default shortcuts: Space plays, Escape stops, Home goes to the start;
/// Cmd+Z undoes and Cmd+Shift+Z redoes; Cmd+X, Cmd+C and Cmd+V cut, copy and
/// paste; Cmd+A selects all and Delete deletes; Cmd+N, Cmd+O, Cmd+S and
/// Cmd+Shift+S make, open, save and save-as a project; Cmd+M shows the mixer;
/// L, Cmd+L and Shift+L toggle, set and clear the loop; the left and right
/// arrows nudge (Alt finer, Shift coarser); the up and down arrows
/// transpose (Shift by an octave, Cmd the velocity instead). Each of these
/// keybinds is an action's own: the action lists it among its keybinds.
pub proof fn lemma_default_shortcuts(a: AppAction, k: Keybind)
    ensures
        default_action_of(plain(KeyCode::Space)) == Some(AppAction::PlayPause),
        default_action_of(plain(KeyCode::Escape)) == Some(AppAction::Stop),
        default_action_of(plain(KeyCode::Home)) == Some(AppAction::GoToStart),
        default_action_of(with_command(KeyCode::Z)) == Some(AppAction::Undo),
        default_action_of(with_command_shift(KeyCode::Z)) == Some(AppAction::Redo),
        default_action_of(with_command(KeyCode::X)) == Some(AppAction::Cut),
        default_action_of(with_command(KeyCode::C)) == Some(AppAction::Copy),
        default_action_of(with_command(KeyCode::V)) == Some(AppAction::Paste),
        default_action_of(with_command(KeyCode::A)) == Some(AppAction::SelectAll),
        default_action_of(plain(KeyCode::Delete)) == Some(AppAction::Delete),
        default_action_of(with_command(KeyCode::N)) == Some(AppAction::NewProject),
        default_action_of(with_command(KeyCode::O)) == Some(AppAction::OpenProject),
        default_action_of(with_command(KeyCode::S)) == Some(AppAction::SaveProject),
        default_action_of(with_command_shift(KeyCode::S)) == Some(AppAction::SaveProjectAs),
        default_action_of(with_command(KeyCode::M)) == Some(AppAction::ToggleMixer),
        default_action_of(plain(KeyCode::L)) == Some(AppAction::ToggleLoop),
        default_action_of(with_command(KeyCode::L)) == Some(AppAction::SetLoopToSelection),
        default_action_of(with_shift(KeyCode::L)) == Some(AppAction::ClearLoop),
        default_action_of(plain(KeyCode::ArrowLeft)) == Some(AppAction::NudgeLeft),
        default_action_of(plain(KeyCode::ArrowRight)) == Some(AppAction::NudgeRight),
        default_action_of(with_alt(KeyCode::ArrowLeft)) == Some(AppAction::NudgeLeftFine),
        default_action_of(with_alt(KeyCode::ArrowRight)) == Some(AppAction::NudgeRightFine),
        default_action_of(with_shift(KeyCode::ArrowLeft)) == Some(AppAction::NudgeLeftCoarse),
        default_action_of(with_shift(KeyCode::ArrowRight)) == Some(AppAction::NudgeRightCoarse),
        default_action_of(plain(KeyCode::ArrowUp)) == Some(AppAction::TransposeUp),
        default_action_of(plain(KeyCode::ArrowDown)) == Some(AppAction::TransposeDown),
        default_action_of(with_shift(KeyCode::ArrowUp)) == Some(AppAction::TransposeOctaveUp),
        default_action_of(with_shift(KeyCode::ArrowDown)) == Some(AppAction::TransposeOctaveDown),
        default_action_of(with_command(KeyCode::ArrowUp)) == Some(AppAction::VelocityUp),
        default_action_of(with_command(KeyCode::ArrowDown)) == Some(AppAction::VelocityDown),
        default_action_of(k) == Some(a) ==> default_bindings_of(a).contains(k),
        default_bindings_of(a).contains(k) ==> default_action_of(k) == Some(a),
{
    if default_action_of(k) == Some(a) {
        assert(default_bindings_of(a)[0] == k);
    }
    if default_bindings_of(a).contains(k) {
        let i = choose|i: int| 0 <= i < default_bindings_of(a).len() && default_bindings_of(a)[i] == k;
        assert(default_bindings_of(a)[i] == k);
    }
}

/// Central shortcut registry: the keybinds of each action, and for each
/// keybind the action it triggers.
pub struct ShortcutRegistry {
    /// Keybinds of each action, at the action's position.
    bindings: Vec<Vec<Keybind>>,
    /// Action of each keybind, at the keybind's number.
    keybind_to_action: Vec<Option<AppAction>>,
}

/// `post` is `pre` with `keybind` added to the binds of `action`.
pub open spec fn bind_post(
    pre: ShortcutRegistry,
    post: ShortcutRegistry,
    action: AppAction,
    keybind: Keybind,
) -> bool {
    &&& post.wf()
    &&& post.bindings_of(action) == pre.bindings_of(action).push(keybind)
    &&& forall|b: AppAction| b != action ==> #[trigger] post.bindings_of(b) == pre.bindings_of(b)
    &&& post.action_of(keybind) == Some(action)
    &&& forall|k: Keybind| k != keybind ==> #[trigger] post.action_of(k) == pre.action_of(k)
}

/// Holds of every keybind other than `k`.
pub open spec fn other_than(k: Keybind) -> spec_fn(Keybind) -> bool {
    |x: Keybind| x != k
}

/// `post` is `pre` with `keybind` removed from every action.
pub open spec fn unbind_post(pre: ShortcutRegistry, post: ShortcutRegistry, keybind: Keybind) -> bool {
    &&& post.wf()
    &&& forall|b: AppAction| #[trigger]
        post.bindings_of(b) == pre.bindings_of(b).filter(other_than(keybind))
    &&& post.action_of(keybind) is None
    &&& forall|k: Keybind| k != keybind ==> #[trigger] post.action_of(k) == pre.action_of(k)
}

/// The keybinds that a list of (action, keybinds) entries gives an action:
/// those of the last entry for it.
pub open spec fn entries_bindings_of(entries: Seq<(AppAction, Vec<Keybind>)>, a: AppAction) -> Seq<
    Keybind,
>
    decreases entries.len(),
{
    if entries.len() == 0 {
        Seq::empty()
    } else if entries.last().0 == a {
        entries.last().1@
    } else {
        entries_bindings_of(entries.drop_last(), a)
    }
}

/// Whether an action may fire in a context: it is valid there or globally.
pub open spec fn allowed_in(a: AppAction, context: ActionContext) -> bool {
    action_contexts(a).contains(context) || action_contexts(a).contains(ActionContext::Global)
}

/// The actions that pressed keybinds fire in a context, in the order of the
/// keybinds, each action once: a keybind fires the action it triggers when
/// that action may fire in the context and has not fired yet.
pub open spec fn fired_actions(r: ShortcutRegistry, pressed: Seq<Keybind>, context: ActionContext) -> Seq<
    AppAction,
>
    decreases pressed.len(),
{
    if pressed.len() == 0 {
        Seq::empty()
    } else {
        let prev = fired_actions(r, pressed.drop_last(), context);
        match r.action_of(pressed.last()) {
            Some(a) => if allowed_in(a, context) && !prev.contains(a) {
                prev.push(a)
            } else {
                prev
            },
            None => prev,
        }
    }
}

impl ShortcutRegistry {
    /// The keybinds of an action, in the order they were added.
    pub closed spec fn bindings_of(self, a: AppAction) -> Seq<Keybind> {
        self.bindings@[action_index(a) as int]@
    }

    /// The action a keybind triggers.
    pub closed spec fn action_of(self, k: Keybind) -> Option<AppAction> {
        self.keybind_to_action@[keybind_index(k) as int]
    }

    /// The lookup table agrees with the bindings: a keybind triggers an action
    /// only if that action holds it, and every held keybind triggers one.
    pub closed spec fn wf(self) -> bool {
        &&& self.bindings@.len() == ACTION_COUNT
        &&& self.keybind_to_action@.len() == KEYBIND_COUNT
        &&& forall|k: Keybind| #[trigger]
            self.action_of(k) is Some ==> self.bindings_of(self.action_of(k)->0).contains(k)
        &&& forall|a: AppAction, k: Keybind| #[trigger]
            self.bindings_of(a).contains(k) ==> self.action_of(k) is Some
    }

    /// A registry with no keybinds.
    pub fn empty() -> (r: Self)
        ensures
            r.wf(),
            forall|a: AppAction| #[trigger] r.bindings_of(a) == Seq::<Keybind>::empty(),
            forall|k: Keybind| #[trigger] r.action_of(k) is None,
    {
        let mut bindings: Vec<Vec<Keybind>> = Vec::new();
        let mut i: usize = 0;
        while i < ACTION_COUNT
            invariant
                i <= ACTION_COUNT,
                bindings@.len() == i,
                forall|j: int| 0 <= j < i ==> #[trigger] bindings@[j]@ == Seq::<Keybind>::empty(),
            decreases ACTION_COUNT - i,
        {
            bindings.push(Vec::new());
            i = i + 1;
        }
        let mut keybind_to_action: Vec<Option<AppAction>> = Vec::new();
        let mut j: usize = 0;
        while j < KEYBIND_COUNT
            invariant
                j <= KEYBIND_COUNT,
                keybind_to_action@.len() == j,
                forall|m: int| 0 <= m < j ==> #[trigger] keybind_to_action@[m] is None,
            decreases KEYBIND_COUNT - j,
        {
            keybind_to_action.push(None);
            j = j + 1;
        }
        let r = ShortcutRegistry { bindings, keybind_to_action };
        assert forall|a: AppAction| #[trigger] r.bindings_of(a) == Seq::<Keybind>::empty() by {
            lemma_action_index_inverse(a);
        }
        assert forall|k: Keybind| #[trigger] r.action_of(k) is None by {
            lemma_keybind_index_injective(k, k);
        }
        r
    }

    /// Add a binding (duplicates are kept).
    pub fn bind(&mut self, action: AppAction, keybind: Keybind)
        requires
            old(self).wf(),
        ensures
            bind_post(*old(self), *final(self), action, keybind),
    {
        let ai = action.index();
        let ki = keybind.index();
        proof {
            lemma_action_index_inverse(action);
            lemma_keybind_index_injective(keybind, keybind);
        }
        self.bindings[ai].push(keybind);
        self.keybind_to_action.set(ki, Some(action));
        proof {
            assert forall|b: AppAction| b != action implies #[trigger] self.bindings_of(b)
                == old(self).bindings_of(b) by {
                lemma_action_index_injective(b, action);
                lemma_action_index_inverse(b);
            }
            assert forall|k: Keybind| k != keybind implies #[trigger] self.action_of(k) == old(
                self,
            ).action_of(k) by {
                lemma_keybind_index_injective(k, keybind);
            }
            assert forall|k: Keybind| #[trigger]
                self.action_of(k) is Some implies self.bindings_of(self.action_of(k)->0).contains(
                k,
            ) by {
                lemma_keybind_index_injective(k, keybind);
                if k == keybind {
                    assert(self.bindings_of(action).last() == keybind);
                } else {
                    let a = old(self).action_of(k)->0;
                    assert(old(self).bindings_of(a).contains(k));
                    if a == action {
                        let n = choose|n: int|
                            0 <= n < old(self).bindings_of(a).len() && old(self).bindings_of(a)[n]
                                == k;
                        assert(self.bindings_of(a)[n] == k);
                    }
                }
            }
            assert forall|a: AppAction, k: Keybind| #[trigger]
                self.bindings_of(a).contains(k) implies self.action_of(k) is Some by {
                lemma_keybind_index_injective(k, keybind);
                if k != keybind {
                    let n = choose|n: int|
                        0 <= n < self.bindings_of(a).len() && self.bindings_of(a)[n] == k;
                    if a == action {
                        assert(old(self).bindings_of(a)[n] == k);
                        assert(old(self).bindings_of(a).contains(k));
                    } else {
                        assert(old(self).bindings_of(a).contains(k));
                    }
                }
            }
        }
    }

    /// Remove a keybind from every action.
    pub fn unbind(&mut self, keybind: &Keybind)
        requires
            old(self).wf(),
        ensures
            unbind_post(*old(self), *final(self), *keybind),
    {
        let ki = keybind.index();
        self.keybind_to_action.set(ki, None);
        let ghost mid = *self;
        let mut i: usize = 0;
        while i < ACTION_COUNT
            invariant
                i <= ACTION_COUNT,
                self.bindings@.len() == ACTION_COUNT,
                self.keybind_to_action == mid.keybind_to_action,
                mid.bindings@.len() == ACTION_COUNT,
                forall|j: int|
                    0 <= j < i ==> #[trigger] self.bindings@[j]@ == mid.bindings@[j]@.filter(other_than(*keybind)),
                forall|j: int| i <= j < ACTION_COUNT ==> #[trigger] self.bindings@[j] == mid.bindings@[j],
            decreases ACTION_COUNT - i,
        {
            let kept = Self::without(&self.bindings[i], keybind);
            self.bindings.set(i, kept);
            i = i + 1;
        }
        proof {
            assert forall|b: AppAction| #[trigger]
                self.bindings_of(b) == old(self).bindings_of(b).filter(other_than(*keybind)) by {
                lemma_action_index_inverse(b);
            }
            assert forall|k: Keybind| k != *keybind implies #[trigger] self.action_of(k) == old(
                self,
            ).action_of(k) by {
                lemma_keybind_index_injective(k, *keybind);
            }
            lemma_keybind_index_injective(*keybind, *keybind);
            assert forall|k: Keybind| #[trigger]
                self.action_of(k) is Some implies self.bindings_of(self.action_of(k)->0).contains(
                k,
            ) by {
                lemma_keybind_index_injective(k, *keybind);
                let a = old(self).action_of(k)->0;
                let s = old(self).bindings_of(a);
                let n = choose|n: int| 0 <= n < s.len() && s[n] == k;
                assert(s.filter(other_than(*keybind)).contains(s[n]));
            }
            assert forall|a: AppAction, k: Keybind| #[trigger]
                self.bindings_of(a).contains(k) implies self.action_of(k) is Some by {
                let s = old(self).bindings_of(a);
                let f = s.filter(other_than(*keybind));
                let n = choose|n: int| 0 <= n < f.len() && f[n] == k;
                assert(f[n] != *keybind);
                lemma_filtered_was_listed(s, *keybind, k);
                lemma_keybind_index_injective(k, *keybind);
            }
        }
    }

    /// The registry with the default keybinds.
    #[verifier::rlimit(60)]
    pub fn default_bindings() -> (r: Self)
        ensures
            r.wf(),
            forall|a: AppAction| #[trigger] r.bindings_of(a) == default_bindings_of(a),
            forall|k: Keybind| #[trigger] r.action_of(k) == default_action_of(k),
    {
        let mut reg = Self::empty();
        reg.bind(AppAction::PlayPause, Keybind::none(KeyCode::Space));
        reg.bind(AppAction::Stop, Keybind::none(KeyCode::Escape));
        reg.bind(AppAction::GoToStart, Keybind::none(KeyCode::Home));
        reg.bind(AppAction::Undo, Keybind::cmd(KeyCode::Z));
        reg.bind(AppAction::Redo, Keybind::cmd_shift(KeyCode::Z));
        reg.bind(AppAction::Cut, Keybind::cmd(KeyCode::X));
        reg.bind(AppAction::Copy, Keybind::cmd(KeyCode::C));
        reg.bind(AppAction::Paste, Keybind::cmd(KeyCode::V));
        reg.bind(AppAction::SelectAll, Keybind::cmd(KeyCode::A));
        reg.bind(AppAction::Delete, Keybind::none(KeyCode::Delete));
        reg.bind(AppAction::NewProject, Keybind::cmd(KeyCode::N));
        reg.bind(AppAction::OpenProject, Keybind::cmd(KeyCode::O));
        reg.bind(AppAction::SaveProject, Keybind::cmd(KeyCode::S));
        reg.bind(AppAction::SaveProjectAs, Keybind::cmd_shift(KeyCode::S));
        reg.bind(AppAction::ToggleMixer, Keybind::cmd(KeyCode::M));
        reg.bind(AppAction::ToggleLoop, Keybind::none(KeyCode::L));
        reg.bind(AppAction::SetLoopToSelection, Keybind::cmd(KeyCode::L));
        reg.bind(AppAction::ClearLoop, Keybind::shift(KeyCode::L));
        reg.bind(AppAction::NudgeLeft, Keybind::none(KeyCode::ArrowLeft));
        reg.bind(AppAction::NudgeRight, Keybind::none(KeyCode::ArrowRight));
        reg.bind(AppAction::NudgeLeftFine, Keybind::alt(KeyCode::ArrowLeft));
        reg.bind(AppAction::NudgeRightFine, Keybind::alt(KeyCode::ArrowRight));
        reg.bind(AppAction::NudgeLeftCoarse, Keybind::shift(KeyCode::ArrowLeft));
        reg.bind(AppAction::NudgeRightCoarse, Keybind::shift(KeyCode::ArrowRight));
        reg.bind(AppAction::TransposeUp, Keybind::none(KeyCode::ArrowUp));
        reg.bind(AppAction::TransposeDown, Keybind::none(KeyCode::ArrowDown));
        reg.bind(AppAction::TransposeOctaveUp, Keybind::shift(KeyCode::ArrowUp));
        reg.bind(AppAction::TransposeOctaveDown, Keybind::shift(KeyCode::ArrowDown));
        reg.bind(AppAction::VelocityUp, Keybind::cmd(KeyCode::ArrowUp));
        reg.bind(AppAction::VelocityDown, Keybind::cmd(KeyCode::ArrowDown));
        reg
    }

    /// A registry holding the keybinds of a list of (action, keybinds)
    /// entries, a later entry for an action replacing an earlier one, with
    /// the lookup table rebuilt from them.
    pub fn from_bindings(entries: &Vec<(AppAction, Vec<Keybind>)>) -> (r: Self)
        ensures
            r.wf(),
            forall|a: AppAction| #[trigger] r.bindings_of(a) == entries_bindings_of(entries@, a),
    {
        let mut reg = Self::empty();
        let mut i: usize = 0;
        while i < entries.len()
            invariant
                i <= entries.len(),
                reg.bindings@.len() == ACTION_COUNT,
                reg.keybind_to_action@.len() == KEYBIND_COUNT,
                forall|a: AppAction| #[trigger]
                    reg.bindings_of(a) == entries_bindings_of(entries@.take(i as int), a),
            decreases entries.len() - i,
        {
            let action = entries[i].0;
            let ai = action.index();
            let copied = copy_keybinds(&entries[i].1);
            let ghost before = reg;
            reg.bindings.set(ai, copied);
            proof {
                let pre = entries@.take(i as int);
                let cur = entries@.take(i + 1);
                assert(cur.drop_last() =~= pre);
                assert(cur.last() == entries@[i as int]);
                assert forall|a: AppAction| #[trigger]
                    reg.bindings_of(a) == entries_bindings_of(cur, a) by {
                    lemma_action_index_injective(a, action);
                    lemma_action_index_inverse(a);
                    if a == action {
                        assert(entries_bindings_of(cur, a) == entries@[i as int].1@);
                    } else {
                        assert(before.bindings_of(a) == entries_bindings_of(pre, a));
                        assert(entries_bindings_of(cur, a) == entries_bindings_of(pre, a));
                    }
                }
            }
            i = i + 1;
        }
        assert(entries@.take(entries.len() as int) =~= entries@);
        let ghost built = reg;
        reg.rebuild_reverse_index();
        assert forall|a: AppAction| #[trigger]
            reg.bindings_of(a) == entries_bindings_of(entries@, a) by {
            assert(built.bindings_of(a) == entries_bindings_of(entries@, a));
        }
        reg
    }

    /// Rebuild the lookup table from the bindings.
    fn rebuild_reverse_index(&mut self)
        requires
            old(self).bindings@.len() == ACTION_COUNT,
            old(self).keybind_to_action@.len() == KEYBIND_COUNT,
        ensures
            final(self).wf(),
            final(self).bindings == old(self).bindings,
    {
        let mut j: usize = 0;
        while j < KEYBIND_COUNT
            invariant
                j <= KEYBIND_COUNT,
                self.keybind_to_action@.len() == KEYBIND_COUNT,
                self.bindings == old(self).bindings,
                forall|m: int| 0 <= m < j ==> #[trigger] self.keybind_to_action@[m] is None,
            decreases KEYBIND_COUNT - j,
        {
            self.keybind_to_action.set(j, None);
            j = j + 1;
        }
        assert forall|k: Keybind| #[trigger] self.action_of(k) is None by {
            lemma_keybind_index_injective(k, k);
        }
        let mut i: usize = 0;
        while i < ACTION_COUNT
            invariant
                i <= ACTION_COUNT,
                self.bindings == old(self).bindings,
                self.bindings@.len() == ACTION_COUNT,
                self.keybind_to_action@.len() == KEYBIND_COUNT,
                forall|k: Keybind| #[trigger]
                    self.action_of(k) is Some ==> action_index(self.action_of(k)->0) < i
                        && self.bindings_of(self.action_of(k)->0).contains(k),
                forall|a: AppAction, k: Keybind|
                    action_index(a) < i && #[trigger] self.bindings_of(a).contains(k)
                        ==> self.action_of(k) is Some,
            decreases ACTION_COUNT - i,
        {
            let action = AppAction::from_index(i);
            let n = self.bindings[i].len();
            let mut j: usize = 0;
            while j < n
                invariant
                    i < ACTION_COUNT,
                    action_index(action) == i,
                    j <= n,
                    n == self.bindings@[i as int]@.len(),
                    self.bindings == old(self).bindings,
                    self.bindings@.len() == ACTION_COUNT,
                    self.keybind_to_action@.len() == KEYBIND_COUNT,
                    forall|k: Keybind| #[trigger]
                        self.action_of(k) is Some ==> action_index(self.action_of(k)->0) <= i
                            && self.bindings_of(self.action_of(k)->0).contains(k),
                    forall|a: AppAction, k: Keybind|
                        action_index(a) < i && #[trigger] self.bindings_of(a).contains(k)
                            ==> self.action_of(k) is Some,
                    forall|m: int| 0 <= m < j ==> #[trigger] self.action_of(self.bindings@[i as int]@[m]) is Some,
                decreases n - j,
            {
                let kb = self.bindings[i][j];
                let ki = kb.index();
                let ghost before = *self;
                self.keybind_to_action.set(ki, Some(action));
                proof {
                    lemma_action_index_inverse(action);
                    assert(self.bindings_of(action) == self.bindings@[i as int]@);
                    assert(self.bindings_of(action)[j as int] == kb);
                    assert forall|k: Keybind| #[trigger]
                        self.action_of(k) is Some implies action_index(self.action_of(k)->0) <= i
                            && self.bindings_of(self.action_of(k)->0).contains(k) by {
                        lemma_keybind_index_injective(k, kb);
                        if k != kb {
                            assert(before.action_of(k) == self.action_of(k));
                        } else {
                            assert(self.bindings_of(action).contains(kb));
                        }
                    }
                    assert forall|a: AppAction, k: Keybind|
                        action_index(a) < i && #[trigger] self.bindings_of(a).contains(k)
                            implies self.action_of(k) is Some by {
                        lemma_keybind_index_injective(k, kb);
                        if k != kb {
                            assert(before.bindings_of(a).contains(k));
                            assert(before.action_of(k) == self.action_of(k));
                        }
                    }
                    assert forall|m: int| 0 <= m < j + 1 implies #[trigger] self.action_of(
                        self.bindings@[i as int]@[m],
                    ) is Some by {
                        let km = self.bindings@[i as int]@[m];
                        lemma_keybind_index_injective(km, kb);
                        if m < j && km != kb {
                            assert(before.action_of(km) is Some);
                            assert(before.action_of(km) == self.action_of(km));
                        }
                    }
                }
                j = j + 1;
            }
            proof {
                lemma_action_index_inverse(action);
                assert forall|a: AppAction, k: Keybind|
                    action_index(a) < i + 1 && #[trigger] self.bindings_of(a).contains(k)
                        implies self.action_of(k) is Some by {
                    if action_index(a) == i {
                        lemma_action_index_injective(a, action);
                        let m = choose|m: int|
                            0 <= m < self.bindings_of(a).len() && self.bindings_of(a)[m] == k;
                        assert(self.action_of(self.bindings@[i as int]@[m]) is Some);
                    }
                }
            }
            i = i + 1;
        }
        assert forall|a: AppAction, k: Keybind| #[trigger]
            self.bindings_of(a).contains(k) implies self.action_of(k) is Some by {
            lemma_action_index_inverse(a);
        }
    }

    /// The actions that the pressed keybinds fire in a context.
    pub fn triggered_actions(&self, pressed: &Vec<Keybind>, context: ActionContext) -> (r: Vec<
        AppAction,
    >)
        requires
            self.wf(),
        ensures
            r@ == fired_actions(*self, pressed@, context),
    {
        let mut r: Vec<AppAction> = Vec::new();
        let mut i: usize = 0;
        while i < pressed.len()
            invariant
                self.wf(),
                i <= pressed.len(),
                r@ == fired_actions(*self, pressed@.take(i as int), context),
            decreases pressed.len() - i,
        {
            proof {
                assert(pressed@.take(i + 1).drop_last() =~= pressed@.take(i as int));
            }
            match self.get_action(&pressed[i]) {
                Some(a) => {
                    let ctxs = a.contexts();
                    let allowed = contains_context(&ctxs, context) || contains_context(
                        &ctxs,
                        ActionContext::Global,
                    );
                    if allowed && !contains_action(&r, a) {
                        r.push(a);
                    }
                },
                None => {},
            }
            i = i + 1;
        }
        assert(pressed@.take(pressed.len() as int) =~= pressed@);
        r
    }

    /// The keybinds of a list other than `keybind`, in order.
    fn without(v: &Vec<Keybind>, keybind: &Keybind) -> (r: Vec<Keybind>)
        ensures
            r@ == v@.filter(other_than(*keybind)),
    {
        let mut r: Vec<Keybind> = Vec::new();
        let mut i: usize = 0;
        while i < v.len()
            invariant
                i <= v.len(),
                r@ == v@.take(i as int).filter(other_than(*keybind)),
            decreases v.len() - i,
        {
            proof {
                reveal(Seq::filter);
                assert(v@.take(i + 1).drop_last() =~= v@.take(i as int));
            }
            if v[i] != *keybind {
                r.push(v[i]);
            }
            i = i + 1;
        }
        assert(v@.take(v.len() as int) =~= v@);
        r
    }

    /// All keybinds of an action.
    pub fn get_bindings(&self, action: AppAction) -> (r: &[Keybind])
        requires
            self.wf(),
        ensures
            r@ == self.bindings_of(action),
    {
        proof {
            lemma_action_index_inverse(action);
        }
        self.bindings[action.index()].as_slice()
    }

    /// The action a keybind triggers.
    pub fn get_action(&self, keybind: &Keybind) -> (r: Option<AppAction>)
        requires
            self.wf(),
        ensures
            r == self.action_of(*keybind),
    {
        proof {
            lemma_keybind_index_injective(*keybind, *keybind);
        }
        self.keybind_to_action[keybind.index()]
    }

    /// The action a keybind is already used for, unless it is `exclude_action`.
    pub fn has_conflict(&self, keybind: &Keybind, exclude_action: Option<AppAction>) -> (r: Option<
        AppAction,
    >)
        requires
            self.wf(),
        ensures
            r == (match self.action_of(*keybind) {
                Some(a) => if exclude_action == Some(a) {
                    None
                } else {
                    Some(a)
                },
                None => None,
            }),
    {
        match self.get_action(keybind) {
            Some(a) => {
                match exclude_action {
                    Some(ex) => if ex == a {
                        None
                    } else {
                        Some(a)
                    },
                    None => Some(a),
                }
            },
            None => None,
        }
    }
}

/// Whether a list of contexts holds a context.
fn contains_context(v: &Vec<ActionContext>, c: ActionContext) -> (r: bool)
    ensures
        r == v@.contains(c),
{
    let mut i: usize = 0;
    while i < v.len()
        invariant
            i <= v.len(),
            forall|j: int| 0 <= j < i ==> v@[j] != c,
        decreases v.len() - i,
    {
        if v[i] == c {
            return true;
        }
        i = i + 1;
    }
    false
}

/// Whether a list of actions holds an action.
fn contains_action(v: &Vec<AppAction>, a: AppAction) -> (r: bool)
    ensures
        r == v@.contains(a),
{
    let mut i: usize = 0;
    while i < v.len()
        invariant
            i <= v.len(),
            forall|j: int| 0 <= j < i ==> v@[j] != a,
        decreases v.len() - i,
    {
        if v[i] == a {
            return true;
        }
        i = i + 1;
    }
    false
}

/// A copy of a list of keybinds.
fn copy_keybinds(v: &Vec<Keybind>) -> (r: Vec<Keybind>)
    ensures
        r@ == v@,
{
    let mut r: Vec<Keybind> = Vec::new();
    let mut i: usize = 0;
    while i < v.len()
        invariant
            i <= v.len(),
            r@ == v@.take(i as int),
        decreases v.len() - i,
    {
        r.push(v[i]);
        proof {
            assert(r@ =~= v@.take(i + 1));
        }
        i = i + 1;
    }
    assert(v@.take(v.len() as int) =~= v@);
    r
}

/// A keybind kept by the filter was in the list.
proof fn lemma_filtered_was_listed(s: Seq<Keybind>, keybind: Keybind, k: Keybind)
    requires
        s.filter(other_than(keybind)).contains(k),
    ensures
        s.contains(k),
        k != keybind,
    decreases s.len(),
{
    reveal(Seq::filter);
    if s.len() > 0 {
        let f0 = s.drop_last().filter(other_than(keybind));
        if f0.contains(k) {
            lemma_filtered_was_listed(s.drop_last(), keybind, k);
            let n = choose|n: int| 0 <= n < s.drop_last().len() && s.drop_last()[n] == k;
            assert(s[n] == k);
        } else {
            assert(s.last() == k);
        }
    }
}

/// Removing a keybind that a list does not hold leaves the list as it is.
proof fn lemma_filter_absent(s: Seq<Keybind>, k: Keybind)
    requires
        !s.contains(k),
    ensures
        s.filter(other_than(k)) == s,
    decreases s.len(),
{
    reveal(Seq::filter);
    if s.len() > 0 {
        assert(!s.drop_last().contains(k)) by {
            if s.drop_last().contains(k) {
                let n = choose|n: int| 0 <= n < s.drop_last().len() && s.drop_last()[n] == k;
                assert(s[n] == k);
            }
        }
        lemma_filter_absent(s.drop_last(), k);
        assert(s.last() != k);
        assert(s.drop_last().push(s.last()) =~= s);
    }
}

/// A keybind triggers an action only if that action holds it, and every
/// keybind that an action holds triggers some action.
pub proof fn lemma_lookup_agrees_with_bindings(r: ShortcutRegistry, k: Keybind, a: AppAction)
    requires
        r.wf(),
    ensures
        r.action_of(k) == Some(a) ==> r.bindings_of(a).contains(k),
        r.bindings_of(a).contains(k) ==> r.action_of(k) is Some,
{
}

/// Binding a keybind that triggered nothing and then unbinding it gives back
/// the registry as it was: the same keybinds for every action and the same
/// action for every keybind.
pub proof fn lemma_unbind_undoes_fresh_bind(
    pre: ShortcutRegistry,
    mid: ShortcutRegistry,
    post: ShortcutRegistry,
    a: AppAction,
    k: Keybind,
)
    requires
        pre.wf(),
        pre.action_of(k) is None,
        bind_post(pre, mid, a, k),
        unbind_post(mid, post, k),
    ensures
        forall|b: AppAction| #[trigger] post.bindings_of(b) == pre.bindings_of(b),
        forall|k2: Keybind| #[trigger] post.action_of(k2) == pre.action_of(k2),
{
    assert forall|b: AppAction| #[trigger] post.bindings_of(b) == pre.bindings_of(b) by {
        let s = pre.bindings_of(b);
        assert(!s.contains(k));
        lemma_filter_absent(s, k);
        if b == a {
            reveal(Seq::filter);
            assert(s.push(k).drop_last() =~= s);
            assert(mid.bindings_of(b).filter(other_than(k)) == s.filter(other_than(k)));
        } else {
            assert(mid.bindings_of(b) == s);
        }
    }
}

/// Pressed keybinds fire each action at most once, and only actions that may
/// fire in the context.
pub proof fn lemma_fired_actions_distinct_and_allowed(
    r: ShortcutRegistry,
    pressed: Seq<Keybind>,
    context: ActionContext,
)
    ensures
        fired_actions(r, pressed, context).no_duplicates(),
        forall|i: int|
            0 <= i < fired_actions(r, pressed, context).len() ==> allowed_in(
                #[trigger] fired_actions(r, pressed, context)[i],
                context,
            ),
    decreases pressed.len(),
{
    if pressed.len() > 0 {
        lemma_fired_actions_distinct_and_allowed(r, pressed.drop_last(), context);
    }
}

} // verus!
