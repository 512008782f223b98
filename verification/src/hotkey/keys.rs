//! The hotkey grammar: `modifier+modifier+key`, case-insensitive.

use vstd::prelude::*;
use crate::text::{split_on, str_eq};

verus! {

/// The keys a hotkey binding can name.
#[derive(Debug, Clone, Copy, PartialEq, Eq, Hash, Structural)]
pub enum KeyCode {
    KeyA,
    KeyB,
    KeyC,
    KeyD,
    KeyE,
    KeyF,
    KeyG,
    KeyH,
    KeyI,
    KeyJ,
    KeyK,
    KeyL,
    KeyM,
    KeyN,
    KeyO,
    KeyP,
    KeyQ,
    KeyR,
    KeyS,
    KeyT,
    KeyU,
    KeyV,
    KeyW,
    KeyX,
    KeyY,
    KeyZ,
    Digit0,
    Digit1,
    Digit2,
    Digit3,
    Digit4,
    Digit5,
    Digit6,
    Digit7,
    Digit8,
    Digit9,
    ArrowLeft,
    ArrowRight,
    ArrowUp,
    ArrowDown,
    Enter,
    Space,
    Backspace,
    Tab,
    Escape,
    Delete,
    F1,
    F2,
    F3,
    F4,
    F5,
    F6,
    F7,
    F8,
    F9,
    F10,
    F11,
    F12,
}

/// The modifier keys a hotkey binding can name.
#[derive(Debug, Clone, Copy, PartialEq, Eq, Hash, Structural)]
pub enum Modifier {
    Ctrl,
    Alt,
    Shift,
    Meta,
}

/// Which modifiers a hotkey holds.
#[derive(Debug, Clone, Copy, PartialEq, Eq, Hash, Structural)]
pub struct ModifierSet {
    pub ctrl: bool,
    pub alt: bool,
    pub shift: bool,
    pub meta: bool,
}

/// The key a (lower-case) key name stands for: a letter, a digit, an arrow,
/// one of the named special keys, or a function key.
pub open spec fn key_from_name(n: Seq<char>) -> Option<KeyCode> {
    if n == "a"@ {
        Some(KeyCode::KeyA)
    } else if n == "b"@ {
        Some(KeyCode::KeyB)
    } else if n == "c"@ {
        Some(KeyCode::KeyC)
    } else if n == "d"@ {
        Some(KeyCode::KeyD)
    } else if n == "e"@ {
        Some(KeyCode::KeyE)
    } else if n == "f"@ {
        Some(KeyCode::KeyF)
    } else if n == "g"@ {
        Some(KeyCode::KeyG)
    } else if n == "h"@ {
        Some(KeyCode::KeyH)
    } else if n == "i"@ {
        Some(KeyCode::KeyI)
    } else if n == "j"@ {
        Some(KeyCode::KeyJ)
    } else if n == "k"@ {
        Some(KeyCode::KeyK)
    } else if n == "l"@ {
        Some(KeyCode::KeyL)
    } else if n == "m"@ {
        Some(KeyCode::KeyM)
    } else if n == "n"@ {
        Some(KeyCode::KeyN)
    } else if n == "o"@ {
        Some(KeyCode::KeyO)
    } else if n == "p"@ {
        Some(KeyCode::KeyP)
    } else if n == "q"@ {
        Some(KeyCode::KeyQ)
    } else if n == "r"@ {
        Some(KeyCode::KeyR)
    } else if n == "s"@ {
        Some(KeyCode::KeyS)
    } else if n == "t"@ {
        Some(KeyCode::KeyT)
    } else if n == "u"@ {
        Some(KeyCode::KeyU)
    } else if n == "v"@ {
        Some(KeyCode::KeyV)
    } else if n == "w"@ {
        Some(KeyCode::KeyW)
    } else if n == "x"@ {
        Some(KeyCode::KeyX)
    } else if n == "y"@ {
        Some(KeyCode::KeyY)
    } else if n == "z"@ {
        Some(KeyCode::KeyZ)
    } else if n == "0"@ {
        Some(KeyCode::Digit0)
    } else if n == "1"@ {
        Some(KeyCode::Digit1)
    } else if n == "2"@ {
        Some(KeyCode::Digit2)
    } else if n == "3"@ {
        Some(KeyCode::Digit3)
    } else if n == "4"@ {
        Some(KeyCode::Digit4)
    } else if n == "5"@ {
        Some(KeyCode::Digit5)
    } else if n == "6"@ {
        Some(KeyCode::Digit6)
    } else if n == "7"@ {
        Some(KeyCode::Digit7)
    } else if n == "8"@ {
        Some(KeyCode::Digit8)
    } else if n == "9"@ {
        Some(KeyCode::Digit9)
    } else if n == "left"@ {
        Some(KeyCode::ArrowLeft)
    } else if n == "arrowleft"@ {
        Some(KeyCode::ArrowLeft)
    } else if n == "right"@ {
        Some(KeyCode::ArrowRight)
    } else if n == "arrowright"@ {
        Some(KeyCode::ArrowRight)
    } else if n == "up"@ {
        Some(KeyCode::ArrowUp)
    } else if n == "arrowup"@ {
        Some(KeyCode::ArrowUp)
    } else if n == "down"@ {
        Some(KeyCode::ArrowDown)
    } else if n == "arrowdown"@ {
        Some(KeyCode::ArrowDown)
    } else if n == "enter"@ {
        Some(KeyCode::Enter)
    } else if n == "return"@ {
        Some(KeyCode::Enter)
    } else if n == "space"@ {
        Some(KeyCode::Space)
    } else if n == "backspace"@ {
        Some(KeyCode::Backspace)
    } else if n == "tab"@ {
        Some(KeyCode::Tab)
    } else if n == "escape"@ {
        Some(KeyCode::Escape)
    } else if n == "esc"@ {
        Some(KeyCode::Escape)
    } else if n == "delete"@ {
        Some(KeyCode::Delete)
    } else if n == "f1"@ {
        Some(KeyCode::F1)
    } else if n == "f2"@ {
        Some(KeyCode::F2)
    } else if n == "f3"@ {
        Some(KeyCode::F3)
    } else if n == "f4"@ {
        Some(KeyCode::F4)
    } else if n == "f5"@ {
        Some(KeyCode::F5)
    } else if n == "f6"@ {
        Some(KeyCode::F6)
    } else if n == "f7"@ {
        Some(KeyCode::F7)
    } else if n == "f8"@ {
        Some(KeyCode::F8)
    } else if n == "f9"@ {
        Some(KeyCode::F9)
    } else if n == "f10"@ {
        Some(KeyCode::F10)
    } else if n == "f11"@ {
        Some(KeyCode::F11)
    } else if n == "f12"@ {
        Some(KeyCode::F12)
    } else {
        None
    }
}

/// The name a binding uses for each key.
pub open spec fn key_name(k: KeyCode) -> Seq<char> {
    match k {
        KeyCode::KeyA => "a"@,
        KeyCode::KeyB => "b"@,
        KeyCode::KeyC => "c"@,
        KeyCode::KeyD => "d"@,
        KeyCode::KeyE => "e"@,
        KeyCode::KeyF => "f"@,
        KeyCode::KeyG => "g"@,
        KeyCode::KeyH => "h"@,
        KeyCode::KeyI => "i"@,
        KeyCode::KeyJ => "j"@,
        KeyCode::KeyK => "k"@,
        KeyCode::KeyL => "l"@,
        KeyCode::KeyM => "m"@,
        KeyCode::KeyN => "n"@,
        KeyCode::KeyO => "o"@,
        KeyCode::KeyP => "p"@,
        KeyCode::KeyQ => "q"@,
        KeyCode::KeyR => "r"@,
        KeyCode::KeyS => "s"@,
        KeyCode::KeyT => "t"@,
        KeyCode::KeyU => "u"@,
        KeyCode::KeyV => "v"@,
        KeyCode::KeyW => "w"@,
        KeyCode::KeyX => "x"@,
        KeyCode::KeyY => "y"@,
        KeyCode::KeyZ => "z"@,
        KeyCode::Digit0 => "0"@,
        KeyCode::Digit1 => "1"@,
        KeyCode::Digit2 => "2"@,
        KeyCode::Digit3 => "3"@,
        KeyCode::Digit4 => "4"@,
        KeyCode::Digit5 => "5"@,
        KeyCode::Digit6 => "6"@,
        KeyCode::Digit7 => "7"@,
        KeyCode::Digit8 => "8"@,
        KeyCode::Digit9 => "9"@,
        KeyCode::ArrowLeft => "left"@,
        KeyCode::ArrowRight => "right"@,
        KeyCode::ArrowUp => "up"@,
        KeyCode::ArrowDown => "down"@,
        KeyCode::Enter => "enter"@,
        KeyCode::Space => "space"@,
        KeyCode::Backspace => "backspace"@,
        KeyCode::Tab => "tab"@,
        KeyCode::Escape => "escape"@,
        KeyCode::Delete => "delete"@,
        KeyCode::F1 => "f1"@,
        KeyCode::F2 => "f2"@,
        KeyCode::F3 => "f3"@,
        KeyCode::F4 => "f4"@,
        KeyCode::F5 => "f5"@,
        KeyCode::F6 => "f6"@,
        KeyCode::F7 => "f7"@,
        KeyCode::F8 => "f8"@,
        KeyCode::F9 => "f9"@,
        KeyCode::F10 => "f10"@,
        KeyCode::F11 => "f11"@,
        KeyCode::F12 => "f12"@,
    }
}

/// The second name some keys also go by.
pub open spec fn key_alias(k: KeyCode) -> Option<Seq<char>> {
    match k {
        KeyCode::ArrowLeft => Some("arrowleft"@),
        KeyCode::ArrowRight => Some("arrowright"@),
        KeyCode::ArrowUp => Some("arrowup"@),
        KeyCode::ArrowDown => Some("arrowdown"@),
        KeyCode::Enter => Some("return"@),
        KeyCode::Escape => Some("esc"@),
        _ => None,
    }
}

/// The characters of the key names, spelled out.
proof fn lemma_key_name_spellings()
    ensures
        "a"@.len() == 1 && "a"@[0] == 'a',
        "b"@.len() == 1 && "b"@[0] == 'b',
        "c"@.len() == 1 && "c"@[0] == 'c',
        "d"@.len() == 1 && "d"@[0] == 'd',
        "e"@.len() == 1 && "e"@[0] == 'e',
        "f"@.len() == 1 && "f"@[0] == 'f',
        "g"@.len() == 1 && "g"@[0] == 'g',
        "h"@.len() == 1 && "h"@[0] == 'h',
        "i"@.len() == 1 && "i"@[0] == 'i',
        "j"@.len() == 1 && "j"@[0] == 'j',
        "k"@.len() == 1 && "k"@[0] == 'k',
        "l"@.len() == 1 && "l"@[0] == 'l',
        "m"@.len() == 1 && "m"@[0] == 'm',
        "n"@.len() == 1 && "n"@[0] == 'n',
        "o"@.len() == 1 && "o"@[0] == 'o',
        "p"@.len() == 1 && "p"@[0] == 'p',
        "q"@.len() == 1 && "q"@[0] == 'q',
        "r"@.len() == 1 && "r"@[0] == 'r',
        "s"@.len() == 1 && "s"@[0] == 's',
        "t"@.len() == 1 && "t"@[0] == 't',
        "u"@.len() == 1 && "u"@[0] == 'u',
        "v"@.len() == 1 && "v"@[0] == 'v',
        "w"@.len() == 1 && "w"@[0] == 'w',
        "x"@.len() == 1 && "x"@[0] == 'x',
        "y"@.len() == 1 && "y"@[0] == 'y',
        "z"@.len() == 1 && "z"@[0] == 'z',
        "0"@.len() == 1 && "0"@[0] == '0',
        "1"@.len() == 1 && "1"@[0] == '1',
        "2"@.len() == 1 && "2"@[0] == '2',
        "3"@.len() == 1 && "3"@[0] == '3',
        "4"@.len() == 1 && "4"@[0] == '4',
        "5"@.len() == 1 && "5"@[0] == '5',
        "6"@.len() == 1 && "6"@[0] == '6',
        "7"@.len() == 1 && "7"@[0] == '7',
        "8"@.len() == 1 && "8"@[0] == '8',
        "9"@.len() == 1 && "9"@[0] == '9',
        "left"@.len() == 4 && "left"@[0] == 'l' && "left"@[1] == 'e' && "left"@[2] == 'f' && "left"@[3] == 't',
        "arrowleft"@.len() == 9 && "arrowleft"@[0] == 'a' && "arrowleft"@[1] == 'r' && "arrowleft"@[2] == 'r' && "arrowleft"@[3] == 'o' && "arrowleft"@[4] == 'w' && "arrowleft"@[5] == 'l' && "arrowleft"@[6] == 'e' && "arrowleft"@[7] == 'f' && "arrowleft"@[8] == 't',
        "right"@.len() == 5 && "right"@[0] == 'r' && "right"@[1] == 'i' && "right"@[2] == 'g' && "right"@[3] == 'h' && "right"@[4] == 't',
        "arrowright"@.len() == 10 && "arrowright"@[0] == 'a' && "arrowright"@[1] == 'r' && "arrowright"@[2] == 'r' && "arrowright"@[3] == 'o' && "arrowright"@[4] == 'w' && "arrowright"@[5] == 'r' && "arrowright"@[6] == 'i' && "arrowright"@[7] == 'g' && "arrowright"@[8] == 'h' && "arrowright"@[9] == 't',
        "up"@.len() == 2 && "up"@[0] == 'u' && "up"@[1] == 'p',
        "arrowup"@.len() == 7 && "arrowup"@[0] == 'a' && "arrowup"@[1] == 'r' && "arrowup"@[2] == 'r' && "arrowup"@[3] == 'o' && "arrowup"@[4] == 'w' && "arrowup"@[5] == 'u' && "arrowup"@[6] == 'p',
        "down"@.len() == 4 && "down"@[0] == 'd' && "down"@[1] == 'o' && "down"@[2] == 'w' && "down"@[3] == 'n',
        "arrowdown"@.len() == 9 && "arrowdown"@[0] == 'a' && "arrowdown"@[1] == 'r' && "arrowdown"@[2] == 'r' && "arrowdown"@[3] == 'o' && "arrowdown"@[4] == 'w' && "arrowdown"@[5] == 'd' && "arrowdown"@[6] == 'o' && "arrowdown"@[7] == 'w' && "arrowdown"@[8] == 'n',
        "enter"@.len() == 5 && "enter"@[0] == 'e' && "enter"@[1] == 'n' && "enter"@[2] == 't' && "enter"@[3] == 'e' && "enter"@[4] == 'r',
        "return"@.len() == 6 && "return"@[0] == 'r' && "return"@[1] == 'e' && "return"@[2] == 't' && "return"@[3] == 'u' && "return"@[4] == 'r' && "return"@[5] == 'n',
        "space"@.len() == 5 && "space"@[0] == 's' && "space"@[1] == 'p' && "space"@[2] == 'a' && "space"@[3] == 'c' && "space"@[4] == 'e',
        "backspace"@.len() == 9 && "backspace"@[0] == 'b' && "backspace"@[1] == 'a' && "backspace"@[2] == 'c' && "backspace"@[3] == 'k' && "backspace"@[4] == 's' && "backspace"@[5] == 'p' && "backspace"@[6] == 'a' && "backspace"@[7] == 'c' && "backspace"@[8] == 'e',
        "tab"@.len() == 3 && "tab"@[0] == 't' && "tab"@[1] == 'a' && "tab"@[2] == 'b',
        "escape"@.len() == 6 && "escape"@[0] == 'e' && "escape"@[1] == 's' && "escape"@[2] == 'c' && "escape"@[3] == 'a' && "escape"@[4] == 'p' && "escape"@[5] == 'e',
        "esc"@.len() == 3 && "esc"@[0] == 'e' && "esc"@[1] == 's' && "esc"@[2] == 'c',
        "delete"@.len() == 6 && "delete"@[0] == 'd' && "delete"@[1] == 'e' && "delete"@[2] == 'l' && "delete"@[3] == 'e' && "delete"@[4] == 't' && "delete"@[5] == 'e',
        "f1"@.len() == 2 && "f1"@[0] == 'f' && "f1"@[1] == '1',
        "f2"@.len() == 2 && "f2"@[0] == 'f' && "f2"@[1] == '2',
        "f3"@.len() == 2 && "f3"@[0] == 'f' && "f3"@[1] == '3',
        "f4"@.len() == 2 && "f4"@[0] == 'f' && "f4"@[1] == '4',
        "f5"@.len() == 2 && "f5"@[0] == 'f' && "f5"@[1] == '5',
        "f6"@.len() == 2 && "f6"@[0] == 'f' && "f6"@[1] == '6',
        "f7"@.len() == 2 && "f7"@[0] == 'f' && "f7"@[1] == '7',
        "f8"@.len() == 2 && "f8"@[0] == 'f' && "f8"@[1] == '8',
        "f9"@.len() == 2 && "f9"@[0] == 'f' && "f9"@[1] == '9',
        "f10"@.len() == 3 && "f10"@[0] == 'f' && "f10"@[1] == '1' && "f10"@[2] == '0',
        "f11"@.len() == 3 && "f11"@[0] == 'f' && "f11"@[1] == '1' && "f11"@[2] == '1',
        "f12"@.len() == 3 && "f12"@[0] == 'f' && "f12"@[1] == '1' && "f12"@[2] == '2',
{
    reveal_strlit("a");
    reveal_strlit("b");
    reveal_strlit("c");
    reveal_strlit("d");
    reveal_strlit("e");
    reveal_strlit("f");
    reveal_strlit("g");
    reveal_strlit("h");
    reveal_strlit("i");
    reveal_strlit("j");
    reveal_strlit("k");
    reveal_strlit("l");
    reveal_strlit("m");
    reveal_strlit("n");
    reveal_strlit("o");
    reveal_strlit("p");
    reveal_strlit("q");
    reveal_strlit("r");
    reveal_strlit("s");
    reveal_strlit("t");
    reveal_strlit("u");
    reveal_strlit("v");
    reveal_strlit("w");
    reveal_strlit("x");
    reveal_strlit("y");
    reveal_strlit("z");
    reveal_strlit("0");
    reveal_strlit("1");
    reveal_strlit("2");
    reveal_strlit("3");
    reveal_strlit("4");
    reveal_strlit("5");
    reveal_strlit("6");
    reveal_strlit("7");
    reveal_strlit("8");
    reveal_strlit("9");
    reveal_strlit("left");
    reveal_strlit("arrowleft");
    reveal_strlit("right");
    reveal_strlit("arrowright");
    reveal_strlit("up");
    reveal_strlit("arrowup");
    reveal_strlit("down");
    reveal_strlit("arrowdown");
    reveal_strlit("enter");
    reveal_strlit("return");
    reveal_strlit("space");
    reveal_strlit("backspace");
    reveal_strlit("tab");
    reveal_strlit("escape");
    reveal_strlit("esc");
    reveal_strlit("delete");
    reveal_strlit("f1");
    reveal_strlit("f2");
    reveal_strlit("f3");
    reveal_strlit("f4");
    reveal_strlit("f5");
    reveal_strlit("f6");
    reveal_strlit("f7");
    reveal_strlit("f8");
    reveal_strlit("f9");
    reveal_strlit("f10");
    reveal_strlit("f11");
    reveal_strlit("f12");
}

/// Every key reads back from its name, and from its alias where it has one:
/// `up` and `arrowup` both name the up arrow, `down` and `arrowdown` the
/// down arrow, and so on for every key.
pub proof fn lemma_key_names_read_back(k: KeyCode)
    ensures
        key_from_name(key_name(k)) == Some(k),
        key_alias(k) matches Some(a) ==> key_from_name(a) == Some(k),
{
    lemma_key_name_spellings();
}

/// A name reads as a key only when it is that key's name or its alias, so
/// no name reads as some other key.
pub proof fn lemma_key_names_are_exact(n: Seq<char>)
    ensures
        key_from_name(n) matches Some(k) ==> (n == key_name(k) || key_alias(k) == Some(n)),
{
}

/// The modifier a (lower-case) modifier name stands for.
pub open spec fn modifier_from_name(n: Seq<char>) -> Option<Modifier> {
    if n == "ctrl"@ || n == "control"@ {
        Some(Modifier::Ctrl)
    } else if n == "alt"@ || n == "option"@ || n == "opt"@ {
        Some(Modifier::Alt)
    } else if n == "shift"@ {
        Some(Modifier::Shift)
    } else if n == "cmd"@ || n == "command"@ || n == "meta"@ || n == "super"@ {
        Some(Modifier::Meta)
    } else {
        None
    }
}

/// The key a key name stands for.
pub fn key_from_str(key: &str) -> (r: Option<KeyCode>)
    ensures
        r == key_from_name(key@),
{
    if str_eq(key, "a") {
        Some(KeyCode::KeyA)
    } else if str_eq(key, "b") {
        Some(KeyCode::KeyB)
    } else if str_eq(key, "c") {
        Some(KeyCode::KeyC)
    } else if str_eq(key, "d") {
        Some(KeyCode::KeyD)
    } else if str_eq(key, "e") {
        Some(KeyCode::KeyE)
    } else if str_eq(key, "f") {
        Some(KeyCode::KeyF)
    } else if str_eq(key, "g") {
        Some(KeyCode::KeyG)
    } else if str_eq(key, "h") {
        Some(KeyCode::KeyH)
    } else if str_eq(key, "i") {
        Some(KeyCode::KeyI)
    } else if str_eq(key, "j") {
        Some(KeyCode::KeyJ)
    } else if str_eq(key, "k") {
        Some(KeyCode::KeyK)
    } else if str_eq(key, "l") {
        Some(KeyCode::KeyL)
    } else if str_eq(key, "m") {
        Some(KeyCode::KeyM)
    } else if str_eq(key, "n") {
        Some(KeyCode::KeyN)
    } else if str_eq(key, "o") {
        Some(KeyCode::KeyO)
    } else if str_eq(key, "p") {
        Some(KeyCode::KeyP)
    } else if str_eq(key, "q") {
        Some(KeyCode::KeyQ)
    } else if str_eq(key, "r") {
        Some(KeyCode::KeyR)
    } else if str_eq(key, "s") {
        Some(KeyCode::KeyS)
    } else if str_eq(key, "t") {
        Some(KeyCode::KeyT)
    } else if str_eq(key, "u") {
        Some(KeyCode::KeyU)
    } else if str_eq(key, "v") {
        Some(KeyCode::KeyV)
    } else if str_eq(key, "w") {
        Some(KeyCode::KeyW)
    } else if str_eq(key, "x") {
        Some(KeyCode::KeyX)
    } else if str_eq(key, "y") {
        Some(KeyCode::KeyY)
    } else if str_eq(key, "z") {
        Some(KeyCode::KeyZ)
    } else if str_eq(key, "0") {
        Some(KeyCode::Digit0)
    } else if str_eq(key, "1") {
        Some(KeyCode::Digit1)
    } else if str_eq(key, "2") {
        Some(KeyCode::Digit2)
    } else if str_eq(key, "3") {
        Some(KeyCode::Digit3)
    } else if str_eq(key, "4") {
        Some(KeyCode::Digit4)
    } else if str_eq(key, "5") {
        Some(KeyCode::Digit5)
    } else if str_eq(key, "6") {
        Some(KeyCode::Digit6)
    } else if str_eq(key, "7") {
        Some(KeyCode::Digit7)
    } else if str_eq(key, "8") {
        Some(KeyCode::Digit8)
    } else if str_eq(key, "9") {
        Some(KeyCode::Digit9)
    } else if str_eq(key, "left") {
        Some(KeyCode::ArrowLeft)
    } else if str_eq(key, "arrowleft") {
        Some(KeyCode::ArrowLeft)
    } else if str_eq(key, "right") {
        Some(KeyCode::ArrowRight)
    } else if str_eq(key, "arrowright") {
        Some(KeyCode::ArrowRight)
    } else if str_eq(key, "up") {
        Some(KeyCode::ArrowUp)
    } else if str_eq(key, "arrowup") {
        Some(KeyCode::ArrowUp)
    } else if str_eq(key, "down") {
        Some(KeyCode::ArrowDown)
    } else if str_eq(key, "arrowdown") {
        Some(KeyCode::ArrowDown)
    } else if str_eq(key, "enter") {
        Some(KeyCode::Enter)
    } else if str_eq(key, "return") {
        Some(KeyCode::Enter)
    } else if str_eq(key, "space") {
        Some(KeyCode::Space)
    } else if str_eq(key, "backspace") {
        Some(KeyCode::Backspace)
    } else if str_eq(key, "tab") {
        Some(KeyCode::Tab)
    } else if str_eq(key, "escape") {
        Some(KeyCode::Escape)
    } else if str_eq(key, "esc") {
        Some(KeyCode::Escape)
    } else if str_eq(key, "delete") {
        Some(KeyCode::Delete)
    } else if str_eq(key, "f1") {
        Some(KeyCode::F1)
    } else if str_eq(key, "f2") {
        Some(KeyCode::F2)
    } else if str_eq(key, "f3") {
        Some(KeyCode::F3)
    } else if str_eq(key, "f4") {
        Some(KeyCode::F4)
    } else if str_eq(key, "f5") {
        Some(KeyCode::F5)
    } else if str_eq(key, "f6") {
        Some(KeyCode::F6)
    } else if str_eq(key, "f7") {
        Some(KeyCode::F7)
    } else if str_eq(key, "f8") {
        Some(KeyCode::F8)
    } else if str_eq(key, "f9") {
        Some(KeyCode::F9)
    } else if str_eq(key, "f10") {
        Some(KeyCode::F10)
    } else if str_eq(key, "f11") {
        Some(KeyCode::F11)
    } else if str_eq(key, "f12") {
        Some(KeyCode::F12)
    } else {
        None
    }
}

/// The modifier a modifier name stands for.
pub fn modifier_from_str(part: &str) -> (r: Option<Modifier>)
    ensures
        r == modifier_from_name(part@),
{
    if str_eq(part, "ctrl") || str_eq(part, "control") {
        Some(Modifier::Ctrl)
    } else if str_eq(part, "alt") || str_eq(part, "option") || str_eq(part, "opt") {
        Some(Modifier::Alt)
    } else if str_eq(part, "shift") {
        Some(Modifier::Shift)
    } else if str_eq(part, "cmd") || str_eq(part, "command") || str_eq(part, "meta") || str_eq(part, "super") {
        Some(Modifier::Meta)
    } else {
        None
    }
}

impl ModifierSet {
    /// No modifier.
    pub open spec fn none() -> ModifierSet {
        ModifierSet { ctrl: false, alt: false, shift: false, meta: false }
    }

    /// This set with `m` added.
    pub open spec fn with(self, m: Modifier) -> ModifierSet {
        match m {
            Modifier::Ctrl => ModifierSet { ctrl: true, ..self },
            Modifier::Alt => ModifierSet { alt: true, ..self },
            Modifier::Shift => ModifierSet { shift: true, ..self },
            Modifier::Meta => ModifierSet { meta: true, ..self },
        }
    }

    /// The empty set of modifiers.
    pub fn empty() -> (r: ModifierSet)
        ensures
            r == ModifierSet::none(),
    {
        ModifierSet { ctrl: false, alt: false, shift: false, meta: false }
    }

    /// Adds `m` to the set.
    pub fn add(&mut self, m: Modifier)
        ensures
            *final(self) == old(self).with(m),
    {
        match m {
            Modifier::Ctrl => self.ctrl = true,
            Modifier::Alt => self.alt = true,
            Modifier::Shift => self.shift = true,
            Modifier::Meta => self.meta = true,
        }
    }
}

/// What a lower-case hotkey string reads as.
pub enum HotkeyReading {
    /// Modifiers and key of a well-formed binding.
    Parsed(ModifierSet, KeyCode),
    /// The first piece before the key that names no modifier.
    UnknownModifier(Seq<char>),
    /// The last piece, which names no key.
    UnknownKey(Seq<char>),
}

/// Reads the modifier pieces in order; the first piece that names no
/// modifier is returned as the error.
pub open spec fn read_modifiers(parts: Seq<Seq<char>>) -> Result<ModifierSet, Seq<char>>
    decreases parts.len(),
{
    if parts.len() == 0 {
        Ok(ModifierSet::none())
    } else {
        match read_modifiers(parts.drop_last()) {
            Err(p) => Err(p),
            Ok(m) => match modifier_from_name(parts.last()) {
                Some(x) => Ok(m.with(x)),
                None => Err(parts.last()),
            },
        }
    }
}

/// Every piece but the last is a modifier, the last is the key.
pub open spec fn read_parts(parts: Seq<Seq<char>>) -> HotkeyReading {
    match read_modifiers(parts.drop_last()) {
        Err(p) => HotkeyReading::UnknownModifier(p),
        Ok(m) => match key_from_name(parts.last()) {
            Some(k) => HotkeyReading::Parsed(m, k),
            None => HotkeyReading::UnknownKey(parts.last()),
        },
    }
}

/// How a lower-case hotkey string such as `ctrl+alt+left` reads: its pieces
/// between `+` signs are the modifiers and, last, the key.
pub open spec fn read_hotkey(lowered: Seq<char>) -> HotkeyReading {
    read_parts(split_on(lowered, '+'))
}

/// Once a piece fails to name a modifier, reading stops there.
pub proof fn lemma_read_modifiers_stops(parts: Seq<Seq<char>>, i: int)
    requires
        0 <= i < parts.len(),
        read_modifiers(parts.take(i)) is Ok,
        modifier_from_name(parts[i]) is None,
    ensures
        read_modifiers(parts) == Err::<ModifierSet, Seq<char>>(parts[i]),
    decreases parts.len(),
{
    if parts.len() == i + 1 {
        assert(parts.drop_last() =~= parts.take(i));
    } else {
        assert(parts.drop_last().take(i) =~= parts.take(i));
        lemma_read_modifiers_stops(parts.drop_last(), i);
    }
}

} // verus!
