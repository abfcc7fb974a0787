//! Keyboard keys, their canonical names, and the lookup in both directions.

use vstd::prelude::*;
use vstd::string::*;

verus! {

/// A key of the keyboard, as the low-level keyboard hook reports it.
///
/// `Unknown` carries the raw platform code of a key that has no variant of its own.
#[derive(Clone, Copy, Debug, PartialEq, Eq, Structural, Hash)]
pub enum Key {
    Alt,
    AltGr,
    Backspace,
    CapsLock,
    ControlLeft,
    ControlRight,
    Delete,
    DownArrow,
    End,
    Escape,
    F1,
    F10,
    F11,
    F12,
    F2,
    F3,
    F4,
    F5,
    F6,
    F7,
    F8,
    F9,
    Home,
    LeftArrow,
    MetaLeft,
    MetaRight,
    PageDown,
    PageUp,
    Return,
    RightArrow,
    ShiftLeft,
    ShiftRight,
    Space,
    Tab,
    UpArrow,
    PrintScreen,
    ScrollLock,
    Pause,
    NumLock,
    BackQuote,
    Num1,
    Num2,
    Num3,
    Num4,
    Num5,
    Num6,
    Num7,
    Num8,
    Num9,
    Num0,
    Minus,
    Equal,
    KeyQ,
    KeyW,
    KeyE,
    KeyR,
    KeyT,
    KeyY,
    KeyU,
    KeyI,
    KeyO,
    KeyP,
    LeftBracket,
    RightBracket,
    KeyA,
    KeyS,
    KeyD,
    KeyF,
    KeyG,
    KeyH,
    KeyJ,
    KeyK,
    KeyL,
    SemiColon,
    Quote,
    BackSlash,
    IntlBackslash,
    KeyZ,
    KeyX,
    KeyC,
    KeyV,
    KeyB,
    KeyN,
    KeyM,
    Comma,
    Dot,
    Slash,
    Insert,
    KpReturn,
    KpMinus,
    KpPlus,
    KpMultiply,
    KpDivide,
    Kp0,
    Kp1,
    Kp2,
    Kp3,
    Kp4,
    Kp5,
    Kp6,
    Kp7,
    Kp8,
    Kp9,
    KpDelete,
    Function,
    Unknown(u32),
}

/// The number of keys that have a variant of their own.
pub const NAMED_KEY_COUNT: u64 = 105;

/// The canonical name of a key. Every unmapped key is named `Unknown`.
pub open spec fn key_name(key: Key) -> Seq<char> {
    match key {
        Key::Alt => "Alt"@,
        Key::AltGr => "AltGr"@,
        Key::Backspace => "Backspace"@,
        Key::CapsLock => "CapsLock"@,
        Key::ControlLeft => "LCtrl"@,
        Key::ControlRight => "RCtrl"@,
        Key::Delete => "Del"@,
        Key::DownArrow => "DownArrow"@,
        Key::End => "End"@,
        Key::Escape => "Escape"@,
        Key::F1 => "F1"@,
        Key::F10 => "F10"@,
        Key::F11 => "F11"@,
        Key::F12 => "F12"@,
        Key::F2 => "F2"@,
        Key::F3 => "F3"@,
        Key::F4 => "F4"@,
        Key::F5 => "F5"@,
        Key::F6 => "F6"@,
        Key::F7 => "F7"@,
        Key::F8 => "F8"@,
        Key::F9 => "F9"@,
        Key::Home => "Home"@,
        Key::LeftArrow => "LeftArrow"@,
        Key::MetaLeft => "LMeta"@,
        Key::MetaRight => "RMeta"@,
        Key::PageDown => "PgDown"@,
        Key::PageUp => "PgUp"@,
        Key::Return => "Return"@,
        Key::RightArrow => "RightArrow"@,
        Key::ShiftLeft => "LShft"@,
        Key::ShiftRight => "RShft"@,
        Key::Space => "Space"@,
        Key::Tab => "Tab"@,
        Key::UpArrow => "UpArrow"@,
        Key::PrintScreen => "PrintScreen"@,
        Key::ScrollLock => "ScrollLock"@,
        Key::Pause => "Pause"@,
        Key::NumLock => "NumLock"@,
        Key::BackQuote => "`"@,
        Key::Num1 => "1"@,
        Key::Num2 => "2"@,
        Key::Num3 => "3"@,
        Key::Num4 => "4"@,
        Key::Num5 => "5"@,
        Key::Num6 => "6"@,
        Key::Num7 => "7"@,
        Key::Num8 => "8"@,
        Key::Num9 => "9"@,
        Key::Num0 => "0"@,
        Key::Minus => "-"@,
        Key::Equal => "="@,
        Key::KeyQ => "Q"@,
        Key::KeyW => "W"@,
        Key::KeyE => "E"@,
        Key::KeyR => "R"@,
        Key::KeyT => "T"@,
        Key::KeyY => "Y"@,
        Key::KeyU => "U"@,
        Key::KeyI => "I"@,
        Key::KeyO => "O"@,
        Key::KeyP => "P"@,
        Key::LeftBracket => "("@,
        Key::RightBracket => ")"@,
        Key::KeyA => "A"@,
        Key::KeyS => "S"@,
        Key::KeyD => "D"@,
        Key::KeyF => "F"@,
        Key::KeyG => "G"@,
        Key::KeyH => "H"@,
        Key::KeyJ => "J"@,
        Key::KeyK => "K"@,
        Key::KeyL => "L"@,
        Key::SemiColon => ";"@,
        Key::Quote => "\""@,
        Key::BackSlash => "\\"@,
        Key::IntlBackslash => "\\"@,
        Key::KeyZ => "Z"@,
        Key::KeyX => "X"@,
        Key::KeyC => "C"@,
        Key::KeyV => "V"@,
        Key::KeyB => "B"@,
        Key::KeyN => "N"@,
        Key::KeyM => "M"@,
        Key::Comma => ","@,
        Key::Dot => "."@,
        Key::Slash => "/"@,
        Key::Insert => "Insert"@,
        Key::KpReturn => "KpReturn"@,
        Key::KpMinus => "KpMinus"@,
        Key::KpPlus => "KpPlus"@,
        Key::KpMultiply => "KpMultiply"@,
        Key::KpDivide => "KpDivide"@,
        Key::Kp0 => "Kp0"@,
        Key::Kp1 => "Kp1"@,
        Key::Kp2 => "Kp2"@,
        Key::Kp3 => "Kp3"@,
        Key::Kp4 => "Kp4"@,
        Key::Kp5 => "Kp5"@,
        Key::Kp6 => "Kp6"@,
        Key::Kp7 => "Kp7"@,
        Key::Kp8 => "Kp8"@,
        Key::Kp9 => "Kp9"@,
        Key::KpDelete => "KpDelete"@,
        Key::Function => "Function"@,
        Key::Unknown(_) => "Unknown"@,
    }
}

/// A number that identifies a key: its position among the named keys, or, for an
/// unmapped key, its raw code shifted past them.
pub open spec fn key_code(key: Key) -> u64 {
    match key {
        Key::Alt => 0,
        Key::AltGr => 1,
        Key::Backspace => 2,
        Key::CapsLock => 3,
        Key::ControlLeft => 4,
        Key::ControlRight => 5,
        Key::Delete => 6,
        Key::DownArrow => 7,
        Key::End => 8,
        Key::Escape => 9,
        Key::F1 => 10,
        Key::F10 => 11,
        Key::F11 => 12,
        Key::F12 => 13,
        Key::F2 => 14,
        Key::F3 => 15,
        Key::F4 => 16,
        Key::F5 => 17,
        Key::F6 => 18,
        Key::F7 => 19,
        Key::F8 => 20,
        Key::F9 => 21,
        Key::Home => 22,
        Key::LeftArrow => 23,
        Key::MetaLeft => 24,
        Key::MetaRight => 25,
        Key::PageDown => 26,
        Key::PageUp => 27,
        Key::Return => 28,
        Key::RightArrow => 29,
        Key::ShiftLeft => 30,
        Key::ShiftRight => 31,
        Key::Space => 32,
        Key::Tab => 33,
        Key::UpArrow => 34,
        Key::PrintScreen => 35,
        Key::ScrollLock => 36,
        Key::Pause => 37,
        Key::NumLock => 38,
        Key::BackQuote => 39,
        Key::Num1 => 40,
        Key::Num2 => 41,
        Key::Num3 => 42,
        Key::Num4 => 43,
        Key::Num5 => 44,
        Key::Num6 => 45,
        Key::Num7 => 46,
        Key::Num8 => 47,
        Key::Num9 => 48,
        Key::Num0 => 49,
        Key::Minus => 50,
        Key::Equal => 51,
        Key::KeyQ => 52,
        Key::KeyW => 53,
        Key::KeyE => 54,
        Key::KeyR => 55,
        Key::KeyT => 56,
        Key::KeyY => 57,
        Key::KeyU => 58,
        Key::KeyI => 59,
        Key::KeyO => 60,
        Key::KeyP => 61,
        Key::LeftBracket => 62,
        Key::RightBracket => 63,
        Key::KeyA => 64,
        Key::KeyS => 65,
        Key::KeyD => 66,
        Key::KeyF => 67,
        Key::KeyG => 68,
        Key::KeyH => 69,
        Key::KeyJ => 70,
        Key::KeyK => 71,
        Key::KeyL => 72,
        Key::SemiColon => 73,
        Key::Quote => 74,
        Key::BackSlash => 75,
        Key::IntlBackslash => 76,
        Key::KeyZ => 77,
        Key::KeyX => 78,
        Key::KeyC => 79,
        Key::KeyV => 80,
        Key::KeyB => 81,
        Key::KeyN => 82,
        Key::KeyM => 83,
        Key::Comma => 84,
        Key::Dot => 85,
        Key::Slash => 86,
        Key::Insert => 87,
        Key::KpReturn => 88,
        Key::KpMinus => 89,
        Key::KpPlus => 90,
        Key::KpMultiply => 91,
        Key::KpDivide => 92,
        Key::Kp0 => 93,
        Key::Kp1 => 94,
        Key::Kp2 => 95,
        Key::Kp3 => 96,
        Key::Kp4 => 97,
        Key::Kp5 => 98,
        Key::Kp6 => 99,
        Key::Kp7 => 100,
        Key::Kp8 => 101,
        Key::Kp9 => 102,
        Key::KpDelete => 103,
        Key::Function => 104,
        Key::Unknown(raw) => (NAMED_KEY_COUNT + raw) as u64,
    }
}

/// Whether a name can be read back into the key: the key has a variant of its own and
/// does not share its name with another key.
pub open spec fn is_parsable(key: Key) -> bool {
    key !is Unknown && key != Key::IntlBackslash
}

/// The key that a name is read back into: the parsable key that bears the name, if
/// there is one.
pub open spec fn key_of_name(name: Seq<char>) -> Option<Key> {
    if exists|key: Key| is_parsable(key) && key_name(key) == name {
        Some(choose|key: Key| is_parsable(key) && key_name(key) == name)
    } else {
        None
    }
}

/// Returns the canonical name of `key`.
pub fn key_to_string(key: Key) -> (name: String)
    ensures
        name@ == key_name(key),
{
    match key {
        Key::Alt => "Alt".to_owned(),
        Key::AltGr => "AltGr".to_owned(),
        Key::Backspace => "Backspace".to_owned(),
        Key::CapsLock => "CapsLock".to_owned(),
        Key::ControlLeft => "LCtrl".to_owned(),
        Key::ControlRight => "RCtrl".to_owned(),
        Key::Delete => "Del".to_owned(),
        Key::DownArrow => "DownArrow".to_owned(),
        Key::End => "End".to_owned(),
        Key::Escape => "Escape".to_owned(),
        Key::F1 => "F1".to_owned(),
        Key::F10 => "F10".to_owned(),
        Key::F11 => "F11".to_owned(),
        Key::F12 => "F12".to_owned(),
        Key::F2 => "F2".to_owned(),
        Key::F3 => "F3".to_owned(),
        Key::F4 => "F4".to_owned(),
        Key::F5 => "F5".to_owned(),
        Key::F6 => "F6".to_owned(),
        Key::F7 => "F7".to_owned(),
        Key::F8 => "F8".to_owned(),
        Key::F9 => "F9".to_owned(),
        Key::Home => "Home".to_owned(),
        Key::LeftArrow => "LeftArrow".to_owned(),
        Key::MetaLeft => "LMeta".to_owned(),
        Key::MetaRight => "RMeta".to_owned(),
        Key::PageDown => "PgDown".to_owned(),
        Key::PageUp => "PgUp".to_owned(),
        Key::Return => "Return".to_owned(),
        Key::RightArrow => "RightArrow".to_owned(),
        Key::ShiftLeft => "LShft".to_owned(),
        Key::ShiftRight => "RShft".to_owned(),
        Key::Space => "Space".to_owned(),
        Key::Tab => "Tab".to_owned(),
        Key::UpArrow => "UpArrow".to_owned(),
        Key::PrintScreen => "PrintScreen".to_owned(),
        Key::ScrollLock => "ScrollLock".to_owned(),
        Key::Pause => "Pause".to_owned(),
        Key::NumLock => "NumLock".to_owned(),
        Key::BackQuote => "`".to_owned(),
        Key::Num1 => "1".to_owned(),
        Key::Num2 => "2".to_owned(),
        Key::Num3 => "3".to_owned(),
        Key::Num4 => "4".to_owned(),
        Key::Num5 => "5".to_owned(),
        Key::Num6 => "6".to_owned(),
        Key::Num7 => "7".to_owned(),
        Key::Num8 => "8".to_owned(),
        Key::Num9 => "9".to_owned(),
        Key::Num0 => "0".to_owned(),
        Key::Minus => "-".to_owned(),
        Key::Equal => "=".to_owned(),
        Key::KeyQ => "Q".to_owned(),
        Key::KeyW => "W".to_owned(),
        Key::KeyE => "E".to_owned(),
        Key::KeyR => "R".to_owned(),
        Key::KeyT => "T".to_owned(),
        Key::KeyY => "Y".to_owned(),
        Key::KeyU => "U".to_owned(),
        Key::KeyI => "I".to_owned(),
        Key::KeyO => "O".to_owned(),
        Key::KeyP => "P".to_owned(),
        Key::LeftBracket => "(".to_owned(),
        Key::RightBracket => ")".to_owned(),
        Key::KeyA => "A".to_owned(),
        Key::KeyS => "S".to_owned(),
        Key::KeyD => "D".to_owned(),
        Key::KeyF => "F".to_owned(),
        Key::KeyG => "G".to_owned(),
        Key::KeyH => "H".to_owned(),
        Key::KeyJ => "J".to_owned(),
        Key::KeyK => "K".to_owned(),
        Key::KeyL => "L".to_owned(),
        Key::SemiColon => ";".to_owned(),
        Key::Quote => "\"".to_owned(),
        Key::BackSlash => "\\".to_owned(),
        Key::IntlBackslash => "\\".to_owned(),
        Key::KeyZ => "Z".to_owned(),
        Key::KeyX => "X".to_owned(),
        Key::KeyC => "C".to_owned(),
        Key::KeyV => "V".to_owned(),
        Key::KeyB => "B".to_owned(),
        Key::KeyN => "N".to_owned(),
        Key::KeyM => "M".to_owned(),
        Key::Comma => ",".to_owned(),
        Key::Dot => ".".to_owned(),
        Key::Slash => "/".to_owned(),
        Key::Insert => "Insert".to_owned(),
        Key::KpReturn => "KpReturn".to_owned(),
        Key::KpMinus => "KpMinus".to_owned(),
        Key::KpPlus => "KpPlus".to_owned(),
        Key::KpMultiply => "KpMultiply".to_owned(),
        Key::KpDivide => "KpDivide".to_owned(),
        Key::Kp0 => "Kp0".to_owned(),
        Key::Kp1 => "Kp1".to_owned(),
        Key::Kp2 => "Kp2".to_owned(),
        Key::Kp3 => "Kp3".to_owned(),
        Key::Kp4 => "Kp4".to_owned(),
        Key::Kp5 => "Kp5".to_owned(),
        Key::Kp6 => "Kp6".to_owned(),
        Key::Kp7 => "Kp7".to_owned(),
        Key::Kp8 => "Kp8".to_owned(),
        Key::Kp9 => "Kp9".to_owned(),
        Key::KpDelete => "KpDelete".to_owned(),
        Key::Function => "Function".to_owned(),
        Key::Unknown(_) => "Unknown".to_owned(),
    }
}

/// Returns the number that identifies `key` in a map of pressed keys.
pub fn key_to_code(key: Key) -> (code: u64)
    ensures
        code == key_code(key),
{
    match key {
        Key::Alt => 0,
        Key::AltGr => 1,
        Key::Backspace => 2,
        Key::CapsLock => 3,
        Key::ControlLeft => 4,
        Key::ControlRight => 5,
        Key::Delete => 6,
        Key::DownArrow => 7,
        Key::End => 8,
        Key::Escape => 9,
        Key::F1 => 10,
        Key::F10 => 11,
        Key::F11 => 12,
        Key::F12 => 13,
        Key::F2 => 14,
        Key::F3 => 15,
        Key::F4 => 16,
        Key::F5 => 17,
        Key::F6 => 18,
        Key::F7 => 19,
        Key::F8 => 20,
        Key::F9 => 21,
        Key::Home => 22,
        Key::LeftArrow => 23,
        Key::MetaLeft => 24,
        Key::MetaRight => 25,
        Key::PageDown => 26,
        Key::PageUp => 27,
        Key::Return => 28,
        Key::RightArrow => 29,
        Key::ShiftLeft => 30,
        Key::ShiftRight => 31,
        Key::Space => 32,
        Key::Tab => 33,
        Key::UpArrow => 34,
        Key::PrintScreen => 35,
        Key::ScrollLock => 36,
        Key::Pause => 37,
        Key::NumLock => 38,
        Key::BackQuote => 39,
        Key::Num1 => 40,
        Key::Num2 => 41,
        Key::Num3 => 42,
        Key::Num4 => 43,
        Key::Num5 => 44,
        Key::Num6 => 45,
        Key::Num7 => 46,
        Key::Num8 => 47,
        Key::Num9 => 48,
        Key::Num0 => 49,
        Key::Minus => 50,
        Key::Equal => 51,
        Key::KeyQ => 52,
        Key::KeyW => 53,
        Key::KeyE => 54,
        Key::KeyR => 55,
        Key::KeyT => 56,
        Key::KeyY => 57,
        Key::KeyU => 58,
        Key::KeyI => 59,
        Key::KeyO => 60,
        Key::KeyP => 61,
        Key::LeftBracket => 62,
        Key::RightBracket => 63,
        Key::KeyA => 64,
        Key::KeyS => 65,
        Key::KeyD => 66,
        Key::KeyF => 67,
        Key::KeyG => 68,
        Key::KeyH => 69,
        Key::KeyJ => 70,
        Key::KeyK => 71,
        Key::KeyL => 72,
        Key::SemiColon => 73,
        Key::Quote => 74,
        Key::BackSlash => 75,
        Key::IntlBackslash => 76,
        Key::KeyZ => 77,
        Key::KeyX => 78,
        Key::KeyC => 79,
        Key::KeyV => 80,
        Key::KeyB => 81,
        Key::KeyN => 82,
        Key::KeyM => 83,
        Key::Comma => 84,
        Key::Dot => 85,
        Key::Slash => 86,
        Key::Insert => 87,
        Key::KpReturn => 88,
        Key::KpMinus => 89,
        Key::KpPlus => 90,
        Key::KpMultiply => 91,
        Key::KpDivide => 92,
        Key::Kp0 => 93,
        Key::Kp1 => 94,
        Key::Kp2 => 95,
        Key::Kp3 => 96,
        Key::Kp4 => 97,
        Key::Kp5 => 98,
        Key::Kp6 => 99,
        Key::Kp7 => 100,
        Key::Kp8 => 101,
        Key::Kp9 => 102,
        Key::KpDelete => 103,
        Key::Function => 104,
        Key::Unknown(raw) => NAMED_KEY_COUNT + raw as u64,
    }
}

/// Two keys with the same code are the same key.
pub proof fn lemma_key_code_injective(a: Key, b: Key)
    requires
        key_code(a) == key_code(b),
    ensures
        a == b,
{
}

/// Compares two string slices character by character.
fn str_eq(a: &str, b: &str) -> (equal: bool)
    ensures
        equal == (a@ == b@),
{
    let n: usize = a.unicode_len();
    if n != b.unicode_len() {
        return false;
    }
    let mut i: usize = 0;
    while i < n
        invariant
            i <= n,
            n == a@.len(),
            n == b@.len(),
            forall|j: int| 0 <= j < i ==> a@[j] == b@[j],
        decreases n - i,
    {
        if a.get_char(i) != b.get_char(i) {
            return false;
        }
        i += 1;
    }
    assert(a@ =~= b@);
    true
}

/// Reads a canonical name back into its key.
///
/// Succeeds exactly on the names of the parsable keys, and then returns the key that
/// bears the name; any other text is refused with the message `Unknown Key`.
pub fn string_to_key(key: &str) -> (parsed: Result<Key, &'static str>)
    ensures
        match parsed {
            Ok(found) => key_of_name(key@) == Some(found),
            Err(message) => key_of_name(key@) is None && message@ == "Unknown Key"@,
        },
{
    let parsed: Result<Key, &'static str> = if str_eq(key, "Alt") {
        Ok(Key::Alt)
    } else if str_eq(key, "AltGr") {
        Ok(Key::AltGr)
    } else if str_eq(key, "Backspace") {
        Ok(Key::Backspace)
    } else if str_eq(key, "CapsLock") {
        Ok(Key::CapsLock)
    } else if str_eq(key, "LCtrl") {
        Ok(Key::ControlLeft)
    } else if str_eq(key, "RCtrl") {
        Ok(Key::ControlRight)
    } else if str_eq(key, "Del") {
        Ok(Key::Delete)
    } else if str_eq(key, "DownArrow") {
        Ok(Key::DownArrow)
    } else if str_eq(key, "End") {
        Ok(Key::End)
    } else if str_eq(key, "Escape") {
        Ok(Key::Escape)
    } else if str_eq(key, "F1") {
        Ok(Key::F1)
    } else if str_eq(key, "F10") {
        Ok(Key::F10)
    } else if str_eq(key, "F11") {
        Ok(Key::F11)
    } else if str_eq(key, "F12") {
        Ok(Key::F12)
    } else if str_eq(key, "F2") {
        Ok(Key::F2)
    } else if str_eq(key, "F3") {
        Ok(Key::F3)
    } else if str_eq(key, "F4") {
        Ok(Key::F4)
    } else if str_eq(key, "F5") {
        Ok(Key::F5)
    } else if str_eq(key, "F6") {
        Ok(Key::F6)
    } else if str_eq(key, "F7") {
        Ok(Key::F7)
    } else if str_eq(key, "F8") {
        Ok(Key::F8)
    } else if str_eq(key, "F9") {
        Ok(Key::F9)
    } else if str_eq(key, "Home") {
        Ok(Key::Home)
    } else if str_eq(key, "LeftArrow") {
        Ok(Key::LeftArrow)
    } else if str_eq(key, "LMeta") {
        Ok(Key::MetaLeft)
    } else if str_eq(key, "RMeta") {
        Ok(Key::MetaRight)
    } else if str_eq(key, "PgDown") {
        Ok(Key::PageDown)
    } else if str_eq(key, "PgUp") {
        Ok(Key::PageUp)
    } else if str_eq(key, "Return") {
        Ok(Key::Return)
    } else if str_eq(key, "RightArrow") {
        Ok(Key::RightArrow)
    } else if str_eq(key, "LShft") {
        Ok(Key::ShiftLeft)
    } else if str_eq(key, "RShft") {
        Ok(Key::ShiftRight)
    } else if str_eq(key, "Space") {
        Ok(Key::Space)
    } else if str_eq(key, "Tab") {
        Ok(Key::Tab)
    } else if str_eq(key, "UpArrow") {
        Ok(Key::UpArrow)
    } else if str_eq(key, "PrintScreen") {
        Ok(Key::PrintScreen)
    } else if str_eq(key, "ScrollLock") {
        Ok(Key::ScrollLock)
    } else if str_eq(key, "Pause") {
        Ok(Key::Pause)
    } else if str_eq(key, "NumLock") {
        Ok(Key::NumLock)
    } else if str_eq(key, "`") {
        Ok(Key::BackQuote)
    } else if str_eq(key, "1") {
        Ok(Key::Num1)
    } else if str_eq(key, "2") {
        Ok(Key::Num2)
    } else if str_eq(key, "3") {
        Ok(Key::Num3)
    } else if str_eq(key, "4") {
        Ok(Key::Num4)
    } else if str_eq(key, "5") {
        Ok(Key::Num5)
    } else if str_eq(key, "6") {
        Ok(Key::Num6)
    } else if str_eq(key, "7") {
        Ok(Key::Num7)
    } else if str_eq(key, "8") {
        Ok(Key::Num8)
    } else if str_eq(key, "9") {
        Ok(Key::Num9)
    } else if str_eq(key, "0") {
        Ok(Key::Num0)
    } else if str_eq(key, "-") {
        Ok(Key::Minus)
    } else if str_eq(key, "=") {
        Ok(Key::Equal)
    } else if str_eq(key, "Q") {
        Ok(Key::KeyQ)
    } else if str_eq(key, "W") {
        Ok(Key::KeyW)
    } else if str_eq(key, "E") {
        Ok(Key::KeyE)
    } else if str_eq(key, "R") {
        Ok(Key::KeyR)
    } else if str_eq(key, "T") {
        Ok(Key::KeyT)
    } else if str_eq(key, "Y") {
        Ok(Key::KeyY)
    } else if str_eq(key, "U") {
        Ok(Key::KeyU)
    } else if str_eq(key, "I") {
        Ok(Key::KeyI)
    } else if str_eq(key, "O") {
        Ok(Key::KeyO)
    } else if str_eq(key, "P") {
        Ok(Key::KeyP)
    } else if str_eq(key, "(") {
        Ok(Key::LeftBracket)
    } else if str_eq(key, ")") {
        Ok(Key::RightBracket)
    } else if str_eq(key, "A") {
        Ok(Key::KeyA)
    } else if str_eq(key, "S") {
        Ok(Key::KeyS)
    } else if str_eq(key, "D") {
        Ok(Key::KeyD)
    } else if str_eq(key, "F") {
        Ok(Key::KeyF)
    } else if str_eq(key, "G") {
        Ok(Key::KeyG)
    } else if str_eq(key, "H") {
        Ok(Key::KeyH)
    } else if str_eq(key, "J") {
        Ok(Key::KeyJ)
    } else if str_eq(key, "K") {
        Ok(Key::KeyK)
    } else if str_eq(key, "L") {
        Ok(Key::KeyL)
    } else if str_eq(key, ";") {
        Ok(Key::SemiColon)
    } else if str_eq(key, "\"") {
        Ok(Key::Quote)
    } else if str_eq(key, "\\") {
        Ok(Key::BackSlash)
    } else if str_eq(key, "Z") {
        Ok(Key::KeyZ)
    } else if str_eq(key, "X") {
        Ok(Key::KeyX)
    } else if str_eq(key, "C") {
        Ok(Key::KeyC)
    } else if str_eq(key, "V") {
        Ok(Key::KeyV)
    } else if str_eq(key, "B") {
        Ok(Key::KeyB)
    } else if str_eq(key, "N") {
        Ok(Key::KeyN)
    } else if str_eq(key, "M") {
        Ok(Key::KeyM)
    } else if str_eq(key, ",") {
        Ok(Key::Comma)
    } else if str_eq(key, ".") {
        Ok(Key::Dot)
    } else if str_eq(key, "/") {
        Ok(Key::Slash)
    } else if str_eq(key, "Insert") {
        Ok(Key::Insert)
    } else if str_eq(key, "KpReturn") {
        Ok(Key::KpReturn)
    } else if str_eq(key, "KpMinus") {
        Ok(Key::KpMinus)
    } else if str_eq(key, "KpPlus") {
        Ok(Key::KpPlus)
    } else if str_eq(key, "KpMultiply") {
        Ok(Key::KpMultiply)
    } else if str_eq(key, "KpDivide") {
        Ok(Key::KpDivide)
    } else if str_eq(key, "Kp0") {
        Ok(Key::Kp0)
    } else if str_eq(key, "Kp1") {
        Ok(Key::Kp1)
    } else if str_eq(key, "Kp2") {
        Ok(Key::Kp2)
    } else if str_eq(key, "Kp3") {
        Ok(Key::Kp3)
    } else if str_eq(key, "Kp4") {
        Ok(Key::Kp4)
    } else if str_eq(key, "Kp5") {
        Ok(Key::Kp5)
    } else if str_eq(key, "Kp6") {
        Ok(Key::Kp6)
    } else if str_eq(key, "Kp7") {
        Ok(Key::Kp7)
    } else if str_eq(key, "Kp8") {
        Ok(Key::Kp8)
    } else if str_eq(key, "Kp9") {
        Ok(Key::Kp9)
    } else if str_eq(key, "KpDelete") {
        Ok(Key::KpDelete)
    } else if str_eq(key, "Function") {
        Ok(Key::Function)
    } else {
        Err("Unknown Key")
    };
    proof {
        if let Ok(found) = parsed {
            assert(is_parsable(found) && key_name(found) == key@);
            lemma_key_name_injective(found, key_of_name(key@)->0);
        } else {
            assert forall|other: Key| is_parsable(other) implies key_name(other) != key@ by {}
        }
    }
    parsed
}

/// Reveals what every canonical name is made of.
proof fn lemma_reveal_key_names()
    ensures
        "("@ =~= seq!['('],
        ")"@ =~= seq![')'],
        ","@ =~= seq![','],
        "-"@ =~= seq!['-'],
        "."@ =~= seq!['.'],
        "/"@ =~= seq!['/'],
        "0"@ =~= seq!['0'],
        "1"@ =~= seq!['1'],
        "2"@ =~= seq!['2'],
        "3"@ =~= seq!['3'],
        "4"@ =~= seq!['4'],
        "5"@ =~= seq!['5'],
        "6"@ =~= seq!['6'],
        "7"@ =~= seq!['7'],
        "8"@ =~= seq!['8'],
        "9"@ =~= seq!['9'],
        ";"@ =~= seq![';'],
        "="@ =~= seq!['='],
        "A"@ =~= seq!['A'],
        "B"@ =~= seq!['B'],
        "C"@ =~= seq!['C'],
        "D"@ =~= seq!['D'],
        "E"@ =~= seq!['E'],
        "F"@ =~= seq!['F'],
        "G"@ =~= seq!['G'],
        "H"@ =~= seq!['H'],
        "I"@ =~= seq!['I'],
        "J"@ =~= seq!['J'],
        "K"@ =~= seq!['K'],
        "L"@ =~= seq!['L'],
        "M"@ =~= seq!['M'],
        "N"@ =~= seq!['N'],
        "O"@ =~= seq!['O'],
        "P"@ =~= seq!['P'],
        "Q"@ =~= seq!['Q'],
        "R"@ =~= seq!['R'],
        "S"@ =~= seq!['S'],
        "T"@ =~= seq!['T'],
        "U"@ =~= seq!['U'],
        "V"@ =~= seq!['V'],
        "W"@ =~= seq!['W'],
        "X"@ =~= seq!['X'],
        "Y"@ =~= seq!['Y'],
        "Z"@ =~= seq!['Z'],
        "`"@ =~= seq!['`'],
        "F1"@ =~= seq!['F', '1'],
        "F2"@ =~= seq!['F', '2'],
        "F3"@ =~= seq!['F', '3'],
        "F4"@ =~= seq!['F', '4'],
        "F5"@ =~= seq!['F', '5'],
        "F6"@ =~= seq!['F', '6'],
        "F7"@ =~= seq!['F', '7'],
        "F8"@ =~= seq!['F', '8'],
        "F9"@ =~= seq!['F', '9'],
        "\""@ =~= seq!['"'],
        "\\"@ =~= seq!['\\'],
        "Alt"@ =~= seq!['A', 'l', 't'],
        "Del"@ =~= seq!['D', 'e', 'l'],
        "End"@ =~= seq!['E', 'n', 'd'],
        "F10"@ =~= seq!['F', '1', '0'],
        "F11"@ =~= seq!['F', '1', '1'],
        "F12"@ =~= seq!['F', '1', '2'],
        "Kp0"@ =~= seq!['K', 'p', '0'],
        "Kp1"@ =~= seq!['K', 'p', '1'],
        "Kp2"@ =~= seq!['K', 'p', '2'],
        "Kp3"@ =~= seq!['K', 'p', '3'],
        "Kp4"@ =~= seq!['K', 'p', '4'],
        "Kp5"@ =~= seq!['K', 'p', '5'],
        "Kp6"@ =~= seq!['K', 'p', '6'],
        "Kp7"@ =~= seq!['K', 'p', '7'],
        "Kp8"@ =~= seq!['K', 'p', '8'],
        "Kp9"@ =~= seq!['K', 'p', '9'],
        "Tab"@ =~= seq!['T', 'a', 'b'],
        "Home"@ =~= seq!['H', 'o', 'm', 'e'],
        "PgUp"@ =~= seq!['P', 'g', 'U', 'p'],
        "AltGr"@ =~= seq!['A', 'l', 't', 'G', 'r'],
        "LCtrl"@ =~= seq!['L', 'C', 't', 'r', 'l'],
        "LMeta"@ =~= seq!['L', 'M', 'e', 't', 'a'],
        "LShft"@ =~= seq!['L', 'S', 'h', 'f', 't'],
        "Pause"@ =~= seq!['P', 'a', 'u', 's', 'e'],
        "RCtrl"@ =~= seq!['R', 'C', 't', 'r', 'l'],
        "RMeta"@ =~= seq!['R', 'M', 'e', 't', 'a'],
        "RShft"@ =~= seq!['R', 'S', 'h', 'f', 't'],
        "Space"@ =~= seq!['S', 'p', 'a', 'c', 'e'],
        "Escape"@ =~= seq!['E', 's', 'c', 'a', 'p', 'e'],
        "Insert"@ =~= seq!['I', 'n', 's', 'e', 'r', 't'],
        "KpPlus"@ =~= seq!['K', 'p', 'P', 'l', 'u', 's'],
        "PgDown"@ =~= seq!['P', 'g', 'D', 'o', 'w', 'n'],
        "Return"@ =~= seq!['R', 'e', 't', 'u', 'r', 'n'],
        "KpMinus"@ =~= seq!['K', 'p', 'M', 'i', 'n', 'u', 's'],
        "NumLock"@ =~= seq!['N', 'u', 'm', 'L', 'o', 'c', 'k'],
        "Unknown"@ =~= seq!['U', 'n', 'k', 'n', 'o', 'w', 'n'],
        "UpArrow"@ =~= seq!['U', 'p', 'A', 'r', 'r', 'o', 'w'],
        "CapsLock"@ =~= seq!['C', 'a', 'p', 's', 'L', 'o', 'c', 'k'],
        "Function"@ =~= seq!['F', 'u', 'n', 'c', 't', 'i', 'o', 'n'],
        "KpDelete"@ =~= seq!['K', 'p', 'D', 'e', 'l', 'e', 't', 'e'],
        "KpDivide"@ =~= seq!['K', 'p', 'D', 'i', 'v', 'i', 'd', 'e'],
        "KpReturn"@ =~= seq!['K', 'p', 'R', 'e', 't', 'u', 'r', 'n'],
        "Backspace"@ =~= seq!['B', 'a', 'c', 'k', 's', 'p', 'a', 'c', 'e'],
        "DownArrow"@ =~= seq!['D', 'o', 'w', 'n', 'A', 'r', 'r', 'o', 'w'],
        "LeftArrow"@ =~= seq!['L', 'e', 'f', 't', 'A', 'r', 'r', 'o', 'w'],
        "KpMultiply"@ =~= seq!['K', 'p', 'M', 'u', 'l', 't', 'i', 'p', 'l', 'y'],
        "RightArrow"@ =~= seq!['R', 'i', 'g', 'h', 't', 'A', 'r', 'r', 'o', 'w'],
        "ScrollLock"@ =~= seq!['S', 'c', 'r', 'o', 'l', 'l', 'L', 'o', 'c', 'k'],
        "PrintScreen"@ =~= seq!['P', 'r', 'i', 'n', 't', 'S', 'c', 'r', 'e', 'e', 'n'],
{
    reveal_strlit("(");
    reveal_strlit(")");
    reveal_strlit(",");
    reveal_strlit("-");
    reveal_strlit(".");
    reveal_strlit("/");
    reveal_strlit("0");
    reveal_strlit("1");
    reveal_strlit("2");
    reveal_strlit("3");
    reveal_strlit("4");
    reveal_strlit("5");
    reveal_strlit("6");
    reveal_strlit("7");
    reveal_strlit("8");
    reveal_strlit("9");
    reveal_strlit(";");
    reveal_strlit("=");
    reveal_strlit("A");
    reveal_strlit("B");
    reveal_strlit("C");
    reveal_strlit("D");
    reveal_strlit("E");
    reveal_strlit("F");
    reveal_strlit("G");
    reveal_strlit("H");
    reveal_strlit("I");
    reveal_strlit("J");
    reveal_strlit("K");
    reveal_strlit("L");
    reveal_strlit("M");
    reveal_strlit("N");
    reveal_strlit("O");
    reveal_strlit("P");
    reveal_strlit("Q");
    reveal_strlit("R");
    reveal_strlit("S");
    reveal_strlit("T");
    reveal_strlit("U");
    reveal_strlit("V");
    reveal_strlit("W");
    reveal_strlit("X");
    reveal_strlit("Y");
    reveal_strlit("Z");
    reveal_strlit("`");
    reveal_strlit("F1");
    reveal_strlit("F2");
    reveal_strlit("F3");
    reveal_strlit("F4");
    reveal_strlit("F5");
    reveal_strlit("F6");
    reveal_strlit("F7");
    reveal_strlit("F8");
    reveal_strlit("F9");
    reveal_strlit("\"");
    reveal_strlit("\\");
    reveal_strlit("Alt");
    reveal_strlit("Del");
    reveal_strlit("End");
    reveal_strlit("F10");
    reveal_strlit("F11");
    reveal_strlit("F12");
    reveal_strlit("Kp0");
    reveal_strlit("Kp1");
    reveal_strlit("Kp2");
    reveal_strlit("Kp3");
    reveal_strlit("Kp4");
    reveal_strlit("Kp5");
    reveal_strlit("Kp6");
    reveal_strlit("Kp7");
    reveal_strlit("Kp8");
    reveal_strlit("Kp9");
    reveal_strlit("Tab");
    reveal_strlit("Home");
    reveal_strlit("PgUp");
    reveal_strlit("AltGr");
    reveal_strlit("LCtrl");
    reveal_strlit("LMeta");
    reveal_strlit("LShft");
    reveal_strlit("Pause");
    reveal_strlit("RCtrl");
    reveal_strlit("RMeta");
    reveal_strlit("RShft");
    reveal_strlit("Space");
    reveal_strlit("Escape");
    reveal_strlit("Insert");
    reveal_strlit("KpPlus");
    reveal_strlit("PgDown");
    reveal_strlit("Return");
    reveal_strlit("KpMinus");
    reveal_strlit("NumLock");
    reveal_strlit("Unknown");
    reveal_strlit("UpArrow");
    reveal_strlit("CapsLock");
    reveal_strlit("Function");
    reveal_strlit("KpDelete");
    reveal_strlit("KpDivide");
    reveal_strlit("KpReturn");
    reveal_strlit("Backspace");
    reveal_strlit("DownArrow");
    reveal_strlit("LeftArrow");
    reveal_strlit("KpMultiply");
    reveal_strlit("RightArrow");
    reveal_strlit("ScrollLock");
    reveal_strlit("PrintScreen");
}

/// The length of a name with its first, fourth and last character; a name shorter than
/// four characters has a space for the fourth.
spec fn name_mark(name: Seq<char>) -> (nat, char, char, char) {
    (name.len(), name[0], if name.len() > 3 { name[3] } else { ' ' }, name.last())
}

/// The mark of the name of each parsable key.
spec fn key_mark(key: Key) -> (nat, char, char, char) {
    match key {
        Key::Alt => (3, 'A', ' ', 't'),
        Key::AltGr => (5, 'A', 'G', 'r'),
        Key::Backspace => (9, 'B', 'k', 'e'),
        Key::CapsLock => (8, 'C', 's', 'k'),
        Key::ControlLeft => (5, 'L', 'r', 'l'),
        Key::ControlRight => (5, 'R', 'r', 'l'),
        Key::Delete => (3, 'D', ' ', 'l'),
        Key::DownArrow => (9, 'D', 'n', 'w'),
        Key::End => (3, 'E', ' ', 'd'),
        Key::Escape => (6, 'E', 'a', 'e'),
        Key::F1 => (2, 'F', ' ', '1'),
        Key::F10 => (3, 'F', ' ', '0'),
        Key::F11 => (3, 'F', ' ', '1'),
        Key::F12 => (3, 'F', ' ', '2'),
        Key::F2 => (2, 'F', ' ', '2'),
        Key::F3 => (2, 'F', ' ', '3'),
        Key::F4 => (2, 'F', ' ', '4'),
        Key::F5 => (2, 'F', ' ', '5'),
        Key::F6 => (2, 'F', ' ', '6'),
        Key::F7 => (2, 'F', ' ', '7'),
        Key::F8 => (2, 'F', ' ', '8'),
        Key::F9 => (2, 'F', ' ', '9'),
        Key::Home => (4, 'H', 'e', 'e'),
        Key::LeftArrow => (9, 'L', 't', 'w'),
        Key::MetaLeft => (5, 'L', 't', 'a'),
        Key::MetaRight => (5, 'R', 't', 'a'),
        Key::PageDown => (6, 'P', 'o', 'n'),
        Key::PageUp => (4, 'P', 'p', 'p'),
        Key::Return => (6, 'R', 'u', 'n'),
        Key::RightArrow => (10, 'R', 'h', 'w'),
        Key::ShiftLeft => (5, 'L', 'f', 't'),
        Key::ShiftRight => (5, 'R', 'f', 't'),
        Key::Space => (5, 'S', 'c', 'e'),
        Key::Tab => (3, 'T', ' ', 'b'),
        Key::UpArrow => (7, 'U', 'r', 'w'),
        Key::PrintScreen => (11, 'P', 'n', 'n'),
        Key::ScrollLock => (10, 'S', 'o', 'k'),
        Key::Pause => (5, 'P', 's', 'e'),
        Key::NumLock => (7, 'N', 'L', 'k'),
        Key::BackQuote => (1, '`', ' ', '`'),
        Key::Num1 => (1, '1', ' ', '1'),
        Key::Num2 => (1, '2', ' ', '2'),
        Key::Num3 => (1, '3', ' ', '3'),
        Key::Num4 => (1, '4', ' ', '4'),
        Key::Num5 => (1, '5', ' ', '5'),
        Key::Num6 => (1, '6', ' ', '6'),
        Key::Num7 => (1, '7', ' ', '7'),
        Key::Num8 => (1, '8', ' ', '8'),
        Key::Num9 => (1, '9', ' ', '9'),
        Key::Num0 => (1, '0', ' ', '0'),
        Key::Minus => (1, '-', ' ', '-'),
        Key::Equal => (1, '=', ' ', '='),
        Key::KeyQ => (1, 'Q', ' ', 'Q'),
        Key::KeyW => (1, 'W', ' ', 'W'),
        Key::KeyE => (1, 'E', ' ', 'E'),
        Key::KeyR => (1, 'R', ' ', 'R'),
        Key::KeyT => (1, 'T', ' ', 'T'),
        Key::KeyY => (1, 'Y', ' ', 'Y'),
        Key::KeyU => (1, 'U', ' ', 'U'),
        Key::KeyI => (1, 'I', ' ', 'I'),
        Key::KeyO => (1, 'O', ' ', 'O'),
        Key::KeyP => (1, 'P', ' ', 'P'),
        Key::LeftBracket => (1, '(', ' ', '('),
        Key::RightBracket => (1, ')', ' ', ')'),
        Key::KeyA => (1, 'A', ' ', 'A'),
        Key::KeyS => (1, 'S', ' ', 'S'),
        Key::KeyD => (1, 'D', ' ', 'D'),
        Key::KeyF => (1, 'F', ' ', 'F'),
        Key::KeyG => (1, 'G', ' ', 'G'),
        Key::KeyH => (1, 'H', ' ', 'H'),
        Key::KeyJ => (1, 'J', ' ', 'J'),
        Key::KeyK => (1, 'K', ' ', 'K'),
        Key::KeyL => (1, 'L', ' ', 'L'),
        Key::SemiColon => (1, ';', ' ', ';'),
        Key::Quote => (1, '"', ' ', '"'),
        Key::BackSlash => (1, '\\', ' ', '\\'),
        Key::IntlBackslash => (1, '\\', ' ', '\\'),
        Key::KeyZ => (1, 'Z', ' ', 'Z'),
        Key::KeyX => (1, 'X', ' ', 'X'),
        Key::KeyC => (1, 'C', ' ', 'C'),
        Key::KeyV => (1, 'V', ' ', 'V'),
        Key::KeyB => (1, 'B', ' ', 'B'),
        Key::KeyN => (1, 'N', ' ', 'N'),
        Key::KeyM => (1, 'M', ' ', 'M'),
        Key::Comma => (1, ',', ' ', ','),
        Key::Dot => (1, '.', ' ', '.'),
        Key::Slash => (1, '/', ' ', '/'),
        Key::Insert => (6, 'I', 'e', 't'),
        Key::KpReturn => (8, 'K', 'e', 'n'),
        Key::KpMinus => (7, 'K', 'i', 's'),
        Key::KpPlus => (6, 'K', 'l', 's'),
        Key::KpMultiply => (10, 'K', 'u', 'y'),
        Key::KpDivide => (8, 'K', 'i', 'e'),
        Key::Kp0 => (3, 'K', ' ', '0'),
        Key::Kp1 => (3, 'K', ' ', '1'),
        Key::Kp2 => (3, 'K', ' ', '2'),
        Key::Kp3 => (3, 'K', ' ', '3'),
        Key::Kp4 => (3, 'K', ' ', '4'),
        Key::Kp5 => (3, 'K', ' ', '5'),
        Key::Kp6 => (3, 'K', ' ', '6'),
        Key::Kp7 => (3, 'K', ' ', '7'),
        Key::Kp8 => (3, 'K', ' ', '8'),
        Key::Kp9 => (3, 'K', ' ', '9'),
        Key::KpDelete => (8, 'K', 'e', 'e'),
        Key::Function => (8, 'F', 'c', 'n'),
        Key::Unknown(_) => (7, 'U', 'n', 'n'),
    }
}

proof fn lemma_key_mark(key: Key)
    ensures
        name_mark(key_name(key)) == key_mark(key),
{
    lemma_reveal_key_names();
}

/// No two parsable keys share a name.
pub proof fn lemma_key_name_injective(a: Key, b: Key)
    requires
        is_parsable(a),
        is_parsable(b),
        key_name(a) == key_name(b),
    ensures
        a == b,
{
    lemma_key_mark(a);
    lemma_key_mark(b);
}

/// Reading the name of a parsable key gives the key back.
pub proof fn lemma_name_reads_back(key: Key)
    requires
        is_parsable(key),
    ensures
        key_of_name(key_name(key)) == Some(key),
{
    lemma_key_name_injective(key, key_of_name(key_name(key))->0);
}

/// A name is read into a key only if the key is parsable and bears the name.
pub proof fn lemma_read_key_bears_name(name: Seq<char>, key: Key)
    requires
        key_of_name(name) == Some(key),
    ensures
        is_parsable(key),
        key_name(key) == name,
{
}

} // verus!
