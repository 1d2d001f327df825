//! Names of keys and the key codes they stand for.
//!
//! A key is named by a single printable ASCII character, which stands for
//! itself, or by one of the names of [`key_name`]. The codes are X11 keysyms,
//! which is what an RFB server expects.

use crate::text::{chars_of, same_chars};
use vstd::prelude::*;

verus! {

/// How many names the table holds.
pub const NAMED_KEYS: usize = 38;

/// The code of the minus key.
pub const KEY_MINUS: u32 = 0x2d;

/// The `i`-th name of the table.
pub open spec fn key_name(i: int) -> Seq<char> {
    if i == 0 {
        "ctrl"@
    } else if i == 1 {
        "shift"@
    } else if i == 2 {
        "alt"@
    } else if i == 3 {
        "meta"@
    } else if i == 4 {
        "super"@
    } else if i == 5 {
        "win"@
    } else if i == 6 {
        "ret"@
    } else if i == 7 {
        "enter"@
    } else if i == 8 {
        "esc"@
    } else if i == 9 {
        "tab"@
    } else if i == 10 {
        "backspace"@
    } else if i == 11 {
        "delete"@
    } else if i == 12 {
        "insert"@
    } else if i == 13 {
        "home"@
    } else if i == 14 {
        "end"@
    } else if i == 15 {
        "pgup"@
    } else if i == 16 {
        "pgdn"@
    } else if i == 17 {
        "left"@
    } else if i == 18 {
        "up"@
    } else if i == 19 {
        "right"@
    } else if i == 20 {
        "down"@
    } else if i == 21 {
        "spc"@
    } else if i == 22 {
        "space"@
    } else if i == 23 {
        "minus"@
    } else if i == 24 {
        "f1"@
    } else if i == 25 {
        "f2"@
    } else if i == 26 {
        "f3"@
    } else if i == 27 {
        "f4"@
    } else if i == 28 {
        "f5"@
    } else if i == 29 {
        "f6"@
    } else if i == 30 {
        "f7"@
    } else if i == 31 {
        "f8"@
    } else if i == 32 {
        "f9"@
    } else if i == 33 {
        "f10"@
    } else if i == 34 {
        "f11"@
    } else if i == 35 {
        "f12"@
    } else if i == 36 {
        "caps"@
    } else {
        "menu"@
    }
}

/// The code of the `i`-th name of the table.
pub open spec fn key_code(i: int) -> u32 {
    if i == 0 {
        0xffe3
    } else if i == 1 {
        0xffe1
    } else if i == 2 {
        0xffe9
    } else if i == 3 {
        0xffe7
    } else if i == 4 || i == 5 {
        0xffeb
    } else if i == 6 || i == 7 {
        0xff0d
    } else if i == 8 {
        0xff1b
    } else if i == 9 {
        0xff09
    } else if i == 10 {
        0xff08
    } else if i == 11 {
        0xffff
    } else if i == 12 {
        0xff63
    } else if i == 13 {
        0xff50
    } else if i == 14 {
        0xff57
    } else if i == 15 {
        0xff55
    } else if i == 16 {
        0xff56
    } else if i == 17 {
        0xff51
    } else if i == 18 {
        0xff52
    } else if i == 19 {
        0xff53
    } else if i == 20 {
        0xff54
    } else if i == 21 || i == 22 {
        0x20
    } else if i == 23 {
        0x2d
    } else if 24 <= i <= 35 {
        (0xffbe + (i - 24)) as u32
    } else if i == 36 {
        0xffe5
    } else {
        0xff67
    }
}

/// The `i`-th entry of the table.
fn key_entry(i: usize) -> (e: (&'static str, u32))
    requires
        i < NAMED_KEYS,
    ensures
        e.0@ == key_name(i as int),
        e.1 == key_code(i as int),
{
    if i == 0 {
        ("ctrl", 0xffe3)
    } else if i == 1 {
        ("shift", 0xffe1)
    } else if i == 2 {
        ("alt", 0xffe9)
    } else if i == 3 {
        ("meta", 0xffe7)
    } else if i == 4 {
        ("super", 0xffeb)
    } else if i == 5 {
        ("win", 0xffeb)
    } else if i == 6 {
        ("ret", 0xff0d)
    } else if i == 7 {
        ("enter", 0xff0d)
    } else if i == 8 {
        ("esc", 0xff1b)
    } else if i == 9 {
        ("tab", 0xff09)
    } else if i == 10 {
        ("backspace", 0xff08)
    } else if i == 11 {
        ("delete", 0xffff)
    } else if i == 12 {
        ("insert", 0xff63)
    } else if i == 13 {
        ("home", 0xff50)
    } else if i == 14 {
        ("end", 0xff57)
    } else if i == 15 {
        ("pgup", 0xff55)
    } else if i == 16 {
        ("pgdn", 0xff56)
    } else if i == 17 {
        ("left", 0xff51)
    } else if i == 18 {
        ("up", 0xff52)
    } else if i == 19 {
        ("right", 0xff53)
    } else if i == 20 {
        ("down", 0xff54)
    } else if i == 21 {
        ("spc", 0x20)
    } else if i == 22 {
        ("space", 0x20)
    } else if i == 23 {
        ("minus", 0x2d)
    } else if i == 24 {
        ("f1", 0xffbe)
    } else if i == 25 {
        ("f2", 0xffbf)
    } else if i == 26 {
        ("f3", 0xffc0)
    } else if i == 27 {
        ("f4", 0xffc1)
    } else if i == 28 {
        ("f5", 0xffc2)
    } else if i == 29 {
        ("f6", 0xffc3)
    } else if i == 30 {
        ("f7", 0xffc4)
    } else if i == 31 {
        ("f8", 0xffc5)
    } else if i == 32 {
        ("f9", 0xffc6)
    } else if i == 33 {
        ("f10", 0xffc7)
    } else if i == 34 {
        ("f11", 0xffc8)
    } else if i == 35 {
        ("f12", 0xffc9)
    } else if i == 36 {
        ("caps", 0xffe5)
    } else {
        ("menu", 0xff67)
    }
}

/// `c` is a printable character of ASCII.
pub open spec fn is_printable(c: char) -> bool {
    ' ' <= c <= '~'
}

/// The code of the first name of the table, from the `i`-th on, that is
/// `token`.
pub open spec fn named_from(token: Seq<char>, i: int) -> Option<u32>
    decreases NAMED_KEYS - i,
{
    if i < 0 || i >= NAMED_KEYS {
        None
    } else if key_name(i) == token {
        Some(key_code(i))
    } else {
        named_from(token, i + 1)
    }
}

/// The key code that `token` names, if it names a key: a single printable
/// character stands for itself, any other single character for nothing, and a
/// longer token for what the table says.
pub open spec fn keysym(token: Seq<char>) -> Option<u32> {
    if token.len() == 1 {
        if is_printable(token[0]) {
            Some(token[0] as u32)
        } else {
            None
        }
    } else {
        named_from(token, 0)
    }
}

/// The key code that `token` names, if it names a key.
pub fn key_of(token: &[char]) -> (code: Option<u32>)
    ensures
        code == keysym(token@),
{
    if token.len() == 1 {
        let c = token[0];
        if c >= ' ' && c <= '~' {
            return Some(c as u32);
        } else {
            return None;
        }
    }
    let mut i: usize = 0;
    while i < NAMED_KEYS
        invariant
            i <= NAMED_KEYS,
            token@.len() != 1,
            named_from(token@, 0) == named_from(token@, i as int),
        decreases NAMED_KEYS - i,
    {
        let (name, code) = key_entry(i);
        let name_chars = chars_of(name);
        if same_chars(name_chars.as_slice(), token) {
            return Some(code);
        }
        i += 1;
    }
    None
}

/// The key code that the text `token` names, if it names a key.
pub fn from_str(token: &str) -> (code: Option<u32>)
    ensures
        code == keysym(token@),
{
    let chars = chars_of(token);
    key_of(chars.as_slice())
}

} // verus!
