//! Key codes, their names, and the keys the picker offers.
//!
//! Names come from this table and from nowhere else: a label derived from a
//! scancode comes out empty for the extended function keys, which remappers emit
//! with made-up scancodes.

use crate::hotkey::vk::{
    VK_ADD, VK_BACK, VK_BROWSER_BACK, VK_BROWSER_FORWARD, VK_BROWSER_HOME,
    VK_BROWSER_REFRESH, VK_CAPITAL, VK_CONTROL, VK_DECIMAL, VK_DELETE, VK_DIVIDE, VK_DOWN,
    VK_END, VK_ESCAPE, VK_F1, VK_F10, VK_F11, VK_F12, VK_F13, VK_F14, VK_F15, VK_F16,
    VK_F17, VK_F18, VK_F19, VK_F2, VK_F20, VK_F21, VK_F22, VK_F23, VK_F24, VK_F3, VK_F4,
    VK_F5, VK_F6, VK_F7, VK_F8, VK_F9, VK_HOME, VK_INSERT, VK_LCONTROL, VK_LEFT, VK_LMENU,
    VK_LSHIFT, VK_LWIN, VK_MEDIA_NEXT_TRACK, VK_MEDIA_PLAY_PAUSE, VK_MEDIA_PREV_TRACK,
    VK_MEDIA_STOP, VK_MENU, VK_MULTIPLY, VK_NEXT, VK_NUMLOCK, VK_NUMPAD0, VK_NUMPAD1,
    VK_NUMPAD2, VK_NUMPAD3, VK_NUMPAD4, VK_NUMPAD5, VK_NUMPAD6, VK_NUMPAD7, VK_NUMPAD8,
    VK_NUMPAD9, VK_OEM_1, VK_OEM_2, VK_OEM_3, VK_OEM_4, VK_OEM_5, VK_OEM_6, VK_OEM_7,
    VK_OEM_COMMA, VK_OEM_MINUS, VK_OEM_PERIOD, VK_OEM_PLUS, VK_PAUSE, VK_PRIOR,
    VK_RCONTROL, VK_RETURN, VK_RIGHT, VK_RMENU, VK_RSHIFT, VK_RWIN, VK_SCROLL, VK_SHIFT,
    VK_SNAPSHOT, VK_SPACE, VK_SUBTRACT, VK_TAB, VK_UP, VK_VOLUME_DOWN, VK_VOLUME_MUTE,
    VK_VOLUME_UP,
};
use crate::text::{decimal_text, text_eq};
use vstd::prelude::*;

verus! {

/// The name of a key that the table lists; letters and digits have none there.
pub open spec fn table_name(vk: u16) -> Option<Seq<char>> {
    match vk {
        // Extended function keys, the ones no keyboard has.
        VK_F13 => Some("F13"@),
        VK_F14 => Some("F14"@),
        VK_F15 => Some("F15"@),
        VK_F16 => Some("F16"@),
        VK_F17 => Some("F17"@),
        VK_F18 => Some("F18"@),
        VK_F19 => Some("F19"@),
        VK_F20 => Some("F20"@),
        VK_F21 => Some("F21"@),
        VK_F22 => Some("F22"@),
        VK_F23 => Some("F23"@),
        VK_F24 => Some("F24"@),
        // Standard function keys.
        VK_F1 => Some("F1"@),
        VK_F2 => Some("F2"@),
        VK_F3 => Some("F3"@),
        VK_F4 => Some("F4"@),
        VK_F5 => Some("F5"@),
        VK_F6 => Some("F6"@),
        VK_F7 => Some("F7"@),
        VK_F8 => Some("F8"@),
        VK_F9 => Some("F9"@),
        VK_F10 => Some("F10"@),
        VK_F11 => Some("F11"@),
        VK_F12 => Some("F12"@),
        // Modifiers, side by side.
        VK_LCONTROL => Some("LeftCtrl"@),
        VK_RCONTROL => Some("RightCtrl"@),
        VK_LMENU => Some("LeftAlt"@),
        VK_RMENU => Some("RightAlt"@),
        VK_LSHIFT => Some("LeftShift"@),
        VK_RSHIFT => Some("RightShift"@),
        VK_LWIN => Some("LeftWin"@),
        VK_RWIN => Some("RightWin"@),
        // Locks.
        VK_CAPITAL => Some("CapsLock"@),
        VK_SCROLL => Some("ScrollLock"@),
        VK_NUMLOCK => Some("NumLock"@),
        // Navigation and editing.
        VK_UP => Some("Up"@),
        VK_DOWN => Some("Down"@),
        VK_LEFT => Some("Left"@),
        VK_RIGHT => Some("Right"@),
        VK_HOME => Some("Home"@),
        VK_END => Some("End"@),
        VK_PRIOR => Some("PageUp"@),
        VK_NEXT => Some("PageDown"@),
        VK_INSERT => Some("Insert"@),
        VK_DELETE => Some("Delete"@),
        VK_BACK => Some("Backspace"@),
        VK_TAB => Some("Tab"@),
        VK_RETURN => Some("Enter"@),
        VK_SPACE => Some("Space"@),
        VK_PAUSE => Some("Pause"@),
        VK_SNAPSHOT => Some("PrintScreen"@),
        // Punctuation, named for the unshifted US character on the keycap.
        VK_OEM_1 => Some(";"@),
        VK_OEM_PLUS => Some("="@),
        VK_OEM_COMMA => Some(","@),
        VK_OEM_MINUS => Some("-"@),
        VK_OEM_PERIOD => Some("."@),
        VK_OEM_2 => Some("/"@),
        VK_OEM_3 => Some("`"@),
        VK_OEM_4 => Some("["@),
        VK_OEM_5 => Some("\\"@),
        VK_OEM_6 => Some("]"@),
        VK_OEM_7 => Some("'"@),
        // Numpad.
        VK_NUMPAD0 => Some("Numpad0"@),
        VK_NUMPAD1 => Some("Numpad1"@),
        VK_NUMPAD2 => Some("Numpad2"@),
        VK_NUMPAD3 => Some("Numpad3"@),
        VK_NUMPAD4 => Some("Numpad4"@),
        VK_NUMPAD5 => Some("Numpad5"@),
        VK_NUMPAD6 => Some("Numpad6"@),
        VK_NUMPAD7 => Some("Numpad7"@),
        VK_NUMPAD8 => Some("Numpad8"@),
        VK_NUMPAD9 => Some("Numpad9"@),
        VK_MULTIPLY => Some("NumpadMultiply"@),
        VK_ADD => Some("NumpadAdd"@),
        VK_SUBTRACT => Some("NumpadSubtract"@),
        VK_DECIMAL => Some("NumpadDecimal"@),
        VK_DIVIDE => Some("NumpadDivide"@),
        // Media and browser.
        VK_MEDIA_PLAY_PAUSE => Some("MediaPlayPause"@),
        VK_MEDIA_STOP => Some("MediaStop"@),
        VK_MEDIA_NEXT_TRACK => Some("MediaNext"@),
        VK_MEDIA_PREV_TRACK => Some("MediaPrev"@),
        VK_VOLUME_MUTE => Some("VolumeMute"@),
        VK_VOLUME_UP => Some("VolumeUp"@),
        VK_VOLUME_DOWN => Some("VolumeDown"@),
        VK_BROWSER_BACK => Some("BrowserBack"@),
        VK_BROWSER_FORWARD => Some("BrowserForward"@),
        VK_BROWSER_REFRESH => Some("BrowserRefresh"@),
        VK_BROWSER_HOME => Some("BrowserHome"@),
        _ => None,
    }
}

/// The keys of the table, in the order in which the picker shows them.
pub open spec fn table_keys() -> Seq<u16> {
    seq![
        VK_F13, VK_F14, VK_F15, VK_F16, VK_F17, VK_F18, VK_F19, VK_F20, VK_F21, VK_F22,
        VK_F23, VK_F24, VK_F1, VK_F2, VK_F3, VK_F4, VK_F5, VK_F6, VK_F7, VK_F8, VK_F9,
        VK_F10, VK_F11, VK_F12, VK_LCONTROL, VK_RCONTROL, VK_LMENU, VK_RMENU, VK_LSHIFT,
        VK_RSHIFT, VK_LWIN, VK_RWIN, VK_CAPITAL, VK_SCROLL, VK_NUMLOCK, VK_UP, VK_DOWN,
        VK_LEFT, VK_RIGHT, VK_HOME, VK_END, VK_PRIOR, VK_NEXT, VK_INSERT, VK_DELETE,
        VK_BACK, VK_TAB, VK_RETURN, VK_SPACE, VK_PAUSE, VK_SNAPSHOT, VK_OEM_1, VK_OEM_PLUS,
        VK_OEM_COMMA, VK_OEM_MINUS, VK_OEM_PERIOD, VK_OEM_2, VK_OEM_3, VK_OEM_4, VK_OEM_5,
        VK_OEM_6, VK_OEM_7, VK_NUMPAD0, VK_NUMPAD1, VK_NUMPAD2, VK_NUMPAD3, VK_NUMPAD4,
        VK_NUMPAD5, VK_NUMPAD6, VK_NUMPAD7, VK_NUMPAD8, VK_NUMPAD9, VK_MULTIPLY, VK_ADD,
        VK_SUBTRACT, VK_DECIMAL, VK_DIVIDE, VK_MEDIA_PLAY_PAUSE, VK_MEDIA_STOP,
        VK_MEDIA_NEXT_TRACK, VK_MEDIA_PREV_TRACK, VK_VOLUME_MUTE, VK_VOLUME_UP,
        VK_VOLUME_DOWN, VK_BROWSER_BACK, VK_BROWSER_FORWARD, VK_BROWSER_REFRESH,
        VK_BROWSER_HOME,
    ]
}

/// `A` to `Z`: their codes are their ASCII characters.
pub open spec fn is_letter(vk: u16) -> bool {
    0x41 <= vk <= 0x5A
}

/// `0` to `9`: their codes are their ASCII characters.
pub open spec fn is_digit(vk: u16) -> bool {
    0x30 <= vk <= 0x39
}

/// The name of a key, if it has one.
pub open spec fn key_name(vk: u16) -> Option<Seq<char>> {
    if is_letter(vk) || is_digit(vk) {
        Some(seq![vk as char])
    } else {
        table_name(vk)
    }
}

/// The key that bears a name, if one does.
pub open spec fn named_key(name: Seq<char>) -> Option<u16> {
    if exists|vk: u16| key_name(vk) == Some(name) {
        Some(choose|vk: u16| key_name(vk) == Some(name))
    } else {
        None
    }
}

/// Control, Alt, Shift and Windows, on either side or on none.
pub open spec fn modifier(vk: u16) -> bool {
    ||| vk == VK_CONTROL || vk == VK_LCONTROL || vk == VK_RCONTROL
    ||| vk == VK_MENU || vk == VK_LMENU || vk == VK_RMENU
    ||| vk == VK_SHIFT || vk == VK_LSHIFT || vk == VK_RSHIFT
    ||| vk == VK_LWIN || vk == VK_RWIN
}

/// Letters, digits and punctuation.
pub open spec fn printable(vk: u16) -> bool {
    ||| is_letter(vk)
    ||| is_digit(vk)
    ||| VK_OEM_1 <= vk <= VK_OEM_3
    ||| VK_OEM_4 <= vk <= VK_OEM_7
}

/// A key that a binding may be made of: it has a name, and is neither a
/// modifier nor Escape.
pub open spec fn bindable(vk: u16) -> bool {
    &&& key_name(vk) is Some
    &&& !modifier(vk)
    &&& vk != VK_ESCAPE
}

/// A name that a binding may be asked for by: some key bears it, and that key
/// is no modifier.
pub open spec fn acceptable(name: Seq<char>) -> bool {
    named_key(name) matches Some(vk) && !modifier(vk)
}

pub const GROUPS: usize = 8;

pub const IDX_FUNCTION: usize = 0;

pub const IDX_LETTERS: usize = 1;

pub const IDX_DIGITS: usize = 2;

pub const IDX_NAVIGATION: usize = 3;

pub const IDX_NUMPAD: usize = 4;

pub const IDX_MEDIA: usize = 5;

pub const IDX_PUNCTUATION: usize = 6;

pub const IDX_LOCKS: usize = 7;

/// What the picker writes above a group.
pub open spec fn group_label(group: int) -> Seq<char> {
    if group == IDX_FUNCTION {
        "Function keys"@
    } else if group == IDX_LETTERS {
        "Letters"@
    } else if group == IDX_DIGITS {
        "Digits"@
    } else if group == IDX_NAVIGATION {
        "Navigation & editing"@
    } else if group == IDX_NUMPAD {
        "Numpad"@
    } else if group == IDX_MEDIA {
        "Media & browser"@
    } else if group == IDX_PUNCTUATION {
        "Punctuation"@
    } else {
        "Locks"@
    }
}

/// The group of the picker that a key belongs to.
pub open spec fn key_group(vk: u16) -> usize {
    if VK_F1 <= vk <= VK_F24 {
        IDX_FUNCTION
    } else if is_letter(vk) {
        IDX_LETTERS
    } else if is_digit(vk) {
        IDX_DIGITS
    } else if VK_NUMPAD0 <= vk <= VK_DIVIDE {
        IDX_NUMPAD
    } else if vk == VK_CAPITAL || vk == VK_NUMLOCK || vk == VK_SCROLL {
        IDX_LOCKS
    } else if VK_BROWSER_BACK <= vk <= 0xB7 {
        IDX_MEDIA
    } else if printable(vk) {
        IDX_PUNCTUATION
    } else {
        IDX_NAVIGATION
    }
}

/// Every key that has a name: the table, then the letters, then the digits.
pub open spec fn all_keys() -> Seq<u16> {
    table_keys() + Seq::new(26, |i: int| (0x41 + i) as u16) + Seq::new(
        10,
        |i: int| (0x30 + i) as u16,
    )
}

/// Whether the picker shows a key under a group.
pub open spec fn shown_under(group: int) -> spec_fn(u16) -> bool {
    |vk: u16| bindable(vk) && key_group(vk) == group
}

/// The keys that the picker shows under a group, in order.
pub open spec fn group_keys(group: int) -> Seq<u16> {
    all_keys().filter(shown_under(group))
}

/// The names of some keys.
pub open spec fn names_of(keys: Seq<u16>) -> Seq<Seq<char>> {
    keys.map_values(|vk: u16| key_name(vk)->0)
}

/// One group of the picker.
#[derive(Debug, Clone, PartialEq)]
pub struct KeyGroup {
    pub label: &'static str,
    pub keys: Vec<&'static str>,
}

/// The characters of some strings.
pub open spec fn texts(strings: Seq<&'static str>) -> Seq<Seq<char>> {
    strings.map_values(|s: &'static str| s@)
}

/// Whether the picker offers a name.
pub open spec fn offered(name: Seq<char>) -> bool {
    exists|group: int| 0 <= group < GROUPS && #[trigger] names_of(group_keys(group)).contains(name)
}

fn table_vks() -> (r: Vec<u16>)
    ensures
        r@ == table_keys(),
{
    vec![
        VK_F13, VK_F14, VK_F15, VK_F16, VK_F17, VK_F18, VK_F19, VK_F20, VK_F21, VK_F22,
        VK_F23, VK_F24, VK_F1, VK_F2, VK_F3, VK_F4, VK_F5, VK_F6, VK_F7, VK_F8, VK_F9,
        VK_F10, VK_F11, VK_F12, VK_LCONTROL, VK_RCONTROL, VK_LMENU, VK_RMENU, VK_LSHIFT,
        VK_RSHIFT, VK_LWIN, VK_RWIN, VK_CAPITAL, VK_SCROLL, VK_NUMLOCK, VK_UP, VK_DOWN,
        VK_LEFT, VK_RIGHT, VK_HOME, VK_END, VK_PRIOR, VK_NEXT, VK_INSERT, VK_DELETE,
        VK_BACK, VK_TAB, VK_RETURN, VK_SPACE, VK_PAUSE, VK_SNAPSHOT, VK_OEM_1, VK_OEM_PLUS,
        VK_OEM_COMMA, VK_OEM_MINUS, VK_OEM_PERIOD, VK_OEM_2, VK_OEM_3, VK_OEM_4, VK_OEM_5,
        VK_OEM_6, VK_OEM_7, VK_NUMPAD0, VK_NUMPAD1, VK_NUMPAD2, VK_NUMPAD3, VK_NUMPAD4,
        VK_NUMPAD5, VK_NUMPAD6, VK_NUMPAD7, VK_NUMPAD8, VK_NUMPAD9, VK_MULTIPLY, VK_ADD,
        VK_SUBTRACT, VK_DECIMAL, VK_DIVIDE, VK_MEDIA_PLAY_PAUSE, VK_MEDIA_STOP,
        VK_MEDIA_NEXT_TRACK, VK_MEDIA_PREV_TRACK, VK_VOLUME_MUTE, VK_VOLUME_UP,
        VK_VOLUME_DOWN, VK_BROWSER_BACK, VK_BROWSER_FORWARD, VK_BROWSER_REFRESH,
        VK_BROWSER_HOME,
    ]
}

fn table_entry(vk: u16) -> (r: Option<&'static str>)
    ensures
        r is Some <==> table_name(vk) is Some,
        r matches Some(n) ==> table_name(vk) == Some(n@),
{
    match vk {
        // Extended function keys, the ones no keyboard has.
        VK_F13 => Some("F13"),
        VK_F14 => Some("F14"),
        VK_F15 => Some("F15"),
        VK_F16 => Some("F16"),
        VK_F17 => Some("F17"),
        VK_F18 => Some("F18"),
        VK_F19 => Some("F19"),
        VK_F20 => Some("F20"),
        VK_F21 => Some("F21"),
        VK_F22 => Some("F22"),
        VK_F23 => Some("F23"),
        VK_F24 => Some("F24"),
        // Standard function keys.
        VK_F1 => Some("F1"),
        VK_F2 => Some("F2"),
        VK_F3 => Some("F3"),
        VK_F4 => Some("F4"),
        VK_F5 => Some("F5"),
        VK_F6 => Some("F6"),
        VK_F7 => Some("F7"),
        VK_F8 => Some("F8"),
        VK_F9 => Some("F9"),
        VK_F10 => Some("F10"),
        VK_F11 => Some("F11"),
        VK_F12 => Some("F12"),
        // Modifiers, side by side.
        VK_LCONTROL => Some("LeftCtrl"),
        VK_RCONTROL => Some("RightCtrl"),
        VK_LMENU => Some("LeftAlt"),
        VK_RMENU => Some("RightAlt"),
        VK_LSHIFT => Some("LeftShift"),
        VK_RSHIFT => Some("RightShift"),
        VK_LWIN => Some("LeftWin"),
        VK_RWIN => Some("RightWin"),
        // Locks.
        VK_CAPITAL => Some("CapsLock"),
        VK_SCROLL => Some("ScrollLock"),
        VK_NUMLOCK => Some("NumLock"),
        // Navigation and editing.
        VK_UP => Some("Up"),
        VK_DOWN => Some("Down"),
        VK_LEFT => Some("Left"),
        VK_RIGHT => Some("Right"),
        VK_HOME => Some("Home"),
        VK_END => Some("End"),
        VK_PRIOR => Some("PageUp"),
        VK_NEXT => Some("PageDown"),
        VK_INSERT => Some("Insert"),
        VK_DELETE => Some("Delete"),
        VK_BACK => Some("Backspace"),
        VK_TAB => Some("Tab"),
        VK_RETURN => Some("Enter"),
        VK_SPACE => Some("Space"),
        VK_PAUSE => Some("Pause"),
        VK_SNAPSHOT => Some("PrintScreen"),
        // Punctuation, named for the unshifted US character on the keycap.
        VK_OEM_1 => Some(";"),
        VK_OEM_PLUS => Some("="),
        VK_OEM_COMMA => Some(","),
        VK_OEM_MINUS => Some("-"),
        VK_OEM_PERIOD => Some("."),
        VK_OEM_2 => Some("/"),
        VK_OEM_3 => Some("`"),
        VK_OEM_4 => Some("["),
        VK_OEM_5 => Some("\\"),
        VK_OEM_6 => Some("]"),
        VK_OEM_7 => Some("'"),
        // Numpad.
        VK_NUMPAD0 => Some("Numpad0"),
        VK_NUMPAD1 => Some("Numpad1"),
        VK_NUMPAD2 => Some("Numpad2"),
        VK_NUMPAD3 => Some("Numpad3"),
        VK_NUMPAD4 => Some("Numpad4"),
        VK_NUMPAD5 => Some("Numpad5"),
        VK_NUMPAD6 => Some("Numpad6"),
        VK_NUMPAD7 => Some("Numpad7"),
        VK_NUMPAD8 => Some("Numpad8"),
        VK_NUMPAD9 => Some("Numpad9"),
        VK_MULTIPLY => Some("NumpadMultiply"),
        VK_ADD => Some("NumpadAdd"),
        VK_SUBTRACT => Some("NumpadSubtract"),
        VK_DECIMAL => Some("NumpadDecimal"),
        VK_DIVIDE => Some("NumpadDivide"),
        // Media and browser.
        VK_MEDIA_PLAY_PAUSE => Some("MediaPlayPause"),
        VK_MEDIA_STOP => Some("MediaStop"),
        VK_MEDIA_NEXT_TRACK => Some("MediaNext"),
        VK_MEDIA_PREV_TRACK => Some("MediaPrev"),
        VK_VOLUME_MUTE => Some("VolumeMute"),
        VK_VOLUME_UP => Some("VolumeUp"),
        VK_VOLUME_DOWN => Some("VolumeDown"),
        VK_BROWSER_BACK => Some("BrowserBack"),
        VK_BROWSER_FORWARD => Some("BrowserForward"),
        VK_BROWSER_REFRESH => Some("BrowserRefresh"),
        VK_BROWSER_HOME => Some("BrowserHome"),
        _ => None,
    }
}

/// The name of a letter or a digit.
fn ascii_name(vk: u16) -> (r: &'static str)
    requires
        is_letter(vk) || is_digit(vk),
    ensures
        r@ == seq![vk as char],
{
    let chars: &'static str = "0123456789";
    let letters: &'static str = "ABCDEFGHIJKLMNOPQRSTUVWXYZ";
    proof {
        reveal_strlit("0123456789");
        reveal_strlit("ABCDEFGHIJKLMNOPQRSTUVWXYZ");
    }
    if vk <= 0x39 {
        let i: usize = (vk - 0x30) as usize;
        let r: &'static str = chars.substring_ascii(i, i + 1);
        assert(r@ =~= seq![chars@[i as int]]);
        assert(chars@[i as int] == (48 + i) as char) by {
            assert(i == 0 || i == 1 || i == 2 || i == 3 || i == 4 || i == 5 || i == 6 || i == 7
                || i == 8 || i == 9);
        }
        r
    } else {
        let i: usize = (vk - 0x41) as usize;
        let r: &'static str = letters.substring_ascii(i, i + 1);
        assert(r@ =~= seq![letters@[i as int]]);
        assert(letters@[i as int] == (65 + i) as char) by {
            assert(i == 0 || i == 1 || i == 2 || i == 3 || i == 4 || i == 5 || i == 6 || i == 7
                || i == 8 || i == 9 || i == 10 || i == 11 || i == 12 || i == 13 || i == 14
                || i == 15 || i == 16 || i == 17 || i == 18 || i == 19 || i == 20 || i == 21
                || i == 22 || i == 23 || i == 24 || i == 25);
        }
        r
    }
}

/// The name of a key, if it has one.
pub fn vk_to_name(vk: u16) -> (r: Option<&'static str>)
    ensures
        r is Some <==> key_name(vk) is Some,
        r matches Some(n) ==> key_name(vk) == Some(n@),
{
    if let Some(n) = table_entry(vk) {
        return Some(n);
    }
    if (0x41 <= vk && vk <= 0x5A) || (0x30 <= vk && vk <= 0x39) {
        return Some(ascii_name(vk));
    }
    None
}

/// What the spelling of the table's names comes to: two keys never share one, and
/// one that is a single character long is punctuation.
#[verifier::spinoff_prover]
proof fn table_names_are_apart(a: u16, b: u16)
    requires
        table_name(a) is Some,
    ensures
        table_name(a) == table_name(b) ==> a == b,
        table_name(a)->0.len() == 1 ==> !('A' <= table_name(a)->0[0] <= 'Z') && !('0'
            <= table_name(a)->0[0] <= '9'),
{
    reveal_strlit("F13");
    reveal_strlit("F14");
    reveal_strlit("F15");
    reveal_strlit("F16");
    reveal_strlit("F17");
    reveal_strlit("F18");
    reveal_strlit("F19");
    reveal_strlit("F20");
    reveal_strlit("F21");
    reveal_strlit("F22");
    reveal_strlit("F23");
    reveal_strlit("F24");
    reveal_strlit("F1");
    reveal_strlit("F2");
    reveal_strlit("F3");
    reveal_strlit("F4");
    reveal_strlit("F5");
    reveal_strlit("F6");
    reveal_strlit("F7");
    reveal_strlit("F8");
    reveal_strlit("F9");
    reveal_strlit("F10");
    reveal_strlit("F11");
    reveal_strlit("F12");
    reveal_strlit("LeftCtrl");
    reveal_strlit("RightCtrl");
    reveal_strlit("LeftAlt");
    reveal_strlit("RightAlt");
    reveal_strlit("LeftShift");
    reveal_strlit("RightShift");
    reveal_strlit("LeftWin");
    reveal_strlit("RightWin");
    reveal_strlit("CapsLock");
    reveal_strlit("ScrollLock");
    reveal_strlit("NumLock");
    reveal_strlit("Up");
    reveal_strlit("Down");
    reveal_strlit("Left");
    reveal_strlit("Right");
    reveal_strlit("Home");
    reveal_strlit("End");
    reveal_strlit("PageUp");
    reveal_strlit("PageDown");
    reveal_strlit("Insert");
    reveal_strlit("Delete");
    reveal_strlit("Backspace");
    reveal_strlit("Tab");
    reveal_strlit("Enter");
    reveal_strlit("Space");
    reveal_strlit("Pause");
    reveal_strlit("PrintScreen");
    reveal_strlit(";");
    reveal_strlit("=");
    reveal_strlit(",");
    reveal_strlit("-");
    reveal_strlit(".");
    reveal_strlit("/");
    reveal_strlit("`");
    reveal_strlit("[");
    reveal_strlit("\\");
    reveal_strlit("]");
    reveal_strlit("'");
    reveal_strlit("Numpad0");
    reveal_strlit("Numpad1");
    reveal_strlit("Numpad2");
    reveal_strlit("Numpad3");
    reveal_strlit("Numpad4");
    reveal_strlit("Numpad5");
    reveal_strlit("Numpad6");
    reveal_strlit("Numpad7");
    reveal_strlit("Numpad8");
    reveal_strlit("Numpad9");
    reveal_strlit("NumpadMultiply");
    reveal_strlit("NumpadAdd");
    reveal_strlit("NumpadSubtract");
    reveal_strlit("NumpadDecimal");
    reveal_strlit("NumpadDivide");
    reveal_strlit("MediaPlayPause");
    reveal_strlit("MediaStop");
    reveal_strlit("MediaNext");
    reveal_strlit("MediaPrev");
    reveal_strlit("VolumeMute");
    reveal_strlit("VolumeUp");
    reveal_strlit("VolumeDown");
    reveal_strlit("BrowserBack");
    reveal_strlit("BrowserForward");
    reveal_strlit("BrowserRefresh");
    reveal_strlit("BrowserHome");
    if table_name(a) == table_name(b) {
        let s = table_name(a)->0;
        let t = table_name(b)->0;
        assert(s.len() == t.len());
        assert(s[0] == t[0]);
        assert(s[1] == t[1]);
        assert(s[2] == t[2]);
        assert(s[3] == t[3]);
        assert(s[4] == t[4]);
        assert(s[5] == t[5]);
        assert(s[6] == t[6]);
        assert(s[7] == t[7]);
        assert(s[8] == t[8]);
        assert(s[9] == t[9]);
        assert(s[10] == t[10]);
        assert(s[11] == t[11]);
        assert(s[12] == t[12]);
        assert(s[13] == t[13]);
    }
}

/// The table lists a key exactly when it names it.
proof fn table_lists_what_it_names(vk: u16)
    ensures
        table_name(vk) is Some <==> table_keys().contains(vk),
{
    if table_name(vk) is Some {
        let k = table_keys();
        assert(k[0] == VK_F13 && k[1] == VK_F14 && k[2] == VK_F15 && k[3] == VK_F16);
        assert(k[4] == VK_F17 && k[5] == VK_F18 && k[6] == VK_F19 && k[7] == VK_F20);
        assert(k[8] == VK_F21 && k[9] == VK_F22 && k[10] == VK_F23 && k[11] == VK_F24);
        assert(k[12] == VK_F1 && k[13] == VK_F2 && k[14] == VK_F3 && k[15] == VK_F4);
        assert(k[16] == VK_F5 && k[17] == VK_F6 && k[18] == VK_F7 && k[19] == VK_F8);
        assert(k[20] == VK_F9 && k[21] == VK_F10 && k[22] == VK_F11 && k[23] == VK_F12);
        assert(k[24] == VK_LCONTROL && k[25] == VK_RCONTROL && k[26] == VK_LMENU && k[27] == VK_RMENU);
        assert(k[28] == VK_LSHIFT && k[29] == VK_RSHIFT && k[30] == VK_LWIN && k[31] == VK_RWIN);
        assert(k[32] == VK_CAPITAL && k[33] == VK_SCROLL && k[34] == VK_NUMLOCK && k[35] == VK_UP);
        assert(k[36] == VK_DOWN && k[37] == VK_LEFT && k[38] == VK_RIGHT && k[39] == VK_HOME);
        assert(k[40] == VK_END && k[41] == VK_PRIOR && k[42] == VK_NEXT && k[43] == VK_INSERT);
        assert(k[44] == VK_DELETE && k[45] == VK_BACK && k[46] == VK_TAB && k[47] == VK_RETURN);
        assert(k[48] == VK_SPACE && k[49] == VK_PAUSE && k[50] == VK_SNAPSHOT && k[51] == VK_OEM_1);
        assert(k[52] == VK_OEM_PLUS && k[53] == VK_OEM_COMMA && k[54] == VK_OEM_MINUS && k[55] == VK_OEM_PERIOD);
        assert(k[56] == VK_OEM_2 && k[57] == VK_OEM_3 && k[58] == VK_OEM_4 && k[59] == VK_OEM_5);
        assert(k[60] == VK_OEM_6 && k[61] == VK_OEM_7 && k[62] == VK_NUMPAD0 && k[63] == VK_NUMPAD1);
        assert(k[64] == VK_NUMPAD2 && k[65] == VK_NUMPAD3 && k[66] == VK_NUMPAD4 && k[67] == VK_NUMPAD5);
        assert(k[68] == VK_NUMPAD6 && k[69] == VK_NUMPAD7 && k[70] == VK_NUMPAD8 && k[71] == VK_NUMPAD9);
        assert(k[72] == VK_MULTIPLY && k[73] == VK_ADD && k[74] == VK_SUBTRACT && k[75] == VK_DECIMAL);
        assert(k[76] == VK_DIVIDE && k[77] == VK_MEDIA_PLAY_PAUSE && k[78] == VK_MEDIA_STOP && k[79] == VK_MEDIA_NEXT_TRACK);
        assert(k[80] == VK_MEDIA_PREV_TRACK && k[81] == VK_VOLUME_MUTE && k[82] == VK_VOLUME_UP && k[83] == VK_VOLUME_DOWN);
        assert(k[84] == VK_BROWSER_BACK && k[85] == VK_BROWSER_FORWARD && k[86] == VK_BROWSER_REFRESH && k[87] == VK_BROWSER_HOME);
    }
}

/// A key's name leads back to the key.
pub proof fn name_leads_back_to_its_key(vk: u16)
    requires
        key_name(vk) is Some,
    ensures
        named_key(key_name(vk)->0) == Some(vk),
{
    let name = key_name(vk)->0;
    let found = named_key(name)->0;
    assert(key_name(found) == Some(name));
    two_keys_never_share_a_name(vk, found);
}

/// No two keys share a name.
pub proof fn two_keys_never_share_a_name(a: u16, b: u16)
    requires
        key_name(a) is Some,
        key_name(a) == key_name(b),
    ensures
        a == b,
{
    let s = key_name(a)->0;
    assert(is_letter(a) || is_digit(a) ==> s.len() == 1 && s[0] as u16 == a);
    assert(is_letter(b) || is_digit(b) ==> s.len() == 1 && s[0] as u16 == b);
    if table_name(a) is Some {
        if table_name(b) is Some {
            table_names_are_apart(a, b);
        } else {
            table_names_are_apart(a, a);
        }
    } else if table_name(b) is Some {
        table_names_are_apart(b, b);
    }
}

/// A key that bears a name is the key that the name leads to.
pub proof fn named_key_bears_the_name(name: Seq<char>)
    ensures
        named_key(name) matches Some(vk) ==> key_name(vk) == Some(name),
{
}

/// The key that bears a name, if one does.
pub fn name_to_vk(name: &str) -> (r: Option<u16>)
    ensures
        r == named_key(name@),
{
    let vks: Vec<u16> = table_vks();
    let mut i: usize = 0;
    while i < vks.len()
        invariant
            i <= vks.len(),
            vks@ == table_keys(),
            forall|j: int| 0 <= j < i ==> key_name(#[trigger] vks@[j]) != Some(name@),
        decreases vks.len() - i,
    {
        let vk: u16 = vks[i];
        proof {
            table_lists_what_it_names(vk);
            assert(table_keys().contains(vk));
            assert(key_name(vk) == table_name(vk));
        }
        if let Some(n) = vk_to_name(vk) {
            if text_eq(n, name) {
                proof {
                    name_leads_back_to_its_key(vk);
                }
                return Some(vk);
            }
        }
        i += 1;
    }
    assert forall|vk: u16| table_name(vk) is Some implies table_name(vk) != Some(name@) by {
        table_lists_what_it_names(vk);
    }
    if name.unicode_len() == 1 {
        let c: char = name.get_char(0);
        if ('A' <= c && c <= 'Z') || ('0' <= c && c <= '9') {
            let vk: u16 = c as u16;
            proof {
                assert(name@ =~= seq![vk as char]);
                name_leads_back_to_its_key(vk);
            }
            return Some(vk);
        }
    }
    assert forall|vk: u16| key_name(vk) != Some(name@) by {
        if is_letter(vk) || is_digit(vk) {
            assert(seq![vk as char].len() == 1);
            assert(seq![vk as char][0] as u16 == vk);
        }
    }
    None
}

/// Whether a key is a letter, a digit or punctuation. Backs the warning about a
/// bare binding that types itself into whatever is focused.
pub fn is_printable(vk: u16) -> (r: bool)
    ensures
        r == printable(vk),
{
    (0x41 <= vk && vk <= 0x5A) || (0x30 <= vk && vk <= 0x39) || (VK_OEM_1 <= vk && vk <= VK_OEM_3)
        || (VK_OEM_4 <= vk && vk <= VK_OEM_7)
}

/// Whether a key is a modifier.
pub fn is_modifier(vk: u16) -> (r: bool)
    ensures
        r == modifier(vk),
{
    match vk {
        VK_CONTROL | VK_LCONTROL | VK_RCONTROL => true,
        VK_MENU | VK_LMENU | VK_RMENU => true,
        VK_SHIFT | VK_LSHIFT | VK_RSHIFT => true,
        VK_LWIN | VK_RWIN => true,
        _ => false,
    }
}

/// The group of the picker that a key belongs to. Letters and digits are
/// printable too, so punctuation comes after them.
fn group_of(vk: u16) -> (r: usize)
    ensures
        r == key_group(vk),
        r < GROUPS,
{
    if VK_F1 <= vk && vk <= VK_F24 {
        IDX_FUNCTION
    } else if 0x41 <= vk && vk <= 0x5A {
        IDX_LETTERS
    } else if 0x30 <= vk && vk <= 0x39 {
        IDX_DIGITS
    } else if VK_NUMPAD0 <= vk && vk <= VK_DIVIDE {
        IDX_NUMPAD
    } else if vk == VK_CAPITAL || vk == VK_NUMLOCK || vk == VK_SCROLL {
        IDX_LOCKS
    } else if VK_BROWSER_BACK <= vk && vk <= 0xB7 {
        IDX_MEDIA
    } else if is_printable(vk) {
        IDX_PUNCTUATION
    } else {
        IDX_NAVIGATION
    }
}

/// Every key that has a name, in the order of [`all_keys`].
fn every_vk() -> (r: Vec<u16>)
    ensures
        r@ == all_keys(),
{
    let mut keys: Vec<u16> = table_vks();
    let mut vk: u16 = 0x41;
    while vk <= 0x5A
        invariant
            0x41 <= vk <= 0x5B,
            keys@ == table_keys() + Seq::new((vk - 0x41) as nat, |i: int| (0x41 + i) as u16),
        decreases 0x5B - vk,
    {
        keys.push(vk);
        vk += 1;
    }
    let ghost so_far = keys@;
    vk = 0x30;
    while vk <= 0x39
        invariant
            0x30 <= vk <= 0x3A,
            keys@ == so_far + Seq::new((vk - 0x30) as nat, |i: int| (0x30 + i) as u16),
        decreases 0x3A - vk,
    {
        keys.push(vk);
        vk += 1;
    }
    keys
}

/// An empty group of the picker.
fn empty_group(label: &'static str) -> (r: KeyGroup)
    ensures
        r.label@ == label@,
        r.keys@.len() == 0,
{
    KeyGroup { label, keys: Vec::new() }
}

/// The keys that may be bound, grouped for the picker.
///
/// The list that is offered is the list of named keys less the modifiers and
/// Escape, so a key is never offered that cannot be bound, nor the other way
/// round.
pub fn bindable_groups() -> (r: Vec<KeyGroup>)
    ensures
        r@.len() == GROUPS,
        forall|g: int|
            0 <= g < GROUPS ==> (#[trigger] r@[g]).label@ == group_label(g) && texts(r@[g].keys@)
                == names_of(group_keys(g)),
{
    let mut groups: Vec<KeyGroup> = Vec::new();
    groups.push(empty_group("Function keys"));
    groups.push(empty_group("Letters"));
    groups.push(empty_group("Digits"));
    groups.push(empty_group("Navigation & editing"));
    groups.push(empty_group("Numpad"));
    groups.push(empty_group("Media & browser"));
    groups.push(empty_group("Punctuation"));
    groups.push(empty_group("Locks"));
    let keys: Vec<u16> = every_vk();
    let mut i: usize = 0;
    assert forall|g: int| 0 <= g < GROUPS implies #[trigger] texts(groups@[g].keys@) == names_of(
        keys@.take(0).filter(shown_under(g)),
    ) by {
        reveal(Seq::filter);
    }
    while i < keys.len()
        invariant
            i <= keys.len(),
            keys@ == all_keys(),
            groups@.len() == GROUPS,
            forall|g: int| 0 <= g < GROUPS ==> (#[trigger] groups@[g]).label@ == group_label(g),
            forall|g: int|
                0 <= g < GROUPS ==> texts((#[trigger] groups@[g]).keys@) == names_of(
                    keys@.take(i as int).filter(shown_under(g)),
                ),
        decreases keys.len() - i,
    {
        let vk: u16 = keys[i];
        let ghost before = groups@;
        proof {
            all_keys_lists_what_has_a_name(vk);
            assert(all_keys().contains(vk));
        }
        if !is_modifier(vk) && vk != VK_ESCAPE {
            if let Some(name) = vk_to_name(vk) {
                let g: usize = group_of(vk);
                groups[g].keys.push(name);
            }
        }
        assert forall|g: int| 0 <= g < GROUPS implies texts((#[trigger] groups@[g]).keys@)
            == names_of(keys@.take(i + 1).filter(shown_under(g))) by {
            reveal(Seq::filter);
            assert(keys@.take(i + 1).drop_last() =~= keys@.take(i as int));
            assert(keys@.take(i + 1).last() == vk);
            assert(texts(before[g].keys@) == names_of(keys@.take(i as int).filter(shown_under(g))));
            if shown_under(g)(vk) {
                assert(texts(groups@[g].keys@) =~= texts(before[g].keys@).push(key_name(vk)->0));
            } else {
                assert(groups@[g].keys@ == before[g].keys@);
            }
            assert(texts(groups@[g].keys@) =~= names_of(
                keys@.take(i + 1).filter(shown_under(g)),
            ));
        }
        i += 1;
    }
    assert(keys@.take(keys@.len() as int) =~= keys@);
    groups
}

/// The keys that have a name are the keys of the table, the letters and the
/// digits.
pub proof fn all_keys_lists_what_has_a_name(vk: u16)
    ensures
        key_name(vk) is Some <==> all_keys().contains(vk),
{
    let letters = Seq::new(26, |i: int| (0x41 + i) as u16);
    let digits = Seq::new(10, |i: int| (0x30 + i) as u16);
    let table = table_keys();
    table_lists_what_it_names(vk);
    assert(all_keys() == table + letters + digits);
    if is_letter(vk) {
        assert(all_keys()[table.len() + (vk - 0x41)] == vk);
    } else if is_digit(vk) {
        assert(all_keys()[table.len() + 26 + (vk - 0x30)] == vk);
    } else if table.contains(vk) {
        let i = choose|i: int| 0 <= i < table.len() && table[i] == vk;
        assert(all_keys()[i] == vk);
    }
    if all_keys().contains(vk) {
        let i = choose|i: int| 0 <= i < all_keys().len() && all_keys()[i] == vk;
        if i < table.len() {
            assert(table[i] == vk);
        } else if i < table.len() + 26 {
            assert(letters[i - table.len()] == vk);
        } else {
            assert(digits[i - table.len() - 26] == vk);
        }
    }
}

/// The table lists no key twice.
#[verifier::spinoff_prover]
proof fn table_lists_no_key_twice()
    ensures
        table_keys().no_duplicates(),
{
}

/// No key is listed twice.
proof fn all_keys_lists_no_key_twice()
    ensures
        all_keys().no_duplicates(),
{
    let table = table_keys();
    table_lists_no_key_twice();
    assert forall|i: int, j: int| 0 <= i < j < all_keys().len() implies all_keys()[i]
        != all_keys()[j] by {
        let a = all_keys()[i];
        let b = all_keys()[j];
        if i < table.len() {
            assert(table.contains(table[i]));
            table_lists_what_it_names(a);
        }
        if j < table.len() {
            assert(table[i] != table[j]);
        }
    }
}

/// Filtering brings no element in twice.
proof fn filter_keeps_no_duplicates(keys: Seq<u16>, keep: spec_fn(u16) -> bool)
    requires
        keys.no_duplicates(),
    ensures
        keys.filter(keep).no_duplicates(),
        forall|vk: u16| #[trigger]
            keys.filter(keep).contains(vk) <==> keys.contains(vk) && keep(vk),
    decreases keys.len(),
{
    reveal(Seq::filter);
    if keys.len() > 0 {
        let rest = keys.drop_last();
        let last = keys.last();
        filter_keeps_no_duplicates(rest, keep);
        assert(!rest.contains(last));
        assert(!rest.filter(keep).contains(last));
        assert forall|i: int, j: int|
            0 <= i < j < keys.filter(keep).len() implies keys.filter(keep)[i]
            != keys.filter(keep)[j] by {
            assert(rest.filter(keep).contains(rest.filter(keep)[i]));
        }
        assert forall|vk: u16| #[trigger]
            keys.filter(keep).contains(vk) <==> keys.contains(vk) && keep(vk) by {
            if keys.contains(vk) && vk != last {
                let i = choose|i: int| 0 <= i < keys.len() && keys[i] == vk;
                assert(rest[i] == vk);
            }
            if rest.filter(keep).contains(vk) {
                let i = choose|i: int|
                    0 <= i < rest.filter(keep).len() && rest.filter(keep)[i] == vk;
                assert(keys.filter(keep)[i] == vk);
                let k = choose|k: int| 0 <= k < rest.len() && rest[k] == vk;
                assert(keys[k] == vk);
            }
            if keys.contains(vk) && keep(vk) && vk == last {
                assert(keys.filter(keep)[rest.filter(keep).len() as int] == vk);
            }
            if keys.filter(keep).contains(vk) {
                let i = choose|i: int|
                    0 <= i < keys.filter(keep).len() && keys.filter(keep)[i] == vk;
                if i < rest.filter(keep).len() {
                    assert(rest.filter(keep)[i] == vk);
                } else {
                    assert(vk == last);
                    assert(keys[keys.len() - 1] == vk);
                }
            }
        }
    }
}

/// Every key that may be bound is shown under exactly one group, once; no other
/// key is shown, so neither a modifier nor Escape is.
pub proof fn each_bindable_key_is_shown_once(vk: u16, group: int)
    ensures
        group_keys(group).contains(vk) <==> bindable(vk) && key_group(vk) == group,
        group_keys(group).no_duplicates(),
        key_group(vk) < GROUPS,
{
    all_keys_lists_no_key_twice();
    all_keys_lists_what_has_a_name(vk);
    filter_keeps_no_duplicates(all_keys(), shown_under(group));
}

/// The picker offers a name exactly when a binding may be asked for by it.
pub proof fn offered_names_are_the_acceptable_ones(name: Seq<char>)
    ensures
        offered(name) <==> acceptable(name),
{
    if offered(name) {
        let g = choose|g: int| 0 <= g < GROUPS && #[trigger] names_of(group_keys(g)).contains(name);
        let i = choose|i: int|
            0 <= i < names_of(group_keys(g)).len() && names_of(group_keys(g))[i] == name;
        let vk = group_keys(g)[i];
        assert(group_keys(g).contains(vk));
        each_bindable_key_is_shown_once(vk, g);
        name_leads_back_to_its_key(vk);
    }
    if acceptable(name) {
        let vk = named_key(name)->0;
        let g = key_group(vk) as int;
        named_key_bears_the_name(name);
        each_bindable_key_is_shown_once(vk, g);
        let i = choose|i: int| 0 <= i < group_keys(g).len() && group_keys(g)[i] == vk;
        assert(names_of(group_keys(g))[i] == name);
        assert(names_of(group_keys(g)).contains(name));
    }
}

/// Each of F13 to F24 may be bound, is named `F` and its number, is a function
/// key, and types nothing.
pub proof fn extended_function_keys_are_first_class(n: nat)
    requires
        13 <= n <= 24,
    ensures
        ({
            let vk = (VK_F13 + (n - 13)) as u16;
            &&& key_name(vk) == Some(seq!['F'] + decimal_text(n))
            &&& bindable(vk)
            &&& key_group(vk) == IDX_FUNCTION
            &&& !printable(vk)
        }),
{
    let vk = (VK_F13 + (n - 13)) as u16;
    reveal_strlit("F13");
    reveal_strlit("F14");
    reveal_strlit("F15");
    reveal_strlit("F16");
    reveal_strlit("F17");
    reveal_strlit("F18");
    reveal_strlit("F19");
    reveal_strlit("F20");
    reveal_strlit("F21");
    reveal_strlit("F22");
    reveal_strlit("F23");
    reveal_strlit("F24");
    reveal_with_fuel(decimal_text, 2);
    assert(n == 13 || n == 14 || n == 15 || n == 16 || n == 17 || n == 18 || n == 19 || n == 20
        || n == 21 || n == 22 || n == 23 || n == 24);
    assert(key_name(vk)->0 =~= seq!['F'] + decimal_text(n));
}

} // verus!
