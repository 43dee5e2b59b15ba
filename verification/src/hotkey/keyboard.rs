//! What every key of the keyboard is, code by code.

use crate::hotkey::keys::{
    all_keys, all_keys_lists_what_has_a_name, bindable, group_keys, group_label, key_name,
    modifier, name_leads_back_to_its_key, named_key, named_key_bears_the_name, names_of,
    printable, shown_under, table_keys, texts,
};
use vstd::prelude::*;

verus! {

/// Each function key is named `F` and its number.
pub proof fn function_keys_have_their_names()
    ensures
        key_name(0x7C) == Some("F13"@),
        key_name(0x7D) == Some("F14"@),
        key_name(0x7E) == Some("F15"@),
        key_name(0x7F) == Some("F16"@),
        key_name(0x80) == Some("F17"@),
        key_name(0x81) == Some("F18"@),
        key_name(0x82) == Some("F19"@),
        key_name(0x83) == Some("F20"@),
        key_name(0x84) == Some("F21"@),
        key_name(0x85) == Some("F22"@),
        key_name(0x86) == Some("F23"@),
        key_name(0x87) == Some("F24"@),
        key_name(0x70) == Some("F1"@),
        key_name(0x71) == Some("F2"@),
        key_name(0x72) == Some("F3"@),
        key_name(0x73) == Some("F4"@),
        key_name(0x74) == Some("F5"@),
        key_name(0x75) == Some("F6"@),
        key_name(0x76) == Some("F7"@),
        key_name(0x77) == Some("F8"@),
        key_name(0x78) == Some("F9"@),
        key_name(0x79) == Some("F10"@),
        key_name(0x7A) == Some("F11"@),
        key_name(0x7B) == Some("F12"@),
{
}

/// Each modifier and each lock has its own name.
pub proof fn modifiers_and_locks_have_their_names()
    ensures
        key_name(0xA2) == Some("LeftCtrl"@),
        key_name(0xA3) == Some("RightCtrl"@),
        key_name(0xA4) == Some("LeftAlt"@),
        key_name(0xA5) == Some("RightAlt"@),
        key_name(0xA0) == Some("LeftShift"@),
        key_name(0xA1) == Some("RightShift"@),
        key_name(0x5B) == Some("LeftWin"@),
        key_name(0x5C) == Some("RightWin"@),
        key_name(0x14) == Some("CapsLock"@),
        key_name(0x91) == Some("ScrollLock"@),
        key_name(0x90) == Some("NumLock"@),
{
}

/// Each key that moves or edits has its own name.
pub proof fn navigation_keys_have_their_names()
    ensures
        key_name(0x26) == Some("Up"@),
        key_name(0x28) == Some("Down"@),
        key_name(0x25) == Some("Left"@),
        key_name(0x27) == Some("Right"@),
        key_name(0x24) == Some("Home"@),
        key_name(0x23) == Some("End"@),
        key_name(0x21) == Some("PageUp"@),
        key_name(0x22) == Some("PageDown"@),
        key_name(0x2D) == Some("Insert"@),
        key_name(0x2E) == Some("Delete"@),
        key_name(0x08) == Some("Backspace"@),
        key_name(0x09) == Some("Tab"@),
        key_name(0x0D) == Some("Enter"@),
        key_name(0x20) == Some("Space"@),
        key_name(0x13) == Some("Pause"@),
        key_name(0x2C) == Some("PrintScreen"@),
{
}

/// Each punctuation key is named by the character that it types without Shift on
/// a US keyboard.
pub proof fn punctuation_keys_have_their_names()
    ensures
        key_name(0xBA) == Some(";"@),
        key_name(0xBB) == Some("="@),
        key_name(0xBC) == Some(","@),
        key_name(0xBD) == Some("-"@),
        key_name(0xBE) == Some("."@),
        key_name(0xBF) == Some("/"@),
        key_name(0xC0) == Some("`"@),
        key_name(0xDB) == Some("["@),
        key_name(0xDC) == Some("\\"@),
        key_name(0xDD) == Some("]"@),
        key_name(0xDE) == Some("'"@),
{
}

/// Each key of the numpad has its own name, apart from the number row's.
pub proof fn numpad_keys_have_their_names()
    ensures
        key_name(0x60) == Some("Numpad0"@),
        key_name(0x61) == Some("Numpad1"@),
        key_name(0x62) == Some("Numpad2"@),
        key_name(0x63) == Some("Numpad3"@),
        key_name(0x64) == Some("Numpad4"@),
        key_name(0x65) == Some("Numpad5"@),
        key_name(0x66) == Some("Numpad6"@),
        key_name(0x67) == Some("Numpad7"@),
        key_name(0x68) == Some("Numpad8"@),
        key_name(0x69) == Some("Numpad9"@),
        key_name(0x6A) == Some("NumpadMultiply"@),
        key_name(0x6B) == Some("NumpadAdd"@),
        key_name(0x6D) == Some("NumpadSubtract"@),
        key_name(0x6E) == Some("NumpadDecimal"@),
        key_name(0x6F) == Some("NumpadDivide"@),
{
}

/// Each media, volume and browser key has its own name.
pub proof fn media_keys_have_their_names()
    ensures
        key_name(0xB3) == Some("MediaPlayPause"@),
        key_name(0xB2) == Some("MediaStop"@),
        key_name(0xB0) == Some("MediaNext"@),
        key_name(0xB1) == Some("MediaPrev"@),
        key_name(0xAD) == Some("VolumeMute"@),
        key_name(0xAF) == Some("VolumeUp"@),
        key_name(0xAE) == Some("VolumeDown"@),
        key_name(0xA6) == Some("BrowserBack"@),
        key_name(0xA7) == Some("BrowserForward"@),
        key_name(0xA8) == Some("BrowserRefresh"@),
        key_name(0xAC) == Some("BrowserHome"@),
{
}

/// Letters and digits are named by themselves, and their codes are their ASCII
/// characters.
pub proof fn letters_and_digits_have_their_names(c: char)
    requires
        'A' <= c <= 'Z' || '0' <= c <= '9',
    ensures
        key_name(c as u16) == Some(seq![c]),
{
}

/// The codes that have a name.
pub proof fn no_other_key_has_a_name(vk: u16)
    ensures
        key_name(vk) is Some <==> ({
            ||| 0x08 <= vk <= 0x09
            ||| vk == 0x0D
            ||| 0x13 <= vk <= 0x14
            ||| 0x20 <= vk <= 0x28
            ||| 0x2C <= vk <= 0x2E
            ||| 0x30 <= vk <= 0x39
            ||| 0x41 <= vk <= 0x5C
            ||| 0x60 <= vk <= 0x6B
            ||| 0x6D <= vk <= 0x87
            ||| 0x90 <= vk <= 0x91
            ||| 0xA0 <= vk <= 0xA8
            ||| 0xAC <= vk <= 0xB3
            ||| 0xBA <= vk <= 0xC0
            ||| 0xDB <= vk <= 0xDE
        }),
{
}

/// The modifiers: Shift, Ctrl, Alt and Win, of either side or of none.
pub proof fn the_modifiers_are_these(vk: u16)
    ensures
        modifier(vk) <==> ({
            ||| 0x10 <= vk <= 0x12
            ||| 0x5B <= vk <= 0x5C
            ||| 0xA0 <= vk <= 0xA5
        }),
{
}

/// The keys that may be bound: those that have a name, but for the modifiers.
/// Escape is not among them.
pub proof fn the_bindable_keys_are_these(vk: u16)
    ensures
        bindable(vk) <==> ({
            ||| 0x08 <= vk <= 0x09
            ||| vk == 0x0D
            ||| 0x13 <= vk <= 0x14
            ||| 0x20 <= vk <= 0x28
            ||| 0x2C <= vk <= 0x2E
            ||| 0x30 <= vk <= 0x39
            ||| 0x41 <= vk <= 0x5A
            ||| 0x60 <= vk <= 0x6B
            ||| 0x6D <= vk <= 0x87
            ||| 0x90 <= vk <= 0x91
            ||| 0xA6 <= vk <= 0xA8
            ||| 0xAC <= vk <= 0xB3
            ||| 0xBA <= vk <= 0xC0
            ||| 0xDB <= vk <= 0xDE
        }),
        !bindable(0x1B),
{
}

/// A key types something exactly when its name is a single character.
#[verifier::spinoff_prover]
pub proof fn printable_keys_are_named_by_one_character(vk: u16)
    ensures
        printable(vk) <==> key_name(vk) is Some && key_name(vk)->0.len() == 1,
{
    reveal_strlit("F13");
    reveal_strlit("F14");
    reveal_strlit("F15");
    reveal_strlit("F16");
    reveal_strlit("F17");
    reveal_strlit("F18");
    reveal_strlit("F19");
    reveal_strlit("F20");
    reveal_strlit("F21");
    reveal_strlit("F22");
    reveal_strlit("F23");
    reveal_strlit("F24");
    reveal_strlit("F1");
    reveal_strlit("F2");
    reveal_strlit("F3");
    reveal_strlit("F4");
    reveal_strlit("F5");
    reveal_strlit("F6");
    reveal_strlit("F7");
    reveal_strlit("F8");
    reveal_strlit("F9");
    reveal_strlit("F10");
    reveal_strlit("F11");
    reveal_strlit("F12");
    reveal_strlit("LeftCtrl");
    reveal_strlit("RightCtrl");
    reveal_strlit("LeftAlt");
    reveal_strlit("RightAlt");
    reveal_strlit("LeftShift");
    reveal_strlit("RightShift");
    reveal_strlit("LeftWin");
    reveal_strlit("RightWin");
    reveal_strlit("CapsLock");
    reveal_strlit("ScrollLock");
    reveal_strlit("NumLock");
    reveal_strlit("Up");
    reveal_strlit("Down");
    reveal_strlit("Left");
    reveal_strlit("Right");
    reveal_strlit("Home");
    reveal_strlit("End");
    reveal_strlit("PageUp");
    reveal_strlit("PageDown");
    reveal_strlit("Insert");
    reveal_strlit("Delete");
    reveal_strlit("Backspace");
    reveal_strlit("Tab");
    reveal_strlit("Enter");
    reveal_strlit("Space");
    reveal_strlit("Pause");
    reveal_strlit("PrintScreen");
    reveal_strlit(";");
    reveal_strlit("=");
    reveal_strlit(",");
    reveal_strlit("-");
    reveal_strlit(".");
    reveal_strlit("/");
    reveal_strlit("`");
    reveal_strlit("[");
    reveal_strlit("\\");
    reveal_strlit("]");
    reveal_strlit("'");
    reveal_strlit("Numpad0");
    reveal_strlit("Numpad1");
    reveal_strlit("Numpad2");
    reveal_strlit("Numpad3");
    reveal_strlit("Numpad4");
    reveal_strlit("Numpad5");
    reveal_strlit("Numpad6");
    reveal_strlit("Numpad7");
    reveal_strlit("Numpad8");
    reveal_strlit("Numpad9");
    reveal_strlit("NumpadMultiply");
    reveal_strlit("NumpadAdd");
    reveal_strlit("NumpadSubtract");
    reveal_strlit("NumpadDecimal");
    reveal_strlit("NumpadDivide");
    reveal_strlit("MediaPlayPause");
    reveal_strlit("MediaStop");
    reveal_strlit("MediaNext");
    reveal_strlit("MediaPrev");
    reveal_strlit("VolumeMute");
    reveal_strlit("VolumeUp");
    reveal_strlit("VolumeDown");
    reveal_strlit("BrowserBack");
    reveal_strlit("BrowserForward");
    reveal_strlit("BrowserRefresh");
    reveal_strlit("BrowserHome");
}

/// A name and its key go together: a name leads to the key that bears it, and to
/// no other.
pub proof fn a_name_leads_to_the_key_that_bears_it(name: Seq<char>, vk: u16)
    ensures
        named_key(name) == Some(vk) <==> key_name(vk) == Some(name),
{
    named_key_bears_the_name(name);
    if key_name(vk) == Some(name) {
        name_leads_back_to_its_key(vk);
    }
}

/// A name that no key bears leads nowhere.
pub proof fn an_unknown_name_leads_nowhere(name: Seq<char>)
    ensures
        named_key(name) is None <==> forall|vk: u16| key_name(vk) != Some(name),
{
}

/// What is kept of a sequence, if it is exactly one part of it.
proof fn filter_keeps_the_part(keys: Seq<u16>, keep: spec_fn(u16) -> bool, lo: int, hi: int)
    requires
        0 <= lo <= hi <= keys.len(),
        forall|i: int| 0 <= i < keys.len() ==> keep(#[trigger] keys[i]) == (lo <= i < hi),
    ensures
        keys.filter(keep) == keys.subrange(lo, hi),
    decreases keys.len(),
{
    reveal(Seq::filter);
    if keys.len() == 0 {
        assert(keys.subrange(lo, hi) =~= Seq::<u16>::empty());
    } else {
        let rest = keys.drop_last();
        let n = rest.len() as int;
        let end = if hi > n { n } else { hi };
        let start = if lo > n { n } else { lo };
        assert forall|i: int| 0 <= i < rest.len() implies keep(#[trigger] rest[i]) == (start <= i
            < end) by {
            assert(keep(keys[i]) == (lo <= i < hi));
        }
        filter_keeps_the_part(rest, keep, start, end);
        assert(keep(keys[n]) == (lo <= n < hi));
        if lo <= n < hi {
            assert(keys.subrange(lo, hi) =~= rest.subrange(start, end).push(keys[n]));
        } else {
            assert(keys.subrange(lo, hi) =~= rest.subrange(start, end));
        }
    }
}

/// The keys in the order in which the picker goes through them, code by code.
proof fn the_order_of_the_keys()
    ensures
        table_keys() == seq![
            0x7Cu16, 0x7Du16, 0x7Eu16, 0x7Fu16, 0x80u16, 0x81u16, 0x82u16, 0x83u16, 0x84u16, 0x85u16,
            0x86u16, 0x87u16, 0x70u16, 0x71u16, 0x72u16, 0x73u16, 0x74u16, 0x75u16, 0x76u16, 0x77u16,
            0x78u16, 0x79u16, 0x7Au16, 0x7Bu16, 0xA2u16, 0xA3u16, 0xA4u16, 0xA5u16, 0xA0u16, 0xA1u16,
            0x5Bu16, 0x5Cu16, 0x14u16, 0x91u16, 0x90u16, 0x26u16, 0x28u16, 0x25u16, 0x27u16, 0x24u16,
            0x23u16, 0x21u16, 0x22u16, 0x2Du16, 0x2Eu16, 0x08u16, 0x09u16, 0x0Du16, 0x20u16, 0x13u16,
            0x2Cu16, 0xBAu16, 0xBBu16, 0xBCu16, 0xBDu16, 0xBEu16, 0xBFu16, 0xC0u16, 0xDBu16, 0xDCu16,
            0xDDu16, 0xDEu16, 0x60u16, 0x61u16, 0x62u16, 0x63u16, 0x64u16, 0x65u16, 0x66u16, 0x67u16,
            0x68u16, 0x69u16, 0x6Au16, 0x6Bu16, 0x6Du16, 0x6Eu16, 0x6Fu16, 0xB3u16, 0xB2u16, 0xB0u16,
            0xB1u16, 0xADu16, 0xAFu16, 0xAEu16, 0xA6u16, 0xA7u16, 0xA8u16, 0xACu16,
        ],
        all_keys().len() == 124,
        forall|i: int| 0 <= i < 88 ==> #[trigger] all_keys()[i] == table_keys()[i],
        forall|i: int| 88 <= i < 114 ==> #[trigger] all_keys()[i] == 0x41 + (i - 88),
        forall|i: int| 114 <= i < 124 ==> #[trigger] all_keys()[i] == 0x30 + (i - 114),
{
}

/// Which part of the keys each group of the picker shows.
#[verifier::spinoff_prover]
#[verifier::rlimit(60)]
proof fn each_group_is_one_part(group: int, i: int)
    requires
        0 <= group < 8,
        0 <= i < 124,
    ensures
        shown_under(group)(all_keys()[i]) == (first_of(group) <= i < end_of(group)),
{
    the_order_of_the_keys();
    all_keys_lists_what_has_a_name(all_keys()[i]);
    assert(all_keys().contains(all_keys()[i]));
}

spec fn first_of(group: int) -> int {
    if group == 0 {
        0
    } else if group == 1 {
        88
    } else if group == 2 {
        114
    } else if group == 3 {
        35
    } else if group == 4 {
        62
    } else if group == 5 {
        77
    } else if group == 6 {
        51
    } else {
        32
    }
}

spec fn end_of(group: int) -> int {
    if group == 0 {
        24
    } else if group == 1 {
        114
    } else if group == 2 {
        124
    } else if group == 3 {
        51
    } else if group == 4 {
        77
    } else if group == 5 {
        88
    } else if group == 6 {
        62
    } else {
        35
    }
}

proof fn a_group_is_its_part(group: int)
    requires
        0 <= group < 8,
    ensures
        group_keys(group) == all_keys().subrange(first_of(group), end_of(group)),
{
    the_order_of_the_keys();
    assert forall|i: int| 0 <= i < all_keys().len() implies shown_under(group)(
        #[trigger] all_keys()[i],
    ) == (first_of(group) <= i < end_of(group)) by {
        each_group_is_one_part(group, i);
    }
    filter_keeps_the_part(all_keys(), shown_under(group), first_of(group), end_of(group));
}

/// The picker's function keys, in order.
pub proof fn the_function_keys_are_these()
    ensures
        group_label(0) == "Function keys"@,
        group_keys(0) == seq![
            0x7Cu16, 0x7Du16, 0x7Eu16, 0x7Fu16, 0x80u16, 0x81u16, 0x82u16, 0x83u16, 0x84u16, 0x85u16,
            0x86u16, 0x87u16, 0x70u16, 0x71u16, 0x72u16, 0x73u16, 0x74u16, 0x75u16, 0x76u16, 0x77u16,
            0x78u16, 0x79u16, 0x7Au16, 0x7Bu16,
        ],
{
    the_order_of_the_keys();
    a_group_is_its_part(0);
}

/// The picker's navigation keys, in order.
pub proof fn the_navigation_keys_are_these()
    ensures
        group_label(3) == "Navigation & editing"@,
        group_keys(3) == seq![
            0x26u16, 0x28u16, 0x25u16, 0x27u16, 0x24u16, 0x23u16, 0x21u16, 0x22u16, 0x2Du16, 0x2Eu16,
            0x08u16, 0x09u16, 0x0Du16, 0x20u16, 0x13u16, 0x2Cu16,
        ],
{
    the_order_of_the_keys();
    a_group_is_its_part(3);
}

/// The picker's numpad keys, in order.
pub proof fn the_numpad_keys_are_these()
    ensures
        group_label(4) == "Numpad"@,
        group_keys(4) == seq![
            0x60u16, 0x61u16, 0x62u16, 0x63u16, 0x64u16, 0x65u16, 0x66u16, 0x67u16, 0x68u16, 0x69u16,
            0x6Au16, 0x6Bu16, 0x6Du16, 0x6Eu16, 0x6Fu16,
        ],
{
    the_order_of_the_keys();
    a_group_is_its_part(4);
}

/// The picker's media keys, in order.
pub proof fn the_media_keys_are_these()
    ensures
        group_label(5) == "Media & browser"@,
        group_keys(5) == seq![
            0xB3u16, 0xB2u16, 0xB0u16, 0xB1u16, 0xADu16, 0xAFu16, 0xAEu16, 0xA6u16, 0xA7u16, 0xA8u16,
            0xACu16,
        ],
{
    the_order_of_the_keys();
    a_group_is_its_part(5);
}

/// The picker's punctuation keys, in order.
pub proof fn the_punctuation_keys_are_these()
    ensures
        group_label(6) == "Punctuation"@,
        group_keys(6) == seq![
            0xBAu16, 0xBBu16, 0xBCu16, 0xBDu16, 0xBEu16, 0xBFu16, 0xC0u16, 0xDBu16, 0xDCu16, 0xDDu16,
            0xDEu16,
        ],
{
    the_order_of_the_keys();
    a_group_is_its_part(6);
}

/// The picker's lock keys, in order.
pub proof fn the_lock_keys_are_these()
    ensures
        group_label(7) == "Locks"@,
        group_keys(7) == seq![
            0x14u16, 0x91u16, 0x90u16,
        ],
{
    the_order_of_the_keys();
    a_group_is_its_part(7);
}

/// The picker's letters and digits, in order.
pub proof fn the_letters_and_digits_are_these()
    ensures
        group_label(1) == "Letters"@,
        group_keys(1) == Seq::new(26, |i: int| (0x41 + i) as u16),
        group_label(2) == "Digits"@,
        group_keys(2) == Seq::new(10, |i: int| (0x30 + i) as u16),
{
    the_order_of_the_keys();
    a_group_is_its_part(1);
    a_group_is_its_part(2);
}

/// What the picker writes for a key is the key's own name.
pub proof fn a_key_is_shown_by_its_name(keys: Seq<u16>, i: int)
    requires
        0 <= i < keys.len(),
        key_name(keys[i]) is Some,
    ensures
        names_of(keys).len() == keys.len(),
        Some(names_of(keys)[i]) == key_name(keys[i]),
{
}

/// Strings are shown by their characters, one for one.
pub proof fn a_string_is_shown_by_its_characters(strings: Seq<&'static str>, i: int)
    requires
        0 <= i < strings.len(),
    ensures
        texts(strings).len() == strings.len(),
        texts(strings)[i] == strings[i]@,
{
}

} // verus!
