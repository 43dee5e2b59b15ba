//! Hotkeys: a key with a set of modifiers, how it reads, and how it is stored.

pub mod hook;
pub mod keyboard;
pub mod keys;
pub mod recorder;
pub mod vk;

use crate::hotkey::keyboard::printable_keys_are_named_by_one_character;
use crate::hotkey::keys::{
    bindable, is_modifier, is_printable, key_name, modifier, name_leads_back_to_its_key,
    name_to_vk, named_key, named_key_bears_the_name, printable, vk_to_name,
};
use crate::text::{hex, hex_text, quoted, quoted_text};
use vstd::prelude::*;

verus! {

/// A key, and exactly the modifiers that must be held with it.
#[derive(Debug, Clone, Copy, PartialEq, Eq, Structural)]
pub struct Hotkey {
    pub ctrl: bool,
    pub alt: bool,
    pub shift: bool,
    pub win: bool,
    pub vk: u16,
}

/// What a key reads as in a label: its name, or `?`.
pub open spec fn key_label(vk: u16) -> Seq<char> {
    match key_name(vk) {
        Some(name) => name,
        None => "?"@,
    }
}

/// What a modifier adds in front of a label, if it is part of the hotkey.
pub open spec fn modifier_label(held: bool, name: Seq<char>) -> Seq<char> {
    if held {
        name + " + "@
    } else {
        Seq::empty()
    }
}

/// The label of a hotkey. The order of the modifiers is fixed, so that one
/// binding always reads the same.
pub open spec fn hotkey_label(hk: Hotkey) -> Seq<char> {
    modifier_label(hk.ctrl, "Ctrl"@) + modifier_label(hk.alt, "Alt"@) + modifier_label(
        hk.shift,
        "Shift"@,
    ) + modifier_label(hk.win, "Win"@) + key_label(hk.vk)
}

fn append_modifier(label: &mut String, held: bool, name: &str)
    ensures
        final(label)@ == old(label)@ + modifier_label(held, name@),
{
    if held {
        label.append(name);
        label.append(" + ");
    }
    assert(label@ =~= old(label)@ + modifier_label(held, name@));
}

impl Hotkey {
    /// Whether the hotkey is a character that is typed without any modifier.
    pub open spec fn types_itself(self) -> bool {
        !self.ctrl && !self.alt && !self.shift && !self.win && printable(self.vk)
    }

    /// The label the user reads, such as `Ctrl + Alt + F13`.
    pub fn display(&self) -> (r: String)
        ensures
            r@ == hotkey_label(*self),
    {
        let mut label = "".to_owned();
        proof {
            reveal_strlit("");
            assert(label@ =~= Seq::<char>::empty());
        }
        append_modifier(&mut label, self.ctrl, "Ctrl");
        append_modifier(&mut label, self.alt, "Alt");
        append_modifier(&mut label, self.shift, "Shift");
        append_modifier(&mut label, self.win, "Win");
        match vk_to_name(self.vk) {
            Some(name) => label.append(name),
            None => label.append("?"),
        }
        assert(label@ =~= hotkey_label(*self));
        label
    }

    /// Whether the hotkey is a printable character without any modifier: such a
    /// binding fires whenever that character is typed. The extended function
    /// keys are not printable, and are what a bare binding is best made of.
    pub fn is_bare_printable(&self) -> (r: bool)
        ensures
            r == self.types_itself(),
            r == (!self.ctrl && !self.alt && !self.shift && !self.win && printable(self.vk)),
    {
        if self.ctrl || self.alt || self.shift || self.win {
            return false;
        }
        is_printable(self.vk)
    }
}

/// A hotkey as it is stored. The key stands there by name, so that a stored
/// binding stays readable and can never come to mean another key.
#[derive(Debug, Clone, PartialEq)]
pub struct HotkeyRepr {
    pub ctrl: bool,
    pub alt: bool,
    pub shift: bool,
    pub win: bool,
    pub key: String,
}

/// Why a hotkey can not be stored, or a stored one not be read.
#[derive(Debug, Clone, PartialEq)]
pub enum HotkeyError {
    /// The key has no name to store it under.
    Unnamed(u16),
    /// No key has the stored name.
    UnknownName(String),
    /// The stored name is that of a modifier.
    Modifier(String),
}

/// What the user reads of the error.
pub open spec fn hotkey_error_text(e: HotkeyError) -> Seq<char> {
    match e {
        HotkeyError::Unnamed(vk) => "unnamed VK "@ + hex_text(vk as nat),
        HotkeyError::UnknownName(name) => "unknown key name "@ + quoted_text(name@),
        HotkeyError::Modifier(name) => "key "@ + quoted_text(name@)
            + " is a modifier and cannot be a hotkey binding"@,
    }
}

impl HotkeyError {
    /// What the user reads of the error.
    pub fn message(&self) -> (r: String)
        ensures
            r@ == hotkey_error_text(*self),
    {
        match self {
            HotkeyError::Unnamed(vk) => "unnamed VK ".to_owned().concat(hex(*vk).as_str()),
            HotkeyError::UnknownName(name) => {
                "unknown key name ".to_owned().concat(quoted(name.as_str()).as_str())
            },
            HotkeyError::Modifier(name) => {
                "key ".to_owned().concat(quoted(name.as_str()).as_str()).concat(
                    " is a modifier and cannot be a hotkey binding",
                )
            },
        }
    }
}

impl HotkeyRepr {
    /// Whether `self` is what `hk` is stored as.
    pub open spec fn stores(&self, hk: Hotkey) -> bool {
        &&& self.ctrl == hk.ctrl
        &&& self.alt == hk.alt
        &&& self.shift == hk.shift
        &&& self.win == hk.win
        &&& key_name(hk.vk) == Some(self.key@)
    }

    /// What reading the stored form gives: the hotkey it stores, unless no key
    /// has its name, or a modifier has it.
    pub open spec fn reads_as(&self, r: Result<Hotkey, HotkeyError>) -> bool {
        match named_key(self.key@) {
            None => r matches Err(HotkeyError::UnknownName(name)) && name@ == self.key@,
            Some(vk) => if modifier(vk) {
                r matches Err(HotkeyError::Modifier(name)) && name@ == self.key@
            } else {
                r matches Ok(hk) && self.stores(hk) && hk.vk == vk
            },
        }
    }

    /// The stored form of a hotkey. A key without a name has none.
    pub fn from_hotkey(hk: &Hotkey) -> (r: Result<HotkeyRepr, HotkeyError>)
        ensures
            r is Ok <==> key_name(hk.vk) is Some,
            r matches Ok(repr) ==> repr.stores(*hk),
            r matches Err(e) ==> e == HotkeyError::Unnamed(hk.vk),
    {
        match vk_to_name(hk.vk) {
            Some(name) => Ok(
                HotkeyRepr {
                    ctrl: hk.ctrl,
                    alt: hk.alt,
                    shift: hk.shift,
                    win: hk.win,
                    key: name.to_owned(),
                },
            ),
            None => Err(HotkeyError::Unnamed(hk.vk)),
        }
    }

    /// The hotkey of a stored form. A name that no key has is refused, and so is
    /// that of a modifier: a binding on a modifier would fire on every use of
    /// that modifier.
    pub fn to_hotkey(&self) -> (r: Result<Hotkey, HotkeyError>)
        ensures
            self.reads_as(r),
    {
        match name_to_vk(self.key.as_str()) {
            None => Err(HotkeyError::UnknownName(self.key.clone())),
            Some(vk) => {
                proof {
                    named_key_bears_the_name(self.key@);
                }
                if is_modifier(vk) {
                    return Err(HotkeyError::Modifier(self.key.clone()));
                }
                Ok(
                    Hotkey {
                        ctrl: self.ctrl,
                        alt: self.alt,
                        shift: self.shift,
                        win: self.win,
                        vk,
                    },
                )
            },
        }
    }
}

/// A stored form stands for one hotkey and no other.
pub proof fn a_stored_form_means_one_hotkey(repr: HotkeyRepr, a: Hotkey, b: Hotkey)
    requires
        repr.stores(a),
        repr.stores(b),
    ensures
        a == b,
{
    name_leads_back_to_its_key(a.vk);
    name_leads_back_to_its_key(b.vk);
}

/// Storing a hotkey and reading it back gives the same hotkey, for every key
/// that may be bound.
pub proof fn a_stored_hotkey_reads_back(
    hk: Hotkey,
    repr: HotkeyRepr,
    r: Result<Hotkey, HotkeyError>,
)
    requires
        bindable(hk.vk),
        repr.stores(hk),
        repr.reads_as(r),
    ensures
        r == Ok::<Hotkey, HotkeyError>(hk),
{
    name_leads_back_to_its_key(hk.vk);
}

/// Whatever a stored form holds, the hotkey read from it is on a key that may be
/// bound: never on a modifier.
pub proof fn no_modifier_is_ever_read(repr: HotkeyRepr, r: Result<Hotkey, HotkeyError>)
    requires
        repr.reads_as(r),
    ensures
        r matches Ok(hk) ==> bindable(hk.vk),
{
}

/// A hotkey without modifiers reads as its key: by the key's name, or as `?`.
pub proof fn a_bare_hotkey_reads_as_its_key(vk: u16)
    ensures
        ({
            let label = hotkey_label(
                Hotkey { ctrl: false, alt: false, shift: false, win: false, vk },
            );
            &&& key_name(vk) matches Some(name) ==> label == name
            &&& key_name(vk) is None ==> label == "?"@
        }),
{
    assert(hotkey_label(Hotkey { ctrl: false, alt: false, shift: false, win: false, vk })
        =~= key_label(vk));
}

/// Each modifier puts its own name and ` + ` in front of what the rest reads as;
/// Ctrl stands before Alt, Alt before Shift, and Shift before Win.
pub proof fn each_modifier_adds_its_own_name(hk: Hotkey)
    ensures
        hotkey_label(Hotkey { ctrl: true, ..hk }) == "Ctrl"@ + " + "@ + hotkey_label(
            Hotkey { ctrl: false, ..hk },
        ),
        !hk.ctrl ==> hotkey_label(Hotkey { alt: true, ..hk }) == "Alt"@ + " + "@ + hotkey_label(
            Hotkey { alt: false, ..hk },
        ),
        !hk.ctrl && !hk.alt ==> hotkey_label(Hotkey { shift: true, ..hk }) == "Shift"@ + " + "@
            + hotkey_label(Hotkey { shift: false, ..hk }),
        !hk.ctrl && !hk.alt && !hk.shift ==> hotkey_label(Hotkey { win: true, ..hk }) == "Win"@
            + " + "@ + hotkey_label(Hotkey { win: false, ..hk }),
{
    assert(hotkey_label(Hotkey { ctrl: true, ..hk }) =~= "Ctrl"@ + " + "@ + hotkey_label(
        Hotkey { ctrl: false, ..hk },
    ));
    assert(!hk.ctrl ==> hotkey_label(Hotkey { alt: true, ..hk }) =~= "Alt"@ + " + "@ + hotkey_label(
        Hotkey { alt: false, ..hk },
    ));
    assert(!hk.ctrl && !hk.alt ==> hotkey_label(Hotkey { shift: true, ..hk }) =~= "Shift"@ + " + "@
        + hotkey_label(Hotkey { shift: false, ..hk }));
    assert(!hk.ctrl && !hk.alt && !hk.shift ==> hotkey_label(Hotkey { win: true, ..hk })
        =~= "Win"@ + " + "@ + hotkey_label(Hotkey { win: false, ..hk }));
}

/// A stored form holds each modifier as the hotkey has it, and the key by its
/// name.
pub proof fn a_stored_form_holds_each_field(repr: HotkeyRepr, hk: Hotkey)
    ensures
        repr.stores(hk) <==> repr.ctrl == hk.ctrl && repr.alt == hk.alt && repr.shift == hk.shift
            && repr.win == hk.win && key_name(hk.vk) == Some(repr.key@),
{
}

/// What reading a stored form gives, by its fields: each modifier as it stands
/// there, and the key that bears the name. A name that no key bears and that of a
/// modifier are refused, by that name, and no other is.
pub proof fn a_stored_form_is_read_field_by_field(
    repr: HotkeyRepr,
    r: Result<Hotkey, HotkeyError>,
    vk: u16,
)
    requires
        repr.reads_as(r),
    ensures
        key_name(vk) == Some(repr.key@) && !modifier(vk) ==> (r matches Ok(hk) && hk.vk == vk
            && hk.ctrl == repr.ctrl && hk.alt == repr.alt && hk.shift == repr.shift && hk.win
            == repr.win),
        key_name(vk) == Some(repr.key@) && modifier(vk) ==> (r matches Err(HotkeyError::Modifier(
            name,
        )) && name@ == repr.key@),
        (forall|k: u16| key_name(k) != Some(repr.key@)) ==> (r matches Err(
            HotkeyError::UnknownName(name),
        ) && name@ == repr.key@),
{
    if key_name(vk) == Some(repr.key@) {
        name_leads_back_to_its_key(vk);
    }
    named_key_bears_the_name(repr.key@);
}

/// What each error reads.
pub proof fn hotkey_errors_name_what_they_refuse(name: String, vk: u16)
    ensures
        hotkey_error_text(HotkeyError::UnknownName(name)) == "unknown key name "@ + quoted_text(
            name@,
        ),
        hotkey_error_text(HotkeyError::Modifier(name)) == "key "@ + quoted_text(name@)
            + " is a modifier and cannot be a hotkey binding"@,
        hotkey_error_text(HotkeyError::Unnamed(vk)) == "unnamed VK "@ + hex_text(vk as nat),
{
}

/// A hotkey on a key that has a name types itself exactly when its label is a
/// single character; and one with any modifier never does.
pub proof fn a_hotkey_that_types_itself_reads_as_one_character(hk: Hotkey)
    requires
        key_name(hk.vk) is Some,
    ensures
        hk.types_itself() <==> hotkey_label(hk).len() == 1,
        hk.ctrl || hk.alt || hk.shift || hk.win ==> !hk.types_itself(),
{
    reveal_strlit(" + ");
    printable_keys_are_named_by_one_character(hk.vk);
}

} // verus!
