use mugon::commands::list_bindable_keys;
use mugon::hotkey::keys::{bindable_groups, is_modifier, is_printable, name_to_vk, vk_to_name};

#[test]
fn extended_function_keys_all_resolve() {
    for vk in 0x7Cu16..=0x87u16 {
        let name = vk_to_name(vk).unwrap_or_else(|| panic!("VK {vk:#04X} has no name"));
        assert!(!name.is_empty(), "VK {vk:#04X} resolved to empty string");
        assert_eq!(name_to_vk(name), Some(vk), "round-trip failed for {name}");
    }
}

#[test]
fn f13_through_f24_are_named_correctly() {
    assert_eq!(vk_to_name(0x7C), Some("F13"));
    assert_eq!(vk_to_name(0x83), Some("F20"));
    assert_eq!(vk_to_name(0x87), Some("F24"));
}

#[test]
fn f12_and_f13_are_adjacent() {
    assert_eq!(vk_to_name(0x7B), Some("F12"));
    assert_eq!(vk_to_name(0x7C), Some("F13"));
}

#[test]
fn letters_and_digits_resolve() {
    assert_eq!(vk_to_name(0x41), Some("A"));
    assert_eq!(vk_to_name(0x5A), Some("Z"));
    assert_eq!(vk_to_name(0x30), Some("0"));
    assert_eq!(name_to_vk("A"), Some(0x41));
}

#[test]
fn lock_navigation_and_media_keys_resolve() {
    for name in [
        "CapsLock", "ScrollLock", "NumLock", "Home", "PageUp", "Insert", "Delete", "Up",
        "Numpad0", "MediaPlayPause", "VolumeMute", "BrowserBack",
    ] {
        let vk = name_to_vk(name).unwrap_or_else(|| panic!("{name} not mapped"));
        assert_eq!(vk_to_name(vk), Some(name));
    }
}

#[test]
fn punctuation_keys_resolve_and_round_trip() {
    for name in [";", "=", ",", "-", ".", "/", "`", "[", "\\", "]", "'"] {
        let vk = name_to_vk(name).unwrap_or_else(|| panic!("{name} not mapped"));
        assert_eq!(vk_to_name(vk), Some(name), "round-trip failed for {name}");
    }
}

#[test]
fn the_key_that_could_never_be_bound_now_resolves() {
    assert_eq!(vk_to_name(0xBA), Some(";"));
}

#[test]
fn printable_covers_letters_digits_and_punctuation_but_not_function_keys() {
    assert!(is_printable(0x41), "A is printable");
    assert!(is_printable(0x30), "0 is printable");
    assert!(is_printable(0xBA), "; is printable");
    assert!(is_printable(0xDE), "' is printable");
    assert!(!is_printable(0x7C), "F13 is not printable");
    assert!(!is_printable(0x25), "Left arrow is not printable");
}

#[test]
fn bindable_groups_are_offered_in_a_stable_order() {
    let labels: Vec<&str> = bindable_groups().iter().map(|g| g.label).collect();
    assert_eq!(
        labels,
        vec![
            "Function keys",
            "Letters",
            "Digits",
            "Navigation & editing",
            "Numpad",
            "Media & browser",
            "Punctuation",
            "Locks",
        ]
    );
}

#[test]
fn every_offered_key_round_trips_and_is_legal_to_bind() {
    for g in bindable_groups() {
        assert!(!g.keys.is_empty(), "group {} is empty", g.label);
        for name in g.keys {
            let vk = name_to_vk(name).unwrap_or_else(|| panic!("{name} not mapped"));
            assert_eq!(vk_to_name(vk), Some(name), "round-trip failed for {name}");
            assert!(!is_modifier(vk), "{name} is a modifier and must not be offered");
            assert_ne!(vk, 0x1B, "Escape must never be offered");
        }
    }
}

#[test]
fn bindable_groups_include_every_extended_function_key_and_every_punctuation_key() {
    let all: Vec<&str> = bindable_groups().into_iter().flat_map(|g| g.keys).collect();
    for vk in 0x7Cu16..=0x87 {
        let name = vk_to_name(vk).expect("F13-F24 are named");
        assert!(all.contains(&name), "{name} must be offerable");
    }
    for name in [";", "=", ",", "-", ".", "/", "`", "[", "\\", "]", "'"] {
        assert!(all.contains(&name), "{name} must be offerable");
    }
    for name in ["A", "Z", "0", "9"] {
        assert!(all.contains(&name), "{name} must be offerable");
    }
}

#[test]
fn each_group_contains_the_keys_its_label_promises() {
    let groups = bindable_groups();
    let member = |label: &str, key: &str| {
        let g = groups
            .iter()
            .find(|g| g.label == label)
            .unwrap_or_else(|| panic!("no group labelled {label}"));
        assert!(g.keys.contains(&key), "{key} should be under {label}, found {:?}", g.keys);
    };

    member("Function keys", "F16");
    member("Letters", "M");
    member("Digits", "7");
    member("Navigation & editing", "Home");
    member("Numpad", "Numpad0");
    member("Media & browser", "VolumeMute");
    member("Punctuation", ";");
    member("Locks", "CapsLock");
}

#[test]
fn no_key_is_dropped_on_the_way_into_a_group() {
    let offered: usize = bindable_groups().iter().map(|g| g.keys.len()).sum();

    let letter_or_digit = |vk: u16| (0x41..=0x5A).contains(&vk) || (0x30..=0x39).contains(&vk);
    let named = (0..=u16::MAX)
        .filter(|vk| vk_to_name(*vk).is_some() && !letter_or_digit(*vk))
        .filter(|vk| !is_modifier(*vk) && *vk != 0x1B)
        .count();
    let expected = named + 26 + 10;

    assert_eq!(offered, expected, "a key was silently dropped into no group");
    assert_eq!(offered, 116);
}

#[test]
fn modifiers_are_identified() {
    for name in [
        "LeftCtrl", "RightCtrl", "LeftAlt", "RightAlt", "LeftShift", "RightShift", "LeftWin",
        "RightWin",
    ] {
        let vk = name_to_vk(name).unwrap();
        assert!(is_modifier(vk), "{name} should be a modifier");
    }
    assert!(!is_modifier(0x7C), "F13 should not be a modifier");
}

#[test]
fn no_two_keys_share_a_name() {
    let mut names: Vec<&str> = (0..=u16::MAX).filter_map(vk_to_name).collect();
    let all = names.len();
    names.sort_unstable();
    names.dedup();
    assert_eq!(names.len(), all);
}

#[test]
fn generic_modifier_codes_are_modifiers_without_a_name() {
    for vk in [0x10u16, 0x11, 0x12] {
        assert!(is_modifier(vk));
        assert_eq!(vk_to_name(vk), None);
    }
    assert_eq!(name_to_vk("Escape"), None);
    assert_eq!(name_to_vk(""), None);
    assert_eq!(name_to_vk("a"), None, "names are the keycaps, in upper case");
}

#[test]
fn the_picker_gets_the_offered_keys() {
    assert_eq!(list_bindable_keys(), bindable_groups());
}
