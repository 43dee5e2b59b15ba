use mugon::hotkey::hook::{
    hook_event, is_physically_down, modifier_state, set_binding, HookEvent, ModifierReadings,
};
use mugon::hotkey::recorder::{Recorder, RecorderOutcome};
use mugon::hotkey::{hook, Hotkey, HotkeyError, HotkeyRepr};

fn hk(ctrl: bool, alt: bool, vk: u16) -> Hotkey {
    Hotkey { ctrl, alt, shift: false, win: false, vk }
}

fn combo(ctrl: bool, alt: bool, vk: u16) -> HookEvent {
    HookEvent { vk, down: true, ctrl, alt, shift: false, win: false }
}

fn ev(vk: u16, down: bool) -> HookEvent {
    HookEvent { vk, down, ctrl: false, alt: false, shift: false, win: false }
}

fn ev_mods(vk: u16, down: bool, ctrl: bool, alt: bool) -> HookEvent {
    HookEvent { vk, down, ctrl, alt, shift: false, win: false }
}

#[test]
fn display_orders_modifiers_consistently() {
    let hk = Hotkey { ctrl: true, alt: true, shift: false, win: false, vk: 0x7C };
    assert_eq!(hk.display(), "Ctrl + Alt + F13");
}

#[test]
fn display_handles_bare_key() {
    let hk = Hotkey { ctrl: false, alt: false, shift: false, win: false, vk: 0x7C };
    assert_eq!(hk.display(), "F13");
}

#[test]
fn display_shows_every_modifier_and_marks_an_unnamed_key() {
    let hk = Hotkey { ctrl: true, alt: true, shift: true, win: true, vk: 0x41 };
    assert_eq!(hk.display(), "Ctrl + Alt + Shift + Win + A");
    let unnamed = Hotkey { ctrl: false, alt: false, shift: true, win: false, vk: 0x07 };
    assert_eq!(unnamed.display(), "Shift + ?");
}

#[test]
fn serde_roundtrip_uses_key_name_not_vk() {
    let hk = Hotkey { ctrl: true, alt: false, shift: false, win: false, vk: 0x87 };
    let repr = HotkeyRepr::from_hotkey(&hk).unwrap();
    assert_eq!(repr.key, "F24", "expected key name");
    assert!(!format!("{repr:?}").contains("135"), "raw VK leaked: {repr:?}");
    assert_eq!(repr.to_hotkey().unwrap(), hk);
}

fn stored(key: &str) -> HotkeyRepr {
    HotkeyRepr { ctrl: false, alt: false, shift: false, win: false, key: key.to_string() }
}

#[test]
fn deserializing_unknown_key_name_fails_cleanly() {
    let e = stored("Nonsense").to_hotkey().unwrap_err();
    assert_eq!(e, HotkeyError::UnknownName("Nonsense".to_string()));
    assert_eq!(e.message(), "unknown key name \"Nonsense\"");
}

#[test]
fn deserializing_a_modifier_key_name_fails() {
    let e = stored("LeftCtrl").to_hotkey().unwrap_err();
    assert_eq!(e, HotkeyError::Modifier("LeftCtrl".to_string()));
    assert_eq!(e.message(), "key \"LeftCtrl\" is a modifier and cannot be a hotkey binding");
}

#[test]
fn a_key_without_a_name_can_not_be_stored() {
    let e = HotkeyRepr::from_hotkey(&hk(false, false, 0x07)).unwrap_err();
    assert_eq!(e, HotkeyError::Unnamed(0x07));
    assert_eq!(e.message(), "unnamed VK 0x07");
    assert_eq!(HotkeyError::Unnamed(0xFFAB).message(), "unnamed VK 0xFFAB");
    assert_eq!(HotkeyError::Unnamed(0x1F).message(), "unnamed VK 0x1F");
}

#[test]
fn names_are_quoted_with_escapes() {
    let e = stored("a\"b\n").to_hotkey().unwrap_err();
    assert_eq!(e.message(), "unknown key name \"a\\\"b\\n\"");
}

#[test]
fn is_bare_printable_flags_letters_but_not_function_keys() {
    let m = Hotkey { ctrl: false, alt: false, shift: false, win: false, vk: 0x4D };
    assert!(m.is_bare_printable(), "bare M should warn");
    let f13 = Hotkey { ctrl: false, alt: false, shift: false, win: false, vk: 0x7C };
    assert!(!f13.is_bare_printable(), "F13 must NOT warn");
    let ctrl_m = Hotkey { ctrl: true, alt: false, shift: false, win: false, vk: 0x4D };
    assert!(!ctrl_m.is_bare_printable(), "Ctrl+M is not bare");
}

#[test]
fn bare_punctuation_warns_too() {
    assert!(hk(false, false, 0xBA).is_bare_printable());
    assert!(hk(false, false, 0x30).is_bare_printable());
    assert!(!hk(false, true, 0xBA).is_bare_printable());
}

#[test]
fn exact_match_fires() {
    assert!(hook::matches(&hk(true, true, 0x4D), &combo(true, true, 0x4D)));
}

#[test]
fn wrong_key_does_not_fire() {
    assert!(!hook::matches(&hk(true, true, 0x4D), &combo(true, true, 0x4E)));
}

#[test]
fn extra_modifier_does_not_fire() {
    let mut e = combo(true, true, 0x4D);
    e.shift = true;
    assert!(!hook::matches(&hk(true, true, 0x4D), &e));
}

#[test]
fn missing_modifier_does_not_fire() {
    assert!(!hook::matches(&hk(true, true, 0x4D), &combo(true, false, 0x4D)));
}

#[test]
fn bare_f13_fires_with_no_modifiers() {
    assert!(hook::matches(&hk(false, false, 0x7C), &combo(false, false, 0x7C)));
}

#[test]
fn bare_binding_does_not_fire_when_a_modifier_is_held() {
    assert!(!hook::matches(&hk(false, false, 0x7C), &combo(true, false, 0x7C)));
}

#[test]
fn a_release_fires_like_the_press() {
    let binding = hk(true, false, 0x4D);
    assert!(hook::matches(&binding, &ev_mods(0x4D, true, true, false)));
    assert!(hook::matches(&binding, &ev_mods(0x4D, false, true, false)));
}

fn idle() -> ModifierReadings {
    ModifierReadings { control: 0, menu: 0, lmenu: 0, rmenu: 0, shift: 0, lwin: 0, rwin: 0 }
}

#[test]
fn the_sign_bit_says_that_a_key_is_held() {
    assert!(is_physically_down(i16::MIN));
    assert!(is_physically_down(-1));
    assert!(!is_physically_down(0));
    assert!(!is_physically_down(1), "pressed since the last look, and up again");
}

#[test]
fn either_alt_and_either_win_key_count() {
    assert_eq!(modifier_state(&idle()), (false, false, false, false));
    for reading in [
        ModifierReadings { menu: -1, ..idle() },
        ModifierReadings { lmenu: -1, ..idle() },
        ModifierReadings { rmenu: -1, ..idle() },
    ] {
        assert_eq!(modifier_state(&reading), (false, true, false, false));
    }
    for reading in
        [ModifierReadings { lwin: -1, ..idle() }, ModifierReadings { rwin: -1, ..idle() }]
    {
        assert_eq!(modifier_state(&reading), (false, false, false, true));
    }
    let both = ModifierReadings { control: -1, shift: -1, ..idle() };
    assert_eq!(modifier_state(&both), (true, false, true, false));
}

#[test]
fn the_hook_reports_key_messages_only() {
    let down = hook_event(0, 0x0100, 0x7C, &idle()).unwrap();
    assert_eq!(down, ev(0x7C, true));
    assert_eq!(hook_event(0, 0x0104, 0x7C, &idle()), Some(ev(0x7C, true)));
    assert_eq!(hook_event(0, 0x0101, 0x7C, &idle()), Some(ev(0x7C, false)));
    assert_eq!(hook_event(0, 0x0105, 0x7C, &idle()), Some(ev(0x7C, false)));
    assert_eq!(hook_event(0, 0x0102, 0x7C, &idle()), None, "a character is no key");
    assert_eq!(hook_event(-1, 0x0100, 0x7C, &idle()), None, "not to be processed");
    let held = ModifierReadings { control: -1, ..idle() };
    assert_eq!(hook_event(0, 0x0100, 0x4D, &held), Some(combo(true, false, 0x4D)));
}

#[test]
fn a_binding_is_replaced() {
    let mut slot = None;
    set_binding(&mut slot, Some(hk(false, false, 0x7C)));
    assert_eq!(slot, Some(hk(false, false, 0x7C)));
    set_binding(&mut slot, None);
    assert_eq!(slot, None);
}

#[test]
fn inactive_recorder_ignores_events() {
    let mut r = Recorder::default();
    assert!(matches!(r.feed(&ev(0x7C, true)), RecorderOutcome::Idle));
}

#[test]
fn records_a_bare_extended_function_key() {
    let mut r = Recorder::default();
    r.start();
    assert!(matches!(r.feed(&ev(0x7C, true)), RecorderOutcome::InProgress(Some(_))));
    match r.feed(&ev(0x7C, false)) {
        RecorderOutcome::Committed(hk) => {
            assert_eq!(hk.vk, 0x7C);
            assert_eq!(hk.display(), "F13");
        }
        other => panic!("expected commit, got {other:?}"),
    }
    assert!(!r.is_active(), "recorder must stop after committing");
}

#[test]
fn records_a_modifier_combo() {
    let mut r = Recorder::default();
    r.start();
    r.feed(&ev_mods(0x11, true, true, false));
    r.feed(&ev_mods(0x12, true, true, true));
    r.feed(&ev_mods(0x4D, true, true, true));
    match r.feed(&ev_mods(0x4D, false, true, true)) {
        RecorderOutcome::Committed(hk) => assert_eq!(hk.display(), "Ctrl + Alt + M"),
        other => panic!("expected commit, got {other:?}"),
    }
}

#[test]
fn modifier_only_press_does_not_commit() {
    let mut r = Recorder::default();
    r.start();
    r.feed(&ev_mods(0x11, true, true, false));
    assert!(matches!(
        r.feed(&ev_mods(0x11, false, false, false)),
        RecorderOutcome::InProgress(None)
    ));
    assert!(r.is_active(), "releasing a lone modifier must not commit");
}

#[test]
fn escape_cancels() {
    let mut r = Recorder::default();
    r.start();
    assert!(matches!(r.feed(&ev(0x1B, true)), RecorderOutcome::Cancelled));
    assert!(!r.is_active());
}

#[test]
fn extended_function_keys_all_record() {
    for vk in 0x7Cu16..=0x87u16 {
        let mut r = Recorder::default();
        r.start();
        r.feed(&ev(vk, true));
        match r.feed(&ev(vk, false)) {
            RecorderOutcome::Committed(hk) => assert_eq!(hk.vk, vk),
            other => panic!("VK {vk:#04X} failed to record: {other:?}"),
        }
    }
}

#[test]
fn a_release_commits_the_combination_of_the_press() {
    let mut r = Recorder::default();
    r.start();
    r.feed(&ev_mods(0x4D, true, true, true));
    assert_eq!(
        r.feed(&ev_mods(0x4D, false, false, false)),
        RecorderOutcome::Committed(hk(true, true, 0x4D))
    );
}

#[test]
fn a_key_without_a_name_is_not_recorded() {
    let mut r = Recorder::default();
    r.start();
    assert_eq!(r.feed(&ev(0x07, true)), RecorderOutcome::InProgress(None));
    assert_eq!(r.feed(&ev(0x07, false)), RecorderOutcome::InProgress(None));
    assert!(r.is_active());
}

#[test]
fn a_cancelled_recording_starts_from_nothing() {
    let mut r = Recorder::default();
    r.start();
    r.feed(&ev(0x7C, true));
    r.cancel();
    assert!(!r.is_active());
    r.start();
    assert_eq!(
        r.feed(&ev_mods(0x11, true, true, false)),
        RecorderOutcome::InProgress(None),
        "the earlier combination is gone"
    );
}
