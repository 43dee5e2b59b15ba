use mugon::config::{Config, ConfigFile, ConfigRepr, NotificationPrefs, BACKUP, FILE, PENDING};
use mugon::hotkey::{Hotkey, HotkeyError, HotkeyRepr};
use mugon::modes::Mode;

#[test]
fn defaults_match_spec() {
    let c = Config::default();
    assert_eq!(c.version, 1);
    assert_eq!(c.device_id, None, "must follow system default device");
    assert_eq!(c.mode, Mode::MuteToggle);
    assert!(c.notifications.toast);
    assert!(!c.notifications.sound, "sound is off by default");
    assert!(!c.autostart);
}

fn load(repr: ConfigRepr) -> (Config, bool) {
    Config::load(ConfigFile::Parsed(repr))
}

#[test]
fn roundtrips_through_disk() {
    let mut c = Config::default();
    c.hotkey = Some(Hotkey { ctrl: false, alt: false, shift: false, win: false, vk: 0x7C });
    c.mode = Mode::PushToTalk;
    let saved = c.save().unwrap();
    assert_eq!(saved.hotkey_confirmed, Some(false), "written out even where it is not so");
    assert_eq!(load(saved), (c, false));
}

#[test]
fn every_setting_comes_back() {
    let c = Config {
        version: 1,
        device_id: Some("{0.0.1.00000000}.{abc}".to_string()),
        mode: Mode::PushToTalk,
        hotkey: Some(Hotkey { ctrl: true, alt: false, shift: true, win: false, vk: 0xBA }),
        hotkey_confirmed: true,
        notifications: NotificationPrefs { toast: false, sound: true },
        autostart: true,
    };
    let saved = c.save().unwrap();
    assert_eq!(saved.hotkey.as_ref().map(|h| h.key.as_str()), Some(";"));
    assert_eq!(load(saved), (c, false));
}

#[test]
fn missing_file_yields_defaults() {
    assert_eq!(Config::load(ConfigFile::Missing), (Config::default(), false));
}

#[test]
fn corrupt_file_is_backed_up_and_replaced_with_defaults() {
    assert_eq!(Config::load(ConfigFile::Invalid), (Config::default(), true));
    assert_eq!(FILE, "config.json");
    assert_eq!(BACKUP, "config.json.bak");
    assert_eq!(PENDING, "config.json.tmp");
}

fn stored(device_id: Option<&str>, key: &str, confirmed: Option<bool>, sound: bool) -> ConfigRepr {
    ConfigRepr {
        version: 1,
        device_id: device_id.map(str::to_string),
        mode: Mode::MuteToggle,
        hotkey: Some(HotkeyRepr {
            ctrl: false,
            alt: false,
            shift: false,
            win: false,
            key: key.to_string(),
        }),
        hotkey_confirmed: confirmed,
        notifications: NotificationPrefs { toast: true, sound },
        autostart: false,
    }
}

#[test]
fn unknown_hotkey_name_does_not_panic() {
    assert_eq!(load(stored(None, "Bogus", None, false)), (Config::default(), true));
}

#[test]
fn a_modifier_as_the_bound_key_falls_back_to_defaults() {
    assert_eq!(load(stored(None, "RightAlt", None, false)), (Config::default(), true));
}

#[test]
fn a_config_written_before_hotkey_confirmed_existed_still_loads() {
    let (c, backup) = load(stored(Some("some-device"), "F16", None, true));

    assert_eq!(
        c.hotkey.map(|h| h.display()).as_deref(),
        Some("F16"),
        "the existing binding must survive the upgrade"
    );
    assert_eq!(c.device_id.as_deref(), Some("some-device"));
    assert!(!c.hotkey_confirmed, "a binding this build has never seen starts unconfirmed");
    assert!(c.notifications.sound);
    assert!(!backup, "an older config is not a corrupt one");
}

#[test]
fn volume_is_not_persisted() {
    let stored = format!("{:?}", Config::default().save().unwrap());
    assert!(!stored.contains("volume"), "volume must not be in config: {stored}");
}

#[test]
fn a_binding_without_a_name_can_not_be_saved() {
    let c = Config {
        hotkey: Some(Hotkey { ctrl: false, alt: false, shift: false, win: false, vk: 0x07 }),
        ..Config::default()
    };
    assert_eq!(c.save(), Err(HotkeyError::Unnamed(0x07)));
}
