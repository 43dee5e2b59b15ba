use mugon::audio::fake::FakeMic;
use mugon::audio::{AudioError, MicBackend};
use mugon::commands::list_bindable_keys;
use mugon::config::{Config, ConfigFile};
use mugon::hotkey::Hotkey;
use mugon::modes::{Mode, ModeMachine};
use mugon::scalar::Scalar;
use mugon::span::Span;
use mugon::startup::{spawn_with_timeout, Attempt};
use mugon::state::{Core, HotkeyStatusKind, Mic, AUDIO_SPAWN_TIMEOUT, STATE_CHANGED};

fn scalar(x: f32) -> Scalar {
    Scalar::from_bits(x.to_bits())
}

fn fake_core(mode: Mode) -> Core<FakeMic> {
    Core::new(
        ModeMachine::new(Mic::Live(FakeMic::new()), mode),
        Config { mode, ..Config::default() },
        None,
    )
}

fn unavailable_core() -> Core<FakeMic> {
    Core::new(ModeMachine::new(Mic::Unavailable, Mode::MuteToggle), Config::default(), None)
}

/// The settings that the next launch finds, if they are to be written now.
fn saved(core: &mut Core<FakeMic>) -> Config {
    assert!(core.take_save(), "the settings must be written");
    assert!(!core.take_save(), "and once only");
    let (config, backup) = Config::load(ConfigFile::Parsed(core.config.save().unwrap()));
    assert!(!backup);
    config
}

#[test]
fn set_hotkey_stores_and_persists_a_binding() {
    let mut core = fake_core(Mode::MuteToggle);

    core.set_hotkey(true, false, true, false, Some("F16")).unwrap();

    assert_eq!(
        core.config.hotkey.map(|h| h.display()).as_deref(),
        Some("Ctrl + Shift + F16")
    );
    assert_eq!(
        saved(&mut core).hotkey.map(|h| h.display()).as_deref(),
        Some("Ctrl + Shift + F16"),
        "the choice must survive to the next launch"
    );
}

#[test]
fn set_hotkey_with_no_key_clears_the_binding() {
    let mut core = fake_core(Mode::MuteToggle);
    core.set_hotkey(false, false, false, false, Some("F16")).unwrap();

    core.set_hotkey(false, false, false, false, None).unwrap();

    assert_eq!(core.config.hotkey, None);
    assert_eq!(saved(&mut core).hotkey, None, "clearing must persist too");
}

#[test]
fn set_hotkey_rejects_a_modifier_as_the_bound_key() {
    let mut core = fake_core(Mode::MuteToggle);

    let e = core.set_hotkey(false, false, false, false, Some("LeftCtrl")).unwrap_err();
    assert_eq!(e, "\"LeftCtrl\" is a modifier and cannot be the bound key");

    assert_eq!(core.config.hotkey, None, "a rejected binding must not be stored");
    assert!(!core.take_save());
}

#[test]
fn set_hotkey_rejects_a_key_that_is_not_offered() {
    let mut core = fake_core(Mode::MuteToggle);

    let e = core.set_hotkey(false, false, false, false, Some("Nonsense")).unwrap_err();
    assert_eq!(e, "\"Nonsense\" is not a bindable key");
    assert!(
        core.set_hotkey(false, false, false, false, Some("Escape")).is_err(),
        "Escape is the universal way out and is not bindable"
    );
}

#[test]
fn set_hotkey_resets_the_confirmation() {
    let mut core = fake_core(Mode::MuteToggle);
    core.set_hotkey(false, false, false, false, Some("F16")).unwrap();
    core.confirm_hotkey();

    core.set_hotkey(false, false, false, false, Some("F17")).unwrap();

    assert!(!core.config.hotkey_confirmed);
}

#[test]
fn confirming_is_a_one_time_transition() {
    let mut core = fake_core(Mode::MuteToggle);
    core.set_hotkey(false, false, false, false, Some("F16")).unwrap();

    assert!(core.confirm_hotkey(), "the first sighting confirms");
    assert!(saved(&mut core).hotkey_confirmed, "confirmation must survive a restart");

    assert!(!core.confirm_hotkey(), "a second sighting changes nothing");
    assert!(!core.take_save(), "nor is anything written");
}

#[test]
fn confirming_without_a_binding_does_nothing() {
    let mut core = fake_core(Mode::MuteToggle);

    assert!(!core.confirm_hotkey());
    assert!(!core.config.hotkey_confirmed);
}

#[test]
fn a_rejected_binding_records_why_in_last_error() {
    let mut core = fake_core(Mode::MuteToggle);

    assert!(core.set_hotkey(false, false, false, false, Some("Nonsense")).is_err());

    let message = core.last_error.as_deref().expect("the rejection must be visible");
    assert!(message.contains("Nonsense"), "the message must name the key: {message}");
}

#[test]
fn a_successful_binding_clears_a_previous_rejection() {
    let mut core = fake_core(Mode::MuteToggle);
    let _ = core.set_hotkey(false, false, false, false, Some("Nonsense"));

    core.set_hotkey(false, false, false, false, Some("F16")).unwrap();

    assert_eq!(core.last_error, None);
}

#[test]
fn hotkey_status_reads_not_set_with_no_binding() {
    let core = fake_core(Mode::MuteToggle);
    assert_eq!(core.hotkey_status().label, "Not set");
    assert_eq!(core.hotkey_status().kind, HotkeyStatusKind::NotSet);
}

#[test]
fn every_hotkey_status_kind_travels_with_its_label() {
    let mut core = fake_core(Mode::MuteToggle);
    assert_eq!(core.hotkey_status().kind, HotkeyStatusKind::NotSet);

    core.set_hotkey(false, false, false, false, Some("F16")).unwrap();
    assert_eq!(core.hotkey_status().kind, HotkeyStatusKind::Bound);

    core.confirm_hotkey();
    assert_eq!(core.hotkey_status().kind, HotkeyStatusKind::Confirmed);

    core.hook_error = Some("blocked".into());
    assert_eq!(core.hotkey_status().kind, HotkeyStatusKind::Inactive);
}

#[test]
fn hotkey_status_prompts_for_a_confirming_press() {
    let mut core = fake_core(Mode::MuteToggle);
    core.set_hotkey(false, false, false, false, Some("F16")).unwrap();

    assert_eq!(core.hotkey_status().label, "Bound — press F16 to confirm");
}

#[test]
fn hotkey_status_reads_confirmed_once_the_hook_has_seen_it() {
    let mut core = fake_core(Mode::MuteToggle);
    core.set_hotkey(false, false, false, false, Some("F16")).unwrap();

    core.confirm_hotkey();

    assert_eq!(core.hotkey_status().label, "Confirmed");
}

#[test]
fn a_dead_hook_outranks_every_other_hotkey_status() {
    let mut core = fake_core(Mode::MuteToggle);
    core.hook_error = Some("Windows blocked the keyboard hook".into());

    assert_eq!(core.hotkey_status().label, "Inactive — keyboard hook blocked");

    core.set_hotkey(false, false, false, false, Some("F16")).unwrap();
    assert_eq!(core.hotkey_status().label, "Inactive — keyboard hook blocked");

    core.confirm_hotkey();
    assert_eq!(core.hotkey_status().label, "Inactive — keyboard hook blocked");
}

#[test]
fn the_state_travels_under_its_event_name() {
    assert_eq!(STATE_CHANGED, "state-changed");
}

#[test]
fn the_hotkey_wire_shapes_the_picker_switches_on_are_pinned() {
    let mut core = unavailable_core();

    let state = core.snapshot();
    assert_eq!(format!("{:?}", state.hotkey_status.kind), "NotSet");
    assert_eq!(state.hotkey_status.label, "Not set");
    assert_eq!(state.hotkey, None);

    core.config.hotkey =
        Some(Hotkey { ctrl: true, alt: false, shift: false, win: false, vk: 0x7F });
    let state = core.snapshot();
    assert_eq!(format!("{:?}", state.hotkey_status.kind), "Bound");
    let hotkey = state.hotkey.expect("hotkey must be there");
    assert_eq!(hotkey.key, "F16");
    assert_eq!(
        (hotkey.ctrl, hotkey.alt, hotkey.shift, hotkey.win),
        (true, false, false, false)
    );

    core.config.hotkey_confirmed = true;
    assert_eq!(format!("{:?}", core.snapshot().hotkey_status.kind), "Confirmed");

    core.hook_error = Some("blocked".into());
    assert_eq!(format!("{:?}", core.snapshot().hotkey_status.kind), "Inactive");
}

#[test]
fn snapshot_degrades_gracefully_with_no_microphone() {
    let snapshot = unavailable_core().snapshot();
    assert!(!snapshot.muted);
    assert_eq!(snapshot.volume, scalar(1.0));
    assert_eq!(snapshot.mode, Mode::MuteToggle);
    assert!(snapshot.manual_controls_enabled);
    assert_eq!(snapshot.hotkey, None);
}

#[test]
fn snapshot_shows_what_the_microphone_answers() {
    let mut core = fake_core(Mode::PushToTalk);
    core.machine.mic_mut().set_volume(scalar(0.25)).unwrap();
    core.config.device_id = Some("yeti".to_string());
    core.config.autostart = true;
    let state = core.snapshot();
    assert!(state.muted);
    assert_eq!(state.volume, scalar(0.25));
    assert_eq!(state.mode, Mode::PushToTalk);
    assert!(!state.manual_controls_enabled);
    assert_eq!(state.selected_device.as_deref(), Some("yeti"));
    assert!(state.autostart);
    assert!(state.notifications.toast && !state.notifications.sound);
    assert!(!state.hotkey_is_bare_printable);
    assert_eq!((state.last_error, state.hook_error), (None, None));

    let state = core.render(Ok(false), Err(AudioError::NoDevice));
    assert!(!state.muted);
    assert_eq!(state.volume, scalar(1.0));
}

#[test]
fn snapshot_carries_the_binding_in_parts_for_the_picker() {
    let mut core = unavailable_core();
    core.config.hotkey =
        Some(Hotkey { ctrl: true, alt: false, shift: true, win: false, vk: 0x7F });

    let parts = core.snapshot().hotkey.expect("a bound hotkey must reach the picker");

    assert!(parts.ctrl);
    assert!(!parts.alt);
    assert!(parts.shift);
    assert!(!parts.win);
    assert_eq!(parts.key, "F16");
}

#[test]
fn what_the_picker_shows_can_be_set_again() {
    let mut core = fake_core(Mode::MuteToggle);
    for key in ["F13", "A", "7", ";", "\\", "Numpad0", "CapsLock"] {
        core.set_hotkey(true, false, false, true, Some(key)).unwrap();
        let before = core.config.hotkey;
        let parts = core.snapshot().hotkey.unwrap();
        core.set_hotkey(parts.ctrl, parts.alt, parts.shift, parts.win, Some(&parts.key)).unwrap();
        assert_eq!(core.config.hotkey, before);
    }
}

#[test]
fn every_offered_key_can_be_set() {
    let mut core = fake_core(Mode::MuteToggle);
    for group in list_bindable_keys() {
        for name in group.keys {
            core.set_hotkey(false, false, false, false, Some(name)).unwrap();
            assert_eq!(core.config.hotkey.map(|h| h.display()).as_deref(), Some(name));
        }
    }
}

#[test]
fn snapshot_reports_the_bound_hotkey_and_its_bare_printable_warning() {
    let mut core = unavailable_core();
    core.config.hotkey =
        Some(Hotkey { ctrl: false, alt: false, shift: false, win: false, vk: 0x4D });
    let snapshot = core.snapshot();
    assert_eq!(snapshot.hotkey.map(|h| h.key).as_deref(), Some("M"));
    assert!(snapshot.hotkey_is_bare_printable, "bare M must carry the warning flag");
}

#[test]
fn record_outcome_sets_on_failure_and_clears_on_the_next_success() {
    let mut core = unavailable_core();

    core.record_outcome(&Err::<(), _>(AudioError::ThreadTerminated));
    assert_eq!(core.last_error.as_deref(), Some("audio thread terminated"));
    assert_eq!(core.snapshot().last_error.as_deref(), Some("audio thread terminated"));

    core.record_outcome(&Ok::<_, AudioError>(()));
    assert_eq!(core.last_error, None);
}

#[test]
fn snapshot_does_not_clear_a_recorded_error() {
    let mut core = unavailable_core();
    core.record_outcome(&Err::<(), _>(AudioError::NoDevice));
    let _ = core.snapshot();
    assert_eq!(core.last_error.as_deref(), Some("no capture device available"));
}

#[test]
fn an_unavailable_mic_errors_every_call_instead_of_pretending_to_work() {
    let mut mic: Mic<FakeMic> = Mic::Unavailable;
    assert!(matches!(mic.list_devices(), Err(AudioError::NoDevice)));
    assert!(matches!(mic.is_muted(), Err(AudioError::NoDevice)));
    assert!(matches!(mic.volume(), Err(AudioError::NoDevice)));
    assert!(matches!(mic.peak(), Err(AudioError::NoDevice)));
    assert!(matches!(mic.select(Some("x")), Err(AudioError::NoDevice)));
    assert!(matches!(mic.set_muted(true), Err(AudioError::NoDevice)));
    assert!(matches!(mic.set_volume(scalar(0.5)), Err(AudioError::NoDevice)));
    assert!(mic.tap().is_none(), "there is no worker to meter");
    assert!(matches!(mic.enable_hotplug(), Err(AudioError::NoDevice)));
}

#[test]
fn a_live_mic_hands_its_worker_out_and_forwards_every_call() {
    let mut mic = Mic::Live(FakeMic::new());
    assert!(mic.tap().is_some());
    assert!(mic.enable_hotplug().is_ok());
    mic.select(Some("yeti")).unwrap();
    mic.set_muted(true).unwrap();
    mic.set_volume(scalar(0.5)).unwrap();
    assert!(mic.is_muted().unwrap());
    assert_eq!(mic.volume().unwrap(), scalar(0.5));
    assert_eq!(mic.peak().unwrap(), scalar(0.0));
    assert_eq!(mic.list_devices().unwrap().len(), 1);
    assert_eq!(mic.tap().unwrap().selected.as_deref(), Some("yeti"));
}

#[test]
fn selecting_a_device_in_ptt_leaves_the_new_device_muted() {
    let mut core = fake_core(Mode::PushToTalk);
    assert!(core.machine.mic().is_muted().unwrap(), "PTT rests muted");

    core.machine.mic_mut().set_muted(false).unwrap();

    let muted = core.select_device(Some("device-2".into()));

    assert!(muted, "the caller needs the new mute state to pick a tray icon");
    assert!(
        core.machine.mic().is_muted().unwrap(),
        "a device change in PTT must not leave the new device hot"
    );
    assert_eq!(core.config.device_id.as_deref(), Some("device-2"));
    assert_eq!(core.last_error, None);
}

#[test]
fn selecting_a_device_in_mute_toggle_leaves_the_new_device_live() {
    let mut core = fake_core(Mode::MuteToggle);
    core.machine.mic_mut().set_muted(true).unwrap();

    let muted = core.select_device(None);

    assert!(!muted, "the reported state must match the device, not the old icon");
    assert!(!core.machine.mic().is_muted().unwrap(), "Mute Toggle rests unmuted");
    assert_eq!(core.config.device_id, None);
}

#[test]
fn a_failed_selection_still_persists_the_users_choice_and_records_why() {
    let mut core = fake_core(Mode::MuteToggle);
    core.machine = ModeMachine::new(Mic::Unavailable, Mode::MuteToggle);

    let _muted = core.select_device(Some("unplugged-device".into()));

    assert_eq!(core.config.device_id.as_deref(), Some("unplugged-device"));
    assert_eq!(core.last_error.as_deref(), Some("no capture device available"));
    assert_eq!(
        saved(&mut core).device_id.as_deref(),
        Some("unplugged-device"),
        "the choice must survive to the next launch"
    );
}

#[test]
fn apply_mode_mutes_reports_and_persists_on_entering_push_to_talk() {
    let mut core = fake_core(Mode::MuteToggle);
    assert!(!core.machine.mic().is_muted().unwrap(), "Mute Toggle rests unmuted");

    let muted = core.apply_mode(Mode::PushToTalk);

    assert!(muted, "the caller needs the new mute state to pick a tray icon");
    assert!(core.machine.mic().is_muted().unwrap());
    assert_eq!(core.config.mode, Mode::PushToTalk);
    assert_eq!(
        saved(&mut core).mode,
        Mode::PushToTalk,
        "the mode must survive to the next launch"
    );
}

#[test]
fn toggle_mute_reports_the_state_it_left_behind() {
    let mut core = fake_core(Mode::MuteToggle);
    assert!(core.toggle_mute(), "the first toggle mutes");
    assert!(!core.toggle_mute(), "the second unmutes");
}

#[test]
fn toggle_mute_is_a_no_op_in_push_to_talk() {
    let mut core = fake_core(Mode::PushToTalk);
    assert!(core.toggle_mute(), "PTT rests muted; the manual switch must not move it");
    assert!(core.machine.mic().is_muted().unwrap());
}

#[test]
fn spawn_with_timeout_returns_a_fast_constructors_value() {
    let value = spawn_with_timeout(Span::from_millis(5_000), Attempt::Finished(Ok(7u32))).unwrap();
    assert_eq!(value, 7);
}

#[test]
fn spawn_with_timeout_propagates_a_constructor_error_verbatim() {
    let result = spawn_with_timeout(Span::from_millis(5_000), Attempt::Finished(Err::<u32, _>(AudioError::NoDevice)));
    assert!(matches!(result, Err(AudioError::NoDevice)), "got {result:?}");
}

#[test]
fn spawn_with_timeout_gives_up_on_a_wedged_constructor() {
    match spawn_with_timeout(Span::from_millis(50), Attempt::<u32>::TimedOut) {
        Err(AudioError::Windows(msg)) => {
            assert!(msg.contains("did not respond"), "unhelpful message: {msg}");
        }
        other => panic!("expected a timeout error, got {other:?}"),
    }
    match spawn_with_timeout(Span::from_millis(AUDIO_SPAWN_TIMEOUT), Attempt::<u32>::TimedOut) {
        Err(AudioError::Windows(msg)) => {
            assert_eq!(msg, "the Windows audio service did not respond within 5s")
        }
        other => panic!("expected a timeout error, got {other:?}"),
    }
    match spawn_with_timeout(Span::new(123_456_789, 999_999_999), Attempt::<u32>::TimedOut) {
        Err(AudioError::Windows(msg)) => {
            assert_eq!(msg, "the Windows audio service did not respond within 123456789s")
        }
        other => panic!("expected a timeout error, got {other:?}"),
    }
}

#[test]
fn a_startup_thread_that_never_was_or_died_is_an_error() {
    match spawn_with_timeout(Span::from_millis(50), Attempt::<u32>::NotSpawned("no threads".into())) {
        Err(AudioError::Windows(msg)) => {
            assert_eq!(msg, "could not spawn the audio startup thread: no threads")
        }
        other => panic!("expected an error, got {other:?}"),
    }
    assert!(matches!(
        spawn_with_timeout(Span::from_millis(50), Attempt::<u32>::Died),
        Err(AudioError::ThreadTerminated)
    ));
}
