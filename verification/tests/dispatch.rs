use std::cell::Cell;

use mugon::audio::fake::FakeMic;
use mugon::audio::{AudioError, MicBackend};
use mugon::config::Config;
use mugon::dispatch::{
    follow_up, handle_hook_event, hook_failure_message, may_exit, report_hook_failure,
    restore_microphone, watchdog_poll, Follow, WATCHDOG_INTERVAL,
};
use mugon::hotkey::hook::HookEvent;
use mugon::hotkey::Hotkey;
use mugon::modes::{KeyEdge, KeyObservation, Mode, ModeMachine};
use mugon::state::{Core, Mic};

const F13: u16 = 0x7C;

fn fake_core(mode: Mode) -> Core<FakeMic> {
    Core::new(
        ModeMachine::new(Mic::Live(FakeMic::new()), mode),
        Config { mode, ..Config::default() },
        None,
    )
}

fn binding() -> Hotkey {
    Hotkey { ctrl: false, alt: false, shift: false, win: false, vk: F13 }
}

fn ev(vk: u16, down: bool) -> HookEvent {
    HookEvent { vk, down, ctrl: false, alt: false, shift: false, win: false }
}

fn bound_core(mode: Mode) -> Core<FakeMic> {
    let mut core = fake_core(mode);
    core.config.hotkey = Some(binding());
    core
}

#[test]
fn ptt_key_down_reports_a_mute_change_to_live() {
    let mut core = bound_core(Mode::PushToTalk);
    assert!(core.machine.mic().is_muted().unwrap(), "PTT rests muted");

    match handle_hook_event(&mut core, &ev(F13, true)) {
        Follow::MuteChanged { mode, muted, .. } => {
            assert_eq!(mode, Mode::PushToTalk);
            assert!(!muted, "holding the key must report going live");
        }
        other => panic!("expected a mute change, got {other:?}"),
    }
    assert!(!core.machine.mic().is_muted().unwrap());
}

#[test]
fn ptt_key_up_reports_a_mute_change_back_to_muted() {
    let mut core = bound_core(Mode::PushToTalk);
    let _ = handle_hook_event(&mut core, &ev(F13, true));

    match handle_hook_event(&mut core, &ev(F13, false)) {
        Follow::MuteChanged { muted, .. } => assert!(muted, "release must re-mute"),
        other => panic!("expected a mute change, got {other:?}"),
    }
    assert!(core.machine.mic().is_muted().unwrap());
}

#[test]
fn mute_toggle_key_up_reports_nothing() {
    let mut core = bound_core(Mode::MuteToggle);
    assert!(matches!(
        handle_hook_event(&mut core, &ev(F13, true)),
        Follow::MuteChanged { muted: true, .. }
    ));
    assert!(matches!(handle_hook_event(&mut core, &ev(F13, false)), Follow::Nothing));
    assert!(core.machine.mic().is_muted().unwrap(), "state must survive the key-up");
}

#[test]
fn a_non_matching_key_is_ignored_entirely() {
    let mut core = bound_core(Mode::PushToTalk);
    let before = core.machine.mic().is_muted().unwrap();

    assert!(matches!(handle_hook_event(&mut core, &ev(0x4D, true)), Follow::Nothing));
    assert_eq!(core.machine.mic().is_muted().unwrap(), before, "the mic must not move");
}

#[test]
fn the_bound_key_with_an_extra_modifier_is_ignored() {
    let mut core = bound_core(Mode::PushToTalk);
    let mut event = ev(F13, true);
    event.ctrl = true;
    assert!(matches!(handle_hook_event(&mut core, &event), Follow::Nothing));
}

#[test]
fn no_binding_at_all_means_no_hotkey_ever_fires() {
    let mut core = fake_core(Mode::PushToTalk);
    assert_eq!(core.config.hotkey, None);
    assert!(matches!(handle_hook_event(&mut core, &ev(F13, true)), Follow::Nothing));
}

#[test]
fn a_matching_press_confirms_the_binding() {
    let mut core = bound_core(Mode::MuteToggle);
    assert!(!core.config.hotkey_confirmed, "a fresh binding starts unconfirmed");

    let _ = handle_hook_event(&mut core, &ev(F13, true));

    assert!(core.config.hotkey_confirmed);
}

#[test]
fn a_non_matching_press_never_confirms() {
    let mut core = bound_core(Mode::MuteToggle);

    let _ = handle_hook_event(&mut core, &ev(0x4D, true));

    assert!(!core.config.hotkey_confirmed, "only the bound combo is proof");
}

#[test]
fn a_release_whose_modifiers_already_lifted_does_not_confirm() {
    let mut core = fake_core(Mode::MuteToggle);
    core.config.hotkey =
        Some(Hotkey { ctrl: true, alt: false, shift: false, win: false, vk: F13 });

    let _ = handle_hook_event(&mut core, &ev(F13, false));

    assert!(!core.config.hotkey_confirmed);
}

#[test]
fn a_release_alone_confirms_nothing() {
    let mut core = bound_core(Mode::MuteToggle);
    let _ = handle_hook_event(&mut core, &ev(F13, false));
    assert!(!core.config.hotkey_confirmed);
    assert!(!core.take_save());
}

#[test]
fn the_settings_are_written_for_the_first_press_only() {
    let mut core = bound_core(Mode::PushToTalk);
    let _ = handle_hook_event(&mut core, &ev(F13, true));
    assert!(core.take_save());
    let _ = handle_hook_event(&mut core, &ev(F13, false));
    let _ = handle_hook_event(&mut core, &ev(F13, true));
    assert!(!core.take_save());
}

#[test]
fn the_hook_failure_banner_names_the_symptom_and_the_likely_cause() {
    let message =
        hook_failure_message("SetWindowsHookExW failed: Access is denied. (0x80070005)");

    let head = &message[..65.min(message.len())];
    assert!(head.contains("Hotkey"), "the symptom must survive truncation: {head}");
    assert!(
        head.to_lowercase().contains("antivirus") || head.contains("blocked"),
        "the cause must survive truncation: {head}"
    );
    assert!(
        message.contains("0x80070005"),
        "the underlying Win32 error must still be recoverable from the full string"
    );
}

#[test]
fn the_hook_failure_banner_reads_in_full() {
    assert_eq!(
        hook_failure_message("nope"),
        "Hotkey inactive — Windows blocked the keyboard hook. Antivirus software is the usual \
         cause; mugon cannot mute or unmute from the keyboard until it is allowed through. \
         Everything else still works. (nope)"
    );
}

#[test]
fn a_hook_failure_survives_later_successful_audio_calls() {
    let mut core = bound_core(Mode::MuteToggle);
    core.hook_error = Some(hook_failure_message("nope"));
    core.last_error = Some("something transient".into());

    let _ = core.refresh_mic_health();
    assert_eq!(core.last_error, None, "the transient error must have cleared");

    let snapshot = core.snapshot();
    assert!(
        snapshot.hook_error.is_some(),
        "the hook failure must still be reported to the UI"
    );
    assert_eq!(snapshot.last_error, None);
}

#[test]
fn a_working_hook_reports_no_error() {
    let core = bound_core(Mode::MuteToggle);
    assert_eq!(core.snapshot().hook_error, None);
}

#[test]
fn a_hook_failure_is_recorded() {
    let mut core = bound_core(Mode::MuteToggle);
    report_hook_failure(&mut core, "denied");
    assert_eq!(core.hook_error, Some(hook_failure_message("denied")));
    assert_eq!(core.last_error, None);
}

const KEY_IS_UP: fn(u16) -> bool = |_| false;
const KEY_IS_DOWN: fn(u16) -> bool = |_| true;

fn poll(core: &mut Core<FakeMic>, probe: impl Fn(u16) -> bool) -> Follow {
    watchdog_poll(core, probe).1
}

#[test]
fn a_forced_release_is_reported_separately_from_its_follow_up() {
    let mut core = bound_core(Mode::PushToTalk);
    assert!(!watchdog_poll(&mut core, KEY_IS_UP).0, "nothing held: nothing forced");

    let _ = handle_hook_event(&mut core, &ev(F13, true));
    assert!(!watchdog_poll(&mut core, KEY_IS_DOWN).0, "a real hold forces nothing");
    assert!(watchdog_poll(&mut core, KEY_IS_UP).0, "a stuck key must report the release");
    assert!(!watchdog_poll(&mut core, KEY_IS_UP).0, "and only once");
}

#[test]
fn the_watchdog_remutes_a_ptt_hold_whose_key_up_never_arrived() {
    let mut core = bound_core(Mode::PushToTalk);
    let _ = handle_hook_event(&mut core, &ev(F13, true));
    assert!(!core.machine.mic().is_muted().unwrap(), "sanity: the hold went live");

    match poll(&mut core, KEY_IS_UP) {
        Follow::MuteChanged { mode, muted, .. } => {
            assert_eq!(mode, Mode::PushToTalk);
            assert!(muted, "the forced release must report the mic going quiet");
        }
        other => panic!("expected a mute change, got {other:?}"),
    }
    assert!(core.machine.mic().is_muted().unwrap());
    assert!(!core.machine.is_held(), "the hold must be cleared, not just the mute");
}

#[test]
fn the_watchdog_leaves_a_genuine_hold_alone() {
    let mut core = bound_core(Mode::PushToTalk);
    let _ = handle_hook_event(&mut core, &ev(F13, true));

    for _ in 0..8 {
        assert!(matches!(poll(&mut core, KEY_IS_DOWN), Follow::Nothing));
    }
    assert!(!core.machine.mic().is_muted().unwrap(), "a real hold must stay live");
    assert!(core.machine.is_held());
}

#[test]
fn the_watchdog_is_silent_when_nothing_is_held() {
    let mut core = bound_core(Mode::PushToTalk);
    assert!(matches!(poll(&mut core, KEY_IS_UP), Follow::Nothing));
    assert!(core.machine.mic().is_muted().unwrap(), "PTT rests muted, untouched");
    assert_eq!(WATCHDOG_INTERVAL, 250);
}

#[test]
fn the_watchdog_never_touches_mute_toggle() {
    let mut core = bound_core(Mode::MuteToggle);
    let _ = handle_hook_event(&mut core, &ev(F13, true));
    let muted = core.machine.mic().is_muted().unwrap();

    assert!(matches!(poll(&mut core, KEY_IS_UP), Follow::Nothing));
    assert_eq!(core.machine.mic().is_muted().unwrap(), muted, "the mic must not move");
}

#[test]
fn the_watchdog_releases_a_hold_whose_binding_was_cleared() {
    let mut core = bound_core(Mode::PushToTalk);
    let _ = handle_hook_event(&mut core, &ev(F13, true));
    core.config.hotkey = None;

    assert!(matches!(poll(&mut core, KEY_IS_DOWN), Follow::MuteChanged { muted: true, .. }));
    assert!(core.machine.mic().is_muted().unwrap());
}

#[test]
fn the_watchdog_fires_once_and_then_settles() {
    let mut core = bound_core(Mode::PushToTalk);
    let _ = handle_hook_event(&mut core, &ev(F13, true));

    assert!(matches!(poll(&mut core, KEY_IS_UP), Follow::MuteChanged { .. }));
    for _ in 0..4 {
        assert!(matches!(poll(&mut core, KEY_IS_UP), Follow::Nothing));
    }
}

#[test]
fn a_late_real_key_up_after_a_forced_release_is_a_noop() {
    let mut core = bound_core(Mode::PushToTalk);
    let _ = handle_hook_event(&mut core, &ev(F13, true));
    let _ = poll(&mut core, KEY_IS_UP);

    assert!(matches!(handle_hook_event(&mut core, &ev(F13, false)), Follow::Nothing));
    assert!(core.machine.mic().is_muted().unwrap());
}

#[test]
fn the_watchdog_polls_the_bound_virtual_key() {
    let mut core = bound_core(Mode::PushToTalk);
    let _ = handle_hook_event(&mut core, &ev(F13, true));

    let seen = Cell::new(None);
    let _ = poll(&mut core, |vk| {
        seen.set(Some(vk));
        true
    });
    assert_eq!(seen.get(), Some(F13));
}

#[test]
fn the_watchdog_asks_about_no_key_where_none_is_bound() {
    let mut core = bound_core(Mode::PushToTalk);
    let _ = handle_hook_event(&mut core, &ev(F13, true));
    core.config.hotkey = None;
    let (forced, _) = watchdog_poll(&mut core, |vk| panic!("asked about {vk}"));
    assert!(forced);
}

#[test]
fn a_hotkey_press_with_no_working_mic_records_the_error_and_emits() {
    let mut core = bound_core(Mode::PushToTalk);
    core.machine = ModeMachine::new(Mic::Unavailable, Mode::PushToTalk);

    assert!(matches!(handle_hook_event(&mut core, &ev(F13, true)), Follow::Emit));
    assert_eq!(core.last_error.as_deref(), Some("no capture device available"));
}

#[test]
fn a_read_that_failed_is_shown_and_not_announced() {
    let prefs = Config::default().notifications;
    let mode = Mode::MuteToggle;
    assert_eq!(
        follow_up(Ok(false), Ok(true), mode, prefs),
        Follow::MuteChanged { mode, muted: true, prefs }
    );
    assert_eq!(follow_up(Ok(true), Ok(true), mode, prefs), Follow::Nothing);
    assert_eq!(follow_up(Err(AudioError::NoDevice), Ok(true), mode, prefs), Follow::Emit);
    assert_eq!(follow_up(Ok(true), Err(AudioError::NoDevice), mode, prefs), Follow::Emit);
}

#[test]
fn auto_repeat_is_ignored() {
    let mut core = bound_core(Mode::PushToTalk);
    let _ = handle_hook_event(&mut core, &ev(F13, true));
    for _ in 0..3 {
        assert_eq!(handle_hook_event(&mut core, &ev(F13, true)), Follow::Nothing);
    }
    assert_eq!(core.machine.mic().tap().unwrap().mute_calls, vec![true, false]);

    let mut core = bound_core(Mode::MuteToggle);
    for _ in 0..4 {
        let _ = handle_hook_event(&mut core, &ev(F13, true));
    }
    assert!(core.machine.mic().is_muted().unwrap(), "one press is one flip");
}

#[test]
fn push_to_talk_is_never_live_without_a_hold() {
    let mut core = bound_core(Mode::PushToTalk);
    let quiet = |core: &Core<FakeMic>| {
        core.machine.is_held()
            || core.machine.mode() != Mode::PushToTalk
            || core.machine.mic().is_muted().unwrap()
    };
    let _ = handle_hook_event(&mut core, &ev(F13, true));
    assert!(!core.machine.mic().is_muted().unwrap());
    core.select_device(Some("yeti".into()));
    assert!(core.machine.mic().is_muted().unwrap() && core.machine.is_held() && quiet(&core));
    let _ = handle_hook_event(&mut core, &ev(F13, false));
    assert!(quiet(&core));
    let _ = handle_hook_event(&mut core, &ev(F13, true));
    core.apply_mode(Mode::MuteToggle);
    core.toggle_mute();
    core.toggle_mute();
    assert!(!core.machine.mic().is_muted().unwrap());
    core.apply_mode(Mode::PushToTalk);
    assert!(quiet(&core));
    core.toggle_mute();
    assert!(quiet(&core));
    let _ = handle_hook_event(&mut core, &ev(F13, true));
    core.config.hotkey = None;
    let _ = poll(&mut core, KEY_IS_UP);
    assert!(quiet(&core));
}

#[test]
fn leaving_unmutes_in_either_mode_and_during_a_hold() {
    for mode in [Mode::MuteToggle, Mode::PushToTalk] {
        let mut core = bound_core(mode);
        let _ = handle_hook_event(&mut core, &ev(F13, true));
        core.machine.mic_mut().set_muted(true).unwrap();
        restore_microphone(&mut core);
        restore_microphone(&mut core);
        assert!(!core.machine.mic().is_muted().unwrap());
    }
}

#[test]
fn closing_the_last_window_does_not_exit() {
    assert!(!may_exit(None));
    assert!(may_exit(Some(0)));
}

#[test]
fn machines_rest_as_their_mode_says() {
    assert_eq!(Mode::default(), Mode::MuteToggle);
    let mut machine = ModeMachine::new(FakeMic::new(), Mode::PushToTalk);
    assert_eq!(machine.mic().mute_calls, vec![true]);
    assert!(!machine.manual_controls_enabled());
    machine.on_key(KeyEdge::Down);
    assert!(machine.is_held());
    machine.set_mode(Mode::MuteToggle);
    assert!(!machine.is_held(), "a change of the mode ends the hold");
    assert_eq!(machine.mode(), Mode::MuteToggle);
    assert!(!machine.mic().muted);
    assert!(machine.manual_controls_enabled());
    machine.toggle_manual();
    assert!(machine.mic().muted);
    machine.toggle_manual();
    assert!(!machine.mic().muted, "twice is back");
}

#[test]
fn a_failed_mute_write_does_not_derail_the_machine() {
    let mut machine = ModeMachine::new(FakeMic::new(), Mode::PushToTalk);
    machine.mic_mut().fail_next = true;
    machine.on_key(KeyEdge::Down);
    assert!(machine.is_held());
    assert!(machine.mic().muted, "the write failed");
    machine.on_key(KeyEdge::Up);
    machine.on_key(KeyEdge::Down);
    assert!(!machine.mic().muted);
}

#[test]
fn a_hold_survives_the_resting_state() {
    let mut machine = ModeMachine::new(FakeMic::new(), Mode::PushToTalk);
    machine.on_key(KeyEdge::Down);
    machine.reapply_resting_state();
    assert!(machine.mic().muted);
    assert!(machine.is_held());
}

#[test]
fn only_a_push_to_talk_hold_without_its_key_is_stuck() {
    let stuck = KeyObservation {
        mode: Mode::PushToTalk,
        held: true,
        physically_down: Some(false),
    };
    assert!(stuck.release_required());
    assert!(KeyObservation { physically_down: None, ..stuck }.release_required());
    assert!(!KeyObservation { physically_down: Some(true), ..stuck }.release_required());
    assert!(!KeyObservation { held: false, ..stuck }.release_required());
    assert!(!KeyObservation { mode: Mode::MuteToggle, ..stuck }.release_required());
}
