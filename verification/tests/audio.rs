use std::time::Duration;

use mugon::audio::endpoint::{
    device_id, friendly_name, list_devices, mta_entered, wide, worker_mta_entered, Endpoint, FoundDevice,
    RPC_E_CHANGED_MODE, S_FALSE, S_OK,
};
use mugon::audio::fake::FakeMic;
use mugon::audio::hotplug::{reaches_worker, Notification, DEVICES_CHANGED};
use mugon::audio::meter::{
    poll, tick_payload, LevelPayload, MeterHandle, Tick, LEVEL_EVENT, POLL_INTERVAL,
};
use mugon::audio::{peak_to_dbfs, AudioError, DeviceInfo, MicBackend, MicControl, DBFS_FLOOR_BITS};
use mugon::scalar::Scalar;
use mugon::span::Span;

const DBFS_FLOOR: f32 = -60.0;

fn scalar(x: f32) -> Scalar {
    Scalar::from_bits(x.to_bits())
}

fn number(s: Scalar) -> f32 {
    f32::from_bits(s.bits)
}

fn decibels(peak: f32) -> Scalar {
    scalar(20.0 * peak.log10())
}

fn dbfs(peak: f32) -> f32 {
    number(peak_to_dbfs(scalar(peak), decibels(peak)))
}

fn toggle_through_mic_control<M: MicControl>(mic: &mut M) -> Result<bool, AudioError> {
    let before = mic.is_muted()?;
    mic.set_muted(!before)?;
    mic.is_muted()
}

#[test]
fn a_mic_control_generic_resolves_for_a_send_backend() {
    let mut mic = FakeMic::new();
    assert!(toggle_through_mic_control(&mut mic).unwrap());
    assert_eq!(mic.mute_calls, vec![true], "the call reached the backend");
}

#[test]
fn silence_maps_to_floor() {
    assert_eq!(dbfs(0.0), -60.0);
    assert_eq!(dbfs(-0.5), -60.0, "negative peak must clamp, not NaN");
    assert_eq!(dbfs(-0.0), -60.0);
}

#[test]
fn full_scale_maps_to_zero() {
    assert!((dbfs(1.0) - 0.0).abs() < 1e-6);
}

#[test]
fn half_amplitude_is_about_minus_six_db() {
    assert!((dbfs(0.5) + 6.0206).abs() < 1e-3);
}

#[test]
fn very_quiet_signal_clamps_to_floor() {
    assert_eq!(dbfs(0.000_001), -60.0);
}

#[test]
fn above_full_scale_clamps_to_zero() {
    assert_eq!(dbfs(2.0), 0.0);
}

#[test]
fn a_peak_that_is_no_number_stays_so() {
    assert!(dbfs(f32::NAN).is_nan());
}

#[test]
fn a_louder_peak_reads_no_lower() {
    let peaks = [-1.0, -0.0, 0.0, 1e-40, 1e-6, 0.001, 0.1, 0.5, 0.999, 1.0, 1.5, 1e30];
    for pair in peaks.windows(2) {
        assert!(dbfs(pair[0]) <= dbfs(pair[1]), "{pair:?}");
    }
    for peak in peaks {
        assert!((-60.0..=0.0).contains(&dbfs(peak)), "{peak}");
    }
    assert_eq!(dbfs(f32::INFINITY), 0.0);
}

#[test]
fn spans_carry_nanoseconds_over() {
    for (secs, nanos) in [(0, 0), (5, 0), (1, 999_999_999), (7, 1_000_000_000), (3, u32::MAX)] {
        let span = Span::new(secs, nanos);
        let expected = Duration::new(secs, nanos);
        assert_eq!(span.as_secs(), expected.as_secs());
        assert_eq!(span.subsec_nanos(), expected.subsec_nanos());
        assert_eq!(span.show(), format!("{expected:?}"));
    }
    for millis in [0, 1, 33, 999, 1_000, 5_000, 5_001, u64::MAX] {
        let span = Span::from_millis(millis);
        let expected = Duration::from_millis(millis);
        assert_eq!((span.as_secs(), span.subsec_nanos()), (expected.as_secs(), expected.subsec_nanos()));
    }
    assert_eq!(Span::from_millis(1_000), Span::new(1, 0));
}

#[test]
fn the_floor_is_minus_sixty() {
    assert_eq!(f32::from_bits(DBFS_FLOOR_BITS), DBFS_FLOOR);
}

#[test]
fn scalars_compare_as_numbers_do() {
    let samples = [
        f32::NEG_INFINITY, f32::MIN, -1.5, -1.0, -f32::MIN_POSITIVE, -0.0, 0.0, 1e-40,
        f32::MIN_POSITIVE, 0.25, 1.0, 1.5, f32::MAX, f32::INFINITY, f32::NAN, -f32::NAN,
    ];
    for a in samples {
        for b in samples {
            assert_eq!(scalar(a).lt(scalar(b)), a < b, "{a} < {b}");
            assert_eq!(scalar(a).le(scalar(b)), a <= b, "{a} <= {b}");
            assert_eq!(scalar(a) == scalar(b), a == b, "{a} == {b}");
        }
        let unit = number(scalar(a).clamp_unit());
        let expected = a.clamp(0.0, 1.0);
        assert!(unit == expected || unit.is_nan() && expected.is_nan(), "{a} clamped");
    }
}

#[test]
fn errors_read_as_the_user_sees_them() {
    assert_eq!(AudioError::NoDevice.message(), "no capture device available");
    assert_eq!(AudioError::DeviceNotFound("x-1".into()).message(), "device x-1 not found");
    assert_eq!(AudioError::ThreadTerminated.message(), "audio thread terminated");
    assert_eq!(
        AudioError::Timeout(Span::from_millis(5_000)).message(),
        "audio thread did not respond within 5s"
    );
    assert_eq!(
        AudioError::Timeout(Span::from_millis(100)).message(),
        "audio thread did not respond within 100ms"
    );
    assert_eq!(
        AudioError::Timeout(Span::new(0, 1_500)).message(),
        "audio thread did not respond within 1.5µs"
    );
    assert_eq!(AudioError::Windows("nope".into()).message(), "windows audio error: nope");
}

#[test]
fn the_fake_microphone_keeps_what_it_is_told() {
    let mut mic = FakeMic::new();
    assert_eq!(number(mic.volume().unwrap()), 1.0);
    mic.set_volume(scalar(2.0)).unwrap();
    assert_eq!(number(mic.volume().unwrap()), 1.0, "clamped");
    mic.set_volume(scalar(-2.0)).unwrap();
    assert_eq!(number(mic.volume().unwrap()), 0.0, "clamped");
    mic.fail_next = true;
    assert!(matches!(mic.set_muted(true), Err(AudioError::NoDevice)));
    assert!(!mic.is_muted().unwrap());
    assert!(mic.mute_calls.is_empty(), "a failed write is not recorded");
    mic.set_muted(true).unwrap();
    assert_eq!(mic.mute_calls, vec![true]);
    assert_eq!(number(mic.volume().unwrap()), 0.0, "a mute write leaves the volume");
    let devices = mic.list_devices().unwrap();
    assert_eq!(devices[0].name, "Fake Microphone");
    assert!(devices[0].is_default);
}

fn notified(all: &[Notification]) -> usize {
    all.iter().filter(|n| reaches_worker(**n)).count()
}

const CAPTURE: i32 = 1;
const RENDER: i32 = 0;
const CONSOLE: i32 = 0;
const MULTIMEDIA: i32 = 1;
const COMMUNICATIONS: i32 = 2;

#[test]
fn state_add_and_remove_notifications_all_reach_the_worker() {
    let sent = [
        Notification::StateChanged,
        Notification::StateChanged,
        Notification::Added,
        Notification::Removed,
    ];
    assert_eq!(notified(&sent), 4);
    assert_eq!(DEVICES_CHANGED, "devices-changed");
}

#[test]
fn property_value_changes_never_reach_the_worker() {
    for _ in 0..1000 {
        assert!(!reaches_worker(Notification::PropertyChanged));
    }
}

#[test]
fn a_new_default_capture_device_notifies_once_for_the_console_role_only() {
    let sent = [
        Notification::DefaultChanged { flow: CAPTURE, role: CONSOLE },
        Notification::DefaultChanged { flow: CAPTURE, role: MULTIMEDIA },
        Notification::DefaultChanged { flow: CAPTURE, role: COMMUNICATIONS },
    ];
    assert_eq!(notified(&sent), 1);
}

#[test]
fn a_new_default_render_device_is_ignored() {
    let sent = [
        Notification::DefaultChanged { flow: RENDER, role: CONSOLE },
        Notification::DefaultChanged { flow: RENDER, role: MULTIMEDIA },
    ];
    assert_eq!(notified(&sent), 0);
}

#[test]
fn readings_are_equal_as_numbers_are() {
    let level = |x: f32| LevelPayload { peak_db: scalar(x) };
    assert_eq!(level(0.0), level(-0.0));
    assert_ne!(level(f32::NAN), level(f32::NAN));
    assert_ne!(level(0.0), level(-60.0));
}

#[test]
fn tick_payload_converts_peak_to_the_expected_dbfs() {
    assert_eq!(
        tick_payload(scalar(1.0), decibels(1.0)),
        LevelPayload { peak_db: scalar(0.0) }
    );
    assert_eq!(
        tick_payload(scalar(0.0), decibels(0.0)),
        LevelPayload { peak_db: scalar(DBFS_FLOOR) }
    );
}

#[test]
fn start_then_stop_terminates_the_poll_thread() {
    let mut meter: MeterHandle<&str> = MeterHandle::new();

    assert!(meter.start());
    assert_eq!(meter.spawned(Ok("thread")), None);
    assert!(meter.join.is_some(), "start must spawn the poll thread");

    assert_eq!(meter.stop(), Some("thread"));
    assert!(meter.join.is_none(), "stop must join and take the handle");
    assert!(!meter.running);
}

#[test]
fn stop_without_a_prior_start_is_a_no_op_not_a_panic() {
    let mut meter: MeterHandle<()> = MeterHandle::new();
    assert_eq!(meter.stop(), None);
    assert!(meter.join.is_none());
}

#[test]
fn start_is_idempotent_and_only_spawns_one_thread() {
    let mut meter: MeterHandle<u8> = MeterHandle::default();

    assert!(meter.start());
    meter.spawned(Ok(1));
    assert!(!meter.start(), "a second start makes no thread");
    assert!(meter.join.is_some());

    assert_eq!(meter.stop(), Some(1));
    assert!(meter.join.is_none());
}

#[test]
fn each_tick_emits_the_converted_payload() {
    let mic = FakeMic::new();
    let peak = mic.peak();
    let shown = poll(true, peak, decibels(0.0));
    assert_eq!(shown, Tick::Show(LevelPayload { peak_db: scalar(DBFS_FLOOR) }));
    assert_eq!(LEVEL_EVENT, "level");
    assert_eq!(POLL_INTERVAL, 33);
}

#[test]
fn the_poll_thread_ends_when_stopped_or_without_a_worker() {
    assert_eq!(poll(false, Ok(scalar(1.0)), decibels(1.0)), Tick::Finish);
    assert_eq!(poll(true, Err(AudioError::ThreadTerminated), scalar(0.0)), Tick::Finish);
}

#[test]
fn a_meter_whose_thread_ended_can_start_again() {
    let mut meter: MeterHandle<u8> = MeterHandle::new();
    assert!(meter.start());
    meter.spawned(Ok(1));
    meter.finished();
    assert!(meter.start());
}

#[test]
fn a_run_of_polls_shows_each_peak_and_ends_at_the_first_failure() {
    let heard = [Ok(1.0f32), Ok(0.0), Ok(2.0), Err(AudioError::ThreadTerminated), Ok(1.0)];
    let mut shown = Vec::new();
    for peak in heard {
        let level = decibels(*peak.as_ref().unwrap_or(&0.0));
        match poll(true, peak.map(scalar), level) {
            Tick::Show(payload) => shown.push(number(payload.peak_db)),
            Tick::Finish => break,
        }
    }
    assert_eq!(shown, vec![0.0, DBFS_FLOOR, 0.0]);
}

#[test]
fn a_meter_without_a_thread_does_not_run() {
    let mut meter: MeterHandle<u8> = MeterHandle::new();
    assert!(meter.start());
    let log = meter.spawned(Err("no threads left".to_string()));
    assert_eq!(log.as_deref(), Some("failed to spawn meter thread: no threads left"));
    assert!(!meter.running);
    assert!(meter.start());
}

#[test]
fn refuses_to_construct_on_a_thread_in_another_apartment() {
    let message = mta_entered(RPC_E_CHANGED_MODE, "changed mode")
        .err()
        .map(|e| e.message())
        .expect("must fail on an STA thread, not succeed");
    assert!(
        message.contains("RPC_E_CHANGED_MODE"),
        "expected an apartment-mismatch error, got: {message}"
    );
    assert_eq!(RPC_E_CHANGED_MODE as u32, 0x8001_0106);
}

#[test]
fn the_apartment_is_entered_or_the_reason_is_told() {
    assert!(mta_entered(S_OK, "").is_ok());
    assert!(mta_entered(S_FALSE, "").is_ok());
    assert_eq!(
        mta_entered(-1, "out of memory").unwrap_err().message(),
        "windows audio error: CoInitializeEx failed: out of memory"
    );
    assert!(worker_mta_entered(S_OK, "").is_ok());
    assert!(worker_mta_entered(S_FALSE, "").is_ok());
    assert_eq!(
        worker_mta_entered(RPC_E_CHANGED_MODE, "").unwrap_err().message(),
        "windows audio error: audio thread is already in a different COM apartment \
         (RPC_E_CHANGED_MODE)"
    );
    assert_eq!(
        worker_mta_entered(-1, "out of memory").unwrap_err().message(),
        "windows audio error: CoInitializeEx failed on the audio thread: out of memory"
    );
}

#[test]
fn wide_strings_are_utf16_with_a_zero() {
    for text in ["", "{0.0.1.00000000}.{6f}", "Mikrofon – größer", "🎤 mic 𐍈"] {
        let expected: Vec<u16> = text.encode_utf16().chain(std::iter::once(0)).collect();
        assert_eq!(wide(text), expected, "{text}");
    }
}

#[test]
fn a_device_without_a_name_is_listed_by_its_id() {
    assert_eq!(friendly_name(Some("Blue Yeti".to_string())).unwrap(), "Blue Yeti");
    let missing = friendly_name(None).unwrap_err().message();
    assert_eq!(missing, "windows audio error: device friendly name is missing or not a string");
    assert_eq!(friendly_name(Some(String::new())).unwrap_err().message(), missing);

    let found = vec![
        Ok(FoundDevice { id: "a".to_string(), name: friendly_name(Some("Yeti".to_string())) }),
        Ok(FoundDevice { id: "b".to_string(), name: friendly_name(None) }),
    ];
    let listed = list_devices(Some("b".to_string()), found).unwrap();
    assert_eq!(
        listed,
        vec![
            DeviceInfo { id: "a".to_string(), name: "Yeti".to_string(), is_default: false },
            DeviceInfo { id: "b".to_string(), name: "b".to_string(), is_default: true },
        ]
    );
}

#[test]
fn a_device_without_an_id_is_an_error() {
    assert_eq!(device_id(Some(Ok("yeti".to_string()))).unwrap(), "yeti");
    assert_eq!(
        device_id(None).unwrap_err().message(),
        "windows audio error: device returned a null id"
    );
    assert_eq!(
        device_id(Some(Err("bad surrogate".to_string()))).unwrap_err().message(),
        "windows audio error: bad surrogate"
    );
}

#[test]
fn the_first_device_that_fails_fails_the_list() {
    let found = vec![
        Ok(FoundDevice { id: "a".to_string(), name: Ok("A".to_string()) }),
        Err(AudioError::Windows("first".to_string())),
        Err(AudioError::Windows("second".to_string())),
    ];
    let e = list_devices(None, found).unwrap_err();
    assert_eq!(e.message(), "windows audio error: first");
    assert!(list_devices(None, Vec::new()).unwrap().is_empty());
}

#[test]
fn a_failed_selection_is_rolled_back() {
    let mut endpoint = Endpoint::new("default mic");
    assert_eq!(endpoint.selected_id, None);

    endpoint
        .select(Some("yeti"), |wanted| {
            assert_eq!(wanted, Some(wide("yeti")));
            Ok("yeti mic")
        })
        .unwrap();
    assert_eq!(endpoint.selected_id.as_deref(), Some("yeti"));
    assert_eq!(endpoint.live, "yeti mic");

    let e = endpoint.select(Some("bogus"), |_| Err(AudioError::DeviceNotFound("bogus".into())));
    assert!(matches!(e, Err(AudioError::DeviceNotFound(_))));
    assert_eq!(endpoint.selected_id.as_deref(), Some("yeti"), "the bad id is not kept");
    assert_eq!(endpoint.live, "yeti mic");

    endpoint
        .select(None, |wanted| {
            assert_eq!(wanted, None, "the system default has no id");
            Ok("default mic")
        })
        .unwrap();
    assert_eq!(endpoint.selected_id, None);
}

#[test]
fn a_failed_lookup_keeps_the_choice_and_the_device() {
    let mut endpoint = Endpoint::new(1);
    endpoint.select(Some("yeti"), |_| Ok(2)).unwrap();
    assert!(endpoint.refresh(|_| Err(AudioError::NoDevice)).is_err());
    assert_eq!((endpoint.selected_id.as_deref(), endpoint.live), (Some("yeti"), 2));
    endpoint.refresh(|wanted| Ok(wanted.map_or(0, |w| w.len()))).unwrap();
    assert_eq!(endpoint.live, 5, "asked for the chosen device again");
}
