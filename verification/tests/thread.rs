use std::cell::RefCell;
use std::time::Duration;

use mugon::audio::fake::FakeMic;
use mugon::audio::thread::{
    detach_notice, may_join, send_command, spawn_bounded, Delivery, DeviceRefresh, MeterCapture,
    Reply, Request, SpawnReport, Worker, COMMAND_TIMEOUT,
};
use mugon::audio::{AudioError, DeviceInfo, MicBackend, MicControl};
use mugon::scalar::Scalar;
use mugon::span::Span;

fn scalar(x: f32) -> Scalar {
    Scalar::from_bits(x.to_bits())
}

fn number(s: Scalar) -> f32 {
    f32::from_bits(s.bits)
}

/// A microphone that counts what the worker asks of it beyond the fake's own
/// duties, and fails when told to.
struct CountingFake {
    mic: FakeMic,
    opens: usize,
    /// Every stream that was opened or closed, in order.
    streams: Vec<&'static str>,
    fail_open: bool,
    refreshes: usize,
    fail_refresh: bool,
}

impl CountingFake {
    fn new() -> Self {
        CountingFake {
            mic: FakeMic::new(),
            opens: 0,
            streams: Vec::new(),
            fail_open: false,
            refreshes: 0,
            fail_refresh: false,
        }
    }
}

impl MicBackend for CountingFake {
    fn list_devices(&self) -> Result<Vec<DeviceInfo>, AudioError> {
        self.mic.list_devices()
    }
    fn select(&mut self, id: Option<&str>) -> Result<(), AudioError> {
        self.mic.select(id)
    }
    fn is_muted(&self) -> Result<bool, AudioError> {
        self.mic.is_muted()
    }
    fn set_muted(&mut self, muted: bool) -> Result<(), AudioError> {
        self.mic.set_muted(muted)
    }
    fn volume(&self) -> Result<Scalar, AudioError> {
        self.mic.volume()
    }
    fn set_volume(&mut self, level: Scalar) -> Result<(), AudioError> {
        self.mic.set_volume(level)
    }
    fn peak(&self) -> Result<Scalar, AudioError> {
        self.mic.peak()
    }
}

impl MeterCapture for CountingFake {
    type Stream = ();

    fn open_capture_stream(&mut self) -> Result<Option<()>, AudioError> {
        self.opens += 1;
        if self.fail_open {
            return Err(AudioError::Windows("simulated capture-stream failure".into()));
        }
        self.streams.push("open");
        Ok(Some(()))
    }

    fn close_capture_stream(&mut self, _stream: ()) {
        self.streams.push("close");
    }
}

impl DeviceRefresh for CountingFake {
    fn refresh(&mut self) -> Result<(), AudioError> {
        self.refreshes += 1;
        if self.fail_refresh {
            return Err(AudioError::DeviceNotFound("simulated missing device".into()));
        }
        Ok(())
    }
}

/// How the worker behind a [`Handle`] takes its next requests.
#[derive(Clone, Copy)]
enum Health {
    Serving,
    Gone,
    DiesMidCommand,
    Wedged,
}

/// A caller's end of a worker, without a thread between the two.
struct Handle<B: MeterCapture> {
    worker: RefCell<Worker<B, &'static str>>,
    health: Health,
    timeout: Span,
    log: RefCell<Vec<String>>,
}

impl<B: MeterCapture + DeviceRefresh> Handle<B> {
    fn spawn(backend: B) -> Self {
        Handle {
            worker: RefCell::new(Worker::new(backend)),
            health: Health::Serving,
            timeout: Span::from_millis(COMMAND_TIMEOUT),
            log: RefCell::new(Vec::new()),
        }
    }

    fn deliver(&self, request: Request) -> Delivery<Reply> {
        match self.health {
            Health::Gone => return Delivery::NotSent,
            Health::DiesMidCommand => return Delivery::Disconnected,
            Health::Wedged => return Delivery::TimedOut,
            Health::Serving => {}
        }
        let served = self.worker.borrow_mut().serve(request);
        self.log.borrow_mut().extend(served.log);
        match served.reply {
            Some(reply) => Delivery::Replied(reply),
            None => Delivery::Disconnected,
        }
    }

    fn call(&self, request: Request) -> Result<Reply, AudioError> {
        send_command(self.timeout, self.deliver(request))
    }

    fn start_metering(&self) -> Result<(), AudioError> {
        self.call(Request::StartMetering)?.into_done()
    }

    fn stop_metering(&self) -> Result<(), AudioError> {
        self.call(Request::StopMetering)?.into_done()
    }

    fn device_changed(&self) {
        let _ = self.deliver(Request::DeviceChanged);
        self.is_muted().expect("the worker must still be serving after a device change");
    }
}

impl<B: MeterCapture + DeviceRefresh> MicBackend for Handle<B> {
    fn list_devices(&self) -> Result<Vec<DeviceInfo>, AudioError> {
        self.call(Request::ListDevices)?.into_devices()
    }
    fn select(&mut self, id: Option<&str>) -> Result<(), AudioError> {
        self.call(Request::Select(id.map(str::to_owned)))?.into_done()
    }
    fn is_muted(&self) -> Result<bool, AudioError> {
        self.call(Request::IsMuted)?.into_muted()
    }
    fn set_muted(&mut self, muted: bool) -> Result<(), AudioError> {
        self.call(Request::SetMuted(muted))?.into_done()
    }
    fn volume(&self) -> Result<Scalar, AudioError> {
        self.call(Request::Volume)?.into_level()
    }
    fn set_volume(&mut self, level: Scalar) -> Result<(), AudioError> {
        self.call(Request::SetVolume(level))?.into_done()
    }
    fn peak(&self) -> Result<Scalar, AudioError> {
        self.call(Request::Peak)?.into_level()
    }
}

fn spawn_fake() -> Handle<FakeMic> {
    Handle::spawn(FakeMic::new())
}

fn spawn_counting_fake() -> Handle<CountingFake> {
    Handle::spawn(CountingFake::new())
}

fn expect_dead<T: std::fmt::Debug>(result: Result<T, AudioError>) {
    match result {
        Err(AudioError::ThreadTerminated) => {}
        other => panic!("expected a dead-worker error, got {other:?}"),
    }
}

#[test]
fn set_muted_then_is_muted_round_trips_through_the_channel() {
    let mut mic = spawn_fake();
    assert!(!mic.is_muted().unwrap(), "fake starts unmuted");
    mic.set_muted(true).unwrap();
    assert!(mic.is_muted().unwrap());
    mic.set_muted(false).unwrap();
    assert!(!mic.is_muted().unwrap());
}

#[test]
fn commands_reach_the_backend_in_the_order_they_were_issued() {
    let mut mic = spawn_fake();
    for muted in [true, true, false, true, false] {
        mic.set_muted(muted).unwrap();
    }
    assert_eq!(
        mic.worker.borrow().backend.mute_calls,
        vec![true, true, false, true, false],
        "push-to-talk correctness depends on this ordering"
    );
}

#[test]
fn backend_errors_propagate_to_the_caller_instead_of_panicking() {
    let mut mic = spawn_fake();
    mic.worker.borrow_mut().backend.fail_next = true;

    let result = mic.set_muted(true);
    assert!(matches!(result, Err(AudioError::NoDevice)), "got {result:?}");

    mic.set_muted(true).unwrap();
    assert!(mic.is_muted().unwrap());
}

#[test]
fn a_dead_worker_degrades_to_an_error_on_every_path() {
    let mut mic = spawn_fake();
    mic.health = Health::Gone;

    expect_dead(mic.list_devices());
    expect_dead(mic.is_muted());
    expect_dead(mic.volume());
    expect_dead(mic.peak());
    expect_dead(mic.select(Some("anything")));
    expect_dead(mic.set_muted(true));
    expect_dead(mic.set_volume(scalar(0.5)));
}

#[test]
fn a_worker_that_dies_mid_command_errors_the_caller_instead_of_hanging_it() {
    let mut mic = spawn_fake();
    assert!(!mic.is_muted().unwrap(), "worker must be serving before the kill");

    mic.health = Health::DiesMidCommand;
    let result = mic.set_muted(true);
    assert!(
        matches!(result, Err(AudioError::ThreadTerminated)),
        "expected a dead-worker error, got {result:?}"
    );
    mic.health = Health::Gone;
    assert!(mic.is_muted().is_err(), "later calls must keep erroring");
}

#[test]
fn spawn_reports_a_worker_that_panicked_during_construction() {
    match spawn_bounded(SpawnReport::Silent) {
        Err(AudioError::ThreadTerminated) => {}
        Err(other) => panic!("expected a dead-worker error, got {other:?}"),
        Ok(_) => panic!("spawn must not hand back a handle to a dead worker"),
    }
}

#[test]
fn command_timeout_is_five_seconds() {
    assert_eq!(Duration::from_millis(COMMAND_TIMEOUT), Duration::from_secs(5));
}

#[test]
fn a_wedged_worker_times_out_instead_of_blocking_the_caller_forever() {
    let mut mic = spawn_fake();
    mic.health = Health::Wedged;
    mic.timeout = Span::new(0, 100_000_001);
    match mic.is_muted() {
        Err(AudioError::Timeout(bound)) => assert_eq!(bound, Span::new(0, 100_000_001)),
        other => panic!("expected a timeout, got {other:?}"),
    }
}

#[test]
fn a_worker_that_does_not_stop_is_left_behind_with_a_notice() {
    assert_eq!(
        detach_notice(Span::from_millis(100)),
        "the audio worker did not shut down within 100ms; detaching it so the process can exit"
    );
}

#[test]
fn dropping_a_handle_whose_worker_already_died_does_not_panic() {
    let mic = spawn_fake();
    let served = mic.worker.borrow_mut().serve(Request::Shutdown);
    assert!(served.stop);
    assert!(served.reply.is_none(), "nobody waits for a reply");
    assert!(may_join(Delivery::Disconnected), "a thread that has ended is waited for");
    drop(mic);
}

#[test]
fn only_a_wait_that_timed_out_leaves_the_thread_behind() {
    assert!(may_join(Delivery::Replied(())));
    assert!(may_join(Delivery::Disconnected));
    assert!(may_join(Delivery::NotSent));
    assert!(!may_join(Delivery::TimedOut));
}

#[test]
fn the_old_stream_is_closed_before_the_new_one_is_opened() {
    let mut mic = spawn_counting_fake();
    mic.start_metering().unwrap();
    mic.select(Some("device-2")).unwrap();
    mic.device_changed();
    mic.stop_metering().unwrap();
    mic.stop_metering().unwrap();
    assert_eq!(
        mic.worker.borrow().backend.streams,
        vec!["open", "close", "open", "close", "open", "close"]
    );
}

#[test]
fn a_stream_that_can_not_follow_is_closed_all_the_same() {
    let mut mic = spawn_counting_fake();
    mic.start_metering().unwrap();
    mic.worker.borrow_mut().backend.fail_open = true;
    mic.select(Some("device-2")).unwrap();
    assert_eq!(mic.worker.borrow().backend.streams, vec!["open", "close"]);
    assert!(mic.worker.borrow().capture.is_none());
}

#[test]
fn a_worker_begins_with_its_microphone_or_not_at_all() {
    let (report, worker) = Worker::<FakeMic, ()>::begin(Ok(FakeMic::new()));
    assert!(report.is_ok());
    let worker = worker.expect("a worker for the microphone");
    assert!(worker.capture.is_none());
    assert!(worker.hotplug.is_none());

    let (report, worker) = Worker::<FakeMic, ()>::begin(Err(AudioError::NoDevice));
    assert!(matches!(report, Err(AudioError::NoDevice)));
    assert!(worker.is_none());
}

#[test]
fn a_session_opens_what_it_needs_and_no_more() {
    let mut mic = spawn_counting_fake();
    mic.device_changed();
    mic.select(Some("a")).unwrap();
    assert_eq!(mic.worker.borrow().backend.opens, 0);
    mic.start_metering().unwrap();
    mic.start_metering().unwrap();
    mic.select(Some("b")).unwrap();
    mic.device_changed();
    assert_eq!(mic.worker.borrow().backend.opens, 3);
    mic.worker.borrow_mut().backend.fail_refresh = true;
    mic.device_changed();
    assert_eq!(mic.worker.borrow().backend.opens, 3);
    assert!(mic.worker.borrow().capture.is_some());
    mic.stop_metering().unwrap();
    mic.select(None).unwrap();
    assert_eq!(mic.worker.borrow().backend.opens, 3);
    assert!(mic.worker.borrow().capture.is_none());
}

#[test]
fn only_a_shutdown_stops_the_worker() {
    let mic = spawn_counting_fake();
    for request in [
        Request::ListDevices,
        Request::Select(None),
        Request::IsMuted,
        Request::SetMuted(true),
        Request::Volume,
        Request::SetVolume(scalar(0.5)),
        Request::Peak,
        Request::StartMetering,
        Request::StopMetering,
        Request::DeviceChanged,
    ] {
        assert!(!mic.worker.borrow_mut().serve(request).stop);
    }
}

#[test]
fn select_marshals_both_some_and_none_across_the_boundary() {
    let mut mic = spawn_fake();

    mic.select(Some("device-2")).unwrap();
    assert_eq!(mic.worker.borrow().backend.selected, Some("device-2".to_string()));

    mic.select(None).unwrap();
    assert_eq!(mic.worker.borrow().backend.selected, None);
}

#[test]
fn list_devices_and_volume_round_trip_through_the_channel() {
    let mut mic = spawn_fake();

    let devices = mic.list_devices().unwrap();
    assert_eq!(devices.len(), 1);
    assert_eq!(devices[0].id, "fake-1");

    mic.set_volume(scalar(0.25)).unwrap();
    assert!((number(mic.volume().unwrap()) - 0.25).abs() < 1e-6);
    assert_eq!(number(mic.peak().unwrap()), 0.0);
}

#[test]
fn spawn_reports_backend_construction_failure_synchronously() {
    let result = spawn_bounded(SpawnReport::Reported(Err(AudioError::NoDevice)));
    assert!(matches!(result, Err(AudioError::NoDevice)));
    assert!(spawn_bounded(SpawnReport::Reported(Ok(()))).is_ok());
    assert_eq!(
        spawn_bounded(SpawnReport::NotSpawned("too many".into())).unwrap_err().message(),
        "windows audio error: could not spawn audio thread: too many"
    );
}

#[test]
fn a_mic_control_generic_resolves_for_the_handle() {
    fn toggle<M: MicControl>(mic: &mut M) -> Result<bool, AudioError> {
        let before = mic.is_muted()?;
        mic.set_muted(!before)?;
        mic.is_muted()
    }

    let mut mic = spawn_fake();
    assert!(toggle(&mut mic).unwrap());
    assert_eq!(mic.worker.borrow().backend.mute_calls, vec![true]);
}

#[test]
fn meter_tap_peak_returns_the_backends_value_through_the_channel() {
    let mic = spawn_fake();

    mic.worker.borrow_mut().backend.peak = scalar(0.42);
    assert!((number(mic.peak().unwrap()) - 0.42).abs() < 1e-6);

    mic.worker.borrow_mut().backend.peak = scalar(0.0);
    assert_eq!(number(mic.peak().unwrap()), 0.0);
}

#[test]
fn a_tap_on_a_dead_worker_errors_instead_of_hanging_or_panicking() {
    let mut mic = spawn_fake();
    mic.health = Health::Gone;
    expect_dead(mic.peak());
    expect_dead(mic.start_metering());
    expect_dead(mic.stop_metering());
}

#[test]
fn start_metering_twice_opens_the_capture_stream_exactly_once() {
    let mic = spawn_counting_fake();

    mic.start_metering().unwrap();
    mic.start_metering().unwrap();
    assert_eq!(mic.worker.borrow().backend.opens, 1, "second start must not reopen");
}

#[test]
fn stop_metering_twice_is_a_no_op_not_an_error() {
    let mic = spawn_counting_fake();

    mic.start_metering().unwrap();
    mic.stop_metering().unwrap();
    mic.stop_metering().unwrap();
    assert!(mic.worker.borrow().capture.is_none());
}

#[test]
fn metering_that_can_not_start_says_so() {
    let mic = spawn_counting_fake();
    mic.worker.borrow_mut().backend.fail_open = true;
    assert!(matches!(mic.start_metering(), Err(AudioError::Windows(_))));
    assert_eq!(
        *mic.log.borrow(),
        vec![
            "failed to open capture stream for metering: \
             windows audio error: simulated capture-stream failure"
        ]
    );
    assert!(mic.worker.borrow().capture.is_none());
}

#[test]
fn selecting_a_new_device_while_metering_reopens_the_capture_stream() {
    let mut mic = spawn_counting_fake();

    mic.start_metering().unwrap();
    assert_eq!(mic.worker.borrow().backend.opens, 1, "initial open");

    mic.select(Some("device-2")).unwrap();
    assert_eq!(mic.worker.borrow().backend.opens, 2, "select must reopen against the new device");

    mic.start_metering().unwrap();
    assert_eq!(mic.worker.borrow().backend.opens, 2, "already open after the reopen");
}

#[test]
fn a_failed_reopen_on_device_change_does_not_fail_select_or_kill_the_worker() {
    let mut mic = spawn_counting_fake();

    mic.start_metering().unwrap();
    mic.worker.borrow_mut().backend.fail_open = true;

    mic.select(Some("device-2")).expect("select must succeed even if the reopen fails");
    assert_eq!(mic.worker.borrow().backend.opens, 2, "a reopen must still be attempted");
    assert_eq!(
        *mic.log.borrow(),
        vec![
            "failed to reopen capture stream after device change: \
             windows audio error: simulated capture-stream failure"
        ]
    );

    assert!(!mic.is_muted().unwrap());
}

#[test]
fn selecting_a_device_without_an_active_meter_does_not_open_a_stream() {
    let mut mic = spawn_counting_fake();
    mic.select(Some("device-2")).unwrap();
    assert_eq!(mic.worker.borrow().backend.opens, 0);
}

#[test]
fn a_device_change_while_metering_refreshes_and_reopens_the_capture_stream() {
    let mic = spawn_counting_fake();

    mic.start_metering().unwrap();
    assert_eq!(mic.worker.borrow().backend.opens, 1, "initial open");

    mic.device_changed();

    assert_eq!(mic.worker.borrow().backend.refreshes, 1, "the handler must re-resolve the device");
    assert_eq!(mic.worker.borrow().backend.opens, 2, "the stream must follow the device");

    mic.start_metering().unwrap();
    assert_eq!(mic.worker.borrow().backend.opens, 2, "already open after the reopen");
}

#[test]
fn a_device_change_without_an_active_meter_refreshes_but_opens_nothing() {
    let mic = spawn_counting_fake();

    mic.device_changed();

    assert_eq!(mic.worker.borrow().backend.refreshes, 1);
    assert_eq!(mic.worker.borrow().backend.opens, 0, "a closed meter must stay closed");
}

#[test]
fn a_failed_refresh_leaves_the_selected_device_intact() {
    let mut mic = spawn_counting_fake();
    mic.select(Some("device-2")).unwrap();
    assert_eq!(mic.worker.borrow().backend.mic.selected.as_deref(), Some("device-2"));

    mic.worker.borrow_mut().backend.fail_refresh = true;
    mic.device_changed();

    assert_eq!(mic.worker.borrow().backend.refreshes, 1, "the handler must have tried");
    assert_eq!(
        mic.worker.borrow().backend.mic.selected.as_deref(),
        Some("device-2"),
        "a failed refresh must not demote the user to the system default"
    );
    assert_eq!(
        *mic.log.borrow(),
        vec![
            "could not re-resolve the device after a change: \
             device simulated missing device not found"
        ]
    );
}

#[test]
fn a_failed_refresh_does_not_disturb_a_running_capture_stream() {
    let mic = spawn_counting_fake();

    mic.start_metering().unwrap();
    mic.worker.borrow_mut().backend.fail_refresh = true;

    mic.device_changed();

    assert_eq!(
        mic.worker.borrow().backend.opens,
        1,
        "the stream must not be reopened when nothing moved"
    );
    assert!(mic.worker.borrow().capture.is_some());
}

#[test]
fn repeated_device_changes_keep_exactly_one_stream_open() {
    let mut mic = spawn_counting_fake();
    mic.start_metering().unwrap();

    for _ in 0..5 {
        mic.device_changed();
    }

    assert_eq!(mic.worker.borrow().backend.refreshes, 5);
    assert_eq!(
        mic.worker.borrow().backend.opens,
        6,
        "one initial open plus one reopen per change"
    );
    mic.start_metering().unwrap();
    assert_eq!(mic.worker.borrow().backend.opens, 6);
    assert!(!mic.is_muted().unwrap());
    mic.select(None).expect("the worker must still accept ordinary commands");
}

#[test]
fn a_device_change_sent_to_a_dead_worker_is_dropped_silently() {
    let mut mic = spawn_counting_fake();
    mic.health = Health::Gone;
    let _ = mic.deliver(Request::DeviceChanged);
    assert_eq!(mic.worker.borrow().backend.refreshes, 0);
}

#[test]
fn a_second_registration_replaces_the_first() {
    let mic = spawn_fake();
    let mut worker = mic.worker.borrow_mut();
    worker.enable_hotplug(Ok("first")).unwrap();
    worker.enable_hotplug(Ok("second")).unwrap();
    assert_eq!(worker.hotplug, Some("second"));
    assert!(worker.enable_hotplug(Err(AudioError::NoDevice)).is_err());
    assert_eq!(worker.hotplug, Some("second"), "a failed one leaves it");
}

#[test]
fn a_reply_of_another_kind_is_no_answer() {
    expect_dead(Reply::Done(Ok(())).into_devices());
    expect_dead(Reply::Muted(Ok(true)).into_done());
    expect_dead(Reply::Level(Ok(scalar(1.0))).into_muted());
    expect_dead(Reply::Devices(Ok(Vec::new())).into_level());
}
