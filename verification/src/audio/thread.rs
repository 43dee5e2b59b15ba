//! The audio worker: the one owner of a microphone that must not leave its
//! thread, and of the capture stream that keeps its level meter live.
//!
//! Requests reach the worker one at a time, from other threads that wait for the
//! reply with a bound. A worker that is gone, and one that is stuck, both turn
//! into an error for whoever waits.

use crate::audio::fake::FakeMic;
use crate::audio::{error_text, opt_text, AudioError, DeviceInfo, MicBackend};
use crate::modes::faithful;
use crate::scalar::Scalar;
use crate::span::Span;
use vstd::prelude::*;

verus! {

/// For how many milliseconds a caller waits for the worker to answer. Audio
/// calls take a few; five seconds mean that something is broken.
pub const COMMAND_TIMEOUT: u64 = 5_000;

/// The error of a worker that is gone.
fn worker_gone() -> (r: AudioError)
    ensures
        r == AudioError::ThreadTerminated,
{
    AudioError::ThreadTerminated
}

/// A microphone that can find its device again after devices have come or gone.
pub trait DeviceRefresh {
    /// What finding the device again may do and answer.
    open spec fn refreshes(&self, post: &Self, r: Result<(), AudioError>) -> bool {
        true
    }

    fn refresh(&mut self) -> (r: Result<(), AudioError>)
        ensures
            old(self).refreshes(final(self), r),
    ;
}

/// A microphone that can open a capture stream, which keeps its meter live for
/// as long as it exists.
pub trait MeterCapture: MicBackend {
    /// The stream. One that is dropped is closed by that.
    type Stream;

    /// What opening a stream may do and answer. A microphone without real audio
    /// has nothing to hold, and answers with no stream.
    open spec fn opens(&self, post: &Self, r: Result<Option<Self::Stream>, AudioError>) -> bool {
        true
    }

    fn open_capture_stream(&mut self) -> (r: Result<Option<Self::Stream>, AudioError>)
        ensures
            old(self).opens(final(self), r),
    ;

    /// What closing a stream may do.
    open spec fn closes(&self, stream: Self::Stream, post: &Self) -> bool {
        true
    }

    /// Closes a stream. It is closed when this returns.
    fn close_capture_stream(&mut self, stream: Self::Stream)
        ensures
            old(self).closes(stream, final(self)),
    ;
}

/// What can be asked of the worker.
pub enum Request {
    ListDevices,
    /// Without an id, the system default.
    Select(Option<String>),
    IsMuted,
    SetMuted(bool),
    Volume,
    SetVolume(Scalar),
    Peak,
    /// Opens the capture stream, if none is open.
    StartMetering,
    /// Closes the capture stream, if one is open.
    StopMetering,
    /// Devices have come or gone, or the default has changed. Nobody waits for a
    /// reply: this comes from a callback that must not block.
    DeviceChanged,
    Shutdown,
}

/// What the worker answers.
pub enum Reply {
    Devices(Result<Vec<DeviceInfo>, AudioError>),
    Done(Result<(), AudioError>),
    Muted(Result<bool, AudioError>),
    Level(Result<Scalar, AudioError>),
}

/// What came of one request.
pub struct Served {
    /// The answer, if anybody waits for one.
    pub reply: Option<Reply>,
    /// The line to log, if anything went wrong that nobody is told of otherwise.
    pub log: Option<String>,
    /// Whether the worker is to stop.
    pub stop: bool,
}

/// The worker. Its fields go in this order when it does: the registration for
/// device notifications first, then the capture stream, and the microphone last.
pub struct Worker<B: MeterCapture, R> {
    pub hotplug: Option<R>,
    pub capture: Option<B::Stream>,
    pub backend: B,
}

/// The line that is logged when a stream can not follow its microphone.
pub open spec fn reopen_failure_text(e: AudioError) -> Seq<char> {
    "failed to reopen capture stream after device change: "@ + error_text(e)
}

/// The line that is logged when metering can not start.
pub open spec fn metering_failure_text(e: AudioError) -> Seq<char> {
    "failed to open capture stream for metering: "@ + error_text(e)
}

/// The line that is logged when the device can not be found again.
pub open spec fn refresh_failure_text(e: AudioError) -> Seq<char> {
    "could not re-resolve the device after a change: "@ + error_text(e)
}

/// What becomes of a stream whose microphone has turned to another device: one
/// that is open is closed first, and then another is opened in its place if that
/// can be done. Where none is open, none is closed or opened.
pub open spec fn reopened<B: MeterCapture>(
    backend: B,
    capture: Option<B::Stream>,
    post_backend: B,
    post_capture: Option<B::Stream>,
    log: Option<Seq<char>>,
) -> bool {
    match capture {
        None => post_backend == backend && post_capture is None && log is None,
        Some(stream) => exists|shut: B, opened: Result<Option<B::Stream>, AudioError>|
            {
                &&& #[trigger] backend.closes(stream, &shut)
                &&& #[trigger] shut.opens(&post_backend, opened)
                &&& reopened_as::<B>(opened, post_capture, log)
            },
    }
}

/// What an attempt to open a stream in place of another leaves.
pub open spec fn reopened_as<B: MeterCapture>(
    opened: Result<Option<B::Stream>, AudioError>,
    capture: Option<B::Stream>,
    log: Option<Seq<char>>,
) -> bool {
    match opened {
        Ok(stream) => capture == stream && log is None,
        Err(e) => capture is None && log == Some(reopen_failure_text(e)),
    }
}

/// Makes an open stream follow its microphone to another device. The old stream
/// is closed before the new one is opened, so that two devices are never held at
/// once. Gives the line to log, if there is one.
pub fn reopen_capture<B: MeterCapture>(backend: &mut B, capture: &mut Option<B::Stream>) -> (r:
    Option<String>)
    ensures
        reopened(*old(backend), *old(capture), *final(backend), *final(capture), opt_text(r)),
{
    match capture.take() {
        None => {
            return None;
        },
        Some(stream) => {
            backend.close_capture_stream(stream);
        },
    }
    let ghost shut = *backend;
    let opened = backend.open_capture_stream();
    let ghost outcome = opened;
    let log = match opened {
        Ok(stream) => {
            *capture = stream;
            None
        },
        Err(e) => Some(
            "failed to reopen capture stream after device change: ".to_owned().concat(
                e.message().as_str(),
            ),
        ),
    };
    assert(old(backend).closes(old(capture)->0, &shut));
    assert(shut.opens(backend, outcome));
    assert(reopened_as::<B>(outcome, *capture, opt_text(log)));
    log
}

impl<B: MeterCapture + DeviceRefresh, R> Worker<B, R> {
    /// What selecting a device makes of the worker: a stream that is open
    /// follows the microphone, if it moved.
    pub open spec fn selects_to(
        self,
        mid: B,
        r: Result<(), AudioError>,
        post: Self,
        log: Option<Seq<char>>,
    ) -> bool {
        match r {
            Ok(_) => reopened(mid, self.capture, post.backend, post.capture, log),
            Err(_) => post.backend == mid && post.capture == self.capture && log is None,
        }
    }

    /// What news of the devices makes of the worker: a stream that is open
    /// follows the microphone, unless that could not find its device again.
    pub open spec fn refreshes_to(
        self,
        mid: B,
        r: Result<(), AudioError>,
        post: Self,
        log: Option<Seq<char>>,
    ) -> bool {
        match r {
            Ok(_) => reopened(mid, self.capture, post.backend, post.capture, log),
            Err(e) => {
                &&& post.backend == mid
                &&& post.capture == self.capture
                &&& log == Some(refresh_failure_text(e))
            },
        }
    }

    /// What starting to meter makes of a worker that has no stream, and what it
    /// answers.
    pub open spec fn metering_starts(
        self,
        opened: Result<Option<B::Stream>, AudioError>,
        r: Result<(), AudioError>,
        log: Option<Seq<char>>,
    ) -> bool {
        match opened {
            Ok(stream) => self.capture == stream && r is Ok && log is None,
            Err(e) => {
                &&& self.capture is None
                &&& r == Err::<(), AudioError>(e)
                &&& log == Some(metering_failure_text(e))
            },
        }
    }

    /// What a request may make of the worker, and what it may answer and log.
    pub open spec fn serves(
        self,
        request: Request,
        post: Self,
        reply: Option<Reply>,
        log: Option<Seq<char>>,
    ) -> bool {
        &&& post.hotplug == self.hotplug
        &&& match request {
            Request::ListDevices => {
                &&& reply matches Some(Reply::Devices(r))
                &&& self.backend.lists(r)
                &&& post == self
                &&& log is None
            },
            Request::Select(id) => {
                &&& reply matches Some(Reply::Done(r))
                &&& exists|mid: B| #[trigger]
                    self.backend.selects(opt_text(id), &mid, r) && self.selects_to(mid, r, post, log)
            },
            Request::IsMuted => {
                &&& reply matches Some(Reply::Muted(r))
                &&& self.backend.reads_muted(r)
                &&& post == self
                &&& log is None
            },
            Request::SetMuted(muted) => {
                &&& reply matches Some(Reply::Done(r))
                &&& self.backend.writes_muted(muted, &post.backend, r)
                &&& post.capture == self.capture
                &&& log is None
            },
            Request::Volume => {
                &&& reply matches Some(Reply::Level(r))
                &&& self.backend.reads_volume(r)
                &&& post == self
                &&& log is None
            },
            Request::SetVolume(level) => {
                &&& reply matches Some(Reply::Done(r))
                &&& self.backend.writes_volume(level, &post.backend, r)
                &&& post.capture == self.capture
                &&& log is None
            },
            Request::Peak => {
                &&& reply matches Some(Reply::Level(r))
                &&& self.backend.reads_peak(r)
                &&& post == self
                &&& log is None
            },
            Request::StartMetering => {
                &&& reply matches Some(Reply::Done(r))
                &&& if self.capture is Some {
                    post == self && r is Ok && log is None
                } else {
                    exists|opened: Result<Option<B::Stream>, AudioError>| #[trigger]
                        self.backend.opens(&post.backend, opened) && post.metering_starts(
                            opened,
                            r,
                            log,
                        )
                }
            },
            Request::StopMetering => {
                &&& reply matches Some(Reply::Done(r))
                &&& r is Ok
                &&& match self.capture {
                    Some(stream) => self.backend.closes(stream, &post.backend),
                    None => post.backend == self.backend,
                }
                &&& post.capture is None
                &&& log is None
            },
            Request::DeviceChanged => {
                &&& reply is None
                &&& exists|mid: B, r: Result<(), AudioError>| #[trigger]
                    self.backend.refreshes(&mid, r) && self.refreshes_to(mid, r, post, log)
            },
            Request::Shutdown => post == self && reply is None && log is None,
        }
    }

    /// What taking a registration for device notifications makes of the worker,
    /// and what it answers.
    pub open spec fn registers(
        self,
        made: Result<R, AudioError>,
        post: Self,
        r: Result<(), AudioError>,
    ) -> bool {
        &&& post.backend == self.backend
        &&& post.capture == self.capture
        &&& match made {
            Ok(registration) => r is Ok && post.hotplug == Some(registration),
            Err(e) => r == Err::<(), AudioError>(e) && post.hotplug == self.hotplug,
        }
    }

    /// A worker for a microphone, without a stream.
    pub fn new(backend: B) -> (r: Self)
        ensures
            r.backend == backend,
            r.capture is None,
            r.hotplug is None,
    {
        Worker { hotplug: None, capture: None, backend }
    }

    /// Whether the worker has just been made for a microphone.
    pub open spec fn is_fresh(self, backend: B) -> bool {
        self.backend == backend && self.capture is None && self.hotplug is None
    }

    /// What is reported of the microphone that was made or was not, and the worker
    /// for it.
    pub open spec fn begins(
        made: Result<B, AudioError>,
        report: Result<(), AudioError>,
        worker: Option<Self>,
    ) -> bool {
        match made {
            Ok(backend) => {
                &&& report is Ok
                &&& worker matches Some(worker)
                &&& worker.is_fresh(backend)
            },
            Err(e) => report == Err::<(), AudioError>(e) && worker is None,
        }
    }

    /// What is reported of the microphone that was made or was not, and the
    /// worker for it. Without a microphone there is no worker, and nothing is
    /// ever served.
    pub fn begin(made: Result<B, AudioError>) -> (r: (Result<(), AudioError>, Option<Self>))
        ensures
            Self::begins(made, r.0, r.1),
            match made {
                Ok(backend) => {
                    &&& r.0 is Ok
                    &&& r.1 matches Some(worker)
                    &&& worker.is_fresh(backend)
                },
                Err(e) => r.0 == Err::<(), AudioError>(e) && r.1 is None,
            },
    {
        match made {
            Ok(backend) => (Ok(()), Some(Worker::new(backend))),
            Err(e) => (Err(e), None),
        }
    }

    fn start_metering(&mut self) -> (r: (Result<(), AudioError>, Option<String>))
        requires
            old(self).capture is None,
        ensures
            final(self).hotplug == old(self).hotplug,
            exists|opened: Result<Option<B::Stream>, AudioError>| #[trigger]
                old(self).backend.opens(&final(self).backend, opened)
                    && final(self).metering_starts(opened, r.0, opt_text(r.1)),
    {
        let opened = self.backend.open_capture_stream();
        let ghost outcome = opened;
        let r: (Result<(), AudioError>, Option<String>) = match opened {
            Ok(stream) => {
                self.capture = stream;
                (Ok(()), None)
            },
            Err(e) => {
                let log = "failed to open capture stream for metering: ".to_owned().concat(
                    e.message().as_str(),
                );
                (Err(e), Some(log))
            },
        };
        assert(old(self).backend.opens(&self.backend, outcome));
        assert(self.metering_starts(outcome, r.0, opt_text(r.1)));
        r
    }

    fn device_changed(&mut self) -> (r: Option<String>)
        ensures
            final(self).hotplug == old(self).hotplug,
            exists|mid: B, outcome: Result<(), AudioError>| #[trigger]
                old(self).backend.refreshes(&mid, outcome) && old(self).refreshes_to(
                    mid,
                    outcome,
                    *final(self),
                    opt_text(r),
                ),
    {
        let refreshed = self.backend.refresh();
        let ghost outcome = refreshed;
        let ghost mid = self.backend;
        let log = match refreshed {
            Ok(_) => reopen_capture(&mut self.backend, &mut self.capture),
            Err(e) => Some(
                "could not re-resolve the device after a change: ".to_owned().concat(
                    e.message().as_str(),
                ),
            ),
        };
        assert(old(self).backend.refreshes(&mid, outcome));
        assert(old(self).refreshes_to(mid, outcome, *self, opt_text(log)));
        log
    }

    fn select(&mut self, id: Option<String>) -> (r: (Result<(), AudioError>, Option<String>))
        ensures
            final(self).hotplug == old(self).hotplug,
            exists|mid: B| #[trigger]
                old(self).backend.selects(opt_text(id), &mid, r.0) && old(self).selects_to(
                    mid,
                    r.0,
                    *final(self),
                    opt_text(r.1),
                ),
    {
        let wanted = match &id {
            Some(id) => Some(id.as_str()),
            None => None,
        };
        let result = self.backend.select(wanted);
        let ghost mid = self.backend;
        let log = if result.is_ok() {
            reopen_capture(&mut self.backend, &mut self.capture)
        } else {
            None
        };
        let r: (Result<(), AudioError>, Option<String>) = (result, log);
        assert(old(self).backend.selects(opt_text(id), &mid, r.0));
        assert(old(self).selects_to(mid, r.0, *self, opt_text(r.1)));
        r
    }

    /// Serves one request.
    pub fn serve(&mut self, request: Request) -> (r: Served)
        ensures
            old(self).serves(request, *final(self), r.reply, opt_text(r.log)),
            r.stop == (request is Shutdown),
    {
        match request {
            Request::ListDevices => {
                let result = self.backend.list_devices();
                Served { reply: Some(Reply::Devices(result)), log: None, stop: false }
            },
            Request::Select(id) => {
                let (result, log) = self.select(id);
                Served { reply: Some(Reply::Done(result)), log, stop: false }
            },
            Request::IsMuted => {
                let result = self.backend.is_muted();
                Served { reply: Some(Reply::Muted(result)), log: None, stop: false }
            },
            Request::SetMuted(muted) => {
                let result = self.backend.set_muted(muted);
                Served { reply: Some(Reply::Done(result)), log: None, stop: false }
            },
            Request::Volume => {
                let result = self.backend.volume();
                Served { reply: Some(Reply::Level(result)), log: None, stop: false }
            },
            Request::SetVolume(level) => {
                let result = self.backend.set_volume(level);
                Served { reply: Some(Reply::Done(result)), log: None, stop: false }
            },
            Request::Peak => {
                let result = self.backend.peak();
                Served { reply: Some(Reply::Level(result)), log: None, stop: false }
            },
            Request::StartMetering => {
                if self.capture.is_some() {
                    return Served { reply: Some(Reply::Done(Ok(()))), log: None, stop: false };
                }
                let (result, log) = self.start_metering();
                Served { reply: Some(Reply::Done(result)), log, stop: false }
            },
            Request::StopMetering => {
                match self.capture.take() {
                    Some(stream) => self.backend.close_capture_stream(stream),
                    None => {},
                }
                Served { reply: Some(Reply::Done(Ok(()))), log: None, stop: false }
            },
            Request::DeviceChanged => {
                let log = self.device_changed();
                Served { reply: None, log, stop: false }
            },
            Request::Shutdown => Served { reply: None, log: None, stop: true },
        }
    }

    /// Takes the registration for device notifications that was made, if it was.
    /// One that the worker had already is given up for it.
    pub fn enable_hotplug(&mut self, made: Result<R, AudioError>) -> (r: Result<(), AudioError>)
        ensures
            old(self).registers(made, *final(self), r),
    {
        match made {
            Ok(registration) => {
                self.hotplug = Some(registration);
                Ok(())
            },
            Err(e) => Err(e),
        }
    }
}

/// What came of a request that was sent to the worker.
pub enum Delivery<T> {
    /// The worker takes no more requests.
    NotSent,
    Replied(T),
    /// The worker has the request and has not answered within the bound.
    TimedOut,
    /// The worker ended without answering.
    Disconnected,
}

/// What a request comes to for the caller, who waited `timeout` at most.
pub open spec fn delivered<T>(timeout: Span, delivery: Delivery<T>) -> Result<T, AudioError> {
    match delivery {
        Delivery::Replied(reply) => Ok(reply),
        Delivery::TimedOut => Err(AudioError::Timeout(timeout)),
        Delivery::NotSent | Delivery::Disconnected => Err(AudioError::ThreadTerminated),
    }
}

/// The reply to a request, for which the caller waited `timeout` at most. A worker that is gone and one that is stuck are two different errors.
pub fn send_command<T>(timeout: Span, delivery: Delivery<T>) -> (r: Result<T, AudioError>)
    ensures
        r == delivered(timeout, delivery),
        match delivery {
            Delivery::Replied(reply) => r == Ok::<T, AudioError>(reply),
            Delivery::TimedOut => r == Err::<T, AudioError>(AudioError::Timeout(timeout)),
            Delivery::NotSent | Delivery::Disconnected => r == Err::<T, AudioError>(
                AudioError::ThreadTerminated,
            ),
        },
{
    match delivery {
        Delivery::Replied(reply) => Ok(reply),
        Delivery::TimedOut => Err(AudioError::Timeout(timeout)),
        Delivery::NotSent | Delivery::Disconnected => Err(worker_gone()),
    }
}

impl Reply {
    /// The devices of a reply; one of another kind is no answer.
    pub open spec fn as_devices(self) -> Result<Vec<DeviceInfo>, AudioError> {
        match self {
            Reply::Devices(r) => r,
            _ => Err(AudioError::ThreadTerminated),
        }
    }

    /// Whether the request of a reply was carried out; one of another kind is no
    /// answer.
    pub open spec fn as_done(self) -> Result<(), AudioError> {
        match self {
            Reply::Done(r) => r,
            _ => Err(AudioError::ThreadTerminated),
        }
    }

    /// The mute state of a reply; one of another kind is no answer.
    pub open spec fn as_muted(self) -> Result<bool, AudioError> {
        match self {
            Reply::Muted(r) => r,
            _ => Err(AudioError::ThreadTerminated),
        }
    }

    /// The volume or the peak of a reply; one of another kind is no answer.
    pub open spec fn as_level(self) -> Result<Scalar, AudioError> {
        match self {
            Reply::Level(r) => r,
            _ => Err(AudioError::ThreadTerminated),
        }
    }

    /// The devices of a reply. A reply of another kind is no answer.
    pub fn into_devices(self) -> (r: Result<Vec<DeviceInfo>, AudioError>)
        ensures
            r == self.as_devices(),
            r == match self {
                Reply::Devices(r) => r,
                _ => Err(AudioError::ThreadTerminated),
            },
    {
        match self {
            Reply::Devices(r) => r,
            _ => Err(worker_gone()),
        }
    }

    /// Whether the request of a reply was carried out. A reply of another kind is
    /// no answer.
    pub fn into_done(self) -> (r: Result<(), AudioError>)
        ensures
            r == self.as_done(),
            r == match self {
                Reply::Done(r) => r,
                _ => Err(AudioError::ThreadTerminated),
            },
    {
        match self {
            Reply::Done(r) => r,
            _ => Err(worker_gone()),
        }
    }

    /// The mute state of a reply. A reply of another kind is no answer.
    pub fn into_muted(self) -> (r: Result<bool, AudioError>)
        ensures
            r == self.as_muted(),
            r == match self {
                Reply::Muted(r) => r,
                _ => Err(AudioError::ThreadTerminated),
            },
    {
        match self {
            Reply::Muted(r) => r,
            _ => Err(worker_gone()),
        }
    }

    /// The volume or the peak of a reply. A reply of another kind is no answer.
    pub fn into_level(self) -> (r: Result<Scalar, AudioError>)
        ensures
            r == self.as_level(),
            r == match self {
                Reply::Level(r) => r,
                _ => Err(AudioError::ThreadTerminated),
            },
    {
        match self {
            Reply::Level(r) => r,
            _ => Err(worker_gone()),
        }
    }
}

/// Whether a worker that was told to stop, and waited for with the outcome `wait`,
/// is at its end.
pub open spec fn ends_soon(wait: Delivery<()>) -> bool {
    !(wait is TimedOut)
}

/// Whether the worker's thread may be waited for, once the wait for its end is
/// over: only a wait that timed out means that it is stuck, and must be left
/// behind.
pub fn may_join(wait: Delivery<()>) -> (r: bool)
    ensures
        r == ends_soon(wait),
        r == !(wait is TimedOut),
{
    !matches!(wait, Delivery::TimedOut)
}

/// What became of the worker's thread when it was started.
pub enum SpawnReport {
    /// The thread could not be made; why not.
    NotSpawned(String),
    /// The worker has made its microphone, or says why it could not.
    Reported(Result<(), AudioError>),
    /// The thread ended without a word.
    Silent,
}

/// What a report of the worker's thread comes to.
pub open spec fn is_up(report: SpawnReport, r: Result<(), AudioError>) -> bool {
    match report {
        SpawnReport::NotSpawned(reason) => r matches Err(AudioError::Windows(message)) && message@
            == "could not spawn audio thread: "@ + reason@,
        SpawnReport::Reported(result) => r == result,
        SpawnReport::Silent => r == Err::<(), AudioError>(AudioError::ThreadTerminated),
    }
}

/// Whether the worker is up: it is once it has reported that its microphone is
/// made, so that a machine without one fails at the start.
pub fn spawn_bounded(report: SpawnReport) -> (r: Result<(), AudioError>)
    ensures
        is_up(report, r),
        match report {
            SpawnReport::NotSpawned(reason) => r matches Err(AudioError::Windows(message))
                && message@ == "could not spawn audio thread: "@ + reason@,
            SpawnReport::Reported(result) => r == result,
            SpawnReport::Silent => r == Err::<(), AudioError>(AudioError::ThreadTerminated),
        },
{
    match report {
        SpawnReport::NotSpawned(reason) => Err(
            AudioError::Windows(
                "could not spawn audio thread: ".to_owned().concat(reason.as_str()),
            ),
        ),
        SpawnReport::Reported(result) => result,
        SpawnReport::Silent => Err(worker_gone()),
    }
}

/// The line to log when the worker did not stop within `timeout` and its thread
/// is left behind: a thread left behind in a process that goes
/// down beats a process that does not.
pub fn detach_notice(timeout: Span) -> (r: String)
    ensures
        r@ == "the audio worker did not shut down within "@ + timeout.text()
            + "; detaching it so the process can exit"@,
{
    "the audio worker did not shut down within ".to_owned().concat(
        timeout.show().as_str(),
    ).concat("; detaching it so the process can exit")
}

/// What reaches the worker's thread.
pub ghost enum Command<R> {
    Serve(Request),
    /// The registration for device notifications that was made, or why it was
    /// not.
    EnableHotplug(Result<R, AudioError>),
}

/// What came of a command: its reply, if somebody waits for one, and the line
/// that was logged, if one was.
pub ghost struct Outcome {
    pub reply: Option<Reply>,
    pub log: Option<Seq<char>>,
}

/// Whether a command stops the worker.
pub open spec fn stops<R>(command: Command<R>) -> bool {
    command matches Command::Serve(Request::Shutdown)
}

/// Whether a worker may become `post` by a command, with that outcome.
pub open spec fn obeys<B: MeterCapture + DeviceRefresh, R>(
    worker: Worker<B, R>,
    command: Command<R>,
    post: Worker<B, R>,
    outcome: Outcome,
) -> bool {
    match command {
        Command::Serve(request) => worker.serves(request, post, outcome.reply, outcome.log),
        Command::EnableHotplug(made) => {
            &&& outcome.reply matches Some(Reply::Done(r))
            &&& worker.registers(made, post, r)
            &&& outcome.log is None
        },
    }
}

/// A whole run of the worker's thread: what is reported of the microphone that
/// was made or was not, the workers one after the other, and what came of the
/// commands. They are served one by one, as they come, until one of them stops
/// the worker or no more come.
pub open spec fn is_session<B: MeterCapture + DeviceRefresh, R>(
    made: Result<B, AudioError>,
    report: Result<(), AudioError>,
    workers: Seq<Worker<B, R>>,
    commands: Seq<Command<R>>,
    outcomes: Seq<Outcome>,
) -> bool {
    match made {
        Err(e) => {
            &&& report == Err::<(), AudioError>(e)
            &&& workers.len() == 0
            &&& outcomes.len() == 0
        },
        Ok(backend) => {
            &&& report is Ok
            &&& workers.len() == outcomes.len() + 1
            &&& workers[0].is_fresh(backend)
            &&& outcomes.len() <= commands.len()
            &&& forall|i: int|
                0 <= i < outcomes.len() ==> obeys(
                    workers[i],
                    commands[i],
                    workers[i + 1],
                    #[trigger] outcomes[i],
                )
            &&& forall|i: int| 0 <= i < outcomes.len() - 1 ==> !stops(#[trigger] commands[i])
            &&& outcomes.len() < commands.len() ==> outcomes.len() > 0 && stops(
                commands[outcomes.len() - 1],
            )
        },
    }
}

/// Whether the reply to a command is of the command's own kind; none, where
/// nobody waits for one.
pub open spec fn fits<R>(command: Command<R>, reply: Option<Reply>) -> bool {
    match command {
        Command::Serve(Request::ListDevices) => reply matches Some(Reply::Devices(_)),
        Command::Serve(Request::IsMuted) => reply matches Some(Reply::Muted(_)),
        Command::Serve(Request::Volume) | Command::Serve(Request::Peak) => reply matches Some(
            Reply::Level(_),
        ),
        Command::Serve(Request::DeviceChanged) | Command::Serve(Request::Shutdown) => reply is None,
        _ => reply matches Some(Reply::Done(_)),
    }
}

/// Whether the last word on metering among the first `n` commands was to start
/// it.
pub open spec fn metering<R>(commands: Seq<Command<R>>, n: int) -> bool
    decreases n,
{
    if n <= 0 {
        false
    } else {
        match commands[n - 1] {
            Command::Serve(Request::StartMetering) => true,
            Command::Serve(Request::StopMetering) => false,
            _ => metering(commands, n - 1),
        }
    }
}

/// How many streams are opened for the first `n` commands: one for a start of
/// metering without a stream, and one for each move of the microphone that an
/// open stream follows. A selection or a lookup that failed is no move.
pub open spec fn openings<R>(commands: Seq<Command<R>>, outcomes: Seq<Outcome>, n: int) -> nat
    decreases n,
{
    if n <= 0 {
        0
    } else {
        let before = openings(commands, outcomes, n - 1);
        let open = metering(commands, n - 1);
        let opens = match commands[n - 1] {
            Command::Serve(Request::StartMetering) => !open,
            Command::Serve(Request::Select(_)) => open && (outcomes[n - 1].reply matches Some(
                Reply::Done(r),
            ) && r is Ok),
            Command::Serve(Request::DeviceChanged) => open && outcomes[n - 1].log is None,
            _ => false,
        };
        if opens {
            before + 1
        } else {
            before
        }
    }
}

/// Microphones on which a stream can always be opened.
pub open spec fn always_opens<B: MeterCapture>() -> bool {
    forall|pre: B, post: B, r: Result<Option<B::Stream>, AudioError>| #[trigger]
        pre.opens(&post, r) ==> r matches Ok(Some(_))
}

/// Microphones of which `count` says how many streams have been opened.
pub open spec fn counts_openings<B: MeterCapture + DeviceRefresh>(
    count: spec_fn(B) -> nat,
) -> bool {
    &&& forall|pre: B, post: B, r: Result<Option<B::Stream>, AudioError>| #[trigger]
        pre.opens(&post, r) ==> count(post) == count(pre) + 1
    &&& forall|pre: B, stream: B::Stream, post: B| #[trigger]
        pre.closes(stream, &post) ==> count(post) == count(pre)
    &&& forall|pre: B, post: B, r: Result<(), AudioError>| #[trigger]
        pre.refreshes(&post, r) ==> count(post) == count(pre)
    &&& forall|pre: B, id: Option<Seq<char>>, post: B, r: Result<(), AudioError>| #[trigger]
        pre.selects(id, &post, r) ==> count(post) == count(pre)
    &&& forall|pre: B, muted: bool, post: B, r: Result<(), AudioError>| #[trigger]
        pre.writes_muted(muted, &post, r) ==> count(post) == count(pre)
    &&& forall|pre: B, level: Scalar, post: B, r: Result<(), AudioError>| #[trigger]
        pre.writes_volume(level, &post, r) ==> count(post) == count(pre)
}

/// Microphones of which `held` says how many streams are open on them.
pub open spec fn counts_open_streams<B: MeterCapture + DeviceRefresh>(
    held: spec_fn(B) -> int,
) -> bool {
    &&& forall|pre: B, post: B, r: Result<Option<B::Stream>, AudioError>| #[trigger]
        pre.opens(&post, r) ==> held(post) == held(pre) + if r matches Ok(Some(_)) {
            1int
        } else {
            0int
        }
    &&& forall|pre: B, stream: B::Stream, post: B| #[trigger]
        pre.closes(stream, &post) ==> held(post) == held(pre) - 1
    &&& forall|pre: B, post: B, r: Result<(), AudioError>| #[trigger]
        pre.refreshes(&post, r) ==> held(post) == held(pre)
    &&& forall|pre: B, id: Option<Seq<char>>, post: B, r: Result<(), AudioError>| #[trigger]
        pre.selects(id, &post, r) ==> held(post) == held(pre)
    &&& forall|pre: B, muted: bool, post: B, r: Result<(), AudioError>| #[trigger]
        pre.writes_muted(muted, &post, r) ==> held(post) == held(pre)
    &&& forall|pre: B, level: Scalar, post: B, r: Result<(), AudioError>| #[trigger]
        pre.writes_volume(level, &post, r) ==> held(post) == held(pre)
}

/// While a stream follows its microphone, there is a moment at which none is
/// open: two devices are never held at once.
pub proof fn two_streams_are_never_open<B: MeterCapture + DeviceRefresh>(
    backend: B,
    stream: B::Stream,
    post_backend: B,
    post_capture: Option<B::Stream>,
    log: Option<Seq<char>>,
    held: spec_fn(B) -> int,
)
    requires
        counts_open_streams(held),
        held(backend) == 1,
        reopened(backend, Some(stream), post_backend, post_capture, log),
    ensures
        exists|shut: B, opened: Result<Option<B::Stream>, AudioError>|
            {
                &&& #[trigger] backend.closes(stream, &shut)
                &&& held(shut) == 0
                &&& #[trigger] shut.opens(&post_backend, opened)
            },
        held(post_backend) == if post_capture is Some {
            1int
        } else {
            0int
        },
{
    let (shut, opened) = choose|shut: B, opened: Result<Option<B::Stream>, AudioError>|
        {
            &&& #[trigger] backend.closes(stream, &shut)
            &&& #[trigger] shut.opens(&post_backend, opened)
            &&& reopened_as::<B>(opened, post_capture, log)
        };
    assert(backend.closes(stream, &shut) && shut.opens(&post_backend, opened));
}

/// A microphone that could not be made is reported, and nothing is served.
pub proof fn without_a_microphone_nothing_is_served<B: MeterCapture + DeviceRefresh, R>(
    e: AudioError,
    report: Result<(), AudioError>,
    workers: Seq<Worker<B, R>>,
    commands: Seq<Command<R>>,
    outcomes: Seq<Outcome>,
)
    requires
        is_session(Err(e), report, workers, commands, outcomes),
    ensures
        report == Err::<(), AudioError>(e),
        outcomes.len() == 0,
{
}

/// Over a whole run, commands are served in order and each has one outcome, with
/// a reply of its own kind; none is left out but those behind a shutdown.
pub proof fn each_command_is_answered_once<B: MeterCapture + DeviceRefresh, R>(
    backend: B,
    report: Result<(), AudioError>,
    workers: Seq<Worker<B, R>>,
    commands: Seq<Command<R>>,
    outcomes: Seq<Outcome>,
    i: int,
)
    requires
        is_session(Ok(backend), report, workers, commands, outcomes),
        0 <= i < commands.len(),
        forall|j: int| 0 <= j < i ==> !stops(#[trigger] commands[j]),
    ensures
        report is Ok,
        i < outcomes.len(),
        obeys(workers[i], commands[i], workers[i + 1], outcomes[i]),
        fits(commands[i], outcomes[i].reply),
        stops(commands[i]) ==> outcomes.len() == i + 1,
{
}

/// Over a whole run, a stream is open only between a start of metering and the
/// next stop of it; and always then, on a microphone on which one can be opened.
pub proof fn a_stream_is_open_while_metering<B: MeterCapture + DeviceRefresh, R>(
    backend: B,
    report: Result<(), AudioError>,
    workers: Seq<Worker<B, R>>,
    commands: Seq<Command<R>>,
    outcomes: Seq<Outcome>,
    n: int,
)
    requires
        is_session(Ok(backend), report, workers, commands, outcomes),
        0 <= n < workers.len(),
    ensures
        workers[n].capture is Some ==> metering(commands, n),
        always_opens::<B>() ==> workers[n].capture is Some == metering(commands, n),
    decreases n,
{
    if n > 0 {
        a_stream_is_open_while_metering(backend, report, workers, commands, outcomes, n - 1);
        assert(obeys(workers[n - 1], commands[n - 1], workers[n - 1 + 1], outcomes[n - 1]));
    }
}

/// Over a whole run, the stream that the worker has is the only one that is open
/// on its microphone: none is left open behind its back.
pub proof fn no_stream_is_left_open<B: MeterCapture + DeviceRefresh, R>(
    backend: B,
    report: Result<(), AudioError>,
    workers: Seq<Worker<B, R>>,
    commands: Seq<Command<R>>,
    outcomes: Seq<Outcome>,
    held: spec_fn(B) -> int,
    n: int,
)
    requires
        is_session(Ok(backend), report, workers, commands, outcomes),
        counts_open_streams(held),
        held(backend) == 0,
        0 <= n < workers.len(),
    ensures
        held(workers[n].backend) == if workers[n].capture is Some {
            1int
        } else {
            0int
        },
    decreases n,
{
    if n > 0 {
        no_stream_is_left_open(backend, report, workers, commands, outcomes, held, n - 1);
        assert(obeys(workers[n - 1], commands[n - 1], workers[n - 1 + 1], outcomes[n - 1]));
    }
}

/// Over a whole run, no stream is opened but those that are needed: one when
/// metering starts, and one each time the microphone moves while it goes on.
pub proof fn no_stream_is_opened_needlessly<B: MeterCapture + DeviceRefresh, R>(
    backend: B,
    report: Result<(), AudioError>,
    workers: Seq<Worker<B, R>>,
    commands: Seq<Command<R>>,
    outcomes: Seq<Outcome>,
    count: spec_fn(B) -> nat,
    n: int,
)
    requires
        is_session(Ok(backend), report, workers, commands, outcomes),
        always_opens::<B>(),
        counts_openings(count),
        0 <= n < workers.len(),
    ensures
        count(workers[n].backend) == count(backend) + openings(commands, outcomes, n),
    decreases n,
{
    if n > 0 {
        no_stream_is_opened_needlessly(
            backend,
            report,
            workers,
            commands,
            outcomes,
            count,
            n - 1,
        );
        a_stream_is_open_while_metering(backend, report, workers, commands, outcomes, n - 1);
        assert(obeys(workers[n - 1], commands[n - 1], workers[n - 1 + 1], outcomes[n - 1]));
    }
}

/// What was written is what is read: a mute state that was asked for right after
/// it was set is the one that was set, on a microphone that does as it is told.
pub proof fn a_mute_write_is_read_back<B: MeterCapture + DeviceRefresh, R>(
    worker: Worker<B, R>,
    muted: bool,
    mid: Worker<B, R>,
    done: Option<Reply>,
    post: Worker<B, R>,
    reply: Option<Reply>,
    log: Option<Seq<char>>,
    good: spec_fn(B) -> bool,
    state: spec_fn(B) -> bool,
)
    requires
        faithful(good, state),
        good(worker.backend),
        worker.serves(Request::SetMuted(muted), mid, done, log),
        mid.serves(Request::IsMuted, post, reply, log),
    ensures
        reply == Some(Reply::Muted(Ok(muted))),
{
}

/// Over a whole run, mute writes reach the microphone in the order in which they
/// were asked for, each of them once.
pub proof fn mute_writes_arrive_in_order<R>(
    backend: FakeMic,
    report: Result<(), AudioError>,
    workers: Seq<Worker<FakeMic, R>>,
    commands: Seq<Command<R>>,
    outcomes: Seq<Outcome>,
    n: int,
)
    requires
        is_session(Ok(backend), report, workers, commands, outcomes),
        !backend.fail_next,
        0 <= n < workers.len(),
    ensures
        !workers[n].backend.fail_next,
        workers[n].backend.mute_calls@ == backend.mute_calls@ + mute_writes(commands, n),
    decreases n,
{
    if n > 0 {
        mute_writes_arrive_in_order(backend, report, workers, commands, outcomes, n - 1);
        assert(obeys(workers[n - 1], commands[n - 1], workers[n - 1 + 1], outcomes[n - 1]));
    }
    assert(workers[n].backend.mute_calls@ =~= backend.mute_calls@ + mute_writes(commands, n));
}

/// The values of the mute writes among the first `n` commands.
pub open spec fn mute_writes<R>(commands: Seq<Command<R>>, n: int) -> Seq<bool>
    decreases n,
{
    if n <= 0 {
        Seq::empty()
    } else {
        match commands[n - 1] {
            Command::Serve(Request::SetMuted(muted)) => mute_writes(commands, n - 1).push(muted),
            _ => mute_writes(commands, n - 1),
        }
    }
}

/// Starting to meter twice opens one stream: with a stream open, the second
/// request succeeds and leaves everything as it is, the microphone included.
pub proof fn metering_twice_opens_one_stream<B: MeterCapture + DeviceRefresh, R>(
    worker: Worker<B, R>,
    post: Worker<B, R>,
    reply: Option<Reply>,
    log: Option<Seq<char>>,
)
    requires
        worker.capture is Some,
        worker.serves(Request::StartMetering, post, reply, log),
    ensures
        post == worker,
        reply matches Some(Reply::Done(r)) && r is Ok,
{
}

/// Stopping to meter is no error, whether or not a stream is open, and leaves
/// none open.
pub proof fn stopping_always_succeeds<B: MeterCapture + DeviceRefresh, R>(
    worker: Worker<B, R>,
    post: Worker<B, R>,
    reply: Option<Reply>,
    log: Option<Seq<char>>,
)
    requires
        worker.serves(Request::StopMetering, post, reply, log),
    ensures
        reply matches Some(Reply::Done(r)) && r is Ok,
        post.capture is None,
        worker.capture is None ==> post == worker,
{
}

/// Only a request to meter opens a stream where none is open: selecting a
/// device does not, nor does news of the devices.
pub proof fn only_metering_opens_a_stream<B: MeterCapture + DeviceRefresh, R>(
    worker: Worker<B, R>,
    request: Request,
    post: Worker<B, R>,
    reply: Option<Reply>,
    log: Option<Seq<char>>,
)
    requires
        worker.capture is None,
        !(request is StartMetering),
        worker.serves(request, post, reply, log),
    ensures
        post.capture is None,
{
}

/// A selection that fails leaves the open stream alone, and so does news of the
/// devices that the microphone can not follow.
pub proof fn a_failed_move_leaves_the_stream_alone<B: MeterCapture + DeviceRefresh, R>(
    worker: Worker<B, R>,
    mid: B,
    r: Result<(), AudioError>,
    post: Worker<B, R>,
    log: Option<Seq<char>>,
)
    requires
        r is Err,
        worker.selects_to(mid, r, post, log) || worker.refreshes_to(mid, r, post, log),
    ensures
        post.capture == worker.capture,
        post.backend == mid,
{
}

/// A stream follows its microphone: once the microphone has turned to a device,
/// or found its device again, an open stream is closed and another is opened on
/// the microphone as it is then.
pub proof fn a_stream_follows_its_microphone<B: MeterCapture + DeviceRefresh, R>(
    worker: Worker<B, R>,
    mid: B,
    post: Worker<B, R>,
    log: Option<Seq<char>>,
)
    requires
        worker.capture is Some,
        worker.selects_to(mid, Ok::<(), AudioError>(()), post, log) || worker.refreshes_to(
            mid,
            Ok::<(), AudioError>(()),
            post,
            log,
        ),
    ensures
        exists|shut: B, opened: Result<Option<B::Stream>, AudioError>|
            {
                &&& #[trigger] mid.closes(worker.capture->0, &shut)
                &&& #[trigger] shut.opens(&post.backend, opened)
                &&& reopened_as::<B>(opened, post.capture, log)
            },
{
}

/// A stream that can not follow its microphone fails neither the selection nor
/// the worker: the selection is answered as if there had been no stream, and the
/// worker goes on without one.
pub proof fn a_failed_reopening_is_survived<B: MeterCapture + DeviceRefresh, R>(
    worker: Worker<B, R>,
    mid: B,
    post: Worker<B, R>,
    log: Option<Seq<char>>,
    opened: Result<Option<B::Stream>, AudioError>,
)
    requires
        worker.capture is Some,
        worker.selects_to(mid, Ok::<(), AudioError>(()), post, log),
        forall|shut: B, r: Result<Option<B::Stream>, AudioError>| #[trigger]
            mid.closes(worker.capture->0, &shut) && #[trigger] shut.opens(&post.backend, r) ==> r
                == opened,
        opened is Err,
    ensures
        post.capture is None,
        log == Some(reopen_failure_text(opened->Err_0)),
{
}

/// A request that only asks changes nothing.
pub proof fn asking_changes_nothing<B: MeterCapture + DeviceRefresh, R>(
    worker: Worker<B, R>,
    request: Request,
    post: Worker<B, R>,
    reply: Option<Reply>,
    log: Option<Seq<char>>,
)
    requires
        request is ListDevices || request is IsMuted || request is Volume || request is Peak
            || request is Shutdown,
        worker.serves(request, post, reply, log),
    ensures
        post == worker,
{
}

/// What a caller gets: the worker's own reply where there is one, the bound itself
/// where the worker is stuck, and that it is gone where it is.
pub proof fn a_caller_gets_the_workers_own_reply<T>(timeout: Span, reply: T)
    ensures
        delivered(timeout, Delivery::Replied(reply)) == Ok::<T, AudioError>(reply),
        delivered(timeout, Delivery::<T>::TimedOut) matches Err(AudioError::Timeout(bound))
            && bound == timeout,
        delivered(timeout, Delivery::<T>::NotSent) matches Err(e) && e is ThreadTerminated,
        delivered(timeout, Delivery::<T>::Disconnected) matches Err(e) && e is ThreadTerminated,
{
}

/// A reply is taken for what it is, unchanged, and for nothing else.
pub proof fn a_reply_is_taken_unchanged(
    devices: Result<Vec<DeviceInfo>, AudioError>,
    done: Result<(), AudioError>,
    muted: Result<bool, AudioError>,
    level: Result<Scalar, AudioError>,
)
    ensures
        Reply::Devices(devices).as_devices() == devices,
        Reply::Done(done).as_done() == done,
        Reply::Muted(muted).as_muted() == muted,
        Reply::Level(level).as_level() == level,
        Reply::Done(done).as_devices() matches Err(e) && e is ThreadTerminated,
        Reply::Done(done).as_muted() matches Err(e) && e is ThreadTerminated,
        Reply::Done(done).as_level() matches Err(e) && e is ThreadTerminated,
        Reply::Muted(muted).as_done() matches Err(e) && e is ThreadTerminated,
        Reply::Muted(muted).as_level() matches Err(e) && e is ThreadTerminated,
        Reply::Muted(muted).as_devices() matches Err(e) && e is ThreadTerminated,
        Reply::Level(level).as_done() matches Err(e) && e is ThreadTerminated,
        Reply::Level(level).as_muted() matches Err(e) && e is ThreadTerminated,
        Reply::Level(level).as_devices() matches Err(e) && e is ThreadTerminated,
        Reply::Devices(devices).as_done() matches Err(e) && e is ThreadTerminated,
        Reply::Devices(devices).as_muted() matches Err(e) && e is ThreadTerminated,
        Reply::Devices(devices).as_level() matches Err(e) && e is ThreadTerminated,
{
}

/// A request that asks is answered with what the microphone itself answers to just
/// that question. It changes nothing, and nothing is logged.
pub proof fn a_question_is_answered_by_the_microphone<B: MeterCapture + DeviceRefresh, R>(
    worker: Worker<B, R>,
    post: Worker<B, R>,
    reply: Option<Reply>,
    log: Option<Seq<char>>,
)
    ensures
        worker.serves(Request::ListDevices, post, reply, log) ==> (reply matches Some(
            Reply::Devices(r),
        ) && worker.backend.lists(r) && post == worker && log is None),
        worker.serves(Request::IsMuted, post, reply, log) ==> (reply matches Some(Reply::Muted(r))
            && worker.backend.reads_muted(r) && post == worker && log is None),
        worker.serves(Request::Volume, post, reply, log) ==> (reply matches Some(Reply::Level(r))
            && worker.backend.reads_volume(r) && post == worker && log is None),
        worker.serves(Request::Peak, post, reply, log) ==> (reply matches Some(Reply::Level(r))
            && worker.backend.reads_peak(r) && post == worker && log is None),
{
}

/// A write reaches the microphone with the value that was asked for, and is
/// answered with the microphone's own answer. The stream stays as it is.
pub proof fn a_write_reaches_the_microphone_as_it_is<B: MeterCapture + DeviceRefresh, R>(
    worker: Worker<B, R>,
    muted: bool,
    level: Scalar,
    post: Worker<B, R>,
    reply: Option<Reply>,
    log: Option<Seq<char>>,
)
    ensures
        worker.serves(Request::SetMuted(muted), post, reply, log) ==> (reply matches Some(
            Reply::Done(r),
        ) && worker.backend.writes_muted(muted, &post.backend, r) && post.capture
            == worker.capture && post.hotplug == worker.hotplug && log is None),
        worker.serves(Request::SetVolume(level), post, reply, log) ==> (reply matches Some(
            Reply::Done(r),
        ) && worker.backend.writes_volume(level, &post.backend, r) && post.capture
            == worker.capture && post.hotplug == worker.hotplug && log is None),
{
}

/// A selection reaches the microphone with the id that was asked for, and is
/// answered with the microphone's own answer, whatever becomes of the stream.
pub proof fn a_selection_reaches_the_microphone<B: MeterCapture + DeviceRefresh, R>(
    worker: Worker<B, R>,
    id: Option<String>,
    post: Worker<B, R>,
    reply: Option<Reply>,
    log: Option<Seq<char>>,
)
    requires
        worker.serves(Request::Select(id), post, reply, log),
    ensures
        reply matches Some(Reply::Done(r)) && exists|mid: B|
            {
                &&& #[trigger] worker.backend.selects(opt_text(id), &mid, r)
                &&& r is Err || worker.capture is None ==> post.backend == mid && post.capture
                    == worker.capture && log is None
            },
        post.hotplug == worker.hotplug,
{
    let r = reply->0->Done_0;
    let mid = choose|mid: B| #[trigger]
        worker.backend.selects(opt_text(id), &mid, r) && worker.selects_to(mid, r, post, log);
    assert(worker.backend.selects(opt_text(id), &mid, r));
}

/// News of the devices has the microphone find its device again, and is answered
/// to nobody. If it can not, the reason is logged, and the stream stays.
pub proof fn news_of_the_devices_reach_the_microphone<B: MeterCapture + DeviceRefresh, R>(
    worker: Worker<B, R>,
    post: Worker<B, R>,
    reply: Option<Reply>,
    log: Option<Seq<char>>,
)
    requires
        worker.serves(Request::DeviceChanged, post, reply, log),
    ensures
        reply is None,
        post.hotplug == worker.hotplug,
        exists|mid: B, r: Result<(), AudioError>|
            {
                &&& #[trigger] worker.backend.refreshes(&mid, r)
                &&& r matches Err(e) ==> log == Some(
                    "could not re-resolve the device after a change: "@ + error_text(e),
                ) && post.capture == worker.capture && post.backend == mid
                &&& r is Ok && worker.capture is None ==> post.backend == mid && post.capture is None
                    && log is None
            },
{
    let (mid, r) = choose|mid: B, r: Result<(), AudioError>| #[trigger]
        worker.backend.refreshes(&mid, r) && worker.refreshes_to(mid, r, post, log);
    assert(worker.backend.refreshes(&mid, r));
}

/// Starting to meter without a stream takes the stream that the microphone opens,
/// or answers and logs why it could not.
pub proof fn metering_takes_the_stream_that_was_opened<B: MeterCapture + DeviceRefresh, R>(
    worker: Worker<B, R>,
    post: Worker<B, R>,
    reply: Option<Reply>,
    log: Option<Seq<char>>,
)
    requires
        worker.capture is None,
        worker.serves(Request::StartMetering, post, reply, log),
    ensures
        post.hotplug == worker.hotplug,
        exists|opened: Result<Option<B::Stream>, AudioError>|
            {
                &&& #[trigger] worker.backend.opens(&post.backend, opened)
                &&& opened matches Ok(stream) ==> post.capture == stream && log is None && (reply
                    matches Some(Reply::Done(r)) && r is Ok)
                &&& opened matches Err(e) ==> post.capture is None && log == Some(
                    "failed to open capture stream for metering: "@ + error_text(e),
                ) && reply == Some(Reply::Done(Err(e)))
            },
{
    let r = reply->0->Done_0;
    let opened = choose|opened: Result<Option<B::Stream>, AudioError>| #[trigger]
        worker.backend.opens(&post.backend, opened) && post.metering_starts(opened, r, log);
    assert(worker.backend.opens(&post.backend, opened));
}

/// What opening a stream in place of another leaves: the stream that was opened,
/// or none and a line that says why.
pub proof fn a_reopened_stream_is_the_one_that_was_opened<B: MeterCapture>(
    opened: Result<Option<B::Stream>, AudioError>,
    capture: Option<B::Stream>,
    log: Option<Seq<char>>,
)
    requires
        reopened_as::<B>(opened, capture, log),
    ensures
        opened matches Ok(stream) ==> capture == stream && log is None,
        opened matches Err(e) ==> capture is None && log == Some(
            "failed to reopen capture stream after device change: "@ + error_text(e),
        ),
{
}

/// A registration that was made takes the place of the one before, and one that
/// was not leaves it; the microphone and the stream stay either way.
pub proof fn a_registration_takes_the_place_of_the_last<B: MeterCapture + DeviceRefresh, R>(
    worker: Worker<B, R>,
    made: Result<R, AudioError>,
    post: Worker<B, R>,
    r: Result<(), AudioError>,
)
    requires
        worker.registers(made, post, r),
    ensures
        made matches Ok(registration) ==> post.hotplug == Some(registration) && r is Ok,
        made matches Err(e) ==> post.hotplug == worker.hotplug && r == Err::<(), AudioError>(e),
        post.backend == worker.backend,
        post.capture == worker.capture,
{
}

/// What the streams of a worker do while it serves a request: stopping closes the
/// one that is open, and no other.
pub proof fn stopping_closes_the_open_stream<B: MeterCapture + DeviceRefresh, R>(
    worker: Worker<B, R>,
    stream: B::Stream,
    post: Worker<B, R>,
    reply: Option<Reply>,
    log: Option<Seq<char>>,
)
    requires
        worker.capture == Some(stream),
        worker.serves(Request::StopMetering, post, reply, log),
    ensures
        worker.backend.closes(stream, &post.backend),
        post.capture is None,
        post.hotplug == worker.hotplug,
        reply matches Some(Reply::Done(r)) && r is Ok,
        log is None,
{
}

/// Where there is nothing to stop, stopping does nothing; where a stream is open,
/// starting does nothing; and being told to end does nothing but that.
pub proof fn what_needs_no_change_changes_nothing<B: MeterCapture + DeviceRefresh, R>(
    worker: Worker<B, R>,
    post: Worker<B, R>,
    reply: Option<Reply>,
    log: Option<Seq<char>>,
)
    ensures
        worker.capture is None && worker.serves(Request::StopMetering, post, reply, log) ==> post
            == worker && log is None && (reply matches Some(Reply::Done(r)) && r is Ok),
        worker.capture is Some && worker.serves(Request::StartMetering, post, reply, log) ==> post
            == worker && log is None && (reply matches Some(Reply::Done(r)) && r is Ok),
        worker.serves(Request::Shutdown, post, reply, log) ==> post == worker && reply is None
            && log is None,
{
}

/// A registration is answered with whether it was made, and nothing is logged.
pub proof fn a_registration_is_answered<B: MeterCapture + DeviceRefresh, R>(
    worker: Worker<B, R>,
    made: Result<R, AudioError>,
    post: Worker<B, R>,
    outcome: Outcome,
)
    requires
        obeys(worker, Command::EnableHotplug(made), post, outcome),
    ensures
        outcome.reply matches Some(Reply::Done(r)) && (r is Ok <==> made is Ok),
        made matches Err(e) ==> outcome.reply == Some(Reply::Done(Err(e))),
        outcome.log is None,
        post.backend == worker.backend,
        post.capture == worker.capture,
{
}

/// A thread serves no command that did not come: it answers the first of them, in
/// order, each once.
pub proof fn each_command_is_served_once<B: MeterCapture + DeviceRefresh, R>(
    made: Result<B, AudioError>,
    report: Result<(), AudioError>,
    workers: Seq<Worker<B, R>>,
    commands: Seq<Command<R>>,
    outcomes: Seq<Outcome>,
)
    requires
        is_session(made, report, workers, commands, outcomes),
    ensures
        outcomes.len() <= commands.len(),
        made is Err ==> outcomes.len() == 0 && workers.len() == 0,
        made is Ok ==> workers.len() == outcomes.len() + 1,
{
}

/// A worker is waited for unless it let the bound pass: one that answered, and one
/// that is gone, is at its end.
pub proof fn only_a_stuck_worker_is_left_behind()
    ensures
        ends_soon(Delivery::Replied(())),
        ends_soon(Delivery::NotSent),
        ends_soon(Delivery::Disconnected),
        !ends_soon(Delivery::TimedOut),
{
}

/// The worker is up exactly if it says so, and a failure keeps its own reason.
pub proof fn a_worker_is_up_if_it_says_so(report: SpawnReport, r: Result<(), AudioError>)
    requires
        is_up(report, r),
    ensures
        r is Ok <==> report matches SpawnReport::Reported(Ok(_)),
        report matches SpawnReport::Reported(Err(e)) ==> r == Err::<(), AudioError>(e),
        report matches SpawnReport::NotSpawned(reason) ==> (r matches Err(
            AudioError::Windows(message),
        ) && message@ == "could not spawn audio thread: "@ + reason@),
        report is Silent ==> (r matches Err(e) && e is ThreadTerminated),
{
}

/// A worker begins with the microphone that was made, no stream and no
/// registration. Where none was made there is no worker, and the reason is
/// reported.
pub proof fn a_worker_begins_with_its_microphone<B: MeterCapture + DeviceRefresh, R>(
    made: Result<B, AudioError>,
    report: Result<(), AudioError>,
    worker: Option<Worker<B, R>>,
)
    requires
        Worker::<B, R>::begins(made, report, worker),
    ensures
        made matches Ok(backend) ==> report is Ok && (worker matches Some(w) && w.backend == backend
            && w.capture is None && w.hotplug is None),
        made matches Err(e) ==> report == Err::<(), AudioError>(e) && worker is None,
{
}

} // verus!
