//! Starting up, and the last resort when the program goes down: both must cope
//! with an audio service that never answers.

use crate::audio::fake::FakeMic;
use crate::audio::{error_text, opt_text, AudioError, MicBackend};
use crate::config::Config;
use crate::modes::{faithful, wrote, Mode, ModeMachine};
use crate::state::{live_only_if_held, steady, Core, Mic};
use crate::span::Span;
use crate::text::{decimal, decimal_text, duration_text};
use vstd::prelude::*;

verus! {

/// For how many milliseconds the emergency unmute may run. A program that will
/// not die is worse than one that dies with the microphone muted.
pub const EMERGENCY_UNMUTE_TIMEOUT: u64 = 2_000;

/// What came of work that was handed to a thread of its own, with a bound on the
/// wait.
pub enum Attempt<T> {
    /// The thread could not be made; why not.
    NotSpawned(String),
    Finished(Result<T, AudioError>),
    /// No answer within the bound. The thread may still be running.
    TimedOut,
    /// The thread ended without an answer.
    Died,
}

/// What an attempt to start the audio worker within `timeout` comes to.
pub open spec fn comes_to<T>(timeout: Span, attempt: Attempt<T>, r: Result<T, AudioError>) -> bool {
    match attempt {
        Attempt::NotSpawned(reason) => r matches Err(AudioError::Windows(message)) && message@
            == "could not spawn the audio startup thread: "@ + reason@,
        Attempt::Finished(result) => r == result,
        Attempt::TimedOut => r matches Err(AudioError::Windows(message)) && message@
            == "the Windows audio service did not respond within "@ + decimal_text(
            timeout.secs() as nat,
        ) + "s"@,
        Attempt::Died => r == Err::<T, AudioError>(AudioError::ThreadTerminated),
    }
}

/// The result of starting the audio worker within `timeout`: what
/// the worker's constructor gave, or an error that says why there is no answer.
pub fn spawn_with_timeout<T>(timeout: Span, attempt: Attempt<T>) -> (r: Result<T, AudioError>)
    ensures
        comes_to(timeout, attempt, r),
        match attempt {
            Attempt::NotSpawned(reason) => r matches Err(AudioError::Windows(message)) && message@
                == "could not spawn the audio startup thread: "@ + reason@,
            Attempt::Finished(result) => r == result,
            Attempt::TimedOut => r matches Err(AudioError::Windows(message)) && message@
                == "the Windows audio service did not respond within "@ + decimal_text(
                timeout.secs() as nat,
            ) + "s"@,
            Attempt::Died => r == Err::<T, AudioError>(AudioError::ThreadTerminated),
        },
{
    match attempt {
        Attempt::NotSpawned(reason) => Err(
            AudioError::Windows(
                "could not spawn the audio startup thread: ".to_owned().concat(reason.as_str()),
            ),
        ),
        Attempt::Finished(result) => result,
        Attempt::TimedOut => Err(
            AudioError::Windows(
                "the Windows audio service did not respond within ".to_owned().concat(
                    decimal(timeout.as_secs()).as_str(),
                ).concat("s"),
            ),
        ),
        Attempt::Died => Err(AudioError::ThreadTerminated),
    }
}

/// What the user reads when there is no audio worker.
pub open spec fn unavailable_text(e: AudioError) -> Seq<char> {
    "microphone control unavailable: "@ + error_text(e)
}

/// What the user reads when the device of the settings can not be had.
pub open spec fn fallback_text(e: AudioError) -> Seq<char> {
    "could not select the saved device, using the system default: "@ + error_text(e)
}

/// What a start makes of the microphone, given what the selection of the saved
/// device came to: the mode's resting state goes to the device that is in use.
pub open spec fn starts_with<H: MicBackend>(
    mic: Mic<H>,
    config: Config,
    post: ModeMachine<Mic<H>>,
    selected: Result<(), AudioError>,
) -> bool {
    &&& post.mode == config.mode
    &&& !post.held
    &&& exists|mid: Mic<H>|
        {
            &&& #[trigger] mic.selects(opt_text(config.device_id), &mid, selected)
            &&& wrote(mid, config.mode.rests_muted(), post.mic)
        }
}

/// What a start makes of the worker that came up or did not, and what it logs.
pub open spec fn started<H: MicBackend>(
    spawned: Result<H, AudioError>,
    config: Config,
    c: Core<H>,
    log: Seq<String>,
) -> bool {
    &&& c.config == config
    &&& c.hook_error is None
    &&& !c.save_due
    &&& match spawned {
        Err(e) => {
            &&& c.machine == (ModeMachine {
                mic: Mic::<H>::Unavailable,
                mode: config.mode,
                held: false,
            })
            &&& opt_text(c.last_error) == Some(unavailable_text(e))
            &&& log.len() == 2
            &&& log[0]@ == unavailable_text(e)
            &&& log[1]@ == fallback_text(AudioError::NoDevice)
        },
        Ok(h) => exists|selected: Result<(), AudioError>|
            {
                &&& #[trigger] starts_with(Mic::Live(h), config, c.machine, selected)
                &&& match selected {
                    Ok(_) => c.last_error is None && log.len() == 0,
                    Err(e) => {
                        &&& opt_text(c.last_error) == Some(fallback_text(e))
                        &&& log.len() == 1
                        &&& log[0]@ == fallback_text(e)
                    },
                }
            },
    }
}

/// The application at its start, from the worker that came up or did not, and
/// the lines to log. The saved device is selected before the resting state is
/// set, so that no other device is ever muted. No failure stops the start; the
/// last error holds the first.
pub fn start<H: MicBackend>(spawned: Result<H, AudioError>, config: Config) -> (r: (
    Core<H>,
    Vec<String>,
))
    ensures
        started(spawned, config, r.0, r.1@),
        r.0.config == config,
        r.0.hook_error is None,
        !r.0.save_due,
        match spawned {
            Err(e) => {
                &&& r.0.machine == (ModeMachine {
                    mic: Mic::<H>::Unavailable,
                    mode: config.mode,
                    held: false,
                })
                &&& opt_text(r.0.last_error) == Some(unavailable_text(e))
                &&& r.1@.len() == 2
                &&& r.1@[0]@ == unavailable_text(e)
                &&& r.1@[1]@ == fallback_text(AudioError::NoDevice)
            },
            Ok(h) => exists|selected: Result<(), AudioError>|
                {
                    &&& #[trigger] starts_with(Mic::Live(h), config, r.0.machine, selected)
                    &&& match selected {
                        Ok(_) => r.0.last_error is None && r.1@.len() == 0,
                        Err(e) => {
                            &&& opt_text(r.0.last_error) == Some(fallback_text(e))
                            &&& r.1@.len() == 1
                            &&& r.1@[0]@ == fallback_text(e)
                        },
                    }
                },
        },
{
    let mut log: Vec<String> = Vec::new();
    let mut last_error: Option<String> = None;
    let mut mic = match spawned {
        Ok(h) => Mic::Live(h),
        Err(e) => {
            let message = "microphone control unavailable: ".to_owned().concat(
                e.message().as_str(),
            );
            log.push(message.clone());
            last_error = Some(message);
            Mic::Unavailable
        },
    };
    let ghost before = mic;
    let wanted = match &config.device_id {
        Some(id) => Some(id.as_str()),
        None => None,
    };
    let selected = mic.select(wanted);
    let ghost outcome = selected;
    let ghost mid = mic;
    match selected {
        Ok(_) => {},
        Err(e) => {
            let message =
                "could not select the saved device, using the system default: ".to_owned().concat(
                e.message().as_str(),
            );
            log.push(message.clone());
            if last_error.is_none() {
                last_error = Some(message);
            }
        },
    }
    let machine = ModeMachine::new(mic, config.mode);
    proof {
        assert(before.selects(opt_text(config.device_id), &mid, outcome));
        assert(starts_with(before, config, machine, outcome));
    }
    (Core::new(machine, config, last_error), log)
}

/// A start leaves the microphone at rest, whatever came of selecting the saved
/// device: so Push to Talk is not live before its key is held.
pub proof fn a_start_is_at_rest<H: MicBackend>(
    mic: Mic<H>,
    c: Core<H>,
    selected: Result<(), AudioError>,
    good: spec_fn(Mic<H>) -> bool,
    muted: spec_fn(Mic<H>) -> bool,
)
    requires
        steady(good, muted),
        good(mic),
        starts_with(mic, c.config, c.machine, selected),
    ensures
        muted(c.machine.mic) == c.machine.mode.rests_muted(),
        live_only_if_held(c, good, muted),
{
}

/// What the emergency unmute makes of an endpoint, and how it ends: the saved
/// device is selected first, if there is one, and whatever endpoint there is then
/// is unmuted, once. `post` is the endpoint as it is left.
pub open spec fn unmutes<B: MicBackend>(
    endpoint: B,
    device_id: Option<Seq<char>>,
    post: B,
    r: Result<(), AudioError>,
    warning: Option<Seq<char>>,
) -> bool {
    exists|mid: B| #[trigger]
        readied(endpoint, device_id, mid, warning) && mid.writes_muted(false, &post, r)
}

/// The line that is logged when the saved device can not be selected in an
/// emergency.
pub open spec fn warning_of(id: Seq<char>, selected: Result<(), AudioError>) -> Option<Seq<char>> {
    match selected {
        Ok(_) => None,
        Err(e) => Some("emergency unmute could not select "@ + id + ": "@ + error_text(e)),
    }
}

/// `mid` is the endpoint with the saved device selected, and `warning` the line
/// to log if it could not be.
pub open spec fn readied<B: MicBackend>(
    endpoint: B,
    device_id: Option<Seq<char>>,
    mid: B,
    warning: Option<Seq<char>>,
) -> bool {
    match device_id {
        None => mid == endpoint && warning is None,
        Some(id) => exists|s: Result<(), AudioError>| #[trigger]
            endpoint.selects(Some(id), &mid, s) && warning == warning_of(id, s),
    }
}

/// Unmutes through an endpoint of its own, if one could be made: on the saved
/// device, since the system default is often another one. A device that can not
/// be selected is logged and passed over, since unmuting what there is beats
/// giving up. Gives the result, the line to log, and the endpoint as it is left.
pub fn emergency_unmute<B: MicBackend>(
    endpoint: Result<B, AudioError>,
    device_id: Option<&str>,
) -> (r: (Result<(), AudioError>, Option<String>, Option<B>))
    ensures
        match endpoint {
            Err(e) => r.0 == Err::<(), AudioError>(e) && r.1 is None && r.2 is None,
            Ok(endpoint) => r.2 matches Some(post) && unmutes(
                endpoint,
                opt_text(device_id),
                post,
                r.0,
                opt_text(r.1),
            ),
        },
{
    let mut endpoint = match endpoint {
        Ok(endpoint) => endpoint,
        Err(e) => return (Err(e), None, None),
    };
    let ghost before = endpoint;
    let mut warning: Option<String> = None;
    match device_id {
        None => {
            assert(readied(before, opt_text(device_id), endpoint, opt_text(warning)));
        },
        Some(id) => {
            let selected = endpoint.select(Some(id));
            let ghost outcome = selected;
            match selected {
                Ok(_) => {},
                Err(e) => {
                    let text = "emergency unmute could not select ".to_owned().concat(id).concat(
                        ": ",
                    ).concat(e.message().as_str());
                    warning = Some(text);
                },
            }
            assert(opt_text(warning) == warning_of(id@, outcome));
            assert(before.selects(Some(id@), &endpoint, outcome));
            assert(readied(before, opt_text(device_id), endpoint, opt_text(warning)));
        },
    }
    let result = endpoint.set_muted(false);
    (result, warning, Some(endpoint))
}

/// The line that says how an emergency ended.
pub open spec fn report_text(attempt: Attempt<()>) -> Seq<char> {
    match attempt {
        Attempt::NotSpawned(reason) => "could not spawn the emergency unmute thread: "@ + reason@,
        Attempt::Finished(Ok(_)) => "microphone restored after a panic"@,
        Attempt::Finished(Err(e)) => "emergency unmute failed: "@ + error_text(e),
        _ => "emergency unmute did not complete within "@ + duration_text(
            EMERGENCY_UNMUTE_TIMEOUT / 1_000,
            (EMERGENCY_UNMUTE_TIMEOUT % 1_000 * 1_000_000) as u32,
        ) + "; the microphone may still be muted"@,
    }
}

/// The line that is logged about how an emergency unmute ended.
pub fn emergency_report(attempt: Attempt<()>) -> (r: String)
    ensures
        r@ == report_text(attempt),
        r@ == match attempt {
            Attempt::NotSpawned(reason) => "could not spawn the emergency unmute thread: "@
                + reason@,
            Attempt::Finished(Ok(_)) => "microphone restored after a panic"@,
            Attempt::Finished(Err(e)) => "emergency unmute failed: "@ + error_text(e),
            _ => "emergency unmute did not complete within "@ + duration_text(
                EMERGENCY_UNMUTE_TIMEOUT / 1_000,
                (EMERGENCY_UNMUTE_TIMEOUT % 1_000 * 1_000_000) as u32,
            ) + "; the microphone may still be muted"@,
        },
{
    match attempt {
        Attempt::NotSpawned(reason) => {
            "could not spawn the emergency unmute thread: ".to_owned().concat(reason.as_str())
        },
        Attempt::Finished(Ok(_)) => "microphone restored after a panic".to_owned(),
        Attempt::Finished(Err(e)) => {
            "emergency unmute failed: ".to_owned().concat(e.message().as_str())
        },
        _ => "emergency unmute did not complete within ".to_owned().concat(
            Span::from_millis(EMERGENCY_UNMUTE_TIMEOUT).show().as_str(),
        ).concat("; the microphone may still be muted"),
    }
}

/// An emergency unmute leaves nobody muted: the endpoint that is left is live, if
/// it does as it is told once it has been turned to the saved device, and whether
/// or not that device could be had.
pub proof fn an_emergency_unmute_works<B: MicBackend>(
    endpoint: B,
    device_id: Option<Seq<char>>,
    post: B,
    r: Result<(), AudioError>,
    warning: Option<Seq<char>>,
    good: spec_fn(B) -> bool,
    muted: spec_fn(B) -> bool,
)
    requires
        faithful(good, muted),
        forall|mid: B| #[trigger] readied(endpoint, device_id, mid, warning) ==> good(mid),
        unmutes(endpoint, device_id, post, r, warning),
    ensures
        !muted(post),
{
}

/// What an attempt comes to: the worker's own answer where there is one, and
/// otherwise an error that tells a thread that was never made, one that does not
/// answer and one that is gone apart.
pub proof fn an_attempt_comes_to_its_own_answer<T>(
    timeout: Span,
    answer: Result<T, AudioError>,
    reason: String,
    r: Result<T, AudioError>,
)
    ensures
        comes_to(timeout, Attempt::Finished(answer), r) ==> r == answer,
        comes_to(timeout, Attempt::Died, r) ==> (r matches Err(e) && e is ThreadTerminated),
        comes_to(timeout, Attempt::NotSpawned(reason), r) ==> (r matches Err(AudioError::Windows(m))
            && m@ == "could not spawn the audio startup thread: "@ + reason@),
        comes_to(timeout, Attempt::TimedOut, r) ==> (r matches Err(AudioError::Windows(m)) && m@
            == "the Windows audio service did not respond within "@ + decimal_text(
            timeout.secs() as nat,
        ) + "s"@),
{
}

/// A start takes the settings as they are, in their mode and without a hold, and
/// has nothing to write. The saved device is selected first, and the mode's rest
/// is asked of the microphone that this leaves.
pub proof fn a_start_selects_the_saved_device_first<H: MicBackend>(
    worker: H,
    config: Config,
    c: Core<H>,
    log: Seq<String>,
)
    requires
        started(Ok(worker), config, c, log),
    ensures
        c.config == config,
        c.machine.mode == config.mode,
        !c.machine.held,
        !c.save_due,
        c.hook_error is None,
        exists|mid: Mic<H>, selected: Result<(), AudioError>|
            {
                &&& #[trigger] Mic::Live(worker).selects(opt_text(config.device_id), &mid, selected)
                &&& wrote(mid, config.mode == Mode::PushToTalk, c.machine.mic)
                &&& selected is Ok ==> c.last_error is None && log.len() == 0
                &&& selected matches Err(e) ==> log.len() == 1 && opt_text(c.last_error) == Some(
                    log[0]@,
                ) && log[0]@
                    == "could not select the saved device, using the system default: "@
                    + error_text(e)
            },
{
    let selected = choose|selected: Result<(), AudioError>|
        {
            &&& #[trigger] starts_with(Mic::Live(worker), config, c.machine, selected)
            &&& match selected {
                Ok(_) => c.last_error is None && log.len() == 0,
                Err(e) => {
                    &&& opt_text(c.last_error) == Some(fallback_text(e))
                    &&& log.len() == 1
                    &&& log[0]@ == fallback_text(e)
                },
            }
        };
    assert(starts_with(Mic::Live(worker), config, c.machine, selected));
}

/// A start on a microphone made of memory leaves it on the saved device, muted in
/// Push to Talk and live in Mute Toggle, after one mute write.
pub proof fn a_start_leaves_the_saved_device_at_rest(
    worker: FakeMic,
    config: Config,
    c: Core<FakeMic>,
    log: Seq<String>,
)
    requires
        !worker.fail_next,
        started(Ok(worker), config, c, log),
    ensures
        c.machine.mic matches Mic::Live(mic) && opt_text(mic.selected) == opt_text(
            config.device_id,
        ) && mic.muted == (config.mode == Mode::PushToTalk) && mic.mute_calls@
            == worker.mute_calls@.push(config.mode == Mode::PushToTalk) && mic.volume
            == worker.volume,
        c.last_error is None,
        log.len() == 0,
{
}

/// A start without a worker goes on without a microphone, and says why: the last
/// error is the worker's own, and the device that could not be selected is logged.
pub proof fn a_start_without_a_worker_says_why<H: MicBackend>(
    e: AudioError,
    config: Config,
    c: Core<H>,
    log: Seq<String>,
)
    requires
        started(Err(e), config, c, log),
    ensures
        c.machine.mic is Unavailable,
        c.machine.mode == config.mode,
        !c.machine.held,
        c.config == config,
        opt_text(c.last_error) == Some("microphone control unavailable: "@ + error_text(e)),
        log.len() == 2,
        log[0]@ == "microphone control unavailable: "@ + error_text(e),
        log[1]@ == "could not select the saved device, using the system default: "@
            + "no capture device available"@,
{
}

/// An emergency unmute asks for the saved device if there is one, then for one
/// unmute, and for nothing else; a device that could not be had is logged by its
/// id and the reason.
pub proof fn an_emergency_asks_for_the_device_and_one_unmute<B: MicBackend>(
    endpoint: B,
    device_id: Option<Seq<char>>,
    post: B,
    r: Result<(), AudioError>,
    warning: Option<Seq<char>>,
)
    requires
        unmutes(endpoint, device_id, post, r, warning),
    ensures
        device_id is None ==> endpoint.writes_muted(false, &post, r) && warning is None,
        device_id matches Some(id) ==> exists|mid: B, s: Result<(), AudioError>|
            {
                &&& #[trigger] endpoint.selects(Some(id), &mid, s)
                &&& mid.writes_muted(false, &post, r)
                &&& s is Ok ==> warning is None
                &&& s matches Err(e) ==> warning == Some(
                    "emergency unmute could not select "@ + id + ": "@ + error_text(e),
                )
            },
{
    let mid = choose|mid: B| #[trigger]
        readied(endpoint, device_id, mid, warning) && mid.writes_muted(false, &post, r);
    assert(readied(endpoint, device_id, mid, warning));
    if device_id is Some {
        let id = device_id->0;
        let s = choose|s: Result<(), AudioError>| #[trigger]
            endpoint.selects(Some(id), &mid, s) && warning == warning_of(id, s);
        assert(endpoint.selects(Some(id), &mid, s));
    }
}

/// On a microphone made of memory an emergency leaves the saved device selected,
/// if there is one, and the microphone live, after exactly one mute write.
pub proof fn an_emergency_leaves_the_microphone_live(
    endpoint: FakeMic,
    device_id: Option<Seq<char>>,
    post: FakeMic,
    r: Result<(), AudioError>,
    warning: Option<Seq<char>>,
)
    requires
        !endpoint.fail_next,
        unmutes(endpoint, device_id, post, r, warning),
    ensures
        r is Ok,
        warning is None,
        !post.muted,
        post.mute_calls@ == endpoint.mute_calls@.push(false),
        device_id is Some ==> opt_text(post.selected) == device_id,
        device_id is None ==> post.selected == endpoint.selected,
        post.volume == endpoint.volume,
{
}

/// Only an attempt that ended well is reported as one that restored the
/// microphone, one that took longer than two seconds as one that may not have, and
/// any other failure with its own reason.
pub proof fn an_emergency_is_reported_as_it_ended(
    attempt: Attempt<()>,
    reason: String,
    e: AudioError,
)
    ensures
        attempt matches Attempt::Finished(Ok(_)) ==> report_text(attempt)
            == "microphone restored after a panic"@,
        report_text(Attempt::Finished(Err(e))) == "emergency unmute failed: "@ + error_text(e),
        report_text(Attempt::NotSpawned(reason))
            == "could not spawn the emergency unmute thread: "@ + reason@,
        attempt is TimedOut || attempt is Died ==> report_text(attempt)
            == "emergency unmute did not complete within "@ + duration_text(2, 0)
            + "; the microphone may still be muted"@,
{
}

} // verus!
