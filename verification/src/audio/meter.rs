//! The level meter: a thread that polls the microphone's peak while the settings
//! window is open.

use crate::audio::{dbfs_floor, dbfs_reading, peak_to_dbfs, AudioError};
use crate::scalar::{zero, Scalar};
use vstd::prelude::*;

verus! {

/// How many milliseconds pass between two polls: about thirty a second.
pub const POLL_INTERVAL: u64 = 33;

/// The event that carries a [`LevelPayload`] to the settings window.
pub const LEVEL_EVENT: &'static str = "level";

/// A reading of the meter, in dBFS.
#[derive(Debug, Clone, Copy, PartialEq)]
pub struct LevelPayload {
    pub peak_db: Scalar,
}

/// The reading for a peak. `decibels` is twenty times the peak's decimal
/// logarithm, and does not matter where that has none.
pub fn tick_payload(peak: Scalar, decibels: Scalar) -> (r: LevelPayload)
    ensures
        r.peak_db == dbfs_reading(peak, decibels),
{
    LevelPayload { peak_db: peak_to_dbfs(peak, decibels) }
}

/// What the poll thread does next.
#[derive(Debug, Clone, Copy, PartialEq)]
pub enum Tick {
    /// Show the reading, and poll again after a pause.
    Show(LevelPayload),
    /// Close the capture stream, and end the thread.
    Finish,
}

/// What one look at the meter and its worker shows.
pub ghost struct Look {
    pub running: bool,
    pub peak: Result<Scalar, AudioError>,
    pub decibels: Scalar,
}

/// What the poll thread does after a look: while the meter runs and the worker
/// answers, the reading is shown.
pub open spec fn tick_of(look: Look) -> Tick {
    match look.peak {
        Ok(peak) if look.running => Tick::Show(
            LevelPayload { peak_db: dbfs_reading(peak, look.decibels) },
        ),
        _ => Tick::Finish,
    }
}

/// One round of the poll thread: while the meter runs and the worker answers,
/// the reading is shown. A worker that is gone ends the thread, which would only
/// fail many times a second otherwise.
pub fn poll(running: bool, peak: Result<Scalar, AudioError>, decibels: Scalar) -> (r: Tick)
    ensures
        r == tick_of(Look { running, peak, decibels }),
{
    if !running {
        return Tick::Finish;
    }
    match peak {
        Ok(peak) => Tick::Show(tick_payload(peak, decibels)),
        Err(_) => Tick::Finish,
    }
}

/// The meter's state: whether it runs, and the thread to wait for.
pub struct MeterHandle<J> {
    pub running: bool,
    pub join: Option<J>,
}

/// What happens to a meter.
pub ghost enum MeterEvent<J> {
    Start,
    /// The thread was made, or says why it could not be.
    Spawned(Result<J, String>),
    /// The thread has ended.
    Finished,
    Stop,
}

impl<J> MeterHandle<J> {
    /// The meter after an event. Starting one that runs changes nothing, and one
    /// whose thread could not be made does not run.
    pub open spec fn after(self, event: MeterEvent<J>) -> Self {
        match event {
            MeterEvent::Start => MeterHandle { running: true, ..self },
            MeterEvent::Spawned(Ok(join)) => MeterHandle { join: Some(join), ..self },
            MeterEvent::Spawned(Err(_)) => MeterHandle { running: false, ..self },
            MeterEvent::Finished => MeterHandle { running: false, ..self },
            MeterEvent::Stop => MeterHandle { running: false, join: None },
        }
    }

    /// A meter that does not run.
    pub fn new() -> (r: MeterHandle<J>)
        ensures
            !r.running,
            r.join is None,
    {
        MeterHandle { running: false, join: None }
    }

    /// Starts the meter, unless it runs. Reports whether it was started: only
    /// then is a stream to be asked for, whose failure is passed over, and a
    /// thread to be made.
    pub fn start(&mut self) -> (r: bool)
        ensures
            r == !old(self).running,
            *final(self) == old(self).after(MeterEvent::Start),
    {
        if self.running {
            return false;
        }
        self.running = true;
        true
    }

    /// Takes the thread that was made, if it was. Without one the meter does not
    /// run, and there is a line to log.
    pub fn spawned(&mut self, thread: Result<J, String>) -> (r: Option<String>)
        ensures
            *final(self) == old(self).after(MeterEvent::Spawned(thread)),
            match thread {
                Ok(_) => r is None,
                Err(reason) => r matches Some(log) && log@ == "failed to spawn meter thread: "@
                    + reason@,
            },
    {
        match thread {
            Ok(join) => {
                self.join = Some(join);
                None
            },
            Err(reason) => {
                self.running = false;
                Some("failed to spawn meter thread: ".to_owned().concat(reason.as_str()))
            },
        }
    }

    /// Notes that the thread has ended, be it by itself, so that the meter can
    /// be started again.
    pub fn finished(&mut self)
        ensures
            *final(self) == old(self).after(MeterEvent::Finished),
    {
        self.running = false;
    }

    /// Stops the meter, and gives the thread to wait for, if there is one.
    pub fn stop(&mut self) -> (r: Option<J>)
        ensures
            r == old(self).join,
            *final(self) == old(self).after(MeterEvent::Stop),
    {
        self.running = false;
        self.join.take()
    }
}

impl<J> Default for MeterHandle<J> {
    fn default() -> (r: Self)
        ensures
            !r.running,
            r.join is None,
    {
        MeterHandle::new()
    }
}

/// What a poll thread does from its first look to its last: it goes on while
/// there is a reading to show, and ends when told to.
pub open spec fn is_polling(looks: Seq<Look>, ticks: Seq<Tick>) -> bool {
    &&& ticks.len() == looks.len()
    &&& ticks.len() > 0
    &&& forall|i: int| 0 <= i < ticks.len() ==> (#[trigger] ticks[i]) == tick_of(looks[i])
    &&& forall|i: int| 0 <= i < ticks.len() - 1 ==> !((#[trigger] ticks[i]) is Finish)
    &&& ticks.last() is Finish
}

/// Over a whole run of the poll thread, each peak that the worker gave while the
/// meter ran is shown, once, in order and as its dBFS reading; and the thread
/// ends at the first look that found the meter stopped or the worker failing.
pub proof fn each_peak_is_shown_once(looks: Seq<Look>, ticks: Seq<Tick>)
    requires
        is_polling(looks, ticks),
    ensures
        forall|i: int|
            0 <= i < looks.len() - 1 ==> {
                &&& (#[trigger] looks[i]).running
                &&& looks[i].peak matches Ok(peak)
                &&& ticks[i] == Tick::Show(
                    LevelPayload { peak_db: dbfs_reading(peak, looks[i].decibels) },
                )
            },
        !looks.last().running || looks.last().peak is Err,
{
    assert forall|i: int| 0 <= i < looks.len() - 1 implies (#[trigger] looks[i]).running
        && looks[i].peak is Ok by {
        assert(ticks[i] == tick_of(looks[i]));
    }
}

/// Meters, one after the other, each of which an event made of the one before.
pub open spec fn is_life<J>(meters: Seq<MeterHandle<J>>, events: Seq<MeterEvent<J>>) -> bool {
    &&& meters.len() == events.len() + 1
    &&& forall|i: int|
        0 <= i < events.len() ==> meters[i + 1] == meters[i].after(#[trigger] events[i])
}

/// Whether the event at `i` starts the meter, and with it a thread.
pub open spec fn starts_at<J>(
    meters: Seq<MeterHandle<J>>,
    events: Seq<MeterEvent<J>>,
    i: int,
) -> bool {
    events[i] is Start && !meters[i].running
}

/// Whatever happens to a meter, it never has two threads polling: between two
/// starts that take effect it was stopped, or its thread ended or never was.
pub proof fn one_thread_polls_at_a_time<J>(
    meters: Seq<MeterHandle<J>>,
    events: Seq<MeterEvent<J>>,
    i: int,
    j: int,
)
    requires
        is_life(meters, events),
        0 <= i < j < events.len(),
        starts_at(meters, events, i),
        starts_at(meters, events, j),
    ensures
        exists|k: int|
            i < k < j && match #[trigger] events[k] {
                MeterEvent::Stop | MeterEvent::Finished | MeterEvent::Spawned(Err(_)) => true,
                _ => false,
            },
{
    if forall|k: int|
        i < k < j ==> match #[trigger] events[k] {
            MeterEvent::Stop | MeterEvent::Finished | MeterEvent::Spawned(Err(_)) => false,
            _ => true,
        } {
        assert(meters[i + 1].running);
        runs_until_it_ends(meters, events, i + 1, j);
    }
}

/// A meter that runs goes on running until it is stopped or its thread ends.
proof fn runs_until_it_ends<J>(
    meters: Seq<MeterHandle<J>>,
    events: Seq<MeterEvent<J>>,
    i: int,
    j: int,
)
    requires
        is_life(meters, events),
        0 <= i <= j <= events.len(),
        meters[i].running,
        forall|k: int|
            i <= k < j ==> match #[trigger] events[k] {
                MeterEvent::Stop | MeterEvent::Finished | MeterEvent::Spawned(Err(_)) => false,
                _ => true,
            },
    ensures
        meters[j].running,
    decreases j - i,
{
    if i < j {
        runs_until_it_ends(meters, events, i, j - 1);
        assert(meters[j - 1 + 1] == meters[j - 1].after(events[j - 1]));
    }
}

/// What a look comes to, by what it found: the reading of the peak that the worker
/// gave to a meter that runs, and the end otherwise. A reading on the meter is the
/// decibels themselves.
pub proof fn a_look_shows_the_decibels(peak: Scalar, decibels: Scalar, e: AudioError)
    ensures
        zero().below(peak) && dbfs_floor().at_most(decibels) && decibels.at_most(zero())
            ==> (tick_of(Look { running: true, peak: Ok(peak), decibels }) matches Tick::Show(level)
            && level.peak_db == decibels),
        peak.at_most(zero()) ==> (tick_of(Look { running: true, peak: Ok(peak), decibels })
            matches Tick::Show(level) && level.peak_db == dbfs_floor()),
        tick_of(Look { running: true, peak: Ok(peak), decibels }) is Show,
        tick_of(Look { running: false, peak: Ok(peak), decibels }) is Finish,
        tick_of(Look { running: true, peak: Err(e), decibels }) is Finish,
{
}

/// What each event makes of a meter: a start makes it run, an end or a stop makes
/// it not run, a thread that was made is kept to be waited for, and a stop lets go
/// of it.
pub proof fn each_event_makes_its_own_change<J>(meter: MeterHandle<J>, join: J, reason: String)
    ensures
        meter.after(MeterEvent::Start).running,
        meter.after(MeterEvent::Start).join == meter.join,
        meter.after(MeterEvent::Spawned(Ok(join))).join == Some(join),
        meter.after(MeterEvent::Spawned(Ok(join))).running == meter.running,
        !meter.after(MeterEvent::Spawned(Err(reason))).running,
        meter.after(MeterEvent::Spawned(Err(reason))).join == meter.join,
        !meter.after(MeterEvent::Finished).running,
        meter.after(MeterEvent::Finished).join == meter.join,
        !meter.after(MeterEvent::Stop).running,
        meter.after(MeterEvent::Stop).join is None,
{
}

} // verus!
