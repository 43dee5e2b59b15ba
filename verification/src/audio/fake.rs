//! A microphone made of memory, which records every mute write it accepted.

use crate::audio::thread::{DeviceRefresh, MeterCapture};
use crate::audio::{opt_text, AudioError, DeviceInfo, MicBackend};
use crate::modes::{wrote, KeyEdge, ModeMachine};
use crate::scalar::{one, zero, Scalar, ONE_BITS, ZERO_BITS};
use crate::state::steady;
use vstd::prelude::*;

verus! {

#[derive(Debug)]
pub struct FakeMic {
    pub muted: bool,
    pub volume: Scalar,
    pub peak: Scalar,
    pub selected: Option<String>,
    /// Every value that a mute write set, in order.
    pub mute_calls: Vec<bool>,
    /// Makes the next mute write fail.
    pub fail_next: bool,
}

impl FakeMic {
    /// An unmuted microphone at full volume that hears nothing.
    pub fn new() -> (r: FakeMic)
        ensures
            !r.muted,
            r.volume == one(),
            r.peak == zero(),
            r.selected is None,
            r.mute_calls@.len() == 0,
            !r.fail_next,
    {
        FakeMic {
            muted: false,
            volume: Scalar::from_bits(ONE_BITS),
            peak: Scalar::from_bits(ZERO_BITS),
            selected: None,
            mute_calls: Vec::new(),
            fail_next: false,
        }
    }
}

impl MicBackend for FakeMic {
    open spec fn lists(&self, r: Result<Vec<DeviceInfo>, AudioError>) -> bool {
        &&& r matches Ok(devices)
        &&& devices@.len() == 1
        &&& devices@[0].id@ == "fake-1"@
        &&& devices@[0].name@ == "Fake Microphone"@
        &&& devices@[0].is_default
    }

    open spec fn selects(
        &self,
        id: Option<Seq<char>>,
        post: &Self,
        r: Result<(), AudioError>,
    ) -> bool {
        &&& r is Ok
        &&& opt_text(post.selected) == id
        &&& *post == (FakeMic { selected: post.selected, ..*self })
    }

    open spec fn reads_muted(&self, r: Result<bool, AudioError>) -> bool {
        r == Ok::<bool, AudioError>(self.muted)
    }

    open spec fn writes_muted(
        &self,
        muted: bool,
        post: &Self,
        r: Result<(), AudioError>,
    ) -> bool {
        if self.fail_next {
            &&& r == Err::<(), AudioError>(AudioError::NoDevice)
            &&& *post == (FakeMic { fail_next: false, ..*self })
        } else {
            &&& r is Ok
            &&& post.mute_calls@ == self.mute_calls@.push(muted)
            &&& *post == (FakeMic { muted, mute_calls: post.mute_calls, ..*self })
        }
    }

    open spec fn reads_volume(&self, r: Result<Scalar, AudioError>) -> bool {
        r == Ok::<Scalar, AudioError>(self.volume)
    }

    open spec fn writes_volume(
        &self,
        level: Scalar,
        post: &Self,
        r: Result<(), AudioError>,
    ) -> bool {
        &&& r is Ok
        &&& *post == (FakeMic { volume: level.clamped(zero(), one()), ..*self })
    }

    open spec fn reads_peak(&self, r: Result<Scalar, AudioError>) -> bool {
        r == Ok::<Scalar, AudioError>(self.peak)
    }

    fn list_devices(&self) -> (r: Result<Vec<DeviceInfo>, AudioError>) {
        let mut devices: Vec<DeviceInfo> = Vec::new();
        devices.push(
            DeviceInfo {
                id: "fake-1".to_owned(),
                name: "Fake Microphone".to_owned(),
                is_default: true,
            },
        );
        Ok(devices)
    }

    fn select(&mut self, id: Option<&str>) -> (r: Result<(), AudioError>) {
        self.selected = match id {
            Some(id) => Some(id.to_owned()),
            None => None,
        };
        Ok(())
    }

    fn is_muted(&self) -> (r: Result<bool, AudioError>) {
        Ok(self.muted)
    }

    fn set_muted(&mut self, muted: bool) -> (r: Result<(), AudioError>) {
        if self.fail_next {
            self.fail_next = false;
            return Err(AudioError::NoDevice);
        }
        self.mute_calls.push(muted);
        self.muted = muted;
        Ok(())
    }

    fn volume(&self) -> (r: Result<Scalar, AudioError>) {
        Ok(self.volume)
    }

    fn set_volume(&mut self, level: Scalar) -> (r: Result<(), AudioError>) {
        self.volume = level.clamp_unit();
        Ok(())
    }

    fn peak(&self) -> (r: Result<Scalar, AudioError>) {
        Ok(self.peak)
    }
}

impl MeterCapture for FakeMic {
    type Stream = ();

    /// There is no audio, and so nothing to open.
    open spec fn opens(&self, post: &Self, r: Result<Option<()>, AudioError>) -> bool {
        *post == *self && r == Ok::<Option<()>, AudioError>(None)
    }

    fn open_capture_stream(&mut self) -> (r: Result<Option<()>, AudioError>) {
        Ok(None)
    }

    /// Nor is there anything to close.
    open spec fn closes(&self, stream: (), post: &Self) -> bool {
        *post == *self
    }

    fn close_capture_stream(&mut self, stream: ()) {
    }
}

impl DeviceRefresh for FakeMic {
    /// There is no device, and so nothing to find again.
    open spec fn refreshes(&self, post: &Self, r: Result<(), AudioError>) -> bool {
        *post == *self && r is Ok
    }

    fn refresh(&mut self) -> (r: Result<(), AudioError>) {
        Ok(())
    }
}

/// Neither the hotkey nor the way out touches the volume: a mute write does not.
pub proof fn muting_never_touches_the_volume(
    pre: ModeMachine<FakeMic>,
    edge: KeyEdge,
    post: ModeMachine<FakeMic>,
)
    ensures
        forall|muted: bool| #[trigger]
            wrote(pre.mic, muted, post.mic) ==> post.mic.volume == pre.mic.volume,
        pre.steps_to(edge, post) ==> post.mic.volume == pre.mic.volume,
{
}

/// A fake microphone that has not been told to fail does as it is told, and is
/// muted by nothing else.
pub proof fn a_fake_microphone_is_steady()
    ensures
        steady(|m: FakeMic| !m.fail_next, |m: FakeMic| m.muted),
{
}

/// What a microphone made of memory is told is what it says: a mute that was
/// written is read, a device that was selected is the one it has, and each write
/// is recorded, once. One that was told to fail fails once and changes nothing
/// else.
pub proof fn a_fake_microphone_says_what_it_was_told(
    pre: FakeMic,
    muted: bool,
    post: FakeMic,
    r: Result<(), AudioError>,
    id: Option<Seq<char>>,
    read: Result<bool, AudioError>,
)
    requires
        post.reads_muted(read),
    ensures
        pre.writes_muted(muted, &post, r) && !pre.fail_next ==> r is Ok && read == Ok::<
            bool,
            AudioError,
        >(muted) && post.mute_calls@ == pre.mute_calls@.push(muted) && !post.fail_next
            && post.selected == pre.selected && post.volume == pre.volume && post.peak == pre.peak,
        pre.writes_muted(muted, &post, r) && pre.fail_next ==> r is Err && read == Ok::<
            bool,
            AudioError,
        >(pre.muted) && post.mute_calls == pre.mute_calls && !post.fail_next,
        pre.selects(id, &post, r) ==> r is Ok && opt_text(post.selected) == id && read == Ok::<
            bool,
            AudioError,
        >(pre.muted) && post.mute_calls == pre.mute_calls,
{
}

/// A volume that is in the unit range is taken as it is, one that is not goes to
/// the nearer end, and nothing else changes.
pub proof fn a_fake_microphone_takes_a_volume(
    pre: FakeMic,
    level: Scalar,
    post: FakeMic,
    r: Result<(), AudioError>,
    read: Result<Scalar, AudioError>,
)
    requires
        pre.writes_volume(level, &post, r),
        post.reads_volume(read),
    ensures
        r is Ok,
        zero().at_most(level) && level.at_most(one()) ==> read == Ok::<Scalar, AudioError>(level),
        level.below(zero()) ==> read == Ok::<Scalar, AudioError>(zero()),
        one().below(level) ==> read == Ok::<Scalar, AudioError>(one()),
        post == (FakeMic { volume: post.volume, ..pre }),
{
}

/// It has one device, which is the default, finds it again, opens no stream and
/// closes none, and none of that changes it.
pub proof fn a_fake_microphone_has_one_device(
    mic: FakeMic,
    listed: Result<Vec<DeviceInfo>, AudioError>,
    post: FakeMic,
    r: Result<(), AudioError>,
    opened: Result<Option<()>, AudioError>,
    peak: Result<Scalar, AudioError>,
)
    ensures
        mic.lists(listed) ==> (listed matches Ok(devices) && devices@.len() == 1
            && devices@[0].is_default && devices@[0].id@ == "fake-1"@ && devices@[0].name@
            == "Fake Microphone"@),
        mic.refreshes(&post, r) ==> r is Ok && post == mic,
        mic.opens(&post, opened) ==> (opened matches Ok(stream) && stream is None && post == mic),
        mic.closes((), &post) ==> post == mic,
        mic.reads_peak(peak) ==> peak == Ok::<Scalar, AudioError>(mic.peak),
{
}

} // verus!
