//! The two modes, and the machine that drives the microphone by them.
//!
//! Mute Toggle rests unmuted, and a press of the hotkey flips the mute. Push to
//! Talk rests muted, and is live only while the hotkey is held. The machine acts
//! on changes of the key alone, so a keyboard's auto-repeat is ignored, and it
//! swallows device errors: a failed call leaves the machine where it is.

use crate::audio::{AudioError, MicBackend};
use vstd::prelude::*;

verus! {

#[derive(Debug, Clone, Copy, PartialEq, Eq, Structural)]
pub enum Mode {
    MuteToggle,
    PushToTalk,
}

impl Default for Mode {
    fn default() -> (r: Self)
        ensures
            r == Mode::MuteToggle,
    {
        Mode::MuteToggle
    }
}

impl Mode {
    /// Whether the microphone is muted while nobody does anything.
    pub open spec fn rests_muted(self) -> bool {
        self == Mode::PushToTalk
    }

    fn resting(self) -> (r: bool)
        ensures
            r == self.rests_muted(),
    {
        matches!(self, Mode::PushToTalk)
    }
}

/// What the hotkey did.
#[derive(Debug, Clone, Copy, PartialEq, Eq, Structural)]
pub enum KeyEdge {
    Down,
    Up,
}

/// What the stuck-key watchdog sees when it looks.
#[derive(Debug, Clone, Copy, PartialEq, Eq, Structural)]
pub struct KeyObservation {
    pub mode: Mode,
    /// Whether the machine believes the hotkey to be held.
    pub held: bool,
    /// Whether the bound key is held in fact; nothing, if no key is bound.
    pub physically_down: Option<bool>,
}

impl KeyObservation {
    /// A hold that nothing will end: Push to Talk is live, and no bound key is
    /// held down. Mute Toggle never needs a release, because its hold only tells
    /// auto-repeat apart.
    pub open spec fn is_stuck(self) -> bool {
        &&& self.mode == Mode::PushToTalk
        &&& self.held
        &&& self.physically_down != Some(true)
    }

    /// Whether the watchdog must release the key.
    pub fn release_required(&self) -> (r: bool)
        ensures
            r == self.is_stuck(),
    {
        let really_down = match self.physically_down {
            Some(down) => down,
            None => false,
        };
        matches!(self.mode, Mode::PushToTalk) && self.held && !really_down
    }
}

/// `post` is what a mute write of `muted` made of `pre`, whether it worked or
/// not.
pub open spec fn wrote<M: MicBackend>(pre: M, muted: bool, post: M) -> bool {
    exists|r: Result<(), AudioError>| #[trigger] pre.writes_muted(muted, &post, r)
}

/// `post` is what flipping the mute made of `pre`: a write of the opposite of
/// what was read, or nothing if the read failed.
pub open spec fn flipped<M: MicBackend>(pre: M, post: M) -> bool {
    exists|read: Result<bool, AudioError>| #[trigger]
        pre.reads_muted(read) && match read {
            Ok(muted) => wrote(pre, !muted, post),
            Err(_) => post == pre,
        }
}

/// Drives a microphone by a mode and the edges of one key.
pub struct ModeMachine<M> {
    pub mic: M,
    pub mode: Mode,
    /// Whether the hotkey is held, as far as its edges say.
    pub held: bool,
}

impl<M: MicBackend> ModeMachine<M> {
    /// What one edge of the hotkey does. An edge that is no change does nothing.
    /// A press flips the mute in Mute Toggle, and unmutes in Push to Talk; a
    /// release mutes in Push to Talk, and only in Push to Talk.
    pub open spec fn steps_to(self, edge: KeyEdge, post: Self) -> bool {
        let down = edge == KeyEdge::Down;
        if self.held == down {
            post == self
        } else {
            &&& post.mode == self.mode
            &&& post.held == down
            &&& match self.mode {
                Mode::PushToTalk => wrote(self.mic, !down, post.mic),
                Mode::MuteToggle => if down {
                    flipped(self.mic, post.mic)
                } else {
                    post.mic == self.mic
                },
            }
        }
    }

    /// What a change of the mode does: any hold ends, and the microphone is put in
    /// the new mode's resting state.
    pub open spec fn enters(self, mode: Mode, post: Self) -> bool {
        &&& post.mode == mode
        &&& !post.held
        &&& wrote(self.mic, mode.rests_muted(), post.mic)
    }

    /// What leaving does, in either mode: the microphone is unmuted.
    pub open spec fn leaves(self, post: Self) -> bool {
        &&& wrote(self.mic, false, post.mic)
        &&& post == (ModeMachine { mic: post.mic, ..self })
    }

    /// What going back to rest does: the microphone is put in the mode's resting
    /// state, and a hold goes on.
    pub open spec fn settles(self, post: Self) -> bool {
        &&& wrote(self.mic, self.mode.rests_muted(), post.mic)
        &&& post == (ModeMachine { mic: post.mic, ..self })
    }

    /// What the manual mute switch does: it flips the mute in Mute Toggle, and
    /// does nothing in Push to Talk.
    pub open spec fn toggles(self, post: Self) -> bool {
        match self.mode {
            Mode::PushToTalk => post == self,
            Mode::MuteToggle => {
                &&& flipped(self.mic, post.mic)
                &&& post == (ModeMachine { mic: post.mic, ..self })
            },
        }
    }

    /// Takes the microphone over, and puts it in the mode's resting state.
    pub fn new(mic: M, mode: Mode) -> (r: Self)
        ensures
            r.mode == mode,
            !r.held,
            wrote(mic, mode.rests_muted(), r.mic),
    {
        let mut machine = ModeMachine { mic, mode, held: false };
        machine.reapply_resting_state();
        machine
    }

    pub fn mode(&self) -> (r: Mode)
        ensures
            r == self.mode,
    {
        self.mode
    }

    pub fn mic(&self) -> (r: &M)
        ensures
            *r == self.mic,
    {
        &self.mic
    }

    pub fn mic_mut(&mut self) -> (r: &mut M)
        ensures
            *r == old(self).mic,
            *final(self) == (ModeMachine { mic: *final(r), ..*old(self) }),
    {
        &mut self.mic
    }

    /// Whether the hotkey is held, as far as its edges say.
    pub fn is_held(&self) -> (r: bool)
        ensures
            r == self.held,
    {
        self.held
    }

    /// Whether the manual mute switch does anything: in Mute Toggle only.
    pub fn manual_controls_enabled(&self) -> (r: bool)
        ensures
            r == (self.mode == Mode::MuteToggle),
    {
        matches!(self.mode, Mode::MuteToggle)
    }

    /// Puts the microphone in the mode's resting state. A hold goes on.
    pub fn reapply_resting_state(&mut self)
        ensures
            old(self).settles(*final(self)),
            wrote(old(self).mic, old(self).mode.rests_muted(), final(self).mic),
            *final(self) == (ModeMachine { mic: final(self).mic, ..*old(self) }),
    {
        let _ = self.mic.set_muted(self.mode.resting());
    }

    /// Changes the mode. Any hold ends, and the new mode starts at rest.
    pub fn set_mode(&mut self, mode: Mode)
        ensures
            old(self).enters(mode, *final(self)),
    {
        self.mode = mode;
        self.held = false;
        self.reapply_resting_state();
    }

    /// Flips the mute. Does nothing if it can not be read.
    fn flip(&mut self)
        ensures
            flipped(old(self).mic, final(self).mic),
            *final(self) == (ModeMachine { mic: final(self).mic, ..*old(self) }),
    {
        match self.mic.is_muted() {
            Ok(muted) => {
                let _ = self.mic.set_muted(!muted);
            },
            Err(_) => {},
        }
    }

    /// The manual mute switch. It does nothing in Push to Talk.
    pub fn toggle_manual(&mut self)
        ensures
            old(self).toggles(*final(self)),
    {
        if self.manual_controls_enabled() {
            self.flip();
        }
    }

    /// Takes one edge of the hotkey.
    pub fn on_key(&mut self, edge: KeyEdge)
        ensures
            old(self).steps_to(edge, *final(self)),
    {
        let down = matches!(edge, KeyEdge::Down);
        if self.held == down {
            return;
        }
        self.held = down;
        match self.mode {
            Mode::PushToTalk => {
                let _ = self.mic.set_muted(!down);
            },
            Mode::MuteToggle => {
                if down {
                    self.flip();
                }
            },
        }
    }

    /// Unmutes on the way out, in either mode: nobody may be left muted by a
    /// program that is gone.
    pub fn shutdown(&mut self)
        ensures
            old(self).leaves(*final(self)),
            wrote(old(self).mic, false, final(self).mic),
            *final(self) == (ModeMachine { mic: final(self).mic, ..*old(self) }),
    {
        let _ = self.mic.set_muted(false);
    }
}

/// Microphones that do as they are told: for those that `good` holds of, a read
/// answers what `muted` says, and a write takes effect and leaves them good.
pub open spec fn faithful<M: MicBackend>(good: spec_fn(M) -> bool, muted: spec_fn(M) -> bool) -> bool {
    &&& forall|m: M, r: Result<bool, AudioError>| #[trigger]
        m.reads_muted(r) && good(m) ==> r == Ok::<bool, AudioError>(muted(m))
    &&& forall|pre: M, value: bool, post: M, r: Result<(), AudioError>| #[trigger]
        pre.writes_muted(value, &post, r) && good(pre) ==> good(post) && muted(post) == value
}

/// In Push to Talk, a machine whose microphone does as it is told is live
/// exactly while the key is held.
pub open spec fn live_only_while_held<M: MicBackend>(
    machine: ModeMachine<M>,
    good: spec_fn(M) -> bool,
    muted: spec_fn(M) -> bool,
) -> bool {
    &&& machine.mode == Mode::PushToTalk
    &&& good(machine.mic)
    &&& muted(machine.mic) == !machine.held
}

/// Machines, one after the other, each of which an edge made of the one before.
pub open spec fn is_run<M: MicBackend>(machines: Seq<ModeMachine<M>>, edges: Seq<KeyEdge>) -> bool {
    &&& machines.len() == edges.len() + 1
    &&& forall|i: int|
        0 <= i < edges.len() ==> (#[trigger] machines[i]).steps_to(edges[i], machines[i + 1])
}

/// Whatever the keyboard sends, Push to Talk stays live exactly while the key is
/// held.
pub proof fn push_to_talk_is_live_only_while_held<M: MicBackend>(
    machines: Seq<ModeMachine<M>>,
    edges: Seq<KeyEdge>,
    good: spec_fn(M) -> bool,
    muted: spec_fn(M) -> bool,
    i: int,
)
    requires
        faithful(good, muted),
        is_run(machines, edges),
        live_only_while_held(machines[0], good, muted),
        0 <= i < machines.len(),
    ensures
        live_only_while_held(machines[i], good, muted),
    decreases i,
{
    if i > 0 {
        push_to_talk_is_live_only_while_held(machines, edges, good, muted, i - 1);
        assert(machines[i - 1].steps_to(edges[i - 1], machines[i]));
    }
}

/// A mode that has just been entered is at rest: muted in Push to Talk, live in
/// Mute Toggle.
pub proof fn a_mode_starts_at_rest<M: MicBackend>(
    before: M,
    machine: ModeMachine<M>,
    good: spec_fn(M) -> bool,
    muted: spec_fn(M) -> bool,
)
    requires
        faithful(good, muted),
        good(before),
        !machine.held,
        wrote(before, machine.mode.rests_muted(), machine.mic),
    ensures
        muted(machine.mic) == machine.mode.rests_muted(),
        machine.mode == Mode::PushToTalk ==> live_only_while_held(machine, good, muted),
{
}

/// A press or a release that is repeated does nothing more: a keyboard's
/// auto-repeat is harmless, and so is a release that comes late.
pub proof fn a_repeated_edge_changes_nothing<M: MicBackend>(
    pre: ModeMachine<M>,
    edge: KeyEdge,
    mid: ModeMachine<M>,
    post: ModeMachine<M>,
)
    requires
        pre.steps_to(edge, mid),
        mid.steps_to(edge, post),
    ensures
        post == mid,
{
}

/// Whatever the device does, the machine follows the key and keeps its mode.
pub proof fn device_failures_never_derail_the_machine<M: MicBackend>(
    pre: ModeMachine<M>,
    edge: KeyEdge,
    post: ModeMachine<M>,
)
    requires
        pre.steps_to(edge, post),
    ensures
        post.mode == pre.mode,
        post.held == (edge == KeyEdge::Down),
{
}

/// Flipping the mute twice gives back what was there.
pub proof fn flipping_twice_restores_the_mute<M: MicBackend>(
    pre: M,
    mid: M,
    post: M,
    good: spec_fn(M) -> bool,
    muted: spec_fn(M) -> bool,
)
    requires
        faithful(good, muted),
        good(pre),
        flipped(pre, mid),
        flipped(mid, post),
    ensures
        muted(mid) == !muted(pre),
        muted(post) == muted(pre),
{
}

/// In Mute Toggle a full keystroke flips the mute exactly once: the release adds
/// nothing.
pub proof fn a_keystroke_flips_the_mute_once<M: MicBackend>(
    pre: ModeMachine<M>,
    pressed: ModeMachine<M>,
    released: ModeMachine<M>,
    good: spec_fn(M) -> bool,
    muted: spec_fn(M) -> bool,
)
    requires
        faithful(good, muted),
        good(pre.mic),
        pre.mode == Mode::MuteToggle,
        !pre.held,
        pre.steps_to(KeyEdge::Down, pressed),
        pressed.steps_to(KeyEdge::Up, released),
    ensures
        muted(pressed.mic) == !muted(pre.mic),
        released == (ModeMachine { held: false, ..pressed }),
{
}

/// Nobody is left muted: after [`ModeMachine::shutdown`] the microphone is live,
/// whatever the mode and whether or not the key is held.
pub proof fn leaving_restores_the_microphone<M: MicBackend>(
    pre: M,
    post: M,
    good: spec_fn(M) -> bool,
    muted: spec_fn(M) -> bool,
)
    requires
        faithful(good, muted),
        good(pre),
        wrote(pre, false, post),
    ensures
        !muted(post),
{
}

/// Which mode rests muted: Push to Talk does, Mute Toggle does not.
pub proof fn push_to_talk_rests_muted()
    ensures
        Mode::PushToTalk.rests_muted(),
        !Mode::MuteToggle.rests_muted(),
{
}

/// What an edge of the hotkey asks of the microphone, whatever that does with it.
/// In Push to Talk a press that begins a hold asks for one unmute, and the release
/// that ends it for one mute. In Mute Toggle the press asks for the opposite of
/// what was read, and the release for nothing. An edge that repeats the last asks
/// for nothing in either mode.
pub proof fn an_edge_asks_for_one_write<M: MicBackend>(
    pre: ModeMachine<M>,
    edge: KeyEdge,
    post: ModeMachine<M>,
)
    requires
        pre.steps_to(edge, post),
    ensures
        pre.mode == Mode::PushToTalk && !pre.held && edge == KeyEdge::Down ==> exists|
            r: Result<(), AudioError>,
        | #[trigger] pre.mic.writes_muted(false, &post.mic, r),
        pre.mode == Mode::PushToTalk && pre.held && edge == KeyEdge::Up ==> exists|
            r: Result<(), AudioError>,
        | #[trigger] pre.mic.writes_muted(true, &post.mic, r),
        pre.mode == Mode::MuteToggle && !pre.held && edge == KeyEdge::Down ==> flipped(
            pre.mic,
            post.mic,
        ),
        pre.mode == Mode::MuteToggle && edge == KeyEdge::Up ==> post.mic == pre.mic,
        pre.held == (edge == KeyEdge::Down) ==> post.mic == pre.mic,
        post.held == (edge == KeyEdge::Down),
        post.mode == pre.mode,
{
}

/// What flipping asks of the microphone: a write of the opposite of what was read,
/// and nothing at all if it could not be read.
pub proof fn flipping_asks_for_the_opposite<M: MicBackend>(pre: M, post: M)
    requires
        flipped(pre, post),
    ensures
        (forall|read: Result<bool, AudioError>| #[trigger] pre.reads_muted(read) ==> read is Err)
            ==> post == pre,
        (forall|read: Result<bool, AudioError>| #[trigger]
            pre.reads_muted(read) ==> read == Ok::<bool, AudioError>(true)) ==> exists|
            r: Result<(), AudioError>,
        | #[trigger] pre.writes_muted(false, &post, r),
        (forall|read: Result<bool, AudioError>| #[trigger]
            pre.reads_muted(read) ==> read == Ok::<bool, AudioError>(false)) ==> exists|
            r: Result<(), AudioError>,
        | #[trigger] pre.writes_muted(true, &post, r),
{
    let read = choose|read: Result<bool, AudioError>| #[trigger]
        pre.reads_muted(read) && match read {
            Ok(muted) => wrote(pre, !muted, post),
            Err(_) => post == pre,
        };
    assert(pre.reads_muted(read));
}

/// A mute write is one write of just that value.
pub proof fn a_mute_write_writes_its_value<M: MicBackend>(pre: M, muted: bool, post: M)
    ensures
        wrote(pre, muted, post) <==> exists|r: Result<(), AudioError>| #[trigger]
            pre.writes_muted(muted, &post, r),
{
}

/// Entering a mode asks for the mute of Push to Talk or the unmute of Mute Toggle,
/// ends any hold, and leaves the machine in that mode.
pub proof fn entering_a_mode_asks_for_its_rest<M: MicBackend>(
    pre: ModeMachine<M>,
    mode: Mode,
    post: ModeMachine<M>,
)
    requires
        pre.enters(mode, post),
    ensures
        post.mode == mode,
        !post.held,
        mode == Mode::PushToTalk ==> exists|r: Result<(), AudioError>| #[trigger]
            pre.mic.writes_muted(true, &post.mic, r),
        mode == Mode::MuteToggle ==> exists|r: Result<(), AudioError>| #[trigger]
            pre.mic.writes_muted(false, &post.mic, r),
{
}

/// The manual switch flips the mute in Mute Toggle, and is dead in Push to Talk.
/// It touches neither the mode nor the hold.
pub proof fn the_manual_switch_is_for_mute_toggle<M: MicBackend>(
    pre: ModeMachine<M>,
    post: ModeMachine<M>,
)
    requires
        pre.toggles(post),
    ensures
        pre.mode == Mode::PushToTalk ==> post == pre,
        pre.mode == Mode::MuteToggle ==> flipped(pre.mic, post.mic),
        post.mode == pre.mode,
        post.held == pre.held,
{
}

/// What is stuck: a hold in Push to Talk while the bound key is not down, or while
/// none is bound; and nothing else.
pub proof fn a_hold_without_its_key_is_stuck(held: bool)
    ensures
        (KeyObservation { mode: Mode::PushToTalk, held, physically_down: Some(false) }).is_stuck()
            == held,
        (KeyObservation { mode: Mode::PushToTalk, held, physically_down: None }).is_stuck() == held,
        !(KeyObservation { mode: Mode::PushToTalk, held, physically_down: Some(true) }).is_stuck(),
        forall|seen: Option<bool>|
            !(#[trigger] (KeyObservation {
                mode: Mode::MuteToggle,
                held,
                physically_down: seen,
            }).is_stuck()),
{
}

/// Leaving asks the microphone for one unmute, whatever the mode and whether or
/// not a key is held. A microphone that does as it is told is then live.
pub proof fn leaving_unmutes<M: MicBackend>(
    pre: ModeMachine<M>,
    post: ModeMachine<M>,
    good: spec_fn(M) -> bool,
    muted: spec_fn(M) -> bool,
)
    requires
        pre.leaves(post),
    ensures
        exists|r: Result<(), AudioError>| #[trigger] pre.mic.writes_muted(false, &post.mic, r),
        faithful(good, muted) && good(pre.mic) ==> !muted(post.mic),
        post.mode == pre.mode,
        post.held == pre.held,
{
}

/// Going back to rest asks for the mute in Push to Talk and for the unmute in Mute
/// Toggle, and neither ends nor begins a hold.
pub proof fn settling_asks_for_the_modes_rest<M: MicBackend>(
    pre: ModeMachine<M>,
    post: ModeMachine<M>,
    good: spec_fn(M) -> bool,
    muted: spec_fn(M) -> bool,
)
    requires
        pre.settles(post),
    ensures
        pre.mode == Mode::PushToTalk ==> exists|r: Result<(), AudioError>| #[trigger]
            pre.mic.writes_muted(true, &post.mic, r),
        pre.mode == Mode::MuteToggle ==> exists|r: Result<(), AudioError>| #[trigger]
            pre.mic.writes_muted(false, &post.mic, r),
        faithful(good, muted) && good(pre.mic) ==> (muted(post.mic) <==> pre.mode
            == Mode::PushToTalk),
        post.mode == pre.mode,
        post.held == pre.held,
{
}

} // verus!
