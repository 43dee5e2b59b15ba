//! Recording a hotkey: a state machine fed with keyboard events.

use crate::hotkey::hook::{fires, HookEvent};
use crate::hotkey::keys::{bindable, is_modifier, modifier, vk_to_name};
use crate::hotkey::vk::VK_ESCAPE;
use crate::hotkey::Hotkey;
use vstd::prelude::*;

verus! {

/// What one event did to the recording.
#[derive(Debug, Clone, Copy, PartialEq)]
pub enum RecorderOutcome {
    /// Nothing is being recorded; the event was ignored.
    Idle,
    /// Recording; carries the combination so far, if a key is in it yet.
    InProgress(Option<Hotkey>),
    Committed(Hotkey),
    Cancelled,
}

/// Builds a hotkey up from keyboard events. It commits when the key that is no
/// modifier is released, so that the user can watch the combination grow.
pub struct Recorder {
    active: bool,
    pending: Option<Hotkey>,
}

/// The combination that an event shows.
pub open spec fn combination(ev: HookEvent) -> Hotkey {
    Hotkey { ctrl: ev.ctrl, alt: ev.alt, shift: ev.shift, win: ev.win, vk: ev.vk }
}

/// What an event does to a running recording that has `pending` so far.
pub open spec fn recorded(pending: Option<Hotkey>, ev: HookEvent) -> RecorderOutcome {
    if ev.vk == VK_ESCAPE {
        RecorderOutcome::Cancelled
    } else if !bindable(ev.vk) {
        RecorderOutcome::InProgress(pending)
    } else if ev.down {
        RecorderOutcome::InProgress(Some(combination(ev)))
    } else {
        RecorderOutcome::Committed(
            match pending {
                Some(hk) => hk,
                None => combination(ev),
            },
        )
    }
}

impl Default for Recorder {
    /// A recorder that is not running.
    fn default() -> (r: Self)
        ensures
            !r.running(),
            r.combo() is None,
    {
        Recorder { active: false, pending: None }
    }
}

impl Recorder {
    /// Whether a recording is running.
    pub closed spec fn running(&self) -> bool {
        self.active
    }

    /// The combination so far.
    pub closed spec fn combo(&self) -> Option<Hotkey> {
        self.pending
    }

    /// What a recorder may do with an event.
    pub open spec fn takes(self, ev: HookEvent, post: Recorder, r: RecorderOutcome) -> bool {
        if self.running() {
            &&& r == recorded(self.combo(), ev)
            &&& post.running() == (r is InProgress)
            &&& post.combo() == match r {
                RecorderOutcome::InProgress(combo) => combo,
                _ => None,
            }
        } else {
            r == RecorderOutcome::Idle && post == self
        }
    }

    /// Only a key that may be bound ever becomes part of a combination.
    #[verifier::type_invariant]
    spec fn keeps_bindable_keys(&self) -> bool {
        self.pending matches Some(hk) ==> bindable(hk.vk)
    }

    /// Starts a recording, from nothing.
    pub fn start(&mut self)
        ensures
            final(self).running(),
            final(self).combo() is None,
    {
        self.pending = None;
        self.active = true;
    }

    /// Stops the recording and forgets it.
    pub fn cancel(&mut self)
        ensures
            !final(self).running(),
            final(self).combo() is None,
    {
        self.pending = None;
        self.active = false;
    }

    /// Whether a recording is running.
    pub fn is_active(&self) -> (r: bool)
        ensures
            r == self.running(),
    {
        self.active
    }

    /// Takes one event. Escape cancels, and can not be bound. Modifiers and keys
    /// without a name leave the recording as it is. A press becomes the
    /// combination so far, and a release commits that combination: by then its
    /// modifiers may be up again.
    pub fn feed(&mut self, ev: &HookEvent) -> (r: RecorderOutcome)
        ensures
            old(self).takes(*ev, *final(self), r),
            !old(self).running() ==> r == RecorderOutcome::Idle && *final(self) == *old(self),
            old(self).running() ==> {
                &&& r == recorded(old(self).combo(), *ev)
                &&& final(self).running() == (r is InProgress)
                &&& final(self).combo() == match r {
                    RecorderOutcome::InProgress(combo) => combo,
                    _ => None,
                }
            },
            r matches RecorderOutcome::Committed(hk) ==> bindable(hk.vk),
            r matches RecorderOutcome::InProgress(Some(hk)) ==> bindable(hk.vk),
    {
        proof {
            use_type_invariant(&*self);
        }
        if !self.active {
            return RecorderOutcome::Idle;
        }
        if ev.vk == VK_ESCAPE {
            self.cancel();
            return RecorderOutcome::Cancelled;
        }
        if is_modifier(ev.vk) {
            return RecorderOutcome::InProgress(self.pending);
        }
        if vk_to_name(ev.vk).is_none() {
            return RecorderOutcome::InProgress(self.pending);
        }
        let hk = Hotkey { ctrl: ev.ctrl, alt: ev.alt, shift: ev.shift, win: ev.win, vk: ev.vk };
        if ev.down {
            self.pending = Some(hk);
            RecorderOutcome::InProgress(self.pending)
        } else {
            let committed = match self.pending {
                Some(pending) => pending,
                None => hk,
            };
            self.active = false;
            self.pending = None;
            RecorderOutcome::Committed(committed)
        }
    }
}

/// Pressing a key that may be bound and releasing it commits the combination of
/// the press, whatever modifiers are still held at the release.
pub proof fn press_then_release_commits_the_press(
    pending: Option<Hotkey>,
    press: HookEvent,
    release: HookEvent,
)
    requires
        bindable(press.vk),
        press.down,
        release.vk == press.vk,
        !release.down,
    ensures
        recorded(pending, press) == RecorderOutcome::InProgress(Some(combination(press))),
        recorded(Some(combination(press)), release) == RecorderOutcome::Committed(
            combination(press),
        ),
{
}

/// Modifiers alone never commit anything.
pub proof fn modifiers_alone_never_commit(pending: Option<Hotkey>, ev: HookEvent)
    requires
        modifier(ev.vk),
    ensures
        recorded(pending, ev) == RecorderOutcome::InProgress(pending),
{
}

/// What each event does to a running recording, by its fields. Escape cancels. A
/// key that may not be bound changes nothing. A press becomes the combination,
/// with the key and each modifier as the event has them. A release commits the
/// combination so far, or its own if there is none.
pub proof fn a_recording_takes_the_event_as_it_is(pending: Option<Hotkey>, ev: HookEvent)
    ensures
        ev.vk == 0x1B ==> recorded(pending, ev) is Cancelled,
        ev.vk != 0x1B && !bindable(ev.vk) ==> recorded(pending, ev)
            == RecorderOutcome::InProgress(pending),
        bindable(ev.vk) && ev.down ==> (recorded(pending, ev) matches RecorderOutcome::InProgress(
            Some(hk),
        ) && hk.vk == ev.vk && hk.ctrl == ev.ctrl && hk.alt == ev.alt && hk.shift == ev.shift
            && hk.win == ev.win),
        bindable(ev.vk) && !ev.down && pending is Some ==> recorded(pending, ev)
            == RecorderOutcome::Committed(pending->0),
        bindable(ev.vk) && !ev.down && pending is None ==> (recorded(pending, ev)
            matches RecorderOutcome::Committed(hk) && hk.vk == ev.vk && hk.ctrl == ev.ctrl && hk.alt
            == ev.alt && hk.shift == ev.shift && hk.win == ev.win),
{
}

/// A hotkey that was recorded from a press fires on that very press.
pub proof fn a_recorded_hotkey_fires_on_its_own_press(pending: Option<Hotkey>, press: HookEvent)
    requires
        bindable(press.vk),
        press.down,
    ensures
        recorded(pending, press) matches RecorderOutcome::InProgress(Some(hk)) && fires(hk, press),
{
}

/// A recorder that is not running ignores every event. One that is running stays
/// so until a key is released that may be bound, or Escape, and then has forgotten
/// what it had.
pub proof fn a_recording_runs_until_it_ends(
    pre: Recorder,
    ev: HookEvent,
    post: Recorder,
    r: RecorderOutcome,
)
    requires
        pre.takes(ev, post, r),
    ensures
        !pre.running() ==> r is Idle && !post.running() && post.combo() == pre.combo(),
        pre.running() ==> !(r is Idle) && (post.running() <==> !(ev.vk == 0x1B || (bindable(ev.vk)
            && !ev.down))),
        pre.running() && !post.running() ==> post.combo() is None,
{
}

/// The combination of a press is what the release of a key that may be bound
/// commits, whatever the two events say of the modifiers at the release.
pub proof fn what_is_pressed_is_what_is_recorded(
    first: Recorder,
    press: HookEvent,
    second: Recorder,
    shown: RecorderOutcome,
    release: HookEvent,
    third: Recorder,
    r: RecorderOutcome,
)
    requires
        first.running(),
        bindable(press.vk),
        press.down,
        bindable(release.vk),
        !release.down,
        first.takes(press, second, shown),
        second.takes(release, third, r),
    ensures
        shown matches RecorderOutcome::InProgress(Some(hk)) && hk.vk == press.vk && hk.ctrl
            == press.ctrl && hk.alt == press.alt && hk.shift == press.shift && hk.win == press.win,
        r matches RecorderOutcome::Committed(hk) && hk.vk == press.vk && hk.ctrl == press.ctrl
            && hk.alt == press.alt && hk.shift == press.shift && hk.win == press.win,
{
}

} // verus!
