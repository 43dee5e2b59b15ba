//! What a change of the mute is answered with: a toast, a beep, both or neither.

use crate::config::NotificationPrefs;
use crate::modes::Mode;
use vstd::prelude::*;

verus! {

/// One of the two sounds.
#[derive(Debug, Clone, Copy, PartialEq, Eq, Structural)]
pub enum Beep {
    Mute,
    Unmute,
}

/// What the user gets to see and to hear.
#[derive(Debug, Clone, Copy, PartialEq, Eq, Structural)]
pub struct Feedback {
    pub toast: bool,
    pub beep: Option<Beep>,
}

/// The feedback for a change of the mute. Toasts are for Mute Toggle alone:
/// Push to Talk would show one with every utterance. The beep is for both modes.
/// Each has its own setting.
pub open spec fn feedback(mode: Mode, muted: bool, prefs: NotificationPrefs) -> Feedback {
    Feedback {
        toast: prefs.toast && mode == Mode::MuteToggle,
        beep: if !prefs.sound {
            None
        } else if muted {
            Some(Beep::Mute)
        } else {
            Some(Beep::Unmute)
        },
    }
}

/// The feedback for a change of the mute.
pub fn on_mute_change(mode: Mode, muted: bool, prefs: &NotificationPrefs) -> (r: Feedback)
    ensures
        r == feedback(mode, muted, *prefs),
{
    let beep = if !prefs.sound {
        None
    } else if muted {
        Some(Beep::Mute)
    } else {
        Some(Beep::Unmute)
    };
    Feedback { toast: prefs.toast && matches!(mode, Mode::MuteToggle), beep }
}

/// Push to Talk never shows a toast.
pub proof fn push_to_talk_never_toasts(muted: bool, prefs: NotificationPrefs)
    ensures
        !feedback(Mode::PushToTalk, muted, prefs).toast,
{
}

/// Toasts and beeps do not depend on each other's setting.
pub proof fn toast_and_beep_are_independent(
    mode: Mode,
    muted: bool,
    a: NotificationPrefs,
    b: NotificationPrefs,
)
    ensures
        a.toast == b.toast ==> feedback(mode, muted, a).toast == feedback(mode, muted, b).toast,
        a.sound == b.sound ==> feedback(mode, muted, a).beep == feedback(mode, muted, b).beep,
{
}

/// When there is a toast and when a beep, and which: a toast for every change in
/// Mute Toggle if toasts are wanted, a beep for every change if sound is wanted,
/// and the beep says which way the change went.
pub proof fn the_user_gets_what_was_asked_for(mode: Mode, muted: bool, prefs: NotificationPrefs)
    ensures
        feedback(mode, muted, prefs).toast <==> prefs.toast && mode == Mode::MuteToggle,
        feedback(mode, muted, prefs).beep is Some <==> prefs.sound,
        prefs.sound && muted ==> feedback(mode, muted, prefs).beep == Some(Beep::Mute),
        prefs.sound && !muted ==> feedback(mode, muted, prefs).beep == Some(Beep::Unmute),
{
}

} // verus!
