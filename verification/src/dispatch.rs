//! What keyboard events do to the application, and what must follow.
//!
//! Everything here runs while the state is locked. What has to be done after
//! the lock is released comes back as a description, a [`Follow`].

use crate::audio::{error_text, opt_text, AudioError, MicBackend};
use crate::config::{Config, NotificationPrefs};
use crate::hotkey::hook::{fires, HookEvent};
use crate::hotkey::Hotkey;
use crate::modes::{
    faithful, live_only_while_held, wrote, KeyEdge, KeyObservation, Mode, ModeMachine,
};
use crate::state::{outcome_text, Core, Mic};
use vstd::prelude::*;

verus! {

/// How many milliseconds pass between two looks of the stuck-key watchdog.
pub const WATCHDOG_INTERVAL: u64 = 250;

/// What is left to do once the lock is released.
#[derive(Debug, Clone, Copy, PartialEq, Eq, Structural)]
pub enum Follow {
    Nothing,
    /// Render the state anew.
    Emit,
    /// Notify the user, change the tray icon, and render the state anew.
    MuteChanged { mode: Mode, muted: bool, prefs: NotificationPrefs },
}

/// What follows from the mute state read before and after an edge: a change is
/// announced, no change is not, and a read that failed is shown as an error.
pub open spec fn follow_of(
    before: Result<bool, AudioError>,
    after: Result<bool, AudioError>,
    mode: Mode,
    prefs: NotificationPrefs,
) -> Follow {
    match (before, after) {
        (Ok(before), Ok(after)) => if before != after {
            Follow::MuteChanged { mode, muted: after, prefs }
        } else {
            Follow::Nothing
        },
        _ => Follow::Emit,
    }
}

/// What follows from the mute state read before and after an edge.
pub fn follow_up(
    before: Result<bool, AudioError>,
    after: Result<bool, AudioError>,
    mode: Mode,
    prefs: NotificationPrefs,
) -> (r: Follow)
    ensures
        r == follow_of(before, after, mode, prefs),
{
    match (before, after) {
        (Ok(before), Ok(after)) => {
            if before != after {
                Follow::MuteChanged { mode, muted: after, prefs }
            } else {
                Follow::Nothing
            }
        },
        _ => Follow::Emit,
    }
}

/// What an edge of the hotkey makes of the application: the machine takes the
/// edge, and whether the microphone answered afterwards becomes the last error.
pub open spec fn edge_applied<H: MicBackend>(
    pre: Core<H>,
    edge: KeyEdge,
    post: Core<H>,
    before: Result<bool, AudioError>,
    after: Result<bool, AudioError>,
) -> bool {
    &&& pre.machine.mic.reads_muted(before)
    &&& pre.machine.steps_to(edge, post.machine)
    &&& post.machine.mic.reads_muted(after)
    &&& opt_text(post.last_error) == outcome_text(after)
    &&& post == (Core { machine: post.machine, last_error: post.last_error, ..pre })
}

/// Drives one edge of the hotkey through the machine, and says what follows.
pub fn apply_edge<H: MicBackend>(c: &mut Core<H>, edge: KeyEdge) -> (r: Follow)
    ensures
        exists|before: Result<bool, AudioError>, after: Result<bool, AudioError>|
            {
                &&& #[trigger] edge_applied(*old(c), edge, *final(c), before, after)
                &&& r == follow_of(
                    before,
                    after,
                    old(c).machine.mode,
                    old(c).config.notifications,
                )
            },
{
    let before = c.machine.mic().is_muted();
    c.machine.on_key(edge);
    let after = c.machine.mic().is_muted();
    c.record_outcome(&after);
    assert(edge_applied(*old(c), edge, *c, before, after));
    follow_up(before, after, c.machine.mode(), c.config.notifications)
}

/// The application once it has seen the bound combination in an event: a press
/// shows that the binding works, and the first one is noted.
pub open spec fn sighted<H: MicBackend>(c: Core<H>, ev: HookEvent) -> Core<H> {
    if ev.down && !c.config.hotkey_confirmed {
        Core {
            config: Config { hotkey_confirmed: true, ..c.config },
            save_due: true,
            ..c
        }
    } else {
        c
    }
}

/// The edge that an event is.
pub open spec fn edge_of(ev: HookEvent) -> KeyEdge {
    if ev.down {
        KeyEdge::Down
    } else {
        KeyEdge::Up
    }
}

/// What a keyboard event makes of the application, and what follows: nothing,
/// unless the binding fires on it; otherwise an edge of the hotkey.
pub open spec fn handles<H: MicBackend>(
    pre: Core<H>,
    ev: HookEvent,
    post: Core<H>,
    r: Follow,
) -> bool {
    if pre.config.hotkey matches Some(binding) && fires(binding, ev) {
        exists|before: Result<bool, AudioError>, after: Result<bool, AudioError>|
            {
                &&& #[trigger] edge_applied(sighted(pre, ev), edge_of(ev), post, before, after)
                &&& r == follow_of(before, after, pre.machine.mode, pre.config.notifications)
            }
    } else {
        r == Follow::Nothing && post == pre
    }
}

/// Takes one keyboard event. One that does not match the binding exactly does
/// nothing. One that does is an edge of the hotkey, and a press of it shows that
/// the binding works.
pub fn handle_hook_event<H: MicBackend>(c: &mut Core<H>, ev: &HookEvent) -> (r: Follow)
    ensures
        handles(*old(c), *ev, *final(c), r),
        old(c).config.hotkey matches Some(binding) ==> (binding.vk != ev.vk || binding.ctrl
            != ev.ctrl || binding.alt != ev.alt || binding.shift != ev.shift || binding.win
            != ev.win ==> r == Follow::Nothing && *final(c) == *old(c)),
        old(c).config.hotkey matches Some(binding) ==> (binding.vk == ev.vk && binding.ctrl
            == ev.ctrl && binding.alt == ev.alt && binding.shift == ev.shift && binding.win
            == ev.win ==> final(c).machine.held == ev.down && (ev.down
            ==> final(c).config.hotkey_confirmed)),
        !(old(c).config.hotkey matches Some(binding) && fires(binding, *ev)) ==> r
            == Follow::Nothing && *final(c) == *old(c),
        old(c).config.hotkey matches Some(binding) && fires(binding, *ev) ==> exists|
            before: Result<bool, AudioError>,
            after: Result<bool, AudioError>,
        |
            {
                &&& #[trigger] edge_applied(
                    sighted(*old(c), *ev),
                    edge_of(*ev),
                    *final(c),
                    before,
                    after,
                )
                &&& r == follow_of(
                    before,
                    after,
                    old(c).machine.mode,
                    old(c).config.notifications,
                )
            },
{
    let fired = match &c.config.hotkey {
        Some(binding) => crate::hotkey::hook::matches(binding, ev),
        None => false,
    };
    if !fired {
        return Follow::Nothing;
    }
    if ev.down {
        let _ = c.confirm_hotkey();
        apply_edge(c, KeyEdge::Down)
    } else {
        apply_edge(c, KeyEdge::Up)
    }
}

/// What a look of the watchdog makes of the application, whether it released the
/// key, and what follows.
pub open spec fn polls<H: MicBackend, F: Fn(u16) -> bool>(
    pre: Core<H>,
    probe: F,
    post: Core<H>,
    r: (bool, Follow),
) -> bool {
    &&& exists|seen: Option<bool>|
        {
            &&& #[trigger] probed(pre.config, probe, seen)
            &&& r.0 == (KeyObservation {
                mode: pre.machine.mode,
                held: pre.machine.held,
                physically_down: seen,
            }).is_stuck()
        }
    &&& if r.0 {
        exists|before: Result<bool, AudioError>, after: Result<bool, AudioError>|
            {
                &&& #[trigger] edge_applied(pre, KeyEdge::Up, post, before, after)
                &&& r.1 == follow_of(before, after, pre.machine.mode, pre.config.notifications)
            }
    } else {
        r.1 == Follow::Nothing && post == pre
    }
}

/// One look of the stuck-key watchdog, given a probe that says whether a key is
/// held in fact. If Push to Talk is live without a bound key being held, the key
/// is released as if it had come up. The probe is asked about the bound key and
/// no other. Reports whether the key was released, and what follows.
pub fn watchdog_poll<H: MicBackend, F: Fn(u16) -> bool>(
    c: &mut Core<H>,
    physically_down: F,
) -> (r: (bool, Follow))
    requires
        old(c).config.hotkey matches Some(binding) ==> physically_down.requires((binding.vk,)),
    ensures
        polls(*old(c), physically_down, *final(c), r),
        r.0 ==> old(c).machine.mode == Mode::PushToTalk && old(c).machine.held,
        old(c).machine.mode == Mode::PushToTalk && old(c).machine.held ==> match old(
            c,
        ).config.hotkey {
            None => r.0,
            Some(binding) => {
                &&& (forall|d: bool| #[trigger]
                    physically_down.ensures((binding.vk,), d) ==> !d) ==> r.0
                &&& (forall|d: bool| #[trigger]
                    physically_down.ensures((binding.vk,), d) ==> d) ==> !r.0
            },
        },
        exists|seen: Option<bool>|
            {
                &&& #[trigger] probed(old(c).config, physically_down, seen)
                &&& r.0 == (KeyObservation {
                    mode: old(c).machine.mode,
                    held: old(c).machine.held,
                    physically_down: seen,
                }).is_stuck()
            },
        !r.0 ==> r.1 == Follow::Nothing && *final(c) == *old(c),
        r.0 ==> exists|before: Result<bool, AudioError>, after: Result<bool, AudioError>|
            {
                &&& #[trigger] edge_applied(*old(c), KeyEdge::Up, *final(c), before, after)
                &&& r.1 == follow_of(
                    before,
                    after,
                    old(c).machine.mode,
                    old(c).config.notifications,
                )
            },
{
    let seen = match &c.config.hotkey {
        Some(binding) => Some(physically_down(binding.vk)),
        None => None,
    };
    assert(probed(old(c).config, physically_down, seen));
    let observation = KeyObservation {
        mode: c.machine.mode(),
        held: c.machine.is_held(),
        physically_down: seen,
    };
    if !observation.release_required() {
        return (false, Follow::Nothing);
    }
    (true, apply_edge(c, KeyEdge::Up))
}

/// `seen` is what the probe says of the bound key; nothing, if none is bound.
pub open spec fn probed<F: Fn(u16) -> bool>(config: Config, probe: F, seen: Option<bool>) -> bool {
    match config.hotkey {
        Some(binding) => seen matches Some(down) && probe.ensures((binding.vk,), down),
        None => seen is None,
    }
}

/// The banner for a keyboard hook that could not be installed.
pub open spec fn hook_failure_text(reason: Seq<char>) -> Seq<char> {
    "Hotkey inactive — Windows blocked the keyboard hook. Antivirus software is the usual cause; mugon cannot mute or unmute from the keyboard until it is allowed through. Everything else still works. ("@
        + reason + ")"@
}

/// The banner for a keyboard hook that could not be installed. What the user
/// needs to know stands in front, since the banner is cut off.
pub fn hook_failure_message(reason: &str) -> (r: String)
    ensures
        r@ == hook_failure_text(reason@),
{
    "Hotkey inactive — Windows blocked the keyboard hook. Antivirus software is the usual cause; mugon cannot mute or unmute from the keyboard until it is allowed through. Everything else still works. (".to_owned().concat(
    reason).concat(")")
}

/// What reporting a keyboard hook that could not be installed does.
pub open spec fn reports<H: MicBackend>(pre: Core<H>, reason: Seq<char>, post: Core<H>) -> bool {
    &&& opt_text(post.hook_error) == Some(hook_failure_text(reason))
    &&& post == (Core { hook_error: post.hook_error, ..pre })
}

/// Records that the keyboard hook could not be installed.
pub fn report_hook_failure<H: MicBackend>(c: &mut Core<H>, reason: &str)
    ensures
        reports(*old(c), reason@, *final(c)),
        opt_text(final(c).hook_error) == Some(hook_failure_text(reason@)),
        *final(c) == (Core { hook_error: final(c).hook_error, ..*old(c) }),
{
    c.hook_error = Some(hook_failure_message(reason));
}

/// What leaving does to the application.
pub open spec fn restores<H: MicBackend>(pre: Core<H>, post: Core<H>) -> bool {
    &&& pre.machine.leaves(post.machine)
    &&& post == (Core { machine: post.machine, ..pre })
}

/// Unmutes the microphone on the way out.
pub fn restore_microphone<H: MicBackend>(c: &mut Core<H>)
    ensures
        restores(*old(c), *final(c)),
        wrote(old(c).machine.mic, false, final(c).machine.mic),
        *final(c) == (Core {
            machine: ModeMachine { mic: final(c).machine.mic, ..old(c).machine },
            ..*old(c)
        }),
{
    c.machine.shutdown();
}

/// Whether a request with this exit code comes from the program itself.
pub open spec fn is_deliberate(code: Option<i32>) -> bool {
    code is Some
}

/// Whether a request to exit is granted. Closing the last window asks without an
/// exit code, and must not end a program that lives in the tray.
pub fn may_exit(code: Option<i32>) -> (r: bool)
    ensures
        r == is_deliberate(code),
        r == (code is Some),
{
    code.is_some()
}

/// The watchdog releases a key once and then settles: after a forced release
/// nothing looks stuck, whatever the probe says, and the real key-up that comes
/// late leaves the machine alone.
pub proof fn a_forced_release_settles<H: MicBackend>(
    pre: Core<H>,
    post: Core<H>,
    before: Result<bool, AudioError>,
    after: Result<bool, AudioError>,
    seen: Option<bool>,
)
    requires
        edge_applied(pre, KeyEdge::Up, post, before, after),
    ensures
        !(KeyObservation {
            mode: post.machine.mode,
            held: post.machine.held,
            physically_down: seen,
        }).is_stuck(),
        forall|late: ModeMachine<Mic<H>>| #[trigger]
            post.machine.steps_to(KeyEdge::Up, late) ==> late == post.machine,
{
}

/// The watchdog never touches Mute Toggle, nor a key that is held in fact, nor a
/// machine without a hold.
pub proof fn the_watchdog_acts_on_a_stuck_hold_only(observation: KeyObservation)
    ensures
        observation.mode == Mode::MuteToggle ==> !observation.is_stuck(),
        observation.physically_down == Some(true) ==> !observation.is_stuck(),
        !observation.held ==> !observation.is_stuck(),
{
}

/// A forced release mutes, on a microphone that does as it is told.
pub proof fn a_forced_release_mutes<H: MicBackend>(
    pre: Core<H>,
    post: Core<H>,
    before: Result<bool, AudioError>,
    after: Result<bool, AudioError>,
    good: spec_fn(Mic<H>) -> bool,
    muted: spec_fn(Mic<H>) -> bool,
)
    requires
        faithful(good, muted),
        live_only_while_held(pre.machine, good, muted),
        pre.machine.held,
        edge_applied(pre, KeyEdge::Up, post, before, after),
    ensures
        muted(post.machine.mic),
        !post.machine.held,
        follow_of(before, after, pre.machine.mode, pre.config.notifications)
            == (Follow::MuteChanged {
            mode: Mode::PushToTalk,
            muted: true,
            prefs: pre.config.notifications,
        }),
{
}

/// A press that ends the machine's rest never goes unannounced: the change of
/// the mute is, on a microphone that does as it is told. So the first sighting
/// of a binding always reaches the status line.
pub proof fn a_press_is_announced<H: MicBackend>(
    pre: Core<H>,
    post: Core<H>,
    before: Result<bool, AudioError>,
    after: Result<bool, AudioError>,
    good: spec_fn(Mic<H>) -> bool,
    muted: spec_fn(Mic<H>) -> bool,
)
    requires
        faithful(good, muted),
        good(pre.machine.mic),
        !pre.machine.held,
        pre.machine.mode == Mode::PushToTalk ==> muted(pre.machine.mic),
        edge_applied(pre, KeyEdge::Down, post, before, after),
    ensures
        follow_of(before, after, pre.machine.mode, pre.config.notifications)
            == (Follow::MuteChanged {
            mode: pre.machine.mode,
            muted: !muted(pre.machine.mic),
            prefs: pre.config.notifications,
        }),
        post.last_error is None,
{
}

/// The settings and the machine agree on the mode, and the hotkey keeps it so.
/// Nor does it touch the binding, or the standing error of a dead hook.
pub proof fn the_hotkey_changes_no_setting_but_its_confirmation<H: MicBackend>(
    pre: Core<H>,
    ev: HookEvent,
    post: Core<H>,
    before: Result<bool, AudioError>,
    after: Result<bool, AudioError>,
)
    requires
        edge_applied(sighted(pre, ev), edge_of(ev), post, before, after),
    ensures
        pre.config.mode == pre.machine.mode ==> post.config.mode == post.machine.mode,
        post.config == (Config {
            hotkey_confirmed: post.config.hotkey_confirmed,
            ..pre.config
        }),
        post.hook_error == pre.hook_error,
{
}

/// A keystroke on a microphone that does not answer is not passed over: the
/// reason becomes the last error, and is shown.
pub proof fn a_dead_microphone_is_reported<H: MicBackend>(
    pre: Core<H>,
    edge: KeyEdge,
    post: Core<H>,
    before: Result<bool, AudioError>,
    after: Result<bool, AudioError>,
)
    requires
        pre.machine.mic is Unavailable,
        edge_applied(pre, edge, post, before, after),
    ensures
        follow_of(before, after, pre.machine.mode, pre.config.notifications) == Follow::Emit,
        opt_text(post.last_error) == Some(error_text(AudioError::NoDevice)),
{
}

/// What follows from two reads of the mute: a change is announced with the new
/// state and with the mode and the preferences as they are, no change is not, and
/// a read that failed, be it the first or the second, is shown as an error.
pub proof fn changes_are_announced_and_nothing_else(
    before: bool,
    after: bool,
    e: AudioError,
    other: Result<bool, AudioError>,
    mode: Mode,
    prefs: NotificationPrefs,
)
    ensures
        before != after ==> (follow_of(Ok(before), Ok(after), mode, prefs)
            matches Follow::MuteChanged { mode: m, muted, prefs: p } && m == mode && muted == after
            && p.toast == prefs.toast && p.sound == prefs.sound),
        before == after ==> follow_of(Ok(before), Ok(after), mode, prefs) == Follow::Nothing,
        follow_of(Err(e), other, mode, prefs) == Follow::Emit,
        follow_of(other, Err(e), mode, prefs) == Follow::Emit,
{
}

/// A press of the bound key with exactly the bound modifiers drives the
/// microphone, whatever the binding is. In Mute Toggle it flips the mute; in Push
/// to Talk it makes the microphone live. It begins a hold, confirms the binding,
/// which is written if it is news, and is announced.
pub proof fn pressing_the_hotkey_drives_the_microphone<H: MicBackend>(
    pre: Core<H>,
    binding: Hotkey,
    ev: HookEvent,
    post: Core<H>,
    r: Follow,
    good: spec_fn(Mic<H>) -> bool,
    muted: spec_fn(Mic<H>) -> bool,
)
    requires
        faithful(good, muted),
        good(pre.machine.mic),
        pre.config.hotkey == Some(binding),
        ev.vk == binding.vk,
        ev.ctrl == binding.ctrl,
        ev.alt == binding.alt,
        ev.shift == binding.shift,
        ev.win == binding.win,
        ev.down,
        !pre.machine.held,
        handles(pre, ev, post, r),
    ensures
        pre.machine.mode == Mode::MuteToggle ==> muted(post.machine.mic) == !muted(
            pre.machine.mic,
        ),
        pre.machine.mode == Mode::PushToTalk ==> !muted(post.machine.mic),
        post.machine.held,
        post.machine.mode == pre.machine.mode,
        post.config.hotkey_confirmed,
        post.config.hotkey == Some(binding),
        post.save_due == (pre.save_due || !pre.config.hotkey_confirmed),
        post.last_error is None,
        muted(post.machine.mic) != muted(pre.machine.mic) ==> r == (Follow::MuteChanged {
            mode: pre.machine.mode,
            muted: muted(post.machine.mic),
            prefs: pre.config.notifications,
        }),
        muted(post.machine.mic) == muted(pre.machine.mic) ==> r == Follow::Nothing,
{
}

/// A release of the bound key with exactly the bound modifiers ends the hold. In
/// Push to Talk it mutes, and that is announced; in Mute Toggle it leaves the
/// microphone alone. It neither confirms the binding nor has anything written.
pub proof fn releasing_the_hotkey_ends_the_hold<H: MicBackend>(
    pre: Core<H>,
    binding: Hotkey,
    ev: HookEvent,
    post: Core<H>,
    r: Follow,
    good: spec_fn(Mic<H>) -> bool,
    muted: spec_fn(Mic<H>) -> bool,
)
    requires
        faithful(good, muted),
        good(pre.machine.mic),
        pre.config.hotkey == Some(binding),
        ev.vk == binding.vk,
        ev.ctrl == binding.ctrl,
        ev.alt == binding.alt,
        ev.shift == binding.shift,
        ev.win == binding.win,
        !ev.down,
        pre.machine.held,
        handles(pre, ev, post, r),
    ensures
        pre.machine.mode == Mode::PushToTalk ==> muted(post.machine.mic),
        pre.machine.mode == Mode::MuteToggle ==> post.machine.mic == pre.machine.mic,
        !post.machine.held,
        post.machine.mode == pre.machine.mode,
        post.config == pre.config,
        post.save_due == pre.save_due,
        muted(post.machine.mic) != muted(pre.machine.mic) ==> r == (Follow::MuteChanged {
            mode: pre.machine.mode,
            muted: true,
            prefs: pre.config.notifications,
        }),
        muted(post.machine.mic) == muted(pre.machine.mic) ==> r == Follow::Nothing,
{
}

/// Any other event is ignored entirely: one on another key, one with a modifier
/// more or less, and every event while nothing is bound.
pub proof fn any_other_event_is_ignored<H: MicBackend>(
    pre: Core<H>,
    ev: HookEvent,
    post: Core<H>,
    r: Follow,
)
    requires
        pre.config.hotkey matches Some(binding) ==> ev.vk != binding.vk || ev.ctrl != binding.ctrl
            || ev.alt != binding.alt || ev.shift != binding.shift || ev.win != binding.win,
        handles(pre, ev, post, r),
    ensures
        post == pre,
        r == Follow::Nothing,
{
}

/// A look of the watchdog goes by the bound key alone, whatever modifiers the
/// binding has. A hold in Push to Talk is released if the probe can only say that
/// the key is up, or if nothing is bound, and is kept if it can only say that the
/// key is down. Nothing is released without a hold, or in Mute Toggle.
pub proof fn the_watchdog_goes_by_the_bound_key<H: MicBackend, F: Fn(u16) -> bool>(
    pre: Core<H>,
    probe: F,
    post: Core<H>,
    r: (bool, Follow),
)
    requires
        polls(pre, probe, post, r),
    ensures
        pre.machine.mode == Mode::MuteToggle ==> !r.0,
        !pre.machine.held ==> !r.0,
        pre.machine.mode == Mode::PushToTalk && pre.machine.held && pre.config.hotkey is None
            ==> r.0,
        forall|binding: Hotkey|
            pre.machine.mode == Mode::PushToTalk && pre.machine.held && pre.config.hotkey == Some(
                binding,
            ) && (forall|d: bool| #[trigger] probe.ensures((binding.vk,), d) ==> !d) ==> r.0,
        forall|binding: Hotkey|
            pre.config.hotkey == Some(binding) && (forall|d: bool| #[trigger]
                probe.ensures((binding.vk,), d) ==> d) ==> !r.0,
        !r.0 ==> post == pre && r.1 == Follow::Nothing,
{
}

/// A hold that the watchdog releases ends as by the real key: the microphone is
/// muted, the hold is over, the change is announced, and no setting is touched.
pub proof fn the_watchdog_mutes_a_stuck_hold<H: MicBackend, F: Fn(u16) -> bool>(
    pre: Core<H>,
    probe: F,
    post: Core<H>,
    r: (bool, Follow),
    good: spec_fn(Mic<H>) -> bool,
    muted: spec_fn(Mic<H>) -> bool,
)
    requires
        faithful(good, muted),
        good(pre.machine.mic),
        polls(pre, probe, post, r),
        r.0,
    ensures
        muted(post.machine.mic),
        !post.machine.held,
        post.machine.mode == Mode::PushToTalk,
        post.config == pre.config,
        post.save_due == pre.save_due,
        post.hook_error == pre.hook_error,
        !muted(pre.machine.mic) ==> r.1 == (Follow::MuteChanged {
            mode: Mode::PushToTalk,
            muted: true,
            prefs: pre.config.notifications,
        }),
        muted(pre.machine.mic) ==> r.1 == Follow::Nothing,
{
}

/// The banner holds the reason, at its end and in brackets.
pub proof fn the_banner_ends_with_the_reason(reason: Seq<char>)
    ensures
        hook_failure_text(reason) =~= hook_failure_text(Seq::empty()).drop_last() + reason + ")"@,
        hook_failure_text(Seq::empty())
            == "Hotkey inactive — Windows blocked the keyboard hook. Antivirus software is the usual cause; mugon cannot mute or unmute from the keyboard until it is allowed through. Everything else still works. ("@
            + ")"@,
{
    reveal_strlit(")");
    let head =
        "Hotkey inactive — Windows blocked the keyboard hook. Antivirus software is the usual cause; mugon cannot mute or unmute from the keyboard until it is allowed through. Everything else still works. ("@;
    assert(head + Seq::<char>::empty() =~= head);
    assert(hook_failure_text(Seq::empty()).drop_last() =~= head);
}

/// A hook that failed is shown in its own banner, which holds the reason, and
/// changes nothing else: the last error stays.
pub proof fn a_failed_hook_is_shown<H: MicBackend>(pre: Core<H>, reason: Seq<char>, post: Core<H>)
    requires
        reports(pre, reason, post),
    ensures
        post.hook_error matches Some(text) && text@ == hook_failure_text(reason),
        post.machine == pre.machine,
        post.config == pre.config,
        post.last_error == pre.last_error,
        post.save_due == pre.save_due,
{
}

/// Leaving asks the microphone for one unmute, and changes neither the settings
/// nor what is shown.
pub proof fn leaving_restores_the_microphone<H: MicBackend>(pre: Core<H>, post: Core<H>)
    requires
        restores(pre, post),
    ensures
        exists|r: Result<(), AudioError>| #[trigger]
            pre.machine.mic.writes_muted(false, &post.machine.mic, r),
        post.config == pre.config,
        post.last_error == pre.last_error,
        post.hook_error == pre.hook_error,
        post.save_due == pre.save_due,
        post.machine.mode == pre.machine.mode,
{
}

/// Any exit code, zero included, is a request that is granted, and its absence is
/// none.
pub proof fn closing_a_window_is_no_exit(code: i32)
    ensures
        is_deliberate(Some(code)),
        !is_deliberate(None),
{
}

} // verus!
