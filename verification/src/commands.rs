//! What the settings window can ask for.
//!
//! Every command runs while the state is locked. Once the lock is released, the
//! state is rendered anew.

use crate::audio::fake::FakeMic;
use crate::audio::{error_text, opt_text, AudioError, DeviceInfo, MicBackend};
use crate::config::{Config, NotificationPrefs};
use crate::dispatch::{handles, Follow};
use crate::hotkey::hook::{set_binding, HookEvent};
use crate::hotkey::keys::{
    bindable_groups, group_keys, group_label, names_of, texts, KeyGroup, GROUPS,
};
use crate::hotkey::recorder::{Recorder, RecorderOutcome};
use crate::hotkey::Hotkey;
use crate::modes::{Mode, ModeMachine};
use crate::notify::feedback;
use crate::scalar::Scalar;
use crate::state::{mute_shown, outcome_text, AppState, Core};
use vstd::prelude::*;

verus! {

/// What there is to render.
pub fn get_state<H: MicBackend>(core: &Core<H>) -> (r: AppState)
    ensures
        exists|muted: Result<bool, AudioError>, volume: Result<Scalar, AudioError>|
            #![trigger core.machine.mic.reads_muted(muted), core.machine.mic.reads_volume(volume)]
            core.machine.mic.reads_muted(muted) && core.machine.mic.reads_volume(volume)
                && core.renders(muted, volume, r),
        r.selected_device == core.config.device_id,
        r.mode == core.machine.mode,
        r.notifications.toast == core.config.notifications.toast,
        r.notifications.sound == core.config.notifications.sound,
        r.autostart == core.config.autostart,
        r.last_error == core.last_error,
        r.hook_error == core.hook_error,
{
    core.snapshot()
}

/// `devices` is what the window gets of a listing: nothing, if it failed.
pub open spec fn devices_shown(
    listed: Result<Vec<DeviceInfo>, AudioError>,
    devices: Vec<DeviceInfo>,
) -> bool {
    match listed {
        Ok(found) => devices == found,
        Err(_) => devices@.len() == 0,
    }
}

/// The capture devices, or none if they can not be listed; the last error then
/// says why. This is dear, and to be asked for when the window opens and when
/// devices have come or gone.
pub fn list_devices<H: MicBackend>(core: &mut Core<H>) -> (r: Vec<DeviceInfo>)
    ensures
        exists|listed: Result<Vec<DeviceInfo>, AudioError>| #[trigger]
            old(core).machine.mic.lists(listed) && devices_shown(listed, r) && opt_text(
                final(core).last_error,
            ) == outcome_text(listed),
        *final(core) == (Core { last_error: final(core).last_error, ..*old(core) }),
{
    let result = core.machine.mic().list_devices();
    core.record_outcome(&result);
    let ghost listed = result;
    let devices = match result {
        Ok(devices) => devices,
        Err(_) => Vec::new(),
    };
    assert(old(core).machine.mic.lists(listed) && devices_shown(listed, devices));
    devices
}

/// Chooses a device, or the system default. Gives the mute state that this
/// leaves.
pub fn set_device<H: MicBackend>(core: &mut Core<H>, id: Option<String>) -> (r: bool)
    ensures
        old(core).chooses(id, *final(core), r),
        exists|selected: Result<(), AudioError>|
            {
                &&& #[trigger] old(core).turns_to(opt_text(id), final(core).machine, selected)
                &&& opt_text(final(core).last_error) == outcome_text(selected)
            },
        exists|read: Result<bool, AudioError>| #[trigger]
            final(core).machine.mic.reads_muted(read) && r == mute_shown(read),
        *final(core) == (Core {
            machine: final(core).machine,
            config: Config { device_id: id, ..old(core).config },
            last_error: final(core).last_error,
            save_due: true,
            ..*old(core)
        }),
{
    core.select_device(id)
}

/// Changes the mode. Gives the mute state that this leaves.
pub fn set_mode<H: MicBackend>(core: &mut Core<H>, mode: Mode) -> (r: bool)
    ensures
        old(core).applies(mode, *final(core), r),
        old(core).machine.enters(mode, final(core).machine),
        exists|read: Result<bool, AudioError>| #[trigger]
            final(core).machine.mic.reads_muted(read) && r == mute_shown(read) && opt_text(
                final(core).last_error,
            ) == outcome_text(read),
        *final(core) == (Core {
            machine: final(core).machine,
            config: Config { mode, ..old(core).config },
            last_error: final(core).last_error,
            save_due: true,
            ..*old(core)
        }),
{
    core.apply_mode(mode)
}

/// What a volume makes of the application.
pub open spec fn volume_set<H: MicBackend>(pre: Core<H>, level: Scalar, post: Core<H>) -> bool {
    &&& exists|r: Result<(), AudioError>| #[trigger]
        pre.machine.mic.writes_volume(level, &post.machine.mic, r) && opt_text(post.last_error)
            == outcome_text(r)
    &&& post == (Core {
        machine: ModeMachine { mic: post.machine.mic, ..pre.machine },
        last_error: post.last_error,
        ..pre
    })
}

/// Sets the volume. It is not written to the settings: Windows owns it.
pub fn set_volume<H: MicBackend>(core: &mut Core<H>, level: Scalar)
    ensures
        volume_set(*old(core), level, *final(core)),
        exists|r: Result<(), AudioError>| #[trigger]
            old(core).machine.mic.writes_volume(level, &final(core).machine.mic, r) && opt_text(
                final(core).last_error,
            ) == outcome_text(r),
        *final(core) == (Core {
            machine: ModeMachine { mic: final(core).machine.mic, ..old(core).machine },
            last_error: final(core).last_error,
            ..*old(core)
        }),
{
    let result = core.machine.mic_mut().set_volume(level);
    core.record_outcome(&result);
}

/// The manual mute switch. Gives the mute state that it leaves.
pub fn toggle_mute<H: MicBackend>(core: &mut Core<H>) -> (r: bool)
    ensures
        old(core).switches(*final(core), r),
        old(core).machine.toggles(final(core).machine),
        exists|read: Result<bool, AudioError>| #[trigger]
            final(core).machine.mic.reads_muted(read) && r == mute_shown(read) && opt_text(
                final(core).last_error,
            ) == outcome_text(read),
        *final(core) == (Core {
            machine: final(core).machine,
            last_error: final(core).last_error,
            ..*old(core)
        }),
{
    core.toggle_mute()
}

/// The keys that the picker offers.
pub fn list_bindable_keys() -> (r: Vec<KeyGroup>)
    ensures
        r@.len() == GROUPS,
        forall|g: int|
            #![trigger r@[g]]
            0 <= g < GROUPS ==> r@[g].label@ == group_label(g) && texts(r@[g].keys@) == names_of(
                group_keys(g),
            ),
{
    bindable_groups()
}

/// What a recorder and the binding in force are while a hotkey is being recorded,
/// at the start, and once that was given up: `running` says which.
pub open spec fn records(
    recorder: Recorder,
    binding: Option<Hotkey>,
    running: bool,
    otherwise: Option<Hotkey>,
) -> bool {
    &&& recorder.running() == running
    &&& recorder.combo() is None
    &&& binding == if running {
        None
    } else {
        otherwise
    }
}

/// Starts recording a hotkey. No binding is in force meanwhile.
pub fn begin_hotkey_recording(recorder: &mut Recorder, binding: &mut Option<Hotkey>)
    ensures
        records(*final(recorder), *final(binding), true, None),
        final(recorder).running(),
        final(recorder).combo() is None,
        *final(binding) is None,
{
    recorder.start();
    set_binding(binding, None);
}

/// Stops recording a hotkey. The binding of the settings is in force again.
pub fn cancel_hotkey_recording<H: MicBackend>(
    core: &Core<H>,
    recorder: &mut Recorder,
    binding: &mut Option<Hotkey>,
)
    ensures
        records(*final(recorder), *final(binding), false, core.config.hotkey),
        !final(recorder).running(),
        final(recorder).combo() is None,
        *final(binding) == core.config.hotkey,
{
    recorder.cancel();
    set_binding(binding, core.config.hotkey);
}

/// What clearing the binding makes of the application.
pub open spec fn cleared<H: MicBackend>(pre: Core<H>, post: Core<H>) -> bool {
    post == (Core {
        config: Config { hotkey: None, hotkey_confirmed: false, ..pre.config },
        save_due: true,
        ..pre
    })
}

/// Clears the binding. A binding that is set later must be seen firing anew.
pub fn clear_hotkey<H: MicBackend>(core: &mut Core<H>, binding: &mut Option<Hotkey>)
    ensures
        cleared(*old(core), *final(core)),
        *final(core) == (Core {
            config: Config { hotkey: None, hotkey_confirmed: false, ..old(core).config },
            save_due: true,
            ..*old(core)
        }),
        *final(binding) is None,
{
    core.config.hotkey = None;
    core.config.hotkey_confirmed = false;
    core.persist();
    set_binding(binding, None);
}

/// What the wanted notifications make of the application.
pub open spec fn prefs_set<H: MicBackend>(
    pre: Core<H>,
    toast: bool,
    sound: bool,
    post: Core<H>,
) -> bool {
    post == (Core {
        config: Config { notifications: NotificationPrefs { toast, sound }, ..pre.config },
        save_due: true,
        ..pre
    })
}

/// Says which notifications are wanted. This can not fail, and leaves the last
/// error as it is.
pub fn set_notification_prefs<H: MicBackend>(core: &mut Core<H>, toast: bool, sound: bool)
    ensures
        prefs_set(*old(core), toast, sound, *final(core)),
        *final(core) == (Core {
            config: Config {
                notifications: NotificationPrefs { toast, sound },
                ..old(core).config
            },
            save_due: true,
            ..*old(core)
        }),
{
    core.config.notifications.toast = toast;
    core.config.notifications.sound = sound;
    core.persist();
}

/// What a registration to run at login, or the undoing of one, makes of the
/// application.
pub open spec fn autostart_set<H: MicBackend>(
    pre: Core<H>,
    registered: Result<(), String>,
    enabled: bool,
    post: Core<H>,
) -> bool {
    post == match registered {
        Ok(_) => Core {
            config: Config { autostart: enabled, ..pre.config },
            last_error: None,
            save_due: true,
            ..pre
        },
        Err(e) => Core { last_error: Some(e), ..pre },
    }
}

/// Takes what came of registering the program to run at login, or of undoing it.
/// The settings hold what took effect, and the last error why it did not.
pub fn set_autostart<H: MicBackend>(
    core: &mut Core<H>,
    registered: Result<(), String>,
    enabled: bool,
) -> (r: Result<(), String>)
    ensures
        r == registered,
        autostart_set(*old(core), registered, enabled, *final(core)),
        *final(core) == match registered {
            Ok(_) => Core {
                config: Config { autostart: enabled, ..old(core).config },
                last_error: None,
                save_due: true,
                ..*old(core)
            },
            Err(e) => Core { last_error: Some(e), ..*old(core) },
        },
{
    match &registered {
        Ok(_) => {
            core.last_error = None;
            core.config.autostart = enabled;
            core.persist();
        },
        Err(e) => {
            core.last_error = Some(e.clone());
        },
    }
    registered
}

/// What the wanted notifications are set to is what the window shows next, each
/// for itself; it is to be written, and no other setting changes, nor the last
/// error.
pub proof fn preferences_are_shown_as_they_were_set<H: MicBackend>(
    pre: Core<H>,
    toast: bool,
    sound: bool,
    post: Core<H>,
    muted: Result<bool, AudioError>,
    volume: Result<Scalar, AudioError>,
    state: AppState,
)
    requires
        prefs_set(pre, toast, sound, post),
        post.renders(muted, volume, state),
    ensures
        state.notifications.toast == toast,
        state.notifications.sound == sound,
        post.config.notifications.toast == toast,
        post.config.notifications.sound == sound,
        post.save_due,
        post.config == (Config { notifications: post.config.notifications, ..pre.config }),
        post.last_error == pre.last_error,
        post.hook_error == pre.hook_error,
        post.machine == pre.machine,
{
}

/// The preferences that were set decide what the next change of the mute is
/// answered with.
pub proof fn preferences_decide_the_feedback<H: MicBackend>(
    pre: Core<H>,
    toast: bool,
    sound: bool,
    post: Core<H>,
    mode: Mode,
    muted: bool,
)
    requires
        prefs_set(pre, toast, sound, post),
    ensures
        feedback(mode, muted, post.config.notifications).toast <==> toast && mode
            == Mode::MuteToggle,
        feedback(mode, muted, post.config.notifications).beep is Some <==> sound,
{
}

/// Running at login is kept and shown as asked for if it took effect, and is left
/// as it was otherwise, with the reason as the last error.
pub proof fn autostart_is_shown_as_it_took_effect<H: MicBackend>(
    pre: Core<H>,
    registered: Result<(), String>,
    enabled: bool,
    post: Core<H>,
    muted: Result<bool, AudioError>,
    volume: Result<Scalar, AudioError>,
    state: AppState,
)
    requires
        autostart_set(pre, registered, enabled, post),
        post.renders(muted, volume, state),
    ensures
        registered is Ok ==> state.autostart == enabled && state.last_error is None
            && post.save_due,
        registered matches Err(reason) ==> state.autostart == pre.config.autostart && opt_text(
            state.last_error,
        ) == Some(reason@) && post.save_due == pre.save_due && post.config == pre.config,
        post.config == (Config { autostart: post.config.autostart, ..pre.config }),
        post.machine == pre.machine,
        post.hook_error == pre.hook_error,
{
}

/// A binding that was cleared is gone from the settings and from the window, and
/// fires on nothing.
pub proof fn a_cleared_binding_is_gone<H: MicBackend>(
    pre: Core<H>,
    post: Core<H>,
    muted: Result<bool, AudioError>,
    volume: Result<Scalar, AudioError>,
    state: AppState,
    ev: HookEvent,
    after: Core<H>,
    r: Follow,
)
    requires
        cleared(pre, post),
        post.renders(muted, volume, state),
        handles(post, ev, after, r),
    ensures
        post.config.hotkey is None,
        !post.config.hotkey_confirmed,
        post.save_due,
        post.last_error == pre.last_error,
        state.hotkey is None,
        r == Follow::Nothing,
        after == post,
        post.config == (Config { hotkey: None, hotkey_confirmed: false, ..pre.config }),
        post.machine == pre.machine,
{
}

/// A volume is handed to the microphone as it is, and to nothing else: no setting
/// changes, nothing is written, and mode and hold stay.
pub proof fn a_volume_goes_to_the_microphone_only<H: MicBackend>(
    pre: Core<H>,
    level: Scalar,
    post: Core<H>,
)
    requires
        volume_set(pre, level, post),
    ensures
        exists|r: Result<(), AudioError>|
            {
                &&& #[trigger] pre.machine.mic.writes_volume(level, &post.machine.mic, r)
                &&& r is Ok ==> post.last_error is None
                &&& r matches Err(e) ==> opt_text(post.last_error) == Some(error_text(e))
            },
        post.config == pre.config,
        post.save_due == pre.save_due,
        post.machine.mode == pre.machine.mode,
        post.machine.held == pre.machine.held,
        post.hook_error == pre.hook_error,
{
}

/// A volume that was set is the volume that is shown, moved into the range from
/// zero to one, on a microphone made of memory.
pub proof fn a_volume_is_shown_as_it_was_set(
    pre: Core<FakeMic>,
    level: Scalar,
    post: Core<FakeMic>,
    muted: Result<bool, AudioError>,
    volume: Result<Scalar, AudioError>,
    state: AppState,
)
    requires
        pre.machine.mic is Live,
        volume_set(pre, level, post),
        post.machine.mic.reads_volume(volume),
        post.renders(muted, volume, state),
    ensures
        level.bits <= 0x3F80_0000 ==> state.volume.bits == level.bits,
        0x3F80_0000 < level.bits <= 0x7F80_0000 ==> state.volume.bits == 0x3F80_0000,
        0x8000_0000 < level.bits <= 0xFF80_0000 ==> state.volume.bits == 0,
{
}

/// The devices that were listed are what the window gets, and none if they could
/// not be.
pub proof fn the_window_gets_the_listed_devices(
    listed: Result<Vec<DeviceInfo>, AudioError>,
    devices: Vec<DeviceInfo>,
)
    requires
        devices_shown(listed, devices),
    ensures
        listed matches Ok(found) ==> devices@ == found@,
        listed is Err ==> devices@.len() == 0,
{
}

/// While a hotkey is being recorded no binding is in force, so that pressing the
/// old one is no use of it; once that is given up, the binding of the settings is
/// in force again, and an event is no part of a recording any more.
pub proof fn a_recording_suspends_the_binding(
    recorder: Recorder,
    binding: Option<Hotkey>,
    configured: Option<Hotkey>,
    ev: HookEvent,
    post: Recorder,
    r: RecorderOutcome,
)
    requires
        recorder.takes(ev, post, r),
    ensures
        records(recorder, binding, true, configured) ==> binding is None && !(r is Idle),
        records(recorder, binding, false, configured) ==> binding == configured && r is Idle
            && post.combo() is None,
{
}

} // verus!
