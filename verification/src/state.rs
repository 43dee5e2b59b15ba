//! The state of the running application, and what the settings window shows of
//! it.

use crate::audio::{error_text, opt_text, AudioError, DeviceInfo, MicBackend};
use crate::config::{Config, NotificationPrefs};
use crate::hotkey::hook::{fires, HookEvent};
use crate::hotkey::keys::{
    bindable, is_modifier, key_name, modifier, name_leads_back_to_its_key, name_to_vk, named_key,
    named_key_bears_the_name, offered, offered_names_are_the_acceptable_ones, printable,
    vk_to_name,
};
use crate::hotkey::{hotkey_label, key_label, Hotkey};
use crate::modes::{faithful, wrote, KeyEdge, Mode, ModeMachine};
use crate::scalar::{one, Scalar, ONE_BITS};
use crate::text::{quoted, quoted_text};
use vstd::prelude::*;

verus! {

/// The event that carries an [`AppState`] to the settings window.
pub const STATE_CHANGED: &'static str = "state-changed";

/// For how many milliseconds startup waits for the audio worker.
pub const AUDIO_SPAWN_TIMEOUT: u64 = 5_000;

/// The microphone that the application has in fact. One that is not available is
/// a microphone like any other, on which every call fails.
pub enum Mic<H> {
    Live(H),
    Unavailable,
}

impl<H: MicBackend> Mic<H> {
    /// The worker to meter, if there is one.
    pub fn tap(&self) -> (r: Option<&H>)
        ensures
            r == match *self {
                Mic::Live(h) => Some(&h),
                Mic::Unavailable => None,
            },
    {
        match self {
            Mic::Live(h) => Some(h),
            Mic::Unavailable => None,
        }
    }

    /// The worker to watch devices come and go with. Without one there is
    /// nothing to watch.
    pub fn enable_hotplug(&self) -> (r: Result<&H, AudioError>)
        ensures
            r == match *self {
                Mic::Live(h) => Ok(&h),
                Mic::Unavailable => Err(AudioError::NoDevice),
            },
    {
        match self {
            Mic::Live(h) => Ok(h),
            Mic::Unavailable => Err(AudioError::NoDevice),
        }
    }
}

impl<H: MicBackend> MicBackend for Mic<H> {
    open spec fn lists(&self, r: Result<Vec<DeviceInfo>, AudioError>) -> bool {
        match *self {
            Mic::Live(h) => h.lists(r),
            Mic::Unavailable => r == Err::<Vec<DeviceInfo>, AudioError>(AudioError::NoDevice),
        }
    }

    open spec fn selects(
        &self,
        id: Option<Seq<char>>,
        post: &Self,
        r: Result<(), AudioError>,
    ) -> bool {
        match (*self, *post) {
            (Mic::Live(h), Mic::Live(p)) => h.selects(id, &p, r),
            (Mic::Unavailable, Mic::Unavailable) => r == Err::<(), AudioError>(
                AudioError::NoDevice,
            ),
            _ => false,
        }
    }

    open spec fn reads_muted(&self, r: Result<bool, AudioError>) -> bool {
        match *self {
            Mic::Live(h) => h.reads_muted(r),
            Mic::Unavailable => r == Err::<bool, AudioError>(AudioError::NoDevice),
        }
    }

    open spec fn writes_muted(
        &self,
        muted: bool,
        post: &Self,
        r: Result<(), AudioError>,
    ) -> bool {
        match (*self, *post) {
            (Mic::Live(h), Mic::Live(p)) => h.writes_muted(muted, &p, r),
            (Mic::Unavailable, Mic::Unavailable) => r == Err::<(), AudioError>(
                AudioError::NoDevice,
            ),
            _ => false,
        }
    }

    open spec fn reads_volume(&self, r: Result<Scalar, AudioError>) -> bool {
        match *self {
            Mic::Live(h) => h.reads_volume(r),
            Mic::Unavailable => r == Err::<Scalar, AudioError>(AudioError::NoDevice),
        }
    }

    open spec fn writes_volume(
        &self,
        level: Scalar,
        post: &Self,
        r: Result<(), AudioError>,
    ) -> bool {
        match (*self, *post) {
            (Mic::Live(h), Mic::Live(p)) => h.writes_volume(level, &p, r),
            (Mic::Unavailable, Mic::Unavailable) => r == Err::<(), AudioError>(
                AudioError::NoDevice,
            ),
            _ => false,
        }
    }

    open spec fn reads_peak(&self, r: Result<Scalar, AudioError>) -> bool {
        match *self {
            Mic::Live(h) => h.reads_peak(r),
            Mic::Unavailable => r == Err::<Scalar, AudioError>(AudioError::NoDevice),
        }
    }

    fn list_devices(&self) -> (r: Result<Vec<DeviceInfo>, AudioError>) {
        match self {
            Mic::Live(h) => h.list_devices(),
            Mic::Unavailable => Err(AudioError::NoDevice),
        }
    }

    fn select(&mut self, id: Option<&str>) -> (r: Result<(), AudioError>) {
        match self {
            Mic::Live(h) => h.select(id),
            Mic::Unavailable => Err(AudioError::NoDevice),
        }
    }

    fn is_muted(&self) -> (r: Result<bool, AudioError>) {
        match self {
            Mic::Live(h) => h.is_muted(),
            Mic::Unavailable => Err(AudioError::NoDevice),
        }
    }

    fn set_muted(&mut self, muted: bool) -> (r: Result<(), AudioError>) {
        match self {
            Mic::Live(h) => h.set_muted(muted),
            Mic::Unavailable => Err(AudioError::NoDevice),
        }
    }

    fn volume(&self) -> (r: Result<Scalar, AudioError>) {
        match self {
            Mic::Live(h) => h.volume(),
            Mic::Unavailable => Err(AudioError::NoDevice),
        }
    }

    fn set_volume(&mut self, level: Scalar) -> (r: Result<(), AudioError>) {
        match self {
            Mic::Live(h) => h.set_volume(level),
            Mic::Unavailable => Err(AudioError::NoDevice),
        }
    }

    fn peak(&self) -> (r: Result<Scalar, AudioError>) {
        match self {
            Mic::Live(h) => h.peak(),
            Mic::Unavailable => Err(AudioError::NoDevice),
        }
    }
}

/// Which of its four states the hotkey status line is in.
#[derive(Debug, Clone, Copy, PartialEq, Eq, Structural)]
pub enum HotkeyStatusKind {
    Inactive,
    NotSet,
    Bound,
    Confirmed,
}

/// The hotkey status line: what it means, and what it reads.
#[derive(Debug, Clone, PartialEq)]
pub struct HotkeyStatus {
    pub kind: HotkeyStatusKind,
    pub label: String,
}

/// A binding in the parts that the picker's controls show. The key travels by
/// name: that is what the picker offers, and what it hands back.
#[derive(Debug, Clone, PartialEq)]
pub struct HotkeyParts {
    pub ctrl: bool,
    pub alt: bool,
    pub shift: bool,
    pub win: bool,
    pub key: String,
}

impl HotkeyParts {
    /// Whether these are the parts of `hk`.
    pub open spec fn shows(&self, hk: Hotkey) -> bool {
        &&& self.ctrl == hk.ctrl
        &&& self.alt == hk.alt
        &&& self.shift == hk.shift
        &&& self.win == hk.win
        &&& self.key@ == key_label(hk.vk)
    }

    fn of(hk: &Hotkey) -> (r: HotkeyParts)
        ensures
            r.shows(*hk),
    {
        let key = match vk_to_name(hk.vk) {
            Some(name) => name,
            None => "?",
        };
        HotkeyParts { ctrl: hk.ctrl, alt: hk.alt, shift: hk.shift, win: hk.win, key: key.to_owned() }
    }
}

/// Everything the settings window renders. The list of devices is not here: it
/// is dear to make, and changes seldom.
#[derive(Debug, Clone, PartialEq)]
pub struct AppState {
    pub selected_device: Option<String>,
    pub mode: Mode,
    pub muted: bool,
    pub volume: Scalar,
    pub hotkey_is_bare_printable: bool,
    pub hotkey: Option<HotkeyParts>,
    pub hotkey_status: HotkeyStatus,
    pub manual_controls_enabled: bool,
    pub notifications: NotificationPrefs,
    pub autostart: bool,
    /// The last failure, or nothing if the last call that could fail did not.
    pub last_error: Option<String>,
    /// Why the keyboard hook is not running, if it is not.
    pub hook_error: Option<String>,
}

/// What the running application holds.
pub struct Core<H> {
    pub machine: ModeMachine<Mic<H>>,
    pub config: Config,
    /// The last thing that went wrong. It clears when something that can fail
    /// succeeds, and in no other way.
    pub last_error: Option<String>,
    /// Why the keyboard hook could not be installed. Never cleared: nothing can
    /// undo it.
    pub hook_error: Option<String>,
    /// Whether the settings have been changed and are still to be written.
    pub save_due: bool,
}

/// What a call leaves as the last error: its own, or none.
pub open spec fn outcome_text<T>(r: Result<T, AudioError>) -> Option<Seq<char>> {
    match r {
        Ok(_) => None,
        Err(e) => Some(error_text(e)),
    }
}

/// The mute state that a read stands for: one that fails counts as unmuted.
pub open spec fn mute_shown(read: Result<bool, AudioError>) -> bool {
    read matches Ok(muted) && muted
}

/// The volume that a read stands for: one that fails counts as full.
pub open spec fn volume_shown(read: Result<Scalar, AudioError>) -> Scalar {
    match read {
        Ok(level) => level,
        Err(_) => one(),
    }
}

fn muted_or_false(read: Result<bool, AudioError>) -> (r: bool)
    ensures
        r == mute_shown(read),
{
    match read {
        Ok(muted) => muted,
        Err(_) => false,
    }
}

fn copy_of(s: &Option<String>) -> (r: Option<String>)
    ensures
        r == *s,
{
    match s {
        Some(s) => Some(s.clone()),
        None => None,
    }
}

fn as_text(s: &Option<String>) -> (r: Option<&str>)
    ensures
        opt_text(r) == opt_text(*s),
{
    match s {
        Some(s) => Some(s.as_str()),
        None => None,
    }
}

/// Why a name is refused as the bound key, if it is.
pub open spec fn refusal_text(name: Seq<char>) -> Option<Seq<char>> {
    match named_key(name) {
        None => Some(quoted_text(name) + " is not a bindable key"@),
        Some(vk) => if modifier(vk) {
            Some(quoted_text(name) + " is a modifier and cannot be the bound key"@)
        } else {
            None
        },
    }
}

impl<H: MicBackend> Core<H> {
    /// What the hotkey status line means. A dead hook outranks everything: no
    /// press could ever be seen.
    pub open spec fn status_kind(self) -> HotkeyStatusKind {
        if self.hook_error is Some {
            HotkeyStatusKind::Inactive
        } else if self.config.hotkey is None {
            HotkeyStatusKind::NotSet
        } else if self.config.hotkey_confirmed {
            HotkeyStatusKind::Confirmed
        } else {
            HotkeyStatusKind::Bound
        }
    }

    /// What the hotkey status line reads.
    pub open spec fn status_label(self) -> Seq<char> {
        match self.status_kind() {
            HotkeyStatusKind::Inactive => "Inactive — keyboard hook blocked"@,
            HotkeyStatusKind::NotSet => "Not set"@,
            HotkeyStatusKind::Confirmed => "Confirmed"@,
            HotkeyStatusKind::Bound => "Bound — press "@ + hotkey_label(self.config.hotkey->0)
                + " to confirm"@,
        }
    }

    /// Whether `state` is what there is to render, given what the microphone
    /// answered.
    pub open spec fn renders(
        self,
        muted: Result<bool, AudioError>,
        volume: Result<Scalar, AudioError>,
        state: AppState,
    ) -> bool {
        &&& state.selected_device == self.config.device_id
        &&& state.mode == self.machine.mode
        &&& state.muted == mute_shown(muted)
        &&& state.volume == volume_shown(volume)
        &&& state.hotkey_is_bare_printable == match self.config.hotkey {
            Some(hk) => !hk.ctrl && !hk.alt && !hk.shift && !hk.win && printable(hk.vk),
            None => false,
        }
        &&& match self.config.hotkey {
            Some(hk) => state.hotkey matches Some(parts) && parts.shows(hk),
            None => state.hotkey is None,
        }
        &&& state.hotkey_status.kind == self.status_kind()
        &&& state.hotkey_status.label@ == self.status_label()
        &&& state.manual_controls_enabled == (self.machine.mode == Mode::MuteToggle)
        &&& state.notifications == self.config.notifications
        &&& state.autostart == self.config.autostart
        &&& state.last_error == self.last_error
        &&& state.hook_error == self.hook_error
    }

    /// What a note that the settings are to be written makes of the application.
    pub open spec fn notes_save(self, post: Self) -> bool {
        post == (Core { save_due: true, ..self })
    }

    /// What taking that note makes of the application, and whether there was one.
    pub open spec fn gives_save(self, post: Self, r: bool) -> bool {
        r == self.save_due && post == (Core { save_due: false, ..self })
    }

    /// What asking for the mute state makes of the application, and the answer.
    pub open spec fn asks(self, post: Self, r: bool) -> bool {
        &&& exists|read: Result<bool, AudioError>| #[trigger]
            self.machine.mic.reads_muted(read) && r == mute_shown(read) && opt_text(
                post.last_error,
            ) == outcome_text(read)
        &&& post == (Core { last_error: post.last_error, ..self })
    }

    /// What a change of the mode makes of the application, and the mute state that
    /// is reported.
    pub open spec fn applies(self, mode: Mode, post: Self, r: bool) -> bool {
        &&& self.machine.enters(mode, post.machine)
        &&& exists|read: Result<bool, AudioError>| #[trigger]
            post.machine.mic.reads_muted(read) && r == mute_shown(read) && opt_text(
                post.last_error,
            ) == outcome_text(read)
        &&& post == (Core {
            machine: post.machine,
            config: Config { mode, ..self.config },
            last_error: post.last_error,
            save_due: true,
            ..self
        })
    }

    /// What the manual switch makes of the application, and the mute state that is
    /// reported.
    pub open spec fn switches(self, post: Self, r: bool) -> bool {
        &&& self.machine.toggles(post.machine)
        &&& exists|read: Result<bool, AudioError>| #[trigger]
            post.machine.mic.reads_muted(read) && r == mute_shown(read) && opt_text(
                post.last_error,
            ) == outcome_text(read)
        &&& post == (Core { machine: post.machine, last_error: post.last_error, ..self })
    }

    /// What the choice of a device makes of the application, and the mute state
    /// that is reported.
    pub open spec fn chooses(self, id: Option<String>, post: Self, r: bool) -> bool {
        &&& exists|selected: Result<(), AudioError>|
            {
                &&& #[trigger] self.turns_to(opt_text(id), post.machine, selected)
                &&& opt_text(post.last_error) == outcome_text(selected)
            }
        &&& exists|read: Result<bool, AudioError>| #[trigger]
            post.machine.mic.reads_muted(read) && r == mute_shown(read)
        &&& post == (Core {
            machine: post.machine,
            config: Config { device_id: id, ..self.config },
            last_error: post.last_error,
            save_due: true,
            ..self
        })
    }

    /// What the picker's choice makes of the application, and why it is refused,
    /// if it is.
    pub open spec fn binds(
        self,
        ctrl: bool,
        alt: bool,
        shift: bool,
        win: bool,
        key: Option<Seq<char>>,
        post: Self,
        refusal: Option<Seq<char>>,
    ) -> bool {
        let refused = match key {
            None => None,
            Some(name) => refusal_text(name),
        };
        &&& refusal == refused
        &&& match refused {
            Some(text) => {
                &&& opt_text(post.last_error) == Some(text)
                &&& post == (Core { last_error: post.last_error, ..self })
            },
            None => post == (Core {
                config: Config {
                    hotkey: match key {
                        None => None,
                        Some(name) => Some(
                            Hotkey { ctrl, alt, shift, win, vk: named_key(name)->0 },
                        ),
                    },
                    hotkey_confirmed: false,
                    ..self.config
                },
                last_error: None,
                save_due: true,
                ..self
            }),
        }
    }

    /// What a sighting of the bound combination makes of the application, and
    /// whether it was the first.
    pub open spec fn confirms(self, post: Self, r: bool) -> bool {
        &&& r == (self.config.hotkey is Some && !self.config.hotkey_confirmed)
        &&& post == if r {
            Core {
                config: Config { hotkey_confirmed: true, ..self.config },
                save_due: true,
                ..self
            }
        } else {
            self
        }
    }

    /// The state of a start. Nothing is to be written yet, and the hook has not
    /// failed yet.
    pub fn new(
        machine: ModeMachine<Mic<H>>,
        config: Config,
        last_error: Option<String>,
    ) -> (r: Core<H>)
        ensures
            r == (Core { machine, config, last_error, hook_error: None, save_due: false }),
    {
        Core { machine, config, last_error, hook_error: None, save_due: false }
    }

    /// What there is to render, given what the microphone answered. A read that
    /// failed shows as unmuted, and as full volume.
    pub fn render(
        &self,
        muted: Result<bool, AudioError>,
        volume: Result<Scalar, AudioError>,
    ) -> (r: AppState)
        ensures
            self.renders(muted, volume, r),
            r.selected_device == self.config.device_id,
            r.mode == self.machine.mode,
            r.notifications.toast == self.config.notifications.toast,
            r.notifications.sound == self.config.notifications.sound,
            r.autostart == self.config.autostart,
            r.last_error == self.last_error,
            r.hook_error == self.hook_error,
    {
        let hotkey_is_bare_printable = match &self.config.hotkey {
            Some(hk) => hk.is_bare_printable(),
            None => false,
        };
        let hotkey = match &self.config.hotkey {
            Some(hk) => Some(HotkeyParts::of(hk)),
            None => None,
        };
        AppState {
            selected_device: copy_of(&self.config.device_id),
            mode: self.machine.mode(),
            muted: muted_or_false(muted),
            volume: match volume {
                Ok(level) => level,
                Err(_) => Scalar::from_bits(ONE_BITS),
            },
            hotkey_is_bare_printable,
            hotkey,
            hotkey_status: self.hotkey_status(),
            manual_controls_enabled: self.machine.manual_controls_enabled(),
            notifications: self.config.notifications,
            autostart: self.config.autostart,
            last_error: copy_of(&self.last_error),
            hook_error: copy_of(&self.hook_error),
        }
    }

    /// What there is to render now. Asks the microphone, and changes nothing:
    /// an error that was just recorded stays to be shown.
    pub fn snapshot(&self) -> (r: AppState)
        ensures
            exists|muted: Result<bool, AudioError>, volume: Result<Scalar, AudioError>|
                #![trigger self.machine.mic.reads_muted(muted), self.machine.mic.reads_volume(volume)]
                self.machine.mic.reads_muted(muted) && self.machine.mic.reads_volume(volume)
                    && self.renders(muted, volume, r),
            r.selected_device == self.config.device_id,
            r.mode == self.machine.mode,
            r.notifications.toast == self.config.notifications.toast,
            r.notifications.sound == self.config.notifications.sound,
            r.autostart == self.config.autostart,
            r.last_error == self.last_error,
            r.hook_error == self.hook_error,
    {
        let muted = self.machine.mic().is_muted();
        let volume = self.machine.mic().volume();
        let ghost read_muted = muted;
        let ghost read_volume = volume;
        let state = self.render(muted, volume);
        assert(self.machine.mic.reads_muted(read_muted) && self.machine.mic.reads_volume(
            read_volume,
        ));
        state
    }

    /// Folds the outcome of a call into the last error: a failure is remembered,
    /// and a success clears what was there.
    pub fn record_outcome<T>(&mut self, result: &Result<T, AudioError>)
        ensures
            opt_text(final(self).last_error) == outcome_text(*result),
            *final(self) == (Core { last_error: final(self).last_error, ..*old(self) }),
    {
        self.last_error = match result {
            Ok(_) => None,
            Err(e) => Some(e.message()),
        };
    }

    /// Asks the microphone for its mute state, records whether it answered, and
    /// gives the answer back.
    pub fn refresh_mic_health(&mut self) -> (r: bool)
        ensures
            old(self).asks(*final(self), r),
            exists|read: Result<bool, AudioError>| #[trigger]
                old(self).machine.mic.reads_muted(read) && r == mute_shown(read) && opt_text(
                    final(self).last_error,
                ) == outcome_text(read),
            *final(self) == (Core { last_error: final(self).last_error, ..*old(self) }),
    {
        let result = self.machine.mic().is_muted();
        self.record_outcome(&result);
        muted_or_false(result)
    }

    /// Notes that the settings are to be written.
    pub fn persist(&mut self)
        ensures
            old(self).notes_save(*final(self)),
            *final(self) == (Core { save_due: true, ..*old(self) }),
    {
        self.save_due = true;
    }

    /// Whether the settings are to be written; from now on they count as
    /// written.
    pub fn take_save(&mut self) -> (r: bool)
        ensures
            old(self).gives_save(*final(self), r),
            r == old(self).save_due,
            *final(self) == (Core { save_due: false, ..*old(self) }),
    {
        let due = self.save_due;
        self.save_due = false;
        due
    }

    /// Changes the mode, has the choice written, and reports the mute state that
    /// this leaves.
    pub fn apply_mode(&mut self, mode: Mode) -> (r: bool)
        ensures
            old(self).applies(mode, *final(self), r),
            old(self).machine.enters(mode, final(self).machine),
            exists|read: Result<bool, AudioError>| #[trigger]
                final(self).machine.mic.reads_muted(read) && r == mute_shown(read) && opt_text(
                    final(self).last_error,
                ) == outcome_text(read),
            *final(self) == (Core {
                machine: final(self).machine,
                config: Config { mode, ..old(self).config },
                last_error: final(self).last_error,
                save_due: true,
                ..*old(self)
            }),
    {
        self.machine.set_mode(mode);
        self.config.mode = mode;
        self.persist();
        self.refresh_mic_health()
    }

    /// The manual mute switch. Reports the mute state that it leaves.
    pub fn toggle_mute(&mut self) -> (r: bool)
        ensures
            old(self).switches(*final(self), r),
            old(self).machine.toggles(final(self).machine),
            exists|read: Result<bool, AudioError>| #[trigger]
                final(self).machine.mic.reads_muted(read) && r == mute_shown(read) && opt_text(
                    final(self).last_error,
                ) == outcome_text(read),
            *final(self) == (Core {
                machine: final(self).machine,
                last_error: final(self).last_error,
                ..*old(self)
            }),
    {
        self.machine.toggle_manual();
        self.refresh_mic_health()
    }

    /// What selecting a device does to the machine: the microphone turns to the
    /// device and, if it could, is put in the mode's resting state there.
    pub open spec fn turns_to(
        self,
        id: Option<Seq<char>>,
        post: ModeMachine<Mic<H>>,
        selected: Result<(), AudioError>,
    ) -> bool {
        &&& post == (ModeMachine { mic: post.mic, ..self.machine })
        &&& exists|mid: Mic<H>|
            {
                &&& #[trigger] self.machine.mic.selects(id, &mid, selected)
                &&& match selected {
                    Ok(_) => wrote(mid, self.machine.mode.rests_muted(), post.mic),
                    Err(_) => post.mic == mid,
                }
            }
    }

    /// Turns the microphone to a device, and puts it in the mode's resting state
    /// there: a device that has just arrived is in whatever state it was left
    /// in. The choice is kept even if the device is not there, so that it holds
    /// again when the device comes back; the last error then says why it does
    /// not hold now. Reports the mute state that this leaves.
    pub fn select_device(&mut self, id: Option<String>) -> (r: bool)
        ensures
            old(self).chooses(id, *final(self), r),
            exists|selected: Result<(), AudioError>|
                {
                    &&& #[trigger] old(self).turns_to(
                        opt_text(id),
                        final(self).machine,
                        selected,
                    )
                    &&& opt_text(final(self).last_error) == outcome_text(selected)
                },
            exists|read: Result<bool, AudioError>| #[trigger]
                final(self).machine.mic.reads_muted(read) && r == mute_shown(read),
            *final(self) == (Core {
                machine: final(self).machine,
                config: Config { device_id: id, ..old(self).config },
                last_error: final(self).last_error,
                save_due: true,
                ..*old(self)
            }),
    {
        let result = self.machine.mic_mut().select(as_text(&id));
        let ghost mid = self.machine.mic;
        if result.is_ok() {
            self.machine.reapply_resting_state();
        }
        assert(old(self).machine.mic.selects(opt_text(id), &mid, result));
        assert(old(self).turns_to(opt_text(id), self.machine, result));
        self.record_outcome(&result);
        self.config.device_id = id;
        self.persist();
        muted_or_false(self.machine.mic().is_muted())
    }

    /// The binding that the picker's choice makes, or why it makes none. No key
    /// is no binding.
    fn validate(
        &self,
        ctrl: bool,
        alt: bool,
        shift: bool,
        win: bool,
        key: Option<&str>,
    ) -> (r: Result<Option<Hotkey>, String>)
        ensures
            match key {
                None => r == Ok::<Option<Hotkey>, String>(None),
                Some(name) => match refusal_text(name@) {
                    Some(text) => r matches Err(e) && e@ == text,
                    None => r == Ok::<Option<Hotkey>, String>(
                        Some(Hotkey { ctrl, alt, shift, win, vk: named_key(name@)->0 }),
                    ),
                },
            },
    {
        match key {
            None => Ok(None),
            Some(name) => match name_to_vk(name) {
                None => Err(quoted(name).concat(" is not a bindable key")),
                Some(vk) => {
                    if is_modifier(vk) {
                        return Err(
                            quoted(name).concat(" is a modifier and cannot be the bound key"),
                        );
                    }
                    Ok(Some(Hotkey { ctrl, alt, shift, win, vk }))
                },
            },
        }
    }

    /// Binds what the picker chose, or clears the binding if it chose no key. A
    /// name that no key has is refused, and so is that of a modifier; the last
    /// error then says why, and nothing else changes. A new binding has not been
    /// seen firing yet, even if it differs from the old one by a modifier only.
    pub fn set_hotkey(
        &mut self,
        ctrl: bool,
        alt: bool,
        shift: bool,
        win: bool,
        key: Option<&str>,
    ) -> (r: Result<(), String>)
        ensures
            old(self).binds(
                ctrl,
                alt,
                shift,
                win,
                opt_text(key),
                *final(self),
                match r {
                    Ok(_) => None,
                    Err(e) => Some(e@),
                },
            ),
            r is Err <==> (key matches Some(name) && refusal_text(name@) is Some),
            match r {
                Err(e) => {
                    &&& Some(e@) == refusal_text(key->0@)
                    &&& final(self).last_error == Some(e)
                    &&& *final(self) == (Core {
                        last_error: final(self).last_error,
                        ..*old(self)
                    })
                },
                Ok(_) => {
                    &&& final(self).config.hotkey == match key {
                        None => None,
                        Some(name) => Some(
                            Hotkey { ctrl, alt, shift, win, vk: named_key(name@)->0 },
                        ),
                    }
                    &&& final(self).config.well_formed()
                    &&& *final(self) == (Core {
                        config: Config {
                            hotkey: final(self).config.hotkey,
                            hotkey_confirmed: false,
                            ..old(self).config
                        },
                        last_error: None,
                        save_due: true,
                        ..*old(self)
                    })
                },
            },
    {
        match self.validate(ctrl, alt, shift, win, key) {
            Ok(binding) => {
                self.last_error = None;
                self.config.hotkey = binding;
                self.config.hotkey_confirmed = false;
                self.persist();
                proof {
                    if let Some(name) = key {
                        named_key_bears_the_name(name@);
                    }
                }
                Ok(())
            },
            Err(e) => {
                self.last_error = Some(e.clone());
                Err(e)
            },
        }
    }

    /// Notes that the bound combination has been seen firing. Reports whether it
    /// was the first time: only then is anything changed, and to be written.
    pub fn confirm_hotkey(&mut self) -> (r: bool)
        ensures
            old(self).confirms(*final(self), r),
            r == (old(self).config.hotkey is Some && !old(self).config.hotkey_confirmed),
            *final(self) == if r {
                Core {
                    config: Config { hotkey_confirmed: true, ..old(self).config },
                    save_due: true,
                    ..*old(self)
                }
            } else {
                *old(self)
            },
    {
        if self.config.hotkey.is_none() || self.config.hotkey_confirmed {
            return false;
        }
        self.config.hotkey_confirmed = true;
        self.persist();
        true
    }

    /// The hotkey status line.
    pub fn hotkey_status(&self) -> (r: HotkeyStatus)
        ensures
            r.kind == self.status_kind(),
            r.label@ == self.status_label(),
    {
        if self.hook_error.is_some() {
            return HotkeyStatus {
                kind: HotkeyStatusKind::Inactive,
                label: "Inactive — keyboard hook blocked".to_owned(),
            };
        }
        match &self.config.hotkey {
            None => HotkeyStatus { kind: HotkeyStatusKind::NotSet, label: "Not set".to_owned() },
            Some(hk) => {
                if self.config.hotkey_confirmed {
                    HotkeyStatus {
                        kind: HotkeyStatusKind::Confirmed,
                        label: "Confirmed".to_owned(),
                    }
                } else {
                    HotkeyStatus {
                        kind: HotkeyStatusKind::Bound,
                        label: "Bound — press ".to_owned().concat(hk.display().as_str()).concat(
                            " to confirm",
                        ),
                    }
                }
            },
        }
    }
}

/// A dead hook outranks every other status: no binding can ever be confirmed.
pub proof fn a_dead_hook_outranks_every_status<H: MicBackend>(c: Core<H>)
    requires
        c.hook_error is Some,
    ensures
        c.status_kind() == HotkeyStatusKind::Inactive,
{
}

/// The picker offers exactly the keys that [`Core::set_hotkey`] takes.
pub proof fn every_offered_key_is_taken(name: Seq<char>)
    ensures
        offered(name) <==> refusal_text(name) is None,
{
    offered_names_are_the_acceptable_ones(name);
}

/// The binding that the picker shows is one that it can hand back unchanged.
pub proof fn a_shown_binding_can_be_set_again(hk: Hotkey, parts: HotkeyParts)
    requires
        bindable(hk.vk),
        parts.shows(hk),
    ensures
        refusal_text(parts.key@) is None,
        (Hotkey {
            ctrl: parts.ctrl,
            alt: parts.alt,
            shift: parts.shift,
            win: parts.win,
            vk: named_key(parts.key@)->0,
        }) == hk,
{
    name_leads_back_to_its_key(hk.vk);
}

/// A live microphone does as it is told if its worker does.
pub proof fn a_live_microphone_is_as_faithful_as_its_worker<H: MicBackend>(
    good: spec_fn(H) -> bool,
    muted: spec_fn(H) -> bool,
)
    requires
        faithful(good, muted),
    ensures
        faithful(
            |m: Mic<H>| m matches Mic::Live(h) && good(h),
            |m: Mic<H>| m matches Mic::Live(h) && muted(h),
        ),
{
}

/// A live microphone is steady if its worker is.
pub proof fn a_live_microphone_is_as_steady_as_its_worker<H: MicBackend>(
    good: spec_fn(H) -> bool,
    muted: spec_fn(H) -> bool,
)
    requires
        steady(good, muted),
    ensures
        steady(
            |m: Mic<H>| m matches Mic::Live(h) && good(h),
            |m: Mic<H>| m matches Mic::Live(h) && muted(h),
        ),
{
}

/// A device that has just been turned to is at rest: muted in Push to Talk, live
/// in Mute Toggle, whatever state it arrived in.
pub proof fn a_new_device_is_put_at_rest<H: MicBackend>(
    c: Core<H>,
    id: Option<Seq<char>>,
    post: ModeMachine<Mic<H>>,
    good: spec_fn(Mic<H>) -> bool,
    muted: spec_fn(Mic<H>) -> bool,
)
    requires
        faithful(good, muted),
        forall|mid: Mic<H>| #[trigger]
            c.machine.mic.selects(id, &mid, Ok::<(), AudioError>(())) ==> good(mid),
        c.turns_to(id, post, Ok::<(), AudioError>(())),
    ensures
        muted(post.mic) == post.mode.rests_muted(),
{
}

/// What can happen to the microphone while the application runs.
pub ghost enum Change {
    /// An edge of the hotkey, real or forced by the watchdog.
    Edge(KeyEdge),
    Mode(Mode),
    /// The manual mute switch.
    Toggle,
    /// Another device, or the system default, was chosen.
    Device(Option<Seq<char>>),
    Volume(Scalar),
    /// Anything that leaves the microphone and the machine alone.
    Nothing,
}

/// Whether an application may become `post` by a change.
pub open spec fn changes<H: MicBackend>(pre: Core<H>, change: Change, post: Core<H>) -> bool {
    match change {
        Change::Edge(edge) => pre.machine.steps_to(edge, post.machine),
        Change::Mode(mode) => pre.machine.enters(mode, post.machine),
        Change::Toggle => pre.machine.toggles(post.machine),
        Change::Device(id) => exists|selected: Result<(), AudioError>| #[trigger]
            pre.turns_to(id, post.machine, selected),
        Change::Volume(level) => {
            &&& exists|r: Result<(), AudioError>| #[trigger]
                pre.machine.mic.writes_volume(level, &post.machine.mic, r)
            &&& post.machine == (ModeMachine { mic: post.machine.mic, ..pre.machine })
        },
        Change::Nothing => post.machine == pre.machine,
    }
}

/// Microphones that do as they are told and are muted by nothing else: turning to
/// a device gives a good microphone in whatever mute state, but a selection that
/// fails leaves the mute as it was, and so does a volume write.
pub open spec fn steady<M: MicBackend>(good: spec_fn(M) -> bool, muted: spec_fn(M) -> bool) -> bool {
    &&& faithful(good, muted)
    &&& forall|pre: M, id: Option<Seq<char>>, post: M, r: Result<(), AudioError>| #[trigger]
        pre.selects(id, &post, r) && good(pre) ==> good(post) && (r is Err ==> muted(post)
            == muted(pre))
    &&& forall|pre: M, level: Scalar, post: M, r: Result<(), AudioError>| #[trigger]
        pre.writes_volume(level, &post, r) && good(pre) ==> good(post) && muted(post) == muted(pre)
}

/// In Push to Talk, a microphone that is live is so because the key is held.
pub open spec fn live_only_if_held<H: MicBackend>(
    c: Core<H>,
    good: spec_fn(Mic<H>) -> bool,
    muted: spec_fn(Mic<H>) -> bool,
) -> bool {
    &&& good(c.machine.mic)
    &&& c.machine.mode == Mode::PushToTalk && !muted(c.machine.mic) ==> c.machine.held
}

/// No change makes the microphone live in Push to Talk without a hold: neither a
/// key edge nor a forced release, neither a change of the mode nor the manual
/// switch, neither another device nor another volume.
pub proof fn no_change_opens_push_to_talk<H: MicBackend>(
    pre: Core<H>,
    change: Change,
    post: Core<H>,
    good: spec_fn(Mic<H>) -> bool,
    muted: spec_fn(Mic<H>) -> bool,
)
    requires
        steady(good, muted),
        live_only_if_held(pre, good, muted),
        changes(pre, change, post),
    ensures
        live_only_if_held(post, good, muted),
{
}

/// Applications, one after the other, each of which a change made of the one
/// before.
pub open spec fn is_history<H: MicBackend>(cores: Seq<Core<H>>, all: Seq<Change>) -> bool {
    &&& cores.len() == all.len() + 1
    &&& forall|i: int|
        0 <= i < all.len() ==> changes(cores[i], #[trigger] all[i], cores[i + 1])
}

/// Whatever happens, in whatever order, Push to Talk is never live without a
/// hold.
pub proof fn push_to_talk_is_never_live_without_a_hold<H: MicBackend>(
    cores: Seq<Core<H>>,
    all: Seq<Change>,
    good: spec_fn(Mic<H>) -> bool,
    muted: spec_fn(Mic<H>) -> bool,
    n: int,
)
    requires
        steady(good, muted),
        is_history(cores, all),
        live_only_if_held(cores[0], good, muted),
        0 <= n < cores.len(),
    ensures
        live_only_if_held(cores[n], good, muted),
        cores[n].machine.mode == Mode::PushToTalk && !cores[n].machine.held ==> muted(
            cores[n].machine.mic,
        ),
    decreases n,
{
    if n > 0 {
        push_to_talk_is_never_live_without_a_hold(cores, all, good, muted, n - 1);
        assert(changes(cores[n - 1], all[n - 1], cores[n - 1 + 1]));
        no_change_opens_push_to_talk(cores[n - 1], all[n - 1], cores[n], good, muted);
    }
}

/// What the settings window shows, field by field: the settings as they stand, the
/// machine's mode, what the microphone answered, and the errors as they stand.
pub proof fn the_window_shows_what_there_is<H: MicBackend>(
    c: Core<H>,
    muted: Result<bool, AudioError>,
    volume: Result<Scalar, AudioError>,
    state: AppState,
)
    requires
        c.renders(muted, volume, state),
    ensures
        opt_text(state.selected_device) == opt_text(c.config.device_id),
        state.mode == c.machine.mode,
        muted matches Ok(m) ==> state.muted == m,
        muted is Err ==> !state.muted,
        volume matches Ok(v) ==> state.volume.bits == v.bits,
        volume is Err ==> state.volume.bits == 0x3F80_0000,
        state.notifications.toast == c.config.notifications.toast,
        state.notifications.sound == c.config.notifications.sound,
        state.autostart == c.config.autostart,
        state.manual_controls_enabled <==> c.machine.mode == Mode::MuteToggle,
        opt_text(state.last_error) == opt_text(c.last_error),
        opt_text(state.hook_error) == opt_text(c.hook_error),
{
}

/// What the settings window shows of the binding: each modifier as the binding has
/// it, the key by its name, and a warning exactly for a key that is typed without
/// any modifier. Without a binding it shows none, and warns of none.
pub proof fn the_window_shows_the_binding<H: MicBackend>(
    c: Core<H>,
    muted: Result<bool, AudioError>,
    volume: Result<Scalar, AudioError>,
    state: AppState,
)
    requires
        c.renders(muted, volume, state),
    ensures
        c.config.hotkey is None ==> state.hotkey is None && !state.hotkey_is_bare_printable,
        c.config.hotkey matches Some(hk) ==> {
            &&& state.hotkey matches Some(parts)
            &&& parts.ctrl == hk.ctrl
            &&& parts.alt == hk.alt
            &&& parts.shift == hk.shift
            &&& parts.win == hk.win
            &&& key_name(hk.vk) matches Some(name) ==> parts.key@ == name
            &&& key_name(hk.vk) is None ==> parts.key@ == "?"@
            &&& state.hotkey_is_bare_printable <==> !hk.ctrl && !hk.alt && !hk.shift && !hk.win
                && printable(hk.vk)
        },
{
}

/// What the status line means and reads, in each of its four states.
pub proof fn the_status_line_says_where_the_binding_stands<H: MicBackend>(
    c: Core<H>,
    muted: Result<bool, AudioError>,
    volume: Result<Scalar, AudioError>,
    state: AppState,
)
    requires
        c.renders(muted, volume, state),
    ensures
        c.hook_error is Some ==> state.hotkey_status.kind == HotkeyStatusKind::Inactive
            && state.hotkey_status.label@ == "Inactive — keyboard hook blocked"@,
        c.hook_error is None && c.config.hotkey is None ==> state.hotkey_status.kind
            == HotkeyStatusKind::NotSet && state.hotkey_status.label@ == "Not set"@,
        c.hook_error is None && c.config.hotkey is Some && c.config.hotkey_confirmed
            ==> state.hotkey_status.kind == HotkeyStatusKind::Confirmed
            && state.hotkey_status.label@ == "Confirmed"@,
        c.hook_error is None && c.config.hotkey is Some && !c.config.hotkey_confirmed
            ==> state.hotkey_status.kind == HotkeyStatusKind::Bound && state.hotkey_status.label@
            == "Bound — press "@ + hotkey_label(c.config.hotkey->0) + " to confirm"@,
{
}

/// What a call leaves as the last error: nothing if it succeeded, and otherwise
/// what its own error reads.
pub proof fn the_last_error_is_the_calls_own<T>(r: Result<T, AudioError>)
    ensures
        r is Ok ==> outcome_text(r) is None,
        r matches Err(e) ==> outcome_text(r) == Some(error_text(e)),
{
}

/// The picker binds the key that bears the chosen name, with the modifiers as they
/// were chosen, each for itself. The binding is not confirmed yet, is to be
/// written, and clears the last error; nothing else changes.
pub proof fn the_picker_binds_the_key_of_that_name<H: MicBackend>(
    pre: Core<H>,
    ctrl: bool,
    alt: bool,
    shift: bool,
    win: bool,
    vk: u16,
    name: Seq<char>,
    post: Core<H>,
    refusal: Option<Seq<char>>,
)
    requires
        key_name(vk) == Some(name),
        !modifier(vk),
        pre.binds(ctrl, alt, shift, win, Some(name), post, refusal),
    ensures
        refusal is None,
        post.config.hotkey matches Some(hk) && hk.vk == vk && hk.ctrl == ctrl && hk.alt == alt
            && hk.shift == shift && hk.win == win,
        !post.config.hotkey_confirmed,
        post.save_due,
        post.last_error is None,
        post.machine == pre.machine,
        post.hook_error == pre.hook_error,
        post.config == (Config {
            hotkey: post.config.hotkey,
            hotkey_confirmed: false,
            ..pre.config
        }),
{
    name_leads_back_to_its_key(vk);
}

/// The picker refuses the name of a modifier and a name that no key bears. It says
/// which of the two it was, quoting the name, and changes nothing but the last
/// error.
pub proof fn the_picker_refuses_other_names<H: MicBackend>(
    pre: Core<H>,
    ctrl: bool,
    alt: bool,
    shift: bool,
    win: bool,
    name: Seq<char>,
    post: Core<H>,
    refusal: Option<Seq<char>>,
)
    requires
        pre.binds(ctrl, alt, shift, win, Some(name), post, refusal),
        forall|vk: u16| #[trigger] key_name(vk) == Some(name) ==> modifier(vk),
    ensures
        refusal is Some,
        opt_text(post.last_error) == refusal,
        (exists|vk: u16| key_name(vk) == Some(name)) ==> refusal == Some(
            quoted_text(name) + " is a modifier and cannot be the bound key"@,
        ),
        (forall|vk: u16| key_name(vk) != Some(name)) ==> refusal == Some(
            quoted_text(name) + " is not a bindable key"@,
        ),
        post.config == pre.config,
        post.machine == pre.machine,
        post.save_due == pre.save_due,
        post.hook_error == pre.hook_error,
{
    named_key_bears_the_name(name);
}

/// Choosing no key clears the binding, and can not be refused.
pub proof fn the_picker_clears_the_binding<H: MicBackend>(
    pre: Core<H>,
    ctrl: bool,
    alt: bool,
    shift: bool,
    win: bool,
    post: Core<H>,
    refusal: Option<Seq<char>>,
)
    requires
        pre.binds(ctrl, alt, shift, win, None, post, refusal),
    ensures
        refusal is None,
        post.config.hotkey is None,
        !post.config.hotkey_confirmed,
        post.save_due,
        post.last_error is None,
        post.machine == pre.machine,
{
}

/// What was bound is what fires and what is shown: after the picker has bound a
/// key, an event fires exactly if it is on that key with those modifiers, and the
/// window shows that name and those modifiers, not yet confirmed.
pub proof fn what_is_bound_is_what_fires_and_shows<H: MicBackend>(
    pre: Core<H>,
    ctrl: bool,
    alt: bool,
    shift: bool,
    win: bool,
    vk: u16,
    name: Seq<char>,
    post: Core<H>,
    refusal: Option<Seq<char>>,
    ev: HookEvent,
    muted: Result<bool, AudioError>,
    volume: Result<Scalar, AudioError>,
    state: AppState,
)
    requires
        key_name(vk) == Some(name),
        !modifier(vk),
        pre.binds(ctrl, alt, shift, win, Some(name), post, refusal),
        post.renders(muted, volume, state),
    ensures
        fires(post.config.hotkey->0, ev) <==> ev.vk == vk && ev.ctrl == ctrl && ev.alt == alt
            && ev.shift == shift && ev.win == win,
        state.hotkey matches Some(parts) && parts.key@ == name && parts.ctrl == ctrl && parts.alt
            == alt && parts.shift == shift && parts.win == win,
        state.hotkey_status.kind != HotkeyStatusKind::Confirmed,
{
    name_leads_back_to_its_key(vk);
}

/// A sighting confirms a binding once, and then is no news. Without a binding
/// there is nothing to confirm. Nothing but the confirmation changes, and it is
/// written only when it is news.
pub proof fn a_binding_is_confirmed_once<H: MicBackend>(
    pre: Core<H>,
    post: Core<H>,
    first: bool,
    later: Core<H>,
    second: bool,
)
    requires
        pre.confirms(post, first),
        post.confirms(later, second),
    ensures
        first <==> pre.config.hotkey is Some && !pre.config.hotkey_confirmed,
        pre.config.hotkey is Some ==> post.config.hotkey_confirmed,
        pre.config.hotkey is None ==> post == pre,
        first ==> post.save_due,
        !first ==> post == pre,
        post.config.hotkey == pre.config.hotkey,
        post.machine == pre.machine,
        post.last_error == pre.last_error,
        !second,
        later == post,
{
}

/// A mode that was chosen is the mode of the machine and of the settings, is to be
/// written, and is what the window shows; the mute that is reported and shown is
/// the mode's rest. No other setting changes.
pub proof fn a_chosen_mode_takes_effect<H: MicBackend>(
    pre: Core<H>,
    mode: Mode,
    post: Core<H>,
    r: bool,
    read: Result<bool, AudioError>,
    volume: Result<Scalar, AudioError>,
    state: AppState,
    good: spec_fn(Mic<H>) -> bool,
    muted: spec_fn(Mic<H>) -> bool,
)
    requires
        faithful(good, muted),
        good(pre.machine.mic),
        pre.applies(mode, post, r),
        post.machine.mic.reads_muted(read),
        post.renders(read, volume, state),
    ensures
        post.machine.mode == mode,
        !post.machine.held,
        post.config.mode == mode,
        post.save_due,
        post.last_error is None,
        post.config == (Config { mode: post.config.mode, ..pre.config }),
        post.hook_error == pre.hook_error,
        mode == Mode::PushToTalk ==> r && state.muted && !state.manual_controls_enabled,
        mode == Mode::MuteToggle ==> !r && !state.muted && state.manual_controls_enabled,
        state.mode == mode,
{
}

/// The manual switch reports and shows the mute that it leaves: the opposite in
/// Mute Toggle, the same in Push to Talk. It changes no setting, and has nothing
/// written.
pub proof fn the_switch_shows_what_it_leaves<H: MicBackend>(
    pre: Core<H>,
    post: Core<H>,
    r: bool,
    read: Result<bool, AudioError>,
    volume: Result<Scalar, AudioError>,
    state: AppState,
    good: spec_fn(Mic<H>) -> bool,
    muted: spec_fn(Mic<H>) -> bool,
)
    requires
        faithful(good, muted),
        good(pre.machine.mic),
        pre.switches(post, r),
        post.machine.mic.reads_muted(read),
        post.renders(read, volume, state),
    ensures
        pre.machine.mode == Mode::MuteToggle ==> r == !muted(pre.machine.mic),
        pre.machine.mode == Mode::PushToTalk ==> r == muted(pre.machine.mic),
        state.muted == r,
        muted(post.machine.mic) == r,
        post.config == pre.config,
        post.save_due == pre.save_due,
        post.machine.mode == pre.machine.mode,
        post.machine.held == pre.machine.held,
{
}

/// A chosen device is kept as chosen, is to be written, and is what the window
/// shows, whether or not it could be had. The last error says whether it could,
/// and no other setting changes, nor does the mode or the hold.
pub proof fn a_chosen_device_is_kept<H: MicBackend>(
    pre: Core<H>,
    id: Option<String>,
    post: Core<H>,
    r: bool,
    read: Result<bool, AudioError>,
    volume: Result<Scalar, AudioError>,
    state: AppState,
)
    requires
        pre.chooses(id, post, r),
        post.renders(read, volume, state),
    ensures
        opt_text(post.config.device_id) == opt_text(id),
        opt_text(state.selected_device) == opt_text(id),
        post.save_due,
        post.config == (Config { device_id: post.config.device_id, ..pre.config }),
        post.machine.mode == pre.machine.mode,
        post.machine.held == pre.machine.held,
        post.hook_error == pre.hook_error,
        exists|mid: Mic<H>, selected: Result<(), AudioError>|
            {
                &&& #[trigger] pre.machine.mic.selects(opt_text(id), &mid, selected)
                &&& selected is Ok ==> post.last_error is None
                &&& selected matches Err(e) ==> opt_text(post.last_error) == Some(error_text(e))
                    && post.machine.mic == mid
            },
{
    let selected = choose|selected: Result<(), AudioError>|
        {
            &&& #[trigger] pre.turns_to(opt_text(id), post.machine, selected)
            &&& opt_text(post.last_error) == outcome_text(selected)
        };
    assert(pre.turns_to(opt_text(id), post.machine, selected));
}

/// On a microphone that answers, choosing a device reports the mode's rest.
pub proof fn a_chosen_device_reports_the_rest<H: MicBackend>(
    pre: Core<H>,
    id: Option<String>,
    post: Core<H>,
    r: bool,
    good: spec_fn(Mic<H>) -> bool,
    muted: spec_fn(Mic<H>) -> bool,
)
    requires
        steady(good, muted),
        good(pre.machine.mic),
        pre.chooses(id, post, r),
        forall|mid: Mic<H>, s: Result<(), AudioError>| #[trigger]
            pre.machine.mic.selects(opt_text(id), &mid, s) ==> s is Ok,
    ensures
        r == muted(post.machine.mic),
        pre.machine.mode == Mode::PushToTalk ==> r,
        pre.machine.mode == Mode::MuteToggle ==> !r,
{
}

/// Asking for the mute state gives what the microphone says, or unmuted if it does
/// not say; the last error is cleared or replaced, and nothing else changes.
pub proof fn asking_gives_what_the_microphone_says<H: MicBackend>(
    pre: Core<H>,
    post: Core<H>,
    r: bool,
    good: spec_fn(Mic<H>) -> bool,
    muted: spec_fn(Mic<H>) -> bool,
)
    requires
        faithful(good, muted),
        pre.asks(post, r),
    ensures
        good(pre.machine.mic) ==> r == muted(pre.machine.mic) && post.last_error is None,
        pre.machine.mic is Unavailable ==> !r && opt_text(post.last_error) == Some(
            "no capture device available"@,
        ),
        post.machine == pre.machine,
        post.config == pre.config,
        post.hook_error == pre.hook_error,
        post.save_due == pre.save_due,
{
}

/// On a microphone that is not available every call fails, and for that reason.
pub proof fn an_unavailable_microphone_fails_every_call<H: MicBackend>(
    listed: Result<Vec<DeviceInfo>, AudioError>,
    flag: Result<bool, AudioError>,
    level: Result<Scalar, AudioError>,
    done: Result<(), AudioError>,
    id: Option<Seq<char>>,
    value: bool,
    volume: Scalar,
    post: Mic<H>,
)
    ensures
        Mic::<H>::Unavailable.lists(listed) ==> listed == Err::<Vec<DeviceInfo>, AudioError>(
            AudioError::NoDevice,
        ),
        Mic::<H>::Unavailable.reads_muted(flag) ==> flag == Err::<bool, AudioError>(
            AudioError::NoDevice,
        ),
        Mic::<H>::Unavailable.reads_volume(level) ==> level == Err::<Scalar, AudioError>(
            AudioError::NoDevice,
        ),
        Mic::<H>::Unavailable.reads_peak(level) ==> level == Err::<Scalar, AudioError>(
            AudioError::NoDevice,
        ),
        Mic::<H>::Unavailable.selects(id, &post, done) ==> done == Err::<(), AudioError>(
            AudioError::NoDevice,
        ) && post is Unavailable,
        Mic::<H>::Unavailable.writes_muted(value, &post, done) ==> done == Err::<(), AudioError>(
            AudioError::NoDevice,
        ) && post is Unavailable,
        Mic::<H>::Unavailable.writes_volume(volume, &post, done) ==> done == Err::<(), AudioError>(
            AudioError::NoDevice,
        ) && post is Unavailable,
{
}

/// A live microphone passes every call on to its worker, with the arguments as
/// they are, and the answer back.
pub proof fn a_live_microphone_passes_every_call_on<H: MicBackend>(
    worker: H,
    post: H,
    listed: Result<Vec<DeviceInfo>, AudioError>,
    flag: Result<bool, AudioError>,
    level: Result<Scalar, AudioError>,
    done: Result<(), AudioError>,
    id: Option<Seq<char>>,
    value: bool,
    volume: Scalar,
)
    ensures
        Mic::Live(worker).lists(listed) <==> worker.lists(listed),
        Mic::Live(worker).reads_muted(flag) <==> worker.reads_muted(flag),
        Mic::Live(worker).reads_volume(level) <==> worker.reads_volume(level),
        Mic::Live(worker).reads_peak(level) <==> worker.reads_peak(level),
        Mic::Live(worker).selects(id, &Mic::Live(post), done) <==> worker.selects(id, &post, done),
        Mic::Live(worker).writes_muted(value, &Mic::Live(post), done) <==> worker.writes_muted(
            value,
            &post,
            done,
        ),
        Mic::Live(worker).writes_volume(volume, &Mic::Live(post), done) <==> worker.writes_volume(
            volume,
            &post,
            done,
        ),
{
}

/// A note that the settings are to be written is found by the next who asks, and
/// by no one after that. The settings themselves stay as they are.
pub proof fn a_save_is_due_once<H: MicBackend>(
    first: Core<H>,
    second: Core<H>,
    third: Core<H>,
    found: bool,
    fourth: Core<H>,
    again: bool,
)
    requires
        first.notes_save(second),
        second.gives_save(third, found),
        third.gives_save(fourth, again),
    ensures
        found,
        !again,
        fourth.config == first.config,
        fourth.machine == first.machine,
        fourth.last_error == first.last_error,
        fourth.hook_error == first.hook_error,
{
}

} // verus!
