//! The settings that survive a restart, and how they are read from and written
//! to their file. Volume is not among them: Windows owns it.

use crate::audio::opt_text;
use crate::hotkey::keys::{
    bindable, key_name, modifier, name_leads_back_to_its_key, named_key, named_key_bears_the_name,
};
use crate::hotkey::{
    a_stored_form_means_one_hotkey, no_modifier_is_ever_read, Hotkey, HotkeyError, HotkeyRepr,
};
use crate::modes::Mode;
use vstd::prelude::*;

verus! {

/// The name of the settings file.
pub const FILE: &'static str = "config.json";

/// The name that a settings file gets that can not be read.
pub const BACKUP: &'static str = "config.json.bak";

/// The name under which the file is written before it replaces the old one.
pub const PENDING: &'static str = "config.json.tmp";

#[derive(Debug, Clone, Copy, PartialEq, Eq, Structural)]
pub struct NotificationPrefs {
    pub toast: bool,
    pub sound: bool,
}

impl Default for NotificationPrefs {
    /// Toasts, and no sound.
    fn default() -> (r: Self)
        ensures
            r.toast,
            !r.sound,
    {
        NotificationPrefs { toast: true, sound: false }
    }
}

#[derive(Debug, Clone, PartialEq)]
pub struct Config {
    pub version: u32,
    /// Nothing means the system default capture device.
    pub device_id: Option<String>,
    pub mode: Mode,
    pub hotkey: Option<Hotkey>,
    /// Whether this binding has ever been seen firing.
    pub hotkey_confirmed: bool,
    pub notifications: NotificationPrefs,
    pub autostart: bool,
}

impl Config {
    /// The settings of a first start.
    pub open spec fn is_default(self) -> bool {
        &&& self.version == 1
        &&& self.device_id is None
        &&& self.mode == Mode::MuteToggle
        &&& self.hotkey is None
        &&& !self.hotkey_confirmed
        &&& self.notifications.toast
        &&& !self.notifications.sound
        &&& !self.autostart
    }

    /// A binding, if there is one, is on a key that may be bound.
    pub open spec fn well_formed(self) -> bool {
        self.hotkey matches Some(hk) ==> bindable(hk.vk)
    }
}

impl Default for Config {
    fn default() -> (r: Self)
        ensures
            r.is_default(),
    {
        Config {
            version: 1,
            device_id: None,
            mode: Mode::default(),
            hotkey: None,
            hotkey_confirmed: false,
            notifications: NotificationPrefs::default(),
            autostart: false,
        }
    }
}

/// The settings as they stand in the file.
#[derive(Debug, Clone, PartialEq)]
pub struct ConfigRepr {
    pub version: u32,
    pub device_id: Option<String>,
    pub mode: Mode,
    pub hotkey: Option<HotkeyRepr>,
    /// Missing from files that are older than the setting.
    pub hotkey_confirmed: Option<bool>,
    pub notifications: NotificationPrefs,
    pub autostart: bool,
}

/// What was found where the settings file should be.
pub enum ConfigFile {
    /// No file.
    Missing,
    /// A file that can not be read, or that does not hold settings.
    Invalid,
    Parsed(ConfigRepr),
}

impl ConfigRepr {
    /// Whether `self` is what `config` is stored as.
    pub open spec fn stores(&self, config: Config) -> bool {
        &&& self.version == config.version
        &&& self.device_id == config.device_id
        &&& self.mode == config.mode
        &&& match config.hotkey {
            None => self.hotkey is None,
            Some(hk) => self.hotkey matches Some(repr) && repr.stores(hk),
        }
        &&& self.confirmed() == config.hotkey_confirmed
        &&& self.notifications == config.notifications
        &&& self.autostart == config.autostart
    }

    /// Whether the binding was confirmed: never seen firing, if the file does
    /// not say.
    pub open spec fn confirmed(&self) -> bool {
        self.hotkey_confirmed == Some(true)
    }

    /// Whether the binding, if there is one, is one that may be.
    pub open spec fn readable(&self) -> bool {
        self.hotkey matches Some(repr) ==> (named_key(repr.key@) matches Some(vk) && !modifier(vk))
    }
}

/// What goes into the file of the settings, or why nothing can.
pub open spec fn saves(config: Config, r: Result<ConfigRepr, HotkeyError>) -> bool {
    match r {
        Ok(repr) => repr.stores(config) && repr.hotkey_confirmed == Some(config.hotkey_confirmed),
        Err(e) => {
            &&& config.hotkey matches Some(hk)
            &&& e == HotkeyError::Unnamed(hk.vk)
            &&& key_name(hk.vk) is None
        },
    }
}

/// What a start makes of the file: the settings, and whether the file is moved
/// out of the way.
pub open spec fn loads(file: ConfigFile, config: Config, backup: bool) -> bool {
    match file {
        ConfigFile::Missing => config.is_default() && !backup,
        ConfigFile::Invalid => config.is_default() && backup,
        ConfigFile::Parsed(repr) => if repr.readable() {
            repr.stores(config) && !backup
        } else {
            config.is_default() && backup
        },
    }
}

impl Config {
    /// The settings of a start, and whether the file must be moved out of the
    /// way as a backup. Never fails: without a file the defaults hold, and so
    /// they do with one that can not be read, is no settings file or names a
    /// binding that can not be, which is then kept as a backup.
    pub fn load(file: ConfigFile) -> (r: (Config, bool))
        ensures
            r.0.well_formed(),
            loads(file, r.0, r.1),
            match file {
                ConfigFile::Missing => r.0.is_default() && !r.1,
                ConfigFile::Invalid => r.0.is_default() && r.1,
                ConfigFile::Parsed(repr) => if repr.readable() {
                    repr.stores(r.0) && !r.1
                } else {
                    r.0.is_default() && r.1
                },
            },
    {
        match file {
            ConfigFile::Missing => (Config::default(), false),
            ConfigFile::Invalid => (Config::default(), true),
            ConfigFile::Parsed(repr) => {
                let hotkey = match &repr.hotkey {
                    None => None,
                    Some(stored) => {
                        let read = stored.to_hotkey();
                        proof {
                            no_modifier_is_ever_read(*stored, read);
                        }
                        match read {
                            Ok(hk) => Some(hk),
                            Err(_) => return (Config::default(), true),
                        }
                    },
                };
                let confirmed = match repr.hotkey_confirmed {
                    Some(confirmed) => confirmed,
                    None => false,
                };
                (
                    Config {
                        version: repr.version,
                        device_id: repr.device_id,
                        mode: repr.mode,
                        hotkey,
                        hotkey_confirmed: confirmed,
                        notifications: repr.notifications,
                        autostart: repr.autostart,
                    },
                    false,
                )
            },
        }
    }

    /// The settings as they go into the file. A binding on a key without a name
    /// can not be stored.
    pub fn save(&self) -> (r: Result<ConfigRepr, HotkeyError>)
        ensures
            saves(*self, r),
            self.well_formed() ==> r is Ok,
            r matches Ok(repr) ==> repr.stores(*self) && repr.hotkey_confirmed == Some(
                self.hotkey_confirmed,
            ),
            r matches Err(e) ==> self.hotkey matches Some(hk) && e == HotkeyError::Unnamed(hk.vk)
                && key_name(hk.vk) is None,
    {
        let hotkey = match &self.hotkey {
            None => None,
            Some(hk) => match HotkeyRepr::from_hotkey(hk) {
                Ok(repr) => Some(repr),
                Err(e) => return Err(e),
            },
        };
        let device_id = match &self.device_id {
            Some(id) => Some(id.clone()),
            None => None,
        };
        Ok(
            ConfigRepr {
                version: self.version,
                device_id,
                mode: self.mode,
                hotkey,
                hotkey_confirmed: Some(self.hotkey_confirmed),
                notifications: self.notifications,
                autostart: self.autostart,
            },
        )
    }
}

/// What is saved comes back: the stored form of settings can be read, and of no
/// other settings is it the stored form.
pub proof fn saved_settings_load_back(config: Config, repr: ConfigRepr, loaded: Config)
    requires
        config.well_formed(),
        repr.stores(config),
        repr.stores(loaded),
    ensures
        repr.readable(),
        loaded == config,
{
    match config.hotkey {
        None => {
            assert(repr.hotkey is None);
        },
        Some(hk) => {
            let stored = repr.hotkey->0;
            a_stored_form_means_one_hotkey(stored, hk, loaded.hotkey->0);
            name_leads_back_to_its_key(hk.vk);
        },
    }
}

/// The settings of a first start, one by one.
pub proof fn the_defaults_are_these(config: Config)
    ensures
        config.is_default() <==> config.version == 1 && config.device_id is None && config.mode
            == Mode::MuteToggle && config.hotkey is None && !config.hotkey_confirmed
            && config.notifications.toast && !config.notifications.sound && !config.autostart,
{
}

/// A stored form holds each setting as it is: none is left out, and none stands in
/// another's place. Only a missing confirmation counts as none.
pub proof fn a_stored_form_holds_each_setting(repr: ConfigRepr, config: Config)
    requires
        repr.stores(config),
    ensures
        repr.version == config.version,
        opt_text(repr.device_id) == opt_text(config.device_id),
        repr.mode == config.mode,
        config.hotkey is None <==> repr.hotkey is None,
        config.hotkey matches Some(hk) ==> (repr.hotkey matches Some(stored) && stored.ctrl
            == hk.ctrl && stored.alt == hk.alt && stored.shift == hk.shift && stored.win == hk.win
            && key_name(hk.vk) == Some(stored.key@)),
        repr.hotkey_confirmed matches Some(confirmed) ==> config.hotkey_confirmed == confirmed,
        repr.hotkey_confirmed is None ==> !config.hotkey_confirmed,
        repr.notifications.toast == config.notifications.toast,
        repr.notifications.sound == config.notifications.sound,
        repr.autostart == config.autostart,
{
}

/// A start without a file has the defaults and moves nothing; one with a file that
/// does not hold settings has the defaults and keeps the file as a backup.
pub proof fn a_start_without_settings_has_the_defaults(file: ConfigFile, config: Config, backup: bool)
    requires
        loads(file, config, backup),
        file is Missing || file is Invalid,
    ensures
        config.version == 1,
        config.device_id is None,
        config.mode == Mode::MuteToggle,
        config.hotkey is None,
        !config.hotkey_confirmed,
        config.notifications.toast,
        !config.notifications.sound,
        !config.autostart,
        backup <==> file is Invalid,
{
}

/// A file that holds settings is taken setting by setting, and stays where it is,
/// unless its binding is on a name that no key bears or on a modifier's. Then the
/// defaults hold, and the file becomes the backup.
pub proof fn settings_are_taken_one_by_one(
    repr: ConfigRepr,
    config: Config,
    backup: bool,
    vk: u16,
)
    requires
        loads(ConfigFile::Parsed(repr), config, backup),
    ensures
        repr.hotkey is None || (key_name(vk) == Some(repr.hotkey->0.key@) && !modifier(vk)) ==> {
            &&& !backup
            &&& config.version == repr.version
            &&& opt_text(config.device_id) == opt_text(repr.device_id)
            &&& config.mode == repr.mode
            &&& config.hotkey_confirmed == (repr.hotkey_confirmed == Some(true))
            &&& config.notifications.toast == repr.notifications.toast
            &&& config.notifications.sound == repr.notifications.sound
            &&& config.autostart == repr.autostart
            &&& repr.hotkey is None ==> config.hotkey is None
            &&& repr.hotkey matches Some(stored) ==> (config.hotkey matches Some(hk) && hk.vk == vk
                && hk.ctrl == stored.ctrl && hk.alt == stored.alt && hk.shift == stored.shift
                && hk.win == stored.win)
        },
        repr.hotkey is Some && (key_name(vk) == Some(repr.hotkey->0.key@) && modifier(vk) || forall|
            k: u16,
        | key_name(k) != Some(repr.hotkey->0.key@)) ==> backup && config.is_default(),
{
    if repr.hotkey is Some {
        let name = repr.hotkey->0.key@;
        named_key_bears_the_name(name);
        if key_name(vk) == Some(name) {
            name_leads_back_to_its_key(vk);
            if !backup {
                name_leads_back_to_its_key(config.hotkey->0.vk);
            }
        }
    }
}

/// What is saved is what the next start has, setting by setting, and nothing is
/// moved out of the way.
pub proof fn what_is_saved_is_what_is_loaded(
    config: Config,
    repr: ConfigRepr,
    loaded: Config,
    backup: bool,
)
    requires
        config.well_formed(),
        repr.stores(config),
        loads(ConfigFile::Parsed(repr), loaded, backup),
    ensures
        !backup,
        loaded == config,
{
    match config.hotkey {
        None => {
            assert(repr.hotkey is None);
            assert(repr.readable());
        },
        Some(hk) => {
            name_leads_back_to_its_key(hk.vk);
            assert(repr.readable());
        },
    }
    saved_settings_load_back(config, repr, loaded);
}

/// Settings can be saved unless the bound key has no name, and what is saved holds
/// each of them. The key that could not be is the one that the error names.
pub proof fn only_a_key_without_a_name_can_not_be_saved(
    config: Config,
    r: Result<ConfigRepr, HotkeyError>,
)
    requires
        saves(config, r),
    ensures
        r is Err ==> (config.hotkey matches Some(hk) && key_name(hk.vk) is None && r == Err::<
            ConfigRepr,
            HotkeyError,
        >(HotkeyError::Unnamed(hk.vk))),
        config.hotkey is None ==> r is Ok,
        r matches Ok(repr) ==> {
            &&& repr.version == config.version
            &&& repr.device_id == config.device_id
            &&& repr.mode == config.mode
            &&& repr.hotkey is None <==> config.hotkey is None
            &&& repr.hotkey_confirmed == Some(config.hotkey_confirmed)
            &&& repr.notifications.toast == config.notifications.toast
            &&& repr.notifications.sound == config.notifications.sound
            &&& repr.autostart == config.autostart
        },
{
}

} // verus!
