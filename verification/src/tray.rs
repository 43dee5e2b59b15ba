//! What the tray shows.

use crate::modes::Mode;
use vstd::prelude::*;

verus! {

#[derive(Debug, Clone, Copy, PartialEq, Eq, Structural)]
pub enum TrayIcon {
    /// A microphone.
    Live,
    /// A microphone that is struck through.
    Muted,
}

/// The icon for a mute state.
pub open spec fn icon_for(muted: bool) -> TrayIcon {
    if muted {
        TrayIcon::Muted
    } else {
        TrayIcon::Live
    }
}

/// The icon for a mute state.
pub fn update_icon(muted: bool) -> (r: TrayIcon)
    ensures
        r == icon_for(muted),
        r == if muted {
            TrayIcon::Muted
        } else {
            TrayIcon::Live
        },
{
    if muted {
        TrayIcon::Muted
    } else {
        TrayIcon::Live
    }
}

/// What the tray's menu shows of the mode.
#[derive(Debug, Clone, Copy, PartialEq, Eq, Structural)]
pub struct MenuState {
    /// Whether the item that toggles the mute can be chosen.
    pub toggle_mute_enabled: bool,
    pub mute_toggle_checked: bool,
    pub push_to_talk_checked: bool,
}

/// The menu for a mode.
pub open spec fn menu_for(mode: Mode) -> MenuState {
    MenuState {
        toggle_mute_enabled: mode == Mode::MuteToggle,
        mute_toggle_checked: mode == Mode::MuteToggle,
        push_to_talk_checked: mode == Mode::PushToTalk,
    }
}

/// The menu for a mode. The mute can be toggled in Mute Toggle only.
pub fn sync_menu(mode: Mode) -> (r: MenuState)
    ensures
        r == menu_for(mode),
        r.toggle_mute_enabled == (mode == Mode::MuteToggle),
        r.mute_toggle_checked == (mode == Mode::MuteToggle),
        r.push_to_talk_checked == (mode == Mode::PushToTalk),
{
    let toggle = matches!(mode, Mode::MuteToggle);
    MenuState {
        toggle_mute_enabled: toggle,
        mute_toggle_checked: toggle,
        push_to_talk_checked: !toggle,
    }
}

/// The icon is struck through exactly if the microphone is muted.
pub proof fn the_icon_shows_the_mute(muted: bool)
    ensures
        icon_for(muted) is Muted <==> muted,
        icon_for(muted) is Live <==> !muted,
{
}

/// The menu checks the mode that is on and not the other, and offers the mute in
/// the one that rests live.
pub proof fn the_menu_shows_the_mode(mode: Mode)
    ensures
        menu_for(mode).mute_toggle_checked <==> mode is MuteToggle,
        menu_for(mode).push_to_talk_checked <==> mode is PushToTalk,
        menu_for(mode).toggle_mute_enabled <==> mode is MuteToggle,
{
}

} // verus!
