//! What the low-level keyboard hook reports, and which of it concerns a
//! binding.
//!
//! The hook only observes: every keystroke goes on to the other programs,
//! whether it matches the binding or not. Injected keystrokes count like any
//! other, since F13 to F24 reach most machines from a remapping tool.

use crate::hotkey::Hotkey;
use vstd::prelude::*;

verus! {

/// The code with which Windows hands a hook an event to process.
pub const HC_ACTION: i32 = 0;

pub const WM_KEYDOWN: u32 = 0x0100;

pub const WM_KEYUP: u32 = 0x0101;

pub const WM_SYSKEYDOWN: u32 = 0x0104;

pub const WM_SYSKEYUP: u32 = 0x0105;

/// A key that went down or up, and the modifiers held at that moment.
#[derive(Debug, Clone, Copy, PartialEq, Eq, Structural)]
pub struct HookEvent {
    pub vk: u16,
    pub down: bool,
    pub ctrl: bool,
    pub alt: bool,
    pub shift: bool,
    pub win: bool,
}

/// Records the current binding: none while a new one is recorded, and none once
/// the user has cleared it.
pub fn set_binding(slot: &mut Option<Hotkey>, hk: Option<Hotkey>)
    ensures
        *final(slot) == hk,
{
    *slot = hk;
}

/// Whether the event is on the binding's key, with exactly the binding's
/// modifiers. One modifier more does not fire, nor does one less.
pub open spec fn fires(binding: Hotkey, ev: HookEvent) -> bool {
    binding == (Hotkey { ctrl: ev.ctrl, alt: ev.alt, shift: ev.shift, win: ev.win, vk: ev.vk })
}

/// Whether the event matches the binding exactly.
pub fn matches(binding: &Hotkey, ev: &HookEvent) -> (r: bool)
    ensures
        r == fires(*binding, *ev),
        r == (binding.vk == ev.vk && binding.ctrl == ev.ctrl && binding.alt == ev.alt
            && binding.shift == ev.shift && binding.win == ev.win),
{
    binding.vk == ev.vk && binding.ctrl == ev.ctrl && binding.alt == ev.alt && binding.shift
        == ev.shift && binding.win == ev.win
}

/// Whether a key is held, from what `GetAsyncKeyState` says of it: its most
/// significant bit, which is the sign.
pub fn is_physically_down(state: i16) -> (r: bool)
    ensures
        r == (state < 0),
{
    state < 0
}

/// What `GetAsyncKeyState` says of each modifier key.
#[derive(Debug, Clone, Copy, PartialEq, Eq, Structural)]
pub struct ModifierReadings {
    pub control: i16,
    pub menu: i16,
    pub lmenu: i16,
    pub rmenu: i16,
    pub shift: i16,
    pub lwin: i16,
    pub rwin: i16,
}

/// Which modifiers are held: Ctrl, Alt, Shift and Win, in this order. Either Alt
/// key holds Alt, and either Win key holds Win.
pub fn modifier_state(readings: &ModifierReadings) -> (r: (bool, bool, bool, bool))
    ensures
        r.0 == (readings.control < 0),
        r.1 == (readings.menu < 0 || readings.lmenu < 0 || readings.rmenu < 0),
        r.2 == (readings.shift < 0),
        r.3 == (readings.lwin < 0 || readings.rwin < 0),
{
    (
        is_physically_down(readings.control),
        is_physically_down(readings.menu) || is_physically_down(readings.lmenu)
            || is_physically_down(readings.rmenu),
        is_physically_down(readings.shift),
        is_physically_down(readings.lwin) || is_physically_down(readings.rwin),
    )
}

/// The event of one call of the hook's procedure, if it is one.
pub open spec fn event_of(
    code: i32,
    message: u32,
    vk_code: u32,
    readings: ModifierReadings,
) -> Option<HookEvent> {
    let down = message == WM_KEYDOWN || message == WM_SYSKEYDOWN;
    let up = message == WM_KEYUP || message == WM_SYSKEYUP;
    if code == HC_ACTION && (down || up) {
        Some(
            HookEvent {
                vk: (vk_code % 0x1_0000) as u16,
                down,
                ctrl: readings.control < 0,
                alt: readings.menu < 0 || readings.lmenu < 0 || readings.rmenu < 0,
                shift: readings.shift < 0,
                win: readings.lwin < 0 || readings.rwin < 0,
            },
        )
    } else {
        None
    }
}

/// The event that the hook sends on for one call of its procedure, if any: for
/// key-down and key-up messages, plain or with Alt held, that Windows wants
/// processed. A virtual-key code is the low half of what the message holds.
pub fn hook_event(code: i32, message: u32, vk_code: u32, readings: &ModifierReadings) -> (r: Option<
    HookEvent,
>)
    ensures
        r == event_of(code, message, vk_code, *readings),
        r is Some <==> code == HC_ACTION && (message == WM_KEYDOWN || message == WM_SYSKEYDOWN
            || message == WM_KEYUP || message == WM_SYSKEYUP),
        r matches Some(ev) ==> {
            &&& ev.vk == vk_code % 0x1_0000
            &&& ev.down == (message == WM_KEYDOWN || message == WM_SYSKEYDOWN)
            &&& ev.ctrl == (readings.control < 0)
            &&& ev.alt == (readings.menu < 0 || readings.lmenu < 0 || readings.rmenu < 0)
            &&& ev.shift == (readings.shift < 0)
            &&& ev.win == (readings.lwin < 0 || readings.rwin < 0)
        },
{
    if code != HC_ACTION {
        return None;
    }
    let down = message == WM_KEYDOWN || message == WM_SYSKEYDOWN;
    let up = message == WM_KEYUP || message == WM_SYSKEYUP;
    if !down && !up {
        return None;
    }
    let (ctrl, alt, shift, win) = modifier_state(readings);
    let vk: u16 = (vk_code % 0x1_0000) as u16;
    Some(HookEvent { vk, down, ctrl, alt, shift, win })
}

/// An event fires one binding at most: two bindings that it fires are the same.
pub proof fn an_event_fires_one_binding(a: Hotkey, b: Hotkey, ev: HookEvent)
    ensures
        fires(a, ev) && fires(b, ev) ==> a == b,
{
}

/// A release fires a binding exactly when the press with the same modifiers
/// does.
pub proof fn press_and_release_fire_alike(binding: Hotkey, ev: HookEvent)
    ensures
        fires(binding, (HookEvent { down: true, ..ev })) == fires(
            binding,
            (HookEvent { down: false, ..ev }),
        ),
{
}

/// A binding fires on an event exactly when the key and each of the four modifiers
/// are the binding's own: Ctrl for Ctrl, Alt for Alt, Shift for Shift, Win for
/// Win.
pub proof fn every_field_must_be_the_bindings_own(binding: Hotkey, ev: HookEvent)
    ensures
        fires(binding, ev) ==> ev.vk == binding.vk,
        fires(binding, ev) ==> ev.ctrl == binding.ctrl,
        fires(binding, ev) ==> ev.alt == binding.alt,
        fires(binding, ev) ==> ev.shift == binding.shift,
        fires(binding, ev) ==> ev.win == binding.win,
        ev.vk == binding.vk && ev.ctrl == binding.ctrl && ev.alt == binding.alt && ev.shift
            == binding.shift && ev.win == binding.win ==> fires(binding, ev),
{
}

/// Of two events on which one binding fires, no field but the direction differs.
pub proof fn events_that_fire_differ_in_direction_only(binding: Hotkey, a: HookEvent, b: HookEvent)
    requires
        fires(binding, a),
        fires(binding, b),
    ensures
        a == (HookEvent { down: a.down, ..b }),
{
}

/// The hook reports the four keyboard messages and nothing else, and nothing at
/// all unless Windows wants the call processed. A message with Alt held counts
/// like the plain one.
pub proof fn the_hook_reports_keys_and_nothing_else(
    code: i32,
    message: u32,
    vk_code: u32,
    readings: ModifierReadings,
)
    ensures
        event_of(code, message, vk_code, readings) is Some <==> code == 0 && (message == 0x100
            || message == 0x101 || message == 0x104 || message == 0x105),
        event_of(0, 0x100, vk_code, readings)->0.down,
        event_of(0, 0x104, vk_code, readings)->0.down,
        !event_of(0, 0x101, vk_code, readings)->0.down,
        !event_of(0, 0x105, vk_code, readings)->0.down,
        vk_code <= 0xFFFF ==> event_of(0, 0x100, vk_code, readings)->0.vk == vk_code,
        vk_code <= 0xFFFF ==> event_of(0, 0x101, vk_code, readings)->0.vk == vk_code,
        event_of(0, 0x104, vk_code, readings) == event_of(0, 0x100, vk_code, readings),
        event_of(0, 0x105, vk_code, readings) == event_of(0, 0x101, vk_code, readings),
{
}

/// Each modifier of a reported event is read from that modifier's own keys.
pub proof fn modifiers_are_read_from_their_own_keys(
    message: u32,
    vk_code: u32,
    readings: ModifierReadings,
)
    requires
        message == 0x100 || message == 0x101 || message == 0x104 || message == 0x105,
    ensures
        ({
            let ev = event_of(0, message, vk_code, readings)->0;
            &&& ev.ctrl <==> readings.control < 0
            &&& ev.alt <==> readings.menu < 0 || readings.lmenu < 0 || readings.rmenu < 0
            &&& ev.shift <==> readings.shift < 0
            &&& ev.win <==> readings.lwin < 0 || readings.rwin < 0
        }),
{
}

} // verus!
