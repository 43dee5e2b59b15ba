//! Devices that come and go: which of Windows' notifications concern the
//! microphone.

use vstd::prelude::*;

verus! {

/// The event that tells the settings window to list the devices anew. It carries
/// nothing: making the list would block the thread that notifies.
pub const DEVICES_CHANGED: &'static str = "devices-changed";

/// The data flow of capture devices, as Windows numbers it.
pub const CAPTURE_FLOW: i32 = 1;

/// The role by which the default device is looked up, as Windows numbers it.
pub const CONSOLE_ROLE: i32 = 0;

/// What Windows tells of the devices.
#[derive(Debug, Clone, Copy, PartialEq, Eq, Structural)]
pub enum Notification {
    /// A device was enabled, disabled, plugged in or unplugged.
    StateChanged,
    Added,
    Removed,
    DefaultChanged { flow: i32, role: i32 },
    /// Comes with every change of a volume, and more.
    PropertyChanged,
}

/// Whether the audio worker is told. A device that changed, came or went may be
/// a microphone: nothing says which, so all count. Of the default only that of
/// capture devices counts, and only in the role by which it is looked up, since
/// one change by the user is announced once for each role. A property never
/// counts: none of them changes which device is selected.
pub open spec fn concerns_the_worker(n: Notification) -> bool {
    match n {
        Notification::StateChanged | Notification::Added | Notification::Removed => true,
        Notification::DefaultChanged { flow, role } => flow == CAPTURE_FLOW && role
            == CONSOLE_ROLE,
        Notification::PropertyChanged => false,
    }
}

/// Whether the audio worker is told of a notification.
pub fn reaches_worker(n: Notification) -> (r: bool)
    ensures
        r == concerns_the_worker(n),
{
    match n {
        Notification::StateChanged | Notification::Added | Notification::Removed => true,
        Notification::DefaultChanged { flow, role } => {
            flow == CAPTURE_FLOW && role == CONSOLE_ROLE
        },
        Notification::PropertyChanged => false,
    }
}

/// Of the announcements of a new default for each of several roles, the worker
/// is told of one at most.
pub proof fn a_new_default_is_told_once(flow: i32, one: i32, other: i32)
    ensures
        concerns_the_worker(Notification::DefaultChanged { flow, role: one })
            && concerns_the_worker(Notification::DefaultChanged { flow, role: other }) ==> one
            == other,
{
}

/// Of what the worker is told, by Windows' own numbers: of every device that
/// changed, came or went, of a new default for flow 1 and role 0, and of nothing
/// else.
pub proof fn the_worker_is_told_of_these(flow: i32, role: i32)
    ensures
        concerns_the_worker(Notification::StateChanged),
        concerns_the_worker(Notification::Added),
        concerns_the_worker(Notification::Removed),
        !concerns_the_worker(Notification::PropertyChanged),
        concerns_the_worker(Notification::DefaultChanged { flow, role }) <==> flow == 1 && role == 0,
{
}

} // verus!
