use vstd::prelude::*;

use crate::state::{AppState, TrayIcon};

verus! {

/// The state after a tray-icon command: the chosen bitmap is on display and
/// nothing else has moved.
pub open spec fn spec_set_tray(s: AppState, icon: TrayIcon) -> AppState {
    AppState { tray: Some(icon), ..s }
}

/// Switch the tray to the "online" bitmap. Returns which fixed embedded
/// bitmap the host must hand to the framework's icon setter.
pub fn set_success_tray(state: &mut AppState) -> (icon: TrayIcon)
    ensures
        *final(state) == spec_set_tray(*old(state), TrayIcon::Online),
        icon == TrayIcon::Online,
{
    state.tray = Some(TrayIcon::Online);
    TrayIcon::Online
}

/// Switch the tray to the "offline" bitmap. Returns which fixed embedded
/// bitmap the host must hand to the framework's icon setter.
pub fn set_fail_tray(state: &mut AppState) -> (icon: TrayIcon)
    ensures
        *final(state) == spec_set_tray(*old(state), TrayIcon::Offline),
        icon == TrayIcon::Offline,
{
    state.tray = Some(TrayIcon::Offline);
    TrayIcon::Offline
}

/// The last icon command wins: success then fail ends with "offline", fail
/// then success ends with "online", and the intermediate call leaves no
/// trace — the end state is exactly that of the last command alone.
pub proof fn lemma_last_command_wins(s: AppState)
    ensures
        spec_set_tray(spec_set_tray(s, TrayIcon::Online), TrayIcon::Offline) == spec_set_tray(
            s,
            TrayIcon::Offline,
        ),
        spec_set_tray(spec_set_tray(s, TrayIcon::Offline), TrayIcon::Online) == spec_set_tray(
            s,
            TrayIcon::Online,
        ),
{
}

/// Repeating one icon command is idempotent: the second run changes nothing.
pub proof fn lemma_set_tray_idempotent(s: AppState, icon: TrayIcon)
    ensures
        spec_set_tray(spec_set_tray(s, icon), icon) == spec_set_tray(s, icon),
{
}

} // verus!
