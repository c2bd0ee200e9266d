//! Whether the update menu item applies a downloaded update or checks for one.

use vstd::prelude::*;

verus! {

/// Whether the menu should trigger "apply-update" (true) or "check-for-updates" (false).
pub struct UpdaterMode {
    apply: bool,
}

impl View for UpdaterMode {
    type V = bool;

    closed spec fn view(&self) -> bool {
        self.apply
    }
}

impl UpdaterMode {
    /// The mode at start: check for updates.
    pub fn new() -> (m: UpdaterMode)
        ensures
            !m@,
    {
        UpdaterMode { apply: false }
    }
}

/// Sets whether the update menu item applies an update.
pub fn set_apply_mode(mode: &mut UpdaterMode, apply: bool)
    ensures
        final(mode)@ == apply,
{
    mode.apply = apply;
}

/// The event that a click on the update menu item sends to the main window.
pub open spec fn update_event(apply: bool) -> Seq<char> {
    if apply { "apply-update"@ } else { "check-for-updates"@ }
}

/// The event name for a click on the update menu item in the current mode.
pub fn check_for_update_event(mode: &UpdaterMode) -> (name: String)
    ensures
        name@ == update_event(mode@),
{
    if mode.apply {
        String::from_str("apply-update")
    } else {
        String::from_str("check-for-updates")
    }
}

/// The payload of that event: open the settings.
pub fn check_for_update_payload() -> (json: String)
    ensures
        json@ == "{\"openSettings\":true}"@,
{
    String::from_str("{\"openSettings\":true}")
}

/// Law: the event sent is the one for the mode last set.
pub proof fn law_event_follows_mode(apply: bool)
    ensures
        apply ==> update_event(apply) == "apply-update"@,
        !apply ==> update_event(apply) == "check-for-updates"@,
{
}

} // verus!
