use vstd::prelude::*;

verus! {

/// Looks for Home Assistant devices. The integration is not wired to a
/// server here, so nothing is discovered.
pub fn discover_home_assistant_devices() {
}

/// Sends `action` to the Home Assistant device `device_id`. The integration
/// is not wired to a server here, so the command goes nowhere.
pub fn control_home_assistant_device(device_id: &str, action: &str) {
}

} // verus!
