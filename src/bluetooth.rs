use vstd::prelude::*;
use vstd::string::StringExecFns;

verus! {

/// Looks for Bluetooth devices nearby. Scanning needs a platform radio
/// stack, which this layer does not have, so it finds none.
pub fn discover_bluetooth_devices() {
}

/// The message that answers a driver request for `device_name`.
pub open spec fn driver_message(device_name: Seq<char>, user_approved: bool) -> Seq<char> {
    if user_approved {
        "Driver for "@ + device_name + " installed."@
    } else {
        "User denied driver installation."@
    }
}

/// Installs the driver of `device_name` once the user has approved it, and
/// says what happened.
pub fn download_and_install_driver(device_name: &str, user_approved: bool) -> (r: String)
    ensures
        r@ == driver_message(device_name@, user_approved),
{
    if !user_approved {
        return String::from_str("User denied driver installation.");
    }
    let mut out = String::from_str("Driver for ");
    out.append(device_name);
    out.append(" installed.");
    out
}

} // verus!
