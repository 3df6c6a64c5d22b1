use vstd::prelude::*;

use crate::app::App;
use crate::linux::system::{inspect, mountpoint_path};
use crate::os::display_name_of;

verus! {

/// The text of the detected-system screen on Linux.
pub open spec fn detected_details_text(os_name: Seq<char>) -> Seq<char> {
    "Detected "@ + os_name + " flow.\nSystem module: "@ + "linux"@ + "\nTarget mount point: "@
        + mountpoint_path()
}

/// What the detected-system screen says on Linux: the flow, the system module and the
/// target mountpoint.
pub fn detected_system_details(app: &App) -> (details: String)
    ensures
        details@ == detected_details_text(display_name_of(app.os())),
{
    let system_info = inspect();
    let mut details = "Detected ".to_owned();
    details.append(app.operating_system().display_name());
    details.append(" flow.\nSystem module: ");
    details.append(system_info.platform_label);
    details.append("\nTarget mount point: ");
    details.append(system_info.fstab_mount_point);
    details
}

} // verus!
