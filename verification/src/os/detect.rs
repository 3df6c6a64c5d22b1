use vstd::prelude::*;

use crate::os::OperatingSystem;
use crate::text::{chars_of, same_chars};

verus! {

/// The operating system named `os_name` (as `std::env::consts::OS` names it): Windows
/// and Linux are supported, any other is kept by name as unsupported.
pub fn detect_os(os_name: &str) -> (os: OperatingSystem)
    ensures
        os_name@ == "windows"@ ==> os is Windows,
        os_name@ == "linux"@ ==> os is Linux,
        os_name@ != "windows"@ && os_name@ != "linux"@ ==> (os matches OperatingSystem::Unsupported(n) && n@ == os_name@),
{
    proof {
        reveal_strlit("windows");
        reveal_strlit("linux");
        assert("windows"@[0] != "linux"@[0]);
    }
    let name = chars_of(os_name);
    if same_chars(&name, &chars_of("windows")) {
        OperatingSystem::Windows
    } else if same_chars(&name, &chars_of("linux")) {
        OperatingSystem::Linux
    } else {
        OperatingSystem::Unsupported(os_name.to_owned())
    }
}

} // verus!
