pub mod detect;

use vstd::prelude::*;

verus! {

/// The operating system the wizard runs on.
#[derive(Debug, Clone)]
pub enum OperatingSystem {
    Windows,
    Linux,
    Unsupported(String),
}

/// The name under which an operating system is shown.
pub open spec fn display_name_of(os: OperatingSystem) -> Seq<char> {
    match os {
        OperatingSystem::Windows => "Windows"@,
        OperatingSystem::Linux => "Linux"@,
        OperatingSystem::Unsupported(name) => name@,
    }
}

impl OperatingSystem {
    /// The name under which the operating system is shown: its own name when unsupported.
    pub fn display_name(&self) -> (name: &str)
        ensures
            name@ == display_name_of(*self),
    {
        match self {
            OperatingSystem::Windows => "Windows",
            OperatingSystem::Linux => "Linux",
            OperatingSystem::Unsupported(name) => name.as_str(),
        }
    }
}

} // verus!
