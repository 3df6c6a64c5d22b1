use vstd::prelude::*;

use crate::os::OperatingSystem;

verus! {

/// The state the wizard shares across its screens.
#[derive(Debug, Clone)]
pub struct App {
    operating_system: OperatingSystem,
}

impl App {
    /// The operating system the app was started for.
    pub closed spec fn os(&self) -> OperatingSystem {
        self.operating_system
    }

    /// An app for `operating_system`.
    pub fn new(operating_system: OperatingSystem) -> (app: Self)
        ensures
            app.os() == operating_system,
    {
        Self { operating_system }
    }

    /// The operating system the app was started for.
    pub fn operating_system(&self) -> (os: &OperatingSystem)
        ensures
            *os == self.os(),
    {
        &self.operating_system
    }
}

} // verus!
