use vstd::prelude::*;

verus! {

/// The operating system family the agent runs on, chosen once at startup.
#[derive(Clone, Copy, Debug, PartialEq, Eq, Structural)]
pub enum Platform {
    Windows,
    MacOs,
    Linux,
}

impl Platform {
    /// Path separator used when composing install paths.
    pub open spec fn separator_spec(self) -> char {
        match self {
            Platform::Windows => '\\',
            _ => '/',
        }
    }

    pub fn separator(&self) -> (r: char)
        ensures
            r == self.separator_spec(),
    {
        match self {
            Platform::Windows => '\\',
            _ => '/',
        }
    }

    /// Whether a running instance of the service is stopped before a new
    /// binary is copied in (the service manager restarts it elsewhere).
    pub open spec fn stops_service_before_install_spec(self) -> bool {
        !(self is MacOs)
    }

    pub fn stops_service_before_install(&self) -> (r: bool)
        ensures
            r == self.stops_service_before_install_spec(),
    {
        match self {
            Platform::MacOs => false,
            _ => true,
        }
    }

    /// Whether the installed copy gets its executable header patched so that
    /// it starts without a console window.
    pub open spec fn patches_subsystem_spec(self) -> bool {
        self is Windows
    }

    pub fn patches_subsystem(&self) -> (r: bool)
        ensures
            r == self.patches_subsystem_spec(),
    {
        match self {
            Platform::Windows => true,
            _ => false,
        }
    }
}

} // verus!
