//! First-run autostart policy. The host-specific registration work (a
//! registry value, a launch agent, a desktop entry) belongs to the
//! surrounding application; this module decides what that work should be.

use vstd::prelude::*;

verus! {

/// What the first-run setup asks the host backend to do.
#[derive(Debug, Clone, Copy, PartialEq, Eq, Structural)]
pub enum AutostartDirective {
    /// Register the application to start on boot.
    Enable,
    /// Remove the registration.
    Disable,
    /// The registration already agrees with the configuration.
    Nothing,
}

/// Decides autostart registration changes.
pub struct AutostartManager {}

impl AutostartManager {
    pub fn new() -> (r: AutostartManager) {
        AutostartManager {}
    }

    /// On the first run, brings the host's registration in line with the
    /// configured wish: register when wanted but absent, unregister when
    /// unwanted but present, and otherwise leave the host alone.
    pub fn setup_first_run(&self, enabled: bool, currently_enabled: bool) -> (r: AutostartDirective)
        ensures
            r is Enable <==> enabled && !currently_enabled,
            r is Disable <==> !enabled && currently_enabled,
            r is Nothing <==> enabled == currently_enabled,
    {
        if enabled && !currently_enabled {
            AutostartDirective::Enable
        } else if !enabled && currently_enabled {
            AutostartDirective::Disable
        } else {
            AutostartDirective::Nothing
        }
    }
}

} // verus!
