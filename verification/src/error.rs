//! Failure conditions of the windowing core.
//!
//! Every fallible operation returns one of these typed conditions to its
//! caller rather than terminating; only the top-level scheduler decides
//! whether a given failure is tick-local or loop-fatal.

use vstd::prelude::*;

verus! {

/// The failure conditions the window registry and the input context report.
#[derive(Clone, Copy, Debug, PartialEq, Eq, Structural)]
pub enum WindowsError {
    /// Unable to change focus for the window with this identifier.
    Focus(u64),
    /// No main window identifier is available: the registry was never
    /// initialized with a main window.
    MainWindowId,
    /// No window with this identifier is in the registry.
    WindowStore(u64),
    /// The platform reports no display monitor.
    NoMonitor,
    /// Full screen was requested and the platform reports no supported
    /// video mode.
    NoVideoMode,
    /// The platform failed to build the native window.
    WindowBuild,
}

impl WindowsError {
    /// A short description of the condition, for logging by the caller.
    pub fn message(&self) -> (r: &'static str)
        ensures
            *self is Focus ==> r@ == "unable to change focus for the window"@,
            *self is MainWindowId ==> r@ == "no main window id available"@,
            *self is WindowStore ==> r@ == "unable to get window with window id"@,
            *self is NoMonitor ==> r@ == "no monitor found"@,
            *self is NoVideoMode ==> r@ == "failed to get list of display modes"@,
            *self is WindowBuild ==> r@ == "unable to create the window"@,
    {
        match self {
            WindowsError::Focus(_) => "unable to change focus for the window",
            WindowsError::MainWindowId => "no main window id available",
            WindowsError::WindowStore(_) => "unable to get window with window id",
            WindowsError::NoMonitor => "no monitor found",
            WindowsError::NoVideoMode => "failed to get list of display modes",
            WindowsError::WindowBuild => "unable to create the window",
        }
    }
}

} // verus!
