//! Error values reported by the event window service and by the hook module.

use vstd::prelude::*;

verus! {

/// Why the event window service could not be brought up.
#[derive(Clone, Copy, Debug, PartialEq, Eq, Structural)]
pub enum EventWindowError {
    /// The window class could not be registered.
    WindowClassRegistration,
    /// The sentinel window could not be created.
    WindowCreation,
    /// The window could not be registered for device notifications.
    NotificationRegistration,
    /// The pump thread could not be spawned.
    ThreadSpawn,
}

/// The three hooks of a chain, in the order in which they are installed.
#[derive(Clone, Copy, Debug, PartialEq, Eq, Structural)]
pub enum HookKind {
    /// Observes a window procedure call before it is dispatched.
    WindowProc,
    /// Observes a window procedure call after it has returned.
    WindowProcReturn,
    /// Observes a message as it is retrieved from the queue.
    GetMessage,
}

/// Why a hook chain could not be installed.
#[derive(Clone, Copy, Debug, PartialEq, Eq, Structural)]
pub enum HookError {
    /// The install of the named hook failed.
    HookInstall(HookKind),
    /// No module handle had been recorded when the install was requested.
    ModuleHandleUnavailable,
}

} // verus!
