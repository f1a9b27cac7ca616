//! Error taxonomy of the backend: fatal construction errors, fatal runtime
//! loop errors, and the recoverable error that proxy operations report when
//! they race the loop's lifetime.

use vstd::prelude::*;

verus! {

/// A fatal error of backend construction or of the dispatch loop.  Every
/// variant aborts what it interrupts: construction errors abort the backend
/// or the window adapter, runtime errors propagate out of the loop.
#[derive(Clone, Copy, Debug, PartialEq, Eq, Structural)]
pub enum PlatformError {
    /// Connecting to the session arbiter failed.
    SessionOpenFailed,
    /// Driving the arbiter's dispatch primitive failed during activation.
    ActivationDispatchFailed,
    /// No enable notification arrived within an activation attempt's budget.
    ActivationTimeout,
    /// The arbiter revoked the session; deactivation has no supported
    /// handling, so it is treated as fatal rather than silently ignored.
    SessionDeactivated,
    /// The arbiter refused to hand out a device descriptor, or one was
    /// requested before the session became active.
    DeviceOpenFailed,
    /// Reading or changing a device descriptor's status flags failed.
    DeviceConfigFailed,
    /// The reactor could not be created.
    ReactorCreateFailed,
    /// Registering an event source with the reactor failed.
    SourceRegistrationFailed,
    /// The reactor's blocking dispatch call failed.
    DispatchFailed,
    /// The window adapter failed to render.
    RenderFailed,
    /// The dispatch loop is a one-shot resource; entering it a second time
    /// is rejected.
    ReentrantEventLoop,
}

impl PlatformError {
    /// A short description of the error, for the shell around the library
    /// to surface to its caller.
    pub fn message(&self) -> (m: &'static str)
        ensures
            self is SessionOpenFailed ==> m@ == "error opening session with the seat arbiter"@,
            self is ActivationDispatchFailed ==> m@ == "error waiting for seat activation"@,
            self is ActivationTimeout ==> m@ == "timeout while waiting to activate session"@,
            self is SessionDeactivated ==> m@ == "seat deactivation is not supported"@,
            self is DeviceOpenFailed ==> m@ == "error opening device"@,
            self is DeviceConfigFailed ==> m@ == "error changing device descriptor flags"@,
            self is ReactorCreateFailed ==> m@ == "error creating event loop"@,
            self is SourceRegistrationFailed ==> m@ == "error registering user event channel source"@,
            self is DispatchFailed ==> m@ == "error dispatching events"@,
            self is RenderFailed ==> m@ == "error rendering window"@,
            self is ReentrantEventLoop ==> m@ == "re-entering the event loop is not supported"@,
    {
        match self {
            PlatformError::SessionOpenFailed => "error opening session with the seat arbiter",
            PlatformError::ActivationDispatchFailed => "error waiting for seat activation",
            PlatformError::ActivationTimeout => "timeout while waiting to activate session",
            PlatformError::SessionDeactivated => "seat deactivation is not supported",
            PlatformError::DeviceOpenFailed => "error opening device",
            PlatformError::DeviceConfigFailed => "error changing device descriptor flags",
            PlatformError::ReactorCreateFailed => "error creating event loop",
            PlatformError::SourceRegistrationFailed => "error registering user event channel source",
            PlatformError::DispatchFailed => "error dispatching events",
            PlatformError::RenderFailed => "error rendering window",
            PlatformError::ReentrantEventLoop => "re-entering the event loop is not supported",
        }
    }
}

/// The recoverable error of the two proxy operations: the loop has not
/// started yet, or it has already stopped.  Callers on other threads may
/// legitimately race loop shutdown, so this is reported, never a panic.
#[derive(Clone, Copy, Debug, PartialEq, Eq, Structural)]
pub enum EventLoopError {
    /// The event loop is not running.
    EventLoopTerminated,
}

impl EventLoopError {
    /// A short description of the error.
    pub fn message(&self) -> (m: &'static str)
        ensures
            m@ == "the event loop has terminated"@,
    {
        match self {
            EventLoopError::EventLoopTerminated => "the event loop has terminated",
        }
    }
}

} // verus!
