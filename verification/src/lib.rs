//! Platform-integration core for running a GUI toolkit full screen on bare
//! Linux, without a display server.  The crate owns the decision logic of the
//! backend: session activation, device-descriptor preparation, the
//! cross-thread event-loop proxy with its job channel, and the dispatch
//! loop's per-iteration choices (wake timeout, termination).  The blocking
//! operating-system work itself (the seat arbiter connection, the reactor's
//! poll, file-descriptor calls) is performed by an unverified shell around
//! this crate, which feeds the results back in as plain values.

pub mod backend;
pub mod device;
pub mod dispatch;
pub mod error;
pub mod proxy;
pub mod renderer;
pub mod session;
