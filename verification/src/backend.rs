//! The composition root.  A backend owns the activated session, the proxy
//! with its job channel, and the chosen renderer strategy; it gates device
//! requests through the session and treats the dispatch loop as a one-shot
//! resource.  The type is generic over the job type the channel carries, so
//! the loop thread can receive whatever callable the shell boxes.

use vstd::prelude::*;
use crate::error::PlatformError;
use crate::proxy::{loop_started_transition, loop_stopped_transition, Proxy, ProxyModel};
use crate::renderer::{name_view, select_renderer, strategy_for_name, RendererStrategy};
use crate::session::Session;

verus! {

/// Where the dispatch loop stands in its life.  It is a single-pass
/// resource: once stopped it can never run again.
#[derive(Clone, Copy, Debug, PartialEq, Eq, Structural)]
pub enum LoopPhase {
    /// The loop has not started yet; jobs already queue up.
    Idle,
    /// The loop is running; while the termination flag is up it is
    /// terminating and exits at the next iteration boundary.
    Running,
    /// The loop has exited; proxy operations fail from here on.
    Stopped,
}

/// The backend: the activated session, the proxy state shared with other
/// threads, the renderer strategy it was built with, whether the window
/// adapter has been created and cached, and the loop's phase.
pub struct Backend<T> {
    pub session: Session,
    pub proxy: Proxy<T>,
    pub renderer: RendererStrategy,
    /// Raised when the requested renderer name was unrecognized and the
    /// default strategy was substituted; the shell surfaces the warning.
    pub renderer_fallback_warning: bool,
    pub window_adapter_created: bool,
    pub phase: LoopPhase,
}

impl<T> Backend<T> {
    /// The loop passes through four stations: idle, running, terminating,
    /// stopped.  Terminating is the stretch of a run during which a
    /// termination request has been raised but the loop has not yet reached
    /// the iteration boundary that observes it.
    pub open spec fn is_terminating(self) -> bool {
        self.phase is Running && self.proxy@.quit_requested
    }

    /// A backend over an activated session, with the renderer strategy
    /// resolved from the given name.  The session must have finished the
    /// activation handshake: the backend is not usable before that.
    pub fn new_with_renderer_by_name(renderer_name: Option<&str>, session: Session) -> (b: Backend<
        T,
    >)
        requires
            session.active,
        ensures
            b.session == session,
            (b.renderer, b.renderer_fallback_warning) == strategy_for_name(
                name_view(renderer_name),
            ),
            !b.window_adapter_created,
            b.phase is Idle,
            b.proxy@ == (ProxyModel {
                signal_registered: false,
                wake_pending: false,
                quit_requested: false,
                channel_open: true,
                pending: Seq::<T>::empty(),
            }),
    {
        let (renderer, renderer_fallback_warning) = select_renderer(renderer_name);
        Backend {
            session,
            proxy: Proxy::new(),
            renderer,
            renderer_fallback_warning,
            window_adapter_created: false,
            phase: LoopPhase::Idle,
        }
    }

    /// A backend over the default renderer strategy.
    pub fn new(session: Session) -> (b: Backend<T>)
        requires
            session.active,
        ensures
            b.session == session,
            b.renderer is SkiaThenFemtoVG,
            !b.renderer_fallback_warning,
            !b.window_adapter_created,
            b.phase is Idle,
            b.proxy@ == (ProxyModel {
                signal_registered: false,
                wake_pending: false,
                quit_requested: false,
                channel_open: true,
                pending: Seq::<T>::empty(),
            }),
    {
        Self::new_with_renderer_by_name(None, session)
    }

    /// Records that the window adapter was built and cached: the renderer
    /// factory ran against the session's device opener and the adapter
    /// wrapped it.  Running the event loop is only sensible after this.
    pub fn install_window_adapter(&mut self)
        ensures
            *final(self) == (Backend {
                window_adapter_created: true,
                ..*old(self)
            }),
    {
        self.window_adapter_created = true;
    }

    /// Enters the dispatch loop.  The loop is one-shot: entry is accepted
    /// exactly once, and a second call, whether the loop is still running
    /// or already stopped, is refused with the re-entrancy error and
    /// changes nothing.  On entry the wake signal becomes live for the
    /// proxy, the termination flag is reset, and every job queued before
    /// the start stays queued for the first iteration.
    pub fn begin_event_loop(&mut self) -> (r: Result<(), PlatformError>)
        requires
            old(self).window_adapter_created,
        ensures
            old(self).phase is Idle ==> {
                &&& r is Ok
                &&& final(self).phase is Running
                &&& final(self).proxy@ == loop_started_transition(old(self).proxy@)
                &&& final(self).session == old(self).session
                &&& final(self).renderer == old(self).renderer
                &&& final(self).renderer_fallback_warning == old(self).renderer_fallback_warning
                &&& final(self).window_adapter_created
            },
            !(old(self).phase is Idle) ==> r == Err::<(), PlatformError>(
                PlatformError::ReentrantEventLoop,
            ) && *final(self) == *old(self),
    {
        match self.phase {
            LoopPhase::Idle => {
                self.phase = LoopPhase::Running;
                self.proxy.signal_registered = true;
                self.proxy.wake_pending = false;
                self.proxy.quit_requested = false;
                Ok(())
            }
            _ => Err(PlatformError::ReentrantEventLoop),
        }
    }

    /// The check at each iteration boundary: whether a termination request
    /// has been observed, in which case the loop exits.
    pub fn should_exit(&self) -> (r: bool)
        ensures
            r == self.proxy@.quit_requested,
            self.phase is Running ==> r == self.is_terminating(),
    {
        self.proxy.quit_requested
    }

    /// Leaves the dispatch loop.  The reactor and the channel's receiving
    /// end are dropped with it: the wake signal disappears, undelivered
    /// jobs are discarded, and from here on both proxy operations fail
    /// with the terminated-loop error.
    pub fn end_event_loop(&mut self)
        requires
            old(self).phase is Running,
        ensures
            final(self).phase is Stopped,
            final(self).proxy@ == loop_stopped_transition(old(self).proxy@),
            final(self).session == old(self).session,
            final(self).renderer == old(self).renderer,
            final(self).renderer_fallback_warning == old(self).renderer_fallback_warning,
            final(self).window_adapter_created == old(self).window_adapter_created,
    {
        self.phase = LoopPhase::Stopped;
        self.proxy.signal_registered = false;
        self.proxy.wake_pending = false;
        self.proxy.channel_open = false;
        self.proxy.pending = Vec::new();
        proof {
            assert(self.proxy.pending@ =~= Seq::<T>::empty());
        }
    }
}

} // verus!
