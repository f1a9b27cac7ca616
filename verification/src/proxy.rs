//! The event-loop proxy: the thread-safe handle through which external code
//! influences the loop, and the job channel that carries deferred callables
//! to the loop thread.  The shell around the library serializes access to
//! one `Proxy` value and owns the real wake primitive; this module holds the
//! state the handle protects and the exact effect of each operation.

use vstd::prelude::*;
use crate::error::EventLoopError;

verus! {

/// The proxy's internal triple, plus the queue the job channel carries:
/// whether the loop's wake signal is registered (absent until the loop
/// starts, gone once it stops), whether a wake has been forced, the
/// termination flag, whether the channel's receiving end is still alive,
/// and the jobs sent but not yet delivered, in send order.
pub struct ProxyModel<T> {
    pub signal_registered: bool,
    pub wake_pending: bool,
    pub quit_requested: bool,
    pub channel_open: bool,
    pub pending: Seq<T>,
}

/// The proxy state and job channel, as one value.  The jobs are opaque to
/// the library: it moves them, in order, and never runs them.
pub struct Proxy<T> {
    pub signal_registered: bool,
    pub wake_pending: bool,
    pub quit_requested: bool,
    pub channel_open: bool,
    pub pending: Vec<T>,
}

impl<T> View for Proxy<T> {
    type V = ProxyModel<T>;

    open spec fn view(&self) -> ProxyModel<T> {
        ProxyModel {
            signal_registered: self.signal_registered,
            wake_pending: self.wake_pending,
            quit_requested: self.quit_requested,
            channel_open: self.channel_open,
            pending: self.pending@,
        }
    }
}

/// What `quit_event_loop` does: with no wake signal registered the loop is
/// not running and the request is refused; otherwise the termination flag
/// is raised and the reactor is woken at once, so termination does not wait
/// for the next timer.
pub open spec fn quit_transition<T>(m: ProxyModel<T>) -> (ProxyModel<T>, Result<
    (),
    EventLoopError,
>) {
    if m.signal_registered {
        (
            ProxyModel { quit_requested: true, wake_pending: true, ..m },
            Ok(()),
        )
    } else {
        (m, Err(EventLoopError::EventLoopTerminated))
    }
}

/// What `invoke_from_event_loop` does: with the receiving end gone the loop
/// has exited and the job is refused; otherwise the job is appended to the
/// channel, behind every job sent before it.
pub open spec fn invoke_transition<T>(m: ProxyModel<T>, job: T) -> (ProxyModel<T>, Result<
    (),
    EventLoopError,
>) {
    if m.channel_open {
        (ProxyModel { pending: m.pending.push(job), ..m }, Ok(()))
    } else {
        (m, Err(EventLoopError::EventLoopTerminated))
    }
}

/// What `take_pending_jobs` does: the loop thread takes every queued job,
/// in send order, and the queue is empty afterwards.
pub open spec fn drain_transition<T>(m: ProxyModel<T>) -> (ProxyModel<T>, Seq<T>) {
    (ProxyModel { pending: Seq::empty(), ..m }, m.pending)
}

/// What entering the dispatch loop does to the proxy state: the wake
/// signal becomes live, the termination flag and any forced wake are
/// reset, and every job sent before the start stays queued.
pub open spec fn loop_started_transition<T>(m: ProxyModel<T>) -> ProxyModel<T> {
    ProxyModel { signal_registered: true, wake_pending: false, quit_requested: false, ..m }
}

/// What leaving the dispatch loop does to the proxy state: the wake signal
/// and the channel's receiving end are dropped with the reactor, and
/// undelivered jobs are discarded with the receiver.
pub open spec fn loop_stopped_transition<T>(m: ProxyModel<T>) -> ProxyModel<T> {
    ProxyModel {
        signal_registered: false,
        wake_pending: false,
        channel_open: false,
        pending: Seq::empty(),
        ..m
    }
}

/// The proxy state after a whole sequence of send operations, first first.
pub open spec fn send_all<T>(m: ProxyModel<T>, jobs: Seq<T>) -> ProxyModel<T>
    decreases jobs.len(),
{
    if jobs.len() == 0 {
        m
    } else {
        send_all(invoke_transition(m, jobs[0]).0, jobs.drop_first())
    }
}

/// Whether every send in the sequence was accepted.
pub open spec fn all_sends_accepted<T>(m: ProxyModel<T>, jobs: Seq<T>) -> bool
    decreases jobs.len(),
{
    jobs.len() == 0 || (invoke_transition(m, jobs[0]).1 is Ok && all_sends_accepted(
        invoke_transition(m, jobs[0]).0,
        jobs.drop_first(),
    ))
}

impl<T> Proxy<T> {
    /// The proxy as the backend creates it: the channel is live from the
    /// start, so jobs may be sent before the loop runs; the wake signal
    /// appears only once the loop starts.
    pub fn new() -> (p: Proxy<T>)
        ensures
            p@ == (ProxyModel {
                signal_registered: false,
                wake_pending: false,
                quit_requested: false,
                channel_open: true,
                pending: Seq::<T>::empty(),
            }),
    {
        let p = Proxy {
            signal_registered: false,
            wake_pending: false,
            quit_requested: false,
            channel_open: true,
            pending: Vec::new(),
        };
        proof {
            assert(p@.pending =~= Seq::<T>::empty());
        }
        p
    }

    /// Requests termination of the loop.  Callable from any thread at any
    /// time: it reports the terminated-loop error rather than blocking or
    /// panicking when the loop is not running.
    pub fn quit_event_loop(&mut self) -> (r: Result<(), EventLoopError>)
        ensures
            (final(self)@, r) == quit_transition(old(self)@),
    {
        if self.signal_registered {
            self.quit_requested = true;
            self.wake_pending = true;
            Ok(())
        } else {
            Err(EventLoopError::EventLoopTerminated)
        }
    }

    /// Sends a job to be run on the loop thread.  Callable from any thread
    /// at any time: it reports the terminated-loop error rather than
    /// blocking or panicking once the loop has exited.
    pub fn invoke_from_event_loop(&mut self, job: T) -> (r: Result<(), EventLoopError>)
        ensures
            (final(self)@, r) == invoke_transition(old(self)@, job),
    {
        if self.channel_open {
            self.pending.push(job);
            Ok(())
        } else {
            Err(EventLoopError::EventLoopTerminated)
        }
    }

    /// Hands the loop thread every job queued so far, in send order, and
    /// empties the queue, so no job can be delivered twice.
    pub fn take_pending_jobs(&mut self) -> (jobs: Vec<T>)
        ensures
            final(self)@ == drain_transition(old(self)@).0,
            jobs@ == drain_transition(old(self)@).1,
    {
        let mut jobs: Vec<T> = Vec::new();
        core::mem::swap(&mut jobs, &mut self.pending);
        proof {
            assert(self.pending@ =~= Seq::<T>::empty());
        }
        jobs
    }
}

/// Sends on an open channel are all accepted, leave the channel open and
/// every other part of the proxy state untouched, and append the jobs in
/// send order behind what was already queued.
pub proof fn lemma_send_all_appends<T>(m: ProxyModel<T>, jobs: Seq<T>)
    requires
        m.channel_open,
    ensures
        all_sends_accepted(m, jobs),
        send_all(m, jobs) == (ProxyModel { pending: m.pending + jobs, ..m }),
    decreases jobs.len(),
{
    if jobs.len() == 0 {
        assert(m.pending + jobs =~= m.pending);
        assert(send_all(m, jobs) == m);
    } else {
        let m1 = invoke_transition(m, jobs[0]).0;
        lemma_send_all_appends(m1, jobs.drop_first());
        assert(m.pending.push(jobs[0]) + jobs.drop_first() =~= m.pending + jobs);
    }
}

/// Every job sent before the loop starts is delivered to the loop thread
/// exactly once, in submission order: the queue survives the start of the
/// loop, the first drain after it yields exactly the sent sequence, and
/// nothing is left behind to be delivered again.
pub proof fn lemma_jobs_delivered_once_in_order<T>(m: ProxyModel<T>, jobs: Seq<T>)
    requires
        m.channel_open,
        m.pending == Seq::<T>::empty(),
    ensures
        all_sends_accepted(m, jobs),
        drain_transition(send_all(m, jobs)).1 == jobs,
        drain_transition(loop_started_transition(send_all(m, jobs))).1 == jobs,
        drain_transition(send_all(m, jobs)).0.pending == Seq::<T>::empty(),
{
    lemma_send_all_appends(m, jobs);
    assert(m.pending + jobs =~= jobs);
}

/// A quit request on a started loop never fails and never waits: it is
/// accepted, the termination flag is up for the loop's next check, and the
/// forced wake bounds the delay until that check by the current wait
/// timeout rather than by any timer.
pub proof fn lemma_quit_terminates_promptly<T>(m: ProxyModel<T>)
    requires
        m.signal_registered,
    ensures
        quit_transition(m).1 == Ok::<(), EventLoopError>(()),
        quit_transition(m).0.quit_requested,
        quit_transition(m).0.wake_pending,
{
}

/// Before the loop has started, a quit request is refused with the
/// terminated-loop error; after the loop has stopped, both operations are;
/// and a refused operation leaves the proxy state exactly as it was, so it
/// neither panics nor blocks nor disturbs a racing caller.  (A job sent
/// before the loop starts is not refused: the channel already queues it
/// for the first iteration.)
pub proof fn lemma_operations_fail_cleanly<T>(m: ProxyModel<T>, job: T)
    ensures
        !m.signal_registered ==> quit_transition(m) == (
            m,
            Err::<(), EventLoopError>(EventLoopError::EventLoopTerminated),
        ),
        !m.channel_open ==> invoke_transition(m, job) == (
            m,
            Err::<(), EventLoopError>(EventLoopError::EventLoopTerminated),
        ),
        quit_transition(loop_stopped_transition(m)).1 == Err::<(), EventLoopError>(
            EventLoopError::EventLoopTerminated,
        ),
        invoke_transition(loop_stopped_transition(m), job).1 == Err::<(), EventLoopError>(
            EventLoopError::EventLoopTerminated,
        ),
{
}

} // verus!
