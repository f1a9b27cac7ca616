//! The session handle: exclusive, arbiter-granted ownership of the display
//! and input hardware.  The arbiter's blocking calls live outside the
//! library; this module holds the activation state machine they drive and
//! the invariant that no device descriptor is handed out before the session
//! is active.

use vstd::prelude::*;
use crate::error::PlatformError;

verus! {

/// The two notifications the session arbiter delivers through its callback.
#[derive(Clone, Copy, Debug, PartialEq, Eq, Structural)]
pub enum SeatEvent {
    /// The session gained control of the hardware.
    Enable,
    /// The session lost control of the hardware.
    Disable,
}

/// How one round of the activation handshake ended when it did not fail.
#[derive(Clone, Copy, Debug, PartialEq, Eq, Structural)]
pub enum ActivationStatus {
    /// The session is now active; the handshake is over.
    Activated,
    /// The round made progress but delivered no enable notification yet;
    /// the caller should drive the arbiter again.
    StillWaiting,
}

/// The session's observable state: whether the arbiter has enabled it, and
/// how many device descriptors it has handed out.
pub struct Session {
    pub active: bool,
    pub devices_opened: u64,
}

/// Folds a round's notifications into the activation flag, stopping at the
/// first disable notification, which is fatal (`true` in the second
/// position).  Enable notifications before that point take effect.
pub open spec fn fold_seat_events(active: bool, events: Seq<SeatEvent>) -> (bool, bool)
    decreases events.len(),
{
    if events.len() == 0 {
        (active, false)
    } else if events[0] is Disable {
        (active, true)
    } else {
        fold_seat_events(true, events.drop_first())
    }
}

/// Whether a round's notifications contain an enable notification.
pub open spec fn contains_enable(events: Seq<SeatEvent>) -> bool
    decreases events.len(),
{
    events.len() > 0 && (events[0] is Enable || contains_enable(events.drop_first()))
}

/// Whether a round's notifications contain a disable notification.
pub open spec fn contains_disable(events: Seq<SeatEvent>) -> bool
    decreases events.len(),
{
    events.len() > 0 && (events[0] is Disable || contains_disable(events.drop_first()))
}

/// What `Session::activation_step` does, as one function of the session,
/// the round's notifications, and the arbiter's progress count: the
/// notifications are folded into the activation flag; a disable
/// notification is fatal; an active session ends the handshake; an
/// inactive round that processed nothing within its budget is a timeout;
/// anything else keeps waiting.
pub open spec fn activation_step_spec(
    s: Session,
    events: Seq<SeatEvent>,
    dispatched: u64,
) -> (Session, Result<ActivationStatus, PlatformError>) {
    let (active, fatal) = fold_seat_events(s.active, events);
    let stepped = Session { active, devices_opened: s.devices_opened };
    if fatal {
        (stepped, Err(PlatformError::SessionDeactivated))
    } else if active {
        (stepped, Ok(ActivationStatus::Activated))
    } else if dispatched == 0 {
        (stepped, Err(PlatformError::ActivationTimeout))
    } else {
        (stepped, Ok(ActivationStatus::StillWaiting))
    }
}

/// What `Session::open_device_gate` does: the session hands out a
/// descriptor only once active, and counts it.
pub open spec fn device_gate_spec(s: Session) -> (Session, Result<(), PlatformError>) {
    if s.active {
        (Session { active: s.active, devices_opened: (s.devices_opened + 1) as u64 }, Ok(()))
    } else {
        (s, Err(PlatformError::DeviceOpenFailed))
    }
}

impl Session {
    /// The session as it stands right after the arbiter connection is
    /// opened: not yet enabled, no devices handed out.
    pub fn new() -> (s: Session)
        ensures
            !s.active,
            s.devices_opened == 0,
    {
        Session { active: false, devices_opened: 0 }
    }

    /// The arbiter callback's effect on the session.  An enable
    /// notification activates it; a disable notification has no supported
    /// handling and is fatal, on the principle that continuing with a
    /// revoked session would corrupt rendering.
    pub fn handle_seat_event(&mut self, event: SeatEvent) -> (r: Result<(), PlatformError>)
        ensures
            event is Enable ==> r is Ok && *final(self) == (Session {
                active: true,
                devices_opened: old(self).devices_opened,
            }),
            event is Disable ==> r == Err::<(), PlatformError>(PlatformError::SessionDeactivated)
                && *final(self) == *old(self),
    {
        match event {
            SeatEvent::Enable => {
                self.active = true;
                Ok(())
            }
            SeatEvent::Disable => Err(PlatformError::SessionDeactivated),
        }
    }

    /// One round of the post-open activation handshake.  The caller blocks
    /// in the arbiter's dispatch primitive with a per-attempt budget, then
    /// reports the notifications the callback received and how many events
    /// the arbiter processed.  A disable notification is fatal; a round
    /// that processes nothing within its budget is an activation timeout.
    pub fn activation_step(&mut self, events: &Vec<SeatEvent>, dispatched: u64) -> (r: Result<
        ActivationStatus,
        PlatformError,
    >)
        ensures
            (*final(self), r) == activation_step_spec(*old(self), events@, dispatched),
    {
        let ghost start = *self;
        let mut i: usize = 0;
        assert(events@.skip(0) =~= events@);
        while i < events.len()
            invariant
                i <= events@.len(),
                start == *old(self),
                self.devices_opened == start.devices_opened,
                fold_seat_events(start.active, events@) == fold_seat_events(
                    self.active,
                    events@.skip(i as int),
                ),
            decreases events@.len() - i,
        {
            match events[i] {
                SeatEvent::Disable => {
                    assert(events@.skip(i as int)[0] is Disable);
                    return Err(PlatformError::SessionDeactivated);
                }
                SeatEvent::Enable => {
                    assert(events@.skip(i as int)[0] is Enable);
                    assert(events@.skip(i as int).drop_first() =~= events@.skip(i + 1));
                    self.active = true;
                }
            }
            i += 1;
        }
        assert(events@.skip(i as int) =~= Seq::<SeatEvent>::empty());
        if self.active {
            Ok(ActivationStatus::Activated)
        } else if dispatched == 0 {
            Err(PlatformError::ActivationTimeout)
        } else {
            Ok(ActivationStatus::StillWaiting)
        }
    }

    /// Every arbiter device-open request passes through here first:
    /// descriptors are granted only once the session is active.
    pub fn open_device_gate(&mut self) -> (r: Result<(), PlatformError>)
        requires
            old(self).devices_opened < u64::MAX,
        ensures
            (*final(self), r) == device_gate_spec(*old(self)),
    {
        if self.active {
            self.devices_opened = self.devices_opened + 1;
            Ok(())
        } else {
            Err(PlatformError::DeviceOpenFailed)
        }
    }
}

/// A round of the handshake that delivers an enable notification and no
/// disable notification always ends the handshake in activation, whatever
/// the arbiter's progress count, and a device request right after it
/// succeeds.
pub proof fn lemma_enable_within_budget_activates(s: Session, events: Seq<SeatEvent>, dispatched: u64)
    requires
        contains_enable(events),
        !contains_disable(events),
    ensures
        activation_step_spec(s, events, dispatched).1 == Ok::<ActivationStatus, PlatformError>(
            ActivationStatus::Activated,
        ),
        activation_step_spec(s, events, dispatched).0.active,
        device_gate_spec(activation_step_spec(s, events, dispatched).0).1 is Ok,
{
    lemma_fold_enable_no_disable(s.active, events);
}

/// Folding a round that holds an enable notification and no disable
/// notification always ends active and never fatal.
proof fn lemma_fold_enable_no_disable(active: bool, events: Seq<SeatEvent>)
    requires
        contains_enable(events),
        !contains_disable(events),
    ensures
        fold_seat_events(active, events).0,
        !fold_seat_events(active, events).1,
    decreases events.len(),
{
    if events.len() > 0 && !(events[0] is Disable) {
        if contains_enable(events.drop_first()) {
            lemma_fold_enable_no_disable(true, events.drop_first());
        } else {
            lemma_no_disable_keeps_folding(true, events.drop_first());
        }
    }
}

/// Folding a round without a disable notification never reports the fatal
/// outcome, and an already active session stays active.
proof fn lemma_no_disable_keeps_folding(active: bool, events: Seq<SeatEvent>)
    requires
        !contains_disable(events),
    ensures
        !fold_seat_events(active, events).1,
        active ==> fold_seat_events(active, events).0,
    decreases events.len(),
{
    if events.len() > 0 {
        lemma_no_disable_keeps_folding(true, events.drop_first());
    }
}

/// A round of the handshake on an inactive session that processes nothing
/// within its budget fails with the activation timeout, the session stays
/// inactive and exactly as it was, and no device is ever handed out: a
/// device request on it is refused.
pub proof fn lemma_activation_timeout_opens_no_device(s: Session)
    requires
        !s.active,
    ensures
        activation_step_spec(s, Seq::<SeatEvent>::empty(), 0).1 == Err::<
            ActivationStatus,
            PlatformError,
        >(PlatformError::ActivationTimeout),
        activation_step_spec(s, Seq::<SeatEvent>::empty(), 0).0 == s,
        device_gate_spec(s) == (s, Err::<(), PlatformError>(PlatformError::DeviceOpenFailed)),
{
}

} // verus!
