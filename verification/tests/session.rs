use linuxkms_backend::device::clear_nonblock;
use linuxkms_backend::error::PlatformError;
use linuxkms_backend::session::{ActivationStatus, SeatEvent, Session};

#[test]
fn enable_within_budget_activates() {
    let mut s = Session::new();
    assert!(!s.active);
    let r = s.activation_step(&vec![SeatEvent::Enable], 1);
    assert_eq!(r, Ok(ActivationStatus::Activated));
    assert!(s.active);
    assert_eq!(s.open_device_gate(), Ok(()));
    assert_eq!(s.devices_opened, 1);
}

#[test]
fn no_events_within_budget_is_activation_timeout() {
    let mut s = Session::new();
    let r = s.activation_step(&vec![], 0);
    assert_eq!(r, Err(PlatformError::ActivationTimeout));
    assert!(!s.active);
    assert_eq!(s.open_device_gate(), Err(PlatformError::DeviceOpenFailed));
    assert_eq!(s.devices_opened, 0);
}

#[test]
fn progress_without_enable_keeps_waiting() {
    let mut s = Session::new();
    let r = s.activation_step(&vec![], 2);
    assert_eq!(r, Ok(ActivationStatus::StillWaiting));
    assert!(!s.active);
}

#[test]
fn enable_then_later_round_still_active() {
    let mut s = Session::new();
    assert_eq!(
        s.activation_step(&vec![SeatEvent::Enable], 1),
        Ok(ActivationStatus::Activated)
    );
    assert_eq!(
        s.activation_step(&vec![], 1),
        Ok(ActivationStatus::Activated)
    );
}

#[test]
fn disable_event_is_fatal() {
    let mut s = Session::new();
    let r = s.activation_step(&vec![SeatEvent::Disable], 1);
    assert_eq!(r, Err(PlatformError::SessionDeactivated));
    assert!(!s.active);
}

#[test]
fn enable_before_disable_still_fatal() {
    let mut s = Session::new();
    let r = s.activation_step(&vec![SeatEvent::Enable, SeatEvent::Disable], 2);
    assert_eq!(r, Err(PlatformError::SessionDeactivated));
}

#[test]
fn callback_enable_activates() {
    let mut s = Session::new();
    assert_eq!(s.handle_seat_event(SeatEvent::Enable), Ok(()));
    assert!(s.active);
}

#[test]
fn callback_disable_reports_unsupported() {
    let mut s = Session::new();
    assert_eq!(s.handle_seat_event(SeatEvent::Enable), Ok(()));
    assert_eq!(
        s.handle_seat_event(SeatEvent::Disable),
        Err(PlatformError::SessionDeactivated)
    );
}

#[test]
fn device_gate_counts_each_grant() {
    let mut s = Session::new();
    assert_eq!(
        s.activation_step(&vec![SeatEvent::Enable], 1),
        Ok(ActivationStatus::Activated)
    );
    assert_eq!(s.open_device_gate(), Ok(()));
    assert_eq!(s.open_device_gate(), Ok(()));
    assert_eq!(s.devices_opened, 2);
}

#[test]
fn nonblock_flag_cleared_when_set() {
    // 2048 is the non-blocking bit; 2 and 64 stand for other status flags.
    let flags: u32 = 2048 | 2 | 64;
    let cleared = clear_nonblock(flags);
    assert_eq!(cleared, 2 | 64);
    assert_eq!(cleared & 2048, 0);
}

#[test]
fn nonblock_clear_keeps_blocking_flags_unchanged() {
    let flags: u32 = 2 | 64;
    assert_eq!(clear_nonblock(flags), flags);
}

#[test]
fn nonblock_clear_on_all_bits() {
    let cleared = clear_nonblock(u32::MAX);
    assert_eq!(cleared & 2048, 0);
    assert_eq!(cleared | 2048, u32::MAX);
}

#[test]
fn construction_errors_have_messages() {
    assert_eq!(
        PlatformError::ActivationTimeout.message(),
        "timeout while waiting to activate session"
    );
    assert_eq!(PlatformError::DeviceOpenFailed.message(), "error opening device");
    assert_eq!(
        PlatformError::SessionDeactivated.message(),
        "seat deactivation is not supported"
    );
}
