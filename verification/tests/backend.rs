use linuxkms_backend::backend::{Backend, LoopPhase};
use linuxkms_backend::error::{EventLoopError, PlatformError};
use linuxkms_backend::renderer::{select_renderer, RendererStrategy};
use linuxkms_backend::session::{ActivationStatus, SeatEvent, Session};

fn activated_session() -> Session {
    let mut s = Session::new();
    let r = s.activation_step(&vec![SeatEvent::Enable], 1);
    assert_eq!(r, Ok(ActivationStatus::Activated));
    s
}

#[test]
fn named_renderers_are_recognized() {
    assert_eq!(
        select_renderer(Some("skia-vulkan")),
        (RendererStrategy::SkiaVulkan, false)
    );
    assert_eq!(
        select_renderer(Some("skia-opengl")),
        (RendererStrategy::SkiaOpenGL, false)
    );
    assert_eq!(
        select_renderer(Some("femtovg")),
        (RendererStrategy::FemtoVG, false)
    );
}

#[test]
fn no_name_selects_default_silently() {
    assert_eq!(
        select_renderer(None),
        (RendererStrategy::SkiaThenFemtoVG, false)
    );
}

#[test]
fn unknown_name_falls_back_to_default_with_warning() {
    assert_eq!(
        select_renderer(Some("painted-by-hand")),
        (RendererStrategy::SkiaThenFemtoVG, true)
    );
    let b: Backend<u32> = Backend::new_with_renderer_by_name(Some("painted-by-hand"), activated_session());
    assert_eq!(b.renderer, RendererStrategy::SkiaThenFemtoVG);
    assert!(b.renderer_fallback_warning);
}

#[test]
fn new_backend_starts_idle_with_live_channel() {
    let b: Backend<u32> = Backend::new(activated_session());
    assert_eq!(b.phase, LoopPhase::Idle);
    assert_eq!(b.renderer, RendererStrategy::SkiaThenFemtoVG);
    assert!(!b.renderer_fallback_warning);
    assert!(!b.window_adapter_created);
    assert!(b.proxy.channel_open);
    assert!(!b.proxy.signal_registered);
    assert!(b.proxy.pending.is_empty());
}

#[test]
fn jobs_sent_before_start_run_in_order_before_first_render() {
    // Jobs A, B and C are sent while the loop is not yet running.
    let mut b: Backend<&'static str> = Backend::new(activated_session());
    assert_eq!(b.proxy.invoke_from_event_loop("A"), Ok(()));
    assert_eq!(b.proxy.invoke_from_event_loop("B"), Ok(()));
    assert_eq!(b.proxy.invoke_from_event_loop("C"), Ok(()));

    b.install_window_adapter();
    assert_eq!(b.begin_event_loop(), Ok(()));

    // First delivery after the loop starts hands out all three, in order,
    // before any render pass could depend on their effects.
    let jobs = b.proxy.take_pending_jobs();
    assert_eq!(jobs, vec!["A", "B", "C"]);

    // Nothing is delivered a second time.
    assert!(b.proxy.take_pending_jobs().is_empty());
}

#[test]
fn quit_while_running_exits_at_next_boundary() {
    let mut b: Backend<u32> = Backend::new(activated_session());
    b.install_window_adapter();
    assert_eq!(b.begin_event_loop(), Ok(()));
    assert!(!b.should_exit());
    assert_eq!(b.proxy.quit_event_loop(), Ok(()));
    assert!(b.proxy.wake_pending);
    assert!(b.should_exit());
}

#[test]
fn second_run_of_event_loop_is_rejected() {
    let mut b: Backend<u32> = Backend::new(activated_session());
    b.install_window_adapter();
    assert_eq!(b.begin_event_loop(), Ok(()));
    assert_eq!(b.proxy.quit_event_loop(), Ok(()));
    assert!(b.should_exit());
    b.end_event_loop();
    assert_eq!(b.phase, LoopPhase::Stopped);

    // The loop is one-shot: a second invocation reports the re-entrancy
    // error instead of silently restarting.
    assert_eq!(
        b.begin_event_loop(),
        Err(PlatformError::ReentrantEventLoop)
    );
    assert_eq!(
        PlatformError::ReentrantEventLoop.message(),
        "re-entering the event loop is not supported"
    );
}

#[test]
fn reentry_while_running_is_rejected() {
    let mut b: Backend<u32> = Backend::new(activated_session());
    b.install_window_adapter();
    assert_eq!(b.begin_event_loop(), Ok(()));
    assert_eq!(
        b.begin_event_loop(),
        Err(PlatformError::ReentrantEventLoop)
    );
    assert_eq!(b.phase, LoopPhase::Running);
}

#[test]
fn proxy_operations_fail_after_loop_stops() {
    let mut b: Backend<u32> = Backend::new(activated_session());
    b.install_window_adapter();
    assert_eq!(b.begin_event_loop(), Ok(()));
    assert_eq!(b.proxy.quit_event_loop(), Ok(()));
    b.end_event_loop();
    assert_eq!(
        b.proxy.quit_event_loop(),
        Err(EventLoopError::EventLoopTerminated)
    );
    assert_eq!(
        b.proxy.invoke_from_event_loop(3),
        Err(EventLoopError::EventLoopTerminated)
    );
}

#[test]
fn begin_resets_termination_flag_and_keeps_queue() {
    let mut b: Backend<u32> = Backend::new(activated_session());
    assert_eq!(b.proxy.invoke_from_event_loop(1), Ok(()));
    b.install_window_adapter();
    assert_eq!(b.begin_event_loop(), Ok(()));
    assert!(b.proxy.signal_registered);
    assert!(!b.proxy.quit_requested);
    assert_eq!(b.proxy.pending.len(), 1);
}
