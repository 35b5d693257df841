use dmx_rdm_transport::uart::{
    break_wait_step, frame_step, is_break_byte, no_break_progress, within_timeout, BreakWait,
    FrameProgress, FrameStep, FtdiDriverConfig, Rp2040DriverError, UartEvent,
};

#[test]
fn default_latency_timer_is_two_millis() {
    assert_eq!(FtdiDriverConfig::default().latency_timer_us, 2_000);
}

#[test]
fn short_timeout_raised_to_latency_timer() {
    let config = FtdiDriverConfig { latency_timer_us: 16_000 };
    assert_eq!(config.check_timeout(1), 16_000);
    assert_eq!(config.check_timeout(15_999), 16_000);
    assert_eq!(config.check_timeout(16_000), 16_000);
    assert_eq!(config.check_timeout(40_000), 40_000);
    assert!(config.timeout_raised(10));
    assert!(!config.timeout_raised(20_000));
}

#[test]
fn zero_timeout_bypasses_floor() {
    let config = FtdiDriverConfig { latency_timer_us: 16_000 };
    assert_eq!(config.check_timeout(0), 0);
    assert!(!config.timeout_raised(0));
}

#[test]
fn lone_zero_byte_is_break() {
    assert!(is_break_byte(1, 0));
    assert!(!is_break_byte(1, 5));
    assert!(!is_break_byte(0, 0));
    assert!(within_timeout(1_999, 2_000));
    assert!(!within_timeout(2_000, 2_000));
}

#[test]
fn no_break_progress_cases() {
    assert_eq!(no_break_progress(0, 0, 10, 5, 100), FrameProgress::Continue { head: 0, restart_clock: false });
    assert_eq!(no_break_progress(0, 0, 10, 100, 100), FrameProgress::TimedOut);
    assert_eq!(no_break_progress(0, 3, 10, 5_000, 100), FrameProgress::Continue { head: 3, restart_clock: true });
    assert_eq!(no_break_progress(3, 0, 10, 1_999, 100), FrameProgress::Continue { head: 3, restart_clock: false });
    assert_eq!(no_break_progress(3, 0, 10, 2_000, 100), FrameProgress::Complete(3));
    assert_eq!(no_break_progress(7, 3, 10, 0, 100), FrameProgress::Complete(10));
    assert_eq!(no_break_progress(0, 0, 0, 0, 100), FrameProgress::Complete(0));
}

#[test]
fn break_wait_cases() {
    assert_eq!(break_wait_step(UartEvent::Break), BreakWait::BreakDetected);
    assert_eq!(break_wait_step(UartEvent::Received(4)), BreakWait::KeepWaiting);
    assert_eq!(break_wait_step(UartEvent::Parity), BreakWait::KeepWaiting);
    assert_eq!(break_wait_step(UartEvent::WouldBlock { timer_expired: false }), BreakWait::KeepWaiting);
    assert_eq!(break_wait_step(UartEvent::WouldBlock { timer_expired: true }), BreakWait::TimedOut);
}

#[test]
fn frame_step_cases() {
    assert_eq!(frame_step(0, 8, UartEvent::Received(3)), FrameStep::Continue { head: 3, restart_timer: true });
    assert_eq!(frame_step(5, 8, UartEvent::Received(3)), FrameStep::Complete(8));
    assert_eq!(frame_step(0, 8, UartEvent::Break), FrameStep::Continue { head: 0, restart_timer: false });
    assert_eq!(frame_step(4, 8, UartEvent::Break), FrameStep::Complete(4));
    assert_eq!(frame_step(0, 8, UartEvent::WouldBlock { timer_expired: true }), FrameStep::TimedOut);
    assert_eq!(frame_step(2, 8, UartEvent::WouldBlock { timer_expired: true }), FrameStep::Complete(2));
    assert_eq!(frame_step(2, 8, UartEvent::WouldBlock { timer_expired: false }), FrameStep::Continue { head: 2, restart_timer: false });
}

#[test]
fn frame_step_line_faults() {
    assert_eq!(frame_step(1, 8, UartEvent::Overrun), FrameStep::Failed(Rp2040DriverError::Overflow));
    assert_eq!(frame_step(1, 8, UartEvent::Parity), FrameStep::Failed(Rp2040DriverError::Parity));
    assert_eq!(frame_step(1, 8, UartEvent::Framing), FrameStep::Failed(Rp2040DriverError::Framing));
    assert_eq!(Rp2040DriverError::Parity.message(), "Parity error!");
    assert_eq!(Rp2040DriverError::Framing.message(), "Framing error!");
    assert_eq!(Rp2040DriverError::Overflow.message(), "Overflow error!");
}
