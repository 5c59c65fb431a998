use netconnpool::errors::IoErrorKind;
use netconnpool::udp::{drain_next, DrainAction, drain_step, probe_says_data, udp_clear_max_packets, udp_clear_timeout, udp_read_timeout, DrainStep, RecvOutcome};

#[test]
fn udp_drain_settings() {
    assert_eq!(udp_clear_timeout(0), 100_000_000);
    assert_eq!(udp_clear_timeout(7), 7);
    assert_eq!(udp_clear_max_packets(0), 100);
    assert_eq!(udp_clear_max_packets(3), 3);
    assert_eq!(udp_read_timeout(10), 10);
    assert_eq!(udp_read_timeout(80_000_000), 50_000_000);
}

#[test]
fn udp_drain_steps() {
    assert_eq!(drain_step(RecvOutcome::Received), DrainStep::Continue);
    assert_eq!(drain_step(RecvOutcome::Failed(IoErrorKind::TimedOut)), DrainStep::Done);
    assert_eq!(drain_step(RecvOutcome::Failed(IoErrorKind::WouldBlock)), DrainStep::Done);
    assert_eq!(
        drain_step(RecvOutcome::Failed(IoErrorKind::UnexpectedEof)),
        DrainStep::Fail(IoErrorKind::UnexpectedEof)
    );
    assert!(probe_says_data(RecvOutcome::Received));
    assert!(!probe_says_data(RecvOutcome::Failed(IoErrorKind::TimedOut)));
    assert!(probe_says_data(RecvOutcome::Failed(IoErrorKind::WouldBlock)));
}

#[test]
fn drain_reads_within_its_limits() {
    // the packet limit (100 when zero) and the deadline both stop the drain
    assert_eq!(drain_next(0, 3, 0, 1_000_000_000), DrainAction::Read { timeout: 50_000_000 });
    assert_eq!(drain_next(3, 3, 0, 1_000_000_000), DrainAction::Stop);
    assert_eq!(drain_next(99, 0, 0, 1_000_000_000), DrainAction::Read { timeout: 50_000_000 });
    assert_eq!(drain_next(100, 0, 0, 1_000_000_000), DrainAction::Stop);
    assert_eq!(drain_next(0, 3, 990, 1_000), DrainAction::Read { timeout: 10 });
    assert_eq!(drain_next(0, 3, 1_001, 1_000), DrainAction::Stop);
}
