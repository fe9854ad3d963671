use socketcan::frame::CanAnyFrame;
use socketcan::socket::{
    frame_from_read, recv_outcome, should_retry_read, CanFilter, RecvOutcome, ShouldRetry, CANFD_MTU, CAN_MTU, EINPROGRESS,
    MSG_CTRUNC,
};

#[test]
fn timeouts_are_retried() {
    assert!(std::io::Error::from(std::io::ErrorKind::WouldBlock).should_retry());
    assert!(std::io::Error::from_raw_os_error(EINPROGRESS).should_retry());
    assert!(!std::io::Error::from(std::io::ErrorKind::TimedOut).should_retry());
    assert!(!std::io::Error::from_raw_os_error(19).should_retry());

    let ok: Result<u8, std::io::Error> = Ok(1);
    assert!(!ok.should_retry());
    let err: Result<u8, std::io::Error> = Err(std::io::Error::from(std::io::ErrorKind::WouldBlock));
    assert!(err.should_retry());

    assert!(should_retry_read(true, None));
    assert!(should_retry_read(false, Some(EINPROGRESS)));
    assert!(!should_retry_read(false, Some(11 + 1)));
}

#[test]
fn read_size_selects_the_frame_type() {
    let mut data = [0u8; 64];
    data[0] = 0xAA;
    data[9] = 0xBB;
    match frame_from_read(CAN_MTU, 0x123, 2, 0, data) {
        Some(CanAnyFrame::Normal(f)) => assert_eq!(f.data(), &[0xAA, 0]),
        other => panic!("expected a classic frame, got {other:?}"),
    }
    match frame_from_read(CANFD_MTU, 0x123, 10, 0, data) {
        Some(CanAnyFrame::Fd(f)) => {
            assert_eq!(f.len(), 12);
            assert_eq!(f.data()[9], 0xBB);
            assert_eq!(f.data()[10], 0);
        },
        other => panic!("expected an FD frame, got {other:?}"),
    }
    assert!(frame_from_read(20, 0x123, 2, 0, data).is_none());
}

#[test]
fn filters() {
    assert_eq!(CanFilter::new(0x123, 0x7FF), CanFilter { can_id: 0x123, can_mask: 0x7FF });
    assert_eq!(CanFilter::new_inverted(0x123, 0x7FF).can_id, 0x2000_0123);
    assert_eq!(CanFilter::from_pair((1, 2)), CanFilter::new(1, 2));
}

#[test]
fn recvmsg_outcomes() {
    assert_eq!(recv_outcome(-1, 0), RecvOutcome::Failed);
    assert_eq!(recv_outcome(-1, MSG_CTRUNC), RecvOutcome::Failed);
    assert_eq!(recv_outcome(16, MSG_CTRUNC), RecvOutcome::ControlTruncated);
    assert_eq!(recv_outcome(16, 0x20), RecvOutcome::Received(16));
    assert_eq!(recv_outcome(80, 0), RecvOutcome::Received(80));
}
