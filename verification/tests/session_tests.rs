use canbridge::frame::CanFrame;
use canbridge::session::{session_step, BridgeAction, BridgeEvent, FrameReader, SessionState};

#[test]
fn frames_are_forwarded_to_the_opposite_side() {
    let bus_frame = CanFrame::Data { id: 10, extended: false, payload: vec![1, 2, 3] };
    let (state, action) = session_step(BridgeEvent::BusFrame(bus_frame));
    assert_eq!(state, SessionState::Running);
    assert_eq!(
        action,
        BridgeAction::WriteTcp(CanFrame::Data { id: 10, extended: false, payload: vec![1, 2, 3] })
    );

    let tcp_frame = CanFrame::Remote { id: 5, extended: false, requested_len: 2 };
    let (state, action) = session_step(BridgeEvent::TcpFrame(tcp_frame));
    assert_eq!(state, SessionState::Running);
    assert_eq!(
        action,
        BridgeAction::SendBus(CanFrame::Remote { id: 5, extended: false, requested_len: 2 })
    );
}

#[test]
fn session_survives_single_transient_fault() {
    // A simulated bus-read error does not end the session; the next
    // successful read is still forwarded.
    let (state, action) = session_step(BridgeEvent::BusFault);
    assert_eq!(state, SessionState::Running);
    assert_eq!(action, BridgeAction::Continue);

    let frame = CanFrame::Data { id: 10, extended: false, payload: vec![4] };
    let (state, action) = session_step(BridgeEvent::BusFrame(frame));
    assert_eq!(state, SessionState::Running);
    assert_eq!(
        action,
        BridgeAction::WriteTcp(CanFrame::Data { id: 10, extended: false, payload: vec![4] })
    );

    let (state, action) = session_step(BridgeEvent::TcpFault);
    assert_eq!(state, SessionState::Running);
    assert_eq!(action, BridgeAction::Continue);
}

#[test]
fn clean_close_and_peer_reset_are_told_apart() {
    let (state, action) = session_step(BridgeEvent::BusClosed);
    assert_eq!(state, SessionState::Closed);
    assert_eq!(action, BridgeAction::Finish);

    let (state, action) = session_step(BridgeEvent::TcpClosed { mid_frame: false });
    assert_eq!(state, SessionState::Closed);
    assert_eq!(action, BridgeAction::Finish);

    let (state, action) = session_step(BridgeEvent::TcpClosed { mid_frame: true });
    assert_eq!(state, SessionState::Faulted);
    assert_eq!(action, BridgeAction::Finish);
}

#[test]
fn tcp_peer_frame_reaches_exactly_one_bus_send() {
    // A TCP peer sends the eight-byte encoding of one data frame while the
    // bus is silent: the reader yields exactly one frame, the step demands
    // exactly one bus send (with the post-send delay), and the pump is back
    // to waiting with an empty buffer.
    let mut reader = FrameReader::new();
    reader.feed(&[0, 0, 0, 10, 3, 1, 2, 3]);

    let frame = reader.poll_frame().unwrap().unwrap();
    assert_eq!(frame, CanFrame::Data { id: 10, extended: false, payload: vec![1, 2, 3] });

    let (state, action) = session_step(BridgeEvent::TcpFrame(frame));
    assert_eq!(state, SessionState::Running);
    assert_eq!(
        action,
        BridgeAction::SendBus(CanFrame::Data { id: 10, extended: false, payload: vec![1, 2, 3] })
    );

    assert!(matches!(reader.poll_frame(), Ok(None)));
    assert!(!reader.has_partial());
    assert_eq!(reader.pending(), 0);
}

#[test]
fn reader_accumulates_split_reads() {
    let mut reader = FrameReader::new();
    reader.feed(&[0, 0, 0]);
    assert!(matches!(reader.poll_frame(), Ok(None)));
    assert_eq!(reader.pending(), 3);
    assert!(reader.has_partial());

    reader.feed(&[10, 3, 1]);
    assert!(matches!(reader.poll_frame(), Ok(None)));
    assert_eq!(reader.pending(), 6);

    reader.feed(&[2, 3, 64, 0, 0, 10, 3]);
    let first = reader.poll_frame().unwrap().unwrap();
    assert_eq!(first, CanFrame::Data { id: 10, extended: false, payload: vec![1, 2, 3] });
    let second = reader.poll_frame().unwrap().unwrap();
    assert_eq!(second, CanFrame::Remote { id: 10, extended: false, requested_len: 3 });
    assert!(!reader.has_partial());
}

#[test]
fn mid_frame_leftover_marks_peer_reset() {
    let mut reader = FrameReader::new();
    reader.feed(&[0, 0, 0, 10, 3, 1]);
    assert!(matches!(reader.poll_frame(), Ok(None)));
    // End of input would now find a partial frame buffered.
    assert!(reader.has_partial());
    let (state, _) = session_step(BridgeEvent::TcpClosed { mid_frame: reader.has_partial() });
    assert_eq!(state, SessionState::Faulted);
}
