use highway_core::stop_signal::{SenderState, StopSignal};

#[test]
fn explicit_send_raises_the_signal_once() {
    let mut s = StopSignal::new();
    assert_eq!(s.sender, SenderState::Armed);
    assert!(!s.consumed);
    s.send();
    assert_eq!(s.sender, SenderState::Sent);
    s.consume();
    assert!(s.consumed);
}

#[test]
fn dropping_the_sender_is_a_valid_cancellation_signal() {
    let mut s = StopSignal::new();
    s.close();
    assert_eq!(s.sender, SenderState::Dropped);
    // The receiving side observes the close exactly like a send.
    s.consume();
    assert!(s.consumed);
}

#[test]
fn send_and_close_look_identical_to_the_receiver() {
    let mut sent = StopSignal::new();
    sent.send();
    let mut closed = StopSignal::new();
    closed.close();
    sent.consume();
    closed.consume();
    assert_eq!(sent.consumed, closed.consumed);
}
