use liltcp::socket::{ConnectError, RecvError, SendError, TcpState};
use liltcp::step::Step;
use liltcp::tcp::{decide_connect, decide_recv, decide_send};

#[test]
fn connect_fails_on_a_socket_that_is_not_open() {
    assert_eq!(decide_connect(TcpState::Closed), Step::Ready(Err(ConnectError::InvalidState)));
    assert_eq!(decide_connect(TcpState::TimeWait), Step::Ready(Err(ConnectError::InvalidState)));
}

#[test]
fn connect_waits_during_the_handshake() {
    assert_eq!(decide_connect(TcpState::SynSent), Step::Pending);
    assert_eq!(decide_connect(TcpState::SynReceived), Step::Pending);
}

#[test]
fn connect_completes_in_every_other_state() {
    for state in [
        TcpState::Established,
        TcpState::FinWait1,
        TcpState::FinWait2,
        TcpState::CloseWait,
        TcpState::Closing,
        TcpState::LastAck,
    ] {
        assert_eq!(decide_connect(state), Step::Ready(Ok(())));
    }
}

#[test]
fn open_states_are_all_but_closed_and_time_wait() {
    assert!(!TcpState::Closed.open());
    assert!(!TcpState::TimeWait.open());
    for state in [
        TcpState::Listen,
        TcpState::SynSent,
        TcpState::SynReceived,
        TcpState::Established,
        TcpState::FinWait1,
        TcpState::FinWait2,
        TcpState::CloseWait,
        TcpState::Closing,
        TcpState::LastAck,
    ] {
        assert!(state.open());
    }
}

#[test]
fn send_waits_when_nothing_was_taken() {
    assert_eq!(decide_send(Ok(0)), Step::Pending);
}

#[test]
fn send_completes_with_the_count() {
    assert_eq!(decide_send(Ok(1)), Step::Ready(Ok(1)));
    assert_eq!(decide_send(Ok(1024)), Step::Ready(Ok(1024)));
    assert_eq!(decide_send(Ok(usize::MAX)), Step::Ready(Ok(usize::MAX)));
}

#[test]
fn send_hands_the_error_on() {
    assert_eq!(
        decide_send(Err(SendError::InvalidState)),
        Step::Ready(Err(SendError::InvalidState))
    );
}

#[test]
fn recv_of_nothing_is_zero_whatever_the_socket_said() {
    assert_eq!(decide_recv(Ok(0), 0), Step::Ready(Ok(0)));
    assert_eq!(decide_recv(Err(RecvError::Finished), 0), Step::Ready(Ok(0)));
    assert_eq!(decide_recv(Err(RecvError::InvalidState), 0), Step::Ready(Ok(0)));
}

#[test]
fn recv_waits_when_nothing_has_arrived() {
    assert_eq!(decide_recv(Ok(0), 1), Step::Pending);
    assert_eq!(decide_recv(Ok(0), 1024), Step::Pending);
}

#[test]
fn recv_completes_with_the_count() {
    assert_eq!(decide_recv(Ok(1), 1), Step::Ready(Ok(1)));
    assert_eq!(decide_recv(Ok(5), 1024), Step::Ready(Ok(5)));
}

#[test]
fn recv_turns_the_end_of_the_stream_into_zero() {
    assert_eq!(decide_recv(Err(RecvError::Finished), 16), Step::Ready(Ok(0)));
}

#[test]
fn recv_hands_an_invalid_state_on() {
    assert_eq!(
        decide_recv(Err(RecvError::InvalidState), 16),
        Step::Ready(Err(RecvError::InvalidState))
    );
}
