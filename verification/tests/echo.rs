use liltcp::echo::{EchoAction, EchoEvent, EchoPhase, EchoTask};
use liltcp::socket::{ConnectError, RecvError, SendError};

#[test]
fn echo_connects_first() {
    let mut task = EchoTask::new(5);
    assert_eq!(task.phase(), EchoPhase::Connecting);
    assert!(task.expects(EchoEvent::Connected(Ok(()))));
    assert!(!task.expects(EchoEvent::Received(Ok(1))));
    assert!(!task.expects(EchoEvent::Sent(Ok(1))));
    assert_eq!(task.step(EchoEvent::Connected(Ok(()))), EchoAction::Recv);
    assert_eq!(task.phase(), EchoPhase::Receiving);
}

#[test]
fn echo_sends_back_what_it_received() {
    let mut task = EchoTask::new(5);
    task.step(EchoEvent::Connected(Ok(())));
    assert_eq!(task.step(EchoEvent::Received(Ok(5))), EchoAction::Send { from: 0, to: 5 });
    assert_eq!(task.step(EchoEvent::Sent(Ok(5))), EchoAction::Recv);
    assert_eq!(task.step(EchoEvent::Received(Ok(2))), EchoAction::Send { from: 0, to: 2 });
    assert_eq!(task.step(EchoEvent::Sent(Ok(2))), EchoAction::Recv);
}

#[test]
fn echo_sends_the_rest_after_a_partial_send() {
    let mut task = EchoTask::new(8);
    task.step(EchoEvent::Connected(Ok(())));
    assert_eq!(task.step(EchoEvent::Received(Ok(8))), EchoAction::Send { from: 0, to: 8 });
    assert_eq!(task.step(EchoEvent::Sent(Ok(3))), EchoAction::Send { from: 3, to: 8 });
    assert_eq!(task.phase(), EchoPhase::Sending { from: 3, to: 8 });
    assert_eq!(task.step(EchoEvent::Sent(Ok(1))), EchoAction::Send { from: 4, to: 8 });
    assert_eq!(task.step(EchoEvent::Sent(Ok(4))), EchoAction::Recv);
}

#[test]
fn echo_with_nothing_received_receives_again() {
    let mut task = EchoTask::new(5);
    task.step(EchoEvent::Connected(Ok(())));
    assert_eq!(task.step(EchoEvent::Received(Ok(0))), EchoAction::Recv);
    assert_eq!(task.phase(), EchoPhase::Receiving);
}

#[test]
fn echo_traps_on_every_error() {
    let mut task = EchoTask::new(5);
    assert_eq!(
        task.step(EchoEvent::Connected(Err(ConnectError::Unaddressable))),
        EchoAction::Trap
    );
    assert_eq!(task.phase(), EchoPhase::Trapped);

    let mut task = EchoTask::new(5);
    assert_eq!(
        task.step(EchoEvent::Connected(Err(ConnectError::InvalidState))),
        EchoAction::Trap
    );

    let mut task = EchoTask::new(5);
    task.step(EchoEvent::Connected(Ok(())));
    assert_eq!(task.step(EchoEvent::Received(Err(RecvError::InvalidState))), EchoAction::Trap);

    let mut task = EchoTask::new(5);
    task.step(EchoEvent::Connected(Ok(())));
    assert_eq!(task.step(EchoEvent::Received(Err(RecvError::Finished))), EchoAction::Trap);

    let mut task = EchoTask::new(5);
    task.step(EchoEvent::Connected(Ok(())));
    task.step(EchoEvent::Received(Ok(4)));
    assert_eq!(task.step(EchoEvent::Sent(Err(SendError::InvalidState))), EchoAction::Trap);
    assert_eq!(task.phase(), EchoPhase::Trapped);
}

#[test]
fn echo_knows_which_outcomes_can_come() {
    let mut task = EchoTask::new(5);
    task.step(EchoEvent::Connected(Ok(())));
    assert!(task.expects(EchoEvent::Received(Ok(5))));
    assert!(task.expects(EchoEvent::Received(Err(RecvError::Finished))));
    // more than the buffer holds cannot have been received
    assert!(!task.expects(EchoEvent::Received(Ok(6))));
    assert!(!task.expects(EchoEvent::Connected(Ok(()))));
    task.step(EchoEvent::Received(Ok(4)));
    assert!(task.expects(EchoEvent::Sent(Ok(4))));
    assert!(task.expects(EchoEvent::Sent(Ok(1))));
    // more than was offered cannot have been sent
    assert!(!task.expects(EchoEvent::Sent(Ok(5))));
    assert!(!task.expects(EchoEvent::Received(Ok(1))));
    task.step(EchoEvent::Sent(Err(SendError::InvalidState)));
    // a trapped task waits for nothing
    assert!(!task.expects(EchoEvent::Connected(Ok(()))));
    assert!(!task.expects(EchoEvent::Received(Ok(0))));
    assert!(!task.expects(EchoEvent::Sent(Ok(0))));
}
