use actor_lite::error::{ActorError, ActorHandleSendError, ShutdownError};
use actor_lite::handler::Handler;
use actor_lite::protocol::{ActorProtocol, Status};

#[derive(Debug, Clone, PartialEq)]
enum TestMessage {
    Increment,
    GetCount,
    Fail,
}

struct CountingHandler {
    count: usize,
    replies: Vec<usize>,
    observed: Vec<TestMessage>,
    error_seen: bool,
}

impl CountingHandler {
    fn new() -> CountingHandler {
        CountingHandler { count: 0, replies: Vec::new(), observed: Vec::new(), error_seen: false }
    }
}

impl Handler<TestMessage> for CountingHandler {
    fn handle_message(&mut self, message: TestMessage) -> Result<(), ActorError> {
        self.observed.push(message.clone());
        match message {
            TestMessage::Increment => {
                self.count += 1;
                Ok(())
            }
            TestMessage::GetCount => {
                self.replies.push(self.count);
                Ok(())
            }
            TestMessage::Fail => Err(ActorError::new("intentional failure".to_string())),
        }
    }

    fn on_error(&mut self, _error: ActorError) {
        self.error_seen = true;
    }
}

#[test]
fn counter_scenario() {
    let mut p = ActorProtocol::new(CountingHandler::new());
    p.send(TestMessage::GetCount).unwrap();
    p.send(TestMessage::Increment).unwrap();
    p.send(TestMessage::GetCount).unwrap();
    p.shutdown().unwrap();
    assert_eq!(p.status(), Status::DoneGraceful);
    assert_eq!(p.handler_ref().replies, vec![0, 1]);
}

#[test]
fn fifo_order_preserved() {
    let mut p = ActorProtocol::new(CountingHandler::new());
    let sent = vec![
        TestMessage::Increment,
        TestMessage::Increment,
        TestMessage::GetCount,
        TestMessage::Increment,
        TestMessage::GetCount,
    ];
    for m in sent.clone() {
        p.send(m).unwrap();
    }
    p.shutdown().unwrap();
    assert_eq!(p.handler_ref().observed, sent);
    assert_eq!(p.handler_ref().replies, vec![2, 3]);
}

#[test]
fn fatal_failure_reports_once_and_stops() {
    let mut p = ActorProtocol::new(CountingHandler::new());
    p.send(TestMessage::Increment).unwrap();
    p.send(TestMessage::Fail).unwrap();
    p.send(TestMessage::Increment).unwrap();
    p.send(TestMessage::GetCount).unwrap();
    while p.status() == Status::Running {
        if !p.step() {
            break;
        }
    }
    assert_eq!(p.status(), Status::DoneFatal);
    assert!(p.handler_ref().error_seen);
    assert_eq!(p.error_reports(), 1);
    // Nothing sent after the failing message ever reached the handler.
    assert_eq!(
        p.handler_ref().observed,
        vec![TestMessage::Increment, TestMessage::Fail]
    );
    assert!(p.handler_ref().replies.is_empty());

    // Termination is permanent: further turns of the loop change nothing.
    assert!(!p.step());
    assert_eq!(p.status(), Status::DoneFatal);
    assert_eq!(p.error_reports(), 1);
    assert_eq!(
        p.handler_ref().observed,
        vec![TestMessage::Increment, TestMessage::Fail]
    );

    // A send after fatal termination hands the message back.
    match p.send(TestMessage::Increment) {
        Err(ActorHandleSendError::SendError(m)) => assert_eq!(m, TestMessage::Increment),
        other => panic!("expected the rejected message back, got {:?}", other),
    }
}

#[test]
fn apply_outcome_decides_continuation() {
    let mut p = ActorProtocol::new(CountingHandler::new());
    assert!(p.apply_outcome(Ok(())));
    assert_eq!(p.status(), Status::Running);
    assert_eq!(p.error_reports(), 0);
    assert!(!p.apply_outcome(Err(ActorError::new("fatal".to_string()))));
    assert_eq!(p.status(), Status::DoneFatal);
    assert_eq!(p.error_reports(), 1);
    assert!(p.handler_ref().error_seen);
}

#[test]
fn shutdown_empty_succeeds() {
    let mut p = ActorProtocol::new(CountingHandler::new());
    assert!(p.shutdown().is_ok());
    assert_eq!(p.status(), Status::DoneGraceful);
    assert!(p.handler_ref().observed.is_empty());
}

#[test]
fn shutdown_is_one_time() {
    let mut p = ActorProtocol::new(CountingHandler::new());
    p.shutdown().unwrap();
    assert!(matches!(p.shutdown(), Err(ShutdownError::NoneSender)));
}

#[test]
fn send_after_shutdown_rejected() {
    let mut p = ActorProtocol::new(CountingHandler::new());
    p.send(TestMessage::Increment).unwrap();
    p.shutdown().unwrap();
    assert!(matches!(
        p.send(TestMessage::Increment),
        Err(ActorHandleSendError::NoneSender)
    ));
    // The rejected message never reached the handler.
    assert_eq!(p.handler_ref().observed, vec![TestMessage::Increment]);
}

#[test]
fn shutdown_processes_all_pending() {
    let mut p = ActorProtocol::new(CountingHandler::new());
    for _ in 0..5 {
        p.send(TestMessage::Increment).unwrap();
    }
    p.shutdown().unwrap();
    assert_eq!(p.status(), Status::DoneGraceful);
    assert_eq!(p.handler_ref().count, 5);
    assert_eq!(p.handler_ref().observed.len(), 5);
}
