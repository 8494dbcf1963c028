use std::sync::mpsc::{channel, Receiver, Sender, TryRecvError};

use captive_portal::{
    encoded_reply, exit_with_error, networks_reply, ssid, Command, CommandResult, ErrorKind,
    ExitSignal, Failure, Gateway, RequestSharedState, Response, StringError,
};

struct Worker {
    commands: Receiver<Command>,
    answers: Sender<CommandResult>,
    notices: Receiver<ExitSignal>,
}

fn portal() -> (RequestSharedState, Worker) {
    let (network_tx, commands) = channel::<Command>();
    let (answers, server_rx) = channel::<CommandResult>();
    let (exit_tx, notices) = channel::<ExitSignal>();
    let state = RequestSharedState::new(Gateway::new(192, 168, 42, 1), server_rx, network_tx, exit_tx);
    (state, Worker { commands, answers, notices })
}

fn list(names: &[&str]) -> CommandResult {
    CommandResult::NetworkList(names.iter().map(|name| name.to_string()).collect())
}

fn ok(body: &str) -> Result<Response, Failure> {
    Ok(Response { status: 200, body: body.to_string(), location: None })
}

fn failed(description: &str) -> Result<Response, Failure> {
    Err(Failure { error: StringError(description.to_string()), status: 500 })
}

#[test]
fn ssid_answers_with_the_list_as_json() {
    let (mut state, worker) = portal();
    worker.answers.send(list(&["Home", "Cafe 5"])).unwrap();
    assert_eq!(ssid(&mut state), ok("[\"Home\",\"Cafe 5\"]"));
    assert_eq!(worker.commands.try_recv(), Ok(Command::Activate));
    assert_eq!(worker.commands.try_recv(), Err(TryRecvError::Empty));
    assert_eq!(worker.notices.try_recv(), Err(TryRecvError::Empty));
}

#[test]
fn ssid_consumes_one_answer_per_request() {
    let (mut state, worker) = portal();
    worker.answers.send(list(&["first"])).unwrap();
    worker.answers.send(list(&["second"])).unwrap();
    worker.answers.send(list(&["third"])).unwrap();
    assert_eq!(ssid(&mut state), ok("[\"first\"]"));
    assert_eq!(worker.commands.try_recv(), Ok(Command::Activate));
    assert_eq!(worker.commands.try_recv(), Err(TryRecvError::Empty));
    assert_eq!(ssid(&mut state), ok("[\"second\"]"));
    assert_eq!(worker.commands.try_recv(), Ok(Command::Activate));
    assert_eq!(worker.commands.try_recv(), Err(TryRecvError::Empty));
    drop(worker.answers);
    assert_eq!(ssid(&mut state), ok("[\"third\"]"));
    assert_eq!(worker.notices.try_recv(), Err(TryRecvError::Empty));
}

#[test]
fn ssid_answers_an_empty_list() {
    let (mut state, worker) = portal();
    worker.answers.send(list(&[])).unwrap();
    assert_eq!(ssid(&mut state), ok("[]"));
}

#[test]
fn ssid_escapes_names_as_json_strings() {
    let (mut state, worker) = portal();
    worker.answers.send(list(&["a\"b", "back\\slash", "tab\there", "caf\u{e9}"])).unwrap();
    assert_eq!(
        ssid(&mut state),
        ok("[\"a\\\"b\",\"back\\\\slash\",\"tab\\there\",\"caf\u{e9}\"]")
    );
}

#[test]
fn ssid_escalates_a_command_queue_that_is_closed() {
    let (mut state, worker) = portal();
    worker.answers.send(list(&["unread"])).unwrap();
    drop(worker.commands);
    assert_eq!(ssid(&mut state), failed("Sending Command::Activate failed"));
    let notice = worker.notices.try_recv().unwrap();
    assert_eq!(notice.kind, ErrorKind::SendNetworkCommandActivate);
    assert!(notice.cause.is_some());
    assert_eq!(worker.notices.try_recv(), Err(TryRecvError::Empty));
}

#[test]
fn ssid_escalates_a_worker_that_is_gone_before_it_answers() {
    let (mut state, worker) = portal();
    drop(worker.answers);
    assert_eq!(ssid(&mut state), failed("Receiving access point SSIDs failed"));
    assert_eq!(worker.commands.try_recv(), Ok(Command::Activate));
    assert_eq!(worker.commands.try_recv(), Err(TryRecvError::Empty));
    let notice = worker.notices.try_recv().unwrap();
    assert_eq!(notice.kind, ErrorKind::RecvAccessPointSSIDs);
    assert!(notice.cause.is_some());
    assert_eq!(worker.notices.try_recv(), Err(TryRecvError::Empty));
}

#[test]
fn ssid_fails_without_a_supervisor_too() {
    let (mut state, worker) = portal();
    drop(worker.commands);
    drop(worker.notices);
    assert_eq!(ssid(&mut state), failed("Sending Command::Activate failed"));
}

#[test]
fn networks_reply_encodes_what_was_received() {
    let (mut state, worker) = portal();
    assert_eq!(networks_reply(&mut state, Ok(list(&["Home"]))), ok("[\"Home\"]"));
    assert_eq!(worker.commands.try_recv(), Err(TryRecvError::Empty));
    assert_eq!(worker.notices.try_recv(), Err(TryRecvError::Empty));
}

#[test]
fn networks_reply_escalates_a_failed_receive() {
    let (mut state, worker) = portal();
    assert_eq!(
        networks_reply(&mut state, Err("receiving on a closed channel".to_string())),
        failed("Receiving access point SSIDs failed")
    );
    assert_eq!(
        worker.notices.try_recv(),
        Ok(ExitSignal {
            kind: ErrorKind::RecvAccessPointSSIDs,
            cause: Some("receiving on a closed channel".to_string()),
        })
    );
    assert_eq!(worker.notices.try_recv(), Err(TryRecvError::Empty));
}

#[test]
fn encoded_reply_answers_with_the_text() {
    let (mut state, worker) = portal();
    assert_eq!(encoded_reply(&mut state, Ok("[\"x\"]".to_string())), ok("[\"x\"]"));
    assert_eq!(worker.notices.try_recv(), Err(TryRecvError::Empty));
}

#[test]
fn encoded_reply_escalates_an_encoder_error() {
    let (mut state, worker) = portal();
    assert_eq!(
        encoded_reply(&mut state, Err("key must be a string".to_string())),
        failed("Serializing access point SSIDs failed")
    );
    assert_eq!(
        worker.notices.try_recv(),
        Ok(ExitSignal {
            kind: ErrorKind::SerializeAccessPointSSIDs,
            cause: Some("key must be a string".to_string()),
        })
    );
    assert_eq!(worker.notices.try_recv(), Err(TryRecvError::Empty));
}

#[test]
fn exit_with_error_writes_one_notice_and_hides_the_cause() {
    let (mut state, worker) = portal();
    let outcome = exit_with_error(
        &mut state,
        "sending on a closed channel".to_string(),
        ErrorKind::SendNetworkCommandConnect,
    );
    assert_eq!(outcome, failed("Sending Command::Connect failed"));
    assert_eq!(
        worker.notices.try_recv(),
        Ok(ExitSignal {
            kind: ErrorKind::SendNetworkCommandConnect,
            cause: Some("sending on a closed channel".to_string()),
        })
    );
    assert_eq!(worker.notices.try_recv(), Err(TryRecvError::Empty));
    assert_eq!(worker.commands.try_recv(), Err(TryRecvError::Empty));
}
