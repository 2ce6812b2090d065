use bau_client::client::{RpcClient, Transfer};
use bau_client::dispatch::{
    announce, exit_status, report_poll, report_send, Action, Dispatcher, Input,
};
use bau_client::frame::split_frames;
use bau_client::method::{decode, Method};

/// A server on the other side of a socket that never fails: it records what
/// is written and answers each request with the bytes it was told to.
struct Session {
    written: Vec<Vec<u8>>,
    polls: usize,
    shown: Vec<String>,
    answer: Vec<u8>,
}

fn run(inputs: &[&str], answer: &[u8]) -> (Session, Dispatcher, usize) {
    let mut session =
        Session { written: Vec::new(), polls: 0, shown: Vec::new(), answer: answer.to_vec() };
    let mut client = RpcClient::connect(Ok(())).unwrap().0;
    let mut dispatcher = Dispatcher::new();
    let mut read = 0;
    for text in inputs {
        read += 1;
        let action = dispatcher.step(Input::Line(text.to_string()));
        session.shown.extend(announce(&action));
        match action {
            Action::Send(m) => {
                let frame = client.begin_send(m).unwrap();
                session.written.push(frame);
                let outcome = client.finish(Transfer::Received(session.answer.clone()));
                session.shown.extend(report_send(&outcome));
            }
            Action::Poll => {
                client.begin_receive().unwrap();
                session.polls += 1;
                let outcome = client.finish(Transfer::Received(Vec::new()));
                session.shown.extend(report_poll(&outcome));
            }
            Action::Help | Action::Invalid => {}
            Action::Stop(_) => break,
        }
    }
    (session, dispatcher, read)
}

fn method_field(frame: &[u8]) -> String {
    let text = String::from_utf8(frame.to_vec()).unwrap();
    let rest = text.split("\"method\":\"").nth(1).unwrap();
    rest.split('"').next().unwrap().to_string()
}

const RESET_REPLY: &[u8] = b"{\"jsonrpc\":\"2.0\",\"id\":1,\"result\":{\"ResetEvent\":null}}\n";

#[test]
fn one_shot_enable_sends_enable_and_exits_zero() {
    let method = decode("enable");
    assert_eq!(method, Method::Enable);
    let mut client = RpcClient::connect(Ok(())).unwrap().0;
    let frame = client.begin_send(method).unwrap();
    let (frames, rest) = split_frames(&frame);
    assert_eq!(frames.len(), 1);
    assert!(rest.is_empty());
    assert_eq!(method_field(&frames[0]), "enable");
    let outcome = client.finish(Transfer::Received(
        b"{\"jsonrpc\":\"2.0\",\"id\":1,\"result\":{\"EnableEvent\":{\"protocol\":\"Eight\"}}}\n"
            .to_vec(),
    ));
    assert_eq!(exit_status(&outcome), 0);
}

#[test]
fn one_shot_without_a_well_formed_response_exits_non_zero() {
    let mut client = RpcClient::connect(Ok(())).unwrap().0;
    client.begin_send(decode("enable")).unwrap();
    let outcome = client.finish(Transfer::Received(b"{\"jsonrpc\":\n".to_vec()));
    assert_ne!(exit_status(&outcome), 0);

    let mut client = RpcClient::connect(Ok(())).unwrap().0;
    client.begin_send(decode("enable")).unwrap();
    let outcome = client.finish(Transfer::ReadFailed("timed out".to_string()));
    assert_ne!(exit_status(&outcome), 0);

    let mut client = RpcClient::connect(Ok(())).unwrap().0;
    client.begin_send(decode("enable")).unwrap();
    let outcome = client.finish(Transfer::Received(Vec::new()));
    assert_ne!(exit_status(&outcome), 0);

    assert!(RpcClient::connect::<()>(Err("refused".to_string())).is_err());
}

#[test]
fn status_bogus_q_sends_once_and_stops() {
    let (session, dispatcher, read) = run(&["status", "bogus", "q"], RESET_REPLY);
    assert_eq!(read, 3);
    assert_eq!(session.written.len(), 1);
    assert_eq!(method_field(&session.written[0]), "status");
    assert_eq!(session.polls, 0);
    let invalid = session.shown.iter().filter(|l| l.as_str() == "Invalid command").count();
    assert_eq!(invalid, 1);
    assert!(dispatcher.is_stopped());
    assert_eq!(session.shown.last().unwrap(), "json-rpc-client>> Shutting down");
}

#[test]
fn nothing_after_the_quit_is_read() {
    let (session, dispatcher, read) = run(&["status", "bogus", "q", "status", "check"], RESET_REPLY);
    assert_eq!(read, 3);
    assert_eq!(session.written.len(), 1);
    assert_eq!(session.polls, 0);
    assert!(dispatcher.is_stopped());
}

#[test]
fn an_empty_line_then_x_polls_once_and_stops() {
    let (session, dispatcher, read) = run(&["", "x"], RESET_REPLY);
    assert_eq!(read, 2);
    assert_eq!(session.written.len(), 0);
    assert_eq!(session.polls, 1);
    assert!(dispatcher.is_stopped());
    assert_eq!(session.shown, vec!["json-rpc-client>> Shutting down".to_string()]);
}

#[test]
fn a_failed_command_does_not_end_the_loop() {
    let (session, dispatcher, read) = run(&["status", "reset", "help"], b"not json\n");
    assert_eq!(read, 3);
    assert_eq!(session.written.len(), 2);
    assert_eq!(method_field(&session.written[0]), "status");
    assert_eq!(method_field(&session.written[1]), "reset");
    assert!(!dispatcher.is_stopped());
    assert_eq!(session.shown[0], "expected ident at line 1 column 2");
    assert_eq!(session.shown[1], "expected ident at line 1 column 2");
}

#[test]
fn what_comes_back_is_shown_in_order() {
    let answer = b"{\"jsonrpc\":\"2.0\",\"id\":1,\"result\":{\"ResetEvent\":null}}\n{\"jsonrpc\":\"2.0\",\"id\":1,\"result\":{\"DisableEvent\":null}}\n";
    let (session, _, _) = run(&["reset"], answer);
    assert_eq!(
        session.shown,
        vec![
            "json-rpc-client>> Server message:\nmethod: reset, payload: {\"reset\"}".to_string(),
            "json-rpc-client>> Server message:\nmethod: disable, payload: {\"disable\"}"
                .to_string(),
        ]
    );
}
