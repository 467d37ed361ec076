use std::collections::BTreeMap;

use jute::backend::commands::{
    execute_request, iopub_kind, run_cell, run_cell_step, start_cell, IopubContent, IopubKind,
    RunCellEvent,
};
use jute::backend::wire_protocol::{
    ClearOutput, DisplayData, ErrorReply, ExecuteResult, KernelConnection, KernelMessage,
    KernelMessageType, KernelStatus, Status, Stream,
};
use jute::Error;

fn stream(name: &str, text: &str) -> IopubContent {
    IopubContent::Stream(Stream { name: name.to_string(), text: text.to_string() })
}

fn status(state: KernelStatus) -> IopubContent {
    IopubContent::Status(Status { execution_state: state })
}

fn data(mime: &str, value: &str) -> BTreeMap<String, serde_json::Value> {
    let mut map = BTreeMap::new();
    map.insert(mime.to_string(), serde_json::Value::String(value.to_string()));
    map
}

#[test]
fn execute_and_stdout_scenario() {
    let request = execute_request("print('hi')");
    assert_eq!(request.content.code, "print('hi')");
    let outcome = run_cell(vec![Ok(stream("stdout", "hi\n")), Ok(status(KernelStatus::Idle))]);
    assert_eq!(outcome.events, vec![RunCellEvent::Stdout("hi\n".to_string())]);
    assert!(outcome.finished);
}

#[test]
fn error_traceback_scenario() {
    let error = ErrorReply {
        ename: "NameError".to_string(),
        evalue: "x".to_string(),
        traceback: vec!["Traceback…".to_string(), "NameError: x".to_string()],
    };
    let outcome =
        run_cell(vec![Ok(IopubContent::Error(error.clone())), Ok(status(KernelStatus::Idle))]);
    assert!(outcome.finished);
    assert_eq!(outcome.events.len(), 1);
    match &outcome.events[0] {
        RunCellEvent::Error(got) => {
            assert_eq!(got.ename, "NameError");
            assert_eq!(got.evalue, "x");
            assert_eq!(got.traceback, vec!["Traceback…".to_string(), "NameError: x".to_string()]);
        }
        other => panic!("unexpected event {other:?}"),
    }
}

#[test]
fn execute_request_has_the_fixed_flags() {
    let request = execute_request("x = 1");
    assert_eq!(request.header.msg_type, KernelMessageType::ExecuteRequest);
    assert_eq!(request.header.session, "jute-session");
    assert_eq!(request.header.username, "jute-user");
    assert_eq!(request.header.version, "5.4");
    assert_eq!(request.header.msg_id.len(), 36);
    assert_eq!(request.parent_header, None);
    assert!(request.buffers.is_empty());
    assert_eq!(request.content.code, "x = 1");
    assert!(!request.content.silent);
    assert!(request.content.store_history);
    assert!(request.content.user_expressions.is_empty());
    assert!(!request.content.allow_stdin);
    assert!(request.content.stop_on_error);
}

#[test]
fn each_kind_of_message_gives_its_event() {
    let result = ExecuteResult {
        execution_count: 3,
        data: data("text/plain", "2"),
        metadata: BTreeMap::new(),
    };
    let shown = DisplayData {
        data: data("text/html", "<b>1</b>"),
        metadata: BTreeMap::new(),
        transient: None,
    };
    let clear = ClearOutput { wait: true };
    let outcome = run_cell(vec![
        Ok(status(KernelStatus::Busy)),
        Ok(IopubContent::Ignored),
        Ok(stream("stdout", "a")),
        Ok(stream("stderr", "b")),
        Ok(stream("other", "c")),
        Ok(IopubContent::ExecuteResult(result.clone())),
        Ok(IopubContent::DisplayData(shown.clone())),
        Ok(IopubContent::UpdateDisplayData(shown.clone())),
        Ok(IopubContent::ClearOutput(clear.clone())),
        Ok(status(KernelStatus::Starting)),
        Ok(status(KernelStatus::Idle)),
    ]);
    assert!(outcome.finished);
    assert_eq!(
        outcome.events,
        vec![
            RunCellEvent::Stdout("a".to_string()),
            RunCellEvent::Stderr("b".to_string()),
            RunCellEvent::Stderr("c".to_string()),
            RunCellEvent::ExecuteResult(result),
            RunCellEvent::DisplayData(shown.clone()),
            RunCellEvent::UpdateDisplayData(shown),
            RunCellEvent::ClearOutput(clear),
        ]
    );
}

#[test]
fn nothing_behind_the_end_is_read() {
    let outcome = run_cell(vec![
        Ok(stream("stdout", "1")),
        Ok(status(KernelStatus::Idle)),
        Ok(stream("stdout", "2")),
        Err(Error::KernelDisconnect),
    ]);
    assert!(outcome.finished);
    assert_eq!(outcome.events, vec![RunCellEvent::Stdout("1".to_string())]);
}

#[test]
fn a_run_without_idle_is_not_finished() {
    let outcome = run_cell(vec![Ok(status(KernelStatus::Busy)), Ok(stream("stdout", "1"))]);
    assert!(!outcome.finished);
    assert_eq!(outcome.events, vec![RunCellEvent::Stdout("1".to_string())]);
    let outcome = run_cell(Vec::new());
    assert!(!outcome.finished);
    assert!(outcome.events.is_empty());
}

#[test]
fn a_lost_transport_ends_the_run_with_a_disconnect() {
    let outcome = run_cell(vec![
        Ok(stream("stdout", "1")),
        Err(Error::KernelDisconnect),
        Ok(stream("stdout", "2")),
    ]);
    assert!(outcome.finished);
    assert_eq!(
        outcome.events,
        vec![
            RunCellEvent::Stdout("1".to_string()),
            RunCellEvent::Disconnect("disconnected from the kernel".to_string()),
        ]
    );
    let outcome = run_cell(vec![Err(Error::KernelDisconnect)]);
    assert!(outcome.finished);
    assert_eq!(
        outcome.events,
        vec![RunCellEvent::Disconnect("disconnected from the kernel".to_string())]
    );
}

#[test]
fn a_message_that_cannot_be_read_does_not_end_the_run() {
    let unreadable = || Err(Error::DeserializeMessage("missing field `name`".to_string()));
    let outcome = run_cell(vec![unreadable()]);
    assert!(!outcome.finished);
    assert!(outcome.events.is_empty());

    let outcome = run_cell(vec![
        Ok(stream("stdout", "1")),
        unreadable(),
        Err(Error::SerdeJson("trailing characters".to_string())),
        Ok(stream("stdout", "2")),
        Ok(status(KernelStatus::Idle)),
        Ok(stream("stdout", "3")),
    ]);
    assert!(outcome.finished);
    assert_eq!(
        outcome.events,
        vec![RunCellEvent::Stdout("1".to_string()), RunCellEvent::Stdout("2".to_string())]
    );

    let step = run_cell_step(unreadable());
    assert!(!step.done);
    assert_eq!(step.event, None);
}

#[test]
fn steps_tell_event_and_end() {
    let step = run_cell_step(Ok(status(KernelStatus::Idle)));
    assert!(step.done);
    assert_eq!(step.event, None);
    let step = run_cell_step(Ok(status(KernelStatus::Busy)));
    assert!(!step.done);
    assert_eq!(step.event, None);
    let step = run_cell_step(Ok(stream("stdout", "x")));
    assert!(!step.done);
    assert_eq!(step.event, Some(RunCellEvent::Stdout("x".to_string())));
    let step = run_cell_step(Err(Error::KernelDisconnect));
    assert!(step.done);
    assert_eq!(
        step.event,
        Some(RunCellEvent::Disconnect("disconnected from the kernel".to_string()))
    );
}

#[test]
fn kinds_read_from_iopub() {
    assert_eq!(iopub_kind(&KernelMessageType::Status), IopubKind::Status);
    assert_eq!(iopub_kind(&KernelMessageType::Stream), IopubKind::Stream);
    assert_eq!(iopub_kind(&KernelMessageType::ExecuteResult), IopubKind::ExecuteResult);
    assert_eq!(iopub_kind(&KernelMessageType::DisplayData), IopubKind::DisplayData);
    assert_eq!(iopub_kind(&KernelMessageType::UpdateDisplayData), IopubKind::UpdateDisplayData);
    assert_eq!(iopub_kind(&KernelMessageType::ClearOutput), IopubKind::ClearOutput);
    assert_eq!(iopub_kind(&KernelMessageType::Error), IopubKind::Error);
    assert_eq!(iopub_kind(&KernelMessageType::ExecuteInput), IopubKind::Ignored);
    assert_eq!(iopub_kind(&KernelMessageType::ExecuteReply), IopubKind::Ignored);
    assert_eq!(iopub_kind(&KernelMessageType::Other("comm_open".to_string())), IopubKind::Ignored);
}

#[test]
fn kernel_status_names() {
    assert_eq!(KernelStatus::from_wire_name("starting"), Some(KernelStatus::Starting));
    assert_eq!(KernelStatus::from_wire_name("idle"), Some(KernelStatus::Idle));
    assert_eq!(KernelStatus::from_wire_name("busy"), Some(KernelStatus::Busy));
    assert_eq!(KernelStatus::from_wire_name("Idle"), None);
    assert_eq!(KernelStatus::from_wire_name(""), None);
    assert_eq!(KernelStatus::Starting.wire_name(), "starting");
    assert_eq!(KernelStatus::Idle.wire_name(), "idle");
    assert_eq!(KernelStatus::Busy.wire_name(), "busy");
}

#[test]
fn error_texts() {
    assert_eq!(
        Error::Subprocess("no such file".to_string()).to_string(),
        "failed to run subprocess: no such file"
    );
    assert_eq!(
        Error::KernelConnect("refused".to_string()).to_string(),
        "could not connect to the kernel: refused"
    );
    assert_eq!(Error::KernelDisconnect.to_string(), "disconnected from the kernel");
    assert_eq!(Error::KernelNotFound.to_string(), "kernel not found");
    assert_eq!(Error::KernelProcessNotFound.to_string(), "kernel process not found");
    assert_eq!(Error::InvalidUrl("x".to_string()).to_string(), "invalid URL: x");
    assert_eq!(Error::ReqwestError("x".to_string()).to_string(), "HTTP failure: x");
    assert_eq!(
        Error::DeserializeMessage("x".to_string()).to_string(),
        "could not deserialize message: x"
    );
    assert_eq!(Error::Zmq("x".to_string()).to_string(), "zeromq: x");
    assert_eq!(Error::SerdeJson("x".to_string()).to_string(), "serde_json error: x");
    assert_eq!(Error::Filesystem("x".to_string()).to_string(), "filesystem error: x");
}

#[test]
fn starting_a_cell_drains_the_queue() {
    let mut conn = KernelConnection::new();
    conn.publish(KernelMessage::new(KernelMessageType::Stream, serde_json::Value::Null));
    conn.publish(KernelMessage::new(KernelMessageType::Status, serde_json::Value::Null));
    assert_eq!(conn.queue_len(), 2);
    let request = start_cell(&mut conn, "1 + 1").unwrap();
    assert_eq!(conn.queue_len(), 0);
    assert_eq!(request.header.msg_type, KernelMessageType::ExecuteRequest);
    assert_eq!(request.content.code, "1 + 1");
    assert!(request.content.store_history);
    assert!(request.content.stop_on_error);
    assert!(!request.content.silent);
    assert!(!request.content.allow_stdin);

    conn.close();
    assert_eq!(start_cell(&mut conn, "1 + 1"), Err(Error::KernelDisconnect));
}
