//! High-level operations on a kernel connection: asking for kernel
//! information, and running a cell.
//!
//! Sending and receiving is the caller's part. What is sent, and what the
//! messages that come back mean, is decided here.

use std::collections::BTreeMap;

use vstd::prelude::*;
use vstd::string::*;

use super::wire_protocol::{
    is_random_uuid, ClearOutput, DisplayData, ErrorReply, ExecuteRequest, ExecuteResult,
    KernelConnection, KernelInfoReply, KernelInfoRequest, KernelMessage, KernelMessageType,
    KernelStatus, Reply, Status, Stream,
};
use crate::text::str_eq;
use crate::Error;

verus! {

/// The request that asks a kernel for information about itself.
pub fn kernel_info_request() -> (request: KernelMessage<KernelInfoRequest>)
    ensures
        request.is_fresh(KernelMessageType::KernelInfoRequest, KernelInfoRequest {  }),
        is_random_uuid(request.header.msg_id@),
{
    KernelMessage::new(KernelMessageType::KernelInfoRequest, KernelInfoRequest {  })
}

/// Get information out of the reply to a `kernel_info_request`.
///
/// A reply with status `ok` gives the information it carries. A reply that
/// reports an error or an abort counts as a disconnect.
pub fn kernel_info(reply: Reply<KernelInfoReply>) -> (info: Result<KernelInfoReply, Error>)
    ensures
        info == match reply {
            Reply::Okay(content) => Ok(content),
            Reply::Error(_) => Err(Error::KernelDisconnect),
            Reply::Abort => Err(Error::KernelDisconnect),
        },
{
    match reply {
        Reply::Okay(content) => Ok(content),
        Reply::Error(_) => Err(Error::KernelDisconnect),
        Reply::Abort => Err(Error::KernelDisconnect),
    }
}

/// Events that can be received while running a cell.
#[derive(Debug, Clone, PartialEq, Eq)]
pub enum RunCellEvent {
    /// Standard output from the kernel.
    Stdout(String),
    /// Standard error from the kernel.
    Stderr(String),
    /// Result of cell execution (i.e., if the last line is an expression).
    ExecuteResult(ExecuteResult),
    /// Display data in a MIME type (e.g., a matplotlib chart).
    DisplayData(DisplayData),
    /// Update previously-displayed data with a display ID.
    UpdateDisplayData(DisplayData),
    /// Clear the output of a cell.
    ClearOutput(ClearOutput),
    /// Error if the cell raised an exception.
    Error(ErrorReply),
    /// Special message indicating the kernel disconnected.
    Disconnect(String),
}

/// Which content an iopub message carries, as far as running a cell reads it.
#[derive(Debug, Clone, Copy, PartialEq, Eq, Structural)]
pub enum IopubKind {
    /// A kernel status.
    Status,
    /// Text for one of the output streams.
    Stream,
    /// The result of an execution.
    ExecuteResult,
    /// Data to display.
    DisplayData,
    /// Data that replaces data displayed before.
    UpdateDisplayData,
    /// A request to clear the output.
    ClearOutput,
    /// An error raised by the code.
    Error,
    /// Anything else, the echo of the input among it: not read.
    Ignored,
}

/// The content that running a cell reads from a message of the given type.
pub open spec fn kind_of(msg_type: KernelMessageType) -> IopubKind {
    match msg_type {
        KernelMessageType::Status => IopubKind::Status,
        KernelMessageType::Stream => IopubKind::Stream,
        KernelMessageType::ExecuteResult => IopubKind::ExecuteResult,
        KernelMessageType::DisplayData => IopubKind::DisplayData,
        KernelMessageType::UpdateDisplayData => IopubKind::UpdateDisplayData,
        KernelMessageType::ClearOutput => IopubKind::ClearOutput,
        KernelMessageType::Error => IopubKind::Error,
        _ => IopubKind::Ignored,
    }
}

/// Tell which content to read from an iopub message of the given type.
pub fn iopub_kind(msg_type: &KernelMessageType) -> (kind: IopubKind)
    ensures
        kind == kind_of(*msg_type),
{
    match msg_type {
        KernelMessageType::Status => IopubKind::Status,
        KernelMessageType::Stream => IopubKind::Stream,
        KernelMessageType::ExecuteResult => IopubKind::ExecuteResult,
        KernelMessageType::DisplayData => IopubKind::DisplayData,
        KernelMessageType::UpdateDisplayData => IopubKind::UpdateDisplayData,
        KernelMessageType::ClearOutput => IopubKind::ClearOutput,
        KernelMessageType::Error => IopubKind::Error,
        _ => IopubKind::Ignored,
    }
}

/// The content of an iopub message, read according to its type.
#[derive(Debug, Clone, PartialEq, Eq)]
pub enum IopubContent {
    /// The content of a `status` message.
    Status(Status),
    /// The content of a `stream` message.
    Stream(Stream),
    /// The content of an `execute_result` message.
    ExecuteResult(ExecuteResult),
    /// The content of a `display_data` message.
    DisplayData(DisplayData),
    /// The content of an `update_display_data` message.
    UpdateDisplayData(DisplayData),
    /// The content of a `clear_output` message.
    ClearOutput(ClearOutput),
    /// The content of an `error` message.
    Error(ErrorReply),
    /// A message whose content is not read.
    Ignored,
}

/// What came of waiting for the next iopub message: its content, or the
/// error that receiving or reading it ran into. The transport is lost where
/// the error is a disconnect; any other error tells of a message that
/// arrived and could not be read.
pub type Received = Result<IopubContent, Error>;

/// What one received message means for the caller of a running cell.
pub struct RunCellStep {
    /// The event to hand to the caller, if the message gives one.
    pub event: Option<RunCellEvent>,
    /// Whether the run is over with this message.
    pub done: bool,
}

/// Whether a run is over with this message: the kernel reports that it is
/// idle, or the transport is lost. A message that could not be read does not
/// end the run.
pub open spec fn ends_run(received: Received) -> bool {
    match received {
        Ok(IopubContent::Status(status)) => status.execution_state == KernelStatus::Idle,
        Ok(_) => false,
        Err(Error::KernelDisconnect) => true,
        Err(_) => false,
    }
}

/// Whether `event` is what the caller is handed for this message.
///
/// Text on the stream `stdout` is standard output, text on any other stream
/// is standard error. Results, display data, updates, requests to clear the
/// output and errors are handed on as they are. A status, an ignored
/// message and a message that could not be read give no event. The loss of
/// the transport gives a disconnect with the text of the error.
pub open spec fn is_event_of(received: Received, event: Option<RunCellEvent>) -> bool {
    match received {
        Ok(IopubContent::Status(_)) => event is None,
        Ok(IopubContent::Stream(stream)) => if stream.name@ == "stdout"@ {
            event == Some(RunCellEvent::Stdout(stream.text))
        } else {
            event == Some(RunCellEvent::Stderr(stream.text))
        },
        Ok(IopubContent::ExecuteResult(result)) => event == Some(
            RunCellEvent::ExecuteResult(result),
        ),
        Ok(IopubContent::DisplayData(data)) => event == Some(RunCellEvent::DisplayData(data)),
        Ok(IopubContent::UpdateDisplayData(data)) => event == Some(
            RunCellEvent::UpdateDisplayData(data),
        ),
        Ok(IopubContent::ClearOutput(clear)) => event == Some(RunCellEvent::ClearOutput(clear)),
        Ok(IopubContent::Error(error)) => event == Some(RunCellEvent::Error(error)),
        Ok(IopubContent::Ignored) => event is None,
        Err(Error::KernelDisconnect) => event matches Some(RunCellEvent::Disconnect(text))
            && text@ == Error::KernelDisconnect.text(),
        Err(_) => event is None,
    }
}

/// Whether a message gives the caller an event.
pub open spec fn gives_event(received: Received) -> bool {
    match received {
        Ok(IopubContent::Status(_)) => false,
        Ok(IopubContent::Ignored) => false,
        Ok(_) => true,
        Err(Error::KernelDisconnect) => true,
        Err(_) => false,
    }
}

/// Turn one received message into what the caller of a running cell is
/// handed, and tell whether the run is over.
pub fn run_cell_step(received: Received) -> (step: RunCellStep)
    ensures
        step.done == ends_run(received),
        is_event_of(received, step.event),
        step.event is Some <==> gives_event(received),
{
    match received {
        Ok(IopubContent::Status(status)) => {
            let done = match status.execution_state {
                KernelStatus::Idle => true,
                _ => false,
            };
            RunCellStep { event: None, done }
        },
        Ok(IopubContent::Stream(stream)) => {
            let event = if str_eq(stream.name.as_str(), "stdout") {
                RunCellEvent::Stdout(stream.text)
            } else {
                RunCellEvent::Stderr(stream.text)
            };
            RunCellStep { event: Some(event), done: false }
        },
        Ok(IopubContent::ExecuteResult(result)) => RunCellStep {
            event: Some(RunCellEvent::ExecuteResult(result)),
            done: false,
        },
        Ok(IopubContent::DisplayData(data)) => RunCellStep {
            event: Some(RunCellEvent::DisplayData(data)),
            done: false,
        },
        Ok(IopubContent::UpdateDisplayData(data)) => RunCellStep {
            event: Some(RunCellEvent::UpdateDisplayData(data)),
            done: false,
        },
        Ok(IopubContent::ClearOutput(clear)) => RunCellStep {
            event: Some(RunCellEvent::ClearOutput(clear)),
            done: false,
        },
        Ok(IopubContent::Error(error)) => RunCellStep {
            event: Some(RunCellEvent::Error(error)),
            done: false,
        },
        Ok(IopubContent::Ignored) => RunCellStep { event: None, done: false },
        Err(Error::KernelDisconnect) => RunCellStep {
            event: Some(RunCellEvent::Disconnect(Error::KernelDisconnect.to_string())),
            done: true,
        },
        Err(_) => RunCellStep { event: None, done: false },
    }
}

/// Whether a message is the request to execute `code`: a fresh message of
/// type `execute_request` that is not silent, is stored in the history, has
/// no user expressions, allows no standard input, and stops at the first
/// error.
pub open spec fn is_execute_request(request: KernelMessage<ExecuteRequest>, code: Seq<char>) -> bool {
    &&& request.header.msg_type == KernelMessageType::ExecuteRequest
    &&& request.header.session@ == "jute-session"@
    &&& request.header.username@ == "jute-user"@
    &&& request.header.version@ == "5.4"@
    &&& is_random_uuid(request.header.msg_id@)
    &&& request.parent_header is None
    &&& request.buffers@.len() == 0
    &&& request.content.code@ == code
    &&& !request.content.silent
    &&& request.content.store_history
    &&& request.content.user_expressions@.len() == 0
    &&& !request.content.allow_stdin
    &&& request.content.stop_on_error
}

/// The request that asks a kernel to execute `code`.
pub fn execute_request(code: &str) -> (request: KernelMessage<ExecuteRequest>)
    ensures
        is_execute_request(request, code@),
{
    KernelMessage::new(
        KernelMessageType::ExecuteRequest,
        ExecuteRequest {
            code: code.to_owned(),
            silent: false,
            store_history: true,
            user_expressions: BTreeMap::new(),
            allow_stdin: false,
            stop_on_error: true,
        },
    )
}

/// Get a connection ready to run a cell, and make the request to send.
///
/// Broadcast messages that linger from earlier requests are thrown away, so
/// that the events of the run start with what the kernel sends for this
/// cell. Nobody awaits the reply to the request. On a closed connection this
/// fails with a disconnect.
pub fn start_cell(conn: &mut KernelConnection, code: &str) -> (request: Result<
    KernelMessage<ExecuteRequest>,
    Error,
>)
    requires
        old(conn).wf(),
    ensures
        final(conn).wf(),
        final(conn).is_closed() == old(conn).is_closed(),
        final(conn).next_ticket() == old(conn).next_ticket(),
        final(conn).pending() == old(conn).pending(),
        final(conn).queued().len() == 0,
        old(conn).is_closed() ==> request matches Err(Error::KernelDisconnect),
        !old(conn).is_closed() ==> request is Ok,
        request matches Ok(message) ==> is_execute_request(message, code@),
{
    let _ = conn.drain_iopub();
    if conn.closed() {
        return Err(Error::KernelDisconnect);
    }
    Ok(execute_request(code))
}

/// Whether a run is over within its first `k` messages.
pub open spec fn ended_within(received: Seq<Received>, k: int) -> bool
    decreases k,
{
    k > 0 && (ended_within(received, k - 1) || ends_run(received[k - 1]))
}

/// Whether message `k` is reached before the run is over and gives the
/// caller an event.
pub open spec fn emits_at(received: Seq<Received>, k: int) -> bool {
    !ended_within(received, k) && gives_event(received[k])
}

/// How many events the first `k` messages give the caller.
pub open spec fn events_within(received: Seq<Received>, k: int) -> nat
    decreases k,
{
    if k <= 0 {
        0
    } else if emits_at(received, k - 1) {
        events_within(received, k - 1) + 1
    } else {
        events_within(received, k - 1)
    }
}

/// More messages never give fewer events.
pub proof fn lemma_events_within_grows(received: Seq<Received>, a: int, b: int)
    requires
        0 <= a <= b,
    ensures
        events_within(received, a) <= events_within(received, b),
    decreases b - a,
{
    if a < b {
        lemma_events_within_grows(received, a, b - 1);
    }
}

/// A run is over within its first `k` messages exactly if one of them
/// reports an idle kernel or tells that the transport is lost.
pub proof fn lemma_run_ends(received: Seq<Received>, k: int)
    requires
        0 <= k,
    ensures
        ended_within(received, k) <==> exists|i: int| 0 <= i < k && ends_run(#[trigger] received[i]),
    decreases k,
{
    if k > 0 {
        lemma_run_ends(received, k - 1);
        if ended_within(received, k) {
            if ends_run(received[k - 1]) {
                assert(0 <= k - 1 < k && ends_run(received[k - 1]));
            } else {
                let i = choose|i: int| 0 <= i < k - 1 && ends_run(#[trigger] received[i]);
                assert(0 <= i < k && ends_run(received[i]));
            }
        }
        if exists|i: int| 0 <= i < k && ends_run(#[trigger] received[i]) {
            let i = choose|i: int| 0 <= i < k && ends_run(#[trigger] received[i]);
            if i < k - 1 {
                assert(0 <= i < k - 1 && ends_run(received[i]));
            }
        }
    }
}

/// The events of a run, and whether the run came to its end.
pub struct RunCellOutcome {
    /// The events handed to the caller, in order.
    pub events: Vec<RunCellEvent>,
    /// Whether the run is over. If it is not, the kernel is still busy and
    /// more messages are to come.
    pub finished: bool,
}

/// Run a cell over the messages that the kernel broadcasts after the
/// request to execute it, and collect the events for the caller.
///
/// Messages are read in order up to the one that ends the run: a status that
/// reports an idle kernel, or the loss of the transport, which gives a last
/// event that tells of the disconnect. Messages behind it are not read. A
/// message that arrived and could not be read is passed over, and the run
/// goes on. Each message read gives the event that [`is_event_of`]
/// describes, or none.
pub fn run_cell(received: Vec<Received>) -> (outcome: RunCellOutcome)
    ensures
        outcome.finished == ended_within(received@, received@.len() as int),
        outcome.events@.len() == events_within(received@, received@.len() as int),
        forall|k: int|
            0 <= k < received@.len() && #[trigger] emits_at(received@, k) ==> is_event_of(
                received@[k],
                Some(outcome.events@[events_within(received@, k) as int]),
            ),
{
    let ghost all = received@;
    let mut rest = received;
    let mut events: Vec<RunCellEvent> = Vec::new();
    let mut done = false;
    let mut i: usize = 0;
    let total: usize = rest.len();
    while rest.len() > 0
        invariant
            total == all.len(),
            i + rest@.len() == all.len(),
            rest@ == all.skip(i as int),
            done == ended_within(all, i as int),
            events@.len() == events_within(all, i as int),
            forall|k: int|
                0 <= k < i && #[trigger] emits_at(all, k) ==> is_event_of(
                    all[k],
                    Some(events@[events_within(all, k) as int]),
                ),
        decreases rest@.len(),
    {
        let ghost before = events@;
        let item = rest.remove(0);
        assert(item == all[i as int]);
        assert(rest@ =~= all.skip(i + 1));
        if !done {
            let step = run_cell_step(item);
            match step.event {
                Some(event) => {
                    events.push(event);
                },
                None => {},
            }
            done = step.done;
        }
        assert forall|k: int| 0 <= k < i + 1 && #[trigger] emits_at(all, k) implies is_event_of(
            all[k],
            Some(events@[events_within(all, k) as int]),
        ) by {
            if k < i {
                lemma_events_within_grows(all, k + 1, i as int);
                assert(events@[events_within(all, k) as int] == before[events_within(all, k) as int]);
            }
        }
        i += 1;
    }
    RunCellOutcome { events, finished: done }
}

} // verus!
