//! Jupyter kernel wire protocol.
//!
//! See the [Messaging in Jupyter](https://jupyter-client.readthedocs.io/en/stable/messaging.html)
//! page for how the protocol works. It is carried over ZeroMQ sockets for
//! local kernels and over a binary WebSocket framing for kernels behind a
//! server; both share the message model defined here.

use vstd::prelude::*;
use vstd::string::*;

use crate::text::str_eq;

pub use self::connection::{
    Delivery, Inbound, KernelConnection, PendingRequest, CONTROL_QUEUE_CAPACITY,
    IOPUB_QUEUE_CAPACITY, SHELL_QUEUE_CAPACITY,
};
pub use self::content::{
    ClearOutput, CompleteReply, CompleteRequest, DisplayData, DisplayDataTransient, ErrorReply,
    ExecuteInput, ExecuteReply, ExecuteRequest, ExecuteResult, InspectReply, InspectRequest,
    InterruptReply, InterruptRequest, IsCompleteReply, IsCompleteRequest, KernelInfoReply,
    KernelInfoRequest, KernelStatus, LanguageInfo, ShutdownReply, ShutdownRequest, Status, Stream,
};
pub use self::driver_websocket::{from_ws_payload, split_ws_payload, to_ws_payload};
pub use self::driver_zeromq::{from_zmq_payload, sign_message, to_zmq_payload};
pub use self::frames::{WireMessage, WireParts};

pub mod connection;
pub mod content;
pub mod driver_websocket;
pub mod driver_zeromq;
pub mod frames;

verus! {

/// `OffsetDateTime` of the time crate, carried through as it is: nothing is
/// stated of what it holds.
#[verifier::external_type_specification]
#[verifier::external_body]
pub struct ExOffsetDateTime(time::OffsetDateTime);

/// `Value` of the serde_json crate, carried through as it is: nothing is
/// stated of what it holds.
#[verifier::external_type_specification]
#[verifier::external_body]
pub struct ExJsonValue(serde_json::Value);

/// `Clone` of `OffsetDateTime` in the time crate: the type is `Copy`, so the
/// clone is the same point in time at the same offset.
pub assume_specification[ <time::OffsetDateTime as Clone>::clone ](
    date: &time::OffsetDateTime,
) -> (copy: time::OffsetDateTime)
    ensures
        copy == *date,
;

/// Type of a kernel wire protocol message, either request or reply.
#[derive(Clone, Debug, PartialEq, Eq)]
#[non_exhaustive]
pub enum KernelMessageType {
    /// Execute a block of code.
    ExecuteRequest,
    /// Return execution results.
    ExecuteReply,
    /// Request detailed information about a piece of code.
    InspectRequest,
    /// Return detailed information about the inspected code.
    InspectReply,
    /// Request code completions or suggestions.
    CompleteRequest,
    /// Return completions or suggestions for the code.
    CompleteReply,
    /// Request execution history (not often used).
    HistoryRequest,
    /// Return the requested execution history (not often used).
    HistoryReply,
    /// Request to check if code is complete.
    IsCompleteRequest,
    /// Reply indicating if code is complete.
    IsCompleteReply,
    /// Request information about existing comms.
    CommInfoRequest,
    /// Reply with information about existing comms.
    CommInfoReply,
    /// Request kernel information.
    KernelInfoRequest,
    /// Reply with kernel information.
    KernelInfoReply,
    /// Request kernel shutdown.
    ShutdownRequest,
    /// Reply to confirm kernel shutdown.
    ShutdownReply,
    /// Request to interrupt kernel execution.
    InterruptRequest,
    /// Reply to confirm kernel interruption.
    InterruptReply,
    /// Request to start or stop a debugger.
    DebugRequest,
    /// Reply with debugger status.
    DebugReply,
    /// Streams of output (stdout, stderr) from the kernel.
    Stream,
    /// Bring back data to be displayed in frontends.
    DisplayData,
    /// Update display data with new information.
    UpdateDisplayData,
    /// Re-broadcast of code in ExecuteRequest.
    ExecuteInput,
    /// Results of a code execution.
    ExecuteResult,
    /// When an error occurs during code execution.
    Error,
    /// Updates about kernel status.
    Status,
    /// Clear output visible on the frontend.
    ClearOutput,
    /// For debugging kernels to send events.
    DebugEvent,
    /// Another kernel message type that is unrecognized.
    Other(String),
}

impl KernelMessageType {
    /// The name of the message type on the wire.
    pub open spec fn name(self) -> Seq<char> {
        match self {
            KernelMessageType::ExecuteRequest => "execute_request"@,
            KernelMessageType::ExecuteReply => "execute_reply"@,
            KernelMessageType::InspectRequest => "inspect_request"@,
            KernelMessageType::InspectReply => "inspect_reply"@,
            KernelMessageType::CompleteRequest => "complete_request"@,
            KernelMessageType::CompleteReply => "complete_reply"@,
            KernelMessageType::HistoryRequest => "history_request"@,
            KernelMessageType::HistoryReply => "history_reply"@,
            KernelMessageType::IsCompleteRequest => "is_complete_request"@,
            KernelMessageType::IsCompleteReply => "is_complete_reply"@,
            KernelMessageType::CommInfoRequest => "comm_info_request"@,
            KernelMessageType::CommInfoReply => "comm_info_reply"@,
            KernelMessageType::KernelInfoRequest => "kernel_info_request"@,
            KernelMessageType::KernelInfoReply => "kernel_info_reply"@,
            KernelMessageType::ShutdownRequest => "shutdown_request"@,
            KernelMessageType::ShutdownReply => "shutdown_reply"@,
            KernelMessageType::InterruptRequest => "interrupt_request"@,
            KernelMessageType::InterruptReply => "interrupt_reply"@,
            KernelMessageType::DebugRequest => "debug_request"@,
            KernelMessageType::DebugReply => "debug_reply"@,
            KernelMessageType::Stream => "stream"@,
            KernelMessageType::DisplayData => "display_data"@,
            KernelMessageType::UpdateDisplayData => "update_display_data"@,
            KernelMessageType::ExecuteInput => "execute_input"@,
            KernelMessageType::ExecuteResult => "execute_result"@,
            KernelMessageType::Error => "error"@,
            KernelMessageType::Status => "status"@,
            KernelMessageType::ClearOutput => "clear_output"@,
            KernelMessageType::DebugEvent => "debug_event"@,
            KernelMessageType::Other(name) => name@,
        }
    }

    /// Whether a wire name belongs to one of the recognized message types.
    pub open spec fn known(name: Seq<char>) -> bool {
        ||| name == "execute_request"@
        ||| name == "execute_reply"@
        ||| name == "inspect_request"@
        ||| name == "inspect_reply"@
        ||| name == "complete_request"@
        ||| name == "complete_reply"@
        ||| name == "history_request"@
        ||| name == "history_reply"@
        ||| name == "is_complete_request"@
        ||| name == "is_complete_reply"@
        ||| name == "comm_info_request"@
        ||| name == "comm_info_reply"@
        ||| name == "kernel_info_request"@
        ||| name == "kernel_info_reply"@
        ||| name == "shutdown_request"@
        ||| name == "shutdown_reply"@
        ||| name == "interrupt_request"@
        ||| name == "interrupt_reply"@
        ||| name == "debug_request"@
        ||| name == "debug_reply"@
        ||| name == "stream"@
        ||| name == "display_data"@
        ||| name == "update_display_data"@
        ||| name == "execute_input"@
        ||| name == "execute_result"@
        ||| name == "error"@
        ||| name == "status"@
        ||| name == "clear_output"@
        ||| name == "debug_event"@
    }

    /// An unrecognized type does not go by the name of a recognized one.
    pub open spec fn canonical(self) -> bool {
        self matches KernelMessageType::Other(name) ==> !Self::known(name@)
    }

    /// The name of the message type as it is written in a header.
    pub fn wire_name(&self) -> (name: String)
        ensures
            name@ == self.name(),
    {
        match self {
            KernelMessageType::ExecuteRequest => "execute_request".to_owned(),
            KernelMessageType::ExecuteReply => "execute_reply".to_owned(),
            KernelMessageType::InspectRequest => "inspect_request".to_owned(),
            KernelMessageType::InspectReply => "inspect_reply".to_owned(),
            KernelMessageType::CompleteRequest => "complete_request".to_owned(),
            KernelMessageType::CompleteReply => "complete_reply".to_owned(),
            KernelMessageType::HistoryRequest => "history_request".to_owned(),
            KernelMessageType::HistoryReply => "history_reply".to_owned(),
            KernelMessageType::IsCompleteRequest => "is_complete_request".to_owned(),
            KernelMessageType::IsCompleteReply => "is_complete_reply".to_owned(),
            KernelMessageType::CommInfoRequest => "comm_info_request".to_owned(),
            KernelMessageType::CommInfoReply => "comm_info_reply".to_owned(),
            KernelMessageType::KernelInfoRequest => "kernel_info_request".to_owned(),
            KernelMessageType::KernelInfoReply => "kernel_info_reply".to_owned(),
            KernelMessageType::ShutdownRequest => "shutdown_request".to_owned(),
            KernelMessageType::ShutdownReply => "shutdown_reply".to_owned(),
            KernelMessageType::InterruptRequest => "interrupt_request".to_owned(),
            KernelMessageType::InterruptReply => "interrupt_reply".to_owned(),
            KernelMessageType::DebugRequest => "debug_request".to_owned(),
            KernelMessageType::DebugReply => "debug_reply".to_owned(),
            KernelMessageType::Stream => "stream".to_owned(),
            KernelMessageType::DisplayData => "display_data".to_owned(),
            KernelMessageType::UpdateDisplayData => "update_display_data".to_owned(),
            KernelMessageType::ExecuteInput => "execute_input".to_owned(),
            KernelMessageType::ExecuteResult => "execute_result".to_owned(),
            KernelMessageType::Error => "error".to_owned(),
            KernelMessageType::Status => "status".to_owned(),
            KernelMessageType::ClearOutput => "clear_output".to_owned(),
            KernelMessageType::DebugEvent => "debug_event".to_owned(),
            KernelMessageType::Other(name) => name.clone(),
        }
    }

    /// The message type that goes by the given name in a header.
    ///
    /// Every name is accepted: one that no recognized type goes by gives
    /// `Other` with that name, so that writing the type out again gives the
    /// same name.
    pub fn from_wire_name(name: &str) -> (msg_type: Self)
        ensures
            msg_type.name() == name@,
            msg_type.canonical(),
            msg_type is Other <==> !Self::known(name@),
    {
        if str_eq(name, "execute_request") {
            KernelMessageType::ExecuteRequest
        } else if str_eq(name, "execute_reply") {
            KernelMessageType::ExecuteReply
        } else if str_eq(name, "inspect_request") {
            KernelMessageType::InspectRequest
        } else if str_eq(name, "inspect_reply") {
            KernelMessageType::InspectReply
        } else if str_eq(name, "complete_request") {
            KernelMessageType::CompleteRequest
        } else if str_eq(name, "complete_reply") {
            KernelMessageType::CompleteReply
        } else if str_eq(name, "history_request") {
            KernelMessageType::HistoryRequest
        } else if str_eq(name, "history_reply") {
            KernelMessageType::HistoryReply
        } else if str_eq(name, "is_complete_request") {
            KernelMessageType::IsCompleteRequest
        } else if str_eq(name, "is_complete_reply") {
            KernelMessageType::IsCompleteReply
        } else if str_eq(name, "comm_info_request") {
            KernelMessageType::CommInfoRequest
        } else if str_eq(name, "comm_info_reply") {
            KernelMessageType::CommInfoReply
        } else if str_eq(name, "kernel_info_request") {
            KernelMessageType::KernelInfoRequest
        } else if str_eq(name, "kernel_info_reply") {
            KernelMessageType::KernelInfoReply
        } else if str_eq(name, "shutdown_request") {
            KernelMessageType::ShutdownRequest
        } else if str_eq(name, "shutdown_reply") {
            KernelMessageType::ShutdownReply
        } else if str_eq(name, "interrupt_request") {
            KernelMessageType::InterruptRequest
        } else if str_eq(name, "interrupt_reply") {
            KernelMessageType::InterruptReply
        } else if str_eq(name, "debug_request") {
            KernelMessageType::DebugRequest
        } else if str_eq(name, "debug_reply") {
            KernelMessageType::DebugReply
        } else if str_eq(name, "stream") {
            KernelMessageType::Stream
        } else if str_eq(name, "display_data") {
            KernelMessageType::DisplayData
        } else if str_eq(name, "update_display_data") {
            KernelMessageType::UpdateDisplayData
        } else if str_eq(name, "execute_input") {
            KernelMessageType::ExecuteInput
        } else if str_eq(name, "execute_result") {
            KernelMessageType::ExecuteResult
        } else if str_eq(name, "error") {
            KernelMessageType::Error
        } else if str_eq(name, "status") {
            KernelMessageType::Status
        } else if str_eq(name, "clear_output") {
            KernelMessageType::ClearOutput
        } else if str_eq(name, "debug_event") {
            KernelMessageType::DebugEvent
        } else {
            KernelMessageType::Other(name.to_owned())
        }
    }
}

/// Whether two message types are the same: the same recognized type, or
/// unrecognized types of the same name.
pub open spec fn same_type(a: KernelMessageType, b: KernelMessageType) -> bool {
    match (a, b) {
        (KernelMessageType::Other(x), KernelMessageType::Other(y)) => x@ == y@,
        _ => a == b,
    }
}

/// The recognized message types go by different names, so a name stands for
/// one message type only.
pub proof fn lemma_name_tells_type(a: KernelMessageType, b: KernelMessageType)
    requires
        a.canonical(),
        b.canonical(),
        a.name() == b.name(),
    ensures
        same_type(a, b),
{
    reveal_strlit("execute_request");
    reveal_strlit("execute_reply");
    reveal_strlit("inspect_request");
    reveal_strlit("inspect_reply");
    reveal_strlit("complete_request");
    reveal_strlit("complete_reply");
    reveal_strlit("history_request");
    reveal_strlit("history_reply");
    reveal_strlit("is_complete_request");
    reveal_strlit("is_complete_reply");
    reveal_strlit("comm_info_request");
    reveal_strlit("comm_info_reply");
    reveal_strlit("kernel_info_request");
    reveal_strlit("kernel_info_reply");
    reveal_strlit("shutdown_request");
    reveal_strlit("shutdown_reply");
    reveal_strlit("interrupt_request");
    reveal_strlit("interrupt_reply");
    reveal_strlit("debug_request");
    reveal_strlit("debug_reply");
    reveal_strlit("stream");
    reveal_strlit("display_data");
    reveal_strlit("update_display_data");
    reveal_strlit("execute_input");
    reveal_strlit("execute_result");
    reveal_strlit("error");
    reveal_strlit("status");
    reveal_strlit("clear_output");
    reveal_strlit("debug_event");
    // Two recognized names of the same length differ in one of a few places.
    let name = a.name();
    let other = b.name();
    if !(a is Other) && !(b is Other) && a != b {
        assert(name.len() == other.len());
        assert(name[0] == other[0]);
        assert(name[name.len() - 1] == other[name.len() - 1]);
        assert(name.len() > 3 ==> name[2] == other[2]);
        assert(name.len() > 8 ==> name[5] == other[5]);
    }
}

/// Version of wire protocol being used. Only version 5.4 is used and supported.
#[derive(Copy, Clone, Debug, PartialEq, Eq, Structural)]
pub enum KernelProtocolVersion {
    /// Version 5.4.
    V5_4,
}

impl KernelProtocolVersion {
    /// The version as it is written in a header.
    pub open spec fn name(self) -> Seq<char> {
        match self {
            KernelProtocolVersion::V5_4 => "5.4"@,
        }
    }

    /// The version to write in a header.
    pub fn wire_name(self) -> (name: &'static str)
        ensures
            name@ == self.name(),
    {
        match self {
            KernelProtocolVersion::V5_4 => "5.4",
        }
    }

    /// Read the version of a header: `5.4`, and no other.
    pub fn from_wire_name(name: &str) -> (version: Option<KernelProtocolVersion>)
        ensures
            version == if name@ == "5.4"@ {
                Some(KernelProtocolVersion::V5_4)
            } else {
                None
            },
    {
        if str_eq(name, "5.4") {
            Some(KernelProtocolVersion::V5_4)
        } else {
            None
        }
    }
}

/// Header of a message, generally part of the {header, parent_header, metadata,
/// content, buffers} 5-tuple.
#[derive(Clone, Debug, PartialEq, Eq)]
pub struct KernelHeader {
    /// Typically UUID, must be unique per message.
    pub msg_id: String,
    /// Typically UUID, should be unique per session.
    pub session: String,
    /// The username of the user sending the message.
    pub username: String,
    /// When the message was created.
    pub date: time::OffsetDateTime,
    /// The message type.
    pub msg_type: KernelMessageType,
    /// Message protocol version.
    pub version: String,
}

/// A message sent to or received from a Jupyter kernel.
#[derive(Clone, Debug, PartialEq, Eq)]
pub struct KernelMessage<T = serde_json::Value> {
    /// The message header.
    pub header: KernelHeader,
    /// The parent message header, if any.
    pub parent_header: Option<KernelHeader>,
    /// The content of the message.
    pub content: T,
    /// Buffers for large data, if any (used by extensions).
    pub buffers: Vec<Vec<u8>>,
}

/// Whether a character is a hexadecimal digit in lower case.
pub open spec fn is_lower_hex(c: char) -> bool {
    ('0' <= c <= '9') || ('a' <= c <= 'f')
}

/// Whether character `i` of a text is what the hyphenated form of a UUID
/// has there: a hyphen at 8, 13, 18 and 23, a lowercase hexadecimal digit
/// elsewhere.
pub open spec fn uuid_char_at(text: Seq<char>, i: int) -> bool {
    if i == 8 || i == 13 || i == 18 || i == 23 {
        text[i] == '-'
    } else {
        is_lower_hex(text[i])
    }
}

/// The hyphenated form of a UUID: 36 characters, hyphens after the groups
/// of 8, 4, 4 and 4 digits, lowercase hexadecimal digits elsewhere.
pub open spec fn is_hyphenated_uuid(text: Seq<char>) -> bool {
    &&& text.len() == 36
    &&& forall|i: int| 0 <= i < 36 ==> #[trigger] uuid_char_at(text, i)
}

/// Whether a hyphenated UUID says that it is random: its version digit is
/// `4` and its variant digit one of `8`, `9`, `a` and `b`.
pub open spec fn is_random_uuid(text: Seq<char>) -> bool {
    &&& is_hyphenated_uuid(text)
    &&& text[14] == '4'
    &&& (text[19] == '8' || text[19] == '9' || text[19] == 'a' || text[19] == 'b')
}

/// `Uuid::new_v4` of the uuid crate, rendered with `to_string`: a random
/// UUID in its hyphenated lowercase form, with the version and variant
/// digits that mark it as random. Which one is left open.
#[verifier::external_body]
pub(crate) fn new_uuid_v4() -> (text: String)
    ensures
        is_random_uuid(text@),
{
    uuid::Uuid::new_v4().to_string()
}

/// `OffsetDateTime::now_utc` of the time crate: the current time, of which
/// nothing is stated.
#[verifier::external_body]
pub(crate) fn now_utc() -> time::OffsetDateTime {
    time::OffsetDateTime::now_utc()
}

impl<T> KernelMessage<T> {
    /// The fields that every message made here shares: session
    /// `jute-session`, user `jute-user`, protocol version `5.4`, no parent
    /// and no buffers.
    pub open spec fn is_fresh(self, msg_type: KernelMessageType, content: T) -> bool {
        &&& self.header.session@ == "jute-session"@
        &&& self.header.username@ == "jute-user"@
        &&& self.header.version@ == "5.4"@
        &&& self.header.msg_type == msg_type
        &&& self.parent_header is None
        &&& self.content == content
        &&& self.buffers@.len() == 0
    }

    /// Create a basic kernel message with the given identifier, date, type
    /// and content.
    pub fn with_id(
        msg_id: String,
        date: time::OffsetDateTime,
        msg_type: KernelMessageType,
        content: T,
    ) -> (msg: Self)
        ensures
            msg.is_fresh(msg_type, content),
            msg.header.msg_id == msg_id,
            msg.header.date == date,
    {
        KernelMessage {
            header: KernelHeader {
                msg_id,
                session: "jute-session".to_owned(),
                username: "jute-user".to_owned(),
                date,
                msg_type,
                version: KernelProtocolVersion::V5_4.wire_name().to_owned(),
            },
            parent_header: None,
            content,
            buffers: Vec::new(),
        }
    }

    /// Create a basic kernel message with the given type and content, under
    /// a new random identifier and the current time.
    pub fn new(msg_type: KernelMessageType, content: T) -> (msg: Self)
        ensures
            msg.is_fresh(msg_type, content),
            is_random_uuid(msg.header.msg_id@),
    {
        Self::with_id(new_uuid_v4(), now_utc(), msg_type, content)
    }

    /// The same message around another content.
    ///
    /// Turning the content into JSON, or JSON into a typed content, keeps
    /// header, parent header and buffers as they are.
    pub fn with_content<U>(self, content: U) -> (msg: KernelMessage<U>)
        ensures
            msg.header == self.header,
            msg.parent_header == self.parent_header,
            msg.content == content,
            msg.buffers == self.buffers,
    {
        KernelMessage {
            header: self.header,
            parent_header: self.parent_header,
            content,
            buffers: self.buffers,
        }
    }

    /// The identifier of the request that this message answers, if any.
    pub open spec fn parent_id(self) -> Option<Seq<char>> {
        match self.parent_header {
            Some(parent) => Some(parent.msg_id@),
            None => None,
        }
    }
}

/// The value of the `status` field of a reply.
#[derive(Clone, Copy, Debug, PartialEq, Eq, Structural)]
pub enum ReplyStatus {
    /// The request was processed successfully.
    Okay,
    /// The request failed due to an error.
    Error,
    /// The request was aborted.
    Abort,
}

impl ReplyStatus {
    /// The status that a `status` field announces: `ok`, `error`, `abort`,
    /// and `aborted` as another word for `abort`. Other words announce none.
    pub open spec fn of_name(name: Seq<char>) -> Option<ReplyStatus> {
        if name == "ok"@ {
            Some(ReplyStatus::Okay)
        } else if name == "error"@ {
            Some(ReplyStatus::Error)
        } else if name == "abort"@ || name == "aborted"@ {
            Some(ReplyStatus::Abort)
        } else {
            None
        }
    }

    /// The word written for the status.
    pub open spec fn name(self) -> Seq<char> {
        match self {
            ReplyStatus::Okay => "ok"@,
            ReplyStatus::Error => "error"@,
            ReplyStatus::Abort => "abort"@,
        }
    }

    /// Read the `status` field of a reply.
    pub fn from_wire_name(name: &str) -> (status: Option<ReplyStatus>)
        ensures
            status == Self::of_name(name@),
    {
        if str_eq(name, "ok") {
            Some(ReplyStatus::Okay)
        } else if str_eq(name, "error") {
            Some(ReplyStatus::Error)
        } else if str_eq(name, "abort") || str_eq(name, "aborted") {
            Some(ReplyStatus::Abort)
        } else {
            None
        }
    }

    /// The word to write in the `status` field of a reply.
    pub fn wire_name(self) -> (name: &'static str)
        ensures
            name@ == self.name(),
    {
        match self {
            ReplyStatus::Okay => "ok",
            ReplyStatus::Error => "error",
            ReplyStatus::Abort => "abort",
        }
    }
}

/// A reply whose status reads `aborted` has the status of one whose status
/// reads `abort`.
pub proof fn lemma_aborted_is_abort(name: Seq<char>)
    requires
        name == "aborted"@,
    ensures
        ReplyStatus::of_name(name) == Some(ReplyStatus::Abort),
        ReplyStatus::of_name(name) == ReplyStatus::of_name("abort"@),
{
    reveal_strlit("ok");
    reveal_strlit("error");
    reveal_strlit("abort");
    reveal_strlit("aborted");
    assert("ok"@.len() == 2 && "error"@.len() == 5 && "abort"@.len() == 5);
    assert("aborted"@.len() == 7);
    assert("error"@[0] == 'e' && "abort"@[0] == 'a');
}

/// The content of a reply to a kernel message, with status attached.
#[derive(Clone, Debug, PartialEq, Eq)]
pub enum Reply<T> {
    /// The request was processed successfully.
    Okay(T),
    /// The request failed due to an error.
    Error(ErrorReply),
    /// This is the same as `status="error"` but with no information about the
    /// error. No fields should be present other than status.
    ///
    /// Some messages like execute_reply return "aborted" instead, see
    /// <https://github.com/ipython/ipykernel/issues/367> for details.
    Abort,
}

impl<T> Reply<T> {
    /// The status that the reply carries.
    pub fn status(&self) -> (status: ReplyStatus)
        ensures
            status == match *self {
                Reply::Okay(_) => ReplyStatus::Okay,
                Reply::Error(_) => ReplyStatus::Error,
                Reply::Abort => ReplyStatus::Abort,
            },
    {
        match self {
            Reply::Okay(_) => ReplyStatus::Okay,
            Reply::Error(_) => ReplyStatus::Error,
            Reply::Abort => ReplyStatus::Abort,
        }
    }

    /// Put a reply together from its status and the bodies read for it.
    ///
    /// A reply is `Okay` around the body when the status is `ok`, `Error` around
    /// the error fields when it is `error`, and `Abort` when it is `abort`;
    /// nothing when the body that the status calls for is missing.
    pub fn from_status(status: ReplyStatus, body: Option<T>, error: Option<ErrorReply>) -> (reply:
        Option<Self>)
        ensures
            reply == match status {
                ReplyStatus::Okay => match body {
                    Some(content) => Some(Reply::Okay(content)),
                    None => None,
                },
                ReplyStatus::Error => match error {
                    Some(fields) => Some(Reply::Error(fields)),
                    None => None,
                },
                ReplyStatus::Abort => Some(Reply::Abort),
            },
    {
        match status {
            ReplyStatus::Okay => match body {
                Some(content) => Some(Reply::Okay(content)),
                None => None,
            },
            ReplyStatus::Error => match error {
                Some(fields) => Some(Reply::Error(fields)),
                None => None,
            },
            ReplyStatus::Abort => Some(Reply::Abort),
        }
    }
}

} // verus!
