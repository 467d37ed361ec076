//! Contents of the messages of the protocol, by message type.

use std::collections::BTreeMap;

use vstd::prelude::*;

use crate::text::str_eq;

verus! {

/// Content of an error response message.
#[derive(Clone, Debug, PartialEq, Eq)]
pub struct ErrorReply {
    /// The error name, such as 'NameError'.
    pub ename: String,
    /// The error message, such as 'NameError: name 'x' is not defined'.
    pub evalue: String,
    /// The traceback frames of the error as a list of strings.
    pub traceback: Vec<String>,
}

/// Execute code on behalf of the user.
#[derive(Clone, Debug, PartialEq, Eq)]
pub struct ExecuteRequest {
    /// Source code to be executed by the kernel, one or more lines.
    pub code: String,
    /// A boolean flag which, if true, signals the kernel to execute the code as
    /// quietly as possible.
    pub silent: bool,
    /// A boolean flag which, if true, signals the kernel to populate the
    /// history.
    pub store_history: bool,
    /// A dictionary mapping names to expressions to be evaluated in the user's
    /// dictionary. The rich display-data representation of each will be
    /// evaluated after execution.
    pub user_expressions: BTreeMap<String, String>,
    /// If true, code running in the kernel can prompt the user for input with
    /// an `input_request` message. If false, the kernel should not send
    /// these messages.
    pub allow_stdin: bool,
    /// A boolean flag, which, if true, aborts the execution queue if an
    /// exception is encountered. If false, queued `execute_requests` will
    /// execute even if this request generates an exception.
    pub stop_on_error: bool,
}

/// Represents a reply to an execute request.
#[derive(Clone, Debug, PartialEq, Eq)]
pub struct ExecuteReply {
    /// The execution count, which increments with each request that stores
    /// history.
    pub execution_count: i32,
    /// Results for the user expressions evaluated during execution. Only
    /// present when status is 'ok'.
    pub user_expressions: Option<BTreeMap<String, String>>,
}

/// Request for introspection of code to retrieve useful information as
/// determined by the kernel.
#[derive(Clone, Debug, PartialEq, Eq)]
pub struct InspectRequest {
    /// The code context in which introspection is requested, potentially
    /// multiple lines.
    pub code: String,
    /// The cursor position within 'code' where introspection is requested, in
    /// Unicode characters.
    pub cursor_pos: u32,
    /// The level of detail desired, where 0 might be basic info (`x?` in
    /// IPython) and 1 includes more detail (`x??` in IPython).
    pub detail_level: u8,
}

/// Represents a reply to an inspect request with potentially formatted
/// information about the code context.
#[derive(Clone, Debug, PartialEq, Eq)]
pub struct InspectReply {
    /// Indicates whether an object was found during the inspection.
    pub found: bool,
    /// A dictionary containing the data representing the inspected object, can
    /// be empty if nothing is found.
    pub data: BTreeMap<String, serde_json::Value>,
    /// Metadata associated with the data, can also be empty.
    pub metadata: BTreeMap<String, serde_json::Value>,
}

/// Request for code completion based on the context provided in the code and
/// cursor position.
#[derive(Clone, Debug, PartialEq, Eq)]
pub struct CompleteRequest {
    /// The code context in which completion is requested, possibly a multiline
    /// string.
    pub code: String,
    /// The cursor position within 'code' in Unicode characters where completion
    /// is requested.
    pub cursor_pos: u32,
}

/// Represents a reply to a completion request.
#[derive(Clone, Debug, PartialEq, Eq)]
pub struct CompleteReply {
    /// A list of all matches to the completion request.
    pub matches: Vec<String>,
    /// The starting position of the text that should be replaced by the
    /// completion.
    pub cursor_start: u32,
    /// The ending position of the text that should be replaced by the
    /// completion.
    pub cursor_end: u32,
    /// Metadata providing additional information about completions.
    pub metadata: BTreeMap<String, serde_json::Value>,
}

/// Request to determine if the provided code is complete and ready for
/// execution.
#[derive(Clone, Debug, PartialEq, Eq)]
pub struct IsCompleteRequest {
    /// The code entered so far, possibly spanning multiple lines.
    pub code: String,
}

/// Represents a reply to an is_complete request, indicating the completeness
/// status of the code.
#[derive(Clone, Debug, PartialEq, Eq)]
pub struct IsCompleteReply {
    /// The status of the code's completeness: 'complete', 'incomplete',
    /// 'invalid', or 'unknown'.
    pub status: String,
    /// Suggested characters to indent the next line if the code is incomplete.
    /// This field is optional and used only if the status is 'incomplete'.
    pub indent: Option<String>,
}

/// Request for information about the kernel.
#[derive(Clone, Debug, PartialEq, Eq)]
pub struct KernelInfoRequest {}

/// Represents a reply to a kernel_info request, providing details about the
/// kernel.
#[derive(Clone, Debug, PartialEq, Eq)]
pub struct KernelInfoReply {
    /// Version of the messaging protocol used by the kernel.
    pub protocol_version: String,
    /// The name of the kernel implementation (e.g., 'ipython').
    pub implementation: String,
    /// The version number of the kernel's implementation.
    pub implementation_version: String,
    /// Detailed information about the programming language used by the kernel.
    pub language_info: LanguageInfo,
    /// A banner of information about the kernel, displayed in console.
    pub banner: String,
    /// Indicates if the kernel supports debugging.
    pub debugger: bool,
}

/// Detailed information about the programming language of the kernel.
#[derive(Clone, Debug, PartialEq, Eq)]
pub struct LanguageInfo {
    /// Name of the programming language.
    pub name: String,
    /// Version number of the language.
    pub version: String,
    /// MIME type for script files in this language.
    pub mimetype: String,
    /// File extension for script files in this language.
    pub file_extension: String,
    /// Nbconvert exporter, if notebooks should be exported differently than the
    /// general script.
    pub nbconvert_exporter: String,
}

/// Request to shut down the kernel, possibly to prepare for a restart.
#[derive(Clone, Debug, PartialEq, Eq)]
pub struct ShutdownRequest {
    /// Indicates whether the shutdown is final or precedes a restart.
    pub restart: bool,
}

/// Represents a reply to a shutdown request.
#[derive(Clone, Debug, PartialEq, Eq)]
pub struct ShutdownReply {
    /// Matches the restart flag from the request to indicate the intended
    /// shutdown behavior.
    pub restart: bool,
}

/// Request to interrupt the kernel's current operation.
#[derive(Clone, Debug, PartialEq, Eq)]
pub struct InterruptRequest {}

/// Represents a reply to an interrupt request.
#[derive(Clone, Debug, PartialEq, Eq)]
pub struct InterruptReply {}

/// Streams of output from the kernel, such as stdout and stderr.
#[derive(Clone, Debug, PartialEq, Eq)]
pub struct Stream {
    /// The name of the stream, one of 'stdout' or 'stderr'.
    pub name: String,
    /// The text to be displayed in the stream.
    pub text: String,
}

/// Data to be displayed in frontends, such as images or HTML.
#[derive(Clone, Debug, PartialEq, Eq)]
pub struct DisplayData {
    /// The data to be displayed, typically a MIME type and the data itself.
    pub data: BTreeMap<String, serde_json::Value>,
    /// Metadata associated with the data, can be empty.
    pub metadata: BTreeMap<String, serde_json::Value>,
    /// Any information not to be persisted to a notebook.
    pub transient: Option<DisplayDataTransient>,
}

/// Transient data associated with display data, such as display IDs.
#[derive(Clone, Debug, PartialEq, Eq)]
pub struct DisplayDataTransient {
    /// Specifies an ID for the display, which can be updated.
    pub display_id: Option<String>,
}

/// Re-broadcast of code in an execute request to let all frontends know.
#[derive(Clone, Debug, PartialEq, Eq)]
pub struct ExecuteInput {
    /// The code that was executed.
    pub code: String,
    /// The execution count, which increments with each request that stores
    /// history.
    pub execution_count: i32,
}

/// Results of a code execution, such as the output or return value.
#[derive(Clone, Debug, PartialEq, Eq)]
pub struct ExecuteResult {
    /// The execution count, which increments with each request that stores
    /// history.
    pub execution_count: i32,
    /// The data to be displayed, typically a MIME type and the data itself. A
    /// plain text representation should always be provided in the `text/plain`
    /// mime-type.
    pub data: BTreeMap<String, serde_json::Value>,
    /// Metadata associated with the data, can be empty.
    pub metadata: BTreeMap<String, serde_json::Value>,
}

/// Used by frontends to monitor the status of the kernel.
#[derive(Clone, Debug, PartialEq, Eq)]
pub struct Status {
    /// Current status of the kernel.
    pub execution_state: KernelStatus,
}

/// Possible states of the kernel. When the kernel starts to handle a message,
/// it will enter the 'busy' state and when it finishes, it will enter the
/// 'idle' state. The kernel will publish state 'starting' exactly once at
/// process startup.
#[derive(Copy, Clone, Debug, PartialEq, Eq, Structural)]
pub enum KernelStatus {
    /// The kernel is starting up.
    Starting,
    /// The kernel is ready to execute code.
    Idle,
    /// The kernel is currently executing code.
    Busy,
}

impl KernelStatus {
    /// The state that a word names: `starting`, `idle` or `busy`.
    pub open spec fn of_name(name: Seq<char>) -> Option<KernelStatus> {
        if name == "starting"@ {
            Some(KernelStatus::Starting)
        } else if name == "idle"@ {
            Some(KernelStatus::Idle)
        } else if name == "busy"@ {
            Some(KernelStatus::Busy)
        } else {
            None
        }
    }

    /// The word written for the state.
    pub open spec fn name(self) -> Seq<char> {
        match self {
            KernelStatus::Starting => "starting"@,
            KernelStatus::Idle => "idle"@,
            KernelStatus::Busy => "busy"@,
        }
    }

    /// Read the `execution_state` field of a status message.
    pub fn from_wire_name(name: &str) -> (state: Option<KernelStatus>)
        ensures
            state == Self::of_name(name@),
    {
        if str_eq(name, "starting") {
            Some(KernelStatus::Starting)
        } else if str_eq(name, "idle") {
            Some(KernelStatus::Idle)
        } else if str_eq(name, "busy") {
            Some(KernelStatus::Busy)
        } else {
            None
        }
    }

    /// The word to write in the `execution_state` field of a status message.
    pub fn wire_name(self) -> (name: &'static str)
        ensures
            name@ == self.name(),
    {
        match self {
            KernelStatus::Starting => "starting",
            KernelStatus::Idle => "idle",
            KernelStatus::Busy => "busy",
        }
    }
}

/// Request to clear output visible on the frontend.
#[derive(Clone, Debug, PartialEq, Eq)]
pub struct ClearOutput {
    /// The wait flag, which if true, indicates that the frontend should wait
    /// for the clear output request to complete before sending further
    /// messages.
    pub wait: bool,
}

} // verus!
