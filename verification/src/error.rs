//! The errors of the library.

use vstd::prelude::*;
use vstd::string::*;

verus! {

/// What can go wrong while starting, reaching or talking to a kernel.
///
/// Errors that come from the transports and the operating system are held
/// by their message.
#[derive(Debug, Clone, PartialEq, Eq)]
pub enum Error {
    /// An error occurred while starting or managing a subprocess.
    Subprocess(String),
    /// Could not connect to the kernel.
    KernelConnect(String),
    /// Disconnected while communicating with a kernel.
    KernelDisconnect,
    /// Could not find the kernel.
    KernelNotFound,
    /// Could not find the kernel process.
    KernelProcessNotFound,
    /// An invalid URL was provided or constructed.
    InvalidUrl(String),
    /// HTTP error while making a request.
    ReqwestError(String),
    /// Error while deserializing a message.
    DeserializeMessage(String),
    /// Error originating from ZeroMQ.
    Zmq(String),
    /// Error originating from JSON handling.
    SerdeJson(String),
    /// Error interacting with the filesystem.
    Filesystem(String),
}

impl Error {
    /// The text of the error.
    pub open spec fn text(self) -> Seq<char> {
        match self {
            Error::Subprocess(detail) => "failed to run subprocess: "@ + detail@,
            Error::KernelConnect(detail) => "could not connect to the kernel: "@ + detail@,
            Error::KernelDisconnect => "disconnected from the kernel"@,
            Error::KernelNotFound => "kernel not found"@,
            Error::KernelProcessNotFound => "kernel process not found"@,
            Error::InvalidUrl(detail) => "invalid URL: "@ + detail@,
            Error::ReqwestError(detail) => "HTTP failure: "@ + detail@,
            Error::DeserializeMessage(detail) => "could not deserialize message: "@ + detail@,
            Error::Zmq(detail) => "zeromq: "@ + detail@,
            Error::SerdeJson(detail) => "serde_json error: "@ + detail@,
            Error::Filesystem(detail) => "filesystem error: "@ + detail@,
        }
    }

    /// Render the error as text.
    pub fn to_string(&self) -> (text: String)
        ensures
            text@ == self.text(),
    {
        match self {
            Error::Subprocess(detail) => "failed to run subprocess: ".to_owned().concat(
                detail.as_str(),
            ),
            Error::KernelConnect(detail) => "could not connect to the kernel: ".to_owned().concat(
                detail.as_str(),
            ),
            Error::KernelDisconnect => "disconnected from the kernel".to_owned(),
            Error::KernelNotFound => "kernel not found".to_owned(),
            Error::KernelProcessNotFound => "kernel process not found".to_owned(),
            Error::InvalidUrl(detail) => "invalid URL: ".to_owned().concat(detail.as_str()),
            Error::ReqwestError(detail) => "HTTP failure: ".to_owned().concat(detail.as_str()),
            Error::DeserializeMessage(detail) => "could not deserialize message: ".to_owned().concat(
                detail.as_str(),
            ),
            Error::Zmq(detail) => "zeromq: ".to_owned().concat(detail.as_str()),
            Error::SerdeJson(detail) => "serde_json error: ".to_owned().concat(detail.as_str()),
            Error::Filesystem(detail) => "filesystem error: ".to_owned().concat(detail.as_str()),
        }
    }
}

} // verus!
