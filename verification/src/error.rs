//! The closed set of ways in which an invocation can fail.

use crate::process::{reported_code, ExecutionOutcome};
use crate::text::{decode_lossy, lossy_text};
use vstd::prelude::*;

verus! {

/// `serde_json::Error`, carried through without looking inside.
#[verifier::external_type_specification]
#[verifier::external_body]
pub struct ExJsonError(serde_json::Error);

/// `std::io::Error`, carried through without looking inside.
#[verifier::external_type_specification]
#[verifier::external_body]
pub struct ExIoError(std::io::Error);

/// Everything that can go wrong between asking for a command and holding its
/// output.
#[derive(Debug)]
pub enum GhError {
    /// The program could not be started at all, or it answered the version
    /// probe with a failure.
    GhNotFound,
    /// Starting a command failed for a reason other than a missing program.
    ExecutionFailed(String),
    /// The process ran and exited with a status other than zero.
    CommandFailed { code: i32, stderr: String },
    /// The captured output was no JSON of the expected shape.
    JsonParseError(serde_json::Error),
    /// The platform failed while starting the process or reading its streams.
    IoError(std::io::Error),
    /// The captured standard output was not UTF-8.
    Utf8Error(std::string::FromUtf8Error),
    /// The caller found the command misconfigured before starting anything.
    InvalidCommand(String),
}

/// A `GhError` as mathematical data: strings by their characters, the errors
/// of other libraries as they are.
pub enum GhErrorView {
    GhNotFound,
    ExecutionFailed(Seq<char>),
    CommandFailed { code: i32, stderr: Seq<char> },
    JsonParseError(serde_json::Error),
    IoError(std::io::Error),
    Utf8Error(std::string::FromUtf8Error),
    InvalidCommand(Seq<char>),
}

impl View for GhError {
    type V = GhErrorView;

    open spec fn view(&self) -> GhErrorView {
        match *self {
            GhError::GhNotFound => GhErrorView::GhNotFound,
            GhError::ExecutionFailed(m) => GhErrorView::ExecutionFailed(m@),
            GhError::CommandFailed { code, stderr } => GhErrorView::CommandFailed {
                code,
                stderr: stderr@,
            },
            GhError::JsonParseError(e) => GhErrorView::JsonParseError(e),
            GhError::IoError(e) => GhErrorView::IoError(e),
            GhError::Utf8Error(e) => GhErrorView::Utf8Error(e),
            GhError::InvalidCommand(m) => GhErrorView::InvalidCommand(m@),
        }
    }
}

impl GhError {
    /// The error for a process that reported `code` and left `stderr` as its
    /// diagnostic text.
    pub fn command_failed(code: Option<i32>, stderr: String) -> (e: GhError)
        ensures
            e@ == (GhErrorView::CommandFailed { code: reported_code(code), stderr: stderr@ }),
    {
        GhError::CommandFailed { code: code.unwrap_or(-1), stderr }
    }

    /// The error for a process that ran and failed: its exit code, or -1
    /// where it has none, and its standard error decoded leniently.
    pub fn from_output(output: ExecutionOutcome) -> (e: GhError)
        ensures
            e@ == (GhErrorView::CommandFailed {
                code: reported_code(output.code),
                stderr: lossy_text(output.stderr@),
            }),
    {
        let stderr = decode_lossy(output.stderr.as_slice());
        GhError::command_failed(output.code, stderr)
    }
}

impl From<serde_json::Error> for GhError {
    fn from(e: serde_json::Error) -> (r: GhError)
        ensures
            r == GhError::JsonParseError(e),
    {
        GhError::JsonParseError(e)
    }
}

impl vstd::std_specs::convert::FromSpecImpl<serde_json::Error> for GhError {
    open spec fn obeys_from_spec() -> bool {
        true
    }

    open spec fn from_spec(e: serde_json::Error) -> GhError {
        GhError::JsonParseError(e)
    }
}

impl From<std::io::Error> for GhError {
    fn from(e: std::io::Error) -> (r: GhError)
        ensures
            r == GhError::IoError(e),
    {
        GhError::IoError(e)
    }
}

impl vstd::std_specs::convert::FromSpecImpl<std::io::Error> for GhError {
    open spec fn obeys_from_spec() -> bool {
        true
    }

    open spec fn from_spec(e: std::io::Error) -> GhError {
        GhError::IoError(e)
    }
}

impl From<std::string::FromUtf8Error> for GhError {
    fn from(e: std::string::FromUtf8Error) -> (r: GhError)
        ensures
            r == GhError::Utf8Error(e),
    {
        GhError::Utf8Error(e)
    }
}

impl vstd::std_specs::convert::FromSpecImpl<std::string::FromUtf8Error> for GhError {
    open spec fn obeys_from_spec() -> bool {
        true
    }

    open spec fn from_spec(e: std::string::FromUtf8Error) -> GhError {
        GhError::Utf8Error(e)
    }
}

} // verus!
