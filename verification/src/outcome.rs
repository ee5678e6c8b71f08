//! Outcomes and errors of the compile pipeline.
//!
//! A rejected source is not an error: the sandboxed compiler's non-zero exit
//! is folded into [`CompilationResult::Error`] and reported to the caller as
//! a normal value. [`Error`] is reserved for the infrastructure itself
//! failing — the engine could not be driven, its output was malformed, or the
//! filesystem misbehaved — and for the retrieval path's validation and
//! not-found cases.

use vstd::prelude::*;

verus! {

/// Why the pipeline, rather than the submitted source, failed.
#[derive(Clone, Debug)]
pub enum Error {
    /// The container engine CLI ran but exited non-zero; the command word and
    /// its captured standard-error text.
    PodmanCLI { command: String, stderr: String },
    /// A host-side failure: the engine could not be launched at all, or a
    /// filesystem operation failed.
    IO { message: String },
    /// The engine's captured output was not valid UTF-8; the command word.
    InvalidUTF8 { command: String },
    /// Retrieval asked for an identifier under which nothing was ever stored.
    NotFound { path: String },
    /// Retrieval presented a malformed identifier; rejected before any I/O.
    Validation { message: String },
}

/// The mathematical shape of an [`Error`]: each payload as a character
/// sequence.
pub ghost enum ErrorV {
    PodmanCLI { command: Seq<char>, stderr: Seq<char> },
    IO { message: Seq<char> },
    InvalidUTF8 { command: Seq<char> },
    NotFound { path: Seq<char> },
    Validation { message: Seq<char> },
}

impl View for Error {
    type V = ErrorV;

    open spec fn view(&self) -> ErrorV {
        match self {
            Error::PodmanCLI { command, stderr } => ErrorV::PodmanCLI {
                command: command@,
                stderr: stderr@,
            },
            Error::IO { message } => ErrorV::IO { message: message@ },
            Error::InvalidUTF8 { command } => ErrorV::InvalidUTF8 { command: command@ },
            Error::NotFound { path } => ErrorV::NotFound { path: path@ },
            Error::Validation { message } => ErrorV::Validation { message: message@ },
        }
    }
}

/// What one compile request came to: either the identifier under which the
/// artifacts were stored, or the diagnostic text of a build that the
/// sandboxed compiler rejected.
#[derive(Clone, Debug)]
pub enum CompilationResult {
    Success { id: String },
    Error { msg: String },
}

/// The mathematical shape of a [`CompilationResult`].
pub ghost enum CompilationResultV {
    Success { id: Seq<char> },
    Error { msg: Seq<char> },
}

impl View for CompilationResult {
    type V = CompilationResultV;

    open spec fn view(&self) -> CompilationResultV {
        match self {
            CompilationResult::Success { id } => CompilationResultV::Success { id: id@ },
            CompilationResult::Error { msg } => CompilationResultV::Error { msg: msg@ },
        }
    }
}

/// The rendering of an [`Error`] as one line of text.
pub open spec fn error_message_v(e: ErrorV) -> Seq<char> {
    match e {
        ErrorV::PodmanCLI { command, stderr } => "failed to run `podman "@ + command + "`: "@
            + stderr,
        ErrorV::IO { message } => "io error: "@ + message,
        ErrorV::InvalidUTF8 { command } => "invalid utf-8 in output of `podman "@ + command
            + "`"@,
        ErrorV::NotFound { path } => "not found: "@ + path,
        ErrorV::Validation { message } => message,
    }
}

impl Error {
    /// One line of text describing this error, for the unverified layer to
    /// put in a response body or a log.
    pub fn message(&self) -> (r: String)
        ensures
            r@ == error_message_v(self@),
    {
        match self {
            Error::PodmanCLI { command, stderr } => {
                let s = String::from_str("failed to run `podman ").concat(command.as_str());
                s.concat("`: ").concat(stderr.as_str())
            },
            Error::IO { message } => String::from_str("io error: ").concat(message.as_str()),
            Error::InvalidUTF8 { command } => {
                String::from_str("invalid utf-8 in output of `podman ").concat(
                    command.as_str(),
                ).concat("`")
            },
            Error::NotFound { path } => String::from_str("not found: ").concat(path.as_str()),
            Error::Validation { message } => message.clone(),
        }
    }
}

} // verus!
