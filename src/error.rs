use vstd::prelude::*;
use crate::text::is_prefix;

verus! {

#[verifier::external_type_specification]
#[verifier::external_body]
pub struct ExIoError(std::io::Error);

/// What an I/O failure says about the producer.
#[derive(Debug, Clone, Copy, PartialEq, Eq, Structural)]
pub enum IoFailure {
    /// The producer's program could not be found.
    NotFound,
    /// The producer's daemon refused the connection.
    ConnectionRefused,
    /// Anything else.
    Other,
}

/// Relies on `std::io::Error::kind`, telling apart the two kinds that the
/// dashboard reports on their own. Nothing is promised of the class: the kind
/// of an operating-system error comes from each platform's own table of codes,
/// so the same error value need not have the same kind on every machine.
#[verifier::external_body]
fn io_failure(err: &std::io::Error) -> (r: IoFailure) {
    match err.kind() {
        std::io::ErrorKind::NotFound => IoFailure::NotFound,
        std::io::ErrorKind::ConnectionRefused => IoFailure::ConnectionRefused,
        _ => IoFailure::Other,
    }
}

/// Relies on `std::io::Error`'s `Display`, for the text of a generic I/O failure.
#[verifier::external_body]
fn io_error_text(err: &std::io::Error) -> (r: String) {
    format!("{err}")
}

#[derive(Debug)]
pub enum AppError {
    DockerNotFound,
    DockerNotRunning,
    JsonParseError(String),
    IoError(std::io::Error),
    TerminalError(String),
}

/// The fixed sentence for a missing producer.
pub open spec fn not_found_text() -> Seq<char> {
    "Docker command not found. Please install Docker."@
}

/// The fixed sentence for a stopped producer daemon.
pub open spec fn not_running_text() -> Seq<char> {
    "Docker daemon is not running. Please start Docker."@
}

/// The label that opens the text of a record parse failure.
pub open spec fn parse_label() -> Seq<char> {
    "Failed to parse Docker stats: "@
}

/// The label that opens the text of an I/O failure.
pub open spec fn io_label() -> Seq<char> {
    "IO error: "@
}

/// The label that opens the text of a terminal failure.
pub open spec fn terminal_label() -> Seq<char> {
    "Terminal error: "@
}

impl AppError {
    /// The error for an I/O failure of the given class.
    pub fn from_failure(class: IoFailure, err: std::io::Error) -> (r: AppError)
        ensures
            class == IoFailure::NotFound ==> r is DockerNotFound,
            class == IoFailure::ConnectionRefused ==> r is DockerNotRunning,
            class == IoFailure::Other ==> r == AppError::IoError(err),
    {
        match class {
            IoFailure::NotFound => AppError::DockerNotFound,
            IoFailure::ConnectionRefused => AppError::DockerNotRunning,
            IoFailure::Other => AppError::IoError(err),
        }
    }

    /// The error for an I/O failure: a missing program and a refused
    /// connection have errors of their own, anything else is kept as it is.
    /// Which class the failure falls in is read from the error by
    /// `io_failure`; `from_failure` states the result for each class.
    pub fn from(err: std::io::Error) -> (r: AppError)
        ensures
            r is DockerNotFound || r is DockerNotRunning || r == AppError::IoError(err),
    {
        let class = io_failure(&err);
        AppError::from_failure(class, err)
    }

    /// The user-facing text of the error.
    pub fn message(&self) -> (r: String)
        ensures
            self is DockerNotFound ==> r@ == not_found_text(),
            self is DockerNotRunning ==> r@ == not_running_text(),
            self matches AppError::JsonParseError(m) ==> r@ == parse_label() + m@,
            self is IoError ==> is_prefix(io_label(), r@),
            self matches AppError::TerminalError(m) ==> r@ == terminal_label() + m@,
    {
        match self {
            AppError::DockerNotFound => String::from_str("Docker command not found. Please install Docker."),
            AppError::DockerNotRunning => String::from_str("Docker daemon is not running. Please start Docker."),
            AppError::JsonParseError(m) => String::from_str("Failed to parse Docker stats: ").concat(m.as_str()),
            AppError::IoError(e) => {
                let r = String::from_str("IO error: ").concat(io_error_text(e).as_str());
                assert(r@.subrange(0, io_label().len() as int) =~= io_label());
                r
            },
            AppError::TerminalError(m) => String::from_str("Terminal error: ").concat(m.as_str()),
        }
    }
}

} // verus!
