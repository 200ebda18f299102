//! The error type of the library.
use vstd::prelude::*;

verus! {

/// An I/O failure reported by the operating system.
#[verifier::external_type_specification]
#[verifier::external_body]
pub struct ExIoError(std::io::Error);

/// A failure to read or write the registry's JSON text.
#[verifier::external_type_specification]
#[verifier::external_body]
pub struct ExJsonError(serde_json::Error);

/// Errors of the service manager.
#[derive(Debug)]
pub enum HyperVError {
    /// I/O operation failed
    Io(std::io::Error),
    /// JSON serialization/deserialization failed
    Json(serde_json::Error),
    /// Task not found
    TaskNotFound(String),
    /// Configuration error
    Config(String),
    /// Task already exists
    TaskAlreadyExists(String),
    /// A task with this name (or, on an id clash, this id) exists
    TaskExists(String),
    /// Task already running
    TaskAlreadyRunning(String),
    /// Task not running
    TaskNotRunning(String),
    /// Process operation failed
    ProcessError(String),
    /// Configuration error
    ConfigError(String),
    /// Log operation failed
    LogError(String),
    /// Invalid input provided
    InvalidInput(String),
    /// Working directory not found
    WorkdirNotFound(String),
    /// Invalid environment variable format
    InvalidEnvVar(String),
    /// Invalid log type
    InvalidLogType(String),
    /// Serialization error
    Serialization(String),
    /// Process start error: binary, cause
    ProcessStart(String, String),
    /// Process stop error
    ProcessStop(String),
    /// Binary not found
    BinaryNotFound(String),
    /// Binary not executable
    BinaryNotExecutable(String),
    /// Interpreter not found
    InterpreterNotFound(String),
    /// Invalid binary
    InvalidBinary(String),
}

} // verus!

verus! {

/// What an error says, with its text as characters.
pub enum ErrorView {
    Io,
    Json,
    TaskNotFound(Seq<char>),
    Config(Seq<char>),
    TaskAlreadyExists(Seq<char>),
    TaskExists(Seq<char>),
    TaskAlreadyRunning(Seq<char>),
    TaskNotRunning(Seq<char>),
    ProcessError(Seq<char>),
    ConfigError(Seq<char>),
    LogError(Seq<char>),
    InvalidInput(Seq<char>),
    WorkdirNotFound(Seq<char>),
    InvalidEnvVar(Seq<char>),
    InvalidLogType(Seq<char>),
    Serialization(Seq<char>),
    ProcessStart(Seq<char>, Seq<char>),
    ProcessStop(Seq<char>),
    BinaryNotFound(Seq<char>),
    BinaryNotExecutable(Seq<char>),
    InterpreterNotFound(Seq<char>),
    InvalidBinary(Seq<char>),
}

impl View for HyperVError {
    type V = ErrorView;

    open spec fn view(&self) -> ErrorView {
        match self {
            HyperVError::Io(_) => ErrorView::Io,
            HyperVError::Json(_) => ErrorView::Json,
            HyperVError::TaskNotFound(s) => ErrorView::TaskNotFound(s@),
            HyperVError::Config(s) => ErrorView::Config(s@),
            HyperVError::TaskAlreadyExists(s) => ErrorView::TaskAlreadyExists(s@),
            HyperVError::TaskExists(s) => ErrorView::TaskExists(s@),
            HyperVError::TaskAlreadyRunning(s) => ErrorView::TaskAlreadyRunning(s@),
            HyperVError::TaskNotRunning(s) => ErrorView::TaskNotRunning(s@),
            HyperVError::ProcessError(s) => ErrorView::ProcessError(s@),
            HyperVError::ConfigError(s) => ErrorView::ConfigError(s@),
            HyperVError::LogError(s) => ErrorView::LogError(s@),
            HyperVError::InvalidInput(s) => ErrorView::InvalidInput(s@),
            HyperVError::WorkdirNotFound(s) => ErrorView::WorkdirNotFound(s@),
            HyperVError::InvalidEnvVar(s) => ErrorView::InvalidEnvVar(s@),
            HyperVError::InvalidLogType(s) => ErrorView::InvalidLogType(s@),
            HyperVError::Serialization(s) => ErrorView::Serialization(s@),
            HyperVError::ProcessStart(b, c) => ErrorView::ProcessStart(b@, c@),
            HyperVError::ProcessStop(s) => ErrorView::ProcessStop(s@),
            HyperVError::BinaryNotFound(s) => ErrorView::BinaryNotFound(s@),
            HyperVError::BinaryNotExecutable(s) => ErrorView::BinaryNotExecutable(s@),
            HyperVError::InterpreterNotFound(s) => ErrorView::InterpreterNotFound(s@),
            HyperVError::InvalidBinary(s) => ErrorView::InvalidBinary(s@),
        }
    }
}

} // verus!
