//! Errors of the server and the outcome of one invocation.

use vstd::prelude::*;
use vstd::string::*;

verus! {

/// What can go wrong in the server. Each variant carries the text of its
/// cause; `message` puts the variant's prefix in front of it.
#[derive(Debug, Clone, PartialEq, Eq)]
pub enum ServerError {
    /// An input or output operation failed.
    Io(String),
    /// The HTTP layer failed.
    Hyper(String),
    /// A JSON text could not be read or written.
    Json(String),
    /// A static file could not be served.
    StaticFile(String),
    /// The configuration is not usable.
    Config(String),
    /// A general server error.
    Server(String),
    /// The engine could not be started or its entry module not loaded.
    DenoRuntime(String),
    /// A script threw, or its promise was rejected or never settled.
    DenoExecution(String),
    /// A value of the engine could not be handled.
    DenoV8(String),
    /// An environment variable is missing.
    EnvVar(String),
}

impl ServerError {
    /// The text of the cause, without the prefix.
    pub open spec fn detail(self) -> Seq<char> {
        match self {
            ServerError::Io(m) => m@,
            ServerError::Hyper(m) => m@,
            ServerError::Json(m) => m@,
            ServerError::StaticFile(m) => m@,
            ServerError::Config(m) => m@,
            ServerError::Server(m) => m@,
            ServerError::DenoRuntime(m) => m@,
            ServerError::DenoExecution(m) => m@,
            ServerError::DenoV8(m) => m@,
            ServerError::EnvVar(m) => m@,
        }
    }

    /// The prefix that names the variant in a message.
    pub open spec fn prefix(self) -> Seq<char> {
        match self {
            ServerError::Io(_) => "IO error: "@,
            ServerError::Hyper(_) => "Hyper error: "@,
            ServerError::Json(_) => "JSON error: "@,
            ServerError::StaticFile(_) => "Static file error: "@,
            ServerError::Config(_) => "Configuration error: "@,
            ServerError::Server(_) => "Server error: "@,
            ServerError::DenoRuntime(_) => "Deno runtime error: "@,
            ServerError::DenoExecution(_) => "Deno execution error: "@,
            ServerError::DenoV8(_) => "Deno V8 error: "@,
            ServerError::EnvVar(_) => "Environment variable error: "@,
        }
    }

    /// The message shown for this error: prefix, then cause.
    pub fn message(&self) -> (out: String)
        ensures
            out@ == self.prefix() + self.detail(),
    {
        match self {
            ServerError::Io(m) => String::from_str("IO error: ").concat(m.as_str()),
            ServerError::Hyper(m) => String::from_str("Hyper error: ").concat(m.as_str()),
            ServerError::Json(m) => String::from_str("JSON error: ").concat(m.as_str()),
            ServerError::StaticFile(m) => String::from_str("Static file error: ").concat(
                m.as_str(),
            ),
            ServerError::Config(m) => String::from_str("Configuration error: ").concat(
                m.as_str(),
            ),
            ServerError::Server(m) => String::from_str("Server error: ").concat(m.as_str()),
            ServerError::DenoRuntime(m) => String::from_str("Deno runtime error: ").concat(
                m.as_str(),
            ),
            ServerError::DenoExecution(m) => String::from_str("Deno execution error: ").concat(
                m.as_str(),
            ),
            ServerError::DenoV8(m) => String::from_str("Deno V8 error: ").concat(m.as_str()),
            ServerError::EnvVar(m) => String::from_str("Environment variable error: ").concat(
                m.as_str(),
            ),
        }
    }
}

/// Why an invocation failed.
#[derive(Debug, Clone, Copy, PartialEq, Eq, Structural)]
pub enum FailureKind {
    /// The engine could not be started.
    BootstrapError,
    /// The requested global is not a function.
    FunctionNotFound,
    /// An argument or a result is not representable on the wire.
    SerializationError,
    /// The script threw, or its promise was rejected.
    ExecutionError,
}

/// The outcome of one invocation: a value, or a failure with its kind and
/// message, never both and never neither.
#[derive(Debug, Clone, PartialEq, Eq)]
pub enum InvocationResult {
    /// The call was fulfilled with this value, as JSON text.
    Success(String),
    /// The call failed.
    Failure(FailureKind, String),
}

/// The outcome of an invocation as a mathematical value.
pub enum OutcomeModel {
    Success(Seq<char>),
    Failure(FailureKind, Seq<char>),
}

impl View for InvocationResult {
    type V = OutcomeModel;

    open spec fn view(&self) -> OutcomeModel {
        match self {
            InvocationResult::Success(v) => OutcomeModel::Success(v@),
            InvocationResult::Failure(k, m) => OutcomeModel::Failure(*k, m@),
        }
    }
}

impl InvocationResult {
    /// Whether the call was fulfilled.
    pub fn is_success(&self) -> (b: bool)
        ensures
            b == (self@ is Success),
    {
        match self {
            InvocationResult::Success(_) => true,
            InvocationResult::Failure(_, _) => false,
        }
    }
}

} // verus!
