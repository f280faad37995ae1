//! The call bridge: how a call into the script engine is phrased, and what
//! the state in which the engine leaves the call's promise means.

use vstd::prelude::*;
use vstd::string::*;
use crate::config::ServerConfig;
use crate::error::{FailureKind, InvocationResult, OutcomeModel, ServerError};

verus! {

/// The call script up to the first mention of the function's name.
pub const CALL_OPEN: &'static str = "(async function() {\n    if (typeof globalThis.";

/// The call script between the first and the second mention of the name.
pub const CALL_CHECK: &'static str = " !== \"function\") {\n        throw new Error(\"Function ";

/// The call script between the second and the third mention of the name.
pub const CALL_TRY: &'static str =
    " is not defined\");\n    }\n    try {\n        const result = await globalThis.";

/// The call script between the arguments and the last mention of the name.
pub const CALL_CATCH: &'static str =
    ");\n        return result;\n    } catch (error) {\n        throw new Error(`Error executing ";

/// The end of the call script.
pub const CALL_CLOSE: &'static str = ": ${error.message}`);\n    }\n})();\n";

/// The script that hands the API key to the engine, up to the key.
pub const ENV_OPEN: &'static str = "Deno.env.set(\"OPENAI_API_KEY\", \"";

/// The end of that script.
pub const ENV_CLOSE: &'static str = "\");\n";

/// The text of the script that calls the global function `name` with the
/// argument list `args`. The script is one asynchronous function, called at
/// once, so that whatever is thrown in it, before or after the first await,
/// rejects the promise that it returns.
pub open spec fn call_script_text(name: Seq<char>, args: Seq<char>) -> Seq<char> {
    CALL_OPEN@ + name + CALL_CHECK@ + name + CALL_TRY@ + name + "("@ + args + CALL_CATCH@ + name
        + CALL_CLOSE@
}

/// The text of the script that sets the API key in the engine's environment.
pub open spec fn env_script_text(key: Seq<char>) -> Seq<char> {
    ENV_OPEN@ + key + ENV_CLOSE@
}

/// The message for a global that is not a function.
pub open spec fn missing_text(name: Seq<char>) -> Seq<char> {
    "Function "@ + name + " is not defined"@
}

/// The reason with which the call script rejects where the global is not a
/// function: the engine writes an error as `Error: ` and its message.
pub open spec fn missing_reason(name: Seq<char>) -> Seq<char> {
    "Error: "@ + missing_text(name)
}

/// How the engine left one call, as the host observed it.
#[derive(Debug, Clone, PartialEq, Eq)]
pub enum Settlement {
    /// The script could not be run at all; the engine's message.
    ScriptFailed(String),
    /// The script ran but did not give a promise.
    NotAPromise,
    /// The event loop failed while it was driven; the engine's message.
    LoopFailed(String),
    /// The promise was fulfilled; the value as text, where it has one.
    Fulfilled(Option<String>),
    /// The promise was rejected; the reason as text, where it has one.
    Rejected(Option<String>),
    /// The event loop ran dry and the promise is still pending.
    Pending,
}

/// The result that a settlement of a call of `name` amounts to.
pub open spec fn settled(name: Seq<char>, s: Settlement) -> OutcomeModel {
    match s {
        Settlement::ScriptFailed(m) => OutcomeModel::Failure(
            FailureKind::ExecutionError,
            "Failed to execute function: "@ + m@,
        ),
        Settlement::NotAPromise => OutcomeModel::Failure(
            FailureKind::SerializationError,
            "Result is not a promise"@,
        ),
        Settlement::LoopFailed(m) => OutcomeModel::Failure(FailureKind::ExecutionError, m@),
        Settlement::Fulfilled(Some(v)) => OutcomeModel::Success(v@),
        Settlement::Fulfilled(None) => OutcomeModel::Failure(
            FailureKind::SerializationError,
            "Failed to convert result to string"@,
        ),
        Settlement::Rejected(Some(reason)) => if reason@ == missing_reason(name) {
            OutcomeModel::Failure(FailureKind::FunctionNotFound, missing_text(name))
        } else {
            OutcomeModel::Failure(FailureKind::ExecutionError, reason@)
        },
        Settlement::Rejected(None) => OutcomeModel::Failure(
            FailureKind::SerializationError,
            "Failed to convert error to string"@,
        ),
        Settlement::Pending => OutcomeModel::Failure(
            FailureKind::ExecutionError,
            "Promise is still pending"@,
        ),
    }
}

/// The service that phrases calls into the engine and reads their outcome.
#[derive(Debug, Clone, PartialEq, Eq)]
pub struct DenoRuntime {
    /// The server's configuration.
    pub config: ServerConfig,
}

impl DenoRuntime {
    /// A service for the given configuration.
    pub fn new(config: ServerConfig) -> (r: DenoRuntime)
        ensures
            r.config == config,
    {
        DenoRuntime { config }
    }

    /// The script that hands the configured API key to the engine. It is run
    /// before the entry module.
    pub fn env_script(&self) -> (r: String)
        ensures
            r@ == env_script_text(self.config.openai_api_key@),
    {
        String::from_str(ENV_OPEN).concat(self.config.openai_api_key.as_str()).concat(ENV_CLOSE)
    }

    /// The script that calls the global function `function_name` with the
    /// argument list `args`.
    pub fn call_script(&self, function_name: &str, args: &str) -> (r: String)
        ensures
            r@ == call_script_text(function_name@, args@),
    {
        let mut script = String::from_str(CALL_OPEN);
        script.append(function_name);
        script.append(CALL_CHECK);
        script.append(function_name);
        script.append(CALL_TRY);
        script.append(function_name);
        script.append("(");
        script.append(args);
        script.append(CALL_CATCH);
        script.append(function_name);
        script.append(CALL_CLOSE);
        script
    }

    /// The result of a call of `function_name`, given the state in which the
    /// engine left it. The host runs the script of `call_script`, drives the
    /// event loop and reports what it saw; this function decides what that
    /// means. A fulfilled promise is a success. Everything else is a
    /// failure: a script that could not be run and a promise that was
    /// rejected alike.
    pub fn execute_function(&self, function_name: &str, settlement: Settlement) -> (r:
        InvocationResult)
        ensures
            r@ == settled(function_name@, settlement),
    {
        match settlement {
            Settlement::ScriptFailed(m) => InvocationResult::Failure(
                FailureKind::ExecutionError,
                String::from_str("Failed to execute function: ").concat(m.as_str()),
            ),
            Settlement::NotAPromise => InvocationResult::Failure(
                FailureKind::SerializationError,
                String::from_str("Result is not a promise"),
            ),
            Settlement::LoopFailed(m) => InvocationResult::Failure(FailureKind::ExecutionError, m),
            Settlement::Fulfilled(Some(v)) => InvocationResult::Success(v),
            Settlement::Fulfilled(None) => InvocationResult::Failure(
                FailureKind::SerializationError,
                String::from_str("Failed to convert result to string"),
            ),
            Settlement::Rejected(Some(reason)) => {
                let missing = String::from_str("Function ").concat(function_name).concat(
                    " is not defined",
                );
                let expected = String::from_str("Error: ").concat(missing.as_str());
                if reason == expected {
                    InvocationResult::Failure(FailureKind::FunctionNotFound, missing)
                } else {
                    InvocationResult::Failure(FailureKind::ExecutionError, reason)
                }
            },
            Settlement::Rejected(None) => InvocationResult::Failure(
                FailureKind::SerializationError,
                String::from_str("Failed to convert error to string"),
            ),
            Settlement::Pending => InvocationResult::Failure(
                FailureKind::ExecutionError,
                String::from_str("Promise is still pending"),
            ),
        }
    }
}

/// The options with which the engine's worker is started.
#[derive(Debug, Clone, PartialEq, Eq)]
pub struct BootstrapOptions {
    /// Arguments of the script; none.
    pub args: Vec<String>,
    /// The number of processors that the engine is told of.
    pub cpu_count: u32,
    pub debug_flag: bool,
    pub enable_testing_features: bool,
    pub no_color: bool,
    pub is_tty: bool,
    pub runtime_version: String,
    pub ts_version: String,
    pub unstable: bool,
    pub user_agent: String,
    pub inspect: bool,
}

/// How far the start of the engine has come.
#[derive(Debug, Clone, Copy, PartialEq, Eq, Structural)]
pub enum BootStage {
    /// The entry module's path is being resolved.
    Resolving,
    /// The environment is being handed to the engine.
    Injecting,
    /// The entry module is being evaluated.
    Loading,
    /// The engine takes calls.
    Ready,
    /// The start has failed.
    Failed,
}

/// What the host is to do next while the engine starts.
#[derive(Debug, Clone, PartialEq, Eq)]
pub enum BootAction {
    /// Create the worker and run this script in it.
    RunEnvScript(String),
    /// Evaluate the entry module at this path.
    LoadEntryModule(String),
    /// Take calls.
    Serve,
    /// Give up with this error.
    Abort(ServerError),
}

/// `num_cpus::get`: the number of processors of this machine. Nothing is
/// claimed of the number.
#[verifier::external_body]
fn cpu_count() -> (n: usize) {
    num_cpus::get()
}

impl DenoRuntime {
    /// The options for a machine with `cpus` processors. A number that does
    /// not fit in 32 bits is cut to its low 32 bits.
    pub fn bootstrap_options(cpus: usize) -> (r: BootstrapOptions)
        ensures
            r.cpu_count == (cpus as int) % 0x1_0000_0000,
            r.args@.len() == 0,
            !r.debug_flag && !r.enable_testing_features && !r.no_color && !r.is_tty && !r.unstable
                && !r.inspect,
            r.runtime_version@ == "v1.0.0"@,
            r.ts_version@ == "4.9.4"@,
            r.user_agent@ == "deno/1.0.0"@,
    {
        let cpu_count = #[verifier::truncate] (cpus as u32);
        assert(cpu_count == (cpus as int) % 0x1_0000_0000) by (bit_vector)
            requires
                cpu_count == #[verifier::truncate] (cpus as u32),
        ;
        BootstrapOptions {
            args: Vec::new(),
            cpu_count,
            debug_flag: false,
            enable_testing_features: false,
            no_color: false,
            is_tty: false,
            runtime_version: String::from_str("v1.0.0"),
            ts_version: String::from_str("4.9.4"),
            unstable: false,
            user_agent: String::from_str("deno/1.0.0"),
            inspect: false,
        }
    }

    /// The options for this machine.
    pub fn host_bootstrap_options() -> (r: BootstrapOptions)
        ensures
            r.args@.len() == 0,
            r.runtime_version@ == "v1.0.0"@,
            r.ts_version@ == "4.9.4"@,
            r.user_agent@ == "deno/1.0.0"@,
    {
        DenoRuntime::bootstrap_options(cpu_count())
    }

    /// One step of the engine's start. `fault` is the message with which the
    /// work of the given stage failed, or nothing where it went well. The
    /// environment is handed over before the entry module is evaluated, and
    /// calls are taken only after that; the first fault ends the start.
    pub fn init(&self, stage: BootStage, fault: Option<String>) -> (r: (BootStage, BootAction))
        ensures
            match (stage, fault) {
                (BootStage::Resolving, None) => r.0 == BootStage::Injecting && (
                r.1 matches BootAction::RunEnvScript(s) && s@ == env_script_text(
                    self.config.openai_api_key@,
                )),
                (BootStage::Resolving, Some(f)) => r.0 == BootStage::Failed && (
                r.1 matches BootAction::Abort(ServerError::DenoRuntime(m)) && m@ == f@),
                (BootStage::Injecting, None) => r.0 == BootStage::Loading && (
                r.1 matches BootAction::LoadEntryModule(p) && p@ == self.config.deno_app_path@),
                (BootStage::Injecting, Some(f)) => r.0 == BootStage::Failed && (
                r.1 matches BootAction::Abort(ServerError::DenoExecution(m)) && m@
                    == "Failed to set environment variables: "@ + f@),
                (BootStage::Loading, None) => r.0 == BootStage::Ready && r.1 is Serve,
                (BootStage::Loading, Some(f)) => r.0 == BootStage::Failed && (
                r.1 matches BootAction::Abort(ServerError::DenoRuntime(m)) && m@ == f@),
                (BootStage::Ready, _) => r.0 == BootStage::Ready && r.1 is Serve,
                (BootStage::Failed, _) => r.0 == BootStage::Failed && (
                r.1 matches BootAction::Abort(ServerError::DenoRuntime(m)) && m@
                    == "Deno runtime not initialized"@),
            },
    {
        match (stage, fault) {
            (BootStage::Resolving, None) => (
                BootStage::Injecting,
                BootAction::RunEnvScript(self.env_script()),
            ),
            (BootStage::Resolving, Some(f)) => (
                BootStage::Failed,
                BootAction::Abort(ServerError::DenoRuntime(f)),
            ),
            (BootStage::Injecting, None) => (
                BootStage::Loading,
                BootAction::LoadEntryModule(self.config.deno_app_path.clone()),
            ),
            (BootStage::Injecting, Some(f)) => (
                BootStage::Failed,
                BootAction::Abort(
                    ServerError::DenoExecution(
                        String::from_str("Failed to set environment variables: ").concat(
                            f.as_str(),
                        ),
                    ),
                ),
            ),
            (BootStage::Loading, None) => (BootStage::Ready, BootAction::Serve),
            (BootStage::Loading, Some(f)) => (
                BootStage::Failed,
                BootAction::Abort(ServerError::DenoRuntime(f)),
            ),
            (BootStage::Ready, _) => (BootStage::Ready, BootAction::Serve),
            (BootStage::Failed, _) => (
                BootStage::Failed,
                BootAction::Abort(
                    ServerError::DenoRuntime(String::from_str("Deno runtime not initialized")),
                ),
            ),
        }
    }
}

} // verus!
