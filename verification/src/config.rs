//! The server's configuration, and how it is settled from the command line
//! and from what the process finds around it.

use vstd::prelude::*;
use vstd::string::*;

verus! {

/// The entry module that is loaded where the environment names none.
pub const DEFAULT_DENO_APP_PATH: &'static str = "../apps/ai-service/main.ts";

/// The command line's arguments.
#[derive(Debug, Clone, PartialEq, Eq)]
pub struct Args {
    /// Address to bind the server to.
    pub addr: String,
    /// Directory of the static files.
    pub static_dir: String,
    /// Number of worker threads; 0 asks for as many as the machine runs in
    /// parallel.
    pub worker_threads: usize,
    /// Log level: trace, debug, info, warn or error.
    pub log_level: String,
}

/// What the process has found around it before the configuration is settled.
#[derive(Debug, Clone, PartialEq, Eq)]
pub struct Surroundings {
    /// Why the address cannot be read as a socket address; nothing where it can.
    pub addr_error: Option<String>,
    /// How many threads the machine runs in parallel, where that is known.
    pub parallelism: Option<usize>,
    /// Whether the directory of the static files exists.
    pub static_dir_exists: bool,
    /// The API key that the environment holds, if any.
    pub openai_api_key: Option<String>,
    /// The entry module's path, as `ServerConfig::deno_app_path_or_default`
    /// gave it.
    pub deno_app_path: String,
    /// Whether a file exists at that path.
    pub deno_app_exists: bool,
}

/// The server's configuration.
#[derive(Debug, Clone, PartialEq, Eq)]
pub struct ServerConfig {
    /// Address to bind the server to.
    pub addr: String,
    /// Directory of the static files.
    pub static_dir: String,
    /// Number of worker threads.
    pub worker_threads: usize,
    /// Log level.
    pub log_level: String,
    /// The API key that is handed to the engine.
    pub openai_api_key: String,
    /// Path of the engine's entry module.
    pub deno_app_path: String,
}

/// A configuration as a mathematical value.
pub struct ConfigModel {
    pub addr: Seq<char>,
    pub static_dir: Seq<char>,
    pub worker_threads: usize,
    pub log_level: Seq<char>,
    pub openai_api_key: Seq<char>,
    pub deno_app_path: Seq<char>,
}

impl View for ServerConfig {
    type V = ConfigModel;

    open spec fn view(&self) -> ConfigModel {
        ConfigModel {
            addr: self.addr@,
            static_dir: self.static_dir@,
            worker_threads: self.worker_threads,
            log_level: self.log_level@,
            openai_api_key: self.openai_api_key@,
            deno_app_path: self.deno_app_path@,
        }
    }
}

/// The number of worker threads: the number asked for, or, where 0 was
/// asked for, the machine's parallelism, or 1 where that is unknown.
pub open spec fn settled_threads(asked: usize, parallelism: Option<usize>) -> usize {
    if asked != 0 {
        asked
    } else {
        match parallelism {
            Some(n) => n,
            None => 1,
        }
    }
}

/// A path between double quotes.
pub open spec fn quoted(path: Seq<char>) -> Seq<char> {
    "\""@ + path + "\""@
}

/// The configuration that the arguments and the surroundings settle, or the
/// message of the first thing that is wrong: the address, the directory of
/// the static files, the API key, the entry module, in this order.
pub open spec fn settled_config(args: Args, found: Surroundings) -> Result<ConfigModel, Seq<char>> {
    if let Some(e) = found.addr_error {
        Err("Invalid address: "@ + e@)
    } else if !found.static_dir_exists {
        Err("Static directory does not exist: "@ + quoted(args.static_dir@))
    } else if found.openai_api_key is None {
        Err("OPENAI_API_KEY environment variable not set"@)
    } else if !found.deno_app_exists {
        Err("Deno application does not exist: "@ + quoted(found.deno_app_path@))
    } else {
        Ok(
            ConfigModel {
                addr: args.addr@,
                static_dir: args.static_dir@,
                worker_threads: settled_threads(args.worker_threads, found.parallelism),
                log_level: args.log_level@,
                openai_api_key: found.openai_api_key->0@,
                deno_app_path: found.deno_app_path@,
            },
        )
    }
}

/// Puts a path between double quotes.
fn quote(path: &str) -> (r: String)
    ensures
        r@ == quoted(path@),
{
    String::from_str("\"").concat(path).concat("\"")
}

impl ServerConfig {
    /// A copy of the configuration.
    pub fn duplicate(&self) -> (r: ServerConfig)
        ensures
            r@ == self@,
    {
        ServerConfig {
            addr: self.addr.clone(),
            static_dir: self.static_dir.clone(),
            worker_threads: self.worker_threads,
            log_level: self.log_level.clone(),
            openai_api_key: self.openai_api_key.clone(),
            deno_app_path: self.deno_app_path.clone(),
        }
    }

    /// The entry module's path: the one that the environment names, or the
    /// default.
    pub fn deno_app_path_or_default(named: Option<String>) -> (r: String)
        ensures
            r@ == match named {
                Some(p) => p@,
                None => DEFAULT_DENO_APP_PATH@,
            },
    {
        match named {
            Some(p) => p,
            None => String::from_str(DEFAULT_DENO_APP_PATH),
        }
    }

    /// Settles the configuration from the command line's arguments and the
    /// surroundings.
    pub fn from_args(args: Args, found: Surroundings) -> (r: Result<ServerConfig, String>)
        ensures
            match r {
                Ok(c) => settled_config(args, found) == Ok::<ConfigModel, Seq<char>>(c@),
                Err(m) => settled_config(args, found) == Err::<ConfigModel, Seq<char>>(m@),
            },
    {
        if let Some(e) = &found.addr_error {
            return Err(String::from_str("Invalid address: ").concat(e.as_str()));
        }
        let worker_threads = if args.worker_threads == 0 {
            match found.parallelism {
                Some(n) => n,
                None => 1,
            }
        } else {
            args.worker_threads
        };
        if !found.static_dir_exists {
            let q = quote(args.static_dir.as_str());
            return Err(String::from_str("Static directory does not exist: ").concat(q.as_str()));
        }
        let openai_api_key = match found.openai_api_key {
            Some(k) => k,
            None => {
                return Err(String::from_str("OPENAI_API_KEY environment variable not set"));
            },
        };
        if !found.deno_app_exists {
            let q = quote(found.deno_app_path.as_str());
            return Err(String::from_str("Deno application does not exist: ").concat(q.as_str()));
        }
        Ok(
            ServerConfig {
                addr: args.addr,
                static_dir: args.static_dir,
                worker_threads,
                log_level: args.log_level,
                openai_api_key,
                deno_app_path: found.deno_app_path,
            },
        )
    }
}

/// How much is logged.
#[derive(Debug, Clone, Copy, PartialEq, Eq, Structural)]
pub enum LogLevel {
    Trace,
    Debug,
    Info,
    Warn,
    Error,
}

/// The level that a name stands for; a name that is none of the five
/// stands for `Info`.
pub open spec fn named_level(name: Seq<char>) -> LogLevel {
    if name == "trace"@ {
        LogLevel::Trace
    } else if name == "debug"@ {
        LogLevel::Debug
    } else if name == "warn"@ {
        LogLevel::Warn
    } else if name == "error"@ {
        LogLevel::Error
    } else {
        LogLevel::Info
    }
}

/// Whether two texts are the same.
fn same_text(a: &str, b: &str) -> (r: bool)
    ensures
        r == (a@ == b@),
{
    let left = String::from_str(a);
    let right = String::from_str(b);
    left == right
}

/// The level at which logging is set up for the given name.
pub fn setup_logging(log_level: &str) -> (r: LogLevel)
    ensures
        r == named_level(log_level@),
{
    if same_text(log_level, "trace") {
        LogLevel::Trace
    } else if same_text(log_level, "debug") {
        LogLevel::Debug
    } else if same_text(log_level, "warn") {
        LogLevel::Warn
    } else if same_text(log_level, "error") {
        LogLevel::Error
    } else {
        LogLevel::Info
    }
}

} // verus!
