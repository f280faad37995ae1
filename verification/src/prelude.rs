//! The types that most callers need.

pub use crate::config::ServerConfig;
pub use crate::deno::DenoRuntime;
pub use crate::error::ServerError;
pub use crate::server::Server;
