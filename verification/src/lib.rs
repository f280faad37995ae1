//! An embedded script-runtime gateway: the rules by which one persistent
//! script engine is shared between requests, how a call into it is phrased,
//! how its settlement becomes a result, and how that result becomes a single
//! response or an ordered stream of chunks.

pub mod error;
pub mod text;
pub mod json;
pub mod wire;
pub mod config;
pub mod deno;
pub mod server;
pub mod stream;
pub mod serializer;
pub mod storage;
pub mod prelude;

pub use config::ServerConfig;
pub use deno::DenoRuntime;
pub use error::ServerError;
pub use server::Server;
