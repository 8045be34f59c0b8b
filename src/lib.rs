//! Request/response execution over an embedded, non-reentrant script engine.
//!
//! The library holds the request lifecycle's state and decisions: the
//! meta-variables handed to a script, the per-request server context that the
//! engine's I/O callbacks fill, the parsing of response headers, the
//! lifecycle state machine and the assembly of the final result. The calls
//! into the engine itself are made by the host around it, which reports each
//! step's outcome back.

pub mod adapter;
pub mod buffer;
pub mod cli;
pub mod context;
pub mod engine;
pub mod executor;
pub mod header;
pub mod hooks;
pub mod message;
pub mod paths;
pub mod result;
pub mod server_context;
pub mod server_vars;
pub mod text;
pub mod web;

pub use adapter::{AdapterError, ErrorSource, PhpSapiAdapter};
pub use buffer::{BufferPolicy, Growth};
pub use cli::{CliRequest, CliRequestError};
pub use context::ExecutionContext;
pub use engine::{EngineState, Executor, RiphtSapi, SapiError};
pub use executor::{ExecutionError, Phase, Request};
pub use header::ResponseHeader;
pub use hooks::{ExecutionHooks, NoOpHooks, OutputAction, StreamingCallback};
pub use message::{ExecutionMessage, SyslogLevel};
pub use result::ExecutionResult;
pub use server_context::ServerContext;
pub use server_vars::ServerVars;
pub use web::{Method, WebRequest, WebRequestError};
