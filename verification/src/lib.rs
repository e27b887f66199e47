//! Async-style HTTP client connection core for a blocking, callback-driven
//! native HTTP engine.
//!
//! The library verifies the connection's control logic: the phase state
//! machine (`New` -> `Request` -> `Response`), the case-insensitive header
//! store that is rebuilt on every response, the completion bridge that turns
//! a one-shot native callback into a pollable level-triggered signal, and the
//! header-fetch loop that follows redirects.  The native engine itself is an
//! external collaborator: its observable behaviour during one fetch attempt
//! (result code, status, headers, content length) is handed to the library as
//! plain values, and everything the library decides from those values is
//! proved.

pub mod completion;
pub mod config;
pub mod connection;
pub mod error;
pub mod headers;
pub mod text;

pub use completion::CompletionState;
pub use config::{Configuration, FollowRedirectsPolicy, Method, NativeConfig};
pub use connection::{EngineResponse, EspHttpConnection, FetchOutcome, Phase};
pub use error::EspError;
pub use headers::HeaderStore;
