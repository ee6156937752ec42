//! The validating core of a chat-completion proxy.
//!
//! A caller hands in a request. The library checks it against the domain
//! rules before anything is sent ([`request`]), says step by step what has
//! to happen on the network and what each outcome means ([`session`]), and
//! maps every failure, from a blank API key to an unreadable response body,
//! onto one closed set of errors ([`classify`], [`error`]).
//!
//! The library does no I/O itself. The caller builds the HTTP client, sends
//! the request and reads the response; the library decides.
//!
//! Every function here is verified against its contract. What is assumed
//! rather than proved, the behaviour of the `serde_json` functions that the
//! library calls, is stated in [`json`].

pub mod classify;
pub mod error;
pub mod json;
pub mod request;
pub mod session;
pub mod text;

pub use crate::classify::classify_http_error;
pub use crate::error::ApiError;
pub use crate::request::{validate_args, SiliconflowChatArgs};
pub use crate::session::{Command, Session, Signal};
