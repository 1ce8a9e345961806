//! A gateway between IRC clients and a Matrix homeserver: the per-connection
//! session state machine, the planning of outbound requests and the SSO
//! callback decisions, with the I/O left to the caller.

pub mod error;
pub mod matrix_client;
pub mod session;
pub mod sso;

pub use error::{ClientError, ResponseError, UrlError};
