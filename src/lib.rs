#![allow(non_camel_case_types)]
//! A safe layer over the native pluggable authentication library: the
//! return-code vocabulary, the conversation bridge that answers the library's
//! prompts, and the authentication / session state machine that drives a
//! transaction handle with rollback on failure.
//!
//! The native library itself is reached through the `PamBackend` trait, so
//! that the state machine is verified against every backend.

pub mod authenticator;
pub mod conv;
pub mod enums;
pub mod env;
pub mod types;

pub use crate::authenticator::{Authenticator, NativeCall, NativeStart, PamBackend, UserAccount};
pub use crate::conv::{converse, respond, Conversation, HandlerCall, PamMessage, PasswordConv};
pub use crate::enums::{
    PamAuthTokFlag, PamAuthenticateFlag, PamFlag, PamItemType, PamMessageStyle, PamReturnCode,
    PamSetCredFlag,
};
pub use crate::env::{parse_env_line, PamEnvList};
pub use crate::types::{buffer_error, contains_nul, PamError, PamResult};
