//! Client side of a password store that is driven through a separate
//! secret-management program.
//!
//! The library holds the protocol: which process to start with which
//! arguments and input, and how the captured streams of the finished process
//! are decoded into typed results. Starting the process is left to the caller,
//! who hands each operation a function from an [`Invocation`] to what the
//! process left behind.

pub mod bridge;
pub mod decode;
pub mod direct;
pub mod error;
pub mod frame;
pub mod framed;
pub mod laws;
pub mod parse;
pub mod process;
pub mod reply;
pub mod request;
pub mod store;
pub mod text;
pub mod value;

pub use crate::error::Error;
pub use crate::process::{Invocation, ProcessOutcome};
pub use crate::store::PasswordStore;
