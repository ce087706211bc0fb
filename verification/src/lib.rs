//! Functions that may fail, written without their outcome type.
//!
//! The annotation `throws` rewrites one function definition: its return type
//! becomes an outcome type, and each way out of its body hands back an
//! outcome ([`throws()`]). An [`Exception`] holds one failure value of any type;
//! `context` puts a narrative around a failure.

pub mod __internal;
pub mod args;
pub mod as_error;
pub mod context;
pub mod derive;
pub mod exception;
pub mod failure;
pub mod render;
pub mod rewrite;
pub mod semantics;
pub mod syntax;
pub mod throws;
pub mod types;

pub use crate::as_error::AsError;
pub use crate::context::Context;
pub use crate::exception::{Backtrace, Errors, Exception};
pub use crate::failure::{Failure, HostError, TypeToken};
pub use crate::throws::throws;
