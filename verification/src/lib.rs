//! Building blocks for turning a foreground process into a detached
//! background service: a builder describing the daemonization options, an
//! orchestration engine that fixes the order of the required OS side
//! effects, and the error taxonomy of the procedure.

pub mod config;
pub mod engine;
pub mod error;
pub mod laws;
pub mod lookup;
pub mod numfmt;
pub mod usergroup;

pub use config::{Daemonize, Group, Stdio, User};
pub use error::{Errno, Error, ErrorKind};
