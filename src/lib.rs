//! Launches a debugging session for a smart-contract program against a list
//! of signed transactions, by driving a dry-run generator and a program
//! debugger. The library decides what is staged, which commands run in which
//! order, and what is cleaned up afterwards; the caller performs the I/O.
pub mod command;
pub mod config;
pub mod error;
pub mod laws;
pub mod session;
pub mod stage;

pub use command::CommandLine;
pub use config::{Config, Mode};
pub use error::LaunchError;
pub use session::{plan_session, Outcome, SessionPlan, Step};
