//! The ways a session can fail.
use vstd::prelude::*;

verus! {

/// Why a session stopped.
#[derive(Debug, Clone, Copy, PartialEq, Eq, Structural)]
pub enum LaunchError {
    /// A transaction could not be encoded; nothing was written or run.
    Encoding,
    /// The staged file could not be written, or a generated file could not
    /// be removed.
    Io,
    /// An external command could not be started, or its error stream could
    /// not be captured.
    Process,
    /// The program path has no file-name component.
    Argument,
}

} // verus!
