use vstd::prelude::*;

verus! {

/// The kinds of failure the dashboard can report. The state machine itself
/// produces only `NoSupported`; the terminal and logging layers around it
/// report the other two.
#[derive(Clone, Copy, Debug, PartialEq, Eq, Structural)]
pub enum AppError {
    /// Terminal I/O failed: raw mode, alternate screen, or drawing a frame.
    IoError,
    /// The metrics collaborator cannot run on this host.
    NoSupported,
    /// The logger could not be started.
    LogError,
}

pub type AppResult<T> = Result<T, AppError>;

} // verus!
