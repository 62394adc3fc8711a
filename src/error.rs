use vstd::prelude::*;

verus! {

/// Every failure that the library reports.
#[derive(Debug, Clone, PartialEq, Eq)]
pub enum SyncError {
    /// No settings have been saved yet.
    NotInitialized,
    /// The repository path holds a bare checkout.
    InvalidRepoState,
    /// The checkout's `origin` remote points somewhere else.
    RemoteMismatch,
    /// The `origin` remote has no readable URL.
    RemoteUrlUnknown,
    /// The repository path could not be opened as a checkout, or its
    /// `origin` remote could not be found; carries the reason.
    Repository(String),
    /// A filesystem operation failed; carries the reason.
    Io(String),
    /// A git command exited with a failure; carries its stderr.
    GitCommandFailed(String),
    /// A step of a run was answered with an event it does not expect.
    UnexpectedEvent,
}

} // verus!
