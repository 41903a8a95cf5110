//! Errors reported by the library.
use vstd::prelude::*;

verus! {

/// What went wrong, with a message for the log.
#[derive(Debug, Clone)]
pub enum PresenceError {
    /// The connection to the presence display failed: creating the client,
    /// connecting, sending or closing.
    Discord(String),
    /// The configuration could not be read.
    Config(String),
    /// A document path could not be read: no file name, a name that does not
    /// decode, or a path outside the workspace.
    Document(String),
}

impl PresenceError {
    /// The message carried by the error.
    pub fn message(&self) -> (r: String)
        ensures
            r@ == match self {
                PresenceError::Discord(m) => m@,
                PresenceError::Config(m) => m@,
                PresenceError::Document(m) => m@,
            },
    {
        match self {
            PresenceError::Discord(m) => m.clone(),
            PresenceError::Config(m) => m.clone(),
            PresenceError::Document(m) => m.clone(),
        }
    }
}

} // verus!
