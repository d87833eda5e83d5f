use vstd::prelude::*;

verus! {

/// Failures that abort a command. A rejection reported by the service
/// (an envelope whose success flag is false) is not one of these, except
/// for the task listing, which turns it into `Api`.
#[derive(Debug)]
pub enum TaskError {
    /// The service could not be reached.
    Transport(String),
    /// The reply was not a well-formed envelope.
    Decode(String),
    /// The command itself was malformed (for instance a bad exec parameter).
    Protocol(String),
    /// A local file could not be read.
    Io(String),
    /// The secret prompt failed.
    Input(String),
    /// The service rejected a listing request.
    Api(String),
}

impl TaskError {
    /// The human-readable description carried by the error.
    pub fn message(&self) -> (r: &String)
        ensures
            r == match self {
                TaskError::Transport(m) => m,
                TaskError::Decode(m) => m,
                TaskError::Protocol(m) => m,
                TaskError::Io(m) => m,
                TaskError::Input(m) => m,
                TaskError::Api(m) => m,
            },
    {
        match self {
            TaskError::Transport(m) => m,
            TaskError::Decode(m) => m,
            TaskError::Protocol(m) => m,
            TaskError::Io(m) => m,
            TaskError::Input(m) => m,
            TaskError::Api(m) => m,
        }
    }
}

} // verus!
