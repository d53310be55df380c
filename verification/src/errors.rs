use vstd::prelude::*;

verus! {

/// Why locating, preparing or supervising the backend failed.
///
/// `NotFound` and `MissingScript` are produced by the resolver in this crate;
/// `Io`, `Spawn` and `Relay` carry the message of a failed file system,
/// process or network operation performed by the shell around this crate.
#[derive(Debug)]
pub enum BackendError {
    /// No valid backend directory exists.
    NotFound,
    /// The backend directory exists but its launch script is absent;
    /// holds the path that was probed.
    MissingScript(String),
    /// A directory could not be created or the seed file could not be copied.
    Io(String),
    /// The backend child process could not be spawned.
    Spawn(String),
    /// A relayed request failed after all attempts.
    Relay(String),
}

/// The text of an error, as shown to the user.
pub open spec fn spec_message(e: &BackendError) -> Seq<char> {
    match e {
        BackendError::NotFound => "cannot locate backend resources"@,
        BackendError::MissingScript(p) => "backend launch script missing: "@ + p@,
        BackendError::Io(m) => m@,
        BackendError::Spawn(m) => m@,
        BackendError::Relay(m) => m@,
    }
}

impl BackendError {
    /// Renders the error as a display string.
    pub fn message(&self) -> (r: String)
        ensures
            r@ == spec_message(self),
    {
        match self {
            BackendError::NotFound => String::from_str("cannot locate backend resources"),
            BackendError::MissingScript(p) => {
                let mut s = String::from_str("backend launch script missing: ");
                s.append(p.as_str());
                s
            },
            BackendError::Io(m) => m.clone(),
            BackendError::Spawn(m) => m.clone(),
            BackendError::Relay(m) => m.clone(),
        }
    }
}

} // verus!
