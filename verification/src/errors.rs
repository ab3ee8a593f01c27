use vstd::prelude::*;

verus! {

/// Why a script could not be constructed: its source did not compile, or it
/// compiled but does not declare the required entry point.
#[derive(Debug)]
pub enum ScriptError {
    Compile(String),
    Validation(String),
}

impl ScriptError {
    /// The human-readable description carried by this error.
    pub open spec fn message_view(self) -> Seq<char> {
        match self {
            ScriptError::Compile(m) => m@,
            ScriptError::Validation(m) => m@,
        }
    }

    /// The description as an owned string.
    pub fn message(&self) -> (r: String)
        ensures
            r@ == self.message_view(),
    {
        match self {
            ScriptError::Compile(m) => m.clone(),
            ScriptError::Validation(m) => m.clone(),
        }
    }
}

/// Why a host capability call failed: the transport could not complete the
/// exchange, or a value could not be put on the wire.
#[derive(Debug)]
pub enum HostError {
    Transport(String),
    Serialization(String),
}

impl HostError {
    /// The human-readable description carried by this error.
    pub open spec fn message_view(self) -> Seq<char> {
        match self {
            HostError::Transport(m) => m@,
            HostError::Serialization(m) => m@,
        }
    }

    /// The description as an owned string.
    pub fn message(&self) -> (r: String)
        ensures
            r@ == self.message_view(),
    {
        match self {
            HostError::Transport(m) => m.clone(),
            HostError::Serialization(m) => m.clone(),
        }
    }
}

} // verus!
