use vstd::prelude::*;

verus! {

/// Why a bridge operation failed. Every variant carries display text that the
/// GUI layer surfaces verbatim; no failure is retried or treated as fatal.
#[derive(Debug, PartialEq, Eq)]
pub enum BridgeError {
    /// The external process ran and exited non-zero; carries its standard-error
    /// text, lossily decoded so this path itself cannot fail.
    ExternalTool(String),
    /// The external process could not be started at all; carries the system
    /// error's text.
    Spawn(String),
    /// The external process's standard output was not valid UTF-8; carries the
    /// decode error's text.
    Decode(String),
    /// The system time could not be read; carries the underlying error's text.
    Clock(String),
}

impl BridgeError {
    /// The display text carried by the error, whatever its kind.
    pub open spec fn text_spec(&self) -> Seq<char> {
        match self {
            BridgeError::ExternalTool(s) => s@,
            BridgeError::Spawn(s) => s@,
            BridgeError::Decode(s) => s@,
            BridgeError::Clock(s) => s@,
        }
    }

    /// The display text carried by the error, for the GUI layer.
    pub fn text(&self) -> (r: String)
        ensures
            r@ == self.text_spec(),
    {
        match self {
            BridgeError::ExternalTool(s) => s.clone(),
            BridgeError::Spawn(s) => s.clone(),
            BridgeError::Decode(s) => s.clone(),
            BridgeError::Clock(s) => s.clone(),
        }
    }
}

} // verus!
