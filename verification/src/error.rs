//! The error taxonomy, with each error rendered as the message a user sees.

use vstd::prelude::*;
use vstd::string::StringExecFns;

verus! {

/// The error taxonomy of the library.
///
/// Configuration errors carry the offending path or reason, YAML errors carry
/// the parser's report, tmux errors carry the captured standard-error text of
/// the failed command, and I/O errors carry the operating-system report.
#[derive(Debug)]
pub enum TmuxrsError {
    ConfigNotFound(String),
    YamlError(String),
    TmuxError(String),
    IoError(String),
}

impl TmuxrsError {
    /// The text of the error as shown to a user.
    pub open spec fn spec_message(self) -> Seq<char> {
        match self {
            TmuxrsError::ConfigNotFound(s) => "Configuration file not found: "@ + s@,
            TmuxrsError::YamlError(s) => "Failed to parse YAML: "@ + s@,
            TmuxrsError::TmuxError(s) => "tmux command failed: "@ + s@,
            TmuxrsError::IoError(s) => "IO error: "@ + s@,
        }
    }

    /// Renders the error as a human-readable message.
    pub fn message(&self) -> (r: String)
        ensures
            r@ == self.spec_message(),
    {
        match self {
            TmuxrsError::ConfigNotFound(s) => {
                String::from_str("Configuration file not found: ").concat(s.as_str())
            },
            TmuxrsError::YamlError(s) => {
                String::from_str("Failed to parse YAML: ").concat(s.as_str())
            },
            TmuxrsError::TmuxError(s) => {
                String::from_str("tmux command failed: ").concat(s.as_str())
            },
            TmuxrsError::IoError(s) => String::from_str("IO error: ").concat(s.as_str()),
        }
    }
}

/// The result type of the library.
pub type Result<T> = core::result::Result<T, TmuxrsError>;

} // verus!
