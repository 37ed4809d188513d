//! Errors that can occur during PDF collection or shrinking.

use vstd::prelude::*;

verus! {

/// Errors that can occur during PDF collection or shrinking.
///
/// System-level error causes are carried as their rendered text, so
/// the whole diagnostic is preserved verbatim for reporting.
#[derive(Clone, Debug)]
pub enum Error {
    /// The Ghostscript executable was not found on the system path.
    GhostscriptNotFound,
    /// Ghostscript was spawned but exited with a non-zero status;
    /// carries its error-stream output verbatim.
    GhostscriptFailed(String),
    /// Ghostscript could not be spawned (e.g. missing execute
    /// permission); carries the system error text.
    Spawn(String),
    /// An I/O error at a specific filesystem path.
    Io {
        /// The path that triggered the error.
        path: String,
        /// The underlying I/O error's text.
        message: String,
    },
}

/// The human-readable diagnostic for each error variant.
pub open spec fn spec_error_message(e: Error) -> Seq<char> {
    match e {
        Error::GhostscriptNotFound => "Ghostscript not found. Install it with:\n  macOS:   brew install ghostscript\n  Ubuntu:  sudo apt-get install ghostscript\n  Windows: https://www.ghostscript.com/download/gsdnld.html"@,
        Error::GhostscriptFailed(s) => "Ghostscript failed: "@ + s@,
        Error::Spawn(s) => "Failed to spawn Ghostscript: "@ + s@,
        Error::Io { path, message } => "I/O error at '"@ + path@ + "': "@ + message@,
    }
}

impl Error {
    /// Renders this error as its human-readable diagnostic line.
    pub fn message(&self) -> (m: String)
        ensures
            m@ == spec_error_message(*self),
    {
        match self {
            Error::GhostscriptNotFound => String::from_str(
                "Ghostscript not found. Install it with:\n  macOS:   brew install ghostscript\n  Ubuntu:  sudo apt-get install ghostscript\n  Windows: https://www.ghostscript.com/download/gsdnld.html",
            ),
            Error::GhostscriptFailed(s) => {
                let mut m = String::from_str("Ghostscript failed: ");
                m.append(s.as_str());
                m
            },
            Error::Spawn(s) => {
                let mut m = String::from_str("Failed to spawn Ghostscript: ");
                m.append(s.as_str());
                m
            },
            Error::Io { path, message } => {
                let mut m = String::from_str("I/O error at '");
                m.append(path.as_str());
                m.append("': ");
                m.append(message.as_str());
                m
            },
        }
    }
}

} // verus!
