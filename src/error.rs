use vstd::prelude::*;

verus! {

/// The single error a run ends with, carrying what is needed to tell which
/// stage failed and why.
#[derive(Debug, PartialEq, Eq)]
pub enum InstallerError {
    /// A filesystem operation failed (path, description).
    IoError(String, String),
    /// An archive could not be read or unpacked (archive path, description).
    ZipError(String, String),
    /// A download answered with a status other than success (URL, status).
    DownloadError(String, u16),
    /// A download failed before a status came back (URL, description).
    RequestError(String, String),
    /// The target directory exists and overwriting was not requested.
    WorkspaceAlreadyExists(String),
    /// No file under the search root matched the pattern (pattern, root).
    NotFound(String, String),
    /// Several files matched the pattern (pattern, root, the candidates).
    AmbiguousMatch(String, String, Vec<String>),
    /// The pattern is not a valid regular expression (pattern).
    InvalidPattern(String),
    /// An external process exited with failure or could not start (command).
    CommandExecutionFailed(String),
}

} // verus!
