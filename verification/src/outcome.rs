//! The error taxonomy and its mapping to process status classes, decided
//! in one place so that every failure path exits with the right status.

use vstd::prelude::*;

verus! {

/// Why a run cannot complete. Every variant is fatal: the run reports one
/// message and terminates.
#[derive(Clone, Copy, PartialEq, Eq, Structural, Debug)]
pub enum ToolError {
    /// No platform download directory could be resolved.
    NoDownloadDir,
    /// The download directory could not be opened or read.
    DownloadDirUnreadable,
    /// The download directory holds no regular file with readable
    /// metadata.
    NoFilesFound,
    /// Copying the selected file failed.
    CopyFailed,
}

/// The status class a run terminates with.
#[derive(Clone, Copy, PartialEq, Eq, Structural, Debug)]
pub enum ExitClass {
    /// The copy succeeded.
    Success,
    /// The environment does not satisfy a precondition the tool cannot
    /// work around.
    ConfigError,
    /// An operating-system operation failed.
    IoError,
}

/// The status class of each failure: configuration errors for a missing
/// download directory and for an empty one, I/O errors for an unreadable
/// directory and for a failed copy.
pub open spec fn class_of_error(e: ToolError) -> ExitClass {
    match e {
        ToolError::NoDownloadDir => ExitClass::ConfigError,
        ToolError::DownloadDirUnreadable => ExitClass::IoError,
        ToolError::NoFilesFound => ExitClass::ConfigError,
        ToolError::CopyFailed => ExitClass::IoError,
    }
}

/// Maps a failure to the status class its run terminates with.
pub fn exit_class_of(e: &ToolError) -> (r: ExitClass)
    ensures
        r == class_of_error(*e),
{
    match e {
        ToolError::NoDownloadDir => ExitClass::ConfigError,
        ToolError::DownloadDirUnreadable => ExitClass::IoError,
        ToolError::NoFilesFound => ExitClass::ConfigError,
        ToolError::CopyFailed => ExitClass::IoError,
    }
}

} // verus!
