//! Why a file operation was refused or failed, and the message shown for it.
use vstd::prelude::*;
use vstd::string::*;

verus! {

/// The filesystem step that failed underneath an operation.
#[derive(Debug, Clone, Copy, PartialEq, Eq, Structural)]
pub enum IoStep {
    ListDirectory,
    CreateDirectory,
    WriteFile,
    ReadFile,
    DeleteFile,
}

/// A refused or failed file operation.
#[derive(Debug, Clone, PartialEq, Eq)]
pub enum FileError {
    /// The canonical path lies under none of the allowed directories.
    OutsideAllowlist,
    /// The path does not exist and neither does its parent (as written).
    MissingParent(String),
    /// The current user's home directory could not be determined.
    UnresolvableHome,
    /// The path has no parent component.
    InvalidPath,
    /// The path has no final file-name component.
    InvalidFileName,
    /// The path, or its parent, exists but could not be canonicalised.
    Unresolvable(String),
    /// The directory to be listed does not exist.
    DirectoryNotFound,
    /// The file to be read or deleted does not exist.
    FileNotFound,
    /// Deletion was asked for a directory.
    IsADirectory,
    /// A filesystem call failed; the system's reason.
    IoFailure(IoStep, String),
    /// The file's content is not valid text; the system's reason.
    DecodeFailure(String),
}

/// The text that opens the message of a failed filesystem step.
pub open spec fn io_step_prefix(step: IoStep) -> Seq<char> {
    match step {
        IoStep::ListDirectory => ""@,
        IoStep::CreateDirectory => "Failed to create directory: "@,
        IoStep::WriteFile => "Failed to write file: "@,
        IoStep::ReadFile => "Failed to read file: "@,
        IoStep::DeleteFile => "Failed to delete file: "@,
    }
}

/// The message for `e`, where `path` is the path the caller asked about.
pub open spec fn message_of(e: FileError, path: Seq<char>) -> Seq<char> {
    match e {
        FileError::OutsideAllowlist => "Access denied: path '"@ + path
            + "' is outside of allowed directories (Desktop, Documents, Downloads)"@,
        FileError::MissingParent(parent) => "Parent directory does not exist: "@ + parent@,
        FileError::UnresolvableHome => "Cannot determine home directory"@,
        FileError::InvalidPath => "Invalid file path"@,
        FileError::InvalidFileName => "Invalid file name"@,
        FileError::Unresolvable(reason) => reason@,
        FileError::DirectoryNotFound => "Directory not found"@,
        FileError::FileNotFound => "File not found: "@ + path,
        FileError::IsADirectory => "Cannot delete directories; only files are allowed."@,
        FileError::IoFailure(step, reason) => io_step_prefix(step) + reason@,
        FileError::DecodeFailure(reason) => "Failed to read file: "@ + reason@,
    }
}

impl FileError {
    /// The message shown to the caller for this error about `path`.
    pub fn message(&self, path: &str) -> (r: String)
        ensures
            r@ == message_of(*self, path@),
    {
        match self {
            FileError::OutsideAllowlist => {
                let mut r = String::from_str("Access denied: path '");
                r.append(path);
                r.append("' is outside of allowed directories (Desktop, Documents, Downloads)");
                r
            },
            FileError::MissingParent(parent) => {
                let mut r = String::from_str("Parent directory does not exist: ");
                r.append(parent.as_str());
                r
            },
            FileError::UnresolvableHome => String::from_str("Cannot determine home directory"),
            FileError::InvalidPath => String::from_str("Invalid file path"),
            FileError::InvalidFileName => String::from_str("Invalid file name"),
            FileError::Unresolvable(reason) => reason.clone(),
            FileError::DirectoryNotFound => String::from_str("Directory not found"),
            FileError::FileNotFound => {
                let mut r = String::from_str("File not found: ");
                r.append(path);
                r
            },
            FileError::IsADirectory => String::from_str(
                "Cannot delete directories; only files are allowed.",
            ),
            FileError::IoFailure(step, reason) => {
                let mut r = match step {
                    IoStep::ListDirectory => String::new(),
                    IoStep::CreateDirectory => String::from_str("Failed to create directory: "),
                    IoStep::WriteFile => String::from_str("Failed to write file: "),
                    IoStep::ReadFile => String::from_str("Failed to read file: "),
                    IoStep::DeleteFile => String::from_str("Failed to delete file: "),
                };
                proof {
                    reveal_strlit("");
                }
                r.append(reason.as_str());
                r
            },
            FileError::DecodeFailure(reason) => {
                let mut r = String::from_str("Failed to read file: ");
                r.append(reason.as_str());
                r
            },
        }
    }
}

} // verus!
