//! Errors of the renaming library.

use vstd::prelude::*;

verus! {

#[verifier::external_type_specification]
#[verifier::external_body]
pub struct ExIoError(std::io::Error);

/// Why a file cannot be renamed.
#[derive(Debug)]
pub enum FileError {
    /// File does not exist.
    NotFound,
    /// File does not have a stem.
    BadStem,
    /// The operating system refused an operation on the file.
    Io(std::io::Error),
}

/// Why a directory cannot be listed.
#[derive(Debug)]
pub enum DirectoryError {
    /// The operating system refused an operation on the directory.
    Io(std::io::Error),
    /// No home directory could be found.
    NoHome,
    /// A file in the directory cannot be renamed.
    File(FileError),
    /// The path does not exist.
    PathDoesNotExist(String),
    /// The path is a file, not a directory.
    IsAFile(String),
}

/// Any error of the library.
#[derive(Debug)]
pub enum RenamerError {
    Directory(DirectoryError),
    Io(std::io::Error),
    File(FileError),
}

} // verus!
