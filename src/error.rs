//! The reasons for which one file cannot be processed.
use vstd::prelude::*;

verus! {

/// Why one file could not be renamed. None of them stops the run.
#[derive(Debug, PartialEq, Eq)]
pub enum RenameError {
    /// The path has no final component.
    NoFileName,
    /// The tag reader could not open or probe the file.
    Open(String),
    /// The file was probed but its tags could not be parsed.
    Read(String),
    /// The file holds no tag block.
    NoTag,
    /// The file system refused the rename.
    Rename(String),
}

impl RenameError {
    /// A human-readable account of the error.
    pub fn message(&self) -> (r: String)
        ensures
            r@ == match self {
                RenameError::NoFileName => "cannot get the file name"@,
                RenameError::Open(e) => "cannot open file: "@ + e@,
                RenameError::Read(e) => "cannot read metadata: "@ + e@,
                RenameError::NoTag => "the file holds no metadata tag"@,
                RenameError::Rename(e) => "rename failed: "@ + e@,
            },
    {
        match self {
            RenameError::NoFileName => String::from_str("cannot get the file name"),
            RenameError::Open(e) => String::from_str("cannot open file: ").concat(e.as_str()),
            RenameError::Read(e) => String::from_str("cannot read metadata: ").concat(e.as_str()),
            RenameError::NoTag => String::from_str("the file holds no metadata tag"),
            RenameError::Rename(e) => String::from_str("rename failed: ").concat(e.as_str()),
        }
    }
}

} // verus!
