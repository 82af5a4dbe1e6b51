//! The ways in which a request for advice can fail.

use crate::os::{errno_string, errno_text};
use nix::errno::Errno;
use vstd::prelude::*;
use vstd::string::StringExecFns;

verus! {

/// Why a request was refused or could not be carried out.
#[derive(Debug, Copy, Clone, PartialEq, Eq)]
pub enum AdviseError {
    /// The offset of the range is negative.
    NegativeOffset,
    /// The length of the range is given and negative.
    NegativeLength,
    /// It could not be found out whether the file exists.
    ExistenceUnknown,
    /// There is nothing at the path.
    DoesNotExist,
    /// The metadata of the file could not be read.
    MetadataUnavailable,
    /// The path leads to something other than a regular file.
    NotAFile,
    /// The file could not be opened for reading.
    OpenFailed,
    /// The kernel refused the advice, with this error number.
    Os(Errno),
}

impl AdviseError {
    /// The message for an error that came up while working on the file
    /// `filename`.
    pub open spec fn message_spec(self, filename: Seq<char>) -> Seq<char> {
        match self {
            AdviseError::NegativeOffset => "offset must not be negative"@,
            AdviseError::NegativeLength => "length must not be negative"@,
            AdviseError::ExistenceUnknown => "Failed to check existence of the file"@,
            AdviseError::DoesNotExist => "'"@ + filename + "' does not exist"@,
            AdviseError::MetadataUnavailable => "Failed to retrieve metadata of the file"@,
            AdviseError::NotAFile => "'"@ + filename + "' is not a file"@,
            AdviseError::OpenFailed => "Failed to open the file"@,
            AdviseError::Os(errno) => errno_text(errno),
        }
    }

    /// The message for an error that came up while working on the file
    /// `filename`.
    pub fn message(&self, filename: &str) -> (text: String)
        ensures
            text@ == self.message_spec(filename@),
    {
        match self {
            AdviseError::NegativeOffset => String::from_str("offset must not be negative"),
            AdviseError::NegativeLength => String::from_str("length must not be negative"),
            AdviseError::ExistenceUnknown => String::from_str(
                "Failed to check existence of the file",
            ),
            AdviseError::DoesNotExist => String::from_str("'").concat(filename).concat(
                "' does not exist",
            ),
            AdviseError::MetadataUnavailable => String::from_str(
                "Failed to retrieve metadata of the file",
            ),
            AdviseError::NotAFile => String::from_str("'").concat(filename).concat(
                "' is not a file",
            ),
            AdviseError::OpenFailed => String::from_str("Failed to open the file"),
            AdviseError::Os(errno) => errno_string(*errno),
        }
    }
}

} // verus!
