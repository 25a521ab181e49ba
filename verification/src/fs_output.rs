//! Writing the result file: the errors it can end with.
//!
//! The file system work is the caller's.

use vstd::prelude::*;
use crate::text::concat2;

verus! {

/// Where writing the result file failed.
#[derive(Debug, Clone, Copy, PartialEq, Eq, Structural)]
pub enum FsOutputErrorCode {
    ParentMissing,
    SerializeFailed,
    WriteFailed,
    RenameFailed,
}

pub open spec fn fs_code_name(c: FsOutputErrorCode) -> Seq<char> {
    match c {
        FsOutputErrorCode::ParentMissing => "ParentMissing"@,
        FsOutputErrorCode::SerializeFailed => "SerializeFailed"@,
        FsOutputErrorCode::WriteFailed => "WriteFailed"@,
        FsOutputErrorCode::RenameFailed => "RenameFailed"@,
    }
}

impl FsOutputErrorCode {
    pub fn name(self) -> (r: &'static str)
        ensures
            r@ == fs_code_name(self),
    {
        match self {
            FsOutputErrorCode::ParentMissing => "ParentMissing",
            FsOutputErrorCode::SerializeFailed => "SerializeFailed",
            FsOutputErrorCode::WriteFailed => "WriteFailed",
            FsOutputErrorCode::RenameFailed => "RenameFailed",
        }
    }
}

/// A failed write of the result file, with the path concerned.
#[derive(Debug, Clone)]
pub struct FsOutputError {
    pub code: FsOutputErrorCode,
    pub message: String,
    pub path: String,
}

impl FsOutputError {
    /// `{path} ({code}): {message}`.
    pub fn describe(&self) -> (r: String)
        ensures
            r@ == self.path@ + " ("@ + fs_code_name(self.code) + "): "@ + self.message@,
    {
        let a = concat2(self.path.as_str(), " (");
        let b = concat2(a.as_str(), self.code.name());
        let c = concat2(b.as_str(), "): ");
        concat2(c.as_str(), self.message.as_str())
    }
}

/// The output path has no parent directory.
pub fn no_parent_error(path: &str) -> (e: FsOutputError)
    ensures
        e.code == FsOutputErrorCode::ParentMissing,
        e.message@ == "output path must include parent directory"@,
        e.path@ == path@,
{
    FsOutputError {
        code: FsOutputErrorCode::ParentMissing,
        message: "output path must include parent directory".to_string(),
        path: path.to_string(),
    }
}

/// The output's parent directory does not exist.
pub fn missing_parent_error(parent: &str) -> (e: FsOutputError)
    ensures
        e.code == FsOutputErrorCode::ParentMissing,
        e.message@ == "output parent directory does not exist"@,
        e.path@ == parent@,
{
    FsOutputError {
        code: FsOutputErrorCode::ParentMissing,
        message: "output parent directory does not exist".to_string(),
        path: parent.to_string(),
    }
}

} // verus!
