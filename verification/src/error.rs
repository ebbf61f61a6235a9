//! The closed taxonomy of pipeline failures.

use vstd::prelude::*;

verus! {

/// Everything that can go wrong while running a pipeline, as a closed set:
/// a caller can match exhaustively and the compiler enforces coverage.
#[derive(Clone, Copy, Debug, PartialEq, Eq, Hash, Structural)]
pub enum ErrorKind {
    /// The pipeline itself was malformed: no stages, or a stage with no tokens.
    InvalidFormatError,
    /// The final stage could not be started and the OS gave an error number.
    OsError,
    /// A stage started but exited non-zero, or an intermediate stage failed to
    /// spawn while the next stage was being wired to it.
    ExecError,
    /// The final stage succeeded but its captured output was not valid UTF-8.
    UnicodeDecodeError,
    /// The final stage could not be started and the OS gave no error number.
    UnknownError,
}

/// A classified pipeline failure: its kind, an optional numeric code (a process
/// exit code, a raw OS error number, or the `-1` sentinel for structural
/// failures) and a human-readable diagnostic.
#[derive(Debug)]
pub struct Error {
    kind: ErrorKind,
    code: Option<i32>,
    details: String,
}

impl Error {
    /// The failure class this error carries.
    pub closed spec fn spec_kind(&self) -> ErrorKind {
        self.kind
    }

    /// The numeric code this error carries, if any.
    pub closed spec fn spec_code(&self) -> Option<i32> {
        self.code
    }

    /// The diagnostic text this error carries.
    pub closed spec fn spec_details(&self) -> Seq<char> {
        self.details@
    }

    /// Build an error from its three parts.
    pub fn new(kind: ErrorKind, code: Option<i32>, msg: &str) -> (e: Error)
        ensures
            e.spec_kind() == kind,
            e.spec_code() == code,
            e.spec_details() == msg@,
    {
        Error { kind, code, details: msg.to_owned() }
    }

    /// The failure class.
    pub fn kind(&self) -> (k: ErrorKind)
        ensures
            k == self.spec_kind(),
    {
        self.kind
    }

    /// The numeric code, if one is meaningful for this kind of failure.
    pub fn code(&self) -> (c: Option<i32>)
        ensures
            c == self.spec_code(),
    {
        self.code
    }

    /// The human-readable diagnostic.
    pub fn details(&self) -> (d: &str)
        ensures
            d@ == self.spec_details(),
    {
        self.details.as_str()
    }
}

} // verus!
