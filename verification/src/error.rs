//! The backend's error surface: two kinds only. `NotFound` for a path
//! that does not resolve to the requested entry kind, `InvalidSeek`
//! for cursor arithmetic that would go negative or overflow.

use vstd::prelude::*;
use vstd::string::StringExecFns;

verus! {

/// Which failure occurred.
#[derive(Clone, Copy, Debug, PartialEq, Eq, Structural)]
pub enum IoErrorKind {
    NotFound,
    InvalidSeek,
}

/// An error reported to the consumer: a kind and a human-readable
/// message naming the offending path where one is involved.
#[derive(Debug)]
pub struct IoError {
    kind: IoErrorKind,
    message: String,
}

impl IoError {
    pub closed spec fn kind_spec(&self) -> IoErrorKind {
        self.kind
    }

    pub closed spec fn message_spec(&self) -> Seq<char> {
        self.message@
    }

    /// A `NotFound` error carrying the given message.
    pub fn not_found(message: String) -> (r: IoError)
        ensures
            r.kind_spec() == IoErrorKind::NotFound,
            r.message_spec() == message@,
    {
        IoError { kind: IoErrorKind::NotFound, message }
    }

    /// An `InvalidSeek` error with its fixed message.
    pub fn invalid_seek() -> (r: IoError)
        ensures
            r.kind_spec() == IoErrorKind::InvalidSeek,
            r.message_spec() == "invalid seek to a negative or overflowing position"@,
    {
        IoError {
            kind: IoErrorKind::InvalidSeek,
            message: String::from_str("invalid seek to a negative or overflowing position"),
        }
    }

    pub fn kind(&self) -> (r: IoErrorKind)
        ensures
            r == self.kind_spec(),
    {
        self.kind
    }

    pub fn message(&self) -> (r: String)
        ensures
            r@ == self.message_spec(),
    {
        self.message.clone()
    }
}

} // verus!
