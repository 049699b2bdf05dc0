//! Placeholders for errors that would be better fully serialized, keeping
//! their structured fields instead of degrading to description, display and
//! cause. No such kind is wired up yet: capture always degrades an error to a
//! snapshot, and these types only reserve the shape of the capability.

use vstd::prelude::*;

use crate::snapshot::LiveError;

verus! {

/// Reserved for an error that is better fully serialized, keeping its fields.
///
/// The enum may gain kinds in the future, so it must not be matched
/// exhaustively.
#[derive(Clone, Copy, Debug)]
#[non_exhaustive]
pub enum RealError {
    /// Never present in a value obtained through this crate; it keeps the
    /// enum open for future kinds, and consuming it only yields the warning
    /// description below.
    Nonexhaustive,
}

impl RealError {
    /// Returns true if the error value can be represented as a RealError.
    /// No fully serializable kind exists yet, so no error can be: the answer
    /// is false for every input.
    pub fn can_represent<E: LiveError>(_err: &E) -> (r: bool)
        ensures
            r == false,
    {
        false
    }

    /// The description of this error: always the warning text, since no
    /// other kind exists yet.
    pub fn description(&self) -> (r: String)
        ensures
            r@ == "Nonexhaustive: This value should never exist. If you are seeing this, it may be a result of corrupt data, or an attempt to crash the program with bad data."@,
    {
        match *self {
            RealError::Nonexhaustive => "Nonexhaustive: This value should never exist. If you are seeing this, it may be a result of corrupt data, or an attempt to crash the program with bad data.".to_owned(),
        }
    }

    /// The direct cause of this error: none, since no kind with a cause
    /// exists yet.
    pub fn cause(&self) -> (r: Option<&RealError>)
        ensures
            r is None,
    {
        match *self {
            RealError::Nonexhaustive => None,
        }
    }
}

/// A copy of the standard I/O error kinds that can be serialized; reserved
/// for a fully serializable I/O error.
///
/// The enum may gain kinds in the future, so it must not be matched
/// exhaustively.
#[derive(Clone, Copy, Debug, PartialEq, Eq, Structural)]
#[non_exhaustive]
pub enum SerializableIoErrorKind {
    /// An entity was not found, often a file.
    NotFound,
    /// The operation lacked the necessary privileges to complete.
    PermissionDenied,
    /// The connection was refused by the remote server.
    ConnectionRefused,
    /// The connection was reset by the remote server.
    ConnectionReset,
    /// The connection was terminated by the remote server.
    ConnectionAborted,
    /// The network operation failed because it was not connected yet.
    NotConnected,
    /// A socket address could not be bound because the address is already in
    /// use elsewhere.
    AddrInUse,
    /// A nonexistent interface was requested or the requested address was not
    /// local.
    AddrNotAvailable,
    /// The operation failed because a pipe was closed.
    BrokenPipe,
    /// An entity already exists, often a file.
    AlreadyExists,
    /// The operation needed to block to complete, but blocking was not
    /// requested.
    WouldBlock,
    /// A parameter was incorrect.
    InvalidInput,
    /// Data not valid for the operation was encountered, such as a file that
    /// should hold text not being valid UTF-8.
    InvalidData,
    /// The I/O operation's timeout expired, causing it to be canceled.
    TimedOut,
    /// A write could only succeed by writing a particular number of bytes,
    /// but a smaller number was written.
    WriteZero,
    /// The operation was interrupted and can typically be retried.
    Interrupted,
    /// Any I/O error not part of this list.
    Other,
    /// An end of file was reached prematurely, where an operation could only
    /// succeed by reading a particular number of bytes.
    UnexpectedEof,
}

} // verus!
