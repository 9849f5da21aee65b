//! The error surface of the truncation capability: a kind telling an
//! invalid request apart from an underlying I/O failure, plus a
//! human-readable message.

use vstd::prelude::*;
use crate::decimal::decimal_digits;

verus! {

/// Classifies a [`TruncateError`].
#[derive(Clone, Copy, Debug, PartialEq, Eq, Structural)]
pub enum ErrorKind {
    /// The request itself was rejected: `new_len` exceeded the current
    /// length of a shrink-only representation. The object is unchanged.
    InvalidInput,
    /// The underlying platform call failed; the platform's own message is
    /// passed through unchanged.
    Io,
}

/// The message reporting a request to truncate to `requested` bytes an
/// object whose current length is `current` bytes.
pub open spec fn greater_length_message(requested: int, current: int) -> Seq<char>
    recommends
        requested >= 0,
        current >= 0,
{
    "tried to truncate to greater length ("@ + decimal_digits(requested as nat) + " > "@
        + decimal_digits(current as nat) + ")"@
}

/// An error returned by a failed truncation.
#[derive(Debug)]
pub struct TruncateError {
    kind: ErrorKind,
    message: String,
}

impl TruncateError {
    /// The kind of this error.
    pub closed spec fn spec_kind(&self) -> ErrorKind {
        self.kind
    }

    /// The characters of this error's message.
    pub closed spec fn spec_message(&self) -> Seq<char> {
        self.message@
    }

    /// The kind of this error.
    pub fn kind(&self) -> (k: ErrorKind)
        ensures
            k == self.spec_kind(),
    {
        self.kind
    }

    /// The error's message.
    pub fn message(&self) -> (m: &str)
        ensures
            m@ == self.spec_message(),
    {
        self.message.as_str()
    }

    /// The rejection raised by a shrink-only representation of current
    /// length `current` when asked to truncate to `requested > current`
    /// bytes: invalid input, with a message reporting both lengths.
    pub fn greater_length(requested: usize, current: usize) -> (e: TruncateError)
        ensures
            e.spec_kind() == ErrorKind::InvalidInput,
            e.spec_message() == greater_length_message(requested as int, current as int),
    {
        let mut message = String::from_str("tried to truncate to greater length (");
        message.append(crate::decimal::decimal_string(requested).as_str());
        message.append(" > ");
        message.append(crate::decimal::decimal_string(current).as_str());
        message.append(")");
        proof {
            assert(message@ =~= greater_length_message(requested as int, current as int));
        }
        TruncateError { kind: ErrorKind::InvalidInput, message }
    }

    /// An underlying I/O failure, carrying the platform's message through
    /// unchanged.
    pub fn io(message: String) -> (e: TruncateError)
        ensures
            e.spec_kind() == ErrorKind::Io,
            e.spec_message() == message@,
    {
        TruncateError { kind: ErrorKind::Io, message }
    }
}

} // verus!
