//! The errors that cross the runtime's boundary.

use vstd::prelude::*;

verus! {

/// An error of an I/O operation. Errors of the operating system pass through
/// with their code; the runtime adds the kinds that only it can produce.
#[derive(Clone, Copy, PartialEq, Eq, Structural, Debug)]
pub enum IoError {
    /// An error of the operating system, by its code.
    Os(i32),
    /// The operation would block. Event sources absorb it by waiting.
    WouldBlock,
    /// The deadline of the operation passed before it completed.
    TimedOut,
    /// The coroutine was cancelled while it waited.
    Cancelled,
    /// A previous owner of a lock panicked.
    Poisoned,
    /// The other half of a channel is gone.
    BrokenChannel,
    /// No address was given to connect to.
    NoAddresses,
    /// A datagram arrived without a usable sender address.
    NoRemoteAddress,
    /// Any other failure.
    Other,
}

impl IoError {
    /// The code of the operating system, if the error has one.
    pub open spec fn spec_raw_os_error(&self) -> Option<i32> {
        match *self {
            IoError::Os(code) => Some(code),
            _ => None,
        }
    }

    #[verifier::when_used_as_spec(spec_raw_os_error)]
    pub fn raw_os_error(&self) -> (code: Option<i32>)
        ensures
            code == self.spec_raw_os_error(),
    {
        match self {
            IoError::Os(code) => Some(*code),
            _ => None,
        }
    }

    /// Whether the error only asks the caller to wait and try again.
    pub open spec fn spec_is_would_block(&self) -> bool {
        *self == IoError::WouldBlock
    }

    #[verifier::when_used_as_spec(spec_is_would_block)]
    pub fn is_would_block(&self) -> (b: bool)
        ensures
            b == self.spec_is_would_block(),
    {
        match self {
            IoError::WouldBlock => true,
            _ => false,
        }
    }
}

} // verus!
