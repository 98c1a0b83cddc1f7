use vstd::prelude::*;

verus! {

/// The failures of a socket operation.
#[derive(Debug, Clone, PartialEq)]
pub enum IOError {
    /// The call could not complete without blocking: a signal to suspend,
    /// not a failure.
    WouldBlock,
    /// The operating system reported a failure, with its message.
    SyscallResult(String),
    /// The peer closed its side of the connection.
    ConnectionClosed,
}

pub type Result<T> = core::result::Result<T, IOError>;

pub open spec fn is_would_block(e: IOError) -> bool {
    e is WouldBlock
}

impl IOError {
    /// The text that describes the failure.
    pub fn message(&self) -> (r: String)
        ensures
            match self {
                IOError::WouldBlock => r@ == "This operation would block."@,
                IOError::SyscallResult(m) => r@ == m@,
                IOError::ConnectionClosed => r@ == "Peer closed the connection."@,
            },
    {
        match self {
            IOError::WouldBlock => "This operation would block.".to_owned(),
            IOError::SyscallResult(m) => m.clone(),
            IOError::ConnectionClosed => "Peer closed the connection.".to_owned(),
        }
    }

    /// Tells the control-flow signal of a non-blocking call apart from a
    /// failure.
    pub fn is_would_block(&self) -> (r: bool)
        ensures
            r == is_would_block(*self),
    {
        match self {
            IOError::WouldBlock => true,
            _ => false,
        }
    }
}

/// The operating system's report on a failed call.
pub struct OS;

impl OS {
    /// The error of a failed call: `would_block` says whether the error
    /// number was the one for "try again", `message` is its description.
    pub fn error(would_block: bool, message: String) -> (r: IOError)
        ensures
            would_block ==> r == IOError::WouldBlock,
            !would_block ==> r == IOError::SyscallResult(message),
    {
        if would_block {
            IOError::WouldBlock
        } else {
            IOError::SyscallResult(message)
        }
    }
}

} // verus!
