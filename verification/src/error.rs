//! The error type shared by every layer of the stack.

use vstd::prelude::*;
use vstd::string::StringExecFns;

verus! {

/// What can go wrong while a frame travels through the stack.
#[derive(Debug)]
pub enum StackError {
    /// The network device failed to read or write; carries its message.
    Io(String),
    /// A buffer is too short to hold the header its layer expects.
    InvalidPacket(String),
    /// A checksum carried by a packet does not match its contents.
    ChecksumMismatch(String),
    /// A transport connection could not be established.
    ConnectionFailed(String),
}

/// The result type of every fallible operation of the stack.
pub type Result<T> = std::result::Result<T, StackError>;

impl StackError {
    /// The text an error is shown with. I/O errors and invalid packets
    /// show their detail; the other two kinds show their name only.
    pub open spec fn text(self) -> Seq<char> {
        match self {
            StackError::Io(detail) => "IO error: "@ + detail@,
            StackError::InvalidPacket(detail) => "Invalid packet: "@ + detail@,
            StackError::ChecksumMismatch(_) => "Checksum mismatch"@,
            StackError::ConnectionFailed(_) => "Connection failed"@,
        }
    }

    /// The text the error is shown with.
    pub fn to_string(&self) -> (r: String)
        ensures
            r@ == self.text(),
    {
        match self {
            StackError::Io(detail) => String::from_str("IO error: ").concat(detail.as_str()),
            StackError::InvalidPacket(detail) => String::from_str("Invalid packet: ").concat(
                detail.as_str(),
            ),
            StackError::ChecksumMismatch(_) => String::from_str("Checksum mismatch"),
            StackError::ConnectionFailed(_) => String::from_str("Connection failed"),
        }
    }
}

} // verus!
