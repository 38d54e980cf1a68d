//! Error taxonomy: the one domain error the adapter raises itself, and the
//! opaque errors it propagates from the capabilities unchanged.

use vstd::prelude::*;

verus! {

/// Errors which may occur interacting with the display.
#[derive(Copy, Clone, Debug, Eq, PartialEq, Structural)]
pub enum DisplayError {
    /// It was not possible to send all the necessary data to the display:
    /// the transport accepted fewer bytes than were requested.
    WriteFailed,
}

impl DisplayError {
    /// A human-readable description of the error.
    pub fn description(&self) -> (r: &'static str)
        ensures
            r@ == "write failed: unable to send complete sequence to display"@,
    {
        match self {
            DisplayError::WriteFailed => "write failed: unable to send complete sequence to display",
        }
    }
}

/// The outcome of one scoped transfer: the domain error, or the transport's
/// own error propagated unchanged.
#[derive(Debug)]
pub enum TransferFailure<TE> {
    /// The adapter detected a short write.
    Display(DisplayError),
    /// The transport itself failed.
    Transport(TE),
}

/// Everything an adapter operation can fail with: the domain error, or an
/// opaque error of one of the two capabilities, propagated unchanged in kind.
#[derive(Debug)]
pub enum AdapterError<CE, TE> {
    /// The adapter detected a short write.
    Display(DisplayError),
    /// The control channel could not place the link into the requested mode.
    Channel(CE),
    /// The transport itself failed.
    Transport(TE),
}

} // verus!
