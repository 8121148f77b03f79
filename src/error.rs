use vstd::prelude::*;

verus! {

/// Failure to obtain the session manager or the initial session list.
#[derive(Debug, Clone)]
pub struct WinRTError {
    pub message: String,
}

/// A field-level normalization failure: the required field that was missing
/// or held a value with no counterpart in the data model.
#[derive(Debug, Clone)]
pub struct ConvertError {
    pub message: String,
}

/// Why a control verb could not be delivered.
#[derive(Debug, Clone, Copy, PartialEq, Eq, Structural)]
pub enum ControlError {
    /// No session with the requested source is known.
    NotFound,
    /// The session exists, but its control surface refused the verb.
    RejectedByTarget,
}

/// Why a thumbnail stream could not be read into a buffer.
#[derive(Debug, Clone, Copy, PartialEq, Eq, Structural)]
pub enum IoError {
    /// The stream is longer than one load request can cover.
    TooLarge,
    /// A load or read failed before the whole stream was read.
    ReadFailed,
    /// The stream ended before, or ran past, its announced length.
    LengthMismatch,
}

} // verus!
