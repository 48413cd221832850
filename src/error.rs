//! The closed set of errors that callers see.
use vstd::prelude::*;

verus! {

/// The four failure kinds of the log operations.
#[derive(Debug, Clone, Copy, PartialEq, Eq, Structural)]
pub enum DJIError {
    /// The container is malformed: truncated Prefix or Info block, or an offset
    /// outside the buffer.
    ParseError,
    /// No keychain data could be extracted, or fetching keychains failed.
    KeychainError,
    /// The record section could not be walked.
    RecordError,
    /// Frames could not be built from the records.
    FrameError,
}

/// The message that describes each error.
pub open spec fn message_of(e: DJIError) -> Seq<char> {
    match e {
        DJIError::ParseError => "Failed to parse DJI log"@,
        DJIError::KeychainError => "Failed to fetch keychains"@,
        DJIError::RecordError => "Failed to process records"@,
        DJIError::FrameError => "Failed to process frames"@,
    }
}

impl DJIError {
    /// The message that describes this error.
    pub fn message(&self) -> (r: String)
        ensures
            r@ == message_of(*self),
    {
        match self {
            DJIError::ParseError => "Failed to parse DJI log".to_string(),
            DJIError::KeychainError => "Failed to fetch keychains".to_string(),
            DJIError::RecordError => "Failed to process records".to_string(),
            DJIError::FrameError => "Failed to process frames".to_string(),
        }
    }
}

} // verus!
