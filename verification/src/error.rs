//! The error type of the library.
use vstd::prelude::*;

use crate::patch::segment::Segment;

verus! {

/// Everything that can go wrong while managing a transcoding session.
#[derive(Clone, Debug, PartialEq)]
pub enum NightfallError {
    SessionDoesntExist,
    ChunkNotDone,
    Aborted,
    SessionManagerDied,
    SegmentPatchError(String),
    IoError,
    MissingSegmentBox,
    ProfileNotSupported(String),
    ProfileChainExhausted,
    PartialSegment(Segment),
}

/// The library's result type.
pub type Result<T> = std::result::Result<T, NightfallError>;

/// `r` is the error `ProfileNotSupported` with the message `msg`.
pub open spec fn not_supported_with<T>(r: std::result::Result<T, NightfallError>, msg: Seq<char>) -> bool {
    match r {
        Err(NightfallError::ProfileNotSupported(m)) => m@ == msg,
        _ => false,
    }
}

impl NightfallError {
    /// The human readable description of the error.
    pub fn message(&self) -> (r: String)
        ensures
            r@ == self.message_spec(),
    {
        match self {
            NightfallError::SessionDoesntExist => String::from_str("The requested session doesnt exist"),
            NightfallError::ChunkNotDone => String::from_str("Chunk requested is not ready yet"),
            NightfallError::Aborted => String::from_str("Request aborted"),
            NightfallError::SessionManagerDied => String::from_str("Session manager died"),
            NightfallError::SegmentPatchError(m) => crate::text::concat2("Failed to patch segment ", m.as_str()),
            NightfallError::IoError => String::from_str("Io Error"),
            NightfallError::MissingSegmentBox => String::from_str("Box missing in segment."),
            NightfallError::ProfileNotSupported(m) => m.clone(),
            NightfallError::ProfileChainExhausted => String::from_str("Profile chain exhausted"),
            NightfallError::PartialSegment(_) => String::from_str("Segment is partial"),
        }
    }

    /// The description that `message` returns.
    pub open spec fn message_spec(&self) -> Seq<char> {
        match self {
            NightfallError::SessionDoesntExist => "The requested session doesnt exist"@,
            NightfallError::ChunkNotDone => "Chunk requested is not ready yet"@,
            NightfallError::Aborted => "Request aborted"@,
            NightfallError::SessionManagerDied => "Session manager died"@,
            NightfallError::SegmentPatchError(m) => "Failed to patch segment "@ + m@,
            NightfallError::IoError => "Io Error"@,
            NightfallError::MissingSegmentBox => "Box missing in segment."@,
            NightfallError::ProfileNotSupported(m) => m@,
            NightfallError::ProfileChainExhausted => "Profile chain exhausted"@,
            NightfallError::PartialSegment(_) => "Segment is partial"@,
        }
    }
}

} // verus!
