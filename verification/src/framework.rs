//! Plain counterparts of the values that the media framework passes to the
//! element and expects back from it.
use vstd::prelude::*;

verus! {

/// Why a buffer could not be produced.
#[derive(Clone, Copy, Debug, PartialEq, Eq, Structural)]
pub enum FlowError {
    NotLinked,
    Flushing,
    Eos,
    NotNegotiated,
    Error,
    NotSupported,
    CustomError,
    CustomError1,
    CustomError2,
}

/// A transition between two element states.
#[derive(Clone, Copy, Debug, PartialEq, Eq, Structural)]
pub enum StateChange {
    NullToReady,
    ReadyToPaused,
    PausedToPlaying,
    PlayingToPaused,
    PausedToReady,
    ReadyToNull,
    NullToNull,
    ReadyToReady,
    PausedToPaused,
    PlayingToPlaying,
}

/// The error domain and code under which a message is reported.
#[derive(Clone, Copy, Debug, PartialEq, Eq, Structural)]
pub enum ErrorCode {
    /// The library domain, code "settings".
    LibrarySettings,
    /// The resource domain, code "not found".
    ResourceNotFound,
    /// The resource domain, code "settings".
    ResourceSettings,
}

/// An error together with its human-readable text.
#[derive(Debug, PartialEq, Eq)]
pub struct ErrorMessage {
    pub code: ErrorCode,
    pub text: String,
}

impl ErrorMessage {
    /// Whether this is the error `code` with the text `text`.
    pub open spec fn says(self, code: ErrorCode, text: Seq<char>) -> bool {
        self.code == code && self.text@ == text
    }
}

/// The unit in which a source counts its position.
#[derive(Clone, Copy, Debug, PartialEq, Eq, Structural)]
pub enum Format {
    Bytes,
    Time,
}

/// Which way data flows through a pad.
#[derive(Clone, Copy, Debug, PartialEq, Eq, Structural)]
pub enum PadDirection {
    Src,
    Sink,
}

/// How long a pad exists.
#[derive(Clone, Copy, Debug, PartialEq, Eq, Structural)]
pub enum PadPresence {
    Always,
    Sometimes,
    Request,
}

/// Who drives the data flow on a pad.
#[derive(Clone, Copy, Debug, PartialEq, Eq, Structural)]
pub enum PadMode {
    Push,
    Pull,
}

/// What scheduling a pad offers.
#[derive(Clone, Copy, Debug, PartialEq, Eq, Structural)]
pub struct SchedulingFlags {
    pub seekable: bool,
    pub sequential: bool,
    pub bandwidth_limited: bool,
}

} // verus!
