//! The failure taxonomy of thumbnail extraction.
//!
//! Every failure carries a category and a human-readable message; callers
//! map it to a non-zero exit and print the message. Failures of a single
//! candidate frame (a failed seek, an unreadable buffer) are recovered
//! locally and never surface here unless no usable candidate remains.

use vstd::prelude::*;

verus! {

/// The categories of request failure.
#[derive(Clone, Copy, Debug, PartialEq, Eq, Structural)]
pub enum ErrorKind {
    /// The media source could not be opened or initialized.
    SourceUnavailable,
    /// The source is live or otherwise cannot preroll; thumbnails of such
    /// streams are rejected.
    LiveStreamUnsupported,
    /// The requested stream kind does not match what the source offers.
    WrongStreamType,
    /// No embedded cover image was found in the source's tags.
    NoCoverFound,
    /// No candidate frame could be extracted and scored.
    ExtractionFailed,
    /// Serializing the thumbnail image failed.
    EncodeFailed,
    /// Writing the output failed.
    IoError,
}

/// A typed failure with a human-readable message.
#[derive(Debug)]
pub struct Error {
    pub kind: ErrorKind,
    pub message: String,
}

impl Error {
    /// Builds an error of the given category.
    pub fn new(kind: ErrorKind, message: String) -> (r: Error)
        ensures
            r.kind == kind,
            r.message@ == message@,
    {
        Error { kind, message }
    }

    /// The category of this failure.
    pub fn kind(&self) -> (r: ErrorKind)
        ensures
            r == self.kind,
    {
        self.kind
    }

    /// The human-readable message of this failure.
    pub fn message(&self) -> (r: &str)
        ensures
            r@ == self.message@,
    {
        self.message.as_str()
    }
}

} // verus!
