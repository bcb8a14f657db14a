//! The error taxonomy: stream-level failures named after the failing
//! operation, and a composite codec-level error that wraps them.

use vstd::prelude::*;

verus! {

/// A failure reported by a backing store. Each variant names the stream
/// operation that failed; no further detail is carried and nothing is
/// retried internally.
#[derive(Clone, Copy, Debug, PartialEq, Eq, Structural)]
pub enum StreamError {
    /// Constructing the backing store itself failed.
    OpenError,
    /// A write against the medium failed.
    WriteError,
    /// A read could not deliver the requested bytes.
    ReadError,
    /// A seek target was outside the medium's valid range.
    SeekError,
    /// The current position could not be reported.
    TellError,
}

/// A failure reported by `BinaryReader`/`BinaryWriter`: either a stream
/// failure, a value that could not be decoded from its fixed-width byte
/// run, or a byte run that is not valid UTF-8.
#[derive(Clone, Copy, Debug, PartialEq, Eq, Structural)]
pub enum BinaryError {
    /// The underlying stream operation failed.
    StreamError(StreamError),
    /// The bytes read do not decode to a value of the requested type.
    CodecError,
    /// The bytes read are not a valid UTF-8 encoding.
    Utf8Error,
}

impl StreamError {
    /// A short description of the failure, naming the failing operation,
    /// in place of a `Display` implementation.
    pub fn message(&self) -> (r: &'static str)
        ensures
            r@ == match self {
                StreamError::OpenError => "stream error trying to open"@,
                StreamError::WriteError => "stream error trying to write"@,
                StreamError::ReadError => "stream error trying to read"@,
                StreamError::SeekError => "stream error trying to seek"@,
                StreamError::TellError => "stream error trying to tell"@,
            },
    {
        match self {
            StreamError::OpenError => "stream error trying to open",
            StreamError::WriteError => "stream error trying to write",
            StreamError::ReadError => "stream error trying to read",
            StreamError::SeekError => "stream error trying to seek",
            StreamError::TellError => "stream error trying to tell",
        }
    }
}

impl BinaryError {
    /// A short description of the failure, in place of a `Display`
    /// implementation.
    pub fn message(&self) -> (r: &'static str)
        ensures
            r@ == match self {
                BinaryError::StreamError(_) => "stream error"@,
                BinaryError::CodecError => "value does not decode from its fixed-width bytes"@,
                BinaryError::Utf8Error => "bytes are not valid UTF-8"@,
            },
    {
        match self {
            BinaryError::StreamError(_) => "stream error",
            BinaryError::CodecError => "value does not decode from its fixed-width bytes",
            BinaryError::Utf8Error => "bytes are not valid UTF-8",
        }
    }

    /// The stream-level failure this error wraps, if it is one.
    pub fn stream_cause(&self) -> (r: Option<StreamError>)
        ensures
            r == match self {
                BinaryError::StreamError(e) => Some(*e),
                BinaryError::CodecError => None::<StreamError>,
                BinaryError::Utf8Error => None::<StreamError>,
            },
    {
        match self {
            BinaryError::StreamError(e) => Some(*e),
            BinaryError::CodecError => None,
            BinaryError::Utf8Error => None,
        }
    }
}

impl From<StreamError> for BinaryError {
    /// Wraps a stream-level failure, as every reader and writer operation
    /// does when the underlying stream fails.
    fn from(error: StreamError) -> (r: BinaryError) {
        BinaryError::StreamError(error)
    }
}

impl vstd::std_specs::convert::FromSpecImpl<StreamError> for BinaryError {
    open spec fn obeys_from_spec() -> bool {
        true
    }

    open spec fn from_spec(error: StreamError) -> BinaryError {
        BinaryError::StreamError(error)
    }
}

} // verus!
