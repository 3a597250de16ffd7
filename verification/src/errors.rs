//! Error taxonomy of the split pipeline.

use vstd::prelude::*;

verus! {

/// Everything that can go wrong while validating an input, building a
/// channel pipeline, or running a split operation.
#[derive(Debug, Clone, Copy, PartialEq, Eq, Structural)]
pub enum SplitError {
    /// The input container holds no audio stream (pre-flight check).
    NoAudioStream,
    /// No decoder is available for the input stream's codec.
    UnsupportedCodec,
    /// The filter graph failed validation at construction time.
    FilterGraphInvalid,
    /// A decoder reported a fatal error while the pipeline was running.
    DecodeFailure,
    /// An encoder reported a fatal error while the pipeline was running.
    EncodeFailure,
    /// A source or output path does not lie inside the project directory.
    PathNotUnderProject,
}

impl SplitError {
    /// A short human-readable description of the error.
    pub fn describe(&self) -> (r: &'static str)
        ensures
            r@ == match self {
                SplitError::NoAudioStream => "file does not contain an audio stream"@,
                SplitError::UnsupportedCodec => "no decoder is available for this codec"@,
                SplitError::FilterGraphInvalid => "the channel filter graph is invalid"@,
                SplitError::DecodeFailure => "decoding failed"@,
                SplitError::EncodeFailure => "encoding failed"@,
                SplitError::PathNotUnderProject => "path is not inside the project directory"@,
            },
    {
        match self {
            SplitError::NoAudioStream => "file does not contain an audio stream",
            SplitError::UnsupportedCodec => "no decoder is available for this codec",
            SplitError::FilterGraphInvalid => "the channel filter graph is invalid",
            SplitError::DecodeFailure => "decoding failed",
            SplitError::EncodeFailure => "encoding failed",
            SplitError::PathNotUnderProject => "path is not inside the project directory",
        }
    }
}

} // verus!
