//! Pre-flight input inspection.
//!
//! Before any pipeline is built, the input container's streams are checked
//! for a decodable audio stream; a file without one is rejected and the
//! split operation is never started.  This module also fixes the names of
//! the two output files and the registered sample count, which is the
//! container's reported duration multiplied by the decoder's sample rate
//! (an approximation, not a decoded-sample tally).

use vstd::prelude::*;
use vstd::string::StringExecFns;
use crate::errors::SplitError;

verus! {

/// The coarse kind of a container stream.
#[derive(Debug, Clone, Copy, PartialEq, Eq, Structural)]
pub enum MediaKind {
    Audio,
    Video,
    Subtitle,
    Other,
}

/// What the demultiplexer reports about one container stream.
#[derive(Debug, Clone, Copy, PartialEq, Eq, Structural)]
pub struct StreamDesc {
    /// Index of the stream inside the container.
    pub index: usize,
    /// Kind of payload the stream carries.
    pub kind: MediaKind,
}

pub open spec fn has_audio(streams: Seq<StreamDesc>) -> bool {
    exists|i: int| 0 <= i < streams.len() && (#[trigger] streams[i]).kind is Audio
}

/// Validation entry point: accepts the input exactly when it contains an
/// audio stream, and rejects it with `NoAudioStream` otherwise.  Runs
/// without touching the decode/encode pipeline.
pub fn validate_streams(streams: &Vec<StreamDesc>) -> (r: Result<(), SplitError>)
    ensures
        r is Ok <==> has_audio(streams@),
        r is Err ==> r == Err::<(), SplitError>(SplitError::NoAudioStream),
{
    let n: usize = streams.len();
    let mut i: usize = 0;
    while i < n
        invariant
            i <= n,
            n == streams@.len(),
            forall|j: int| 0 <= j < i as int ==> !((#[trigger] streams@[j]).kind is Audio),
        decreases n - i,
    {
        if matches!(streams[i].kind, MediaKind::Audio) {
            return Ok(());
        }
        i = i + 1;
    }
    Err(SplitError::NoAudioStream)
}

/// Position of the first audio stream of the container, if any.
pub fn first_audio_stream(streams: &Vec<StreamDesc>) -> (r: Option<usize>)
    ensures
        match r {
            Some(i) => i < streams@.len() && streams@[i as int].kind is Audio && forall|j: int|
                0 <= j < i as int ==> !((#[trigger] streams@[j]).kind is Audio),
            None => !has_audio(streams@),
        },
{
    let n: usize = streams.len();
    let mut i: usize = 0;
    while i < n
        invariant
            i <= n,
            n == streams@.len(),
            forall|j: int| 0 <= j < i as int ==> !((#[trigger] streams@[j]).kind is Audio),
        decreases n - i,
    {
        if matches!(streams[i].kind, MediaKind::Audio) {
            return Some(i);
        }
        i = i + 1;
    }
    None
}

/// The sample count registered for an imported entry: the container's
/// reported duration multiplied by the decoder's sample rate, with
/// wrapping multiplication.
pub fn sample_count(duration: i64, sample_rate: u32) -> (r: i64)
    ensures
        r == duration.wrapping_mul(sample_rate as i64),
{
    duration.wrapping_mul(sample_rate as i64)
}

/// Name of the left lane's output file for an input with base name `stem`.
pub fn left_output_name(stem: &str) -> (r: String)
    ensures
        r@ == stem@ + "-left.wav"@,
{
    String::from_str(stem).concat("-left.wav")
}

/// Name of the right lane's output file for an input with base name `stem`.
pub fn right_output_name(stem: &str) -> (r: String)
    ensures
        r@ == stem@ + "-right.wav"@,
{
    String::from_str(stem).concat("-right.wav")
}

} // verus!
