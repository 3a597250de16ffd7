//! Encode unit configuration.
//!
//! Each lane owns one mono encoder and one output muxer.  The encoder is
//! fixed to 16-bit linear PCM, takes its sample rate and bit rates from
//! the source decoder, uses one tick per sample as its time base, and
//! carries the muxer's global-header requirement if the output format
//! demands it.

use vstd::prelude::*;
use crate::timebase::TimeBase;

verus! {

/// The channel layout bit of a mono (front-centre) signal.
pub const MONO_LAYOUT_BITS: u64 = 0x4;

/// The one output codec the pipeline writes: 16-bit little-endian PCM.
#[derive(Debug, Clone, Copy, PartialEq, Eq, Structural)]
pub enum OutputCodec {
    PcmS16Le,
}

/// What the source decoder reports about the selected audio stream.
#[derive(Debug, Clone, Copy, PartialEq, Eq, Structural)]
pub struct DecoderInfo {
    /// Sample rate in Hz.
    pub rate: u32,
    /// Bit rate of the source stream.
    pub bit_rate: usize,
    /// Maximum bit rate of the source stream.
    pub max_bit_rate: usize,
    /// The decoder's time base.
    pub time_base: TimeBase,
    /// Opaque identifier of the decoder's sample format.
    pub sample_format: i32,
    /// Channel layout bit set of the decoded frames.
    pub channel_layout_bits: u64,
}

/// The settings one lane's encoder and output stream are opened with.
#[derive(Debug, Clone, Copy, PartialEq, Eq, Structural)]
pub struct EncoderSettings {
    /// Output codec; always 16-bit PCM.
    pub codec: OutputCodec,
    /// Sample rate in Hz, equal to the source decoder's rate.
    pub rate: u32,
    /// Number of channels; one, this is a mono lane.
    pub channels: i32,
    /// Channel layout bit set; mono.
    pub channel_layout_bits: u64,
    /// Opaque identifier of the sample format the codec accepts.
    pub sample_format: i32,
    /// Bit rate, copied from the source decoder.
    pub bit_rate: usize,
    /// Maximum bit rate, copied from the source decoder.
    pub max_bit_rate: usize,
    /// Encoder and output stream time base: one tick per sample.
    pub time_base: TimeBase,
    /// Whether the encoder must emit a global header, as demanded by the
    /// output container format.
    pub global_header: bool,
}

/// Builds the settings of one lane's mono encoder from the source
/// decoder's parameters.  `pcm_sample_format` is the first sample format
/// the PCM codec declares support for, and `needs_global_header` is the
/// output format's global-header flag.
pub fn encoder_settings(dec: &DecoderInfo, pcm_sample_format: i32, needs_global_header: bool) -> (
    r: EncoderSettings)
    requires
        1 <= dec.rate <= 0x7fff_ffff,
    ensures
        r.codec == OutputCodec::PcmS16Le,
        r.rate == dec.rate,
        r.channels == 1,
        r.channel_layout_bits == MONO_LAYOUT_BITS,
        r.sample_format == pcm_sample_format,
        r.bit_rate == dec.bit_rate,
        r.max_bit_rate == dec.max_bit_rate,
        r.time_base.num == 1,
        r.time_base.den == dec.rate,
        r.time_base.valid(),
        r.global_header == needs_global_header,
{
    let rate_ticks: i32 = dec.rate as i32;
    EncoderSettings {
        codec: OutputCodec::PcmS16Le,
        rate: dec.rate,
        channels: 1,
        channel_layout_bits: MONO_LAYOUT_BITS,
        sample_format: pcm_sample_format,
        bit_rate: dec.bit_rate,
        max_bit_rate: dec.max_bit_rate,
        time_base: TimeBase::per_sample(rate_ticks),
        global_header: needs_global_header,
    }
}

} // verus!
