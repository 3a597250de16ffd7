//! Filter stage construction.
//!
//! Each lane runs a two-node filter graph: a source buffer configured with
//! the decoder's parameters, and a sink buffer configured with the
//! encoder's target format, connected by a pan expression that selects the
//! lane's channel as mono.  This module builds the textual source
//! arguments and the pan expression, and decides whether the sink must pin
//! its frame size to the encoder's fixed frame length.

use vstd::prelude::*;
use vstd::string::StringExecFns;
use crate::encode::{DecoderInfo, EncoderSettings};
use crate::frames::Lane;

verus! {

/// The decimal digit character for `d` in `0 ..= 9`.
pub open spec fn dec_digit(d: int) -> char {
    if d == 0 { '0' }
    else if d == 1 { '1' }
    else if d == 2 { '2' }
    else if d == 3 { '3' }
    else if d == 4 { '4' }
    else if d == 5 { '5' }
    else if d == 6 { '6' }
    else if d == 7 { '7' }
    else if d == 8 { '8' }
    else { '9' }
}

/// The lower-case hexadecimal digit character for `d` in `0 ..= 15`.
pub open spec fn hex_digit(d: int) -> char {
    if d < 10 { dec_digit(d) }
    else if d == 10 { 'a' }
    else if d == 11 { 'b' }
    else if d == 12 { 'c' }
    else if d == 13 { 'd' }
    else if d == 14 { 'e' }
    else { 'f' }
}

/// Decimal rendering of a non-negative number, most significant digit
/// first, without leading zeros.
pub open spec fn dec_chars(n: int) -> Seq<char>
    recommends
        n >= 0,
    decreases n,
{
    if n < 10 {
        seq![dec_digit(n)]
    } else {
        dec_chars(n / 10).push(dec_digit(n % 10))
    }
}

/// Lower-case hexadecimal rendering of a non-negative number, most
/// significant digit first, without leading zeros.
pub open spec fn hex_chars(n: int) -> Seq<char>
    recommends
        n >= 0,
    decreases n,
{
    if n < 16 {
        seq![hex_digit(n)]
    } else {
        hex_chars(n / 16).push(hex_digit(n % 16))
    }
}

fn dec_digit_str(d: u64) -> (r: &'static str)
    requires
        d < 10,
    ensures
        r@ == seq![dec_digit(d as int)],
{
    proof {
        reveal_strlit("0");
        reveal_strlit("1");
        reveal_strlit("2");
        reveal_strlit("3");
        reveal_strlit("4");
        reveal_strlit("5");
        reveal_strlit("6");
        reveal_strlit("7");
        reveal_strlit("8");
        reveal_strlit("9");
    }
    if d == 0 { "0" }
    else if d == 1 { "1" }
    else if d == 2 { "2" }
    else if d == 3 { "3" }
    else if d == 4 { "4" }
    else if d == 5 { "5" }
    else if d == 6 { "6" }
    else if d == 7 { "7" }
    else if d == 8 { "8" }
    else { "9" }
}

fn hex_digit_str(d: u64) -> (r: &'static str)
    requires
        d < 16,
    ensures
        r@ == seq![hex_digit(d as int)],
{
    proof {
        reveal_strlit("a");
        reveal_strlit("b");
        reveal_strlit("c");
        reveal_strlit("d");
        reveal_strlit("e");
        reveal_strlit("f");
    }
    if d < 10 { dec_digit_str(d) }
    else if d == 10 { "a" }
    else if d == 11 { "b" }
    else if d == 12 { "c" }
    else if d == 13 { "d" }
    else if d == 14 { "e" }
    else { "f" }
}

/// Renders `n` in decimal.
pub fn u64_to_dec(n: u64) -> (r: String)
    ensures
        r@ == dec_chars(n as int),
    decreases n,
{
    if n < 10 {
        String::from_str(dec_digit_str(n))
    } else {
        let mut s = u64_to_dec(n / 10);
        s.append(dec_digit_str(n % 10));
        proof {
            assert(s@ =~= dec_chars(n as int));
        }
        s
    }
}

/// Renders `n` in lower-case hexadecimal.
pub fn u64_to_hex(n: u64) -> (r: String)
    ensures
        r@ == hex_chars(n as int),
    decreases n,
{
    if n < 16 {
        String::from_str(hex_digit_str(n))
    } else {
        let mut s = u64_to_hex(n / 16);
        s.append(hex_digit_str(n % 16));
        proof {
            assert(s@ =~= hex_chars(n as int));
        }
        s
    }
}

/// The text of the source-node arguments for a decoder: its time base,
/// sample rate, sample format name and channel layout, in the form the
/// filter graph's buffer source expects.
pub open spec fn source_args_spec(dec: DecoderInfo, sample_fmt_name: Seq<char>) -> Seq<char> {
    "time_base="@ + dec_chars(dec.time_base.num as int) + "/"@ + dec_chars(dec.time_base.den as int)
        + ":sample_rate="@ + dec_chars(dec.rate as int) + ":sample_fmt="@ + sample_fmt_name
        + ":channel_layout=0x"@ + hex_chars(dec.channel_layout_bits as int)
}

/// Builds the source-node argument string from the decoder's parameters.
/// `sample_fmt_name` is the name the codec library gives the decoder's
/// sample format.
pub fn source_args(dec: &DecoderInfo, sample_fmt_name: &str) -> (r: String)
    requires
        dec.time_base.valid(),
    ensures
        r@ == source_args_spec(*dec, sample_fmt_name@),
{
    let mut s = String::from_str("time_base=");
    let num = u64_to_dec(dec.time_base.num as u64);
    s.append(num.as_str());
    s.append("/");
    let den = u64_to_dec(dec.time_base.den as u64);
    s.append(den.as_str());
    s.append(":sample_rate=");
    let rate = u64_to_dec(dec.rate as u64);
    s.append(rate.as_str());
    s.append(":sample_fmt=");
    s.append(sample_fmt_name);
    s.append(":channel_layout=0x");
    let layout = u64_to_hex(dec.channel_layout_bits);
    s.append(layout.as_str());
    proof {
        assert(s@ =~= source_args_spec(*dec, sample_fmt_name@));
    }
    s
}

/// The pan expression of a lane: select its channel of the source as a
/// mono output (front-left for the left lane, front-right for the right).
pub fn pan_filter_spec(lane: Lane) -> (r: &'static str)
    ensures
        lane is Left ==> r@ == "pan=mono|c0=FL"@,
        lane is Right ==> r@ == "pan=mono|c0=FR"@,
{
    match lane {
        Lane::Left => "pan=mono|c0=FL",
        Lane::Right => "pan=mono|c0=FR",
    }
}

/// What the sink node of a lane's filter graph is configured with: the
/// encoder's target sample format, channel layout and sample rate.
#[derive(Debug, Clone, Copy, PartialEq, Eq, Structural)]
pub struct SinkConfig {
    pub sample_format: i32,
    pub channel_layout_bits: u64,
    pub sample_rate: u32,
}

/// Derives the sink-node configuration from the encoder settings, so the
/// graph reshapes every frame to what the encoder accepts.
pub fn sink_config(enc: &EncoderSettings) -> (r: SinkConfig)
    ensures
        r.sample_format == enc.sample_format,
        r.channel_layout_bits == enc.channel_layout_bits,
        r.sample_rate == enc.rate,
{
    SinkConfig {
        sample_format: enc.sample_format,
        channel_layout_bits: enc.channel_layout_bits,
        sample_rate: enc.rate,
    }
}

/// Whether the sink must pin its output frames to the encoder's fixed
/// frame size: only codecs that accept variable-length buffers may be fed
/// unchunked frames.
pub fn pinned_frame_size(supports_variable_frame_size: bool, encoder_frame_size: u32) -> (r: Option<
    u32>)
    ensures
        supports_variable_frame_size ==> r is None,
        !supports_variable_frame_size ==> r == Some(encoder_frame_size),
{
    if supports_variable_frame_size {
        None
    } else {
        Some(encoder_frame_size)
    }
}

} // verus!
