use audioforge::encode::{encoder_settings, DecoderInfo, OutputCodec, MONO_LAYOUT_BITS};
use audioforge::errors::SplitError;
use audioforge::filtercfg::{
    pan_filter_spec, pinned_frame_size, sink_config, source_args, u64_to_dec, u64_to_hex,
};
use audioforge::frames::Lane;
use audioforge::probe::{left_output_name, right_output_name, sample_count};
use audioforge::timebase::TimeBase;

fn decoder() -> DecoderInfo {
    DecoderInfo {
        rate: 44100,
        bit_rate: 256_000,
        max_bit_rate: 320_000,
        time_base: TimeBase::new(1, 44100),
        sample_format: 8,
        channel_layout_bits: 0x3,
    }
}

#[test]
fn encoder_settings_mirror_decoder() {
    let enc = encoder_settings(&decoder(), 1, true);
    assert_eq!(enc.codec, OutputCodec::PcmS16Le);
    assert_eq!(enc.rate, 44100);
    assert_eq!(enc.channels, 1);
    assert_eq!(enc.channel_layout_bits, MONO_LAYOUT_BITS);
    assert_eq!(enc.sample_format, 1);
    assert_eq!(enc.bit_rate, 256_000);
    assert_eq!(enc.max_bit_rate, 320_000);
    assert_eq!(enc.time_base, TimeBase::new(1, 44100));
    assert!(enc.global_header);
    let enc2 = encoder_settings(&decoder(), 1, false);
    assert!(!enc2.global_header);
}

#[test]
fn number_rendering() {
    assert_eq!(u64_to_dec(0), "0");
    assert_eq!(u64_to_dec(7), "7");
    assert_eq!(u64_to_dec(44100), "44100");
    assert_eq!(u64_to_dec(u64::MAX), "18446744073709551615");
    assert_eq!(u64_to_hex(0), "0");
    assert_eq!(u64_to_hex(0x3), "3");
    assert_eq!(u64_to_hex(0x3f), "3f");
    assert_eq!(u64_to_hex(0xdead_beef), "deadbeef");
}

#[test]
fn source_args_text() {
    let args = source_args(&decoder(), "fltp");
    assert_eq!(
        args,
        "time_base=1/44100:sample_rate=44100:sample_fmt=fltp:channel_layout=0x3"
    );
}

#[test]
fn pan_expressions_select_one_channel_each() {
    assert_eq!(pan_filter_spec(Lane::Left), "pan=mono|c0=FL");
    assert_eq!(pan_filter_spec(Lane::Right), "pan=mono|c0=FR");
}

#[test]
fn sink_mirrors_encoder_target() {
    let enc = encoder_settings(&decoder(), 6, false);
    let sink = sink_config(&enc);
    assert_eq!(sink.sample_format, 6);
    assert_eq!(sink.channel_layout_bits, MONO_LAYOUT_BITS);
    assert_eq!(sink.sample_rate, 44100);
}

#[test]
fn frame_size_pinned_only_for_fixed_frame_codecs() {
    assert_eq!(pinned_frame_size(true, 1024), None);
    assert_eq!(pinned_frame_size(false, 1024), Some(1024));
}

#[test]
fn output_names_use_base_name_and_lane_suffix() {
    assert_eq!(left_output_name("song"), "song-left.wav");
    assert_eq!(right_output_name("song"), "song-right.wav");
    assert_eq!(left_output_name(""), "-left.wav");
}

#[test]
fn sample_count_is_wrapping_product() {
    assert_eq!(sample_count(2, 44100), 88_200);
    assert_eq!(sample_count(-1, 2), -2);
    assert_eq!(sample_count(i64::MAX, 2), i64::MAX.wrapping_mul(2));
}

#[test]
fn error_descriptions() {
    assert_eq!(
        SplitError::NoAudioStream.describe(),
        "file does not contain an audio stream"
    );
    assert_eq!(
        SplitError::UnsupportedCodec.describe(),
        "no decoder is available for this codec"
    );
    assert_eq!(
        SplitError::FilterGraphInvalid.describe(),
        "the channel filter graph is invalid"
    );
    assert_eq!(SplitError::DecodeFailure.describe(), "decoding failed");
    assert_eq!(SplitError::EncodeFailure.describe(), "encoding failed");
    assert_eq!(
        SplitError::PathNotUnderProject.describe(),
        "path is not inside the project directory"
    );
}
