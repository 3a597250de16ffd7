use audioforge::errors::SplitError;
use audioforge::frames::{AudioFrame, Lane};
use audioforge::timebase::TimeBase;
use audioforge::units::{DecodeUnit, EncodeUnit, FilterStage};

fn frame(channels: usize, samples: Vec<i16>, pts: i64) -> AudioFrame {
    AudioFrame { channels, samples, pts }
}

#[test]
fn decode_unit_without_decoder_is_rejected() {
    match DecodeUnit::configure(false) {
        Err(e) => assert_eq!(e, SplitError::UnsupportedCodec),
        Ok(_) => panic!("a missing decoder must reject configuration"),
    }
}

#[test]
fn decode_unit_buffers_and_drains_in_order() {
    let mut unit = DecodeUnit::configure(true).unwrap();
    unit.submit(vec![frame(1, vec![1], 0), frame(1, vec![2], 1)]);
    unit.submit(vec![frame(1, vec![3], 2)]);
    let drained = unit.drain();
    assert_eq!(drained.len(), 3);
    assert_eq!(drained[0].samples, vec![1]);
    assert_eq!(drained[2].samples, vec![3]);
    // drain is restartable: the unit is empty until more is submitted
    assert!(unit.drain().is_empty());
    unit.submit(vec![frame(1, vec![4], 3)]);
    unit.signal_end();
    let rest = unit.drain();
    assert_eq!(rest.len(), 1);
    assert_eq!(rest[0].samples, vec![4]);
}

#[test]
fn filter_stage_extracts_chunks_and_flushes() {
    let mut stage = FilterStage::new(Lane::Left);
    // two stereo frames, 3 sample pairs each: 6 left samples buffered
    stage.push(&frame(2, vec![1, -1, 2, -2, 3, -3], 0));
    stage.push(&frame(2, vec![4, -4, 5, -5, 6, -6], 3));
    let chunks = stage.pull(4);
    assert_eq!(chunks, vec![vec![1, 2, 3, 4]]);
    // the remainder waits for more input or a flush
    assert!(stage.pull(4).is_empty());
    stage.flush();
    assert_eq!(stage.drain_rest(), vec![5, 6]);
    assert!(stage.drain_rest().is_empty());
}

#[test]
fn filter_stage_right_lane() {
    let mut stage = FilterStage::new(Lane::Right);
    stage.push(&frame(2, vec![1, -1, 2, -2], 0));
    stage.flush();
    assert_eq!(stage.drain_rest(), vec![-1, -2]);
}

#[test]
fn encode_unit_rescales_and_assigns_stream_zero() {
    // encoder counts samples at 44100 Hz, the output stream in milliseconds
    let mut unit = EncodeUnit::new(TimeBase::new(1, 44100), TimeBase::new(1, 1000));
    unit.submit(frame(1, vec![7, 8], 0));
    unit.submit(frame(1, vec![9], 44100));
    unit.signal_end();
    let packets = unit.drain().unwrap();
    assert_eq!(packets.len(), 2);
    assert_eq!(packets[0].stream_index, 0);
    assert_eq!(packets[0].pts, 0);
    assert_eq!(packets[0].samples, vec![7, 8]);
    assert_eq!(packets[1].stream_index, 0);
    assert_eq!(packets[1].pts, 1000);
    assert_eq!(packets[1].samples, vec![9]);
    assert!(unit.drain().unwrap().is_empty());
}

#[test]
fn encode_unit_fails_on_unrepresentable_timestamp() {
    let mut unit = EncodeUnit::new(TimeBase::new(2_000_000_000, 1), TimeBase::new(1, 2_000_000_000));
    unit.submit(frame(1, vec![1], i64::MAX));
    assert_eq!(unit.drain(), Err(SplitError::EncodeFailure));
}

#[test]
fn encode_unit_succeeds_whenever_timestamps_fit() {
    // the same extreme time bases, but a timestamp of zero stays zero:
    // draining is owed and must not fail
    let mut unit = EncodeUnit::new(TimeBase::new(2_000_000_000, 1), TimeBase::new(1, 2_000_000_000));
    unit.submit(frame(1, vec![5], 0));
    let packets = unit.drain().unwrap();
    assert_eq!(packets.len(), 1);
    assert_eq!(packets[0].pts, 0);
}
