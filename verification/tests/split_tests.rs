use audioforge::driver::{advance, run_split, ChannelPipeline, DriverEvent, DriverPhase, InputPacket};
use audioforge::timebase::TimeBase;
use audioforge::frames::{chunk_samples, filter_frame, AudioFrame, Lane};
use audioforge::probe::{first_audio_stream, validate_streams, MediaKind, StreamDesc};
use audioforge::errors::SplitError;

fn stereo_frame(pairs: usize, left: i16, right: i16, pts: i64) -> AudioFrame {
    let mut samples: Vec<i16> = Vec::new();
    for _ in 0..pairs {
        samples.push(left);
        samples.push(right);
    }
    AudioFrame { channels: 2, samples, pts }
}

#[test]
fn filter_frame_extracts_lane_channel() {
    let frame = AudioFrame { channels: 2, samples: vec![1, 2, 3, 4, 5, 6], pts: 77 };
    let left = filter_frame(&frame, Lane::Left);
    assert_eq!(left.channels, 1);
    assert_eq!(left.pts, 77);
    assert_eq!(left.samples, vec![1, 3, 5]);
    let right = filter_frame(&frame, Lane::Right);
    assert_eq!(right.samples, vec![2, 4, 6]);
    assert_eq!(right.pts, 77);
}

#[test]
fn channel_correctness_constant_stereo() {
    // Left channel holds a constant, right channel another: each output
    // decodes to its own constant across the whole stream.
    let packets = vec![
        InputPacket { stream_index: 0, pts: 0, frames: vec![stereo_frame(100, 5, 9, 0)] },
        InputPacket { stream_index: 0, pts: 100, frames: vec![stereo_frame(50, 5, 9, 100)] },
    ];
    let out = run_split(&packets, 0);
    assert_eq!(out.left.len(), 150);
    assert_eq!(out.right.len(), 150);
    assert!(out.left.iter().all(|&s| s == 5));
    assert!(out.right.iter().all(|&s| s == 9));
}

#[test]
fn mono_passthrough_yields_original_on_both_lanes() {
    let signal: Vec<i16> = (0..200).map(|i| (i % 37) as i16).collect();
    let packets = vec![InputPacket {
        stream_index: 0,
        pts: 0,
        frames: vec![AudioFrame { channels: 1, samples: signal.clone(), pts: 0 }],
    }];
    let out = run_split(&packets, 0);
    assert_eq!(out.left, signal);
    assert_eq!(out.right, signal);
}

#[test]
fn duration_invariant_lane_lengths_match_input() {
    let packets = vec![
        InputPacket { stream_index: 0, pts: 0, frames: vec![stereo_frame(64, 1, 2, 0)] },
        InputPacket {
            stream_index: 0,
            pts: 64,
            frames: vec![stereo_frame(64, 3, 4, 64), stereo_frame(32, 5, 6, 128)],
        },
    ];
    let out = run_split(&packets, 0);
    assert_eq!(out.left.len(), 160);
    assert_eq!(out.right.len(), 160);
}

#[test]
fn split_is_deterministic_across_runs() {
    let make = || {
        vec![
            InputPacket { stream_index: 0, pts: 0, frames: vec![stereo_frame(33, 7, -7, 0)] },
            InputPacket { stream_index: 0, pts: 33, frames: vec![stereo_frame(12, -3, 3, 33)] },
        ]
    };
    let first = run_split(&make(), 0);
    let second = run_split(&make(), 0);
    assert_eq!(first.left, second.left);
    assert_eq!(first.right, second.right);
}

#[test]
fn packets_of_other_streams_are_ignored() {
    let packets = vec![
        InputPacket { stream_index: 1, pts: 0, frames: vec![stereo_frame(10, 1, 2, 0)] },
        InputPacket { stream_index: 0, pts: 0, frames: vec![stereo_frame(5, 3, 4, 0)] },
        InputPacket { stream_index: 2, pts: 0, frames: vec![stereo_frame(8, 5, 6, 0)] },
    ];
    let out = run_split(&packets, 0);
    assert_eq!(out.left.len(), 5);
    assert!(out.left.iter().all(|&s| s == 3));
    assert!(out.right.iter().all(|&s| s == 4));
}

#[test]
fn concrete_two_second_stereo_scenario() {
    // 2 channels, 44100 Hz, 2.000 s: 88,200 sample groups per channel,
    // delivered in decoder-sized frames of 1024 groups.
    let mut packets: Vec<InputPacket> = Vec::new();
    let mut remaining: usize = 88_200;
    let mut pts: i64 = 0;
    while remaining > 0 {
        let n = remaining.min(1024);
        packets.push(InputPacket {
            stream_index: 0,
            pts,
            frames: vec![stereo_frame(n, 11, -11, pts)],
        });
        pts += n as i64;
        remaining -= n;
    }
    let out = run_split(&packets, 0);
    assert_eq!(out.left.len(), 88_200);
    assert_eq!(out.right.len(), 88_200);
    assert!(out.left.iter().all(|&s| s == 11));
    assert!(out.right.iter().all(|&s| s == -11));
}

#[test]
fn chunking_preserves_every_sample() {
    let samples: Vec<i16> = (0..2500).map(|i| i as i16).collect();
    let chunks = chunk_samples(&samples, 1024);
    assert_eq!(chunks.len(), 3);
    assert_eq!(chunks[0].len(), 1024);
    assert_eq!(chunks[1].len(), 1024);
    assert_eq!(chunks[2].len(), 452);
    let rejoined: Vec<i16> = chunks.into_iter().flatten().collect();
    assert_eq!(rejoined, samples);
}

#[test]
fn chunking_exact_multiple_has_no_partial_frame() {
    let samples: Vec<i16> = vec![4; 2048];
    let chunks = chunk_samples(&samples, 1024);
    assert_eq!(chunks.len(), 2);
    assert!(chunks.iter().all(|c| c.len() == 1024));
}

#[test]
fn validation_rejects_video_only_file() {
    let streams = vec![StreamDesc { index: 0, kind: MediaKind::Video }];
    assert_eq!(validate_streams(&streams), Err(SplitError::NoAudioStream));
    assert_eq!(first_audio_stream(&streams), None);
}

#[test]
fn validation_accepts_file_with_audio() {
    let streams = vec![
        StreamDesc { index: 0, kind: MediaKind::Video },
        StreamDesc { index: 1, kind: MediaKind::Audio },
        StreamDesc { index: 2, kind: MediaKind::Audio },
    ];
    assert_eq!(validate_streams(&streams), Ok(()));
    assert_eq!(first_audio_stream(&streams), Some(1));
}

#[test]
fn driver_phases_advance_in_order() {
    let p = DriverPhase::Building;
    let p = advance(p, DriverEvent::PipelinesBuilt);
    assert_eq!(p, DriverPhase::Running);
    let p = advance(p, DriverEvent::InputExhausted);
    assert_eq!(p, DriverPhase::Draining);
    let p = advance(p, DriverEvent::Flushed);
    assert_eq!(p, DriverPhase::Finalized);
    // terminal: further events change nothing
    assert_eq!(advance(p, DriverEvent::Failure), DriverPhase::Finalized);
}

#[test]
fn driver_failure_is_absorbing() {
    let p = advance(DriverPhase::Running, DriverEvent::Failure);
    assert_eq!(p, DriverPhase::Failed);
    assert_eq!(advance(p, DriverEvent::Flushed), DriverPhase::Failed);
    assert_eq!(advance(DriverPhase::Building, DriverEvent::Failure), DriverPhase::Failed);
    assert_eq!(advance(DriverPhase::Draining, DriverEvent::Failure), DriverPhase::Failed);
}

#[test]
fn mono_right_lane_falls_back_to_the_only_channel() {
    let frame = AudioFrame { channels: 1, samples: vec![10, 20, 30], pts: 0 };
    let right = filter_frame(&frame, Lane::Right);
    assert_eq!(right.samples, vec![10, 20, 30]);
}

#[test]
fn pipeline_routes_and_rescales() {
    let lane = ChannelPipeline {
        stream_index: 3,
        lane: Lane::Left,
        in_time_base: TimeBase::new(1, 44100),
        out_time_base: TimeBase::new(1, 44100),
    };
    assert!(lane.wants_packet(3));
    assert!(!lane.wants_packet(0));
    // container stream counts in milliseconds, the decoder in samples
    assert_eq!(lane.rescale_into_decoder(500, TimeBase::new(1, 1000)), 22050);
    assert_eq!(lane.rescale_into_output(22050), 22050);
}

#[test]
fn driver_out_of_order_events_leave_phase() {
    assert_eq!(advance(DriverPhase::Building, DriverEvent::Flushed), DriverPhase::Building);
    assert_eq!(advance(DriverPhase::Running, DriverEvent::PipelinesBuilt), DriverPhase::Running);
}
