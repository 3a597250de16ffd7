//! The pipeline driver.
//!
//! A split operation owns two channel pipelines (one per lane), reads the
//! input packet sequence once, fans each packet of the selected stream to
//! every lane, and finally drains all lanes in a fixed order.  The driver
//! moves through the phases building, running, draining and finalized, or
//! falls into failed from any live phase.

use vstd::prelude::*;
use crate::frames::{AudioFrame, Lane, extract_spec, lane_channel, filter_frame};
use crate::timebase::{TimeBase, is_boundary_ts, rescale_spec, rescale_ts};

verus! {

/// One compressed packet demultiplexed from the input container, together
/// with the raw frames its decoding yields.  Decoding is deterministic for
/// a fixed codec, so every lane sees the same frames for the same packet.
#[derive(Debug, PartialEq, Eq)]
pub struct InputPacket {
    /// Index of the container stream the packet belongs to.
    pub stream_index: usize,
    /// Presentation timestamp in the container stream's time base.
    pub pts: i64,
    /// The decoded frames this packet produces.
    pub frames: Vec<AudioFrame>,
}

pub open spec fn frames_wf(frames: Seq<AudioFrame>) -> bool {
    forall|j: int| 0 <= j < frames.len() ==> (#[trigger] frames[j]).wf()
}

pub open spec fn packets_wf(packets: Seq<InputPacket>) -> bool {
    forall|i: int| 0 <= i < packets.len() ==> frames_wf((#[trigger] packets[i]).frames@)
}

/// The frames that reach every lane: the decoded frames of the packets of
/// the selected stream, in demultiplexing order.  Packets of other streams
/// are ignored.
pub open spec fn selected_frames(packets: Seq<InputPacket>, selected: int) -> Seq<AudioFrame>
    decreases packets.len(),
{
    if packets.len() == 0 {
        Seq::empty()
    } else if packets.last().stream_index == selected {
        selected_frames(packets.drop_last(), selected) + packets.last().frames@
    } else {
        selected_frames(packets.drop_last(), selected)
    }
}

/// The mono signal one lane produces from a frame sequence: the
/// concatenation of that lane's channel of every frame, in decode order.
pub open spec fn lane_signal(frames: Seq<AudioFrame>, lane: Lane) -> Seq<i16>
    decreases frames.len(),
{
    if frames.len() == 0 {
        Seq::empty()
    } else {
        lane_signal(frames.drop_last(), lane) + extract_spec(
            frames.last().samples@,
            frames.last().channels as int,
            lane_channel(frames.last().channels as int, lane),
        )
    }
}

/// Total number of samples per channel over a frame sequence.
pub open spec fn total_samples(frames: Seq<AudioFrame>) -> int
    decreases frames.len(),
{
    if frames.len() == 0 {
        0
    } else {
        total_samples(frames.drop_last()) + frames.last().frames_per_channel()
    }
}

/// One lane of a split operation, mirroring the per-lane pipeline state:
/// the selected source stream, the lane's channel, and the time bases of
/// its decoder and of its output stream.
#[derive(Debug, Clone, Copy, PartialEq, Eq, Structural)]
pub struct ChannelPipeline {
    pub stream_index: usize,
    pub lane: Lane,
    pub in_time_base: TimeBase,
    pub out_time_base: TimeBase,
}

impl ChannelPipeline {
    pub open spec fn valid(self) -> bool {
        self.in_time_base.valid() && self.out_time_base.valid()
    }

    /// Whether a demultiplexed packet belongs to this lane's source stream.
    pub fn wants_packet(&self, stream_index: usize) -> (r: bool)
        ensures
            r == (stream_index == self.stream_index),
    {
        stream_index == self.stream_index
    }

    /// Rescales a packet timestamp from the container stream's time base
    /// into this lane's decoder time base.
    pub fn rescale_into_decoder(&self, ts: i64, stream_time_base: TimeBase) -> (r: i64)
        requires
            self.valid(),
            stream_time_base.valid(),
            !is_boundary_ts(ts) ==> i64::MIN <= rescale_spec(ts as int, stream_time_base,
                self.in_time_base) <= i64::MAX,
        ensures
            is_boundary_ts(ts) ==> r == ts,
            !is_boundary_ts(ts) ==> r == rescale_spec(ts as int, stream_time_base,
                self.in_time_base),
    {
        rescale_ts(ts, stream_time_base, self.in_time_base)
    }

    /// Rescales an encoded packet timestamp from the encoder's time base
    /// into the output stream's time base, as done just before the packet
    /// is written to the muxer.
    pub fn rescale_into_output(&self, ts: i64) -> (r: i64)
        requires
            self.valid(),
            !is_boundary_ts(ts) ==> i64::MIN <= rescale_spec(ts as int, self.in_time_base,
                self.out_time_base) <= i64::MAX,
        ensures
            is_boundary_ts(ts) ==> r == ts,
            !is_boundary_ts(ts) ==> r == rescale_spec(ts as int, self.in_time_base,
                self.out_time_base),
    {
        rescale_ts(ts, self.in_time_base, self.out_time_base)
    }
}

/// Produces one lane's full mono signal from the demultiplexed packet
/// sequence: every packet of the selected stream contributes the lane's
/// channel of each of its decoded frames, in order.
pub fn lane_output(packets: &Vec<InputPacket>, selected: usize, lane: Lane) -> (out: Vec<i16>)
    requires
        packets_wf(packets@),
    ensures
        out@ == lane_signal(selected_frames(packets@, selected as int), lane),
{
    let mut out: Vec<i16> = Vec::new();
    let n: usize = packets.len();
    let mut i: usize = 0;
    while i < n
        invariant
            i <= n,
            n == packets@.len(),
            packets_wf(packets@),
            out@ == lane_signal(selected_frames(packets@.subrange(0, i as int), selected as int),
                lane),
        decreases n - i,
    {
        proof {
            assert(packets@.subrange(0, i as int + 1).drop_last() =~= packets@.subrange(0,
                i as int));
            assert(packets@.subrange(0, i as int + 1).last() == packets@[i as int]);
        }
        if packets[i].stream_index == selected {
            let ghost fs_before = selected_frames(packets@.subrange(0, i as int), selected as int);
            let frames_n: usize = packets[i].frames.len();
            let mut j: usize = 0;
            while j < frames_n
                invariant
                    j <= frames_n,
                    i < n,
                    n == packets@.len(),
                    frames_n == packets@[i as int].frames@.len(),
                    packets_wf(packets@),
                    packets@[i as int].stream_index == selected,
                    fs_before == selected_frames(packets@.subrange(0, i as int), selected as int),
                    out@ == lane_signal(fs_before + packets@[i as int].frames@.subrange(0,
                        j as int), lane),
                decreases frames_n - j,
            {
                let ghost fs_j = fs_before + packets@[i as int].frames@.subrange(0, j as int);
                proof {
                    assert(frames_wf(packets@[i as int].frames@));
                    assert(packets@[i as int].frames@[j as int].wf());
                    let fs_j1 = fs_before + packets@[i as int].frames@.subrange(0, j as int + 1);
                    assert(fs_j1.drop_last() =~= fs_j);
                    assert(fs_j1.last() == packets@[i as int].frames@[j as int]);
                }
                let mut filtered = filter_frame(&packets[i].frames[j], lane);
                out.append(&mut filtered.samples);
                j = j + 1;
            }
            proof {
                assert(packets@[i as int].frames@.subrange(0, frames_n as int)
                    =~= packets@[i as int].frames@);
                assert(selected_frames(packets@.subrange(0, i as int + 1), selected as int)
                    == fs_before + packets@[i as int].frames@);
            }
        }
        i = i + 1;
    }
    proof {
        assert(packets@.subrange(0, n as int) =~= packets@);
    }
    out
}

/// The two mono signals a split operation writes, one per lane.
#[derive(Debug, PartialEq, Eq)]
pub struct SplitOutput {
    pub left: Vec<i16>,
    pub right: Vec<i16>,
}

/// Runs the split model over the demultiplexed packet sequence: both lanes
/// consume the same packets of the selected stream independently and emit
/// their channel's signal.
pub fn run_split(packets: &Vec<InputPacket>, selected: usize) -> (out: SplitOutput)
    requires
        packets_wf(packets@),
    ensures
        out.left@ == lane_signal(selected_frames(packets@, selected as int), Lane::Left),
        out.right@ == lane_signal(selected_frames(packets@, selected as int), Lane::Right),
        out.left@.len() == total_samples(selected_frames(packets@, selected as int)),
        out.right@.len() == total_samples(selected_frames(packets@, selected as int)),
{
    let left = lane_output(packets, selected, Lane::Left);
    let right = lane_output(packets, selected, Lane::Right);
    proof {
        lemma_selected_frames_wf(packets@, selected as int);
        lemma_lane_lengths_equal(selected_frames(packets@, selected as int));
    }
    SplitOutput { left, right }
}

/// The phases a split operation moves through.
#[derive(Debug, Clone, Copy, PartialEq, Eq, Structural)]
pub enum DriverPhase {
    /// Validating the input and constructing the per-lane pipelines.
    Building,
    /// Fanning demultiplexed packets out to the lanes.
    Running,
    /// Flushing decoders, filters and encoders in a fixed order.
    Draining,
    /// All trailers written; the operation succeeded.
    Finalized,
    /// A lane failed; the operation is abandoned without cleanup.
    Failed,
}

/// The events that move a split operation between phases.
#[derive(Debug, Clone, Copy, PartialEq, Eq, Structural)]
pub enum DriverEvent {
    /// Both lane pipelines were built and every muxer header written.
    PipelinesBuilt,
    /// The input packet sequence is exhausted.
    InputExhausted,
    /// Every lane was flushed and every trailer written.
    Flushed,
    /// A lane reported a fatal error.
    Failure,
}

/// Phase transition table of the split driver: building, running,
/// draining and finalized in that order, with a fall to failed from any
/// live phase; finalized and failed are terminal.
pub open spec fn advance_spec(phase: DriverPhase, event: DriverEvent) -> DriverPhase {
    match phase {
        DriverPhase::Finalized => DriverPhase::Finalized,
        DriverPhase::Failed => DriverPhase::Failed,
        _ => match event {
            DriverEvent::Failure => DriverPhase::Failed,
            DriverEvent::PipelinesBuilt => if phase is Building {
                DriverPhase::Running
            } else {
                phase
            },
            DriverEvent::InputExhausted => if phase is Running {
                DriverPhase::Draining
            } else {
                phase
            },
            DriverEvent::Flushed => if phase is Draining {
                DriverPhase::Finalized
            } else {
                phase
            },
        },
    }
}

/// Applies one driver event to the current phase.
pub fn advance(phase: DriverPhase, event: DriverEvent) -> (next: DriverPhase)
    ensures
        next == advance_spec(phase, event),
{
    match phase {
        DriverPhase::Finalized => DriverPhase::Finalized,
        DriverPhase::Failed => DriverPhase::Failed,
        _ => match event {
            DriverEvent::Failure => DriverPhase::Failed,
            DriverEvent::PipelinesBuilt => if matches!(phase, DriverPhase::Building) {
                DriverPhase::Running
            } else {
                phase
            },
            DriverEvent::InputExhausted => if matches!(phase, DriverPhase::Running) {
                DriverPhase::Draining
            } else {
                phase
            },
            DriverEvent::Flushed => if matches!(phase, DriverPhase::Draining) {
                DriverPhase::Finalized
            } else {
                phase
            },
        },
    }
}

/// How far along a split operation a phase lies; failed counts as an end
/// state beyond finalized.
pub open spec fn phase_rank(phase: DriverPhase) -> int {
    match phase {
        DriverPhase::Building => 0,
        DriverPhase::Running => 1,
        DriverPhase::Draining => 2,
        DriverPhase::Finalized => 3,
        DriverPhase::Failed => 4,
    }
}

/// The driver never moves backwards: every event leaves the phase where it
/// is or advances it, and the terminal phases absorb every event.
pub proof fn lemma_phase_monotone(phase: DriverPhase, event: DriverEvent)
    ensures
        phase_rank(advance_spec(phase, event)) >= phase_rank(phase),
        phase is Finalized ==> advance_spec(phase, event) is Finalized,
        phase is Failed ==> advance_spec(phase, event) is Failed,
{
}

/// A failure event moves every live phase to failed, and nothing else
/// reaches failed.
pub proof fn lemma_failure_reaches_failed(phase: DriverPhase, event: DriverEvent)
    ensures
        !(phase is Finalized) && !(phase is Failed) && event is Failure ==> advance_spec(phase,
            event) is Failed,
        advance_spec(phase, event) is Failed ==> phase is Failed || event is Failure,
{
}

/// Concatenation of the raw samples of a frame sequence, in order.
pub open spec fn all_samples(frames: Seq<AudioFrame>) -> Seq<i16>
    decreases frames.len(),
{
    if frames.len() == 0 {
        Seq::empty()
    } else {
        all_samples(frames.drop_last()) + frames.last().samples@
    }
}

/// Mono passthrough: on a single-channel source both lanes yield the
/// original signal unchanged, sample for sample.
pub proof fn lemma_mono_passthrough(frames: Seq<AudioFrame>, lane: Lane)
    requires
        frames_wf(frames),
        forall|i: int| 0 <= i < frames.len() ==> (#[trigger] frames[i]).channels == 1,
    ensures
        lane_signal(frames, lane) == all_samples(frames),
    decreases frames.len(),
{
    if frames.len() > 0 {
        assert(frames_wf(frames.drop_last())) by {
            assert(forall|i: int| 0 <= i < frames.len() - 1 ==> frames.drop_last()[i]
                == frames[i]);
        }
        lemma_mono_passthrough(frames.drop_last(), lane);
        let f = frames.last();
        assert(extract_spec(f.samples@, 1, 0) =~= f.samples@);
    }
}

/// A stereo signal whose interleaved samples alternate between the left
/// constant `a` (even positions) and the right constant `b` (odd ones).
pub open spec fn constant_stereo(frames: Seq<AudioFrame>, a: i16, b: i16) -> bool {
    forall|i: int, s: int|
        0 <= i < frames.len() && 0 <= s < frames[i].samples@.len()
            ==> (#[trigger] frames[i].samples@[s]) == if s % 2 == 0 {
            a
        } else {
            b
        }
}

/// Channel correctness: if every frame of a stereo source holds the
/// constant `a` on its left channel and the constant `b` on its right
/// channel, the left lane's output is constant `a` and the right lane's
/// output is constant `b` across the whole stream.
pub proof fn lemma_constant_channels(frames: Seq<AudioFrame>, a: i16, b: i16)
    requires
        frames_wf(frames),
        forall|i: int| 0 <= i < frames.len() ==> (#[trigger] frames[i]).channels == 2,
        constant_stereo(frames, a, b),
    ensures
        forall|t: int| 0 <= t < lane_signal(frames, Lane::Left).len()
            ==> lane_signal(frames, Lane::Left)[t] == a,
        forall|t: int| 0 <= t < lane_signal(frames, Lane::Right).len()
            ==> lane_signal(frames, Lane::Right)[t] == b,
    decreases frames.len(),
{
    if frames.len() > 0 {
        assert(frames_wf(frames.drop_last())) by {
            assert(forall|i: int| 0 <= i < frames.len() - 1 ==> frames.drop_last()[i]
                == frames[i]);
        }
        assert(constant_stereo(frames.drop_last(), a, b)) by {
            assert(forall|i: int| 0 <= i < frames.len() - 1 ==> frames.drop_last()[i]
                == frames[i]);
        }
        lemma_constant_channels(frames.drop_last(), a, b);
        let last = frames.len() - 1;
        let f = frames.last();
        assert(frames[last].channels == 2);
        assert(frames[last].wf());
        let len = f.samples@.len() as int;
        assert(len % 2 == 0);
        let left_tail = extract_spec(f.samples@, 2, 0);
        let right_tail = extract_spec(f.samples@, 2, 1);
        assert(left_tail.len() == len / 2);
        assert(right_tail.len() == len / 2);
        assert forall|k: int| 0 <= k < left_tail.len() implies #[trigger] left_tail[k] == a by {
            assert(2 * k < len);
            assert(frames[last].samples@[2 * k] == a);
        }
        assert forall|k: int| 0 <= k < right_tail.len() implies #[trigger] right_tail[k] == b by {
            assert(2 * k + 1 < len);
            assert(frames[last].samples@[2 * k + 1] == b);
        }
        let left_prefix = lane_signal(frames.drop_last(), Lane::Left);
        let left_whole = lane_signal(frames, Lane::Left);
        assert(left_whole == left_prefix + left_tail);
        assert forall|t: int| 0 <= t < left_whole.len() implies left_whole[t] == a by {
            if t < left_prefix.len() {
                assert(left_whole[t] == left_prefix[t]);
            } else {
                assert(left_whole[t] == left_tail[t - left_prefix.len()]);
            }
        }
        let right_prefix = lane_signal(frames.drop_last(), Lane::Right);
        let right_whole = lane_signal(frames, Lane::Right);
        assert(right_whole == right_prefix + right_tail);
        assert forall|t: int| 0 <= t < right_whole.len() implies right_whole[t] == b by {
            if t < right_prefix.len() {
                assert(right_whole[t] == right_prefix[t]);
            } else {
                assert(right_whole[t] == right_tail[t - right_prefix.len()]);
            }
        }
    }
}

/// Every frame fanned out to the lanes is one of the well-formed decoded
/// frames of the input.
pub proof fn lemma_selected_frames_wf(packets: Seq<InputPacket>, selected: int)
    requires
        packets_wf(packets),
    ensures
        frames_wf(selected_frames(packets, selected)),
    decreases packets.len(),
{
    if packets.len() > 0 {
        assert(packets_wf(packets.drop_last())) by {
            assert(forall|i: int| 0 <= i < packets.len() - 1 ==> packets.drop_last()[i]
                == packets[i]);
        }
        lemma_selected_frames_wf(packets.drop_last(), selected);
    }
}

/// Determinism: the split result is a function of the packet sequence and
/// the selected stream alone, so two runs over equal inputs produce equal
/// signals on every lane.
pub proof fn lemma_split_deterministic(
    first: Seq<InputPacket>,
    second: Seq<InputPacket>,
    selected: int,
    lane: Lane,
)
    requires
        first == second,
    ensures
        lane_signal(selected_frames(first, selected), lane) == lane_signal(
            selected_frames(second, selected),
            lane,
        ),
{
}

/// Duration invariant: both lanes emit exactly one sample per source
/// sample group, so the two outputs have the same length, equal to the
/// input's total frame count.
pub proof fn lemma_lane_lengths_equal(frames: Seq<AudioFrame>)
    requires
        frames_wf(frames),
    ensures
        lane_signal(frames, Lane::Left).len() == total_samples(frames),
        lane_signal(frames, Lane::Right).len() == total_samples(frames),
        total_samples(frames) >= 0,
    decreases frames.len(),
{
    if frames.len() > 0 {
        assert(frames_wf(frames.drop_last())) by {
            assert(forall|i: int| 0 <= i < frames.len() - 1 ==> frames.drop_last()[i]
                == frames[i]);
        }
        lemma_lane_lengths_equal(frames.drop_last());
    }
}

} // verus!
