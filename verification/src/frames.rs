//! Raw audio frames and per-channel extraction.
//!
//! A decoded frame carries interleaved samples for one or more channels.
//! The filter stage of a lane extracts exactly one channel from each frame
//! (front-left for the left lane, front-right for the right lane), keeping
//! the frame's presentation timestamp unchanged, and may re-chunk the
//! resulting mono signal into fixed-size frames for the encoder.

use vstd::prelude::*;
use vstd::arithmetic::div_mod::lemma_fundamental_div_mod;

verus! {

/// Which output lane of a split operation a value belongs to.
#[derive(Debug, Clone, Copy, PartialEq, Eq, Structural)]
pub enum Lane {
    Left,
    Right,
}

/// A decoded (raw) audio frame: `channels` interleaved channels and a
/// presentation timestamp in the decoder's time base.
#[derive(Debug, PartialEq, Eq)]
pub struct AudioFrame {
    pub channels: usize,
    pub samples: Vec<i16>,
    pub pts: i64,
}

impl AudioFrame {
    /// Interleaved data is well formed when it holds a whole number of
    /// sample groups, one sample per channel.
    pub open spec fn wf(self) -> bool {
        1 <= self.channels && (self.samples@.len() as int) % (self.channels as int) == 0
    }

    /// Number of samples per channel.
    pub open spec fn frames_per_channel(self) -> int {
        self.samples@.len() as int / (self.channels as int)
    }
}

/// The channel index a lane extracts from a source with `channels` channels:
/// front-left is channel 0 and front-right channel 1.  A mono source has
/// only channel 0, which both lanes pass through unchanged.
pub open spec fn lane_channel(channels: int, lane: Lane) -> int {
    match lane {
        Lane::Left => 0,
        Lane::Right => if channels >= 2 {
            1
        } else {
            0
        },
    }
}

/// The mono signal obtained by picking channel `ch` out of interleaved
/// samples with `channels` channels.
pub open spec fn extract_spec(samples: Seq<i16>, channels: int, ch: int) -> Seq<i16>
    recommends
        1 <= channels,
        0 <= ch < channels,
{
    Seq::new((samples.len() as int / channels) as nat, |i: int| samples[i * channels + ch])
}

/// Extracts the lane's channel from one frame, producing a mono frame with
/// the same presentation timestamp (timestamps pass through the filter
/// unchanged).
pub fn filter_frame(frame: &AudioFrame, lane: Lane) -> (out: AudioFrame)
    requires
        frame.wf(),
    ensures
        out.channels == 1,
        out.pts == frame.pts,
        out.samples@ == extract_spec(
            frame.samples@,
            frame.channels as int,
            lane_channel(frame.channels as int, lane),
        ),
        out.wf(),
        out.frames_per_channel() == frame.frames_per_channel(),
{
    let ch: usize = match lane {
        Lane::Left => 0,
        Lane::Right => if frame.channels >= 2 {
            1
        } else {
            0
        },
    };
    let channels: usize = frame.channels;
    let total: usize = frame.samples.len();
    let n: usize = total / channels;
    proof {
        lemma_fundamental_div_mod(total as int, channels as int);
        assert(total as int == channels as int * n as int);
    }
    let mut samples: Vec<i16> = Vec::new();
    let mut i: usize = 0;
    while i < n
        invariant
            i <= n,
            ch < channels,
            1 <= channels,
            total as int == channels as int * n as int,
            total == frame.samples@.len(),
            samples@.len() == i as int,
            forall|j: int| 0 <= j < i as int ==> samples@[j] == frame.samples@[j * (channels as int)
                + (ch as int)],
        decreases n - i,
    {
        assert((i as int) * (channels as int) + (ch as int) < (total as int)) by (nonlinear_arith)
            requires
                (i as int) < (n as int),
                (ch as int) < (channels as int),
                0 <= i as int,
                0 <= ch as int,
                1 <= channels as int,
                total as int == channels as int * n as int,
        ;
        let idx: usize = i * channels + ch;
        let s: i16 = frame.samples[idx];
        samples.push(s);
        i = i + 1;
    }
    proof {
        assert(samples@ =~= extract_spec(
            frame.samples@,
            frame.channels as int,
            lane_channel(frame.channels as int, lane),
        ));
    }
    AudioFrame { channels: 1, samples, pts: frame.pts }
}

/// Concatenation of a sequence of sample buffers, in order.
pub open spec fn concat_spec(chunks: Seq<Seq<i16>>) -> Seq<i16>
    decreases chunks.len(),
{
    if chunks.len() == 0 {
        Seq::empty()
    } else {
        concat_spec(chunks.drop_last()) + chunks.last()
    }
}

/// All chunks hold exactly `frame_size` samples, except the last one, which
/// holds between 1 and `frame_size`.
pub open spec fn chunks_wf(chunks: Seq<Seq<i16>>, frame_size: int) -> bool {
    forall|i: int| 0 <= i < chunks.len() ==> #[trigger] chunks[i].len() == frame_size
        || (i == chunks.len() - 1 && 0 < chunks[i].len() <= frame_size)
}

/// Re-chunks a mono signal into encoder frames of exactly `frame_size`
/// samples; a final partial frame keeps the remainder.  Concatenating the
/// chunks gives back the input, so no sample is lost or duplicated.
pub fn chunk_samples(samples: &Vec<i16>, frame_size: usize) -> (out: Vec<Vec<i16>>)
    requires
        1 <= frame_size,
    ensures
        concat_spec(out.deep_view()) == samples@,
        chunks_wf(out.deep_view(), frame_size as int),
{
    let mut out: Vec<Vec<i16>> = Vec::new();
    let mut cur: Vec<i16> = Vec::new();
    let total: usize = samples.len();
    let mut i: usize = 0;
    while i < total
        invariant
            i <= total,
            total == samples@.len(),
            1 <= frame_size,
            cur@.len() < frame_size as int,
            concat_spec(out.deep_view()) + cur@ == samples@.subrange(0, i as int),
            forall|k: int| 0 <= k < out.deep_view().len() ==> #[trigger] out.deep_view()[k].len()
                == frame_size as int,
        decreases total - i,
    {
        let s: i16 = samples[i];
        let ghost prev_cur = cur@;
        cur.push(s);
        i = i + 1;
        proof {
            assert(cur@ == prev_cur.push(s));
            assert(samples@.subrange(0, i as int) =~= samples@.subrange(0, i as int - 1).push(s));
            assert(concat_spec(out.deep_view()) + cur@ =~= samples@.subrange(0, i as int));
        }
        if cur.len() == frame_size {
            let ghost full = cur@;
            let done: Vec<i16> = cur;
            cur = Vec::new();
            let ghost old_chunks = out.deep_view();
            out.push(done);
            proof {
                assert(out@.len() == old_chunks.len() + 1);
                assert forall|k: int| 0 <= k < out@.len() implies out.deep_view()[k]
                    == old_chunks.push(full)[k] by {
                    assert(out.deep_view()[k] == out@[k]@);
                }
                assert(out.deep_view() =~= old_chunks.push(full));
                assert(out.deep_view().drop_last() =~= old_chunks);
                assert(out.deep_view().last() == full);
                assert(concat_spec(out.deep_view()) == concat_spec(old_chunks) + full);
                assert(concat_spec(out.deep_view()) + cur@ =~= samples@.subrange(0, i as int));
            }
        }
    }
    proof {
        assert(samples@.subrange(0, total as int) =~= samples@);
    }
    if cur.len() > 0 {
        let ghost rest = cur@;
        let ghost old_chunks = out.deep_view();
        out.push(cur);
        proof {
            assert forall|k: int| 0 <= k < out@.len() implies out.deep_view()[k]
                == old_chunks.push(rest)[k] by {
                assert(out.deep_view()[k] == out@[k]@);
            }
            assert(out.deep_view() =~= old_chunks.push(rest));
            assert(out.deep_view().drop_last() =~= old_chunks);
            assert(out.deep_view().last() == rest);
        }
    }
    out
}

} // verus!
