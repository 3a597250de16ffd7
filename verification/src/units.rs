//! The per-lane processing units as state machines.
//!
//! A lane owns one decode unit, one filter stage and one encode unit.
//! Each unit buffers work between `submit`-style and `drain`-style calls;
//! signalling end of input only marks the unit, and draining stays
//! restartable until the buffer is exhausted.

use vstd::prelude::*;
use crate::errors::SplitError;
use crate::frames::{AudioFrame, Lane, chunks_wf, concat_spec, extract_spec, filter_frame,
    lane_channel};
use crate::timebase::{TimeBase, rescale_spec, try_rescale};

verus! {

/// One decoder bound to one input stream: compressed packets go in, raw
/// frames come out in order.
#[derive(Debug)]
pub struct DecodeUnit {
    /// Frames decoded but not yet handed downstream.
    pub buffered: Vec<AudioFrame>,
    /// No more packets will be submitted.
    pub ended: bool,
}

impl DecodeUnit {
    /// Builds a decoder for the stream's codec parameters; with no decoder
    /// available for the codec the unit cannot be configured.
    pub fn configure(decoder_available: bool) -> (r: Result<DecodeUnit, SplitError>)
        ensures
            match r {
                Ok(u) => decoder_available && u.buffered@ =~= Seq::<AudioFrame>::empty()
                    && !u.ended,
                Err(e) => !decoder_available && e == SplitError::UnsupportedCodec,
            },
    {
        if decoder_available {
            Ok(DecodeUnit { buffered: Vec::new(), ended: false })
        } else {
            Err(SplitError::UnsupportedCodec)
        }
    }

    /// Enqueues one compressed packet's worth of decoding: the frames it
    /// yields become available for draining, in order.
    pub fn submit(&mut self, decoded: Vec<AudioFrame>)
        requires
            !old(self).ended,
        ensures
            final(self).buffered@ == old(self).buffered@ + decoded@,
            !final(self).ended,
    {
        let mut incoming = decoded;
        self.buffered.append(&mut incoming);
    }

    /// Yields every frame currently decodable and leaves the unit empty;
    /// calling again after more submissions continues the sequence.
    pub fn drain(&mut self) -> (out: Vec<AudioFrame>)
        ensures
            out@ == old(self).buffered@,
            final(self).buffered@ =~= Seq::<AudioFrame>::empty(),
            final(self).ended == old(self).ended,
    {
        let mut out: Vec<AudioFrame> = Vec::new();
        std::mem::swap(&mut out, &mut self.buffered);
        out
    }

    /// Marks that no more packets will be submitted; anything still
    /// buffered remains drainable.
    pub fn signal_end(&mut self)
        ensures
            final(self).ended,
            final(self).buffered@ == old(self).buffered@,
    {
        self.ended = true;
    }
}

/// The channel-extraction graph of one lane: source frames go in, the
/// lane's channel comes out as a mono signal, re-chunked on demand.
#[derive(Debug)]
pub struct FilterStage {
    /// The lane whose channel this stage extracts.
    pub lane: Lane,
    /// Mono samples extracted but not yet pulled downstream.
    pub buffered: Vec<i16>,
    /// End of input was signalled; the residual partial buffer may drain.
    pub flushed: bool,
}

impl FilterStage {
    pub fn new(lane: Lane) -> (r: FilterStage)
        ensures
            r.lane == lane,
            r.buffered@ =~= Seq::<i16>::empty(),
            !r.flushed,
    {
        FilterStage { lane, buffered: Vec::new(), flushed: false }
    }

    /// Feeds one source frame: its lane channel is appended to the
    /// buffered mono signal.
    pub fn push(&mut self, frame: &AudioFrame)
        requires
            frame.wf(),
            !old(self).flushed,
        ensures
            final(self).buffered@ == old(self).buffered@ + extract_spec(
                frame.samples@,
                frame.channels as int,
                lane_channel(frame.channels as int, old(self).lane),
            ),
            final(self).lane == old(self).lane,
            !final(self).flushed,
    {
        let mut filtered = filter_frame(frame, self.lane);
        self.buffered.append(&mut filtered.samples);
    }

    /// Yields the buffered signal as frames of exactly `frame_size`
    /// samples; what does not fill a frame stays buffered for later input.
    pub fn pull(&mut self, frame_size: usize) -> (out: Vec<Vec<i16>>)
        requires
            1 <= frame_size,
        ensures
            concat_spec(out.deep_view()) + final(self).buffered@ == old(self).buffered@,
            forall|k: int| 0 <= k < out.deep_view().len() ==> (#[trigger] out.deep_view()[k]).len()
                == frame_size as int,
            final(self).buffered@.len() < frame_size as int,
            final(self).lane == old(self).lane,
            final(self).flushed == old(self).flushed,
    {
        let total: usize = self.buffered.len();
        let full: usize = total / frame_size;
        proof {
            vstd::arithmetic::div_mod::lemma_fundamental_div_mod(total as int, frame_size as int);
            assert(total as int == frame_size as int * (full as int) + (total as int)
                % (frame_size as int));
        }
        let mut out: Vec<Vec<i16>> = Vec::new();
        let mut c: usize = 0;
        while c < full
            invariant
                c <= full,
                1 <= frame_size,
                total == self.buffered@.len(),
                (full as int) * (frame_size as int) <= total as int,
                out.deep_view().len() == c as int,
                forall|k: int| 0 <= k < c as int ==> (#[trigger] out.deep_view()[k]).len()
                    == frame_size as int,
                concat_spec(out.deep_view()) == self.buffered@.subrange(
                    0,
                    (c as int) * (frame_size as int),
                ),
            decreases full - c,
        {
            proof {
                assert((c as int) * (frame_size as int) + (frame_size as int) == (c as int + 1)
                    * (frame_size as int) && 0 <= (c as int) * (frame_size as int) && (c as int
                    + 1) * (frame_size as int) <= (full as int) * (frame_size as int))
                    by (nonlinear_arith)
                    requires
                        0 <= c as int,
                        c as int + 1 <= full as int,
                        1 <= frame_size as int,
                ;
            }
            let base: usize = c * frame_size;
            let mut chunk: Vec<i16> = Vec::new();
            let mut t: usize = 0;
            while t < frame_size
                invariant
                    t <= frame_size,
                    base as int == (c as int) * (frame_size as int),
                    base as int + frame_size as int <= total as int,
                    total == self.buffered@.len(),
                    chunk@.len() == t as int,
                    forall|u: int| 0 <= u < t as int ==> chunk@[u] == self.buffered@[base as int
                        + u],
                decreases frame_size - t,
            {
                let s: i16 = self.buffered[base + t];
                chunk.push(s);
                t = t + 1;
            }
            proof {
                assert(chunk@ =~= self.buffered@.subrange(
                    base as int,
                    base as int + frame_size as int,
                ));
            }
            let ghost old_chunks = out.deep_view();
            out.push(chunk);
            proof {
                assert forall|k: int| 0 <= k < out@.len() implies out.deep_view()[k]
                    == old_chunks.push(self.buffered@.subrange(
                    base as int,
                    base as int + frame_size as int,
                ))[k] by {
                    assert(out.deep_view()[k] == out@[k]@);
                }
                assert(out.deep_view() =~= old_chunks.push(self.buffered@.subrange(
                    base as int,
                    base as int + frame_size as int,
                )));
                assert(out.deep_view().drop_last() =~= old_chunks);
                assert(concat_spec(out.deep_view()) =~= self.buffered@.subrange(
                    0,
                    (c as int + 1) * (frame_size as int),
                ));
            }
            c = c + 1;
        }
        let start: usize = full * frame_size;
        let mut rest: Vec<i16> = Vec::new();
        let mut t: usize = start;
        while t < total
            invariant
                start <= t <= total,
                total == self.buffered@.len(),
                rest@.len() == t as int - start as int,
                forall|u: int| 0 <= u < rest@.len() ==> rest@[u] == self.buffered@[start as int
                    + u],
            decreases total - t,
        {
            let s: i16 = self.buffered[t];
            rest.push(s);
            t = t + 1;
        }
        proof {
            assert(rest@ =~= self.buffered@.subrange(start as int, total as int));
            assert((total as int) % (frame_size as int) < frame_size as int);
            assert(concat_spec(out.deep_view()) + rest@ =~= self.buffered@);
        }
        self.buffered = rest;
        out
    }

    /// Signals end of input to the graph; the residual partial buffer can
    /// then drain.
    pub fn flush(&mut self)
        ensures
            final(self).flushed,
            final(self).buffered@ == old(self).buffered@,
            final(self).lane == old(self).lane,
    {
        self.flushed = true;
    }

    /// Drains the residual partial buffer after a flush.
    pub fn drain_rest(&mut self) -> (out: Vec<i16>)
        requires
            old(self).flushed,
        ensures
            out@ == old(self).buffered@,
            final(self).buffered@ =~= Seq::<i16>::empty(),
            final(self).lane == old(self).lane,
            final(self).flushed,
    {
        let mut out: Vec<i16> = Vec::new();
        std::mem::swap(&mut out, &mut self.buffered);
        out
    }
}

/// One compressed packet on its way into a lane's output container.
#[derive(Debug, PartialEq, Eq)]
pub struct EncodedPacket {
    /// Stream the packet is assigned to inside its muxer; each lane's
    /// container has exactly one stream.
    pub stream_index: usize,
    /// Presentation timestamp, in the output stream's time base.
    pub pts: i64,
    /// The encoded payload, one sample per tick for linear PCM.
    pub samples: Vec<i16>,
}

/// A frame's timestamp can be expressed in the output stream's time base:
/// the rescaled value fits a timestamp.
pub open spec fn pts_representable(f: AudioFrame, from: TimeBase, to: TimeBase) -> bool {
    i64::MIN <= rescale_spec(f.pts as int, from, to) <= i64::MAX
}

/// One mono encoder and its output stream: filtered frames go in, packets
/// with rescaled timestamps come out.
#[derive(Debug)]
pub struct EncodeUnit {
    /// Frames submitted but not yet drained.
    pub pending: Vec<AudioFrame>,
    /// No more frames will be submitted.
    pub ended: bool,
    /// The encoder's time base.
    pub in_time_base: TimeBase,
    /// The output stream's time base.
    pub out_time_base: TimeBase,
}

impl EncodeUnit {
    pub fn new(in_time_base: TimeBase, out_time_base: TimeBase) -> (r: EncodeUnit)
        requires
            in_time_base.valid(),
            out_time_base.valid(),
        ensures
            r.pending@ =~= Seq::<AudioFrame>::empty(),
            !r.ended,
            r.in_time_base == in_time_base,
            r.out_time_base == out_time_base,
            r.valid(),
    {
        EncodeUnit { pending: Vec::new(), ended: false, in_time_base, out_time_base }
    }

    pub open spec fn valid(self) -> bool {
        self.in_time_base.valid() && self.out_time_base.valid()
    }

    /// Enqueues one filtered mono frame for encoding.
    pub fn submit(&mut self, frame: AudioFrame)
        requires
            !old(self).ended,
        ensures
            final(self).pending@ == old(self).pending@.push(frame),
            final(self).ended == old(self).ended,
            final(self).in_time_base == old(self).in_time_base,
            final(self).out_time_base == old(self).out_time_base,
    {
        self.pending.push(frame);
    }

    /// Marks end of input; pending frames remain drainable.
    pub fn signal_end(&mut self)
        ensures
            final(self).ended,
            final(self).pending@ == old(self).pending@,
            final(self).in_time_base == old(self).in_time_base,
            final(self).out_time_base == old(self).out_time_base,
    {
        self.ended = true;
    }

    /// Drains every pending frame as one packet each: assigned to stream 0
    /// of the lane's muxer, its timestamp rescaled from the encoder's time
    /// base into the output stream's.  Draining succeeds exactly when every
    /// pending timestamp can be expressed in the output time base; one that
    /// cannot is a fatal encoder-side error.
    pub fn drain(&mut self) -> (r: Result<Vec<EncodedPacket>, SplitError>)
        requires
            old(self).valid(),
        ensures
            final(self).ended == old(self).ended,
            final(self).in_time_base == old(self).in_time_base,
            final(self).out_time_base == old(self).out_time_base,
            final(self).valid(),
            match r {
                Ok(out) => {
                    &&& final(self).pending@ =~= Seq::<AudioFrame>::empty()
                    &&& out@.len() == old(self).pending@.len()
                    &&& forall|k: int| 0 <= k < out@.len() ==> {
                        let src = old(self).pending@[k];
                        let p = #[trigger] out@[k];
                        p.stream_index == 0 && p.samples@ == src.samples@ && p.pts == rescale_spec(
                            src.pts as int,
                            old(self).in_time_base,
                            old(self).out_time_base,
                        )
                    }
                    &&& forall|k: int| 0 <= k < old(self).pending@.len() ==> pts_representable(
                        #[trigger] old(self).pending@[k],
                        old(self).in_time_base,
                        old(self).out_time_base,
                    )
                },
                Err(e) => e == SplitError::EncodeFailure && exists|k: int|
                    0 <= k < old(self).pending@.len() && !pts_representable(
                        #[trigger] old(self).pending@[k],
                        old(self).in_time_base,
                        old(self).out_time_base,
                    ),
            },
    {
        let mut out: Vec<EncodedPacket> = Vec::new();
        let mut frames: Vec<AudioFrame> = Vec::new();
        std::mem::swap(&mut frames, &mut self.pending);
        let ghost source = frames@;
        let n: usize = frames.len();
        let mut k: usize = 0;
        while k < n
            invariant
                k <= n,
                n == source.len(),
                frames@ == source,
                source == old(self).pending@,
                forall|j: int| 0 <= j < k as int ==> pts_representable(
                    #[trigger] source[j],
                    self.in_time_base,
                    self.out_time_base,
                ),
                self.ended == old(self).ended,
                self.in_time_base == old(self).in_time_base,
                self.out_time_base == old(self).out_time_base,
                self.pending@ =~= Seq::<AudioFrame>::empty(),
                self.in_time_base.valid(),
                self.out_time_base.valid(),
                out@.len() == k as int,
                forall|j: int| 0 <= j < k as int ==> {
                    let src = source[j];
                    let p = #[trigger] out@[j];
                    p.stream_index == 0 && p.samples@ == src.samples@ && p.pts == rescale_spec(
                        src.pts as int,
                        self.in_time_base,
                        self.out_time_base,
                    )
                },
            decreases n - k,
        {
            let pts: i64 = match try_rescale(frames[k].pts, self.in_time_base, self.out_time_base) {
                Some(v) => {
                    proof {
                        assert(pts_representable(source[k as int], self.in_time_base,
                            self.out_time_base));
                    }
                    v
                },
                None => {
                    proof {
                        assert(!pts_representable(old(self).pending@[k as int],
                            old(self).in_time_base, old(self).out_time_base));
                    }
                    return Err(SplitError::EncodeFailure);
                },
            };
            let mut samples: Vec<i16> = Vec::new();
            let total: usize = frames[k].samples.len();
            let mut t: usize = 0;
            while t < total
                invariant
                    t <= total,
                    k < n,
                    n == source.len(),
                    frames@ == source,
                    total == source[k as int].samples@.len(),
                    samples@.len() == t as int,
                    forall|u: int| 0 <= u < t as int ==> samples@[u] == source[k as int].samples@[
                        u],
                decreases total - t,
            {
                let s: i16 = frames[k].samples[t];
                samples.push(s);
                t = t + 1;
            }
            proof {
                assert(samples@ =~= source[k as int].samples@);
            }
            out.push(EncodedPacket { stream_index: 0, pts, samples });
            k = k + 1;
        }
        proof {
            assert forall|j: int| 0 <= j < old(self).pending@.len() implies pts_representable(
                #[trigger] old(self).pending@[j],
                old(self).in_time_base,
                old(self).out_time_base,
            ) by {
                assert(pts_representable(source[j], self.in_time_base, self.out_time_base));
            }
        }
        Ok(out)
    }
}

} // verus!
