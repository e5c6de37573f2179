//! The two synchronizer variants. The single-stream synchronizer re-polls
//! its stream when the freshly polled sample is judged stale against a fixed
//! midpoint; the dual-stream synchronizer classifies the wrapped difference
//! of its two streams' samples and re-polls only the lagging stream, so that
//! the returned pair is time-aligned.

use vstd::prelude::*;

use crate::classify::DeltaRes;
use crate::classify::LAG_THRESHOLD;
use crate::classify::MIDPOINT;
use crate::classify::classify;
use crate::classify::wrapped_diff;
use crate::stream::DummyStream;
use crate::stream::frame_at;
use crate::stream::sample_at;

verus! {

/// Single-stream synchronizer: wraps one stream and applies a self
/// referential staleness test before returning a frame.
pub struct TestCameraMono {
    pub left_stream: DummyStream,
}

/// The synchronization signal that the next poll of `cam`'s stream will
/// produce: sample 0 of the frame written at the current counter.
pub open spec fn mono_first_sample(cam: TestCameraMono) -> u8 {
    sample_at(0, cam.left_stream.frame_count as int)
}

/// Whether the single-stream synchronizer will accept its first poll as
/// fresh: the wrapped distance of the signal from the midpoint stays below
/// the lag threshold.
pub open spec fn mono_fresh(cam: TestCameraMono) -> bool {
    wrapped_diff(mono_first_sample(cam), MIDPOINT) < LAG_THRESHOLD
}

impl TestCameraMono {
    /// A synchronizer over a fresh stream of `width * height` samples.
    pub fn new(width: usize, height: usize) -> (cam: TestCameraMono)
        requires
            width * height <= usize::MAX,
        ensures
            cam.left_stream.frame_count == 0,
            cam.left_stream.buffer@.len() == width * height,
            cam.left_stream.buffer@ =~= Seq::new((width * height) as nat, |i: int| 0u8),
    {
        TestCameraMono { left_stream: DummyStream::new(width, height) }
    }

    /// Poll the stream once and compute the wrapped difference between the
    /// obtained sample 0 and the midpoint. Below the lag threshold the frame
    /// counts as fresh enough and is returned as is; otherwise it is over
    /// age, so the stream is polled a second time and the re-captured frame
    /// is returned. One or two polls per call; always returns a view into
    /// the stream's buffer, valid until the next poll.
    pub fn next_frame(&mut self) -> (r: &[u8])
        requires
            old(self).left_stream.buffer@.len() >= 1,
            old(self).left_stream.frame_count < u32::MAX,
            !mono_fresh(*old(self)) ==> old(self).left_stream.frame_count + 2 <= u32::MAX,
        ensures
            final(self).left_stream.buffer@.len() == old(self).left_stream.buffer@.len(),
            r@ == final(self).left_stream.buffer@,
            mono_fresh(*old(self)) ==> final(self).left_stream.frame_count == old(self).left_stream.frame_count + 1,
            mono_fresh(*old(self)) ==> r@ =~= frame_at(
                old(self).left_stream.buffer@.len(),
                old(self).left_stream.frame_count as int,
            ),
            !mono_fresh(*old(self)) ==> final(self).left_stream.frame_count == old(self).left_stream.frame_count + 2,
            !mono_fresh(*old(self)) ==> r@ =~= frame_at(
                old(self).left_stream.buffer@.len(),
                old(self).left_stream.frame_count + 1,
            ),
    {
        self.left_stream.next();
        let l0 = self.left_stream.current()[0];
        let delta = l0.wrapping_sub(MIDPOINT);
        if delta >= LAG_THRESHOLD {
            self.left_stream.next();
        }
        self.left_stream.current()
    }
}

/// Dual-stream synchronizer: wraps two independently clocked streams and
/// returns a time-aligned pair of frames.
pub struct TestCameraStereo {
    pub left_stream: DummyStream,
    pub right_stream: DummyStream,
}

/// The wrapped difference of the two synchronization signals that the first
/// polls of a `next_frame` call on `cam` will produce.
pub open spec fn stereo_delta(cam: TestCameraStereo) -> u8 {
    wrapped_diff(
        sample_at(0, cam.left_stream.frame_count as int),
        sample_at(0, cam.right_stream.frame_count as int),
    )
}

/// How the two streams of `cam` relate on the next acquisition cycle: which
/// stream, if any, `next_frame` will re-poll.
pub open spec fn stereo_relation(cam: TestCameraStereo) -> DeltaRes {
    classify(stereo_delta(cam))
}

impl TestCameraStereo {
    /// A synchronizer over two fresh streams of `width * height` samples
    /// each.
    pub fn new(width: usize, height: usize) -> (cam: TestCameraStereo)
        requires
            width * height <= usize::MAX,
        ensures
            cam.left_stream.frame_count == 0,
            cam.right_stream.frame_count == 0,
            cam.left_stream.buffer@.len() == width * height,
            cam.right_stream.buffer@.len() == width * height,
            cam.left_stream.buffer@ =~= Seq::new((width * height) as nat, |i: int| 0u8),
            cam.right_stream.buffer@ =~= Seq::new((width * height) as nat, |i: int| 0u8),
    {
        TestCameraStereo {
            left_stream: DummyStream::new(width, height),
            right_stream: DummyStream::new(width, height),
        }
    }

    /// Poll both streams once and classify the wrapped difference of their
    /// signals. A synchronized pair is returned unchanged (two polls in all);
    /// otherwise only the lagging stream is re-polled (three polls in all)
    /// and its re-captured frame replaces the stale one. Polling one stream
    /// never touches the other stream's buffer, so the untouched view stays
    /// valid. Both views are valid until the next poll of their own stream.
    pub fn next_frame(&mut self) -> (r: (&[u8], &[u8]))
        requires
            old(self).left_stream.buffer@.len() >= 1,
            old(self).right_stream.buffer@.len() >= 1,
            old(self).left_stream.frame_count < u32::MAX,
            old(self).right_stream.frame_count < u32::MAX,
            stereo_relation(*old(self)) is LeftLagging ==> old(self).left_stream.frame_count
                + 2 <= u32::MAX,
            stereo_relation(*old(self)) is RightLagging ==> old(self).right_stream.frame_count
                + 2 <= u32::MAX,
        ensures
            final(self).left_stream.buffer@.len() == old(self).left_stream.buffer@.len(),
            final(self).right_stream.buffer@.len() == old(self).right_stream.buffer@.len(),
            r.0@ == final(self).left_stream.buffer@,
            r.1@ == final(self).right_stream.buffer@,
            stereo_relation(*old(self)) is Synchronized ==> (
                final(self).left_stream.frame_count == old(self).left_stream.frame_count + 1
                && final(self).right_stream.frame_count == old(self).right_stream.frame_count + 1
                && r.0@ =~= frame_at(
                    old(self).left_stream.buffer@.len(),
                    old(self).left_stream.frame_count as int,
                )
                && r.1@ =~= frame_at(
                    old(self).right_stream.buffer@.len(),
                    old(self).right_stream.frame_count as int,
                )
            ),
            stereo_relation(*old(self)) is LeftLagging ==> (
                final(self).left_stream.frame_count == old(self).left_stream.frame_count + 2
                && final(self).right_stream.frame_count == old(self).right_stream.frame_count + 1
                && r.0@ =~= frame_at(
                    old(self).left_stream.buffer@.len(),
                    old(self).left_stream.frame_count + 1,
                )
                && r.1@ =~= frame_at(
                    old(self).right_stream.buffer@.len(),
                    old(self).right_stream.frame_count as int,
                )
            ),
            stereo_relation(*old(self)) is RightLagging ==> (
                final(self).left_stream.frame_count == old(self).left_stream.frame_count + 1
                && final(self).right_stream.frame_count == old(self).right_stream.frame_count + 2
                && r.0@ =~= frame_at(
                    old(self).left_stream.buffer@.len(),
                    old(self).left_stream.frame_count as int,
                )
                && r.1@ =~= frame_at(
                    old(self).right_stream.buffer@.len(),
                    old(self).right_stream.frame_count + 1,
                )
            ),
    {
        self.left_stream.next();
        self.right_stream.next();
        let l0 = self.left_stream.current()[0];
        let r0 = self.right_stream.current()[0];
        let delta = l0.wrapping_sub(r0);
        match DeltaRes::from_delta(delta) {
            DeltaRes::Synchronized => {},
            DeltaRes::LeftLagging => {
                self.left_stream.next();
            },
            DeltaRes::RightLagging => {
                self.right_stream.next();
            },
        }
        (self.left_stream.current(), self.right_stream.current())
    }
}

} // verus!
