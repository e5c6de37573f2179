//! Stream source: stands in for a camera driver. It owns a fixed-size buffer,
//! overwrites it in place on every poll with deterministic content, and hands
//! out a borrowed view that stays valid only until the next poll.

use vstd::prelude::*;

verus! {

/// Content of the sample at index `i` of a frame written while the stream's
/// counter stood at `count`.
pub open spec fn sample_at(i: int, count: int) -> u8 {
    ((i + count) % 256) as u8
}

/// The whole frame of length `len` written while the counter stood at
/// `count`.
pub open spec fn frame_at(len: nat, count: int) -> Seq<u8> {
    Seq::new(len, |i: int| sample_at(i, count))
}

/// A source of successive fixed-size frames. The buffer is owned by the
/// stream and rewritten in place on every poll; the counter goes up by one
/// per poll and only synthesizes the deterministic sample content.
pub struct DummyStream {
    pub buffer: Vec<u8>,
    pub frame_count: u32,
}

impl DummyStream {
    /// A fresh stream with a zero-initialized buffer of `width * height`
    /// samples and a counter at zero.
    pub fn new(width: usize, height: usize) -> (s: DummyStream)
        requires
            width * height <= usize::MAX,
        ensures
            s.buffer@.len() == width * height,
            s.buffer@ =~= Seq::new((width * height) as nat, |i: int| 0u8),
            s.frame_count == 0,
    {
        let n: usize = width * height;
        let mut buffer: Vec<u8> = Vec::new();
        let mut i: usize = 0;
        while i < n
            invariant
                i <= n,
                buffer@.len() == i,
                forall|j: int| 0 <= j < i ==> buffer@[j] == 0u8,
            decreases n - i,
        {
            buffer.push(0u8);
            i = i + 1;
        }
        DummyStream { buffer, frame_count: 0 }
    }

    /// Poll the stream: rewrite every sample as a deterministic function of
    /// its index and the current counter, advance the counter, and return a
    /// borrowed view of the freshly written buffer. The view is invalidated
    /// by the next poll of this same stream.
    pub fn next(&mut self) -> (r: &[u8])
        requires
            old(self).frame_count < u32::MAX,
        ensures
            final(self).frame_count == old(self).frame_count + 1,
            final(self).buffer@ =~= frame_at(
                old(self).buffer@.len(),
                old(self).frame_count as int,
            ),
            r@ == final(self).buffer@,
    {
        let count = self.frame_count;
        let n = self.buffer.len();
        let mut i: usize = 0;
        while i < n
            invariant
                i <= n,
                n == self.buffer@.len(),
                self.frame_count == count,
                forall|j: int| 0 <= j < i ==> self.buffer@[j] == sample_at(j, count as int),
            decreases n - i,
        {
            let v: u8 = ((i as u128 + count as u128) % 256) as u8;
            self.buffer[i] = v;
            i = i + 1;
        }
        self.frame_count = count + 1;
        self.buffer.as_slice()
    }

    /// Borrowed view of the most recently written frame, without polling.
    /// Like the view a poll returns, it stays valid only until the next poll.
    pub fn current(&self) -> (r: &[u8])
        ensures
            r@ == self.buffer@,
    {
        self.buffer.as_slice()
    }
}

/// Law: polling is deterministic. A stream starts with its counter at zero
/// and every poll advances the counter by one, so after the poll that brings
/// the counter to `k` (with `k >= 1`) the buffer holds `frame_at(len, k - 1)`,
/// whose sample at index `i` equals `(i + k - 1) mod 256`.
pub proof fn lemma_poll_determinism(len: nat, k: int, i: int)
    requires
        1 <= k,
        0 <= i < len,
    ensures
        frame_at(len, k - 1)[i] == ((i + k - 1) % 256) as u8,
{
}

} // verus!
