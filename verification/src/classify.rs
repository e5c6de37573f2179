//! Staleness classifier: maps a wrapped byte difference between two streams'
//! latest samples to one of three relationships.

use vstd::prelude::*;

verus! {

/// Lower classification threshold: a delta below this means the first stream
/// is lagging. Together with its mirror image `255 - LAG_THRESHOLD` it must
/// stay symmetric around the midpoint 127.5 of the byte range.
pub const LAG_THRESHOLD: u8 = 80;

/// Midpoint of the byte range, used by the single-stream synchronizer as a
/// fixed freshness threshold in place of another stream's sample.
pub const MIDPOINT: u8 = 127;

/// Relationship between two streams' most recent samples, derived from the
/// wrapped difference of their synchronization signals.
#[derive(Clone, Copy, Debug, PartialEq, Eq, Structural)]
pub enum DeltaRes {
    LeftLagging,
    RightLagging,
    Synchronized,
}

/// Modulo-256 subtraction of two bytes: the byte domain's natural arithmetic,
/// which never underflows.
pub open spec fn wrapped_diff(a: u8, b: u8) -> u8 {
    if a < b {
        (a - b + 256) as u8
    } else {
        (a - b) as u8
    }
}

/// What `DeltaRes::from_delta` returns: the three ranges partition the whole
/// byte domain.
pub open spec fn classify(delta: u8) -> DeltaRes {
    if delta < LAG_THRESHOLD {
        DeltaRes::LeftLagging
    } else if delta < 255 - LAG_THRESHOLD {
        DeltaRes::Synchronized
    } else {
        DeltaRes::RightLagging
    }
}

impl DeltaRes {
    /// Classify a wrapped byte delta. Pure, total, no side effects.
    pub fn from_delta(delta: u8) -> (r: DeltaRes)
        ensures
            r == classify(delta),
    {
        if delta < LAG_THRESHOLD {
            DeltaRes::LeftLagging
        } else if delta < 255 - LAG_THRESHOLD {
            DeltaRes::Synchronized
        } else {
            DeltaRes::RightLagging
        }
    }
}

/// Law: for every byte value the classifier returns exactly one of the three
/// relationships, and the three ranges are contiguous and exhaustive:
/// `[0, 80)` is `LeftLagging`, `[80, 175)` is `Synchronized`, and
/// `[175, 255]` is `RightLagging`.
pub proof fn lemma_classify_partition(delta: u8)
    ensures
        classify(delta) is LeftLagging <==> delta < 80,
        classify(delta) is Synchronized <==> 80 <= delta < 175,
        classify(delta) is RightLagging <==> 175 <= delta,
{
}

} // verus!
