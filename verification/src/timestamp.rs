//! Modification times as plain integers.

use vstd::prelude::*;

verus! {

/// Nanoseconds in one second.
pub const NANOS_PER_SECOND: u32 = 1_000_000_000;

/// A point in time: nanoseconds counted from the Unix epoch, negative before
/// it. The epoch itself is the value zero, a timestamp like any other.
#[derive(Clone, Copy, Debug, PartialEq, Eq, Structural)]
pub struct Timestamp {
    pub nanos: i128,
}

impl Timestamp {
    /// The nanosecond count of a distance of `secs` whole seconds and
    /// `subsec_nanos` nanoseconds from the epoch, taken backwards where
    /// `before_epoch` is set.
    pub open spec fn nanos_of(before_epoch: bool, secs: u64, subsec_nanos: u32) -> int {
        let distance = secs as int * 1_000_000_000 + subsec_nanos as int;
        if before_epoch {
            -distance
        } else {
            distance
        }
    }

    /// The Unix epoch.
    pub fn epoch() -> (t: Timestamp)
        ensures
            t.nanos == 0,
    {
        Timestamp { nanos: 0 }
    }

    /// The timestamp that lies `secs` seconds and `subsec_nanos` nanoseconds
    /// after the epoch, or before it where `before_epoch` is set.
    pub fn from_parts(before_epoch: bool, secs: u64, subsec_nanos: u32) -> (t: Timestamp)
        requires
            subsec_nanos < NANOS_PER_SECOND,
        ensures
            t.nanos == Self::nanos_of(before_epoch, secs, subsec_nanos),
    {
        let whole: i128 = secs as i128 * 1_000_000_000i128;
        let distance: i128 = whole + subsec_nanos as i128;
        if before_epoch {
            Timestamp { nanos: -distance }
        } else {
            Timestamp { nanos: distance }
        }
    }
}

/// Two distances from the epoch give the same timestamp only if they are the
/// same distance, and, unless both are zero, lie on the same side of it.
pub proof fn lemma_parts_determine_timestamp(
    before_a: bool,
    secs_a: u64,
    nanos_a: u32,
    before_b: bool,
    secs_b: u64,
    nanos_b: u32,
)
    requires
        nanos_a < NANOS_PER_SECOND,
        nanos_b < NANOS_PER_SECOND,
        Timestamp::nanos_of(before_a, secs_a, nanos_a) == Timestamp::nanos_of(
            before_b,
            secs_b,
            nanos_b,
        ),
    ensures
        secs_a == secs_b,
        nanos_a == nanos_b,
        before_a == before_b || (secs_a == 0 && nanos_a == 0),
{
}

} // verus!
