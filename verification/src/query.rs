//! What the element answers when it is asked about itself.
use crate::framework::{PadMode, SchedulingFlags};
use crate::property::TimestampMode;
use vstd::prelude::*;

verus! {

/// A question to the element.
#[derive(Clone, Copy, Debug, PartialEq, Eq, Structural)]
pub enum Query {
    Scheduling,
    Latency,
    /// Any other question.
    Other,
}

/// The answer to a question.
#[derive(Clone, Copy, Debug, PartialEq, Eq, Structural)]
pub enum QueryReply {
    Scheduling {
        flags: SchedulingFlags,
        minsize: i32,
        maxsize: i32,
        align: i32,
        mode: PadMode,
    },
    /// The latency bounds, in nanoseconds.
    Latency { live: bool, min: u64, max: u64 },
    /// There is no answer yet.
    Unanswered,
    /// The base class has to answer.
    Parent,
}

/// A size without an upper bound.
pub const UNBOUNDED: i32 = -1;

impl TimestampMode {
    /// Whether buffers are stamped with the time at which they were received.
    pub open spec fn spec_stamps_receive_time(self) -> bool {
        self == TimestampMode::ReceiveTimeTimecode || self == TimestampMode::ReceiveTimeTimestamp
    }

    /// Whether buffers are stamped with the time at which they were received.
    pub fn stamps_receive_time(self) -> (receive_time: bool)
        ensures
            receive_time == self.spec_stamps_receive_time(),
    {
        matches!(self, TimestampMode::ReceiveTimeTimecode | TimestampMode::ReceiveTimeTimestamp)
    }
}

/// How the element can be scheduled.
pub open spec fn scheduling() -> QueryReply {
    QueryReply::Scheduling {
        flags: SchedulingFlags { seekable: false, sequential: true, bandwidth_limited: false },
        minsize: 1,
        maxsize: UNBOUNDED,
        align: 0,
        mode: PadMode::Push,
    }
}

/// The latency bounds where frames last `latency` nanoseconds, `queue_length`
/// frames may wait at once, and buffers are stamped as `mode` says.
///
/// The bounds are the least and the longest time that data may be held back. A
/// time is less than `u64::MAX`, which the framework reads as no time at all.
pub open spec fn latency_bounds(
    mode: TimestampMode,
    queue_length: u32,
    latency: u64,
) -> QueryReply {
    QueryReply::Latency {
        live: true,
        min: if mode.spec_stamps_receive_time() {
            latency
        } else {
            0
        },
        max: (queue_length * latency) as u64,
    }
}

/// Answers with the latency bounds.
pub fn latency_reply(mode: TimestampMode, queue_length: u32, latency: u64) -> (reply: QueryReply)
    requires
        queue_length * latency < u64::MAX,
    ensures
        reply == latency_bounds(mode, queue_length, latency),
{
    let min: u64 = if mode.stamps_receive_time() {
        latency
    } else {
        0
    };
    let max: u64 = queue_length as u64 * latency;
    QueryReply::Latency { live: true, min, max }
}

/// Answers how the element can be scheduled.
pub fn scheduling_reply() -> (reply: QueryReply)
    ensures
        reply == scheduling(),
{
    QueryReply::Scheduling {
        flags: SchedulingFlags { seekable: false, sequential: true, bandwidth_limited: false },
        minsize: 1,
        maxsize: UNBOUNDED,
        align: 0,
        mode: PadMode::Push,
    }
}

} // verus!
