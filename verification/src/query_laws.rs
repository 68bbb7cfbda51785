//! What the answers are for: the latency is that of the running stream.
use crate::framework::PadMode;
use crate::ndi_src::NdiSrcView;
use crate::property::{PropertyValueView, TimestampMode};
use crate::property_laws::{law_nine_names, lemma_names_differ};
use crate::query::{latency_bounds, scheduling, Query, QueryReply};
use vstd::prelude::*;

verus! {

/// With a queue of `queue_length` frames that last `latency` each, data waits at most
/// for the whole queue; at least for one frame where buffers are stamped with the time
/// they were received, and not at all in every other mode.
pub proof fn law_latency_is_that_of_the_queue(
    mode: TimestampMode,
    queue_length: u32,
    latency: u64,
)
    requires
        queue_length * latency < u64::MAX,
    ensures
        latency_bounds(mode, queue_length, latency) matches QueryReply::Latency { live, min, max }
            && {
            &&& live
            &&& max == queue_length * latency
            &&& (mode == TimestampMode::ReceiveTimeTimecode || mode
                == TimestampMode::ReceiveTimeTimestamp) ==> min == latency
            &&& mode is Other ==> min == 0
        },
{
}

/// One more frame in the queue raises the greatest latency by exactly one frame, and
/// leaves the least latency as it is. An empty queue holds nothing back.
pub proof fn law_each_frame_adds_its_duration(
    mode: TimestampMode,
    queue_length: u32,
    latency: u64,
)
    requires
        queue_length < u32::MAX,
        (queue_length + 1) * latency < u64::MAX,
    ensures
        ({
            let shorter = latency_bounds(mode, queue_length, latency);
            let longer = latency_bounds(mode, (queue_length + 1) as u32, latency);
            &&& shorter matches QueryReply::Latency { min: min1, max: max1, .. }
            &&& longer matches QueryReply::Latency { min: min2, max: max2, .. }
            &&& max2 == max1 + latency
            &&& min2 == min1
        }),
        latency_bounds(mode, 0, latency) matches QueryReply::Latency { max, .. } && max == 0,
{
    assert((queue_length + 1) * latency == queue_length * latency + latency) by (nonlinear_arith);
    assert(0 * latency == 0) by (nonlinear_arith);
    assert(queue_length * latency >= 0) by (nonlinear_arith);
}

/// The element answers a latency query exactly with the bounds for the frame duration,
/// the queue length and the mode that it has; it cannot exactly where the whole queue
/// lasts no time any more, and has no answer exactly while no duration is known.
pub proof fn law_latency_answer_follows_stream_and_settings<R, H, A, V, C>(
    source: NdiSrcView<R, H, A, V, C>,
)
    ensures
        source.can_answer(Query::Latency) <==> match source.state.current_latency {
            Some(latency) => source.settings.max_queue_length * latency < u64::MAX,
            None => true,
        },
        source.can_answer(Query::Scheduling),
        source.can_answer(Query::Other),
        source.state.current_latency is None <==> source.answer(Query::Latency)
            == QueryReply::Unanswered,
        source.can_answer(Query::Latency) ==> (source.state.current_latency matches Some(latency)
            ==> (source.answer(Query::Latency) matches QueryReply::Latency { live, min, max } && {
            &&& live
            &&& max == source.settings.max_queue_length * latency
            &&& min == (match source.settings.timestamp_mode {
                TimestampMode::ReceiveTimeTimecode => latency,
                TimestampMode::ReceiveTimeTimestamp => latency,
                TimestampMode::Other(_) => 0,
            })
        })),
{
}

/// A queue length or a timestamp mode that was set counts in the next answer.
pub proof fn law_latency_answer_follows_what_was_set<R, H, A, V, C>(
    source: NdiSrcView<R, H, A, V, C>,
    latency: u64,
    queue_length: u32,
    mode: TimestampMode,
)
    requires
        source.state.current_latency == Some(latency),
        queue_length * latency < u64::MAX,
    ensures
        ({
            let set = source.set_property(
                "max-queue-length"@,
                PropertyValueView::UInt(queue_length),
            ).set_property("timestamp-mode"@, PropertyValueView::TimestampMode(mode));
            &&& set.can_answer(Query::Latency)
            &&& set.answer(Query::Latency) matches QueryReply::Latency { live, min, max }
            &&& live
            &&& max == queue_length * latency
            &&& min == (if mode is Other {
                0
            } else {
                latency
            })
        }),
{
    law_nine_names("max-queue-length"@);
    law_nine_names("timestamp-mode"@);
    lemma_names_differ();
}

/// The element is scheduled in sequence by pushing buffers of any size, never by
/// seeking, whatever it knows; and what it is not asked about in particular is left to
/// the base class.
pub proof fn law_other_answers_never_change<R, H, A, V, C>(source: NdiSrcView<R, H, A, V, C>)
    ensures
        source.answer(Query::Scheduling) == scheduling(),
        scheduling() matches QueryReply::Scheduling { flags, minsize, maxsize, align, mode } && {
            &&& flags.sequential
            &&& !flags.seekable
            &&& !flags.bandwidth_limited
            &&& minsize == 1
            &&& maxsize == -1
            &&& align == 0
            &&& mode == PadMode::Push
        },
        source.answer(Query::Other) == QueryReply::Parent,
{
}

} // verus!
