//! What a capture is for: every buffer reaches the right stream, described as it
//! came, and nothing else changes.
//!
//! Each law takes what a contract promises of a result and says what that result is,
//! field by field.
use crate::framework::{ErrorCode, ErrorMessage, FlowError};
use crate::laws::{after_all, law_every_run_is_well_formed, Event};
use crate::ndi_src::NdiSrcView;
use crate::state::{
    Buffer, CapsError, CreateStep, MediaBuffer, NewBuffer, ReceiverItem, State, StreamType,
};
use vstd::prelude::*;
use vstd::std_specs::cmp::PartialEqSpec;

verus! {

/// A video buffer for which caps were built is handed out as it came, as video; the
/// caps that are known for video are then the ones just built, and the description
/// is the buffer's. A latency message is due exactly if the buffer lasts another time
/// than the latency known before. Nothing is learned about audio.
pub proof fn law_video_buffer_is_handed_out_as_video<R, B, A, V, C>(
    state: State<R, A, V, C>,
    media: MediaBuffer<B>,
    info: V,
    caps: C,
    result: Result<NewBuffer<B>, CapsError>,
    next: State<R, A, V, C>,
)
    requires
        state.builds(Buffer::Video(media, info), Ok(caps), result, next),
    ensures
        result matches Ok(new) && {
            &&& new.stream == StreamType::Video
            &&& new.buffer == media
            &&& new.latency_changed <==> state.current_latency != media.duration
            &&& next.caps_of(new.stream) == Some(caps)
        },
        next.video_info == Some(info),
        next.video_caps == Some(caps),
        next.current_latency == media.duration,
        next.audio_info == state.audio_info,
        next.audio_caps == state.audio_caps,
        next.receiver == state.receiver,
{
}

/// An audio buffer for which caps were built is handed out as it came, as audio; the
/// caps that are known for audio are then the ones just built, and the description
/// is the buffer's. No latency message is due, and nothing is learned about video.
pub proof fn law_audio_buffer_is_handed_out_as_audio<R, B, A, V, C>(
    state: State<R, A, V, C>,
    media: MediaBuffer<B>,
    info: A,
    caps: C,
    result: Result<NewBuffer<B>, CapsError>,
    next: State<R, A, V, C>,
)
    requires
        state.builds(Buffer::Audio(media, info), Ok(caps), result, next),
    ensures
        result matches Ok(new) && {
            &&& new.stream == StreamType::Audio
            &&& new.buffer == media
            &&& !new.latency_changed
            &&& next.caps_of(new.stream) == Some(caps)
        },
        next.audio_info == Some(info),
        next.audio_caps == Some(caps),
        next.video_info == state.video_info,
        next.video_caps == state.video_caps,
        next.current_latency == state.current_latency,
        next.receiver == state.receiver,
{
}

/// Where no caps can be built, the flow stops as not negotiated, the report ends with
/// the whole description, and nothing changes.
pub proof fn law_rejected_description_is_reported<R, B, A, V, C>(
    state: State<R, A, V, C>,
    buffer: Buffer<B, A, V>,
    description: String,
    result: Result<NewBuffer<B>, CapsError>,
    next: State<R, A, V, C>,
)
    requires
        state.builds(buffer, Err(description), result, next),
    ensures
        next == state,
        result matches Err(error) && {
            &&& error.flow == FlowError::NotNegotiated
            &&& error.message.code == ErrorCode::ResourceSettings
            &&& error.message.text@ == "Invalid audio info received: "@ + description@
        },
{
}

/// An error says a code and a text exactly if these are its own.
pub proof fn law_error_says_its_code_and_text(
    error: ErrorMessage,
    code: ErrorCode,
    text: Seq<char>,
)
    ensures
        error.says(code, text) <==> error.code == code && error.text@ == text,
{
}

/// The caps that are looked up for a stream are that stream's.
pub proof fn law_caps_belong_to_their_stream<R, A, V, C>(state: State<R, A, V, C>)
    ensures
        state.caps_of(StreamType::Audio) == state.audio_caps,
        state.caps_of(StreamType::Video) == state.video_caps,
{
}

/// A captured video buffer that is finished with at once is handed out as it came, as
/// video, without a latency message, and its description compared equal to the one
/// known for video. One that needs caps first is handed back whole, and either no
/// video was known or the comparison said otherwise.
pub proof fn law_captured_video_is_compared_with_video<R, B, A: PartialEq, V: PartialEq, C>(
    state: State<R, A, V, C>,
    media: MediaBuffer<B>,
    info: V,
    step: CreateStep<B, A, V>,
)
    requires
        state.decides(ReceiverItem::Buffer(Buffer::Video(media, info)), step),
    ensures
        match step {
            CreateStep::BuildCaps(buffer) => {
                &&& buffer == Buffer::<B, A, V>::Video(media, info)
                &&& match state.video_info {
                    Some(known) => call_ensures(<V as PartialEq>::eq, (&known, &info), false),
                    None => true,
                }
            },
            CreateStep::Finished(result) => {
                &&& result matches Ok(new) && new.stream == StreamType::Video && new.buffer == media
                    && !new.latency_changed
                &&& state.video_info matches Some(known) && call_ensures(
                    <V as PartialEq>::eq,
                    (&known, &info),
                    true,
                )
            },
        },
        V::obeys_eq_spec() ==> (step is Finished <==> (state.video_info matches Some(known)
            && known.eq_spec(&info))),
{
}

/// A captured audio buffer that is finished with at once is handed out as it came, as
/// audio, without a latency message, and its description compared equal to the one
/// known for audio. One that needs caps first is handed back whole, and either no
/// audio was known or the comparison said otherwise.
pub proof fn law_captured_audio_is_compared_with_audio<R, B, A: PartialEq, V: PartialEq, C>(
    state: State<R, A, V, C>,
    media: MediaBuffer<B>,
    info: A,
    step: CreateStep<B, A, V>,
)
    requires
        state.decides(ReceiverItem::Buffer(Buffer::Audio(media, info)), step),
    ensures
        match step {
            CreateStep::BuildCaps(buffer) => {
                &&& buffer == Buffer::<B, A, V>::Audio(media, info)
                &&& match state.audio_info {
                    Some(known) => call_ensures(<A as PartialEq>::eq, (&known, &info), false),
                    None => true,
                }
            },
            CreateStep::Finished(result) => {
                &&& result matches Ok(new) && new.stream == StreamType::Audio && new.buffer == media
                    && !new.latency_changed
                &&& state.audio_info matches Some(known) && call_ensures(
                    <A as PartialEq>::eq,
                    (&known, &info),
                    true,
                )
            },
        },
        A::obeys_eq_spec() ==> (step is Finished <==> (state.audio_info matches Some(known)
            && known.eq_spec(&info))),
{
}

/// Where descriptions are numbers, caps are built exactly for a buffer whose number is
/// not the one known for its stream, whatever else is known.
pub proof fn law_numbered_streams_are_told_apart<R, B, C>(
    state: State<R, u64, u64, C>,
    buffer: Buffer<B, u64, u64>,
    step: CreateStep<B, u64, u64>,
)
    requires
        state.decides(ReceiverItem::Buffer(buffer), step),
    ensures
        step is BuildCaps <==> match buffer {
            Buffer::Audio(_, info) => state.audio_info != Some(info),
            Buffer::Video(_, info) => state.video_info != Some(info),
        },
{
}

/// A capture without a buffer ends the flow: at a timeout as the end of the stream,
/// while flushing as flushing, and at an error of the receiver with that very error.
pub proof fn law_capture_without_buffer_ends_the_flow<R, B, A: PartialEq, V: PartialEq, C>(
    state: State<R, A, V, C>,
    error: FlowError,
    at_timeout: CreateStep<B, A, V>,
    at_flush: CreateStep<B, A, V>,
    at_error: CreateStep<B, A, V>,
)
    requires
        state.decides(ReceiverItem::Timeout, at_timeout),
        state.decides(ReceiverItem::Flushing, at_flush),
        state.decides(ReceiverItem::Error(error), at_error),
    ensures
        at_timeout matches CreateStep::Finished(Err(reason)) && reason == FlowError::Eos,
        at_flush matches CreateStep::Finished(Err(reason)) && reason == FlowError::Flushing,
        at_error matches CreateStep::Finished(Err(reason)) && reason == error,
{
}

/// Taking the receiver out or putting one in changes nothing else that is known.
pub proof fn law_receiver_comes_and_goes_alone<R, A, V, C>(
    state: State<R, A, V, C>,
    receiver: Option<R>,
)
    ensures
        state.with_receiver(receiver).receiver == receiver,
        state.with_receiver(receiver).audio_info == state.audio_info,
        state.with_receiver(receiver).audio_caps == state.audio_caps,
        state.with_receiver(receiver).video_info == state.video_info,
        state.with_receiver(receiver).video_caps == state.video_caps,
        state.with_receiver(receiver).current_latency == state.current_latency,
{
}

/// In the empty state nothing is known: every first buffer needs caps, and no capture
/// can begin.
pub proof fn law_empty_state_knows_nothing<R, B, A: PartialEq, V: PartialEq, C>(
    buffer: Buffer<B, A, V>,
    step: CreateStep<B, A, V>,
)
    requires
        State::<R, A, V, C>::empty().decides(ReceiverItem::Buffer(buffer), step),
    ensures
        step == CreateStep::<B, A, V>::BuildCaps(buffer),
        State::<R, A, V, C>::empty().audio_info is None,
        State::<R, A, V, C>::empty().audio_caps is None,
        State::<R, A, V, C>::empty().video_info is None,
        State::<R, A, V, C>::empty().video_caps is None,
        State::<R, A, V, C>::empty().current_latency is None,
        State::<R, A, V, C>::empty().receiver is None,
{
}

/// Whatever happened to a new element, a stream is described exactly if caps are known
/// for it, and a latency is known only together with a video stream. So a buffer that
/// is finished with at once has caps waiting for the stream that it is handed out as.
pub proof fn law_every_run_has_caps_for_what_it_hands_out<
    R,
    H,
    B,
    A: PartialEq,
    V: PartialEq,
    C,
>(
    default_receiver_ndi_name: Seq<char>,
    events: Seq<Event<R, H, B, A, V, C>>,
    buffer: Buffer<B, A, V>,
    step: CreateStep<B, A, V>,
)
    requires
        after_all(
            NdiSrcView::<R, H, A, V, C>::initial(default_receiver_ndi_name),
            events,
        ).state.decides(ReceiverItem::Buffer(buffer), step),
    ensures
        ({
            let state = after_all(
                NdiSrcView::<R, H, A, V, C>::initial(default_receiver_ndi_name),
                events,
            ).state;
            &&& state.audio_info is Some <==> state.audio_caps is Some
            &&& state.video_info is Some <==> state.video_caps is Some
            &&& state.current_latency is Some ==> state.video_info is Some
            &&& step matches CreateStep::Finished(Ok(new)) ==> state.caps_of(new.stream) is Some
        }),
{
    law_every_run_is_well_formed(default_receiver_ndi_name, events);
}

} // verus!
