//! What the element knows about its connection while it is started, and how one
//! captured item changes that.
use crate::framework::{ErrorCode, ErrorMessage, FlowError};
use vstd::prelude::*;
use vstd::std_specs::cmp::PartialEqSpec;

verus! {

/// The kind of stream that a buffer belongs to.
#[derive(Clone, Copy, Debug, PartialEq, Eq, Structural)]
pub enum StreamType {
    Audio,
    Video,
}

/// A media buffer: what it carries, and how many nanoseconds it lasts if that
/// is known.
#[derive(Debug, PartialEq, Eq)]
pub struct MediaBuffer<B> {
    pub payload: B,
    pub duration: Option<u64>,
}

/// A captured buffer together with the description of its stream.
#[derive(Debug, PartialEq, Eq)]
pub enum Buffer<B, A, V> {
    Audio(MediaBuffer<B>, A),
    Video(MediaBuffer<B>, V),
}

impl<B, A, V> Buffer<B, A, V> {
    /// The stream that the buffer belongs to.
    pub open spec fn stream(self) -> StreamType {
        match self {
            Buffer::Audio(..) => StreamType::Audio,
            Buffer::Video(..) => StreamType::Video,
        }
    }

    /// The buffer without the description of its stream.
    pub open spec fn media(self) -> MediaBuffer<B> {
        match self {
            Buffer::Audio(media, _) => media,
            Buffer::Video(media, _) => media,
        }
    }

    /// The buffer as it is pushed.
    pub open spec fn ready(self, latency_changed: bool) -> NewBuffer<B> {
        NewBuffer { buffer: self.media(), stream: self.stream(), latency_changed }
    }
}

/// What one capture of the receiver ends with.
#[derive(Debug, PartialEq, Eq)]
pub enum ReceiverItem<B, A, V> {
    Buffer(Buffer<B, A, V>),
    Timeout,
    Flushing,
    Error(FlowError),
}

/// A buffer that is ready to be pushed, once the caps of its stream have been
/// attached to it.
#[derive(Debug, PartialEq, Eq)]
pub struct NewBuffer<B> {
    pub buffer: MediaBuffer<B>,
    pub stream: StreamType,
    /// Whether a latency message is due.
    pub latency_changed: bool,
}

/// What is to be done with a captured item.
#[derive(Debug, PartialEq, Eq)]
pub enum CreateStep<B, A, V> {
    /// The stream is new or has changed: its caps have to be built first.
    BuildCaps(Buffer<B, A, V>),
    /// The capture is over.
    Finished(Result<NewBuffer<B>, FlowError>),
}

/// Caps could not be built: the error to report, and the reason to stop with.
#[derive(Debug, PartialEq, Eq)]
pub struct CapsError {
    pub message: ErrorMessage,
    pub flow: FlowError,
}

/// What the element knows while it is started.
///
/// `R` is the receiver, `A` and `V` describe an audio and a video stream, and
/// `C` are the caps that are built from such a description.
#[derive(Debug, PartialEq, Eq)]
pub struct State<R, A, V, C> {
    pub video_info: Option<V>,
    pub video_caps: Option<C>,
    pub audio_info: Option<A>,
    pub audio_caps: Option<C>,
    /// The duration of the frame with which the video stream last changed, in
    /// nanoseconds.
    pub current_latency: Option<u64>,
    /// The receiver; absent while a capture is running.
    pub receiver: Option<R>,
}

/// Whether `info` describes the stream that `known` describes.
pub open spec fn is_known<T: PartialEq>(known: Option<T>, info: T) -> bool {
    match known {
        Some(current) => current.eq_spec(&info),
        None => false,
    }
}

/// Whether `same` is what a comparison of `info` with `known` by `==` yields.
pub open spec fn compares<T: PartialEq>(known: Option<T>, info: T, same: bool) -> bool {
    match known {
        Some(current) => call_ensures(<T as PartialEq>::eq, (&current, &info), same),
        None => !same,
    }
}

/// Compares the description of a stream with the one known so far.
pub fn same_info<T: PartialEq>(known: &Option<T>, info: &T) -> (same: bool)
    ensures
        compares(*known, *info, same),
        T::obeys_eq_spec() ==> same == is_known(*known, *info),
{
    match known {
        Some(current) => current.eq(info),
        None => false,
    }
}

impl<R, A, V, C> State<R, A, V, C> {
    /// The state in which nothing is known.
    pub open spec fn empty() -> Self {
        State {
            video_info: None,
            video_caps: None,
            audio_info: None,
            audio_caps: None,
            current_latency: None,
            receiver: None,
        }
    }

    /// Caps are known for exactly the streams that are described, and a latency
    /// is known only once a video stream is.
    pub open spec fn well_formed(self) -> bool {
        &&& self.audio_info is Some <==> self.audio_caps is Some
        &&& self.video_info is Some <==> self.video_caps is Some
        &&& self.current_latency is Some ==> self.video_info is Some
    }

    /// The caps known for `stream`.
    pub open spec fn caps_of(self, stream: StreamType) -> Option<C> {
        match stream {
            StreamType::Audio => self.audio_caps,
            StreamType::Video => self.video_caps,
        }
    }

    /// The same state, holding `receiver`.
    pub open spec fn with_receiver(self, receiver: Option<R>) -> Self {
        State { receiver, ..self }
    }

    /// The same state, with `buffer`'s stream described as in `buffer` and with
    /// the caps `caps`. A video buffer also brings its duration as the latency.
    pub open spec fn with_stream<B>(self, buffer: Buffer<B, A, V>, caps: C) -> Self {
        match buffer {
            Buffer::Audio(_, info) => State {
                audio_info: Some(info),
                audio_caps: Some(caps),
                ..self
            },
            Buffer::Video(media, info) => State {
                video_info: Some(info),
                video_caps: Some(caps),
                current_latency: media.duration,
                ..self
            },
        }
    }
}

impl<R, A: PartialEq, V: PartialEq, C> State<R, A, V, C> {
    /// Whether `==` on descriptions of `buffer`'s stream is a function of the two
    /// descriptions.
    pub open spec fn comparable<B>(buffer: Buffer<B, A, V>) -> bool {
        match buffer {
            Buffer::Audio(..) => A::obeys_eq_spec(),
            Buffer::Video(..) => V::obeys_eq_spec(),
        }
    }

    /// Whether `same` is what a comparison of `buffer`'s stream with the one known so
    /// far yields.
    pub open spec fn compares<B>(self, buffer: Buffer<B, A, V>, same: bool) -> bool {
        match buffer {
            Buffer::Audio(_, info) => compares(self.audio_info, info, same),
            Buffer::Video(_, info) => compares(self.video_info, info, same),
        }
    }

    /// Whether `buffer`'s stream is the one known so far.
    pub open spec fn knows<B>(self, buffer: Buffer<B, A, V>) -> bool {
        match buffer {
            Buffer::Audio(_, info) => is_known(self.audio_info, info),
            Buffer::Video(_, info) => is_known(self.video_info, info),
        }
    }

    /// Whether `step` is what becomes of the captured `item`: caps are built for a
    /// buffer whose stream is not the one known so far, as `==` has it, and
    /// everything else is finished with.
    pub open spec fn decides<B>(
        self,
        item: ReceiverItem<B, A, V>,
        step: CreateStep<B, A, V>,
    ) -> bool {
        match item {
            ReceiverItem::Buffer(buffer) => {
                &&& self.compares(buffer, step is Finished)
                &&& Self::comparable(buffer) ==> (step is BuildCaps <==> !self.knows(buffer))
                &&& match step {
                    CreateStep::BuildCaps(unknown) => unknown == buffer,
                    CreateStep::Finished(result) => {
                        &&& result == Ok::<NewBuffer<B>, FlowError>(buffer.ready(false))
                        &&& self.well_formed() ==> self.caps_of(buffer.stream()) is Some
                    },
                }
            },
            ReceiverItem::Timeout => step == CreateStep::<B, A, V>::Finished(Err(FlowError::Eos)),
            ReceiverItem::Flushing => step == CreateStep::<B, A, V>::Finished(
                Err(FlowError::Flushing),
            ),
            ReceiverItem::Error(error) => step == CreateStep::<B, A, V>::Finished(Err(error)),
        }
    }
}

/// The text of the report about a stream that no caps can be built for, where
/// `description` is the stream's description.
pub open spec fn invalid_info_text(description: Seq<char>) -> Seq<char> {
    "Invalid audio info received: "@ + description
}

impl<R, A, V, C> State<R, A, V, C> {
    /// Whether `result` and the state `next` are what becomes of `buffer` and of this
    /// state once its stream's caps are `Ok`, or could not be built from the
    /// description that is given instead.
    pub open spec fn builds<B>(
        self,
        buffer: Buffer<B, A, V>,
        caps: Result<C, String>,
        result: Result<NewBuffer<B>, CapsError>,
        next: Self,
    ) -> bool {
        match caps {
            Ok(c) => {
                &&& next == self.with_stream(buffer, c)
                &&& result == Ok::<NewBuffer<B>, CapsError>(
                    buffer.ready(self.current_latency != next.current_latency),
                )
            },
            Err(description) => {
                &&& next == self
                &&& result matches Err(error)
                &&& error.flow == FlowError::NotNegotiated
                &&& error.message.says(
                    ErrorCode::ResourceSettings,
                    invalid_info_text(description@),
                )
            },
        }
    }
}

impl<R, A, V, C> Default for State<R, A, V, C> {
    fn default() -> (state: Self)
        ensures
            state == Self::empty(),
            state.well_formed(),
    {
        State {
            video_info: None,
            video_caps: None,
            audio_info: None,
            audio_caps: None,
            current_latency: None,
            receiver: None,
        }
    }
}

impl<R, A, V, C> State<R, A, V, C> {
    /// Takes the receiver out for a capture.
    pub fn take_receiver(&mut self) -> (receiver: Result<R, FlowError>)
        ensures
            *final(self) == old(self).with_receiver(None),
            receiver == (match old(self).receiver {
                Some(r) => Ok::<R, FlowError>(r),
                None => Err(FlowError::Error),
            }),
    {
        match self.receiver.take() {
            Some(receiver) => Ok(receiver),
            None => Err(FlowError::Error),
        }
    }

    /// Goes on with `buffer` after its stream's caps were built, or could not
    /// be, in which case the stream's description is given instead.
    pub fn caps_built<B>(
        &mut self,
        buffer: Buffer<B, A, V>,
        caps: Result<C, String>,
    ) -> (result: Result<NewBuffer<B>, CapsError>)
        ensures
            old(self).builds(buffer, caps, result, *final(self)),
            old(self).well_formed() ==> final(self).well_formed(),
    {
        let caps: C = match caps {
            Ok(caps) => caps,
            Err(description) => {
                let mut text = "Invalid audio info received: ".to_owned();
                text.append(description.as_str());
                return Err(
                    CapsError {
                        message: ErrorMessage { code: ErrorCode::ResourceSettings, text },
                        flow: FlowError::NotNegotiated,
                    },
                );
            },
        };
        match buffer {
            Buffer::Audio(media, info) => {
                self.audio_info = Some(info);
                self.audio_caps = Some(caps);
                Ok(NewBuffer { buffer: media, stream: StreamType::Audio, latency_changed: false })
            },
            Buffer::Video(media, info) => {
                self.video_info = Some(info);
                self.video_caps = Some(caps);
                let latency_changed = self.current_latency != media.duration;
                self.current_latency = media.duration;
                Ok(NewBuffer { buffer: media, stream: StreamType::Video, latency_changed })
            },
        }
    }
}

impl<R, A: PartialEq, V: PartialEq, C> State<R, A, V, C> {
    /// Puts the receiver back after a capture and decides what becomes of the
    /// captured item.
    pub fn captured<B>(&mut self, receiver: R, item: ReceiverItem<B, A, V>) -> (step: CreateStep<
        B,
        A,
        V,
    >)
        ensures
            *final(self) == old(self).with_receiver(Some(receiver)),
            old(self).decides(item, step),
            old(self).well_formed() ==> final(self).well_formed(),
    {
        self.receiver = Some(receiver);
        match item {
            ReceiverItem::Buffer(Buffer::Audio(media, info)) => {
                if same_info(&self.audio_info, &info) {
                    CreateStep::Finished(
                        Ok(
                            NewBuffer {
                                buffer: media,
                                stream: StreamType::Audio,
                                latency_changed: false,
                            },
                        ),
                    )
                } else {
                    CreateStep::BuildCaps(Buffer::Audio(media, info))
                }
            },
            ReceiverItem::Buffer(Buffer::Video(media, info)) => {
                if same_info(&self.video_info, &info) {
                    CreateStep::Finished(
                        Ok(
                            NewBuffer {
                                buffer: media,
                                stream: StreamType::Video,
                                latency_changed: false,
                            },
                        ),
                    )
                } else {
                    CreateStep::BuildCaps(Buffer::Video(media, info))
                }
            },
            ReceiverItem::Timeout => CreateStep::Finished(Err(FlowError::Eos)),
            ReceiverItem::Flushing => CreateStep::Finished(Err(FlowError::Flushing)),
            ReceiverItem::Error(error) => CreateStep::Finished(Err(error)),
        }
    }
}

} // verus!
