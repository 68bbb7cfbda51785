//! The source element.
use crate::connection::{ConnectRequest, ControlCommand};
use crate::framework::{ErrorCode, ErrorMessage, FlowError, StateChange};
use crate::property::{Property, PropertyValue, PropertyValueView};
use crate::query::{
    latency_bounds, latency_reply, scheduling, scheduling_reply, Query, QueryReply,
};
use crate::settings::{Settings, SettingsView};
use crate::state::{
    Buffer, CapsError, CreateStep, NewBuffer, ReceiverItem, State, StreamType,
};
use vstd::prelude::*;

verus! {

/// The source element.
///
/// `R` is a connected receiver and `H` the handle that controls it. `A` and `V`
/// describe an audio and a video stream, and `C` are the caps that are built from
/// such a description.
#[derive(Debug)]
pub struct NdiSrc<R, H, A, V, C> {
    settings: Settings,
    state: State<R, A, V, C>,
    receiver_controller: Option<H>,
    default_receiver_ndi_name: String,
}

/// What the element is made of.
#[verifier::ext_equal]
pub struct NdiSrcView<R, H, A, V, C> {
    pub settings: SettingsView,
    pub state: State<R, A, V, C>,
    /// Controls the receiver from the moment it is connected until the element stops.
    pub receiver_controller: Option<H>,
    /// The name that the receiver announces itself as unless told otherwise.
    pub default_receiver_ndi_name: Seq<char>,
}

impl<R, H, A, V, C> View for NdiSrc<R, H, A, V, C> {
    type V = NdiSrcView<R, H, A, V, C>;

    closed spec fn view(&self) -> NdiSrcView<R, H, A, V, C> {
        NdiSrcView {
            settings: self.settings@,
            state: self.state,
            receiver_controller: self.receiver_controller,
            default_receiver_ndi_name: self.default_receiver_ndi_name@,
        }
    }
}

impl<R, H, A, V, C> NdiSrcView<R, H, A, V, C> {
    /// A new element, whose receiver announces itself as
    /// `default_receiver_ndi_name` unless told otherwise.
    pub open spec fn initial(default_receiver_ndi_name: Seq<char>) -> Self {
        NdiSrcView {
            settings: SettingsView::defaults(default_receiver_ndi_name),
            state: State::empty(),
            receiver_controller: None,
            default_receiver_ndi_name,
        }
    }

    /// The same element in the state `state`.
    pub open spec fn with_state(self, state: State<R, A, V, C>) -> Self {
        NdiSrcView { state, ..self }
    }

    /// Whether a property goes by `name` and takes values of the type of `value`.
    pub open spec fn accepts(name: Seq<char>, value: PropertyValueView) -> bool {
        match Property::named(name) {
            Some(property) => property.spec_value_type() == value.value_type(),
            None => false,
        }
    }

    /// The same element with the property that goes by `name` set to `value`.
    pub open spec fn set_property(self, name: Seq<char>, value: PropertyValueView) -> Self {
        NdiSrcView {
            settings: self.settings.set(
                Property::named(name)->0,
                value,
                self.default_receiver_ndi_name,
            ),
            ..self
        }
    }

    /// The value of the property that goes by `name`.
    pub open spec fn property(self, name: Seq<char>) -> PropertyValueView {
        self.settings.get(Property::named(name)->0)
    }

    /// The element after its receiver was connected.
    pub open spec fn connected(self, receiver: R, controller: H) -> Self {
        NdiSrcView {
            state: self.state.with_receiver(Some(receiver)),
            receiver_controller: Some(controller),
            ..self
        }
    }

    /// The same element without a handle to a receiver.
    pub open spec fn without_controller(self) -> Self {
        NdiSrcView { receiver_controller: None, ..self }
    }

    /// The element after it was stopped: it has given up the handle to its receiver,
    /// and then forgotten what it knew.
    pub open spec fn stopped(self) -> Self {
        self.without_controller().with_state(State::empty())
    }

    /// Whether exactly the connected receiver, if there is one, is told `command`:
    /// `told` is the handle to use together with the command.
    pub open spec fn tells(
        self,
        command: ControlCommand,
        told: Option<(&H, ControlCommand)>,
    ) -> bool {
        match self.receiver_controller {
            Some(controller) => told == Some((&controller, command)),
            None => told is None,
        }
    }

    /// Whether there is an answer to `query` that is a time: `u64::MAX` nanoseconds and
    /// more are none.
    pub open spec fn can_answer(self, query: Query) -> bool {
        query is Latency ==> (self.state.current_latency matches Some(latency) ==>
            self.settings.max_queue_length * latency < u64::MAX)
    }

    /// The answer to `query`.
    pub open spec fn answer(self, query: Query) -> QueryReply {
        match query {
            Query::Scheduling => scheduling(),
            Query::Latency => match self.state.current_latency {
                Some(latency) => latency_bounds(
                    self.settings.timestamp_mode,
                    self.settings.max_queue_length,
                    latency,
                ),
                None => QueryReply::Unanswered,
            },
            Query::Other => QueryReply::Parent,
        }
    }
}

impl<R, H, A, V, C> NdiSrc<R, H, A, V, C> {
    /// A new element, whose receiver announces itself as
    /// `default_receiver_ndi_name` unless told otherwise.
    pub fn new(default_receiver_ndi_name: String) -> (source: Self)
        ensures
            source@ == NdiSrcView::<R, H, A, V, C>::initial(default_receiver_ndi_name@),
            source@.state.well_formed(),
    {
        NdiSrc {
            settings: Settings::defaults(default_receiver_ndi_name.as_str()),
            state: State::default(),
            receiver_controller: None,
            default_receiver_ndi_name,
        }
    }

    /// Sets the property that goes by `name` to `value`.
    ///
    /// Returns whether a latency message is due.
    pub fn set_property(&mut self, name: &str, value: PropertyValue) -> (latency_changed: bool)
        requires
            NdiSrcView::<R, H, A, V, C>::accepts(name@, value@),
        ensures
            final(self)@ == old(self)@.set_property(name@, value@),
            latency_changed == (final(self)@.settings.timestamp_mode
                != old(self)@.settings.timestamp_mode),
    {
        match Property::from_name(name) {
            Some(property) => self.settings.set(
                property,
                value,
                self.default_receiver_ndi_name.as_str(),
            ),
            None => false,
        }
    }

    /// Whether a property goes by `name` and takes values of the type of `value`.
    pub fn accepts(name: &str, value: &PropertyValue) -> (accepted: bool)
        ensures
            accepted == NdiSrcView::<R, H, A, V, C>::accepts(name@, value@),
    {
        match Property::from_name(name) {
            Some(property) => property.value_type() == value.value_type(),
            None => false,
        }
    }

    /// The value of the property that goes by `name`.
    pub fn property(&self, name: &str) -> (value: PropertyValue)
        requires
            Property::named(name@) is Some,
        ensures
            value@ == self@.property(name@),
    {
        match Property::from_name(name) {
            Some(property) => self.settings.get(property),
            None => PropertyValue::Text(None),
        }
    }

    /// Decides what the receiver has to be told about `transition`.
    pub fn change_state(&self, transition: StateChange) -> (told: Option<(&H, ControlCommand)>)
        ensures
            match ControlCommand::spec_for_transition(transition) {
                Some(command) => self@.tells(command, told),
                None => told is None,
            },
    {
        match ControlCommand::for_transition(transition) {
            Some(command) => self.tell(command),
            None => None,
        }
    }

    /// Decides what the receiver has to be told so that a running capture ends.
    pub fn unlock(&self) -> (told: Option<(&H, ControlCommand)>)
        ensures
            self@.tells(ControlCommand::SetFlushing(true), told),
    {
        self.tell(ControlCommand::SetFlushing(true))
    }

    /// Decides what the receiver has to be told so that it captures again.
    pub fn unlock_stop(&self) -> (told: Option<(&H, ControlCommand)>)
        ensures
            self@.tells(ControlCommand::SetFlushing(false), told),
    {
        self.tell(ControlCommand::SetFlushing(false))
    }

    /// Addresses `command` to the connected receiver, if there is one.
    fn tell(&self, command: ControlCommand) -> (told: Option<(&H, ControlCommand)>)
        ensures
            self@.tells(command, told),
    {
        match &self.receiver_controller {
            Some(controller) => Some((controller, command)),
            None => None,
        }
    }

    /// Forgets what is known and decides how to connect the receiver.
    pub fn start(&mut self) -> (request: Result<ConnectRequest, ErrorMessage>)
        ensures
            final(self)@ == old(self)@.with_state(State::empty()),
            match request {
                Ok(r) => old(self)@.settings.names_sender() && r.follows(old(self)@.settings),
                Err(error) => !old(self)@.settings.names_sender() && error.says(
                    ErrorCode::LibrarySettings,
                    "No NDI name or URL/address given"@,
                ),
            },
    {
        self.state = State::default();
        match self.settings.connect_request() {
            Some(request) => Ok(request),
            None => Err(
                ErrorMessage {
                    code: ErrorCode::LibrarySettings,
                    text: "No NDI name or URL/address given".to_owned(),
                },
            ),
        }
    }

    /// Goes on after an attempt to connect the receiver, which succeeded if there
    /// is a `connection`.
    pub fn connected(&mut self, connection: Option<(R, H)>) -> (result: Result<(), ErrorMessage>)
        ensures
            match connection {
                Some((receiver, controller)) => {
                    &&& final(self)@ == old(self)@.connected(receiver, controller)
                    &&& result is Ok
                },
                None => {
                    &&& final(self)@ == old(self)@
                    &&& result matches Err(error)
                    &&& error.says(
                        ErrorCode::ResourceNotFound,
                        "Could not connect to this source"@,
                    )
                },
            },
            old(self)@.state.well_formed() ==> final(self)@.state.well_formed(),
    {
        match connection {
            None => Err(
                ErrorMessage {
                    code: ErrorCode::ResourceNotFound,
                    text: "Could not connect to this source".to_owned(),
                },
            ),
            Some((receiver, controller)) => {
                self.receiver_controller = Some(controller);
                self.state.receiver = Some(receiver);
                Ok(())
            },
        }
    }

    /// Gives up the handle to the receiver. The receiver that was connected, if
    /// there was one, has to be told what is returned; it is kept until then, and
    /// [`NdiSrc::stopped`] lets go of it.
    pub fn stop(&mut self) -> (told: Option<(H, ControlCommand)>)
        ensures
            final(self)@ == old(self)@.without_controller(),
            told == (match old(self)@.receiver_controller {
                Some(controller) => Some((controller, ControlCommand::Shutdown)),
                None => None,
            }),
    {
        match self.receiver_controller.take() {
            Some(controller) => Some((controller, ControlCommand::Shutdown)),
            None => None,
        }
    }

    /// Goes on after the receiver was shut down: drops it and forgets what is known.
    pub fn stopped(&mut self)
        ensures
            final(self)@ == old(self)@.with_state(State::empty()),
            final(self)@.state.well_formed(),
    {
        self.state = State::default();
    }

    /// Whether there is an answer to `query` that is a time.
    pub fn can_answer(&self, query: Query) -> (fits: bool)
        ensures
            fits == self@.can_answer(query),
    {
        match (query, self.state.current_latency) {
            (Query::Latency, Some(latency)) => {
                let length: u64 = self.settings.max_queue_length as u64;
                match length.checked_mul(latency) {
                    Some(max) => max < u64::MAX,
                    None => false,
                }
            },
            _ => true,
        }
    }

    /// Answers `query`.
    pub fn query(&self, query: Query) -> (reply: QueryReply)
        requires
            self@.can_answer(query),
        ensures
            reply == self@.answer(query),
    {
        match query {
            Query::Scheduling => scheduling_reply(),
            Query::Latency => match self.state.current_latency {
                Some(latency) => latency_reply(
                    self.settings.timestamp_mode,
                    self.settings.max_queue_length,
                    latency,
                ),
                None => QueryReply::Unanswered,
            },
            Query::Other => QueryReply::Parent,
        }
    }

    /// Takes the receiver out for a capture.
    pub fn begin_create(&mut self) -> (receiver: Result<R, FlowError>)
        ensures
            final(self)@ == old(self)@.with_state(old(self)@.state.with_receiver(None)),
            receiver == (match old(self)@.state.receiver {
                Some(r) => Ok::<R, FlowError>(r),
                None => Err(FlowError::Error),
            }),
            old(self)@.state.well_formed() ==> final(self)@.state.well_formed(),
    {
        self.state.take_receiver()
    }

    /// Goes on with `buffer` after its stream's caps were built, or could not
    /// be, in which case the stream's description is given instead.
    pub fn caps_built<B>(
        &mut self,
        buffer: Buffer<B, A, V>,
        caps: Result<C, String>,
    ) -> (result: Result<NewBuffer<B>, CapsError>)
        ensures
            final(self)@ == old(self)@.with_state(final(self)@.state),
            old(self)@.state.builds(buffer, caps, result, final(self)@.state),
            old(self)@.state.well_formed() ==> final(self)@.state.well_formed(),
    {
        self.state.caps_built(buffer, caps)
    }

    /// The caps known for `stream`.
    pub fn caps(&self, stream: StreamType) -> (caps: Option<&C>)
        ensures
            caps == (match self@.state.caps_of(stream) {
                Some(c) => Some(&c),
                None => None,
            }),
    {
        match stream {
            StreamType::Audio => self.state.audio_caps.as_ref(),
            StreamType::Video => self.state.video_caps.as_ref(),
        }
    }
}

impl<R, H, A: PartialEq, V: PartialEq, C> NdiSrc<R, H, A, V, C> {
    /// Puts the receiver back after a capture and decides what becomes of the
    /// captured item.
    ///
    /// A buffer of a stream that is known is finished with: it only needs the
    /// stream's caps attached.
    pub fn captured<B>(&mut self, receiver: R, item: ReceiverItem<B, A, V>) -> (step: CreateStep<
        B,
        A,
        V,
    >)
        ensures
            final(self)@ == old(self)@.with_state(old(self)@.state.with_receiver(Some(receiver))),
            old(self)@.state.decides(item, step),
            old(self)@.state.well_formed() ==> final(self)@.state.well_formed(),
    {
        self.state.captured(receiver, item)
    }
}

} // verus!
