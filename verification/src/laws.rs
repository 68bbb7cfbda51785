//! What holds of the element as a whole.
use crate::connection::ControlCommand;
use crate::framework::FlowError;
use crate::ndi_src::NdiSrcView;
use crate::property::{law_name_identifies_property, Property, PropertyValueView};
use crate::query::{Query, QueryReply};
use crate::state::{
    compares, is_known, Buffer, CapsError, CreateStep, NewBuffer, ReceiverItem, State, StreamType,
};
use vstd::prelude::*;

verus! {

/// A property that was set reads as the value it was set to. Only the receiver's
/// name, set to no text, reads as the default name.
pub proof fn law_set_property_is_read<R, H, A, V, C>(
    source: NdiSrcView<R, H, A, V, C>,
    name: Seq<char>,
    value: PropertyValueView,
)
    requires
        NdiSrcView::<R, H, A, V, C>::accepts(name, value),
    ensures
        source.set_property(name, value).property(name) == (if name
            == Property::ReceiverNdiName.spec_name() && value == PropertyValueView::Text(None) {
            PropertyValueView::Text(Some(source.default_receiver_ndi_name))
        } else {
            value
        }),
{
    law_name_identifies_property(Property::ReceiverNdiName);
}

/// Setting a property leaves every other property as it was, and everything that
/// is not a property too.
pub proof fn law_set_property_keeps_the_rest<R, H, A, V, C>(
    source: NdiSrcView<R, H, A, V, C>,
    name: Seq<char>,
    value: PropertyValueView,
    other: Seq<char>,
)
    requires
        NdiSrcView::<R, H, A, V, C>::accepts(name, value),
        Property::named(other) is Some,
        other != name,
    ensures
        source.set_property(name, value).property(other) == source.property(other),
        source.set_property(name, value).state == source.state,
        source.set_property(name, value).receiver_controller == source.receiver_controller,
        source.set_property(name, value).default_receiver_ndi_name
            == source.default_receiver_ndi_name,
{
    assert((Property::named(name)->0).spec_name() == name);
    assert((Property::named(other)->0).spec_name() == other);
}

/// Setting a property to the value that it has changes nothing.
pub proof fn law_set_property_to_its_value<R, H, A, V, C>(
    source: NdiSrcView<R, H, A, V, C>,
    name: Seq<char>,
)
    requires
        Property::named(name) is Some,
    ensures
        NdiSrcView::<R, H, A, V, C>::accepts(name, source.property(name)),
        source.set_property(name, source.property(name)) == source,
{
}

/// Of two values that a property is set to, the last one counts.
pub proof fn law_last_set_property_counts<R, H, A, V, C>(
    source: NdiSrcView<R, H, A, V, C>,
    name: Seq<char>,
    first: PropertyValueView,
    last: PropertyValueView,
)
    requires
        NdiSrcView::<R, H, A, V, C>::accepts(name, first),
        NdiSrcView::<R, H, A, V, C>::accepts(name, last),
    ensures
        source.set_property(name, first).set_property(name, last) == source.set_property(
            name,
            last,
        ),
{
}

/// Every property is declared, once, and can be set to each of the values that its
/// declaration admits.
pub proof fn law_declarations_are_complete<R, H, A, V, C>(
    property: Property,
    value: PropertyValueView,
    default_receiver_ndi_name: Seq<char>,
)
    ensures
        Property::declared().contains(property),
        Property::declared().no_duplicates(),
        property.spec_range(default_receiver_ndi_name).admits(value)
            ==> NdiSrcView::<R, H, A, V, C>::accepts(property.spec_name(), value),
{
    law_name_identifies_property(property);
    let declared = Property::declared();
    let index: int = match property {
        Property::NdiName => 0,
        Property::UrlAddress => 1,
        Property::ReceiverNdiName => 2,
        Property::ConnectTimeout => 3,
        Property::Timeout => 4,
        Property::MaxQueueLength => 5,
        Property::Bandwidth => 6,
        Property::ColorFormat => 7,
        Property::TimestampMode => 8,
    };
    assert(declared[index] == property);
}

/// A new element's properties have the values that their declarations name as the
/// defaults, and the declarations admit these.
pub proof fn law_properties_start_with_their_defaults<R, H, A, V, C>(
    property: Property,
    default_receiver_ndi_name: Seq<char>,
)
    ensures
        ({
            let source = NdiSrcView::<R, H, A, V, C>::initial(default_receiver_ndi_name);
            let range = property.spec_range(default_receiver_ndi_name);
            source.property(property.spec_name()) == range.default_value() && range.admits(
                range.default_value(),
            )
        }),
{
    law_name_identifies_property(property);
}

/// Properties that are set to admitted values alone keep to admitted values.
pub proof fn law_properties_stay_in_range<R, H, A, V, C>(
    source: NdiSrcView<R, H, A, V, C>,
    set: Property,
    value: PropertyValueView,
    read: Property,
)
    requires
        set.spec_range(source.default_receiver_ndi_name).admits(value),
        read.spec_range(source.default_receiver_ndi_name).admits(
            source.property(read.spec_name()),
        ),
    ensures
        read.spec_range(source.default_receiver_ndi_name).admits(
            source.set_property(set.spec_name(), value).property(read.spec_name()),
        ),
{
    law_name_identifies_property(set);
    law_name_identifies_property(read);
}

/// While an element stops, it keeps its receiver and all it knows, but tells the
/// receiver nothing more.
pub proof fn law_stopping_keeps_the_receiver<R, H, A, V, C>(
    source: NdiSrcView<R, H, A, V, C>,
    command: ControlCommand,
    told: Option<(&H, ControlCommand)>,
)
    ensures
        source.without_controller().state == source.state,
        source.without_controller().tells(command, told) ==> told is None,
        source.without_controller().with_state(State::empty()) == source.stopped(),
{
}

/// A stopped element holds no receiver and tells none anything, knows no latency,
/// and has kept its properties. To stop it again, or to start it, changes nothing.
pub proof fn law_stopped_source_is_quiet<R, H, A, V, C>(
    source: NdiSrcView<R, H, A, V, C>,
    command: ControlCommand,
    told: Option<(&H, ControlCommand)>,
)
    ensures
        source.stopped().state.receiver is None,
        source.stopped().tells(command, told) ==> told is None,
        source.stopped().answer(Query::Latency) == QueryReply::Unanswered,
        source.stopped().settings == source.settings,
        source.stopped().stopped() == source.stopped(),
        source.stopped().with_state(State::empty()) == source.stopped(),
{
}

/// Starting forgets everything about an earlier connection but the handle that
/// controls it, and a new connection replaces that too.
pub proof fn law_new_connection_replaces_the_old<R, H, A, V, C>(
    source: NdiSrcView<R, H, A, V, C>,
    receiver: R,
    controller: H,
)
    ensures
        source.with_state(State::empty()).connected(receiver, controller)
            == source.stopped().connected(receiver, controller),
        source.connected(receiver, controller).stopped() == source.stopped(),
{
}

/// While a capture runs the receiver is away, so that no second one can begin;
/// when the receiver is back, the element is as it was before.
pub proof fn law_capture_gives_the_receiver_back<R, H, A, V, C>(
    source: NdiSrcView<R, H, A, V, C>,
    receiver: R,
)
    requires
        source.state.receiver == Some(receiver),
    ensures
        ({
            let capturing = source.with_state(source.state.with_receiver(None));
            capturing.state.receiver is None && capturing.with_state(
                capturing.state.with_receiver(Some(receiver)),
            ) == source
        }),
{
}

/// A capture whose buffer needs caps changes nothing but what is known of that
/// buffer's stream; if the caps cannot be built, it changes nothing at all.
pub proof fn law_create_changes_only_its_stream<R, H, B, A, V, C>(
    source: NdiSrcView<R, H, A, V, C>,
    receiver: R,
    buffer: Buffer<B, A, V>,
    caps: C,
)
    requires
        source.state.receiver == Some(receiver),
    ensures
        ({
            let begun = Event::<R, H, B, A, V, C>::BeginCreate;
            let captured = Event::<R, H, B, A, V, C>::Captured { receiver };
            let built = Event::CapsBuilt { buffer, caps };
            &&& after(after(source, begun), captured) == source
            &&& after(after(after(source, begun), captured), built) == source.with_state(
                source.state.with_stream(buffer, caps),
            )
        }),
{
}

/// Whether `first` and `second` belong to one stream and describe it alike.
pub open spec fn same_stream<B, A: PartialEq, V: PartialEq>(
    first: Buffer<B, A, V>,
    second: Buffer<B, A, V>,
) -> bool {
    match (first, second) {
        (Buffer::Audio(_, known), Buffer::Audio(_, info)) => is_known(Some(known), info),
        (Buffer::Video(_, known), Buffer::Video(_, info)) => is_known(Some(known), info),
        _ => false,
    }
}

/// What becomes of a captured item is determined by the item and by what is known,
/// wherever `==` on descriptions is a function of the two descriptions.
pub proof fn law_capture_is_determined<R, B, A: PartialEq, V: PartialEq, C>(
    state: State<R, A, V, C>,
    item: ReceiverItem<B, A, V>,
    first: CreateStep<B, A, V>,
    second: CreateStep<B, A, V>,
)
    requires
        item matches ReceiverItem::Buffer(buffer) ==> State::<R, A, V, C>::comparable(buffer),
        state.decides(item, first),
        state.decides(item, second),
    ensures
        first == second,
{
}

/// The state in which a capture ends and what it ends with, where `state` is what was
/// known before and `caps` are what is built for a stream that is not known, if
/// anything can be.
pub open spec fn create_outcome<R, B, A: PartialEq, V: PartialEq, C>(
    state: State<R, A, V, C>,
    receiver: R,
    item: ReceiverItem<B, A, V>,
    caps: Option<C>,
) -> (State<R, A, V, C>, Result<NewBuffer<B>, FlowError>) {
    let state = state.with_receiver(Some(receiver));
    match item {
        ReceiverItem::Buffer(buffer) => if state.knows(buffer) {
            (state, Ok(buffer.ready(false)))
        } else {
            match caps {
                Some(caps) => {
                    let next = state.with_stream(buffer, caps);
                    (next, Ok(buffer.ready(state.current_latency != next.current_latency)))
                },
                None => (state, Err(FlowError::NotNegotiated)),
            }
        },
        ReceiverItem::Timeout => (state, Err(FlowError::Eos)),
        ReceiverItem::Flushing => (state, Err(FlowError::Flushing)),
        ReceiverItem::Error(error) => (state, Err(error)),
    }
}

/// How a capture ends, and in which state, is determined by what was known before,
/// by the item and by the caps that are built, wherever `==` on descriptions is a
/// function of the two descriptions.
pub proof fn law_create_is_determined<R, B, A: PartialEq, V: PartialEq, C>(
    state: State<R, A, V, C>,
    receiver: R,
    item: ReceiverItem<B, A, V>,
    step: CreateStep<B, A, V>,
    caps: Result<C, String>,
    result: Result<NewBuffer<B>, CapsError>,
    next: State<R, A, V, C>,
)
    requires
        item matches ReceiverItem::Buffer(buffer) ==> State::<R, A, V, C>::comparable(buffer),
        state.decides(item, step),
        match step {
            CreateStep::Finished(_) => next == state.with_receiver(Some(receiver)),
            CreateStep::BuildCaps(buffer) => state.with_receiver(Some(receiver)).builds(
                buffer,
                caps,
                result,
                next,
            ),
        },
    ensures
        ({
            let ended: Result<NewBuffer<B>, FlowError> = match step {
                CreateStep::Finished(ended) => ended,
                CreateStep::BuildCaps(_) => match result {
                    Ok(new) => Ok(new),
                    Err(error) => Err(error.flow),
                },
            };
            let built: Option<C> = match caps {
                Ok(caps) => Some(caps),
                Err(_) => None,
            };
            (next, ended) == create_outcome(state, receiver, item, built)
        }),
{
}

/// What becomes known of one stream leaves the other stream's caps as they were,
/// and only a video stream brings a latency.
pub proof fn law_streams_are_independent<R, B, A, V, C>(
    state: State<R, A, V, C>,
    buffer: Buffer<B, A, V>,
    caps: C,
    stream: StreamType,
)
    ensures
        state.with_stream(buffer, caps).caps_of(stream) == (if stream == buffer.stream() {
            Some(caps)
        } else {
            state.caps_of(stream)
        }),
        buffer.stream() == StreamType::Audio ==> state.with_stream(buffer, caps).current_latency
            == state.current_latency,
        buffer.stream() == StreamType::Video ==> state.with_stream(buffer, caps).current_latency
            == buffer.media().duration,
        state.with_stream(buffer, caps).receiver == state.receiver,
{
}

/// Whether the caps that `state` knows were built from the descriptions that it
/// knows, where `audio` and `video` say which caps are built from which
/// description.
pub open spec fn caps_fit<R, A, V, C>(
    state: State<R, A, V, C>,
    audio: spec_fn(A, C) -> bool,
    video: spec_fn(V, C) -> bool,
) -> bool {
    &&& state.audio_info matches Some(info) ==> (state.audio_caps matches Some(caps) ==> audio(
        info,
        caps,
    ))
    &&& state.video_info matches Some(info) ==> (state.video_caps matches Some(caps) ==> video(
        info,
        caps,
    ))
}

/// Whether `event`, if it brings caps, brings caps that were built from the
/// description that comes with the buffer.
pub open spec fn brings_fitting_caps<R, H, B, A, V, C>(
    event: Event<R, H, B, A, V, C>,
    audio: spec_fn(A, C) -> bool,
    video: spec_fn(V, C) -> bool,
) -> bool {
    match event {
        Event::CapsBuilt { buffer: Buffer::Audio(_, info), caps } => audio(info, caps),
        Event::CapsBuilt { buffer: Buffer::Video(_, info), caps } => video(info, caps),
        _ => true,
    }
}

/// Whatever happens to a new element, the caps that it knows fit the descriptions
/// that it knows, as long as caps are built from the description that comes with the
/// buffer.
pub proof fn law_known_caps_fit<R, H, B, A, V, C>(
    default_receiver_ndi_name: Seq<char>,
    events: Seq<Event<R, H, B, A, V, C>>,
    audio: spec_fn(A, C) -> bool,
    video: spec_fn(V, C) -> bool,
)
    requires
        forall|i: int|
            0 <= i < events.len() ==> brings_fitting_caps(#[trigger] events[i], audio, video),
    ensures
        caps_fit(
            after_all(
                NdiSrcView::<R, H, A, V, C>::initial(default_receiver_ndi_name),
                events,
            ).state,
            audio,
            video,
        ),
    decreases events.len(),
{
    if events.len() > 0 {
        assert forall|i: int| 0 <= i < events.len() - 1 implies brings_fitting_caps(
            #[trigger] events.drop_last()[i],
            audio,
            video,
        ) by {
            assert(events[i] == events.drop_last()[i]);
        }
        law_known_caps_fit(default_receiver_ndi_name, events.drop_last(), audio, video);
        assert(brings_fitting_caps(events[events.len() - 1], audio, video));
    }
}

/// A buffer that is finished with at once has caps waiting for it, and they were
/// built from a description that equals the buffer's own.
pub proof fn law_attached_caps_fit<R, B, A: PartialEq, V: PartialEq, C>(
    state: State<R, A, V, C>,
    buffer: Buffer<B, A, V>,
    result: Result<NewBuffer<B>, FlowError>,
    audio: spec_fn(A, C) -> bool,
    video: spec_fn(V, C) -> bool,
)
    requires
        state.well_formed(),
        caps_fit(state, audio, video),
        state.decides(ReceiverItem::Buffer(buffer), CreateStep::Finished(result)),
    ensures
        state.caps_of(buffer.stream()) matches Some(caps) && match buffer {
            Buffer::Audio(_, info) => exists|known: A| #[trigger]
                compares(Some(known), info, true) && audio(known, caps),
            Buffer::Video(_, info) => exists|known: V| #[trigger]
                compares(Some(known), info, true) && video(known, caps),
        },
{
    match buffer {
        Buffer::Audio(_, info) => {
            assert(compares(Some(state.audio_info->0), info, true));
        },
        Buffer::Video(_, info) => {
            assert(compares(Some(state.video_info->0), info, true));
        },
    }
}

/// The least latency that the element answers with; nothing if it has no answer.
pub open spec fn least_latency<R, H, A, V, C>(source: NdiSrcView<R, H, A, V, C>) -> Option<u64> {
    match source.answer(Query::Latency) {
        QueryReply::Latency { min, .. } => Some(min),
        _ => None,
    }
}

/// The least latency never exceeds the greatest, provided that anything may wait
/// in the queue at all.
pub proof fn law_latency_bounds_are_ordered<R, H, A, V, C>(source: NdiSrcView<R, H, A, V, C>)
    requires
        source.can_answer(Query::Latency),
        source.settings.max_queue_length > 0,
    ensures
        source.answer(Query::Latency) matches QueryReply::Latency { live, min, max } ==> live && min
            <= max,
{
    if let Some(latency) = source.state.current_latency {
        assert(latency <= source.settings.max_queue_length * latency) by (nonlinear_arith)
            requires
                source.settings.max_queue_length > 0,
        ;
    }
}

/// Setting a property changes the least latency only where a latency message is
/// due: where the timestamp mode changes.
pub proof fn law_property_changes_latency_with_message<R, H, A, V, C>(
    source: NdiSrcView<R, H, A, V, C>,
    name: Seq<char>,
    value: PropertyValueView,
)
    requires
        NdiSrcView::<R, H, A, V, C>::accepts(name, value),
        least_latency(source.set_property(name, value)) != least_latency(source),
    ensures
        source.set_property(name, value).settings.timestamp_mode != source.settings.timestamp_mode,
        name == Property::TimestampMode.spec_name(),
{
    assert((Property::named(name)->0).spec_name() == name);
}

/// A new stream changes the latency that the element answers with only where a
/// latency message is due: where a video buffer brings another duration.
pub proof fn law_stream_changes_latency_with_message<R, H, B, A, V, C>(
    source: NdiSrcView<R, H, A, V, C>,
    buffer: Buffer<B, A, V>,
    caps: C,
)
    requires
        source.with_state(source.state.with_stream(buffer, caps)).answer(Query::Latency)
            != source.answer(Query::Latency),
    ensures
        buffer.stream() == StreamType::Video,
        buffer.media().duration != source.state.current_latency,
{
}

/// Something that happens to the element.
pub enum Event<R, H, B, A, V, C> {
    SetProperty { name: Seq<char>, value: PropertyValueView },
    Start,
    Connected { receiver: R, controller: H },
    Stop,
    Stopped,
    BeginCreate,
    Captured { receiver: R },
    CapsBuilt { buffer: Buffer<B, A, V>, caps: C },
}

/// The element after `event`.
pub open spec fn after<R, H, B, A, V, C>(
    source: NdiSrcView<R, H, A, V, C>,
    event: Event<R, H, B, A, V, C>,
) -> NdiSrcView<R, H, A, V, C> {
    match event {
        Event::SetProperty { name, value } => source.set_property(name, value),
        Event::Start => source.with_state(State::empty()),
        Event::Connected { receiver, controller } => source.connected(receiver, controller),
        Event::Stop => source.without_controller(),
        Event::Stopped => source.with_state(State::empty()),
        Event::BeginCreate => source.with_state(source.state.with_receiver(None)),
        Event::Captured { receiver } => source.with_state(
            source.state.with_receiver(Some(receiver)),
        ),
        Event::CapsBuilt { buffer, caps } => source.with_state(
            source.state.with_stream(buffer, caps),
        ),
    }
}

/// The element after all of `events`, one after the other.
pub open spec fn after_all<R, H, B, A, V, C>(
    source: NdiSrcView<R, H, A, V, C>,
    events: Seq<Event<R, H, B, A, V, C>>,
) -> NdiSrcView<R, H, A, V, C>
    decreases events.len(),
{
    if events.len() == 0 {
        source
    } else {
        after(after_all(source, events.drop_last()), events.last())
    }
}

/// Whatever happens to a new element, in whatever order: caps are known for
/// exactly the streams that are described, a latency is known only once a video
/// stream is, and the default name stays.
pub proof fn law_every_run_is_well_formed<R, H, B, A, V, C>(
    default_receiver_ndi_name: Seq<char>,
    events: Seq<Event<R, H, B, A, V, C>>,
)
    ensures
        ({
            let source = after_all(
                NdiSrcView::<R, H, A, V, C>::initial(default_receiver_ndi_name),
                events,
            );
            source.state.well_formed() && source.default_receiver_ndi_name
                == default_receiver_ndi_name
        }),
    decreases events.len(),
{
    if events.len() > 0 {
        law_every_run_is_well_formed(default_receiver_ndi_name, events.drop_last());
    }
}

/// Whether `event`, if it sets a property, sets one to a value of its type.
pub open spec fn sets_accepted<R, H, B, A, V, C>(event: Event<R, H, B, A, V, C>) -> bool {
    match event {
        Event::SetProperty { name, value } => NdiSrcView::<R, H, A, V, C>::accepts(name, value),
        _ => true,
    }
}

/// A property keeps its value, whatever happens to the element and whatever other
/// properties are set, until it is set itself.
pub proof fn law_property_lasts_until_set<R, H, B, A, V, C>(
    source: NdiSrcView<R, H, A, V, C>,
    name: Seq<char>,
    events: Seq<Event<R, H, B, A, V, C>>,
)
    requires
        Property::named(name) is Some,
        forall|i: int|
            0 <= i < events.len() ==> sets_accepted(#[trigger] events[i]) && (
            events[i] matches Event::SetProperty { name: other, .. } ==> other != name),
    ensures
        after_all(source, events).property(name) == source.property(name),
        after_all(source, events).default_receiver_ndi_name == source.default_receiver_ndi_name,
    decreases events.len(),
{
    if events.len() > 0 {
        let before = events.drop_last();
        assert forall|i: int| 0 <= i < before.len() implies sets_accepted(#[trigger] before[i]) && (
        before[i] matches Event::SetProperty { name: other, .. } ==> other != name) by {
            assert(events[i] == before[i]);
        }
        law_property_lasts_until_set(source, name, before);
        let last = events[events.len() - 1];
        assert(sets_accepted(last));
        if let Event::SetProperty { name: other, value } = last {
            law_set_property_keeps_the_rest(after_all(source, before), other, value, name);
        }
    }
}

/// A property reads as the value that it was last set to, whatever has happened to
/// the element since. Only the receiver's name, set to no text, reads as the default
/// name.
pub proof fn law_last_write_is_read<R, H, B, A, V, C>(
    source: NdiSrcView<R, H, A, V, C>,
    name: Seq<char>,
    value: PropertyValueView,
    events: Seq<Event<R, H, B, A, V, C>>,
)
    requires
        NdiSrcView::<R, H, A, V, C>::accepts(name, value),
        forall|i: int|
            0 <= i < events.len() ==> sets_accepted(#[trigger] events[i]) && (
            events[i] matches Event::SetProperty { name: other, .. } ==> other != name),
    ensures
        after_all(source.set_property(name, value), events).property(name) == (if name
            == Property::ReceiverNdiName.spec_name() && value == PropertyValueView::Text(None) {
            PropertyValueView::Text(Some(source.default_receiver_ndi_name))
        } else {
            value
        }),
{
    law_set_property_is_read(source, name, value);
    law_property_lasts_until_set(source.set_property(name, value), name, events);
}

/// Whether `event`, if it sets a property, sets one to a value that its declaration
/// admits.
pub open spec fn sets_admitted<R, H, B, A, V, C>(
    event: Event<R, H, B, A, V, C>,
    default_receiver_ndi_name: Seq<char>,
) -> bool {
    match event {
        Event::SetProperty { name, value } => match Property::named(name) {
            Some(property) => property.spec_range(default_receiver_ndi_name).admits(value),
            None => false,
        },
        _ => true,
    }
}

/// Whatever happens to a new element, its properties have values that their
/// declarations admit, as long as they are set to such values alone.
pub proof fn law_every_run_stays_in_range<R, H, B, A, V, C>(
    default_receiver_ndi_name: Seq<char>,
    events: Seq<Event<R, H, B, A, V, C>>,
    property: Property,
)
    requires
        forall|i: int|
            0 <= i < events.len() ==> sets_admitted(
                #[trigger] events[i],
                default_receiver_ndi_name,
            ),
    ensures
        property.spec_range(default_receiver_ndi_name).admits(
            after_all(
                NdiSrcView::<R, H, A, V, C>::initial(default_receiver_ndi_name),
                events,
            ).property(property.spec_name()),
        ),
    decreases events.len(),
{
    let initial = NdiSrcView::<R, H, A, V, C>::initial(default_receiver_ndi_name);
    if events.len() == 0 {
        law_properties_start_with_their_defaults::<R, H, A, V, C>(
            property,
            default_receiver_ndi_name,
        );
    } else {
        let before = events.drop_last();
        assert forall|i: int| 0 <= i < before.len() implies sets_admitted(
            #[trigger] before[i],
            default_receiver_ndi_name,
        ) by {
            assert(events[i] == before[i]);
        }
        law_every_run_stays_in_range(default_receiver_ndi_name, before, property);
        law_every_run_is_well_formed(default_receiver_ndi_name, before);
        let last = events[events.len() - 1];
        assert(sets_admitted(last, default_receiver_ndi_name));
        if let Event::SetProperty { name, value } = last {
            let set = Property::named(name)->0;
            assert(set.spec_name() == name);
            law_properties_stay_in_range(after_all(initial, before), set, value, property);
        }
    }
}

/// Nothing but setting a property changes a property.
pub proof fn law_only_setting_changes_properties<R, H, B, A, V, C>(
    source: NdiSrcView<R, H, A, V, C>,
    events: Seq<Event<R, H, B, A, V, C>>,
)
    requires
        forall|i: int| 0 <= i < events.len() ==> !(#[trigger] events[i] is SetProperty),
    ensures
        after_all(source, events).settings == source.settings,
    decreases events.len(),
{
    if events.len() > 0 {
        assert forall|i: int| 0 <= i < events.len() - 1 implies !(
        #[trigger] events.drop_last()[i] is SetProperty) by {
            assert(events[i] == events.drop_last()[i]);
        }
        law_only_setting_changes_properties(source, events.drop_last());
    }
}

/// A handle to a receiver is kept from the connection until the next stop: as long
/// as none of `events` is a connection or a stop, commands reach the receiver that
/// was connected before them.
pub proof fn law_controller_lasts_until_stop<R, H, B, A, V, C>(
    source: NdiSrcView<R, H, A, V, C>,
    events: Seq<Event<R, H, B, A, V, C>>,
)
    requires
        forall|i: int|
            0 <= i < events.len() ==> !(#[trigger] events[i] is Connected || events[i] is Stop),
    ensures
        after_all(source, events).receiver_controller == source.receiver_controller,
    decreases events.len(),
{
    if events.len() > 0 {
        assert forall|i: int| 0 <= i < events.len() - 1 implies !(
        #[trigger] events.drop_last()[i] is Connected || events.drop_last()[i] is Stop) by {
            assert(events[i] == events.drop_last()[i]);
        }
        law_controller_lasts_until_stop(source, events.drop_last());
    }
}

/// Whether `event` leaves what is known of `stream` alone: the element neither starts
/// nor has stopped, and no caps were built for that stream.
pub open spec fn keeps_stream<R, H, B, A, V, C>(
    event: Event<R, H, B, A, V, C>,
    stream: StreamType,
) -> bool {
    match event {
        Event::Start | Event::Stopped => false,
        Event::CapsBuilt { buffer, .. } => buffer.stream() != stream,
        _ => true,
    }
}

/// What became known of a stream with `buffer` stays known, whatever happens to the
/// element, until the stream changes or the element starts or has stopped.
pub proof fn law_stream_lasts_until_it_changes<R, H, B, A, V, C>(
    source: NdiSrcView<R, H, A, V, C>,
    buffer: Buffer<B, A, V>,
    caps: C,
    events: Seq<Event<R, H, B, A, V, C>>,
)
    requires
        forall|i: int|
            0 <= i < events.len() ==> keeps_stream(#[trigger] events[i], buffer.stream()),
    ensures
        ({
            let state = after_all(after(source, Event::CapsBuilt { buffer, caps }), events).state;
            &&& state.caps_of(buffer.stream()) == Some(caps)
            &&& match buffer {
                Buffer::Audio(_, info) => state.audio_info == Some(info),
                Buffer::Video(media, info) => {
                    &&& state.video_info == Some(info)
                    &&& state.current_latency == media.duration
                },
            }
        }),
    decreases events.len(),
{
    if events.len() > 0 {
        let before = events.drop_last();
        assert forall|i: int| 0 <= i < before.len() implies keeps_stream(
            #[trigger] before[i],
            buffer.stream(),
        ) by {
            assert(events[i] == before[i]);
        }
        law_stream_lasts_until_it_changes(source, buffer, caps, before);
        assert(keeps_stream(events[events.len() - 1], buffer.stream()));
    }
}

/// Once caps were built for a buffer, a later buffer that describes the stream alike
/// is finished with at once, whatever happens to the element in between, until the
/// stream changes or the element starts or has stopped.
pub proof fn law_caps_are_built_once<R, H, B, A: PartialEq, V: PartialEq, C>(
    source: NdiSrcView<R, H, A, V, C>,
    buffer: Buffer<B, A, V>,
    caps: C,
    events: Seq<Event<R, H, B, A, V, C>>,
    next: Buffer<B, A, V>,
    step: CreateStep<B, A, V>,
)
    requires
        State::<R, A, V, C>::comparable(next),
        same_stream(buffer, next),
        forall|i: int|
            0 <= i < events.len() ==> keeps_stream(#[trigger] events[i], buffer.stream()),
        after_all(after(source, Event::CapsBuilt { buffer, caps }), events).state.decides(
            ReceiverItem::Buffer(next),
            step,
        ),
    ensures
        step == CreateStep::<B, A, V>::Finished(Ok(next.ready(false))),
        after_all(after(source, Event::CapsBuilt { buffer, caps }), events).state.caps_of(
            next.stream(),
        ) == Some(caps),
{
    law_stream_lasts_until_it_changes(source, buffer, caps, events);
}

} // verus!
