use ndisrc::framework::{ErrorCode, FlowError};
use ndisrc::ndi_src::NdiSrc;
use ndisrc::property::PropertyValue;
use ndisrc::query::{Query, QueryReply};
use ndisrc::state::{
    Buffer, CreateStep, MediaBuffer, NewBuffer, ReceiverItem, State, StreamType,
};

type Source = NdiSrc<u32, char, u32, (u32, u32), String>;
type Captured = Buffer<u8, u32, (u32, u32)>;

fn connected() -> Source {
    let mut source: Source = NdiSrc::new("receiver".to_string());
    source.set_property("ndi-name", PropertyValue::Text(Some("CAM".to_string())));
    assert!(source.start().is_ok());
    assert!(source.connected(Some((7, 'a'))).is_ok());
    source
}

fn audio(payload: u8, info: u32) -> Captured {
    Buffer::Audio(MediaBuffer { payload, duration: Some(10) }, info)
}

fn video(payload: u8, info: (u32, u32), duration: u64) -> Captured {
    Buffer::Video(MediaBuffer { payload, duration: Some(duration) }, info)
}

fn capture(
    source: &mut Source,
    item: ReceiverItem<u8, u32, (u32, u32)>,
) -> CreateStep<u8, u32, (u32, u32)> {
    let receiver = source.begin_create().unwrap();
    source.captured(receiver, item)
}

fn expect_new(source: &mut Source, buffer: Captured, caps: &str) -> NewBuffer<u8> {
    match capture(source, ReceiverItem::Buffer(buffer)) {
        CreateStep::BuildCaps(buffer) => source.caps_built(buffer, Ok(caps.to_string())).unwrap(),
        step => panic!("{:?}", step),
    }
}

fn expect_known(source: &mut Source, buffer: Captured) -> NewBuffer<u8> {
    match capture(source, ReceiverItem::Buffer(buffer)) {
        CreateStep::Finished(Ok(buffer)) => buffer,
        step => panic!("{:?}", step),
    }
}

#[test]
fn create_without_a_receiver_fails() {
    let mut source: Source = NdiSrc::new("receiver".to_string());
    assert_eq!(source.begin_create(), Err(FlowError::Error));
}

#[test]
fn only_one_capture_runs_at_a_time() {
    let mut source = connected();
    assert_eq!(source.begin_create(), Ok(7));
    assert_eq!(source.begin_create(), Err(FlowError::Error));
    source.captured::<u8>(7, ReceiverItem::Timeout);
    assert_eq!(source.begin_create(), Ok(7));
}

#[test]
fn items_without_a_buffer_end_the_capture() {
    let mut source = connected();
    assert_eq!(
        capture(&mut source, ReceiverItem::Timeout),
        CreateStep::Finished(Err(FlowError::Eos))
    );
    assert_eq!(
        capture(&mut source, ReceiverItem::Flushing),
        CreateStep::Finished(Err(FlowError::Flushing))
    );
    for error in [FlowError::Error, FlowError::NotSupported, FlowError::CustomError1] {
        assert_eq!(
            capture(&mut source, ReceiverItem::Error(error)),
            CreateStep::Finished(Err(error))
        );
    }
    assert_eq!(source.begin_create(), Ok(7));
}

#[test]
fn first_buffer_needs_caps() {
    let mut source = connected();
    assert_eq!(source.caps(StreamType::Audio), None);
    let new = expect_new(&mut source, audio(3, 48000), "audio");
    assert_eq!(new.buffer, MediaBuffer { payload: 3, duration: Some(10) });
    assert_eq!(new.stream, StreamType::Audio);
    assert!(!new.latency_changed);
    assert_eq!(source.caps(StreamType::Audio), Some(&"audio".to_string()));
    assert_eq!(source.caps(StreamType::Video), None);
}

#[test]
fn caps_are_built_once_for_a_stream() {
    let mut source = connected();
    expect_new(&mut source, audio(1, 48000), "audio");
    expect_new(&mut source, video(2, (16, 9), 40), "video");
    capture(&mut source, ReceiverItem::Timeout);
    let known = expect_known(&mut source, audio(3, 48000));
    assert_eq!(known.buffer.payload, 3);
    assert_eq!(known.stream, StreamType::Audio);
    assert!(!known.latency_changed);
    let known = expect_known(&mut source, video(4, (16, 9), 50));
    assert_eq!(known.buffer.payload, 4);
    assert_eq!(known.stream, StreamType::Video);
    assert!(!known.latency_changed);
    assert_eq!(source.caps(StreamType::Audio), Some(&"audio".to_string()));
    assert_eq!(source.caps(StreamType::Video), Some(&"video".to_string()));
}

#[test]
fn changed_stream_needs_new_caps() {
    let mut source = connected();
    expect_new(&mut source, video(1, (16, 9), 40), "wide");
    expect_new(&mut source, video(2, (4, 3), 40), "narrow");
    assert_eq!(source.caps(StreamType::Video), Some(&"narrow".to_string()));
    expect_new(&mut source, video(3, (16, 9), 40), "wide again");
    assert_eq!(source.caps(StreamType::Video), Some(&"wide again".to_string()));
}

#[test]
fn latency_changes_with_the_duration_of_a_new_video_stream() {
    let mut source = connected();
    assert!(expect_new(&mut source, video(1, (16, 9), 40), "a").latency_changed);
    assert!(!expect_new(&mut source, video(2, (4, 3), 40), "b").latency_changed);
    assert!(expect_new(&mut source, video(3, (16, 9), 20), "c").latency_changed);
    assert!(!expect_new(&mut source, audio(4, 48000), "d").latency_changed);
    assert!(!expect_known(&mut source, video(5, (16, 9), 80)).latency_changed);
    assert_eq!(
        source.query(Query::Latency),
        QueryReply::Latency { live: true, min: 20, max: 200 }
    );
}

#[test]
fn rejected_description_is_reported_and_forgotten() {
    for (buffer, description) in [(audio(1, 5), "5"), (video(1, (16, 9), 40), "(16, 9)")] {
        let stream = match buffer {
            Buffer::Audio(..) => StreamType::Audio,
            Buffer::Video(..) => StreamType::Video,
        };
        let mut source = connected();
        let error = match capture(&mut source, ReceiverItem::Buffer(buffer)) {
            CreateStep::BuildCaps(buffer) => {
                source.caps_built(buffer, Err(description.to_string())).unwrap_err()
            }
            step => panic!("{:?}", step),
        };
        assert_eq!(error.flow, FlowError::NotNegotiated);
        assert_eq!(error.message.code, ErrorCode::ResourceSettings);
        assert_eq!(
            error.message.text,
            format!("Invalid audio info received: {}", description)
        );
        assert_eq!(source.caps(stream), None);
        assert_eq!(source.query(Query::Latency), QueryReply::Unanswered);
        assert_eq!(source.begin_create(), Ok(7));
    }
}

#[test]
fn restart_forgets_the_streams() {
    let mut source = connected();
    expect_new(&mut source, audio(1, 48000), "audio");
    source.stop();
    source.stopped();
    assert_eq!(source.caps(StreamType::Audio), None);
    assert!(source.start().is_ok());
    assert!(source.connected(Some((8, 'b'))).is_ok());
    expect_new(&mut source, audio(1, 48000), "audio");
}

#[test]
fn empty_state_knows_nothing() {
    let state: State<u32, u32, (u32, u32), String> = State::default();
    assert_eq!(state.audio_info, None);
    assert_eq!(state.audio_caps, None);
    assert_eq!(state.video_info, None);
    assert_eq!(state.video_caps, None);
    assert_eq!(state.current_latency, None);
    assert_eq!(state.receiver, None);
}

#[test]
fn properties_and_controller_survive_captures() {
    let mut source = connected();
    source.set_property("timeout", PropertyValue::UInt(1));
    expect_new(&mut source, audio(1, 48000), "audio");
    expect_new(&mut source, video(2, (16, 9), 40), "video");
    capture(&mut source, ReceiverItem::Flushing);
    assert_eq!(source.property("timeout"), PropertyValue::UInt(1));
    assert_eq!(source.property("ndi-name"), PropertyValue::Text(Some("CAM".to_string())));
    assert_eq!(source.unlock().map(|(controller, _)| *controller), Some('a'));
    source.stop();
    source.stopped();
    assert_eq!(source.property("timeout"), PropertyValue::UInt(1));
}

#[test]
fn streams_are_independent() {
    let mut source = connected();
    expect_new(&mut source, video(1, (16, 9), 40), "video");
    expect_new(&mut source, audio(2, 48000), "audio");
    expect_new(&mut source, audio(3, 44100), "other audio");
    assert_eq!(source.caps(StreamType::Video), Some(&"video".to_string()));
    assert_eq!(
        source.query(Query::Latency),
        QueryReply::Latency { live: true, min: 40, max: 400 }
    );
    expect_new(&mut source, video(4, (4, 3), 20), "other video");
    assert_eq!(source.caps(StreamType::Audio), Some(&"other audio".to_string()));
}

#[test]
fn one_item_ends_alike_from_one_state() {
    let step = |item| {
        let mut source = connected();
        expect_new(&mut source, audio(1, 48000), "audio");
        capture(&mut source, item)
    };
    assert_eq!(
        step(ReceiverItem::Buffer(audio(2, 48000))),
        step(ReceiverItem::Buffer(audio(2, 48000)))
    );
    assert_eq!(
        step(ReceiverItem::Buffer(audio(2, 44100))),
        step(ReceiverItem::Buffer(audio(2, 44100)))
    );
}

#[test]
fn stream_is_known_until_it_changes_or_the_source_starts() {
    let mut source = connected();
    expect_new(&mut source, video(1, (16, 9), 40), "video");
    for (info, caps) in [(48000, "a"), (44100, "b"), (48000, "c")] {
        expect_new(&mut source, audio(2, info), caps);
        capture(&mut source, ReceiverItem::Error(FlowError::Error));
        source.set_property("timeout", PropertyValue::UInt(info));
        assert!(source.connected(Some((7, 'a'))).is_ok());
        source.stop();
    }
    assert_eq!(expect_known(&mut source, video(3, (16, 9), 80)).buffer.payload, 3);
    assert_eq!(source.caps(StreamType::Video), Some(&"video".to_string()));
    assert_eq!(
        source.query(Query::Latency),
        QueryReply::Latency { live: true, min: 40, max: 400 }
    );
    assert!(source.start().is_ok());
    assert!(source.connected(Some((7, 'a'))).is_ok());
    expect_new(&mut source, video(4, (16, 9), 80), "video again");
}

#[test]
fn last_write_is_read_after_a_run() {
    let mut source = connected();
    source.set_property("bandwidth", PropertyValue::Int(10));
    source.set_property("receiver-ndi-name", PropertyValue::Text(None));
    source.set_property("timeout", PropertyValue::UInt(3));
    expect_new(&mut source, audio(1, 48000), "audio");
    source.set_property("timeout", PropertyValue::UInt(4));
    source.stop();
    source.stopped();
    assert!(source.start().is_ok());
    assert_eq!(source.property("bandwidth"), PropertyValue::Int(10));
    assert_eq!(source.property("timeout"), PropertyValue::UInt(4));
    assert_eq!(
        source.property("receiver-ndi-name"),
        PropertyValue::Text(Some("receiver".to_string()))
    );
}
