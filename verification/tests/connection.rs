use ndisrc::connection::ControlCommand;
use ndisrc::element::{constructed, metadata, negotiate, pad_templates, CAPS_NAME};
use ndisrc::framework::{
    ErrorCode, FlowError, Format, PadDirection, PadMode, PadPresence, SchedulingFlags, StateChange,
};
use ndisrc::ndi_src::NdiSrc;
use ndisrc::property::{PropertyValue, RecvColorFormat, TimestampMode};
use ndisrc::query::{Query, QueryReply};
use ndisrc::state::{Buffer, CreateStep, MediaBuffer, ReceiverItem};

type Source = NdiSrc<u32, char, u32, (u32, u32), String>;

fn text(value: &str) -> PropertyValue {
    PropertyValue::Text(Some(value.to_string()))
}

fn connected() -> Source {
    let mut source: Source = NdiSrc::new("receiver".to_string());
    source.set_property("ndi-name", text("CAM"));
    assert!(source.start().is_ok());
    assert!(source.connected(Some((7, 'a'))).is_ok());
    source
}

/// Lets `source` capture a first video frame that lasts `duration`.
fn capture_video(source: &mut Source, duration: Option<u64>) -> bool {
    let receiver = source.begin_create().unwrap();
    let buffer = Buffer::Video(MediaBuffer { payload: 1u8, duration }, (16, 9));
    match source.captured(receiver, ReceiverItem::Buffer(buffer)) {
        CreateStep::BuildCaps(buffer) => {
            source.caps_built(buffer, Ok("video".to_string())).unwrap().latency_changed
        }
        step => panic!("{:?}", step),
    }
}

#[test]
fn start_without_a_sender_is_refused() {
    let mut source: Source = NdiSrc::new("receiver".to_string());
    let error = source.start().unwrap_err();
    assert_eq!(error.code, ErrorCode::LibrarySettings);
    assert_eq!(error.text, "No NDI name or URL/address given");
}

#[test]
fn start_with_either_name_or_address_connects() {
    for property in ["ndi-name", "url-address"] {
        let mut source: Source = NdiSrc::new("receiver".to_string());
        source.set_property(property, text("there"));
        let request = source.start().unwrap();
        assert_eq!(request.ndi_name.is_some(), property == "ndi-name");
        assert_eq!(request.url_address.is_some(), property == "url-address");
    }
}

#[test]
fn connect_request_follows_the_settings() {
    let mut source: Source = NdiSrc::new("receiver".to_string());
    source.set_property("ndi-name", text("CAM"));
    source.set_property("url-address", text("127.0.0.1:5961"));
    source.set_property("receiver-ndi-name", text("studio"));
    source.set_property("connect-timeout", PropertyValue::UInt(1));
    source.set_property("timeout", PropertyValue::UInt(2));
    source.set_property("max-queue-length", PropertyValue::UInt(3));
    source.set_property("bandwidth", PropertyValue::Int(10));
    source.set_property("color-format", PropertyValue::ColorFormat(RecvColorFormat::Other(4)));
    source.set_property("timestamp-mode", PropertyValue::TimestampMode(TimestampMode::Other(2)));
    let request = source.start().unwrap();
    assert_eq!(request.ndi_name, Some("CAM".to_string()));
    assert_eq!(request.url_address, Some("127.0.0.1:5961".to_string()));
    assert_eq!(request.receiver_ndi_name, "studio");
    assert_eq!(request.connect_timeout, 1);
    assert_eq!(request.timeout, 2);
    assert_eq!(request.max_queue_length, 3);
    assert_eq!(request.bandwidth, 10);
    assert_eq!(request.color_format, RecvColorFormat::Other(4));
    assert_eq!(request.timestamp_mode, TimestampMode::Other(2));
}

#[test]
fn failed_connection_is_reported() {
    let mut source: Source = NdiSrc::new("receiver".to_string());
    source.set_property("ndi-name", text("CAM"));
    assert!(source.start().is_ok());
    let error = source.connected(None).unwrap_err();
    assert_eq!(error.code, ErrorCode::ResourceNotFound);
    assert_eq!(error.text, "Could not connect to this source");
    assert_eq!(source.unlock(), None);
    assert_eq!(source.begin_create(), Err(FlowError::Error));
}

#[test]
fn commands_reach_the_connected_receiver() {
    let source = connected();
    assert_eq!(source.unlock(), Some((&'a', ControlCommand::SetFlushing(true))));
    assert_eq!(source.unlock_stop(), Some((&'a', ControlCommand::SetFlushing(false))));
    assert_eq!(
        source.change_state(StateChange::PausedToPlaying),
        Some((&'a', ControlCommand::SetPlaying(true)))
    );
    assert_eq!(
        source.change_state(StateChange::PlayingToPaused),
        Some((&'a', ControlCommand::SetPlaying(false)))
    );
    assert_eq!(
        source.change_state(StateChange::PausedToReady),
        Some((&'a', ControlCommand::Shutdown))
    );
    for transition in [
        StateChange::NullToReady,
        StateChange::ReadyToPaused,
        StateChange::ReadyToNull,
        StateChange::NullToNull,
        StateChange::ReadyToReady,
        StateChange::PausedToPaused,
        StateChange::PlayingToPlaying,
    ] {
        assert_eq!(source.change_state(transition), None);
    }
}

#[test]
fn commands_reach_nobody_without_a_connection() {
    let source: Source = NdiSrc::new("receiver".to_string());
    assert_eq!(source.unlock(), None);
    assert_eq!(source.unlock_stop(), None);
    assert_eq!(source.change_state(StateChange::PausedToPlaying), None);
}

#[test]
fn stop_shuts_the_receiver_down_once() {
    let mut source = connected();
    capture_video(&mut source, Some(40));
    assert_eq!(source.stop(), Some(('a', ControlCommand::Shutdown)));
    source.stopped();
    assert_eq!(source.stop(), None);
    assert_eq!(source.unlock(), None);
    assert_eq!(source.begin_create(), Err(FlowError::Error));
    assert_eq!(source.query(Query::Latency), QueryReply::Unanswered);
    assert_eq!(source.property("ndi-name"), text("CAM"));
}

#[test]
fn receiver_is_kept_until_it_was_shut_down() {
    let mut source = connected();
    capture_video(&mut source, Some(40));
    assert_eq!(source.stop(), Some(('a', ControlCommand::Shutdown)));
    assert_eq!(source.unlock(), None);
    assert_eq!(
        source.query(Query::Latency),
        QueryReply::Latency { live: true, min: 40, max: 400 }
    );
    assert_eq!(source.begin_create(), Ok(7));
    source.captured::<u8>(7, ReceiverItem::Flushing);
    source.stopped();
    assert_eq!(source.begin_create(), Err(FlowError::Error));
}

#[test]
fn new_connection_replaces_the_old() {
    let mut source = connected();
    capture_video(&mut source, Some(40));
    assert!(source.start().is_ok());
    assert_eq!(source.query(Query::Latency), QueryReply::Unanswered);
    assert_eq!(source.begin_create(), Err(FlowError::Error));
    assert_eq!(source.unlock(), Some((&'a', ControlCommand::SetFlushing(true))));
    assert!(source.connected(Some((8, 'b'))).is_ok());
    assert_eq!(source.begin_create(), Ok(8));
    assert_eq!(source.stop(), Some(('b', ControlCommand::Shutdown)));
}

#[test]
fn scheduling_is_sequential_push() {
    let source: Source = NdiSrc::new("receiver".to_string());
    assert_eq!(
        source.query(Query::Scheduling),
        QueryReply::Scheduling {
            flags: SchedulingFlags { seekable: false, sequential: true, bandwidth_limited: false },
            minsize: 1,
            maxsize: -1,
            align: 0,
            mode: PadMode::Push,
        }
    );
}

#[test]
fn other_queries_go_to_the_base_class() {
    assert_eq!(connected().query(Query::Other), QueryReply::Parent);
}

#[test]
fn latency_follows_the_video_frames() {
    let mut source = connected();
    assert_eq!(source.query(Query::Latency), QueryReply::Unanswered);
    assert!(capture_video(&mut source, Some(40_000_000)));
    assert_eq!(
        source.query(Query::Latency),
        QueryReply::Latency { live: true, min: 40_000_000, max: 400_000_000 }
    );
    source.set_property("max-queue-length", PropertyValue::UInt(3));
    assert_eq!(
        source.query(Query::Latency),
        QueryReply::Latency { live: true, min: 40_000_000, max: 120_000_000 }
    );
}

#[test]
fn latency_minimum_depends_on_the_timestamp_mode() {
    let mut source = connected();
    capture_video(&mut source, Some(5));
    for (mode, expected) in [
        (TimestampMode::ReceiveTimeTimecode, 5),
        (TimestampMode::ReceiveTimeTimestamp, 5),
        (TimestampMode::Other(2), 0),
    ] {
        source.set_property("timestamp-mode", PropertyValue::TimestampMode(mode));
        assert_eq!(
            source.query(Query::Latency),
            QueryReply::Latency { live: true, min: expected, max: 50 }
        );
    }
}

#[test]
fn latency_is_unknown_without_a_duration() {
    let mut source = connected();
    assert!(!capture_video(&mut source, None));
    assert_eq!(source.query(Query::Latency), QueryReply::Unanswered);
}

#[test]
fn latency_that_does_not_fit_cannot_be_answered() {
    let mut source = connected();
    capture_video(&mut source, Some(u64::MAX / 2));
    assert!(!source.can_answer(Query::Latency));
    assert!(source.can_answer(Query::Scheduling));
    source.set_property("max-queue-length", PropertyValue::UInt(2));
    assert!(source.can_answer(Query::Latency));
    assert_eq!(
        source.query(Query::Latency),
        QueryReply::Latency { live: true, min: u64::MAX / 2, max: u64::MAX - 1 }
    );
}

#[test]
fn latency_equal_to_the_missing_time_cannot_be_answered() {
    let mut source = connected();
    capture_video(&mut source, Some(u64::MAX / 5));
    source.set_property("max-queue-length", PropertyValue::UInt(5));
    assert_eq!((u64::MAX / 5) * 5, u64::MAX);
    assert!(!source.can_answer(Query::Latency));
    source.set_property("max-queue-length", PropertyValue::UInt(4));
    assert!(source.can_answer(Query::Latency));
}

#[test]
fn empty_queue_leaves_no_latency_maximum() {
    let mut source = connected();
    capture_video(&mut source, Some(5));
    source.set_property("max-queue-length", PropertyValue::UInt(0));
    assert_eq!(
        source.query(Query::Latency),
        QueryReply::Latency { live: true, min: 5, max: 0 }
    );
}

#[test]
fn element_describes_itself() {
    let metadata = metadata();
    assert_eq!(metadata.long_name, "NewTek NDI Source");
    assert_eq!(metadata.classification, "Source/Audio/Video/Network");
    assert_eq!(metadata.description, "NewTek NDI source");
    assert!(metadata.author.ends_with("Sebastian Dröge <sebastian@centricular.com>"));
    let templates = pad_templates();
    assert_eq!(templates.len(), 1);
    assert_eq!(templates[0].name, "src");
    assert_eq!(templates[0].direction, PadDirection::Src);
    assert_eq!(templates[0].presence, PadPresence::Always);
    assert_eq!(templates[0].caps_name, "application/x-ndi");
    assert_eq!(CAPS_NAME, "application/x-ndi");
    assert!(constructed().live);
    assert_eq!(constructed().format, Format::Time);
}

#[test]
fn negotiation_fails_if_the_caps_cannot_be_set() {
    assert_eq!(negotiate(true), Ok(()));
    assert_eq!(negotiate(false), Err("Failed to negotiate caps"));
}
