use ndisrc::declaration::{properties, ValueRange};
use ndisrc::ndi_src::NdiSrc;
use ndisrc::property::{Property, PropertyValue, RecvColorFormat, TimestampMode, ValueType};

type Source = NdiSrc<u32, char, u32, (u32, u32), String>;

fn source() -> Source {
    NdiSrc::new("receiver".to_string())
}

fn text(value: &str) -> PropertyValue {
    PropertyValue::Text(Some(value.to_string()))
}

/// A value of each property's type that is not the default.
fn another_value(property: Property) -> PropertyValue {
    match property {
        Property::NdiName => text("CAM (1)"),
        Property::UrlAddress => text("127.0.0.1:5961"),
        Property::ReceiverNdiName => text("studio"),
        Property::ConnectTimeout => PropertyValue::UInt(1),
        Property::Timeout => PropertyValue::UInt(u32::MAX),
        Property::MaxQueueLength => PropertyValue::UInt(0),
        Property::Bandwidth => PropertyValue::Int(-10),
        Property::ColorFormat => PropertyValue::ColorFormat(RecvColorFormat::Other(5)),
        Property::TimestampMode => {
            PropertyValue::TimestampMode(TimestampMode::ReceiveTimeTimestamp)
        }
    }
}

const ALL: [Property; 9] = [
    Property::NdiName,
    Property::UrlAddress,
    Property::ReceiverNdiName,
    Property::ConnectTimeout,
    Property::Timeout,
    Property::MaxQueueLength,
    Property::Bandwidth,
    Property::ColorFormat,
    Property::TimestampMode,
];

#[test]
fn names_find_their_properties() {
    assert_eq!(Property::from_name("ndi-name"), Some(Property::NdiName));
    assert_eq!(Property::from_name("url-address"), Some(Property::UrlAddress));
    assert_eq!(Property::from_name("receiver-ndi-name"), Some(Property::ReceiverNdiName));
    assert_eq!(Property::from_name("connect-timeout"), Some(Property::ConnectTimeout));
    assert_eq!(Property::from_name("timeout"), Some(Property::Timeout));
    assert_eq!(Property::from_name("max-queue-length"), Some(Property::MaxQueueLength));
    assert_eq!(Property::from_name("bandwidth"), Some(Property::Bandwidth));
    assert_eq!(Property::from_name("color-format"), Some(Property::ColorFormat));
    assert_eq!(Property::from_name("timestamp-mode"), Some(Property::TimestampMode));
    for property in ALL {
        assert_eq!(Property::from_name(property.name()), Some(property));
    }
}

#[test]
fn unknown_names_find_nothing() {
    assert_eq!(Property::from_name(""), None);
    assert_eq!(Property::from_name("ndi_name"), None);
    assert_eq!(Property::from_name("NDI-NAME"), None);
    assert_eq!(Property::from_name("timeouts"), None);
    assert!(!Source::accepts("blocksize", &PropertyValue::UInt(1)));
}

#[test]
fn only_values_of_the_right_type_are_accepted() {
    assert!(Source::accepts("ndi-name", &PropertyValue::Text(None)));
    assert!(!Source::accepts("ndi-name", &PropertyValue::UInt(1)));
    assert!(Source::accepts("timeout", &PropertyValue::UInt(1)));
    assert!(!Source::accepts("timeout", &PropertyValue::Int(1)));
    assert!(Source::accepts("bandwidth", &PropertyValue::Int(10)));
    assert!(!Source::accepts("bandwidth", &PropertyValue::UInt(10)));
    assert_eq!(Property::ColorFormat.value_type(), ValueType::ColorFormat);
    for property in ALL {
        assert!(Source::accepts(property.name(), &another_value(property)));
        assert_eq!(another_value(property).value_type(), property.value_type());
    }
}

#[test]
fn new_source_has_the_default_values() {
    let source = source();
    assert_eq!(source.property("ndi-name"), PropertyValue::Text(None));
    assert_eq!(source.property("url-address"), PropertyValue::Text(None));
    assert_eq!(source.property("receiver-ndi-name"), text("receiver"));
    assert_eq!(source.property("connect-timeout"), PropertyValue::UInt(10000));
    assert_eq!(source.property("timeout"), PropertyValue::UInt(5000));
    assert_eq!(source.property("max-queue-length"), PropertyValue::UInt(10));
    assert_eq!(source.property("bandwidth"), PropertyValue::Int(100));
    assert_eq!(
        source.property("color-format"),
        PropertyValue::ColorFormat(RecvColorFormat::UyvyBgra)
    );
    assert_eq!(
        source.property("timestamp-mode"),
        PropertyValue::TimestampMode(TimestampMode::ReceiveTimeTimecode)
    );
}

#[test]
fn set_property_is_read_and_others_stay() {
    for set in ALL {
        let mut source = source();
        source.set_property(set.name(), another_value(set));
        assert_eq!(source.property(set.name()), another_value(set));
        for other in ALL {
            if other != set {
                assert_eq!(source.property(other.name()), self::source().property(other.name()));
            }
        }
    }
}

#[test]
fn last_value_counts() {
    let mut source = source();
    source.set_property("timeout", PropertyValue::UInt(7));
    source.set_property("timeout", PropertyValue::UInt(8));
    assert_eq!(source.property("timeout"), PropertyValue::UInt(8));
}

#[test]
fn setting_the_own_value_changes_nothing() {
    for property in ALL {
        let mut source = source();
        let value = source.property(property.name());
        assert!(!source.set_property(property.name(), value));
        for read in ALL {
            assert_eq!(source.property(read.name()), self::source().property(read.name()));
        }
    }
}

#[test]
fn names_can_be_unset() {
    let mut source = source();
    source.set_property("ndi-name", text("CAM"));
    source.set_property("ndi-name", PropertyValue::Text(None));
    assert_eq!(source.property("ndi-name"), PropertyValue::Text(None));
    source.set_property("receiver-ndi-name", text("studio"));
    assert_eq!(source.property("receiver-ndi-name"), text("studio"));
    source.set_property("receiver-ndi-name", PropertyValue::Text(None));
    assert_eq!(source.property("receiver-ndi-name"), text("receiver"));
}

#[test]
fn only_another_timestamp_mode_brings_a_latency_message() {
    for property in ALL {
        let mut source = source();
        let latency_changed = source.set_property(property.name(), another_value(property));
        assert_eq!(latency_changed, property == Property::TimestampMode);
        assert!(!source.set_property(property.name(), another_value(property)));
    }
}

#[test]
fn declarations_name_ranges_and_defaults() {
    let declarations = properties("receiver");
    let names: Vec<&str> = declarations.iter().map(|declaration| declaration.name).collect();
    assert_eq!(
        names,
        vec![
            "ndi-name",
            "url-address",
            "receiver-ndi-name",
            "connect-timeout",
            "timeout",
            "max-queue-length",
            "bandwidth",
            "color-format",
            "timestamp-mode",
        ]
    );
    assert!(declarations.iter().all(|declaration| declaration.readable && declaration.writable));
    assert_eq!(declarations[0].nick, "NDI Name");
    assert_eq!(declarations[1].blurb, "URL/address and port of the sender, e.g. 127.0.0.1:5961");
    assert_eq!(declarations[1].range, ValueRange::Text { default: None });
    assert_eq!(
        declarations[2].range,
        ValueRange::Text { default: Some("receiver".to_string()) }
    );
    assert_eq!(
        declarations[3].range,
        ValueRange::UInt { minimum: 0, maximum: u32::MAX, default: 10000 }
    );
    assert_eq!(
        declarations[6].range,
        ValueRange::Int { minimum: -10, maximum: 100, default: 100 }
    );
    assert_eq!(
        declarations[7].range,
        ValueRange::ColorFormat { default: RecvColorFormat::UyvyBgra }
    );
    assert_eq!(
        declarations[8].range,
        ValueRange::TimestampMode { default: TimestampMode::ReceiveTimeTimecode }
    );
}

#[test]
fn declared_defaults_are_the_values_of_a_new_source() {
    let source = source();
    for declaration in properties("receiver") {
        let default = match declaration.range {
            ValueRange::Text { default } => PropertyValue::Text(default),
            ValueRange::UInt { minimum, maximum, default } => {
                assert!(minimum <= default && default <= maximum);
                PropertyValue::UInt(default)
            }
            ValueRange::Int { minimum, maximum, default } => {
                assert!(minimum <= default && default <= maximum);
                PropertyValue::Int(default)
            }
            ValueRange::ColorFormat { default } => PropertyValue::ColorFormat(default),
            ValueRange::TimestampMode { default } => PropertyValue::TimestampMode(default),
        };
        assert_eq!(source.property(declaration.name), default);
    }
}

#[test]
fn bandwidth_stays_in_range() {
    let mut source = source();
    for bandwidth in [-10, 10, 100] {
        source.set_property("bandwidth", PropertyValue::Int(bandwidth));
        assert_eq!(source.property("bandwidth"), PropertyValue::Int(bandwidth));
    }
}
