//! How the element's properties are declared.
use crate::property::{
    Property, PropertyValueView, RecvColorFormat, TimestampMode, ValueType, BANDWIDTH_HIGHEST,
    BANDWIDTH_METADATA_ONLY,
};
use vstd::prelude::*;

verus! {

/// The values that a property takes, and the one it starts with.
#[derive(Debug, PartialEq, Eq)]
#[allow(inconsistent_fields)]
pub enum ValueRange {
    Text { default: Option<String> },
    UInt { minimum: u32, maximum: u32, default: u32 },
    Int { minimum: i32, maximum: i32, default: i32 },
    ColorFormat { default: RecvColorFormat },
    TimestampMode { default: TimestampMode },
}

/// What a range of values is, texts being sequences of characters.
#[allow(inconsistent_fields)]
pub enum ValueRangeView {
    Text { default: Option<Seq<char>> },
    UInt { minimum: u32, maximum: u32, default: u32 },
    Int { minimum: i32, maximum: i32, default: i32 },
    ColorFormat { default: RecvColorFormat },
    TimestampMode { default: TimestampMode },
}

impl View for ValueRange {
    type V = ValueRangeView;

    open spec fn view(&self) -> ValueRangeView {
        match *self {
            ValueRange::Text { default } => ValueRangeView::Text { default: default.deep_view() },
            ValueRange::UInt { minimum, maximum, default } => ValueRangeView::UInt {
                minimum,
                maximum,
                default,
            },
            ValueRange::Int { minimum, maximum, default } => ValueRangeView::Int {
                minimum,
                maximum,
                default,
            },
            ValueRange::ColorFormat { default } => ValueRangeView::ColorFormat { default },
            ValueRange::TimestampMode { default } => ValueRangeView::TimestampMode { default },
        }
    }
}

impl ValueRangeView {
    /// The type of the values.
    pub open spec fn value_type(self) -> ValueType {
        self.default_value().value_type()
    }

    /// The value that the property starts with.
    pub open spec fn default_value(self) -> PropertyValueView {
        match self {
            ValueRangeView::Text { default } => PropertyValueView::Text(default),
            ValueRangeView::UInt { default, .. } => PropertyValueView::UInt(default),
            ValueRangeView::Int { default, .. } => PropertyValueView::Int(default),
            ValueRangeView::ColorFormat { default } => PropertyValueView::ColorFormat(default),
            ValueRangeView::TimestampMode { default } => PropertyValueView::TimestampMode(default),
        }
    }

    /// Whether `value` is one of the values.
    pub open spec fn admits(self, value: PropertyValueView) -> bool {
        match (self, value) {
            (ValueRangeView::UInt { minimum, maximum, .. }, PropertyValueView::UInt(number)) =>
                minimum <= number <= maximum,
            (ValueRangeView::Int { minimum, maximum, .. }, PropertyValueView::Int(number)) =>
                minimum <= number <= maximum,
            _ => self.value_type() == value.value_type(),
        }
    }
}

/// The declaration of a property.
#[derive(Debug, PartialEq, Eq)]
pub struct PropertySpec {
    pub name: &'static str,
    pub nick: &'static str,
    pub blurb: &'static str,
    pub range: ValueRange,
    pub readable: bool,
    pub writable: bool,
}

/// What a declaration is, texts being sequences of characters.
#[verifier::ext_equal]
pub struct PropertySpecView {
    pub name: Seq<char>,
    pub nick: Seq<char>,
    pub blurb: Seq<char>,
    pub range: ValueRangeView,
    pub readable: bool,
    pub writable: bool,
}

impl View for PropertySpec {
    type V = PropertySpecView;

    open spec fn view(&self) -> PropertySpecView {
        PropertySpecView {
            name: self.name@,
            nick: self.nick@,
            blurb: self.blurb@,
            range: self.range@,
            readable: self.readable,
            writable: self.writable,
        }
    }
}

impl Property {
    /// The property's label in user interfaces.
    pub open spec fn spec_nick(self) -> Seq<char> {
        match self {
            Property::NdiName => "NDI Name"@,
            Property::UrlAddress => "URL/Address"@,
            Property::ReceiverNdiName => "Receiver NDI Name"@,
            Property::ConnectTimeout => "Connect Timeout"@,
            Property::Timeout => "Timeout"@,
            Property::MaxQueueLength => "Max Queue Length"@,
            Property::Bandwidth => "Bandwidth"@,
            Property::ColorFormat => "Color Format"@,
            Property::TimestampMode => "Timestamp Mode"@,
        }
    }

    /// What the property is for.
    pub open spec fn spec_blurb(self) -> Seq<char> {
        match self {
            Property::NdiName => "NDI stream name of the sender"@,
            Property::UrlAddress => "URL/address and port of the sender, e.g. 127.0.0.1:5961"@,
            Property::ReceiverNdiName => "NDI stream name of this receiver"@,
            Property::ConnectTimeout => "Connection timeout in ms"@,
            Property::Timeout => "Receive timeout in ms"@,
            Property::MaxQueueLength => "Maximum receive queue length"@,
            Property::Bandwidth => "Bandwidth, -10 metadata-only, 10 audio-only, 100 highest"@,
            Property::ColorFormat => "Receive color format"@,
            Property::TimestampMode => "Timestamp information to use for outgoing PTS"@,
        }
    }

    /// The values that the property takes, where the receiver announces itself as
    /// `receiver_ndi_name` unless told otherwise.
    pub open spec fn spec_range(self, receiver_ndi_name: Seq<char>) -> ValueRangeView {
        match self {
            Property::NdiName => ValueRangeView::Text { default: None },
            Property::UrlAddress => ValueRangeView::Text { default: None },
            Property::ReceiverNdiName => ValueRangeView::Text { default: Some(receiver_ndi_name) },
            Property::ConnectTimeout => ValueRangeView::UInt {
                minimum: 0,
                maximum: u32::MAX,
                default: 10000,
            },
            Property::Timeout => ValueRangeView::UInt {
                minimum: 0,
                maximum: u32::MAX,
                default: 5000,
            },
            Property::MaxQueueLength => ValueRangeView::UInt {
                minimum: 0,
                maximum: u32::MAX,
                default: 10,
            },
            Property::Bandwidth => ValueRangeView::Int {
                minimum: BANDWIDTH_METADATA_ONLY,
                maximum: BANDWIDTH_HIGHEST,
                default: BANDWIDTH_HIGHEST,
            },
            Property::ColorFormat => ValueRangeView::ColorFormat {
                default: RecvColorFormat::UyvyBgra,
            },
            Property::TimestampMode => ValueRangeView::TimestampMode {
                default: TimestampMode::ReceiveTimeTimecode,
            },
        }
    }

    /// The declaration of the property, where the receiver announces itself as
    /// `receiver_ndi_name` unless told otherwise.
    pub open spec fn spec_declaration(self, receiver_ndi_name: Seq<char>) -> PropertySpecView {
        PropertySpecView {
            name: self.spec_name(),
            nick: self.spec_nick(),
            blurb: self.spec_blurb(),
            range: self.spec_range(receiver_ndi_name),
            readable: true,
            writable: true,
        }
    }

    /// Every property, in the order in which they are declared.
    pub open spec fn declared() -> Seq<Property> {
        seq![
            Property::NdiName,
            Property::UrlAddress,
            Property::ReceiverNdiName,
            Property::ConnectTimeout,
            Property::Timeout,
            Property::MaxQueueLength,
            Property::Bandwidth,
            Property::ColorFormat,
            Property::TimestampMode,
        ]
    }

    /// The declaration of the property, where the receiver announces itself as
    /// `receiver_ndi_name` unless told otherwise.
    pub fn declaration(self, receiver_ndi_name: &str) -> (declaration: PropertySpec)
        ensures
            declaration@ == self.spec_declaration(receiver_ndi_name@),
    {
        let (nick, blurb, range): (&'static str, &'static str, ValueRange) = match self {
            Property::NdiName => (
                "NDI Name",
                "NDI stream name of the sender",
                ValueRange::Text { default: None },
            ),
            Property::UrlAddress => (
                "URL/Address",
                "URL/address and port of the sender, e.g. 127.0.0.1:5961",
                ValueRange::Text { default: None },
            ),
            Property::ReceiverNdiName => (
                "Receiver NDI Name",
                "NDI stream name of this receiver",
                ValueRange::Text { default: Some(receiver_ndi_name.to_owned()) },
            ),
            Property::ConnectTimeout => (
                "Connect Timeout",
                "Connection timeout in ms",
                ValueRange::UInt { minimum: 0, maximum: u32::MAX, default: 10000 },
            ),
            Property::Timeout => (
                "Timeout",
                "Receive timeout in ms",
                ValueRange::UInt { minimum: 0, maximum: u32::MAX, default: 5000 },
            ),
            Property::MaxQueueLength => (
                "Max Queue Length",
                "Maximum receive queue length",
                ValueRange::UInt { minimum: 0, maximum: u32::MAX, default: 10 },
            ),
            Property::Bandwidth => (
                "Bandwidth",
                "Bandwidth, -10 metadata-only, 10 audio-only, 100 highest",
                ValueRange::Int {
                    minimum: BANDWIDTH_METADATA_ONLY,
                    maximum: BANDWIDTH_HIGHEST,
                    default: BANDWIDTH_HIGHEST,
                },
            ),
            Property::ColorFormat => (
                "Color Format",
                "Receive color format",
                ValueRange::ColorFormat { default: RecvColorFormat::UyvyBgra },
            ),
            Property::TimestampMode => (
                "Timestamp Mode",
                "Timestamp information to use for outgoing PTS",
                ValueRange::TimestampMode { default: TimestampMode::ReceiveTimeTimecode },
            ),
        };
        PropertySpec { name: self.name(), nick, blurb, range, readable: true, writable: true }
    }
}

/// Declares the element's properties, where the receiver announces itself as
/// `receiver_ndi_name` unless told otherwise.
pub fn properties(receiver_ndi_name: &str) -> (declarations: Vec<PropertySpec>)
    ensures
        declarations@.len() == Property::declared().len(),
        forall|i: int|
            0 <= i < declarations@.len() ==> (#[trigger] declarations@[i])@
                == Property::declared()[i].spec_declaration(receiver_ndi_name@),
{
    vec![
        Property::NdiName.declaration(receiver_ndi_name),
        Property::UrlAddress.declaration(receiver_ndi_name),
        Property::ReceiverNdiName.declaration(receiver_ndi_name),
        Property::ConnectTimeout.declaration(receiver_ndi_name),
        Property::Timeout.declaration(receiver_ndi_name),
        Property::MaxQueueLength.declaration(receiver_ndi_name),
        Property::Bandwidth.declaration(receiver_ndi_name),
        Property::ColorFormat.declaration(receiver_ndi_name),
        Property::TimestampMode.declaration(receiver_ndi_name),
    ]
}

} // verus!
