//! The element's properties: their names, the values they take and how they are
//! declared.
use vstd::prelude::*;

verus! {

/// How outgoing buffers get their presentation time.
#[derive(Clone, Copy, Debug, PartialEq, Eq, Structural)]
pub enum TimestampMode {
    /// The receive time, smoothed by the sender's timecode.
    ReceiveTimeTimecode,
    /// The receive time, smoothed by the sender's timestamp.
    ReceiveTimeTimestamp,
    /// Any other mode, by its registered number.
    Other(i32),
}

/// The pixel formats that the receiver asks the sender for.
#[derive(Clone, Copy, Debug, PartialEq, Eq, Structural)]
pub enum RecvColorFormat {
    /// UYVY, or BGRA where there is an alpha channel.
    UyvyBgra,
    /// Any other combination, by its registered number.
    Other(i32),
}

/// The bandwidth at which nothing but metadata is received.
pub const BANDWIDTH_METADATA_ONLY: i32 = -10;

/// The bandwidth at which everything is received in full quality.
pub const BANDWIDTH_HIGHEST: i32 = 100;

/// A property of the element.
#[derive(Clone, Copy, Debug, PartialEq, Eq, Structural)]
pub enum Property {
    NdiName,
    UrlAddress,
    ReceiverNdiName,
    ConnectTimeout,
    Timeout,
    MaxQueueLength,
    Bandwidth,
    ColorFormat,
    TimestampMode,
}

/// The type of a property's value.
#[derive(Clone, Copy, Debug, PartialEq, Eq, Structural)]
pub enum ValueType {
    Text,
    UInt,
    Int,
    ColorFormat,
    TimestampMode,
}

/// A property's value.
#[derive(Debug, PartialEq, Eq)]
pub enum PropertyValue {
    Text(Option<String>),
    UInt(u32),
    Int(i32),
    ColorFormat(RecvColorFormat),
    TimestampMode(TimestampMode),
}

/// What a property's value is, texts being sequences of characters.
pub enum PropertyValueView {
    Text(Option<Seq<char>>),
    UInt(u32),
    Int(i32),
    ColorFormat(RecvColorFormat),
    TimestampMode(TimestampMode),
}

impl View for PropertyValue {
    type V = PropertyValueView;

    open spec fn view(&self) -> PropertyValueView {
        match *self {
            PropertyValue::Text(text) => PropertyValueView::Text(text.deep_view()),
            PropertyValue::UInt(number) => PropertyValueView::UInt(number),
            PropertyValue::Int(number) => PropertyValueView::Int(number),
            PropertyValue::ColorFormat(format) => PropertyValueView::ColorFormat(format),
            PropertyValue::TimestampMode(mode) => PropertyValueView::TimestampMode(mode),
        }
    }
}

impl PropertyValueView {
    /// The type of the value.
    pub open spec fn value_type(self) -> ValueType {
        match self {
            PropertyValueView::Text(_) => ValueType::Text,
            PropertyValueView::UInt(_) => ValueType::UInt,
            PropertyValueView::Int(_) => ValueType::Int,
            PropertyValueView::ColorFormat(_) => ValueType::ColorFormat,
            PropertyValueView::TimestampMode(_) => ValueType::TimestampMode,
        }
    }
}

impl PropertyValue {
    /// The type of the value.
    pub fn value_type(&self) -> (value_type: ValueType)
        ensures
            value_type == self@.value_type(),
    {
        match self {
            PropertyValue::Text(_) => ValueType::Text,
            PropertyValue::UInt(_) => ValueType::UInt,
            PropertyValue::Int(_) => ValueType::Int,
            PropertyValue::ColorFormat(_) => ValueType::ColorFormat,
            PropertyValue::TimestampMode(_) => ValueType::TimestampMode,
        }
    }
}

impl Property {
    /// The name under which the property is set and read.
    pub open spec fn spec_name(self) -> Seq<char> {
        match self {
            Property::NdiName => "ndi-name"@,
            Property::UrlAddress => "url-address"@,
            Property::ReceiverNdiName => "receiver-ndi-name"@,
            Property::ConnectTimeout => "connect-timeout"@,
            Property::Timeout => "timeout"@,
            Property::MaxQueueLength => "max-queue-length"@,
            Property::Bandwidth => "bandwidth"@,
            Property::ColorFormat => "color-format"@,
            Property::TimestampMode => "timestamp-mode"@,
        }
    }

    /// The type of the property's value.
    pub open spec fn spec_value_type(self) -> ValueType {
        match self {
            Property::NdiName | Property::UrlAddress | Property::ReceiverNdiName => ValueType::Text,
            Property::ConnectTimeout | Property::Timeout | Property::MaxQueueLength =>
                ValueType::UInt,
            Property::Bandwidth => ValueType::Int,
            Property::ColorFormat => ValueType::ColorFormat,
            Property::TimestampMode => ValueType::TimestampMode,
        }
    }

    /// The property that goes by `name`.
    pub open spec fn named(name: Seq<char>) -> Option<Property> {
        if exists|property: Property| property.spec_name() == name {
            Some(choose|property: Property| property.spec_name() == name)
        } else {
            None
        }
    }

    /// The name under which the property is set and read.
    pub fn name(self) -> (name: &'static str)
        ensures
            name@ == self.spec_name(),
    {
        match self {
            Property::NdiName => "ndi-name",
            Property::UrlAddress => "url-address",
            Property::ReceiverNdiName => "receiver-ndi-name",
            Property::ConnectTimeout => "connect-timeout",
            Property::Timeout => "timeout",
            Property::MaxQueueLength => "max-queue-length",
            Property::Bandwidth => "bandwidth",
            Property::ColorFormat => "color-format",
            Property::TimestampMode => "timestamp-mode",
        }
    }

    /// Finds the property that goes by `name`.
    pub fn from_name(name: &str) -> (property: Option<Property>)
        ensures
            property == Property::named(name@),
    {
        proof {
            assert forall|property: Property|
                Property::named(#[trigger] property.spec_name()) == Some(property) by {
                law_name_identifies_property(property);
            }
        }
        if same_text(name, Property::NdiName.name()) {
            Some(Property::NdiName)
        } else if same_text(name, Property::UrlAddress.name()) {
            Some(Property::UrlAddress)
        } else if same_text(name, Property::ReceiverNdiName.name()) {
            Some(Property::ReceiverNdiName)
        } else if same_text(name, Property::ConnectTimeout.name()) {
            Some(Property::ConnectTimeout)
        } else if same_text(name, Property::Timeout.name()) {
            Some(Property::Timeout)
        } else if same_text(name, Property::MaxQueueLength.name()) {
            Some(Property::MaxQueueLength)
        } else if same_text(name, Property::Bandwidth.name()) {
            Some(Property::Bandwidth)
        } else if same_text(name, Property::ColorFormat.name()) {
            Some(Property::ColorFormat)
        } else if same_text(name, Property::TimestampMode.name()) {
            Some(Property::TimestampMode)
        } else {
            None
        }
    }

    /// The type of the property's value.
    pub fn value_type(self) -> (value_type: ValueType)
        ensures
            value_type == self.spec_value_type(),
    {
        match self {
            Property::NdiName | Property::UrlAddress | Property::ReceiverNdiName => ValueType::Text,
            Property::ConnectTimeout | Property::Timeout | Property::MaxQueueLength =>
                ValueType::UInt,
            Property::Bandwidth => ValueType::Int,
            Property::ColorFormat => ValueType::ColorFormat,
            Property::TimestampMode => ValueType::TimestampMode,
        }
    }
}

/// Whether two texts are the same.
fn same_text(a: &str, b: &str) -> (same: bool)
    ensures
        same == (a@ == b@),
{
    a.to_owned() == b.to_owned()
}

/// A property's name is its own: no other property goes by it.
pub proof fn law_name_identifies_property(property: Property)
    ensures
        Property::named(property.spec_name()) == Some(property),
{
    reveal_strlit("ndi-name");
    reveal_strlit("url-address");
    reveal_strlit("receiver-ndi-name");
    reveal_strlit("connect-timeout");
    reveal_strlit("timeout");
    reveal_strlit("max-queue-length");
    reveal_strlit("bandwidth");
    reveal_strlit("color-format");
    reveal_strlit("timestamp-mode");
    let found = choose|found: Property| found.spec_name() == property.spec_name();
    assert(found.spec_name() == property.spec_name());
    assert(found.spec_name().len() == property.spec_name().len());
}

} // verus!
