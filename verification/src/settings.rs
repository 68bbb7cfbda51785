//! The values of the element's properties.
use crate::property::{
    Property, PropertyValue, PropertyValueView, RecvColorFormat, TimestampMode, BANDWIDTH_HIGHEST,
};
use vstd::prelude::*;

verus! {

/// The values of the element's properties.
#[derive(Debug, PartialEq, Eq)]
pub struct Settings {
    /// The name of the stream to receive.
    pub ndi_name: Option<String>,
    /// The address of the sender to receive from.
    pub url_address: Option<String>,
    /// How long to wait for a connection, in milliseconds.
    pub connect_timeout: u32,
    /// How long to wait for data, in milliseconds.
    pub timeout: u32,
    /// How many items may wait in the receive queue.
    pub max_queue_length: u32,
    /// The name under which this receiver announces itself.
    pub receiver_ndi_name: String,
    pub bandwidth: i32,
    pub color_format: RecvColorFormat,
    pub timestamp_mode: TimestampMode,
}

/// What the settings are, texts being sequences of characters.
#[verifier::ext_equal]
pub struct SettingsView {
    pub ndi_name: Option<Seq<char>>,
    pub url_address: Option<Seq<char>>,
    pub connect_timeout: u32,
    pub timeout: u32,
    pub max_queue_length: u32,
    pub receiver_ndi_name: Seq<char>,
    pub bandwidth: i32,
    pub color_format: RecvColorFormat,
    pub timestamp_mode: TimestampMode,
}

impl View for Settings {
    type V = SettingsView;

    open spec fn view(&self) -> SettingsView {
        SettingsView {
            ndi_name: self.ndi_name.deep_view(),
            url_address: self.url_address.deep_view(),
            connect_timeout: self.connect_timeout,
            timeout: self.timeout,
            max_queue_length: self.max_queue_length,
            receiver_ndi_name: self.receiver_ndi_name@,
            bandwidth: self.bandwidth,
            color_format: self.color_format,
            timestamp_mode: self.timestamp_mode,
        }
    }
}

impl SettingsView {
    /// The settings of a new element whose receiver announces itself as
    /// `receiver_ndi_name`.
    pub open spec fn defaults(receiver_ndi_name: Seq<char>) -> Self {
        SettingsView {
            ndi_name: None,
            url_address: None,
            connect_timeout: 10000,
            timeout: 5000,
            max_queue_length: 10,
            receiver_ndi_name,
            bandwidth: BANDWIDTH_HIGHEST,
            color_format: RecvColorFormat::UyvyBgra,
            timestamp_mode: TimestampMode::ReceiveTimeTimecode,
        }
    }

    /// The value of `property`.
    pub open spec fn get(self, property: Property) -> PropertyValueView {
        match property {
            Property::NdiName => PropertyValueView::Text(self.ndi_name),
            Property::UrlAddress => PropertyValueView::Text(self.url_address),
            Property::ReceiverNdiName => PropertyValueView::Text(Some(self.receiver_ndi_name)),
            Property::ConnectTimeout => PropertyValueView::UInt(self.connect_timeout),
            Property::Timeout => PropertyValueView::UInt(self.timeout),
            Property::MaxQueueLength => PropertyValueView::UInt(self.max_queue_length),
            Property::Bandwidth => PropertyValueView::Int(self.bandwidth),
            Property::ColorFormat => PropertyValueView::ColorFormat(self.color_format),
            Property::TimestampMode => PropertyValueView::TimestampMode(self.timestamp_mode),
        }
    }

    /// The same settings, with `property` set to `value`, which is of the property's
    /// type. Without a text, the receiver's name becomes `default_receiver_ndi_name`.
    pub open spec fn set(
        self,
        property: Property,
        value: PropertyValueView,
        default_receiver_ndi_name: Seq<char>,
    ) -> Self {
        match (property, value) {
            (Property::NdiName, PropertyValueView::Text(text)) => SettingsView {
                ndi_name: text,
                ..self
            },
            (Property::UrlAddress, PropertyValueView::Text(text)) => SettingsView {
                url_address: text,
                ..self
            },
            (Property::ReceiverNdiName, PropertyValueView::Text(text)) => SettingsView {
                receiver_ndi_name: match text {
                    Some(name) => name,
                    None => default_receiver_ndi_name,
                },
                ..self
            },
            (Property::ConnectTimeout, PropertyValueView::UInt(number)) => SettingsView {
                connect_timeout: number,
                ..self
            },
            (Property::Timeout, PropertyValueView::UInt(number)) => SettingsView {
                timeout: number,
                ..self
            },
            (Property::MaxQueueLength, PropertyValueView::UInt(number)) => SettingsView {
                max_queue_length: number,
                ..self
            },
            (Property::Bandwidth, PropertyValueView::Int(number)) => SettingsView {
                bandwidth: number,
                ..self
            },
            (Property::ColorFormat, PropertyValueView::ColorFormat(format)) => SettingsView {
                color_format: format,
                ..self
            },
            (Property::TimestampMode, PropertyValueView::TimestampMode(mode)) => SettingsView {
                timestamp_mode: mode,
                ..self
            },
            _ => self,
        }
    }
}

/// Copies a text that may be absent.
pub(crate) fn copy_text(text: &Option<String>) -> (copy: Option<String>)
    ensures
        copy == *text,
{
    match text {
        Some(text) => Some(text.clone()),
        None => None,
    }
}

impl Settings {
    /// The settings of a new element whose receiver announces itself as
    /// `receiver_ndi_name`.
    pub fn defaults(receiver_ndi_name: &str) -> (settings: Self)
        ensures
            settings@ == SettingsView::defaults(receiver_ndi_name@),
    {
        Settings {
            ndi_name: None,
            url_address: None,
            receiver_ndi_name: receiver_ndi_name.to_owned(),
            connect_timeout: 10000,
            timeout: 5000,
            max_queue_length: 10,
            bandwidth: BANDWIDTH_HIGHEST,
            color_format: RecvColorFormat::UyvyBgra,
            timestamp_mode: TimestampMode::ReceiveTimeTimecode,
        }
    }

    /// Sets `property` to `value`, which is of the property's type. Without a
    /// text, the receiver's name becomes `default_receiver_ndi_name`.
    ///
    /// Returns whether a latency message is due.
    pub fn set(
        &mut self,
        property: Property,
        value: PropertyValue,
        default_receiver_ndi_name: &str,
    ) -> (latency_changed: bool)
        requires
            property.spec_value_type() == value@.value_type(),
        ensures
            final(self)@ == old(self)@.set(property, value@, default_receiver_ndi_name@),
            latency_changed == (final(self)@.timestamp_mode != old(self)@.timestamp_mode),
    {
        match (property, value) {
            (Property::NdiName, PropertyValue::Text(text)) => {
                self.ndi_name = text;
                false
            },
            (Property::UrlAddress, PropertyValue::Text(text)) => {
                self.url_address = text;
                false
            },
            (Property::ReceiverNdiName, PropertyValue::Text(text)) => {
                self.receiver_ndi_name = match text {
                    Some(name) => name,
                    None => default_receiver_ndi_name.to_owned(),
                };
                false
            },
            (Property::ConnectTimeout, PropertyValue::UInt(number)) => {
                self.connect_timeout = number;
                false
            },
            (Property::Timeout, PropertyValue::UInt(number)) => {
                self.timeout = number;
                false
            },
            (Property::MaxQueueLength, PropertyValue::UInt(number)) => {
                self.max_queue_length = number;
                false
            },
            (Property::Bandwidth, PropertyValue::Int(number)) => {
                self.bandwidth = number;
                false
            },
            (Property::ColorFormat, PropertyValue::ColorFormat(format)) => {
                self.color_format = format;
                false
            },
            (Property::TimestampMode, PropertyValue::TimestampMode(mode)) => {
                let latency_changed = self.timestamp_mode != mode;
                self.timestamp_mode = mode;
                latency_changed
            },
            _ => false,
        }
    }

    /// The value of `property`.
    pub fn get(&self, property: Property) -> (value: PropertyValue)
        ensures
            value@ == self@.get(property),
    {
        match property {
            Property::NdiName => PropertyValue::Text(copy_text(&self.ndi_name)),
            Property::UrlAddress => PropertyValue::Text(copy_text(&self.url_address)),
            Property::ReceiverNdiName => PropertyValue::Text(Some(self.receiver_ndi_name.clone())),
            Property::ConnectTimeout => PropertyValue::UInt(self.connect_timeout),
            Property::Timeout => PropertyValue::UInt(self.timeout),
            Property::MaxQueueLength => PropertyValue::UInt(self.max_queue_length),
            Property::Bandwidth => PropertyValue::Int(self.bandwidth),
            Property::ColorFormat => PropertyValue::ColorFormat(self.color_format),
            Property::TimestampMode => PropertyValue::TimestampMode(self.timestamp_mode),
        }
    }
}

} // verus!
