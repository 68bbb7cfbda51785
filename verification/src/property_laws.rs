//! What the properties are for: a receiver is connected as they say.
use crate::connection::ConnectRequest;
use crate::declaration::{PropertySpec, ValueRange};
use crate::ndi_src::NdiSrcView;
use crate::property::{
    law_name_identifies_property, Property, PropertyValue, PropertyValueView, RecvColorFormat,
    TimestampMode, ValueType,
};
use crate::settings::{Settings, SettingsView};
use vstd::prelude::*;

verus! {

/// The names of the properties are different texts.
pub(crate) proof fn lemma_names_differ()
    ensures
        "ndi-name"@.len() == 8,
        "url-address"@.len() == 11,
        "receiver-ndi-name"@.len() == 17,
        "connect-timeout"@.len() == 15,
        "timeout"@.len() == 7,
        "max-queue-length"@.len() == 16,
        "bandwidth"@.len() == 9,
        "color-format"@.len() == 12,
        "timestamp-mode"@.len() == 14,
{
    reveal_strlit("ndi-name");
    reveal_strlit("url-address");
    reveal_strlit("receiver-ndi-name");
    reveal_strlit("connect-timeout");
    reveal_strlit("timeout");
    reveal_strlit("max-queue-length");
    reveal_strlit("bandwidth");
    reveal_strlit("color-format");
    reveal_strlit("timestamp-mode");
}

/// Nine names are known, each for its property, and no other.
pub proof fn law_nine_names(name: Seq<char>)
    ensures
        Property::named(name) == Some(Property::NdiName) <==> name == "ndi-name"@,
        Property::named(name) == Some(Property::UrlAddress) <==> name == "url-address"@,
        Property::named(name) == Some(Property::ReceiverNdiName) <==> name == "receiver-ndi-name"@,
        Property::named(name) == Some(Property::ConnectTimeout) <==> name == "connect-timeout"@,
        Property::named(name) == Some(Property::Timeout) <==> name == "timeout"@,
        Property::named(name) == Some(Property::MaxQueueLength) <==> name == "max-queue-length"@,
        Property::named(name) == Some(Property::Bandwidth) <==> name == "bandwidth"@,
        Property::named(name) == Some(Property::ColorFormat) <==> name == "color-format"@,
        Property::named(name) == Some(Property::TimestampMode) <==> name == "timestamp-mode"@,
{
    assert forall|property: Property|
        Property::named(#[trigger] property.spec_name()) == Some(property) by {
        law_name_identifies_property(property);
    }
    assert(Property::NdiName.spec_name() == "ndi-name"@);
    assert(Property::UrlAddress.spec_name() == "url-address"@);
    assert(Property::ReceiverNdiName.spec_name() == "receiver-ndi-name"@);
    assert(Property::ConnectTimeout.spec_name() == "connect-timeout"@);
    assert(Property::Timeout.spec_name() == "timeout"@);
    assert(Property::MaxQueueLength.spec_name() == "max-queue-length"@);
    assert(Property::Bandwidth.spec_name() == "bandwidth"@);
    assert(Property::ColorFormat.spec_name() == "color-format"@);
    assert(Property::TimestampMode.spec_name() == "timestamp-mode"@);
}

/// Each name goes with values of one type, and a value of any other type is not
/// accepted under it.
pub proof fn law_each_name_takes_one_type<R, H, A, V, C>(
    name: Seq<char>,
    value: PropertyValueView,
)
    ensures
        NdiSrcView::<R, H, A, V, C>::accepts(name, value) <==> match value {
            PropertyValueView::Text(_) => name == "ndi-name"@ || name == "url-address"@ || name
                == "receiver-ndi-name"@,
            PropertyValueView::UInt(_) => name == "connect-timeout"@ || name == "timeout"@ || name
                == "max-queue-length"@,
            PropertyValueView::Int(_) => name == "bandwidth"@,
            PropertyValueView::ColorFormat(_) => name == "color-format"@,
            PropertyValueView::TimestampMode(_) => name == "timestamp-mode"@,
        },
{
    law_nine_names(name);
}

/// A value is seen as it is, a text by its characters.
pub proof fn law_value_is_seen_whole(value: PropertyValue)
    ensures
        match value {
            PropertyValue::Text(Some(text)) => value@ == PropertyValueView::Text(Some(text@)),
            PropertyValue::Text(None) => value@ == PropertyValueView::Text(None),
            PropertyValue::UInt(number) => value@ == PropertyValueView::UInt(number),
            PropertyValue::Int(number) => value@ == PropertyValueView::Int(number),
            PropertyValue::ColorFormat(format) => value@ == PropertyValueView::ColorFormat(format),
            PropertyValue::TimestampMode(mode) => value@ == PropertyValueView::TimestampMode(mode),
        },
        value@.value_type() == (match value {
            PropertyValue::Text(_) => ValueType::Text,
            PropertyValue::UInt(_) => ValueType::UInt,
            PropertyValue::Int(_) => ValueType::Int,
            PropertyValue::ColorFormat(_) => ValueType::ColorFormat,
            PropertyValue::TimestampMode(_) => ValueType::TimestampMode,
        }),
{
}

/// Settings are seen as they are, texts by their characters.
pub proof fn law_settings_are_seen_whole(settings: Settings)
    ensures
        settings@.ndi_name == (match settings.ndi_name {
            Some(text) => Some(text@),
            None => None,
        }),
        settings@.url_address == (match settings.url_address {
            Some(text) => Some(text@),
            None => None,
        }),
        settings@.receiver_ndi_name == settings.receiver_ndi_name@,
        settings@.connect_timeout == settings.connect_timeout,
        settings@.timeout == settings.timeout,
        settings@.max_queue_length == settings.max_queue_length,
        settings@.bandwidth == settings.bandwidth,
        settings@.color_format == settings.color_format,
        settings@.timestamp_mode == settings.timestamp_mode,
{
}

/// The value that a property reads as is what the settings hold under that name.
pub proof fn law_property_reads_its_setting<R, H, A, V, C>(source: NdiSrcView<R, H, A, V, C>)
    ensures
        source.property("ndi-name"@) == PropertyValueView::Text(source.settings.ndi_name),
        source.property("url-address"@) == PropertyValueView::Text(source.settings.url_address),
        source.property("receiver-ndi-name"@) == PropertyValueView::Text(
            Some(source.settings.receiver_ndi_name),
        ),
        source.property("connect-timeout"@) == PropertyValueView::UInt(
            source.settings.connect_timeout,
        ),
        source.property("timeout"@) == PropertyValueView::UInt(source.settings.timeout),
        source.property("max-queue-length"@) == PropertyValueView::UInt(
            source.settings.max_queue_length,
        ),
        source.property("bandwidth"@) == PropertyValueView::Int(source.settings.bandwidth),
        source.property("color-format"@) == PropertyValueView::ColorFormat(
            source.settings.color_format,
        ),
        source.property("timestamp-mode"@) == PropertyValueView::TimestampMode(
            source.settings.timestamp_mode,
        ),
{
    law_nine_names("ndi-name"@);
    law_nine_names("url-address"@);
    law_nine_names("receiver-ndi-name"@);
    law_nine_names("connect-timeout"@);
    law_nine_names("timeout"@);
    law_nine_names("max-queue-length"@);
    law_nine_names("bandwidth"@);
    law_nine_names("color-format"@);
    law_nine_names("timestamp-mode"@);
}

/// The receiver is connected with exactly the values that the properties read as.
pub proof fn law_request_is_what_the_properties_read<R, H, A, V, C>(
    source: NdiSrcView<R, H, A, V, C>,
    request: ConnectRequest,
)
    requires
        request.follows(source.settings),
    ensures
        source.property("ndi-name"@) == PropertyValueView::Text(
            match request.ndi_name {
                Some(text) => Some(text@),
                None => None,
            },
        ),
        source.property("url-address"@) == PropertyValueView::Text(
            match request.url_address {
                Some(text) => Some(text@),
                None => None,
            },
        ),
        source.property("receiver-ndi-name"@) == PropertyValueView::Text(
            Some(request.receiver_ndi_name@),
        ),
        source.property("connect-timeout"@) == PropertyValueView::UInt(request.connect_timeout),
        source.property("timeout"@) == PropertyValueView::UInt(request.timeout),
        source.property("max-queue-length"@) matches PropertyValueView::UInt(length) && length
            == request.max_queue_length,
        source.property("bandwidth"@) == PropertyValueView::Int(request.bandwidth),
        source.property("color-format"@) == PropertyValueView::ColorFormat(request.color_format),
        source.property("timestamp-mode"@) == PropertyValueView::TimestampMode(
            request.timestamp_mode,
        ),
{
    law_property_reads_its_setting(source);
}

/// A start is refused exactly if both the sender's name and its address read as no
/// text.
pub proof fn law_start_needs_a_name_or_an_address<R, H, A, V, C>(
    source: NdiSrcView<R, H, A, V, C>,
)
    ensures
        !source.settings.names_sender() <==> source.property("ndi-name"@)
            == PropertyValueView::Text(None) && source.property("url-address"@)
            == PropertyValueView::Text(None),
{
    law_property_reads_its_setting(source);
}

/// A start after a property was set requests that very value, and everything else as
/// a start before would have. Only the receiver's name, set to no text, is requested
/// as the default name.
pub proof fn law_start_requests_what_was_set<R, H, A, V, C>(
    source: NdiSrcView<R, H, A, V, C>,
    name: Seq<char>,
    value: PropertyValueView,
    before: ConnectRequest,
    later: ConnectRequest,
)
    requires
        NdiSrcView::<R, H, A, V, C>::accepts(name, value),
        before.follows(source.settings),
        later.follows(source.set_property(name, value).settings),
    ensures
        if name == "ndi-name"@ {
            value == PropertyValueView::Text(later.ndi_name.deep_view())
        } else {
            later.ndi_name.deep_view() == before.ndi_name.deep_view()
        },
        if name == "url-address"@ {
            value == PropertyValueView::Text(later.url_address.deep_view())
        } else {
            later.url_address.deep_view() == before.url_address.deep_view()
        },
        if name == "receiver-ndi-name"@ {
            ||| value == PropertyValueView::Text(Some(later.receiver_ndi_name@))
            ||| value == PropertyValueView::Text(None) && later.receiver_ndi_name@
                == source.default_receiver_ndi_name
        } else {
            later.receiver_ndi_name@ == before.receiver_ndi_name@
        },
        if name == "connect-timeout"@ {
            value == PropertyValueView::UInt(later.connect_timeout)
        } else {
            later.connect_timeout == before.connect_timeout
        },
        if name == "timeout"@ {
            value == PropertyValueView::UInt(later.timeout)
        } else {
            later.timeout == before.timeout
        },
        if name == "max-queue-length"@ {
            value matches PropertyValueView::UInt(length) && length == later.max_queue_length
        } else {
            later.max_queue_length == before.max_queue_length
        },
        if name == "bandwidth"@ {
            value == PropertyValueView::Int(later.bandwidth)
        } else {
            later.bandwidth == before.bandwidth
        },
        if name == "color-format"@ {
            value == PropertyValueView::ColorFormat(later.color_format)
        } else {
            later.color_format == before.color_format
        },
        if name == "timestamp-mode"@ {
            value == PropertyValueView::TimestampMode(later.timestamp_mode)
        } else {
            later.timestamp_mode == before.timestamp_mode
        },
{
    law_nine_names(name);
}

/// A new element that was only told the sender's name connects to that name alone, and
/// otherwise as the declarations have it by default.
pub proof fn law_new_source_requests_the_defaults<R, H, A, V, C>(
    default_receiver_ndi_name: Seq<char>,
    sender: Seq<char>,
    request: ConnectRequest,
)
    requires
        request.follows(
            NdiSrcView::<R, H, A, V, C>::initial(default_receiver_ndi_name).set_property(
                "ndi-name"@,
                PropertyValueView::Text(Some(sender)),
            ).settings,
        ),
    ensures
        request.ndi_name matches Some(text) && text@ == sender,
        request.url_address is None,
        request.receiver_ndi_name@ == default_receiver_ndi_name,
        request.connect_timeout == 10000,
        request.timeout == 5000,
        request.max_queue_length == 10,
        request.bandwidth == 100,
        request.color_format == RecvColorFormat::UyvyBgra,
        request.timestamp_mode == TimestampMode::ReceiveTimeTimecode,
{
    law_nine_names("ndi-name"@);
}

/// A new element is not connected, knows nothing, and starts with its own name as the
/// receiver's.
pub proof fn law_new_source_is_unconnected<R, H, A, V, C>(default_receiver_ndi_name: Seq<char>)
    ensures
        ({
            let source = NdiSrcView::<R, H, A, V, C>::initial(default_receiver_ndi_name);
            &&& source.receiver_controller is None
            &&& source.state.receiver is None
            &&& source.state.audio_info is None
            &&& source.state.audio_caps is None
            &&& source.state.video_info is None
            &&& source.state.video_caps is None
            &&& source.state.current_latency is None
            &&& source.default_receiver_ndi_name == default_receiver_ndi_name
            &&& !source.settings.names_sender()
            &&& source.settings == SettingsView::defaults(default_receiver_ndi_name)
        }),
{
}

/// A declaration can be read and written, goes by the property's name, and says of
/// each property which values it takes: any text, any unsigned number, a bandwidth
/// from -10 to 100, any format and any mode.
pub proof fn law_declaration_says_what_a_property_takes(
    property: Property,
    receiver_ndi_name: Seq<char>,
    declaration: PropertySpec,
    value: PropertyValueView,
)
    requires
        declaration@ == property.spec_declaration(receiver_ndi_name),
    ensures
        Property::named(declaration.name@) == Some(property),
        declaration.nick@ == property.spec_nick(),
        declaration.blurb@ == property.spec_blurb(),
        declaration.readable,
        declaration.writable,
        match declaration.range {
            ValueRange::Text { default } => match property {
                Property::NdiName | Property::UrlAddress => default is None,
                Property::ReceiverNdiName => default matches Some(name) && name@
                    == receiver_ndi_name,
                _ => false,
            },
            ValueRange::UInt { minimum, maximum, default } => {
                &&& minimum == 0
                &&& maximum == u32::MAX
                &&& match property {
                    Property::ConnectTimeout => default == 10000,
                    Property::Timeout => default == 5000,
                    Property::MaxQueueLength => default == 10,
                    _ => false,
                }
            },
            ValueRange::Int { minimum, maximum, default } => {
                &&& property == Property::Bandwidth
                &&& minimum == -10
                &&& maximum == 100
                &&& default == 100
            },
            ValueRange::ColorFormat { default } => {
                &&& property == Property::ColorFormat
                &&& default == RecvColorFormat::UyvyBgra
            },
            ValueRange::TimestampMode { default } => {
                &&& property == Property::TimestampMode
                &&& default == TimestampMode::ReceiveTimeTimecode
            },
        },
        declaration.range@.admits(value) <==> match property {
            Property::NdiName | Property::UrlAddress | Property::ReceiverNdiName => value is Text,
            Property::ConnectTimeout | Property::Timeout | Property::MaxQueueLength => value
                is UInt,
            Property::Bandwidth => value matches PropertyValueView::Int(number) && -10 <= number
                <= 100,
            Property::ColorFormat => value is ColorFormat,
            Property::TimestampMode => value is TimestampMode,
        },
{
    law_name_identifies_property(property);
}

/// A letter of a label as it stands in a name: in lower case, with a dash for what
/// separates words.
pub open spec fn as_in_name(letter: char) -> char {
    if 'A' <= letter <= 'Z' {
        (letter as u32 + 32) as char
    } else if letter == ' ' || letter == '/' {
        '-'
    } else {
        letter
    }
}

/// A property's label is its name, written for people.
pub proof fn law_label_is_the_name(property: Property)
    ensures
        property.spec_name() == property.spec_nick().map_values(|c: char| as_in_name(c)),
{
    reveal_strlit("ndi-name");
    reveal_strlit("url-address");
    reveal_strlit("receiver-ndi-name");
    reveal_strlit("connect-timeout");
    reveal_strlit("timeout");
    reveal_strlit("max-queue-length");
    reveal_strlit("bandwidth");
    reveal_strlit("color-format");
    reveal_strlit("timestamp-mode");
    reveal_strlit("NDI Name");
    reveal_strlit("URL/Address");
    reveal_strlit("Receiver NDI Name");
    reveal_strlit("Connect Timeout");
    reveal_strlit("Timeout");
    reveal_strlit("Max Queue Length");
    reveal_strlit("Bandwidth");
    reveal_strlit("Color Format");
    reveal_strlit("Timestamp Mode");
    assert(property.spec_name() =~= property.spec_nick().map_values(|c: char| as_in_name(c)));
}

/// What each property is said to be for.
pub proof fn law_blurb_tells_the_purpose(property: Property)
    ensures
        property == Property::NdiName ==> property.spec_blurb()
            == "NDI stream name of the sender"@,
        property == Property::UrlAddress ==> property.spec_blurb()
            == "URL/address and port of the sender, e.g. 127.0.0.1:5961"@,
        property == Property::ReceiverNdiName ==> property.spec_blurb()
            == "NDI stream name of this receiver"@,
        property == Property::ConnectTimeout ==> property.spec_blurb()
            == "Connection timeout in ms"@,
        property == Property::Timeout ==> property.spec_blurb() == "Receive timeout in ms"@,
        property == Property::MaxQueueLength ==> property.spec_blurb()
            == "Maximum receive queue length"@,
        property == Property::Bandwidth ==> property.spec_blurb()
            == "Bandwidth, -10 metadata-only, 10 audio-only, 100 highest"@,
        property == Property::ColorFormat ==> property.spec_blurb() == "Receive color format"@,
        property == Property::TimestampMode ==> property.spec_blurb()
            == "Timestamp information to use for outgoing PTS"@,
{
}

} // verus!
