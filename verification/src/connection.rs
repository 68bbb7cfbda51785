//! What passes between the element and its receiver besides the data.
use crate::framework::StateChange;
use crate::property::{RecvColorFormat, TimestampMode};
use crate::settings::{copy_text, Settings, SettingsView};
use vstd::prelude::*;

verus! {

/// How to connect a receiver.
#[derive(Debug, PartialEq, Eq)]
pub struct ConnectRequest {
    pub ndi_name: Option<String>,
    pub url_address: Option<String>,
    pub receiver_ndi_name: String,
    pub connect_timeout: u32,
    pub bandwidth: i32,
    pub color_format: RecvColorFormat,
    pub timestamp_mode: TimestampMode,
    pub timeout: u32,
    pub max_queue_length: usize,
}

impl ConnectRequest {
    /// Whether the receiver is to be connected as `settings` say.
    pub open spec fn follows(self, settings: SettingsView) -> bool {
        &&& self.ndi_name.deep_view() == settings.ndi_name
        &&& self.url_address.deep_view() == settings.url_address
        &&& self.receiver_ndi_name@ == settings.receiver_ndi_name
        &&& self.connect_timeout == settings.connect_timeout
        &&& self.bandwidth == settings.bandwidth
        &&& self.color_format == settings.color_format
        &&& self.timestamp_mode == settings.timestamp_mode
        &&& self.timeout == settings.timeout
        &&& self.max_queue_length == settings.max_queue_length
    }
}

impl Settings {
    /// How to connect a receiver; nothing if there is no sender to connect to.
    pub fn connect_request(&self) -> (request: Option<ConnectRequest>)
        ensures
            request is Some <==> self@.names_sender(),
            request matches Some(r) ==> r.follows(self@),
    {
        if self.ndi_name.is_none() && self.url_address.is_none() {
            return None;
        }
        Some(
            ConnectRequest {
                ndi_name: copy_text(&self.ndi_name),
                url_address: copy_text(&self.url_address),
                receiver_ndi_name: self.receiver_ndi_name.clone(),
                connect_timeout: self.connect_timeout,
                bandwidth: self.bandwidth,
                color_format: self.color_format,
                timestamp_mode: self.timestamp_mode,
                timeout: self.timeout,
                max_queue_length: self.max_queue_length as usize,
            },
        )
    }
}

impl SettingsView {
    /// Whether there is a sender to connect to.
    pub open spec fn names_sender(self) -> bool {
        self.ndi_name is Some || self.url_address is Some
    }
}

/// What the receiver can be told while it is connected.
#[derive(Clone, Copy, Debug, PartialEq, Eq, Structural)]
pub enum ControlCommand {
    SetPlaying(bool),
    SetFlushing(bool),
    Shutdown,
}

impl ControlCommand {
    /// What the receiver has to be told about `transition`.
    pub open spec fn spec_for_transition(transition: StateChange) -> Option<ControlCommand> {
        match transition {
            StateChange::PausedToPlaying => Some(ControlCommand::SetPlaying(true)),
            StateChange::PlayingToPaused => Some(ControlCommand::SetPlaying(false)),
            StateChange::PausedToReady => Some(ControlCommand::Shutdown),
            _ => None,
        }
    }

    /// What the receiver has to be told about `transition`.
    pub fn for_transition(transition: StateChange) -> (command: Option<ControlCommand>)
        ensures
            command == Self::spec_for_transition(transition),
    {
        match transition {
            StateChange::PausedToPlaying => Some(ControlCommand::SetPlaying(true)),
            StateChange::PlayingToPaused => Some(ControlCommand::SetPlaying(false)),
            StateChange::PausedToReady => Some(ControlCommand::Shutdown),
            _ => None,
        }
    }
}

} // verus!
