//! What the handle to a receiver is for: commands reach the connected receiver, and
//! nobody else.
use crate::connection::ControlCommand;
use crate::framework::StateChange;
use crate::laws::{after_all, law_controller_lasts_until_stop, Event};
use crate::ndi_src::NdiSrcView;
use crate::state::State;
use vstd::prelude::*;

verus! {

/// An element with a handle addresses every command to that handle, as the very
/// command it is, whatever else it knows or is doing.
pub proof fn law_command_reaches_the_handle<R, H, A, V, C>(
    source: NdiSrcView<R, H, A, V, C>,
    controller: H,
    command: ControlCommand,
    told: Option<(&H, ControlCommand)>,
)
    requires
        source.receiver_controller == Some(controller),
        source.tells(command, told),
    ensures
        told matches Some((handle, what)) && *handle == controller && what == command,
{
}

/// An element without a handle tells nobody anything, whatever else it knows or is
/// doing.
pub proof fn law_command_reaches_nobody_without_a_handle<R, H, A, V, C>(
    source: NdiSrcView<R, H, A, V, C>,
    command: ControlCommand,
    told: Option<(&H, ControlCommand)>,
)
    requires
        source.receiver_controller is None,
        source.tells(command, told),
    ensures
        told is None,
{
}

/// What is told depends on the handle and the command alone: two elements with one
/// handle tell the same.
pub proof fn law_only_the_handle_decides_who_is_told<R, H, A, V, C>(
    one: NdiSrcView<R, H, A, V, C>,
    other: NdiSrcView<R, H, A, V, C>,
    command: ControlCommand,
    told_one: Option<(&H, ControlCommand)>,
    told_other: Option<(&H, ControlCommand)>,
)
    requires
        one.receiver_controller == other.receiver_controller,
        one.tells(command, told_one),
        other.tells(command, told_other),
    ensures
        told_one == told_other,
{
}

/// From a connection until the next connection or stop, every command is addressed to
/// the handle that came with the connection, also while the receiver is out for a
/// capture.
pub proof fn law_connected_receiver_is_told_until_stop<R, H, B, A, V, C>(
    source: NdiSrcView<R, H, A, V, C>,
    receiver: R,
    controller: H,
    events: Seq<Event<R, H, B, A, V, C>>,
    command: ControlCommand,
    told: Option<(&H, ControlCommand)>,
)
    requires
        forall|i: int|
            0 <= i < events.len() ==> !(#[trigger] events[i] is Connected || events[i] is Stop),
        after_all(source.connected(receiver, controller), events).tells(command, told),
    ensures
        told matches Some((handle, what)) && *handle == controller && what == command,
{
    law_controller_lasts_until_stop(source.connected(receiver, controller), events);
}

/// Only the three transitions around playing and out of it are told, each as its own
/// command: into playing, back to paused, and down to ready.
pub proof fn law_transitions_are_told(transition: StateChange, playing: bool)
    ensures
        ControlCommand::spec_for_transition(transition) is Some <==> (transition
            == StateChange::PausedToPlaying || transition == StateChange::PlayingToPaused
            || transition == StateChange::PausedToReady),
        ControlCommand::spec_for_transition(transition) == Some(ControlCommand::SetPlaying(playing))
            <==> (if playing {
            transition == StateChange::PausedToPlaying
        } else {
            transition == StateChange::PlayingToPaused
        }),
        ControlCommand::spec_for_transition(transition) == Some(ControlCommand::Shutdown)
            <==> transition == StateChange::PausedToReady,
{
}

/// A connection brings its receiver and its handle, and changes nothing else.
pub proof fn law_connection_brings_receiver_and_handle<R, H, A, V, C>(
    source: NdiSrcView<R, H, A, V, C>,
    receiver: R,
    controller: H,
)
    ensures
        ({
            let connected = source.connected(receiver, controller);
            &&& connected.receiver_controller == Some(controller)
            &&& connected.state.receiver == Some(receiver)
            &&& connected.state.audio_info == source.state.audio_info
            &&& connected.state.audio_caps == source.state.audio_caps
            &&& connected.state.video_info == source.state.video_info
            &&& connected.state.video_caps == source.state.video_caps
            &&& connected.state.current_latency == source.state.current_latency
            &&& connected.settings == source.settings
            &&& connected.default_receiver_ndi_name == source.default_receiver_ndi_name
        }),
{
}

/// Stopping gives up the handle alone; what else changes, changes the state alone.
pub proof fn law_handle_and_state_change_apart<R, H, A, V, C>(
    source: NdiSrcView<R, H, A, V, C>,
    state: State<R, A, V, C>,
)
    ensures
        source.without_controller().receiver_controller is None,
        source.without_controller().state == source.state,
        source.without_controller().settings == source.settings,
        source.without_controller().default_receiver_ndi_name == source.default_receiver_ndi_name,
        source.with_state(state).state == state,
        source.with_state(state).receiver_controller == source.receiver_controller,
        source.with_state(state).settings == source.settings,
        source.with_state(state).default_receiver_ndi_name == source.default_receiver_ndi_name,
        source.stopped().receiver_controller is None,
        source.stopped().state.receiver is None,
        source.stopped().state.audio_info is None,
        source.stopped().state.audio_caps is None,
        source.stopped().state.video_info is None,
        source.stopped().state.video_caps is None,
        source.stopped().state.current_latency is None,
        source.stopped().settings == source.settings,
{
}

} // verus!
