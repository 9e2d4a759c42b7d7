//! The bridge from the notifications of a session to the events of the
//! host.
//!
//! The audio subsystem calls back once for each change of a session. Only
//! a change of level or mute flag and a change of state are passed on; the
//! other notifications are acknowledged and dropped.

use vstd::prelude::*;
use crate::session::SessionState;
use crate::text::text_of;
use crate::volume::Volume;

verus! {

/// What is published to the host when a session changes.
#[derive(Clone, Debug, PartialEq, Eq)]
pub struct AudioEventPayload {
    pub process_id: u32,
    pub volume: Option<Volume>,
    pub mute: Option<bool>,
    pub state: Option<String>,
}

/// An [`AudioEventPayload`] with its state as a sequence of characters.
pub struct AudioEventPayloadView {
    pub process_id: u32,
    pub volume: Option<Volume>,
    pub mute: Option<bool>,
    pub state: Option<Seq<char>>,
}

impl View for AudioEventPayload {
    type V = AudioEventPayloadView;

    open spec fn view(&self) -> AudioEventPayloadView {
        AudioEventPayloadView {
            process_id: self.process_id,
            volume: self.volume,
            mute: self.mute,
            state: text_of(self.state),
        }
    }
}

/// A notification of a session, with what it carries of interest.
#[derive(Clone, Copy, Debug, PartialEq, Eq, Structural)]
pub enum SessionNotification {
    DisplayNameChanged,
    IconPathChanged,
    /// The level, as its bit pattern, and the mute flag after the change.
    SimpleVolumeChanged { volume_bits: u32, mute: bool },
    ChannelVolumeChanged,
    GroupingParamChanged,
    /// The number of the state after the change.
    StateChanged(i32),
    /// The number of the reason for the disconnection.
    SessionDisconnected(i32),
}

/// The status that acknowledges a notification.
pub const ACKNOWLEDGED: i32 = 0;

/// The name of the channel under which the events are published.
pub fn event_channel() -> (name: &'static str)
    ensures
        name@ == "audio-session-event"@,
{
    "audio-session-event"
}

/// The label of the state with the number `raw`; a number that denotes no
/// state is labelled "Unknown".
pub open spec fn state_label_of(raw: i32) -> Seq<char> {
    match SessionState::spec_from_raw(raw) {
        Some(SessionState::Inactive) => "Inactive"@,
        Some(SessionState::Active) => "Active"@,
        Some(SessionState::Expired) => "Expired"@,
        None => "Unknown"@,
    }
}

/// The label of the state with the number `raw`.
pub fn state_label(raw: i32) -> (label: &'static str)
    ensures
        label@ == state_label_of(raw),
{
    match SessionState::from_raw(raw) {
        Some(SessionState::Inactive) => "Inactive",
        Some(SessionState::Active) => "Active",
        Some(SessionState::Expired) => "Expired",
        None => "Unknown",
    }
}

/// The event that a notification of the process `process_id` gives rise
/// to, if any.
pub open spec fn event_of(process_id: u32, notification: SessionNotification) -> Option<
    AudioEventPayloadView,
> {
    match notification {
        SessionNotification::SimpleVolumeChanged { volume_bits, mute } => Some(
            AudioEventPayloadView {
                process_id,
                volume: Some(Volume::spec_from_reading(volume_bits)),
                mute: Some(mute),
                state: None,
            },
        ),
        SessionNotification::StateChanged(raw) => Some(
            AudioEventPayloadView {
                process_id,
                volume: None,
                mute: None,
                state: Some(state_label_of(raw)),
            },
        ),
        _ => None,
    }
}

/// The view of an optional event.
pub open spec fn payload_view(payload: Option<AudioEventPayload>) -> Option<AudioEventPayloadView> {
    match payload {
        Some(event) => Some(event@),
        None => None,
    }
}

/// The receiver of the notifications of one session.
#[derive(Clone, Copy, Debug, PartialEq, Eq, Structural)]
pub struct SessionEventsListener {
    /// The process that owns the session.
    pub process_id: u32,
}

impl SessionEventsListener {
    /// The event for a change of level or mute flag. The level is brought
    /// into the unit interval.
    pub fn on_simple_volume_changed(&self, new_volume_bits: u32, new_mute: bool) -> (event:
        AudioEventPayload)
        ensures
            Some(event@) == event_of(
                self.process_id,
                SessionNotification::SimpleVolumeChanged {
                    volume_bits: new_volume_bits,
                    mute: new_mute,
                },
            ),
    {
        AudioEventPayload {
            process_id: self.process_id,
            volume: Some(Volume::from_reading(new_volume_bits)),
            mute: Some(new_mute),
            state: None,
        }
    }

    /// The event for a change of state.
    pub fn on_state_changed(&self, new_state: i32) -> (event: AudioEventPayload)
        ensures
            Some(event@) == event_of(self.process_id, SessionNotification::StateChanged(new_state)),
    {
        AudioEventPayload {
            process_id: self.process_id,
            volume: None,
            mute: None,
            state: Some(state_label(new_state).to_owned()),
        }
    }

    /// The event to publish for a notification, or `None` for a
    /// notification that is only acknowledged.
    pub fn on_notification(&self, notification: SessionNotification) -> (event: Option<
        AudioEventPayload,
    >)
        ensures
            payload_view(event) == event_of(self.process_id, notification),
    {
        match notification {
            SessionNotification::SimpleVolumeChanged { volume_bits, mute } => Some(
                self.on_simple_volume_changed(volume_bits, mute),
            ),
            SessionNotification::StateChanged(raw) => Some(self.on_state_changed(raw)),
            SessionNotification::DisplayNameChanged => None,
            SessionNotification::IconPathChanged => None,
            SessionNotification::ChannelVolumeChanged => None,
            SessionNotification::GroupingParamChanged => None,
            SessionNotification::SessionDisconnected(_) => None,
        }
    }

    /// The status to return to the audio subsystem after a notification:
    /// success, whether or not the event could be delivered to the host.
    pub fn acknowledge(delivered: bool) -> (status: i32)
        ensures
            status == ACKNOWLEDGED,
            crate::policy::succeeded(status),
    {
        ACKNOWLEDGED
    }
}

} // verus!
