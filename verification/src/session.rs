//! What one pass over the endpoint tree found, as plain values.
//!
//! The embedding program walks the output devices and their sessions and
//! records each answer, or the lack of one, in the readings of this module.
//! The rules of the mixer are functions of these readings.

use vstd::prelude::*;
use crate::text::text_of;
use crate::volume::Volume;

verus! {

/// Lifecycle state of a session.
#[derive(Clone, Copy, Debug, PartialEq, Eq, Structural)]
pub enum SessionState {
    /// The session exists but no stream of it is running.
    Inactive,
    /// At least one stream of the session is running.
    Active,
    /// The session has no streams left and is going away.
    Expired,
}

impl SessionState {
    /// The state that the audio subsystem denotes by `raw`, if any.
    pub open spec fn spec_from_raw(raw: i32) -> Option<SessionState> {
        if raw == 0 {
            Some(SessionState::Inactive)
        } else if raw == 1 {
            Some(SessionState::Active)
        } else if raw == 2 {
            Some(SessionState::Expired)
        } else {
            None
        }
    }

    /// Decodes the state number of the audio subsystem: 0 is inactive, 1 is
    /// active, 2 is expired, and no other number denotes a state.
    #[verifier::when_used_as_spec(spec_from_raw)]
    pub fn from_raw(raw: i32) -> (r: Option<SessionState>)
        ensures
            r == Self::spec_from_raw(raw),
    {
        if raw == 0 {
            Some(SessionState::Inactive)
        } else if raw == 1 {
            Some(SessionState::Active)
        } else if raw == 2 {
            Some(SessionState::Expired)
        } else {
            None
        }
    }
}

/// What the volume control of a session answered.
#[derive(Clone, Copy, Debug, PartialEq, Eq, Structural)]
pub struct SimpleVolume {
    /// Bit pattern of the level, or `None` where it could not be read.
    pub volume: Option<u32>,
    /// The mute flag, or `None` where it could not be read.
    pub mute: Option<bool>,
}

/// One session of a device, as far as it answered.
#[derive(Clone, Debug, PartialEq, Eq)]
pub struct SessionReading {
    /// The owning process, or `None` where the session did not tell.
    pub process_id: Option<u32>,
    /// The lifecycle state, or `None` where it was not learned.
    pub state: Option<SessionState>,
    /// The answers of the volume control, or `None` where the session offers
    /// no such control.
    pub control: Option<SimpleVolume>,
    /// Path of the executable of the owning process, where it was resolved.
    pub executable_path: Option<String>,
    /// Display name found in the executable, where there is one.
    pub product_name: Option<String>,
    /// Icon of the executable as base64 text of a PNG image, where there is one.
    pub icon_base64: Option<String>,
}

/// A [`SessionReading`] with its texts as sequences of characters.
pub struct SessionReadingView {
    pub process_id: Option<u32>,
    pub state: Option<SessionState>,
    pub control: Option<SimpleVolume>,
    pub executable_path: Option<Seq<char>>,
    pub product_name: Option<Seq<char>>,
    pub icon_base64: Option<Seq<char>>,
}

impl View for SessionReading {
    type V = SessionReadingView;

    open spec fn view(&self) -> SessionReadingView {
        SessionReadingView {
            process_id: self.process_id,
            state: self.state,
            control: self.control,
            executable_path: text_of(self.executable_path),
            product_name: text_of(self.product_name),
            icon_base64: text_of(self.icon_base64),
        }
    }
}

/// The views of a sequence of session readings.
pub open spec fn session_views(sessions: Seq<SessionReading>) -> Seq<SessionReadingView> {
    Seq::new(sessions.len(), |i: int| sessions[i]@)
}

/// A property of a device as the property store returned it.
#[derive(Clone, Debug, PartialEq, Eq)]
pub struct PropertyValue {
    /// The variant type tag of the value.
    pub kind: u16,
    /// The UTF-16 code units of the value, without terminator, where the
    /// value points at a string.
    pub text: Option<Vec<u16>>,
}

/// A [`PropertyValue`] with its text as a sequence of code units.
pub struct PropertyValueView {
    pub kind: u16,
    pub text: Option<Seq<u16>>,
}

impl View for PropertyValue {
    type V = PropertyValueView;

    open spec fn view(&self) -> PropertyValueView {
        PropertyValueView {
            kind: self.kind,
            text: match self.text {
                Some(units) => Some(units@),
                None => None,
            },
        }
    }
}

/// One active output device, as far as it answered.
#[derive(Clone, Debug, PartialEq, Eq)]
pub struct DeviceReading {
    /// The stable identifier of the device, or `None` where it was not read.
    pub id: Option<String>,
    /// The friendly-name property, or `None` where the property store gave
    /// no answer.
    pub friendly_name: Option<PropertyValue>,
    /// The sessions of the device in the order of their enumeration, or
    /// `None` where they could not be enumerated.
    pub sessions: Option<Vec<SessionReading>>,
}

/// A [`DeviceReading`] with its texts and sessions as sequences.
pub struct DeviceReadingView {
    pub id: Option<Seq<char>>,
    pub friendly_name: Option<PropertyValueView>,
    pub sessions: Option<Seq<SessionReadingView>>,
}

impl View for DeviceReading {
    type V = DeviceReadingView;

    open spec fn view(&self) -> DeviceReadingView {
        DeviceReadingView {
            id: text_of(self.id),
            friendly_name: match self.friendly_name {
                Some(value) => Some(value@),
                None => None,
            },
            sessions: match self.sessions {
                Some(sessions) => Some(session_views(sessions@)),
                None => None,
            },
        }
    }
}

/// The views of a sequence of device readings.
pub open spec fn device_views(devices: Seq<DeviceReading>) -> Seq<DeviceReadingView> {
    Seq::new(devices.len(), |d: int| devices[d]@)
}

/// A session as the user interface shows it.
#[derive(Clone, Debug, PartialEq, Eq)]
pub struct AudioSessionInfo {
    pub process_id: u32,
    pub process_name: String,
    pub volume: Volume,
    pub is_muted: bool,
    pub icon_base64: Option<String>,
    /// Identifier of the output device that the session plays on.
    pub device_id: String,
}

/// An [`AudioSessionInfo`] with its texts as sequences of characters.
pub struct AudioSessionInfoView {
    pub process_id: u32,
    pub process_name: Seq<char>,
    pub volume: Volume,
    pub is_muted: bool,
    pub icon_base64: Option<Seq<char>>,
    pub device_id: Seq<char>,
}

impl View for AudioSessionInfo {
    type V = AudioSessionInfoView;

    open spec fn view(&self) -> AudioSessionInfoView {
        AudioSessionInfoView {
            process_id: self.process_id,
            process_name: self.process_name@,
            volume: self.volume,
            is_muted: self.is_muted,
            icon_base64: text_of(self.icon_base64),
            device_id: self.device_id@,
        }
    }
}

/// The views of a sequence of listed sessions.
pub open spec fn info_views(entries: Seq<AudioSessionInfo>) -> Seq<AudioSessionInfoView> {
    Seq::new(entries.len(), |k: int| entries[k]@)
}

/// An output device as the user interface shows it.
#[derive(Clone, Debug, PartialEq, Eq)]
pub struct AudioDeviceInfo {
    pub id: String,
    pub name: String,
}

/// An [`AudioDeviceInfo`] with its texts as sequences of characters.
pub struct AudioDeviceInfoView {
    pub id: Seq<char>,
    pub name: Seq<char>,
}

impl View for AudioDeviceInfo {
    type V = AudioDeviceInfoView;

    open spec fn view(&self) -> AudioDeviceInfoView {
        AudioDeviceInfoView { id: self.id@, name: self.name@ }
    }
}

/// The views of a sequence of listed devices.
pub open spec fn device_info_views(entries: Seq<AudioDeviceInfo>) -> Seq<AudioDeviceInfoView> {
    Seq::new(entries.len(), |k: int| entries[k]@)
}

} // verus!
