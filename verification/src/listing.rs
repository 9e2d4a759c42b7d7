//! Which sessions and devices of a pass are shown, and how.

use vstd::prelude::*;
use crate::session::{
    AudioDeviceInfoView, AudioSessionInfo, AudioSessionInfoView, DeviceReadingView, PropertyValue,
    PropertyValueView, SessionReading, SessionReadingView, SessionState, SimpleVolume,
};
use crate::text::{decode_utf16_lossy, file_name, path_file_name, text_of, utf16_text_lossy};
use crate::volume::{Volume, ZERO_BITS};

verus! {

/// The variant type tag of a pointer to a wide string.
pub const VT_LPWSTR: u16 = 31;

/// Whether a session is shown: its process is known and is not the system's
/// (process 0), it was not seen expired, and, unless inactive sessions are
/// shown, it was not seen inactive.
pub open spec fn is_listed(session: SessionReadingView, include_inactive: bool) -> bool {
    &&& session.process_id is Some
    &&& session.process_id != Some(0u32)
    &&& session.state != Some(SessionState::Expired)
    &&& (include_inactive || session.state != Some(SessionState::Inactive))
}

/// The name under which a process is shown: the product name of its
/// executable, else the file name of the executable, else "Unknown" where the
/// executable is not known.
pub open spec fn display_name(
    executable_path: Option<Seq<char>>,
    product_name: Option<Seq<char>>,
) -> Seq<char> {
    match executable_path {
        Some(path) => match product_name {
            Some(name) => name,
            None => file_name(path),
        },
        None => "Unknown"@,
    }
}

/// The level that is shown for a session: the reading brought into the unit
/// interval, or silence where there is no reading.
pub open spec fn shown_volume(control: Option<SimpleVolume>) -> Volume {
    match control {
        Some(SimpleVolume { volume: Some(bits), mute: _ }) => Volume::spec_from_reading(bits),
        _ => Volume::with_bits(ZERO_BITS),
    }
}

/// The mute flag that is shown for a session: the reading, or unmuted where
/// there is no reading.
pub open spec fn shown_mute(control: Option<SimpleVolume>) -> bool {
    match control {
        Some(SimpleVolume { volume: _, mute: Some(flag) }) => flag,
        _ => false,
    }
}

/// The entry that stands for a listed session of the device `device_id`.
pub open spec fn session_entry(
    device_id: Seq<char>,
    session: SessionReadingView,
) -> AudioSessionInfoView {
    AudioSessionInfoView {
        process_id: session.process_id->Some_0,
        process_name: display_name(session.executable_path, session.product_name),
        volume: shown_volume(session.control),
        is_muted: shown_mute(session.control),
        icon_base64: if session.executable_path is Some {
            session.icon_base64
        } else {
            None
        },
        device_id,
    }
}

/// The entries of the listed sessions among `sessions`, in their order.
pub open spec fn sessions_listed(
    device_id: Seq<char>,
    sessions: Seq<SessionReadingView>,
    include_inactive: bool,
) -> Seq<AudioSessionInfoView>
    decreases sessions.len(),
{
    if sessions.len() == 0 {
        Seq::empty()
    } else {
        let front = sessions_listed(device_id, sessions.drop_last(), include_inactive);
        if is_listed(sessions.last(), include_inactive) {
            front.push(session_entry(device_id, sessions.last()))
        } else {
            front
        }
    }
}

/// The entries that one device contributes: those of its listed sessions,
/// or none where its identifier or its sessions are not known.
pub open spec fn device_sessions_listed(
    device: DeviceReadingView,
    include_inactive: bool,
) -> Seq<AudioSessionInfoView> {
    if device.id is Some && device.sessions is Some {
        sessions_listed(device.id->Some_0, device.sessions->Some_0, include_inactive)
    } else {
        Seq::empty()
    }
}

/// The session list of a pass: the entries of the devices one after the
/// other, in the order of the devices.
pub open spec fn session_listing(
    devices: Seq<DeviceReadingView>,
    include_inactive: bool,
) -> Seq<AudioSessionInfoView>
    decreases devices.len(),
{
    if devices.len() == 0 {
        Seq::empty()
    } else {
        session_listing(devices.drop_last(), include_inactive) + device_sessions_listed(
            devices.last(),
            include_inactive,
        )
    }
}

/// Whether the session `i` of the device `d` exists, belongs to a device
/// that contributes to the list, and is listed.
pub open spec fn is_listed_at(
    devices: Seq<DeviceReadingView>,
    include_inactive: bool,
    d: int,
    i: int,
) -> bool {
    &&& 0 <= d < devices.len()
    &&& devices[d].id is Some
    &&& devices[d].sessions is Some
    &&& 0 <= i < devices[d].sessions->Some_0.len()
    &&& is_listed(devices[d].sessions->Some_0[i], include_inactive)
}

/// The number of entries that stand before the entry of the session `i` of
/// the device `d`: those of the devices before `d`, and those of the
/// sessions of `d` before `i`.
pub open spec fn position(
    devices: Seq<DeviceReadingView>,
    include_inactive: bool,
    d: int,
    i: int,
) -> int {
    session_listing(devices.take(d), include_inactive).len() as int + sessions_listed(
        devices[d].id->Some_0,
        devices[d].sessions->Some_0.take(i),
        include_inactive,
    ).len() as int
}

/// The entry of the session `i` of the device `d`.
pub open spec fn entry_at(devices: Seq<DeviceReadingView>, d: int, i: int) -> AudioSessionInfoView {
    session_entry(devices[d].id->Some_0, devices[d].sessions->Some_0[i])
}

/// The name under which a device is shown: its friendly name where the
/// property holds a wide string, else "Unknown Device".
pub open spec fn device_name(friendly_name: Option<PropertyValueView>) -> Seq<char> {
    match friendly_name {
        Some(PropertyValueView { kind, text: Some(units) }) => if kind == VT_LPWSTR {
            utf16_text_lossy(units)
        } else {
            "Unknown Device"@
        },
        _ => "Unknown Device"@,
    }
}

/// The device list of a pass: one entry for each device whose identifier is
/// known, in the order of the devices.
pub open spec fn device_listing(devices: Seq<DeviceReadingView>) -> Seq<AudioDeviceInfoView>
    decreases devices.len(),
{
    if devices.len() == 0 {
        Seq::empty()
    } else {
        let front = device_listing(devices.drop_last());
        match devices.last().id {
            Some(id) => front.push(
                AudioDeviceInfoView { id, name: device_name(devices.last().friendly_name) },
            ),
            None => front,
        }
    }
}

/// Listing one more session appends its entry, where it is listed.
pub proof fn lemma_sessions_listed_step(
    device_id: Seq<char>,
    sessions: Seq<SessionReadingView>,
    include_inactive: bool,
    i: int,
)
    requires
        0 <= i < sessions.len(),
    ensures
        sessions_listed(device_id, sessions.take(i + 1), include_inactive) == if is_listed(
            sessions[i],
            include_inactive,
        ) {
            sessions_listed(device_id, sessions.take(i), include_inactive).push(
                session_entry(device_id, sessions[i]),
            )
        } else {
            sessions_listed(device_id, sessions.take(i), include_inactive)
        },
{
    assert(sessions.take(i + 1).drop_last() == sessions.take(i));
}

/// Listing one more device appends its entries.
pub proof fn lemma_session_listing_step(
    devices: Seq<DeviceReadingView>,
    include_inactive: bool,
    d: int,
)
    requires
        0 <= d < devices.len(),
    ensures
        session_listing(devices.take(d + 1), include_inactive) == session_listing(
            devices.take(d),
            include_inactive,
        ) + device_sessions_listed(devices[d], include_inactive),
{
    assert(devices.take(d + 1).drop_last() == devices.take(d));
}

/// Listing one more device appends its entry, where its identifier is known.
pub proof fn lemma_device_listing_step(devices: Seq<DeviceReadingView>, d: int)
    requires
        0 <= d < devices.len(),
    ensures
        device_listing(devices.take(d + 1)) == match devices[d].id {
            Some(id) => device_listing(devices.take(d)).push(
                AudioDeviceInfoView { id, name: device_name(devices[d].friendly_name) },
            ),
            None => device_listing(devices.take(d)),
        },
{
    assert(devices.take(d + 1).drop_last() == devices.take(d));
}

/// The name under which the process of a session is shown.
pub fn process_display_name(executable_path: &Option<String>, product_name: &Option<String>) -> (name:
    String)
    ensures
        name@ == display_name(text_of(*executable_path), text_of(*product_name)),
{
    match executable_path {
        Some(path) => match product_name {
            Some(product) => product.clone(),
            None => path_file_name(path.as_str()),
        },
        None => "Unknown".to_owned(),
    }
}

/// The name under which a device is shown.
pub fn device_display_name(friendly_name: &Option<PropertyValue>) -> (name: String)
    ensures
        name@ == device_name(
            match *friendly_name {
                Some(value) => Some(value@),
                None => None,
            },
        ),
{
    match friendly_name {
        Some(value) => match &value.text {
            Some(units) => if value.kind == VT_LPWSTR {
                decode_utf16_lossy(units.as_slice())
            } else {
                "Unknown Device".to_owned()
            },
            None => "Unknown Device".to_owned(),
        },
        None => "Unknown Device".to_owned(),
    }
}

impl SessionReading {
    /// Whether the session is shown under the given policy.
    pub fn is_listed(&self, include_inactive: bool) -> (r: bool)
        ensures
            r == is_listed(self@, include_inactive),
    {
        let known = match self.process_id {
            Some(pid) => pid != 0,
            None => false,
        };
        let visible = match self.state {
            Some(SessionState::Expired) => false,
            Some(SessionState::Inactive) => include_inactive,
            _ => true,
        };
        known && visible
    }

    /// The level that is shown for the session.
    pub fn shown_volume(&self) -> (v: Volume)
        ensures
            v == shown_volume(self@.control),
    {
        match self.control {
            Some(SimpleVolume { volume: Some(bits), mute: _ }) => Volume::from_reading(bits),
            _ => Volume::silent(),
        }
    }

    /// The mute flag that is shown for the session.
    pub fn shown_mute(&self) -> (m: bool)
        ensures
            m == shown_mute(self@.control),
    {
        match self.control {
            Some(SimpleVolume { volume: _, mute: Some(flag) }) => flag,
            _ => false,
        }
    }

    /// The entry that stands for the session in the list of the device
    /// `device_id`.
    pub(crate) fn entry(&self, device_id: &String) -> (e: AudioSessionInfo)
        requires
            self.process_id is Some,
        ensures
            e@ == session_entry(device_id@, self@),
    {
        let process_id = match self.process_id {
            Some(pid) => pid,
            None => 0,
        };
        let icon_base64 = match (&self.executable_path, &self.icon_base64) {
            (Some(_), Some(icon)) => Some(icon.clone()),
            _ => None,
        };
        AudioSessionInfo {
            process_id,
            process_name: process_display_name(&self.executable_path, &self.product_name),
            volume: self.shown_volume(),
            is_muted: self.shown_mute(),
            icon_base64,
            device_id: device_id.clone(),
        }
    }
}

} // verus!
