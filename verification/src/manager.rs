//! The session engine: listing and control over the latest pass.

use vstd::prelude::*;
use vstd::slice::slice_subrange;
use crate::control::{
    devices_after, devices_after_request, first_accepting, is_at, lemma_first_accepting_prefix,
    lemma_first_accepting_step, lemma_target_is_first, lemma_target_prefix, lemma_target_step,
    target, SessionAction, SessionLocation,
};
use crate::error::AudioError;
use crate::events::SessionEventsListener;
use crate::listing::{
    device_display_name, device_listing, is_listed_at, lemma_device_listing_step,
    lemma_session_listing_step, lemma_sessions_listed_step, position, session_listing,
    sessions_listed,
};
use crate::policy::{routing_writes, write_views, AudioPolicyConfigFactory, EndpointWrite};
use crate::session::{
    device_info_views, device_views, info_views, session_views, AudioDeviceInfo,
    AudioSessionInfo, AudioSessionInfoView, DeviceReading, DeviceReadingView,
};
use crate::text::{decode_utf16, text_of, utf16_text};
use crate::volume::{in_unit_interval, Volume};

verus! {

/// The engine of the mixer. It holds the readings of the latest pass over
/// the endpoint tree and answers from them.
#[derive(Debug)]
pub struct AudioManager {
    devices: Option<Vec<DeviceReading>>,
    include_inactive: bool,
    events_enabled: bool,
}

/// The state of an [`AudioManager`].
pub struct AudioManagerView {
    /// The devices of the latest pass, or `None` where the devices could not
    /// be enumerated.
    pub devices: Option<Seq<DeviceReadingView>>,
    /// Whether inactive sessions are listed.
    pub include_inactive: bool,
    /// Whether session events are passed on to the host.
    pub events_enabled: bool,
}

impl View for AudioManager {
    type V = AudioManagerView;

    closed spec fn view(&self) -> AudioManagerView {
        AudioManagerView {
            devices: match self.devices {
                Some(devices) => Some(device_views(devices@)),
                None => None,
            },
            include_inactive: self.include_inactive,
            events_enabled: self.events_enabled,
        }
    }
}

impl AudioManager {
    /// An engine that has seen no pass yet. Inactive sessions are listed and
    /// events are not passed on.
    pub fn new() -> (m: AudioManager)
        ensures
            m@ == (AudioManagerView { devices: None, include_inactive: true, events_enabled: false }),
    {
        AudioManager { devices: None, include_inactive: true, events_enabled: false }
    }

    /// Records the outcome of a pass over the endpoint tree: the devices in
    /// the order of their enumeration, or `None` where they could not be
    /// enumerated.
    pub fn refresh(&mut self, pass: Option<Vec<DeviceReading>>)
        ensures
            final(self)@ == (AudioManagerView {
                devices: match pass {
                    Some(devices) => Some(device_views(devices@)),
                    None => None,
                },
                ..old(self)@
            }),
    {
        self.devices = pass;
    }

    /// Attaches the event channel of the host: from now on listeners are
    /// handed out for the listed sessions.
    pub fn set_app_handle(&mut self)
        ensures
            final(self)@ == (AudioManagerView { events_enabled: true, ..old(self)@ }),
    {
        self.events_enabled = true;
    }

    /// Chooses whether inactive sessions are listed.
    pub fn set_inactive_visible(&mut self, visible: bool)
        ensures
            final(self)@ == (AudioManagerView { include_inactive: visible, ..old(self)@ }),
    {
        self.include_inactive = visible;
    }

    /// Lists the sessions of the latest pass: for each device in turn, its
    /// listed sessions in their order. Fails only where the devices could not
    /// be enumerated.
    pub fn get_sessions(&self) -> (r: Result<Vec<AudioSessionInfo>, AudioError>)
        ensures
            match self@.devices {
                Some(devices) => r is Ok && info_views(r->Ok_0@) == session_listing(
                    devices,
                    self@.include_inactive,
                ),
                None => r is Err && r->Err_0 == AudioError::EnumerationFailed,
            },
    {
        let devices = match &self.devices {
            Some(devices) => devices,
            None => {
                return Err(AudioError::EnumerationFailed);
            },
        };
        let include_inactive = self.include_inactive;
        let ghost all = device_views(devices@);
        let mut listed: Vec<AudioSessionInfo> = Vec::new();
        let mut d: usize = 0;
        assert(info_views(listed@) == session_listing(all.take(0), include_inactive));
        while d < devices.len()
            invariant
                d <= devices.len(),
                all == device_views(devices@),
                info_views(listed@) == session_listing(all.take(d as int), include_inactive),
            decreases devices.len() - d,
        {
            let device = &devices[d];
            let ghost before = info_views(listed@);
            proof {
                lemma_session_listing_step(all, include_inactive, d as int);
            }
            match (&device.id, &device.sessions) {
                (Some(id), Some(sessions)) => {
                    let ghost readings = session_views(sessions@);
                    let mut i: usize = 0;
                    assert(sessions_listed(id@, readings.take(0), include_inactive)
                        == Seq::<AudioSessionInfoView>::empty());
                    assert(before + Seq::<AudioSessionInfoView>::empty() == before);
                    while i < sessions.len()
                        invariant
                            i <= sessions.len(),
                            readings == session_views(sessions@),
                            info_views(listed@) == before + sessions_listed(
                                id@,
                                readings.take(i as int),
                                include_inactive,
                            ),
                        decreases sessions.len() - i,
                    {
                        let session = &sessions[i];
                        proof {
                            lemma_sessions_listed_step(id@, readings, include_inactive, i as int);
                        }
                        if session.is_listed(include_inactive) {
                            let ghost shown = listed@;
                            let entry = session.entry(id);
                            listed.push(entry);
                            assert(info_views(listed@) == info_views(shown).push(entry@));
                            assert(info_views(shown).push(entry@) == before + sessions_listed(
                                id@,
                                readings.take(i as int),
                                include_inactive,
                            ).push(entry@));
                        }
                        i = i + 1;
                    }
                    assert(readings.take(sessions.len() as int) == readings);
                },
                _ => {
                    assert(before + Seq::<AudioSessionInfoView>::empty() == before);
                },
            }
            d = d + 1;
        }
        assert(all.take(devices.len() as int) == all);
        Ok(listed)
    }

    /// Where the listed sessions are in the latest pass: the location at
    /// position `k` is that of the session behind entry `k` of the list.
    pub fn listed_locations(&self) -> (r: Result<Vec<SessionLocation>, AudioError>)
        ensures
            match self@.devices {
                Some(devices) => {
                    &&& r is Ok
                    &&& r->Ok_0.len() == session_listing(devices, self@.include_inactive).len()
                    &&& forall|k: int|
                        0 <= k < r->Ok_0.len() ==> {
                            &&& is_listed_at(
                                devices,
                                self@.include_inactive,
                                (#[trigger] r->Ok_0[k]).device as int,
                                r->Ok_0[k].session as int,
                            )
                            &&& position(
                                devices,
                                self@.include_inactive,
                                r->Ok_0[k].device as int,
                                r->Ok_0[k].session as int,
                            ) == k
                        }
                },
                None => r is Err && r->Err_0 == AudioError::EnumerationFailed,
            },
    {
        let devices = match &self.devices {
            Some(devices) => devices,
            None => {
                return Err(AudioError::EnumerationFailed);
            },
        };
        let include_inactive = self.include_inactive;
        let ghost all = device_views(devices@);
        let mut places: Vec<SessionLocation> = Vec::new();
        let mut d: usize = 0;
        while d < devices.len()
            invariant
                d <= devices.len(),
                all == device_views(devices@),
                places.len() == session_listing(all.take(d as int), include_inactive).len(),
                forall|k: int|
                    0 <= k < places.len() ==> {
                        &&& is_listed_at(
                            all,
                            include_inactive,
                            (#[trigger] places[k]).device as int,
                            places[k].session as int,
                        )
                        &&& position(
                            all,
                            include_inactive,
                            places[k].device as int,
                            places[k].session as int,
                        ) == k
                    },
            decreases devices.len() - d,
        {
            let device = &devices[d];
            let ghost before = places.len();
            proof {
                lemma_session_listing_step(all, include_inactive, d as int);
            }
            match (&device.id, &device.sessions) {
                (Some(id), Some(sessions)) => {
                    let ghost readings = session_views(sessions@);
                    let mut i: usize = 0;
                    while i < sessions.len()
                        invariant
                            i <= sessions.len(),
                            d < devices.len(),
                            all == device_views(devices@),
                            all[d as int].id == Some(id@),
                            all[d as int].sessions == Some(readings),
                            readings == session_views(sessions@),
                            before == session_listing(all.take(d as int), include_inactive).len(),
                            places.len() == before + sessions_listed(
                                id@,
                                readings.take(i as int),
                                include_inactive,
                            ).len(),
                            forall|k: int|
                                0 <= k < places.len() ==> {
                                    &&& is_listed_at(
                                        all,
                                        include_inactive,
                                        (#[trigger] places[k]).device as int,
                                        places[k].session as int,
                                    )
                                    &&& position(
                                        all,
                                        include_inactive,
                                        places[k].device as int,
                                        places[k].session as int,
                                    ) == k
                                },
                        decreases sessions.len() - i,
                    {
                        proof {
                            lemma_sessions_listed_step(id@, readings, include_inactive, i as int);
                        }
                        if sessions[i].is_listed(include_inactive) {
                            places.push(SessionLocation { device: d, session: i });
                        }
                        i = i + 1;
                    }
                    assert(readings.take(sessions.len() as int) == readings);
                },
                _ => {},
            }
            d = d + 1;
        }
        assert(all.take(devices.len() as int) == all);
        Ok(places)
    }

    /// The listener to register for a listed session, or `None` while no
    /// event channel is attached.
    pub fn listener_for(&self, entry: &AudioSessionInfo) -> (listener: Option<
        SessionEventsListener,
    >)
        ensures
            listener == if self@.events_enabled {
                Some(SessionEventsListener { process_id: entry.process_id })
            } else {
                None
            },
    {
        if self.events_enabled {
            Some(SessionEventsListener { process_id: entry.process_id })
        } else {
            None
        }
    }

    /// Lists the output devices of the latest pass whose identifier is known,
    /// in their order. Fails only where the devices could not be enumerated.
    pub fn get_audio_devices(&self) -> (r: Result<Vec<AudioDeviceInfo>, AudioError>)
        ensures
            match self@.devices {
                Some(devices) => r is Ok && device_info_views(r->Ok_0@) == device_listing(devices),
                None => r is Err && r->Err_0 == AudioError::EnumerationFailed,
            },
    {
        let devices = match &self.devices {
            Some(devices) => devices,
            None => {
                return Err(AudioError::EnumerationFailed);
            },
        };
        let ghost all = device_views(devices@);
        let mut listed: Vec<AudioDeviceInfo> = Vec::new();
        let mut d: usize = 0;
        assert(device_info_views(listed@) == device_listing(all.take(0)));
        while d < devices.len()
            invariant
                d <= devices.len(),
                all == device_views(devices@),
                device_info_views(listed@) == device_listing(all.take(d as int)),
            decreases devices.len() - d,
        {
            let device = &devices[d];
            proof {
                lemma_device_listing_step(all, d as int);
            }
            match &device.id {
                Some(id) => {
                    let ghost shown = listed@;
                    let entry = AudioDeviceInfo {
                        id: id.clone(),
                        name: device_display_name(&device.friendly_name),
                    };
                    listed.push(entry);
                    assert(device_info_views(listed@) == device_info_views(shown).push(entry@));
                },
                None => {},
            }
            d = d + 1;
        }
        assert(all.take(devices.len() as int) == all);
        Ok(listed)
    }

    /// Finds the session that a request for `pid` is directed at.
    pub fn find_session(&self, pid: u32) -> (r: Result<SessionLocation, AudioError>)
        ensures
            match self@.devices {
                Some(devices) => match target(devices, pid) {
                    Some((d, i)) => r is Ok && r->Ok_0.device == d && r->Ok_0.session == i,
                    None => r is Err && r->Err_0 == AudioError::NotFound,
                },
                None => r is Err && r->Err_0 == AudioError::EnumerationFailed,
            },
    {
        let devices = match &self.devices {
            Some(devices) => devices,
            None => {
                return Err(AudioError::EnumerationFailed);
            },
        };
        let ghost all = device_views(devices@);
        let mut d: usize = 0;
        while d < devices.len()
            invariant
                d <= devices.len(),
                all == device_views(devices@),
                self@.devices == Some(all),
                target(all.take(d as int), pid) is None,
            decreases devices.len() - d,
        {
            proof {
                lemma_target_step(all, pid, d as int);
            }
            match &devices[d].sessions {
                Some(sessions) => {
                    let ghost readings = session_views(sessions@);
                    let mut i: usize = 0;
                    while i < sessions.len()
                        invariant
                            i <= sessions.len(),
                            d < devices.len(),
                            all == device_views(devices@),
                            self@.devices == Some(all),
                            all[d as int].sessions == Some(readings),
                            readings == session_views(sessions@),
                            target(all.take(d as int), pid) is None,
                            first_accepting(readings.take(i as int), pid) is None,
                        decreases sessions.len() - i,
                    {
                        proof {
                            lemma_first_accepting_step(readings, pid, i as int);
                        }
                        if sessions[i].accepts(pid) {
                            proof {
                                lemma_first_accepting_prefix(readings, pid, i + 1);
                                lemma_target_step(all, pid, d as int);
                                lemma_target_prefix(all, pid, d + 1);
                            }
                            return Ok(SessionLocation { device: d, session: i });
                        }
                        i = i + 1;
                    }
                    assert(readings.take(sessions.len() as int) == readings);
                },
                None => {},
            }
            d = d + 1;
        }
        assert(all.take(devices.len() as int) == all);
        Err(AudioError::NotFound)
    }

    /// Records the effect of `action` on the volume control of one session.
    fn act(&mut self, location: SessionLocation, action: SessionAction)
        requires
            old(self)@.devices is Some,
            location.device < old(self)@.devices->Some_0.len(),
            old(self)@.devices->Some_0[location.device as int].sessions is Some,
            location.session < old(self)@.devices->Some_0[location.device as int].sessions->Some_0.len(),
            old(self)@.devices->Some_0[location.device as int].sessions->Some_0[location.session as int].control is Some,
        ensures
            final(self)@ == (AudioManagerView {
                devices: Some(
                    devices_after(
                        old(self)@.devices->Some_0,
                        location.device as int,
                        location.session as int,
                        action,
                    ),
                ),
                ..old(self)@
            }),
    {
        let ghost before = old(self)@.devices->Some_0;
        let ghost d = location.device as int;
        let ghost i = location.session as int;
        match &mut self.devices {
            Some(devices) => {
                match &mut devices[location.device].sessions {
                    Some(sessions) => {
                        match &mut sessions[location.session].control {
                            Some(control) => {
                                match action {
                                    SessionAction::SetVolume(level) => {
                                        control.volume = Some(level.bits());
                                    },
                                    SessionAction::SetMute(flag) => {
                                        control.mute = Some(flag);
                                    },
                                }
                            },
                            None => {},
                        }
                    },
                    None => {},
                }
            },
            None => {},
        }
        proof {
            let after = self@.devices->Some_0;
            let expected = devices_after(before, d, i, action);
            assert(after.len() == expected.len());
            assert(after[d].sessions->Some_0 =~= expected[d].sessions->Some_0);
            assert(after =~= expected);
        }
    }

    /// Directs `action` at the first session of the process `target_pid`
    /// that offers a volume control, and tells where that session is. A
    /// process without such a session is no error: nothing changes then, and
    /// no session is named.
    pub fn apply_to_session(&mut self, target_pid: u32, action: SessionAction) -> (r: Result<
        Option<SessionLocation>,
        AudioError,
    >)
        ensures
            match old(self)@.devices {
                Some(devices) => {
                    &&& r is Ok
                    &&& is_at(r->Ok_0, target(devices, target_pid))
                    &&& final(self)@ == (AudioManagerView {
                        devices: Some(devices_after_request(devices, target_pid, action)),
                        ..old(self)@
                    })
                },
                None => r is Err && r->Err_0 == AudioError::EnumerationFailed && final(self)@
                    == old(self)@,
            },
    {
        match self.find_session(target_pid) {
            Ok(location) => {
                proof {
                    lemma_target_is_first(self@.devices->Some_0, target_pid);
                }
                self.act(location, action);
                Ok(Some(location))
            },
            Err(AudioError::NotFound) => Ok(None),
            Err(e) => Err(e),
        }
    }

    /// Sets the level of the first session of the process `target_pid` that
    /// offers a volume control, and tells where that session is. The level
    /// is given by its bit pattern and must lie in `[0.0, 1.0]`. A process
    /// without such a session is no error: nothing changes then.
    pub fn set_session_volume(&mut self, target_pid: u32, volume_bits: u32) -> (r: Result<
        Option<SessionLocation>,
        AudioError,
    >)
        ensures
            !in_unit_interval(volume_bits) ==> r is Err && r->Err_0 == AudioError::InvalidArgument
                && final(self)@ == old(self)@,
            in_unit_interval(volume_bits) ==> match old(self)@.devices {
                Some(devices) => {
                    &&& r is Ok
                    &&& is_at(r->Ok_0, target(devices, target_pid))
                    &&& final(self)@ == (AudioManagerView {
                        devices: Some(
                            devices_after_request(
                                devices,
                                target_pid,
                                SessionAction::SetVolume(Volume::spec_from_request(volume_bits)),
                            ),
                        ),
                        ..old(self)@
                    })
                },
                None => r is Err && r->Err_0 == AudioError::EnumerationFailed && final(self)@
                    == old(self)@,
            },
    {
        match Volume::from_request(volume_bits) {
            Ok(level) => self.apply_to_session(target_pid, SessionAction::SetVolume(level)),
            Err(e) => Err(e),
        }
    }

    /// Sets the mute flag of the first session of the process `target_pid`
    /// that offers a volume control, and tells where that session is. A
    /// process without such a session is no error: nothing changes then.
    pub fn set_session_mute(&mut self, target_pid: u32, mute: bool) -> (r: Result<
        Option<SessionLocation>,
        AudioError,
    >)
        ensures
            match old(self)@.devices {
                Some(devices) => {
                    &&& r is Ok
                    &&& is_at(r->Ok_0, target(devices, target_pid))
                    &&& final(self)@ == (AudioManagerView {
                        devices: Some(
                            devices_after_request(
                                devices,
                                target_pid,
                                SessionAction::SetMute(mute),
                            ),
                        ),
                        ..old(self)@
                    })
                },
                None => r is Err && r->Err_0 == AudioError::EnumerationFailed && final(self)@
                    == old(self)@,
            },
    {
        self.apply_to_session(target_pid, SessionAction::SetMute(mute))
    }

    /// The writes that route the playback of the process `target_pid` to
    /// the device `device_id` through `factory`. Where the factory could
    /// not be acquired, the reason is handed on and nothing is written.
    pub fn set_audio_routing(
        &self,
        factory: Result<AudioPolicyConfigFactory, AudioError>,
        target_pid: u32,
        device_id: &str,
    ) -> (r: Result<Vec<EndpointWrite>, AudioError>)
        ensures
            match factory {
                Ok(_) => r is Ok && write_views(r->Ok_0@) == routing_writes(target_pid, device_id@),
                Err(e) => r is Err && r->Err_0 == e,
            },
    {
        match factory {
            Ok(reached) => Ok(reached.set_persisted_default_audio_endpoint(target_pid, device_id)),
            Err(e) => Err(e),
        }
    }

    /// The path of the executable of a process, from the buffer that the
    /// system filled and the number of code units that it wrote. A count
    /// beyond the buffer, or code units that are no UTF-16, give `None`.
    pub fn get_process_full_path(buffer: &Vec<u16>, len: u32) -> (r: Option<String>)
        ensures
            text_of(r) == if len <= buffer.len() {
                utf16_text(buffer@.take(len as int))
            } else {
                None
            },
    {
        if len as usize <= buffer.len() {
            let units = slice_subrange(buffer.as_slice(), 0, len as usize);
            assert(units@ == buffer@.take(len as int));
            decode_utf16(units)
        } else {
            None
        }
    }
}

} // verus!
