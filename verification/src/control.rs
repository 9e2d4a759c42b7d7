//! Which session a request is directed at, and what it does to it.

use vstd::prelude::*;
use crate::session::{DeviceReadingView, SessionReading, SessionReadingView, SimpleVolume};
use crate::volume::Volume;

verus! {

/// What a request does to the volume control of a session.
#[derive(Clone, Copy, Debug, PartialEq, Eq, Structural)]
pub enum SessionAction {
    /// Sets the level.
    SetVolume(Volume),
    /// Sets the mute flag.
    SetMute(bool),
}

/// The place of a session in a pass: the position of its device among the
/// devices, and its own position among the sessions of that device.
#[derive(Clone, Copy, Debug, PartialEq, Eq, Structural)]
pub struct SessionLocation {
    pub device: usize,
    pub session: usize,
}

/// Whether a request for the process `pid` can be directed at the session: it
/// belongs to that process and offers a volume control.
pub open spec fn accepts(session: SessionReadingView, pid: u32) -> bool {
    session.process_id == Some(pid) && session.control is Some
}

/// The position of the first session among `sessions` that accepts a
/// request for `pid`.
pub open spec fn first_accepting(sessions: Seq<SessionReadingView>, pid: u32) -> Option<int>
    decreases sessions.len(),
{
    if sessions.len() == 0 {
        None
    } else {
        match first_accepting(sessions.drop_last(), pid) {
            Some(i) => Some(i),
            None => if accepts(sessions.last(), pid) {
                Some(sessions.len() - 1)
            } else {
                None
            },
        }
    }
}

/// The first accepting session of one device, or `None` where the sessions
/// of the device are not known.
pub open spec fn first_accepting_of(device: DeviceReadingView, pid: u32) -> Option<int> {
    match device.sessions {
        Some(sessions) => first_accepting(sessions, pid),
        None => None,
    }
}

/// The session that a request for `pid` is directed at: the first accepting
/// session of the first device that has one, as device and session position.
pub open spec fn target(devices: Seq<DeviceReadingView>, pid: u32) -> Option<(int, int)>
    decreases devices.len(),
{
    if devices.len() == 0 {
        None
    } else {
        match target(devices.drop_last(), pid) {
            Some(place) => Some(place),
            None => match first_accepting_of(devices.last(), pid) {
                Some(i) => Some((devices.len() - 1, i)),
                None => None,
            },
        }
    }
}

/// The answers of a volume control after a request.
pub open spec fn acted(control: SimpleVolume, action: SessionAction) -> SimpleVolume {
    match action {
        SessionAction::SetVolume(level) => SimpleVolume {
            volume: Some(level.spec_bits()),
            mute: control.mute,
        },
        SessionAction::SetMute(flag) => SimpleVolume { volume: control.volume, mute: Some(flag) },
    }
}

/// A session after a request on its volume control.
pub open spec fn session_after(
    session: SessionReadingView,
    action: SessionAction,
) -> SessionReadingView {
    SessionReadingView { control: Some(acted(session.control->Some_0, action)), ..session }
}

/// The devices after a request on the session `i` of the device `d`: that
/// session has the new answers, and nothing else differs.
pub open spec fn devices_after(
    devices: Seq<DeviceReadingView>,
    d: int,
    i: int,
    action: SessionAction,
) -> Seq<DeviceReadingView> {
    let sessions = devices[d].sessions->Some_0;
    devices.update(
        d,
        DeviceReadingView {
            sessions: Some(sessions.update(i, session_after(sessions[i], action))),
            ..devices[d]
        },
    )
}

/// The devices after a request for the process `pid`: the request acts on
/// its target, or on nothing where it has none.
pub open spec fn devices_after_request(
    devices: Seq<DeviceReadingView>,
    pid: u32,
    action: SessionAction,
) -> Seq<DeviceReadingView> {
    match target(devices, pid) {
        Some((d, i)) => devices_after(devices, d, i, action),
        None => devices,
    }
}

/// Whether `location` names the place `place`, or neither names a session.
pub open spec fn is_at(location: Option<SessionLocation>, place: Option<(int, int)>) -> bool {
    match place {
        Some((d, i)) => location is Some && location->Some_0.device == d
            && location->Some_0.session == i,
        None => location is None,
    }
}

/// Looking at one more session.
pub proof fn lemma_first_accepting_step(sessions: Seq<SessionReadingView>, pid: u32, i: int)
    requires
        0 <= i < sessions.len(),
    ensures
        first_accepting(sessions.take(i + 1), pid) == match first_accepting(
            sessions.take(i),
            pid,
        ) {
            Some(first) => Some(first),
            None => if accepts(sessions[i], pid) {
                Some(i)
            } else {
                None
            },
        },
{
    assert(sessions.take(i + 1).drop_last() == sessions.take(i));
}

/// Looking at one more device.
pub proof fn lemma_target_step(devices: Seq<DeviceReadingView>, pid: u32, d: int)
    requires
        0 <= d < devices.len(),
    ensures
        target(devices.take(d + 1), pid) == match target(devices.take(d), pid) {
            Some(place) => Some(place),
            None => match first_accepting_of(devices[d], pid) {
                Some(i) => Some((d, i)),
                None => None,
            },
        },
{
    assert(devices.take(d + 1).drop_last() == devices.take(d));
}

/// A session that accepts among the first `n` is the first of all.
pub proof fn lemma_first_accepting_prefix(sessions: Seq<SessionReadingView>, pid: u32, n: int)
    requires
        0 <= n <= sessions.len(),
        first_accepting(sessions.take(n), pid) is Some,
    ensures
        first_accepting(sessions, pid) == first_accepting(sessions.take(n), pid),
    decreases sessions.len() - n,
{
    if n < sessions.len() {
        lemma_first_accepting_step(sessions, pid, n);
        lemma_first_accepting_prefix(sessions, pid, n + 1);
    } else {
        assert(sessions.take(n) == sessions);
    }
}

/// A target among the first `n` devices is the target of all.
pub proof fn lemma_target_prefix(devices: Seq<DeviceReadingView>, pid: u32, n: int)
    requires
        0 <= n <= devices.len(),
        target(devices.take(n), pid) is Some,
    ensures
        target(devices, pid) == target(devices.take(n), pid),
    decreases devices.len() - n,
{
    if n < devices.len() {
        lemma_target_step(devices, pid, n);
        lemma_target_prefix(devices, pid, n + 1);
    } else {
        assert(devices.take(n) == devices);
    }
}

/// The first accepting session lies among the sessions and accepts, and no
/// session before it does.
pub proof fn lemma_first_accepting_is_first(sessions: Seq<SessionReadingView>, pid: u32)
    ensures
        match first_accepting(sessions, pid) {
            Some(i) => 0 <= i < sessions.len() && accepts(sessions[i], pid) && forall|j: int|
                0 <= j < i ==> !accepts(#[trigger] sessions[j], pid),
            None => forall|j: int| 0 <= j < sessions.len() ==> !accepts(#[trigger] sessions[j], pid),
        },
    decreases sessions.len(),
{
    if sessions.len() > 0 {
        let front = sessions.drop_last();
        lemma_first_accepting_is_first(front, pid);
        assert forall|j: int| 0 <= j < front.len() implies front[j] == sessions[j] by {}
        match first_accepting(front, pid) {
            Some(i) => {
                assert(front[i] == sessions[i]);
                assert forall|j: int| 0 <= j < i implies !accepts(#[trigger] sessions[j], pid) by {
                    assert(front[j] == sessions[j]);
                }
            },
            None => {
                assert forall|j: int| 0 <= j < sessions.len() - 1 implies !accepts(
                    #[trigger] sessions[j],
                    pid,
                ) by {
                    assert(front[j] == sessions[j]);
                }
            },
        }
    }
}

/// The target lies in the pass and is the first accepting session of its
/// device, and no device before it has an accepting session.
pub proof fn lemma_target_is_first(devices: Seq<DeviceReadingView>, pid: u32)
    ensures
        match target(devices, pid) {
            Some((d, i)) => {
                &&& 0 <= d < devices.len()
                &&& devices[d].sessions is Some
                &&& first_accepting(devices[d].sessions->Some_0, pid) == Some(i)
                &&& 0 <= i < devices[d].sessions->Some_0.len()
                &&& accepts(devices[d].sessions->Some_0[i], pid)
                &&& forall|e: int| 0 <= e < d ==> first_accepting_of(#[trigger] devices[e], pid) is None
            },
            None => forall|e: int|
                0 <= e < devices.len() ==> first_accepting_of(#[trigger] devices[e], pid) is None,
        },
    decreases devices.len(),
{
    if devices.len() > 0 {
        let front = devices.drop_last();
        lemma_target_is_first(front, pid);
        assert forall|e: int| 0 <= e < front.len() implies front[e] == devices[e] by {}
        match target(front, pid) {
            Some((d, i)) => {
                assert(front[d] == devices[d]);
                assert forall|e: int| 0 <= e < d implies first_accepting_of(
                    #[trigger] devices[e],
                    pid,
                ) is None by {
                    assert(front[e] == devices[e]);
                }
            },
            None => {
                assert forall|e: int| 0 <= e < devices.len() - 1 implies first_accepting_of(
                    #[trigger] devices[e],
                    pid,
                ) is None by {
                    assert(front[e] == devices[e]);
                }
                match first_accepting_of(devices.last(), pid) {
                    Some(i) => {
                        lemma_first_accepting_is_first(devices.last().sessions->Some_0, pid);
                    },
                    None => {},
                }
            },
        }
    }
}

impl SessionReading {
    /// Whether a request for the process `pid` can be directed at the session.
    pub fn accepts(&self, pid: u32) -> (r: bool)
        ensures
            r == accepts(self@, pid),
    {
        let owned = match self.process_id {
            Some(owner) => owner == pid,
            None => false,
        };
        owned && self.control.is_some()
    }
}

} // verus!
