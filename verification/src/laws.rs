//! What holds of every pass: which sessions the list holds, where each of
//! them stands, and what a request changes in it.

use vstd::prelude::*;
use crate::control::{
    accepts, acted, devices_after, devices_after_request, first_accepting, first_accepting_of,
    lemma_first_accepting_is_first, lemma_target_is_first, session_after, target, SessionAction,
};
use crate::listing::{
    device_sessions_listed, entry_at, is_listed, is_listed_at, position, session_entry,
    session_listing, sessions_listed,
};
use crate::session::{
    AudioSessionInfoView, DeviceReadingView, SessionReadingView, SessionState,
};
use crate::volume::{canonical_bits, in_unit_interval, Volume, ONE_BITS};

verus! {

/// The entries of two runs of sessions are the entries of the first run
/// followed by those of the second.
pub proof fn lemma_sessions_listed_concat(
    device_id: Seq<char>,
    a: Seq<SessionReadingView>,
    b: Seq<SessionReadingView>,
    include_inactive: bool,
)
    ensures
        sessions_listed(device_id, a + b, include_inactive) == sessions_listed(
            device_id,
            a,
            include_inactive,
        ) + sessions_listed(device_id, b, include_inactive),
    decreases b.len(),
{
    if b.len() == 0 {
        assert(a + b == a);
        assert(sessions_listed(device_id, a, include_inactive) + Seq::<
            AudioSessionInfoView,
        >::empty() == sessions_listed(device_id, a, include_inactive));
    } else {
        assert((a + b).drop_last() == a + b.drop_last());
        assert((a + b).last() == b.last());
        lemma_sessions_listed_concat(device_id, a, b.drop_last(), include_inactive);
        let front = sessions_listed(device_id, a, include_inactive);
        let back = sessions_listed(device_id, b.drop_last(), include_inactive);
        if is_listed(b.last(), include_inactive) {
            let entry = session_entry(device_id, b.last());
            assert((front + back).push(entry) == front + back.push(entry));
        }
    }
}

/// The list of two runs of devices is the list of the first run followed by
/// that of the second.
pub proof fn lemma_session_listing_concat(
    a: Seq<DeviceReadingView>,
    b: Seq<DeviceReadingView>,
    include_inactive: bool,
)
    ensures
        session_listing(a + b, include_inactive) == session_listing(a, include_inactive)
            + session_listing(b, include_inactive),
    decreases b.len(),
{
    if b.len() == 0 {
        assert(a + b == a);
        assert(session_listing(a, include_inactive) + Seq::<AudioSessionInfoView>::empty()
            == session_listing(a, include_inactive));
    } else {
        assert((a + b).drop_last() == a + b.drop_last());
        assert((a + b).last() == b.last());
        lemma_session_listing_concat(a, b.drop_last(), include_inactive);
        let front = session_listing(a, include_inactive);
        let back = session_listing(b.drop_last(), include_inactive);
        let last = device_sessions_listed(b.last(), include_inactive);
        assert((front + back) + last == front + (back + last));
    }
}

/// The list of a single device is what that device contributes.
pub proof fn lemma_session_listing_single(device: DeviceReadingView, include_inactive: bool)
    ensures
        session_listing(seq![device], include_inactive) == device_sessions_listed(
            device,
            include_inactive,
        ),
{
    let one = seq![device];
    assert(one.drop_last() == Seq::<DeviceReadingView>::empty());
    assert(session_listing(one.drop_last(), include_inactive) == Seq::<
        AudioSessionInfoView,
    >::empty());
    assert(Seq::<AudioSessionInfoView>::empty() + device_sessions_listed(device, include_inactive)
        == device_sessions_listed(device, include_inactive));
}

/// The entries of a single session: its entry where it is listed, none
/// where it is not.
pub proof fn lemma_sessions_listed_single(
    device_id: Seq<char>,
    session: SessionReadingView,
    include_inactive: bool,
)
    ensures
        sessions_listed(device_id, seq![session], include_inactive) == if is_listed(
            session,
            include_inactive,
        ) {
            seq![session_entry(device_id, session)]
        } else {
            Seq::empty()
        },
{
    let one = seq![session];
    assert(one.drop_last() == Seq::<SessionReadingView>::empty());
    assert(sessions_listed(device_id, one.drop_last(), include_inactive) == Seq::<
        AudioSessionInfoView,
    >::empty());
    assert(Seq::<AudioSessionInfoView>::empty().push(session_entry(device_id, session))
        == seq![session_entry(device_id, session)]);
}

/// The list as three parts: what stands before the session `i` of the
/// device `d`, what that session contributes, and what stands after it.
proof fn lemma_listing_split(
    devices: Seq<DeviceReadingView>,
    include_inactive: bool,
    d: int,
    i: int,
)
    requires
        0 <= d < devices.len(),
        devices[d].id is Some,
        devices[d].sessions is Some,
        0 <= i < devices[d].sessions->Some_0.len(),
    ensures
        session_listing(devices, include_inactive) == (session_listing(
            devices.take(d),
            include_inactive,
        ) + sessions_listed(
            devices[d].id->Some_0,
            devices[d].sessions->Some_0.take(i),
            include_inactive,
        )) + sessions_listed(
            devices[d].id->Some_0,
            seq![devices[d].sessions->Some_0[i]],
            include_inactive,
        ) + (sessions_listed(
            devices[d].id->Some_0,
            devices[d].sessions->Some_0.skip(i + 1),
            include_inactive,
        ) + session_listing(devices.skip(d + 1), include_inactive)),
{
    let id = devices[d].id->Some_0;
    let sessions = devices[d].sessions->Some_0;
    let one_device = seq![devices[d]];
    let one_session = seq![sessions[i]];
    assert(devices == (devices.take(d) + one_device) + devices.skip(d + 1));
    lemma_session_listing_concat(devices.take(d) + one_device, devices.skip(d + 1), include_inactive);
    lemma_session_listing_concat(devices.take(d), one_device, include_inactive);
    lemma_session_listing_single(devices[d], include_inactive);
    assert(sessions == (sessions.take(i) + one_session) + sessions.skip(i + 1));
    lemma_sessions_listed_concat(
        id,
        sessions.take(i) + one_session,
        sessions.skip(i + 1),
        include_inactive,
    );
    lemma_sessions_listed_concat(id, sessions.take(i), one_session, include_inactive);
    let a = session_listing(devices.take(d), include_inactive);
    let b = sessions_listed(id, sessions.take(i), include_inactive);
    let c = sessions_listed(id, one_session, include_inactive);
    let e = sessions_listed(id, sessions.skip(i + 1), include_inactive);
    let f = session_listing(devices.skip(d + 1), include_inactive);
    assert((a + ((b + c) + e)) + f == ((a + b) + c) + (e + f));
}

/// Every listed session has its entry in the list, at its position.
pub proof fn lemma_listed_session_has_entry(
    devices: Seq<DeviceReadingView>,
    include_inactive: bool,
    d: int,
    i: int,
)
    requires
        is_listed_at(devices, include_inactive, d, i),
    ensures
        0 <= position(devices, include_inactive, d, i) < session_listing(
            devices,
            include_inactive,
        ).len(),
        session_listing(devices, include_inactive)[position(devices, include_inactive, d, i)]
            == entry_at(devices, d, i),
{
    lemma_listing_split(devices, include_inactive, d, i);
    lemma_sessions_listed_single(
        devices[d].id->Some_0,
        devices[d].sessions->Some_0[i],
        include_inactive,
    );
}

/// Every entry among those of `sessions` is the entry of a listed session.
proof fn lemma_entry_stems_from_session(
    device_id: Seq<char>,
    sessions: Seq<SessionReadingView>,
    include_inactive: bool,
    k: int,
) -> (i: int)
    requires
        0 <= k < sessions_listed(device_id, sessions, include_inactive).len(),
    ensures
        0 <= i < sessions.len(),
        is_listed(sessions[i], include_inactive),
        sessions_listed(device_id, sessions.take(i), include_inactive).len() == k,
    decreases sessions.len(),
{
    let front = sessions.drop_last();
    let listed_front = sessions_listed(device_id, front, include_inactive);
    if k < listed_front.len() {
        let i = lemma_entry_stems_from_session(device_id, front, include_inactive, k);
        assert(front.take(i) == sessions.take(i));
        i
    } else {
        assert(sessions.take(sessions.len() - 1) == front);
        sessions.len() - 1
    }
}

/// Every entry of the list is the entry of a listed session, and stands at
/// the position of that session.
pub proof fn lemma_entry_stems_from_listed_session(
    devices: Seq<DeviceReadingView>,
    include_inactive: bool,
    k: int,
) -> (place: (int, int))
    requires
        0 <= k < session_listing(devices, include_inactive).len(),
    ensures
        is_listed_at(devices, include_inactive, place.0, place.1),
        position(devices, include_inactive, place.0, place.1) == k,
        session_listing(devices, include_inactive)[k] == entry_at(devices, place.0, place.1),
    decreases devices.len(),
{
    let front = devices.drop_last();
    let listed_front = session_listing(front, include_inactive);
    let place = if k < listed_front.len() {
        let place = lemma_entry_stems_from_listed_session(front, include_inactive, k);
        assert(front.take(place.0) == devices.take(place.0));
        assert(front[place.0] == devices[place.0]);
        place
    } else {
        let d = devices.len() - 1;
        let i = lemma_entry_stems_from_session(
            devices[d].id->Some_0,
            devices[d].sessions->Some_0,
            include_inactive,
            k - listed_front.len(),
        );
        assert(devices.take(d) == front);
        (d, i)
    };
    lemma_listed_session_has_entry(devices, include_inactive, place.0, place.1);
    place
}

/// No entry of the list belongs to the system's own process, and none stems
/// from a session that was seen expired.
pub proof fn lemma_no_system_or_expired_session_is_listed(
    devices: Seq<DeviceReadingView>,
    include_inactive: bool,
    k: int,
)
    requires
        0 <= k < session_listing(devices, include_inactive).len(),
    ensures
        session_listing(devices, include_inactive)[k].process_id != 0,
        exists|d: int, i: int|
            {
                &&& #[trigger] is_listed_at(devices, include_inactive, d, i)
                &&& devices[d].sessions->Some_0[i].state != Some(SessionState::Expired)
                &&& devices[d].sessions->Some_0[i].process_id != Some(0u32)
                &&& session_listing(devices, include_inactive)[k] == entry_at(devices, d, i)
            },
{
    let place = lemma_entry_stems_from_listed_session(devices, include_inactive, k);
    assert(is_listed_at(devices, include_inactive, place.0, place.1));
}

/// Every level that the list shows lies in the unit interval.
pub proof fn lemma_listed_levels_lie_in_unit_interval(
    devices: Seq<DeviceReadingView>,
    include_inactive: bool,
    k: int,
)
    requires
        0 <= k < session_listing(devices, include_inactive).len(),
    ensures
        session_listing(devices, include_inactive)[k].volume.spec_bits() <= ONE_BITS,
        in_unit_interval(session_listing(devices, include_inactive)[k].volume.spec_bits()),
{
    broadcast use Volume::lemma_with_bits;

    let place = lemma_entry_stems_from_listed_session(devices, include_inactive, k);
}

/// A request changes nothing in the list but the entry of the session it
/// acts on: that entry shows the new answers, where the session is listed.
pub proof fn lemma_listing_after_action(
    devices: Seq<DeviceReadingView>,
    include_inactive: bool,
    d: int,
    i: int,
    action: SessionAction,
)
    requires
        0 <= d < devices.len(),
        devices[d].sessions is Some,
        0 <= i < devices[d].sessions->Some_0.len(),
    ensures
        session_listing(devices_after(devices, d, i, action), include_inactive) == if is_listed_at(
            devices,
            include_inactive,
            d,
            i,
        ) {
            session_listing(devices, include_inactive).update(
                position(devices, include_inactive, d, i),
                session_entry(
                    devices[d].id->Some_0,
                    session_after(devices[d].sessions->Some_0[i], action),
                ),
            )
        } else {
            session_listing(devices, include_inactive)
        },
{
    let after = devices_after(devices, d, i, action);
    let sessions = devices[d].sessions->Some_0;
    let changed = session_after(sessions[i], action);
    assert(after[d].sessions->Some_0 == sessions.update(i, changed));
    assert(after.take(d) == devices.take(d));
    assert(after.skip(d + 1) == devices.skip(d + 1));
    assert(after[d].sessions->Some_0.take(i) == sessions.take(i));
    assert(after[d].sessions->Some_0.skip(i + 1) == sessions.skip(i + 1));
    assert(is_listed(changed, include_inactive) == is_listed(sessions[i], include_inactive));
    if devices[d].id is Some {
        let id = devices[d].id->Some_0;
        lemma_listing_split(devices, include_inactive, d, i);
        lemma_listing_split(after, include_inactive, d, i);
        lemma_sessions_listed_single(id, sessions[i], include_inactive);
        lemma_sessions_listed_single(id, changed, include_inactive);
        let before_it = session_listing(devices.take(d), include_inactive) + sessions_listed(
            id,
            sessions.take(i),
            include_inactive,
        );
        let after_it = sessions_listed(id, sessions.skip(i + 1), include_inactive)
            + session_listing(devices.skip(d + 1), include_inactive);
        if is_listed(sessions[i], include_inactive) {
            assert((before_it + seq![session_entry(id, changed)]) + after_it == ((before_it
                + seq![session_entry(id, sessions[i])]) + after_it).update(
                before_it.len() as int,
                session_entry(id, changed),
            ));
        }
    } else {
        let one_before = seq![devices[d]];
        let one_after = seq![after[d]];
        assert(devices == (devices.take(d) + one_before) + devices.skip(d + 1));
        assert(after == (devices.take(d) + one_after) + devices.skip(d + 1));
        lemma_session_listing_concat(
            devices.take(d) + one_before,
            devices.skip(d + 1),
            include_inactive,
        );
        lemma_session_listing_concat(devices.take(d), one_before, include_inactive);
        lemma_session_listing_single(devices[d], include_inactive);
        lemma_session_listing_concat(
            devices.take(d) + one_after,
            devices.skip(d + 1),
            include_inactive,
        );
        lemma_session_listing_concat(devices.take(d), one_after, include_inactive);
        lemma_session_listing_single(after[d], include_inactive);
    }
}

/// After a level of the unit interval was set for a process, the entry of
/// the session that the request was directed at shows that level, and
/// everything else in the list is as before.
pub proof fn lemma_set_volume_is_shown(
    devices: Seq<DeviceReadingView>,
    include_inactive: bool,
    pid: u32,
    volume_bits: u32,
)
    requires
        in_unit_interval(volume_bits),
        target(devices, pid) is Some,
        is_listed_at(
            devices,
            include_inactive,
            target(devices, pid)->Some_0.0,
            target(devices, pid)->Some_0.1,
        ),
    ensures
        ({
            let (d, i) = target(devices, pid)->Some_0;
            let level = Volume::spec_from_request(volume_bits);
            let before = session_listing(devices, include_inactive);
            let after = session_listing(
                devices_after_request(devices, pid, SessionAction::SetVolume(level)),
                include_inactive,
            );
            let k = position(devices, include_inactive, d, i);
            &&& 0 <= k < before.len()
            &&& before[k].process_id == pid
            &&& after == before.update(k, AudioSessionInfoView { volume: level, ..before[k] })
        }),
{
    broadcast use Volume::lemma_with_bits;

    let (d, i) = target(devices, pid)->Some_0;
    let level = Volume::spec_from_request(volume_bits);
    lemma_target_is_first(devices, pid);
    lemma_listed_session_has_entry(devices, include_inactive, d, i);
    lemma_listing_after_action(devices, include_inactive, d, i, SessionAction::SetVolume(level));
    assert(canonical_bits(volume_bits) <= ONE_BITS);
}

/// After the mute flag was set for a process, the entry of the session that
/// the request was directed at shows that flag and the level it showed
/// before, and everything else in the list is as before.
pub proof fn lemma_set_mute_is_shown(
    devices: Seq<DeviceReadingView>,
    include_inactive: bool,
    pid: u32,
    mute: bool,
)
    requires
        target(devices, pid) is Some,
        is_listed_at(
            devices,
            include_inactive,
            target(devices, pid)->Some_0.0,
            target(devices, pid)->Some_0.1,
        ),
    ensures
        ({
            let (d, i) = target(devices, pid)->Some_0;
            let before = session_listing(devices, include_inactive);
            let after = session_listing(
                devices_after_request(devices, pid, SessionAction::SetMute(mute)),
                include_inactive,
            );
            let k = position(devices, include_inactive, d, i);
            &&& 0 <= k < before.len()
            &&& before[k].process_id == pid
            &&& after == before.update(k, AudioSessionInfoView { is_muted: mute, ..before[k] })
        }),
{
    let (d, i) = target(devices, pid)->Some_0;
    lemma_target_is_first(devices, pid);
    lemma_listed_session_has_entry(devices, include_inactive, d, i);
    lemma_listing_after_action(devices, include_inactive, d, i, SessionAction::SetMute(mute));
}

/// A request does not move its own target.
pub proof fn lemma_target_after_request(
    devices: Seq<DeviceReadingView>,
    pid: u32,
    action: SessionAction,
)
    ensures
        target(devices_after_request(devices, pid, action), pid) == target(devices, pid),
{
    lemma_target_is_first(devices, pid);
    let after = devices_after_request(devices, pid, action);
    lemma_target_is_first(after, pid);
    match target(devices, pid) {
        Some((d, i)) => {
            let sessions = devices[d].sessions->Some_0;
            let changed = after[d].sessions->Some_0;
            assert(changed == sessions.update(i, session_after(sessions[i], action)));
            assert forall|j: int| 0 <= j < sessions.len() implies accepts(changed[j], pid)
                == accepts(sessions[j], pid) by {}
            lemma_first_accepting_is_first(sessions, pid);
            lemma_first_accepting_is_first(changed, pid);
            assert(accepts(changed[i], pid));
            assert(first_accepting(changed, pid) == Some(i)) by {
                match first_accepting(changed, pid) {
                    Some(j) => {
                        if j < i {
                            assert(accepts(sessions[j], pid));
                        } else if j > i {
                            assert(!accepts(changed[i], pid));
                        }
                    },
                    None => {
                        assert(!accepts(changed[i], pid));
                    },
                }
            }
            assert forall|e: int| 0 <= e < d implies first_accepting_of(after[e], pid)
                is None by {
                assert(after[e] == devices[e]);
            }
            match target(after, pid) {
                Some((e, j)) => {
                    if e < d {
                        assert(first_accepting_of(after[e], pid) is None);
                    } else if e > d {
                        assert(first_accepting_of(after[d], pid) is None);
                    }
                },
                None => {
                    assert(first_accepting_of(after[d], pid) is None);
                },
            }
        },
        None => {},
    }
}

/// Making the same request twice leaves the pass as making it once does.
pub proof fn lemma_request_is_idempotent(
    devices: Seq<DeviceReadingView>,
    pid: u32,
    action: SessionAction,
)
    ensures
        devices_after_request(devices_after_request(devices, pid, action), pid, action)
            == devices_after_request(devices, pid, action),
{
    lemma_target_after_request(devices, pid, action);
    lemma_target_is_first(devices, pid);
    match target(devices, pid) {
        Some((d, i)) => {
            let once = devices_after(devices, d, i, action);
            let twice = devices_after(once, d, i, action);
            let sessions = devices[d].sessions->Some_0;
            assert(acted(acted(sessions[i].control->Some_0, action), action) == acted(
                sessions[i].control->Some_0,
                action,
            ));
            assert(twice[d].sessions->Some_0 =~= once[d].sessions->Some_0);
            assert(twice =~= once);
        },
        None => {},
    }
}

/// A request for a process without a target changes nothing: the pass, and
/// with it the list, is as before.
pub proof fn lemma_request_without_target_changes_nothing(
    devices: Seq<DeviceReadingView>,
    include_inactive: bool,
    pid: u32,
    action: SessionAction,
)
    requires
        target(devices, pid) is None,
    ensures
        devices_after_request(devices, pid, action) == devices,
        session_listing(devices_after_request(devices, pid, action), include_inactive)
            == session_listing(devices, include_inactive),
{
}

/// The session `i` of the device `d`.
pub open spec fn session_at(devices: Seq<DeviceReadingView>, d: int, i: int) -> SessionReadingView {
    devices[d].sessions->Some_0[i]
}

/// Whether the device `d` exists and has a session `i`.
pub open spec fn has_session(devices: Seq<DeviceReadingView>, d: int, i: int) -> bool {
    &&& 0 <= d < devices.len()
    &&& devices[d].sessions is Some
    &&& 0 <= i < devices[d].sessions->Some_0.len()
}

/// Whether the place `(d, i)` comes before the place `(e, j)` in the order
/// of the devices and, within a device, of its sessions.
pub open spec fn comes_before(d: int, i: int, e: int, j: int) -> bool {
    d < e || (d == e && i < j)
}

/// A request for a process acts on one session at most: the first, in the
/// order of the devices and of their sessions, that belongs to the process
/// and offers a volume control. Every other session, and everything else in
/// the pass, stays as it was; and where the process has no such session,
/// nothing is acted on at all.
pub proof fn lemma_request_acts_on_first_accepting_session_only(
    devices: Seq<DeviceReadingView>,
    pid: u32,
    action: SessionAction,
)
    ensures
        ({
            let after = devices_after_request(devices, pid, action);
            &&& after.len() == devices.len()
            &&& forall|d: int|
                0 <= d < devices.len() ==> {
                    &&& (#[trigger] after[d]).id == devices[d].id
                    &&& after[d].friendly_name == devices[d].friendly_name
                    &&& after[d].sessions is Some <==> devices[d].sessions is Some
                    &&& devices[d].sessions is Some ==> after[d].sessions->Some_0.len()
                        == devices[d].sessions->Some_0.len()
                }
            &&& forall|d: int, i: int|
                has_session(devices, d, i) ==> #[trigger] session_at(after, d, i) == if target(
                    devices,
                    pid,
                ) == Some((d, i)) {
                    session_after(session_at(devices, d, i), action)
                } else {
                    session_at(devices, d, i)
                }
            &&& match target(devices, pid) {
                Some((e, j)) => {
                    &&& has_session(devices, e, j)
                    &&& accepts(session_at(devices, e, j), pid)
                    &&& forall|d: int, i: int|
                        has_session(devices, d, i) && comes_before(d, i, e, j) ==> !accepts(
                            #[trigger] session_at(devices, d, i),
                            pid,
                        )
                },
                None => forall|d: int, i: int|
                    has_session(devices, d, i) ==> !accepts(
                        #[trigger] session_at(devices, d, i),
                        pid,
                    ),
            }
        }),
{
    lemma_target_is_first(devices, pid);
    assert forall|d: int, i: int| has_session(devices, d, i) && first_accepting_of(
        devices[d],
        pid,
    ) is None implies !accepts(#[trigger] session_at(devices, d, i), pid) by {
        lemma_first_accepting_is_first(devices[d].sessions->Some_0, pid);
    }
    match target(devices, pid) {
        Some((e, j)) => {
            lemma_first_accepting_is_first(devices[e].sessions->Some_0, pid);
        },
        None => {},
    }
}

} // verus!
