use audio_mixer::events::{
    event_channel, state_label, AudioEventPayload, SessionEventsListener, SessionNotification,
    ACKNOWLEDGED,
};
use audio_mixer::volume::Volume;

const LISTENER: SessionEventsListener = SessionEventsListener { process_id: 77 };

#[test]
fn volume_change_is_published_with_level_and_mute() {
    let event = LISTENER.on_simple_volume_changed(0.25f32.to_bits(), true);
    assert_eq!(
        event,
        AudioEventPayload {
            process_id: 77,
            volume: Some(Volume::from_reading(0.25f32.to_bits())),
            mute: Some(true),
            state: None,
        }
    );
    assert_eq!(f32::from_bits(event.volume.unwrap().bits()), 0.25);
}

#[test]
fn level_of_a_volume_change_is_clamped() {
    let event = LISTENER.on_simple_volume_changed(3.0f32.to_bits(), false);
    assert_eq!(event.volume, Some(Volume::full()));
    let event = LISTENER.on_simple_volume_changed(f32::NAN.to_bits(), false);
    assert_eq!(event.volume, Some(Volume::silent()));
}

#[test]
fn state_change_is_published_with_its_label() {
    let expected = |label: &str| AudioEventPayload {
        process_id: 77,
        volume: None,
        mute: None,
        state: Some(label.to_string()),
    };
    assert_eq!(LISTENER.on_state_changed(0), expected("Inactive"));
    assert_eq!(LISTENER.on_state_changed(1), expected("Active"));
    assert_eq!(LISTENER.on_state_changed(2), expected("Expired"));
    assert_eq!(LISTENER.on_state_changed(3), expected("Unknown"));
    assert_eq!(LISTENER.on_state_changed(-1), expected("Unknown"));
}

#[test]
fn state_labels_are_exact() {
    assert_eq!(state_label(0), "Inactive");
    assert_eq!(state_label(1), "Active");
    assert_eq!(state_label(2), "Expired");
    assert_eq!(state_label(i32::MAX), "Unknown");
}

#[test]
fn only_volume_and_state_notifications_are_published() {
    assert_eq!(
        LISTENER.on_notification(SessionNotification::SimpleVolumeChanged {
            volume_bits: 1.0f32.to_bits(),
            mute: false
        }),
        Some(LISTENER.on_simple_volume_changed(1.0f32.to_bits(), false))
    );
    assert_eq!(
        LISTENER.on_notification(SessionNotification::StateChanged(1)),
        Some(LISTENER.on_state_changed(1))
    );
    for ignored in [
        SessionNotification::DisplayNameChanged,
        SessionNotification::IconPathChanged,
        SessionNotification::ChannelVolumeChanged,
        SessionNotification::GroupingParamChanged,
        SessionNotification::SessionDisconnected(0),
        SessionNotification::SessionDisconnected(5),
    ] {
        assert_eq!(LISTENER.on_notification(ignored), None);
    }
}

#[test]
fn notifications_are_acknowledged_whether_delivered_or_not() {
    assert_eq!(SessionEventsListener::acknowledge(true), 0);
    assert_eq!(SessionEventsListener::acknowledge(false), 0);
    assert_eq!(ACKNOWLEDGED, 0);
}

#[test]
fn events_are_published_under_one_channel() {
    assert_eq!(event_channel(), "audio-session-event");
}
