use audio_mixer::error::AudioError;
use audio_mixer::manager::AudioManager;
use audio_mixer::policy::{
    class_identifier, interface_candidates, Acquisition, AudioPolicyConfigFactory, EndpointRead,
    EndpointWrite, IAudioPolicyConfigFactoryVtable, PolicyMethod, QueryOutcome, Role, Step,
    FLOW_RENDER, IID_21H2, IID_DOWNLEVEL, SLOT_COUNT,
};

const GRANTED: QueryOutcome = QueryOutcome { status: 0, is_null: false };
const REFUSED: QueryOutcome = QueryOutcome { status: -2147467262, is_null: true };

/// A remote object that grants exactly the interfaces in `supported`, and
/// counts the queries made of it.
struct FakeObject {
    supported: Vec<u128>,
    queried: Vec<u128>,
}

impl FakeObject {
    fn query(&mut self, interface: u128) -> QueryOutcome {
        self.queried.push(interface);
        if self.supported.contains(&interface) {
            GRANTED
        } else {
            REFUSED
        }
    }
}

fn acquire(candidates: Vec<u128>, activation: QueryOutcome, object: &mut FakeObject) -> Acquisition {
    let mut acquisition = Acquisition::new(candidates);
    loop {
        match acquisition.next_step() {
            Step::Activate => acquisition.record(activation),
            Step::Query(interface) => {
                let answer = object.query(interface);
                acquisition.record(answer)
            }
            Step::Finished => return acquisition,
        }
    }
}

#[test]
fn second_candidate_is_taken_and_third_is_not_tried() {
    let mut object = FakeObject { supported: vec![22], queried: vec![] };
    let acquisition = acquire(vec![11, 22, 33], GRANTED, &mut object);
    assert_eq!(
        AudioPolicyConfigFactory::new(&acquisition),
        Ok(AudioPolicyConfigFactory { interface: 22 })
    );
    assert_eq!(object.queried, vec![11, 22]);
    assert_eq!(acquisition.attempts(), 2);
    assert_eq!(acquisition.next_step(), Step::Finished);
}

#[test]
fn newest_interface_is_tried_first() {
    assert_eq!(interface_candidates(), vec![IID_21H2, IID_DOWNLEVEL]);
    assert_eq!(IID_21H2, 0xab3d4648_e242_459f_b02f_541c70306324);
    assert_eq!(IID_DOWNLEVEL, 0x2a59116d_6c4f_45e0_a74f_707e3fef9258);
    assert_eq!(class_identifier(), "Windows.Media.Internal.AudioPolicyConfig");
    let mut object = FakeObject { supported: vec![IID_21H2, IID_DOWNLEVEL], queried: vec![] };
    let acquisition = acquire(interface_candidates(), GRANTED, &mut object);
    assert_eq!(object.queried, vec![IID_21H2]);
    assert_eq!(
        AudioPolicyConfigFactory::new(&acquisition),
        Ok(AudioPolicyConfigFactory { interface: IID_21H2 })
    );
}

#[test]
fn older_interface_is_the_fallback() {
    let mut object = FakeObject { supported: vec![IID_DOWNLEVEL], queried: vec![] };
    let acquisition = acquire(interface_candidates(), GRANTED, &mut object);
    assert_eq!(object.queried, vec![IID_21H2, IID_DOWNLEVEL]);
    assert_eq!(
        AudioPolicyConfigFactory::new(&acquisition),
        Ok(AudioPolicyConfigFactory { interface: IID_DOWNLEVEL })
    );
}

#[test]
fn no_granted_candidate_means_no_compatible_interface() {
    let mut object = FakeObject { supported: vec![], queried: vec![] };
    let acquisition = acquire(vec![11, 22, 33], GRANTED, &mut object);
    assert_eq!(object.queried, vec![11, 22, 33]);
    assert_eq!(acquisition.attempts(), 3);
    assert_eq!(AudioPolicyConfigFactory::new(&acquisition), Err(AudioError::NoCompatibleInterface));
    let empty = acquire(vec![], GRANTED, &mut object);
    assert_eq!(AudioPolicyConfigFactory::new(&empty), Err(AudioError::NoCompatibleInterface));
}

#[test]
fn failed_or_empty_activation_is_reported_and_nothing_is_queried() {
    let mut object = FakeObject { supported: vec![11], queried: vec![] };
    let failed = acquire(vec![11], QueryOutcome { status: -1, is_null: false }, &mut object);
    assert_eq!(AudioPolicyConfigFactory::new(&failed), Err(AudioError::ActivationFailed));
    let empty = acquire(vec![11], QueryOutcome { status: 0, is_null: true }, &mut object);
    assert_eq!(AudioPolicyConfigFactory::new(&empty), Err(AudioError::ActivationFailed));
    assert!(object.queried.is_empty());
    let untouched = Acquisition::new(vec![11]);
    assert_eq!(untouched.next_step(), Step::Activate);
    assert_eq!(AudioPolicyConfigFactory::new(&untouched), Err(AudioError::ActivationFailed));
    assert!(AudioError::ActivationFailed.is_recoverable());
    assert!(AudioError::NoCompatibleInterface.is_recoverable());
}

#[test]
fn granted_query_without_object_ends_the_negotiation_without_interface() {
    let mut acquisition = Acquisition::new(vec![11, 22]);
    acquisition.record(GRANTED);
    assert_eq!(acquisition.next_step(), Step::Query(11));
    acquisition.record(QueryOutcome { status: 0, is_null: true });
    assert_eq!(acquisition.next_step(), Step::Finished);
    assert_eq!(AudioPolicyConfigFactory::new(&acquisition), Err(AudioError::NoCompatibleInterface));
}

#[test]
fn unfinished_negotiation_has_no_interface_yet() {
    let mut acquisition = Acquisition::new(vec![11, 22]);
    acquisition.record(GRANTED);
    acquisition.record(REFUSED);
    assert_eq!(acquisition.next_step(), Step::Query(22));
    assert_eq!(AudioPolicyConfigFactory::new(&acquisition), Err(AudioError::NoCompatibleInterface));
}

#[test]
fn answers_that_were_not_asked_for_are_dropped() {
    let mut acquisition = Acquisition::new(vec![11]);
    acquisition.record(GRANTED);
    acquisition.record(GRANTED);
    acquisition.record(REFUSED);
    acquisition.record(GRANTED);
    assert_eq!(acquisition.attempts(), 1);
    assert_eq!(
        AudioPolicyConfigFactory::new(&acquisition),
        Ok(AudioPolicyConfigFactory { interface: 11 })
    );
}

#[test]
fn status_with_positive_value_counts_as_success() {
    assert!(QueryOutcome { status: 1, is_null: false }.is_usable());
    assert!(QueryOutcome { status: 0, is_null: false }.is_usable());
    assert!(!QueryOutcome { status: 1, is_null: true }.is_usable());
    assert!(!QueryOutcome { status: -1, is_null: false }.is_usable());
    assert!(!QueryOutcome { status: i32::MIN, is_null: false }.is_usable());
}

#[test]
fn routing_writes_one_device_for_each_role() {
    let factory = AudioPolicyConfigFactory { interface: IID_21H2 };
    let writes = factory.set_persisted_default_audio_endpoint(4711, "{0.0.0}.headset");
    let expected = |role| EndpointWrite {
        process_id: 4711,
        flow: FLOW_RENDER,
        role,
        device_id: "{0.0.0}.headset".to_string(),
    };
    assert_eq!(
        writes,
        vec![expected(Role::Console), expected(Role::Multimedia), expected(Role::Communications)]
    );
    let codes: Vec<i32> = writes.iter().map(|write| write.role.code()).collect();
    assert_eq!(codes, vec![0, 1, 2]);
    assert_eq!(FLOW_RENDER, 0);
    let through_manager =
        AudioManager::new().set_audio_routing(Ok(factory), 4711, "{0.0.0}.headset");
    assert_eq!(through_manager, Ok(writes));
}

#[test]
fn routing_succeeds_when_only_the_console_write_does() {
    assert_eq!(AudioPolicyConfigFactory::routing_outcome(0, -1, -2), Ok(()));
    assert_eq!(AudioPolicyConfigFactory::routing_outcome(1, i32::MIN, -1), Ok(()));
    assert_eq!(AudioPolicyConfigFactory::routing_outcome(0, 0, 0), Ok(()));
}

#[test]
fn routing_fails_with_the_status_of_the_console_write() {
    assert_eq!(
        AudioPolicyConfigFactory::routing_outcome(-2147024809, 0, 0),
        Err(AudioError::RemoteCallFailed(-2147024809))
    );
    assert_eq!(
        AudioPolicyConfigFactory::routing_outcome(-1, -2, -3),
        Err(AudioError::RemoteCallFailed(-1))
    );
    assert!(!AudioError::RemoteCallFailed(-1).is_recoverable());
}

#[test]
fn read_back_asks_for_the_console_role() {
    let factory = AudioPolicyConfigFactory { interface: IID_DOWNLEVEL };
    assert_eq!(
        factory.verification_read(9),
        EndpointRead { process_id: 9, flow: 0, role: Role::Console }
    );
}

#[test]
fn called_methods_stand_behind_nine_base_slots() {
    assert_eq!(IAudioPolicyConfigFactoryVtable::slot(PolicyMethod::QueryInterface), 0);
    assert_eq!(IAudioPolicyConfigFactoryVtable::slot(PolicyMethod::Release), 2);
    assert_eq!(IAudioPolicyConfigFactoryVtable::slot(PolicyMethod::GetTrustLevel), 5);
    assert_eq!(IAudioPolicyConfigFactoryVtable::slot(PolicyMethod::Stub3), 8);
    assert_eq!(
        IAudioPolicyConfigFactoryVtable::slot(PolicyMethod::SetPersistedDefaultAudioEndpoint),
        9
    );
    assert_eq!(
        IAudioPolicyConfigFactoryVtable::slot(PolicyMethod::GetPersistedDefaultAudioEndpoint),
        10
    );
    assert_eq!(
        IAudioPolicyConfigFactoryVtable::slot(
            PolicyMethod::ClearAllPersistedApplicationDefaultEndpoints
        ),
        11
    );
    assert_eq!(SLOT_COUNT, 12);
}

#[test]
fn every_slot_holds_the_method_that_names_it() {
    for slot in 0..SLOT_COUNT {
        let method = IAudioPolicyConfigFactoryVtable::method_at(slot).unwrap();
        assert_eq!(IAudioPolicyConfigFactoryVtable::slot(method), slot);
    }
    assert_eq!(IAudioPolicyConfigFactoryVtable::method_at(12), None);
    assert_eq!(IAudioPolicyConfigFactoryVtable::method_at(usize::MAX), None);
}

#[test]
fn byte_offsets_follow_the_pointer_size() {
    let wide = IAudioPolicyConfigFactoryVtable { pointer_size: 8 };
    let narrow = IAudioPolicyConfigFactoryVtable { pointer_size: 4 };
    assert_eq!(wide.byte_offset(PolicyMethod::SetPersistedDefaultAudioEndpoint), 72);
    assert_eq!(narrow.byte_offset(PolicyMethod::SetPersistedDefaultAudioEndpoint), 36);
    assert_eq!(wide.byte_offset(PolicyMethod::QueryInterface), 0);
    let huge = IAudioPolicyConfigFactoryVtable { pointer_size: u32::MAX };
    assert_eq!(
        huge.byte_offset(PolicyMethod::ClearAllPersistedApplicationDefaultEndpoints),
        11 * (u32::MAX as u64)
    );
}
