use senrigan_types::{ContractError, JointId, MonotonicTime, SpatialObservation, Validate};

fn observation() -> SpatialObservation {
    SpatialObservation {
        source_frame_sequence: 1,
        source_time: MonotonicTime::from_nanos(10),
        completed_time: MonotonicTime::from_nanos(20),
        model_id: "fixture".into(),
        model_version: "1".into(),
        adapter_version: "1".into(),
        joints: Vec::new(),
    }
}

#[test]
fn observation_rejects_time_reversal() {
    let mut value = observation();
    value.completed_time = MonotonicTime::from_nanos(9);
    assert_eq!(
        value.validate(),
        Err(ContractError::InvalidTimeOrder {
            earlier: "source_time",
            later: "completed_time",
        })
    );
}

#[test]
fn observation_rejects_a_duplicate_joint() {
    let mut value = observation();
    value.joints = vec![JointId::Hips, JointId::Hips];
    assert_eq!(
        value.validate(),
        Err(ContractError::DuplicateJoint {
            field: "joints",
            joint: "hips",
        })
    );
}

#[test]
fn observation_fixture_validates() {
    assert!(observation().validate().is_ok());
    let mut value = observation();
    value.joints = vec![JointId::Hips, JointId::Head];
    assert!(value.validate().is_ok());
}

#[test]
fn observation_rejects_blank_identity_in_field_order() {
    let mut value = observation();
    value.model_version = " ".into();
    value.adapter_version = "".into();
    assert_eq!(
        value.validate(),
        Err(ContractError::EmptyField {
            field: "model_version",
        })
    );
    let mut value = observation();
    value.adapter_version = "\n".into();
    assert_eq!(
        value.validate(),
        Err(ContractError::EmptyField {
            field: "adapter_version",
        })
    );
}
