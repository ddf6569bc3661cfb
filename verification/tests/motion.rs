use senrigan_types::{
    collect_joint_set, required_joints, validate_matching_joints, validate_required_joints,
    CanonicalMotionFrame, ContractError, EstimateOrigin, JointEstimateOrigin, JointId,
    JointVisibility, MonotonicTime, PerformerScaleStatus, SchemaVersion, Validate,
    VisibilityEvidence,
};

fn fixture() -> CanonicalMotionFrame {
    let joints: Vec<JointId> = required_joints().iter().map(|spec| spec.joint).collect();
    CanonicalMotionFrame {
        schema_version: SchemaVersion::current(),
        source_time: MonotonicTime::from_nanos(10),
        state_time: MonotonicTime::from_nanos(20),
        output_time: MonotonicTime::from_nanos(30),
        local_joint_rotations: joints.clone(),
        global_joint_positions_w: joints.clone(),
        rest_offsets_s: joints.clone(),
        linear_and_angular_velocities: joints.clone(),
        joint_uncertainty: joints.clone(),
        visibility_evidence: joints
            .iter()
            .map(|&joint_id| JointVisibility {
                joint_id,
                evidence: VisibilityEvidence::Observed,
            })
            .collect(),
        estimate_origin: joints
            .iter()
            .map(|&joint_id| JointEstimateOrigin {
                joint_id,
                origin: EstimateOrigin::Fresh,
            })
            .collect(),
        performer_scale_status: PerformerScaleStatus::Locked,
    }
}

#[test]
fn canonical_frame_rejects_missing_required_joint() {
    let mut frame = fixture();
    frame.local_joint_rotations.pop();
    assert!(matches!(
        frame.validate(),
        Err(ContractError::MissingJoint {
            field: "local_joint_rotations",
            ..
        })
    ));
}

#[test]
fn canonical_frame_rejects_mismatched_optional_joints() {
    let mut frame = fixture();
    frame.local_joint_rotations.push(JointId::UpperChest);
    assert!(matches!(
        frame.validate(),
        Err(ContractError::JointSetMismatch { .. })
    ));
}

#[test]
fn canonical_frame_rejects_invalid_time_order() {
    let mut frame = fixture();
    frame.state_time = MonotonicTime::from_nanos(31);
    assert!(frame.validate().is_err());
}

#[test]
fn canonical_fixture_validates() {
    assert!(fixture().validate().is_ok());
}

#[test]
fn reports_the_first_missing_required_joint() {
    let mut frame = fixture();
    frame.local_joint_rotations.retain(|&j| j != JointId::Head && j != JointId::Spine);
    assert_eq!(
        frame.validate(),
        Err(ContractError::MissingJoint {
            field: "local_joint_rotations",
            joint: "spine",
        })
    );
}

#[test]
fn reports_the_time_order_that_fails() {
    let mut frame = fixture();
    frame.source_time = MonotonicTime::from_nanos(21);
    assert_eq!(
        frame.validate(),
        Err(ContractError::InvalidTimeOrder {
            earlier: "source_time",
            later: "state_time",
        })
    );
    let mut frame = fixture();
    frame.output_time = MonotonicTime::from_nanos(19);
    assert_eq!(
        frame.validate(),
        Err(ContractError::InvalidTimeOrder {
            earlier: "state_time",
            later: "output_time",
        })
    );
}

#[test]
fn reports_a_duplicate_in_a_channel() {
    let mut frame = fixture();
    frame.rest_offsets_s.push(JointId::Chest);
    assert_eq!(
        frame.validate(),
        Err(ContractError::DuplicateJoint {
            field: "rest_offsets_s",
            joint: "chest",
        })
    );
}

#[test]
fn reports_the_first_channel_that_differs() {
    let mut frame = fixture();
    frame.estimate_origin.pop();
    frame.visibility_evidence.pop();
    assert_eq!(
        frame.validate(),
        Err(ContractError::JointSetMismatch {
            field: "visibility_evidence",
        })
    );
}

#[test]
fn channels_may_list_the_topology_in_any_order() {
    let mut frame = fixture();
    frame.joint_uncertainty.reverse();
    frame.global_joint_positions_w.rotate_left(3);
    assert!(frame.validate().is_ok());
    assert_eq!(frame.joint_uncertainty.len(), frame.local_joint_rotations.len());
}

#[test]
fn collects_joint_sets_and_reports_the_first_repeat() {
    let set = collect_joint_set("f", &[JointId::Hips, JointId::Jaw]).unwrap();
    assert_eq!(set.len(), 2);
    assert!(set.contains(JointId::Jaw));
    assert!(!set.contains(JointId::Neck));
    let other = collect_joint_set("g", &[JointId::Jaw, JointId::Hips]).unwrap();
    assert!(set.same_members(&other));
    let smaller = collect_joint_set("h", &[JointId::Jaw]).unwrap();
    assert!(!set.same_members(&smaller));
    assert!(collect_joint_set("e", &[]).unwrap().len() == 0);
    assert_eq!(
        collect_joint_set(
            "f",
            &[JointId::Neck, JointId::Hips, JointId::Jaw, JointId::Hips, JointId::Neck]
        )
        .err(),
        Some(ContractError::DuplicateJoint {
            field: "f",
            joint: "hips",
        })
    );
}

#[test]
fn required_and_matching_checks_report_their_field() {
    let joints: Vec<JointId> = required_joints().iter().map(|spec| spec.joint).collect();
    let expected = validate_required_joints("a", &joints).unwrap();
    assert_eq!(expected.len(), 17);
    assert!(validate_matching_joints("b", &joints, &expected).is_ok());
    assert_eq!(
        validate_matching_joints("b", &joints[1..], &expected),
        Err(ContractError::JointSetMismatch { field: "b" })
    );
    assert_eq!(
        validate_required_joints("a", &joints[1..]).err(),
        Some(ContractError::MissingJoint {
            field: "a",
            joint: "hips",
        })
    );
}
