use std::collections::BTreeSet;

use senrigan_types::{
    optional_joint, optional_joints, required_joints, CanonicalJointSpec, JointId, ParentRule,
};

#[test]
fn canonical_table_contains_each_required_joint_once() {
    let required = required_joints();
    let joints = required
        .iter()
        .map(|spec| spec.joint)
        .collect::<BTreeSet<_>>();
    assert_eq!(joints.len(), required.len());
    assert!(required.iter().all(|spec| spec.required));

    let parent_of = |joint| {
        required
            .iter()
            .find(|spec| spec.joint == joint)
            .map(|spec| spec.parent)
    };
    assert_eq!(parent_of(JointId::Hips), Some(ParentRule::Root));
    assert_eq!(
        parent_of(JointId::Neck),
        Some(ParentRule::PreferOptional {
            optional: JointId::UpperChest,
            fallback: JointId::Chest,
        })
    );
}

#[test]
fn optional_table_contains_each_optional_joint_once() {
    let optional = optional_joints();
    let joints = optional
        .iter()
        .map(|spec| spec.joint)
        .collect::<BTreeSet<_>>();
    assert_eq!(joints.len(), optional.len());
    assert!(optional.iter().all(|spec| !spec.required));
    assert!(joints.is_disjoint(
        &required_joints()
            .iter()
            .map(|spec| spec.joint)
            .collect::<BTreeSet<_>>()
    ));
}

#[test]
fn tables_together_list_all_fifty_five_joints() {
    let all = required_joints()
        .iter()
        .chain(optional_joints().iter())
        .map(|spec| spec.joint)
        .collect::<BTreeSet<_>>();
    assert_eq!(all.len(), 55);
    assert!(all.contains(&JointId::Jaw));
    assert!(all.contains(&JointId::RightLittleDistal));
}

#[test]
fn parents_precede_their_children() {
    let required = required_joints();
    let optional = optional_joints();
    let optional_names = optional.iter().map(|s| s.joint).collect::<Vec<_>>();
    let mut seen: Vec<JointId> = Vec::new();
    for (index, spec) in required.iter().enumerate() {
        match spec.parent {
            ParentRule::Root => assert_eq!(index, 0),
            ParentRule::Fixed(parent) => assert!(seen.contains(&parent)),
            ParentRule::PreferOptional { optional, fallback } => {
                assert!(seen.contains(&fallback));
                assert!(optional_names.contains(&optional));
            }
        }
        seen.push(spec.joint);
    }
    for spec in optional.iter() {
        match spec.parent {
            ParentRule::Root => panic!("optional joint {:?} is a root", spec.joint),
            ParentRule::Fixed(parent) => assert!(seen.contains(&parent)),
            ParentRule::PreferOptional { optional, fallback } => {
                assert!(seen.contains(&fallback));
                assert!(seen.contains(&optional));
            }
        }
        seen.push(spec.joint);
    }
}

#[test]
fn canonical_names_follow_the_serialized_schema() {
    assert_eq!(JointId::Hips.canonical_name(), "hips");
    assert_eq!(JointId::UpperChest.canonical_name(), "upperChest");
    assert_eq!(JointId::LeftThumbMetacarpal.canonical_name(), "leftThumbMetacarpal");
    assert_eq!(JointId::RightLittleDistal.canonical_name(), "rightLittleDistal");
    assert_eq!(JointId::Jaw.canonical_name(), "jaw");
    let names = required_joints()
        .iter()
        .chain(optional_joints().iter())
        .map(|spec| spec.joint.canonical_name())
        .collect::<BTreeSet<_>>();
    assert_eq!(names.len(), 55);
}

#[test]
fn optional_joint_builds_an_optional_entry() {
    assert_eq!(
        optional_joint(JointId::Jaw, ParentRule::Fixed(JointId::Head)),
        CanonicalJointSpec {
            joint: JointId::Jaw,
            parent: ParentRule::Fixed(JointId::Head),
            required: false,
        }
    );
}
