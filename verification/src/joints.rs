//! The body-model-independent canonical joint topology.
//!
//! Joint names follow Virtual Reality Model (VRM) 1 where versions differ.

use vstd::prelude::*;

verus! {

/// Identifies a joint in the body-model-independent canonical skeleton.
#[derive(Debug, Clone, Copy, PartialEq, Eq, Structural, PartialOrd, Ord, Hash)]
pub enum JointId {
    Hips,
    Spine,
    Chest,
    UpperChest,
    Neck,
    Head,
    LeftShoulder,
    LeftUpperArm,
    LeftLowerArm,
    LeftHand,
    LeftThumbMetacarpal,
    LeftThumbProximal,
    LeftThumbDistal,
    LeftIndexProximal,
    LeftIndexIntermediate,
    LeftIndexDistal,
    LeftMiddleProximal,
    LeftMiddleIntermediate,
    LeftMiddleDistal,
    LeftRingProximal,
    LeftRingIntermediate,
    LeftRingDistal,
    LeftLittleProximal,
    LeftLittleIntermediate,
    LeftLittleDistal,
    RightShoulder,
    RightUpperArm,
    RightLowerArm,
    RightHand,
    RightThumbMetacarpal,
    RightThumbProximal,
    RightThumbDistal,
    RightIndexProximal,
    RightIndexIntermediate,
    RightIndexDistal,
    RightMiddleProximal,
    RightMiddleIntermediate,
    RightMiddleDistal,
    RightRingProximal,
    RightRingIntermediate,
    RightRingDistal,
    RightLittleProximal,
    RightLittleIntermediate,
    RightLittleDistal,
    LeftUpperLeg,
    LeftLowerLeg,
    LeftFoot,
    LeftToes,
    RightUpperLeg,
    RightLowerLeg,
    RightFoot,
    RightToes,
    LeftEye,
    RightEye,
    Jaw,
}

/// The canonical serialized name of a joint.
pub open spec fn joint_name(joint: JointId) -> &'static str {
    match joint {
        JointId::Hips => "hips",
        JointId::Spine => "spine",
        JointId::Chest => "chest",
        JointId::UpperChest => "upperChest",
        JointId::Neck => "neck",
        JointId::Head => "head",
        JointId::LeftShoulder => "leftShoulder",
        JointId::LeftUpperArm => "leftUpperArm",
        JointId::LeftLowerArm => "leftLowerArm",
        JointId::LeftHand => "leftHand",
        JointId::LeftThumbMetacarpal => "leftThumbMetacarpal",
        JointId::LeftThumbProximal => "leftThumbProximal",
        JointId::LeftThumbDistal => "leftThumbDistal",
        JointId::LeftIndexProximal => "leftIndexProximal",
        JointId::LeftIndexIntermediate => "leftIndexIntermediate",
        JointId::LeftIndexDistal => "leftIndexDistal",
        JointId::LeftMiddleProximal => "leftMiddleProximal",
        JointId::LeftMiddleIntermediate => "leftMiddleIntermediate",
        JointId::LeftMiddleDistal => "leftMiddleDistal",
        JointId::LeftRingProximal => "leftRingProximal",
        JointId::LeftRingIntermediate => "leftRingIntermediate",
        JointId::LeftRingDistal => "leftRingDistal",
        JointId::LeftLittleProximal => "leftLittleProximal",
        JointId::LeftLittleIntermediate => "leftLittleIntermediate",
        JointId::LeftLittleDistal => "leftLittleDistal",
        JointId::RightShoulder => "rightShoulder",
        JointId::RightUpperArm => "rightUpperArm",
        JointId::RightLowerArm => "rightLowerArm",
        JointId::RightHand => "rightHand",
        JointId::RightThumbMetacarpal => "rightThumbMetacarpal",
        JointId::RightThumbProximal => "rightThumbProximal",
        JointId::RightThumbDistal => "rightThumbDistal",
        JointId::RightIndexProximal => "rightIndexProximal",
        JointId::RightIndexIntermediate => "rightIndexIntermediate",
        JointId::RightIndexDistal => "rightIndexDistal",
        JointId::RightMiddleProximal => "rightMiddleProximal",
        JointId::RightMiddleIntermediate => "rightMiddleIntermediate",
        JointId::RightMiddleDistal => "rightMiddleDistal",
        JointId::RightRingProximal => "rightRingProximal",
        JointId::RightRingIntermediate => "rightRingIntermediate",
        JointId::RightRingDistal => "rightRingDistal",
        JointId::RightLittleProximal => "rightLittleProximal",
        JointId::RightLittleIntermediate => "rightLittleIntermediate",
        JointId::RightLittleDistal => "rightLittleDistal",
        JointId::LeftUpperLeg => "leftUpperLeg",
        JointId::LeftLowerLeg => "leftLowerLeg",
        JointId::LeftFoot => "leftFoot",
        JointId::LeftToes => "leftToes",
        JointId::RightUpperLeg => "rightUpperLeg",
        JointId::RightLowerLeg => "rightLowerLeg",
        JointId::RightFoot => "rightFoot",
        JointId::RightToes => "rightToes",
        JointId::LeftEye => "leftEye",
        JointId::RightEye => "rightEye",
        JointId::Jaw => "jaw",
    }
}

impl JointId {
    /// Returns the canonical serialized joint name.
    pub fn canonical_name(self) -> (name: &'static str)
        ensures
            name == joint_name(self),
    {
        match self {
            JointId::Hips => "hips",
            JointId::Spine => "spine",
            JointId::Chest => "chest",
            JointId::UpperChest => "upperChest",
            JointId::Neck => "neck",
            JointId::Head => "head",
            JointId::LeftShoulder => "leftShoulder",
            JointId::LeftUpperArm => "leftUpperArm",
            JointId::LeftLowerArm => "leftLowerArm",
            JointId::LeftHand => "leftHand",
            JointId::LeftThumbMetacarpal => "leftThumbMetacarpal",
            JointId::LeftThumbProximal => "leftThumbProximal",
            JointId::LeftThumbDistal => "leftThumbDistal",
            JointId::LeftIndexProximal => "leftIndexProximal",
            JointId::LeftIndexIntermediate => "leftIndexIntermediate",
            JointId::LeftIndexDistal => "leftIndexDistal",
            JointId::LeftMiddleProximal => "leftMiddleProximal",
            JointId::LeftMiddleIntermediate => "leftMiddleIntermediate",
            JointId::LeftMiddleDistal => "leftMiddleDistal",
            JointId::LeftRingProximal => "leftRingProximal",
            JointId::LeftRingIntermediate => "leftRingIntermediate",
            JointId::LeftRingDistal => "leftRingDistal",
            JointId::LeftLittleProximal => "leftLittleProximal",
            JointId::LeftLittleIntermediate => "leftLittleIntermediate",
            JointId::LeftLittleDistal => "leftLittleDistal",
            JointId::RightShoulder => "rightShoulder",
            JointId::RightUpperArm => "rightUpperArm",
            JointId::RightLowerArm => "rightLowerArm",
            JointId::RightHand => "rightHand",
            JointId::RightThumbMetacarpal => "rightThumbMetacarpal",
            JointId::RightThumbProximal => "rightThumbProximal",
            JointId::RightThumbDistal => "rightThumbDistal",
            JointId::RightIndexProximal => "rightIndexProximal",
            JointId::RightIndexIntermediate => "rightIndexIntermediate",
            JointId::RightIndexDistal => "rightIndexDistal",
            JointId::RightMiddleProximal => "rightMiddleProximal",
            JointId::RightMiddleIntermediate => "rightMiddleIntermediate",
            JointId::RightMiddleDistal => "rightMiddleDistal",
            JointId::RightRingProximal => "rightRingProximal",
            JointId::RightRingIntermediate => "rightRingIntermediate",
            JointId::RightRingDistal => "rightRingDistal",
            JointId::RightLittleProximal => "rightLittleProximal",
            JointId::RightLittleIntermediate => "rightLittleIntermediate",
            JointId::RightLittleDistal => "rightLittleDistal",
            JointId::LeftUpperLeg => "leftUpperLeg",
            JointId::LeftLowerLeg => "leftLowerLeg",
            JointId::LeftFoot => "leftFoot",
            JointId::LeftToes => "leftToes",
            JointId::RightUpperLeg => "rightUpperLeg",
            JointId::RightLowerLeg => "rightLowerLeg",
            JointId::RightFoot => "rightFoot",
            JointId::RightToes => "rightToes",
            JointId::LeftEye => "leftEye",
            JointId::RightEye => "rightEye",
            JointId::Jaw => "jaw",
        }
    }
}

/// Selects the parent of one canonical joint.
#[derive(Debug, Clone, Copy, PartialEq, Eq, Structural)]
pub enum ParentRule {
    /// The joint starts the canonical hierarchy.
    Root,
    /// The joint always uses the named parent.
    Fixed(JointId),
    /// The joint uses an optional parent when present.
    PreferOptional { optional: JointId, fallback: JointId },
}

/// Defines one joint in the canonical topology.
#[derive(Debug, Clone, Copy, PartialEq, Eq, Structural)]
pub struct CanonicalJointSpec {
    pub joint: JointId,
    pub parent: ParentRule,
    /// Whether every canonical motion frame must contain the joint.
    pub required: bool,
}

/// Builds the table entry of an optional joint.
pub fn optional_joint(joint: JointId, parent: ParentRule) -> (spec: CanonicalJointSpec)
    ensures
        spec == (CanonicalJointSpec { joint, parent, required: false }),
{
    CanonicalJointSpec { joint, parent, required: false }
}

/// The required joints of the canonical motion contract, in table order.
pub open spec fn required_joints_spec() -> Seq<CanonicalJointSpec> {
    seq![
        CanonicalJointSpec { joint: JointId::Hips, parent: ParentRule::Root, required: true },
        CanonicalJointSpec { joint: JointId::Spine, parent: ParentRule::Fixed(JointId::Hips), required: true },
        CanonicalJointSpec { joint: JointId::Chest, parent: ParentRule::Fixed(JointId::Spine), required: true },
        CanonicalJointSpec { joint: JointId::Neck, parent: ParentRule::PreferOptional { optional: JointId::UpperChest, fallback: JointId::Chest }, required: true },
        CanonicalJointSpec { joint: JointId::Head, parent: ParentRule::Fixed(JointId::Neck), required: true },
        CanonicalJointSpec { joint: JointId::LeftUpperArm, parent: ParentRule::PreferOptional { optional: JointId::LeftShoulder, fallback: JointId::Chest }, required: true },
        CanonicalJointSpec { joint: JointId::LeftLowerArm, parent: ParentRule::Fixed(JointId::LeftUpperArm), required: true },
        CanonicalJointSpec { joint: JointId::LeftHand, parent: ParentRule::Fixed(JointId::LeftLowerArm), required: true },
        CanonicalJointSpec { joint: JointId::RightUpperArm, parent: ParentRule::PreferOptional { optional: JointId::RightShoulder, fallback: JointId::Chest }, required: true },
        CanonicalJointSpec { joint: JointId::RightLowerArm, parent: ParentRule::Fixed(JointId::RightUpperArm), required: true },
        CanonicalJointSpec { joint: JointId::RightHand, parent: ParentRule::Fixed(JointId::RightLowerArm), required: true },
        CanonicalJointSpec { joint: JointId::LeftUpperLeg, parent: ParentRule::Fixed(JointId::Hips), required: true },
        CanonicalJointSpec { joint: JointId::LeftLowerLeg, parent: ParentRule::Fixed(JointId::LeftUpperLeg), required: true },
        CanonicalJointSpec { joint: JointId::LeftFoot, parent: ParentRule::Fixed(JointId::LeftLowerLeg), required: true },
        CanonicalJointSpec { joint: JointId::RightUpperLeg, parent: ParentRule::Fixed(JointId::Hips), required: true },
        CanonicalJointSpec { joint: JointId::RightLowerLeg, parent: ParentRule::Fixed(JointId::RightUpperLeg), required: true },
        CanonicalJointSpec { joint: JointId::RightFoot, parent: ParentRule::Fixed(JointId::RightLowerLeg), required: true },
    ]
}

/// The optional canonical joints and their parent rules, in table order.
pub open spec fn optional_joints_spec() -> Seq<CanonicalJointSpec> {
    seq![
        CanonicalJointSpec { joint: JointId::UpperChest, parent: ParentRule::Fixed(JointId::Chest), required: false },
        CanonicalJointSpec { joint: JointId::LeftShoulder, parent: ParentRule::PreferOptional { optional: JointId::UpperChest, fallback: JointId::Chest }, required: false },
        CanonicalJointSpec { joint: JointId::RightShoulder, parent: ParentRule::PreferOptional { optional: JointId::UpperChest, fallback: JointId::Chest }, required: false },
        CanonicalJointSpec { joint: JointId::LeftToes, parent: ParentRule::Fixed(JointId::LeftFoot), required: false },
        CanonicalJointSpec { joint: JointId::RightToes, parent: ParentRule::Fixed(JointId::RightFoot), required: false },
        CanonicalJointSpec { joint: JointId::LeftEye, parent: ParentRule::Fixed(JointId::Head), required: false },
        CanonicalJointSpec { joint: JointId::RightEye, parent: ParentRule::Fixed(JointId::Head), required: false },
        CanonicalJointSpec { joint: JointId::Jaw, parent: ParentRule::Fixed(JointId::Head), required: false },
        CanonicalJointSpec { joint: JointId::LeftThumbMetacarpal, parent: ParentRule::Fixed(JointId::LeftHand), required: false },
        CanonicalJointSpec { joint: JointId::LeftThumbProximal, parent: ParentRule::Fixed(JointId::LeftThumbMetacarpal), required: false },
        CanonicalJointSpec { joint: JointId::LeftThumbDistal, parent: ParentRule::Fixed(JointId::LeftThumbProximal), required: false },
        CanonicalJointSpec { joint: JointId::LeftIndexProximal, parent: ParentRule::Fixed(JointId::LeftHand), required: false },
        CanonicalJointSpec { joint: JointId::LeftIndexIntermediate, parent: ParentRule::Fixed(JointId::LeftIndexProximal), required: false },
        CanonicalJointSpec { joint: JointId::LeftIndexDistal, parent: ParentRule::Fixed(JointId::LeftIndexIntermediate), required: false },
        CanonicalJointSpec { joint: JointId::LeftMiddleProximal, parent: ParentRule::Fixed(JointId::LeftHand), required: false },
        CanonicalJointSpec { joint: JointId::LeftMiddleIntermediate, parent: ParentRule::Fixed(JointId::LeftMiddleProximal), required: false },
        CanonicalJointSpec { joint: JointId::LeftMiddleDistal, parent: ParentRule::Fixed(JointId::LeftMiddleIntermediate), required: false },
        CanonicalJointSpec { joint: JointId::LeftRingProximal, parent: ParentRule::Fixed(JointId::LeftHand), required: false },
        CanonicalJointSpec { joint: JointId::LeftRingIntermediate, parent: ParentRule::Fixed(JointId::LeftRingProximal), required: false },
        CanonicalJointSpec { joint: JointId::LeftRingDistal, parent: ParentRule::Fixed(JointId::LeftRingIntermediate), required: false },
        CanonicalJointSpec { joint: JointId::LeftLittleProximal, parent: ParentRule::Fixed(JointId::LeftHand), required: false },
        CanonicalJointSpec { joint: JointId::LeftLittleIntermediate, parent: ParentRule::Fixed(JointId::LeftLittleProximal), required: false },
        CanonicalJointSpec { joint: JointId::LeftLittleDistal, parent: ParentRule::Fixed(JointId::LeftLittleIntermediate), required: false },
        CanonicalJointSpec { joint: JointId::RightThumbMetacarpal, parent: ParentRule::Fixed(JointId::RightHand), required: false },
        CanonicalJointSpec { joint: JointId::RightThumbProximal, parent: ParentRule::Fixed(JointId::RightThumbMetacarpal), required: false },
        CanonicalJointSpec { joint: JointId::RightThumbDistal, parent: ParentRule::Fixed(JointId::RightThumbProximal), required: false },
        CanonicalJointSpec { joint: JointId::RightIndexProximal, parent: ParentRule::Fixed(JointId::RightHand), required: false },
        CanonicalJointSpec { joint: JointId::RightIndexIntermediate, parent: ParentRule::Fixed(JointId::RightIndexProximal), required: false },
        CanonicalJointSpec { joint: JointId::RightIndexDistal, parent: ParentRule::Fixed(JointId::RightIndexIntermediate), required: false },
        CanonicalJointSpec { joint: JointId::RightMiddleProximal, parent: ParentRule::Fixed(JointId::RightHand), required: false },
        CanonicalJointSpec { joint: JointId::RightMiddleIntermediate, parent: ParentRule::Fixed(JointId::RightMiddleProximal), required: false },
        CanonicalJointSpec { joint: JointId::RightMiddleDistal, parent: ParentRule::Fixed(JointId::RightMiddleIntermediate), required: false },
        CanonicalJointSpec { joint: JointId::RightRingProximal, parent: ParentRule::Fixed(JointId::RightHand), required: false },
        CanonicalJointSpec { joint: JointId::RightRingIntermediate, parent: ParentRule::Fixed(JointId::RightRingProximal), required: false },
        CanonicalJointSpec { joint: JointId::RightRingDistal, parent: ParentRule::Fixed(JointId::RightRingIntermediate), required: false },
        CanonicalJointSpec { joint: JointId::RightLittleProximal, parent: ParentRule::Fixed(JointId::RightHand), required: false },
        CanonicalJointSpec { joint: JointId::RightLittleIntermediate, parent: ParentRule::Fixed(JointId::RightLittleProximal), required: false },
        CanonicalJointSpec { joint: JointId::RightLittleDistal, parent: ParentRule::Fixed(JointId::RightLittleIntermediate), required: false },
    ]
}

/// Lists the required joints from the canonical motion contract.
pub fn required_joints() -> (table: [CanonicalJointSpec; 17])
    ensures
        table@ == required_joints_spec(),
{
    let table = [
        CanonicalJointSpec { joint: JointId::Hips, parent: ParentRule::Root, required: true },
        CanonicalJointSpec { joint: JointId::Spine, parent: ParentRule::Fixed(JointId::Hips), required: true },
        CanonicalJointSpec { joint: JointId::Chest, parent: ParentRule::Fixed(JointId::Spine), required: true },
        CanonicalJointSpec { joint: JointId::Neck, parent: ParentRule::PreferOptional { optional: JointId::UpperChest, fallback: JointId::Chest }, required: true },
        CanonicalJointSpec { joint: JointId::Head, parent: ParentRule::Fixed(JointId::Neck), required: true },
        CanonicalJointSpec { joint: JointId::LeftUpperArm, parent: ParentRule::PreferOptional { optional: JointId::LeftShoulder, fallback: JointId::Chest }, required: true },
        CanonicalJointSpec { joint: JointId::LeftLowerArm, parent: ParentRule::Fixed(JointId::LeftUpperArm), required: true },
        CanonicalJointSpec { joint: JointId::LeftHand, parent: ParentRule::Fixed(JointId::LeftLowerArm), required: true },
        CanonicalJointSpec { joint: JointId::RightUpperArm, parent: ParentRule::PreferOptional { optional: JointId::RightShoulder, fallback: JointId::Chest }, required: true },
        CanonicalJointSpec { joint: JointId::RightLowerArm, parent: ParentRule::Fixed(JointId::RightUpperArm), required: true },
        CanonicalJointSpec { joint: JointId::RightHand, parent: ParentRule::Fixed(JointId::RightLowerArm), required: true },
        CanonicalJointSpec { joint: JointId::LeftUpperLeg, parent: ParentRule::Fixed(JointId::Hips), required: true },
        CanonicalJointSpec { joint: JointId::LeftLowerLeg, parent: ParentRule::Fixed(JointId::LeftUpperLeg), required: true },
        CanonicalJointSpec { joint: JointId::LeftFoot, parent: ParentRule::Fixed(JointId::LeftLowerLeg), required: true },
        CanonicalJointSpec { joint: JointId::RightUpperLeg, parent: ParentRule::Fixed(JointId::Hips), required: true },
        CanonicalJointSpec { joint: JointId::RightLowerLeg, parent: ParentRule::Fixed(JointId::RightUpperLeg), required: true },
        CanonicalJointSpec { joint: JointId::RightFoot, parent: ParentRule::Fixed(JointId::RightLowerLeg), required: true },
    ];
    assert(table@ =~= required_joints_spec());
    table
}

/// Lists optional canonical joints and their parent rules.
pub fn optional_joints() -> (table: [CanonicalJointSpec; 38])
    ensures
        table@ == optional_joints_spec(),
{
    let table = [
        optional_joint(JointId::UpperChest, ParentRule::Fixed(JointId::Chest)),
        optional_joint(JointId::LeftShoulder, ParentRule::PreferOptional { optional: JointId::UpperChest, fallback: JointId::Chest }),
        optional_joint(JointId::RightShoulder, ParentRule::PreferOptional { optional: JointId::UpperChest, fallback: JointId::Chest }),
        optional_joint(JointId::LeftToes, ParentRule::Fixed(JointId::LeftFoot)),
        optional_joint(JointId::RightToes, ParentRule::Fixed(JointId::RightFoot)),
        optional_joint(JointId::LeftEye, ParentRule::Fixed(JointId::Head)),
        optional_joint(JointId::RightEye, ParentRule::Fixed(JointId::Head)),
        optional_joint(JointId::Jaw, ParentRule::Fixed(JointId::Head)),
        optional_joint(JointId::LeftThumbMetacarpal, ParentRule::Fixed(JointId::LeftHand)),
        optional_joint(JointId::LeftThumbProximal, ParentRule::Fixed(JointId::LeftThumbMetacarpal)),
        optional_joint(JointId::LeftThumbDistal, ParentRule::Fixed(JointId::LeftThumbProximal)),
        optional_joint(JointId::LeftIndexProximal, ParentRule::Fixed(JointId::LeftHand)),
        optional_joint(JointId::LeftIndexIntermediate, ParentRule::Fixed(JointId::LeftIndexProximal)),
        optional_joint(JointId::LeftIndexDistal, ParentRule::Fixed(JointId::LeftIndexIntermediate)),
        optional_joint(JointId::LeftMiddleProximal, ParentRule::Fixed(JointId::LeftHand)),
        optional_joint(JointId::LeftMiddleIntermediate, ParentRule::Fixed(JointId::LeftMiddleProximal)),
        optional_joint(JointId::LeftMiddleDistal, ParentRule::Fixed(JointId::LeftMiddleIntermediate)),
        optional_joint(JointId::LeftRingProximal, ParentRule::Fixed(JointId::LeftHand)),
        optional_joint(JointId::LeftRingIntermediate, ParentRule::Fixed(JointId::LeftRingProximal)),
        optional_joint(JointId::LeftRingDistal, ParentRule::Fixed(JointId::LeftRingIntermediate)),
        optional_joint(JointId::LeftLittleProximal, ParentRule::Fixed(JointId::LeftHand)),
        optional_joint(JointId::LeftLittleIntermediate, ParentRule::Fixed(JointId::LeftLittleProximal)),
        optional_joint(JointId::LeftLittleDistal, ParentRule::Fixed(JointId::LeftLittleIntermediate)),
        optional_joint(JointId::RightThumbMetacarpal, ParentRule::Fixed(JointId::RightHand)),
        optional_joint(JointId::RightThumbProximal, ParentRule::Fixed(JointId::RightThumbMetacarpal)),
        optional_joint(JointId::RightThumbDistal, ParentRule::Fixed(JointId::RightThumbProximal)),
        optional_joint(JointId::RightIndexProximal, ParentRule::Fixed(JointId::RightHand)),
        optional_joint(JointId::RightIndexIntermediate, ParentRule::Fixed(JointId::RightIndexProximal)),
        optional_joint(JointId::RightIndexDistal, ParentRule::Fixed(JointId::RightIndexIntermediate)),
        optional_joint(JointId::RightMiddleProximal, ParentRule::Fixed(JointId::RightHand)),
        optional_joint(JointId::RightMiddleIntermediate, ParentRule::Fixed(JointId::RightMiddleProximal)),
        optional_joint(JointId::RightMiddleDistal, ParentRule::Fixed(JointId::RightMiddleIntermediate)),
        optional_joint(JointId::RightRingProximal, ParentRule::Fixed(JointId::RightHand)),
        optional_joint(JointId::RightRingIntermediate, ParentRule::Fixed(JointId::RightRingProximal)),
        optional_joint(JointId::RightRingDistal, ParentRule::Fixed(JointId::RightRingIntermediate)),
        optional_joint(JointId::RightLittleProximal, ParentRule::Fixed(JointId::RightHand)),
        optional_joint(JointId::RightLittleIntermediate, ParentRule::Fixed(JointId::RightLittleProximal)),
        optional_joint(JointId::RightLittleDistal, ParentRule::Fixed(JointId::RightLittleIntermediate)),
    ];
    assert(table@ =~= optional_joints_spec());
    table
}

/// The joints of a table, in table order.
pub open spec fn table_joints(table: Seq<CanonicalJointSpec>) -> Seq<JointId> {
    table.map_values(|spec: CanonicalJointSpec| spec.joint)
}

/// Whether `rule` names parents that are already available: a fixed parent
/// or fallback among `earlier`, and a preferred optional parent among
/// `optional`. The root rule names no parent.
pub open spec fn parent_available(rule: ParentRule, earlier: Seq<JointId>, optional: Seq<JointId>) -> bool {
    match rule {
        ParentRule::Root => false,
        ParentRule::Fixed(parent) => earlier.contains(parent),
        ParentRule::PreferOptional { optional: preferred, fallback } => earlier.contains(fallback)
            && optional.contains(preferred),
    }
}

proof fn lemma_required_joints()
    ensures
        table_joints(required_joints_spec()) == seq![JointId::Hips, JointId::Spine, JointId::Chest, JointId::Neck, JointId::Head, JointId::LeftUpperArm, JointId::LeftLowerArm, JointId::LeftHand, JointId::RightUpperArm, JointId::RightLowerArm, JointId::RightHand, JointId::LeftUpperLeg, JointId::LeftLowerLeg, JointId::LeftFoot, JointId::RightUpperLeg, JointId::RightLowerLeg, JointId::RightFoot],
{
    assert(table_joints(required_joints_spec()) =~= seq![JointId::Hips, JointId::Spine, JointId::Chest, JointId::Neck, JointId::Head, JointId::LeftUpperArm, JointId::LeftLowerArm, JointId::LeftHand, JointId::RightUpperArm, JointId::RightLowerArm, JointId::RightHand, JointId::LeftUpperLeg, JointId::LeftLowerLeg, JointId::LeftFoot, JointId::RightUpperLeg, JointId::RightLowerLeg, JointId::RightFoot]);
}

proof fn lemma_optional_joints()
    ensures
        table_joints(optional_joints_spec()) == seq![JointId::UpperChest, JointId::LeftShoulder, JointId::RightShoulder, JointId::LeftToes, JointId::RightToes, JointId::LeftEye, JointId::RightEye, JointId::Jaw, JointId::LeftThumbMetacarpal, JointId::LeftThumbProximal, JointId::LeftThumbDistal, JointId::LeftIndexProximal, JointId::LeftIndexIntermediate, JointId::LeftIndexDistal, JointId::LeftMiddleProximal, JointId::LeftMiddleIntermediate, JointId::LeftMiddleDistal, JointId::LeftRingProximal, JointId::LeftRingIntermediate, JointId::LeftRingDistal, JointId::LeftLittleProximal, JointId::LeftLittleIntermediate, JointId::LeftLittleDistal, JointId::RightThumbMetacarpal, JointId::RightThumbProximal, JointId::RightThumbDistal, JointId::RightIndexProximal, JointId::RightIndexIntermediate, JointId::RightIndexDistal, JointId::RightMiddleProximal, JointId::RightMiddleIntermediate, JointId::RightMiddleDistal, JointId::RightRingProximal, JointId::RightRingIntermediate, JointId::RightRingDistal, JointId::RightLittleProximal, JointId::RightLittleIntermediate, JointId::RightLittleDistal],
{
    assert(table_joints(optional_joints_spec()) =~= seq![JointId::UpperChest, JointId::LeftShoulder, JointId::RightShoulder, JointId::LeftToes, JointId::RightToes, JointId::LeftEye, JointId::RightEye, JointId::Jaw, JointId::LeftThumbMetacarpal, JointId::LeftThumbProximal, JointId::LeftThumbDistal, JointId::LeftIndexProximal, JointId::LeftIndexIntermediate, JointId::LeftIndexDistal, JointId::LeftMiddleProximal, JointId::LeftMiddleIntermediate, JointId::LeftMiddleDistal, JointId::LeftRingProximal, JointId::LeftRingIntermediate, JointId::LeftRingDistal, JointId::LeftLittleProximal, JointId::LeftLittleIntermediate, JointId::LeftLittleDistal, JointId::RightThumbMetacarpal, JointId::RightThumbProximal, JointId::RightThumbDistal, JointId::RightIndexProximal, JointId::RightIndexIntermediate, JointId::RightIndexDistal, JointId::RightMiddleProximal, JointId::RightMiddleIntermediate, JointId::RightMiddleDistal, JointId::RightRingProximal, JointId::RightRingIntermediate, JointId::RightRingDistal, JointId::RightLittleProximal, JointId::RightLittleIntermediate, JointId::RightLittleDistal]);
}

/// The required table lists each joint once, marks every entry required,
/// starts the hierarchy at the hips, and lists every other joint after the
/// parents that its rule names (a preferred optional parent is an optional
/// joint).
pub proof fn required_table_is_well_formed()
    ensures
        table_joints(required_joints_spec()).no_duplicates(),
        forall|i: int| 0 <= i < required_joints_spec().len() ==> #[trigger] required_joints_spec()[i].required,
        required_joints_spec()[0] == (CanonicalJointSpec { joint: JointId::Hips, parent: ParentRule::Root, required: true }),
        forall|i: int|
            1 <= i < required_joints_spec().len() ==> parent_available(
                #[trigger] required_joints_spec()[i].parent,
                table_joints(required_joints_spec()).take(i),
                table_joints(optional_joints_spec()),
            ),
{
    lemma_required_joints();
    lemma_optional_joints();
    assert forall|i: int| 1 <= i < required_joints_spec().len() implies parent_available(
        #[trigger] required_joints_spec()[i].parent,
        table_joints(required_joints_spec()).take(i),
        table_joints(optional_joints_spec()),
    ) by {
        if i == 1 {
            assert(table_joints(required_joints_spec()).take(i)[0] == JointId::Hips);
        } else if i == 2 {
            assert(table_joints(required_joints_spec()).take(i)[1] == JointId::Spine);
        } else if i == 3 {
            assert(table_joints(required_joints_spec()).take(i)[2] == JointId::Chest);
            assert(table_joints(optional_joints_spec())[0] == JointId::UpperChest);
        } else if i == 4 {
            assert(table_joints(required_joints_spec()).take(i)[3] == JointId::Neck);
        } else if i == 5 {
            assert(table_joints(required_joints_spec()).take(i)[2] == JointId::Chest);
            assert(table_joints(optional_joints_spec())[1] == JointId::LeftShoulder);
        } else if i == 6 {
            assert(table_joints(required_joints_spec()).take(i)[5] == JointId::LeftUpperArm);
        } else if i == 7 {
            assert(table_joints(required_joints_spec()).take(i)[6] == JointId::LeftLowerArm);
        } else if i == 8 {
            assert(table_joints(required_joints_spec()).take(i)[2] == JointId::Chest);
            assert(table_joints(optional_joints_spec())[2] == JointId::RightShoulder);
        } else if i == 9 {
            assert(table_joints(required_joints_spec()).take(i)[8] == JointId::RightUpperArm);
        } else if i == 10 {
            assert(table_joints(required_joints_spec()).take(i)[9] == JointId::RightLowerArm);
        } else if i == 11 {
            assert(table_joints(required_joints_spec()).take(i)[0] == JointId::Hips);
        } else if i == 12 {
            assert(table_joints(required_joints_spec()).take(i)[11] == JointId::LeftUpperLeg);
        } else if i == 13 {
            assert(table_joints(required_joints_spec()).take(i)[12] == JointId::LeftLowerLeg);
        } else if i == 14 {
            assert(table_joints(required_joints_spec()).take(i)[0] == JointId::Hips);
        } else if i == 15 {
            assert(table_joints(required_joints_spec()).take(i)[14] == JointId::RightUpperLeg);
        } else if i == 16 {
            assert(table_joints(required_joints_spec()).take(i)[15] == JointId::RightLowerLeg);
        }
    }
}

/// The optional table lists each joint once, marks no entry required, shares
/// no joint with the required table, names no root, and lists every joint
/// after its parents: each fixed parent or fallback is a required joint or an
/// earlier optional one, and each preferred parent is an earlier optional
/// joint.
pub proof fn optional_table_is_well_formed()
    ensures
        table_joints(optional_joints_spec()).no_duplicates(),
        forall|i: int| 0 <= i < optional_joints_spec().len() ==> !#[trigger] optional_joints_spec()[i].required,
        forall|joint: JointId|
            !(table_joints(required_joints_spec()).contains(joint) && table_joints(
                optional_joints_spec(),
            ).contains(joint)),
        forall|i: int|
            0 <= i < optional_joints_spec().len() ==> parent_available(
                #[trigger] optional_joints_spec()[i].parent,
                table_joints(required_joints_spec()) + table_joints(optional_joints_spec()).take(i),
                table_joints(optional_joints_spec()).take(i),
            ),
{
    lemma_required_joints();
    lemma_optional_joints();
    assert forall|i: int| 0 <= i < optional_joints_spec().len() implies parent_available(
        #[trigger] optional_joints_spec()[i].parent,
        table_joints(required_joints_spec()) + table_joints(optional_joints_spec()).take(i),
        table_joints(optional_joints_spec()).take(i),
    ) by {
        if i == 0 {
            assert((table_joints(required_joints_spec()) + table_joints(optional_joints_spec()).take(i))[2] == JointId::Chest);
        } else if i == 1 {
            assert((table_joints(required_joints_spec()) + table_joints(optional_joints_spec()).take(i))[2] == JointId::Chest);
            assert(table_joints(optional_joints_spec()).take(i)[0] == JointId::UpperChest);
        } else if i == 2 {
            assert((table_joints(required_joints_spec()) + table_joints(optional_joints_spec()).take(i))[2] == JointId::Chest);
            assert(table_joints(optional_joints_spec()).take(i)[0] == JointId::UpperChest);
        } else if i == 3 {
            assert((table_joints(required_joints_spec()) + table_joints(optional_joints_spec()).take(i))[13] == JointId::LeftFoot);
        } else if i == 4 {
            assert((table_joints(required_joints_spec()) + table_joints(optional_joints_spec()).take(i))[16] == JointId::RightFoot);
        } else if i == 5 {
            assert((table_joints(required_joints_spec()) + table_joints(optional_joints_spec()).take(i))[4] == JointId::Head);
        } else if i == 6 {
            assert((table_joints(required_joints_spec()) + table_joints(optional_joints_spec()).take(i))[4] == JointId::Head);
        } else if i == 7 {
            assert((table_joints(required_joints_spec()) + table_joints(optional_joints_spec()).take(i))[4] == JointId::Head);
        } else if i == 8 {
            assert((table_joints(required_joints_spec()) + table_joints(optional_joints_spec()).take(i))[7] == JointId::LeftHand);
        } else if i == 9 {
            assert((table_joints(required_joints_spec()) + table_joints(optional_joints_spec()).take(i))[25] == JointId::LeftThumbMetacarpal);
        } else if i == 10 {
            assert((table_joints(required_joints_spec()) + table_joints(optional_joints_spec()).take(i))[26] == JointId::LeftThumbProximal);
        } else if i == 11 {
            assert((table_joints(required_joints_spec()) + table_joints(optional_joints_spec()).take(i))[7] == JointId::LeftHand);
        } else if i == 12 {
            assert((table_joints(required_joints_spec()) + table_joints(optional_joints_spec()).take(i))[28] == JointId::LeftIndexProximal);
        } else if i == 13 {
            assert((table_joints(required_joints_spec()) + table_joints(optional_joints_spec()).take(i))[29] == JointId::LeftIndexIntermediate);
        } else if i == 14 {
            assert((table_joints(required_joints_spec()) + table_joints(optional_joints_spec()).take(i))[7] == JointId::LeftHand);
        } else if i == 15 {
            assert((table_joints(required_joints_spec()) + table_joints(optional_joints_spec()).take(i))[31] == JointId::LeftMiddleProximal);
        } else if i == 16 {
            assert((table_joints(required_joints_spec()) + table_joints(optional_joints_spec()).take(i))[32] == JointId::LeftMiddleIntermediate);
        } else if i == 17 {
            assert((table_joints(required_joints_spec()) + table_joints(optional_joints_spec()).take(i))[7] == JointId::LeftHand);
        } else if i == 18 {
            assert((table_joints(required_joints_spec()) + table_joints(optional_joints_spec()).take(i))[34] == JointId::LeftRingProximal);
        } else if i == 19 {
            assert((table_joints(required_joints_spec()) + table_joints(optional_joints_spec()).take(i))[35] == JointId::LeftRingIntermediate);
        } else if i == 20 {
            assert((table_joints(required_joints_spec()) + table_joints(optional_joints_spec()).take(i))[7] == JointId::LeftHand);
        } else if i == 21 {
            assert((table_joints(required_joints_spec()) + table_joints(optional_joints_spec()).take(i))[37] == JointId::LeftLittleProximal);
        } else if i == 22 {
            assert((table_joints(required_joints_spec()) + table_joints(optional_joints_spec()).take(i))[38] == JointId::LeftLittleIntermediate);
        } else if i == 23 {
            assert((table_joints(required_joints_spec()) + table_joints(optional_joints_spec()).take(i))[10] == JointId::RightHand);
        } else if i == 24 {
            assert((table_joints(required_joints_spec()) + table_joints(optional_joints_spec()).take(i))[40] == JointId::RightThumbMetacarpal);
        } else if i == 25 {
            assert((table_joints(required_joints_spec()) + table_joints(optional_joints_spec()).take(i))[41] == JointId::RightThumbProximal);
        } else if i == 26 {
            assert((table_joints(required_joints_spec()) + table_joints(optional_joints_spec()).take(i))[10] == JointId::RightHand);
        } else if i == 27 {
            assert((table_joints(required_joints_spec()) + table_joints(optional_joints_spec()).take(i))[43] == JointId::RightIndexProximal);
        } else if i == 28 {
            assert((table_joints(required_joints_spec()) + table_joints(optional_joints_spec()).take(i))[44] == JointId::RightIndexIntermediate);
        } else if i == 29 {
            assert((table_joints(required_joints_spec()) + table_joints(optional_joints_spec()).take(i))[10] == JointId::RightHand);
        } else if i == 30 {
            assert((table_joints(required_joints_spec()) + table_joints(optional_joints_spec()).take(i))[46] == JointId::RightMiddleProximal);
        } else if i == 31 {
            assert((table_joints(required_joints_spec()) + table_joints(optional_joints_spec()).take(i))[47] == JointId::RightMiddleIntermediate);
        } else if i == 32 {
            assert((table_joints(required_joints_spec()) + table_joints(optional_joints_spec()).take(i))[10] == JointId::RightHand);
        } else if i == 33 {
            assert((table_joints(required_joints_spec()) + table_joints(optional_joints_spec()).take(i))[49] == JointId::RightRingProximal);
        } else if i == 34 {
            assert((table_joints(required_joints_spec()) + table_joints(optional_joints_spec()).take(i))[50] == JointId::RightRingIntermediate);
        } else if i == 35 {
            assert((table_joints(required_joints_spec()) + table_joints(optional_joints_spec()).take(i))[10] == JointId::RightHand);
        } else if i == 36 {
            assert((table_joints(required_joints_spec()) + table_joints(optional_joints_spec()).take(i))[52] == JointId::RightLittleProximal);
        } else if i == 37 {
            assert((table_joints(required_joints_spec()) + table_joints(optional_joints_spec()).take(i))[53] == JointId::RightLittleIntermediate);
        }
    }
}

/// Every canonical joint is listed in exactly one of the two tables.
pub proof fn tables_cover_every_joint(joint: JointId)
    ensures
        table_joints(required_joints_spec()).contains(joint) != table_joints(
            optional_joints_spec(),
        ).contains(joint),
{
    lemma_required_joints();
    lemma_optional_joints();
    optional_table_is_well_formed();
    match joint {
        JointId::Hips => assert(table_joints(required_joints_spec())[0] == joint),
        JointId::Spine => assert(table_joints(required_joints_spec())[1] == joint),
        JointId::Chest => assert(table_joints(required_joints_spec())[2] == joint),
        JointId::UpperChest => assert(table_joints(optional_joints_spec())[0] == joint),
        JointId::Neck => assert(table_joints(required_joints_spec())[3] == joint),
        JointId::Head => assert(table_joints(required_joints_spec())[4] == joint),
        JointId::LeftShoulder => assert(table_joints(optional_joints_spec())[1] == joint),
        JointId::LeftUpperArm => assert(table_joints(required_joints_spec())[5] == joint),
        JointId::LeftLowerArm => assert(table_joints(required_joints_spec())[6] == joint),
        JointId::LeftHand => assert(table_joints(required_joints_spec())[7] == joint),
        JointId::LeftThumbMetacarpal => assert(table_joints(optional_joints_spec())[8] == joint),
        JointId::LeftThumbProximal => assert(table_joints(optional_joints_spec())[9] == joint),
        JointId::LeftThumbDistal => assert(table_joints(optional_joints_spec())[10] == joint),
        JointId::LeftIndexProximal => assert(table_joints(optional_joints_spec())[11] == joint),
        JointId::LeftIndexIntermediate => assert(table_joints(optional_joints_spec())[12] == joint),
        JointId::LeftIndexDistal => assert(table_joints(optional_joints_spec())[13] == joint),
        JointId::LeftMiddleProximal => assert(table_joints(optional_joints_spec())[14] == joint),
        JointId::LeftMiddleIntermediate => assert(table_joints(optional_joints_spec())[15] == joint),
        JointId::LeftMiddleDistal => assert(table_joints(optional_joints_spec())[16] == joint),
        JointId::LeftRingProximal => assert(table_joints(optional_joints_spec())[17] == joint),
        JointId::LeftRingIntermediate => assert(table_joints(optional_joints_spec())[18] == joint),
        JointId::LeftRingDistal => assert(table_joints(optional_joints_spec())[19] == joint),
        JointId::LeftLittleProximal => assert(table_joints(optional_joints_spec())[20] == joint),
        JointId::LeftLittleIntermediate => assert(table_joints(optional_joints_spec())[21] == joint),
        JointId::LeftLittleDistal => assert(table_joints(optional_joints_spec())[22] == joint),
        JointId::RightShoulder => assert(table_joints(optional_joints_spec())[2] == joint),
        JointId::RightUpperArm => assert(table_joints(required_joints_spec())[8] == joint),
        JointId::RightLowerArm => assert(table_joints(required_joints_spec())[9] == joint),
        JointId::RightHand => assert(table_joints(required_joints_spec())[10] == joint),
        JointId::RightThumbMetacarpal => assert(table_joints(optional_joints_spec())[23] == joint),
        JointId::RightThumbProximal => assert(table_joints(optional_joints_spec())[24] == joint),
        JointId::RightThumbDistal => assert(table_joints(optional_joints_spec())[25] == joint),
        JointId::RightIndexProximal => assert(table_joints(optional_joints_spec())[26] == joint),
        JointId::RightIndexIntermediate => assert(table_joints(optional_joints_spec())[27] == joint),
        JointId::RightIndexDistal => assert(table_joints(optional_joints_spec())[28] == joint),
        JointId::RightMiddleProximal => assert(table_joints(optional_joints_spec())[29] == joint),
        JointId::RightMiddleIntermediate => assert(table_joints(optional_joints_spec())[30] == joint),
        JointId::RightMiddleDistal => assert(table_joints(optional_joints_spec())[31] == joint),
        JointId::RightRingProximal => assert(table_joints(optional_joints_spec())[32] == joint),
        JointId::RightRingIntermediate => assert(table_joints(optional_joints_spec())[33] == joint),
        JointId::RightRingDistal => assert(table_joints(optional_joints_spec())[34] == joint),
        JointId::RightLittleProximal => assert(table_joints(optional_joints_spec())[35] == joint),
        JointId::RightLittleIntermediate => assert(table_joints(optional_joints_spec())[36] == joint),
        JointId::RightLittleDistal => assert(table_joints(optional_joints_spec())[37] == joint),
        JointId::LeftUpperLeg => assert(table_joints(required_joints_spec())[11] == joint),
        JointId::LeftLowerLeg => assert(table_joints(required_joints_spec())[12] == joint),
        JointId::LeftFoot => assert(table_joints(required_joints_spec())[13] == joint),
        JointId::LeftToes => assert(table_joints(optional_joints_spec())[3] == joint),
        JointId::RightUpperLeg => assert(table_joints(required_joints_spec())[14] == joint),
        JointId::RightLowerLeg => assert(table_joints(required_joints_spec())[15] == joint),
        JointId::RightFoot => assert(table_joints(required_joints_spec())[16] == joint),
        JointId::RightToes => assert(table_joints(optional_joints_spec())[4] == joint),
        JointId::LeftEye => assert(table_joints(optional_joints_spec())[5] == joint),
        JointId::RightEye => assert(table_joints(optional_joints_spec())[6] == joint),
        JointId::Jaw => assert(table_joints(optional_joints_spec())[7] == joint),
    }
}

/// The position of a joint in the declaration order of [`JointId`].
pub open spec fn joint_ordinal(joint: JointId) -> int {
    match joint {
        JointId::Hips => 0,
        JointId::Spine => 1,
        JointId::Chest => 2,
        JointId::UpperChest => 3,
        JointId::Neck => 4,
        JointId::Head => 5,
        JointId::LeftShoulder => 6,
        JointId::LeftUpperArm => 7,
        JointId::LeftLowerArm => 8,
        JointId::LeftHand => 9,
        JointId::LeftThumbMetacarpal => 10,
        JointId::LeftThumbProximal => 11,
        JointId::LeftThumbDistal => 12,
        JointId::LeftIndexProximal => 13,
        JointId::LeftIndexIntermediate => 14,
        JointId::LeftIndexDistal => 15,
        JointId::LeftMiddleProximal => 16,
        JointId::LeftMiddleIntermediate => 17,
        JointId::LeftMiddleDistal => 18,
        JointId::LeftRingProximal => 19,
        JointId::LeftRingIntermediate => 20,
        JointId::LeftRingDistal => 21,
        JointId::LeftLittleProximal => 22,
        JointId::LeftLittleIntermediate => 23,
        JointId::LeftLittleDistal => 24,
        JointId::RightShoulder => 25,
        JointId::RightUpperArm => 26,
        JointId::RightLowerArm => 27,
        JointId::RightHand => 28,
        JointId::RightThumbMetacarpal => 29,
        JointId::RightThumbProximal => 30,
        JointId::RightThumbDistal => 31,
        JointId::RightIndexProximal => 32,
        JointId::RightIndexIntermediate => 33,
        JointId::RightIndexDistal => 34,
        JointId::RightMiddleProximal => 35,
        JointId::RightMiddleIntermediate => 36,
        JointId::RightMiddleDistal => 37,
        JointId::RightRingProximal => 38,
        JointId::RightRingIntermediate => 39,
        JointId::RightRingDistal => 40,
        JointId::RightLittleProximal => 41,
        JointId::RightLittleIntermediate => 42,
        JointId::RightLittleDistal => 43,
        JointId::LeftUpperLeg => 44,
        JointId::LeftLowerLeg => 45,
        JointId::LeftFoot => 46,
        JointId::LeftToes => 47,
        JointId::RightUpperLeg => 48,
        JointId::RightLowerLeg => 49,
        JointId::RightFoot => 50,
        JointId::RightToes => 51,
        JointId::LeftEye => 52,
        JointId::RightEye => 53,
        JointId::Jaw => 54,
    }
}

/// Recovers the declaration position of the joint whose canonical name is
/// `name`, from its length and the few characters that tell names of that
/// length apart; -1 for any other text.
spec fn ordinal_of_name(name: Seq<char>) -> int {
    if name.len() == 4 && name[2] == 'p' {
        0
    } else if name.len() == 5 && name[0] == 's' {
        1
    } else if name.len() == 5 && name[0] == 'c' {
        2
    } else if name.len() == 10 {
        3
    } else if name.len() == 4 && name[2] == 'c' {
        4
    } else if name.len() == 4 && name[2] == 'a' {
        5
    } else if name.len() == 12 && name[4] == 'S' && name[9] == 'd' {
        6
    } else if name.len() == 12 && name[4] == 'U' && name[9] == 'A' {
        7
    } else if name.len() == 12 && name[4] == 'L' && name[9] == 'A' {
        8
    } else if name.len() == 8 && name[4] == 'H' {
        9
    } else if name.len() == 19 && name[5] == 'h' {
        10
    } else if name.len() == 17 && name[5] == 'h' {
        11
    } else if name.len() == 15 && name[4] == 'T' {
        12
    } else if name.len() == 17 && name[5] == 'n' {
        13
    } else if name.len() == 21 && name[0] == 'l' {
        14
    } else if name.len() == 15 && name[4] == 'I' {
        15
    } else if name.len() == 18 && name[6] == 'd' {
        16
    } else if name.len() == 22 && name[4] == 'M' {
        17
    } else if name.len() == 16 && name[4] == 'M' && name[5] == 'i' {
        18
    } else if name.len() == 16 && name[4] == 'R' && name[5] == 'i' {
        19
    } else if name.len() == 20 && name[0] == 'l' {
        20
    } else if name.len() == 14 {
        21
    } else if name.len() == 18 && name[6] == 't' {
        22
    } else if name.len() == 22 && name[4] == 'L' {
        23
    } else if name.len() == 16 && name[4] == 'L' && name[5] == 'i' {
        24
    } else if name.len() == 13 && name[5] == 'S' && name[10] == 'd' {
        25
    } else if name.len() == 13 && name[5] == 'U' && name[10] == 'A' {
        26
    } else if name.len() == 13 && name[5] == 'L' && name[10] == 'A' {
        27
    } else if name.len() == 9 && name[5] == 'H' {
        28
    } else if name.len() == 20 && name[0] == 'r' {
        29
    } else if name.len() == 18 && name[6] == 'h' {
        30
    } else if name.len() == 16 && name[4] == 't' && name[5] == 'T' {
        31
    } else if name.len() == 18 && name[6] == 'n' {
        32
    } else if name.len() == 22 && name[4] == 't' {
        33
    } else if name.len() == 16 && name[4] == 't' && name[5] == 'I' {
        34
    } else if name.len() == 19 && name[5] == 'M' {
        35
    } else if name.len() == 23 && name[5] == 'M' {
        36
    } else if name.len() == 17 && name[5] == 'M' {
        37
    } else if name.len() == 17 && name[5] == 'R' {
        38
    } else if name.len() == 21 && name[0] == 'r' {
        39
    } else if name.len() == 15 && name[4] == 't' {
        40
    } else if name.len() == 19 && name[5] == 'L' {
        41
    } else if name.len() == 23 && name[5] == 'L' {
        42
    } else if name.len() == 17 && name[5] == 'L' {
        43
    } else if name.len() == 12 && name[4] == 'U' && name[9] == 'L' {
        44
    } else if name.len() == 12 && name[4] == 'L' && name[9] == 'L' {
        45
    } else if name.len() == 8 && name[4] == 'F' {
        46
    } else if name.len() == 8 && name[4] == 'T' {
        47
    } else if name.len() == 13 && name[5] == 'U' && name[10] == 'L' {
        48
    } else if name.len() == 13 && name[5] == 'L' && name[10] == 'L' {
        49
    } else if name.len() == 9 && name[5] == 'F' {
        50
    } else if name.len() == 9 && name[5] == 'T' {
        51
    } else if name.len() == 7 {
        52
    } else if name.len() == 8 && name[4] == 't' {
        53
    } else if name.len() == 3 {
        54
    } else {
        -1
    }
}

proof fn lemma_name_determines_ordinal(joint: JointId)
    ensures
        ordinal_of_name(joint_name(joint)@) == joint_ordinal(joint),
{
    match joint {
        JointId::Hips => reveal_strlit("hips"),
        JointId::Spine => reveal_strlit("spine"),
        JointId::Chest => reveal_strlit("chest"),
        JointId::UpperChest => reveal_strlit("upperChest"),
        JointId::Neck => reveal_strlit("neck"),
        JointId::Head => reveal_strlit("head"),
        JointId::LeftShoulder => reveal_strlit("leftShoulder"),
        JointId::LeftUpperArm => reveal_strlit("leftUpperArm"),
        JointId::LeftLowerArm => reveal_strlit("leftLowerArm"),
        JointId::LeftHand => reveal_strlit("leftHand"),
        JointId::LeftThumbMetacarpal => reveal_strlit("leftThumbMetacarpal"),
        JointId::LeftThumbProximal => reveal_strlit("leftThumbProximal"),
        JointId::LeftThumbDistal => reveal_strlit("leftThumbDistal"),
        JointId::LeftIndexProximal => reveal_strlit("leftIndexProximal"),
        JointId::LeftIndexIntermediate => reveal_strlit("leftIndexIntermediate"),
        JointId::LeftIndexDistal => reveal_strlit("leftIndexDistal"),
        JointId::LeftMiddleProximal => reveal_strlit("leftMiddleProximal"),
        JointId::LeftMiddleIntermediate => reveal_strlit("leftMiddleIntermediate"),
        JointId::LeftMiddleDistal => reveal_strlit("leftMiddleDistal"),
        JointId::LeftRingProximal => reveal_strlit("leftRingProximal"),
        JointId::LeftRingIntermediate => reveal_strlit("leftRingIntermediate"),
        JointId::LeftRingDistal => reveal_strlit("leftRingDistal"),
        JointId::LeftLittleProximal => reveal_strlit("leftLittleProximal"),
        JointId::LeftLittleIntermediate => reveal_strlit("leftLittleIntermediate"),
        JointId::LeftLittleDistal => reveal_strlit("leftLittleDistal"),
        JointId::RightShoulder => reveal_strlit("rightShoulder"),
        JointId::RightUpperArm => reveal_strlit("rightUpperArm"),
        JointId::RightLowerArm => reveal_strlit("rightLowerArm"),
        JointId::RightHand => reveal_strlit("rightHand"),
        JointId::RightThumbMetacarpal => reveal_strlit("rightThumbMetacarpal"),
        JointId::RightThumbProximal => reveal_strlit("rightThumbProximal"),
        JointId::RightThumbDistal => reveal_strlit("rightThumbDistal"),
        JointId::RightIndexProximal => reveal_strlit("rightIndexProximal"),
        JointId::RightIndexIntermediate => reveal_strlit("rightIndexIntermediate"),
        JointId::RightIndexDistal => reveal_strlit("rightIndexDistal"),
        JointId::RightMiddleProximal => reveal_strlit("rightMiddleProximal"),
        JointId::RightMiddleIntermediate => reveal_strlit("rightMiddleIntermediate"),
        JointId::RightMiddleDistal => reveal_strlit("rightMiddleDistal"),
        JointId::RightRingProximal => reveal_strlit("rightRingProximal"),
        JointId::RightRingIntermediate => reveal_strlit("rightRingIntermediate"),
        JointId::RightRingDistal => reveal_strlit("rightRingDistal"),
        JointId::RightLittleProximal => reveal_strlit("rightLittleProximal"),
        JointId::RightLittleIntermediate => reveal_strlit("rightLittleIntermediate"),
        JointId::RightLittleDistal => reveal_strlit("rightLittleDistal"),
        JointId::LeftUpperLeg => reveal_strlit("leftUpperLeg"),
        JointId::LeftLowerLeg => reveal_strlit("leftLowerLeg"),
        JointId::LeftFoot => reveal_strlit("leftFoot"),
        JointId::LeftToes => reveal_strlit("leftToes"),
        JointId::RightUpperLeg => reveal_strlit("rightUpperLeg"),
        JointId::RightLowerLeg => reveal_strlit("rightLowerLeg"),
        JointId::RightFoot => reveal_strlit("rightFoot"),
        JointId::RightToes => reveal_strlit("rightToes"),
        JointId::LeftEye => reveal_strlit("leftEye"),
        JointId::RightEye => reveal_strlit("rightEye"),
        JointId::Jaw => reveal_strlit("jaw"),
    }
}

/// Distinct joints have distinct canonical names, so a name identifies its
/// joint.
pub proof fn canonical_names_are_distinct(a: JointId, b: JointId)
    requires
        a != b,
    ensures
        joint_name(a)@ != joint_name(b)@,
{
    lemma_name_determines_ordinal(a);
    lemma_name_determines_ordinal(b);
    match a {
        JointId::Hips => {},
        JointId::Spine => {},
        JointId::Chest => {},
        JointId::UpperChest => {},
        JointId::Neck => {},
        JointId::Head => {},
        JointId::LeftShoulder => {},
        JointId::LeftUpperArm => {},
        JointId::LeftLowerArm => {},
        JointId::LeftHand => {},
        JointId::LeftThumbMetacarpal => {},
        JointId::LeftThumbProximal => {},
        JointId::LeftThumbDistal => {},
        JointId::LeftIndexProximal => {},
        JointId::LeftIndexIntermediate => {},
        JointId::LeftIndexDistal => {},
        JointId::LeftMiddleProximal => {},
        JointId::LeftMiddleIntermediate => {},
        JointId::LeftMiddleDistal => {},
        JointId::LeftRingProximal => {},
        JointId::LeftRingIntermediate => {},
        JointId::LeftRingDistal => {},
        JointId::LeftLittleProximal => {},
        JointId::LeftLittleIntermediate => {},
        JointId::LeftLittleDistal => {},
        JointId::RightShoulder => {},
        JointId::RightUpperArm => {},
        JointId::RightLowerArm => {},
        JointId::RightHand => {},
        JointId::RightThumbMetacarpal => {},
        JointId::RightThumbProximal => {},
        JointId::RightThumbDistal => {},
        JointId::RightIndexProximal => {},
        JointId::RightIndexIntermediate => {},
        JointId::RightIndexDistal => {},
        JointId::RightMiddleProximal => {},
        JointId::RightMiddleIntermediate => {},
        JointId::RightMiddleDistal => {},
        JointId::RightRingProximal => {},
        JointId::RightRingIntermediate => {},
        JointId::RightRingDistal => {},
        JointId::RightLittleProximal => {},
        JointId::RightLittleIntermediate => {},
        JointId::RightLittleDistal => {},
        JointId::LeftUpperLeg => {},
        JointId::LeftLowerLeg => {},
        JointId::LeftFoot => {},
        JointId::LeftToes => {},
        JointId::RightUpperLeg => {},
        JointId::RightLowerLeg => {},
        JointId::RightFoot => {},
        JointId::RightToes => {},
        JointId::LeftEye => {},
        JointId::RightEye => {},
        JointId::Jaw => {},
    }
}

} // verus!
