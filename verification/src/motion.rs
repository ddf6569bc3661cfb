//! Canonical motion published by the estimator: its labels and the joint
//! topology checks that every motion frame passes.

use vstd::prelude::*;

use crate::error::{ContractError, Validate};
use crate::joint_set::{
    collect_joint_set, joint_set_result, set_result_view, JointSet,
};
use crate::joints::{joint_name, required_joints, required_joints_spec, JointId};
use crate::observation::{EstimateOrigin, VisibilityEvidence};
use crate::schema::SchemaVersion;
use crate::time::MonotonicTime;

verus! {

/// Retains image evidence for one canonical joint.
#[derive(Debug, Clone, Copy, PartialEq, Eq, Structural)]
pub struct JointVisibility {
    pub joint_id: JointId,
    pub evidence: VisibilityEvidence,
}

/// Retains the production path for one canonical joint.
#[derive(Debug, Clone, Copy, PartialEq, Eq, Structural)]
pub struct JointEstimateOrigin {
    pub joint_id: JointId,
    pub origin: EstimateOrigin,
}

/// Identifies a canonical body region that can propose contact.
#[derive(Debug, Clone, Copy, PartialEq, Eq, Structural)]
pub enum ContactRegion {
    LeftFoot,
    RightFoot,
    LeftHand,
    RightHand,
}

/// Reports the source of the performer scale in this frame.
#[derive(Debug, Clone, Copy, PartialEq, Eq, Structural)]
pub enum PerformerScaleStatus {
    /// The scale uses a population prior.
    PopulationPrior,
    /// Performer fit can still update the scale.
    Provisional,
    /// Performer fit has fixed the scale.
    Locked,
}

/// Whether the required joint at table index `k` is absent from `found`.
pub open spec fn missing_at(found: Set<JointId>, k: int) -> bool {
    0 <= k < required_joints_spec().len() && !found.contains(required_joints_spec()[k].joint)
}

/// The table index of the first required joint absent from `found`.
/// Meaningful only when some required joint is absent.
pub open spec fn first_missing(found: Set<JointId>) -> int {
    choose|k: int| missing_at(found, k) && forall|m: int| 0 <= m < k ==> !missing_at(found, m)
}

/// Whether `found` holds every required joint.
pub open spec fn holds_required_joints(found: Set<JointId>) -> bool {
    forall|k: int|
        0 <= k < required_joints_spec().len() ==> found.contains(
            #[trigger] required_joints_spec()[k].joint,
        )
}

/// What checking the channel that sets the published topology gives: its
/// joint set when it repeats no joint and holds every required joint.
pub open spec fn required_joint_set_result(field: &'static str, joints: Seq<JointId>) -> Result<
    Set<JointId>,
    ContractError,
> {
    match joint_set_result(field, joints) {
        Err(e) => Err(e),
        Ok(found) => if holds_required_joints(found) {
            Ok(found)
        } else {
            Err(
                ContractError::MissingJoint {
                    field,
                    joint: joint_name(required_joints_spec()[first_missing(found)].joint),
                },
            )
        },
    }
}

/// What checking a channel against the published topology gives.
pub open spec fn matching_joint_set_result(
    field: &'static str,
    joints: Seq<JointId>,
    expected: Set<JointId>,
) -> Result<(), ContractError> {
    match joint_set_result(field, joints) {
        Err(e) => Err(e),
        Ok(found) => if found == expected {
            Ok(())
        } else {
            Err(ContractError::JointSetMismatch { field })
        },
    }
}

/// Collects the channel that sets the published topology: its joints must
/// not repeat, and every required joint must be present. The first missing
/// required joint, in table order, is reported.
pub fn validate_required_joints(field: &'static str, joints: &[JointId]) -> (r: Result<
    JointSet,
    ContractError,
>)
    ensures
        set_result_view(r) == required_joint_set_result(field, joints@),
{
    let found = match collect_joint_set(field, joints) {
        Ok(found) => found,
        Err(e) => return Err(e),
    };
    let table = required_joints();
    let mut k: usize = 0;
    while k < table.len()
        invariant
            table@ == required_joints_spec(),
            k <= table@.len(),
            joint_set_result(field, joints@) == Ok::<Set<JointId>, ContractError>(found@),
            forall|m: int| 0 <= m < k ==> !missing_at(found@, m),
        decreases table.len() - k,
    {
        let joint = table[k].joint;
        if !found.contains(joint) {
            proof {
                assert(missing_at(found@, k as int));
                assert(!holds_required_joints(found@));
                // No earlier required joint is missing, so `k` is the first.
                if first_missing(found@) > k {
                    assert(!missing_at(found@, k as int));
                }
            }
            return Err(ContractError::MissingJoint { field, joint: joint.canonical_name() });
        }
        k = k + 1;
    }
    proof {
        assert forall|m: int| 0 <= m < required_joints_spec().len() implies found@.contains(
            #[trigger] required_joints_spec()[m].joint,
        ) by {
            assert(!missing_at(found@, m));
        }
    }
    Ok(found)
}

/// Checks that a channel repeats no joint and holds exactly the joints of
/// the published topology `expected`.
pub fn validate_matching_joints(field: &'static str, joints: &[JointId], expected: &JointSet) -> (r:
    Result<(), ContractError>)
    ensures
        r == matching_joint_set_result(field, joints@, expected@),
{
    let found = match collect_joint_set(field, joints) {
        Ok(found) => found,
        Err(e) => return Err(e),
    };
    if !found.same_members(expected) {
        return Err(ContractError::JointSetMismatch { field });
    }
    Ok(())
}

/// Carries body-model-independent source motion from the estimator, as the
/// contract checks see it: the schema version, the three runtime-clock
/// times, the joint of every entry of each per-joint channel, and the
/// frame-level labels. The numeric payloads of the entries (rotations,
/// positions, offsets, velocities, uncertainties) and the contact proposals
/// are floating-point data that the application carries beside this record.
#[derive(Debug, Clone)]
pub struct CanonicalMotionFrame {
    pub schema_version: SchemaVersion,
    /// Records the accepted observation time on the runtime monotonic clock.
    pub source_time: MonotonicTime,
    /// Records the authoritative estimator state time.
    pub state_time: MonotonicTime,
    /// Records the scheduled publication time on the runtime monotonic clock.
    pub output_time: MonotonicTime,
    /// The joint of each local joint rotation, in channel order.
    pub local_joint_rotations: Vec<JointId>,
    /// The joint of each global joint position, in channel order.
    pub global_joint_positions_w: Vec<JointId>,
    /// The joint of each rest offset, in channel order.
    pub rest_offsets_s: Vec<JointId>,
    /// The joint of each linear and angular velocity, in channel order.
    pub linear_and_angular_velocities: Vec<JointId>,
    /// The joint of each uncertainty entry, in channel order.
    pub joint_uncertainty: Vec<JointId>,
    pub visibility_evidence: Vec<JointVisibility>,
    pub estimate_origin: Vec<JointEstimateOrigin>,
    pub performer_scale_status: PerformerScaleStatus,
}

/// The joints of a visibility channel, in channel order.
pub open spec fn visibility_joints(entries: Seq<JointVisibility>) -> Seq<JointId> {
    entries.map_values(|entry: JointVisibility| entry.joint_id)
}

/// The joints of an estimate-origin channel, in channel order.
pub open spec fn origin_joints(entries: Seq<JointEstimateOrigin>) -> Seq<JointId> {
    entries.map_values(|entry: JointEstimateOrigin| entry.joint_id)
}

fn joints_of_visibility(entries: &Vec<JointVisibility>) -> (joints: Vec<JointId>)
    ensures
        joints@ == visibility_joints(entries@),
{
    let mut joints: Vec<JointId> = Vec::new();
    let mut i: usize = 0;
    while i < entries.len()
        invariant
            i <= entries.len(),
            joints@ == visibility_joints(entries@.take(i as int)),
        decreases entries.len() - i,
    {
        joints.push(entries[i].joint_id);
        proof {
            assert(entries@.take(i + 1) =~= entries@.take(i as int).push(entries@[i as int]));
        }
        i = i + 1;
    }
    proof {
        assert(entries@.take(entries@.len() as int) =~= entries@);
    }
    joints
}

fn joints_of_origins(entries: &Vec<JointEstimateOrigin>) -> (joints: Vec<JointId>)
    ensures
        joints@ == origin_joints(entries@),
{
    let mut joints: Vec<JointId> = Vec::new();
    let mut i: usize = 0;
    while i < entries.len()
        invariant
            i <= entries.len(),
            joints@ == origin_joints(entries@.take(i as int)),
        decreases entries.len() - i,
    {
        joints.push(entries[i].joint_id);
        proof {
            assert(entries@.take(i + 1) =~= entries@.take(i as int).push(entries@[i as int]));
        }
        i = i + 1;
    }
    proof {
        assert(entries@.take(entries@.len() as int) =~= entries@);
    }
    joints
}

/// The first failure of two checks run in order.
pub open spec fn then_check(first: Result<(), ContractError>, second: Result<(), ContractError>) -> Result<
    (),
    ContractError,
> {
    if first is Err {
        first
    } else {
        second
    }
}

/// What validating a canonical motion frame gives. Checks run in this order
/// and the first failure is reported: source time not after state time;
/// state time not after output time; the local rotations repeat no joint and
/// hold every required joint; then each other channel, in field order,
/// repeats no joint and holds exactly the joints of the local rotations.
pub open spec fn motion_frame_result(frame: CanonicalMotionFrame) -> Result<(), ContractError> {
    if frame.state_time@ < frame.source_time@ {
        Err(ContractError::InvalidTimeOrder { earlier: "source_time", later: "state_time" })
    } else if frame.output_time@ < frame.state_time@ {
        Err(ContractError::InvalidTimeOrder { earlier: "state_time", later: "output_time" })
    } else {
        match required_joint_set_result("local_joint_rotations", frame.local_joint_rotations@) {
            Err(e) => Err(e),
            Ok(expected) => then_check(
                matching_joint_set_result(
                    "global_joint_positions_w",
                    frame.global_joint_positions_w@,
                    expected,
                ),
                then_check(
                    matching_joint_set_result("rest_offsets_s", frame.rest_offsets_s@, expected),
                    then_check(
                        matching_joint_set_result(
                            "linear_and_angular_velocities",
                            frame.linear_and_angular_velocities@,
                            expected,
                        ),
                        then_check(
                            matching_joint_set_result(
                                "joint_uncertainty",
                                frame.joint_uncertainty@,
                                expected,
                            ),
                            then_check(
                                matching_joint_set_result(
                                    "visibility_evidence",
                                    visibility_joints(frame.visibility_evidence@),
                                    expected,
                                ),
                                matching_joint_set_result(
                                    "estimate_origin",
                                    origin_joints(frame.estimate_origin@),
                                    expected,
                                ),
                            ),
                        ),
                    ),
                ),
            ),
        }
    }
}

impl Validate for CanonicalMotionFrame {
    fn validate(&self) -> (r: Result<(), ContractError>)
        ensures
            r == motion_frame_result(*self),
    {
        // 1. Check causal time order.
        if self.state_time.as_nanos() < self.source_time.as_nanos() {
            return Err(
                ContractError::InvalidTimeOrder { earlier: "source_time", later: "state_time" },
            );
        }
        if self.output_time.as_nanos() < self.state_time.as_nanos() {
            return Err(
                ContractError::InvalidTimeOrder { earlier: "state_time", later: "output_time" },
            );
        }
        // 2. Set the published joint topology.
        let expected = match validate_required_joints(
            "local_joint_rotations",
            self.local_joint_rotations.as_slice(),
        ) {
            Ok(expected) => expected,
            Err(e) => return Err(e),
        };
        // 3. Match each channel to that topology.
        if let Err(e) = validate_matching_joints(
            "global_joint_positions_w",
            self.global_joint_positions_w.as_slice(),
            &expected,
        ) {
            return Err(e);
        }
        if let Err(e) = validate_matching_joints(
            "rest_offsets_s",
            self.rest_offsets_s.as_slice(),
            &expected,
        ) {
            return Err(e);
        }
        if let Err(e) = validate_matching_joints(
            "linear_and_angular_velocities",
            self.linear_and_angular_velocities.as_slice(),
            &expected,
        ) {
            return Err(e);
        }
        if let Err(e) = validate_matching_joints(
            "joint_uncertainty",
            self.joint_uncertainty.as_slice(),
            &expected,
        ) {
            return Err(e);
        }
        let visibility = joints_of_visibility(&self.visibility_evidence);
        if let Err(e) = validate_matching_joints(
            "visibility_evidence",
            visibility.as_slice(),
            &expected,
        ) {
            return Err(e);
        }
        let origins = joints_of_origins(&self.estimate_origin);
        validate_matching_joints("estimate_origin", origins.as_slice(), &expected)
    }
}

/// Whether `channel` lists each joint of `topology` exactly once, in some
/// order.
pub open spec fn lists_topology(channel: Seq<JointId>, topology: Seq<JointId>) -> bool {
    &&& channel.no_duplicates()
    &&& channel.to_set() == topology.to_set()
    &&& channel.len() == topology.len()
}

proof fn lemma_matching_lists_topology(
    field: &'static str,
    channel: Seq<JointId>,
    topology: Seq<JointId>,
)
    requires
        topology.no_duplicates(),
        matching_joint_set_result(field, channel, topology.to_set()) is Ok,
    ensures
        lists_topology(channel, topology),
{
    channel.unique_seq_to_set();
    topology.unique_seq_to_set();
}

/// A canonical motion frame that passes validation is causally ordered, its
/// local rotations list every required joint once, and every other per-joint
/// channel lists exactly the same joints, each once.
pub proof fn valid_frame_channels_share_topology(frame: CanonicalMotionFrame)
    requires
        motion_frame_result(frame) is Ok,
    ensures
        frame.source_time@ <= frame.state_time@ <= frame.output_time@,
        frame.local_joint_rotations@.no_duplicates(),
        holds_required_joints(frame.local_joint_rotations@.to_set()),
        lists_topology(frame.global_joint_positions_w@, frame.local_joint_rotations@),
        lists_topology(frame.rest_offsets_s@, frame.local_joint_rotations@),
        lists_topology(frame.linear_and_angular_velocities@, frame.local_joint_rotations@),
        lists_topology(frame.joint_uncertainty@, frame.local_joint_rotations@),
        lists_topology(visibility_joints(frame.visibility_evidence@), frame.local_joint_rotations@),
        lists_topology(origin_joints(frame.estimate_origin@), frame.local_joint_rotations@),
{
    let local = frame.local_joint_rotations@;
    lemma_matching_lists_topology("global_joint_positions_w", frame.global_joint_positions_w@, local);
    lemma_matching_lists_topology("rest_offsets_s", frame.rest_offsets_s@, local);
    lemma_matching_lists_topology(
        "linear_and_angular_velocities",
        frame.linear_and_angular_velocities@,
        local,
    );
    lemma_matching_lists_topology("joint_uncertainty", frame.joint_uncertainty@, local);
    lemma_matching_lists_topology(
        "visibility_evidence",
        visibility_joints(frame.visibility_evidence@),
        local,
    );
    lemma_matching_lists_topology("estimate_origin", origin_joints(frame.estimate_origin@), local);
}

/// Whether `channel` repeats no joint and holds exactly the joints of
/// `topology`.
pub open spec fn same_joints_once(channel: Seq<JointId>, topology: Seq<JointId>) -> bool {
    channel.no_duplicates() && channel.to_set() == topology.to_set()
}

/// Motion frame validation accepts exactly the frames whose times are
/// ordered (source, state, output), whose local rotations repeat no joint and
/// hold every joint of the required table, and whose other six channels each
/// repeat no joint and hold exactly the joints of the local rotations. Any
/// optional joints may be present, as long as every channel lists them.
pub proof fn motion_frame_accepts_exactly_consistent_frames(frame: CanonicalMotionFrame)
    ensures
        (motion_frame_result(frame) is Ok) == {
            let local = frame.local_joint_rotations@;
            &&& frame.source_time@ <= frame.state_time@
            &&& frame.state_time@ <= frame.output_time@
            &&& local.no_duplicates()
            &&& forall|k: int|
                0 <= k < required_joints_spec().len() ==> local.contains(
                    #[trigger] required_joints_spec()[k].joint,
                )
            &&& same_joints_once(frame.global_joint_positions_w@, local)
            &&& same_joints_once(frame.rest_offsets_s@, local)
            &&& same_joints_once(frame.linear_and_angular_velocities@, local)
            &&& same_joints_once(frame.joint_uncertainty@, local)
            &&& same_joints_once(visibility_joints(frame.visibility_evidence@), local)
            &&& same_joints_once(origin_joints(frame.estimate_origin@), local)
        },
{
    let local = frame.local_joint_rotations@;
    assert(holds_required_joints(local.to_set()) == forall|k: int|
        0 <= k < required_joints_spec().len() ==> local.contains(
            #[trigger] required_joints_spec()[k].joint,
        ));
}

proof fn lemma_least_missing_below(found: Set<JointId>, k: int)
    requires
        missing_at(found, k),
    ensures
        exists|f: int| missing_at(found, f) && forall|m: int| 0 <= m < f ==> !missing_at(found, m),
    decreases k,
{
    if exists|m: int| 0 <= m < k && missing_at(found, m) {
        let m = choose|m: int| 0 <= m < k && missing_at(found, m);
        lemma_least_missing_below(found, m);
    }
}

/// The required-joint check of the topology channel succeeds exactly when
/// the channel repeats no joint and lists every joint of the required table,
/// and then its set holds exactly the listed joints. A repeated joint is
/// reported first; otherwise a failure names, against the given field, the
/// first required joint in table order that the channel does not list.
pub proof fn required_check_accepts_exactly_complete_topologies(
    field: &'static str,
    joints: Seq<JointId>,
)
    ensures
        (required_joint_set_result(field, joints) is Ok) == ((forall|i: int, j: int|
            0 <= i < j < joints.len() ==> joints[i] != joints[j]) && forall|k: int|
            0 <= k < required_joints_spec().len() ==> joints.contains(
                #[trigger] required_joints_spec()[k].joint,
            )),
        required_joint_set_result(field, joints) is Ok ==> required_joint_set_result(
            field,
            joints,
        )->Ok_0 == joints.to_set(),
        !joints.no_duplicates() ==> required_joint_set_result(field, joints) == Err::<
            Set<JointId>,
            ContractError,
        >(joint_set_result(field, joints)->Err_0),
        joints.no_duplicates() && required_joint_set_result(field, joints) is Err ==> ({
            let k = first_missing(joints.to_set());
            &&& 0 <= k < required_joints_spec().len()
            &&& !joints.contains(required_joints_spec()[k].joint)
            &&& forall|m: int|
                0 <= m < k ==> joints.contains(#[trigger] required_joints_spec()[m].joint)
            &&& required_joint_set_result(field, joints) == Err::<Set<JointId>, ContractError>(
                ContractError::MissingJoint {
                    field,
                    joint: joint_name(required_joints_spec()[k].joint),
                },
            )
        }),
{
    crate::joint_set::collecting_joints_keeps_exactly_the_listed_joints(field, joints);
    if joints.no_duplicates() {
        let found = joints.to_set();
        if !holds_required_joints(found) {
            let k0 = choose|k: int|
                0 <= k < required_joints_spec().len() && !found.contains(
                    #[trigger] required_joints_spec()[k].joint,
                );
            assert(missing_at(found, k0));
            lemma_least_missing_below(found, k0);
            let k = first_missing(found);
            assert forall|m: int| 0 <= m < k implies joints.contains(
                #[trigger] required_joints_spec()[m].joint,
            ) by {
                assert(!missing_at(found, m));
            }
        }
    }
}

/// Checking a channel against the published topology succeeds exactly when
/// the channel repeats no joint and lists exactly the joints of the
/// topology. A repeated joint is reported first; otherwise a differing set
/// reports the mismatch against the given field.
pub proof fn matching_check_accepts_exactly_the_same_joints(
    field: &'static str,
    joints: Seq<JointId>,
    expected: Set<JointId>,
)
    ensures
        (matching_joint_set_result(field, joints, expected) is Ok) == ((forall|i: int, j: int|
            0 <= i < j < joints.len() ==> joints[i] != joints[j]) && forall|joint: JointId|
            expected.contains(joint) == joints.contains(joint)),
        !joints.no_duplicates() ==> matching_joint_set_result(field, joints, expected) == Err::<
            (),
            ContractError,
        >(joint_set_result(field, joints)->Err_0),
        joints.no_duplicates() && matching_joint_set_result(field, joints, expected) is Err
            ==> matching_joint_set_result(field, joints, expected) == Err::<(), ContractError>(
            ContractError::JointSetMismatch { field },
        ),
{
    crate::joint_set::collecting_joints_keeps_exactly_the_listed_joints(field, joints);
    if joints.no_duplicates() {
        if forall|joint: JointId| expected.contains(joint) == joints.contains(joint) {
            assert(joints.to_set() =~= expected);
        }
    }
}

/// Which error a rejected motion frame reports: a state time before the
/// source time first, then an output time before the state time, then the
/// required-joint check of the local rotations, and otherwise what the
/// matching check reports for the first channel, in field order, that does
/// not list the local joints exactly once each.
pub proof fn motion_frame_reports_the_first_failing_check(frame: CanonicalMotionFrame)
    ensures
        frame.state_time@ < frame.source_time@ ==> motion_frame_result(frame) == Err::<
            (),
            ContractError,
        >(ContractError::InvalidTimeOrder { earlier: "source_time", later: "state_time" }),
        frame.source_time@ <= frame.state_time@ && frame.output_time@ < frame.state_time@
            ==> motion_frame_result(frame) == Err::<(), ContractError>(
            ContractError::InvalidTimeOrder { earlier: "state_time", later: "output_time" },
        ),
        frame.source_time@ <= frame.state_time@ <= frame.output_time@ && required_joint_set_result(
            "local_joint_rotations",
            frame.local_joint_rotations@,
        ) is Err ==> motion_frame_result(frame) == Err::<(), ContractError>(
            required_joint_set_result("local_joint_rotations", frame.local_joint_rotations@)->Err_0,
        ),
        frame.source_time@ <= frame.state_time@ <= frame.output_time@ && required_joint_set_result(
            "local_joint_rotations",
            frame.local_joint_rotations@,
        ) is Ok ==> ({
            let local = frame.local_joint_rotations@;
            let expected = local.to_set();
            let g = frame.global_joint_positions_w@;
            let r = frame.rest_offsets_s@;
            let v = frame.linear_and_angular_velocities@;
            let u = frame.joint_uncertainty@;
            let e = visibility_joints(frame.visibility_evidence@);
            let o = origin_joints(frame.estimate_origin@);
            &&& !same_joints_once(g, local) ==> motion_frame_result(frame)
                == matching_joint_set_result("global_joint_positions_w", g, expected)
            &&& same_joints_once(g, local) && !same_joints_once(r, local) ==> motion_frame_result(
                frame,
            ) == matching_joint_set_result("rest_offsets_s", r, expected)
            &&& same_joints_once(g, local) && same_joints_once(r, local) && !same_joints_once(
                v,
                local,
            ) ==> motion_frame_result(frame) == matching_joint_set_result(
                "linear_and_angular_velocities",
                v,
                expected,
            )
            &&& same_joints_once(g, local) && same_joints_once(r, local) && same_joints_once(
                v,
                local,
            ) && !same_joints_once(u, local) ==> motion_frame_result(frame)
                == matching_joint_set_result("joint_uncertainty", u, expected)
            &&& same_joints_once(g, local) && same_joints_once(r, local) && same_joints_once(
                v,
                local,
            ) && same_joints_once(u, local) && !same_joints_once(e, local) ==> motion_frame_result(
                frame,
            ) == matching_joint_set_result("visibility_evidence", e, expected)
            &&& same_joints_once(g, local) && same_joints_once(r, local) && same_joints_once(
                v,
                local,
            ) && same_joints_once(u, local) && same_joints_once(e, local) && !same_joints_once(
                o,
                local,
            ) ==> motion_frame_result(frame) == matching_joint_set_result(
                "estimate_origin",
                o,
                expected,
            )
        }),
{
}

} // verus!
