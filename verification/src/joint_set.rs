//! Duplicate-free sets of canonical joints, as the per-channel topology
//! checks collect them.

use vstd::prelude::*;

use crate::error::ContractError;
use crate::joints::{joint_name, JointId};

verus! {



/// Whether the joint at index `k` of `joints` already occurred before it.
pub open spec fn repeats_at(joints: Seq<JointId>, k: int) -> bool {
    0 <= k < joints.len() && joints.take(k).contains(joints[k])
}

/// The index of the first joint of `joints` that repeats an earlier one.
/// Meaningful only when `joints` has a duplicate.
pub open spec fn first_repeat(joints: Seq<JointId>) -> int {
    choose|k: int| repeats_at(joints, k) && forall|m: int| 0 <= m < k ==> !repeats_at(joints, m)
}

/// What collecting `joints` into a set gives: the set of its members, or the
/// first repeated joint reported against `field`.
pub open spec fn joint_set_result(field: &'static str, joints: Seq<JointId>) -> Result<
    Set<JointId>,
    ContractError,
> {
    if joints.no_duplicates() {
        Ok(joints.to_set())
    } else {
        Err(
            ContractError::DuplicateJoint {
                field,
                joint: joint_name(joints[first_repeat(joints)]),
            },
        )
    }
}

/// A finite set of canonical joints, kept in insertion order without
/// repetition.
#[derive(Debug)]
pub struct JointSet {
    members: Vec<JointId>,
}

impl View for JointSet {
    type V = Set<JointId>;

    closed spec fn view(&self) -> Set<JointId> {
        self.members@.to_set()
    }
}

/// Views a collection outcome by the set it holds.
pub open spec fn set_result_view(r: Result<JointSet, ContractError>) -> Result<
    Set<JointId>,
    ContractError,
> {
    match r {
        Ok(set) => Ok(set@),
        Err(e) => Err(e),
    }
}

fn seq_contains(members: &Vec<JointId>, joint: JointId) -> (found: bool)
    ensures
        found == members@.contains(joint),
{
    let mut i: usize = 0;
    while i < members.len()
        invariant
            i <= members.len(),
            forall|k: int| 0 <= k < i ==> members@[k] != joint,
        decreases members.len() - i,
    {
        if members[i] == joint {
            assert(members@[i as int] == joint);
            return true;
        }
        i = i + 1;
    }
    false
}

impl JointSet {
    #[verifier::type_invariant]
    spec fn distinct(self) -> bool {
        self.members@.no_duplicates()
    }

    /// Whether `joint` belongs to the set.
    pub fn contains(&self, joint: JointId) -> (found: bool)
        ensures
            found == self@.contains(joint),
    {
        seq_contains(&self.members, joint)
    }

    /// The number of joints in the set.
    pub fn len(&self) -> (n: usize)
        ensures
            n == self@.len(),
            self@.finite(),
    {
        proof {
            use_type_invariant(self);
            self.members@.unique_seq_to_set();
        }
        self.members.len()
    }

    /// Whether both sets hold the same joints.
    pub fn same_members(&self, other: &JointSet) -> (same: bool)
        ensures
            same == (self@ == other@),
    {
        proof {
            use_type_invariant(self);
            use_type_invariant(other);
            self.members@.unique_seq_to_set();
            other.members@.unique_seq_to_set();
        }
        if self.members.len() != other.members.len() {
            return false;
        }
        let mut i: usize = 0;
        while i < self.members.len()
            invariant
                i <= self.members.len(),
                self.members.len() == other.members.len(),
                forall|k: int| 0 <= k < i ==> other.members@.contains(#[trigger] self.members@[k]),
            decreases self.members.len() - i,
        {
            if !seq_contains(&other.members, self.members[i]) {
                assert(self@.contains(self.members@[i as int]));
                return false;
            }
            i = i + 1;
        }
        proof {
            assert(self@.subset_of(other@));
            vstd::set_lib::lemma_subset_equality(self@, other@);
        }
        true
    }
}

/// Collects `joints` into a set, reporting
/// [`ContractError::DuplicateJoint`] for the first joint that occurs twice.
pub fn collect_joint_set(field: &'static str, joints: &[JointId]) -> (r: Result<
    JointSet,
    ContractError,
>)
    ensures
        set_result_view(r) == joint_set_result(field, joints@),
{
    let mut members: Vec<JointId> = Vec::new();
    let mut i: usize = 0;
    while i < joints.len()
        invariant
            i <= joints.len(),
            members@ == joints@.take(i as int),
            members@.no_duplicates(),
            forall|m: int| 0 <= m < i ==> !repeats_at(joints@, m),
        decreases joints.len() - i,
    {
        let joint = joints[i];
        if seq_contains(&members, joint) {
            proof {
                assert(repeats_at(joints@, i as int));
                assert(!joints@.no_duplicates()) by {
                    let k = choose|k: int| 0 <= k < i && joints@.take(i as int)[k] == joint;
                    assert(joints@[k] == joints@[i as int]);
                }
                // No earlier index repeats, so `i` is the first repeat.
                if first_repeat(joints@) > i {
                    assert(!repeats_at(joints@, i as int));
                }
            }
            return Err(
                ContractError::DuplicateJoint { field, joint: joint.canonical_name() },
            );
        }
        members.push(joint);
        proof {
            assert(joints@.take(i + 1) =~= joints@.take(i as int).push(joint));
        }
        i = i + 1;
    }
    proof {
        assert(joints@.take(joints@.len() as int) =~= joints@);
    }
    Ok(JointSet { members })
}

proof fn lemma_duplicate_repeats(joints: Seq<JointId>)
    requires
        !joints.no_duplicates(),
    ensures
        exists|k: int| repeats_at(joints, k),
{
    let (a, b) = choose|a: int, b: int|
        0 <= a < joints.len() && 0 <= b < joints.len() && a != b && joints[a] == joints[b];
    let hi = if a < b { b } else { a };
    let lo = if a < b { a } else { b };
    assert(joints.take(hi)[lo] == joints[hi]);
    assert(repeats_at(joints, hi));
}

proof fn lemma_no_repeat_below_is_distinct(joints: Seq<JointId>, k: int)
    requires
        0 <= k <= joints.len(),
        forall|m: int| 0 <= m < k ==> !repeats_at(joints, m),
    ensures
        forall|a: int, b: int| 0 <= a < b < k ==> joints[a] != joints[b],
{
    assert forall|a: int, b: int| 0 <= a < b < k implies joints[a] != joints[b] by {
        if joints[a] == joints[b] {
            assert(joints.take(b)[a] == joints[b]);
            assert(!repeats_at(joints, b));
        }
    }
}

proof fn lemma_first_repeat_is_first(joints: Seq<JointId>)
    requires
        !joints.no_duplicates(),
    ensures
        repeats_at(joints, first_repeat(joints)),
        forall|a: int, b: int|
            0 <= a < b < first_repeat(joints) ==> joints[a] != joints[b],
{
    lemma_duplicate_repeats(joints);
    lemma_some_repeat_has_a_first(joints);
    lemma_no_repeat_below_is_distinct(joints, first_repeat(joints));
}

proof fn lemma_some_repeat_has_a_first(joints: Seq<JointId>)
    requires
        exists|k: int| repeats_at(joints, k),
    ensures
        repeats_at(joints, first_repeat(joints)),
        forall|m: int| 0 <= m < first_repeat(joints) ==> !repeats_at(joints, m),
    decreases joints.len(),
{
    let k0 = choose|k: int| repeats_at(joints, k);
    lemma_least_repeat_below(joints, k0);
}

proof fn lemma_least_repeat_below(joints: Seq<JointId>, k: int)
    requires
        repeats_at(joints, k),
    ensures
        exists|f: int| repeats_at(joints, f) && forall|m: int| 0 <= m < f ==> !repeats_at(joints, m),
    decreases k,
{
    if exists|m: int| 0 <= m < k && repeats_at(joints, m) {
        let m = choose|m: int| 0 <= m < k && repeats_at(joints, m);
        lemma_least_repeat_below(joints, m);
    } else {
        assert(forall|m: int| 0 <= m < k ==> !repeats_at(joints, m));
    }
}

proof fn lemma_ok_exactly_without_repeats(field: &'static str, joints: Seq<JointId>)
    ensures
        (joint_set_result(field, joints) is Ok) == (forall|i: int, j: int|
            0 <= i < j < joints.len() ==> joints[i] != joints[j]),
{
    if forall|i: int, j: int| 0 <= i < j < joints.len() ==> joints[i] != joints[j] {
        assert forall|i: int, j: int|
            0 <= i < joints.len() && 0 <= j < joints.len() && i != j implies joints[i]
            != joints[j] by {
            if i > j {
                assert(joints[j] != joints[i]);
            }
        }
    }
}

proof fn lemma_ok_holds_listed_joints(field: &'static str, joints: Seq<JointId>)
    requires
        joints.no_duplicates(),
    ensures
        forall|joint: JointId|
            joint_set_result(field, joints)->Ok_0.contains(joint) == (exists|i: int|
                0 <= i < joints.len() && joints[i] == joint),
{
    assert forall|joint: JointId|
        joint_set_result(field, joints)->Ok_0.contains(joint) == (exists|i: int|
            0 <= i < joints.len() && joints[i] == joint) by {
        if joints.contains(joint) {
            let i = choose|i: int| 0 <= i < joints.len() && joints[i] == joint;
            assert(joints[i] == joint);
        }
    }
}

proof fn lemma_err_reports_first_repeat(field: &'static str, joints: Seq<JointId>)
    requires
        !joints.no_duplicates(),
    ensures
        ({
            let k = first_repeat(joints);
            &&& 0 <= k < joints.len()
            &&& exists|i: int| 0 <= i < k && #[trigger] joints[i] == joints[k]
            &&& forall|a: int, b: int| 0 <= a < b < k ==> joints[a] != joints[b]
            &&& joint_set_result(field, joints) == Err::<Set<JointId>, ContractError>(
                ContractError::DuplicateJoint { field, joint: joint_name(joints[k]) },
            )
        }),
{
    lemma_first_repeat_is_first(joints);
    let k = first_repeat(joints);
    let i = choose|i: int| 0 <= i < k && joints.take(k)[i] == joints[k];
    assert(joints[i] == joints[k]);
}

/// Collecting joints into a set succeeds exactly when no joint occurs twice,
/// and then the set holds exactly the listed joints. A failure reports,
/// against the given field, the joint at the first position that repeats an
/// earlier one: before that position no joint repeats.
pub proof fn collecting_joints_keeps_exactly_the_listed_joints(
    field: &'static str,
    joints: Seq<JointId>,
)
    ensures
        (joint_set_result(field, joints) is Ok) == (forall|i: int, j: int|
            0 <= i < j < joints.len() ==> joints[i] != joints[j]),
        joint_set_result(field, joints) is Ok ==> forall|joint: JointId|
            joint_set_result(field, joints)->Ok_0.contains(joint) == (exists|i: int|
                0 <= i < joints.len() && joints[i] == joint),
        joint_set_result(field, joints) is Err ==> ({
            let k = first_repeat(joints);
            &&& 0 <= k < joints.len()
            &&& exists|i: int| 0 <= i < k && #[trigger] joints[i] == joints[k]
            &&& forall|a: int, b: int| 0 <= a < b < k ==> joints[a] != joints[b]
            &&& joint_set_result(field, joints) == Err::<Set<JointId>, ContractError>(
                ContractError::DuplicateJoint { field, joint: joint_name(joints[k]) },
            )
        }),
{
    lemma_ok_exactly_without_repeats(field, joints);
    if joints.no_duplicates() {
        lemma_ok_holds_listed_joints(field, joints);
    } else {
        lemma_err_reports_first_repeat(field, joints);
    }
}

} // verus!
