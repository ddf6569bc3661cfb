//! Spatial-model observations and evidence labels.

use vstd::prelude::*;

use crate::error::{ContractError, Validate};
use crate::joint_set::{collect_joint_set, joint_set_result};
use crate::joints::JointId;
use crate::text::{blank, holds_non_whitespace, is_blank};
use crate::time::MonotonicTime;

verus! {

/// Describes the image evidence available for one joint.
#[derive(Debug, Clone, Copy, PartialEq, Eq, Structural)]
pub enum VisibilityEvidence {
    /// The image contains usable evidence for the joint.
    Observed,
    /// Another subject or object hides the joint.
    Occluded,
    /// The camera frame or crop cuts off the joint.
    Truncated,
    /// The adapter cannot classify the evidence.
    Unknown,
}

/// Describes how the engine produced one joint estimate.
#[derive(Debug, Clone, Copy, PartialEq, Eq, Structural)]
pub enum EstimateOrigin {
    /// A current accepted observation produced the estimate.
    Fresh,
    /// State prediction produced the estimate.
    Predicted,
    /// The engine retained the last valid estimate.
    Held,
    /// A declared fallback path produced the estimate.
    Fallback,
}

/// Carries one spatial-model result for one captured frame, as the contract
/// checks see it: its identity, its runtime-clock times, and the joint of
/// each joint observation. The crop transform, the regions of interest, the
/// coverage fractions, the per-joint positions and uncertainties, and the
/// shape proposal are floating-point data that the application carries
/// beside this record.
#[derive(Debug, Clone)]
pub struct SpatialObservation {
    /// Identifies the source frame packet sequence.
    pub source_frame_sequence: u64,
    /// Records source frame time on the runtime monotonic clock.
    pub source_time: MonotonicTime,
    /// Records inference completion time on the runtime monotonic clock.
    pub completed_time: MonotonicTime,
    pub model_id: String,
    pub model_version: String,
    pub adapter_version: String,
    /// The joint of each joint observation, in result order.
    pub joints: Vec<JointId>,
}

/// What validating a spatial observation gives. Checks run in this order
/// and the first failure is reported: the source time does not follow the
/// completion time; the model id, model version and adapter version are not
/// blank, in that order; no joint is observed twice.
pub open spec fn observation_result(observation: SpatialObservation) -> Result<(), ContractError> {
    if observation.completed_time@ < observation.source_time@ {
        Err(ContractError::InvalidTimeOrder { earlier: "source_time", later: "completed_time" })
    } else if is_blank(observation.model_id@) {
        Err(ContractError::EmptyField { field: "model_id" })
    } else if is_blank(observation.model_version@) {
        Err(ContractError::EmptyField { field: "model_version" })
    } else if is_blank(observation.adapter_version@) {
        Err(ContractError::EmptyField { field: "adapter_version" })
    } else {
        match joint_set_result("joints", observation.joints@) {
            Ok(_) => Ok(()),
            Err(e) => Err(e),
        }
    }
}

impl Validate for SpatialObservation {
    fn validate(&self) -> (r: Result<(), ContractError>)
        ensures
            r == observation_result(*self),
    {
        if self.completed_time.as_nanos() < self.source_time.as_nanos() {
            return Err(
                ContractError::InvalidTimeOrder { earlier: "source_time", later: "completed_time" },
            );
        }
        if blank(self.model_id.as_str()) {
            return Err(ContractError::EmptyField { field: "model_id" });
        }
        if blank(self.model_version.as_str()) {
            return Err(ContractError::EmptyField { field: "model_version" });
        }
        if blank(self.adapter_version.as_str()) {
            return Err(ContractError::EmptyField { field: "adapter_version" });
        }
        match collect_joint_set("joints", self.joints.as_slice()) {
            Ok(_) => Ok(()),
            Err(e) => Err(e),
        }
    }
}

/// Observation validation accepts exactly the observations whose source time
/// does not follow the completion time, whose model id, model version and
/// adapter version each hold a non-whitespace character, and whose joints
/// repeat no joint.
pub proof fn observation_accepts_exactly_consistent_results(observation: SpatialObservation)
    ensures
        (observation_result(observation) is Ok) == {
            &&& observation.source_time@ <= observation.completed_time@
            &&& holds_non_whitespace(observation.model_id@)
            &&& holds_non_whitespace(observation.model_version@)
            &&& holds_non_whitespace(observation.adapter_version@)
            &&& observation.joints@.no_duplicates()
        },
{
}

/// Which error a rejected observation reports: a completion time before the
/// source time first, then the first blank of model id, model version and
/// adapter version, and otherwise the first repeated joint.
pub proof fn observation_reports_the_first_failing_check(observation: SpatialObservation)
    ensures
        observation.completed_time@ < observation.source_time@ ==> observation_result(
            observation,
        ) == Err::<(), ContractError>(
            ContractError::InvalidTimeOrder { earlier: "source_time", later: "completed_time" },
        ),
        observation.source_time@ <= observation.completed_time@ && !holds_non_whitespace(
            observation.model_id@,
        ) ==> observation_result(observation) == Err::<(), ContractError>(
            ContractError::EmptyField { field: "model_id" },
        ),
        observation.source_time@ <= observation.completed_time@ && holds_non_whitespace(
            observation.model_id@,
        ) && !holds_non_whitespace(observation.model_version@) ==> observation_result(
            observation,
        ) == Err::<(), ContractError>(ContractError::EmptyField { field: "model_version" }),
        observation.source_time@ <= observation.completed_time@ && holds_non_whitespace(
            observation.model_id@,
        ) && holds_non_whitespace(observation.model_version@) && !holds_non_whitespace(
            observation.adapter_version@,
        ) ==> observation_result(observation) == Err::<(), ContractError>(
            ContractError::EmptyField { field: "adapter_version" },
        ),
        observation.source_time@ <= observation.completed_time@ && holds_non_whitespace(
            observation.model_id@,
        ) && holds_non_whitespace(observation.model_version@) && holds_non_whitespace(
            observation.adapter_version@,
        ) && !observation.joints@.no_duplicates() ==> observation_result(observation) == Err::<
            (),
            ContractError,
        >(joint_set_result("joints", observation.joints@)->Err_0),
{
}

} // verus!
