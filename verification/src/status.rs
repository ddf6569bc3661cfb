//! Tracking lifecycle, status, and stage outcomes.

use vstd::prelude::*;

verus! {

/// Reports the estimator lifecycle with each output.
#[derive(Debug, Clone, Copy, PartialEq, Eq, Structural)]
pub enum TrackingLifecycle {
    /// Reliable global evidence supports normal correction.
    Tracking,
    /// Reliable evidence supports only part of the body.
    Partial,
    /// Prediction advances state without reliable global evidence.
    Predicting,
    /// Damped state retains the last valid motion.
    Holding,
    /// Output holds while no performer track is active.
    Lost,
    /// An isolated candidate is being confirmed or blended.
    Reacquiring,
}

/// Reports the current validity of the saved site calibration.
#[derive(Debug, Clone, Copy, PartialEq, Eq, Structural)]
pub enum CalibrationStatus {
    /// No site calibration is available.
    Unavailable,
    /// Calibration has not passed final validation.
    Provisional,
    /// Calibration matches the current camera and mode.
    Valid,
    /// Camera evidence no longer supports the saved calibration.
    Stale,
}

/// Reports a typed success or failure from one runtime stage.
#[derive(Debug, Clone, PartialEq)]
pub enum StageOutcome<T> {
    /// The stage produced a valid value.
    Success(T),
    /// The stage received no usable observation.
    NoObservation { reason: String },
    /// The input arrived too late for the stage.
    StaleInput {
        /// Records the input age in nanoseconds.
        age_ns: u64,
    },
    /// The stage exceeded its deadline.
    DeadlineMissed {
        stage: String,
        /// Records the stage duration in nanoseconds.
        elapsed_ns: u64,
    },
    /// The stage produced data that failed validation.
    InvalidOutput { reason: String },
    /// The selected execution provider failed.
    ProviderFailure { provider: String, reason: String },
}

} // verus!
