//! Shared contracts of the Senrigan tracker: runtime-clock timestamps, the
//! persisted-schema version, the canonical joint topology, coordinate-frame
//! conventions, and the validation rules that every persisted record passes.
//!
//! Records here hold the values that their contract checks read. Their
//! floating-point payloads (positions, rotations, confidences) and their
//! serialized forms live with the application that uses this library.

mod capture;
mod coordinate;
mod error;
mod joint_set;
mod joints;
mod manifest;
mod motion;
mod observation;
mod schema;
mod status;
mod text;
mod time;

pub use capture::{
    bytes_per_pixel, frame_packet_accepts_exactly_well_formed_packets,
    frame_packet_reports_the_first_failing_check, frame_packet_result,
    frame_packet_time_error_exactly_when_source_follows_receipt, packed_layout_fits,
    valid_packed_frame_holds_every_pixel, CameraMode, FramePacket, PixelFormat, TimestampQuality,
};
pub use coordinate::{
    axis_vector, convention_is_consistent, cross, gltf_avatar_frame, gltf_avatar_frame_spec,
    named_conventions_are_consistent, opencv_camera_frame, opencv_camera_frame_spec, site_frame,
    site_frame_spec, up_forward_right_handed_frame_points_x_left, A, AxisDirection, C,
    FrameConvention, S, W,
};
pub use error::{ContractError, Validate};
pub use joint_set::{
    collect_joint_set, collecting_joints_keeps_exactly_the_listed_joints, first_repeat,
    joint_set_result, repeats_at, set_result_view, JointSet,
};
pub use joints::{
    canonical_names_are_distinct, joint_name, joint_ordinal, optional_joint, optional_joints,
    optional_joints_spec, optional_table_is_well_formed, parent_available, required_joints,
    required_joints_spec, required_table_is_well_formed, table_joints, tables_cover_every_joint,
    CanonicalJointSpec, JointId, ParentRule,
};
pub use manifest::{
    blank_file_entry, blank_placement, has_blank_file_entry, has_blank_placement,
    manifest_accepts_exactly_complete_packages, manifest_reports_the_first_failing_check,
    manifest_result, InferencePlacement, ModelManifest, ModelReleaseClass, ProviderPrecision,
};
pub use motion::{
    first_missing, holds_required_joints, lists_topology,
    matching_check_accepts_exactly_the_same_joints, matching_joint_set_result, missing_at,
    motion_frame_accepts_exactly_consistent_frames, motion_frame_reports_the_first_failing_check,
    motion_frame_result, origin_joints, required_check_accepts_exactly_complete_topologies,
    required_joint_set_result, same_joints_once, then_check, valid_frame_channels_share_topology,
    validate_matching_joints, validate_required_joints, visibility_joints, CanonicalMotionFrame,
    ContactRegion, JointEstimateOrigin, JointVisibility, PerformerScaleStatus,
};
pub use observation::{
    observation_accepts_exactly_consistent_results, observation_reports_the_first_failing_check,
    observation_result, EstimateOrigin, SpatialObservation, VisibilityEvidence,
};
pub use schema::{schema_version_is_its_number, CURRENT_SCHEMA_VERSION, SchemaVersion};
pub use status::{CalibrationStatus, StageOutcome, TrackingLifecycle};
pub use text::{holds_non_whitespace, is_blank, is_whitespace};
pub use time::{
    accepted_step_has_elapsed_time, checked_duration_since_spec, clock_order,
    clock_value_is_its_count, elapsed_time_both_ways_only_when_equal,
    elapsed_time_is_the_count_difference, nanos_duration,
    stream_order_accepts_exactly_forward_steps, stream_order_is_transitive, stream_order_result,
    validate_stream_order, MonotonicTime,
};
