//! Coordinate-frame markers and axis conventions.
//!
//! The frame markers are types only: their field is private and no value of
//! them is ever built.

use vstd::prelude::*;

verus! {

/// `C` marks the camera optical frame with OpenCV axes.
#[derive(Debug, Clone, Copy, PartialEq, Eq)]
pub struct C(());

/// `W` marks the calibrated site frame.
#[derive(Debug, Clone, Copy, PartialEq, Eq)]
pub struct W(());

/// `S` marks the canonical source-skeleton frame.
#[derive(Debug, Clone, Copy, PartialEq, Eq)]
pub struct S(());

/// `A` marks the imported avatar rest frame.
#[derive(Debug, Clone, Copy, PartialEq, Eq)]
pub struct A(());

/// Names the positive direction of one coordinate axis.
#[derive(Debug, Clone, Copy, PartialEq, Eq, Structural)]
pub enum AxisDirection {
    Right,
    Left,
    Up,
    Down,
    Forward,
    Backward,
}

/// Describes the positive axes and handedness of a coordinate frame.
#[derive(Debug, Clone, Copy, PartialEq, Eq, Structural)]
pub struct FrameConvention {
    pub x: AxisDirection,
    pub y: AxisDirection,
    pub z: AxisDirection,
    pub right_handed: bool,
}

/// Defines OpenCV camera coordinates as +X right, +Y down, and +Z forward.
pub open spec fn opencv_camera_frame_spec() -> FrameConvention {
    FrameConvention {
        x: AxisDirection::Right,
        y: AxisDirection::Down,
        z: AxisDirection::Forward,
        right_handed: true,
    }
}

/// Defines OpenCV camera coordinates as +X right, +Y down, and +Z forward.
pub fn opencv_camera_frame() -> (convention: FrameConvention)
    ensures
        convention == opencv_camera_frame_spec(),
{
    FrameConvention {
        x: AxisDirection::Right,
        y: AxisDirection::Down,
        z: AxisDirection::Forward,
        right_handed: true,
    }
}

/// Defines site coordinates as +X left, +Y up, and +Z site forward.
///
/// Right-handedness with +Y up and +Z forward forces +X to point left.
pub open spec fn site_frame_spec() -> FrameConvention {
    FrameConvention {
        x: AxisDirection::Left,
        y: AxisDirection::Up,
        z: AxisDirection::Forward,
        right_handed: true,
    }
}

/// Defines site coordinates as +X left, +Y up, and +Z site forward.
///
/// Right-handedness with +Y up and +Z forward forces +X to point left.
pub fn site_frame() -> (convention: FrameConvention)
    ensures
        convention == site_frame_spec(),
{
    FrameConvention {
        x: AxisDirection::Left,
        y: AxisDirection::Up,
        z: AxisDirection::Forward,
        right_handed: true,
    }
}

/// Defines avatar adapter coordinates as +X right, +Y up, and +Z backward.
pub open spec fn gltf_avatar_frame_spec() -> FrameConvention {
    FrameConvention {
        x: AxisDirection::Right,
        y: AxisDirection::Up,
        z: AxisDirection::Backward,
        right_handed: true,
    }
}

/// Defines avatar adapter coordinates as +X right, +Y up, and +Z backward.
pub fn gltf_avatar_frame() -> (convention: FrameConvention)
    ensures
        convention == gltf_avatar_frame_spec(),
{
    FrameConvention {
        x: AxisDirection::Right,
        y: AxisDirection::Up,
        z: AxisDirection::Backward,
        right_handed: true,
    }
}

/// A physical direction as a unit vector on the right-handed reference axes
/// right, up and backward (toward the viewer).
pub open spec fn axis_vector(direction: AxisDirection) -> (int, int, int) {
    match direction {
        AxisDirection::Right => (1, 0, 0),
        AxisDirection::Left => (-1, 0, 0),
        AxisDirection::Up => (0, 1, 0),
        AxisDirection::Down => (0, -1, 0),
        AxisDirection::Backward => (0, 0, 1),
        AxisDirection::Forward => (0, 0, -1),
    }
}

/// The cross product of two integer vectors.
pub open spec fn cross(a: (int, int, int), b: (int, int, int)) -> (int, int, int) {
    (a.1 * b.2 - a.2 * b.1, a.2 * b.0 - a.0 * b.2, a.0 * b.1 - a.1 * b.0)
}

/// Whether the axes of a convention form a basis whose handedness is the one
/// that it declares: +X cross +Y is +Z for a right-handed frame and -Z for a
/// left-handed one.
pub open spec fn convention_is_consistent(convention: FrameConvention) -> bool {
    let z = axis_vector(convention.z);
    let xy = cross(axis_vector(convention.x), axis_vector(convention.y));
    if convention.right_handed {
        xy == z
    } else {
        xy == (-z.0, -z.1, -z.2)
    }
}

/// Each named frame convention declares the handedness that its axes have.
pub proof fn named_conventions_are_consistent()
    ensures
        convention_is_consistent(opencv_camera_frame_spec()),
        convention_is_consistent(site_frame_spec()),
        convention_is_consistent(gltf_avatar_frame_spec()),
{
}

/// In a consistent right-handed frame with +Y up and +Z forward, +X points
/// left.
pub proof fn up_forward_right_handed_frame_points_x_left(convention: FrameConvention)
    requires
        convention.y == AxisDirection::Up,
        convention.z == AxisDirection::Forward,
        convention.right_handed,
        convention_is_consistent(convention),
    ensures
        convention.x == AxisDirection::Left,
{
}

} // verus!
