use senrigan_types::{gltf_avatar_frame, opencv_camera_frame, site_frame, AxisDirection};

fn vector(direction: AxisDirection) -> [i32; 3] {
    match direction {
        AxisDirection::Right => [1, 0, 0],
        AxisDirection::Left => [-1, 0, 0],
        AxisDirection::Up => [0, 1, 0],
        AxisDirection::Down => [0, -1, 0],
        AxisDirection::Backward => [0, 0, 1],
        AxisDirection::Forward => [0, 0, -1],
    }
}

fn cross(a: [i32; 3], b: [i32; 3]) -> [i32; 3] {
    [
        a[1] * b[2] - a[2] * b[1],
        a[2] * b[0] - a[0] * b[2],
        a[0] * b[1] - a[1] * b[0],
    ]
}

#[test]
fn named_conventions_match_their_documented_axes() {
    let opencv = opencv_camera_frame();
    assert_eq!(
        (opencv.x, opencv.y, opencv.z),
        (AxisDirection::Right, AxisDirection::Down, AxisDirection::Forward)
    );
    let site = site_frame();
    assert_eq!(
        (site.x, site.y, site.z),
        (AxisDirection::Left, AxisDirection::Up, AxisDirection::Forward)
    );
    let gltf = gltf_avatar_frame();
    assert_eq!(
        (gltf.x, gltf.y, gltf.z),
        (AxisDirection::Right, AxisDirection::Up, AxisDirection::Backward)
    );
}

#[test]
fn named_conventions_are_right_handed() {
    for convention in [opencv_camera_frame(), site_frame(), gltf_avatar_frame()] {
        assert!(convention.right_handed);
        assert_eq!(
            cross(vector(convention.x), vector(convention.y)),
            vector(convention.z)
        );
    }
}
