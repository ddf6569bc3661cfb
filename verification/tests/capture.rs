use senrigan_types::{
    CameraMode, ContractError, FramePacket, MonotonicTime, PixelFormat, TimestampQuality, Validate,
};

fn packet(pixel_format: PixelFormat, stride: u32, image_buffer: Vec<u8>) -> FramePacket {
    FramePacket {
        camera_id: "camera-0".into(),
        sequence: 1,
        source_time: MonotonicTime::from_nanos(10),
        receipt_time: MonotonicTime::from_nanos(20),
        timestamp_quality: TimestampQuality::Source,
        mode: CameraMode {
            pixel_format,
            width: 2,
            height: 2,
            stride,
            nominal_frame_interval_ns: 1,
        },
        image_buffer,
    }
}

#[test]
fn validates_compressed_and_raw_layouts_separately() {
    assert!(packet(PixelFormat::Mjpg, 0, vec![1, 2, 3]).validate().is_ok());
    assert!(packet(PixelFormat::Rgb8, 2, vec![0; 4]).validate().is_err());
    assert!(packet(PixelFormat::Yuyv, 4, vec![0; 8]).validate().is_ok());
}

#[test]
fn rejects_packet_time_reversal() {
    let mut value = packet(PixelFormat::Mjpg, 0, vec![1]);
    value.source_time = MonotonicTime::from_nanos(21);
    assert_eq!(
        value.validate(),
        Err(ContractError::InvalidTimeOrder {
            earlier: "source_time",
            later: "receipt_time",
        })
    );
}

#[test]
fn accepts_a_packed_rgb_frame_with_exact_length() {
    assert!(packet(PixelFormat::Rgb8, 6, vec![0; 12]).validate().is_ok());
    assert_eq!(
        packet(PixelFormat::Rgb8, 6, vec![0; 11]).validate(),
        Err(ContractError::InvalidImageLayout)
    );
    assert_eq!(
        packet(PixelFormat::Rgb8, 5, vec![0; 100]).validate(),
        Err(ContractError::InvalidImageLayout)
    );
}

#[test]
fn rejects_blank_camera_ids() {
    for id in ["", "   ", "\t\n", "\u{3000}"] {
        let mut value = packet(PixelFormat::Mjpg, 0, vec![1]);
        value.camera_id = id.into();
        assert_eq!(
            value.validate(),
            Err(ContractError::EmptyField { field: "camera_id" })
        );
    }
    let mut value = packet(PixelFormat::Mjpg, 0, vec![1]);
    value.camera_id = " cam ".into();
    assert!(value.validate().is_ok());
}

#[test]
fn rejects_empty_modes_and_buffers() {
    let mut value = packet(PixelFormat::Mjpg, 0, vec![1]);
    value.mode.width = 0;
    assert_eq!(value.validate(), Err(ContractError::InvalidImageLayout));
    let mut value = packet(PixelFormat::Mjpg, 0, vec![1]);
    value.mode.nominal_frame_interval_ns = 0;
    assert_eq!(value.validate(), Err(ContractError::InvalidImageLayout));
    assert_eq!(
        packet(PixelFormat::Mjpg, 0, Vec::new()).validate(),
        Err(ContractError::InvalidImageLayout)
    );
}

#[test]
fn rejects_a_stride_that_overflows() {
    let mut value = packet(PixelFormat::Rgb8, u32::MAX, vec![0; 16]);
    value.mode.width = u32::MAX / 2;
    assert_eq!(value.validate(), Err(ContractError::InvalidImageLayout));
}

#[test]
fn checks_a_packet_against_its_predecessor() {
    let previous = packet(PixelFormat::Mjpg, 0, vec![1]);
    let mut next = packet(PixelFormat::Mjpg, 0, vec![1]);
    next.sequence = 2;
    next.source_time = MonotonicTime::from_nanos(10);
    assert!(next.validate_after(&previous).is_ok());
    assert_eq!(
        previous.validate_after(&previous),
        Err(ContractError::InvalidSequence)
    );
    next.source_time = MonotonicTime::from_nanos(9);
    assert!(next.validate_after(&previous).is_err());
}

#[test]
fn valid_packed_frames_hold_every_pixel() {
    let value = packet(PixelFormat::Yuyv, 4, vec![0; 8]);
    assert!(value.validate().is_ok());
    let mode = &value.mode;
    assert!((mode.width as usize) * 2 * (mode.height as usize) <= value.image_buffer.len());
}

#[test]
fn blank_means_unicode_whitespace_only() {
    for code in 0..=0x10FFFFu32 {
        if let Some(c) = char::from_u32(code) {
            let mut value = packet(PixelFormat::Mjpg, 0, vec![1]);
            value.camera_id = c.to_string();
            assert_eq!(
                value.validate().is_err(),
                c.is_whitespace(),
                "character U+{:04X}",
                code
            );
        }
    }
}
