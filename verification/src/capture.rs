//! Captured-image packets and camera metadata.

use vstd::prelude::*;

use crate::error::{ContractError, Validate};
use crate::text::{blank, holds_non_whitespace, is_blank};
use crate::time::{stream_order_result, validate_stream_order, MonotonicTime};

verus! {

/// Identifies the origin of a packet's `source_time`.
#[derive(Debug, Clone, Copy, PartialEq, Eq, Structural)]
pub enum TimestampQuality {
    /// The backend supplied source time on the runtime monotonic clock.
    Source,
    /// `source_time` uses the application receipt time.
    Receipt,
}

/// Identifies the image format in a [`FramePacket`].
#[derive(Debug, Clone, Copy, PartialEq, Eq, Structural)]
pub enum PixelFormat {
    Rgb8,
    Mjpg,
    Yuyv,
}

/// Describes the camera mode delivered with a frame.
#[derive(Debug, Clone, PartialEq, Eq, Structural)]
pub struct CameraMode {
    pub pixel_format: PixelFormat,
    /// Stores the image width in pixels.
    pub width: u32,
    /// Stores the image height in pixels.
    pub height: u32,
    /// Stores the row stride in bytes for a packed image.
    pub stride: u32,
    /// Stores the nominal frame interval in nanoseconds.
    pub nominal_frame_interval_ns: u64,
}

/// Contains one captured image and its runtime-clock metadata. The camera
/// control snapshot that travels with a frame holds floating-point values
/// and is carried by the application beside this record.
#[derive(Debug, Clone)]
pub struct FramePacket {
    pub camera_id: String,
    /// Stores the increasing sequence number for this camera stream.
    pub sequence: u64,
    /// Stores the best available source time on the runtime monotonic clock.
    pub source_time: MonotonicTime,
    /// Stores the application receipt time on the runtime monotonic clock.
    pub receipt_time: MonotonicTime,
    pub timestamp_quality: TimestampQuality,
    pub mode: CameraMode,
    /// Contains the encoded or packed bytes described by `mode`.
    pub image_buffer: Vec<u8>,
}

/// The bytes per pixel of a packed format; compressed formats have none.
pub open spec fn bytes_per_pixel(format: PixelFormat) -> Option<u32> {
    match format {
        PixelFormat::Rgb8 => Some(3),
        PixelFormat::Yuyv => Some(2),
        PixelFormat::Mjpg => None,
    }
}

/// Whether a packed image of `mode` with `bytes_per_pixel` fits: the minimum
/// stride (width times bytes per pixel) fits in a `u32` and does not exceed
/// the stride, and the minimum buffer length (stride times height) fits in
/// a `usize` and does not exceed the buffer length.
pub open spec fn packed_layout_fits(mode: CameraMode, buffer_len: nat, bytes_per_pixel: u32) -> bool {
    &&& mode.width * bytes_per_pixel <= u32::MAX
    &&& mode.width * bytes_per_pixel <= mode.stride
    &&& mode.stride * mode.height <= usize::MAX
    &&& mode.stride * mode.height <= buffer_len
}

/// What validating a frame packet gives. Checks run in this order and the
/// first failure is reported: the camera id is not blank; source time does
/// not follow receipt time; width, height, frame interval and buffer are
/// nonzero; a packed format's layout fits the buffer.
pub open spec fn frame_packet_result(packet: FramePacket) -> Result<(), ContractError> {
    if is_blank(packet.camera_id@) {
        Err(ContractError::EmptyField { field: "camera_id" })
    } else if packet.receipt_time@ < packet.source_time@ {
        Err(ContractError::InvalidTimeOrder { earlier: "source_time", later: "receipt_time" })
    } else if packet.mode.width == 0 || packet.mode.height == 0
        || packet.mode.nominal_frame_interval_ns == 0 || packet.image_buffer@.len() == 0 {
        Err(ContractError::InvalidImageLayout)
    } else {
        match bytes_per_pixel(packet.mode.pixel_format) {
            Some(bpp) => if packed_layout_fits(packet.mode, packet.image_buffer@.len(), bpp) {
                Ok(())
            } else {
                Err(ContractError::InvalidImageLayout)
            },
            None => Ok(()),
        }
    }
}

impl FramePacket {
    /// Checks this packet against the prior packet from one stream: the
    /// sequence must increase and the source time cannot move backward.
    pub fn validate_after(&self, previous: &Self) -> (r: Result<(), ContractError>)
        ensures
            r == stream_order_result(
                previous.sequence,
                previous.source_time,
                self.sequence,
                self.source_time,
            ),
    {
        validate_stream_order(previous.sequence, previous.source_time, self.sequence, self.source_time)
    }
}

impl Validate for FramePacket {
    fn validate(&self) -> (r: Result<(), ContractError>)
        ensures
            r == frame_packet_result(*self),
    {
        // 1. Check packet identity and time.
        if blank(self.camera_id.as_str()) {
            return Err(ContractError::EmptyField { field: "camera_id" });
        }
        if self.receipt_time.as_nanos() < self.source_time.as_nanos() {
            return Err(
                ContractError::InvalidTimeOrder { earlier: "source_time", later: "receipt_time" },
            );
        }
        // 2. Check the delivered camera mode.
        if self.mode.width == 0 || self.mode.height == 0 || self.mode.nominal_frame_interval_ns == 0
            || self.image_buffer.len() == 0 {
            return Err(ContractError::InvalidImageLayout);
        }
        // 3. Check the packed image layout.
        let bytes_per_pixel: Option<u32> = match self.mode.pixel_format {
            PixelFormat::Rgb8 => Some(3),
            PixelFormat::Yuyv => Some(2),
            PixelFormat::Mjpg => None,
        };
        if let Some(bpp) = bytes_per_pixel {
            let stride_fits = match self.mode.width.checked_mul(bpp) {
                Some(minimum) => minimum <= self.mode.stride,
                None => false,
            };
            let length_fits = match (self.mode.stride as usize).checked_mul(
                self.mode.height as usize,
            ) {
                Some(minimum) => minimum <= self.image_buffer.len(),
                None => false,
            };
            if !stride_fits || !length_fits {
                return Err(ContractError::InvalidImageLayout);
            }
        }
        Ok(())
    }
}

/// A packed frame that passes validation holds every row of pixels: its
/// buffer is at least width times bytes per pixel times height bytes long.
pub proof fn valid_packed_frame_holds_every_pixel(packet: FramePacket)
    requires
        frame_packet_result(packet) is Ok,
        bytes_per_pixel(packet.mode.pixel_format) is Some,
    ensures
        packet.mode.width * bytes_per_pixel(packet.mode.pixel_format)->0 * packet.mode.height
            <= packet.image_buffer@.len(),
{
    let bpp = bytes_per_pixel(packet.mode.pixel_format)->0;
    let width = packet.mode.width as int;
    let height = packet.mode.height as int;
    let stride = packet.mode.stride as int;
    assert(width * bpp * height <= stride * height) by (nonlinear_arith)
        requires
            width * bpp <= stride,
            0 <= height,
    ;
}

/// Frame packet validation accepts exactly the packets whose camera id holds
/// a non-whitespace character, whose source time does not follow the receipt
/// time (equal times are accepted), whose width, height, frame interval and
/// buffer are nonzero, and, for RGB8 and YUYV, whose stride covers width
/// times 3 or 2 bytes and whose buffer covers stride times height bytes (a
/// product that fits in a `usize`). MJPG places no bound on stride or
/// length.
pub proof fn frame_packet_accepts_exactly_well_formed_packets(packet: FramePacket)
    ensures
        (frame_packet_result(packet) is Ok) == {
            let mode = packet.mode;
            let len = packet.image_buffer@.len();
            &&& holds_non_whitespace(packet.camera_id@)
            &&& packet.source_time@ <= packet.receipt_time@
            &&& mode.width > 0 && mode.height > 0 && mode.nominal_frame_interval_ns > 0
            &&& len > 0
            &&& mode.pixel_format == PixelFormat::Rgb8 ==> mode.width * 3 <= mode.stride
                && mode.stride * mode.height <= usize::MAX && mode.stride * mode.height <= len
            &&& mode.pixel_format == PixelFormat::Yuyv ==> mode.width * 2 <= mode.stride
                && mode.stride * mode.height <= usize::MAX && mode.stride * mode.height <= len
        },
{
}

/// The time-order error of frame packet validation is reported exactly for
/// packets whose camera id is not blank and whose source time follows the
/// receipt time.
pub proof fn frame_packet_time_error_exactly_when_source_follows_receipt(packet: FramePacket)
    ensures
        (frame_packet_result(packet) == Err::<(), ContractError>(
            ContractError::InvalidTimeOrder { earlier: "source_time", later: "receipt_time" },
        )) == (holds_non_whitespace(packet.camera_id@) && packet.source_time@
            > packet.receipt_time@),
{
}

/// Which error a rejected frame packet reports: a blank camera id first,
/// then a source time that follows the receipt time, and otherwise an
/// invalid image layout.
pub proof fn frame_packet_reports_the_first_failing_check(packet: FramePacket)
    ensures
        !holds_non_whitespace(packet.camera_id@) ==> frame_packet_result(packet) == Err::<
            (),
            ContractError,
        >(ContractError::EmptyField { field: "camera_id" }),
        holds_non_whitespace(packet.camera_id@) && packet.source_time@ <= packet.receipt_time@
            && frame_packet_result(packet) is Err ==> frame_packet_result(packet) == Err::<
            (),
            ContractError,
        >(ContractError::InvalidImageLayout),
        holds_non_whitespace(packet.camera_id@) && packet.source_time@ <= packet.receipt_time@
            && (packet.mode.width == 0 || packet.mode.height == 0
            || packet.mode.nominal_frame_interval_ns == 0 || packet.image_buffer@.len() == 0)
            ==> frame_packet_result(packet) is Err,
{
}

} // verus!
