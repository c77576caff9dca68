use vstd::prelude::*;

use crate::errors::CaptureError;

verus! {

/// Mathematical model of a full-display frame: its dimensions in pixels and
/// its pixel bytes, four bytes (red, green, blue, alpha) per pixel, rows from
/// the top, pixels within a row from the left.
pub struct FrameModel {
    pub width: nat,
    pub height: nat,
    pub pixels: Seq<u8>,
}

impl FrameModel {
    /// The pixel bytes hold exactly four bytes for every pixel of the frame.
    pub open spec fn wf(self) -> bool {
        self.pixels.len() == 4 * self.width * self.height
    }

    /// Byte `channel` (0 = red, 1 = green, 2 = blue, 3 = alpha) of the pixel
    /// at column `x` of row `y`.
    pub open spec fn byte_at(self, x: int, y: int, channel: int) -> u8 {
        self.pixels[4 * (y * self.width + x) + channel]
    }
}

/// What the capture provider hands over: dimensions it reports for the
/// primary display, and the raw pixel data of one full capture.  The data is
/// not yet checked against the dimensions.
pub struct RawCapture {
    pub width: u32,
    pub height: u32,
    pub pixels: Vec<u8>,
}

impl View for RawCapture {
    type V = FrameModel;

    open spec fn view(&self) -> FrameModel {
        FrameModel { width: self.width as nat, height: self.height as nat, pixels: self.pixels@ }
    }
}

/// A full captured image of the primary display, with pixel data known to
/// match its dimensions.
#[derive(Debug)]
pub struct Frame {
    pub width: u32,
    pub height: u32,
    pub pixels: Vec<u8>,
}

impl View for Frame {
    type V = FrameModel;

    open spec fn view(&self) -> FrameModel {
        FrameModel { width: self.width as nat, height: self.height as nat, pixels: self.pixels@ }
    }
}

impl Frame {
    /// The frame's pixel data has exactly four bytes per pixel.
    pub open spec fn wf(&self) -> bool {
        self@.wf()
    }

    /// Construct a frame from raw capture data, checking that the pixel data
    /// has exactly the size that the reported dimensions demand.  This check
    /// succeeds if and only if the raw data is well shaped; a mismatch is
    /// `CaptureError::BufferConstructionFailure`.
    pub fn from_raw(raw: RawCapture) -> (r: Result<Frame, CaptureError>)
        ensures
            raw@.wf() <==> r is Ok,
            r matches Ok(f) ==> f@ == raw@ && f.wf(),
            r matches Err(e) ==> e is BufferConstructionFailure,
    {
        proof {
            assert(4 * (raw.width as u128 as int) * (raw.height as u128 as int) <= u128::MAX)
                by (nonlinear_arith)
                requires
                    0 <= raw.width as u128 as int <= 0xffff_ffff,
                    0 <= raw.height as u128 as int <= 0xffff_ffff,
            ;
        }
        let expected: u128 = 4u128 * (raw.width as u128) * (raw.height as u128);
        if (raw.pixels.len() as u128) == expected {
            Ok(Frame { width: raw.width, height: raw.height, pixels: raw.pixels })
        } else {
            Err(CaptureError::BufferConstructionFailure)
        }
    }
}

/// A sub-rectangle of a frame requested for encoding or output, in pixel
/// coordinates relative to the top-left corner of the frame.
#[derive(Clone, Copy, PartialEq, Eq, Structural, Debug)]
pub struct CaptureRegion {
    pub x: u32,
    pub y: u32,
    pub width: u32,
    pub height: u32,
}

/// The region lies entirely within a frame of the given dimensions.
pub open spec fn spec_region_in_bounds(region: CaptureRegion, width: nat, height: nat) -> bool {
    region.x + region.width <= width && region.y + region.height <= height
}

/// Bounds check of a region against a frame, without truncation.
pub fn region_in_bounds(region: &CaptureRegion, frame: &Frame) -> (b: bool)
    ensures
        b == spec_region_in_bounds(*region, frame@.width, frame@.height),
{
    (region.x as u64) + (region.width as u64) <= (frame.width as u64)
        && (region.y as u64) + (region.height as u64) <= (frame.height as u64)
}

} // verus!
