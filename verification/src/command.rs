use vstd::prelude::*;

use crate::action::ActionTag;
use crate::cache::{
    spec_acquire_result, spec_capture_views, spec_needs_refresh, spec_slot_after, ImageCache,
};
use crate::encode::{encode_region, spec_encoded_region};
use crate::errors::{CaptureError, EncodeError, ScreenshotError};
use crate::frame::{spec_region_in_bounds, CaptureRegion, FrameModel, RawCapture};
use vstd::string::StringExecFns;

verus! {

/// Largest input length for which the base64 engine is known to size its
/// output buffer without overflowing.
pub const BASE64_INPUT_MAX: usize = usize::MAX / 4 * 3 - 2;

/// The characters that the base64 library's standard-alphabet, padded
/// engine produces for the given bytes.  The output is a function of the
/// bytes alone.
pub uninterp spec fn spec_base64(bytes: Seq<u8>) -> Seq<char>;

/// Relies on base64's `STANDARD` engine (`Engine::encode`): standard
/// alphabet, padded, its output depending on the input bytes alone; it sizes
/// its buffer with checked arithmetic and panics only when that overflows,
/// which the length bound rules out.
#[verifier::external_body]
fn base64_encode(bytes: &Vec<u8>) -> (r: String)
    requires
        bytes@.len() <= BASE64_INPUT_MAX,
    ensures
        r@ == spec_base64(bytes@),
{
    base64::Engine::encode(&base64::engine::general_purpose::STANDARD, bytes.as_slice())
}

/// The data-URI form under which PNG bytes are handed to the front-end.
pub open spec fn spec_data_uri(png: Seq<u8>) -> Seq<char> {
    "data:image/png;base64,"@ + spec_base64(png)
}

/// The status message reported once PNG bytes have been saved to `path`.
pub open spec fn spec_save_message(path: Seq<char>) -> Seq<char> {
    "The screenshot has been saved to: "@ + path
}

/// The view of an optional path argument.
pub open spec fn spec_opt_path(path: Option<String>) -> Option<Seq<char>> {
    match path {
        Option::Some(p) => Option::Some(p@),
        Option::None => Option::None,
    }
}

/// What a successful screenshot request hands back to the host for its
/// output sink.
#[derive(Debug)]
pub enum ScreenshotOutput {
    /// A complete `data:image/png;base64,` URI for the front-end.
    DataUri(String),
    /// PNG bytes to be written to `path` by the host, and the status message
    /// to report once they are.
    SaveFile { path: String, bytes: Vec<u8>, message: String },
}

/// What the PNG bytes of one request are, case by case: a capture failure
/// is propagated as such; with a frame acquired, a region that does not fit
/// the frame fails with `RegionOutOfBounds`, an in-bounds region of zero
/// width or height is rejected by the PNG encoder with `EncodingFailure`,
/// and every other request succeeds with exactly the region's own PNG
/// encoding.
pub open spec fn spec_capture_post(
    acquired: Result<FrameModel, CaptureError>,
    region: CaptureRegion,
    r: Result<Vec<u8>, ScreenshotError>,
) -> bool {
    match acquired {
        Result::Err(e) => r matches Err(ScreenshotError::Capture(e2)) && e2 == e,
        Result::Ok(f) => if !spec_region_in_bounds(region, f.width, f.height) {
            r matches Err(ScreenshotError::Encode(EncodeError::RegionOutOfBounds))
        } else if region.width == 0 || region.height == 0 {
            r matches Err(ScreenshotError::Encode(EncodeError::EncodingFailure(_)))
        } else {
            r matches Ok(b) && b@ == spec_encoded_region(f, region)
        },
    }
}

/// Acquire a frame through the cache and encode the requested region of it
/// as PNG; an in-bounds region of nonzero size on an acquired frame always
/// succeeds.  The provider response `capture` must be present exactly when
/// the cache needs a refresh for this tag.
pub fn capture_screenshot_from_cache(
    cache: &mut ImageCache,
    region: &CaptureRegion,
    action_type: &ActionTag,
    capture: Option<Result<RawCapture, CaptureError>>,
) -> (r: Result<Vec<u8>, ScreenshotError>)
    requires
        old(cache).wf(),
        (capture is Some) == spec_needs_refresh(old(cache)@, *action_type),
    ensures
        final(cache).wf(),
        final(cache)@ == spec_slot_after(old(cache)@, *action_type, spec_capture_views(capture)),
        spec_capture_post(
            spec_acquire_result(old(cache)@, *action_type, spec_capture_views(capture)),
            *region,
            r,
        ),
{
    let frame = match cache.acquire_frame(action_type, capture) {
        Result::Ok(f) => f,
        Result::Err(e) => {
            return Result::Err(ScreenshotError::Capture(e));
        },
    };
    match encode_region(frame, region) {
        Result::Ok(b) => Result::Ok(b),
        Result::Err(e) => Result::Err(ScreenshotError::Encode(e)),
    }
}

/// What the outcome of `take_screenshot` is, case by case: capture, bounds
/// and zero-size failures come first, exactly as in `spec_capture_post`
/// (so for a zero-sized region the encoder's rejection wins over any sink
/// concern, as in the original pipeline).  Past those, `Copy` is not served
/// by this command and fails with `InvalidActionTag`; `Save` without a path
/// fails with `MissingOutputPath` and with one yields exactly the PNG
/// bytes, the path and the status message; `Init` and `Fasten` yield the
/// PNG encoding as a data URI whenever it fits the base64 engine's input
/// bound — a machine limit no real image reaches — and fail with
/// `EncodingFailure` beyond it.
pub open spec fn spec_take_post(
    acquired: Result<FrameModel, CaptureError>,
    region: CaptureRegion,
    tag: ActionTag,
    path: Option<Seq<char>>,
    r: Result<ScreenshotOutput, ScreenshotError>,
) -> bool {
    match acquired {
        Result::Err(e) => r matches Err(ScreenshotError::Capture(e2)) && e2 == e,
        Result::Ok(f) => if !spec_region_in_bounds(region, f.width, f.height) {
            r matches Err(ScreenshotError::Encode(EncodeError::RegionOutOfBounds))
        } else if region.width == 0 || region.height == 0 {
            r matches Err(ScreenshotError::Encode(EncodeError::EncodingFailure(_)))
        } else {
            let png = spec_encoded_region(f, region);
            match tag {
                ActionTag::Copy => r matches Err(ScreenshotError::InvalidActionTag),
                ActionTag::Save => match path {
                    Option::None => r matches Err(ScreenshotError::MissingOutputPath),
                    Option::Some(p) => r matches Ok(ScreenshotOutput::SaveFile {
                        path: sp,
                        bytes,
                        message,
                    }) && sp@ == p && bytes@ == png && message@ == spec_save_message(p),
                },
                ActionTag::Init => if png.len() <= BASE64_INPUT_MAX {
                    r matches Ok(ScreenshotOutput::DataUri(s)) && s@ == spec_data_uri(png)
                } else {
                    r matches Err(ScreenshotError::Encode(EncodeError::EncodingFailure(_)))
                },
                ActionTag::Fasten => if png.len() <= BASE64_INPUT_MAX {
                    r matches Ok(ScreenshotOutput::DataUri(s)) && s@ == spec_data_uri(png)
                } else {
                    r matches Err(ScreenshotError::Encode(EncodeError::EncodingFailure(_)))
                },
            }
        },
    }
}

/// Serve one screenshot request end to end: acquire a frame under the tag's
/// cache policy, crop and PNG-encode the region, and dress the bytes for the
/// tag's output sink.  `Init` and `Fasten` yield a data URI; `Save` yields
/// the bytes and the message for the host to write and report; `Copy` is
/// rejected here with `InvalidActionTag`.
pub fn take_screenshot(
    cache: &mut ImageCache,
    x: u32,
    y: u32,
    width: u32,
    height: u32,
    action_type: ActionTag,
    file_path: Option<String>,
    capture: Option<Result<RawCapture, CaptureError>>,
) -> (r: Result<ScreenshotOutput, ScreenshotError>)
    requires
        old(cache).wf(),
        (capture is Some) == spec_needs_refresh(old(cache)@, action_type),
    ensures
        final(cache).wf(),
        final(cache)@ == spec_slot_after(old(cache)@, action_type, spec_capture_views(capture)),
        spec_take_post(
            spec_acquire_result(old(cache)@, action_type, spec_capture_views(capture)),
            CaptureRegion { x, y, width, height },
            action_type,
            spec_opt_path(file_path),
            r,
        ),
{
    let region = CaptureRegion { x, y, width, height };
    let png = match capture_screenshot_from_cache(cache, &region, &action_type, capture) {
        Result::Ok(b) => b,
        Result::Err(e) => {
            return Result::Err(e);
        },
    };
    if action_type == ActionTag::Save {
        match file_path {
            Option::Some(path) => {
                let mut message = "The screenshot has been saved to: ".to_owned();
                message.append(path.as_str());
                Result::Ok(ScreenshotOutput::SaveFile { path, bytes: png, message })
            },
            Option::None => Result::Err(ScreenshotError::MissingOutputPath),
        }
    } else if action_type == ActionTag::Init || action_type == ActionTag::Fasten {
        if png.len() <= BASE64_INPUT_MAX {
            let b64 = base64_encode(&png);
            let mut uri = "data:image/png;base64,".to_owned();
            uri.append(b64.as_str());
            Result::Ok(ScreenshotOutput::DataUri(uri))
        } else {
            Result::Err(
                ScreenshotError::Encode(
                    EncodeError::EncodingFailure(
                        "Image too large to encode as base64".to_owned(),
                    ),
                ),
            )
        }
    } else {
        Result::Err(ScreenshotError::InvalidActionTag)
    }
}

/// Serve a clipboard request: always the reuse-if-present cache policy of
/// the `Copy` tag, yielding the region's raw PNG bytes for the host to place
/// on the clipboard.
pub fn copy_screenshot(
    cache: &mut ImageCache,
    x: u32,
    y: u32,
    width: u32,
    height: u32,
    capture: Option<Result<RawCapture, CaptureError>>,
) -> (r: Result<Vec<u8>, ScreenshotError>)
    requires
        old(cache).wf(),
        (capture is Some) == spec_needs_refresh(old(cache)@, ActionTag::Copy),
    ensures
        final(cache).wf(),
        final(cache)@ == spec_slot_after(
            old(cache)@,
            ActionTag::Copy,
            spec_capture_views(capture),
        ),
        spec_capture_post(
            spec_acquire_result(old(cache)@, ActionTag::Copy, spec_capture_views(capture)),
            CaptureRegion { x, y, width, height },
            r,
        ),
{
    let region = CaptureRegion { x, y, width, height };
    capture_screenshot_from_cache(cache, &region, &ActionTag::Copy, capture)
}

} // verus!
