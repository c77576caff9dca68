use vstd::prelude::*;

verus! {

/// Failure to acquire a full-display frame.
#[derive(Debug)]
pub enum CaptureError {
    /// The capture provider enumerated no display at all.
    NoScreenFound,
    /// The underlying capture call failed; the detail is the provider's own
    /// description of the fault.
    ProviderFailure(String),
    /// The raw pixel data could not be reinterpreted as an RGBA buffer of the
    /// stated dimensions (size mismatch).
    BufferConstructionFailure,
}

/// The text that `CaptureError::message` returns for each variant.
pub open spec fn spec_capture_error_message(e: CaptureError) -> Seq<char> {
    match e {
        CaptureError::NoScreenFound => "Screen not found"@,
        CaptureError::ProviderFailure(d) => d@,
        CaptureError::BufferConstructionFailure => "Failed to create image buffer"@,
    }
}

impl CaptureError {
    /// A human-readable description of the failure.
    pub fn message(&self) -> (r: String)
        ensures
            r@ == spec_capture_error_message(*self),
    {
        match self {
            CaptureError::NoScreenFound => "Screen not found".to_owned(),
            CaptureError::ProviderFailure(d) => d.clone(),
            CaptureError::BufferConstructionFailure => "Failed to create image buffer".to_owned(),
        }
    }
}

/// Failure to turn a frame region into PNG bytes.
#[derive(Debug)]
pub enum EncodeError {
    /// The requested region does not lie within the bounds of the frame.
    RegionOutOfBounds,
    /// The PNG encoder itself declined the image; the detail is its own
    /// description of the fault.
    EncodingFailure(String),
}

/// The text that `EncodeError::message` returns for each variant.
pub open spec fn spec_encode_error_message(e: EncodeError) -> Seq<char> {
    match e {
        EncodeError::RegionOutOfBounds => "Region out of bounds"@,
        EncodeError::EncodingFailure(d) => d@,
    }
}

impl EncodeError {
    /// A human-readable description of the failure.
    pub fn message(&self) -> (r: String)
        ensures
            r@ == spec_encode_error_message(*self),
    {
        match self {
            EncodeError::RegionOutOfBounds => "Region out of bounds".to_owned(),
            EncodeError::EncodingFailure(d) => d.clone(),
        }
    }
}

/// Failure of a whole screenshot request.
#[derive(Debug)]
pub enum ScreenshotError {
    /// Acquiring the full-display frame failed.
    Capture(CaptureError),
    /// Cropping or PNG-encoding the requested region failed.
    Encode(EncodeError),
    /// The request asked to save to disk but supplied no output path.
    MissingOutputPath,
    /// The request's tag selects no output sink of this command.
    InvalidActionTag,
}

/// The text that `ScreenshotError::message` returns for each variant.
pub open spec fn spec_screenshot_error_message(e: ScreenshotError) -> Seq<char> {
    match e {
        ScreenshotError::Capture(c) => spec_capture_error_message(c),
        ScreenshotError::Encode(c) => spec_encode_error_message(c),
        ScreenshotError::MissingOutputPath => "Missing output file path"@,
        ScreenshotError::InvalidActionTag => "Invalid action type"@,
    }
}

impl ScreenshotError {
    /// A human-readable description of the failure.
    pub fn message(&self) -> (r: String)
        ensures
            r@ == spec_screenshot_error_message(*self),
    {
        match self {
            ScreenshotError::Capture(c) => c.message(),
            ScreenshotError::Encode(c) => c.message(),
            ScreenshotError::MissingOutputPath => "Missing output file path".to_owned(),
            ScreenshotError::InvalidActionTag => "Invalid action type".to_owned(),
        }
    }
}

} // verus!
