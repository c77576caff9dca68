use shotcache::action::ActionTag;
use shotcache::cache::ImageCache;
use shotcache::encode::{crop_region, encode_region};
use shotcache::errors::EncodeError;
use shotcache::frame::{CaptureRegion, Frame, RawCapture};

fn gradient_raw(width: u32, height: u32) -> RawCapture {
    let mut pixels = Vec::with_capacity((4 * width * height) as usize);
    for y in 0..height {
        for x in 0..width {
            pixels.push((x % 256) as u8);
            pixels.push((y % 256) as u8);
            pixels.push(((x + y) % 256) as u8);
            pixels.push(255u8);
        }
    }
    RawCapture { width, height, pixels }
}

fn gradient_frame(width: u32, height: u32) -> Frame {
    Frame::from_raw(gradient_raw(width, height)).unwrap()
}

#[test]
fn region_exceeding_width_is_out_of_bounds() {
    let frame = gradient_frame(4, 4);
    let region = CaptureRegion { x: 3, y: 0, width: 2, height: 2 };
    let r = encode_region(&frame, &region);
    assert!(matches!(r, Err(EncodeError::RegionOutOfBounds)));
}

#[test]
fn region_exceeding_height_is_out_of_bounds() {
    let frame = gradient_frame(4, 4);
    let region = CaptureRegion { x: 0, y: 2, width: 4, height: 3 };
    let r = encode_region(&frame, &region);
    assert_eq!(r.unwrap_err().message(), "Region out of bounds");
}

#[test]
fn encoding_is_deterministic() {
    let frame = gradient_frame(64, 48);
    let region = CaptureRegion { x: 5, y: 7, width: 40, height: 30 };
    let first = encode_region(&frame, &region).unwrap();
    let second = encode_region(&frame, &region).unwrap();
    assert_eq!(first, second);
}

#[test]
fn zero_sized_region_is_an_encoding_failure() {
    let frame = gradient_frame(4, 4);
    let region = CaptureRegion { x: 1, y: 1, width: 0, height: 2 };
    let r = encode_region(&frame, &region);
    assert!(matches!(r, Err(EncodeError::EncodingFailure(_))));
}

#[test]
fn crop_copies_the_region_pixel_exactly() {
    let frame = gradient_frame(3, 2);
    let region = CaptureRegion { x: 1, y: 0, width: 2, height: 2 };
    let cropped = crop_region(&frame, &region);
    let mut expected: Vec<u8> = Vec::new();
    for y in 0..2u32 {
        for x in 1..3u32 {
            expected.push((x % 256) as u8);
            expected.push((y % 256) as u8);
            expected.push(((x + y) % 256) as u8);
            expected.push(255u8);
        }
    }
    assert_eq!(cropped, expected);
}

#[test]
fn scenario_cold_fasten_then_crop_decodes_to_source() {
    let mut cache = ImageCache::new();
    let frame = cache
        .acquire_frame(&ActionTag::Fasten, Some(Ok(gradient_raw(1920, 1080))))
        .unwrap();
    assert_eq!(frame.width, 1920);
    assert_eq!(frame.height, 1080);
    let region = CaptureRegion { x: 100, y: 100, width: 200, height: 150 };
    let png = encode_region(frame, &region).unwrap();

    let decoded = image::load_from_memory(&png).unwrap().to_rgba8();
    assert_eq!(decoded.width(), 200);
    assert_eq!(decoded.height(), 150);
    for y in 0..150u32 {
        for x in 0..200u32 {
            let px = decoded.get_pixel(x, y).0;
            let sx = x + 100;
            let sy = y + 100;
            assert_eq!(
                px,
                [(sx % 256) as u8, (sy % 256) as u8, ((sx + sy) % 256) as u8, 255u8],
            );
        }
    }
}
