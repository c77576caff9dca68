use shotcache::action::ActionTag;
use shotcache::cache::ImageCache;
use shotcache::errors::CaptureError;
use shotcache::frame::RawCapture;

fn patterned_raw(width: u32, height: u32, seed: u8) -> RawCapture {
    let mut pixels = Vec::with_capacity((4 * width * height) as usize);
    for y in 0..height {
        for x in 0..width {
            pixels.push((x % 256) as u8);
            pixels.push((y % 256) as u8);
            pixels.push(seed);
            pixels.push(255u8);
        }
    }
    RawCapture { width, height, pixels }
}

/// Serve one request the way a host would: consult the cache's decision and
/// invoke the (simulated) provider only when told to, counting invocations.
fn serve(cache: &mut ImageCache, tag: ActionTag, seed: u8, captures: &mut u32) -> Vec<u8> {
    let capture = if cache.needs_refresh(&tag) {
        *captures += 1;
        Some(Ok(patterned_raw(8, 4, seed)))
    } else {
        None
    };
    cache.acquire_frame(&tag, capture).unwrap().pixels.clone()
}

#[test]
fn cache_reuse_captures_once() {
    let mut cache = ImageCache::new();
    let mut captures: u32 = 0;
    let first = serve(&mut cache, ActionTag::Init, 7, &mut captures);
    let second = serve(&mut cache, ActionTag::Fasten, 8, &mut captures);
    let third = serve(&mut cache, ActionTag::Fasten, 9, &mut captures);
    assert_eq!(captures, 1);
    assert_eq!(first, second);
    assert_eq!(second, third);
}

#[test]
fn forced_refresh_captures_twice_and_replaces() {
    let mut cache = ImageCache::new();
    let mut captures: u32 = 0;
    let first = serve(&mut cache, ActionTag::Init, 1, &mut captures);
    let second = serve(&mut cache, ActionTag::Init, 2, &mut captures);
    assert_eq!(captures, 2);
    assert_ne!(first, second);
    let cached = serve(&mut cache, ActionTag::Fasten, 3, &mut captures);
    assert_eq!(captures, 2);
    assert_eq!(cached, second);
}

#[test]
fn cold_start_fasten_captures_once_like_init() {
    let mut cache = ImageCache::new();
    let mut captures: u32 = 0;
    let via_fasten = serve(&mut cache, ActionTag::Fasten, 5, &mut captures);
    assert_eq!(captures, 1);

    let mut other = ImageCache::new();
    let mut other_captures: u32 = 0;
    let via_init = serve(&mut other, ActionTag::Init, 5, &mut other_captures);
    assert_eq!(other_captures, 1);
    assert_eq!(via_fasten, via_init);
    assert!(cache.occupied() && other.occupied());
}

#[test]
fn acquired_frame_has_display_dimensions() {
    let mut cache = ImageCache::new();
    let raw = patterned_raw(1920, 1080, 0);
    let frame = cache.acquire_frame(&ActionTag::Fasten, Some(Ok(raw))).unwrap();
    assert_eq!(frame.width, 1920);
    assert_eq!(frame.height, 1080);
    assert_eq!(frame.pixels.len(), 4 * 1920 * 1080);
}

#[test]
fn ill_shaped_raw_data_is_rejected() {
    let mut cache = ImageCache::new();
    let raw = RawCapture { width: 2, height: 2, pixels: vec![0u8; 15] };
    let r = cache.acquire_frame(&ActionTag::Init, Some(Ok(raw)));
    assert!(matches!(r, Err(CaptureError::BufferConstructionFailure)));
    assert!(!cache.occupied());
}

#[test]
fn provider_failure_propagates_and_leaves_slot() {
    let mut cache = ImageCache::new();
    let r = cache.acquire_frame(
        &ActionTag::Init,
        Some(Err(CaptureError::ProviderFailure(String::from("capture device busy")))),
    );
    match r {
        Err(CaptureError::ProviderFailure(d)) => assert_eq!(d, "capture device busy"),
        _ => panic!("expected a provider failure"),
    }
    assert!(!cache.occupied());
}

#[test]
fn no_screen_found_propagates() {
    let mut cache = ImageCache::new();
    let r = cache.acquire_frame(&ActionTag::Fasten, Some(Err(CaptureError::NoScreenFound)));
    assert!(matches!(r, Err(CaptureError::NoScreenFound)));
    assert_eq!(r.unwrap_err().message(), "Screen not found");
}
