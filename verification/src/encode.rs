use vstd::prelude::*;

use crate::errors::EncodeError;
use crate::frame::{region_in_bounds, spec_region_in_bounds, CaptureRegion, Frame, FrameModel};

verus! {

/// The exact PNG bytes that the pinned image library's PNG encoder, at its
/// default settings, produces for an RGBA image of the given dimensions and
/// pixel bytes.  The output is a function of these arguments alone.
pub uninterp spec fn spec_png_bytes(width: nat, height: nat, pixels: Seq<u8>) -> Seq<u8>;

/// The bytes of one cropped row: four bytes per pixel for `width` pixels,
/// starting at column `x` of row `row` of a frame `frame_width` pixels wide.
pub open spec fn spec_row_bytes(
    pixels: Seq<u8>,
    frame_width: nat,
    x: nat,
    row: nat,
    width: nat,
) -> Seq<u8> {
    pixels.subrange(
        (4 * (row * frame_width + x)) as int,
        (4 * (row * frame_width + x) + 4 * width) as int,
    )
}

/// The pixel bytes of the `width` by `height` sub-rectangle at `(x, y)` of a
/// frame `frame_width` pixels wide: its rows, top to bottom, each taken
/// pixel-exactly from the frame.
pub open spec fn spec_crop(
    pixels: Seq<u8>,
    frame_width: nat,
    x: nat,
    y: nat,
    width: nat,
    height: nat,
) -> Seq<u8>
    decreases height,
{
    if height == 0 {
        Seq::empty()
    } else {
        spec_crop(pixels, frame_width, x, y, width, (height - 1) as nat) + spec_row_bytes(
            pixels,
            frame_width,
            x,
            (y + height - 1) as nat,
            width,
        )
    }
}

/// A row that lies within the frame occupies bytes inside the frame's pixel
/// data.
proof fn lemma_row_in_frame(frame_width: nat, frame_height: nat, x: nat, width: nat, row: nat)
    requires
        x + width <= frame_width,
        row < frame_height,
    ensures
        4 * (row * frame_width + x) + 4 * width <= 4 * frame_width * frame_height,
{
    assert(4 * (row * frame_width + x) + 4 * width <= 4 * frame_width * frame_height)
        by (nonlinear_arith)
        requires
            x + width <= frame_width,
            row < frame_height,
            0 <= row,
            0 <= frame_width,
    ;
}

/// A crop of an in-bounds region holds exactly four bytes per pixel of the
/// region.
pub proof fn lemma_crop_len(
    pixels: Seq<u8>,
    frame_width: nat,
    frame_height: nat,
    x: nat,
    y: nat,
    width: nat,
    height: nat,
)
    requires
        pixels.len() == 4 * frame_width * frame_height,
        x + width <= frame_width,
        y + height <= frame_height,
    ensures
        spec_crop(pixels, frame_width, x, y, width, height).len() == 4 * width * height,
    decreases height,
{
    if height > 0 {
        let hm1: nat = (height - 1) as nat;
        lemma_crop_len(pixels, frame_width, frame_height, x, y, width, hm1);
        lemma_row_in_frame(frame_width, frame_height, x, width, (y + height - 1) as nat);
        assert((spec_crop(pixels, frame_width, x, y, width, hm1) + spec_row_bytes(
            pixels,
            frame_width,
            x,
            (y + height - 1) as nat,
            width,
        )).len() == 4 * width * hm1 + 4 * width);
        assert(4 * width * hm1 + 4 * width == 4 * width * height) by (nonlinear_arith)
            requires
                hm1 + 1 == height,
        ;
    } else {
        assert(4 * width * height == 0) by (nonlinear_arith)
            requires
                height == 0,
        ;
    }
}

/// Byte `channel` of the cropped pixel at column `col` of row `row` is byte
/// `channel` of the frame pixel at column `x + col` of row `y + row`.
proof fn lemma_crop_point(
    pixels: Seq<u8>,
    frame_width: nat,
    frame_height: nat,
    x: nat,
    y: nat,
    width: nat,
    height: nat,
    col: nat,
    row: nat,
    channel: nat,
)
    requires
        pixels.len() == 4 * frame_width * frame_height,
        x + width <= frame_width,
        y + height <= frame_height,
        col < width,
        row < height,
        channel < 4,
    ensures
        spec_crop(pixels, frame_width, x, y, width, height)[(4 * (row * width + col)
            + channel) as int] == pixels[(4 * ((y + row) * frame_width + (x + col))
            + channel) as int],
    decreases height,
{
    let hm1: nat = (height - 1) as nat;
    let last: nat = (y + height - 1) as nat;
    lemma_crop_len(pixels, frame_width, frame_height, x, y, width, hm1);
    let left = spec_crop(pixels, frame_width, x, y, width, hm1);
    let rb = spec_row_bytes(pixels, frame_width, x, last, width);
    let idx: int = (4 * (row * width + col) + channel) as int;
    if row + 1 == height {
        lemma_row_in_frame(frame_width, frame_height, x, width, last);
        assert(idx - left.len() == 4 * col + channel) by (nonlinear_arith)
            requires
                idx == 4 * (row * width + col) + channel,
                left.len() == 4 * width * hm1,
                row == hm1,
        ;
        assert(rb[(4 * col + channel) as int] == pixels[(4 * (last * frame_width + x) + (4 * col
            + channel)) as int]);
        assert(4 * (last * frame_width + x) + (4 * col + channel) == 4 * ((y + row) * frame_width
            + (x + col)) + channel) by (nonlinear_arith)
            requires
                last == y + row,
        ;
    } else {
        lemma_crop_point(pixels, frame_width, frame_height, x, y, width, hm1, col, row, channel);
        assert(idx < left.len()) by (nonlinear_arith)
            requires
                idx == 4 * (row * width + col) + channel,
                left.len() == 4 * width * hm1,
                row < hm1,
                col < width,
                channel < 4,
                0 <= row,
                0 <= col,
        ;
    }
}

/// Pixel-exactness of the crop: every byte of every pixel of an in-bounds
/// cropped region is the corresponding byte of the frame pixel at the
/// region's offset, with no resampling and no blending.
pub proof fn lemma_cropped_pixel(
    frame: FrameModel,
    region: CaptureRegion,
    col: nat,
    row: nat,
    channel: nat,
)
    requires
        frame.wf(),
        spec_region_in_bounds(region, frame.width, frame.height),
        col < region.width,
        row < region.height,
        channel < 4,
    ensures
        spec_crop(
            frame.pixels,
            frame.width,
            region.x as nat,
            region.y as nat,
            region.width as nat,
            region.height as nat,
        )[(4 * (row * region.width + col) + channel) as int] == frame.byte_at(
            region.x + col,
            region.y + row,
            channel as int,
        ),
{
    lemma_crop_point(
        frame.pixels,
        frame.width,
        frame.height,
        region.x as nat,
        region.y as nat,
        region.width as nat,
        region.height as nat,
        col,
        row,
        channel,
    );
}

/// Copy the region's pixel bytes out of the frame, row by row, pixel-exactly
/// and without resampling.
pub fn crop_region(frame: &Frame, region: &CaptureRegion) -> (out: Vec<u8>)
    requires
        frame.wf(),
        spec_region_in_bounds(*region, frame@.width, frame@.height),
    ensures
        out@ == spec_crop(
            frame@.pixels,
            frame@.width,
            region.x as nat,
            region.y as nat,
            region.width as nat,
            region.height as nat,
        ),
{
    let mut out: Vec<u8> = Vec::new();
    let mut row: usize = 0;
    let h = region.height as usize;
    while row < h
        invariant
            frame.wf(),
            spec_region_in_bounds(*region, frame@.width, frame@.height),
            h == region.height as usize,
            row <= h,
            out@ == spec_crop(
                frame@.pixels,
                frame@.width,
                region.x as nat,
                region.y as nat,
                region.width as nat,
                row as nat,
            ),
        decreases h - row,
    {
        let sy: usize = region.y as usize + row;
        let total: usize = frame.pixels.len();
        proof {
            assert(total == frame@.pixels.len());
            assert((frame.width as usize) == frame@.width);
            assert((sy as int) == region.y + row);
            assert(frame@.pixels.len() == 4 * frame@.width * frame@.height);
            assert(0 <= (sy as int) * (frame@.width as int) && 4 * ((sy as int) * (
            frame@.width as int) + region.x) + 4 * region.width <= 4 * frame@.width
                * frame@.height) by (nonlinear_arith)
                requires
                    region.x + region.width <= frame@.width as int,
                    (sy as int) < frame@.height as int,
                    0 <= sy as int,
                    0 <= frame@.width as int,
            ;
        }
        let base: usize = 4 * (sy * (frame.width as usize) + region.x as usize);
        let row_len: usize = 4 * (region.width as usize);
        proof {
            assert(base == 4 * ((region.y + row) * frame@.width + region.x));
            assert(base + row_len <= frame@.pixels.len());
        }
        let ghost rb = spec_row_bytes(
            frame@.pixels,
            frame@.width,
            region.x as nat,
            (region.y + row) as nat,
            region.width as nat,
        );
        let ghost pre = out@;
        let mut j: usize = 0;
        while j < row_len
            invariant
                frame.wf(),
                j <= row_len,
                base == 4 * ((region.y + row) * frame@.width + region.x),
                row_len == 4 * region.width,
                base + row_len <= frame@.pixels.len(),
                frame@.pixels.len() <= usize::MAX,
                rb == spec_row_bytes(
                    frame@.pixels,
                    frame@.width,
                    region.x as nat,
                    (region.y + row) as nat,
                    region.width as nat,
                ),
                out@ == pre + rb.take(j as int),
            decreases row_len - j,
        {
            proof {
                assert(rb.take(j as int + 1) =~= rb.take(j as int).push(rb[j as int]));
                assert(pre + rb.take(j as int + 1) =~= (pre + rb.take(j as int)).push(
                    rb[j as int],
                ));
            }
            out.push(frame.pixels[base + j]);
            j = j + 1;
        }
        proof {
            assert(rb.take(row_len as int) =~= rb);
            assert(out@ == pre + rb);
        }
        row = row + 1;
    }
    out
}

/// Relies on `image::codecs::png::PngEncoder` with the `write_image` method
/// of `image::ImageEncoder`: it losslessly encodes an RGBA8 buffer whose
/// length matches the dimensions into an in-memory vector, its output
/// depending on the dimensions and pixel bytes alone.  With nonzero
/// dimensions the call cannot fail: every write lands in an in-memory
/// vector and the only validations — buffer length, color combination,
/// nonzero dimensions — are satisfied; a zero-width or zero-height image is
/// rejected by the underlying PNG writer with an error.
#[verifier::external_body]
fn png_encode_rgba(width: u32, height: u32, pixels: &Vec<u8>) -> (r: Result<Vec<u8>, String>)
    requires
        pixels@.len() == 4 * width * height,
    ensures
        r matches Ok(b) ==> b@ == spec_png_bytes(width as nat, height as nat, pixels@),
        width > 0 && height > 0 ==> r is Ok,
        width == 0 || height == 0 ==> r is Err,
{
    let mut out: Vec<u8> = Vec::new();
    let encoder = image::codecs::png::PngEncoder::new(&mut out);
    let res = image::ImageEncoder::write_image(
        encoder,
        pixels.as_slice(),
        width,
        height,
        image::ExtendedColorType::Rgba8,
    );
    match res {
        Ok(()) => Ok(out),
        Err(e) => Err(e.to_string()),
    }
}

/// The PNG bytes that an in-bounds region of a frame encodes to: the
/// pixel-exact crop of the region, PNG-encoded at the region's dimensions.
pub open spec fn spec_encoded_region(frame: FrameModel, region: CaptureRegion) -> Seq<u8> {
    spec_png_bytes(
        region.width as nat,
        region.height as nat,
        spec_crop(
            frame.pixels,
            frame.width,
            region.x as nat,
            region.y as nat,
            region.width as nat,
            region.height as nat,
        ),
    )
}

/// Crop the region out of the frame and encode it losslessly as RGBA PNG,
/// preserving the full alpha channel.  A region that does not lie within the
/// frame's bounds fails with `RegionOutOfBounds` — and only such a region
/// does; no encoding is attempted for it.  An in-bounds region of nonzero
/// size always succeeds, with exactly the region's own PNG encoding; an
/// in-bounds region of zero width or height is rejected by the PNG encoder
/// and fails with `EncodingFailure`.
pub fn encode_region(frame: &Frame, region: &CaptureRegion) -> (r: Result<Vec<u8>, EncodeError>)
    requires
        frame.wf(),
    ensures
        (r matches Err(e) && e is RegionOutOfBounds) <==> !spec_region_in_bounds(
            *region,
            frame@.width,
            frame@.height,
        ),
        spec_region_in_bounds(*region, frame@.width, frame@.height) && region.width > 0
            && region.height > 0 ==> (r matches Ok(b) && b@ == spec_encoded_region(
            frame@,
            *region,
        )),
        spec_region_in_bounds(*region, frame@.width, frame@.height) && (region.width == 0
            || region.height == 0) ==> (r matches Err(e) && e is EncodingFailure),
{
    if !region_in_bounds(region, frame) {
        return Err(EncodeError::RegionOutOfBounds);
    }
    let cropped = crop_region(frame, region);
    proof {
        lemma_crop_len(
            frame@.pixels,
            frame@.width,
            frame@.height,
            region.x as nat,
            region.y as nat,
            region.width as nat,
            region.height as nat,
        );
    }
    match png_encode_rgba(region.width, region.height, &cropped) {
        Result::Ok(b) => Result::Ok(b),
        Result::Err(detail) => Result::Err(EncodeError::EncodingFailure(detail)),
    }
}

/// Determinism of encoding: the same frame and the same region always yield
/// byte-identical PNG output.
pub proof fn lemma_encode_deterministic(
    frame: FrameModel,
    region: CaptureRegion,
    b1: Seq<u8>,
    b2: Seq<u8>,
)
    requires
        b1 == spec_encoded_region(frame, region),
        b2 == spec_encoded_region(frame, region),
    ensures
        b1 == b2,
{
}

} // verus!
