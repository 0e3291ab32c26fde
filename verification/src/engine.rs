//! The comparator and the diff engine: exact pixel equality, and the
//! construction of the image that isolates the differing pixels.

use vstd::prelude::*;

use crate::errors::ScreenshotError;
use crate::errors::XrayError;
use crate::raster::Image;
use crate::raster::Pixel;
use crate::raster::transparent_black;

verus! {

/// Two images are equal exactly when their dimensions and their raw pixel
/// buffers agree byte for byte.
pub open spec fn images_equal(a: &Image, b: &Image) -> bool {
    a.width == b.width && a.height == b.height && a.data@ == b.data@
}

/// Compares two byte buffers for equality.
fn bytes_equal(a: &Vec<u8>, b: &Vec<u8>) -> (r: bool)
    ensures
        r == (a@ == b@),
{
    if a.len() != b.len() {
        return false;
    }
    let mut i: usize = 0;
    while i < a.len()
        invariant
            i <= a@.len(),
            a@.len() == b@.len(),
            forall|j: int| 0 <= j < i ==> a@[j] == b@[j],
        decreases a@.len() - i,
    {
        if a[i] != b[i] {
            return false;
        }
        i = i + 1;
    }
    proof {
        assert(a@ =~= b@);
    }
    true
}

/// Decides a screenshot test: success exactly when the reference and the
/// actual image have identical dimensions and identical pixel buffers, byte
/// for byte; any single differing byte anywhere is a mismatch. There is no
/// tolerance and no perceptual distance. A mismatch carries the actual image
/// first and the reference image second.
pub fn compare_screenshot_images(reference_image: Image, actual_image: Image) -> (r: Result<
    (),
    XrayError,
>)
    ensures
        r is Ok <==> images_equal(&reference_image, &actual_image),
        r matches Err(e) ==> (e == XrayError::Screenshot(
            ScreenshotError::ScreenshotMismatch(actual_image, reference_image),
        )),
{
    if reference_image.width == actual_image.width
        && reference_image.height == actual_image.height
        && bytes_equal(&reference_image.data, &actual_image.data) {
        Ok(())
    } else {
        Err(
            XrayError::Screenshot(
                ScreenshotError::ScreenshotMismatch(actual_image, reference_image),
            ),
        )
    }
}

/// The pixel the diff engine compares `actual` against at `(x, y)`: the
/// expected image's pixel inside its bounds, fully transparent black outside.
pub open spec fn expected_pixel(expected: &Image, x: int, y: int) -> Pixel {
    if expected.spec_in_bounds(x, y) {
        expected.pixel_at(x, y)
    } else {
        transparent_black()
    }
}

/// The diff image's pixel at `(x, y)`: fully transparent black where `actual`
/// agrees with the (possibly synthesized) expected pixel, and `actual`'s own
/// pixel, unmodified, where the two differ.
pub open spec fn diff_pixel(actual: &Image, expected: &Image, x: int, y: int) -> Pixel {
    if actual.pixel_at(x, y) == expected_pixel(expected, x, y) {
        transparent_black()
    } else {
        actual.pixel_at(x, y)
    }
}

/// The four bytes of pixel `(x, y)` in `data`, laid out for an image of
/// `actual`'s width, encode the diff pixel at that coordinate.
spec fn emitted(data: Seq<u8>, actual: &Image, expected: &Image, x: int, y: int) -> bool {
    let base = 4 * (y * actual.width + x);
    &&& data[base] == diff_pixel(actual, expected, x, y).r
    &&& data[base + 1] == diff_pixel(actual, expected, x, y).g
    &&& data[base + 2] == diff_pixel(actual, expected, x, y).b
    &&& data[base + 3] == diff_pixel(actual, expected, x, y).a
}

/// In row-major order, an earlier coordinate has a smaller linear index.
proof fn lemma_row_major_order(width: int, x0: int, y0: int, x1: int, y1: int)
    by (nonlinear_arith)
    requires
        0 <= x0 < width,
        0 <= x1,
        0 <= y0,
        y0 < y1 || (y0 == y1 && x0 < x1),
    ensures
        y0 * width + x0 < y1 * width + x1,
{
}

/// Creates an image diff between two images.
///
/// The output has exactly the dimensions of `actual`. Every pixel of `actual`
/// is compared against the pixel of `expected` at the same coordinate; where
/// `expected` is smaller in either dimension, pixels of `actual` outside
/// `expected`'s bounds are compared against fully transparent black. Where the
/// two agree the output pixel is fully transparent black; where they differ
/// the output pixel is `actual`'s pixel, with its color and alpha preserved.
#[verifier::loop_isolation(false)]
pub fn diff_images(actual: &Image, expected: &Image) -> (r: Image)
    requires
        actual.wf(),
        expected.wf(),
    ensures
        r.wf(),
        r.width == actual.width,
        r.height == actual.height,
        forall|x: int, y: int|
            actual.spec_in_bounds(x, y) ==> r.pixel_at(x, y) == diff_pixel(actual, expected, x, y),
{
    let mut data: Vec<u8> = Vec::new();
    let mut y: u32 = 0;
    while y < actual.height
        invariant
            y <= actual.height,
            data@.len() == 4 * ((y as int) * (actual.width as int)),
            forall|xx: int, yy: int|
                0 <= xx < actual.width && 0 <= yy < y ==> #[trigger] emitted(
                    data@,
                    actual,
                    expected,
                    xx,
                    yy,
                ),
        decreases actual.height - y,
    {
        let mut x: u32 = 0;
        while x < actual.width
            invariant
                y < actual.height,
                x <= actual.width,
                data@.len() == 4 * ((y as int) * (actual.width as int) + (x as int)),
                forall|xx: int, yy: int|
                    0 <= xx < actual.width && 0 <= yy < y ==> #[trigger] emitted(
                        data@,
                        actual,
                        expected,
                        xx,
                        yy,
                    ),
                forall|xx: int|
                    0 <= xx < x ==> #[trigger] emitted(data@, actual, expected, xx, y as int),
            decreases actual.width - x,
        {
            let ghost prev = data@;
            let actual_pixel = actual.get_pixel(x, y);
            let expected_px = if expected.in_bounds(x, y) {
                expected.get_pixel(x, y)
            } else {
                Pixel::transparent()
            };
            let out = if actual_pixel == expected_px {
                Pixel::transparent()
            } else {
                actual_pixel
            };
            data.push(out.r);
            data.push(out.g);
            data.push(out.b);
            data.push(out.a);
            proof {
                assert(out == diff_pixel(actual, expected, x as int, y as int));
                assert(emitted(data@, actual, expected, x as int, y as int));
                assert forall|xx: int, yy: int|
                    0 <= xx < actual.width && 0 <= yy < y implies #[trigger] emitted(
                    data@,
                    actual,
                    expected,
                    xx,
                    yy,
                ) by {
                    lemma_row_major_order(actual.width as int, xx, yy, x as int, y as int);
                    assert(emitted(prev, actual, expected, xx, yy));
                }
                assert forall|xx: int| 0 <= xx < x implies #[trigger] emitted(
                    data@,
                    actual,
                    expected,
                    xx,
                    y as int,
                ) by {
                    lemma_row_major_order(actual.width as int, xx, y as int, x as int, y as int);
                    assert(emitted(prev, actual, expected, xx, y as int));
                }
            }
            x = x + 1;
        }
        proof {
            assert((y as int + 1) * (actual.width as int) == (y as int) * (actual.width as int)
                + (actual.width as int)) by (nonlinear_arith);
        }
        y = y + 1;
    }
    let r = Image { width: actual.width, height: actual.height, data };
    proof {
        assert(4 * ((actual.height as int) * (actual.width as int)) == (actual.width as int) * (
        actual.height as int) * 4) by (nonlinear_arith);
        assert(r.wf());
        assert forall|x: int, y: int| actual.spec_in_bounds(x, y) implies r.pixel_at(x, y)
            == diff_pixel(actual, expected, x, y) by {
            assert(emitted(r.data@, actual, expected, x, y));
        }
    }
    r
}

/// Diffing an image against itself leaves every pixel fully transparent black.
pub proof fn lemma_diff_self(a: &Image)
    ensures
        forall|x: int, y: int|
            a.spec_in_bounds(x, y) ==> #[trigger] diff_pixel(a, a, x, y) == transparent_black(),
{
}

/// On images of equal dimensions, the diff marks exactly the differing
/// coordinates: a differing pixel keeps `actual`'s value (and so is not
/// transparent wherever `actual`'s own pixel is not transparent black), and an
/// agreeing pixel comes out fully transparent black.
pub proof fn lemma_diff_marks_differences(actual: &Image, expected: &Image, x: int, y: int)
    requires
        actual.width == expected.width,
        actual.height == expected.height,
        actual.spec_in_bounds(x, y),
    ensures
        actual.pixel_at(x, y) != expected.pixel_at(x, y) ==> diff_pixel(actual, expected, x, y)
            == actual.pixel_at(x, y),
        actual.pixel_at(x, y) == expected.pixel_at(x, y) ==> diff_pixel(actual, expected, x, y)
            == transparent_black(),
{
}

/// Where the expected image is smaller than the actual one in either
/// dimension, every pixel of `actual` outside the expected image's bounds is
/// treated as differing against fully transparent black, so the diff carries
/// `actual`'s own pixel value there.
pub proof fn lemma_diff_outside_expected(actual: &Image, expected: &Image, x: int, y: int)
    requires
        actual.spec_in_bounds(x, y),
        !expected.spec_in_bounds(x, y),
    ensures
        diff_pixel(actual, expected, x, y) == actual.pixel_at(x, y),
{
}

} // verus!
