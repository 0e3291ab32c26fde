//! The orchestrator: sequences capture, reference load, comparison, and — on
//! any failure outcome — artifact persistence through the storage port.

use vstd::prelude::*;

use crate::engine::compare_screenshot_images;
use crate::engine::diff_images;
use crate::engine::images_equal;
use crate::errors::ScreenshotError;
use crate::errors::XrayError;
use crate::ports::ScreenshotCaptor;
use crate::ports::ScreenshotIo;

verus! {

/// Persists the diagnostic artifacts for a failure outcome and surfaces the
/// final error.
///
/// `prepare_output` runs first; if it fails, its error supersedes the outcome
/// and nothing is written. Then, for a missing reference, only the captured
/// screenshot is written; for a mismatch, the expected, the actual and the
/// diff image are written, in that order. The writes are best effort: each is
/// attempted even when an earlier one failed, and the first write failure is
/// surfaced as the final error, superseding the outcome that triggered the
/// persistence.
fn handle_screenshot_error<S: ScreenshotIo>(screenshot_io: S, screenshot_error: XrayError) -> (r:
    Result<(), XrayError>)
    requires
        screenshot_error.images_wf(),
    ensures
        r is Err,
        r matches Err(e) ==> e == screenshot_error || e.is_persistence_failure(),
{
    if let Err(e) = screenshot_io.prepare_output() {
        return Err(e);
    }
    let mut first_failure: Option<XrayError> = None;
    match &screenshot_error {
        XrayError::Screenshot(ScreenshotError::NoReferenceScreenshot(img)) => {
            if let Err(e) = screenshot_io.write_actual(img) {
                first_failure = Some(e);
            }
        },
        XrayError::Screenshot(ScreenshotError::ScreenshotMismatch(actual, expected)) => {
            if let Err(e) = screenshot_io.write_expected(expected) {
                first_failure = Some(e);
            }
            if let Err(e) = screenshot_io.write_actual(actual) {
                if first_failure.is_none() {
                    first_failure = Some(e);
                }
            }
            let diff = diff_images(actual, expected);
            if let Err(e) = screenshot_io.write_diff(&diff) {
                if first_failure.is_none() {
                    first_failure = Some(e);
                }
            }
        },
        _ => {},
    }
    match first_failure {
        Some(e) => Err(e),
        None => Err(screenshot_error),
    }
}

/// Tests the rendered image against the reference screenshot and returns
/// `Ok(())` exactly when the captured region matches the stored reference.
///
/// The test image is captured through `screenshot_captor`, the reference is
/// loaded through `screenshot_io`, and the two must agree byte for byte. On a
/// capture failure the error is returned at once and no artifact persistence
/// is attempted. When the reference cannot be loaded, or the images differ,
/// the diagnostic artifacts are persisted through `screenshot_io` and the
/// failure outcome — or the first artifact I/O error, which supersedes it —
/// is returned.
pub fn screenshot_test<S: ScreenshotIo, C: ScreenshotCaptor>(
    screenshot_io: S,
    screenshot_captor: C,
    x: i32,
    y: i32,
    width: u32,
    height: u32,
) -> (r: Result<(), XrayError>)
    ensures
        r matches Err(e) ==> e.is_surfaced_failure(),
        r matches Err(XrayError::Screenshot(ScreenshotError::NoReferenceScreenshot(img)))
            ==> img.width == width && img.height == height,
        r matches Err(XrayError::Screenshot(ScreenshotError::ScreenshotMismatch(actual, expected)))
            ==> actual.width == width && actual.height == height && !images_equal(
            &expected,
            &actual,
        ),
{
    let captured_image = match screenshot_captor.capture_image(x, y, width, height) {
        Ok(img) => img,
        Err(e) => {
            return Err(e);
        },
    };
    let outcome: Result<(), XrayError> = match screenshot_io.load_reference() {
        Ok(reference_image) => compare_screenshot_images(reference_image, captured_image),
        Err(_) => Err(
            XrayError::Screenshot(ScreenshotError::NoReferenceScreenshot(captured_image)),
        ),
    };
    match outcome {
        Ok(()) => Ok(()),
        Err(screenshot_error) => handle_screenshot_error(screenshot_io, screenshot_error),
    }
}

/// Whether `message` is the rendered text of some failure a screenshot test
/// can surface.
pub open spec fn is_failure_message(message: Seq<char>) -> bool {
    exists|e: XrayError| e.is_surfaced_failure() && message == #[trigger] e.message_view()
}

/// Runs one full screenshot test and reports the outcome the way the
/// convenience entry point does: `None` on a match, and on any failure the
/// human-readable message that the panicking wrapper in the application crate
/// aborts with. The OpenGL-backed captor and the filesystem-backed storage
/// that the name refers to live in the application crate and come in through
/// the two ports; any other pair of adapters serves equally.
pub fn gl_screenshot_test<S: ScreenshotIo, C: ScreenshotCaptor>(
    screenshot_io: S,
    screenshot_captor: C,
    x: i32,
    y: i32,
    width: u32,
    height: u32,
) -> (r: Option<String>)
    ensures
        r matches Some(message) ==> is_failure_message(message@),
{
    match screenshot_test(screenshot_io, screenshot_captor, x, y, width, height) {
        Ok(()) => None,
        Err(screenshot_error) => {
            let message = screenshot_error.message();
            proof {
                assert(screenshot_error.is_surfaced_failure() && message@
                    == screenshot_error.message_view());
            }
            Some(message)
        },
    }
}

} // verus!
