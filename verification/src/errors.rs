//! The failure taxonomy of a screenshot test, and the text each failure
//! renders to.

use vstd::prelude::*;
use vstd::string::StringExecFns;

use crate::raster::Image;

verus! {

/// Errors that occur while loading the reference image or writing the output
/// images.
pub enum IoError {
    /// The artifact destination could not be made ready; carries the location.
    OutputLocationUnavailable(String),
    /// One artifact could not be written; carries its name and the reason.
    FailedWritingScreenshot(String, String),
    /// The reference image does not exist or could not be read.
    FailedLoadingReferenceImage,
}

/// Outcomes of the screenshot comparison other than a match.
pub enum ScreenshotError {
    /// No reference image could be loaded; carries the captured image.
    NoReferenceScreenshot(Image),
    /// The pixel buffers differ; carries the actual and the expected image.
    ScreenshotMismatch(Image, Image),
}

/// Reasons that a screenshot test can fail.
pub enum XrayError {
    Io(IoError),
    CaptureError,
    Screenshot(ScreenshotError),
}

impl XrayError {
    /// Every image carried by this failure satisfies the raster invariant.
    pub open spec fn images_wf(&self) -> bool {
        match self {
            XrayError::Screenshot(ScreenshotError::NoReferenceScreenshot(img)) => img.wf(),
            XrayError::Screenshot(ScreenshotError::ScreenshotMismatch(actual, expected)) => (
                actual.wf() && expected.wf()
            ),
            _ => true,
        }
    }

    /// An artifact-persistence failure: the output location was unavailable,
    /// or one of the diagnostic screenshots could not be written.
    pub open spec fn is_persistence_failure(&self) -> bool {
        ||| self matches XrayError::Io(IoError::OutputLocationUnavailable(_))
        ||| self matches XrayError::Io(IoError::FailedWritingScreenshot(_, _))
    }

    /// The failures a screenshot test surfaces to its caller: a capture
    /// failure, a comparison outcome, or an artifact-persistence failure. A
    /// reference image that fails to load is never surfaced directly; it
    /// becomes a `NoReferenceScreenshot` outcome instead.
    pub open spec fn is_surfaced_failure(&self) -> bool {
        match self {
            XrayError::Io(io_error) => !(io_error is FailedLoadingReferenceImage),
            XrayError::CaptureError => true,
            XrayError::Screenshot(_) => true,
        }
    }

    /// The human-readable text for this failure.
    pub open spec fn message_view(&self) -> Seq<char> {
        match self {
            XrayError::Io(io_error) => match io_error {
                IoError::OutputLocationUnavailable(location) => (
                    "Could not write to output location: "@ + location@
                ),
                IoError::FailedWritingScreenshot(name, reason) => (
                    "Could not write screenshot "@ + name@ + ":\n"@ + reason@
                ),
                IoError::FailedLoadingReferenceImage => (
                    "Reference image could not be loaded or parsed"@
                ),
            },
            XrayError::CaptureError => "Could not take screenshot."@,
            XrayError::Screenshot(screenshot_error) => match screenshot_error {
                ScreenshotError::NoReferenceScreenshot(_) => "No reference screenshot found."@,
                ScreenshotError::ScreenshotMismatch(_, _) => (
                    "Actual screenshot did not match expected screenshot."@
                ),
            },
        }
    }

    /// Renders this failure as the text the panicking wrapper reports.
    pub fn message(&self) -> (r: String)
        ensures
            r@ == self.message_view(),
    {
        match self {
            XrayError::Io(io_error) => match io_error {
                IoError::OutputLocationUnavailable(location) => String::from_str(
                    "Could not write to output location: ",
                ).concat(location.as_str()),
                IoError::FailedWritingScreenshot(name, reason) => String::from_str(
                    "Could not write screenshot ",
                ).concat(name.as_str()).concat(":\n").concat(reason.as_str()),
                IoError::FailedLoadingReferenceImage => String::from_str(
                    "Reference image could not be loaded or parsed",
                ),
            },
            XrayError::CaptureError => String::from_str("Could not take screenshot."),
            XrayError::Screenshot(screenshot_error) => match screenshot_error {
                ScreenshotError::NoReferenceScreenshot(_) => String::from_str(
                    "No reference screenshot found.",
                ),
                ScreenshotError::ScreenshotMismatch(_, _) => String::from_str(
                    "Actual screenshot did not match expected screenshot.",
                ),
            },
        }
    }
}

} // verus!
