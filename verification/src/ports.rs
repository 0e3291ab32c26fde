//! The capture and storage ports the orchestrator runs against, and the
//! filesystem path layout of the default storage adapter.

use vstd::prelude::*;
use vstd::string::StringExecFns;

use crate::errors::IoError;
use crate::errors::XrayError;
use crate::raster::Image;

verus! {

/// Loads reference images for comparison and stores image output in the event
/// of a failed test.
///
/// Every operation reports failures through the I/O family of [`XrayError`]:
/// the contracts pin which variant each operation may fail with, and that a
/// loaded reference satisfies the raster invariant. The storage mechanism
/// itself is the implementer's choice: a filesystem adapter built on
/// [`FsScreenshotIo`]'s path layout lives in the companion application crate,
/// and in-memory implementations serve as test doubles.
pub trait ScreenshotIo {
    /// Performs any work needed to prepare to store output (e.g. creating
    /// directories). Called once per test, before any output is written; it
    /// must be safely callable more than once.
    fn prepare_output(&self) -> (r: Result<(), XrayError>)
        ensures
            r matches Err(e) ==> e matches XrayError::Io(IoError::OutputLocationUnavailable(_)),
    ;

    /// Loads the reference image the test compares against. A failure means
    /// "no baseline exists or it is unreadable", which the orchestrator turns
    /// into a `NoReferenceScreenshot` outcome rather than a hard error.
    fn load_reference(&self) -> (r: Result<Image, XrayError>)
        ensures
            r matches Ok(img) ==> img.wf(),
            r matches Err(e) ==> e == XrayError::Io(IoError::FailedLoadingReferenceImage),
    ;

    /// Writes out the screenshot taken during a failed test.
    fn write_actual(&self, image: &Image) -> (r: Result<(), XrayError>)
        ensures
            r matches Err(e) ==> e matches XrayError::Io(IoError::FailedWritingScreenshot(_, _)),
    ;

    /// Writes out the screenshot the test expected: a copy of the reference.
    fn write_expected(&self, image: &Image) -> (r: Result<(), XrayError>)
        ensures
            r matches Err(e) ==> e matches XrayError::Io(IoError::FailedWritingScreenshot(_, _)),
    ;

    /// Writes out the image holding only those pixels of the newly captured
    /// screenshot that differ from the reference.
    fn write_diff(&self, image: &Image) -> (r: Result<(), XrayError>)
        ensures
            r matches Err(e) ==> e matches XrayError::Io(IoError::FailedWritingScreenshot(_, _)),
    ;
}

/// Captures a region of the screen for comparison against a reference image.
pub trait ScreenshotCaptor {
    /// Takes a screenshot of the area `(x, y, x + width, y + height)`. A
    /// captured image has exactly the requested dimensions; when the
    /// underlying capture mechanism reports an error the result is
    /// `CaptureError`, and the capture is not retried.
    fn capture_image(&self, x: i32, y: i32, width: u32, height: u32) -> (r: Result<
        Image,
        XrayError,
    >)
        ensures
            r matches Ok(img) ==> img.wf() && img.width == width && img.height == height,
            r matches Err(e) ==> e == XrayError::CaptureError,
    ;
}

/// The path layout of the filesystem storage adapter. All images are PNG.
///
/// The reference image for a test is looked for at
/// `<references_path>/<test_name>.png`; output images are written to
/// `<output_path>/<test_name>/actual.png` (the screenshot taken during the
/// test), `expected.png` (a copy of the reference image) and `diff.png` (the
/// differing pixels). A test name may contain slashes to address
/// subdirectories. This type computes the layout; reading and writing the
/// files themselves is the adapter's work, in the companion application crate.
pub struct FsScreenshotIo {
    references_path: String,
    output_path: String,
    test_name: String,
}

impl FsScreenshotIo {
    /// The directory reference images are loaded from.
    pub closed spec fn spec_references_path(&self) -> Seq<char> {
        self.references_path@
    }

    /// The directory artifact output is written under.
    pub closed spec fn spec_output_path(&self) -> Seq<char> {
        self.output_path@
    }

    /// The identity of the test, keying both layouts.
    pub closed spec fn spec_test_name(&self) -> Seq<char> {
        self.test_name@
    }

    /// Builds a layout rooted at the given reference and output directories.
    pub fn new(test_name: &str, references_path: &str, output_path: &str) -> (r: FsScreenshotIo)
        ensures
            r.spec_test_name() == test_name@,
            r.spec_references_path() == references_path@,
            r.spec_output_path() == output_path@,
    {
        FsScreenshotIo {
            references_path: String::from_str(references_path),
            output_path: String::from_str(output_path),
            test_name: String::from_str(test_name),
        }
    }

    /// The default layout: reference images under `references/`, artifacts
    /// under `test_output/`, both at the top level of the crate under test.
    pub fn default(test_name: &str) -> (r: FsScreenshotIo)
        ensures
            r.spec_test_name() == test_name@,
            r.spec_references_path() == "references"@,
            r.spec_output_path() == "test_output"@,
    {
        FsScreenshotIo::new(test_name, "references", "test_output")
    }

    /// Where the reference image for this test lives.
    pub fn reference_path(&self) -> (r: String)
        ensures
            r@ == self.spec_references_path() + "/"@ + self.spec_test_name() + ".png"@,
    {
        String::from_str(self.references_path.as_str()).concat("/").concat(
            self.test_name.as_str(),
        ).concat(".png")
    }

    /// The directory that receives this test's artifacts.
    pub fn output_dir(&self) -> (r: String)
        ensures
            r@ == self.spec_output_path() + "/"@ + self.spec_test_name(),
    {
        String::from_str(self.output_path.as_str()).concat("/").concat(self.test_name.as_str())
    }

    /// Where one named artifact of this test is written.
    pub fn artifact_path(&self, name: &str) -> (r: String)
        ensures
            r@ == self.spec_output_path() + "/"@ + self.spec_test_name() + "/"@ + name@,
    {
        self.output_dir().concat("/").concat(name)
    }

    /// Where the screenshot taken during the test is written.
    pub fn actual_path(&self) -> (r: String)
        ensures
            r@ == self.spec_output_path() + "/"@ + self.spec_test_name() + "/"@ + "actual.png"@,
    {
        self.artifact_path("actual.png")
    }

    /// Where the copy of the reference image is written.
    pub fn expected_path(&self) -> (r: String)
        ensures
            r@ == self.spec_output_path() + "/"@ + self.spec_test_name() + "/"@ + "expected.png"@,
    {
        self.artifact_path("expected.png")
    }

    /// Where the image of the differing pixels is written.
    pub fn diff_path(&self) -> (r: String)
        ensures
            r@ == self.spec_output_path() + "/"@ + self.spec_test_name() + "/"@ + "diff.png"@,
    {
        self.artifact_path("diff.png")
    }
}

} // verus!
