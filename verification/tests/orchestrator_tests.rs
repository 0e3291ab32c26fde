use std::cell::RefCell;

use xray::FsScreenshotIo;
use xray::Image;
use xray::IoError;
use xray::ScreenshotCaptor;
use xray::ScreenshotError;
use xray::ScreenshotIo;
use xray::XrayError;
use xray::gl_screenshot_test;
use xray::screenshot_test;

/// A storage double that serves a fixed reference image (or none) and records
/// every operation, so the scenarios can check what got persisted, and in
/// which order.
struct FakeScreenshotIo {
    reference_image: Option<Image>,
    fail_prepare: bool,
    fail_write_actual: bool,
    log: RefCell<Vec<String>>,
    actual: RefCell<Option<Image>>,
    expected: RefCell<Option<Image>>,
    diff: RefCell<Option<Image>>,
}

impl FakeScreenshotIo {
    fn new(reference_image: Option<Image>) -> FakeScreenshotIo {
        FakeScreenshotIo {
            reference_image,
            fail_prepare: false,
            fail_write_actual: false,
            log: RefCell::new(Vec::new()),
            actual: RefCell::new(None),
            expected: RefCell::new(None),
            diff: RefCell::new(None),
        }
    }
}

impl ScreenshotIo for FakeScreenshotIo {
    fn prepare_output(&self) -> Result<(), XrayError> {
        self.log.borrow_mut().push("prepare".to_string());
        if self.fail_prepare {
            Err(XrayError::Io(IoError::OutputLocationUnavailable("out".to_string())))
        } else {
            Ok(())
        }
    }

    fn load_reference(&self) -> Result<Image, XrayError> {
        self.log.borrow_mut().push("load".to_string());
        match &self.reference_image {
            Some(img) => Ok(img.clone()),
            None => Err(XrayError::Io(IoError::FailedLoadingReferenceImage)),
        }
    }

    fn write_actual(&self, image: &Image) -> Result<(), XrayError> {
        self.log.borrow_mut().push("actual".to_string());
        if self.fail_write_actual {
            return Err(XrayError::Io(IoError::FailedWritingScreenshot(
                "actual.png".to_string(),
                "refused".to_string(),
            )));
        }
        self.actual.replace(Some(image.clone()));
        Ok(())
    }

    fn write_expected(&self, image: &Image) -> Result<(), XrayError> {
        self.log.borrow_mut().push("expected".to_string());
        self.expected.replace(Some(image.clone()));
        Ok(())
    }

    fn write_diff(&self, image: &Image) -> Result<(), XrayError> {
        self.log.borrow_mut().push("diff".to_string());
        self.diff.replace(Some(image.clone()));
        Ok(())
    }
}

// The orchestrator takes its storage port by value; forwarding the port
// through a shared reference lets a scenario inspect what was recorded after
// the run.
impl<'a> ScreenshotIo for &'a FakeScreenshotIo {
    fn prepare_output(&self) -> Result<(), XrayError> {
        FakeScreenshotIo::prepare_output(self)
    }

    fn load_reference(&self) -> Result<Image, XrayError> {
        FakeScreenshotIo::load_reference(self)
    }

    fn write_actual(&self, image: &Image) -> Result<(), XrayError> {
        FakeScreenshotIo::write_actual(self, image)
    }

    fn write_expected(&self, image: &Image) -> Result<(), XrayError> {
        FakeScreenshotIo::write_expected(self, image)
    }

    fn write_diff(&self, image: &Image) -> Result<(), XrayError> {
        FakeScreenshotIo::write_diff(self, image)
    }
}

struct FakeScreenshotCaptor {
    screenshot: Option<Image>,
}

impl ScreenshotCaptor for FakeScreenshotCaptor {
    fn capture_image(&self, _x: i32, _y: i32, _width: u32, _height: u32) -> Result<Image, XrayError> {
        match &self.screenshot {
            Some(img) => Ok(img.clone()),
            None => Err(XrayError::CaptureError),
        }
    }
}

fn image_2x2(bytes: Vec<u8>) -> Image {
    Image::from_raw(2, 2, bytes).unwrap()
}

fn rgbw() -> Image {
    image_2x2(vec![
        255, 0, 0, 255,
        0, 255, 0, 255,
        0, 0, 255, 255,
        255, 255, 255, 255,
    ])
}

fn rbgw() -> Image {
    image_2x2(vec![
        255, 0, 0, 255,
        0, 0, 255, 255,
        0, 255, 0, 255,
        255, 255, 255, 255,
    ])
}

#[test]
fn test_success() {
    let screenshot_io = FakeScreenshotIo::new(Some(rgbw()));
    let screenshot_captor = FakeScreenshotCaptor { screenshot: Some(rgbw()) };
    let result = screenshot_test(screenshot_io, screenshot_captor, 0, 0, 2, 2);
    if let Err(e) = result {
        panic!("{}", e.message());
    }
}

#[test]
#[should_panic]
fn test_fail() {
    let screenshot_io = FakeScreenshotIo::new(Some(rgbw()));
    let screenshot_captor = FakeScreenshotCaptor { screenshot: Some(rbgw()) };
    if let Some(message) = gl_screenshot_test(screenshot_io, screenshot_captor, 0, 0, 2, 2) {
        panic!("{}", message);
    }
}

#[test]
fn scenario_reference_missing_writes_only_actual() {
    let screenshot_io = FakeScreenshotIo::new(None);
    let screenshot_captor = FakeScreenshotCaptor { screenshot: Some(rgbw()) };
    let result = screenshot_test(&screenshot_io, screenshot_captor, 0, 0, 2, 2);
    match result {
        Err(XrayError::Screenshot(ScreenshotError::NoReferenceScreenshot(img))) => {
            assert_eq!(img.data, rgbw().data);
        }
        _ => panic!("a missing reference must surface as NoReferenceScreenshot"),
    }
    assert_eq!(screenshot_io.actual.borrow().as_ref().unwrap().data, rgbw().data);
    assert!(screenshot_io.expected.borrow().is_none());
    assert!(screenshot_io.diff.borrow().is_none());
    assert_eq!(*screenshot_io.log.borrow(), vec!["load", "prepare", "actual"]);
}

#[test]
fn scenario_match_writes_nothing() {
    let screenshot_io = FakeScreenshotIo::new(Some(rgbw()));
    let screenshot_captor = FakeScreenshotCaptor { screenshot: Some(rgbw()) };
    let result = screenshot_test(&screenshot_io, screenshot_captor, 0, 0, 2, 2);
    assert!(result.is_ok());
    assert_eq!(*screenshot_io.log.borrow(), vec!["load"]);
    assert!(screenshot_io.actual.borrow().is_none());
    assert!(screenshot_io.expected.borrow().is_none());
    assert!(screenshot_io.diff.borrow().is_none());
}

#[test]
fn scenario_mismatch_writes_expected_actual_diff_in_order() {
    // The captured image differs from the reference in exactly one pixel.
    let mut captured_bytes = rgbw().data.clone();
    captured_bytes[4] = 9;
    let captured = image_2x2(captured_bytes.clone());
    let screenshot_io = FakeScreenshotIo::new(Some(rgbw()));
    let screenshot_captor = FakeScreenshotCaptor { screenshot: Some(captured.clone()) };
    let result = screenshot_test(&screenshot_io, screenshot_captor, 0, 0, 2, 2);
    match result {
        Err(XrayError::Screenshot(ScreenshotError::ScreenshotMismatch(actual, expected))) => {
            assert_eq!(actual.data, captured_bytes);
            assert_eq!(expected.data, rgbw().data);
        }
        _ => panic!("differing images must surface as ScreenshotMismatch"),
    }
    assert_eq!(
        *screenshot_io.log.borrow(),
        vec!["load", "prepare", "expected", "actual", "diff"],
    );
    assert_eq!(screenshot_io.expected.borrow().as_ref().unwrap().data, rgbw().data);
    assert_eq!(screenshot_io.actual.borrow().as_ref().unwrap().data, captured_bytes);
    // The diff's only non-transparent pixel sits at the differing coordinate
    // (1, 0) and carries the captured image's pixel there.
    let diff = screenshot_io.diff.borrow().as_ref().unwrap().clone();
    assert_eq!(diff.data, vec![
        0, 0, 0, 0,
        9, 255, 0, 255,
        0, 0, 0, 0,
        0, 0, 0, 0,
    ]);
}

#[test]
fn scenario_capture_failure_touches_no_storage() {
    let screenshot_io = FakeScreenshotIo::new(Some(rgbw()));
    let screenshot_captor = FakeScreenshotCaptor { screenshot: None };
    let result = screenshot_test(&screenshot_io, screenshot_captor, 0, 0, 2, 2);
    assert!(matches!(result, Err(XrayError::CaptureError)));
    assert!(screenshot_io.log.borrow().is_empty());
}

#[test]
fn scenario_prepare_output_is_idempotent() {
    let screenshot_io = FakeScreenshotIo::new(None);
    assert!(screenshot_io.prepare_output().is_ok());
    assert!(screenshot_io.prepare_output().is_ok());
    assert!(screenshot_io.actual.borrow().is_none());
    assert!(screenshot_io.expected.borrow().is_none());
    assert!(screenshot_io.diff.borrow().is_none());
}

#[test]
fn prepare_failure_supersedes_the_mismatch_and_blocks_writes() {
    let mut screenshot_io = FakeScreenshotIo::new(Some(rgbw()));
    screenshot_io.fail_prepare = true;
    let screenshot_captor = FakeScreenshotCaptor { screenshot: Some(rbgw()) };
    let result = screenshot_test(&screenshot_io, screenshot_captor, 0, 0, 2, 2);
    match result {
        Err(XrayError::Io(IoError::OutputLocationUnavailable(location))) => {
            assert_eq!(location, "out");
        }
        _ => panic!("an unavailable output location must supersede the mismatch"),
    }
    assert_eq!(*screenshot_io.log.borrow(), vec!["load", "prepare"]);
}

#[test]
fn write_failure_supersedes_the_mismatch_but_other_writes_are_attempted() {
    let mut screenshot_io = FakeScreenshotIo::new(Some(rgbw()));
    screenshot_io.fail_write_actual = true;
    let screenshot_captor = FakeScreenshotCaptor { screenshot: Some(rbgw()) };
    let result = screenshot_test(&screenshot_io, screenshot_captor, 0, 0, 2, 2);
    match result {
        Err(XrayError::Io(IoError::FailedWritingScreenshot(name, reason))) => {
            assert_eq!(name, "actual.png");
            assert_eq!(reason, "refused");
        }
        _ => panic!("a write failure must supersede the mismatch"),
    }
    // Best effort: the diff is still written after the failed write.
    assert_eq!(
        *screenshot_io.log.borrow(),
        vec!["load", "prepare", "expected", "actual", "diff"],
    );
    assert!(screenshot_io.diff.borrow().is_some());
}

#[test]
fn gl_screenshot_test_reports_no_message_on_a_match() {
    let screenshot_io = FakeScreenshotIo::new(Some(rgbw()));
    let screenshot_captor = FakeScreenshotCaptor { screenshot: Some(rgbw()) };
    assert!(gl_screenshot_test(screenshot_io, screenshot_captor, 0, 0, 2, 2).is_none());
}

#[test]
fn gl_screenshot_test_reports_the_mismatch_message() {
    let screenshot_io = FakeScreenshotIo::new(Some(rgbw()));
    let screenshot_captor = FakeScreenshotCaptor { screenshot: Some(rbgw()) };
    let message = gl_screenshot_test(screenshot_io, screenshot_captor, 0, 0, 2, 2);
    assert_eq!(message.unwrap(), "Actual screenshot did not match expected screenshot.");
}

#[test]
fn test_fs_screenshot_io_paths() {
    let layout = FsScreenshotIo::new("basics/menu", "tests/reference_images", "target/screenshots");
    assert_eq!(layout.reference_path(), "tests/reference_images/basics/menu.png");
    assert_eq!(layout.output_dir(), "target/screenshots/basics/menu");
    assert_eq!(layout.actual_path(), "target/screenshots/basics/menu/actual.png");
    assert_eq!(layout.expected_path(), "target/screenshots/basics/menu/expected.png");
    assert_eq!(layout.diff_path(), "target/screenshots/basics/menu/diff.png");
    assert_eq!(layout.artifact_path("notes.txt"), "target/screenshots/basics/menu/notes.txt");
}

#[test]
fn test_fs_screenshot_io_default_layout() {
    let layout = FsScreenshotIo::default("menu");
    assert_eq!(layout.reference_path(), "references/menu.png");
    assert_eq!(layout.output_dir(), "test_output/menu");
}
