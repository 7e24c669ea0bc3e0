use maggie::capture::{
    crop, encode_png, expand_screenshot_dir, fill_in, region_of, save_screenshot, take_screenshot,
    CaptureError, CaptureManager, ScreenshotRegion, Stamp,
};
use maggie::config::ScreenshotScale;
use maggie::number::Number;
use maggie::render::RgbaBuffer;

fn num(x: f64) -> Number {
    Number { bits: x.to_bits() }
}

#[test]
fn expand_screenshot_dir_handles_tilde() {
    let home = b"/home/tester";
    assert_eq!(
        expand_screenshot_dir("~/Pictures", home),
        b"/home/tester/Pictures"
    );
    assert_eq!(expand_screenshot_dir("~", home), b"/home/tester");
    assert_eq!(
        expand_screenshot_dir("~/~/shots", home),
        b"/home/tester/~/shots"
    );
    assert_eq!(expand_screenshot_dir("/abs/path", home), b"/abs/path");
    assert_eq!(expand_screenshot_dir("relative/dir", home), b"relative/dir");
}

#[test]
fn paths_need_not_be_text() {
    let home = b"/home/\xFF\xFE/";
    assert_eq!(expand_screenshot_dir("~", home), home);
    assert_eq!(expand_screenshot_dir("~//\u{e4}", home), b"/home/\xFF\xFE/\xC3\xA4");
}

fn noon() -> Stamp {
    Stamp {
        year: 2024,
        month: 3,
        day: 7,
        hour: 12,
        minute: 5,
        second: 9,
    }
}

#[test]
fn a_pattern_is_filled_in_with_the_moment() {
    assert_eq!(
        fill_in("maggie_%Y%m%d_%H%M%S.png", noon()),
        "maggie_20240307_120509.png"
    );
    assert_eq!(fill_in("plain.png", noon()), "plain.png");
}

#[test]
fn a_target_is_below_the_home_directory() {
    let manager = CaptureManager::new("~/Pictures".to_string(), "shot_%Y.png".to_string());
    let target = manager
        .screenshot_target(Some(b"/home/me".to_vec()), noon())
        .unwrap();
    assert_eq!(target.directory, b"/home/me/Pictures");
    assert_eq!(target.file, b"/home/me/Pictures/shot_2024.png");
}

#[test]
fn a_missing_home_directory_is_an_error() {
    let manager = CaptureManager::new("~/Pictures".to_string(), "a.png".to_string());
    let failed = manager.screenshot_target(None, noon());
    assert!(matches!(failed, Err(CaptureError::NoHome)));
    assert_eq!(CaptureError::NoHome.message(), "Cannot determine home directory");
    let manager = CaptureManager::new("/tmp".to_string(), "a.png".to_string());
    assert_eq!(manager.screenshot_target(None, noon()).unwrap().file, b"/tmp/a.png");
}

#[test]
fn the_current_moment_is_filled_in() {
    let manager = CaptureManager::new("/shots".to_string(), "%Y".to_string());
    let target = manager.generate_screenshot_path().unwrap();
    assert_eq!(target.directory, b"/shots");
    let file = String::from_utf8(target.file).unwrap();
    let year: i32 = file["/shots/".len()..].parse().unwrap();
    assert!(year >= 2024);
}

/// A frame whose pixels hold their own positions.
fn frame(width: i32, height: i32) -> RgbaBuffer {
    let mut f = RgbaBuffer::new(width, height);
    for y in 0..height {
        for x in 0..width {
            f.set_pixel(x, y, [x as u8, y as u8, 0, 255]);
        }
    }
    f
}

#[test]
fn a_region_is_cut_out() {
    let f = frame(20, 10);
    let region = ScreenshotRegion {
        x: 5,
        y: 2,
        width: 3,
        height: 4,
    };
    let cut = crop(&f, Some(region));
    assert_eq!((cut.width, cut.height), (3, 4));
    assert_eq!(cut.pixel(0, 0), Some([5, 2, 0, 255]));
    assert_eq!(cut.pixel(2, 3), Some([7, 5, 0, 255]));
    let all = crop(&f, None);
    assert_eq!(all.data, f.data);
}

#[test]
fn a_region_beyond_the_frame_is_moved_onto_it() {
    let f = frame(20, 10);
    let region = ScreenshotRegion {
        x: -4,
        y: 50,
        width: 99,
        height: 0,
    };
    let cut = crop(&f, Some(region));
    assert_eq!((cut.width, cut.height), (20, 1));
    assert_eq!(cut.pixel(0, 0), Some([0, 9, 0, 255]));
}

#[test]
fn a_selection_is_at_least_a_pixel() {
    let r = region_of((4, 5, 4, 9));
    assert_eq!((r.x, r.y, r.width, r.height), (4, 5, 1, 4));
}

fn decode(bytes: &[u8]) -> (Vec<u8>, u32, u32) {
    let decoder = png::Decoder::new(std::io::Cursor::new(bytes));
    let mut reader = decoder.read_info().unwrap();
    let mut out = vec![0; reader.output_buffer_size().unwrap()];
    let info = reader.next_frame(&mut out).unwrap();
    out.truncate(info.buffer_size());
    (out, info.width, info.height)
}

#[test]
fn a_picture_is_encoded_so_that_it_can_be_read() {
    let f = frame(7, 3);
    let bytes = encode_png(&f).unwrap();
    assert_eq!(&bytes[1..4], b"PNG");
    assert_eq!(decode(&bytes), (f.data.clone(), 7, 3));
}

#[test]
fn an_empty_picture_cannot_be_encoded() {
    let empty = RgbaBuffer::new(0, 0);
    assert!(matches!(encode_png(&empty), Err(CaptureError::Encoding)));
    assert_eq!(CaptureError::Encoding.message(), "Cannot encode the picture");
}

#[test]
fn a_screenshot_is_magnified_where_that_is_asked_for() {
    let f = frame(20, 10);
    let region = Some(ScreenshotRegion {
        x: 5,
        y: 2,
        width: 2,
        height: 1,
    });
    let cols = vec![0, 0, 1, 1];
    let rows = vec![0, 0];
    let real = take_screenshot(
        Some(&f),
        region,
        ScreenshotScale::Real,
        num(2.0),
        &cols,
        &rows,
    )
    .unwrap();
    assert_eq!((real.width, real.height), (2, 1));
    let large = take_screenshot(
        Some(&f),
        region,
        ScreenshotScale::Magnified,
        num(2.0),
        &cols,
        &rows,
    )
    .unwrap();
    assert_eq!((large.width, large.height), (4, 2));
    assert_eq!(large.pixel(1, 1), Some([5, 2, 0, 255]));
    assert_eq!(large.pixel(2, 0), Some([6, 2, 0, 255]));
    let unzoomed = take_screenshot(
        Some(&f),
        region,
        ScreenshotScale::Magnified,
        num(1.0),
        &cols,
        &rows,
    )
    .unwrap();
    assert_eq!((unzoomed.width, unzoomed.height), (2, 1));
}

#[test]
fn a_saved_screenshot_holds_the_frame() {
    let f = frame(6, 5);
    let bytes = save_screenshot(
        Some(&f),
        None,
        ScreenshotScale::Real,
        num(3.0),
        &vec![],
        &vec![],
    )
    .unwrap();
    assert_eq!(decode(&bytes), (f.data.clone(), 6, 5));
}

#[test]
fn there_is_no_screenshot_without_a_frame() {
    let failed = save_screenshot(
        None,
        None,
        ScreenshotScale::Real,
        num(1.0),
        &vec![],
        &vec![],
    );
    assert!(matches!(failed, Err(CaptureError::NoFrame)));
    assert_eq!(CaptureError::NoFrame.message(), "No captured frame yet");
}

#[test]
fn a_frame_without_pixels_cannot_be_saved() {
    let empty = RgbaBuffer::new(0, 0);
    let none = Vec::new();
    let taken = take_screenshot(Some(&empty), None, ScreenshotScale::Real, num(1.0), &none, &none);
    assert_eq!(taken.unwrap().data.len(), 0);
    let saved = save_screenshot(Some(&empty), None, ScreenshotScale::Real, num(1.0), &none, &none);
    assert!(matches!(saved, Err(CaptureError::Encoding)));
}
