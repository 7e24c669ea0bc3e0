use maggie::cursor::{
    build_reticle, cursor_candidates, find_cursor_candidates, image_to_buffer, load_cursor,
    nearest_image, pick_cursor, premultiplied_bgra, CursorImage, CursorPaths, MagnifiedCursor,
};
use maggie::number::Number;
use maggie::render::RgbaBuffer;

fn num(x: f64) -> Number {
    Number { bits: x.to_bits() }
}

fn val(n: Number) -> f64 {
    f64::from_bits(n.bits)
}

/// The sampling grid for a magnification.
fn grid(len: i32, scale: f64) -> Vec<i32> {
    let n = (len as f64 * scale).round() as i32;
    (0..n).map(|i| (i as f64 / scale).floor() as i32).collect()
}

fn sprite(cursor: &mut MagnifiedCursor, render_scale: f64) -> (RgbaBuffer, (f64, f64)) {
    let factor = val(cursor.zoom) * render_scale;
    let gap = match &cursor.cache {
        Some(c) => (val(c.factor) - factor).abs(),
        None => f64::INFINITY,
    };
    let cols = grid(cursor.base.width, factor);
    let rows = grid(cursor.base.height, factor);
    let hotspot = (
        num(val(cursor.hotspot.0) * factor),
        num(val(cursor.hotspot.1) * factor),
    );
    let (buffer, at) = cursor.sprite(num(factor), num(gap), &cols, &rows, hotspot);
    (buffer, (val(at.0), val(at.1)))
}

#[test]
fn reticle_has_white_ring_and_black_center() {
    let buf = build_reticle(16);
    assert_eq!((buf.width, buf.height), (16, 16));

    let center = (buf.width / 2, buf.height / 2);
    assert_eq!(buf.pixel(center.0, center.1), Some([0, 0, 0, 255]));

    let ring_px = buf.pixel(center.0 + 5, center.1);
    assert_eq!(ring_px, Some([255, 255, 255, 255]));

    assert_eq!(buf.pixel(0, 0), Some([0, 0, 0, 0]));
}

#[test]
fn sprite_scales_reticle_with_zoom() {
    let mut cursor = MagnifiedCursor::new(None, num(2.0));
    let (sprite, hotspot) = sprite(&mut cursor, 1.0);
    assert_eq!((sprite.width, sprite.height), (32, 32));
    assert_eq!(hotspot, (16.0, 16.0));

    let center = (sprite.width / 2, sprite.height / 2);
    assert_eq!(sprite.pixel(center.0, center.1), Some([0, 0, 0, 255]));
    assert_eq!(
        sprite.pixel(center.0 + 11, center.1),
        Some([255, 255, 255, 255])
    );
    assert_eq!(sprite.pixel(center.0 + 13, center.1), Some([0, 0, 0, 0]));
}

#[test]
fn sprite_scales_with_render_scale() {
    let mut cursor = MagnifiedCursor::new(None, num(1.0));
    let (sprite, _) = sprite(&mut cursor, 2.0);
    assert_eq!((sprite.width, sprite.height), (32, 32));
}

#[test]
fn sprite_scales_hotspot_with_zoom() {
    let mut base = RgbaBuffer::new(4, 4);
    base.set_pixel(1, 2, [255, 0, 0, 255]);
    let mut cursor = MagnifiedCursor::new(Some((base, (num(1.0), num(2.0)))), num(1.0));
    cursor.update_zoom(num(3.0), num(2.0));
    let (sprite, hotspot) = sprite(&mut cursor, 1.0);
    assert_eq!((sprite.width, sprite.height), (12, 12));
    assert_eq!(hotspot, (3.0, 6.0));
}

fn image(width: u32, height: u32, size: u32, pixels_rgba: Vec<u8>) -> CursorImage {
    CursorImage {
        size,
        width,
        height,
        xhot: 0,
        yhot: 0,
        pixels_rgba,
    }
}

#[test]
fn premultiplied_pixels_are_unmultiplied() {
    let img = image(1, 1, 1, vec![128, 0, 0, 128]);
    let (buf, hotspot) = image_to_buffer(&img);
    assert_eq!(buf.pixel(0, 0), Some([255, 0, 0, 128]));
    assert_eq!(hotspot, (0, 0));
}

#[test]
fn straight_alpha_pixels_are_kept() {
    let img = image(1, 1, 1, vec![255, 0, 0, 128]);
    let (buf, _) = image_to_buffer(&img);
    assert_eq!(buf.pixel(0, 0), Some([255, 0, 0, 128]));
}

#[test]
fn transparent_pixels_lose_their_color() {
    let img = image(2, 1, 1, vec![7, 7, 7, 0, 10, 20, 30, 255]);
    let (buf, _) = image_to_buffer(&img);
    assert_eq!(buf.pixel(0, 0), Some([0, 0, 0, 0]));
    assert_eq!(buf.pixel(1, 0), Some([10, 20, 30, 255]));
}

#[test]
fn the_first_of_the_nearest_images_is_picked() {
    let images: Vec<CursorImage> = [16, 24, 32, 24]
        .iter()
        .map(|&size| image(1, 1, size, vec![size as u8, 0, 0, 255]))
        .collect();
    assert_eq!(nearest_image(&images, 25), Some(1));
    assert_eq!(nearest_image(&images, 28), Some(1));
    assert_eq!(nearest_image(&images, 100), Some(2));
    assert_eq!(nearest_image(&Vec::new(), 100), None);
    let (buf, _) = pick_cursor(&images, 1).unwrap();
    assert_eq!(buf.pixel(0, 0), Some([16, 0, 0, 255]));
    assert!(pick_cursor(&Vec::new(), 1).is_none());
}

/// A cursor file with one image of 2 by 1 pixels at nominal size 24 and its
/// hotspot at (1, 0).
fn cursor_file() -> Vec<u8> {
    let mut f: Vec<u8> = Vec::new();
    f.extend_from_slice(b"Xcur");
    for word in [16u32, 0x10000, 1, 0xfffd_0002, 24, 28] {
        f.extend_from_slice(&word.to_le_bytes());
    }
    for word in [36u32, 0xfffd_0002, 24, 1, 2, 1, 1, 0, 0] {
        f.extend_from_slice(&word.to_le_bytes());
    }
    f.extend_from_slice(&[128, 0, 0, 128]);
    f.extend_from_slice(&[10, 20, 30, 255]);
    f
}

#[test]
fn a_cursor_file_is_read() {
    let (buf, hotspot) = load_cursor(&cursor_file(), 24).unwrap();
    assert_eq!((buf.width, buf.height), (2, 1));
    assert_eq!(buf.pixel(0, 0), Some([255, 0, 0, 128]));
    assert_eq!(buf.pixel(1, 0), Some([10, 20, 30, 255]));
    assert_eq!(hotspot, (1, 0));
}

#[test]
fn other_files_are_no_cursors() {
    assert!(load_cursor(b"not a cursor", 24).is_none());
    assert!(load_cursor(&[], 24).is_none());
}

#[test]
fn the_scaled_picture_is_used_again() {
    let mut cursor = MagnifiedCursor::new(None, num(2.0));
    let (first, _) = sprite(&mut cursor, 1.0);
    assert!(cursor.cache.is_some());
    let (again, at) = cursor.sprite(num(2.0), num(0.0), &vec![0], &vec![0], (num(0.0), num(0.0)));
    assert_eq!(again.data, first.data);
    assert_eq!(val(at.0), 16.0);
    cursor.update_zoom(num(2.0), num(0.0));
    assert!(cursor.cache.is_some());
    cursor.update_zoom(num(3.0), num(1.0));
    assert!(cursor.cache.is_none());
    assert_eq!(val(cursor.zoom), 3.0);
}

#[test]
fn cursor_files_are_looked_for_in_order() {
    let paths = CursorPaths {
        xcursor_path: Some("/a::/b".to_string()),
        home: Some(b"/home/me".to_vec()),
        xdg_data_home: None,
        xdg_data_dirs: Some("/usr/share".to_string()),
    };
    let found = cursor_candidates("Breeze", "left_ptr", &paths);
    assert_eq!(found.len(), 4 * 5);
    assert_eq!(found[0], b"/a/Breeze/cursors/left_ptr");
    assert_eq!(found[1], b"/b/Breeze/cursors/left_ptr");
    assert_eq!(found[2], b"/home/me/.icons/Breeze/cursors/left_ptr");
    assert_eq!(found[3], b"/home/me/.local/share/icons/Breeze/cursors/left_ptr");
    assert_eq!(found[4], b"/usr/share/icons/Breeze/cursors/left_ptr");
    assert_eq!(found[5], b"/a/default/cursors/left_ptr");
    assert_eq!(found[10], b"/a/Adwaita/cursors/left_ptr");
    assert_eq!(found[15], b"/a/DMZ-White/cursors/left_ptr");
}

#[test]
fn the_default_theme_is_tried_once() {
    let paths = CursorPaths {
        xcursor_path: None,
        home: None,
        xdg_data_home: Some("/data".to_string()),
        xdg_data_dirs: None,
    };
    let found = cursor_candidates("default", "left_ptr", &paths);
    assert_eq!(found.len(), 3 * 3);
    assert_eq!(found[0], b"/data/icons/default/cursors/left_ptr");
    assert_eq!(found[1], b"/usr/local/share/icons/default/cursors/left_ptr");
    assert_eq!(found[2], b"/usr/share/icons/default/cursors/left_ptr");
    assert_eq!(found[3], b"/data/icons/Adwaita/cursors/left_ptr");
}

#[test]
fn the_home_directory_is_searched() {
    let found = find_cursor_candidates("t", "n", None, Some("/d".to_string()), Some("/e".to_string()));
    let home = dirs::home_dir().map(|h| h.into_os_string().into_encoded_bytes());
    let paths = CursorPaths {
        xcursor_path: None,
        home,
        xdg_data_home: Some("/d".to_string()),
        xdg_data_dirs: Some("/e".to_string()),
    };
    assert_eq!(found, cursor_candidates("t", "n", &paths));
}

#[test]
fn pointer_pictures_are_multiplied_for_the_compositor() {
    let mut base = RgbaBuffer::new(2, 1);
    base.set_pixel(0, 0, [200, 100, 50, 128]);
    base.set_pixel(1, 0, [1, 2, 3, 255]);
    assert_eq!(
        premultiplied_bgra(&base),
        vec![25, 50, 100, 128, 3, 2, 1, 255]
    );
}
