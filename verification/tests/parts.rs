use maggie::blend::{blend_at, blend_mask, blend_outline_into, blend_overlay_into, blend_pixel, draw_cursor_at};
use maggie::compose::{compose_frame, draw_black_overlay, Legend, Placed, Scene};
use maggie::number::Number;
use maggie::osd::Corner;
use maggie::render::{Renderer, RgbaBuffer};
use maggie::screencopy::{convert_memory, BufferFormat, BufferStep, FailureStep, Screencopy};
use maggie::text::{
    contains_text, decimal, join_path, joined, padded_decimal, signed_decimal, split_nonempty,
};
use maggie::view::heal;

fn num(x: f64) -> Number {
    Number { bits: x.to_bits() }
}

fn val(n: Number) -> f64 {
    f64::from_bits(n.bits)
}

#[test]
fn numbers_compare_like_floats() {
    let samples = [
        0.0,
        -0.0,
        1.0,
        -1.0,
        0.5,
        2.0,
        -2.5,
        1e-300,
        -1e-300,
        1e300,
        f64::INFINITY,
        f64::NEG_INFINITY,
        f64::NAN,
        f64::MIN_POSITIVE,
        5e-324,
    ];
    for a in samples {
        assert_eq!(num(a).is_nan(), a.is_nan());
        assert_eq!(num(a).is_finite(), a.is_finite());
        if !a.is_nan() {
            assert_eq!(val(num(a).abs()), a.abs());
            assert_eq!(val(num(a).neg()), -a);
        }
        for b in samples {
            assert_eq!(num(a).lt(num(b)), a < b);
            assert_eq!(num(a).le(num(b)), a <= b);
            assert_eq!(num(a).same(num(b)), a == b);
            if !a.is_nan() && !b.is_nan() && a != b {
                assert_eq!(val(num(a).min(num(b))), a.min(b));
                assert_eq!(val(num(a).max(num(b))), a.max(b));
            }
            if a <= b {
                for x in samples {
                    let c = val(num(x).clamp(num(a), num(b)));
                    let d = x.clamp(a, b);
                    assert!(c == d || (c.is_nan() && d.is_nan()));
                }
            }
        }
    }
}

#[test]
fn healing_stops_at_the_target() {
    let pulled = |offset: f64, toward: bool, pull: f64, catch_up: f64| {
        val(heal(num(offset), toward, num(pull), num(3.0), num(catch_up)))
    };
    assert_eq!(pulled(10.0, false, 2.0, 6.0), 0.0);
    assert_eq!(pulled(10.0, true, 2.0, 1.0), 2.0);
    assert_eq!(pulled(10.0, true, 5.0, 1.0), 3.0);
    assert_eq!(pulled(10.0, true, 2.0, 6.0), 6.0);
    assert_eq!(pulled(4.0, true, 2.0, 6.0), 4.0);
    assert_eq!(pulled(-10.0, true, -2.0, 6.0), -6.0);
    assert_eq!(pulled(-4.0, true, -2.0, 6.0), -4.0);
}

#[test]
fn numbers_become_text() {
    assert_eq!(decimal(0), "0");
    assert_eq!(decimal(u64::MAX), "18446744073709551615");
    assert_eq!(signed_decimal(-42), "-42");
    assert_eq!(signed_decimal(i64::MIN), "-9223372036854775808");
    assert_eq!(padded_decimal(7, 2), "07");
    assert_eq!(padded_decimal(2026, 2), "2026");
    assert_eq!(padded_decimal(-7, 4), "-007");
}

#[test]
fn texts_join_and_split() {
    assert_eq!(joined("ab", "c"), "abc");
    assert_eq!(join_path(b"/a", "b"), b"/a/b");
    assert_eq!(join_path(b"/a/", "b"), b"/a/b");
    assert_eq!(join_path(b"/a", "/b"), b"/b");
    assert_eq!(split_nonempty("a::b:", ':'), vec!["a", "b"]);
    assert!(split_nonempty("", ':').is_empty());
    assert!(contains_text("hello", "ell"));
    assert!(contains_text("hello", ""));
    assert!(!contains_text("hello", "elo"));
}

#[test]
fn pixels_read_back_what_was_set() {
    let mut b = RgbaBuffer::new(3, 2);
    assert_eq!(b.data.len(), 24);
    b.set_pixel(2, 1, [1, 2, 3, 4]);
    assert_eq!(b.pixel(2, 1), Some([1, 2, 3, 4]));
    assert_eq!(b.pixel(1, 1), Some([0, 0, 0, 0]));
    b.set_pixel(3, 1, [9, 9, 9, 9]);
    b.set_pixel(-1, 0, [9, 9, 9, 9]);
    assert_eq!(b.pixel(3, 1), None);
    assert_eq!(b.pixel(0, -1), None);
    assert_eq!(b.data.iter().filter(|&&x| x == 9).count(), 0);
    let big = b.nearest_neighbor_scale(&vec![0, 2], &vec![1, 1, 0]);
    assert_eq!((big.width, big.height), (2, 3));
    assert_eq!(big.pixel(1, 0), Some([1, 2, 3, 4]));
    assert_eq!(big.pixel(1, 2), Some([0, 0, 0, 0]));
    let mut r = Renderer::new(num(2.0));
    assert_eq!(r.render_nearest_neighbor(&b, &vec![2], &vec![1]).data, vec![1, 2, 3, 4]);
    r.update_scale_factor(num(3.0));
    assert_eq!(val(r.scale_factor()), 3.0);
}

#[test]
fn overlays_mix_as_the_float_formula_does() {
    for a in 1..=254u8 {
        for s in (0..=255u8).step_by(5) {
            for d in (0..=255u8).step_by(3) {
                let af = a as f32 / 255.0;
                let want = (s as f32 * af + d as f32 * (1.0 - af)).round() as u8;
                let mut canvas = [d, d, d, 0];
                blend_overlay_into(&mut canvas, 1, &[s, s, s, a], 1, 1, 0, 0);
                assert_eq!(canvas, [want, want, want, 255]);
                let mut canvas = [d, d, d, d];
                let cursor = RgbaBuffer {
                    width: 1,
                    height: 1,
                    data: vec![s, s, s, a],
                };
                draw_cursor_at(&mut canvas, 4, (0, 0), &cursor);
                let alpha = (a as f32 * af + d as f32 * (1.0 - af)).round() as u8;
                assert_eq!(canvas, [want, want, want, alpha]);
            }
        }
    }
}

#[test]
fn blending_keeps_to_the_extremes() {
    let mut p = [10, 20, 30, 40];
    blend_pixel(&mut p, [1, 2, 3], 0);
    assert_eq!(p, [10, 20, 30, 40]);
    blend_pixel(&mut p, [1, 2, 3], 255);
    assert_eq!(p, [1, 2, 3, 255]);
    blend_pixel(&mut p, [101, 102, 103], 51);
    assert_eq!(p, [21, 22, 23, 255]);
    let mut canvas = [0u8; 16];
    blend_at(&mut canvas, 2, 2, 1, 1, [8, 9, 10], 255);
    assert_eq!(&canvas[12..], &[8, 9, 10, 255]);
    let mut canvas = [0u8; 16];
    blend_outline_into(&mut canvas, 2, &[9, 9, 9, 255], 1, 1, 1, 0);
    assert_eq!(&canvas[4..8], &[9, 9, 9, 0]);
    let mut canvas = [0u8; 16];
    blend_mask(&mut canvas, 2, 2, &[255, 0, 0, 255], 2, 2, 1, 1, [7, 7, 7]);
    assert_eq!(&canvas[12..], &[7, 7, 7, 255]);
    assert!(canvas[..12].iter().all(|&b| b == 0));
}

fn solid(w: i32, h: i32, q: [u8; 4]) -> RgbaBuffer {
    let mut b = RgbaBuffer::new(w, h);
    for y in 0..h {
        for x in 0..w {
            b.set_pixel(x, y, q);
        }
    }
    b
}

#[test]
fn a_frame_is_composed_from_the_bottom_up() {
    let ground = solid(2, 2, [10, 10, 10, 255]);
    let overlay = solid(1, 1, [20, 20, 20, 255]);
    let cursor = solid(1, 1, [30, 30, 30, 255]);
    let map = solid(1, 1, [40, 40, 40, 255]);
    let scene = Scene {
        magnified: Placed {
            image: &ground,
            at: (1, 0),
        },
        overlay: Some(Placed {
            image: &overlay,
            at: (1, 0),
        }),
        cursor: Some(Placed {
            image: &cursor,
            at: (2, 0),
        }),
        minimap: Some(Placed {
            image: &map,
            at: (2, 1),
        }),
        outline: None,
        osd: None,
        hint: None,
    };
    let mut a = vec![77u8; 3 * 2 * 4];
    let mut b = vec![0u8; 3 * 2 * 4];
    compose_frame(&mut a, 3, 2, &scene);
    compose_frame(&mut b, 3, 2, &scene);
    assert_eq!(a, b);
    assert_eq!(
        a.chunks(4).map(|p| (p[0], p[3])).collect::<Vec<_>>(),
        vec![(0, 0), (20, 255), (30, 255), (0, 0), (10, 255), (40, 255)]
    );
    let mut black = vec![7u8; 16];
    draw_black_overlay(&mut black, 2, 2);
    assert_eq!(black, [0, 0, 0, 255].repeat(4));
}

#[test]
fn a_legend_lies_over_everything() {
    let ground = solid(100, 60, [200, 0, 0, 255]);
    let lines = vec!["A".to_string()];
    let scene = Scene {
        magnified: Placed {
            image: &ground,
            at: (0, 0),
        },
        overlay: None,
        cursor: None,
        minimap: None,
        outline: None,
        osd: Some(Legend {
            lines: &lines,
            color: [0xE6, 0xE6, 0xE6],
            corner: Corner::TopLeft,
        }),
        hint: None,
    };
    let mut canvas = vec![0u8; 100 * 60 * 4];
    compose_frame(&mut canvas, 100, 60, &scene);
    // The box is opaque, what lies outside of its margin stays.
    let at = |x: usize, y: usize| &canvas[(y * 100 + x) * 4..(y * 100 + x) * 4 + 4];
    assert_eq!(at(0, 0), &[200, 0, 0, 255]);
    assert_ne!(at(16, 16)[0], 200);
    assert_eq!(at(16, 16)[3], 255);
}

#[test]
fn captured_memory_becomes_rgba() {
    // Two rows of one pixel with padding, blue first.
    let memory = [1, 2, 3, 0, 9, 9, 9, 9, 4, 5, 6, 0, 9, 9, 9, 9];
    assert_eq!(
        convert_memory(&memory, 8, 1, 2, false),
        vec![3, 2, 1, 255, 6, 5, 4, 255]
    );
    assert_eq!(
        convert_memory(&memory, 8, 1, 2, true),
        vec![6, 5, 4, 255, 3, 2, 1, 255]
    );
}

#[test]
fn a_capture_is_tried_again_three_times() {
    let mut s = Screencopy::new();
    assert_eq!(s.on_buffer(None, 1, 1, 4), BufferStep::Ignore);
    assert_eq!(
        s.on_buffer(Some(BufferFormat::Other), 1, 1, 4),
        BufferStep::Unsupported
    );
    assert_eq!(s.width, None);
    assert_eq!(
        s.on_buffer(Some(BufferFormat::Xrgb8888), 1, 2, 8),
        BufferStep::Fill(16)
    );
    s.on_flags(Some(true));
    s.on_flags(None);
    for _ in 0..3 {
        assert_eq!(s.on_failed(false), FailureStep::Retry);
    }
    assert_eq!(s.on_failed(false), FailureStep::ShowBlack);
    assert_eq!(s.on_failed(true), FailureStep::KeepFrame);
    let memory = [1, 2, 3, 0, 9, 9, 9, 9, 4, 5, 6, 0, 9, 9, 9, 9];
    let frame = s.on_ready(&memory, 0, 0);
    assert_eq!((frame.buffer.width, frame.buffer.height), (1, 2));
    assert_eq!(frame.buffer.data, vec![6, 5, 4, 255, 3, 2, 1, 255]);
    assert_eq!(s.on_failed(true), FailureStep::Retry);
}

#[test]
fn a_buffer_does_not_renew_the_retries() {
    let mut s = Screencopy::new();
    for want in [
        FailureStep::Retry,
        FailureStep::Retry,
        FailureStep::Retry,
        FailureStep::ShowBlack,
        FailureStep::ShowBlack,
    ] {
        s.on_buffer(Some(BufferFormat::Argb8888), 1, 1, 4);
        assert_eq!(s.on_failed(false), want);
    }
    s.on_buffer(Some(BufferFormat::Argb8888), 1, 1, 4);
    assert_eq!(s.on_failed(true), FailureStep::KeepFrame);
    s.on_ready(&[1, 2, 3, 4], 4, 1);
    s.on_buffer(Some(BufferFormat::Argb8888), 1, 1, 4);
    assert_eq!(s.on_failed(false), FailureStep::Retry);
    s.succeeded();
    assert_eq!((s.retries, s.width), (0, Some(1)));
}
