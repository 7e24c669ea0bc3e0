use maggie::osd::{
    build_corner_sprite, build_osd_sprite, draw_osd, draw_text, lines_have_room, Corner, BOX_ALPHA,
    TEXT_LEVEL,
};

#[test]
fn draw_text_writes_glyph_pixels() {
    let mut canvas = vec![0u8; 20 * 20 * 4];
    draw_text(&mut canvas, 20, 20, 0, 0, "0", [230, 230, 230]);
    let on_pixels = canvas.chunks_exact(4).filter(|p| p[3] == 255).count();
    assert!(on_pixels > 10, "expected glyph pixels, got {on_pixels}");
    assert_eq!(
        canvas
            .chunks_exact(4)
            .filter(|p| p[3] != 0 && p[3] != 255)
            .count(),
        0
    );
}

#[test]
fn draw_text_clips_out_of_bounds() {
    let mut canvas = vec![0u8; 20 * 20 * 4];
    draw_text(
        &mut canvas,
        20,
        20,
        100,
        100,
        "Hello OSD 123",
        [255, 255, 255],
    );
    assert!(canvas.iter().all(|&b| b == 0));
    let mut canvas = vec![0u8; 20 * 20 * 4];
    draw_text(&mut canvas, 20, 20, 19, 19, "H", [255, 255, 255]);
    let on = canvas.chunks_exact(4).filter(|p| p[3] == 255).count();
    assert!(
        on > 0 && on <= 7,
        "only in-bounds glyph pixels drawn, got {on}"
    );
}

#[test]
fn draw_osd_places_box_and_text() {
    let mut canvas = vec![0u8; 200 * 200 * 4];
    let lines = vec![
        "maggie  zoom 3x".to_string(),
        "1-9  zoom level".to_string(),
        "k  toggle OSD".to_string(),
    ];
    draw_osd(&mut canvas, 200, 200, &lines, (150, 150));
    let pixels: Vec<[u8; 4]> = canvas
        .chunks_exact(4)
        .map(|p| [p[0], p[1], p[2], p[3]])
        .collect();
    assert!(
        pixels.iter().any(|p| p[3] == BOX_ALPHA && p[0] == 0),
        "box not drawn"
    );
    assert!(
        pixels.iter().any(|p| p[3] == 255 && p[2] > 200),
        "text not drawn"
    );
    let text_ys: Vec<i32> = (0..200)
        .filter(|&y| {
            (0..200).any(|x| {
                let p = &pixels[(y * 200 + x) as usize];
                p[3] == 255 && p[2] > 200
            })
        })
        .collect();
    assert!(
        *text_ys.iter().min().unwrap() < 200 / 2,
        "box should be top-left"
    );
}

#[test]
fn draw_osd_moves_bottom_right_when_cursor_top_left() {
    let mut canvas = vec![0u8; 200 * 200 * 4];
    let lines = vec!["k  toggle OSD".to_string()];
    draw_osd(&mut canvas, 200, 200, &lines, (10, 10));
    let pixels: Vec<[u8; 4]> = canvas
        .chunks_exact(4)
        .map(|p| [p[0], p[1], p[2], p[3]])
        .collect();
    let text_ys: Vec<i32> = (0..200)
        .filter(|&y| {
            (0..200).any(|x| {
                let p = &pixels[(y * 200 + x) as usize];
                p[3] == 255 && p[2] > 200
            })
        })
        .collect();
    assert!(
        *text_ys.iter().min().unwrap() > 200 / 2,
        "box should be bottom-right"
    );
}

#[test]
fn draw_osd_picks_farthest_corner() {
    let corners = [
        ("top-left", (150, 150)),
        ("top-right", (10, 150)),
        ("bottom-left", (150, 10)),
        ("bottom-right", (10, 10)),
    ];
    for (name, cursor) in corners {
        let mut canvas = vec![0u8; 200 * 200 * 4];
        let lines = vec!["zoom".to_string()];
        draw_osd(&mut canvas, 200, 200, &lines, cursor);
        let pixels: Vec<[u8; 4]> = canvas
            .chunks_exact(4)
            .map(|p| [p[0], p[1], p[2], p[3]])
            .collect();
        let text_xs: Vec<i32> = (0..200)
            .filter(|&x| {
                (0..200).any(|y| {
                    let p = &pixels[(y * 200 + x) as usize];
                    p[3] == 255 && p[2] > 200
                })
            })
            .collect();
        let text_ys: Vec<i32> = (0..200)
            .filter(|&y| {
                (0..200).any(|x| {
                    let p = &pixels[(y * 200 + x) as usize];
                    p[3] == 255 && p[2] > 200
                })
            })
            .collect();
        let min_x = *text_xs.iter().min().unwrap();
        let min_y = *text_ys.iter().min().unwrap();
        let expect_left = name == "top-left" || name == "bottom-left";
        let expect_top = name == "top-left" || name == "top-right";
        assert_eq!(min_x < 100, expect_left, "wrong x placement for {name}");
        assert_eq!(min_y < 100, expect_top, "wrong y placement for {name}");
    }
}

#[test]
fn a_dot_is_four_cells() {
    let mut canvas = vec![0u8; 12 * 16 * 4];
    draw_text(&mut canvas, 12, 16, 0, 0, ".", [1, 2, 3]);
    let set: Vec<(usize, usize)> = (0..16)
        .flat_map(|y| (0..12).map(move |x| (x, y)))
        .filter(|&(x, y)| canvas[(y * 12 + x) * 4 + 3] == 255)
        .collect();
    let want: Vec<(usize, usize)> = (10..14)
        .flat_map(|y| (2..6).map(move |x| (x, y)))
        .collect();
    assert_eq!(set, want);
    let i = (10 * 12 + 2) * 4;
    assert_eq!(&canvas[i..i + 4], &[3, 2, 1, 255]);
}

#[test]
fn sprite_sits_in_its_corner() {
    let lines = vec!["ab".to_string(), "abcd".to_string()];
    let sprite = build_corner_sprite(&lines, [9, 8, 7], Corner::BottomRight, 300, 200).unwrap();
    assert_eq!((sprite.width, sprite.height), (4 * 12 + 16, 2 * 18 + 16));
    assert_eq!((sprite.x, sprite.y), (300 - 14 - 64, 200 - 14 - 52));
    assert_eq!(sprite.buffer.data.len(), 64 * 52 * 4);
    let sprite = build_osd_sprite(&lines, (0, 0), 300, 200).unwrap();
    assert_eq!((sprite.x, sprite.y), (300 - 14 - 64, 200 - 14 - 52));
    assert!(sprite.buffer.data.chunks_exact(4).any(|p| p[0] == TEXT_LEVEL));
}

#[test]
fn nothing_to_show_is_no_sprite() {
    let lines = vec!["ab".to_string()];
    assert!(build_osd_sprite(&[], (0, 0), 300, 200).is_none());
    assert!(build_osd_sprite(&lines, (0, 0), 0, 200).is_none());
    assert!(build_corner_sprite(&lines, [0, 0, 0], Corner::TopLeft, 300, -1).is_none());
}

#[test]
fn corners_are_across_from_each_other() {
    for corner in [
        Corner::TopLeft,
        Corner::TopRight,
        Corner::BottomLeft,
        Corner::BottomRight,
    ] {
        let (x, y) = corner.position(100, 80, 10, 10, 5);
        let (ox, oy) = corner.opposite().position(100, 80, 10, 10, 5);
        assert_eq!((x + ox, y + oy), (90, 70));
    }
}

#[test]
fn upper_and_lower_case_look_alike() {
    let mut a = vec![0u8; 40 * 16 * 4];
    let mut b = vec![0u8; 40 * 16 * 4];
    draw_text(&mut a, 40, 16, 0, 0, "abc", [5, 5, 5]);
    draw_text(&mut b, 40, 16, 0, 0, "ABC", [5, 5, 5]);
    assert_eq!(a, b);
}

#[test]
fn only_lines_that_fit_have_room() {
    assert!(lines_have_room(&[]));
    assert!(lines_have_room(&["maggie".to_string()]));
    // 34 rows of four bytes a pixel: the widest box has 15790320 columns.
    assert!(lines_have_room(&["x".repeat(1_315_858)]));
    assert!(!lines_have_room(&["x".repeat(1_315_859)]));
}
