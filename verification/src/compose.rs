//! Putting a frame together on a canvas, without the help of a graphics card.

use crate::blend;
use crate::osd;
use crate::osd::Corner;
use crate::pixels;
use crate::pixels::Quad;
use crate::render::RgbaBuffer;
use vstd::prelude::*;

verus! {

/// An image and where its top left pixel goes.
#[derive(Clone, Copy, Debug)]
pub struct Placed<'a> {
    pub image: &'a RgbaBuffer,
    pub at: (i32, i32),
}

/// A few lines of text, their colour and their corner.
#[derive(Clone, Copy, Debug)]
pub struct Legend<'a> {
    pub lines: &'a Vec<String>,
    pub color: [u8; 3],
    pub corner: Corner,
}

/// What a frame shows, from bottom to top.
#[derive(Clone, Copy, Debug)]
pub struct Scene<'a> {
    /// The magnified screen.
    pub magnified: Placed<'a>,
    /// The overlay of the selection.
    pub overlay: Option<Placed<'a>>,
    /// The magnified pointer.
    pub cursor: Option<Placed<'a>>,
    /// The minimap.
    pub minimap: Option<Placed<'a>>,
    /// The outline of the minimap.
    pub outline: Option<Placed<'a>>,
    /// The key legend.
    pub osd: Option<Legend<'a>>,
    /// A hint.
    pub hint: Option<Legend<'a>>,
}

impl<'a> Placed<'a> {
    pub open spec fn wf(self) -> bool {
        self.image.wf()
    }

    /// Whether the image has a pixel at position `(x, y)` of the canvas.
    pub open spec fn covers(self, x: int, y: int) -> bool {
        self.image.has(x - self.at.0, y - self.at.1)
    }

    /// The pixel of the image at position `(x, y)` of the canvas.
    pub open spec fn px(self, x: int, y: int) -> Quad {
        self.image.at(x - self.at.0, y - self.at.1)
    }
}

impl<'a> Legend<'a> {
    pub open spec fn wf(self) -> bool {
        self.lines@.len() > 0 ==> osd::lines_fit(self.lines@)
    }
}

impl<'a> Scene<'a> {
    pub open spec fn wf(self) -> bool {
        &&& self.magnified.wf()
        &&& self.overlay matches Some(o) ==> o.wf()
        &&& self.cursor matches Some(o) ==> o.wf()
        &&& self.minimap matches Some(o) ==> o.wf()
        &&& self.outline matches Some(o) ==> o.wf()
        &&& self.osd matches Some(l) ==> l.wf()
        &&& self.hint matches Some(l) ==> l.wf()
    }
}

/// A canvas pixel after an image went over it.
pub open spec fn with_layer(layer: Option<Placed>, how: blend::Over, x: int, y: int, p: Quad) -> Quad {
    match layer {
        Some(l) => if l.covers(x, y) {
            blend::over(how, p, l.px(x, y))
        } else {
            p
        },
        None => p,
    }
}

/// A canvas pixel after some text went over it.
pub open spec fn with_legend(
    legend: Option<Legend>,
    canvas: (int, int),
    x: int,
    y: int,
    p: Quad,
) -> Quad {
    match legend {
        Some(l) => if l.lines@.len() > 0 {
            osd::osd_px(l.lines@, l.color, l.corner, canvas, x, y, p)
        } else {
            p
        },
        None => p,
    }
}

/// The bottom of a frame: the magnified screen on transparent black.
pub open spec fn ground_px(scene: Scene, x: int, y: int) -> Quad {
    if scene.magnified.covers(x, y) {
        scene.magnified.px(x, y)
    } else {
        (0u8, 0u8, 0u8, 0u8)
    }
}

/// The pixel of a frame at `(x, y)`: the layers over each other, from the
/// magnified screen up to the hint.
pub open spec fn scene_px(scene: Scene, canvas: (int, int), x: int, y: int) -> Quad {
    let p = ground_px(scene, x, y);
    let p = with_layer(scene.overlay, blend::Over::Overlay, x, y, p);
    let p = with_layer(scene.cursor, blend::Over::Cursor, x, y, p);
    let p = with_layer(scene.minimap, blend::Over::Overlay, x, y, p);
    let p = with_layer(scene.outline, blend::Over::Outline, x, y, p);
    let p = with_legend(scene.osd, canvas, x, y, p);
    with_legend(scene.hint, canvas, x, y, p)
}

fn lay_over(canvas: &mut [u8], width: i32, height: i32, layer: Option<Placed>, how: blend::Over)
    requires
        0 <= width,
        0 <= height,
        width * height * 4 <= old(canvas)@.len(),
        layer matches Some(l) ==> l.wf(),
    ensures
        pixels::painted(
            old(canvas)@,
            final(canvas)@,
            width as int,
            height as int,
            |x: int, y: int, p: Quad| with_layer(layer, how, x, y, p),
        ),
{
    if let Some(l) = layer {
        blend::put_over(
            canvas,
            width as usize,
            height as usize,
            l.image.data.as_slice(),
            l.image.width,
            l.image.height,
            l.at.0,
            l.at.1,
            how,
        );
    }
}

fn write_over(canvas: &mut [u8], width: i32, height: i32, legend: Option<Legend>)
    requires
        0 < width,
        0 < height,
        width * height * 4 <= old(canvas)@.len(),
        legend matches Some(l) ==> l.wf(),
    ensures
        pixels::painted(
            old(canvas)@,
            final(canvas)@,
            width as int,
            height as int,
            |x: int, y: int, p: Quad|
                with_legend(legend, (width as int, height as int), x, y, p),
        ),
{
    if let Some(l) = legend {
        osd::draw_corner_osd(canvas, width, height, l.lines.as_slice(), l.color, l.corner);
    }
}

/// Copies the magnified screen onto the canvas, and clears what it leaves free.
fn lay_ground(canvas: &mut [u8], width: i32, height: i32, scene: &Scene)
    requires
        0 <= width,
        0 <= height,
        width * height * 4 <= old(canvas)@.len(),
        scene.wf(),
    ensures
        pixels::painted(
            old(canvas)@,
            final(canvas)@,
            width as int,
            height as int,
            |x: int, y: int, p: Quad| ground_px(*scene, x, y),
        ),
{
    let w: usize = width as usize;
    let h: usize = height as usize;
    let image: &RgbaBuffer = scene.magnified.image;
    let (ox, oy): (i32, i32) = scene.magnified.at;
    let ghost before = canvas@;
    let mut y: i32 = 0;
    while y < height
        invariant
            0 <= y <= height,
            0 <= width,
            w == width,
            h == height,
            w * h * 4 <= canvas@.len(),
            image.wf(),
            image == scene.magnified.image,
            (ox, oy) == scene.magnified.at,
            pixels::painted(
                before,
                canvas@,
                width as int,
                height as int,
                |px: int, py: int, p: Quad|
                    if py < y {
                        ground_px(*scene, px, py)
                    } else {
                        p
                    },
            ),
        decreases height - y,
    {
        let mut x: i32 = 0;
        while x < width
            invariant
                0 <= y < height,
                0 <= x <= width,
                w == width,
                h == height,
                w * h * 4 <= canvas@.len(),
                image.wf(),
                image == scene.magnified.image,
                (ox, oy) == scene.magnified.at,
                pixels::painted(
                    before,
                    canvas@,
                    width as int,
                    height as int,
                    |px: int, py: int, p: Quad|
                        if py < y || (py == y && px < x) {
                            ground_px(*scene, px, py)
                        } else {
                            p
                        },
                ),
            decreases width - x,
        {
            let sx: i64 = x as i64 - ox as i64;
            let sy: i64 = y as i64 - oy as i64;
            let q: [u8; 4] = if 0 <= sx && sx < image.width as i64 && 0 <= sy && sy
                < image.height as i64 {
                pixels::get_px(
                    image.data.as_slice(),
                    image.width as usize,
                    image.height as usize,
                    sx as usize,
                    sy as usize,
                )
            } else {
                [0, 0, 0, 0]
            };
            pixels::put_px(canvas, w, h, x as usize, y as usize, q);
            x += 1;
        }
        y += 1;
    }
}

/// Draws a whole frame.
pub fn compose_frame(canvas: &mut [u8], width: i32, height: i32, scene: &Scene)
    requires
        0 < width,
        0 < height,
        width * height * 4 <= old(canvas)@.len(),
        scene.wf(),
    ensures
        pixels::painted(
            old(canvas)@,
            final(canvas)@,
            width as int,
            height as int,
            |x: int, y: int, p: Quad| scene_px(*scene, (width as int, height as int), x, y),
        ),
{
    lay_ground(canvas, width, height, scene);
    lay_over(canvas, width, height, scene.overlay, blend::Over::Overlay);
    lay_over(canvas, width, height, scene.cursor, blend::Over::Cursor);
    lay_over(canvas, width, height, scene.minimap, blend::Over::Overlay);
    lay_over(canvas, width, height, scene.outline, blend::Over::Outline);
    write_over(canvas, width, height, scene.osd);
    write_over(canvas, width, height, scene.hint);
}

/// Fills the canvas with opaque black: there is no picture to magnify.
pub fn draw_black_overlay(canvas: &mut [u8], width: i32, height: i32)
    requires
        0 <= width,
        0 <= height,
        width * height * 4 <= old(canvas)@.len(),
    ensures
        pixels::painted(
            old(canvas)@,
            final(canvas)@,
            width as int,
            height as int,
            |x: int, y: int, p: Quad| (0u8, 0u8, 0u8, 255u8),
        ),
{
    pixels::fill_px(canvas, width, height, 0, width, 0, height, [0, 0, 0, 255]);
}

/// What is on the canvas before a frame is drawn does not show through: two
/// canvases that a frame was drawn on look alike.
pub proof fn frames_do_not_depend_on_the_canvas(
    before_a: Seq<u8>,
    after_a: Seq<u8>,
    before_b: Seq<u8>,
    after_b: Seq<u8>,
    w: int,
    h: int,
    scene: Scene,
    x: int,
    y: int,
)
    requires
        pixels::painted(
            before_a,
            after_a,
            w,
            h,
            |x: int, y: int, p: Quad| scene_px(scene, (w, h), x, y),
        ),
        pixels::painted(
            before_b,
            after_b,
            w,
            h,
            |x: int, y: int, p: Quad| scene_px(scene, (w, h), x, y),
        ),
        pixels::inside(w, h, x, y),
    ensures
        pixels::px_at(after_a, w, x, y) == pixels::px_at(after_b, w, x, y),
{
}

/// What a frame looks like on a canvas: the postcondition of [`compose_frame`].
pub open spec fn shows_scene(before: Seq<u8>, after: Seq<u8>, w: int, h: int, scene: Scene) -> bool {
    pixels::painted(before, after, w, h, |x: int, y: int, p: Quad| scene_px(scene, (w, h), x, y))
}

/// With nothing over it, the magnified screen is shown as it is: row by row and
/// column by column from its place on, with nothing around it.
pub proof fn bare_frame_shows_the_screen(
    before: Seq<u8>,
    after: Seq<u8>,
    w: int,
    h: int,
    scene: Scene,
    i: int,
    j: int,
)
    requires
        shows_scene(before, after, w, h, scene),
        scene.overlay is None,
        scene.cursor is None,
        scene.minimap is None,
        scene.outline is None,
        scene.osd is None,
        scene.hint is None,
        pixels::inside(w, h, scene.magnified.at.0 + i, scene.magnified.at.1 + j),
    ensures
        scene.magnified.image.has(i, j) ==> pixels::px_at(
            after,
            w,
            scene.magnified.at.0 + i,
            scene.magnified.at.1 + j,
        ) == scene.magnified.image.at(i, j),
        !scene.magnified.image.has(i, j) ==> pixels::px_at(
            after,
            w,
            scene.magnified.at.0 + i,
            scene.magnified.at.1 + j,
        ) == (0u8, 0u8, 0u8, 0u8),
{
}

/// Whether a layer shows nothing at a position of the canvas.
pub open spec fn clear_at(layer: Option<Placed>, x: int, y: int) -> bool {
    match layer {
        Some(l) => {
            let (i, j) = (x - l.at.0, y - l.at.1);
            !(0 <= i < l.image.width && 0 <= j < l.image.height) || l.image.at(i, j).3 == 0
        },
        None => true,
    }
}

/// The pixel of a layer at a position of the canvas, where it is opaque there.
pub open spec fn opaque_at(layer: Option<Placed>, x: int, y: int) -> Option<Quad> {
    match layer {
        Some(l) => {
            let (i, j) = (x - l.at.0, y - l.at.1);
            if 0 <= i < l.image.width && 0 <= j < l.image.height && l.image.at(i, j).3 == 255 {
                Some(l.image.at(i, j))
            } else {
                None
            }
        },
        None => None,
    }
}

proof fn lemma_clear(layer: Option<Placed>, how: blend::Over, x: int, y: int, p: Quad)
    ensures
        clear_at(layer, x, y) ==> with_layer(layer, how, x, y, p) == p,
{
    if let Some(l) = layer {
        blend::images_show_or_let_through(how, p, l.px(x, y));
    }
}

/// The layers lie over each other in order. An opaque pixel of a layer is what
/// the frame shows at its place where every layer above is clear there: the
/// overlay of the selection over the screen, the pointer over that, the minimap
/// over that. Where they are all clear the screen shows.
pub proof fn upper_layers_hide_lower_ones(
    before: Seq<u8>,
    after: Seq<u8>,
    w: int,
    h: int,
    scene: Scene,
    x: int,
    y: int,
)
    requires
        shows_scene(before, after, w, h, scene),
        scene.osd is None,
        scene.hint is None,
        clear_at(scene.outline, x, y),
        pixels::inside(w, h, x, y),
    ensures
        opaque_at(scene.minimap, x, y) matches Some(q) ==> pixels::px_at(after, w, x, y) == q,
        clear_at(scene.minimap, x, y) ==> (opaque_at(scene.cursor, x, y) matches Some(q)
            ==> pixels::px_at(after, w, x, y) == q),
        clear_at(scene.minimap, x, y) && clear_at(scene.cursor, x, y) ==> (opaque_at(
            scene.overlay,
            x,
            y,
        ) matches Some(q) ==> pixels::px_at(after, w, x, y) == q),
        clear_at(scene.minimap, x, y) && clear_at(scene.cursor, x, y) && clear_at(
            scene.overlay,
            x,
            y,
        ) && scene.magnified.image.has(x - scene.magnified.at.0, y - scene.magnified.at.1)
            ==> pixels::px_at(after, w, x, y) == scene.magnified.image.at(
            x - scene.magnified.at.0,
            y - scene.magnified.at.1,
        ),
{
    let p0 = ground_px(scene, x, y);
    let p1 = with_layer(scene.overlay, blend::Over::Overlay, x, y, p0);
    let p2 = with_layer(scene.cursor, blend::Over::Cursor, x, y, p1);
    let p3 = with_layer(scene.minimap, blend::Over::Overlay, x, y, p2);
    lemma_clear(scene.overlay, blend::Over::Overlay, x, y, p0);
    lemma_clear(scene.cursor, blend::Over::Cursor, x, y, p1);
    lemma_clear(scene.minimap, blend::Over::Overlay, x, y, p2);
    lemma_clear(scene.outline, blend::Over::Outline, x, y, p3);
    if let Some(l) = scene.overlay {
        blend::images_show_or_let_through(blend::Over::Overlay, p0, l.px(x, y));
    }
    if let Some(l) = scene.cursor {
        blend::images_show_or_let_through(blend::Over::Cursor, p1, l.px(x, y));
    }
    if let Some(l) = scene.minimap {
        blend::images_show_or_let_through(blend::Over::Overlay, p2, l.px(x, y));
    }
}

/// The outline of the minimap goes over the minimap: where it is opaque it gives
/// the frame its colours, over whatever is below.
pub proof fn outline_lies_over_the_minimap(
    before: Seq<u8>,
    after: Seq<u8>,
    w: int,
    h: int,
    scene: Scene,
    x: int,
    y: int,
)
    requires
        shows_scene(before, after, w, h, scene),
        scene.osd is None,
        scene.hint is None,
        scene.outline matches Some(l) && l.image.has(x - l.at.0, y - l.at.1) && l.image.at(
            x - l.at.0,
            y - l.at.1,
        ).3 == 255,
        pixels::inside(w, h, x, y),
    ensures
        ({
            let l = scene.outline->0;
            let o = l.image.at(x - l.at.0, y - l.at.1);
            let r = pixels::px_at(after, w, x, y);
            (r.0, r.1, r.2) == (o.0, o.1, o.2)
        }),
{
    let p0 = ground_px(scene, x, y);
    let p1 = with_layer(scene.overlay, blend::Over::Overlay, x, y, p0);
    let p2 = with_layer(scene.cursor, blend::Over::Cursor, x, y, p1);
    let p3 = with_layer(scene.minimap, blend::Over::Overlay, x, y, p2);
    blend::images_show_or_let_through(
        blend::Over::Outline,
        p3,
        scene.outline->0.px(x, y),
    );
}

/// Layers that are neither clear nor opaque mix with the screen by their opacity:
/// the overlay and the minimap to an opaque pixel, the pointer in all channels,
/// the outline at the opacity of what is below.
pub proof fn layers_mix_with_the_screen(
    before: Seq<u8>,
    after: Seq<u8>,
    w: int,
    h: int,
    scene: Scene,
    x: int,
    y: int,
)
    requires
        shows_scene(before, after, w, h, scene),
        scene.osd is None,
        scene.hint is None,
        pixels::inside(w, h, x, y),
        scene.magnified.image.has(x - scene.magnified.at.0, y - scene.magnified.at.1),
    ensures
        ({
            let d = scene.magnified.image.at(
                x - scene.magnified.at.0,
                y - scene.magnified.at.1,
            );
            let r = pixels::px_at(after, w, x, y);
            let mixes = |l: Placed| {
                let o = l.image.at(x - l.at.0, y - l.at.1);
                &&& -127 <= o.0 * o.3 + d.0 * (255 - o.3) - 255 * r.0 <= 127
                &&& -127 <= o.1 * o.3 + d.1 * (255 - o.3) - 255 * r.1 <= 127
                &&& -127 <= o.2 * o.3 + d.2 * (255 - o.3) - 255 * r.2 <= 127
            };
            let mixes_down = |l: Placed| {
                let o = l.image.at(x - l.at.0, y - l.at.1);
                &&& 0 <= o.0 * o.3 + d.0 * (255 - o.3) - 255 * r.0 <= 254
                &&& 0 <= o.1 * o.3 + d.1 * (255 - o.3) - 255 * r.1 <= 254
                &&& 0 <= o.2 * o.3 + d.2 * (255 - o.3) - 255 * r.2 <= 254
            };
            let opacity_mixes = |l: Placed| {
                let o = l.image.at(x - l.at.0, y - l.at.1);
                -127 <= o.3 * o.3 + d.3 * (255 - o.3) - 255 * r.3 <= 127
            };
            let partly = |l: Placed|
                {
                    &&& l.image.has(x - l.at.0, y - l.at.1)
                    &&& 0 < l.image.at(x - l.at.0, y - l.at.1).3 < 255
                };
            &&& scene.cursor is None && scene.minimap is None && scene.outline is None && (
            scene.overlay matches Some(l) && partly(l)) ==> mixes(scene.overlay->0) && r.3 == 255
            &&& scene.overlay is None && scene.minimap is None && scene.outline is None && (
            scene.cursor matches Some(l) && partly(l)) ==> mixes(scene.cursor->0) && opacity_mixes(
                scene.cursor->0,
            )
            &&& scene.overlay is None && scene.cursor is None && scene.outline is None && (
            scene.minimap matches Some(l) && partly(l)) ==> mixes(scene.minimap->0) && r.3 == 255
            &&& scene.overlay is None && scene.cursor is None && scene.minimap is None && (
            scene.outline matches Some(l) && partly(l)) ==> mixes_down(scene.outline->0) && r.3 == d.3
        }),
{
    let d = ground_px(scene, x, y);
    if let Some(l) = scene.overlay {
        if l.covers(x, y) && 0 < l.px(x, y).3 < 255 {
            blend::images_mix_by_opacity(d, l.px(x, y));
        }
    }
    if let Some(l) = scene.cursor {
        if l.covers(x, y) && 0 < l.px(x, y).3 < 255 {
            blend::images_mix_by_opacity(d, l.px(x, y));
        }
    }
    if let Some(l) = scene.minimap {
        if l.covers(x, y) && 0 < l.px(x, y).3 < 255 {
            blend::images_mix_by_opacity(d, l.px(x, y));
        }
    }
    if let Some(l) = scene.outline {
        if l.covers(x, y) && 0 < l.px(x, y).3 < 255 {
            blend::images_mix_by_opacity(d, l.px(x, y));
        }
    }
}

/// Text lies over everything else: a pixel of the legend's box is what the frame
/// shows, whatever is below, and a pixel of the hint's box hides the legend too.
/// The boxes are fourteen pixels away from the edges of their corner.
pub proof fn text_lies_over_everything(
    before: Seq<u8>,
    after: Seq<u8>,
    w: int,
    h: int,
    scene: Scene,
    i: int,
    j: int,
)
    requires
        shows_scene(before, after, w, h, scene),
    ensures
        ({
            let left = |l: Legend|
                if l.corner == Corner::TopLeft || l.corner == Corner::BottomLeft {
                    14
                } else {
                    w - 14 - osd::box_width(l.lines@)
                };
            let top = |l: Legend|
                if l.corner == Corner::TopLeft || l.corner == Corner::TopRight {
                    14
                } else {
                    h - 14 - osd::box_height(l.lines@)
                };
            let shown = |l: Legend|
                {
                    &&& l.lines@.len() > 0
                    &&& 0 <= i < osd::box_width(l.lines@)
                    &&& 0 <= j < osd::box_height(l.lines@)
                    &&& pixels::inside(w, h, left(l) + i, top(l) + j)
                };
            &&& (scene.hint matches Some(l) && shown(l)) ==> pixels::px_at(
                after,
                w,
                left(scene.hint->0) + i,
                top(scene.hint->0) + j,
            ) == osd::legend_px(scene.hint->0.lines@, scene.hint->0.color, i, j)
            &&& scene.hint is None && (scene.osd matches Some(l) && shown(l)) ==> pixels::px_at(
                after,
                w,
                left(scene.osd->0) + i,
                top(scene.osd->0) + j,
            ) == osd::legend_px(scene.osd->0.lines@, scene.osd->0.color, i, j)
        }),
{
}

/// A legend without lines shows nothing.
pub proof fn empty_legends_show_nothing(l: Legend, canvas: (int, int), x: int, y: int, p: Quad)
    requires
        l.lines@.len() == 0,
    ensures
        with_legend(Some(l), canvas, x, y, p) == p,
        with_legend(None, canvas, x, y, p) == p,
{
}

} // verus!
