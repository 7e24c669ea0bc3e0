//! The magnified pointer: the picture of it, from a theme or drawn, and scaled.

use crate::capture;
use crate::number::Number;
use crate::pixels;
use crate::pixels::Quad;
use crate::render::RgbaBuffer;
use crate::text;
use crate::zoom;
use vstd::prelude::*;
use vstd::utf8::encode_utf8;

verus! {

/// Edge length of the drawn pointer.
pub const CURSOR_SIZE_BASE: i32 = 16;

/// Half the edge length of its black centre.
pub const CURSOR_CENTER_HALF: i32 = 4;

/// Thickness of the white ring around the centre.
pub const CURSOR_RING_THICKNESS: i32 = 2;

/// The bits of 8, half the edge length of the drawn pointer.
pub const EIGHT: u64 = 0x4020_0000_0000_0000;

/// The distance of two coordinates.
pub open spec fn gap(a: int, b: int) -> int {
    if a < b {
        b - a
    } else {
        a - b
    }
}

/// The pixel at `(x, y)` of the drawn pointer with the given edge length: a
/// black square in a white ring.
pub open spec fn reticle_px(size: int, x: int, y: int) -> Quad {
    let dx = gap(x, size / 2);
    let dy = gap(y, size / 2);
    if dx < 4 && dy < 4 {
        (0u8, 0u8, 0u8, 255u8)
    } else if dx < 6 && dy < 6 {
        (255u8, 255u8, 255u8, 255u8)
    } else {
        (0u8, 0u8, 0u8, 0u8)
    }
}

/// Draws the pointer that is used where no theme has one. Its edge is at least
/// one pixel.
pub fn build_reticle(base_size: i32) -> (r: RgbaBuffer)
    requires
        base_size <= 23170,
    ensures
        r.wf(),
        r.width == (if base_size < 1 {
            1
        } else {
            base_size
        }),
        r.height == r.width,
        forall|x: int, y: int|
            r.has(x, y) ==> #[trigger] r.at(x, y) == reticle_px(r.width as int, x, y),
{
    let size: i32 = if base_size < 1 { 1 } else { base_size };
    assert(0 <= size * size * 4 <= 23170 * 23170 * 4) by (nonlinear_arith)
        requires
            1 <= size <= 23170,
    ;
    let mut buffer = RgbaBuffer::new(size, size);
    let ghost blank = buffer;
    let c: i32 = size / 2;
    let half: i32 = CURSOR_CENTER_HALF;
    let ring: i32 = CURSOR_CENTER_HALF + CURSOR_RING_THICKNESS;
    pixels::fill_px(
        buffer.data.as_mut_slice(),
        size,
        size,
        c - ring + 1,
        c + ring,
        c - ring + 1,
        c + ring,
        [255, 255, 255, 255],
    );
    let ghost ringed = buffer;
    pixels::fill_px(
        buffer.data.as_mut_slice(),
        size,
        size,
        c - half + 1,
        c + half,
        c - half + 1,
        c + half,
        [0, 0, 0, 255],
    );
    assert forall|x: int, y: int| buffer.has(x, y) implies #[trigger] buffer.at(x, y) == reticle_px(
        size as int,
        x,
        y,
    ) by {
        assert(blank.has(x, y) && ringed.has(x, y));
        assert(blank.at(x, y) == (0u8, 0u8, 0u8, 0u8));
        assert(ringed.at(x, y) == pixels::px_at(ringed.data@, size as int, x, y));
    }
    buffer
}

/// One image of a cursor file.
#[derive(Debug)]
pub struct CursorImage {
    /// The size that the image is meant for.
    pub size: u32,
    pub width: u32,
    pub height: u32,
    /// The pixel of the image that is the tip of the pointer.
    pub xhot: u32,
    pub yhot: u32,
    /// Four bytes for each pixel, in the order of the file.
    pub pixels_rgba: Vec<u8>,
}

/// What a cursor image holds: its size, width, height, hotspot and bytes.
pub type ImageParts = (u32, u32, u32, u32, u32, Seq<u8>);

impl CursorImage {
    pub open spec fn parts(self) -> ImageParts {
        (self.size, self.width, self.height, self.xhot, self.yhot, self.pixels_rgba@)
    }

    /// The image has pixels, all of them, and its hotspot is on it.
    pub open spec fn wf(self) -> bool {
        &&& 1 <= self.width <= 0x7fff
        &&& 1 <= self.height <= 0x7fff
        &&& self.xhot <= self.width
        &&& self.yhot <= self.height
        &&& self.pixels_rgba@.len() == 4 * self.width * self.height
    }

    /// The bytes of the image can be counted in the type of its sides.
    pub open spec fn fits(self) -> bool {
        self.width * self.height * 4 <= i32::MAX
    }
}

/// The images of a cursor file, as the `xcursor` crate reads them; `None` where
/// it is not one.
pub uninterp spec fn xcursor_images(file: Seq<u8>) -> Option<Seq<ImageParts>>;

/// `xcursor::parser::parse_xcursor`. It refuses images without pixels, images
/// more than 32767 pixels wide or high, and hotspots outside the image, and
/// reads four bytes for every pixel.
#[verifier::external_body]
fn parse_xcursor(file: &[u8]) -> (r: Option<Vec<CursorImage>>)
    ensures
        match r {
            Some(images) => {
                &&& xcursor_images(file@) is Some
                &&& xcursor_images(file@)->0.len() == images@.len()
                &&& forall|i: int|
                    0 <= i < images@.len() ==> (#[trigger] images@[i]).parts() == xcursor_images(
                        file@,
                    )->0[i]
                &&& forall|i: int| 0 <= i < images@.len() ==> (#[trigger] images@[i]).wf()
            },
            None => xcursor_images(file@) is None,
        },
{
    let images = xcursor::parser::parse_xcursor(file)?;
    Some(images.into_iter().map(|i| CursorImage {
        size: i.size,
        width: i.width,
        height: i.height,
        xhot: i.xhot,
        yhot: i.yhot,
        pixels_rgba: i.pixels_rgba,
    }).collect())
}

/// A pixel with its colours taken back out of its opacity. One whose colours
/// exceed its opacity was never multiplied by it and stays.
pub open spec fn straightened(p: Quad) -> Quad {
    if p.3 == 0 {
        (0u8, 0u8, 0u8, 0u8)
    } else if p.0 > p.3 || p.1 > p.3 || p.2 > p.3 {
        p
    } else {
        (
            (p.0 * 255 / (p.3 as int)) as u8,
            (p.1 * 255 / (p.3 as int)) as u8,
            (p.2 * 255 / (p.3 as int)) as u8,
            p.3,
        )
    }
}

fn straighten(p: [u8; 4]) -> (r: [u8; 4])
    ensures
        pixels::quad(r) == straightened(pixels::quad(p)),
{
    let (red, green, blue, a): (u8, u8, u8, u8) = (p[0], p[1], p[2], p[3]);
    if a == 0 {
        [0, 0, 0, 0]
    } else if red > a || green > a || blue > a {
        [red, green, blue, a]
    } else {
        proof {
            lemma_ratio(red, a);
            lemma_ratio(green, a);
            lemma_ratio(blue, a);
        }
        [
            (red as u32 * 255 / a as u32) as u8,
            (green as u32 * 255 / a as u32) as u8,
            (blue as u32 * 255 / a as u32) as u8,
            a,
        ]
    }
}

proof fn lemma_ratio(v: u8, a: u8)
    requires
        v <= a,
        0 < a,
    ensures
        0 <= v * 255 / (a as int) <= 255,
{
    assert(0 <= v * 255 / (a as int) <= 255) by (nonlinear_arith)
        requires
            v <= a,
            0 < a,
    ;
}

/// Turns an image of a cursor file into one with straight opacity, and gives
/// its hotspot.
pub fn image_to_buffer(img: &CursorImage) -> (r: (RgbaBuffer, (u32, u32)))
    requires
        img.wf(),
        img.fits(),
    ensures
        r.0.wf(),
        r.0.width == img.width,
        r.0.height == img.height,
        forall|x: int, y: int|
            r.0.has(x, y) ==> #[trigger] r.0.at(x, y) == straightened(
                pixels::px_at(img.pixels_rgba@, img.width as int, x, y),
            ),
        r.1 == (img.xhot, img.yhot),
{
    let w: i32 = img.width as i32;
    let h: i32 = img.height as i32;
    assert(0 <= w * h) by (nonlinear_arith)
        requires
            0 <= w,
            0 <= h,
    ;
    assert(4 * w * h == w * h * 4) by (nonlinear_arith);
    let mut buffer = RgbaBuffer::new(w, h);
    let mut y: i32 = 0;
    while y < h
        invariant
            img.wf(),
            buffer.wf(),
            buffer.width == w == img.width,
            buffer.height == h == img.height,
            img.pixels_rgba@.len() == w * h * 4,
            0 <= y <= h,
            forall|px: int, py: int|
                buffer.has(px, py) && py < y ==> #[trigger] buffer.at(px, py) == straightened(
                    pixels::px_at(img.pixels_rgba@, w as int, px, py),
                ),
        decreases h - y,
    {
        let mut x: i32 = 0;
        while x < w
            invariant
                img.wf(),
                buffer.wf(),
                buffer.width == w == img.width,
                buffer.height == h == img.height,
                img.pixels_rgba@.len() == w * h * 4,
                0 <= y < h,
                0 <= x <= w,
                forall|px: int, py: int|
                    buffer.has(px, py) && (py < y || (py == y && px < x)) ==> #[trigger] buffer.at(
                        px,
                        py,
                    ) == straightened(pixels::px_at(img.pixels_rgba@, w as int, px, py)),
            decreases w - x,
        {
            let p: [u8; 4] = pixels::get_px(
                img.pixels_rgba.as_slice(),
                w as usize,
                h as usize,
                x as usize,
                y as usize,
            );
            let ghost before = buffer;
            buffer.set_pixel(x, y, straighten(p));
            assert forall|qx: int, qy: int|
                buffer.has(qx, qy) && (qy < y || (qy == y && qx < x + 1)) implies #[trigger] buffer.at(
                qx,
                qy,
            ) == straightened(pixels::px_at(img.pixels_rgba@, w as int, qx, qy)) by {
                assert(before.has(qx, qy));
                assert(before.at(qx, qy) == pixels::px_at(before.data@, w as int, qx, qy));
            }
            x += 1;
        }
        y += 1;
    }
    (buffer, (img.xhot, img.yhot))
}

/// The first of the images whose size is nearest to the wanted one.
pub open spec fn is_nearest(images: Seq<CursorImage>, size: u32, k: int) -> bool {
    &&& 0 <= k < images.len()
    &&& forall|i: int|
        0 <= i < images.len() ==> gap(size as int, images[k].size as int) <= gap(
            size as int,
            (#[trigger] images[i]).size as int,
        )
    &&& forall|i: int|
        0 <= i < k ==> gap(size as int, images[k].size as int) < gap(
            size as int,
            (#[trigger] images[i]).size as int,
        )
}

/// Picks the image whose size is nearest to the wanted one, the first of
/// equally near ones.
pub fn nearest_image(images: &Vec<CursorImage>, size: u32) -> (r: Option<usize>)
    ensures
        match r {
            Some(k) => is_nearest(images@, size, k as int),
            None => images@.len() == 0,
        },
{
    if images.len() == 0 {
        return None;
    }
    let mut best: usize = 0;
    let mut i: usize = 1;
    while i < images.len()
        invariant
            1 <= i <= images@.len(),
            best < i,
            forall|k: int|
                0 <= k < i ==> gap(size as int, images@[best as int].size as int) <= gap(
                    size as int,
                    (#[trigger] images@[k]).size as int,
                ),
            forall|k: int|
                0 <= k < best ==> gap(size as int, images@[best as int].size as int) < gap(
                    size as int,
                    (#[trigger] images@[k]).size as int,
                ),
        decreases images@.len() - i,
    {
        let a: u32 = images[best].size;
        let b: u32 = images[i].size;
        let da: u32 = if size < a { a - size } else { size - a };
        let db: u32 = if size < b { b - size } else { size - b };
        if db < da {
            best = i;
        }
        i += 1;
    }
    Some(best)
}

/// The picture of the pointer that a cursor file gives for the wanted size, with
/// its hotspot, from the images that were read from the file. There is none
/// where there are no images, or where the picked one is too large.
pub fn pick_cursor(images: &Vec<CursorImage>, size: u32) -> (r: Option<(RgbaBuffer, (u32, u32))>)
    requires
        forall|i: int| 0 <= i < images@.len() ==> (#[trigger] images@[i]).wf(),
    ensures
        match r {
            Some((buffer, hotspot)) => exists|k: int|
                #![trigger images@[k]]
                {
                    &&& is_nearest(images@, size, k)
                    &&& images@[k].fits()
                    &&& buffer.wf()
                    &&& buffer.width == images@[k].width
                    &&& buffer.height == images@[k].height
                    &&& forall|x: int, y: int|
                        buffer.has(x, y) ==> #[trigger] buffer.at(x, y) == straightened(
                            pixels::px_at(
                                images@[k].pixels_rgba@,
                                images@[k].width as int,
                                x,
                                y,
                            ),
                        )
                    &&& hotspot == (images@[k].xhot, images@[k].yhot)
                },
            None => images@.len() == 0 || exists|k: int|
                #![trigger images@[k]]
                is_nearest(images@, size, k) && !images@[k].fits(),
        },
{
    let k: usize = match nearest_image(images, size) {
        Some(k) => k,
        None => {
            return None;
        },
    };
    let img: &CursorImage = &images[k];
    assert(0 <= img.width * img.height <= 0x7fff * 0x7fff) by (nonlinear_arith)
        requires
            0 <= img.width <= 0x7fff,
            0 <= img.height <= 0x7fff,
    ;
    let bytes: u64 = img.width as u64 * img.height as u64 * 4;
    if bytes > i32::MAX as u64 {
        assert(is_nearest(images@, size, k as int) && !images@[k as int].fits());
        return None;
    }
    let r: (RgbaBuffer, (u32, u32)) = image_to_buffer(img);
    assert(is_nearest(images@, size, k as int) && images@[k as int].fits());
    Some(r)
}

/// The picture of the pointer in a cursor file for the wanted size. There is
/// none where the file cannot be read, holds no image, or the picked image is
/// too large.
pub fn load_cursor(file: &[u8], size: u32) -> (r: Option<(RgbaBuffer, (u32, u32))>)
    ensures
        match r {
            Some((buffer, hotspot)) => exists|images: Seq<CursorImage>, k: int|
                #![trigger is_nearest(images, size, k)]
                {
                    &&& xcursor_images(file@) == Some(images.map_values(|i: CursorImage| i.parts()))
                    &&& is_nearest(images, size, k)
                    &&& images[k].fits()
                    &&& buffer.wf()
                    &&& buffer.width == images[k].width
                    &&& buffer.height == images[k].height
                    &&& forall|x: int, y: int|
                        buffer.has(x, y) ==> #[trigger] buffer.at(x, y) == straightened(
                            pixels::px_at(
                                images[k].pixels_rgba@,
                                images[k].width as int,
                                x,
                                y,
                            ),
                        )
                    &&& hotspot == (images[k].xhot, images[k].yhot)
                },
            None => xcursor_images(file@) is None || xcursor_images(file@)->0.len() == 0
                || exists|images: Seq<CursorImage>, k: int|
                #![trigger is_nearest(images, size, k)]
                {
                    &&& xcursor_images(file@) == Some(images.map_values(|i: CursorImage| i.parts()))
                    &&& is_nearest(images, size, k)
                    &&& !images[k].fits()
                },
        },
{
    let images: Vec<CursorImage> = match parse_xcursor(file) {
        Some(images) => images,
        None => {
            return None;
        },
    };
    assert(xcursor_images(file@)->0 =~= images@.map_values(|i: CursorImage| i.parts()));
    pick_cursor(&images, size)
}

/// The scaled picture that was made last: for which factor, and where its
/// hotspot is.
#[derive(Debug)]
pub struct CachedSprite {
    pub factor: Number,
    pub sprite: RgbaBuffer,
    pub hotspot: (Number, Number),
}

/// The pointer as it is shown: its picture, hotspot and zoom, and the scaled
/// picture that was made last.
#[derive(Debug)]
pub struct MagnifiedCursor {
    pub base: RgbaBuffer,
    pub hotspot: (Number, Number),
    pub zoom: Number,
    pub cache: Option<CachedSprite>,
}

impl MagnifiedCursor {
    pub open spec fn wf(self) -> bool {
        &&& self.base.wf()
        &&& self.cache matches Some(c) ==> c.sprite.wf()
    }

    /// The pointer of the theme, or the drawn one where there is none.
    pub fn new(loaded: Option<(RgbaBuffer, (Number, Number))>, zoom: Number) -> (r: MagnifiedCursor)
        requires
            loaded matches Some((base, _)) ==> base.wf(),
        ensures
            r.wf(),
            r.zoom == zoom,
            r.cache is None,
            match loaded {
                Some((base, hotspot)) => r.base == base && r.hotspot == hotspot,
                None => {
                    &&& r.base.width == CURSOR_SIZE_BASE
                    &&& r.base.height == CURSOR_SIZE_BASE
                    &&& r.hotspot == (Number { bits: EIGHT }, Number { bits: EIGHT })
                    &&& forall|x: int, y: int|
                        r.base.has(x, y) ==> #[trigger] r.base.at(x, y) == reticle_px(
                            CURSOR_SIZE_BASE as int,
                            x,
                            y,
                        )
                },
            },
    {
        match loaded {
            Some((base, hotspot)) => MagnifiedCursor { base, hotspot, zoom, cache: None },
            None => MagnifiedCursor {
                base: build_reticle(CURSOR_SIZE_BASE),
                hotspot: (Number { bits: EIGHT }, Number { bits: EIGHT }),
                zoom,
                cache: None,
            },
        }
    }

    /// Takes a new zoom; `gap` is its distance from the one before. A zoom that
    /// is the same up to a hair changes nothing, another one drops the scaled
    /// picture.
    pub fn update_zoom(&mut self, new_zoom: Number, gap: Number)
        requires
            old(self).wf(),
        ensures
            final(self).wf(),
            *final(self) == (if (Number { bits: zoom::HAIR }).below(gap) {
                MagnifiedCursor { zoom: new_zoom, cache: None, ..*old(self) }
            } else {
                *old(self)
            }),
    {
        if (Number { bits: zoom::HAIR }).lt(gap) {
            self.zoom = new_zoom;
            self.cache = None;
        }
    }

    /// Whether the scaled picture can be used again, `gap` being the distance of
    /// its factor from the wanted one.
    pub open spec fn hit(self, gap: Number) -> bool {
        self.cache is Some && gap.below(Number { bits: zoom::HAIR })
    }

    /// The scaled picture and its hotspot.
    ///
    /// `factor` is the wanted scale, `gap` the distance of the last one from it,
    /// `cols` and `rows` the sampling grid for the wanted scale and `hotspot`
    /// the hotspot at that scale. The last picture is used again where its scale
    /// is the same up to a hair.
    pub fn sprite(
        &mut self,
        factor: Number,
        gap: Number,
        cols: &Vec<i32>,
        rows: &Vec<i32>,
        hotspot: (Number, Number),
    ) -> (r: (RgbaBuffer, (Number, Number)))
        requires
            old(self).wf(),
            cols@.len() <= i32::MAX,
            rows@.len() <= i32::MAX,
            cols@.len() * rows@.len() * 4 <= i32::MAX,
        ensures
            final(self).wf(),
            final(self).base == old(self).base,
            final(self).hotspot == old(self).hotspot,
            final(self).zoom == old(self).zoom,
            old(self).hit(gap) ==> {
                &&& final(self).cache == old(self).cache
                &&& r.0.width == old(self).cache->0.sprite.width
                &&& r.0.height == old(self).cache->0.sprite.height
                &&& r.0.data@ == old(self).cache->0.sprite.data@
                &&& r.1 == old(self).cache->0.hotspot
            },
            !old(self).hit(gap) ==> {
                &&& r.1 == hotspot
                &&& r.0.wf()
                &&& r.0.width == cols@.len()
                &&& r.0.height == rows@.len()
                &&& forall|x: int, y: int|
                    r.0.has(x, y) ==> #[trigger] r.0.at(x, y) == (if old(self).base.has(
                        cols@[x] as int,
                        rows@[y] as int,
                    ) {
                        old(self).base.at(cols@[x] as int, rows@[y] as int)
                    } else {
                        (0u8, 0u8, 0u8, 0u8)
                    })
                &&& final(self).cache is Some
                &&& final(self).cache->0.factor == factor
                &&& final(self).cache->0.hotspot == hotspot
                &&& final(self).cache->0.sprite.width == r.0.width
                &&& final(self).cache->0.sprite.height == r.0.height
                &&& final(self).cache->0.sprite.data@ == r.0.data@
            },
    {
        if gap.lt(Number { bits: zoom::HAIR }) {
            if let Some(c) = &self.cache {
                return (c.sprite.clone(), c.hotspot);
            }
        }
        let sprite: RgbaBuffer = self.base.nearest_neighbor_scale(cols, rows);
        let kept: RgbaBuffer = sprite.clone();
        self.cache = Some(CachedSprite { factor, sprite: kept, hotspot });
        (sprite, hotspot)
    }
}

/// Where cursor themes are looked for, as the environment has it.
#[derive(Debug)]
pub struct CursorPaths {
    /// Directories, separated by colons.
    pub xcursor_path: Option<String>,
    /// The bytes of the path.
    pub home: Option<Vec<u8>>,
    pub xdg_data_home: Option<String>,
    /// Directories, separated by colons.
    pub xdg_data_dirs: Option<String>,
}

/// The bytes of each of some texts.
pub open spec fn all_bytes(dirs: Seq<Seq<char>>) -> Seq<Seq<u8>> {
    dirs.map_values(|d: Seq<char>| encode_utf8(d))
}

/// Each of some directories with a path below it.
pub open spec fn all_below(dirs: Seq<Seq<char>>, path: Seq<char>) -> Seq<Seq<u8>> {
    dirs.map_values(|d: Seq<char>| text::path_below(encode_utf8(d), path))
}

/// The directories that hold themes, in the order in which they are searched.
pub open spec fn theme_roots(p: CursorPaths) -> Seq<Seq<u8>> {
    let own = match p.xcursor_path {
        Some(path) => all_bytes(text::parts(path@, ':')),
        None => Seq::empty(),
    };
    let icons = match p.home {
        Some(home) => seq![text::path_below(home@, ".icons"@)],
        None => Seq::empty(),
    };
    let data_home = match p.xdg_data_home {
        Some(dir) => seq![text::path_below(encode_utf8(dir@), "icons"@)],
        None => match p.home {
            Some(home) => seq![text::path_below(home@, ".local/share/icons"@)],
            None => Seq::empty(),
        },
    };
    let shared = match p.xdg_data_dirs {
        Some(dirs) => all_below(text::parts(dirs@, ':'), "icons"@),
        None => all_bytes(seq!["/usr/local/share/icons"@, "/usr/share/icons"@]),
    };
    own + icons + data_home + shared
}

/// The themes that are tried, in order.
pub open spec fn themes_to_try(theme: Seq<char>) -> Seq<Seq<char>> {
    (if theme != "default"@ {
        seq![theme, "default"@]
    } else {
        seq![theme]
    }) + seq!["Adwaita"@, "DMZ-White"@]
}

/// The file of a pointer in a theme below a root.
pub open spec fn cursor_file(root: Seq<u8>, theme: Seq<char>, name: Seq<char>) -> Seq<u8> {
    text::path_below(text::path_below(text::path_below(root, theme), "cursors"@), name)
}

/// The files to look for: for each theme in turn, one below every root.
pub open spec fn cursor_files(
    themes: Seq<Seq<char>>,
    roots: Seq<Seq<u8>>,
    name: Seq<char>,
) -> Seq<Seq<u8>>
    decreases themes.len(),
{
    if themes.len() == 0 {
        Seq::empty()
    } else {
        cursor_files(themes.drop_last(), roots, name) + roots.map_values(
            |root: Seq<u8>| cursor_file(root, themes.last(), name),
        )
    }
}

fn push_one(to: &mut Vec<String>, s: String)
    ensures
        text::texts(final(to)@) == text::texts(old(to)@).push(s@),
{
    let ghost a = to@;
    to.push(s);
    assert(text::texts(to@) =~= text::texts(a).push(s@));
}

fn push_path(to: &mut Vec<Vec<u8>>, path: Vec<u8>)
    ensures
        text::paths(final(to)@) == text::paths(old(to)@).push(path@),
{
    let ghost a = to@;
    to.push(path);
    assert(text::paths(to@) =~= text::paths(a).push(path@));
}

/// Appends directories that are given as text.
fn push_texts(to: &mut Vec<Vec<u8>>, from: &Vec<String>)
    ensures
        text::paths(final(to)@) == text::paths(old(to)@) + all_bytes(text::texts(from@)),
{
    let ghost before = text::paths(to@);
    let ghost all = text::texts(from@);
    let mut i: usize = 0;
    assert(text::paths(to@) =~= before + all_bytes(all.take(0)));
    while i < from.len()
        invariant
            i <= from@.len(),
            all == text::texts(from@),
            text::paths(to@) == before + all_bytes(all.take(i as int)),
        decreases from@.len() - i,
    {
        push_path(to, text::bytes_of(from[i].as_str()));
        assert(all_bytes(all.take(i + 1)) =~= all_bytes(all.take(i as int)).push(
            encode_utf8(all[i as int]),
        ));
        assert(text::paths(to@) =~= before + all_bytes(all.take(i + 1)));
        i += 1;
    }
    assert(all.take(from@.len() as int) =~= all);
}

fn roots_of(p: &CursorPaths) -> (r: Vec<Vec<u8>>)
    ensures
        text::paths(r@) == theme_roots(*p),
{
    let mut roots: Vec<Vec<u8>> = Vec::new();
    assert(text::paths(roots@) =~= Seq::<Seq<u8>>::empty());
    if let Some(path) = &p.xcursor_path {
        push_texts(&mut roots, &text::split_nonempty(path.as_str(), ':'));
    }
    let ghost own = text::paths(roots@);
    if let Some(home) = &p.home {
        push_path(&mut roots, text::join_path(home.as_slice(), ".icons"));
    }
    let ghost with_icons = text::paths(roots@);
    match &p.xdg_data_home {
        Some(dir) => {
            push_path(&mut roots, text::join_path(dir.as_str().as_bytes(), "icons"));
        },
        None => {
            if let Some(home) = &p.home {
                push_path(&mut roots, text::join_path(home.as_slice(), ".local/share/icons"));
            }
        },
    }
    let ghost with_data = text::paths(roots@);
    match &p.xdg_data_dirs {
        Some(dirs) => {
            let list: Vec<String> = text::split_nonempty(dirs.as_str(), ':');
            let ghost all = text::texts(list@);
            let mut i: usize = 0;
            while i < list.len()
                invariant
                    i <= list@.len(),
                    all == text::texts(list@),
                    text::paths(roots@) == with_data + all_below(all.take(i as int), "icons"@),
                decreases list@.len() - i,
            {
                push_path(&mut roots, text::join_path(list[i].as_str().as_bytes(), "icons"));
                assert(all_below(all.take(i + 1), "icons"@) =~= all_below(
                    all.take(i as int),
                    "icons"@,
                ).push(text::path_below(encode_utf8(all[i as int]), "icons"@)));
                assert(text::paths(roots@) =~= with_data + all_below(all.take(i + 1), "icons"@));
                i += 1;
            }
            assert(all.take(list@.len() as int) =~= all);
        },
        None => {
            push_path(&mut roots, text::bytes_of("/usr/local/share/icons"));
            push_path(&mut roots, text::bytes_of("/usr/share/icons"));
        },
    }
    assert(text::paths(roots@) =~= theme_roots(*p));
    roots
}

/// The files in which a pointer may be found, in the order in which they are
/// tried, for given paths.
pub fn cursor_candidates(theme: &str, name: &str, p: &CursorPaths) -> (r: Vec<Vec<u8>>)
    ensures
        text::paths(r@) == cursor_files(themes_to_try(theme@), theme_roots(*p), name@),
{
    let roots: Vec<Vec<u8>> = roots_of(p);
    let mut themes: Vec<String> = Vec::new();
    assert(text::texts(themes@) =~= Seq::<Seq<char>>::empty());
    push_one(&mut themes, theme.to_owned());
    if !text::same_text(theme, "default") {
        push_one(&mut themes, "default".to_owned());
    }
    push_one(&mut themes, "Adwaita".to_owned());
    push_one(&mut themes, "DMZ-White".to_owned());
    let ghost tt = text::texts(themes@);
    let ghost rr = text::paths(roots@);
    assert(tt =~= themes_to_try(theme@));
    let mut out: Vec<Vec<u8>> = Vec::new();
    assert(text::paths(out@) =~= Seq::<Seq<u8>>::empty());
    let mut t: usize = 0;
    while t < themes.len()
        invariant
            t <= themes@.len(),
            tt == text::texts(themes@),
            rr == text::paths(roots@),
            text::paths(out@) == cursor_files(tt.take(t as int), rr, name@),
        decreases themes@.len() - t,
    {
        let ghost before = text::paths(out@);
        let ghost now = tt[t as int];
        let mut i: usize = 0;
        while i < roots.len()
            invariant
                t < themes@.len(),
                i <= roots@.len(),
                tt == text::texts(themes@),
                rr == text::paths(roots@),
                now == tt[t as int],
                text::paths(out@) == before + rr.take(i as int).map_values(
                    |root: Seq<u8>| cursor_file(root, now, name@),
                ),
            decreases roots@.len() - i,
        {
            let dir: Vec<u8> = text::join_path(roots[i].as_slice(), themes[t].as_str());
            let dir: Vec<u8> = text::join_path(dir.as_slice(), "cursors");
            push_path(&mut out, text::join_path(dir.as_slice(), name));
            assert(rr.take(i + 1).map_values(|root: Seq<u8>| cursor_file(root, now, name@))
                =~= rr.take(i as int).map_values(
                |root: Seq<u8>| cursor_file(root, now, name@),
            ).push(cursor_file(rr[i as int], now, name@)));
            assert(text::paths(out@) =~= before + rr.take(i + 1).map_values(
                |root: Seq<u8>| cursor_file(root, now, name@),
            ));
            i += 1;
        }
        assert(rr.take(roots@.len() as int) =~= rr);
        assert(tt.take(t + 1).drop_last() =~= tt.take(t as int));
        assert(tt.take(t + 1).last() == now);
        t += 1;
    }
    assert(tt.take(themes@.len() as int) =~= tt);
    out
}

/// The files in which a pointer may be found, with the home directory of the
/// user.
pub fn find_cursor_candidates(
    theme: &str,
    name: &str,
    xcursor_path: Option<String>,
    xdg_data_home: Option<String>,
    xdg_data_dirs: Option<String>,
) -> (r: Vec<Vec<u8>>)
    ensures
        exists|p: CursorPaths|
            #![trigger theme_roots(p)]
            {
                &&& p.xcursor_path == xcursor_path
                &&& p.xdg_data_home == xdg_data_home
                &&& p.xdg_data_dirs == xdg_data_dirs
                &&& text::paths(r@) == cursor_files(themes_to_try(theme@), theme_roots(p), name@)
            },
{
    let p = CursorPaths { xcursor_path, home: capture::home_dir(), xdg_data_home, xdg_data_dirs };
    cursor_candidates(theme, name, &p)
}

/// A pixel with its colours multiplied by its opacity, blue first.
pub open spec fn premultiplied(p: Quad) -> Quad {
    ((p.2 * p.3 / 255) as u8, (p.1 * p.3 / 255) as u8, (p.0 * p.3 / 255) as u8, p.3)
}

/// Turns a picture with straight opacity into one whose colours are multiplied
/// by it, blue first, as a compositor takes pointer pictures.
pub fn premultiplied_bgra(base: &RgbaBuffer) -> (r: Vec<u8>)
    requires
        base.wf(),
    ensures
        r@.len() == base.data@.len(),
        forall|i: int|
            0 <= i < base.data@.len() / 4 ==> #[trigger] pixels::nth_px(r@, i) == premultiplied(
                pixels::nth_px(base.data@, i),
            ),
{
    let len: usize = base.data.len();
    let n: usize = len / 4;
    let mut out: Vec<u8> = Vec::new();
    let mut i: usize = 0;
    while i < n
        invariant
            i <= n,
            len == base.data@.len(),
            4 * n == len,
            out@.len() == 4 * i,
            forall|k: int|
                0 <= k < i ==> #[trigger] pixels::nth_px(out@, k) == premultiplied(
                    pixels::nth_px(base.data@, k),
                ),
        decreases n - i,
    {
        let ghost before = out@;
        let a: u8 = base.data[4 * i + 3];
        out.push(scaled(base.data[4 * i + 2], a));
        out.push(scaled(base.data[4 * i + 1], a));
        out.push(scaled(base.data[4 * i], a));
        out.push(a);
        assert forall|k: int| 0 <= k < i + 1 implies #[trigger] pixels::nth_px(out@, k)
            == premultiplied(pixels::nth_px(base.data@, k)) by {
            if k < i {
                assert(pixels::nth_px(out@, k) == pixels::nth_px(before, k));
            }
        }
        i += 1;
    }
    out
}

fn scaled(v: u8, a: u8) -> (r: u8)
    ensures
        r == (v * a / 255) as u8,
{
    assert(0 <= v * a <= 255 * 255) by (nonlinear_arith)
        requires
            0 <= v <= 255,
            0 <= a <= 255,
    ;
    (v as u32 * a as u32 / 255) as u8
}

/// The drawn pointer is a black square of seven pixels around its middle, in a
/// white ring of two more, and clear outside.
pub proof fn drawn_pointer_is_a_square_in_a_ring(size: int, x: int, y: int)
    requires
        1 <= size,
    ensures
        ({
            let m = size / 2;
            let p = reticle_px(size, x, y);
            let black = m - 3 <= x <= m + 3 && m - 3 <= y <= m + 3;
            let ring = m - 5 <= x <= m + 5 && m - 5 <= y <= m + 5;
            &&& black ==> p == (0u8, 0u8, 0u8, 255u8)
            &&& ring && !black ==> p == (255u8, 255u8, 255u8, 255u8)
            &&& !ring ==> p == (0u8, 0u8, 0u8, 0u8)
        }),
{
}

/// Taking the opacity out of a pixel keeps its opacity, and gives the largest
/// colours that the opacity does not take beyond the ones there were. A clear
/// pixel is black, and colours beyond the opacity stay.
pub proof fn straight_colors_fit_their_opacity(p: Quad)
    ensures
        ({
            let s = straightened(p);
            let multiplied = p.0 <= p.3 && p.1 <= p.3 && p.2 <= p.3;
            &&& s.3 == p.3
            &&& p.3 == 0 ==> s == (0u8, 0u8, 0u8, 0u8)
            &&& p.3 > 0 && !multiplied ==> s == p
            &&& p.3 > 0 && multiplied ==> {
                &&& s.0 * p.3 <= p.0 * 255 < (s.0 + 1) * p.3
                &&& s.1 * p.3 <= p.1 * 255 < (s.1 + 1) * p.3
                &&& s.2 * p.3 <= p.2 * 255 < (s.2 + 1) * p.3
            }
        }),
{
    if p.3 > 0 && p.0 <= p.3 && p.1 <= p.3 && p.2 <= p.3 {
        lemma_straight(p.0, p.3);
        lemma_straight(p.1, p.3);
        lemma_straight(p.2, p.3);
    }
}

proof fn lemma_straight(c: u8, a: u8)
    requires
        0 < a,
        c <= a,
    ensures
        ({
            let s = (c * 255 / (a as int)) as u8;
            s * a <= c * 255 < (s + 1) * a
        }),
{
    let q = c * 255 / (a as int);
    vstd::arithmetic::div_mod::lemma_fundamental_div_mod(c * 255, a as int);
    vstd::arithmetic::div_mod::lemma_mod_bound(c * 255, a as int);
    assert(0 <= q <= 255) by (nonlinear_arith)
        requires
            q == c * 255 / (a as int),
            0 < a,
            c <= a,
    ;
    assert(q * a <= c * 255 < (q + 1) * a) by (nonlinear_arith)
        requires
            c * 255 == a * q + (c * 255) % (a as int),
            0 <= (c * 255) % (a as int) < a,
    ;
}

/// Multiplying by the opacity rounds down, keeps the opacity, and puts blue
/// first.
pub proof fn premultiplying_scales_by_opacity(p: Quad)
    ensures
        ({
            let m = premultiplied(p);
            &&& m.3 == p.3
            &&& m.0 * 255 <= p.2 * p.3 < m.0 * 255 + 255
            &&& m.1 * 255 <= p.1 * p.3 < m.1 * 255 + 255
            &&& m.2 * 255 <= p.0 * p.3 < m.2 * 255 + 255
        }),
{
    lemma_scaled(p.0, p.3);
    lemma_scaled(p.1, p.3);
    lemma_scaled(p.2, p.3);
}

proof fn lemma_scaled(c: u8, a: u8)
    ensures
        ({
            let m = (c * a / 255) as u8;
            m * 255 <= c * a < m * 255 + 255
        }),
{
    assert(0 <= c * a <= 255 * 255) by (nonlinear_arith)
        requires
            c <= 255,
            a <= 255,
    ;
}

/// A pointer is looked for in the wanted theme first, and last in the two that
/// are usually there; no theme is tried twice on account of its name being the
/// default one.
pub proof fn wanted_theme_comes_first(theme: Seq<char>)
    ensures
        ({
            let t = themes_to_try(theme);
            &&& t[0] == theme
            &&& theme != "default"@ ==> t == seq![theme, "default"@, "Adwaita"@, "DMZ-White"@]
            &&& theme == "default"@ ==> t == seq!["default"@, "Adwaita"@, "DMZ-White"@]
        }),
{
    assert(seq![theme, "default"@] + seq!["Adwaita"@, "DMZ-White"@] =~= seq![
        theme,
        "default"@,
        "Adwaita"@,
        "DMZ-White"@,
    ]);
    assert(seq![theme] + seq!["Adwaita"@, "DMZ-White"@] =~= seq![
        theme,
        "Adwaita"@,
        "DMZ-White"@,
    ]);
}

/// Each theme is looked for below every root before the next theme is.
pub proof fn themes_are_searched_in_order(
    themes: Seq<Seq<char>>,
    roots: Seq<Seq<u8>>,
    name: Seq<char>,
    t: int,
    r: int,
)
    requires
        0 <= t < themes.len(),
        0 <= r < roots.len(),
    ensures
        cursor_files(themes, roots, name).len() == themes.len() * roots.len(),
        0 <= t * roots.len() + r < themes.len() * roots.len(),
        cursor_files(themes, roots, name)[t * roots.len() + r] == cursor_file(
            roots[r],
            themes[t],
            name,
        ),
    decreases themes.len(),
{
    let n = themes.len() as int;
    let k = roots.len() as int;
    let front = themes.drop_last();
    lemma_file_count(front, roots, name);
    lemma_file_count(themes, roots, name);
    assert(t * k + r < n * k && 0 <= t * k && (n - 1) * k + k == n * k) by (nonlinear_arith)
        requires
            0 <= t < n,
            0 <= r < k,
    ;
    if t < n - 1 {
        themes_are_searched_in_order(front, roots, name, t, r);
        assert(front[t] == themes[t]);
    } else {
        assert(t * k == (n - 1) * k);
    }
}

proof fn lemma_file_count(themes: Seq<Seq<char>>, roots: Seq<Seq<u8>>, name: Seq<char>)
    ensures
        cursor_files(themes, roots, name).len() == themes.len() * roots.len(),
    decreases themes.len(),
{
    let n = themes.len() as int;
    let k = roots.len() as int;
    if n > 0 {
        lemma_file_count(themes.drop_last(), roots, name);
        assert((n - 1) * k + k == n * k) by (nonlinear_arith);
    } else {
        assert(0 * k == 0);
    }
}

/// The file of a pointer lies in the directory for pointers of its theme.
pub proof fn pointer_files_lie_in_their_theme(root: Seq<u8>, theme: Seq<char>, name: Seq<char>)
    requires
        root.len() > 0,
        root.last() != 0x2f,
        theme.len() > 0,
        theme[0] != '/',
        encode_utf8(theme).len() > 0,
        encode_utf8(theme).last() != 0x2f,
        name.len() > 0,
        name[0] != '/',
    ensures
        cursor_file(root, theme, name) == root + seq![0x2fu8] + encode_utf8(theme) + seq![0x2fu8]
            + encode_utf8("cursors"@) + seq![0x2fu8] + encode_utf8(name),
{
    let dir = text::path_below(root, theme);
    text::paths_join_at_one_separator(root, theme);
    reveal_strlit("cursors");
    vstd::utf8::is_ascii_chars_encode_utf8("cursors"@);
    assert(vstd::utf8::is_ascii_chars("cursors"@));
    let tail = encode_utf8("cursors"@);
    assert(tail.len() == 7);
    assert(tail.last() != 0x2f);
    assert(dir.last() == encode_utf8(theme).last());
    text::paths_join_at_one_separator(dir, "cursors"@);
    let cursors = text::path_below(dir, "cursors"@);
    assert(cursors.last() == tail.last());
    text::paths_join_at_one_separator(cursors, name);
}

/// Themes are looked for in the directories of the user before those of the
/// system: in the directories named for pointers, then below the home directory
/// and the user's data, then below the shared data.
pub proof fn user_themes_come_before_system_themes(p: CursorPaths, home: Vec<u8>)
    requires
        p.home == Some(home),
    ensures
        ({
            let roots = theme_roots(p);
            let own = match p.xcursor_path {
                Some(path) => text::parts(path@, ':').len() as int,
                None => 0,
            };
            &&& (p.xcursor_path matches Some(path) ==> forall|i: int|
                0 <= i < own ==> #[trigger] roots[i] == encode_utf8(text::parts(path@, ':')[i]))
            &&& roots[own] == text::path_below(home@, ".icons"@)
            &&& (p.xdg_data_home matches Some(dir) ==> roots[own + 1] == text::path_below(
                encode_utf8(dir@),
                "icons"@,
            ))
            &&& p.xdg_data_home is None ==> roots[own + 1] == text::path_below(
                home@,
                ".local/share/icons"@,
            )
            &&& p.xdg_data_dirs is None ==> roots.len() == own + 4 && roots[own + 2] == encode_utf8(
                "/usr/local/share/icons"@,
            ) && roots[own + 3] == encode_utf8("/usr/share/icons"@)
            &&& (p.xdg_data_dirs matches Some(dirs) ==> roots.len() == own + 2 + text::parts(
                dirs@,
                ':',
            ).len() && forall|i: int|
                0 <= i < text::parts(dirs@, ':').len() ==> roots[own + 2 + i] == text::path_below(
                    encode_utf8(#[trigger] text::parts(dirs@, ':')[i]),
                    "icons"@,
                ))
        }),
{
}

/// The scaled picture is used again only where there is one, and only for the
/// same scale up to a hair.
pub proof fn scaled_picture_is_used_again(c: MagnifiedCursor, gap: Number)
    ensures
        c.cache is None ==> !c.hit(gap),
        c.cache is Some && gap.below(Number { bits: 0x3E11_2E0B_E826_D695 }) ==> c.hit(gap),
        (Number { bits: 0x3E11_2E0B_E826_D695 }).at_most(gap) ==> !c.hit(gap),
{
}

/// The picked image is as near to the wanted size as any, and of equally near
/// ones the first.
pub proof fn nearest_size_is_picked(images: Seq<CursorImage>, size: u32, k: int, i: int)
    requires
        is_nearest(images, size, k),
        0 <= i < images.len(),
    ensures
        0 <= k < images.len(),
        ({
            let off = |s: u32|
                if s < size {
                    size - s
                } else {
                    s - size
                };
            &&& off(images[k].size) <= off(images[i].size)
            &&& i < k ==> off(images[k].size) < off(images[i].size)
            &&& images[i].size == size ==> images[k].size == size && k <= i
        }),
{
}

/// What a cursor image holds is its size, its sides, its hotspot and its bytes.
pub proof fn image_holds_its_parts(i: CursorImage)
    ensures
        i.parts().0 == i.size,
        i.parts().1 == i.width,
        i.parts().2 == i.height,
        i.parts().3 == i.xhot,
        i.parts().4 == i.yhot,
        i.parts().5 == i.pixels_rgba@,
{
}

} // verus!
