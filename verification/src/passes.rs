//! The passes in which a graphics card draws a frame.

use vstd::prelude::*;

verus! {

/// Position and size on the surface, in its pixels.
#[derive(Clone, Copy, Debug, PartialEq, Eq, Structural)]
pub struct Area {
    pub x: i32,
    pub y: i32,
    pub width: i32,
    pub height: i32,
}

/// What a pass draws.
#[derive(Clone, Copy, Debug, PartialEq, Eq, Structural)]
pub enum Picture {
    Frame,
    Overlay,
    Menu,
    MenuText,
    Cursor,
    Legend,
    Hint,
    Minimap,
    MinimapOutline,
    Crosshair,
}

/// How a pass changes what is there.
#[derive(Clone, Copy, Debug, PartialEq, Eq, Structural)]
pub enum Blending {
    /// It replaces it.
    Replace,
    /// It lies over it, by its opacity.
    Over,
    /// Where it is white, it inverts the colours, by its opacity.
    InvertText,
    /// Where it is white, it inverts the colours.
    Invert,
}

/// The texture that a pass draws from.
#[derive(Clone, Copy, Debug, PartialEq, Eq, Structural)]
pub enum Texture {
    Frame,
    Overlay,
    Text,
    Cursor,
    Minimap,
    /// The pass computes its own picture.
    Computed,
}

/// One pass.
#[derive(Clone, Copy, Debug, PartialEq, Eq, Structural)]
pub struct Pass {
    pub picture: Picture,
    pub texture: Texture,
    /// Whether the picture goes into the texture first.
    pub upload: bool,
    pub area: Area,
    pub blending: Blending,
}

/// What there is to draw.
#[derive(Clone, Copy, Debug)]
pub struct Layers {
    /// The magnified screen.
    pub frame: bool,
    /// The overlay, and whether it changed.
    pub overlay: Option<bool>,
    /// The pie menu, and whether it has text that inverts.
    pub menu: Option<(Area, bool)>,
    /// The magnified pointer, and whether it changed.
    pub cursor: Option<(Area, bool)>,
    pub legend: Option<Area>,
    pub hint: Option<Area>,
    /// The minimap, and whether it has an outline.
    pub minimap: Option<(Area, bool)>,
    /// The crosshair.
    pub crosshair: Option<Area>,
}

impl Picture {
    /// The place in the stack, from bottom to top.
    pub open spec fn height(self) -> int {
        match self {
            Picture::Frame => 0,
            Picture::Overlay => 1,
            Picture::Menu => 2,
            Picture::MenuText => 3,
            Picture::Cursor => 4,
            Picture::Legend => 5,
            Picture::Hint => 6,
            Picture::Minimap => 7,
            Picture::MinimapOutline => 8,
            Picture::Crosshair => 9,
        }
    }

    pub open spec fn drawn_from(self) -> Texture {
        match self {
            Picture::Frame => Texture::Frame,
            Picture::Overlay => Texture::Overlay,
            Picture::Menu | Picture::MenuText | Picture::Legend | Picture::Hint => Texture::Text,
            Picture::Cursor => Texture::Cursor,
            Picture::Minimap | Picture::MinimapOutline => Texture::Minimap,
            Picture::Crosshair => Texture::Computed,
        }
    }

    pub open spec fn blended(self) -> Blending {
        match self {
            Picture::Frame => Blending::Replace,
            Picture::MenuText => Blending::InvertText,
            Picture::Crosshair => Blending::Invert,
            _ => Blending::Over,
        }
    }

    fn texture(self) -> (r: Texture)
        ensures
            r == self.drawn_from(),
    {
        match self {
            Picture::Frame => Texture::Frame,
            Picture::Overlay => Texture::Overlay,
            Picture::Menu | Picture::MenuText | Picture::Legend | Picture::Hint => Texture::Text,
            Picture::Cursor => Texture::Cursor,
            Picture::Minimap | Picture::MinimapOutline => Texture::Minimap,
            Picture::Crosshair => Texture::Computed,
        }
    }

    fn blending(self) -> (r: Blending)
        ensures
            r == self.blended(),
    {
        match self {
            Picture::Frame => Blending::Replace,
            Picture::MenuText => Blending::InvertText,
            Picture::Crosshair => Blending::Invert,
            _ => Blending::Over,
        }
    }
}

/// The pass for a picture.
pub open spec fn pass(picture: Picture, area: Area, upload: bool) -> Pass {
    Pass {
        picture,
        texture: picture.drawn_from(),
        upload,
        area,
        blending: picture.blended(),
    }
}

/// The area of a picture that there is.
pub open spec fn area_of(layers: Layers, whole: Area, picture: Picture) -> Option<Area> {
    match picture {
        Picture::Frame => if layers.frame {
            Some(whole)
        } else {
            None
        },
        Picture::Overlay => if layers.overlay is Some {
            Some(whole)
        } else {
            None
        },
        Picture::Menu => match layers.menu {
            Some((area, _)) => Some(area),
            None => None,
        },
        Picture::MenuText => match layers.menu {
            Some((area, true)) => Some(area),
            _ => None,
        },
        Picture::Cursor => match layers.cursor {
            Some((area, _)) => Some(area),
            None => None,
        },
        Picture::Legend => layers.legend,
        Picture::Hint => layers.hint,
        Picture::Minimap => match layers.minimap {
            Some((area, _)) => Some(area),
            None => None,
        },
        Picture::MinimapOutline => match layers.minimap {
            Some((area, true)) => Some(area),
            _ => None,
        },
        Picture::Crosshair => layers.crosshair,
    }
}

/// Whether a picture goes into its texture before it is drawn. The frame is
/// there since it was captured; overlay and pointer have textures of their own
/// and are handed over when they changed; the crosshair has none.
pub open spec fn uploaded(layers: Layers, picture: Picture) -> bool {
    match picture {
        Picture::Frame => false,
        Picture::Overlay => layers.overlay == Some(true),
        Picture::Cursor => layers.cursor matches Some((_, true)),
        Picture::Crosshair => false,
        _ => true,
    }
}

/// The passes of some pictures, in their order, without those that are missing.
pub open spec fn passes_of(layers: Layers, whole: Area, pictures: Seq<Picture>) -> Seq<Pass>
    decreases pictures.len(),
{
    if pictures.len() == 0 {
        Seq::empty()
    } else {
        let before = passes_of(layers, whole, pictures.drop_last());
        match area_of(layers, whole, pictures.last()) {
            Some(area) => before.push(
                pass(pictures.last(), area, uploaded(layers, pictures.last())),
            ),
            None => before,
        }
    }
}

/// All pictures, from bottom to top.
pub open spec fn stack() -> Seq<Picture> {
    seq![
        Picture::Frame,
        Picture::Overlay,
        Picture::Menu,
        Picture::MenuText,
        Picture::Cursor,
        Picture::Legend,
        Picture::Hint,
        Picture::Minimap,
        Picture::MinimapOutline,
        Picture::Crosshair,
    ]
}

fn add_pass(
    passes: &mut Vec<Pass>,
    layers: &Layers,
    whole: Area,
    picture: Picture,
    area: Option<Area>,
    upload: bool,
    Ghost(done): Ghost<Seq<Picture>>,
)
    requires
        old(passes)@ == passes_of(*layers, whole, done),
        area == area_of(*layers, whole, picture),
        upload == uploaded(*layers, picture),
    ensures
        final(passes)@ == passes_of(*layers, whole, done.push(picture)),
{
    assert(done.push(picture).drop_last() =~= done);
    if let Some(area) = area {
        passes.push(
            Pass { picture, texture: picture.texture(), upload, area, blending: picture.blending() },
        );
    }
}

/// The passes of a frame on a surface of the given size, in the order in which
/// they are drawn.
pub fn plan_passes(layers: &Layers, width: i32, height: i32) -> (r: Vec<Pass>)
    ensures
        r@ == passes_of(*layers, (Area { x: 0, y: 0, width, height }), stack()),
{
    let whole = Area { x: 0, y: 0, width, height };
    let mut r: Vec<Pass> = Vec::new();
    let ghost s = Seq::<Picture>::empty();
    let frame: Option<Area> = if layers.frame { Some(whole) } else { None };
    add_pass(&mut r, layers, whole, Picture::Frame, frame, false, Ghost(s));
    let ghost s = s.push(Picture::Frame);
    let (overlay, changed): (Option<Area>, bool) = match layers.overlay {
        Some(changed) => (Some(whole), changed),
        None => (None, false),
    };
    add_pass(&mut r, layers, whole, Picture::Overlay, overlay, changed, Ghost(s));
    let ghost s = s.push(Picture::Overlay);
    let (menu, text): (Option<Area>, Option<Area>) = match layers.menu {
        Some((area, true)) => (Some(area), Some(area)),
        Some((area, false)) => (Some(area), None),
        None => (None, None),
    };
    add_pass(&mut r, layers, whole, Picture::Menu, menu, true, Ghost(s));
    let ghost s = s.push(Picture::Menu);
    add_pass(&mut r, layers, whole, Picture::MenuText, text, true, Ghost(s));
    let ghost s = s.push(Picture::MenuText);
    let (cursor, changed): (Option<Area>, bool) = match layers.cursor {
        Some((area, changed)) => (Some(area), changed),
        None => (None, false),
    };
    add_pass(&mut r, layers, whole, Picture::Cursor, cursor, changed, Ghost(s));
    let ghost s = s.push(Picture::Cursor);
    add_pass(&mut r, layers, whole, Picture::Legend, layers.legend, true, Ghost(s));
    let ghost s = s.push(Picture::Legend);
    add_pass(&mut r, layers, whole, Picture::Hint, layers.hint, true, Ghost(s));
    let ghost s = s.push(Picture::Hint);
    let (minimap, outline): (Option<Area>, Option<Area>) = match layers.minimap {
        Some((area, true)) => (Some(area), Some(area)),
        Some((area, false)) => (Some(area), None),
        None => (None, None),
    };
    add_pass(&mut r, layers, whole, Picture::Minimap, minimap, true, Ghost(s));
    let ghost s = s.push(Picture::Minimap);
    add_pass(&mut r, layers, whole, Picture::MinimapOutline, outline, true, Ghost(s));
    let ghost s = s.push(Picture::MinimapOutline);
    add_pass(&mut r, layers, whole, Picture::Crosshair, layers.crosshair, false, Ghost(s));
    assert(s.push(Picture::Crosshair) =~= stack());
    r
}

proof fn lemma_pass_comes_from_a_picture(
    layers: Layers,
    whole: Area,
    pictures: Seq<Picture>,
    i: int,
)
    requires
        0 <= i < passes_of(layers, whole, pictures).len(),
    ensures
        pictures.contains(passes_of(layers, whole, pictures)[i].picture),
        ({
            let p = passes_of(layers, whole, pictures)[i];
            area_of(layers, whole, p.picture) == Some(p.area) && p == pass(
                p.picture,
                p.area,
                uploaded(layers, p.picture),
            )
        }),
    decreases pictures.len(),
{
    let before = passes_of(layers, whole, pictures.drop_last());
    if i < before.len() {
        lemma_pass_comes_from_a_picture(layers, whole, pictures.drop_last(), i);
        let p = before[i].picture;
        let k = choose|k: int| 0 <= k < pictures.len() - 1 && pictures.drop_last()[k] == p;
        assert(pictures[k] == p);
    } else {
        assert(pictures[pictures.len() - 1] == pictures.last());
    }
}

proof fn lemma_passes_ascend(layers: Layers, whole: Area, pictures: Seq<Picture>, i: int, j: int)
    requires
        forall|a: int, b: int|
            0 <= a < b < pictures.len() ==> (#[trigger] pictures[a]).height() < (
            #[trigger] pictures[b]).height(),
        0 <= i < j < passes_of(layers, whole, pictures).len(),
    ensures
        passes_of(layers, whole, pictures)[i].picture.height() < passes_of(
            layers,
            whole,
            pictures,
        )[j].picture.height(),
    decreases pictures.len(),
{
    let short = pictures.drop_last();
    let before = passes_of(layers, whole, short);
    assert forall|a: int, b: int| 0 <= a < b < short.len() implies (#[trigger] short[a]).height()
        < (#[trigger] short[b]).height() by {
        assert(pictures[a].height() < pictures[b].height());
    }
    if j < before.len() {
        lemma_passes_ascend(layers, whole, short, i, j);
    } else {
        lemma_pass_comes_from_a_picture(layers, whole, short, i);
        let p = before[i].picture;
        let k = choose|k: int| 0 <= k < short.len() && short[k] == p;
        assert(pictures[k].height() < pictures[pictures.len() - 1].height());
    }
}

/// The passes go strictly up the stack; so no picture is drawn twice.
pub proof fn passes_go_up(layers: Layers, whole: Area, i: int, j: int)
    requires
        0 <= i < j < passes_of(layers, whole, stack()).len(),
    ensures
        passes_of(layers, whole, stack())[i].picture.height() < passes_of(
            layers,
            whole,
            stack(),
        )[j].picture.height(),
{
    lemma_passes_ascend(layers, whole, stack(), i, j);
}

/// A texture that several pictures share never shows the wrong one: each of them
/// goes into it right before it is drawn.
pub proof fn shared_textures_are_filled(layers: Layers, whole: Area, i: int, other: Picture)
    requires
        0 <= i < passes_of(layers, whole, stack()).len(),
        other != passes_of(layers, whole, stack())[i].picture,
        other.drawn_from() == passes_of(layers, whole, stack())[i].texture,
    ensures
        passes_of(layers, whole, stack())[i].upload,
{
    lemma_pass_comes_from_a_picture(layers, whole, stack(), i);
}

proof fn lemma_picture_has_its_pass(
    layers: Layers,
    whole: Area,
    pictures: Seq<Picture>,
    k: int,
    area: Area,
)
    requires
        0 <= k < pictures.len(),
        area_of(layers, whole, pictures[k]) == Some(area),
    ensures
        passes_of(layers, whole, pictures).contains(
            pass(pictures[k], area, uploaded(layers, pictures[k])),
        ),
    decreases pictures.len(),
{
    let before = passes_of(layers, whole, pictures.drop_last());
    let all = passes_of(layers, whole, pictures);
    let p = pass(pictures[k], area, uploaded(layers, pictures[k]));
    if k < pictures.len() - 1 {
        lemma_picture_has_its_pass(layers, whole, pictures.drop_last(), k, area);
        let i = choose|i: int| 0 <= i < before.len() && before[i] == p;
        assert(all[i] == p);
    } else {
        assert(all[all.len() - 1] == p);
    }
}

/// Every picture that there is gets its pass: from its own texture, into its own
/// area, and mixed as it should be. The screen and the overlay fill the surface.
pub proof fn pictures_get_their_pass(layers: Layers, whole: Area)
    ensures
        ({
            let passes = passes_of(layers, whole, stack());
            let drawn = |picture: Picture, texture: Texture, upload: bool, area: Area, blending:
                Blending| passes.contains(Pass { picture, texture, upload, area, blending });
            &&& layers.frame ==> drawn(
                Picture::Frame,
                Texture::Frame,
                false,
                whole,
                Blending::Replace,
            )
            &&& (layers.overlay matches Some(changed) ==> drawn(
                Picture::Overlay,
                Texture::Overlay,
                changed,
                whole,
                Blending::Over,
            ))
            &&& (layers.menu matches Some((area, text)) ==> drawn(
                Picture::Menu,
                Texture::Text,
                true,
                area,
                Blending::Over,
            ) && (text ==> drawn(
                Picture::MenuText,
                Texture::Text,
                true,
                area,
                Blending::InvertText,
            )))
            &&& (layers.cursor matches Some((area, changed)) ==> drawn(
                Picture::Cursor,
                Texture::Cursor,
                changed,
                area,
                Blending::Over,
            ))
            &&& (layers.legend matches Some(area) ==> drawn(
                Picture::Legend,
                Texture::Text,
                true,
                area,
                Blending::Over,
            ))
            &&& (layers.hint matches Some(area) ==> drawn(
                Picture::Hint,
                Texture::Text,
                true,
                area,
                Blending::Over,
            ))
            &&& (layers.minimap matches Some((area, outline)) ==> drawn(
                Picture::Minimap,
                Texture::Minimap,
                true,
                area,
                Blending::Over,
            ) && (outline ==> drawn(
                Picture::MinimapOutline,
                Texture::Minimap,
                true,
                area,
                Blending::Over,
            )))
            &&& (layers.crosshair matches Some(area) ==> drawn(
                Picture::Crosshair,
                Texture::Computed,
                false,
                area,
                Blending::Invert,
            ))
        }),
{
    let all = stack();
    if layers.frame {
        lemma_picture_has_its_pass(layers, whole, all, 0, whole);
    }
    if layers.overlay is Some {
        lemma_picture_has_its_pass(layers, whole, all, 1, whole);
    }
    if let Some((area, text)) = layers.menu {
        lemma_picture_has_its_pass(layers, whole, all, 2, area);
        if text {
            lemma_picture_has_its_pass(layers, whole, all, 3, area);
        }
    }
    if let Some((area, changed)) = layers.cursor {
        lemma_picture_has_its_pass(layers, whole, all, 4, area);
    }
    if let Some(area) = layers.legend {
        lemma_picture_has_its_pass(layers, whole, all, 5, area);
    }
    if let Some(area) = layers.hint {
        lemma_picture_has_its_pass(layers, whole, all, 6, area);
    }
    if let Some((area, outline)) = layers.minimap {
        lemma_picture_has_its_pass(layers, whole, all, 7, area);
        if outline {
            lemma_picture_has_its_pass(layers, whole, all, 8, area);
        }
    }
    if let Some(area) = layers.crosshair {
        lemma_picture_has_its_pass(layers, whole, all, 9, area);
    }
}

/// No pass draws what is not there.
pub proof fn missing_pictures_get_no_pass(layers: Layers, whole: Area, i: int)
    requires
        0 <= i < passes_of(layers, whole, stack()).len(),
    ensures
        ({
            let p = passes_of(layers, whole, stack())[i].picture;
            &&& p == Picture::Frame ==> layers.frame
            &&& p == Picture::Overlay ==> layers.overlay is Some
            &&& p == Picture::Menu ==> layers.menu is Some
            &&& p == Picture::MenuText ==> (layers.menu matches Some((_, text)) && text)
            &&& p == Picture::Cursor ==> layers.cursor is Some
            &&& p == Picture::Legend ==> layers.legend is Some
            &&& p == Picture::Hint ==> layers.hint is Some
            &&& p == Picture::Minimap ==> layers.minimap is Some
            &&& p == Picture::MinimapOutline ==> (layers.minimap matches Some((_, outline))
                && outline)
            &&& p == Picture::Crosshair ==> layers.crosshair is Some
        }),
{
    lemma_pass_comes_from_a_picture(layers, whole, stack(), i);
}

/// The screen is drawn first, then the overlay, the menu and its text, the
/// pointer, the legend and the hint, the minimap and its outline, and last the
/// crosshair.
pub proof fn passes_lie_over_each_other(layers: Layers, whole: Area, i: int, j: int)
    requires
        0 <= i < j < passes_of(layers, whole, stack()).len(),
    ensures
        ({
            let level = |p: Picture|
                match p {
                    Picture::Frame => 0int,
                    Picture::Overlay => 1,
                    Picture::Menu => 2,
                    Picture::MenuText => 3,
                    Picture::Cursor => 4,
                    Picture::Legend => 5,
                    Picture::Hint => 6,
                    Picture::Minimap => 7,
                    Picture::MinimapOutline => 8,
                    Picture::Crosshair => 9,
                };
            let passes = passes_of(layers, whole, stack());
            level(passes[i].picture) < level(passes[j].picture)
        }),
{
    passes_go_up(layers, whole, i, j);
}

} // verus!
