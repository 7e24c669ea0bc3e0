//! Taking the picture of the screen: what to do with each answer of the
//! compositor, and turning its memory into an image.

use crate::pixels;
use crate::pixels::Quad;
use crate::render::RgbaBuffer;
use crate::screenshot;
use vstd::prelude::*;

verus! {

/// The picture of the screen that is magnified.
#[derive(Debug)]
pub struct CapturedFrame {
    pub buffer: RgbaBuffer,
}

/// How the compositor lays out the pixels.
#[derive(Clone, Copy, Debug, PartialEq, Eq, Structural)]
pub enum BufferFormat {
    Argb8888,
    Xrgb8888,
    Other,
}

/// What to do about an offered buffer.
#[derive(Clone, Copy, Debug, PartialEq, Eq, Structural)]
pub enum BufferStep {
    /// The layout is not one that the protocol knows.
    Ignore,
    /// The layout is known, and not supported.
    Unsupported,
    /// Have this many bytes filled.
    Fill(u64),
}

/// What to do about a failed attempt.
#[derive(Clone, Copy, Debug, PartialEq, Eq, Structural)]
pub enum FailureStep {
    /// Try again.
    Retry,
    /// Show black: there is no picture.
    ShowBlack,
    /// Go on with the picture that there is.
    KeepFrame,
}

/// Attempts that are made again before giving up.
pub const MAX_RETRIES: u8 = 3;

/// How far taking the picture has come.
#[derive(Clone, Copy, Debug, PartialEq, Eq, Structural)]
pub struct Screencopy {
    pub width: Option<u32>,
    pub height: Option<u32>,
    pub stride: Option<u32>,
    pub y_invert: bool,
    pub retries: u8,
}

/// A pixel of the compositor's memory as an opaque RGBA pixel.
pub open spec fn opaque_rgb(p: Quad) -> Quad {
    (p.2, p.1, p.0, 255u8)
}

/// The pixels that a row of bytes gives for an image of some width.
pub open spec fn row_pixels(bytes: int, width: int) -> int {
    screenshot::min_of(width, bytes / 4)
}

/// Appends the pixels of one row of the compositor's memory, at most `width`.
pub fn convert_row(row: &[u8], width: usize, out: &mut Vec<u8>)
    ensures
        final(out)@.len() == old(out)@.len() + 4 * row_pixels(row@.len() as int, width as int),
        final(out)@.take(old(out)@.len() as int) == old(out)@,
        forall|i: int|
            0 <= i < row_pixels(row@.len() as int, width as int) ==> pixels::nth_px(
                final(out)@.skip(old(out)@.len() as int),
                i,
            ) == opaque_rgb(#[trigger] pixels::nth_px(row@, i)),
{
    let whole: usize = row.len() / 4;
    let n: usize = if width < whole { width } else { whole };
    let ghost start = out@;
    let mut i: usize = 0;
    while i < n
        invariant
            i <= n,
            4 * n <= row@.len(),
            row@.len() <= usize::MAX,
            out@.len() == start.len() + 4 * i,
            out@.take(start.len() as int) == start,
            forall|k: int|
                0 <= k < i ==> pixels::nth_px(out@.skip(start.len() as int), k) == opaque_rgb(
                    #[trigger] pixels::nth_px(row@, k),
                ),
        decreases n - i,
    {
        let ghost before = out@;
        out.push(row[4 * i + 2]);
        out.push(row[4 * i + 1]);
        out.push(row[4 * i]);
        out.push(255);
        proof {
            assert(out@.take(start.len() as int) =~= start);
            assert forall|k: int| 0 <= k < i + 1 implies pixels::nth_px(
                out@.skip(start.len() as int),
                k,
            ) == opaque_rgb(#[trigger] pixels::nth_px(row@, k)) by {
                if k < i {
                    assert(pixels::nth_px(out@.skip(start.len() as int), k) == pixels::nth_px(
                        before.skip(start.len() as int),
                        k,
                    ));
                }
            }
        }
        i += 1;
    }
}

/// The row of the compositor's memory that becomes row `y` of the image.
pub open spec fn source_row(y_invert: bool, rows: int, y: int) -> int {
    if y_invert {
        rows - 1 - y
    } else {
        y
    }
}

/// The bytes of row `r`.
pub open spec fn memory_row(memory: Seq<u8>, stride: int, r: int) -> Seq<u8> {
    memory.subrange(r * stride, r * stride + stride)
}

/// Turns the compositor's memory into the bytes of an image of at most `width`
/// by `height` pixels, bottom row first where `y_invert` says that the memory
/// starts with the bottom row.
pub fn convert_memory(
    memory: &[u8],
    stride: usize,
    width: usize,
    height: usize,
    y_invert: bool,
) -> (r: Vec<u8>)
    requires
        0 < stride,
    ensures
        ({
            let cols = row_pixels(stride as int, width as int);
            let rows = memory@.len() as int / stride as int;
            let shown = screenshot::min_of(height as int, rows);
            &&& r@.len() == cols * shown * 4
            &&& forall|x: int, y: int|
                0 <= x < cols && 0 <= y < shown ==> #[trigger] pixels::px_at(r@, cols, x, y)
                    == opaque_rgb(
                    pixels::nth_px(
                        memory_row(memory@, stride as int, source_row(y_invert, rows, y)),
                        x,
                    ),
                )
        }),
{
    let rows: usize = memory.len() / stride;
    let shown: usize = if height < rows { height } else { rows };
    let ghost cols = row_pixels(stride as int, width as int);
    let ghost len = memory@.len() as int;
    proof {
        assert(memory.len() == memory@.len());
        vstd::arithmetic::div_mod::lemma_fundamental_div_mod(len, stride as int);
        assert(stride as int * rows as int <= len);
        assert(cols * 0 == 0) by (nonlinear_arith);
    }
    let mut out: Vec<u8> = Vec::new();
    let mut y: usize = 0;
    while y < shown
        invariant
            0 < stride,
            y <= shown <= rows,
            stride as int * rows as int <= len,
            len == memory@.len(),
            len <= usize::MAX,
            cols == row_pixels(stride as int, width as int),
            out@.len() == cols * y * 4,
            forall|px: int, py: int|
                0 <= px < cols && 0 <= py < y ==> #[trigger] pixels::px_at(out@, cols, px, py)
                    == opaque_rgb(
                    pixels::nth_px(
                        memory_row(
                            memory@,
                            stride as int,
                            source_row(y_invert, rows as int, py),
                        ),
                        px,
                    ),
                ),
        decreases shown - y,
    {
        let from: usize = if y_invert { rows - 1 - y } else { y };
        proof {
            assert(from as int * stride as int + stride as int <= stride as int * rows as int
                && 0 <= from as int * stride as int) by (nonlinear_arith)
                requires
                    0 <= from < rows,
                    0 < stride,
            ;
            assert(cols * (y + 1) == cols * y + cols) by (nonlinear_arith);
        }
        let start: usize = from * stride;
        let row: &[u8] = vstd::slice::slice_subrange(memory, start, start + stride);
        assert(row@ == memory_row(memory@, stride as int, from as int));
        let ghost before = out@;
        convert_row(row, width, &mut out);
        assert forall|px: int, py: int|
            0 <= px < cols && 0 <= py < y + 1 implies #[trigger] pixels::px_at(out@, cols, px, py)
            == opaque_rgb(
            pixels::nth_px(
                memory_row(memory@, stride as int, source_row(y_invert, rows as int, py)),
                px,
            ),
        ) by {
            if py < y {
                pixels::lemma_inside(cols, y as int, px, py);
                let at = pixels::byte_at(cols, px, py);
                assert(out@.take(before.len() as int)[at] == before[at]);
                assert(out@.take(before.len() as int)[at + 1] == before[at + 1]);
                assert(out@.take(before.len() as int)[at + 2] == before[at + 2]);
                assert(out@.take(before.len() as int)[at + 3] == before[at + 3]);
                assert(pixels::px_at(before, cols, px, py) == pixels::px_at(out@, cols, px, py));
            } else {
                let tail = out@.skip(before.len() as int);
                assert(pixels::nth_px(tail, px) == opaque_rgb(pixels::nth_px(row@, px)));
                assert(py * cols == cols * y) by (nonlinear_arith)
                    requires
                        py == y,
                ;
                assert(pixels::byte_at(cols, px, py) == before.len() + 4 * px);
            }
        }
        y += 1;
    }
    out
}

impl Screencopy {
    pub fn new() -> (r: Screencopy)
        ensures
            r == (Screencopy {
                width: None,
                height: None,
                stride: None,
                y_invert: false,
                retries: 0,
            }),
    {
        Screencopy { width: None, height: None, stride: None, y_invert: false, retries: 0 }
    }

    /// A buffer is offered. A layout that the protocol knows is `Some`. The
    /// offer says nothing of how the attempt ends, so the retries stay counted.
    pub fn on_buffer(
        &mut self,
        format: Option<BufferFormat>,
        width: u32,
        height: u32,
        stride: u32,
    ) -> (r: BufferStep)
        ensures
            r == (match format {
                None => BufferStep::Ignore,
                Some(BufferFormat::Other) => BufferStep::Unsupported,
                Some(_) => BufferStep::Fill((height * stride) as u64),
            }),
            *final(self) == (match r {
                BufferStep::Fill(_) => Screencopy {
                    width: Some(width),
                    height: Some(height),
                    stride: Some(stride),
                    ..*old(self)
                },
                _ => *old(self),
            }),
    {
        match format {
            None => BufferStep::Ignore,
            Some(BufferFormat::Other) => BufferStep::Unsupported,
            Some(_) => {
                self.width = Some(width);
                self.height = Some(height);
                self.stride = Some(stride);
                assert(0 <= height * stride <= 0xffff_ffff * 0xffff_ffff) by (nonlinear_arith)
                    requires
                        0 <= height <= 0xffff_ffff,
                        0 <= stride <= 0xffff_ffff,
                ;
                BufferStep::Fill(height as u64 * stride as u64)
            },
        }
    }

    /// The compositor says whether the memory starts with the bottom row;
    /// `None` where it says something unknown.
    pub fn on_flags(&mut self, y_invert: Option<bool>)
        ensures
            *final(self) == (match y_invert {
                Some(invert) => Screencopy { y_invert: invert, ..*old(self) },
                None => *old(self),
            }),
    {
        if let Some(invert) = y_invert {
            self.y_invert = invert;
        }
    }

    /// The stride, width and height of the picture: as offered, or else those of
    /// the buffer.
    pub open spec fn layout(self, buffer_stride: u32, buffer_height: u32) -> (int, int, int) {
        (
            match self.stride {
                Some(s) => s as int,
                None => buffer_stride as int,
            },
            match self.width {
                Some(w) => w as int,
                None => buffer_stride as int / 4,
            },
            match self.height {
                Some(h) => h as int,
                None => buffer_height as int,
            },
        )
    }

    /// An attempt succeeded: the next failure is the first one again.
    pub fn succeeded(&mut self)
        ensures
            *final(self) == (Screencopy { retries: 0, ..*old(self) }),
    {
        self.retries = 0;
    }

    /// The picture is in the compositor's memory.
    pub fn on_ready(&mut self, memory: &[u8], buffer_stride: u32, buffer_height: u32) -> (r:
        CapturedFrame)
        requires
            ({
                let (stride, width, height) = old(self).layout(buffer_stride, buffer_height);
                0 < stride && width <= i32::MAX && height <= i32::MAX
            }),
        ensures
            *final(self) == (Screencopy { retries: 0, ..*old(self) }),
            ({
                let (stride, width, height) = old(self).layout(buffer_stride, buffer_height);
                let cols = row_pixels(stride, width);
                let rows = memory@.len() as int / stride;
                let shown = screenshot::min_of(height, rows);
                &&& r.buffer.width == width
                &&& r.buffer.height == height
                &&& r.buffer.data@.len() == cols * shown * 4
                &&& forall|x: int, y: int|
                    0 <= x < cols && 0 <= y < shown ==> #[trigger] pixels::px_at(
                        r.buffer.data@,
                        cols,
                        x,
                        y,
                    ) == opaque_rgb(
                        pixels::nth_px(
                            memory_row(
                                memory@,
                                stride,
                                source_row(old(self).y_invert, rows, y),
                            ),
                            x,
                        ),
                    )
                &&& 4 * width <= stride && height <= rows && width * height * 4 <= i32::MAX
                    ==> r.buffer.wf()
            }),
    {
        self.succeeded();
        let stride: u32 = match self.stride {
            Some(s) => s,
            None => buffer_stride,
        };
        let width: u32 = match self.width {
            Some(w) => w,
            None => buffer_stride / 4,
        };
        let height: u32 = match self.height {
            Some(h) => h,
            None => buffer_height,
        };
        let data: Vec<u8> = convert_memory(
            memory,
            stride as usize,
            width as usize,
            height as usize,
            self.y_invert,
        );
        CapturedFrame {
            buffer: RgbaBuffer { width: width as i32, height: height as i32, data },
        }
    }

    /// What a failed attempt leads to: another one while there are retries
    /// left, else black where there is no picture.
    pub open spec fn failed(self, captured: bool) -> (Screencopy, FailureStep) {
        if self.retries < MAX_RETRIES {
            (Screencopy { retries: (self.retries + 1) as u8, ..self }, FailureStep::Retry)
        } else if captured {
            (self, FailureStep::KeepFrame)
        } else {
            (self, FailureStep::ShowBlack)
        }
    }

    /// The attempt failed. `captured` says whether there is a picture already.
    pub fn on_failed(&mut self, captured: bool) -> (r: FailureStep)
        ensures
            (*final(self), r) == old(self).failed(captured),
    {
        if self.retries < MAX_RETRIES {
            self.retries = self.retries + 1;
            FailureStep::Retry
        } else if captured {
            FailureStep::KeepFrame
        } else {
            FailureStep::ShowBlack
        }
    }

    /// The state once a buffer of that size was taken.
    pub open spec fn offered(self, offer: Offer) -> Screencopy {
        match offer {
            Some((width, height, stride)) => Screencopy {
                width: Some(width),
                height: Some(height),
                stride: Some(stride),
                ..self
            },
            None => self,
        }
    }

    /// What the last of several rounds leads to. Every round offers a buffer
    /// and then fails.
    pub open spec fn after_rounds(self, offers: Seq<Offer>, captured: bool) -> (
        Screencopy,
        FailureStep,
    )
        decreases offers.len(),
    {
        if offers.len() <= 1 {
            self.offered(offers[0]).failed(captured)
        } else {
            self.after_rounds(offers.drop_last(), captured).0.offered(offers.last()).failed(
                captured,
            )
        }
    }
}

/// Width, height and stride of a buffer that was taken; `None` where an attempt
/// failed before any was.
pub type Offer = Option<(u32, u32, u32)>;

/// After a success, the first three rounds of a buffer and a failure are tried
/// again and no further one is, whatever buffers are offered. From there on a
/// failure shows black where there is no picture and keeps a picture that there
/// is.
pub proof fn retries_are_bounded(s: Screencopy, offers: Seq<Offer>, captured: bool)
    requires
        s.retries <= MAX_RETRIES,
        1 <= offers.len(),
    ensures
        s.after_rounds(offers, captured).1 == (if s.retries + offers.len() <= MAX_RETRIES {
            FailureStep::Retry
        } else if captured {
            FailureStep::KeepFrame
        } else {
            FailureStep::ShowBlack
        }),
        s.after_rounds(offers, captured).0.retries == if s.retries + offers.len() <= MAX_RETRIES {
            s.retries + offers.len()
        } else {
            MAX_RETRIES as int
        },
    decreases offers.len(),
{
    if offers.len() > 1 {
        retries_are_bounded(s, offers.drop_last(), captured);
    }
}

/// A pixel of the picture is the pixel of the compositor's memory in its place:
/// the memory holds blue, green and red, the picture red, green and blue, and it
/// is opaque. Where the memory starts with the bottom row, the last row of it is
/// the first of the picture.
pub proof fn picture_shows_the_memory(
    memory: Seq<u8>,
    stride: int,
    rows: int,
    y_invert: bool,
    x: int,
    y: int,
)
    requires
        0 <= x,
        4 * x + 4 <= stride,
        0 <= y < rows,
        rows * stride <= memory.len(),
    ensures
        ({
            let p = opaque_rgb(
                pixels::nth_px(memory_row(memory, stride, source_row(y_invert, rows, y)), x),
            );
            let row = if y_invert {
                rows - 1 - y
            } else {
                y
            };
            &&& p.0 == memory[row * stride + 4 * x + 2]
            &&& p.1 == memory[row * stride + 4 * x + 1]
            &&& p.2 == memory[row * stride + 4 * x]
            &&& p.3 == 255
        }),
{
    let row = if y_invert {
        rows - 1 - y
    } else {
        y
    };
    assert(0 <= row * stride && row * stride + stride <= rows * stride) by (nonlinear_arith)
        requires
            0 <= row < rows,
            0 <= stride,
    ;
}

/// A row has as many pixels as the picture is wide, unless it holds fewer.
pub proof fn rows_are_as_wide_as_the_picture(bytes: int, width: int)
    requires
        0 <= bytes,
        0 <= width,
    ensures
        4 * width <= bytes ==> row_pixels(bytes, width) == width,
        4 * width > bytes ==> row_pixels(bytes, width) * 4 <= bytes < row_pixels(bytes, width) * 4
            + 4,
{
}

/// A failure is tried again three times; from there on it shows black where
/// there is no picture, and keeps the one that there is.
pub proof fn failures_are_tried_again_three_times(s: Screencopy, captured: bool)
    ensures
        ({
            let (after, step) = s.failed(captured);
            &&& s.retries < 3 ==> step == FailureStep::Retry && after.retries == s.retries + 1
            &&& s.retries >= 3 && captured ==> step == FailureStep::KeepFrame && after == s
            &&& s.retries >= 3 && !captured ==> step == FailureStep::ShowBlack && after == s
            &&& after.width == s.width && after.height == s.height && after.stride == s.stride
                && after.y_invert == s.y_invert
        }),
{
}

/// The picture has the size that was offered, or that of the buffer.
pub proof fn picture_has_the_offered_size(s: Screencopy, stride: u32, height: u32)
    ensures
        ({
            let l = s.layout(stride, height);
            &&& s.stride matches Some(v) ==> l.0 == v
            &&& s.stride is None ==> l.0 == stride
            &&& s.width matches Some(v) ==> l.1 == v
            &&& s.width is None ==> 4 * l.1 <= stride < 4 * l.1 + 4
            &&& s.height matches Some(v) ==> l.2 == v
            &&& s.height is None ==> l.2 == height
        }),
{
}

/// A taken offer sets the size of the picture, and nothing else; without one
/// everything stays.
pub proof fn offers_set_the_size(s: Screencopy, w: u32, h: u32, stride: u32)
    ensures
        ({
            let r = s.offered(Some((w, h, stride)));
            &&& r.width == Some(w)
            &&& r.height == Some(h)
            &&& r.stride == Some(stride)
            &&& r.y_invert == s.y_invert
            &&& r.retries == s.retries
            &&& s.offered(None) == s
        }),
{
}

} // verus!
