//! Screenshots: what is cut out of the frame, under what name it is saved, and
//! its encoding.

use crate::config::ScreenshotScale;
use crate::number;
use crate::number::Number;
use crate::pixels;
use crate::render::RgbaBuffer;
use crate::screenshot;
use crate::text;
use chrono::{Datelike, Local, Timelike};
use vstd::prelude::*;
use vstd::utf8::encode_utf8;

verus! {

/// A part of the captured frame.
#[derive(Clone, Copy, Debug, PartialEq, Eq, Structural)]
pub struct ScreenshotRegion {
    pub x: i32,
    pub y: i32,
    pub width: u32,
    pub height: u32,
}

/// The region of a selection: its position and size, at least one pixel.
pub fn region_of(rect: screenshot::Selection) -> (r: ScreenshotRegion)
    requires
        rect.2 - rect.0 <= u32::MAX,
        rect.3 - rect.1 <= u32::MAX,
    ensures
        r.x == rect.0,
        r.y == rect.1,
        r.width == screenshot::max_of(rect.2 - rect.0, 1),
        r.height == screenshot::max_of(rect.3 - rect.1, 1),
{
    let w: i64 = rect.2 as i64 - rect.0 as i64;
    let h: i64 = rect.3 as i64 - rect.1 as i64;
    ScreenshotRegion {
        x: rect.0,
        y: rect.1,
        width: if w < 1 { 1 } else { w as u32 },
        height: if h < 1 { 1 } else { h as u32 },
    }
}

/// Why a screenshot could not be made.
#[derive(Clone, Copy, Debug, PartialEq, Eq, Structural)]
pub enum CaptureError {
    /// There is no captured frame.
    NoFrame,
    /// The path starts at the home directory, and that is not known.
    NoHome,
    /// The picture could not be encoded.
    Encoding,
}

impl CaptureError {
    pub open spec fn spoken(self) -> Seq<char> {
        match self {
            CaptureError::NoFrame => "No captured frame yet"@,
            CaptureError::NoHome => "Cannot determine home directory"@,
            CaptureError::Encoding => "Cannot encode the picture"@,
        }
    }

    pub fn message(self) -> (r: &'static str)
        ensures
            r@ == self.spoken(),
    {
        match self {
            CaptureError::NoFrame => "No captured frame yet",
            CaptureError::NoHome => "Cannot determine home directory",
            CaptureError::Encoding => "Cannot encode the picture",
        }
    }
}

/// A date and time of day.
#[derive(Clone, Copy, Debug, PartialEq, Eq, Structural)]
pub struct Stamp {
    pub year: i32,
    pub month: u32,
    pub day: u32,
    pub hour: u32,
    pub minute: u32,
    pub second: u32,
}

impl Stamp {
    /// Each part is in its range.
    pub open spec fn wf(self) -> bool {
        &&& 1 <= self.month <= 12
        &&& 1 <= self.day <= 31
        &&& self.hour <= 23
        &&& self.minute <= 59
        &&& self.second <= 59
    }
}

/// `chrono::Local::now` with the parts of what it returns. The documentation of
/// `Datelike` and `Timelike` gives the range of each part; which moment it is
/// depends on the clock.
#[verifier::external_body]
fn local_now() -> (r: Stamp)
    ensures
        r.wf(),
{
    let now = Local::now();
    Stamp {
        year: now.year(),
        month: now.month(),
        day: now.day(),
        hour: now.hour(),
        minute: now.minute(),
        second: now.second(),
    }
}

/// `dirs::home_dir`, as the bytes that the system has for the path. It depends on
/// the environment, so nothing is said of the result.
#[verifier::external_body]
pub(crate) fn home_dir() -> (r: Option<Vec<u8>>) {
    dirs::home_dir().map(|home| home.into_os_string().into_encoded_bytes())
}

/// What stands for `%c` in a file name pattern: the parts of the moment, the
/// year with at least four digits, the others with at least two.
pub open spec fn token(c: char, now: Stamp) -> Option<Seq<char>> {
    match c {
        'Y' => Some(text::padded(now.year as int, 4)),
        'm' => Some(text::padded(now.month as int, 2)),
        'd' => Some(text::padded(now.day as int, 2)),
        'H' => Some(text::padded(now.hour as int, 2)),
        'M' => Some(text::padded(now.minute as int, 2)),
        'S' => Some(text::padded(now.second as int, 2)),
        _ => None,
    }
}

/// A pattern with every token replaced.
pub open spec fn filled_in(pattern: Seq<char>, now: Stamp) -> Seq<char>
    decreases pattern.len(),
{
    if pattern.len() == 0 {
        Seq::empty()
    } else if pattern.len() >= 2 && pattern[0] == '%' && token(pattern[1], now) is Some {
        token(pattern[1], now)->0 + filled_in(pattern.skip(2), now)
    } else {
        seq![pattern[0]] + filled_in(pattern.skip(1), now)
    }
}

fn token_text(c: char, now: Stamp) -> (r: Option<String>)
    ensures
        match r {
            Some(s) => token(c, now) == Some(s@),
            None => token(c, now) is None,
        },
{
    match c {
        'Y' => Some(text::padded_decimal(now.year as i64, 4)),
        'm' => Some(text::padded_decimal(now.month as i64, 2)),
        'd' => Some(text::padded_decimal(now.day as i64, 2)),
        'H' => Some(text::padded_decimal(now.hour as i64, 2)),
        'M' => Some(text::padded_decimal(now.minute as i64, 2)),
        'S' => Some(text::padded_decimal(now.second as i64, 2)),
        _ => None,
    }
}

/// Replaces the tokens `%Y`, `%m`, `%d`, `%H`, `%M` and `%S` of a pattern by the
/// parts of a moment.
pub fn fill_in(pattern: &str, now: Stamp) -> (r: String)
    ensures
        r@ == filled_in(pattern@, now),
{
    let p: Vec<char> = text::chars_of(pattern);
    let mut r: String = String::new();
    let mut i: usize = 0;
    assert(p@.skip(0) == p@);
    while i < p.len()
        invariant
            p@ == pattern@,
            i <= p@.len(),
            r@ + filled_in(p@.skip(i as int), now) == filled_in(pattern@, now),
        decreases p@.len() - i,
    {
        let ghost rest = p@.skip(i as int);
        let replaced: Option<String> = if p[i] == '%' && i + 1 < p.len() {
            token_text(p[i + 1], now)
        } else {
            None
        };
        match replaced {
            Some(s) => {
                assert(rest.skip(2) == p@.skip(i + 2));
                assert(r@ + (s@ + filled_in(p@.skip(i + 2), now)) == (r@ + s@) + filled_in(
                    p@.skip(i + 2),
                    now,
                ));
                r.append(s.as_str());
                i += 2;
            },
            None => {
                assert(rest.skip(1) == p@.skip(i + 1));
                assert(r@ + (seq![rest[0]] + filled_in(p@.skip(i + 1), now)) == r@.push(rest[0])
                    + filled_in(p@.skip(i + 1), now));
                r.push(p[i]);
                i += 1;
            },
        }
    }
    assert(p@.skip(i as int) == Seq::<char>::empty());
    assert(r@ + Seq::<char>::empty() == r@);
    r
}

proof fn lemma_plain_text_stays(pattern: Seq<char>, now: Stamp)
    requires
        !pattern.contains('%'),
    ensures
        filled_in(pattern, now) == pattern,
    decreases pattern.len(),
{
    if pattern.len() > 0 {
        assert(pattern[0] != '%') by {
            assert(pattern.contains(pattern[0]));
        }
        assert(!pattern.skip(1).contains('%')) by {
            if pattern.skip(1).contains('%') {
                let i = choose|i: int| 0 <= i < pattern.skip(1).len() && pattern.skip(1)[i] == '%';
                assert(pattern[i + 1] == '%');
            }
        }
        lemma_plain_text_stays(pattern.skip(1), now);
        assert(seq![pattern[0]] + pattern.skip(1) == pattern);
    }
}

/// A pattern without a percent sign is the file name.
pub proof fn pattern_without_tokens_is_kept(pattern: Seq<char>, now: Stamp)
    requires
        !pattern.contains('%'),
    ensures
        filled_in(pattern, now) == pattern,
{
    lemma_plain_text_stays(pattern, now);
}

/// A path without the separators that it starts with.
pub open spec fn without_leading_slashes(path: Seq<char>) -> Seq<char>
    decreases path.len(),
{
    if path.len() > 0 && path[0] == '/' {
        without_leading_slashes(path.skip(1))
    } else {
        path
    }
}

/// A directory with a leading `~` replaced by the home directory.
pub open spec fn expanded(path: Seq<char>, home: Seq<u8>) -> Seq<u8> {
    if path.len() > 0 && path[0] == '~' {
        let below = without_leading_slashes(path.skip(1));
        if below.len() == 0 {
            home
        } else {
            text::path_below(home, below)
        }
    } else {
        encode_utf8(path)
    }
}

/// Replaces a leading `~` of a directory by the home directory.
pub fn expand_screenshot_dir(path: &str, home: &[u8]) -> (r: Vec<u8>)
    ensures
        r@ == expanded(path@, home@),
{
    let p: Vec<char> = text::chars_of(path);
    if !(p.len() > 0 && p[0] == '~') {
        return text::bytes_of(path);
    }
    let mut i: usize = 1;
    while i < p.len() && p[i] == '/'
        invariant
            p@ == path@,
            1 <= i <= p@.len(),
            without_leading_slashes(p@.skip(1)) == without_leading_slashes(p@.skip(i as int)),
        decreases p@.len() - i,
    {
        assert(p@.skip(i as int).skip(1) == p@.skip(i + 1));
        i += 1;
    }
    let below: String = text::string_from(&p, i);
    if i == p.len() {
        return vstd::slice::slice_to_vec(home);
    }
    text::join_path(home, below.as_str())
}

/// What follows `~` never takes the path out of the home directory to the root
/// of the file system.
pub proof fn expansion_starts_at_home(path: Seq<char>, home: Seq<u8>)
    requires
        path.len() > 0,
        path[0] == '~',
    ensures
        home.is_prefix_of(expanded(path, home)),
{
    lemma_no_leading_slash(path.skip(1));
}

proof fn lemma_no_leading_slash(path: Seq<char>)
    ensures
        ({
            let r = without_leading_slashes(path);
            r.len() == 0 || r[0] != '/'
        }),
    decreases path.len(),
{
    if path.len() > 0 && path[0] == '/' {
        lemma_no_leading_slash(path.skip(1));
    }
}

/// Where a screenshot goes: the directory, which may have to be made, and the
/// file in it, as the bytes of their paths.
#[derive(Debug)]
pub struct ScreenshotTarget {
    pub directory: Vec<u8>,
    pub file: Vec<u8>,
}

/// Knows where screenshots are saved and how they are named.
pub struct CaptureManager {
    screenshot_path: String,
    screenshot_filename_pattern: String,
}

impl CaptureManager {
    /// The configured directory.
    pub closed spec fn path(self) -> Seq<char> {
        self.screenshot_path@
    }

    /// The configured file name pattern.
    pub closed spec fn pattern(self) -> Seq<char> {
        self.screenshot_filename_pattern@
    }

    pub fn new(screenshot_path: String, screenshot_filename_pattern: String) -> (r: CaptureManager)
        ensures
            r.path() == screenshot_path@,
            r.pattern() == screenshot_filename_pattern@,
    {
        CaptureManager { screenshot_path, screenshot_filename_pattern }
    }

    /// Whether the directory is given relative to the home directory.
    pub open spec fn needs_home(self) -> bool {
        self.path().len() > 0 && self.path()[0] == '~'
    }

    /// The target for a given home directory and moment. The home directory
    /// matters only to a path that starts with `~`, and fails only that.
    pub fn screenshot_target(&self, home: Option<Vec<u8>>, now: Stamp) -> (r: Result<
        ScreenshotTarget,
        CaptureError,
    >)
        ensures
            match r {
                Ok(t) => {
                    &&& !self.needs_home() || home is Some
                    &&& t.directory@ == (if self.needs_home() {
                        expanded(self.path(), home->0@)
                    } else {
                        encode_utf8(self.path())
                    })
                    &&& t.file@ == text::path_below(t.directory@, filled_in(self.pattern(), now))
                },
                Err(e) => e == CaptureError::NoHome && self.needs_home() && home is None,
            },
    {
        let p: Vec<char> = text::chars_of(self.screenshot_path.as_str());
        let directory: Vec<u8> = if p.len() > 0 && p[0] == '~' {
            match home {
                Some(home) => expand_screenshot_dir(
                    self.screenshot_path.as_str(),
                    home.as_slice(),
                ),
                None => {
                    return Err(CaptureError::NoHome);
                },
            }
        } else {
            text::bytes_of(self.screenshot_path.as_str())
        };
        let name: String = fill_in(self.screenshot_filename_pattern.as_str(), now);
        let file: Vec<u8> = text::join_path(directory.as_slice(), name.as_str());
        Ok(ScreenshotTarget { directory, file })
    }

    /// The target for this moment.
    pub fn generate_screenshot_path(&self) -> (r: Result<ScreenshotTarget, CaptureError>)
        ensures
            match r {
                Ok(t) => exists|home: Option<Seq<u8>>, now: Stamp|
                    #![trigger is_target(*self, t, home, now)]
                    now.wf() && is_target(*self, t, home, now),
                Err(e) => e == CaptureError::NoHome && self.needs_home(),
            },
    {
        let p: Vec<char> = text::chars_of(self.screenshot_path.as_str());
        let home: Option<Vec<u8>> = if p.len() > 0 && p[0] == '~' { home_dir() } else { None };
        let now: Stamp = local_now();
        let ghost home_path: Option<Seq<u8>> = if home is Some {
            Some(home->0@)
        } else {
            None
        };
        let r: Result<ScreenshotTarget, CaptureError> = self.screenshot_target(home, now);
        proof {
            if r is Ok {
                assert(is_target(*self, r->Ok_0, home_path, now));
            }
        }
        r
    }
}

/// The target is the one for the given home directory and moment.
pub open spec fn is_target(
    m: CaptureManager,
    t: ScreenshotTarget,
    home: Option<Seq<u8>>,
    now: Stamp,
) -> bool {
    &&& !m.needs_home() || home is Some
    &&& t.directory@ == (if m.needs_home() {
        expanded(m.path(), home->0)
    } else {
        encode_utf8(m.path())
    })
    &&& t.file@ == text::path_below(t.directory@, filled_in(m.pattern(), now))
}

/// The part of a frame that a region asks for: moved onto the frame, and no
/// larger than what is left there. Without a region, all of it. The parts are
/// left, top, width, height.
pub open spec fn cropped_area(frame: RgbaBuffer, region: Option<ScreenshotRegion>) -> (
    int,
    int,
    int,
    int,
) {
    match region {
        Some(r) => {
            let x = screenshot::clamped(r.x as int, 0, frame.width - 1);
            let y = screenshot::clamped(r.y as int, 0, frame.height - 1);
            (
                x,
                y,
                screenshot::clamped(signed(r.width), 1, frame.width - x),
                screenshot::clamped(signed(r.height), 1, frame.height - y),
            )
        },
        None => (0, 0, frame.width as int, frame.height as int),
    }
}

/// A size that is too large for a signed number counts as none.
pub open spec fn signed(n: u32) -> int {
    if n <= i32::MAX {
        n as int
    } else {
        n - 0x1_0000_0000
    }
}

fn clamp_size(n: u32, limit: i32) -> (r: i32)
    requires
        1 <= limit,
    ensures
        r == screenshot::clamped(signed(n), 1, limit as int),
{
    if n < 1 || n > i32::MAX as u32 {
        1
    } else if n > limit as u32 {
        limit
    } else {
        n as i32
    }
}

fn clamp_start(v: i32, len: i32) -> (r: i32)
    requires
        1 <= len,
    ensures
        r == screenshot::clamped(v as int, 0, len - 1),
{
    if v < 0 {
        0
    } else if v > len - 1 {
        len - 1
    } else {
        v
    }
}

/// Cuts a region out of the captured frame.
pub fn crop(frame: &RgbaBuffer, region: Option<ScreenshotRegion>) -> (r: RgbaBuffer)
    requires
        frame.wf(),
        region is Some ==> 1 <= frame.width && 1 <= frame.height,
    ensures
        ({
            let (x, y, w, h) = cropped_area(*frame, region);
            &&& r.wf()
            &&& r.width == w
            &&& r.height == h
            &&& forall|px: int, py: int|
                r.has(px, py) ==> frame.has(x + px, y + py) && #[trigger] r.at(px, py) == frame.at(
                    x + px,
                    y + py,
                )
        }),
{
    let (x, y, w, h): (i32, i32, i32, i32) = match region {
        Some(r) => {
            let x: i32 = clamp_start(r.x, frame.width);
            let y: i32 = clamp_start(r.y, frame.height);
            (x, y, clamp_size(r.width, frame.width - x), clamp_size(r.height, frame.height - y))
        },
        None => (0, 0, frame.width, frame.height),
    };
    assert(0 <= w * h && w * h <= frame.width * frame.height) by (nonlinear_arith)
        requires
            0 <= w <= frame.width,
            0 <= h <= frame.height,
    ;
    let mut out = RgbaBuffer::new(w, h);
    let mut row: i32 = 0;
    while row < h
        invariant
            frame.wf(),
            out.wf(),
            out.width == w,
            out.height == h,
            0 <= x,
            0 <= y,
            x + w <= frame.width,
            y + h <= frame.height,
            0 <= row <= h,
            forall|px: int, py: int|
                out.has(px, py) && py < row ==> #[trigger] out.at(px, py) == frame.at(
                    x + px,
                    y + py,
                ),
        decreases h - row,
    {
        let mut col: i32 = 0;
        while col < w
            invariant
                frame.wf(),
                out.wf(),
                out.width == w,
                out.height == h,
                0 <= x,
                0 <= y,
                x + w <= frame.width,
                y + h <= frame.height,
                0 <= row < h,
                0 <= col <= w,
                forall|px: int, py: int|
                    out.has(px, py) && (py < row || (py == row && px < col)) ==> #[trigger] out.at(
                        px,
                        py,
                    ) == frame.at(x + px, y + py),
            decreases w - col,
        {
            let px: [u8; 4] = pixels::get_px(
                frame.data.as_slice(),
                frame.width as usize,
                frame.height as usize,
                (x + col) as usize,
                (y + row) as usize,
            );
            let ghost before = out;
            out.set_pixel(col, row, px);
            assert forall|qx: int, qy: int|
                out.has(qx, qy) && (qy < row || (qy == row && qx < col + 1)) implies #[trigger] out.at(
                qx,
                qy,
            ) == frame.at(x + qx, y + qy) by {
                assert(before.has(qx, qy));
                assert(before.at(qx, qy) == pixels::px_at(before.data@, w as int, qx, qy));
            }
            col += 1;
        }
        row += 1;
    }
    out
}

/// A cut never reaches past the frame, and never is empty.
pub proof fn crop_stays_on_frame(frame: RgbaBuffer, region: Option<ScreenshotRegion>)
    requires
        1 <= frame.width,
        1 <= frame.height,
    ensures
        ({
            let (x, y, w, h) = cropped_area(frame, region);
            &&& 0 <= x
            &&& 0 <= y
            &&& 1 <= w
            &&& 1 <= h
            &&& x + w <= frame.width
            &&& y + h <= frame.height
        }),
{
}

/// The region of a selection within the frame is cut out exactly.
pub proof fn selection_is_cut_out_exactly(
    frame: RgbaBuffer,
    rect: screenshot::Selection,
    region: ScreenshotRegion,
)
    requires
        screenshot::valid_selection(rect, (frame.width, frame.height)),
        region.x == rect.0,
        region.y == rect.1,
        region.width == rect.2 - rect.0,
        region.height == rect.3 - rect.1,
    ensures
        cropped_area(frame, Some(region)) == (
            rect.0 as int,
            rect.1 as int,
            rect.2 - rect.0,
            rect.3 - rect.1,
        ),
{
}

/// The image magnified through a sampling grid: pixel `(x, y)` of the result is
/// the pixel at column `cols[x]`, row `rows[y]`. For a magnification by `scale`
/// column `x` is `floor(x / scale)`, and rows likewise.
pub fn upscale_nearest(src: &RgbaBuffer, cols: &Vec<i32>, rows: &Vec<i32>) -> (r: RgbaBuffer)
    requires
        src.wf(),
        cols@.len() <= i32::MAX,
        rows@.len() <= i32::MAX,
        cols@.len() * rows@.len() * 4 <= i32::MAX,
        forall|x: int, y: int|
            0 <= x < cols@.len() && 0 <= y < rows@.len() ==> src.has(
                #[trigger] cols@[x] as int,
                #[trigger] rows@[y] as int,
            ),
    ensures
        r.wf(),
        r.width == cols@.len(),
        r.height == rows@.len(),
        forall|x: int, y: int|
            r.has(x, y) ==> #[trigger] r.at(x, y) == src.at(cols@[x] as int, rows@[y] as int),
{
    src.nearest_neighbor_scale(cols, rows)
}

/// The PNG file of an image with 8-bit RGBA pixels, as the `png` crate encodes
/// it; `None` where it refuses to.
pub uninterp spec fn png_file(pixels: Seq<u8>, width: u32, height: u32) -> Option<Seq<u8>>;

/// The error of the `png` encoder.
#[verifier::external_type_specification]
#[verifier::external_body]
pub struct ExEncodingError(png::EncodingError);

/// `png::Encoder` with its defaults, set to RGBA with 8 bits per channel, writing
/// one image into memory. It refuses an image without pixels, and data whose
/// length is not that of the image.
#[verifier::external_body]
fn png_encode(pixels: &[u8], width: u32, height: u32) -> (r: Result<Vec<u8>, png::EncodingError>)
    requires
        width * height * 4 <= usize::MAX,
    ensures
        match r {
            Ok(file) => png_file(pixels@, width, height) == Some(file@),
            Err(_) => png_file(pixels@, width, height) is None,
        },
        width == 0 || height == 0 || pixels@.len() != width * height * 4 ==> r is Err,
{
    let mut file: Vec<u8> = Vec::new();
    let mut encoder = png::Encoder::new(&mut file, width, height);
    encoder.set_color(png::ColorType::Rgba);
    encoder.set_depth(png::BitDepth::Eight);
    let mut writer = encoder.write_header()?;
    writer.write_image_data(pixels)?;
    drop(writer);
    Ok(file)
}

/// What a save makes of the encoder's answer.
pub fn encoded_or_error(file: Option<Vec<u8>>) -> (r: Result<Vec<u8>, CaptureError>)
    ensures
        match file {
            Some(bytes) => r == Ok::<Vec<u8>, CaptureError>(bytes),
            None => r == Err::<Vec<u8>, CaptureError>(CaptureError::Encoding),
        },
{
    match file {
        Some(bytes) => Ok(bytes),
        None => Err(CaptureError::Encoding),
    }
}

/// Encodes an image as a PNG file. An image without pixels cannot be encoded.
pub fn encode_png(image: &RgbaBuffer) -> (r: Result<Vec<u8>, CaptureError>)
    requires
        image.wf(),
    ensures
        match r {
            Ok(file) => png_file(image.data@, image.width as u32, image.height as u32) == Some(
                file@,
            ),
            Err(e) => e == CaptureError::Encoding && png_file(
                image.data@,
                image.width as u32,
                image.height as u32,
            ) is None,
        },
        image.width == 0 || image.height == 0 ==> r is Err,
{
    let answer: Option<Vec<u8>> = match png_encode(
        image.data.as_slice(),
        image.width as u32,
        image.height as u32,
    ) {
        Ok(file) => Some(file),
        Err(_) => None,
    };
    encoded_or_error(answer)
}

/// Whether a screenshot is magnified: that is what was asked for, and the view
/// is.
pub open spec fn magnifies(scale: ScreenshotScale, zoom: Number) -> bool {
    scale == ScreenshotScale::Magnified && number::num(number::ONE).below(zoom)
}

/// Whether a sampling grid stays on an image of some size and gives an image
/// that can be held.
pub open spec fn grid_fits(cols: Seq<i32>, rows: Seq<i32>, w: int, h: int) -> bool {
    &&& cols.len() <= i32::MAX
    &&& rows.len() <= i32::MAX
    &&& cols.len() * rows.len() * 4 <= i32::MAX
    &&& forall|x: int, y: int|
        0 <= x < cols.len() && 0 <= y < rows.len() ==> pixels::inside(
            w,
            h,
            #[trigger] cols[x] as int,
            #[trigger] rows[y] as int,
        )
}

/// Whether an image is the screenshot of a region of a frame, seen through the
/// sampling grid where it is magnified.
pub open spec fn is_screenshot(
    image: RgbaBuffer,
    frame: RgbaBuffer,
    region: Option<ScreenshotRegion>,
    magnified: bool,
    cols: Seq<i32>,
    rows: Seq<i32>,
) -> bool {
    let (left, top, w, h) = cropped_area(frame, region);
    &&& image.wf()
    &&& image.width == if magnified {
        cols.len() as int
    } else {
        w
    }
    &&& image.height == if magnified {
        rows.len() as int
    } else {
        h
    }
    &&& forall|x: int, y: int|
        image.has(x, y) ==> #[trigger] image.at(x, y) == if magnified {
            frame.at(left + cols[x], top + rows[y])
        } else {
            frame.at(left + x, top + y)
        }
}

/// Takes the screenshot: cuts the region out of the captured frame and, where it
/// is asked for, magnifies it through the sampling grid of
/// [`upscale_nearest`].
pub fn take_screenshot(
    frame: Option<&RgbaBuffer>,
    region: Option<ScreenshotRegion>,
    scale: ScreenshotScale,
    zoom: Number,
    cols: &Vec<i32>,
    rows: &Vec<i32>,
) -> (r: Result<RgbaBuffer, CaptureError>)
    requires
        frame is Some ==> frame->0.wf(),
        frame is Some && region is Some ==> 1 <= frame->0.width && 1 <= frame->0.height,
        frame is Some && magnifies(scale, zoom) ==> ({
            let (x, y, w, h) = cropped_area(*frame->0, region);
            grid_fits(cols@, rows@, w, h)
        }),
    ensures
        match r {
            Ok(image) => frame is Some && is_screenshot(
                image,
                *frame->0,
                region,
                magnifies(scale, zoom),
                cols@,
                rows@,
            ),
            Err(e) => frame is None && e == CaptureError::NoFrame,
        },
{
    let frame: &RgbaBuffer = match frame {
        Some(frame) => frame,
        None => {
            return Err(CaptureError::NoFrame);
        },
    };
    let cut: RgbaBuffer = crop(frame, region);
    let wanted: bool = match scale {
        ScreenshotScale::Magnified => true,
        ScreenshotScale::Real => false,
    };
    if wanted && (Number { bits: number::ONE }).lt(zoom) {
        let ghost (left, top, w, h) = cropped_area(*frame, region);
        let image: RgbaBuffer = upscale_nearest(&cut, cols, rows);
        proof {
            assert forall|x: int, y: int| image.has(x, y) implies #[trigger] image.at(x, y)
                == frame.at(left + cols@[x], top + rows@[y]) by {
                assert(cut.has(cols@[x] as int, rows@[y] as int));
                assert(cut.at(cols@[x] as int, rows@[y] as int) == frame.at(
                    left + cols@[x],
                    top + rows@[y],
                ));
            }
        }
        Ok(image)
    } else {
        Ok(cut)
    }
}

/// Takes a screenshot and encodes it.
pub fn save_screenshot(
    frame: Option<&RgbaBuffer>,
    region: Option<ScreenshotRegion>,
    scale: ScreenshotScale,
    zoom: Number,
    cols: &Vec<i32>,
    rows: &Vec<i32>,
) -> (r: Result<Vec<u8>, CaptureError>)
    requires
        frame is Some ==> frame->0.wf(),
        frame is Some && region is Some ==> 1 <= frame->0.width && 1 <= frame->0.height,
        frame is Some && magnifies(scale, zoom) ==> ({
            let (x, y, w, h) = cropped_area(*frame->0, region);
            grid_fits(cols@, rows@, w, h)
        }),
    ensures
        frame is None ==> r == Err::<Vec<u8>, CaptureError>(CaptureError::NoFrame),
        frame is Some ==> exists|image: RgbaBuffer| #[trigger]
            is_screenshot(image, *frame->0, region, magnifies(scale, zoom), cols@, rows@) && match r {
                Ok(file) => png_file(image.data@, image.width as u32, image.height as u32) == Some(
                    file@,
                ),
                Err(e) => e == CaptureError::Encoding && png_file(
                    image.data@,
                    image.width as u32,
                    image.height as u32,
                ) is None,
            },
{
    match take_screenshot(frame, region, scale, zoom, cols, rows) {
        Ok(image) => {
            let r: Result<Vec<u8>, CaptureError> = encode_png(&image);
            assert(is_screenshot(image, *frame->0, region, magnifies(scale, zoom), cols@, rows@));
            r
        },
        Err(e) => Err(e),
    }
}

/// The largest screenshot shows every pixel of the frame where it is.
pub proof fn whole_screenshot_is_the_frame(
    image: RgbaBuffer,
    frame: RgbaBuffer,
    x: int,
    y: int,
)
    requires
        is_screenshot(image, frame, None, false, Seq::empty(), Seq::empty()),
        frame.has(x, y),
    ensures
        image.width == frame.width,
        image.height == frame.height,
        image.at(x, y) == frame.at(x, y),
{
    assert(image.has(x, y));
}

/// The tokens of a pattern stand for the parts of the moment: each reads as its
/// number, the year with four digits, the others with two.
pub proof fn tokens_stand_for_the_moment(now: Stamp)
    requires
        now.wf(),
        0 <= now.year <= 9999,
    ensures
        token('Y', now) matches Some(t) && text::reading(t) == now.year && t.len() >= 4,
        token('m', now) matches Some(t) && text::reading(t) == now.month && t.len() >= 2,
        token('d', now) matches Some(t) && text::reading(t) == now.day && t.len() >= 2,
        token('H', now) matches Some(t) && text::reading(t) == now.hour && t.len() >= 2,
        token('M', now) matches Some(t) && text::reading(t) == now.minute && t.len() >= 2,
        token('S', now) matches Some(t) && text::reading(t) == now.second && t.len() >= 2,
        forall|c: char|
            c != 'Y' && c != 'm' && c != 'd' && c != 'H' && c != 'M' && c != 'S' ==> (
            #[trigger] token(c, now)) is None,
{
    text::padding_keeps_the_number(now.year as int, 4);
    text::padding_keeps_the_number(now.month as int, 2);
    text::padding_keeps_the_number(now.day as int, 2);
    text::padding_keeps_the_number(now.hour as int, 2);
    text::padding_keeps_the_number(now.minute as int, 2);
    text::padding_keeps_the_number(now.second as int, 2);
}

/// Tokens are replaced where they stand, and what is around them stays: a
/// pattern without percent signs before a token, and any pattern behind it.
pub proof fn tokens_are_replaced_in_place(
    before: Seq<char>,
    c: char,
    after: Seq<char>,
    now: Stamp,
)
    requires
        !before.contains('%'),
        token(c, now) is Some,
    ensures
        filled_in(before + seq!['%', c] + after, now) == before + token(c, now)->0 + filled_in(
            after,
            now,
        ),
    decreases before.len(),
{
    let whole = before + seq!['%', c] + after;
    if before.len() == 0 {
        assert(whole.skip(2) =~= after);
        assert(whole[0] == '%' && whole[1] == c);
        assert(before + token(c, now)->0 + filled_in(after, now) =~= token(c, now)->0 + filled_in(
            after,
            now,
        ));
    } else {
        let rest = before.skip(1);
        assert(before.contains(before[0]));
        assert(!rest.contains('%')) by {
            if rest.contains('%') {
                let i = choose|i: int| 0 <= i < rest.len() && rest[i] == '%';
                assert(before[i + 1] == '%');
            }
        }
        tokens_are_replaced_in_place(rest, c, after, now);
        assert(whole.skip(1) =~= rest + seq!['%', c] + after);
        assert(whole[0] == before[0]);
        assert(seq![before[0]] + (rest + token(c, now)->0 + filled_in(after, now)) =~= before
            + token(c, now)->0 + filled_in(after, now));
    }
}

/// A percent sign that begins no token stays, and so does what follows it.
pub proof fn other_percent_signs_stay(c: char, after: Seq<char>, now: Stamp)
    requires
        token(c, now) is None,
    ensures
        filled_in(seq!['%', c] + after, now) == seq!['%'] + filled_in(seq![c] + after, now),
        filled_in(seq!['%'], now) == seq!['%'],
{
    let whole = seq!['%', c] + after;
    assert(whole.skip(1) =~= seq![c] + after);
    assert(seq!['%'].skip(1) =~= Seq::empty());
    assert(filled_in(Seq::<char>::empty(), now) == Seq::<char>::empty());
    assert(seq!['%'] + Seq::<char>::empty() =~= seq!['%']);
}

/// A directory below the home directory is what follows the tilde, one separator
/// below home. The tilde alone is the home directory itself, and a directory
/// without it is taken as it is.
pub proof fn tilde_stands_for_home(rest: Seq<char>, home: Seq<u8>)
    requires
        home.len() > 0,
        home.last() != 0x2f,
    ensures
        rest.len() > 0 && rest[0] != '/' ==> expanded(seq!['~', '/'] + rest, home) == home + seq![
            0x2fu8,
        ] + encode_utf8(rest),
        rest.len() > 0 && rest[0] != '/' ==> expanded(seq!['~'] + rest, home) == home + seq![0x2fu8]
            + encode_utf8(rest),
        expanded(seq!['~'], home) == home,
        expanded(seq!['~', '/'], home) == home,
        rest.len() == 0 || rest[0] != '~' ==> expanded(rest, home) == encode_utf8(rest),
{
    let path = seq!['~', '/'] + rest;
    assert(path.skip(1)[0] == '/');
    assert(path.skip(1).skip(1) =~= rest);
    assert((seq!['~'] + rest).skip(1) =~= rest);
    assert(seq!['~'].skip(1) =~= Seq::empty());
    assert(seq!['~', '/'].skip(1).skip(1) =~= Seq::empty());
    reveal_with_fuel(without_leading_slashes, 3);
    text::paths_join_at_one_separator(home, rest);
}

/// A screenshot of a part of the frame shows that part pixel for pixel, and a
/// magnified one shows it through its sampling grid.
pub proof fn screenshot_shows_its_region(
    image: RgbaBuffer,
    frame: RgbaBuffer,
    r: ScreenshotRegion,
    magnified: bool,
    cols: Seq<i32>,
    rows: Seq<i32>,
    x: int,
    y: int,
)
    requires
        is_screenshot(image, frame, Some(r), magnified, cols, rows),
        0 <= r.x,
        0 <= r.y,
        1 <= r.width,
        1 <= r.height,
        r.x + r.width <= frame.width,
        r.y + r.height <= frame.height,
        image.has(x, y),
    ensures
        !magnified ==> image.width == r.width && image.height == r.height,
        !magnified ==> image.at(x, y) == frame.at(r.x + x, r.y + y),
        magnified ==> image.width == cols.len() && image.height == rows.len(),
        magnified ==> image.at(x, y) == frame.at(r.x + cols[x], r.y + rows[y]),
{
}

/// A region that reaches past the frame ends at its edge, and one that begins
/// before it begins at its edge.
pub proof fn regions_end_at_the_frame(frame: RgbaBuffer, r: ScreenshotRegion)
    requires
        1 <= frame.width,
        1 <= frame.height,
        1 <= r.width <= i32::MAX,
        1 <= r.height <= i32::MAX,
    ensures
        ({
            let (x, y, w, h) = cropped_area(frame, Some(r));
            &&& r.x < 0 ==> x == 0
            &&& r.y < 0 ==> y == 0
            &&& 0 <= r.x < frame.width ==> x == r.x
            &&& 0 <= r.y < frame.height ==> y == r.y
            &&& r.x >= frame.width ==> x == frame.width - 1
            &&& r.y >= frame.height ==> y == frame.height - 1
            &&& x + r.width <= frame.width ==> w == r.width
            &&& x + r.width > frame.width ==> x + w == frame.width
            &&& y + r.height <= frame.height ==> h == r.height
            &&& y + r.height > frame.height ==> y + h == frame.height
        }),
{
}

/// A screenshot is magnified only where that is asked for and the view is.
pub proof fn screenshots_magnify_only_what_is_magnified(zoom: Number)
    ensures
        !magnifies(ScreenshotScale::Real, zoom),
        number::num(0x3FF0_0000_0000_0000).below(zoom) ==> magnifies(
            ScreenshotScale::Magnified,
            zoom,
        ),
        zoom.at_most(number::num(0x3FF0_0000_0000_0000)) ==> !magnifies(
            ScreenshotScale::Magnified,
            zoom,
        ),
{
}

/// A screenshot goes into the configured directory, below home where that begins
/// with a tilde, under the name that the pattern gives for the moment.
pub proof fn screenshots_go_where_configured(
    m: CaptureManager,
    t: ScreenshotTarget,
    home: Option<Seq<u8>>,
    now: Stamp,
)
    requires
        is_target(m, t, home, now),
    ensures
        m.path().len() > 0 && m.path()[0] == '~' ==> home is Some && t.directory@ == expanded(
            m.path(),
            home->0,
        ),
        m.path().len() == 0 || m.path()[0] != '~' ==> t.directory@ == encode_utf8(m.path()),
        !m.pattern().contains('%') && m.pattern().len() > 0 && m.pattern()[0] != '/'
            && t.directory@.len() > 0 && t.directory@.last() != 0x2f ==> t.file@ == t.directory@
            + seq![0x2fu8] + encode_utf8(m.pattern()),
{
    if !m.pattern().contains('%') {
        pattern_without_tokens_is_kept(m.pattern(), now);
        text::paths_join_at_one_separator(t.directory@, m.pattern());
    }
}

/// Each failure has its own message.
pub proof fn failures_say_what_is_missing()
    ensures
        CaptureError::NoFrame.spoken() == "No captured frame yet"@,
        CaptureError::NoHome.spoken() == "Cannot determine home directory"@,
        CaptureError::Encoding.spoken() == "Cannot encode the picture"@,
{
}

/// A size that no signed number holds counts as none, so that one pixel is left.
pub proof fn oversized_regions_are_one_pixel(frame: RgbaBuffer, r: ScreenshotRegion)
    requires
        1 <= frame.width,
        1 <= frame.height,
    ensures
        r.width > i32::MAX ==> cropped_area(frame, Some(r)).2 == 1,
        r.height > i32::MAX ==> cropped_area(frame, Some(r)).3 == 1,
{
}

} // verus!
