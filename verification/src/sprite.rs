//! Sprite sheets: the pet's animation frames, cut from PNG strips, and the
//! integer geometry of drawing them.
use vstd::prelude::*;
use tiny_skia::Pixmap;
use crate::types::PetState;

verus! {

#[verifier::external_type_specification]
#[verifier::external_body]
pub struct ExPixmap(tiny_skia::Pixmap);

/// The bytes a `tiny_skia::Pixmap` holds: four per pixel (premultiplied
/// RGBA), row after row.
pub uninterp spec fn pixmap_data(p: Pixmap) -> Seq<u8>;

/// The width, in pixels, that a `tiny_skia::Pixmap` was made with.
pub uninterp spec fn pixmap_width(p: Pixmap) -> u32;

/// What decoding the first frame of the PNG file `bytes` with the `png`
/// crate gives: the frame's bytes, its width and its height.
pub uninterp spec fn png_first_frame(bytes: Seq<u8>) -> Option<(Seq<u8>, u32, u32)>;

/// What encoding `data` as an 8-bit RGBA PNG of `width` by `height` pixels
/// with the `png` crate gives.
pub uninterp spec fn png_rgba_encoding(data: Seq<u8>, width: u32, height: u32) -> Option<Seq<u8>>;

/// Decodes the first frame of a PNG with the `png` crate (`Decoder::new`,
/// `read_info`, a buffer of `output_buffer_size` bytes, `next_frame`); the
/// contract names the outcome `png_first_frame(bytes@)`.
#[verifier::external_body]
fn decode_png(bytes: &[u8]) -> (r: Option<(Vec<u8>, u32, u32)>)
    ensures
        match png_first_frame(bytes@) {
            Some(f) => r matches Some(d) && d.0@ == f.0 && d.1 == f.1 && d.2 == f.2,
            None => r is None,
        },
{
    let decoder = png::Decoder::new(std::io::Cursor::new(bytes));
    let mut reader = match decoder.read_info() {
        Ok(reader) => reader,
        Err(_) => return None,
    };
    let mut buf = vec![0; reader.output_buffer_size()];
    match reader.next_frame(&mut buf) {
        Ok(info) => Some((buf, info.width, info.height)),
        Err(_) => None,
    }
}

/// Encodes `data` as an 8-bit RGBA PNG with the `png` crate (`Encoder::new`,
/// `set_color`, `set_depth`, `write_header`, `write_image_data`, `finish`);
/// the contract names the outcome `png_rgba_encoding(data@, width, height)`.
/// `write_image_data` multiplies the row length by the height in `usize`
/// before it compares the data's length, so the image's byte count must
/// fit.
#[verifier::external_body]
fn encode_png_rgba(data: &[u8], width: u32, height: u32) -> (r: Option<Vec<u8>>)
    requires
        4 * width * height <= usize::MAX,
    ensures
        match png_rgba_encoding(data@, width, height) {
            Some(e) => r matches Some(x) && x@ == e,
            None => r is None,
        },
{
    let mut out: Vec<u8> = Vec::new();
    let mut encoder = png::Encoder::new(&mut out, width, height);
    encoder.set_color(png::ColorType::Rgba);
    encoder.set_depth(png::BitDepth::Eight);
    let mut writer = match encoder.write_header() {
        Ok(writer) => writer,
        Err(_) => return None,
    };
    if writer.write_image_data(data).is_err() {
        return None;
    }
    match writer.finish() {
        Ok(()) => Some(out),
        Err(_) => None,
    }
}

/// `tiny_skia::Pixmap::from_vec` with the size `IntSize::from_wh(width,
/// height)`: its source accepts exactly a non-empty size whose rows fit in
/// an `i32` count of bytes and data of four bytes per pixel, and the pixmap
/// then holds that data at that width.
#[verifier::external_body]
fn pixmap_from_vec(data: Vec<u8>, width: u32, height: u32) -> (r: Option<Pixmap>)
    ensures
        r is Some <==> (0 < width <= 0x1fff_ffff && 0 < height && data@.len() == 4 * width
            * height),
        r matches Some(p) ==> pixmap_data(p) == data@ && pixmap_width(p) == width,
{
    match tiny_skia::IntSize::from_wh(width, height) {
        Some(size) => Pixmap::from_vec(data, size),
        None => None,
    }
}

/// `tiny_skia::Pixmap::width`: the width the pixmap was made with.
#[verifier::external_body]
fn pixmap_width_px(p: &Pixmap) -> (r: u32)
    ensures
        r == pixmap_width(*p),
{
    p.width()
}

/// The bytes of the columns `x .. x + w` of an image `width` pixels wide
/// and `h` rows high whose bytes are `data`.
pub open spec fn columns(data: Seq<u8>, width: int, x: int, w: int, h: int) -> Seq<u8> {
    Seq::new(
        (4 * w * h) as nat,
        |k: int| data[4 * (((k / 4) / w) * width + (k / 4) % w + x) + k % 4],
    )
}

/// The rows of pixels that `p` holds.
pub open spec fn pixmap_rows(p: Pixmap) -> int {
    pixmap_data(p).len() as int / (4 * pixmap_width(p) as int)
}

/// `x as i32`: the bits of `x` read as a two's-complement `i32`.
pub open spec fn as_i32(x: u32) -> int {
    if x <= i32::MAX {
        x as int
    } else {
        x - 0x1_0000_0000
    }
}

/// `tiny_skia::IntRect::from_xywh(xi, 0, w, h)` accepts the rectangle: it
/// is not empty and its right and bottom edges are `i32`s.
pub open spec fn rect_ok(xi: int, w: u32, h: u32) -> bool {
    0 < w <= i32::MAX && 0 < h <= i32::MAX && xi + w <= i32::MAX
}

/// The left edge of the part of a pixmap that a rectangle whose left edge
/// is `xi` covers.
pub open spec fn clip_left(xi: int) -> int {
    if xi > 0 {
        xi
    } else {
        0
    }
}

/// The right edge of the part of `p` that a rectangle from `xi`, `w` wide,
/// covers.
pub open spec fn clip_right(p: Pixmap, xi: int, w: u32) -> int {
    if xi + w < pixmap_width(p) {
        xi + w
    } else {
        pixmap_width(p) as int
    }
}

/// The rows of `p` that a rectangle from the top, `h` high, covers.
pub open spec fn clip_rows(p: Pixmap, h: u32) -> int {
    if h < pixmap_rows(p) {
        h as int
    } else {
        pixmap_rows(p)
    }
}

/// The rectangle `x as i32, 0, w, h` is one and covers part of `p`.
pub open spec fn covers_part(p: Pixmap, x: u32, w: u32, h: u32) -> bool {
    rect_ok(as_i32(x), w, h) && clip_right(p, as_i32(x), w) > clip_left(as_i32(x))
}

/// `tiny_skia::IntRect::from_xywh(x as i32, 0, w, h)` and
/// `Pixmap::clone_rect`: its source gives nothing for a rectangle that
/// `from_xywh` refuses or that misses the pixmap, and otherwise copies,
/// pixel by pixel, the part of the pixmap that the rectangle covers. The
/// source unwraps the pixmap's own rectangle, which needs its row count to
/// be an `i32`, and numbers the pixmap's pixels `y * width + x` in `u32`
/// over the rows it copies.
#[verifier::external_body]
fn pixmap_clone_rect(p: &Pixmap, x: u32, w: u32, h: u32) -> (r: Option<Pixmap>)
    requires
        pixmap_rows(*p) <= i32::MAX,
        covers_part(*p, x, w, h) ==> clip_rows(*p, h) * pixmap_width(*p) <= 0x1_0000_0000,
    ensures
        r is Some <==> covers_part(*p, x, w, h),
        r matches Some(q) ==> pixmap_width(q) == clip_right(*p, as_i32(x), w) - clip_left(
            as_i32(x),
        ) && pixmap_data(q) == columns(
            pixmap_data(*p),
            pixmap_width(*p) as int,
            clip_left(as_i32(x)),
            clip_right(*p, as_i32(x), w) - clip_left(as_i32(x)),
            clip_rows(*p, h),
        ),
{
    match tiny_skia::IntRect::from_xywh(x as i32, 0, w, h) {
        Some(rect) => p.clone_rect(rect),
        None => None,
    }
}

/// A horizontal strip of equally wide animation frames.
pub struct SpriteSheet {
    pub pixmap: Pixmap,
    pub frame_count: u32,
    pub frame_width: u32,
    pub frame_height: u32,
}

/// The PNG `bytes` decode to an RGBA frame that a pixmap can hold, to be cut
/// into `frame_count` frames.
pub open spec fn png_sheet_ok(bytes: Seq<u8>, frame_count: u32) -> bool {
    &&& frame_count > 0
    &&& png_first_frame(bytes) matches Some(f)
    &&& 0 < f.1 <= 0x1fff_ffff
    &&& 0 < f.2
    &&& f.0.len() == 4 * f.1 * f.2
}

/// A sheet decoded from the PNG `bytes` can give frames: the image is at
/// least as wide as it has frames, at most `i32::MAX` rows high, and has at
/// most `2^32` pixels.
pub open spec fn sheet_usable(bytes: Seq<u8>, frame_count: u32) -> bool {
    &&& png_first_frame(bytes).unwrap().1 >= frame_count
    &&& png_first_frame(bytes).unwrap().2 <= i32::MAX
    &&& png_first_frame(bytes).unwrap().1 * png_first_frame(bytes).unwrap().2 <= 0x1_0000_0000
}

impl SpriteSheet {
    /// The strip holds its frames: there is at least one frame, frames are
    /// not empty, they fit side by side within the image, they span its
    /// height, and its pixels can be numbered in a `u32`.
    pub open spec fn wf(&self) -> bool {
        &&& self.frame_count > 0
        &&& self.frame_width > 0
        &&& 0 < self.frame_height <= i32::MAX
        &&& self.frame_count * self.frame_width <= pixmap_width(self.pixmap)
        &&& pixmap_width(self.pixmap) <= 0x1fff_ffff
        &&& pixmap_data(self.pixmap).len() == 4 * pixmap_width(self.pixmap) * self.frame_height
        &&& pixmap_width(self.pixmap) * self.frame_height <= 0x1_0000_0000
    }

    /// The sheet decoded from `bytes`: the image, cut into `frame_count`
    /// frames as wide as the image allows.
    pub open spec fn decoded_from(&self, bytes: Seq<u8>, frame_count: u32) -> bool {
        let f = png_first_frame(bytes).unwrap();
        &&& pixmap_data(self.pixmap) == f.0
        &&& pixmap_width(self.pixmap) == f.1
        &&& self.frame_count == frame_count
        &&& self.frame_width == f.1 / frame_count
        &&& self.frame_height == f.2
    }

    /// The sheet in the PNG file `bytes`, cut into `frame_count` frames;
    /// nothing when the file does not decode to an RGBA image or there are
    /// no frames.
    pub fn try_from_png_bytes(bytes: &[u8], frame_count: u32) -> (r: Option<Self>)
        ensures
            r is Some <==> png_sheet_ok(bytes@, frame_count),
            r matches Some(s) ==> s.decoded_from(bytes@, frame_count),
            r matches Some(s) ==> (sheet_usable(bytes@, frame_count) <==> s.wf()),
    {
        if frame_count == 0 {
            return None;
        }
        match decode_png(bytes) {
            None => None,
            Some((buf, width, height)) => {
                if width == 0 || width > 0x1fff_ffff || height == 0 {
                    return None;
                }
                let row = 4 * width as u128;
                assert(row * height <= 0x8000_0000u128 * 0x1_0000_0000u128) by (nonlinear_arith)
                    requires
                        row <= 0x8000_0000u128,
                        height <= 0xffff_ffffu32,
                ;
                if buf.len() as u128 != row * height as u128 {
                    None
                } else {
                    Some(Self::from_png_bytes(bytes, frame_count))
                }
            },
        }
    }

    /// The sheet in the PNG file `bytes`, cut into `frame_count` frames.
    pub fn from_png_bytes(bytes: &[u8], frame_count: u32) -> (s: Self)
        requires
            png_sheet_ok(bytes@, frame_count),
        ensures
            s.decoded_from(bytes@, frame_count),
            sheet_usable(bytes@, frame_count) <==> s.wf(),
    {
        let (buf, width, height) = match decode_png(bytes) {
            Some(frame) => frame,
            None => vstd::pervasive::unreached(),
        };
        let pixmap = match pixmap_from_vec(buf, width, height) {
            Some(p) => p,
            None => vstd::pervasive::unreached(),
        };
        let frame_width = width / frame_count;
        proof {
            vstd::arithmetic::div_mod::lemma_fundamental_div_mod(width as int, frame_count as int);
            vstd::arithmetic::div_mod::lemma_mod_pos_bound(width as int, frame_count as int);
            if width >= frame_count {
                assert(frame_width > 0) by (nonlinear_arith)
                    requires
                        width == frame_count * frame_width + width % frame_count,
                        width % frame_count < frame_count,
                        width >= frame_count,
                        frame_width >= 0,
                ;
            } else {
                assert(frame_width == 0) by (nonlinear_arith)
                    requires
                        width == frame_count * frame_width + width % frame_count,
                        0 <= width % frame_count,
                        width < frame_count,
                        frame_width >= 0,
                ;
            }
            assert(frame_count * frame_width <= width) by (nonlinear_arith)
                requires
                    width == frame_count * frame_width + width % frame_count,
                    0 <= width % frame_count,
            ;
        }
        SpriteSheet { pixmap, frame_count, frame_width, frame_height: height }
    }

    /// Where frame `frame_idx` starts, in pixels from the left; the index
    /// wraps round the number of frames.
    pub open spec fn frame_x(&self, frame_idx: u32) -> int {
        (frame_idx % self.frame_count) * self.frame_width
    }

    /// Frame `frame_idx` can be cut from the strip: there are frames, the
    /// frame's left edge is a `u32`, its rectangle is one and covers part
    /// of the image, the image has at most `i32::MAX` rows, and the pixels
    /// of the rows copied can be numbered in a `u32`.
    pub open spec fn frame_ok(&self, frame_idx: u32) -> bool {
        &&& self.frame_count > 0
        &&& self.frame_x(frame_idx) <= u32::MAX
        &&& pixmap_rows(self.pixmap) <= i32::MAX
        &&& covers_part(self.pixmap, self.frame_x(frame_idx) as u32, self.frame_width, self.frame_height)
        &&& clip_rows(self.pixmap, self.frame_height) * pixmap_width(self.pixmap) <= 0x1_0000_0000
    }

    /// Frame `frame_idx` (wrapping round the number of frames) as an image
    /// of its own: the part of the strip that the frame's rectangle covers,
    /// which for a well-formed strip is the whole frame.
    pub fn get_frame(&self, frame_idx: u32) -> (r: Pixmap)
        requires
            self.frame_ok(frame_idx),
        ensures
            ({
                let xi = as_i32(self.frame_x(frame_idx) as u32);
                let left = clip_left(xi);
                let width = clip_right(self.pixmap, xi, self.frame_width) - left;
                &&& pixmap_width(r) == width
                &&& pixmap_data(r) == columns(
                    pixmap_data(self.pixmap),
                    pixmap_width(self.pixmap) as int,
                    left,
                    width,
                    clip_rows(self.pixmap, self.frame_height),
                )
            }),
            self.wf() ==> pixmap_width(r) == self.frame_width && pixmap_data(r) == columns(
                pixmap_data(self.pixmap),
                pixmap_width(self.pixmap) as int,
                self.frame_x(frame_idx),
                self.frame_width as int,
                self.frame_height as int,
            ),
    {
        let idx = frame_idx % self.frame_count;
        let x = idx * self.frame_width;
        proof {
            if self.wf() {
                lemma_well_formed_frame(*self, frame_idx);
            }
        }
        match pixmap_clone_rect(&self.pixmap, x, self.frame_width, self.frame_height) {
            Some(frame) => frame,
            None => vstd::pervasive::unreached(),
        }
    }
}

/// Every frame of a well-formed strip can be cut, and its rectangle lies
/// within the image: the frame is whole.
pub proof fn lemma_well_formed_frame(s: SpriteSheet, frame_idx: u32)
    requires
        s.wf(),
    ensures
        s.frame_ok(frame_idx),
        as_i32(s.frame_x(frame_idx) as u32) == s.frame_x(frame_idx),
        clip_left(s.frame_x(frame_idx)) == s.frame_x(frame_idx),
        clip_right(s.pixmap, s.frame_x(frame_idx), s.frame_width) == s.frame_x(frame_idx)
            + s.frame_width,
        clip_rows(s.pixmap, s.frame_height) == s.frame_height,
{
    let idx = frame_idx % s.frame_count;
    let w = pixmap_width(s.pixmap);
    assert(idx * s.frame_width + s.frame_width <= s.frame_count * s.frame_width) by (nonlinear_arith)
        requires
            idx < s.frame_count,
    ;
    assert(pixmap_data(s.pixmap).len() as int / (4 * w as int) == s.frame_height as int) by {
        vstd::arithmetic::div_mod::lemma_div_by_multiple(s.frame_height as int, 4 * w as int);
        assert(4 * w * s.frame_height == s.frame_height * (4 * w)) by (nonlinear_arith);
    }
    let x = s.frame_x(frame_idx);
    assert(x == idx * s.frame_width);
    assert(0 <= x);
    assert(x + s.frame_width <= w);
    assert(x as u32 == x);
    assert(as_i32(x as u32) == x);
    assert(clip_rows(s.pixmap, s.frame_height) == s.frame_height);
    assert(covers_part(s.pixmap, x as u32, s.frame_width, s.frame_height));
}

/// How many frames the animation of `state` has.
pub open spec fn frames_of(state: PetState) -> u32 {
    match state {
        PetState::Walking | PetState::Celebrating => 6,
        _ => 4,
    }
}

/// How many frames the animation of `state` has.
pub fn frame_count_for(state: PetState) -> (r: u32)
    ensures
        r == frames_of(state),
{
    match state {
        PetState::Walking | PetState::Celebrating => 6,
        _ => 4,
    }
}

/// Which animation frame to show at render tick `frame_tick`: a new frame
/// every ten ticks (the count is truncated to 32 bits).
pub fn frame_index(frame_tick: u64) -> (r: u32)
    ensures
        r == (frame_tick / 10) % 0x1_0000_0000,
{
    ((frame_tick / 10) % 0x1_0000_0000) as u32
}

/// The width in pixels of the speech bubble for a text of `text_len` bytes:
/// seven pixels a byte and twelve of margin, but at least 40 and at most
/// 200.
pub open spec fn bubble_width_of(text_len: int) -> int {
    let w = 7 * text_len + 12;
    if w < 40 {
        40
    } else if w > 200 {
        200
    } else {
        w
    }
}

/// The width in pixels of the speech bubble for a text of `text_len` bytes.
pub fn bubble_width(text_len: usize) -> (r: u32)
    ensures
        r == bubble_width_of(text_len as int),
{
    if text_len >= 27 {
        200
    } else if text_len <= 3 {
        40
    } else {
        (7 * text_len + 12) as u32
    }
}

/// Whether the pixel at `row`, `col` of the 4 by 6 glyph cell of a
/// character whose code ends in the byte `code` is inked.
pub open spec fn glyph_ink(code: u8, row: u8, col: u8) -> bool {
    (code + row + col) % 3 != 2
}

/// Whether the pixel at `row`, `col` of the glyph cell of a character whose
/// code ends in the byte `code` is inked; the sum of the three is a byte.
pub fn glyph_pixel_active(code: u8, row: u8, col: u8) -> (r: bool)
    requires
        code + row + col <= 255,
    ensures
        r == glyph_ink(code, row, col),
{
    (code + row + col) % 3 != 2
}

/// The pixels of a generated sprite strip: a two-pixel black border round a
/// field of `color`, row after row, four bytes (RGBA) per pixel.
pub open spec fn strip_pixels(width: int, height: int, color: (u8, u8, u8, u8)) -> Seq<u8> {
    Seq::new(
        (4 * width * height) as nat,
        |k: int|
            {
                let p = k / 4;
                let x = p % width;
                let y = p / width;
                let c = k % 4;
                if x < 2 || x >= width - 2 || y < 2 || y >= height - 2 {
                    if c == 3 {
                        255u8
                    } else {
                        0u8
                    }
                } else if c == 0 {
                    color.0
                } else if c == 1 {
                    color.1
                } else if c == 2 {
                    color.2
                } else {
                    color.3
                }
            },
    )
}

/// The pixels of a generated sprite strip of `width` by `height` pixels.
pub fn sprite_strip_pixels(width: u32, height: u32, color: (u8, u8, u8, u8)) -> (r: Vec<u8>)
    requires
        4 * width * height <= usize::MAX,
    ensures
        r@ == strip_pixels(width as int, height as int, color),
{
    let ghost strip = strip_pixels(width as int, height as int, color);
    let mut data: Vec<u8> = Vec::new();
    let mut y: u32 = 0;
    while y < height
        invariant
            4 * width * height <= usize::MAX,
            strip == strip_pixels(width as int, height as int, color),
            y <= height,
            data@.len() == 4 * (width * y),
            data@ =~= strip.take(data@.len() as int),
        decreases height - y,
    {
        let mut x: u32 = 0;
        while x < width
            invariant
                4 * width * height <= usize::MAX,
                strip == strip_pixels(width as int, height as int, color),
                y < height,
                x <= width,
                data@.len() == 4 * (width * y + x),
                data@ =~= strip.take(data@.len() as int),
            decreases width - x,
        {
            let border = x < 2 || x >= width - 2 || y < 2 || y >= height - 2;
            let (r, g, b, a) = if border {
                (0u8, 0u8, 0u8, 255u8)
            } else {
                color
            };
            let ghost base = data@.len() as int;
            proof {
                let p = width * y + x;
                assert(4 * p + 4 <= 4 * width * height) by (nonlinear_arith)
                    requires
                        x < width,
                        y < height,
                        p == width * y + x,
                ;
                assert(p == y * width + x) by (nonlinear_arith)
                    requires
                        p == width * y + x,
                ;
                vstd::arithmetic::div_mod::lemma_fundamental_div_mod_converse(
                    p as int,
                    width as int,
                    y as int,
                    x as int,
                );
                vstd::arithmetic::div_mod::lemma_fundamental_div_mod_converse(base, 4, p as int, 0);
                vstd::arithmetic::div_mod::lemma_fundamental_div_mod_converse(base + 1, 4, p as int, 1);
                vstd::arithmetic::div_mod::lemma_fundamental_div_mod_converse(base + 2, 4, p as int, 2);
                vstd::arithmetic::div_mod::lemma_fundamental_div_mod_converse(base + 3, 4, p as int, 3);
            }
            data.push(r);
            data.push(g);
            data.push(b);
            data.push(a);
            assert(data@ =~= strip.take(data@.len() as int));
            x = x + 1;
        }
        proof {
            assert(width * y + width == width * (y + 1)) by (nonlinear_arith);
        }
        y = y + 1;
    }
    proof {
        assert(data@.len() == 4 * width * height) by (nonlinear_arith)
            requires
                data@.len() == 4 * (width * y),
                y == height,
        ;
    }
    data
}

/// A generated sprite strip of `width` by `height` pixels, encoded as a
/// PNG file: what `png_rgba_encoding` gives for its pixels.
pub fn create_sprite_sheet(width: u32, height: u32, color: (u8, u8, u8, u8)) -> (r: Option<Vec<u8>>)
    requires
        width >= 1,
        height >= 1,
        4 * width * height <= usize::MAX,
    ensures
        match png_rgba_encoding(strip_pixels(width as int, height as int, color), width, height) {
            Some(e) => r matches Some(x) && x@ == e,
            None => r is None,
        },
{
    let pixels = sprite_strip_pixels(width, height, color);
    encode_png_rgba(pixels.as_slice(), width, height)
}

/// The colour of the generated sprite strip of each state.
pub open spec fn strip_color_of(state: PetState) -> (u8, u8, u8, u8) {
    match state {
        PetState::Idle => (100, 200, 100, 255),
        PetState::Walking => (100, 100, 200, 255),
        PetState::Working => (200, 200, 100, 255),
        PetState::Sleeping => (150, 150, 150, 255),
        PetState::Distressed => (200, 100, 100, 255),
        PetState::Celebrating => (200, 100, 200, 255),
    }
}

/// The colour of the generated sprite strip of `state`.
pub fn strip_color(state: PetState) -> (r: (u8, u8, u8, u8))
    ensures
        r == strip_color_of(state),
{
    match state {
        PetState::Idle => (100, 200, 100, 255),
        PetState::Walking => (100, 100, 200, 255),
        PetState::Working => (200, 200, 100, 255),
        PetState::Sleeping => (150, 150, 150, 255),
        PetState::Distressed => (200, 100, 100, 255),
        PetState::Celebrating => (200, 100, 200, 255),
    }
}

/// The position of `state` in the animator's list of sheets.
pub open spec fn slot_of(state: PetState) -> int {
    match state {
        PetState::Idle => 0,
        PetState::Walking => 1,
        PetState::Working => 2,
        PetState::Sleeping => 3,
        PetState::Distressed => 4,
        PetState::Celebrating => 5,
    }
}

/// The state whose sheet sits at position `i`.
pub open spec fn state_at(i: int) -> PetState {
    if i == 0 {
        PetState::Idle
    } else if i == 1 {
        PetState::Walking
    } else if i == 2 {
        PetState::Working
    } else if i == 3 {
        PetState::Sleeping
    } else if i == 4 {
        PetState::Distressed
    } else {
        PetState::Celebrating
    }
}

fn slot(state: PetState) -> (r: usize)
    ensures
        r == slot_of(state),
        state_at(r as int) == state,
{
    match state {
        PetState::Idle => 0,
        PetState::Walking => 1,
        PetState::Working => 2,
        PetState::Sleeping => 3,
        PetState::Distressed => 4,
        PetState::Celebrating => 5,
    }
}

/// The PNG file `bytes` makes a usable sheet for `state`: it decodes, and is
/// at least as wide as the state's animation has frames.
pub open spec fn asset_ok(bytes: Seq<u8>, state: PetState) -> bool {
    &&& png_sheet_ok(bytes, frames_of(state))
    &&& sheet_usable(bytes, frames_of(state))
}

/// Holds a sprite sheet for every state.
pub struct SpriteAnimator {
    sheets: Vec<SpriteSheet>,
}

impl View for SpriteAnimator {
    /// The sheets, in the order of `slot_of`.
    type V = Seq<SpriteSheet>;

    closed spec fn view(&self) -> Seq<SpriteSheet> {
        self.sheets@
    }
}

impl SpriteAnimator {
    #[verifier::type_invariant]
    spec fn holds_every_state(self) -> bool {
        &&& self.sheets@.len() == 6
        &&& forall|i: int|
            0 <= i < 6 ==> (#[trigger] self.sheets@[i]).wf() && self.sheets@[i].frame_count
                == frames_of(state_at(i))
    }

    /// An animator whose sheets come from the PNG files `assets`, given in
    /// the order idle, walking, working, sleeping, distressed, celebrating;
    /// each is cut into as many frames as that state's animation has.
    /// Gives nothing unless there are six files that all make usable sheets.
    pub fn new(assets: &Vec<Vec<u8>>) -> (r: Option<Self>)
        ensures
            r is Some <==> (assets@.len() == 6 && forall|i: int|
                0 <= i < 6 ==> asset_ok(#[trigger] assets@[i]@, state_at(i))),
            r matches Some(a) ==> forall|i: int|
                0 <= i < 6 ==> (#[trigger] a@[i]).decoded_from(
                    assets@[i]@,
                    frames_of(state_at(i)),
                ),
    {
        if assets.len() != 6 {
            return None;
        }
        let mut sheets: Vec<SpriteSheet> = Vec::new();
        let mut i: usize = 0;
        while i < 6
            invariant
                assets@.len() == 6,
                i <= 6,
                sheets@.len() == i,
                forall|j: int| 0 <= j < i ==> asset_ok(#[trigger] assets@[j]@, state_at(j)),
                forall|j: int|
                    0 <= j < i ==> (#[trigger] sheets@[j]).wf() && sheets@[j].frame_count
                        == frames_of(state_at(j)) && sheets@[j].decoded_from(
                        assets@[j]@,
                        frames_of(state_at(j)),
                    ),
            decreases 6 - i,
        {
            let state = if i == 0 {
                PetState::Idle
            } else if i == 1 {
                PetState::Walking
            } else if i == 2 {
                PetState::Working
            } else if i == 3 {
                PetState::Sleeping
            } else if i == 4 {
                PetState::Distressed
            } else {
                PetState::Celebrating
            };
            assert(state == state_at(i as int));
            let count = frame_count_for(state);
            let sheet = match SpriteSheet::try_from_png_bytes(assets[i].as_slice(), count) {
                Some(sheet) => sheet,
                None => return None,
            };
            let width = pixmap_width_px(&sheet.pixmap) as u64;
            assert(width * sheet.frame_height <= 0xffff_ffff * 0xffff_ffff) by (nonlinear_arith)
                requires
                    width <= 0xffff_ffff,
                    sheet.frame_height <= 0xffff_ffff,
            ;
            if sheet.frame_width == 0 || sheet.frame_height > 0x7fff_ffff || width
                * sheet.frame_height as u64 > 0x1_0000_0000 {
                proof {
                    if sheet_usable(assets@[i as int]@, count) {
                        assert(sheet.wf());
                    }
                }
                return None;
            }
            proof {
                let w = png_first_frame(assets@[i as int]@).unwrap().1;
                if w < count {
                    vstd::arithmetic::div_mod::lemma_basic_div(w as int, count as int);
                }
                assert(asset_ok(assets@[i as int]@, state_at(i as int)));
            }
            let ghost before = sheets@;
            sheets.push(sheet);
            assert(forall|j: int| 0 <= j < i ==> sheets@[j] == before[j]);
            i = i + 1;
        }
        Some(SpriteAnimator { sheets })
    }

    /// The sheet of `state`.
    pub fn sheet(&self, state: PetState) -> (r: &SpriteSheet)
        ensures
            *r == self@[slot_of(state)],
            r.wf(),
            r.frame_count == frames_of(state),
    {
        proof {
            use_type_invariant(self);
        }
        let k = slot(state);
        &self.sheets[k]
    }
}

} // verus!
