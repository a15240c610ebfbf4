//! The framebuffer: a color buffer and a parallel depth buffer, row-major,
//! with depth-tested point writes.
//!
//! Contracts speak of `FbView`, the mathematical view of a framebuffer:
//! its sizes, both buffers as sequences, and the two pieces of draw state
//! (current color, background color) that drawing calls consume.

use vstd::prelude::*;
use font8x8::UnicodeFonts;

verus! {

/// The depth every pixel is reset to by `clear`: farther than every depth
/// a draw can submit, the model's positive infinity.
pub const DEPTH_FAR: i64 = i64::MAX;

/// The mathematical view of a framebuffer.
#[verifier::ext_equal]
pub ghost struct FbView {
    pub width: int,
    pub height: int,
    pub colors: Seq<u32>,
    pub depths: Seq<i64>,
    pub background: u32,
    pub current: u32,
}

/// Both buffers cover exactly width * height pixels.
pub open spec fn fb_wf(v: FbView) -> bool {
    &&& v.colors.len() == v.width * v.height
    &&& v.depths.len() == v.width * v.height
    &&& v.width >= 0
    &&& v.height >= 0
}

/// The view after a depth-tested point write: out-of-range coordinates are
/// dropped, and only a strictly nearer depth overwrites the pixel's color
/// and depth (ties keep the earlier write).
pub open spec fn point_s(v: FbView, x: int, y: int, depth: i64) -> FbView {
    let i = y * v.width + x;
    if 0 <= x < v.width && 0 <= y < v.height && depth < v.depths[i] {
        FbView { colors: v.colors.update(i, v.current), depths: v.depths.update(i, depth), ..v }
    } else {
        v
    }
}

/// The view after a clear: every color is the background, every depth is
/// `DEPTH_FAR`.
pub open spec fn clear_s(v: FbView) -> FbView {
    FbView {
        colors: Seq::new(v.colors.len(), |i: int| v.background),
        depths: Seq::new(v.depths.len(), |i: int| DEPTH_FAR),
        ..v
    }
}

/// The view with another current draw color.
pub open spec fn with_current_s(v: FbView, color: u32) -> FbView {
    FbView { current: color, ..v }
}

pub struct Framebuffer {
    pub width: usize,
    pub height: usize,
    pub buffer: Vec<u32>,
    pub zbuffer: Vec<i64>,
    pub background_color: u32,
    pub current_color: u32,
}

impl View for Framebuffer {
    type V = FbView;

    open spec fn view(&self) -> FbView {
        FbView {
            width: self.width as int,
            height: self.height as int,
            colors: self.buffer@,
            depths: self.zbuffer@,
            background: self.background_color,
            current: self.current_color,
        }
    }
}

impl Framebuffer {
    /// A framebuffer of the given size: all pixels black, all depths far,
    /// background black, current draw color white.
    pub fn new(width: usize, height: usize) -> (fb: Framebuffer)
        requires
            width * height <= usize::MAX,
        ensures
            fb_wf(fb@),
            fb@.width == width,
            fb@.height == height,
            fb@.colors == Seq::new((width * height) as nat, |i: int| 0u32),
            fb@.depths == Seq::new((width * height) as nat, |i: int| DEPTH_FAR),
            fb@.background == 0u32,
            fb@.current == 0xFFFFFFu32,
    {
        let n = width * height;
        let mut buffer: Vec<u32> = Vec::new();
        let mut zbuffer: Vec<i64> = Vec::new();
        let mut i: usize = 0;
        while i < n
            invariant
                i <= n,
                buffer@.len() == i,
                zbuffer@.len() == i,
                forall|j: int| 0 <= j < i ==> buffer@[j] == 0u32,
                forall|j: int| 0 <= j < i ==> zbuffer@[j] == DEPTH_FAR,
            decreases n - i,
        {
            buffer.push(0);
            zbuffer.push(DEPTH_FAR);
            i += 1;
        }
        let fb = Framebuffer {
            width,
            height,
            buffer,
            zbuffer,
            background_color: 0x000000,
            current_color: 0xFFFFFF,
        };
        proof {
            assert(fb@.colors =~= Seq::new((width * height) as nat, |i: int| 0u32));
            assert(fb@.depths =~= Seq::new((width * height) as nat, |i: int| DEPTH_FAR));
        }
        fb
    }

    /// Reset every pixel to the background color and every depth to
    /// `DEPTH_FAR`, with nothing else changed.
    pub fn clear(&mut self)
        requires
            fb_wf(old(self)@),
        ensures
            final(self)@ == clear_s(old(self)@),
            fb_wf(final(self)@),
    {
        let n = self.buffer.len();
        let mut i: usize = 0;
        while i < n
            invariant
                i <= n,
                n == self.buffer@.len(),
                self.width == old(self).width,
                self.height == old(self).height,
                self.zbuffer@ == old(self).zbuffer@,
                self.background_color == old(self).background_color,
                self.current_color == old(self).current_color,
                forall|j: int| 0 <= j < i ==> self.buffer@[j] == self.background_color,
                forall|j: int| i <= j < n ==> self.buffer@[j] == old(self).buffer@[j],
            decreases n - i,
        {
            let c = self.background_color;
            self.buffer.set(i, c);
            i += 1;
        }
        let m = self.zbuffer.len();
        let mut k: usize = 0;
        while k < m
            invariant
                k <= m,
                m == self.zbuffer@.len(),
                self.width == old(self).width,
                self.height == old(self).height,
                self.buffer@.len() == old(self).buffer@.len(),
                self.background_color == old(self).background_color,
                self.current_color == old(self).current_color,
                forall|j: int| 0 <= j < self.buffer@.len() ==> self.buffer@[j]
                    == self.background_color,
                forall|j: int| 0 <= j < k ==> self.zbuffer@[j] == DEPTH_FAR,
            decreases m - k,
        {
            self.zbuffer.set(k, DEPTH_FAR);
            k += 1;
        }
        proof {
            assert(self@.colors =~= clear_s(old(self)@).colors);
            assert(self@.depths =~= clear_s(old(self)@).depths);
            assert(self@ =~= clear_s(old(self)@));
        }
    }

    /// Depth-tested pixel write: inside the buffer, the current draw color
    /// and the given depth replace the pixel exactly when the new depth is
    /// strictly nearer than the stored one.
    pub fn point(&mut self, x: usize, y: usize, depth: i64)
        requires
            fb_wf(old(self)@),
        ensures
            final(self)@ == point_s(old(self)@, x as int, y as int, depth),
            fb_wf(final(self)@),
    {
        if x < self.width && y < self.height {
            let n = self.buffer.len();  // the length bounds the pixel index
            proof {
                lemma_index_in_bounds(self@, x as int, y as int);
            }
            let index = y * self.width + x;
            if self.zbuffer[index] > depth {
                let c = self.current_color;
                self.buffer.set(index, c);
                self.zbuffer.set(index, depth);
            }
        }
        proof {
            assert(self@ =~= point_s(old(self)@, x as int, y as int, depth));
        }
    }

    pub fn set_background_color(&mut self, color: u32)
        ensures
            final(self)@ == (FbView { background: color, ..old(self)@ }),
    {
        self.background_color = color;
    }

    pub fn set_current_color(&mut self, color: u32)
        ensures
            final(self)@ == with_current_s(old(self)@, color),
    {
        self.current_color = color;
    }
}

/// Largest pixel coordinate the drawing utilities accept: 2^40.
pub const DRAW_COORD_LIM: usize = 0x4000_0000;

/// Largest text scale the drawing utilities accept: 2^20.
pub const DRAW_SCALE_LIM: usize = 0x10_0000;

/// The view after one unconditional color write: out-of-range coordinates
/// are dropped; the depth buffer is never touched.
pub open spec fn paint_s(v: FbView, x: int, y: int, color: u32) -> FbView {
    if 0 <= x < v.width && 0 <= y < v.height {
        FbView { colors: v.colors.update(y * v.width + x, color), ..v }
    } else {
        v
    }
}

/// What the basic 8x8 font table holds for a character: eight row
/// bitmaps, bit c of row r set when the glyph covers column c of row r.
pub uninterp spec fn glyph_of(c: char) -> Option<Seq<u8>>;

/// Relies on font8x8's `BASIC_FONTS.get` (`UnicodeFonts::get`): a binary
/// search in a constant table, so the glyph is a pure function of the
/// character; eight row bitmaps when the character is in the table.
#[verifier::external_body]
fn glyph(c: char) -> (r: Option<[u8; 8]>)
    ensures
        match r {
            Some(g) => glyph_of(c) == Some(g@) && g@.len() == 8,
            None => glyph_of(c) is None,
        },
{
    font8x8::BASIC_FONTS.get(c)
}

/// The view after the syi-th and later vertical replications of one glyph
/// bit.
pub open spec fn char_sy_s(
    v: FbView,
    x: int,
    y: int,
    scale: int,
    color: u32,
    row: int,
    col: int,
    sxi: int,
    syi: int,
) -> FbView
    decreases scale - syi,
{
    if syi >= scale {
        v
    } else {
        char_sy_s(
            paint_s(v, x + col * scale - sxi, y + row * scale + syi, color),
            x,
            y,
            scale,
            color,
            row,
            col,
            sxi,
            syi + 1,
        )
    }
}

/// The view after the sxi-th and later horizontal replications of one
/// glyph bit.
pub open spec fn char_sx_s(
    v: FbView,
    x: int,
    y: int,
    scale: int,
    color: u32,
    row: int,
    col: int,
    sxi: int,
) -> FbView
    decreases scale - sxi,
{
    if sxi >= scale {
        v
    } else {
        char_sx_s(char_sy_s(v, x, y, scale, color, row, col, sxi, 0), x, y, scale, color, row, col, sxi + 1)
    }
}

/// The view after the col-th and later columns of one glyph row: a set
/// bit paints a scale-by-scale block.
pub open spec fn char_col_s(
    v: FbView,
    g: Seq<u8>,
    x: int,
    y: int,
    scale: int,
    color: u32,
    row: int,
    col: int,
) -> FbView
    decreases 8 - col,
{
    if col >= 8 {
        v
    } else {
        let v1 = if (g[row] >> (col as u8)) & 1u8 == 1u8 {
            char_sx_s(v, x, y, scale, color, row, col, 0)
        } else {
            v
        };
        char_col_s(v1, g, x, y, scale, color, row, col + 1)
    }
}

/// The view after the row-th and later rows of one glyph.
pub open spec fn char_row_s(
    v: FbView,
    g: Seq<u8>,
    x: int,
    y: int,
    scale: int,
    color: u32,
    row: int,
) -> FbView
    decreases 8 - row,
{
    if row >= 8 {
        v
    } else {
        char_row_s(char_col_s(v, g, x, y, scale, color, row, 0), g, x, y, scale, color, row + 1)
    }
}

/// The view after one character is drawn: nothing for a character outside
/// the font table.
pub open spec fn draw_char_s(v: FbView, x: int, y: int, c: char, color: u32, scale: int) -> FbView {
    if glyph_of(c) is Some {
        char_row_s(v, glyph_of(c).unwrap(), x, y, scale, color, 0)
    } else {
        v
    }
}

/// The view after the i-th and later characters of a text are drawn, each
/// eight scaled columns after the one before.
pub open spec fn text_run_s(
    v: FbView,
    x: int,
    y: int,
    text: Seq<char>,
    color: u32,
    scale: int,
    i: int,
) -> FbView
    decreases text.len() - i,
{
    if i < 0 || i >= text.len() {
        v
    } else {
        text_run_s(
            draw_char_s(v, x + i * 8 * scale, y, text[i], color, scale),
            x,
            y,
            text,
            color,
            scale,
            i + 1,
        )
    }
}

/// One Bresenham state advanced to the end of the line (or until the fuel
/// runs out, which a caller's fuel choice rules out).
pub open spec fn line_run_s(
    v: FbView,
    x0: int,
    y0: int,
    x1: int,
    y1: int,
    sx: int,
    sy: int,
    dx: int,
    dy: int,
    err: int,
    color: u32,
    fuel: nat,
) -> FbView
    decreases fuel,
{
    if fuel == 0 {
        v
    } else if x0 == x1 && y0 == y1 {
        v
    } else {
        let v1 = paint_s(v, x0, y0, color);
        let e2 = 2 * err;
        if e2 >= dy && x0 == x1 {
            v1
        } else {
            let err1 = if e2 >= dy {
                err + dy
            } else {
                err
            };
            let x0a = if e2 >= dy {
                x0 + sx
            } else {
                x0
            };
            if e2 <= dx && y0 == y1 {
                v1
            } else {
                let err2 = if e2 <= dx {
                    err1 + dx
                } else {
                    err1
                };
                let y0a = if e2 <= dx {
                    y0 + sy
                } else {
                    y0
                };
                line_run_s(v1, x0a, y0a, x1, y1, sx, sy, dx, dy, err2, color, (fuel - 1) as nat)
            }
        }
    }
}

pub open spec fn iabs_s(v: int) -> int {
    if v >= 0 {
        v
    } else {
        -v
    }
}

/// The view after a Bresenham line from (x0, y0) to (x1, y1): every
/// visited in-range pixel takes the color; depths and draw state are
/// untouched.
pub open spec fn line_s(v: FbView, x0: int, y0: int, x1: int, y1: int, color: u32) -> FbView {
    let dx = iabs_s(x1 - x0);
    let dy = -iabs_s(y1 - y0);
    let sx: int = if x0 < x1 {
        1
    } else {
        -1
    };
    let sy: int = if y0 < y1 {
        1
    } else {
        -1
    };
    line_run_s(v, x0, y0, x1, y1, sx, sy, dx, dy, dx + dy, color, (dx - dy + 1) as nat)
}

/// The view after the eight symmetric points of one circle step.
pub open spec fn plot8_s(v: FbView, cx: int, cy: int, x: int, y: int, color: u32) -> FbView {
    let v1 = paint_s(v, cx + x, cy + y, color);
    let v2 = paint_s(v1, cx - x, cy + y, color);
    let v3 = paint_s(v2, cx + x, cy - y, color);
    let v4 = paint_s(v3, cx - x, cy - y, color);
    let v5 = paint_s(v4, cx + y, cy + x, color);
    let v6 = paint_s(v5, cx - y, cy + x, color);
    let v7 = paint_s(v6, cx + y, cy - x, color);
    paint_s(v7, cx - y, cy - x, color)
}

/// One midpoint-circle state advanced to completion.
pub open spec fn circle_run_s(
    v: FbView,
    cx: int,
    cy: int,
    x: int,
    y: int,
    err: int,
    color: u32,
) -> FbView
    decreases x + 2 - y,
{
    if x < y {
        v
    } else {
        let v1 = plot8_s(v, cx, cy, x, y, color);
        let y1 = y + 1;
        let err1 = err + 1 + 2 * y1;
        if 2 * (err1 - x) + 1 > 0 {
            circle_run_s(v1, cx, cy, x - 1, y1, err1 + 1 - 2 * (x - 1), color)
        } else {
            circle_run_s(v1, cx, cy, x, y1, err1, color)
        }
    }
}

/// The view after a midpoint circle around (cx, cy).
pub open spec fn circle_s(v: FbView, cx: int, cy: int, radius: int, color: u32) -> FbView {
    circle_run_s(v, cx, cy, radius, 0, 0, color)
}

impl Framebuffer {
    /// Write one pixel unconditionally, bounds-checked, without touching
    /// the depth buffer.
    fn paint(&mut self, px: i64, py: i64, color: u32)
        requires
            fb_wf(old(self)@),
        ensures
            final(self)@ == paint_s(old(self)@, px as int, py as int, color),
            fb_wf(final(self)@),
    {
        if px >= 0 && py >= 0 {
            let xu = px as u64;
            let yu = py as u64;
            if xu < self.width as u64 && yu < self.height as u64 {
                let x = xu as usize;
                let y = yu as usize;
                let n = self.buffer.len();  // the length bounds the pixel index
                proof {
                    lemma_index_in_bounds(self@, x as int, y as int);
                }
                let index = y * self.width + x;
                self.buffer.set(index, color);
            }
        }
        proof {
            assert(self@ =~= paint_s(old(self)@, px as int, py as int, color));
        }
    }

    fn char_sy(&mut self, x: i64, y: i64, scale: i64, color: u32, row: i64, col: i64, sxi: i64, syi: i64)
        requires
            fb_wf(old(self)@),
            0 <= x <= DRAW_COORD_LIM,
            0 <= y <= DRAW_COORD_LIM,
            0 <= scale <= DRAW_SCALE_LIM,
            0 <= row < 8,
            0 <= col < 8,
            0 <= sxi <= scale,
            0 <= syi <= scale,
        ensures
            final(self)@ == char_sy_s(old(self)@, x as int, y as int, scale as int, color, row as int, col as int, sxi as int, syi as int),
            fb_wf(final(self)@),
        decreases scale - syi,
    {
        if syi < scale {
            proof {
                assert(0 <= col * scale <= 8 * 0x10_0000 && 0 <= row * scale <= 8 * 0x10_0000)
                    by (nonlinear_arith)
                    requires
                        0 <= col < 8,
                        0 <= row < 8,
                        0 <= scale <= 0x10_0000;
            }
            self.paint(x + col * scale - sxi, y + row * scale + syi, color);
            self.char_sy(x, y, scale, color, row, col, sxi, syi + 1);
        }
    }

    fn char_sx(&mut self, x: i64, y: i64, scale: i64, color: u32, row: i64, col: i64, sxi: i64)
        requires
            fb_wf(old(self)@),
            0 <= x <= DRAW_COORD_LIM,
            0 <= y <= DRAW_COORD_LIM,
            0 <= scale <= DRAW_SCALE_LIM,
            0 <= row < 8,
            0 <= col < 8,
            0 <= sxi <= scale,
        ensures
            final(self)@ == char_sx_s(old(self)@, x as int, y as int, scale as int, color, row as int, col as int, sxi as int),
            fb_wf(final(self)@),
        decreases scale - sxi,
    {
        if sxi < scale {
            self.char_sy(x, y, scale, color, row, col, sxi, 0);
            self.char_sx(x, y, scale, color, row, col, sxi + 1);
        }
    }

    fn char_cols(&mut self, g: &[u8; 8], x: i64, y: i64, scale: i64, color: u32, row: i64, col: i64)
        requires
            fb_wf(old(self)@),
            0 <= x <= DRAW_COORD_LIM,
            0 <= y <= DRAW_COORD_LIM,
            0 <= scale <= DRAW_SCALE_LIM,
            0 <= row < 8,
            0 <= col <= 8,
        ensures
            final(self)@ == char_col_s(old(self)@, g@, x as int, y as int, scale as int, color, row as int, col as int),
            fb_wf(final(self)@),
        decreases 8 - col,
    {
        if col < 8 {
            let gb: u8 = g[row as usize];
            if (gb >> (col as u8)) & 1u8 == 1u8 {
                self.char_sx(x, y, scale, color, row, col, 0);
            }
            self.char_cols(g, x, y, scale, color, row, col + 1);
        }
    }

    fn char_rows(&mut self, g: &[u8; 8], x: i64, y: i64, scale: i64, color: u32, row: i64)
        requires
            fb_wf(old(self)@),
            0 <= x <= DRAW_COORD_LIM,
            0 <= y <= DRAW_COORD_LIM,
            0 <= scale <= DRAW_SCALE_LIM,
            0 <= row <= 8,
        ensures
            final(self)@ == char_row_s(old(self)@, g@, x as int, y as int, scale as int, color, row as int),
            fb_wf(final(self)@),
        decreases 8 - row,
    {
        if row < 8 {
            self.char_cols(g, x, y, scale, color, row, 0);
            self.char_rows(g, x, y, scale, color, row + 1);
        }
    }

    /// Draw one character of the basic 8x8 font at (x, y), each glyph
    /// pixel as a scale-by-scale block; characters outside the font table
    /// draw nothing. Only the color buffer changes.
    pub fn draw_char(&mut self, x: usize, y: usize, c: char, color: u32, scale: usize)
        requires
            fb_wf(old(self)@),
            x <= DRAW_COORD_LIM,
            y <= DRAW_COORD_LIM,
            scale <= DRAW_SCALE_LIM,
        ensures
            final(self)@ == draw_char_s(old(self)@, x as int, y as int, c, color, scale as int),
            fb_wf(final(self)@),
    {
        if let Some(g) = glyph(c) {
            self.char_rows(&g, x as i64, y as i64, scale as i64, color, 0);
        }
    }

    /// Draw a text at (x, y): the i-th character eight scaled columns
    /// after the one before. Only the color buffer changes.
    #[verifier::loop_isolation(false)]
    pub fn draw_text(&mut self, x: usize, y: usize, text: &[char], color: u32, scale: usize)
        requires
            fb_wf(old(self)@),
            scale <= DRAW_SCALE_LIM,
            y <= DRAW_COORD_LIM,
            x + text@.len() * 8 * scale <= DRAW_COORD_LIM,
        ensures
            final(self)@ == text_run_s(old(self)@, x as int, y as int, text@, color, scale as int, 0),
            fb_wf(final(self)@),
    {
        let n = text.len();
        let mut i: usize = 0;
        while i < n
            invariant
                i <= n,
                n == text@.len(),
                scale <= DRAW_SCALE_LIM,
                y <= DRAW_COORD_LIM,
                x + text@.len() * 8 * scale <= DRAW_COORD_LIM,
                fb_wf(self@),
                text_run_s(old(self)@, x as int, y as int, text@, color, scale as int, 0)
                    == text_run_s(self@, x as int, y as int, text@, color, scale as int, i as int),
            decreases n - i,
        {
            proof {
                assert(i as int * scale * 8 <= text@.len() * 8 * scale && i as int * scale * 8
                    == i as int * 8 * scale) by (nonlinear_arith)
                    requires
                        0 <= i as int <= text@.len(),
                        scale >= 0;
            }
            self.draw_char(x + i * scale * 8, y, text[i], color, scale);
            i += 1;
        }
    }

    /// Draw the edges of a triangle given in normalized device
    /// coordinates (Q16.16). Only the color buffer changes.
    pub fn draw_triangle(&mut self, v0: crate::vecmat::FxVec3, v1: crate::vecmat::FxVec3, v2: crate::vecmat::FxVec3)
        requires
            fb_wf(old(self)@),
            old(self).width <= 0x10_0000,
            old(self).height <= 0x10_0000,
        ensures
            final(self)@ == ({
                let v = old(self)@;
                let p0 = ndc_to_screen_s(v, v0);
                let p1 = ndc_to_screen_s(v, v1);
                let p2 = ndc_to_screen_s(v, v2);
                line_s(
                    line_s(
                        line_s(v, p0.0, p0.1, p1.0, p1.1, v.current),
                        p1.0,
                        p1.1,
                        p2.0,
                        p2.1,
                        v.current,
                    ),
                    p2.0,
                    p2.1,
                    p0.0,
                    p0.1,
                    v.current,
                )
            }),
            fb_wf(final(self)@),
    {
        let c = self.current_color;
        let (x0, y0) = self.to_screen(&v0);
        let (x1, y1) = self.to_screen(&v1);
        let (x2, y2) = self.to_screen(&v2);
        self.draw_line(x0, y0, x1, y1, c);
        self.draw_line(x1, y1, x2, y2, c);
        self.draw_line(x2, y2, x0, y0, c);
    }

    /// The screen point of a normalized-device-coordinate point, clamped
    /// at zero on each axis.
    fn to_screen(&self, v: &crate::vecmat::FxVec3) -> (r: (usize, usize))
        requires
            self.width <= 0x10_0000,
            self.height <= 0x10_0000,
        ensures
            (r.0 as int, r.1 as int) == ndc_to_screen_s(self@, *v),
            r.0 <= DRAW_COORD_LIM,
            r.1 <= DRAW_COORD_LIM,
    {
        proof {
            assert({
                let bx = (v.x as int + 65536) * (self.width as int);
                -0x8000_0000_0000_0000_0000_0000 <= bx <= 0x8000_0000_0000_0000_0000_0000
            }) by (nonlinear_arith)
                requires
                    -0x8000_0000_0000_0000 <= v.x as int <= 0x7fff_ffff_ffff_ffff,
                    0 <= self.width as int <= 0x4000_0000;
        }
        let wx: i128 = ((v.x as i128) + 65536) * (self.width as i128);
        let sx128: i128 = wx.checked_div_euclid(2).unwrap().checked_div_euclid(65536).unwrap();
        let ty_half: i128 = ((v.y as i128) + 65536).checked_div_euclid(2).unwrap();
        proof {
            assert({
                let by = (65536 - ty_half as int) * (self.height as int);
                -0x8000_0000_0000_0000_0000_0000 <= by <= 0x8000_0000_0000_0000_0000_0000
            }) by (nonlinear_arith)
                requires
                    -0x8000_0000_0000_0000 <= ty_half as int <= 0x8000_0000_0000_0000,
                    0 <= self.height as int <= 0x4000_0000;
        }
        let wy: i128 = (65536 - ty_half) * (self.height as i128);
        let sy128: i128 = wy.checked_div_euclid(65536).unwrap();
        let sx: usize = if sx128 < 0 {
            0
        } else if sx128 > 0x4000_0000i128 {
            0x4000_0000
        } else {
            sx128 as usize
        };
        let sy: usize = if sy128 < 0 {
            0
        } else if sy128 > 0x4000_0000i128 {
            0x4000_0000
        } else {
            sy128 as usize
        };
        (sx, sy)
    }

    /// Bresenham line from (x0, y0) to (x1, y1) in the given color. Only
    /// the color buffer changes.
    #[verifier::loop_isolation(false)]
    pub fn draw_line(&mut self, x0: usize, y0: usize, x1: usize, y1: usize, color: u32)
        requires
            fb_wf(old(self)@),
            x0 <= DRAW_COORD_LIM,
            y0 <= DRAW_COORD_LIM,
            x1 <= DRAW_COORD_LIM,
            y1 <= DRAW_COORD_LIM,
        ensures
            final(self)@ == line_s(old(self)@, x0 as int, y0 as int, x1 as int, y1 as int, color),
            fb_wf(final(self)@),
    {
        let mut cx: i64 = x0 as i64;
        let mut cy: i64 = y0 as i64;
        let tx: i64 = x1 as i64;
        let ty: i64 = y1 as i64;
        let dx: i64 = if tx >= cx {
            tx - cx
        } else {
            cx - tx
        };
        let dy: i64 = if ty >= cy {
            cy - ty
        } else {
            ty - cy
        };
        let sx: i64 = if cx < tx {
            1
        } else {
            -1
        };
        let sy: i64 = if cy < ty {
            1
        } else {
            -1
        };
        let mut err: i64 = dx + dy;
        let ghost fuel0: nat = (dx - dy + 1) as nat;
        let ghost mut fuel: nat = fuel0;
        while cx != tx || cy != ty
            invariant
                fb_wf(self@),
                dx == iabs_s(tx - x0 as int),
                dy == -iabs_s(ty - y0 as int),
                sx == 1 ==> cx <= tx,
                sx == -1 ==> cx >= tx,
                sy == 1 ==> cy <= ty,
                sy == -1 ==> cy >= ty,
                sx == 1 || sx == -1,
                sy == 1 || sy == -1,
                2 * dy <= err <= 2 * dx,
                -DRAW_COORD_LIM <= cx <= DRAW_COORD_LIM,
                -DRAW_COORD_LIM <= cy <= DRAW_COORD_LIM,
                fuel > iabs_s(tx - cx) + iabs_s(ty - cy),
                line_run_s(old(self)@, x0 as int, y0 as int, tx as int, ty as int, sx as int, sy as int, dx as int, dy as int, dx + dy, color, fuel0)
                    == line_run_s(self@, cx as int, cy as int, tx as int, ty as int, sx as int, sy as int, dx as int, dy as int, err as int, color, fuel),
            decreases iabs_s(tx - cx) + iabs_s(ty - cy),
        {
            let ghost pre = self@;
            let ghost pcx = cx as int;
            let ghost pcy = cy as int;
            let ghost perr = err as int;
            self.paint(cx, cy, color);
            let e2: i64 = 2 * err;
            if e2 >= dy {
                if cx == tx {
                    proof {
                        assert(line_run_s(pre, pcx, pcy, tx as int, ty as int, sx as int, sy as int, dx as int, dy as int, perr, color, fuel) == self@);
                    }
                    return ;
                }
                err = err + dy;
                cx = cx + sx;
            }
            if e2 <= dx {
                if cy == ty {
                    proof {
                        assert(line_run_s(pre, pcx, pcy, tx as int, ty as int, sx as int, sy as int, dx as int, dy as int, perr, color, fuel) == self@);
                    }
                    return ;
                }
                err = err + dx;
                cy = cy + sy;
            }
            proof {
                assert(line_run_s(pre, pcx, pcy, tx as int, ty as int, sx as int, sy as int, dx as int, dy as int, perr, color, fuel)
                    == line_run_s(self@, cx as int, cy as int, tx as int, ty as int, sx as int, sy as int, dx as int, dy as int, err as int, color, (fuel - 1) as nat));
                fuel = (fuel - 1) as nat;
            }
        }
    }

    /// Midpoint circle around (cx, cy) in the given color. Only the color
    /// buffer changes.
    #[verifier::loop_isolation(false)]
    pub fn draw_circle(&mut self, cx: usize, cy: usize, radius: usize, color: u32)
        requires
            fb_wf(old(self)@),
            cx <= DRAW_COORD_LIM,
            cy <= DRAW_COORD_LIM,
            radius <= DRAW_SCALE_LIM,
        ensures
            final(self)@ == circle_s(old(self)@, cx as int, cy as int, radius as int, color),
            fb_wf(final(self)@),
    {
        let mut x: i64 = radius as i64;
        let mut y: i64 = 0;
        let mut err: i64 = 0;
        while x >= y
            invariant
                fb_wf(self@),
                0 <= y <= x + 2,
                x <= radius,
                iabs_s(err as int) + (x + 2 - y) * 0x40_0000 <= 0x4_0000_0000_0000,
                circle_run_s(old(self)@, cx as int, cy as int, radius as int, 0, 0, color)
                    == circle_run_s(self@, cx as int, cy as int, x as int, y as int, err as int, color),
            decreases x + 2 - y,
        {
            self.plot_circle_points(cx as i64, cy as i64, x, y, color);
            y += 1;
            err += 1 + 2 * y;
            if 2 * (err - x) + 1 > 0 {
                x -= 1;
                err += 1 - 2 * x;
            }
        }
    }

    /// The eight symmetric points of one circle step, each bounds-checked.
    /// Only the color buffer changes.
    fn plot_circle_points(&mut self, cx: i64, cy: i64, x: i64, y: i64, color: u32)
        requires
            fb_wf(old(self)@),
            -0x200_0000_0000 <= cx <= 0x200_0000_0000,
            -0x200_0000_0000 <= cy <= 0x200_0000_0000,
            -0x200_0000_0000 <= x <= 0x200_0000_0000,
            -0x200_0000_0000 <= y <= 0x200_0000_0000,
        ensures
            final(self)@ == plot8_s(old(self)@, cx as int, cy as int, x as int, y as int, color),
            fb_wf(final(self)@),
    {
        self.paint(cx + x, cy + y, color);
        self.paint(cx - x, cy + y, color);
        self.paint(cx + x, cy - y, color);
        self.paint(cx - x, cy - y, color);
        self.paint(cx + y, cy + x, color);
        self.paint(cx - y, cy + x, color);
        self.paint(cx + y, cy - x, color);
        self.paint(cx - y, cy - x, color);
    }
}

/// The screen point of a normalized-device-coordinate point: x maps
/// [-1, 1] onto [0, width], y the same with the axis flipped, both
/// clamped into the drawing range.
pub open spec fn ndc_to_screen_s(v: FbView, p: crate::vecmat::FxVec3) -> (int, int) {
    let sx = ((p.x + 65536) * v.width / 2) / 65536;
    let sy = ((65536 - ((p.y + 65536) / 2)) * v.height) / 65536;
    (
        if sx < 0 {
            0
        } else if sx > 0x4000_0000 {
            0x4000_0000
        } else {
            sx
        },
        if sy < 0 {
            0
        } else if sy > 0x4000_0000 {
            0x4000_0000
        } else {
            sy
        },
    )
}

/// A pixel's row-major index lies inside both buffers.
proof fn lemma_index_in_bounds(v: FbView, x: int, y: int)
    by (nonlinear_arith)
    requires
        fb_wf(v),
        0 <= x < v.width,
        0 <= y < v.height,
    ensures
        0 <= y * v.width + x < v.width * v.height,
{
}

/// A depth-tested write never moves a pixel's depth farther away: within
/// one frame the depth buffer is monotonically non-increasing per pixel.
pub proof fn lemma_point_depth_monotonic(v: FbView, x: int, y: int, depth: i64, i: int)
    requires
        fb_wf(v),
        0 <= i < v.depths.len(),
    ensures
        point_s(v, x, y, depth).depths[i] <= v.depths[i],
{
    if 0 <= x < v.width && 0 <= y < v.height {
        lemma_index_in_bounds(v, x, y);
    }
}

/// Nearest-wins compositing: when a pixel receives two writes with
/// strictly ordered depths, in either submission order, the nearer
/// write's color and depth end up stored whenever that write passes the
/// depth test at all — the farther write never shows.
pub proof fn lemma_point_nearest_wins(
    v: FbView,
    x: int,
    y: int,
    d1: i64,
    d2: i64,
    c1: u32,
    c2: u32,
)
    requires
        fb_wf(v),
        0 <= x < v.width,
        0 <= y < v.height,
        d1 < d2,
    ensures
        ({
            let i = y * v.width + x;
            let after = point_s(with_current_s(point_s(with_current_s(v, c1), x, y, d1), c2), x, y, d2);
            &&& after.colors[i] == if d1 < v.depths[i] { c1 } else { v.colors[i] }
            &&& after.depths[i] == if d1 < v.depths[i] { d1 } else { v.depths[i] }
        }),
        ({
            let i = y * v.width + x;
            let after = point_s(with_current_s(point_s(with_current_s(v, c2), x, y, d2), c1), x, y, d1);
            &&& after.colors[i] == if d1 < v.depths[i] { c1 } else { v.colors[i] }
            &&& after.depths[i] == if d1 < v.depths[i] { d1 } else { v.depths[i] }
        }),
{
    lemma_index_in_bounds(v, x, y);
}

/// Equal depths keep the earlier write: the second write of the same depth
/// changes nothing.
pub proof fn lemma_point_tie_keeps_first(
    v: FbView,
    x: int,
    y: int,
    d: i64,
    c1: u32,
    c2: u32,
)
    requires
        fb_wf(v),
        0 <= x < v.width,
        0 <= y < v.height,
        d < v.depths[y * v.width + x],
    ensures
        ({
            let after = point_s(with_current_s(point_s(with_current_s(v, c1), x, y, d), c2), x, y, d);
            after.colors[y * v.width + x] == c1 && after.depths[y * v.width + x] == d
        }),
{
    lemma_index_in_bounds(v, x, y);
}

/// After a clear, every pixel holds the background color and every depth
/// is `DEPTH_FAR`.
pub proof fn lemma_clear_all_background(v: FbView, i: int)
    requires
        0 <= i < v.colors.len(),
        v.colors.len() == v.depths.len(),
    ensures
        clear_s(v).colors[i] == v.background,
        clear_s(v).depths[i] == DEPTH_FAR,
        clear_s(v).colors.len() == v.colors.len(),
        clear_s(v).depths.len() == v.depths.len(),
{
}

} // verus!
