//! Pixel formats, the core's frame format, and the pixel surfaces the
//! frontend draws into: a window buffer of 0xAARRGGBB pixels and a Linux
//! framebuffer's bytes.
use vstd::prelude::*;
use crate::overlay::{DrawOp, DrawOpView};
use crate::font::{
    FontSize, FontGlyph, PixelWrite, char_writes, text_writes, hline_writes, vline_writes, rect_writes,
    glyph, glyph_index, spec_glyph, spec_font_data, glyph_bit, glyph_pixel_writes,
    glyph_row_writes, glyph_writes, text_width, lemma_glyph_bounds, lemma_text_width_bounds,
    lemma_text_width_prefix, glyph_pixel_on,
};

verus! {

/// The core's pixel format and frame size.
#[derive(Clone, Copy, Default)]
pub struct CoreFormat {
    pub bpp: u32,
    pub width: u32,
    pub height: u32,
}

impl CoreFormat {
    /// No format announced yet (all zero).
    pub fn uninitialized() -> (f: Self)
        ensures
            f.bpp == 0 && f.width == 0 && f.height == 0,
    {
        CoreFormat { bpp: 0, width: 0, height: 0 }
    }
}

/// Bits per pixel of a libretro pixel format (`SET_PIXEL_FORMAT`): 0RGB1555
/// (0) and XRGB8888 (1) are taken as 32, RGB565 (2) as 16, others as 0.
pub fn pixel_format_bpp(format: u32) -> (bpp: u32)
    ensures
        bpp == (if format == 0 || format == 1 { 32u32 } else if format == 2 { 16u32 } else { 0u32 }),
{
    match format {
        0 => 32,
        1 => 32,
        2 => 16,
        _ => 0,
    }
}

/// An XRGB8888 pixel in RGB565: the top 5, 6 and 5 bits of red, green, blue.
pub open spec fn spec_xrgb8888_to_rgb565(p: u32) -> u16 {
    ((((p >> 16u32) & 0xFFu32) & 0xF8u32) as u16) << 8u16 | ((((p >> 8u32) & 0xFFu32) & 0xFCu32) as u16) << 3u16
        | ((p & 0xFFu32) >> 3u32) as u16
}

/// An RGB565 pixel in XRGB8888, each channel widened by repeating its top
/// bits.
pub open spec fn spec_rgb565_to_xrgb8888(p: u16) -> u32 {
    let r5 = (p >> 11u16) & 0x1Fu16;
    let g6 = (p >> 5u16) & 0x3Fu16;
    let b5 = p & 0x1Fu16;
    ((r5 << 3u16 | r5 >> 2u16) as u32) << 16u32 | ((g6 << 2u16 | g6 >> 4u16) as u32) << 8u32 | (b5 << 3u16
        | b5 >> 2u16) as u32
}

/// Convert an XRGB8888 pixel to RGB565.
pub fn xrgb8888_to_rgb565(p: u32) -> (q: u16)
    ensures
        q == spec_xrgb8888_to_rgb565(p),
{
    let r = (p >> 16) & 0xFF;
    let g = (p >> 8) & 0xFF;
    let b = p & 0xFF;
    ((r & 0xF8) as u16) << 8 | ((g & 0xFC) as u16) << 3 | (b >> 3) as u16
}

/// Convert an RGB565 pixel to XRGB8888.
pub fn rgb565_to_xrgb8888(p: u16) -> (q: u32)
    ensures
        q == spec_rgb565_to_xrgb8888(p),
{
    let r5 = (p >> 11) & 0x1F;
    let g6 = (p >> 5) & 0x3F;
    let b5 = p & 0x1F;
    ((r5 << 3 | r5 >> 2) as u32) << 16 | ((g6 << 2 | g6 >> 4) as u32) << 8 | (b5 << 3 | b5 >> 2) as u32
}

/// Converting to RGB565 and back keeps the top bits of each channel and
/// repeats them in the low bits; converting back again gives the same
/// RGB565 pixel.
pub proof fn lemma_rgb565_round_trip(p: u16)
    ensures
        spec_xrgb8888_to_rgb565(spec_rgb565_to_xrgb8888(p)) == p,
{
    assert(spec_xrgb8888_to_rgb565(spec_rgb565_to_xrgb8888(p)) == p) by (bit_vector);
}

/// Offset that centres `core` pixels in `fb` pixels (negative when the core
/// frame is larger), as the backends compute it on a format change.
pub fn centered_offset(fb: u32, core: u32) -> (off: i32)
    requires
        fb <= i32::MAX,
        core <= i32::MAX,
    ensures
        off == (if fb >= core { (fb - core) / 2 } else { -((core - fb) / 2) }),
{
    ((fb as i32) - (core as i32)) / 2
}

/// The window's pixel for an overlay color: opaque, with the color's red,
/// green and blue.
pub open spec fn argb(color: u32) -> u32 {
    0xFF000000u32 | (color & 0x00FF_FFFFu32)
}

/// `pixels` after one write at (x, y) on a surface `width` pixels wide: the
/// pixel at index `y * width + x` takes the color (writes past the end are
/// dropped).
pub open spec fn canvas_put(pixels: Seq<u32>, width: int, w: PixelWrite) -> Seq<u32> {
    let k = w.1 * width + w.0;
    if 0 <= k < pixels.len() {
        pixels.update(k, w.2)
    } else {
        pixels
    }
}

/// `pixels` after the writes, in order.
pub open spec fn canvas_apply(pixels: Seq<u32>, width: int, writes: Seq<PixelWrite>) -> Seq<u32>
    decreases writes.len(),
{
    if writes.len() == 0 {
        pixels
    } else {
        canvas_put(canvas_apply(pixels, width, writes.drop_last()), width, writes.last())
    }
}

/// Applying two lists of writes one after the other applies their
/// concatenation.
pub proof fn lemma_canvas_apply_concat(pixels: Seq<u32>, width: int, a: Seq<PixelWrite>, b: Seq<PixelWrite>)
    ensures
        canvas_apply(canvas_apply(pixels, width, a), width, b) == canvas_apply(pixels, width, a + b),
    decreases b.len(),
{
    if b.len() == 0 {
        assert(a + b =~= a);
    } else {
        lemma_canvas_apply_concat(pixels, width, a, b.drop_last());
        assert((a + b).drop_last() =~= a + b.drop_last());
        assert((a + b).last() == b.last());
    }
}

/// Writes never change the number of pixels.
pub proof fn lemma_canvas_apply_len(pixels: Seq<u32>, width: int, writes: Seq<PixelWrite>)
    ensures
        canvas_apply(pixels, width, writes).len() == pixels.len(),
    decreases writes.len(),
{
    if writes.len() > 0 {
        lemma_canvas_apply_len(pixels, width, writes.drop_last());
    }
}

/// A coordinate clamped to [0, limit].
pub open spec fn clamp(v: int, limit: int) -> int {
    if v < 0 {
        0
    } else if v > limit {
        limit
    } else {
        v
    }
}

/// A window's pixels as values: 0xAARRGGBB, row by row.
pub struct CanvasView {
    pub pixels: Seq<u32>,
    pub width: nat,
    pub height: nat,
}

/// The pixel buffer of a desktop window, `width * height` pixels.
pub struct WindowCanvas {
    buffer: Vec<u32>,
    width: u32,
    height: u32,
}

impl View for WindowCanvas {
    type V = CanvasView;

    closed spec fn view(&self) -> CanvasView {
        CanvasView { pixels: self.buffer@, width: self.width as nat, height: self.height as nat }
    }
}

impl CanvasView {
    /// One pixel per position, and sides that fit in `i32`.
    pub open spec fn wf(self) -> bool {
        &&& self.pixels.len() == self.width * self.height
        &&& self.width <= i32::MAX
        &&& self.height <= i32::MAX
    }
}

impl WindowCanvas {
    /// A black canvas.
    pub fn new(width: u32, height: u32) -> (c: Self)
        requires
            width <= i32::MAX,
            height <= i32::MAX,
            width * height <= usize::MAX,
        ensures
            c@.wf(),
            c@.width == width,
            c@.height == height,
            forall|k: int| 0 <= k < c@.pixels.len() ==> c@.pixels[k] == 0,
    {
        let n: usize = (width as usize) * (height as usize);
        let mut buffer: Vec<u32> = Vec::new();
        let mut i: usize = 0;
        while i < n
            invariant
                0 <= i <= n,
                buffer@.len() == i,
                forall|k: int| 0 <= k < i ==> buffer@[k] == 0,
            decreases n - i,
        {
            buffer.push(0);
            i = i + 1;
        }
        WindowCanvas { buffer, width, height }
    }

    /// The pixels, for presenting the window.
    pub fn pixels(&self) -> (p: &[u32])
        ensures
            p@ == self@.pixels,
    {
        self.buffer.as_slice()
    }

    /// Width in pixels.
    pub fn width(&self) -> (w: u32)
        ensures
            w == self@.width,
    {
        self.width
    }

    /// Height in pixels.
    pub fn height(&self) -> (h: u32)
        ensures
            h == self@.height,
    {
        self.height
    }

    /// One write (dropped past the end of the buffer).
    fn put(&mut self, x: i32, y: i32, color: u32)
        requires
            old(self)@.wf(),
            x >= 0,
            y >= 0,
        ensures
            final(self)@ == (CanvasView {
                pixels: canvas_put(old(self)@.pixels, old(self)@.width as int, (x as int, y as int, color)),
                ..old(self)@
            }),
    {
        let yy: u64 = y as u64;
        let ww: u64 = self.width as u64;
        assert(yy * ww <= 0x7FFF_FFFF * 0x7FFF_FFFF) by (nonlinear_arith)
            requires
                yy <= 0x7FFF_FFFF,
                ww <= 0x7FFF_FFFF,
        ;
        let k: u64 = yy * ww + (x as u64);
        if k < self.buffer.len() as u64 {
            self.buffer.set(k as usize, color);
        }
    }

    /// Fill the whole window with black (overlay cleared when the menu opens
    /// or closes).
    pub fn clear_overlay(&mut self)
        requires
            old(self)@.wf(),
        ensures
            final(self)@.wf(),
            final(self)@.width == old(self)@.width,
            final(self)@.height == old(self)@.height,
            forall|k: int| 0 <= k < final(self)@.pixels.len() ==> final(self)@.pixels[k] == 0,
    {
        let n = self.buffer.len();
        let mut i: usize = 0;
        while i < n
            invariant
                0 <= i <= n,
                n == self.buffer@.len(),
                self@.wf(),
                self@.width == old(self)@.width,
                self@.height == old(self)@.height,
                forall|k: int| 0 <= k < i ==> self.buffer@[k] == 0,
            decreases n - i,
        {
            self.buffer.set(i, 0);
            i = i + 1;
        }
    }

    /// Draw one overlay pixel, when it lies on the window.
    pub fn draw_pixel_overlay(&mut self, x: i32, y: i32, color: u32)
        requires
            old(self)@.wf(),
        ensures
            final(self)@.wf(),
            final(self)@ == (CanvasView {
                pixels: if 0 <= x < old(self)@.width && 0 <= y < old(self)@.height {
                    canvas_put(old(self)@.pixels, old(self)@.width as int, (x as int, y as int, argb(color)))
                } else {
                    old(self)@.pixels
                },
                ..old(self)@
            }),
            final(self)@.wf(),
    {
        if x < 0 || y < 0 || x as u32 >= self.width || y as u32 >= self.height {
            return;
        }
        let r = (color >> 16) & 0xFF;
        let g = (color >> 8) & 0xFF;
        let b = color & 0xFF;
        let c: u32 = 0xFF000000 | (r << 16) | (g << 8) | b;
        assert(c == argb(color)) by (bit_vector)
            requires
                r == (color >> 16) & 0xFF,
                g == (color >> 8) & 0xFF,
                b == color & 0xFF,
                c == 0xFF000000 | (r << 16) | (g << 8) | b,
        ;
        self.put(x, y, c);
    }
}

/// The window color of an overlay color, computed from its channels.
fn argb_of(color: u32) -> (c: u32)
    ensures
        c == argb(color),
{
    let r = (color >> 16) & 0xFF;
    let g = (color >> 8) & 0xFF;
    let b = color & 0xFF;
    let c: u32 = 0xFF000000 | (r << 16) | (g << 8) | b;
    assert(c == argb(color)) by (bit_vector)
        requires
            r == (color >> 16) & 0xFF,
            g == (color >> 8) & 0xFF,
            b == color & 0xFF,
            c == 0xFF000000 | (r << 16) | (g << 8) | b,
    ;
    c
}

/// A coordinate clamped to [0, limit].
fn clamp_i32(v: i32, limit: i32) -> (r: i32)
    requires
        limit >= 0,
    ensures
        r == clamp(v as int, limit as int),
{
    if v < 0 {
        0
    } else if v > limit {
        limit
    } else {
        v
    }
}

impl WindowCanvas {
    /// Paint row `y` over [x1, x2) (both inside the window) left to right.
    fn fill_row(&mut self, x1: i32, x2: i32, y: i32, c: u32)
        requires
            old(self)@.wf(),
            0 <= x1 <= x2 <= old(self)@.width,
            0 <= y < old(self)@.height,
        ensures
            final(self)@ == (CanvasView {
                pixels: canvas_apply(old(self)@.pixels, old(self)@.width as int, hline_writes(x1 as int, x2 as int, y as int, c)),
                ..old(self)@
            }),
            final(self)@.wf(),
    {
        let ghost start = self@.pixels;
        let ghost width = self@.width as int;
        let mut x: i32 = x1;
        assert(hline_writes(x1 as int, x1 as int, y as int, c) =~= Seq::<PixelWrite>::empty());
        while x < x2
            invariant
                0 <= x1 <= x <= x2,
                self@.wf(),
                x2 <= self@.width,
                0 <= y < self@.height,
                width == self@.width,
                self@.width == old(self)@.width,
                self@.height == old(self)@.height,
                self@.pixels == canvas_apply(start, width, hline_writes(x1 as int, x as int, y as int, c)),
            decreases x2 - x,
        {
            let ghost before = self@.pixels;
            self.put(x, y, c);
            proof {
                let ws = hline_writes(x1 as int, x as int, y as int, c);
                assert(hline_writes(x1 as int, x + 1, y as int, c) == ws.push((x as int, y as int, c)));
                assert(ws.push((x as int, y as int, c)).drop_last() =~= ws);
            }
            x = x + 1;
        }
    }

    /// Draw a horizontal overlay line on row `y` over [x1, x2), clipped to
    /// the window.
    pub fn draw_hline_overlay(&mut self, x1: i32, x2: i32, y: i32, color: u32)
        requires
            old(self)@.wf(),
        ensures
            final(self)@ == (CanvasView {
                pixels: if 0 <= y < old(self)@.height {
                    canvas_apply(old(self)@.pixels, old(self)@.width as int, hline_writes(
                        clamp(x1 as int, old(self)@.width as int),
                        clamp(x2 as int, old(self)@.width as int),
                        y as int,
                        argb(color),
                    ))
                } else {
                    old(self)@.pixels
                },
                ..old(self)@
            }),
            final(self)@.wf(),
    {
        if y < 0 || y as u32 >= self.height {
            return;
        }
        let w: i32 = self.width as i32;
        let cx1 = clamp_i32(x1, w);
        let cx2 = clamp_i32(x2, w);
        if cx1 >= cx2 {
            assert(hline_writes(cx1 as int, cx2 as int, y as int, argb(color)) =~= Seq::<PixelWrite>::empty());
            return;
        }
        let c = argb_of(color);
        self.fill_row(cx1, cx2, y, c);
    }

    /// Draw a vertical overlay line on column `x` over [y1, y2), clipped to
    /// the window.
    pub fn draw_vline_overlay(&mut self, x: i32, y1: i32, y2: i32, color: u32)
        requires
            old(self)@.wf(),
        ensures
            final(self)@ == (CanvasView {
                pixels: if 0 <= x < old(self)@.width {
                    canvas_apply(old(self)@.pixels, old(self)@.width as int, vline_writes(
                        x as int,
                        clamp(y1 as int, old(self)@.height as int),
                        clamp(y2 as int, old(self)@.height as int),
                        argb(color),
                    ))
                } else {
                    old(self)@.pixels
                },
                ..old(self)@
            }),
            final(self)@.wf(),
    {
        if x < 0 || x as u32 >= self.width {
            return;
        }
        let h: i32 = self.height as i32;
        let cy1 = clamp_i32(y1, h);
        let cy2 = clamp_i32(y2, h);
        let ghost start = self@.pixels;
        let ghost width = self@.width as int;
        let c = argb_of(color);
        let mut y: i32 = cy1;
        if cy1 >= cy2 {
            assert(vline_writes(x as int, cy1 as int, cy2 as int, c) =~= Seq::<PixelWrite>::empty());
            return;
        }
        assert(vline_writes(x as int, cy1 as int, cy1 as int, c) =~= Seq::<PixelWrite>::empty());
        while y < cy2
            invariant
                0 <= cy1 <= y <= cy2,
                cy2 <= self@.height,
                0 <= x < self@.width,
                self@.wf(),
                width == self@.width,
                self@.width == old(self)@.width,
                self@.height == old(self)@.height,
                self@.pixels == canvas_apply(start, width, vline_writes(x as int, cy1 as int, y as int, c)),
            decreases cy2 - y,
        {
            self.put(x, y, c);
            proof {
                let ws = vline_writes(x as int, cy1 as int, y as int, c);
                assert(vline_writes(x as int, cy1 as int, y + 1, c) == ws.push((x as int, y as int, c)));
                assert(ws.push((x as int, y as int, c)).drop_last() =~= ws);
            }
            y = y + 1;
        }
    }

    /// Fill the overlay rectangle [x1, x2) x [y1, y2), clipped to the window,
    /// row by row.
    pub fn draw_rect_overlay(&mut self, x1: i32, y1: i32, x2: i32, y2: i32, color: u32)
        requires
            old(self)@.wf(),
        ensures
            final(self)@ == (CanvasView {
                pixels: {
                    let cx1 = clamp(x1 as int, old(self)@.width as int);
                    let cx2 = clamp(x2 as int, old(self)@.width as int);
                    let cy1 = clamp(y1 as int, old(self)@.height as int);
                    let cy2 = clamp(y2 as int, old(self)@.height as int);
                    if cx1 < cx2 && cy1 < cy2 {
                        canvas_apply(old(self)@.pixels, old(self)@.width as int, rect_writes(cx1, cx2, cy1, cy2 - cy1, argb(color)))
                    } else {
                        old(self)@.pixels
                    }
                },
                ..old(self)@
            }),
            final(self)@.wf(),
    {
        let w: i32 = self.width as i32;
        let h: i32 = self.height as i32;
        let cx1 = clamp_i32(x1, w);
        let cy1 = clamp_i32(y1, h);
        let cx2 = clamp_i32(x2, w);
        let cy2 = clamp_i32(y2, h);
        if cx1 >= cx2 || cy1 >= cy2 {
            return;
        }
        let c = argb_of(color);
        let ghost start = self@.pixels;
        let ghost width = self@.width as int;
        let mut y: i32 = cy1;
        assert(rect_writes(cx1 as int, cx2 as int, cy1 as int, 0, c) =~= Seq::<PixelWrite>::empty());
        while y < cy2
            invariant
                cy1 <= y <= cy2,
                0 <= cx1 < cx2 <= self@.width,
                cy2 <= self@.height,
                0 <= cy1,
                self@.wf(),
                width == self@.width,
                self@.width == old(self)@.width,
                self@.height == old(self)@.height,
                self@.pixels == canvas_apply(start, width, rect_writes(cx1 as int, cx2 as int, cy1 as int, y - cy1, c)),
            decreases cy2 - y,
        {
            let ghost before = self@.pixels;
            self.fill_row(cx1, cx2, y, c);
            proof {
                let ws = rect_writes(cx1 as int, cx2 as int, cy1 as int, y - cy1, c);
                let row = hline_writes(cx1 as int, cx2 as int, y as int, c);
                assert(rect_writes(cx1 as int, cx2 as int, cy1 as int, y + 1 - cy1, c) == ws + row);
                lemma_canvas_apply_concat(start, width, ws, row);
            }
            y = y + 1;
        }
    }
}

/// Applying one write puts it.
pub proof fn lemma_canvas_apply_one(pixels: Seq<u32>, width: int, w: PixelWrite)
    ensures
        canvas_apply(pixels, width, seq![w]) == canvas_put(pixels, width, w),
{
    assert(seq![w].drop_last() =~= Seq::<PixelWrite>::empty());
    assert(seq![w].last() == w);
    assert(canvas_apply(pixels, width, Seq::<PixelWrite>::empty()) == pixels);
}

impl WindowCanvas {
    /// The writes of one bitmap pixel of a glyph.
    fn draw_glyph_pixel(
        &mut self,
        size: FontSize,
        fd: FontGlyph,
        x: i32,
        y: i32,
        px: i32,
        py: i32,
        color: u32,
        shadow_color: u32,
        shadow: bool,
    )
        requires
            old(self)@.wf(),
            0 <= fd.width <= 8,
            0 <= fd.x <= 3,
            -12 <= fd.y <= 1,
            fd.data_offset <= spec_font_data(size).len(),
            0 <= px < fd.width,
            0 <= py < 16,
            i32::MIN + 32 <= x <= i32::MAX - 32,
            i32::MIN + 32 <= y <= i32::MAX - 32,
        ensures
            final(self)@ == (CanvasView {
                pixels: canvas_apply(old(self)@.pixels, old(self)@.width as int, glyph_pixel_writes(
                    spec_font_data(size),
                    fd,
                    x as int,
                    y as int,
                    px as int,
                    py as int,
                    color,
                    shadow_color,
                    shadow,
                )),
                ..old(self)@
            }),
            final(self)@.wf(),
    {
        let ghost width = self@.width as int;
        let ghost before = self@.pixels;
        if glyph_pixel_on(size, fd, px, py) {
            let mx: i32 = x + px + fd.x;
            let my: i32 = y + py + fd.y;
            if mx >= 0 && my >= 0 {
                self.put(mx, my, color);
            }
            let ghost mid = self@.pixels;
            if shadow {
                let sx: i32 = mx + 1;
                let sy: i32 = my + 1;
                if sx >= 0 && sy >= 0 {
                    self.put(sx, sy, shadow_color);
                }
            }
            proof {
                let main = if mx >= 0 && my >= 0 { seq![(mx as int, my as int, color)] } else { Seq::<PixelWrite>::empty() };
                let below = if shadow && mx + 1 >= 0 && my + 1 >= 0 {
                    seq![(mx + 1, my + 1, shadow_color)]
                } else {
                    Seq::<PixelWrite>::empty()
                };
                if mx >= 0 && my >= 0 {
                    lemma_canvas_apply_one(before, width, (mx as int, my as int, color));
                }
                if shadow && mx + 1 >= 0 && my + 1 >= 0 {
                    lemma_canvas_apply_one(mid, width, (mx + 1, my + 1, shadow_color));
                }
                lemma_canvas_apply_concat(before, width, main, below);
            }
        }
    }

    /// Draw byte `ch` with its pen at (x, y); with `shadow`, each pixel also
    /// gets a `shadow_color` pixel below right of it.
    fn draw_glyph(&mut self, size: FontSize, x: i32, y: i32, ch: u8, color: u32, shadow_color: u32, shadow: bool)
        requires
            old(self)@.wf(),
            i32::MIN + 32 <= x <= i32::MAX - 32,
            i32::MIN + 32 <= y <= i32::MAX - 32,
        ensures
            final(self)@ == (CanvasView {
                pixels: canvas_apply(old(self)@.pixels, old(self)@.width as int, char_writes(
                    size,
                    ch,
                    x as int,
                    y as int,
                    color,
                    shadow_color,
                    shadow,
                )),
                ..old(self)@
            }),
            final(self)@.wf(),
    {
        let fd = glyph(size, ch);
        proof {
            lemma_glyph_bounds(size, glyph_index(ch));
        }
        let ghost data = spec_font_data(size);
        let ghost start = self@.pixels;
        let ghost width = self@.width as int;
        let mut py: i32 = 0;
        assert(glyph_writes(data, fd, x as int, y as int, 0, color, shadow_color, shadow) =~= Seq::<PixelWrite>::empty());
        while py < fd.height
            invariant
                0 <= py <= fd.height <= 16,
                0 <= fd.width <= 8,
                0 <= fd.x <= 3,
                -12 <= fd.y <= 1,
                fd.data_offset <= data.len(),
                data == spec_font_data(size),
                i32::MIN + 32 <= x <= i32::MAX - 32,
                i32::MIN + 32 <= y <= i32::MAX - 32,
                self@.wf(),
                width == self@.width,
                self@.width == old(self)@.width,
                self@.height == old(self)@.height,
                self@.pixels == canvas_apply(start, width, glyph_writes(data, fd, x as int, y as int, py as int, color, shadow_color, shadow)),
            decreases fd.height - py,
        {
            let ghost rows = glyph_writes(data, fd, x as int, y as int, py as int, color, shadow_color, shadow);
            let mut px: i32 = 0;
            assert(glyph_row_writes(data, fd, x as int, y as int, py as int, 0, color, shadow_color, shadow) =~= Seq::<PixelWrite>::empty());
            assert(rows + Seq::<PixelWrite>::empty() =~= rows);
            while px < fd.width
                invariant
                    0 <= px <= fd.width <= 8,
                    0 <= py < fd.height <= 16,
                    0 <= fd.x <= 3,
                    -12 <= fd.y <= 1,
                    fd.data_offset <= data.len(),
                    data == spec_font_data(size),
                    i32::MIN + 32 <= x <= i32::MAX - 32,
                    i32::MIN + 32 <= y <= i32::MAX - 32,
                    self@.wf(),
                    width == self@.width,
                    self@.width == old(self)@.width,
                    self@.height == old(self)@.height,
                    rows == glyph_writes(data, fd, x as int, y as int, py as int, color, shadow_color, shadow),
                    self@.pixels == canvas_apply(start, width, rows + glyph_row_writes(data, fd, x as int, y as int, py as int, px as int, color, shadow_color, shadow)),
                decreases fd.width - px,
            {
                let ghost done = rows + glyph_row_writes(data, fd, x as int, y as int, py as int, px as int, color, shadow_color, shadow);
                let ghost pw = glyph_pixel_writes(data, fd, x as int, y as int, px as int, py as int, color, shadow_color, shadow);
                self.draw_glyph_pixel(size, fd, x, y, px, py, color, shadow_color, shadow);
                proof {
                    lemma_canvas_apply_concat(start, width, done, pw);
                    assert(rows + glyph_row_writes(data, fd, x as int, y as int, py as int, px + 1, color, shadow_color, shadow) =~= done + pw);
                }
                px = px + 1;
            }
            proof {
                assert(glyph_writes(data, fd, x as int, y as int, py + 1, color, shadow_color, shadow)
                    == rows + glyph_row_writes(data, fd, x as int, y as int, py as int, fd.width as int, color, shadow_color, shadow));
            }
            py = py + 1;
        }
    }
}

impl WindowCanvas {
    /// Draw a text from pen position (x, y), glyph after glyph.
    fn draw_str(&mut self, size: FontSize, x: i32, y: i32, text: &[u8], color: u32)
        requires
            old(self)@.wf(),
            i32::MIN + 32 <= x,
            x + text_width(size, text@) <= i32::MAX - 32,
            i32::MIN + 32 <= y <= i32::MAX - 32,
        ensures
            final(self)@ == (CanvasView {
                pixels: canvas_apply(old(self)@.pixels, old(self)@.width as int, text_writes(size, text@, x as int, y as int, color)),
                ..old(self)@
            }),
            final(self)@.wf(),
    {
        let ghost start = self@.pixels;
        let ghost width = self@.width as int;
        let mut cx: i32 = x;
        let mut i: usize = 0;
        proof {
            assert(text@.take(0) =~= Seq::<u8>::empty());
        }
        while i < text.len()
            invariant
                0 <= i <= text@.len(),
                i32::MIN + 32 <= x,
                x + text_width(size, text@) <= i32::MAX - 32,
                i32::MIN + 32 <= y <= i32::MAX - 32,
                cx == x + text_width(size, text@.take(i as int)),
                self@.wf(),
                width == self@.width,
                self@.width == old(self)@.width,
                self@.height == old(self)@.height,
                self@.pixels == canvas_apply(start, width, text_writes(size, text@.take(i as int), x as int, y as int, color)),
            decreases text@.len() - i,
        {
            let ghost before = text_writes(size, text@.take(i as int), x as int, y as int, color);
            proof {
                lemma_text_width_prefix(size, text@, i as int);
                lemma_text_width_prefix(size, text@, i + 1);
                assert(text@.take(i + 1).drop_last() =~= text@.take(i as int));
                assert(text@.take(i + 1).last() == text@[i as int]);
            }
            let ch = text[i];
            self.draw_glyph(size, cx, y, ch, color, 0, false);
            proof {
                lemma_canvas_apply_concat(start, width, before,
                    char_writes(size, ch, cx as int, y as int, color, 0, false));
            }
            let fd = glyph(size, ch);
            cx = cx + fd.step_width;
            i = i + 1;
        }
        proof {
            assert(text@.take(i as int) =~= text@);
        }
    }

    /// Draw overlay text in the small font (pixels take `color` as given).
    pub fn draw_text_overlay(&mut self, x: i32, y: i32, text: &[u8], color: u32)
        requires
            old(self)@.wf(),
            i32::MIN + 32 <= x,
            x + text_width(FontSize::Small, text@) <= i32::MAX - 32,
            i32::MIN + 32 <= y <= i32::MAX - 32,
        ensures
            final(self)@ == (CanvasView {
                pixels: canvas_apply(old(self)@.pixels, old(self)@.width as int, text_writes(FontSize::Small, text@, x as int, y as int, color)),
                ..old(self)@
            }),
            final(self)@.wf(),
    {
        self.draw_str(FontSize::Small, x, y, text, color);
    }

    /// Draw overlay text in the big font (pixels take `color` as given).
    pub fn draw_text_big_overlay(&mut self, x: i32, y: i32, text: &[u8], color: u32)
        requires
            old(self)@.wf(),
            i32::MIN + 32 <= x,
            x + text_width(FontSize::Big, text@) <= i32::MAX - 32,
            i32::MIN + 32 <= y <= i32::MAX - 32,
        ensures
            final(self)@ == (CanvasView {
                pixels: canvas_apply(old(self)@.pixels, old(self)@.width as int, text_writes(FontSize::Big, text@, x as int, y as int, color)),
                ..old(self)@
            }),
            final(self)@.wf(),
    {
        self.draw_str(FontSize::Big, x, y, text, color);
    }

    /// Draw one small-font character with a black shadow below right.
    pub fn draw_char_overlay(&mut self, x: i32, y: i32, ch: u8, color: u32)
        requires
            old(self)@.wf(),
            i32::MIN + 32 <= x <= i32::MAX - 32,
            i32::MIN + 32 <= y <= i32::MAX - 32,
        ensures
            final(self)@ == (CanvasView {
                pixels: canvas_apply(old(self)@.pixels, old(self)@.width as int, char_writes(FontSize::Small, ch, x as int, y as int, color, 0, true)),
                ..old(self)@
            }),
            final(self)@.wf(),
    {
        self.draw_glyph(FontSize::Small, x, y, ch, color, 0, true);
    }

    /// Draw one big-font character with a black shadow below right.
    pub fn draw_char_big_overlay(&mut self, x: i32, y: i32, ch: u8, color: u32)
        requires
            old(self)@.wf(),
            i32::MIN + 32 <= x <= i32::MAX - 32,
            i32::MIN + 32 <= y <= i32::MAX - 32,
        ensures
            final(self)@ == (CanvasView {
                pixels: canvas_apply(old(self)@.pixels, old(self)@.width as int, char_writes(FontSize::Big, ch, x as int, y as int, color, 0, true)),
                ..old(self)@
            }),
            final(self)@.wf(),
    {
        self.draw_glyph(FontSize::Big, x, y, ch, color, 0, true);
    }
}

/// The little-endian `u32` at byte `i` of `bytes`.
pub open spec fn le_u32(bytes: Seq<u8>, i: int) -> u32 {
    (bytes[i] as u32) | ((bytes[i + 1] as u32) << 8u32) | ((bytes[i + 2] as u32) << 16u32) | ((bytes[i + 3] as u32)
        << 24u32)
}

/// The little-endian `u16` at byte `i` of `bytes`.
pub open spec fn le_u16(bytes: Seq<u8>, i: int) -> u16 {
    (bytes[i] as u16) | ((bytes[i + 1] as u16) << 8u16)
}

/// Read a little-endian `u32` at byte `i`.
fn read_le_u32(bytes: &[u8], i: usize) -> (v: u32)
    requires
        i + 4 <= bytes@.len(),
    ensures
        v == le_u32(bytes@, i as int),
{
    (bytes[i] as u32) | ((bytes[i + 1] as u32) << 8) | ((bytes[i + 2] as u32) << 16) | ((bytes[i + 3] as u32) << 24)
}

/// Read a little-endian `u16` at byte `i`.
fn read_le_u16(bytes: &[u8], i: usize) -> (v: u16)
    requires
        i + 2 <= bytes@.len(),
    ensures
        v == le_u16(bytes@, i as int),
{
    (bytes[i] as u16) | ((bytes[i + 1] as u16) << 8)
}

/// Pixel (fx, fy) of a core frame (rows `pitch` bytes apart) as an
/// XRGB8888 value: XRGB8888 frames are read as is, RGB565 ones widened.
pub open spec fn frame_xrgb(frame: Seq<u8>, pitch: int, bpp: u32, fx: int, fy: int) -> u32 {
    if bpp == 32 {
        le_u32(frame, (fy * (pitch / 4) + fx) * 4)
    } else {
        spec_rgb565_to_xrgb8888(le_u16(frame, (fy * (pitch / 2) + fx) * 2))
    }
}

/// A core frame of `fw` x `fh` pixels, rows `pitch` bytes apart, lies within
/// `frame` (for 16 or 32 bits per pixel).
pub open spec fn frame_readable(frame: Seq<u8>, fw: int, fh: int, pitch: int, bpp: u32) -> bool {
    &&& (bpp == 32 ==> fw <= pitch / 4 && (fh * (pitch / 4)) * 4 <= frame.len())
    &&& (bpp == 16 ==> fw <= pitch / 2 && (fh * (pitch / 2)) * 2 <= frame.len())
}

/// The window pixel at index `k` after a frame is pushed: inside the
/// centred frame area the frame's pixel (opaque; unchanged for an unknown
/// pixel format), black elsewhere.
pub open spec fn pushed_pixel(
    old: Seq<u32>,
    width: int,
    frame: Seq<u8>,
    fw: int,
    fh: int,
    pitch: int,
    bpp: u32,
    ox: int,
    oy: int,
    k: int,
) -> u32 {
    let x = k % width;
    let y = k / width;
    if ox <= x < ox + fw && oy <= y < oy + fh {
        if bpp == 32 || bpp == 16 {
            0xFF000000u32 | frame_xrgb(frame, pitch, bpp, x - ox, y - oy)
        } else {
            old[k]
        }
    } else {
        0
    }
}

/// Index `y * width + x` has column `x` and row `y`.
proof fn lemma_index_coords(x: int, y: int, width: int)
    requires
        0 <= x < width,
        0 <= y,
    ensures
        (y * width + x) % width == x,
        (y * width + x) / width == y,
{
    vstd::arithmetic::div_mod::lemma_fundamental_div_mod_converse(y * width + x, width, y, x);
}

/// The frame offset (fy * rows + fx) * bpb + bpb stays inside a readable frame.
proof fn lemma_frame_index(fx: int, fy: int, fw: int, fh: int, row: int, bpb: int)
    requires
        0 <= fx < fw <= row,
        0 <= fy < fh,
        bpb > 0,
    ensures
        0 <= fy * row,
        fy * row + fx <= (fy * row + fx) * bpb,
        0 <= (fy * row + fx) * bpb,
        (fy * row + fx) * bpb + bpb <= (fh * row) * bpb,
{
    assert(0 <= fy * row && fy * row + fx <= (fy * row + fx) * bpb && 0 <= (fy * row + fx) * bpb && (fy * row + fx)
        * bpb + bpb <= (fh * row) * bpb) by (nonlinear_arith)
        requires
            0 <= fx < fw <= row,
            0 <= fy < fh,
            bpb > 0,
    ;
}

/// The window backend's frame state: its pixels, the core frame's size and
/// placement, and whether the next frame is skipped or this one was drawn.
pub struct WindowVideo {
    pub canvas: WindowCanvas,
    core_width: u32,
    core_height: u32,
    offset_x: i32,
    offset_y: i32,
    skip_frame: bool,
    frame_drawn: bool,
    snapshot_buffer: Option<Vec<u8>>,
}

/// The window backend's state as values.
pub struct WindowVideoView {
    pub canvas: CanvasView,
    pub core_width: u32,
    pub core_height: u32,
    pub offset_x: i32,
    pub offset_y: i32,
    pub skip_frame: bool,
    pub frame_drawn: bool,
    pub snapshot: Option<Seq<u8>>,
}

impl View for WindowVideo {
    type V = WindowVideoView;

    closed spec fn view(&self) -> WindowVideoView {
        WindowVideoView {
            canvas: self.canvas@,
            core_width: self.core_width,
            core_height: self.core_height,
            offset_x: self.offset_x,
            offset_y: self.offset_y,
            skip_frame: self.skip_frame,
            frame_drawn: self.frame_drawn,
            snapshot: match self.snapshot_buffer {
                Some(b) => Some(b@),
                None => None,
            },
        }
    }
}

impl WindowVideo {
    /// A black window of `width` x `height` pixels, no core format yet.
    pub fn new(width: u32, height: u32) -> (v: Self)
        requires
            width <= i32::MAX,
            height <= i32::MAX,
            width * height <= usize::MAX,
        ensures
            v@.canvas.wf(),
            v@.canvas.width == width,
            v@.canvas.height == height,
            forall|k: int| 0 <= k < v@.canvas.pixels.len() ==> v@.canvas.pixels[k] == 0,
            v@.core_width == 0 && v@.core_height == 0,
            v@.offset_x == 0 && v@.offset_y == 0,
            !v@.skip_frame && !v@.frame_drawn,
            v@.snapshot is None,
    {
        WindowVideo {
            canvas: WindowCanvas::new(width, height),
            core_width: 0,
            core_height: 0,
            offset_x: 0,
            offset_y: 0,
            skip_frame: false,
            frame_drawn: false,
            snapshot_buffer: None,
        }
    }

    /// Record the core's frame size and centre it in the window.
    pub fn set_core_format(&mut self, width: u32, height: u32)
        requires
            width <= i32::MAX,
            height <= i32::MAX,
            old(self)@.canvas.wf(),
        ensures
            final(self)@ == (WindowVideoView {
                core_width: width,
                core_height: height,
                offset_x: (if old(self)@.canvas.width >= width {
                    (old(self)@.canvas.width - width) / 2
                } else {
                    -((width - old(self)@.canvas.width) / 2)
                }) as i32,
                offset_y: (if old(self)@.canvas.height >= height {
                    (old(self)@.canvas.height - height) / 2
                } else {
                    -((height - old(self)@.canvas.height) / 2)
                }) as i32,
                ..old(self)@
            }),
    {
        self.core_width = width;
        self.core_height = height;
        self.offset_x = centered_offset(self.canvas.width(), width);
        self.offset_y = centered_offset(self.canvas.height(), height);
    }

    /// Skip the next frame (it is neither drawn nor counted as drawn).
    pub fn set_skip_frame(&mut self)
        ensures
            final(self)@ == (WindowVideoView { skip_frame: true, frame_drawn: false, ..old(self)@ }),
    {
        self.skip_frame = true;
        self.frame_drawn = false;
    }

    /// Whether the last frame was drawn.
    pub fn frame_drawn(&self) -> (b: bool)
        ensures
            b == self@.frame_drawn,
    {
        self.frame_drawn
    }
}

/// Whether a pushed frame gets drawn: not skipped, a known format announced
/// and a non-empty frame.
pub open spec fn push_draws(v: WindowVideoView, fw: u32, fh: u32, core_bpp: u32) -> bool {
    !v.skip_frame && core_bpp != 0 && fw != 0 && fh != 0
}

impl WindowCanvas {
    /// Replace every pixel by what pushing the frame gives (see
    /// `pushed_pixel`).
    fn fill_frame(&mut self, frame: &[u8], fw: usize, fh: usize, pitch: usize, bpp: u32, ox: usize, oy: usize)
        requires
            old(self)@.wf(),
            ox + fw <= old(self)@.width,
            oy + fh <= old(self)@.height,
            bpp == 32 || bpp == 16 ==> frame_readable(frame@, fw as int, fh as int, pitch as int, bpp),
        ensures
            final(self)@.width == old(self)@.width,
            final(self)@.height == old(self)@.height,
            final(self)@.pixels.len() == old(self)@.pixels.len(),
            final(self)@.wf(),
            forall|k: int| 0 <= k < final(self)@.pixels.len() ==> final(self)@.pixels[k] == pushed_pixel(
                old(self)@.pixels,
                old(self)@.width as int,
                frame@,
                fw as int,
                fh as int,
                pitch as int,
                bpp,
                ox as int,
                oy as int,
                k,
            ),
    {
        let ghost start = self@.pixels;
        let n = self.buffer.len();
        let w = self.width as usize;
        let flen: usize = frame.len();
        let mut k: usize = 0;
        let mut x: usize = 0;
        let mut y: usize = 0;
        proof {
            if n > 0 {
                assert(w > 0) by (nonlinear_arith)
                    requires
                        n == w * self@.height,
                        n > 0,
                ;
            }
        }
        while k < n
            invariant
                n == self.buffer@.len(),
                n == start.len(),
                flen == frame@.len(),
                self@.wf(),
                self@.width == old(self)@.width,
                self@.height == old(self)@.height,
                w == self@.width,
                0 <= k <= n,
                k < n ==> x < w,
                x <= w,
                k == y * w + x,
                ox + fw <= w,
                oy + fh <= self@.height,
                bpp == 32 || bpp == 16 ==> frame_readable(frame@, fw as int, fh as int, pitch as int, bpp),
                forall|j: int| 0 <= j < k ==> self.buffer@[j] == pushed_pixel(start, w as int, frame@, fw as int, fh as int, pitch as int, bpp, ox as int, oy as int, j),
                forall|j: int| k <= j < n ==> self.buffer@[j] == start[j],
            decreases n - k,
        {
            proof {
                lemma_index_coords(x as int, y as int, w as int);
                assert(y < self@.height) by (nonlinear_arith)
                    requires
                        k == y * w + x,
                        k < n,
                        n == w * self@.height,
                ;
            }
            let inside = ox <= x && x < ox + fw && oy <= y && y < oy + fh;
            if inside {
                let fx = x - ox;
                let fy = y - oy;
                if bpp == 32 {
                    let row = pitch / 4;
                    proof {
                        lemma_frame_index(fx as int, fy as int, fw as int, fh as int, row as int, 4);
                    }
                    let p = read_le_u32(frame, (fy * row + fx) * 4);
                    self.buffer.set(k, 0xFF000000 | p);
                } else if bpp == 16 {
                    let row = pitch / 2;
                    proof {
                        lemma_frame_index(fx as int, fy as int, fw as int, fh as int, row as int, 2);
                    }
                    let p = read_le_u16(frame, (fy * row + fx) * 2);
                    self.buffer.set(k, 0xFF000000 | rgb565_to_xrgb8888(p));
                }
            } else {
                self.buffer.set(k, 0);
            }
            let ghost k0 = k;
            let ghost x0 = x;
            let ghost y0 = y;
            k = k + 1;
            x = x + 1;
            if x == w {
                x = 0;
                y = y + 1;
                proof {
                    assert(k0 + 1 == (y0 + 1) * w) by (nonlinear_arith)
                        requires
                            k0 == y0 * w + x0,
                            x0 + 1 == w,
                    ;
                }
            }
        }
    }
}

impl WindowVideo {
    /// Show a core frame (`pitch` bytes per row, `core_bpp` bits per pixel),
    /// centred, with black around it: XRGB8888 pixels are shown as they are,
    /// RGB565 ones widened, all opaque. A skipped frame only clears the skip;
    /// nothing happens before a format is known or for an empty frame.
    pub fn push_frame(&mut self, frame: &[u8], frame_w: u32, frame_h: u32, pitch: usize, core_bpp: u32)
        requires
            old(self)@.canvas.wf(),
            push_draws(old(self)@, frame_w, frame_h, core_bpp) ==> {
                &&& frame_w <= old(self)@.canvas.width
                &&& frame_h <= old(self)@.canvas.height
                &&& (core_bpp == 32 || core_bpp == 16 ==> frame_readable(frame@, frame_w as int, frame_h as int, pitch as int, core_bpp))
            },
        ensures
            final(self)@.canvas.wf(),
            old(self)@.skip_frame ==> final(self)@ == (WindowVideoView { skip_frame: false, frame_drawn: false, ..old(self)@ }),
            !old(self)@.skip_frame && !push_draws(old(self)@, frame_w, frame_h, core_bpp) ==> final(self)@ == old(self)@,
            push_draws(old(self)@, frame_w, frame_h, core_bpp) ==> {
                let w = old(self)@.canvas.width as int;
                let ox = (w - frame_w) / 2;
                let oy = (old(self)@.canvas.height - frame_h) / 2;
                &&& final(self)@ == (WindowVideoView {
                    canvas: final(self)@.canvas,
                    frame_drawn: true,
                    ..old(self)@
                })
                &&& final(self)@.canvas.width == old(self)@.canvas.width
                &&& final(self)@.canvas.height == old(self)@.canvas.height
                &&& final(self)@.canvas.pixels.len() == old(self)@.canvas.pixels.len()
                &&& forall|k: int| 0 <= k < final(self)@.canvas.pixels.len() ==> final(self)@.canvas.pixels[k]
                    == pushed_pixel(old(self)@.canvas.pixels, w, frame@, frame_w as int, frame_h as int, pitch as int, core_bpp, ox, oy, k)
            },
    {
        if self.skip_frame {
            self.skip_frame = false;
            self.frame_drawn = false;
            return;
        }
        if core_bpp == 0 {
            return;
        }
        if frame_w == 0 || frame_h == 0 {
            return;
        }
        let fw = frame_w as usize;
        let fh = frame_h as usize;
        self.frame_drawn = true;
        let ox = (self.canvas.width as usize - fw) / 2;
        let oy = (self.canvas.height as usize - fh) / 2;
        self.canvas.fill_frame(frame, fw, fh, pitch, core_bpp, ox, oy);
    }
}

/// A drawing command whose text fits the coordinate range the font code
/// works in.
pub open spec fn op_in_range(op: DrawOpView) -> bool {
    match op {
        DrawOpView::Text { x, y, text, .. } => {
            &&& text.len() <= 0x1000_0000
            &&& i32::MIN + 32 <= x
            &&& x + text_width(FontSize::Small, text) <= i32::MAX - 32
            &&& i32::MIN + 32 <= y <= i32::MAX - 32
        },
        _ => true,
    }
}

/// Whether a drawing command can be carried out (see `op_in_range`).
pub fn op_drawable(op: &DrawOp) -> (b: bool)
    ensures
        b == op_in_range(op@),
{
    match op {
        DrawOp::Text { x, y, text, .. } => {
            if text.len() > 0x1000_0000 {
                return false;
            }
            let mut width: i64 = 0;
            let mut i: usize = 0;
            while i < text.len()
                invariant
                    0 <= i <= text@.len() <= 0x1000_0000,
                    width == text_width(FontSize::Small, text@.take(i as int)),
                    0 <= width <= 9 * i,
                decreases text@.len() - i,
            {
                proof {
                    assert(text@.take(i + 1).drop_last() =~= text@.take(i as int));
                    crate::font::lemma_step_widths_bounded(FontSize::Small, glyph_index(text@[i as int]));
                }
                width = width + glyph(FontSize::Small, text[i]).step_width as i64;
                i = i + 1;
            }
            assert(text@.take(i as int) =~= text@);
            (i32::MIN as i64) + 32 <= *x as i64 && (*x as i64) + width <= (i32::MAX as i64) - 32 && (i32::MIN as i64) + 32
                <= *y as i64 && (*y as i64) <= (i32::MAX as i64) - 32
        },
        _ => true,
    }
}

/// The window's pixels after a drawing command.
pub open spec fn canvas_after_op(c: CanvasView, op: DrawOpView) -> Seq<u32> {
    let w = c.width as int;
    let h = c.height as int;
    match op {
        DrawOpView::Clear { .. } => Seq::new(c.pixels.len(), |k: int| 0u32),
        DrawOpView::Rect { x1, y1, x2, y2, color } => {
            let cx1 = clamp(x1 as int, w);
            let cx2 = clamp(x2 as int, w);
            let cy1 = clamp(y1 as int, h);
            let cy2 = clamp(y2 as int, h);
            if cx1 < cx2 && cy1 < cy2 {
                canvas_apply(c.pixels, w, rect_writes(cx1, cx2, cy1, cy2 - cy1, argb(color)))
            } else {
                c.pixels
            }
        },
        DrawOpView::HLine { x1, x2, y, color } => if 0 <= y < h {
            canvas_apply(c.pixels, w, hline_writes(clamp(x1 as int, w), clamp(x2 as int, w), y as int, argb(color)))
        } else {
            c.pixels
        },
        DrawOpView::VLine { x, y1, y2, color } => if 0 <= x < w {
            canvas_apply(c.pixels, w, vline_writes(x as int, clamp(y1 as int, h), clamp(y2 as int, h), argb(color)))
        } else {
            c.pixels
        },
        DrawOpView::Text { x, y, text, color } => canvas_apply(
            c.pixels,
            w,
            text_writes(FontSize::Small, text, x as int, y as int, color),
        ),
    }
}

impl WindowCanvas {
    /// Carry out one drawing command of the overlay.
    pub fn apply_op(&mut self, op: &DrawOp)
        requires
            old(self)@.wf(),
            op_in_range(op@),
        ensures
            final(self)@.wf(),
            final(self)@.width == old(self)@.width,
            final(self)@.height == old(self)@.height,
            final(self)@.pixels =~= canvas_after_op(old(self)@, op@),
    {
        match op {
            DrawOp::Clear { .. } => self.clear_overlay(),
            DrawOp::Rect { x1, y1, x2, y2, color } => self.draw_rect_overlay(*x1, *y1, *x2, *y2, *color),
            DrawOp::HLine { x1, x2, y, color } => self.draw_hline_overlay(*x1, *x2, *y, *color),
            DrawOp::VLine { x, y1, y2, color } => self.draw_vline_overlay(*x, *y1, *y2, *color),
            DrawOp::Text { x, y, text, color } => self.draw_text_overlay(*x, *y, text.as_slice(), *color),
        }
    }
}

/// A captured frame ready for encoding.
pub struct FrameSnapshot {
    /// Width in pixels
    pub width: u32,
    /// Height in pixels
    pub height: u32,
    /// Pixel data (XRGB8888 or RGB565 depending on core_bpp)
    pub pixels: Vec<u8>,
    /// Bits per pixel of the source (16 or 32)
    pub core_bpp: u32,
}

/// `n` zero bytes.
fn zero_bytes(n: usize) -> (v: Vec<u8>)
    ensures
        v@.len() == n,
        forall|i: int| 0 <= i < n ==> v@[i] == 0,
{
    let mut v: Vec<u8> = Vec::new();
    let mut i: usize = 0;
    while i < n
        invariant
            0 <= i <= n,
            v@.len() == i,
            forall|k: int| 0 <= k < i ==> v@[k] == 0,
        decreases n - i,
    {
        v.push(0);
        i = i + 1;
    }
    v
}

impl FrameSnapshot {
    /// A black snapshot: `width * (core_bpp / 8)` bytes per row, `height`
    /// rows.
    pub fn new(width: u32, height: u32, core_bpp: u32) -> (s: Self)
        requires
            width * (core_bpp / 8) <= usize::MAX,
            width * (core_bpp / 8) * height <= usize::MAX,
        ensures
            s.width == width,
            s.height == height,
            s.core_bpp == core_bpp,
            s.pixels@.len() == width * (core_bpp / 8) * height,
            forall|i: int| 0 <= i < s.pixels@.len() ==> s.pixels@[i] == 0,
    {
        let bytes_per_pixel: usize = (core_bpp / 8) as usize;
        let pitch: usize = width as usize * bytes_per_pixel;
        FrameSnapshot { width, height, pixels: zero_bytes(pitch * height as usize), core_bpp }
    }
}

/// Byte `j` (0 red, 1 green, 2 blue, 3 alpha) of an opaque RGBA pixel made
/// from an XRGB value.
pub open spec fn rgba_byte(p: u32, j: int) -> u8 {
    if j == 0 {
        (p >> 16u32) as u8
    } else if j == 1 {
        (p >> 8u32) as u8
    } else if j == 2 {
        p as u8
    } else {
        0xFFu8
    }
}

/// Byte `b` of a snapshot of the `cw` x `ch` area at (ox, oy) of a window
/// `width` pixels wide, over the earlier contents `old` of the buffer: RGBA
/// of each pixel row by row, earlier bytes beyond the area.
pub open spec fn snapshot_byte(old: Seq<u8>, pixels: Seq<u32>, width: int, cw: int, ch: int, ox: int, oy: int, b: int) -> u8 {
    if b < cw * ch * 4 {
        let p = b / 4;
        rgba_byte(pixels[(oy + p / cw) * width + ox + p % cw], b % 4)
    } else {
        old[b]
    }
}

impl WindowVideo {
    /// Set up the snapshot buffer for a `width` x `height` core frame (RGBA,
    /// four bytes a pixel).
    pub fn set_snapshot_callback(&mut self, width: u32, height: u32)
        requires
            width * 4 <= u32::MAX,
            width * 4 * height <= usize::MAX,
        ensures
            final(self)@ == (WindowVideoView { snapshot: final(self)@.snapshot, ..old(self)@ }),
            final(self)@.snapshot matches Some(b) && b.len() == width * 4 * height && forall|i: int| 0 <= i < b.len() ==> b[i] == 0,
    {
        let bytes_per_pixel: u32 = 4;
        let pitch: usize = (width * bytes_per_pixel) as usize;
        self.snapshot_buffer = Some(zero_bytes(pitch * height as usize));
    }

    /// Take a snapshot of the core frame's area of the window as RGBA (none
    /// without a snapshot buffer or a core format).
    pub fn take_snapshot(&mut self) -> (r: Option<FrameSnapshot>)
        requires
            old(self)@.canvas.wf(),
            ({
                let v = old(self)@;
                let ox = if v.offset_x > 0 { v.offset_x as int } else { 0 };
                let oy = if v.offset_y > 0 { v.offset_y as int } else { 0 };
                match v.snapshot {
                    Some(sb) => sb.len() > 0 && v.core_width > 0 && v.core_height > 0 ==> {
                        &&& v.core_width * v.core_height * 4 <= sb.len()
                        &&& (oy + v.core_height - 1) * v.canvas.width + ox + v.core_width <= v.canvas.pixels.len()
                    },
                    None => true,
                }
            }),
        ensures
            ({
                let v = old(self)@;
                let ox = if v.offset_x > 0 { v.offset_x as int } else { 0 };
                let oy = if v.offset_y > 0 { v.offset_y as int } else { 0 };
                match v.snapshot {
                    Some(sb) => if sb.len() > 0 && v.core_width > 0 && v.core_height > 0 {
                        r matches Some(snap) && {
                            &&& snap.width == v.core_width
                            &&& snap.height == v.core_height
                            &&& snap.core_bpp == 32
                            &&& snap.pixels@.len() == sb.len()
                            &&& final(self)@.snapshot == Some(snap.pixels@)
                            &&& forall|b: int| 0 <= b < sb.len() ==> snap.pixels@[b] == snapshot_byte(
                                sb,
                                v.canvas.pixels,
                                v.canvas.width as int,
                                v.core_width as int,
                                v.core_height as int,
                                ox,
                                oy,
                                b,
                            )
                        }
                    } else {
                        r is None && final(self)@.snapshot == v.snapshot
                    },
                    None => r is None && final(self)@.snapshot is None,
                }
            }),
            final(self)@ == (WindowVideoView { snapshot: final(self)@.snapshot, ..old(self)@ }),
    {
        let ghost v = self@;
        let mut buf = match self.snapshot_buffer.take() {
            Some(b) => b,
            None => return None,
        };
        let ghost old_buf = buf@;
        if buf.len() == 0 || self.core_width == 0 || self.core_height == 0 {
            self.snapshot_buffer = Some(buf);
            return None;
        }
        let cw = self.core_width as usize;
        let ch = self.core_height as usize;
        let ox: usize = if self.offset_x > 0 { self.offset_x as usize } else { 0 };
        let oy: usize = if self.offset_y > 0 { self.offset_y as usize } else { 0 };
        let w = self.canvas.width as usize;
        let pixels = self.canvas.pixels();
        let plen: usize = pixels.len();
        let blen: usize = buf.len();
        let total: usize = cw * ch;
        let mut k: usize = 0;
        let mut x: usize = 0;
        let mut y: usize = 0;
        while k < total
            invariant
                total == cw * ch,
                cw > 0,
                0 <= k <= total,
                k < total ==> x < cw,
                x <= cw,
                k == y * cw + x,
                pixels@ == v.canvas.pixels,
                plen == pixels@.len(),
                blen == buf@.len(),
                pixels@.len() == w * v.canvas.height,
                w == v.canvas.width,
                buf@.len() == old_buf.len(),
                cw * ch * 4 <= buf@.len(),
                (oy + ch - 1) * w + ox + cw <= pixels@.len(),
                forall|b: int| 0 <= b < 4 * k ==> buf@[b] == snapshot_byte(old_buf, pixels@, w as int, cw as int, ch as int, ox as int, oy as int, b),
                forall|b: int| 4 * k <= b < buf@.len() ==> buf@[b] == old_buf[b],
            decreases total - k,
        {
            proof {
                lemma_index_coords(x as int, y as int, cw as int);
                assert(y < ch) by (nonlinear_arith)
                    requires
                        k == y * cw + x,
                        k < total,
                        total == cw * ch,
                ;
                assert(0 <= (oy + y) * w && (oy + y) * w + ox + x < pixels@.len()) by (nonlinear_arith)
                    requires
                        y < ch,
                        x < cw,
                        (oy + ch - 1) * w + ox + cw <= pixels@.len(),
                ;
                assert(w >= 1) by (nonlinear_arith)
                    requires
                        pixels@.len() == w * v.canvas.height,
                        (oy + ch - 1) * w + ox + cw <= pixels@.len(),
                        cw > 0,
                        w >= 0,
                ;
                assert(oy + y <= (oy + y) * w) by (nonlinear_arith)
                    requires
                        w >= 1,
                        oy + y >= 0,
                ;
                assert(4 * k + 4 <= buf@.len()) by (nonlinear_arith)
                    requires
                        k < total,
                        total == cw * ch,
                        cw * ch * 4 <= buf@.len(),
                ;
            }
            let p = pixels[(oy + y) * w + ox + x];
            let base = 4 * k;
            buf.set(base, (p >> 16) as u8);
            buf.set(base + 1, (p >> 8) as u8);
            buf.set(base + 2, p as u8);
            buf.set(base + 3, 0xFF);
            proof {
                assert forall|b: int| 0 <= b < 4 * (k + 1) implies buf@[b] == snapshot_byte(old_buf, pixels@, w as int, cw as int, ch as int, ox as int, oy as int, b) by {
                    if b >= 4 * k {
                        let j = b - 4 * k;
                        vstd::arithmetic::div_mod::lemma_fundamental_div_mod_converse(b, 4, k as int, j);
                        assert(b < cw * ch * 4) by (nonlinear_arith)
                            requires
                                b < 4 * (k + 1),
                                k < total,
                                total == cw * ch,
                        ;
                    }
                }
            }
            let ghost k0 = k;
            let ghost x0 = x;
            let ghost y0 = y;
            k = k + 1;
            x = x + 1;
            if x == cw {
                x = 0;
                y = y + 1;
                proof {
                    assert(k0 + 1 == (y0 + 1) * cw) by (nonlinear_arith)
                        requires
                            k0 == y0 * cw + x0,
                            x0 + 1 == cw,
                    ;
                }
            }
        }
        let snap = FrameSnapshot { width: self.core_width, height: self.core_height, pixels: buf.clone(), core_bpp: 32 };
        proof {
            assert forall|b: int| 0 <= b < snap.pixels@.len() implies snap.pixels@[b] == snapshot_byte(old_buf, pixels@, w as int, cw as int, ch as int, ox as int, oy as int, b) by {
                if b >= 4 * k {
                    assert(b >= cw * ch * 4);
                }
            }
        }
        self.snapshot_buffer = Some(buf);
        Some(snap)
    }
}

/// A readable frame's first rows are readable.
pub proof fn lemma_frame_readable_prefix(frame: Seq<u8>, fw: int, fh: int, rows: int, pitch: int, bpp: u32)
    requires
        frame_readable(frame, fw, fh, pitch, bpp),
        0 <= rows <= fh,
        pitch >= 0,
    ensures
        frame_readable(frame, fw, rows, pitch, bpp),
{
    assert(rows * (pitch / 4) * 4 <= fh * (pitch / 4) * 4) by (nonlinear_arith)
        requires
            0 <= rows <= fh,
            pitch >= 0,
    ;
    assert(rows * (pitch / 2) * 2 <= fh * (pitch / 2) * 2) by (nonlinear_arith)
        requires
            0 <= rows <= fh,
            pitch >= 0,
    ;
}

/// XRGB8888 pixel (fx, fy) of a readable 32-bit frame.
pub fn read_frame_u32(frame: &[u8], pitch: usize, fw: usize, fh: usize, fx: usize, fy: usize) -> (v: u32)
    requires
        frame_readable(frame@, fw as int, fh as int, pitch as int, 32),
        fx < fw,
        fy < fh,
    ensures
        v == le_u32(frame@, (fy * (pitch / 4) + fx) * 4),
{
    let flen: usize = frame.len();
    let row = pitch / 4;
    proof {
        lemma_frame_index(fx as int, fy as int, fw as int, fh as int, row as int, 4);
    }
    read_le_u32(frame, (fy * row + fx) * 4)
}

/// RGB565 pixel (fx, fy) of a readable 16-bit frame.
pub fn read_frame_u16(frame: &[u8], pitch: usize, fw: usize, fh: usize, fx: usize, fy: usize) -> (v: u16)
    requires
        frame_readable(frame@, fw as int, fh as int, pitch as int, 16),
        fx < fw,
        fy < fh,
    ensures
        v == le_u16(frame@, (fy * (pitch / 2) + fx) * 2),
{
    let flen: usize = frame.len();
    let row = pitch / 2;
    proof {
        lemma_frame_index(fx as int, fy as int, fw as int, fh as int, row as int, 2);
    }
    read_le_u16(frame, (fy * row + fx) * 2)
}

} // verus!
