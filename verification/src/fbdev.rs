//! The Linux framebuffer backend's drawing: a byte surface laid out as the
//! device lays it out (rows `pitch` bytes apart, 16- or 32-bit
//! little-endian pixels), the core frame copied into it centred, and the
//! overlay drawn on it.
use vstd::prelude::*;
use crate::overlay::{DrawOp, DrawOpView};
use crate::font::{
    FontSize, FontGlyph, PixelWrite, char_writes, text_writes, hline_writes, vline_writes, rect_writes,
    glyph, glyph_index, spec_font_data, glyph_pixel_writes, glyph_row_writes, glyph_writes,
    text_width, lemma_glyph_bounds, lemma_text_width_prefix, glyph_pixel_on,
};
use crate::video::{
    spec_xrgb8888_to_rgb565, spec_rgb565_to_xrgb8888, xrgb8888_to_rgb565, rgb565_to_xrgb8888, le_u32,
    le_u16, frame_readable, clamp, centered_offset, op_in_range, read_frame_u32, read_frame_u16,
};

verus! {

/// The bytes of a raw pixel value: four little-endian bytes at 32 bits per
/// pixel, two at 16, none for other depths.
pub open spec fn raw_bytes(raw: u32, bpp: u32) -> Seq<u8> {
    if bpp == 32 {
        seq![raw as u8, (raw >> 8u32) as u8, (raw >> 16u32) as u8, (raw >> 24u32) as u8]
    } else if bpp == 16 {
        seq![raw as u8, (raw >> 8u32) as u8]
    } else {
        Seq::empty()
    }
}

/// The raw value an overlay color has on the framebuffer: RGB565 at 16 bits
/// per pixel, the color itself otherwise.
pub open spec fn fb_raw(color: u32, bpp: u32) -> u32 {
    if bpp == 16 {
        spec_xrgb8888_to_rgb565(color) as u32
    } else {
        color
    }
}

/// `bytes` after writing raw pixel value `w.2` at (w.0, w.1): its bytes go
/// to offset `y * pitch + x * (bpp / 8)` (a write that does not fit is
/// dropped).
pub open spec fn fb_put(bytes: Seq<u8>, pitch: int, bpp: u32, w: PixelWrite) -> Seq<u8> {
    let b = raw_bytes(w.2, bpp);
    let off = w.1 * pitch + w.0 * (bpp / 8);
    if b.len() > 0 && 0 <= off && off + b.len() <= bytes.len() {
        Seq::new(bytes.len(), |k: int| if off <= k < off + b.len() { b[k - off] } else { bytes[k] })
    } else {
        bytes
    }
}

/// `bytes` after the raw writes, in order.
pub open spec fn fb_apply(bytes: Seq<u8>, pitch: int, bpp: u32, writes: Seq<PixelWrite>) -> Seq<u8>
    decreases writes.len(),
{
    if writes.len() == 0 {
        bytes
    } else {
        fb_put(fb_apply(bytes, pitch, bpp, writes.drop_last()), pitch, bpp, writes.last())
    }
}

/// Overlay writes with their colors turned into raw framebuffer values.
pub open spec fn raw_writes(writes: Seq<PixelWrite>, bpp: u32) -> Seq<PixelWrite> {
    writes.map_values(|w: PixelWrite| (w.0, w.1, fb_raw(w.2, bpp)))
}

/// Applying two lists of writes one after the other applies their
/// concatenation.
pub proof fn lemma_fb_apply_concat(bytes: Seq<u8>, pitch: int, bpp: u32, a: Seq<PixelWrite>, b: Seq<PixelWrite>)
    ensures
        fb_apply(fb_apply(bytes, pitch, bpp, a), pitch, bpp, b) == fb_apply(bytes, pitch, bpp, a + b),
    decreases b.len(),
{
    if b.len() == 0 {
        assert(a + b =~= a);
    } else {
        lemma_fb_apply_concat(bytes, pitch, bpp, a, b.drop_last());
        assert((a + b).drop_last() =~= a + b.drop_last());
        assert((a + b).last() == b.last());
    }
}

/// Applying one write puts it.
pub proof fn lemma_fb_apply_one(bytes: Seq<u8>, pitch: int, bpp: u32, w: PixelWrite)
    ensures
        fb_apply(bytes, pitch, bpp, seq![w]) == fb_put(bytes, pitch, bpp, w),
{
    assert(seq![w].drop_last() =~= Seq::<PixelWrite>::empty());
    assert(seq![w].last() == w);
    assert(fb_apply(bytes, pitch, bpp, Seq::<PixelWrite>::empty()) == bytes);
}

/// Converting the colors of a concatenation converts each part.
pub proof fn lemma_raw_writes_concat(a: Seq<PixelWrite>, b: Seq<PixelWrite>, bpp: u32)
    ensures
        raw_writes(a + b, bpp) == raw_writes(a, bpp) + raw_writes(b, bpp),
{
    assert(raw_writes(a + b, bpp) =~= raw_writes(a, bpp) + raw_writes(b, bpp));
}

/// A framebuffer as values: its bytes and layout.
pub struct FbSurfaceView {
    pub bytes: Seq<u8>,
    pub width: nat,
    pub height: nat,
    pub pitch: nat,
    pub bpp: u32,
}

impl FbSurfaceView {
    /// Rows `pitch` bytes apart hold `width` pixels each (a whole number of
    /// pixels at 16 or 32 bits), `height` rows fit in the bytes, and the
    /// sides fit in `i32`.
    pub open spec fn wf(self) -> bool {
        &&& self.width <= i32::MAX
        &&& self.height <= i32::MAX
        &&& self.pitch <= u32::MAX
        &&& self.width * (self.bpp / 8) <= self.pitch
        &&& self.pitch * self.height <= self.bytes.len()
        &&& (self.bpp == 32 ==> self.pitch % 4 == 0)
        &&& (self.bpp == 16 ==> self.pitch % 2 == 0)
    }
}

/// The framebuffer's pixels (a copy of the device memory that the backend
/// shows after drawing).
pub struct FbSurface {
    bytes: Vec<u8>,
    width: u32,
    height: u32,
    pitch: u32,
    bpp: u32,
}

impl View for FbSurface {
    type V = FbSurfaceView;

    closed spec fn view(&self) -> FbSurfaceView {
        FbSurfaceView {
            bytes: self.bytes@,
            width: self.width as nat,
            height: self.height as nat,
            pitch: self.pitch as nat,
            bpp: self.bpp,
        }
    }
}

impl FbSurface {
    /// A surface over the device's bytes with the device's layout.
    pub fn new(bytes: Vec<u8>, width: u32, height: u32, pitch: u32, bpp: u32) -> (s: Option<Self>)
        ensures
            match s {
                Some(s) => s@ == (FbSurfaceView {
                    bytes: bytes@,
                    width: width as nat,
                    height: height as nat,
                    pitch: pitch as nat,
                    bpp,
                }) && s@.wf(),
                None => !(FbSurfaceView {
                    bytes: bytes@,
                    width: width as nat,
                    height: height as nat,
                    pitch: pitch as nat,
                    bpp,
                }).wf(),
            },
    {
        let bpb: u64 = (bpp / 8) as u64;
        assert((width as u64) * bpb <= 0xFFFF_FFFF * 0x2000_0000) by (nonlinear_arith)
            requires
                width as u64 <= 0xFFFF_FFFF,
                bpb <= 0x2000_0000,
        ;
        assert((pitch as u64) * (height as u64) <= 0xFFFF_FFFF * 0xFFFF_FFFF) by (nonlinear_arith)
            requires
                pitch as u64 <= 0xFFFF_FFFF,
                height as u64 <= 0xFFFF_FFFF,
        ;
        let ok = width <= i32::MAX as u32 && height <= i32::MAX as u32 && (width as u64) * bpb <= pitch as u64
            && (pitch as u64) * (height as u64) <= bytes.len() as u64 && (bpp != 32 || pitch % 4 == 0) && (bpp
            != 16 || pitch % 2 == 0);
        if ok {
            Some(FbSurface { bytes, width, height, pitch, bpp })
        } else {
            None
        }
    }

    /// The bytes, for copying to the device.
    pub fn bytes(&self) -> (b: &[u8])
        ensures
            b@ == self@.bytes,
    {
        self.bytes.as_slice()
    }

    /// One raw write (dropped when it does not fit).
    fn put_raw(&mut self, x: i32, y: i32, raw: u32)
        requires
            old(self)@.wf(),
            x >= 0,
            y >= 0,
        ensures
            final(self)@ == (FbSurfaceView {
                bytes: fb_put(old(self)@.bytes, old(self)@.pitch as int, old(self)@.bpp, (x as int, y as int, raw)),
                ..old(self)@
            }),
            final(self)@.wf(),
    {
        let yy: u64 = y as u64;
        let pp: u64 = self.pitch as u64;
        assert(yy * pp <= 0x7FFF_FFFF * 0xFFFF_FFFF) by (nonlinear_arith)
            requires
                yy <= 0x7FFF_FFFF,
                pp <= 0xFFFF_FFFF,
        ;
        let bpb: u64 = (self.bpp / 8) as u64;
        assert((x as u64) * bpb <= 0x7FFF_FFFF * 0x2000_0000) by (nonlinear_arith)
            requires
                x as u64 <= 0x7FFF_FFFF,
                bpb <= 0x2000_0000,
        ;
        let off: u64 = yy * pp + (x as u64) * bpb;
        let len: u64 = self.bytes.len() as u64;
        let ghost before = self@.bytes;
        if self.bpp == 32 {
            if off + 4 <= len {
                let o = off as usize;
                self.bytes.set(o, raw as u8);
                self.bytes.set(o + 1, (raw >> 8) as u8);
                self.bytes.set(o + 2, (raw >> 16) as u8);
                self.bytes.set(o + 3, (raw >> 24) as u8);
                assert(self@.bytes =~= fb_put(before, self@.pitch as int, self@.bpp, (x as int, y as int, raw)));
            }
        } else if self.bpp == 16 {
            if off + 2 <= len {
                let o = off as usize;
                self.bytes.set(o, raw as u8);
                self.bytes.set(o + 1, (raw >> 8) as u8);
                assert(self@.bytes =~= fb_put(before, self@.pitch as int, self@.bpp, (x as int, y as int, raw)));
            }
        }
    }
}

/// The raw framebuffer value of an overlay color.
fn raw_of(color: u32, bpp: u32) -> (raw: u32)
    ensures
        raw == fb_raw(color, bpp),
{
    if bpp == 16 {
        xrgb8888_to_rgb565(color) as u32
    } else {
        color
    }
}

/// A coordinate clamped to [0, limit].
fn clamp_coord(v: i32, limit: i32) -> (r: i32)
    requires
        limit >= 0,
    ensures
        r == clamp(v as int, limit as int),
{
    if v < 0 {
        0
    } else if v > limit {
        limit
    } else {
        v
    }
}

impl FbSurface {
    /// Write one overlay pixel in the framebuffer's format.
    pub fn write_pixel(&mut self, x: i32, y: i32, color: u32)
        requires
            old(self)@.wf(),
            x >= 0,
            y >= 0,
        ensures
            final(self)@ == (FbSurfaceView {
                bytes: fb_put(old(self)@.bytes, old(self)@.pitch as int, old(self)@.bpp, (x as int, y as int, fb_raw(color, old(self)@.bpp))),
                ..old(self)@
            }),
            final(self)@.wf(),
    {
        let raw = raw_of(color, self.bpp);
        self.put_raw(x, y, raw);
    }

    /// Draw one overlay pixel, when it lies on the screen.
    pub fn draw_pixel_overlay(&mut self, x: i32, y: i32, color: u32)
        requires
            old(self)@.wf(),
        ensures
            final(self)@ == (FbSurfaceView {
                bytes: if 0 <= x < old(self)@.width && 0 <= y < old(self)@.height {
                    fb_put(old(self)@.bytes, old(self)@.pitch as int, old(self)@.bpp, (x as int, y as int, fb_raw(color, old(self)@.bpp)))
                } else {
                    old(self)@.bytes
                },
                ..old(self)@
            }),
            final(self)@.wf(),
    {
        if x < 0 || y < 0 || x as u32 >= self.width || y as u32 >= self.height {
            return;
        }
        self.write_pixel(x, y, color);
    }

    /// Paint raw value `raw` on row `y` over [x1, x2), left to right.
    fn fill_row(&mut self, x1: i32, x2: i32, y: i32, raw: u32)
        requires
            old(self)@.wf(),
            0 <= x1 <= x2,
            0 <= y,
        ensures
            final(self)@ == (FbSurfaceView {
                bytes: fb_apply(old(self)@.bytes, old(self)@.pitch as int, old(self)@.bpp, hline_writes(x1 as int, x2 as int, y as int, raw)),
                ..old(self)@
            }),
            final(self)@.wf(),
    {
        let ghost start = self@.bytes;
        let ghost pitch = self@.pitch as int;
        let ghost bpp = self@.bpp;
        let mut x: i32 = x1;
        assert(hline_writes(x1 as int, x1 as int, y as int, raw) =~= Seq::<PixelWrite>::empty());
        while x < x2
            invariant
                0 <= x1 <= x <= x2,
                0 <= y,
                self@.wf(),
                pitch == self@.pitch,
                bpp == self@.bpp,
                self@.width == old(self)@.width,
                self@.height == old(self)@.height,
                self@.pitch == old(self)@.pitch,
                self@.bpp == old(self)@.bpp,
                self@.bytes == fb_apply(start, pitch, bpp, hline_writes(x1 as int, x as int, y as int, raw)),
            decreases x2 - x,
        {
            self.put_raw(x, y, raw);
            proof {
                let ws = hline_writes(x1 as int, x as int, y as int, raw);
                assert(hline_writes(x1 as int, x + 1, y as int, raw) == ws.push((x as int, y as int, raw)));
                assert(ws.push((x as int, y as int, raw)).drop_last() =~= ws);
            }
            x = x + 1;
        }
    }

    /// Draw a horizontal overlay line on row `y` over [x1, x2), clipped to
    /// the screen.
    pub fn draw_hline_overlay(&mut self, x1: i32, x2: i32, y: i32, color: u32)
        requires
            old(self)@.wf(),
        ensures
            final(self)@ == (FbSurfaceView {
                bytes: if 0 <= y < old(self)@.height {
                    fb_apply(old(self)@.bytes, old(self)@.pitch as int, old(self)@.bpp, hline_writes(
                        clamp(x1 as int, old(self)@.width as int),
                        clamp(x2 as int, old(self)@.width as int),
                        y as int,
                        fb_raw(color, old(self)@.bpp),
                    ))
                } else {
                    old(self)@.bytes
                },
                ..old(self)@
            }),
            final(self)@.wf(),
    {
        if y < 0 || y as u32 >= self.height {
            return;
        }
        let w: i32 = self.width as i32;
        let cx1 = clamp_coord(x1, w);
        let cx2 = clamp_coord(x2, w);
        let raw = raw_of(color, self.bpp);
        if cx1 >= cx2 {
            assert(hline_writes(cx1 as int, cx2 as int, y as int, raw) =~= Seq::<PixelWrite>::empty());
            return;
        }
        self.fill_row(cx1, cx2, y, raw);
    }

    /// Draw a vertical overlay line on column `x` over [y1, y2), clipped to
    /// the screen.
    pub fn draw_vline_overlay(&mut self, x: i32, y1: i32, y2: i32, color: u32)
        requires
            old(self)@.wf(),
        ensures
            final(self)@ == (FbSurfaceView {
                bytes: if 0 <= x < old(self)@.width {
                    fb_apply(old(self)@.bytes, old(self)@.pitch as int, old(self)@.bpp, vline_writes(
                        x as int,
                        clamp(y1 as int, old(self)@.height as int),
                        clamp(y2 as int, old(self)@.height as int),
                        fb_raw(color, old(self)@.bpp),
                    ))
                } else {
                    old(self)@.bytes
                },
                ..old(self)@
            }),
            final(self)@.wf(),
    {
        if x < 0 || x as u32 >= self.width {
            return;
        }
        let h: i32 = self.height as i32;
        let cy1 = clamp_coord(y1, h);
        let cy2 = clamp_coord(y2, h);
        let raw = raw_of(color, self.bpp);
        let ghost start = self@.bytes;
        let ghost pitch = self@.pitch as int;
        let ghost bpp = self@.bpp;
        if cy1 >= cy2 {
            assert(vline_writes(x as int, cy1 as int, cy2 as int, raw) =~= Seq::<PixelWrite>::empty());
            return;
        }
        let mut y: i32 = cy1;
        assert(vline_writes(x as int, cy1 as int, cy1 as int, raw) =~= Seq::<PixelWrite>::empty());
        while y < cy2
            invariant
                0 <= cy1 <= y <= cy2,
                0 <= x,
                self@.wf(),
                pitch == self@.pitch,
                bpp == self@.bpp,
                self@.width == old(self)@.width,
                self@.height == old(self)@.height,
                self@.pitch == old(self)@.pitch,
                self@.bpp == old(self)@.bpp,
                self@.bytes == fb_apply(start, pitch, bpp, vline_writes(x as int, cy1 as int, y as int, raw)),
            decreases cy2 - y,
        {
            self.put_raw(x, y, raw);
            proof {
                let ws = vline_writes(x as int, cy1 as int, y as int, raw);
                assert(vline_writes(x as int, cy1 as int, y + 1, raw) == ws.push((x as int, y as int, raw)));
                assert(ws.push((x as int, y as int, raw)).drop_last() =~= ws);
            }
            y = y + 1;
        }
    }

    /// Fill the overlay rectangle [x1, x2) x [y1, y2), clipped to the
    /// screen, row by row.
    pub fn draw_rect_overlay(&mut self, x1: i32, y1: i32, x2: i32, y2: i32, color: u32)
        requires
            old(self)@.wf(),
        ensures
            final(self)@ == (FbSurfaceView {
                bytes: {
                    let cx1 = clamp(x1 as int, old(self)@.width as int);
                    let cx2 = clamp(x2 as int, old(self)@.width as int);
                    let cy1 = clamp(y1 as int, old(self)@.height as int);
                    let cy2 = clamp(y2 as int, old(self)@.height as int);
                    if cx1 < cx2 && cy1 < cy2 {
                        fb_apply(old(self)@.bytes, old(self)@.pitch as int, old(self)@.bpp, rect_writes(cx1, cx2, cy1, cy2 - cy1, fb_raw(color, old(self)@.bpp)))
                    } else {
                        old(self)@.bytes
                    }
                },
                ..old(self)@
            }),
            final(self)@.wf(),
    {
        let w: i32 = self.width as i32;
        let h: i32 = self.height as i32;
        let cx1 = clamp_coord(x1, w);
        let cy1 = clamp_coord(y1, h);
        let cx2 = clamp_coord(x2, w);
        let cy2 = clamp_coord(y2, h);
        if cx1 >= cx2 || cy1 >= cy2 {
            return;
        }
        let raw = raw_of(color, self.bpp);
        let ghost start = self@.bytes;
        let ghost pitch = self@.pitch as int;
        let ghost bpp = self@.bpp;
        let mut y: i32 = cy1;
        assert(rect_writes(cx1 as int, cx2 as int, cy1 as int, 0, raw) =~= Seq::<PixelWrite>::empty());
        while y < cy2
            invariant
                0 <= cy1 <= y <= cy2,
                0 <= cx1 < cx2,
                self@.wf(),
                pitch == self@.pitch,
                bpp == self@.bpp,
                self@.width == old(self)@.width,
                self@.height == old(self)@.height,
                self@.pitch == old(self)@.pitch,
                self@.bpp == old(self)@.bpp,
                self@.bytes == fb_apply(start, pitch, bpp, rect_writes(cx1 as int, cx2 as int, cy1 as int, y - cy1, raw)),
            decreases cy2 - y,
        {
            self.fill_row(cx1, cx2, y, raw);
            proof {
                let ws = rect_writes(cx1 as int, cx2 as int, cy1 as int, y - cy1, raw);
                let row = hline_writes(cx1 as int, cx2 as int, y as int, raw);
                assert(rect_writes(cx1 as int, cx2 as int, cy1 as int, y + 1 - cy1, raw) == ws + row);
                lemma_fb_apply_concat(start, pitch, bpp, ws, row);
            }
            y = y + 1;
        }
    }

    /// Clear the overlay: fill a `fb_width` x `fb_height` rectangle from the
    /// top left corner with black.
    pub fn clear_overlay(&mut self, fb_width: u32, fb_height: u32)
        requires
            old(self)@.wf(),
        ensures
            final(self)@ == (FbSurfaceView {
                bytes: {
                    let cx2 = clamp(fb_width as i32 as int, old(self)@.width as int);
                    let cy2 = clamp(fb_height as i32 as int, old(self)@.height as int);
                    if 0 < cx2 && 0 < cy2 {
                        fb_apply(old(self)@.bytes, old(self)@.pitch as int, old(self)@.bpp, rect_writes(0, cx2, 0, cy2, fb_raw(0, old(self)@.bpp)))
                    } else {
                        old(self)@.bytes
                    }
                },
                ..old(self)@
            }),
            final(self)@.wf(),
    {
        self.draw_rect_overlay(0, 0, fb_width as i32, fb_height as i32, 0x000000);
    }
}

impl FbSurface {
    /// The writes of one bitmap pixel of a glyph, in the framebuffer's
    /// format.
    fn draw_glyph_pixel(
        &mut self,
        size: FontSize,
        fd: FontGlyph,
        x: i32,
        y: i32,
        px: i32,
        py: i32,
        color: u32,
        shadow_color: u32,
        shadow: bool,
    )
        requires
            old(self)@.wf(),
            0 <= fd.width <= 8,
            0 <= fd.x <= 3,
            -12 <= fd.y <= 1,
            fd.data_offset <= spec_font_data(size).len(),
            0 <= px < fd.width,
            0 <= py < 16,
            i32::MIN + 32 <= x <= i32::MAX - 32,
            i32::MIN + 32 <= y <= i32::MAX - 32,
        ensures
            final(self)@ == (FbSurfaceView {
                bytes: fb_apply(old(self)@.bytes, old(self)@.pitch as int, old(self)@.bpp, raw_writes(glyph_pixel_writes(
                    spec_font_data(size),
                    fd,
                    x as int,
                    y as int,
                    px as int,
                    py as int,
                    color,
                    shadow_color,
                    shadow,
                ), old(self)@.bpp)),
                ..old(self)@
            }),
            final(self)@.wf(),
    {
        let ghost pitch = self@.pitch as int;
        let ghost bpp = self@.bpp;
        let ghost before = self@.bytes;
        let raw = raw_of(color, self.bpp);
        let shadow_raw = raw_of(shadow_color, self.bpp);
        if glyph_pixel_on(size, fd, px, py) {
            let mx: i32 = x + px + fd.x;
            let my: i32 = y + py + fd.y;
            if mx >= 0 && my >= 0 {
                self.put_raw(mx, my, raw);
            }
            let ghost mid = self@.bytes;
            if shadow {
                let sx: i32 = mx + 1;
                let sy: i32 = my + 1;
                if sx >= 0 && sy >= 0 {
                    self.put_raw(sx, sy, shadow_raw);
                }
            }
            proof {
                let main = if mx >= 0 && my >= 0 { seq![(mx as int, my as int, color)] } else { Seq::<PixelWrite>::empty() };
                let below = if shadow && mx + 1 >= 0 && my + 1 >= 0 {
                    seq![(mx + 1, my + 1, shadow_color)]
                } else {
                    Seq::<PixelWrite>::empty()
                };
                lemma_raw_writes_concat(main, below, bpp);
                if mx >= 0 && my >= 0 {
                    assert(raw_writes(main, bpp) =~= seq![(mx as int, my as int, raw)]);
                    lemma_fb_apply_one(before, pitch, bpp, (mx as int, my as int, raw));
                } else {
                    assert(raw_writes(main, bpp) =~= Seq::<PixelWrite>::empty());
                }
                if shadow && mx + 1 >= 0 && my + 1 >= 0 {
                    assert(raw_writes(below, bpp) =~= seq![(mx + 1, my + 1, shadow_raw)]);
                    lemma_fb_apply_one(mid, pitch, bpp, (mx + 1, my + 1, shadow_raw));
                } else {
                    assert(raw_writes(below, bpp) =~= Seq::<PixelWrite>::empty());
                }
                lemma_fb_apply_concat(before, pitch, bpp, raw_writes(main, bpp), raw_writes(below, bpp));
            }
        } else {
            assert(raw_writes(Seq::<PixelWrite>::empty(), bpp) =~= Seq::<PixelWrite>::empty());
        }
    }

    /// Draw byte `ch` with its pen at (x, y); with `shadow`, each pixel also
    /// gets a `shadow_color` pixel below right of it.
    fn draw_glyph(&mut self, size: FontSize, x: i32, y: i32, ch: u8, color: u32, shadow_color: u32, shadow: bool)
        requires
            old(self)@.wf(),
            i32::MIN + 32 <= x <= i32::MAX - 32,
            i32::MIN + 32 <= y <= i32::MAX - 32,
        ensures
            final(self)@ == (FbSurfaceView {
                bytes: fb_apply(old(self)@.bytes, old(self)@.pitch as int, old(self)@.bpp, raw_writes(char_writes(
                    size,
                    ch,
                    x as int,
                    y as int,
                    color,
                    shadow_color,
                    shadow,
                ), old(self)@.bpp)),
                ..old(self)@
            }),
            final(self)@.wf(),
    {
        let fd = glyph(size, ch);
        proof {
            lemma_glyph_bounds(size, glyph_index(ch));
        }
        let ghost data = spec_font_data(size);
        let ghost start = self@.bytes;
        let ghost pitch = self@.pitch as int;
        let ghost bpp = self@.bpp;
        let mut py: i32 = 0;
        assert(glyph_writes(data, fd, x as int, y as int, 0, color, shadow_color, shadow) =~= Seq::<PixelWrite>::empty());
        assert(raw_writes(Seq::<PixelWrite>::empty(), bpp) =~= Seq::<PixelWrite>::empty());
        while py < fd.height
            invariant
                0 <= py <= fd.height <= 16,
                0 <= fd.width <= 8,
                0 <= fd.x <= 3,
                -12 <= fd.y <= 1,
                fd.data_offset <= data.len(),
                data == spec_font_data(size),
                i32::MIN + 32 <= x <= i32::MAX - 32,
                i32::MIN + 32 <= y <= i32::MAX - 32,
                self@.wf(),
                pitch == self@.pitch,
                bpp == self@.bpp,
                self@.width == old(self)@.width,
                self@.height == old(self)@.height,
                self@.pitch == old(self)@.pitch,
                self@.bpp == old(self)@.bpp,
                self@.bytes == fb_apply(start, pitch, bpp, raw_writes(glyph_writes(data, fd, x as int, y as int, py as int, color, shadow_color, shadow), bpp)),
            decreases fd.height - py,
        {
            let ghost rows = glyph_writes(data, fd, x as int, y as int, py as int, color, shadow_color, shadow);
            let mut px: i32 = 0;
            assert(glyph_row_writes(data, fd, x as int, y as int, py as int, 0, color, shadow_color, shadow) =~= Seq::<PixelWrite>::empty());
            assert(rows + Seq::<PixelWrite>::empty() =~= rows);
            while px < fd.width
                invariant
                    0 <= px <= fd.width <= 8,
                    0 <= py < fd.height <= 16,
                    0 <= fd.x <= 3,
                    -12 <= fd.y <= 1,
                    fd.data_offset <= data.len(),
                    data == spec_font_data(size),
                    i32::MIN + 32 <= x <= i32::MAX - 32,
                    i32::MIN + 32 <= y <= i32::MAX - 32,
                    self@.wf(),
                    pitch == self@.pitch,
                    bpp == self@.bpp,
                    self@.width == old(self)@.width,
                    self@.height == old(self)@.height,
                    self@.pitch == old(self)@.pitch,
                    self@.bpp == old(self)@.bpp,
                    rows == glyph_writes(data, fd, x as int, y as int, py as int, color, shadow_color, shadow),
                    self@.bytes == fb_apply(start, pitch, bpp, raw_writes(rows + glyph_row_writes(data, fd, x as int, y as int, py as int, px as int, color, shadow_color, shadow), bpp)),
                decreases fd.width - px,
            {
                let ghost done = rows + glyph_row_writes(data, fd, x as int, y as int, py as int, px as int, color, shadow_color, shadow);
                let ghost pw = glyph_pixel_writes(data, fd, x as int, y as int, px as int, py as int, color, shadow_color, shadow);
                self.draw_glyph_pixel(size, fd, x, y, px, py, color, shadow_color, shadow);
                proof {
                    lemma_raw_writes_concat(done, pw, bpp);
                    lemma_fb_apply_concat(start, pitch, bpp, raw_writes(done, bpp), raw_writes(pw, bpp));
                    assert(rows + glyph_row_writes(data, fd, x as int, y as int, py as int, px + 1, color, shadow_color, shadow) =~= done + pw);
                }
                px = px + 1;
            }
            proof {
                assert(glyph_writes(data, fd, x as int, y as int, py + 1, color, shadow_color, shadow)
                    == rows + glyph_row_writes(data, fd, x as int, y as int, py as int, fd.width as int, color, shadow_color, shadow));
            }
            py = py + 1;
        }
    }

    /// Draw a text from pen position (x, y), glyph after glyph.
    fn draw_str(&mut self, size: FontSize, x: i32, y: i32, text: &[u8], color: u32)
        requires
            old(self)@.wf(),
            i32::MIN + 32 <= x,
            x + text_width(size, text@) <= i32::MAX - 32,
            i32::MIN + 32 <= y <= i32::MAX - 32,
        ensures
            final(self)@ == (FbSurfaceView {
                bytes: fb_apply(old(self)@.bytes, old(self)@.pitch as int, old(self)@.bpp, raw_writes(text_writes(size, text@, x as int, y as int, color), old(self)@.bpp)),
                ..old(self)@
            }),
            final(self)@.wf(),
    {
        let ghost start = self@.bytes;
        let ghost pitch = self@.pitch as int;
        let ghost bpp = self@.bpp;
        let mut cx: i32 = x;
        let mut i: usize = 0;
        proof {
            assert(text@.take(0) =~= Seq::<u8>::empty());
            assert(raw_writes(Seq::<PixelWrite>::empty(), bpp) =~= Seq::<PixelWrite>::empty());
        }
        while i < text.len()
            invariant
                0 <= i <= text@.len(),
                i32::MIN + 32 <= x,
                x + text_width(size, text@) <= i32::MAX - 32,
                i32::MIN + 32 <= y <= i32::MAX - 32,
                cx == x + text_width(size, text@.take(i as int)),
                self@.wf(),
                pitch == self@.pitch,
                bpp == self@.bpp,
                self@.width == old(self)@.width,
                self@.height == old(self)@.height,
                self@.pitch == old(self)@.pitch,
                self@.bpp == old(self)@.bpp,
                self@.bytes == fb_apply(start, pitch, bpp, raw_writes(text_writes(size, text@.take(i as int), x as int, y as int, color), bpp)),
            decreases text@.len() - i,
        {
            let ghost before = text_writes(size, text@.take(i as int), x as int, y as int, color);
            proof {
                lemma_text_width_prefix(size, text@, i as int);
                lemma_text_width_prefix(size, text@, i + 1);
                assert(text@.take(i + 1).drop_last() =~= text@.take(i as int));
                assert(text@.take(i + 1).last() == text@[i as int]);
            }
            let ch = text[i];
            self.draw_glyph(size, cx, y, ch, color, 0, false);
            proof {
                let cw = char_writes(size, ch, cx as int, y as int, color, 0, false);
                lemma_raw_writes_concat(before, cw, bpp);
                lemma_fb_apply_concat(start, pitch, bpp, raw_writes(before, bpp), raw_writes(cw, bpp));
            }
            let fd = glyph(size, ch);
            cx = cx + fd.step_width;
            i = i + 1;
        }
        proof {
            assert(text@.take(i as int) =~= text@);
        }
    }

    /// Draw overlay text in the small font.
    pub fn draw_text_overlay(&mut self, x: i32, y: i32, text: &[u8], color: u32)
        requires
            old(self)@.wf(),
            i32::MIN + 32 <= x,
            x + text_width(FontSize::Small, text@) <= i32::MAX - 32,
            i32::MIN + 32 <= y <= i32::MAX - 32,
        ensures
            final(self)@ == (FbSurfaceView {
                bytes: fb_apply(old(self)@.bytes, old(self)@.pitch as int, old(self)@.bpp, raw_writes(text_writes(FontSize::Small, text@, x as int, y as int, color), old(self)@.bpp)),
                ..old(self)@
            }),
            final(self)@.wf(),
    {
        self.draw_str(FontSize::Small, x, y, text, color);
    }

    /// Draw overlay text in the big font.
    pub fn draw_text_big_overlay(&mut self, x: i32, y: i32, text: &[u8], color: u32)
        requires
            old(self)@.wf(),
            i32::MIN + 32 <= x,
            x + text_width(FontSize::Big, text@) <= i32::MAX - 32,
            i32::MIN + 32 <= y <= i32::MAX - 32,
        ensures
            final(self)@ == (FbSurfaceView {
                bytes: fb_apply(old(self)@.bytes, old(self)@.pitch as int, old(self)@.bpp, raw_writes(text_writes(FontSize::Big, text@, x as int, y as int, color), old(self)@.bpp)),
                ..old(self)@
            }),
            final(self)@.wf(),
    {
        self.draw_str(FontSize::Big, x, y, text, color);
    }

    /// Draw one small-font character with a black shadow below right.
    pub fn draw_char_overlay(&mut self, x: i32, y: i32, ch: u8, color: u32)
        requires
            old(self)@.wf(),
            i32::MIN + 32 <= x <= i32::MAX - 32,
            i32::MIN + 32 <= y <= i32::MAX - 32,
        ensures
            final(self)@ == (FbSurfaceView {
                bytes: fb_apply(old(self)@.bytes, old(self)@.pitch as int, old(self)@.bpp, raw_writes(char_writes(FontSize::Small, ch, x as int, y as int, color, 0, true), old(self)@.bpp)),
                ..old(self)@
            }),
            final(self)@.wf(),
    {
        self.draw_glyph(FontSize::Small, x, y, ch, color, 0, true);
    }

    /// Draw one big-font character with a black shadow below right.
    pub fn draw_char_big_overlay(&mut self, x: i32, y: i32, ch: u8, color: u32)
        requires
            old(self)@.wf(),
            i32::MIN + 32 <= x <= i32::MAX - 32,
            i32::MIN + 32 <= y <= i32::MAX - 32,
        ensures
            final(self)@ == (FbSurfaceView {
                bytes: fb_apply(old(self)@.bytes, old(self)@.pitch as int, old(self)@.bpp, raw_writes(char_writes(FontSize::Big, ch, x as int, y as int, color, 0, true), old(self)@.bpp)),
                ..old(self)@
            }),
            final(self)@.wf(),
    {
        self.draw_glyph(FontSize::Big, x, y, ch, color, 0, true);
    }

    /// Carry out one drawing command of the overlay.
    pub fn apply_op(&mut self, op: &DrawOp)
        requires
            old(self)@.wf(),
            op_in_range(op@),
        ensures
            final(self)@.wf(),
            final(self)@.width == old(self)@.width,
            final(self)@.height == old(self)@.height,
            final(self)@.pitch == old(self)@.pitch,
            final(self)@.bpp == old(self)@.bpp,
            final(self)@.bytes == fb_after_op(old(self)@, op@),
    {
        match op {
            DrawOp::Clear { width, height } => self.clear_overlay(*width, *height),
            DrawOp::Rect { x1, y1, x2, y2, color } => self.draw_rect_overlay(*x1, *y1, *x2, *y2, *color),
            DrawOp::HLine { x1, x2, y, color } => self.draw_hline_overlay(*x1, *x2, *y, *color),
            DrawOp::VLine { x, y1, y2, color } => self.draw_vline_overlay(*x, *y1, *y2, *color),
            DrawOp::Text { x, y, text, color } => self.draw_text_overlay(*x, *y, text.as_slice(), *color),
        }
    }
}

/// The framebuffer's bytes after a drawing command.
pub open spec fn fb_after_op(f: FbSurfaceView, op: DrawOpView) -> Seq<u8> {
    let w = f.width as int;
    let h = f.height as int;
    let p = f.pitch as int;
    match op {
        DrawOpView::Clear { width, height } => {
            let cx2 = clamp(width as i32 as int, w);
            let cy2 = clamp(height as i32 as int, h);
            if 0 < cx2 && 0 < cy2 {
                fb_apply(f.bytes, p, f.bpp, rect_writes(0, cx2, 0, cy2, fb_raw(0, f.bpp)))
            } else {
                f.bytes
            }
        },
        DrawOpView::Rect { x1, y1, x2, y2, color } => {
            let cx1 = clamp(x1 as int, w);
            let cx2 = clamp(x2 as int, w);
            let cy1 = clamp(y1 as int, h);
            let cy2 = clamp(y2 as int, h);
            if cx1 < cx2 && cy1 < cy2 {
                fb_apply(f.bytes, p, f.bpp, rect_writes(cx1, cx2, cy1, cy2 - cy1, fb_raw(color, f.bpp)))
            } else {
                f.bytes
            }
        },
        DrawOpView::HLine { x1, x2, y, color } => if 0 <= y < h {
            fb_apply(f.bytes, p, f.bpp, hline_writes(clamp(x1 as int, w), clamp(x2 as int, w), y as int, fb_raw(color, f.bpp)))
        } else {
            f.bytes
        },
        DrawOpView::VLine { x, y1, y2, color } => if 0 <= x < w {
            fb_apply(f.bytes, p, f.bpp, vline_writes(x as int, clamp(y1 as int, h), clamp(y2 as int, h), fb_raw(color, f.bpp)))
        } else {
            f.bytes
        },
        DrawOpView::Text { x, y, text, color } => fb_apply(
            f.bytes,
            p,
            f.bpp,
            raw_writes(text_writes(FontSize::Small, text, x as int, y as int, color), f.bpp),
        ),
    }
}

/// Whether the framebuffer backend copies frames between these depths
/// (16 or 32 bits per pixel on both sides).
pub open spec fn fb_copies(fb_bpp: u32, core_bpp: u32) -> bool {
    (fb_bpp == 32 || fb_bpp == 16) && (core_bpp == 32 || core_bpp == 16)
}

/// The raw framebuffer value of core frame pixel (fx, fy): copied when the
/// depths agree, converted between XRGB8888 and RGB565 otherwise.
pub open spec fn fb_frame_raw(frame: Seq<u8>, pitch: int, fb_bpp: u32, core_bpp: u32, fx: int, fy: int) -> u32 {
    let p32 = le_u32(frame, (fy * (pitch / 4) + fx) * 4);
    let p16 = le_u16(frame, (fy * (pitch / 2) + fx) * 2);
    if fb_bpp == 32 && core_bpp == 32 {
        p32
    } else if fb_bpp == 16 && core_bpp == 16 {
        p16 as u32
    } else if fb_bpp == 32 {
        spec_rgb565_to_xrgb8888(p16)
    } else {
        spec_xrgb8888_to_rgb565(p32) as u32
    }
}

/// The writes copying the first `n` pixels of frame row `fy` to the screen
/// at (ox, oy).
pub open spec fn frame_row_writes(
    frame: Seq<u8>,
    pitch: int,
    fb_bpp: u32,
    core_bpp: u32,
    ox: int,
    oy: int,
    fy: int,
    n: int,
) -> Seq<PixelWrite>
    decreases n,
{
    if n <= 0 {
        Seq::empty()
    } else {
        frame_row_writes(frame, pitch, fb_bpp, core_bpp, ox, oy, fy, n - 1).push(
            (ox + n - 1, oy + fy, fb_frame_raw(frame, pitch, fb_bpp, core_bpp, n - 1, fy)),
        )
    }
}

/// The writes copying the first `rows` rows of a `fw`-wide frame to the
/// screen at (ox, oy), row by row.
pub open spec fn frame_writes(
    frame: Seq<u8>,
    pitch: int,
    fb_bpp: u32,
    core_bpp: u32,
    ox: int,
    oy: int,
    fw: int,
    rows: int,
) -> Seq<PixelWrite>
    decreases rows,
{
    if rows <= 0 {
        Seq::empty()
    } else {
        frame_writes(frame, pitch, fb_bpp, core_bpp, ox, oy, fw, rows - 1)
            + frame_row_writes(frame, pitch, fb_bpp, core_bpp, ox, oy, rows - 1, fw)
    }
}

/// The framebuffer backend's state: the screen's bytes and layout, the
/// core frame's size and placement, and whether the next frame is skipped
/// or this one was drawn.
pub struct FbVideo {
    pub surface: FbSurface,
    core_width: u32,
    core_height: u32,
    offset_x: i32,
    offset_y: i32,
    skip_frame: bool,
    frame_drawn: bool,
}

/// The framebuffer backend's state as values.
pub struct FbVideoView {
    pub surface: FbSurfaceView,
    pub core_width: u32,
    pub core_height: u32,
    pub offset_x: i32,
    pub offset_y: i32,
    pub skip_frame: bool,
    pub frame_drawn: bool,
}

impl View for FbVideo {
    type V = FbVideoView;

    closed spec fn view(&self) -> FbVideoView {
        FbVideoView {
            surface: self.surface@,
            core_width: self.core_width,
            core_height: self.core_height,
            offset_x: self.offset_x,
            offset_y: self.offset_y,
            skip_frame: self.skip_frame,
            frame_drawn: self.frame_drawn,
        }
    }
}

/// Whether a pushed frame gets drawn on the framebuffer.
pub open spec fn fb_push_draws(v: FbVideoView, fw: u32, fh: u32, core_bpp: u32) -> bool {
    !v.skip_frame && core_bpp != 0 && fw != 0 && fh != 0
}

impl FbVideo {
    /// The backend over a screen, no core format yet.
    pub fn new(surface: FbSurface) -> (v: Self)
        ensures
            v@ == (FbVideoView {
                surface: surface@,
                core_width: 0,
                core_height: 0,
                offset_x: 0,
                offset_y: 0,
                skip_frame: false,
                frame_drawn: false,
            }),
    {
        FbVideo { surface, core_width: 0, core_height: 0, offset_x: 0, offset_y: 0, skip_frame: false, frame_drawn: false }
    }

    /// Record the core's frame size and centre it on the screen.
    pub fn set_core_format(&mut self, width: u32, height: u32)
        requires
            width <= i32::MAX,
            height <= i32::MAX,
            old(self)@.surface.wf(),
        ensures
            final(self)@ == (FbVideoView {
                core_width: width,
                core_height: height,
                offset_x: (if old(self)@.surface.width >= width {
                    (old(self)@.surface.width - width) / 2
                } else {
                    -((width - old(self)@.surface.width) / 2)
                }) as i32,
                offset_y: (if old(self)@.surface.height >= height {
                    (old(self)@.surface.height - height) / 2
                } else {
                    -((height - old(self)@.surface.height) / 2)
                }) as i32,
                ..old(self)@
            }),
    {
        self.core_width = width;
        self.core_height = height;
        self.offset_x = centered_offset(self.surface.width, width);
        self.offset_y = centered_offset(self.surface.height, height);
    }

    /// Skip the next frame.
    pub fn set_skip_frame(&mut self)
        ensures
            final(self)@ == (FbVideoView { skip_frame: true, frame_drawn: false, ..old(self)@ }),
    {
        self.skip_frame = true;
        self.frame_drawn = false;
    }

    /// Whether the last frame was drawn.
    pub fn frame_drawn(&self) -> (b: bool)
        ensures
            b == self@.frame_drawn,
    {
        self.frame_drawn
    }

    /// Screen width in pixels.
    pub fn fb_width(&self) -> (w: u32)
        ensures
            w == self@.surface.width,
    {
        self.surface.width
    }

    /// Screen height in pixels.
    pub fn fb_height(&self) -> (h: u32)
        ensures
            h == self@.surface.height,
    {
        self.surface.height
    }

    /// Screen bits per pixel.
    pub fn fb_bpp(&self) -> (b: u32)
        ensures
            b == self@.surface.bpp,
    {
        self.surface.bpp
    }

    /// Copy row `fy` of the frame to the screen at (ox, oy).
    fn copy_row(&mut self, frame: &[u8], pitch: usize, core_bpp: u32, fw: usize, fy: usize, ox: usize, oy: usize)
        requires
            old(self)@.surface.wf(),
            fb_copies(old(self)@.surface.bpp, core_bpp),
            frame_readable(frame@, fw as int, fy + 1, pitch as int, core_bpp),
            ox + fw <= old(self)@.surface.width,
            oy + fy < old(self)@.surface.height,
        ensures
            final(self)@ == (FbVideoView {
                surface: FbSurfaceView {
                    bytes: fb_apply(old(self)@.surface.bytes, old(self)@.surface.pitch as int, old(self)@.surface.bpp,
                        frame_row_writes(frame@, pitch as int, old(self)@.surface.bpp, core_bpp, ox as int, oy as int, fy as int, fw as int)),
                    ..old(self)@.surface
                },
                ..old(self)@
            }),
            final(self)@.surface.wf(),
    {
        let ghost start = self@.surface.bytes;
        let ghost fpitch = self@.surface.pitch as int;
        let fb_bpp = self.surface.bpp;
        let mut fx: usize = 0;
        assert(frame_row_writes(frame@, pitch as int, fb_bpp, core_bpp, ox as int, oy as int, fy as int, 0) =~= Seq::<PixelWrite>::empty());
        while fx < fw
            invariant
                0 <= fx <= fw,
                self@.surface.wf(),
                fb_bpp == self@.surface.bpp,
                fpitch == self@.surface.pitch,
                fb_copies(fb_bpp, core_bpp),
                frame_readable(frame@, fw as int, fy + 1, pitch as int, core_bpp),
                ox + fw <= self@.surface.width,
                oy + fy < self@.surface.height,
                self@ == (FbVideoView { surface: self@.surface, ..old(self)@ }),
                self@.surface == (FbSurfaceView { bytes: self@.surface.bytes, ..old(self)@.surface }),
                self@.surface.bytes == fb_apply(start, fpitch, fb_bpp, frame_row_writes(frame@, pitch as int, fb_bpp, core_bpp, ox as int, oy as int, fy as int, fx as int)),
            decreases fw - fx,
        {
            let raw: u32 = if fb_bpp == 32 && core_bpp == 32 {
                read_frame_u32(frame, pitch, fw, fy + 1, fx, fy)
            } else if fb_bpp == 16 && core_bpp == 16 {
                read_frame_u16(frame, pitch, fw, fy + 1, fx, fy) as u32
            } else if fb_bpp == 32 {
                rgb565_to_xrgb8888(read_frame_u16(frame, pitch, fw, fy + 1, fx, fy))
            } else {
                xrgb8888_to_rgb565(read_frame_u32(frame, pitch, fw, fy + 1, fx, fy)) as u32
            };
            self.surface.put_raw((ox + fx) as i32, (oy + fy) as i32, raw);
            proof {
                let ws = frame_row_writes(frame@, pitch as int, fb_bpp, core_bpp, ox as int, oy as int, fy as int, fx as int);
                assert(ws.push(((ox + fx) as int, (oy + fy) as int, raw)).drop_last() =~= ws);
            }
            fx = fx + 1;
        }
    }

    /// Show a core frame (`pitch` bytes per row, `core_bpp` bits per pixel)
    /// centred on the screen, converting between XRGB8888 and RGB565 where
    /// the depths differ. A skipped frame only clears the skip; nothing
    /// happens before a format is known or for an empty frame; frames of
    /// other depths are counted as drawn but not copied.
    pub fn push_frame(&mut self, frame: &[u8], frame_w: u32, frame_h: u32, pitch: usize, core_bpp: u32)
        requires
            old(self)@.surface.wf(),
            fb_push_draws(old(self)@, frame_w, frame_h, core_bpp) ==> {
                &&& frame_w <= old(self)@.surface.width
                &&& frame_h <= old(self)@.surface.height
                &&& (fb_copies(old(self)@.surface.bpp, core_bpp) ==> frame_readable(frame@, frame_w as int, frame_h as int, pitch as int, core_bpp))
            },
        ensures
            final(self)@.surface.wf(),
            old(self)@.skip_frame ==> final(self)@ == (FbVideoView { skip_frame: false, frame_drawn: false, ..old(self)@ }),
            !old(self)@.skip_frame && !fb_push_draws(old(self)@, frame_w, frame_h, core_bpp) ==> final(self)@ == old(self)@,
            fb_push_draws(old(self)@, frame_w, frame_h, core_bpp) ==> {
                let s = old(self)@.surface;
                let ox = (s.width - frame_w) / 2;
                let oy = (s.height - frame_h) / 2;
                final(self)@ == (FbVideoView {
                    surface: FbSurfaceView {
                        bytes: if fb_copies(s.bpp, core_bpp) {
                            fb_apply(s.bytes, s.pitch as int, s.bpp, frame_writes(frame@, pitch as int, s.bpp, core_bpp, ox, oy, frame_w as int, frame_h as int))
                        } else {
                            s.bytes
                        },
                        ..s
                    },
                    frame_drawn: true,
                    ..old(self)@
                })
            },
    {
        if self.skip_frame {
            self.skip_frame = false;
            self.frame_drawn = false;
            return;
        }
        if core_bpp == 0 {
            return;
        }
        if frame_w == 0 || frame_h == 0 {
            return;
        }
        let fw = frame_w as usize;
        let fh = frame_h as usize;
        self.frame_drawn = true;
        let ox = (self.surface.width as usize - fw) / 2;
        let oy = (self.surface.height as usize - fh) / 2;
        let fb_bpp = self.surface.bpp;
        if (fb_bpp == 32 || fb_bpp == 16) && (core_bpp == 32 || core_bpp == 16) {
            let ghost start = self@.surface.bytes;
            let ghost fpitch = self@.surface.pitch as int;
            let ghost mid = self@;
            let mut fy: usize = 0;
            assert(frame_writes(frame@, pitch as int, fb_bpp, core_bpp, ox as int, oy as int, fw as int, 0) =~= Seq::<PixelWrite>::empty());
            while fy < fh
                invariant
                    0 <= fy <= fh,
                    fh == frame_h,
                    fw == frame_w,
                    self@.surface.wf(),
                    fb_bpp == self@.surface.bpp,
                    fpitch == self@.surface.pitch,
                    fb_copies(fb_bpp, core_bpp),
                    frame_readable(frame@, fw as int, fh as int, pitch as int, core_bpp),
                    ox + fw <= self@.surface.width,
                    oy + fh <= self@.surface.height,
                    self@ == (FbVideoView { surface: self@.surface, ..mid }),
                    self@.surface == (FbSurfaceView { bytes: self@.surface.bytes, ..mid.surface }),
                    self@.surface.bytes == fb_apply(start, fpitch, fb_bpp, frame_writes(frame@, pitch as int, fb_bpp, core_bpp, ox as int, oy as int, fw as int, fy as int)),
                decreases fh - fy,
            {
                let ghost before = frame_writes(frame@, pitch as int, fb_bpp, core_bpp, ox as int, oy as int, fw as int, fy as int);
                proof {
                    crate::video::lemma_frame_readable_prefix(frame@, fw as int, fh as int, fy + 1, pitch as int, core_bpp);
                }
                self.copy_row(frame, pitch, core_bpp, fw, fy, ox, oy);
                proof {
                    let row = frame_row_writes(frame@, pitch as int, fb_bpp, core_bpp, ox as int, oy as int, fy as int, fw as int);
                    lemma_fb_apply_concat(start, fpitch, fb_bpp, before, row);
                }
                fy = fy + 1;
            }
        }
    }
}

/// The byte arithmetic of an XRGB8888 pixel (bytes blue, green, red, unused)
/// converted to RGB565.
proof fn lemma_rgb565_of_bytes(b0: u8, b1: u8, b2: u8, b3: u8)
    ensures
        spec_xrgb8888_to_rgb565(
            (b0 as u32) | ((b1 as u32) << 8u32) | ((b2 as u32) << 16u32) | ((b3 as u32) << 24u32),
        ) as u32 == (b2 / 8) as u32 * 2048 + (b1 / 4) as u32 * 32 + (b0 / 8) as u32,
{
    assert(spec_xrgb8888_to_rgb565(
        (b0 as u32) | ((b1 as u32) << 8u32) | ((b2 as u32) << 16u32) | ((b3 as u32) << 24u32),
    ) as u32 == (b2 / 8) as u32 * 2048 + (b1 / 4) as u32 * 32 + (b0 / 8) as u32) by (bit_vector);
}

/// The byte arithmetic of an RGB565 pixel (low byte, high byte) widened to
/// XRGB8888: each channel's top bits, repeated into its low bits.
proof fn lemma_xrgb_of_rgb565_bytes(c0: u8, c1: u8)
    ensures
        ({
            let p = c0 as u32 + c1 as u32 * 256;
            let r5 = p / 2048;
            let g6 = (p / 32) % 64;
            let b5 = p % 32;
            spec_rgb565_to_xrgb8888((c0 as u16) | ((c1 as u16) << 8u16)) == (r5 * 8 + r5 / 4) * 65536 + (g6 * 4
                + g6 / 16) * 256 + (b5 * 8 + b5 / 4)
        }),
{
    assert({
        let p = c0 as u32 + c1 as u32 * 256;
        let r5 = p / 2048;
        let g6 = (p / 32) % 64;
        let b5 = p % 32;
        spec_rgb565_to_xrgb8888((c0 as u16) | ((c1 as u16) << 8u16)) == (r5 * 8 + r5 / 4) * 65536 + (g6 * 4
            + g6 / 16) * 256 + (b5 * 8 + b5 / 4)
    }) by (bit_vector);
}

/// What the framebuffer receives for core pixel (fx, fy), in terms of the
/// core frame's bytes. Between equal depths the pixel is copied unchanged.
/// A 32-bit core pixel (bytes blue, green, red, unused) on a 16-bit screen
/// becomes RGB565: the top 5 bits of red, then the top 6 of green, then the
/// top 5 of blue (so pure red, 0x00FF0000, becomes 0xF800). A 16-bit core
/// pixel on a 32-bit screen becomes XRGB8888 with each channel's bits
/// repeated from the top into the low bits (so 0xF800 becomes 0x00FF0000).
pub proof fn fb_pixel_conversion(frame: Seq<u8>, pitch: int, fx: int, fy: int)
    ensures
        ({
            let o = (fy * (pitch / 4) + fx) * 4;
            fb_frame_raw(frame, pitch, 32, 32, fx, fy) == frame[o] as u32 + frame[o + 1] as u32 * 256
                + frame[o + 2] as u32 * 65536 + frame[o + 3] as u32 * 16777216
        }),
        ({
            let o = (fy * (pitch / 2) + fx) * 2;
            fb_frame_raw(frame, pitch, 16, 16, fx, fy) == frame[o] as u32 + frame[o + 1] as u32 * 256
        }),
        ({
            let o = (fy * (pitch / 4) + fx) * 4;
            fb_frame_raw(frame, pitch, 16, 32, fx, fy) == (frame[o + 2] / 8) as u32 * 2048 + (frame[o + 1] / 4) as u32
                * 32 + (frame[o] / 8) as u32
        }),
        ({
            let o = (fy * (pitch / 2) + fx) * 2;
            let p = frame[o] as u32 + frame[o + 1] as u32 * 256;
            let r5 = p / 2048;
            let g6 = (p / 32) % 64;
            let b5 = p % 32;
            fb_frame_raw(frame, pitch, 32, 16, fx, fy) == (r5 * 8 + r5 / 4) * 65536 + (g6 * 4 + g6 / 16) * 256 + (b5
                * 8 + b5 / 4)
        }),
{
    let o4 = (fy * (pitch / 4) + fx) * 4;
    let o2 = (fy * (pitch / 2) + fx) * 2;
    let (b0, b1, b2, b3) = (frame[o4], frame[o4 + 1], frame[o4 + 2], frame[o4 + 3]);
    let (c0, c1) = (frame[o2], frame[o2 + 1]);
    lemma_rgb565_of_bytes(b0, b1, b2, b3);
    lemma_xrgb_of_rgb565_bytes(c0, c1);
    assert((b0 as u32) | ((b1 as u32) << 8u32) | ((b2 as u32) << 16u32) | ((b3 as u32) << 24u32) == b0 as u32
        + b1 as u32 * 256 + b2 as u32 * 65536 + b3 as u32 * 16777216) by (bit_vector);
    assert(((c0 as u16) | ((c1 as u16) << 8u16)) as u32 == c0 as u32 + c1 as u32 * 256) by (bit_vector);
}

} // verus!
