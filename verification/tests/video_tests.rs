use rustsdlretro_core::font::{measure_text, measure_text_big};
use rustsdlretro_core::video::{centered_offset, pixel_format_bpp, rgb565_to_xrgb8888, xrgb8888_to_rgb565};

#[test]
fn pixel_conversions() {
    assert_eq!(xrgb8888_to_rgb565(0x00FF0000), 0xF800);
    assert_eq!(xrgb8888_to_rgb565(0x0000FF00), 0x07E0);
    assert_eq!(xrgb8888_to_rgb565(0x000000FF), 0x001F);
    assert_eq!(xrgb8888_to_rgb565(0x00123456), 0x11AA);
    assert_eq!(rgb565_to_xrgb8888(0xF800), 0x00FF0000);
    assert_eq!(rgb565_to_xrgb8888(0x07E0), 0x0000FF00);
    assert_eq!(rgb565_to_xrgb8888(0x0000), 0);
    for p in [0u16, 1, 0x1234, 0xF81F, 0xFFFF] {
        assert_eq!(xrgb8888_to_rgb565(rgb565_to_xrgb8888(p)), p);
    }
}

#[test]
fn formats_and_centering() {
    assert_eq!(pixel_format_bpp(0), 32);
    assert_eq!(pixel_format_bpp(1), 32);
    assert_eq!(pixel_format_bpp(2), 16);
    assert_eq!(pixel_format_bpp(7), 0);
    assert_eq!(centered_offset(640, 320), 160);
    assert_eq!(centered_offset(320, 640), -160);
    assert_eq!(centered_offset(321, 320), 0);
}

#[test]
fn text_widths_sum_glyph_advances() {
    assert_eq!(measure_text(b""), 0);
    assert_eq!(measure_text(b"Hi"), 9);
    assert_eq!(measure_text(b"AB"), 12);
    assert_eq!(measure_text_big(b"A"), 8);
}

use rustsdlretro_core::fbdev::{FbSurface, FbVideo};
use rustsdlretro_core::video::{WindowCanvas, WindowVideo};

#[test]
fn window_frame_is_centred_and_opaque() {
    let mut v = WindowVideo::new(4, 2);
    v.set_core_format(2, 1);
    v.push_frame(&[0xCC, 0xBB, 0xAA, 0x00, 0x33, 0x22, 0x11, 0x00], 2, 1, 8, 32);
    assert!(v.frame_drawn());
    assert_eq!(v.canvas.pixels(), &[0, 0xFFAABBCC, 0xFF112233, 0, 0, 0, 0, 0]);
    // a skipped frame leaves the window as it is
    v.set_skip_frame();
    v.push_frame(&[0xFF; 8], 2, 1, 8, 32);
    assert!(!v.frame_drawn());
    assert_eq!(v.canvas.pixels()[1], 0xFFAABBCC);
    // RGB565 frames are widened
    v.push_frame(&[0x00, 0xF8], 1, 1, 2, 16);
    assert_eq!(v.canvas.pixels(), &[0, 0xFFFF0000, 0, 0, 0, 0, 0, 0]);
}

#[test]
fn canvas_rectangles_are_clipped() {
    let mut c = WindowCanvas::new(4, 3);
    c.draw_rect_overlay(-5, 1, 2, 10, 0x00123456);
    let p = c.pixels();
    assert_eq!(p[4], 0xFF123456);
    assert_eq!(p[5], 0xFF123456);
    assert_eq!(p[8], 0xFF123456);
    assert_eq!(p[9], 0xFF123456);
    assert_eq!(p[6], 0);
    assert_eq!(p[0], 0);
    c.draw_hline_overlay(0, 4, 0, 0x00FFFFFF);
    assert_eq!(&c.pixels()[0..4], &[0xFFFFFFFF; 4]);
    c.clear_overlay();
    assert!(c.pixels().iter().all(|&x| x == 0));
}

#[test]
fn framebuffer_surface_pixels() {
    assert!(FbSurface::new(vec![0; 16], 2, 2, 4, 32).is_none());
    let mut s = FbSurface::new(vec![0; 16], 2, 2, 8, 32).unwrap();
    s.draw_pixel_overlay(1, 0, 0x00ABCDEF);
    assert_eq!(&s.bytes()[4..8], &[0xEF, 0xCD, 0xAB, 0x00]);
    let mut s16 = FbSurface::new(vec![0; 8], 2, 2, 4, 16).unwrap();
    s16.draw_pixel_overlay(0, 1, 0x00FF0000);
    assert_eq!(&s16.bytes()[4..6], &[0x00, 0xF8]);
}

#[test]
fn framebuffer_frame_is_converted_and_centred() {
    let surface = FbSurface::new(vec![0; 12], 3, 1, 12, 32).unwrap();
    let mut v = FbVideo::new(surface);
    assert_eq!((v.fb_width(), v.fb_height(), v.fb_bpp()), (3, 1, 32));
    v.set_core_format(1, 1);
    v.push_frame(&[0x00, 0xF8], 1, 1, 2, 16);
    assert!(v.frame_drawn());
    assert_eq!(&v.surface.bytes()[4..8], &[0x00, 0x00, 0xFF, 0x00]);
}
