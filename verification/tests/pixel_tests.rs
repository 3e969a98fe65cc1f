use corsair_battery_level::canvas::{Canvas, ICON_PIXELS};
use corsair_battery_level::icon::WHITE;
use corsair_battery_level::pixel::{argb, blend_argb, with_alpha};

#[test]
fn argb_packs_channels() {
    assert_eq!(argb(255, 250, 250, 250), 0xFFFA_FAFA);
    assert_eq!(argb(255, 250, 250, 250), WHITE);
    assert_eq!(argb(0x12, 0x34, 0x56, 0x78), 0x1234_5678);
    assert_eq!(argb(0, 0, 0, 0), 0);
}

#[test]
fn with_alpha_replaces_only_alpha() {
    assert_eq!(with_alpha(WHITE, 128), 0x80FA_FAFA);
    assert_eq!(with_alpha(0x1234_5678, 0xAB), 0xAB34_5678);
    assert_eq!(with_alpha(0xFFFF_FFFF, 0), 0x00FF_FFFF);
}

#[test]
fn blend_transparent_source_keeps_destination() {
    assert_eq!(blend_argb(0x8012_3456, 0x00FF_FFFF), 0x8012_3456);
}

#[test]
fn blend_opaque_source_replaces_destination() {
    assert_eq!(blend_argb(0x8012_3456, 0xFF65_4321), 0xFF65_4321);
}

#[test]
fn blend_half_white_over_opaque_black() {
    // out alpha 128 + (255 * 127 + 127) / 255 = 255; channel (255 * 128 + 127) / 255 = 128
    assert_eq!(blend_argb(0xFF00_0000, 0x80FF_FFFF), 0xFF80_8080);
}

#[test]
fn blend_over_transparent_gives_source() {
    assert_eq!(blend_argb(0x0012_3456, 0x40FA_FAFA), 0x40FA_FAFA);
    assert_eq!(blend_argb(0, 0xC4FA_FAFA), 0xC4FA_FAFA);
}

#[test]
fn blend_over_opaque_stays_opaque() {
    for src_alpha in [1u32, 24, 64, 128, 196, 254] {
        let c = blend_argb(0xFF11_2233, (src_alpha << 24) | 0xFA_FAFA);
        assert_eq!(c >> 24, 0xFF);
    }
}

fn reference_blend(dst: u32, src: u32) -> u32 {
    let sa = (src >> 24) & 0xFF;
    if sa == 0 {
        return dst;
    }
    if sa == 255 {
        return src;
    }
    let da = (dst >> 24) & 0xFF;
    let out_a = sa + (da * (255 - sa) + 127) / 255;
    let ch = |s: u32, d: u32| (s * sa + d * da * (255 - sa) / 255 + out_a / 2) / out_a;
    (out_a << 24)
        | (ch((src >> 16) & 0xFF, (dst >> 16) & 0xFF) << 16)
        | (ch((src >> 8) & 0xFF, (dst >> 8) & 0xFF) << 8)
        | ch(src & 0xFF, dst & 0xFF)
}

#[test]
fn blend_matches_formula_on_a_grid() {
    for sa in (0u32..=255).step_by(17) {
        for da in (0u32..=255).step_by(15) {
            for (s, d) in [(0u32, 0u32), (255, 255), (250, 3), (7, 200)] {
                let src = (sa << 24) | (s << 16) | (d << 8) | s;
                let dst = (da << 24) | (d << 16) | (s << 8) | d;
                assert_eq!(blend_argb(dst, src), reference_blend(dst, src));
            }
        }
    }
}

#[test]
fn blend_channel_above_255_spills_as_written() {
    // a faint white over a half-transparent white: the red channel comes out
    // above 255 and is or-ed into the alpha byte, as the formula does
    let dst = 0x80FF_FFFF;
    let src = 0x01FF_FFFF;
    assert_eq!(blend_argb(dst, src), reference_blend(dst, src));
}

#[test]
fn canvas_starts_blank() {
    let canvas = Canvas::new();
    assert_eq!(canvas.pixels.len(), ICON_PIXELS);
    assert!(canvas.pixels.iter().all(|p| *p == 0));
}

#[test]
fn set_pixel_writes_one_pixel() {
    let mut canvas = Canvas::new();
    canvas.set_pixel(3, 2, 0x1234_5678);
    assert_eq!(canvas.pixels[2 * 32 + 3], 0x1234_5678);
    assert_eq!(canvas.pixels.iter().filter(|p| **p != 0).count(), 1);
}

#[test]
fn set_pixel_off_icon_does_nothing() {
    let mut canvas = Canvas::new();
    canvas.set_pixel(-1, 0, 1);
    canvas.set_pixel(0, -1, 1);
    canvas.set_pixel(32, 0, 1);
    canvas.set_pixel(0, 32, 1);
    assert!(canvas.pixels.iter().all(|p| *p == 0));
}

#[test]
fn blend_pixel_blends_in_place() {
    let mut canvas = Canvas::new();
    canvas.set_pixel(31, 31, 0xFF00_0000);
    canvas.blend_pixel(31, 31, 0x80FF_FFFF);
    assert_eq!(canvas.pixels[1023], 0xFF80_8080);
    canvas.blend_pixel(40, 31, 0x80FF_FFFF);
    assert_eq!(canvas.pixels.iter().filter(|p| **p != 0).count(), 1);
}
