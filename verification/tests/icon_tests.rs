use corsair_battery_level::canvas::Canvas;
use corsair_battery_level::device::DeviceStatus;
use corsair_battery_level::icon::{
    apply_battery_level, battery_fill_row, draw_battery_cutout_top, draw_battery_fill_boundary,
    draw_battery_icon, draw_disconnected_icon, draw_empty_battery_row, draw_mask, mask_alpha,
    status_canvas, CHARGING_ICON_MASK, HEADPHONES_ICON_MASK, WHITE, WIRELESS_ICON_MASK,
};
use corsair_battery_level::pixel::with_alpha;

fn expected_from_mask(mask: &[&str; 32]) -> Vec<u32> {
    let mut pixels = vec![0u32; 1024];
    for (y, row) in mask.iter().enumerate() {
        for (x, b) in row.bytes().enumerate() {
            let alpha = match b {
                b'1' => 24,
                b'2' => 64,
                b'3' => 128,
                b'4' => 196,
                b'#' => 255,
                _ => continue,
            };
            pixels[y * 32 + x] = with_alpha(WHITE, alpha);
        }
    }
    pixels
}

#[test]
fn mask_alpha_markers() {
    assert_eq!(mask_alpha(b'1'), Some(24));
    assert_eq!(mask_alpha(b'2'), Some(64));
    assert_eq!(mask_alpha(b'3'), Some(128));
    assert_eq!(mask_alpha(b'4'), Some(196));
    assert_eq!(mask_alpha(b'#'), Some(255));
    assert_eq!(mask_alpha(b'.'), None);
    assert_eq!(mask_alpha(b'5'), None);
}

#[test]
fn masks_are_32_by_32() {
    for mask in [&WIRELESS_ICON_MASK, &CHARGING_ICON_MASK, &HEADPHONES_ICON_MASK] {
        assert!(mask.iter().all(|row| row.len() == 32));
    }
}

#[test]
fn draw_mask_on_blank_canvas_paints_markers() {
    let mut canvas = Canvas::new();
    draw_mask(&mut canvas, &HEADPHONES_ICON_MASK, WHITE);
    assert_eq!(canvas.pixels.to_vec(), expected_from_mask(&HEADPHONES_ICON_MASK));
}

#[test]
fn draw_mask_skips_bytes_beyond_the_icon() {
    let mut mask = [""; 32];
    mask[0] = "................................#";
    mask[1] = "#";
    let mut canvas = Canvas::new();
    draw_mask(&mut canvas, &mask, WHITE);
    assert_eq!(canvas.pixels[32], WHITE);
    assert_eq!(canvas.pixels.iter().filter(|p| **p != 0).count(), 1);
}

#[test]
fn disconnected_icon_is_headphones() {
    let mut canvas = Canvas::new();
    draw_disconnected_icon(&mut canvas);
    assert_eq!(canvas.pixels.to_vec(), expected_from_mask(&HEADPHONES_ICON_MASK));
    let none = status_canvas(None);
    assert_eq!(none.pixels, canvas.pixels);
}

#[test]
fn charging_below_full_shows_charging_icon() {
    let mut canvas = Canvas::new();
    draw_battery_icon(&mut canvas, 40, true);
    assert_eq!(canvas.pixels.to_vec(), expected_from_mask(&CHARGING_ICON_MASK));
}

#[test]
fn full_battery_shows_plain_wireless_icon() {
    for (battery, charging) in [(100u8, true), (100, false), (250, false), (150, true)] {
        let mut canvas = Canvas::new();
        draw_battery_icon(&mut canvas, battery, charging);
        assert_eq!(canvas.pixels.to_vec(), expected_from_mask(&WIRELESS_ICON_MASK));
    }
}

fn float_fill_row(battery: u8) -> i32 {
    let battery = battery.min(100);
    let empty_rows = ((100 - battery) as f32 * 18.0 / 100.0).ceil() as i32;
    (8 + empty_rows).clamp(9, 26)
}

#[test]
fn fill_row_matches_float_rounding() {
    for battery in 0u8..=255 {
        assert_eq!(battery_fill_row(battery), float_fill_row(battery), "battery {battery}");
    }
}

#[test]
fn fill_row_values() {
    assert_eq!(battery_fill_row(0), 26);
    assert_eq!(battery_fill_row(50), 17);
    assert_eq!(battery_fill_row(99), 9);
    assert_eq!(battery_fill_row(100), 9);
    assert_eq!(battery_fill_row(94), 10);
}

#[test]
fn fill_row_falls_as_battery_empties() {
    for b in 0u8..255 {
        assert!(battery_fill_row(b) >= battery_fill_row(b + 1));
    }
}

#[test]
fn cutout_top_row() {
    let mut canvas = Canvas::new();
    draw_battery_cutout_top(&mut canvas);
    let row = &canvas.pixels[8 * 32..9 * 32];
    assert_eq!(row[5], with_alpha(WHITE, 128));
    for x in 6..=15 {
        assert_eq!(row[x], with_alpha(WHITE, 24));
    }
    assert_eq!(row[16], with_alpha(WHITE, 64));
    assert_eq!(canvas.pixels.iter().filter(|p| **p != 0).count(), 12);
}

#[test]
fn empty_row_clears_inside() {
    let mut canvas = Canvas::new();
    for p in canvas.pixels.iter_mut() {
        *p = WHITE;
    }
    draw_empty_battery_row(&mut canvas, 12);
    let row = &canvas.pixels[12 * 32..13 * 32];
    assert_eq!(row[4], WHITE);
    assert_eq!(row[5], with_alpha(WHITE, 64));
    for x in 6..=14 {
        assert_eq!(row[x], 0);
    }
    assert_eq!(row[15], with_alpha(WHITE, 24));
    assert_eq!(row[16], WHITE);
}

#[test]
fn fill_boundary_empty_and_charged() {
    let mut canvas = Canvas::new();
    draw_battery_fill_boundary(&mut canvas, 26, 0);
    let row = &canvas.pixels[26 * 32..27 * 32];
    assert_eq!(row[5], with_alpha(WHITE, 128));
    for x in 6..=14 {
        assert_eq!(row[x], with_alpha(WHITE, 64));
    }
    assert_eq!(row[15], with_alpha(WHITE, 128));

    let mut canvas = Canvas::new();
    draw_battery_fill_boundary(&mut canvas, 17, 50);
    let row = &canvas.pixels[17 * 32..18 * 32];
    for x in 5..=15 {
        assert_eq!(row[x], with_alpha(WHITE, 196));
    }
    assert_eq!(canvas.pixels.iter().filter(|p| **p != 0).count(), 11);
}

#[test]
fn battery_level_at_half() {
    let mut canvas = Canvas::new();
    apply_battery_level(&mut canvas, 50);
    let mut expected = Canvas::new();
    draw_battery_cutout_top(&mut expected);
    for y in 9..17 {
        draw_empty_battery_row(&mut expected, y);
    }
    draw_battery_fill_boundary(&mut expected, 17, 50);
    assert_eq!(canvas.pixels, expected.pixels);
    assert_eq!(canvas.pixels[17 * 32 + 10], with_alpha(WHITE, 196));
    assert_eq!(canvas.pixels[16 * 32 + 10], 0);
}

#[test]
fn battery_level_full_changes_nothing() {
    let mut canvas = Canvas::new();
    apply_battery_level(&mut canvas, 100);
    apply_battery_level(&mut canvas, 200);
    assert!(canvas.pixels.iter().all(|p| *p == 0));
}

#[test]
fn status_canvas_cases() {
    let disconnected = DeviceStatus { connected: false, battery: Some(50), charging: false };
    assert_eq!(status_canvas(Some(&disconnected)).pixels.to_vec(), expected_from_mask(&HEADPHONES_ICON_MASK));
    let unknown = DeviceStatus { connected: true, battery: None, charging: true };
    assert_eq!(status_canvas(Some(&unknown)).pixels.to_vec(), expected_from_mask(&HEADPHONES_ICON_MASK));
    let charging = DeviceStatus { connected: true, battery: Some(30), charging: true };
    assert_eq!(status_canvas(Some(&charging)).pixels.to_vec(), expected_from_mask(&CHARGING_ICON_MASK));
    let half = DeviceStatus { connected: true, battery: Some(50), charging: false };
    let mut expected = Canvas::new();
    draw_battery_icon(&mut expected, 50, false);
    assert_eq!(status_canvas(Some(&half)).pixels, expected.pixels);
    // the emptied inside of the battery is transparent
    assert_eq!(expected.pixels[12 * 32 + 10], 0);
}
