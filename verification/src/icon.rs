use vstd::prelude::*;

use crate::canvas::{blank_pixels, on_icon, pixel_index, put_pixel, Canvas, ICON_PIXELS, ICON_SIZE};
use crate::device::DeviceStatus;
use crate::pixel::{
    blend_value, lemma_blend_over_transparent, lemma_with_alpha_channels, with_alpha,
    with_alpha_value,
};
use vstd::string::StringSliceAdditionalSpecFns;

verus! {

/// The near-white in which the icons are drawn: opaque, red, green and blue 250.
pub const WHITE: u32 = 0xFFFA_FAFA;

/// Mask of the connected icon: a battery beside a wireless symbol.
pub const WIRELESS_ICON_MASK: [&'static str; 32] = [
    "................................",
    "................................",
    "......222222222.................",
    "......2#######4.................",
    "......2#######4.................",
    "..13444#######44432.............",
    "..2###############3......121....",
    "..2###############4.....12431...",
    "..2###############4.....14##2...",
    "..2###############4......2##42..",
    "..2###############4..122.13##3..",
    "..2###############4..2#41.24#41.",
    "..2###############4.13##3.13##2.",
    "..2###############4..24#41.2##3.",
    "..2###############4...3##2.2##3.",
    "..2###############4...3##2.2##3.",
    "..2###############4...3##2.2##3.",
    "..2###############4...3##2.2##3.",
    "..2###############4..24#41.2##3.",
    "..2###############4.13##3.13##2.",
    "..2###############4..2#41.24#41.",
    "..2###############4..122.13##3..",
    "..2###############4......2##42..",
    "..2###############4.....14##2...",
    "..2###############4......2431...",
    "..2###############4......121....",
    "..2###############4.............",
    "..2###############4.............",
    "..2###############3.............",
    "..12222222222222221.............",
    "................................",
    "................................",
];

/// Mask of the charging icon: a battery with a lightning bolt.
pub const CHARGING_ICON_MASK: [&'static str; 32] = [
    "................................",
    "................................",
    "...........1222222221...........",
    "...........1########1...........",
    "...........1########1...........",
    "........2344########4432........",
    ".......14##############41.......",
    ".......1################1.......",
    ".......1################1.......",
    ".......1################1.......",
    ".......1########44######1.......",
    ".......1########24######1.......",
    ".......1#######314######1.......",
    ".......1#######2.4######1.......",
    ".......1######31.4######1.......",
    ".......1#####42..4######1.......",
    ".......1#####31..344####1.......",
    ".......1####42.....3####1.......",
    ".......1####3.....24####1.......",
    ".......1####443..13#####1.......",
    ".......1######4..24#####1.......",
    ".......1######4.13######1.......",
    ".......1######4.2#######1.......",
    ".......1######413#######1.......",
    ".......1######42########1.......",
    ".......1######44########1.......",
    ".......1################1.......",
    ".......14##############41.......",
    ".......13##############31.......",
    "........1222222222222221........",
    "................................",
    "................................",
];

/// Mask of the icon shown when no headset answers: a pair of headphones.
pub const HEADPHONES_ICON_MASK: [&'static str; 32] = [
    "................................",
    "...........1233333321...........",
    ".........124########421.........",
    "........24############42........",
    "..121..24###42222234###42.......",
    "..2431.24#421......124##42......",
    ".13##31.231..........13##41.....",
    "..24##31.1............14##3.....",
    "...24##31..............24#42....",
    "....3###31..............3##3....",
    "...14####31.............2##31...",
    "...14#44##31............14#41...",
    "...14#424##31...........14#41...",
    "...1##4.24##31...........4##1...",
    "...1##4..24##31..........4##1...",
    "...1##411124##31...1111114##1...",
    "...1########4##31..14#######1...",
    "...1########24##31.14#######1...",
    "...1########124##31.24######1...",
    "...1########1.24##31.24#####1...",
    "...1########1..24##31.24####1...",
    "...1########1...24##31.24###1...",
    "...1########1....24##31.24##1...",
    "...1########1.....24##31.2441...",
    "...1########1......2###31.231...",
    "...1########1......1####31.1....",
    "...1##4444431......1344##31.....",
    "...14#41111111111.....24##31....",
    "....3##########41......24#42....",
    "....14##########1.......232.....",
    ".....123444444431........11.....",
    "................................",
];

/// The alpha that a marker byte of an icon mask stands for: `1` to `4`
/// (bytes 0x31 to 0x34) for
/// increasing partial cover, `#` (0x23) for full cover; any other byte leaves the
/// pixel alone.
pub open spec fn marker_alpha(marker: u8) -> Option<u8> {
    if marker == 0x31 {
        Some(24u8)
    } else if marker == 0x32 {
        Some(64u8)
    } else if marker == 0x33 {
        Some(128u8)
    } else if marker == 0x34 {
        Some(196u8)
    } else if marker == 0x23 {
        Some(255u8)
    } else {
        None
    }
}

/// The alpha that a marker byte of an icon mask stands for.
pub fn mask_alpha(marker: u8) -> (alpha: Option<u8>)
    ensures
        alpha == marker_alpha(marker),
{
    match marker {
        0x31 => Some(24),
        0x32 => Some(64),
        0x33 => Some(128),
        0x34 => Some(196),
        0x23 => Some(255),
        _ => None,
    }
}

/// Exactly the bytes `1`, `2`, `3`, `4` and `#` cover a pixel, at alphas
/// that rise in that order, `#` fully.
pub proof fn lemma_marker_alphas(marker: u8)
    ensures
        marker_alpha(marker) is Some <==> (marker == 0x31 || marker == 0x32 || marker == 0x33
            || marker == 0x34 || marker == 0x23),
        marker_alpha(0x31)->0 < marker_alpha(0x32)->0 < marker_alpha(0x33)->0 < marker_alpha(
            0x34,
        )->0 < marker_alpha(0x23)->0,
        marker_alpha(0x23) == Some(255u8),
        marker_alpha(marker) matches Some(a) ==> a > 0,
{
}

/// The bytes of the rows of a mask.
pub open spec fn mask_bytes(mask: Seq<&str>) -> Seq<Seq<u8>> {
    mask.map_values(|row: &str| row.spec_bytes())
}

/// The alpha that the mask gives the pixel `(x, y)`: that of the `x`-th byte
/// of the `y`-th row, if there is one.
pub open spec fn mask_cover(rows: Seq<Seq<u8>>, x: int, y: int) -> Option<u8> {
    if 0 <= y < rows.len() && 0 <= x < rows[y].len() {
        marker_alpha(rows[y][x])
    } else {
        None
    }
}

/// `pixels` with `color` drawn over each pixel that the mask covers, at the
/// alpha that it gives the pixel.
pub open spec fn masked_pixels(pixels: Seq<u32>, rows: Seq<Seq<u8>>, color: u32) -> Seq<u32> {
    Seq::new(
        pixels.len(),
        |i: int|
            match mask_cover(rows, i % ICON_SIZE as int, i / ICON_SIZE as int) {
                Some(a) => blend_value(pixels[i], with_alpha_value(color, a) as u32),
                None => pixels[i],
            },
    )
}

/// Draws `color` through a mask of 32 rows: the `x`-th byte of the `y`-th
/// row says at what alpha the pixel `(x, y)` is covered. Bytes past the
/// 32nd of a row would fall off the icon and are not visited.
pub fn draw_mask(canvas: &mut Canvas, mask: &[&str; 32], color: u32)
    ensures
        final(canvas).pixels@ == masked_pixels(old(canvas).pixels@, mask_bytes(mask@), color),
{
    let ghost start = canvas.pixels@;
    let ghost rows = mask_bytes(mask@);
    let mut y: usize = 0;
    while y < 32
        invariant
            0 <= y <= 32,
            rows == mask_bytes(mask@),
            start.len() == ICON_PIXELS,
            canvas.pixels@.len() == ICON_PIXELS,
            forall|i: int|
                0 <= i < ICON_PIXELS ==> #[trigger] canvas.pixels@[i] == if i / 32 < y {
                    masked_pixels(start, rows, color)[i]
                } else {
                    start[i]
                },
        decreases 32 - y,
    {
        let row = mask[y];
        let bytes = row.as_bytes();
        assert(bytes@ == rows[y as int]);
        let mut x: usize = 0;
        while x < bytes.len() && x < 32
            invariant
                0 <= y < 32,
                0 <= x <= 32,
                bytes@ == rows[y as int],
                rows == mask_bytes(mask@),
                start.len() == ICON_PIXELS,
                canvas.pixels@.len() == ICON_PIXELS,
                forall|i: int|
                    0 <= i < ICON_PIXELS ==> #[trigger] canvas.pixels@[i] == if i / 32 < y || (i
                        / 32 == y && i % 32 < x) {
                        masked_pixels(start, rows, color)[i]
                    } else {
                        start[i]
                    },
            decreases 32 - x,
        {
            let ghost before = canvas.pixels@;
            if let Some(alpha) = mask_alpha(bytes[x]) {
                canvas.blend_pixel(x as i32, y as i32, with_alpha(color, alpha));
            }
            assert forall|i: int| 0 <= i < ICON_PIXELS implies #[trigger] canvas.pixels@[i] == if i
                / 32 < y || (i / 32 == y && i % 32 < x + 1) {
                masked_pixels(start, rows, color)[i]
            } else {
                start[i]
            } by {
                if i == y * 32 + x {
                    assert(i / 32 == y && i % 32 == x);
                } else {
                    assert(canvas.pixels@[i] == before[i]);
                }
            }
            x = x + 1;
        }
        assert forall|i: int| 0 <= i < ICON_PIXELS implies #[trigger] canvas.pixels@[i] == if i / 32
            < y + 1 {
            masked_pixels(start, rows, color)[i]
        } else {
            start[i]
        } by {
            if i / 32 == y && i % 32 >= x {
                assert(mask_cover(rows, i % 32, i / 32) is None);
            }
        }
        y = y + 1;
    }
    assert(canvas.pixels@ =~= masked_pixels(start, rows, color));
}

/// On a blank canvas a mask paints each covered pixel exactly `color` at the
/// mask's alpha, and leaves the others transparent.
pub proof fn lemma_mask_on_blank(rows: Seq<Seq<u8>>, color: u32)
    ensures
        masked_pixels(blank_pixels(), rows, color).len() == ICON_PIXELS,
        forall|i: int|
            0 <= i < ICON_PIXELS ==> #[trigger] masked_pixels(blank_pixels(), rows, color)[i] == match mask_cover(
                rows,
                i % ICON_SIZE as int,
                i / ICON_SIZE as int,
            ) {
                Some(a) => with_alpha_value(color, a) as u32,
                None => 0u32,
            },
{
    assert forall|i: int| 0 <= i < ICON_PIXELS implies #[trigger] masked_pixels(
        blank_pixels(),
        rows,
        color,
    )[i] == match mask_cover(rows, i % ICON_SIZE as int, i / ICON_SIZE as int) {
        Some(a) => with_alpha_value(color, a) as u32,
        None => 0u32,
    } by {
        if let Some(a) = mask_cover(rows, i % ICON_SIZE as int, i / ICON_SIZE as int) {
            lemma_with_alpha_channels(color, a);
            assert(a > 0);
            lemma_blend_over_transparent(0u32, with_alpha_value(color, a) as u32);
        }
    }
}

/// `pixels` with the pixels `x0..=x1` of row `y` made `color`.
pub open spec fn painted_row(pixels: Seq<u32>, y: int, x0: int, x1: int, color: u32) -> Seq<u32> {
    Seq::new(
        pixels.len(),
        |i: int|
            if i / ICON_SIZE as int == y && x0 <= i % ICON_SIZE as int <= x1 {
                color
            } else {
                pixels[i]
            },
    )
}

/// Makes the pixels `x0..=x1` of row `y` the colour `color`.
fn paint_row(canvas: &mut Canvas, y: i32, x0: i32, x1: i32, color: u32)
    requires
        x0 <= x1 < i32::MAX,
    ensures
        final(canvas).pixels@ == painted_row(old(canvas).pixels@, y as int, x0 as int, x1 as int, color),
{
    let ghost start = canvas.pixels@;
    let mut x = x0;
    assert(canvas.pixels@ =~= painted_row(start, y as int, x0 as int, x0 - 1, color));
    while x <= x1
        invariant
            x0 <= x <= x1 + 1,
            x1 < i32::MAX,
            start.len() == ICON_PIXELS,
            canvas.pixels@ == painted_row(start, y as int, x0 as int, x - 1, color),
        decreases x1 + 1 - x,
    {
        canvas.set_pixel(x, y, color);
        assert(canvas.pixels@ =~= painted_row(start, y as int, x0 as int, x as int, color)) by {
            assert forall|i: int| 0 <= i < ICON_PIXELS implies #[trigger] canvas.pixels@[i]
                == painted_row(start, y as int, x0 as int, x as int, color)[i] by {
                if on_icon(x as int, y as int) && i == pixel_index(x as int, y as int) {
                    assert(i / 32 == y && i % 32 == x);
                }
            }
        }
        x = x + 1;
    }
}

/// The near-white at the given alpha.
pub open spec fn white(alpha: u8) -> u32 {
    with_alpha_value(WHITE, alpha) as u32
}

/// `pixels` with the top of the battery's inside (row 8) cut out: faint
/// between two brighter edge pixels.
pub open spec fn cutout_top_pixels(pixels: Seq<u32>) -> Seq<u32> {
    put_pixel(painted_row(put_pixel(pixels, 5, 8, white(128)), 8, 6, 15, white(24)), 16, 8, white(64))
}

/// Cuts out the top of the battery's inside.
pub fn draw_battery_cutout_top(canvas: &mut Canvas)
    ensures
        final(canvas).pixels@ == cutout_top_pixels(old(canvas).pixels@),
{
    canvas.set_pixel(5, 8, with_alpha(WHITE, 128));
    paint_row(canvas, 8, 6, 15, with_alpha(WHITE, 24));
    canvas.set_pixel(16, 8, with_alpha(WHITE, 64));
}

/// `pixels` with row `y` of the battery emptied: transparent inside, faint
/// edges.
pub open spec fn empty_row_pixels(pixels: Seq<u32>, y: int) -> Seq<u32> {
    put_pixel(painted_row(put_pixel(pixels, 5, y, white(64)), y, 6, 14, 0), 15, y, white(24))
}

/// Empties row `y` of the battery.
pub fn draw_empty_battery_row(canvas: &mut Canvas, y: i32)
    ensures
        final(canvas).pixels@ == empty_row_pixels(old(canvas).pixels@, y as int),
{
    canvas.set_pixel(5, y, with_alpha(WHITE, 64));
    paint_row(canvas, y, 6, 14, 0);
    canvas.set_pixel(15, y, with_alpha(WHITE, 24));
}

/// `pixels` with row `y` drawn as the top of the battery's charge: a bright
/// bar, or, at an empty battery, a faint one between brighter ends.
pub open spec fn fill_boundary_pixels(pixels: Seq<u32>, y: int, battery: u8) -> Seq<u32> {
    if battery == 0 {
        put_pixel(painted_row(put_pixel(pixels, 5, y, white(128)), y, 6, 14, white(64)), 15, y, white(128))
    } else {
        painted_row(pixels, y, 5, 15, white(196))
    }
}

/// Draws row `y` as the top of the battery's charge.
pub fn draw_battery_fill_boundary(canvas: &mut Canvas, y: i32, battery: u8)
    ensures
        final(canvas).pixels@ == fill_boundary_pixels(old(canvas).pixels@, y as int, battery),
{
    if battery == 0 {
        canvas.set_pixel(5, y, with_alpha(WHITE, 128));
        paint_row(canvas, y, 6, 14, with_alpha(WHITE, 64));
        canvas.set_pixel(15, y, with_alpha(WHITE, 128));
        return;
    }
    paint_row(canvas, y, 5, 15, with_alpha(WHITE, 196));
}

/// `battery` capped at 100.
pub open spec fn capped_level(battery: u8) -> u8 {
    if battery < 100 {
        battery
    } else {
        100
    }
}

/// How many of the 18 rows of the battery's inside a level leaves empty:
/// the missing share `(100 - level) * 18 / 100`, rounded up.
pub open spec fn empty_row_count(level: int) -> int {
    ((100 - level) * 18 + 99) / 100
}

/// The row at which the charge of a battery at `battery` percent starts:
/// `8` plus the empty rows, kept within rows 9 to 26.
pub open spec fn fill_row(battery: u8) -> int {
    let y = 8 + empty_row_count(capped_level(battery) as int);
    if y < 9 {
        9
    } else if y > 26 {
        26
    } else {
        y
    }
}

/// The row at which the drawn charge of a battery at `battery` percent
/// starts (levels above 100 count as 100).
pub fn battery_fill_row(battery: u8) -> (y: i32)
    ensures
        y == fill_row(battery),
        9 <= y <= 26,
{
    let level: i32 = if battery < 100 {
        battery as i32
    } else {
        100
    };
    let empty_rows = ((100 - level) * 18 + 99) / 100;
    let y = 8 + empty_rows;
    if y < 9 {
        9
    } else if y > 26 {
        26
    } else {
        y
    }
}

/// `pixels` with the rows `from..to` of the battery emptied.
pub open spec fn emptied_rows(pixels: Seq<u32>, from: int, to: int) -> Seq<u32>
    decreases to - from,
{
    if to <= from {
        pixels
    } else {
        empty_row_pixels(emptied_rows(pixels, from, to - 1), to - 1)
    }
}

/// `pixels`, the connected icon, with the battery drawn at `battery`
/// percent: unchanged at 100 percent and above; else the top of the inside
/// cut out, the rows from 9 to the fill row emptied and the fill row drawn
/// as the top of the charge.
pub open spec fn battery_level_pixels(pixels: Seq<u32>, battery: u8) -> Seq<u32> {
    let level = capped_level(battery);
    if level == 100 {
        pixels
    } else {
        fill_boundary_pixels(
            emptied_rows(cutout_top_pixels(pixels), 9, fill_row(battery)),
            fill_row(battery),
            level,
        )
    }
}

proof fn lemma_row_lengths(pixels: Seq<u32>, from: int, to: int)
    requires
        pixels.len() == ICON_PIXELS,
    ensures
        emptied_rows(pixels, from, to).len() == pixels.len(),
    decreases to - from,
{
    if to > from {
        lemma_row_lengths(pixels, from, to - 1);
    }
}

proof fn lemma_emptied_rows_inside(pixels: Seq<u32>, from: int, to: int, i: int)
    requires
        pixels.len() == ICON_PIXELS,
        0 <= i < ICON_PIXELS,
        6 <= i % 32 <= 14,
        from <= to,
    ensures
        emptied_rows(pixels, from, to).len() == ICON_PIXELS,
        emptied_rows(pixels, from, to)[i] == if from <= i / 32 < to {
            0u32
        } else {
            pixels[i]
        },
    decreases to - from,
{
    lemma_row_lengths(pixels, from, to);
    if to > from {
        lemma_emptied_rows_inside(pixels, from, to - 1, i);
        lemma_row_lengths(pixels, from, to - 1);
    }
}

/// The inside of the battery (columns 6 to 14) below 100 percent: with
/// `f = 8 + ceil((100 - battery) * 18 / 100)`, row 8 is cut out faintly,
/// rows 9 up to `f` are emptied to transparent, row `f` is the top of the
/// charge (bright, or faint at 0 percent), and the rows below `f` keep the
/// icon's pixels. So the fuller the battery, the higher the drawn charge.
pub proof fn lemma_battery_inside(pixels: Seq<u32>, battery: u8, i: int)
    requires
        pixels.len() == ICON_PIXELS,
        battery < 100,
        0 <= i < ICON_PIXELS,
        6 <= i % 32 <= 14,
    ensures
        ({
            let f = 8 + ((100 - battery) * 18 + 99) / 100;
            let y = i / 32;
            let out = battery_level_pixels(pixels, battery)[i];
            &&& 9 <= f <= 26
            &&& y == 8 ==> out == with_alpha_value(WHITE, 24)
            &&& 9 <= y < f ==> out == 0
            &&& y == f && battery == 0 ==> out == with_alpha_value(WHITE, 64)
            &&& y == f && battery > 0 ==> out == with_alpha_value(WHITE, 196)
            &&& (y < 8 || y > f) ==> out == pixels[i]
        }),
{
    let f = 8 + ((100 - battery) * 18 + 99) / 100;
    assert(9 <= f <= 26);
    assert(fill_row(battery) == f);
    let cut = cutout_top_pixels(pixels);
    assert(cut.len() == ICON_PIXELS);
    assert(cut[i] == if i / 32 == 8 {
        white(24)
    } else {
        pixels[i]
    });
    lemma_emptied_rows_inside(cut, 9, f, i);
    lemma_with_alpha_channels(WHITE, 24);
    lemma_with_alpha_channels(WHITE, 64);
    lemma_with_alpha_channels(WHITE, 196);
}

/// A lower charge empties at least the rows that a higher one empties: a
/// pixel of the inside emptied at `higher` percent is emptied at `lower`.
pub proof fn lemma_lower_battery_empties_more(pixels: Seq<u32>, lower: u8, higher: u8, i: int)
    requires
        pixels.len() == ICON_PIXELS,
        lower <= higher < 100,
        0 <= i < ICON_PIXELS,
        6 <= i % 32 <= 14,
        9 <= i / 32 < 8 + ((100 - higher) * 18 + 99) / 100,
    ensures
        battery_level_pixels(pixels, higher)[i] == 0,
        battery_level_pixels(pixels, lower)[i] == 0,
{
    lemma_battery_inside(pixels, higher, i);
    lemma_battery_inside(pixels, lower, i);
    assert(((100 - lower) * 18 + 99) / 100 >= ((100 - higher) * 18 + 99) / 100) by (nonlinear_arith)
        requires
            lower <= higher < 100,
    ;
}

/// Draws the battery's charge level into the connected icon.
pub fn apply_battery_level(canvas: &mut Canvas, battery: u8)
    ensures
        final(canvas).pixels@ == battery_level_pixels(old(canvas).pixels@, battery),
{
    let level = if battery < 100 {
        battery
    } else {
        100
    };
    if level == 100 {
        return;
    }
    let ghost start = canvas.pixels@;
    draw_battery_cutout_top(canvas);
    let ghost cut = canvas.pixels@;
    let fill_y = battery_fill_row(battery);
    let mut y: i32 = 9;
    while y < fill_y
        invariant
            9 <= y <= fill_y,
            fill_y <= 26,
            cut.len() == ICON_PIXELS,
            canvas.pixels@ == emptied_rows(cut, 9, y as int),
        decreases fill_y - y,
    {
        proof {
            lemma_row_lengths(cut, 9, y as int);
        }
        draw_empty_battery_row(canvas, y);
        y = y + 1;
    }
    proof {
        lemma_row_lengths(cut, 9, y as int);
    }
    draw_battery_fill_boundary(canvas, fill_y, level);
}

/// A lower charge never draws a higher charge level: the fill row moves
/// down (or stays) as the battery empties.
pub proof fn lemma_fill_row_monotonic(lower: u8, higher: u8)
    requires
        lower <= higher,
    ensures
        fill_row(lower) >= fill_row(higher),
{
    let a = capped_level(lower) as int;
    let b = capped_level(higher) as int;
    assert((100 - a) * 18 + 99 >= (100 - b) * 18 + 99);
    assert(((100 - a) * 18 + 99) / 100 >= ((100 - b) * 18 + 99) / 100) by (nonlinear_arith)
        requires
            (100 - a) * 18 + 99 >= (100 - b) * 18 + 99,
            (100 - b) * 18 + 99 >= 0,
    ;
}

/// `pixels` with the icon of a connected headset at `battery` percent: the
/// charging icon while charging below 100 percent, else the connected icon
/// with the battery drawn at that level.
pub open spec fn battery_icon_pixels(pixels: Seq<u32>, battery: u8, charging: bool) -> Seq<u32> {
    if charging && battery < 100 {
        masked_pixels(pixels, mask_bytes(CHARGING_ICON_MASK@), WHITE)
    } else {
        battery_level_pixels(masked_pixels(pixels, mask_bytes(WIRELESS_ICON_MASK@), WHITE), battery)
    }
}

/// Draws the icon of a connected headset at `battery` percent.
pub fn draw_battery_icon(canvas: &mut Canvas, battery: u8, charging: bool)
    ensures
        final(canvas).pixels@ == battery_icon_pixels(old(canvas).pixels@, battery, charging),
{
    if charging && battery < 100 {
        draw_mask(canvas, &CHARGING_ICON_MASK, WHITE);
    } else {
        draw_mask(canvas, &WIRELESS_ICON_MASK, WHITE);
        apply_battery_level(canvas, battery);
    }
}

/// `pixels` with the headphones drawn over them.
pub open spec fn disconnected_icon_pixels(pixels: Seq<u32>) -> Seq<u32> {
    masked_pixels(pixels, mask_bytes(HEADPHONES_ICON_MASK@), WHITE)
}

/// Draws the icon shown when no headset reports a level: headphones.
pub fn draw_disconnected_icon(canvas: &mut Canvas)
    ensures
        final(canvas).pixels@ == disconnected_icon_pixels(old(canvas).pixels@),
{
    draw_mask(canvas, &HEADPHONES_ICON_MASK, WHITE);
}

/// The tray icon's pixels for a status: the battery icon for a connected
/// headset with a known level, else the headphones.
pub open spec fn status_icon_pixels(status: Option<DeviceStatus>) -> Seq<u32> {
    match status {
        Some(s) => if s.connected && s.battery is Some {
            battery_icon_pixels(blank_pixels(), s.battery->0, s.charging)
        } else {
            disconnected_icon_pixels(blank_pixels())
        },
        None => disconnected_icon_pixels(blank_pixels()),
    }
}

/// A headset that is not connected, or whose level is unknown, gets the
/// same icon as no headset at all; one charging below 100 percent gets the
/// charging icon whatever its level.
pub proof fn lemma_status_icons(status: DeviceStatus)
    ensures
        !status.connected || status.battery is None ==> status_icon_pixels(Some(status))
            == status_icon_pixels(None),
        status.connected && status.charging && status.battery is Some && status.battery->0 < 100
            ==> status_icon_pixels(Some(status)) == masked_pixels(
            blank_pixels(),
            mask_bytes(CHARGING_ICON_MASK@),
            WHITE,
        ),
{
}

/// The status, read through the reference.
pub open spec fn status_value(status: Option<&DeviceStatus>) -> Option<DeviceStatus> {
    match status {
        Some(s) => Some(*s),
        None => None,
    }
}

/// Draws the tray icon for a status (`None` when no headset answered).
pub fn status_canvas(status: Option<&DeviceStatus>) -> (canvas: Canvas)
    ensures
        canvas.pixels@ == status_icon_pixels(status_value(status)),
{
    let mut canvas = Canvas::new();
    match status {
        Some(status) if status.connected => {
            if let Some(battery) = status.battery {
                draw_battery_icon(&mut canvas, battery, status.charging);
            } else {
                draw_disconnected_icon(&mut canvas);
            }
        },
        _ => draw_disconnected_icon(&mut canvas),
    }
    canvas
}

/// At 100 percent and above the battery is drawn full: the connected icon
/// is the plain mask.
pub proof fn lemma_full_battery_is_plain_mask(pixels: Seq<u32>, battery: u8)
    requires
        battery >= 100,
    ensures
        battery_icon_pixels(pixels, battery, true) == masked_pixels(
            pixels,
            mask_bytes(WIRELESS_ICON_MASK@),
            WHITE,
        ),
        battery_icon_pixels(pixels, battery, false) == masked_pixels(
            pixels,
            mask_bytes(WIRELESS_ICON_MASK@),
            WHITE,
        ),
{
}

} // verus!
