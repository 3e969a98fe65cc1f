use vstd::prelude::*;

verus! {

/// The alpha channel of an ARGB colour.
pub open spec fn alpha_of(c: u32) -> int {
    c as int / 0x100_0000
}

/// The red channel of an ARGB colour.
pub open spec fn red_of(c: u32) -> int {
    (c as int / 0x1_0000) % 0x100
}

/// The green channel of an ARGB colour.
pub open spec fn green_of(c: u32) -> int {
    (c as int / 0x100) % 0x100
}

/// The blue channel of an ARGB colour.
pub open spec fn blue_of(c: u32) -> int {
    c as int % 0x100
}

/// The colour with the four given channels.
pub open spec fn argb_value(a: int, r: int, g: int, b: int) -> int {
    a * 0x100_0000 + r * 0x1_0000 + g * 0x100 + b
}

proof fn lemma_pack_bytes(a: u32, r: u32, g: u32, b: u32)
    requires
        a < 256,
        r < 256,
        g < 256,
        b < 256,
    ensures
        (a << 24) | (r << 16) | (g << 8) | b == a * 0x100_0000 + r * 0x1_0000 + g * 0x100 + b,
{
    assert((a << 24) | (r << 16) | (g << 8) | b == a * 0x100_0000 + r * 0x1_0000 + g * 0x100 + b)
        by (bit_vector)
        requires
            a < 256,
            r < 256,
            g < 256,
            b < 256,
    ;
}

/// Packs four channels into one ARGB colour.
pub fn argb(a: u8, r: u8, g: u8, b: u8) -> (c: u32)
    ensures
        c == argb_value(a as int, r as int, g as int, b as int),
{
    proof {
        lemma_pack_bytes(a as u32, r as u32, g as u32, b as u32);
    }
    ((a as u32) << 24) | ((r as u32) << 16) | ((g as u32) << 8) | b as u32
}

proof fn lemma_channels(x: u32)
    ensures
        (x >> 24) & 0xFF == alpha_of(x),
        (x >> 16) & 0xFF == red_of(x),
        (x >> 8) & 0xFF == green_of(x),
        x & 0xFF == blue_of(x),
        x == argb_value(alpha_of(x), red_of(x), green_of(x), blue_of(x)),
        0 <= alpha_of(x) < 256,
        0 <= red_of(x) < 256,
        0 <= green_of(x) < 256,
        0 <= blue_of(x) < 256,
{
    assert((x >> 24) & 0xFF == x / 0x100_0000) by (bit_vector);
    assert((x >> 16) & 0xFF == (x / 0x1_0000) % 0x100) by (bit_vector);
    assert((x >> 8) & 0xFF == (x / 0x100) % 0x100) by (bit_vector);
    assert(x & 0xFF == x % 0x100) by (bit_vector);
    assert(x == (x / 0x100_0000) * 0x100_0000 + ((x / 0x1_0000) % 0x100) * 0x1_0000 + ((x / 0x100)
        % 0x100) * 0x100 + x % 0x100) by (bit_vector);
}

/// Packing channels and reading them back gives the same channels.
pub proof fn lemma_argb_channels(a: u8, r: u8, g: u8, b: u8)
    ensures
        0 <= argb_value(a as int, r as int, g as int, b as int) <= u32::MAX,
        alpha_of(argb_value(a as int, r as int, g as int, b as int) as u32) == a,
        red_of(argb_value(a as int, r as int, g as int, b as int) as u32) == r,
        green_of(argb_value(a as int, r as int, g as int, b as int) as u32) == g,
        blue_of(argb_value(a as int, r as int, g as int, b as int) as u32) == b,
{
    let v = argb_value(a as int, r as int, g as int, b as int);
    assert(v / 0x100_0000 == a);
    assert(v / 0x1_0000 == a as int * 0x100 + r);
    assert(v / 0x100 == a as int * 0x1_0000 + r as int * 0x100 + g);
}

/// The colour `color` with its alpha channel replaced by `alpha`.
pub open spec fn with_alpha_value(color: u32, alpha: u8) -> int {
    color as int % 0x100_0000 + alpha as int * 0x100_0000
}

/// Replaces the alpha channel of `color` by `alpha` and keeps its red,
/// green and blue channels.
pub fn with_alpha(color: u32, alpha: u8) -> (c: u32)
    ensures
        c == with_alpha_value(color, alpha),
{
    assert((color & 0x00FF_FFFF) | ((alpha as u32) << 24) == color % 0x100_0000 + (alpha as u32)
        * 0x100_0000) by (bit_vector)
        requires
            alpha < 256,
    ;
    (color & 0x00FF_FFFF) | ((alpha as u32) << 24)
}

/// Replacing the alpha channel sets it and keeps the red, green and blue
/// channels.
pub proof fn lemma_with_alpha_channels(color: u32, alpha: u8)
    ensures
        0 <= with_alpha_value(color, alpha) <= u32::MAX,
        alpha_of(with_alpha_value(color, alpha) as u32) == alpha,
        red_of(with_alpha_value(color, alpha) as u32) == red_of(color),
        green_of(with_alpha_value(color, alpha) as u32) == green_of(color),
        blue_of(with_alpha_value(color, alpha) as u32) == blue_of(color),
{
    lemma_channels(color);
    let low = color as int % 0x100_0000;
    assert(low == red_of(color) * 0x1_0000 + green_of(color) * 0x100 + blue_of(color));
    lemma_argb_channels(alpha, red_of(color) as u8, green_of(color) as u8, blue_of(color) as u8);
}

/// The four channels put together as the blend writes them: each shifted to
/// its byte and or-ed, so that a channel above 255 spills into the byte above.
pub open spec fn pack_channels(a: u32, r: u32, g: u32, b: u32) -> u32 {
    (a << 24) | (r << 16) | (g << 8) | b
}

/// The alpha channel of `src` drawn over `dst`.
pub open spec fn blended_alpha(dst: u32, src: u32) -> int {
    let sa = alpha_of(src);
    sa + (alpha_of(dst) * (255 - sa) + 127) / 255
}

/// One colour channel of `src` (value `s`, alpha `sa`) drawn over `dst`
/// (value `d`, alpha `da`), with the blended alpha `out_a`.
pub open spec fn blended_channel(s: int, d: int, sa: int, da: int, out_a: int) -> int {
    (s * sa + d * da * (255 - sa) / 255 + out_a / 2) / out_a
}

/// `src` drawn over `dst` ("source over" compositing of straight ARGB
/// colours, rounded to integers): a transparent source leaves `dst`, an
/// opaque one replaces it.
pub open spec fn blend_value(dst: u32, src: u32) -> u32 {
    let sa = alpha_of(src);
    let da = alpha_of(dst);
    let out_a = blended_alpha(dst, src);
    if sa == 0 {
        dst
    } else if sa == 255 {
        src
    } else {
        pack_channels(
            out_a as u32,
            blended_channel(red_of(src), red_of(dst), sa, da, out_a) as u32,
            blended_channel(green_of(src), green_of(dst), sa, da, out_a) as u32,
            blended_channel(blue_of(src), blue_of(dst), sa, da, out_a) as u32,
        )
    }
}

proof fn lemma_blend_bounds(s: int, d: int, sa: int, da: int)
    requires
        0 <= s < 256,
        0 <= d < 256,
        0 < sa < 255,
        0 <= da < 256,
    ensures
        1 <= sa + (da * (255 - sa) + 127) / 255 <= 255,
        0 <= s * sa <= 255 * 255,
        0 <= d * da <= 255 * 255,
        0 <= d * da * (255 - sa) <= 255 * 255 * 255,
        0 <= blended_channel(s, d, sa, da, sa + (da * (255 - sa) + 127) / 255) < 512,
{
    assert(0 <= da * (255 - sa) <= 255 * (255 - sa)) by (nonlinear_arith)
        requires
            0 <= da < 256,
            0 < sa < 255,
    ;
    assert((255 * (255 - sa) + 127) / 255 == 255 - sa) by (nonlinear_arith)
        requires
            0 < sa < 255,
    ;
    assert(0 <= s * sa <= 255 * 255) by (nonlinear_arith)
        requires
            0 <= s < 256,
            0 < sa < 255,
    ;
    assert(0 <= d * da * (255 - sa) <= 255 * 255 * 255) by (nonlinear_arith)
        requires
            0 <= d < 256,
            0 <= da < 256,
            0 < sa < 255,
    ;
    assert(0 <= d * da <= 255 * 255) by (nonlinear_arith)
        requires
            0 <= d < 256,
            0 <= da < 256,
    ;
    let q = da * (255 - sa);
    let out_a = sa + (q + 127) / 255;
    assert(255 * ((q + 127) / 255) >= q - 127) by (nonlinear_arith)
        requires
            q >= 0,
    ;
    assert(s * sa <= 255 * sa) by (nonlinear_arith)
        requires
            0 <= s < 256,
            sa > 0,
    ;
    assert(d * da * (255 - sa) / 255 <= q) by (nonlinear_arith)
        requires
            0 <= d < 256,
            q == da * (255 - sa),
            q >= 0,
    ;
    assert(out_a >= sa);
    assert(out_a <= 255);
    let num = s * sa + d * da * (255 - sa) / 255 + out_a / 2;
    assert(num <= 255 * 255 + 255 * 255 + 255);
    assert(0 <= num / out_a <= num) by (nonlinear_arith)
        requires
            out_a >= 1,
            num >= 0,
    ;
    assert(num / out_a < 512) by (nonlinear_arith)
        requires
            out_a >= sa,
            sa >= 1,
            num <= s * sa + d * da * (255 - sa) / 255 + out_a / 2,
            s * sa <= 255 * sa,
            d * da * (255 - sa) / 255 <= da * (255 - sa),
            da * (255 - sa) <= 255 * (out_a - sa) + 254,
            out_a <= 255,
            num >= 0,
    {
        assert(num <= 255 * sa + 255 * (out_a - sa) + 254 + out_a / 2);
        assert(num < 512 * out_a);
    }
}

/// Drawing a colour that is not fully transparent over a fully transparent
/// pixel gives exactly that colour.
pub proof fn lemma_blend_over_transparent(dst: u32, src: u32)
    requires
        alpha_of(dst) == 0,
        alpha_of(src) > 0,
    ensures
        blend_value(dst, src) == src,
{
    lemma_channels(src);
    lemma_channels(dst);
    let sa = alpha_of(src);
    if 0 < sa < 255 {
        assert((0 * (255 - sa) + 127) / 255 == 0);
        assert(blended_alpha(dst, src) == sa);
        assert forall|s: int, d: int| 0 <= s < 256 implies #[trigger] blended_channel(s, d, sa, 0, sa)
            == s by {
            assert(d * 0 * (255 - sa) == 0) by (nonlinear_arith);
            assert((s * sa + 0 + sa / 2) / sa == s) by (nonlinear_arith)
                requires
                    0 < sa,
                    0 <= s,
            ;
        }
        assert(blended_channel(red_of(src), red_of(dst), sa, 0, sa) == red_of(src));
        assert(blended_channel(green_of(src), green_of(dst), sa, 0, sa) == green_of(src));
        assert(blended_channel(blue_of(src), blue_of(dst), sa, 0, sa) == blue_of(src));
        let (a, r, g, b) = (sa as u32, red_of(src) as u32, green_of(src) as u32, blue_of(src) as u32);
        lemma_pack_bytes(a, r, g, b);
        assert(pack_channels(a, r, g, b) as int == argb_value(
            alpha_of(src),
            red_of(src),
            green_of(src),
            blue_of(src),
        ));
        assert(blend_value(dst, src) == pack_channels(a, r, g, b));
    }
}

/// Drawing any colour over an opaque pixel leaves the pixel opaque.
pub proof fn lemma_blend_keeps_opaque(dst: u32, src: u32)
    requires
        alpha_of(dst) == 255,
    ensures
        alpha_of(blend_value(dst, src)) == 255,
{
    lemma_channels(src);
    lemma_channels(dst);
    let sa = alpha_of(src);
    if 0 < sa < 255 {
        assert((255 * (255 - sa) + 127) / 255 == 255 - sa) by (nonlinear_arith)
            requires
                0 < sa < 255,
        ;
        assert(blended_alpha(dst, src) == 255);
        assert forall|s: int, d: int| 0 <= s < 256 && 0 <= d < 256 implies 0 <= #[trigger] blended_channel(
            s,
            d,
            sa,
            255,
            255,
        ) < 256 by {
            assert(d * 255 * (255 - sa) / 255 == d * (255 - sa)) by (nonlinear_arith);
            assert(0 <= s * sa + d * (255 - sa) <= 255 * 255) by (nonlinear_arith)
                requires
                    0 <= s < 256,
                    0 <= d < 256,
                    0 < sa < 255,
            ;
        }
        let r = blended_channel(red_of(src), red_of(dst), sa, 255, 255);
        let g = blended_channel(green_of(src), green_of(dst), sa, 255, 255);
        let b = blended_channel(blue_of(src), blue_of(dst), sa, 255, 255);
        assert(0 <= r < 256 && 0 <= g < 256 && 0 <= b < 256);
        lemma_pack_bytes(255, r as u32, g as u32, b as u32);
    }
}

/// Between a transparent and an opaque source, the blended alpha is the
/// source's alpha plus the destination's alpha scaled by the part the source
/// lets through, `da * (255 - sa) / 255`, rounded to the nearest integer;
/// each colour channel is the alpha-weighted mix of source and destination,
/// `(s * sa + d * da * (255 - sa) / 255) / out_a`, rounded to the nearest
/// integer (the destination's share rounded down first).
pub proof fn lemma_blend_rounds_to_nearest(dst: u32, src: u32)
    requires
        0 < alpha_of(src) < 255,
    ensures
        ({
            let sa = alpha_of(src);
            let da = alpha_of(dst);
            let out_a = blended_alpha(dst, src);
            let through = da * (255 - sa);
            &&& 255 * (out_a - sa) <= through + 127 < 255 * (out_a - sa) + 255
            &&& sa <= out_a <= 255
            &&& forall|s: int, d: int|
                0 <= s < 256 && 0 <= d < 256 ==> {
                    let mix = s * sa + d * da * (255 - sa) / 255;
                    let c = #[trigger] blended_channel(s, d, sa, da, out_a);
                    c * out_a <= mix + out_a / 2 < c * out_a + out_a
                }
        }),
{
    let sa = alpha_of(src);
    let da = alpha_of(dst);
    lemma_channels(src);
    lemma_channels(dst);
    lemma_blend_bounds(0, 0, sa, da);
    let out_a = blended_alpha(dst, src);
    let through = da * (255 - sa);
    assert(255 * ((through + 127) / 255) <= through + 127 < 255 * ((through + 127) / 255) + 255)
        by (nonlinear_arith)
        requires
            through >= 0,
    ;
    assert forall|s: int, d: int| 0 <= s < 256 && 0 <= d < 256 implies ({
        let mix = s * sa + d * da * (255 - sa) / 255;
        let c = #[trigger] blended_channel(s, d, sa, da, out_a);
        c * out_a <= mix + out_a / 2 < c * out_a + out_a
    }) by {
        let mix = s * sa + d * da * (255 - sa) / 255;
        lemma_blend_bounds(s, d, sa, da);
        let n = mix + out_a / 2;
        assert(n >= 0);
        assert((n / out_a) * out_a <= n < (n / out_a) * out_a + out_a) by (nonlinear_arith)
            requires
                out_a >= 1,
                n >= 0,
        ;
    }
}

/// Draws `src` over `dst`.
pub fn blend_argb(dst: u32, src: u32) -> (c: u32)
    ensures
        c == blend_value(dst, src),
{
    proof {
        lemma_channels(src);
        lemma_channels(dst);
    }
    let sa = (src >> 24) & 0xFF;
    if sa == 0 {
        return dst;
    }
    if sa == 255 {
        return src;
    }
    let da = (dst >> 24) & 0xFF;
    proof {
        lemma_blend_bounds(red_of(src), red_of(dst), sa as int, da as int);
        lemma_blend_bounds(green_of(src), green_of(dst), sa as int, da as int);
        lemma_blend_bounds(blue_of(src), blue_of(dst), sa as int, da as int);
    }
    let out_a = sa + (da * (255 - sa) + 127) / 255;
    if out_a == 0 {
        return 0;
    }
    let sr = (src >> 16) & 0xFF;
    let sg = (src >> 8) & 0xFF;
    let sb = src & 0xFF;
    let dr = (dst >> 16) & 0xFF;
    let dg = (dst >> 8) & 0xFF;
    let db = dst & 0xFF;

    let r = (sr * sa + dr * da * (255 - sa) / 255 + out_a / 2) / out_a;
    let g = (sg * sa + dg * da * (255 - sa) / 255 + out_a / 2) / out_a;
    let b = (sb * sa + db * da * (255 - sa) / 255 + out_a / 2) / out_a;

    (out_a << 24) | (r << 16) | (g << 8) | b
}

} // verus!
