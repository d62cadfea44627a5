use vstd::prelude::*;

verus! {

/// A terminal color: the sixteen named palette entries, a direct rgb triple,
/// an indexed palette entry, or the terminal's reset color.
#[derive(Copy, Clone, PartialEq, Eq, Structural, Debug)]
pub enum Color {
    Reset,
    Black,
    Red,
    Green,
    Yellow,
    Blue,
    Magenta,
    Cyan,
    Gray,
    DarkGray,
    LightRed,
    LightGreen,
    LightYellow,
    LightBlue,
    LightMagenta,
    LightCyan,
    White,
    Rgb(u8, u8, u8),
    Indexed(u8),
}

/// True for the colors that `color_to_rgb` maps to an rgb triple; gray, dark
/// gray, reset and indexed colors have no mapping.
pub open spec fn has_rgb(c: Color) -> bool {
    match c {
        Color::Gray | Color::DarkGray | Color::Reset | Color::Indexed(_) => false,
        _ => true,
    }
}

pub open spec fn spec_color_to_rgb(c: Color) -> Color {
    match c {
        Color::Black => Color::Rgb(0, 0, 0),
        Color::Red => Color::Rgb(201, 27, 0),
        Color::Green => Color::Rgb(0, 194, 0),
        Color::Yellow => Color::Rgb(199, 196, 0),
        Color::Blue => Color::Rgb(2, 37, 199),
        Color::Magenta => Color::Rgb(201, 48, 199),
        Color::Cyan => Color::Rgb(0, 197, 199),
        Color::White => Color::Rgb(254, 255, 255),
        Color::LightRed => Color::Rgb(255, 109, 103),
        Color::LightGreen => Color::Rgb(95, 249, 103),
        Color::LightYellow => Color::Rgb(254, 251, 103),
        Color::LightBlue => Color::Rgb(104, 113, 255),
        Color::LightMagenta => Color::Rgb(255, 118, 255),
        Color::LightCyan => Color::Rgb(95, 253, 255),
        Color::Rgb(r, g, b) => Color::Rgb(r, g, b),
        _ => c,
    }
}

/// Returns `color` as a `Color::Rgb` value.
pub fn color_to_rgb(color: Color) -> (r: Color)
    requires
        has_rgb(color),
    ensures
        r == spec_color_to_rgb(color),
        r is Rgb,
{
    match color {
        Color::Black => Color::Rgb(0, 0, 0),
        Color::Red => Color::Rgb(201, 27, 0),
        Color::Green => Color::Rgb(0, 194, 0),
        Color::Yellow => Color::Rgb(199, 196, 0),
        Color::Blue => Color::Rgb(2, 37, 199),
        Color::Magenta => Color::Rgb(201, 48, 199),
        Color::Cyan => Color::Rgb(0, 197, 199),
        Color::White => Color::Rgb(254, 255, 255),
        Color::LightRed => Color::Rgb(255, 109, 103),
        Color::LightGreen => Color::Rgb(95, 249, 103),
        Color::LightYellow => Color::Rgb(254, 251, 103),
        Color::LightBlue => Color::Rgb(104, 113, 255),
        Color::LightMagenta => Color::Rgb(255, 118, 255),
        Color::LightCyan => Color::Rgb(95, 253, 255),
        Color::Rgb(r, g, b) => Color::Rgb(r, g, b),
        _ => color,
    }
}

/// Division that rounds toward zero, for a positive divisor.
pub open spec fn div_trunc(n: int, d: int) -> int
    recommends
        d > 0,
{
    if n >= 0 {
        n / d
    } else {
        -((-n) / d)
    }
}

pub open spec fn clamp_channel(v: int) -> int {
    if v < 0 {
        0
    } else if v > 255 {
        255
    } else {
        v
    }
}

/// One channel of the linear interpolation
/// `base + (overlay - base) * num / den`, rounded toward zero and clamped to
/// `[0, 255]`.
pub open spec fn blend_channel(base: int, overlay: int, num: int, den: int) -> int
    recommends
        den > 0,
{
    clamp_channel(div_trunc(base * den + (overlay - base) * num, den))
}

/// `base + (overlay - base) * alpha` per rgb channel, for
/// `alpha = num / den`, after both colors are mapped to rgb.
pub open spec fn spec_blend(base: Color, overlay: Color, num: int, den: int) -> Color
    recommends
        has_rgb(base),
        has_rgb(overlay),
        den > 0,
{
    match (spec_color_to_rgb(base), spec_color_to_rgb(overlay)) {
        (Color::Rgb(r, g, b), Color::Rgb(ro, go, bo)) => Color::Rgb(
            blend_channel(r as int, ro as int, num, den) as u8,
            blend_channel(g as int, go as int, num, den) as u8,
            blend_channel(b as int, bo as int, num, den) as u8,
        ),
        _ => spec_color_to_rgb(base),
    }
}

fn blend_channel_exec(base: u8, overlay: u8, num: u32, den: u32) -> (r: u8)
    requires
        den > 0,
    ensures
        r == blend_channel(base as int, overlay as int, num as int, den as int),
{
    proof {
        assert(0 <= (base as int) * (den as int) <= 255 * 0xffff_ffff) by (nonlinear_arith)
            requires
                0 <= base <= 255,
                0 < den <= 0xffff_ffffu32,
        ;
        assert(-255 * 0xffff_ffff <= ((overlay as int) - (base as int)) * (num as int) <= 255
            * 0xffff_ffff) by (nonlinear_arith)
            requires
                -255 <= (overlay as int) - (base as int) <= 255,
                0 <= num <= 0xffff_ffffu32,
        ;
    }
    let total: i64 = (base as i64) * (den as i64) + ((overlay as i64) - (base as i64)) * (num
        as i64);
    if total < 0 {
        proof {
            let n = base as int * den as int + (overlay - base) * num;
            assert(div_trunc(n, den as int) <= 0) by {
                assert((-n) / (den as int) >= 0);
            }
        }
        0
    } else {
        let q: u64 = (total as u64) / (den as u64);
        if q > 255 {
            255
        } else {
            q as u8
        }
    }
}

/// Applies `overlay` onto `base` with opacity `alpha_num / alpha_den`:
/// exact per-channel linear interpolation, rounded toward zero and clamped
/// to `[0, 255]`.
pub fn blend(base: Color, overlay: Color, alpha_num: u32, alpha_den: u32) -> (r: Color)
    requires
        has_rgb(base),
        has_rgb(overlay),
        alpha_den > 0,
    ensures
        r == spec_blend(base, overlay, alpha_num as int, alpha_den as int),
{
    let base_rgb = color_to_rgb(base);
    let overlay_rgb = color_to_rgb(overlay);
    match (base_rgb, overlay_rgb) {
        (Color::Rgb(r, g, b), Color::Rgb(ro, go, bo)) => Color::Rgb(
            blend_channel_exec(r, ro, alpha_num, alpha_den),
            blend_channel_exec(g, go, alpha_num, alpha_den),
            blend_channel_exec(b, bo, alpha_num, alpha_den),
        ),
        _ => base_rgb,
    }
}

/// The general blend law: for any two rgb-convertible colors and any
/// opacity, the blend is an rgb triple whose every channel is exactly the
/// linear interpolation `base + (overlay - base) * num / den` of the mapped
/// channels, rounded toward zero and clamped to `[0, 255]`. (Applying two
/// opacities in turn is not claimed to equal one combined blend; no such
/// identity holds of this interpolation.)
pub proof fn lemma_blend_formula(base: Color, overlay: Color, num: int, den: int)
    requires
        has_rgb(base),
        has_rgb(overlay),
        den > 0,
    ensures
        spec_blend(base, overlay, num, den) is Rgb,
        ({
            let b = spec_color_to_rgb(base);
            let o = spec_color_to_rgb(overlay);
            let r = spec_blend(base, overlay, num, den);
            &&& r->Rgb_0 == blend_channel(b->Rgb_0 as int, o->Rgb_0 as int, num, den)
            &&& r->Rgb_1 == blend_channel(b->Rgb_1 as int, o->Rgb_1 as int, num, den)
            &&& r->Rgb_2 == blend_channel(b->Rgb_2 as int, o->Rgb_2 as int, num, den)
        }),
        forall|x: int, y: int| 0 <= #[trigger] blend_channel(x, y, num, den) <= 255,
{
}

/// An opacity of zero keeps the base color, and an opacity of one replaces it
/// with the overlay, both mapped to rgb.
pub proof fn lemma_blend_boundary(base: Color, overlay: Color, den: int)
    requires
        has_rgb(base),
        has_rgb(overlay),
        den > 0,
    ensures
        spec_blend(base, overlay, 0, den) == spec_color_to_rgb(base),
        spec_blend(base, overlay, den, den) == spec_color_to_rgb(overlay),
{
    let b = spec_color_to_rgb(base);
    let o = spec_color_to_rgb(overlay);
    match (b, o) {
        (Color::Rgb(r, g, bl), Color::Rgb(ro, go, bo)) => {
            lemma_blend_channel_boundary(r as int, ro as int, den);
            lemma_blend_channel_boundary(g as int, go as int, den);
            lemma_blend_channel_boundary(bl as int, bo as int, den);
        },
        _ => {},
    }
}

proof fn lemma_blend_channel_boundary(base: int, overlay: int, den: int)
    requires
        0 <= base <= 255,
        0 <= overlay <= 255,
        den > 0,
    ensures
        blend_channel(base, overlay, 0, den) == base,
        blend_channel(base, overlay, den, den) == overlay,
{
    assert(base * den + (overlay - base) * 0 == base * den);
    assert(base * den / den == base) by (nonlinear_arith)
        requires
            den > 0,
            base >= 0,
    ;
    assert(base * den + (overlay - base) * den == overlay * den) by (nonlinear_arith);
    assert(overlay * den / den == overlay) by (nonlinear_arith)
        requires
            den > 0,
            overlay >= 0,
    ;
}

} // verus!
