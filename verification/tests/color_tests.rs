use tilegame::color::{blend, color_to_rgb, Color};
use tilegame::conversions::{as_i32, as_usize, u16_to_usize};

#[test]
fn test_dark_colors() {
    let black = Color::Black;
    assert_eq!(color_to_rgb(black), Color::Rgb(0, 0, 0));

    let red = Color::Red;
    assert_eq!(color_to_rgb(red), Color::Rgb(201, 27, 0));

    let green = Color::Green;
    assert_eq!(color_to_rgb(green), Color::Rgb(0, 194, 0));

    let yellow = Color::Yellow;
    assert_eq!(color_to_rgb(yellow), Color::Rgb(199, 196, 0));

    let blue = Color::Blue;
    assert_eq!(color_to_rgb(blue), Color::Rgb(2, 37, 199));

    let magenta = Color::Magenta;
    assert_eq!(color_to_rgb(magenta), Color::Rgb(201, 48, 199));

    let cyan = Color::Cyan;
    assert_eq!(color_to_rgb(cyan), Color::Rgb(0, 197, 199));

    let white = Color::White;
    assert_eq!(color_to_rgb(white), Color::Rgb(254, 255, 255));
}

#[test]
fn test_light_colors() {
    assert_eq!(color_to_rgb(Color::LightRed), Color::Rgb(255, 109, 103));
    assert_eq!(color_to_rgb(Color::LightGreen), Color::Rgb(95, 249, 103));
    assert_eq!(color_to_rgb(Color::LightYellow), Color::Rgb(254, 251, 103));
    assert_eq!(color_to_rgb(Color::LightBlue), Color::Rgb(104, 113, 255));
    assert_eq!(color_to_rgb(Color::LightMagenta), Color::Rgb(255, 118, 255));
    assert_eq!(color_to_rgb(Color::LightCyan), Color::Rgb(95, 253, 255));
    assert_eq!(color_to_rgb(Color::Rgb(1, 2, 3)), Color::Rgb(1, 2, 3));
}

#[test]
fn test_blend_zero_alpha_keeps_base() {
    let r = blend(Color::Rgb(0, 0, 0), Color::Rgb(255, 255, 255), 0, 1);
    assert_eq!(r, Color::Rgb(0, 0, 0));
}

#[test]
fn test_blend_full_alpha_takes_overlay() {
    let r = blend(Color::Rgb(0, 0, 0), Color::Rgb(255, 255, 255), 1, 1);
    assert_eq!(r, Color::Rgb(255, 255, 255));
}

#[test]
fn test_blend_half_alpha() {
    let r = blend(Color::Rgb(0, 0, 0), Color::Rgb(255, 255, 255), 1, 2);
    assert_eq!(r, Color::Rgb(127, 127, 127));
}

#[test]
fn test_blend_rounds_toward_zero() {
    // 10 + (0 - 10) / 4 = 7.5, truncated to 7 on every channel it applies to.
    let r = blend(Color::Rgb(10, 0, 0), Color::Rgb(0, 0, 0), 1, 4);
    assert_eq!(r, Color::Rgb(7, 0, 0));
}

#[test]
fn test_blend_clamps_channels() {
    // An opacity above one pushes channels past 255; they clamp.
    let r = blend(Color::Rgb(200, 0, 0), Color::Rgb(255, 255, 255), 2, 1);
    assert_eq!(r, Color::Rgb(255, 255, 255));
}

#[test]
fn test_blend_maps_named_colors_first() {
    let r = blend(Color::Black, Color::White, 0, 1);
    assert_eq!(r, Color::Rgb(0, 0, 0));
    let r = blend(Color::Black, Color::White, 1, 1);
    assert_eq!(r, Color::Rgb(254, 255, 255));
}

#[test]
fn test_as_i32() {
    assert_eq!(as_i32(5), 5);
    assert_eq!(as_i32(0), 0);
    assert_eq!(as_i32(usize::MAX), i32::MAX);
}

#[test]
fn test_as_usize() {
    assert_eq!(as_usize(7), 7);
    assert_eq!(as_usize(0), 0);
    assert_eq!(as_usize(-3), 0);
    assert_eq!(as_usize(i32::MAX), i32::MAX as usize);
}

#[test]
fn test_u16_to_usize() {
    assert_eq!(u16_to_usize(0), 0);
    assert_eq!(u16_to_usize(65535), 65535);
}
