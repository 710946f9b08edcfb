use mslive::color::{hue_weight, is_white, Color, PadColor, PaletteColor};
use mslive::num::{HALF, UNIT};

fn c(a: i64, r: i64, g: i64, b: i64, w: i64) -> Color {
    Color { a, r, g, b, w }
}

#[test]
fn constructors_fill_the_missing_channels() {
    assert_eq!(Color::argbw(1, 2, 3, 4, 5), c(1, 2, 3, 4, 5));
    assert_eq!(Color::argb(1, 2, 3, 4), c(1, 2, 3, 4, 0));
    assert_eq!(Color::aw(1, 5), c(1, 0, 0, 0, 5));
    assert_eq!(Color::rgbw(2, 3, 4, 5), c(UNIT, 2, 3, 4, 5));
    assert_eq!(Color::rgb(2, 3, 4), c(UNIT, 2, 3, 4, 0));
    assert_eq!(Color::w(5), c(UNIT, 0, 0, 0, 5));
}

#[test]
fn alpha_is_set_or_multiplied() {
    let red = PaletteColor::Red.color();
    assert_eq!(red.a(HALF), c(HALF, UNIT, 0, 0, 0));
    assert_eq!(red.a(HALF).a_mul(HALF), c(250_000, UNIT, 0, 0, 0));
    assert_eq!(red.a_mul(0), c(0, UNIT, 0, 0, 0));
    assert_eq!(red.a_mul(UNIT), red);
    assert_eq!(red.a(3).a_mul(333_333), c(0, UNIT, 0, 0, 0));
}

#[test]
fn the_light_on_the_channels_is_the_colour_times_its_alpha() {
    assert_eq!(c(HALF, UNIT, HALF, 0, 3).channels(), (HALF, 250_000, 0, 1));
    assert_eq!(c(UNIT, 1, 2, 3, 4).channels(), (1, 2, 3, 4));
    assert_eq!(c(0, UNIT, UNIT, UNIT, UNIT).channels(), (0, 0, 0, 0));
    assert_eq!(c(250_000, UNIT, 0, 800_000, 0).channels(), (250_000, 0, 200_000, 0));
    assert_eq!(PaletteColor::Red.color().a_mul(0).channels(), (0, 0, 0, 0));
    assert_eq!(PaletteColor::White.color().channels(), (0, 0, 0, UNIT));
}

#[test]
fn hue_weights_and_the_colour_wheel() {
    assert_eq!(hue_weight(0, UNIT), UNIT);
    assert_eq!(hue_weight(0, 666_666), 0);
    assert_eq!(hue_weight(0, 333_333), 2);
    assert_eq!(hue_weight(250_000, UNIT), HALF);
    assert_eq!(hue_weight(-750_000, UNIT), HALF);
    assert_eq!(Color::hsv(0, UNIT, UNIT), Color::rgb(UNIT, 0, 2));
    assert_eq!(Color::hsv(333_333, UNIT, UNIT), Color::rgb(2, UNIT, 0));
    assert_eq!(Color::hsv(HALF, UNIT, UNIT), Color::rgb(0, UNIT, 999_998));
    assert_eq!(Color::hsv(250_000, UNIT, UNIT), Color::rgb(HALF, UNIT, 0));
    assert_eq!(Color::hsv(100_000, HALF, 800_000), Color::rgb(800_000, 639_998, 400_000));
    assert_eq!(Color::hsv(123_456, 0, UNIT), Color::rgb(UNIT, UNIT, UNIT));
    assert_eq!(Color::hsv(123_456, UNIT, 0), Color::rgb(0, 0, 0));
    assert_eq!(Color::hsv(UNIT + 250_000, UNIT, UNIT), Color::hsv(250_000, UNIT, UNIT));
}

#[test]
fn palette_colours_by_name() {
    assert_eq!(PaletteColor::Off.color(), c(0, 0, 0, 0, 0));
    assert_eq!(PaletteColor::White.color(), c(UNIT, 0, 0, 0, UNIT));
    assert_eq!(PaletteColor::Index(17).color(), c(UNIT, 0, 0, 0, UNIT));
    assert_eq!(PaletteColor::Red.color(), Color::rgb(UNIT, 0, 0));
    assert_eq!(PaletteColor::Orange.color(), Color::rgb(UNIT, 251_000, 0));
    assert_eq!(PaletteColor::Yellow.color(), Color::rgb(UNIT, UNIT, 0));
    assert_eq!(PaletteColor::Pea.color(), Color::rgb(533_000, UNIT, 0));
    assert_eq!(PaletteColor::Lime.color(), Color::rgb(0, UNIT, 0));
    assert_eq!(PaletteColor::Mint.color(), Color::rgb(0, UNIT, 267_000));
    assert_eq!(PaletteColor::Cyan.color(), Color::rgb(0, 800_000, UNIT));
    assert_eq!(PaletteColor::Blue.color(), Color::rgb(0, 0, UNIT));
    assert_eq!(PaletteColor::Violet.color(), Color::rgb(533_000, 0, UNIT));
    assert_eq!(PaletteColor::Magenta.color(), Color::rgb(UNIT, 0, UNIT));
    assert_eq!(PaletteColor::Pink.color(), Color::rgb(UNIT, 380_000, 800_000));
    assert_eq!(Color::from(PaletteColor::Cyan), Color::rgb(0, 800_000, UNIT));
    assert_eq!(Color::from(PaletteColor::Index(3)), Color::w(UNIT));
}

#[test]
fn pad_colours_multiply_the_alpha_in() {
    assert_eq!(PadColor::from(Color::w(UNIT)), PadColor::Palette(PaletteColor::White));
    assert_eq!(
        PadColor::from(Color::rgb(UNIT, UNIT, UNIT)),
        PadColor::Palette(PaletteColor::White)
    );
    assert_eq!(PadColor::from(Color::rgb(UNIT, HALF, 0)), PadColor::Rgb(UNIT, HALF, 0));
    assert_eq!(
        PadColor::from(Color::rgb(UNIT, HALF, 0).a(HALF)),
        PadColor::Rgb(HALF, 250_000, 0)
    );
    assert_eq!(PadColor::from(Color::w(UNIT).a(HALF)), PadColor::Rgb(0, 0, 0));
    assert!(is_white(Color::w(UNIT)));
    assert!(is_white(Color::rgb(UNIT, UNIT, UNIT)));
    assert!(!is_white(Color::rgbw(UNIT, UNIT, UNIT, UNIT)));
    assert!(!is_white(Color::w(HALF)));
}
