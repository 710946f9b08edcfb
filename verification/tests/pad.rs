use mslive::color::{Color, PaletteColor};
use mslive::num::{HALF, UNIT};
use mslive::pad::{
    beat, ctrl_light, guide_cell, pad_cell, pad_white, render_ctrl, render_pad, show_cell,
    spiral_speed, swirl_at, Brightness,
};
use mslive::pattern::BeamPattern;
use mslive::state::{Mode, Palette, State};
use mslive::utils::Pd;
use mslive::wave::Range;

fn red() -> Color {
    PaletteColor::Red.color()
}

fn blue() -> Color {
    PaletteColor::Blue.color()
}

fn state(mode: Mode, phi: i64, debug: bool) -> State {
    let mut s = State::new();
    s.mode = mode;
    s.phi = phi;
    s.debug = debug;
    s.palette = Palette::Split(red(), blue());
    s
}

#[test]
fn the_guide_fills_every_cell() {
    let s = state(Mode::Off, 1_000_000, true);
    let grid = render_pad(&s, &vec![]);
    assert_eq!(grid.len(), 81);
    for y in 0..9 {
        for x in 0..9 {
            assert_eq!(grid[9 * y + x], Some(guide_cell(&s, x, y)));
            assert_eq!(grid[9 * y + x], pad_cell(&s, &vec![], x, y));
        }
    }
    let white = pad_white();
    assert_eq!(white, Color::rgb(UNIT, UNIT, UNIT));
    let violet = PaletteColor::Violet.color();
    let black = PaletteColor::Off.color();
    let cell = |x: usize, y: usize| grid[9 * y + x].unwrap();
    for x in 1..7 {
        assert_eq!(cell(x, 0), black);
    }
    assert_eq!(cell(1, 1), red());
    assert_eq!(cell(3, 1), red());
    assert_eq!(cell(4, 1), blue());
    assert_eq!(cell(6, 1), blue());
    assert_eq!(cell(2, 2), red().a(562_500));
    assert_eq!(cell(5, 2), blue().a(562_500));
    assert_eq!(cell(2, 3), red().a(250_000));
    assert_eq!(cell(5, 4), blue().a(UNIT));
    assert_eq!(cell(0, 5), red().a(UNIT));
    assert_eq!(cell(3, 5), red().a(UNIT));
    assert_eq!(cell(4, 5), blue().a(UNIT));
    assert_eq!(cell(7, 5), white.a(UNIT));
    assert_eq!(cell(0, 6), white);
    assert_eq!(cell(1, 6), PaletteColor::Blue.color());
    assert_eq!(cell(3, 6), PaletteColor::Cyan.color());
    assert_eq!(cell(5, 6), PaletteColor::Mint.color());
    assert_eq!(cell(6, 6), PaletteColor::Red.color());
    assert_eq!(cell(7, 6), white);
    assert_eq!(cell(0, 7), violet);
    assert_eq!(cell(1, 7), red());
    assert_eq!(cell(3, 7), PaletteColor::Magenta.color());
    assert_eq!(cell(4, 7), PaletteColor::Pink.color());
    assert_eq!(cell(5, 7), violet);
    assert_eq!(cell(6, 7), Color::hsv(62_500, UNIT, UNIT));
    assert_eq!(cell(7, 7), violet);
    for (y, level) in [(0usize, 500_000i64), (1, 793_577), (2, 975_247), (3, 975_247), (4, 793_577)] {
        assert_eq!(cell(0, y), white.a(level));
        assert_eq!(cell(7, y), white.a(level));
    }
    for i in 0..8 {
        assert_eq!(cell(i, 8), white);
        assert_eq!(cell(8, i), violet);
    }
}

#[test]
fn the_corner_blinks_on_the_beat() {
    let corner = |phi: i64| guide_cell(&state(Mode::Off, phi, true), 8, 8);
    assert_eq!(corner(0), PaletteColor::Violet.color());
    assert_eq!(corner(99_999), PaletteColor::Violet.color());
    assert_eq!(corner(100_000), PaletteColor::Off.color());
    assert_eq!(corner(1_000_000), pad_white());
    assert_eq!(corner(3_050_000), pad_white());
    assert_eq!(corner(4_050_000), PaletteColor::Violet.color());
    assert_eq!(corner(4_500_000), PaletteColor::Off.color());
}

#[test]
fn beat_indicators() {
    let s = state(Mode::Off, 250_000, true);
    assert_eq!(beat(&s, Pd(1, 1)), 878_906);
    assert_eq!(beat(&s, Pd(1, 2)), 765_625);
    assert_eq!(beat(&s, Pd(1, 4)), 562_500);
    assert_eq!(beat(&s, Pd(1, 16)), UNIT);
}

#[test]
fn the_show_leaves_the_edges_alone() {
    let s = state(Mode::On, 0, false);
    let grid = render_pad(&s, &vec![]);
    assert_eq!(grid.len(), 81);
    for y in 0..9 {
        for x in 0..9 {
            if x < 8 && y < 8 {
                assert_eq!(grid[9 * y + x], Some(red()));
            } else {
                assert_eq!(grid[9 * y + x], None);
            }
        }
    }
}

#[test]
fn the_show_of_each_mode() {
    let r = Range { lo: 200_000, hi: UNIT };
    let s = state(Mode::AutoBeat { pd: Pd(1, 1), r, beam: BeamPattern::Square }, 1_000_000, false);
    let rows = [500_000i64, 963_613, 996_209, 999_137, UNIT, 999_137, 996_209, 963_613];
    for (y, level) in rows.into_iter().enumerate() {
        for x in 0..8 {
            assert_eq!(show_cell(&s, &vec![], x, y), red().a(level));
        }
    }
    let rolling = [31_250i64, 13_671, 5_859, 2_441, UNIT, 437_500, 187_500, 78_125];
    for mode in [Mode::RaisingBeams { pd: Pd(4, 1) }, Mode::Break { beams: Some(BeamPattern::WaveY) }] {
        let s = state(mode, 1_000_000, false);
        for (y, level) in rolling.into_iter().enumerate() {
            assert_eq!(show_cell(&s, &vec![], 3, y), red().a(level));
        }
    }
    for mode in [
        Mode::Strobe { pd: Pd(1, 4), duty: UNIT },
        Mode::Strobe0 { pd: Pd(1, 4), duty: UNIT },
        Mode::Strobe1 { pd: Pd(1, 4), duty: UNIT },
    ] {
        assert_eq!(show_cell(&state(mode, 0, false), &vec![], 2, 2), red());
        assert_eq!(show_cell(&state(mode, 125_000, false), &vec![], 2, 2), red().a(0));
    }
    let fade = Range { lo: UNIT, hi: 0 };
    let mut s = state(
        Mode::ManualBeat { t0: 0, t1: 250_000, pd0: Pd(1, 1), pd1: Pd(1, 1), r: fade },
        0,
        false,
    );
    s.t = 250_000;
    assert_eq!(show_cell(&s, &vec![], 0, 0), red().a(UNIT));
    s.t = 375_000;
    assert_eq!(show_cell(&s, &vec![], 0, 0), red().a(562_500));
    for mode in [Mode::Off, Mode::Hover, Mode::Stdin, Mode::Break { beams: Some(BeamPattern::Out) }] {
        assert_eq!(show_cell(&state(mode, 0, false), &vec![], 4, 4), PaletteColor::Off.color());
    }
}

#[test]
fn the_lights_of_the_control_surface() {
    let (off, low, medium, high) =
        (Brightness::Off, Brightness::Low, Brightness::Medium, Brightness::High);
    let table = [
        (0i64, [off, off, off, off, low, low, medium, high]),
        (500_000, [low, off, off, off, off, off, off, off]),
        (1_000_000, [high, high, medium, low, low, off, off, off]),
        (1_500_000, [low, low, medium, high, high, high, medium, low]),
        (3_000_000, [high, high, medium, low, low, off, off, off]),
    ];
    for (phi, lights) in table {
        let s = state(Mode::Off, phi, true);
        assert_eq!(render_ctrl(&s), lights.to_vec());
        for i in 0..8 {
            assert_eq!(ctrl_light(&s, i), lights[i]);
        }
    }
}

#[test]
fn the_spiral_comes_from_outside() {
    let swirl: Vec<i64> = (0..64).map(|k| k * 10_000).collect();
    let whirl = state(Mode::Whirl { pd: Pd(16, 1) }, 0, false);
    let chase = state(Mode::Chase { pd: Pd(1, 4), beam: BeamPattern::Twisting }, 0, false);
    assert_eq!(spiral_speed(&whirl), Some(8_000_000));
    assert_eq!(spiral_speed(&chase), Some(12_000_000));
    assert_eq!(spiral_speed(&state(Mode::On, 0, false)), None);
    assert_eq!(spiral_speed(&state(Mode::Whirl { pd: Pd(16, 1) }, 0, true)), None);
    let grid = render_pad(&whirl, &swirl);
    let white = render_pad(&chase, &swirl);
    for y in 0..8usize {
        for x in 0..8usize {
            let level = (8 * y + x) as i64 * 10_000;
            assert_eq!(swirl_at(&swirl, x, y), level);
            assert_eq!(grid[9 * y + x], Some(red().a(level)));
            assert_eq!(white[9 * y + x], Some(pad_white().a(level)));
        }
    }
    assert_eq!(swirl_at(&vec![5, 6], 1, 0), 6);
    assert_eq!(swirl_at(&vec![5, 6], 2, 0), 0);
    assert_eq!(show_cell(&whirl, &vec![HALF], 0, 0), red().a(HALF));
    assert_eq!(show_cell(&whirl, &vec![HALF], 1, 0), red().a(0));
}
