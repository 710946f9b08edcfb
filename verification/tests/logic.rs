use mslive::color::{Color, PaletteColor};
use mslive::lights::{Bar, Beam, LaserColor, LaserPattern, Lights, Par, Spider, Strobe};
use mslive::logic::{
    beam_aim, chase_cross, envelope, manual_level, mover_color, raising_env, render_lights,
    spider_aim, strobe_duty, wash_color,
};
use mslive::num::{HALF, UNIT};
use mslive::pattern::{BeamPattern, SpiderPattern};
use mslive::state::{Mode, Palette, State};
use mslive::utils::Pd;
use mslive::wave::Range;

fn red() -> Color {
    PaletteColor::Red.color()
}

fn blue() -> Color {
    PaletteColor::Blue.color()
}

fn dark() -> Color {
    PaletteColor::Off.color()
}

fn state(mode: Mode, phi: i64) -> State {
    let mut s = State::new();
    s.mode = mode;
    s.phi = phi;
    s.palette = Palette::Split(red(), blue());
    s.brightness = UNIT;
    s
}

fn render(s: &State) -> Lights {
    let mut l = Lights::new();
    render_lights(s, &mut l);
    l
}

#[test]
fn a_strobe_is_on_at_the_start_of_its_period_and_off_half_way() {
    let mut s = state(Mode::Strobe { pd: Pd(1, 4), duty: UNIT }, 0);
    s.bpm = 120 * UNIT;
    s.palette = Palette::Solid(red());
    let l = render(&s);
    assert_eq!(l.strobe.color, s.palette.color0(&s));
    assert_eq!(l.strobe.color, red());
    assert_eq!(l.pars[0].color, red());
    s.phi = 125_000;
    let l = render(&s);
    assert_eq!(l.strobe.color.a, 0);
    assert_eq!(l.strobe.color, red().a(0));
    assert_eq!(l.pars[7].color.a, 0);
    assert_eq!(l.beams[2].color.a, 0);
    s.phi = 124_999;
    assert_eq!(render(&s).strobe.color, red());
    s.phi = 250_000;
    assert_eq!(render(&s).strobe.color, red());
}

#[test]
fn the_duty_of_a_strobe_falls_from_one_to_a_half() {
    assert_eq!(strobe_duty(0), UNIT);
    assert_eq!(strobe_duty(UNIT), HALF);
    assert_eq!(strobe_duty(900_000), 750_000);
    assert_eq!(strobe_duty(HALF), 984_375);
}

#[test]
fn off_is_dark_and_on_is_split() {
    let l = render(&state(Mode::Off, 0));
    assert_eq!(l.pars, [Par { color: dark() }; 10]);
    assert_eq!(l.beams, [Beam { color: dark(), pitch: 0, yaw: 0 }; 4]);
    assert_eq!(l.strobe, Strobe { color: dark() });
    for mode in [Mode::On, Mode::Hover] {
        let l = render(&state(mode, 5_000_000));
        assert_eq!(l.pars, [Par { color: red() }; 10]);
        assert_eq!(l.beams, [Beam { color: blue(), pitch: 0, yaw: 0 }; 4]);
        assert_eq!(l.bars, [Bar { color: blue() }; 2]);
        assert_eq!(l.spiders, [Spider { color0: blue(), color1: blue(), pos0: 0, pos1: 0 }; 2]);
        assert_eq!(l.strobe, Strobe { color: red() });
    }
    for mode in [Mode::Twisting { pd: Pd(1, 1) }, Mode::Stdin, Mode::Break { beams: None }] {
        let l = render(&state(mode, 5_000_000));
        assert_eq!(l.pars, [Par { color: dark() }; 10]);
        assert_eq!(l.beams, [Beam { color: dark(), pitch: 0, yaw: 0 }; 4]);
    }
}

#[test]
fn brightness_dims_every_colour() {
    let mut s = state(Mode::On, 0);
    s.brightness = 250_000;
    let l = render(&s);
    assert_eq!(l.pars, [Par { color: red().a(250_000) }; 10]);
    assert_eq!(l.beams[3].color, blue().a(250_000));
    assert_eq!(l.bars[1].color, blue().a(250_000));
    assert_eq!(l.spiders[0].color1, blue().a(250_000));
    assert_eq!(l.strobe.color, red().a(250_000));
}

#[test]
fn auto_beat_flashes_and_moves() {
    let r = Range { lo: 200_000, hi: UNIT };
    let mode = Mode::AutoBeat { pd: Pd(4, 1), r, beam: BeamPattern::Out };
    let s = state(mode, 1_000_000);
    assert_eq!(envelope(&s), 640_000);
    assert_eq!(wash_color(&s), red().a(640_000));
    assert_eq!(mover_color(&s), blue().a(640_000));
    assert_eq!(beam_aim(&s), Some((BeamPattern::Out, Pd(4, 1))));
    assert_eq!(spider_aim(&s), Some(SpiderPattern::Alternate { pd: Pd(8, 1) }));
    let l = render(&s);
    assert_eq!(l.pars, [Par { color: red().a(640_000) }; 10]);
    assert_eq!(l.beams, [Beam { color: red().a(640_000), pitch: HALF, yaw: 330_000 }; 4]);
    assert_eq!(l.bars, [Bar { color: blue().a(640_000) }; 2]);
    assert_eq!(
        l.spiders[0],
        Spider { color0: blue().a(640_000), color1: blue().a(640_000), pos0: 125_000, pos1: 125_000 }
    );
    assert_eq!(l.spiders[1].pos0, 875_000);
    assert_eq!(l.strobe.color, red().a(640_000));
    assert_eq!(envelope(&state(mode, 0)), UNIT);
    assert_eq!(envelope(&state(mode, 3_999_999)), 40_000);
}

#[test]
fn auto_beat_with_a_whirl_lights_each_beam_by_its_sweep() {
    let r = Range { lo: 200_000, hi: UNIT };
    let s = state(Mode::AutoBeat { pd: Pd(16, 1), r, beam: BeamPattern::Whirl }, 4_000_000);
    let l = render(&s);
    assert_eq!(l.beams[0], Beam { color: red().a(UNIT), pitch: 250_000, yaw: 642_858 });
    assert_eq!(l.beams[1], Beam { color: red().a(UNIT), pitch: 750_000, yaw: 357_144 });
    assert_eq!(l.beams[2], Beam { color: red().a(0), pitch: 250_000, yaw: 833_333 });
    assert_eq!(l.beams[3], Beam { color: red().a(UNIT), pitch: 250_000, yaw: 547_620 });
    let w = render(&state(Mode::Whirl { pd: Pd(16, 1) }, 4_000_000));
    assert_eq!(w.beams, l.beams);
    assert_eq!(w.pars, [Par { color: dark() }; 10]);
}

#[test]
fn the_strobe_variants_split_differently() {
    let l = render(&state(Mode::Strobe0 { pd: Pd(1, 8), duty: UNIT }, 0));
    assert_eq!(l.pars, [Par { color: red() }; 10]);
    assert_eq!(l.bars, [Bar { color: dark() }; 2]);
    assert_eq!(l.beams[0], Beam { color: dark(), pitch: 350_000, yaw: 413_333 });
    assert_eq!(l.strobe.color, red());
    let l = render(&state(Mode::Strobe1 { pd: Pd(1, 8), duty: UNIT }, 0));
    assert_eq!(l.pars, [Par { color: dark() }; 10]);
    assert_eq!(l.bars, [Bar { color: red() }; 2]);
    assert_eq!(l.beams[1], Beam { color: red(), pitch: 100_000, yaw: 253_333 });
    assert_eq!(l.spiders[0].color0, red());
    assert_eq!(l.strobe.color, red());
    let l = render(&state(Mode::Strobe { pd: Pd(1, 8), duty: UNIT }, 0));
    assert_eq!(l.pars, [Par { color: red() }; 10]);
    assert_eq!(l.bars, [Bar { color: blue() }; 2]);
    assert_eq!(l.spiders[1], Spider { color0: blue(), color1: blue(), pos0: UNIT, pos1: UNIT });
    let l = render(&state(Mode::Strobe { pd: Pd(1, 8), duty: 0 }, 100_000));
    assert_eq!(l.pars, [Par { color: red() }; 10]);
}

#[test]
fn a_chase_runs_along_the_washes_and_beams() {
    let white = PaletteColor::White.color();
    let mode = Mode::Chase { pd: Pd(1, 4), beam: BeamPattern::Down };
    let l = render(&state(mode, 0));
    assert_eq!(l.pars[0].color, white);
    for i in 1..10 {
        assert_eq!(l.pars[i].color, white.a(0));
    }
    assert_eq!(l.beams.map(|b| b.color.a), [UNIT, 0, 0, 0]);
    assert_eq!(l.bars, [Bar { color: dark() }; 2]);
    let l = render(&state(mode, 700_000));
    assert_eq!(l.pars.map(|p| p.color.a), [0, 0, 0, UNIT, 0, 0, 0, 0, 0, 0]);
    assert_eq!(l.beams.map(|b| b.color.a), [0, 0, 0, 0]);
    let l = render(&state(mode, 750_000));
    assert_eq!(l.beams.map(|b| b.color.a), [0, UNIT, 0, 0]);
}

#[test]
fn a_chase_of_beam_pairs() {
    let mode = Mode::ChaseNotColorful { pd: Pd(1, 4) };
    let s = state(mode, 0);
    assert_eq!(
        chase_cross(&s, Pd(1, 4)),
        BeamPattern::Cross { pitch: 250_000, angle: Some(0), fanning: Some(1_500_000) }
    );
    let l = render(&s);
    assert_eq!(l.beams.map(|b| b.color.a), [UNIT, UNIT, 0, 0]);
    assert_eq!(l.beams[0], Beam { color: red(), pitch: 250_000, yaw: 333_333 });
    assert_eq!(l.beams[1], Beam { color: red(), pitch: 375_000, yaw: 333_333 });
    let s = state(mode, 125_000);
    assert_eq!(
        chase_cross(&s, Pd(1, 4)),
        BeamPattern::Cross { pitch: 192_466, angle: Some(38_356), fanning: Some(1_500_000) }
    );
    let l = render(&s);
    assert_eq!(l.beams.map(|b| b.color.a), [0, 0, UNIT, UNIT]);
    assert_eq!(l.beams[3], Beam { color: red(), pitch: 192_466, yaw: 294_977 });
    assert_eq!(l.pars, [Par { color: dark() }; 10]);
}

#[test]
fn raising_beams_light_up_while_they_rise() {
    assert_eq!(raising_env(0), UNIT);
    assert_eq!(raising_env(50_000), HALF);
    assert_eq!(raising_env(100_000), 0);
    assert_eq!(raising_env(150_000), HALF);
    assert_eq!(raising_env(300_000), UNIT);
    assert_eq!(raising_env(449_999), UNIT);
    assert_eq!(raising_env(450_000), 0);
    let l = render(&state(Mode::RaisingBeams { pd: Pd(4, 1) }, 1_000_000));
    assert_eq!(l.beams[0], Beam { color: red(), pitch: 289_286, yaw: 0 });
    assert_eq!(l.beams[1], Beam { color: red().a(0), pitch: 540_000, yaw: 0 });
}

#[test]
fn a_break_holds_the_beams_in_the_first_colour() {
    let l = render(&state(Mode::Break { beams: Some(BeamPattern::Center) }, 0));
    assert_eq!(l.beams[0], Beam { color: red(), pitch: 850_000, yaw: 50_000 });
    assert_eq!(l.beams[3], Beam { color: red(), pitch: 850_000, yaw: 600_000 });
    assert_eq!(l.pars, [Par { color: dark() }; 10]);
    assert_eq!(l.spiders, [Spider { color0: dark(), color1: dark(), pos0: 0, pos1: 0 }; 2]);
}

#[test]
fn manual_beats_fade_each_side_by_its_own_press() {
    let r = Range { lo: UNIT, hi: 0 };
    let mode = Mode::ManualBeat { t0: 1_000_000, t1: 1_250_000, pd0: Pd(1, 1), pd1: Pd(2, 1), r };
    let mut s = state(mode, 0);
    s.t = 1_250_000;
    assert_eq!(manual_level(&s, 1_000_000, Pd(1, 1), r), 250_000);
    assert_eq!(manual_level(&s, 1_250_000, Pd(2, 1), r), UNIT);
    let l = render(&s);
    assert_eq!(l.pars, [Par { color: red().a(250_000) }; 10]);
    assert_eq!(l.strobe.color, red().a(250_000));
    assert_eq!(l.bars, [Bar { color: blue() }; 2]);
    assert_eq!(l.beams[0], Beam { color: blue(), pitch: 350_000, yaw: 413_333 });
    s.t = 1_500_000;
    assert_eq!(manual_level(&s, 1_000_000, Pd(1, 1), r), 0);
    assert_eq!(manual_level(&s, 1_250_000, Pd(2, 1), r), 562_500);
    s.t = 99_000_000;
    let l = render(&s);
    assert_eq!(l.pars, [Par { color: red().a(0) }; 10]);
    assert_eq!(l.bars, [Bar { color: blue().a(0) }; 2]);
}

#[test]
fn the_laser_sweeps_and_keeps_its_switch() {
    let mut l = Lights::new();
    l.laser.on = true;
    l.laser.rotate = 5;
    l.laser.xflip = 6;
    l.laser.yflip = 7;
    for (phi, x) in [(0i64, 62_500i64), (1_000_000, 562_500), (2_000_000, 1_062_500), (3_000_000, 562_500)] {
        render_lights(&state(Mode::Off, phi), &mut l);
        assert_eq!(l.laser.x, x);
        assert_eq!(l.laser.y, 375_000);
        assert_eq!(l.laser.size, 750_000);
        assert_eq!(l.laser.pattern, LaserPattern::LineX);
        assert_eq!(l.laser.color, LaserColor::RGB);
        assert!(l.laser.on);
        assert_eq!((l.laser.rotate, l.laser.xflip, l.laser.yflip), (5, 6, 7));
    }
}

#[test]
fn the_palettes() {
    let mut s = State::new();
    s.phi = 4_000_000;
    assert_eq!(Palette::Rainbow.color0(&s), Color::rgb(HALF, UNIT, 0));
    assert_eq!(Palette::Rainbow.color1(&s), Color::rgb(HALF, UNIT, 0));
    assert_eq!(Palette::Solid(blue()).color0(&s), blue());
    assert_eq!(Palette::Solid(blue()).color1(&s), blue());
    assert_eq!(Palette::Split(red(), blue()).color0(&s), red());
    assert_eq!(Palette::Split(red(), blue()).color1(&s), blue());
    for (phi, c) in [
        (0i64, PaletteColor::Red),
        (164_999, PaletteColor::Red),
        (165_000, PaletteColor::Lime),
        (329_999, PaletteColor::Lime),
        (330_000, PaletteColor::Blue),
        (499_999, PaletteColor::Blue),
        (500_000, PaletteColor::Red),
    ] {
        s.phi = phi;
        assert_eq!(Palette::Oscillate.color0(&s), c.color());
        assert_eq!(Palette::Oscillate.color1(&s), c.color());
    }
    assert_eq!(Palette::default(), Palette::Rainbow);
    assert_eq!(Mode::default(), Mode::On);
}
