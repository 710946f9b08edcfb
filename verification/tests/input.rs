use mslive::color::{Color, PaletteColor};
use mslive::input::{
    auto_beat, fire_beat, on_ctrl, on_pad, pad_beat, pad_brightness, pad_mode, pad_palette,
    CtrlInput, PadInput,
};
use mslive::lights::{LaserColor, LaserPattern, Lights};
use mslive::num::{HALF, UNIT};
use mslive::pattern::BeamPattern;
use mslive::state::{Mode, Palette, State};
use mslive::utils::Pd;
use mslive::wave::Range;

fn press(x: i8, y: i8) -> (State, Lights, bool) {
    let mut s = State::new();
    let mut l = Lights::new();
    s.t = 777;
    let clear = on_pad(&mut s, &mut l, PadInput::Press(x, y));
    (s, l, clear)
}

#[test]
fn capture_switches_the_guide_and_clears_the_pad() {
    let mut s = State::new();
    let mut l = Lights::new();
    assert!(on_pad(&mut s, &mut l, PadInput::Capture(true)));
    assert!(!s.debug);
    assert!(!on_pad(&mut s, &mut l, PadInput::Capture(false)));
    assert!(!s.debug);
    assert!(on_pad(&mut s, &mut l, PadInput::Capture(true)));
    assert!(s.debug);
}

#[test]
fn custom_switches_the_laser() {
    let mut s = State::new();
    let mut l = Lights::new();
    assert!(!on_pad(&mut s, &mut l, PadInput::Custom(true)));
    assert!(l.laser.on);
    on_pad(&mut s, &mut l, PadInput::Custom(false));
    assert!(l.laser.on);
    on_pad(&mut s, &mut l, PadInput::Custom(true));
    assert!(!l.laser.on);
}

#[test]
fn the_edge_buttons_set_the_brightness() {
    let table = [
        (PadInput::Record(true), 70_000),
        (PadInput::Solo(true), 100_000),
        (PadInput::Mute(true), 125_000),
        (PadInput::Stop(true), 300_000),
        (PadInput::B(true), 400_000),
        (PadInput::A(true), 600_000),
        (PadInput::Pan(true), 800_000),
        (PadInput::Volume(true), UNIT),
    ];
    for (input, level) in table {
        let mut s = State::new();
        let mut l = Lights::new();
        assert!(!on_pad(&mut s, &mut l, input));
        assert_eq!(s.brightness, level);
        assert_eq!(pad_brightness(input), Some(level));
    }
    for input in [PadInput::Record(false), PadInput::Volume(false), PadInput::Right(true), PadInput::Release(1, 1)] {
        let mut s = State::new();
        let mut l = Lights::new();
        on_pad(&mut s, &mut l, input);
        assert_eq!(s.brightness, 250_000);
        assert_eq!(pad_brightness(input), None);
    }
}

#[test]
fn up_and_down_set_the_multiplier_and_a_press_resets_it() {
    let mut s = State::new();
    let mut l = Lights::new();
    on_pad(&mut s, &mut l, PadInput::Up(true));
    assert_eq!(s.phi_mul, 2 * UNIT);
    on_pad(&mut s, &mut l, PadInput::Down(true));
    assert_eq!(s.phi_mul, HALF);
    on_pad(&mut s, &mut l, PadInput::Down(false));
    assert_eq!(s.phi_mul, HALF);
    on_pad(&mut s, &mut l, PadInput::Release(3, 3));
    assert_eq!(s.phi_mul, HALF);
    on_pad(&mut s, &mut l, PadInput::Left(true));
    assert!(s.follow_stdin);
    on_pad(&mut s, &mut l, PadInput::Press(8, 8));
    assert_eq!(s.phi_mul, UNIT);
    assert!(!s.follow_stdin);
    assert_eq!(s.mode, Mode::On);
    assert_eq!(s.palette, Palette::Rainbow);
}

#[test]
fn the_grid_selects_modes() {
    let r = Range { lo: 200_000, hi: UNIT };
    let auto = |pd, beam| Mode::AutoBeat { pd, r, beam };
    let table = [
        ((1, 0), Mode::Off),
        ((2, 0), Mode::Break { beams: Some(BeamPattern::Out) }),
        ((3, 0), Mode::RaisingBeams { pd: Pd(4, 1) }),
        ((4, 0), Mode::Break { beams: Some(BeamPattern::WaveY) }),
        ((5, 0), Mode::Whirl { pd: Pd(16, 1) }),
        ((6, 0), Mode::Break { beams: Some(BeamPattern::UpDownWave) }),
        ((1, 1), Mode::On),
        ((6, 1), Mode::On),
        ((1, 2), auto(Pd(4, 1), BeamPattern::Square)),
        ((2, 2), auto(Pd(4, 1), BeamPattern::RaisingBeams)),
        ((3, 2), auto(Pd(4, 1), BeamPattern::Twisting)),
        ((6, 2), auto(Pd(4, 1), BeamPattern::Square)),
        ((1, 3), auto(Pd(2, 1), BeamPattern::Square)),
        ((2, 3), auto(Pd(2, 1), BeamPattern::Whirl)),
        ((5, 3), auto(Pd(2, 1), BeamPattern::Square)),
        ((1, 4), auto(Pd(1, 1), BeamPattern::Square)),
        ((2, 4), auto(Pd(1, 1), BeamPattern::Twisting)),
        ((4, 4), auto(Pd(1, 1), BeamPattern::Square)),
        ((0, 5), Mode::Strobe0 { pd: Pd(1, 8), duty: UNIT }),
        ((1, 5), Mode::Strobe1 { pd: Pd(1, 8), duty: UNIT }),
        ((2, 5), Mode::Strobe { pd: Pd(1, 4), duty: UNIT }),
        ((3, 5), Mode::Strobe { pd: Pd(1, 8), duty: UNIT }),
        ((4, 5), Mode::Strobe { pd: Pd(1, 8), duty: UNIT }),
        ((5, 5), Mode::ChaseNotColorful { pd: Pd(1, 4) }),
        ((6, 5), Mode::Chase { pd: Pd(1, 2), beam: BeamPattern::Twisting }),
        ((7, 5), Mode::Chase { pd: Pd(1, 4), beam: BeamPattern::Twisting }),
    ];
    for ((x, y), mode) in table {
        let (s, _, clear) = press(x, y);
        assert_eq!(s.mode, mode);
        assert_eq!(pad_mode(x, y), Some(mode));
        assert_eq!(s.palette, Palette::Rainbow);
        assert!(!clear);
        assert!(s.is_wf());
    }
    for (x, y) in [(0, 1), (7, 1), (0, 0), (7, 0), (8, 0), (8, 5), (-1, 3), (3, 6), (3, 7), (3, 8)] {
        assert_eq!(pad_mode(x, y), None);
    }
    assert_eq!(auto_beat(Pd(1, 1), BeamPattern::Whirl), auto(Pd(1, 1), BeamPattern::Whirl));
}

#[test]
fn the_grid_selects_palettes() {
    let c = |p: PaletteColor| p.color();
    let table = [
        ((1, 7), Palette::Solid(c(PaletteColor::Red))),
        ((2, 7), Palette::Split(c(PaletteColor::Red), c(PaletteColor::Magenta))),
        ((3, 7), Palette::Split(c(PaletteColor::Red), c(PaletteColor::Blue))),
        ((4, 7), Palette::Split(c(PaletteColor::Red), c(PaletteColor::Violet))),
        ((5, 7), Palette::Split(c(PaletteColor::Violet), c(PaletteColor::Red))),
        ((6, 7), Palette::Rainbow),
        ((0, 6), Palette::Solid(c(PaletteColor::White))),
        ((1, 6), Palette::Solid(c(PaletteColor::Blue))),
        ((2, 6), Palette::Split(c(PaletteColor::Blue), c(PaletteColor::Cyan))),
        ((3, 6), Palette::Split(c(PaletteColor::Cyan), c(PaletteColor::Lime))),
        ((4, 6), Palette::Split(c(PaletteColor::Mint), c(PaletteColor::Mint))),
        ((5, 6), Palette::Split(c(PaletteColor::Lime), c(PaletteColor::Lime))),
        ((6, 6), Palette::Oscillate),
        ((7, 6), Palette::Solid(Color::rgbw(UNIT, UNIT, UNIT, UNIT))),
    ];
    for ((x, y), palette) in table {
        let mut s = State::new();
        let mut l = Lights::new();
        s.palette = Palette::Solid(c(PaletteColor::Pea));
        on_pad(&mut s, &mut l, PadInput::Press(x, y));
        assert_eq!(s.palette, palette);
        assert_eq!(pad_palette(x, y), Some(palette));
        assert_eq!(s.mode, Mode::On);
    }
    for (x, y) in [(0, 7), (7, 7), (8, 6), (8, 7), (3, 5), (3, 8)] {
        assert_eq!(pad_palette(x, y), None);
    }
}

#[test]
fn the_outer_columns_fire_manual_beats() {
    let fade = Range { lo: UNIT, hi: 0 };
    let lengths = [Pd(4, 1), Pd(2, 1), Pd(1, 1), Pd(1, 2), Pd(1, 4)];
    for (y, pd) in lengths.into_iter().enumerate() {
        let y = y as i8;
        assert_eq!(pad_beat(0, y), Some(pd));
        assert_eq!(pad_beat(7, y), Some(pd));
        let (s, _, _) = press(0, y);
        assert_eq!(s.mode, Mode::ManualBeat { t0: 777, t1: 0, pd0: pd, pd1: pd, r: fade });
        let (s, _, _) = press(7, y);
        assert_eq!(s.mode, Mode::ManualBeat { t0: 0, t1: 777, pd0: pd, pd1: pd, r: fade });
    }
    assert_eq!(pad_beat(0, 5), None);
    assert_eq!(pad_beat(1, 0), None);
    let mut s = State::new();
    let mut l = Lights::new();
    s.t = 100;
    on_pad(&mut s, &mut l, PadInput::Press(0, 2));
    s.t = 200;
    on_pad(&mut s, &mut l, PadInput::Press(7, 4));
    assert_eq!(s.mode, Mode::ManualBeat { t0: 100, t1: 200, pd0: Pd(1, 1), pd1: Pd(1, 4), r: fade });
    s.t = 300;
    on_pad(&mut s, &mut l, PadInput::Press(0, 0));
    assert_eq!(s.mode, Mode::ManualBeat { t0: 300, t1: 200, pd0: Pd(4, 1), pd1: Pd(1, 4), r: fade });
    let kept = Range { lo: 3, hi: 4 };
    let before = Mode::ManualBeat { t0: 1, t1: 2, pd0: Pd(1, 1), pd1: Pd(1, 1), r: kept };
    assert_eq!(
        fire_beat(before, false, 9, Pd(2, 1)),
        Mode::ManualBeat { t0: 1, t1: 9, pd0: Pd(1, 1), pd1: Pd(2, 1), r: kept }
    );
}

#[test]
fn the_top_corners_tap_and_resolve_the_tempo() {
    let mut s = State::new();
    let mut l = Lights::new();
    s.phi = 5;
    for t in [0i64, 500_000, 1_000_000] {
        s.t = t;
        on_pad(&mut s, &mut l, PadInput::Press(0, 7));
    }
    assert_eq!(s.bpm_taps, vec![0, 500_000, 1_000_000]);
    s.bpm = 90 * UNIT;
    on_pad(&mut s, &mut l, PadInput::Press(7, 7));
    assert_eq!(s.bpm, 120 * UNIT);
    assert_eq!(s.phi, 0);
    assert!(s.bpm_taps.is_empty());
    assert_eq!(s.mode, Mode::On);
    s.phi = 5;
    on_pad(&mut s, &mut l, PadInput::Press(0, 7));
    on_pad(&mut s, &mut l, PadInput::Press(7, 7));
    assert_eq!((s.bpm, s.phi), (120 * UNIT, 5));
    assert!(s.bpm_taps.is_empty());
    on_pad(&mut s, &mut l, PadInput::Press(7, 7));
    assert_eq!((s.bpm, s.phi), (120 * UNIT, 0));
}

#[test]
fn the_control_surface_sets_brightness_and_laser() {
    let mut s = State::new();
    let mut l = Lights::new();
    on_ctrl(&mut s, &mut l, CtrlInput::Slider(0, 123));
    assert_eq!(s.brightness, 123);
    on_ctrl(&mut s, &mut l, CtrlInput::Focus(0, true));
    assert!(l.laser.on);
    on_ctrl(&mut s, &mut l, CtrlInput::Focus(0, false));
    on_ctrl(&mut s, &mut l, CtrlInput::Focus(1, true));
    on_ctrl(&mut s, &mut l, CtrlInput::Other);
    assert!(l.laser.on);
    on_ctrl(&mut s, &mut l, CtrlInput::Slider(1, HALF));
    assert_eq!(l.laser.pattern, LaserPattern::Raw(128));
    on_ctrl(&mut s, &mut l, CtrlInput::Slider(2, 22));
    on_ctrl(&mut s, &mut l, CtrlInput::Slider(3, 33));
    on_ctrl(&mut s, &mut l, CtrlInput::Slider(4, 44));
    on_ctrl(&mut s, &mut l, CtrlInput::Slider(5, 55));
    on_ctrl(&mut s, &mut l, CtrlInput::Slider(6, UNIT));
    on_ctrl(&mut s, &mut l, CtrlInput::Slider(7, 77));
    assert_eq!(l.laser.rotate, 22);
    assert_eq!(l.laser.xflip, 33);
    assert_eq!(l.laser.y, 44);
    assert_eq!(l.laser.size, 55);
    assert_eq!(l.laser.color, LaserColor::Raw(255));
    assert_eq!((l.laser.x, l.laser.yflip), (0, 0));
    assert_eq!(s.brightness, 123);
}
