use mslive::color::{Color, PaletteColor};
use mslive::lights::{
    assemble, fr_cyclic, fr_spread, owner, Bar, Beam, Channels, Fixture, Laser, LaserColor,
    LaserPattern, Lights, Par, Spider, Strobe, FRAME_LEN,
};
use mslive::num::{HALF, UNIT};

const KINDS: [Fixture; 6] = [
    Fixture::Par,
    Fixture::Beam,
    Fixture::Strobe,
    Fixture::Bar,
    Fixture::Laser,
    Fixture::Spider,
];

fn dark() -> Color {
    PaletteColor::Off.color()
}

fn blocks(n: usize, width: usize, tag: u8) -> Vec<Vec<u8>> {
    (0..n).map(|i| (0..width).map(|k| tag + (i * width + k) as u8).collect()).collect()
}

fn full() -> Channels {
    Channels {
        pars: blocks(10, 8, 1),
        beams: blocks(4, 15, 100),
        bars: blocks(2, 7, 170),
        spiders: blocks(2, 15, 200),
        strobe: vec![91, 92, 93, 94, 95, 96, 97],
        laser: vec![61, 62, 63, 64, 65, 66, 67, 68, 69, 70, 71],
    }
}

#[test]
fn a_new_rig_is_dark() {
    let l = Lights::new();
    assert_eq!(l.pars, [Par { color: dark() }; 10]);
    assert_eq!(l.beams, [Beam { color: dark(), pitch: 0, yaw: 0 }; 4]);
    assert_eq!(l.bars, [Bar { color: dark() }; 2]);
    assert_eq!(l.spiders, [Spider { color0: dark(), color1: dark(), pos0: 0, pos1: 0 }; 2]);
    assert_eq!(l.strobe, Strobe { color: dark() });
    assert!(!l.laser.on);
}

#[test]
fn reset_darkens_all_but_the_laser() {
    let mut l = Lights::new();
    let red = PaletteColor::Red.color();
    l.split(red, red);
    l.beams[2].pitch = 5;
    l.spiders[1].pos1 = 6;
    l.laser.on = true;
    l.laser.x = 7;
    let laser = l.laser;
    l.reset();
    assert_eq!(l.pars, [Par { color: dark() }; 10]);
    assert_eq!(l.beams, [Beam { color: dark(), pitch: 0, yaw: 0 }; 4]);
    assert_eq!(l.bars, [Bar { color: dark() }; 2]);
    assert_eq!(l.spiders, [Spider { color0: dark(), color1: dark(), pos0: 0, pos1: 0 }; 2]);
    assert_eq!(l.strobe, Strobe { color: dark() });
    assert_eq!(l.laser, laser);
}

#[test]
fn split_gives_washes_one_colour_and_movers_the_other() {
    let mut l = Lights::new();
    let red = PaletteColor::Red.color();
    let blue = PaletteColor::Blue.color();
    l.beams[1].pitch = 11;
    l.beams[1].yaw = 12;
    l.spiders[0].pos0 = 13;
    l.split(red, blue);
    assert_eq!(l.pars, [Par { color: red }; 10]);
    assert_eq!(l.beams[0], Beam { color: blue, pitch: 0, yaw: 0 });
    assert_eq!(l.beams[1], Beam { color: blue, pitch: 11, yaw: 12 });
    assert_eq!(l.bars, [Bar { color: blue }; 2]);
    assert_eq!(l.spiders[0], Spider { color0: blue, color1: blue, pos0: 13, pos1: 0 });
    assert_eq!(l.strobe, Strobe { color: red });
}

#[test]
fn map_colors_reaches_every_colour_and_no_position() {
    let mut l = Lights::new();
    l.split(PaletteColor::Red.color(), PaletteColor::Blue.color());
    l.spiders[1].color1 = PaletteColor::Lime.color();
    l.beams[3].yaw = 9;
    let laser = l.laser;
    l.map_colors(|c: Color| c.a_mul(HALF));
    assert_eq!(l.pars, [Par { color: PaletteColor::Red.color().a(HALF) }; 10]);
    assert_eq!(l.beams[3], Beam { color: PaletteColor::Blue.color().a(HALF), pitch: 0, yaw: 9 });
    assert_eq!(l.bars, [Bar { color: PaletteColor::Blue.color().a(HALF) }; 2]);
    assert_eq!(l.spiders[1].color0, PaletteColor::Blue.color().a(HALF));
    assert_eq!(l.spiders[1].color1, PaletteColor::Lime.color().a(HALF));
    assert_eq!(l.strobe, Strobe { color: PaletteColor::Red.color().a(HALF) });
    assert_eq!(l.laser, laser);
}

#[test]
fn for_each_hands_out_index_and_cyclic_fraction() {
    let mut l = Lights::new();
    l.for_each_par(|p: Par, i: usize, fr: i64| Par { color: p.color.a(fr).a_mul(UNIT) });
    for i in 0..10 {
        assert_eq!(l.pars[i].color.a, i as i64 * 100_000);
    }
    l.for_each_beam(|b: Beam, i: usize, fr: i64| Beam { pitch: fr, yaw: i as i64, ..b });
    assert_eq!(l.beams.map(|b| b.pitch), [0, 250_000, HALF, 750_000]);
    assert_eq!(l.beams.map(|b| b.yaw), [0, 1, 2, 3]);
    l.for_each_bar(|b: Bar, _i: usize, fr: i64| Bar { color: b.color.a(fr) });
    assert_eq!(l.bars.map(|b| b.color.a), [0, HALF]);
    l.for_each_spider(|s: Spider, i: usize, fr: i64| Spider { pos0: fr, pos1: i as i64, ..s });
    assert_eq!(l.spiders.map(|s| (s.pos0, s.pos1)), [(0, 0), (HALF, 1)]);
}

#[test]
fn the_two_fractions_of_a_place_in_a_group() {
    assert_eq!(fr_cyclic(0, 4), 0);
    assert_eq!(fr_cyclic(3, 4), 750_000);
    assert_eq!(fr_cyclic(1, 3), 333_333);
    assert_eq!(fr_cyclic(9, 10), 900_000);
    assert_eq!(fr_spread(0, 4), 0);
    assert_eq!(fr_spread(3, 4), UNIT);
    assert_eq!(fr_spread(1, 4), 333_333);
    assert_eq!(fr_spread(1, 2), UNIT);
    assert_eq!(fr_spread(5, 10), 555_555);
}

#[test]
fn the_layout_of_the_frame() {
    assert_eq!(FRAME_LEN, 205);
    assert_eq!(Fixture::Par.offset(0), 1);
    assert_eq!(Fixture::Par.offset(9), 73);
    assert_eq!(Fixture::Beam.offset(0), 81);
    assert_eq!(Fixture::Beam.offset(3), 126);
    assert_eq!(Fixture::Strobe.offset(0), 142);
    assert_eq!(Fixture::Bar.offset(0), 149);
    assert_eq!(Fixture::Bar.offset(1), 156);
    assert_eq!(Fixture::Laser.offset(0), 164);
    assert_eq!(Fixture::Spider.offset(0), 175);
    assert_eq!(Fixture::Spider.offset(1), 190);
    assert_eq!(KINDS.map(|k| k.count()), [10, 4, 1, 2, 1, 2]);
    assert_eq!(KINDS.map(|k| k.width()), [8, 15, 7, 7, 11, 15]);
}

#[test]
fn no_two_fixtures_share_a_byte_of_the_frame() {
    let mut owners = vec![None; FRAME_LEN];
    for kind in KINDS {
        for i in 0..kind.count() {
            let at = kind.offset(i);
            assert!(at + kind.width() <= FRAME_LEN);
            for j in at..at + kind.width() {
                assert_eq!(owners[j], None);
                owners[j] = Some((kind, i));
            }
        }
    }
    for j in 0..FRAME_LEN + 10 {
        assert_eq!(owner(j), owners.get(j).copied().flatten());
    }
    assert_eq!(owner(0), None);
    assert_eq!(owner(141), None);
    assert_eq!(owner(163), None);
    assert_eq!(owner(80), Some((Fixture::Par, 9)));
    assert_eq!(owner(204), Some((Fixture::Spider, 1)));
}

#[test]
fn the_frame_holds_every_block_at_its_place() {
    let channels = full();
    let frame = assemble(&channels).unwrap();
    assert_eq!(frame[0], 0);
    assert_eq!(frame[141], 0);
    assert_eq!(frame[163], 0);
    for i in 0..10 {
        assert_eq!(&frame[1 + 8 * i..9 + 8 * i], &channels.pars[i][..]);
    }
    for i in 0..4 {
        assert_eq!(&frame[81 + 15 * i..96 + 15 * i], &channels.beams[i][..]);
    }
    for i in 0..2 {
        assert_eq!(&frame[149 + 7 * i..156 + 7 * i], &channels.bars[i][..]);
        assert_eq!(&frame[175 + 15 * i..190 + 15 * i], &channels.spiders[i][..]);
    }
    assert_eq!(&frame[142..149], &channels.strobe[..]);
    assert_eq!(&frame[164..175], &channels.laser[..]);
    for j in 0..FRAME_LEN {
        assert_eq!(frame[j], channels.frame_byte(j));
    }
}

#[test]
fn bytes_outside_the_written_ranges_stay_zero() {
    let mut channels = full();
    channels.pars[3] = vec![9, 9, 9];
    channels.beams[0] = vec![];
    channels.strobe = vec![7];
    channels.laser = vec![];
    channels.spiders[1] = vec![5; 14];
    let frame = assemble(&channels).unwrap();
    assert_eq!(&frame[25..33], &[9, 9, 9, 0, 0, 0, 0, 0]);
    assert_eq!(&frame[81..96], &[0; 15]);
    assert_eq!(&frame[96..111], &channels.beams[1][..]);
    assert_eq!(&frame[142..149], &[7, 0, 0, 0, 0, 0, 0]);
    assert_eq!(&frame[164..175], &[0; 11]);
    assert_eq!(&frame[190..205], &[5, 5, 5, 5, 5, 5, 5, 5, 5, 5, 5, 5, 5, 5, 0]);
    let empty = Channels {
        pars: vec![vec![]; 10],
        beams: vec![vec![]; 4],
        bars: vec![vec![]; 2],
        spiders: vec![vec![]; 2],
        strobe: vec![],
        laser: vec![],
    };
    assert_eq!(assemble(&empty), Some([0u8; 205]));
}

#[test]
fn a_block_that_does_not_fit_gives_no_frame() {
    let mut channels = full();
    channels.pars[9].push(1);
    assert!(!channels.fits(Fixture::Par));
    assert!(channels.fits(Fixture::Beam));
    assert_eq!(assemble(&channels), None);
    let mut channels = full();
    channels.strobe.push(1);
    assert_eq!(assemble(&channels), None);
    let mut channels = full();
    channels.laser = vec![0; 12];
    assert_eq!(assemble(&channels), None);
    let mut channels = full();
    channels.beams.pop();
    assert_eq!(assemble(&channels), None);
    let mut channels = full();
    channels.spiders.push(vec![]);
    assert_eq!(assemble(&channels), None);
    let mut channels = full();
    channels.bars[0] = vec![0; 8];
    assert_eq!(assemble(&channels), None);
}

#[test]
fn the_laser_keeps_its_fields() {
    let laser = Laser {
        on: true,
        pattern: LaserPattern::LineX,
        color: LaserColor::RGB,
        size: 1,
        x: 2,
        y: 3,
        rotate: 4,
        xflip: 5,
        yflip: 6,
    };
    let mut l = Lights::new();
    l.laser = laser;
    l.split(dark(), dark());
    l.map_colors(|c: Color| c);
    assert_eq!(l.laser, laser);
}
