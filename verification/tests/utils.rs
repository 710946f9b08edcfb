use mslive::num::{HALF, UNIT};
use mslive::state::State;
use mslive::utils::{Beat, Holdable, Pd};
use mslive::wave::Range;

#[test]
fn a_period_as_a_fraction_of_a_beat() {
    assert_eq!(Pd(1, 1).fr(), UNIT);
    assert_eq!(Pd(1, 4).fr(), 250_000);
    assert_eq!(Pd(16, 1).fr(), 16 * UNIT);
    assert_eq!(Pd(1, 3).fr(), 333_333);
    assert_eq!(Pd(2, 3).fr(), 666_666);
    assert_eq!(Pd::default(), Pd(1, 1));
}

#[test]
fn a_period_multiplied_and_divided() {
    assert_eq!(Pd(1, 2).mul(4), Pd(4, 2));
    assert_eq!(Pd(1, 2).div(4), Pd(1, 8));
    assert_eq!(Pd(3, 5).mul(1).div(1), Pd(3, 5));
    assert_eq!(Pd(1, 2).mul(4).fr(), 2 * UNIT);
}

#[test]
fn hold_takes_a_press_and_lets_go_on_the_release_of_the_same_button() {
    let mut h: Holdable<u32> = Holdable::default();
    assert!(matches!(h, Holdable::Off));
    assert_eq!(h.or(&7), 7);
    h.hold(1, 2, true, 10);
    assert!(matches!(h, Holdable::Held { x: 1, y: 2, val: 10 }));
    assert_eq!(h.or(&7), 10);
    h.hold(3, 4, true, 20);
    assert!(matches!(h, Holdable::Held { x: 3, y: 4, val: 20 }));
    h.hold(1, 2, false, 30);
    assert!(matches!(h, Holdable::Held { x: 3, y: 4, val: 20 }));
    h.hold(3, 4, false, 40);
    assert!(matches!(h, Holdable::Off));
    assert_eq!(h.or(&7), 7);
}

#[test]
fn hold_takes_a_release_when_nothing_is_held() {
    let mut h: Holdable<&str> = Holdable::Off;
    h.hold(5, 6, false, "late");
    assert!(matches!(h, Holdable::Held { x: 5, y: 6, val: "late" }));
}

#[test]
fn a_beat_fades_along_its_range_and_ends_at_the_near_end() {
    let mut s = State::new();
    s.t = 1_000_000;
    let r = Range { lo: 200_000, hi: UNIT };
    let beat = Beat::at(&s, Pd(1, 1), r);
    assert_eq!(beat, Beat::On { t: 1_000_000, pd: Pd(1, 1), r });
    assert_eq!(beat.or(&s, 7), UNIT);
    s.t = 1_125_000;
    assert_eq!(beat.or(&s, 7), 800_000);
    s.t = 1_250_000;
    assert_eq!(beat.or(&s, 7), 600_000);
    s.t = 1_499_999;
    assert_eq!(beat.or(&s, 7), 200_001);
    s.t = 1_500_000;
    assert_eq!(beat.or(&s, 7), 200_000);
    s.t = 9_000_000;
    assert_eq!(beat.or(&s, 7), 200_000);
}

#[test]
fn a_beat_that_is_off_or_fixed() {
    let s = State::new();
    assert_eq!(Beat::Off.or(&s, 7), 7);
    assert_eq!(Beat::Fr(HALF).or(&s, 7), HALF);
    assert_eq!(Beat::default(), Beat::Off);
}

#[test]
fn elapsed_fraction_of_a_flash() {
    let mut s = State::new();
    s.t = 250_000;
    assert_eq!(s.since(0, Pd(1, 1)), Some(HALF));
    assert_eq!(s.since(0, Pd(1, 2)), None);
    assert_eq!(s.since(0, Pd(4, 1)), Some(125_000));
    assert_eq!(s.since(250_000, Pd(1, 1)), Some(0));
    assert_eq!(s.since(375_000, Pd(1, 1)), Some(750_000));
    s.bpm = 60 * UNIT;
    assert_eq!(s.since(0, Pd(1, 1)), Some(250_000));
}
