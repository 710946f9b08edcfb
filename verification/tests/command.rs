use mslive::command::{
    follow_stdin, is_digit, is_space, obey, parse_command, random_modes, Command, Parsed,
};
use mslive::num::UNIT;
use mslive::pattern::BeamPattern;
use mslive::state::{Mode, State, BPM_MAX, BPM_MIN};
use mslive::utils::Pd;
use mslive::wave::Range;

fn tempo(text: &str) -> Parsed {
    parse_command(format!("$ TEMPO {text}").as_bytes())
}

fn bpm(micros: i64) -> Parsed {
    Parsed::Command(Command::Tempo(micros))
}

#[test]
fn lines_that_are_no_commands() {
    for line in ["", "$", "TEMPO 120", " $ TEMPO 120", "$TEMPO 120", "hello", "$\tTEMPO 1", "#"] {
        assert_eq!(parse_command(line.as_bytes()), Parsed::NotCommand);
    }
}

#[test]
fn the_commands_by_name() {
    assert_eq!(parse_command(b"$ RANDOM"), Parsed::Command(Command::Random));
    assert_eq!(parse_command(b"$ CHASE"), Parsed::Command(Command::Chase));
    assert_eq!(parse_command(b"$ CHASE\n"), Parsed::Command(Command::Chase));
    assert_eq!(parse_command(b"$   \t RANDOM \r\n"), Parsed::Command(Command::Random));
    assert_eq!(parse_command(b"$ RANDOM with more words"), Parsed::Command(Command::Random));
    assert_eq!(parse_command(b"$ TEMPO 120"), bpm(120 * UNIT));
}

#[test]
fn names_that_are_no_commands() {
    for line in ["$ ", "$  ", "$ random", "$ CHASER", "$ CHAS", "$ TEMPO\t120", "$ X", "$ RANDOM\tx", "$ \n"] {
        assert_eq!(parse_command(line.as_bytes()), Parsed::Unrecognized);
    }
}

#[test]
fn tempos_in_decimal() {
    assert_eq!(tempo("120"), bpm(120 * UNIT));
    assert_eq!(tempo("120\n"), bpm(120 * UNIT));
    assert_eq!(tempo("120.5"), bpm(120_500_000));
    assert_eq!(tempo("120."), bpm(120 * UNIT));
    assert_eq!(tempo("128.123456"), bpm(128_123_456));
    assert_eq!(tempo("128.1234569999"), bpm(128_123_456));
    assert_eq!(tempo("090.000001"), bpm(90_000_001));
    assert_eq!(tempo("174 and more"), bpm(174 * UNIT));
    assert_eq!(tempo("1"), bpm(BPM_MIN));
    assert_eq!(tempo("1000000"), bpm(BPM_MAX));
}

#[test]
fn tempos_are_kept_within_the_limits() {
    assert_eq!(tempo("0"), bpm(BPM_MIN));
    assert_eq!(tempo("0.5"), bpm(BPM_MIN));
    assert_eq!(tempo("0.999999"), bpm(BPM_MIN));
    assert_eq!(tempo("1000000.000001"), bpm(BPM_MAX));
    assert_eq!(tempo("9999999"), bpm(BPM_MAX));
    assert_eq!(tempo("10000000"), bpm(BPM_MAX));
    assert_eq!(tempo("123456789012345678901234567890123456789012345678901234567890"), bpm(BPM_MAX));
}

#[test]
fn tempos_with_sign_point_and_exponent() {
    assert_eq!(tempo("+120"), bpm(120 * UNIT));
    assert_eq!(tempo("-120"), bpm(BPM_MIN));
    assert_eq!(tempo("-0"), bpm(BPM_MIN));
    assert_eq!(tempo(".5"), bpm(BPM_MIN));
    assert_eq!(tempo("1.5"), bpm(1_500_000));
    assert_eq!(tempo("120.25"), bpm(120_250_000));
    assert_eq!(tempo("5."), bpm(5 * UNIT));
    assert_eq!(tempo("1e3"), bpm(1_000 * UNIT));
    assert_eq!(tempo("1E2"), bpm(100 * UNIT));
    assert_eq!(tempo("1e+2"), bpm(100 * UNIT));
    assert_eq!(tempo("1.5e2"), bpm(150 * UNIT));
    assert_eq!(tempo("1.e1"), bpm(10 * UNIT));
    assert_eq!(tempo(".12e3"), bpm(120 * UNIT));
    assert_eq!(tempo("12e-1"), bpm(1_200_000));
    assert_eq!(tempo("1200e-1"), bpm(120 * UNIT));
    assert_eq!(tempo("0.00012e6"), bpm(120 * UNIT));
    assert_eq!(tempo("128.1234569e0"), bpm(128_123_456));
    assert_eq!(tempo("1281234569e-7"), bpm(128_123_456));
    assert_eq!(tempo("123456789e-3"), bpm(123_456_789_000));
    assert_eq!(tempo("9999999999999e-7"), bpm(999_999_999_999));
    assert_eq!(tempo("10000000000000e-7"), bpm(BPM_MAX));
    assert_eq!(tempo("000000000000000000000000120"), bpm(120 * UNIT));
    assert_eq!(tempo("0.000000000000000000000000000012e31"), bpm(120 * UNIT));
    assert_eq!(tempo("120000000000000000000000000000e-27"), bpm(120 * UNIT));
}

#[test]
fn tempos_beyond_the_limits_and_in_letters() {
    assert_eq!(tempo("1e30"), bpm(BPM_MAX));
    assert_eq!(tempo("1e-30"), bpm(BPM_MIN));
    assert_eq!(tempo("-1e30"), bpm(BPM_MIN));
    assert_eq!(tempo("0e99999999999999999999999999999999999999999999"), bpm(BPM_MIN));
    assert_eq!(tempo("0.001e99999999999999999999999999999999999999999"), bpm(BPM_MAX));
    assert_eq!(tempo("7e-9999999999999999999999999999999999999999999"), bpm(BPM_MIN));
    for text in ["inf", "INF", "Infinity", "+inf", "+infinity"] {
        assert_eq!(tempo(text), bpm(BPM_MAX));
    }
    for text in ["-inf", "-Infinity", "nan", "NaN", "-nan", "+NAN"] {
        assert_eq!(tempo(text), bpm(BPM_MIN));
    }
}

#[test]
fn the_same_words_are_numbers_as_for_the_float_parser() {
    let words = [
        "", "+", "-", ".", "e", "e5", ".e5", "1e", "1e+", "1e-", "+.", "1", "+1", "-1", "1.", ".1",
        "1.1", "+1.1e1", "-1.1E-1", "1e1", "1e+1", "1e-1", "1e1.5", "1e1e1", "1.2.3", "1..2", "++1",
        "+-1", "1+", "1-1", "0x10", "1_000", "1,5", "12a", "a12", "abc", " 1", "inf", "infinity",
        "Inf", "INFINITY", "infinit", "infinityy", "in", "nan", "NaN", "nana", "na", "+inf", "-nan",
        "+-inf", "1f", "1e5x", "١", "1\u{0}",
    ];
    for word in words {
        if word.contains(' ') {
            continue;
        }
        let parsed = tempo(word);
        match word.parse::<f64>() {
            Ok(_) => assert!(matches!(parsed, Parsed::Command(Command::Tempo(_))), "{word:?}"),
            Err(_) => assert_eq!(parsed, Parsed::Malformed, "{word:?}"),
        }
    }
}

#[test]
fn tempos_that_are_no_numbers() {
    for text in ["", " 120", "abc", "12a", "--5", "+", ".", "1.2.3", "1e", "e3", "1.5x", "1,5", "in", "12 0"] {
        let parsed = tempo(text);
        if text == "12 0" {
            assert_eq!(parsed, bpm(12 * UNIT));
        } else {
            assert_eq!(parsed, Parsed::Malformed);
        }
    }
    assert_eq!(parse_command(b"$ TEMPO"), Parsed::Malformed);
    assert_eq!(parse_command(b"$ TEMPO   "), Parsed::Malformed);
    assert_eq!(parse_command(b"$ TEMPO  120"), Parsed::Malformed);
}

#[test]
fn bytes_by_class() {
    for b in [b' ', b'\t', b'\n', b'\r', 11u8, 12] {
        assert!(is_space(b));
    }
    for b in [0u8, 8, 14, b'a', b'$', 160] {
        assert!(!is_space(b));
    }
    for b in b'0'..=b'9' {
        assert!(is_digit(b));
    }
    for b in [b'/', b':', b'.', b'a'] {
        assert!(!is_digit(b));
    }
}

#[test]
fn the_modes_that_random_picks_from() {
    let r = Range { lo: 200_000, hi: UNIT };
    let list = [
        Mode::AutoBeat { pd: Pd(1, 1), r, beam: BeamPattern::Square },
        Mode::Strobe0 { pd: Pd(1, 8), duty: UNIT },
        Mode::Break { beams: Some(BeamPattern::UpDownWave) },
        Mode::AutoBeat { pd: Pd(2, 1), r, beam: BeamPattern::Square },
        Mode::AutoBeat { pd: Pd(4, 1), r, beam: BeamPattern::Square },
        Mode::AutoBeat { pd: Pd(4, 1), r, beam: BeamPattern::RaisingBeams },
        Mode::RaisingBeams { pd: Pd(4, 1) },
        Mode::Whirl { pd: Pd(16, 1) },
    ];
    assert_eq!(random_modes(), list.to_vec());
}

#[test]
fn commands_are_carried_out() {
    let mut s = State::new();
    obey(&mut s, Command::Tempo(90 * UNIT), Mode::Off);
    assert_eq!((s.bpm, s.mode), (90 * UNIT, Mode::On));
    obey(&mut s, Command::Tempo(0), Mode::Off);
    assert_eq!(s.bpm, BPM_MIN);
    obey(&mut s, Command::Chase, Mode::Off);
    assert_eq!(s.mode, Mode::Chase { pd: Pd(1, 4), beam: BeamPattern::Twisting });
    obey(&mut s, Command::Random, Mode::RaisingBeams { pd: Pd(4, 1) });
    assert_eq!(s.mode, Mode::RaisingBeams { pd: Pd(4, 1) });
    assert_eq!(s.bpm, BPM_MIN);
}

#[test]
fn lines_are_followed() {
    let mut s = State::new();
    assert_eq!(follow_stdin(&mut s, b"$ TEMPO 174.5\n"), bpm(174_500_000));
    assert_eq!(s.bpm, 174_500_000);
    assert_eq!(follow_stdin(&mut s, b"$ CHASE\n"), Parsed::Command(Command::Chase));
    assert_eq!(s.mode, Mode::Chase { pd: Pd(1, 4), beam: BeamPattern::Twisting });
    for line in [&b"$ TEMPO fast"[..], b"$ DANCE", b"TEMPO 90", b""] {
        let parsed = follow_stdin(&mut s, line);
        assert!(!matches!(parsed, Parsed::Command(_)));
        assert_eq!(s.bpm, 174_500_000);
        assert_eq!(s.mode, Mode::Chase { pd: Pd(1, 4), beam: BeamPattern::Twisting });
    }
}

#[test]
fn random_goes_to_a_mode_of_the_list() {
    let mut s = State::new();
    let mut seen = std::collections::BTreeSet::new();
    for _ in 0..400 {
        s.mode = Mode::Off;
        assert_eq!(follow_stdin(&mut s, b"$ RANDOM\n"), Parsed::Command(Command::Random));
        let pick = random_modes().iter().position(|m| *m == s.mode);
        assert!(pick.is_some());
        seen.insert(pick.unwrap());
        assert!(s.is_wf());
        assert_eq!(s.bpm, 120 * UNIT);
    }
    assert!(seen.len() > 1);
}
