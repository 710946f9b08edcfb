//! Commands given as lines of text: one line, one command.
//!
//! A command line starts with a dollar sign and a blank. What follows, with
//! white space trimmed from both ends, is split at single blanks into words;
//! the first word names the command, and `TEMPO` takes the second as its
//! number.

use crate::num::UNIT;
use crate::outside::pick_mode;
use crate::pattern::BeamPattern;
use crate::state::{Mode, State, BPM_MAX, BPM_MIN};
use crate::utils::Pd;
use crate::wave::Range;
use vstd::prelude::*;

verus! {

/// A command.
#[derive(Clone, Copy, Debug, PartialEq, Eq, Structural)]
pub enum Command {
    /// Set the tempo, in beats per minute, in fixed point.
    Tempo(i64),
    /// Go to a mode picked at random from the list of `random_modes`.
    Random,
    /// Go to the fast chase.
    Chase,
}

/// What a line of text is.
#[derive(Clone, Copy, Debug, PartialEq, Eq, Structural)]
pub enum Parsed {
    /// Not a command line: it does not start with a dollar sign and a blank.
    NotCommand,
    /// A command line whose first word names no command.
    Unrecognized,
    /// A `TEMPO` without a number, or with a word that is no number.
    Malformed,
    /// A command.
    Command(Command),
}

/// Largest size of an exponent that is read digit by digit: with a greater
/// one, in either direction, the number is beyond every limit all the same.
pub const EXP_CAP: i128 = 1_000_000_000_000_000_000_000_000_000_000;

/// The least worth of digits that is beyond every tempo: ten to the thirteenth.
pub const BEYOND: i64 = 10_000_000_000_000;

/// Blank, tab, line feed, vertical tab, form feed or carriage return.
pub open spec fn is_space_spec(b: u8) -> bool {
    b == 32 || (9 <= b <= 13)
}

#[verifier::when_used_as_spec(is_space_spec)]
pub fn is_space(b: u8) -> (r: bool)
    ensures
        r == is_space_spec(b),
{
    b == 32 || (9 <= b && b <= 13)
}

/// A decimal digit.
pub open spec fn is_digit_spec(b: u8) -> bool {
    48 <= b <= 57
}

#[verifier::when_used_as_spec(is_digit_spec)]
pub fn is_digit(b: u8) -> (r: bool)
    ensures
        r == is_digit_spec(b),
{
    48 <= b && b <= 57
}

/// The first place at or after `from` that holds no white space; the end of
/// `s` if there is none.
pub open spec fn skip_space(s: Seq<u8>, from: int) -> int
    decreases s.len() - from,
{
    if 0 <= from < s.len() && is_space_spec(s[from]) {
        skip_space(s, from + 1)
    } else {
        from
    }
}

/// The end of `s[from..to]` with the white space at its end left off.
pub open spec fn trim_end(s: Seq<u8>, from: int, to: int) -> int
    decreases to - from,
{
    if from < to <= s.len() && is_space_spec(s[to - 1]) {
        trim_end(s, from, to - 1)
    } else {
        to
    }
}

/// The end of the word that starts at `from`: the first place from there on
/// that holds a blank, and `to` if there is none before it.
pub open spec fn word_end(s: Seq<u8>, from: int, to: int) -> int
    decreases to - from,
{
    if 0 <= from < to <= s.len() && s[from] != 32 {
        word_end(s, from + 1, to)
    } else {
        from
    }
}

/// The first place in `s[from..to]` that holds a decimal point, and `to` if none does.
pub open spec fn point_at(s: Seq<u8>, from: int, to: int) -> int
    decreases to - from,
{
    if 0 <= from < to <= s.len() && s[from] != 46 {
        point_at(s, from + 1, to)
    } else {
        from
    }
}

/// Whether `s[from..to]` holds digits only.
pub open spec fn all_digits(s: Seq<u8>, from: int, to: int) -> bool {
    forall|i: int| from <= i < to ==> is_digit_spec(#[trigger] s[i])
}

/// The number that the digits `s[from..to]` write.
pub open spec fn whole(s: Seq<u8>, from: int, to: int) -> int
    decreases to - from,
{
    if from < to {
        whole(s, from, to - 1) * 10 + (s[to - 1] - 48)
    } else {
        0
    }
}

/// A plus or minus sign.
pub open spec fn is_sign_spec(b: u8) -> bool {
    b == 43 || b == 45
}

#[verifier::when_used_as_spec(is_sign_spec)]
pub fn is_sign(b: u8) -> (r: bool)
    ensures
        r == is_sign_spec(b),
{
    b == 43 || b == 45
}

/// The place after the sign at `from`, and `from` itself where no sign stands there.
pub open spec fn after_sign(s: Seq<u8>, from: int, to: int) -> int {
    if 0 <= from < to <= s.len() && is_sign_spec(s[from]) {
        from + 1
    } else {
        from
    }
}

/// A capital letter as its small letter; any other byte as it is.
pub open spec fn lower_spec(b: u8) -> u8 {
    if 65 <= b <= 90 {
        (b + 32) as u8
    } else {
        b
    }
}

#[verifier::when_used_as_spec(lower_spec)]
pub fn lower(b: u8) -> (r: u8)
    ensures
        r == lower_spec(b),
{
    if 65 <= b && b <= 90 {
        b + 32
    } else {
        b
    }
}

/// Whether `s[from..to]` is the word `name`, capitals counting as small letters.
pub open spec fn is_name_spec(s: Seq<u8>, from: int, to: int, name: Seq<u8>) -> bool {
    &&& to - from == name.len()
    &&& forall|k: int| 0 <= k < name.len() ==> lower_spec(s[from + k]) == #[trigger] name[k]
}

/// The first place in `s[from..to]` that holds the letter e, small or
/// capital, and `to` if none does.
pub open spec fn exp_at(s: Seq<u8>, from: int, to: int) -> int
    decreases to - from,
{
    if 0 <= from < to <= s.len() && s[from] != 101 && s[from] != 69 {
        exp_at(s, from + 1, to)
    } else {
        from
    }
}

/// Ten to the power `p`.
pub open spec fn pow10(p: nat) -> int
    decreases p,
{
    if p == 0 {
        1
    } else {
        10 * pow10((p - 1) as nat)
    }
}

/// What a one is worth at the place `p`, in millionths: ten to the power
/// `p` from the millionths' place up, and nothing below it.
pub open spec fn place(p: int) -> int {
    if p >= 0 {
        pow10(p as nat)
    } else {
        0
    }
}

/// What the digits `s[from..to]` are worth, in millionths rounded down, when
/// the last of them stands at the place `last` and each of the others one
/// place above its neighbour on the right.
pub open spec fn worth(s: Seq<u8>, from: int, to: int, last: int) -> int
    decreases to - from,
{
    if from < to {
        worth(s, from, to - 1, last + 1) + (s[to - 1] - 48) * place(last)
    } else {
        0
    }
}

/// The exponent that `s[from..to]` writes after the letter e: a sign or
/// none, then the digits of its size. None where no digit follows or
/// anything but digits.
pub open spec fn exponent_of(s: Seq<u8>, from: int, to: int) -> Option<int> {
    let digits = after_sign(s, from, to);
    if digits < to && all_digits(s, digits, to) {
        Some(
            if digits > from && s[from] == 45 {
                -whole(s, digits, to)
            } else {
                whole(s, digits, to)
            },
        )
    } else {
        None
    }
}

/// The number that `s[from..to]` writes without its sign, in millionths
/// rounded down: digits with a point before, among or after them or with
/// none, and at their end, if anything, the letter e and an exponent of ten.
/// None where there is no digit or anything else is in the way.
pub open spec fn number_of(s: Seq<u8>, from: int, to: int) -> Option<int> {
    let end = exp_at(s, from, to);
    let point = point_at(s, from, end);
    let tail = if point < end {
        point + 1
    } else {
        end
    };
    let exponent = if end < to {
        exponent_of(s, end + 1, to)
    } else {
        Some(0int)
    };
    if (point - from) + (end - tail) >= 1 && all_digits(s, from, point) && all_digits(
        s,
        tail,
        end,
    ) && exponent is Some {
        let e = exponent->0;
        Some(worth(s, from, point, 6 + e) + worth(s, tail, end, 6 + e - (end - tail)))
    } else {
        None
    }
}

/// The word `inf`.
pub open spec fn name_inf() -> Seq<u8> {
    seq![105u8, 110u8, 102u8]
}

/// The word `infinity`.
pub open spec fn name_infinity() -> Seq<u8> {
    seq![105u8, 110u8, 102u8, 105u8, 110u8, 105u8, 116u8, 121u8]
}

/// The word `nan`.
pub open spec fn name_nan() -> Seq<u8> {
    seq![110u8, 97u8, 110u8]
}

/// The tempo that the word `s[from..to]` writes, in fixed point and kept
/// within `[BPM_MIN, BPM_MAX]`.
///
/// The word is a sign or none and then a number in decimal (see
/// `number_of`) or, in letters of either case, `inf` or `infinity`, which is
/// beyond every number, or `nan`, which counts as nothing. So every negative
/// tempo and `nan` give the slowest tempo, and `inf` the fastest. Any other
/// word writes no tempo.
pub open spec fn tempo_of(s: Seq<u8>, from: int, to: int) -> Option<i64> {
    let start = after_sign(s, from, to);
    let negative = start > from && s[from] == 45;
    if is_name_spec(s, start, to, name_inf()) || is_name_spec(s, start, to, name_infinity()) {
        Some(
            if negative {
                BPM_MIN
            } else {
                BPM_MAX
            },
        )
    } else if is_name_spec(s, start, to, name_nan()) {
        Some(BPM_MIN)
    } else {
        match number_of(s, start, to) {
            Some(value) => Some(
                if negative || value < BPM_MIN {
                    BPM_MIN
                } else if value > BPM_MAX {
                    BPM_MAX
                } else {
                    value as i64
                },
            ),
            None => None,
        }
    }
}

/// The word `TEMPO`.
pub open spec fn word_tempo() -> Seq<u8> {
    seq![84u8, 69u8, 77u8, 80u8, 79u8]
}

/// The word `RANDOM`.
pub open spec fn word_random() -> Seq<u8> {
    seq![82u8, 65u8, 78u8, 68u8, 79u8, 77u8]
}

/// The word `CHASE`.
pub open spec fn word_chase() -> Seq<u8> {
    seq![67u8, 72u8, 65u8, 83u8, 69u8]
}

/// What the line `s` is.
pub open spec fn parse_spec(s: Seq<u8>) -> Parsed {
    if !(s.len() >= 2 && s[0] == 36 && s[1] == 32) {
        Parsed::NotCommand
    } else {
        let start = skip_space(s, 2);
        let end = trim_end(s, start, s.len() as int);
        let first = word_end(s, start, end);
        let word = s.subrange(start, first);
        if word == word_tempo() {
            if first == end {
                Parsed::Malformed
            } else {
                match tempo_of(s, first + 1, word_end(s, first + 1, end)) {
                    Some(bpm) => Parsed::Command(Command::Tempo(bpm)),
                    None => Parsed::Malformed,
                }
            }
        } else if word == word_random() {
            Parsed::Command(Command::Random)
        } else if word == word_chase() {
            Parsed::Command(Command::Chase)
        } else {
            Parsed::Unrecognized
        }
    }
}

/// Whether `line[from..to]` is the word `word`.
fn is_word(line: &[u8], from: usize, to: usize, word: &[u8]) -> (r: bool)
    requires
        from <= to <= line@.len(),
    ensures
        r == (line@.subrange(from as int, to as int) == word@),
{
    if to - from != word.len() {
        return false;
    }
    let mut i: usize = 0;
    while i < word.len()
        invariant
            0 <= i <= word@.len(),
            from <= to <= line@.len(),
            to - from == word@.len(),
            forall|k: int| 0 <= k < i ==> line@[from + k] == word@[k],
        decreases word.len() - i,
    {
        if line[from + i] != word[i] {
            return false;
        }
        i = i + 1;
    }
    assert(line@.subrange(from as int, to as int) =~= word@);
    true
}

/// Whether `line[from..to]` is the word `name`, capitals counting as small letters.
fn is_name(line: &[u8], from: usize, to: usize, name: &[u8]) -> (r: bool)
    requires
        from <= to <= line@.len(),
    ensures
        r == is_name_spec(line@, from as int, to as int, name@),
{
    if to - from != name.len() {
        return false;
    }
    let mut i: usize = 0;
    while i < name.len()
        invariant
            0 <= i <= name@.len(),
            from <= to <= line@.len(),
            to - from == name@.len(),
            forall|k: int| 0 <= k < i ==> lower_spec(line@[from + k]) == #[trigger] name@[k],
        decreases name.len() - i,
    {
        if lower(line[from + i]) != name[i] {
            return false;
        }
        i = i + 1;
    }
    true
}

/// Whether `line[from..to]` holds digits only.
fn digits_only(line: &[u8], from: usize, to: usize) -> (r: bool)
    requires
        from <= to <= line@.len(),
    ensures
        r == all_digits(line@, from as int, to as int),
{
    let mut i: usize = from;
    while i < to
        invariant
            from <= i <= to <= line@.len(),
            all_digits(line@, from as int, i as int),
        decreases to - i,
    {
        if !is_digit(line[i]) {
            return false;
        }
        i = i + 1;
    }
    true
}

/// The number that the digits `line[from..to]` write, and `EXP_CAP` where it is greater.
fn read_whole(line: &[u8], from: usize, to: usize) -> (r: i128)
    requires
        from <= to <= line@.len(),
        all_digits(line@, from as int, to as int),
    ensures
        r == (if whole(line@, from as int, to as int) < EXP_CAP {
            whole(line@, from as int, to as int)
        } else {
            EXP_CAP as int
        }),
        0 <= r <= EXP_CAP,
{
    let ghost s = line@;
    let mut acc: i128 = 0;
    let mut i: usize = from;
    while i < to
        invariant
            from <= i <= to <= s.len(),
            s == line@,
            all_digits(s, from as int, to as int),
            0 <= whole(s, from as int, i as int),
            acc == (if whole(s, from as int, i as int) < EXP_CAP {
                whole(s, from as int, i as int)
            } else {
                EXP_CAP as int
            }),
        decreases to - i,
    {
        let b = line[i];
        assert(is_digit_spec(s[i as int]));
        let next = acc * 10 + (b - 48) as i128;
        acc = if next < EXP_CAP {
            next
        } else {
            EXP_CAP
        };
        i = i + 1;
    }
    acc
}

/// The powers of ten up to the thirteenth.
pub proof fn lemma_pow10_small()
    ensures
        pow10(0) == 1,
        pow10(1) == 10,
        pow10(2) == 100,
        pow10(3) == 1_000,
        pow10(4) == 10_000,
        pow10(5) == 100_000,
        pow10(6) == 1_000_000,
        pow10(7) == 10_000_000,
        pow10(8) == 100_000_000,
        pow10(9) == 1_000_000_000,
        pow10(10) == 10_000_000_000,
        pow10(11) == 100_000_000_000,
        pow10(12) == 1_000_000_000_000,
        pow10(13) == 10_000_000_000_000,
{
    reveal_with_fuel(pow10, 15);
}

/// A greater power of ten is a greater number, and none is below one.
pub proof fn lemma_pow10_grows(p: nat, q: nat)
    requires
        p <= q,
    ensures
        1 <= pow10(p) <= pow10(q),
    decreases q,
{
    if q > 0 {
        if p < q {
            lemma_pow10_grows(p, (q - 1) as nat);
        } else {
            lemma_pow10_grows((p - 1) as nat, (q - 1) as nat);
        }
    }
}

/// Ten to the power `p`, for `p` up to thirteen.
fn ten_to(p: i128) -> (r: i64)
    requires
        0 <= p <= 13,
    ensures
        r == pow10(p as nat),
        1 <= r <= BEYOND,
{
    proof {
        lemma_pow10_small();
    }
    if p == 0 {
        1
    } else if p == 1 {
        10
    } else if p == 2 {
        100
    } else if p == 3 {
        1_000
    } else if p == 4 {
        10_000
    } else if p == 5 {
        100_000
    } else if p == 6 {
        1_000_000
    } else if p == 7 {
        10_000_000
    } else if p == 8 {
        100_000_000
    } else if p == 9 {
        1_000_000_000
    } else if p == 10 {
        10_000_000_000
    } else if p == 11 {
        100_000_000_000
    } else if p == 12 {
        1_000_000_000_000
    } else {
        10_000_000_000_000
    }
}

/// What the place `p` leaves room for below `BEYOND`: a one at the place
/// `p`, at most `BEYOND` and at least one.
pub open spec fn room(p: int) -> int {
    if p >= 13 {
        BEYOND as int
    } else {
        if p >= 0 {
            pow10(p as nat)
        } else {
            1
        }
    }
}

/// What the digits `line[from..to]` are worth with the last of them at the
/// place `last`; none where that is `BEYOND` or more.
fn sum_places(line: &[u8], from: usize, to: usize, last: i128) -> (r: Option<i64>)
    requires
        from <= to <= line@.len(),
        all_digits(line@, from as int, to as int),
        -2 * EXP_CAP <= last <= 2 * EXP_CAP,
    ensures
        match r {
            Some(v) => v == worth(line@, from as int, to as int, last as int) && 0 <= v < BEYOND,
            None => worth(line@, from as int, to as int, last as int) >= BEYOND,
        },
{
    let ghost s = line@;
    let mut acc: i64 = 0;
    let mut beyond = false;
    let mut i: usize = from;
    proof {
        lemma_pow10_small();
    }
    while i < to
        invariant
            from <= i <= to <= s.len(),
            s == line@,
            all_digits(s, from as int, to as int),
            -2 * EXP_CAP <= last <= 2 * EXP_CAP,
            beyond ==> worth(s, from as int, i as int, last + to - i) >= BEYOND,
            !beyond ==> acc == worth(s, from as int, i as int, last + to - i),
            0 <= acc,
            acc + room(last + to - i) <= BEYOND,
        decreases to - i,
    {
        let p: i128 = last + (to - 1 - i) as i128;
        let b = line[i];
        assert(is_digit_spec(s[i as int]));
        let d: i64 = (b - 48) as i64;
        proof {
            lemma_pow10_small();
            if p >= 0 {
                lemma_pow10_grows(0, p as nat);
            }
            if p >= 13 {
                lemma_pow10_grows(13, p as nat);
            }
            assert(worth(s, from as int, i + 1, p as int) == worth(s, from as int, i as int, p + 1)
                + (s[i as int] - 48) * place(p as int));
            assert(0 <= d * place(p as int)) by (nonlinear_arith)
                requires
                    0 <= d,
                    0 <= place(p as int),
            ;
            assert((s[i as int] - 48) * place(p as int) == d * place(p as int));
            assert(d == 0 || p < 0 ==> d * place(p as int) == 0) by (nonlinear_arith)
                requires
                    p < 0 ==> place(p as int) == 0,
            ;
        }
        if p >= 13 {
            if d != 0 {
                proof {
                    assert(d * place(p as int) >= BEYOND) by (nonlinear_arith)
                        requires
                            1 <= d,
                            place(p as int) >= BEYOND,
                    ;
                }
                beyond = true;
            }
        } else if p >= 0 {
            let unit = ten_to(p);
            proof {
                assert(pow10((p + 1) as nat) == 10 * pow10(p as nat));
                assert(d * place(p as int) == d * unit) by (nonlinear_arith)
                    requires
                        place(p as int) == unit,
                ;
                assert(d * unit <= 9 * unit) by (nonlinear_arith)
                    requires
                        0 <= d <= 9,
                        0 <= unit,
                ;
                assert(0 <= d * unit) by (nonlinear_arith)
                    requires
                        0 <= d,
                        0 <= unit,
                ;
            }
            acc = acc + d * unit;
        }
        i = i + 1;
    }
    if beyond {
        None
    } else {
        Some(acc)
    }
}

/// Digits that all stand below the millionths' place are worth nothing.
pub proof fn lemma_worth_below(s: Seq<u8>, from: int, to: int, last: int)
    requires
        from <= to,
        last + (to - from) <= 0,
    ensures
        worth(s, from, to, last) == 0,
    decreases to - from,
{
    if from < to {
        lemma_worth_below(s, from, to - 1, last + 1);
        assert((s[to - 1] - 48) * place(last) == 0) by (nonlinear_arith)
            requires
                place(last) == 0,
        ;
    }
}

/// From the millionths' place up, digits are worth what they are worth at
/// that place times the power of ten of the place they stand at.
pub proof fn lemma_worth_scaled(s: Seq<u8>, from: int, to: int, last: int)
    requires
        from <= to,
        all_digits(s, from, to),
        0 <= last,
    ensures
        worth(s, from, to, last) == pow10(last as nat) * worth(s, from, to, 0),
        0 <= worth(s, from, to, 0),
    decreases to - from,
{
    if from < to {
        let rest = worth(s, from, to - 1, 0);
        let d = s[to - 1] - 48;
        let unit = pow10(last as nat);
        lemma_worth_scaled(s, from, to - 1, last + 1);
        lemma_worth_scaled(s, from, to - 1, 1);
        assert(is_digit_spec(s[to - 1]));
        assert(pow10(1) == 10) by {
            reveal_with_fuel(pow10, 3);
        }
        assert(pow10((last + 1) as nat) == 10 * unit);
        assert(place(0) == 1);
        assert(d * place(0) == d) by (nonlinear_arith)
            requires
                place(0) == 1,
        ;
        assert(worth(s, from, to, 0) == 10 * rest + d);
        assert((10 * unit) * rest + d * unit == unit * (10 * rest + d)) by (nonlinear_arith);
    } else {
        assert(pow10(last as nat) * 0 == 0) by (nonlinear_arith);
    }
}

/// What digits are worth where `EXP_CAP` stands in for an exponent beyond
/// it. With the last digit at the place `seen` in place of `last`, which is
/// further out on the same side, above the thirteenth place or below all
/// that counts, the digits are worth the same, or beyond every tempo in
/// both places.
pub proof fn lemma_worth_capped(s: Seq<u8>, from: int, to: int, last: int, seen: int)
    requires
        from <= to,
        all_digits(s, from, to),
        last == seen || (13 <= seen <= last) || (last <= seen && seen + (to - from) <= 0),
    ensures
        0 <= worth(s, from, to, seen),
        worth(s, from, to, seen) < BEYOND ==> worth(s, from, to, last) == worth(s, from, to, seen),
        worth(s, from, to, seen) >= BEYOND ==> worth(s, from, to, last) >= BEYOND,
{
    if 13 <= seen <= last {
        let base = worth(s, from, to, 0);
        lemma_worth_scaled(s, from, to, seen);
        lemma_worth_scaled(s, from, to, last);
        lemma_pow10_small();
        lemma_pow10_grows(13, seen as nat);
        lemma_pow10_grows(13, last as nat);
        if base == 0 {
            assert(pow10(seen as nat) * base == 0 && pow10(last as nat) * base == 0)
                by (nonlinear_arith)
                requires
                    base == 0,
            ;
        } else {
            assert(pow10(seen as nat) * base >= BEYOND && pow10(last as nat) * base >= BEYOND)
                by (nonlinear_arith)
                requires
                    base >= 1,
                    pow10(seen as nat) >= BEYOND,
                    pow10(last as nat) >= BEYOND,
            ;
        }
    } else if last <= seen && seen + (to - from) <= 0 {
        lemma_worth_below(s, from, to, seen);
        lemma_worth_below(s, from, to, last);
    } else {
        if seen >= 0 {
            lemma_worth_scaled(s, from, to, seen);
            lemma_pow10_grows(0, seen as nat);
            assert(0 <= pow10(seen as nat) * worth(s, from, to, 0)) by (nonlinear_arith)
                requires
                    0 <= pow10(seen as nat),
                    0 <= worth(s, from, to, 0),
            ;
        } else {
            lemma_worth_floor(s, from, to, seen);
        }
    }
}

/// Digits are never worth less than nothing.
pub proof fn lemma_worth_floor(s: Seq<u8>, from: int, to: int, last: int)
    requires
        from <= to,
        all_digits(s, from, to),
    ensures
        0 <= worth(s, from, to, last),
    decreases to - from,
{
    if from < to {
        lemma_worth_floor(s, from, to - 1, last + 1);
        assert(is_digit_spec(s[to - 1]));
        if last >= 0 {
            lemma_pow10_grows(0, last as nat);
        }
        assert(0 <= (s[to - 1] - 48) * place(last)) by (nonlinear_arith)
            requires
                0 <= s[to - 1] - 48,
                0 <= place(last),
        ;
    }
}

/// The exponent that `line[from..to]` writes, and `EXP_CAP` or its
/// negative where it lies beyond.
fn read_exponent(line: &[u8], from: usize, to: usize) -> (r: Option<i128>)
    requires
        from <= to <= line@.len(),
    ensures
        r is Some <==> exponent_of(line@, from as int, to as int) is Some,
        r matches Some(e) ==> {
            let written = exponent_of(line@, from as int, to as int)->0;
            e == (if written > EXP_CAP {
                EXP_CAP as int
            } else if written < -EXP_CAP {
                -EXP_CAP
            } else {
                written
            })
        },
{
    let digits = if from < to && is_sign(line[from]) {
        from + 1
    } else {
        from
    };
    if digits >= to || !digits_only(line, digits, to) {
        return None;
    }
    let size = read_whole(line, digits, to);
    if digits > from && line[from] == 45 {
        Some(-size)
    } else {
        Some(size)
    }
}

/// The number that `line[from..to]` writes without its sign, in millionths
/// rounded down, and `BEYOND` where it is that or more.
fn read_number(line: &[u8], from: usize, to: usize) -> (r: Option<i64>)
    requires
        from <= to <= line@.len(),
    ensures
        r is Some <==> number_of(line@, from as int, to as int) is Some,
        r matches Some(v) ==> 0 <= v <= BEYOND && (if number_of(line@, from as int, to as int)->0
            < BEYOND {
            v == number_of(line@, from as int, to as int)->0
        } else {
            v == BEYOND
        }),
{
    let ghost s = line@;
    let mut end: usize = from;
    while end < to && line[end] != 101 && line[end] != 69
        invariant
            from <= end <= to <= s.len(),
            s == line@,
            exp_at(s, from as int, to as int) == exp_at(s, end as int, to as int),
        decreases to - end,
    {
        end = end + 1;
    }
    let mut point: usize = from;
    while point < end && line[point] != 46
        invariant
            from <= point <= end <= to <= s.len(),
            s == line@,
            point_at(s, from as int, end as int) == point_at(s, point as int, end as int),
        decreases end - point,
    {
        point = point + 1;
    }
    let tail = if point < end {
        point + 1
    } else {
        end
    };
    if (point - from) + (end - tail) == 0 {
        return None;
    }
    if !digits_only(line, from, point) || !digits_only(line, tail, end) {
        return None;
    }
    let e: i128 = if end < to {
        match read_exponent(line, end + 1, to) {
            Some(e) => e,
            None => {
                return None;
            },
        }
    } else {
        0
    };
    let high = sum_places(line, from, point, 6 + e);
    let low = sum_places(line, tail, end, 6 + e - (end - tail) as i128);
    proof {
        let written = if end < to {
            exponent_of(s, end + 1, to as int)->0
        } else {
            0
        };
        lemma_worth_capped(s, from as int, point as int, 6 + written, 6 + e);
        lemma_worth_capped(
            s,
            tail as int,
            end as int,
            6 + written - (end - tail),
            6 + e - (end - tail),
        );
    }
    match (high, low) {
        (Some(h), Some(l)) => {
            if h + l < BEYOND {
                Some(h + l)
            } else {
                Some(BEYOND)
            }
        },
        _ => Some(BEYOND),
    }
}

/// The tempo that the word `line[from..to]` writes.
fn read_tempo(line: &[u8], from: usize, to: usize) -> (r: Option<i64>)
    requires
        from <= to <= line@.len(),
    ensures
        r == tempo_of(line@, from as int, to as int),
{
    let start = if from < to && is_sign(line[from]) {
        from + 1
    } else {
        from
    };
    let negative = start > from && line[from] == 45;
    let inf: [u8; 3] = [105, 110, 102];
    let infinity: [u8; 8] = [105, 110, 102, 105, 110, 105, 116, 121];
    let nan: [u8; 3] = [110, 97, 110];
    assert(inf@ =~= name_inf());
    assert(infinity@ =~= name_infinity());
    assert(nan@ =~= name_nan());
    if is_name(line, start, to, inf.as_slice()) || is_name(line, start, to, infinity.as_slice()) {
        return Some(
            if negative {
                BPM_MIN
            } else {
                BPM_MAX
            },
        );
    }
    if is_name(line, start, to, nan.as_slice()) {
        return Some(BPM_MIN);
    }
    match read_number(line, start, to) {
        Some(value) => Some(
            if negative || value < BPM_MIN {
                BPM_MIN
            } else if value > BPM_MAX {
                BPM_MAX
            } else {
                value
            },
        ),
        None => None,
    }
}

/// Reads one line of text.
pub fn parse_command(line: &[u8]) -> (r: Parsed)
    ensures
        r == parse_spec(line@),
{
    let ghost s = line@;
    let n = line.len();
    if !(n >= 2 && line[0] == 36 && line[1] == 32) {
        return Parsed::NotCommand;
    }
    let mut start: usize = 2;
    while start < n && is_space(line[start])
        invariant
            2 <= start <= n == s.len(),
            s == line@,
            skip_space(s, 2) == skip_space(s, start as int),
        decreases n - start,
    {
        start = start + 1;
    }
    let mut end: usize = n;
    while start < end && is_space(line[end - 1])
        invariant
            start <= end <= n == s.len(),
            s == line@,
            trim_end(s, start as int, n as int) == trim_end(s, start as int, end as int),
        decreases end - start,
    {
        end = end - 1;
    }
    let first = find_blank(line, start, end);
    let tempo: [u8; 5] = [84, 69, 77, 80, 79];
    let random: [u8; 6] = [82, 65, 78, 68, 79, 77];
    let chase: [u8; 5] = [67, 72, 65, 83, 69];
    if is_word(line, start, first, tempo.as_slice()) {
        if first == end {
            Parsed::Malformed
        } else {
            let second = find_blank(line, first + 1, end);
            match read_tempo(line, first + 1, second) {
                Some(bpm) => Parsed::Command(Command::Tempo(bpm)),
                None => Parsed::Malformed,
            }
        }
    } else if is_word(line, start, first, random.as_slice()) {
        Parsed::Command(Command::Random)
    } else if is_word(line, start, first, chase.as_slice()) {
        Parsed::Command(Command::Chase)
    } else {
        Parsed::Unrecognized
    }
}

/// The end of the word that starts at `from`.
fn find_blank(line: &[u8], from: usize, to: usize) -> (r: usize)
    requires
        from <= to <= line@.len(),
    ensures
        r == word_end(line@, from as int, to as int),
        from <= r <= to,
{
    let mut at: usize = from;
    while at < to && line[at] != 32
        invariant
            from <= at <= to <= line@.len(),
            word_end(line@, from as int, to as int) == word_end(line@, at as int, to as int),
        decreases to - at,
    {
        at = at + 1;
    }
    at
}

/// The modes that `RANDOM` picks from.
pub open spec fn random_modes_spec() -> Seq<Mode> {
    let r = Range { lo: 200_000, hi: UNIT };
    seq![
        Mode::AutoBeat { pd: Pd(1, 1), r, beam: BeamPattern::Square },
        Mode::Strobe0 { pd: Pd(1, 8), duty: UNIT },
        Mode::Break { beams: Some(BeamPattern::UpDownWave) },
        Mode::AutoBeat { pd: Pd(2, 1), r, beam: BeamPattern::Square },
        Mode::AutoBeat { pd: Pd(4, 1), r, beam: BeamPattern::Square },
        Mode::AutoBeat { pd: Pd(4, 1), r, beam: BeamPattern::RaisingBeams },
        Mode::RaisingBeams { pd: Pd(4, 1) },
        Mode::Whirl { pd: Pd(16, 1) },
    ]
}

pub fn random_modes() -> (modes: Vec<Mode>)
    ensures
        modes@ == random_modes_spec(),
        forall|i: int| 0 <= i < modes@.len() ==> (#[trigger] modes@[i]).wf(),
{
    let r = Range { lo: 200_000, hi: UNIT };
    let mut modes: Vec<Mode> = Vec::new();
    modes.push(Mode::AutoBeat { pd: Pd(1, 1), r, beam: BeamPattern::Square });
    modes.push(Mode::Strobe0 { pd: Pd(1, 8), duty: UNIT });
    modes.push(Mode::Break { beams: Some(BeamPattern::UpDownWave) });
    modes.push(Mode::AutoBeat { pd: Pd(2, 1), r, beam: BeamPattern::Square });
    modes.push(Mode::AutoBeat { pd: Pd(4, 1), r, beam: BeamPattern::Square });
    modes.push(Mode::AutoBeat { pd: Pd(4, 1), r, beam: BeamPattern::RaisingBeams });
    modes.push(Mode::RaisingBeams { pd: Pd(4, 1) });
    modes.push(Mode::Whirl { pd: Pd(16, 1) });
    modes
}

/// Carries out `command`; `picked` is the mode that `RANDOM` goes to.
pub fn obey(s: &mut State, command: Command, picked: Mode)
    ensures
        final(s).bpm == (match command {
            Command::Tempo(bpm) => crate::num::clamp_spec(bpm, BPM_MIN, BPM_MAX),
            _ => old(s).bpm,
        }),
        final(s).mode == (match command {
            Command::Tempo(_) => old(s).mode,
            Command::Random => picked,
            Command::Chase => Mode::Chase { pd: Pd(1, 4), beam: BeamPattern::Twisting },
        }),
        *final(s) == (State { bpm: final(s).bpm, mode: final(s).mode, ..*old(s) }),
        old(s).wf() && picked.wf() ==> final(s).wf(),
{
    match command {
        Command::Tempo(bpm) => {
            s.set_bpm(bpm);
        },
        Command::Random => {
            s.mode = picked;
        },
        Command::Chase => {
            s.mode = Mode::Chase { pd: Pd(1, 4), beam: BeamPattern::Twisting };
        },
    }
}

/// Reads one line of text and, if it is a command, carries it out; the
/// result says what the line was. `RANDOM` goes to one of the modes of
/// `random_modes`, whichever the thread's random generator picks.
pub fn follow_stdin(s: &mut State, line: &[u8]) -> (r: Parsed)
    ensures
        r == parse_spec(line@),
        final(s).bpm == (match r {
            Parsed::Command(Command::Tempo(bpm)) => bpm,
            _ => old(s).bpm,
        }),
        match r {
            Parsed::Command(Command::Random) => random_modes_spec().contains(final(s).mode),
            Parsed::Command(Command::Chase) => final(s).mode == (Mode::Chase {
                pd: Pd(1, 4),
                beam: BeamPattern::Twisting,
            }),
            _ => final(s).mode == old(s).mode,
        },
        *final(s) == (State { bpm: final(s).bpm, mode: final(s).mode, ..*old(s) }),
        old(s).wf() ==> final(s).wf(),
{
    let parsed = parse_command(line);
    match parsed {
        Parsed::Command(Command::Random) => {
            let modes = random_modes();
            match pick_mode(&modes) {
                Some(picked) => {
                    obey(s, Command::Random, picked);
                },
                None => {},
            }
        },
        Parsed::Command(command) => {
            obey(s, command, Mode::On);
        },
        _ => {},
    }
    parsed
}

} // verus!
