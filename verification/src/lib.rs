//! Animation core of a stage-lighting rig: a musical clock, periodic
//! waveforms, composable colour operators, beam and spider patterns, and the
//! layout of the output frame.
//!
//! Everything is computed in fixed point (see `num`): fractions, angles,
//! phases and brightness count millionths, times count microseconds, and the
//! tempo counts millionths of a beat per minute. Every function is verified
//! against a contract that pins its result; the few calls into other crates
//! stand in `outside`, each behind a contract of its own.
//!
//! - `num`, `wave`: arithmetic, waveforms and easing curves.
//! - `utils`, `color`: periods, held values, flashes, colours.
//! - `state`: the control state with its clock and tap tempo.
//! - `fx`: colour operators.
//! - `pattern`: where beams, spiders and laser point.
//! - `lights`: the fixtures and the layout of the frame.
//! - `logic`: the clock's tick and the rendering of a frame.
//! - `input`, `command`: what pad, control surface and typed commands do.
//! - `pad`: what pad and control surface show.
//! - `outside`: the calls into other crates.

pub mod color;
pub mod command;
pub mod fx;
pub mod input;
pub mod lights;
pub mod logic;
pub mod num;
pub mod outside;
pub mod pad;
pub mod pattern;
pub mod state;
pub mod utils;
pub mod wave;
