//! Colorimetry: conversions between CIE tristimulus color spaces and
//! chromatic adaptation between reference whites.
//!
//! Every scalar is an exact rational number (`rational::Q`), so each
//! conversion carries an exact contract; the adaptation engine works in
//! fixed-point arithmetic with the same style of contract.

pub mod adaptation;
pub mod color_space;
pub mod illuminants;
pub mod matrix;
pub mod models;
pub mod rational;

pub use rational::Q;
