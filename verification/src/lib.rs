//! Core of a text-mode display driver: a color-aware, line-buffered writer
//! over a fixed-size character grid, with a verified character-placement,
//! line-wrap and scroll policy.

pub mod cell;
pub mod color;
pub mod laws;
pub mod model;
pub mod writer;
