//! Fixed-point model of a fractal-noise explorer: tunable noise parameters,
//! a square grid of noise samples, and a discrete color table that maps each
//! sample's magnitude to an RGB triple for rendering.

pub mod color;
pub mod grid;
pub mod params;
pub mod view;
