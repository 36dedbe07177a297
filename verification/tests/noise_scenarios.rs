//! End-to-end scenarios against the real fractal-noise sampler: determinism
//! of regeneration, the documented 4x4 default-parameter scenario, and
//! regeneration with zero octaves.

use noise::utils::{NoiseMapBuilder, PlaneMapBuilder};
use noise::{BasicMulti, MultiFractal, Perlin};
use noise_explorer::color::SAMPLE_ONE;
use noise_explorer::params::Parameters;
use noise_explorer::view::ViewModel;

/// Samples a side x side plane of the fractal field described by `params`
/// and converts it to the library's fixed-point samples, row-major.
fn sample_field(side: usize, params: &Parameters) -> Vec<i64> {
    let fractal = BasicMulti::<Perlin>::new(params.seed)
        .set_octaves(params.octaves)
        .set_frequency(params.frequency_milli as f64 / 1000.0)
        .set_lacunarity(params.lacunarity_milli as f64 / 1000.0);
    let map = PlaneMapBuilder::<_, 3>::new(fractal)
        .set_size(side, side)
        .build();
    let mut raw: Vec<i64> = Vec::with_capacity(side * side);
    for y in 0..side {
        for x in 0..side {
            raw.push((map.get_value(x, y) * SAMPLE_ONE as f64) as i64);
        }
    }
    raw
}

#[test]
fn same_parameters_same_grid() {
    let mut p = Parameters::default();
    p.seed = 42;
    p.frequency_milli = 3500;
    p.octaves = 6;
    p.lacunarity_milli = 2500;
    let first = sample_field(16, &p);
    let second = sample_field(16, &p);
    assert_eq!(first, second);

    let mut m1 = ViewModel::new();
    let mut m2 = ViewModel::new();
    assert!(m1.apply_samples(16, &first));
    assert!(m2.apply_samples(16, &second));
    assert_eq!(m1.grid.cells, m2.grid.cells);
    assert_eq!(m1.grid.side, m2.grid.side);
}

#[test]
fn four_by_four_default_scenario() {
    // Seed 0, frequency 2.0, four octaves, lacunarity 2.0 on a 4x4 plane:
    // reproducible within this sampler, every cell in the sample domain.
    let p = Parameters::default();
    let first = sample_field(4, &p);
    let second = sample_field(4, &p);
    assert_eq!(first, second);
    assert_eq!(first.len(), 16);

    let mut m = ViewModel::new();
    assert!(m.apply_samples(4, &first));
    assert_eq!(m.grid.side, 4);
    assert_eq!(m.grid.cells.len(), 16);
    for &c in &m.grid.cells {
        assert!(-SAMPLE_ONE <= c && c <= SAMPLE_ONE);
    }
    // Every cell has a color.
    for y in 0..4 {
        for x in 0..4 {
            let _ = m.color_at(x, y);
        }
    }
}

#[test]
fn zero_octaves_regenerates_without_error() {
    let mut m = ViewModel::new();
    assert!(m.apply_samples(8, &sample_field(8, &m.params)));
    let changed = m.set_octaves(0);
    assert!(changed);
    let raw = sample_field(8, &m.params);
    assert!(m.apply_samples(8, &raw));
    assert_eq!(m.grid.side, 8);
    assert_eq!(m.grid.cells.len(), 64);
    for &c in &m.grid.cells {
        assert!(-SAMPLE_ONE <= c && c <= SAMPLE_ONE);
    }
}

#[test]
fn different_seed_changes_the_field() {
    // Not a required property of the sampler, but a guard that the seed is
    // actually handed through: two far-apart seeds on a coarse field should
    // not produce identical grids.
    let mut p = Parameters::default();
    p.seed = 1;
    let a = sample_field(8, &p);
    p.seed = 12345;
    let b = sample_field(8, &p);
    assert_ne!(a, b);
}
