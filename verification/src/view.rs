//! The application model behind the explorer window: the current parameters
//! and the grid generated from them. The panel's sliders go through the
//! clamping setters here; whenever one reports a change, the caller samples
//! the noise field afresh and installs the result with `apply_samples`.

use vstd::prelude::*;
use crate::color::{Rgb, color_spec};
use crate::grid::NoiseGrid;
use crate::params::{
    Parameters, default_params, SEED_MAX, FREQUENCY_MILLI_MAX, OCTAVES_MAX, LACUNARITY_MILLI_MAX,
};

verus! {

/// Side length of the explorer's map.
pub const MAP_SIZE: usize = 1000;

/// The current parameters and the grid last generated from them. Between a
/// parameter change and the next `apply_samples` the grid is simply the
/// previous one: regeneration replaces it wholesale, never incrementally.
pub struct ViewModel {
    pub params: Parameters,
    pub grid: NoiseGrid,
}

impl ViewModel {
    /// Parameters on their sliders' ranges, grid well-formed.
    pub open spec fn wf(self) -> bool {
        &&& self.params.valid()
        &&& self.grid.wf()
    }

    /// A fresh model: default parameters and an empty grid, waiting for the
    /// first batch of samples.
    pub fn new() -> (m: ViewModel)
        ensures
            m.wf(),
            m.params == default_params(),
            m.grid.side == 0,
    {
        ViewModel { params: Parameters::default(), grid: NoiseGrid::empty() }
    }

    /// Sets the seed, confined to its slider's range; reports whether the
    /// stored value changed, which is the caller's cue to regenerate.
    pub fn set_seed(&mut self, v: u32) -> (changed: bool)
        ensures
            final(self).params.seed == (if v > SEED_MAX { SEED_MAX } else { v }),
            final(self).params.frequency_milli == old(self).params.frequency_milli,
            final(self).params.octaves == old(self).params.octaves,
            final(self).params.lacunarity_milli == old(self).params.lacunarity_milli,
            final(self).grid == old(self).grid,
            changed == (final(self).params.seed != old(self).params.seed),
            old(self).wf() ==> final(self).wf(),
    {
        let nv: u32 = if v > SEED_MAX { SEED_MAX } else { v };
        let changed = nv != self.params.seed;
        self.params.seed = nv;
        changed
    }

    /// Sets the frequency, in thousandths, confined to its slider's range;
    /// reports whether the stored value changed.
    pub fn set_frequency_milli(&mut self, v: u64) -> (changed: bool)
        ensures
            final(self).params.frequency_milli == (if v > FREQUENCY_MILLI_MAX { FREQUENCY_MILLI_MAX } else { v }),
            final(self).params.seed == old(self).params.seed,
            final(self).params.octaves == old(self).params.octaves,
            final(self).params.lacunarity_milli == old(self).params.lacunarity_milli,
            final(self).grid == old(self).grid,
            changed == (final(self).params.frequency_milli != old(self).params.frequency_milli),
            old(self).wf() ==> final(self).wf(),
    {
        let nv: u64 = if v > FREQUENCY_MILLI_MAX { FREQUENCY_MILLI_MAX } else { v };
        let changed = nv != self.params.frequency_milli;
        self.params.frequency_milli = nv;
        changed
    }

    /// Sets the octave count, confined to its slider's range; reports
    /// whether the stored value changed. Zero octaves is a valid setting
    /// like any other: regeneration must still yield a valid grid.
    pub fn set_octaves(&mut self, v: usize) -> (changed: bool)
        ensures
            final(self).params.octaves == (if v > OCTAVES_MAX { OCTAVES_MAX } else { v }),
            final(self).params.seed == old(self).params.seed,
            final(self).params.frequency_milli == old(self).params.frequency_milli,
            final(self).params.lacunarity_milli == old(self).params.lacunarity_milli,
            final(self).grid == old(self).grid,
            changed == (final(self).params.octaves != old(self).params.octaves),
            old(self).wf() ==> final(self).wf(),
    {
        let nv: usize = if v > OCTAVES_MAX { OCTAVES_MAX } else { v };
        let changed = nv != self.params.octaves;
        self.params.octaves = nv;
        changed
    }

    /// Sets the lacunarity, in thousandths, confined to its slider's range;
    /// reports whether the stored value changed.
    pub fn set_lacunarity_milli(&mut self, v: u64) -> (changed: bool)
        ensures
            final(self).params.lacunarity_milli == (if v > LACUNARITY_MILLI_MAX { LACUNARITY_MILLI_MAX } else { v }),
            final(self).params.seed == old(self).params.seed,
            final(self).params.frequency_milli == old(self).params.frequency_milli,
            final(self).params.octaves == old(self).params.octaves,
            final(self).grid == old(self).grid,
            changed == (final(self).params.lacunarity_milli != old(self).params.lacunarity_milli),
            old(self).wf() ==> final(self).wf(),
    {
        let nv: u64 = if v > LACUNARITY_MILLI_MAX { LACUNARITY_MILLI_MAX } else { v };
        let changed = nv != self.params.lacunarity_milli;
        self.params.lacunarity_milli = nv;
        changed
    }

    /// Installs a freshly sampled grid: `raw` holds `side * side` fixed-point
    /// samples in row-major order. On a length mismatch the model is left
    /// untouched and `false` comes back; otherwise the old grid is dropped
    /// wholesale for the new one, each cell clamped into the sample domain.
    /// The parameters are never touched.
    pub fn apply_samples(&mut self, side: usize, raw: &Vec<i64>) -> (ok: bool)
        ensures
            final(self).params == old(self).params,
            ok == (raw@.len() == side * side),
            ok ==> final(self).grid.wf() && final(self).grid.is_clamped_from(side as int, raw@),
            !ok ==> final(self).grid == old(self).grid,
            old(self).wf() ==> final(self).wf(),
    {
        match NoiseGrid::from_raw_samples(side, raw) {
            Some(g) => {
                self.grid = g;
                true
            },
            None => false,
        }
    }

    /// The color of the pixel at column `x`, row `y`: the cell's sample run
    /// through the color table.
    pub fn color_at(&self, x: usize, y: usize) -> (c: Rgb)
        requires
            self.wf(),
            x < self.grid.side,
            y < self.grid.side,
        ensures
            c == color_spec(self.grid.cells@[y * self.grid.side + x] as int),
    {
        crate::color::color_for(self.grid.get(x, y))
    }
}

} // verus!
