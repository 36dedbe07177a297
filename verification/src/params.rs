//! The tunable noise parameters and the ranges the control panel confines
//! them to. Frequency and lacunarity are fixed point in thousandths, so the
//! whole parameter set is plain integers.

use vstd::prelude::*;

verus! {

/// Largest seed the panel's slider offers.
pub const SEED_MAX: u32 = 65534;

/// Largest frequency, in thousandths: stands for 10.0.
pub const FREQUENCY_MILLI_MAX: u64 = 10_000;

/// Largest octave count.
pub const OCTAVES_MAX: usize = 10;

/// Largest lacunarity, in thousandths: stands for 10.0.
pub const LACUNARITY_MILLI_MAX: u64 = 10_000;

/// The parameters of the fractal noise field. `frequency_milli` and
/// `lacunarity_milli` are in thousandths: 2000 stands for 2.0.
#[derive(Clone, Copy, PartialEq, Eq, Structural, Debug)]
pub struct Parameters {
    /// Seeds the pseudo-random generator, for reproducibility.
    pub seed: u32,
    /// Base spatial scale of the field, in thousandths.
    pub frequency_milli: u64,
    /// How many layers of detail are summed.
    pub octaves: usize,
    /// Frequency multiplier between successive octaves, in thousandths.
    pub lacunarity_milli: u64,
}

/// The parameters a fresh session starts from: seed 0, frequency 2.0, four
/// octaves, lacunarity 2.0.
pub open spec fn default_params() -> Parameters {
    Parameters { seed: 0, frequency_milli: 2000, octaves: 4, lacunarity_milli: 2000 }
}

impl Parameters {
    /// Every field inside the range its slider offers.
    pub open spec fn valid(self) -> bool {
        &&& self.seed <= SEED_MAX
        &&& self.frequency_milli <= FREQUENCY_MILLI_MAX
        &&& self.octaves <= OCTAVES_MAX
        &&& self.lacunarity_milli <= LACUNARITY_MILLI_MAX
    }
}

impl Default for Parameters {
    /// The defaults shown when the panel first opens.
    fn default() -> (p: Parameters)
        ensures
            p == default_params(),
            p.valid(),
    {
        Parameters { seed: 0, frequency_milli: 2000, octaves: 4, lacunarity_milli: 2000 }
    }
}

} // verus!
