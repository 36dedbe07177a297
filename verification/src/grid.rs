//! The noise grid: a square, row-major grid of fixed-point samples, every
//! cell clamped into the valid sample domain when the grid is built.

use vstd::prelude::*;
use crate::color::SAMPLE_ONE;

verus! {

/// A raw sample forced into the valid domain `[-SAMPLE_ONE, SAMPLE_ONE]`.
pub open spec fn clamp_spec(v: int) -> int {
    if v < -(SAMPLE_ONE as int) {
        -(SAMPLE_ONE as int)
    } else if v > SAMPLE_ONE as int {
        SAMPLE_ONE as int
    } else {
        v
    }
}

/// A square grid of noise samples: `side * side` cells in row-major order,
/// regenerated wholesale whenever the parameters change and read cell by
/// cell during rendering.
pub struct NoiseGrid {
    pub side: usize,
    pub cells: Vec<i64>,
}

impl NoiseGrid {
    /// Well-formed: exactly `side * side` cells, each inside the sample
    /// domain, so every cell is acceptable to the color lookup.
    pub open spec fn wf(self) -> bool {
        &&& self.cells@.len() == self.side * self.side
        &&& forall|i: int|
            0 <= i < self.cells@.len() ==> -SAMPLE_ONE <= #[trigger] self.cells@[i] <= SAMPLE_ONE
    }

    /// The relation `from_raw_samples` establishes: the grid has the given
    /// side, one cell per raw sample, and each cell is the raw sample
    /// clamped into the domain.
    pub open spec fn is_clamped_from(self, side: int, raw: Seq<i64>) -> bool {
        &&& self.side == side
        &&& self.cells@.len() == raw.len()
        &&& forall|i: int| 0 <= i < raw.len() ==> #[trigger] self.cells@[i] as int == clamp_spec(raw[i] as int)
    }

    /// A grid with no cells, the state before any samples have arrived.
    pub fn empty() -> (g: NoiseGrid)
        ensures
            g.wf(),
            g.side == 0,
    {
        NoiseGrid { side: 0, cells: Vec::new() }
    }

    /// Builds a grid from raw fixed-point samples in row-major order.
    /// Succeeds exactly when `raw` holds `side * side` samples. Each sample
    /// is clamped into the valid domain rather than trusted: a sampler that
    /// strays outside `[-1, 1]` yields a saturated cell, never an invalid
    /// grid.
    pub fn from_raw_samples(side: usize, raw: &Vec<i64>) -> (r: Option<NoiseGrid>)
        ensures
            match r {
                Some(g) => {
                    &&& raw@.len() == side * side
                    &&& g.wf()
                    &&& g.is_clamped_from(side as int, raw@)
                },
                None => raw@.len() != side * side,
            },
    {
        let l: usize = raw.len();
        let n = match side.checked_mul(side) {
            Some(n) => n,
            None => {
                proof {
                    assert(l < side * side) by (nonlinear_arith)
                        requires
                            side * side > usize::MAX,
                            l <= usize::MAX,
                    ;
                }
                return None;
            },
        };
        if l != n {
            return None;
        }
        let mut cells: Vec<i64> = Vec::new();
        let mut i: usize = 0;
        while i < raw.len()
            invariant
                i <= raw@.len(),
                cells@.len() == i,
                forall|j: int| 0 <= j < i ==> #[trigger] cells@[j] as int == clamp_spec(raw@[j] as int),
            decreases raw@.len() - i,
        {
            cells.push(clamp_sample(raw[i]));
            i = i + 1;
        }
        Some(NoiseGrid { side, cells })
    }

    /// The sample at column `x`, row `y`.
    pub fn get(&self, x: usize, y: usize) -> (v: i64)
        requires
            self.wf(),
            x < self.side,
            y < self.side,
        ensures
            v == self.cells@[y * self.side + x],
            -SAMPLE_ONE <= v <= SAMPLE_ONE,
    {
        let l: usize = self.cells.len();
        proof {
            assert(y * self.side + x < self.side * self.side) by (nonlinear_arith)
                requires
                    x < self.side,
                    y < self.side,
            ;
            assert(self.side * self.side == l);
        }
        self.cells[y * self.side + x]
    }
}

/// Forces one raw sample into the valid domain.
pub fn clamp_sample(v: i64) -> (c: i64)
    ensures
        c as int == clamp_spec(v as int),
        -SAMPLE_ONE <= c <= SAMPLE_ONE,
{
    if v < -SAMPLE_ONE {
        -SAMPLE_ONE
    } else if v > SAMPLE_ONE {
        SAMPLE_ONE
    } else {
        v
    }
}

/// Grid construction is deterministic: two grids built from the same side
/// and the same raw samples agree cell for cell, so regenerating without
/// changing anything reproduces the grid exactly.
pub proof fn lemma_generation_deterministic(g1: NoiseGrid, g2: NoiseGrid, side: int, raw: Seq<i64>)
    requires
        g1.is_clamped_from(side, raw),
        g2.is_clamped_from(side, raw),
    ensures
        g1.side == g2.side,
        g1.cells@ == g2.cells@,
{
    assert forall|i: int| 0 <= i < raw.len() implies g1.cells@[i] == g2.cells@[i] by {
        assert(g1.cells@[i] as int == clamp_spec(raw[i] as int));
        assert(g2.cells@[i] as int == clamp_spec(raw[i] as int));
    }
    assert(g1.cells@ =~= g2.cells@);
}

} // verus!
