//! The color table: a noise sample's magnitude, bucketed in tenths of the
//! sample domain, picks one of ten fixed RGB triples.

use vstd::prelude::*;

verus! {

/// A noise sample is fixed point: `SAMPLE_ONE` stands for the value 1.0, so
/// the valid sample domain is `[-SAMPLE_ONE, SAMPLE_ONE]`.
pub const SAMPLE_ONE: i64 = 10_000_000;

/// An RGB color, one byte per channel.
#[derive(Clone, Copy, PartialEq, Eq, Structural, Debug)]
pub struct Rgb {
    pub r: u8,
    pub g: u8,
    pub b: u8,
}

/// Magnitude of a sample.
pub open spec fn sample_abs(v: int) -> int {
    if v < 0 {
        -v
    } else {
        v
    }
}

/// The fixed table of ten colors: deep blue for the lowest bucket, then
/// greens brightening toward white for the highest.
pub open spec fn table_color(i: int) -> Rgb {
    if i <= 0 {
        Rgb { r: 0x00, g: 0x00, b: 0xFF }
    } else if i == 1 {
        Rgb { r: 0x0D, g: 0xA5, b: 0x0D }
    } else if i == 2 {
        Rgb { r: 0x10, g: 0xCB, b: 0x10 }
    } else if i == 3 {
        Rgb { r: 0x18, g: 0xED, b: 0x18 }
    } else if i == 4 {
        Rgb { r: 0x3F, g: 0xF0, b: 0x3F }
    } else if i == 5 {
        Rgb { r: 0x65, g: 0xF3, b: 0x65 }
    } else if i == 6 {
        Rgb { r: 0x8C, g: 0xF6, b: 0x8C }
    } else if i == 7 {
        Rgb { r: 0xB2, g: 0xF9, b: 0xB2 }
    } else if i == 8 {
        Rgb { r: 0xD9, g: 0xFC, b: 0xD9 }
    } else {
        Rgb { r: 0xFF, g: 0xFF, b: 0xFF }
    }
}

/// Bucket index of a sample: each bucket covers one tenth of the domain,
/// upper bound exclusive, except the last, which is inclusive at the top so
/// that a magnitude of exactly `SAMPLE_ONE` still falls in it.
pub open spec fn bucket_of(v: int) -> int {
    let a = sample_abs(v);
    if a < 1_000_000 {
        0
    } else if a < 2_000_000 {
        1
    } else if a < 3_000_000 {
        2
    } else if a < 4_000_000 {
        3
    } else if a < 5_000_000 {
        4
    } else if a < 6_000_000 {
        5
    } else if a < 7_000_000 {
        6
    } else if a < 8_000_000 {
        7
    } else if a < 9_000_000 {
        8
    } else {
        9
    }
}

/// The color a sample maps to: the table entry of its bucket.
pub open spec fn color_spec(v: int) -> Rgb {
    table_color(bucket_of(v))
}

/// Maps one noise sample to its bucket's color. The sample must lie in the
/// valid domain; `NoiseGrid` clamps every cell into it, so grid cells are
/// always acceptable here.
pub fn color_for(value: i64) -> (c: Rgb)
    requires
        -SAMPLE_ONE <= value <= SAMPLE_ONE,
    ensures
        c == color_spec(value as int),
{
    let a: i64 = if value < 0 {
        -value
    } else {
        value
    };
    if a < 1_000_000 {
        Rgb { r: 0x00, g: 0x00, b: 0xFF }
    } else if a < 2_000_000 {
        Rgb { r: 0x0D, g: 0xA5, b: 0x0D }
    } else if a < 3_000_000 {
        Rgb { r: 0x10, g: 0xCB, b: 0x10 }
    } else if a < 4_000_000 {
        Rgb { r: 0x18, g: 0xED, b: 0x18 }
    } else if a < 5_000_000 {
        Rgb { r: 0x3F, g: 0xF0, b: 0x3F }
    } else if a < 6_000_000 {
        Rgb { r: 0x65, g: 0xF3, b: 0x65 }
    } else if a < 7_000_000 {
        Rgb { r: 0x8C, g: 0xF6, b: 0x8C }
    } else if a < 8_000_000 {
        Rgb { r: 0xB2, g: 0xF9, b: 0xB2 }
    } else if a < 9_000_000 {
        Rgb { r: 0xD9, g: 0xFC, b: 0xD9 }
    } else {
        Rgb { r: 0xFF, g: 0xFF, b: 0xFF }
    }
}

/// Every in-domain sample lands in one of the ten buckets, and its color is
/// that bucket's table entry.
pub proof fn lemma_color_in_table(v: int)
    requires
        -SAMPLE_ONE <= v <= SAMPLE_ONE,
    ensures
        0 <= bucket_of(v) < 10,
        color_spec(v) == table_color(bucket_of(v)),
{
}

/// Distinct buckets carry distinct colors, so together with
/// `lemma_color_in_table` a sample's color names exactly one bucket.
pub proof fn lemma_table_injective(i: int, j: int)
    requires
        0 <= i < 10,
        0 <= j < 10,
        i != j,
    ensures
        table_color(i) != table_color(j),
{
}

/// The lookup sees only the magnitude: a sample and its negation get the
/// same color.
pub proof fn lemma_color_symmetric(v: int)
    ensures
        color_spec(v) == color_spec(-v),
{
}

} // verus!
