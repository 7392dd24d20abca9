//! Scale mapping: positioning a fixed-point value on a dial, bar or
//! wedge gauge.
//!
//! A position on a scale is a permille (thousandths of the whole sweep,
//! `0..=1000`), and an angle is given in millionths of a half-turn: a
//! result of `a` stands for `a / 1_000_000 * π` radians. Both are exact
//! integer quantities.

use vstd::prelude::*;
use crate::num::{in_range, Fixed};
use crate::label::Label;

verus! {

/// How the body of a gauge is drawn.
#[derive(Debug, Clone, Copy, PartialEq, Eq, Structural)]
pub enum GaugeStyle {
    IndicatorOnly,
    Outline,
    Filled,
    Dashed,
}

/// Tick-mark metadata, carried through unchanged for the rendering
/// backend; positions are fixed-point channel values.
#[derive(Debug, Clone)]
pub enum Divisions {
    /// No tick marks.
    Unmarked,
    /// Ticks at the given positions.
    Uniform(Vec<Fixed>),
    /// Labelled major ticks plus plain minor ticks.
    MajorMinor(Vec<(Label, Fixed)>, Vec<Fixed>),
}

/// A numeric range with tick metadata and a drawing style: `Scale(min,
/// max, divisions, style)`. Callers assume `min < max`; a non-positive
/// range is a configuration error rejected at validation time.
#[derive(Debug, Clone)]
pub struct Scale(pub Fixed, pub Fixed, pub Divisions, pub GaugeStyle);

/// The scale's endpoints are in the working range and span a positive
/// range.
pub open spec fn scale_valid(min: i64, max: i64) -> bool {
    in_range(min) && in_range(max) && min < max
}

/// Where `v` sits between `min` and `max`, as a floor-rounded permille
/// clamped into `[0, 1000]`: values at or below `min` map to `0`, values
/// at or beyond `max` map to `1000`.
pub open spec fn percent_of(min: int, max: int, v: int) -> int
    recommends
        min < max,
{
    if v <= min {
        0
    } else if v >= max {
        1000
    } else {
        (v - min) * 1000 / (max - min)
    }
}

/// The dial angle for a permille position `p`: the sweep is 225° in
/// total, centred on zero, so the angle runs linearly from `-0.625 π` at
/// `p == 0` to `+0.625 π` at `p == 1000`. The result counts millionths
/// of `π` radians.
pub open spec fn angle_of(p: int) -> int {
    1250 * p - 625000
}

impl Scale {
    /// Whether the scale is well formed (see `scale_valid`); a scale
    /// failing this is a configuration error.
    pub fn valid(&self) -> (r: bool)
        ensures
            r == scale_valid(self.0, self.1),
    {
        -crate::num::FIXED_LIMIT <= self.0 && self.0 <= crate::num::FIXED_LIMIT
            && -crate::num::FIXED_LIMIT <= self.1 && self.1 <= crate::num::FIXED_LIMIT
            && self.0 < self.1
    }

    /// Width of the range.
    pub fn range(&self) -> (r: Fixed)
        requires
            in_range(self.0),
            in_range(self.1),
        ensures
            r == self.1 - self.0,
    {
        self.1 - self.0
    }

    /// Map a channel value to its clamped permille position on the scale
    /// (see `percent_of`).
    pub fn to_percent(&self, val: Fixed) -> (r: i64)
        requires
            scale_valid(self.0, self.1),
            in_range(val),
        ensures
            r == percent_of(self.0 as int, self.1 as int, val as int),
            0 <= r <= 1000,
    {
        if val <= self.0 {
            0
        } else if val >= self.1 {
            1000
        } else {
            let num: u64 = (val - self.0) as u64 * 1000;
            let den: u64 = (self.1 - self.0) as u64;
            let q: u64 = num / den;
            proof {
                assert((num as int) / (den as int) < 1000) by (nonlinear_arith)
                    requires
                        0 < den,
                        num == (val - self.0) * 1000,
                        den == self.1 - self.0,
                        val - self.0 < den,
                ;
            }
            q as i64
        }
    }

    /// Map a channel value to its dial angle, in millionths of `π`
    /// radians (see `angle_of`); the result always lies within the
    /// `±0.625 π` sweep.
    pub fn to_angle(&self, val: Fixed) -> (r: i64)
        requires
            scale_valid(self.0, self.1),
            in_range(val),
        ensures
            r == angle_of(percent_of(self.0 as int, self.1 as int, val as int)),
            -625000 <= r <= 625000,
    {
        1250 * self.to_percent(val) - 625000
    }
}

/// The two ends of a valid scale map to angles that are antisymmetric
/// around zero and fill the whole sweep: `min` lands at `-0.625 π`,
/// `max` at `+0.625 π`, and out-of-range values clamp to those same two
/// extremes.
pub proof fn lemma_angle_endpoints(min: i64, max: i64, v: int)
    requires
        scale_valid(min, max),
    ensures
        angle_of(percent_of(min as int, max as int, min as int)) == -625000,
        angle_of(percent_of(min as int, max as int, max as int)) == 625000,
        angle_of(percent_of(min as int, max as int, min as int))
            == -angle_of(percent_of(min as int, max as int, max as int)),
        v <= min ==> angle_of(percent_of(min as int, max as int, v)) == -625000,
        v >= max ==> angle_of(percent_of(min as int, max as int, v)) == 625000,
{
}

} // verus!
